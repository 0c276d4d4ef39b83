use mangogeneration::lua::{
    apply_sort_rule, collect_rule_names, get_sort_rules, get_theme, get_wallpaper_for_now,
    load_config, save_theme, sort_rule_folder, wallpaper_settings_from, LuaFileInfo, SortReply,
};

const RULES: &str = r#"
Config = { theme = "light" }
SortRules = {
    { name = "Images" },
    { name = "Documents" },
    { pattern = "*.tmp" },
}
function GetWallpaperForNow()
    return { type = "gradient" }
end
function ApplySortRules(file)
    if file.extension == "png" then
        return { folder = "Images" }
    elseif file.extension == "txt" then
        return { note = "no folder" }
    elseif file.size_bytes > 1000 then
        return { folder = "Big" }
    end
    return nil
end
"#;

fn info(name: &str, extension: &str, size_bytes: u64) -> LuaFileInfo {
    LuaFileInfo { name: name.to_string(), extension: extension.to_string(), size_bytes }
}

#[test]
fn load_config_accepts_valid_lua() {
    assert_eq!(load_config(RULES), Ok(()));
}

#[test]
fn load_config_reports_syntax_errors() {
    let err = load_config("this is not lua ((").unwrap_err();
    assert!(err.starts_with("Ошибка выполнения Lua: "), "{}", err);
    assert!(err.len() > "Ошибка выполнения Lua: ".len());
}

#[test]
fn sort_rules_are_listed_in_order() {
    let rules = get_sort_rules(RULES).unwrap();
    assert_eq!(rules, vec!["Images".to_string(), "Documents".to_string()]);
}

#[test]
fn sort_rules_missing_table() {
    let err = get_sort_rules("x = 1").unwrap_err();
    assert!(err.starts_with("SortRules не найден: "), "{}", err);
}

#[test]
fn sort_rules_with_a_bad_entry() {
    let err = get_sort_rules("SortRules = { 5 }").unwrap_err();
    assert!(err.starts_with("Ошибка чтения правила: "), "{}", err);
}

#[test]
fn wallpaper_for_now_reads_type() {
    let s = get_wallpaper_for_now(RULES).unwrap();
    assert_eq!(s.wallpaper_type, "gradient");
    assert!(s.color_start.is_none());
    assert!(s.color_end.is_none());
}

#[test]
fn wallpaper_for_now_defaults_to_dark() {
    let s = get_wallpaper_for_now("function GetWallpaperForNow() return {} end").unwrap();
    assert_eq!(s.wallpaper_type, "dark");
}

#[test]
fn wallpaper_for_now_missing_function() {
    let err = get_wallpaper_for_now("x = 1").unwrap_err();
    assert!(err.starts_with("GetWallpaperForNow не найден: "), "{}", err);
}

#[test]
fn wallpaper_for_now_failing_call() {
    let err = get_wallpaper_for_now("function GetWallpaperForNow() error('boom') end").unwrap_err();
    assert!(err.starts_with("Ошибка вызова GetWallpaperForNow: "), "{}", err);
}

#[test]
fn sort_rule_picks_folder() {
    assert_eq!(apply_sort_rule(RULES, &info("a.png", "png", 10)), Ok(Some("Images".to_string())));
}

#[test]
fn sort_rule_table_without_folder_means_other() {
    assert_eq!(apply_sort_rule(RULES, &info("a.txt", "txt", 10)), Ok(Some("Other".to_string())));
}

#[test]
fn sort_rule_sees_the_size() {
    assert_eq!(apply_sort_rule(RULES, &info("a.bin", "bin", 5000)), Ok(Some("Big".to_string())));
}

#[test]
fn sort_rule_without_table_chooses_nothing() {
    assert_eq!(apply_sort_rule(RULES, &info("a.bin", "bin", 10)), Ok(None));
}

#[test]
fn sort_rule_missing_function() {
    let err = apply_sort_rule("x = 1", &info("a", "", 0)).unwrap_err();
    assert!(err.starts_with("ApplySortRules не найден: "), "{}", err);
}

#[test]
fn sort_rule_failing_call() {
    let err = apply_sort_rule("function ApplySortRules(f) error('bad') end", &info("a", "", 0)).unwrap_err();
    assert!(err.starts_with("Ошибка вызова ApplySortRules: "), "{}", err);
}

#[test]
fn theme_is_read_from_config() {
    assert_eq!(get_theme(RULES), Ok("light".to_string()));
    assert!(get_theme("x = 1").unwrap_err().starts_with("Config не найден: "));
    assert!(get_theme("Config = {}").unwrap_err().starts_with("Config.theme не найден: "));
}

#[test]
fn rule_answers_select_folders() {
    assert_eq!(sort_rule_folder(SortReply::Table { folder: Some("Music".to_string()) }), Some("Music".to_string()));
    assert_eq!(sort_rule_folder(SortReply::Table { folder: None }), Some("Other".to_string()));
    assert_eq!(sort_rule_folder(SortReply::NotTable), None);
}

#[test]
fn wallpaper_settings_default() {
    assert_eq!(wallpaper_settings_from(None).wallpaper_type, "dark");
    assert_eq!(wallpaper_settings_from(Some("pattern".to_string())).wallpaper_type, "pattern");
}

#[test]
fn rule_names_skip_missing() {
    let names = collect_rule_names(vec![Some("a".to_string()), None, Some("b".to_string())]);
    assert_eq!(names, vec!["a".to_string(), "b".to_string()]);
}

#[test]
fn rules_see_the_standard_libraries() {
    assert_eq!(
        load_config("assert(io.write and os.time and string.rep and table.insert and math.floor)"),
        Ok(())
    );
    assert_eq!(load_config("x = load('return 1')(); assert(x == 1)"), Ok(()));
    assert_eq!(load_config("local t = os.time(); x = os.date('%H', t)"), Ok(()));
    let err = load_config("require('no_such_module_here')").unwrap_err();
    assert!(err.starts_with("Ошибка выполнения Lua: "), "{}", err);
}

#[test]
fn saved_theme_is_read_back() {
    assert_eq!(get_theme(&save_theme(RULES, "dark")), Ok("dark".to_string()));
    assert_eq!(get_theme(&save_theme("x = 1", "system")), Ok("system".to_string()));
    assert_eq!(save_theme("", "light"), "\nConfig = Config or {}\nConfig.theme = \"light\"\n");
}

#[test]
fn sort_rule_sees_each_field() {
    let code = r#"
function ApplySortRules(f)
    return { folder = f.name .. "|" .. f.extension .. "|" .. tostring(f.size_bytes) }
end
"#;
    assert_eq!(
        apply_sort_rule(code, &info("photo.png", "png", 42)),
        Ok(Some("photo.png|png|42".to_string()))
    );
}
