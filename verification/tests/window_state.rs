use mangogeneration::brain::FileAnalysis;
use mangogeneration::gui::{
    conversion_output, lua_wallpaper_output, uses_dark_visuals, wallpaper_type_str, MangoApp,
    OutputFormat, Tab, Theme, WallpaperType,
};
use mangogeneration::lua::WallpaperSettings;

fn file(name: &str) -> FileAnalysis {
    FileAnalysis {
        name: name.to_string(),
        path: format!("/d/{}", name),
        extension: String::new(),
        size: "1 B".to_string(),
        size_bytes: 1,
        category: "Other".to_string(),
        target_folder: "Other".to_string(),
    }
}

#[test]
fn theme_names_round_trip() {
    for t in [Theme::System, Theme::Dark, Theme::Light] {
        assert!(Theme::from_str(t.as_str()) == t);
    }
    assert_eq!(Theme::Dark.as_str(), "dark");
    assert!(Theme::from_str("purple") == Theme::System);
    assert!(Theme::from_str("Dark") == Theme::System);
}

#[test]
fn dark_visuals() {
    assert!(uses_dark_visuals(Theme::Dark, Some(false)));
    assert!(!uses_dark_visuals(Theme::Light, Some(true)));
    assert!(uses_dark_visuals(Theme::System, Some(true)));
    assert!(!uses_dark_visuals(Theme::System, None));
}

#[test]
fn initial_window() {
    let app = MangoApp::default();
    assert_eq!(app.status, "Готов к работе");
    assert_eq!(app.wallpaper_output, "wallpaper.png");
    assert!(app.active_tab == Tab::Generator);
    assert!(app.wallpaper_type == WallpaperType::Gradient);
    assert!(!app.is_busy && !app.lua_loaded && app.last_wallpaper.is_none());
    assert!(app.theme == Theme::System);
}

#[test]
fn start_up_theme() {
    assert!(MangoApp::new(true, Some("dark".to_string())).theme == Theme::Dark);
    assert!(MangoApp::new(false, Some("dark".to_string())).theme == Theme::System);
    assert!(MangoApp::new(true, None).theme == Theme::System);
    assert!(MangoApp::new(true, None).lua_loaded);
}

#[test]
fn generation_round() {
    let mut app = MangoApp::default();
    app.wallpaper_type = WallpaperType::Pattern;
    let (kind, output) = app.start_generation().unwrap();
    assert_eq!(kind, "pattern");
    assert_eq!(output, "wallpaper.png");
    assert!(app.is_busy);
    assert_eq!(app.status, "Генерация...");
    assert!(app.start_generation().is_none());
    assert!(app.finish_generation(Ok("/tmp/w.png".to_string())));
    assert!(!app.is_busy);
    assert_eq!(app.status, "Сохранено: /tmp/w.png");
    assert_eq!(app.last_wallpaper.as_deref(), Some("/tmp/w.png"));
    app.start_generation();
    assert!(!app.finish_generation(Err("boom".to_string())));
    assert_eq!(app.status, "Ошибка: boom");
    assert_eq!(app.last_wallpaper.as_deref(), Some("/tmp/w.png"));
}

#[test]
fn wallpaper_type_names() {
    assert_eq!(wallpaper_type_str(WallpaperType::Gradient), "gradient");
    assert_eq!(wallpaper_type_str(WallpaperType::Dark), "dark");
}

#[test]
fn lua_generation_round() {
    let mut app = MangoApp::default();
    assert!(app.start_lua_generation(Err("no file".to_string())).is_none());
    assert_eq!(app.status, "Ошибка Lua: no file");
    assert!(!app.is_busy);
    let settings = WallpaperSettings { wallpaper_type: "dark".to_string(), color_start: None, color_end: None };
    assert_eq!(lua_wallpaper_output(&settings), "wallpaper_dark.png");
    let (kind, output) = app.start_lua_generation(Ok(settings)).unwrap();
    assert_eq!((kind.as_str(), output.as_str()), ("dark", "wallpaper_dark.png"));
    assert_eq!(app.status, "Генерация по Lua-правилам...");
    assert!(app.finish_lua_generation(Ok("wallpaper_dark.png".to_string())));
    assert_eq!(app.status, "Сохранено (Lua): wallpaper_dark.png");
}

#[test]
fn set_wallpaper_round() {
    let mut app = MangoApp::default();
    assert!(app.start_set_wallpaper().is_none());
    app.last_wallpaper = Some("w.png".to_string());
    assert_eq!(app.start_set_wallpaper().as_deref(), Some("w.png"));
    assert_eq!(app.status, "Установка обоев...");
    app.finish_set_wallpaper("w.png", Ok(()));
    assert_eq!(app.status, "Обои установлены: w.png");
    app.start_set_wallpaper();
    app.finish_set_wallpaper("w.png", Err("no tool".to_string()));
    assert_eq!(app.status, "Ошибка установки обоев: no tool");
    assert!(!app.is_busy);
}

#[test]
fn analysis_and_copy_round() {
    let mut app = MangoApp::default();
    assert!(app.start_analysis().is_none());
    assert!(!app.start_copy());
    app.sort_folder = "/d".to_string();
    assert_eq!(app.start_analysis().as_deref(), Some("/d"));
    assert_eq!(app.status, "Анализ...");
    app.finish_analysis(Ok(vec![file("a"), file("b")]));
    assert_eq!(app.status, "Найдено файлов: 2");
    app.finish_analysis(Err("x".to_string()));
    assert_eq!(app.status, "Ошибка: x");
    assert_eq!(app.analysis_results.len(), 2);
    assert!(app.start_copy());
    assert_eq!(app.status, "Копирование...");
    assert!(!app.start_copy());
    app.finish_copy(Ok(12));
    assert_eq!(app.status, "Скопировано файлов: 12");
    app.finish_copy(Err("e".to_string()));
    assert_eq!(app.status, "Ошибка: e");
}

#[test]
fn dropped_and_converted_files() {
    let mut app = MangoApp::default();
    app.record_dropped_files(vec![]);
    assert_eq!(app.status, "Готов к работе");
    app.record_dropped_files(vec![Some("/p/a.png".to_string()), None, Some("/p/b.jpg".to_string())]);
    assert_eq!(app.dropped_files, vec!["/p/a.png".to_string(), "/p/b.jpg".to_string()]);
    assert_eq!(app.status, "Загружено файлов: 2");
    app.add_picked_files(vec!["/q/c.bmp".to_string()]);
    assert_eq!(app.dropped_files.len(), 3);
    assert!(app.start_conversion());
    assert_eq!(app.status, "Конвертация...");
    app.finish_conversion(3);
    assert_eq!(app.status, "Конвертировано: 3");
    assert!(!app.is_busy);
}

#[test]
fn conversion_targets() {
    assert_eq!(conversion_output("/p", "a", OutputFormat::Png), "/p/a.png");
    assert_eq!(conversion_output(".", "photo", OutputFormat::Jpeg), "./photo.jpeg");
    assert_eq!(conversion_output("/", "x", OutputFormat::Tga), "/x.tga");
    assert_eq!(conversion_output("", "x", OutputFormat::Bmp), "x.bmp");
    assert_eq!(OutputFormat::Bmp.name(), "BMP");
}

#[test]
fn theme_selection() {
    let mut app = MangoApp::default();
    assert_eq!(app.select_theme(Theme::System), None);
    assert_eq!(app.select_theme(Theme::Light), Some("light"));
    assert!(app.theme == Theme::Light);
    app.select_tab(Tab::Settings);
    assert!(app.active_tab == Tab::Settings);
}

#[test]
fn whole_operations_leave_window_idle() {
    let mut app = MangoApp::default();
    assert!(app.generate(|kind, output| Ok(format!("{}-{}", kind, output))));
    assert!(!app.is_busy);
    assert_eq!(app.last_wallpaper.as_deref(), Some("gradient-wallpaper.png"));
    assert!(!app.generate(|_, _| Err("x".to_string())));
    assert_eq!(app.status, "Ошибка: x");

    let settings = || Ok(WallpaperSettings { wallpaper_type: "pattern".to_string(), color_start: None, color_end: None });
    assert!(app.generate_by_rules(settings, |_, output| Ok(output.to_string())));
    assert_eq!(app.status, "Сохранено (Lua): wallpaper_pattern.png");

    app.set_wallpaper(|path| if path == "wallpaper_pattern.png" { Ok(()) } else { Err("?".to_string()) });
    assert_eq!(app.status, "Обои установлены: wallpaper_pattern.png");

    app.sort_folder = "/d".to_string();
    app.analyze(|folder| Ok(vec![file(folder)]));
    assert_eq!(app.status, "Найдено файлов: 1");
    app.copy_files(|folder, files| Ok(files.len() as i32 + folder.len() as i32));
    assert_eq!(app.status, "Скопировано файлов: 3");

    app.record_dropped_files(vec![Some("a.png".to_string()), Some("b.png".to_string())]);
    app.convert_files(|file| file == "a.png");
    assert_eq!(app.status, "Конвертировано: 1");
    assert!(!app.is_busy);
}

#[test]
fn busy_window_refuses_whole_operations() {
    let mut app = MangoApp::default();
    app.is_busy = true;
    app.last_wallpaper = Some("w.png".to_string());
    assert!(!app.generate(|_, _| panic!("must not run")));
    assert!(!app.generate_by_rules(|| panic!("must not read"), |_, _| panic!("must not run")));
    app.set_wallpaper(|_| panic!("must not run"));
    app.convert_files(|_| panic!("must not run"));
    assert_eq!(app.status, "Готов к работе");
    assert!(app.is_busy);
}

#[test]
fn a_frame_keeps_the_window_idle() {
    let mut app = MangoApp::default();
    app.select_tab(Tab::Sorter);
    assert!(!app.is_busy);
    app.record_dropped_files(vec![None, Some("c.png".to_string())]);
    assert!(!app.is_busy);
    app.add_picked_files(vec!["d.png".to_string()]);
    assert!(!app.is_busy);
    assert_eq!(app.select_theme(Theme::Dark), Some("dark"));
    assert!(!app.is_busy);
    app.sort_folder = "/d".to_string();
    app.analyze(|_| Err("нет папки".to_string()));
    assert_eq!(app.status, "Ошибка: нет папки");
    assert!(!app.is_busy);
    assert!(!app.generate(|_, _| Err("нет инструмента".to_string())));
    assert!(!app.is_busy);
    assert_eq!(app.active_tab, Tab::Sorter);
}
