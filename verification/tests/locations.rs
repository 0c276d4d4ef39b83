use mangogeneration::resources::{
    bundled_config_candidates, config_dir, config_file, ensure_config, find_resource,
    resource_candidates, ConfigAction,
};
use mangogeneration::text::{i32_text, join_path, u64_text};

fn strings(v: &[&str]) -> Vec<String> {
    v.iter().map(|s| s.to_string()).collect()
}

#[test]
fn config_locations() {
    assert_eq!(config_dir(Some("/opt/app".to_string())).as_deref(), Some("/opt/app/mango"));
    assert_eq!(config_file(Some("/opt/app/".to_string())).as_deref(), Some("/opt/app/mango/config.lua"));
    assert_eq!(config_file(None), None);
    assert_eq!(bundled_config_candidates(), strings(&["lua/config.lua", "../lua/config.lua", "../../lua/config.lua"]));
}

#[test]
fn search_order() {
    let rel = strings(&["brain/brain", "brain"]);
    assert_eq!(
        resource_candidates(&rel, Some("/opt/x/target/release".to_string()), Some("/opt/x".to_string())),
        strings(&[
            "brain/brain",
            "brain",
            "/opt/x/target/release/brain/brain",
            "/opt/x/target/release/brain",
            "/opt/x/brain/brain",
            "/opt/x/brain",
        ])
    );
    assert_eq!(resource_candidates(&rel, None, Some("/r".to_string())), rel);
}

#[test]
fn first_existing_resource() {
    let probes = strings(&["a", "b", "c"]);
    assert_eq!(find_resource(&probes, &vec![false, true, true]).as_deref(), Some("b"));
    assert_eq!(find_resource(&probes, &vec![false, false, false]), None);
    assert_eq!(find_resource(&probes, &vec![false]), None);
}

#[test]
fn texts() {
    assert_eq!(join_path("a", "/b"), "/b");
    assert_eq!(join_path("a/", "b"), "a/b");
    assert_eq!(u64_text(0), "0");
    assert_eq!(u64_text(1234567890), "1234567890");
    assert_eq!(u64_text(u64::MAX), "18446744073709551615");
    assert_eq!(i32_text(-45), "-45");
    assert_eq!(i32_text(i32::MAX), "2147483647");
}

#[test]
fn config_created_from_template() {
    let (mut setup, action) = ensure_config(Some("/app".to_string()));
    match action {
        ConfigAction::CreateFolder(d) => assert_eq!(d, "/app/mango"),
        _ => panic!(),
    }
    match setup.folder_created(Ok(())) {
        ConfigAction::CheckFile(f) => assert_eq!(f, "/app/mango/config.lua"),
        _ => panic!(),
    }
    assert!(matches!(setup.file_checked(false), ConfigAction::FindTemplate));
    match setup.template_found(Some("lua/config.lua".to_string())) {
        ConfigAction::CopyTemplate { from, to } => {
            assert_eq!(from, "lua/config.lua");
            assert_eq!(to, "/app/mango/config.lua");
        }
        _ => panic!(),
    }
    match setup.template_copied(Ok(())) {
        ConfigAction::Finished(r) => assert_eq!(r, Ok("/app/mango/config.lua".to_string())),
        _ => panic!(),
    }
}

#[test]
fn config_setup_errors() {
    match ensure_config(None).1 {
        ConfigAction::Finished(r) => assert_eq!(r, Err("Не удалось определить папку рядом с бинарником".to_string())),
        _ => panic!(),
    }
    let (mut s, _) = ensure_config(Some("/app".to_string()));
    match s.folder_created(Err("denied".to_string())) {
        ConfigAction::Finished(r) => assert_eq!(r, Err("Не удалось создать /app/mango: denied".to_string())),
        _ => panic!(),
    }
    let (mut s, _) = ensure_config(Some("/app".to_string()));
    s.folder_created(Ok(()));
    match s.file_checked(true) {
        ConfigAction::Finished(r) => assert_eq!(r, Ok("/app/mango/config.lua".to_string())),
        _ => panic!(),
    }
    let (mut s, _) = ensure_config(Some("/app".to_string()));
    s.folder_created(Ok(()));
    s.file_checked(false);
    match s.template_found(None) {
        ConfigAction::Finished(r) => assert_eq!(r, Err("config.lua не найден в ресурсах".to_string())),
        _ => panic!(),
    }
    let (mut s, _) = ensure_config(Some("/app".to_string()));
    s.folder_created(Ok(()));
    s.file_checked(false);
    s.template_found(Some("t".to_string()));
    match s.template_copied(Err("disk full".to_string())) {
        ConfigAction::Finished(r) => assert_eq!(r, Err("Не удалось скопировать config.lua: disk full".to_string())),
        _ => panic!(),
    }
}
