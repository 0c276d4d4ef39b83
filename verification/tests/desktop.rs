use mangogeneration::brain::Platform;
use mangogeneration::wallpaper::{set_desktop_wallpaper, WallpaperAction};

fn tool(a: &WallpaperAction) -> (String, Vec<String>) {
    match a {
        WallpaperAction::TryTool(c) => (c.program.clone(), c.args.clone()),
        _ => panic!("a tool was expected"),
    }
}

#[test]
fn linux_tries_tools_in_order() {
    let (mut s, first) = set_desktop_wallpaper(Platform::Linux, "w.png", "/home/u/w.png", Some("/home/u/w.png".to_string()));
    assert_eq!(tool(&first), ("gsettings".to_string(), vec![
        "set".to_string(), "org.gnome.desktop.background".to_string(), "picture-uri".to_string(), "file:///home/u/w.png".to_string(),
    ]));
    let second = s.tool_result(false);
    assert_eq!(tool(&second).0, "xfconf-query");
    assert_eq!(tool(&second).1.last().unwrap(), "/home/u/w.png");
    assert_eq!(tool(&s.tool_result(false)), ("feh".to_string(), vec!["--bg-fill".to_string(), "w.png".to_string()]));
    assert_eq!(tool(&s.tool_result(false)).0, "nitrogen");
    assert_eq!(tool(&s.tool_result(false)).0, "hsetroot");
    match s.tool_result(false) {
        WallpaperAction::Finished(r) => assert_eq!(
            r,
            Err("Не удалось установить обои: не найден поддерживаемый инструмент (gsettings, feh, nitrogen, hsetroot)".to_string())
        ),
        _ => panic!(),
    }
}

#[test]
fn linux_stops_at_first_success() {
    let (mut s, _) = set_desktop_wallpaper(Platform::Linux, "w.png", "/w.png", None);
    let xfce = s.tool_result(false);
    assert_eq!(tool(&xfce).1.last().unwrap(), "w.png");
    match s.tool_result(true) {
        WallpaperAction::Finished(r) => assert_eq!(r, Ok(())),
        _ => panic!(),
    }
}

#[test]
fn other_systems() {
    match set_desktop_wallpaper(Platform::Windows, "C:\\w.png", "C:\\w.png", None).1 {
        WallpaperAction::SystemCall(p) => assert_eq!(p, "C:\\w.png"),
        _ => panic!(),
    }
    match set_desktop_wallpaper(Platform::Other, "w.png", "/w.png", None).1 {
        WallpaperAction::Finished(r) => assert_eq!(r, Err("Установка обоев поддерживается только на Linux и Windows".to_string())),
        _ => panic!(),
    }
}
