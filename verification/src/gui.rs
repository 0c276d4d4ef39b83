//! The state of the main window and every decision it takes: which button may
//! start what, and what the status line says when an operation ends.
//!
//! Drawing the window, the progress bar and the file dialogs stay outside the
//! library; they read this state, hand the user's actions to it, and perform
//! the operations that it starts.

use vstd::prelude::*;
use vstd::string::*;
use crate::brain::FileAnalysis;
use crate::lua::WallpaperSettings;
use crate::text::{i32_text, int_text, join_path, path_join, u64_text};

verus! {

/// The colour theme of the window.
#[derive(PartialEq, Eq, Structural, Clone, Copy, Debug)]
pub enum Theme {
    System,
    Dark,
    Light,
}

/// The name under which a theme is stored.
pub open spec fn theme_name(t: Theme) -> Seq<char> {
    match t {
        Theme::System => "system"@,
        Theme::Dark => "dark"@,
        Theme::Light => "light"@,
    }
}

/// The theme stored under `name`; any unknown name means the system theme.
pub open spec fn theme_of(name: Seq<char>) -> Theme {
    if name == "dark"@ {
        Theme::Dark
    } else if name == "light"@ {
        Theme::Light
    } else {
        Theme::System
    }
}

impl Theme {
    /// The name under which the theme is stored.
    pub fn as_str(&self) -> (r: &'static str)
        ensures
            r@ == theme_name(*self),
    {
        match self {
            Theme::System => "system",
            Theme::Dark => "dark",
            Theme::Light => "light",
        }
    }

    /// The theme stored under `s` (see [`theme_of`]).
    pub fn from_str(s: &str) -> (r: Theme)
        ensures
            r == theme_of(s@),
    {
        let name = String::from_str(s);
        if name == String::from_str("dark") {
            Theme::Dark
        } else if name == String::from_str("light") {
            Theme::Light
        } else {
            Theme::System
        }
    }
}

/// Reading back the name of a theme gives the theme.
pub proof fn theme_name_round_trip(t: Theme)
    ensures
        theme_of(theme_name(t)) == t,
{
    reveal_strlit("dark");
    reveal_strlit("light");
    reveal_strlit("system");
    assert("system"@.len() == 6 && "dark"@.len() == 4 && "light"@.len() == 5);
}

/// Whether the window is drawn dark: the dark theme always, the light theme
/// never, and the system theme when the system reports a dark theme
/// (`system_dark`; none when it reports nothing).
pub fn uses_dark_visuals(theme: Theme, system_dark: Option<bool>) -> (r: bool)
    ensures
        r == match theme {
            Theme::Dark => true,
            Theme::Light => false,
            Theme::System => system_dark == Some(true),
        },
{
    match theme {
        Theme::Dark => true,
        Theme::Light => false,
        Theme::System => match system_dark {
            Some(d) => d,
            None => false,
        },
    }
}

/// The tab shown in the main area.
#[derive(PartialEq, Eq, Structural, Clone, Copy, Debug)]
pub enum Tab {
    Generator,
    Sorter,
    Converter,
    Settings,
}

/// The kind of wallpaper to generate.
#[derive(PartialEq, Eq, Structural, Clone, Copy, Debug)]
pub enum WallpaperType {
    Gradient,
    Pattern,
    Dark,
}

/// The name of a wallpaper kind in the tool's command line.
pub open spec fn wallpaper_type_name(t: WallpaperType) -> Seq<char> {
    match t {
        WallpaperType::Gradient => "gradient"@,
        WallpaperType::Pattern => "pattern"@,
        WallpaperType::Dark => "dark"@,
    }
}

/// The name of a wallpaper kind in the tool's command line.
pub fn wallpaper_type_str(t: WallpaperType) -> (r: &'static str)
    ensures
        r@ == wallpaper_type_name(t),
{
    match t {
        WallpaperType::Gradient => "gradient",
        WallpaperType::Pattern => "pattern",
        WallpaperType::Dark => "dark",
    }
}

/// An image format offered by the converter.
#[derive(PartialEq, Eq, Structural, Clone, Copy, Debug)]
pub enum OutputFormat {
    Png,
    Jpeg,
    Bmp,
    Tga,
}

/// The name of a format as the tool takes it.
pub open spec fn format_name(f: OutputFormat) -> Seq<char> {
    match f {
        OutputFormat::Png => "PNG"@,
        OutputFormat::Jpeg => "JPEG"@,
        OutputFormat::Bmp => "BMP"@,
        OutputFormat::Tga => "TGA"@,
    }
}

/// The file extension of a format: its name in lower case.
pub open spec fn format_extension(f: OutputFormat) -> Seq<char> {
    match f {
        OutputFormat::Png => "png"@,
        OutputFormat::Jpeg => "jpeg"@,
        OutputFormat::Bmp => "bmp"@,
        OutputFormat::Tga => "tga"@,
    }
}

impl OutputFormat {
    /// The name of the format as the tool takes it.
    pub fn name(&self) -> (r: &'static str)
        ensures
            r@ == format_name(*self),
    {
        match self {
            OutputFormat::Png => "PNG",
            OutputFormat::Jpeg => "JPEG",
            OutputFormat::Bmp => "BMP",
            OutputFormat::Tga => "TGA",
        }
    }

    /// The file extension of the format.
    pub fn extension(&self) -> (r: &'static str)
        ensures
            r@ == format_extension(*self),
    {
        match self {
            OutputFormat::Png => "png",
            OutputFormat::Jpeg => "jpeg",
            OutputFormat::Bmp => "bmp",
            OutputFormat::Tga => "tga",
        }
    }
}

/// Where a file whose folder is `parent` and whose name without extension is
/// `stem` is written in the format `format`.
pub open spec fn conversion_target(parent: Seq<char>, stem: Seq<char>, format: OutputFormat) -> Seq<char> {
    path_join(parent, stem + "."@ + format_extension(format))
}

/// Where a converted file is written (see [`conversion_target`]).
pub fn conversion_output(parent: &str, stem: &str, format: OutputFormat) -> (r: String)
    ensures
        r@ == conversion_target(parent@, stem@, format),
{
    let mut name = String::from_str(stem);
    name.append(".");
    name.append(format.extension());
    join_path(parent, name.as_str())
}

/// The name of the wallpaper generated by the time-of-day rules.
pub fn lua_wallpaper_output(settings: &WallpaperSettings) -> (r: String)
    ensures
        r@ == "wallpaper_"@ + settings.wallpaper_type@ + ".png"@,
{
    let mut r = String::from_str("wallpaper_");
    r.append(settings.wallpaper_type.as_str());
    r.append(".png");
    r
}

fn prefixed(prefix: &str, detail: &str) -> (r: String)
    ensures
        r@ == prefix@ + detail@,
{
    let mut r = String::from_str(prefix);
    r.append(detail);
    r
}

/// The state of the main window.
#[derive(Debug)]
pub struct MangoApp {
    pub active_tab: Tab,
    pub status: String,
    pub sort_folder: String,
    pub analysis_results: Vec<FileAnalysis>,
    pub wallpaper_type: WallpaperType,
    pub wallpaper_output: String,
    pub lua_loaded: bool,
    pub dropped_files: Vec<String>,
    pub is_busy: bool,
    pub last_wallpaper: Option<String>,
    pub theme: Theme,
}

/// `a` and `b` agree on everything the user chose: the tab, the folder to
/// sort, the wallpaper kind and name, the files, the theme, and whether the
/// rules were loaded.
pub open spec fn same_choices(a: MangoApp, b: MangoApp) -> bool {
    &&& a.active_tab == b.active_tab
    &&& a.sort_folder == b.sort_folder
    &&& a.wallpaper_type == b.wallpaper_type
    &&& a.wallpaper_output == b.wallpaper_output
    &&& a.lua_loaded == b.lua_loaded
    &&& a.dropped_files == b.dropped_files
    &&& a.theme == b.theme
}

/// `a` and `b` agree on everything but the status line and the busy flag.
pub open spec fn same_data(a: MangoApp, b: MangoApp) -> bool {
    &&& same_choices(a, b)
    &&& a.analysis_results == b.analysis_results
    &&& a.last_wallpaper == b.last_wallpaper
}

/// The state of a window that just opened.
pub open spec fn is_initial(a: MangoApp) -> bool {
    &&& a.active_tab == Tab::Generator
    &&& a.status@ == "Готов к работе"@
    &&& a.sort_folder@ == Seq::<char>::empty()
    &&& a.analysis_results@.len() == 0
    &&& a.wallpaper_type == WallpaperType::Gradient
    &&& a.wallpaper_output@ == "wallpaper.png"@
    &&& !a.lua_loaded
    &&& a.dropped_files@.len() == 0
    &&& !a.is_busy
    &&& a.last_wallpaper is None
    &&& a.theme == Theme::System
}

impl Default for MangoApp {
    fn default() -> (r: MangoApp)
        ensures
            is_initial(r),
    {
        MangoApp {
            active_tab: Tab::Generator,
            status: String::from_str("Готов к работе"),
            sort_folder: String::new(),
            analysis_results: Vec::new(),
            wallpaper_type: WallpaperType::Gradient,
            wallpaper_output: String::from_str("wallpaper.png"),
            lua_loaded: false,
            dropped_files: Vec::new(),
            is_busy: false,
            last_wallpaper: None,
            theme: Theme::System,
        }
    }
}

impl MangoApp {
    /// The window after start-up: the rules were loaded or not, and when they
    /// were, the stored theme name `theme_setting` (if one could be read)
    /// selects the theme.
    pub fn new(lua_loaded: bool, theme_setting: Option<String>) -> (r: MangoApp)
        ensures
            r.lua_loaded == lua_loaded,
            r.theme == match theme_setting {
                Some(t) => if lua_loaded {
                    theme_of(t@)
                } else {
                    Theme::System
                },
                None => Theme::System,
            },
            is_initial(MangoApp { lua_loaded: false, theme: Theme::System, ..r }),
    {
        let mut app = MangoApp::default();
        app.lua_loaded = lua_loaded;
        if lua_loaded {
            if let Some(t) = theme_setting {
                app.theme = Theme::from_str(t.as_str());
            }
        }
        app
    }

    /// Shows `tab`.
    pub fn select_tab(&mut self, tab: Tab)
        ensures
            keeps_idle(*old(self), *final(self)),
            *final(self) == (MangoApp { active_tab: tab, ..*old(self) }),
    {
        self.active_tab = tab;
    }

    /// Whether a new operation may start.
    pub fn can_start(&self) -> (r: bool)
        ensures
            r == !self.is_busy,
    {
        !self.is_busy
    }

    /// Files dropped onto the window: those with a path are added, and the
    /// status line counts all files when any was dropped.
    pub fn record_dropped_files(&mut self, dropped: Vec<Option<String>>)
        ensures
            keeps_idle(*old(self), *final(self)),
            final(self).dropped_files@ == old(self).dropped_files@ + present_paths(dropped@),
            dropped@.len() > 0 ==> final(self).status@ == "Загружено файлов: "@ + int_text(
                final(self).dropped_files@.len() as int,
            ),
            dropped@.len() == 0 ==> final(self).status == old(self).status,
            final(self).is_busy == old(self).is_busy,
            final(self).analysis_results == old(self).analysis_results,
            final(self).last_wallpaper == old(self).last_wallpaper,
            final(self).active_tab == old(self).active_tab,
            final(self).sort_folder == old(self).sort_folder,
            final(self).wallpaper_type == old(self).wallpaper_type,
            final(self).wallpaper_output == old(self).wallpaper_output,
            final(self).lua_loaded == old(self).lua_loaded,
            final(self).theme == old(self).theme,
    {
        let n = dropped.len();
        let mut i: usize = 0;
        while i < n
            invariant
                n == dropped@.len(),
                i <= n,
                self.dropped_files@ == old(self).dropped_files@ + present_paths(dropped@.take(i as int)),
                self.status == old(self).status,
                self.is_busy == old(self).is_busy,
                self.analysis_results == old(self).analysis_results,
                self.last_wallpaper == old(self).last_wallpaper,
                self.active_tab == old(self).active_tab,
                self.sort_folder == old(self).sort_folder,
                self.wallpaper_type == old(self).wallpaper_type,
                self.wallpaper_output == old(self).wallpaper_output,
                self.lua_loaded == old(self).lua_loaded,
                self.theme == old(self).theme,
            decreases n - i,
        {
            assert(dropped@.take(i + 1).drop_last() =~= dropped@.take(i as int));
            match &dropped[i] {
                Some(p) => {
                    self.dropped_files.push(p.clone());
                },
                None => {},
            }
            assert(self.dropped_files@ =~= old(self).dropped_files@ + present_paths(
                dropped@.take(i + 1),
            ));
            i = i + 1;
        }
        assert(dropped@.take(n as int) =~= dropped@);
        if n > 0 {
            self.status = prefixed("Загружено файлов: ", u64_text(self.dropped_files.len() as u64).as_str());
        }
    }

    /// Starts generating a wallpaper unless an operation is running: the
    /// answer is the kind's command-line name and the requested file name.
    pub fn start_generation(&mut self) -> (r: Option<(String, String)>)
        ensures
            old(self).is_busy ==> r is None && *final(self) == *old(self),
            !old(self).is_busy ==> {
                &&& r matches Some(req) && req.0@ == wallpaper_type_name(old(self).wallpaper_type)
                    && req.1@ == old(self).wallpaper_output@
                &&& final(self).is_busy
                &&& final(self).status@ == "Генерация..."@
                &&& same_data(*final(self), *old(self))
            },
    {
        if self.is_busy {
            return None;
        }
        self.is_busy = true;
        self.status = String::from_str("Генерация...");
        Some((String::from_str(wallpaper_type_str(self.wallpaper_type)), self.wallpaper_output.clone()))
    }

    /// Records how a generation ended; a written wallpaper becomes the one
    /// that can be set on the desktop. Answers whether it succeeded.
    pub fn finish_generation(&mut self, result: Result<String, String>) -> (r: bool)
        ensures
            r == result is Ok,
            !final(self).is_busy,
            same_choices(*final(self), *old(self)),
            final(self).analysis_results == old(self).analysis_results,
            match result {
                Ok(path) => final(self).status@ == "Сохранено: "@ + path@
                    && final(self).last_wallpaper == Some(path),
                Err(e) => final(self).status@ == "Ошибка: "@ + e@
                    && final(self).last_wallpaper == old(self).last_wallpaper,
            },
    {
        let ok = match result {
            Ok(path) => {
                self.status = prefixed("Сохранено: ", path.as_str());
                self.last_wallpaper = Some(path);
                true
            },
            Err(e) => {
                self.status = prefixed("Ошибка: ", e.as_str());
                false
            },
        };
        self.is_busy = false;
        ok
    }

    /// Starts generating the wallpaper that the time-of-day rules chose,
    /// unless an operation is running; when the rules could not be read the
    /// status line says why. The answer is the kind and the file name
    /// `wallpaper_<kind>.png`.
    pub fn start_lua_generation(&mut self, settings: Result<WallpaperSettings, String>) -> (r: Option<(String, String)>)
        ensures
            old(self).is_busy ==> r is None && *final(self) == *old(self),
            !old(self).is_busy ==> match settings {
                Ok(s) => {
                    &&& r matches Some(req) && req.0@ == s.wallpaper_type@
                        && req.1@ == "wallpaper_"@ + s.wallpaper_type@ + ".png"@
                    &&& final(self).is_busy
                    &&& final(self).status@ == "Генерация по Lua-правилам..."@
                    &&& same_data(*final(self), *old(self))
                },
                Err(e) => {
                    &&& r is None
                    &&& final(self).status@ == "Ошибка Lua: "@ + e@
                    &&& final(self).is_busy == old(self).is_busy
                    &&& same_data(*final(self), *old(self))
                },
            },
    {
        if self.is_busy {
            return None;
        }
        match settings {
            Ok(s) => {
                self.is_busy = true;
                self.status = String::from_str("Генерация по Lua-правилам...");
                let output = lua_wallpaper_output(&s);
                Some((s.wallpaper_type, output))
            },
            Err(e) => {
                self.status = prefixed("Ошибка Lua: ", e.as_str());
                None
            },
        }
    }

    /// Records how a generation by the time-of-day rules ended. Answers
    /// whether it succeeded.
    pub fn finish_lua_generation(&mut self, result: Result<String, String>) -> (r: bool)
        ensures
            r == result is Ok,
            !final(self).is_busy,
            same_choices(*final(self), *old(self)),
            final(self).analysis_results == old(self).analysis_results,
            match result {
                Ok(path) => final(self).status@ == "Сохранено (Lua): "@ + path@
                    && final(self).last_wallpaper == Some(path),
                Err(e) => final(self).status@ == "Ошибка: "@ + e@
                    && final(self).last_wallpaper == old(self).last_wallpaper,
            },
    {
        let ok = match result {
            Ok(path) => {
                self.status = prefixed("Сохранено (Lua): ", path.as_str());
                self.last_wallpaper = Some(path);
                true
            },
            Err(e) => {
                self.status = prefixed("Ошибка: ", e.as_str());
                false
            },
        };
        self.is_busy = false;
        ok
    }

    /// Starts setting the last generated wallpaper on the desktop, when there
    /// is one and no operation is running; the answer is its path.
    pub fn start_set_wallpaper(&mut self) -> (r: Option<String>)
        ensures
            (old(self).is_busy || old(self).last_wallpaper is None) ==> r is None
                && *final(self) == *old(self),
            !old(self).is_busy && old(self).last_wallpaper is Some ==> {
                &&& r == old(self).last_wallpaper
                &&& final(self).is_busy
                &&& final(self).status@ == "Установка обоев..."@
                &&& same_data(*final(self), *old(self))
            },
    {
        if self.is_busy {
            return None;
        }
        match &self.last_wallpaper {
            Some(path) => {
                let path = path.clone();
                self.is_busy = true;
                self.status = String::from_str("Установка обоев...");
                Some(path)
            },
            None => None,
        }
    }

    /// Records how setting the wallpaper at `path` ended.
    pub fn finish_set_wallpaper(&mut self, path: &str, result: Result<(), String>)
        ensures
            !final(self).is_busy,
            same_data(*final(self), *old(self)),
            match result {
                Ok(()) => final(self).status@ == "Обои установлены: "@ + path@,
                Err(e) => final(self).status@ == "Ошибка установки обоев: "@ + e@,
            },
    {
        match result {
            Ok(()) => {
                self.status = prefixed("Обои установлены: ", path);
            },
            Err(e) => {
                self.status = prefixed("Ошибка установки обоев: ", e.as_str());
            },
        }
        self.is_busy = false;
    }

    /// Starts analysing the chosen folder, when one is chosen; the answer is
    /// the folder.
    pub fn start_analysis(&mut self) -> (r: Option<String>)
        ensures
            old(self).sort_folder@.len() == 0 ==> r is None && *final(self) == *old(self),
            old(self).sort_folder@.len() > 0 ==> {
                &&& r == Some(old(self).sort_folder)
                &&& final(self).is_busy
                &&& final(self).status@ == "Анализ..."@
                &&& same_data(*final(self), *old(self))
            },
    {
        if self.sort_folder.as_str().unicode_len() == 0 {
            return None;
        }
        self.is_busy = true;
        self.status = String::from_str("Анализ...");
        Some(self.sort_folder.clone())
    }

    /// Records how an analysis ended: its files replace the previous ones.
    pub fn finish_analysis(&mut self, result: Result<Vec<FileAnalysis>, String>)
        ensures
            !final(self).is_busy,
            same_choices(*final(self), *old(self)),
            final(self).last_wallpaper == old(self).last_wallpaper,
            match result {
                Ok(files) => final(self).analysis_results == files && final(self).status@
                    == "Найдено файлов: "@ + int_text(files@.len() as int),
                Err(e) => final(self).analysis_results == old(self).analysis_results
                    && final(self).status@ == "Ошибка: "@ + e@,
            },
    {
        match result {
            Ok(files) => {
                let count = u64_text(files.len() as u64);
                self.analysis_results = files;
                self.status = prefixed("Найдено файлов: ", count.as_str());
            },
            Err(e) => {
                self.status = prefixed("Ошибка: ", e.as_str());
            },
        }
        self.is_busy = false;
    }

    /// Starts copying the analysed files into their folders, when there are
    /// any and no operation is running.
    pub fn start_copy(&mut self) -> (r: bool)
        ensures
            r == (!old(self).is_busy && old(self).analysis_results@.len() > 0),
            !r ==> *final(self) == *old(self),
            r ==> final(self).is_busy && final(self).status@ == "Копирование..."@ && same_data(
                *final(self),
                *old(self),
            ),
    {
        if self.is_busy || self.analysis_results.len() == 0 {
            return false;
        }
        self.is_busy = true;
        self.status = String::from_str("Копирование...");
        true
    }

    /// Records how copying ended.
    pub fn finish_copy(&mut self, result: Result<i32, String>)
        ensures
            !final(self).is_busy,
            same_data(*final(self), *old(self)),
            match result {
                Ok(n) => final(self).status@ == "Скопировано файлов: "@ + int_text(n as int),
                Err(e) => final(self).status@ == "Ошибка: "@ + e@,
            },
    {
        match result {
            Ok(n) => {
                self.status = prefixed("Скопировано файлов: ", i32_text(n).as_str());
            },
            Err(e) => {
                self.status = prefixed("Ошибка: ", e.as_str());
            },
        }
        self.is_busy = false;
    }

    /// Files picked in the converter's dialog are added to the list.
    pub fn add_picked_files(&mut self, files: Vec<String>)
        ensures
            keeps_idle(*old(self), *final(self)),
            final(self).dropped_files@ == old(self).dropped_files@ + files@,
            final(self).status == old(self).status,
            final(self).is_busy == old(self).is_busy,
            final(self).analysis_results == old(self).analysis_results,
            final(self).last_wallpaper == old(self).last_wallpaper,
    {
        let mut files = files;
        self.dropped_files.append(&mut files);
    }

    /// Starts converting the listed files, when there are any and no
    /// operation is running.
    pub fn start_conversion(&mut self) -> (r: bool)
        ensures
            r == (!old(self).is_busy && old(self).dropped_files@.len() > 0),
            !r ==> *final(self) == *old(self),
            r ==> final(self).is_busy && final(self).status@ == "Конвертация..."@ && same_data(
                *final(self),
                *old(self),
            ),
    {
        if self.is_busy || self.dropped_files.len() == 0 {
            return false;
        }
        self.is_busy = true;
        self.status = String::from_str("Конвертация...");
        true
    }

    /// Records that `converted` files were converted.
    pub fn finish_conversion(&mut self, converted: u64)
        ensures
            !final(self).is_busy,
            same_data(*final(self), *old(self)),
            final(self).status@ == "Конвертировано: "@ + int_text(converted as int),
    {
        self.status = prefixed("Конвертировано: ", u64_text(converted).as_str());
        self.is_busy = false;
    }

    /// Selects a theme; when it differs from the current one, the answer is
    /// the name to store.
    pub fn select_theme(&mut self, theme: Theme) -> (r: Option<&'static str>)
        ensures
            keeps_idle(*old(self), *final(self)),
            final(self).theme == theme,
            theme == old(self).theme ==> r is None,
            theme != old(self).theme ==> (r matches Some(name) && name@ == theme_name(theme)),
            *final(self) == (MangoApp { theme: theme, ..*old(self) }),
    {
        if self.theme == theme {
            return None;
        }
        self.theme = theme;
        Some(theme.as_str())
    }
}

/// A window that was not busy before a step is not busy after it.
pub open spec fn keeps_idle(before: MangoApp, after: MangoApp) -> bool {
    !before.is_busy ==> !after.is_busy
}

/// A frame of the window is a run of steps (choosing a tab, taking dropped or
/// picked files, choosing a theme, and the whole operations below), each of
/// which keeps the window idle: so a window that is not busy when a frame
/// starts is not busy when it ends. `states` are the window's states from the
/// start of the frame through each step.
pub proof fn frame_keeps_window_idle(states: Seq<MangoApp>)
    requires
        states.len() > 0,
        forall|i: int| 0 <= i < states.len() - 1 ==> #[trigger] keeps_idle(states[i], states[i + 1]),
        !states[0].is_busy,
    ensures
        !states.last().is_busy,
    decreases states.len(),
{
    if states.len() > 1 {
        let shorter = states.drop_last();
        assert forall|i: int| 0 <= i < shorter.len() - 1 implies #[trigger] keeps_idle(shorter[i], shorter[i + 1]) by {
            assert(keeps_idle(states[i], states[i + 1]));
        }
        frame_keeps_window_idle(shorter);
        let k = states.len() - 2;
        assert(keeps_idle(states[k], states[k + 1]));
    }
}

/// `run` may answer `res` when called with texts whose views are `a` and `b`.
pub open spec fn answers2<F: Fn(&str, &str) -> Result<String, String>>(run: F, a: Seq<char>, b: Seq<char>, res: Result<String, String>) -> bool {
    exists|x: &str, y: &str| x@ == a && y@ == b && #[trigger] call_ensures(run, (x, y), res)
}

/// `f` may answer `res` when called with a text whose view is `a`.
pub open spec fn answers1<T, F: Fn(&str) -> T>(f: F, a: Seq<char>, res: T) -> bool {
    exists|x: &str| x@ == a && #[trigger] call_ensures(f, (x,), res)
}

/// `copy` may answer `res` when called with a text whose view is `folder`
/// and the list `files`.
pub open spec fn copy_answers<F: Fn(&str, &Vec<FileAnalysis>) -> Result<i32, String>>(copy: F, folder: Seq<char>, files: Vec<FileAnalysis>, res: Result<i32, String>) -> bool {
    exists|x: &str, v: &Vec<FileAnalysis>| x@ == folder && *v == files && #[trigger] call_ensures(copy, (x, v), res)
}

/// How many of `answers` are `true`.
pub open spec fn count_true(answers: Seq<bool>) -> nat
    decreases answers.len(),
{
    if answers.len() == 0 {
        0
    } else {
        count_true(answers.drop_last()) + if answers.last() {
            1nat
        } else {
            0nat
        }
    }
}

/// The window `after` records the end `res` of a generation on `before`:
/// not busy, the choices and files kept, and the status line and the last
/// wallpaper following the answer (`saved` starts the status of a success).
pub open spec fn generation_recorded(before: MangoApp, after: MangoApp, res: Result<String, String>, saved: Seq<char>) -> bool {
    &&& !after.is_busy
    &&& same_choices(after, before)
    &&& after.analysis_results == before.analysis_results
    &&& match res {
        Ok(path) => after.status@ == saved + path@ && after.last_wallpaper == Some(path),
        Err(e) => after.status@ == "Ошибка: "@ + e@ && after.last_wallpaper == before.last_wallpaper,
    }
}

/// Whole operations, each started by one click: the operation is started
/// as the `start_*` method says, the closure does the work, and the
/// `finish_*` method records its answer. So a window that was not busy when
/// a click came is not busy when the click has been handled.
impl MangoApp {
    /// Generates a wallpaper with `run`, called with the kind's command-line
    /// name and the requested file name, unless an operation is running.
    /// Answers whether a wallpaper was written.
    pub fn generate<F: Fn(&str, &str) -> Result<String, String>>(&mut self, run: F) -> (r: bool)
        requires
            forall|kind: &str, output: &str| #[trigger] call_requires(run, (kind, output)),
        ensures
            keeps_idle(*old(self), *final(self)),
            old(self).is_busy ==> !r && *final(self) == *old(self),
            !old(self).is_busy ==> exists|res: Result<String, String>|
                {
                    &&& #[trigger] answers2(run, wallpaper_type_name(old(self).wallpaper_type), old(self).wallpaper_output@, res)
                    &&& generation_recorded(*old(self), *final(self), res, "Сохранено: "@)
                    &&& r == res is Ok
                },
    {
        match self.start_generation() {
            Some((kind, output)) => {
                let result = run(kind.as_str(), output.as_str());
                let ghost res = result;
                assert(answers2(run, kind@, output@, res));
                let ok = self.finish_generation(result);
                assert(generation_recorded(*old(self), *self, res, "Сохранено: "@));
                ok
            },
            None => false,
        }
    }

    /// Generates the wallpaper that the time-of-day rules choose: unless an
    /// operation is running, `settings` reads the rules; their error goes to
    /// the status line, and otherwise `run` is called with the chosen kind and
    /// the file name `wallpaper_<kind>.png`. Answers whether a wallpaper was
    /// written.
    pub fn generate_by_rules<S: Fn() -> Result<WallpaperSettings, String>, F: Fn(&str, &str) -> Result<String, String>>(&mut self, settings: S, run: F) -> (r: bool)
        requires
            call_requires(settings, ()),
            forall|kind: &str, output: &str| #[trigger] call_requires(run, (kind, output)),
        ensures
            keeps_idle(*old(self), *final(self)),
            old(self).is_busy ==> !r && *final(self) == *old(self),
            !old(self).is_busy ==> exists|found: Result<WallpaperSettings, String>|
                {
                    &&& #[trigger] call_ensures(settings, (), found)
                    &&& match found {
                        Err(e) => {
                            &&& !r
                            &&& !final(self).is_busy
                            &&& final(self).status@ == "Ошибка Lua: "@ + e@
                            &&& same_data(*final(self), *old(self))
                        },
                        Ok(ws) => exists|res: Result<String, String>|
                            {
                                &&& #[trigger] answers2(
                                    run,
                                    ws.wallpaper_type@,
                                    "wallpaper_"@ + ws.wallpaper_type@ + ".png"@,
                                    res,
                                )
                                &&& generation_recorded(*old(self), *final(self), res, "Сохранено (Lua): "@)
                                &&& r == res is Ok
                            },
                    }
                },
    {
        if self.is_busy {
            return false;
        }
        let found = settings();
        let ghost g = found;
        match self.start_lua_generation(found) {
            Some((kind, output)) => {
                let result = run(kind.as_str(), output.as_str());
                let ghost res = result;
                assert(answers2(run, kind@, output@, res));
                let ok = self.finish_lua_generation(result);
                assert(generation_recorded(*old(self), *self, res, "Сохранено (Lua): "@));
                assert(g is Ok);
                ok
            },
            None => {
                assert(g is Err);
                false
            },
        }
    }

    /// Sets the last generated wallpaper on the desktop with `set`, called
    /// with its path, when there is one and no operation is running; the
    /// status line follows the answer.
    pub fn set_wallpaper<F: Fn(&str) -> Result<(), String>>(&mut self, set: F)
        requires
            forall|path: &str| #[trigger] call_requires(set, (path,)),
        ensures
            keeps_idle(*old(self), *final(self)),
            (old(self).is_busy || old(self).last_wallpaper is None) ==> *final(self) == *old(self),
            !old(self).is_busy && old(self).last_wallpaper is Some ==> exists|res: Result<(), String>|
                {
                    &&& #[trigger] answers1(set, old(self).last_wallpaper->Some_0@, res)
                    &&& !final(self).is_busy
                    &&& same_data(*final(self), *old(self))
                    &&& match res {
                        Ok(()) => final(self).status@ == "Обои установлены: "@ + old(self).last_wallpaper->Some_0@,
                        Err(e) => final(self).status@ == "Ошибка установки обоев: "@ + e@,
                    }
                },
    {
        if let Some(path) = self.start_set_wallpaper() {
            let result = set(path.as_str());
            let ghost res = result;
            assert(answers1(set, path@, res));
            self.finish_set_wallpaper(path.as_str(), result);
        }
    }

    /// Analyses the chosen folder with `run`, called with the folder, when
    /// one is chosen; the files and the status line follow the answer.
    pub fn analyze<F: Fn(&str) -> Result<Vec<FileAnalysis>, String>>(&mut self, run: F)
        requires
            forall|folder: &str| #[trigger] call_requires(run, (folder,)),
        ensures
            keeps_idle(*old(self), *final(self)),
            old(self).sort_folder@.len() == 0 ==> *final(self) == *old(self),
            old(self).sort_folder@.len() > 0 ==> exists|res: Result<Vec<FileAnalysis>, String>|
                {
                    &&& #[trigger] answers1(run, old(self).sort_folder@, res)
                    &&& !final(self).is_busy
                    &&& same_choices(*final(self), *old(self))
                    &&& final(self).last_wallpaper == old(self).last_wallpaper
                    &&& match res {
                        Ok(files) => final(self).analysis_results == files && final(self).status@
                            == "Найдено файлов: "@ + int_text(files@.len() as int),
                        Err(e) => final(self).analysis_results == old(self).analysis_results
                            && final(self).status@ == "Ошибка: "@ + e@,
                    }
                },
    {
        if let Some(folder) = self.start_analysis() {
            let result = run(folder.as_str());
            let ghost res = result;
            assert(answers1(run, folder@, res));
            self.finish_analysis(result);
        }
    }

    /// Copies the analysed files into their folders with `copy`, called with
    /// the chosen folder and the analysed files, when there are files and no
    /// operation is running; the status line follows the answer.
    pub fn copy_files<F: Fn(&str, &Vec<FileAnalysis>) -> Result<i32, String>>(&mut self, copy: F)
        requires
            forall|folder: &str, files: &Vec<FileAnalysis>| #[trigger] call_requires(copy, (folder, files)),
        ensures
            keeps_idle(*old(self), *final(self)),
            (old(self).is_busy || old(self).analysis_results@.len() == 0) ==> *final(self) == *old(self),
            !old(self).is_busy && old(self).analysis_results@.len() > 0 ==> exists|res: Result<i32, String>|
                {
                    &&& #[trigger] copy_answers(copy, old(self).sort_folder@, old(self).analysis_results, res)
                    &&& !final(self).is_busy
                    &&& same_data(*final(self), *old(self))
                    &&& match res {
                        Ok(n) => final(self).status@ == "Скопировано файлов: "@ + int_text(n as int),
                        Err(e) => final(self).status@ == "Ошибка: "@ + e@,
                    }
                },
    {
        if self.start_copy() {
            let result = copy(self.sort_folder.as_str(), &self.analysis_results);
            let ghost res = result;
            assert(copy_answers(copy, self.sort_folder@, self.analysis_results, res));
            self.finish_copy(result);
        }
    }

    /// Converts the listed files with `convert`, called once with each file in
    /// turn and answering whether it was converted, when there are files and
    /// no operation is running; the status line counts the files converted.
    pub fn convert_files<F: Fn(&str) -> bool>(&mut self, convert: F)
        requires
            forall|file: &str| #[trigger] call_requires(convert, (file,)),
        ensures
            keeps_idle(*old(self), *final(self)),
            (old(self).is_busy || old(self).dropped_files@.len() == 0) ==> *final(self) == *old(self),
            !old(self).is_busy && old(self).dropped_files@.len() > 0 ==> exists|outcomes: Seq<bool>|
                {
                    &&& outcomes.len() == old(self).dropped_files@.len()
                    &&& forall|i: int|
                        0 <= i < outcomes.len() ==> answers1(
                            convert,
                            old(self).dropped_files@[i]@,
                            #[trigger] outcomes[i],
                        )
                    &&& !final(self).is_busy
                    &&& same_data(*final(self), *old(self))
                    &&& final(self).status@ == "Конвертировано: "@ + int_text(count_true(outcomes) as int)
                },
    {
        if !self.start_conversion() {
            return;
        }
        let mut converted: u64 = 0;
        let n = self.dropped_files.len();
        let ghost mut outcomes: Seq<bool> = Seq::empty();
        let mut i: usize = 0;
        while i < n
            invariant
                n == self.dropped_files@.len(),
                i <= n,
                outcomes.len() == i,
                converted == count_true(outcomes),
                converted <= i,
                forall|j: int|
                    0 <= j < i ==> answers1(convert, self.dropped_files@[j]@, #[trigger] outcomes[j]),
                forall|file: &str| #[trigger] call_requires(convert, (file,)),
            decreases n - i,
        {
            let done = convert(self.dropped_files[i].as_str());
            proof {
                assert(answers1(convert, self.dropped_files@[i as int]@, done));
                assert(outcomes.push(done).drop_last() =~= outcomes);
                outcomes = outcomes.push(done);
            }
            if done {
                converted = converted + 1;
            }
            i = i + 1;
        }
        self.finish_conversion(converted);
    }
}

/// The paths of the dropped files that have one, in order.
pub open spec fn present_paths(dropped: Seq<Option<String>>) -> Seq<String>
    decreases dropped.len(),
{
    if dropped.len() == 0 {
        Seq::empty()
    } else {
        let rest = present_paths(dropped.drop_last());
        match dropped.last() {
            Some(p) => rest.push(p),
            None => rest,
        }
    }
}

} // verus!
