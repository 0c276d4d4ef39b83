//! Setting an image as the desktop wallpaper.
//!
//! On Linux the desktop's own tools are tried in turn (GNOME's `gsettings`,
//! XFCE's `xfconf-query`, then `feh`, `nitrogen` and `hsetroot`) until one
//! succeeds; on Windows the system call does the work; elsewhere it is not
//! supported. The session below decides what to try next; running the tools
//! happens outside the library.

use vstd::prelude::*;
use vstd::string::*;
use crate::brain::{texts, Platform};

verus! {

/// A program to run with its arguments.
#[derive(Debug)]
pub struct ToolCommand {
    pub program: String,
    pub args: Vec<String>,
}

/// The view of a command: its program and arguments.
pub open spec fn command_view(c: ToolCommand) -> (Seq<char>, Seq<Seq<char>>) {
    (c.program@, texts(c.args@))
}

/// The commands tried on Linux, in order, for the image `path` whose absolute
/// form is `abs` (`abs_text` when that form is valid text, otherwise `path`
/// is handed to XFCE).
pub open spec fn linux_commands(path: Seq<char>, abs: Seq<char>, abs_text: Seq<char>) -> Seq<(Seq<char>, Seq<Seq<char>>)> {
    seq![
        ("gsettings"@, seq!["set"@, "org.gnome.desktop.background"@, "picture-uri"@, "file://"@ + abs]),
        ("xfconf-query"@, seq![
            "-c"@,
            "xfce4-desktop"@,
            "-p"@,
            "/backdrop/screen0/monitor0/workspace0/last-image"@,
            "-s"@,
            abs_text,
        ]),
        ("feh"@, seq!["--bg-fill"@, path]),
        ("nitrogen"@, seq!["--bg-fill"@, path]),
        ("hsetroot"@, seq!["--bg-fill"@, path]),
    ]
}

/// The Linux tools, in the order they are tried, each with its full
/// argument list: GNOME's background URI, the last image of XFCE's first
/// workspace on the first monitor, then `feh`, `nitrogen` and `hsetroot`
/// filling the screen with the image.
pub proof fn linux_tools_in_order(path: Seq<char>, abs: Seq<char>, abs_text: Seq<char>)
    ensures
        linux_commands(path, abs, abs_text).len() == 5,
        linux_commands(path, abs, abs_text)[0].0 == "gsettings"@,
        linux_commands(path, abs, abs_text)[0].1 =~= seq![
            "set"@,
            "org.gnome.desktop.background"@,
            "picture-uri"@,
            "file://"@ + abs,
        ],
        linux_commands(path, abs, abs_text)[1].0 == "xfconf-query"@,
        linux_commands(path, abs, abs_text)[1].1 =~= seq![
            "-c"@,
            "xfce4-desktop"@,
            "-p"@,
            "/backdrop/screen0/monitor0/workspace0/last-image"@,
            "-s"@,
            abs_text,
        ],
        linux_commands(path, abs, abs_text)[2].0 == "feh"@,
        linux_commands(path, abs, abs_text)[3].0 == "nitrogen"@,
        linux_commands(path, abs, abs_text)[4].0 == "hsetroot"@,
        forall|i: int| 2 <= i < 5 ==> #[trigger] linux_commands(path, abs, abs_text)[i].1 =~= seq!["--bg-fill"@, path],
{
}

/// The message when no Linux tool could set the wallpaper.
pub open spec fn no_tool_message() -> Seq<char> {
    "Не удалось установить обои: не найден поддерживаемый инструмент (gsettings, feh, nitrogen, hsetroot)"@
}

/// The message on systems other than Linux and Windows.
pub open spec fn unsupported_message() -> Seq<char> {
    "Установка обоев поддерживается только на Linux и Windows"@
}

/// What setting the wallpaper asks for next.
#[derive(Debug)]
pub enum WallpaperAction {
    /// Run this tool if it is installed, and report whether it succeeded.
    TryTool(ToolCommand),
    /// Ask the Windows system to set the image at this path; its answer is
    /// the result.
    SystemCall(String),
    /// The result.
    Finished(Result<(), String>),
}

fn strings(a: &str, b: &str) -> (r: Vec<String>)
    ensures
        texts(r@) == seq![a@, b@],
{
    let mut r: Vec<String> = Vec::new();
    r.push(String::from_str(a));
    r.push(String::from_str(b));
    assert(texts(r@) =~= seq![a@, b@]);
    r
}

fn fill_command(program: &str, path: &str) -> (r: ToolCommand)
    ensures
        command_view(r) == (program@, seq!["--bg-fill"@, path@]),
{
    ToolCommand { program: String::from_str(program), args: strings("--bg-fill", path) }
}

/// The commands tried on Linux (see [`linux_commands`]).
pub fn linux_command_list(path: &str, abs: &str, abs_text: Option<String>) -> (r: Vec<ToolCommand>)
    ensures
        r@.map_values(|c: ToolCommand| command_view(c)) == linux_commands(
            path@,
            abs@,
            match abs_text {
                Some(t) => t@,
                None => path@,
            },
        ),
{
    let mut uri = String::from_str("file://");
    uri.append(abs);
    let mut gnome: Vec<String> = Vec::new();
    gnome.push(String::from_str("set"));
    gnome.push(String::from_str("org.gnome.desktop.background"));
    gnome.push(String::from_str("picture-uri"));
    gnome.push(uri);
    assert(texts(gnome@) =~= seq!["set"@, "org.gnome.desktop.background"@, "picture-uri"@, "file://"@ + abs@]);
    let target = match abs_text {
        Some(t) => t,
        None => String::from_str(path),
    };
    let mut xfce: Vec<String> = Vec::new();
    xfce.push(String::from_str("-c"));
    xfce.push(String::from_str("xfce4-desktop"));
    xfce.push(String::from_str("-p"));
    xfce.push(String::from_str("/backdrop/screen0/monitor0/workspace0/last-image"));
    xfce.push(String::from_str("-s"));
    xfce.push(target);
    let ghost xfce_args = texts(xfce@);
    assert(xfce_args =~= seq![
        "-c"@,
        "xfce4-desktop"@,
        "-p"@,
        "/backdrop/screen0/monitor0/workspace0/last-image"@,
        "-s"@,
        match abs_text {
            Some(t) => t@,
            None => path@,
        },
    ]);
    let mut r: Vec<ToolCommand> = Vec::new();
    r.push(ToolCommand { program: String::from_str("gsettings"), args: gnome });
    r.push(ToolCommand { program: String::from_str("xfconf-query"), args: xfce });
    r.push(fill_command("feh", path));
    r.push(fill_command("nitrogen", path));
    r.push(fill_command("hsetroot", path));
    assert(r@.map_values(|c: ToolCommand| command_view(c)) =~~= linux_commands(
        path@,
        abs@,
        match abs_text {
            Some(t) => t@,
            None => path@,
        },
    ));
    r
}

/// Trying the Linux tools one after the other.
#[derive(Debug)]
pub struct WallpaperSetter {
    commands: Vec<ToolCommand>,
    next: usize,
    finished: bool,
}

impl WallpaperSetter {
    /// The commands of the session.
    pub closed spec fn commands(&self) -> Seq<ToolCommand> {
        self.commands@
    }

    /// How many commands have been asked for.
    pub closed spec fn tried(&self) -> nat {
        self.next as nat
    }

    /// Whether the session is over.
    pub closed spec fn is_finished(&self) -> bool {
        self.finished
    }

    /// The counter stays within the command list, and an open session has
    /// asked for at least one command.
    pub closed spec fn well_formed(&self) -> bool {
        &&& self.next <= self.commands@.len()
        &&& !self.finished ==> self.next > 0
    }

    /// The session after the tool last asked for answered `ok`: success ends
    /// it, otherwise the next tool is asked for, and after the last one the
    /// session ends with [`no_tool_message`].
    pub fn tool_result(&mut self, ok: bool) -> (r: WallpaperAction)
        requires
            old(self).well_formed(),
            !old(self).is_finished(),
        ensures
            final(self).well_formed(),
            final(self).commands() == old(self).commands(),
            ok ==> final(self).is_finished() && r == WallpaperAction::Finished(Ok::<(), String>(())),
            !ok && old(self).tried() < old(self).commands().len() ==> {
                &&& !final(self).is_finished()
                &&& final(self).tried() == old(self).tried() + 1
                &&& r matches WallpaperAction::TryTool(c) && command_view(c) == command_view(
                    old(self).commands()[old(self).tried() as int],
                )
            },
            !ok && old(self).tried() == old(self).commands().len() ==> {
                &&& final(self).is_finished()
                &&& r matches WallpaperAction::Finished(Err(e)) && e@ == no_tool_message()
            },
    {
        if ok {
            self.finished = true;
            return WallpaperAction::Finished(Ok(()));
        }
        if self.next < self.commands.len() {
            let c = &self.commands[self.next];
            let command = ToolCommand { program: c.program.clone(), args: c.args.clone() };
            proof {
                assert(texts(command.args@) =~= texts(c.args@));
            }
            self.next = self.next + 1;
            WallpaperAction::TryTool(command)
        } else {
            self.finished = true;
            WallpaperAction::Finished(
                Err(
                    String::from_str(
                        "Не удалось установить обои: не найден поддерживаемый инструмент (gsettings, feh, nitrogen, hsetroot)",
                    ),
                ),
            )
        }
    }
}

/// Starts setting the image at `path` as the wallpaper on `platform`; `abs`
/// and `abs_text` describe its absolute path (see [`linux_commands`]). On
/// Linux the first tool is asked for, on Windows the system call, and other
/// systems get [`unsupported_message`].
pub fn set_desktop_wallpaper(platform: Platform, path: &str, abs: &str, abs_text: Option<String>) -> (r: (WallpaperSetter, WallpaperAction))
    ensures
        r.0.well_formed(),
        platform == Platform::Linux ==> {
            &&& !r.0.is_finished()
            &&& r.0.tried() == 1
            &&& r.0.commands().map_values(|c: ToolCommand| command_view(c)) == linux_commands(
                path@,
                abs@,
                match abs_text {
                    Some(t) => t@,
                    None => path@,
                },
            )
            &&& r.1 matches WallpaperAction::TryTool(c) && command_view(c) == command_view(
                r.0.commands()[0],
            )
        },
        platform == Platform::Windows ==> r.0.is_finished() && (r.1 matches WallpaperAction::SystemCall(p) && p@ == path@),
        platform == Platform::Other ==> r.0.is_finished() && (r.1 matches WallpaperAction::Finished(Err(e)) && e@ == unsupported_message()),
{
    if platform == Platform::Linux {
        let commands = linux_command_list(path, abs, abs_text);
        let mut setter = WallpaperSetter { commands, next: 0, finished: true };
        assert(setter.commands@.map_values(|c: ToolCommand| command_view(c)).len() == 5);
        setter.finished = false;
        setter.next = 1;
        let c = &setter.commands[0];
        let command = ToolCommand { program: c.program.clone(), args: c.args.clone() };
        proof {
            assert(texts(command.args@) =~= texts(c.args@));
        }
        (setter, WallpaperAction::TryTool(command))
    } else if platform == Platform::Windows {
        (WallpaperSetter { commands: Vec::new(), next: 0, finished: true }, WallpaperAction::SystemCall(String::from_str(path)))
    } else {
        (
            WallpaperSetter { commands: Vec::new(), next: 0, finished: true },
            WallpaperAction::Finished(Err(String::from_str("Установка обоев поддерживается только на Linux и Windows"))),
        )
    }
}

} // verus!
