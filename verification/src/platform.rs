//! What differs between operating systems: where the assets and the
//! documentation are, which shell to run, and how to open a terminal
//! outside the widget.

use crate::text::{eq_ignore_ascii_case, same_ignoring_ascii_case, text_of};
use vstd::prelude::*;
use vstd::string::*;

verus! {

/// The kind of operating system that the widget runs on.
#[derive(Clone, Copy, Debug, PartialEq, Eq, Structural)]
pub enum Platform {
    Linux,
    Windows,
    Other,
}

/// Where the assets are: a fixed place on Linux; on Windows the assets
/// directory beside the executable, if that could be located; else the
/// directory `assets` where the program runs.
pub open spec fn asset_path_text(platform: Platform, beside_exe: Option<Seq<char>>) -> Seq<char> {
    match platform {
        Platform::Linux => "/usr/share/vitray-widget"@,
        Platform::Windows => match beside_exe {
            Some(path) => path,
            None => "assets"@,
        },
        Platform::Other => "assets"@,
    }
}

/// Where the documentation is: a directory on Linux, a web address
/// elsewhere.
pub open spec fn doc_path_text(platform: Platform) -> Seq<char> {
    match platform {
        Platform::Linux => "/usr/share/doc/vitray-widget/"@,
        Platform::Windows => "https://zacxxx.github.io/vitray-widget"@,
        Platform::Other => "https://zacxxx.github.io/vitray-widget"@,
    }
}

/// The shell to run: on Linux the one that the environment names, or
/// `bash`; on Windows PowerShell; elsewhere `bash`.
pub open spec fn default_shell_text(platform: Platform, env_shell: Option<Seq<char>>) -> Seq<char> {
    match platform {
        Platform::Linux => match env_shell {
            Some(shell) => shell,
            None => "bash"@,
        },
        Platform::Windows => "powershell.exe"@,
        Platform::Other => "bash"@,
    }
}

/// The program that Windows starts for the terminal asked for: Warp if it
/// is asked for by name, in any case of letters, else PowerShell.
pub open spec fn windows_terminal_text(command: Option<&str>) -> Seq<char> {
    match command {
        Some(name) => if same_ignoring_ascii_case(name.spec_bytes(), "warp".spec_bytes()) {
            "warp.exe"@
        } else {
            "powershell.exe"@
        },
        None => "powershell.exe"@,
    }
}

/// The command line that opens a terminal outside the widget, program
/// first, or `None` where there is nothing to run: on Windows the terminal
/// is started through the command interpreter; on Linux the command that
/// was asked for is run as it is, if one was; elsewhere nothing is.
pub open spec fn external_terminal_line(platform: Platform, command: Option<&str>) -> Option<
    Seq<Seq<char>>,
> {
    match platform {
        Platform::Windows => Some(
            seq!["cmd"@, "/C"@, "start"@, windows_terminal_text(command)],
        ),
        Platform::Linux => match command {
            Some(program) => Some(seq![program@]),
            None => None,
        },
        Platform::Other => None,
    }
}

/// A command line as plain texts.
pub open spec fn line_view(line: Option<Vec<String>>) -> Option<Seq<Seq<char>>> {
    match line {
        Some(words) => Some(words@.map_values(|word: String| word@)),
        None => None,
    }
}

/// Where the assets are. `beside_exe` is the `assets` directory beside the
/// running executable, if that could be located; only Windows looks there.
pub fn get_asset_path(platform: Platform, beside_exe: Option<String>) -> (path: String)
    ensures
        path@ == asset_path_text(platform, text_of(beside_exe)),
{
    match platform {
        Platform::Linux => "/usr/share/vitray-widget".to_owned(),
        Platform::Windows => match beside_exe {
            Some(path) => path,
            None => "assets".to_owned(),
        },
        Platform::Other => "assets".to_owned(),
    }
}

/// Where the documentation is.
pub fn get_doc_path(platform: Platform) -> (path: String)
    ensures
        path@ == doc_path_text(platform),
{
    match platform {
        Platform::Linux => "/usr/share/doc/vitray-widget/".to_owned(),
        Platform::Windows => "https://zacxxx.github.io/vitray-widget".to_owned(),
        Platform::Other => "https://zacxxx.github.io/vitray-widget".to_owned(),
    }
}

/// The shell to run. `env_shell` is the shell that the environment names,
/// if it names one; only Linux goes by it.
pub fn get_default_shell(platform: Platform, env_shell: Option<String>) -> (shell: String)
    ensures
        shell@ == default_shell_text(platform, text_of(env_shell)),
{
    match platform {
        Platform::Linux => match env_shell {
            Some(shell) => shell,
            None => "bash".to_owned(),
        },
        Platform::Windows => "powershell.exe".to_owned(),
        Platform::Other => "bash".to_owned(),
    }
}

/// The command line to run to open a terminal outside the widget, program
/// first, or `None` where there is nothing to run.
pub fn open_external_terminal(platform: Platform, command: Option<&str>) -> (line: Option<
    Vec<String>,
>)
    ensures
        line_view(line) == external_terminal_line(platform, command),
{
    match platform {
        Platform::Windows => {
            let terminal = match command {
                Some(name) => if eq_ignore_ascii_case(name, "warp") {
                    "warp.exe"
                } else {
                    "powershell.exe"
                },
                None => "powershell.exe",
            };
            let mut words: Vec<String> = Vec::new();
            words.push("cmd".to_owned());
            words.push("/C".to_owned());
            words.push("start".to_owned());
            words.push(terminal.to_owned());
            assert(words@.map_values(|word: String| word@) =~= seq![
                "cmd"@,
                "/C"@,
                "start"@,
                windows_terminal_text(command),
            ]);
            Some(words)
        },
        Platform::Linux => match command {
            Some(program) => {
                let mut words: Vec<String> = Vec::new();
                words.push(program.to_owned());
                assert(words@.map_values(|word: String| word@) =~= seq![program@]);
                Some(words)
            },
            None => None,
        },
        Platform::Other => None,
    }
}

} // verus!
