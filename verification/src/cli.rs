//! The command line: which invocations are answered without the window, and
//! how the other ones start it.
use vstd::prelude::*;
use crate::paths::{is_absolute, join, path_join};
use crate::scanner::{is_image_path, is_video_path, path_is_image, path_is_video};
use crate::strlist::views;
use crate::text::{concat3, owned, str_eq};

verus! {

/// The sub-commands that are answered on the terminal alone.
pub open spec fn pure_cli_command(a: Seq<char>) -> bool {
    ||| a == "status"@
    ||| a == "help"@
    ||| a == "--help"@
    ||| a == "-h"@
    ||| a == "version"@
    ||| a == "--version"@
    ||| a == "-v"@
    ||| a == "-V"@
    ||| a == "check-update"@
    ||| a == "update"@
}

/// Whether the arguments (the program name first) name a terminal-only
/// sub-command.
pub open spec fn is_pure_cli_spec(args: Seq<Seq<char>>) -> bool {
    args.len() > 1 && pure_cli_command(args[1])
}

/// Whether the arguments name a sub-command that only prints on the
/// terminal (`status`, `help`, `version`, `check-update`, `update` and their
/// short forms).
pub fn is_pure_cli(args: &[String]) -> (b: bool)
    ensures
        b == is_pure_cli_spec(views(args@)),
{
    if args.len() <= 1 {
        return false;
    }
    let a = args[1].as_str();
    proof {
        assert(views(args@)[1] == args@[1]@);
    }
    str_eq(a, "status") || str_eq(a, "help") || str_eq(a, "--help") || str_eq(a, "-h")
        || str_eq(a, "version") || str_eq(a, "--version") || str_eq(a, "-v") || str_eq(a, "-V")
        || str_eq(a, "check-update") || str_eq(a, "update")
}

/// How a first argument that needs no file starts the application: whether
/// the window stays hidden, and the action to run. `None` when the argument
/// is none of these.
pub open spec fn simple_flags(a: Seq<char>) -> Option<(bool, Option<Seq<char>>)> {
    if a == "gui"@ {
        Some((false, None))
    } else if a == "--hidden"@ || a == "--daemon"@ || a == "-d"@ {
        Some((true, None))
    } else if a == "next"@ {
        Some((true, Some("next"@)))
    } else if a == "prev"@ {
        Some((true, Some("prev"@)))
    } else if a == "stop"@ {
        Some((true, Some("stop"@)))
    } else if a == "toggle-pause"@ || a == "pause"@ {
        Some((true, Some("toggle-pause"@)))
    } else {
        None
    }
}

/// The start flags as plain values: hidden window, action, action arguments.
pub open spec fn flags_view(f: (bool, Option<String>, Vec<String>)) -> (bool, Option<Seq<char>>, Seq<Seq<char>>) {
    (f.0, match f.1 { Some(s) => Some(s@), None => None }, views(f.2@))
}

/// Whether the arguments can be read without looking at the file system.
pub open spec fn needs_no_file(args: Seq<Seq<char>>) -> bool {
    args.len() <= 1 || simple_flags(args[1]) is Some
}

/// The flags of arguments that need no file: no argument opens the window;
/// otherwise see `simple_flags`. Never any action arguments.
pub open spec fn parse_flags_spec(args: Seq<Seq<char>>) -> (bool, Option<Seq<char>>, Seq<Seq<char>>) {
    if args.len() <= 1 {
        (false, None, seq![])
    } else {
        let f = simple_flags(args[1]).unwrap();
        (f.0, f.1, seq![])
    }
}

fn simple_flags_exec(a: &str) -> (r: Option<(bool, Option<String>)>)
    ensures
        r.is_some() == simple_flags(a@).is_some(),
        r.is_some() ==> r.unwrap().0 == simple_flags(a@).unwrap().0,
        r.is_some() ==> (match r.unwrap().1 { Some(s) => Some(s@), None => None }) == simple_flags(a@).unwrap().1,
{
    if str_eq(a, "gui") {
        Some((false, None))
    } else if str_eq(a, "--hidden") || str_eq(a, "--daemon") || str_eq(a, "-d") {
        Some((true, None))
    } else if str_eq(a, "next") {
        Some((true, Some(owned("next"))))
    } else if str_eq(a, "prev") {
        Some((true, Some(owned("prev"))))
    } else if str_eq(a, "stop") {
        Some((true, Some(owned("stop"))))
    } else if str_eq(a, "toggle-pause") || str_eq(a, "pause") {
        Some((true, Some(owned("toggle-pause"))))
    } else {
        None
    }
}

/// The start flags for arguments that name no file (see `needs_no_file`);
/// those that do are read by `resolve_flags`.
pub fn parse_flags(args: &[String]) -> (r: (bool, Option<String>, Vec<String>))
    requires
        needs_no_file(views(args@)),
    ensures
        flags_view(r) == parse_flags_spec(views(args@)),
{
    if args.len() <= 1 {
        let v: Vec<String> = Vec::new();
        proof {
            assert(views(v@) =~= Seq::<Seq<char>>::empty());
        }
        return (false, None, v);
    }
    proof {
        assert(views(args@)[1] == args@[1]@);
    }
    let f = simple_flags_exec(args[1].as_str());
    let v: Vec<String> = Vec::new();
    proof {
        assert(views(v@) =~= Seq::<Seq<char>>::empty());
    }
    match f {
        Some((hidden, action)) => (hidden, action, v),
        None => (false, None, v),
    }
}

/// A path as given on the command line, made absolute against the working
/// folder.
pub open spec fn resolve_path_spec(p: Seq<char>, cwd: Seq<char>) -> Seq<char> {
    if is_absolute(p) {
        p
    } else {
        join(cwd, p)
    }
}

/// See `resolve_path_spec`.
pub fn resolve_path(p: &str, cwd: &str) -> (r: String)
    ensures
        r@ == resolve_path_spec(p@, cwd@),
{
    path_join(cwd, p)
}

/// The file that must be looked at before the arguments can be read: the
/// target of `apply`, or a first argument that is no known command, made
/// absolute against the working folder.
pub open spec fn file_target_spec(args: Seq<Seq<char>>, cwd: Seq<char>) -> Option<Seq<char>> {
    if needs_no_file(args) {
        None
    } else if args[1] == "apply"@ {
        if args.len() >= 3 {
            Some(resolve_path_spec(args[2], cwd))
        } else {
            None
        }
    } else {
        Some(resolve_path_spec(args[1], cwd))
    }
}

/// See `file_target_spec`.
pub fn file_target(args: &[String], cwd: &str) -> (r: Option<String>)
    ensures
        match r {
            Some(t) => file_target_spec(views(args@), cwd@) == Some(t@),
            None => file_target_spec(views(args@), cwd@) is None,
        },
{
    if args.len() <= 1 {
        return None;
    }
    proof {
        assert(views(args@)[1] == args@[1]@);
    }
    let a = args[1].as_str();
    if simple_flags_exec(a).is_some() {
        return None;
    }
    if str_eq(a, "apply") {
        if args.len() >= 3 {
            proof {
                assert(views(args@)[2] == args@[2]@);
            }
            Some(resolve_path(args[2].as_str(), cwd))
        } else {
            None
        }
    } else {
        Some(resolve_path(a, cwd))
    }
}

/// A path whose extension (in any letter case) names a video or an image
/// that can be set as wallpaper.
pub open spec fn wallpaper_path(p: Seq<char>) -> bool {
    path_is_video(p) || path_is_image(p)
}

/// Why the arguments cannot start the application.
pub enum CliError {
    /// `apply` names a file that does not exist (the resolved path).
    MissingFile(String),
    /// The file to apply exists but is no regular file, or its extension
    /// names no supported video or image (the resolved path).
    UnsupportedFile(String),
    /// `apply` without a file.
    ApplyUsage,
    /// A first argument that is neither a command nor a file.
    UnknownCommand(String),
}

impl CliError {
    /// The message printed before the program exits with status 1.
    pub fn message(&self) -> (r: String)
        ensures
            r@ == (match self {
                CliError::MissingFile(p) => "Error: El archivo '"@ + p@ + "' no existe."@,
                CliError::UnsupportedFile(p) => "Error: '"@ + p@ + "' no es un archivo de video o imagen compatible."@,
                CliError::ApplyUsage => "Uso: aura apply <ruta_al_video_o_imagen>"@,
                CliError::UnknownCommand(c) => "Comando desconocido: '"@ + c@ + "'. Ejecuta 'aura help' para ver opciones."@,
            }),
    {
        match self {
            CliError::MissingFile(p) => concat3("Error: El archivo '", p.as_str(), "' no existe."),
            CliError::UnsupportedFile(p) => concat3("Error: '", p.as_str(), "' no es un archivo de video o imagen compatible."),
            CliError::ApplyUsage => owned("Uso: aura apply <ruta_al_video_o_imagen>"),
            CliError::UnknownCommand(c) => concat3("Comando desconocido: '", c.as_str(), "'. Ejecuta 'aura help' para ver opciones."),
        }
    }
}

/// The start flags for any arguments, given what the file system says of
/// the file of `file_target` (ignored when there is none): whether it
/// exists and whether it is a regular file. Only an existing regular file
/// whose extension names a video or an image is applied, with its resolved
/// path as the only action argument. An `apply` target that does not exist
/// is missing; one that exists but is a folder, or has another extension,
/// is refused; a bare first argument that is no regular file is an unknown
/// command.
pub open spec fn resolve_flags_spec(args: Seq<Seq<char>>, cwd: Seq<char>, exists: bool, is_file: bool)
    -> Result<(bool, Option<Seq<char>>, Seq<Seq<char>>), CliError>
{
    if needs_no_file(args) {
        Ok(parse_flags_spec(args))
    } else if args[1] == "apply"@ && args.len() < 3 {
        Err(CliError::ApplyUsage)
    } else {
        let target = file_target_spec(args, cwd).unwrap();
        if exists && is_file && wallpaper_path(target) {
            Ok((true, Some("apply"@), seq![target]))
        } else if args[1] == "apply"@ && !exists {
            Err(CliError::MissingFile(arbitrary()))
        } else if args[1] == "apply"@ || (exists && is_file) {
            Err(CliError::UnsupportedFile(arbitrary()))
        } else {
            Err(CliError::UnknownCommand(arbitrary()))
        }
    }
}

/// See `resolve_flags_spec`; a missing or refused file carries its
/// resolved path, an unknown command the argument as given.
pub fn resolve_flags(args: &[String], cwd: &str, exists: bool, is_file: bool) -> (r: Result<(bool, Option<String>, Vec<String>), CliError>)
    ensures
        match (r, resolve_flags_spec(views(args@), cwd@, exists, is_file)) {
            (Ok(f), Ok(g)) => flags_view(f) == g,
            (Err(CliError::MissingFile(p)), Err(CliError::MissingFile(_))) => Some(p@) == file_target_spec(views(args@), cwd@),
            (Err(CliError::UnsupportedFile(p)), Err(CliError::UnsupportedFile(_))) => Some(p@) == file_target_spec(views(args@), cwd@),
            (Err(CliError::ApplyUsage), Err(CliError::ApplyUsage)) => true,
            (Err(CliError::UnknownCommand(c)), Err(CliError::UnknownCommand(_))) => c@ == views(args@)[1],
            _ => false,
        },
{
    if args.len() <= 1 || simple_flags_exec(args[1].as_str()).is_some() {
        proof {
            if args.len() > 1 {
                assert(views(args@)[1] == args@[1]@);
            }
        }
        return Ok(parse_flags(args));
    }
    proof {
        assert(views(args@)[1] == args@[1]@);
    }
    let a = args[1].as_str();
    let is_apply = str_eq(a, "apply");
    if is_apply && args.len() < 3 {
        return Err(CliError::ApplyUsage);
    }
    let target = match file_target(args, cwd) {
        Some(t) => t,
        None => {
            return Err(CliError::ApplyUsage);
        },
    };
    let playable = is_video_path(target.as_str()) || is_image_path(target.as_str());
    if exists && is_file && playable {
        let mut v: Vec<String> = Vec::new();
        v.push(target);
        proof {
            assert(views(v@) =~= seq![v@[0]@]);
        }
        Ok((true, Some(owned("apply")), v))
    } else if is_apply && !exists {
        Err(CliError::MissingFile(target))
    } else if is_apply || (exists && is_file) {
        Err(CliError::UnsupportedFile(target))
    } else {
        Err(CliError::UnknownCommand(owned(a)))
    }
}

} // verus!
