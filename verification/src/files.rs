//! The files SONE keeps in the config directory, with paths as bytes.
use crate::app_state::SoneError;
use crate::text::{joined, same_text, trim, trimmed};
use vstd::prelude::*;
use vstd::slice::*;
use vstd::string::*;

verus! {

/// The byte between the parts of a path, a slash.
pub const SEPARATOR: u8 = 47;

/// `name` inside `dir`: a separator goes between them unless `dir` ends in one
/// or is empty.
pub open spec fn inside(dir: Seq<u8>, name: Seq<u8>) -> Seq<u8> {
    if dir.len() == 0 || dir.last() == SEPARATOR {
        dir + name
    } else {
        dir.push(SEPARATOR) + name
    }
}

/// The bytes of a file name.
pub open spec fn name_bytes(name: &str) -> Seq<u8> {
    name.spec_bytes()
}

/// `name` in the directory that SONE keeps inside the config directory `dir`.
pub open spec fn sone_file(dir: Seq<u8>, name: Seq<u8>) -> Seq<u8> {
    inside(inside(dir, name_bytes("sone")), name)
}

fn join(dir: Vec<u8>, name: &str) -> (r: Vec<u8>)
    ensures
        r@ == inside(dir@, name_bytes(name)),
{
    let mut path = dir;
    let mut name = name.as_bytes_vec();
    let len: usize = path.len();
    if len > 0 && path[len - 1] != SEPARATOR {
        path.push(SEPARATOR);
    }
    path.append(&mut name);
    path
}

fn sone_dir(config_dir: Vec<u8>) -> (r: Vec<u8>)
    ensures
        r@ == inside(config_dir@, name_bytes("sone")),
{
    join(config_dir, "sone")
}

/// The log directory, to be created and shown, or why there is none.
pub fn open_log_folder(config_dir: Option<Vec<u8>>) -> (r: Result<Vec<u8>, String>)
    ensures
        r is Ok <==> config_dir is Some,
        config_dir matches Some(dir) ==> (r matches Ok(path) && path@ == sone_file(
            dir@,
            name_bytes("logs"),
        )),
        match config_dir {
            Some(dir) => r matches Ok(path) && path@ == inside(
                inside(dir@, name_bytes("sone")),
                name_bytes("logs"),
            ),
            None => r matches Err(text) && text@ == "could not resolve config directory"@,
        },
{
    match config_dir {
        Some(dir) => Ok(join(sone_dir(dir), "logs")),
        None => Err("could not resolve config directory".to_owned()),
    }
}

/// What shows a directory.
pub struct Launch {
    pub program: String,
    pub argument: Vec<u8>,
}

/// Whether `r` is what follows the creation of the log directory.
pub open spec fn shown_next(
    path: Vec<u8>,
    created: Result<(), String>,
    r: Result<Launch, String>,
) -> bool {
    match (created, r) {
        (Ok(_), Ok(launch)) => launch.program@ == "xdg-open"@ && launch.argument == path,
        (Err(words), Err(told)) => told == words,
        _ => false,
    }
}

/// What follows the creation of the log directory: the system's file manager
/// on it, or the failure in its own words.
pub fn log_folder_created(path: Vec<u8>, created: Result<(), String>) -> (r: Result<Launch, String>)
    ensures
        shown_next(path, created, r),
        match created {
            Ok(_) => r matches Ok(launch) && launch.program@ == "xdg-open"@ && launch.argument
                == path,
            Err(words) => r == Err::<Launch, String>(words),
        },
{
    match created {
        Ok(_) => Ok(Launch { program: "xdg-open".to_owned(), argument: path }),
        Err(words) => Err(words),
    }
}

/// What the caller is told of a file manager that was not launched.
pub open spec fn launch_failure_text(words: Seq<char>) -> Seq<char> {
    "failed to launch file manager: "@ + words
}

/// What the caller is told of a directory that could not be created.
pub open spec fn dir_failure_text(words: Seq<char>) -> Seq<char> {
    "Failed to create config dir: "@ + words
}

/// What the caller is told of a switch that could not be written.
pub open spec fn write_failure_text(words: Seq<char>) -> Seq<char> {
    "Failed to write logging toggle: "@ + words
}

/// What the caller is told once the file manager was launched, or was not.
pub fn log_folder_launched(launched: Result<(), String>) -> (r: Result<(), String>)
    ensures
        r is Ok <==> launched is Ok,
        launched matches Err(words) ==> (r matches Err(text) && text@ == launch_failure_text(
            words@,
        )),
        match launched {
            Ok(_) => r is Ok,
            Err(words) => r matches Err(text) && text@ == "failed to launch file manager: "@
                + words@,
        },
{
    match launched {
        Ok(_) => Ok(()),
        Err(words) => Err(joined("failed to launch file manager: ", words.as_str())),
    }
}

/// Where the logging switch is kept.
pub fn logging_toggle_path(config_dir: Option<Vec<u8>>) -> (r: Option<Vec<u8>>)
    ensures
        r is Some <==> config_dir is Some,
        config_dir matches Some(dir) ==> (r matches Some(path) && path@ == sone_file(
            dir@,
            name_bytes("logging.toggle"),
        )),
        match config_dir {
            Some(dir) => r matches Some(path) && path@ == inside(
                inside(dir@, name_bytes("sone")),
                name_bytes("logging.toggle"),
            ),
            None => r is None,
        },
{
    match config_dir {
        Some(dir) => Some(join(sone_dir(dir), "logging.toggle")),
        None => None,
    }
}

/// Whether a logging switch with this text is on: only the word `false`
/// switches logging off.
pub open spec fn logging_on(text: Option<Seq<char>>) -> bool {
    match text {
        Some(t) => trimmed(t) != "false"@,
        None => true,
    }
}

/// Whether logging is on, from the text of the switch, if it could be read.
pub fn get_enable_logging(text: Option<&str>) -> (r: bool)
    ensures
        r == logging_on(
            match text {
                Some(t) => Some(t@),
                None => None,
            },
        ),
{
    match text {
        Some(t) => !same_text(trim(t), "false"),
        None => true,
    }
}

/// The text of the logging switch.
pub open spec fn toggle_text(enabled: bool) -> Seq<char> {
    if enabled {
        "true"@
    } else {
        "false"@
    }
}

/// A write of the logging switch: the directory to create first, the file, and
/// its text.
pub struct ToggleWrite {
    pub dir: Vec<u8>,
    pub path: Vec<u8>,
    pub text: String,
}

/// What switching logging writes, or why it cannot.
pub fn set_enable_logging(config_dir: Option<Vec<u8>>, enabled: bool) -> (r: Result<
    ToggleWrite,
    SoneError,
>)
    ensures
        r is Ok <==> config_dir is Some,
        config_dir matches Some(dir) ==> (r matches Ok(write) && write.path@ == sone_file(
            dir@,
            name_bytes("logging.toggle"),
        )),
        match config_dir {
            Some(dir) => r matches Ok(write) && write.dir@ == inside(dir@, name_bytes("sone"))
                && write.path@ == inside(
                inside(dir@, name_bytes("sone")),
                name_bytes("logging.toggle"),
            ) && write.text@ == toggle_text(enabled),
            None => r matches Err(SoneError::Io(text)) && text@ == "Could not resolve config dir"@,
        },
{
    let dir = match &config_dir {
        Some(dir) => sone_dir(slice_to_vec(dir.as_slice())),
        None => return Err(SoneError::Io("Could not resolve config dir".to_owned())),
    };
    match logging_toggle_path(config_dir) {
        Some(path) => {
            let text = if enabled {
                "true".to_owned()
            } else {
                "false".to_owned()
            };
            Ok(ToggleWrite { dir, path, text })
        },
        None => Err(SoneError::Io("Could not resolve config dir".to_owned())),
    }
}

/// What the caller is told when the directory cannot be created.
pub fn toggle_dir_failed(words: &str) -> (r: SoneError)
    ensures
        r matches SoneError::Io(text) && text@ == dir_failure_text(words@),
        r matches SoneError::Io(text) && text@ == "Failed to create config dir: "@ + words@,
{
    SoneError::Io(joined("Failed to create config dir: ", words))
}

/// What the caller is told when the switch cannot be written.
pub fn toggle_write_failed(words: &str) -> (r: SoneError)
    ensures
        r matches SoneError::Io(text) && text@ == write_failure_text(words@),
        r matches SoneError::Io(text) && text@ == "Failed to write logging toggle: "@ + words@,
{
    SoneError::Io(joined("Failed to write logging toggle: ", words))
}

/// The switch reads back as it was written.
pub proof fn law_logging_switch_reads_back(enabled: bool)
    ensures
        logging_on(Some(toggle_text(enabled))) == enabled,
{
    reveal_strlit("true");
    reveal_strlit("false");
    assert(trimmed("true"@) == "true"@);
    assert(trimmed("false"@) == "false"@);
    assert("true"@.len() != "false"@.len());
}

/// A path inside a directory begins with the directory and ends in the name,
/// with one slash between them unless the directory is empty or ends in one.
pub proof fn law_path_is_directory_slash_name(dir: Seq<u8>, name: Seq<u8>)
    ensures
        ({
            let path = inside(dir, name);
            let slash = dir.len() > 0 && dir[dir.len() - 1] != 47u8;
            &&& path.len() == dir.len() + name.len() + if slash {
                1int
            } else {
                0int
            }
            &&& path.subrange(0, dir.len() as int) == dir
            &&& path.subrange(path.len() - name.len(), path.len() as int) == name
            &&& slash ==> path[dir.len() as int] == 47u8
        }),
{
    let path = inside(dir, name);
    assert(path.subrange(0, dir.len() as int) =~= dir);
    assert(path.subrange(path.len() - name.len(), path.len() as int) =~= name);
}

/// Only the word `false`, with or without white space around it, switches
/// logging off; a switch that cannot be read leaves it on.
pub proof fn law_only_false_switches_logging_off(text: Option<Seq<char>>)
    ensures
        !logging_on(text) <==> (text matches Some(t) && trimmed(t) == seq!['f', 'a', 'l', 's', 'e']),
{
    reveal_strlit("false");
    assert("false"@ =~= seq!['f', 'a', 'l', 's', 'e']);
}

/// Every file that SONE keeps stands in its own directory, `sone`, inside the
/// config directory.
pub proof fn law_files_stand_in_the_sone_directory(dir: Seq<u8>, name: Seq<u8>)
    ensures
        dir.len() > 0 && dir.last() != 47u8 ==> sone_file(dir, name) == dir + seq![
            47u8, 115u8, 111u8, 110u8, 101u8, 47u8,
        ] + name,
        dir.len() == 0 || dir.last() == 47u8 ==> sone_file(dir, name) == dir + seq![
            115u8, 111u8, 110u8, 101u8, 47u8,
        ] + name,
{
    reveal_strlit("sone");
    is_ascii_spec_bytes("sone");
    assert(is_ascii("sone"));
    let sone = name_bytes("sone");
    assert(sone =~= seq![115u8, 111u8, 110u8, 101u8]);
    assert(inside(dir, sone).last() == 101u8);
    if dir.len() > 0 && dir.last() != 47u8 {
        assert(sone_file(dir, name) =~= dir + seq![47u8, 115u8, 111u8, 110u8, 101u8, 47u8] + name);
    } else {
        assert(sone_file(dir, name) =~= dir + seq![115u8, 111u8, 110u8, 101u8, 47u8] + name);
    }
}

/// What is shown is the directory that was created; where none was, nothing is
/// launched, and the caller hears why.
pub proof fn law_the_created_directory_is_shown(
    path: Vec<u8>,
    created: Result<(), String>,
    r: Result<Launch, String>,
)
    requires
        shown_next(path, created, r),
    ensures
        r is Ok <==> created is Ok,
        r matches Ok(launch) ==> launch.argument == path && launch.program@ == "xdg-open"@,
        created matches Err(words) ==> (r matches Err(told) && told == words),
{
}

/// A failure is told with what failed and then in its own words.
pub proof fn law_failures_keep_their_words(words: Seq<char>)
    ensures
        launch_failure_text(words) == "failed to launch file manager: "@ + words,
        dir_failure_text(words) == "Failed to create config dir: "@ + words,
        write_failure_text(words) == "Failed to write logging toggle: "@ + words,
{
}

} // verus!
