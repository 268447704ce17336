//! Restoring a backup archive: the check of the path before anything is
//! dispatched, the payloads of the two restore commands, and the reading of
//! the backend's reply.

use vstd::prelude::*;
use vstd::string::*;
use crate::bridge::BridgeError;
use crate::json::{single_member_object, string_member, string_members};
use crate::text::{ends_with, lowercase, to_lowercase};

verus! {

/// Whether a path names a backup archive: in lower case it ends with the
/// archive extension.
pub open spec fn is_archive_path(path: Seq<char>) -> bool {
    ".cvbak"@.is_suffix_of(lowercase(path))
}

/// The command under which the backend restores.
pub fn restore_command() -> (command: &'static str)
    ensures
        command@ == "restore.start"@,
{
    "restore.start"
}

/// Whether a path that is already in lower case ends with the archive
/// extension.
pub fn has_archive_extension(lowered: &str) -> (b: bool)
    ensures
        b == ".cvbak"@.is_suffix_of(lowered@),
{
    ends_with(lowered, ".cvbak")
}

/// Accepts the paths that name a backup archive, whatever the case of their
/// letters, and refuses every other path.
pub fn validate_restore_path(path: &str) -> (r: Result<(), String>)
    ensures
        r is Ok <==> is_archive_path(path@),
        r matches Err(reason) ==> reason@ == "Invalid file format. Expected .cvbak"@,
{
    let lowered = to_lowercase(path);
    if has_archive_extension(lowered.as_str()) {
        Ok(())
    } else {
        Err("Invalid file format. Expected .cvbak".to_owned())
    }
}

/// The payload with which a backup is restored from a validated path: an
/// object whose member `path` is the path as given. A path that names no
/// backup archive is refused, and nothing is to be dispatched for it.
pub fn restore_backup_payload(path: &str) -> (r: Result<serde_json::Value, String>)
    ensures
        r is Ok <==> is_archive_path(path@),
        r matches Ok(payload) ==> string_members(payload) == map!["path"@ => path@],
        r matches Err(reason) ==> reason@ == "Invalid file format. Expected .cvbak"@,
{
    match validate_restore_path(path) {
        Ok(_) => Ok(single_member_object("path", path)),
        Err(reason) => Err(reason),
    }
}

/// The payload with which a dropped file is restored: an object whose member
/// `file_path` is the path as given.
pub fn restore_from_file_payload(file_path: &str) -> (payload: serde_json::Value)
    ensures
        string_members(payload) == map!["file_path"@ => file_path@],
{
    single_member_object("file_path", file_path)
}

/// The text of a member, or a default where there is none.
pub open spec fn text_or(member: Option<Seq<char>>, default: Seq<char>) -> Seq<char> {
    match member {
        Some(text) => text,
        None => default,
    }
}

/// What a reply with the given `status` and `message` means for the user:
/// success only under the status `success`; either way the backend's message
/// is passed on unchanged behind a fixed prefix.
pub open spec fn verdict_spec(status: Option<Seq<char>>, message: Option<Seq<char>>) -> Result<
    Seq<char>,
    Seq<char>,
> {
    if status == Some("success"@) {
        Ok("Restore initiated: "@ + text_or(message, "OK"@))
    } else {
        Err("Python error: "@ + text_or(message, "Unknown error"@))
    }
}

/// The views of a result of strings.
pub open spec fn result_view(r: Result<String, String>) -> Result<Seq<char>, Seq<char>> {
    match r {
        Ok(text) => Ok(text@),
        Err(text) => Err(text@),
    }
}

/// The view of a string that may be absent.
pub open spec fn option_view(o: Option<String>) -> Option<Seq<char>> {
    match o {
        Some(text) => Some(text@),
        None => None,
    }
}

/// The member of a JSON value under a key, where it is a string.
pub open spec fn member_spec(value: serde_json::Value, key: Seq<char>) -> Option<Seq<char>> {
    if string_members(value).contains_key(key) {
        Some(string_members(value)[key])
    } else {
        None
    }
}

/// Reads a reply's `status` and `message` as the user is to see them.
pub fn restore_verdict(status: Option<String>, message: Option<String>) -> (r: Result<
    String,
    String,
>)
    ensures
        result_view(r) == verdict_spec(option_view(status), option_view(message)),
{
    let succeeded = match &status {
        Some(text) => *text == "success".to_owned(),
        None => false,
    };
    if succeeded {
        let shown = match message {
            Some(text) => text,
            None => "OK".to_owned(),
        };
        Ok("Restore initiated: ".to_owned().concat(shown.as_str()))
    } else {
        let shown = match message {
            Some(text) => text,
            None => "Unknown error".to_owned(),
        };
        Err("Python error: ".to_owned().concat(shown.as_str()))
    }
}

/// What the user is told once the restore command has been dispatched.
pub open spec fn outcome_spec(reply: Result<serde_json::Value, BridgeError>) -> Result<
    Seq<char>,
    Seq<char>,
> {
    match reply {
        Ok(value) => verdict_spec(member_spec(value, "status"@), member_spec(value, "message"@)),
        Err(e) => Err("Bridge error: "@ + e.describe_spec()),
    }
}

/// Turns the result of dispatching the restore command into what the user is
/// told: the verdict on the backend's reply, or the bridge's error behind a
/// fixed prefix.
pub fn restore_outcome(reply: Result<serde_json::Value, BridgeError>) -> (r: Result<
    String,
    String,
>)
    ensures
        result_view(r) == outcome_spec(reply),
{
    match reply {
        Ok(value) => {
            let status = string_member(&value, "status");
            let message = string_member(&value, "message");
            restore_verdict(status, message)
        },
        Err(e) => Err("Bridge error: ".to_owned().concat(e.describe().as_str())),
    }
}

/// The command that restores a backup from a path. A path that names no
/// backup archive is refused at once: `dispatch` need not even be callable
/// then, so it is not called. For any other path `dispatch` is called once,
/// with the restore command and a payload whose member `path` is the path,
/// and the user is told what `outcome_spec` makes of its reply.
pub fn cmd_restore_backup<D>(path: String, dispatch: D) -> (r: Result<String, String>) where
    D: FnOnce(&str, serde_json::Value) -> Result<serde_json::Value, BridgeError>,

    requires
        is_archive_path(path@) ==> forall|command: &str, value: serde_json::Value|
            call_requires(dispatch, (command, value)),
    ensures
        !is_archive_path(path@) ==> (r matches Err(reason) && reason@
            == "Invalid file format. Expected .cvbak"@),
        is_archive_path(path@) ==> exists|
            command: &str,
            payload: serde_json::Value,
            reply: Result<serde_json::Value, BridgeError>,
        |
            command@ == "restore.start"@ && string_members(payload) == map!["path"@ => path@]
                && call_ensures(dispatch, (command, payload), reply) && result_view(r)
                == outcome_spec(reply),
{
    let payload = match restore_backup_payload(path.as_str()) {
        Ok(payload) => payload,
        Err(reason) => {
            return Err(reason);
        },
    };
    let command = restore_command();
    let reply = dispatch(command, payload);
    let r = restore_outcome(reply);
    assert(call_ensures(dispatch, (command, payload), reply) && result_view(r) == outcome_spec(
        reply,
    ));
    r
}

/// The command that restores a backup from a dropped file: `dispatch` is
/// called once, with the restore command and a payload whose member
/// `file_path` is the path as given, and its reply is returned as it is.
pub fn cmd_restore_from_file<D>(file_path: String, dispatch: D) -> (r: Result<
    serde_json::Value,
    BridgeError,
>) where D: FnOnce(&str, serde_json::Value) -> Result<serde_json::Value, BridgeError>
    requires
        forall|command: &str, value: serde_json::Value| call_requires(dispatch, (command, value)),
    ensures
        exists|command: &str, payload: serde_json::Value|
            command@ == "restore.start"@ && string_members(payload)
                == map!["file_path"@ => file_path@] && call_ensures(
                dispatch,
                (command, payload),
                r,
            ),
{
    let payload = restore_from_file_payload(file_path.as_str());
    let command = restore_command();
    let r = dispatch(command, payload);
    assert(call_ensures(dispatch, (command, payload), r));
    r
}

} // verus!
