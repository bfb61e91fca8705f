//! What the commands of a desktop shell answer and ask for, apart from the
//! shell itself: the reply to a read, the path behind a file URI, and the
//! script that tells a page where the regions are listed.

use crate::text::{chars_of, spec_starts_with, starts_with};
use vstd::prelude::*;
use vstd::string::*;

verus! {

/// Why a value could not be written as JSON.
#[verifier::external_type_specification]
#[verifier::external_body]
pub struct ExJsonError(serde_json::Error);

/// `text` as a JSON string, quotes included; `None` where it cannot be
/// written as one.
pub uninterp spec fn json_string(text: Seq<char>) -> Option<Seq<char>>;

/// `serde_json::to_string` on a string: the string as JSON, or the reason
/// why it could not be written. Which of the two, and the JSON, depend on
/// the string alone; nothing is claimed of when it succeeds.
#[verifier::external_body]
fn to_json_string(text: &str) -> (r: Result<String, serde_json::Error>)
    ensures
        match json_string(text@) {
            Some(json) => r matches Ok(written) && written@ == json,
            None => r is Err,
        },
{
    serde_json::to_string(text)
}

/// The reply to a read: whether there was something new, the version, and
/// the length of the payload.
#[derive(Debug, Clone, Copy, PartialEq, Eq, Structural)]
pub struct ReadResult {
    pub success: bool,
    pub version: i64,
    pub length: usize,
}

/// The reply to a read that found `length` bytes at `version`, for a caller
/// that has seen `last_version`: nothing new where the version is not
/// beyond the one seen.
pub open spec fn spec_read_reply(
    version: u64,
    length: usize,
    last_version: Option<i64>,
) -> ReadResult {
    if last_version matches Some(last) && version as i64 <= last {
        ReadResult { success: false, version: version as i64, length: 0 }
    } else {
        ReadResult { success: true, version: version as i64, length }
    }
}

/// The reply to a read that found `length` bytes at `version`.
pub fn memio_read(version: u64, length: usize, last_version: Option<i64>) -> (reply: ReadResult)
    ensures
        reply == spec_read_reply(version, length, last_version),
{
    let signed = #[verifier::truncate] (version as i64);
    match last_version {
        Some(last) => {
            if signed <= last {
                return ReadResult { success: false, version: signed, length: 0 };
            }
        },
        None => {},
    }
    ReadResult { success: true, version: signed, length }
}

/// The path that `file_uri` names: what follows `file://`, or all of it
/// where it does not begin so.
pub open spec fn spec_upload_path(file_uri: Seq<char>) -> Seq<char> {
    if spec_starts_with(file_uri, "file://"@) {
        file_uri.subrange(7, file_uri.len() as int)
    } else {
        file_uri
    }
}

/// The path of the file to upload.
pub fn upload_path(file_uri: &str) -> (path: String)
    ensures
        path@ == spec_upload_path(file_uri@),
{
    let chars = chars_of(file_uri);
    let scheme = chars_of("file://");
    proof {
        reveal_strlit("file://");
    }
    if starts_with(chars.as_slice(), scheme.as_slice()) {
        let mut path = String::new();
        let mut i: usize = 7;
        while i < chars.len()
            invariant
                7 <= i <= chars.len(),
                path@ == chars@.subrange(7, i as int),
            decreases chars.len() - i,
        {
            path.push(chars[i]);
            i += 1;
        }
        path
    } else {
        file_uri.to_owned()
    }
}

/// The version that an upload is published as: the seconds since the epoch,
/// or one where the clock cannot tell.
pub fn upload_version(seconds_since_epoch: Option<u64>) -> (version: u64)
    ensures
        version == match seconds_since_epoch {
            Some(seconds) => seconds,
            None => 1,
        },
{
    match seconds_since_epoch {
        Some(seconds) => seconds,
        None => 1,
    }
}

/// The statement that sets the global `name` to `json`.
pub open spec fn spec_assignment(name: Seq<char>, json: Seq<char>) -> Seq<char> {
    "globalThis."@ + name + " = "@ + json + ";"@
}

/// The script that tells a page the path of the manifest and the path of a
/// single region, each where its JSON is given; `None` where neither is.
pub open spec fn spec_shared_paths_script(
    registry_json: Option<Seq<char>>,
    shared_json: Option<Seq<char>>,
) -> Option<Seq<char>> {
    match (registry_json, shared_json) {
        (Some(registry), Some(shared)) => Some(
            spec_assignment("__memioSharedRegistryPath"@, registry) + spec_assignment(
                "__memioSharedPath"@,
                shared,
            ),
        ),
        (Some(registry), None) => Some(spec_assignment("__memioSharedRegistryPath"@, registry)),
        (None, Some(shared)) => Some(spec_assignment("__memioSharedPath"@, shared)),
        (None, None) => None,
    }
}

/// The characters of a text that may be missing.
pub open spec fn spec_text(text: Option<String>) -> Option<Seq<char>> {
    match text {
        Some(text) => Some(text@),
        None => None,
    }
}

/// Appends the statement that sets the global `name` to `json`.
fn push_assignment(script: &mut String, name: &str, json: &str)
    ensures
        final(script)@ == old(script)@ + spec_assignment(name@, json@),
{
    script.append("globalThis.");
    script.append(name);
    script.append(" = ");
    script.append(json);
    script.append(";");
}

/// The script that tells a page the path of the manifest and the path of a
/// single region, from the JSON of each.
pub fn shared_paths_script(registry_json: Option<String>, shared_json: Option<String>) -> (script:
    Option<String>)
    ensures
        match spec_shared_paths_script(spec_text(registry_json), spec_text(shared_json)) {
            Some(text) => script matches Some(s) && s@ == text,
            None => script is None,
        },
{
    if registry_json.is_none() && shared_json.is_none() {
        return None;
    }
    let mut script = String::new();
    match registry_json {
        Some(json) => {
            push_assignment(&mut script, "__memioSharedRegistryPath", json.as_str());
        },
        None => {},
    }
    match shared_json {
        Some(json) => {
            push_assignment(&mut script, "__memioSharedPath", json.as_str());
        },
        None => {},
    }
    Some(script)
}

/// The JSON of a path that may be missing: `None` where none is given or
/// the one given cannot be written as JSON.
pub open spec fn spec_path_json(path: Option<&str>) -> Option<Seq<char>> {
    match path {
        Some(p) => json_string(p@),
        None => None,
    }
}

/// The JSON of `path`, where one is given and can be written.
fn path_json(path: Option<&str>) -> (json: Option<String>)
    ensures
        spec_text(json) == spec_path_json(path),
{
    match path {
        Some(p) => match to_json_string(p) {
            Ok(json) => Some(json),
            Err(_) => None,
        },
        None => None,
    }
}

/// The script that tells a page where the manifest lies, at `registry`, and
/// where a single region lies, at `shared_path`. A path that cannot be
/// written as JSON is left out.
pub fn build_shared_paths_script(registry: Option<&str>, shared_path: Option<&str>) -> (script:
    Option<String>)
    ensures
        match spec_shared_paths_script(spec_path_json(registry), spec_path_json(shared_path)) {
            Some(text) => script matches Some(s) && s@ == text,
            None => script is None,
        },
{
    let registry_json = path_json(registry);
    let shared_json = path_json(shared_path);
    shared_paths_script(registry_json, shared_json)
}

} // verus!
