//! The object that a web view's script calls to read and write regions by
//! name. Payloads cross that border as Base64 text inside small JSON
//! documents.

use crate::region::{spec_payload, spec_region_len, spec_region_written};
use crate::shared_header::spec_read_header;
use crate::text::{push_decimal, spec_decimal};
use crate::windows::{get_version, read_from_shared, write_to_shared, WindowsSharedMemoryFactory};
use vstd::prelude::*;
use vstd::string::*;

verus! {

/// Why a text is no Base64.
#[verifier::external_type_specification]
#[verifier::external_body]
pub struct ExDecodeError(base64::DecodeError);

/// `data` in Base64, standard alphabet, padded.
pub uninterp spec fn base64_standard(data: Seq<u8>) -> Seq<char>;

/// The bytes that `text` stands for in Base64, standard alphabet, padded;
/// `None` where it stands for none.
pub uninterp spec fn base64_standard_decoded(text: Seq<char>) -> Option<Seq<u8>>;

/// Whether the length of the Base64 text of `len` bytes fits a machine
/// word.
pub open spec fn spec_encodable(len: nat) -> bool {
    len / 3 * 4 + 4 <= usize::MAX
}

/// `Engine::encode` of the engine `STANDARD`: the Base64 text of `data`. It
/// panics where the length of the text overflows.
#[verifier::external_body]
fn encode_standard(data: &[u8]) -> (text: String)
    requires
        spec_encodable(data@.len()),
    ensures
        text@ == base64_standard(data@),
{
    base64::Engine::encode(&base64::engine::general_purpose::STANDARD, data)
}

/// `Engine::decode` of the engine `STANDARD`: the bytes that `text` stands
/// for, or the reason why it stands for none.
#[verifier::external_body]
fn decode_standard(text: &str) -> (r: Result<Vec<u8>, base64::DecodeError>)
    ensures
        match base64_standard_decoded(text@) {
            Some(bytes) => r matches Ok(data) && data@ == bytes,
            None => r is Err,
        },
{
    base64::Engine::decode(&base64::engine::general_purpose::STANDARD, text)
}

/// The document that carries a payload to the script.
pub open spec fn spec_read_document(version: u64, data: Seq<u8>) -> Seq<char> {
    "{\"version\":"@ + spec_decimal(version as nat) + ",\"length\":"@ + spec_decimal(data.len())
        + ",\"data\":\""@ + base64_standard(data) + "\"}"@
}

/// What the script is answered on a read, given what reading the region
/// returned: nothing where the read failed, where the version is the one
/// the script has seen, or where the payload is too long to encode; else
/// the document with version, length and payload.
pub open spec fn spec_read_response(
    read: Result<(u64, Vec<u8>), String>,
    last_version: i64,
) -> Seq<char> {
    match read {
        Ok((version, data)) => if (last_version >= 0 && version == last_version as u64)
            || !spec_encodable(data@.len()) {
            Seq::empty()
        } else {
            spec_read_document(version, data@)
        },
        Err(_) => Seq::empty(),
    }
}

/// What the script is answered on a read, given what reading the region
/// returned.
pub fn read_response(read: Result<(u64, Vec<u8>), String>, last_version: i64) -> (response: String)
    ensures
        response@ == spec_read_response(read, last_version),
{
    match read {
        Ok((version, data)) => {
            if last_version >= 0 && version == last_version as u64 {
                return String::new();
            }
            if data.len() / 3 > (usize::MAX - 4) / 4 {
                return String::new();
            }
            let mut response = "{\"version\":".to_owned();
            push_decimal(&mut response, version);
            response.append(",\"length\":");
            push_decimal(&mut response, data.len() as u64);
            response.append(",\"data\":\"");
            response.append(encode_standard(data.as_slice()).as_str());
            response.append("\"}");
            response
        },
        Err(_) => String::new(),
    }
}

/// The version that a write from the script is published as: a negative
/// one counts as one.
pub fn write_version(version: i64) -> (published: u64)
    ensures
        published == if version < 0 {
            1
        } else {
            version as u64
        },
{
    if version < 0 {
        1
    } else {
        version as u64
    }
}

/// What the script is answered when it asks for a version, given what
/// reading the header returned: the version cut to 63 bits and a sign, or
/// -1 where it could not be read.
pub fn version_response(read: Result<u64, String>) -> (response: i64)
    ensures
        response == match read {
            Ok(version) => version as i64,
            Err(_) => -1i64,
        },
{
    match read {
        Ok(version) => #[verifier::truncate] (version as i64),
        Err(_) => -1,
    }
}

/// The object that is handed to the script.
pub struct MemioHostObject {}

impl MemioHostObject {
    pub fn new() -> Self {
        MemioHostObject {  }
    }

    /// Reads the region `name`, whose view is `mapped`, for the script: the
    /// answer is empty where the script has seen this version or the region
    /// cannot be read.
    #[allow(non_snake_case)]
    pub fn ReadSharedState(
        &self,
        factory: &WindowsSharedMemoryFactory,
        name: &str,
        mapped: &[u8],
        last_version: i64,
    ) -> (response: String)
        requires
            factory.wf(),
            factory.known_capacity(name@) matches Some(capacity) ==> mapped.len()
                == spec_region_len(capacity),
        ensures
            match factory.known_capacity(name@) {
                Some(capacity) => match spec_read_header(mapped@, capacity) {
                    Some((version, length)) => response@ == if (last_version >= 0 && version
                        == last_version as u64) || !spec_encodable(length as nat) {
                        Seq::empty()
                    } else {
                        spec_read_document(version, spec_payload(mapped@, length))
                    },
                    None => response@.len() == 0,
                },
                None => response@.len() == 0,
            },
    {
        read_response(read_from_shared(factory, name, mapped), last_version)
    }

    /// Writes what the script sent to the region `name`, whose view is
    /// `mapped`. The answer tells whether the text was Base64, the region
    /// is known and the payload fits.
    #[allow(non_snake_case)]
    pub fn WriteSharedState(
        &self,
        factory: &WindowsSharedMemoryFactory,
        name: &str,
        version: i64,
        data_base64: &str,
        mapped: &mut [u8],
    ) -> (written: bool)
        requires
            factory.wf(),
            factory.known_capacity(name@) matches Some(capacity) ==> old(mapped).len()
                == spec_region_len(capacity),
        ensures
            match (base64_standard_decoded(data_base64@), factory.known_capacity(name@)) {
                (Some(data), Some(capacity)) => if data.len() <= capacity {
                    written && final(mapped)@ == spec_region_written(
                        old(mapped)@,
                        if version < 0 {
                            1
                        } else {
                            version as u64
                        },
                        data,
                    )
                } else {
                    !written && final(mapped)@ == old(mapped)@
                },
                _ => !written && final(mapped)@ == old(mapped)@,
            },
    {
        match decode_standard(data_base64) {
            Ok(data) => write_to_shared(
                factory,
                name,
                write_version(version),
                data.as_slice(),
                mapped,
            ).is_ok(),
            Err(_) => false,
        }
    }

    /// The version of the region `name`, whose view is `mapped`, or -1
    /// where it cannot be read.
    #[allow(non_snake_case)]
    pub fn GetVersion(
        &self,
        factory: &WindowsSharedMemoryFactory,
        name: &str,
        mapped: &[u8],
    ) -> (response: i64)
        requires
            factory.wf(),
        ensures
            response == match factory.known_capacity(name@) {
                Some(capacity) => match spec_read_header(mapped@, capacity) {
                    Some((version, _)) => version as i64,
                    None => -1i64,
                },
                None => -1i64,
            },
    {
        version_response(get_version(factory, name, mapped))
    }
}

} // verus!
