//! Where uploaded files are kept, and how a stored file is handed to a
//! provider as base64 text.
use vstd::prelude::*;

use crate::ids::{uuid_text, uuid_text_of};
use base64::Engine;
use vstd::string::StringExecFns;

verus! {

/// The folder that holds the users' files.
pub const LOCAL_FOLDER: &'static str = "./files";

/// The path of a user's file: the folder, the user's id, the file's id.
pub open spec fn local_path_of(user_id: u128, file_id: Seq<char>) -> Seq<char> {
    LOCAL_FOLDER@ + "/"@ + uuid_text_of(user_id) + "/"@ + file_id
}

pub fn get_local_file_path(user_id: u128, file_id: &str) -> (r: String)
    ensures
        r@ == local_path_of(user_id, file_id@),
{
    let mut p = LOCAL_FOLDER.to_owned();
    p.append("/");
    let id = uuid_text(user_id);
    p.append(id.as_str());
    p.append("/");
    p.append(file_id);
    p
}

/// Where a listed file is downloaded from.
pub open spec fn download_url_of(file_id: u128) -> Seq<char> {
    "/files/"@ + uuid_text_of(file_id) + "/download"@
}

pub fn file_download_url(file_id: u128) -> (r: String)
    ensures
        r@ == download_url_of(file_id),
{
    let mut p = "/files/".to_owned();
    let id = uuid_text(file_id);
    p.append(id.as_str());
    p.append("/download");
    p
}

/// A digit of the standard base64 alphabet: `A`-`Z`, `a`-`z`, `0`-`9`, `+`,
/// `/`.
pub open spec fn base64_digit(n: int) -> char {
    if n < 26 {
        (65 + n) as char
    } else if n < 52 {
        (97 + n - 26) as char
    } else if n < 62 {
        (48 + n - 52) as char
    } else if n == 62 {
        '+'
    } else {
        '/'
    }
}

/// Standard base64 with padding: every three bytes become four digits of
/// six bits each; a last group of one or two bytes is padded with `=`.
pub open spec fn base64_standard(bytes: Seq<u8>) -> Seq<char>
    decreases bytes.len(),
{
    if bytes.len() == 0 {
        Seq::empty()
    } else {
        let b0 = bytes[0] as int;
        let b1 = if bytes.len() > 1 {
            bytes[1] as int
        } else {
            0
        };
        let b2 = if bytes.len() > 2 {
            bytes[2] as int
        } else {
            0
        };
        seq![
            base64_digit(b0 / 4),
            base64_digit((b0 % 4) * 16 + b1 / 16),
            if bytes.len() > 1 {
                base64_digit((b1 % 16) * 4 + b2 / 64)
            } else {
                '='
            },
            if bytes.len() > 2 {
                base64_digit(b2 % 64)
            } else {
                '='
            },
        ] + if bytes.len() > 3 {
            base64_standard(bytes.subrange(3, bytes.len() as int))
        } else {
            Seq::empty()
        }
    }
}

/// Calls `base64::engine::general_purpose::STANDARD.encode`, the standard
/// alphabet with padding, which encodes as `base64_standard` states.
#[verifier::external_body]
fn encode_base64(bytes: &[u8]) -> (r: String)
    ensures
        r@ == base64_standard(bytes@),
{
    base64::engine::general_purpose::STANDARD.encode(bytes)
}

/// A stored file as base64 text, when it could be read.
pub fn file_contents_as_base64(contents: Option<Vec<u8>>) -> (r: Option<String>)
    ensures
        match contents {
            Some(b) => r matches Some(t) && t@ == base64_standard(b@),
            None => r is None,
        },
{
    match contents {
        Some(b) => Some(encode_base64(b.as_slice())),
        None => None,
    }
}

} // verus!
