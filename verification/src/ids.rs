//! Minted command identifiers and content-address digests.
//!
//! Both come from outside crates: command ids are random tokens from `nanoid`,
//! cache keys are SHA-256 digests from `sha256`.

use vstd::prelude::*;

verus! {

/// A character of the URL-safe alphabet `A-Za-z0-9_-`; every character of a
/// minted command id is one, so ids are safe in topics, URLs and file names.
pub open spec fn is_id_char(c: char) -> bool {
    ('a' as u32 <= c as u32 && c as u32 <= 'z' as u32) || ('A' as u32 <= c as u32 && c as u32
        <= 'Z' as u32) || ('0' as u32 <= c as u32 && c as u32 <= '9' as u32) || c == '_' || c == '-'
}

/// The length of every minted command id.
pub const CMD_ID_LEN: usize = 21;

/// Mints a fresh command id.
///
/// Relies on `nanoid::format` with the crate's `SAFE` alphabet: it returns a
/// string of exactly `size` characters, each drawn from `A-Za-z0-9_-`.  The
/// result is random; nothing beyond its shape is promised.
#[verifier::external_body]
pub(crate) fn mint_cmd_id() -> (r: String)
    ensures
        r@.len() == CMD_ID_LEN,
        forall|i: int| 0 <= i < r@.len() ==> is_id_char(#[trigger] r@[i]),
{
    nanoid::format(nanoid::rngs::default, &nanoid::alphabet::SAFE, CMD_ID_LEN)
}

/// A lowercase hexadecimal digit.
pub open spec fn is_hex_char(c: char) -> bool {
    ('0' as u32 <= c as u32 && c as u32 <= '9' as u32) || ('a' as u32 <= c as u32 && c as u32
        <= 'f' as u32)
}

/// The lowercase hex encoding of the SHA-256 digest of a string's UTF-8 bytes;
/// a function of the input alone.
pub uninterp spec fn sha256_hex_of(s: Seq<char>) -> Seq<char>;

/// Computes the cache key of a remote URL.
///
/// Relies on `sha256::digest` for `&str`: the lowercase hex encoding of the
/// SHA-256 digest of the string's UTF-8 bytes — 64 hex digits, and the same
/// for the same input on every call.
#[verifier::external_body]
pub(crate) fn sha256_hex(s: &str) -> (r: String)
    ensures
        r@ == sha256_hex_of(s@),
        r@.len() == 64,
        forall|i: int| 0 <= i < r@.len() ==> is_hex_char(#[trigger] r@[i]),
{
    sha256::digest(s)
}

/// Neither an id character nor a hex digit is the path separator: minted ids
/// and cache keys are single file names.
pub proof fn lemma_safe_chars_no_slash()
    ensures
        forall|c: char| is_id_char(c) ==> c != '/',
        forall|c: char| is_hex_char(c) ==> c != '/',
{
}

} // verus!
