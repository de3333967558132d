//! Identities the frontend mints or projects: random pairing identities in
//! lowercase hex, and the tracing identity of a selected Run.

use vstd::prelude::*;
use crate::parse::{debug_quoted, debug_text};
use crate::text::{chars_of, has_prefix, owned, slice_chars, starts_with};

verus! {

/// The lowercase hexadecimal digit for `n` in `0..16`.
pub open spec fn hex_digit_char(n: int) -> char {
    if n < 10 {
        (48 + n) as char
    } else {
        (87 + n) as char
    }
}

pub open spec fn is_lower_hex_char(c: char) -> bool {
    ('0' <= c && c <= '9') || ('a' <= c && c <= 'f')
}

/// Two lowercase hexadecimal digits per byte, high nibble first.
pub open spec fn lower_hex(bytes: Seq<u8>) -> Seq<char>
    decreases bytes.len(),
{
    if bytes.len() == 0 {
        Seq::empty()
    } else {
        lower_hex(bytes.drop_last()) + seq![
            hex_digit_char(bytes.last() as int / 16),
            hex_digit_char(bytes.last() as int % 16),
        ]
    }
}

/// The hyphenated form of a UUID's sixteen bytes: groups of 4, 2, 2, 2 and 6
/// bytes in lowercase hexadecimal, joined by hyphens.
pub open spec fn hyphenated(bytes: Seq<u8>) -> Seq<char> {
    lower_hex(bytes.subrange(0, 4)) + "-"@ + lower_hex(bytes.subrange(4, 6)) + "-"@ + lower_hex(
        bytes.subrange(6, 8),
    ) + "-"@ + lower_hex(bytes.subrange(8, 10)) + "-"@ + lower_hex(bytes.subrange(10, 16))
}

pub proof fn lemma_lower_hex_shape(bytes: Seq<u8>)
    ensures
        lower_hex(bytes).len() == 2 * bytes.len(),
        forall|i: int| 0 <= i < lower_hex(bytes).len() ==> is_lower_hex_char(#[trigger] lower_hex(bytes)[i]),
    decreases bytes.len(),
{
    if bytes.len() > 0 {
        lemma_lower_hex_shape(bytes.drop_last());
        let b = bytes.last() as int;
        assert(0 <= b / 16 < 16 && 0 <= b % 16 < 16);
    }
}

#[verifier::external_type_specification]
#[verifier::external_body]
pub struct ExRandomError(getrandom::Error);

#[verifier::external_type_specification]
#[verifier::external_body]
pub struct ExUuidError(uuid::Error);

/// `getrandom::fill`: fills the buffer from the system's random source, or
/// fails. Nothing is promised of the bytes.
#[verifier::external_body]
fn fill_random(bytes: &mut [u8; 32]) -> (r: Result<(), getrandom::Error>) {
    getrandom::fill(bytes)
}

/// The `Display` text of a `getrandom::Error`; nothing is promised of it.
#[verifier::external_body]
fn random_error_text(error: &getrandom::Error) -> String {
    error.to_string()
}

/// `hex::encode`: each byte as two lowercase hexadecimal digits, high
/// nibble first, in order (its table is `0123456789abcdef`).
#[verifier::external_body]
fn hex_encode(bytes: &[u8; 32]) -> (r: String)
    ensures
        r@ == lower_hex(bytes@),
{
    hex::encode(bytes)
}

/// Whether `s` is a random identity: 64 lowercase hexadecimal digits that
/// encode 32 bytes.
pub open spec fn is_random_identity(s: Seq<char>) -> bool {
    exists|bytes: Seq<u8>| bytes.len() == 32 && s == lower_hex(bytes)
}

pub open spec fn identity_error_prefix() -> Seq<char> {
    "failed to generate identity: "@
}

/// A fresh identity from 32 random bytes, hex encoded.
pub fn random_identity() -> (r: Result<String, String>)
    ensures
        match r {
            Ok(s) => {
                &&& is_random_identity(s@)
                &&& s@.len() == 64
                &&& forall|i: int| 0 <= i < s@.len() ==> is_lower_hex_char(#[trigger] s@[i])
            },
            Err(e) => has_prefix(e@, identity_error_prefix()),
        },
{
    let mut bytes = [0u8; 32];
    match fill_random(&mut bytes) {
        Ok(()) => {
            let s = hex_encode(&bytes);
            proof {
                lemma_lower_hex_shape(bytes@);
                vstd::array::array_len_matches_n(&bytes);
                assert(bytes@.len() == 32 && s@ == lower_hex(bytes@));
            }
            Ok(s)
        },
        Err(error) => {
            let mut e = owned("failed to generate identity: ");
            let text = random_error_text(&error);
            e.append(text.as_str());
            assert(e@.subrange(0, identity_error_prefix().len() as int) =~= identity_error_prefix());
            Err(e)
        },
    }
}

/// The identity a pairing client presents: the one given, or a fresh one.
pub fn client_device_id(device_id: Option<String>) -> (r: Result<String, String>)
    ensures
        match device_id {
            Some(id) => r == Ok::<String, String>(id),
            None => match r {
                Ok(s) => is_random_identity(s@),
                Err(e) => has_prefix(e@, identity_error_prefix()),
            },
        },
{
    match device_id {
        Some(id) => Ok(id),
        None => random_identity(),
    }
}

/// Whether a text is a UUID in simple form (32 lowercase hexadecimal
/// digits) or in hyphenated form, and which.
pub open spec fn is_uuid_text_of(text: Seq<char>, bytes: Seq<u8>) -> bool {
    bytes.len() == 16 && (text == lower_hex(bytes) || text == hyphenated(bytes))
}

/// The UUID a text writes in simple or hyphenated form, if any.
pub open spec fn uuid_text_bytes(text: Seq<char>) -> Option<Seq<u8>> {
    if exists|b: Seq<u8>| #[trigger] is_uuid_text_of(text, b) {
        Some(choose|b: Seq<u8>| #[trigger] is_uuid_text_of(text, b))
    } else {
        None
    }
}

/// The length of one of the texts a UUID is written as: simple, hyphenated,
/// braced or URN.
pub open spec fn uuid_shaped_length(n: nat) -> bool {
    n == 32 || n == 36 || n == 38 || n == 45
}

/// The bytes `uuid::Uuid::parse_str` reads from a text, or `None` where it
/// refuses the text.
pub uninterp spec fn uuid_parse_spec(text: Seq<char>) -> Option<Seq<u8>>;

/// `uuid::Uuid::parse_str`, handing back the parsed UUID's bytes. Which
/// texts it accepts is named, not stated in full; stated is that it reads
/// the simple form (32 hexadecimal digits) and the hyphenated form of a
/// UUID back to its bytes, and that it refuses every text whose length is
/// not one of the four UUID forms' (32, 36, 38 or 45; an accepted text is
/// ASCII, so its length in bytes is its length in characters).
#[verifier::external_body]
fn parse_uuid(text: &str) -> (r: Result<[u8; 16], uuid::Error>)
    ensures
        r is Ok <==> uuid_parse_spec(text@) is Some,
        r is Err || uuid_shaped_length(text@.len()),
        r matches Ok(bytes) ==> uuid_parse_spec(text@) == Some(bytes@),
        r is Ok || uuid_text_bytes(text@) is None,
        r matches Ok(bytes) ==> (uuid_text_bytes(text@) matches Some(b) ==> bytes@ == b),
{
    match uuid::Uuid::parse_str(text) {
        Ok(parsed) => Ok(parsed.into_bytes()),
        Err(error) => Err(error),
    }
}

/// The `Display` text of a `uuid::Error`; nothing is promised of it.
#[verifier::external_body]
fn uuid_error_text(error: &uuid::Error) -> String {
    error.to_string()
}

/// `uuid::Uuid::from_bytes(..).to_string()`: the hyphenated lowercase form.
#[verifier::external_body]
fn uuid_text(bytes: [u8; 16]) -> (r: String)
    ensures
        r@ == hyphenated(bytes@),
{
    uuid::Uuid::from_bytes(bytes).to_string()
}

/// A Run ID without the legacy `run_` prefix that older stores expose.
pub open spec fn without_legacy_prefix(run_id: Seq<char>) -> Seq<char> {
    if has_prefix(run_id, "run_"@) {
        run_id.subrange(4, run_id.len() as int)
    } else {
        run_id
    }
}

pub open spec fn projection_error_prefix(run_id: Seq<char>) -> Seq<char> {
    "selected Run ID "@ + debug_text(run_id) + " cannot be projected into the tracing Run identity: "@
}

/// The tracing identity of a selected Run: its UUID in hyphenated form.
pub open spec fn run_identity_spec(run_id: Seq<char>) -> Option<Seq<char>> {
    match uuid_parse_spec(without_legacy_prefix(run_id)) {
        Some(bytes) => Some(hyphenated(bytes)),
        None => None,
    }
}

/// The tracing Run identity for the Run a command selected: `None` when no
/// Run was selected (a fresh one is started), its UUID in hyphenated form
/// otherwise, and an error when the Run ID is no UUID. A Run ID that is a
/// UUID, in simple or hyphenated form and with or without the legacy
/// prefix, keeps that UUID as its tracing identity.
pub fn tracing_run_identity(selected_run_id: Option<&str>) -> (r: Result<Option<String>, String>)
    ensures
        match selected_run_id {
            None => r == Ok::<Option<String>, String>(None),
            Some(id) => match run_identity_spec(id@) {
                Some(text) => r matches Ok(Some(t)) && t@ == text,
                None => r matches Err(e) && has_prefix(e@, projection_error_prefix(id@)),
            },
        },
        selected_run_id matches Some(id) ==> (uuid_text_bytes(without_legacy_prefix(id@)) matches Some(b) ==> (
        r matches Ok(Some(t)) && t@ == hyphenated(b))),
        selected_run_id matches Some(id) ==> (!uuid_shaped_length(without_legacy_prefix(id@).len()) ==> (r matches Err(
            e,
        ) && has_prefix(e@, projection_error_prefix(id@)))),
{
    let control_run_id = match selected_run_id {
        None => return Ok(None),
        Some(id) => id,
    };
    proof {
        reveal_strlit("run_");
    }
    let value = if starts_with(control_run_id, "run_") {
        let cs = chars_of(control_run_id);
        slice_chars(&cs, 4, cs.len())
    } else {
        owned(control_run_id)
    };
    assert(value@ == without_legacy_prefix(control_run_id@));
    match parse_uuid(value.as_str()) {
        Ok(bytes) => Ok(Some(uuid_text(bytes))),
        Err(error) => {
            let mut e = owned("selected Run ID ");
            let quoted = debug_quoted(control_run_id);
            e.append(quoted.as_str());
            e.append(" cannot be projected into the tracing Run identity: ");
            let ghost prefix_len = e@.len();
            let text = uuid_error_text(&error);
            e.append(text.as_str());
            assert(e@.subrange(0, prefix_len as int) =~= projection_error_prefix(control_run_id@));
            Err(e)
        },
    }
}

/// A Run ID selects the same tracing identity with or without the legacy
/// `run_` prefix.
pub proof fn lemma_legacy_prefix_is_ignored(run_id: Seq<char>)
    requires
        !has_prefix(run_id, "run_"@),
    ensures
        run_identity_spec("run_"@ + run_id) == run_identity_spec(run_id),
{
    reveal_strlit("run_");
    let prefixed = "run_"@ + run_id;
    assert(prefixed.subrange(0, 4) =~= "run_"@);
    assert(prefixed.subrange(4, prefixed.len() as int) =~= run_id);
}

} // verus!
