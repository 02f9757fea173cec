//! Key, group-identifier and relay-URL helpers.
//!
//! Group identifiers travel between the UI and the collaborator as hex
//! strings; public keys travel as hex or bech32 strings. The encodings are
//! performed by the `hex` and `nostr-sdk` crates behind trusted wrappers.

use crate::error::ApiError;
use nostr_sdk::prelude::ToBech32;
use vstd::prelude::*;
use vstd::string::StringExecFns;

verus! {

/// The lowercase hex digit for a nibble.
pub open spec fn hex_digit(v: u8) -> char
    recommends
        v < 16,
{
    if v < 10 {
        ((v + 48) as u8) as char
    } else {
        ((v + 87) as u8) as char
    }
}

/// Lowercase hex encoding of a byte string: two digits per byte, high
/// nibble first.
pub open spec fn hex_of_bytes(b: Seq<u8>) -> Seq<char>
    decreases b.len(),
{
    if b.len() == 0 {
        Seq::empty()
    } else {
        seq![hex_digit(b[0] / 16), hex_digit(b[0] % 16)] + hex_of_bytes(b.drop_first())
    }
}

/// Whether `c` is a hex digit, upper or lower case.
pub open spec fn is_hex_digit(c: char) -> bool {
    (48 <= c as u32 && c as u32 <= 57) || (97 <= c as u32 && c as u32 <= 102) || (65 <= c as u32
        && c as u32 <= 70)
}

/// Whether `c` is a lowercase hex digit.
pub open spec fn is_lower_hex_digit(c: char) -> bool {
    (48 <= c as u32 && c as u32 <= 57) || (97 <= c as u32 && c as u32 <= 102)
}

/// The nibble value of a hex digit.
pub open spec fn hex_digit_value(c: char) -> u8
    recommends
        is_hex_digit(c),
{
    if 48 <= c as u32 && c as u32 <= 57 {
        (c as u32 - 48) as u8
    } else if 97 <= c as u32 && c as u32 <= 102 {
        (c as u32 - 87) as u8
    } else if 65 <= c as u32 && c as u32 <= 70 {
        (c as u32 - 55) as u8
    } else {
        0
    }
}

/// The bytes denoted by an even-length hex string.
pub open spec fn bytes_of_hex(s: Seq<char>) -> Seq<u8>
    recommends
        s.len() % 2 == 0,
    decreases s.len(),
{
    if s.len() < 2 {
        Seq::empty()
    } else {
        seq![(16 * hex_digit_value(s[0]) + hex_digit_value(s[1])) as u8] + bytes_of_hex(s.skip(2))
    }
}

/// Whether every character of `s` is a hex digit.
pub open spec fn all_hex_digits(s: Seq<char>) -> bool {
    forall|i: int| 0 <= i < s.len() ==> is_hex_digit(#[trigger] s[i])
}

/// Relies on `hex::encode`: two lowercase digits per byte, high nibble
/// first, in byte order.
#[verifier::external_body]
fn hex_encode(bytes: &Vec<u8>) -> (r: String)
    ensures
        r@ == hex_of_bytes(bytes@),
{
    hex::encode(bytes)
}

/// Relies on `hex::decode`: succeeds exactly on even-length strings of hex
/// digits (either case) and returns the denoted bytes.
#[verifier::external_body]
fn hex_decode(s: &str) -> (r: Option<Vec<u8>>)
    ensures
        r is Some <==> (s@.len() % 2 == 0 && all_hex_digits(s@)),
        r matches Some(v) ==> v@ == bytes_of_hex(s@),
{
    hex::decode(s).ok()
}

/// Clones an optional string.
pub(crate) fn clone_opt_string(s: &Option<String>) -> (r: Option<String>)
    ensures
        r == *s,
{
    match s {
        Some(v) => Some(v.clone()),
        None => None,
    }
}

/// Hex-encodes raw key or identifier bytes for the UI.
pub(crate) fn bytes_to_hex_string(bytes: &Vec<u8>) -> (r: String)
    ensures
        r@ == hex_of_bytes(bytes@),
{
    hex_encode(bytes)
}

/// An MLS group identifier, carried as its raw bytes.
#[derive(Debug, Clone)]
pub struct GroupId {
    /// The identifier's bytes.
    pub bytes: Vec<u8>,
}

/// Encodes a group identifier as the hex string the UI uses.
pub fn group_id_to_string(group_id: &GroupId) -> (s: String)
    ensures
        s@ == hex_of_bytes(group_id.bytes@),
{
    hex_encode(&group_id.bytes)
}

/// Decodes the hex form of a group identifier. Fails exactly when the
/// string is not an even-length sequence of hex digits.
pub fn group_id_from_string(group_id: &str) -> (r: Result<GroupId, ApiError>)
    ensures
        r is Ok <==> (group_id@.len() % 2 == 0 && all_hex_digits(group_id@)),
        r matches Ok(g) ==> g.bytes@ == bytes_of_hex(group_id@),
        r matches Err(e) ==> e is InvalidGroupId,
{
    match hex_decode(group_id) {
        Some(bytes) => Ok(GroupId { bytes }),
        None => Err(ApiError::InvalidGroupId),
    }
}

/// Whether `nostr-sdk` accepts `s` as a public key: an even-length hex
/// string of at least 64 digits, a bech32 `npub`/`nprofile` string, or a
/// `nostr:` URI.
pub uninterp spec fn public_key_accepted(s: Seq<char>) -> bool;

/// The bech32 `npub` encoding of the public key written in the first 64
/// digits of the hex string `hex`: a function of the string alone.
pub uninterp spec fn npub_of(hex: Seq<char>) -> Seq<char>;

/// Relies on `nostr_sdk::prelude::PublicKey::from_hex` (succeeds exactly
/// on even-length hex strings, either case, of at least 64 digits, reading
/// the first 64) and `ToBech32::to_bech32` (the infallible 63-character
/// bech32 encoding of the key).
#[verifier::external_body]
fn pubkey_hex_to_npub(s: &str) -> (r: Option<String>)
    ensures
        r is Some <==> (s@.len() >= 64 && s@.len() % 2 == 0 && all_hex_digits(s@)),
        r matches Some(n) ==> n@ == npub_of(s@) && n@.len() == 63,
{
    match nostr_sdk::prelude::PublicKey::from_hex(s) {
        Ok(pk) => match pk.to_bech32() {
            Ok(n) => Some(n),
            Err(e) => match e {},
        },
        Err(_) => None,
    }
}

/// Relies on `nostr_sdk::prelude::PublicKey::parse` and
/// `PublicKey::to_hex`: any accepted form is normalized to the key's 64
/// lowercase hex digits. Parsing the bech32 encoding of a key recovers the
/// key, and hex-encoding it again yields the lowercase digits it was built
/// from, so `npub_of` is inverted exactly.
#[verifier::external_body]
fn pubkey_to_hex_normalized(s: &str) -> (r: Option<String>)
    ensures
        r is Some <==> public_key_accepted(s@),
        r matches Some(h) ==> h@.len() == 64 && (forall|i: int|
            0 <= i < 64 ==> is_lower_hex_digit(#[trigger] h@[i])),
        r matches Some(x) ==> (forall|h: Seq<char>|
            (h.len() == 64 && (forall|i: int| 0 <= i < 64 ==> is_lower_hex_digit(#[trigger] h[i]))
                && s@ == #[trigger] npub_of(h)) ==> x@ == h),
        r is None ==> (forall|h: Seq<char>|
            (h.len() == 64 && (forall|i: int| 0 <= i < 64 ==> is_lower_hex_digit(
                #[trigger] h[i],
            ))) ==> s@ != #[trigger] npub_of(h)),
{
    match nostr_sdk::prelude::PublicKey::parse(s) {
        Ok(pk) => Some(pk.to_hex()),
        Err(_) => None,
    }
}

/// Encodes a hex public key in bech32 `npub` form. Fails exactly when the
/// underlying library rejects the input: anything but an even-length hex
/// string of at least 64 digits, whose first 64 digits are the key.
pub fn npub_from_hex_pubkey(hex_pubkey: &str) -> (r: Result<String, ApiError>)
    ensures
        r is Ok <==> (hex_pubkey@.len() >= 64 && hex_pubkey@.len() % 2 == 0 && all_hex_digits(
            hex_pubkey@,
        )),
        r matches Ok(s) ==> s@ == npub_of(hex_pubkey@) && s@.len() == 63,
        r matches Err(e) ==> e is InvalidPublicKey,
{
    match pubkey_hex_to_npub(hex_pubkey) {
        Some(n) => Ok(n),
        None => Err(ApiError::InvalidPublicKey),
    }
}

/// Normalizes any accepted public-key form to 64 lowercase hex digits.
/// Fails exactly when `nostr-sdk` rejects the input. On the `npub`
/// encoding of a lowercase hex key this inverts [`npub_from_hex_pubkey`]:
/// the original hex digits come back.
pub fn hex_pubkey_from_npub(npub: &str) -> (r: Result<String, ApiError>)
    ensures
        r is Ok <==> public_key_accepted(npub@),
        r matches Ok(s) ==> s@.len() == 64 && (forall|i: int|
            0 <= i < 64 ==> is_lower_hex_digit(#[trigger] s@[i])),
        r matches Ok(x) ==> (forall|h: Seq<char>|
            (h.len() == 64 && (forall|i: int| 0 <= i < 64 ==> is_lower_hex_digit(#[trigger] h[i]))
                && npub@ == #[trigger] npub_of(h)) ==> x@ == h),
        r is Err ==> (forall|h: Seq<char>|
            (h.len() == 64 && (forall|i: int| 0 <= i < 64 ==> is_lower_hex_digit(
                #[trigger] h[i],
            ))) ==> npub@ != #[trigger] npub_of(h)),
        r matches Err(e) ==> e is InvalidPublicKey,
{
    match pubkey_to_hex_normalized(npub) {
        Some(h) => Ok(h),
        None => Err(ApiError::InvalidPublicKey),
    }
}

/// Whether `nostr-sdk` accepts `s` as a relay URL.
pub uninterp spec fn relay_url_accepted(s: Seq<char>) -> bool;

/// Relies on `nostr_sdk::prelude::RelayUrl::parse`.
#[verifier::external_body]
fn parse_relay_url(s: &str) -> (r: Option<nostr_sdk::prelude::RelayUrl>)
    ensures
        r is Some <==> relay_url_accepted(s@),
{
    nostr_sdk::prelude::RelayUrl::parse(s).ok()
}

/// Relies on `nostr_sdk::prelude::RelayUrl::as_str`: the URL's
/// serialization, which begins with its `ws`/`wss` scheme. Nothing more is
/// claimed: a rendered URL is not always re-parseable (a path can itself
/// contain a second `://`, which the parser rejects).
#[verifier::external_body]
fn relay_url_as_string(url: &nostr_sdk::prelude::RelayUrl) -> (r: String)
    ensures
        r@.len() >= 3,
        r@[0] == 'w' && r@[1] == 's',
{
    url.as_str().to_owned()
}

/// The outside type carrying a parsed relay URL.
#[verifier::external_type_specification]
#[verifier::external_body]
pub struct ExRelayUrl(nostr_sdk::prelude::RelayUrl);

/// The outside type carrying a parsed event tag.
#[verifier::external_type_specification]
#[verifier::external_body]
pub struct ExTag(nostr_sdk::prelude::Tag);

/// Parses a relay URL. Fails exactly when `nostr-sdk` rejects the string.
pub fn relay_url_from_string(url: String) -> (r: Result<nostr_sdk::prelude::RelayUrl, ApiError>)
    ensures
        r is Ok <==> relay_url_accepted(url@),
        r matches Err(e) ==> e is InvalidRelayUrl,
{
    match parse_relay_url(url.as_str()) {
        Some(u) => Ok(u),
        None => Err(ApiError::InvalidRelayUrl),
    }
}

/// Renders a relay URL back to the string form the UI uses: its
/// serialization, beginning with the `ws`/`wss` scheme.
pub fn string_from_relay_url(relay_url: &nostr_sdk::prelude::RelayUrl) -> (r: String)
    ensures
        r@.len() >= 3,
        r@[0] == 'w' && r@[1] == 's',
{
    relay_url_as_string(relay_url)
}

/// Relies on `nostr_sdk::prelude::Tag::parse`, which fails exactly on an
/// empty list.
#[verifier::external_body]
fn tag_parse(vec: Vec<String>) -> (r: Option<nostr_sdk::prelude::Tag>)
    ensures
        r is Some <==> vec@.len() > 0,
{
    nostr_sdk::prelude::Tag::parse(vec).ok()
}

/// Builds an event tag from its entries. Fails exactly on an empty list.
pub fn tag_from_vec(vec: Vec<String>) -> (r: Result<nostr_sdk::prelude::Tag, ApiError>)
    ensures
        r is Ok <==> vec@.len() > 0,
        r matches Err(e) ==> e is InvalidTag,
{
    match tag_parse(vec) {
        Some(t) => Ok(t),
        None => Err(ApiError::InvalidTag),
    }
}

/// The media server used when none is configured.
pub fn get_default_blossom_server_url() -> (r: String)
    ensures
        r@ == "https://blossom.primal.net"@,
{
    String::from_str("https://blossom.primal.net")
}

} // verus!
