//! Identifier types of the core. Users, connections, channels and session
//! tokens are identified by UUIDs; the core stores them as their 128-bit
//! values and leaves rendering and parsing of the textual form to the `uuid`
//! crate behind trusted wrappers.

use vstd::prelude::*;

verus! {

/// Stable identity of an account.
pub type UserId = u128;

/// Identity of one live duplex connection; never reused.
pub type ConnId = u128;

/// Identity of a named text channel.
pub type ChannelId = u128;

/// Bearer token of a persisted session.
pub type Token = u128;

/// The nil UUID, used as the default channel every connection is subscribed to.
pub const DEFAULT_CHANNEL: u128 = 0;

/// What `uuid::Uuid::parse_str` accepts, as the 128-bit value of the UUID;
/// `None` where the string is not a valid UUID.
pub uninterp spec fn uuid_parse(s: Seq<char>) -> Option<u128>;

/// The lower-case hex digit character for `d`.
pub open spec fn hex_digit(d: nat) -> char
    recommends
        d < 16,
{
    if d == 0 {
        '0'
    } else if d == 1 {
        '1'
    } else if d == 2 {
        '2'
    } else if d == 3 {
        '3'
    } else if d == 4 {
        '4'
    } else if d == 5 {
        '5'
    } else if d == 6 {
        '6'
    } else if d == 7 {
        '7'
    } else if d == 8 {
        '8'
    } else if d == 9 {
        '9'
    } else if d == 10 {
        'a'
    } else if d == 11 {
        'b'
    } else if d == 12 {
        'c'
    } else if d == 13 {
        'd'
    } else if d == 14 {
        'e'
    } else {
        'f'
    }
}

/// Sixteen raised to the power `k`.
pub open spec fn pow16(k: nat) -> nat
    decreases k,
{
    if k == 0 {
        1
    } else {
        16 * pow16((k - 1) as nat)
    }
}

/// The `i`-th hex digit of `v`, most significant first, of 32.
pub open spec fn uuid_nibble(v: u128, i: int) -> nat {
    ((v as nat) / pow16((31 - i) as nat)) % 16
}

/// The 32 hex digits of `v`, most significant first.
pub open spec fn uuid_hex(v: u128) -> Seq<char> {
    Seq::new(32, |i: int| hex_digit(uuid_nibble(v, i)))
}

/// The hyphenated lower-case rendering of the UUID with the given 128-bit
/// value: its 32 hex digits, most significant first, in groups of
/// 8-4-4-4-12.
pub open spec fn uuid_str(v: u128) -> Seq<char> {
    uuid_hex(v).subrange(0, 8) + seq!['-'] + uuid_hex(v).subrange(8, 12) + seq!['-'] + uuid_hex(
        v,
    ).subrange(12, 16) + seq!['-'] + uuid_hex(v).subrange(16, 20) + seq!['-'] + uuid_hex(
        v,
    ).subrange(20, 32)
}

/// Relies on `uuid::Uuid::parse_str` (with `Uuid::as_u128`): parsing is a
/// function of the characters alone.
#[verifier::external_body]
pub(crate) fn parse_uuid(s: &str) -> (r: Option<u128>)
    ensures
        r == uuid_parse(s@),
{
    match uuid::Uuid::parse_str(s) {
        Ok(u) => Some(u.as_u128()),
        Err(_) => None,
    }
}

/// Relies on `uuid::Uuid::from_u128` (big-endian bytes) and its `Display`
/// form, which renders exactly [`uuid_str`]; `Uuid::parse_str` accepts that
/// rendering and inverts it.
#[verifier::external_body]
pub(crate) fn uuid_to_string(v: u128) -> (r: String)
    ensures
        r@ == uuid_str(v),
        uuid_parse(r@) == Some::<u128>(v),
{
    uuid::Uuid::from_u128(v).to_string()
}

} // verus!
