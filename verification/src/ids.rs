//! Identifiers (UUIDs, held as their 128-bit value) and the wall clock.
//!
//! Every identifier of the service is a UUID. The library holds one as the
//! `u128` that `uuid::Uuid::as_u128` gives (big-endian byte order), so the
//! nil UUID is `0`.
use vstd::prelude::*;
use vstd::arithmetic::power::pow;

verus! {

/// The nil UUID `00000000-0000-0000-0000-000000000000`.
pub const NIL_ID: u128 = 0;

/// Mask of the version nibble and the two variant bits of a UUID.
pub const V4_MASK: u128 = 0xF000_C000_0000_0000_0000;

/// Value under `V4_MASK` of every random (version 4, RFC 4122 variant) UUID.
pub const V4_BITS: u128 = 0x4000_8000_0000_0000_0000;

/// `id` carries the version and variant bits of a random UUID.
pub open spec fn is_random_id(id: u128) -> bool {
    id & V4_MASK == V4_BITS
}

/// Lower-case hexadecimal digit for a value in `0..16`.
pub open spec fn hex_char(d: int) -> char {
    if d < 10 {
        (48 + d) as char
    } else {
        (87 + d) as char
    }
}

/// The `k`-th hexadecimal digit of `id`, counted from the most significant one.
pub open spec fn nibble(id: u128, k: int) -> int {
    (id as int / pow(16, (31 - k) as nat)) % 16
}

/// Index of the hexadecimal digit shown at position `t` of the hyphenated text.
pub open spec fn digit_index(t: int) -> int {
    if t < 8 {
        t
    } else if t < 13 {
        t - 1
    } else if t < 18 {
        t - 2
    } else if t < 23 {
        t - 3
    } else {
        t - 4
    }
}

/// The hyphenated lower-case text of a UUID, such as
/// `67e55044-10b1-426f-9247-bb680e5fe0c8`: 32 hexadecimal digits, most
/// significant first, in groups of 8, 4, 4, 4 and 12 separated by `-`.
pub open spec fn hyphenated_text(id: u128) -> Seq<char> {
    Seq::new(
        36,
        |t: int|
            if t == 8 || t == 13 || t == 18 || t == 23 {
                '-'
            } else {
                hex_char(nibble(id, digit_index(t)))
            },
    )
}

/// What `uuid::Uuid::parse_str` gives for a text: the UUID's value, or the
/// text of the parse error.
pub uninterp spec fn parsed_id(text: Seq<char>) -> Result<u128, Seq<char>>;

/// Spec view of an outcome that is an id or an error text.
pub open spec fn id_result(r: Result<u128, String>) -> Result<u128, Seq<char>> {
    match r {
        Ok(id) => Ok(id),
        Err(e) => Err(e@),
    }
}

/// Calls `uuid::Uuid::new_v4` and returns the value of the UUID.
///
/// The value is random. `new_v4` masks a random `u128` and sets the version
/// nibble to 4 and the variant bits to `10`, so every outcome carries them;
/// nothing more is stated. The call panics only when the system's random
/// source fails, which no argument can rule out.
#[verifier::external_body]
pub(crate) fn new_random_id() -> (id: u128)
    ensures
        is_random_id(id),
{
    uuid::Uuid::new_v4().as_u128()
}

/// Formats a UUID with its `Display` impl (`Uuid::from_u128(id).to_string()`),
/// which writes the bytes of `from_u128` (most significant first) as
/// hyphenated lower-case hexadecimal.
#[verifier::external_body]
pub(crate) fn id_text(id: u128) -> (s: String)
    ensures
        s@ == hyphenated_text(id),
{
    uuid::Uuid::from_u128(id).to_string()
}

/// Calls `uuid::Uuid::parse_str`; the error is turned into its `Display` text.
///
/// The outcome is named `parsed_id`. The one fact stated of it is that the
/// hyphenated lower-case text of a UUID parses back to that UUID
/// (`parse_str` accepts the hyphenated form and reads its digits most
/// significant first).
/// Which other texts parse, and the error texts, are left unsaid.
#[verifier::external_body]
pub(crate) fn parse_id(text: &str) -> (r: Result<u128, String>)
    ensures
        id_result(r) == parsed_id(text@),
        forall|id: u128| #[trigger] hyphenated_text(id) == text@ ==> (r is Ok && r->Ok_0 == id),
{
    match uuid::Uuid::parse_str(text) {
        Ok(u) => Ok(u.as_u128()),
        Err(e) => Err(e.to_string()),
    }
}

/// Calls `chrono::Utc::now().timestamp()`: whole seconds since the Unix epoch.
///
/// The value depends on the clock. `Utc::now` panics on a clock set before
/// the epoch, so a value that comes back is not negative.
#[verifier::external_body]
pub(crate) fn now_seconds() -> (t: i64)
    ensures
        t >= 0,
{
    chrono::Utc::now().timestamp()
}

/// A random UUID is never the nil UUID.
pub proof fn lemma_random_id_not_nil(id: u128)
    requires
        is_random_id(id),
    ensures
        id != NIL_ID,
{
    assert(id & 0xF000_C000_0000_0000_0000u128 == 0x4000_8000_0000_0000_0000u128 ==> id != 0u128)
        by (bit_vector);
}

} // verus!
