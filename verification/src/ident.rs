use vstd::prelude::*;

verus! {

/// What `uuid::Uuid::parse_str` gives for the text `text`: the UUID as the
/// 128-bit big-endian number that `Uuid::as_u128` returns, or the text of the
/// parse error.
pub uninterp spec fn uuid_parse(text: Seq<char>) -> Result<u128, Seq<char>>;

/// The lowercase hexadecimal digit for `d < 16`.
pub open spec fn hex_digit(d: nat) -> char {
    if d < 10 {
        (d + '0' as nat) as char
    } else {
        ((d - 10) + 'a' as nat) as char
    }
}

/// The lowest `count` hexadecimal digits of `value`, most significant first.
pub open spec fn hex_digits(value: nat, count: nat) -> Seq<char>
    decreases count,
{
    if count == 0 {
        Seq::empty()
    } else {
        hex_digits(value / 16, (count - 1) as nat).push(hex_digit(value % 16))
    }
}

/// The text of the UUID whose `as_u128` is `value`, as `uuid::Uuid`'s
/// `Display` writes it: the 32 lowercase hexadecimal digits of its 16
/// big-endian bytes, in groups of 8, 4, 4, 4 and 12 joined by hyphens.
pub open spec fn uuid_text(value: u128) -> Seq<char> {
    let h = hex_digits(value as nat, 32);
    h.subrange(0, 8) + seq!['-'] + h.subrange(8, 12) + seq!['-'] + h.subrange(12, 16) + seq!['-']
        + h.subrange(16, 20) + seq!['-'] + h.subrange(20, 32)
}

/// Calls `uuid::Uuid::parse_str` and takes the UUID as its 128-bit value.
/// Trusted: the result is `uuid_parse` of the text, the value on success and
/// the error's `Display` text on failure.
#[verifier::external_body]
fn parse_uuid(text: &str) -> (r: Result<u128, String>)
    ensures
        match r {
            Ok(value) => uuid_parse(text@) == Ok::<u128, Seq<char>>(value),
            Err(message) => uuid_parse(text@) == Err::<u128, Seq<char>>(message@),
        },
{
    match uuid::Uuid::parse_str(text) {
        Ok(id) => Ok(id.as_u128()),
        Err(e) => Err(e.to_string()),
    }
}

/// Formats the UUID of value `value` through `uuid::Uuid::from_u128` and its
/// `Display`. Trusted: the text is the lowercase hyphenated form
/// `uuid_text(value)`, and, as the crate's
/// documentation promises of every format it generates, `parse_str` reads
/// it back as the same UUID.
#[verifier::external_body]
fn format_uuid(value: u128) -> (r: String)
    ensures
        r@ == uuid_text(value),
        uuid_parse(r@) is Ok && uuid_parse(r@)->Ok_0 == value,
{
    uuid::Uuid::from_u128(value).to_string()
}

/// The outcome of reading `text` as a UUID.
pub open spec fn spec_read_uuid(text: Seq<char>) -> Result<u128, Seq<char>> {
    uuid_parse(text)
}

/// Reads `text` as a UUID; on failure, gives the parser's message.
pub fn read_uuid(text: &str) -> (r: Result<u128, String>)
    ensures
        match r {
            Ok(value) => spec_read_uuid(text@) == Ok::<u128, Seq<char>>(value),
            Err(message) => spec_read_uuid(text@) == Err::<u128, Seq<char>>(message@),
        },
{
    parse_uuid(text)
}

/// The canonical text of the UUID `value`; reading it back gives `value`.
pub fn uuid_string(value: u128) -> (r: String)
    ensures
        r@ == uuid_text(value),
        spec_read_uuid(r@) is Ok && spec_read_uuid(r@)->Ok_0 == value,
{
    format_uuid(value)
}

/// The authenticated user on whose behalf a request runs, by the UUID in the
/// `sub` claim of the token.
#[derive(PartialEq, Eq, Structural, Clone, Copy, Debug)]
pub struct UserId(pub u128);

impl UserId {
    /// The user whose UUID is all zeros, under whose key the schema is set up.
    pub fn nil() -> (r: UserId)
        ensures
            r.0 == 0,
    {
        UserId(0)
    }

    /// The key under which the task store keeps this user's data: the UUID's
    /// canonical text, which reads back as the same UUID.
    pub fn key(&self) -> (r: String)
        ensures
            r@ == uuid_text(self.0),
            spec_read_uuid(r@) is Ok && spec_read_uuid(r@)->Ok_0 == self.0,
    {
        uuid_string(self.0)
    }
}

} // verus!
