use vstd::prelude::*;

verus! {

/// The lowercase hexadecimal digit of a value below 16.
pub open spec fn hex_digit(d: u128) -> char {
    if d < 10 {
        (48 + d) as char
    } else {
        (87 + d) as char
    }
}

/// Which hexadecimal digit of the id, counted from the most significant,
/// stands at position `i` of the hyphenated text.
pub open spec fn uuid_digit_position(i: int) -> int {
    if i < 8 {
        i
    } else if i < 13 {
        i - 1
    } else if i < 18 {
        i - 2
    } else if i < 23 {
        i - 3
    } else {
        i - 4
    }
}

/// The `k`-th hexadecimal digit of the id, counted from the most significant.
pub open spec fn uuid_nibble(id: u128, k: int) -> u128 {
    (id >> ((124 - 4 * k) as u128)) & 15
}

/// The hyphenated lowercase text of a UUID, `xxxxxxxx-xxxx-xxxx-xxxx-xxxxxxxxxxxx`,
/// its 32 digits those of the 128-bit value, most significant first.
pub open spec fn uuid_text(id: u128) -> Seq<char> {
    Seq::new(
        36,
        |i: int|
            if i == 8 || i == 13 || i == 18 || i == 23 {
                '-'
            } else {
                hex_digit(uuid_nibble(id, uuid_digit_position(i)))
            },
    )
}

/// A version 4, RFC 4122 variant UUID: the version digit is 4 and the two
/// top bits of the variant byte are `10`.
pub open spec fn is_v4(id: u128) -> bool {
    (id >> 76u128) & 15 == 4 && (id >> 62u128) & 3 == 2
}

/// `uuid::Uuid::new_v4().as_u128()`. The value is random; what holds of
/// every outcome: `new_v4` masks the random bits so that the version
/// digit is 4 and the variant bits are `10`.
#[verifier::external_body]
pub(crate) fn new_v4() -> (id: u128)
    ensures
        is_v4(id),
{
    uuid::Uuid::new_v4().as_u128()
}

/// `id` is a freshly drawn UUID: a value that `new_v4` can return. Only
/// a call of `new_v4` shows this of a value.
pub closed spec fn drawn_uuid(id: u128) -> bool {
    call_ensures(new_v4, (), id)
}

/// A drawn UUID is a version 4 UUID.
pub proof fn lemma_drawn_uuid_is_v4(id: u128)
    requires
        drawn_uuid(id),
    ensures
        is_v4(id),
{
}

/// What a call of `new_v4` returned is a drawn UUID.
pub(crate) proof fn lemma_draw_uuid(id: u128)
    requires
        call_ensures(new_v4, (), id),
    ensures
        drawn_uuid(id),
{
}

/// `uuid::Uuid::from_u128(id).to_string()`: the hyphenated lowercase form.
#[verifier::external_body]
pub(crate) fn uuid_string(id: u128) -> (s: String)
    ensures
        s@ == uuid_text(id),
{
    uuid::Uuid::from_u128(id).to_string()
}

} // verus!
