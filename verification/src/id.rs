//! Identifiers of servers and deployments: the 128 bits of a UUID, most
//! significant first, and their texts.
use uuid::Uuid;
use vstd::prelude::*;

use crate::views;

verus! {

/// The 128 bits of a UUID.
pub type Id = u128;

/// The lower-case hexadecimal digit of a number below sixteen.
pub open spec fn hex_digit(value: u128) -> char {
    if value < 10 {
        (48 + value) as char
    } else {
        (87 + value) as char
    }
}

/// The `index`-th of the 32 four-bit groups of an id, counted from the most
/// significant one.
pub open spec fn nibble(id: Id, index: int) -> u128 {
    (id >> ((4 * (31 - index)) as u128)) & 0xf
}

/// The digits of the four-bit groups `from..to` of an id.
pub open spec fn hex_digits(id: Id, from: int, to: int) -> Seq<char> {
    Seq::new((to - from) as nat, |i: int| hex_digit(nibble(id, from + i)))
}

/// The canonical text of an id: its 32 digits, in groups of eight, four, four,
/// four and twelve, joined by hyphens.
pub open spec fn hyphenated(id: Id) -> Seq<char> {
    hex_digits(id, 0, 8) + seq!['-'] + hex_digits(id, 8, 12) + seq!['-'] + hex_digits(id, 12, 16)
        + seq!['-'] + hex_digits(id, 16, 20) + seq!['-'] + hex_digits(id, 20, 32)
}

/// Whether an id carries the marks of a random UUID: version four, and the
/// variant of RFC 9562.
pub open spec fn is_random(id: Id) -> bool {
    &&& (id >> 76u128) & 0xf == 4
    &&& (id >> 62u128) & 0x3 == 2
}

/// What `uuid::Uuid::parse_str` makes of a text: the bits of the UUID that it
/// read, or the message of the error that it reports.
pub uninterp spec fn uuid_parse_str(text: Seq<char>) -> Result<u128, Seq<char>>;

/// What a text stands for. The canonical text of an id stands for that id. For
/// any other text the UUID parser decides: it takes several more spellings.
pub open spec fn id_of_text(text: Seq<char>) -> Result<Id, Seq<char>> {
    if exists|id: Id| text == hyphenated(id) {
        Ok(choose|id: Id| text == hyphenated(id))
    } else {
        uuid_parse_str(text)
    }
}

/// `uuid::Uuid::parse_str`, with the UUID handed on as its 128 bits
/// (`as_u128`) and the error as its message. Claimed of it: it reads the
/// canonical text of an id as that id, and what it makes of any other text,
/// message and all, depends on the text alone. It panics on no text.
#[verifier::external_body]
fn parse_uuid(text: &str) -> (parsed: Result<u128, String>)
    ensures
        forall|id: Id| text@ == hyphenated(id) ==> (parsed is Ok && parsed->Ok_0 == id),
        !(exists|id: Id| text@ == hyphenated(id)) ==> views::result_view(parsed)
            == uuid_parse_str(text@),
{
    match Uuid::parse_str(text) {
        Ok(uuid) => Ok(uuid.as_u128()),
        Err(error) => Err(error.to_string()),
    }
}

/// `uuid::Uuid`'s `Display`, which its documentation gives as the hyphenated
/// form, in lower case; the UUID is made of its 128 bits (`from_u128`).
#[verifier::external_body]
fn uuid_to_string(id: u128) -> (text: String)
    ensures
        text@ == hyphenated(id),
{
    Uuid::from_u128(id).to_string()
}

/// `uuid::Uuid::new_v4`, handed on as its 128 bits (`as_u128`). Claimed of
/// every outcome: the version and variant bits that mark a random UUID. It
/// panics where the operating system has no random bytes to give.
#[verifier::external_body]
fn new_v4() -> (id: u128)
    ensures
        is_random(id),
{
    Uuid::new_v4().as_u128()
}

/// Ids that agree in their first `count` four-bit groups agree in the bits that
/// these make up.
proof fn equal_nibbles_equal_prefix(a: Id, b: Id, count: int)
    requires
        0 < count <= 32,
        forall|i: int| 0 <= i < count ==> #[trigger] nibble(a, i) == nibble(b, i),
    ensures
        a >> ((4 * (32 - count)) as u128) == b >> ((4 * (32 - count)) as u128),
    decreases count,
{
    let shift: u128 = (4 * (32 - count)) as u128;
    assert(nibble(a, count - 1) == nibble(b, count - 1));
    if count == 1 {
        assert(shift == 124);
        assert(a >> 124u128 == (a >> 124u128) & 0xf) by (bit_vector);
        assert(b >> 124u128 == (b >> 124u128) & 0xf) by (bit_vector);
    } else {
        equal_nibbles_equal_prefix(a, b, count - 1);
        let above: u128 = (4 * (33 - count)) as u128;
        assert(a >> shift == ((a >> above) << 4u128) | ((a >> shift) & 0xf)) by (bit_vector)
            requires
                shift <= 120,
                above == shift + 4,
        ;
        assert(b >> shift == ((b >> above) << 4u128) | ((b >> shift) & 0xf)) by (bit_vector)
            requires
                shift <= 120,
                above == shift + 4,
        ;
    }
}

/// Different ids have different canonical texts.
pub proof fn hyphenated_is_injective(a: Id, b: Id)
    requires
        hyphenated(a) == hyphenated(b),
    ensures
        a == b,
{
    assert forall|i: int| 0 <= i < 32 implies #[trigger] nibble(a, i) == nibble(b, i) by {
        let hyphens: int = if i < 8 {
            0
        } else if i < 12 {
            1
        } else if i < 16 {
            2
        } else if i < 20 {
            3
        } else {
            4
        };
        assert(hyphenated(a)[i + hyphens] == hex_digit(nibble(a, i)));
        assert(hyphenated(b)[i + hyphens] == hex_digit(nibble(b, i)));
        let shift: u128 = (4 * (31 - i)) as u128;
        assert((a >> shift) & 0xf < 16) by (bit_vector);
        assert((b >> shift) & 0xf < 16) by (bit_vector);
    }
    equal_nibbles_equal_prefix(a, b, 32);
    assert(a >> 0u128 == a) by (bit_vector);
    assert(b >> 0u128 == b) by (bit_vector);
}

/// The canonical text of an id stands for that id.
pub proof fn id_of_hyphenated(id: Id)
    ensures
        id_of_text(hyphenated(id)) == Ok::<Id, Seq<char>>(id),
{
    let text = hyphenated(id);
    assert(exists|other: Id| text == hyphenated(other));
    let chosen = choose|other: Id| text == hyphenated(other);
    hyphenated_is_injective(id, chosen);
}

/// Reads the id that a text stands for.
pub fn parse_id(text: &str) -> (parsed: Result<Id, String>)
    ensures
        views::result_view(parsed) == id_of_text(text@),
{
    parse_uuid(text)
}

/// The canonical text of an id.
pub fn format_id(id: Id) -> (text: String)
    ensures
        text@ == hyphenated(id),
{
    uuid_to_string(id)
}

/// Whether an id is one that the generator of random ids may come up with.
pub closed spec fn is_drawn(id: Id) -> bool {
    call_ensures(new_v4, (), id)
}

/// An id that was drawn is an outcome of the generator.
proof fn drawn_id_came_from_the_generator(id: Id)
    requires
        is_drawn(id),
    ensures
        call_ensures(new_v4, (), id),
{
}

/// An id that was drawn carries the marks of a random one.
pub proof fn drawn_id_is_random(id: Id)
    requires
        is_drawn(id),
    ensures
        is_random(id),
{
    drawn_id_came_from_the_generator(id);
}

/// A fresh random id.
pub fn random_id() -> (id: Id)
    ensures
        is_random(id),
        is_drawn(id),
{
    new_v4()
}

} // verus!
