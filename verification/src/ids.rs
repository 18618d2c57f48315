//! Random identifiers for posts and comments: eight ASCII letters or digits.

use rand::Rng;
use vstd::prelude::*;

verus! {

/// Number of characters of every generated identifier.
pub const ID_LEN: usize = 8;

/// An ASCII letter or digit, as a byte: `0-9`, `A-Z` or `a-z`.
pub open spec fn is_alphanumeric_byte(b: u8) -> bool {
    (48 <= b && b <= 57) || (65 <= b && b <= 90) || (97 <= b && b <= 122)
}

/// An ASCII letter or digit, as a character.
pub open spec fn is_alphanumeric_char(c: char) -> bool {
    let n = c as int;
    (48 <= n && n <= 57) || (65 <= n && n <= 90) || (97 <= n && n <= 122)
}

/// What every generated identifier is: `ID_LEN` ASCII letters or digits.
pub open spec fn is_generated_id(s: Seq<char>) -> bool {
    &&& s.len() == ID_LEN
    &&& forall|i: int| 0 <= i < s.len() ==> is_alphanumeric_char(#[trigger] s[i])
}

/// Draws one byte from `rand`'s `Alphanumeric` distribution with the thread's
/// generator. The rand documentation states that the byte is uniformly
/// distributed over the ASCII letters and digits; only that range is claimed.
#[verifier::external_body]
fn sample_alphanumeric() -> (b: u8)
    ensures
        is_alphanumeric_byte(b),
{
    rand::thread_rng().sample(rand::distributions::Alphanumeric)
}

/// One byte drawn from the sampler for position `pos` of an identifier.
/// `pos` does not change the draw; it records, for the contracts, which
/// position of the identifier the byte was drawn for.
fn draw_for(pos: usize) -> (b: u8)
    ensures
        is_alphanumeric_byte(b),
{
    sample_alphanumeric()
}

/// `b` is a byte that the sampler returned when a byte was drawn for
/// position `pos` of an identifier.
pub closed spec fn drawn_for(pos: usize, b: u8) -> bool {
    call_ensures(draw_for, (pos,), b)
}

/// `s` is made of bytes drawn from the sampler, one for each position in
/// order: the character at position `i` is the byte drawn for position `i`.
pub closed spec fn is_drawn_id(s: Seq<char>) -> bool {
    exists|bytes: Seq<u8>|
        {
            &&& bytes.len() == ID_LEN
            &&& s == bytes.map_values(|b: u8| b as char)
            &&& forall|i: int| 0 <= i < ID_LEN ==> drawn_for(i as usize, #[trigger] bytes[i])
        }
}

/// An identifier drawn from the sampler is `ID_LEN` ASCII letters or digits.
pub proof fn lemma_drawn_id_is_generated(s: Seq<char>)
    requires
        is_drawn_id(s),
    ensures
        is_generated_id(s),
{
    let bytes = choose|bytes: Seq<u8>|
        {
            &&& bytes.len() == ID_LEN
            &&& s == bytes.map_values(|b: u8| b as char)
            &&& forall|i: int| 0 <= i < ID_LEN ==> drawn_for(i as usize, #[trigger] bytes[i])
        };
    assert forall|i: int| 0 <= i < s.len() implies is_alphanumeric_char(#[trigger] s[i]) by {
        assert(drawn_for(i as usize, bytes[i]));
        assert(is_alphanumeric_byte(bytes[i]));
        assert(s[i] == bytes[i] as char);
    }
}

/// `String::push` from std: appends one character at the end.
#[verifier::external_body]
fn push_char(s: &mut String, c: char)
    ensures
        final(s)@ == old(s)@.push(c),
{
    s.push(c);
}

/// The characters whose codes are the given bytes, in order.
pub fn id_from_bytes(bytes: &Vec<u8>) -> (id: String)
    ensures
        id@ == bytes@.map_values(|b: u8| b as char),
{
    let mut id = String::new();
    let mut n: usize = 0;
    while n < bytes.len()
        invariant
            n <= bytes.len(),
            id@ =~= bytes@.take(n as int).map_values(|b: u8| b as char),
        decreases bytes.len() - n,
    {
        let c = bytes[n] as char;
        push_char(&mut id, c);
        assert(bytes@.take(n + 1) =~= bytes@.take(n as int).push(bytes@[n as int]));
        n = n + 1;
    }
    assert(bytes@.take(bytes.len() as int) =~= bytes@);
    id
}

/// Generates a fresh random identifier: one byte is drawn from the sampler
/// for each of the `ID_LEN` positions, and the identifier is made of the
/// characters with those codes, in order. Which identifier comes out depends
/// on chance; what holds of every outcome is stated.
pub fn generate_id() -> (id: String)
    ensures
        is_drawn_id(id@),
        is_generated_id(id@),
{
    let mut bytes: Vec<u8> = Vec::new();
    while bytes.len() < ID_LEN
        invariant
            bytes@.len() <= ID_LEN,
            forall|i: int| 0 <= i < bytes@.len() ==> drawn_for(i as usize, #[trigger] bytes@[i]),
        decreases ID_LEN - bytes@.len(),
    {
        let b = draw_for(bytes.len());
        bytes.push(b);
    }
    let id = id_from_bytes(&bytes);
    assert(forall|i: int| 0 <= i < ID_LEN ==> drawn_for(i as usize, #[trigger] bytes@[i]));
    assert(is_drawn_id(id@));
    proof {
        lemma_drawn_id_is_generated(id@);
    }
    id
}

} // verus!
