//! The password generator: maps entropy bytes onto printable characters.
//!
//! Each byte `b` becomes the character with code point `(b % 95) + 32`, so
//! every character of a password lies in the inclusive printable range
//! `[32, 126]` (space through `~`). The mapping carries a slight modulo
//! bias, kept on purpose: 66 of the 95 characters arise from three byte
//! values, the other 29 from two.

use vstd::prelude::*;

verus! {

/// Why a password could not be generated.
#[derive(Clone, Copy, Debug, PartialEq, Eq, Structural)]
pub enum GenerationError {
    /// The secure random source could not be opened.
    EntropySourceUnavailable,
    /// Fewer entropy bytes than requested were available.
    EntropyReadIncomplete,
}

/// The code point a single entropy byte is mapped to: `(b % 95) + 32`,
/// always within `[32, 126]`.
pub open spec fn transformed_byte(b: u8) -> u8 {
    ((b as int % 95) + 32) as u8
}

/// The character a single entropy byte is mapped to.
pub open spec fn password_char(b: u8) -> char {
    transformed_byte(b) as char
}

/// The password text produced from a sequence of entropy bytes: one
/// character per byte, order preserved.
pub open spec fn password_of(bytes: Seq<u8>) -> Seq<char> {
    bytes.map_values(|b: u8| password_char(b))
}

/// Maps one entropy byte into the printable range.
pub fn transform_byte(b: u8) -> (r: u8)
    ensures
        r == transformed_byte(b),
        32 <= r <= 126,
{
    b % 95 + 32
}

/// A password has one character per entropy byte, and every character's
/// code point lies in the inclusive printable range `[32, 126]`.
pub proof fn lemma_password_printable(bytes: Seq<u8>)
    ensures
        password_of(bytes).len() == bytes.len(),
        forall|i: int|
            0 <= i < bytes.len() ==> 32 <= #[trigger] (password_of(bytes)[i] as u32) <= 126,
{
    assert forall|i: int|
        0 <= i < bytes.len() implies 32 <= #[trigger] (password_of(bytes)[i] as u32) <= 126 by {
        assert(password_of(bytes)[i] == password_char(bytes[i]));
    }
}

/// The byte-to-character transform is a pure function: equal entropy byte
/// sequences always yield equal character sequences.
pub proof fn lemma_transform_deterministic(a: Seq<u8>, b: Seq<u8>)
    requires
        a == b,
    ensures
        password_of(a) == password_of(b),
{
}

/// Relies on String::push: appends exactly the given character.
#[verifier::external_body]
fn push_char(s: &mut String, c: char)
    ensures
        final(s)@ == old(s)@.push(c),
{
    s.push(c)
}

/// Turns entropy bytes into a password of exactly `length` characters.
///
/// The first `length` bytes of `entropy` are each mapped into the
/// printable range; generation is all-or-nothing, so fewer bytes than
/// `length` yield an error and no partial password.
pub fn generate(length: usize, entropy: &Vec<u8>) -> (r: Result<String, GenerationError>)
    ensures
        entropy@.len() >= length ==> r is Ok && r->Ok_0@.len() == length && r->Ok_0@
            == password_of(entropy@.take(length as int)),
        entropy@.len() < length ==> r == Err::<String, GenerationError>(
            GenerationError::EntropyReadIncomplete,
        ),
{
    if entropy.len() < length {
        return Err(GenerationError::EntropyReadIncomplete);
    }
    let mut password = String::new();
    let mut i: usize = 0;
    while i < length
        invariant
            i <= length <= entropy@.len(),
            password@ == password_of(entropy@.take(i as int)),
        decreases length - i,
    {
        let c = transform_byte(entropy[i]) as char;
        proof {
            assert(password_of(entropy@.take(i + 1)) =~= password_of(
                entropy@.take(i as int),
            ).push(password_char(entropy@[i as int])));
        }
        push_char(&mut password, c);
        i += 1;
    }
    Ok(password)
}

} // verus!
