//! Random identifiers for stored artwork files: strings of lower-case
//! hexadecimal digits drawn uniformly at random.
use vstd::prelude::*;

use rand::distributions::{Distribution, Uniform};
use rand::rngs::ThreadRng;

use crate::text::push_char;

verus! {

/// The number of characters in a generated identifier.
pub const ID_LEN: usize = 32;

/// The characters that a generated identifier is made of.
pub const HEX_CHARSET: &'static str = "0123456789abcdef";

/// `rand`'s thread-local random number generator, carried through opaquely.
#[verifier::external_type_specification]
#[verifier::external_body]
pub struct ExThreadRng(ThreadRng);

/// Whether `c` is one of the characters of [`HEX_CHARSET`].
pub open spec fn is_hex_char(c: char) -> bool {
    HEX_CHARSET@.contains(c)
}

/// Draws an index uniformly from the half-open range `[low, high)`.
///
/// Trusted: builds `rand::distributions::Uniform::<usize>::new(low, high)` and
/// draws one value from it with `Distribution::sample`. The crate documents
/// (and `UniformInt::sample` computes) a value in `[low, high)`; `new` panics
/// when `low >= high`, which `requires` rules out. Which value comes out
/// depends on the generator's state, so no more than the range is stated.
#[verifier::external_body]
fn sample_uniform(rng: &mut ThreadRng, low: usize, high: usize) -> (n: usize)
    requires
        low < high,
    ensures
        low <= n < high,
{
    Uniform::new(low, high).sample(rng)
}

/// The character of [`HEX_CHARSET`] at `index`.
pub fn hex_char(index: usize) -> (c: char)
    requires
        index < 16,
    ensures
        c == HEX_CHARSET@[index as int],
        is_hex_char(c),
{
    proof {
        reveal_strlit("0123456789abcdef");
    }
    HEX_CHARSET.get_char(index)
}

/// A distribution over the characters of [`HEX_CHARSET`].
pub struct HexGenerator {
    low: usize,
    high: usize,
}

impl HexGenerator {
    #[verifier::type_invariant]
    spec fn inv(self) -> bool {
        self.low < self.high <= 16
    }

    /// The range of charset indices that the generator draws from.
    pub closed spec fn range(self) -> (int, int) {
        (self.low as int, self.high as int)
    }

    /// A generator that draws every character of [`HEX_CHARSET`] with equal
    /// probability.
    pub fn new() -> (g: HexGenerator)
        ensures
            g.range() == (0int, 16int),
    {
        proof {
            reveal_strlit("0123456789abcdef");
        }
        HexGenerator { low: 0, high: HEX_CHARSET.unicode_len() }
    }

    /// Draws one character.
    pub fn sample(&self, rng: &mut ThreadRng) -> (c: char)
        ensures
            is_hex_char(c),
            exists|i: int| self.range().0 <= i < self.range().1 && c == HEX_CHARSET@[i],
    {
        proof {
            use_type_invariant(self);
        }
        let i: usize = sample_uniform(rng, self.low, self.high);
        let c = hex_char(i);
        assert(HEX_CHARSET@[i as int] == c);
        c
    }
}

/// Generates an identifier: [`ID_LEN`] characters, each drawn independently
/// from `generator`.
pub fn generate_id(generator: &HexGenerator, rng: &mut ThreadRng) -> (id: String)
    ensures
        id@.len() == ID_LEN,
        forall|i: int| 0 <= i < id@.len() ==> is_hex_char(#[trigger] id@[i]),
{
    let mut id = String::new();
    let mut n: usize = 0;
    while n < ID_LEN
        invariant
            n <= ID_LEN,
            id@.len() == n,
            forall|i: int| 0 <= i < id@.len() ==> is_hex_char(#[trigger] id@[i]),
        decreases ID_LEN - n,
    {
        let c = generator.sample(rng);
        push_char(&mut id, c);
        n = n + 1;
    }
    id
}

} // verus!
