use rand::Rng;
use vstd::prelude::*;

verus! {

/// Number of characters in a device code.
pub const CODE_LENGTH: usize = 32;

/// Number of characters a device code is drawn from.
pub const ALPHABET_LEN: usize = 62;

/// A character that may stand in a device code: `[A-Za-z0-9]`.
pub open spec fn is_code_char(c: char) -> bool {
    ||| ('A' <= c && c <= 'Z')
    ||| ('a' <= c && c <= 'z')
    ||| ('0' <= c && c <= '9')
}

/// A well-formed device code: exactly `CODE_LENGTH` code characters.
pub open spec fn is_device_code(s: Seq<char>) -> bool {
    &&& s.len() == CODE_LENGTH
    &&& forall|i: int| 0 <= i < s.len() ==> is_code_char(#[trigger] s[i])
}

/// Relies on `rand::Rng::gen_range` on `rand::thread_rng()`: for a non-empty
/// range `0..bound` it returns a value in that range (it panics only on an
/// empty range, which `requires` rules out).
#[verifier::external_body]
fn random_below(bound: usize) -> (r: usize)
    requires
        bound > 0,
    ensures
        r < bound,
{
    rand::thread_rng().gen_range(0..bound)
}

/// The characters a device code is drawn from, in draw order.
pub open spec fn code_alphabet() -> Seq<char> {
    "ABCDEFGHIJKLMNOPQRSTUVWXYZabcdefghijklmnopqrstuvwxyz0123456789"@
}

/// The device code spelled by a sequence of draws: character `i` is the
/// alphabet entry at the `i`-th drawn index.
pub open spec fn code_of_draws(draws: Seq<usize>) -> Seq<char> {
    Seq::new(draws.len(), |i: int| code_alphabet()[draws[i] as int])
}

/// A code spelled by some `CODE_LENGTH` draws below `ALPHABET_LEN`.
pub open spec fn is_drawn_code(s: Seq<char>) -> bool {
    exists|draws: Seq<usize>|
        draws.len() == CODE_LENGTH
        && (forall|i: int| 0 <= i < draws.len() ==> draws[i] < ALPHABET_LEN)
        && s == #[trigger] code_of_draws(draws)
}

/// Turns `CODE_LENGTH` draws below `ALPHABET_LEN` into the code they spell.
pub fn code_from_draws(draws: &Vec<usize>) -> (code: String)
    requires
        draws@.len() == CODE_LENGTH,
        forall|i: int| 0 <= i < draws@.len() ==> draws@[i] < ALPHABET_LEN,
    ensures
        code@ == code_of_draws(draws@),
        is_device_code(code@),
{
    let alphabet = "ABCDEFGHIJKLMNOPQRSTUVWXYZabcdefghijklmnopqrstuvwxyz0123456789";
    proof {
        reveal_strlit("ABCDEFGHIJKLMNOPQRSTUVWXYZabcdefghijklmnopqrstuvwxyz0123456789");
        assert(alphabet@.len() == ALPHABET_LEN);
        assert forall|j: int| 0 <= j < ALPHABET_LEN implies is_code_char(#[trigger] alphabet@[j]) by {
        }
    }
    let mut code = String::new();
    let mut n: usize = 0;
    while n < draws.len()
        invariant
            n <= draws@.len(),
            draws@.len() == CODE_LENGTH,
            forall|i: int| 0 <= i < draws@.len() ==> draws@[i] < ALPHABET_LEN,
            alphabet@ == code_alphabet(),
            alphabet@.len() == ALPHABET_LEN,
            forall|j: int| 0 <= j < ALPHABET_LEN ==> is_code_char(#[trigger] alphabet@[j]),
            code@ == code_of_draws(draws@.subrange(0, n as int)),
        decreases draws@.len() - n,
    {
        let idx = draws[n];
        let picked = alphabet.substring_char(idx, idx + 1);
        code.append(picked);
        assert(code@ =~= code_of_draws(draws@.subrange(0, n + 1)));
        n = n + 1;
    }
    assert(draws@.subrange(0, n as int) =~= draws@);
    code
}

/// Draws a fresh device code: `CODE_LENGTH` indices, each picked uniformly
/// below `ALPHABET_LEN` by the thread-local generator, spelled out by
/// `code_from_draws`.
pub fn generate_device_code() -> (code: String)
    ensures
        is_device_code(code@),
        is_drawn_code(code@),
{
    let mut draws: Vec<usize> = Vec::new();
    while draws.len() < CODE_LENGTH
        invariant
            draws@.len() <= CODE_LENGTH,
            forall|i: int| 0 <= i < draws@.len() ==> draws@[i] < ALPHABET_LEN,
        decreases CODE_LENGTH - draws@.len(),
    {
        let idx = random_below(ALPHABET_LEN);
        draws.push(idx);
    }
    code_from_draws(&draws)
}

} // verus!
