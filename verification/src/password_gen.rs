//! Random passwords drawn from chosen classes of ASCII characters.
use crate::text::{chars_of, push_char};
use rand::rngs::OsRng;
use rand::Rng;
use vstd::prelude::*;

verus! {

/// Which characters a generated password may use, and how long it is.
pub struct GeneratorOptions {
    pub length: usize,
    pub use_uppercase: bool,
    pub use_lowercase: bool,
    pub use_digits: bool,
    pub use_symbols: bool,
}

/// The uppercase letters offered to generated passwords.
pub open spec fn uppercase_set() -> Seq<char> {
    "ABCDEFGHIJKLMNOPQRSTUVWXYZ"@
}

/// The lowercase letters offered to generated passwords.
pub open spec fn lowercase_set() -> Seq<char> {
    "abcdefghijklmnopqrstuvwxyz"@
}

/// The digits offered to generated passwords.
pub open spec fn digit_set() -> Seq<char> {
    "0123456789"@
}

/// The symbols offered to generated passwords.
pub open spec fn symbol_set() -> Seq<char> {
    "!@#$%^&*()_+-=[]{}"@
}

/// The characters a password generated with `options` draws from: the
/// enabled classes, in the order uppercase, lowercase, digits, symbols.
pub open spec fn alphabet(options: GeneratorOptions) -> Seq<char> {
    (if options.use_uppercase { uppercase_set() } else { Seq::empty() })
        + (if options.use_lowercase { lowercase_set() } else { Seq::empty() })
        + (if options.use_digits { digit_set() } else { Seq::empty() })
        + (if options.use_symbols { symbol_set() } else { Seq::empty() })
}

/// A uniformly drawn index below `bound` (`Rng::gen_range(0..bound)` of
/// `rand` on `OsRng`). Claims only that it is below the bound; `gen_range`
/// panics on an empty range, which `requires` leaves out.
#[verifier::external_body]
fn random_index(bound: usize) -> (r: usize)
    requires
        bound > 0,
    ensures
        r < bound,
{
    OsRng.gen_range(0..bound)
}

/// The characters that `options` enables, in order.
pub fn alphabet_of(options: &GeneratorOptions) -> (chars: Vec<char>)
    ensures
        chars@ == alphabet(*options),
{
    let mut chars: Vec<char> = Vec::new();
    if options.use_uppercase {
        let mut group = chars_of("ABCDEFGHIJKLMNOPQRSTUVWXYZ");
        chars.append(&mut group);
    }
    if options.use_lowercase {
        let mut group = chars_of("abcdefghijklmnopqrstuvwxyz");
        chars.append(&mut group);
    }
    if options.use_digits {
        let mut group = chars_of("0123456789");
        chars.append(&mut group);
    }
    if options.use_symbols {
        let mut group = chars_of("!@#$%^&*()_+-=[]{}");
        chars.append(&mut group);
    }
    assert(chars@ =~= alphabet(*options));
    chars
}

/// The password whose `i`-th character is the `indices[i]`-th character of
/// the alphabet that `options` enables.
pub fn password_from_indices(options: &GeneratorOptions, indices: &Vec<usize>) -> (password: String)
    requires
        forall|i: int| 0 <= i < indices@.len() ==> #[trigger] indices@[i] < alphabet(*options).len(),
    ensures
        password@ == Seq::new(indices@.len(), |i: int| alphabet(*options)[indices@[i] as int]),
{
    let chars = alphabet_of(options);
    let mut password = String::new();
    let mut i: usize = 0;
    while i < indices.len()
        invariant
            i <= indices.len(),
            chars@ == alphabet(*options),
            forall|k: int| 0 <= k < indices@.len() ==> #[trigger] indices@[k] < chars@.len(),
            password@ == Seq::new(i as nat, |k: int| chars@[indices@[k] as int]),
        decreases indices.len() - i,
    {
        let c = chars[indices[i]];
        push_char(&mut password, c);
        assert(password@ =~= Seq::new((i + 1) as nat, |k: int| chars@[indices@[k] as int]));
        i = i + 1;
    }
    password
}

/// A random password of `options.length` characters, each drawn from the
/// classes that `options` enables; empty where no class is enabled.
pub fn generate_password(options: &GeneratorOptions) -> (password: String)
    ensures
        alphabet(*options).len() == 0 ==> password@.len() == 0,
        alphabet(*options).len() > 0 ==> password@.len() == options.length,
        forall|i: int| 0 <= i < password@.len() ==> alphabet(*options).contains(#[trigger] password@[i]),
{
    let chars = alphabet_of(options);
    if chars.len() == 0 {
        return String::new();
    }
    let mut indices: Vec<usize> = Vec::new();
    let mut i: usize = 0;
    while i < options.length
        invariant
            i <= options.length,
            chars@ == alphabet(*options),
            chars@.len() > 0,
            indices@.len() == i,
            forall|k: int| 0 <= k < indices@.len() ==> #[trigger] indices@[k] < chars@.len(),
        decreases options.length - i,
    {
        let index = random_index(chars.len());
        indices.push(index);
        i = i + 1;
    }
    let password = password_from_indices(options, &indices);
    assert forall|k: int| 0 <= k < password@.len() implies alphabet(*options).contains(#[trigger] password@[k]) by {
        assert(password@[k] == alphabet(*options)[indices@[k] as int]);
    }
    password
}

} // verus!
