use vstd::prelude::*;
use crate::text::push_char;
use rand::Rng;

verus! {

/// `c` is a lower-case hexadecimal digit.
pub open spec fn is_lower_hex(c: char) -> bool {
    ('0' <= c && c <= '9') || ('a' <= c && c <= 'f')
}

/// `s` is a random (version 4) UUID in hyphenated lower-case form,
/// such as `"67e55044-10b1-426f-9247-bb680e5fe0c8"`.
pub open spec fn is_uuid_text(s: Seq<char>) -> bool {
    &&& s.len() == 36
    &&& forall|i: int| 0 <= i < 36 ==> (if i == 8 || i == 13 || i == 18 || i == 23 {
        #[trigger] s[i] == '-'
    } else {
        is_lower_hex(s[i])
    })
    &&& s[14] == '4'
    &&& (s[19] == '8' || s[19] == '9' || s[19] == 'a' || s[19] == 'b')
}

/// A fresh random UUID in text form (`uuid::Uuid::new_v4`, then `to_string`).
/// Trusted: the text is a hyphenated lower-case version 4 UUID, as the `uuid`
/// crate writes it; which one it is rests on chance and is left unsaid.
#[verifier::external_body]
fn new_uuid_v4_text() -> (r: String)
    ensures
        is_uuid_text(r@),
{
    uuid::Uuid::new_v4().to_string()
}

/// Generates a unique id (a random UUID).
pub fn generate_unique_id() -> (r: String)
    ensures
        is_uuid_text(r@),
{
    new_uuid_v4_text()
}

/// Generates a file id (a random UUID).
pub fn generate_file_id() -> (r: String)
    ensures
        is_uuid_text(r@),
{
    new_uuid_v4_text()
}

/// The random generator of the current thread.
#[verifier::external_type_specification]
#[verifier::external_body]
pub struct ExThreadRng(rand::rngs::ThreadRng);

/// The generator of the current thread (`rand::rng`).
#[verifier::external_body]
pub(crate) fn thread_rng() -> rand::rngs::ThreadRng {
    rand::rng()
}

/// A random number in `0..=max` (`Rng::random_range` on an inclusive range).
/// Trusted: the number is at most `max`; which one it is rests on chance.
#[verifier::external_body]
pub(crate) fn random_at_most(rng: &mut rand::rngs::ThreadRng, max: u64) -> (r: u64)
    ensures
        r <= max,
{
    rng.random_range(0..=max)
}

/// The characters of random strings: upper-case letters, lower-case letters, digits.
pub open spec fn charset() -> Seq<char> {
    Seq::new(62, |i: int| charset_at(i))
}

/// The `i`-th character of `charset()`.
pub open spec fn charset_at(i: int) -> char {
    if i < 26 {
        ((65 + i) as u32) as char
    } else if i < 52 {
        ((97 + i - 26) as u32) as char
    } else {
        ((48 + i - 52) as u32) as char
    }
}

/// `c` is an ASCII letter or digit.
pub open spec fn is_ascii_alnum(c: char) -> bool {
    ('A' <= c && c <= 'Z') || ('a' <= c && c <= 'z') || ('0' <= c && c <= '9')
}

fn charset_char(i: usize) -> (c: char)
    requires
        i < 62,
    ensures
        c == charset_at(i as int),
        is_ascii_alnum(c),
{
    let b: u8 = if i < 26 {
        65u8 + (i as u8)
    } else if i < 52 {
        97u8 + ((i - 26) as u8)
    } else {
        48u8 + ((i - 52) as u8)
    };
    b as char
}

/// A random string of `length` characters, each drawn from upper-case letters,
/// lower-case letters and digits.
pub fn generate_random_string(length: usize) -> (r: String)
    ensures
        r@.len() == length,
        forall|i: int| 0 <= i < length ==> charset().contains(#[trigger] r@[i]),
{
    let mut rng = thread_rng();
    let mut s = String::new();
    for k in 0..length
        invariant
            s@.len() == k,
            forall|i: int| 0 <= i < k ==> charset().contains(#[trigger] s@[i]),
    {
        let idx = random_at_most(&mut rng, 61) as usize;
        let c = charset_char(idx);
        assert(charset()[idx as int] == c);
        push_char(&mut s, c);
        assert(s@[k as int] == c);
    }
    s
}

} // verus!
