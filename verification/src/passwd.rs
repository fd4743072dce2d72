//! Random password generation.
//!
//! A password is drawn from four character classes (uppercase, lowercase,
//! digits, symbols), each of which can be switched on or off. Every enabled
//! class contributes at least one character, every character comes from an
//! enabled class, and the result has exactly the requested length. The
//! classes leave out characters that are easily confused (`O`, `l`, `o`,
//! `0`).

use vstd::prelude::*;

verus! {

/// The options of the password generator.
#[derive(Clone, Copy, Debug)]
pub struct GenPassOpts {
    pub length: usize,
    pub uppercase: bool,
    pub lowercase: bool,
    pub number: bool,
    pub symbol: bool,
}

/// An error of the password generator.
#[derive(Clone, Copy, Debug, PartialEq, Eq, Structural)]
pub enum GenPassError {
    /// The requested length is smaller than the number of enabled classes.
    LengthTooShort,
    /// No character class is enabled.
    NoCharTypes,
}

impl GenPassError {
    /// A human-readable description of the error.
    pub fn message(&self) -> (r: &'static str)
        ensures
            *self is LengthTooShort ==> r@ == "Password length must be at least the number of enabled character types"@,
            *self is NoCharTypes ==> r@ == "At least one character type must be enabled"@,
    {
        match self {
            GenPassError::LengthTooShort => "Password length must be at least the number of enabled character types",
            GenPassError::NoCharTypes => "At least one character type must be enabled",
        }
    }
}

/// The uppercase class: `A`-`Z` without `O`.
pub open spec fn is_upper_char(c: u8) -> bool {
    65 <= c <= 90 && c != 79
}

/// The lowercase class: `a`-`z` without `l` and `o`.
pub open spec fn is_lower_char(c: u8) -> bool {
    97 <= c <= 122 && c != 108 && c != 111
}

/// The digit class: `1`-`9`.
pub open spec fn is_digit_char(c: u8) -> bool {
    49 <= c <= 57
}

/// The symbol class: one of `!@#$%^&*_`.
pub open spec fn is_symbol_char(c: u8) -> bool {
    c == 33 || c == 64 || c == 35 || c == 36 || c == 37 || c == 94 || c == 38 || c == 42
        || c == 95
}

/// Whether `c` belongs to one of the enabled classes.
pub open spec fn in_enabled_classes(
    c: u8,
    uppercase: bool,
    lowercase: bool,
    number: bool,
    symbol: bool,
) -> bool {
    ||| uppercase && is_upper_char(c)
    ||| lowercase && is_lower_char(c)
    ||| number && is_digit_char(c)
    ||| symbol && is_symbol_char(c)
}

/// How many classes are enabled.
pub open spec fn enabled_count(
    uppercase: bool,
    lowercase: bool,
    number: bool,
    symbol: bool,
) -> int {
    (if uppercase { 1int } else { 0int }) + (if lowercase { 1int } else { 0int }) + (if number {
        1int
    } else {
        0int
    }) + (if symbol { 1int } else { 0int })
}

/// What the generator promises of a produced password: the requested length,
/// only characters of enabled classes, and at least one character of every
/// enabled class.
pub open spec fn password_ok(
    p: Seq<u8>,
    length: int,
    uppercase: bool,
    lowercase: bool,
    number: bool,
    symbol: bool,
) -> bool {
    &&& p.len() == length
    &&& forall|i: int|
        0 <= i < p.len() ==> in_enabled_classes(#[trigger] p[i], uppercase, lowercase, number, symbol)
    &&& uppercase ==> exists|i: int| 0 <= i < p.len() && is_upper_char(#[trigger] p[i])
    &&& lowercase ==> exists|i: int| 0 <= i < p.len() && is_lower_char(#[trigger] p[i])
    &&& number ==> exists|i: int| 0 <= i < p.len() && is_digit_char(#[trigger] p[i])
    &&& symbol ==> exists|i: int| 0 <= i < p.len() && is_symbol_char(#[trigger] p[i])
}

/// Relies on rand's `Rng::gen_range` over `thread_rng`: it returns a value
/// of the given range, here an index below `n`.
#[verifier::external_body]
fn rand_below(n: usize) -> (r: usize)
    requires
        n > 0,
    ensures
        r < n,
{
    rand::Rng::gen_range(&mut rand::thread_rng(), 0..n)
}

/// Relies on rand's `SliceRandom::shuffle` over `thread_rng`: it permutes
/// the elements in place.
#[verifier::external_body]
fn shuffle_bytes(v: &mut Vec<u8>)
    ensures
        final(v)@.len() == old(v)@.len(),
        final(v)@.to_multiset() == old(v)@.to_multiset(),
{
    rand::seq::SliceRandom::shuffle(v.as_mut_slice(), &mut rand::thread_rng());
}

/// Two sequences with the same multiset hold the same values.
proof fn lemma_same_multiset_same_members(a: Seq<u8>, b: Seq<u8>)
    requires
        a.to_multiset() == b.to_multiset(),
    ensures
        forall|c: u8|
            #![trigger a.contains(c)]
            #![trigger b.contains(c)]
            a.contains(c) <==> b.contains(c),
{
    assert forall|c: u8|
        #![trigger a.contains(c)]
        #![trigger b.contains(c)]
        a.contains(c) <==> b.contains(c) by {
        vstd::seq_lib::to_multiset_contains(a, c);
        vstd::seq_lib::to_multiset_contains(b, c);
    }
}

/// The characters of the uppercase class.
fn upper_chars() -> (v: Vec<u8>)
    ensures
        v@.len() > 0,
        forall|i: int| 0 <= i < v@.len() ==> is_upper_char(#[trigger] v@[i]),
{
    let mut v: Vec<u8> = Vec::new();
    v.push(65);
    let mut c: u8 = 66;
    while c <= 90
        invariant
            66 <= c <= 91,
            v@.len() > 0,
            forall|i: int| 0 <= i < v@.len() ==> is_upper_char(#[trigger] v@[i]),
        decreases 91 - c,
    {
        if c != 79 {
            v.push(c);
        }
        c += 1;
    }
    v
}

/// The characters of the lowercase class.
fn lower_chars() -> (v: Vec<u8>)
    ensures
        v@.len() > 0,
        forall|i: int| 0 <= i < v@.len() ==> is_lower_char(#[trigger] v@[i]),
{
    let mut v: Vec<u8> = Vec::new();
    v.push(97);
    let mut c: u8 = 98;
    while c <= 122
        invariant
            98 <= c <= 123,
            v@.len() > 0,
            forall|i: int| 0 <= i < v@.len() ==> is_lower_char(#[trigger] v@[i]),
        decreases 123 - c,
    {
        if c != 108 && c != 111 {
            v.push(c);
        }
        c += 1;
    }
    v
}

/// The characters of the digit class.
fn digit_chars() -> (v: Vec<u8>)
    ensures
        v@.len() > 0,
        forall|i: int| 0 <= i < v@.len() ==> is_digit_char(#[trigger] v@[i]),
{
    let mut v: Vec<u8> = Vec::new();
    let mut c: u8 = 49;
    while c <= 57
        invariant
            49 <= c <= 58,
            v@.len() == c - 49,
            forall|i: int| 0 <= i < v@.len() ==> is_digit_char(#[trigger] v@[i]),
        decreases 58 - c,
    {
        v.push(c);
        c += 1;
    }
    v
}

/// The characters of the symbol class.
fn symbol_chars() -> (v: Vec<u8>)
    ensures
        v@.len() > 0,
        forall|i: int| 0 <= i < v@.len() ==> is_symbol_char(#[trigger] v@[i]),
{
    let mut v: Vec<u8> = Vec::new();
    v.push(33);
    v.push(64);
    v.push(35);
    v.push(36);
    v.push(37);
    v.push(94);
    v.push(38);
    v.push(42);
    v.push(95);
    v
}

/// Generate a random password of exactly `length` characters, drawn from the
/// enabled character classes; every enabled class contributes at least one
/// character.
pub fn process_passwd(
    length: usize,
    uppercase: bool,
    lowercase: bool,
    number: bool,
    symbol: bool,
) -> (r: Result<Vec<u8>, GenPassError>)
    ensures
        r is Ok <==> (enabled_count(uppercase, lowercase, number, symbol) > 0 && length
            >= enabled_count(uppercase, lowercase, number, symbol)),
        r matches Ok(p) ==> password_ok(p@, length as int, uppercase, lowercase, number, symbol),
        r matches Err(e) ==> e == (if length < enabled_count(uppercase, lowercase, number, symbol) {
            GenPassError::LengthTooShort
        } else {
            GenPassError::NoCharTypes
        }),
{
    let mut required: usize = 0;
    if uppercase {
        required += 1;
    }
    if lowercase {
        required += 1;
    }
    if number {
        required += 1;
    }
    if symbol {
        required += 1;
    }
    if length < required {
        return Err(GenPassError::LengthTooShort);
    }
    if required == 0 {
        return Err(GenPassError::NoCharTypes);
    }

    let mut passwd: Vec<u8> = Vec::new();
    let mut all_chars: Vec<u8> = Vec::new();
    let ghost mut wit_up: int = 0;
    let ghost mut wit_lo: int = 0;
    let ghost mut wit_nu: int = 0;
    let ghost mut wit_sy: int = 0;

    // One character of each enabled class, so that none is missing; the rest
    // of the password is filled from the union of the enabled classes.
    if uppercase {
        let mut set = upper_chars();
        let pick = set[rand_below(set.len())];
        proof {
            wit_up = passwd@.len() as int;
        }
        passwd.push(pick);
        all_chars.append(&mut set);
    }
    if lowercase {
        let mut set = lower_chars();
        let pick = set[rand_below(set.len())];
        proof {
            wit_lo = passwd@.len() as int;
        }
        passwd.push(pick);
        all_chars.append(&mut set);
    }
    if number {
        let mut set = digit_chars();
        let pick = set[rand_below(set.len())];
        proof {
            wit_nu = passwd@.len() as int;
        }
        passwd.push(pick);
        all_chars.append(&mut set);
    }
    if symbol {
        let mut set = symbol_chars();
        let pick = set[rand_below(set.len())];
        proof {
            wit_sy = passwd@.len() as int;
        }
        passwd.push(pick);
        all_chars.append(&mut set);
    }

    while passwd.len() < length
        invariant
            all_chars@.len() > 0,
            passwd@.len() <= length,
            forall|i: int|
                0 <= i < all_chars@.len() ==> in_enabled_classes(
                    #[trigger] all_chars@[i],
                    uppercase,
                    lowercase,
                    number,
                    symbol,
                ),
            forall|i: int|
                0 <= i < passwd@.len() ==> in_enabled_classes(
                    #[trigger] passwd@[i],
                    uppercase,
                    lowercase,
                    number,
                    symbol,
                ),
            uppercase ==> 0 <= wit_up < passwd@.len() && is_upper_char(passwd@[wit_up]),
            lowercase ==> 0 <= wit_lo < passwd@.len() && is_lower_char(passwd@[wit_lo]),
            number ==> 0 <= wit_nu < passwd@.len() && is_digit_char(passwd@[wit_nu]),
            symbol ==> 0 <= wit_sy < passwd@.len() && is_symbol_char(passwd@[wit_sy]),
        decreases length - passwd@.len(),
    {
        let pick = all_chars[rand_below(all_chars.len())];
        passwd.push(pick);
    }

    let ghost before = passwd@;
    shuffle_bytes(&mut passwd);
    proof {
        lemma_same_multiset_same_members(before, passwd@);
        assert forall|i: int|
            0 <= i < passwd@.len() implies in_enabled_classes(
            #[trigger] passwd@[i],
            uppercase,
            lowercase,
            number,
            symbol,
        ) by {
            let c = passwd@[i];
            assert(passwd@.contains(c));
            assert(before.contains(c));
            let j = choose|j: int| 0 <= j < before.len() && before[j] == c;
            assert(in_enabled_classes(before[j], uppercase, lowercase, number, symbol));
        }
        if uppercase {
            assert(before.contains(before[wit_up]));
            assert(passwd@.contains(before[wit_up]));
        }
        if lowercase {
            assert(before.contains(before[wit_lo]));
            assert(passwd@.contains(before[wit_lo]));
        }
        if number {
            assert(before.contains(before[wit_nu]));
            assert(passwd@.contains(before[wit_nu]));
        }
        if symbol {
            assert(before.contains(before[wit_sy]));
            assert(passwd@.contains(before[wit_sy]));
        }
    }
    Ok(passwd)
}

} // verus!
