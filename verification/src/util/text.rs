//! Text helpers for the option strings that are handed to the native layer.
//!
//! The native libraries read every option as text, so the exact characters
//! matter: numbers are written without padding, separators or sign, and a
//! string must not hold a NUL, which would end it early on the native side.

use vstd::prelude::*;
use vstd::std_specs::iter::IteratorSpec;

verus! {

/// The character that ends a native string.
pub const NUL: char = '\0';

/// The character for one digit of a number written in base 16 or less.
pub open spec fn spec_digit_char(d: nat) -> char {
    if d == 0 {
        '0'
    } else if d == 1 {
        '1'
    } else if d == 2 {
        '2'
    } else if d == 3 {
        '3'
    } else if d == 4 {
        '4'
    } else if d == 5 {
        '5'
    } else if d == 6 {
        '6'
    } else if d == 7 {
        '7'
    } else if d == 8 {
        '8'
    } else if d == 9 {
        '9'
    } else if d == 10 {
        'a'
    } else if d == 11 {
        'b'
    } else if d == 12 {
        'c'
    } else if d == 13 {
        'd'
    } else if d == 14 {
        'e'
    } else {
        'f'
    }
}

/// The digits of `n` in `base`, most significant first; empty for zero.
pub open spec fn spec_digits(n: nat, base: nat) -> Seq<char>
    decreases n,
    via spec_digits_decreases
{
    if n == 0 || base < 2 {
        Seq::empty()
    } else {
        spec_digits(n / base, base).push(spec_digit_char(n % base))
    }
}

#[via_fn]
proof fn spec_digits_decreases(n: nat, base: nat) {
    if n != 0 && base >= 2 {
        assert(n / base < n) by (nonlinear_arith)
            requires
                n > 0,
                base >= 2,
        ;
    }
}

/// `n` written in `base` without sign, prefix or leading zeros.
pub open spec fn spec_radix(n: nat, base: nat) -> Seq<char> {
    if n == 0 {
        seq!['0']
    } else {
        spec_digits(n, base)
    }
}

/// `n` written in decimal.
pub open spec fn spec_decimal(n: nat) -> Seq<char> {
    spec_radix(n, 10)
}

/// `n` written in lower case hexadecimal.
pub open spec fn spec_hex(n: nat) -> Seq<char> {
    spec_radix(n, 16)
}

/// `text` with zeros in front until it is `width` characters long.
pub open spec fn spec_zero_padded(text: Seq<char>, width: nat) -> Seq<char>
    decreases width - text.len(),
{
    if text.len() >= width {
        text
    } else {
        spec_zero_padded(seq!['0'] + text, width)
    }
}

/// Appends one character. Trusted: `String::push` appends exactly the given
/// character to the end of the string.
#[verifier::external_body]
pub(crate) fn push_char(s: &mut String, c: char)
    ensures
        final(s)@ == old(s)@.push(c),
{
    s.push(c)
}

/// The character for one digit.
pub fn digit_char(d: u8) -> (c: char)
    requires
        d < 16,
    ensures
        c == spec_digit_char(d as nat),
{
    match d {
        0 => '0',
        1 => '1',
        2 => '2',
        3 => '3',
        4 => '4',
        5 => '5',
        6 => '6',
        7 => '7',
        8 => '8',
        9 => '9',
        10 => 'a',
        11 => 'b',
        12 => 'c',
        13 => 'd',
        14 => 'e',
        _ => 'f',
    }
}

/// Writes `n` in `base`.
pub fn radix(n: u64, base: u64) -> (text: String)
    requires
        2 <= base <= 16,
    ensures
        text@ == spec_radix(n as nat, base as nat),
{
    let mut text = String::new();
    if n == 0 {
        push_char(&mut text, '0');
        assert(text@ =~= seq!['0']);
        return text;
    }
    let mut reversed: Vec<char> = Vec::new();
    let mut rest: u64 = n;
    while rest != 0
        invariant
            2 <= base <= 16,
            spec_digits(n as nat, base as nat) == spec_digits(rest as nat, base as nat)
                + reversed@.reverse(),
        decreases rest,
    {
        let d: u64 = rest % base;
        let c: char = digit_char(d as u8);
        proof {
            let tail = spec_digits((rest / base) as nat, base as nat);
            assert(spec_digits(rest as nat, base as nat) == tail.push(c));
            assert(tail.push(c) + reversed@.reverse() =~= tail + reversed@.push(c).reverse());
        }
        reversed.push(c);
        rest = rest / base;
    }
    assert(spec_digits(n as nat, base as nat) =~= reversed@.reverse());
    let mut i: usize = reversed.len();
    while i > 0
        invariant
            i <= reversed.len(),
            text@ == reversed@.reverse().take(reversed.len() - i),
        decreases i,
    {
        i = i - 1;
        push_char(&mut text, reversed[i]);
        assert(reversed@.reverse().take(reversed.len() - i - 1).push(reversed@[i as int])
            =~= reversed@.reverse().take(reversed.len() - i));
    }
    assert(reversed@.reverse().take(reversed.len() as int) =~= reversed@.reverse());
    text
}

/// Writes `n` in decimal.
pub fn decimal(n: u64) -> (text: String)
    ensures
        text@ == spec_decimal(n as nat),
{
    radix(n, 10)
}

/// Writes `n` in lower case hexadecimal, without a prefix.
pub fn hex(n: u64) -> (text: String)
    ensures
        text@ == spec_hex(n as nat),
{
    radix(n, 16)
}

/// Writes `n` in decimal, with zeros in front up to `width` characters.
pub fn decimal_padded(n: u64, width: usize) -> (text: String)
    ensures
        text@ == spec_zero_padded(spec_decimal(n as nat), width as nat),
{
    let digits = decimal(n);
    let len = digits.as_str().unicode_len();
    let mut text = String::new();
    let mut have: usize = len;
    while have < width
        invariant
            len <= have,
            have == len || have <= width,
            have - len == text@.len(),
            len == digits@.len(),
            forall|i: int| 0 <= i < text@.len() ==> text@[i] == '0',
        decreases width - have,
    {
        push_char(&mut text, '0');
        have = have + 1;
    }
    proof {
        lemma_zero_padded(text@, digits@, width as nat);
    }
    text.append(digits.as_str());
    text
}

/// Padding that is already in front of `text` counts towards the width.
proof fn lemma_zero_padded(zeros: Seq<char>, text: Seq<char>, width: nat)
    requires
        forall|i: int| 0 <= i < zeros.len() ==> zeros[i] == '0',
        zeros.len() + text.len() == width || (zeros.len() == 0 && text.len() >= width),
    ensures
        spec_zero_padded(text, width) == zeros + text,
    decreases zeros.len(),
{
    if zeros.len() == 0 {
        assert(zeros + text =~= text);
    } else {
        let fewer = zeros.drop_last();
        lemma_zero_padded(fewer, seq!['0'] + text, width);
        assert(fewer + (seq!['0'] + text) =~= zeros + text);
    }
}

/// A character other than NUL at the end adds no NUL.
pub proof fn lemma_push_nul_free(text: Seq<char>, c: char)
    requires
        !text.contains(NUL),
        c != NUL,
    ensures
        !text.push(c).contains(NUL),
{
    let longer = text.push(c);
    if longer.contains(NUL) {
        let i = choose|i: int| 0 <= i < longer.len() && longer[i] == NUL;
        if i < text.len() {
            assert(text[i] == NUL);
        }
    }
}

/// The digits of a number hold no NUL.
pub proof fn lemma_digits_nul_free(n: nat, base: nat)
    ensures
        !spec_digits(n, base).contains(NUL),
    decreases n,
{
    if n == 0 || base < 2 {
        assert(!Seq::<char>::empty().contains(NUL));
    } else {
        assert(n / base < n) by (nonlinear_arith)
            requires
                n > 0,
                base >= 2,
        ;
        lemma_digits_nul_free(n / base, base);
        lemma_push_nul_free(spec_digits(n / base, base), spec_digit_char(n % base));
    }
}

/// A number that is written out holds no NUL.
pub proof fn lemma_radix_nul_free(n: nat, base: nat)
    ensures
        !spec_radix(n, base).contains(NUL),
{
    if n == 0 {
        lemma_push_nul_free(Seq::empty(), '0');
        assert(Seq::<char>::empty().push('0') =~= seq!['0']);
    } else {
        lemma_digits_nul_free(n, base);
    }
}

/// Zeros in front add no NUL.
pub proof fn lemma_zero_padded_nul_free(text: Seq<char>, width: nat)
    requires
        !text.contains(NUL),
    ensures
        !spec_zero_padded(text, width).contains(NUL),
    decreases width - text.len(),
{
    if text.len() < width {
        let longer = seq!['0'] + text;
        if longer.contains(NUL) {
            let i = choose|i: int| 0 <= i < longer.len() && longer[i] == NUL;
            assert(text[i - 1] == NUL);
        }
        lemma_zero_padded_nul_free(longer, width);
    }
}

/// Two texts without a NUL give one without a NUL when joined.
pub proof fn lemma_concat_nul_free(a: Seq<char>, b: Seq<char>)
    requires
        !a.contains(NUL),
        !b.contains(NUL),
    ensures
        !(a + b).contains(NUL),
{
    let joined = a + b;
    if joined.contains(NUL) {
        let i = choose|i: int| 0 <= i < joined.len() && joined[i] == NUL;
        if i < a.len() {
            assert(a[i] == NUL);
        } else {
            assert(b[i - a.len()] == NUL);
        }
    }
}

/// Whether a character is one of the sixteen digits.
pub open spec fn spec_is_digit_char(c: char) -> bool {
    exists|d: nat| d < 16 && #[trigger] spec_digit_char(d) == c
}

/// Different digits have different characters.
pub proof fn lemma_digit_char_injective(a: nat, b: nat)
    requires
        a < 16,
        b < 16,
        spec_digit_char(a) == spec_digit_char(b),
    ensures
        a == b,
{
}

/// A number that is not zero has digits, and each of them is a digit
/// character.
pub proof fn lemma_digits_are_digits(n: nat, base: nat)
    requires
        2 <= base <= 16,
    ensures
        n > 0 ==> spec_digits(n, base).len() > 0,
        n == 0 ==> spec_digits(n, base).len() == 0,
        forall|i: int|
            0 <= i < spec_digits(n, base).len() ==> spec_is_digit_char(
                #[trigger] spec_digits(n, base)[i],
            ),
    decreases n,
{
    if n > 0 {
        assert(n / base < n && n % base < base) by (nonlinear_arith)
            requires
                n > 0,
                base >= 2,
        ;
        lemma_digits_are_digits(n / base, base);
        let front = spec_digits(n / base, base);
        let all = spec_digits(n, base);
        assert forall|i: int| 0 <= i < all.len() implies spec_is_digit_char(#[trigger] all[i]) by {
            if i < front.len() {
                assert(all[i] == front[i]);
            } else {
                assert(spec_digit_char(n % base) == all[i]);
            }
        }
    }
}

/// Different numbers have different digits.
pub proof fn lemma_digits_injective(a: nat, b: nat, base: nat)
    requires
        2 <= base <= 16,
        spec_digits(a, base) == spec_digits(b, base),
    ensures
        a == b,
    decreases a,
{
    lemma_digits_are_digits(a, base);
    lemma_digits_are_digits(b, base);
    if a > 0 {
        assert(a / base < a && a % base < base && a == base * (a / base) + a % base)
            by (nonlinear_arith)
            requires
                a > 0,
                base >= 2,
        ;
        assert(b % base < base && b == base * (b / base) + b % base) by (nonlinear_arith)
            requires
                b > 0,
                base >= 2,
        ;
        let front_a = spec_digits(a / base, base);
        let front_b = spec_digits(b / base, base);
        let last_a = spec_digit_char(a % base);
        let last_b = spec_digit_char(b % base);
        assert(front_a.push(last_a) == front_b.push(last_b));
        assert(front_a.push(last_a).last() == last_a);
        assert(front_b.push(last_b).last() == last_b);
        assert(front_a.push(last_a).drop_last() =~= front_a);
        assert(front_b.push(last_b).drop_last() =~= front_b);
        lemma_digit_char_injective(a % base, b % base);
        lemma_digits_injective(a / base, b / base, base);
        assert(a == b) by (nonlinear_arith)
            requires
                a == base * (a / base) + a % base,
                b == base * (b / base) + b % base,
                a / base == b / base,
                a % base == b % base,
        ;
    }
}

/// Different numbers are written differently, and a written number is made
/// of digit characters and is not empty.
pub proof fn lemma_radix_injective(a: nat, b: nat, base: nat)
    requires
        2 <= base <= 16,
    ensures
        spec_radix(a, base) == spec_radix(b, base) ==> a == b,
        spec_radix(a, base).len() > 0,
        forall|i: int|
            0 <= i < spec_radix(a, base).len() ==> spec_is_digit_char(
                #[trigger] spec_radix(a, base)[i],
            ),
{
    lemma_digits_are_digits(a, base);
    lemma_digits_are_digits(b, base);
    assert(spec_digit_char(0) == '0');
    if spec_radix(a, base) == spec_radix(b, base) {
        if a == 0 && b != 0 {
            lemma_single_zero(b, base);
        } else if b == 0 && a != 0 {
            lemma_single_zero(a, base);
        } else if a != 0 && b != 0 {
            lemma_digits_injective(a, b, base);
        }
    }
}

/// The digits of a number that is not zero are not a single zero.
proof fn lemma_single_zero(n: nat, base: nat)
    requires
        2 <= base <= 16,
        n > 0,
    ensures
        spec_digits(n, base) != seq!['0'],
{
    assert(n / base < n && n % base < base && n == base * (n / base) + n % base)
        by (nonlinear_arith)
        requires
            n > 0,
            base >= 2,
    ;
    lemma_digits_are_digits(n / base, base);
    let front = spec_digits(n / base, base);
    if spec_digits(n, base) == seq!['0'] {
        assert(front.push(spec_digit_char(n % base)).len() == 1);
        assert(front.len() == 0);
        assert(front.push(spec_digit_char(n % base))[0] == '0');
        assert(spec_digit_char(0) == '0');
        lemma_digit_char_injective(n % base, 0);
    }
}

/// The characters of a string, one by one.
pub fn chars_of(s: &str) -> (chars: Vec<char>)
    ensures
        chars@ == s@,
{
    broadcast use vstd::string::group_string_axioms;

    let mut chars: Vec<char> = Vec::new();
    let mut it = s.chars();
    loop
        invariant
            chars@ + it.remaining() == s@,
            it.decrease() is Some,
        decreases it.decrease()->0,
    {
        let ghost before = it;
        match it.next() {
            Some(c) => {
                assert(before.remaining() =~= seq![c] + it.remaining());
                assert(chars@.push(c) + it.remaining() =~= chars@ + before.remaining());
                chars.push(c);
            },
            None => {
                assert(chars@ + it.remaining() =~= chars@);
                return chars;
            },
        }
    }
}

/// Tells whether two strings are the same text.
pub fn same_text(a: &str, b: &str) -> (same: bool)
    ensures
        same == (a@ == b@),
{
    let left = chars_of(a);
    let right = chars_of(b);
    if left.len() != right.len() {
        return false;
    }
    let mut i: usize = 0;
    while i < left.len()
        invariant
            i <= left@.len(),
            left@.len() == right@.len(),
            left@ == a@,
            right@ == b@,
            forall|j: int| 0 <= j < i ==> left@[j] == right@[j],
        decreases left@.len() - i,
    {
        if left[i] != right[i] {
            assert(a@[i as int] != b@[i as int]);
            return false;
        }
        i += 1;
    }
    assert(left@ =~= right@);
    true
}

/// Tells whether a string holds a NUL and so cannot be handed to the native
/// layer.
pub fn has_nul(s: &str) -> (found: bool)
    ensures
        found == s@.contains(NUL),
{
    broadcast use vstd::string::group_string_axioms;

    let mut it = s.chars();
    let ghost mut seen: Seq<char> = Seq::empty();
    loop
        invariant
            seen + it.remaining() == s@,
            !seen.contains(NUL),
            it.decrease() is Some,
        decreases it.decrease()->0,
    {
        let ghost before = it;
        match it.next() {
            Some(c) => {
                assert(before.remaining() =~= seq![c] + it.remaining());
                assert(seen.push(c) + it.remaining() =~= seen + before.remaining());
                if c == NUL {
                    assert(s@[seen.len() as int] == NUL);
                    return true;
                }
                proof {
                    seen = seen.push(c);
                }
            },
            None => {
                assert(seen + it.remaining() =~= seen);
                return false;
            },
        }
    }
}

} // verus!
