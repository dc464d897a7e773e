//! The release numbers that a selector names.

use vstd::prelude::*;
use crate::util::text::chars_of;
use crate::version::token::{
    parse_literal, parse_optional_punct, spec_literal, spec_punct_at, Iter, SelectorError,
    TokenTree,
};
use crate::version::version::Version;

verus! {

/// A release number as it is written in a selector. The minor and the patch
/// number may be left out.
#[derive(Copy, Clone, Debug, PartialEq, Eq, Structural)]
pub struct Release {
    pub major: u16,
    pub minor: Option<u16>,
    pub patch: Option<u16>,
}

impl Release {
    /// The minor number, zero if it is left out.
    pub open spec fn spec_minor(self) -> u16 {
        match self.minor {
            Some(minor) => minor,
            None => 0,
        }
    }

    /// The patch number, zero if it is left out.
    pub open spec fn spec_patch(self) -> u16 {
        match self.patch {
            Some(patch) => patch,
            None => 0,
        }
    }
}

impl Version {
    /// Whether the version is the release: the parts that the release names
    /// are the same.
    pub open spec fn spec_is(self, release: Release) -> bool {
        &&& self.major == release.major
        &&& release.minor matches Some(minor) ==> minor == self.minor
        &&& release.patch matches Some(patch) ==> patch == self.patch
    }

    /// Whether the version comes before the release, the parts that the
    /// release leaves out taken as zero.
    pub open spec fn spec_before(self, release: Release) -> bool {
        ||| self.major < release.major
        ||| self.major == release.major && self.minor < release.spec_minor()
        ||| self.major == release.major && self.minor == release.spec_minor() && self.patch
            < release.spec_patch()
    }

    /// Whether the version is the release or comes after it.
    pub open spec fn spec_since(self, release: Release) -> bool {
        !self.spec_before(release)
    }

    /// Whether the version is the release.
    pub fn is(&self, release: &Release) -> (same: bool)
        ensures
            same == self.spec_is(*release),
    {
        let minor = match release.minor {
            Some(minor) => minor == self.minor,
            None => true,
        };
        let patch = match release.patch {
            Some(patch) => patch == self.patch,
            None => true,
        };
        self.major == release.major && minor && patch
    }

    /// Whether the version comes before the release.
    pub fn before(&self, release: &Release) -> (earlier: bool)
        ensures
            earlier == self.spec_before(*release),
    {
        let minor: u16 = match release.minor {
            Some(minor) => minor,
            None => 0,
        };
        let patch: u16 = match release.patch {
            Some(patch) => patch,
            None => 0,
        };
        if self.major != release.major {
            self.major < release.major
        } else if self.minor != minor {
            self.minor < minor
        } else {
            self.patch < patch
        }
    }

    /// Whether the version is the release or comes after it.
    pub fn since(&self, release: &Release) -> (later: bool)
        ensures
            later == self.spec_since(*release),
    {
        !self.before(release)
    }
}

/// The value of a decimal digit.
pub open spec fn spec_digit_value(c: char) -> Option<nat> {
    if '0' <= c <= '9' {
        Some((c as u32 - 48) as nat)
    } else {
        None
    }
}

/// The value of a text that is made of decimal digits and nothing else.
pub open spec fn spec_number(text: Seq<char>) -> Option<nat>
    decreases text.len(),
{
    if text.len() == 0 {
        None
    } else {
        match spec_digit_value(text.last()) {
            None => None,
            Some(digit) => if text.len() == 1 {
                Some(digit)
            } else {
                match spec_number(text.drop_last()) {
                    Some(front) => Some(10 * front + digit),
                    None => None,
                }
            },
        }
    }
}

/// The number that a text spells: decimal digits, with or without a plus
/// sign in front, that give a value of at most 65535.
pub open spec fn spec_parse_u16(text: Seq<char>) -> Option<u16> {
    let digits = if text.len() > 0 && text[0] == '+' {
        text.skip(1)
    } else {
        text
    };
    match spec_number(digits) {
        Some(value) => if value <= u16::MAX {
            Some(value as u16)
        } else {
            None
        },
        None => None,
    }
}

/// The parts of a text between its points.
pub open spec fn spec_split(text: Seq<char>) -> Seq<Seq<char>>
    decreases text.len(),
{
    if text.len() == 0 {
        seq![Seq::empty()]
    } else if text.last() == '.' {
        spec_split(text.drop_last()).push(Seq::empty())
    } else {
        let parts = spec_split(text.drop_last());
        parts.update(parts.len() - 1, parts.last().push(text.last()))
    }
}

/// The release that starts at a place of the tokens, and where it ends.
///
/// A release is a literal with the major number, or with the major and the
/// minor number and a point between them; a point and a literal with the
/// patch number may follow. A literal with more than one point gives the
/// major number only.
pub open spec fn spec_release_at(tokens: Seq<TokenTree>, pos: int) -> Option<(Release, int)> {
    match spec_literal(tokens, pos) {
        None => None,
        Some(text) => {
            let parts = spec_split(text);
            match spec_parse_u16(parts[0]) {
                None => None,
                Some(major) => {
                    let minor = if parts.len() == 2 {
                        spec_parse_u16(parts[1])
                    } else {
                        None
                    };
                    if parts.len() == 2 && minor is None {
                        None
                    } else if spec_punct_at(tokens, pos + 1, '.') {
                        match spec_literal(tokens, pos + 2) {
                            None => None,
                            Some(last) => match spec_parse_u16(last) {
                                None => None,
                                Some(patch) => Some(
                                    (Release { major, minor, patch: Some(patch) }, pos + 3),
                                ),
                            },
                        }
                    } else {
                        Some((Release { major, minor, patch: None }, pos + 1))
                    }
                },
            }
        },
    }
}

/// Reads a number of at most 65535.
pub fn parse_u16(text: &Vec<char>) -> (number: Option<u16>)
    ensures
        number == spec_parse_u16(text@),
{
    let start: usize = if text.len() > 0 && text[0] == '+' {
        1
    } else {
        0
    };
    let ghost digits = text@.skip(start as int);
    assert(text@.skip(0) =~= text@);
    if start >= text.len() {
        assert(digits.len() == 0);
        return None;
    }
    let mut value: u32 = 0;
    let mut i: usize = start;
    while i < text.len()
        invariant
            start <= i <= text@.len(),
            start < text@.len(),
            digits == text@.skip(start as int),
            value <= u16::MAX,
            i > start ==> spec_number(digits.take(i - start)) == Some(value as nat),
            i == start ==> value == 0,
            i == text@.len() ==> spec_number(digits) == Some(value as nat),
            spec_parse_u16(text@) == (match spec_number(digits) {
                Some(whole) => if whole <= u16::MAX {
                    Some(whole as u16)
                } else {
                    None
                },
                None => None,
            }),
        decreases text@.len() - i,
    {
        let c = text[i];
        let ghost prefix = digits.take(i - start + 1);
        assert(prefix.drop_last() =~= digits.take(i - start));
        assert(prefix.last() == c);
        assert(digits[i - start] == c);
        if !('0' <= c && c <= '9') {
            proof {
                lemma_number_needs_digits(digits, i - start);
            }
            return None;
        }
        let digit: u32 = c as u32 - 48;
        assert(spec_digit_value(c) == Some(digit as nat));
        assert(spec_number(prefix) == Some((value * 10 + digit) as nat));
        value = value * 10 + digit;
        if value > 65535 {
            proof {
                lemma_number_grows(digits, i - start + 1);
            }
            return None;
        }
        i += 1;
        proof {
            if i == text@.len() {
                assert(digits.take(i - start) =~= digits);
            }
        }
    }
    Some(value as u16)
}

/// A text with a character that is no digit spells no number.
proof fn lemma_number_needs_digits(text: Seq<char>, at: int)
    requires
        0 <= at < text.len(),
        spec_digit_value(text[at]) is None,
    ensures
        spec_number(text) is None,
    decreases text.len(),
{
    if at < text.len() - 1 {
        lemma_number_needs_digits(text.drop_last(), at);
    }
}

/// A number does not get smaller when digits are written after it.
proof fn lemma_number_grows(text: Seq<char>, n: int)
    requires
        1 <= n <= text.len(),
    ensures
        match (spec_number(text), spec_number(text.take(n))) {
            (Some(whole), Some(front)) => whole >= front,
            (Some(_), None) => false,
            _ => true,
        },
    decreases text.len(),
{
    if n < text.len() {
        assert(text.drop_last().take(n) =~= text.take(n));
        lemma_number_grows(text.drop_last(), n);
    } else {
        assert(text.take(n) =~= text);
    }
}

/// Cuts a text at its points.
pub fn split_points(text: &Vec<char>) -> (parts: Vec<Vec<char>>)
    ensures
        parts@.len() == spec_split(text@).len(),
        forall|i: int| 0 <= i < parts@.len() ==> (#[trigger] parts@[i])@ == spec_split(text@)[i],
{
    let mut parts: Vec<Vec<char>> = Vec::new();
    let mut current: Vec<char> = Vec::new();
    let ghost mut done: Seq<Seq<char>> = Seq::empty();
    let mut i: usize = 0;
    assert(text@.take(0) =~= Seq::<char>::empty());
    assert(done.push(current@) =~= seq![Seq::<char>::empty()]);
    while i < text.len()
        invariant
            i <= text@.len(),
            done.len() == parts@.len(),
            forall|j: int| 0 <= j < parts@.len() ==> (#[trigger] parts@[j])@ == done[j],
            spec_split(text@.take(i as int)) == done.push(current@),
        decreases text@.len() - i,
    {
        let c = text[i];
        let ghost longer = text@.take(i + 1);
        assert(longer.drop_last() =~= text@.take(i as int));
        assert(longer.last() == c);
        if c == '.' {
            proof {
                done = done.push(current@);
            }
            parts.push(current);
            current = Vec::new();
            assert(spec_split(longer) =~= done.push(current@));
        } else {
            current.push(c);
            assert(spec_split(longer) =~= done.push(current@));
        }
        i += 1;
    }
    assert(text@.take(i as int) =~= text@);
    parts.push(current);
    parts
}

/// Reads the release that comes next.
pub fn try_parse(iter: &mut Iter<'_>) -> (result: Result<Release, ()>)
    ensures
        final(iter).spec_tokens() == old(iter).spec_tokens(),
        match spec_release_at(old(iter).spec_tokens(), old(iter).spec_pos()) {
            Some((release, end)) => result == Ok::<Release, ()>(release) && final(iter).spec_pos()
                == end,
            None => result is Err,
        },
{
    let major_minor = match parse_literal(iter) {
        Ok(text) => text,
        Err(_) => {
            return Err(());
        },
    };
    let string = chars_of(major_minor);
    let parts = split_points(&string);
    assert(spec_split(string@).len() >= 1) by {
        lemma_split_not_empty(string@);
    }
    let major: u16 = match parse_u16(&parts[0]) {
        Some(major) => major,
        None => {
            return Err(());
        },
    };
    let minor: Option<u16> = if parts.len() == 2 {
        match parse_u16(&parts[1]) {
            Some(minor) => Some(minor),
            None => {
                return Err(());
            },
        }
    } else {
        None
    };
    let patch = if parse_optional_punct(iter, '.') {
        let last = match parse_literal(iter) {
            Ok(text) => text,
            Err(_) => {
                return Err(());
            },
        };
        match parse_u16(&chars_of(last)) {
            Some(patch) => Some(patch),
            None => {
                return Err(());
            },
        }
    } else {
        None
    };
    Ok(Release { major, minor, patch })
}

/// A text has at least one part.
proof fn lemma_split_not_empty(text: Seq<char>)
    ensures
        spec_split(text).len() >= 1,
    decreases text.len(),
{
    if text.len() > 0 {
        lemma_split_not_empty(text.drop_last());
    }
}

/// Reads the release that comes next, which has to be there.
pub fn parse(iter: &mut Iter<'_>) -> (result: Result<Release, SelectorError>)
    ensures
        final(iter).spec_tokens() == old(iter).spec_tokens(),
        match spec_release_at(old(iter).spec_tokens(), old(iter).spec_pos()) {
            Some((release, end)) => {
                result == Ok::<Release, SelectorError>(release) && final(iter).spec_pos() == end
            },
            None => result is Err,
        },
{
    match try_parse(iter) {
        Ok(release) => Ok(release),
        Err(_) => Err(
            SelectorError { message: "expected library version release number, like 58.29.100" },
        ),
    }
}

} // verus!
