//! Time bases, tick counts and timestamps.

use vstd::prelude::*;
use crate::util::time::audio::{Sample, SampleRate};
use crate::util::time::video::{Frame, FrameRate};
use crate::util::text::{
    decimal, decimal_padded, lemma_concat_nul_free, lemma_radix_nul_free,
    lemma_zero_padded_nul_free, spec_decimal, spec_zero_padded, NUL,
};

verus! {

/// Whether `k` divides `n`.
pub open spec fn divides(k: nat, n: nat) -> bool {
    k != 0 && n % k == 0
}

/// Whether no number above one divides both `a` and `b`.
pub open spec fn coprime(a: nat, b: nat) -> bool {
    forall|k: nat| k > 1 ==> !(#[trigger] divides(k, a) && divides(k, b))
}

/// Whether `rn / rd` is the fraction `numer / denom` in lowest terms.
pub open spec fn is_lowest_terms_of(numer: nat, denom: nat, rn: nat, rd: nat) -> bool {
    &&& rd > 0
    &&& rn * denom == numer * rd
    &&& coprime(rn, rd)
}

/// Puts a fraction into lowest terms. Trusted: `num_rational::Ratio::new`
/// divides both parts by their greatest common divisor, gives zero the
/// denominator one, and panics only for a zero denominator.
#[verifier::external_body]
fn lowest_terms(numer: u64, denom: u64) -> (reduced: (u64, u64))
    requires
        denom != 0,
    ensures
        is_lowest_terms_of(numer as nat, denom as nat, reduced.0 as nat, reduced.1 as nat),
{
    let ratio = num_rational::Ratio::new(numer, denom);
    (*ratio.numer(), *ratio.denom())
}

/// One is coprime to every number.
proof fn lemma_coprime_one(b: nat)
    ensures
        coprime(1, b),
{
    assert forall|k: nat| k > 1 implies !(#[trigger] divides(k, 1) && divides(k, b)) by {
        assert(1nat % k == 1) by (nonlinear_arith)
            requires
                k > 1,
        ;
    }
}

/// The length of one tick in seconds, as a fraction in lowest terms.
#[derive(Debug, Clone, Copy, PartialEq, Eq, Hash)]
pub struct TimeBase {
    numer: u64,
    denom: u64,
}

impl TimeBase {
    /// The fraction is in lowest terms and its denominator is not zero.
    #[verifier::type_invariant]
    pub closed spec fn wf(self) -> bool {
        self.denom > 0 && coprime(self.numer as nat, self.denom as nat)
    }

    /// The numerator.
    pub closed spec fn spec_numer(self) -> nat {
        self.numer as nat
    }

    /// The denominator.
    pub closed spec fn spec_denom(self) -> nat {
        self.denom as nat
    }

    /// The time base in which the native libraries count the timestamps of a
    /// container: microseconds.
    pub fn default_base() -> (base: TimeBase)
        ensures
            base.spec_numer() == 1,
            base.spec_denom() == 1_000_000,
    {
        proof {
            lemma_coprime_one(1_000_000);
        }
        TimeBase { numer: 1, denom: 1_000_000 }
    }

    /// The time base of milliseconds.
    pub fn milliseconds() -> (base: TimeBase)
        ensures
            base.spec_numer() == 1,
            base.spec_denom() == 1000,
    {
        proof {
            lemma_coprime_one(1000);
        }
        TimeBase { numer: 1, denom: 1000 }
    }

    /// The time base `numer / denom`, in lowest terms.
    pub fn new(numer: u64, denom: u64) -> (base: TimeBase)
        requires
            denom != 0,
        ensures
            is_lowest_terms_of(numer as nat, denom as nat, base.spec_numer(), base.spec_denom()),
    {
        let reduced = lowest_terms(numer, denom);
        TimeBase { numer: reduced.0, denom: reduced.1 }
    }

    /// The time base that a native rational gives, in lowest terms. A native
    /// rational is signed; one that is negative or has no positive
    /// denominator is no time base.
    pub fn from_av_rational(num: i32, den: i32) -> (base: Option<TimeBase>)
        ensures
            base is Some <==> num >= 0 && den > 0,
            base matches Some(b) ==> is_lowest_terms_of(
                num as nat,
                den as nat,
                b.spec_numer(),
                b.spec_denom(),
            ),
    {
        if num >= 0 && den > 0 {
            Some(TimeBase::new(num as u64, den as u64))
        } else {
            None
        }
    }

    /// The numerator.
    pub fn numer(&self) -> (n: u64)
        ensures
            n == self.spec_numer(),
    {
        self.numer
    }

    /// The denominator, which is never zero.
    pub fn denom(&self) -> (d: u64)
        ensures
            d == self.spec_denom(),
            d > 0,
    {
        proof {
            use_type_invariant(self);
        }
        self.denom
    }

    /// Whether two time bases are the same fraction.
    pub fn same(&self, other: &TimeBase) -> (same: bool)
        ensures
            same == (self.spec_numer() == other.spec_numer() && self.spec_denom()
                == other.spec_denom()),
    {
        self.numer == other.numer && self.denom == other.denom
    }

    /// The text of a time base: numerator, a slash, denominator.
    pub open spec fn spec_text(self) -> Seq<char> {
        spec_decimal(self.spec_numer()) + "/"@ + spec_decimal(self.spec_denom())
    }

    /// The text of a time base holds no NUL.
    pub proof fn lemma_text_nul_free(self)
        ensures
            !self.spec_text().contains(NUL),
    {
        reveal_strlit("/");
        lemma_radix_nul_free(self.spec_numer(), 10);
        lemma_radix_nul_free(self.spec_denom(), 10);
        lemma_concat_nul_free(spec_decimal(self.spec_numer()), "/"@);
        lemma_concat_nul_free(
            spec_decimal(self.spec_numer()) + "/"@,
            spec_decimal(self.spec_denom()),
        );
    }

    /// The time base as the native layer reads it in an option.
    pub fn to_text(&self) -> (text: String)
        ensures
            text@ == self.spec_text(),
    {
        let mut text = decimal(self.numer);
        text.append("/");
        text.append(decimal(self.denom).as_str());
        text
    }
}

/// A count of ticks of a time base that is not known from the count alone.
#[derive(Debug, Clone, Copy, PartialEq, Eq, Structural, Hash)]
pub struct TimeBaseTicks(pub u64);

impl TimeBaseTicks {
    /// The tick count that the native libraries write for this count: the
    /// same 64 bits read as a signed number.
    pub open spec fn spec_av_timestamp(self) -> int {
        if self.0 < 0x8000_0000_0000_0000 {
            self.0 as int
        } else {
            self.0 - 0x1_0000_0000_0000_0000
        }
    }

    /// The count that a native signed tick count stands for: the same 64
    /// bits read as an unsigned number.
    pub open spec fn spec_from_av_timestamp(ticks: i64) -> u64 {
        if ticks >= 0 {
            ticks as u64
        } else {
            (ticks + 0x1_0000_0000_0000_0000) as u64
        }
    }

    /// A count of ticks.
    pub fn new(ticks: u64) -> (count: TimeBaseTicks)
        ensures
            count.0 == ticks,
    {
        TimeBaseTicks(ticks)
    }

    /// Ties the count to its time base.
    pub fn to_timestamp(self, base: TimeBase) -> (stamp: Timestamp)
        ensures
            stamp.spec_ticks() == self,
            stamp.spec_base() == base,
    {
        Timestamp { ticks: self, base }
    }

    /// The count as the signed number that most native functions take.
    pub fn as_av_timestamp(self) -> (ticks: i64)
        ensures
            ticks == self.spec_av_timestamp(),
    {
        let raw: u64 = self.0;
        let ticks: i64 = #[verifier::truncate]
        (raw as i64);
        assert(raw < 0x8000_0000_0000_0000 ==> ticks == raw) by (bit_vector)
            requires
                ticks == #[verifier::truncate] (raw as i64),
        ;
        assert(raw >= 0x8000_0000_0000_0000 ==> ticks == raw - 0x1_0000_0000_0000_0000)
            by (bit_vector)
            requires
                ticks == #[verifier::truncate] (raw as i64),
        ;
        ticks
    }

    /// The count that a native signed tick count stands for: the same 64
    /// bits read as an unsigned number.
    pub fn from_av_timestamp(ticks: i64) -> (count: TimeBaseTicks)
        ensures
            count.0 == Self::spec_from_av_timestamp(ticks),
            count.spec_av_timestamp() == ticks,
    {
        let raw: u64 = #[verifier::truncate]
        (ticks as u64);
        assert(ticks >= 0 ==> raw == ticks && raw < 0x8000_0000_0000_0000) by (bit_vector)
            requires
                raw == #[verifier::truncate] (ticks as u64),
        ;
        assert(ticks < 0 ==> raw == ticks + 0x1_0000_0000_0000_0000 && raw
            >= 0x8000_0000_0000_0000) by (bit_vector)
            requires
                raw == #[verifier::truncate] (ticks as u64),
        ;
        TimeBaseTicks(raw)
    }
}

/// The ticks that `ticks` of the time base `from` last in the time base
/// `to`, rounded down: the latest tick of `to` that is not after the time.
pub open spec fn spec_rescale(ticks: nat, from: TimeBase, to: TimeBase) -> nat {
    (ticks * from.spec_numer() * to.spec_denom()) / (from.spec_denom() * to.spec_numer())
}

/// Whether the conversion to another time base can be carried out: the new
/// time base has ticks of some length, and neither the product that is formed
/// on the way nor the result leaves the machine's integers.
pub open spec fn spec_can_rescale(ticks: nat, from: TimeBase, to: TimeBase) -> bool {
    &&& to.spec_numer() != 0
    &&& ticks * from.spec_numer() * to.spec_denom() <= u128::MAX
    &&& spec_rescale(ticks, from, to) <= u64::MAX
}

/// The ticks of the time base `to` that `count` periods of `numer / denom`
/// seconds last, rounded down.
pub open spec fn spec_rescale_periods(count: nat, numer: nat, denom: nat, to: TimeBase) -> nat {
    (count * numer * to.spec_denom()) / (denom * to.spec_numer())
}

/// Whether periods can be counted in a time base: the period and the ticks
/// have some length each, and neither the product that is formed on the way
/// nor the result leaves the machine's integers.
pub open spec fn spec_can_rescale_periods(count: nat, numer: nat, denom: nat, to: TimeBase)
    -> bool {
    &&& denom != 0
    &&& to.spec_numer() != 0
    &&& count * numer * to.spec_denom() <= u128::MAX
    &&& spec_rescale_periods(count, numer, denom, to) <= u64::MAX
}

/// `count * up.0 * up.1 / (down.0 * down.1)`, rounded down.
pub open spec fn spec_scale(count: nat, up: (nat, nat), down: (nat, nat)) -> nat {
    (count * up.0 * up.1) / (down.0 * down.1)
}

/// Whether a count can be scaled: the divisor is not zero, and neither the
/// product that is formed on the way nor the result leaves the machine's
/// integers.
pub open spec fn spec_can_scale(count: nat, up: (nat, nat), down: (nat, nat)) -> bool {
    &&& down.0 != 0
    &&& down.1 != 0
    &&& count * up.0 * up.1 <= u128::MAX
    &&& spec_scale(count, up, down) <= u64::MAX
}

/// Multiplies a count by two factors and divides it by two others, rounding
/// down.
pub fn scale(count: u64, up: (u64, u64), down: (u64, u64)) -> (scaled: Option<u64>)
    ensures
        scaled is Some <==> spec_can_scale(
            count as nat,
            (up.0 as nat, up.1 as nat),
            (down.0 as nat, down.1 as nat),
        ),
        scaled matches Some(s) ==> s == spec_scale(
            count as nat,
            (up.0 as nat, up.1 as nat),
            (down.0 as nat, down.1 as nat),
        ),
{
    if down.0 == 0 || down.1 == 0 {
        return None;
    }
    let count: u128 = count as u128;
    let up_first: u128 = up.0 as u128;
    let up_second: u128 = up.1 as u128;
    let down_first: u128 = down.0 as u128;
    let down_second: u128 = down.1 as u128;
    assert(count * up_first <= u128::MAX && down_first * down_second <= u128::MAX && down_first
        * down_second > 0) by (nonlinear_arith)
        requires
            count <= u64::MAX,
            up_first <= u64::MAX,
            down_first <= u64::MAX,
            down_second <= u64::MAX,
            down_first > 0,
            down_second > 0,
    ;
    let product: u128 = match (count * up_first).checked_mul(up_second) {
        Some(product) => product,
        None => {
            return None;
        },
    };
    let quotient: u128 = product / (down_first * down_second);
    if quotient > u64::MAX as u128 {
        return None;
    }
    Some(quotient as u64)
}

/// Counts `count` periods of `numer / denom` seconds in ticks of the time
/// base `to`, rounded down.
pub fn rescale_periods(count: u64, numer: u64, denom: u64, to: TimeBase) -> (ticks: Option<u64>)
    ensures
        ticks is Some <==> spec_can_rescale_periods(count as nat, numer as nat, denom as nat, to),
        ticks matches Some(t) ==> t == spec_rescale_periods(
            count as nat,
            numer as nat,
            denom as nat,
            to,
        ),
{
    scale(count, (numer, to.denom()), (denom, to.numer()))
}

/// A point in time: a count of ticks with the time base that gives them a
/// length.
#[derive(Debug, Clone, Copy, PartialEq, Eq, Hash)]
pub struct Timestamp {
    ticks: TimeBaseTicks,
    base: TimeBase,
}

impl Timestamp {
    /// The tick count.
    pub closed spec fn spec_ticks(self) -> TimeBaseTicks {
        self.ticks
    }

    /// The time base.
    pub closed spec fn spec_base(self) -> TimeBase {
        self.base
    }

    /// What `with_new_timebase` gives.
    pub open spec fn spec_with_new_timebase(self, other: TimeBase) -> Option<(nat, TimeBase)> {
        if self.spec_base().spec_numer() == other.spec_numer() && self.spec_base().spec_denom()
            == other.spec_denom() {
            Some((self.spec_ticks().0 as nat, other))
        } else if spec_can_rescale(self.spec_ticks().0 as nat, self.spec_base(), other) {
            Some((spec_rescale(self.spec_ticks().0 as nat, self.spec_base(), other), other))
        } else {
            None
        }
    }

    /// The whole milliseconds from the start, if they can be computed.
    pub open spec fn spec_millis(self) -> Option<nat> {
        if self.spec_base().spec_numer() == 1 && self.spec_base().spec_denom() == 1000 {
            Some(self.spec_ticks().0 as nat)
        } else if self.spec_ticks().0 * self.spec_base().spec_numer() * 1000 <= u128::MAX
            && (self.spec_ticks().0 * self.spec_base().spec_numer() * 1000)
            / self.spec_base().spec_denom() as int <= u64::MAX {
            Some(
                ((self.spec_ticks().0 * self.spec_base().spec_numer() * 1000)
                    / self.spec_base().spec_denom() as int) as nat,
            )
        } else {
            None
        }
    }

    /// The text of a time of `millis` milliseconds: whole seconds, a point,
    /// and three digits of milliseconds.
    pub open spec fn spec_text_of_millis(millis: nat) -> Seq<char> {
        spec_decimal(millis / 1000) + "."@ + spec_zero_padded(spec_decimal(millis % 1000), 3)
    }

    /// The text of a time holds digits and one point: no colon and no NUL.
    pub proof fn lemma_text_nul_free(millis: nat)
        ensures
            !Self::spec_text_of_millis(millis).contains(NUL),
    {
        reveal_strlit(".");
        lemma_radix_nul_free(millis / 1000, 10);
        lemma_radix_nul_free(millis % 1000, 10);
        lemma_zero_padded_nul_free(spec_decimal(millis % 1000), 3);
        lemma_concat_nul_free(spec_decimal(millis / 1000), "."@);
        lemma_concat_nul_free(
            spec_decimal(millis / 1000) + "."@,
            spec_zero_padded(spec_decimal(millis % 1000), 3),
        );
    }

    /// The time that lies `millis` milliseconds after the start.
    pub fn from_millis(millis: u64) -> (stamp: Timestamp)
        ensures
            stamp.spec_ticks().0 == millis,
            stamp.spec_base().spec_numer() == 1,
            stamp.spec_base().spec_denom() == 1000,
            stamp.spec_millis() == Some(millis as nat),
    {
        Timestamp { ticks: TimeBaseTicks(millis), base: TimeBase::milliseconds() }
    }

    /// The same time counted in another time base, rounded down to a whole
    /// tick. A timestamp that already has the time base is returned as it is.
    /// There is no result where the new time base has a zero numerator or
    /// the count does not fit.
    pub fn with_new_timebase(self, other: TimeBase) -> (stamp: Option<Timestamp>)
        ensures
            stamp is Some <==> self.spec_with_new_timebase(other) is Some,
            stamp matches Some(s) ==> self.spec_with_new_timebase(other) == Some(
                (s.spec_ticks().0 as nat, s.spec_base()),
            ),
    {
        if self.base.same(&other) {
            return Some(Timestamp { ticks: self.ticks, base: other });
        }
        if other.numer() == 0 {
            return None;
        }
        let ticks: u128 = self.ticks.0 as u128;
        let from_numer: u128 = self.base.numer() as u128;
        let from_denom: u128 = self.base.denom() as u128;
        let to_numer: u128 = other.numer() as u128;
        let to_denom: u128 = other.denom() as u128;
        assert(ticks * from_numer <= u128::MAX && from_denom * to_numer <= u128::MAX
            && from_denom * to_numer > 0) by (nonlinear_arith)
            requires
                ticks <= u64::MAX,
                from_numer <= u64::MAX,
                from_denom <= u64::MAX,
                to_numer <= u64::MAX,
                from_denom > 0,
                to_numer > 0,
        ;
        let scaled: u128 = match (ticks * from_numer).checked_mul(to_denom) {
            Some(product) => product,
            None => {
                return None;
            },
        };
        let quotient: u128 = scaled / (from_denom * to_numer);
        if quotient > u64::MAX as u128 {
            return None;
        }
        Some(Timestamp { ticks: TimeBaseTicks(quotient as u64), base: other })
    }

    /// The whole milliseconds from the start, rounded down, if they can be
    /// computed.
    pub fn as_duration(self) -> (millis: Option<u64>)
        ensures
            millis is Some <==> self.spec_millis() is Some,
            millis matches Some(m) ==> self.spec_millis() == Some(m as nat),
    {
        let base = TimeBase::milliseconds();
        assert(self.spec_ticks().0 * self.spec_base().spec_numer() * 1000 / (
        self.spec_base().spec_denom() * 1) as int == self.spec_ticks().0
            * self.spec_base().spec_numer() * 1000 / self.spec_base().spec_denom() as int)
            by (nonlinear_arith);
        match self.with_new_timebase(base) {
            Some(stamp) => Some(stamp.ticks.0),
            None => None,
        }
    }

    /// The number of the sample that is played at the time, for a stream
    /// with the given sampling rate: as many samples as fit into the time.
    pub open spec fn spec_sample(self, sample_rate: SampleRate) -> Option<nat> {
        let up = (self.spec_base().spec_numer(), sample_rate.0 as nat);
        let down = (self.spec_base().spec_denom(), 1nat);
        if spec_can_scale(self.spec_ticks().0 as nat, up, down) {
            Some(spec_scale(self.spec_ticks().0 as nat, up, down))
        } else {
            None
        }
    }

    /// The number of the frame that is shown at the time, for a stream with
    /// the given frame rate: as many frames as fit into the time.
    pub open spec fn spec_frame(self, frame_rate: FrameRate) -> Option<nat> {
        let up = (self.spec_base().spec_numer(), frame_rate.numer as nat);
        let down = (self.spec_base().spec_denom(), frame_rate.denom as nat);
        if spec_can_scale(self.spec_ticks().0 as nat, up, down) {
            Some(spec_scale(self.spec_ticks().0 as nat, up, down))
        } else {
            None
        }
    }

    /// The number of the sample that is played at the time, rounded down.
    /// There is none where the count does not fit.
    pub fn sample(self, sample_rate: SampleRate) -> (sample: Option<Sample>)
        ensures
            sample is Some <==> self.spec_sample(sample_rate) is Some,
            sample matches Some(s) ==> self.spec_sample(sample_rate) == Some(s.0 as nat),
    {
        match scale(
            self.ticks.0,
            (self.base.numer(), sample_rate.as_hz() as u64),
            (self.base.denom(), 1),
        ) {
            Some(number) => Some(Sample(number)),
            None => None,
        }
    }

    /// The number of the frame that is shown at the time, rounded down: the
    /// nearest frame that is not after the time. There is none where the
    /// frame rate has a zero denominator or the count does not fit.
    pub fn frame(self, frame_rate: FrameRate) -> (frame: Option<Frame>)
        ensures
            frame is Some <==> self.spec_frame(frame_rate) is Some,
            frame matches Some(f) ==> self.spec_frame(frame_rate) == Some(f.0 as nat),
    {
        match scale(
            self.ticks.0,
            (self.base.numer(), frame_rate.numer),
            (self.base.denom(), frame_rate.denom),
        ) {
            Some(number) => Some(Frame(number)),
            None => None,
        }
    }

    /// The tick count in the timestamp's own time base.
    pub fn get_ticks(self) -> (ticks: TimeBaseTicks)
        ensures
            ticks == self.spec_ticks(),
    {
        self.ticks
    }

    /// The time base of the timestamp.
    pub fn get_base(self) -> (base: TimeBase)
        ensures
            base == self.spec_base(),
    {
        self.base
    }

    /// The time in seconds with three decimals, as the native layer reads a
    /// time in an option: digits and one point, nothing else. There is no
    /// text where the milliseconds cannot be computed.
    pub fn to_text(&self) -> (text: Option<String>)
        ensures
            text is Some <==> self.spec_millis() is Some,
            text matches Some(t) ==> t@ == Self::spec_text_of_millis(self.spec_millis()->0),
    {
        match self.as_duration() {
            Some(millis) => {
                let mut text = decimal(millis / 1000);
                text.append(".");
                text.append(decimal_padded(millis % 1000, 3).as_str());
                Some(text)
            },
            None => None,
        }
    }
}

} // verus!
