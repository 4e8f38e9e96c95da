use vstd::prelude::*;

use crate::error::ErrorKind;

verus! {

/// One past the largest mantissa field of an IEEE-754 single-precision float.
pub const MANTISSA_SPAN: u32 = 0x80_0000;

/// Bit pattern of negative zero.
pub const NEGATIVE_ZERO: u32 = 0x8000_0000;

/// The exponent field of a single-precision float given by its bits.
pub open spec fn exponent_of(bits: u32) -> int {
    (bits as int / MANTISSA_SPAN as int) % 256
}

/// The mantissa field of a single-precision float given by its bits.
pub open spec fn mantissa_of(bits: u32) -> int {
    bits as int % MANTISSA_SPAN as int
}

/// Whether the bits encode a NaN: all exponent bits set, mantissa non-zero.
pub open spec fn is_nan(bits: u32) -> bool {
    exponent_of(bits) == 255 && mantissa_of(bits) != 0
}

/// The key under which a non-NaN speed is compared: its bits, with the two
/// zeros taken as one, so that speeds equal as numbers give equal keys.
pub open spec fn speed_key(bits: u32) -> u32 {
    if bits == NEGATIVE_ZERO {
        0
    } else {
        bits
    }
}

/// Two non-NaN speeds, given by their bits, are equal as numbers.
pub open spec fn same_speed(a: u32, b: u32) -> bool {
    a == b || (speed_key(a) == 0 && speed_key(b) == 0)
}

/// What a fingerprint identifies: the text, the speaker and the speed key.
pub struct FingerprintView {
    pub text: Seq<char>,
    pub speaker: Seq<char>,
    pub speed: u32,
}

/// The identity of a synthesis request, used as the cache key.
///
/// The speed is held as the bits of a single-precision float that is not NaN.
#[derive(Clone, Debug, PartialEq, Eq, Hash)]
pub struct Fingerprint {
    text: String,
    speaker: String,
    speed: u32,
}

/// The view of the fingerprint that `Fingerprint::new` builds from its inputs.
pub open spec fn fingerprint_of(text: Seq<char>, speaker: Seq<char>, speed_bits: u32) -> FingerprintView {
    FingerprintView { text, speaker, speed: speed_key(speed_bits) }
}

impl View for Fingerprint {
    type V = FingerprintView;

    closed spec fn view(&self) -> FingerprintView {
        FingerprintView { text: self.text@, speaker: self.speaker@, speed: self.speed }
    }
}

/// Whether the bits of a single-precision float encode NaN.
pub fn speed_is_nan(bits: u32) -> (r: bool)
    ensures
        r == is_nan(bits),
{
    let exponent: u32 = (bits / MANTISSA_SPAN) % 256;
    let mantissa: u32 = bits % MANTISSA_SPAN;
    exponent == 255 && mantissa != 0
}

impl Fingerprint {
    /// Well-formed: the speed is not NaN and is held in its key form.
    pub open spec fn wf(&self) -> bool {
        !is_nan(self@.speed) && self@.speed != NEGATIVE_ZERO
    }

    /// Builds the fingerprint of a request; fails when the speed is NaN.
    /// Text and speaker are taken as they are.
    pub fn new(text: String, speaker: String, speed_bits: u32) -> (r: Result<Fingerprint, ErrorKind>)
        ensures
            is_nan(speed_bits) <==> r is Err,
            r matches Err(e) ==> e == ErrorKind::InvalidSpeed,
            r matches Ok(f) ==> f.wf() && f@ == fingerprint_of(text@, speaker@, speed_bits),
    {
        if speed_is_nan(speed_bits) {
            return Err(ErrorKind::InvalidSpeed);
        }
        let speed: u32 = if speed_bits == NEGATIVE_ZERO {
            0
        } else {
            speed_bits
        };
        Ok(Fingerprint { text, speaker, speed })
    }

    /// A second fingerprint with the same fields.
    pub fn duplicate(&self) -> (r: Fingerprint)
        ensures
            r@ == self@,
    {
        Fingerprint { text: self.text.clone(), speaker: self.speaker.clone(), speed: self.speed }
    }

    /// The text to be spoken.
    pub fn text(&self) -> (r: &String)
        ensures
            r@ == self@.text,
    {
        &self.text
    }

    /// The speaker that is to speak it.
    pub fn speaker(&self) -> (r: &String)
        ensures
            r@ == self@.speaker,
    {
        &self.speaker
    }

    /// The bits of the speed.
    pub fn speed_bits(&self) -> (r: u32)
        ensures
            r == self@.speed,
    {
        self.speed
    }
}

/// Fingerprints built from the same inputs are the same key, and fingerprints
/// built from inputs that differ in the text, the speaker or the numeric speed
/// are different keys.
pub proof fn lemma_fingerprint_identity(
    t1: Seq<char>,
    s1: Seq<char>,
    b1: u32,
    t2: Seq<char>,
    s2: Seq<char>,
    b2: u32,
)
    requires
        !is_nan(b1),
        !is_nan(b2),
    ensures
        fingerprint_of(t1, s1, b1) == fingerprint_of(t2, s2, b2) <==> (t1 == t2 && s1 == s2
            && same_speed(b1, b2)),
{
}

} // verus!
