use vstd::prelude::*;

verus! {

/// How many distinct control tags exist.
pub const TAG_COUNT: usize = 3;

/// One update to a single active control of the running DSP.
///
/// The set of controls is closed and enumerable; each variant names one
/// control and carries its new value as the raw bit pattern of an IEEE-754
/// single, so that an update travels through the channel as plain data.
#[derive(Clone, Copy, Debug, PartialEq, Eq, Structural)]
pub enum UIActiveValue {
    /// Oscillator frequency; the payload is `f32::to_bits` of the hertz value.
    Freq(u32),
    /// Output gain; the payload is `f32::to_bits` of the decibel value.
    Gain(u32),
    /// Stereo balance; the payload is `f32::to_bits` of a value in -1 to 1.
    Pan(u32),
}

/// The tag that tells which control a `UIActiveValue` update is for.
///
/// Tags are small, stable and copyable; they serve purely as coalescing keys.
#[derive(Clone, Copy, Debug, PartialEq, Eq, Hash, Structural)]
pub enum UIActive {
    Freq,
    Gain,
    Pan,
}

impl UIActiveValue {
    /// The tag of this update, in specifications.
    pub open spec fn tag(self) -> UIActive {
        match self {
            UIActiveValue::Freq(_) => UIActive::Freq,
            UIActiveValue::Gain(_) => UIActive::Gain,
            UIActiveValue::Pan(_) => UIActive::Pan,
        }
    }

    /// Extract the tag of this update.
    pub fn discriminant(&self) -> (t: UIActive)
        ensures
            t == self.tag(),
    {
        match self {
            UIActiveValue::Freq(_) => UIActive::Freq,
            UIActiveValue::Gain(_) => UIActive::Gain,
            UIActiveValue::Pan(_) => UIActive::Pan,
        }
    }
}

impl UIActive {
    /// The storage slot a tag selects, in specifications.
    pub open spec fn index_spec(self) -> int {
        match self {
            UIActive::Freq => 0,
            UIActive::Gain => 1,
            UIActive::Pan => 2,
        }
    }

    /// The storage slot this tag selects; distinct tags select distinct slots.
    pub fn index(self) -> (i: usize)
        ensures
            i == self.index_spec(),
            i < TAG_COUNT,
    {
        match self {
            UIActive::Freq => 0usize,
            UIActive::Gain => 1usize,
            UIActive::Pan => 2usize,
        }
    }
}

/// Every tag selects a slot below `TAG_COUNT`, and no two tags share one.
pub proof fn lemma_tag_index_injective(a: UIActive, b: UIActive)
    ensures
        0 <= a.index_spec() < TAG_COUNT,
        a.index_spec() == b.index_spec() ==> a == b,
{
}

} // verus!
