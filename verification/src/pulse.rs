//! Classification of measured pulse durations.

use vstd::prelude::*;
use vstd::string::StringExecFns;

verus! {

/// The different types of pulses.  These refer only to the "on" pulse,
/// the "off" pulses are always the same duration.  The main pulse types
/// are `Short` and `Long` (around 500µs and 1500µs), which are used to
/// transmit binary encoded button IDs.
///
/// A `Start` pulse is distinctly longer and marks the beginning of a
/// transmission; any duration outside all three bands is `Unrecognized`.
#[derive(Debug, Clone, Copy, PartialEq, Eq, Structural)]
pub enum Pulse {
    Short,
    Long,
    Start,
    Unrecognized,
}

/// The category a duration of `d` microseconds falls in: three open
/// bands, with every boundary value and everything outside treated as
/// noise.
pub open spec fn classify(d: int) -> Pulse {
    if 0 < d < 1000 {
        Pulse::Short
    } else if 1000 < d < 2000 {
        Pulse::Long
    } else if 2000 < d < 5000 {
        Pulse::Start
    } else {
        Pulse::Unrecognized
    }
}

impl Pulse {
    /// Returns the appropriate pulse type for a pulse with a given
    /// duration, measured in microseconds.
    pub fn from_duration(micros: u64) -> (p: Pulse)
        ensures
            p == classify(micros as int),
    {
        if 0 < micros && micros < 1000 {
            Pulse::Short
        } else if 1000 < micros && micros < 2000 {
            Pulse::Long
        } else if 2000 < micros && micros < 5000 {
            Pulse::Start
        } else {
            Pulse::Unrecognized
        }
    }
}

/// The characters a pulse shows as: `Short` shows as `S`, `Long` as
/// `L`, any other pulse shows as nothing.
pub open spec fn pulse_chars(p: Pulse) -> Seq<char> {
    match p {
        Pulse::Short => seq!['S'],
        Pulse::Long => seq!['L'],
        _ => Seq::empty(),
    }
}

/// The text a pulse sequence shows as, pulse by pulse.
pub open spec fn spec_seq_to_string(s: Seq<Pulse>) -> Seq<char>
    decreases s.len(),
{
    if s.len() == 0 {
        Seq::empty()
    } else {
        spec_seq_to_string(s.drop_last()) + pulse_chars(s.last())
    }
}

/// A helper function that converts a sequence of pulses to a string,
/// a sequence of characters.
pub fn seq_to_string(seq: &Vec<Pulse>) -> (r: String)
    ensures
        r@ == spec_seq_to_string(seq@),
{
    let mut s = String::new();
    let mut i: usize = 0;
    while i < seq.len()
        invariant
            i <= seq.len(),
            s@ == spec_seq_to_string(seq@.subrange(0, i as int)),
        decreases seq.len() - i,
    {
        let p = seq[i];
        proof {
            reveal_strlit("S");
            reveal_strlit("L");
            assert(seq@.subrange(0, (i + 1) as int).drop_last() =~= seq@.subrange(0, i as int));
        }
        if p == Pulse::Short {
            s.append("S");
        } else if p == Pulse::Long {
            s.append("L");
        }
        proof {
            assert(s@ =~= spec_seq_to_string(seq@.subrange(0, (i + 1) as int)));
        }
        i = i + 1;
    }
    proof {
        assert(seq@.subrange(0, seq@.len() as int) =~= seq@);
    }
    s
}

/// Classification is total and maps each band, each boundary value and
/// everything out of range as stated: durations strictly inside
/// `(0, 1000)` are `Short`, strictly inside `(1000, 2000)` are `Long`,
/// strictly inside `(2000, 5000)` are `Start`, and everything else
/// (non-positive durations, the exact boundaries 1000 and 2000, and
/// 5000 or more) is `Unrecognized`.
pub proof fn lemma_classification_bands(d: int)
    ensures
        0 < d < 1000 ==> classify(d) == Pulse::Short,
        1000 < d < 2000 ==> classify(d) == Pulse::Long,
        2000 < d < 5000 ==> classify(d) == Pulse::Start,
        d <= 0 || d == 1000 || d == 2000 || d >= 5000 ==> classify(d) == Pulse::Unrecognized,
{
}

} // verus!
