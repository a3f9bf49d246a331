//! Decoding a complete frame of pulses into a named button signal.

use vstd::arithmetic::power2::lemma2_to64;
use vstd::arithmetic::power2::lemma_pow2_strictly_increases;
use vstd::arithmetic::power2::lemma_pow2_unfold;
use vstd::arithmetic::power2::pow2;
use vstd::prelude::*;

use crate::pulse::Pulse;

verus! {

/// A signal is a button press that has been transmitted from the remote.
///
/// On a technical level, a signal is encoded in a frame of 32 pulses of
/// different lengths.  A frame that matches none of the known button
/// codes decodes to `Unrecognized`.
#[derive(Debug, Clone, Copy, PartialEq, Eq, Structural)]
pub enum Signal {
    Power,
    PlayPause,
    BrightnessDown,
    BrightnessUp,
    White,
    Red,
    Green,
    Blue,
    Orange1,
    Orange2,
    Orange3,
    Yellow,
    GrassGreen,
    Turquise,
    Petrol,
    DarkPetrol,
    Blue2,
    Violet,
    LightViolet,
    Pink,
    Rose1,
    Rose2,
    Azure1,
    Azure2,
    RedUp,
    RedDown,
    GreenUp,
    GreenDown,
    BlueUp,
    BlueDown,
    Quick,
    Slow,
    Diy1,
    Diy2,
    Diy3,
    Diy4,
    Diy5,
    Diy6,
    Auto,
    Flash,
    Jump3,
    Jump7,
    Fade3,
    Fade7,
    Unrecognized,
}

/// A payload pulse is one that can stand inside a frame: the two pulse
/// types that encode a bit of a button code.
pub open spec fn is_payload(p: Pulse) -> bool {
    p == Pulse::Short || p == Pulse::Long
}

/// Whether every pulse of the sequence is payload.
pub open spec fn all_payload(s: Seq<Pulse>) -> bool {
    forall|i: int| 0 <= i < s.len() ==> is_payload(#[trigger] s[i])
}

/// The bit a pulse encodes: `Long` is 1, everything else 0.
pub open spec fn pulse_bit(p: Pulse) -> int {
    if p == Pulse::Long {
        1
    } else {
        0
    }
}

/// A pulse sequence packed into an integer, the first pulse as the most
/// significant bit.
pub open spec fn code_of(s: Seq<Pulse>) -> int
    decreases s.len(),
{
    if s.len() == 0 {
        0
    } else {
        2 * code_of(s.drop_last()) + pulse_bit(s.last())
    }
}

/// The button table: the 44 known button codes, each the 32 pulses of
/// one frame packed into an integer.  Each bit of a literal below shows
/// one pulse of the frame, in order: 0 for `Short`, 1 for `Long`.
pub open spec fn signal_of_code(c: int) -> Signal {
    if c == 0b00000000_11111111_00000010_11111101 {
        Signal::Power
    } else if c == 0b00000000_11111111_10000010_01111101 {
        Signal::PlayPause
    } else if c == 0b00000000_11111111_10111010_01000101 {
        Signal::BrightnessDown
    } else if c == 0b00000000_11111111_00111010_11000101 {
        Signal::BrightnessUp
    } else if c == 0b00000000_11111111_00100010_11011101 {
        Signal::White
    } else if c == 0b00000000_11111111_00011010_11100101 {
        Signal::Red
    } else if c == 0b00000000_11111111_10011010_01100101 {
        Signal::Green
    } else if c == 0b00000000_11111111_10100010_01011101 {
        Signal::Blue
    } else if c == 0b00000000_11111111_00101010_11010101 {
        Signal::Orange1
    } else if c == 0b00000000_11111111_00001010_11110101 {
        Signal::Orange2
    } else if c == 0b00000000_11111111_00111000_11000111 {
        Signal::Orange3
    } else if c == 0b00000000_11111111_00011000_11100111 {
        Signal::Yellow
    } else if c == 0b00000000_11111111_10101010_01010101 {
        Signal::GrassGreen
    } else if c == 0b00000000_11111111_10001010_01110101 {
        Signal::Turquise
    } else if c == 0b00000000_11111111_10111000_01000111 {
        Signal::Petrol
    } else if c == 0b00000000_11111111_10011000_01100111 {
        Signal::DarkPetrol
    } else if c == 0b00000000_11111111_10010010_01101101 {
        Signal::Blue2
    } else if c == 0b00000000_11111111_10110010_01001101 {
        Signal::Violet
    } else if c == 0b00000000_11111111_01111000_10000111 {
        Signal::LightViolet
    } else if c == 0b00000000_11111111_01011000_10100111 {
        Signal::Pink
    } else if c == 0b00000000_11111111_00010010_11101101 {
        Signal::Rose1
    } else if c == 0b00000000_11111111_00110010_11001101 {
        Signal::Rose2
    } else if c == 0b00000000_11111111_11111000_00000111 {
        Signal::Azure1
    } else if c == 0b00000000_11111111_11011000_00100111 {
        Signal::Azure2
    } else if c == 0b00000000_11111111_00101000_11010111 {
        Signal::RedUp
    } else if c == 0b00000000_11111111_00001000_11110111 {
        Signal::RedDown
    } else if c == 0b00000000_11111111_10101000_01010111 {
        Signal::GreenUp
    } else if c == 0b00000000_11111111_10001000_01110111 {
        Signal::GreenDown
    } else if c == 0b00000000_11111111_01101000_10010111 {
        Signal::BlueUp
    } else if c == 0b00000000_11111111_01001000_10110111 {
        Signal::BlueDown
    } else if c == 0b00000000_11111111_11101000_00010111 {
        Signal::Quick
    } else if c == 0b00000000_11111111_11001000_00110111 {
        Signal::Slow
    } else if c == 0b00000000_11111111_00110000_11001111 {
        Signal::Diy1
    } else if c == 0b00000000_11111111_10110000_01001111 {
        Signal::Diy2
    } else if c == 0b00000000_11111111_01110000_10001111 {
        Signal::Diy3
    } else if c == 0b00000000_11111111_00010000_11101111 {
        Signal::Diy4
    } else if c == 0b00000000_11111111_10010000_01101111 {
        Signal::Diy5
    } else if c == 0b00000000_11111111_01010000_10101111 {
        Signal::Diy6
    } else if c == 0b00000000_11111111_11110000_00001111 {
        Signal::Auto
    } else if c == 0b00000000_11111111_11010000_00101111 {
        Signal::Flash
    } else if c == 0b00000000_11111111_00100000_11011111 {
        Signal::Jump3
    } else if c == 0b00000000_11111111_10100000_01011111 {
        Signal::Jump7
    } else if c == 0b00000000_11111111_01100000_10011111 {
        Signal::Fade3
    } else if c == 0b00000000_11111111_11100000_00011111 {
        Signal::Fade7
    } else {
        Signal::Unrecognized
    }
}

/// What matching a pulse sequence against the button table yields:
/// only a sequence of exactly 32 `Short`/`Long` pulses can match, and
/// it matches solely through its packed code.
pub open spec fn spec_from_pulse_seq(s: Seq<Pulse>) -> Signal {
    if s.len() == 32 && all_payload(s) {
        signal_of_code(code_of(s))
    } else {
        Signal::Unrecognized
    }
}

/// The known frames: exactly those 32-pulse `Short`/`Long` sequences
/// whose packed code stands in the button table.
pub open spec fn known_pattern(s: Seq<Pulse>) -> bool {
    s.len() == 32 && all_payload(s) && signal_of_code(code_of(s)) != Signal::Unrecognized
}

/// Matching is exact equality against the table, never approximate:
/// a sequence absent from the table — wrong length, a pulse that is
/// not `Short`/`Long`, or an unknown code — always decodes to
/// `Unrecognized`, and a known frame decodes to its table entry.
pub proof fn lemma_exact_match_only(s: Seq<Pulse>)
    ensures
        !known_pattern(s) ==> spec_from_pulse_seq(s) == Signal::Unrecognized,
        known_pattern(s) ==> spec_from_pulse_seq(s) == signal_of_code(code_of(s)),
{
}

/// Packing loses nothing: two payload sequences of equal length with
/// the same packed code are the same sequence.  Matching a frame's
/// code against the table is therefore exact matching of the frame's
/// pulse sequence itself.
pub proof fn lemma_code_of_injective(s: Seq<Pulse>, t: Seq<Pulse>)
    requires
        s.len() == t.len(),
        all_payload(s),
        all_payload(t),
        code_of(s) == code_of(t),
    ensures
        s == t,
    decreases s.len(),
{
    if s.len() == 0 {
        assert(s =~= t);
    } else {
        assert(is_payload(s[s.len() - 1]) && is_payload(t[t.len() - 1]));
        assert(s.last() == t.last());
        assert(all_payload(s.drop_last())) by {
            assert(forall|i: int|
                0 <= i < s.len() - 1 ==> #[trigger] s.drop_last()[i] == s[i]);
        }
        assert(all_payload(t.drop_last())) by {
            assert(forall|i: int|
                0 <= i < t.len() - 1 ==> #[trigger] t.drop_last()[i] == t[i]);
        }
        lemma_code_of_injective(s.drop_last(), t.drop_last());
        assert forall|i: int| 0 <= i < s.len() implies s[i] == t[i] by {
            if i < s.len() - 1 {
                assert(s[i] == s.drop_last()[i]);
                assert(t[i] == t.drop_last()[i]);
            } else {
                assert(s[i] == s.last());
                assert(t[i] == t.last());
            }
        }
        assert(s =~= t);
    }
}

impl Signal {
    /// Attempts to match a pulse sequence to a signal.  All button codes
    /// are 32 pulses long (32 bits).
    pub fn from_pulse_seq(pulse_seq: &[Pulse]) -> (s: Signal)
        ensures
            s == spec_from_pulse_seq(pulse_seq@),
    {
        if pulse_seq.len() != 32 {
            return Signal::Unrecognized;
        }
        let mut code: u64 = 0;
        let mut i: usize = 0;
        proof {
            lemma2_to64();
        }
        while i < 32
            invariant
                pulse_seq@.len() == 32,
                i <= 32,
                all_payload(pulse_seq@.subrange(0, i as int)),
                code == code_of(pulse_seq@.subrange(0, i as int)),
                code < pow2(i as nat),
            decreases 32 - i,
        {
            let p = pulse_seq[i];
            let bit: u64 = match p {
                Pulse::Short => 0,
                Pulse::Long => 1,
                _ => {
                    proof {
                        assert(!is_payload(pulse_seq@[i as int]));
                    }
                    return Signal::Unrecognized;
                },
            };
            proof {
                lemma_pow2_unfold((i + 1) as nat);
                if i + 1 < 32 {
                    lemma_pow2_strictly_increases((i + 1) as nat, 32);
                }
                lemma2_to64();
                assert(pulse_seq@.subrange(0, (i + 1) as int).drop_last() =~= pulse_seq@.subrange(
                    0,
                    i as int,
                ));
                assert(pulse_seq@.subrange(0, (i + 1) as int).last() == pulse_seq@[i as int]);
            }
            code = 2 * code + bit;
            i = i + 1;
        }
        proof {
            assert(pulse_seq@.subrange(0, 32) =~= pulse_seq@);
        }
        if code == 0b00000000_11111111_00000010_11111101 {
            Signal::Power
        } else if code == 0b00000000_11111111_10000010_01111101 {
            Signal::PlayPause
        } else if code == 0b00000000_11111111_10111010_01000101 {
            Signal::BrightnessDown
        } else if code == 0b00000000_11111111_00111010_11000101 {
            Signal::BrightnessUp
        } else if code == 0b00000000_11111111_00100010_11011101 {
            Signal::White
        } else if code == 0b00000000_11111111_00011010_11100101 {
            Signal::Red
        } else if code == 0b00000000_11111111_10011010_01100101 {
            Signal::Green
        } else if code == 0b00000000_11111111_10100010_01011101 {
            Signal::Blue
        } else if code == 0b00000000_11111111_00101010_11010101 {
            Signal::Orange1
        } else if code == 0b00000000_11111111_00001010_11110101 {
            Signal::Orange2
        } else if code == 0b00000000_11111111_00111000_11000111 {
            Signal::Orange3
        } else if code == 0b00000000_11111111_00011000_11100111 {
            Signal::Yellow
        } else if code == 0b00000000_11111111_10101010_01010101 {
            Signal::GrassGreen
        } else if code == 0b00000000_11111111_10001010_01110101 {
            Signal::Turquise
        } else if code == 0b00000000_11111111_10111000_01000111 {
            Signal::Petrol
        } else if code == 0b00000000_11111111_10011000_01100111 {
            Signal::DarkPetrol
        } else if code == 0b00000000_11111111_10010010_01101101 {
            Signal::Blue2
        } else if code == 0b00000000_11111111_10110010_01001101 {
            Signal::Violet
        } else if code == 0b00000000_11111111_01111000_10000111 {
            Signal::LightViolet
        } else if code == 0b00000000_11111111_01011000_10100111 {
            Signal::Pink
        } else if code == 0b00000000_11111111_00010010_11101101 {
            Signal::Rose1
        } else if code == 0b00000000_11111111_00110010_11001101 {
            Signal::Rose2
        } else if code == 0b00000000_11111111_11111000_00000111 {
            Signal::Azure1
        } else if code == 0b00000000_11111111_11011000_00100111 {
            Signal::Azure2
        } else if code == 0b00000000_11111111_00101000_11010111 {
            Signal::RedUp
        } else if code == 0b00000000_11111111_00001000_11110111 {
            Signal::RedDown
        } else if code == 0b00000000_11111111_10101000_01010111 {
            Signal::GreenUp
        } else if code == 0b00000000_11111111_10001000_01110111 {
            Signal::GreenDown
        } else if code == 0b00000000_11111111_01101000_10010111 {
            Signal::BlueUp
        } else if code == 0b00000000_11111111_01001000_10110111 {
            Signal::BlueDown
        } else if code == 0b00000000_11111111_11101000_00010111 {
            Signal::Quick
        } else if code == 0b00000000_11111111_11001000_00110111 {
            Signal::Slow
        } else if code == 0b00000000_11111111_00110000_11001111 {
            Signal::Diy1
        } else if code == 0b00000000_11111111_10110000_01001111 {
            Signal::Diy2
        } else if code == 0b00000000_11111111_01110000_10001111 {
            Signal::Diy3
        } else if code == 0b00000000_11111111_00010000_11101111 {
            Signal::Diy4
        } else if code == 0b00000000_11111111_10010000_01101111 {
            Signal::Diy5
        } else if code == 0b00000000_11111111_01010000_10101111 {
            Signal::Diy6
        } else if code == 0b00000000_11111111_11110000_00001111 {
            Signal::Auto
        } else if code == 0b00000000_11111111_11010000_00101111 {
            Signal::Flash
        } else if code == 0b00000000_11111111_00100000_11011111 {
            Signal::Jump3
        } else if code == 0b00000000_11111111_10100000_01011111 {
            Signal::Jump7
        } else if code == 0b00000000_11111111_01100000_10011111 {
            Signal::Fade3
        } else if code == 0b00000000_11111111_11100000_00011111 {
            Signal::Fade7
        } else {
            Signal::Unrecognized
        }
    }

    /// The printable name of the signal.
    pub fn name(&self) -> (r: &'static str)
        ensures
            r@ == spec_name(*self),
    {
        match *self {
            Signal::Power => "Power",
            Signal::PlayPause => "PlayPause",
            Signal::BrightnessDown => "BrightnessDown",
            Signal::BrightnessUp => "BrightnessUp",
            Signal::White => "White",
            Signal::Red => "Red",
            Signal::Green => "Green",
            Signal::Blue => "Blue",
            Signal::Orange1 => "Orange1",
            Signal::Orange2 => "Orange2",
            Signal::Orange3 => "Orange3",
            Signal::Yellow => "Yellow",
            Signal::GrassGreen => "GrassGreen",
            Signal::Turquise => "Turquise",
            Signal::Petrol => "Petrol",
            Signal::DarkPetrol => "DarkPetrol",
            Signal::Blue2 => "Blue2",
            Signal::Violet => "Violet",
            Signal::LightViolet => "LightViolet",
            Signal::Pink => "Pink",
            Signal::Rose1 => "Rose1",
            Signal::Rose2 => "Rose2",
            Signal::Azure1 => "Azure1",
            Signal::Azure2 => "Azure2",
            Signal::RedUp => "RedUp",
            Signal::RedDown => "RedDown",
            Signal::GreenUp => "GreenUp",
            Signal::GreenDown => "GreenDown",
            Signal::BlueUp => "BlueUp",
            Signal::BlueDown => "BlueDown",
            Signal::Quick => "Quick",
            Signal::Slow => "Slow",
            Signal::Diy1 => "Diy1",
            Signal::Diy2 => "Diy2",
            Signal::Diy3 => "Diy3",
            Signal::Diy4 => "Diy4",
            Signal::Diy5 => "Diy5",
            Signal::Diy6 => "Diy6",
            Signal::Auto => "Auto",
            Signal::Flash => "Flash",
            Signal::Jump3 => "Jump3",
            Signal::Jump7 => "Jump7",
            Signal::Fade3 => "Fade3",
            Signal::Fade7 => "Fade7",
            Signal::Unrecognized => "Unrecognized",
        }
    }
}

/// The printable name of each signal, as a sequence of characters.
pub open spec fn spec_name(s: Signal) -> Seq<char> {
    match s {
        Signal::Power => "Power"@,
        Signal::PlayPause => "PlayPause"@,
        Signal::BrightnessDown => "BrightnessDown"@,
        Signal::BrightnessUp => "BrightnessUp"@,
        Signal::White => "White"@,
        Signal::Red => "Red"@,
        Signal::Green => "Green"@,
        Signal::Blue => "Blue"@,
        Signal::Orange1 => "Orange1"@,
        Signal::Orange2 => "Orange2"@,
        Signal::Orange3 => "Orange3"@,
        Signal::Yellow => "Yellow"@,
        Signal::GrassGreen => "GrassGreen"@,
        Signal::Turquise => "Turquise"@,
        Signal::Petrol => "Petrol"@,
        Signal::DarkPetrol => "DarkPetrol"@,
        Signal::Blue2 => "Blue2"@,
        Signal::Violet => "Violet"@,
        Signal::LightViolet => "LightViolet"@,
        Signal::Pink => "Pink"@,
        Signal::Rose1 => "Rose1"@,
        Signal::Rose2 => "Rose2"@,
        Signal::Azure1 => "Azure1"@,
        Signal::Azure2 => "Azure2"@,
        Signal::RedUp => "RedUp"@,
        Signal::RedDown => "RedDown"@,
        Signal::GreenUp => "GreenUp"@,
        Signal::GreenDown => "GreenDown"@,
        Signal::BlueUp => "BlueUp"@,
        Signal::BlueDown => "BlueDown"@,
        Signal::Quick => "Quick"@,
        Signal::Slow => "Slow"@,
        Signal::Diy1 => "Diy1"@,
        Signal::Diy2 => "Diy2"@,
        Signal::Diy3 => "Diy3"@,
        Signal::Diy4 => "Diy4"@,
        Signal::Diy5 => "Diy5"@,
        Signal::Diy6 => "Diy6"@,
        Signal::Auto => "Auto"@,
        Signal::Flash => "Flash"@,
        Signal::Jump3 => "Jump3"@,
        Signal::Jump7 => "Jump7"@,
        Signal::Fade3 => "Fade3"@,
        Signal::Fade7 => "Fade7"@,
        Signal::Unrecognized => "Unrecognized"@,
    }
}

} // verus!
