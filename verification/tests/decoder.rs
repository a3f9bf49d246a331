use pi_ir_remote::seq_to_string;
use pi_ir_remote::IRPulseReader;
use pi_ir_remote::Pulse;
use pi_ir_remote::Signal;
use pi_ir_remote::SignalHandler;

/// Builds a pulse sequence from a text of `S` and `L` characters.
fn pattern(text: &str) -> Vec<Pulse> {
    text.chars()
        .map(|c| if c == 'L' { Pulse::Long } else { Pulse::Short })
        .collect()
}

/// The 32-pulse pattern of the Power button: S*8, L*8, S*6, L, S, L*6, S, L.
const POWER_TEXT: &str = "SSSSSSSSLLLLLLLLSSSSSSLSLLLLLLSL";

#[test]
fn classification_bands() {
    assert_eq!(Pulse::from_duration(0), Pulse::Unrecognized);
    assert_eq!(Pulse::from_duration(1), Pulse::Short);
    assert_eq!(Pulse::from_duration(600), Pulse::Short);
    assert_eq!(Pulse::from_duration(999), Pulse::Short);
    assert_eq!(Pulse::from_duration(1000), Pulse::Unrecognized);
    assert_eq!(Pulse::from_duration(1001), Pulse::Long);
    assert_eq!(Pulse::from_duration(1500), Pulse::Long);
    assert_eq!(Pulse::from_duration(1999), Pulse::Long);
    assert_eq!(Pulse::from_duration(2000), Pulse::Unrecognized);
    assert_eq!(Pulse::from_duration(2001), Pulse::Start);
    assert_eq!(Pulse::from_duration(3000), Pulse::Start);
    assert_eq!(Pulse::from_duration(4999), Pulse::Start);
    assert_eq!(Pulse::from_duration(5000), Pulse::Unrecognized);
    assert_eq!(Pulse::from_duration(u64::MAX), Pulse::Unrecognized);
}

#[test]
fn power_sequence_decodes() {
    let seq = pattern(POWER_TEXT);
    assert_eq!(Signal::from_pulse_seq(&seq), Signal::Power);
}

#[test]
fn assembler_emits_power_and_resets() {
    let mut reader = IRPulseReader::new(0);
    let seq = pattern(POWER_TEXT);
    for (i, p) in seq.iter().enumerate() {
        let r = reader.push_pulse(*p);
        if i < 31 {
            assert_eq!(r, None);
        } else {
            assert_eq!(r, Some(Signal::Power));
        }
    }
    // The buffer was reset: the same 32 pulses emit exactly once more,
    // again on the 32nd pulse.
    for (i, p) in seq.iter().enumerate() {
        let r = reader.push_pulse(*p);
        if i < 31 {
            assert_eq!(r, None);
        } else {
            assert_eq!(r, Some(Signal::Power));
        }
    }
}

#[test]
fn unknown_sequence_is_unrecognized() {
    // All-Short is not among the 44 known button codes.
    let seq = pattern("SSSSSSSSSSSSSSSSSSSSSSSSSSSSSSSS");
    assert_eq!(Signal::from_pulse_seq(&seq), Signal::Unrecognized);
    // One flipped pulse turns a known code into an unknown one.
    let mut almost_power = pattern(POWER_TEXT);
    almost_power[31] = Pulse::Short;
    assert_eq!(Signal::from_pulse_seq(&almost_power), Signal::Unrecognized);
}

#[test]
fn unknown_sequence_leaves_buffer_empty() {
    let mut reader = IRPulseReader::new(0);
    let seq = pattern("SSSSSSSSSSSSSSSSSSSSSSSSSSSSSSSS");
    for (i, p) in seq.iter().enumerate() {
        let r = reader.push_pulse(*p);
        if i < 31 {
            assert_eq!(r, None);
        } else {
            assert_eq!(r, Some(Signal::Unrecognized));
        }
    }
    // The buffer is empty again: a full known frame decodes next.
    for (i, p) in pattern(POWER_TEXT).iter().enumerate() {
        let r = reader.push_pulse(*p);
        if i < 31 {
            assert_eq!(r, None);
        } else {
            assert_eq!(r, Some(Signal::Power));
        }
    }
}

#[test]
fn wrong_length_is_unrecognized() {
    assert_eq!(Signal::from_pulse_seq(&[]), Signal::Unrecognized);
    let short_seq = pattern("SSSSSSSSLLLLLLLLSSSSSSLSLLLLLLS");
    assert_eq!(short_seq.len(), 31);
    assert_eq!(Signal::from_pulse_seq(&short_seq), Signal::Unrecognized);
    let long_seq = pattern("SSSSSSSSLLLLLLLLSSSSSSLSLLLLLLSLL");
    assert_eq!(long_seq.len(), 33);
    assert_eq!(Signal::from_pulse_seq(&long_seq), Signal::Unrecognized);
}

#[test]
fn non_payload_pulse_in_frame_is_unrecognized() {
    let mut seq = pattern(POWER_TEXT);
    seq[10] = Pulse::Start;
    assert_eq!(Signal::from_pulse_seq(&seq), Signal::Unrecognized);
    let mut seq = pattern(POWER_TEXT);
    seq[0] = Pulse::Unrecognized;
    assert_eq!(Signal::from_pulse_seq(&seq), Signal::Unrecognized);
}

#[test]
fn more_buttons_decode() {
    assert_eq!(
        Signal::from_pulse_seq(&pattern("SSSSSSSSLLLLLLLLLSSSSSLSSLLLLLSL")),
        Signal::PlayPause
    );
    assert_eq!(
        Signal::from_pulse_seq(&pattern("SSSSSSSSLLLLLLLLLLLSSSSSSSSLLLLL")),
        Signal::Fade7
    );
    assert_eq!(
        Signal::from_pulse_seq(&pattern("SSSSSSSSLLLLLLLLLLLLLSSSSSSSSLLL")),
        Signal::Azure1
    );
}

#[test]
fn start_pulse_clears_any_occupancy() {
    for occupancy in [0usize, 1, 5, 16, 31] {
        for noise in [Pulse::Start, Pulse::Unrecognized] {
            let mut reader = IRPulseReader::new(0);
            for _ in 0..occupancy {
                assert_eq!(reader.push_pulse(Pulse::Short), None);
            }
            // The clearing call itself never emits.
            assert_eq!(reader.push_pulse(noise), None);
            // The buffer is empty now: a full frame decodes from scratch.
            for (i, p) in pattern(POWER_TEXT).iter().enumerate() {
                let r = reader.push_pulse(*p);
                if i < 31 {
                    assert_eq!(r, None);
                } else {
                    assert_eq!(r, Some(Signal::Power));
                }
            }
        }
    }
}

#[test]
fn partial_frame_emits_nothing() {
    let mut reader = IRPulseReader::new(0);
    for p in pattern(POWER_TEXT).iter().take(31) {
        assert_eq!(reader.push_pulse(*p), None);
    }
}

#[test]
fn seq_to_string_shows_payload_pulses() {
    assert_eq!(seq_to_string(&vec![]), "");
    assert_eq!(
        seq_to_string(&vec![Pulse::Short, Pulse::Long, Pulse::Short]),
        "SLS"
    );
    // Start and Unrecognized pulses show as nothing.
    assert_eq!(
        seq_to_string(&vec![Pulse::Start, Pulse::Long, Pulse::Unrecognized, Pulse::Short]),
        "LS"
    );
    assert_eq!(seq_to_string(&pattern(POWER_TEXT)), POWER_TEXT);
}

#[test]
fn signal_names() {
    assert_eq!(Signal::Power.name(), "Power");
    assert_eq!(Signal::BrightnessDown.name(), "BrightnessDown");
    assert_eq!(Signal::Unrecognized.name(), "Unrecognized");
}

/// A handler that records every signal it is handed.
struct RecordingHandler {
    seen: Vec<Signal>,
}

impl SignalHandler for RecordingHandler {
    fn handle_signal(&mut self, signal: &Signal) {
        self.seen.push(*signal);
    }
}

#[test]
fn end_to_end_polled_line() {
    let mut handler = RecordingHandler { seen: Vec::new() };
    let mut reader = IRPulseReader::new(0);
    let mut now: u64 = 0;

    // A sample with no level change leaves everything as it was.
    assert_eq!(reader.observe(0, 50), None);

    // A leading 3000µs high pulse: the Start marker.
    now += 100;
    assert_eq!(reader.observe(1, now), None);
    now += 3000;
    assert_eq!(reader.observe(0, now), None);

    // 32 high pulses of 600µs, separated by 300µs gaps: 32 Short
    // pulses, one full frame.
    let mut emissions: usize = 0;
    for _ in 0..32 {
        now += 300;
        assert_eq!(reader.observe(1, now), None);
        now += 600;
        if let Some(signal) = reader.observe(0, now) {
            emissions += 1;
            handler.handle_signal(&signal);
        }
    }
    // Exactly one handler invocation, for the completed frame; the
    // all-Short frame is not a known button code.
    assert_eq!(emissions, 1);
    assert_eq!(handler.seen, vec![Signal::Unrecognized]);
}

#[test]
fn end_to_end_power_transmission() {
    let mut handler = RecordingHandler { seen: Vec::new() };
    let mut reader = IRPulseReader::new(0);
    let mut now: u64 = 0;

    // Preamble.
    now += 100;
    reader.observe(1, now);
    now += 3000;
    reader.observe(0, now);

    // The Power frame: Short pulses as 600µs highs, Long as 1500µs.
    for c in POWER_TEXT.chars() {
        now += 300;
        assert_eq!(reader.observe(1, now), None);
        now += if c == 'L' { 1500 } else { 600 };
        if let Some(signal) = reader.observe(0, now) {
            handler.handle_signal(&signal);
        }
    }
    assert_eq!(handler.seen, vec![Signal::Power]);
}

#[test]
fn mid_frame_noise_resynchronizes_late() {
    // A boundary duration (exactly 1000µs) classifies as Unrecognized
    // and clears the frame in progress.
    let mut reader = IRPulseReader::new(0);
    for _ in 0..5 {
        assert_eq!(reader.push_pulse(Pulse::Short), None);
    }
    assert_eq!(reader.push_pulse(Pulse::from_duration(1000)), None);
    // A fresh full frame decodes afterwards.
    for (i, p) in pattern(POWER_TEXT).iter().enumerate() {
        let r = reader.push_pulse(*p);
        if i < 31 {
            assert_eq!(r, None);
        } else {
            assert_eq!(r, Some(Signal::Power));
        }
    }
}

#[test]
fn print_handler_accepts_signals() {
    let mut handler = pi_ir_remote::PrintSignalHandler::new();
    handler.handle_signal(&Signal::Power);
    handler.handle_signal(&Signal::Unrecognized);
}
