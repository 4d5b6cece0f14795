use adsbee::rtlsdr::{
    Cursor,
    IqSample,
    TunerType,
    demodulator::{
        Demodulator,
        Frame,
        Quality,
    },
};

fn modulate(data: &[u8], mut sample: impl FnMut(bool) -> u16) -> Vec<u16> {
    let mut samples = vec![];

    // 0, 2, 7, 9 are high
    let mut preamble: u16 = 0b1010_0001_0100_0000;
    for _ in 0..16 {
        if preamble & 0x8000 == 0 {
            samples.push(sample(false));
        }
        else {
            samples.push(sample(true));
        }
        preamble <<= 1;
    }

    for mut byte in data.iter().copied() {
        for _ in 0..8 {
            if byte & 0x80 == 0 {
                // bit=0 raising edge
                samples.push(sample(false));
                samples.push(sample(true));
            }
            else {
                // bit=1 falling edge
                samples.push(sample(true));
                samples.push(sample(false));
            }
            byte <<= 1;
        }
    }

    samples
}

fn best_signal(signal: bool) -> u16 {
    if signal { u16::MAX } else { 0 }
}

#[test]
fn it_demodulates_a_frame() {
    let input = b"\x8d\x40\x74\xb5\x23\x15\xa6\x76\xdd\x13\xa0\x66\x29\x67";

    let samples = modulate(input, best_signal);

    let mut demodulator = Demodulator::new(Quality::NoChecks, 0);
    let mut cursor = Cursor {
        samples: &samples[..],
        position: 0,
    };

    let frame = demodulator.next(&mut cursor).expect("no frame demodulated");
    match frame {
        Frame::ModeSLong { data } => {
            assert_eq!(&data, input);
        }
        _ => panic!("unexpected frame: {:?}", frame),
    }
}

#[test]
fn it_demodulates_a_short_frame_after_noise() {
    let input = b"\x5d\x40\x74\xb5\x23\x15\xa6";
    let mut samples = vec![3, 1, 4, 1, 5];
    samples.extend(modulate(input, best_signal));
    let mut demodulator = Demodulator::default();
    let mut cursor = Cursor {
        samples: &samples[..],
        position: 0,
    };
    let frame = demodulator.next(&mut cursor).expect("no frame demodulated");
    assert_eq!(frame.as_ref(), &input[..]);
    assert_eq!(cursor.position, samples.len());
}

#[test]
fn it_needs_enough_samples() {
    let input = b"\x8d\x40\x74\xb5\x23\x15\xa6\x76\xdd\x13\xa0\x66\x29\x67";
    let samples = modulate(input, best_signal);
    let truncated = &samples[..100];
    let mut demodulator = Demodulator::new(Quality::NoChecks, 0);
    let mut cursor = Cursor {
        samples: truncated,
        position: 0,
    };
    assert!(demodulator.next(&mut cursor).is_none());
    // the cursor goes back to the start of the preamble
    assert_eq!(cursor.position, 0);
}

#[test]
fn it_finds_nothing_in_silence() {
    let samples = vec![0u16; 64];
    let mut demodulator = Demodulator::default();
    let mut cursor = Cursor {
        samples: &samples[..],
        position: 0,
    };
    assert!(demodulator.next(&mut cursor).is_none());
    assert_eq!(cursor.position, 64 - 15);
}

#[test]
fn magnitudes() {
    assert_eq!(IqSample { i: 127, q: 127 }.magnitude(), 0);
    assert_eq!(IqSample { i: 0, q: 255 }.magnitude(), 127 * 127 + 128 * 128);
    assert_eq!(IqSample { i: 130, q: 120 }.magnitude(), 9 + 49);
    let default = IqSample::default();
    assert_eq!((default.i, default.q), (128, 128));
}

#[test]
fn cursor_moves() {
    let samples = [1u16, 2, 3, 4];
    let mut cursor = Cursor {
        samples: &samples[..],
        position: 0,
    };
    cursor.advance(1);
    assert_eq!(cursor.remaining(), &[2, 3, 4]);
    cursor.advance_to_end();
    assert_eq!(cursor.remaining(), &[] as &[u16]);
}

#[test]
fn tuner_types() {
    assert!(TunerType(5).is_r82xx());
    assert!(TunerType(6).is_r82xx());
    assert!(!TunerType(1).is_r82xx());
}
