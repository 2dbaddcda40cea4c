use rust_audio_engine::decibel::{amplitude_to_db, db_to_velocity};
use rust_audio_engine::dynamics::{analyze_dynamics, DynamicsEvent};
use rust_audio_engine::fixed::isqrt;
use rust_audio_engine::level::{calculate_rms, find_peak, sum_of_squares};
use rust_audio_engine::onset::OnsetEvent;
use rust_audio_engine::velocity::amplitude_to_velocity;

/// One amplitude in millionths of full scale.
fn to_fixed(x: f32) -> i32 {
    (x as f64 * 1_000_000.0).round() as i32
}

/// A level in decibels.
fn decibels(tenths: i32) -> f32 {
    tenths as f32 / 10.0
}

fn level(units: u32) -> f32 {
    units as f32 / 1_000_000.0
}

#[test]
fn test_rms_sine_wave() {
    let amplitude = 0.5;
    let samples: Vec<i32> = (0..1000)
        .map(|i| to_fixed(amplitude * (2.0 * std::f32::consts::PI * i as f32 / 100.0).sin()))
        .collect();

    let rms = level(calculate_rms(&samples));
    let expected = amplitude / 2.0f32.sqrt();

    assert!(
        (rms - expected).abs() < 0.01,
        "RMS calculation incorrect: expected {}, got {}",
        expected,
        rms
    );
}

#[test]
fn test_rms_dc_signal() {
    let samples = vec![to_fixed(0.5); 1000];
    let rms = level(calculate_rms(&samples));

    assert!((rms - 0.5).abs() < 0.01, "RMS of DC signal should equal amplitude");
}

#[test]
fn test_rms_silence() {
    let samples = vec![0; 1000];
    let rms = calculate_rms(&samples);

    assert_eq!(rms, 0, "RMS of silence should be 0");
}

#[test]
fn test_peak_detection() {
    let samples: Vec<i32> = [0.1, -0.3, 0.7, -0.5, 0.2].iter().map(|&s| to_fixed(s)).collect();
    let peak = find_peak(&samples);

    assert_eq!(peak, to_fixed(0.7) as u32, "Peak should be 0.7");
}

#[test]
fn test_db_conversion() {
    assert_eq!(decibels(amplitude_to_db(to_fixed(1.0) as u32)), 0.0);

    let db_half = decibels(amplitude_to_db(to_fixed(0.5) as u32));
    assert!((db_half - (-6.02)).abs() < 0.1, "0.5 amplitude should be ~-6dB");

    assert_eq!(decibels(amplitude_to_db(to_fixed(0.0) as u32)), -60.0);
    assert_eq!(decibels(amplitude_to_db(to_fixed(1e-7) as u32)), -60.0);
}

#[test]
fn test_velocity_mapping() {
    assert_eq!(db_to_velocity(0), 127);

    assert_eq!(db_to_velocity(-600), 0);

    let mid_vel = db_to_velocity(-300);
    assert!((mid_vel as i32 - 63).abs() <= 1, "Mid velocity should be ~63, got {}", mid_vel);
}

#[test]
fn test_velocity_clamping() {
    assert_eq!(db_to_velocity(100), 127);
    assert_eq!(db_to_velocity(-1000), 0);
}

#[test]
fn test_analyze_dynamics_basic() {
    let mut audio = Vec::new();
    audio.extend(vec![to_fixed(0.1); 4410]);
    audio.extend(vec![to_fixed(0.5); 4410]);
    audio.extend(vec![to_fixed(0.9); 4410]);

    let onsets = vec![
        OnsetEvent { timestamp: 0, sample_index: 0, strength: 1_000_000, confidence: 1_000_000 },
        OnsetEvent {
            timestamp: 100_000,
            sample_index: 4410,
            strength: 1_000_000,
            confidence: 1_000_000,
        },
        OnsetEvent {
            timestamp: 200_000,
            sample_index: 8820,
            strength: 1_000_000,
            confidence: 1_000_000,
        },
    ];

    let dynamics = analyze_dynamics(&audio, &onsets, 44100);

    assert_eq!(dynamics.len(), 3);

    assert!(dynamics[0].rms_level < dynamics[1].rms_level);
    assert!(dynamics[1].rms_level < dynamics[2].rms_level);

    assert!(dynamics[0].midi_velocity < dynamics[1].midi_velocity);
    assert!(dynamics[1].midi_velocity < dynamics[2].midi_velocity);
}

#[test]
fn dynamics_of_three_constant_notes() {
    let mut audio = vec![100_000; 4410];
    audio.extend(vec![-500_000; 4410]);
    audio.extend(vec![900_000; 4410]);
    let onset = |timestamp: u64, sample_index: usize| OnsetEvent {
        timestamp,
        sample_index,
        strength: 1,
        confidence: 1,
    };
    let onsets = vec![onset(0, 0), onset(100_000, 4410), onset(200_000, 8820)];
    let dynamics = analyze_dynamics(&audio, &onsets, 44100);
    // -20 dB, -6.02 dB and -0.92 dB; (40 / 60) * 127 = 84.7, (54 / 60) * 127 = 114.3,
    // (59.1 / 60) * 127 = 125.1
    assert_eq!(
        dynamics,
        vec![
            DynamicsEvent {
                timestamp: 0,
                rms_level: 100_000,
                peak_level: 100_000,
                db_level: -200,
                midi_velocity: 85
            },
            DynamicsEvent {
                timestamp: 100_000,
                rms_level: 500_000,
                peak_level: 500_000,
                db_level: -60,
                midi_velocity: 114
            },
            DynamicsEvent {
                timestamp: 200_000,
                rms_level: 900_000,
                peak_level: 900_000,
                db_level: -9,
                midi_velocity: 125
            },
        ]
    );
}

#[test]
fn notes_last_to_the_next_onset() {
    let audio = vec![3, 4, 0, 0, 0, 6, -8];
    let onset = |timestamp: u64, sample_index: usize| OnsetEvent {
        timestamp,
        sample_index,
        strength: 0,
        confidence: 0,
    };
    // the notes are [3, 4], [], [0, 0, 0] and [6, -8]
    let onsets = vec![onset(5, 0), onset(6, 2), onset(7, 2), onset(9, 5)];
    let dynamics = analyze_dynamics(&audio, &onsets, 8000);
    let levels: Vec<(u64, u32, u32)> =
        dynamics.iter().map(|d| (d.timestamp, d.rms_level, d.peak_level)).collect();
    // sqrt(25 / 2) = 3.5 and sqrt(100 / 2) = 7.07
    assert_eq!(levels, vec![(5, 3, 4), (6, 0, 0), (7, 0, 0), (9, 7, 8)]);
    assert_eq!(dynamics[1].db_level, -600);
    assert_eq!(dynamics[1].midi_velocity, 0);
    assert!(analyze_dynamics(&audio, &[], 8000).is_empty());
    // an onset at the very end has an empty note
    let dynamics = analyze_dynamics(&audio, &[onset(1, 7)], 8000);
    assert_eq!(dynamics[0].rms_level, 0);
}

#[test]
fn rms_of_a_constant_signal_is_its_magnitude() {
    assert_eq!(calculate_rms(&[-250_000; 77]), 250_000);
    assert_eq!(calculate_rms(&[i32::MIN; 3]), 1 << 31);
    assert_eq!(calculate_rms(&[i32::MAX]), i32::MAX as u32);
    assert_eq!(calculate_rms(&[]), 0);
}

#[test]
fn rms_is_rounded_down() {
    // mean square (1 + 4 + 4) / 3 = 3, root 1.73
    assert_eq!(calculate_rms(&[1, 2, -2]), 1);
    // mean square (9 + 16 + 25 + 0) / 4 = 12.5, root 3.5
    assert_eq!(calculate_rms(&[3, -4, 5, 0]), 3);
    assert_eq!(sum_of_squares(&[3, -4, 5, 0]), 50);
    assert_eq!(sum_of_squares(&[i32::MIN, i32::MIN]), 1 << 63);
}

#[test]
fn integer_square_roots() {
    assert_eq!(isqrt(0), 0);
    assert_eq!(isqrt(1), 1);
    assert_eq!(isqrt(3), 1);
    assert_eq!(isqrt(4), 2);
    assert_eq!(isqrt(99), 9);
    assert_eq!(isqrt(100), 10);
    assert_eq!(isqrt(250_000_000_000), 500_000);
    assert_eq!(isqrt(u64::MAX), u32::MAX);
    assert_eq!(isqrt((u32::MAX as u64) * (u32::MAX as u64) - 1), u32::MAX - 1);
}

#[test]
fn peak_is_the_largest_magnitude() {
    assert_eq!(find_peak(&[]), 0);
    assert_eq!(find_peak(&[0, 0]), 0);
    assert_eq!(find_peak(&[5, -9, 9, 2]), 9);
    assert_eq!(find_peak(&[i32::MAX, i32::MIN]), 1 << 31);
}

#[test]
fn decibels_to_the_nearest_tenth() {
    // 20 log10(0.1) = -20, 20 log10(2) = 6.0206, 20 log10(1e-6) = -120
    assert_eq!(amplitude_to_db(100_000), -200);
    assert_eq!(amplitude_to_db(2_000_000), 60);
    assert_eq!(amplitude_to_db(1), -1200);
    assert_eq!(amplitude_to_db(10), -1000);
    // 20 log10(0.9) = -0.915, 20 log10(0.25) = -12.04, 20 log10(0.001) = -60
    assert_eq!(amplitude_to_db(900_000), -9);
    assert_eq!(amplitude_to_db(250_000), -120);
    assert_eq!(amplitude_to_db(1_000), -600);
    // 20 log10(4294.967295) = 72.659
    assert_eq!(amplitude_to_db(u32::MAX), 727);
}

#[test]
fn decibel_edges_lie_half_a_tenth_apart() {
    // 0.05 dB is a factor of 10^(1/400) = 1.0057730630
    assert_eq!(amplitude_to_db(1_005_773), 0);
    assert_eq!(amplitude_to_db(1_005_774), 1);
    // -0.05 dB is a factor of 0.99426007
    assert_eq!(amplitude_to_db(994_260), -1);
    assert_eq!(amplitude_to_db(994_261), 0);
    // -6.05 dB is a factor of 0.49831046, -5.95 dB one of 0.50408067
    assert_eq!(amplitude_to_db(498_310), -61);
    assert_eq!(amplitude_to_db(498_311), -60);
    assert_eq!(amplitude_to_db(504_080), -60);
    assert_eq!(amplitude_to_db(504_081), -59);
    // small numbers: 20 log10(3 / 10^6) = -110.46, 20 log10(9 / 10^6) = -100.92
    assert_eq!(amplitude_to_db(3), -1105);
    assert_eq!(amplitude_to_db(9), -1009);
}

#[test]
fn velocity_is_rounded_to_the_nearest() {
    // one tenth of a decibel is 127 / 600 = 0.2117 of a velocity step
    assert_eq!(db_to_velocity(-599), 0);
    assert_eq!(db_to_velocity(-598), 0);
    assert_eq!(db_to_velocity(-597), 1);
    assert_eq!(db_to_velocity(-300), 64);
    assert_eq!(db_to_velocity(-301), 63);
    assert_eq!(db_to_velocity(-3), 126);
    assert_eq!(db_to_velocity(-2), 127);
    assert_eq!(db_to_velocity(-1), 127);
    assert_eq!(db_to_velocity(i32::MAX), 127);
    assert_eq!(db_to_velocity(i32::MIN), 0);
}

#[test]
fn louder_is_never_softer() {
    let amplitudes = [0u32, 1, 2, 9, 10, 999, 1_000, 1_001, 31_622, 31_623, 100_000, 500_000,
        999_999, 1_000_000, 1_000_001, 2_000_000, u32::MAX];
    for pair in amplitudes.windows(2) {
        let (soft, loud) = (pair[0], pair[1]);
        assert!(db_to_velocity(amplitude_to_db(soft)) <= db_to_velocity(amplitude_to_db(loud)));
        if soft > 0 {
            assert!(amplitude_to_db(soft) <= amplitude_to_db(loud));
        }
    }
    // silence stands at -60 dB, above the softest sounds
    assert!(amplitude_to_db(0) > amplitude_to_db(1));
    // up to full scale no level is above 0 dB
    assert_eq!(amplitude_to_db(999_999), 0);
    assert_eq!(amplitude_to_db(1_000_000), 0);
    // -60 dB is an amplitude of 0.001: the velocity rises from there
    assert_eq!(db_to_velocity(amplitude_to_db(1_000)), 0);
    assert_eq!(db_to_velocity(amplitude_to_db(1_040)), 1);
    assert_eq!(db_to_velocity(amplitude_to_db(1_000_000)), 127);
}

#[test]
fn rms_never_exceeds_the_peak() {
    let signals: [&[i32]; 5] =
        [&[], &[0, 0], &[7, -7, 7], &[1, 2, 3, 4, 1_000_000], &[i32::MIN, i32::MAX, 0]];
    for signal in signals {
        assert!(calculate_rms(signal) <= find_peak(signal));
    }
    let onset = OnsetEvent { timestamp: 0, sample_index: 1, strength: 0, confidence: 0 };
    let dynamics = analyze_dynamics(&[9, 3, -4, 0, 12], &[onset], 44100);
    // (9 + 16 + 0 + 144) / 4 = 42.25
    assert_eq!(dynamics[0].rms_level, 6);
    assert_eq!(dynamics[0].peak_level, 12);
}

#[test]
fn velocity_is_that_of_the_level_itself() {
    // 20 log10(0.099312) = -20.060 dB: (39.940 / 60) * 127 = 84.54
    assert_eq!(amplitude_to_velocity(99_312), 85);
    // 20 log10(0.104472) = -19.620 dB: (40.380 / 60) * 127 = 85.47
    assert_eq!(amplitude_to_velocity(104_472), 85);
    // -20 dB, -6.02 dB, -3.01 dB and -0.92 dB
    assert_eq!(amplitude_to_velocity(100_000), 85);
    assert_eq!(amplitude_to_velocity(500_000), 114);
    assert_eq!(amplitude_to_velocity(707_107), 121);
    assert_eq!(amplitude_to_velocity(900_000), 125);
    // -30 dB is an amplitude of 0.0316228: half the range, 63.5
    assert_eq!(amplitude_to_velocity(31_622), 63);
    assert_eq!(amplitude_to_velocity(31_623), 64);
}

#[test]
fn velocity_edges_lie_half_a_step_apart() {
    // velocity 1 begins at 10^(765 / 254) = 1027.57 millionths, half a step above -60 dB
    assert_eq!(amplitude_to_velocity(1_000), 0);
    assert_eq!(amplitude_to_velocity(1_027), 0);
    assert_eq!(amplitude_to_velocity(1_028), 1);
    // velocity 2 at 10^(771 / 254) = 1085.01, velocity 64 at 10^(1143 / 254) = 31622.78
    assert_eq!(amplitude_to_velocity(1_085), 1);
    assert_eq!(amplitude_to_velocity(1_086), 2);
    // velocity 127 begins at 10^(1521 / 254) = 973170.59, half a step below 0 dB
    assert_eq!(amplitude_to_velocity(973_170), 126);
    assert_eq!(amplitude_to_velocity(973_171), 127);
}

#[test]
fn velocity_is_kept_within_its_range() {
    assert_eq!(amplitude_to_velocity(0), 0);
    assert_eq!(amplitude_to_velocity(1), 0);
    assert_eq!(amplitude_to_velocity(1_000_000), 127);
    assert_eq!(amplitude_to_velocity(1_000_001), 127);
    assert_eq!(amplitude_to_velocity(u32::MAX), 127);
    let mut last = 0;
    for amplitude in (0..2_000_000u32).step_by(997) {
        let velocity = amplitude_to_velocity(amplitude);
        assert!(last <= velocity && velocity <= 127);
        // the velocity of the rounded level is never more than one step away
        let rounded = db_to_velocity(amplitude_to_db(amplitude));
        assert!((rounded as i32 - velocity as i32).abs() <= 1);
        last = velocity;
    }
}
