use proc_aud::dsp::unit::{Control, Decay, Envelope, Pan, Ramp, Wobble};
use proc_aud::presets::sword_slash::{sword_slash_design, SwordSlash};

fn time_of_sample(index: i64, sample_rate: i64) -> i64 {
    index * 1_000_000 / sample_rate
}

#[test]
fn envelope_is_silent_only_after_its_cutoff() {
    let e = Envelope::pluck(1_200_000, 500_000_000, 6_000_000, 16_000);
    assert!(!e.is_silent(0));
    assert!(!e.is_silent(1_199_999));
    assert!(!e.is_silent(1_200_000));
    assert!(e.is_silent(1_200_001));
    assert!(e.is_silent(i64::MAX));
    assert!(!e.is_silent(i64::MIN));
}

#[test]
fn attack_rises_linearly_to_full_level() {
    // 500 per second: full level after two milliseconds.
    let e = Envelope::pluck(1_200_000, 500_000_000, 6_000_000, 16_000);
    assert_eq!(e.rise(0), 0);
    assert_eq!(e.rise(1_000), 500_000);
    assert_eq!(e.rise(500), 250_000);
    assert_eq!(e.rise(2_000), 1_000_000);
    assert_eq!(e.rise(2_001), 1_000_000);
    assert_eq!(e.rise(1_000_000), 1_000_000);
    assert_eq!(e.rise(-1_000), 0);
}

#[test]
fn delayed_attack_stays_at_zero_until_its_delay() {
    let ramp = Ramp { delay: 20_000, rate: 60_000_000 };
    assert_eq!(ramp.level(0), 0);
    assert_eq!(ramp.level(20_000), 0);
    assert_eq!(ramp.level(30_000), 600_000);
    assert_eq!(ramp.level(36_666), 999_960);
    assert_eq!(ramp.level(36_667), 1_000_000);
    assert_eq!(ramp.level(i64::MAX), 1_000_000);
    assert_eq!(ramp.level(i64::MIN), 0);
}

#[test]
fn ramp_takes_any_rate() {
    assert_eq!(Ramp { delay: 0, rate: 0 }.level(5_000_000), 0);
    assert_eq!(Ramp { delay: 0, rate: -1_000_000 }.level(500_000), 0);
    assert_eq!(Ramp { delay: 0, rate: -1_000_000 }.level(-500_000), 500_000);
    assert_eq!(Ramp { delay: i64::MAX, rate: i64::MIN }.level(i64::MIN), 1_000_000);
    assert_eq!(Ramp { delay: i64::MIN, rate: i64::MAX }.level(i64::MAX), 1_000_000);
    assert_eq!(Ramp { delay: i64::MIN, rate: i64::MIN }.level(i64::MAX), 0);
}

#[test]
fn envelope_without_attack_is_at_full_level_at_once() {
    let e = Envelope {
        cutoff: 550_000,
        attack: None,
        decay: Decay { delay: 0, rate: 3_500_000 },
        stutter: None,
        gain: 520_000,
    };
    assert_eq!(e.rise(0), 1_000_000);
    assert_eq!(e.rise(-7), 1_000_000);
    assert_eq!(e.rise(400_000), 1_000_000);
}

#[test]
fn controls_with_a_cutoff_say_so() {
    let e = Envelope::pluck(300_000, 1, 1, 1);
    assert_eq!(Control::Envelope(e).cutoff(), Some(300_000));
    assert_eq!(Control::LinearSweep { cutoff: 450_000, from: 1, to: 2 }.cutoff(), Some(450_000));
    assert_eq!(Control::ExpSweep { base: 1, range: 2, rate: 3 }.cutoff(), None);
    assert_eq!(
        Control::Bell { cutoff: 600_000, floor: 1, peak: 2, center: 3, sharpness: 4 }.cutoff(),
        None
    );
    let w = Wobble { offset: 1, depth: 2, rate: 3 };
    assert_eq!(Control::Tremolo { throb: w, flutter: w }.cutoff(), None);
    assert_eq!(
        Control::Pan(Pan { base: 1, depth: 2, rate: 3, quadrature: false }).cutoff(),
        None
    );
}

#[test]
fn sword_slash_is_silent_after_sample_52920_and_sounds_within_the_first_2205() {
    let d = sword_slash_design(&SwordSlash {
        intensity: 800_000,
        pitch_shift: 1_000_000,
        reverb_mix: 0,
    });
    assert_eq!(d.reverb, None);
    assert_eq!(d.lowpass, None);
    // Sample 52920 at 44100 Hz lies exactly at 1.2 s, the latest cutoff.
    assert_eq!(time_of_sample(52_920, 44_100), 1_200_000);
    assert_eq!(d.silent_after(), 1_200_000);
    for index in [52_921i64, 52_930, 60_000, 88_200, 1_000_000] {
        let t = time_of_sample(index, 44_100);
        if t > 1_200_000 {
            assert!(d.layers.iter().all(|l| l.envelope.is_silent(t)));
        }
    }
    assert!(d.layers.iter().all(|l| l.envelope.is_silent(1_200_001)));
    // Within the first 2205 samples, 0.05 s, every layer is open and has risen.
    assert_eq!(time_of_sample(2_205, 44_100), 50_000);
    for index in 1..2_205i64 {
        let t = time_of_sample(index, 44_100);
        assert!(d.layers.iter().all(|l| !l.envelope.is_silent(t)));
    }
    let t = time_of_sample(100, 44_100);
    assert!(d.layers.iter().all(|l| l.envelope.rise(t) == 1_000_000 && l.envelope.gain > 0));
}
