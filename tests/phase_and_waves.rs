use audio_dsp::capture::CaptureWindow;
use audio_dsp::oscillator::{Generator, Oscillator};
use audio_dsp::phase::Phase;
use audio_dsp::stereo::interleave;
use audio_dsp::waveform::{level, Shape};

#[test]
fn phase_starts_at_zero_and_wraps() {
    let mut p = Phase::new(10);
    assert_eq!(p.numerator(), 0);
    assert_eq!(p.resolution(), 10);
    p.advance(7);
    assert_eq!(p.numerator(), 7);
    p.advance(7);
    assert_eq!(p.numerator(), 4);
    p.advance(26);
    assert_eq!(p.numerator(), 0);
}

#[test]
fn phase_advance_with_largest_step() {
    let mut p = Phase::new(u32::MAX);
    p.advance(u32::MAX - 1);
    assert_eq!(p.numerator(), u32::MAX - 1);
    p.advance(u32::MAX);
    assert_eq!(p.numerator(), u32::MAX - 1);
    p.advance(3);
    assert_eq!(p.numerator(), 2);
}

#[test]
fn phase_tick_reads_before_the_step() {
    let mut p = Phase::new(8);
    assert_eq!(p.tick(3), 0);
    assert_eq!(p.tick(5), 3);
    assert_eq!(p.tick(1), 0);
    assert_eq!(p.numerator(), 1);
}

#[test]
fn oscillator_steps_through_the_period() {
    let mut o = Oscillator::new(44100, 440);
    assert_eq!(o.step(), 440);
    assert_eq!(o.resolution(), 44100);
    let mut expected: u64 = 0;
    for _ in 0..500 {
        assert_eq!(o.tick() as u64, expected);
        expected = (expected + 440) % 44100;
    }
}

#[test]
fn oscillator_with_zero_step_stays_put() {
    let mut o = Oscillator::new(100, 0);
    for _ in 0..10 {
        assert_eq!(o.tick(), 0);
    }
}

#[test]
fn saw_levels() {
    assert_eq!(level(Shape::Saw, 0, 100), -100);
    assert_eq!(level(Shape::Saw, 25, 100), -50);
    assert_eq!(level(Shape::Saw, 50, 100), 0);
    assert_eq!(level(Shape::Saw, 99, 100), 98);
}

#[test]
fn square_levels() {
    assert_eq!(level(Shape::Square, 0, 100), -100);
    assert_eq!(level(Shape::Square, 50, 100), -100);
    assert_eq!(level(Shape::Square, 51, 100), 100);
    assert_eq!(level(Shape::Square, 99, 100), 100);
}

#[test]
fn triangle_levels() {
    assert_eq!(level(Shape::Triangle, 0, 100), -100);
    assert_eq!(level(Shape::Triangle, 25, 100), 0);
    assert_eq!(level(Shape::Triangle, 50, 100), 100);
    assert_eq!(level(Shape::Triangle, 75, 100), 0);
    assert_eq!(level(Shape::Triangle, 99, 100), -96);
}

#[test]
fn levels_stay_within_one_at_every_phase() {
    for shape in [Shape::Saw, Shape::Square, Shape::Triangle] {
        for num in 0..1000u32 {
            let l = level(shape, num, 1000);
            assert!(-1000 <= l && l <= 1000);
        }
    }
}

#[test]
fn generator_repeats_after_one_period() {
    // 441 Hz divides 44100 Hz: one period is 100 samples.
    for shape in [Shape::Saw, Shape::Square, Shape::Triangle] {
        let mut g = Generator::new(shape, 44100, 441);
        assert_eq!(g.shape(), shape);
        assert_eq!(g.resolution(), 44100);
        let first: Vec<i64> = (0..100).map(|_| g.evaluate()).collect();
        let second: Vec<i64> = (0..100).map(|_| g.evaluate()).collect();
        assert_eq!(first, second);
        assert_eq!(first[0], level(shape, 0, 44100));
        assert_eq!(first[1], level(shape, 441, 44100));
    }
}

#[test]
fn generator_saw_ramps_up() {
    let mut g = Generator::new(Shape::Saw, 10, 2);
    let got: Vec<i64> = (0..6).map(|_| g.evaluate()).collect();
    assert_eq!(got, vec![-10, -6, -2, 2, 6, -10]);
}

#[test]
fn sine_read_at_oscillator_phases_stays_within_amplitude_and_offset() {
    let amplitude = 0.3f64;
    let offset = -0.2f64;
    let mut o = Oscillator::new(44_100_000, 440_000);
    for _ in 0..44100 {
        let p = o.tick() as f64 / o.resolution() as f64;
        let out = (2.0 * std::f64::consts::PI * p).sin() * amplitude + offset;
        assert!(out.abs() <= amplitude.abs() + offset.abs());
    }
}

#[test]
fn three_sines_start_at_phase_zero() {
    let mut oscillators = vec![
        Oscillator::new(44_100_000, 440_000),
        Oscillator::new(44_100_000, 220_000),
        Oscillator::new(44_100_000, 330_000),
    ];
    let mut total = 0.0f64;
    for o in oscillators.iter_mut() {
        let num = o.tick();
        assert_eq!(num, 0);
        total += (2.0 * std::f64::consts::PI * num as f64 / 44_100_000.0).sin() * 0.1;
    }
    assert_eq!(total, 0.0);
}

#[test]
fn interleave_two_channels() {
    assert_eq!(interleave(&vec![1, 2, 3], 2), vec![1, 1, 2, 2, 3, 3]);
}

#[test]
fn interleave_edge_cases() {
    assert_eq!(interleave(&vec![0.5f32, -0.5], 1), vec![0.5f32, -0.5]);
    assert_eq!(interleave(&vec![7u8, 8], 0), Vec::<u8>::new());
    assert_eq!(interleave(&Vec::<i32>::new(), 2), Vec::<i32>::new());
    assert_eq!(interleave(&vec!['a'], 3), vec!['a', 'a', 'a']);
}

#[test]
fn capture_keeps_the_first_samples() {
    let mut w: CaptureWindow<i32> = CaptureWindow::new(3);
    assert_eq!(w.size(), 3);
    assert!(!w.is_complete());
    assert!(!w.offer(10));
    assert!(!w.offer(20));
    assert!(w.offer(30));
    assert!(w.offer(40));
    assert!(w.is_complete());
    assert_eq!(w.samples(), &vec![10, 20, 30]);
    assert_eq!(w.into_samples(), vec![10, 20, 30]);
}

#[test]
fn capture_of_length_zero_is_complete_at_once() {
    let mut w: CaptureWindow<f64> = CaptureWindow::new(0);
    assert!(w.is_complete());
    assert!(w.offer(1.0));
    assert!(w.samples().is_empty());
}
