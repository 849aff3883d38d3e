//! Behavioral tests of the weighted selector, driving it with real random
//! draws and with scripted deterministic draws.

use rand::{Rng, RngExt};
use rand_select::{FixedSource, RandomSelector, UniformSource};

/// Any rand generator as a uniform draw source over `[0, total)`.
struct RandSource<R: Rng>(R);

impl<R: Rng> UniformSource for RandSource<R> {
    fn draw(&mut self, total: u64) -> u64 {
        let t = f64::from_bits(total);
        if !(t > 0.0 && t.is_finite()) {
            return 0;
        }
        self.0.random_range(0.0..t).to_bits()
    }
}

fn bits(w: f64) -> u64 {
    w.to_bits()
}

#[test]
fn empty_selector_always_none() {
    let s = RandomSelector::<char>::default();
    let mut src = RandSource(rand::rng());
    for _ in 0..1000 {
        assert_eq!(s.select_with_rng(&mut src), None);
    }
    assert_eq!(s.total_weight_bits(), bits(0.0));
    assert_eq!(s.choice_count(), 0);
}

#[test]
fn single_certain_choice_always_selected() {
    let s = RandomSelector::default().with(bits(1.0), 'A');
    let mut src = RandSource(rand::rng());
    for _ in 0..1000 {
        assert_eq!(s.select_with_rng(&mut src), Some(&'A'));
    }
    assert_eq!(s.total_weight_bits(), bits(1.0));
}

#[test]
fn two_choices_total_and_frequencies() {
    let s = RandomSelector::default().with(bits(1.0), 'A').with(bits(1.5), 'B');
    assert_eq!(s.total_weight_bits(), bits(2.5));
    let mut src = RandSource(rand::rng());
    let n = 200_000;
    let mut a = 0u32;
    let mut b = 0u32;
    for _ in 0..n {
        match s.select_with_rng(&mut src) {
            Some(&'A') => a += 1,
            Some(&'B') => b += 1,
            other => panic!("unexpected selection {:?}", other),
        }
    }
    let fa = a as f64 / n as f64;
    let fb = b as f64 / n as f64;
    assert!((fa - 0.4).abs() < 0.02, "frequency of A was {}", fa);
    assert!((fb - 0.6).abs() < 0.02, "frequency of B was {}", fb);
}

#[test]
fn none_mass_total_and_frequency() {
    let s = RandomSelector::default()
        .with(bits(1.0), 'A')
        .with(bits(1.5), 'B')
        .with_none(bits(2.5));
    assert_eq!(s.total_weight_bits(), bits(5.0));
    let mut src = RandSource(rand::rng());
    let n = 200_000;
    let mut none = 0u32;
    for _ in 0..n {
        if s.select_with_rng(&mut src).is_none() {
            none += 1;
        }
    }
    let fnone = none as f64 / n as f64;
    assert!((fnone - 0.5).abs() < 0.02, "frequency of no value was {}", fnone);
}

#[test]
fn override_total_exactly() {
    let s = RandomSelector::default()
        .with(bits(0.1), 'A')
        .with(bits(0.2), 'B')
        .with_none_up_to(bits(1.0));
    assert_eq!(s.total_weight_bits(), bits(1.0));
    let mut src = RandSource(rand::rng());
    let n = 200_000;
    let mut none = 0u32;
    for _ in 0..n {
        if s.select_with_rng(&mut src).is_none() {
            none += 1;
        }
    }
    let fnone = none as f64 / n as f64;
    assert!((fnone - 0.7).abs() < 0.02, "frequency of no value was {}", fnone);
}

#[test]
fn override_can_shrink_total() {
    let s = RandomSelector::default().with(bits(3.0), 'A').with_none_up_to(bits(2.0));
    assert_eq!(s.total_weight_bits(), bits(2.0));
    // Every draw in [0, 2) still falls below the cumulative sum 3.0.
    let mut src = RandSource(rand::rng());
    for _ in 0..1000 {
        assert_eq!(s.select_with_rng(&mut src), Some(&'A'));
    }
}

#[test]
fn zero_weights_always_none() {
    let s = RandomSelector::default().with(bits(0.0), 'A').with(bits(-0.0), 'B');
    assert_eq!(s.total_weight_bits(), bits(0.0));
    let mut src = RandSource(rand::rng());
    for _ in 0..1000 {
        assert_eq!(s.select_with_rng(&mut src), None);
    }
}

#[test]
fn deterministic_draws_follow_manual_scan() {
    // Weights [1.0, 1.5], total 2.5: a draw of 0.5 falls below the cumulative
    // sum 1.0 and selects 'A'; a draw of 2.0 passes 1.0, falls below 2.5, and
    // selects 'B'.
    let s = RandomSelector::default().with(bits(1.0), 'A').with(bits(1.5), 'B');
    let mut src = FixedSource::new(vec![bits(0.5), bits(2.0)]);
    assert_eq!(s.select_with_rng(&mut src), Some(&'A'));
    assert_eq!(s.select_with_rng(&mut src), Some(&'B'));
    assert_eq!(s.select_with_draw(bits(0.5)), Some(&'A'));
    assert_eq!(s.select_with_draw(bits(2.0)), Some(&'B'));
    assert_eq!(s.select_with_draw(bits(0.0)), Some(&'A'));
    assert_eq!(s.select_with_draw(bits(2.4999)), Some(&'B'));
}

#[test]
fn boundary_draw_is_exclusive() {
    // A draw exactly equal to a cumulative sum must not select that choice.
    let s = RandomSelector::default().with(bits(1.0), 'A').with(bits(1.5), 'B');
    assert_eq!(s.select_with_draw(bits(1.0)), Some(&'B'));
    // A draw equal to the final cumulative sum selects nothing at all.
    assert_eq!(s.select_with_draw(bits(2.5)), None);
}

#[test]
fn negative_weight_is_unreachable() {
    // total = |-1.0| + |2.0| = 3.0, but the scan sums raw weights:
    // cumulative after 'A' is -1.0, after 'B' is 1.0.
    let s = RandomSelector::default().with(bits(-1.0), 'A').with(bits(2.0), 'B');
    assert_eq!(s.total_weight_bits(), bits(3.0));
    assert_eq!(s.select_with_draw(bits(0.0)), Some(&'B'));
    assert_eq!(s.select_with_draw(bits(0.5)), Some(&'B'));
    assert_eq!(s.select_with_draw(bits(1.0)), None);
    assert_eq!(s.select_with_draw(bits(1.5)), None);
    assert_eq!(s.select_with_draw(bits(2.9)), None);
    let mut src = RandSource(rand::rng());
    for _ in 0..10_000 {
        assert_ne!(s.select_with_rng(&mut src), Some(&'A'));
    }
}

#[test]
fn non_finite_totals_select_nothing() {
    let nan = RandomSelector::default().with(bits(f64::NAN), 'A');
    assert!(f64::from_bits(nan.total_weight_bits()).is_nan());
    let mut src = RandSource(rand::rng());
    assert_eq!(nan.select_with_rng(&mut src), None);
    assert_eq!(nan.select_with_draw(bits(0.5)), None);

    let inf = RandomSelector::default().with(bits(f64::INFINITY), 'A');
    assert_eq!(inf.total_weight_bits(), bits(f64::INFINITY));
    assert_eq!(inf.select_with_rng(&mut src), None);
    // A direct draw still scans: any finite draw falls below the infinite
    // cumulative sum.
    assert_eq!(inf.select_with_draw(bits(7.0)), Some(&'A'));
}

#[test]
fn fixed_source_replaces_out_of_range_draws() {
    let s = RandomSelector::default().with(bits(1.0), 'A').with(bits(1.5), 'B');
    // 9.0 lies outside [0, 2.5) and is replaced by 0.0, which selects 'A';
    // an exhausted script also draws 0.0.
    let mut src = FixedSource::new(vec![bits(9.0)]);
    assert_eq!(s.select_with_rng(&mut src), Some(&'A'));
    assert_eq!(s.select_with_rng(&mut src), Some(&'A'));
}
