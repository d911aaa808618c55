use rplugin::PluginError;
use rplugin::Rng;
use rplugin::rand;
use rplugin::randomly_fail;
use rplugin::fault::DEFAULT_SEED;

#[test]
fn generator_is_deterministic_for_a_seed() {
    let mut a = Rng::new(42);
    let mut b = Rng::new(42);
    for _ in 0..32 {
        assert_eq!(rand(&mut a), rand(&mut b));
        assert_eq!(a.state, b.state);
    }
}

#[test]
fn zero_seed_falls_back_to_the_default() {
    let r = Rng::new(0);
    assert_eq!(r.state, DEFAULT_SEED);
    assert_ne!(r.state, 0);
}

#[test]
fn known_seeds_draw_known_bits() {
    // Seed 31 samples "fail" on its first draw; seed 1 does not.
    let mut failing = Rng::new(31);
    assert!(rand(&mut failing));
    let mut passing = Rng::new(1);
    assert!(!rand(&mut passing));
}

#[test]
fn disabled_injection_never_fails_and_draws_nothing() {
    let mut rng = Rng::new(31);
    assert_eq!(randomly_fail(false, &mut rng), Ok(()));
    assert_eq!(rng.state, 31);
}

#[test]
fn enabled_injection_fails_on_a_sampled_fail() {
    let mut rng = Rng::new(31);
    assert_eq!(randomly_fail(true, &mut rng), Err(PluginError::FailTriggered));
    assert_ne!(rng.state, 31);
}

#[test]
fn enabled_injection_passes_on_a_sampled_pass() {
    let mut rng = Rng::new(1);
    assert_eq!(randomly_fail(true, &mut rng), Ok(()));
    assert_ne!(rng.state, 1);
}
