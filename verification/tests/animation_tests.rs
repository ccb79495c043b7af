use recursive_geometry::configuration::Configuration;
use recursive_geometry::main_state::Key;
use recursive_geometry::main_state::MainState;
use recursive_geometry::main_state::Step;
use recursive_geometry::main_state::MAX_PROGRESS_MS;
use recursive_geometry::random::ScriptedSource;

fn fresh(config: Configuration) -> MainState {
    let mut rng = ScriptedSource::new(vec![0]);
    MainState::new(config, 10, &mut rng)
}

#[test]
fn new_generation_starts_at_zero() {
    let s = fresh(Configuration::Triangle);
    assert_eq!(s.progress, 0);
    assert_eq!(s.elapsed, 0);
    assert!(!s.cancelled);
    assert_eq!(s.configuration, Configuration::Triangle);
    assert_eq!(s.next_configuration, Configuration::Triangle);
    assert_eq!(s.max_progress, MAX_PROGRESS_MS);
    assert_eq!(s.triangles.len(), 10);
}

#[test]
fn fade_in_one_unit_per_second_then_holds() {
    let mut s = fresh(Configuration::Triangle);
    let mut rng = ScriptedSource::new(vec![0]);
    for k in 1..=10u64 {
        let step = s.update(1000, &mut rng);
        assert_eq!(step, Step::Continued);
        assert_eq!(s.progress, 1000 * k);
        assert!(!s.cancelled);
    }
    // at the maximum the progress holds
    for _ in 0..5 {
        let step = s.update(1000, &mut rng);
        assert_eq!(step, Step::Continued);
        assert_eq!(s.progress, MAX_PROGRESS_MS);
    }
}

#[test]
fn progress_never_leaves_range() {
    let mut s = fresh(Configuration::Square);
    let mut rng = ScriptedSource::new(vec![0]);
    let deltas = [0u64, 7, 1000, 1_000_000_000, 3, 0, 999, 1_000_000_000, 42];
    for d in deltas {
        s.update(d, &mut rng);
        assert!(s.progress <= s.max_progress);
    }
}

#[test]
fn fade_out_five_times_faster_then_replacement() {
    let mut s = fresh(Configuration::Triangle);
    let mut rng = ScriptedSource::new(vec![0]);
    s.update(1000, &mut rng);
    s.update(1000, &mut rng);
    assert_eq!(s.progress, 2000);
    s.transition_to_same();
    assert!(s.cancelled);
    // fade-out: 200 ms of frame time remove 1000 ms of progress
    let step = s.update(200, &mut rng);
    assert_eq!(step, Step::Continued);
    assert_eq!(s.progress, 1000);
    // the next frame empties the progress: hard replacement
    let step = s.update(200, &mut rng);
    assert_eq!(step, Step::Regenerated);
    assert_eq!(s.progress, 0);
    assert_eq!(s.elapsed, 0);
    assert!(!s.cancelled);
    assert_eq!(s.configuration, Configuration::Triangle);
}

#[test]
fn forced_reseed_after_twenty_seconds() {
    let mut s = fresh(Configuration::Triangle);
    let mut rng = ScriptedSource::new(vec![0]);
    for _ in 0..20 {
        let step = s.update(1000, &mut rng);
        assert_eq!(step, Step::Continued);
        assert!(!s.cancelled);
    }
    // the 21st second crosses the threshold: fade-out toward the same shape
    let step = s.update(1000, &mut rng);
    assert_eq!(step, Step::Continued);
    assert!(s.cancelled);
    assert_eq!(s.next_configuration, Configuration::Triangle);
    assert_eq!(s.progress, MAX_PROGRESS_MS - 5000);
    // one more second finishes the fade-out
    let step = s.update(1000, &mut rng);
    assert_eq!(step, Step::Regenerated);
    assert_eq!(s.configuration, Configuration::Triangle);
}

#[test]
fn transition_while_cancelled_is_ignored() {
    let mut s = fresh(Configuration::Triangle);
    s.transition_to(Configuration::NGon(5));
    assert!(s.cancelled);
    assert_eq!(s.next_configuration, Configuration::NGon(5));
    s.transition_to(Configuration::Square);
    assert_eq!(s.next_configuration, Configuration::NGon(5));
}

#[test]
fn double_transition_lands_on_first_target() {
    let mut s = fresh(Configuration::Triangle);
    let mut rng = ScriptedSource::new(vec![0]);
    s.update(1000, &mut rng);
    s.transition_to(Configuration::NGon(5));
    s.transition_to(Configuration::NGon(5));
    assert_eq!(s.next_configuration, Configuration::NGon(5));
    // drive the fade-out to completion
    let mut replaced = false;
    for _ in 0..10 {
        if s.update(1000, &mut rng) == Step::Regenerated {
            replaced = true;
            break;
        }
    }
    assert!(replaced);
    assert_eq!(s.configuration, Configuration::NGon(5));
    assert_eq!(s.next_configuration, Configuration::NGon(5));
    assert_eq!(s.progress, 0);
    assert_eq!(s.triangles.len(), 10);
}

#[test]
fn keys_select_shapes() {
    let mut s = fresh(Configuration::Triangle);
    s.input(Key::Key1);
    assert_eq!(s.next_configuration, Configuration::Square);
    let mut s = fresh(Configuration::Square);
    s.input(Key::Key2);
    assert_eq!(s.next_configuration, Configuration::Triangle);
    let mut s = fresh(Configuration::Triangle);
    s.input(Key::Key7);
    assert_eq!(s.next_configuration, Configuration::NGon(7));
    let mut s = fresh(Configuration::NGon(6));
    s.input(Key::Space);
    assert_eq!(s.next_configuration, Configuration::NGon(6));
    assert!(s.cancelled);
}

#[test]
fn seed_count_beyond_budget_kept_whole() {
    let mut rng = ScriptedSource::new(vec![0]);
    let s = MainState::new(Configuration::NGon(9), 5, &mut rng);
    assert_eq!(s.triangles.len(), 9);
    assert_eq!(s.passes, 0);
}
