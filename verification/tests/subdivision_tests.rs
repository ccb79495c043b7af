use recursive_geometry::configuration::Configuration;
use recursive_geometry::random::RandomSource;
use recursive_geometry::random::ScriptedSource;
use recursive_geometry::random::ThreadSource;
use recursive_geometry::subdivision::subdivide;
use recursive_geometry::subdivision::subdivide_until_budget;
use recursive_geometry::subdivision::CHANCE_THRESHOLD;
use recursive_geometry::subdivision::MAX_PASSES;

#[test]
fn scripted_source_cycles() {
    let mut s = ScriptedSource::new(vec![0, u32::MAX]);
    assert_eq!(s.next_unit(), 0);
    assert_eq!(s.next_unit(), u32::MAX);
    assert_eq!(s.next_unit(), 0);
    assert_eq!(s.next_unit(), u32::MAX);
}

#[test]
fn chance_threshold_is_a_tenth() {
    // 0.1 * 2^32, rounded down
    assert_eq!(CHANCE_THRESHOLD, 429496729);
}

#[test]
fn one_pass_emits_selected_children() {
    let mut tris = Configuration::Triangle.get_triangles();
    let mut counter: u64 = 0;
    // emit the central child and the third corner child only
    let mut rng = ScriptedSource::new(vec![0, u32::MAX, u32::MAX, 0]);
    let more = subdivide(&mut tris, 100, &mut counter, &mut rng);
    assert!(more);
    assert_eq!(tris.len(), 3);
    assert_eq!(counter, 2);
    assert_eq!(tris[0].progress, 0);
    assert_eq!(tris[1].progress, 1);
    assert_eq!(tris[2].progress, 2);
}

#[test]
fn deterministic_growth_to_budget() {
    // every trial emits: pass one takes the single seed to 5 triangles,
    // pass two appends 20 children and the set is truncated at the budget
    let seeds = Configuration::Triangle.get_triangles();
    let mut rng = ScriptedSource::new(vec![0]);
    let (tris, passes) = subdivide_until_budget(seeds, 10, &mut rng);
    assert_eq!(tris.len(), 10);
    assert_eq!(passes, 2);
    let births: Vec<u64> = tris.iter().map(|t| t.progress).collect();
    assert_eq!(births, vec![0, 1, 2, 3, 4, 5, 6, 7, 8, 9]);
}

#[test]
fn no_luck_hits_the_pass_cap() {
    // a source that never emits: the set never grows and the safety cap ends
    // the loop
    let seeds = Configuration::Triangle.get_triangles();
    let mut rng = ScriptedSource::new(vec![u32::MAX]);
    let (tris, passes) = subdivide_until_budget(seeds, 10, &mut rng);
    assert_eq!(tris.len(), 1);
    assert_eq!(passes, MAX_PASSES);
}

#[test]
fn seeds_meeting_budget_stay_untouched() {
    let seeds = Configuration::NGon(9).get_triangles();
    let mut rng = ScriptedSource::new(vec![0]);
    let (tris, passes) = subdivide_until_budget(seeds, 5, &mut rng);
    assert_eq!(tris.len(), 9);
    assert_eq!(passes, 0);
    for t in &tris {
        assert_eq!(t.progress, 0);
    }
}

#[test]
fn thread_randomness_reaches_budget_with_unique_births() {
    let seeds = Configuration::Triangle.get_triangles();
    let mut rng = ThreadSource;
    let (tris, passes) = subdivide_until_budget(seeds, 500, &mut rng);
    assert!(tris.len() <= 500);
    assert!(tris.len() == 500 || passes == MAX_PASSES);
    // birth orders strictly increase past the seed prefix
    for w in tris[1..].windows(2) {
        assert!(w[0].progress < w[1].progress);
    }
    assert_eq!(tris[0].progress, 0);
}
