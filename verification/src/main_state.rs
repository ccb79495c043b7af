use vstd::prelude::*;

use crate::configuration::Configuration;
use crate::configuration::config_wf;
use crate::configuration::seed_count;
use crate::configuration::seed_shape;
use crate::random::RandomSource;
use crate::subdivision::MAX_PASSES;
use crate::subdivision::births_consecutive;
use crate::subdivision::fractal_ordered;
use crate::subdivision::set_in_canvas;
use crate::subdivision::subdivide_until_budget;
use crate::triangle::TriangleNode;

verus! {

/// Budget of the subdivision: a generation stops growing at this many
/// triangles.
pub const MAX_TRIANGLES: usize = 400000;

/// Length of the fade-in, in milliseconds.
pub const MAX_PROGRESS_MS: u64 = 10000;

/// A generation is reseeded with its own shape once it has lived this long,
/// in milliseconds.
pub const RESEED_AFTER_MS: u64 = 20000;

/// The fade-out runs this many times faster than the fade-in.
pub const FADE_OUT_RATE: u64 = 5;

/// What one frame update did to the generation.
#[derive(Clone, Copy, PartialEq, Eq, Structural, Debug)]
pub enum Step {
    /// The running generation goes on, fading in or out.
    Continued,
    /// The fade-out completed: the generation was replaced wholesale by a
    /// fresh one built from the queued configuration.
    Regenerated,
}

/// The keys that drive the visualization: digits pick a shape, space
/// reshuffles the current one.
#[derive(Clone, Copy, PartialEq, Eq, Structural, Debug)]
pub enum Key {
    Space,
    Key1,
    Key2,
    Key3,
    Key4,
    Key5,
    Key6,
    Key7,
    Key8,
    Key9,
}

/// The shape a key requests, given the active configuration: space requests
/// the active shape again, 1 the square, 2 the triangle, 3 to 9 an n-gon.
pub open spec fn key_target(k: Key, current: Configuration) -> Configuration {
    match k {
        Key::Space => current,
        Key::Key1 => Configuration::Square,
        Key::Key2 => Configuration::Triangle,
        Key::Key3 => Configuration::NGon(3),
        Key::Key4 => Configuration::NGon(4),
        Key::Key5 => Configuration::NGon(5),
        Key::Key6 => Configuration::NGon(6),
        Key::Key7 => Configuration::NGon(7),
        Key::Key8 => Configuration::NGon(8),
        Key::Key9 => Configuration::NGon(9),
    }
}

/// The elapsed clock after a frame of `d` milliseconds: it saturates just
/// past the reseed threshold, where its exact value no longer matters.
pub open spec fn cap_elapsed(e: int, d: int) -> int {
    if e + d <= RESEED_AFTER_MS + 1 {
        e + d
    } else {
        RESEED_AFTER_MS + 1
    }
}

/// The progress after one fade-in step of `delta`: it grows by `delta` and
/// holds at `maxp`.
pub open spec fn fade_in_step(p: int, delta: int, maxp: int) -> int {
    if p + delta <= maxp {
        p + delta
    } else {
        maxp
    }
}

/// The progress after `k` fade-in steps of `delta` starting from zero.
pub open spec fn fade_in_after(k: nat, delta: int, maxp: int) -> int
    decreases k,
{
    if k == 0 {
        0
    } else {
        fade_in_step(fade_in_after((k - 1) as nat, delta, maxp), delta, maxp)
    }
}

/// Law: starting from progress zero and never fading out, repeated updates
/// of `delta` each raise the progress by exactly `delta` until it reaches
/// the maximum, then hold it there: after `k` steps it is min(k·delta, maxp).
pub proof fn lemma_fade_in_progression(k: nat, delta: int, maxp: int)
    requires
        0 <= delta,
        0 <= maxp,
    ensures
        fade_in_after(k, delta, maxp) == if k * delta <= maxp {
            k * delta
        } else {
            maxp
        },
    decreases k,
{
    if k == 0 {
        assert(k * delta == 0) by (nonlinear_arith)
            requires
                k == 0,
        ;
    } else {
        let km1 = (k - 1) as nat;
        lemma_fade_in_progression(km1, delta, maxp);
        let prev = fade_in_after(km1, delta, maxp);
        assert(fade_in_after(k, delta, maxp) == fade_in_step(prev, delta, maxp));
        assert(km1 * delta + delta == k * delta) by (nonlinear_arith)
            requires
                km1 == k - 1,
        ;
        if km1 * delta <= maxp {
            assert(prev == km1 * delta);
        } else {
            assert(prev == maxp);
            assert(k * delta > maxp);
        }
    }
}

/// The progress after `k` fade-out steps of `delta` starting from `p0`,
/// while no step empties it.
pub open spec fn fade_out_after(k: nat, p0: int, delta: int) -> int
    decreases k,
{
    if k == 0 {
        p0
    } else {
        fade_out_after((k - 1) as nat, p0, delta) - FADE_OUT_RATE * delta
    }
}

/// Law: while it stays above FADE_OUT_RATE times `delta`, each fade-out
/// update removes exactly FADE_OUT_RATE times `delta` from the progress:
/// after `k` steps it is p0 - k * FADE_OUT_RATE * delta.  Once a step would
/// empty it, the generation is replaced instead and the progress restarts
/// at zero.
pub proof fn lemma_fade_out_progression(k: nat, p0: int, delta: int)
    ensures
        fade_out_after(k, p0, delta) == p0 - k * (FADE_OUT_RATE * delta),
    decreases k,
{
    if k > 0 {
        let km1 = (k - 1) as nat;
        lemma_fade_out_progression(km1, p0, delta);
        assert(km1 * (FADE_OUT_RATE * delta) + FADE_OUT_RATE * delta == k * (FADE_OUT_RATE
            * delta)) by (nonlinear_arith)
            requires
                km1 == k - 1,
        ;
    } else {
        assert(k * (FADE_OUT_RATE * delta) == 0) by (nonlinear_arith)
            requires
                k == 0,
        ;
    }
}

/// One generation of the visualization: the subdivided triangle set of the
/// active shape, the fade state, and the shape queued for the next
/// generation.
pub struct MainState {
    /// True while fading out toward a regeneration.
    pub cancelled: bool,
    /// The global fade value, in [0, max_progress] milliseconds.
    pub progress: u64,
    /// The fixed fade-in duration, in milliseconds.
    pub max_progress: u64,
    /// Lifetime of this generation so far, in milliseconds; saturates just
    /// past the reseed threshold.
    pub elapsed: u64,
    /// The triangle budget handed to the subdivision.
    pub max_triangles: usize,
    /// The shape of this generation.
    pub configuration: Configuration,
    /// The shape queued for the next generation.
    pub next_configuration: Configuration,
    /// The subdivided triangle set, read-only for the generation's life.
    pub triangles: Vec<TriangleNode>,
    /// How many subdivision passes the construction ran (diagnostics).
    pub passes: u64,
}

impl MainState {
    /// The generation's invariant.
    pub open spec fn wf(self) -> bool {
        &&& self.progress <= self.max_progress
        &&& self.max_progress == MAX_PROGRESS_MS
        &&& self.elapsed <= RESEED_AFTER_MS + 1
        &&& config_wf(self.configuration)
        &&& config_wf(self.next_configuration)
        &&& seed_count(self.configuration) <= 100_000_000
        &&& seed_count(self.next_configuration) <= 100_000_000
        &&& 1 <= self.max_triangles <= 100_000_000
        &&& 1 <= self.triangles@.len() <= 100_000_000
        &&& forall|j: int|
            0 <= j < self.triangles@.len() ==> (#[trigger] self.triangles@[j]).progress
                < self.triangles@.len()
        &&& set_in_canvas(self.triangles@)
    }

    /// Builds a fresh generation: seeds the shape, subdivides until the
    /// budget or the pass cap is reached, and starts the fade-in at zero.
    pub fn new<R: RandomSource>(
        configuration: Configuration,
        max_triangles: usize,
        rng: &mut R,
    ) -> (s: MainState)
        requires
            config_wf(configuration),
            1 <= max_triangles <= 100_000_000,
            seed_count(configuration) <= 100_000_000,
        ensures
            s.wf(),
            s.configuration == configuration,
            s.next_configuration == configuration,
            s.progress == 0,
            s.elapsed == 0,
            !s.cancelled,
            s.max_progress == MAX_PROGRESS_MS,
            s.max_triangles == max_triangles,
            s.triangles@.len() >= seed_count(configuration),
            seed_count(configuration) >= max_triangles ==> s.triangles@.len() == seed_count(
                configuration,
            ),
            seed_count(configuration) < max_triangles ==> s.triangles@.len() <= max_triangles,
            seed_count(configuration) < max_triangles && s.passes < MAX_PASSES
                ==> s.triangles@.len() == max_triangles,
            forall|j: int|
                0 <= j < seed_count(configuration) ==> (#[trigger] s.triangles@[j]).progress == 0,
            births_consecutive(s.triangles@, seed_count(configuration)),
            fractal_ordered(s.triangles@, seed_count(configuration)),
            seed_shape(s.triangles@.subrange(0, seed_count(configuration)), configuration),
    {
        let seeds = configuration.get_triangles();
        let ghost seed_view = seeds@;
        let (triangles, passes) = subdivide_until_budget(seeds, max_triangles, rng);
        proof {
            assert forall|j: int| 0 <= j < seed_view.len() implies (#[trigger] triangles@[j])
                == seed_view[j] by {
                assert(triangles@.subrange(0, seed_view.len() as int)[j] == triangles@[j]);
            }
            assert forall|j: int|
                0 <= j < triangles@.len() implies (#[trigger] triangles@[j]).progress
                < triangles@.len() by {
                if j < seed_view.len() {
                    assert(triangles@[j].progress == 0);
                } else {
                    assert(triangles@[j].progress == j - seed_view.len() + 1);
                }
            }
        }
        MainState {
            cancelled: false,
            progress: 0,
            max_progress: MAX_PROGRESS_MS,
            elapsed: 0,
            max_triangles,
            configuration,
            next_configuration: configuration,
            triangles,
            passes,
        }
    }

    /// Queues a transition: unless a fade-out is already under way, starts
    /// fading out toward the given shape.  While `cancelled` the call is a
    /// no-op, so at most one transition is pending.
    pub fn transition_to(&mut self, next: Configuration)
        requires
            old(self).wf(),
            config_wf(next),
            seed_count(next) <= 100_000_000,
        ensures
            final(self).wf(),
            old(self).cancelled ==> *final(self) == *old(self),
            !old(self).cancelled ==> {
                &&& final(self).cancelled
                &&& final(self).next_configuration == next
                &&& final(self).configuration == old(self).configuration
                &&& final(self).progress == old(self).progress
                &&& final(self).max_progress == old(self).max_progress
                &&& final(self).elapsed == old(self).elapsed
                &&& final(self).max_triangles == old(self).max_triangles
                &&& final(self).triangles == old(self).triangles
                &&& final(self).passes == old(self).passes
            },
    {
        if self.cancelled {
            return ;
        }
        self.cancelled = true;
        self.next_configuration = next;
    }

    /// Queues a transition to the current shape: the manual reshuffle, and
    /// the forced periodic reseed.
    pub fn transition_to_same(&mut self)
        requires
            old(self).wf(),
        ensures
            final(self).wf(),
            old(self).cancelled ==> *final(self) == *old(self),
            !old(self).cancelled ==> {
                &&& final(self).cancelled
                &&& final(self).next_configuration == old(self).configuration
                &&& final(self).configuration == old(self).configuration
                &&& final(self).progress == old(self).progress
                &&& final(self).max_progress == old(self).max_progress
                &&& final(self).elapsed == old(self).elapsed
                &&& final(self).max_triangles == old(self).max_triangles
                &&& final(self).triangles == old(self).triangles
                &&& final(self).passes == old(self).passes
            },
    {
        let conf = self.configuration;
        self.transition_to(conf);
    }

    /// Applies a key: space reshuffles the current shape, the digits queue
    /// the shape they stand for.  Ignored while a fade-out is under way.
    pub fn input(&mut self, key: Key)
        requires
            old(self).wf(),
        ensures
            final(self).wf(),
            old(self).cancelled ==> *final(self) == *old(self),
            !old(self).cancelled ==> {
                &&& final(self).cancelled
                &&& final(self).next_configuration == key_target(key, old(self).configuration)
                &&& final(self).configuration == old(self).configuration
                &&& final(self).progress == old(self).progress
                &&& final(self).elapsed == old(self).elapsed
                &&& final(self).max_triangles == old(self).max_triangles
                &&& final(self).triangles == old(self).triangles
            },
    {
        match key {
            Key::Space => self.transition_to_same(),
            Key::Key1 => self.transition_to(Configuration::Square),
            Key::Key2 => self.transition_to(Configuration::Triangle),
            Key::Key3 => self.transition_to(Configuration::NGon(3)),
            Key::Key4 => self.transition_to(Configuration::NGon(4)),
            Key::Key5 => self.transition_to(Configuration::NGon(5)),
            Key::Key6 => self.transition_to(Configuration::NGon(6)),
            Key::Key7 => self.transition_to(Configuration::NGon(7)),
            Key::Key8 => self.transition_to(Configuration::NGon(8)),
            Key::Key9 => self.transition_to(Configuration::NGon(9)),
        }
    }

    /// One frame of the animation, `delta_ms` milliseconds after the last.
    /// Past the reseed threshold the generation starts fading out toward its
    /// own shape.  Fading out runs `FADE_OUT_RATE` times faster than fading
    /// in; when the progress reaches zero the whole generation is replaced
    /// by a fresh one built from the queued shape.  Otherwise the progress
    /// fades in by `delta_ms`, clamped to the maximum.
    pub fn update<R: RandomSource>(&mut self, delta_ms: u64, rng: &mut R) -> (step: Step)
        requires
            old(self).wf(),
            delta_ms <= 1_000_000_000,
        ensures
            final(self).wf(),
            final(self).max_progress == old(self).max_progress,
            final(self).max_triangles == old(self).max_triangles,
            ({
                let e = cap_elapsed(old(self).elapsed as int, delta_ms as int);
                let fading_out = old(self).cancelled || e > RESEED_AFTER_MS;
                let queued = if old(self).cancelled {
                    old(self).next_configuration
                } else if e > RESEED_AFTER_MS {
                    old(self).configuration
                } else {
                    old(self).next_configuration
                };
                &&& (!fading_out ==> {
                    &&& step == Step::Continued
                    &&& final(self).progress == fade_in_step(
                        old(self).progress as int,
                        delta_ms as int,
                        old(self).max_progress as int,
                    )
                    &&& !final(self).cancelled
                    &&& final(self).elapsed == e
                    &&& final(self).configuration == old(self).configuration
                    &&& final(self).next_configuration == old(self).next_configuration
                    &&& final(self).triangles == old(self).triangles
                })
                &&& (fading_out && old(self).progress > FADE_OUT_RATE * delta_ms ==> {
                    &&& step == Step::Continued
                    &&& final(self).progress == old(self).progress - FADE_OUT_RATE * delta_ms
                    &&& final(self).cancelled
                    &&& final(self).elapsed == e
                    &&& final(self).configuration == old(self).configuration
                    &&& final(self).next_configuration == queued
                    &&& final(self).triangles == old(self).triangles
                })
                &&& (fading_out && old(self).progress <= FADE_OUT_RATE * delta_ms ==> {
                    &&& step == Step::Regenerated
                    &&& final(self).progress == 0
                    &&& final(self).elapsed == 0
                    &&& !final(self).cancelled
                    &&& final(self).configuration == queued
                    &&& final(self).next_configuration == queued
                    &&& final(self).triangles@.len() >= seed_count(queued)
                    &&& births_consecutive(final(self).triangles@, seed_count(queued))
                    &&& fractal_ordered(final(self).triangles@, seed_count(queued))
                    &&& seed_shape(
                        final(self).triangles@.subrange(0, seed_count(queued)),
                        queued,
                    )
                })
            }),
    {
        let e = if self.elapsed + delta_ms <= RESEED_AFTER_MS + 1 {
            self.elapsed + delta_ms
        } else {
            RESEED_AFTER_MS + 1
        };
        self.elapsed = e;
        if e > RESEED_AFTER_MS {
            self.transition_to_same();
        }
        if self.cancelled {
            let dec = FADE_OUT_RATE * delta_ms;
            if self.progress <= dec {
                let next = self.next_configuration;
                let maxt = self.max_triangles;
                *self = Self::new(next, maxt, rng);
                Step::Regenerated
            } else {
                self.progress = self.progress - dec;
                Step::Continued
            }
        } else {
            let inc = self.progress + delta_ms;
            self.progress = if inc <= self.max_progress {
                inc
            } else {
                self.max_progress
            };
            Step::Continued
        }
    }
}

} // verus!
