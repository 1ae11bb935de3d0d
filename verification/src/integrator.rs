use vstd::prelude::*;
use crate::materials::{MaterialType, spec_is_volumetric, is_volumetric};

verus! {

/// How a traced path ends before exhausting its bounce budget.
#[derive(Clone, Copy, Debug, PartialEq, Eq, Structural)]
pub enum Termination {
    /// The ray left the scene; environment emission was collected.
    Escaped,
    /// Direction sampling produced a degenerate (zero-length) direction.
    Absorbed,
    /// The throughput weight became near-zero or non-finite.
    Extinguished,
    /// Russian roulette ended the path.
    RouletteKilled,
}

/// The outcome of one iteration of the bounce loop, reduced to the plain
/// decisions that drive the path's control state. The caller evaluates the
/// scene and the material arithmetic and reports only what the state machine
/// needs; radiance and throughput bookkeeping stay with the caller.
#[derive(Clone, Copy, Debug)]
pub enum BounceEvent {
    /// The ray hit nothing.
    Miss,
    /// The ray hit a surface.
    Surface {
        /// The opacity test failed: the surface is skipped, the ray restarts
        /// just past it, and no bounce budget is consumed.
        alpha_skip: bool,
        /// The sampled next direction was degenerate.
        degenerate_direction: bool,
        /// The family of the material at the hit point.
        material: MaterialType,
        /// The sampled direction crossed the surface (transmission): the signs
        /// of the normal-outgoing and normal-incoming products differ.
        crossed_boundary: bool,
        /// The throughput became near-zero or non-finite after reweighting.
        weight_degenerate: bool,
        /// The Russian-roulette draw survived; consulted only once the bounce
        /// counter has passed the warm-up threshold.
        roulette_survived: bool,
    },
    /// The free-flight distance sampled inside the current medium fell short
    /// of the surface hit: a volumetric scattering event. Meaningful only
    /// while the medium stack is non-empty.
    Medium {
        /// The sampled scattering direction was degenerate.
        degenerate_direction: bool,
        /// The throughput became near-zero or non-finite after reweighting.
        weight_degenerate: bool,
        /// The Russian-roulette draw survived; consulted only once the bounce
        /// counter has passed the warm-up threshold.
        roulette_survived: bool,
    },
}

/// Russian roulette is consulted only once the bounce counter exceeds this
/// warm-up threshold.
pub const ROULETTE_WARMUP_BOUNCES: u32 = 3;

/// The control state of one traced path: how many bounces were consumed, the
/// stack of volumetric media entered and not yet left, whether a real
/// (non-skipped) primary hit was recorded for the alpha channel, and how the
/// path ended, if it has.
#[derive(Clone, Debug)]
pub struct PathState {
    pub bounce: u32,
    pub max_bounces: u32,
    pub hit_alpha: bool,
    pub medium_stack: Vec<MaterialType>,
    pub finished: Option<Termination>,
}

/// Mathematical image of a path state.
#[verifier::ext_equal]
pub struct PathModel {
    pub bounce: int,
    pub max_bounces: int,
    pub hit_alpha: bool,
    pub medium: Seq<MaterialType>,
    pub finished: Option<Termination>,
}

/// A finished or out-of-budget path takes no further transition.
pub open spec fn model_done(m: PathModel) -> bool {
    m.finished is Some || m.bounce >= m.max_bounces
}

/// Only volumetric-class media are ever stacked, and the bounce counter never
/// passes the budget.
pub open spec fn model_wf(m: PathModel) -> bool {
    &&& forall|i: int| 0 <= i < m.medium.len() ==> spec_is_volumetric(m.medium[i])
    &&& m.bounce <= m.max_bounces
}

/// The state a path starts in.
pub open spec fn initial_model(max_bounces: int) -> PathModel {
    PathModel {
        bounce: 0,
        max_bounces: max_bounces,
        hit_alpha: false,
        medium: Seq::empty(),
        finished: None,
    }
}

/// The shared tail of every non-skipped interaction: a degenerate throughput
/// extinguishes the path; past the warm-up threshold a failed roulette draw
/// kills it; otherwise one bounce of the budget is consumed.
pub open spec fn finish_bounce_model(
    m: PathModel,
    weight_degenerate: bool,
    roulette_survived: bool,
) -> PathModel {
    if weight_degenerate {
        PathModel { finished: Some(Termination::Extinguished), ..m }
    } else if m.bounce > ROULETTE_WARMUP_BOUNCES && !roulette_survived {
        PathModel { finished: Some(Termination::RouletteKilled), ..m }
    } else {
        PathModel { bounce: m.bounce + 1, ..m }
    }
}

/// One transition of the bounce state machine. A miss escapes. A skipped
/// surface leaves the state untouched — the retry consumes no budget. A real
/// surface hit records the alpha flag on the primary bounce, absorbs the path
/// on a degenerate direction, and pushes or pops the medium stack when a
/// volumetric boundary is crossed (entering when the stack is empty, leaving
/// otherwise). A medium event scatters in place; with an empty stack it is
/// vacuous.
pub open spec fn step_model(m: PathModel, e: BounceEvent) -> PathModel {
    match e {
        BounceEvent::Miss => PathModel { finished: Some(Termination::Escaped), ..m },
        BounceEvent::Surface {
            alpha_skip,
            degenerate_direction,
            material,
            crossed_boundary,
            weight_degenerate,
            roulette_survived,
        } => {
            if alpha_skip {
                m
            } else {
                let hit = PathModel { hit_alpha: m.hit_alpha || m.bounce == 0, ..m };
                if degenerate_direction {
                    PathModel { finished: Some(Termination::Absorbed), ..hit }
                } else {
                    let moved = if spec_is_volumetric(material) && crossed_boundary {
                        if hit.medium.len() == 0 {
                            PathModel { medium: hit.medium.push(material), ..hit }
                        } else {
                            PathModel { medium: hit.medium.drop_last(), ..hit }
                        }
                    } else {
                        hit
                    };
                    finish_bounce_model(moved, weight_degenerate, roulette_survived)
                }
            }
        },
        BounceEvent::Medium { degenerate_direction, weight_degenerate, roulette_survived } => {
            if m.medium.len() == 0 {
                m
            } else if degenerate_direction {
                PathModel { finished: Some(Termination::Absorbed), ..m }
            } else {
                finish_bounce_model(m, weight_degenerate, roulette_survived)
            }
        },
    }
}

/// Folds a sequence of bounce events over the state machine, stopping as soon
/// as the path is finished or out of budget.
pub open spec fn run_model(m: PathModel, events: Seq<BounceEvent>) -> PathModel
    decreases events.len(),
{
    if events.len() == 0 || model_done(m) {
        m
    } else {
        run_model(step_model(m, events[0]), events.drop_first())
    }
}

impl PathState {
    pub open spec fn model(self) -> PathModel {
        PathModel {
            bounce: self.bounce as int,
            max_bounces: self.max_bounces as int,
            hit_alpha: self.hit_alpha,
            medium: self.medium_stack@,
            finished: self.finished,
        }
    }

    pub open spec fn wf(self) -> bool {
        model_wf(self.model())
    }

    pub open spec fn spec_done(self) -> bool {
        model_done(self.model())
    }

    pub fn new(max_bounces: u32) -> (s: PathState)
        ensures
            s.model() == initial_model(max_bounces as int),
            s.wf(),
    {
        let s = PathState {
            bounce: 0,
            max_bounces,
            hit_alpha: false,
            medium_stack: Vec::new(),
            finished: None,
        };
        proof {
            assert(s.model() =~= initial_model(max_bounces as int));
        }
        s
    }

    /// Whether the path has ended or exhausted its bounce budget.
    pub fn done(&self) -> (r: bool)
        ensures
            r == self.spec_done(),
    {
        self.finished.is_some() || self.bounce >= self.max_bounces
    }

    /// Whether the ray currently travels inside a participating medium, so
    /// that the next bounce may be a volumetric scattering event.
    pub fn in_medium(&self) -> (r: bool)
        ensures
            r == (self.medium_stack@.len() > 0),
    {
        self.medium_stack.len() > 0
    }

    /// The medium the ray currently travels in, if any: the top of the stack.
    pub fn current_medium(&self) -> (r: Option<MaterialType>)
        ensures
            self.medium_stack@.len() == 0 ==> r is None,
            self.medium_stack@.len() > 0 ==> r == Some(self.medium_stack@.last()),
    {
        if self.medium_stack.len() > 0 {
            Some(self.medium_stack[self.medium_stack.len() - 1])
        } else {
            None
        }
    }

    /// Applies one bounce event to the path state.
    pub fn apply(&mut self, e: BounceEvent)
        requires
            !old(self).spec_done(),
            old(self).wf(),
        ensures
            final(self).model() == step_model(old(self).model(), e),
            final(self).wf(),
    {
        match e {
            BounceEvent::Miss => {
                self.finished = Some(Termination::Escaped);
            },
            BounceEvent::Surface {
                alpha_skip,
                degenerate_direction,
                material,
                crossed_boundary,
                weight_degenerate,
                roulette_survived,
            } => {
                if !alpha_skip {
                    if self.bounce == 0 {
                        self.hit_alpha = true;
                    }
                    if degenerate_direction {
                        self.finished = Some(Termination::Absorbed);
                    } else {
                        if is_volumetric(material) && crossed_boundary {
                            if self.medium_stack.len() == 0 {
                                self.medium_stack.push(material);
                            } else {
                                self.medium_stack.pop();
                            }
                        }
                        self.finish_bounce(weight_degenerate, roulette_survived);
                    }
                }
            },
            BounceEvent::Medium { degenerate_direction, weight_degenerate, roulette_survived } => {
                if self.medium_stack.len() > 0 {
                    if degenerate_direction {
                        self.finished = Some(Termination::Absorbed);
                    } else {
                        self.finish_bounce(weight_degenerate, roulette_survived);
                    }
                }
            },
        }
        proof {
            assert(self.model() =~= step_model(old(self).model(), e));
        }
    }

    fn finish_bounce(&mut self, weight_degenerate: bool, roulette_survived: bool)
        requires
            old(self).finished is None,
            old(self).bounce < old(self).max_bounces,
        ensures
            final(self).model() == finish_bounce_model(
                old(self).model(),
                weight_degenerate,
                roulette_survived,
            ),
    {
        if weight_degenerate {
            self.finished = Some(Termination::Extinguished);
        } else if self.bounce > ROULETTE_WARMUP_BOUNCES && !roulette_survived {
            self.finished = Some(Termination::RouletteKilled);
        } else {
            self.bounce = self.bounce + 1;
        }
        proof {
            assert(self.model() =~= finish_bounce_model(
                old(self).model(),
                weight_degenerate,
                roulette_survived,
            ));
        }
    }
}

/// Runs a whole path's worth of bounce events through the state machine: the
/// result is exactly the fold of the events over the transition function,
/// stopped at the first terminal state or at the bounce budget.
pub fn run_path(max_bounces: u32, events: &Vec<BounceEvent>) -> (s: PathState)
    ensures
        s.model() == run_model(initial_model(max_bounces as int), events@),
        s.wf(),
{
    let mut s = PathState::new(max_bounces);
    let ghost init = initial_model(max_bounces as int);
    let mut i: usize = 0;
    proof {
        assert(events@.skip(0) =~= events@);
    }
    while i < events.len()
        invariant
            i <= events@.len(),
            s.wf(),
            run_model(init, events@) == run_model(s.model(), events@.skip(i as int)),
        decreases events@.len() - i,
    {
        if s.done() {
            proof {
                assert(run_model(s.model(), events@.skip(i as int)) == s.model());
                assert(run_model(s.model(), events@.skip(events@.len() as int)) == s.model());
            }
            i = events.len();
        } else {
            let ghost pre = s.model();
            let ghost rest = events@.skip(i as int);
            s.apply(events[i]);
            proof {
                assert(rest[0] == events@[i as int]);
                assert(rest.drop_first() =~= events@.skip(i as int + 1));
                assert(run_model(pre, rest) == run_model(s.model(), events@.skip(i as int + 1)));
            }
            i = i + 1;
        }
    }
    proof {
        assert(events@.skip(events@.len() as int) =~= Seq::<BounceEvent>::empty());
        assert(run_model(s.model(), events@.skip(events@.len() as int)) == s.model());
    }
    s
}

/// Budget law: a transition taken from a live, well-formed state keeps the
/// bounce counter within the budget and stacks only volumetric media.
pub proof fn lemma_step_preserves_wf(m: PathModel, e: BounceEvent)
    requires
        model_wf(m),
        !model_done(m),
    ensures
        model_wf(step_model(m, e)),
{
}

/// Budget law, whole paths: however a path's events unfold, the bounce
/// counter never passes the budget and the medium stack never holds a
/// non-volumetric family.
pub proof fn lemma_run_preserves_wf(m: PathModel, events: Seq<BounceEvent>)
    requires
        model_wf(m),
    ensures
        model_wf(run_model(m, events)),
    decreases events.len(),
{
    if events.len() > 0 && !model_done(m) {
        lemma_step_preserves_wf(m, events[0]);
        lemma_run_preserves_wf(step_model(m, events[0]), events.drop_first());
    }
}

/// Alpha-skip law: a skipped surface leaves the path state exactly as it was;
/// in particular the retry consumes no bounce budget.
pub proof fn lemma_alpha_skip_consumes_no_budget(m: PathModel, e: BounceEvent)
    requires
        e matches BounceEvent::Surface { alpha_skip, .. } && alpha_skip,
    ensures
        step_model(m, e) == m,
{
}

/// Roulette law: a path is roulette-killed only once its bounce counter has
/// passed the warm-up threshold.
pub proof fn lemma_roulette_only_after_warmup(m: PathModel, e: BounceEvent)
    requires
        m.finished is None,
        step_model(m, e).finished == Some(Termination::RouletteKilled),
    ensures
        m.bounce > ROULETTE_WARMUP_BOUNCES,
{
}

/// Medium-stack law: a transition changes the medium stack only when a
/// volumetric boundary is crossed at a real surface hit, and then by exactly
/// one entry — pushed when the stack was empty, popped otherwise.
pub proof fn lemma_medium_stack_changes(m: PathModel, e: BounceEvent)
    requires
        step_model(m, e).medium != m.medium,
    ensures
        e matches BounceEvent::Surface {
            alpha_skip,
            degenerate_direction,
            material,
            crossed_boundary,
            ..
        } && !alpha_skip && !degenerate_direction && crossed_boundary
            && spec_is_volumetric(material),
        m.medium.len() == 0 ==> step_model(m, e).medium.len() == 1,
        m.medium.len() > 0 ==> step_model(m, e).medium.len() == m.medium.len() - 1,
{
}

} // verus!
