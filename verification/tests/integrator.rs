use rtrace::integrator::{BounceEvent, PathState, Termination, run_path, ROULETTE_WARMUP_BOUNCES};
use rtrace::materials::MaterialType;

fn plain_surface() -> BounceEvent {
    BounceEvent::Surface {
        alpha_skip: false,
        degenerate_direction: false,
        material: MaterialType::Matte,
        crossed_boundary: false,
        weight_degenerate: false,
        roulette_survived: true,
    }
}

#[test]
fn miss_escapes() {
    let s = run_path(8, &vec![BounceEvent::Miss]);
    assert_eq!(s.finished, Some(Termination::Escaped));
    assert_eq!(s.bounce, 0);
    assert!(!s.hit_alpha);
}

#[test]
fn primary_hit_sets_alpha() {
    let s = run_path(8, &vec![plain_surface(), BounceEvent::Miss]);
    assert!(s.hit_alpha);
    assert_eq!(s.bounce, 1);
    assert_eq!(s.finished, Some(Termination::Escaped));
}

#[test]
fn alpha_skip_consumes_no_budget() {
    // Many skipped surfaces, then a real hit: the skips leave the state
    // untouched, so the real hit still happens at bounce zero.
    let mut events = Vec::new();
    for _ in 0..10 {
        events.push(BounceEvent::Surface {
            alpha_skip: true,
            degenerate_direction: false,
            material: MaterialType::Matte,
            crossed_boundary: false,
            weight_degenerate: false,
            roulette_survived: true,
        });
    }
    events.push(plain_surface());
    let s = run_path(2, &events);
    assert_eq!(s.bounce, 1);
    assert!(s.hit_alpha);
    assert_eq!(s.finished, None);
}

#[test]
fn skipped_primary_hit_leaves_alpha_clear() {
    let skip = BounceEvent::Surface {
        alpha_skip: true,
        degenerate_direction: false,
        material: MaterialType::Matte,
        crossed_boundary: false,
        weight_degenerate: false,
        roulette_survived: true,
    };
    let s = run_path(4, &vec![skip, BounceEvent::Miss]);
    assert!(!s.hit_alpha);
    assert_eq!(s.finished, Some(Termination::Escaped));
}

#[test]
fn degenerate_direction_absorbs() {
    let e = BounceEvent::Surface {
        alpha_skip: false,
        degenerate_direction: true,
        material: MaterialType::Matte,
        crossed_boundary: false,
        weight_degenerate: false,
        roulette_survived: true,
    };
    let s = run_path(8, &vec![e]);
    assert_eq!(s.finished, Some(Termination::Absorbed));
    assert_eq!(s.bounce, 0);
    assert!(s.hit_alpha);
}

#[test]
fn degenerate_weight_extinguishes() {
    let e = BounceEvent::Surface {
        alpha_skip: false,
        degenerate_direction: false,
        material: MaterialType::Matte,
        crossed_boundary: false,
        weight_degenerate: true,
        roulette_survived: true,
    };
    let s = run_path(8, &vec![e]);
    assert_eq!(s.finished, Some(Termination::Extinguished));
    assert_eq!(s.bounce, 0);
}

#[test]
fn roulette_waits_for_warmup() {
    // A failing roulette draw is ignored until the bounce counter has passed
    // the warm-up threshold, then kills the path.
    let e = BounceEvent::Surface {
        alpha_skip: false,
        degenerate_direction: false,
        material: MaterialType::Matte,
        crossed_boundary: false,
        weight_degenerate: false,
        roulette_survived: false,
    };
    let s = run_path(100, &vec![e; 20]);
    assert_eq!(s.finished, Some(Termination::RouletteKilled));
    assert_eq!(s.bounce, ROULETTE_WARMUP_BOUNCES + 1);
}

#[test]
fn surviving_roulette_continues() {
    let s = run_path(100, &vec![plain_surface(); 20]);
    assert_eq!(s.finished, None);
    assert_eq!(s.bounce, 20);
}

#[test]
fn bounce_budget_stops_path() {
    let s = run_path(3, &vec![plain_surface(); 10]);
    assert_eq!(s.finished, None);
    assert_eq!(s.bounce, 3);
}

#[test]
fn medium_stack_push_and_pop() {
    let enter = BounceEvent::Surface {
        alpha_skip: false,
        degenerate_direction: false,
        material: MaterialType::Refractive,
        crossed_boundary: true,
        weight_degenerate: false,
        roulette_survived: true,
    };
    let s = run_path(8, &vec![enter]);
    assert_eq!(s.medium_stack, vec![MaterialType::Refractive]);
    let s = run_path(8, &vec![enter, enter]);
    assert!(s.medium_stack.is_empty());
}

#[test]
fn non_volumetric_crossing_leaves_stack() {
    let e = BounceEvent::Surface {
        alpha_skip: false,
        degenerate_direction: false,
        material: MaterialType::Transparent,
        crossed_boundary: true,
        weight_degenerate: false,
        roulette_survived: true,
    };
    let s = run_path(8, &vec![e]);
    assert!(s.medium_stack.is_empty());
}

#[test]
fn reflection_at_volumetric_boundary_leaves_stack() {
    let e = BounceEvent::Surface {
        alpha_skip: false,
        degenerate_direction: false,
        material: MaterialType::Refractive,
        crossed_boundary: false,
        weight_degenerate: false,
        roulette_survived: true,
    };
    let s = run_path(8, &vec![e]);
    assert!(s.medium_stack.is_empty());
}

#[test]
fn medium_event_scatters_in_place() {
    let enter = BounceEvent::Surface {
        alpha_skip: false,
        degenerate_direction: false,
        material: MaterialType::Volumetric,
        crossed_boundary: true,
        weight_degenerate: false,
        roulette_survived: true,
    };
    let scatter = BounceEvent::Medium {
        degenerate_direction: false,
        weight_degenerate: false,
        roulette_survived: true,
    };
    let s = run_path(8, &vec![enter, scatter, scatter]);
    assert_eq!(s.bounce, 3);
    assert_eq!(s.medium_stack, vec![MaterialType::Volumetric]);
    assert_eq!(s.finished, None);
}

#[test]
fn medium_event_without_medium_is_vacuous() {
    let scatter = BounceEvent::Medium {
        degenerate_direction: false,
        weight_degenerate: false,
        roulette_survived: true,
    };
    let s = run_path(8, &vec![scatter, BounceEvent::Miss]);
    assert_eq!(s.bounce, 0);
    assert_eq!(s.finished, Some(Termination::Escaped));
}

#[test]
fn events_after_termination_are_ignored() {
    let s = run_path(8, &vec![BounceEvent::Miss, plain_surface(), plain_surface()]);
    assert_eq!(s.finished, Some(Termination::Escaped));
    assert_eq!(s.bounce, 0);
}

#[test]
fn stepwise_matches_run() {
    let events = vec![plain_surface(), plain_surface(), BounceEvent::Miss];
    let folded = run_path(8, &events);
    let mut s = PathState::new(8);
    for e in &events {
        if s.done() {
            break;
        }
        s.apply(*e);
    }
    assert_eq!(s.bounce, folded.bounce);
    assert_eq!(s.hit_alpha, folded.hit_alpha);
    assert_eq!(s.finished, folded.finished);
    assert_eq!(s.medium_stack, folded.medium_stack);
}

#[test]
fn current_medium_reports_top() {
    let mut s = PathState::new(8);
    assert!(!s.in_medium());
    assert_eq!(s.current_medium(), None);
    s.apply(BounceEvent::Surface {
        alpha_skip: false,
        degenerate_direction: false,
        material: MaterialType::Subsurface,
        crossed_boundary: true,
        weight_degenerate: false,
        roulette_survived: true,
    });
    assert!(s.in_medium());
    assert_eq!(s.current_medium(), Some(MaterialType::Subsurface));
}
