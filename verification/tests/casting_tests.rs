use stealth_core::casting::{process_casting, Casting, CastingCommand};
use stealth_core::skills::SkillsState;
use stealth_core::spells::{ConfigError, KindTimes, SpellKind, SpellTimes};

#[test]
fn instant_dash_resolves_in_the_tick_it_is_issued() {
    let times = SpellTimes::standard();
    let mut cast = None;
    let mut skills = SkillsState::new();
    let resolved = process_casting(
        &mut cast,
        &mut skills,
        Some(CastingCommand::Cast(SpellKind::Dash)),
        100,
        &times,
    );
    assert_eq!(resolved, Some(SpellKind::Dash));
    assert!(cast.is_none());
    // the dash has no cooldown, so none is started
    assert!(skills.is_ready(SpellKind::Dash));
}

#[test]
fn cast_from_idle_starts_a_full_bar() {
    let times = SpellTimes::standard();
    let mut cast = None;
    let mut skills = SkillsState::new();
    let resolved = process_casting(
        &mut cast,
        &mut skills,
        Some(CastingCommand::Cast(SpellKind::Smoke)),
        100,
        &times,
    );
    assert_eq!(resolved, None);
    let c = cast.expect("cast in progress");
    assert_eq!(c.kind, SpellKind::Smoke);
    assert_eq!(c.remaining_ms, 1000);
    assert_eq!(c.total_ms, 1000);
}

#[test]
fn recasting_the_same_kind_leaves_the_timer_untouched() {
    let times = SpellTimes::standard();
    let mut cast = Some(Casting {
        kind: SpellKind::Smoke,
        remaining_ms: 700,
        total_ms: 1000,
    });
    let mut skills = SkillsState::new();
    let resolved = process_casting(
        &mut cast,
        &mut skills,
        Some(CastingCommand::Cast(SpellKind::Smoke)),
        100,
        &times,
    );
    assert_eq!(resolved, None);
    let c = cast.expect("still casting");
    // only the natural 100 ms countdown happened: no reset, no re-trigger
    assert_eq!(c.remaining_ms, 600);
    assert_eq!(c.total_ms, 1000);

    // a second identical command in the next tick behaves the same way
    let resolved = process_casting(
        &mut cast,
        &mut skills,
        Some(CastingCommand::Cast(SpellKind::Smoke)),
        100,
        &times,
    );
    assert_eq!(resolved, None);
    assert_eq!(cast.expect("still casting").remaining_ms, 500);
}

#[test]
fn interrupt_mid_cast_resolves_nothing_and_starts_no_cooldown() {
    let times = SpellTimes::standard();
    // a 1.0 s cast, interrupted at t = 0.5 s
    let mut cast = None;
    let mut skills = SkillsState::new();
    process_casting(
        &mut cast,
        &mut skills,
        Some(CastingCommand::Cast(SpellKind::Smoke)),
        100,
        &times,
    );
    for _ in 0..5 {
        process_casting(&mut cast, &mut skills, None, 100, &times);
    }
    assert_eq!(cast.as_ref().expect("half way").remaining_ms, 500);
    let resolved = process_casting(
        &mut cast,
        &mut skills,
        Some(CastingCommand::Interrupt),
        100,
        &times,
    );
    assert_eq!(resolved, None);
    assert!(cast.is_none());
    assert!(skills.is_ready(SpellKind::Smoke));
    assert_eq!(skills.remaining(SpellKind::Smoke), None);
}

#[test]
fn switching_casts_discards_progress_without_cooldown_penalty() {
    let times = SpellTimes::standard();
    let mut cast = Some(Casting {
        kind: SpellKind::Smoke,
        remaining_ms: 200,
        total_ms: 1000,
    });
    let mut skills = SkillsState::new();
    let resolved = process_casting(
        &mut cast,
        &mut skills,
        Some(CastingCommand::Cast(SpellKind::Emp)),
        100,
        &times,
    );
    assert_eq!(resolved, None);
    let c = cast.expect("casting the other ability");
    assert_eq!(c.kind, SpellKind::Emp);
    assert_eq!(c.remaining_ms, 1500);
    // the discarded smoke cast left no cooldown behind
    assert!(skills.is_ready(SpellKind::Smoke));
}

#[test]
fn cast_while_on_cooldown_is_ignored() {
    let times = SpellTimes::standard();
    let mut cast = None;
    let mut skills = SkillsState::new();
    skills.start(SpellKind::Smoke, 5000);
    let resolved = process_casting(
        &mut cast,
        &mut skills,
        Some(CastingCommand::Cast(SpellKind::Smoke)),
        100,
        &times,
    );
    assert_eq!(resolved, None);
    assert!(cast.is_none());
}

#[test]
fn switching_to_an_ability_on_cooldown_keeps_the_current_cast() {
    let times = SpellTimes::standard();
    let mut cast = Some(Casting {
        kind: SpellKind::Emp,
        remaining_ms: 800,
        total_ms: 1500,
    });
    let mut skills = SkillsState::new();
    skills.start(SpellKind::Smoke, 5000);
    let resolved = process_casting(
        &mut cast,
        &mut skills,
        Some(CastingCommand::Cast(SpellKind::Smoke)),
        100,
        &times,
    );
    assert_eq!(resolved, None);
    let c = cast.expect("emp cast survives");
    assert_eq!(c.kind, SpellKind::Emp);
    assert_eq!(c.remaining_ms, 700);
}

#[test]
fn resolution_starts_the_cooldown_only_when_positive() {
    let times = SpellTimes::standard();
    let mut cast = Some(Casting {
        kind: SpellKind::Smoke,
        remaining_ms: 50,
        total_ms: 1000,
    });
    let mut skills = SkillsState::new();
    let resolved = process_casting(&mut cast, &mut skills, None, 100, &times);
    assert_eq!(resolved, Some(SpellKind::Smoke));
    assert!(cast.is_none());
    assert!(!skills.is_ready(SpellKind::Smoke));
    assert_eq!(skills.remaining(SpellKind::Smoke), Some(5000));
}

#[test]
fn cast_progress_is_reported_in_permille() {
    let c = Casting {
        kind: SpellKind::Smoke,
        remaining_ms: 250,
        total_ms: 1000,
    };
    assert_eq!(c.progress_permille(), 750);
    let z = Casting {
        kind: SpellKind::Dash,
        remaining_ms: 0,
        total_ms: 0,
    };
    assert_eq!(z.progress_permille(), 1000);
    let f = Casting {
        kind: SpellKind::Emp,
        remaining_ms: 1500,
        total_ms: 1500,
    };
    assert_eq!(f.progress_permille(), 0);
}

#[test]
fn negative_times_are_rejected_at_configuration_load() {
    assert_eq!(KindTimes::new(-1, 0, 0), Err(ConfigError::NegativeTime));
    assert_eq!(KindTimes::new(0, -20, 5), Err(ConfigError::NegativeTime));
    assert_eq!(KindTimes::new(10, 20, -5), Err(ConfigError::NegativeTime));
    // zero cast time is valid and meaningful
    let t = KindTimes::new(0, 20, 5).expect("zero cast time is an instant cast");
    assert_eq!(t.cast_ms, 0);
    assert_eq!(t.cd_ms, 20);
    assert_eq!(t.duration_ms, 5);
}

#[test]
fn out_of_range_multiplier_and_speed_are_rejected() {
    let k = KindTimes::new(0, 0, 500).unwrap();
    assert_eq!(
        SpellTimes::new(k, k, k, -1, 2).unwrap_err(),
        ConfigError::MultiplierOutOfRange
    );
    assert_eq!(
        SpellTimes::new(k, k, k, 1_000_000, 2).unwrap_err(),
        ConfigError::MultiplierOutOfRange
    );
    assert_eq!(
        SpellTimes::new(k, k, k, 3, -2).unwrap_err(),
        ConfigError::SpeedOutOfRange
    );
    let ok = SpellTimes::new(k, k, k, 3, 2).expect("a sane table loads");
    assert_eq!(ok.dash_multiplier, 3);
    assert_eq!(ok.move_speed, 2);
}
