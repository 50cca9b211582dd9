use brightvol::brightness::{
    clamp_level, reading_to_level, BrightnessError, BrightnessStep, StepAction, StepEvent,
};

#[test]
fn readings_are_capped_at_100() {
    assert_eq!(reading_to_level(0), 0);
    assert_eq!(reading_to_level(73), 73);
    assert_eq!(reading_to_level(100), 100);
    assert_eq!(reading_to_level(101), 100);
    assert_eq!(reading_to_level(u32::MAX), 100);
}

#[test]
fn sent_levels_are_capped_at_100() {
    assert_eq!(clamp_level(55), 55);
    assert_eq!(clamp_level(100), 100);
    assert_eq!(clamp_level(200), 100);
}

#[test]
fn step_reads_sets_and_reports() {
    let (mut s, a) = BrightnessStep::start(10);
    assert!(matches!(a, StepAction::ReadCurrent));
    let a = s.resume(StepEvent::CurrentRead(Ok(95)));
    assert!(matches!(a, StepAction::SetLevel(100)));
    let a = s.resume(StepEvent::LevelSet(Ok(())));
    assert!(matches!(a, StepAction::Finish(Ok(100))));
}

#[test]
fn step_down_from_reading() {
    let (mut s, _) = BrightnessStep::start(-10);
    let a = s.resume(StepEvent::CurrentRead(Ok(50)));
    assert!(matches!(a, StepAction::SetLevel(40)));
}

#[test]
fn read_failure_ends_step() {
    let (mut s, _) = BrightnessStep::start(10);
    let a = s.resume(StepEvent::CurrentRead(Err(BrightnessError("no instance".to_string()))));
    match a {
        StepAction::Finish(Err(e)) => assert_eq!(e.0, "no instance"),
        _ => panic!("expected failure"),
    }
    assert!(!s.expects(&StepEvent::LevelSet(Ok(()))));
}

#[test]
fn set_failure_ends_step() {
    let (mut s, _) = BrightnessStep::start(10);
    let _ = s.resume(StepEvent::CurrentRead(Ok(20)));
    assert!(s.expects(&StepEvent::LevelSet(Ok(()))));
    let a = s.resume(StepEvent::LevelSet(Err(BrightnessError("denied".to_string()))));
    match a {
        StepAction::Finish(Err(e)) => assert_eq!(e.0, "denied"),
        _ => panic!("expected failure"),
    }
}
