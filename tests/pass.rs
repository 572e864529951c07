use pulsar::pass::{AppOutcome, PassEvent, Stage, Step, UpdatePass};
use pulsar::release::Component;

#[test]
fn due_application_is_checked_first() {
    let mut p = UpdatePass::new(10_000, 0, 9_999);
    assert_eq!(p.advance(PassEvent::Begin), Step::CheckApp);
    assert_eq!(p.advance(PassEvent::AppChecked(AppOutcome::Checked)), Step::Inspect(Component::Bridge));
    assert_eq!(p.advance(PassEvent::Inspected(true)), Step::Inspect(Component::Codec));
    assert_eq!(p.advance(PassEvent::Inspected(true)), Step::Finish { stamp_app: true, stamp_req: false });
    assert_eq!(p.stage, Stage::Done);
    assert_eq!(p.advance(PassEvent::Begin), Step::Stop);
}

#[test]
fn recent_application_check_is_skipped() {
    let mut p = UpdatePass::new(1_000, 500, 0);
    assert_eq!(p.advance(PassEvent::Begin), Step::Inspect(Component::Bridge));
}

#[test]
fn hand_over_saves_first_and_preempts_dependencies() {
    let mut p = UpdatePass::new(10_000, 0, 0);
    assert_eq!(p.advance(PassEvent::Begin), Step::CheckApp);
    assert_eq!(
        p.advance(PassEvent::AppChecked(AppOutcome::UpdateReady)),
        Step::HandOff { stamp_app: true, stamp_req: false }
    );
    assert_eq!(p.stage, Stage::HandedOff);
    assert_eq!(p.advance(PassEvent::Inspected(false)), Step::Stop);
    assert_eq!(p.stage, Stage::HandedOff);
}

#[test]
fn failed_hand_over_goes_on_with_dependencies() {
    let mut p = UpdatePass::new(10_000, 0, 0);
    p.advance(PassEvent::Begin);
    p.advance(PassEvent::AppChecked(AppOutcome::UpdateReady));
    assert_eq!(p.advance(PassEvent::HandOffFailed), Step::Inspect(Component::Bridge));
    assert_eq!(p.advance(PassEvent::Inspected(true)), Step::Update(Component::Bridge));
    assert_eq!(p.advance(PassEvent::Updated(true)), Step::Inspect(Component::Codec));
    assert_eq!(p.advance(PassEvent::Inspected(true)), Step::Update(Component::Codec));
    assert_eq!(p.advance(PassEvent::Updated(true)), Step::Finish { stamp_app: false, stamp_req: true });
}

#[test]
fn missing_executables_are_updated_despite_recent_check() {
    let mut p = UpdatePass::new(1_000, 900, 900);
    assert_eq!(p.advance(PassEvent::Begin), Step::Inspect(Component::Bridge));
    assert_eq!(p.advance(PassEvent::Inspected(false)), Step::Update(Component::Bridge));
    assert_eq!(p.advance(PassEvent::Updated(true)), Step::Inspect(Component::Codec));
    assert_eq!(p.advance(PassEvent::Inspected(false)), Step::Update(Component::Codec));
    assert_eq!(p.advance(PassEvent::Updated(false)), Step::Finish { stamp_app: false, stamp_req: true });
}

#[test]
fn failed_checks_are_not_stamped() {
    let mut p = UpdatePass::new(100_000, 0, 0);
    assert_eq!(p.advance(PassEvent::Begin), Step::CheckApp);
    assert_eq!(p.advance(PassEvent::AppChecked(AppOutcome::Failed)), Step::Inspect(Component::Bridge));
    assert_eq!(p.advance(PassEvent::Inspected(true)), Step::Update(Component::Bridge));
    assert_eq!(p.advance(PassEvent::Updated(false)), Step::Inspect(Component::Codec));
    assert_eq!(p.advance(PassEvent::Inspected(true)), Step::Update(Component::Codec));
    assert_eq!(p.advance(PassEvent::Updated(false)), Step::Finish { stamp_app: false, stamp_req: false });
}

#[test]
fn unexpected_event_changes_nothing() {
    let mut p = UpdatePass::new(100, 0, 0);
    assert_eq!(p.advance(PassEvent::Updated(true)), Step::Stop);
    assert_eq!(p.stage, Stage::Begin);
    assert!(!p.req_checked);
}
