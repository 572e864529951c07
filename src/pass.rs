//! The control flow of one update pass as a state machine: the shell performs
//! each step that the pass asks for and reports what came of it.

use vstd::prelude::*;
use crate::release::Component;
use crate::update::{app_check_due, component_check_needed, CHECK_INTERVAL};

verus! {

/// Where a pass stands.
#[derive(Clone, Copy, Debug, PartialEq, Eq, Structural)]
pub enum Stage {
    /// Not started.
    Begin,
    /// Waiting for the application check.
    App,
    /// Waiting to learn whether the component's executable is installed.
    Inspect(Component),
    /// Waiting for the component's check-and-update.
    Update(Component),
    /// Completed; the record is stamped and saved.
    Done,
    /// The record is saved and the updater is being launched; the process
    /// exits unless the launch fails.
    HandedOff,
}

/// What the shell is asked to do next.
#[derive(Clone, Copy, Debug, PartialEq, Eq, Structural)]
pub enum Step {
    /// Check for an application update.
    CheckApp,
    /// Report whether the component's executable is installed.
    Inspect(Component),
    /// Check the component's release and install it if needed.
    Update(Component),
    /// Stamp the checks that completed, save the record and signal completion.
    Finish { stamp_app: bool, stamp_req: bool },
    /// Stamp the checks listed, save the record, then launch the updater and
    /// exit; report `HandOffFailed` if the updater cannot be launched.
    HandOff { stamp_app: bool, stamp_req: bool },
    /// Nothing more to do.
    Stop,
}

/// How the application check ended.
#[derive(Clone, Copy, Debug, PartialEq, Eq, Structural)]
pub enum AppOutcome {
    /// The check completed and no update was applied.
    Checked,
    /// The check failed; it is retried on the next pass.
    Failed,
    /// An update was downloaded and is ready to be installed.
    UpdateReady,
}

/// What the shell reports back.
#[derive(Clone, Copy, Debug, PartialEq, Eq, Structural)]
pub enum PassEvent {
    /// Start the pass.
    Begin,
    /// The application check ended.
    AppChecked(AppOutcome),
    /// Whether the inspected component's executable is installed.
    Inspected(bool),
    /// Whether the component's check-and-update succeeded.
    Updated(bool),
    /// The updater could not be launched; the pass goes on as after a
    /// failed application check.
    HandOffFailed,
}

/// One update pass.
#[derive(Clone, Copy, Debug)]
pub struct UpdatePass {
    pub now: u64,
    pub app_last_check: u64,
    pub req_last_check: u64,
    pub app_checked: bool,
    pub req_checked: bool,
    pub stage: Stage,
}

/// The stage and step after `c` is settled: the codec tool follows the
/// bridge, and the pass finishes after the codec tool.
pub open spec fn after_component(p: UpdatePass, c: Component) -> (UpdatePass, Step) {
    match c {
        Component::Bridge => (UpdatePass { stage: Stage::Inspect(Component::Codec), ..p }, Step::Inspect(Component::Codec)),
        Component::Codec => (UpdatePass { stage: Stage::Done, ..p }, Step::Finish { stamp_app: p.app_checked, stamp_req: p.req_checked }),
    }
}

/// The pass's transitions. An event that does not answer the current stage
/// changes nothing and yields `Stop`.
pub open spec fn transition(p: UpdatePass, e: PassEvent) -> (UpdatePass, Step) {
    match (p.stage, e) {
        (Stage::Begin, PassEvent::Begin) => if p.now >= p.app_last_check && p.now - p.app_last_check >= CHECK_INTERVAL {
            (UpdatePass { stage: Stage::App, ..p }, Step::CheckApp)
        } else {
            (UpdatePass { stage: Stage::Inspect(Component::Bridge), ..p }, Step::Inspect(Component::Bridge))
        },
        (Stage::App, PassEvent::AppChecked(o)) => match o {
            AppOutcome::UpdateReady => (UpdatePass { stage: Stage::HandedOff, ..p }, Step::HandOff { stamp_app: true, stamp_req: false }),
            AppOutcome::Checked => (UpdatePass { stage: Stage::Inspect(Component::Bridge), app_checked: true, ..p }, Step::Inspect(Component::Bridge)),
            AppOutcome::Failed => (UpdatePass { stage: Stage::Inspect(Component::Bridge), ..p }, Step::Inspect(Component::Bridge)),
        },
        (Stage::Inspect(c), PassEvent::Inspected(installed)) => if !installed || (p.now >= p.req_last_check && p.now - p.req_last_check > CHECK_INTERVAL) {
            (UpdatePass { stage: Stage::Update(c), ..p }, Step::Update(c))
        } else {
            after_component(p, c)
        },
        (Stage::Update(c), PassEvent::Updated(ok)) => after_component(UpdatePass { req_checked: p.req_checked || ok, ..p }, c),
        (Stage::HandedOff, PassEvent::HandOffFailed) => (UpdatePass { stage: Stage::Inspect(Component::Bridge), ..p }, Step::Inspect(Component::Bridge)),
        _ => (p, Step::Stop),
    }
}

impl UpdatePass {
    /// A pass at time `now` over a record with the given last-check times.
    pub fn new(now: u64, app_last_check: u64, req_last_check: u64) -> (r: Self)
        ensures
            r == (UpdatePass { now, app_last_check, req_last_check, app_checked: false, req_checked: false, stage: Stage::Begin }),
    {
        UpdatePass { now, app_last_check, req_last_check, app_checked: false, req_checked: false, stage: Stage::Begin }
    }

    fn after(&mut self, c: Component) -> (r: Step)
        ensures
            (*final(self), r) == after_component(*old(self), c),
    {
        match c {
            Component::Bridge => {
                self.stage = Stage::Inspect(Component::Codec);
                Step::Inspect(Component::Codec)
            },
            Component::Codec => {
                self.stage = Stage::Done;
                Step::Finish { stamp_app: self.app_checked, stamp_req: self.req_checked }
            },
        }
    }

    /// Takes the shell's report and returns the next step (see `transition`).
    /// The application is checked first when due; a ready application update
    /// saves the record and hands over before any dependency is checked, and
    /// dependencies are checked after that only if the hand-over fails; a
    /// component whose executable is missing is always updated.
    pub fn advance(&mut self, event: PassEvent) -> (r: Step)
        ensures
            (*final(self), r) == transition(*old(self), event),
            old(self).stage == Stage::App && event == PassEvent::AppChecked(AppOutcome::UpdateReady) ==> r == (Step::HandOff { stamp_app: true, stamp_req: false }) && final(self).stage == Stage::HandedOff,
            old(self).stage == Stage::HandedOff && event != PassEvent::HandOffFailed ==> r == Step::Stop && *final(self) == *old(self),
            old(self).stage == Stage::Inspect(Component::Bridge) && event == PassEvent::Inspected(false) ==> r == Step::Update(Component::Bridge),
            old(self).stage == Stage::Inspect(Component::Codec) && event == PassEvent::Inspected(false) ==> r == Step::Update(Component::Codec),
    {
        match (self.stage, event) {
            (Stage::Begin, PassEvent::Begin) => {
                if app_check_due(self.now, self.app_last_check) {
                    self.stage = Stage::App;
                    Step::CheckApp
                } else {
                    self.stage = Stage::Inspect(Component::Bridge);
                    Step::Inspect(Component::Bridge)
                }
            },
            (Stage::App, PassEvent::AppChecked(o)) => match o {
                AppOutcome::UpdateReady => {
                    self.stage = Stage::HandedOff;
                    Step::HandOff { stamp_app: true, stamp_req: false }
                },
                AppOutcome::Checked => {
                    self.app_checked = true;
                    self.stage = Stage::Inspect(Component::Bridge);
                    Step::Inspect(Component::Bridge)
                },
                AppOutcome::Failed => {
                    self.stage = Stage::Inspect(Component::Bridge);
                    Step::Inspect(Component::Bridge)
                },
            },
            (Stage::Inspect(c), PassEvent::Inspected(installed)) => {
                if component_check_needed(installed, self.now, self.req_last_check) {
                    self.stage = Stage::Update(c);
                    Step::Update(c)
                } else {
                    self.after(c)
                }
            },
            (Stage::Update(c), PassEvent::Updated(ok)) => {
                self.req_checked = self.req_checked || ok;
                self.after(c)
            },
            (Stage::HandedOff, PassEvent::HandOffFailed) => {
                self.stage = Stage::Inspect(Component::Bridge);
                Step::Inspect(Component::Bridge)
            },
            _ => Step::Stop,
        }
    }
}

} // verus!
