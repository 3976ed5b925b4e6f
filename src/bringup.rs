use vstd::prelude::*;

verus! {

/// Value of the initialisation flag before the control block is formatted.
pub const FLAG_UNSET: u8 = 0;

/// Value of the initialisation flag once the control block is formatted.
pub const FLAG_READY: u8 = 1;

/// Which part a process plays in bringing up a control block.
#[derive(Debug, Clone, Copy, PartialEq, Eq, Structural)]
pub enum Role {
    /// The process that created the mapping formats the control block.
    Formatter,
    /// Every other process attaches to the formatted block.
    Attacher,
}

/// Where a bring-up stands.
#[derive(Debug, Clone, Copy, PartialEq, Eq, Structural)]
pub enum Stage {
    /// Formatter: the flag is being cleared.
    Clearing,
    /// Formatter: the control block is being formatted.
    Formatting,
    /// Formatter: the ready value is being published.
    Publishing,
    /// Attacher: polling the flag.
    Waiting,
    /// Attacher: parsing the formatted block.
    Attaching,
    /// The primitive is usable.
    Ready,
}

/// What the process is to do next.
#[derive(Debug, Clone, Copy, PartialEq, Eq, Structural)]
pub enum Action {
    /// Store this value into the initialisation flag, with sequentially
    /// consistent ordering.
    StoreFlag(u8),
    /// Write a fresh control block.
    Format,
    /// Load the initialisation flag, with sequentially consistent ordering,
    /// backing off before the load where the last one was not ready.
    LoadFlag,
    /// Parse the existing control block without writing to it.
    Attach,
    /// Nothing more: the primitive is usable.
    Proceed,
}

/// What became of the last action.
#[derive(Debug, Clone, Copy, PartialEq, Eq, Structural)]
pub enum Report {
    /// The store, format or attach completed.
    Completed,
    /// The load returned this value.
    Loaded(u8),
}

pub open spec fn role_of(is_owner: bool) -> Role {
    if is_owner { Role::Formatter } else { Role::Attacher }
}

/// The stage and action after `stage` on `report`.
pub open spec fn advance_of(stage: Stage, report: Report) -> (Stage, Action) {
    match (stage, report) {
        (Stage::Clearing, Report::Completed) => (Stage::Formatting, Action::Format),
        (Stage::Formatting, Report::Completed) => (Stage::Publishing, Action::StoreFlag(FLAG_READY)),
        (Stage::Publishing, Report::Completed) => (Stage::Ready, Action::Proceed),
        (Stage::Waiting, Report::Loaded(v)) => if v == FLAG_READY {
            (Stage::Attaching, Action::Attach)
        } else {
            (Stage::Waiting, Action::LoadFlag)
        },
        (Stage::Attaching, Report::Completed) => (Stage::Ready, Action::Proceed),
        _ => (stage, action_in(stage)),
    }
}

/// The action that a process in `stage` is carrying out.
pub open spec fn action_in(stage: Stage) -> Action {
    match stage {
        Stage::Clearing => Action::StoreFlag(FLAG_UNSET),
        Stage::Formatting => Action::Format,
        Stage::Publishing => Action::StoreFlag(FLAG_READY),
        Stage::Waiting => Action::LoadFlag,
        Stage::Attaching => Action::Attach,
        Stage::Ready => Action::Proceed,
    }
}

/// The stages that a process of role `role` passes through.
pub open spec fn stage_of_role(role: Role, stage: Stage) -> bool {
    match role {
        Role::Formatter => stage is Clearing || stage is Formatting || stage is Publishing || stage
            is Ready,
        Role::Attacher => stage is Waiting || stage is Attaching || stage is Ready,
    }
}

/// The two-phase bring-up of a lock or event inside a shared region. The
/// owner of the region clears the flag, formats the control block, then
/// publishes the flag as ready; every other process polls the flag and
/// attaches only once it has read the ready value.
pub struct BringUp {
    role: Role,
    stage: Stage,
}

impl BringUp {
    pub closed spec fn spec_role(&self) -> Role {
        self.role
    }

    pub closed spec fn spec_stage(&self) -> Stage {
        self.stage
    }

    pub closed spec fn wf(&self) -> bool {
        stage_of_role(self.role, self.stage)
    }

    /// Starts a bring-up for a process that owns the region or not, and
    /// returns its first action.
    pub fn start(is_owner: bool) -> (r: (BringUp, Action))
        ensures
            r.0.wf(),
            r.0.spec_role() == role_of(is_owner),
            r.0.spec_stage() == if is_owner { Stage::Clearing } else { Stage::Waiting },
            r.1 == action_in(r.0.spec_stage()),
    {
        if is_owner {
            (BringUp { role: Role::Formatter, stage: Stage::Clearing }, Action::StoreFlag(FLAG_UNSET))
        } else {
            (BringUp { role: Role::Attacher, stage: Stage::Waiting }, Action::LoadFlag)
        }
    }

    pub fn role(&self) -> (r: Role)
        ensures
            r == self.spec_role(),
    {
        self.role
    }

    pub fn is_ready(&self) -> (r: bool)
        ensures
            r == (self.spec_stage() == Stage::Ready),
    {
        matches!(self.stage, Stage::Ready)
    }

    /// Takes what became of the last action and returns the next one. A
    /// report that does not fit the stage repeats the current action.
    pub fn advance(&mut self, report: Report) -> (r: Action)
        requires
            old(self).wf(),
        ensures
            final(self).wf(),
            final(self).spec_role() == old(self).spec_role(),
            (final(self).spec_stage(), r) == advance_of(old(self).spec_stage(), report),
    {
        let (stage, action) = match (self.stage, report) {
            (Stage::Clearing, Report::Completed) => (Stage::Formatting, Action::Format),
            (Stage::Formatting, Report::Completed) => (Stage::Publishing, Action::StoreFlag(FLAG_READY)),
            (Stage::Publishing, Report::Completed) => (Stage::Ready, Action::Proceed),
            (Stage::Waiting, Report::Loaded(v)) => {
                if v == FLAG_READY {
                    (Stage::Attaching, Action::Attach)
                } else {
                    (Stage::Waiting, Action::LoadFlag)
                }
            },
            (Stage::Attaching, Report::Completed) => (Stage::Ready, Action::Proceed),
            (s, _) => (s, current_action(s)),
        };
        self.stage = stage;
        action
    }
}

fn current_action(stage: Stage) -> (r: Action)
    ensures
        r == action_in(stage),
{
    match stage {
        Stage::Clearing => Action::StoreFlag(FLAG_UNSET),
        Stage::Formatting => Action::Format,
        Stage::Publishing => Action::StoreFlag(FLAG_READY),
        Stage::Waiting => Action::LoadFlag,
        Stage::Attaching => Action::Attach,
        Stage::Ready => Action::Proceed,
    }
}

/// An attacher never writes the flag or the control block, and it is told
/// to attach only on the step where it loaded the ready value.
pub proof fn lemma_attach_after_ready(stage: Stage, report: Report)
    requires
        stage_of_role(Role::Attacher, stage),
    ensures
        stage_of_role(Role::Attacher, advance_of(stage, report).0),
        !(advance_of(stage, report).1 is StoreFlag),
        !(advance_of(stage, report).1 is Format),
        advance_of(stage, report).1 == Action::Attach && stage == Stage::Waiting ==> report
            == Report::Loaded(FLAG_READY),
{
}

/// A formatter never attaches, and publishes the ready value only as the
/// step that follows a completed format.
pub proof fn lemma_publish_after_format(stage: Stage, report: Report)
    requires
        stage_of_role(Role::Formatter, stage),
    ensures
        stage_of_role(Role::Formatter, advance_of(stage, report).0),
        advance_of(stage, report).1 != Action::Attach,
        advance_of(stage, report).1 != Action::LoadFlag,
        advance_of(stage, report).1 == Action::StoreFlag(FLAG_READY) ==> stage == Stage::Formatting
            || stage == Stage::Publishing,
{
}

} // verus!
