//! Bringing the local clone of the documentation repository onto the branch
//! of the current version.
//!
//! The work is a sequence of steps.  The caller performs the action of the
//! current step, reports what came of it, and is told the next step.

use crate::command::{Command, CommandView};
use vstd::prelude::*;
use vstd::string::*;

verus! {

/// The directory that holds the clone.
pub const OPENRPC_DIR: &'static str = "./docs/ckb_rpc_openrpc/";

/// The repository that the clone is made from.
pub const OPENRPC_DIR_REPO: &'static str = "https://github.com/nervosnetwork/ckb-rpc-resources";

/// The directory a fresh clone is made in, before it is moved into place.
pub const CLONE_STAGING_DIR: &'static str = "ckb-rpc-repo";

/// A step of the synchronisation.
#[derive(Clone, Copy, PartialEq, Eq, Structural, Debug)]
pub enum SyncStep {
    /// Find out whether the clone is there.
    ProbeClone,
    /// Remove whatever stands where the clone should be.
    RemoveDir,
    /// Clone the repository into the staging directory.
    CloneRepo,
    /// Move the staging directory into place.
    MoveIntoPlace,
    /// Say which version is about to be checked out.
    Announce,
    /// Switch to the version's branch.
    Checkout,
    /// Create the version's branch and switch to it.
    CreateBranch,
    /// Nothing is left to do.
    Done,
}

/// What the caller does to perform a step.
#[derive(PartialEq, Eq, Debug)]
pub enum SyncAction {
    /// Find out whether this path exists.
    Probe(String),
    /// Run this command and read its outcome.
    Run(Command),
    /// Print this line as a diagnostic.
    Report(String),
    /// Stop.
    Stop,
}

/// What came of performing an action.
#[derive(PartialEq, Eq, Debug)]
pub enum SyncEvent {
    /// The path was looked for, and exists or does not.
    Probed(bool),
    /// The command was run, and reading its outcome gave this.
    Ran(Option<String>),
    /// The line was printed.
    Reported,
}

/// What a [`SyncAction`] says, as plain text.
pub enum SyncActionView {
    Probe(Seq<char>),
    Run(CommandView),
    Report(Seq<char>),
    Stop,
}

impl View for SyncAction {
    type V = SyncActionView;

    open spec fn view(&self) -> SyncActionView {
        match self {
            SyncAction::Probe(path) => SyncActionView::Probe(path@),
            SyncAction::Run(command) => SyncActionView::Run(command@),
            SyncAction::Report(line) => SyncActionView::Report(line@),
            SyncAction::Stop => SyncActionView::Stop,
        }
    }
}

/// The path whose presence marks a valid clone.
pub open spec fn git_dir() -> Seq<char> {
    OPENRPC_DIR@ + "/.git"@
}

/// `rm -r <clone directory>`.
pub open spec fn remove_dir_command() -> CommandView {
    CommandView { program: "rm"@, args: seq!["-r"@, OPENRPC_DIR@], dir: None }
}

/// `git clone <repository> <staging directory>`.
pub open spec fn clone_command() -> CommandView {
    CommandView {
        program: "git"@,
        args: seq!["clone"@, OPENRPC_DIR_REPO@, CLONE_STAGING_DIR@],
        dir: None,
    }
}

/// `mv <staging directory> <clone directory>`.
pub open spec fn move_command() -> CommandView {
    CommandView { program: "mv"@, args: seq![CLONE_STAGING_DIR@, OPENRPC_DIR@], dir: None }
}

/// `git checkout <version>`, in the clone.
pub open spec fn checkout_command(version: Seq<char>) -> CommandView {
    CommandView { program: "git"@, args: seq!["checkout"@, version], dir: Some(OPENRPC_DIR@) }
}

/// `git checkout -b <version>`, in the clone.
pub open spec fn create_branch_command(version: Seq<char>) -> CommandView {
    CommandView {
        program: "git"@,
        args: seq!["checkout"@, "-b"@, version],
        dir: Some(OPENRPC_DIR@),
    }
}

/// The action that performs `step` for `version`.
pub open spec fn action_of(step: SyncStep, version: Seq<char>) -> SyncActionView {
    match step {
        SyncStep::ProbeClone => SyncActionView::Probe(git_dir()),
        SyncStep::RemoveDir => SyncActionView::Run(remove_dir_command()),
        SyncStep::CloneRepo => SyncActionView::Run(clone_command()),
        SyncStep::MoveIntoPlace => SyncActionView::Run(move_command()),
        SyncStep::Announce => SyncActionView::Report("checkout version: "@ + version),
        SyncStep::Checkout => SyncActionView::Run(checkout_command(version)),
        SyncStep::CreateBranch => SyncActionView::Run(create_branch_command(version)),
        SyncStep::Done => SyncActionView::Stop,
    }
}

/// Whether the step that `event` tells of succeeded: a probe succeeds when
/// the path exists, a command when reading its outcome gave a text, and a
/// diagnostic always.
pub open spec fn succeeded(event: SyncEvent) -> bool {
    match event {
        SyncEvent::Probed(found) => found,
        SyncEvent::Ran(answer) => answer is Some,
        SyncEvent::Reported => true,
    }
}

/// The step that follows `step`, given whether `step` succeeded.
///
/// Only two outcomes matter.  A clone that is there is not made again, and a
/// branch is created only when switching to it failed.  Every other failure
/// is passed over.
pub open spec fn next_step(step: SyncStep, succeeded: bool) -> SyncStep {
    match step {
        SyncStep::ProbeClone => if succeeded {
            SyncStep::Announce
        } else {
            SyncStep::RemoveDir
        },
        SyncStep::RemoveDir => SyncStep::CloneRepo,
        SyncStep::CloneRepo => SyncStep::MoveIntoPlace,
        SyncStep::MoveIntoPlace => SyncStep::Announce,
        SyncStep::Announce => SyncStep::Checkout,
        SyncStep::Checkout => if succeeded {
            SyncStep::Done
        } else {
            SyncStep::CreateBranch
        },
        SyncStep::CreateBranch => SyncStep::Done,
        SyncStep::Done => SyncStep::Done,
    }
}

/// An upper bound on the number of steps still to be performed.
pub open spec fn steps_left(step: SyncStep) -> nat {
    match step {
        SyncStep::ProbeClone => 7,
        SyncStep::RemoveDir => 6,
        SyncStep::CloneRepo => 5,
        SyncStep::MoveIntoPlace => 4,
        SyncStep::Announce => 3,
        SyncStep::Checkout => 2,
        SyncStep::CreateBranch => 1,
        SyncStep::Done => 0,
    }
}

/// The steps performed from `step` on, when `outcome` tells of each step
/// whether it succeeds.
pub open spec fn steps_from(step: SyncStep, outcome: spec_fn(SyncStep) -> bool) -> Seq<SyncStep>
    decreases steps_left(step),
{
    if step == SyncStep::Done {
        Seq::empty()
    } else {
        seq![step] + steps_from(next_step(step, outcome(step)), outcome)
    }
}

/// The steps of a whole run, given whether the clone was there and whether
/// switching to the branch succeeded.
pub open spec fn run_steps(clone_present: bool, checkout_succeeded: bool) -> Seq<SyncStep> {
    let make_clone = if clone_present {
        Seq::empty()
    } else {
        seq![SyncStep::RemoveDir, SyncStep::CloneRepo, SyncStep::MoveIntoPlace]
    };
    let fall_back = if checkout_succeeded {
        Seq::empty()
    } else {
        seq![SyncStep::CreateBranch]
    };
    seq![SyncStep::ProbeClone] + make_clone + seq![SyncStep::Announce, SyncStep::Checkout]
        + fall_back
}

impl SyncStep {
    /// The step a run starts with.
    pub fn first() -> (step: SyncStep)
        ensures
            step == SyncStep::ProbeClone,
    {
        SyncStep::ProbeClone
    }

    /// The step to take after this one, given what came of this one.
    pub fn next(self, event: &SyncEvent) -> (step: SyncStep)
        ensures
            step == next_step(self, succeeded(*event)),
    {
        let succeeded = match event {
            SyncEvent::Probed(found) => *found,
            SyncEvent::Ran(answer) => answer.is_some(),
            SyncEvent::Reported => true,
        };
        match self {
            SyncStep::ProbeClone => if succeeded {
                SyncStep::Announce
            } else {
                SyncStep::RemoveDir
            },
            SyncStep::RemoveDir => SyncStep::CloneRepo,
            SyncStep::CloneRepo => SyncStep::MoveIntoPlace,
            SyncStep::MoveIntoPlace => SyncStep::Announce,
            SyncStep::Announce => SyncStep::Checkout,
            SyncStep::Checkout => if succeeded {
                SyncStep::Done
            } else {
                SyncStep::CreateBranch
            },
            SyncStep::CreateBranch | SyncStep::Done => SyncStep::Done,
        }
    }

    /// What to do to perform this step for `version`.
    pub fn action(self, version: &str) -> (action: SyncAction)
        ensures
            action@ == action_of(self, version@),
    {
        let clone_dir = Some(OPENRPC_DIR.to_owned());
        let action = match self {
            SyncStep::ProbeClone => SyncAction::Probe(OPENRPC_DIR.to_owned().concat("/.git")),
            SyncStep::RemoveDir => SyncAction::Run(
                Command {
                    program: "rm".to_owned(),
                    args: vec!["-r".to_owned(), OPENRPC_DIR.to_owned()],
                    dir: None,
                },
            ),
            SyncStep::CloneRepo => SyncAction::Run(
                Command {
                    program: "git".to_owned(),
                    args: vec![
                        "clone".to_owned(),
                        OPENRPC_DIR_REPO.to_owned(),
                        CLONE_STAGING_DIR.to_owned(),
                    ],
                    dir: None,
                },
            ),
            SyncStep::MoveIntoPlace => SyncAction::Run(
                Command {
                    program: "mv".to_owned(),
                    args: vec![CLONE_STAGING_DIR.to_owned(), OPENRPC_DIR.to_owned()],
                    dir: None,
                },
            ),
            SyncStep::Announce => SyncAction::Report(
                "checkout version: ".to_owned().concat(version),
            ),
            SyncStep::Checkout => SyncAction::Run(
                Command {
                    program: "git".to_owned(),
                    args: vec!["checkout".to_owned(), version.to_owned()],
                    dir: clone_dir,
                },
            ),
            SyncStep::CreateBranch => SyncAction::Run(
                Command {
                    program: "git".to_owned(),
                    args: vec!["checkout".to_owned(), "-b".to_owned(), version.to_owned()],
                    dir: clone_dir,
                },
            ),
            SyncStep::Done => SyncAction::Stop,
        };
        proof {
            if let SyncActionView::Run(command) = action@ {
                if let SyncActionView::Run(expected) = action_of(self, version@) {
                    assert(command.args =~= expected.args);
                }
            }
        }
        action
    }
}

/// Every step but the last brings a run closer to its end: no run takes more
/// than seven steps.
pub proof fn lemma_step_makes_progress(step: SyncStep, succeeded: bool)
    requires
        step != SyncStep::Done,
    ensures
        steps_left(next_step(step, succeeded)) < steps_left(step),
{
}

/// A run from the first step performs exactly the steps of [`run_steps`],
/// whatever comes of removing, cloning, moving or creating the branch.
pub proof fn lemma_run_steps(outcome: spec_fn(SyncStep) -> bool)
    ensures
        steps_from(SyncStep::ProbeClone, outcome) == run_steps(
            outcome(SyncStep::ProbeClone),
            outcome(SyncStep::Checkout),
        ),
{
    reveal_with_fuel(steps_from, 8);
}

} // verus!
