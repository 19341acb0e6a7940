//! The rotation scheduler: what one tick does, given the pause flag, the
//! captured file list and a random draw.

use crate::shutdown::TaskStatus;
use std::path::PathBuf;
use vstd::prelude::*;

verus! {

/// Seconds the scheduler waits before its first tick, so that the backend
/// has finished starting.
pub const WARM_UP_SECONDS: u64 = 5;

/// Seconds between two ticks when the command line names no interval.
pub const DEFAULT_INTERVAL_SECONDS: u64 = 60;

/// `std::path::PathBuf`, declared so that paths can be held and handed out.
/// Nothing is said of what a path contains: the list only carries them.
#[verifier::external_type_specification]
#[verifier::external_body]
pub struct ExPathBuf(std::path::PathBuf);

/// The number of seconds between two ticks: the requested one, or the
/// default where none was requested.
pub fn interval_seconds(requested: Option<usize>) -> (seconds: u64)
    ensures
        seconds == match requested {
            Some(n) => n as u64,
            None => DEFAULT_INTERVAL_SECONDS,
        },
{
    match requested {
        Some(n) => n as u64,
        None => DEFAULT_INTERVAL_SECONDS,
    }
}

/// The wallpapers found at startup, in the order of the scan. The list is
/// never changed afterwards. An empty list is valid.
pub struct FileList {
    paths: Vec<PathBuf>,
}

impl View for FileList {
    type V = Seq<PathBuf>;

    closed spec fn view(&self) -> Seq<PathBuf> {
        self.paths@
    }
}

impl FileList {
    /// Captures the scanned paths.
    pub fn new(paths: Vec<PathBuf>) -> (list: FileList)
        ensures
            list@ == paths@,
    {
        FileList { paths }
    }

    /// The number of files.
    pub fn len(&self) -> (n: usize)
        ensures
            n == self@.len(),
    {
        self.paths.len()
    }

    /// Whether the scan found nothing.
    pub fn is_empty(&self) -> (e: bool)
        ensures
            e == (self@.len() == 0),
    {
        self.paths.len() == 0
    }

    /// The file at a position of the list, if the position is within it.
    pub fn get(&self, index: usize) -> (path: Option<&PathBuf>)
        ensures
            index < self@.len() ==> path == Some(&self@[index as int]),
            index >= self@.len() ==> path is None,
    {
        if index < self.paths.len() {
            Some(&self.paths[index])
        } else {
            None
        }
    }
}

/// What the scheduler does at one tick.
#[derive(Clone, Copy, Debug, PartialEq, Eq, Structural)]
pub enum TickPlan {
    /// Rotation is paused: the cycle is skipped and not made up later.
    Skip,
    /// There is no file to show: the tick does nothing.
    Idle,
    /// Hand the file at this position of the list to the setter.
    Show(usize),
}

/// The plan for a tick, as a function of the flag, the length of the file
/// list and the number drawn.
pub open spec fn plan_for(paused: bool, count: nat, draw: nat) -> TickPlan {
    if paused {
        TickPlan::Skip
    } else if count == 0 {
        TickPlan::Idle
    } else {
        TickPlan::Show((draw % count) as usize)
    }
}

/// Plans a tick from a draw that was already made. The pause flag is read
/// before the list is looked at, so that a paused tick costs nothing.
pub fn plan_tick(paused: bool, count: usize, draw: usize) -> (plan: TickPlan)
    ensures
        plan == plan_for(paused, count as nat, draw as nat),
{
    if paused {
        TickPlan::Skip
    } else if count == 0 {
        TickPlan::Idle
    } else {
        TickPlan::Show(draw % count)
    }
}

/// Calls `rand::random::<usize>()`, which samples the thread-local
/// generator of `rand`. The value depends on chance, so nothing is claimed
/// of it: callers are verified for every `usize`. The generator is seeded
/// from the operating system on first use in a thread, and `rand` aborts
/// with a panic if the system cannot provide the seed.
#[verifier::external_body]
fn draw_usize() -> usize {
    rand::random::<usize>()
}

/// Plans a tick with a fresh random draw. Whatever is drawn, a paused tick
/// is skipped, a tick on an empty list does nothing, and any other tick
/// shows a file of the list.
pub fn tick(paused: bool, files: &FileList) -> (plan: TickPlan)
    ensures
        exists|draw: usize| plan == plan_for(paused, files@.len(), draw as nat),
        paused ==> plan == TickPlan::Skip,
        !paused && files@.len() == 0 ==> plan == TickPlan::Idle,
        !paused && files@.len() > 0 ==> plan is Show && plan->0 < files@.len(),
{
    if paused {
        assert(TickPlan::Skip == plan_for(paused, files@.len(), 0usize as nat));
        return TickPlan::Skip;
    }
    let draw = draw_usize();
    let plan = plan_tick(paused, files.len(), draw);
    proof {
        lemma_plan_within_list(paused, files@.len(), draw as nat);
    }
    plan
}

/// A tick never selects a position outside the list: for a list of one file
/// or more the position shown is below its length, and for an empty list no
/// file is shown at all. A paused tick shows nothing either.
pub proof fn lemma_plan_within_list(paused: bool, count: nat, draw: nat)
    requires
        count <= usize::MAX,
    ensures
        match plan_for(paused, count, draw) {
            TickPlan::Show(index) => !paused && index < count && index == draw % count,
            TickPlan::Idle => !paused && count == 0,
            TickPlan::Skip => paused,
        },
{
    if !paused && count > 0 {
        assert(0 <= draw % count < count) by (nonlinear_arith)
            requires
                count > 0,
                draw >= 0,
        ;
    }
}

/// How one call of the external setter ended.
#[derive(Clone, Copy, Debug, PartialEq, Eq, Structural)]
pub enum SetterResult {
    /// It ran and exited with status zero.
    Succeeded,
    /// It ran and exited with another status.
    Failed,
    /// It could not be started or awaited.
    Lost,
}

/// What the scheduler does after a call of the setter.
#[derive(Clone, Copy, Debug, PartialEq, Eq, Structural)]
pub enum Followup {
    /// Report the success and wait for the next tick.
    ReportSuccess,
    /// Report the failure and wait for the next tick.
    ReportFailure,
    /// Leave the loop: the scheduler cannot keep running.
    Stop,
}

impl Followup {
    /// Whether the scheduler goes on to the next tick.
    pub open spec fn continues(self) -> bool {
        !(self is Stop)
    }

    /// The state in which the scheduler task is after the follow-up. The
    /// scheduler never finishes normally: it runs, or it has failed.
    pub open spec fn status(self) -> TaskStatus {
        if self.continues() {
            TaskStatus::Running
        } else {
            TaskStatus::Failed
        }
    }

    /// Whether the scheduler goes on to the next tick.
    pub fn keeps_running(&self) -> (k: bool)
        ensures
            k == self.continues(),
    {
        match self {
            Followup::Stop => false,
            _ => true,
        }
    }

    /// The state in which the scheduler task is after this follow-up.
    pub fn task_status(&self) -> (status: TaskStatus)
        ensures
            status == self.status(),
    {
        match self {
            Followup::Stop => TaskStatus::Failed,
            _ => TaskStatus::Running,
        }
    }
}

/// The follow-up to each result. A setter that ran never ends the
/// scheduler, whatever its status; only one that could not be run does.
pub open spec fn followup_for(result: SetterResult) -> Followup {
    match result {
        SetterResult::Succeeded => Followup::ReportSuccess,
        SetterResult::Failed => Followup::ReportFailure,
        SetterResult::Lost => Followup::Stop,
    }
}

/// Decides how the scheduler goes on after a call of the setter.
pub fn after_setter(result: SetterResult) -> (followup: Followup)
    ensures
        followup == followup_for(result),
        followup.continues() <==> result != SetterResult::Lost,
{
    match result {
        SetterResult::Succeeded => Followup::ReportSuccess,
        SetterResult::Failed => Followup::ReportFailure,
        SetterResult::Lost => Followup::Stop,
    }
}

} // verus!
