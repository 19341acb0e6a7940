//! The parts together: what a client's command does to the whole daemon.
//!
//! Nothing here runs. These are the statements that tie the control channel,
//! the scheduler and the coordinator to each other, proved over the models
//! that the three modules state their contracts in.

use crate::channel::{channel_next, flag_after, flag_after_all, status_after, Input, Reply};
use crate::message::{lemma_line_reads_back, ClientCommand, Message};
use crate::rotation::{plan_for, TickPlan};
use crate::shutdown::{
    lemma_every_end_is_released, releases, run, shutdown_events, BackendStatus, Coordinator,
    Observation, ShutdownOutcome, TaskStatus,
};
use vstd::prelude::*;

verus! {

/// Sending `kill` ends the daemon gracefully. The line that the client
/// writes for `kill` makes the channel leave its loop normally without
/// touching the flag; and when the coordinator then sees the channel
/// finished while the backend is alive, it terminates with a graceful
/// outcome, status zero, and releases the socket and the backend once.
/// With no signal pending and the scheduler running, that outcome is
/// `ClientKill`.
pub proof fn lemma_kill_ends_gracefully(paused: bool, obs: Observation)
    requires
        obs.backend == BackendStatus::Alive,
        obs.channel == status_after(
            channel_next(paused, Input::Line(ClientCommand::Kill.wire())).1,
        ),
    ensures
        channel_next(paused, Input::Line(ClientCommand::Kill.wire())) == (paused, Reply::Exit),
        obs.channel == TaskStatus::Finished,
        run(Coordinator::Running, shutdown_events(obs)) matches Coordinator::Terminated(outcome)
            && outcome.graceful() && outcome.status() == 0 && (!obs.interrupted && !obs.terminated
            ==> outcome == ShutdownOutcome::ClientKill),
        releases(Coordinator::Running, shutdown_events(obs)) == 1,
{
    lemma_line_reads_back(ClientCommand::Kill);
    lemma_every_end_is_released(obs);
}

/// A backend that exits while the daemon runs is fatal. When the
/// coordinator sees the backend gone and no signal has arrived, it
/// terminates with `BackendCrashed`, status one, and still releases the
/// socket and the backend once.
pub proof fn lemma_backend_exit_is_fatal(obs: Observation)
    requires
        obs.backend != BackendStatus::Alive,
        !obs.interrupted,
        !obs.terminated,
    ensures
        run(Coordinator::Running, shutdown_events(obs)) == Coordinator::Terminated(
            ShutdownOutcome::BackendCrashed,
        ),
        !ShutdownOutcome::BackendCrashed.graceful(),
        ShutdownOutcome::BackendCrashed.status() == 1,
        releases(Coordinator::Running, shutdown_events(obs)) == 1,
{
    lemma_every_end_is_released(obs);
}

/// `pause` directly followed by `unpause` leaves the daemon unpaused,
/// whatever the flag was before. A tick reads the flag and never writes it,
/// so when a tick falls does not matter to the flag: one that falls between
/// the two commands is skipped, and one that falls after both is not.
pub proof fn lemma_pause_then_unpause_resumes(paused: bool, count: nat, draw: nat)
    ensures
        ({
            let between = channel_next(paused, Input::Line(ClientCommand::Pause.wire())).0;
            let after = channel_next(between, Input::Line(ClientCommand::Unpause.wire())).0;
            &&& between
            &&& !after
            &&& plan_for(between, count, draw) == TickPlan::Skip
            &&& plan_for(after, count, draw) != TickPlan::Skip
        }),
{
    lemma_line_reads_back(ClientCommand::Pause);
    lemma_line_reads_back(ClientCommand::Unpause);
}

/// Pausing holds until `unpause`: after a `pause`, and after any further
/// messages among which there is no `unpause`, every tick is skipped.
pub proof fn lemma_paused_until_unpause(
    paused: bool,
    later: Seq<Message>,
    count: nat,
    draw: nat,
)
    requires
        forall|i: int| 0 <= i < later.len() ==> !(later[i] is Unpause),
    ensures
        flag_after_all(flag_after(paused, Message::Pause), later),
        plan_for(flag_after_all(flag_after(paused, Message::Pause), later), count, draw)
            == TickPlan::Skip,
    decreases later.len(),
{
    if later.len() > 0 {
        let earlier = later.drop_last();
        assert forall|i: int| 0 <= i < earlier.len() implies !(earlier[i] is Unpause) by {
            assert(earlier[i] == later[i]);
        }
        lemma_paused_until_unpause(paused, earlier, count, draw);
    }
}

} // verus!
