//! Whole runs of the dispatcher, and what holds of every one of them.

use vstd::prelude::*;
use crate::model::{Fault, Mode, PrintResponseView, TransportKind, NETWORK_TIMEOUT_SECS};
use crate::text::{blank, has_infix};
use crate::message::{error_message, law_unreachable_names_target};
use crate::dispatch::{failed, next, ActionView, EventView, JobView, Stage};

verus! {

/// The stage a job is in after the driver has reported `events`, in order.
pub open spec fn stage_after(job: JobView, events: Seq<EventView>) -> Stage
    decreases events.len(),
{
    if events.len() == 0 {
        Stage::Start
    } else {
        next(job, stage_after(job, events.drop_last()), events.last()).0
    }
}

/// The action that answers the last of `events`.
pub open spec fn action_after(job: JobView, events: Seq<EventView>) -> ActionView
    recommends
        events.len() > 0,
{
    next(job, stage_after(job, events.drop_last()), events.last()).1
}

/// Whether an action hands payload bytes to a transport.
pub open spec fn transfers(action: ActionView) -> bool {
    action is Write || action is Submit
}

/// The stages a probe can be in.
pub open spec fn probe_stage(stage: Stage) -> bool {
    stage == Stage::Start || stage == Stage::Resolving || stage == Stage::Connecting || stage
        == Stage::Opening || stage == Stage::Listing || stage == Stage::Finished
}

proof fn lemma_probe_stays(job: JobView, events: Seq<EventView>)
    requires
        job.mode == Mode::Probe,
    ensures
        probe_stage(stage_after(job, events)),
    decreases events.len(),
{
    if events.len() > 0 {
        lemma_probe_stays(job, events.drop_last());
    }
}

/// A liveness check never transfers payload bytes, whatever the driver reports:
/// no action of its run is a write or a job submission.
pub proof fn law_probe_transfers_nothing(job: JobView, events: Seq<EventView>)
    requires
        job.mode == Mode::Probe,
        events.len() > 0,
    ensures
        !transfers(action_after(job, events)),
{
    lemma_probe_stays(job, events.drop_last());
}

proof fn lemma_blank_device_stays(job: JobView, events: Seq<EventView>)
    requires
        job.kind == TransportKind::Device,
        blank(job.target),
    ensures
        stage_after(job, events) == Stage::Start || stage_after(job, events) == Stage::Finished,
    decreases events.len(),
{
    if events.len() > 0 {
        lemma_blank_device_stays(job, events.drop_last());
    }
}

/// A device job with a blank path fails at once with `InvalidTarget`, and no
/// action of its run touches the file system: every one only finishes.
pub proof fn law_blank_device_touches_nothing(job: JobView, events: Seq<EventView>)
    requires
        job.kind == TransportKind::Device,
        blank(job.target),
        events.len() > 0,
    ensures
        action_after(job, events) is Finish,
        action_after(job, events)->outcome is Err,
        events =~= seq![EventView::Begin] ==> action_after(job, events) == failed(
            job,
            Fault::InvalidTarget,
            false,
            Seq::empty(),
        ).1,
{
    lemma_blank_device_stays(job, events.drop_last());
    if events =~= seq![EventView::Begin] {
        assert(events.drop_last().len() == 0);
        assert(events.last() == EventView::Begin);
    }
}

/// A job is submitted to a queue only as the answer to an enumeration that
/// holds the queue's name; after one that lacks it, the job fails with
/// `TargetNotFound`.
pub proof fn law_absent_queue_never_submitted(job: JobView, stage: Stage, event: EventView)
    ensures
        next(job, stage, event).1 is Submit ==> stage == Stage::Listing && event is Queues
            && event->names.contains(job.target) && job.mode == Mode::Deliver,
        stage == Stage::Listing && event is Queues && !event->names.contains(job.target) ==> next(
            job,
            stage,
            event,
        ) == failed(job, Fault::TargetNotFound, false, Seq::empty()),
{
}

/// Payload bytes are handed to a transport only as they stand in the job.
pub proof fn law_transfer_is_payload(job: JobView, stage: Stage, event: EventView)
    ensures
        match next(job, stage, event).1 {
            ActionView::Write { bytes } => bytes == job.payload,
            ActionView::Submit { queue, bytes } => bytes == job.payload && queue == job.target,
            _ => true,
        },
{
}

/// No failure is turned into a success: a reported failure always ends the job
/// with an error.
pub proof fn law_failure_never_succeeds(
    job: JobView,
    stage: Stage,
    timed_out: bool,
    cause: Seq<char>,
)
    ensures
        next(job, stage, EventView::Failed { timed_out, cause }).0 == Stage::Finished,
        next(job, stage, EventView::Failed { timed_out, cause }).1 is Finish,
        next(job, stage, EventView::Failed { timed_out, cause }).1->outcome is Err,
{
}

/// How far a stage is from the start.
pub open spec fn rank(stage: Stage) -> nat {
    match stage {
        Stage::Start => 0,
        Stage::Resolving => 1,
        Stage::Connecting => 2,
        Stage::Configuring => 3,
        Stage::Opening => 3,
        Stage::Listing => 3,
        Stage::Writing => 4,
        Stage::Flushing => 5,
        Stage::Submitting => 5,
        Stage::Finished => 6,
    }
}

/// Nothing is retried: every event moves the job strictly forward until it is
/// finished, and a finished job stays finished. A run therefore ends after at
/// most six actions.
pub proof fn law_single_attempt(job: JobView, stage: Stage, event: EventView)
    ensures
        stage != Stage::Finished ==> rank(next(job, stage, event).0) > rank(stage),
        stage == Stage::Finished ==> next(job, stage, event).0 == Stage::Finished,
        next(job, stage, event).0 == Stage::Finished <==> next(job, stage, event).1 is Finish,
{
}

/// The stages that belong to a transport.
pub open spec fn stage_fits(kind: TransportKind, stage: Stage) -> bool {
    stage == Stage::Start || stage == Stage::Finished || match kind {
        TransportKind::Network => stage == Stage::Resolving || stage == Stage::Connecting || stage
            == Stage::Configuring || stage == Stage::Writing || stage == Stage::Flushing,
        TransportKind::Device => stage == Stage::Opening || stage == Stage::Writing || stage
            == Stage::Flushing,
        TransportKind::Queue => stage == Stage::Listing || stage == Stage::Submitting,
    }
}

/// The actions that belong to a transport.
pub open spec fn action_fits(kind: TransportKind, action: ActionView) -> bool {
    action is Finish || match kind {
        TransportKind::Network => action is Resolve || action is Connect
            || action is SetWriteTimeout || action is Write || action is Flush,
        TransportKind::Device => action is OpenDevice || action is Write || action is Flush,
        TransportKind::Queue => action is ListQueues || action is Submit,
    }
}

proof fn lemma_stage_fits(job: JobView, events: Seq<EventView>)
    ensures
        stage_fits(job.kind, stage_after(job, events)),
    decreases events.len(),
{
    if events.len() > 0 {
        lemma_stage_fits(job, events.drop_last());
    }
}

/// A job only ever uses its own transport: whatever the driver reports, a
/// network job opens no device and submits no spooler job, a device job opens
/// no socket, and a queue job writes to neither.
pub proof fn law_one_transport(job: JobView, events: Seq<EventView>)
    requires
        events.len() > 0,
    ensures
        stage_fits(job.kind, stage_after(job, events)),
        action_fits(job.kind, action_after(job, events)),
{
    lemma_stage_fits(job, events);
    lemma_stage_fits(job, events.drop_last());
}

/// The events of a run in which the first `n` steps after the start succeed.
pub open spec fn smooth(n: nat) -> Seq<EventView>
    decreases n,
{
    if n == 0 {
        seq![EventView::Begin]
    } else {
        smooth((n - 1) as nat).push(EventView::Completed)
    }
}

proof fn lemma_smooth_unfold(n: nat)
    requires
        n > 0,
    ensures
        smooth(n).drop_last() == smooth((n - 1) as nat),
        smooth(n).last() == EventView::Completed,
        smooth(n).len() > 0,
{
    assert(smooth(n).drop_last() =~= smooth((n - 1) as nat));
}

proof fn lemma_network_opening(job: JobView)
    requires
        job.kind == TransportKind::Network,
    ensures
        stage_after(job, smooth(0).drop_last()) == Stage::Start,
        smooth(0).last() == EventView::Begin,
        stage_after(job, smooth(0)) == Stage::Resolving,
        stage_after(job, smooth(1)) == Stage::Connecting,
{
    assert(smooth(0).drop_last().len() == 0);
    assert(smooth(0).last() == EventView::Begin);
    assert(stage_after(job, smooth(0).drop_last()) == Stage::Start);
    assert(stage_after(job, smooth(0)) == Stage::Resolving);
    lemma_smooth_unfold(1);
}

/// A network delivery in which every step succeeds resolves the address,
/// connects and bounds its writes by the fixed timeout, writes exactly the
/// payload, flushes, and reports success naming the address.
pub proof fn law_network_delivery(job: JobView)
    requires
        job.kind == TransportKind::Network,
        job.mode == Mode::Deliver,
    ensures
        action_after(job, smooth(0)) == (ActionView::Resolve { address: job.target }),
        action_after(job, smooth(1)) == (ActionView::Connect {
            address: job.target,
            timeout_secs: NETWORK_TIMEOUT_SECS,
        }),
        action_after(job, smooth(2)) == (ActionView::SetWriteTimeout {
            secs: NETWORK_TIMEOUT_SECS,
        }),
        action_after(job, smooth(3)) == (ActionView::Write { bytes: job.payload }),
        action_after(job, smooth(4)) == ActionView::Flush,
        action_after(job, smooth(5)) == (ActionView::Finish {
            outcome: Ok(
                PrintResponseView {
                    success: true,
                    message: "Successfully printed to "@ + job.target,
                },
            ),
        }),
{
    lemma_network_opening(job);
    lemma_smooth_unfold(1);
    lemma_smooth_unfold(2);
    assert(stage_after(job, smooth(2)) == Stage::Configuring);
    lemma_smooth_unfold(3);
    assert(stage_after(job, smooth(3)) == Stage::Writing);
    lemma_smooth_unfold(4);
    assert(stage_after(job, smooth(4)) == Stage::Flushing);
    lemma_smooth_unfold(5);
}

/// A network job whose connection attempt fails, by refusal or by running out
/// of time, ends in a connect failure whose message is the same either way
/// and holds the resolved address.
pub proof fn law_unreachable_reports_address(job: JobView, timed_out: bool, cause: Seq<char>)
    requires
        job.kind == TransportKind::Network,
    ensures
        ({
            let events = smooth(1).push(EventView::Failed { timed_out, cause });
            &&& action_after(job, events) == failed(job, Fault::Connect, timed_out, cause).1
            &&& action_after(job, events)->outcome is Err
            &&& error_message(action_after(job, events)->outcome->Err_0)
                == "Failed to connect to printer at "@ + job.target + ": "@ + cause
            &&& has_infix(error_message(action_after(job, events)->outcome->Err_0), job.target)
        }),
{
    let events = smooth(1).push(EventView::Failed { timed_out, cause });
    lemma_network_opening(job);
    assert(events.drop_last() =~= smooth(1));
    assert(events.last() == (EventView::Failed { timed_out, cause }));
    let e = action_after(job, events)->outcome->Err_0;
    assert(e is Transport);
    law_unreachable_names_target(e->Transport_0);
}

/// A network delivery that fails while writing or flushing, stalled or not,
/// is reported under the step that failed.
pub proof fn law_network_transfer_failures(job: JobView, timed_out: bool, cause: Seq<char>)
    requires
        job.kind == TransportKind::Network,
    ensures
        ({
            let event = EventView::Failed { timed_out, cause };
            &&& next(job, Stage::Writing, event) == failed(job, Fault::Write, timed_out, cause)
            &&& next(job, Stage::Flushing, event) == failed(job, Fault::Flush, timed_out, cause)
            &&& error_message(next(job, Stage::Writing, event).1->outcome->Err_0)
                == "Failed to write to printer: "@ + cause
            &&& error_message(next(job, Stage::Flushing, event).1->outcome->Err_0)
                == "Failed to flush stream: "@ + cause
        }),
{
}

} // verus!
