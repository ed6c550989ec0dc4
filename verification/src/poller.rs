//! The decisions of the background poll loop, separated from the work the
//! loop performs. The surrounding loop fetches over the network, decodes the
//! JSON body, and hands the observed event in as a plain value; `poll_step`
//! decides what to publish, whether to sleep, and whether to terminate. The
//! one-shot facade's waiting rule is `facade_step`.

use vstd::prelude::*;

use crate::api::Pass;
use crate::channel::PollOutcome;
use crate::channel::ResultChannel;
use crate::spot::Spot;

verus! {

/// What one fetch attempt came to, as the loop around the network observed
/// it.
pub enum FetchEvent {
    /// The request itself failed (connection refused, DNS, timeout): no
    /// response arrived at all.
    TransportError,
    /// A response arrived with a non-success status; its rendered status
    /// line.
    HttpError(String),
    /// A success status arrived but the body did not decode; the decoder's
    /// message.
    DecodeError(String),
    /// A success status arrived and the body decoded into wire records.
    Fetched(Vec<Pass>),
}

/// What one poll iteration must do after its fetch attempt.
pub struct PollStep {
    /// The outcome to publish, if any. A transport failure publishes
    /// nothing: the attempt is silently retried, a deliberate gap kept from
    /// the design rather than resolved here.
    pub publish: Option<PollOutcome>,
    /// Whether to suspend for the configured poll interval before the next
    /// attempt. Only a successful cycle under a non-zero interval sleeps;
    /// failures are retried without delay.
    pub sleep: bool,
    /// Whether the poller terminates: only after a successful cycle when the
    /// interval is zero (one-shot mode).
    pub stop: bool,
}

/// The event a wire record stands for: duration seconds and UTC epoch rise
/// time carried over unchanged.
pub open spec fn spot_of_pass(p: Pass) -> Spot {
    Spot { duration: p.duration, risetime: p.risetime }
}

/// Maps the decoded wire records into events, one for one, keeping the
/// service's chronological order.
pub fn spots_of_passes(records: &Vec<Pass>) -> (r: Vec<Spot>)
    ensures
        r@.len() == records@.len(),
        forall|i: int| 0 <= i < records@.len() ==> r@[i] == spot_of_pass(#[trigger] records@[i]),
{
    let mut result: Vec<Spot> = Vec::new();
    let mut i: usize = 0;
    while i < records.len()
        invariant
            i <= records@.len(),
            result@.len() == i,
            forall|j: int| 0 <= j < i ==> result@[j] == spot_of_pass(#[trigger] records@[j]),
        decreases records@.len() - i,
    {
        let record = records[i];
        result.push(
            Spot {
                duration: record.duration,
                risetime: crate::spot::from_utc_timestamp(record.risetime),
            },
        );
        i += 1;
    }
    result
}

/// Decides one poll iteration from its fetch event and the configured
/// interval. A transport failure publishes nothing and retries; an HTTP
/// status failure or a decode failure publishes the message and retries
/// without sleeping; a successful fetch publishes the mapped events and
/// either terminates (zero interval, one-shot) or sleeps out the interval.
pub fn poll_step(event: FetchEvent, poll_mins: u64) -> (r: PollStep)
    ensures
        event is TransportError ==> r == (PollStep {
            publish: None::<PollOutcome>,
            sleep: false,
            stop: false,
        }),
        event matches FetchEvent::HttpError(m) ==> r == (PollStep {
            publish: Some(PollOutcome::Failure(m)),
            sleep: false,
            stop: false,
        }),
        event matches FetchEvent::DecodeError(m) ==> r == (PollStep {
            publish: Some(PollOutcome::Failure(m)),
            sleep: false,
            stop: false,
        }),
        event matches FetchEvent::Fetched(records) ==> {
            &&& r.publish matches Some(PollOutcome::Success(spots))
                && spots@.len() == records@.len() && (forall|i: int|
                0 <= i < records@.len() ==> spots@[i] == spot_of_pass(#[trigger] records@[i]))
            &&& r.sleep == (poll_mins != 0)
            &&& r.stop == (poll_mins == 0)
        },
{
    match event {
        FetchEvent::TransportError => PollStep { publish: None, sleep: false, stop: false },
        FetchEvent::HttpError(message) => PollStep {
            publish: Some(PollOutcome::Failure(message)),
            sleep: false,
            stop: false,
        },
        FetchEvent::DecodeError(message) => PollStep {
            publish: Some(PollOutcome::Failure(message)),
            sleep: false,
            stop: false,
        },
        FetchEvent::Fetched(records) => PollStep {
            publish: Some(PollOutcome::Success(spots_of_passes(&records))),
            sleep: poll_mins != 0,
            stop: poll_mins == 0,
        },
    }
}

/// Runs the channel side of one poll iteration: publishes whatever
/// `poll_step` decided (exactly one outcome per iteration, none for a
/// transport failure) and reports whether the poller terminates.
pub fn publish_step(channel: &mut ResultChannel, event: FetchEvent, poll_mins: u64) -> (stop:
    bool)
    ensures
        old(channel).queued().len() <= final(channel).queued().len()
            <= old(channel).queued().len() + 1,
        event is TransportError ==> final(channel).queued() == old(channel).queued() && !stop,
        event matches FetchEvent::HttpError(m) ==> final(channel).queued()
            == old(channel).queued().push(PollOutcome::Failure(m)) && !stop,
        event matches FetchEvent::DecodeError(m) ==> final(channel).queued()
            == old(channel).queued().push(PollOutcome::Failure(m)) && !stop,
        event matches FetchEvent::Fetched(records) ==> {
            &&& final(channel).queued().len() == old(channel).queued().len() + 1
            &&& final(channel).queued().last() matches PollOutcome::Success(spots)
                && spots@.len() == records@.len() && (forall|i: int|
                0 <= i < records@.len() ==> spots@[i] == spot_of_pass(#[trigger] records@[i]))
            &&& final(channel).queued().drop_last() == old(channel).queued()
            &&& stop == (poll_mins == 0)
        },
{
    let step = poll_step(event, poll_mins);
    match step.publish {
        Some(outcome) => channel.publish(outcome),
        None => (),
    }
    step.stop
}

/// What the one-shot facade does with one drained value.
pub enum FacadeStep {
    /// Nothing was queued, or only the loading sentinel: keep waiting. The
    /// sentinel is never surfaced to the facade's caller.
    Wait,
    /// A terminal outcome: the events on success, the message on failure.
    Done(Result<Vec<Spot>, String>),
}

/// Decides the facade's reaction to one drained value: wait through
/// emptiness and the loading sentinel, stop with `Ok` on the first success,
/// stop with `Err` on the first failure.
pub fn facade_step(drained: Option<PollOutcome>) -> (r: FacadeStep)
    ensures
        drained is None ==> r is Wait,
        drained == Some(PollOutcome::Loading) ==> r is Wait,
        drained matches Some(PollOutcome::Failure(m)) ==> r == FacadeStep::Done(
            Err::<Vec<Spot>, String>(m),
        ),
        drained matches Some(PollOutcome::Success(spots)) ==> r == FacadeStep::Done(
            Ok::<Vec<Spot>, String>(spots),
        ),
{
    match drained {
        None => FacadeStep::Wait,
        Some(PollOutcome::Loading) => FacadeStep::Wait,
        Some(PollOutcome::Failure(message)) => FacadeStep::Done(Err(message)),
        Some(PollOutcome::Success(spots)) => FacadeStep::Done(Ok(spots)),
    }
}

} // verus!
