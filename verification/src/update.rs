//! Announcing and persisting an outcome: the event is posted, then the fresh copy
//! is fetched, then its status is replaced. Each stage is a value that waits for
//! one reply and yields the next stage.

use vstd::prelude::*;
use crate::clock::{read_clock, Moment};
use crate::context::{
    event_outcome, replace_outcome, status_step, update_outcome, Context, ReplaceReply,
    StatusStep,
};
use crate::error::{Error, Failure};
use crate::event::{recorded_event, Event};
use crate::resource::{written_status, Phase, ScheduledCronJob};

verus! {

/// The transition that an update writes, and the object it writes it to.
#[derive(Clone, Debug, PartialEq, Eq)]
pub struct Transition {
    pub namespace: String,
    pub name: String,
    pub phase: Phase,
    pub message: String,
    pub stamp: String,
}

/// The event is to be posted to `transition.namespace`; its reply is awaited.
#[derive(Clone, Debug, PartialEq, Eq)]
pub struct EventPending {
    pub transition: Transition,
    pub event: Event,
}

/// The object `transition.name` is to be fetched from `transition.namespace`; the
/// reply is awaited.
#[derive(Debug, PartialEq, Eq)]
pub struct FetchPending {
    pub transition: Transition,
    pub event_result: Result<(), Error>,
}

/// The status subresource of `name` in `namespace` is to be replaced by that of
/// `resource`; the reply is awaited.
#[derive(Debug, PartialEq, Eq)]
pub struct ReplacePending {
    pub namespace: String,
    pub name: String,
    pub resource: ScheduledCronJob,
    pub event_result: Result<(), Error>,
}

/// What follows the fetch.
#[derive(Debug, PartialEq, Eq)]
pub enum AfterFetch {
    /// The status is to be replaced.
    Replace(ReplacePending),
    /// The update has ended with this result.
    Return(Result<(), Error>),
}

/// Whether `transition` writes `phase` and `message`, stamped `stamp`, to `resource`.
pub open spec fn is_transition_of(
    transition: Transition,
    resource: ScheduledCronJob,
    phase: Phase,
    message: Seq<char>,
    stamp: Seq<char>,
) -> bool {
    &&& transition.namespace@ == resource@.namespace_or_empty()
    &&& transition.name@ == resource@.name
    &&& transition.phase == phase
    &&& transition.message@ == message
    &&& transition.stamp@ == stamp
}

/// The result of the status half of an update whose fetch failed with `f`.
pub open spec fn fetch_failure_outcome(f: Failure) -> Result<(), Error> {
    if f.is_not_found() {
        Ok(())
    } else {
        Err(Error::Upstream(f))
    }
}

/// Whether `next` is what follows the reply `fetched` in the stage `pending`.
pub open spec fn is_after_fetch(
    pending: FetchPending,
    fetched: Result<ScheduledCronJob, Failure>,
    next: AfterFetch,
) -> bool {
    match fetched {
        Ok(current) => {
            &&& next matches AfterFetch::Replace(replace)
            &&& replace.namespace == pending.transition.namespace
            &&& replace.name == pending.transition.name
            &&& replace.event_result == pending.event_result
            &&& replace.resource@ == current@.with_status(
                written_status(
                    pending.transition.phase,
                    pending.transition.message@,
                    pending.transition.stamp@,
                ),
            )
        },
        Err(f) => next == AfterFetch::Return(
            update_outcome(pending.event_result, fetch_failure_outcome(f)),
        ),
    }
}

impl Context {
    /// Begins an update of `resource` to `status`, recorded at `now`: the event to
    /// post has the phase's text as its reason, and the transition is kept for the
    /// stages that follow.
    pub fn update(
        &self,
        resource: &ScheduledCronJob,
        status: Phase,
        event_type: &str,
        message: &str,
        now: &Moment,
    ) -> (r: EventPending)
        ensures
            r.event@ == recorded_event(resource@, event_type@, status.text(), message@, now.at),
            is_transition_of(r.transition, *resource, status, message@, now.text@),
    {
        let event = self.create_event(resource, event_type, status.as_str(), message, now);
        let transition = Transition {
            namespace: resource.namespace_or_default(),
            name: resource.name.clone(),
            phase: status,
            message: message.to_owned(),
            stamp: now.text.clone(),
        };
        EventPending { transition, event }
    }

    /// Begins an update of `resource` to `status`, recorded at the clock's reading.
    pub fn update_now(
        &self,
        resource: &ScheduledCronJob,
        status: Phase,
        event_type: &str,
        message: &str,
    ) -> (r: (EventPending, Moment))
        ensures
            r.0.event@ == recorded_event(
                resource@,
                event_type@,
                status.text(),
                message@,
                r.1.at,
            ),
            is_transition_of(r.0.transition, *resource, status, message@, r.1.text@),
    {
        let now = read_clock();
        let pending = self.update(resource, status, event_type, message, &now);
        (pending, now)
    }
}

impl EventPending {
    /// Takes the reply to the posted event. Whatever it was, the fetch follows: a
    /// failure of the event is kept and returned at the end.
    pub fn posted<K>(self, context: &Context, reply: Result<K, Failure>) -> (r: FetchPending)
        ensures
            r.transition == self.transition,
            r.event_result == event_outcome(reply),
    {
        let event_result = context.event_posted(reply);
        FetchPending { transition: self.transition, event_result }
    }
}

impl FetchPending {
    /// Takes the reply to the fetch. A fresh copy has its status overwritten and
    /// is to be sent back; a failure ends the update, absence as a success of the
    /// status half.
    pub fn fetched(self, context: &Context, reply: Result<ScheduledCronJob, Failure>) -> (r:
        AfterFetch)
        ensures
            is_after_fetch(self, reply, r),
    {
        let step = status_step(
            reply,
            self.transition.phase,
            self.transition.message.as_str(),
            self.transition.stamp.as_str(),
        );
        match step {
            StatusStep::Replace(resource) => AfterFetch::Replace(
                ReplacePending {
                    namespace: self.transition.namespace,
                    name: self.transition.name,
                    resource,
                    event_result: self.event_result,
                },
            ),
            StatusStep::Finished(status_result) => AfterFetch::Return(
                combine(self.event_result, status_result),
            ),
        }
    }
}

impl ReplacePending {
    /// Takes the end of the replace and returns the update's result: the first
    /// failure of the two halves, or success.
    pub fn replaced(self, context: &Context, reply: ReplaceReply) -> (r: Result<(), Error>)
        ensures
            r == update_outcome(self.event_result, replace_outcome(reply)),
    {
        let status_result = context.status_replaced(reply);
        combine(self.event_result, status_result)
    }
}

/// The result of an update from the results of its two halves: the event's failure
/// where it failed, else whatever the status half returned.
pub fn combine(event: Result<(), Error>, status: Result<(), Error>) -> (r: Result<(), Error>)
    ensures
        r == update_outcome(event, status),
{
    match event {
        Err(e) => Err(e),
        Ok(_) => status,
    }
}

} // verus!
