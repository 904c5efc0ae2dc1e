//! The reconciliation context: what each operation sends to the cluster, and what
//! it returns for each reply.

use vstd::prelude::*;
use crate::clock::{read_clock, Moment};
use crate::error::{Error, Failure, CONFLICT, NOT_FOUND};
use crate::event::{build_event, recorded_event, Event};
use crate::resource::{written_status, Phase, ScheduledCronJob};

verus! {

/// The cluster's `CronJob` object, `k8s_openapi::api::batch::v1::CronJob`. The
/// context never looks inside one: it only hands it on.
#[verifier::external_type_specification]
#[verifier::external_body]
pub struct ExCronJob(k8s_openapi::api::batch::v1::CronJob);

/// How the cluster treats the dependents of a deleted object.
#[derive(Clone, Copy, Debug, PartialEq, Eq, Structural)]
pub enum Propagation {
    Orphan,
    Background,
    Foreground,
}

/// What a fetch returns for each reply: absence is told apart from other failures.
pub open spec fn get_outcome<K>(reply: Result<K, Failure>) -> Result<K, Error> {
    match reply {
        Ok(object) => Ok(object),
        Err(f) => if f.is_not_found() {
            Err(Error::NotFound)
        } else {
            Err(Error::Upstream(f))
        },
    }
}

/// What a creation returns for each reply: every failure is surfaced.
pub open spec fn create_outcome<K>(reply: Result<K, Failure>) -> Result<K, Error> {
    match reply {
        Ok(object) => Ok(object),
        Err(f) => Err(Error::Upstream(f)),
    }
}

/// What a deletion returns for each reply: absence counts as success.
pub open spec fn delete_outcome(reply: Result<(), Failure>) -> Result<(), Error> {
    match reply {
        Ok(_) => Ok(()),
        Err(f) => if f.is_not_found() {
            Ok(())
        } else {
            Err(Error::Upstream(f))
        },
    }
}

/// What recording an event returns for each reply: a conflict counts as success.
pub open spec fn event_outcome<K>(reply: Result<K, Failure>) -> Result<(), Error> {
    match reply {
        Ok(_) => Ok(()),
        Err(f) => if f.is_conflict() {
            Ok(())
        } else {
            Err(Error::Upstream(f))
        },
    }
}

/// What a status update does once the fresh copy was asked for.
#[derive(Debug, PartialEq, Eq)]
pub enum StatusStep {
    /// Nothing is sent: the update ends with this result.
    Finished(Result<(), Error>),
    /// The status subresource is to be replaced by that of this resource.
    Replace(ScheduledCronJob),
}

/// Whether `step` is what a status update does on the reply `fetched`.
pub open spec fn is_status_step(
    fetched: Result<ScheduledCronJob, Failure>,
    phase: Phase,
    message: Seq<char>,
    stamp: Seq<char>,
    step: StatusStep,
) -> bool {
    match fetched {
        Ok(current) => step matches StatusStep::Replace(next) && next@ == current@.with_status(
            written_status(phase, message, stamp),
        ),
        Err(f) => if f.is_not_found() {
            step == StatusStep::Finished(Ok(()))
        } else {
            step == StatusStep::Finished(Err(Error::Upstream(f)))
        },
    }
}

/// How a replace of the status subresource ended.
#[derive(Debug, PartialEq, Eq)]
pub enum ReplaceReply {
    /// The resource could not be encoded, so nothing was sent.
    NotEncoded(String),
    /// The cluster's answer.
    Answered(Result<(), Failure>),
}

/// What a status update returns once the replace has ended.
pub open spec fn replace_outcome(reply: ReplaceReply) -> Result<(), Error> {
    match reply {
        ReplaceReply::NotEncoded(cause) => Err(Error::Serialization(cause)),
        ReplaceReply::Answered(Ok(_)) => Ok(()),
        ReplaceReply::Answered(Err(f)) => Err(Error::Upstream(f)),
    }
}

/// The result of announcing and persisting an outcome: the first failure of the
/// two steps, success where both succeeded.
pub open spec fn update_outcome(event: Result<(), Error>, status: Result<(), Error>) -> Result<
    (),
    Error,
> {
    match event {
        Err(e) => Err(e),
        Ok(_) => status,
    }
}

/// Decides a status update on the reply to its fetch, with the text `stamp` as the
/// time of the update.
pub fn status_step(
    fetched: Result<ScheduledCronJob, Failure>,
    phase: Phase,
    message: &str,
    stamp: &str,
) -> (r: StatusStep)
    ensures
        is_status_step(fetched, phase, message@, stamp@, r),
{
    match fetched {
        Ok(current) => StatusStep::Replace(current.set_status(phase, message, stamp)),
        Err(f) => {
            if f.has_code(NOT_FOUND) {
                StatusStep::Finished(Ok(()))
            } else {
                StatusStep::Finished(Err(Error::Upstream(f)))
            }
        },
    }
}

/// The reconciliation context. It holds no connection: the caller performs each
/// request and hands the reply back.
#[derive(Clone, Debug, PartialEq, Eq)]
pub struct Context {}

impl Context {
    /// A context for the controller of scheduled cron jobs.
    pub fn new() -> (r: Context) {
        Context {  }
    }

    /// Decides a fetch: `NotFound` where the cluster reports absence, `Upstream`
    /// with the cause for any other failure, the object otherwise.
    pub fn get<K>(&self, reply: Result<K, Failure>) -> (r: Result<K, Error>)
        ensures
            r == get_outcome(reply),
    {
        match reply {
            Ok(object) => Ok(object),
            Err(f) => {
                if f.has_code(NOT_FOUND) {
                    Err(Error::NotFound)
                } else {
                    Err(Error::Upstream(f))
                }
            },
        }
    }

    /// Decides a creation: the stored object, or `Upstream` for every failure,
    /// a conflict included.
    pub fn create<K>(&self, reply: Result<K, Failure>) -> (r: Result<K, Error>)
        ensures
            r == create_outcome(reply),
    {
        match reply {
            Ok(object) => Ok(object),
            Err(f) => Err(Error::Upstream(f)),
        }
    }

    /// Decides the creation of a cron job, as any other creation.
    pub fn create_cronjob(
        &self,
        reply: Result<k8s_openapi::api::batch::v1::CronJob, Failure>,
    ) -> (r: Result<k8s_openapi::api::batch::v1::CronJob, Error>)
        ensures
            r == create_outcome(reply),
    {
        self.create(reply)
    }

    /// The propagation that every deletion asks for.
    pub fn delete_propagation(&self) -> (r: Propagation)
        ensures
            r == Propagation::Foreground,
    {
        Propagation::Foreground
    }

    /// Decides a deletion: success also where the object was already absent.
    pub fn delete(&self, reply: Result<(), Failure>) -> (r: Result<(), Error>)
        ensures
            r == delete_outcome(reply),
    {
        match reply {
            Ok(_) => Ok(()),
            Err(f) => {
                if f.has_code(NOT_FOUND) {
                    Ok(())
                } else {
                    Err(Error::Upstream(f))
                }
            },
        }
    }

    /// The event to post for an outcome of `resource` that is recorded at `now`.
    pub fn create_event(
        &self,
        resource: &ScheduledCronJob,
        event_type: &str,
        reason: &str,
        message: &str,
        now: &Moment,
    ) -> (r: Event)
        ensures
            r@ == recorded_event(resource@, event_type@, reason@, message@, now.at),
    {
        build_event(resource, event_type, reason, message, now.at)
    }

    /// The event to post for an outcome of `resource` that is recorded at this
    /// moment, with the clock's reading. Whatever the clock says, the event is the
    /// one recorded at that reading.
    pub fn create_event_now(
        &self,
        resource: &ScheduledCronJob,
        event_type: &str,
        reason: &str,
        message: &str,
    ) -> (r: (Event, Moment))
        ensures
            r.0@ == recorded_event(resource@, event_type@, reason@, message@, r.1.at),
    {
        let now = read_clock();
        let event = self.create_event(resource, event_type, reason, message, &now);
        (event, now)
    }

    /// Decides the posting of an event: a conflict means that the same outcome was
    /// recorded within the same second, and counts as success.
    pub fn event_posted<K>(&self, reply: Result<K, Failure>) -> (r: Result<(), Error>)
        ensures
            r == event_outcome(reply),
    {
        match reply {
            Ok(_) => Ok(()),
            Err(f) => {
                if f.has_code(CONFLICT) {
                    Ok(())
                } else {
                    Err(Error::Upstream(f))
                }
            },
        }
    }

    /// Decides a status update on the reply to its fetch. A resource that has
    /// vanished ends the update with success; any other failure ends it with
    /// `Upstream`; a fresh copy has its status overwritten and is to be sent back.
    pub fn update_status(
        &self,
        fetched: Result<ScheduledCronJob, Failure>,
        phase: Phase,
        message: &str,
        now: &Moment,
    ) -> (r: StatusStep)
        ensures
            is_status_step(fetched, phase, message@, now.text@, r),
    {
        status_step(fetched, phase, message, now.text.as_str())
    }

    /// Decides a status update on the reply to its fetch, stamped with the clock's
    /// reading.
    pub fn update_status_now(
        &self,
        fetched: Result<ScheduledCronJob, Failure>,
        phase: Phase,
        message: &str,
    ) -> (r: (StatusStep, Moment))
        ensures
            is_status_step(fetched, phase, message@, r.1.text@, r.0),
    {
        let now = read_clock();
        let step = self.update_status(fetched, phase, message, &now);
        (step, now)
    }

    /// Decides a status update once its replace has ended.
    pub fn status_replaced(&self, reply: ReplaceReply) -> (r: Result<(), Error>)
        ensures
            r == replace_outcome(reply),
    {
        match reply {
            ReplaceReply::NotEncoded(cause) => Err(Error::Serialization(cause)),
            ReplaceReply::Answered(Ok(_)) => Ok(()),
            ReplaceReply::Answered(Err(f)) => Err(Error::Upstream(f)),
        }
    }
}

} // verus!
