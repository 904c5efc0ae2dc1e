//! A model of the cluster's object store, and what the context's decisions mean
//! against it. The store is the remote one as it answers when it is reached and
//! nothing else writes to it in between; nothing here runs.

use vstd::prelude::*;
use crate::context::{
    create_outcome, delete_outcome, event_outcome, get_outcome, is_status_step, replace_outcome,
    update_outcome, ReplaceReply, StatusStep,
};
use crate::clock::Instant;
use crate::error::{Error, Failure};
use crate::event::{recorded_event, Event};
use crate::resource::{written_status, Phase, ScheduledCronJob};
use crate::text::law_event_names_collide_within_a_second_only;
use crate::update::{is_after_fetch, AfterFetch, FetchPending, Transition};

verus! {

/// The identity of a namespaced object.
pub struct Key {
    pub namespace: Seq<char>,
    pub name: Seq<char>,
}

/// The identity under which the cluster files `resource`.
pub open spec fn key_of(resource: ScheduledCronJob) -> Key {
    Key { namespace: resource@.namespace_or_empty(), name: resource@.name }
}

/// The identity under which the cluster files `event`.
pub open spec fn event_key(event: Event) -> Key {
    Key { namespace: event@.namespace, name: event@.name }
}

/// Whether `reply` answers a fetch of `key` from `store`.
pub open spec fn serves_get<K>(store: Map<Key, K>, key: Key, reply: Result<K, Failure>) -> bool {
    if store.contains_key(key) {
        reply == Ok::<K, Failure>(store[key])
    } else {
        reply is Err && reply->Err_0.is_not_found()
    }
}

/// Whether `reply` answers a creation under `key` that turns `before` into `after`.
/// The store keeps its own representation of the object and answers with it; an
/// identity that is taken is refused with a conflict.
pub open spec fn serves_create<K>(
    before: Map<Key, K>,
    key: Key,
    after: Map<Key, K>,
    reply: Result<K, Failure>,
) -> bool {
    if before.contains_key(key) {
        after == before && reply is Err && reply->Err_0.is_conflict()
    } else {
        reply is Ok && after == before.insert(key, reply->Ok_0)
    }
}

/// Whether `reply` answers a deletion of `key` that turns `before` into `after`.
pub open spec fn serves_delete<K>(
    before: Map<Key, K>,
    key: Key,
    after: Map<Key, K>,
    reply: Result<(), Failure>,
) -> bool {
    if before.contains_key(key) {
        after == before.remove(key) && reply is Ok
    } else {
        after == before && reply is Err && reply->Err_0.is_not_found()
    }
}

/// Whether `reply` answers a replace of the status of `key` by that of `submitted`,
/// turning `before` into `after`. Only the status of that one object changes.
pub open spec fn serves_replace_status(
    before: Map<Key, ScheduledCronJob>,
    key: Key,
    submitted: ScheduledCronJob,
    after: Map<Key, ScheduledCronJob>,
    reply: Result<(), Failure>,
) -> bool {
    if before.contains_key(key) {
        &&& reply is Ok
        &&& after.contains_key(key)
        &&& after == before.insert(key, after[key])
        &&& after[key]@.status == submitted@.status
        &&& after[key]@.name == before[key]@.name
        &&& after[key]@.namespace == before[key]@.namespace
        &&& after[key]@.uid == before[key]@.uid
        &&& after[key]@.spec == before[key]@.spec
    } else {
        after == before && reply is Err && reply->Err_0.is_not_found()
    }
}

/// A fetch of an absent name returns `NotFound`; a fetch of a stored name returns
/// exactly what is stored.
pub proof fn law_get_reflects_store<K>(store: Map<Key, K>, key: Key, reply: Result<K, Failure>)
    requires
        serves_get(store, key, reply),
    ensures
        store.contains_key(key) ==> get_outcome(reply) == Ok::<K, Error>(store[key]),
        !store.contains_key(key) ==> get_outcome(reply) == Err::<K, Error>(Error::NotFound),
{
}

/// A creation under a free name stores the object and returns what was stored;
/// under a taken name it fails with `Upstream` and changes nothing.
pub proof fn law_create_reflects_store<K>(
    before: Map<Key, K>,
    key: Key,
    after: Map<Key, K>,
    reply: Result<K, Failure>,
)
    requires
        serves_create(before, key, after, reply),
    ensures
        !before.contains_key(key) ==> after.contains_key(key) && create_outcome(reply) == Ok::<
            K,
            Error,
        >(after[key]),
        before.contains_key(key) ==> after == before && reply is Err
            && reply->Err_0.is_conflict() && create_outcome(reply) == Err::<K, Error>(
            Error::Upstream(reply->Err_0),
        ),
{
}

/// A deletion succeeds whether or not the name was stored, and a fetch of the
/// name after it returns `NotFound`.
pub proof fn law_delete_is_idempotent<K>(
    before: Map<Key, K>,
    key: Key,
    after: Map<Key, K>,
    deleted: Result<(), Failure>,
    fetched: Result<K, Failure>,
)
    requires
        serves_delete(before, key, after, deleted),
        serves_get(after, key, fetched),
    ensures
        delete_outcome(deleted) == Ok::<(), Error>(()),
        !after.contains_key(key),
        get_outcome(fetched) == Err::<K, Error>(Error::NotFound),
        forall|other: Key| other != key ==> (after.contains_key(other) <==> before.contains_key(other)),
{
}

/// Two events recorded for one resource within the same second have the same
/// identity.
pub proof fn law_same_second_same_identity(
    resource: ScheduledCronJob,
    first: Event,
    second: Event,
    event_type: Seq<char>,
    reason: Seq<char>,
    message: Seq<char>,
    at_first: Instant,
    at_second: Instant,
)
    requires
        first@ == recorded_event(resource@, event_type, reason, message, at_first),
        second@ == recorded_event(resource@, event_type, reason, message, at_second),
        at_first.secs == at_second.secs,
    ensures
        event_key(first) == event_key(second),
{
}

/// Two events recorded for one resource in different seconds have different
/// identities, so neither absorbs the other.
pub proof fn law_other_second_other_identity(
    resource: ScheduledCronJob,
    first: Event,
    second: Event,
    event_type: Seq<char>,
    reason: Seq<char>,
    message: Seq<char>,
    at_first: Instant,
    at_second: Instant,
)
    requires
        first@ == recorded_event(resource@, event_type, reason, message, at_first),
        second@ == recorded_event(resource@, event_type, reason, message, at_second),
        at_first.secs != at_second.secs,
    ensures
        event_key(first) != event_key(second),
{
    law_event_names_collide_within_a_second_only(
        resource@.name,
        at_first.secs as int,
        at_second.secs as int,
    );
}

/// Recording an event twice for one resource within the same second leaves
/// exactly one event stored under their identity: the second call is absorbed
/// and changes nothing, and both calls succeed.
pub proof fn law_event_recorded_once(
    store: Map<Key, Event>,
    resource: ScheduledCronJob,
    first: Event,
    second: Event,
    event_type: Seq<char>,
    reason: Seq<char>,
    message: Seq<char>,
    at_first: Instant,
    at_second: Instant,
    after_first: Map<Key, Event>,
    first_reply: Result<Event, Failure>,
    after_second: Map<Key, Event>,
    second_reply: Result<Event, Failure>,
)
    requires
        first@ == recorded_event(resource@, event_type, reason, message, at_first),
        second@ == recorded_event(resource@, event_type, reason, message, at_second),
        at_first.secs == at_second.secs,
        serves_create(store, event_key(first), after_first, first_reply),
        serves_create(after_first, event_key(second), after_second, second_reply),
    ensures
        event_outcome(first_reply) == Ok::<(), Error>(()),
        event_outcome(second_reply) == Ok::<(), Error>(()),
        after_second == after_first,
        after_second.dom() == store.dom().insert(event_key(first)),
{
    law_same_second_same_identity(
        resource,
        first,
        second,
        event_type,
        reason,
        message,
        at_first,
        at_second,
    );
    assert(after_second.dom() =~= store.dom().insert(event_key(first)));
}

/// A status update of a resource that is no longer stored ends with success
/// at the fetch: no replace is asked for, so nothing is written.
pub proof fn law_status_update_of_absent_resource(
    store: Map<Key, ScheduledCronJob>,
    resource: ScheduledCronJob,
    fetched: Result<ScheduledCronJob, Failure>,
    phase: Phase,
    message: Seq<char>,
    stamp: Seq<char>,
    step: StatusStep,
)
    requires
        !store.contains_key(key_of(resource)),
        serves_get(store, key_of(resource), fetched),
        is_status_step(fetched, phase, message, stamp, step),
    ensures
        step == StatusStep::Finished(Ok(())),
{
}

/// After a status update of a stored resource has succeeded, a fetch of the
/// resource returns the phase, the message and the stamp that were written, and
/// the rest of the resource as it was stored before.
pub proof fn law_status_update_reads_back(
    store: Map<Key, ScheduledCronJob>,
    resource: ScheduledCronJob,
    fetched: Result<ScheduledCronJob, Failure>,
    phase: Phase,
    message: Seq<char>,
    stamp: Seq<char>,
    step: StatusStep,
    after: Map<Key, ScheduledCronJob>,
    replaced: Result<(), Failure>,
    fetched_again: Result<ScheduledCronJob, Failure>,
)
    requires
        store.contains_key(key_of(resource)),
        serves_get(store, key_of(resource), fetched),
        is_status_step(fetched, phase, message, stamp, step),
        step is Replace,
        serves_replace_status(store, key_of(resource), step->Replace_0, after, replaced),
        serves_get(after, key_of(resource), fetched_again),
    ensures
        replace_outcome(ReplaceReply::Answered(replaced)) == Ok::<(), Error>(()),
        get_outcome(fetched_again) is Ok,
        get_outcome(fetched_again)->Ok_0@.status == Some(written_status(phase, message, stamp)),
        get_outcome(fetched_again)->Ok_0@.spec == store[key_of(resource)]@.spec,
        get_outcome(fetched_again)->Ok_0@.name == store[key_of(resource)]@.name,
        after.dom() == store.dom(),
{
    assert(after.dom() =~= store.dom());
}

/// Where the status half succeeds, an update returns the result of its event.
pub proof fn lemma_success_of_status_keeps_event_result(event: Result<(), Error>)
    ensures
        update_outcome(event, Ok(())) == event,
{
    match event {
        Ok(unit) => {
            assert(unit == ());
        },
        Err(_) => {},
    }
}

/// The identity of the object that `transition` writes to.
pub open spec fn target_key(transition: Transition) -> Key {
    Key { namespace: transition.namespace@, name: transition.name@ }
}

/// An update of a resource that is no longer stored ends at the fetch with the
/// result of its event: no replace is asked for, so the resource is not brought
/// back.
pub proof fn law_update_of_absent_resource(
    store: Map<Key, ScheduledCronJob>,
    pending: FetchPending,
    fetched: Result<ScheduledCronJob, Failure>,
    next: AfterFetch,
)
    requires
        !store.contains_key(target_key(pending.transition)),
        serves_get(store, target_key(pending.transition), fetched),
        is_after_fetch(pending, fetched, next),
    ensures
        next == AfterFetch::Return(pending.event_result),
{
    lemma_success_of_status_keeps_event_result(pending.event_result);
}

/// An update of a stored resource asks for a replace; once the store has served
/// it, a fetch of the resource returns the phase, message and stamp of the
/// transition, and the update returns the result of its event.
pub proof fn law_update_reads_back(
    store: Map<Key, ScheduledCronJob>,
    pending: FetchPending,
    fetched: Result<ScheduledCronJob, Failure>,
    next: AfterFetch,
    after: Map<Key, ScheduledCronJob>,
    replaced: Result<(), Failure>,
    fetched_again: Result<ScheduledCronJob, Failure>,
)
    requires
        store.contains_key(target_key(pending.transition)),
        serves_get(store, target_key(pending.transition), fetched),
        is_after_fetch(pending, fetched, next),
        next is Replace,
        serves_replace_status(
            store,
            target_key(pending.transition),
            next->Replace_0.resource,
            after,
            replaced,
        ),
        serves_get(after, target_key(pending.transition), fetched_again),
    ensures
        update_outcome(
            next->Replace_0.event_result,
            replace_outcome(ReplaceReply::Answered(replaced)),
        ) == pending.event_result,
        get_outcome(fetched_again) is Ok,
        get_outcome(fetched_again)->Ok_0@.status == Some(
            written_status(
                pending.transition.phase,
                pending.transition.message@,
                pending.transition.stamp@,
            ),
        ),
{
    lemma_success_of_status_keeps_event_result(pending.event_result);
}

} // verus!
