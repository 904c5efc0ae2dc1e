//! The audit event that records one reconciliation outcome.

use vstd::prelude::*;
use vstd::string::*;
use crate::clock::Instant;
use crate::resource::{opt_text, ScheduledCronJob, ScheduledCronJobView};
use crate::text::{event_name, event_name_text};

verus! {

/// What every recorded event names as its action.
pub open spec fn action_text() -> Seq<char> {
    "Reconciling"@
}

/// The kind of the resource that events are attached to.
pub open spec fn kind_text() -> Seq<char> {
    "ScheduledCronJob"@
}

/// The group and version under which the resource kind is registered.
pub open spec fn api_version_text() -> Seq<char> {
    "batch.divinerapier.io/v1alpha1"@
}

/// The controller's name as reporting component and as event source.
pub open spec fn component_text() -> Seq<char> {
    "scheduled-cronjob"@
}

/// The controller's name as reporting instance.
pub open spec fn instance_text() -> Seq<char> {
    "scheduled-cronjob-controller"@
}

/// The object that an event is about.
#[derive(Clone, Debug, PartialEq, Eq)]
pub struct ObjectReference {
    pub kind: String,
    pub namespace: String,
    pub name: String,
    pub api_version: String,
    pub uid: Option<String>,
}

/// The mathematical value of an [`ObjectReference`].
pub struct ObjectReferenceView {
    pub kind: Seq<char>,
    pub namespace: Seq<char>,
    pub name: Seq<char>,
    pub api_version: Seq<char>,
    pub uid: Option<Seq<char>>,
}

impl View for ObjectReference {
    type V = ObjectReferenceView;

    open spec fn view(&self) -> ObjectReferenceView {
        ObjectReferenceView {
            kind: self.kind@,
            namespace: self.namespace@,
            name: self.name@,
            api_version: self.api_version@,
            uid: opt_text(self.uid),
        }
    }
}

/// How often an event occurred, and when it was last seen.
#[derive(Clone, Copy, Debug, PartialEq, Eq, Structural)]
pub struct EventSeries {
    pub count: i32,
    pub last_observed_time: Instant,
}

/// An audit record attached to a resource.
#[derive(Clone, Debug, PartialEq, Eq)]
pub struct Event {
    pub name: String,
    pub namespace: String,
    pub action: String,
    pub count: i32,
    pub event_time: Instant,
    pub first_timestamp: Instant,
    pub last_timestamp: Instant,
    pub involved_object: ObjectReference,
    pub message: String,
    pub reason: String,
    pub reporting_component: String,
    pub reporting_instance: String,
    pub type_: String,
    pub series: EventSeries,
    pub source_component: String,
}

/// The mathematical value of an [`Event`].
pub struct EventView {
    pub name: Seq<char>,
    pub namespace: Seq<char>,
    pub action: Seq<char>,
    pub count: int,
    pub event_time: Instant,
    pub first_timestamp: Instant,
    pub last_timestamp: Instant,
    pub involved_object: ObjectReferenceView,
    pub message: Seq<char>,
    pub reason: Seq<char>,
    pub reporting_component: Seq<char>,
    pub reporting_instance: Seq<char>,
    pub type_: Seq<char>,
    pub series: EventSeries,
    pub source_component: Seq<char>,
}

impl View for Event {
    type V = EventView;

    open spec fn view(&self) -> EventView {
        EventView {
            name: self.name@,
            namespace: self.namespace@,
            action: self.action@,
            count: self.count as int,
            event_time: self.event_time,
            first_timestamp: self.first_timestamp,
            last_timestamp: self.last_timestamp,
            involved_object: self.involved_object@,
            message: self.message@,
            reason: self.reason@,
            reporting_component: self.reporting_component@,
            reporting_instance: self.reporting_instance@,
            type_: self.type_@,
            series: self.series,
            source_component: self.source_component@,
        }
    }
}

/// The reference by which an event points at `resource`.
pub open spec fn reference_to(resource: ScheduledCronJobView) -> ObjectReferenceView {
    ObjectReferenceView {
        kind: kind_text(),
        namespace: resource.namespace_or_empty(),
        name: resource.name,
        api_version: api_version_text(),
        uid: resource.uid,
    }
}

/// The event that records, at the instant `at`, an outcome for `resource`.
pub open spec fn recorded_event(
    resource: ScheduledCronJobView,
    event_type: Seq<char>,
    reason: Seq<char>,
    message: Seq<char>,
    at: Instant,
) -> EventView {
    EventView {
        name: event_name_text(resource.name, at.secs as int),
        namespace: resource.namespace_or_empty(),
        action: action_text(),
        count: 1,
        event_time: at,
        first_timestamp: at,
        last_timestamp: at,
        involved_object: reference_to(resource),
        message,
        reason,
        reporting_component: component_text(),
        reporting_instance: instance_text(),
        type_: event_type,
        series: EventSeries { count: 1, last_observed_time: at },
        source_component: component_text(),
    }
}

/// Builds the reference by which an event points at `resource`.
pub fn object_reference(resource: &ScheduledCronJob) -> (r: ObjectReference)
    ensures
        r@ == reference_to(resource@),
{
    let uid = match &resource.uid {
        Some(u) => Some(u.clone()),
        None => None,
    };
    ObjectReference {
        kind: String::from_str("ScheduledCronJob"),
        namespace: resource.namespace_or_default(),
        name: resource.name.clone(),
        api_version: String::from_str("batch.divinerapier.io/v1alpha1"),
        uid,
    }
}

/// Builds the event that records, at the instant `at`, an outcome for `resource`.
pub fn build_event(
    resource: &ScheduledCronJob,
    event_type: &str,
    reason: &str,
    message: &str,
    at: Instant,
) -> (r: Event)
    ensures
        r@ == recorded_event(resource@, event_type@, reason@, message@, at),
{
    Event {
        name: event_name(resource.name.as_str(), at.secs),
        namespace: resource.namespace_or_default(),
        action: String::from_str("Reconciling"),
        count: 1,
        event_time: at,
        first_timestamp: at,
        last_timestamp: at,
        involved_object: object_reference(resource),
        message: String::from_str(message),
        reason: String::from_str(reason),
        reporting_component: String::from_str("scheduled-cronjob"),
        reporting_instance: String::from_str("scheduled-cronjob-controller"),
        type_: String::from_str(event_type),
        series: EventSeries { count: 1, last_observed_time: at },
        source_component: String::from_str("scheduled-cronjob"),
    }
}

} // verus!
