//! The controlled resource and its status, as far as the context reads them.

use vstd::prelude::*;

verus! {

/// The text of an optional string.
pub open spec fn opt_text(o: Option<String>) -> Option<Seq<char>> {
    match o {
        Some(s) => Some(s@),
        None => None,
    }
}

/// The text of an optional string, or the empty text.
pub open spec fn text_or_empty(o: Option<String>) -> Seq<char> {
    match o {
        Some(s) => s@,
        None => Seq::<char>::empty(),
    }
}

/// The coarse lifecycle stage of a scheduled cron job.
#[derive(Clone, Copy, Debug, PartialEq, Eq, Structural)]
pub enum Phase {
    Pending,
    Running,
    Succeeded,
    Failed,
}

impl Phase {
    /// The stable text of the phase, used for display and as an event's reason.
    pub open spec fn text(&self) -> Seq<char> {
        match self {
            Phase::Pending => "Pending"@,
            Phase::Running => "Running"@,
            Phase::Succeeded => "Succeeded"@,
            Phase::Failed => "Failed"@,
        }
    }

    /// The stable text of the phase.
    pub fn as_str(&self) -> (r: &'static str)
        ensures
            r@ == self.text(),
    {
        match self {
            Phase::Pending => "Pending",
            Phase::Running => "Running",
            Phase::Succeeded => "Succeeded",
            Phase::Failed => "Failed",
        }
    }
}

/// The observed state of a scheduled cron job.
#[derive(Clone, Debug, PartialEq, Eq)]
pub struct Status {
    pub phase: Phase,
    pub message: Option<String>,
    pub last_update_time: Option<String>,
}

/// The mathematical value of a [`Status`].
pub struct StatusView {
    pub phase: Phase,
    pub message: Option<Seq<char>>,
    pub last_update_time: Option<Seq<char>>,
}

impl View for Status {
    type V = StatusView;

    open spec fn view(&self) -> StatusView {
        StatusView {
            phase: self.phase,
            message: opt_text(self.message),
            last_update_time: opt_text(self.last_update_time),
        }
    }
}

/// The status that a transition to `phase` writes.
pub open spec fn written_status(phase: Phase, message: Seq<char>, stamp: Seq<char>) -> StatusView {
    StatusView { phase, message: Some(message), last_update_time: Some(stamp) }
}

/// A scheduled cron job as the cluster stores it. The body of its specification is
/// carried through unread.
#[derive(Clone, Debug, PartialEq, Eq)]
pub struct ScheduledCronJob {
    pub name: String,
    pub namespace: Option<String>,
    pub uid: Option<String>,
    pub resource_version: Option<String>,
    pub spec: String,
    pub status: Option<Status>,
}

/// The mathematical value of a [`ScheduledCronJob`].
pub struct ScheduledCronJobView {
    pub name: Seq<char>,
    pub namespace: Option<Seq<char>>,
    pub uid: Option<Seq<char>>,
    pub resource_version: Option<Seq<char>>,
    pub spec: Seq<char>,
    pub status: Option<StatusView>,
}

impl ScheduledCronJobView {
    /// The namespace under which the cluster files the resource: empty where none is set.
    pub open spec fn namespace_or_empty(&self) -> Seq<char> {
        match self.namespace {
            Some(ns) => ns,
            None => Seq::<char>::empty(),
        }
    }

    /// The same resource with its status replaced.
    pub open spec fn with_status(&self, status: StatusView) -> ScheduledCronJobView {
        ScheduledCronJobView {
            name: self.name,
            namespace: self.namespace,
            uid: self.uid,
            resource_version: self.resource_version,
            spec: self.spec,
            status: Some(status),
        }
    }
}

impl View for ScheduledCronJob {
    type V = ScheduledCronJobView;

    open spec fn view(&self) -> ScheduledCronJobView {
        ScheduledCronJobView {
            name: self.name@,
            namespace: opt_text(self.namespace),
            uid: opt_text(self.uid),
            resource_version: opt_text(self.resource_version),
            spec: self.spec@,
            status: match self.status {
                Some(s) => Some(s@),
                None => None,
            },
        }
    }
}

impl ScheduledCronJob {
    /// The namespace of the resource, empty where none is set.
    pub fn namespace_or_default(&self) -> (r: String)
        ensures
            r@ == self@.namespace_or_empty(),
    {
        match &self.namespace {
            Some(ns) => ns.clone(),
            None => String::new(),
        }
    }

    /// The namespace and the name under which the cluster files the resource.
    pub fn target(&self) -> (r: (String, String))
        ensures
            r.0@ == self@.namespace_or_empty(),
            r.1@ == self@.name,
    {
        (self.namespace_or_default(), self.name.clone())
    }

    /// The resource with its status set to the transition's phase, message and stamp;
    /// everything else is kept.
    pub fn set_status(self, phase: Phase, message: &str, stamp: &str) -> (r: ScheduledCronJob)
        ensures
            r@ == self@.with_status(written_status(phase, message@, stamp@)),
    {
        let status = Status {
            phase,
            message: Some(message.to_owned()),
            last_update_time: Some(stamp.to_owned()),
        };
        ScheduledCronJob {
            name: self.name,
            namespace: self.namespace,
            uid: self.uid,
            resource_version: self.resource_version,
            spec: self.spec,
            status: Some(status),
        }
    }
}

} // verus!
