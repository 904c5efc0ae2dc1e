use scheduled_cronjob::clock::{Instant, Moment};
use scheduled_cronjob::context::{status_step, Context, Propagation, ReplaceReply, StatusStep};
use scheduled_cronjob::error::{Error, Failure, CONFLICT, NOT_FOUND};
use scheduled_cronjob::event::{build_event, object_reference, EventSeries};
use scheduled_cronjob::resource::{Phase, ScheduledCronJob, Status};

fn api_failure(code: u16) -> Failure {
    Failure::Api { code, reason: String::from("reason"), message: String::from("message") }
}

fn broken_pipe() -> Failure {
    Failure::Other { message: String::from("connection reset") }
}

fn job(name: &str, namespace: Option<&str>, phase: Option<Phase>) -> ScheduledCronJob {
    ScheduledCronJob {
        name: String::from(name),
        namespace: namespace.map(String::from),
        uid: Some(String::from("uid-1")),
        resource_version: Some(String::from("7")),
        spec: String::from("{\"schedule\":\"* * * * *\"}"),
        status: phase.map(|p| Status { phase: p, message: None, last_update_time: None }),
    }
}

fn moment(secs: i64, nanos: u32, text: &str) -> Moment {
    Moment { at: Instant { secs, nanos }, text: String::from(text) }
}

#[test]
fn status_codes() {
    assert_eq!(NOT_FOUND, 404);
    assert_eq!(CONFLICT, 409);
    assert!(api_failure(404).has_code(NOT_FOUND));
    assert!(!api_failure(409).has_code(NOT_FOUND));
    assert!(api_failure(409).has_code(CONFLICT));
    assert!(!broken_pipe().has_code(NOT_FOUND));
}

#[test]
fn get_returns_the_object() {
    let context = Context::new();
    let stored = job("job-a", Some("ns1"), Some(Phase::Pending));
    assert_eq!(context.get(Ok(stored.clone())), Ok(stored));
    assert_eq!(context.get(Ok(17u32)), Ok(17u32));
}

#[test]
fn get_tells_absence() {
    let context = Context::new();
    assert_eq!(context.get::<ScheduledCronJob>(Err(api_failure(404))), Err(Error::NotFound));
}

#[test]
fn get_surfaces_other_failures() {
    let context = Context::new();
    assert_eq!(
        context.get::<u32>(Err(api_failure(500))),
        Err(Error::Upstream(api_failure(500)))
    );
    assert_eq!(
        context.get::<u32>(Err(api_failure(409))),
        Err(Error::Upstream(api_failure(409)))
    );
    assert_eq!(context.get::<u32>(Err(broken_pipe())), Err(Error::Upstream(broken_pipe())));
}

#[test]
fn create_returns_the_stored_object() {
    let context = Context::new();
    let stored = job("job-a", Some("ns1"), None);
    assert_eq!(context.create(Ok(stored.clone())), Ok(stored));
}

#[test]
fn create_surfaces_every_failure() {
    let context = Context::new();
    assert_eq!(
        context.create::<u32>(Err(api_failure(409))),
        Err(Error::Upstream(api_failure(409)))
    );
    assert_eq!(
        context.create::<u32>(Err(api_failure(404))),
        Err(Error::Upstream(api_failure(404)))
    );
    assert_eq!(context.create::<u32>(Err(broken_pipe())), Err(Error::Upstream(broken_pipe())));
}

#[test]
fn delete_is_idempotent() {
    let context = Context::new();
    assert_eq!(context.delete(Ok(())), Ok(()));
    assert_eq!(context.delete(Err(api_failure(404))), Ok(()));
}

#[test]
fn delete_surfaces_other_failures() {
    let context = Context::new();
    assert_eq!(context.delete(Err(api_failure(403))), Err(Error::Upstream(api_failure(403))));
    assert_eq!(context.delete(Err(broken_pipe())), Err(Error::Upstream(broken_pipe())));
}

#[test]
fn delete_cascades_in_the_foreground() {
    assert_eq!(Context::new().delete_propagation(), Propagation::Foreground);
}

#[test]
fn event_has_the_fixed_shape() {
    let context = Context::new();
    let resource = job("job-a", Some("ns1"), Some(Phase::Pending));
    let now = moment(1700000000, 250, "2023-11-14T22:13:20.000000250+00:00");
    let event = context.create_event(&resource, "Normal", "Running", "job started", &now);
    let at = Instant { secs: 1700000000, nanos: 250 };
    assert_eq!(event.name, "job-a-1700000000");
    assert_eq!(event.namespace, "ns1");
    assert_eq!(event.action, "Reconciling");
    assert_eq!(event.count, 1);
    assert_eq!(event.event_time, at);
    assert_eq!(event.first_timestamp, at);
    assert_eq!(event.last_timestamp, at);
    assert_eq!(event.involved_object.kind, "ScheduledCronJob");
    assert_eq!(event.involved_object.namespace, "ns1");
    assert_eq!(event.involved_object.name, "job-a");
    assert_eq!(event.involved_object.api_version, "batch.divinerapier.io/v1alpha1");
    assert_eq!(event.involved_object.uid, Some(String::from("uid-1")));
    assert_eq!(event.message, "job started");
    assert_eq!(event.reason, "Running");
    assert_eq!(event.reporting_component, "scheduled-cronjob");
    assert_eq!(event.reporting_instance, "scheduled-cronjob-controller");
    assert_eq!(event.type_, "Normal");
    assert_eq!(event.series, EventSeries { count: 1, last_observed_time: at });
    assert_eq!(event.source_component, "scheduled-cronjob");
}

#[test]
fn event_of_a_resource_without_namespace_or_uid() {
    let mut resource = job("job-b", None, None);
    resource.uid = None;
    let event = build_event(&resource, "Warning", "Failed", "", Instant { secs: -1, nanos: 0 });
    assert_eq!(event.name, "job-b--1");
    assert_eq!(event.namespace, "");
    assert_eq!(event.involved_object.namespace, "");
    assert_eq!(event.involved_object.uid, None);
    assert_eq!(event.message, "");
    assert_eq!(event.type_, "Warning");
    assert_eq!(object_reference(&resource), event.involved_object);
}

#[test]
fn events_in_one_second_share_their_name() {
    let context = Context::new();
    let resource = job("job-a", Some("ns1"), None);
    let first = context.create_event(&resource, "Normal", "Running", "m", &moment(50, 1, "a"));
    let second = context.create_event(&resource, "Normal", "Running", "m", &moment(50, 999, "b"));
    let third = context.create_event(&resource, "Normal", "Running", "m", &moment(51, 1, "c"));
    assert_eq!(first.name, second.name);
    assert_eq!(first.namespace, second.namespace);
    assert_ne!(first.name, third.name);
}

#[test]
fn event_at_the_clock_reading() {
    let context = Context::new();
    let resource = job("job-a", Some("ns1"), None);
    let (event, now) = context.create_event_now(&resource, "Normal", "Running", "job started");
    assert_eq!(event.name, format!("job-a-{}", now.at.secs));
    assert_eq!(event.event_time, now.at);
    assert_eq!(event.series.last_observed_time, now.at);
    assert!(now.at.secs > 1_600_000_000);
    let parsed = chrono::DateTime::parse_from_rfc3339(&now.text).unwrap();
    assert_eq!(parsed.timestamp(), now.at.secs);
    assert_eq!(parsed.timestamp_subsec_nanos(), now.at.nanos);
}

#[test]
fn posted_event_absorbs_a_conflict() {
    let context = Context::new();
    assert_eq!(context.event_posted(Ok(())), Ok(()));
    assert_eq!(context.event_posted::<()>(Err(api_failure(409))), Ok(()));
}

#[test]
fn posted_event_surfaces_other_failures() {
    let context = Context::new();
    assert_eq!(
        context.event_posted::<()>(Err(api_failure(404))),
        Err(Error::Upstream(api_failure(404)))
    );
    assert_eq!(
        context.event_posted::<()>(Err(broken_pipe())),
        Err(Error::Upstream(broken_pipe()))
    );
}

#[test]
fn status_update_of_a_vanished_resource_succeeds() {
    let context = Context::new();
    let now = moment(10, 0, "1970-01-01T00:00:10+00:00");
    let step = context.update_status(Err(api_failure(404)), Phase::Running, "started", &now);
    assert_eq!(step, StatusStep::Finished(Ok(())));
}

#[test]
fn status_update_surfaces_a_failed_fetch() {
    let context = Context::new();
    let now = moment(10, 0, "1970-01-01T00:00:10+00:00");
    let step = context.update_status(Err(api_failure(500)), Phase::Running, "started", &now);
    assert_eq!(step, StatusStep::Finished(Err(Error::Upstream(api_failure(500)))));
    let step = context.update_status(Err(broken_pipe()), Phase::Running, "started", &now);
    assert_eq!(step, StatusStep::Finished(Err(Error::Upstream(broken_pipe()))));
}

#[test]
fn status_update_overwrites_only_the_status() {
    let context = Context::new();
    let now = moment(10, 0, "1970-01-01T00:00:10+00:00");
    let current = job("job-a", Some("ns1"), Some(Phase::Pending));
    let step = context.update_status(Ok(current.clone()), Phase::Running, "started", &now);
    let mut expected = current;
    expected.status = Some(Status {
        phase: Phase::Running,
        message: Some(String::from("started")),
        last_update_time: Some(String::from("1970-01-01T00:00:10+00:00")),
    });
    assert_eq!(step, StatusStep::Replace(expected));
}

#[test]
fn status_update_writes_over_an_equal_status() {
    let current = job("job-a", Some("ns1"), Some(Phase::Running));
    let step = status_step(Ok(current), Phase::Running, "again", "later");
    match step {
        StatusStep::Replace(next) => {
            let status = next.status.unwrap();
            assert_eq!(status.phase, Phase::Running);
            assert_eq!(status.message, Some(String::from("again")));
            assert_eq!(status.last_update_time, Some(String::from("later")));
        }
        StatusStep::Finished(_) => panic!("a fetched resource must be written"),
    }
}

#[test]
fn status_update_at_the_clock_reading() {
    let context = Context::new();
    let current = job("job-a", Some("ns1"), None);
    let (step, now) = context.update_status_now(Ok(current), Phase::Succeeded, "done");
    match step {
        StatusStep::Replace(next) => {
            let status = next.status.unwrap();
            assert_eq!(status.phase, Phase::Succeeded);
            assert_eq!(status.message, Some(String::from("done")));
            assert_eq!(status.last_update_time, Some(now.text.clone()));
        }
        StatusStep::Finished(_) => panic!("a fetched resource must be written"),
    }
    assert!(chrono::DateTime::parse_from_rfc3339(&now.text).is_ok());
}

#[test]
fn replace_results() {
    let context = Context::new();
    assert_eq!(context.status_replaced(ReplaceReply::Answered(Ok(()))), Ok(()));
    assert_eq!(
        context.status_replaced(ReplaceReply::Answered(Err(api_failure(409)))),
        Err(Error::Upstream(api_failure(409)))
    );
    assert_eq!(
        context.status_replaced(ReplaceReply::Answered(Err(api_failure(404)))),
        Err(Error::Upstream(api_failure(404)))
    );
    assert_eq!(
        context.status_replaced(ReplaceReply::NotEncoded(String::from("bad body"))),
        Err(Error::Serialization(String::from("bad body")))
    );
}

#[test]
fn target_of_a_resource() {
    let resource = job("job-a", Some("ns1"), None);
    assert_eq!(resource.target(), (String::from("ns1"), String::from("job-a")));
    let bare = job("job-b", None, None);
    assert_eq!(bare.target(), (String::new(), String::from("job-b")));
    assert_eq!(bare.namespace_or_default(), "");
}

#[test]
fn set_status_keeps_the_rest() {
    let resource = job("job-a", Some("ns1"), Some(Phase::Pending));
    let next = resource.clone().set_status(Phase::Failed, "boom", "t1");
    assert_eq!(next.name, resource.name);
    assert_eq!(next.namespace, resource.namespace);
    assert_eq!(next.uid, resource.uid);
    assert_eq!(next.resource_version, resource.resource_version);
    assert_eq!(next.spec, resource.spec);
    assert_eq!(
        next.status,
        Some(Status {
            phase: Phase::Failed,
            message: Some(String::from("boom")),
            last_update_time: Some(String::from("t1")),
        })
    );
}

#[test]
fn cronjob_creation_hands_the_object_on() {
    let context = Context::new();
    let mut stored = k8s_openapi::api::batch::v1::CronJob::default();
    stored.metadata.name = Some(String::from("job-a-run"));
    stored.metadata.uid = Some(String::from("generated"));
    assert_eq!(context.create_cronjob(Ok(stored.clone())), Ok(stored));
    assert_eq!(
        context.create_cronjob(Err(api_failure(409))),
        Err(Error::Upstream(api_failure(409)))
    );
}
