use measure_home_env_fs::document::FieldValue;
use measure_home_env_fs::instant::Instant;
use measure_home_env_fs::publish::PublishError;
use measure_home_env_fs::session::Action;
use measure_home_env_fs::session::Event;
use measure_home_env_fs::session::Phase;
use measure_home_env_fs::session::Reading;
use measure_home_env_fs::session::Session;

fn scenario_event() -> Event {
    Event::Measured(Some((
        Reading { temperature: 21500, humidity: 48200, pressure: 101325000 },
        Instant { year: 2024, month: 3, day: 1, hour: 10, minute: 15, second: 30 },
    )))
}

#[test]
fn dry_run_prints_and_never_publishes() {
    let mut s = Session::start(true);
    let action = s.step(scenario_event());
    assert_eq!(
        action,
        Action::PrintDocument(
            "{\"datetime\": \"2024/03/01 10:15:30\", \"temperature\": 21.500, \"humidity\": 48.200, \"pressure\": 1013.250}"
                .to_string()
        )
    );
    assert_eq!(s.phase, Phase::Complete);
}

#[test]
fn live_run_publishes_document_and_id_from_one_instant() {
    let mut s = Session::start(false);
    let action = s.step(scenario_event());
    match action {
        Action::Publish(doc, id) => {
            assert_eq!(id, "20240301101530");
            assert_eq!(
                doc.datetime,
                FieldValue::StringValue("2024/03/01 10:15:30".to_string())
            );
            assert_eq!(doc.temperature, FieldValue::DoubleValue(21500));
            assert_eq!(doc.humidity, FieldValue::DoubleValue(48200));
            assert_eq!(doc.pressure, FieldValue::DoubleValue(1013250));
        }
        other => panic!("expected a publish action, got {:?}", other),
    }
    assert_eq!(s.phase, Phase::AwaitingPublish);
}

#[test]
fn sensor_failure_aborts_before_any_document_exists() {
    let mut s = Session::start(false);
    let action = s.step(Event::Measured(None));
    assert_eq!(action, Action::AbortMeasurement("measurement failed".to_string()));
    assert_eq!(s.phase, Phase::Complete);
}

#[test]
fn publish_success_finishes_silently() {
    let mut s = Session::start(false);
    let _ = s.step(scenario_event());
    let action = s.step(Event::PublishFinished(None));
    assert_eq!(action, Action::Finish);
    assert_eq!(s.phase, Phase::Complete);
}

#[test]
fn each_publish_failure_yields_one_report_and_a_normal_end() {
    let kinds: Vec<(PublishError, &str)> = vec![
        (
            PublishError::TransportError("dns".to_string()),
            "transport error: dns",
        ),
        (
            PublishError::MissingCredentialMaterial,
            "missing credential material",
        ),
        (
            PublishError::MissingAuthToken("no token".to_string()),
            "missing auth token: no token",
        ),
        (PublishError::Cancelled, "request cancelled"),
        (
            PublishError::PayloadTooLarge(9, 8),
            "payload too large: 9 exceeds limit 8",
        ),
        (
            PublishError::RemoteFailure("503".to_string()),
            "remote failure: 503",
        ),
        (
            PublishError::BadRequest("bad".to_string()),
            "bad request: bad",
        ),
        (
            PublishError::FieldConflict("clash".to_string()),
            "field conflict: clash",
        ),
        (
            PublishError::ResponseDecodeError("eof".to_string()),
            "response decode error: eof",
        ),
    ];
    for (kind, expected) in kinds {
        let mut s = Session::start(false);
        let _ = s.step(scenario_event());
        let action = s.step(Event::PublishFinished(Some(kind)));
        assert_eq!(action, Action::ReportFailure(expected.to_string()));
        assert_eq!(s.phase, Phase::Complete);
    }
}
