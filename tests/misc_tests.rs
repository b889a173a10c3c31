use ariadne::error::ApiError;
use ariadne::guards::{admin_key_matches, ADMIN_KEY_HEADER};
use ariadne::query::{multipliers_window, resolution_minutes};
use ariadne::scheduler::{JobAction, PeriodicJob};

#[test]
fn error_statuses_and_names() {
    let cases = vec![
        (ApiError::Env, 500, "environment_error", "Environment Error"),
        (ApiError::InvalidInput("x".to_string()), 400, "invalid_input", "Invalid Input: x"),
        (ApiError::Json("bad".to_string()), 400, "json_error", "Deserialization error: bad"),
        (ApiError::Api, 424, "api_error", "Error while communicating to labrinth"),
        (ApiError::Authentication("no".to_string()), 401, "authentication_error", "Invalid Authentication Credentials: no"),
        (ApiError::Clickhouse("down".to_string()), 500, "clickhouse_error", "Clickhouse error: down"),
    ];
    for (e, status, name, description) in cases {
        assert_eq!(e.status_code(), status);
        assert_eq!(e.error_name(), name);
        assert_eq!(e.description(), description);
        let d = e.description();
        let body = e.error_response(&d);
        assert_eq!(body.error, name);
        assert_eq!(body.description, description);
    }
}

#[test]
fn admin_keys() {
    assert_eq!(ADMIN_KEY_HEADER, "Modrinth-Admin");
    assert!(admin_key_matches(Some(b"secret"), b"secret"));
    assert!(!admin_key_matches(Some(b"secreT"), b"secret"));
    assert!(!admin_key_matches(Some(b"secre"), b"secret"));
    assert!(!admin_key_matches(None, b"secret"));
}

#[test]
fn day_windows() {
    assert_eq!(multipliers_window(0), (0, 86400));
    assert_eq!(multipliers_window(3 * 86400 + 5), (3 * 86400, 4 * 86400));
    assert_eq!(multipliers_window(1_700_000_000), (1_699_920_000, 1_700_006_400));
    assert_eq!(multipliers_window(-1), (-86400, 0));
}

#[test]
fn resolutions() {
    let day = 86400i64;
    assert_eq!(resolution_minutes(0, day, None), 5);
    assert_eq!(resolution_minutes(0, 7 * day, None), 5);
    assert_eq!(resolution_minutes(0, 8 * day, None), 15);
    assert_eq!(resolution_minutes(0, 31 * day, None), 60);
    assert_eq!(resolution_minutes(0, 91 * day, None), 1440);
    assert_eq!(resolution_minutes(0, 731 * day, None), 10080);
    assert_eq!(resolution_minutes(0, 31 * day, Some(30)), 60);
    assert_eq!(resolution_minutes(0, 31 * day, Some(120)), 120);
    assert_eq!(resolution_minutes(i64::MIN, i64::MAX, Some(1)), 10080);
}

#[test]
fn fixed_delay_without_overlap() {
    let mut job = PeriodicJob::new(300, 1000);
    assert_eq!(job.poll(999), JobAction::Sleep(1));
    assert_eq!(job.poll(1000), JobAction::Start);
    assert_eq!(job.poll(1100), JobAction::Busy);
    assert_eq!(job.poll(5000), JobAction::Busy);
    job.complete(5000);
    assert_eq!(job.poll(5100), JobAction::Sleep(200));
    assert_eq!(job.poll(5300), JobAction::Start);
    job.complete(u64::MAX - 1);
    assert_eq!(job.poll(u64::MAX - 1), JobAction::Sleep(1));
}
