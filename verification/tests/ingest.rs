use api_server::config::DatabaseConfig;
use api_server::ingest::{
    hello_body, ingest_decision, insert_status, IngestAction, InsertOutcome, Location,
    STATUS_INTERNAL_SERVER_ERROR, STATUS_OK,
};

fn location(lat: f64, lng: f64) -> Location {
    Location {
        lat_bits: lat.to_bits(),
        lng_bits: lng.to_bits(),
    }
}

#[test]
fn present_payload_is_inserted_as_submitted() {
    let loc = location(48.858844, 2.294351);
    let action = ingest_decision(&Some(loc));
    match action {
        IngestAction::Insert(inserted) => {
            assert_eq!(f64::from_bits(inserted.lat_bits), 48.858844);
            assert_eq!(f64::from_bits(inserted.lng_bits), 2.294351);
        }
        IngestAction::Reject => panic!("a valid payload must reach the insert"),
    }
}

#[test]
fn missing_field_never_reaches_the_insert() {
    // the deserialization layer hands over nothing when `lng` is absent
    assert_eq!(ingest_decision(&None), IngestAction::Reject);
}

#[test]
fn every_submission_of_a_batch_gets_exactly_one_insert() {
    let mut inserts: usize = 0;
    for i in 0..100 {
        let loc = location(f64::from(i), -f64::from(i));
        match ingest_decision(&Some(loc)) {
            IngestAction::Insert(inserted) => {
                assert_eq!(inserted, loc);
                inserts += 1;
            }
            IngestAction::Reject => panic!("a valid payload must reach the insert"),
        }
    }
    assert_eq!(inserts, 100);
}

#[test]
fn completed_insert_acknowledges_with_ok() {
    assert_eq!(insert_status(&InsertOutcome::Inserted(1)), 200);
    assert_eq!(STATUS_OK, 200);
}

#[test]
fn failed_insert_reports_server_error() {
    assert_eq!(insert_status(&InsertOutcome::Failed), 500);
    assert_eq!(STATUS_INTERNAL_SERVER_ERROR, 500);
}

#[test]
fn failed_insert_leaves_later_requests_untouched() {
    // a lost connection fails one request; the next one succeeds as usual
    assert_eq!(insert_status(&InsertOutcome::Failed), 500);
    assert_eq!(insert_status(&InsertOutcome::Inserted(1)), 200);
    assert_eq!(insert_status(&InsertOutcome::Failed), 500);
    assert_eq!(insert_status(&InsertOutcome::Inserted(1)), 200);
}

#[test]
fn finite_coordinates_are_valid() {
    assert!(location(0.0, 0.0).is_valid());
    assert!(location(-90.0, 180.0).is_valid());
    assert!(location(f64::MAX, f64::MIN).is_valid());
}

#[test]
fn non_finite_coordinates_are_invalid() {
    assert!(!location(f64::INFINITY, 0.0).is_valid());
    assert!(!location(0.0, f64::NEG_INFINITY).is_valid());
    assert!(!location(f64::NAN, 0.0).is_valid());
}

#[test]
fn hello_greets_from_the_server() {
    assert_eq!(hello_body(), "hello from server!");
}

#[test]
fn config_keeps_the_connection_url() {
    let config = DatabaseConfig::new(String::from("sqlite://sqlite.db"));
    assert_eq!(config.connection_url, "sqlite://sqlite.db");
}
