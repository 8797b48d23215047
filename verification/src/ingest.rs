//! The decisions of the single write endpoint.
//!
//! A request carries a JSON object with the two required numeric fields
//! `lat` and `lng`. The transport layer deserializes it; what reaches this
//! module is the parsed payload, or nothing when a field was missing or
//! malformed. The decisions made here: a present payload is inserted
//! exactly as submitted, an absent one never reaches the insert, and the
//! insert's outcome maps to the HTTP status the client sees. The insert
//! itself — one parameterized statement through the shared pool, with the
//! timestamp computed by the database — is the caller's I/O.

use vstd::prelude::*;

verus! {

/// The HTTP status acknowledging a persisted submission.
pub const STATUS_OK: u16 = 200;

/// The HTTP status reporting a failed insert.
pub const STATUS_INTERNAL_SERVER_ERROR: u16 = 500;

/// A geolocation submission. Latitude and longitude are IEEE 754 double
/// precision values, carried by their 64-bit representations; this module
/// never computes with them, it only passes them through unchanged.
#[derive(Clone, Copy, PartialEq, Eq, Structural, Debug)]
pub struct Location {
    /// The latitude, as the bits of a double precision value.
    pub lat_bits: u64,
    /// The longitude, as the bits of a double precision value.
    pub lng_bits: u64,
}

/// The bits encode a finite double precision value: the exponent field is
/// not all ones, which would denote an infinity or a NaN.
pub open spec fn f64_bits_finite(bits: u64) -> bool {
    (bits >> 52) & 0x7ff != 0x7ff
}

impl Location {
    /// Both coordinates are finite. JSON cannot denote an infinity or a
    /// NaN, so every payload the deserialization layer accepts is valid.
    pub open spec fn wf(&self) -> bool {
        f64_bits_finite(self.lat_bits) && f64_bits_finite(self.lng_bits)
    }

    /// Whether both coordinates are finite.
    pub fn is_valid(&self) -> (r: bool)
        ensures
            r == self.wf(),
    {
        let lat_finite: bool = (self.lat_bits >> 52) & 0x7ff != 0x7ff;
        let lng_finite: bool = (self.lng_bits >> 52) & 0x7ff != 0x7ff;
        lat_finite && lng_finite
    }
}

/// What the endpoint does with a deserialization outcome.
#[derive(Clone, Copy, PartialEq, Eq, Structural, Debug)]
pub enum IngestAction {
    /// Execute exactly one insert of this submission.
    Insert(Location),
    /// Execute nothing: the payload never reaches the insert.
    Reject,
}

/// Decide what a request leads to: a deserialized payload is inserted
/// exactly as submitted — one insert, the very values — and a request whose
/// payload did not deserialize (a missing or mistyped field, malformed
/// JSON) is rejected without touching the store.
pub fn ingest_decision(payload: &Option<Location>) -> (r: IngestAction)
    ensures
        *payload matches Some(l) ==> r == IngestAction::Insert(l),
        *payload is None ==> r is Reject,
{
    match payload {
        Some(l) => IngestAction::Insert(*l),
        None => IngestAction::Reject,
    }
}

/// The reported outcome of the one insert attempt.
#[derive(Clone, Copy, PartialEq, Eq, Structural, Debug)]
pub enum InsertOutcome {
    /// The statement completed; the database reported this many rows.
    Inserted(u64),
    /// The statement failed — constraint violation, connection loss, pool
    /// exhaustion. The cause is logged at the failure site.
    Failed,
}

/// Map the insert outcome to the HTTP status the client sees: success
/// acknowledges with 200, any failure reports 500. The failure is not
/// retried and does not affect any other request; the client may retry.
pub fn insert_status(outcome: &InsertOutcome) -> (r: u16)
    ensures
        r == STATUS_OK <==> *outcome is Inserted,
        r == STATUS_INTERNAL_SERVER_ERROR <==> *outcome is Failed,
{
    match outcome {
        InsertOutcome::Inserted(_) => STATUS_OK,
        InsertOutcome::Failed => STATUS_INTERNAL_SERVER_ERROR,
    }
}

/// The static greeting of the health endpoint.
pub fn hello_body() -> (r: &'static str)
    ensures
        r@ == "hello from server!"@,
{
    "hello from server!"
}

} // verus!
