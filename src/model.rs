//! The values exchanged with the scanning service and kept by the client.
use vstd::prelude::*;

verus! {

/// Declares serde_json::Value, so that a profile can carry its engine
/// configuration; the library never looks inside it.
#[verifier::external_type_specification]
#[verifier::external_body]
pub struct ExJsonValue(serde_json::Value);

/// Why a request brought no usable answer: it could not be completed, the
/// service answered with a non-success status, or the body did not have the
/// expected shape.
#[derive(Clone, Copy, PartialEq, Eq, Structural, Debug)]
pub enum FetchFailure {
    Transport,
    Status(u16),
    Decode,
}

/// Environment configuration, loaded once at startup.
pub struct Config {
    pub api_url: String,
}

/// The durable part of the client: the authentication token, if any.
pub struct Session {
    pub token: Option<String>,
}

/// What the user typed into the login / register form.
pub struct Credentials {
    pub username: String,
    pub password: String,
}

/// Which field of the login / register form changed.
#[derive(Clone, Copy, PartialEq, Eq, Structural)]
pub enum CredentialsField {
    Username,
    Password,
}

/// A server-side scan engine that the user may enable for an upload.
pub struct Profile {
    pub id: i64,
    pub machine_name: String,
    pub human_name: String,
    pub module: String,
    pub config: Option<serde_json::Value>,
}

/// Body of a successful profile listing.
pub struct ProfilesResponse {
    pub profiles: Vec<Profile>,
}

/// Body of a successful login or registration.
pub struct AuthResponse {
    pub token: Option<String>,
}

/// Body of a successful report creation.
pub struct CreateResponse {
    pub report_id: i64,
}

/// A server-side record of one uploaded file. Times are milliseconds since
/// the Unix epoch, UTC.
pub struct Report {
    pub id: i64,
    pub user_id: i64,
    pub created_when: i64,
    pub file_multihash: String,
    pub file: Option<Vec<u8>>,
}

} // verus!
