use vstd::prelude::*;

verus! {

#[verifier::external_type_specification]
#[verifier::external_body]
pub struct ExIoError(std::io::Error);

#[verifier::external_type_specification]
#[verifier::external_body]
pub struct ExWsError(tokio_tungstenite::tungstenite::Error);

#[verifier::external_type_specification]
#[verifier::external_body]
pub struct ExJsonError(serde_json::Error);

/// Every error the library reports.
#[derive(Debug)]
pub enum RustWaveError {
    Internal(String),
    ClientNotFound(String),
    ConnectionClosed,
    Io(std::io::Error),
    Ws(tokio_tungstenite::tungstenite::Error),
    Json(serde_json::Error),
}

/// What the library's fallible calls return.
pub type Result<T> = std::result::Result<T, RustWaveError>;

} // verus!
