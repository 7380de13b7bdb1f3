//! The two statuses that a response carries.

use vstd::prelude::*;
use axum::http::StatusCode;

verus! {

/// The status of a success.
pub const OK: u16 = 200;

/// The status of every failure of the storage layer.
pub const INTERNAL_SERVER_ERROR: u16 = 500;

/// `StatusCode::as_u16` of `StatusCode::OK`, which is 200.
#[verifier::external_body]
pub(crate) fn ok_status() -> (code: u16)
    ensures
        code == OK,
{
    StatusCode::OK.as_u16()
}

/// `StatusCode::as_u16` of `StatusCode::INTERNAL_SERVER_ERROR`, which is
/// 500.
#[verifier::external_body]
pub(crate) fn internal_server_error_status() -> (code: u16)
    ensures
        code == INTERNAL_SERVER_ERROR,
{
    StatusCode::INTERNAL_SERVER_ERROR.as_u16()
}

} // verus!
