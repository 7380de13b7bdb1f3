//! The liveness answer of the service.

use vstd::prelude::*;
use vstd::string::StringExecFns;
use crate::models::{GenericResponse, GenericResponseView};
use crate::status::{ok_status, OK};

verus! {

/// What a healthy service says of itself.
pub open spec fn healthy_text() -> Seq<char> {
    "I'm healthy!"@
}

/// The body of a liveness answer.
#[derive(Debug, Clone, PartialEq, Eq)]
pub struct HealthCheck {
    pub msg: String,
}

impl HealthCheck {
    /// The answer of a service that is up.
    pub fn healthy() -> (check: HealthCheck)
        ensures
            check.msg@ == healthy_text(),
    {
        HealthCheck { msg: String::from_str("I'm healthy!") }
    }
}

/// The liveness response: the healthy message with status 200 and no row
/// count.
pub fn health_checker() -> (response: GenericResponse)
    ensures
        response@ == (GenericResponseView { msg: healthy_text(), status_code: OK, rows: None }),
{
    GenericResponse { msg: String::from_str("I'm healthy!"), status_code: ok_status(), rows: None }
}

} // verus!
