//! Outside types that values of the library carry through unchanged.

use vstd::prelude::*;

verus! {

/// `serde_json::Value`: script data attached to timers and events.
#[verifier::external_type_specification]
#[verifier::external_body]
pub struct ExJsonValue(serde_json::Value);

/// `cron::Schedule`: a parsed cron expression.
#[verifier::external_type_specification]
#[verifier::external_body]
pub struct ExCronSchedule(cron::Schedule);

} // verus!
