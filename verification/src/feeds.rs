//! The service's feed endpoints.
//!
//! The URLs are compiled-in: the client takes no flags or arguments.

use vstd::prelude::*;

verus! {

/// URL of the legacy status feed, decoded by the `aurorawatch` schema.
pub fn v1_url() -> (r: String)
    ensures
        r@ == "http://aurorawatch.lancs.ac.uk/api/0.1/status.xml"@,
{
    String::from_str("http://aurorawatch.lancs.ac.uk/api/0.1/status.xml")
}

/// URL of the current status feed, decoded by the `current_status` schema.
pub fn v2_status_url() -> (r: String)
    ensures
        r@ == "http://aurorawatch-api.lancs.ac.uk/0.2/status/current-status.xml"@,
{
    String::from_str("http://aurorawatch-api.lancs.ac.uk/0.2/status/current-status.xml")
}

/// URL of the alerting-site-activity feed. This crate offers no decoder for
/// that feed's documents; the endpoint is listed for completeness only.
pub fn v2_activity() -> (r: String)
    ensures
        r@ == "http://aurorawatch-api.lancs.ac.uk/0.2/status/alerting-site-activity.xml"@,
{
    String::from_str("http://aurorawatch-api.lancs.ac.uk/0.2/status/alerting-site-activity.xml")
}

/// URL of the status-descriptions feed. This crate offers no decoder for
/// that feed's documents; the endpoint is listed for completeness only.
pub fn v2_descriptions() -> (r: String)
    ensures
        r@ == "http://aurorawatch-api.lancs.ac.uk/0.2/status-descriptions.xml"@,
{
    String::from_str("http://aurorawatch-api.lancs.ac.uk/0.2/status-descriptions.xml")
}

} // verus!
