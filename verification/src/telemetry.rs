//! The telemetry side of the core: the endpoint address the publish connection
//! is opened against, the fixed channel readings are published on, and what a
//! delivery failure does to the shared health status. Delivery itself is
//! fire-and-forget and the embedding's work.

use vstd::prelude::*;
use vstd::string::StringExecFns;

use crate::status::DeviceStatus;
use crate::status::HealthCell;

verus! {

/// The endpoint address for the publish connection: anonymous when either
/// credential is left empty, otherwise with the credentials in front of the
/// host.
pub open spec fn spec_endpoint_url(user: Seq<char>, secret: Seq<char>, host: Seq<char>) -> Seq<
    char,
> {
    if user.len() == 0 || secret.len() == 0 {
        "mqtt://"@ + host + "/"@
    } else {
        "mqtt://"@ + user + ":"@ + secret + "@"@ + host + "/"@
    }
}

/// Builds the endpoint address from the configured credentials and host.
pub fn endpoint_url(user: &str, secret: &str, host: &str) -> (url: String)
    ensures
        url@ == spec_endpoint_url(user@, secret@, host@),
{
    let mut url = "mqtt://".to_owned();
    if user.is_empty() || secret.is_empty() {
        url.append(host);
        url.append("/");
    } else {
        url.append(user);
        url.append(":");
        url.append(secret);
        url.append("@");
        url.append(host);
        url.append("/");
    }
    proof {
        assert(url@ =~= spec_endpoint_url(user@, secret@, host@));
    }
    url
}

/// The fixed channel identifier every loudness reading is published under.
pub fn telemetry_topic() -> (topic: &'static str)
    ensures
        topic@ == "home/noise sensor/01"@,
{
    "home/noise sensor/01"
}

/// Records one delivery outcome: a failed publish writes the telemetry fault
/// into the shared health status; a delivered one leaves it untouched. Either
/// way the sampling loop continues unconditionally — delivery is best-effort.
pub fn note_publish_outcome(health: &mut HealthCell, delivered: bool)
    ensures
        delivered ==> final(health).spec_raw() == old(health).spec_raw(),
        !delivered ==> final(health).spec_raw() == DeviceStatus::TelemetryFault.spec_encoding(),
{
    if !delivered {
        health.set(DeviceStatus::TelemetryFault);
    }
}

} // verus!
