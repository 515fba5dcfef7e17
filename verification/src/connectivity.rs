//! The connectivity supervisor's decisions. The supervisor attempts to
//! establish network connectivity exactly once at startup; the wireless
//! handshake itself is the embedding's work, but which attempts are even made
//! and what a failure does to the shared health status are decided here.

use vstd::prelude::*;

use crate::status::DeviceStatus;
use crate::status::HealthCell;

verus! {

/// Longest network name the radio accepts, in bytes.
pub const MAX_NETWORK_NAME_BYTES: usize = 32;

/// Longest shared secret the radio accepts, in bytes.
pub const MAX_CREDENTIAL_BYTES: usize = 64;

/// A configuration fault of the connectivity supervisor: an empty string is
/// the "not configured" sentinel, and a value the radio cannot hold is just as
/// unusable. Either makes the single connection attempt fail immediately,
/// before any network operation.
#[derive(Clone, Copy, PartialEq, Eq, Structural, Debug)]
pub enum ConfigError {
    MissingNetworkName,
    MissingCredential,
    NetworkNameTooLong,
    CredentialTooLong,
}

/// A validated connection request: both strings are known non-empty and
/// within the radio's limits, so the embedding may hand them to the radio.
pub struct ConnectionPlan {
    pub network_name: String,
    pub credential: String,
}

/// Validates the supervisor's inputs. An empty network name or an empty
/// credential is a non-retryable configuration error, reported without any
/// network operation, as is a value longer than the radio can hold; otherwise
/// the plan carries both strings unchanged.
pub fn connection_plan(network_name: &str, credential: &str) -> (r: Result<
    ConnectionPlan,
    ConfigError,
>)
    ensures
        ({
            let n = network_name.len();
            let c = credential.len();
            &&& n == 0 ==> r == Err::<ConnectionPlan, ConfigError>(ConfigError::MissingNetworkName)
            &&& n > 0 && c == 0 ==> r == Err::<ConnectionPlan, ConfigError>(
                ConfigError::MissingCredential,
            )
            &&& n > MAX_NETWORK_NAME_BYTES && c > 0 ==> r == Err::<ConnectionPlan, ConfigError>(
                ConfigError::NetworkNameTooLong,
            )
            &&& 0 < n <= MAX_NETWORK_NAME_BYTES && c > MAX_CREDENTIAL_BYTES ==> r == Err::<
                ConnectionPlan,
                ConfigError,
            >(ConfigError::CredentialTooLong)
            &&& 0 < n <= MAX_NETWORK_NAME_BYTES && 0 < c <= MAX_CREDENTIAL_BYTES ==> (r matches Ok(
                plan,
            ) && plan.network_name@ == network_name@ && plan.credential@ == credential@)
        }),
{
    if network_name.len() == 0 {
        Err(ConfigError::MissingNetworkName)
    } else if credential.len() == 0 {
        Err(ConfigError::MissingCredential)
    } else if network_name.len() > MAX_NETWORK_NAME_BYTES {
        Err(ConfigError::NetworkNameTooLong)
    } else if credential.len() > MAX_CREDENTIAL_BYTES {
        Err(ConfigError::CredentialTooLong)
    } else {
        Ok(ConnectionPlan {
            network_name: network_name.to_owned(),
            credential: credential.to_owned(),
        })
    }
}

/// Records the outcome of the single connection attempt: a failure writes the
/// connectivity fault into the shared health status (the sampler then runs in
/// degraded, local-only mode); a success leaves the status untouched.
pub fn note_connection_outcome(health: &mut HealthCell, connected: bool)
    ensures
        connected ==> final(health).spec_raw() == old(health).spec_raw(),
        !connected ==> final(health).spec_raw()
            == DeviceStatus::ConnectivityFault.spec_encoding(),
{
    if !connected {
        health.set(DeviceStatus::ConnectivityFault);
    }
}

} // verus!
