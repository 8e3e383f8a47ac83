//! What is handed to the output sink for each host: a named artifact for a
//! success, a line of the failure log for anything else.

use vstd::prelude::*;
use vstd::string::StringExecFns;
use crate::host::{Host, HostStatus};

verus! {

/// What the sink is to do for one host.
#[derive(Debug, PartialEq, Eq)]
pub enum Delivery {
    /// Persist the payload of the host under this name.
    Artifact { file_name: String },
    /// Append this line to the failure log.
    FailureLine { line: String },
}

/// The line of the failure log for a host that failed with `status`.
pub open spec fn failure_line(hostname: Seq<char>, status: HostStatus) -> Seq<char> {
    "host "@ + hostname + " failed with status "@ + status.spec_name()
}

/// The name of the artifact that holds the payload of a host.
pub open spec fn artifact_name(hostname: Seq<char>) -> Seq<char> {
    hostname + ".json"@
}

/// Writes the line of the failure log for a host.
pub fn failure_message(hostname: &str, status: HostStatus) -> (line: String)
    ensures
        line@ == failure_line(hostname@, status),
{
    let mut line = String::from_str("host ");
    line.append(hostname);
    line.append(" failed with status ");
    line.append(status.name());
    line
}

/// Names the artifact for the payload of a host.
pub fn artifact_file_name(hostname: &str) -> (name: String)
    ensures
        name@ == artifact_name(hostname@),
{
    let mut name = String::from_str(hostname);
    name.append(".json");
    name
}

/// Decides what the sink gets for a host: an artifact exactly for a
/// success, a failure line for every other status.
pub fn delivery_of(host: &Host) -> (delivery: Delivery)
    ensures
        match delivery {
            Delivery::Artifact { file_name } => host.spec_is_success() && file_name@
                == artifact_name(host.hostname@),
            Delivery::FailureLine { line } => !host.spec_is_success() && line@ == failure_line(
                host.hostname@,
                host.status,
            ),
        },
{
    if host.is_success() {
        Delivery::Artifact { file_name: artifact_file_name(host.hostname.as_str()) }
    } else {
        Delivery::FailureLine { line: failure_message(host.hostname.as_str(), host.status) }
    }
}

} // verus!
