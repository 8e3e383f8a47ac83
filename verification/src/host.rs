//! The status model: one record per minion, with a definitive status.

use vstd::prelude::*;
use vstd::std_specs::convert::FromSpecImpl;
use crate::json::Json;

verus! {

/// What a query established about one minion. Exactly one status holds of a
/// host at any time, and only `Success` counts as a success.
#[derive(Clone, Copy, Debug, PartialEq, Eq, Structural)]
pub enum HostStatus {
    Uninitialized,
    Success,
    NoReturnCode,
    ReturnCodeNotNumber,
    RetValueIsNone,
    RetCodeWasNotNull,
    RetValueNotObject,
    RetValueObjectIsEmpty,
    DeletedMinion,
    DidNotRespond,
}

impl Default for HostStatus {
    fn default() -> (s: HostStatus)
        ensures
            s == HostStatus::Uninitialized,
    {
        HostStatus::Uninitialized
    }
}

impl HostStatus {
    pub open spec fn spec_is_success(&self) -> bool {
        *self == HostStatus::Success
    }

    #[verifier::when_used_as_spec(spec_is_success)]
    pub fn is_success(&self) -> (b: bool)
        ensures
            b == (*self == HostStatus::Success),
    {
        *self == HostStatus::Success
    }

    /// The label of the status, as it is written in a failure log.
    pub open spec fn spec_name(&self) -> Seq<char> {
        match self {
            HostStatus::Uninitialized => "Uninitialized"@,
            HostStatus::Success => "Success"@,
            HostStatus::NoReturnCode => "NoReturnCode"@,
            HostStatus::ReturnCodeNotNumber => "ReturnCodeNotNumber"@,
            HostStatus::RetValueIsNone => "RetValueIsNone"@,
            HostStatus::RetCodeWasNotNull => "RetCodeWasNotNull"@,
            HostStatus::RetValueNotObject => "RetValueNotObject"@,
            HostStatus::RetValueObjectIsEmpty => "RetValueObjectIsEmpty"@,
            HostStatus::DeletedMinion => "DeletedMinion"@,
            HostStatus::DidNotRespond => "DidNotRespond"@,
        }
    }

    pub fn name(&self) -> (label: &'static str)
        ensures
            label@ == self.spec_name(),
    {
        match self {
            HostStatus::Uninitialized => "Uninitialized",
            HostStatus::Success => "Success",
            HostStatus::NoReturnCode => "NoReturnCode",
            HostStatus::ReturnCodeNotNumber => "ReturnCodeNotNumber",
            HostStatus::RetValueIsNone => "RetValueIsNone",
            HostStatus::RetCodeWasNotNull => "RetCodeWasNotNull",
            HostStatus::RetValueNotObject => "RetValueNotObject",
            HostStatus::RetValueObjectIsEmpty => "RetValueObjectIsEmpty",
            HostStatus::DeletedMinion => "DeletedMinion",
            HostStatus::DidNotRespond => "DidNotRespond",
        }
    }
}

/// The return code of a batch answer, reduced to what matters.
#[derive(Clone, Copy, Debug, PartialEq, Eq, Structural)]
pub enum Retcode {
    Success,
    Failure,
}

impl Retcode {
    /// `Success` for zero, `Failure` for every other code.
    pub open spec fn of(code: u64) -> Retcode {
        if code == 0 {
            Retcode::Success
        } else {
            Retcode::Failure
        }
    }

    pub open spec fn spec_is_failure(&self) -> bool {
        *self == Retcode::Failure
    }

    #[verifier::when_used_as_spec(spec_is_failure)]
    pub fn is_failure(&self) -> (b: bool)
        ensures
            b == (*self == Retcode::Failure),
    {
        *self == Retcode::Failure
    }
}

impl Default for Retcode {
    fn default() -> (r: Retcode)
        ensures
            r == Retcode::Failure,
    {
        Retcode::Failure
    }
}

impl From<u64> for Retcode {
    fn from(input: u64) -> (r: Retcode) {
        match input {
            0 => Retcode::Success,
            _ => Retcode::Failure,
        }
    }
}

impl FromSpecImpl<u64> for Retcode {
    open spec fn obeys_from_spec() -> bool {
        true
    }

    open spec fn from_spec(input: u64) -> Retcode {
        Retcode::of(input)
    }
}

/// The conversion from a return code gives `Success` for zero and `Failure`
/// for every other code.
pub proof fn zero_is_the_only_success(code: u64)
    ensures
        Retcode::of(0) == Retcode::Success,
        code != 0 ==> Retcode::of(code) == Retcode::Failure,
        Retcode::of(code).spec_is_failure() <==> code != 0,
{
}

/// One minion of a report: its name, the payload it answered with where the
/// answer was a success, and its status.
#[derive(Debug, PartialEq, Eq)]
pub struct Host {
    pub hostname: String,
    pub data: Option<Json>,
    pub status: HostStatus,
}

impl Host {
    pub open spec fn spec_is_success(&self) -> bool {
        self.status == HostStatus::Success
    }

    #[verifier::when_used_as_spec(spec_is_success)]
    pub fn is_success(&self) -> (b: bool)
        ensures
            b == (self.status == HostStatus::Success),
    {
        self.status.is_success()
    }

    /// A host that failed with `status` and so carries no payload.
    pub fn failed(hostname: String, status: HostStatus) -> (h: Host)
        ensures
            h.hostname == hostname,
            h.data.is_none(),
            h.status == status,
    {
        Host { hostname, data: None, status }
    }
}

impl Default for Host {
    fn default() -> (h: Host)
        ensures
            h.hostname@ == Seq::<char>::empty(),
            h.data.is_none(),
            h.status == HostStatus::Uninitialized,
    {
        Host { hostname: String::new(), data: None, status: HostStatus::Uninitialized }
    }
}

} // verus!
