//! The payload classifier: from the decoded answer of one minion to its
//! definitive status.

use vstd::prelude::*;
use crate::host::{Host, HostStatus, Retcode};
use crate::json::Json;

verus! {

/// The status of a payload that is itself the answer (or of the `ret` member
/// of a batch answer): an object with members is a success.
pub open spec fn body_status(body: Json) -> HostStatus {
    if !(body is Object) {
        HostStatus::RetValueNotObject
    } else if body.members().len() == 0 {
        HostStatus::RetValueObjectIsEmpty
    } else {
        HostStatus::Success
    }
}

/// The status of a batch answer, one that has a `ret` member: the return
/// code is judged first, the `ret` member only where the code is zero.
pub open spec fn batch_status(value: Json) -> HostStatus {
    match value.member("retcode"@) {
        None => HostStatus::NoReturnCode,
        Some(code) => match code.spec_as_u64() {
            None => HostStatus::ReturnCodeNotNumber,
            Some(n) => if Retcode::of(n) == Retcode::Failure {
                HostStatus::RetCodeWasNotNull
            } else {
                match value.member("ret"@) {
                    None => HostStatus::RetValueIsNone,
                    Some(ret) => body_status(ret),
                }
            },
        },
    }
}

/// The status that a decoded payload stands for.
pub open spec fn status_of(value: Json) -> HostStatus {
    if value.member("ret"@).is_none() {
        body_status(value)
    } else {
        batch_status(value)
    }
}

/// The payload that a host keeps: the whole value on success, nothing else.
pub open spec fn data_of(value: Json) -> Option<Json> {
    if status_of(value) == HostStatus::Success {
        Some(value)
    } else {
        None
    }
}

/// Whether `host` is the record that `value`, answered under `name`, stands
/// for.
pub open spec fn classified(name: Seq<char>, value: Json, host: Host) -> bool {
    &&& host.hostname@ == name
    &&& host.status == status_of(value)
    &&& host.data == data_of(value)
}

/// No payload leaves a host without a status.
pub proof fn status_of_is_never_uninitialized(value: Json)
    ensures
        status_of(value) != HostStatus::Uninitialized,
{
}

/// No payload is classified `RetValueIsNone`: the `ret` member is looked at
/// only in an answer that has one.
pub proof fn ret_is_never_missed(value: Json)
    ensures
        status_of(value) != HostStatus::RetValueIsNone,
{
}

/// A host carries a payload exactly when its status is `Success`, and the
/// payload is then the whole value that was classified.
pub proof fn data_is_kept_exactly_on_success(value: Json)
    ensures
        data_of(value).is_some() <==> status_of(value).is_success(),
        data_of(value).is_some() ==> data_of(value) == Some(value),
{
}

/// Classifying the same payload under the same name twice gives the same
/// record: the record depends on nothing else.
pub proof fn classification_is_repeatable(name: Seq<char>, value: Json, first: Host, second: Host)
    requires
        classified(name, value, first),
        classified(name, value, second),
    ensures
        first.hostname@ == second.hostname@,
        first.status == second.status,
        first.data == second.data,
{
}

fn body_status_of(body: &Json) -> (s: HostStatus)
    ensures
        s == body_status(*body),
{
    if !body.is_object() {
        HostStatus::RetValueNotObject
    } else if body.is_empty_object() {
        HostStatus::RetValueObjectIsEmpty
    } else {
        HostStatus::Success
    }
}

fn batch_status_of(value: &Json) -> (s: HostStatus)
    ensures
        s == batch_status(*value),
{
    let code: Retcode = match value.get("retcode") {
        Some(o) => match o.as_u64() {
            Some(v) => Retcode::from(v),
            None => {
                return HostStatus::ReturnCodeNotNumber;
            },
        },
        None => {
            return HostStatus::NoReturnCode;
        },
    };
    if code.is_failure() {
        return HostStatus::RetCodeWasNotNull;
    }
    match value.get("ret") {
        None => HostStatus::RetValueIsNone,
        Some(ret) => body_status_of(ret),
    }
}

/// Decides the status of a decoded payload.
pub fn classify_status(value: &Json) -> (s: HostStatus)
    ensures
        s == status_of(*value),
        s != HostStatus::Uninitialized,
{
    if value.get("ret").is_none() {
        body_status_of(value)
    } else {
        batch_status_of(value)
    }
}

/// Turns the payload that a minion answered with into its record. The record
/// keeps the whole payload where the status is `Success`, and none otherwise.
pub fn classify(hostname: String, value: Json) -> (host: Host)
    ensures
        host.hostname == hostname,
        host.status == status_of(value),
        host.data == data_of(value),
        classified(hostname@, value, host),
        host.status != HostStatus::Uninitialized,
{
    let status = classify_status(&value);
    if status.is_success() {
        Host { hostname, data: Some(value), status }
    } else {
        Host { hostname, data: None, status }
    }
}

} // verus!
