//! The report reducer: from a raw report to one record per hostname.

use vstd::prelude::*;
use crate::classify::{classified, classify, data_of, status_of};
use crate::host::{Host, HostStatus};
use crate::json::{decode, json_decode, lookup, Json};
use crate::prefilter::{
    cleaned_text, deleted_names, patterns_are_valid, prefilter, silent_names, texts,
};
use crate::report::{one_entry_per_name, position, Report};

verus! {

/// Why a raw report could not be reduced.
#[derive(Clone, Copy, Debug, PartialEq, Eq, Structural)]
pub enum ParseError {
    /// A line pattern did not compile.
    PatternInvalid,
    /// What the line patterns left is not one JSON value.
    NotJson,
    /// The JSON value is not an object of hostnames.
    NotAnObject,
}

/// Whether `host` is the record of a minion that failed with `status`
/// before it could answer.
pub open spec fn failed_as(name: Seq<char>, status: HostStatus, host: Host) -> bool {
    &&& host.hostname@ == name
    &&& host.status == status
    &&& host.data.is_none()
}

/// The status and payload that a report owes to `name`: those of its JSON
/// payload where it has one; else `DeletedMinion` where a line reports it
/// deleted; else `DidNotRespond` where a line reports it silent; and nothing
/// for a name that the report does not mention.
pub open spec fn owed(
    silent: Seq<Seq<char>>,
    deleted: Seq<Seq<char>>,
    json: Json,
    name: Seq<char>,
) -> Option<(HostStatus, Option<Json>)> {
    match json.member(name) {
        Some(value) => Some((status_of(value), data_of(value))),
        None => if deleted.contains(name) {
            Some((HostStatus::DeletedMinion, None))
        } else if silent.contains(name) {
            Some((HostStatus::DidNotRespond, None))
        } else {
            None
        },
    }
}

/// Whether `report` holds, for every name, exactly what is owed to it.
pub open spec fn reduced(
    report: Map<Seq<char>, Host>,
    silent: Seq<Seq<char>>,
    deleted: Seq<Seq<char>>,
    json: Json,
) -> bool {
    forall|name: Seq<char>|
        match owed(silent, deleted, json, name) {
            Some((status, data)) => {
                &&& #[trigger] report.contains_key(name)
                &&& report[name].hostname@ == name
                &&& report[name].status == status
                &&& report[name].data == data
            },
            None => !report.contains_key(name),
        }
}

/// Every hostname that a report mentions, in a line or as a key of its JSON
/// object, has exactly one record in the reduced report, and the status of
/// that record is never `Uninitialized`.
pub proof fn every_mentioned_host_has_one_record(
    report: Report,
    silent: Seq<Seq<char>>,
    deleted: Seq<Seq<char>>,
    json: Json,
    name: Seq<char>,
)
    requires
        report.wf(),
        reduced(report@, silent, deleted, json),
        silent.contains(name) || deleted.contains(name) || json.member(name).is_some(),
    ensures
        report@.contains_key(name),
        report@[name].status != HostStatus::Uninitialized,
        report@[name].hostname@ == name,
        0 <= position(report.entries(), name) < report.entries().len(),
        report.entries()[position(report.entries(), name)] == report@[name],
        forall|i: int|
            0 <= i < report.entries().len() && (#[trigger] report.entries()[i]).hostname@ == name
                ==> i == position(report.entries(), name),
{
    assert(owed(silent, deleted, json, name).is_some());
    assert(report@.contains_key(name));
    one_entry_per_name(report.entries(), name);
}

/// A reduced report holds no record for a hostname that the raw report does
/// not mention.
pub proof fn no_record_without_mention(
    report: Report,
    silent: Seq<Seq<char>>,
    deleted: Seq<Seq<char>>,
    json: Json,
    name: Seq<char>,
)
    requires
        reduced(report@, silent, deleted, json),
        !silent.contains(name),
        !deleted.contains(name),
        json.member(name).is_none(),
    ensures
        !report@.contains_key(name),
{
    assert(owed(silent, deleted, json, name).is_none());
}

/// One of the first `upto` names is `name`.
pub open spec fn named_before(names: Seq<Seq<char>>, upto: int, name: Seq<char>) -> bool {
    exists|j: int| 0 <= j < upto && #[trigger] names[j] == name
}

/// `after` is `before` with a failed record put under each of the first
/// `upto` names.
pub open spec fn failed_layer(
    before: Map<Seq<char>, Host>,
    after: Map<Seq<char>, Host>,
    names: Seq<Seq<char>>,
    upto: int,
    status: HostStatus,
) -> bool {
    forall|name: Seq<char>|
        if named_before(names, upto, name) {
            #[trigger] after.contains_key(name) && failed_as(name, status, after[name])
        } else {
            after.contains_key(name) == before.contains_key(name) && (before.contains_key(name)
                ==> after[name] == before[name])
        }
}

/// `after` is `before` with the classified record of each member put under
/// the member's key.
pub open spec fn classified_layer(
    before: Map<Seq<char>, Host>,
    after: Map<Seq<char>, Host>,
    members: Seq<(String, Json)>,
) -> bool {
    forall|name: Seq<char>|
        match lookup(members, name) {
            Some(value) => #[trigger] after.contains_key(name) && classified(
                name,
                value,
                after[name],
            ),
            None => after.contains_key(name) == before.contains_key(name) && (before.contains_key(
                name,
            ) ==> after[name] == before[name]),
        }
}

/// Puts a failed record under each name, over whatever the report held for
/// it.
pub fn insert_failed(report: &mut Report, names: &Vec<String>, status: HostStatus)
    requires
        old(report).wf(),
    ensures
        final(report).wf(),
        failed_layer(old(report)@, final(report)@, texts(names@), names@.len() as int, status),
{
    let ghost before = report@;
    let ghost all = texts(names@);
    let mut i: usize = 0;
    while i < names.len()
        invariant
            i <= names.len(),
            all == texts(names@),
            report.wf(),
            failed_layer(before, report@, all, i as int, status),
        decreases names.len() - i,
    {
        let name = names[i].clone();
        let ghost during = report@;
        let host = Host::failed(name, status);
        report.insert(host);
        proof {
            assert(all[i as int] == host.hostname@);
            assert forall|n: Seq<char>|
                if named_before(all, i + 1, n) {
                    #[trigger] report@.contains_key(n) && failed_as(n, status, report@[n])
                } else {
                    report@.contains_key(n) == before.contains_key(n) && (before.contains_key(n)
                        ==> report@[n] == before[n])
                } by {
                assert(during.contains_key(n) == before.contains_key(n) || named_before(
                    all,
                    i as int,
                    n,
                ));
                if n == host.hostname@ {
                    assert(named_before(all, i + 1, n));
                }
            }
        }
        i = i + 1;
    }
}

/// Classifies each member and puts its record under the member's key, over
/// whatever the report held for it.
pub fn insert_classified(report: &mut Report, members: Vec<(String, Json)>)
    requires
        old(report).wf(),
    ensures
        final(report).wf(),
        classified_layer(old(report)@, final(report)@, members@),
{
    let ghost before = report@;
    for member in it: members
        invariant
            it.seq() == members@,
            report.wf(),
            classified_layer(before, report@, members@.take(it.index() as int)),
    {
        let ghost during = report@;
        let ghost done = members@.take(it.index() as int);
        let ghost next = members@.take(it.index() + 1);
        let host = classify(member.0, member.1);
        report.insert(host);
        proof {
            assert(next.last() == member);
            assert(next.drop_last() =~= done);
            assert forall|n: Seq<char>|
                match lookup(next, n) {
                    Some(value) => #[trigger] report@.contains_key(n) && classified(
                        n,
                        value,
                        report@[n],
                    ),
                    None => report@.contains_key(n) == before.contains_key(n) && (
                    before.contains_key(n) ==> report@[n] == before[n]),
                } by {
                assert(during.contains_key(n) == before.contains_key(n) || lookup(
                    done,
                    n,
                ).is_some());
            }
        }
    }
    assert(members@.take(members@.len() as int) =~= members@);
}

/// Classifies every member of a decoded report, hostname by hostname. Where
/// a hostname occurs more than once, its last payload counts.
pub fn parse_minions_from_json(json_value: Json) -> (report: Report)
    requires
        json_value is Object,
    ensures
        report.wf(),
        reduced(report@, Seq::empty(), Seq::empty(), json_value),
{
    let none: Vec<String> = Vec::new();
    assert(texts(none@) =~= Seq::<Seq<char>>::empty());
    reduce(&none, &none, json_value)
}

/// Builds the report of one query: first the minions that did not respond,
/// over them the deleted ones, and over both what the JSON object says.
pub fn reduce(did_not_respond: &Vec<String>, deleted: &Vec<String>, json_value: Json) -> (report:
    Report)
    requires
        json_value is Object,
    ensures
        report.wf(),
        reduced(report@, texts(did_not_respond@), texts(deleted@), json_value),
{
    let mut report = Report::new();
    insert_failed(&mut report, did_not_respond, HostStatus::DidNotRespond);
    let ghost first = report@;
    insert_failed(&mut report, deleted, HostStatus::DeletedMinion);
    let ghost second = report@;
    match json_value {
        Json::Object(members) => {
            insert_classified(&mut report, members);
            proof {
                let silent = texts(did_not_respond@);
                let gone = texts(deleted@);
                assert forall|name: Seq<char>|
                    match owed(silent, gone, json_value, name) {
                        Some((status, data)) => {
                            &&& #[trigger] report@.contains_key(name)
                            &&& report@[name].hostname@ == name
                            &&& report@[name].status == status
                            &&& report@[name].data == data
                        },
                        None => !report@.contains_key(name),
                    } by {
                    assert(named_before(gone, gone.len() as int, name) == gone.contains(name));
                    assert(named_before(silent, silent.len() as int, name) == silent.contains(
                        name,
                    ));
                    assert(json_value.member(name) == lookup(members@, name));
                    match lookup(members@, name) {
                        Some(value) => {
                            assert(report@.contains_key(name));
                        },
                        None => {
                            assert(report@.contains_key(name) == second.contains_key(name));
                            if gone.contains(name) {
                                assert(failed_as(name, HostStatus::DeletedMinion, second[name]));
                            } else {
                                assert(second.contains_key(name) == first.contains_key(name));
                                if silent.contains(name) {
                                    assert(first.contains_key(name));
                                } else {
                                    assert(!first.contains_key(name));
                                }
                            }
                        },
                    }
                }
            }
        },
        _ => {},
    }
    report
}

/// What a raw report reduces to: the error that stops it, or what the
/// report must hold.
pub open spec fn reduction_of(text: Seq<char>, result: Result<Report, ParseError>) -> bool {
    if !patterns_are_valid() {
        result == Err::<Report, ParseError>(ParseError::PatternInvalid)
    } else {
        match json_decode(cleaned_text(text)) {
            None => result == Err::<Report, ParseError>(ParseError::NotJson),
            Some(json) => if !(json is Object) {
                result == Err::<Report, ParseError>(ParseError::NotAnObject)
            } else {
                match result {
                    Ok(report) => report.wf() && reduced(
                        report@,
                        silent_names(text),
                        deleted_names(text),
                        json,
                    ),
                    Err(_) => false,
                }
            },
        }
    }
}

/// Whether a raw report mentions `name`: in a line about a silent or a
/// deleted minion, or as a key of its JSON object.
pub open spec fn mentions(text: Seq<char>, name: Seq<char>) -> bool {
    ||| silent_names(text).contains(name)
    ||| deleted_names(text).contains(name)
    ||| match json_decode(cleaned_text(text)) {
        Some(json) => json.member(name).is_some(),
        None => false,
    }
}

/// Where a raw report reduces to a report, the report has a record for a
/// hostname exactly when the raw report mentions it; it has then one such
/// record and no more, and the status of that record is never
/// `Uninitialized`.
pub proof fn one_record_for_every_host_mentioned(text: Seq<char>, report: Report, name: Seq<char>)
    requires
        reduction_of(text, Ok(report)),
    ensures
        report@.contains_key(name) <==> mentions(text, name),
        mentions(text, name) ==> {
            &&& report@[name].status != HostStatus::Uninitialized
            &&& report@[name].hostname@ == name
            &&& 0 <= position(report.entries(), name) < report.entries().len()
            &&& report.entries()[position(report.entries(), name)] == report@[name]
            &&& forall|i: int|
                0 <= i < report.entries().len() && (#[trigger] report.entries()[i]).hostname@
                    == name ==> i == position(report.entries(), name)
        },
{
    let json = json_decode(cleaned_text(text)).unwrap();
    if mentions(text, name) {
        every_mentioned_host_has_one_record(
            report,
            silent_names(text),
            deleted_names(text),
            json,
            name,
        );
    } else {
        no_record_without_mention(report, silent_names(text), deleted_names(text), json, name);
    }
}

/// Reduces the raw report of one query to one record per hostname: takes
/// out the lines about silent and deleted minions, decodes what is left as a
/// JSON object of hostnames, and classifies each payload.
pub fn parse_minions_from_minions_data(minions_data: &str) -> (result: Result<Report, ParseError>)
    ensures
        reduction_of(minions_data@, result),
{
    let parts = match prefilter(minions_data) {
        Some(parts) => parts,
        None => {
            return Err(ParseError::PatternInvalid);
        },
    };
    let json = match decode(parts.cleaned.as_str()) {
        Some(json) => json,
        None => {
            return Err(ParseError::NotJson);
        },
    };
    if !json.is_object() {
        return Err(ParseError::NotAnObject);
    }
    Ok(reduce(&parts.did_not_respond, &parts.deleted, json))
}

} // verus!
