//! The retry orchestrator: a minion that did not answer conclusively gets a
//! bounded number of further queries, and only a successful answer replaces
//! its record.
//!
//! The queries themselves are made elsewhere. This module decides: whether a
//! host is retried at all, whether another query is due, what an answer does
//! to the session and to the report.

use vstd::prelude::*;
use vstd::string::StringExecFns;
use crate::host::{Host, HostStatus};
use crate::prefilter::texts;
use crate::report::{one_entry_per_name, Report};

verus! {

/// How many further queries a host gets at most.
pub const MAX_RETRIES: usize = 3;

/// Where the retries of one host stand.
#[derive(Clone, Copy, Debug, PartialEq, Eq, Structural)]
pub enum RetryPhase {
    /// Another query is due.
    Pending,
    /// A successful answer came in; it replaces the record of a host that
    /// had failed.
    Succeeded,
    /// Every attempt is used up; the record stays as it was.
    Exhausted,
}

/// The retries of one host: the attempts used so far, and the phase.
#[derive(Clone, Copy, Debug, PartialEq, Eq, Structural)]
pub struct RetrySession {
    pub attempts: usize,
    pub phase: RetryPhase,
}

/// What one attempt came to.
#[derive(Debug, PartialEq, Eq)]
pub enum RetryEvent {
    /// The query itself failed; the attempt is forfeited.
    QueryFailed,
    /// The query was answered, and the answer reduced to this record.
    Answered(Host),
}

/// What is to be done next for a host.
#[derive(Clone, Copy, Debug, PartialEq, Eq, Structural)]
pub enum RetryAction {
    /// Query the host once more; `attempt` counts from zero.
    Query { attempt: usize },
    /// Nothing more is to be done for this host.
    Stop,
}

impl RetryEvent {
    /// Whether the attempt brought a successful answer.
    pub open spec fn spec_is_success(&self) -> bool {
        match self {
            RetryEvent::QueryFailed => false,
            RetryEvent::Answered(host) => host.spec_is_success(),
        }
    }

    #[verifier::when_used_as_spec(spec_is_success)]
    pub fn is_success(&self) -> (b: bool)
        ensures
            b == self.spec_is_success(),
    {
        match self {
            RetryEvent::QueryFailed => false,
            RetryEvent::Answered(host) => host.is_success(),
        }
    }
}

impl RetrySession {
    /// A pending session has attempts left, an exhausted one has none, and
    /// a success took at least one.
    pub open spec fn wf(&self) -> bool {
        match self.phase {
            RetryPhase::Pending => self.attempts < MAX_RETRIES,
            RetryPhase::Succeeded => 1 <= self.attempts <= MAX_RETRIES,
            RetryPhase::Exhausted => self.attempts == MAX_RETRIES,
        }
    }

    /// The session after one more attempt that came to `success`. A session
    /// that is over stays as it is.
    pub open spec fn advanced(&self, success: bool) -> RetrySession {
        if self.phase != RetryPhase::Pending || self.attempts >= MAX_RETRIES {
            *self
        } else if success {
            RetrySession { attempts: (self.attempts + 1) as usize, phase: RetryPhase::Succeeded }
        } else if self.attempts + 1 >= MAX_RETRIES {
            RetrySession { attempts: (self.attempts + 1) as usize, phase: RetryPhase::Exhausted }
        } else {
            RetrySession { attempts: (self.attempts + 1) as usize, phase: RetryPhase::Pending }
        }
    }

    /// Whether an attempt that comes to `success` replaces the record.
    pub open spec fn replaces(&self, success: bool) -> bool {
        self.phase == RetryPhase::Pending && self.attempts < MAX_RETRIES && success
    }

    /// A session that has used no attempt yet.
    pub fn new() -> (s: RetrySession)
        ensures
            s == started(),
            s.wf(),
    {
        RetrySession { attempts: 0, phase: RetryPhase::Pending }
    }

    /// Whether `host` is retried at all: every host but a successful one.
    pub fn needed_for(host: &Host) -> (b: bool)
        ensures
            b == !host.spec_is_success(),
    {
        !host.is_success()
    }

    /// What is due: another query while the session is pending, else
    /// nothing.
    pub fn next_action(&self) -> (action: RetryAction)
        ensures
            action == (if self.phase == RetryPhase::Pending && self.attempts < MAX_RETRIES {
                RetryAction::Query { attempt: self.attempts }
            } else {
                RetryAction::Stop
            }),
    {
        if self.phase == RetryPhase::Pending && self.attempts < MAX_RETRIES {
            RetryAction::Query { attempt: self.attempts }
        } else {
            RetryAction::Stop
        }
    }

    /// Takes in what one attempt came to. A successful answer ends the
    /// session and is handed back as the record to put in the report; any
    /// other outcome uses the attempt up and hands nothing back.
    pub fn step(self, event: RetryEvent) -> (r: (RetrySession, Option<Host>))
        ensures
            r.0 == self.advanced(event.spec_is_success()),
            self.wf() ==> r.0.wf(),
            r.1 == (if self.replaces(event.spec_is_success()) {
                match event {
                    RetryEvent::Answered(host) => Some(host),
                    RetryEvent::QueryFailed => None,
                }
            } else {
                None
            }),
    {
        if self.phase != RetryPhase::Pending || self.attempts >= MAX_RETRIES {
            return (self, None);
        }
        let used: usize = self.attempts + 1;
        match event {
            RetryEvent::Answered(host) => {
                if host.is_success() {
                    return (RetrySession { attempts: used, phase: RetryPhase::Succeeded }, Some(host));
                }
            },
            RetryEvent::QueryFailed => {},
        }
        if used >= MAX_RETRIES {
            (RetrySession { attempts: used, phase: RetryPhase::Exhausted }, None)
        } else {
            (RetrySession { attempts: used, phase: RetryPhase::Pending }, None)
        }
    }
}

/// A session before its first attempt.
pub open spec fn started() -> RetrySession {
    RetrySession { attempts: 0, phase: RetryPhase::Pending }
}

/// The session after a run of attempts, each given by whether it brought a
/// successful answer.
pub open spec fn after(session: RetrySession, outcomes: Seq<bool>) -> RetrySession
    decreases outcomes.len(),
{
    if outcomes.len() == 0 {
        session
    } else {
        after(session, outcomes.drop_last()).advanced(outcomes.last())
    }
}

/// Whatever the attempts come to, a session never uses more than
/// `MAX_RETRIES` of them.
pub proof fn attempts_stay_within_the_bound(session: RetrySession, outcomes: Seq<bool>)
    requires
        session.wf(),
    ensures
        after(session, outcomes).wf(),
        after(session, outcomes).attempts <= MAX_RETRIES,
    decreases outcomes.len(),
{
    if outcomes.len() > 0 {
        attempts_stay_within_the_bound(session, outcomes.drop_last());
    }
}

/// While no attempt has succeeded, the first `count` attempts of a run leave
/// the session pending with `count` attempts used, or exhausted once
/// `MAX_RETRIES` are used.
pub proof fn failures_use_attempts_up(outcomes: Seq<bool>, count: int)
    requires
        0 <= count <= outcomes.len(),
        forall|j: int| 0 <= j < count && j < MAX_RETRIES ==> !outcomes[j],
    ensures
        after(started(), outcomes.take(count)) == (if count < MAX_RETRIES {
            RetrySession { attempts: count as usize, phase: RetryPhase::Pending }
        } else {
            RetrySession { attempts: MAX_RETRIES, phase: RetryPhase::Exhausted }
        }),
    decreases count,
{
    if count > 0 {
        failures_use_attempts_up(outcomes, count - 1);
        assert(outcomes.take(count).drop_last() =~= outcomes.take(count - 1));
        assert(outcomes.take(count).last() == outcomes[count - 1]);
    }
}

/// The first successful answer among the first `MAX_RETRIES` attempts ends
/// the session: it has then used exactly the attempts up to that answer, and
/// nothing that comes later changes it.
pub proof fn first_success_ends_the_session(outcomes: Seq<bool>, first: int, count: int)
    requires
        0 <= first < MAX_RETRIES,
        first < count <= outcomes.len(),
        outcomes[first],
        forall|j: int| 0 <= j < first ==> !outcomes[j],
    ensures
        after(started(), outcomes.take(count)) == (RetrySession {
            attempts: (first + 1) as usize,
            phase: RetryPhase::Succeeded,
        }),
    decreases count,
{
    assert(outcomes.take(count).drop_last() =~= outcomes.take(count - 1));
    assert(outcomes.take(count).last() == outcomes[count - 1]);
    if count == first + 1 {
        failures_use_attempts_up(outcomes, first);
    } else {
        first_success_ends_the_session(outcomes, first, count - 1);
    }
}

/// The hostnames of the records that are no success, in order.
pub open spec fn pending_names(entries: Seq<Host>) -> Seq<Seq<char>>
    decreases entries.len(),
{
    if entries.len() == 0 {
        Seq::empty()
    } else if entries.last().spec_is_success() {
        pending_names(entries.drop_last())
    } else {
        pending_names(entries.drop_last()).push(entries.last().hostname@)
    }
}

/// A name is listed for a retry exactly when a record of that name is no
/// success.
pub proof fn listed_iff_failed(entries: Seq<Host>, name: Seq<char>)
    ensures
        pending_names(entries).contains(name) <==> exists|j: int|
            0 <= j < entries.len() && (#[trigger] entries[j]).hostname@ == name
                && !entries[j].spec_is_success(),
    decreases entries.len(),
{
    if entries.len() > 0 {
        let front = entries.drop_last();
        let last = entries.last();
        let listed = pending_names(entries);
        listed_iff_failed(front, name);
        if pending_names(front).contains(name) {
            let k = choose|k: int| 0 <= k < pending_names(front).len() && pending_names(front)[k]
                == name;
            let j = choose|j: int|
                0 <= j < front.len() && (#[trigger] front[j]).hostname@ == name
                    && !front[j].spec_is_success();
            assert(entries[j] == front[j]);
            if !last.spec_is_success() {
                assert(listed[k] == name);
            }
        }
        if !last.spec_is_success() && last.hostname@ == name {
            assert(listed[listed.len() - 1] == name);
            assert(entries[entries.len() - 1] == last);
        }
        if listed.contains(name) {
            let k = choose|k: int| 0 <= k < listed.len() && listed[k] == name;
            if last.spec_is_success() || k < listed.len() - 1 {
                assert(pending_names(front)[k] == name);
            } else {
                assert(entries[entries.len() - 1] == last);
            }
        }
        if exists|j: int|
            0 <= j < entries.len() && (#[trigger] entries[j]).hostname@ == name
                && !entries[j].spec_is_success() {
            let j = choose|j: int|
                0 <= j < entries.len() && (#[trigger] entries[j]).hostname@ == name
                    && !entries[j].spec_is_success();
            if j < front.len() {
                assert(front[j] == entries[j]);
            }
        }
    }
}

/// A host whose record is a success is not listed for a retry.
pub proof fn a_success_is_never_retried(report: Report, name: Seq<char>)
    requires
        report.wf(),
        report@.contains_key(name),
        report@[name].spec_is_success(),
    ensures
        !pending_names(report.entries()).contains(name),
{
    let entries = report.entries();
    listed_iff_failed(entries, name);
    one_entry_per_name(entries, name);
}

/// Lists the hosts that are to be retried: every host of the report that is
/// no success, in the order of the report.
pub fn retry_candidates(report: &Report) -> (names: Vec<String>)
    ensures
        texts(names@) == pending_names(report.entries()),
{
    let mut names: Vec<String> = Vec::new();
    let mut i: usize = 0;
    assert(texts(names@) =~= Seq::<Seq<char>>::empty());
    while i < report.len()
        invariant
            i <= report.entries().len(),
            texts(names@) == pending_names(report.entries().take(i as int)),
        decreases report.entries().len() - i,
    {
        let host = report.host_at(i);
        let ghost done = report.entries().take(i as int);
        let ghost next = report.entries().take(i + 1);
        assert(next.last() == *host);
        assert(next.drop_last() =~= done);
        if RetrySession::needed_for(host) {
            let ghost before = names@;
            let name = host.hostname.clone();
            names.push(name);
            assert(texts(names@) =~= texts(before).push(name@));
        }
        i = i + 1;
    }
    assert(report.entries().take(i as int) =~= report.entries());
    names
}

/// What an answer, once reduced, means for the session: the first record of
/// the answer, or nothing where the answer names no host at all.
pub fn answer_event(answer: Report) -> (event: Option<RetryEvent>)
    ensures
        match event {
            Some(RetryEvent::Answered(host)) => answer.entries().len() > 0 && host
                == answer.entries()[0],
            Some(RetryEvent::QueryFailed) => false,
            None => answer.entries().len() == 0,
        },
{
    match answer.into_first() {
        Some(host) => Some(RetryEvent::Answered(host)),
        None => None,
    }
}

/// The timeout of one retry: an equal share of the timeout of the first
/// query.
pub fn retry_timeout(timeout: usize) -> (t: usize)
    ensures
        t == timeout / MAX_RETRIES,
{
    timeout / MAX_RETRIES
}

/// Whether the answer `fresh` replaces the record that `report` has for
/// `hostname`: the report has a record for it that is no success, and the
/// answer is one.
pub open spec fn takes_over(report: Map<Seq<char>, Host>, hostname: Seq<char>, fresh: Host) -> bool {
    &&& report.contains_key(hostname)
    &&& !report[hostname].spec_is_success()
    &&& fresh.spec_is_success()
}

/// Every record stands where it stood, and every record but that of
/// `hostname` is as it was.
pub open spec fn kept_in_place(before: Seq<Host>, after: Seq<Host>, hostname: Seq<char>) -> bool {
    &&& after.len() == before.len()
    &&& forall|i: int|
        0 <= i < before.len() && (#[trigger] before[i]).hostname@ != hostname ==> after[i]
            == before[i]
}

/// Blends the answer of a retry into the report. A successful answer
/// replaces the record of a host that had failed, wholesale and under the
/// hostname that was retried; nothing else changes, and any other answer
/// changes nothing.
pub fn merge_retry(report: &mut Report, hostname: &str, fresh: Host) -> (replaced: bool)
    requires
        old(report).wf(),
    ensures
        final(report).wf(),
        replaced == takes_over(old(report)@, hostname@, fresh),
        final(report)@.dom() == old(report)@.dom(),
        kept_in_place(old(report).entries(), final(report).entries(), hostname@),
        forall|name: Seq<char>|
            name != hostname@ && old(report)@.contains_key(name) ==> #[trigger] final(report)@[name]
                == old(report)@[name],
        replaced ==> {
            &&& final(report)@[hostname@].hostname@ == hostname@
            &&& final(report)@[hostname@].data == fresh.data
            &&& final(report)@[hostname@].status == fresh.status
        },
        !replaced ==> final(report).entries() == old(report).entries(),
{
    if !fresh.is_success() {
        return false;
    }
    let found = match report.get(hostname) {
        Some(host) => !host.is_success(),
        None => false,
    };
    if !found {
        return false;
    }
    let record = Host { hostname: String::from_str(hostname), data: fresh.data, status: fresh.status };
    report.insert(record);
    assert(report@.dom() =~= old(report)@.dom());
    true
}

/// Takes in what one attempt for `hostname` came to: advances the session
/// and blends a successful answer into the report.
pub fn record_attempt(
    report: &mut Report,
    hostname: &str,
    session: RetrySession,
    event: RetryEvent,
) -> (next: RetrySession)
    requires
        old(report).wf(),
        session.wf(),
    ensures
        final(report).wf(),
        next.wf(),
        next == session.advanced(event.spec_is_success()),
        final(report)@.dom() == old(report)@.dom(),
        kept_in_place(old(report).entries(), final(report).entries(), hostname@),
        forall|name: Seq<char>|
            name != hostname@ && old(report)@.contains_key(name) ==> #[trigger] final(report)@[name]
                == old(report)@[name],
        forall|name: Seq<char>|
            old(report)@.contains_key(name) && old(report)@[name].spec_is_success()
                ==> #[trigger] final(report)@[name] == old(report)@[name],
        forall|name: Seq<char>|
            old(report)@.contains_key(name) && old(report)@[name].status
                != HostStatus::Uninitialized ==> (#[trigger] final(report)@[name]).status
                != HostStatus::Uninitialized,
        match event {
            RetryEvent::Answered(fresh) => if session.replaces(fresh.spec_is_success())
                && takes_over(old(report)@, hostname@, fresh) {
                &&& final(report)@[hostname@].hostname@ == hostname@
                &&& final(report)@[hostname@].data == fresh.data
                &&& final(report)@[hostname@].status == fresh.status
            } else {
                final(report).entries() == old(report).entries()
            },
            RetryEvent::QueryFailed => final(report).entries() == old(report).entries(),
        },
{
    let (next, fresh) = session.step(event);
    match fresh {
        Some(host) => {
            let _ = merge_retry(report, hostname, host);
        },
        None => {},
    }
    next
}

} // verus!
