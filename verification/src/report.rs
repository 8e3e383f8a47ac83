//! The report: one record per hostname.

use vstd::prelude::*;
use vstd::string::StringExecFns;
use crate::host::Host;

verus! {

/// No two entries share a hostname.
pub open spec fn names_distinct(entries: Seq<Host>) -> bool {
    forall|i: int, j: int|
        0 <= i < j < entries.len() ==> entries[i].hostname@ != entries[j].hostname@
}

/// Some entry is named `name`.
pub open spec fn holds(entries: Seq<Host>, name: Seq<char>) -> bool {
    exists|i: int| 0 <= i < entries.len() && (#[trigger] entries[i]).hostname@ == name
}

/// Where the entry named `name` stands, if there is one.
pub open spec fn position(entries: Seq<Host>, name: Seq<char>) -> int {
    choose|i: int| 0 <= i < entries.len() && (#[trigger] entries[i]).hostname@ == name
}

/// The entries as a mapping from hostname to record.
pub open spec fn as_map(entries: Seq<Host>) -> Map<Seq<char>, Host> {
    Map::new(|n: Seq<char>| holds(entries, n), |n: Seq<char>| entries[position(entries, n)])
}

/// Among distinct names, an entry is found exactly where it stands.
pub proof fn position_of_entry(entries: Seq<Host>, i: int)
    requires
        names_distinct(entries),
        0 <= i < entries.len(),
    ensures
        holds(entries, entries[i].hostname@),
        position(entries, entries[i].hostname@) == i,
        as_map(entries)[entries[i].hostname@] == entries[i],
{
    let name = entries[i].hostname@;
    assert(0 <= i < entries.len() && (#[trigger] entries[i]).hostname@ == name);
    let p = position(entries, name);
    assert(0 <= p < entries.len() && entries[p].hostname@ == name);
    if p < i {
        assert(entries[p].hostname@ != entries[i].hostname@);
    } else if i < p {
        assert(entries[i].hostname@ != entries[p].hostname@);
    }
}

/// Replacing the entry of a name keeps the names distinct and rebinds that
/// name alone.
pub proof fn replace_rebinds(entries: Seq<Host>, i: int, host: Host)
    requires
        names_distinct(entries),
        0 <= i < entries.len(),
        entries[i].hostname@ == host.hostname@,
    ensures
        names_distinct(entries.update(i, host)),
        as_map(entries.update(i, host)) == as_map(entries).insert(host.hostname@, host),
{
    let after = entries.update(i, host);
    assert(names_distinct(after)) by {
        assert forall|a: int, b: int| 0 <= a < b < after.len() implies after[a].hostname@
            != after[b].hostname@ by {
            assert(entries[a].hostname@ != entries[b].hostname@);
        }
    }
    assert forall|n: Seq<char>| holds(after, n) <==> (holds(entries, n) || n == host.hostname@) by {
        if holds(after, n) {
            let p = position(after, n);
            assert(entries[p].hostname@ == n);
        }
        if holds(entries, n) {
            let p = position(entries, n);
            assert(after[p].hostname@ == n);
        }
        if n == host.hostname@ {
            assert(after[i].hostname@ == n);
        }
    }
    assert forall|n: Seq<char>| holds(after, n) implies #[trigger] as_map(after)[n] == as_map(
        entries,
    ).insert(host.hostname@, host)[n] by {
        let p = position(after, n);
        position_of_entry(after, p);
        if n != host.hostname@ {
            assert(entries[p] == after[p]);
            position_of_entry(entries, p);
        } else {
            position_of_entry(after, i);
        }
    }
    assert(as_map(after) =~= as_map(entries).insert(host.hostname@, host));
}

/// Appending a record under a new name keeps the names distinct and binds
/// that name alone.
pub proof fn append_binds(entries: Seq<Host>, host: Host)
    requires
        names_distinct(entries),
        !holds(entries, host.hostname@),
    ensures
        names_distinct(entries.push(host)),
        as_map(entries.push(host)) == as_map(entries).insert(host.hostname@, host),
{
    let after = entries.push(host);
    let last = entries.len() as int;
    assert(names_distinct(after)) by {
        assert forall|a: int, b: int| 0 <= a < b < after.len() implies after[a].hostname@
            != after[b].hostname@ by {
            if b < last {
                assert(entries[a].hostname@ != entries[b].hostname@);
            } else {
                assert(after[a] == entries[a]);
                if entries[a].hostname@ == host.hostname@ {
                    assert(holds(entries, host.hostname@));
                }
            }
        }
    }
    assert forall|n: Seq<char>| holds(after, n) <==> (holds(entries, n) || n == host.hostname@) by {
        if holds(after, n) {
            let p = position(after, n);
            if p < last {
                assert(entries[p].hostname@ == n);
            }
        }
        if holds(entries, n) {
            let p = position(entries, n);
            assert(after[p].hostname@ == n);
        }
        if n == host.hostname@ {
            assert(after[last].hostname@ == n);
        }
    }
    assert forall|n: Seq<char>| holds(after, n) implies #[trigger] as_map(after)[n] == as_map(
        entries,
    ).insert(host.hostname@, host)[n] by {
        let p = position(after, n);
        position_of_entry(after, p);
        if n != host.hostname@ {
            assert(entries[p] == after[p]);
            position_of_entry(entries, p);
        } else {
            position_of_entry(after, last);
        }
    }
    assert(as_map(after) =~= as_map(entries).insert(host.hostname@, host));
}

/// Among distinct names, a name that some entry carries is carried by that
/// entry alone, and the mapping binds the name to it.
pub proof fn one_entry_per_name(entries: Seq<Host>, name: Seq<char>)
    requires
        names_distinct(entries),
        as_map(entries).contains_key(name),
    ensures
        0 <= position(entries, name) < entries.len(),
        as_map(entries)[name] == entries[position(entries, name)],
        forall|i: int|
            0 <= i < entries.len() && (#[trigger] entries[i]).hostname@ == name ==> i == position(
                entries,
                name,
            ),
{
    let p = position(entries, name);
    assert forall|i: int| 0 <= i < entries.len() && (#[trigger] entries[i]).hostname@
        == name implies i == p by {
        position_of_entry(entries, i);
    }
}

/// The hosts of one report, each hostname at most once, in the order in
/// which the hostnames first came in.
#[derive(Debug)]
pub struct Report {
    hosts: Vec<Host>,
}

impl View for Report {
    type V = Map<Seq<char>, Host>;

    open spec fn view(&self) -> Map<Seq<char>, Host> {
        as_map(self.entries())
    }
}

impl Report {
    /// The records, in order.
    pub closed spec fn entries(&self) -> Seq<Host> {
        self.hosts@
    }

    /// Every hostname occurs once.
    pub open spec fn wf(&self) -> bool {
        names_distinct(self.entries())
    }

    /// A report without hosts.
    pub fn new() -> (r: Report)
        ensures
            r.wf(),
            r.entries() == Seq::<Host>::empty(),
            r@ == Map::<Seq<char>, Host>::empty(),
    {
        let r = Report { hosts: Vec::new() };
        assert(r@ =~= Map::<Seq<char>, Host>::empty());
        r
    }

    /// How many hosts the report holds.
    pub fn len(&self) -> (n: usize)
        ensures
            n == self.entries().len(),
    {
        self.hosts.len()
    }

    /// The records, in order.
    pub fn hosts(&self) -> (v: &Vec<Host>)
        ensures
            v@ == self.entries(),
    {
        &self.hosts
    }

    /// The record at `index`, in order.
    pub fn host_at(&self, index: usize) -> (h: &Host)
        requires
            index < self.entries().len(),
        ensures
            *h == self.entries()[index as int],
    {
        &self.hosts[index]
    }

    /// The first record, if there is any.
    pub fn first(&self) -> (r: Option<&Host>)
        ensures
            match r {
                Some(h) => self.entries().len() > 0 && *h == self.entries()[0],
                None => self.entries().len() == 0,
            },
    {
        if self.hosts.len() == 0 {
            None
        } else {
            Some(&self.hosts[0])
        }
    }

    /// Gives up the report for its first record, if there is any.
    pub fn into_first(self) -> (r: Option<Host>)
        ensures
            match r {
                Some(h) => self.entries().len() > 0 && h == self.entries()[0],
                None => self.entries().len() == 0,
            },
    {
        let mut hosts = self.hosts;
        if hosts.len() == 0 {
            None
        } else {
            Some(hosts.remove(0))
        }
    }

    /// The record of `hostname`, if the report has one.
    pub fn get(&self, hostname: &str) -> (r: Option<&Host>)
        requires
            self.wf(),
        ensures
            match r {
                Some(h) => self@.contains_key(hostname@) && self@[hostname@] == *h,
                None => !self@.contains_key(hostname@),
            },
    {
        let wanted = String::from_str(hostname);
        let mut i: usize = 0;
        while i < self.hosts.len()
            invariant
                i <= self.hosts.len(),
                wanted@ == hostname@,
                self.wf(),
                forall|j: int| 0 <= j < i ==> (#[trigger] self.hosts@[j]).hostname@ != hostname@,
            decreases self.hosts.len() - i,
        {
            if self.hosts[i].hostname == wanted {
                proof {
                    position_of_entry(self.entries(), i as int);
                }
                return Some(&self.hosts[i]);
            }
            i = i + 1;
        }
        None
    }

    /// Puts `host` under its hostname. A record that the report already has
    /// for this hostname is replaced wholesale, in its place; a new hostname
    /// goes to the end.
    pub fn insert(&mut self, host: Host)
        requires
            old(self).wf(),
        ensures
            final(self).wf(),
            final(self)@ == old(self)@.insert(host.hostname@, host),
            holds(old(self).entries(), host.hostname@) ==> final(self).entries() == old(
                self,
            ).entries().update(position(old(self).entries(), host.hostname@), host),
            !holds(old(self).entries(), host.hostname@) ==> final(self).entries() == old(
                self,
            ).entries().push(host),
    {
        let mut i: usize = 0;
        while i < self.hosts.len()
            invariant
                i <= self.hosts.len(),
                self.hosts@ == old(self).hosts@,
                self.wf(),
                forall|j: int| 0 <= j < i ==> (#[trigger] self.hosts@[j]).hostname@ != host.hostname@,
            decreases self.hosts.len() - i,
        {
            if self.hosts[i].hostname == host.hostname {
                proof {
                    position_of_entry(self.entries(), i as int);
                    replace_rebinds(self.entries(), i as int, host);
                }
                self.hosts.set(i, host);
                return ;
            }
            i = i + 1;
        }
        proof {
            append_binds(self.entries(), host);
        }
        self.hosts.push(host);
    }
}

} // verus!
