use vstd::prelude::*;
use crate::record::{
    AddressRecord, IpAddress, RecordKind, RECORD_TTL, fqdn, kind_of, record_for, spec_fqdn,
    spec_kind_of, spec_record_for,
};

verus! {

/// A request to remove the record set of one type at a name.
pub struct DeleteRequest {
    pub fqdn: String,
    pub zone: String,
    pub kind: RecordKind,
}

/// A request to insert one address record at a name.
pub struct UpdateRequest {
    pub fqdn: String,
    pub zone: String,
    pub kind: RecordKind,
    pub record: AddressRecord,
    pub ttl: u32,
}

/// What the caller is to do next for the batch.
pub enum Action {
    Delete(DeleteRequest),
    Update(UpdateRequest),
    Finish,
}

/// The state of a batch: how many names are done, whether the current name's
/// delete has succeeded, and the outcome of each name done so far.
pub struct BatchView {
    pub total: nat,
    pub next: nat,
    pub updating: bool,
    pub outcomes: Seq<bool>,
}

/// The batch before any request.
pub open spec fn start_view(total: nat) -> BatchView {
    BatchView { total, next: 0, updating: false, outcomes: Seq::empty() }
}

/// The batch after the current request came back, successfully or not. A
/// failed delete ends the name as failed; a successful one moves on to the
/// insert; the insert ends the name with its own result. Once every name is
/// done, nothing changes.
pub open spec fn step(v: BatchView, ok: bool) -> BatchView {
    if v.next >= v.total {
        v
    } else if !v.updating && ok {
        BatchView { updating: true, ..v }
    } else {
        BatchView { next: v.next + 1, updating: false, outcomes: v.outcomes.push(ok), ..v }
    }
}

/// The batch after each of `results`, in order.
pub open spec fn run(v: BatchView, results: Seq<bool>) -> BatchView
    decreases results.len(),
{
    if results.len() == 0 {
        v
    } else {
        run(step(v, results[0]), results.subrange(1, results.len() as int))
    }
}

/// The results handed back for one name whose delete gives `deleted` and
/// whose insert, if it is sent, gives `inserted`.
pub open spec fn name_results(deleted: bool, inserted: bool) -> Seq<bool> {
    if deleted {
        seq![true, inserted]
    } else {
        seq![false]
    }
}

/// The results handed back for a batch, name by name.
pub open spec fn batch_results(pairs: Seq<(bool, bool)>) -> Seq<bool>
    decreases pairs.len(),
{
    if pairs.len() == 0 {
        Seq::empty()
    } else {
        batch_results(pairs.drop_last()) + name_results(pairs.last().0, pairs.last().1)
    }
}

/// Drives the delete and insert requests of a batch of names toward one
/// address, one name at a time, in the order given.
pub struct Session {
    pub names: Vec<String>,
    pub origin: String,
    pub ip: IpAddress,
    pub next: usize,
    pub updating: bool,
    pub outcomes: Vec<bool>,
}

impl Session {
    pub open spec fn view(&self) -> BatchView {
        BatchView {
            total: self.names@.len(),
            next: self.next as nat,
            updating: self.updating,
            outcomes: self.outcomes@,
        }
    }

    pub open spec fn wf(&self) -> bool {
        &&& self.next <= self.names@.len()
        &&& self.outcomes@.len() == self.next
        &&& self.updating ==> self.next < self.names@.len()
    }

    /// A batch over `names`, under the zone `origin`, toward `ip`, with no
    /// request sent yet.
    pub fn new(names: Vec<String>, origin: String, ip: IpAddress) -> (r: Session)
        ensures
            r.wf(),
            r@ == start_view(names@.len()),
            r.names == names,
            r.origin == origin,
            r.ip == ip,
    {
        Session { names, origin, ip, next: 0, updating: false, outcomes: Vec::new() }
    }

    /// Whether every name is done.
    pub fn is_finished(&self) -> (r: bool)
        requires
            self.wf(),
        ensures
            r == (self.next >= self.names@.len()),
    {
        self.next >= self.names.len()
    }

    /// The next request: the delete of the current name's record set, then the
    /// insert of its record with a time to live of 300 seconds; `Finish` when
    /// every name is done.
    pub fn next_action(&self) -> (r: Action)
        requires
            self.wf(),
        ensures
            self.next >= self.names@.len() ==> r is Finish,
            self.next < self.names@.len() && !self.updating ==> r is Delete
                && r->Delete_0.fqdn@ == spec_fqdn(self.names@[self.next as int]@, self.origin@)
                && r->Delete_0.zone@ == self.origin@ && r->Delete_0.kind == spec_kind_of(
                self.ip,
            ),
            self.next < self.names@.len() && self.updating ==> r is Update
                && r->Update_0.fqdn@ == spec_fqdn(self.names@[self.next as int]@, self.origin@)
                && r->Update_0.zone@ == self.origin@ && r->Update_0.kind == spec_kind_of(
                self.ip,
            ) && r->Update_0.record == spec_record_for(self.ip) && r->Update_0.ttl == 300,
    {
        if self.next >= self.names.len() {
            return Action::Finish;
        }
        let name = fqdn(self.names[self.next].as_str(), self.origin.as_str());
        let zone = self.origin.clone();
        let kind = kind_of(self.ip);
        if !self.updating {
            Action::Delete(DeleteRequest { fqdn: name, zone, kind })
        } else {
            Action::Update(
                UpdateRequest { fqdn: name, zone, kind, record: record_for(self.ip), ttl: RECORD_TTL },
            )
        }
    }

    /// Takes the result of the request that `next_action` gave. Returns the
    /// outcome of the current name where that result ends it: a failed delete
    /// ends it as failed, and it is not tried again; an insert ends it with its
    /// own result.
    pub fn record_result(&mut self, ok: bool) -> (r: Option<bool>)
        requires
            old(self).wf(),
        ensures
            final(self).wf(),
            final(self)@ == step(old(self)@, ok),
            final(self).names == old(self).names,
            final(self).origin == old(self).origin,
            final(self).ip == old(self).ip,
            r == (if old(self).next < old(self).names@.len() && (old(self).updating || !ok) {
                Some(ok)
            } else {
                None
            }),
    {
        if self.next >= self.names.len() {
            return None;
        }
        if !self.updating && ok {
            self.updating = true;
            None
        } else {
            self.outcomes.push(ok);
            self.next = self.next + 1;
            self.updating = false;
            Some(ok)
        }
    }
}

/// The outcome of each name of a batch: success exactly where both its
/// delete and its insert succeeded.
pub open spec fn batch_outcomes(pairs: Seq<(bool, bool)>) -> Seq<bool> {
    Seq::new(pairs.len(), |i: int| pairs[i].0 && pairs[i].1)
}

/// Taking two runs of results one after the other is taking them together.
pub proof fn lemma_run_concat(v: BatchView, a: Seq<bool>, b: Seq<bool>)
    ensures
        run(v, a + b) == run(run(v, a), b),
    decreases a.len(),
{
    if a.len() == 0 {
        assert(a + b =~= b);
    } else {
        assert((a + b).subrange(1, (a + b).len() as int) =~= a.subrange(1, a.len() as int) + b);
        lemma_run_concat(step(v, a[0]), a.subrange(1, a.len() as int), b);
    }
}

/// A batch of names in which each name's delete and insert give the results
/// in `pairs` ends with every name done, each exactly once, in order: a name
/// succeeds where both of its requests succeeded and fails otherwise, and a
/// failing name neither stops the others nor is tried again.
pub proof fn lemma_batch_outcomes(pairs: Seq<(bool, bool)>)
    ensures
        run(start_view(pairs.len()), batch_results(pairs)) == (BatchView {
            total: pairs.len(),
            next: pairs.len(),
            updating: false,
            outcomes: batch_outcomes(pairs),
        }),
{
    lemma_batch_prefix(pairs, pairs.len());
}

proof fn lemma_batch_prefix(pairs: Seq<(bool, bool)>, total: nat)
    requires
        pairs.len() <= total,
    ensures
        run(start_view(total), batch_results(pairs)) == (BatchView {
            total,
            next: pairs.len(),
            updating: false,
            outcomes: batch_outcomes(pairs),
        }),
    decreases pairs.len(),
{
    if pairs.len() == 0 {
        assert(batch_outcomes(pairs) =~= Seq::<bool>::empty());
    } else {
        let prefix = pairs.drop_last();
        let (d, u) = pairs.last();
        lemma_batch_prefix(prefix, total);
        lemma_run_concat(start_view(total), batch_results(prefix), name_results(d, u));
        let mid = run(start_view(total), batch_results(prefix));
        let tail = name_results(d, u);
        assert(batch_results(pairs) == batch_results(prefix) + tail);
        if d {
            let one = step(mid, true);
            assert(tail.subrange(1, 2) =~= seq![u]);
            assert(seq![u].subrange(1, 1) =~= Seq::<bool>::empty());
            assert(run(one, seq![u]) == run(step(one, u), Seq::<bool>::empty()));
            assert(run(mid, tail) == run(one, seq![u]));
        } else {
            assert(tail.subrange(1, 1) =~= Seq::<bool>::empty());
            assert(run(mid, tail) == run(step(mid, false), Seq::<bool>::empty()));
        }
        assert(batch_outcomes(prefix).push(d && u) =~= batch_outcomes(pairs));
    }
}

/// When exactly one name of a batch fails, the batch reports one failure and
/// a success for every other name.
pub proof fn lemma_single_failure(pairs: Seq<(bool, bool)>, failed: int)
    requires
        0 <= failed < pairs.len(),
        !(pairs[failed].0 && pairs[failed].1),
        forall|i: int| 0 <= i < pairs.len() && i != failed ==> pairs[i].0 && pairs[i].1,
    ensures
        ({
            let end = run(start_view(pairs.len()), batch_results(pairs));
            &&& end.next == pairs.len()
            &&& end.outcomes.len() == pairs.len()
            &&& !end.outcomes[failed]
            &&& forall|i: int| 0 <= i < pairs.len() && i != failed ==> end.outcomes[i]
        }),
{
    lemma_batch_outcomes(pairs);
}

} // verus!
