//! The operation registry: records of return and submit workflows, their
//! status state machine, and per-subscriber progress.

use vstd::prelude::*;

use crate::kvseq::{items_unique, kv_has, kv_map, kv_unique, lemma_kv_lookup, lemma_kv_push,
    lemma_kv_remove};
use crate::status::OperationStatus;

verus! {

/// One subscriber's status within one operation.
pub struct SubscriberStatus {
    pub name: String,
    pub status: OperationStatus,
}

/// A record of one return or submit workflow.
pub struct Operation {
    pub id: String,
    pub item: String,
    pub status: OperationStatus,
    pub message: Option<String>,
    pub must_succeed: Vec<String>,
    pub subscribers: Vec<SubscriberStatus>,
}

/// Well-formedness of an operation's subscriber bookkeeping: the must-succeed
/// names form a set, the per-subscriber statuses form a map, and every
/// must-succeed name has a subscriber entry.
pub open spec fn op_wf(
    must: Seq<Seq<char>>,
    subs: Seq<(Seq<char>, OperationStatus)>,
) -> bool {
    items_unique(must) && kv_unique(subs) && (forall|x: Seq<char>|
        must.contains(x) ==> kv_has(subs, x))
}

/// `op` with its status replaced.
pub open spec fn with_status(op: Operation, status: OperationStatus) -> Operation {
    Operation { status, ..op }
}

/// `op` with its message replaced.
pub open spec fn with_message(op: Operation, message: Option<String>) -> Operation {
    Operation { message, ..op }
}

impl Operation {
    /// The must-succeed names, as character sequences.
    pub open spec fn must_names(self) -> Seq<Seq<char>> {
        self.must_succeed@.map_values(|n: String| n@)
    }

    /// The per-subscriber statuses, as (name, status) pairs.
    pub open spec fn subs_seq(self) -> Seq<(Seq<char>, OperationStatus)> {
        self.subscribers@.map_values(|e: SubscriberStatus| (e.name@, e.status))
    }

    /// The per-subscriber statuses, as a map.
    pub open spec fn subs_map(self) -> Map<Seq<char>, OperationStatus> {
        kv_map(self.subs_seq())
    }

    /// The subscriber keys always cover the must-succeed set.
    pub open spec fn wf(self) -> bool {
        op_wf(self.must_names(), self.subs_seq())
    }

    /// A fresh record: Pending, no message, one Pending subscriber entry per
    /// must-succeed name.
    pub fn new(id: String, item: String, must_succeed: Vec<String>) -> (r: Operation)
        requires
            items_unique(must_succeed@.map_values(|n: String| n@)),
        ensures
            r.wf(),
            r.id@ == id@,
            r.item@ == item@,
            r.status is Pending,
            r.message is None,
            r.must_names() == must_succeed@.map_values(|n: String| n@),
            forall|x: Seq<char>| #[trigger] kv_has(r.subs_seq(), x) <==> r.must_names().contains(
                x,
            ),
            forall|x: Seq<char>| r.must_names().contains(x) ==> r.subs_map()[x] is Pending,
    {
        let mut subscribers: Vec<SubscriberStatus> = Vec::new();
        let n = must_succeed.len();
        let mut i: usize = 0;
        while i < n
            invariant
                i <= n,
                n == must_succeed@.len(),
                subscribers@.len() == i,
                forall|j: int|
                    0 <= j < i ==> (#[trigger] subscribers@[j]).name@ == must_succeed@[j]@
                        && subscribers@[j].status is Pending,
            decreases n - i,
        {
            subscribers.push(
                SubscriberStatus { name: must_succeed[i].clone(), status: OperationStatus::Pending },
            );
            i += 1;
        }
        let r = Operation {
            id,
            item,
            status: OperationStatus::Pending,
            message: None,
            must_succeed,
            subscribers,
        };
        proof {
            let must = r.must_names();
            let subs = r.subs_seq();
            assert(subs.len() == must.len());
            assert forall|j: int| 0 <= j < subs.len() implies #[trigger] subs[j] == (
            must[j],
            OperationStatus::Pending,
            ) by {
                assert(subs[j].0 == r.subscribers@[j].name@);
            }
            assert forall|a: int, b: int| 0 <= a < b < subs.len() implies subs[a].0
                != subs[b].0 by {
                assert(must[a] != must[b]);
            }
            assert forall|x: Seq<char>| #[trigger] kv_has(subs, x) implies must.contains(x) by {
                let j = choose|j: int| 0 <= j < subs.len() && subs[j].0 == x;
                assert(must[j] == x);
            }
            assert forall|x: Seq<char>| must.contains(x) implies #[trigger] kv_has(subs, x) by {
                let j = choose|j: int| 0 <= j < must.len() && must[j] == x;
                assert(subs[j].0 == x);
            }
            assert forall|x: Seq<char>| must.contains(x) implies kv_map(subs)[x]
                is Pending by {
                let j = choose|j: int| 0 <= j < must.len() && must[j] == x;
                lemma_kv_lookup(subs, j);
            }
        }
        r
    }

    /// Record one subscriber's status, inserting the entry if the name is
    /// new. Only the subscriber map changes; keys only grow, so the
    /// must-succeed cover is kept.
    pub fn set_subscriber(&mut self, name: &String, status: OperationStatus)
        requires
            old(self).wf(),
        ensures
            final(self).wf(),
            final(self).id == old(self).id,
            final(self).item == old(self).item,
            final(self).status == old(self).status,
            final(self).message == old(self).message,
            final(self).must_succeed == old(self).must_succeed,
            final(self).subs_map() == old(self).subs_map().insert(name@, status),
    {
        let ghost subs0 = self.subs_seq();
        let ghost must0 = self.must_names();
        let n = self.subscribers.len();
        let mut i: usize = 0;
        let mut found: Option<usize> = None;
        while i < n
            invariant
                i <= n,
                n == self.subscribers@.len(),
                match found {
                    Some(k) => k < i && self.subscribers@[k as int].name@ == name@,
                    None => forall|j: int| 0 <= j < i ==> self.subscribers@[j].name@ != name@,
                },
            decreases n - i,
        {
            if found.is_none() && self.subscribers[i].name == *name {
                found = Some(i);
            }
            i += 1;
        }
        let ghost mid: Seq<(Seq<char>, OperationStatus)>;
        match found {
            Some(k) => {
                self.subscribers.remove(k);
                proof {
                    mid = self.subs_seq();
                    assert(mid =~= subs0.remove(k as int));
                    assert(subs0[k as int].0 == name@);
                    lemma_kv_remove(subs0, mid, k as int);
                }
            },
            None => {
                proof {
                    mid = self.subs_seq();
                    assert forall|j: int| 0 <= j < mid.len() implies mid[j].0 != name@ by {
                        assert(self.subscribers@[j].name@ != name@);
                    }
                    assert(kv_map(mid) =~= kv_map(subs0).remove(name@));
                }
            },
        }
        self.subscribers.push(SubscriberStatus { name: name.clone(), status });
        proof {
            let subs1 = self.subs_seq();
            assert(subs1 =~= mid.push((name@, status)));
            assert(!kv_has(mid, name@)) by {
                if kv_has(mid, name@) {
                    assert(kv_map(mid).dom().contains(name@));
                }
            }
            lemma_kv_push(mid, subs1, name@, status);
            assert(kv_map(subs1) =~= kv_map(subs0).insert(name@, status));
            assert(final(self).must_names() == must0);
            assert forall|x: Seq<char>| must0.contains(x) implies kv_has(subs1, x) by {
                assert(kv_has(subs0, x));
                assert(kv_map(subs0).dom().contains(x));
                assert(kv_map(subs1).dom().contains(x));
            }
        }
    }
}

/// Well-formedness of the registry's entries: ids are distinct keys, each
/// entry's key is its record's id, and each record is well-formed.
pub open spec fn store_wf(s: Seq<(Seq<char>, Operation)>) -> bool {
    kv_unique(s) && (forall|i: int|
        0 <= i < s.len() ==> (#[trigger] s[i]).1.wf() && s[i].0 == s[i].1.id@)
}

/// How many operations are still open (Pending or InProgress).
pub open spec fn spec_open_count(s: Seq<(Seq<char>, Operation)>) -> nat
    decreases s.len(),
{
    if s.len() == 0 {
        0nat
    } else {
        spec_open_count(s.drop_last()) + if s.last().1.status.spec_is_terminal() {
            0nat
        } else {
            1nat
        }
    }
}

/// How many operations have Failed.
pub open spec fn spec_failed_count(s: Seq<(Seq<char>, Operation)>) -> nat
    decreases s.len(),
{
    if s.len() == 0 {
        0nat
    } else {
        spec_failed_count(s.drop_last()) + if s.last().1.status is Failed {
            1nat
        } else {
            0nat
        }
    }
}

/// The registry: a table from operation id to its record, retained for the
/// broker's lifetime unless explicitly deleted.
pub struct OperationStore {
    ops: Vec<Operation>,
}

impl OperationStore {
    /// The registry's entries as (id, record) pairs.
    pub closed spec fn ops_seq(self) -> Seq<(Seq<char>, Operation)> {
        self.ops@.map_values(|op: Operation| (op.id@, op))
    }

    /// Whether an operation with this id is registered.
    pub open spec fn has_op(self, id: Seq<char>) -> bool {
        kv_has(self.ops_seq(), id)
    }

    /// The registry as a map from id to record.
    pub open spec fn ops_map(self) -> Map<Seq<char>, Operation> {
        kv_map(self.ops_seq())
    }

    pub open spec fn wf(self) -> bool {
        store_wf(self.ops_seq())
    }

    pub fn new() -> (r: OperationStore)
        ensures
            r.wf(),
            r.ops_seq().len() == 0,
    {
        OperationStore { ops: Vec::new() }
    }

    fn find_index(&self, id: &String) -> (r: Option<usize>)
        ensures
            match r {
                Some(i) => i < self.ops_seq().len() && self.ops_seq()[i as int].0 == id@,
                None => !self.has_op(id@),
            },
    {
        let n = self.ops.len();
        let mut i: usize = 0;
        while i < n
            invariant
                i <= n,
                n == self.ops@.len(),
                forall|j: int| 0 <= j < i ==> self.ops@[j].id@ != id@,
            decreases n - i,
        {
            if self.ops[i].id == *id {
                return Some(i);
            }
            i += 1;
        }
        proof {
            assert forall|j: int| 0 <= j < self.ops_seq().len() implies self.ops_seq()[j].0
                != id@ by {
                assert(self.ops@[j].id@ != id@);
            }
        }
        None
    }

    /// Remove the record with this id, reporting whether one existed.
    pub fn delete(&mut self, id: &String) -> (r: bool)
        requires
            old(self).wf(),
        ensures
            final(self).wf(),
            r == old(self).has_op(id@),
            !final(self).has_op(id@),
            final(self).ops_map() == old(self).ops_map().remove(id@),
            !r ==> final(self).ops_seq() == old(self).ops_seq(),
    {
        let ghost v = self.ops_seq();
        match self.find_index(id) {
            Some(i) => {
                self.ops.remove(i);
                proof {
                    let w = self.ops_seq();
                    assert(w =~= v.remove(i as int));
                    lemma_kv_remove(v, w, i as int);
                    assert forall|j: int| 0 <= j < w.len() implies (#[trigger] w[j]).1.wf()
                        && w[j].0 == w[j].1.id@ by {
                        let j0: int = if j < i { j } else { j + 1 };
                        assert(w[j] == v[j0]);
                    }
                }
                true
            },
            None => {
                proof {
                    assert(self.ops_map() =~= self.ops_map().remove(id@));
                }
                false
            },
        }
    }

    /// Register a fresh Pending record under `id`, replacing any earlier
    /// record with that id.
    pub fn create(&mut self, id: String, item: String, must_succeed: Vec<String>)
        requires
            old(self).wf(),
            items_unique(must_succeed@.map_values(|n: String| n@)),
        ensures
            final(self).wf(),
            final(self).has_op(id@),
            forall|x: Seq<char>|
                x != id@ ==> #[trigger] final(self).has_op(x) == old(self).has_op(x),
            forall|x: Seq<char>|
                x != id@ && old(self).has_op(x) ==> #[trigger] final(self).ops_map()[x] == old(self).ops_map()[x],
            final(self).ops_map()[id@].wf(),
            final(self).ops_map()[id@].id@ == id@,
            final(self).ops_map()[id@].item@ == item@,
            final(self).ops_map()[id@].status is Pending,
            final(self).ops_map()[id@].message is None,
            final(self).ops_map()[id@].must_names() == must_succeed@.map_values(
                |n: String| n@,
            ),
            forall|x: Seq<char>|
                #[trigger] kv_has(final(self).ops_map()[id@].subs_seq(), x) <==> final(self).ops_map()[id@].must_names().contains(x),
            forall|x: Seq<char>|
                final(self).ops_map()[id@].must_names().contains(x) ==> final(self).ops_map()[id@].subs_map()[x] is Pending,
    {
        let _ = self.delete(&id);
        let ghost mid = self.ops_seq();
        let op = Operation::new(id, item, must_succeed);
        self.ops.push(op);
        proof {
            let w = self.ops_seq();
            assert(w =~= mid.push((op.id@, op)));
            assert(!kv_has(mid, op.id@)) by {
                if kv_has(mid, op.id@) {
                    assert(kv_map(mid).dom().contains(op.id@));
                }
            }
            lemma_kv_push(mid, w, op.id@, op);
            assert(kv_map(w)[op.id@] == op);
            assert forall|j: int| 0 <= j < w.len() implies (#[trigger] w[j]).1.wf() && w[j].0
                == w[j].1.id@ by {
                if j < mid.len() {
                    assert(w[j] == mid[j]);
                }
            }
            assert forall|x: Seq<char>|
                x != op.id@ && kv_has(mid, x) implies #[trigger] kv_map(w)[x] == kv_map(
                mid,
            )[x] by {
                assert(kv_map(mid).dom().contains(x));
            }
            assert forall|x: Seq<char>| x != op.id@ implies #[trigger] kv_has(w, x) == kv_has(
                mid,
                x,
            ) by {
                assert(kv_has(w, x) == kv_map(w).dom().contains(x));
                assert(kv_has(mid, x) == kv_map(mid).dom().contains(x));
            }
            assert forall|x: Seq<char>| x != op.id@ implies #[trigger] kv_has(mid, x)
                == old(self).has_op(x) by {
                assert(kv_has(mid, x) == kv_map(mid).dom().contains(x));
                assert(old(self).has_op(x) == old(self).ops_map().dom().contains(x));
            }
        }
    }

    /// Advance the status of the record with this id. Only the transitions of
    /// the state machine are applied: a request that does not follow
    /// `OperationStatus::can_advance_to` — in particular any request against
    /// a record already Succeeded or Failed — leaves the registry unchanged.
    pub fn set_status(&mut self, id: &String, status: OperationStatus)
        requires
            old(self).wf(),
        ensures
            final(self).wf(),
            forall|x: Seq<char>| #[trigger] final(self).has_op(x) == old(self).has_op(x),
            !old(self).has_op(id@) ==> final(self).ops_seq() == old(self).ops_seq(),
            old(self).has_op(id@) && old(self).ops_map()[id@].status.can_advance_to(status)
                ==> final(self).ops_map() == old(self).ops_map().insert(
                id@,
                with_status(old(self).ops_map()[id@], status),
            ),
            old(self).has_op(id@) && !old(self).ops_map()[id@].status.can_advance_to(status)
                ==> final(self).ops_seq() == old(self).ops_seq(),
            old(self).has_op(id@) && old(self).ops_map()[id@].status.spec_is_terminal() ==> final(self).ops_seq() == old(self).ops_seq(),
    {
        let ghost v = self.ops_seq();
        let ghost mid: Seq<(Seq<char>, Operation)>;
        match self.find_index(id) {
            Some(i) => {
                proof {
                    lemma_kv_lookup(v, i as int);
                }
                if self.ops[i].status.advances_to(&status) {
                    let mut op = self.ops.remove(i);
                    proof {
                        mid = self.ops_seq();
                        assert(mid =~= v.remove(i as int));
                        lemma_kv_remove(v, mid, i as int);
                    }
                    let ghost op0 = op;
                    op.status = status;
                    self.ops.push(op);
                    proof {
                        let w = self.ops_seq();
                        assert(op == with_status(op0, status));
                        assert(w =~= mid.push((id@, op)));
                        lemma_kv_push(mid, w, id@, op);
                        assert(kv_map(w) =~= kv_map(v).insert(id@, op));
                        assert(op.must_names() == op0.must_names());
                        assert(op.subs_seq() == op0.subs_seq());
                        assert forall|j: int| 0 <= j < w.len() implies (#[trigger] w[j]).1.wf()
                            && w[j].0 == w[j].1.id@ by {
                            if j < mid.len() {
                                let j0: int = if j < i { j } else { j + 1 };
                                assert(w[j] == v[j0]);
                            }
                        }
                        assert forall|x: Seq<char>| #[trigger] kv_has(w, x) == kv_has(v, x) by {
                            assert(kv_has(w, x) == kv_map(w).dom().contains(x));
                            assert(kv_has(v, x) == kv_map(v).dom().contains(x));
                        }
                    }
                }
            },
            None => {
            },
        }
    }

    /// Replace the failure message of the record with this id. Unknown ids
    /// are ignored.
    pub fn update_message(&mut self, id: &String, message: Option<String>)
        requires
            old(self).wf(),
        ensures
            final(self).wf(),
            forall|x: Seq<char>| #[trigger] final(self).has_op(x) == old(self).has_op(x),
            !old(self).has_op(id@) ==> final(self).ops_seq() == old(self).ops_seq(),
            old(self).has_op(id@) ==> final(self).ops_map() == old(self).ops_map().insert(
                id@,
                with_message(old(self).ops_map()[id@], message),
            ),
    {
        let ghost v = self.ops_seq();
        let ghost mid: Seq<(Seq<char>, Operation)>;
        match self.find_index(id) {
            Some(i) => {
                proof {
                    lemma_kv_lookup(v, i as int);
                }
                let mut op = self.ops.remove(i);
                proof {
                    mid = self.ops_seq();
                    assert(mid =~= v.remove(i as int));
                    lemma_kv_remove(v, mid, i as int);
                }
                let ghost op0 = op;
                op.message = message;
                self.ops.push(op);
                proof {
                    let w = self.ops_seq();
                    assert(op == with_message(op0, message));
                    assert(w =~= mid.push((id@, op)));
                    lemma_kv_push(mid, w, id@, op);
                    assert(kv_map(w) =~= kv_map(v).insert(id@, op));
                    assert(op.must_names() == op0.must_names());
                    assert(op.subs_seq() == op0.subs_seq());
                    assert forall|j: int| 0 <= j < w.len() implies (#[trigger] w[j]).1.wf()
                        && w[j].0 == w[j].1.id@ by {
                        if j < mid.len() {
                            let j0: int = if j < i { j } else { j + 1 };
                            assert(w[j] == v[j0]);
                        }
                    }
                    assert forall|x: Seq<char>| #[trigger] kv_has(w, x) == kv_has(v, x) by {
                        assert(kv_has(w, x) == kv_map(w).dom().contains(x));
                        assert(kv_has(v, x) == kv_map(v).dom().contains(x));
                    }
                }
            },
            None => {
            },
        }
    }

    /// Record one subscriber's status within the record with this id,
    /// reporting whether the record exists. Everything but that record's
    /// subscriber map is untouched.
    pub fn update_subscriber(&mut self, id: &String, name: &String, status: OperationStatus) -> (r:
        bool)
        requires
            old(self).wf(),
        ensures
            final(self).wf(),
            r == old(self).has_op(id@),
            forall|x: Seq<char>| #[trigger] final(self).has_op(x) == old(self).has_op(x),
            !r ==> final(self).ops_seq() == old(self).ops_seq(),
            forall|x: Seq<char>|
                x != id@ && old(self).has_op(x) ==> #[trigger] final(self).ops_map()[x] == old(self).ops_map()[x],
            r ==> final(self).ops_map()[id@].id == old(self).ops_map()[id@].id,
            r ==> final(self).ops_map()[id@].item == old(self).ops_map()[id@].item,
            r ==> final(self).ops_map()[id@].status == old(self).ops_map()[id@].status,
            r ==> final(self).ops_map()[id@].message == old(self).ops_map()[id@].message,
            r ==> final(self).ops_map()[id@].must_succeed == old(self).ops_map()[id@].must_succeed,
            r ==> final(self).ops_map()[id@].subs_map() == old(self).ops_map()[id@].subs_map().insert(
                name@,
                status,
            ),
    {
        let ghost v = self.ops_seq();
        let ghost mid: Seq<(Seq<char>, Operation)>;
        match self.find_index(id) {
            Some(i) => {
                proof {
                    lemma_kv_lookup(v, i as int);
                }
                let mut op = self.ops.remove(i);
                proof {
                    mid = self.ops_seq();
                    assert(mid =~= v.remove(i as int));
                    lemma_kv_remove(v, mid, i as int);
                }
                let ghost op0 = op;
                op.set_subscriber(name, status);
                self.ops.push(op);
                proof {
                    let w = self.ops_seq();
                    assert(op.id@ == id@);
                    assert(w =~= mid.push((id@, op)));
                    lemma_kv_push(mid, w, id@, op);
                    assert(kv_map(w) =~= kv_map(v).insert(id@, op));
                    assert forall|j: int| 0 <= j < w.len() implies (#[trigger] w[j]).1.wf()
                        && w[j].0 == w[j].1.id@ by {
                        if j < mid.len() {
                            let j0: int = if j < i { j } else { j + 1 };
                            assert(w[j] == v[j0]);
                        }
                    }
                    assert forall|x: Seq<char>| #[trigger] kv_has(w, x) == kv_has(v, x) by {
                        assert(kv_has(w, x) == kv_map(w).dom().contains(x));
                        assert(kv_has(v, x) == kv_map(v).dom().contains(x));
                    }
                }
                true
            },
            None => {
                false
            },
        }
    }

    /// How many records are still open (Pending or InProgress).
    pub fn count_open(&self) -> (r: usize)
        ensures
            r == spec_open_count(self.ops_seq()),
    {
        let n = self.ops.len();
        let mut c: usize = 0;
        let mut i: usize = 0;
        while i < n
            invariant
                i <= n,
                n == self.ops@.len(),
                c <= i,
                c == spec_open_count(self.ops_seq().subrange(0, i as int)),
            decreases n - i,
        {
            let ghost prefix = self.ops_seq().subrange(0, i as int);
            if !self.ops[i].status.is_terminal() {
                c += 1;
            }
            proof {
                let next = self.ops_seq().subrange(0, i + 1 as int);
                assert(next.drop_last() =~= prefix);
                assert(next.last() == self.ops_seq()[i as int]);
            }
            i += 1;
        }
        proof {
            assert(self.ops_seq().subrange(0, n as int) =~= self.ops_seq());
        }
        c
    }

    /// How many records have Failed.
    pub fn count_failed(&self) -> (r: usize)
        ensures
            r == spec_failed_count(self.ops_seq()),
    {
        let n = self.ops.len();
        let mut c: usize = 0;
        let mut i: usize = 0;
        while i < n
            invariant
                i <= n,
                n == self.ops@.len(),
                c <= i,
                c == spec_failed_count(self.ops_seq().subrange(0, i as int)),
            decreases n - i,
        {
            let ghost prefix = self.ops_seq().subrange(0, i as int);
            if matches!(self.ops[i].status, OperationStatus::Failed) {
                c += 1;
            }
            proof {
                let next = self.ops_seq().subrange(0, i + 1 as int);
                assert(next.drop_last() =~= prefix);
                assert(next.last() == self.ops_seq()[i as int]);
            }
            i += 1;
        }
        proof {
            assert(self.ops_seq().subrange(0, n as int) =~= self.ops_seq());
        }
        c
    }

    /// Look a record up by id.
    pub fn get(&self, id: &String) -> (r: Option<&Operation>)
        requires
            self.wf(),
        ensures
            match r {
                Some(op) => self.has_op(id@) && *op == self.ops_map()[id@],
                None => !self.has_op(id@),
            },
    {
        match self.find_index(id) {
            Some(i) => {
                proof {
                    lemma_kv_lookup(self.ops_seq(), i as int);
                    assert(self.ops_seq()[i as int].1 == self.ops@[i as int]);
                }
                Some(&self.ops[i])
            },
            None => None,
        }
    }

    /// All records, in registration order.
    pub fn get_all(&self) -> (r: &Vec<Operation>)
        ensures
            r@.len() == self.ops_seq().len(),
            forall|i: int| 0 <= i < r@.len() ==> self.ops_seq()[i] == (r@[i].id@, r@[i]),
    {
        &self.ops
    }
}

/// tokio's broadcast sender, declared so the broadcaster table can carry one
/// per operation. Opaque to the verifier.
#[verifier::external_type_specification]
#[verifier::external_body]
#[verifier::reject_recursive_types(T)]
pub struct ExBroadcastSender<T>(tokio::sync::broadcast::Sender<T>);

/// tokio's broadcast receiver, declared so listeners can be handed one.
/// Opaque to the verifier.
#[verifier::external_type_specification]
#[verifier::external_body]
#[verifier::reject_recursive_types(T)]
pub struct ExBroadcastReceiver<T>(tokio::sync::broadcast::Receiver<T>);

/// How many messages one operation's channel buffers; a listener lagging by
/// more may miss messages and re-polls the status endpoint instead.
pub const CHANNEL_CAPACITY: usize = 64;

/// Relies on tokio::sync::broadcast::channel: a connected sender/receiver
/// pair with the given capacity. The call panics outside 1..=usize::MAX/2,
/// so that range is required here.
#[verifier::external_body]
fn new_channel(capacity: usize) -> (r: (
    tokio::sync::broadcast::Sender<String>,
    tokio::sync::broadcast::Receiver<String>,
))
    requires
        1 <= capacity <= usize::MAX / 2,
{
    tokio::sync::broadcast::channel(capacity)
}

/// Relies on tokio::sync::broadcast::Sender::subscribe: a new receiver that
/// is delivered every message published after this call, in publication
/// order, as long as it does not lag past the channel's capacity.
#[verifier::external_body]
fn channel_subscribe(tx: &tokio::sync::broadcast::Sender<String>) -> (r:
    tokio::sync::broadcast::Receiver<String>)
{
    tx.subscribe()
}

/// Relies on tokio::sync::broadcast::Sender::send: queues the payload for
/// every live receiver; reports false when none is subscribed. The broker
/// never fails on this — delivery failures are silent.
#[verifier::external_body]
fn channel_send(tx: &tokio::sync::broadcast::Sender<String>, payload: String) -> (r: bool)
{
    tx.send(payload).is_ok()
}

/// One operation's fan-out channel.
pub struct BroadcastEntry {
    pub id: String,
    pub tx: tokio::sync::broadcast::Sender<String>,
}

/// Per-operation fan-out: a table from operation id to a bounded broadcast
/// channel whose producers are the workflows and whose consumers are live
/// listeners. Subscribing under an unknown id creates an empty channel, so a
/// listener arriving before the first publication still receives what comes
/// after.
pub struct Broadcasters {
    channels: Vec<BroadcastEntry>,
}

impl Broadcasters {
    /// The ids that have a channel, in creation order.
    pub closed spec fn ids(self) -> Seq<Seq<char>> {
        self.channels@.map_values(|e: BroadcastEntry| e.id@)
    }

    pub open spec fn has_channel(self, id: Seq<char>) -> bool {
        self.ids().contains(id)
    }

    pub open spec fn wf(self) -> bool {
        items_unique(self.ids())
    }

    pub fn new() -> (r: Broadcasters)
        ensures
            r.wf(),
            r.ids().len() == 0,
    {
        Broadcasters { channels: Vec::new() }
    }

    fn find_channel(&self, id: &String) -> (r: Option<usize>)
        ensures
            match r {
                Some(i) => i < self.ids().len() && self.ids()[i as int] == id@,
                None => !self.has_channel(id@),
            },
    {
        let n = self.channels.len();
        let mut i: usize = 0;
        while i < n
            invariant
                i <= n,
                n == self.channels@.len(),
                forall|j: int| 0 <= j < i ==> self.channels@[j].id@ != id@,
            decreases n - i,
        {
            if self.channels[i].id == *id {
                return Some(i);
            }
            i += 1;
        }
        proof {
            if self.has_channel(id@) {
                let j = choose|j: int| 0 <= j < self.ids().len() && self.ids()[j] == id@;
                assert(self.channels@[j].id@ == id@);
            }
        }
        None
    }

    /// Attach a listener to the operation's channel, creating an empty
    /// channel first when the id is new.
    pub fn subscribe(&mut self, id: &String) -> (r: tokio::sync::broadcast::Receiver<String>)
        requires
            old(self).wf(),
        ensures
            final(self).wf(),
            final(self).has_channel(id@),
            old(self).has_channel(id@) ==> final(self).ids() == old(self).ids(),
            !old(self).has_channel(id@) ==> final(self).ids() == old(self).ids().push(id@),
    {
        match self.find_channel(id) {
            Some(i) => {
                proof {
                    assert(self.has_channel(id@));
                }
                channel_subscribe(&self.channels[i].tx)
            },
            None => {
                let (tx, rx) = new_channel(CHANNEL_CAPACITY);
                self.channels.push(BroadcastEntry { id: id.clone(), tx });
                proof {
                    let v = old(self).ids();
                    let w = self.ids();
                    assert(w =~= v.push(id@));
                    assert forall|a: int, b: int| 0 <= a < b < w.len() implies w[a] != w[b] by {
                        if b < v.len() {
                            assert(w[a] == v[a]);
                            assert(w[b] == v[b]);
                        } else {
                            assert(w[b] == id@);
                            assert(w[a] == v[a]);
                            assert(v.contains(v[a]));
                        }
                    }
                    assert(w[v.len() as int] == id@);
                    assert(self.has_channel(id@));
                }
                rx
            },
        }
    }

    /// Publish a payload on the operation's channel, creating the channel
    /// first when the id is new — on a fresh channel no listener exists yet,
    /// so nothing is delivered. Reports whether any listener received it;
    /// the workflows ignore the report.
    pub fn notify(&mut self, id: &String, payload: String) -> (r: bool)
        requires
            old(self).wf(),
        ensures
            final(self).wf(),
            final(self).has_channel(id@),
            old(self).has_channel(id@) ==> final(self).ids() == old(self).ids(),
            !old(self).has_channel(id@) ==> final(self).ids() == old(self).ids().push(id@),
    {
        match self.find_channel(id) {
            Some(i) => {
                proof {
                    assert(self.has_channel(id@));
                }
                channel_send(&self.channels[i].tx, payload)
            },
            None => {
                let (tx, _rx) = new_channel(CHANNEL_CAPACITY);
                self.channels.push(BroadcastEntry { id: id.clone(), tx });
                proof {
                    let v = old(self).ids();
                    let w = self.ids();
                    assert(w =~= v.push(id@));
                    assert forall|a: int, b: int| 0 <= a < b < w.len() implies w[a] != w[b] by {
                        if b < v.len() {
                            assert(w[a] == v[a]);
                            assert(w[b] == v[b]);
                        } else {
                            assert(w[b] == id@);
                            assert(w[a] == v[a]);
                            assert(v.contains(v[a]));
                        }
                    }
                    assert(w[v.len() as int] == id@);
                    assert(self.has_channel(id@));
                }
                false
            },
        }
    }
}

} // verus!
