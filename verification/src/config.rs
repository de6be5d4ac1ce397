//! Subscriber configuration: which endpoints are notified of each lifecycle
//! event, and which of them must acknowledge before an operation commits.

use vstd::prelude::*;

verus! {

/// One configured subscriber endpoint.
pub struct SubscriberDef {
    /// The subscriber's name, the key under which its per-operation status is
    /// recorded.
    pub name: String,
    /// The URL the event payload is posted to.
    pub post: String,
    /// Whether the whole operation fails when this subscriber does.
    pub must_succeed: bool,
    /// Whether the subscriber acknowledges immediately and reports completion
    /// through its polled status endpoint.
    pub is_async: bool,
}

impl Default for SubscriberDef {
    fn default() -> (r: SubscriberDef)
        ensures
            r.name@.len() == 0,
            r.post@.len() == 0,
            !r.must_succeed,
            !r.is_async,
    {
        SubscriberDef { name: String::new(), post: String::new(), must_succeed: false, is_async: false }
    }
}

/// The subscribers configured for one event kind.
pub struct OperationSubscribers {
    pub subscribers: Vec<SubscriberDef>,
}

/// The names, in order, of the subscribers in `s` that are marked
/// must-succeed.
pub open spec fn spec_must_names(s: Seq<SubscriberDef>) -> Seq<Seq<char>>
    decreases s.len(),
{
    if s.len() == 0 {
        Seq::empty()
    } else {
        let rest = spec_must_names(s.drop_last());
        if s.last().must_succeed {
            rest.push(s.last().name@)
        } else {
            rest
        }
    }
}

/// A name stands among the must-succeed names exactly when some subscriber of
/// that name is marked must-succeed.
pub proof fn lemma_must_names_membership(s: Seq<SubscriberDef>, x: Seq<char>)
    ensures
        spec_must_names(s).contains(x) <==> exists|i: int|
            0 <= i < s.len() && s[i].must_succeed && s[i].name@ == x,
    decreases s.len(),
{
    if s.len() > 0 {
        let rest = spec_must_names(s.drop_last());
        lemma_must_names_membership(s.drop_last(), x);
        if spec_must_names(s).contains(x) {
            if s.last().must_succeed {
                let j = choose|j: int| 0 <= j < rest.push(s.last().name@).len() && rest.push(
                    s.last().name@,
                )[j] == x;
                if j < rest.len() {
                    assert(rest.contains(x));
                    let i = choose|i: int|
                        0 <= i < s.drop_last().len() && s.drop_last()[i].must_succeed
                            && s.drop_last()[i].name@ == x;
                    assert(s[i].must_succeed && s[i].name@ == x);
                } else {
                    assert(s[s.len() - 1].must_succeed && s[s.len() - 1].name@ == x);
                }
            } else {
                let i = choose|i: int|
                    0 <= i < s.drop_last().len() && s.drop_last()[i].must_succeed && s.drop_last()[i].name@
                        == x;
                assert(s[i].must_succeed && s[i].name@ == x);
            }
        }
        if exists|i: int| 0 <= i < s.len() && s[i].must_succeed && s[i].name@ == x {
            let i = choose|i: int| 0 <= i < s.len() && s[i].must_succeed && s[i].name@ == x;
            if i < s.len() - 1 {
                assert(s.drop_last()[i].must_succeed && s.drop_last()[i].name@ == x);
                assert(rest.contains(x));
                if s.last().must_succeed {
                    let j = choose|j: int| 0 <= j < rest.len() && rest[j] == x;
                    assert(rest.push(s.last().name@)[j] == x);
                }
            } else {
                assert(s.last().must_succeed && s.last().name@ == x);
                assert(rest.push(s.last().name@).last() == x);
            }
        }
    }
}

/// When subscriber names are distinct, so are the must-succeed names.
pub proof fn lemma_must_names_unique(s: Seq<SubscriberDef>)
    requires
        forall|i: int, j: int| 0 <= i < j < s.len() ==> s[i].name@ != s[j].name@,
    ensures
        forall|i: int, j: int|
            0 <= i < j < spec_must_names(s).len() ==> spec_must_names(s)[i] != spec_must_names(
                s,
            )[j],
    decreases s.len(),
{
    if s.len() > 0 {
        let rest = spec_must_names(s.drop_last());
        lemma_must_names_unique(s.drop_last());
        let m = spec_must_names(s);
        assert forall|i: int, j: int| 0 <= i < j < m.len() implies m[i] != m[j] by {
            if s.last().must_succeed && j == m.len() - 1 {
                assert(m[j] == s.last().name@);
                assert(m[i] == rest[i]);
                lemma_must_names_membership(s.drop_last(), rest[i]);
                let k = choose|k: int|
                    0 <= k < s.drop_last().len() && s.drop_last()[k].must_succeed && s.drop_last()[k].name@
                        == rest[i];
                assert(s[k].name@ == rest[i]);
            } else {
                assert(m[i] == rest[i] && m[j] == rest[j]);
            }
        }
    }
}

impl OperationSubscribers {
    /// Subscriber names are the keys of the group: they do not repeat.
    pub open spec fn names_unique(&self) -> bool {
        forall|i: int, j: int|
            0 <= i < j < self.subscribers@.len() ==> self.subscribers@[i].name@
                != self.subscribers@[j].name@
    }

    /// The names of the subscribers of this group whose acknowledgment the
    /// operation requires.
    pub fn must_succeed_names(&self) -> (r: Vec<String>)
        ensures
            r@.map_values(|n: String| n@) == spec_must_names(self.subscribers@),
    {
        let mut r: Vec<String> = Vec::new();
        let n = self.subscribers.len();
        let mut i: usize = 0;
        while i < n
            invariant
                i <= n,
                n == self.subscribers@.len(),
                r@.map_values(|n: String| n@) == spec_must_names(self.subscribers@.subrange(0, i as int)),
            decreases n - i,
        {
            let ghost prefix = self.subscribers@.subrange(0, i as int);
            if self.subscribers[i].must_succeed {
                r.push(self.subscribers[i].name.clone());
            }
            proof {
                let next = self.subscribers@.subrange(0, i + 1 as int);
                assert(next.drop_last() =~= prefix);
                assert(next.last() == self.subscribers@[i as int]);
                if self.subscribers@[i as int].must_succeed {
                    assert(r@.map_values(|n: String| n@) =~= spec_must_names(prefix).push(
                        self.subscribers@[i as int].name@,
                    ));
                } else {
                    assert(r@.map_values(|n: String| n@) =~= spec_must_names(prefix));
                }
            }
            i += 1;
        }
        proof {
            assert(self.subscribers@.subrange(0, n as int) =~= self.subscribers@);
        }
        r
    }
}

impl Default for OperationSubscribers {
    fn default() -> (r: OperationSubscribers)
        ensures
            r.subscribers@.len() == 0,
    {
        OperationSubscribers { subscribers: Vec::new() }
    }
}

/// Which lifecycle event a dispatch concerns.
#[derive(Clone, Copy, Debug, PartialEq, Eq, Structural)]
pub enum EventKind {
    Borrow,
    Return,
    Submit,
}

/// Full configuration: one subscriber group per lifecycle event. A group not
/// named in the configuration file stays empty.
pub struct AppConfig {
    pub on_borrow: OperationSubscribers,
    pub on_return: OperationSubscribers,
    pub on_submit: OperationSubscribers,
}

impl AppConfig {
    /// The subscriber group for one event kind.
    pub fn group(&self, kind: EventKind) -> (r: &OperationSubscribers)
        ensures
            kind is Borrow ==> *r == self.on_borrow,
            kind is Return ==> *r == self.on_return,
            kind is Submit ==> *r == self.on_submit,
    {
        match kind {
            EventKind::Borrow => &self.on_borrow,
            EventKind::Return => &self.on_return,
            EventKind::Submit => &self.on_submit,
        }
    }
}

impl Default for AppConfig {
    fn default() -> (r: AppConfig)
        ensures
            r.on_borrow.subscribers@.len() == 0,
            r.on_return.subscribers@.len() == 0,
            r.on_submit.subscribers@.len() == 0,
    {
        AppConfig {
            on_borrow: OperationSubscribers { subscribers: Vec::new() },
            on_return: OperationSubscribers { subscribers: Vec::new() },
            on_submit: OperationSubscribers { subscribers: Vec::new() },
        }
    }
}

} // verus!
