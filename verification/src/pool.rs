//! Model of the durable pool state: the free set of items, the borrowed-item
//! ledger, and the checks and mutations the workflows perform on them.
//!
//! An item is carried in its canonical JSON text form; equality of items is
//! equality of that text. The free list is a set (no duplicates), the ledger a
//! map from borrowed item to the borrow token minted when it left the pool.

use vstd::prelude::*;

use crate::kvseq::{items_set, items_unique, kv_has, kv_map, kv_unique, lemma_kv_lookup, lemma_kv_push, lemma_kv_remove};

verus! {

/// A ledger entry: a borrowed item and the borrow token that authorizes its
/// return.
pub struct LedgerEntry {
    pub item: String,
    pub borrow_token: String,
}

/// Outcome of checking a borrow token against the ledger.
#[derive(Clone, Copy, Debug, PartialEq, Eq, Structural)]
pub enum TokenCheck {
    /// The item is in the ledger and the stored token matches.
    Valid,
    /// The item is in the ledger but the stored token differs.
    Unauthorized,
    /// The item has no ledger entry.
    NotFound,
}

/// Handle on the backing store: the URL the store adapter connects to.
pub struct Store {
    pub redis_url: String,
}

impl Store {
    pub fn new(redis_url: String) -> (r: Store)
        ensures
            r.redis_url@ == redis_url@,
    {
        Store { redis_url }
    }
}

/// No free item has a ledger entry.
pub open spec fn free_ledger_disjoint(
    free: Seq<Seq<char>>,
    ledger: Seq<(Seq<char>, Seq<char>)>,
) -> bool {
    forall|x: Seq<char>| free.contains(x) ==> !kv_has(ledger, x)
}

/// Abstract value of a `PoolState`: the free items and the ledger entries,
/// each item as its sequence of characters.
pub struct PoolView {
    pub free: Seq<Seq<char>>,
    pub ledger: Seq<(Seq<char>, Seq<char>)>,
}

impl PoolView {
    /// The free items, as a set.
    pub open spec fn free_set(self) -> Set<Seq<char>> {
        items_set(self.free)
    }

    /// Whether some ledger entry records `item` as borrowed.
    pub open spec fn ledger_has(self, item: Seq<char>) -> bool {
        kv_has(self.ledger, item)
    }

    /// The ledger, as a map from borrowed item to its token.
    pub open spec fn ledger_map(self) -> Map<Seq<char>, Seq<char>> {
        kv_map(self.ledger)
    }

    pub open spec fn free_unique(self) -> bool {
        items_unique(self.free)
    }

    pub open spec fn ledger_unique(self) -> bool {
        kv_unique(self.ledger)
    }

    /// Representation invariant: the free list is a set and the ledger a map.
    pub open spec fn wf(self) -> bool {
        self.free_unique() && self.ledger_unique()
    }

    /// The reachable-state invariant of the broker: an item stands in the pool
    /// exactly when it is not borrowed, so the free set and the ledger's key
    /// set never share an item.
    pub open spec fn disjoint_from_ledger(self) -> bool {
        free_ledger_disjoint(self.free, self.ledger)
    }
}

/// What `verify_borrow_token` answers, as a function of the ledger alone.
pub open spec fn spec_token_check(
    ledger: Map<Seq<char>, Seq<char>>,
    item: Seq<char>,
    token: Seq<char>,
) -> TokenCheck {
    if !ledger.dom().contains(item) {
        TokenCheck::NotFound
    } else if ledger[item] == token {
        TokenCheck::Valid
    } else {
        TokenCheck::Unauthorized
    }
}

/// Decide a token check from what the ledger stores for the item: `Valid`
/// when the stored token is exactly the presented one, `Unauthorized` when
/// it differs, `NotFound` when nothing is stored. Store adapters hand the
/// stored entry in and take the verdict from here.
pub fn check_presented_token(stored: &Option<String>, token: &String) -> (r: TokenCheck)
    ensures
        r == (match stored {
            Some(t) => if t@ == token@ {
                TokenCheck::Valid
            } else {
                TokenCheck::Unauthorized
            },
            None => TokenCheck::NotFound,
        }),
{
    match stored {
        Some(t) => {
            if *t == *token {
                TokenCheck::Valid
            } else {
                TokenCheck::Unauthorized
            }
        },
        None => TokenCheck::NotFound,
    }
}

/// Appending an item to the free list inserts it into the free set.
proof fn lemma_free_push(v: PoolView, w: PoolView, x: Seq<char>)
    requires
        w.free == v.free.push(x),
    ensures
        w.free_set() == v.free_set().insert(x),
        !v.free.contains(x) && v.free_unique() ==> w.free_unique(),
{
    let n = v.free.len() as int;
    assert(w.free[n] == x);
    assert forall|y: Seq<char>| #[trigger] w.free.contains(y) implies v.free_set().insert(
        x,
    ).contains(y) by {
        let i = choose|i: int| 0 <= i < w.free.len() && w.free[i] == y;
        if i < n {
            assert(v.free[i] == y);
        }
    }
    assert forall|y: Seq<char>| v.free_set().insert(x).contains(y) implies #[trigger] w.free.contains(
        y,
    ) by {
        if y == x {
            assert(w.free[n] == y);
        } else {
            let i = choose|i: int| 0 <= i < v.free.len() && v.free[i] == y;
            assert(w.free[i] == y);
        }
    }
    assert(w.free_set() =~= v.free_set().insert(x));
    if !v.free.contains(x) && v.free_unique() {
        assert forall|i: int, j: int| 0 <= i < j < w.free.len() implies w.free[i]
            != w.free[j] by {
            if j < n {
                assert(w.free[i] == v.free[i]);
                assert(w.free[j] == v.free[j]);
            } else {
                assert(w.free[i] == v.free[i]);
                assert(v.free.contains(v.free[i]));
            }
        }
    }
}

/// Removing the item at index `i` removes it from the free set.
proof fn lemma_free_remove(v: PoolView, w: PoolView, i: int)
    requires
        v.free_unique(),
        0 <= i < v.free.len(),
        w.free == v.free.remove(i),
    ensures
        w.free_unique(),
        !w.free.contains(v.free[i]),
        w.free_set() == v.free_set().remove(v.free[i]),
{
    let n = v.free.len() as int;
    let x0 = v.free[i];
    assert forall|a: int, b: int| 0 <= a < b < w.free.len() implies w.free[a] != w.free[b] by {
        let a0: int = if a < i { a } else { a + 1 };
        let b0: int = if b < i { b } else { b + 1 };
        assert(w.free[a] == v.free[a0]);
        assert(w.free[b] == v.free[b0]);
    }
    assert forall|j: int| 0 <= j < w.free.len() implies w.free[j] != x0 by {
        let j0: int = if j < i { j } else { j + 1 };
        assert(w.free[j] == v.free[j0]);
    }
    assert forall|y: Seq<char>| #[trigger] w.free.contains(y) implies v.free_set().remove(
        x0,
    ).contains(y) by {
        let j = choose|j: int| 0 <= j < w.free.len() && w.free[j] == y;
        let j0: int = if j < i { j } else { j + 1 };
        assert(v.free[j0] == y);
    }
    assert forall|y: Seq<char>| v.free_set().remove(x0).contains(y) implies #[trigger] w.free.contains(
        y,
    ) by {
        let j0 = choose|j0: int| 0 <= j0 < v.free.len() && v.free[j0] == y;
        assert(j0 != i);
        let j: int = if j0 < i { j0 } else { j0 - 1 };
        assert(w.free[j] == v.free[j0]);
    }
    assert(w.free_set() =~= v.free_set().remove(x0));
}

/// The pool and ledger, as the workflows see them: a free set of items and a
/// map from borrowed item to borrow token.
///
/// Every mutating operation states how it changes the free set and the ledger
/// map, and under which hypotheses it preserves the pool–ledger exclusion
/// (`PoolView::disjoint_from_ledger`).
pub struct PoolState {
    free: Vec<String>,
    ledger: Vec<LedgerEntry>,
}

impl View for PoolState {
    type V = PoolView;

    closed spec fn view(&self) -> PoolView {
        PoolView {
            free: self.free@.map_values(|s: String| s@),
            ledger: self.ledger@.map_values(|e: LedgerEntry| (e.item@, e.borrow_token@)),
        }
    }
}

impl PoolState {
    /// An empty pool with an empty ledger.
    pub fn new() -> (r: PoolState)
        ensures
            r@.free.len() == 0,
            r@.ledger.len() == 0,
            r@.wf(),
            r@.disjoint_from_ledger(),
    {
        PoolState { free: Vec::new(), ledger: Vec::new() }
    }

    fn find_free_index(&self, item: &String) -> (r: Option<usize>)
        ensures
            match r {
                Some(i) => i < self@.free.len() && self@.free[i as int] == item@,
                None => !self@.free.contains(item@),
            },
    {
        let n = self.free.len();
        let mut i: usize = 0;
        while i < n
            invariant
                i <= n,
                n == self@.free.len(),
                forall|j: int| 0 <= j < i ==> self@.free[j] != item@,
            decreases n - i,
        {
            if self.free[i] == *item {
                return Some(i);
            }
            i += 1;
        }
        None
    }

    fn find_ledger_index(&self, item: &String) -> (r: Option<usize>)
        ensures
            match r {
                Some(i) => i < self@.ledger.len() && self@.ledger[i as int].0 == item@,
                None => !self@.ledger_has(item@),
            },
    {
        let n = self.ledger.len();
        let mut i: usize = 0;
        while i < n
            invariant
                i <= n,
                n == self@.ledger.len(),
                forall|j: int| 0 <= j < i ==> self@.ledger[j].0 != item@,
            decreases n - i,
        {
            if self.ledger[i].item == *item {
                return Some(i);
            }
            i += 1;
        }
        None
    }

    /// Whether `item` currently stands in the pool.
    pub fn contains_item(&self, item: &String) -> (r: bool)
        ensures
            r == self@.free_set().contains(item@),
    {
        self.find_free_index(item).is_some()
    }

    /// Atomically take one item out of the pool; `None` exactly when the pool
    /// is empty. The choice of item is unordered. The ledger is untouched.
    pub fn borrow(&mut self) -> (r: Option<String>)
        requires
            old(self)@.wf(),
        ensures
            final(self)@.wf(),
            final(self)@.ledger == old(self)@.ledger,
            r is None <==> old(self)@.free.len() == 0,
            r is None ==> final(self)@ == old(self)@,
            r matches Some(x) ==> old(self)@.free_set().contains(x@) && final(self)@.free_set()
                == old(self)@.free_set().remove(x@) && !final(self)@.free.contains(x@) && final(self)@.free.len() == old(self)@.free.len() - 1,
            old(self)@.disjoint_from_ledger() ==> final(self)@.disjoint_from_ledger(),
    {
        let ghost v = self@;
        let r = self.free.pop();
        proof {
            let w = self@;
            if v.free.len() > 0 {
                let n = v.free.len() - 1;
                assert(w.free =~= v.free.remove(n));
                lemma_free_remove(v, w, n);
                if v.disjoint_from_ledger() {
                    assert forall|y: Seq<char>| w.free.contains(y) implies !w.ledger_has(y) by {
                        assert(w.free_set().contains(y));
                        assert(v.free_set().remove(v.free[n]).contains(y));
                        assert(v.free.contains(y));
                        assert(!v.ledger_has(y));
                    }
                }
            } else {
                assert(w =~= v);
            }
        }
        r
    }

    /// Add `item` to the pool. Adding an item that is already present is a
    /// no-op: the pool is a set. The ledger is untouched.
    pub fn return_item(&mut self, item: &String)
        requires
            old(self)@.wf(),
        ensures
            final(self)@.wf(),
            final(self)@.ledger == old(self)@.ledger,
            final(self)@.free_set() == old(self)@.free_set().insert(item@),
            final(self)@.free_set().contains(item@),
            old(self)@.free_set().contains(item@) ==> final(self)@ == old(self)@,
            !old(self)@.free_set().contains(item@) ==> final(self)@.free.len() == old(self)@.free.len() + 1,
            old(self)@.disjoint_from_ledger() && !old(self)@.ledger_has(item@) ==> final(self)@.disjoint_from_ledger(),
    {
        let ghost v = self@;
        if self.find_free_index(item).is_none() {
            self.free.push(item.clone());
            proof {
                let w = self@;
                assert(w.free =~= v.free.push(item@));
                lemma_free_push(v, w, item@);
                if v.disjoint_from_ledger() && !v.ledger_has(item@) {
                    assert(w.ledger == v.ledger);
                    assert forall|y: Seq<char>| w.free.contains(y) implies !kv_has(w.ledger, y) by {
                        assert(w.free_set().contains(y));
                        if y != item@ {
                            assert(v.free.contains(y));
                        }
                        assert(!kv_has(v.ledger, y));
                    }
                }
            }
        } else {
            proof {
                assert(self@.free_set() =~= self@.free_set().insert(item@));
            }
        }
    }

    /// Write the ledger entry for `item`, overwriting any earlier token. The
    /// pool is untouched.
    pub fn record_borrowed(&mut self, item: &String, token: &String)
        requires
            old(self)@.wf(),
        ensures
            final(self)@.wf(),
            final(self)@.free == old(self)@.free,
            final(self)@.ledger_map() == old(self)@.ledger_map().insert(item@, token@),
            final(self)@.ledger_has(item@),
            !old(self)@.ledger_has(item@) ==> final(self)@.ledger.len() == old(self)@.ledger.len() + 1,
            old(self)@.ledger_has(item@) ==> final(self)@.ledger.len() == old(self)@.ledger.len(),
            old(self)@.disjoint_from_ledger() && !old(self)@.free_set().contains(item@) ==> final(self)@.disjoint_from_ledger(),
    {
        let ghost v = self@;
        let _ = self.delete_borrowed_item(item);
        let ghost mid = self@;
        self.ledger.push(LedgerEntry { item: item.clone(), borrow_token: token.clone() });
        proof {
            let w = self@;
            assert(w.ledger =~= mid.ledger.push((item@, token@)));
            lemma_kv_push(mid.ledger, w.ledger, item@, token@);
            assert(w.ledger_map() =~= v.ledger_map().insert(item@, token@));
            if v.disjoint_from_ledger() && !v.free_set().contains(item@) {
                assert forall|y: Seq<char>| w.free.contains(y) implies !w.ledger_has(y) by {
                    assert(v.free.contains(y));
                    assert(v.free_set().contains(y));
                    if w.ledger_has(y) {
                        assert(w.ledger_map().dom().contains(y));
                    }
                }
            }
        }
    }

    /// Check a presented borrow token against the ledger: `Valid` when the
    /// entry for `item` holds exactly `token`, `Unauthorized` when it holds a
    /// different token, `NotFound` when `item` has no entry.
    pub fn verify_borrow_token(&self, item: &String, token: &String) -> (r: TokenCheck)
        requires
            self@.wf(),
        ensures
            r == spec_token_check(self@.ledger_map(), item@, token@),
    {
        match self.find_ledger_index(item) {
            Some(i) => {
                proof {
                    lemma_kv_lookup(self@.ledger, i as int);
                }
                if self.ledger[i].borrow_token == *token {
                    TokenCheck::Valid
                } else {
                    TokenCheck::Unauthorized
                }
            },
            None => TokenCheck::NotFound,
        }
    }

    /// Delete the ledger entry for `item`, reporting whether one existed.
    /// Deleting an absent entry is a no-op. The pool is untouched.
    pub fn delete_borrowed_item(&mut self, item: &String) -> (r: bool)
        requires
            old(self)@.wf(),
        ensures
            final(self)@.wf(),
            final(self)@.free == old(self)@.free,
            r == old(self)@.ledger_has(item@),
            !final(self)@.ledger_has(item@),
            final(self)@.ledger_map() == old(self)@.ledger_map().remove(item@),
            r ==> final(self)@.ledger.len() == old(self)@.ledger.len() - 1,
            !r ==> final(self)@ == old(self)@,
            old(self)@.disjoint_from_ledger() ==> final(self)@.disjoint_from_ledger(),
    {
        let ghost v = self@;
        match self.find_ledger_index(item) {
            Some(i) => {
                self.ledger.remove(i);
                proof {
                    let w = self@;
                    assert(w.ledger =~= v.ledger.remove(i as int));
                    lemma_kv_remove(v.ledger, w.ledger, i as int);
                    if v.disjoint_from_ledger() {
                        assert(w.free == v.free);
                        assert forall|y: Seq<char>| w.free.contains(y) implies !kv_has(
                            w.ledger,
                            y,
                        ) by {
                            assert(v.free.contains(y));
                            assert(!kv_has(v.ledger, y));
                            if kv_has(w.ledger, y) {
                                assert(kv_map(w.ledger).dom().contains(y));
                            }
                        }
                    }
                }
                true
            },
            None => {
                proof {
                    assert(self@.ledger_map() =~= self@.ledger_map().remove(item@));
                }
                false
            },
        }
    }

    /// Clear the ledger entry for `item` after a successful return. Idempotent.
    pub fn remove_borrowed_record(&mut self, item: &String)
        requires
            old(self)@.wf(),
        ensures
            final(self)@.wf(),
            final(self)@.free == old(self)@.free,
            !final(self)@.ledger_has(item@),
            final(self)@.ledger_map() == old(self)@.ledger_map().remove(item@),
            old(self)@.disjoint_from_ledger() ==> final(self)@.disjoint_from_ledger(),
    {
        let _ = self.delete_borrowed_item(item);
    }

    /// Remove `item` from the pool without touching the ledger, reporting
    /// whether it was present.
    pub fn delete_item(&mut self, item: &String) -> (r: bool)
        requires
            old(self)@.wf(),
        ensures
            final(self)@.wf(),
            final(self)@.ledger == old(self)@.ledger,
            r == old(self)@.free_set().contains(item@),
            final(self)@.free_set() == old(self)@.free_set().remove(item@),
            r ==> final(self)@.free.len() == old(self)@.free.len() - 1,
            !r ==> final(self)@ == old(self)@,
            old(self)@.disjoint_from_ledger() ==> final(self)@.disjoint_from_ledger(),
    {
        let ghost v = self@;
        match self.find_free_index(item) {
            Some(i) => {
                self.free.remove(i);
                proof {
                    let w = self@;
                    assert(w.free =~= v.free.remove(i as int));
                    lemma_free_remove(v, w, i as int);
                        if v.disjoint_from_ledger() {
                        assert forall|y: Seq<char>| w.free.contains(y) implies !w.ledger_has(
                            y,
                        ) by {
                            assert(w.free_set().contains(y));
                            assert(v.free.contains(y));
                            assert(!v.ledger_has(y));
                        }
                    }
                }
                true
            },
            None => {
                proof {
                    assert(self@.free_set() =~= self@.free_set().remove(item@));
                }
                false
            },
        }
    }

    /// Put `item` back into the pool and clear its ledger entry, whatever
    /// state either was in. This is the commit step of a successful return and
    /// the admin force-return; it preserves the pool–ledger exclusion
    /// unconditionally.
    pub fn force_return(&mut self, item: &String)
        requires
            old(self)@.wf(),
        ensures
            final(self)@.wf(),
            final(self)@.free_set() == old(self)@.free_set().insert(item@),
            final(self)@.ledger_map() == old(self)@.ledger_map().remove(item@),
            !final(self)@.ledger_has(item@),
            old(self)@.disjoint_from_ledger() ==> final(self)@.disjoint_from_ledger(),
    {
        self.remove_borrowed_record(item);
        self.return_item(item);
    }

    /// The items currently in the pool.
    pub fn list_all_items(&self) -> (r: &Vec<String>)
        ensures
            r@.len() == self@.free.len(),
            forall|i: int| 0 <= i < r@.len() ==> r@[i]@ == self@.free[i],
    {
        &self.free
    }

    /// The number of items in the pool.
    pub fn free_count(&self) -> (r: usize)
        ensures
            r == self@.free.len(),
    {
        self.free.len()
    }

    /// The number of outstanding ledger entries.
    pub fn borrowed_count(&self) -> (r: usize)
        ensures
            r == self@.ledger.len(),
    {
        self.ledger.len()
    }

    /// The ledger: each borrowed item with its outstanding token.
    pub fn list_borrowed_items(&self) -> (r: &Vec<LedgerEntry>)
        ensures
            r@.len() == self@.ledger.len(),
            forall|i: int| 0 <= i < r@.len() ==> r@[i].item@ == self@.ledger[i].0 && r@[i].borrow_token@
                == self@.ledger[i].1,
    {
        &self.ledger
    }
}

/// For every item the broker manages — one that stands in the pool or has a
/// ledger entry — being in the pool is the same as not being borrowed. The
/// operations above preserve the underlying exclusion
/// (`PoolView::disjoint_from_ledger`) along the workflows' call orders, as
/// their contracts state.
pub proof fn lemma_pool_ledger_exclusion(v: PoolView, x: Seq<char>)
    requires
        v.disjoint_from_ledger(),
        v.free_set().contains(x) || v.ledger_has(x),
    ensures
        v.free_set().contains(x) <==> !v.ledger_has(x),
{
}

/// Once `record_borrowed` has written the token minted at borrow time, that
/// token verifies as `Valid` for its item.
pub proof fn lemma_token_valid_after_record(
    ledger: Map<Seq<char>, Seq<char>>,
    item: Seq<char>,
    token: Seq<char>,
)
    ensures
        spec_token_check(ledger.insert(item, token), item, token) == TokenCheck::Valid,
{
}

/// A valid borrow token stays valid while the ledger changes only at other
/// items: recording or clearing some other item's entry does not disturb it.
/// Together with the operations whose contracts leave the ledger untouched
/// (`borrow`, `return_item`, `delete_item`), this says a borrow token
/// verifies as `Valid` until its own item is returned or force-returned.
pub proof fn lemma_token_valid_until_cleared(
    ledger: Map<Seq<char>, Seq<char>>,
    item: Seq<char>,
    token: Seq<char>,
    other: Seq<char>,
    other_token: Seq<char>,
)
    requires
        spec_token_check(ledger, item, token) == TokenCheck::Valid,
        other != item,
    ensures
        spec_token_check(ledger.insert(other, other_token), item, token) == TokenCheck::Valid,
        spec_token_check(ledger.remove(other), item, token) == TokenCheck::Valid,
{
}

/// Round trip: taking an item out of the pool, recording it as borrowed, and
/// later committing its return (`force_return`) restores both the free set
/// and the ledger to their pre-borrow contents.
pub proof fn lemma_round_trip(
    free0: Set<Seq<char>>,
    ledger0: Map<Seq<char>, Seq<char>>,
    item: Seq<char>,
    token: Seq<char>,
)
    requires
        free0.contains(item),
        !ledger0.dom().contains(item),
    ensures
        free0.remove(item).insert(item) == free0,
        ledger0.insert(item, token).remove(item) == ledger0,
{
    assert(free0.remove(item).insert(item) =~= free0);
    assert(ledger0.insert(item, token).remove(item) =~= ledger0);
}

/// Rollback: when a must-succeed subscriber refuses the borrow event, putting
/// the just-borrowed item back leaves the free set exactly as it stood before
/// the borrow; the ledger was never touched.
pub proof fn lemma_borrow_rollback(free0: Set<Seq<char>>, item: Seq<char>)
    requires
        free0.contains(item),
    ensures
        free0.remove(item).insert(item) == free0,
{
    assert(free0.remove(item).insert(item) =~= free0);
}

} // verus!
