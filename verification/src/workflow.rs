//! The workflow engine: the borrow workflow with its rollback, the shared
//! asynchronous return/submit workflow over the operation registry, and the
//! blocking-borrow protocol.
//!
//! Each step takes what the transport or store reported and decides the next
//! state; the surrounding application performs the reported I/O and feeds
//! the outcome back.

use vstd::prelude::*;

use crate::config::{spec_must_names, OperationSubscribers, lemma_must_names_unique};
use crate::error::ErrorKind;
use crate::ops::{with_message, with_status, OperationStore};
use crate::pool::{spec_token_check, PoolState, TokenCheck};
use crate::status::OperationStatus;

verus! {

/// A successful borrow response: the item and the token that authorizes its
/// return.
pub struct BorrowOutput {
    pub item: String,
    pub borrow_token: String,
}

/// A message emitted to an operation's listeners at each state change.
pub enum EventMessage {
    /// The operation record was created.
    Created,
    /// All must-succeed subscribers acknowledged.
    NotificationsOk,
    /// The operation committed and succeeded.
    Completed,
    /// The operation failed for the carried reason.
    Failed(String),
}

impl EventMessage {
    /// The event name under which the message is delivered.
    pub fn label(&self) -> (r: String)
        ensures
            *self is Created ==> r@ == "created"@,
            *self is NotificationsOk ==> r@ == "notifications_ok"@,
            *self is Completed ==> r@ == "completed"@,
            *self is Failed ==> r@ == "failed"@,
    {
        match self {
            EventMessage::Created => "created".to_owned(),
            EventMessage::NotificationsOk => "notifications_ok".to_owned(),
            EventMessage::Completed => "completed".to_owned(),
            EventMessage::Failed(_) => "failed".to_owned(),
        }
    }
}

/// Relies on uuid::Uuid::new_v4 and its Display rendering: a fresh random
/// UUID, written hyphenated as 36 ASCII characters. Nothing is assumed about
/// which value comes back.
#[verifier::external_body]
fn mint_id() -> (r: String)
    ensures
        r@.len() == 36,
{
    uuid::Uuid::new_v4().to_string()
}

/// First step of the borrow workflow: take one item out of the pool, or
/// report `Empty` (surfaced as 503) when the pool has none.
pub fn borrow_attempt(pool: &mut PoolState) -> (r: Result<String, ErrorKind>)
    requires
        old(pool)@.wf(),
    ensures
        final(pool)@.wf(),
        final(pool)@.ledger == old(pool)@.ledger,
        r is Err <==> old(pool)@.free.len() == 0,
        r matches Err(e) ==> e is Empty && final(pool)@ == old(pool)@,
        r matches Ok(x) ==> old(pool)@.free_set().contains(x@) && final(pool)@.free_set() == old(pool)@.free_set().remove(x@),
        old(pool)@.disjoint_from_ledger() ==> final(pool)@.disjoint_from_ledger(),
{
    match pool.borrow() {
        Some(x) => Ok(x),
        None => Err(ErrorKind::Empty),
    }
}

/// Settle the borrow workflow after the borrow event was dispatched.
///
/// On a must-succeed dispatch failure the item goes straight back into the
/// pool — the rollback — and the failure surfaces as a subscriber error
/// (502); the ledger is untouched. On success a fresh borrow token is
/// minted, recorded in the ledger against the item, and returned with it;
/// the pool is untouched, and the minted token verifies as `Valid`.
///
/// A store that fails to record the token is handled the same way by the
/// adapter: put the item back and surface the store's error.
pub fn borrow_settle(pool: &mut PoolState, item: String, dispatch: Result<(), String>) -> (r:
    Result<BorrowOutput, ErrorKind>)
    requires
        old(pool)@.wf(),
    ensures
        final(pool)@.wf(),
        dispatch matches Err(m) ==> (r matches Err(ErrorKind::SubscriberError(msg)) && msg == m)
            && final(pool)@.free_set() == old(pool)@.free_set().insert(item@) && final(pool)@.ledger == old(pool)@.ledger,
        dispatch is Ok ==> (r matches Ok(out) && out.item == item && out.borrow_token@.len() == 36
            && final(pool)@.free == old(pool)@.free && final(pool)@.ledger_map() == old(pool)@.ledger_map().insert(item@, out.borrow_token@) && spec_token_check(
            final(pool)@.ledger_map(),
            item@,
            out.borrow_token@,
        ) is Valid),
        old(pool)@.disjoint_from_ledger() && !old(pool)@.free_set().contains(item@) && !old(pool)@.ledger_has(item@) ==> final(pool)@.disjoint_from_ledger(),
{
    match dispatch {
        Err(m) => {
            pool.return_item(&item);
            Err(ErrorKind::SubscriberError(m))
        },
        Ok(()) => {
            let token = mint_id();
            pool.record_borrowed(&item, &token);
            Ok(BorrowOutput { item, borrow_token: token })
        },
    }
}

/// Synchronous precondition of the return workflow: the presented borrow
/// token must match the ledger. `Unauthorized` surfaces as 401, `NotFound`
/// as 404.
pub fn return_precheck(pool: &PoolState, item: &String, token: &String) -> (r: Result<
    (),
    ErrorKind,
>)
    requires
        pool@.wf(),
    ensures
        r is Ok <==> spec_token_check(pool@.ledger_map(), item@, token@) is Valid,
        r matches Err(e) ==> (e is Unauthorized <==> spec_token_check(
            pool@.ledger_map(),
            item@,
            token@,
        ) is Unauthorized),
        r matches Err(e) ==> (e is NotFound <==> spec_token_check(
            pool@.ledger_map(),
            item@,
            token@,
        ) is NotFound),
{
    match pool.verify_borrow_token(item, token) {
        TokenCheck::Valid => Ok(()),
        TokenCheck::Unauthorized => Err(ErrorKind::Unauthorized),
        TokenCheck::NotFound => Err(ErrorKind::NotFound),
    }
}

/// Entry of the asynchronous return/submit workflow: mint an operation id,
/// register a Pending record whose must-succeed set is read off the
/// subscriber group, and emit `created`.
pub fn flow_create(ops: &mut OperationStore, item: String, group: &OperationSubscribers) -> (r: (
    String,
    EventMessage,
))
    requires
        old(ops).wf(),
        group.names_unique(),
    ensures
        final(ops).wf(),
        r.1 is Created,
        r.0@.len() == 36,
        final(ops).has_op(r.0@),
        forall|x: Seq<char>|
            x != r.0@ ==> #[trigger] final(ops).has_op(x) == old(ops).has_op(x),
        forall|x: Seq<char>|
            x != r.0@ && old(ops).has_op(x) ==> #[trigger] final(ops).ops_map()[x] == old(ops).ops_map()[x],
        final(ops).ops_map()[r.0@].wf(),
        final(ops).ops_map()[r.0@].id@ == r.0@,
        final(ops).ops_map()[r.0@].status is Pending,
        final(ops).ops_map()[r.0@].item@ == item@,
        final(ops).ops_map()[r.0@].message is None,
        final(ops).ops_map()[r.0@].must_names() == spec_must_names(group.subscribers@),
{
    let id = mint_id();
    let must = group.must_succeed_names();
    proof {
        lemma_must_names_unique(group.subscribers@);
    }
    ops.create(id.clone(), item, must);
    (id, EventMessage::Created)
}

/// Settle the asynchronous workflow after its event was dispatched to the
/// subscribers.
///
/// When every must-succeed subscriber acknowledged, the record advances to
/// InProgress and `notifications_ok` is emitted; no pool mutation has
/// happened yet. When one failed, the record takes the failure message,
/// advances to Failed — terminal — and `failed` is emitted; the pool is
/// never touched on this path.
pub fn flow_after_dispatch(ops: &mut OperationStore, id: &String, dispatch: Result<(), String>)
    -> (r: EventMessage)
    requires
        old(ops).wf(),
    ensures
        final(ops).wf(),
        forall|x: Seq<char>| #[trigger] final(ops).has_op(x) == old(ops).has_op(x),
        dispatch is Ok ==> r is NotificationsOk,
        dispatch matches Err(m) ==> (r matches EventMessage::Failed(reason) && reason == m),
        !old(ops).has_op(id@) ==> final(ops).ops_seq() == old(ops).ops_seq(),
        old(ops).has_op(id@) && old(ops).ops_map()[id@].status is Pending && dispatch is Ok
            ==> final(ops).ops_map() == old(ops).ops_map().insert(
            id@,
            with_status(old(ops).ops_map()[id@], OperationStatus::InProgress),
        ),
        dispatch matches Err(m) ==> (old(ops).has_op(id@) && old(ops).ops_map()[id@].status
            is Pending ==> final(ops).ops_map() == old(ops).ops_map().insert(
            id@,
            with_status(
                with_message(old(ops).ops_map()[id@], Some(m)),
                OperationStatus::Failed,
            ),
        )),
        old(ops).has_op(id@) && old(ops).ops_map()[id@].status.spec_is_terminal() ==> final(ops).ops_map()[id@].status == old(ops).ops_map()[id@].status,
{
    match dispatch {
        Ok(()) => {
            ops.set_status(id, OperationStatus::InProgress);
            EventMessage::NotificationsOk
        },
        Err(m) => {
            let reason = m.clone();
            ops.update_message(id, Some(m));
            ops.set_status(id, OperationStatus::Failed);
            EventMessage::Failed(reason)
        },
    }
}

/// Settle the asynchronous workflow after the store was asked to commit the
/// pool mutation.
///
/// On success the record advances to Succeeded — terminal — and `completed`
/// is emitted. On a store failure the record takes the store's report as its
/// message, advances to Failed, and `failed` is emitted; the item then stays
/// with the caller.
pub fn flow_after_store(ops: &mut OperationStore, id: &String, store: Result<(), String>) -> (r:
    EventMessage)
    requires
        old(ops).wf(),
    ensures
        final(ops).wf(),
        forall|x: Seq<char>| #[trigger] final(ops).has_op(x) == old(ops).has_op(x),
        store is Ok ==> r is Completed,
        store matches Err(m) ==> (r matches EventMessage::Failed(reason) && reason == m),
        !old(ops).has_op(id@) ==> final(ops).ops_seq() == old(ops).ops_seq(),
        old(ops).has_op(id@) && old(ops).ops_map()[id@].status is InProgress && store is Ok
            ==> final(ops).ops_map() == old(ops).ops_map().insert(
            id@,
            with_status(old(ops).ops_map()[id@], OperationStatus::Succeeded),
        ),
        store matches Err(m) ==> (old(ops).has_op(id@) && old(ops).ops_map()[id@].status
            is InProgress ==> final(ops).ops_map() == old(ops).ops_map().insert(
            id@,
            with_status(
                with_message(old(ops).ops_map()[id@], Some(m)),
                OperationStatus::Failed,
            ),
        )),
        old(ops).has_op(id@) && old(ops).ops_map()[id@].status.spec_is_terminal() ==> final(ops).ops_map()[id@].status == old(ops).ops_map()[id@].status,
{
    match store {
        Ok(()) => {
            ops.set_status(id, OperationStatus::Succeeded);
            EventMessage::Completed
        },
        Err(m) => {
            let reason = m.clone();
            ops.update_message(id, Some(m));
            ops.set_status(id, OperationStatus::Failed);
            EventMessage::Failed(reason)
        },
    }
}

/// What the waiting task observed on the availability channel.
pub enum WaitEvent {
    /// A notification arrived: items may be available.
    Notified,
    /// The remaining wait budget ran out.
    WaitTimeout,
    /// The wait itself failed; the payload is the report.
    WaitError(String),
}

/// What the blocking-borrow protocol does next after a borrow attempt.
pub enum BlockStep {
    /// The protocol is over with this outcome.
    Finish(Result<String, ErrorKind>),
    /// The pool was empty: wait for an availability notification.
    AwaitNotify,
}

/// What the blocking-borrow protocol does next after a wait.
pub enum WaitStep {
    /// A notification arrived: try to borrow again.
    Retry,
    /// The protocol is over with this error.
    FinishErr(ErrorKind),
}

/// Judge one borrow attempt within the blocking protocol: an item ends the
/// protocol with it; an empty pool subscribes and waits; any other failure
/// surfaces at once.
pub fn blocking_on_attempt(attempt: Result<String, ErrorKind>) -> (r: BlockStep)
    ensures
        attempt matches Ok(x) ==> (r matches BlockStep::Finish(out) && out matches Ok(y) && y
            == x),
        attempt matches Err(e) ==> (if e is Empty {
            r is AwaitNotify
        } else {
            r matches BlockStep::Finish(out) && out matches Err(e2) && e2 == e
        }),
{
    match attempt {
        Ok(x) => BlockStep::Finish(Ok(x)),
        Err(ErrorKind::Empty) => BlockStep::AwaitNotify,
        Err(e) => BlockStep::Finish(Err(e)),
    }
}

/// Judge the end of one wait: a notification — genuine or spurious — leads
/// to another borrow attempt; a timeout surfaces as an empty pool; a failed
/// wait surfaces the store's report.
pub fn blocking_on_wait(event: WaitEvent) -> (r: WaitStep)
    ensures
        event is Notified ==> r is Retry,
        event is WaitTimeout ==> (r matches WaitStep::FinishErr(e) && e is Empty),
        event matches WaitEvent::WaitError(m) ==> (r matches WaitStep::FinishErr(e) && e matches
            ErrorKind::StoreError(msg) && msg == m),
{
    match event {
        WaitEvent::Notified => WaitStep::Retry,
        WaitEvent::WaitTimeout => WaitStep::FinishErr(ErrorKind::Empty),
        WaitEvent::WaitError(m) => WaitStep::FinishErr(ErrorKind::StoreError(m)),
    }
}

/// The wait budget that is left of the wall-clock timeout, in milliseconds;
/// `None` once the budget is spent. The budget never grows: what is left
/// plus what has elapsed is exactly the timeout.
pub fn remaining_budget(elapsed_ms: u64, timeout_ms: u64) -> (r: Option<u64>)
    ensures
        r is None <==> elapsed_ms >= timeout_ms,
        r matches Some(rem) ==> rem == timeout_ms - elapsed_ms && rem > 0 && rem + elapsed_ms
            == timeout_ms,
{
    if elapsed_ms >= timeout_ms {
        None
    } else {
        Some(timeout_ms - elapsed_ms)
    }
}

} // verus!
