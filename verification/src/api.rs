//! The broker's request and response shapes, and the pure part of each
//! endpoint: what it reads, what it changes, and what body it answers with.
//! The HTTP surface around them only routes, parses and serializes.

use vstd::prelude::*;
use vstd::string::*;

use crate::error::ErrorKind;
use crate::ops::{spec_failed_count, spec_open_count, Operation, OperationStore};
use crate::pool::PoolState;

verus! {

/// The caller identity carried in the X-Owner-Id header by the legacy
/// owner-based authorization; the token-based flow supersedes it.
pub struct OwnerId(pub String);

/// Body of a return request.
pub struct ReturnInput {
    pub item: String,
    pub borrow_token: String,
}

/// Body of a submit request.
pub struct SubmitInput {
    pub item: String,
}

/// Body of an admin item-delete request.
pub struct DeleteItemInput {
    pub item: String,
}

/// Body of an admin force-return request.
pub struct ForceReturnInput {
    pub item: String,
}

/// Legacy synchronous return response shape.
pub struct ReturnIPOutput {
    pub success: bool,
    pub message: String,
}

/// Response to a freshly accepted asynchronous workflow.
pub struct OperationRef {
    pub operation_id: String,
    pub status: String,
}

/// Response of the operation-status endpoint.
pub struct OperationStatusOutput {
    pub operation_id: String,
    pub status: String,
    pub message: Option<String>,
}

/// Admin listing of the pool.
pub struct ItemsList {
    pub items: Vec<String>,
    pub count: usize,
}

/// One ledger entry in the admin listing.
pub struct BorrowedItem {
    pub item: String,
    pub borrow_token: String,
}

/// Admin listing of the ledger.
pub struct BorrowedItemsList {
    pub borrowed: Vec<BorrowedItem>,
    pub count: usize,
}

/// Success envelope of the admin operations.
pub struct SuccessResponse {
    pub success: bool,
    pub message: String,
}

/// One operation in the admin listing.
pub struct OperationDetail {
    pub id: String,
    pub item: String,
    pub status: String,
    pub message: Option<String>,
}

/// Admin listing of the registry.
pub struct OperationsList {
    pub operations: Vec<OperationDetail>,
    pub count: usize,
}

/// Admin counters.
pub struct StatsResponse {
    pub free_count: usize,
    pub borrowed_count: usize,
    pub pending_operations: usize,
    pub failed_operations: usize,
}

fn clone_message(message: &Option<String>) -> (r: Option<String>)
    ensures
        r == *message,
{
    match message {
        Some(m) => Some(m.clone()),
        None => None,
    }
}

/// The body answered when an asynchronous workflow was accepted.
pub fn accepted_ref(operation_id: String) -> (r: OperationRef)
    ensures
        r.operation_id == operation_id,
        r.status@ == "accepted"@,
{
    OperationRef { operation_id, status: "accepted".to_owned() }
}

/// Answer the operation-status poll: the record's id, its status lowercased,
/// and its message; unknown ids answer NotFound (404).
pub fn get_operation_status(ops: &OperationStore, id: &String) -> (r: Result<
    OperationStatusOutput,
    ErrorKind,
>)
    requires
        ops.wf(),
    ensures
        r is Ok <==> ops.has_op(id@),
        r matches Ok(out) ==> out.operation_id == ops.ops_map()[id@].id && out.message
            == ops.ops_map()[id@].message && (ops.ops_map()[id@].status is Pending ==> out.status@
            == "pending"@) && (ops.ops_map()[id@].status is InProgress ==> out.status@
            == "inprogress"@) && (ops.ops_map()[id@].status is Succeeded ==> out.status@
            == "succeeded"@) && (ops.ops_map()[id@].status is Failed ==> out.status@
            == "failed"@),
        r matches Err(e) ==> e is NotFound,
{
    match ops.get(id) {
        Some(op) => Ok(
            OperationStatusOutput {
                operation_id: op.id.clone(),
                status: op.status.lowercase_name(),
                message: clone_message(&op.message),
            },
        ),
        None => Err(ErrorKind::NotFound),
    }
}

/// List the pool with its count.
pub fn list_items(pool: &PoolState) -> (r: ItemsList)
    ensures
        r.count == r.items@.len(),
        r.items@.len() == pool@.free.len(),
        forall|i: int| 0 <= i < r.items@.len() ==> r.items@[i]@ == pool@.free[i],
{
    let src = pool.list_all_items();
    let n = src.len();
    let mut items: Vec<String> = Vec::new();
    let mut i: usize = 0;
    while i < n
        invariant
            i <= n,
            n == src@.len(),
            src@.len() == pool@.free.len(),
            forall|j: int| 0 <= j < src@.len() ==> src@[j]@ == pool@.free[j],
            items@.len() == i,
            forall|j: int| 0 <= j < i ==> items@[j]@ == pool@.free[j],
        decreases n - i,
    {
        items.push(src[i].clone());
        i += 1;
    }
    let count = items.len();
    ItemsList { items, count }
}

/// List the ledger with its count.
pub fn list_borrowed(pool: &PoolState) -> (r: BorrowedItemsList)
    ensures
        r.count == r.borrowed@.len(),
        r.borrowed@.len() == pool@.ledger.len(),
        forall|i: int|
            0 <= i < r.borrowed@.len() ==> (#[trigger] r.borrowed@[i]).item@ == pool@.ledger[i].0
                && r.borrowed@[i].borrow_token@ == pool@.ledger[i].1,
{
    let src = pool.list_borrowed_items();
    let n = src.len();
    let mut borrowed: Vec<BorrowedItem> = Vec::new();
    let mut i: usize = 0;
    while i < n
        invariant
            i <= n,
            n == src@.len(),
            src@.len() == pool@.ledger.len(),
            forall|j: int|
                0 <= j < src@.len() ==> (#[trigger] src@[j]).item@ == pool@.ledger[j].0
                    && src@[j].borrow_token@ == pool@.ledger[j].1,
            borrowed@.len() == i,
            forall|j: int|
                0 <= j < i ==> (#[trigger] borrowed@[j]).item@ == pool@.ledger[j].0
                    && borrowed@[j].borrow_token@ == pool@.ledger[j].1,
        decreases n - i,
    {
        borrowed.push(
            BorrowedItem {
                item: src[i].item.clone(),
                borrow_token: src[i].borrow_token.clone(),
            },
        );
        i += 1;
    }
    let count = borrowed.len();
    BorrowedItemsList { borrowed, count }
}

/// Remove an item from the pool; unknown items answer NotFound (404) and
/// change nothing.
pub fn delete_item(pool: &mut PoolState, input: &DeleteItemInput) -> (r: Result<
    SuccessResponse,
    ErrorKind,
>)
    requires
        old(pool)@.wf(),
    ensures
        final(pool)@.wf(),
        final(pool)@.ledger == old(pool)@.ledger,
        final(pool)@.free_set() == old(pool)@.free_set().remove(input.item@),
        r is Ok <==> old(pool)@.free_set().contains(input.item@),
        r matches Ok(out) ==> out.success && out.message@ == "Item deleted successfully"@,
        r matches Err(e) ==> e is NotFound && final(pool)@ == old(pool)@,
        old(pool)@.disjoint_from_ledger() ==> final(pool)@.disjoint_from_ledger(),
{
    if pool.delete_item(&input.item) {
        Ok(SuccessResponse { success: true, message: "Item deleted successfully".to_owned() })
    } else {
        Err(ErrorKind::NotFound)
    }
}

/// Put an item back into the pool and clear its ledger entry, whatever state
/// either was in.
pub fn force_return(pool: &mut PoolState, input: &ForceReturnInput) -> (r: SuccessResponse)
    requires
        old(pool)@.wf(),
    ensures
        final(pool)@.wf(),
        final(pool)@.free_set() == old(pool)@.free_set().insert(input.item@),
        final(pool)@.ledger_map() == old(pool)@.ledger_map().remove(input.item@),
        r.success,
        r.message@ == "Item force-returned to freelist"@,
        old(pool)@.disjoint_from_ledger() ==> final(pool)@.disjoint_from_ledger(),
{
    pool.force_return(&input.item);
    SuccessResponse { success: true, message: "Item force-returned to freelist".to_owned() }
}

/// Drop a ledger entry without returning the item; unknown items answer
/// NotFound (404) and change nothing.
pub fn delete_borrowed_item(pool: &mut PoolState, input: &DeleteItemInput) -> (r: Result<
    SuccessResponse,
    ErrorKind,
>)
    requires
        old(pool)@.wf(),
    ensures
        final(pool)@.wf(),
        final(pool)@.free == old(pool)@.free,
        final(pool)@.ledger_map() == old(pool)@.ledger_map().remove(input.item@),
        r is Ok <==> old(pool)@.ledger_has(input.item@),
        r matches Ok(out) ==> out.success && out.message@ == "Borrowed item deleted successfully"@,
        r matches Err(e) ==> e is NotFound && final(pool)@ == old(pool)@,
        old(pool)@.disjoint_from_ledger() ==> final(pool)@.disjoint_from_ledger(),
{
    if pool.delete_borrowed_item(&input.item) {
        Ok(
            SuccessResponse {
                success: true,
                message: "Borrowed item deleted successfully".to_owned(),
            },
        )
    } else {
        Err(ErrorKind::NotFound)
    }
}

/// List every operation with its count.
pub fn list_operations(ops: &OperationStore) -> (r: OperationsList)
    requires
        ops.wf(),
    ensures
        r.count == r.operations@.len(),
        r.operations@.len() == ops.ops_seq().len(),
        forall|i: int|
            0 <= i < r.operations@.len() ==> (#[trigger] r.operations@[i]).id
                == ops.ops_seq()[i].1.id && r.operations@[i].item == ops.ops_seq()[i].1.item
                && r.operations@[i].message == ops.ops_seq()[i].1.message,
        forall|i: int|
            0 <= i < r.operations@.len() ==> (ops.ops_seq()[i].1.status is Pending
                ==> (#[trigger] r.operations@[i]).status@ == "Pending"@) && (
            ops.ops_seq()[i].1.status is InProgress ==> r.operations@[i].status@
                == "InProgress"@) && (ops.ops_seq()[i].1.status is Succeeded
                ==> r.operations@[i].status@ == "Succeeded"@) && (ops.ops_seq()[i].1.status
                is Failed ==> r.operations@[i].status@ == "Failed"@),
{
    let src = ops.get_all();
    let n = src.len();
    let mut operations: Vec<OperationDetail> = Vec::new();
    let mut i: usize = 0;
    while i < n
        invariant
            i <= n,
            n == src@.len(),
            src@.len() == ops.ops_seq().len(),
            forall|j: int| 0 <= j < src@.len() ==> ops.ops_seq()[j] == (src@[j].id@, src@[j]),
            operations@.len() == i,
            forall|j: int|
                0 <= j < i ==> (#[trigger] operations@[j]).id == src@[j].id && operations@[j].item
                    == src@[j].item && operations@[j].message == src@[j].message,
            forall|j: int|
                0 <= j < i ==> (src@[j].status is Pending ==> (#[trigger] operations@[j]).status@
                    == "Pending"@) && (src@[j].status is InProgress ==> operations@[j].status@
                    == "InProgress"@) && (src@[j].status is Succeeded ==> operations@[j].status@
                    == "Succeeded"@) && (src@[j].status is Failed ==> operations@[j].status@
                    == "Failed"@),
        decreases n - i,
    {
        let op: &Operation = &src[i];
        operations.push(
            OperationDetail {
                id: op.id.clone(),
                item: op.item.clone(),
                status: op.status.name(),
                message: clone_message(&op.message),
            },
        );
        i += 1;
    }
    let count = operations.len();
    OperationsList { operations, count }
}

/// Drop an operation record; unknown ids answer NotFound (404).
pub fn delete_operation(ops: &mut OperationStore, id: &String) -> (r: Result<
    SuccessResponse,
    ErrorKind,
>)
    requires
        old(ops).wf(),
    ensures
        final(ops).wf(),
        final(ops).ops_map() == old(ops).ops_map().remove(id@),
        !final(ops).has_op(id@),
        r is Ok <==> old(ops).has_op(id@),
        r matches Ok(out) ==> out.success && out.message@ == "Operation deleted"@,
        r matches Err(e) ==> e is NotFound && final(ops).ops_seq() == old(ops).ops_seq(),
{
    if ops.delete(id) {
        Ok(SuccessResponse { success: true, message: "Operation deleted".to_owned() })
    } else {
        Err(ErrorKind::NotFound)
    }
}

/// The admin counters: pool size, ledger size, open and failed operations.
pub fn get_stats(pool: &PoolState, ops: &OperationStore) -> (r: StatsResponse)
    ensures
        r.free_count == pool@.free.len(),
        r.borrowed_count == pool@.ledger.len(),
        r.pending_operations == spec_open_count(ops.ops_seq()),
        r.failed_operations == spec_failed_count(ops.ops_seq()),
{
    StatsResponse {
        free_count: pool.free_count(),
        borrowed_count: pool.borrowed_count(),
        pending_operations: ops.count_open(),
        failed_operations: ops.count_failed(),
    }
}

} // verus!
