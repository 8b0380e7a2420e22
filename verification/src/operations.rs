//! Looking up a guest's operations by namespace and name.
use vstd::prelude::*;

use wasmrs::OperationList;

verus! {

/// `wasmrs::OperationList`: the imports and exports a guest reported.
#[verifier::external_type_specification]
#[verifier::external_body]
pub struct ExOperationList(wasmrs::OperationList);

/// An operation as the list holds it: namespace, operation name, index.
pub type OpRecord = (Seq<char>, Seq<char>, u32);

/// The exported operations of a list, in the order they were added.
pub uninterp spec fn op_list_exports(list: OperationList) -> Seq<OpRecord>;

/// The imported operations of a list, in the order they were added.
pub uninterp spec fn op_list_imports(list: OperationList) -> Seq<OpRecord>;

/// The index of the first operation in `ops` with this namespace and name.
pub open spec fn find_op(ops: Seq<OpRecord>, namespace: Seq<char>, operation: Seq<char>) -> Option<
    u32,
>
    decreases ops.len(),
{
    if ops.len() == 0 {
        None
    } else if ops[0].0 == namespace && ops[0].1 == operation {
        Some(ops[0].2)
    } else {
        find_op(ops.drop_first(), namespace, operation)
    }
}

/// `OperationList::get_export`: walks the exports in order and
/// returns the index of the first whose namespace and operation equal the
/// arguments.
#[verifier::external_body]
fn list_get_export(list: &OperationList, namespace: &str, operation: &str) -> (res: Option<u32>)
    ensures
        res == find_op(op_list_exports(*list), namespace@, operation@),
{
    list.get_export(namespace, operation)
}

/// `OperationList::get_import`: as `get_export`, over the imports.
#[verifier::external_body]
fn list_get_import(list: &OperationList, namespace: &str, operation: &str) -> (res: Option<u32>)
    ensures
        res == find_op(op_list_imports(*list), namespace@, operation@),
{
    list.get_import(namespace, operation)
}

/// `OperationList::clone` (derived): clones both vectors of operations, so
/// the copy holds the same operations in the same order.
#[verifier::external_body]
fn list_clone(list: &OperationList) -> (res: OperationList)
    ensures
        op_list_exports(res) == op_list_exports(*list),
        op_list_imports(res) == op_list_imports(*list),
{
    list.clone()
}

/// A lookup that found nothing.
#[derive(Debug)]
pub enum OpListError {
    /// No operation with this namespace and name is listed.
    OpMissing { namespace: String, operation: String },
}

/// The outcome of looking up `namespace`/`operation` among `ops`.
pub open spec fn lookup_matches(
    res: Result<u32, OpListError>,
    ops: Seq<OpRecord>,
    namespace: Seq<char>,
    operation: Seq<char>,
) -> bool {
    match find_op(ops, namespace, operation) {
        Some(index) => res matches Ok(i) && i == index,
        None => res matches Err(OpListError::OpMissing { namespace: ns, operation: op }) && ns@
            == namespace && op@ == operation,
    }
}

fn missing(namespace: &str, operation: &str) -> (res: OpListError)
    ensures
        res matches OpListError::OpMissing { namespace: ns, operation: op } && ns@ == namespace@
            && op@ == operation@,
{
    OpListError::OpMissing { namespace: namespace.to_owned(), operation: operation.to_owned() }
}

/// The index of the guest's exported operation `namespace`/`operation`.
pub fn get_export(list: &OperationList, namespace: &str, operation: &str) -> (res: Result<
    u32,
    OpListError,
>)
    ensures
        lookup_matches(res, op_list_exports(*list), namespace@, operation@),
{
    match list_get_export(list, namespace, operation) {
        Some(index) => Ok(index),
        None => Err(missing(namespace, operation)),
    }
}

/// The index of the guest's imported operation `namespace`/`operation`.
pub fn get_import(list: &OperationList, namespace: &str, operation: &str) -> (res: Result<
    u32,
    OpListError,
>)
    ensures
        lookup_matches(res, op_list_imports(*list), namespace@, operation@),
{
    match list_get_import(list, namespace, operation) {
        Some(index) => Ok(index),
        None => Err(missing(namespace, operation)),
    }
}

/// A copy of the guest's operation list.
pub fn get_operation_list(list: &OperationList) -> (res: OperationList)
    ensures
        op_list_exports(res) == op_list_exports(*list),
        op_list_imports(res) == op_list_imports(*list),
{
    list_clone(list)
}

/// A lookup finds an operation exactly when one with that namespace and name
/// is listed, and then gives the index of the first such operation.
pub proof fn law_lookup_finds_first(ops: Seq<OpRecord>, namespace: Seq<char>, operation: Seq<char>)
    ensures
        find_op(ops, namespace, operation) is Some <==> exists|k: int|
            0 <= k < ops.len() && (#[trigger] ops[k]).0 == namespace && ops[k].1 == operation,
        find_op(ops, namespace, operation) matches Some(index) ==> exists|k: int|
            0 <= k < ops.len() && (#[trigger] ops[k]) == (namespace, operation, index) && forall|j: int|
                0 <= j < k ==> !(ops[j].0 == namespace && ops[j].1 == operation),
    decreases ops.len(),
{
    if ops.len() > 0 {
        law_lookup_finds_first(ops.drop_first(), namespace, operation);
        if !(ops[0].0 == namespace && ops[0].1 == operation) {
            let rest = ops.drop_first();
            if exists|k: int| 0 <= k < ops.len() && (#[trigger] ops[k]).0 == namespace && ops[k].1 == operation {
                let k = choose|k: int| 0 <= k < ops.len() && (#[trigger] ops[k]).0 == namespace && ops[k].1 == operation;
                assert(rest[k - 1] == ops[k]);
            }
            if let Some(index) = find_op(ops, namespace, operation) {
                let k = choose|k: int|
                    0 <= k < rest.len() && (#[trigger] rest[k]) == (namespace, operation, index) && forall|j: int|
                        0 <= j < k ==> !(rest[j].0 == namespace && rest[j].1 == operation);
                assert(ops[k + 1] == rest[k]);
                assert forall|j: int| 0 <= j < k + 1 implies !(ops[j].0 == namespace && ops[j].1 == operation) by {
                    if j > 0 {
                        assert(ops[j] == rest[j - 1]);
                    }
                }
            }
        } else {
            assert(ops[0] == (namespace, operation, ops[0].2));
        }
    }
}

/// A copy of the operation list answers every lookup as the original does.
pub proof fn law_copy_answers_alike(list: OperationList, copy: OperationList, namespace: Seq<char>, operation: Seq<char>)
    requires
        op_list_exports(copy) == op_list_exports(list),
        op_list_imports(copy) == op_list_imports(list),
    ensures
        find_op(op_list_exports(copy), namespace, operation) == find_op(op_list_exports(list), namespace, operation),
        find_op(op_list_imports(copy), namespace, operation) == find_op(op_list_imports(list), namespace, operation),
{
}


/// A lookup of a listed operation gives its index, whatever the index, and a
/// lookup of an operation that is not listed gives the missing-operation error
/// naming it.
pub proof fn law_lookup_result(
    res: Result<u32, OpListError>,
    ops: Seq<OpRecord>,
    namespace: Seq<char>,
    operation: Seq<char>,
)
    requires
        lookup_matches(res, ops, namespace, operation),
    ensures
        forall|i: u32| find_op(ops, namespace, operation) == Some(i) ==> (res matches Ok(j) && j == i),
        find_op(ops, namespace, operation) is None ==> (res matches Err(
            OpListError::OpMissing { namespace: ns, operation: op },
        ) && ns@ == namespace && op@ == operation),
{
}

/// An operation listed first among the imports (or the exports) is found, with
/// its own index.
pub proof fn law_first_listed_found(
    res: Result<u32, OpListError>,
    ops: Seq<OpRecord>,
    namespace: Seq<char>,
    operation: Seq<char>,
    index: u32,
)
    requires
        ops.len() > 0,
        ops[0] == (namespace, operation, index),
        lookup_matches(res, ops, namespace, operation),
    ensures
        res matches Ok(j) && j == index,
{
}

} // verus!
