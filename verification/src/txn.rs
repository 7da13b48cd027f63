//! The block-mutation transaction builders.
//!
//! Creating an attachment block takes two transactions: the first
//! initializes the block, parents it and appends it to the page's child
//! list; the second sets the block's display format. A third transaction,
//! submitted only after the file is durably stored, attaches the uploaded
//! object to the block. Each builder's contract pins the transaction it
//! emits, operation by operation, over the views in [`crate::types`].

use vstd::prelude::*;
use vstd::string::*;

use crate::size::{size_text, size_to_text};
use crate::types::{
    ArgV, ArgValue, Operation, OperationCommand, OperationPointer, OperationV, PointerV,
    Transaction, TransactionV,
};

verus! {

/// A pointer into the `block` table.
pub open spec fn block_pointer_v(id: Seq<char>, space_id: Seq<char>) -> PointerV {
    PointerV { table: "block"@, id: id, space_id: space_id }
}

/// The operations of the block-creation transaction: initialize the new
/// block as an embed, parent it under the page, and append it to the
/// page's `content` list, after `after` when an anchor is given. Without
/// an anchor the service appends at a position of its own choosing.
pub open spec fn create_block_ops_v(
    space_id: Seq<char>,
    page_id: Seq<char>,
    block_id: Seq<char>,
    after: Option<Seq<char>>,
) -> Seq<OperationV> {
    seq![
        OperationV {
            pointer: block_pointer_v(block_id, space_id),
            path: seq![],
            command: OperationCommand::SetRecord,
            args: seq![
                ("type"@, ArgV::Text("embed"@)),
                ("space_id"@, ArgV::Text(space_id)),
                ("id"@, ArgV::Text(block_id)),
                ("version"@, ArgV::Number(1)),
            ],
        },
        OperationV {
            pointer: block_pointer_v(block_id, space_id),
            path: seq![],
            command: OperationCommand::Update,
            args: seq![
                ("parent_id"@, ArgV::Text(page_id)),
                ("parent_table"@, ArgV::Text("block"@)),
                ("alive"@, ArgV::Bool(true)),
            ],
        },
        OperationV {
            pointer: block_pointer_v(page_id, space_id),
            path: seq!["content"@],
            command: OperationCommand::ListAfter,
            args: match after {
                Some(a) => seq![("id"@, ArgV::Text(block_id)), ("after"@, ArgV::Text(a))],
                None => seq![("id"@, ArgV::Text(block_id))],
            },
        },
    ]
}

/// The first transaction of block creation.
pub open spec fn create_block_txn_v(
    txn_id: Seq<char>,
    space_id: Seq<char>,
    page_id: Seq<char>,
    block_id: Seq<char>,
    after: Option<Seq<char>>,
) -> TransactionV {
    TransactionV {
        id: txn_id,
        space_id: space_id,
        operations: create_block_ops_v(space_id, page_id, block_id, after),
        debug: seq![],
    }
}

/// The second transaction of block creation: the fixed display-size
/// defaults of the block's `format` sub-object.
pub open spec fn format_block_txn_v(
    txn_id: Seq<char>,
    space_id: Seq<char>,
    block_id: Seq<char>,
) -> TransactionV {
    TransactionV {
        id: txn_id,
        space_id: space_id,
        operations: seq![
            OperationV {
                pointer: block_pointer_v(block_id, space_id),
                path: seq!["format"@],
                command: OperationCommand::Update,
                args: seq![
                    ("block_width"@, ArgV::Number(120)),
                    ("block_height"@, ArgV::Null),
                    ("block_preserve_scale"@, ArgV::Bool(true)),
                    ("block_full_width"@, ArgV::Bool(false)),
                    ("block_page_width"@, ArgV::Bool(false)),
                ],
            },
        ],
        debug: seq![],
    }
}

/// The attach transaction: publishes the stored object's URL, title and
/// rendered size into the block's `properties` sub-object.
pub open spec fn attach_file_txn_v(
    txn_id: Seq<char>,
    space_id: Seq<char>,
    block_id: Seq<char>,
    file_url: Seq<char>,
    file_name: Seq<char>,
    content_length: nat,
) -> TransactionV {
    TransactionV {
        id: txn_id,
        space_id: space_id,
        operations: seq![
            OperationV {
                pointer: block_pointer_v(block_id, space_id),
                path: seq!["properties"@],
                command: OperationCommand::Update,
                args: seq![
                    ("source"@, ArgV::Cell(file_url)),
                    ("title"@, ArgV::Cell(file_name)),
                    ("size"@, ArgV::Cell(size_text(content_length))),
                ],
            },
        ],
        debug: seq![],
    }
}

/// A pointer to `id` in the `block` table of `space_id`.
pub fn block_pointer(id: &str, space_id: &str) -> (p: OperationPointer)
    ensures
        p@ == block_pointer_v(id@, space_id@),
{
    OperationPointer { table: "block".to_owned(), id: id.to_owned(), space_id: space_id.to_owned() }
}

/// Builds the first transaction of block creation.
pub fn create_block_txn(
    txn_id: &str,
    space_id: &str,
    page_id: &str,
    block_id: &str,
    after: Option<&str>,
) -> (t: Transaction)
    ensures
        t@ == create_block_txn_v(
            txn_id@,
            space_id@,
            page_id@,
            block_id@,
            match after {
                Some(a) => Some(a@),
                None => None,
            },
        ),
{
    let ghost after_v: Option<Seq<char>> = match after {
        Some(a) => Some(a@),
        None => None,
    };
    let mut args1: Vec<(String, ArgValue)> = Vec::new();
    args1.push(("type".to_owned(), ArgValue::Text("embed".to_owned())));
    args1.push(("space_id".to_owned(), ArgValue::Text(space_id.to_owned())));
    args1.push(("id".to_owned(), ArgValue::Text(block_id.to_owned())));
    args1.push(("version".to_owned(), ArgValue::Number(1)));
    let op1 = Operation {
        pointer: block_pointer(block_id, space_id),
        path: Vec::new(),
        command: OperationCommand::SetRecord,
        args: args1,
    };
    let mut args2: Vec<(String, ArgValue)> = Vec::new();
    args2.push(("parent_id".to_owned(), ArgValue::Text(page_id.to_owned())));
    args2.push(("parent_table".to_owned(), ArgValue::Text("block".to_owned())));
    args2.push(("alive".to_owned(), ArgValue::Bool(true)));
    let op2 = Operation {
        pointer: block_pointer(block_id, space_id),
        path: Vec::new(),
        command: OperationCommand::Update,
        args: args2,
    };
    let mut path3: Vec<String> = Vec::new();
    path3.push("content".to_owned());
    let mut args3: Vec<(String, ArgValue)> = Vec::new();
    args3.push(("id".to_owned(), ArgValue::Text(block_id.to_owned())));
    if let Some(a) = after {
        args3.push(("after".to_owned(), ArgValue::Text(a.to_owned())));
    }
    let op3 = Operation {
        pointer: block_pointer(page_id, space_id),
        path: path3,
        command: OperationCommand::ListAfter,
        args: args3,
    };
    let mut operations: Vec<Operation> = Vec::new();
    operations.push(op1);
    operations.push(op2);
    operations.push(op3);
    let t = Transaction {
        id: txn_id.to_owned(),
        space_id: space_id.to_owned(),
        operations: operations,
        debug: Vec::new(),
    };
    proof {
        let expected = create_block_txn_v(txn_id@, space_id@, page_id@, block_id@, after_v);
        assert(t@.operations =~~= expected.operations);
        assert(t@.debug =~= expected.debug);
        assert(t@ =~~= expected);
    }
    t
}

/// Builds the second transaction of block creation.
pub fn format_block_txn(txn_id: &str, space_id: &str, block_id: &str) -> (t: Transaction)
    ensures
        t@ == format_block_txn_v(txn_id@, space_id@, block_id@),
{
    let mut path: Vec<String> = Vec::new();
    path.push("format".to_owned());
    let mut args: Vec<(String, ArgValue)> = Vec::new();
    args.push(("block_width".to_owned(), ArgValue::Number(120)));
    args.push(("block_height".to_owned(), ArgValue::Null));
    args.push(("block_preserve_scale".to_owned(), ArgValue::Bool(true)));
    args.push(("block_full_width".to_owned(), ArgValue::Bool(false)));
    args.push(("block_page_width".to_owned(), ArgValue::Bool(false)));
    let op = Operation {
        pointer: block_pointer(block_id, space_id),
        path: path,
        command: OperationCommand::Update,
        args: args,
    };
    let mut operations: Vec<Operation> = Vec::new();
    operations.push(op);
    let t = Transaction {
        id: txn_id.to_owned(),
        space_id: space_id.to_owned(),
        operations: operations,
        debug: Vec::new(),
    };
    proof {
        let expected = format_block_txn_v(txn_id@, space_id@, block_id@);
        assert(t@.operations =~~= expected.operations);
        assert(t@.debug =~= expected.debug);
        assert(t@ =~~= expected);
    }
    t
}

/// Builds the attach transaction, rendering the size with
/// [`crate::size::size_to_text`].
pub fn attach_file_txn(
    txn_id: &str,
    space_id: &str,
    block_id: &str,
    file_url: &str,
    file_name: &str,
    content_length: usize,
) -> (t: Transaction)
    ensures
        t@ == attach_file_txn_v(
            txn_id@,
            space_id@,
            block_id@,
            file_url@,
            file_name@,
            content_length as nat,
        ),
{
    let mut path: Vec<String> = Vec::new();
    path.push("properties".to_owned());
    let mut args: Vec<(String, ArgValue)> = Vec::new();
    args.push(("source".to_owned(), ArgValue::Cell(file_url.to_owned())));
    args.push(("title".to_owned(), ArgValue::Cell(file_name.to_owned())));
    args.push(("size".to_owned(), ArgValue::Cell(size_to_text(content_length))));
    let op = Operation {
        pointer: block_pointer(block_id, space_id),
        path: path,
        command: OperationCommand::Update,
        args: args,
    };
    let mut operations: Vec<Operation> = Vec::new();
    operations.push(op);
    let t = Transaction {
        id: txn_id.to_owned(),
        space_id: space_id.to_owned(),
        operations: operations,
        debug: Vec::new(),
    };
    proof {
        let expected = attach_file_txn_v(
            txn_id@,
            space_id@,
            block_id@,
            file_url@,
            file_name@,
            content_length as nat,
        );
        assert(t@.operations =~~= expected.operations);
        assert(t@.debug =~= expected.debug);
        assert(t@ =~~= expected);
    }
    t
}

/// The block-creation pair has the exact shape the protocol requires: the
/// first transaction holds exactly three operations, a `SetRecord`
/// initializing the new block, an `Update` parenting it under the page, and
/// a `ListAfter` appending it to the page's `content` list; the second holds
/// exactly one `Update` on the block's `format` sub-object.
pub proof fn lemma_create_block_shape(
    txn_id1: Seq<char>,
    txn_id2: Seq<char>,
    space_id: Seq<char>,
    page_id: Seq<char>,
    block_id: Seq<char>,
    after: Option<Seq<char>>,
)
    ensures
        ({
            let t1 = create_block_txn_v(txn_id1, space_id, page_id, block_id, after);
            &&& t1.operations.len() == 3
            &&& t1.operations[0].command == OperationCommand::SetRecord
            &&& t1.operations[0].pointer == block_pointer_v(block_id, space_id)
            &&& t1.operations[0].path == Seq::<Seq<char>>::empty()
            &&& t1.operations[1].command == OperationCommand::Update
            &&& t1.operations[1].pointer == block_pointer_v(block_id, space_id)
            &&& t1.operations[1].path == Seq::<Seq<char>>::empty()
            &&& t1.operations[2].command == OperationCommand::ListAfter
            &&& t1.operations[2].pointer == block_pointer_v(page_id, space_id)
            &&& t1.operations[2].path == seq!["content"@]
            &&& t1.operations[2].args[0] == ("id"@, ArgV::Text(block_id))
            &&& (after is None ==> t1.operations[2].args.len() == 1)
            &&& (after matches Some(a) ==> t1.operations[2].args.len() == 2
                && t1.operations[2].args[1] == ("after"@, ArgV::Text(a)))
        }),
        ({
            let t2 = format_block_txn_v(txn_id2, space_id, block_id);
            &&& t2.operations.len() == 1
            &&& t2.operations[0].command == OperationCommand::Update
            &&& t2.operations[0].pointer == block_pointer_v(block_id, space_id)
            &&& t2.operations[0].path == seq!["format"@]
        }),
{
    assert(create_block_txn_v(txn_id1, space_id, page_id, block_id, after).operations[0].path =~= Seq::<
        Seq<char>,
    >::empty());
    assert(create_block_txn_v(txn_id1, space_id, page_id, block_id, after).operations[1].path =~= Seq::<
        Seq<char>,
    >::empty());
}

/// The attach transaction holds exactly one `Update` on the block's
/// `properties` sub-object, and the `size` it publishes is the rendered
/// size of exactly `content_length` bytes.
pub proof fn lemma_attach_shape(
    txn_id: Seq<char>,
    space_id: Seq<char>,
    block_id: Seq<char>,
    file_url: Seq<char>,
    file_name: Seq<char>,
    content_length: nat,
)
    ensures
        ({
            let t = attach_file_txn_v(
                txn_id,
                space_id,
                block_id,
                file_url,
                file_name,
                content_length,
            );
            &&& t.operations.len() == 1
            &&& t.operations[0].command == OperationCommand::Update
            &&& t.operations[0].pointer == block_pointer_v(block_id, space_id)
            &&& t.operations[0].path == seq!["properties"@]
            &&& t.operations[0].args == seq![
                ("source"@, ArgV::Cell(file_url)),
                ("title"@, ArgV::Cell(file_name)),
                ("size"@, ArgV::Cell(size_text(content_length))),
            ]
        }),
{
}

/// Every pointer of every operation the three builders emit is scoped to
/// the same space as the transaction itself: the session-wide invariant
/// that a block pointer's space never differs from the page identity's.
pub proof fn lemma_builders_space_consistent(
    txn_id: Seq<char>,
    space_id: Seq<char>,
    page_id: Seq<char>,
    block_id: Seq<char>,
    after: Option<Seq<char>>,
    file_url: Seq<char>,
    file_name: Seq<char>,
    content_length: nat,
)
    ensures
        ({
            let t = create_block_txn_v(txn_id, space_id, page_id, block_id, after);
            &&& t.space_id == space_id
            &&& forall|i: int|
                0 <= i < t.operations.len() ==> #[trigger] t.operations[i].pointer.space_id
                    == space_id
        }),
        ({
            let t = format_block_txn_v(txn_id, space_id, block_id);
            &&& t.space_id == space_id
            &&& forall|i: int|
                0 <= i < t.operations.len() ==> #[trigger] t.operations[i].pointer.space_id
                    == space_id
        }),
        ({
            let t = attach_file_txn_v(txn_id, space_id, block_id, file_url, file_name, content_length);
            &&& t.space_id == space_id
            &&& forall|i: int|
                0 <= i < t.operations.len() ==> #[trigger] t.operations[i].pointer.space_id
                    == space_id
        }),
{
}

} // verus!
