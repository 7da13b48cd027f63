//! The typed shapes of the remote service's JSON protocol.
//!
//! Requests and responses travel as lowerCamelCase JSON; here each carries
//! only the plain values the logic reads and writes. The mutation types
//! (`OperationPointer`, `Operation`, `Transaction`) also have mathematical
//! views (`PointerV`, `OperationV`, `TransactionV`) that the transaction
//! builders' contracts are stated over.

use vstd::prelude::*;

verus! {

// ---------------------------------------------------------------------------
// Mutation protocol
// ---------------------------------------------------------------------------
/// Identifies the target of one mutation: the `(table, id, spaceId)` triple.
#[derive(Debug, Clone, PartialEq, Eq)]
pub struct OperationPointer {
    pub table: String,
    pub id: String,
    pub space_id: String,
}

/// One pointer-scoped mutation command.
///
/// `SetRecord` replaces the addressed object, `Update` merges into it, and
/// `ListAfter` appends an id to the ordered child list at the addressed
/// path, optionally after an existing id given in the arguments.
#[derive(Debug, Clone, Copy, PartialEq, Eq)]
pub enum OperationCommand {
    SetRecord,
    Update,
    ListAfter,
}

/// A JSON argument value of an operation: the subset of JSON the mutation
/// protocol actually sends. `Cell(s)` stands for the singleton-of-singleton
/// array `[[s]]` in which the service wraps property text.
#[derive(Debug, Clone, PartialEq, Eq)]
#[verifier::ext_equal]
pub enum ArgValue {
    Null,
    Bool(bool),
    Number(u64),
    Text(String),
    Cell(String),
}

/// One pointer-scoped mutation within a transaction. `path` addresses a
/// nested sub-object of the target record (empty means the record root);
/// `args` is an ordered mapping of field name to argument value.
#[derive(Debug, Clone, PartialEq, Eq)]
pub struct Operation {
    pub pointer: OperationPointer,
    pub path: Vec<String>,
    pub command: OperationCommand,
    pub args: Vec<(String, ArgValue)>,
}

/// The atomic unit accepted by the remote service: an ordered sequence of
/// operations submitted together. A failed submission must be retried as a
/// whole, with a fresh transaction id.
#[derive(Debug, Clone, PartialEq, Eq)]
pub struct Transaction {
    pub id: String,
    pub space_id: String,
    pub operations: Vec<Operation>,
    pub debug: Vec<(String, String)>,
}

// ---------------------------------------------------------------------------
// Views of the mutation types
// ---------------------------------------------------------------------------
#[verifier::ext_equal]
pub struct PointerV {
    pub table: Seq<char>,
    pub id: Seq<char>,
    pub space_id: Seq<char>,
}

#[verifier::ext_equal]
pub enum ArgV {
    Null,
    Bool(bool),
    Number(u64),
    Text(Seq<char>),
    Cell(Seq<char>),
}

#[verifier::ext_equal]
pub struct OperationV {
    pub pointer: PointerV,
    pub path: Seq<Seq<char>>,
    pub command: OperationCommand,
    pub args: Seq<(Seq<char>, ArgV)>,
}

#[verifier::ext_equal]
pub struct TransactionV {
    pub id: Seq<char>,
    pub space_id: Seq<char>,
    pub operations: Seq<OperationV>,
    pub debug: Seq<(Seq<char>, Seq<char>)>,
}

impl View for OperationPointer {
    type V = PointerV;

    open spec fn view(&self) -> PointerV {
        PointerV { table: self.table@, id: self.id@, space_id: self.space_id@ }
    }
}

impl DeepView for OperationPointer {
    type V = PointerV;

    open spec fn deep_view(&self) -> PointerV {
        self.view()
    }
}

impl View for ArgValue {
    type V = ArgV;

    open spec fn view(&self) -> ArgV {
        match self {
            ArgValue::Null => ArgV::Null,
            ArgValue::Bool(b) => ArgV::Bool(*b),
            ArgValue::Number(n) => ArgV::Number(*n),
            ArgValue::Text(s) => ArgV::Text(s@),
            ArgValue::Cell(s) => ArgV::Cell(s@),
        }
    }
}

impl DeepView for ArgValue {
    type V = ArgV;

    open spec fn deep_view(&self) -> ArgV {
        self.view()
    }
}

impl View for Operation {
    type V = OperationV;

    open spec fn view(&self) -> OperationV {
        OperationV {
            pointer: self.pointer@,
            path: self.path.deep_view(),
            command: self.command,
            args: self.args.deep_view(),
        }
    }
}

impl DeepView for Operation {
    type V = OperationV;

    open spec fn deep_view(&self) -> OperationV {
        self.view()
    }
}

impl View for Transaction {
    type V = TransactionV;

    open spec fn view(&self) -> TransactionV {
        TransactionV {
            id: self.id@,
            space_id: self.space_id@,
            operations: self.operations.deep_view(),
            debug: self.debug.deep_view(),
        }
    }
}

impl DeepView for Transaction {
    type V = TransactionV;

    open spec fn deep_view(&self) -> TransactionV {
        self.view()
    }
}

// ---------------------------------------------------------------------------
// Page lookup
// ---------------------------------------------------------------------------
/// Body of the page-data lookup. `request_type` travels as the JSON key
/// `type` and is always `"block-space"`.
#[derive(Debug, Clone, PartialEq, Eq)]
pub struct PageDataRequest {
    pub request_type: String,
    pub block_id: String,
    pub name: String,
    pub save_parent: bool,
    pub show_move_to: bool,
}

/// What the page-data lookup returns. The owner field is sometimes omitted
/// by the service; it stays an option so that callers can tell "missing"
/// from "empty".
#[derive(Debug, Clone, PartialEq, Eq)]
pub struct PageDataResponse {
    pub beta_enabled: bool,
    pub can_join_space: bool,
    pub owner_user_id: Option<String>,
    pub page_id: String,
    pub public_access_role: String,
    pub require_login: bool,
    pub space_domain: String,
    pub space_id: String,
    pub space_name: String,
    pub user_has_explicit_access: bool,
}

/// The identity of the target page, fixed once per session: every later
/// mutation must carry this `space_id`, and every pointer is scoped to it.
#[derive(Debug, Clone, PartialEq, Eq)]
pub struct PageIdentity {
    pub owner_user_id: Option<String>,
    pub page_id: String,
    pub space_id: String,
}

/// The identity a page-data response asserts.
pub fn page_identity(r: &PageDataResponse) -> (identity: PageIdentity)
    ensures
        identity.owner_user_id == r.owner_user_id,
        identity.page_id == r.page_id,
        identity.space_id == r.space_id,
{
    PageIdentity {
        owner_user_id: r.owner_user_id.clone(),
        page_id: r.page_id.clone(),
        space_id: r.space_id.clone(),
    }
}

// ---------------------------------------------------------------------------
// Page chunk loading
// ---------------------------------------------------------------------------
#[derive(Debug, Clone, PartialEq, Eq)]
pub struct Stack {
    pub id: String,
    pub index: usize,
    pub table: String,
}

#[derive(Debug, Clone, PartialEq, Eq)]
pub struct Cursor {
    pub stack: Vec<Vec<Stack>>,
}

/// The fields of a block record that the download path reads.
#[derive(Debug, Clone, PartialEq, Eq)]
pub struct BlockValue {
    pub alive: bool,
    pub id: String,
}

#[derive(Debug, Clone, PartialEq, Eq)]
pub struct Block {
    pub role: String,
    pub value: BlockValue,
}

/// The page's child-block records, keyed by block id. The service sends an
/// unordered JSON object; the entries are kept in arrival order.
#[derive(Debug, Clone, PartialEq, Eq)]
pub struct RecordMap {
    pub blocks: Vec<(String, Block)>,
}

#[derive(Debug, Clone, PartialEq, Eq)]
pub struct LoadPageChunkRequest {
    pub page_id: String,
    pub chunk_number: usize,
    pub limit: usize,
    pub cursor: Option<Cursor>,
    pub vertical_columns: bool,
}

#[derive(Debug, Clone, PartialEq, Eq)]
pub struct LoadPageChunkResponse {
    pub cursor: Cursor,
    pub record_map: RecordMap,
}

// ---------------------------------------------------------------------------
// Signed-URL issuance
// ---------------------------------------------------------------------------
#[derive(Debug, Clone, PartialEq, Eq)]
pub struct GetUploadFileUrlRequestRecord {
    pub id: String,
    pub space_id: String,
    pub table: String,
}

#[derive(Debug, Clone, PartialEq, Eq)]
pub struct GetUploadFileUrlRequest {
    pub bucket: String,
    pub content_type: String,
    pub name: String,
    pub content_length: usize,
    pub record: GetUploadFileUrlRequestRecord,
}

/// An upload slot: single-use, the write URL must receive exactly one PUT
/// with matching content length and content type.
#[derive(Debug, Clone, PartialEq, Eq)]
pub struct GetUploadFileUrlResponse {
    pub url: String,
    pub signed_get_url: String,
    pub signed_put_url: String,
}

#[derive(Debug, Clone, PartialEq, Eq)]
pub struct SaveTransactionRequest {
    pub request_id: String,
    pub transactions: Vec<Transaction>,
}

/// One stored object reference to exchange for a signed GET URL; the
/// permission check is tied to the block the object hangs off.
#[derive(Debug, Clone, PartialEq, Eq)]
pub struct GetSignedFileUrlsRequestUrl {
    pub permission_record: OperationPointer,
    pub url: String,
    pub use_s3_url: bool,
}

#[derive(Debug, Clone, PartialEq, Eq)]
pub struct GetSignedFileUrlsRequest {
    pub urls: Vec<GetSignedFileUrlsRequestUrl>,
}

#[derive(Debug, Clone, PartialEq, Eq)]
pub struct GetSignedFileUrlsResponse {
    pub signed_urls: Vec<String>,
}

} // verus!
