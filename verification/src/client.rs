//! The remote session facade.
//!
//! Every call to the service is a JSON POST to a fixed path under the API
//! base, carrying a `token_v2` session cookie and a user-agent header. The
//! request bodies are built and checked here; sending them is the caller's
//! concern. [`interpret_status`] classifies what came back: a non-2xx
//! status carries diagnostic text in the body and is a rejection, while a
//! 2xx body that later fails to parse is a malformed response.

use vstd::prelude::*;
use vstd::string::*;

use crate::error::ApiError;
use crate::types::{
    Cursor, GetSignedFileUrlsRequest, GetSignedFileUrlsRequestUrl, GetUploadFileUrlRequest,
    GetUploadFileUrlRequestRecord, LoadPageChunkRequest, OperationPointer, PageDataRequest,
    SaveTransactionRequest, Transaction,
};

verus! {

/// The fixed base of the service's JSON API.
pub const NOTION_API_BASE: &'static str = "https://www.notion.so/api/v3";

/// The user-agent sent when no override is configured: a realistic browser
/// string, since the service may reject unrecognized clients.
pub const DEFAULT_USER_AGENT: &'static str =
    "Mozilla/5.0 (Windows NT 10.0; Win64; x64) AppleWebKit/537.36 (KHTML, like Gecko) Chrome/116.0.0.0 Safari/537.36";

/// A session with the remote service: the long-lived auth token and an
/// optional user-agent override, fixed at construction.
#[derive(Debug, Clone, PartialEq, Eq)]
pub struct Notion {
    pub user_agent: Option<String>,
    pub token_v2: String,
}

impl Notion {
    pub fn new(token_v2: String, user_agent: Option<String>) -> (n: Notion)
        ensures
            n.token_v2 == token_v2,
            n.user_agent == user_agent,
    {
        Notion { user_agent, token_v2 }
    }

    /// The user-agent header value: the configured override, or the default
    /// browser string when none was given.
    pub fn user_agent(&self) -> (ua: &str)
        ensures
            ua@ == match self.user_agent {
                Some(ref u) => u@,
                None => DEFAULT_USER_AGENT@,
            },
    {
        match &self.user_agent {
            Some(u) => u.as_str(),
            None => DEFAULT_USER_AGENT,
        }
    }

    /// The session cookie header value carrying the long-lived auth token.
    pub fn session_cookie(&self) -> (c: String)
        ensures
            c@ == "token_v2="@ + self.token_v2@,
    {
        let mut c = "token_v2=".to_owned();
        c.append(self.token_v2.as_str());
        c
    }
}

/// The cookie header value for signed-URL downloads: the short-lived
/// file-access token, distinct from the session token.
pub fn file_cookie(file_token: &str) -> (c: String)
    ensures
        c@ == "file_token="@ + file_token@,
{
    let mut c = "file_token=".to_owned();
    c.append(file_token);
    c
}

/// Classifies a response by its status, the whole body having been read
/// first: a 2xx status hands the body on for parsing, any other status is a
/// rejection carrying the service's diagnostic text.
pub fn interpret_status(status: u16, body: String) -> (r: Result<String, ApiError>)
    ensures
        200 <= status < 300 ==> (r matches Ok(b) && b == body),
        !(200 <= status < 300) ==> (r matches Err(e) && e == (ApiError::RemoteRejected {
            status,
            body,
        })),
{
    if 200 <= status && status < 300 {
        Ok(body)
    } else {
        Err(ApiError::RemoteRejected { status, body })
    }
}

/// Body of the page-data lookup for `page_id`, which must already be in
/// dashed form.
pub fn page_data_request(page_id: &str) -> (r: PageDataRequest)
    ensures
        r.request_type@ == "block-space"@,
        r.block_id@ == page_id@,
        r.name@ == "page"@,
        r.save_parent == false,
        r.show_move_to == false,
{
    PageDataRequest {
        request_type: "block-space".to_owned(),
        block_id: page_id.to_owned(),
        name: "page".to_owned(),
        save_parent: false,
        show_move_to: false,
    }
}

/// Body of a page-content chunk fetch.
pub fn page_chunk_request(
    page_id: &str,
    chunk_number: usize,
    limit: usize,
    cursor: Option<Cursor>,
) -> (r: LoadPageChunkRequest)
    ensures
        r.page_id@ == page_id@,
        r.chunk_number == chunk_number,
        r.limit == limit,
        r.cursor == cursor,
        r.vertical_columns == false,
{
    LoadPageChunkRequest {
        page_id: page_id.to_owned(),
        chunk_number,
        limit,
        cursor,
        vertical_columns: false,
    }
}

/// Body of an upload-slot request: one slot for `name` of `content_length`
/// bytes and type `content_type`, tied to the block the file will hang off.
pub fn upload_file_url_request(
    name: &str,
    content_type: &str,
    content_length: usize,
    block_id: &str,
    space_id: &str,
) -> (r: GetUploadFileUrlRequest)
    ensures
        r.bucket@ == "secure"@,
        r.content_type@ == content_type@,
        r.name@ == name@,
        r.content_length == content_length,
        r.record.id@ == block_id@,
        r.record.space_id@ == space_id@,
        r.record.table@ == "block"@,
{
    GetUploadFileUrlRequest {
        bucket: "secure".to_owned(),
        content_type: content_type.to_owned(),
        name: name.to_owned(),
        content_length,
        record: GetUploadFileUrlRequestRecord {
            id: block_id.to_owned(),
            space_id: space_id.to_owned(),
            table: "block".to_owned(),
        },
    }
}

/// Body of a transaction submission: the transactions to apply atomically,
/// under the given fresh request id.
pub fn save_transaction_request(request_id: String, transactions: Vec<Transaction>) -> (r:
    SaveTransactionRequest)
    ensures
        r.request_id == request_id,
        r.transactions == transactions,
{
    SaveTransactionRequest { request_id, transactions }
}

/// Body of a signed-download-URL exchange: each element of `urls` is a
/// stored object URL together with the block whose permission check signs
/// it.
pub fn signed_file_urls_request(urls: Vec<(String, String, String)>) -> (r:
    GetSignedFileUrlsRequest)
    ensures
        r.urls@.len() == urls@.len(),
        forall|i: int|
            0 <= i < urls@.len() ==> {
                &&& (#[trigger] r.urls@[i]).url == urls@[i].0
                &&& r.urls@[i].use_s3_url == false
                &&& r.urls@[i].permission_record.table@ == "block"@
                &&& r.urls@[i].permission_record.id == urls@[i].1
                &&& r.urls@[i].permission_record.space_id == urls@[i].2
            },
{
    let mut out: Vec<GetSignedFileUrlsRequestUrl> = Vec::new();
    let mut i: usize = 0;
    while i < urls.len()
        invariant
            i <= urls@.len(),
            out@.len() == i,
            forall|j: int|
                0 <= j < i ==> {
                    &&& (#[trigger] out@[j]).url == urls@[j].0
                    &&& out@[j].use_s3_url == false
                    &&& out@[j].permission_record.table@ == "block"@
                    &&& out@[j].permission_record.id == urls@[j].1
                    &&& out@[j].permission_record.space_id == urls@[j].2
                },
        decreases urls@.len() - i,
    {
        let (url, block_id, space_id) = (
            urls[i].0.clone(),
            urls[i].1.clone(),
            urls[i].2.clone(),
        );
        out.push(
            GetSignedFileUrlsRequestUrl {
                permission_record: OperationPointer {
                    table: "block".to_owned(),
                    id: block_id,
                    space_id: space_id,
                },
                url: url,
                use_s3_url: false,
            },
        );
        i += 1;
    }
    GetSignedFileUrlsRequest { urls: out }
}

} // verus!
