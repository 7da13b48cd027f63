//! The download workflow: resolve a stored object reference into a freshly
//! signed GET URL, fetch it with the short-lived file-access cookie, and
//! save the bytes locally.
//!
//! As with the upload side, the I/O is the driver's; [`GetMachine::step`]
//! only decides. When no explicit output name is given, the destination
//! file name is derived from the last path segment of the URL the fetch
//! ended at — which may differ from the originally attached file name.

use vstd::prelude::*;
use vstd::string::*;

use crate::client::{file_cookie, signed_file_urls_request};
use crate::error::ApiError;
use crate::types::GetSignedFileUrlsRequest;

verus! {

/// The URL up to but not including its first `?` or `#`.
pub open spec fn cut_at_query(s: Seq<char>) -> Seq<char>
    decreases s.len(),
{
    if s.len() == 0 {
        s
    } else if s[0] == '?' || s[0] == '#' {
        Seq::empty()
    } else {
        seq![s[0]] + cut_at_query(s.drop_first())
    }
}

/// What follows the last `/` of `s` (all of `s` when it has no `/`).
pub open spec fn after_last_slash(s: Seq<char>) -> Seq<char>
    decreases s.len(),
{
    if s.len() == 0 {
        s
    } else if s.last() == '/' {
        Seq::empty()
    } else {
        after_last_slash(s.drop_last()).push(s.last())
    }
}

/// The last path segment of a URL: what stands between the last `/` and
/// the query or fragment part.
pub open spec fn last_path_segment(s: Seq<char>) -> Seq<char> {
    after_last_slash(cut_at_query(s))
}

proof fn lemma_cut_at_query_take(s: Seq<char>, end: int)
    requires
        0 <= end <= s.len(),
        forall|j: int| 0 <= j < end ==> #[trigger] s[j] != '?' && s[j] != '#',
        end < s.len() ==> (s[end] == '?' || s[end] == '#'),
    ensures
        cut_at_query(s) == s.take(end),
    decreases s.len(),
{
    if s.len() == 0 {
        assert(cut_at_query(s) =~= s.take(end));
    } else if end == 0 {
        assert(s.take(0) =~= Seq::<char>::empty());
    } else {
        let rest = s.drop_first();
        assert(s[0] != '?' && s[0] != '#');
        assert(forall|j: int| 0 <= j < end - 1 ==> #[trigger] rest[j] != '?' && rest[j] != '#')
            by {
            assert(forall|j: int| 0 <= j < end - 1 ==> rest[j] == s[j + 1]);
        }
        lemma_cut_at_query_take(rest, end - 1);
        assert(seq![s[0]] + rest.take(end - 1) =~= s.take(end));
    }
}

proof fn lemma_after_last_slash_skip(s: Seq<char>, start: int)
    requires
        0 <= start <= s.len(),
        forall|j: int| start <= j < s.len() ==> #[trigger] s[j] != '/',
        start > 0 ==> s[start - 1] == '/',
    ensures
        after_last_slash(s) == s.skip(start),
    decreases s.len(),
{
    if s.len() == 0 {
        assert(after_last_slash(s) =~= s.skip(start));
    } else if s.last() == '/' {
        assert(start == s.len());
        assert(after_last_slash(s) =~= s.skip(start));
    } else {
        assert(start < s.len());
        let shorter = s.drop_last();
        assert(forall|j: int| start <= j < shorter.len() ==> #[trigger] shorter[j] != '/') by {
            assert(forall|j: int| 0 <= j < shorter.len() ==> shorter[j] == s[j]);
        }
        lemma_after_last_slash_skip(shorter, start);
        assert(shorter.skip(start).push(s.last()) =~= s.skip(start));
    }
}

/// The destination name the download derives from a fetched URL.
pub fn last_path_segment_of(url: &str) -> (r: String)
    ensures
        r@ == last_path_segment(url@),
{
    let n = url.unicode_len();
    let mut end: usize = 0;
    while end < n
        invariant
            n == url@.len(),
            end <= n,
            forall|j: int| 0 <= j < end ==> #[trigger] url@[j] != '?' && url@[j] != '#',
        ensures
            end <= n,
            n == url@.len(),
            forall|j: int| 0 <= j < end ==> #[trigger] url@[j] != '?' && url@[j] != '#',
            end < n ==> (url@[end as int] == '?' || url@[end as int] == '#'),
        decreases n - end,
    {
        let c = url.get_char(end);
        if c == '?' || c == '#' {
            break ;
        }
        end += 1;
    }
    let mut start: usize = end;
    while start > 0
        invariant
            start <= end <= n,
            n == url@.len(),
            forall|j: int| start <= j < end ==> #[trigger] url@[j] != '/',
        ensures
            start <= end,
            forall|j: int| start <= j < end ==> #[trigger] url@[j] != '/',
            start > 0 ==> url@[start - 1] == '/',
        decreases start,
    {
        let c = url.get_char(start - 1);
        if c == '/' {
            break ;
        }
        start -= 1;
    }
    let r = url.substring_char(start, end).to_owned();
    proof {
        lemma_cut_at_query_take(url@, end as int);
        let cut = url@.take(end as int);
        assert(forall|j: int| start <= j < cut.len() ==> #[trigger] cut[j] != '/') by {
            assert(forall|j: int| 0 <= j < end ==> cut[j] == url@[j]);
        }
        assert(start > 0 ==> cut[start - 1] == '/');
        lemma_after_last_slash_skip(cut, start as int);
        assert(cut.skip(start as int) =~= url@.subrange(start as int, end as int));
    }
    r
}

/// The download workflow stage.
#[derive(Debug, Clone, Copy, PartialEq, Eq)]
pub enum GetStage {
    RequestingUrls,
    Fetching,
    Saving,
    Complete,
    Failed,
}

/// The outcome of the action the machine last asked for.
#[derive(Debug, Clone, PartialEq, Eq)]
pub enum GetEvent {
    /// The signed-URL exchange returned these time-limited GET URLs.
    Urls { signed_urls: Vec<String> },
    /// The GET completed with a success status; `final_url` is the URL the
    /// response ended at, after any redirect.
    Fetched { final_url: String },
    /// The fetched bytes were written to the destination.
    Saved,
    /// The action failed; the workflow halts.
    StepFailed { error: ApiError },
}

/// The next piece of outside work the driver must perform.
#[derive(Debug, Clone, PartialEq, Eq)]
pub enum GetAction {
    /// POST the signed-URL exchange.
    RequestUrls { request: GetSignedFileUrlsRequest },
    /// GET `url` with the `Cookie` header value `cookie`.
    Fetch { url: String, cookie: String },
    /// Write the fetched bytes to a file called `file_name`.
    Save { file_name: String },
    /// The workflow finished.
    Done,
    /// The workflow halted.
    Fail { error: ApiError },
}

/// The download workflow for one stored reference.
pub struct GetMachine {
    pub stage: GetStage,
    /// The stored object URL being resolved.
    pub file_url: String,
    /// The block whose permission check signs the URL.
    pub block_id: String,
    pub space_id: String,
    /// The short-lived file-access token, distinct from the session token.
    pub file_token: String,
    /// When present, the destination name to use instead of deriving one
    /// from the fetched URL.
    pub output_name: Option<String>,
    /// The signed URLs the exchange returned.
    pub urls: Vec<String>,
    /// How many of `urls` have been dispatched for fetching.
    pub pos: usize,
}

impl GetMachine {
    pub open spec fn wf(self) -> bool {
        &&& self.pos <= self.urls@.len()
        &&& (self.stage is Fetching || self.stage is Saving) ==> self.pos >= 1
    }

    pub open spec fn accepts(self, event: GetEvent) -> bool {
        match event {
            GetEvent::Urls { .. } => self.stage is RequestingUrls,
            GetEvent::Fetched { .. } => self.stage is Fetching,
            GetEvent::Saved => self.stage is Saving,
            GetEvent::StepFailed { .. } => !(self.stage is Complete) && !(self.stage is Failed),
        }
    }

    /// Starts the workflow: the first action exchanges the stored
    /// reference for a signed GET URL.
    pub fn start(
        file_url: String,
        block_id: String,
        space_id: String,
        file_token: String,
        output_name: Option<String>,
    ) -> (r: (GetMachine, GetAction))
        ensures
            r.0.wf(),
            r.0.stage is RequestingUrls,
            r.0.file_url == file_url,
            r.0.block_id == block_id,
            r.0.space_id == space_id,
            r.0.file_token == file_token,
            r.0.output_name == output_name,
            r.1 matches GetAction::RequestUrls { request } && request.urls@.len() == 1
                && request.urls@[0].url@ == file_url@ && request.urls@[0].use_s3_url == false
                && request.urls@[0].permission_record.table@ == "block"@
                && request.urls@[0].permission_record.id@ == block_id@
                && request.urls@[0].permission_record.space_id@ == space_id@,
    {
        let mut triples: Vec<(String, String, String)> = Vec::new();
        triples.push((file_url.clone(), block_id.clone(), space_id.clone()));
        let request = signed_file_urls_request(triples);
        let m = GetMachine {
            stage: GetStage::RequestingUrls,
            file_url,
            block_id,
            space_id,
            file_token,
            output_name,
            urls: Vec::new(),
            pos: 0,
        };
        (m, GetAction::RequestUrls { request })
    }

    /// Consumes the outcome of the pending action and decides the next one.
    pub fn step(&mut self, event: GetEvent) -> (action: GetAction)
        requires
            old(self).wf(),
            old(self).accepts(event),
        ensures
            final(self).wf(),
            final(self).file_url == old(self).file_url,
            final(self).block_id == old(self).block_id,
            final(self).space_id == old(self).space_id,
            final(self).file_token == old(self).file_token,
            final(self).output_name == old(self).output_name,
            // The signed URLs arrived: fetch the first, or finish when the
            // service returned none.
            event matches GetEvent::Urls { signed_urls } ==> ({
                &&& final(self).urls == signed_urls
                &&& signed_urls@.len() == 0 ==> ({
                    &&& final(self).stage is Complete
                    &&& action is Done
                })
                &&& signed_urls@.len() > 0 ==> ({
                    &&& final(self).stage is Fetching
                    &&& final(self).pos == 1
                    &&& action matches GetAction::Fetch { url, cookie } && url@
                        == signed_urls@[0]@ && cookie@ == "file_token="@ + old(
                        self,
                    ).file_token@
                })
            }),
            // The fetch finished: save the bytes under the explicit output
            // name, or the name derived from the URL the fetch ended at.
            event matches GetEvent::Fetched { final_url } ==> ({
                &&& final(self).stage is Saving
                &&& final(self).urls == old(self).urls
                &&& final(self).pos == old(self).pos
                &&& action matches GetAction::Save { file_name } && file_name@ == (match old(
                    self,
                ).output_name {
                    Some(ref n) => n@,
                    None => last_path_segment(final_url@),
                })
            }),
            // Saved: fetch the next signed URL, or finish.
            event is Saved ==> ({
                &&& final(self).urls == old(self).urls
                &&& old(self).pos == old(self).urls@.len() ==> ({
                    &&& final(self).stage is Complete
                    &&& action is Done
                })
                &&& old(self).pos < old(self).urls@.len() ==> ({
                    &&& final(self).stage is Fetching
                    &&& final(self).pos == old(self).pos + 1
                    &&& action matches GetAction::Fetch { url, cookie } && url@ == old(
                        self,
                    ).urls@[old(self).pos as int]@ && cookie@ == "file_token="@ + old(
                        self,
                    ).file_token@
                })
            }),
            // Any failure halts the workflow.
            event matches GetEvent::StepFailed { error } ==> ({
                &&& final(self).stage is Failed
                &&& action matches GetAction::Fail { error: e } && e == error
            }),
    {
        match event {
            GetEvent::Urls { signed_urls } => {
                self.urls = signed_urls;
                self.pos = 0;
                if self.urls.len() == 0 {
                    self.stage = GetStage::Complete;
                    GetAction::Done
                } else {
                    self.stage = GetStage::Fetching;
                    self.pos = 1;
                    GetAction::Fetch {
                        url: self.urls[0].clone(),
                        cookie: file_cookie(self.file_token.as_str()),
                    }
                }
            }
            GetEvent::Fetched { final_url } => {
                let file_name = match &self.output_name {
                    Some(n) => n.clone(),
                    None => last_path_segment_of(final_url.as_str()),
                };
                self.stage = GetStage::Saving;
                GetAction::Save { file_name }
            }
            GetEvent::Saved => {
                if self.pos < self.urls.len() {
                    let url = self.urls[self.pos].clone();
                    self.pos = self.pos + 1;
                    self.stage = GetStage::Fetching;
                    GetAction::Fetch { url, cookie: file_cookie(self.file_token.as_str()) }
                } else {
                    self.stage = GetStage::Complete;
                    GetAction::Done
                }
            }
            GetEvent::StepFailed { error } => {
                self.stage = GetStage::Failed;
                GetAction::Fail { error }
            }
        }
    }
}

} // verus!
