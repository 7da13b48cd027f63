//! The put workflow: one file's create → format → upload → attach → record
//! sequence as an explicit state machine.
//!
//! All remote work is I/O, so the machine only decides: each call to
//! [`PutMachine::step`] consumes the outcome of the previous action and
//! returns the next action for the driver to perform. Within one file the
//! steps are strictly sequential; the remote service offers no atomicity
//! across them, so a failure part-way leaves a created-but-unattached block,
//! and the failure action surfaces that block's id for manual cleanup.
//!
//! The contracts pin every transition: in particular, the attach transaction
//! is emitted exactly on the upload-success event, never before the file is
//! durably stored, and no stage of the per-block progression
//! `Absent → Created → Formatted → FileUploaded → Attached` is skipped.

use vstd::pervasive::unreached;
use vstd::prelude::*;
use vstd::string::*;

use crate::client::{page_data_request, save_transaction_request, upload_file_url_request};
use crate::error::ApiError;
use crate::ident::is_dashed_id;
use crate::outside::{guess_mime, mime_of_path, new_uuid};
use crate::store::FileRow;
use crate::txn::{
    attach_file_txn, attach_file_txn_v, create_block_txn, create_block_txn_v, format_block_txn,
    format_block_txn_v,
};
use crate::types::{
    GetUploadFileUrlRequest, GetUploadFileUrlResponse, PageDataRequest, PageIdentity,
    SaveTransactionRequest, Transaction,
};

verus! {

/// What the pipeline knows about the file before any remote call: its name,
/// its guessed content type, and its exact byte length.
#[derive(Debug, Clone, PartialEq, Eq)]
pub struct FileMeta {
    pub name: String,
    pub mime: String,
    pub content_length: usize,
}

impl FileMeta {
    /// Fixes a file's upload metadata, guessing the content type from the
    /// name's extension (`text/plain` when unrecognized).
    pub fn for_file(name: String, content_length: usize) -> (m: FileMeta)
        ensures
            m.name == name,
            m.mime@ == mime_of_path(name@),
            m.content_length == content_length,
    {
        let mime = guess_mime(name.as_str());
        FileMeta { name, mime, content_length }
    }
}

/// The workflow stage: which action is in flight, or how the workflow
/// ended.
#[derive(Debug, Clone, Copy, PartialEq, Eq)]
pub enum PutStage {
    FetchingPage,
    CreatingBlock,
    FormattingBlock,
    CheckingName,
    RequestingSlot,
    Transferring,
    Attaching,
    Recording,
    Complete,
    Failed,
}

/// The per-block progression of the mutation protocol. Each success event
/// advances it by at most one arrow; a workflow failure freezes it, which
/// is how a created-but-unattached block arises.
#[derive(Debug, Clone, Copy, PartialEq, Eq)]
pub enum BlockStage {
    Absent,
    Created,
    Formatted,
    FileUploaded,
    Attached,
}

/// Where the remote block stands at each workflow stage; `None` after a
/// failure, when the stored progression is whatever had been acknowledged.
pub open spec fn block_stage_of(s: PutStage) -> Option<BlockStage> {
    match s {
        PutStage::FetchingPage => Some(BlockStage::Absent),
        PutStage::CreatingBlock => Some(BlockStage::Absent),
        PutStage::FormattingBlock => Some(BlockStage::Created),
        PutStage::CheckingName => Some(BlockStage::Formatted),
        PutStage::RequestingSlot => Some(BlockStage::Formatted),
        PutStage::Transferring => Some(BlockStage::Formatted),
        PutStage::Attaching => Some(BlockStage::FileUploaded),
        PutStage::Recording => Some(BlockStage::Attached),
        PutStage::Complete => Some(BlockStage::Attached),
        PutStage::Failed => None,
    }
}

/// Workflow stages in submission order; used to state that success events
/// never skip a stage.
pub open spec fn stage_index(s: PutStage) -> int {
    match s {
        PutStage::FetchingPage => 0,
        PutStage::CreatingBlock => 1,
        PutStage::FormattingBlock => 2,
        PutStage::CheckingName => 3,
        PutStage::RequestingSlot => 4,
        PutStage::Transferring => 5,
        PutStage::Attaching => 6,
        PutStage::Recording => 7,
        PutStage::Complete => 8,
        PutStage::Failed => 100,
    }
}

/// The arrows of the per-block progression, in order.
pub open spec fn block_stage_index(b: BlockStage) -> int {
    match b {
        BlockStage::Absent => 0,
        BlockStage::Created => 1,
        BlockStage::Formatted => 2,
        BlockStage::FileUploaded => 3,
        BlockStage::Attached => 4,
    }
}

/// Along the success path the block's progression
/// `Absent → Created → Formatted → FileUploaded → Attached` advances by at
/// most one arrow per acknowledged workflow step, and never backwards: no
/// transition is skipped.
pub proof fn lemma_block_stage_no_skip(s1: PutStage, s2: PutStage)
    requires
        stage_index(s2) == stage_index(s1) + 1,
        !(s2 is Failed),
    ensures
        block_stage_of(s1) is Some,
        block_stage_of(s2) is Some,
        block_stage_index(block_stage_of(s1)->0) <= block_stage_index(block_stage_of(s2)->0),
        block_stage_index(block_stage_of(s2)->0) <= block_stage_index(block_stage_of(s1)->0) + 1,
{
}

/// True once the block-creation transaction has been acknowledged: from
/// here on a failure leaves an orphaned remote block.
pub open spec fn block_created(s: PutStage) -> bool {
    ||| s is FormattingBlock
    ||| s is CheckingName
    ||| s is RequestingSlot
    ||| s is Transferring
    ||| s is Attaching
    ||| s is Recording
}

/// Stages at which the page identity and the new block id are fixed.
pub open spec fn block_known(s: PutStage) -> bool {
    ||| s is CreatingBlock
    ||| block_created(s)
    ||| s is Complete
}

/// Stages at which the upload slot is fixed.
pub open spec fn slot_known(s: PutStage) -> bool {
    ||| s is Transferring
    ||| s is Attaching
    ||| s is Recording
    ||| s is Complete
}

/// The outcome of the action the machine last asked for.
#[derive(Debug, Clone, PartialEq, Eq)]
pub enum PutEvent {
    /// The page lookup returned this identity.
    Page { identity: PageIdentity },
    /// The submitted transaction was acknowledged.
    TxnSaved,
    /// The local store reported whether the file name is already taken.
    NameChecked { taken: bool },
    /// The upload-slot request returned these signed URLs.
    Slot { slot: GetUploadFileUrlResponse },
    /// The PUT of the file body completed with a success status.
    PutDone,
    /// The attach transaction was acknowledged at this Unix time (ms).
    AttachSaved { unix_time_ms: i64 },
    /// The local store accepted the record.
    Recorded,
    /// The action failed; the workflow halts.
    StepFailed { error: ApiError },
}

/// The next piece of outside work the driver must perform.
#[derive(Debug, Clone, PartialEq, Eq)]
pub enum PutAction {
    /// POST the page-data lookup.
    FetchPage { request: PageDataRequest },
    /// POST the transaction submission.
    Submit { request: SaveTransactionRequest },
    /// Ask the local store whether `file_name` exists.
    CheckName { file_name: String },
    /// POST the upload-slot request.
    RequestSlot { request: GetUploadFileUrlRequest },
    /// PUT the file body to the signed write URL with exactly these
    /// `Content-Type` and `Content-Length` headers.
    PutFile { signed_put_url: String, content_type: String, content_length: usize },
    /// Insert the record into the local store.
    Record { row: FileRow },
    /// The workflow finished; the file is attached to `block_id` at `url`.
    Done { block_id: String, url: String },
    /// The workflow halted. When the block-creation transaction had already
    /// been acknowledged, `orphan_block_id` names the remote block that now
    /// exists without an attachment, for manual cleanup.
    Fail { error: ApiError, orphan_block_id: Option<String> },
}

/// A transaction submission whose single operation updates a block's
/// `properties`: the shape only the attach transaction has.
pub open spec fn is_attach_submit(a: PutAction) -> bool {
    a matches PutAction::Submit { request } && request.transactions@.len() == 1
        && request.transactions@[0]@.operations.len() == 1
        && request.transactions@[0]@.operations[0].path == seq!["properties"@]
}

/// The put workflow for one file.
pub struct PutMachine {
    pub stage: PutStage,
    /// The dashed identifier of the target page, as given at start.
    pub page_id: String,
    pub meta: FileMeta,
    /// The local path recorded for later reference.
    pub origin_file_path: String,
    /// Fixed by the `Page` event.
    pub identity: Option<PageIdentity>,
    /// The fresh block id, generated when the page identity arrives.
    pub block_id: Option<String>,
    /// Fixed by the `Slot` event.
    pub slot: Option<GetUploadFileUrlResponse>,
}

impl PutMachine {
    pub open spec fn wf(self) -> bool {
        &&& (block_known(self.stage) ==> ({
            &&& self.identity is Some
            &&& self.block_id matches Some(b) && is_dashed_id(b@)
        }))
        &&& (slot_known(self.stage) ==> self.slot is Some)
    }

    /// Which event the machine can consume: the outcome of the action it
    /// last emitted, or a failure while any action was in flight.
    pub open spec fn accepts(self, event: PutEvent) -> bool {
        match event {
            PutEvent::Page { .. } => self.stage is FetchingPage,
            PutEvent::TxnSaved => self.stage is CreatingBlock || self.stage is FormattingBlock,
            PutEvent::NameChecked { .. } => self.stage is CheckingName,
            PutEvent::Slot { .. } => self.stage is RequestingSlot,
            PutEvent::PutDone => self.stage is Transferring,
            PutEvent::AttachSaved { .. } => self.stage is Attaching,
            PutEvent::Recorded => self.stage is Recording,
            PutEvent::StepFailed { .. } => !(self.stage is Complete) && !(self.stage is Failed),
        }
    }

    /// Starts the workflow for one file: the first action is the page
    /// lookup for the dashed page identifier.
    pub fn start(page_id: String, meta: FileMeta, origin_file_path: String) -> (r: (
        PutMachine,
        PutAction,
    ))
        ensures
            r.0.wf(),
            r.0.stage is FetchingPage,
            r.0.page_id == page_id,
            r.0.meta == meta,
            r.0.origin_file_path == origin_file_path,
            r.0.identity is None && r.0.block_id is None && r.0.slot is None,
            r.1 matches PutAction::FetchPage { request } && request.request_type@ == "block-space"@
                && request.block_id@ == page_id@ && request.name@ == "page"@
                && request.save_parent == false && request.show_move_to == false,
    {
        let request = page_data_request(page_id.as_str());
        let m = PutMachine {
            stage: PutStage::FetchingPage,
            page_id,
            meta,
            origin_file_path,
            identity: None,
            block_id: None,
            slot: None,
        };
        (m, PutAction::FetchPage { request })
    }

    /// Where the remote block stands.
    pub fn block_stage(&self) -> (s: Option<BlockStage>)
        ensures
            s == block_stage_of(self.stage),
    {
        match self.stage {
            PutStage::FetchingPage => Some(BlockStage::Absent),
            PutStage::CreatingBlock => Some(BlockStage::Absent),
            PutStage::FormattingBlock => Some(BlockStage::Created),
            PutStage::CheckingName => Some(BlockStage::Formatted),
            PutStage::RequestingSlot => Some(BlockStage::Formatted),
            PutStage::Transferring => Some(BlockStage::Formatted),
            PutStage::Attaching => Some(BlockStage::FileUploaded),
            PutStage::Recording => Some(BlockStage::Attached),
            PutStage::Complete => Some(BlockStage::Attached),
            PutStage::Failed => None,
        }
    }

    /// Consumes the outcome of the pending action and decides the next one.
    pub fn step(&mut self, event: PutEvent) -> (action: PutAction)
        requires
            old(self).wf(),
            old(self).accepts(event),
        ensures
            final(self).wf(),
            final(self).page_id == old(self).page_id,
            final(self).meta == old(self).meta,
            final(self).origin_file_path == old(self).origin_file_path,
            // The page identity arrived: fix it, generate the block id, and
            // submit the block-creation transaction.
            event matches PutEvent::Page { identity } ==> ({
                &&& final(self).stage is CreatingBlock
                &&& final(self).identity == Some(identity)
                &&& final(self).block_id matches Some(b) && is_dashed_id(b@)
                &&& action matches PutAction::Submit { request } && is_dashed_id(
                    request.request_id@,
                ) && request.transactions@.len() == 1 && is_dashed_id(
                    request.transactions@[0]@.id,
                ) && request.transactions@[0]@ == create_block_txn_v(
                    request.transactions@[0]@.id,
                    identity.space_id@,
                    identity.page_id@,
                    final(self).block_id->0@,
                    None,
                )
            }),
            // The creation transaction was acknowledged: submit the format
            // transaction for the same block.
            (event is TxnSaved && old(self).stage is CreatingBlock) ==> ({
                &&& final(self).stage is FormattingBlock
                &&& final(self).identity == old(self).identity
                &&& final(self).block_id == old(self).block_id
                &&& action matches PutAction::Submit { request } && is_dashed_id(
                    request.request_id@,
                ) && request.transactions@.len() == 1 && is_dashed_id(
                    request.transactions@[0]@.id,
                ) && request.transactions@[0]@ == format_block_txn_v(
                    request.transactions@[0]@.id,
                    old(self).identity->0.space_id@,
                    old(self).block_id->0@,
                )
            }),
            // The format transaction was acknowledged: check name
            // uniqueness before asking for an upload slot.
            (event is TxnSaved && old(self).stage is FormattingBlock) ==> ({
                &&& final(self).stage is CheckingName
                &&& final(self).identity == old(self).identity
                &&& final(self).block_id == old(self).block_id
                &&& action matches PutAction::CheckName { file_name } && file_name@ == old(
                    self,
                ).meta.name@
            }),
            // A taken name is a local uniqueness violation; the block
            // already exists remotely and is surfaced as orphaned.
            event matches PutEvent::NameChecked { taken } ==> ({
                &&& taken ==> ({
                    &&& final(self).stage is Failed
                    &&& action matches PutAction::Fail { error, orphan_block_id } && error
                        == (ApiError::DuplicateFileName { file_name: old(self).meta.name })
                        && orphan_block_id == old(self).block_id
                })
                &&& !taken ==> ({
                    &&& final(self).stage is RequestingSlot
                    &&& final(self).identity == old(self).identity
                    &&& final(self).block_id == old(self).block_id
                    &&& action matches PutAction::RequestSlot { request } && request.bucket@
                        == "secure"@ && request.name@ == old(self).meta.name@
                        && request.content_type@ == old(self).meta.mime@
                        && request.content_length == old(self).meta.content_length
                        && request.record.id@ == old(self).block_id->0@
                        && request.record.space_id@ == old(self).identity->0.space_id@
                        && request.record.table@ == "block"@
                })
            }),
            // The slot arrived: stream the file to its write URL with the
            // exact length and type the slot was issued for.
            event matches PutEvent::Slot { slot } ==> ({
                &&& final(self).stage is Transferring
                &&& final(self).identity == old(self).identity
                &&& final(self).block_id == old(self).block_id
                &&& final(self).slot == Some(slot)
                &&& action matches PutAction::PutFile {
                    signed_put_url,
                    content_type,
                    content_length,
                } && signed_put_url@ == slot.signed_put_url@ && content_type@ == old(
                    self,
                ).meta.mime@ && content_length == old(self).meta.content_length
            }),
            // The file is durably stored: only now submit the attach
            // transaction publishing its URL, title and size.
            event is PutDone ==> ({
                &&& final(self).stage is Attaching
                &&& final(self).identity == old(self).identity
                &&& final(self).block_id == old(self).block_id
                &&& final(self).slot == old(self).slot
                &&& action matches PutAction::Submit { request } && is_dashed_id(
                    request.request_id@,
                ) && request.transactions@.len() == 1 && is_dashed_id(
                    request.transactions@[0]@.id,
                ) && request.transactions@[0]@ == attach_file_txn_v(
                    request.transactions@[0]@.id,
                    old(self).identity->0.space_id@,
                    old(self).block_id->0@,
                    old(self).slot->0.url@,
                    old(self).meta.name@,
                    old(self).meta.content_length as nat,
                )
            }),
            // The attach was acknowledged: record the stored file locally.
            event matches PutEvent::AttachSaved { unix_time_ms } ==> ({
                &&& final(self).stage is Recording
                &&& action matches PutAction::Record { row } && row.file_name@ == old(
                    self,
                ).meta.name@ && row.file_url@ == old(self).slot->0.url@ && row.space_id@ == old(
                    self,
                ).identity->0.space_id@ && row.block_id@ == old(self).block_id->0@
                    && row.origin_file_path@ == old(self).origin_file_path@ && row.created_at
                    == unix_time_ms
            }),
            // Recorded: the workflow is complete.
            event is Recorded ==> ({
                &&& final(self).stage is Complete
                &&& action matches PutAction::Done { block_id, url } && block_id@ == old(
                    self,
                ).block_id->0@ && url@ == old(self).slot->0.url@
            }),
            // Any failure halts the workflow; once the creation transaction
            // was acknowledged, the orphaned block id is surfaced.
            event matches PutEvent::StepFailed { error } ==> ({
                &&& final(self).stage is Failed
                &&& action matches PutAction::Fail { error: e, orphan_block_id } && e == error
                    && orphan_block_id == (if block_created(old(self).stage) {
                        old(self).block_id
                    } else {
                        None::<String>
                    })
            }),
            // The attach transaction is submitted exactly on upload
            // success: never before the file is durably stored.
            is_attach_submit(action) <==> (old(self).stage is Transferring && event is PutDone),
            // Success events advance the workflow by exactly one stage: no
            // transition of the per-block progression is skipped.
            (!(event matches PutEvent::StepFailed { .. }) && !(event
                matches PutEvent::NameChecked { taken } && taken)) ==> stage_index(
                final(self).stage,
            ) == stage_index(old(self).stage) + 1,
    {
        match event {
            PutEvent::Page { identity } => {
                let block_id = new_uuid();
                let txn_id = new_uuid();
                let request_id = new_uuid();
                let txn = create_block_txn(
                    txn_id.as_str(),
                    identity.space_id.as_str(),
                    identity.page_id.as_str(),
                    block_id.as_str(),
                    None,
                );
                let mut transactions: Vec<Transaction> = Vec::new();
                transactions.push(txn);
                let request = save_transaction_request(request_id, transactions);
                self.stage = PutStage::CreatingBlock;
                self.block_id = Some(block_id);
                self.identity = Some(identity);
                let action = PutAction::Submit { request };
                proof {
                    assert(action->Submit_request.transactions@[0]@.operations.len() == 3);
                    assert(!is_attach_submit(action));
                }
                action
            }
            PutEvent::TxnSaved => {
                match self.stage {
                    PutStage::CreatingBlock => {
                        let txn_id = new_uuid();
                        let request_id = new_uuid();
                        let txn = format_block_txn(
                            txn_id.as_str(),
                            self.identity.as_ref().unwrap().space_id.as_str(),
                            self.block_id.as_ref().unwrap().as_str(),
                        );
                        let mut transactions: Vec<Transaction> = Vec::new();
                        transactions.push(txn);
                        let request = save_transaction_request(request_id, transactions);
                        self.stage = PutStage::FormattingBlock;
                        let action = PutAction::Submit { request };
                        proof {
                            reveal_strlit("format");
                            reveal_strlit("properties");
                            assert("format"@.len() != "properties"@.len());
                            let path = action->Submit_request.transactions@[0]@.operations[0].path;
                            assert(path == seq!["format"@]);
                            if path == seq!["properties"@] {
                                assert(path[0] == "properties"@);
                                assert(false);
                            }
                            assert(!is_attach_submit(action));
                        }
                        action
                    }
                    PutStage::FormattingBlock => {
                        self.stage = PutStage::CheckingName;
                        PutAction::CheckName { file_name: self.meta.name.clone() }
                    }
                    _ => unreached(),
                }
            }
            PutEvent::NameChecked { taken } => {
                if taken {
                    let orphan = self.block_id.clone();
                    self.stage = PutStage::Failed;
                    PutAction::Fail {
                        error: ApiError::DuplicateFileName { file_name: self.meta.name.clone() },
                        orphan_block_id: orphan,
                    }
                } else {
                    let request = upload_file_url_request(
                        self.meta.name.as_str(),
                        self.meta.mime.as_str(),
                        self.meta.content_length,
                        self.block_id.as_ref().unwrap().as_str(),
                        self.identity.as_ref().unwrap().space_id.as_str(),
                    );
                    self.stage = PutStage::RequestingSlot;
                    PutAction::RequestSlot { request }
                }
            }
            PutEvent::Slot { slot } => {
                let signed_put_url = slot.signed_put_url.clone();
                self.slot = Some(slot);
                self.stage = PutStage::Transferring;
                PutAction::PutFile {
                    signed_put_url,
                    content_type: self.meta.mime.clone(),
                    content_length: self.meta.content_length,
                }
            }
            PutEvent::PutDone => {
                let txn_id = new_uuid();
                let request_id = new_uuid();
                let txn = attach_file_txn(
                    txn_id.as_str(),
                    self.identity.as_ref().unwrap().space_id.as_str(),
                    self.block_id.as_ref().unwrap().as_str(),
                    self.slot.as_ref().unwrap().url.as_str(),
                    self.meta.name.as_str(),
                    self.meta.content_length,
                );
                let mut transactions: Vec<Transaction> = Vec::new();
                transactions.push(txn);
                let request = save_transaction_request(request_id, transactions);
                self.stage = PutStage::Attaching;
                PutAction::Submit { request }
            }
            PutEvent::AttachSaved { unix_time_ms } => {
                let row = FileRow {
                    file_name: self.meta.name.clone(),
                    file_url: self.slot.as_ref().unwrap().url.clone(),
                    space_id: self.identity.as_ref().unwrap().space_id.clone(),
                    block_id: self.block_id.as_ref().unwrap().clone(),
                    origin_file_path: self.origin_file_path.clone(),
                    created_at: unix_time_ms,
                };
                self.stage = PutStage::Recording;
                PutAction::Record { row }
            }
            PutEvent::Recorded => {
                self.stage = PutStage::Complete;
                PutAction::Done {
                    block_id: self.block_id.as_ref().unwrap().clone(),
                    url: self.slot.as_ref().unwrap().url.clone(),
                }
            }
            PutEvent::StepFailed { error } => {
                let created = matches!(
                    self.stage,
                    PutStage::FormattingBlock | PutStage::CheckingName | PutStage::RequestingSlot
                        | PutStage::Transferring | PutStage::Attaching | PutStage::Recording
                );
                let orphan = if created {
                    self.block_id.clone()
                } else {
                    None
                };
                self.stage = PutStage::Failed;
                PutAction::Fail { error, orphan_block_id: orphan }
            }
        }
    }
}

} // verus!
