//! The steps of a single transfer. A download asks for the object, creates the
//! target file, writes the object to it chunk by chunk, and flushes; an upload
//! opens the local file and puts it. The first failure ends the transfer, and
//! nothing is undone: what was written of a target file stays.

use vstd::prelude::*;
use crate::dispatch::TransferOutcome;

verus! {

/// The operation that a transfer failed in.
#[derive(Clone, Copy, Debug, PartialEq, Eq, Structural)]
pub enum TransferFault {
    /// The request for the object.
    Get,
    /// The creation of the target file.
    Create,
    /// The reading of a chunk of the object.
    Read,
    /// The writing of a chunk to the target file.
    Write,
    /// The flushing of the target file.
    Flush,
    /// The opening of the local file.
    Open,
    /// The sending of the object.
    Put,
}

/// What a download does next, or how it ended.
#[derive(Clone, Copy, Debug, PartialEq, Eq, Structural)]
pub enum DownloadStep {
    Get,
    CreateFile,
    ReadChunk,
    WriteChunk,
    Flush,
    Succeeded,
    Failed(TransferFault),
}

/// What an upload does next, or how it ended.
#[derive(Clone, Copy, Debug, PartialEq, Eq, Structural)]
pub enum UploadStep {
    OpenFile,
    Put,
    Succeeded,
    Failed(TransferFault),
}

/// How the operation that was asked for went.
#[derive(Clone, Copy, Debug, PartialEq, Eq, Structural)]
pub enum Reply {
    /// It was done.
    Done,
    /// A chunk was read.
    Chunk,
    /// The object has no more chunks.
    End,
    /// It failed.
    Failed,
}

/// The step that follows `step` on `reply`. A reply that does not answer the
/// step leaves it as it is, and so does any reply once the download ended.
pub open spec fn download_next(step: DownloadStep, reply: Reply) -> DownloadStep {
    match (step, reply) {
        (DownloadStep::Get, Reply::Done) => DownloadStep::CreateFile,
        (DownloadStep::Get, Reply::Failed) => DownloadStep::Failed(TransferFault::Get),
        (DownloadStep::CreateFile, Reply::Done) => DownloadStep::ReadChunk,
        (DownloadStep::CreateFile, Reply::Failed) => DownloadStep::Failed(TransferFault::Create),
        (DownloadStep::ReadChunk, Reply::Chunk) => DownloadStep::WriteChunk,
        (DownloadStep::ReadChunk, Reply::End) => DownloadStep::Flush,
        (DownloadStep::ReadChunk, Reply::Failed) => DownloadStep::Failed(TransferFault::Read),
        (DownloadStep::WriteChunk, Reply::Done) => DownloadStep::ReadChunk,
        (DownloadStep::WriteChunk, Reply::Failed) => DownloadStep::Failed(TransferFault::Write),
        (DownloadStep::Flush, Reply::Done) => DownloadStep::Succeeded,
        (DownloadStep::Flush, Reply::Failed) => DownloadStep::Failed(TransferFault::Flush),
        _ => step,
    }
}

/// The step that follows `step` on `reply`, for an upload.
pub open spec fn upload_next(step: UploadStep, reply: Reply) -> UploadStep {
    match (step, reply) {
        (UploadStep::OpenFile, Reply::Done) => UploadStep::Put,
        (UploadStep::OpenFile, Reply::Failed) => UploadStep::Failed(TransferFault::Open),
        (UploadStep::Put, Reply::Done) => UploadStep::Succeeded,
        (UploadStep::Put, Reply::Failed) => UploadStep::Failed(TransferFault::Put),
        _ => step,
    }
}

/// The download has ended.
pub open spec fn download_ended(step: DownloadStep) -> bool {
    step == DownloadStep::Succeeded || step is Failed
}

/// The upload has ended.
pub open spec fn upload_ended(step: UploadStep) -> bool {
    step == UploadStep::Succeeded || step is Failed
}

/// The step that a download is at after `chunks` chunks more were read and
/// written, each without failure.
pub open spec fn download_after_chunks(step: DownloadStep, chunks: nat) -> DownloadStep
    decreases chunks,
{
    if chunks == 0 {
        step
    } else {
        download_after_chunks(
            download_next(download_next(step, Reply::Chunk), Reply::Done),
            (chunks - 1) as nat,
        )
    }
}

/// Takes in the reply to a download's step and gives the next one.
pub fn download_step(step: DownloadStep, reply: Reply) -> (r: DownloadStep)
    ensures
        r == download_next(step, reply),
{
    match (step, reply) {
        (DownloadStep::Get, Reply::Done) => DownloadStep::CreateFile,
        (DownloadStep::Get, Reply::Failed) => DownloadStep::Failed(TransferFault::Get),
        (DownloadStep::CreateFile, Reply::Done) => DownloadStep::ReadChunk,
        (DownloadStep::CreateFile, Reply::Failed) => DownloadStep::Failed(TransferFault::Create),
        (DownloadStep::ReadChunk, Reply::Chunk) => DownloadStep::WriteChunk,
        (DownloadStep::ReadChunk, Reply::End) => DownloadStep::Flush,
        (DownloadStep::ReadChunk, Reply::Failed) => DownloadStep::Failed(TransferFault::Read),
        (DownloadStep::WriteChunk, Reply::Done) => DownloadStep::ReadChunk,
        (DownloadStep::WriteChunk, Reply::Failed) => DownloadStep::Failed(TransferFault::Write),
        (DownloadStep::Flush, Reply::Done) => DownloadStep::Succeeded,
        (DownloadStep::Flush, Reply::Failed) => DownloadStep::Failed(TransferFault::Flush),
        _ => step,
    }
}

/// Takes in the reply to an upload's step and gives the next one.
pub fn upload_step(step: UploadStep, reply: Reply) -> (r: UploadStep)
    ensures
        r == upload_next(step, reply),
{
    match (step, reply) {
        (UploadStep::OpenFile, Reply::Done) => UploadStep::Put,
        (UploadStep::OpenFile, Reply::Failed) => UploadStep::Failed(TransferFault::Open),
        (UploadStep::Put, Reply::Done) => UploadStep::Succeeded,
        (UploadStep::Put, Reply::Failed) => UploadStep::Failed(TransferFault::Put),
        _ => step,
    }
}

/// The outcome of a download that has ended; `None` while it has not.
pub fn download_outcome(step: DownloadStep) -> (r: Option<TransferOutcome>)
    ensures
        r is Some <==> download_ended(step),
        step == DownloadStep::Succeeded ==> r == Some(TransferOutcome::Succeeded),
        step is Failed ==> r == Some(TransferOutcome::TransferFailed),
{
    match step {
        DownloadStep::Succeeded => Some(TransferOutcome::Succeeded),
        DownloadStep::Failed(_) => Some(TransferOutcome::TransferFailed),
        _ => None,
    }
}

/// The outcome of an upload that has ended; `None` while it has not.
pub fn upload_outcome(step: UploadStep) -> (r: Option<TransferOutcome>)
    ensures
        r is Some <==> upload_ended(step),
        step == UploadStep::Succeeded ==> r == Some(TransferOutcome::Succeeded),
        step is Failed ==> r == Some(TransferOutcome::TransferFailed),
{
    match step {
        UploadStep::Succeeded => Some(TransferOutcome::Succeeded),
        UploadStep::Failed(_) => Some(TransferOutcome::TransferFailed),
        _ => None,
    }
}

/// The first failure ends a transfer, and a transfer that has ended stays as
/// it is whatever is reported: no step follows a failure, so nothing that
/// was written is undone.
pub proof fn lemma_failure_is_final(down: DownloadStep, up: UploadStep, reply: Reply)
    ensures
        !download_ended(down) ==> download_next(down, Reply::Failed) is Failed,
        !upload_ended(up) ==> upload_next(up, Reply::Failed) is Failed,
        download_ended(down) ==> download_next(down, reply) == down,
        upload_ended(up) ==> upload_next(up, reply) == up,
{
}

/// Each chunk is written before the next is read: after any number of chunks
/// the download is back at reading, and when the object ends there the file
/// is flushed and the download succeeds.
pub proof fn lemma_download_streams(chunks: nat)
    ensures
        download_after_chunks(DownloadStep::ReadChunk, chunks) == DownloadStep::ReadChunk,
        download_next(
            download_next(download_after_chunks(DownloadStep::ReadChunk, chunks), Reply::End),
            Reply::Done,
        ) == DownloadStep::Succeeded,
        download_next(download_next(DownloadStep::Get, Reply::Done), Reply::Done)
            == DownloadStep::ReadChunk,
    decreases chunks,
{
    if chunks > 0 {
        lemma_download_streams((chunks - 1) as nat);
    }
}

} // verus!
