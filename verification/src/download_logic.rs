//! One chunk's transfer, as the decisions taken between its I/O steps.
//!
//! The caller does the I/O: it sends the request, reads the response one
//! buffer at a time and writes each buffer to the destination. After each of
//! these it hands what happened to the function for that moment, together with
//! the control flag as it reads at that moment, and is told what to do next.
//! The states are types of their own, so a step cannot be taken out of turn.
//!
//! A chunk ends in `Ok(true)` (written and verified), in `Ok(false)` (stopped
//! by the control flag, which is no error) or in an error.

use crate::digest::{
    hex_encode, hex_md5, md5_compute, md5_consume, md5_consumed, md5_digest, md5_new,
};
use crate::download_thread_control_flag::DownloadThreadControlFlag;
use crate::error::{ApplicationDownloadError, RemoteAccessError};
use crate::manifest::DropDownloadContext;
use crate::progress_object::ProgressUpdate;
use vstd::prelude::*;
use vstd::string::StringExecFns;

verus! {

/// What the error says where a response ends before the announced length.
pub open spec fn truncated_body() -> Seq<char> {
    "Response ended before the announced content length"@
}

/// What the error says where a response runs past the announced length.
pub open spec fn overlong_body() -> Seq<char> {
    "Response is longer than the announced content length"@
}

/// A chunk whose request is to be sent.
pub struct ChunkRequest {
    offset: u64,
    checksum: String,
    permissions: u32,
}

/// What to do with a chunk that a worker has picked up.
pub enum BeginStep {
    /// The flag said stop: apply `progress` to the chunk's counter and report
    /// the chunk as not completed.
    Stopped { progress: ProgressUpdate },
    /// Send the request and hand its answer to `request`.
    Send { request: ChunkRequest },
}

/// What to do once the server has answered.
pub enum ResponseStep {
    /// Report this error for the chunk.
    Failed(ApplicationDownloadError),
    /// The flag said stop: report the chunk as not completed.
    Stopped,
    /// Open the destination, seek to the pipeline's offset if it is not zero,
    /// and copy the response body through the pipeline.
    Copy(DropDownloadPipeline),
}

/// What to do after a buffer has been written.
pub enum CopyStatus {
    /// Read and write the next buffer.
    Continue(DropDownloadPipeline),
    /// The flag said stop: report the chunk as not completed.
    Stopped,
    /// The body is not as long as the server announced: report this error
    /// for the chunk.
    Failed(ApplicationDownloadError),
    /// Every expected byte is written: apply the permission bits, flush, and
    /// then ask the sealed chunk for the result.
    Complete(SealedChunk),
}

/// The outcome of one buffer: what to add to the chunk's counter, and what to
/// do next.
pub struct CopyStep {
    pub progress: ProgressUpdate,
    pub status: CopyStatus,
}

/// The hashing half of a destination: it is handed every byte that is
/// written to the file, in order, and digests them as they come.
pub struct DropWriter {
    hasher: md5::Context,
}

/// A chunk in the middle of its copy: what has been written so far, hashed,
/// and how much is expected in all.
pub struct DropDownloadPipeline {
    destination: DropWriter,
    size: u64,
    /// Bytes still expected.
    remaining: u64,
    offset: u64,
    checksum: String,
    permissions: u32,
}

/// A chunk whose every expected byte has been written.
pub struct SealedChunk {
    destination: DropWriter,
    checksum: String,
    permissions: u32,
}

impl DropWriter {
    /// The bytes written so far, in order.
    pub closed spec fn written(&self) -> Seq<u8> {
        md5_consumed(self.hasher)
    }

    /// A writer to which nothing has been written.
    pub fn new() -> (writer: Self)
        ensures
            writer.written() == Seq::<u8>::empty(),
    {
        DropWriter { hasher: md5_new() }
    }

    /// Takes in the bytes of `buf`, which have just been written to the file.
    pub fn write(&mut self, buf: &[u8])
        ensures
            final(self).written() == old(self).written() + buf@,
    {
        md5_consume(&mut self.hasher, buf);
    }

    /// The MD5 digest of all that was written.
    pub fn finish(self) -> (digest: [u8; 16])
        ensures
            digest@ == md5_digest(self.written()),
    {
        md5_compute(self.hasher)
    }
}

impl ChunkRequest {
    /// Where in the destination file the chunk starts.
    pub closed spec fn offset(&self) -> u64 {
        self.offset
    }

    /// The hex digest the written bytes must have.
    pub closed spec fn checksum(&self) -> Seq<char> {
        self.checksum@
    }

    /// The permission bits of the finished file.
    pub closed spec fn permissions(&self) -> u32 {
        self.permissions
    }

    /// The request could not be sent, or no answer came: the chunk fails with
    /// a communication error that carries the transport's description.
    pub fn on_failure(self, description: String) -> (error: ApplicationDownloadError)
        ensures
            error matches ApplicationDownloadError::Communication(
                RemoteAccessError::FetchError(text),
            ) && text@ == description@,
    {
        ApplicationDownloadError::Communication(RemoteAccessError::FetchError(description))
    }

    /// The server answered with `status`; `content_length` is the body length
    /// it announced, if it announced one, and `body` is the error body it sent
    /// where the status is not 200.
    ///
    /// Any status but 200 fails the chunk, and so does a missing length: the
    /// copy has to know how many bytes to expect. Otherwise the copy begins,
    /// unless the flag says stop.
    pub fn on_response(
        self,
        status: u16,
        content_length: Option<u64>,
        body: String,
        flag: DownloadThreadControlFlag,
    ) -> (step: ResponseStep)
        ensures
            (status != 200 || content_length is None) ==> (step matches ResponseStep::Failed(
                ApplicationDownloadError::Communication(RemoteAccessError::InvalidResponse(text)),
            ) && text@ == body@),
            (status == 200 && content_length is Some && flag == DownloadThreadControlFlag::Stop)
                ==> step is Stopped,
            (status == 200 && content_length is Some && flag == DownloadThreadControlFlag::Go)
                ==> (step matches ResponseStep::Copy(pipeline) && {
                &&& pipeline.size() == content_length->0
                &&& pipeline.bytes() == Seq::<u8>::empty()
                &&& pipeline.offset() == self.offset()
                &&& pipeline.checksum() == self.checksum()
                &&& pipeline.permissions() == self.permissions()
            }),
    {
        if status != 200 {
            return ResponseStep::Failed(
                ApplicationDownloadError::Communication(RemoteAccessError::InvalidResponse(body)),
            );
        }
        let size = match content_length {
            Some(size) => size,
            None => {
                return ResponseStep::Failed(
                    ApplicationDownloadError::Communication(
                        RemoteAccessError::InvalidResponse(body),
                    ),
                );
            },
        };
        match flag {
            DownloadThreadControlFlag::Stop => ResponseStep::Stopped,
            DownloadThreadControlFlag::Go => ResponseStep::Copy(
                DropDownloadPipeline::new(size, self.offset, self.checksum, self.permissions),
            ),
        }
    }
}

impl DropDownloadPipeline {
    #[verifier::type_invariant]
    spec fn inv(self) -> bool {
        self.destination.written().len() + self.remaining == self.size
    }

    /// The bytes written so far, in order. The digest is taken over exactly these.
    pub closed spec fn bytes(&self) -> Seq<u8> {
        self.destination.written()
    }

    /// How many bytes the chunk has in all.
    pub closed spec fn size(&self) -> u64 {
        self.size
    }

    /// Where in the destination file the chunk starts.
    pub closed spec fn offset(&self) -> u64 {
        self.offset
    }

    /// The hex digest the written bytes must have.
    pub closed spec fn checksum(&self) -> Seq<char> {
        self.checksum@
    }

    /// The permission bits of the finished file.
    pub closed spec fn permissions(&self) -> u32 {
        self.permissions
    }

    fn new(size: u64, offset: u64, checksum: String, permissions: u32) -> (pipeline: Self)
        ensures
            pipeline.size() == size,
            pipeline.bytes() == Seq::<u8>::empty(),
            pipeline.offset() == offset,
            pipeline.checksum() == checksum@,
            pipeline.permissions() == permissions,
    {
        DropDownloadPipeline {
            destination: DropWriter::new(),
            size,
            remaining: size,
            offset,
            checksum,
            permissions,
        }
    }

    /// Where to seek to in the destination before the first write.
    pub fn seek_offset(&self) -> (offset: u64)
        ensures
            offset == self.offset(),
    {
        self.offset
    }

    /// How many bytes the chunk has in all.
    pub fn expected_size(&self) -> (size: u64)
        ensures
            size == self.size(),
    {
        self.size
    }

    /// The bytes of `buf` have just been written to the destination; an
    /// empty `buf` says that the response has ended.
    ///
    /// The bytes are added to the digest and to the chunk's counter, whatever
    /// else happens. Then the flag decides: on stop the copy ends there as
    /// not completed, even if this was the last buffer, for a stop is never an
    /// error. Otherwise the bytes written so far are held against the length
    /// the server announced. More than that, or an end of the response before
    /// that, fails the chunk as an invalid response. Exactly that is the end
    /// of the copy. Less than that, with the response still running, means
    /// another buffer.
    pub fn copy(self, buf: &[u8], flag: DownloadThreadControlFlag) -> (step: CopyStep)
        ensures
            step.progress == ProgressUpdate::Add(buf@.len() as usize),
            flag == DownloadThreadControlFlag::Stop ==> step.status is Stopped,
            (flag == DownloadThreadControlFlag::Go && self.bytes().len() + buf@.len()
                > self.size()) ==> (step.status matches CopyStatus::Failed(
                ApplicationDownloadError::Communication(RemoteAccessError::InvalidResponse(text)),
            ) && text@ == overlong_body()),
            (flag == DownloadThreadControlFlag::Go && self.bytes().len() + buf@.len()
                == self.size()) ==> (step.status matches CopyStatus::Complete(sealed) && {
                &&& sealed.bytes() == self.bytes() + buf@
                &&& sealed.checksum() == self.checksum()
                &&& sealed.permissions() == self.permissions()
            }),
            (flag == DownloadThreadControlFlag::Go && self.bytes().len() + buf@.len()
                < self.size() && buf@.len() == 0) ==> (step.status matches CopyStatus::Failed(
                ApplicationDownloadError::Communication(RemoteAccessError::InvalidResponse(text)),
            ) && text@ == truncated_body()),
            (flag == DownloadThreadControlFlag::Go && self.bytes().len() + buf@.len()
                < self.size() && buf@.len() > 0) ==> (step.status matches CopyStatus::Continue(
                next,
            ) && {
                &&& next.bytes() == self.bytes() + buf@
                &&& next.size() == self.size()
                &&& next.offset() == self.offset()
                &&& next.checksum() == self.checksum()
                &&& next.permissions() == self.permissions()
            }),
    {
        proof {
            use_type_invariant(&self);
        }
        let DropDownloadPipeline {
            mut destination,
            size,
            remaining,
            offset,
            checksum,
            permissions,
        } = self;
        destination.write(buf);
        let progress = ProgressUpdate::Add(buf.len());
        let written = buf.len() as u64;
        let status = match flag {
            DownloadThreadControlFlag::Stop => CopyStatus::Stopped,
            DownloadThreadControlFlag::Go => {
                if written > remaining {
                    CopyStatus::Failed(
                        ApplicationDownloadError::Communication(
                            RemoteAccessError::InvalidResponse(
                                String::from_str(
                                    "Response is longer than the announced content length",
                                ),
                            ),
                        ),
                    )
                } else if written == remaining {
                    CopyStatus::Complete(SealedChunk { destination, checksum, permissions })
                } else if written == 0 {
                    CopyStatus::Failed(
                        ApplicationDownloadError::Communication(
                            RemoteAccessError::InvalidResponse(
                                String::from_str(
                                    "Response ended before the announced content length",
                                ),
                            ),
                        ),
                    )
                } else {
                    CopyStatus::Continue(
                        DropDownloadPipeline {
                            destination,
                            size,
                            remaining: remaining - written,
                            offset,
                            checksum,
                            permissions,
                        },
                    )
                }
            },
        };
        CopyStep { progress, status }
    }

    /// How many bytes are still to come. A pipeline never holds more bytes
    /// than the server announced.
    pub fn remaining(&self) -> (remaining: u64)
        ensures
            self.bytes().len() + remaining == self.size(),
    {
        proof {
            use_type_invariant(self);
        }
        self.remaining
    }
}

impl SealedChunk {
    /// The bytes that were written, in order.
    pub closed spec fn bytes(&self) -> Seq<u8> {
        self.destination.written()
    }

    /// The hex digest the written bytes must have.
    pub closed spec fn checksum(&self) -> Seq<char> {
        self.checksum@
    }

    /// The permission bits of the finished file.
    pub closed spec fn permissions(&self) -> u32 {
        self.permissions
    }

    /// The permission bits to apply to the destination file.
    pub fn permission_bits(&self) -> (bits: u32)
        ensures
            bits == self.permissions(),
    {
        self.permissions
    }

    /// The chunk is good exactly if the hex MD5 digest of the
    /// written bytes is, character for character, the expected checksum.
    /// Anything else is a checksum error.
    pub fn finish(self) -> (result: Result<bool, ApplicationDownloadError>)
        ensures
            hex_md5(self.bytes()) == self.checksum() ==> result == Ok::<
                bool,
                ApplicationDownloadError,
            >(true),
            hex_md5(self.bytes()) != self.checksum() ==> result
                == Err::<bool, ApplicationDownloadError>(ApplicationDownloadError::Checksum),
    {
        let checksum = self.destination.finish();
        let res = hex_encode(checksum.as_slice());
        if res != self.checksum {
            return Err(ApplicationDownloadError::Checksum);
        }
        Ok(true)
    }
}

/// A worker has picked up the chunk `ctx`.
///
/// If the flag says stop, nothing is requested: the chunk's counter goes back
/// to zero and the chunk is not completed. Otherwise the request is to be sent.
pub fn download_game_chunk(ctx: &DropDownloadContext, flag: DownloadThreadControlFlag) -> (step:
    BeginStep)
    ensures
        flag == DownloadThreadControlFlag::Stop ==> step == (BeginStep::Stopped {
            progress: ProgressUpdate::Replace(0),
        }),
        flag == DownloadThreadControlFlag::Go ==> (step matches BeginStep::Send { request } && {
            &&& request.offset() == ctx.offset
            &&& request.checksum() == ctx.checksum@
            &&& request.permissions() == ctx.permissions
        }),
{
    match flag {
        DownloadThreadControlFlag::Stop => BeginStep::Stopped {
            progress: ProgressUpdate::Replace(0),
        },
        DownloadThreadControlFlag::Go => BeginStep::Send {
            request: ChunkRequest {
                offset: ctx.offset,
                checksum: ctx.checksum.clone(),
                permissions: ctx.permissions,
            },
        },
    }
}

} // verus!
