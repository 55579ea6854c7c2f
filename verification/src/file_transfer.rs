//! Sending one file: the answer to a download request, and the blocks that
//! carry the file's bytes.

use vstd::prelude::*;
use crate::message::{
    EndPointDownloadFileReply, EndPointFileTransferBlock, EndPointFileTransferBlockView,
    EndPointFileTransferError, EndPointMessage,
};

verus! {

/// Seconds between the answer to a download request and the first block, so
/// that the requester can get ready for the transfer.
pub const FILE_TRANSFER_SETTLE_SECS: u64 = 1;

/// Why a file is not sent.
#[derive(Clone, Copy, Debug, PartialEq, Eq, Structural)]
pub enum FileTransferFailure {
    /// The path does not name a regular file.
    NotARegularFile,
}

/// The answer to a download request, given what the file system says of
/// the path: the size of a regular file, and an error for anything else.
pub fn download_file_reply(is_regular_file: bool, size: u64) -> (r: Result<
    EndPointDownloadFileReply,
    FileTransferFailure,
>)
    ensures
        is_regular_file ==> r == Ok::<EndPointDownloadFileReply, FileTransferFailure>(
            EndPointDownloadFileReply { size },
        ),
        !is_regular_file ==> r == Err::<EndPointDownloadFileReply, FileTransferFailure>(
            FileTransferFailure::NotARegularFile,
        ),
{
    if is_regular_file {
        Ok(EndPointDownloadFileReply { size })
    } else {
        Err(FileTransferFailure::NotARegularFile)
    }
}

/// The push that ends transfer `id` abnormally.
pub fn file_transfer_error(id: &str) -> (message: EndPointMessage)
    ensures
        message matches EndPointMessage::FileTransferError(e) && e.id@ == id@,
{
    EndPointMessage::FileTransferError(EndPointFileTransferError { id: id.to_owned() })
}

/// The payloads of a run of blocks, one after the other.
pub open spec fn joined(blocks: Seq<EndPointFileTransferBlockView>) -> Seq<u8>
    decreases blocks.len(),
{
    if blocks.len() == 0 {
        Seq::empty()
    } else {
        joined(blocks.drop_last()) + blocks.last().data
    }
}

/// The views of a run of blocks, in order.
pub open spec fn block_views(blocks: Seq<EndPointFileTransferBlock>) -> Seq<
    EndPointFileTransferBlockView,
> {
    Seq::new(blocks.len(), |i: int| blocks[i]@)
}

/// Cuts `data` into the blocks of transfer `id`, each `block_len` bytes long
/// but for the last, which holds what is left. The blocks put together are
/// `data`, byte for byte. With a block length of zero nothing can be sent:
/// the result is `None` unless there is nothing to send.
pub fn file_blocks(id: &str, data: &[u8], block_len: usize) -> (r: Option<
    Vec<EndPointFileTransferBlock>,
>)
    ensures
        r is None <==> block_len == 0 && data@.len() > 0,
        r matches Some(blocks) ==> {
            let views = block_views(blocks@);
            &&& joined(views) == data@
            &&& forall|i: int| 0 <= i < views.len() ==> (#[trigger] views[i]).id == id@
            &&& forall|i: int|
                0 <= i < views.len() ==> 0 < (#[trigger] views[i]).data.len() <= block_len
            &&& forall|i: int|
                0 <= i < views.len() - 1 ==> (#[trigger] views[i]).data.len() == block_len
        },
{
    let mut blocks: Vec<EndPointFileTransferBlock> = Vec::new();
    let total: usize = data.len();
    if block_len == 0 {
        if total > 0 {
            return None;
        }
        assert(block_views(blocks@) =~= Seq::empty());
        return Some(blocks);
    }
    let mut at: usize = 0;
    assert(block_views(blocks@) =~= Seq::empty());
    assert(data@.subrange(0, 0) =~= Seq::empty());
    while at < total
        invariant
            at <= total == data@.len(),
            block_len > 0,
            joined(block_views(blocks@)) == data@.subrange(0, at as int),
            forall|i: int|
                0 <= i < blocks@.len() ==> (#[trigger] block_views(blocks@)[i]).id == id@,
            forall|i: int|
                0 <= i < blocks@.len() ==> (#[trigger] block_views(blocks@)[i]).data.len()
                    == block_len,
        decreases total - at,
    {
        let end: usize = if total - at < block_len {
            total
        } else {
            at + block_len
        };
        let chunk: Vec<u8> = vstd::slice::slice_to_vec(vstd::slice::slice_subrange(data, at, end));
        let ghost before = block_views(blocks@);
        let block = EndPointFileTransferBlock { id: id.to_owned(), data: chunk };
        let ghost added = block@;
        blocks.push(block);
        proof {
            let after = block_views(blocks@);
            assert(after =~= before.push(added));
            assert(after.drop_last() =~= before);
            assert(data@.subrange(0, at as int) + data@.subrange(at as int, end as int)
                =~= data@.subrange(0, end as int));
        }
        if end == total {
            proof {
                assert forall|i: int| 0 <= i < block_views(blocks@).len() implies 0 < (
                #[trigger] block_views(blocks@)[i]).data.len() <= block_len by {
                    if i < before.len() {
                        assert(block_views(blocks@)[i] == before[i]);
                    }
                }
                assert forall|i: int| 0 <= i < block_views(blocks@).len() - 1 implies (
                #[trigger] block_views(blocks@)[i]).data.len() == block_len by {
                    assert(block_views(blocks@)[i] == before[i]);
                }
                assert forall|i: int| 0 <= i < block_views(blocks@).len() implies (
                #[trigger] block_views(blocks@)[i]).id == id@ by {
                    if i < before.len() {
                        assert(block_views(blocks@)[i] == before[i]);
                    }
                }
                assert(data@.subrange(0, total as int) =~= data@);
            }
            return Some(blocks);
        }
        proof {
            assert forall|i: int| 0 <= i < blocks@.len() implies (#[trigger] block_views(
                blocks@,
            )[i]).data.len() == block_len by {
                if i < before.len() {
                    assert(block_views(blocks@)[i] == before[i]);
                }
            }
            assert forall|i: int| 0 <= i < blocks@.len() implies (#[trigger] block_views(
                blocks@,
            )[i]).id == id@ by {
                if i < before.len() {
                    assert(block_views(blocks@)[i] == before[i]);
                }
            }
        }
        at = end;
    }
    assert(data@.subrange(0, at as int) =~= data@);
    Some(blocks)
}

} // verus!
