//! The messages of a file transfer.

use vstd::prelude::*;
use crate::codec::primitives::{
    got, lemma_concat_assoc, lemma_parse_bytes, lemma_parse_string, lemma_parse_u64,
    parse_bytes, parse_string, parse_u64, read_bytes, read_string, read_u64, reads, ser_bytes,
    ser_string, ser_u64, write_bytes, write_string, write_u64,
};
use crate::message::{
    EndPointDownloadFileReply, EndPointDownloadFileRequest, EndPointDownloadFileRequestView,
    EndPointFileTransferBlock, EndPointFileTransferBlockView, EndPointFileTransferError,
    EndPointFileTransferErrorView, EndPointSendFileRequest, EndPointSendFileRequestView,
};

verus! {

/// The binary form of a download request: its fields in order.
#[verifier::opaque]
pub open spec fn ser_download_file_request(value: EndPointDownloadFileRequestView) -> Seq<u8> {
    ser_string(value.id)
        + ser_string(value.path)
}

/// What `bytes` starts with, read as a download request, and what follows it.
#[verifier::opaque]
pub open spec fn parse_download_file_request(
    bytes: Seq<u8>,
) -> Option<(EndPointDownloadFileRequestView, Seq<u8>)> {
    let id = parse_string(bytes);
    let path = parse_string(id.unwrap().1);
    if id is Some && path is Some {
        Some(
            (
                EndPointDownloadFileRequestView {
                    id: id.unwrap().0,
                    path: path.unwrap().0,
                },
                path.unwrap().1,
            ),
        )
    } else {
        None
    }
}

/// Parsing undoes serializing, whatever follows.
pub proof fn lemma_parse_download_file_request(
    value: EndPointDownloadFileRequestView,
    rest: Seq<u8>,
)
    requires
        value.fits(),
    ensures
        parse_download_file_request(ser_download_file_request(value) + rest) == Some((value, rest)),
{
    reveal(ser_download_file_request);
    reveal(parse_download_file_request);
    let after_id = ser_string(value.path) + rest;
    let upto_id = ser_string(value.id);
    lemma_concat_assoc(upto_id, ser_string(value.path), rest);
    lemma_parse_string(value.id, after_id);
    lemma_parse_string(value.path, rest);
}

/// Appends the binary form of `value` to `out`.
pub fn write_download_file_request(out: &mut Vec<u8>, value: &EndPointDownloadFileRequest)
    ensures
        final(out)@ == old(out)@ + ser_download_file_request(value@),
        value@.fits(),
{
    proof {
        reveal(ser_download_file_request);
    }
    write_string(out, value.id.as_str());
    write_string(out, value.path.as_str());
    assert(out@ =~= old(out)@ + ser_download_file_request(value@));
}

/// Reads a download request at `pos`. Returns it with the position behind it.
pub fn read_download_file_request(
    bytes: &[u8],
    pos: usize,
) -> (r: Option<(EndPointDownloadFileRequest, usize)>)
    ensures
        reads(bytes@, pos as int, parse_download_file_request(bytes@.skip(pos as int)), got(r)),
{
    proof {
        reveal(parse_download_file_request);
    }
    let (id, pos0) = read_string(bytes, pos)?;
    let (path, pos1) = read_string(bytes, pos0)?;
    Some((EndPointDownloadFileRequest { id, path }, pos1))
}

/// The binary form of the answer to a download request: its fields in order.
#[verifier::opaque]
pub open spec fn ser_download_file_reply(value: EndPointDownloadFileReply) -> Seq<u8> {
    ser_u64(value.size)
}

/// What `bytes` starts with, read as the answer to a download request, and what follows it.
#[verifier::opaque]
pub open spec fn parse_download_file_reply(
    bytes: Seq<u8>,
) -> Option<(EndPointDownloadFileReply, Seq<u8>)> {
    let size = parse_u64(bytes);
    if size is Some {
        Some(
            (
                EndPointDownloadFileReply {
                    size: size.unwrap().0,
                },
                size.unwrap().1,
            ),
        )
    } else {
        None
    }
}

/// Parsing undoes serializing, whatever follows.
pub proof fn lemma_parse_download_file_reply(value: EndPointDownloadFileReply, rest: Seq<u8>)
    ensures
        parse_download_file_reply(ser_download_file_reply(value) + rest) == Some((value, rest)),
{
    reveal(ser_download_file_reply);
    reveal(parse_download_file_reply);
    lemma_parse_u64(value.size, rest);
}

/// Appends the binary form of `value` to `out`.
pub fn write_download_file_reply(out: &mut Vec<u8>, value: &EndPointDownloadFileReply)
    ensures
        final(out)@ == old(out)@ + ser_download_file_reply(*value),
{
    proof {
        reveal(ser_download_file_reply);
    }
    write_u64(out, value.size);
}

/// Reads the answer to a download request at `pos`. Returns it with the position behind it.
pub fn read_download_file_reply(
    bytes: &[u8],
    pos: usize,
) -> (r: Option<(EndPointDownloadFileReply, usize)>)
    ensures
        reads(bytes@, pos as int, parse_download_file_reply(bytes@.skip(pos as int)), got(r)),
{
    proof {
        reveal(parse_download_file_reply);
    }
    let (size, pos0) = read_u64(bytes, pos)?;
    Some((EndPointDownloadFileReply { size }, pos0))
}

/// The binary form of the announcement of a file: its fields in order.
#[verifier::opaque]
pub open spec fn ser_send_file_request(value: EndPointSendFileRequestView) -> Seq<u8> {
    ser_string(value.id)
        + ser_string(value.filename)
        + ser_u64(value.size)
}

/// What `bytes` starts with, read as the announcement of a file, and what follows it.
#[verifier::opaque]
pub open spec fn parse_send_file_request(
    bytes: Seq<u8>,
) -> Option<(EndPointSendFileRequestView, Seq<u8>)> {
    let id = parse_string(bytes);
    let filename = parse_string(id.unwrap().1);
    let size = parse_u64(filename.unwrap().1);
    if id is Some && filename is Some && size is Some {
        Some(
            (
                EndPointSendFileRequestView {
                    id: id.unwrap().0,
                    filename: filename.unwrap().0,
                    size: size.unwrap().0,
                },
                size.unwrap().1,
            ),
        )
    } else {
        None
    }
}

/// Parsing undoes serializing, whatever follows.
pub proof fn lemma_parse_send_file_request(value: EndPointSendFileRequestView, rest: Seq<u8>)
    requires
        value.fits(),
    ensures
        parse_send_file_request(ser_send_file_request(value) + rest) == Some((value, rest)),
{
    reveal(ser_send_file_request);
    reveal(parse_send_file_request);
    let after_filename = ser_u64(value.size) + rest;
    let after_id = ser_string(value.filename) + after_filename;
    let upto_id = ser_string(value.id);
    let upto_filename = upto_id + ser_string(value.filename);
    lemma_concat_assoc(upto_filename, ser_u64(value.size), rest);
    lemma_concat_assoc(upto_id, ser_string(value.filename), after_filename);
    lemma_parse_string(value.id, after_id);
    lemma_parse_string(value.filename, after_filename);
    lemma_parse_u64(value.size, rest);
}

/// Appends the binary form of `value` to `out`.
pub fn write_send_file_request(out: &mut Vec<u8>, value: &EndPointSendFileRequest)
    ensures
        final(out)@ == old(out)@ + ser_send_file_request(value@),
        value@.fits(),
{
    proof {
        reveal(ser_send_file_request);
    }
    write_string(out, value.id.as_str());
    write_string(out, value.filename.as_str());
    write_u64(out, value.size);
    assert(out@ =~= old(out)@ + ser_send_file_request(value@));
}

/// Reads the announcement of a file at `pos`. Returns it with the position behind it.
pub fn read_send_file_request(
    bytes: &[u8],
    pos: usize,
) -> (r: Option<(EndPointSendFileRequest, usize)>)
    ensures
        reads(bytes@, pos as int, parse_send_file_request(bytes@.skip(pos as int)), got(r)),
{
    proof {
        reveal(parse_send_file_request);
    }
    let (id, pos0) = read_string(bytes, pos)?;
    let (filename, pos1) = read_string(bytes, pos0)?;
    let (size, pos2) = read_u64(bytes, pos1)?;
    Some((EndPointSendFileRequest { id, filename, size }, pos2))
}

/// The binary form of a block of a file: its fields in order.
#[verifier::opaque]
pub open spec fn ser_file_transfer_block(value: EndPointFileTransferBlockView) -> Seq<u8> {
    ser_string(value.id)
        + ser_bytes(value.data)
}

/// What `bytes` starts with, read as a block of a file, and what follows it.
#[verifier::opaque]
pub open spec fn parse_file_transfer_block(
    bytes: Seq<u8>,
) -> Option<(EndPointFileTransferBlockView, Seq<u8>)> {
    let id = parse_string(bytes);
    let data = parse_bytes(id.unwrap().1);
    if id is Some && data is Some {
        Some(
            (
                EndPointFileTransferBlockView {
                    id: id.unwrap().0,
                    data: data.unwrap().0,
                },
                data.unwrap().1,
            ),
        )
    } else {
        None
    }
}

/// Parsing undoes serializing, whatever follows.
pub proof fn lemma_parse_file_transfer_block(value: EndPointFileTransferBlockView, rest: Seq<u8>)
    requires
        value.fits(),
    ensures
        parse_file_transfer_block(ser_file_transfer_block(value) + rest) == Some((value, rest)),
{
    reveal(ser_file_transfer_block);
    reveal(parse_file_transfer_block);
    let after_id = ser_bytes(value.data) + rest;
    let upto_id = ser_string(value.id);
    lemma_concat_assoc(upto_id, ser_bytes(value.data), rest);
    lemma_parse_string(value.id, after_id);
    lemma_parse_bytes(value.data, rest);
}

/// Appends the binary form of `value` to `out`.
pub fn write_file_transfer_block(out: &mut Vec<u8>, value: &EndPointFileTransferBlock)
    ensures
        final(out)@ == old(out)@ + ser_file_transfer_block(value@),
        value@.fits(),
{
    proof {
        reveal(ser_file_transfer_block);
    }
    write_string(out, value.id.as_str());
    write_bytes(out, value.data.as_slice());
    assert(out@ =~= old(out)@ + ser_file_transfer_block(value@));
}

/// Reads a block of a file at `pos`. Returns it with the position behind it.
pub fn read_file_transfer_block(
    bytes: &[u8],
    pos: usize,
) -> (r: Option<(EndPointFileTransferBlock, usize)>)
    ensures
        reads(bytes@, pos as int, parse_file_transfer_block(bytes@.skip(pos as int)), got(r)),
{
    proof {
        reveal(parse_file_transfer_block);
    }
    let (id, pos0) = read_string(bytes, pos)?;
    let (data, pos1) = read_bytes(bytes, pos0)?;
    Some((EndPointFileTransferBlock { id, data }, pos1))
}

/// The binary form of the abnormal end of a transfer: its fields in order.
#[verifier::opaque]
pub open spec fn ser_file_transfer_error(value: EndPointFileTransferErrorView) -> Seq<u8> {
    ser_string(value.id)
}

/// What `bytes` starts with, read as the abnormal end of a transfer, and what follows it.
#[verifier::opaque]
pub open spec fn parse_file_transfer_error(
    bytes: Seq<u8>,
) -> Option<(EndPointFileTransferErrorView, Seq<u8>)> {
    let id = parse_string(bytes);
    if id is Some {
        Some(
            (
                EndPointFileTransferErrorView {
                    id: id.unwrap().0,
                },
                id.unwrap().1,
            ),
        )
    } else {
        None
    }
}

/// Parsing undoes serializing, whatever follows.
pub proof fn lemma_parse_file_transfer_error(value: EndPointFileTransferErrorView, rest: Seq<u8>)
    requires
        value.fits(),
    ensures
        parse_file_transfer_error(ser_file_transfer_error(value) + rest) == Some((value, rest)),
{
    reveal(ser_file_transfer_error);
    reveal(parse_file_transfer_error);
    lemma_parse_string(value.id, rest);
}

/// Appends the binary form of `value` to `out`.
pub fn write_file_transfer_error(out: &mut Vec<u8>, value: &EndPointFileTransferError)
    ensures
        final(out)@ == old(out)@ + ser_file_transfer_error(value@),
        value@.fits(),
{
    proof {
        reveal(ser_file_transfer_error);
    }
    write_string(out, value.id.as_str());
}

/// Reads the abnormal end of a transfer at `pos`. Returns it with the position behind it.
pub fn read_file_transfer_error(
    bytes: &[u8],
    pos: usize,
) -> (r: Option<(EndPointFileTransferError, usize)>)
    ensures
        reads(bytes@, pos as int, parse_file_transfer_error(bytes@.skip(pos as int)), got(r)),
{
    proof {
        reveal(parse_file_transfer_error);
    }
    let (id, pos0) = read_string(bytes, pos)?;
    Some((EndPointFileTransferError { id }, pos0))
}

} // verus!
