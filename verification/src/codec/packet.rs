//! The message as a whole and the packet around it.

use vstd::prelude::*;
use crate::codec::file::{
    lemma_parse_download_file_reply, lemma_parse_download_file_request,
    lemma_parse_file_transfer_block, lemma_parse_file_transfer_error,
    lemma_parse_send_file_request, parse_download_file_reply, parse_download_file_request,
    parse_file_transfer_block, parse_file_transfer_error, parse_send_file_request,
    read_download_file_reply, read_download_file_request, read_file_transfer_block,
    read_file_transfer_error, read_send_file_request, ser_download_file_reply,
    ser_download_file_request, ser_file_transfer_block, ser_file_transfer_error,
    ser_send_file_request, write_download_file_reply, write_download_file_request,
    write_file_transfer_block, write_file_transfer_error, write_send_file_request,
};
use crate::codec::input::{lemma_parse_input, parse_input, read_input, ser_input, write_input};
use crate::codec::media::{
    lemma_parse_audio_frame, lemma_parse_video_frame, parse_audio_frame, parse_video_frame,
    read_audio_frame, read_video_frame, ser_audio_frame, ser_video_frame, write_audio_frame,
    write_video_frame,
};
use crate::codec::negotiate::{
    lemma_parse_finished_request, lemma_parse_params_request, lemma_parse_params_response,
    lemma_parse_select_monitor_response, parse_finished_request, parse_params_request,
    parse_params_response, parse_select_monitor_response, read_finished_request,
    read_params_request, read_params_response, read_select_monitor_response,
    ser_finished_request, ser_params_request, ser_params_response, ser_select_monitor_response,
    write_finished_request, write_params_request, write_params_response,
    write_select_monitor_response,
};
use crate::codec::primitives::{
    got, lemma_concat_assoc, lemma_parse_i64, lemma_parse_opt_u16, lemma_parse_string,
    lemma_parse_u32, parse_i64, parse_opt_u16, parse_string, parse_u32, read_i64, read_opt_u16,
    read_string, read_u32, reads, ser_i64, ser_opt_u16, ser_string, ser_u32, write_i64,
    write_opt_u16, write_string, write_u32,
};
use crate::message::{
    EndPointHandshakeRequest, EndPointHandshakeRequestView, EndPointHandshakeResponse,
    EndPointMessage, EndPointMessagePacket, EndPointMessagePacketType,
    EndPointMessagePacketView, EndPointMessageView, EndPointNegotiateFinishedResponse,
    EndPointNegotiateSelectMonitorRequest, EndPointSendFileReply,
};

verus! {

/// The binary form of a handshake request: its fields in order.
#[verifier::opaque]
pub open spec fn ser_handshake_request(value: EndPointHandshakeRequestView) -> Seq<u8> {
    ser_i64(value.active_device_id)
        + ser_i64(value.passive_device_id)
        + ser_string(value.visit_credentials)
}

/// What `bytes` starts with, read as a handshake request, and what follows it.
#[verifier::opaque]
pub open spec fn parse_handshake_request(
    bytes: Seq<u8>,
) -> Option<(EndPointHandshakeRequestView, Seq<u8>)> {
    let active_device_id = parse_i64(bytes);
    let passive_device_id = parse_i64(active_device_id.unwrap().1);
    let visit_credentials = parse_string(passive_device_id.unwrap().1);
    if active_device_id is Some && passive_device_id is Some && visit_credentials is Some {
        Some(
            (
                EndPointHandshakeRequestView {
                    active_device_id: active_device_id.unwrap().0,
                    passive_device_id: passive_device_id.unwrap().0,
                    visit_credentials: visit_credentials.unwrap().0,
                },
                visit_credentials.unwrap().1,
            ),
        )
    } else {
        None
    }
}

/// Parsing undoes serializing, whatever follows.
pub proof fn lemma_parse_handshake_request(value: EndPointHandshakeRequestView, rest: Seq<u8>)
    requires
        value.fits(),
    ensures
        parse_handshake_request(ser_handshake_request(value) + rest) == Some((value, rest)),
{
    reveal(ser_handshake_request);
    reveal(parse_handshake_request);
    let after_passive_device_id = ser_string(value.visit_credentials) + rest;
    let after_active_device_id = ser_i64(value.passive_device_id) + after_passive_device_id;
    let upto_active_device_id = ser_i64(value.active_device_id);
    let upto_passive_device_id = upto_active_device_id + ser_i64(value.passive_device_id);
    lemma_concat_assoc(upto_passive_device_id, ser_string(value.visit_credentials), rest);
    lemma_concat_assoc(
        upto_active_device_id,
        ser_i64(value.passive_device_id),
        after_passive_device_id,
    );
    lemma_parse_i64(value.active_device_id, after_active_device_id);
    lemma_parse_i64(value.passive_device_id, after_passive_device_id);
    lemma_parse_string(value.visit_credentials, rest);
}

/// Appends the binary form of `value` to `out`.
pub fn write_handshake_request(out: &mut Vec<u8>, value: &EndPointHandshakeRequest)
    ensures
        final(out)@ == old(out)@ + ser_handshake_request(value@),
        value@.fits(),
{
    proof {
        reveal(ser_handshake_request);
    }
    write_i64(out, value.active_device_id);
    write_i64(out, value.passive_device_id);
    write_string(out, value.visit_credentials.as_str());
    assert(out@ =~= old(out)@ + ser_handshake_request(value@));
}

/// Reads a handshake request at `pos`. Returns it with the position behind it.
pub fn read_handshake_request(
    bytes: &[u8],
    pos: usize,
) -> (r: Option<(EndPointHandshakeRequest, usize)>)
    ensures
        reads(bytes@, pos as int, parse_handshake_request(bytes@.skip(pos as int)), got(r)),
{
    proof {
        reveal(parse_handshake_request);
    }
    let (active_device_id, pos0) = read_i64(bytes, pos)?;
    let (passive_device_id, pos1) = read_i64(bytes, pos0)?;
    let (visit_credentials, pos2) = read_string(bytes, pos1)?;
    Some(
        (EndPointHandshakeRequest { active_device_id, passive_device_id, visit_credentials }, pos2)
    )
}

/// The binary form of a message: the number of the variant as a `u32`, then what it holds.
#[verifier::opaque]
pub open spec fn ser_message(value: EndPointMessageView) -> Seq<u8> {
    match value {
        EndPointMessageView::Error => ser_u32(0),
        EndPointMessageView::NegotiateVisitDesktopParamsRequest(m) => ser_u32(1)
            + ser_params_request(m),
        EndPointMessageView::NegotiateVisitDesktopParamsResponse(m) => ser_u32(2)
            + ser_params_response(m),
        EndPointMessageView::NegotiateSelectMonitorRequest(_) => ser_u32(3),
        EndPointMessageView::NegotiateSelectMonitorResponse(m) => ser_u32(4)
            + ser_select_monitor_response(m),
        EndPointMessageView::NegotiateFinishedRequest(m) => ser_u32(5) + ser_finished_request(m),
        EndPointMessageView::NegotiateFinishedResponse(_) => ser_u32(6),
        EndPointMessageView::VideoFrame(m) => ser_u32(7) + ser_video_frame(m),
        EndPointMessageView::AudioFrame(m) => ser_u32(8) + ser_audio_frame(m),
        EndPointMessageView::Input(m) => ser_u32(9) + ser_input(m),
        EndPointMessageView::HandshakeRequest(m) => ser_u32(10) + ser_handshake_request(m),
        EndPointMessageView::HandshakeResponse(_) => ser_u32(11),
        EndPointMessageView::DownloadFileRequest(m) => ser_u32(12) + ser_download_file_request(m),
        EndPointMessageView::DownloadFileReply(m) => ser_u32(13) + ser_download_file_reply(m),
        EndPointMessageView::SendFileRequest(m) => ser_u32(14) + ser_send_file_request(m),
        EndPointMessageView::SendFileReply(_) => ser_u32(15),
        EndPointMessageView::FileTransferBlock(m) => ser_u32(16) + ser_file_transfer_block(m),
        EndPointMessageView::FileTransferError(m) => ser_u32(17) + ser_file_transfer_error(m),
    }
}

/// What `bytes` starts with, read as a message, and what follows it.
#[verifier::opaque]
pub open spec fn parse_message(bytes: Seq<u8>) -> Option<(EndPointMessageView, Seq<u8>)> {
    match parse_u32(bytes) {
        Some((tag, rest)) => {
            if tag == 0 {
                Some((EndPointMessageView::Error, rest))
            } else if tag == 1 {
                match parse_params_request(rest) {
                    Some((m, rest2)) => {
                        Some((EndPointMessageView::NegotiateVisitDesktopParamsRequest(m), rest2))
                    },
                    None => None,
                }
            } else if tag == 2 {
                match parse_params_response(rest) {
                    Some((m, rest2)) => {
                        Some((EndPointMessageView::NegotiateVisitDesktopParamsResponse(m), rest2))
                    },
                    None => None,
                }
            } else if tag == 3 {
                Some(
                    (
                        EndPointMessageView::NegotiateSelectMonitorRequest(
                            EndPointNegotiateSelectMonitorRequest {}
                        ),
                        rest,
                    )
                )
            } else if tag == 4 {
                match parse_select_monitor_response(rest) {
                    Some((m, rest2)) => {
                        Some((EndPointMessageView::NegotiateSelectMonitorResponse(m), rest2))
                    },
                    None => None,
                }
            } else if tag == 5 {
                match parse_finished_request(rest) {
                    Some((m, rest2)) => {
                        Some((EndPointMessageView::NegotiateFinishedRequest(m), rest2))
                    },
                    None => None,
                }
            } else if tag == 6 {
                Some(
                    (
                        EndPointMessageView::NegotiateFinishedResponse(
                            EndPointNegotiateFinishedResponse {}
                        ),
                        rest,
                    )
                )
            } else if tag == 7 {
                match parse_video_frame(rest) {
                    Some((m, rest2)) => Some((EndPointMessageView::VideoFrame(m), rest2)),
                    None => None,
                }
            } else if tag == 8 {
                match parse_audio_frame(rest) {
                    Some((m, rest2)) => Some((EndPointMessageView::AudioFrame(m), rest2)),
                    None => None,
                }
            } else if tag == 9 {
                match parse_input(rest) {
                    Some((m, rest2)) => Some((EndPointMessageView::Input(m), rest2)),
                    None => None,
                }
            } else if tag == 10 {
                match parse_handshake_request(rest) {
                    Some((m, rest2)) => Some((EndPointMessageView::HandshakeRequest(m), rest2)),
                    None => None,
                }
            } else if tag == 11 {
                Some((EndPointMessageView::HandshakeResponse(EndPointHandshakeResponse {}), rest))
            } else if tag == 12 {
                match parse_download_file_request(rest) {
                    Some((m, rest2)) => Some((EndPointMessageView::DownloadFileRequest(m), rest2)),
                    None => None,
                }
            } else if tag == 13 {
                match parse_download_file_reply(rest) {
                    Some((m, rest2)) => Some((EndPointMessageView::DownloadFileReply(m), rest2)),
                    None => None,
                }
            } else if tag == 14 {
                match parse_send_file_request(rest) {
                    Some((m, rest2)) => Some((EndPointMessageView::SendFileRequest(m), rest2)),
                    None => None,
                }
            } else if tag == 15 {
                Some((EndPointMessageView::SendFileReply(EndPointSendFileReply {}), rest))
            } else if tag == 16 {
                match parse_file_transfer_block(rest) {
                    Some((m, rest2)) => Some((EndPointMessageView::FileTransferBlock(m), rest2)),
                    None => None,
                }
            } else if tag == 17 {
                match parse_file_transfer_error(rest) {
                    Some((m, rest2)) => Some((EndPointMessageView::FileTransferError(m), rest2)),
                    None => None,
                }
            } else {
                None
            }
        },
        None => None,
    }
}

/// Parsing undoes serializing, whatever follows.
pub proof fn lemma_parse_message(value: EndPointMessageView, rest: Seq<u8>)
    requires
        value.fits(),
    ensures
        parse_message(ser_message(value) + rest) == Some((value, rest)),
{
    reveal(ser_message);
    reveal(parse_message);
    match value {
        EndPointMessageView::Error => {
            lemma_parse_u32(0, rest);
        },
        EndPointMessageView::NegotiateVisitDesktopParamsRequest(m) => {
            let after0 = ser_params_request(m) + rest;
            let upto0 = ser_u32(1);
            lemma_concat_assoc(upto0, ser_params_request(m), rest);
            lemma_parse_u32(1, after0);
            lemma_parse_params_request(m, rest);
        },
        EndPointMessageView::NegotiateVisitDesktopParamsResponse(m) => {
            let after0 = ser_params_response(m) + rest;
            let upto0 = ser_u32(2);
            lemma_concat_assoc(upto0, ser_params_response(m), rest);
            lemma_parse_u32(2, after0);
            lemma_parse_params_response(m, rest);
        },
        EndPointMessageView::NegotiateSelectMonitorRequest(_) => {
            lemma_parse_u32(3, rest);
        },
        EndPointMessageView::NegotiateSelectMonitorResponse(m) => {
            let after0 = ser_select_monitor_response(m) + rest;
            let upto0 = ser_u32(4);
            lemma_concat_assoc(upto0, ser_select_monitor_response(m), rest);
            lemma_parse_u32(4, after0);
            lemma_parse_select_monitor_response(m, rest);
        },
        EndPointMessageView::NegotiateFinishedRequest(m) => {
            let after0 = ser_finished_request(m) + rest;
            let upto0 = ser_u32(5);
            lemma_concat_assoc(upto0, ser_finished_request(m), rest);
            lemma_parse_u32(5, after0);
            lemma_parse_finished_request(m, rest);
        },
        EndPointMessageView::NegotiateFinishedResponse(_) => {
            lemma_parse_u32(6, rest);
        },
        EndPointMessageView::VideoFrame(m) => {
            let after0 = ser_video_frame(m) + rest;
            let upto0 = ser_u32(7);
            lemma_concat_assoc(upto0, ser_video_frame(m), rest);
            lemma_parse_u32(7, after0);
            lemma_parse_video_frame(m, rest);
        },
        EndPointMessageView::AudioFrame(m) => {
            let after0 = ser_audio_frame(m) + rest;
            let upto0 = ser_u32(8);
            lemma_concat_assoc(upto0, ser_audio_frame(m), rest);
            lemma_parse_u32(8, after0);
            lemma_parse_audio_frame(m, rest);
        },
        EndPointMessageView::Input(m) => {
            let after0 = ser_input(m) + rest;
            let upto0 = ser_u32(9);
            lemma_concat_assoc(upto0, ser_input(m), rest);
            lemma_parse_u32(9, after0);
            lemma_parse_input(m, rest);
        },
        EndPointMessageView::HandshakeRequest(m) => {
            let after0 = ser_handshake_request(m) + rest;
            let upto0 = ser_u32(10);
            lemma_concat_assoc(upto0, ser_handshake_request(m), rest);
            lemma_parse_u32(10, after0);
            lemma_parse_handshake_request(m, rest);
        },
        EndPointMessageView::HandshakeResponse(_) => {
            lemma_parse_u32(11, rest);
        },
        EndPointMessageView::DownloadFileRequest(m) => {
            let after0 = ser_download_file_request(m) + rest;
            let upto0 = ser_u32(12);
            lemma_concat_assoc(upto0, ser_download_file_request(m), rest);
            lemma_parse_u32(12, after0);
            lemma_parse_download_file_request(m, rest);
        },
        EndPointMessageView::DownloadFileReply(m) => {
            let after0 = ser_download_file_reply(m) + rest;
            let upto0 = ser_u32(13);
            lemma_concat_assoc(upto0, ser_download_file_reply(m), rest);
            lemma_parse_u32(13, after0);
            lemma_parse_download_file_reply(m, rest);
        },
        EndPointMessageView::SendFileRequest(m) => {
            let after0 = ser_send_file_request(m) + rest;
            let upto0 = ser_u32(14);
            lemma_concat_assoc(upto0, ser_send_file_request(m), rest);
            lemma_parse_u32(14, after0);
            lemma_parse_send_file_request(m, rest);
        },
        EndPointMessageView::SendFileReply(_) => {
            lemma_parse_u32(15, rest);
        },
        EndPointMessageView::FileTransferBlock(m) => {
            let after0 = ser_file_transfer_block(m) + rest;
            let upto0 = ser_u32(16);
            lemma_concat_assoc(upto0, ser_file_transfer_block(m), rest);
            lemma_parse_u32(16, after0);
            lemma_parse_file_transfer_block(m, rest);
        },
        EndPointMessageView::FileTransferError(m) => {
            let after0 = ser_file_transfer_error(m) + rest;
            let upto0 = ser_u32(17);
            lemma_concat_assoc(upto0, ser_file_transfer_error(m), rest);
            lemma_parse_u32(17, after0);
            lemma_parse_file_transfer_error(m, rest);
        },
    }
}

/// Appends the binary form of `value` to `out`.
pub fn write_message(out: &mut Vec<u8>, value: &EndPointMessage)
    ensures
        final(out)@ == old(out)@ + ser_message(value@),
        value@.fits(),
{
    proof {
        reveal(ser_message);
    }
    match value {
        EndPointMessage::Error => {
            write_u32(out, 0);
        },
        EndPointMessage::NegotiateVisitDesktopParamsRequest(m) => {
            write_u32(out, 1);
            write_params_request(out, m);
            assert(out@ =~= old(out)@ + ser_message(value@));
        },
        EndPointMessage::NegotiateVisitDesktopParamsResponse(m) => {
            write_u32(out, 2);
            write_params_response(out, m);
            assert(out@ =~= old(out)@ + ser_message(value@));
        },
        EndPointMessage::NegotiateSelectMonitorRequest(_) => {
            write_u32(out, 3);
        },
        EndPointMessage::NegotiateSelectMonitorResponse(m) => {
            write_u32(out, 4);
            write_select_monitor_response(out, m);
            assert(out@ =~= old(out)@ + ser_message(value@));
        },
        EndPointMessage::NegotiateFinishedRequest(m) => {
            write_u32(out, 5);
            write_finished_request(out, m);
            assert(out@ =~= old(out)@ + ser_message(value@));
        },
        EndPointMessage::NegotiateFinishedResponse(_) => {
            write_u32(out, 6);
        },
        EndPointMessage::VideoFrame(m) => {
            write_u32(out, 7);
            write_video_frame(out, m);
            assert(out@ =~= old(out)@ + ser_message(value@));
        },
        EndPointMessage::AudioFrame(m) => {
            write_u32(out, 8);
            write_audio_frame(out, m);
            assert(out@ =~= old(out)@ + ser_message(value@));
        },
        EndPointMessage::Input(m) => {
            write_u32(out, 9);
            write_input(out, m);
            assert(out@ =~= old(out)@ + ser_message(value@));
        },
        EndPointMessage::HandshakeRequest(m) => {
            write_u32(out, 10);
            write_handshake_request(out, m);
            assert(out@ =~= old(out)@ + ser_message(value@));
        },
        EndPointMessage::HandshakeResponse(_) => {
            write_u32(out, 11);
        },
        EndPointMessage::DownloadFileRequest(m) => {
            write_u32(out, 12);
            write_download_file_request(out, m);
            assert(out@ =~= old(out)@ + ser_message(value@));
        },
        EndPointMessage::DownloadFileReply(m) => {
            write_u32(out, 13);
            write_download_file_reply(out, m);
            assert(out@ =~= old(out)@ + ser_message(value@));
        },
        EndPointMessage::SendFileRequest(m) => {
            write_u32(out, 14);
            write_send_file_request(out, m);
            assert(out@ =~= old(out)@ + ser_message(value@));
        },
        EndPointMessage::SendFileReply(_) => {
            write_u32(out, 15);
        },
        EndPointMessage::FileTransferBlock(m) => {
            write_u32(out, 16);
            write_file_transfer_block(out, m);
            assert(out@ =~= old(out)@ + ser_message(value@));
        },
        EndPointMessage::FileTransferError(m) => {
            write_u32(out, 17);
            write_file_transfer_error(out, m);
            assert(out@ =~= old(out)@ + ser_message(value@));
        },
    }
}

/// Reads a message at `pos`. Returns it with the position behind it.
pub fn read_message(bytes: &[u8], pos: usize) -> (r: Option<(EndPointMessage, usize)>)
    ensures
        reads(bytes@, pos as int, parse_message(bytes@.skip(pos as int)), got(r)),
{
    proof {
        reveal(parse_message);
    }
    let (tag, start) = read_u32(bytes, pos)?;
    match tag {
        0 => Some((EndPointMessage::Error, start)),
        1 => {
            let (m, pos0) = read_params_request(bytes, start)?;
            Some((EndPointMessage::NegotiateVisitDesktopParamsRequest(m), pos0))
        },
        2 => {
            let (m, pos0) = read_params_response(bytes, start)?;
            Some((EndPointMessage::NegotiateVisitDesktopParamsResponse(m), pos0))
        },
        3 => {
            Some(
                (
                    EndPointMessage::NegotiateSelectMonitorRequest(
                        EndPointNegotiateSelectMonitorRequest {}
                    ),
                    start,
                )
            )
        },
        4 => {
            let (m, pos0) = read_select_monitor_response(bytes, start)?;
            Some((EndPointMessage::NegotiateSelectMonitorResponse(m), pos0))
        },
        5 => {
            let (m, pos0) = read_finished_request(bytes, start)?;
            Some((EndPointMessage::NegotiateFinishedRequest(m), pos0))
        },
        6 => {
            Some(
                (
                    EndPointMessage::NegotiateFinishedResponse(
                        EndPointNegotiateFinishedResponse {}
                    ),
                    start,
                )
            )
        },
        7 => {
            let (m, pos0) = read_video_frame(bytes, start)?;
            Some((EndPointMessage::VideoFrame(m), pos0))
        },
        8 => {
            let (m, pos0) = read_audio_frame(bytes, start)?;
            Some((EndPointMessage::AudioFrame(m), pos0))
        },
        9 => {
            let (m, pos0) = read_input(bytes, start)?;
            Some((EndPointMessage::Input(m), pos0))
        },
        10 => {
            let (m, pos0) = read_handshake_request(bytes, start)?;
            Some((EndPointMessage::HandshakeRequest(m), pos0))
        },
        11 => Some((EndPointMessage::HandshakeResponse(EndPointHandshakeResponse {}), start)),
        12 => {
            let (m, pos0) = read_download_file_request(bytes, start)?;
            Some((EndPointMessage::DownloadFileRequest(m), pos0))
        },
        13 => {
            let (m, pos0) = read_download_file_reply(bytes, start)?;
            Some((EndPointMessage::DownloadFileReply(m), pos0))
        },
        14 => {
            let (m, pos0) = read_send_file_request(bytes, start)?;
            Some((EndPointMessage::SendFileRequest(m), pos0))
        },
        15 => Some((EndPointMessage::SendFileReply(EndPointSendFileReply {}), start)),
        16 => {
            let (m, pos0) = read_file_transfer_block(bytes, start)?;
            Some((EndPointMessage::FileTransferBlock(m), pos0))
        },
        17 => {
            let (m, pos0) = read_file_transfer_error(bytes, start)?;
            Some((EndPointMessage::FileTransferError(m), pos0))
        },
        _ => None,
    }
}

/// The number that stands for the role of a packet.
pub open spec fn packet_type_code(value: EndPointMessagePacketType) -> u32 {
    match value {
        EndPointMessagePacketType::Request => 0,
        EndPointMessagePacketType::Response => 1,
        EndPointMessagePacketType::Push => 2,
    }
}

/// The inverse of `packet_type_code`; `None` for a number that stands for nothing.
pub open spec fn packet_type_of_code(code: u32) -> Option<EndPointMessagePacketType> {
    if code >= 3 {
        None
    } else {
        Some(packet_type_at(code))
    }
}

/// The variant with a given number, for numbers below 3.
pub open spec fn packet_type_at(code: u32) -> EndPointMessagePacketType {
    if code == 0 {
        EndPointMessagePacketType::Request
    } else if code == 1 {
        EndPointMessagePacketType::Response
    } else {
        EndPointMessagePacketType::Push
    }
}

impl EndPointMessagePacketType {
    /// The number that stands for this value on the wire.
    pub fn code(&self) -> (code: u32)
        ensures
            code == packet_type_code(*self),
    {
        match self {
            EndPointMessagePacketType::Request => 0,
            EndPointMessagePacketType::Response => 1,
            EndPointMessagePacketType::Push => 2,
        }
    }

    /// The value that `code` stands for, if any.
    pub fn from_code(code: u32) -> (value: Option<Self>)
        ensures
            value == packet_type_of_code(code),
    {
        match code {
            0 => Some(EndPointMessagePacketType::Request),
            1 => Some(EndPointMessagePacketType::Response),
            2 => Some(EndPointMessagePacketType::Push),
            _ => None,
        }
    }
}

/// The binary form of the role of a packet: its number as a `u32`.
pub open spec fn ser_packet_type(value: EndPointMessagePacketType) -> Seq<u8> {
    ser_u32(packet_type_code(value))
}

/// What `bytes` starts with, read as the role of a packet, and what follows it.
pub open spec fn parse_packet_type(bytes: Seq<u8>) -> Option<(EndPointMessagePacketType, Seq<u8>)> {
    match parse_u32(bytes) {
        Some((code, rest)) => match packet_type_of_code(code) {
            Some(value) => Some((value, rest)),
            None => None,
        },
        None => None,
    }
}

/// Parsing undoes serializing, whatever follows.
pub proof fn lemma_parse_packet_type(value: EndPointMessagePacketType, rest: Seq<u8>)
    ensures
        parse_packet_type(ser_packet_type(value) + rest) == Some((value, rest)),
{
    lemma_parse_u32(packet_type_code(value), rest);
}

/// Appends the binary form of `value` to `out`.
pub fn write_packet_type(out: &mut Vec<u8>, value: &EndPointMessagePacketType)
    ensures
        final(out)@ == old(out)@ + ser_packet_type(*value),
{
    write_u32(out, value.code());
}

/// Reads the role of a packet at `pos`. Returns it with the position behind it.
pub fn read_packet_type(bytes: &[u8], pos: usize) -> (r: Option<(EndPointMessagePacketType, usize)>)
    ensures
        reads(bytes@, pos as int, parse_packet_type(bytes@.skip(pos as int)), got(r)),
{
    let (code, end) = read_u32(bytes, pos)?;
    let value: EndPointMessagePacketType = EndPointMessagePacketType::from_code(code)?;
    Some((value, end))
}

/// The binary form of a packet: its fields in order.
#[verifier::opaque]
pub open spec fn ser_packet(value: EndPointMessagePacketView) -> Seq<u8> {
    ser_packet_type(value.typ)
        + ser_opt_u16(value.call_id)
        + ser_message(value.message)
}

/// What `bytes` starts with, read as a packet, and what follows it.
#[verifier::opaque]
pub open spec fn parse_packet(bytes: Seq<u8>) -> Option<(EndPointMessagePacketView, Seq<u8>)> {
    let typ = parse_packet_type(bytes);
    let call_id = parse_opt_u16(typ.unwrap().1);
    let message = parse_message(call_id.unwrap().1);
    if typ is Some && call_id is Some && message is Some {
        Some(
            (
                EndPointMessagePacketView {
                    typ: typ.unwrap().0,
                    call_id: call_id.unwrap().0,
                    message: message.unwrap().0,
                },
                message.unwrap().1,
            ),
        )
    } else {
        None
    }
}

/// Parsing undoes serializing, whatever follows.
pub proof fn lemma_parse_packet(value: EndPointMessagePacketView, rest: Seq<u8>)
    requires
        value.fits(),
    ensures
        parse_packet(ser_packet(value) + rest) == Some((value, rest)),
{
    reveal(ser_packet);
    reveal(parse_packet);
    let after_call_id = ser_message(value.message) + rest;
    let after_typ = ser_opt_u16(value.call_id) + after_call_id;
    let upto_typ = ser_packet_type(value.typ);
    let upto_call_id = upto_typ + ser_opt_u16(value.call_id);
    lemma_concat_assoc(upto_call_id, ser_message(value.message), rest);
    lemma_concat_assoc(upto_typ, ser_opt_u16(value.call_id), after_call_id);
    lemma_parse_packet_type(value.typ, after_typ);
    lemma_parse_opt_u16(value.call_id, after_call_id);
    lemma_parse_message(value.message, rest);
}

/// Appends the binary form of `value` to `out`.
pub fn write_packet(out: &mut Vec<u8>, value: &EndPointMessagePacket)
    ensures
        final(out)@ == old(out)@ + ser_packet(value@),
        value@.fits(),
{
    proof {
        reveal(ser_packet);
    }
    write_packet_type(out, &value.typ);
    write_opt_u16(out, value.call_id);
    write_message(out, &value.message);
    assert(out@ =~= old(out)@ + ser_packet(value@));
}

/// Reads a packet at `pos`. Returns it with the position behind it.
pub fn read_packet(bytes: &[u8], pos: usize) -> (r: Option<(EndPointMessagePacket, usize)>)
    ensures
        reads(bytes@, pos as int, parse_packet(bytes@.skip(pos as int)), got(r)),
{
    proof {
        reveal(parse_packet);
    }
    let (typ, pos0) = read_packet_type(bytes, pos)?;
    let (call_id, pos1) = read_opt_u16(bytes, pos0)?;
    let (message, pos2) = read_message(bytes, pos1)?;
    Some((EndPointMessagePacket { typ, call_id, message }, pos2))
}

/// A sequence of bytes that is no packet: it ends too early, goes on after
/// the packet's end, or holds a number or a text that stands for nothing.
#[derive(Clone, Copy, Debug, PartialEq, Eq, Structural)]
pub struct DecodeError;

/// The packet that `bytes` is the binary form of, if it is one: the bytes
/// must hold one packet and nothing after it.
pub open spec fn deserialized(bytes: Seq<u8>) -> Option<EndPointMessagePacketView> {
    match parse_packet(bytes) {
        Some((packet, rest)) => if rest.len() == 0 {
            Some(packet)
        } else {
            None
        },
        None => None,
    }
}

/// The binary form of a packet. Every packet has one.
pub fn serialize(packet: &EndPointMessagePacket) -> (bytes: Vec<u8>)
    ensures
        bytes@ == ser_packet(packet@),
        packet@.fits(),
{
    let mut bytes: Vec<u8> = Vec::new();
    write_packet(&mut bytes, packet);
    assert(bytes@ =~= ser_packet(packet@));
    bytes
}

/// Reads a packet back from its binary form.
pub fn deserialize(bytes: &[u8]) -> (r: Result<EndPointMessagePacket, DecodeError>)
    ensures
        match deserialized(bytes@) {
            Some(packet) => r matches Ok(p) && p@ == packet,
            None => r is Err,
        },
{
    assert(bytes@.skip(0) =~= bytes@);
    match read_packet(bytes, 0) {
        Some((packet, end)) => {
            if end == bytes.len() {
                Ok(packet)
            } else {
                Err(DecodeError)
            }
        },
        None => Err(DecodeError),
    }
}

/// Deserializing what was serialized gives the packet back, field by field.
pub proof fn lemma_serialize_round_trip(packet: EndPointMessagePacketView)
    requires
        packet.fits(),
    ensures
        deserialized(ser_packet(packet)) == Some(packet),
{
    lemma_parse_packet(packet, Seq::empty());
    assert(ser_packet(packet) + Seq::empty() =~= ser_packet(packet));
}

} // verus!
