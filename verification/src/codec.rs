//! Building and parsing of ICMP / ICMPv6 echo messages.
//!
//! An echo message is: type (1 byte), code (1 byte, always 0), checksum
//! (2 bytes big-endian), identifier (2 bytes big-endian), sequence number
//! (2 bytes big-endian), then a zero-filled payload. An IPv4 request carries
//! the RFC 1071 checksum of the whole message; an IPv6 request leaves the
//! checksum field zero, because the network stack fills it in from the
//! pseudo-header that only it can supply.

use vstd::prelude::*;
use crate::checksum::checksum_spec;
use crate::checksum::fold_carries;
use crate::checksum::lemma_fold_carries_range;
use crate::checksum::lemma_fold_of_sum_plus_complement;
use crate::checksum::lemma_sum_words_upto_bounds;
use crate::checksum::num_words;
use crate::checksum::rfc1071_checksum;
use crate::checksum::sum_words;
use crate::checksum::sum_words_upto;
use crate::checksum::word_at;
use vstd::arithmetic::div_mod::lemma_fundamental_div_mod;

verus! {

/// Message type byte of an IPv4 echo request.
pub const TYPE_ECHO_REQUEST_V4: u8 = 8;

/// Message type byte of an IPv4 echo reply.
pub const TYPE_ECHO_REPLY_V4: u8 = 0;

/// Message type byte of an IPv6 echo request.
pub const TYPE_ECHO_REQUEST_V6: u8 = 128;

/// Message type byte of an IPv6 echo reply.
pub const TYPE_ECHO_REPLY_V6: u8 = 129;

/// Bytes of the echo message header in front of the payload.
pub const HEADER_BYTES: usize = 8;

/// The largest payload that still fits an ICMP message into the 65535-byte
/// IP datagram limit together with its 8-byte header.
pub const MAX_PAYLOAD: usize = 65527;

/// High byte of a 16-bit value.
pub open spec fn high_byte(x: int) -> u8 {
    (x / 256) as u8
}

/// Low byte of a 16-bit value.
pub open spec fn low_byte(x: int) -> u8 {
    (x % 256) as u8
}

/// The 16-bit big-endian value of two bytes.
pub open spec fn be16(hi: u8, lo: u8) -> u16 {
    (hi * 256 + lo) as u16
}

/// An echo request to be sent: one per round, the identifier fixed for the
/// process, the sequence number that of the round.
pub struct EchoRequest {
    pub identifier: u16,
    pub sequence: u16,
    pub payload_size: usize,
}

/// The request message before the checksum is filled in: type, code 0,
/// zeroed checksum field, identifier and sequence big-endian, zero payload.
pub open spec fn request_prefill(v4: bool, identifier: u16, sequence: u16, payload: int) -> Seq<u8> {
    seq![
        if v4 { TYPE_ECHO_REQUEST_V4 } else { TYPE_ECHO_REQUEST_V6 },
        0u8,
        0u8,
        0u8,
        high_byte(identifier as int),
        low_byte(identifier as int),
        high_byte(sequence as int),
        low_byte(sequence as int),
    ] + Seq::new(payload as nat, |i: int| 0u8)
}

/// The complete request message: for IPv4 the checksum of the prefilled
/// message stands big-endian in bytes 2 and 3; for IPv6 they stay zero.
pub open spec fn request_bytes(v4: bool, identifier: u16, sequence: u16, payload: int) -> Seq<u8> {
    let base = request_prefill(v4, identifier, sequence, payload);
    if v4 {
        let c = checksum_spec(base);
        base.update(2, high_byte(c)).update(3, low_byte(c))
    } else {
        base
    }
}

/// Builds the echo-request message for one round.
pub fn build_echo_request(v4: bool, request: &EchoRequest) -> (r: Vec<u8>)
    requires
        request.payload_size <= MAX_PAYLOAD,
    ensures
        r@ == request_bytes(v4, request.identifier, request.sequence, request.payload_size as int),
        r@.len() == request.payload_size + HEADER_BYTES,
{
    let total: usize = request.payload_size + HEADER_BYTES;
    let mut buf: Vec<u8> = Vec::new();
    let mut i: usize = 0;
    while i < total
        invariant
            i <= total,
            buf@ =~= Seq::new(i as nat, |j: int| 0u8),
        decreases total - i,
    {
        buf.push(0u8);
        i = i + 1;
    }
    buf.set(0, if v4 { TYPE_ECHO_REQUEST_V4 } else { TYPE_ECHO_REQUEST_V6 });
    buf.set(4, (request.identifier / 256) as u8);
    buf.set(5, (request.identifier % 256) as u8);
    buf.set(6, (request.sequence / 256) as u8);
    buf.set(7, (request.sequence % 256) as u8);
    let ghost base = request_prefill(v4, request.identifier, request.sequence,
        request.payload_size as int);
    proof {
        assert(buf@ =~= base);
    }
    if v4 {
        let c: u16 = rfc1071_checksum(&buf);
        proof {
            lemma_sum_words_upto_bounds(base, num_words(base));
            lemma_fold_carries_range(sum_words(base));
        }
        buf.set(2, (c / 256) as u8);
        buf.set(3, (c % 256) as u8);
        proof {
            assert(buf@ =~= request_bytes(true, request.identifier, request.sequence,
                request.payload_size as int));
        }
    }
    buf
}

/// Words other than word `j` agree between `a` and `b`: the word sums then
/// differ exactly by the change at word `j`.
proof fn lemma_sum_words_change_one(a: Seq<u8>, b: Seq<u8>, k: int, j: int)
    requires
        0 <= j,
        forall|i: int| 0 <= i < k && i != j ==> word_at(a, i) == word_at(b, i),
    ensures
        j >= k ==> sum_words_upto(a, k) == sum_words_upto(b, k),
        j < k ==> sum_words_upto(a, k) == sum_words_upto(b, k) + word_at(a, j) - word_at(b, j),
    decreases k,
{
    if k > 0 {
        lemma_sum_words_change_one(a, b, k - 1, j);
    }
}

/// RFC 1071 round trip: recomputing the checksum over the complete IPv4
/// request message, checksum field included, yields zero.
pub proof fn lemma_checksum_round_trip(identifier: u16, sequence: u16, payload: int)
    requires
        0 <= payload,
    ensures
        checksum_spec(request_bytes(true, identifier, sequence, payload)) == 0,
{
    let base = request_prefill(true, identifier, sequence, payload);
    let c = checksum_spec(base);
    let msg = request_bytes(true, identifier, sequence, payload);
    let s = sum_words(base);
    lemma_sum_words_upto_bounds(base, num_words(base));
    lemma_fold_carries_range(s);
    // word 1 of the message is the checksum itself; word 1 of the base is zero
    assert(word_at(base, 1) == 0);
    assert(word_at(msg, 1) == high_byte(c) * 256 + low_byte(c));
    lemma_fundamental_div_mod(c, 256);
    assert(word_at(msg, 1) == c);
    assert forall|i: int| 0 <= i < num_words(msg) && i != 1 implies
        word_at(msg, i) == word_at(base, i) by {
        assert(msg.len() == base.len());
        assert(2 * i < msg.len());
        assert(2 * i != 2 && 2 * i != 3 && 2 * i + 1 != 2 && 2 * i + 1 != 3);
    }
    lemma_sum_words_change_one(msg, base, num_words(msg), 1);
    assert(num_words(msg) == num_words(base));
    assert(sum_words(msg) == s + c);
    lemma_fold_of_sum_plus_complement(s);
    assert(fold_carries(s + c) == 0xFFFF);
}

/// What parsing an incoming message yields: the identifier and sequence of
/// an IPv4 echo reply, or the bare fact of an IPv6 echo reply, whose
/// identifier and sequence this design does not check.
#[derive(PartialEq, Eq, Structural, Clone, Copy, Debug)]
pub enum ParsedReply {
    V4 { identifier: u16, sequence: u16 },
    V6,
}

/// What `parse_reply` returns: an echo message is at least a full header
/// long, carries the reply type byte of its family, and yields its
/// identifier and sequence fields (IPv4) or only its type (IPv6).
pub open spec fn parse_reply_spec(v4: bool, data: Seq<u8>) -> Option<ParsedReply> {
    if data.len() < HEADER_BYTES {
        None
    } else if v4 && data[0] == TYPE_ECHO_REPLY_V4 {
        Some(ParsedReply::V4 { identifier: be16(data[4], data[5]), sequence: be16(data[6], data[7]) })
    } else if !v4 && data[0] == TYPE_ECHO_REPLY_V6 {
        Some(ParsedReply::V6)
    } else {
        None
    }
}

/// Parses an incoming message as an echo reply of the given family;
/// anything else, the too-short message included, is `None`.
pub fn parse_reply(v4: bool, data: &Vec<u8>) -> (r: Option<ParsedReply>)
    ensures
        r == parse_reply_spec(v4, data@),
{
    if data.len() < HEADER_BYTES {
        return None;
    }
    if v4 {
        if data[0] == TYPE_ECHO_REPLY_V4 {
            let identifier: u16 = (data[4] as u16) * 256 + data[5] as u16;
            let sequence: u16 = (data[6] as u16) * 256 + data[7] as u16;
            Some(ParsedReply::V4 { identifier, sequence })
        } else {
            None
        }
    } else {
        if data[0] == TYPE_ECHO_REPLY_V6 {
            Some(ParsedReply::V6)
        } else {
            None
        }
    }
}

} // verus!
