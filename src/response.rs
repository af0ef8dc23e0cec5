//! Replies and error frames, and the session's sequence counter.

use vstd::prelude::*;

use crate::atom::{get_atom, AtomTable};
use crate::codec::{
    lemma_round_trip16, lemma_round_trip32, push_bytes, push_zeros, spec_bytes16, spec_bytes32,
    spec_card16, spec_card32, zeros, Endianness,
};
use crate::connection::Connection;
use crate::request::{DecodeError, RequestPrefix, Request};

verus! {

/// The error code for a request the server does not implement.
pub const BAD_REQUEST: u8 = 1;

/// The error code for a field value out of range.
pub const BAD_VALUE: u8 = 2;

/// The error code for a request whose length does not fit its opcode.
pub const BAD_LENGTH: u8 = 16;

/// The sequence number that follows `n`, wrapping after 65535.
pub open spec fn next_sequence(n: u16) -> u16 {
    if n == u16::MAX {
        0
    } else {
        (n + 1) as u16
    }
}

/// The eight bytes that open a reply: type 1, the auxiliary byte, the
/// sequence number and the trailing length in words.
pub open spec fn reply_header(e: Endianness, seq: u16, extra_length: u32, extra: u8) -> Seq<u8> {
    seq![1u8, extra] + spec_bytes16(e, seq) + spec_bytes32(e, extra_length)
}

/// A reply with an all-zero payload and `extra_length` trailing words.
pub open spec fn stub_reply(e: Endianness, seq: u16, extra_length: u32) -> Seq<u8> {
    reply_header(e, seq, extra_length, 0) + zeros(24 + 4 * extra_length)
}

/// The reply to InternAtom: the atom id first in the payload.
pub open spec fn intern_reply(e: Endianness, seq: u16, atom: u32) -> Seq<u8> {
    reply_header(e, seq, 0, 0) + spec_bytes32(e, atom) + zeros(20)
}

/// The trailing words of the all-zero reply that a request gets, or `None`
/// for a request that has no reply.
pub open spec fn stub_reply_words(r: Request) -> Option<u32> {
    match r {
        Request::GetWindowAttributes { .. } => Some(3),
        Request::GetGeometry { .. } => Some(0),
        Request::QueryTree { .. } => Some(0),
        Request::GetAtomName { .. } => Some(0),
        Request::GetProperty { .. } => Some(0),
        Request::ListProperties { .. } => Some(0),
        Request::GetSelectionOwner { .. } => Some(0),
        Request::GrabPointer { .. } => Some(0),
        Request::GrabKeyboard { .. } => Some(0),
        Request::QueryPointer { .. } => Some(0),
        Request::GetMotionEvents { .. } => Some(0),
        Request::TranslateCoordinates { .. } => Some(0),
        Request::GetInputFocus => Some(0),
        Request::QueryKeymap => Some(2),
        Request::QueryFont { .. } => Some(7),
        Request::ListFonts { .. } => Some(0),
        Request::QueryExtension { .. } => Some(0),
        Request::GetKeyboardControl => Some(5),
        _ => None,
    }
}

/// The bytes written for a request other than InternAtom under sequence
/// number `seq`: its all-zero reply, or nothing.
pub open spec fn response_bytes(e: Endianness, seq: u16, r: Request) -> Seq<u8> {
    match stub_reply_words(r) {
        Some(n) => stub_reply(e, seq, n),
        None => Seq::empty(),
    }
}

/// `b` is nothing, or one frame: 32 bytes and the trailing words that its
/// length field declares.
pub open spec fn frame_consistent(e: Endianness, b: Seq<u8>) -> bool {
    b.len() == 0 || (b.len() >= 32 && b.len() % 4 == 0 && spec_card32(e, b.subrange(4, 8)) * 4 + 32
        == b.len())
}

/// The error code and the offending value reported for a decode error that
/// the connection survives.
pub open spec fn error_fields(err: DecodeError) -> (u8, u32) {
    match err {
        DecodeError::MalformedValueMask { mask, .. } => (BAD_VALUE, mask),
        DecodeError::MalformedEvent { code } => (BAD_VALUE, code as u32),
        DecodeError::Length { .. } => (BAD_LENGTH, 0),
        _ => (BAD_REQUEST, 0),
    }
}

/// An error frame: type 0, the code, the sequence number, the offending
/// value, the minor opcode 0 and the major opcode.
pub open spec fn error_frame(e: Endianness, seq: u16, code: u8, value: u32, opcode: u8) -> Seq<u8> {
    seq![0u8, code] + spec_bytes16(e, seq) + spec_bytes32(e, value) + spec_bytes16(e, 0) + seq![opcode]
        + zeros(21)
}

proof fn lemma_header_fields(e: Endianness, seq: u16, extra_length: u32, extra: u8, rest: Seq<u8>)
    ensures
        ({
            let b = reply_header(e, seq, extra_length, extra) + rest;
            &&& b.len() == 8 + rest.len()
            &&& spec_card16(e, b.subrange(2, 4)) == seq
            &&& spec_card32(e, b.subrange(4, 8)) == extra_length
        }),
{
    let b = reply_header(e, seq, extra_length, extra) + rest;
    lemma_round_trip16(e, seq);
    lemma_round_trip32(e, extra_length);
    assert(b.subrange(2, 4) =~= spec_bytes16(e, seq));
    assert(b.subrange(4, 8) =~= spec_bytes32(e, extra_length));
}

// The code's copy of the table in `stub_reply_words`: contracts can only
// call spec functions, and code only exec ones.
fn stub_words(request: &Request) -> (r: Option<u32>)
    ensures
        r == stub_reply_words(*request),
{
    match request {
        Request::GetWindowAttributes { .. } => Some(3),
        Request::GetGeometry { .. } => Some(0),
        Request::QueryTree { .. } => Some(0),
        Request::GetAtomName { .. } => Some(0),
        Request::GetProperty { .. } => Some(0),
        Request::ListProperties { .. } => Some(0),
        Request::GetSelectionOwner { .. } => Some(0),
        Request::GrabPointer { .. } => Some(0),
        Request::GrabKeyboard { .. } => Some(0),
        Request::QueryPointer { .. } => Some(0),
        Request::GetMotionEvents { .. } => Some(0),
        Request::TranslateCoordinates { .. } => Some(0),
        Request::GetInputFocus => Some(0),
        Request::QueryKeymap => Some(2),
        Request::QueryFont { .. } => Some(7),
        Request::ListFonts { .. } => Some(0),
        Request::QueryExtension { .. } => Some(0),
        Request::GetKeyboardControl => Some(5),
        _ => None,
    }
}

impl Connection {
    /// The eight-byte header of a reply under the current sequence number.
    pub fn empty_response(&self, extra_length: u32, extra: u8) -> (r: Vec<u8>)
        ensures
            r@ == reply_header(self.endianness, self.sequence_number, extra_length, extra),
    {
        let mut r: Vec<u8> = Vec::new();
        r.push(1);
        r.push(extra);
        push_bytes(&mut r, self.to_bytes_16(self.sequence_number).as_slice());
        push_bytes(&mut r, self.to_bytes_32(extra_length).as_slice());
        assert(r@ =~= reply_header(self.endianness, self.sequence_number, extra_length, extra));
        r
    }

    /// A reply with an all-zero payload and `extra_length` trailing zero
    /// words, for a request whose reply carries nothing meaningful yet.
    pub fn stub_response(&self, extra_length: u32) -> (r: Vec<u8>)
        ensures
            r@ == stub_reply(self.endianness, self.sequence_number, extra_length),
            frame_consistent(self.endianness, r@),
    {
        let mut r = self.empty_response(extra_length, 0);
        push_zeros(&mut r, 24 + 4 * extra_length as u64);
        proof {
            lemma_header_fields(self.endianness, self.sequence_number, extra_length, 0, zeros(24 + 4 * extra_length));
        }
        r
    }

    /// Advances the sequence number and encodes the reply to `request`, if
    /// it has one. InternAtom looks its name up in `atoms`, or registers it.
    pub fn write_response(&mut self, request: Request, atoms: &mut AtomTable) -> (r: Vec<u8>)
        requires
            old(atoms)@.wf(),
        ensures
            final(self).endianness == old(self).endianness,
            final(self).sequence_number == next_sequence(old(self).sequence_number),
            final(atoms)@.wf(),
            match request {
                Request::InternAtom { only_if_exists, name } => {
                    let (t, id) = old(atoms)@.intern(name@, only_if_exists);
                    final(atoms)@ == t && r@ == intern_reply(old(self).endianness, final(self).sequence_number, id)
                },
                _ => final(atoms)@ == old(atoms)@ && r@ == response_bytes(
                    old(self).endianness,
                    final(self).sequence_number,
                    request,
                ),
            },
            frame_consistent(old(self).endianness, r@),
            r@.len() > 0 ==> spec_card16(old(self).endianness, r@.subrange(2, 4)) == final(self).sequence_number,
    {
        self.sequence_number = if self.sequence_number == u16::MAX {
            0
        } else {
            self.sequence_number + 1
        };
        let words = stub_words(&request);
        match request {
            Request::InternAtom { only_if_exists, name } => {
                let atom = get_atom(atoms, only_if_exists, name);
                let mut r = self.empty_response(0, 0);
                push_bytes(&mut r, self.to_bytes_32(atom).as_slice());
                push_zeros(&mut r, 20);
                proof {
                    let e = self.endianness;
                    let seq = self.sequence_number;
                    assert(r@ =~= intern_reply(e, seq, atom));
                    lemma_header_fields(e, seq, 0, 0, spec_bytes32(e, atom) + zeros(20));
                    assert(intern_reply(e, seq, atom) =~= reply_header(e, seq, 0, 0) + (spec_bytes32(e, atom) + zeros(20)));
                }
                r
            },
            _ => match words {
                Some(n) => {
                    let r = self.stub_response(n);
                    proof {
                        lemma_header_fields(self.endianness, self.sequence_number, n, 0, zeros(24 + 4 * n));
                    }
                    r
                },
                None => Vec::new(),
            },
        }
    }

    /// Advances the sequence number and encodes the error frame for a decode
    /// error that the connection survives; `None` for a framing error, which
    /// ends the connection.
    pub fn write_error(&mut self, error: DecodeError, opcode: u8) -> (r: Option<Vec<u8>>)
        ensures
            error is Framing ==> r is None && *final(self) == *old(self),
            !(error is Framing) ==> {
                &&& final(self).endianness == old(self).endianness
                &&& final(self).sequence_number == next_sequence(old(self).sequence_number)
                &&& r matches Some(b) && b@ == error_frame(
                    old(self).endianness,
                    final(self).sequence_number,
                    error_fields(error).0,
                    error_fields(error).1,
                    opcode,
                )
            },
    {
        let (code, value) = match error {
            DecodeError::Framing => {
                return None;
            },
            DecodeError::MalformedValueMask { mask, .. } => (BAD_VALUE, mask),
            DecodeError::MalformedEvent { code } => (BAD_VALUE, code as u32),
            DecodeError::Length { .. } => (BAD_LENGTH, 0),
            DecodeError::UnsupportedOpcode { .. } => (BAD_REQUEST, 0),
        };
        self.sequence_number = if self.sequence_number == u16::MAX {
            0
        } else {
            self.sequence_number + 1
        };
        let mut r: Vec<u8> = Vec::new();
        r.push(0);
        r.push(code);
        push_bytes(&mut r, self.to_bytes_16(self.sequence_number).as_slice());
        push_bytes(&mut r, self.to_bytes_32(value).as_slice());
        push_bytes(&mut r, self.to_bytes_16(0).as_slice());
        r.push(opcode);
        push_zeros(&mut r, 21);
        assert(r@ =~= error_frame(self.endianness, self.sequence_number, code, value, opcode));
        Some(r)
    }
}

/// Sequence numbers that start at 0 and advance by one per processed
/// request: the `k`-th processed request carries `k`, modulo 65536.
pub proof fn lemma_sequence_numbers(seqs: Seq<u16>)
    requires
        seqs.len() > 0,
        seqs[0] == 0,
        forall|i: int| 0 <= i < seqs.len() - 1 ==> #[trigger] seqs[i + 1] == next_sequence(seqs[i]),
    ensures
        forall|k: int| 0 <= k < seqs.len() ==> #[trigger] seqs[k] == k % 0x1_0000,
        forall|k: int| 0 <= k < seqs.len() && k <= u16::MAX ==> #[trigger] seqs[k] == k,
    decreases seqs.len(),
{
    if seqs.len() > 1 {
        let prefix = seqs.drop_last();
        assert forall|i: int| 0 <= i < prefix.len() - 1 implies #[trigger] prefix[i + 1] == next_sequence(prefix[i]) by {
            assert(prefix[i + 1] == seqs[i + 1]);
        }
        lemma_sequence_numbers(prefix);
        assert forall|k: int| 0 <= k < seqs.len() implies #[trigger] seqs[k] == k % 0x1_0000 by {
            if k < prefix.len() {
                assert(prefix[k] == seqs[k]);
            } else {
                let j = k - 1;
                assert(prefix[j] == seqs[j]);
                assert(seqs[j + 1] == next_sequence(seqs[j]));
            }
        }
    }
}

} // verus!
