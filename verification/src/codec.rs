//! The wire codec: field-tagged, variable-length, self-delimiting.
//!
//! An envelope is a single length-delimited field whose tag names the
//! payload variant, wrapping the payload's own fields; an envelope with no
//! payload encodes to no bytes at all.  Fields equal to their default (an
//! empty string, a zero integer) are omitted, so the encoding of a value
//! is canonical.  The decoder accepts exactly one well-formed envelope
//! spanning the whole input — each read of the server is decoded on its
//! own, with no partial-message buffering.
//!
//! `*_enc` spec functions define the bytes of a value, `*_dec` spec
//! functions define what a byte span means, and the round-trip lemmas tie
//! the two together.  The executable encoders and decoders are proved
//! against them.

use vstd::prelude::*;

use crate::messages::AddRequest;
use crate::messages::AddResponse;
use crate::messages::ClientMessage;
use crate::messages::ClientMsg;
use crate::messages::ClientPayload;
use crate::messages::EchoMessage;
use crate::messages::ServerMessage;
use crate::messages::ServerMsg;
use crate::messages::ServerPayload;
use crate::messages::client_msg_wf;
use crate::messages::server_msg_wf;
use crate::varint::decode_varint;
use crate::varint::encode_varint;
use crate::varint::i32_of_u64;
use crate::varint::i32_to_wire;
use crate::varint::lemma_i32_wire_round_trip;
use crate::varint::lemma_u64_of_i32_fits;
use crate::varint::lemma_varint_dec_bounds;
use crate::varint::lemma_varint_round_trip;
use crate::varint::u64_of_i32;
use crate::varint::varint_dec;
use crate::varint::varint_enc;
use crate::varint::wire_to_i32;

verus! {

// ---------------------------------------------------------------------
// Specification: encoding
// ---------------------------------------------------------------------

/// The field bytes of an echo payload: tag `0x0a`, length, content;
/// nothing at all for the empty string.
pub open spec fn echo_fields_enc(content: Seq<u8>) -> Seq<u8> {
    if content.len() == 0 {
        Seq::empty()
    } else {
        seq![0x0au8] + varint_enc(content.len()) + content
    }
}

/// The field bytes of an addition request: tag `0x08` for `a`, tag `0x10`
/// for `b`, each omitted when zero.
pub open spec fn add_req_fields_enc(a: int, b: int) -> Seq<u8> {
    (if a == 0 {
        Seq::<u8>::empty()
    } else {
        seq![0x08u8] + varint_enc(u64_of_i32(a))
    }) + (if b == 0 {
        Seq::<u8>::empty()
    } else {
        seq![0x10u8] + varint_enc(u64_of_i32(b))
    })
}

/// The field bytes of an addition response: tag `0x08`, omitted when zero.
pub open spec fn add_resp_fields_enc(result: int) -> Seq<u8> {
    if result == 0 {
        Seq::empty()
    } else {
        seq![0x08u8] + varint_enc(u64_of_i32(result))
    }
}

/// Wraps payload bytes as one length-delimited envelope field.
pub open spec fn envelope_enc(tag: u8, body: Seq<u8>) -> Seq<u8> {
    seq![tag] + varint_enc(body.len()) + body
}

/// The bytes of a client envelope: echo under tag `0x0a`, addition
/// request under tag `0x12`, nothing for an empty envelope.
pub open spec fn client_msg_enc(m: ClientMsg) -> Seq<u8> {
    match m {
        ClientMsg::Empty => Seq::empty(),
        ClientMsg::Echo(c) => envelope_enc(0x0au8, echo_fields_enc(c)),
        ClientMsg::Add(a, b) => envelope_enc(0x12u8, add_req_fields_enc(a, b)),
    }
}

/// The bytes of a server envelope: echo under tag `0x0a`, addition
/// response under tag `0x12`, nothing for an empty envelope.
pub open spec fn server_msg_enc(m: ServerMsg) -> Seq<u8> {
    match m {
        ServerMsg::Empty => Seq::empty(),
        ServerMsg::Echo(c) => envelope_enc(0x0au8, echo_fields_enc(c)),
        ServerMsg::AddResult(r) => envelope_enc(0x12u8, add_resp_fields_enc(r)),
    }
}

// ---------------------------------------------------------------------
// Specification: decoding
// ---------------------------------------------------------------------

/// Reads a length varint and requires it to count exactly the remaining
/// bytes; yields those bytes.
pub open spec fn len_delim_dec(s: Seq<u8>) -> Option<Seq<u8>> {
    match varint_dec(s) {
        Some(p) => if p.0 + p.1 == s.len() {
            Some(s.skip(p.1 as int))
        } else {
            None
        },
        None => None,
    }
}

/// The meaning of echo payload bytes: empty means the empty string,
/// otherwise one content field spanning the rest.
pub open spec fn echo_fields_dec(s: Seq<u8>) -> Option<Seq<u8>> {
    if s.len() == 0 {
        Some(Seq::empty())
    } else if s[0] == 0x0a {
        len_delim_dec(s.skip(1))
    } else {
        None
    }
}

/// One trailing integer field under `tag` spanning all of `s`; absent
/// means zero.  The value is the low 32 bits of the wire varint, read as
/// two's complement.
pub open spec fn int_field_dec(tag: u8, s: Seq<u8>) -> Option<int> {
    if s.len() == 0 {
        Some(0)
    } else if s[0] == tag {
        match varint_dec(s.skip(1)) {
            Some(p) => if p.0 <= u64::MAX && p.1 + 1 == s.len() {
                Some(i32_of_u64(p.0))
            } else {
                None
            },
            None => None,
        }
    } else {
        None
    }
}

/// The meaning of addition-request payload bytes: an optional `a` field,
/// then an optional `b` field, in that order, spanning all of `s`.
pub open spec fn add_req_fields_dec(s: Seq<u8>) -> Option<(int, int)> {
    if s.len() == 0 {
        Some((0, 0))
    } else if s[0] == 0x08 {
        match varint_dec(s.skip(1)) {
            Some(p) => if p.0 <= u64::MAX && p.1 < s.len() {
                match int_field_dec(0x10u8, s.skip(1 + p.1 as int)) {
                    Some(b) => Some((i32_of_u64(p.0), b)),
                    None => None,
                }
            } else {
                None
            },
            None => None,
        }
    } else {
        match int_field_dec(0x10u8, s) {
            Some(b) => Some((0, b)),
            None => None,
        }
    }
}

/// The meaning of client envelope bytes.
pub open spec fn client_msg_dec(s: Seq<u8>) -> Option<ClientMsg> {
    if s.len() == 0 {
        Some(ClientMsg::Empty)
    } else if s[0] == 0x0a {
        match len_delim_dec(s.skip(1)) {
            Some(body) => match echo_fields_dec(body) {
                Some(c) => Some(ClientMsg::Echo(c)),
                None => None,
            },
            None => None,
        }
    } else if s[0] == 0x12 {
        match len_delim_dec(s.skip(1)) {
            Some(body) => match add_req_fields_dec(body) {
                Some(p) => Some(ClientMsg::Add(p.0, p.1)),
                None => None,
            },
            None => None,
        }
    } else {
        None
    }
}

/// The meaning of server envelope bytes.
pub open spec fn server_msg_dec(s: Seq<u8>) -> Option<ServerMsg> {
    if s.len() == 0 {
        Some(ServerMsg::Empty)
    } else if s[0] == 0x0a {
        match len_delim_dec(s.skip(1)) {
            Some(body) => match echo_fields_dec(body) {
                Some(c) => Some(ServerMsg::Echo(c)),
                None => None,
            },
            None => None,
        }
    } else if s[0] == 0x12 {
        match len_delim_dec(s.skip(1)) {
            Some(body) => match int_field_dec(0x08u8, body) {
                Some(r) => Some(ServerMsg::AddResult(r)),
                None => None,
            },
            None => None,
        }
    } else {
        None
    }
}

// ---------------------------------------------------------------------
// Round trips
// ---------------------------------------------------------------------

/// A length-delimited wrapping is undone exactly.
pub proof fn lemma_len_delim_round_trip(body: Seq<u8>)
    ensures
        len_delim_dec(varint_enc(body.len()) + body) == Some(body),
{
    lemma_varint_round_trip(body.len(), body);
    assert((varint_enc(body.len()) + body).skip(varint_enc(body.len()).len() as int) =~= body);
}

/// Echo payload bytes decode back to the content they were built from.
pub proof fn lemma_echo_fields_round_trip(content: Seq<u8>)
    ensures
        echo_fields_dec(echo_fields_enc(content)) == Some(content),
{
    if content.len() == 0 {
        assert(Seq::<u8>::empty() =~= content);
    } else {
        let s = echo_fields_enc(content);
        assert(s[0] == 0x0au8);
        assert(s.skip(1) =~= varint_enc(content.len()) + content);
        lemma_len_delim_round_trip(content);
    }
}

/// A single trailing integer field decodes back to its value.
pub proof fn lemma_int_field_round_trip(tag: u8, v: int)
    requires
        i32::MIN <= v <= i32::MAX,
        tag == 0x08 || tag == 0x10,
    ensures
        v != 0 ==> int_field_dec(tag, seq![tag] + varint_enc(u64_of_i32(v))) == Some(v),
        int_field_dec(tag, Seq::<u8>::empty()) == Some(0int),
{
    if v != 0 {
        let s = seq![tag] + varint_enc(u64_of_i32(v));
        assert(s[0] == tag);
        assert(s.skip(1) =~= varint_enc(u64_of_i32(v)) + Seq::<u8>::empty());
        assert(varint_enc(u64_of_i32(v)) + Seq::<u8>::empty() =~= varint_enc(u64_of_i32(v)));
        lemma_varint_round_trip(u64_of_i32(v), Seq::<u8>::empty());
        lemma_u64_of_i32_fits(v);
        lemma_i32_wire_round_trip(v);
    }
}

/// Addition-request payload bytes decode back to the pair they were
/// built from.
pub proof fn lemma_add_req_fields_round_trip(a: int, b: int)
    requires
        i32::MIN <= a <= i32::MAX,
        i32::MIN <= b <= i32::MAX,
    ensures
        add_req_fields_dec(add_req_fields_enc(a, b)) == Some((a, b)),
{
    let b_part: Seq<u8> = if b == 0 {
        Seq::<u8>::empty()
    } else {
        seq![0x10u8] + varint_enc(u64_of_i32(b))
    };
    lemma_int_field_round_trip(0x10u8, b);
    assert(int_field_dec(0x10u8, b_part) == Some(b));
    if a == 0 {
        let s = add_req_fields_enc(a, b);
        assert(s =~= b_part);
        if b != 0 {
            assert(s[0] == 0x10u8);
        }
    } else {
        let s = add_req_fields_enc(a, b);
        let a_enc = varint_enc(u64_of_i32(a));
        assert(s =~= seq![0x08u8] + (a_enc + b_part));
        assert(s[0] == 0x08u8);
        assert(s.skip(1) =~= a_enc + b_part);
        lemma_varint_round_trip(u64_of_i32(a), b_part);
        lemma_u64_of_i32_fits(a);
        lemma_i32_wire_round_trip(a);
        assert(s.skip(1).skip(a_enc.len() as int) =~= b_part);
        assert(s.skip(1 + a_enc.len() as int) =~= b_part);
    }
}

/// A client envelope decodes back to the value it was encoded from.
pub proof fn lemma_client_msg_round_trip(m: ClientMsg)
    requires
        client_msg_wf(m),
    ensures
        client_msg_dec(client_msg_enc(m)) == Some(m),
{
    match m {
        ClientMsg::Empty => {
        },
        ClientMsg::Echo(c) => {
            let body = echo_fields_enc(c);
            let s = envelope_enc(0x0au8, body);
            assert(s[0] == 0x0au8);
            assert(s.skip(1) =~= varint_enc(body.len()) + body);
            lemma_len_delim_round_trip(body);
            lemma_echo_fields_round_trip(c);
        },
        ClientMsg::Add(a, b) => {
            let body = add_req_fields_enc(a, b);
            let s = envelope_enc(0x12u8, body);
            assert(s[0] == 0x12u8);
            assert(s.len() >= 1);
            assert(s[0] != 0x0au8);
            assert(s.skip(1) =~= varint_enc(body.len()) + body);
            lemma_len_delim_round_trip(body);
            lemma_add_req_fields_round_trip(a, b);
        },
    }
}

/// A server envelope decodes back to the value it was encoded from.
pub proof fn lemma_server_msg_round_trip(m: ServerMsg)
    requires
        server_msg_wf(m),
    ensures
        server_msg_dec(server_msg_enc(m)) == Some(m),
{
    match m {
        ServerMsg::Empty => {
        },
        ServerMsg::Echo(c) => {
            let body = echo_fields_enc(c);
            let s = envelope_enc(0x0au8, body);
            assert(s[0] == 0x0au8);
            assert(s.skip(1) =~= varint_enc(body.len()) + body);
            lemma_len_delim_round_trip(body);
            lemma_echo_fields_round_trip(c);
        },
        ServerMsg::AddResult(r) => {
            let body = add_resp_fields_enc(r);
            let s = envelope_enc(0x12u8, body);
            assert(s[0] == 0x12u8);
            assert(s[0] != 0x0au8);
            assert(s.skip(1) =~= varint_enc(body.len()) + body);
            lemma_len_delim_round_trip(body);
            lemma_int_field_round_trip(0x08u8, r);
            if r != 0 {
                assert(body =~= seq![0x08u8] + varint_enc(u64_of_i32(r)));
            }
        },
    }
}

// ---------------------------------------------------------------------
// Executable encoding
// ---------------------------------------------------------------------

/// Appends a copy of `src` to `out`.
fn push_bytes(out: &mut Vec<u8>, src: &Vec<u8>)
    ensures
        final(out)@ == old(out)@ + src@,
{
    let ghost entry = out@;
    assert(out@ =~= entry + src@.take(0));
    let mut i: usize = 0;
    while i < src.len()
        invariant
            i <= src.len(),
            out@ == entry + src@.take(i as int),
        decreases src.len() - i,
    {
        out.push(src[i]);
        assert(out@ =~= entry + src@.take(i + 1));
        i = i + 1;
    }
    assert(out@ =~= entry + src@);
}

/// The bytes of `s` from `from` (inclusive) to `to` (exclusive), as a
/// fresh vector.
fn subvec(s: &Vec<u8>, from: usize, to: usize) -> (r: Vec<u8>)
    requires
        from <= to <= s.len(),
    ensures
        r@ == s@.subrange(from as int, to as int),
{
    let mut out: Vec<u8> = Vec::new();
    let mut i: usize = from;
    assert(out@ =~= s@.subrange(from as int, from as int));
    while i < to
        invariant
            from <= i <= to <= s.len(),
            out@ == s@.subrange(from as int, i as int),
        decreases to - i,
    {
        out.push(s[i]);
        assert(out@ =~= s@.subrange(from as int, i + 1));
        i = i + 1;
    }
    out
}

/// Wraps payload bytes as one length-delimited envelope field.
fn encode_envelope(tag: u8, body: &Vec<u8>) -> (r: Vec<u8>)
    ensures
        r@ == envelope_enc(tag, body@),
{
    let mut out: Vec<u8> = Vec::new();
    out.push(tag);
    encode_varint(body.len() as u64, &mut out);
    push_bytes(&mut out, body);
    assert(out@ =~= envelope_enc(tag, body@));
    out
}

/// Builds the field bytes of an echo payload.
pub fn encode_echo_fields(content: &Vec<u8>) -> (r: Vec<u8>)
    ensures
        r@ == echo_fields_enc(content@),
{
    let mut out: Vec<u8> = Vec::new();
    if content.len() > 0 {
        out.push(0x0au8);
        encode_varint(content.len() as u64, &mut out);
        push_bytes(&mut out, content);
        assert(out@ =~= echo_fields_enc(content@));
    }
    out
}

/// Builds the field bytes of an addition request.
pub fn encode_add_req_fields(a: i32, b: i32) -> (r: Vec<u8>)
    ensures
        r@ == add_req_fields_enc(a as int, b as int),
{
    let mut out: Vec<u8> = Vec::new();
    if a != 0 {
        out.push(0x08u8);
        let w = i32_to_wire(a);
        encode_varint(w, &mut out);
    }
    assert(out@ =~= if a == 0 { Seq::<u8>::empty() } else {
        seq![0x08u8] + varint_enc(u64_of_i32(a as int))
    });
    if b != 0 {
        out.push(0x10u8);
        let w = i32_to_wire(b);
        encode_varint(w, &mut out);
    }
    assert(out@ =~= add_req_fields_enc(a as int, b as int));
    out
}

/// Builds the field bytes of an addition response.
pub fn encode_add_resp_fields(result: i32) -> (r: Vec<u8>)
    ensures
        r@ == add_resp_fields_enc(result as int),
{
    let mut out: Vec<u8> = Vec::new();
    if result != 0 {
        out.push(0x08u8);
        let w = i32_to_wire(result);
        encode_varint(w, &mut out);
        assert(out@ =~= add_resp_fields_enc(result as int));
    }
    out
}

/// Encodes a client envelope to its wire bytes.
pub fn encode_client_message(m: &ClientMessage) -> (r: Vec<u8>)
    ensures
        r@ == client_msg_enc(m@),
{
    match &m.message {
        None => Vec::new(),
        Some(ClientPayload::EchoMessage(e)) => {
            let body = encode_echo_fields(&e.content);
            encode_envelope(0x0au8, &body)
        },
        Some(ClientPayload::AddRequest(q)) => {
            let body = encode_add_req_fields(q.a, q.b);
            encode_envelope(0x12u8, &body)
        },
    }
}

/// Encodes a server envelope to its wire bytes.
pub fn encode_server_message(m: &ServerMessage) -> (r: Vec<u8>)
    ensures
        r@ == server_msg_enc(m@),
{
    match &m.message {
        None => Vec::new(),
        Some(ServerPayload::EchoMessage(e)) => {
            let body = encode_echo_fields(&e.content);
            encode_envelope(0x0au8, &body)
        },
        Some(ServerPayload::AddResponse(q)) => {
            let body = encode_add_resp_fields(q.result);
            encode_envelope(0x12u8, &body)
        },
    }
}

// ---------------------------------------------------------------------
// Executable decoding
// ---------------------------------------------------------------------

/// Decodes echo payload fields spanning `buf[j..]`.
fn decode_echo_fields_at(buf: &Vec<u8>, j: usize) -> (r: Option<Vec<u8>>)
    requires
        j <= buf.len(),
    ensures
        match echo_fields_dec(buf@.skip(j as int)) {
            Some(c) => r matches Some(v) && v@ == c,
            None => r is None,
        },
{
    let ghost s = buf@.skip(j as int);
    if j == buf.len() {
        Some(Vec::new())
    } else {
        let t = buf[j];
        assert(s[0] == t);
        if t == 0x0a {
            proof {
                assert(s.skip(1) =~= buf@.skip(j + 1));
                lemma_varint_dec_bounds(s.skip(1));
            }
            match decode_varint(buf, j + 1) {
                Some((l, k)) => {
                    if l == (buf.len() - k) as u64 {
                        let content = subvec(buf, k, buf.len());
                        proof {
                            assert(s.skip(1).skip((k - j - 1) as int) =~= buf@.subrange(
                                k as int,
                                buf@.len() as int,
                            ));
                        }
                        Some(content)
                    } else {
                        None
                    }
                },
                None => {
                    proof {
                        if varint_dec(s.skip(1)) is Some {
                            let p = varint_dec(s.skip(1))->Some_0;
                            assert(p.0 > u64::MAX);
                            assert(p.0 + p.1 != s.skip(1).len());
                        }
                    }
                    None
                },
            }
        } else {
            None
        }
    }
}

/// Decodes one trailing integer field under `tag` spanning `buf[j..]`.
fn decode_int_field_at(tag: u8, buf: &Vec<u8>, j: usize) -> (r: Option<i32>)
    requires
        j <= buf.len(),
    ensures
        match int_field_dec(tag, buf@.skip(j as int)) {
            Some(v) => r matches Some(x) && x as int == v,
            None => r is None,
        },
{
    let ghost s = buf@.skip(j as int);
    if j == buf.len() {
        Some(0)
    } else {
        let t = buf[j];
        assert(s[0] == t);
        if t == tag {
            proof {
                assert(s.skip(1) =~= buf@.skip(j + 1));
                lemma_varint_dec_bounds(s.skip(1));
            }
            match decode_varint(buf, j + 1) {
                Some((v, k)) => {
                    if k == buf.len() {
                        Some(wire_to_i32(v))
                    } else {
                        None
                    }
                },
                None => None,
            }
        } else {
            None
        }
    }
}

/// Decodes addition-request payload fields spanning `buf[j..]`.
fn decode_add_req_fields_at(buf: &Vec<u8>, j: usize) -> (r: Option<(i32, i32)>)
    requires
        j <= buf.len(),
    ensures
        match add_req_fields_dec(buf@.skip(j as int)) {
            Some(p) => r matches Some(x) && x.0 as int == p.0 && x.1 as int == p.1,
            None => r is None,
        },
{
    let ghost s = buf@.skip(j as int);
    if j == buf.len() {
        Some((0, 0))
    } else {
        let t = buf[j];
        assert(s[0] == t);
        if t == 0x08 {
            proof {
                assert(s.skip(1) =~= buf@.skip(j + 1));
                lemma_varint_dec_bounds(s.skip(1));
            }
            match decode_varint(buf, j + 1) {
                Some((v, k)) => {
                    proof {
                        let p = varint_dec(s.skip(1))->Some_0;
                        assert(s.skip(1 + p.1 as int) =~= buf@.skip(k as int));
                    }
                    match decode_int_field_at(0x10u8, buf, k) {
                        Some(b) => Some((wire_to_i32(v), b)),
                        None => None,
                    }
                },
                None => None,
            }
        } else {
            match decode_int_field_at(0x10u8, buf, j) {
                Some(b) => Some((0, b)),
                None => None,
            }
        }
    }
}

/// Locates the payload of a length-delimited envelope: the index where
/// the payload starts, after checking that its length varint counts
/// exactly the remaining bytes.
fn decode_envelope_body(buf: &Vec<u8>) -> (r: Option<usize>)
    requires
        buf@.len() >= 1,
    ensures
        match len_delim_dec(buf@.skip(1)) {
            Some(body) => r matches Some(k) && 1 <= k <= buf@.len() && buf@.skip(k as int)
                == body,
            None => r is None,
        },
{
    proof {
        lemma_varint_dec_bounds(buf@.skip(1));
    }
    match decode_varint(buf, 1) {
        Some((l, k)) => {
            if l == (buf.len() - k) as u64 {
                proof {
                    let p = varint_dec(buf@.skip(1))->Some_0;
                    assert(buf@.skip(1).skip(p.1 as int) =~= buf@.skip(k as int));
                }
                Some(k)
            } else {
                None
            }
        },
        None => {
            let n = buf.len();
            proof {
                if varint_dec(buf@.skip(1)) is Some {
                    let p = varint_dec(buf@.skip(1))->Some_0;
                    assert(p.0 > u64::MAX);
                    assert(buf@.skip(1).len() == n - 1);
                    assert(n <= usize::MAX <= u64::MAX);
                    assert(p.0 + p.1 != buf@.skip(1).len());
                }
            }
            None
        },
    }
}

/// Decodes one client envelope spanning the whole buffer.
pub fn decode_client_message(buf: &Vec<u8>) -> (r: Option<ClientMessage>)
    ensures
        match client_msg_dec(buf@) {
            Some(m) => r matches Some(x) && x@ == m,
            None => r is None,
        },
{
    if buf.len() == 0 {
        Some(ClientMessage { message: None })
    } else {
        let t = buf[0];
        if t == 0x0a {
            match decode_envelope_body(buf) {
                Some(k) => match decode_echo_fields_at(buf, k) {
                    Some(content) => Some(
                        ClientMessage {
                            message: Some(ClientPayload::EchoMessage(EchoMessage { content })),
                        },
                    ),
                    None => None,
                },
                None => None,
            }
        } else if t == 0x12 {
            match decode_envelope_body(buf) {
                Some(k) => match decode_add_req_fields_at(buf, k) {
                    Some((a, b)) => Some(
                        ClientMessage {
                            message: Some(ClientPayload::AddRequest(AddRequest { a, b })),
                        },
                    ),
                    None => None,
                },
                None => None,
            }
        } else {
            None
        }
    }
}

/// Decodes one server envelope spanning the whole buffer.
pub fn decode_server_message(buf: &Vec<u8>) -> (r: Option<ServerMessage>)
    ensures
        match server_msg_dec(buf@) {
            Some(m) => r matches Some(x) && x@ == m,
            None => r is None,
        },
{
    if buf.len() == 0 {
        Some(ServerMessage { message: None })
    } else {
        let t = buf[0];
        if t == 0x0a {
            match decode_envelope_body(buf) {
                Some(k) => match decode_echo_fields_at(buf, k) {
                    Some(content) => Some(
                        ServerMessage {
                            message: Some(ServerPayload::EchoMessage(EchoMessage { content })),
                        },
                    ),
                    None => None,
                },
                None => None,
            }
        } else if t == 0x12 {
            match decode_envelope_body(buf) {
                Some(k) => match decode_int_field_at(0x08u8, buf, k) {
                    Some(v) => Some(
                        ServerMessage {
                            message: Some(ServerPayload::AddResponse(AddResponse { result: v })),
                        },
                    ),
                    None => None,
                },
                None => None,
            }
        } else {
            None
        }
    }
}

} // verus!
