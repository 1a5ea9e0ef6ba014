//! Wire-envelope codec.
//!
//! A frame on the wire is a tagged union: one leading operation-kind byte,
//! followed by the payload, whose length is the remainder of the frame (the
//! transport guarantees frame boundaries). An `Exec` payload carries one more
//! leading byte that says whether the rest is a module URI or inline module
//! bytes; the two forms are mutually exclusive and never inferred from
//! content.

use vstd::prelude::*;

verus! {

/// The operation kind of a wire envelope. `Auth`, `Ret` and `Error` are sent
/// only by the minion; `Exec` is the only directive the coordinator may send.
#[derive(Clone, Copy, PartialEq, Eq, Structural, Debug)]
pub enum OpKind {
    Auth,
    Exec,
    Ret,
    Error,
}

/// One wire message: an operation kind and its payload bytes.
#[derive(Clone, Debug)]
pub struct Envelope {
    pub op: OpKind,
    pub payload: Vec<u8>,
}

/// Why a frame or a payload could not be decoded. Any of these is fatal to the
/// connection: a corrupt frame cannot be safely attributed to one request.
#[derive(Clone, Copy, PartialEq, Eq, Structural, Debug)]
pub enum DecodeError {
    /// The frame or payload held no bytes at all, so it has no tag.
    Empty,
    /// The leading tag byte names no known kind.
    BadTag,
}

/// The error categories the coordinator can distinguish in an `Error` reply.
#[derive(Clone, Copy, PartialEq, Eq, Structural, Debug)]
pub enum ErrorKind {
    /// The module could not be fetched, compiled, or instantiated.
    BadCode,
    /// The module was instantiated but could not be run to a reportable
    /// result: no entry point, a trap, or a non-integer result value.
    BadRun,
}

/// The wire tag of each operation kind.
pub open spec fn op_tag(op: OpKind) -> u8 {
    match op {
        OpKind::Auth => 0u8,
        OpKind::Exec => 1u8,
        OpKind::Ret => 2u8,
        OpKind::Error => 3u8,
    }
}

/// The operation kind a tag byte names, if any.
pub open spec fn op_of_tag(t: u8) -> Option<OpKind> {
    if t == 0 {
        Some(OpKind::Auth)
    } else if t == 1 {
        Some(OpKind::Exec)
    } else if t == 2 {
        Some(OpKind::Ret)
    } else if t == 3 {
        Some(OpKind::Error)
    } else {
        None
    }
}

/// The wire form of an envelope: the operation tag, then the payload.
pub open spec fn spec_encode(op: OpKind, payload: Seq<u8>) -> Seq<u8> {
    seq![op_tag(op)] + payload
}

/// What a frame decodes to: its operation kind and payload, or nothing if the
/// frame is empty or its tag names no kind.
pub open spec fn spec_decode(bytes: Seq<u8>) -> Option<(OpKind, Seq<u8>)> {
    if bytes.len() == 0 {
        None
    } else {
        match op_of_tag(bytes[0]) {
            Some(op) => Some((op, bytes.subrange(1, bytes.len() as int))),
            None => None,
        }
    }
}

/// The wire tag of each error kind, carried as the `Error` payload.
pub open spec fn err_tag(k: ErrorKind) -> u8 {
    match k {
        ErrorKind::BadCode => 0u8,
        ErrorKind::BadRun => 1u8,
    }
}

/// The full wire form of an `Error` reply carrying the given kind.
pub open spec fn spec_error_reply(k: ErrorKind) -> Seq<u8> {
    spec_encode(OpKind::Error, seq![err_tag(k)])
}

/// Copies `v[start..]` into a fresh vector.
pub fn bytes_from(v: &Vec<u8>, start: usize) -> (r: Vec<u8>)
    requires
        start <= v@.len(),
    ensures
        r@ == v@.subrange(start as int, v@.len() as int),
{
    let mut out: Vec<u8> = Vec::new();
    let mut i: usize = start;
    while i < v.len()
        invariant
            start <= i <= v@.len(),
            out@ == v@.subrange(start as int, i as int),
        decreases v@.len() - i,
    {
        out.push(v[i]);
        i = i + 1;
        assert(out@ =~= v@.subrange(start as int, i as int));
    }
    out
}

/// Encodes an envelope into its wire form.
pub fn encode(env: &Envelope) -> (r: Vec<u8>)
    ensures
        r@ == spec_encode(env.op, env.payload@),
{
    let tag: u8 = match env.op {
        OpKind::Auth => 0,
        OpKind::Exec => 1,
        OpKind::Ret => 2,
        OpKind::Error => 3,
    };
    let mut out: Vec<u8> = Vec::new();
    out.push(tag);
    let mut i: usize = 0;
    while i < env.payload.len()
        invariant
            i <= env.payload@.len(),
            tag == op_tag(env.op),
            out@ == seq![op_tag(env.op)] + env.payload@.subrange(0, i as int),
        decreases env.payload@.len() - i,
    {
        out.push(env.payload[i]);
        i = i + 1;
        assert(out@ =~= seq![op_tag(env.op)] + env.payload@.subrange(0, i as int));
    }
    assert(out@ =~= spec_encode(env.op, env.payload@));
    out
}

/// Decodes a wire frame into an envelope.
///
/// Returns `Ok` exactly on the frames `spec_decode` accepts; `Empty` comes on
/// a frame of no bytes, `BadTag` on a leading byte that names no kind.
pub fn decode(bytes: &Vec<u8>) -> (r: Result<Envelope, DecodeError>)
    ensures
        r is Ok <==> spec_decode(bytes@) is Some,
        match r {
            Ok(env) => spec_decode(bytes@) == Some((env.op, env.payload@)),
            Err(DecodeError::Empty) => bytes@.len() == 0,
            Err(DecodeError::BadTag) => bytes@.len() > 0 && op_of_tag(bytes@[0]) is None,
        },
{
    if bytes.len() == 0 {
        return Err(DecodeError::Empty);
    }
    let tag = bytes[0];
    let op = if tag == 0 {
        OpKind::Auth
    } else if tag == 1 {
        OpKind::Exec
    } else if tag == 2 {
        OpKind::Ret
    } else if tag == 3 {
        OpKind::Error
    } else {
        return Err(DecodeError::BadTag);
    };
    let payload = bytes_from(bytes, 1);
    Ok(Envelope { op, payload })
}

/// The two forms of an `Exec` request's content: a URI naming a module to
/// fetch and cache, or raw module bytes to compile and run once, uncached.
#[derive(Clone, Debug)]
pub enum ExecRequest {
    Uri(Vec<u8>),
    Inline(Vec<u8>),
}

/// The wire form of an `Exec` payload: a one-byte discriminator, then the
/// content. `inline` tells the two forms apart.
pub open spec fn spec_encode_exec(inline: bool, content: Seq<u8>) -> Seq<u8> {
    if inline {
        seq![1u8] + content
    } else {
        seq![0u8] + content
    }
}

/// What an `Exec` payload decodes to: whether the content is inline module
/// bytes, and the content itself; nothing on an empty payload or an unknown
/// discriminator.
pub open spec fn spec_decode_exec(payload: Seq<u8>) -> Option<(bool, Seq<u8>)> {
    if payload.len() == 0 {
        None
    } else if payload[0] == 0 {
        Some((false, payload.subrange(1, payload.len() as int)))
    } else if payload[0] == 1 {
        Some((true, payload.subrange(1, payload.len() as int)))
    } else {
        None
    }
}

/// Encodes an `Exec` request into its payload form.
pub fn encode_exec(req: &ExecRequest) -> (r: Vec<u8>)
    ensures
        match req {
            ExecRequest::Uri(u) => r@ == spec_encode_exec(false, u@),
            ExecRequest::Inline(b) => r@ == spec_encode_exec(true, b@),
        },
{
    let (tag, content): (u8, &Vec<u8>) = match req {
        ExecRequest::Uri(u) => (0, u),
        ExecRequest::Inline(b) => (1, b),
    };
    let mut out: Vec<u8> = Vec::new();
    out.push(tag);
    let mut i: usize = 0;
    while i < content.len()
        invariant
            i <= content@.len(),
            out@ == seq![tag] + content@.subrange(0, i as int),
        decreases content@.len() - i,
    {
        out.push(content[i]);
        i = i + 1;
        assert(out@ =~= seq![tag] + content@.subrange(0, i as int));
    }
    assert(content@.subrange(0, content@.len() as int) =~= content@);
    out
}

/// Decodes an `Exec` payload into a request.
///
/// Returns `Ok` exactly on the payloads `spec_decode_exec` accepts; `Empty`
/// comes on a payload of no bytes, `BadTag` on an unknown discriminator.
pub fn decode_exec(payload: &Vec<u8>) -> (r: Result<ExecRequest, DecodeError>)
    ensures
        r is Ok <==> spec_decode_exec(payload@) is Some,
        match r {
            Ok(ExecRequest::Uri(u)) => spec_decode_exec(payload@) == Some((false, u@)),
            Ok(ExecRequest::Inline(b)) => spec_decode_exec(payload@) == Some((true, b@)),
            Err(DecodeError::Empty) => payload@.len() == 0,
            Err(DecodeError::BadTag) => payload@.len() > 0 && payload@[0] != 0 && payload@[0] != 1,
        },
{
    if payload.len() == 0 {
        return Err(DecodeError::Empty);
    }
    let tag = payload[0];
    if tag == 0 {
        Ok(ExecRequest::Uri(bytes_from(payload, 1)))
    } else if tag == 1 {
        Ok(ExecRequest::Inline(bytes_from(payload, 1)))
    } else {
        Err(DecodeError::BadTag)
    }
}

/// Law: encoding an `Exec` request's content and then decoding the payload
/// yields the original form and content bytes exactly.
pub proof fn lemma_exec_round_trip(inline: bool, content: Seq<u8>)
    ensures
        spec_decode_exec(spec_encode_exec(inline, content)) == Some((inline, content)),
{
    let enc = spec_encode_exec(inline, content);
    assert(enc.subrange(1, enc.len() as int) =~= content);
}

/// Law: encoding an envelope and then decoding the result yields the original
/// operation kind and the original payload bytes exactly.
pub proof fn lemma_envelope_round_trip(op: OpKind, payload: Seq<u8>)
    ensures
        spec_decode(spec_encode(op, payload)) == Some((op, payload)),
{
    let enc = spec_encode(op, payload);
    assert(enc[0] == op_tag(op));
    assert(op_of_tag(op_tag(op)) == Some(op));
    assert(enc.subrange(1, enc.len() as int) =~= payload);
}

/// Encodes an `Error` reply frame carrying the given error kind.
pub fn error_reply(k: ErrorKind) -> (r: Vec<u8>)
    ensures
        r@ == spec_error_reply(k),
{
    let tag: u8 = match k {
        ErrorKind::BadCode => 0,
        ErrorKind::BadRun => 1,
    };
    let mut payload: Vec<u8> = Vec::new();
    payload.push(tag);
    assert(payload@ =~= seq![err_tag(k)]);
    encode(&Envelope { op: OpKind::Error, payload })
}

} // verus!
