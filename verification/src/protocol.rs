//! Protocol state machine.
//!
//! One connection authenticates itself the moment the transport handshake
//! succeeds, then answers inbound frames one at a time: every `Exec` request
//! is answered with exactly one reply — `Ret` on success, `Error` on any
//! failure in resolution or execution — before the next frame is read, and no
//! failure of a single request ever closes the connection. Only a frame the
//! machine cannot trust (an undecodable envelope) or the transport's own end
//! closes it, and then nothing more is sent.
//!
//! The machine never performs I/O. The caller reads frames and hands them in,
//! sends the returned replies, and performs the one fetch the machine asks
//! for, handing the outcome back.

use vstd::prelude::*;
use vstd::pervasive::unreached;
use crate::cache::{CacheEntry, ModuleCache, Probe, needs_fetch};
use crate::msg::{
    bytes_from, decode, decode_exec, encode, error_reply, spec_decode, spec_decode_exec,
    spec_encode, spec_error_reply, lemma_envelope_round_trip, Envelope, ErrorKind, ExecRequest,
    OpKind,
};
use crate::sandbox::{clone_module, compile_module, new_store, run_module, wire_kind, ExecError};
use crate::values::{encode_results, spec_results_bytes};

verus! {

/// The number of bytes in an identity token.
pub const ID_LEN: usize = 16;

/// Where a connection stands in its lifetime.
pub enum Phase {
    /// The transport handshake has not succeeded yet.
    Connecting,
    /// Authenticated (the `Auth` message is sent) and between requests.
    Ready,
    /// One fetch is in flight for this reference; its requester awaits the
    /// reply.
    Fetching(Vec<u8>),
    /// Ended by a close frame, a transport failure, or an untrustworthy
    /// frame. Nothing more is sent or accepted.
    Closed,
}

/// One inbound transport event.
pub enum Frame {
    /// A binary frame: the only kind that carries envelopes.
    Binary(Vec<u8>),
    /// A text frame: never part of this protocol; logged and ignored.
    Text,
    /// Answered at the transport level; ignored at this layer.
    Ping,
    /// Ignored at this layer.
    Pong,
    /// The peer closed the connection.
    Close,
    /// The transport itself failed.
    TransportFailed,
}

/// What the caller must do next.
pub enum Step {
    /// Nothing: the frame was not a request.
    Ignore,
    /// Send this reply frame, then read the next inbound frame.
    Reply(Vec<u8>),
    /// Fetch this address and hand the outcome to `on_fetch_result`; the
    /// reply it returns answers the request that started the fetch.
    Fetch(Vec<u8>),
    /// Close the connection and send nothing.
    Closed,
}

/// One connection: its protocol phase, its identity, the fixed base address
/// artifacts are fetched from, its module cache, and the engine store modules
/// are compiled in. The cache lives exactly as long as the connection.
pub struct Connection {
    phase: Phase,
    identity: Vec<u8>,
    base: Vec<u8>,
    modules: ModuleCache,
    store: wasmer::Store,
}

/// Whether a byte sequence is a well-formed reply frame: one the minion may
/// send in answer to a request — a `Ret` or an `Error`, never an `Auth` or an
/// `Exec`.
pub open spec fn is_reply(b: Seq<u8>) -> bool {
    match spec_decode(b) {
        Some((op, _)) => op == OpKind::Ret || op == OpKind::Error,
        None => false,
    }
}

/// The full wire form of a `Ret` reply carrying the given result values.
pub open spec fn spec_ret_reply(vals: Seq<i32>) -> Seq<u8> {
    spec_encode(OpKind::Ret, spec_results_bytes(vals))
}

/// The address the artifact transport must fetch: the fixed base address
/// followed by the reference bytes.
pub fn fetch_address(base: &Vec<u8>, uri: &Vec<u8>) -> (r: Vec<u8>)
    ensures
        r@ == base@ + uri@,
{
    let mut out = bytes_from(base, 0);
    assert(out@ =~= base@);
    let mut i: usize = 0;
    while i < uri.len()
        invariant
            i <= uri@.len(),
            out@ == base@ + uri@.subrange(0, i as int),
        decreases uri@.len() - i,
    {
        out.push(uri[i]);
        i = i + 1;
        assert(out@ =~= base@ + uri@.subrange(0, i as int));
    }
    assert(out@ =~= base@ + uri@);
    out
}

/// Frames the one reply owed for an execution attempt: exactly the `Ret`
/// reply carrying the result values on success, exactly the `Error` reply
/// carrying the failure's wire category otherwise.
pub fn reply_for_run(res: Result<Vec<i32>, ExecError>) -> (r: Vec<u8>)
    ensures
        match res {
            Ok(vals) => r@ == spec_ret_reply(vals@),
            Err(e) => r@ == spec_error_reply(wire_kind(e)),
        },
        is_reply(r@),
{
    match res {
        Ok(vals) => {
            let payload = encode_results(&vals);
            let out = encode(&Envelope { op: OpKind::Ret, payload });
            proof {
                lemma_envelope_round_trip(OpKind::Ret, spec_results_bytes(vals@));
            }
            out
        },
        Err(e) => {
            let k = match e {
                ExecError::Instantiate => ErrorKind::BadCode,
                ExecError::MissingEntry => ErrorKind::BadRun,
                ExecError::Trapped => ErrorKind::BadRun,
                ExecError::NonIntegerResult => ErrorKind::BadRun,
            };
            assert(k == wire_kind(e));
            let out = error_reply(k);
            proof {
                lemma_envelope_round_trip(OpKind::Error, seq![crate::msg::err_tag(k)]);
            }
            out
        },
    }
}

/// Runs a resolved module and frames the one reply owed for it.
pub fn run_and_reply(store: &mut wasmer::Store, module: &wasmer::Module) -> (r: Vec<u8>)
    ensures
        is_reply(r@),
{
    reply_for_run(run_module(store, module))
}

/// Settles a compile outcome for a run-once request: a module the engine
/// refused is exactly the bad-code error reply; one it accepted is run and
/// answered per `reply_for_run`.
pub fn reply_for_compiled(store: &mut wasmer::Store, compiled: Option<wasmer::Module>) -> (r: Vec<u8>)
    ensures
        compiled is None ==> r@ == spec_error_reply(ErrorKind::BadCode),
        is_reply(r@),
{
    match compiled {
        None => {
            let out = error_reply(ErrorKind::BadCode);
            proof {
                lemma_envelope_round_trip(OpKind::Error, seq![crate::msg::err_tag(
                    ErrorKind::BadCode,
                )]);
            }
            out
        },
        Some(m) => run_and_reply(store, &m),
    }
}

/// What one request for a module reference owes, given what the cache records
/// for it: the one fetch begins only when nothing is recorded; a recorded
/// failure is answered from the cache as exactly the bad-code error reply,
/// with no second fetch; a recorded module is run and answered. In every case
/// but the first, the cache is left untouched.
pub open spec fn uri_step(pre: Connection, post: Connection, uri: Seq<u8>, r: Step) -> bool {
    if needs_fetch(pre.cache(), uri) {
        &&& r matches Step::Fetch(addr) && addr@ == pre.fetch_base() + uri
        &&& post.state() matches Phase::Fetching(u) && u@ == uri
        &&& post.cache() == pre.cache().insert(uri, CacheEntry::Pending)
    } else if pre.cache()[uri] == CacheEntry::Done(None::<wasmer::Module>) {
        &&& r matches Step::Reply(out) && out@ == spec_error_reply(ErrorKind::BadCode)
        &&& post.state() is Ready
        &&& post.cache() == pre.cache()
    } else {
        &&& r matches Step::Reply(out) && is_reply(out@)
        &&& post.state() is Ready
        &&& post.cache() == pre.cache()
    }
}

/// Law: a reference the cache already records — an in-flight fetch, a
/// recorded failure, or a recorded module — is never fetched again; a request
/// for it is answered without a fetch step.
pub proof fn lemma_no_refetch(pre: Connection, post: Connection, uri: Seq<u8>, r: Step)
    requires
        pre.cache().dom().contains(uri),
        uri_step(pre, post, uri, r),
    ensures
        !(r is Fetch),
        r is Reply,
{
}

/// What one binary frame owes: an undecodable envelope, or an `Exec` payload
/// with an unknown discriminator, closes the connection with nothing sent; an
/// envelope of any operation but `Exec` is ignored (only `Exec` is a
/// coordinator-to-minion directive); inline module bytes are compiled fresh,
/// run once and answered, with no cache interaction; a module reference goes
/// through the cache per `uri_step`.
pub open spec fn binary_step(pre: Connection, post: Connection, b: Seq<u8>, r: Step) -> bool {
    match spec_decode(b) {
        None => {
            &&& r is Closed
            &&& post.state() is Closed
            &&& post.cache() == pre.cache()
        },
        Some((op, payload)) => if op != OpKind::Exec {
            &&& r is Ignore
            &&& post.state() is Ready
            &&& post.cache() == pre.cache()
        } else {
            match spec_decode_exec(payload) {
                None => {
                    &&& r is Closed
                    &&& post.state() is Closed
                    &&& post.cache() == pre.cache()
                },
                Some((inline, content)) => if inline {
                    &&& r matches Step::Reply(out) && is_reply(out@)
                    &&& post.state() is Ready
                    &&& post.cache() == pre.cache()
                } else {
                    uri_step(pre, post, content, r)
                },
            }
        },
    }
}

impl Connection {
    /// The connection's phase.
    pub closed spec fn state(self) -> Phase {
        self.phase
    }

    /// The identity token sent as the authentication payload.
    pub closed spec fn id(self) -> Seq<u8> {
        self.identity@
    }

    /// The fixed base address fetches are prefixed with.
    pub closed spec fn fetch_base(self) -> Seq<u8> {
        self.base@
    }

    /// What the module cache records.
    pub closed spec fn cache(self) -> Map<Seq<u8>, CacheEntry> {
        self.modules@
    }

    /// At most one fetch is in flight, and exactly the one the phase names:
    /// requests are handled one at a time, a reply emitted before the next
    /// frame is read.
    pub open spec fn pending_consistent(self) -> bool {
        match self.state() {
            Phase::Fetching(u) => self.cache().contains_key(u@) && self.cache()[u@] is Pending
                && (forall|k: Seq<u8>|
                    #[trigger] self.cache().contains_key(k) && k != u@
                        ==> !(self.cache()[k] is Pending)),
            _ => forall|k: Seq<u8>| #[trigger]
                self.cache().contains_key(k) ==> !(self.cache()[k] is Pending),
        }
    }

    /// The connection's invariant: a fixed-size identity, and the sequential
    /// fetch discipline above.
    pub open spec fn wf(self) -> bool {
        self.id().len() == ID_LEN && self.pending_consistent()
    }

    /// A fresh connection that has not completed its handshake: nothing is
    /// cached, nothing was sent.
    pub fn new(identity: Vec<u8>, base: Vec<u8>) -> (r: Connection)
        requires
            identity@.len() == ID_LEN,
        ensures
            r.wf(),
            r.state() is Connecting,
            r.id() == identity@,
            r.fetch_base() == base@,
            r.cache() == Map::<Seq<u8>, CacheEntry>::empty(),
    {
        Connection {
            phase: Phase::Connecting,
            identity,
            base,
            modules: ModuleCache::new(),
            store: new_store(),
        }
    }

    /// Whether the machine awaits the next inbound frame.
    pub fn is_ready(&self) -> (r: bool)
        ensures
            r == (self.state() is Ready),
    {
        match &self.phase {
            Phase::Ready => true,
            _ => false,
        }
    }

    /// The transport handshake succeeded: the minion sends one `Auth` message
    /// carrying its identity — unconditional and unsolicited, its first and
    /// only unrequested message, before any inbound traffic is processed —
    /// and is ready at once, without awaiting an acknowledgment.
    pub fn on_handshake(&mut self) -> (r: Vec<u8>)
        requires
            old(self).wf(),
            old(self).state() is Connecting,
        ensures
            final(self).wf(),
            final(self).state() is Ready,
            final(self).id() == old(self).id(),
            final(self).fetch_base() == old(self).fetch_base(),
            final(self).cache() == old(self).cache(),
            r@ == spec_encode(OpKind::Auth, old(self).id()),
    {
        self.phase = Phase::Ready;
        let payload = bytes_from(&self.identity, 0);
        assert(payload@ =~= self.identity@);
        encode(&Envelope { op: OpKind::Auth, payload })
    }

    /// Handles one inbound transport event. Control frames and text frames
    /// are ignored; a peer close or a transport failure ends the connection
    /// with nothing sent; a binary frame is decoded and dispatched per
    /// `binary_step`. Every reply this can return is a `Ret` or an `Error`.
    pub fn on_frame(&mut self, frame: Frame) -> (r: Step)
        requires
            old(self).wf(),
            old(self).state() is Ready,
        ensures
            final(self).wf(),
            final(self).id() == old(self).id(),
            final(self).fetch_base() == old(self).fetch_base(),
            match frame {
                Frame::Binary(b) => binary_step(*old(self), *final(self), b@, r),
                Frame::Close => r is Closed && final(self).state() is Closed
                    && final(self).cache() == old(self).cache(),
                Frame::TransportFailed => r is Closed && final(self).state() is Closed
                    && final(self).cache() == old(self).cache(),
                _ => r is Ignore && final(self).state() is Ready
                    && final(self).cache() == old(self).cache(),
            },
    {
        match frame {
            Frame::Text => Step::Ignore,
            Frame::Ping => Step::Ignore,
            Frame::Pong => Step::Ignore,
            Frame::Close => {
                self.phase = Phase::Closed;
                Step::Closed
            },
            Frame::TransportFailed => {
                self.phase = Phase::Closed;
                Step::Closed
            },
            Frame::Binary(b) => self.on_binary(b),
        }
    }

    /// Decodes and dispatches one binary frame, per `binary_step`.
    fn on_binary(&mut self, b: Vec<u8>) -> (r: Step)
        requires
            old(self).wf(),
            old(self).state() is Ready,
        ensures
            final(self).wf(),
            final(self).id() == old(self).id(),
            final(self).fetch_base() == old(self).fetch_base(),
            binary_step(*old(self), *final(self), b@, r),
    {
        let env = match decode(&b) {
            Ok(env) => env,
            Err(_) => {
                self.phase = Phase::Closed;
                return Step::Closed;
            },
        };
        if !matches!(env.op, OpKind::Exec) {
            return Step::Ignore;
        }
        let req = match decode_exec(&env.payload) {
            Ok(req) => req,
            Err(_) => {
                self.phase = Phase::Closed;
                return Step::Closed;
            },
        };
        match req {
            ExecRequest::Inline(bytes) => {
                let compiled = compile_module(&self.store, &bytes);
                Step::Reply(reply_for_compiled(&mut self.store, compiled))
            },
            ExecRequest::Uri(uri) => match self.modules.probe(&uri) {
                Probe::Absent => {
                    self.modules.begin_fetch(&uri);
                    let addr = fetch_address(&self.base, &uri);
                    self.phase = Phase::Fetching(uri);
                    Step::Fetch(addr)
                },
                Probe::Failed => Step::Reply(error_reply_badcode()),
                Probe::Ready(m) => Step::Reply(run_and_reply(&mut self.store, &m)),
                Probe::Pending => unreached(),
            },
        }
    }

    /// The artifact transport finished the one fetch the machine asked for:
    /// `body` is the fetched module source, or `None` on any fetch failure
    /// (artifact unreachable, or a non-success response). Records the outcome
    /// — a failed fetch or a refused compile as the failure that is never
    /// retried, an accepted module as the shared artifact — and frames the
    /// one reply owed to the request that started the fetch.
    pub fn on_fetch_result(&mut self, body: Option<Vec<u8>>) -> (r: Vec<u8>)
        requires
            old(self).wf(),
            old(self).state() matches Phase::Fetching(_),
        ensures
            final(self).wf(),
            final(self).state() is Ready,
            final(self).id() == old(self).id(),
            final(self).fetch_base() == old(self).fetch_base(),
            is_reply(r@),
            old(self).state() matches Phase::Fetching(u) ==> fetch_settled(
                *old(self),
                *final(self),
                u@,
                body,
                r,
            ),
    {
        let uri: Vec<u8> = match &self.phase {
            Phase::Fetching(u) => {
                let c = bytes_from(u, 0);
                assert(c@ =~= u@);
                c
            },
            _ => unreached(),
        };
        let compiled: Option<wasmer::Module> = match body {
            Some(bytes) => compile_module(&self.store, &bytes),
            None => None,
        };
        match compiled {
            None => {
                self.modules.complete(&uri, None);
                self.phase = Phase::Ready;
                let out = error_reply_badcode();
                proof {
                    lemma_settled_none(*old(self), *self, uri@, body, out);
                }
                out
            },
            Some(m) => {
                let module = clone_module(&m);
                self.modules.complete(&uri, Some(m));
                self.phase = Phase::Ready;
                let out = run_and_reply(&mut self.store, &module);
                out
            },
        }
    }
}

/// What settling the one in-flight fetch owes: the outcome is recorded for
/// the reference — exactly a failure when the fetch itself failed, whatever
/// the engine decided when bytes arrived — and a recorded failure is answered
/// as exactly the bad-code error reply.
pub open spec fn fetch_settled(
    pre: Connection,
    post: Connection,
    uri: Seq<u8>,
    body: Option<Vec<u8>>,
    r: Vec<u8>,
) -> bool {
    match body {
        None => {
            &&& post.cache() == pre.cache().insert(
                uri,
                CacheEntry::Done(None::<wasmer::Module>),
            )
            &&& r@ == spec_error_reply(ErrorKind::BadCode)
        },
        Some(_) => exists|m: Option<wasmer::Module>|
            {
                &&& post.cache() == #[trigger] pre.cache().insert(uri, CacheEntry::Done(m))
                &&& (m is None ==> r@ == spec_error_reply(ErrorKind::BadCode))
            },
    }
}

/// The bad-code error reply, framed; it is a well-formed reply.
fn error_reply_badcode() -> (r: Vec<u8>)
    ensures
        r@ == spec_error_reply(ErrorKind::BadCode),
        is_reply(r@),
{
    let out = error_reply(ErrorKind::BadCode);
    proof {
        lemma_envelope_round_trip(OpKind::Error, seq![crate::msg::err_tag(ErrorKind::BadCode)]);
    }
    out
}

/// Helper fact: a failed fetch settles as the recorded failure and the
/// bad-code reply.
proof fn lemma_settled_none(
    pre: Connection,
    post: Connection,
    uri: Seq<u8>,
    body: Option<Vec<u8>>,
    r: Vec<u8>,
)
    requires
        post.cache() == pre.cache().insert(uri, CacheEntry::Done(None::<wasmer::Module>)),
        r@ == spec_error_reply(ErrorKind::BadCode),
    ensures
        fetch_settled(pre, post, uri, body, r),
{
}

} // verus!
