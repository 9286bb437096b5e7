//! The consumer iterator: a pull-based, single-pass state machine that
//! drives a populated stream handle, plus verified drivers that run it over
//! a whole producer history and establish the bridge's guarantees —
//! batches come out exactly as the producer yielded them, nothing is pulled
//! past the first terminal answer, and the handle-level release fires
//! exactly once on every exit path.

use vstd::prelude::*;

use crate::array::ArrayNode;
use crate::batch::RecordBatch;
use crate::batch::batch_matches;
use crate::batch::valid_root;
use crate::batch::validate_batch;
use crate::error::BridgeError;
use crate::handle::HandleView;
use crate::handle::ReleaseGuard;
use crate::schema::Schema;
use crate::schema::TypeTag;

verus! {

/// Where the consumer stands in the pull protocol. The sequence of batches
/// is finite and not restartable: once `Done` is reached, no further
/// producer call is ever made.
#[derive(Debug, Clone, Copy, PartialEq, Eq, Structural)]
pub enum Phase {
    /// The schema has not been fetched yet; it is fetched exactly once.
    NeedSchema,
    /// The schema is in hand; batches may be pulled.
    Pulling,
    /// End-of-stream, an error, or abandonment was observed; the stream is
    /// over.
    Done,
}

/// One answer from the producer's schema getter: its status code, the out
/// parameter it filled on success, and — for a non-zero status — the message
/// its last-error callback reports.
pub struct SchemaReply {
    /// The status code; zero means success.
    pub status: i32,
    /// The schema the producer wrote on success.
    pub schema: Option<Schema>,
    /// The producer's last-error message, meaningful for a non-zero status.
    pub message: String,
}

/// One answer from the producer's next-batch getter: its status code, the
/// node it wrote into the freshly zeroed output slot, and — for a non-zero
/// status — the last-error message. A successful answer whose node has an
/// empty release slot is the end-of-stream sentinel.
pub struct PullReply {
    /// The status code; zero means success.
    pub status: i32,
    /// The node found in the output slot after a successful call.
    pub node: ArrayNode,
    /// The producer's last-error message, meaningful for a non-zero status.
    pub message: String,
}

/// What one pull produced.
#[derive(Debug)]
pub enum PullStep {
    /// A validated record batch; the consumer now owns its buffers.
    Yielded(RecordBatch),
    /// The end-of-stream sentinel; not an error.
    Finished,
    /// A producer error or a rejected batch; iteration stops.
    Failed(BridgeError),
}

/// The consumer's state: its phase and the schema fetched once before the
/// first pull. Methods take the session exclusively, so at most one pull can
/// ever be in flight.
pub struct Session {
    phase: Phase,
    schema: Option<Schema>,
}

impl Session {
    /// The session's current phase.
    pub closed spec fn phase(self) -> Phase {
        self.phase
    }

    /// The schema fetched so far, if any.
    pub closed spec fn schema(self) -> Option<Schema> {
        self.schema
    }

    /// A pulling session always holds a schema.
    pub open spec fn wf(self) -> bool {
        self.phase() == Phase::Pulling ==> self.schema() is Some
    }

    /// A fresh consumer for one stream, before the schema fetch.
    pub fn new() -> (s: Session)
        ensures
            s.phase() == Phase::NeedSchema,
            s.schema() is None,
            s.wf(),
    {
        Session { phase: Phase::NeedSchema, schema: None }
    }

    /// The current phase, observable at run time.
    pub fn current_phase(&self) -> (p: Phase)
        ensures
            p == self.phase(),
    {
        self.phase
    }

    /// Digests the producer's one schema answer. A zero status moves the
    /// session to `Pulling` with the schema in hand; any other status ends
    /// the stream at once with the producer's message attached.
    pub fn on_schema(&mut self, reply: SchemaReply) -> (r: Result<(), BridgeError>)
        requires
            old(self).phase() == Phase::NeedSchema,
            reply.status == 0 ==> reply.schema is Some,
        ensures
            final(self).wf(),
            reply.status != 0 ==> {
                &&& r matches Err(e) && (e matches BridgeError::SchemaRetrieval {
                    status,
                    message,
                } && status == reply.status && message@ == reply.message@)
                &&& final(self).phase() == Phase::Done
            },
            reply.status == 0 ==> {
                &&& r is Ok
                &&& final(self).phase() == Phase::Pulling
                &&& final(self).schema() == reply.schema
            },
    {
        if reply.status != 0 {
            self.phase = Phase::Done;
            Err(BridgeError::SchemaRetrieval { status: reply.status, message: reply.message })
        } else {
            self.phase = Phase::Pulling;
            self.schema = reply.schema;
            Ok(())
        }
    }

    /// Digests one answer from the next-batch getter, pulled into a freshly
    /// zeroed output slot:
    ///
    /// - a non-zero status fails the stream with the producer's message;
    /// - a zero status whose node has an empty release slot is end-of-stream,
    ///   not an error;
    /// - otherwise the consumer owns the node and hands it to the batch
    ///   validator, yielding the batch or failing the stream with the
    ///   validator's verdict.
    ///
    /// Every outcome but a yielded batch ends the stream: this consumer
    /// stops on the first error rather than pulling past it.
    pub fn on_pull(&mut self, reply: PullReply) -> (step: PullStep)
        requires
            old(self).phase() == Phase::Pulling,
            old(self).wf(),
        ensures
            final(self).wf(),
            final(self).schema() == old(self).schema(),
            final(self).phase() == (if pull_yields(old(self).schema()->Some_0, reply) {
                Phase::Pulling
            } else {
                Phase::Done
            }),
            pull_step_matches(old(self).schema()->Some_0, reply, step),
    {
        if reply.status != 0 {
            self.phase = Phase::Done;
            return PullStep::Failed(BridgeError::NextBatch {
                status: reply.status,
                message: reply.message,
            });
        }
        if reply.node.is_end_of_stream() {
            self.phase = Phase::Done;
            return PullStep::Finished;
        }
        let schema = match &self.schema {
            Some(s) => s,
            None => {
                // Unreachable: a pulling session always holds a schema.
                proof {
                    assert(false);
                }
                self.phase = Phase::Done;
                return PullStep::Finished;
            },
        };
        match validate_batch(schema, reply.node) {
            Ok(b) => PullStep::Yielded(b),
            Err(e) => {
                self.phase = Phase::Done;
                PullStep::Failed(e)
            },
        }
    }

    /// Ends the stream early, before end-of-stream was observed. After this,
    /// no further producer call is made for this stream.
    pub fn abandon(&mut self)
        ensures
            final(self).phase() == Phase::Done,
            final(self).schema() == old(self).schema(),
            final(self).wf(),
    {
        self.phase = Phase::Done;
    }
}

/// A pull answer that yields a batch: success status, a node that is real
/// data rather than the end-of-stream sentinel, and a root that passes the
/// batch validator.
pub open spec fn pull_yields(s: Schema, r: PullReply) -> bool {
    &&& r.status == 0
    &&& r.node.releasable
    &&& valid_root(s, r.node)
}

/// What one pull answer must turn into, for a consumer holding schema `s`.
pub open spec fn pull_step_matches(s: Schema, r: PullReply, step: PullStep) -> bool {
    if r.status != 0 {
        step matches PullStep::Failed(e) && (e matches BridgeError::NextBatch {
            status,
            message,
        } && status == r.status && message@ == r.message@)
    } else if !r.node.releasable {
        step is Finished
    } else if r.node.type_tag != TypeTag::Struct {
        step matches PullStep::Failed(e) && e is StructTypeMismatch
    } else if r.node.children@.len() != s.fields@.len() {
        step matches PullStep::Failed(e) && e is SchemaColumnCountMismatch
    } else {
        step matches PullStep::Yielded(b) && batch_matches(s, r.node, b)
    }
}

/// Everything one run of the consumer produced.
#[derive(Debug)]
pub struct StreamOutcome {
    /// The validated batches, in the order the producer yielded them.
    pub batches: Vec<RecordBatch>,
    /// The failure that ended the run, if one did; end-of-stream and
    /// abandonment are not failures.
    pub failure: Option<BridgeError>,
    /// How many times the handle-level release callback was invoked.
    pub releases: usize,
    /// How many times the next-batch getter was called.
    pub pulls: usize,
}

/// The failure that ends a run at a terminal (non-yielding) pull answer:
/// the producer's error with its message, nothing for end-of-stream, or the
/// validator's verdict on a rejected batch.
pub open spec fn terminal_failure(s: Schema, r: PullReply, failure: Option<BridgeError>) -> bool {
    if r.status != 0 {
        failure matches Some(e) && (e matches BridgeError::NextBatch {
            status,
            message,
        } && status == r.status && message@ == r.message@)
    } else if !r.node.releasable {
        failure is None
    } else if r.node.type_tag != TypeTag::Struct {
        failure matches Some(e) && e is StructTypeMismatch
    } else {
        failure matches Some(e) && e is SchemaColumnCountMismatch
    }
}

/// The bridge's guarantees over one whole run against a producer that
/// answered `replies` after the schema answer `schema_reply`, with the
/// consumer willing to take at most `limit` batches:
///
/// - the handle-level release callback is invoked exactly once whenever the
///   handle has one, on every exit path, and never otherwise;
/// - a handle with an empty required slot is never driven;
/// - a failed schema fetch fails the run at once, with no pull made;
/// - the batches out are exactly, in order, the validated batches of the
///   longest prefix of yielding answers the consumer consumed;
/// - the consumer pulls at most once past that prefix — never after a
///   terminal answer, and never after taking its `limit`.
pub open spec fn run_contract(
    handle: HandleView,
    schema_reply: SchemaReply,
    replies: Seq<PullReply>,
    limit: int,
    out: StreamOutcome,
) -> bool {
    &&& out.releases == (if handle.has_release {
        1int
    } else {
        0int
    })
    &&& !handle.complete() ==> {
        &&& out.pulls == 0
        &&& out.batches@.len() == 0
        &&& out.failure matches Some(e) && e is UnexpectedNullPointer
    }
    &&& handle.complete() && schema_reply.status != 0 ==> {
        &&& out.pulls == 0
        &&& out.batches@.len() == 0
        &&& out.failure matches Some(e) && (e matches BridgeError::SchemaRetrieval {
            status,
            message,
        } && status == schema_reply.status && message@ == schema_reply.message@)
    }
    &&& handle.complete() && schema_reply.status == 0 ==> {
        let s = schema_reply.schema->Some_0;
        let n = out.batches@.len() as int;
        &&& n <= limit
        &&& n <= replies.len()
        &&& out.pulls == n || (out.pulls == n + 1 && n < limit)
        &&& forall|i: int|
            0 <= i < n ==> pull_yields(s, #[trigger] replies[i]) && batch_matches(
                s,
                replies[i].node,
                out.batches@[i],
            )
        &&& out.pulls == n + 1 ==> !pull_yields(s, replies[n]) && terminal_failure(
            s,
            replies[n],
            out.failure,
        )
        &&& out.pulls == n ==> (n == limit || n == replies.len()) && out.failure is None
    }
}

/// Runs one whole stream to its natural end: fetches the schema once, pulls
/// until the producer answers with an error or the end-of-stream sentinel,
/// validates every batch, and releases the handle exactly once.
pub fn consume_stream(
    handle: HandleView,
    schema_reply: SchemaReply,
    replies: Vec<PullReply>,
) -> (out: StreamOutcome)
    requires
        schema_reply.status == 0 ==> schema_reply.schema is Some,
    ensures
        run_contract(handle, schema_reply, replies@, replies@.len() as int, out),
{
    let limit = replies.len();
    consume_stream_abandoning(handle, schema_reply, replies, limit)
}

/// Like [`consume_stream`], but the consumer walks away after taking at most
/// `limit` batches. Abandonment makes no further producer call and still
/// routes through the release guard, so the handle-level release fires
/// exactly once all the same.
pub fn consume_stream_abandoning(
    handle: HandleView,
    schema_reply: SchemaReply,
    replies: Vec<PullReply>,
    limit: usize,
) -> (out: StreamOutcome)
    requires
        schema_reply.status == 0 ==> schema_reply.schema is Some,
    ensures
        run_contract(handle, schema_reply, replies@, limit as int, out),
{
    let mut guard = ReleaseGuard::new();
    let mut releases: usize = 0;
    let mut pulls: usize = 0;
    let mut batches: Vec<RecordBatch> = Vec::new();

    if let Err(e) = handle.check_populated() {
        let invoke = guard.finish();
        if invoke && handle.has_release {
            releases += 1;
        }
        return StreamOutcome { batches, failure: Some(e), releases, pulls };
    }
    guard.mark_populated();

    let ghost s_spec = schema_reply.schema->Some_0;
    let mut session = Session::new();
    if let Err(e) = session.on_schema(schema_reply) {
        let invoke = guard.finish();
        if invoke && handle.has_release {
            releases += 1;
        }
        return StreamOutcome { batches, failure: Some(e), releases, pulls };
    }
    guard.mark_iterating();

    let mut rest = replies;
    let ghost orig = rest@;
    let mut failure: Option<BridgeError> = None;
    let mut finished = false;

    while !finished
        invariant
            session.wf(),
            session.schema() == Some(s_spec),
            batches@.len() <= limit,
            pulls == orig.len() - rest@.len(),
            rest@ == orig.subrange(pulls as int, orig.len() as int),
            forall|i: int|
                0 <= i < batches@.len() ==> pull_yields(s_spec, #[trigger] orig[i])
                    && batch_matches(s_spec, orig[i].node, batches@[i]),
            !finished ==> {
                &&& session.phase() == Phase::Pulling
                &&& pulls == batches@.len()
                &&& failure is None
            },
            finished ==> {
                let n = batches@.len() as int;
                &&& session.phase() == Phase::Done
                &&& out_shape(s_spec, orig, limit as int, n, pulls as int, failure)
            },
        decreases rest@.len(), (if finished {
            0int
        } else {
            1int
        }),
    {
        if batches.len() == limit {
            session.abandon();
            finished = true;
        } else if rest.len() == 0 {
            session.abandon();
            finished = true;
        } else {
            let reply = rest.remove(0);
            pulls += 1;
            proof {
                assert(rest@ =~= orig.subrange(pulls as int, orig.len() as int));
            }
            match session.on_pull(reply) {
                PullStep::Yielded(b) => {
                    batches.push(b);
                },
                PullStep::Finished => {
                    finished = true;
                },
                PullStep::Failed(e) => {
                    failure = Some(e);
                    finished = true;
                },
            }
        }
    }

    let invoke = guard.finish();
    if invoke && handle.has_release {
        releases += 1;
    }
    StreamOutcome { batches, failure, releases, pulls }
}

/// For any producer that yields some number of batches and then answers with
/// the end-of-stream sentinel, a run willing to take at least that many
/// yields exactly those batches, in order; it pulls the sentinel and nothing
/// after it, ends cleanly, and releases the handle exactly once.
pub proof fn lemma_all_batches_before_sentinel(
    handle: HandleView,
    schema_reply: SchemaReply,
    replies: Seq<PullReply>,
    limit: int,
    n: int,
    out: StreamOutcome,
)
    requires
        handle.complete(),
        schema_reply.status == 0,
        0 <= n < replies.len(),
        n < limit,
        forall|i: int|
            0 <= i < n ==> pull_yields(schema_reply.schema->Some_0, #[trigger] replies[i]),
        replies[n].status == 0,
        !replies[n].node.releasable,
        run_contract(handle, schema_reply, replies, limit, out),
    ensures
        out.batches@.len() == n,
        out.pulls == n + 1,
        out.failure is None,
        out.releases == 1,
        forall|i: int|
            0 <= i < n ==> batch_matches(
                schema_reply.schema->Some_0,
                replies[i].node,
                #[trigger] out.batches@[i],
            ),
{
    let s = schema_reply.schema->Some_0;
    let nb = out.batches@.len() as int;
    assert(!pull_yields(s, replies[n]));
    if nb < n {
        assert(pull_yields(s, replies[nb]));
        assert(false);
    }
    if nb > n {
        assert(pull_yields(s, replies[n]));
        assert(false);
    }
}

/// A consumer abandoned after taking `limit` of the batches a producer had
/// ready takes exactly those, makes no producer call past them, ends
/// cleanly, and still releases the handle exactly once.
pub proof fn lemma_abandonment_stops_pulls(
    handle: HandleView,
    schema_reply: SchemaReply,
    replies: Seq<PullReply>,
    limit: int,
    out: StreamOutcome,
)
    requires
        handle.complete(),
        schema_reply.status == 0,
        0 <= limit <= replies.len(),
        forall|i: int|
            0 <= i < limit ==> pull_yields(schema_reply.schema->Some_0, #[trigger] replies[i]),
        run_contract(handle, schema_reply, replies, limit, out),
    ensures
        out.batches@.len() == limit,
        out.pulls == limit,
        out.failure is None,
        out.releases == 1,
{
    let s = schema_reply.schema->Some_0;
    let nb = out.batches@.len() as int;
    if nb < limit {
        assert(pull_yields(s, replies[nb]));
        assert(false);
    }
}

/// The shape a finished run has: the pull count sits at the batch count, or
/// one past it when a terminal answer was consumed; a run that stopped
/// without a terminal answer ran out of its limit or of the producer's
/// history, cleanly.
pub open spec fn out_shape(
    s: Schema,
    orig: Seq<PullReply>,
    limit: int,
    n: int,
    pulls: int,
    failure: Option<BridgeError>,
) -> bool {
    &&& pulls == n || (pulls == n + 1 && n < limit)
    &&& pulls == n + 1 ==> !pull_yields(s, orig[n]) && terminal_failure(s, orig[n], failure)
    &&& pulls == n ==> (n == limit || n == orig.len()) && failure is None
}

} // verus!
