//! The laws of the instrumentation, stated over a model of a whole run: the
//! probes a sequence of operations emits on one connection, and the manager
//! status a conforming underlying connection moves through while it runs.

use vstd::prelude::*;

use crate::probe::Event;
use crate::status::TxStatus;

verus! {

/// How a conforming underlying manager moves its status when a begin
/// succeeds: one more nested transaction is open, saturating at the widest
/// representable depth. An unreadable status stays unreadable; the wrapper
/// never repairs it.
pub open spec fn after_begin(s: TxStatus) -> TxStatus {
    match s {
        TxStatus::Idle => TxStatus::Open { depth: 1 },
        TxStatus::Open { depth } => TxStatus::Open {
            depth: if depth == u32::MAX {
                u32::MAX
            } else {
                (depth + 1) as u32
            },
        },
        TxStatus::Broken => TxStatus::Broken,
    }
}

/// How a conforming underlying manager moves its status when a commit or
/// rollback succeeds: the innermost open transaction closes.
pub open spec fn after_boundary(s: TxStatus) -> TxStatus {
    match s {
        TxStatus::Idle => TxStatus::Idle,
        TxStatus::Open { depth } => if depth <= 1 {
            TxStatus::Idle
        } else {
            TxStatus::Open { depth: (depth - 1) as u32 }
        },
        TxStatus::Broken => TxStatus::Broken,
    }
}

/// One completed operation of a model run on an established connection.
pub enum Op {
    /// A query-like operation: a batch execute, a load, or an
    /// execute-returning-count, with the values its probes carry.
    Query { correlation: u64, text: Seq<char> },
    /// A successful transaction begin.
    Begin,
    /// A successful commit.
    Commit,
    /// A successful rollback.
    Rollback,
}

/// The manager status after one operation: queries leave it alone; the
/// wrapper itself never moves it, only the delegated call does.
pub open spec fn op_next(s: TxStatus, op: Op) -> TxStatus {
    match op {
        Op::Query { .. } => s,
        Op::Begin => after_begin(s),
        Op::Commit => after_boundary(s),
        Op::Rollback => after_boundary(s),
    }
}

/// The probes one operation emits, given the status the manager held when the
/// operation started: query probes come as a start/done pair sharing one
/// correlation id; a begin reports the depth its transaction will have,
/// read before the delegated call; a commit or rollback reports the depth
/// that remains, read after it.
pub open spec fn op_trace(conn: u128, s: TxStatus, op: Op) -> Seq<Event> {
    match op {
        Op::Query { correlation, text } => seq![
            Event::QueryStart { correlation, conn, text },
            Event::QueryDone { correlation, conn },
        ],
        Op::Begin => seq![
            Event::TxStart { conn, depth: s.begin_depth_spec() as i64 },
        ],
        Op::Commit => seq![
            Event::TxDone { conn, depth: after_boundary(s).depth_spec() as i64, committed: 1u8 },
        ],
        Op::Rollback => seq![
            Event::TxDone { conn, depth: after_boundary(s).depth_spec() as i64, committed: 0u8 },
        ],
    }
}

/// The manager status after a run of operations.
pub open spec fn run_status(s: TxStatus, ops: Seq<Op>) -> TxStatus
    decreases ops.len(),
{
    if ops.len() == 0 {
        s
    } else {
        run_status(op_next(s, ops[0]), ops.drop_first())
    }
}

/// Every probe a run of operations emits, in order.
pub open spec fn run_trace(conn: u128, s: TxStatus, ops: Seq<Op>) -> Seq<Event>
    decreases ops.len(),
{
    if ops.len() == 0 {
        Seq::empty()
    } else {
        op_trace(conn, s, ops[0]) + run_trace(conn, op_next(s, ops[0]), ops.drop_first())
    }
}

/// The number of start probes of correlation-paired operations in a trace.
pub open spec fn n_starts(t: Seq<Event>) -> nat
    decreases t.len(),
{
    if t.len() == 0 {
        0
    } else {
        (if t[0].is_start() { 1nat } else { 0nat }) + n_starts(t.drop_first())
    }
}

/// The number of done probes of correlation-paired operations in a trace.
pub open spec fn n_dones(t: Seq<Event>) -> nat
    decreases t.len(),
{
    if t.len() == 0 {
        0
    } else {
        (if t[0].is_done() { 1nat } else { 0nat }) + n_dones(t.drop_first())
    }
}

/// Start and done counts both distribute over concatenation of traces.
proof fn lemma_counts_add(a: Seq<Event>, b: Seq<Event>)
    ensures
        n_starts(a + b) == n_starts(a) + n_starts(b),
        n_dones(a + b) == n_dones(a) + n_dones(b),
    decreases a.len(),
{
    if a.len() == 0 {
        assert(a + b =~= b);
    } else {
        assert((a + b).drop_first() =~= a.drop_first() + b);
        lemma_counts_add(a.drop_first(), b);
    }
}

/// Connection-id stability: every probe of a run is tagged with the id of
/// the connection it ran on, so concurrent connections' probes can always be
/// told apart by that tag.
pub proof fn lemma_conn_id_stable(conn: u128, s: TxStatus, ops: Seq<Op>)
    ensures
        forall|i: int|
            0 <= i < run_trace(conn, s, ops).len()
                ==> (#[trigger] run_trace(conn, s, ops)[i]).conn() == conn,
    decreases ops.len(),
{
    if ops.len() > 0 {
        let head = op_trace(conn, s, ops[0]);
        let rest = run_trace(conn, op_next(s, ops[0]), ops.drop_first());
        let t = run_trace(conn, s, ops);
        lemma_conn_id_stable(conn, op_next(s, ops[0]), ops.drop_first());
        assert forall|i: int| 0 <= i < t.len() implies (#[trigger] t[i]).conn() == conn by {
            if i < head.len() {
                assert(t[i] == head[i]);
            } else {
                assert(t[i] == rest[i - head.len()]);
            }
        }
    }
}

/// A single operation emits as many done probes as start probes: two of a
/// pair for a query, none for a transaction boundary.
proof fn lemma_op_counts(conn: u128, s: TxStatus, op: Op)
    ensures
        n_starts(op_trace(conn, s, op)) == n_dones(op_trace(conn, s, op)),
{
    let t = op_trace(conn, s, op);
    match op {
        Op::Query { correlation, text } => {
            let e1 = Event::QueryStart { correlation, conn, text };
            let e2 = Event::QueryDone { correlation, conn };
            let t1 = t.drop_first();
            let t2 = t1.drop_first();
            assert(t =~= seq![e1, e2]);
            assert(t1 =~= seq![e2]);
            assert(t2 =~= Seq::<Event>::empty());
            assert(n_starts(t2) == 0 && n_dones(t2) == 0);
            assert(t1[0] == e2);
            assert(n_starts(t1) == 0 && n_dones(t1) == 1);
            assert(t[0] == e1);
            assert(n_starts(t) == 1 && n_dones(t) == 1);
        },
        _ => {
            let t1 = t.drop_first();
            assert(t.len() == 1);
            assert(!t[0].is_start() && !t[0].is_done());
            assert(t1 =~= Seq::<Event>::empty());
            assert(n_starts(t1) == 0 && n_dones(t1) == 0);
            assert(n_starts(t) == 0 && n_dones(t) == 0);
        },
    }
}

/// Pairing: in any run, every start probe is immediately followed by its
/// done probe carrying the same correlation id, and the run emits exactly as
/// many done probes as start probes.
pub proof fn lemma_run_pairing(conn: u128, s: TxStatus, ops: Seq<Op>)
    ensures
        n_starts(run_trace(conn, s, ops)) == n_dones(run_trace(conn, s, ops)),
        forall|i: int|
            0 <= i < run_trace(conn, s, ops).len()
                && (#[trigger] run_trace(conn, s, ops)[i]).is_start() ==> {
                &&& i + 1 < run_trace(conn, s, ops).len()
                &&& run_trace(conn, s, ops)[i + 1].is_done()
                &&& run_trace(conn, s, ops)[i + 1].correlation()
                    == run_trace(conn, s, ops)[i].correlation()
            },
    decreases ops.len(),
{
    if ops.len() > 0 {
        let head = op_trace(conn, s, ops[0]);
        let rest = run_trace(conn, op_next(s, ops[0]), ops.drop_first());
        let t = run_trace(conn, s, ops);
        lemma_run_pairing(conn, op_next(s, ops[0]), ops.drop_first());
        lemma_counts_add(head, rest);
        lemma_op_counts(conn, s, ops[0]);
        assert forall|i: int|
            0 <= i < t.len() && (#[trigger] t[i]).is_start() implies {
            &&& i + 1 < t.len()
            &&& t[i + 1].is_done()
            &&& t[i + 1].correlation() == t[i].correlation()
        } by {
            if i < head.len() {
                assert(t[i] == head[i]);
            } else {
                assert(t[i] == rest[i - head.len()]);
                assert(t[i + 1] == rest[i + 1 - head.len()]);
            }
        }
    }
}

/// Sentinel safety: an unreadable manager status is reported as the `-1`
/// sentinel on transaction-start and transaction-done probes alike. Depth is
/// diagnostic only: the done-probe builders return the delegated outcome
/// unchanged for every status, readable or not (see
/// [`crate::ops::transaction_done`]), so a diagnostic failure never turns a
/// successful operation into a failed one.
pub proof fn lemma_sentinel_safety()
    ensures
        TxStatus::Broken.depth_spec() == -1,
        TxStatus::Broken.begin_depth_spec() == -1,
        forall|op: Op| op_next(TxStatus::Broken, op) is Broken,
{
}

/// The probes one establish attempt emits, succeed or fail.
pub open spec fn establish_trace(correlation: u64, conn: u128, target: Seq<char>, ok: bool) -> Seq<
    Event,
> {
    seq![
        Event::EstablishStart { correlation, conn, target },
        Event::EstablishDone { correlation, conn, success: if ok { 1u8 } else { 0u8 } },
    ]
}

/// Pairing for connection establishment: one start probe, one done probe, in
/// order and sharing one correlation id, whatever the outcome; the done
/// probe's success flag is `1` exactly when the attempt succeeded.
pub proof fn lemma_establish_pairing(correlation: u64, conn: u128, target: Seq<char>, ok: bool)
    ensures
        establish_trace(correlation, conn, target, ok).len() == 2,
        establish_trace(correlation, conn, target, ok)[0].is_start(),
        establish_trace(correlation, conn, target, ok)[1].is_done(),
        establish_trace(correlation, conn, target, ok)[0].correlation() == establish_trace(
            correlation,
            conn,
            target,
            ok,
        )[1].correlation(),
        establish_trace(correlation, conn, target, ok)[1] matches Event::EstablishDone {
            success,
            ..
        } && success == (if ok { 1u8 } else { 0u8 }),
        n_starts(establish_trace(correlation, conn, target, ok)) == n_dones(
            establish_trace(correlation, conn, target, ok),
        ),
{
    let t = establish_trace(correlation, conn, target, ok);
    let t1 = t.drop_first();
    let t2 = t1.drop_first();
    assert(t2 =~= Seq::<Event>::empty());
    assert(n_starts(t2) == 0 && n_dones(t2) == 0);
    assert(t1[0] == t[1]);
    assert(n_starts(t1) == 0 && n_dones(t1) == 1);
    assert(n_starts(t) == 1 && n_dones(t) == 1);
}

/// The status in which `d` nested transactions are open.
pub open spec fn open_status(d: nat) -> TxStatus {
    if d == 0 {
        TxStatus::Idle
    } else {
        TxStatus::Open { depth: d as u32 }
    }
}

/// A run of `n` successful begins.
pub open spec fn begins(n: nat) -> Seq<Op> {
    Seq::new(n, |i: int| Op::Begin)
}

/// A run of `n` successful commits.
pub open spec fn commits(n: nat) -> Seq<Op> {
    Seq::new(n, |i: int| Op::Commit)
}

/// `n` nested begins followed by the `n` commits that close them.
pub open spec fn nested_ops(n: nat) -> Seq<Op> {
    begins(n) + commits(n)
}

/// A run splits: the probes of `a + b` are the probes of `a` followed by the
/// probes of `b` run from the status `a` left behind.
proof fn lemma_run_trace_add(conn: u128, s: TxStatus, a: Seq<Op>, b: Seq<Op>)
    ensures
        run_trace(conn, s, a + b) =~= run_trace(conn, s, a) + run_trace(conn, run_status(s, a), b),
        run_status(s, a + b) == run_status(run_status(s, a), b),
    decreases a.len(),
{
    if a.len() == 0 {
        assert(a + b =~= b);
        assert(run_trace(conn, s, a) =~= Seq::<Event>::empty());
    } else {
        assert((a + b)[0] == a[0]);
        assert((a + b).drop_first() =~= a.drop_first() + b);
        lemma_run_trace_add(conn, op_next(s, a[0]), a.drop_first(), b);
    }
}

/// With `d` transactions already open, `n` more begins fire start probes at
/// depths `d+1 .. d+n` and leave `d+n` transactions open.
proof fn lemma_begins_trace(conn: u128, d: nat, n: nat)
    requires
        d + n <= u32::MAX,
    ensures
        run_status(open_status(d), begins(n)) == open_status(d + n),
        run_trace(conn, open_status(d), begins(n)) =~= Seq::new(
            n,
            |i: int| Event::TxStart { conn, depth: (d + i + 1) as i64 },
        ),
    decreases n,
{
    if n == 0 {
        assert(begins(0) =~= Seq::<Op>::empty());
    } else {
        let s = open_status(d);
        assert(begins(n)[0] == Op::Begin);
        assert(begins(n).drop_first() =~= begins((n - 1) as nat));
        assert(op_next(s, Op::Begin) == open_status(d + 1));
        assert(s.begin_depth_spec() == d + 1);
        lemma_begins_trace(conn, d + 1, (n - 1) as nat);
        assert(run_trace(conn, s, begins(n)) =~= Seq::new(
            n,
            |i: int| Event::TxStart { conn, depth: (d + i + 1) as i64 },
        ));
    }
}

/// With `d` transactions open, `n <= d` commits fire done probes at the
/// depths that remain, `d-1` down to `d-n`, each marked committed, and leave
/// `d-n` transactions open.
proof fn lemma_commits_trace(conn: u128, d: nat, n: nat)
    requires
        n <= d <= u32::MAX,
    ensures
        run_status(open_status(d), commits(n)) == open_status((d - n) as nat),
        run_trace(conn, open_status(d), commits(n)) =~= Seq::new(
            n,
            |i: int| Event::TxDone { conn, depth: (d - i - 1) as i64, committed: 1u8 },
        ),
    decreases n,
{
    if n > 0 {
        let s = open_status(d);
        assert(commits(n)[0] == Op::Commit);
        assert(commits(n).drop_first() =~= commits((n - 1) as nat));
        assert(op_next(s, Op::Commit) == open_status((d - 1) as nat));
        assert(after_boundary(s).depth_spec() == d - 1);
        lemma_commits_trace(conn, (d - 1) as nat, (n - 1) as nat);
        assert(run_trace(conn, s, commits(n)) =~= Seq::new(
            n,
            |i: int| Event::TxDone { conn, depth: (d - i - 1) as i64, committed: 1u8 },
        ));
    } else {
        assert(commits(0) =~= Seq::<Op>::empty());
    }
}

/// Depth-monotonic nesting: on a fresh connection, `n` nested begins each
/// closed by a commit fire their start probes at depths `1, 2, ..., n`, and
/// the commits fire their done probes at the depths that remain after each
/// boundary, `n-1` down to `0`, every one marked committed.
pub proof fn lemma_nested_depths(conn: u128, n: nat)
    requires
        n <= u32::MAX,
    ensures
        run_trace(conn, TxStatus::Idle, nested_ops(n)).len() == 2 * n,
        forall|k: int|
            0 <= k < n ==> run_trace(conn, TxStatus::Idle, nested_ops(n))[k] == (Event::TxStart {
                conn,
                depth: (k + 1) as i64,
            }),
        forall|k: int|
            0 <= k < n ==> #[trigger] run_trace(conn, TxStatus::Idle, nested_ops(n))[n + k]
                == (Event::TxDone { conn, depth: (n - k - 1) as i64, committed: 1u8 }),
{
    lemma_run_trace_add(conn, TxStatus::Idle, begins(n), commits(n));
    assert(open_status(0) == TxStatus::Idle);
    lemma_begins_trace(conn, 0, n);
    lemma_commits_trace(conn, n, n);
}

} // verus!
