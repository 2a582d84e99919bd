//! The bridge between guest unwinding and the host's non-local-jump error
//! propagation: the catch scope, the two converters, and re-throw.
//!
//! Every crossing between the two propagation mechanisms goes through exactly
//! one of these functions.  Each is verified to restore the host's globals on
//! every exit path, and never to let one mechanism's in-flight exit cross
//! unconverted into the other's territory.

use vstd::prelude::*;

use crate::host::{
    payload_in, raise_host_error, Control, ErrorData, ErrorView, HostState, Marker, PanicPayload,
    PgError, ERROR_LEVEL,
};
use crate::memory::{delete_context, delete_rel, within, ArenaCell, MemoryContext};
use crate::varlena::copy_bytes;

verus! {

// ---------------------------------------------------------------------------
// The protocol: what the bridge assumes of guest computations.
// ---------------------------------------------------------------------------

/// What any well-behaved guest computation guarantees, between the state it
/// was started in and the state in which it left through channel `c`.
///
/// On a normal return and on a guest unwind the jump-target globals are as
/// the computation found them (every inner scope restored its snapshot on the
/// way out, and a guest unwind never touches the host's jump machinery).  On
/// a host jump, the jump arrived at the target that was active when the
/// computation started — an inner catch scope would have consumed it — and
/// the host's transient record describes the error.  Memory contexts are
/// never removed from the store, only marked deleted, so the store can only
/// grow.  A jump arriving with no pending record would mean the host's error
/// state is corrupted — the bridge treats that as fatal rather than trying to
/// recover, and the protocol makes the situation unreachable here.
pub open spec fn guest_protocol<R>(pre: HostState, post: HostState, c: Control<R>) -> bool {
    &&& post.wf()
    &&& post.jump_target == pre.jump_target
    &&& post.arenas.cells.len() >= pre.arenas.cells.len()
    &&& (c matches Control::Return(_) ==> post.context_stack == pre.context_stack)
    &&& (c is HostJump ==> post.pending_error is Some)
    &&& (c matches Control::GuestUnwind(p) ==> post.context_stack == pre.context_stack
        && payload_in(p, post))
}

// ---------------------------------------------------------------------------
// Spec-level transitions.  Each executable bridge function promises exactly
// one of these in its contract; the laws at the end of this file compose
// them.
// ---------------------------------------------------------------------------

/// The token that will be handed out after `t`.
pub open spec fn next_token(t: u64) -> u64 {
    if t == u64::MAX {
        0u64
    } else {
        (t + 1) as u64
    }
}

/// The state a catch scope runs its guest computation in: a fresh jump target
/// pointing at this scope is installed.
pub open spec fn spec_armed(st: HostState) -> HostState {
    HostState { jump_target: st.next_frame, next_frame: next_token(st.next_frame), ..st }
}

/// The state after a catch scope's guard has released: the snapshotted jump
/// pointers, and the saved allocator selection, are back; everything else is
/// as the guest computation left it.
pub open spec fn spec_restored(exit: HostState, entry: HostState) -> HostState {
    HostState {
        jump_target: entry.jump_target,
        context_stack: entry.context_stack,
        current: entry.current,
        ..exit
    }
}

/// The dedicated memory context created to own a captured error record.
pub open spec fn error_arena_cell() -> ArenaCell {
    ArenaCell {
        alive: true,
        parent: None,
        min_size: 0,
        init_size: 8192,
        max_size: (8192 * 1024) as usize,
    }
}

/// What capturing the host's pending error does, between the state in which
/// the in-flight jump arrived (`pre`) and the state after the capture: a
/// fresh dedicated context is created and made current, the pending record is
/// moved into it, and the host's transient error state is cleared.
pub open spec fn record_rel(pre: HostState, post: HostState, e: PgError) -> bool {
    &&& pre.pending_error matches Some(d) && e.data == d
    &&& e.arena == pre.arenas.cells.len()
    &&& post.arenas.cells@ == pre.arenas.cells@.push(error_arena_cell())
    &&& post.arenas.allocs == pre.arenas.allocs
    &&& post.pending_error is None
    &&& post.current == e.arena
    &&& post.jump_target == pre.jump_target
    &&& post.context_stack == pre.context_stack
    &&& post.next_frame == pre.next_frame
    &&& post.panic_slot == pre.panic_slot
}

/// The whole trap path of a catch scope, from the scope's entry state
/// (`entry`), through the state in which the jump arrived (`arrival`), to the
/// scope's exit state: pointers restored from the snapshot first, then the
/// pending record captured into a fresh dedicated context, then the saved
/// allocator selection put back.
pub open spec fn catch_trap_rel(
    entry: HostState,
    arrival: HostState,
    post: HostState,
    e: PgError,
) -> bool {
    &&& arrival.pending_error matches Some(d) && e.data == d
    &&& e.arena == arrival.arenas.cells.len()
    &&& post.arenas.cells@ == arrival.arenas.cells@.push(error_arena_cell())
    &&& post.arenas.allocs == arrival.arenas.allocs
    &&& post.pending_error is None
    &&& post.panic_slot == arrival.panic_slot
    &&& post.next_frame == arrival.next_frame
    &&& post.jump_target == entry.jump_target
    &&& post.context_stack == entry.context_stack
    &&& post.current == entry.current
}

/// What re-throwing a captured error does: the copied record goes back into
/// the host's transient state, the dedicated context that owned the copy is
/// released, the jump pointers end up exactly where they started (the
/// internal snapshot is restored before the host's own mechanism takes over),
/// and one jump-target token has been consumed.
pub open spec fn rethrow_rel(pre: HostState, post: HostState, e: PgError) -> bool {
    &&& post.pending_error == Some(e.data)
    &&& post.panic_slot == pre.panic_slot
    &&& post.jump_target == pre.jump_target
    &&& post.context_stack == pre.context_stack
    &&& post.next_frame == next_token(pre.next_frame)
    &&& post.current == pre.current
    &&& delete_rel(pre.arenas, post.arenas, e.arena as int)
}

/// The host error record the bridge synthesizes for a guest panic whose
/// payload text is `msg`: severity that jumps, the sentinel marker, and the
/// payload's own text as the message.
pub open spec fn guest_panic_report(msg: Seq<u8>) -> ErrorView {
    ErrorView {
        elevel: ERROR_LEVEL as int,
        marker: Marker::GuestPanic,
        message: msg,
        detail: None,
        hint: None,
        filename: Seq::empty(),
        lineno: 0,
    }
}

/// What converting a caught guest panic into the host's machinery does.  A
/// round-tripped captured error is replayed through the host's native
/// re-raise, so no new record is synthesized.  A genuine guest payload is
/// reported under the sentinel marker and parked in the process-wide slot,
/// replacing (and thereby releasing) any stale previous payload.
pub open spec fn panic_to_host_rel(pre: HostState, post: HostState, p: PanicPayload) -> bool {
    match p {
        PanicPayload::RoundTrippedHostError(e) => rethrow_rel(pre, post, e),
        PanicPayload::Opaque(b) => {
            &&& post.pending_error matches Some(d) && d@ == guest_panic_report(b@)
            &&& post.panic_slot == Some(PanicPayload::Opaque(b))
            &&& post.jump_target == pre.jump_target
            &&& post.context_stack == pre.context_stack
            &&& post.next_frame == pre.next_frame
            &&& post.current == pre.current
            &&& post.arenas.cells == pre.arenas.cells
            &&& post.arenas.allocs == pre.arenas.allocs
        },
    }
}

/// What converting a captured host error into a guest panic does.  If the
/// record carries the sentinel marker, the original guest payload is
/// retrieved from the slot — the resumed unwind carries that exact payload —
/// and the captured record's dedicated context is released.  Otherwise the
/// captured error itself becomes the payload of a new guest panic and keeps
/// owning its context.
pub open spec fn host_to_panic_rel(
    pre: HostState,
    post: HostState,
    e: PgError,
    p: PanicPayload,
) -> bool {
    if e.data.marker == Marker::GuestPanic {
        &&& pre.panic_slot matches Some(q) && p == q
        &&& post.panic_slot is None
        &&& post.pending_error == pre.pending_error
        &&& post.jump_target == pre.jump_target
        &&& post.context_stack == pre.context_stack
        &&& post.next_frame == pre.next_frame
        &&& post.current == pre.current
        &&& delete_rel(pre.arenas, post.arenas, e.arena as int)
    } else {
        &&& p == PanicPayload::RoundTrippedHostError(e)
        &&& post == pre
    }
}

/// What silently discarding a captured error does (the destructor-safe path):
/// only the record's dedicated context is released; in particular no new
/// propagation event starts and the panic slot is untouched.
pub open spec fn discard_rel(pre: HostState, post: HostState, e: PgError) -> bool {
    &&& post.pending_error == pre.pending_error
    &&& post.panic_slot == pre.panic_slot
    &&& post.jump_target == pre.jump_target
    &&& post.context_stack == pre.context_stack
    &&& post.next_frame == pre.next_frame
    &&& post.current == pre.current
    &&& delete_rel(pre.arenas, post.arenas, e.arena as int)
}

// ---------------------------------------------------------------------------
// The jump-stack guard.
// ---------------------------------------------------------------------------

/// A snapshot of the two global jump pointers, taken at guard creation and
/// put back exactly once, whatever the exit path.  The catch scope below
/// restores it on all three of its exit channels, which is what makes
/// out-of-order restoration structurally impossible.
pub struct RestorePgExceptionStack {
    pub save_exception_stack: u64,
    pub save_context_stack: u64,
}

impl RestorePgExceptionStack {
    /// Snapshots the current jump-target pointers.
    pub fn capture(st: &HostState) -> (g: RestorePgExceptionStack)
        ensures
            g.save_exception_stack == st.jump_target,
            g.save_context_stack == st.context_stack,
    {
        RestorePgExceptionStack {
            save_exception_stack: st.jump_target,
            save_context_stack: st.context_stack,
        }
    }

    /// Puts the snapshotted pointers back, unconditionally.
    pub fn restore(self, st: &mut HostState)
        ensures
            *final(st) == (HostState {
                jump_target: self.save_exception_stack,
                context_stack: self.save_context_stack,
                ..*old(st)
            }),
    {
        st.jump_target = self.save_exception_stack;
        st.context_stack = self.save_context_stack;
    }
}

/// Hands out the next jump-target token.
fn bump_token(t: u64) -> (r: u64)
    ensures
        r == next_token(t),
{
    if t == u64::MAX {
        0
    } else {
        t + 1
    }
}

// ---------------------------------------------------------------------------
// Capturing the pending error.
// ---------------------------------------------------------------------------

/// Copies the host's pending error record into a dedicated memory context
/// created solely to own it, then clears the host's transient error state.
/// The new context is made current while the host copies; the catch scope
/// puts the caller's allocator selection back afterwards.
pub fn record_pg_error(st: HostState) -> (out: (HostState, PgError))
    requires
        st.wf(),
        st.pending_error is Some,
    ensures
        out.0.wf(),
        record_rel(st, out.0, out.1),
{
    let mut st = st;
    let mctx = MemoryContext::create_allocset(&mut st, None, 0, 8192, 8192 * 1024);
    mctx.set_current(&mut st);
    let data = st.pending_error.take().unwrap();
    let e = PgError { arena: mctx.id(), data };
    (st, e)
}

// ---------------------------------------------------------------------------
// Re-throw.
// ---------------------------------------------------------------------------

impl PgError {
    /// Replays this captured error through the host's native propagation, so
    /// it is no longer bridge-owned: the record goes back into the host's
    /// transient state and starts a non-local jump toward the enclosing catch
    /// point; the dedicated context that owned the copy is released once the
    /// record is handed off.
    pub fn rethrow<R>(self, st: HostState) -> (out: (HostState, Control<R>))
        requires
            st.wf(),
            self.arena < st.arenas.cells.len(),
            self.data.marker == Marker::GuestPanic ==> st.panic_slot is Some,
        ensures
            out.0.wf(),
            rethrow_rel(st, out.0, self),
            out.1 is HostJump,
    {
        // Install a fresh target so the host's re-raise lands back here, in
        // this same frame, with the record in the transient slot.
        let guard = RestorePgExceptionStack::capture(&st);
        let mut s = st;
        s.jump_target = s.next_frame;
        s.next_frame = bump_token(s.next_frame);
        let PgError { arena, data } = self;
        s.pending_error = Some(data);
        // Jumped back in: restore the snapshot, release our copy's context,
        // and let the host's own mechanism carry the error onward.
        guard.restore(&mut s);
        delete_context(&mut s, arena);
        (s, Control::HostJump)
    }
}

// ---------------------------------------------------------------------------
// The catch scope.
// ---------------------------------------------------------------------------

/// The catch scope: installs a jump target pointing at this frame, runs `f`,
/// and accepts either a normal return or a jump back in.  Per boundary the
/// scope is idle until it arms itself, then either the guest computation
/// returns and the guard releases, or the scope is jumped back into, restores
/// the snapshot, and captures the pending record; both paths end idle again.
///
/// On a normal return the guard releases and the result comes back as `Ok`.
/// If an error was raised anywhere inside `f` or in any host call it made,
/// the snapshotted pointers are restored first — before any further host call
/// — and the pending record is captured into a value, returned as `Err`.  If
/// `f` instead leaves through a guest unwind, the unwind passes through
/// unconverted, but the guard still releases.  On every exit channel the
/// jump-target globals, and the allocator selection, are exactly as they were
/// before the call.
pub fn catch_postgres_error<R, F: FnOnce(HostState) -> (HostState, Control<R>)>(
    st: HostState,
    f: F,
) -> (out: (HostState, Control<Result<R, PgError>>))
    requires
        st.wf(),
        call_requires(f, (spec_armed(st),)),
        forall|s1: HostState, c: Control<R>|
            #[trigger] call_ensures(f, (spec_armed(st),), (s1, c)) ==> guest_protocol(
                spec_armed(st),
                s1,
                c,
            ),
    ensures
        out.0.wf(),
        out.0.jump_target == st.jump_target,
        out.0.context_stack == st.context_stack,
        out.0.current == st.current,
        !(out.1 is HostJump),
        guest_protocol(st, out.0, out.1),
        (out.1 matches Control::Return(res) ==> match res {
            Ok(v) => exists|s1: HostState|
                call_ensures(f, (spec_armed(st),), (s1, Control::Return(v)))
                    && out.0 == spec_restored(s1, st),
            Err(e) => exists|s1: HostState|
                call_ensures(f, (spec_armed(st),), (s1, Control::<R>::HostJump))
                    && catch_trap_rel(st, s1, out.0, e),
        }),
        (out.1 matches Control::GuestUnwind(p) ==> exists|s1: HostState|
            call_ensures(f, (spec_armed(st),), (s1, Control::GuestUnwind(p)))
                && out.0 == spec_restored(s1, st)),
{
    let ghost pre = st;
    let guard = RestorePgExceptionStack::capture(&st);
    let saved_current = st.current;
    let mut run = st;
    run.jump_target = run.next_frame;
    run.next_frame = bump_token(run.next_frame);
    proof {
        assert(run == spec_armed(pre));
    }
    let (s1, c) = f(run);
    let ghost exit = s1;
    proof {
        // brings the protocol guarantee on (s1, c) into scope
        assert(call_ensures(f, (spec_armed(pre),), (s1, c)));
        assert(guest_protocol(spec_armed(pre), s1, c));
    }
    match c {
        Control::Return(v) => {
            let mut post = s1;
            guard.restore(&mut post);
            post.current = saved_current;
            proof {
                assert(post == spec_restored(exit, pre));
            }
            (post, Control::Return(Ok(v)))
        },
        Control::HostJump => {
            // Restore the snapshotted pointers immediately: capturing the
            // record creates a memory context, which is itself a host call
            // and must not run under a stale jump target.
            let mut arrived = s1;
            guard.restore(&mut arrived);
            let (mut post, e) = record_pg_error(arrived);
            post.current = saved_current;
            proof {
                assert(catch_trap_rel(pre, exit, post, e));
            }
            (post, Control::Return(Err(e)))
        },
        Control::GuestUnwind(p) => {
            // A guest unwind passing through: the guard's own exit-path
            // guarantee still restores the snapshot.
            let mut post = s1;
            guard.restore(&mut post);
            post.current = saved_current;
            proof {
                assert(post == spec_restored(exit, pre));
            }
            (post, Control::GuestUnwind(p))
        },
    }
}

// ---------------------------------------------------------------------------
// Guest panic -> host error.
// ---------------------------------------------------------------------------

/// Hands a caught guest panic to the host's error machinery.  A payload that
/// is itself a previously captured host error is replayed through the host's
/// native re-raise — no new record is synthesized.  A genuine guest payload
/// is reported under the sentinel marker, with the payload parked in the
/// process-wide slot for a later round trip.  Either way the result is a
/// non-local jump; this path never returns normally.
fn convert_rust_panic_inner<R>(st: HostState, payload: PanicPayload) -> (out: (
    HostState,
    Control<R>,
))
    requires
        st.wf(),
        payload_in(payload, st),
    ensures
        out.0.wf(),
        panic_to_host_rel(st, out.0, payload),
        out.1 is HostJump,
{
    match payload {
        PanicPayload::RoundTrippedHostError(e) => {
            // this was a host error to begin with: just replay that
            e.rethrow(st)
        },
        PanicPayload::Opaque(b) => {
            let msg = copy_bytes(&b);
            let mut s = st;
            // park the payload, replacing (and thereby releasing) any stale
            // previous one: at most one is in flight
            s.panic_slot = Some(PanicPayload::Opaque(b));
            let report = ErrorData {
                elevel: ERROR_LEVEL,
                marker: Marker::GuestPanic,
                message: msg,
                detail: None,
                hint: None,
                filename: Vec::new(),
                lineno: 0,
            };
            raise_host_error(s, report)
        },
    }
}

/// Runs `f` under the guest's own unwind-catch mechanism.  A normal return
/// passes through unchanged, as does a host jump (the host's propagation does
/// not interact with the guest's).  A guest unwind is converted: the payload
/// crosses into the host's machinery and the call leaves as a host jump, so
/// a guest panic never crosses into host code.
pub fn convert_rust_panic<R, F: FnOnce(HostState) -> (HostState, Control<R>)>(
    st: HostState,
    f: F,
) -> (out: (HostState, Control<R>))
    requires
        st.wf(),
        call_requires(f, (st,)),
        forall|s1: HostState, c: Control<R>|
            #[trigger] call_ensures(f, (st,), (s1, c)) ==> guest_protocol(st, s1, c),
    ensures
        out.0.wf(),
        guest_protocol(st, out.0, out.1),
        !(out.1 is GuestUnwind),
        (out.1 matches Control::Return(v) ==> exists|s1: HostState|
            call_ensures(f, (st,), (s1, Control::Return(v))) && out.0 == s1),
        (out.1 is HostJump ==> (exists|s1: HostState|
            call_ensures(f, (st,), (s1, Control::<R>::HostJump)) && out.0 == s1) || (exists|
            s1: HostState,
            p: PanicPayload,
        |
            call_ensures(f, (st,), (s1, Control::GuestUnwind(p))) && panic_to_host_rel(
                s1,
                out.0,
                p,
            ))),
{
    let ghost pre = st;
    let (s1, c) = f(st);
    proof {
        assert(call_ensures(f, (pre,), (s1, c)));
        assert(guest_protocol(pre, s1, c));
    }
    let ghost exit = s1;
    match c {
        Control::Return(v) => (s1, Control::Return(v)),
        Control::HostJump => {
            proof {
                assert(call_ensures(f, (pre,), (exit, Control::<R>::HostJump)));
            }
            (s1, Control::HostJump)
        },
        Control::GuestUnwind(p) => {
            let ghost pcopy = p;
            let out = convert_rust_panic_inner(s1, p);
            proof {
                assert(call_ensures(f, (pre,), (exit, Control::GuestUnwind(pcopy))));
                assert(panic_to_host_rel(exit, out.0, pcopy));
            }
            out
        },
    }
}

// ---------------------------------------------------------------------------
// Host error -> guest panic.
// ---------------------------------------------------------------------------

/// Turns a captured host error into a guest unwind.  A record carrying the
/// sentinel marker is a guest panic that round-tripped through host error
/// machinery: the original payload is retrieved from the slot and the
/// resumed unwind carries that exact payload, not a newly constructed one.
/// Any other record becomes the payload of a new guest panic, so guest code
/// can inspect its diagnostic fields.
fn convert_postgres_error_inner<R>(st: HostState, e: PgError) -> (out: (HostState, Control<R>))
    requires
        st.wf(),
        st.pending_error is None,
        e.arena < st.arenas.cells.len(),
        e.data.marker == Marker::GuestPanic ==> st.panic_slot is Some,
    ensures
        out.0.wf(),
        out.1 matches Control::GuestUnwind(p) && host_to_panic_rel(st, out.0, e, p),
{
    match e.data.marker {
        Marker::GuestPanic => {
            let mut s = st;
            let payload = s.panic_slot.take().unwrap();
            let PgError { arena, data: _ } = e;
            // the captured record is consumed; release its dedicated context
            delete_context(&mut s, arena);
            (s, Control::GuestUnwind(payload))
        },
        Marker::Host => (st, Control::GuestUnwind(PanicPayload::RoundTrippedHostError(e))),
    }
}

/// Wraps a catch scope around `f` and converts a captured host error into a
/// guest panic at this boundary.  A host error surfacing from `f` is either
/// resumed as the original guest unwind (if it was a round-tripped guest
/// panic) or raised as a new guest panic carrying the captured record; it is
/// never both converted and left live on the host side.
pub fn convert_postgres_error<R, F: FnOnce(HostState) -> (HostState, Control<R>)>(
    st: HostState,
    f: F,
) -> (out: (HostState, Control<R>))
    requires
        st.wf(),
        call_requires(f, (spec_armed(st),)),
        forall|s1: HostState, c: Control<R>|
            #[trigger] call_ensures(f, (spec_armed(st),), (s1, c)) ==> guest_protocol(
                spec_armed(st),
                s1,
                c,
            ),
    ensures
        out.0.wf(),
        out.0.jump_target == st.jump_target,
        out.0.context_stack == st.context_stack,
        out.0.current == st.current,
        !(out.1 is HostJump),
        guest_protocol(st, out.0, out.1),
        (out.1 matches Control::Return(v) ==> exists|s1: HostState|
            call_ensures(f, (spec_armed(st),), (s1, Control::Return(v))) && out.0 == spec_restored(
                s1,
                st,
            )),
        (out.1 matches Control::GuestUnwind(p) ==> (exists|s1: HostState|
            call_ensures(f, (spec_armed(st),), (s1, Control::GuestUnwind(p))) && out.0
                == spec_restored(s1, st)) || (exists|s1: HostState, mid: HostState, e: PgError|
            call_ensures(f, (spec_armed(st),), (s1, Control::<R>::HostJump)) && #[trigger]
            catch_trap_rel(st, s1, mid, e) && host_to_panic_rel(mid, out.0, e, p))),
{
    let ghost pre = st;
    let (st1, r) = catch_postgres_error(st, f);
    let ghost mid = st1;
    match r {
        Control::Return(res) => match res {
            Ok(v) => (st1, Control::Return(v)),
            Err(e) => {
                let ghost ecopy = e;
                proof {
                    // the witness from the catch scope's trap-path contract,
                    // and the protocol guarantee on it
                    let s1w = choose|s1: HostState|
                        call_ensures(f, (spec_armed(pre),), (s1, Control::<R>::HostJump))
                            && catch_trap_rel(pre, s1, mid, ecopy);
                    assert(call_ensures(f, (spec_armed(pre),), (s1w, Control::<R>::HostJump)));
                    assert(guest_protocol(spec_armed(pre), s1w, Control::<R>::HostJump));
                }
                convert_postgres_error_inner(st1, e)
            },
        },
        Control::GuestUnwind(p) => (st1, Control::GuestUnwind(p)),
        Control::HostJump => {
            proof {
                assert(false);
            }
            (st1, Control::HostJump)
        },
    }
}

/// The destructor-safe variant: identical to [`convert_postgres_error`],
/// except that when a guest unwind is already in progress a captured host
/// error is discarded silently instead of converted — raising a second
/// propagation event while one is in flight would be fatal to the host
/// process.  `unwinding` says whether such an unwind is in progress in the
/// frame being dropped.
pub fn convert_postgres_error_dtor<F: FnOnce(HostState) -> (HostState, Control<()>)>(
    st: HostState,
    f: F,
    unwinding: bool,
) -> (out: (HostState, Control<()>))
    requires
        st.wf(),
        call_requires(f, (spec_armed(st),)),
        forall|s1: HostState, c: Control<()>|
            #[trigger] call_ensures(f, (spec_armed(st),), (s1, c)) ==> guest_protocol(
                spec_armed(st),
                s1,
                c,
            ),
    ensures
        out.0.wf(),
        out.0.jump_target == st.jump_target,
        out.0.context_stack == st.context_stack,
        out.0.current == st.current,
        !(out.1 is HostJump),
        guest_protocol(st, out.0, out.1),
        (out.1 matches Control::GuestUnwind(p) ==> (exists|s1: HostState|
            call_ensures(f, (spec_armed(st),), (s1, Control::GuestUnwind(p))) && out.0
                == spec_restored(s1, st)) || (!unwinding && (exists|
            s1: HostState,
            mid: HostState,
            e: PgError,
        |
            call_ensures(f, (spec_armed(st),), (s1, Control::<()>::HostJump)) && #[trigger]
            catch_trap_rel(st, s1, mid, e) && host_to_panic_rel(mid, out.0, e, p)))),
        (out.1 matches Control::Return(u) ==> (exists|s1: HostState|
            call_ensures(f, (spec_armed(st),), (s1, Control::Return(u))) && out.0 == spec_restored(
                s1,
                st,
            )) || (unwinding && (exists|s1: HostState, mid: HostState, e: PgError|
            call_ensures(f, (spec_armed(st),), (s1, Control::<()>::HostJump)) && #[trigger]
            catch_trap_rel(st, s1, mid, e) && discard_rel(mid, out.0, e)))),
{
    let ghost pre = st;
    let (st1, r) = catch_postgres_error(st, f);
    let ghost mid = st1;
    match r {
        Control::Return(res) => match res {
            Ok(u) => (st1, Control::Return(u)),
            Err(e) => {
                let ghost ecopy = e;
                proof {
                    let s1w = choose|s1: HostState|
                        call_ensures(f, (spec_armed(pre),), (s1, Control::<()>::HostJump))
                            && catch_trap_rel(pre, s1, mid, ecopy);
                    assert(call_ensures(f, (spec_armed(pre),), (s1w, Control::<()>::HostJump)));
                    assert(guest_protocol(spec_armed(pre), s1w, Control::<()>::HostJump));
                }
                if unwinding {
                    // this guard is critical: it keeps a destructor that trips
                    // a host error from starting a second propagation event
                    let mut s = st1;
                    let PgError { arena, data: _ } = e;
                    delete_context(&mut s, arena);
                    (s, Control::Return(()))
                } else {
                    convert_postgres_error_inner(st1, e)
                }
            },
        },
        Control::GuestUnwind(p) => (st1, Control::GuestUnwind(p)),
        Control::HostJump => {
            proof {
                assert(false);
            }
            (st1, Control::HostJump)
        },
    }
}

// ---------------------------------------------------------------------------
// Laws.  The catch scope's own contract already states that, on every exit
// channel, the jump-target globals come back bit-identical and a normal
// return surfaces as `Ok`.  The laws below state what holds across several
// crossings.
// ---------------------------------------------------------------------------

/// A captured error, re-thrown, is observed by an enclosing catch scope as an
/// equivalent host error: the record the enclosing scope captures is the very
/// record that was re-thrown, and it is again consumed (no error is left in
/// flight).
pub proof fn lemma_rethrown_error_recaptured(
    pre: HostState,
    jumped: HostState,
    e: PgError,
    entry: HostState,
    post: HostState,
    e2: PgError,
)
    requires
        rethrow_rel(pre, jumped, e),
        catch_trap_rel(entry, jumped, post, e2),
    ensures
        e2.data == e.data,
        post.pending_error is None,
        post.jump_target == entry.jump_target,
        post.context_stack == entry.context_stack,
{
}

/// Round trip: a guest panic converted into a host error, then captured by a
/// catch scope and converted back, resumes as an unwind carrying the original
/// payload value — not a re-stringified copy — and empties the slot.
pub proof fn lemma_payload_round_trip(
    pre: HostState,
    jumped: HostState,
    entry: HostState,
    mid: HostState,
    post: HostState,
    b: Vec<u8>,
    e: PgError,
    p: PanicPayload,
)
    requires
        panic_to_host_rel(pre, jumped, PanicPayload::Opaque(b)),
        catch_trap_rel(entry, jumped, mid, e),
        host_to_panic_rel(mid, post, e, p),
    ensures
        p == PanicPayload::Opaque(b),
        post.panic_slot is None,
{
    assert(e.data.marker == Marker::GuestPanic);
}

/// Replacing an unconsumed panic payload: after a second guest panic crosses
/// into the host without the first payload having been consumed, the slot
/// holds exactly the second payload — the first is no longer owned anywhere
/// in the host state, which is what releases it.
pub proof fn lemma_second_panic_replaces_first(
    s0: HostState,
    s1: HostState,
    s2: HostState,
    b1: Vec<u8>,
    b2: Vec<u8>,
)
    requires
        panic_to_host_rel(s0, s1, PanicPayload::Opaque(b1)),
        panic_to_host_rel(s1, s2, PanicPayload::Opaque(b2)),
    ensures
        s1.panic_slot == Some(PanicPayload::Opaque(b1)),
        s2.panic_slot == Some(PanicPayload::Opaque(b2)),
{
}

/// Containment of a handled error, for any diagnostic record: once the
/// innermost of nested catch scopes has captured a trap, no error is in
/// flight any more, and releasing the enclosing scopes' guards keeps it that
/// way — the error cannot re-propagate past the scope that handled it.  The
/// guards restore the jump-target globals in strict innermost-first stack
/// order: each release puts back exactly its own scope's snapshot.
pub proof fn lemma_innermost_catch_consumes(
    entry: HostState,
    arrival: HostState,
    post: HostState,
    e: PgError,
    middle_entry: HostState,
    outer_entry: HostState,
)
    requires
        catch_trap_rel(entry, arrival, post, e),
    ensures
        post.pending_error is None,
        post.jump_target == entry.jump_target,
        spec_restored(post, middle_entry).pending_error is None,
        spec_restored(post, middle_entry).jump_target == middle_entry.jump_target,
        spec_restored(spec_restored(post, middle_entry), outer_entry).pending_error is None,
        spec_restored(spec_restored(post, middle_entry), outer_entry).jump_target
            == outer_entry.jump_target,
{
}

/// The destructor-safe path really is silent: discarding a captured error
/// starts no new propagation event — the transient error state, the panic
/// slot, and the jump-target globals are exactly as they were; only the
/// record's dedicated memory context is released.
pub proof fn lemma_discard_is_silent(mid: HostState, post: HostState, e: PgError)
    requires
        discard_rel(mid, post, e),
    ensures
        post.pending_error == mid.pending_error,
        post.panic_slot == mid.panic_slot,
        post.jump_target == mid.jump_target,
        post.context_stack == mid.context_stack,
        !post.arenas.is_alive(e.arena as int),
{
    if e.arena < mid.arenas.cells.len() {
        assert(within(mid.arenas.cells@, e.arena as int, e.arena as int));
    }
}

/// Module-unload cleanup: releases a payload still parked in the slot.  In
/// theory this avoids a leak if the bridge is unloaded and re-loaded many
/// times; it runs with no error in flight.
#[allow(non_snake_case)]
pub fn _PG_fini(st: HostState) -> (out: HostState)
    requires
        st.wf(),
        st.pending_error is None,
    ensures
        out.wf(),
        out == (HostState { panic_slot: None, ..st }),
{
    let mut s = st;
    s.panic_slot = None;
    s
}

} // verus!
