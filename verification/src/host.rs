//! The host's process-wide mutable state, and the exit channels through which
//! a guest computation can leave a frame.
//!
//! The embedding model permits exactly one active call chain, so the host's
//! globals are modelled as one state value threaded through every operation.
//! A guest computation is a function `HostState -> (HostState, Control<R>)`:
//! it either returns normally, leaves through the host's non-local jump (a
//! raised host error, travelling toward `jump_target`), or leaves through a
//! guest unwind carrying a panic payload.

use vstd::prelude::*;

use crate::memory::{ArenaCell, ArenaStore};

verus! {

/// The tag a host error record carries in its reporting-function field.  The
/// bridge marks the reports it synthesizes from guest panics with a sentinel
/// so that a later crossing can recognize them and recover the original
/// payload.
#[derive(Clone, Debug, PartialEq, Eq, Structural)]
pub enum Marker {
    /// The sentinel: this error report was synthesized from a guest panic.
    GuestPanic,
    /// An ordinary host-originated report.
    Host,
}

/// A host error record: the diagnostic fields of the host's transient error
/// state, or a copy of them.
#[derive(Clone, Debug, PartialEq, Eq)]
pub struct ErrorData {
    /// Severity level, in the host's numbering (an error that jumps is 20).
    pub elevel: i32,
    /// The reporting-function tag.
    pub marker: Marker,
    pub message: Vec<u8>,
    pub detail: Option<Vec<u8>>,
    pub hint: Option<Vec<u8>>,
    /// Source-location tag.
    pub filename: Vec<u8>,
    pub lineno: i32,
}

/// The mathematical content of a host error record.
pub struct ErrorView {
    pub elevel: int,
    pub marker: Marker,
    pub message: Seq<u8>,
    pub detail: Option<Seq<u8>>,
    pub hint: Option<Seq<u8>>,
    pub filename: Seq<u8>,
    pub lineno: int,
}

impl View for ErrorData {
    type V = ErrorView;

    open spec fn view(&self) -> ErrorView {
        ErrorView {
            elevel: self.elevel as int,
            marker: self.marker,
            message: self.message@,
            detail: match self.detail {
                Some(v) => Some(v@),
                None => None,
            },
            hint: match self.hint {
                Some(v) => Some(v@),
                None => None,
            },
            filename: self.filename@,
            lineno: self.lineno as int,
        }
    }
}

/// A captured host error: a copy of the host's transient error record,
/// materialized into a dedicated memory context created solely to own it.
/// It is consumed exactly once — by conversion to a guest value or by
/// re-throwing.
#[derive(Clone, Debug, PartialEq, Eq)]
pub struct PgError {
    /// The memory context that owns this record's strings.
    pub arena: usize,
    /// The copied diagnostic record.
    pub data: ErrorData,
}

impl PgError {
    /// The captured severity level.
    pub fn severity(&self) -> (r: i32)
        ensures
            r == self.data.elevel,
    {
        self.data.elevel
    }

    /// The captured primary message.
    pub fn message(&self) -> (r: &Vec<u8>)
        ensures
            r@ == self.data.message@,
    {
        &self.data.message
    }

    /// The captured detail, if the report carried one.
    pub fn detail(&self) -> (r: &Option<Vec<u8>>)
        ensures
            r == &self.data.detail,
    {
        &self.data.detail
    }

    /// The captured hint, if the report carried one.
    pub fn hint(&self) -> (r: &Option<Vec<u8>>)
        ensures
            r == &self.data.hint,
    {
        &self.data.hint
    }

    /// Whether this record was synthesized from a guest panic.
    pub fn is_guest_panic(&self) -> (r: bool)
        ensures
            r == (self.data.marker == Marker::GuestPanic),
    {
        match self.data.marker {
            Marker::GuestPanic => true,
            Marker::Host => false,
        }
    }
}

/// A guest panic payload.  The variant is decided when the payload is
/// produced, so no runtime type inspection is ever needed to recover a
/// captured host error from an opaque payload.
#[derive(Clone, Debug, PartialEq, Eq)]
pub enum PanicPayload {
    /// A host error that was converted into a guest panic and may round-trip
    /// back into host machinery.
    RoundTrippedHostError(PgError),
    /// A genuine guest-originated payload.
    Opaque(Vec<u8>),
}

/// How a guest computation left its frame.
#[derive(Clone, Debug, PartialEq, Eq)]
pub enum Control<R> {
    /// Fell through normally.
    Return(R),
    /// A host error was raised: a non-local jump is in flight toward the
    /// frame registered in `HostState::jump_target`, and the host's pending
    /// error record describes it.
    HostJump,
    /// A guest unwind is in progress, carrying its payload.
    GuestUnwind(PanicPayload),
}

/// Severity level at which a host error report performs a non-local jump.
pub const ERROR_LEVEL: i32 = 20;

/// The host's process-wide mutable state.
pub struct HostState {
    /// The active non-local-jump target.
    pub jump_target: u64,
    /// The active error-context-stack pointer.
    pub context_stack: u64,
    /// Generator of fresh jump-target tokens.
    pub next_frame: u64,
    /// The host's transient error record, set while an error is in flight.
    pub pending_error: Option<ErrorData>,
    /// The single process-wide slot for an in-flight guest panic payload.
    pub panic_slot: Option<PanicPayload>,
    /// The memory-context store.
    pub arenas: ArenaStore,
    /// Index of the current memory context.
    pub current: usize,
}

/// A panic payload the bridge can be handed in state `st`: a round-tripped
/// captured error refers to a memory context that exists, and is never marked
/// with the bridge's own sentinel (only reports the bridge synthesizes from
/// guest panics carry it, and those are recovered through the payload slot,
/// not wrapped into payloads).
pub open spec fn payload_in(p: PanicPayload, st: HostState) -> bool {
    p matches PanicPayload::RoundTrippedHostError(e) ==> {
        &&& e.arena < st.arenas.cells.len()
        &&& e.data.marker != Marker::GuestPanic
    }
}

impl HostState {
    /// Well-formedness: the arena store is well-formed, the current context
    /// exists, a pending error synthesized from a guest panic always has its
    /// payload waiting in the slot, and a stored payload makes sense in this
    /// state.
    pub open spec fn wf(self) -> bool {
        &&& self.arenas.wf()
        &&& self.current < self.arenas.cells.len()
        &&& (self.pending_error matches Some(e) && e.marker == Marker::GuestPanic
            ==> self.panic_slot is Some)
        &&& (self.panic_slot matches Some(p) ==> payload_in(p, self))
    }

    /// Equal on every field except the arena store.
    pub open spec fn eq_except_arenas(self, other: HostState) -> bool {
        &&& self.jump_target == other.jump_target
        &&& self.context_stack == other.context_stack
        &&& self.next_frame == other.next_frame
        &&& self.pending_error == other.pending_error
        &&& self.panic_slot == other.panic_slot
        &&& self.current == other.current
    }

    /// A fresh host state: one live root memory context, no error in flight,
    /// an empty panic slot.
    pub fn new() -> (st: HostState)
        ensures
            st.wf(),
            st.jump_target == 0u64,
            st.context_stack == 0u64,
            st.pending_error is None,
            st.panic_slot is None,
            st.current == 0usize,
            st.arenas.cells.len() == 1,
            st.arenas.is_alive(0),
            st.arenas.allocs.len() == 0,
    {
        let mut cells: Vec<ArenaCell> = Vec::new();
        cells.push(ArenaCell {
            alive: true,
            parent: None,
            min_size: 0,
            init_size: 8192,
            max_size: 8192 * 1024,
        });
        HostState {
            jump_target: 0,
            context_stack: 0,
            next_frame: 1,
            pending_error: None,
            panic_slot: None,
            arenas: ArenaStore { cells, allocs: Vec::new() },
            current: 0,
        }
    }
}

/// What raising a host error does to the state: the transient error record is
/// filled in; nothing else moves.  The jump itself abandons the intervening
/// frames and arrives at the frame registered in `jump_target`.
pub open spec fn spec_raise(st: HostState, data: ErrorData) -> HostState {
    HostState { pending_error: Some(data), ..st }
}

/// Raises a host error: fills the host's transient error record and starts a
/// non-local jump toward the active jump target.  Reports marked with the
/// guest-panic sentinel are raised only by the bridge itself, which fills the
/// payload slot first.
pub fn raise_host_error<R>(st: HostState, data: ErrorData) -> (out: (HostState, Control<R>))
    requires
        st.wf(),
        data.marker == Marker::GuestPanic ==> st.panic_slot is Some,
    ensures
        out.0 == spec_raise(st, data),
        out.0.wf(),
        out.1 is HostJump,
{
    let mut st = st;
    st.pending_error = Some(data);
    (st, Control::HostJump)
}

} // verus!
