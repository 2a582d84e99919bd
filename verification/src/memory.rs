//! Model of the host's hierarchical arena allocator.
//!
//! The host owns a store of memory contexts.  Each context may have a parent;
//! deleting a context also deletes every not-yet-deleted descendant.  Buffers
//! allocated from a context belong to it: once the context is gone they can
//! no longer be read.  One context is "current" at any time; the host
//! allocates its own transient data from the current context.

use vstd::prelude::*;

use crate::host::HostState;

verus! {

/// One memory context in the store.  Contexts are never removed from the
/// store; deletion clears `alive`, so indices stay stable.
#[derive(Clone, Copy, Debug, PartialEq, Eq, Structural)]
pub struct ArenaCell {
    pub alive: bool,
    /// Index of the parent context; always smaller than this cell's own index.
    pub parent: Option<usize>,
    /// Sizing hints the context was created with; kept, not interpreted.
    pub min_size: usize,
    pub init_size: usize,
    pub max_size: usize,
}

/// One buffer, owned by the memory context it was allocated from.
pub struct Allocation {
    pub arena: usize,
    pub bytes: Vec<u8>,
}

/// The host's store of memory contexts and of the buffers they own.
pub struct ArenaStore {
    pub cells: Vec<ArenaCell>,
    pub allocs: Vec<Allocation>,
}

/// `a` is an ancestor of `i`, or `i` itself.
pub open spec fn within(cells: Seq<ArenaCell>, i: int, a: int) -> bool
    decreases i,
{
    i == a || (0 <= i < cells.len() && match cells[i].parent {
        Some(p) => 0 <= p < i && within(cells, p as int, a),
        None => false,
    })
}

impl ArenaStore {
    /// Parents come earlier in the store than their children, a live context
    /// never has a dead parent, and every buffer belongs to some context.
    pub open spec fn wf(self) -> bool {
        &&& forall|i: int|
            0 <= i < self.cells.len() ==> match #[trigger] self.cells[i].parent {
                Some(p) => p < i && (self.cells[i].alive ==> self.cells[p as int].alive),
                None => true,
            }
        &&& forall|j: int|
            0 <= j < self.allocs.len() ==> #[trigger] self.allocs[j].arena < self.cells.len()
    }

    pub open spec fn is_alive(self, i: int) -> bool {
        0 <= i < self.cells.len() && self.cells[i].alive
    }
}

/// A handle on one memory context in the store.
#[derive(Clone, Copy, Debug, PartialEq, Eq, Structural)]
pub struct MemoryContext {
    id: usize,
}

/// A handle on one buffer allocated from a memory context.
#[derive(Clone, Copy, Debug, PartialEq, Eq, Structural)]
pub struct AllocRef {
    index: usize,
}

impl AllocRef {
    pub closed spec fn spec_index(self) -> usize {
        self.index
    }

    /// Whether this handle can still be read in the given state: its buffer
    /// exists and the owning memory context is still alive.
    pub open spec fn valid(self, st: HostState) -> bool {
        self.spec_index() < st.arenas.allocs.len()
            && st.arenas.is_alive(st.arenas.allocs[self.spec_index() as int].arena as int)
    }

    /// The buffer this handle refers to, or `None` once its owning context has
    /// been deleted: a freed allocation can no longer be observed.
    pub fn read<'a>(&self, st: &'a HostState) -> (r: Option<&'a Vec<u8>>)
        ensures
            self.valid(*st) ==> r == Some(&st.arenas.allocs[self.spec_index() as int].bytes),
            !self.valid(*st) ==> r is None,
    {
        if self.index < st.arenas.allocs.len() {
            let a = &st.arenas.allocs[self.index];
            if a.arena < st.arenas.cells.len() && st.arenas.cells[a.arena].alive {
                return Some(&a.bytes);
            }
        }
        None
    }
}

/// The memory context the host is currently allocating from.
pub fn get_current_ctx(st: &HostState) -> (m: MemoryContext)
    ensures
        m.spec_id() == st.current,
{
    MemoryContext { id: st.current }
}

impl MemoryContext {
    pub closed spec fn spec_id(self) -> usize {
        self.id
    }

    /// The index of this context in the store.
    pub fn id(&self) -> (r: usize)
        ensures
            r == self.spec_id(),
    {
        self.id
    }

    /// Creates a new memory context, optionally as a child of `parent`.
    pub fn create_allocset(
        st: &mut HostState,
        parent: Option<&MemoryContext>,
        min_size: usize,
        init_size: usize,
        max_size: usize,
    ) -> (m: MemoryContext)
        requires
            old(st).wf(),
            parent matches Some(p) ==> old(st).arenas.is_alive(p.spec_id() as int),
        ensures
            final(st).wf(),
            m.spec_id() == old(st).arenas.cells.len(),
            final(st).arenas.cells@ == old(st).arenas.cells@.push(ArenaCell {
                alive: true,
                parent: match parent {
                    Some(p) => Some(p.spec_id()),
                    None => None,
                },
                min_size,
                init_size,
                max_size,
            }),
            final(st).arenas.allocs == old(st).arenas.allocs,
            final(st).eq_except_arenas(*old(st)),
    {
        let id = st.arenas.cells.len();
        let cell = ArenaCell {
            alive: true,
            parent: match parent {
                Some(p) => Some(p.id),
                None => None,
            },
            min_size,
            init_size,
            max_size,
        };
        st.arenas.cells.push(cell);
        MemoryContext { id }
    }

    /// Allocates `size` bytes from this context, zero-filled.
    pub fn allocate(&self, st: &mut HostState, size: usize) -> (r: AllocRef)
        requires
            old(st).wf(),
            old(st).arenas.is_alive(self.spec_id() as int),
        ensures
            final(st).wf(),
            r.spec_index() == old(st).arenas.allocs.len(),
            final(st).arenas.allocs.len() == old(st).arenas.allocs.len() + 1,
            forall|j: int| 0 <= j < old(st).arenas.allocs.len()
                ==> #[trigger] final(st).arenas.allocs[j] == old(st).arenas.allocs[j],
            final(st).arenas.allocs[r.spec_index() as int].arena == self.spec_id(),
            final(st).arenas.allocs[r.spec_index() as int].bytes@ == Seq::new(size as nat, |i: int| 0u8),
            r.valid(*final(st)),
            final(st).arenas.cells == old(st).arenas.cells,
            final(st).eq_except_arenas(*old(st)),
    {
        let bytes = zero_bytes(size);
        let index = st.arenas.allocs.len();
        st.arenas.allocs.push(Allocation { arena: self.id, bytes });
        AllocRef { index }
    }

    /// Allocates `size` bytes from this context without promising anything
    /// about their content; the caller must write before reading.
    pub fn alloc_undef(&self, st: &mut HostState, size: usize) -> (r: AllocRef)
        requires
            old(st).wf(),
            old(st).arenas.is_alive(self.spec_id() as int),
        ensures
            final(st).wf(),
            r.spec_index() == old(st).arenas.allocs.len(),
            final(st).arenas.allocs.len() == old(st).arenas.allocs.len() + 1,
            forall|j: int| 0 <= j < old(st).arenas.allocs.len()
                ==> #[trigger] final(st).arenas.allocs[j] == old(st).arenas.allocs[j],
            final(st).arenas.allocs[r.spec_index() as int].arena == self.spec_id(),
            final(st).arenas.allocs[r.spec_index() as int].bytes.len() == size,
            r.valid(*final(st)),
            final(st).arenas.cells == old(st).arenas.cells,
            final(st).eq_except_arenas(*old(st)),
    {
        let bytes = zero_bytes(size);
        let index = st.arenas.allocs.len();
        st.arenas.allocs.push(Allocation { arena: self.id, bytes });
        AllocRef { index }
    }

    /// Makes this context the one the host allocates from.  As in the host,
    /// nothing checks that the context is still alive afterwards; allocation
    /// through a deleted current context simply fails at allocation time.
    pub fn set_current(&self, st: &mut HostState)
        requires
            self.spec_id() < old(st).arenas.cells.len(),
        ensures
            *final(st) == (HostState { current: self.spec_id(), ..*old(st) }),
    {
        st.current = self.id;
    }

    /// Deletes this context and, with it, every descendant still alive.
    pub fn delete(self, st: &mut HostState)
        requires
            old(st).wf(),
            self.spec_id() < old(st).arenas.cells.len(),
        ensures
            final(st).wf(),
            delete_rel(old(st).arenas, final(st).arenas, self.spec_id() as int),
            final(st).eq_except_arenas(*old(st)),
    {
        delete_context(st, self.id)
    }
}

/// How a cascade delete of `target` changes the store: the target and every
/// context within its subtree lose their `alive` flag; nothing else moves.
pub open spec fn delete_rel(pre: ArenaStore, post: ArenaStore, target: int) -> bool {
    &&& post.cells.len() == pre.cells.len()
    &&& forall|i: int| 0 <= i < post.cells.len() ==> #[trigger] post.cells[i]
        == (if within(pre.cells@, i, target) {
            ArenaCell { alive: false, ..pre.cells[i] }
        } else {
            pre.cells[i]
        })
    &&& post.allocs == pre.allocs
}

/// Deletes the context at index `target` and every descendant still alive.
pub fn delete_context(st: &mut HostState, target: usize)
    requires
        old(st).wf(),
        target < old(st).arenas.cells.len(),
    ensures
        final(st).wf(),
        delete_rel(old(st).arenas, final(st).arenas, target as int),
        final(st).eq_except_arenas(*old(st)),
{
    let n = st.arenas.cells.len();
    proof {
        assert forall|k: int| 0 <= k < target as int
            implies !within(old(st).arenas.cells@, k, target as int) by {
            if within(old(st).arenas.cells@, k, target as int) {
                lemma_within_ge(old(st).arenas.cells@, k, target as int);
            }
        };
    }
    let mut i: usize = target;
    while i < n
        invariant
            target < n,
            target <= i <= n,
            n == st.arenas.cells.len(),
            n == old(st).arenas.cells.len(),
            st.arenas.allocs == old(st).arenas.allocs,
            st.eq_except_arenas(*old(st)),
            old(st).wf(),
            forall|k: int| 0 <= k < n ==> #[trigger] st.arenas.cells[k]
                == (if k < i && within(old(st).arenas.cells@, k, target as int) {
                    ArenaCell { alive: false, ..old(st).arenas.cells[k] }
                } else {
                    old(st).arenas.cells[k]
                }),
        decreases n - i,
    {
        proof {
            assert forall|k: int| 0 <= k < n
                implies #[trigger] st.arenas.cells@[k].parent == old(st).arenas.cells@[k].parent
                    && (st.arenas.cells@[k].parent matches Some(p) ==> p < k) by {
                assert(st.arenas.cells[k] == (if k < i as int
                    && within(old(st).arenas.cells@, k, target as int) {
                    ArenaCell { alive: false, ..old(st).arenas.cells[k] }
                } else {
                    old(st).arenas.cells[k]
                }));
            };
            lemma_within_unchanged(old(st).arenas.cells@, st.arenas.cells@, i as int, target as int);
        }
        if is_within(&st.arenas.cells, i, target) {
            let cell = st.arenas.cells[i];
            st.arenas.cells.set(i, ArenaCell { alive: false, ..cell });
        }
        i = i + 1;
    }
    proof {
        lemma_delete_preserves_wf(old(st).arenas, st.arenas, target as int);
    }
}

/// Walks the parent chain of `i` looking for `a`.
fn is_within(cells: &Vec<ArenaCell>, i: usize, a: usize) -> (r: bool)
    requires
        i < cells.len(),
        forall|k: int|
            0 <= k < cells.len() ==> match #[trigger] cells[k].parent {
                Some(p) => p < k,
                None => true,
            },
    ensures
        r == within(cells@, i as int, a as int),
    decreases i,
{
    if i == a {
        true
    } else {
        match cells[i].parent {
            Some(p) => is_within(cells, p, a),
            None => false,
        }
    }
}

/// An ancestor always has a smaller index than its descendants.
proof fn lemma_within_ge(cells: Seq<ArenaCell>, i: int, a: int)
    requires
        within(cells, i, a),
    ensures
        i >= a,
    decreases i,
{
    if i != a {
        match cells[i].parent {
            Some(p) => {
                lemma_within_ge(cells, p as int, a);
            },
            None => {},
        }
    }
}

/// `within` only looks at parent links, so it is stable under changes that
/// keep every cell's parent.
proof fn lemma_within_unchanged(pre: Seq<ArenaCell>, post: Seq<ArenaCell>, i: int, a: int)
    requires
        pre.len() == post.len(),
        forall|k: int| 0 <= k < pre.len() ==> #[trigger] post[k].parent == pre[k].parent,
        0 <= i < pre.len(),
    ensures
        within(post, i, a) == within(pre, i, a),
    decreases i,
{
    if i != a {
        match pre[i].parent {
            Some(p) => {
                if 0 <= p < i {
                    lemma_within_unchanged(pre, post, p as int, a);
                }
            },
            None => {},
        }
    }
}

/// After a cascade delete, a live context still has a live parent: if the
/// parent was deleted, the child was within the deleted subtree too.
proof fn lemma_delete_preserves_wf(pre: ArenaStore, post: ArenaStore, target: int)
    requires
        pre.wf(),
        post.cells.len() == pre.cells.len(),
        post.allocs == pre.allocs,
        forall|i: int| 0 <= i < post.cells.len() ==> #[trigger] post.cells[i]
            == (if within(pre.cells@, i, target) {
                ArenaCell { alive: false, ..pre.cells[i] }
            } else {
                pre.cells[i]
            }),
    ensures
        post.wf(),
{
    assert forall|i: int| 0 <= i < post.cells.len() implies match #[trigger] post.cells[i].parent {
        Some(p) => p < i && (post.cells[i].alive ==> post.cells[p as int].alive),
        None => true,
    } by {
        match post.cells[i].parent {
            Some(p) => {
                assert(pre.cells[i].parent == Some(p));
                if post.cells[i].alive {
                    // i survived, so i is not within the deleted subtree,
                    // hence neither is its parent.
                    assert(!within(pre.cells@, i, target));
                    if within(pre.cells@, p as int, target) {
                        assert(within(pre.cells@, i, target));
                    }
                }
            },
            None => {},
        }
    }
}

/// A context is within the subtree of its own parent.
pub proof fn lemma_child_within(cells: Seq<ArenaCell>, c: int, p: usize)
    requires
        0 <= c < cells.len(),
        cells[c].parent == Some(p),
        p < c,
    ensures
        within(cells, c, p as int),
{
    assert(within(cells, p as int, p as int));
}

/// `within` is transitive.
pub proof fn lemma_within_trans(cells: Seq<ArenaCell>, c: int, m: int, a: int)
    requires
        within(cells, c, m),
        within(cells, m, a),
    ensures
        within(cells, c, a),
    decreases c,
{
    if c != m {
        match cells[c].parent {
            Some(p) => {
                lemma_within_trans(cells, p as int, m, a);
            },
            None => {},
        }
    }
}

/// Deleting a memory context invalidates every allocation owned by a context
/// within its subtree: the handle can no longer be read.
pub proof fn lemma_delete_invalidates_descendants(
    pre: HostState,
    post: HostState,
    target: int,
    r: AllocRef,
)
    requires
        delete_rel(pre.arenas, post.arenas, target),
        r.spec_index() < pre.arenas.allocs.len(),
        within(pre.arenas.cells@, pre.arenas.allocs[r.spec_index() as int].arena as int, target),
    ensures
        !r.valid(post),
{
}

/// A fresh zero-filled byte buffer.
pub fn zero_bytes(size: usize) -> (r: Vec<u8>)
    ensures
        r@ == Seq::new(size as nat, |i: int| 0u8),
{
    let mut v: Vec<u8> = Vec::new();
    let mut i: usize = 0;
    while i < size
        invariant
            i <= size,
            v@ == Seq::new(i as nat, |j: int| 0u8),
        decreases size - i,
    {
        v.push(0u8);
        proof {
            assert(v@ =~= Seq::new((i + 1) as nat, |j: int| 0u8));
        }
        i = i + 1;
    }
    v
}

} // verus!
