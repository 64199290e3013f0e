//! Scopes and handles. A scope is a window of validity; scopes nest and close
//! innermost first. A handle names an object and the scope it was made in, and
//! is of use only while that scope is open.
use vstd::prelude::*;
use core::marker::PhantomData;
use crate::heap::{
    extends, heap_wf, holds, holds_instance, holds_template, realized_in, Kind, ObjectView, NULL,
};
use crate::isolate::Isolate;
use crate::value::Context;

verus! {

/// What a handle is made of: the address it names, and the scope it is bound
/// to, by the depth at which that scope was opened and by its serial number.
/// No two scopes opened through one `HandleScope` share a serial number. A
/// handle carries nothing that tells which `HandleScope` made it: serial
/// numbers start anew with each, so a handle means something only to the
/// `HandleScope` through which it was made.
#[derive(Clone, Copy, Debug, PartialEq, Eq, Structural)]
pub struct Handle {
    pub address: usize,
    pub depth: usize,
    pub serial: u64,
}

/// One open scope: its serial number, and the address of the context that is
/// current in it (the reserved address where none is).
#[derive(Clone, Copy, Debug, PartialEq, Eq, Structural)]
pub struct Frame {
    pub serial: u64,
    pub context: usize,
}

/// The state that contracts speak of: the heap, the open scopes from the
/// outermost to the innermost, and the serial number that the next scope gets.
pub struct ScopeView {
    pub heap: Seq<ObjectView>,
    pub frames: Seq<Frame>,
    pub next_serial: nat,
}

impl ScopeView {
    /// Whether the state is consistent: at least one scope is open, serial
    /// numbers grow from the outermost scope to the innermost and all lie
    /// below the next one, and what a scope calls its context is a context.
    pub open spec fn wf(self) -> bool {
        &&& heap_wf(self.heap)
        &&& 1 <= self.frames.len() <= usize::MAX
        &&& self.next_serial <= u64::MAX
        &&& forall|i: int|
            0 <= i < self.frames.len() ==> (#[trigger] self.frames[i]).serial < self.next_serial
        &&& forall|i: int, j: int|
            0 <= i < j < self.frames.len() ==> (#[trigger] self.frames[i]).serial < (
            #[trigger] self.frames[j]).serial
        &&& forall|i: int|
            0 <= i < self.frames.len() ==> self.context_ok((#[trigger] self.frames[i]).context)
    }

    /// A scope's context is either absent or a context of the heap.
    pub open spec fn context_ok(self, context: usize) -> bool {
        context == NULL || holds(self.heap, context, Kind::Context)
    }

    /// The number of open scopes.
    pub open spec fn depth(self) -> nat {
        self.frames.len()
    }

    /// The address of the context that is current in the innermost scope, or
    /// the reserved address.
    pub open spec fn current_context(self) -> usize {
        self.frames.last().context
    }

    /// Whether the scope that `h` is bound to is open. This speaks of handles
    /// made through this state's `HandleScope`: of a handle made through
    /// another it says nothing that can be relied on.
    pub open spec fn is_open(self, h: Handle) -> bool {
        h.depth < self.frames.len() && self.frames[h.depth as int].serial == h.serial
    }

    /// Whether `h` can be used: it names something, and its scope is open.
    /// As `is_open`, this speaks of handles made through this state's
    /// `HandleScope` only.
    pub open spec fn is_live(self, h: Handle) -> bool {
        h.address != NULL && self.is_open(h)
    }

    /// Whether the scope that `h` is bound to was ever opened.
    pub open spec fn issued(self, h: Handle) -> bool {
        h.serial < self.next_serial
    }

    /// Whether `h` is bound to the innermost scope.
    pub open spec fn innermost(self, h: Handle) -> bool {
        h.depth == self.frames.len() - 1 && h.serial == self.frames.last().serial
    }

    /// Whether `h` can be used and names an object of kind `kind`. As
    /// `is_live`, this speaks of handles made through this state's
    /// `HandleScope` only: a handle made over another isolate may name an
    /// object of this heap by chance.
    pub open spec fn refers(self, h: Handle, kind: Kind) -> bool {
        self.is_live(h) && holds(self.heap, h.address, kind)
    }

    /// Whether `h` can be used and names a template.
    pub open spec fn refers_template(self, h: Handle) -> bool {
        self.is_live(h) && holds_template(self.heap, h.address)
    }

    /// Whether `h` can be used and names an object or a function.
    pub open spec fn refers_instance(self, h: Handle) -> bool {
        self.is_live(h) && holds_instance(self.heap, h.address)
    }

    /// The object that `h` names.
    pub open spec fn target(self, h: Handle) -> ObjectView {
        self.heap[h.address as int]
    }

    /// The handle that stands for the address `raw` in the innermost scope.
    pub open spec fn handle_for(self, raw: usize) -> Handle {
        Handle {
            address: raw,
            depth: (self.frames.len() - 1) as usize,
            serial: self.frames.last().serial,
        }
    }

    /// The handle that stands for the address `raw` in the scope that encloses
    /// the innermost one.
    pub open spec fn escaped_handle_for(self, raw: usize) -> Handle {
        Handle {
            address: raw,
            depth: (self.frames.len() - 2) as usize,
            serial: self.frames[self.frames.len() - 2].serial,
        }
    }

    /// This state with another heap.
    pub open spec fn with_heap(self, heap: Seq<ObjectView>) -> ScopeView {
        ScopeView { heap, frames: self.frames, next_serial: self.next_serial }
    }

    /// This state with one more scope open, in which `context` is current.
    pub open spec fn entered(self, context: usize) -> ScopeView {
        ScopeView {
            heap: self.heap,
            frames: self.frames.push(Frame { serial: self.next_serial as u64, context }),
            next_serial: self.next_serial + 1,
        }
    }

    /// This state with the innermost scope closed.
    pub open spec fn exited(self) -> ScopeView {
        ScopeView {
            heap: self.heap,
            frames: self.frames.drop_last(),
            next_serial: self.next_serial,
        }
    }

    /// Whether this state can come after `earlier`: the heap holds all it
    /// held, no serial number is taken back, and every scope that is open now
    /// and was opened before `earlier` was open then, at the same depth.
    pub open spec fn follows(self, earlier: ScopeView) -> bool {
        &&& extends(self.heap, earlier.heap)
        &&& earlier.next_serial <= self.next_serial
        &&& forall|i: int|
            0 <= i < self.frames.len() && (#[trigger] self.frames[i]).serial < earlier.next_serial
                ==> i < earlier.frames.len() && earlier.frames[i].serial == self.frames[i].serial
    }
}

/// A reference to one object of the engine's heap, of kind `T`, that is valid
/// while the scope it was made in is open. It does not own the object, and a
/// copy of it is valid no longer than the handle it was copied from.
pub struct Local<T> {
    handle: Handle,
    kind: PhantomData<T>,
}

impl<T> View for Local<T> {
    type V = Handle;

    closed spec fn view(&self) -> Handle {
        self.handle
    }
}

impl<T> Clone for Local<T> {
    /// A copy names the same object and is bound to the same scope: it is
    /// valid no longer than this handle.
    fn clone(&self) -> (copy: Self)
        ensures
            copy@ == self@,
    {
        Local { handle: self.handle, kind: PhantomData }
    }
}

impl<T> Copy for Local<T> {
}

impl<T> Local<T> {
    /// The same handle under another kind. The object is not asked what it is.
    pub fn cast<U>(&self) -> (r: Local<U>)
        ensures
            r@ == self@,
    {
        Local { handle: self.handle, kind: PhantomData }
    }

    /// The address that this handle names.
    pub(crate) fn address(&self) -> (addr: usize)
        ensures
            addr == self@.address,
    {
        self.handle.address
    }

    /// Whether both handles name the same object.
    pub fn same_object<U>(&self, other: &Local<U>) -> (same: bool)
        ensures
            same == (self@.address == other@.address),
    {
        self.handle.address == other.handle.address
    }
}

/// The open scopes of one isolate, and through them its heap. An isolate has
/// one `HandleScope`, and the handles made through it are of use with it
/// alone.
pub struct HandleScope {
    isolate: Isolate,
    frames: Vec<Frame>,
    next_serial: u64,
}

impl View for HandleScope {
    type V = ScopeView;

    closed spec fn view(&self) -> ScopeView {
        ScopeView {
            heap: self.isolate@,
            frames: self.frames@,
            next_serial: self.next_serial as nat,
        }
    }
}

impl HandleScope {
    /// Whether the state is consistent.
    pub open spec fn wf(&self) -> bool {
        self@.wf()
    }

    /// Opens the outermost scope of `isolate`. No context is current in it.
    pub fn new(isolate: Isolate) -> (scope: HandleScope)
        requires
            isolate.wf(),
        ensures
            scope.wf(),
            scope@ == (ScopeView {
                heap: isolate@,
                frames: seq![Frame { serial: 0, context: NULL }],
                next_serial: 1,
            }),
    {
        let mut frames: Vec<Frame> = Vec::new();
        frames.push(Frame { serial: 0, context: NULL });
        let scope = HandleScope { isolate, frames, next_serial: 1 };
        assert(scope@.frames =~= seq![Frame { serial: 0, context: NULL }]);
        scope
    }

    /// The number of open scopes.
    pub fn depth(&self) -> (depth: usize)
        ensures
            depth == self@.depth(),
    {
        self.frames.len()
    }

    /// The number of addresses of the heap that are in use, the reserved one
    /// included.
    pub fn heap_size(&self) -> (n: usize)
        ensures
            n == self@.heap.len(),
    {
        self.isolate.size()
    }

    /// Whether a context is current in the innermost scope.
    pub fn has_current_context(&self) -> (present: bool)
        requires
            self.wf(),
        ensures
            present == (self@.current_context() != NULL),
    {
        self.get_current_context() != NULL
    }

    /// The context that is current in the innermost scope, as a handle of
    /// that scope, or none.
    pub fn current_context(&self) -> (context: Option<Local<Context>>)
        requires
            self.wf(),
        ensures
            context is None <==> self@.current_context() == NULL,
            context matches Some(c) ==> c@ == self@.handle_for(self@.current_context())
                && self@.refers(c@, Kind::Context),
    {
        let raw = self.get_current_context();
        self.cast_local(raw)
    }

    /// The address of the context that is current in the innermost scope, or
    /// the reserved address.
    pub(crate) fn get_current_context(&self) -> (context: usize)
        requires
            self.wf(),
        ensures
            context == self@.current_context(),
            self@.context_ok(context),
    {
        self.frames[self.frames.len() - 1].context
    }

    /// The heap, to be changed through the engine's calls. The open scopes
    /// stay as they are.
    pub(crate) fn isolate_mut(&mut self) -> (isolate: &mut Isolate)
        ensures
            isolate@ == old(self)@.heap,
            final(self)@ == old(self)@.with_heap(final(isolate)@),
    {
        &mut self.isolate
    }

    /// The heap, to be read.
    pub(crate) fn isolate(&self) -> (isolate: &Isolate)
        ensures
            isolate@ == self@.heap,
    {
        &self.isolate
    }

    /// Opens a scope inside the innermost one; the current context stays
    /// current. Fails, and changes nothing, only when the serial numbers have
    /// run out.
    pub fn enter(&mut self) -> (opened: bool)
        requires
            old(self).wf(),
        ensures
            final(self).wf(),
            final(self)@.follows(old(self)@),
            opened == (old(self)@.next_serial < u64::MAX),
            final(self)@ == (if opened {
                old(self)@.entered(old(self)@.current_context())
            } else {
                old(self)@
            }),
    {
        let context = self.get_current_context();
        self.push_frame(context)
    }

    /// Opens a scope inside the innermost one and makes `context` current in
    /// it. Fails, and changes nothing, only when the serial numbers have run
    /// out.
    pub fn enter_context(&mut self, context: &Local<Context>) -> (opened: bool)
        requires
            old(self).wf(),
            old(self)@.refers(context@, Kind::Context),
        ensures
            final(self).wf(),
            final(self)@.follows(old(self)@),
            opened == (old(self)@.next_serial < u64::MAX),
            final(self)@ == (if opened {
                old(self)@.entered(context@.address)
            } else {
                old(self)@
            }),
    {
        self.push_frame(context.handle.address)
    }

    fn push_frame(&mut self, context: usize) -> (opened: bool)
        requires
            old(self).wf(),
            old(self)@.context_ok(context),
        ensures
            final(self).wf(),
            final(self)@.follows(old(self)@),
            opened == (old(self)@.next_serial < u64::MAX),
            final(self)@ == (if opened {
                old(self)@.entered(context)
            } else {
                old(self)@
            }),
    {
        if self.next_serial == u64::MAX {
            return false;
        }
        self.frames.push(Frame { serial: self.next_serial, context });
        self.next_serial = self.next_serial + 1;
        assert(self.frames.len() == self@.frames.len());
        true
    }

    /// Closes the innermost scope: every handle bound to it is dead from now
    /// on. The outermost scope stays open: asked to close it, this changes
    /// nothing and says so.
    pub fn exit(&mut self) -> (closed: bool)
        requires
            old(self).wf(),
        ensures
            final(self).wf(),
            final(self)@.follows(old(self)@),
            closed == (old(self)@.depth() > 1),
            final(self)@ == (if closed {
                old(self)@.exited()
            } else {
                old(self)@
            }),
            forall|h: Handle| closed && old(self)@.innermost(h) ==> !final(self)@.is_open(h),
    {
        if self.frames.len() <= 1 {
            return false;
        }
        self.frames.pop();
        true
    }

    /// Turns what the engine returned into a handle of the innermost scope:
    /// none for the reserved address, else a handle that names `raw`. The
    /// address is not looked up, and the object is not asked what it is.
    pub fn cast_local<T>(&self, raw: usize) -> (local: Option<Local<T>>)
        requires
            self.wf(),
        ensures
            local is None <==> raw == NULL,
            local matches Some(l) ==> l@ == self@.handle_for(raw) && self@.is_live(l@)
                && self@.innermost(l@),
    {
        if raw == NULL {
            None
        } else {
            Some(
                Local {
                    handle: Handle {
                        address: raw,
                        depth: self.frames.len() - 1,
                        serial: self.frames[self.frames.len() - 1].serial,
                    },
                    kind: PhantomData,
                },
            )
        }
    }

    /// Hands `local` out of the innermost scope: the handle returned names
    /// the same object and is bound to the enclosing scope, so it stays live
    /// when the innermost scope closes. There is none where `local` is dead
    /// or only the outermost scope is open.
    pub fn escape<T>(&self, local: &Local<T>) -> (escaped: Option<Local<T>>)
        requires
            self.wf(),
        ensures
            escaped is Some <==> self@.is_live(local@) && self@.depth() > 1,
            escaped matches Some(l) ==> l@ == self@.escaped_handle_for(local@.address)
                && self@.is_live(l@) && self@.exited().is_live(l@),
    {
        if !self.is_live(local) || self.frames.len() <= 1 {
            return None;
        }
        let depth: usize = self.frames.len() - 2;
        Some(
            Local {
                handle: Handle {
                    address: local.handle.address,
                    depth,
                    serial: self.frames[depth].serial,
                },
                kind: PhantomData,
            },
        )
    }

    /// Whether `local` can still be used: whether the scope it was made in is
    /// open. This is for handles made through this `HandleScope`; for a
    /// handle made through another the answer means nothing.
    pub fn is_live<T>(&self, local: &Local<T>) -> (live: bool)
        ensures
            live == self@.is_live(local@),
    {
        local.handle.address != NULL && local.handle.depth < self.frames.len()
            && self.frames[local.handle.depth].serial == local.handle.serial
    }

    /// What `local` names. A dead handle is told nothing: for it, and for a
    /// handle that names nothing the heap holds, the answer is `Kind::Null`.
    pub fn kind_of<T>(&self, local: &Local<T>) -> (kind: Kind)
        ensures
            kind == (if self@.is_live(local@) && local@.address < self@.heap.len() {
                self@.target(local@).kind()
            } else {
                Kind::Null
            }),
    {
        if self.is_live(local) {
            self.isolate.kind_of(local.handle.address)
        } else {
            Kind::Null
        }
    }

    /// The address that `local` names, for the one moment in which it is
    /// handed to the engine. A dead handle gives none.
    pub fn raw_address<T>(&self, local: &Local<T>) -> (raw: Option<usize>)
        ensures
            raw == (if self@.is_live(local@) {
                Some(local@.address)
            } else {
                None
            }),
    {
        if self.is_live(local) {
            Some(local.handle.address)
        } else {
            None
        }
    }
}

/// A state whose heap has grown, with the same scopes open, is consistent and
/// can come after the state it grew from.
pub proof fn lemma_with_heap_follows(state: ScopeView, heap: Seq<ObjectView>)
    requires
        state.wf(),
        heap_wf(heap),
        extends(heap, state.heap),
    ensures
        state.with_heap(heap).wf(),
        state.with_heap(heap).follows(state),
{
    let next = state.with_heap(heap);
    assert forall|i: int| 0 <= i < next.frames.len() implies next.context_ok(
        (#[trigger] next.frames[i]).context,
    ) by {
        assert(state.context_ok(state.frames[i].context));
    }
}

/// Every state can come after itself.
pub proof fn lemma_follows_reflexive(state: ScopeView)
    ensures
        state.follows(state),
{
}

/// What can come after a state that can come after `first` can come after
/// `first`.
pub proof fn lemma_follows_transitive(first: ScopeView, second: ScopeView, third: ScopeView)
    requires
        second.follows(first),
        third.follows(second),
    ensures
        third.follows(first),
{
    assert forall|a: int| 0 <= a < first.heap.len() implies (#[trigger] third.heap[a]).kind()
        == first.heap[a].kind() by {
        assert(second.heap[a].kind() == first.heap[a].kind());
    }
    assert forall|a: int| 0 <= a < first.heap.len() implies (
    #[trigger] third.heap[a]).global_proxy() == first.heap[a].global_proxy() by {
        assert(second.heap[a].global_proxy() == first.heap[a].global_proxy());
    }
    assert forall|a: int, context: usize|
        0 <= a < first.heap.len() && realized_in(
            first.heap[a].realized(),
            context,
        ) != NULL implies #[trigger] realized_in(
        third.heap[a].realized(),
        context,
    ) == realized_in(first.heap[a].realized(), context) by {
        assert(realized_in(second.heap[a].realized(), context)
            == realized_in(first.heap[a].realized(), context));
    }
    assert forall|i: int|
        0 <= i < third.frames.len() && (#[trigger] third.frames[i]).serial
            < first.next_serial implies i < first.frames.len() && first.frames[i].serial
        == third.frames[i].serial by {
        assert(second.frames[i].serial == third.frames[i].serial);
    }
}

/// A handle whose scope has closed is dead in every state that comes after:
/// no scope that opens later takes the place of the one that closed.
pub proof fn lemma_closed_scope_stays_closed(before: ScopeView, after: ScopeView, h: Handle)
    requires
        after.follows(before),
        before.issued(h),
        !before.is_open(h),
    ensures
        !after.is_open(h),
        !after.is_live(h),
{
    if after.is_open(h) {
        assert(after.frames[h.depth as int].serial < before.next_serial);
    }
}

/// A handle made in the innermost scope is dead once that scope has closed,
/// and in every state that comes after.
pub proof fn lemma_handle_dies_with_its_scope(
    open: ScopeView,
    raw: usize,
    after: ScopeView,
)
    requires
        open.wf(),
        open.depth() > 1,
        after.follows(open.exited()),
    ensures
        open.is_open(open.handle_for(raw)),
        !open.exited().is_open(open.handle_for(raw)),
        !after.is_live(open.handle_for(raw)),
{
    let h = open.handle_for(raw);
    assert(open.frames.last().serial < open.next_serial);
    lemma_closed_scope_stays_closed(open.exited(), after, h);
}

/// Scopes close innermost first: while a scope is open, every scope that
/// was open when it was opened is open too. So a handle of an enclosing
/// scope is usable wherever a handle of a scope inside it is.
pub proof fn lemma_enclosing_scope_outlives(
    before: ScopeView,
    after: ScopeView,
    inner: Handle,
    outer: Handle,
)
    requires
        before.wf(),
        after.wf(),
        after.follows(before),
        before.is_open(inner),
        before.is_open(outer),
        outer.depth <= inner.depth,
        after.is_open(inner),
    ensures
        after.is_open(outer),
{
    assert(before.frames[inner.depth as int].serial < before.next_serial);
    if outer.depth < inner.depth {
        assert(after.frames[outer.depth as int].serial < after.frames[inner.depth as int].serial);
    }
}

} // verus!
