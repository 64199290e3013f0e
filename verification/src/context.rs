//! Contexts: the worlds in which script code runs, each with a global object
//! of its own and a policy on code made from strings.
use vstd::prelude::*;
use crate::heap::{holds, with_context, Kind, NULL};
use crate::scope::{lemma_with_heap_follows, HandleScope, Local};
use crate::value::{Context, Object, ObjectTemplate};

verus! {

impl Context {
    /// Makes a context whose global object is bare. This always yields a
    /// context: the handle is live, bound to the innermost scope, and names
    /// the context, which stands last in the heap behind its global object
    /// and the proxy of that object. Code made from strings is allowed in it.
    pub fn new(scope: &mut HandleScope) -> (context: Local<Context>)
        requires
            old(scope).wf(),
        ensures
            final(scope).wf(),
            final(scope)@.follows(old(scope)@),
            final(scope)@ == old(scope)@.with_heap(with_context(old(scope)@.heap, NULL)),
            context@ == final(scope)@.handle_for((old(scope)@.heap.len() + 2) as usize),
            final(scope)@.refers(context@, Kind::Context),
    {
        let raw = scope.isolate_mut().context_new(NULL);
        proof {
            lemma_with_heap_follows(old(scope)@, scope@.heap);
        }
        scope.cast_local(raw).unwrap()
    }

    /// Makes a context whose global object has the properties in effect and the
    /// internal fields of the object template `templ`. This always yields a
    /// context, as `new` does.
    pub fn new_from_template(scope: &mut HandleScope, templ: Local<ObjectTemplate>) -> (context:
        Local<Context>)
        requires
            old(scope).wf(),
            old(scope)@.refers(templ@, Kind::ObjectTemplate),
        ensures
            final(scope).wf(),
            final(scope)@.follows(old(scope)@),
            final(scope)@ == old(scope)@.with_heap(
                with_context(old(scope)@.heap, templ@.address),
            ),
            context@ == final(scope)@.handle_for((old(scope)@.heap.len() + 2) as usize),
            final(scope)@.refers(context@, Kind::Context),
    {
        let raw = scope.isolate_mut().context_new(templ.address());
        proof {
            lemma_with_heap_follows(old(scope)@, scope@.heap);
        }
        scope.cast_local(raw).unwrap()
    }

    /// The global proxy of the context `this`: not the global object itself,
    /// but the object that stands for it and whose lookups go on in it. It is
    /// the same object at every call, and the state stays as it is.
    pub fn global(this: &Local<Context>, scope: &mut HandleScope) -> (proxy: Local<Object>)
        requires
            old(scope).wf(),
            old(scope)@.refers(this@, Kind::Context),
        ensures
            final(scope)@ == old(scope)@,
            proxy@ == old(scope)@.handle_for(old(scope)@.target(this@).global_proxy()),
            final(scope)@.refers(proxy@, Kind::Object),
    {
        let raw = scope.isolate().context_global(this.address());
        scope.cast_local(raw).unwrap()
    }

    /// Sets whether code may be made from strings in the context `this`.
    /// Nothing else changes.
    pub fn allow_code_generation_from_strings(
        this: &Local<Context>,
        scope: &mut HandleScope,
        allow: bool,
    )
        requires
            old(scope).wf(),
            old(scope)@.refers(this@, Kind::Context),
        ensures
            final(scope).wf(),
            final(scope)@.follows(old(scope)@),
            final(scope)@ == old(scope)@.with_heap(
                old(scope)@.heap.update(
                    this@.address as int,
                    old(scope)@.target(this@).with_code_generation(allow),
                ),
            ),
    {
        scope.isolate_mut().context_allow_code_generation_from_strings(this.address(), allow);
        proof {
            lemma_with_heap_follows(old(scope)@, scope@.heap);
        }
    }

    /// Whether code may be made from strings in the context `this`.
    pub fn is_code_generation_from_strings_allowed(
        this: &Local<Context>,
        scope: &HandleScope,
    ) -> (allowed: bool)
        requires
            scope@.refers(this@, Kind::Context),
        ensures
            allowed == scope@.target(this@).code_generation(),
    {
        scope.isolate().context_is_code_generation_from_strings_allowed(this.address())
    }
}

} // verus!
