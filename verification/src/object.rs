//! Objects, and the small values that templates are set up with.
use vstd::prelude::*;
use crate::heap::{distinct_keys, lookup, Kind, ObjectView, NULL};
use crate::scope::{lemma_with_heap_follows, HandleScope, Local};
use crate::value::{FunctionTemplate, Name, Object, PropertyAttribute, Signature, Value};

verus! {

impl Name {
    /// Makes a name that is equal to no other. It stands last in the heap.
    pub fn new(scope: &mut HandleScope) -> (name: Local<Name>)
        requires
            old(scope).wf(),
        ensures
            final(scope).wf(),
            final(scope)@.follows(old(scope)@),
            final(scope)@ == old(scope)@.with_heap(old(scope)@.heap.push(ObjectView::Primitive)),
            name@ == final(scope)@.handle_for(old(scope)@.heap.len() as usize),
            final(scope)@.refers(name@, Kind::Primitive),
    {
        let raw = scope.isolate_mut().primitive_new();
        proof {
            lemma_with_heap_follows(old(scope)@, scope@.heap);
        }
        scope.cast_local(raw).unwrap()
    }
}

impl Signature {
    /// Makes a signature that admits as receivers the objects made from the
    /// function template `receiver`. It stands last in the heap.
    pub fn new(scope: &mut HandleScope, receiver: Local<FunctionTemplate>) -> (signature: Local<
        Signature,
    >)
        requires
            old(scope).wf(),
            old(scope)@.refers(receiver@, Kind::FunctionTemplate),
        ensures
            final(scope).wf(),
            final(scope)@.follows(old(scope)@),
            final(scope)@ == old(scope)@.with_heap(
                old(scope)@.heap.push(ObjectView::Signature { receiver: receiver@.address }),
            ),
            signature@ == final(scope)@.handle_for(old(scope)@.heap.len() as usize),
            final(scope)@.refers(signature@, Kind::Signature),
    {
        let raw = scope.isolate_mut().signature_new(receiver.address());
        proof {
            lemma_with_heap_follows(old(scope)@, scope@.heap);
        }
        scope.cast_local(raw).unwrap()
    }
}

impl Object {
    /// Reads the property `key` of the object or function `this`: the value
    /// that was installed last under that key, or none where the key was
    /// never set. The state stays as it is.
    pub fn get(this: &Local<Object>, scope: &mut HandleScope, key: Local<Name>) -> (value: Option<
        Local<Value>,
    >)
        requires
            old(scope).wf(),
            old(scope)@.refers_instance(this@),
            old(scope)@.is_live(key@),
        ensures
            final(scope)@ == old(scope)@,
            value is None <==> lookup(old(scope)@.target(this@).properties(), key@.address)
                is None,
            value matches Some(v) ==> lookup(
                old(scope)@.target(this@).properties(),
                key@.address,
            ) matches Some(p) && v@ == old(scope)@.handle_for(p.value) && final(scope)@.is_live(
                v@,
            ),
    {
        match scope.isolate().instance_get(this.address(), key.address()) {
            Some(property) => scope.cast_local(property.value),
            None => None,
        }
    }

    /// The attributes under which the property `key` of the object or
    /// function `this` was installed last, or none where the key was never
    /// set.
    pub fn get_property_attributes(
        this: &Local<Object>,
        scope: &HandleScope,
        key: Local<Name>,
    ) -> (attr: Option<PropertyAttribute>)
        requires
            scope.wf(),
            scope@.refers_instance(this@),
            scope@.is_live(key@),
        ensures
            attr == (match lookup(scope@.target(this@).properties(), key@.address) {
                Some(p) => Some(p.attr),
                None => None,
            }),
    {
        match scope.isolate().instance_get(this.address(), key.address()) {
            Some(property) => Some(property.attr),
            None => None,
        }
    }

    /// The number of properties of the object or function `this`. It has one
    /// for each key that was set on its template, however often the key was
    /// set there.
    pub fn property_count(this: &Local<Object>, scope: &HandleScope) -> (count: usize)
        requires
            scope.wf(),
            scope@.refers_instance(this@),
        ensures
            count == scope@.target(this@).properties().len(),
            distinct_keys(scope@.target(this@).properties()),
    {
        scope.isolate().instance_property_count(this.address())
    }

    /// The object in which the lookups of the object `this` go on, or none.
    /// For a global proxy this is the global object. The state stays as it
    /// is.
    pub fn get_prototype(this: &Local<Object>, scope: &mut HandleScope) -> (prototype: Option<
        Local<Object>,
    >)
        requires
            old(scope).wf(),
            old(scope)@.refers(this@, Kind::Object),
        ensures
            final(scope)@ == old(scope)@,
            prototype is None <==> old(scope)@.target(this@).prototype() == NULL,
            prototype matches Some(p) ==> p@ == old(scope)@.handle_for(
                old(scope)@.target(this@).prototype(),
            ) && final(scope)@.is_live(p@),
    {
        let raw = scope.isolate().object_prototype(this.address());
        scope.cast_local(raw)
    }

    /// The number of internal fields of the object `this`.
    pub fn internal_field_count(this: &Local<Object>, scope: &HandleScope) -> (count: usize)
        requires
            scope.wf(),
            scope@.refers(this@, Kind::Object),
        ensures
            count == scope@.target(this@).internal_fields(),
    {
        let count: i32 = scope.isolate().object_internal_field_count(this.address());
        count as usize
    }
}

} // verus!
