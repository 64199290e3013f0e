//! Templates: blueprints that are set up before any context exists and are
//! turned into objects and functions of a context later.
use vstd::prelude::*;
use crate::heap::{
    after_get_function, after_new_instance, function_for, instance_for, Kind, ObjectView, NULL,
};
use crate::scope::{lemma_with_heap_follows, HandleScope, Local};
use crate::value::{
    ConstructorBehavior, Data, Function, FunctionCallback, FunctionConfig, FunctionTemplate, Name,
    Object, ObjectTemplate, Property, PropertyAttribute, SideEffectType, Signature, Template, Value,
};

verus! {

impl Template {
    /// Adds a property to each instance that the template `this` makes from
    /// now on, with no special attribute. A key may be set again: the entry
    /// goes behind those that are there, and a read finds the last.
    pub fn set(
        this: &Local<Template>,
        scope: &mut HandleScope,
        key: Local<Name>,
        value: Local<Data>,
    )
        requires
            old(scope).wf(),
            old(scope)@.refers_template(this@),
            old(scope)@.is_live(key@),
            old(scope)@.is_live(value@),
        ensures
            final(scope).wf(),
            final(scope)@.follows(old(scope)@),
            final(scope)@ == old(scope)@.with_heap(
                old(scope)@.heap.update(
                    this@.address as int,
                    old(scope)@.target(this@).with_property(
                        Property {
                            key: key@.address,
                            value: value@.address,
                            attr: PropertyAttribute {
                                read_only: false,
                                dont_enum: false,
                                dont_delete: false,
                            },
                        },
                    ),
                ),
            ),
    {
        Template::set_with_attr(this, scope, key, value, PropertyAttribute::none())
    }

    /// Adds a property with the attributes `attr` to each instance that the
    /// template `this` makes from now on.
    pub fn set_with_attr(
        this: &Local<Template>,
        scope: &mut HandleScope,
        key: Local<Name>,
        value: Local<Data>,
        attr: PropertyAttribute,
    )
        requires
            old(scope).wf(),
            old(scope)@.refers_template(this@),
            old(scope)@.is_live(key@),
            old(scope)@.is_live(value@),
        ensures
            final(scope).wf(),
            final(scope)@.follows(old(scope)@),
            final(scope)@ == old(scope)@.with_heap(
                old(scope)@.heap.update(
                    this@.address as int,
                    old(scope)@.target(this@).with_property(
                        Property { key: key@.address, value: value@.address, attr },
                    ),
                ),
            ),
    {
        let property = Property { key: key.address(), value: value.address(), attr };
        scope.isolate_mut().template_set(this.address(), property);
        proof {
            lemma_with_heap_follows(old(scope)@, scope@.heap);
        }
    }
}

/// What is staged for a function template before the one call that makes it.
/// It lives with the host, not in the engine's heap, and is used up by
/// `build`.
pub struct FunctionBuilder {
    pub callback: FunctionCallback,
    pub data: Option<Local<Value>>,
    pub signature: Option<Local<Signature>>,
    pub length: i32,
    pub constructor_behavior: ConstructorBehavior,
    pub side_effect_type: SideEffectType,
}

/// The address that an optional handle stands for at the boundary: its own,
/// or the reserved address where there is no handle.
pub open spec fn address_or_null<T>(handle: Option<Local<T>>) -> usize {
    match handle {
        Some(local) => local@.address,
        None => NULL,
    }
}

fn raw_or_null<T>(handle: &Option<Local<T>>) -> (raw: usize)
    ensures
        raw == address_or_null(*handle),
{
    match handle {
        Some(local) => local.address(),
        None => NULL,
    }
}

impl FunctionBuilder {
    /// What the engine is told when the template is made.
    pub open spec fn config(self) -> FunctionConfig {
        FunctionConfig {
            callback: self.callback,
            data: address_or_null(self.data),
            signature: address_or_null(self.signature),
            length: self.length,
            constructor_behavior: self.constructor_behavior,
            side_effect_type: self.side_effect_type,
        }
    }

    /// What the engine is told when the template is made: each staged value
    /// as it is, and the reserved address for a handle that was not staged.
    pub fn into_config(self) -> (config: FunctionConfig)
        ensures
            config == self.config(),
    {
        FunctionConfig {
            callback: self.callback,
            data: raw_or_null(&self.data),
            signature: raw_or_null(&self.signature),
            length: self.length,
            constructor_behavior: self.constructor_behavior,
            side_effect_type: self.side_effect_type,
        }
    }

    /// A builder for a function that runs `callback`: no data, no signature,
    /// no declared parameters, `new` allowed, side effects expected.
    pub fn new(callback: FunctionCallback) -> (builder: FunctionBuilder)
        ensures
            builder == (FunctionBuilder {
                callback,
                data: None,
                signature: None,
                length: 0,
                constructor_behavior: ConstructorBehavior::Allow,
                side_effect_type: SideEffectType::HasSideEffect,
            }),
    {
        FunctionBuilder {
            callback,
            data: None,
            signature: None,
            length: 0,
            constructor_behavior: ConstructorBehavior::Allow,
            side_effect_type: SideEffectType::HasSideEffect,
        }
    }

    /// Sets the value that the callback is handed at each call.
    pub fn data(self, data: Local<Value>) -> (builder: FunctionBuilder)
        ensures
            builder == (FunctionBuilder { data: Some(data), ..self }),
    {
        let mut builder = self;
        builder.data = Some(data);
        builder
    }

    /// Sets the signature: which receivers the function accepts. Without one
    /// it accepts all.
    pub fn signature(self, signature: Local<Signature>) -> (builder: FunctionBuilder)
        ensures
            builder == (FunctionBuilder { signature: Some(signature), ..self }),
    {
        let mut builder = self;
        builder.signature = Some(signature);
        builder
    }

    /// Sets the number of parameters that the function declares.
    pub fn length(self, length: i32) -> (builder: FunctionBuilder)
        ensures
            builder == (FunctionBuilder { length, ..self }),
    {
        let mut builder = self;
        builder.length = length;
        builder
    }

    /// Sets whether the function may be called with `new`.
    pub fn constructor_behavior(self, constructor_behavior: ConstructorBehavior) -> (builder:
        FunctionBuilder)
        ensures
            builder == (FunctionBuilder { constructor_behavior, ..self }),
    {
        let mut builder = self;
        builder.constructor_behavior = constructor_behavior;
        builder
    }

    /// Sets what the engine may assume of the callback's side effects.
    pub fn side_effect_type(self, side_effect_type: SideEffectType) -> (builder: FunctionBuilder)
        ensures
            builder == (FunctionBuilder { side_effect_type, ..self }),
    {
        let mut builder = self;
        builder.side_effect_type = side_effect_type;
        builder
    }

    /// Makes the function template, in one call that takes all that was
    /// staged. The template stands last in the heap, without a class name,
    /// without properties, and realised in no context.
    pub fn build(self, scope: &mut HandleScope) -> (templ: Local<FunctionTemplate>)
        requires
            old(scope).wf(),
            self.data matches Some(data) ==> old(scope)@.is_live(data@),
            self.signature matches Some(signature) ==> old(scope)@.is_live(signature@),
        ensures
            final(scope).wf(),
            final(scope)@.follows(old(scope)@),
            final(scope)@ == old(scope)@.with_heap(
                old(scope)@.heap.push(
                    ObjectView::FunctionTemplate {
                        config: self.config(),
                        class_name: NULL,
                        properties: Seq::empty(),
                        realized: Seq::empty(),
                    },
                ),
            ),
            templ@ == final(scope)@.handle_for(old(scope)@.heap.len() as usize),
            final(scope)@.refers(templ@, Kind::FunctionTemplate),
    {
        let config = self.into_config();
        let raw = scope.isolate_mut().function_template_new(config);
        proof {
            lemma_with_heap_follows(old(scope)@, scope@.heap);
        }
        scope.cast_local(raw).unwrap()
    }
}

impl FunctionTemplate {
    /// A builder for a function template that runs `callback`, with every
    /// other choice at its default.
    pub fn builder(callback: FunctionCallback) -> (builder: FunctionBuilder)
        ensures
            builder == (FunctionBuilder {
                callback,
                data: None,
                signature: None,
                length: 0,
                constructor_behavior: ConstructorBehavior::Allow,
                side_effect_type: SideEffectType::HasSideEffect,
            }),
    {
        FunctionBuilder::new(callback)
    }

    /// Makes a function template that runs `callback`, with every other
    /// choice at its default.
    pub fn new(scope: &mut HandleScope, callback: FunctionCallback) -> (templ: Local<
        FunctionTemplate,
    >)
        requires
            old(scope).wf(),
        ensures
            final(scope).wf(),
            final(scope)@.follows(old(scope)@),
            final(scope)@ == old(scope)@.with_heap(
                old(scope)@.heap.push(
                    ObjectView::FunctionTemplate {
                        config: FunctionConfig {
                            callback,
                            data: NULL,
                            signature: NULL,
                            length: 0,
                            constructor_behavior: ConstructorBehavior::Allow,
                            side_effect_type: SideEffectType::HasSideEffect,
                        },
                        class_name: NULL,
                        properties: Seq::empty(),
                        realized: Seq::empty(),
                    },
                ),
            ),
            templ@ == final(scope)@.handle_for(old(scope)@.heap.len() as usize),
            final(scope)@.refers(templ@, Kind::FunctionTemplate),
    {
        FunctionTemplate::builder(callback).build(scope)
    }

    /// The one function of the template `this` in the context that is current
    /// in the innermost scope. Without a current context there is none, and
    /// nothing changes. With one, the function on record for that context is
    /// returned, and where none is on record yet a new one is made, with the
    /// template's properties in effect (for each key the one set last, and no
    /// other), and put on record.
    pub fn get_function(this: &Local<FunctionTemplate>, scope: &mut HandleScope) -> (function:
        Option<Local<Function>>)
        requires
            old(scope).wf(),
            old(scope)@.refers(this@, Kind::FunctionTemplate),
        ensures
            final(scope).wf(),
            final(scope)@.follows(old(scope)@),
            final(scope)@ == old(scope)@.with_heap(
                after_get_function(
                    old(scope)@.heap,
                    this@.address,
                    old(scope)@.current_context(),
                ),
            ),
            function is None <==> old(scope)@.current_context() == NULL,
            function matches Some(f) ==> f@ == final(scope)@.handle_for(
                function_for(old(scope)@.heap, this@.address, old(scope)@.current_context()),
            ) && final(scope)@.refers(f@, Kind::Function),
    {
        let context = scope.get_current_context();
        let raw = scope.isolate_mut().function_template_get_function(this.address(), context);
        proof {
            lemma_with_heap_follows(old(scope)@, scope@.heap);
        }
        scope.cast_local(raw)
    }

    /// Sets the name under which the engine prints objects that the function
    /// of the template `this` constructs. Nothing else changes.
    pub fn set_class_name(this: &Local<FunctionTemplate>, scope: &mut HandleScope, name: Local<Name>)
        requires
            old(scope).wf(),
            old(scope)@.refers(this@, Kind::FunctionTemplate),
            old(scope)@.is_live(name@),
        ensures
            final(scope).wf(),
            final(scope)@.follows(old(scope)@),
            final(scope)@ == old(scope)@.with_heap(
                old(scope)@.heap.update(
                    this@.address as int,
                    old(scope)@.target(this@).with_class_name(name@.address),
                ),
            ),
    {
        scope.isolate_mut().function_template_set_class_name(this.address(), name.address());
        proof {
            lemma_with_heap_follows(old(scope)@, scope@.heap);
        }
    }
}

impl ObjectTemplate {
    /// Makes an object template without a constructor. It stands last in the
    /// heap, without properties, and reserves no internal field.
    pub fn new(scope: &mut HandleScope) -> (templ: Local<ObjectTemplate>)
        requires
            old(scope).wf(),
        ensures
            final(scope).wf(),
            final(scope)@.follows(old(scope)@),
            final(scope)@ == old(scope)@.with_heap(
                old(scope)@.heap.push(
                    ObjectView::ObjectTemplate {
                        constructor: NULL,
                        internal_fields: 0,
                        properties: Seq::empty(),
                    },
                ),
            ),
            templ@ == final(scope)@.handle_for(old(scope)@.heap.len() as usize),
            final(scope)@.refers(templ@, Kind::ObjectTemplate),
    {
        let raw = scope.isolate_mut().object_template_new(NULL);
        proof {
            lemma_with_heap_follows(old(scope)@, scope@.heap);
        }
        scope.cast_local(raw).unwrap()
    }

    /// Makes an object template whose instances have the function of the
    /// function template `templ` as their constructor.
    pub fn new_from_template(scope: &mut HandleScope, templ: Local<FunctionTemplate>) -> (made:
        Local<ObjectTemplate>)
        requires
            old(scope).wf(),
            old(scope)@.refers(templ@, Kind::FunctionTemplate),
        ensures
            final(scope).wf(),
            final(scope)@.follows(old(scope)@),
            final(scope)@ == old(scope)@.with_heap(
                old(scope)@.heap.push(
                    ObjectView::ObjectTemplate {
                        constructor: templ@.address,
                        internal_fields: 0,
                        properties: Seq::empty(),
                    },
                ),
            ),
            made@ == final(scope)@.handle_for(old(scope)@.heap.len() as usize),
            final(scope)@.refers(made@, Kind::ObjectTemplate),
    {
        let raw = scope.isolate_mut().object_template_new(templ.address());
        proof {
            lemma_with_heap_follows(old(scope)@, scope@.heap);
        }
        scope.cast_local(raw).unwrap()
    }

    /// Makes an object as the template `this` shapes it, for the context that
    /// is current in the innermost scope. Without a current context there is
    /// none, and nothing changes. With one, the object is new: it stands last
    /// in the heap, with the template's internal fields and its properties in
    /// effect: for each key that was set, the entry set last under it, and no
    /// other.
    pub fn new_instance(this: &Local<ObjectTemplate>, scope: &mut HandleScope) -> (instance: Option<
        Local<Object>,
    >)
        requires
            old(scope).wf(),
            old(scope)@.refers(this@, Kind::ObjectTemplate),
        ensures
            final(scope).wf(),
            final(scope)@.follows(old(scope)@),
            final(scope)@ == old(scope)@.with_heap(
                after_new_instance(
                    old(scope)@.heap,
                    this@.address,
                    old(scope)@.current_context(),
                ),
            ),
            instance is None <==> old(scope)@.current_context() == NULL,
            instance matches Some(object) ==> object@ == final(scope)@.handle_for(
                instance_for(old(scope)@.heap, old(scope)@.current_context()),
            ) && final(scope)@.refers(object@, Kind::Object),
    {
        let context = scope.get_current_context();
        let raw = scope.isolate_mut().object_template_new_instance(this.address(), context);
        proof {
            lemma_with_heap_follows(old(scope)@, scope@.heap);
        }
        scope.cast_local(raw)
    }

    /// The number of internal fields that each instance of the template
    /// `this` gets.
    pub fn internal_field_count(this: &Local<ObjectTemplate>, scope: &HandleScope) -> (count: usize)
        requires
            scope.wf(),
            scope@.refers(this@, Kind::ObjectTemplate),
        ensures
            count == scope@.target(this@).internal_fields(),
    {
        let count: i32 = scope.isolate().object_template_internal_field_count(this.address());
        count as usize
    }

    /// Makes each instance of the template `this` get `value` internal
    /// fields. The engine takes the count in 32 bits with a sign: a `value`
    /// above `i32::MAX` is refused, and then nothing changes.
    pub fn set_internal_field_count(
        this: &Local<ObjectTemplate>,
        scope: &mut HandleScope,
        value: usize,
    ) -> (accepted: bool)
        requires
            old(scope).wf(),
            old(scope)@.refers(this@, Kind::ObjectTemplate),
        ensures
            final(scope).wf(),
            final(scope)@.follows(old(scope)@),
            accepted == (value <= i32::MAX),
            final(scope)@ == (if accepted {
                old(scope)@.with_heap(
                    old(scope)@.heap.update(
                        this@.address as int,
                        old(scope)@.target(this@).with_internal_fields(value as int),
                    ),
                )
            } else {
                old(scope)@
            }),
    {
        match i32::try_from(value) {
            Err(_) => false,
            Ok(count) => {
                scope.isolate_mut().object_template_set_internal_field_count(
                    this.address(),
                    count,
                );
                proof {
                    lemma_with_heap_follows(old(scope)@, scope@.heap);
                }
                true
            },
        }
    }
}

} // verus!
