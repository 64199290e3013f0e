//! The heap itself: an arena of objects named by address, and the calls by
//! which the engine is asked to make, read and change them.
use vstd::prelude::*;
use crate::heap::{
    after_get_function, after_new_instance, extends, function_for, heap_wf, holds, holds_instance,
    holds_template, in_effect, instance_for, instance_of, lemma_get_function_extends,
    lemma_instance_keeps_wf, without_key,
    lemma_get_function_keeps_wf, lemma_lookup_found, lemma_push_keeps_wf,
    lemma_realized_in_found, lemma_update_keeps_wf, lookup, properties_wf, realization_wf,
    realized_in, with_context, Kind, ObjectView, NULL,
};
use crate::value::{FunctionConfig, Property, Realized};

verus! {

/// An object as the heap stores it.
pub(crate) enum HeapObject {
    Null,
    Primitive,
    Signature { receiver: usize },
    Context { global_proxy: usize, code_generation: bool },
    Object { template: usize, prototype: usize, properties: Vec<Property>, internal_fields: i32 },
    Function { template: usize, context: usize, properties: Vec<Property> },
    FunctionTemplate {
        config: FunctionConfig,
        class_name: usize,
        properties: Vec<Property>,
        realized: Vec<Realized>,
    },
    ObjectTemplate { constructor: usize, internal_fields: i32, properties: Vec<Property> },
}

impl View for HeapObject {
    type V = ObjectView;

    closed spec fn view(&self) -> ObjectView {
        match self {
            HeapObject::Null => ObjectView::Null,
            HeapObject::Primitive => ObjectView::Primitive,
            HeapObject::Signature { receiver } => ObjectView::Signature { receiver: *receiver },
            HeapObject::Context { global_proxy, code_generation } => ObjectView::Context {
                global_proxy: *global_proxy,
                code_generation: *code_generation,
            },
            HeapObject::Object { template, prototype, properties, internal_fields } => {
                ObjectView::Object {
                    template: *template,
                    prototype: *prototype,
                    properties: properties@,
                    internal_fields: *internal_fields as int,
                }
            },
            HeapObject::Function { template, context, properties } => ObjectView::Function {
                template: *template,
                context: *context,
                properties: properties@,
            },
            HeapObject::FunctionTemplate { config, class_name, properties, realized } => {
                ObjectView::FunctionTemplate {
                    config: *config,
                    class_name: *class_name,
                    properties: properties@,
                    realized: realized@,
                }
            },
            HeapObject::ObjectTemplate { constructor, internal_fields, properties } => {
                ObjectView::ObjectTemplate {
                    constructor: *constructor,
                    internal_fields: *internal_fields as int,
                    properties: properties@,
                }
            },
        }
    }
}

/// The entries of `source` that do not stand under `key`, in their order.
fn remove_key(source: &Vec<Property>, key: usize) -> (kept: Vec<Property>)
    ensures
        kept@ == without_key(source@, key),
{
    let mut kept: Vec<Property> = Vec::new();
    let mut i: usize = 0;
    while i < source.len()
        invariant
            i <= source.len(),
            kept@ == without_key(source@.take(i as int), key),
        decreases source.len() - i,
    {
        assert(source@.take(i + 1).drop_last() =~= source@.take(i as int));
        if source[i].key != key {
            kept.push(source[i]);
        }
        i += 1;
    }
    assert(source@.take(source.len() as int) =~= source@);
    kept
}

/// The entries of `source` that are in effect: for each key the entry that
/// was installed last under it.
fn properties_in_effect(source: &Vec<Property>) -> (kept: Vec<Property>)
    ensures
        kept@ == in_effect(source@),
{
    let mut kept: Vec<Property> = Vec::new();
    let mut i: usize = 0;
    while i < source.len()
        invariant
            i <= source.len(),
            kept@ == in_effect(source@.take(i as int)),
        decreases source.len() - i,
    {
        assert(source@.take(i + 1).drop_last() =~= source@.take(i as int));
        let mut next = remove_key(&kept, source[i].key);
        next.push(source[i]);
        kept = next;
        i += 1;
    }
    assert(source@.take(source.len() as int) =~= source@);
    kept
}

/// The entry that was installed last under `key`, if there is one.
fn find_property(properties: &Vec<Property>, key: usize) -> (found: Option<Property>)
    ensures
        found == lookup(properties@, key),
{
    let mut i: usize = properties.len();
    assert(properties@.take(i as int) =~= properties@);
    while i > 0
        invariant
            i <= properties.len(),
            lookup(properties@, key) == lookup(properties@.take(i as int), key),
        decreases i,
    {
        i -= 1;
        assert(properties@.take(i + 1).drop_last() =~= properties@.take(i as int));
        if properties[i].key == key {
            return Some(properties[i]);
        }
    }
    None
}

/// The function on record for `context`, or the reserved address.
fn find_realized(entries: &Vec<Realized>, context: usize) -> (found: usize)
    ensures
        found == realized_in(entries@, context),
{
    let mut i: usize = 0;
    assert(entries@.skip(0) =~= entries@);
    while i < entries.len()
        invariant
            i <= entries.len(),
            realized_in(entries@, context) == realized_in(entries@.skip(i as int), context),
        decreases entries.len() - i,
    {
        assert(entries@.skip(i as int).drop_first() =~= entries@.skip(i + 1));
        if entries[i].context == context {
            return entries[i].function;
        }
        i += 1;
    }
    NULL
}

/// One independent heap of the engine. Objects are made behind those that are
/// there and stay where they were made.
pub struct Isolate {
    objects: Vec<HeapObject>,
}

impl View for Isolate {
    type V = Seq<ObjectView>;

    closed spec fn view(&self) -> Seq<ObjectView> {
        Seq::new(self.objects@.len(), |a: int| self.objects@[a]@)
    }
}

impl Isolate {
    /// Whether the heap is consistent.
    pub open spec fn wf(&self) -> bool {
        heap_wf(self@)
    }

    /// A heap that holds no object yet.
    pub fn new() -> (isolate: Isolate)
        ensures
            isolate.wf(),
            isolate@ == seq![ObjectView::Null],
    {
        let mut objects: Vec<HeapObject> = Vec::new();
        objects.push(HeapObject::Null);
        let isolate = Isolate { objects };
        assert(isolate@ =~= seq![ObjectView::Null]);
        isolate
    }

    /// The number of addresses in use, the reserved one included.
    pub fn size(&self) -> (n: usize)
        ensures
            n == self@.len(),
    {
        self.objects.len()
    }

    /// Stores `object` behind all that the heap holds and says where.
    fn store(&mut self, object: HeapObject) -> (addr: usize)
        ensures
            final(self)@ == old(self)@.push(object@),
            addr == old(self)@.len(),
            old(self)@.len() < usize::MAX,
    {
        let addr: usize = self.objects.len();
        self.objects.push(object);
        assert(self@ =~= old(self)@.push(object@));
        assert(self.objects.len() == self@.len());
        addr
    }

    /// What the address holds.
    pub(crate) fn kind_of(&self, addr: usize) -> (kind: Kind)
        ensures
            kind == (if addr < self@.len() {
                self@[addr as int].kind()
            } else {
                Kind::Null
            }),
    {
        if addr >= self.objects.len() {
            return Kind::Null;
        }
        match &self.objects[addr] {
            HeapObject::Null => Kind::Null,
            HeapObject::Primitive => Kind::Primitive,
            HeapObject::Signature { .. } => Kind::Signature,
            HeapObject::Context { .. } => Kind::Context,
            HeapObject::Object { .. } => Kind::Object,
            HeapObject::Function { .. } => Kind::Function,
            HeapObject::FunctionTemplate { .. } => Kind::FunctionTemplate,
            HeapObject::ObjectTemplate { .. } => Kind::ObjectTemplate,
        }
    }

    /// A new object as the template at `templ` shapes it.
    fn instantiate(&self, templ: usize) -> (object: HeapObject)
        ensures
            object@ == instance_of(self@, templ),
    {
        if templ < self.objects.len() {
            match &self.objects[templ] {
                HeapObject::ObjectTemplate { internal_fields, properties, .. } => {
                    return HeapObject::Object {
                        template: templ,
                        prototype: NULL,
                        properties: properties_in_effect(properties),
                        internal_fields: *internal_fields,
                    };
                },
                _ => {},
            }
        }
        let object = HeapObject::Object {
            template: NULL,
            prototype: NULL,
            properties: Vec::new(),
            internal_fields: 0,
        };
        assert(object@.properties() =~= Seq::empty());
        object
    }

    /// Makes a value without parts: a name, a number, a string.
    pub(crate) fn primitive_new(&mut self) -> (addr: usize)
        requires
            old(self).wf(),
        ensures
            final(self).wf(),
            extends(final(self)@, old(self)@),
            final(self)@ == old(self)@.push(ObjectView::Primitive),
            addr == old(self)@.len(),
    {
        let addr = self.store(HeapObject::Primitive);
        proof {
            lemma_push_keeps_wf(old(self)@, ObjectView::Primitive);
        }
        addr
    }

    /// Makes a signature that admits receivers made from the function
    /// template at `receiver`.
    pub(crate) fn signature_new(&mut self, receiver: usize) -> (addr: usize)
        requires
            old(self).wf(),
        ensures
            final(self).wf(),
            extends(final(self)@, old(self)@),
            final(self)@ == old(self)@.push(ObjectView::Signature { receiver }),
            addr == old(self)@.len(),
    {
        let addr = self.store(HeapObject::Signature { receiver });
        proof {
            lemma_push_keeps_wf(old(self)@, ObjectView::Signature { receiver });
        }
        addr
    }

    /// Makes a context. Its global object is shaped by the object template at
    /// `templ`, or bare where `templ` is the reserved address.
    pub(crate) fn context_new(&mut self, templ: usize) -> (addr: usize)
        requires
            old(self).wf(),
        ensures
            final(self).wf(),
            extends(final(self)@, old(self)@),
            final(self)@ == with_context(old(self)@, templ),
            addr == old(self)@.len() + 2,
    {
        let global_object = self.instantiate(templ);
        let global = self.store(global_object);
        proof {
            lemma_instance_keeps_wf(old(self)@, templ);
        }
        let ghost first = self@;
        let proxy_object = HeapObject::Object {
            template: NULL,
            prototype: global,
            properties: Vec::new(),
            internal_fields: 0,
        };
        assert(proxy_object@.properties() =~= Seq::empty());
        let proxy = self.store(proxy_object);
        proof {
            lemma_push_keeps_wf(first, proxy_object@);
        }
        let ghost second = self@;
        let addr = self.store(HeapObject::Context { global_proxy: proxy, code_generation: true });
        proof {
            lemma_push_keeps_wf(
                second,
                ObjectView::Context { global_proxy: proxy, code_generation: true },
            );
        }
        addr
    }

    /// The address of the global proxy of the context at `context`.
    pub(crate) fn context_global(&self, context: usize) -> (addr: usize)
        requires
            self.wf(),
            holds(self@, context, Kind::Context),
        ensures
            addr == self@[context as int].global_proxy(),
            holds(self@, addr, Kind::Object),
    {
        match &self.objects[context] {
            HeapObject::Context { global_proxy, .. } => *global_proxy,
            _ => NULL,
        }
    }

    /// Sets the policy on code made from strings of the context at `context`.
    pub(crate) fn context_allow_code_generation_from_strings(
        &mut self,
        context: usize,
        allow: bool,
    )
        requires
            old(self).wf(),
            holds(old(self)@, context, Kind::Context),
        ensures
            final(self).wf(),
            extends(final(self)@, old(self)@),
            final(self)@ == old(self)@.update(
                context as int,
                old(self)@[context as int].with_code_generation(allow),
            ),
    {
        match &mut self.objects[context] {
            HeapObject::Context { code_generation, .. } => {
                *code_generation = allow;
            },
            _ => {},
        }
        proof {
            let changed = old(self)@[context as int].with_code_generation(allow);
            assert(self@ =~= old(self)@.update(context as int, changed));
            lemma_update_keeps_wf(old(self)@, context as int, changed);
        }
    }

    /// Reads the policy on code made from strings of the context at `context`.
    pub(crate) fn context_is_code_generation_from_strings_allowed(&self, context: usize) -> (allowed:
        bool)
        requires
            holds(self@, context, Kind::Context),
        ensures
            allowed == self@[context as int].code_generation(),
    {
        match &self.objects[context] {
            HeapObject::Context { code_generation, .. } => *code_generation,
            _ => false,
        }
    }

    /// Installs a property on the template at `templ`, behind those it has.
    pub(crate) fn template_set(&mut self, templ: usize, property: Property)
        requires
            old(self).wf(),
            holds_template(old(self)@, templ),
            property.key != NULL,
            property.value != NULL,
        ensures
            final(self).wf(),
            extends(final(self)@, old(self)@),
            final(self)@ == old(self)@.update(
                templ as int,
                old(self)@[templ as int].with_property(property),
            ),
    {
        match &mut self.objects[templ] {
            HeapObject::FunctionTemplate { properties, .. } => {
                properties.push(property);
            },
            HeapObject::ObjectTemplate { properties, .. } => {
                properties.push(property);
            },
            _ => {},
        }
        proof {
            let changed = old(self)@[templ as int].with_property(property);
            assert(self@ =~= old(self)@.update(templ as int, changed));
            assert(changed.internal_fields() == old(self)@[templ as int].internal_fields());
            assert(properties_wf(old(self)@[templ as int].properties()));
            lemma_update_keeps_wf(old(self)@, templ as int, changed);
        }
    }

    /// Makes a function template from all that was staged for it.
    pub(crate) fn function_template_new(&mut self, config: FunctionConfig) -> (addr: usize)
        requires
            old(self).wf(),
        ensures
            final(self).wf(),
            extends(final(self)@, old(self)@),
            final(self)@ == old(self)@.push(
                ObjectView::FunctionTemplate {
                    config,
                    class_name: NULL,
                    properties: Seq::empty(),
                    realized: Seq::empty(),
                },
            ),
            addr == old(self)@.len(),
    {
        let object = HeapObject::FunctionTemplate {
            config,
            class_name: NULL,
            properties: Vec::new(),
            realized: Vec::new(),
        };
        assert(object@ =~= ObjectView::FunctionTemplate {
            config,
            class_name: NULL,
            properties: Seq::empty(),
            realized: Seq::empty(),
        });
        let addr = self.store(object);
        proof {
            lemma_push_keeps_wf(old(self)@, object@);
        }
        addr
    }

    /// The function of the template at `templ` in the context at `context`:
    /// the one on record, or a new one, which then goes on record.
    pub(crate) fn function_template_get_function(&mut self, templ: usize, context: usize) -> (addr:
        usize)
        requires
            old(self).wf(),
            holds(old(self)@, templ, Kind::FunctionTemplate),
        ensures
            final(self).wf(),
            extends(final(self)@, old(self)@),
            final(self)@ == after_get_function(old(self)@, templ, context),
            addr == function_for(old(self)@, templ, context),
            addr == NULL <==> context == NULL,
            context != NULL ==> holds(final(self)@, addr, Kind::Function),
    {
        if context == NULL {
            return NULL;
        }
        let mut prior: usize = NULL;
        let mut shape: Vec<Property> = Vec::new();
        assert(self@[templ as int] == self.objects@[templ as int]@);
        match &self.objects[templ] {
            HeapObject::FunctionTemplate { realized, properties, .. } => {
                prior = find_realized(realized, context);
                if prior == NULL {
                    shape = properties_in_effect(properties);
                }
            },
            _ => {},
        }
        if prior != NULL {
            proof {
                let record = self@[templ as int].realized();
                let i = lemma_realized_in_found(record, context);
                assert(realization_wf(self@, templ as int, record[i]));
            }
            return prior;
        }
        let addr = self.store(HeapObject::Function { template: templ, context, properties: shape });
        let ghost mid = self@;
        assert(self.objects.len() == self@.len());
        match &mut self.objects[templ] {
            HeapObject::FunctionTemplate { realized, .. } => {
                realized.push(Realized { context, function: addr });
            },
            _ => {},
        }
        proof {
            let entry = Realized { context, function: addr };
            assert(self@ =~= mid.update(templ as int, mid[templ as int].with_realized(entry)));
            assert(self@ =~= after_get_function(old(self)@, templ, context));
            lemma_get_function_keeps_wf(old(self)@, templ, context);
            lemma_get_function_extends(old(self)@, templ, context);
        }
        addr
    }

    /// Sets the name under which instances of the function template at
    /// `templ` are printed.
    pub(crate) fn function_template_set_class_name(&mut self, templ: usize, name: usize)
        requires
            old(self).wf(),
            holds(old(self)@, templ, Kind::FunctionTemplate),
        ensures
            final(self).wf(),
            extends(final(self)@, old(self)@),
            final(self)@ == old(self)@.update(
                templ as int,
                old(self)@[templ as int].with_class_name(name),
            ),
    {
        match &mut self.objects[templ] {
            HeapObject::FunctionTemplate { class_name, .. } => {
                *class_name = name;
            },
            _ => {},
        }
        proof {
            let changed = old(self)@[templ as int].with_class_name(name);
            assert(properties_wf(old(self)@[templ as int].properties()));
            assert(self@ =~= old(self)@.update(templ as int, changed));
            lemma_update_keeps_wf(old(self)@, templ as int, changed);
        }
    }

    /// Makes an object template. Its instances have the function template at
    /// `constructor` as their constructor, or none where `constructor` is the
    /// reserved address.
    pub(crate) fn object_template_new(&mut self, constructor: usize) -> (addr: usize)
        requires
            old(self).wf(),
        ensures
            final(self).wf(),
            extends(final(self)@, old(self)@),
            final(self)@ == old(self)@.push(
                ObjectView::ObjectTemplate {
                    constructor,
                    internal_fields: 0,
                    properties: Seq::empty(),
                },
            ),
            addr == old(self)@.len(),
    {
        let object = HeapObject::ObjectTemplate {
            constructor,
            internal_fields: 0,
            properties: Vec::new(),
        };
        assert(object@ =~= ObjectView::ObjectTemplate {
            constructor,
            internal_fields: 0,
            properties: Seq::empty(),
        });
        let addr = self.store(object);
        proof {
            lemma_push_keeps_wf(old(self)@, object@);
        }
        addr
    }

    /// Makes an object as the object template at `templ` shapes it, for the
    /// context at `context`; without a context it makes nothing.
    pub(crate) fn object_template_new_instance(&mut self, templ: usize, context: usize) -> (addr:
        usize)
        requires
            old(self).wf(),
            holds(old(self)@, templ, Kind::ObjectTemplate),
        ensures
            final(self).wf(),
            extends(final(self)@, old(self)@),
            final(self)@ == after_new_instance(old(self)@, templ, context),
            addr == instance_for(old(self)@, context),
            addr == NULL <==> context == NULL,
            context != NULL ==> holds(final(self)@, addr, Kind::Object),
    {
        if context == NULL {
            return NULL;
        }
        let object = self.instantiate(templ);
        let addr = self.store(object);
        proof {
            lemma_instance_keeps_wf(old(self)@, templ);
        }
        addr
    }

    /// The number of internal fields that the object template at `templ`
    /// reserves, in the engine's own width.
    pub(crate) fn object_template_internal_field_count(&self, templ: usize) -> (count: i32)
        requires
            self.wf(),
            holds(self@, templ, Kind::ObjectTemplate),
        ensures
            count == self@[templ as int].internal_fields(),
            count >= 0,
    {
        assert(0 <= self@[templ as int].internal_fields());
        match &self.objects[templ] {
            HeapObject::ObjectTemplate { internal_fields, .. } => *internal_fields,
            _ => 0,
        }
    }

    /// Makes the object template at `templ` reserve `count` internal fields.
    pub(crate) fn object_template_set_internal_field_count(&mut self, templ: usize, count: i32)
        requires
            old(self).wf(),
            holds(old(self)@, templ, Kind::ObjectTemplate),
            count >= 0,
        ensures
            final(self).wf(),
            extends(final(self)@, old(self)@),
            final(self)@ == old(self)@.update(
                templ as int,
                old(self)@[templ as int].with_internal_fields(count as int),
            ),
    {
        match &mut self.objects[templ] {
            HeapObject::ObjectTemplate { internal_fields, .. } => {
                *internal_fields = count;
            },
            _ => {},
        }
        proof {
            let changed = old(self)@[templ as int].with_internal_fields(count as int);
            assert(properties_wf(old(self)@[templ as int].properties()));
            assert(self@ =~= old(self)@.update(templ as int, changed));
            lemma_update_keeps_wf(old(self)@, templ as int, changed);
        }
    }

    /// The property that a read of `key` finds on the object or function at
    /// `addr`.
    pub(crate) fn instance_get(&self, addr: usize, key: usize) -> (found: Option<Property>)
        requires
            self.wf(),
            holds_instance(self@, addr),
        ensures
            found == lookup(self@[addr as int].properties(), key),
            found matches Some(p) ==> p.key == key && p.value != NULL,
    {
        proof {
            assert(properties_wf(self@[addr as int].properties()));
            if lookup(self@[addr as int].properties(), key) is Some {
                lemma_lookup_found(self@[addr as int].properties(), key);
            }
        }
        match &self.objects[addr] {
            HeapObject::Object { properties, .. } => find_property(properties, key),
            HeapObject::Function { properties, .. } => find_property(properties, key),
            _ => None,
        }
    }

    /// The number of properties of the object or function at `addr`.
    pub(crate) fn instance_property_count(&self, addr: usize) -> (count: usize)
        requires
            holds_instance(self@, addr),
        ensures
            count == self@[addr as int].properties().len(),
    {
        match &self.objects[addr] {
            HeapObject::Object { properties, .. } => properties.len(),
            HeapObject::Function { properties, .. } => properties.len(),
            _ => 0,
        }
    }

    /// The address of the object in which the lookups of the object at `addr`
    /// go on, or the reserved address.
    pub(crate) fn object_prototype(&self, addr: usize) -> (prototype: usize)
        requires
            holds(self@, addr, Kind::Object),
        ensures
            prototype == self@[addr as int].prototype(),
    {
        match &self.objects[addr] {
            HeapObject::Object { prototype, .. } => *prototype,
            _ => NULL,
        }
    }

    /// The number of internal fields of the object at `addr`.
    pub(crate) fn object_internal_field_count(&self, addr: usize) -> (count: i32)
        requires
            self.wf(),
            holds(self@, addr, Kind::Object),
        ensures
            count == self@[addr as int].internal_fields(),
            count >= 0,
    {
        assert(0 <= self@[addr as int].internal_fields());
        match &self.objects[addr] {
            HeapObject::Object { internal_fields, .. } => *internal_fields,
            _ => 0,
        }
    }
}

} // verus!
