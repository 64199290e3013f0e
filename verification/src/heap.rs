//! The engine's heap as contracts speak of it: a sequence of objects, each
//! named by its place in it, and what each call of the engine makes of such a
//! sequence.
use vstd::prelude::*;
use crate::value::{FunctionConfig, Property, Realized};

verus! {

/// The reserved address that names no object.
pub const NULL: usize = 0;

/// What an address of the heap can hold.
#[derive(Clone, Copy, Debug, PartialEq, Eq, Structural)]
pub enum Kind {
    Null,
    Primitive,
    Signature,
    Context,
    Object,
    Function,
    FunctionTemplate,
    ObjectTemplate,
}

/// An object of the heap, as contracts speak of it.
pub enum ObjectView {
    /// Nothing: what the reserved address holds.
    Null,
    /// A value without parts that this crate reads: a name, a number, a string.
    Primitive,
    /// A constraint that binds a function to receivers made from `receiver`.
    Signature { receiver: usize },
    /// A context, with the proxy of its global object and its policy on
    /// code made from strings.
    Context { global_proxy: usize, code_generation: bool },
    /// An object: the template it was shaped by, where its lookups go on,
    /// its properties, one for each key, and the number of its internal
    /// fields.
    Object { template: usize, prototype: usize, properties: Seq<Property>, internal_fields: int },
    /// A function: the template it realises, the context it does so in, and
    /// its properties, one for each key.
    Function { template: usize, context: usize, properties: Seq<Property> },
    /// The blueprint of a function, with every entry that was set on it, in
    /// the order of the calls.
    FunctionTemplate {
        config: FunctionConfig,
        class_name: usize,
        properties: Seq<Property>,
        realized: Seq<Realized>,
    },
    /// The blueprint of an object, with every entry that was set on it, in
    /// the order of the calls.
    ObjectTemplate { constructor: usize, internal_fields: int, properties: Seq<Property> },
}

impl ObjectView {
    pub open spec fn kind(self) -> Kind {
        match self {
            ObjectView::Null => Kind::Null,
            ObjectView::Primitive => Kind::Primitive,
            ObjectView::Signature { .. } => Kind::Signature,
            ObjectView::Context { .. } => Kind::Context,
            ObjectView::Object { .. } => Kind::Object,
            ObjectView::Function { .. } => Kind::Function,
            ObjectView::FunctionTemplate { .. } => Kind::FunctionTemplate,
            ObjectView::ObjectTemplate { .. } => Kind::ObjectTemplate,
        }
    }

    /// Function templates and object templates are the templates.
    pub open spec fn is_template(self) -> bool {
        self is FunctionTemplate || self is ObjectTemplate
    }

    /// Objects and functions carry properties that can be read back.
    pub open spec fn is_instance(self) -> bool {
        self is Object || self is Function
    }

    /// The properties installed on this object, oldest first; none where the
    /// kind has none.
    pub open spec fn properties(self) -> Seq<Property> {
        match self {
            ObjectView::Object { properties, .. } => properties,
            ObjectView::Function { properties, .. } => properties,
            ObjectView::FunctionTemplate { properties, .. } => properties,
            ObjectView::ObjectTemplate { properties, .. } => properties,
            _ => Seq::empty(),
        }
    }

    /// The number of internal fields of an object, or that an object template
    /// reserves; zero for every other kind.
    pub open spec fn internal_fields(self) -> int {
        match self {
            ObjectView::Object { internal_fields, .. } => internal_fields,
            ObjectView::ObjectTemplate { internal_fields, .. } => internal_fields,
            _ => 0,
        }
    }

    /// A context's policy on code made from strings.
    pub open spec fn code_generation(self) -> bool {
        match self {
            ObjectView::Context { code_generation, .. } => code_generation,
            _ => false,
        }
    }

    /// The address of a context's global proxy.
    pub open spec fn global_proxy(self) -> usize {
        match self {
            ObjectView::Context { global_proxy, .. } => global_proxy,
            _ => NULL,
        }
    }

    /// The address of the object in which an object's lookups go on, or the
    /// reserved address.
    pub open spec fn prototype(self) -> usize {
        match self {
            ObjectView::Object { prototype, .. } => prototype,
            _ => NULL,
        }
    }

    /// The functions that a function template has been realised as.
    pub open spec fn realized(self) -> Seq<Realized> {
        match self {
            ObjectView::FunctionTemplate { realized, .. } => realized,
            _ => Seq::empty(),
        }
    }

    /// This template with one more property behind those it has.
    pub open spec fn with_property(self, p: Property) -> ObjectView {
        match self {
            ObjectView::FunctionTemplate { config, class_name, properties, realized } => {
                ObjectView::FunctionTemplate {
                    config,
                    class_name,
                    properties: properties.push(p),
                    realized,
                }
            },
            ObjectView::ObjectTemplate { constructor, internal_fields, properties } => {
                ObjectView::ObjectTemplate {
                    constructor,
                    internal_fields,
                    properties: properties.push(p),
                }
            },
            _ => self,
        }
    }

    /// This context with its policy on code made from strings set to `allow`.
    pub open spec fn with_code_generation(self, allow: bool) -> ObjectView {
        match self {
            ObjectView::Context { global_proxy, .. } => ObjectView::Context {
                global_proxy,
                code_generation: allow,
            },
            _ => self,
        }
    }

    /// This function template under another class name.
    pub open spec fn with_class_name(self, name: usize) -> ObjectView {
        match self {
            ObjectView::FunctionTemplate { config, properties, realized, .. } => {
                ObjectView::FunctionTemplate { config, class_name: name, properties, realized }
            },
            _ => self,
        }
    }

    /// This function template with one more realisation on record.
    pub open spec fn with_realized(self, entry: Realized) -> ObjectView {
        match self {
            ObjectView::FunctionTemplate { config, class_name, properties, realized } => {
                ObjectView::FunctionTemplate {
                    config,
                    class_name,
                    properties,
                    realized: realized.push(entry),
                }
            },
            _ => self,
        }
    }

    /// This object template reserving `count` internal fields.
    pub open spec fn with_internal_fields(self, count: int) -> ObjectView {
        match self {
            ObjectView::ObjectTemplate { constructor, properties, .. } => {
                ObjectView::ObjectTemplate { constructor, internal_fields: count, properties }
            },
            _ => self,
        }
    }
}

/// Whether `addr` names an object of kind `kind` in `heap`.
pub open spec fn holds(heap: Seq<ObjectView>, addr: usize, kind: Kind) -> bool {
    addr < heap.len() && heap[addr as int].kind() == kind
}

/// Whether `addr` names a template in `heap`.
pub open spec fn holds_template(heap: Seq<ObjectView>, addr: usize) -> bool {
    addr < heap.len() && heap[addr as int].is_template()
}

/// Whether `addr` names an object or a function in `heap`.
pub open spec fn holds_instance(heap: Seq<ObjectView>, addr: usize) -> bool {
    addr < heap.len() && heap[addr as int].is_instance()
}

/// The property that a read of `key` finds among `properties`: the one that
/// was installed last under that key.
pub open spec fn lookup(properties: Seq<Property>, key: usize) -> Option<Property>
    decreases properties.len(),
{
    if properties.len() == 0 {
        None
    } else if properties.last().key == key {
        Some(properties.last())
    } else {
        lookup(properties.drop_last(), key)
    }
}

/// The entries of `properties` that do not stand under `key`, in their order.
pub open spec fn without_key(properties: Seq<Property>, key: usize) -> Seq<Property>
    decreases properties.len(),
{
    if properties.len() == 0 {
        Seq::empty()
    } else if properties.last().key == key {
        without_key(properties.drop_last(), key)
    } else {
        without_key(properties.drop_last(), key).push(properties.last())
    }
}

/// The entries of `properties` that are in effect: every entry is dropped
/// that has a later entry under its key, and the others keep their order. So
/// for each key that was set, the entry set last under it is left, and no
/// other.
pub open spec fn in_effect(properties: Seq<Property>) -> Seq<Property>
    decreases properties.len(),
{
    if properties.len() == 0 {
        Seq::empty()
    } else {
        without_key(in_effect(properties.drop_last()), properties.last().key).push(
            properties.last(),
        )
    }
}

/// Whether no two entries stand under one key.
pub open spec fn distinct_keys(properties: Seq<Property>) -> bool {
    forall|i: int, j: int|
        0 <= i < j < properties.len() ==> (#[trigger] properties[i]).key != (
        #[trigger] properties[j]).key
}

/// The function on record for `context` among `entries`, or the reserved
/// address where there is none.
pub open spec fn realized_in(entries: Seq<Realized>, context: usize) -> usize
    decreases entries.len(),
{
    if entries.len() == 0 {
        NULL
    } else if entries.first().context == context {
        entries.first().function
    } else {
        realized_in(entries.drop_first(), context)
    }
}

/// The object that the template at `templ` shapes. It has one property for
/// each key that was set on the template, the one set last, and the
/// template's internal fields. The reserved address shapes a bare object.
pub open spec fn instance_of(heap: Seq<ObjectView>, templ: usize) -> ObjectView {
    if holds(heap, templ, Kind::ObjectTemplate) {
        ObjectView::Object {
            template: templ,
            prototype: NULL,
            properties: in_effect(heap[templ as int].properties()),
            internal_fields: heap[templ as int].internal_fields(),
        }
    } else {
        ObjectView::Object {
            template: NULL,
            prototype: NULL,
            properties: Seq::empty(),
            internal_fields: 0,
        }
    }
}

/// Whether `later` holds all that `earlier` held: each object at its address
/// and still of its kind, each context with the global proxy it had, and each
/// function template with the functions it had been realised as.
pub open spec fn extends(later: Seq<ObjectView>, earlier: Seq<ObjectView>) -> bool {
    &&& earlier.len() <= later.len()
    &&& forall|a: int| 0 <= a < earlier.len() ==> (#[trigger] later[a]).kind() == earlier[a].kind()
    &&& forall|a: int|
        0 <= a < earlier.len() ==> (#[trigger] later[a]).global_proxy()
            == earlier[a].global_proxy()
    &&& forall|a: int, context: usize|
        0 <= a < earlier.len() && realized_in(earlier[a].realized(), context) != NULL
            ==> #[trigger] realized_in(later[a].realized(), context) == realized_in(
            earlier[a].realized(),
            context,
        )
}

/// What a consistent heap looks like. Among other things, no object and no
/// function has two properties under one key.
pub open spec fn heap_wf(heap: Seq<ObjectView>) -> bool {
    &&& 1 <= heap.len() <= usize::MAX
    &&& heap[0] is Null
    &&& forall|a: int|
        0 <= a < heap.len() && heap[a] is Context ==> holds(
            heap,
            #[trigger] heap[a].global_proxy(),
            Kind::Object,
        )
    &&& forall|a: int|
        0 <= a < heap.len() ==> 0 <= #[trigger] heap[a].internal_fields() <= i32::MAX
    &&& forall|a: int| 0 <= a < heap.len() ==> properties_wf(#[trigger] heap[a].properties())
    &&& forall|a: int|
        0 <= a < heap.len() && (#[trigger] heap[a]).is_instance() ==> distinct_keys(
            heap[a].properties(),
        )
    &&& forall|a: int, i: int|
        0 <= a < heap.len() && 0 <= i < heap[a].realized().len() ==> realization_wf(
            heap,
            a,
            #[trigger] heap[a].realized()[i],
        )
}

/// Every entry names a key and a value.
pub open spec fn properties_wf(properties: Seq<Property>) -> bool {
    forall|i: int|
        0 <= i < properties.len() ==> (#[trigger] properties[i]).key != NULL
            && properties[i].value != NULL
}

/// An entry on record at the function template `templ` names a context and
/// the function that realises the template there.
pub open spec fn realization_wf(heap: Seq<ObjectView>, templ: int, entry: Realized) -> bool {
    &&& entry.context != NULL
    &&& entry.function < heap.len()
    &&& heap[entry.function as int] matches ObjectView::Function { template, context, .. }
    &&& template == templ
    &&& context == entry.context
}

/// The heap after the engine has made a context whose global object is shaped
/// by the template at `templ`: the global object, its proxy and the context,
/// in this order, behind what was there.
pub open spec fn with_context(heap: Seq<ObjectView>, templ: usize) -> Seq<ObjectView> {
    heap.push(instance_of(heap, templ)).push(
        ObjectView::Object {
            template: NULL,
            prototype: heap.len() as usize,
            properties: Seq::empty(),
            internal_fields: 0,
        },
    ).push(
        ObjectView::Context { global_proxy: (heap.len() + 1) as usize, code_generation: true },
    )
}

/// The function that a request for the function of the template at `templ`
/// in the context at `context` yields: none without a context, the one on
/// record where there is one, else a new one behind all that the heap holds.
pub open spec fn function_for(heap: Seq<ObjectView>, templ: usize, context: usize) -> usize {
    if context == NULL {
        NULL
    } else if realized_in(heap[templ as int].realized(), context) != NULL {
        realized_in(heap[templ as int].realized(), context)
    } else {
        heap.len() as usize
    }
}

/// The heap after that request: unchanged unless a new function was made,
/// which then stands behind all the rest and on the template's record. The
/// new function has one property for each key that was set on the template,
/// the one set last.
pub open spec fn after_get_function(heap: Seq<ObjectView>, templ: usize, context: usize) -> Seq<
    ObjectView,
> {
    if context == NULL || realized_in(heap[templ as int].realized(), context) != NULL {
        heap
    } else {
        heap.update(
            templ as int,
            heap[templ as int].with_realized(
                Realized { context, function: heap.len() as usize },
            ),
        ).push(
            ObjectView::Function {
                template: templ,
                context,
                properties: in_effect(heap[templ as int].properties()),
            },
        )
    }
}

/// The object that a request for an instance of the template at `templ`
/// yields: none without a context, else a new one behind all that the heap
/// holds.
pub open spec fn instance_for(heap: Seq<ObjectView>, context: usize) -> usize {
    if context == NULL {
        NULL
    } else {
        heap.len() as usize
    }
}

/// The heap after that request.
pub open spec fn after_new_instance(heap: Seq<ObjectView>, templ: usize, context: usize) -> Seq<
    ObjectView,
> {
    if context == NULL {
        heap
    } else {
        heap.push(instance_of(heap, templ))
    }
}

/// An object that points at nothing the heap lacks can stand behind a
/// consistent heap.
pub proof fn lemma_push_keeps_wf(heap: Seq<ObjectView>, object: ObjectView)
    requires
        heap_wf(heap),
        heap.len() < usize::MAX,
        object is Context ==> holds(heap, object.global_proxy(), Kind::Object),
        0 <= object.internal_fields() <= i32::MAX,
        properties_wf(object.properties()),
        object.is_instance() ==> distinct_keys(object.properties()),
        object.realized().len() == 0,
    ensures
        heap_wf(heap.push(object)),
{
    let next = heap.push(object);
    assert forall|a: int, i: int|
        0 <= a < next.len() && 0 <= i < next[a].realized().len() implies realization_wf(
        next,
        a,
        #[trigger] next[a].realized()[i],
    ) by {
        assert(a < heap.len());
        assert(realization_wf(heap, a, heap[a].realized()[i]));
    }
}

/// An object that a template shapes can stand behind a consistent heap.
pub proof fn lemma_instance_keeps_wf(heap: Seq<ObjectView>, templ: usize)
    requires
        heap_wf(heap),
        heap.len() < usize::MAX,
    ensures
        heap_wf(heap.push(instance_of(heap, templ))),
{
    if holds(heap, templ, Kind::ObjectTemplate) {
        assert(properties_wf(heap[templ as int].properties()));
        assert(0 <= heap[templ as int].internal_fields() <= i32::MAX);
        lemma_in_effect_wf(heap[templ as int].properties());
    }
    lemma_push_keeps_wf(heap, instance_of(heap, templ));
}

/// A context or a template may change in place, as long as it stays what it
/// is, keeps its record of realisations and its proxy, and reserves a count
/// of internal fields that the engine can hold.
pub proof fn lemma_update_keeps_wf(heap: Seq<ObjectView>, addr: int, object: ObjectView)
    requires
        heap_wf(heap),
        0 <= addr < heap.len(),
        object.kind() == heap[addr].kind(),
        !object.is_instance(),
        object.global_proxy() == heap[addr].global_proxy(),
        object.realized() == heap[addr].realized(),
        0 <= object.internal_fields() <= i32::MAX,
        properties_wf(object.properties()),
    ensures
        heap_wf(heap.update(addr, object)),
{
    let next = heap.update(addr, object);
    assert forall|a: int| 0 <= a < next.len() && next[a] is Context implies holds(
        next,
        #[trigger] next[a].global_proxy(),
        Kind::Object,
    ) by {
        assert(heap[a] is Context);
        assert(holds(heap, heap[a].global_proxy(), Kind::Object));
    }
    assert forall|a: int, i: int|
        0 <= a < next.len() && 0 <= i < next[a].realized().len() implies realization_wf(
        next,
        a,
        #[trigger] next[a].realized()[i],
    ) by {
        assert(realization_wf(heap, a, heap[a].realized()[i]));
    }
}

/// A request for a template's function leaves the heap consistent.
pub proof fn lemma_get_function_keeps_wf(heap: Seq<ObjectView>, templ: usize, context: usize)
    requires
        heap_wf(heap),
        holds(heap, templ, Kind::FunctionTemplate),
        heap.len() < usize::MAX,
    ensures
        heap_wf(after_get_function(heap, templ, context)),
{
    let next = after_get_function(heap, templ, context);
    if next != heap {
        let entry = Realized { context, function: heap.len() as usize };
        assert(properties_wf(heap[templ as int].properties()));
        lemma_in_effect_wf(heap[templ as int].properties());
        assert forall|a: int| 0 <= a < next.len() implies properties_wf(
            #[trigger] next[a].properties(),
        ) by {
            if a < heap.len() {
                assert(properties_wf(heap[a].properties()));
            }
        }
        assert forall|a: int| 0 <= a < next.len() && (#[trigger] next[a]).is_instance() implies distinct_keys(
            next[a].properties(),
        ) by {
            if a < heap.len() {
                assert(heap[a].is_instance());
            }
        }
        assert forall|a: int| 0 <= a < next.len() && next[a] is Context implies holds(
            next,
            #[trigger] next[a].global_proxy(),
            Kind::Object,
        ) by {
            assert(heap[a] is Context);
            assert(holds(heap, heap[a].global_proxy(), Kind::Object));
        }
        assert forall|a: int| 0 <= a < next.len() implies 0 <= #[trigger] next[a].internal_fields()
            <= i32::MAX by {
            if a < heap.len() {
                assert(0 <= heap[a].internal_fields() <= i32::MAX);
            }
        }
        assert forall|a: int, i: int|
            0 <= a < next.len() && 0 <= i < next[a].realized().len() implies realization_wf(
            next,
            a,
            #[trigger] next[a].realized()[i],
        ) by {
            if a == templ && i == heap[a].realized().len() {
                assert(next[a].realized()[i] == entry);
            } else {
                assert(next[a].realized()[i] == heap[a].realized()[i]);
                assert(realization_wf(heap, a, heap[a].realized()[i]));
            }
        }
    }
}

/// Putting an entry on record changes no answer that the record gave, and
/// answers for the entry's context where the record had none.
pub proof fn lemma_realized_in_push(entries: Seq<Realized>, entry: Realized, context: usize)
    requires
        forall|i: int| 0 <= i < entries.len() ==> (#[trigger] entries[i]).function != NULL,
    ensures
        realized_in(entries.push(entry), context) == (if realized_in(entries, context) != NULL {
            realized_in(entries, context)
        } else if entry.context == context {
            entry.function
        } else {
            NULL
        }),
    decreases entries.len(),
{
    let longer = entries.push(entry);
    if entries.len() == 0 {
        assert(longer.drop_first() =~= entries);
        assert(longer.first() == entry);
    } else {
        assert(longer.first() == entries.first());
        assert(longer.drop_first() =~= entries.drop_first().push(entry));
        assert(entries[0].function != NULL);
        if entries.first().context != context {
            assert forall|i: int| 0 <= i < entries.drop_first().len() implies (
            #[trigger] entries.drop_first()[i]).function != NULL by {
                assert(entries.drop_first()[i] == entries[i + 1]);
            }
            lemma_realized_in_push(entries.drop_first(), entry, context);
        }
    }
}

/// A request for a template's function takes nothing back that the heap held.
pub proof fn lemma_get_function_extends(heap: Seq<ObjectView>, templ: usize, context: usize)
    requires
        heap_wf(heap),
        holds(heap, templ, Kind::FunctionTemplate),
    ensures
        extends(after_get_function(heap, templ, context), heap),
{
    let next = after_get_function(heap, templ, context);
    if next != heap {
        let entry = Realized { context, function: heap.len() as usize };
        let record = heap[templ as int].realized();
        assert forall|i: int| 0 <= i < record.len() implies (#[trigger] record[i]).function
            != NULL by {
            assert(realization_wf(heap, templ as int, record[i]));
        }
        assert forall|a: int, c: usize|
            0 <= a < heap.len() && realized_in(heap[a].realized(), c) != NULL implies #[trigger] realized_in(
            next[a].realized(),
            c,
        ) == realized_in(heap[a].realized(), c) by {
            if a == templ {
                assert(next[a].realized() == record.push(entry));
                lemma_realized_in_push(record, entry, c);
            }
        }
    }
}

/// Where the record answers for a context, one of its entries names that
/// context and the function that is the answer.
pub proof fn lemma_realized_in_found(entries: Seq<Realized>, context: usize) -> (i: int)
    requires
        realized_in(entries, context) != NULL,
    ensures
        0 <= i < entries.len(),
        entries[i].context == context,
        entries[i].function == realized_in(entries, context),
    decreases entries.len(),
{
    if entries.first().context == context {
        0
    } else {
        let rest = lemma_realized_in_found(entries.drop_first(), context);
        assert(entries.drop_first()[rest] == entries[rest + 1]);
        rest + 1
    }
}

/// What a read finds is one of the entries, and stands under the key that
/// was asked for.
pub proof fn lemma_lookup_found(properties: Seq<Property>, key: usize) -> (i: int)
    requires
        lookup(properties, key) is Some,
    ensures
        0 <= i < properties.len(),
        lookup(properties, key) == Some(properties[i]),
        properties[i].key == key,
        forall|j: int| i < j < properties.len() ==> properties[j].key != key,
    decreases properties.len(),
{
    if properties.last().key == key {
        properties.len() - 1
    } else {
        let i = lemma_lookup_found(properties.drop_last(), key);
        assert(properties.drop_last()[i] == properties[i]);
        assert forall|j: int| i < j < properties.len() implies properties[j].key != key by {
            if j < properties.len() - 1 {
                assert(properties.drop_last()[j] == properties[j]);
            }
        }
        i
    }
}

/// What is left when a key is taken out is an entry of the list, and stands
/// under another key.
pub proof fn lemma_without_key_entry(properties: Seq<Property>, key: usize, i: int) -> (j: int)
    requires
        0 <= i < without_key(properties, key).len(),
    ensures
        0 <= j < properties.len(),
        properties[j] == without_key(properties, key)[i],
        properties[j].key != key,
    decreases properties.len(),
{
    let rest = properties.drop_last();
    if properties.last().key != key && i == without_key(rest, key).len() {
        properties.len() - 1
    } else {
        let j = lemma_without_key_entry(rest, key, i);
        assert(rest[j] == properties[j]);
        j
    }
}

/// Taking one key out changes what no other key reads.
pub proof fn lemma_without_key_lookup(properties: Seq<Property>, key: usize, other: usize)
    requires
        other != key,
    ensures
        lookup(without_key(properties, key), other) == lookup(properties, other),
    decreases properties.len(),
{
    if properties.len() > 0 {
        let rest = properties.drop_last();
        lemma_without_key_lookup(rest, key, other);
        if properties.last().key != key {
            let kept = without_key(rest, key).push(properties.last());
            assert(kept.drop_last() =~= without_key(rest, key));
        }
    }
}

/// Taking one key out of a list without repeated keys leaves such a list.
pub proof fn lemma_without_key_distinct(properties: Seq<Property>, key: usize)
    requires
        distinct_keys(properties),
    ensures
        distinct_keys(without_key(properties, key)),
    decreases properties.len(),
{
    if properties.len() > 0 {
        let rest = properties.drop_last();
        assert forall|i: int, j: int| 0 <= i < j < rest.len() implies (#[trigger] rest[i]).key != (
        #[trigger] rest[j]).key by {
            assert(rest[i] == properties[i] && rest[j] == properties[j]);
        }
        lemma_without_key_distinct(rest, key);
        if properties.last().key != key {
            let kept = without_key(rest, key).push(properties.last());
            assert forall|i: int, j: int| 0 <= i < j < kept.len() implies (#[trigger] kept[i]).key
                != (#[trigger] kept[j]).key by {
                if j < kept.len() - 1 {
                    assert(kept[i] == without_key(rest, key)[i]);
                    assert(kept[j] == without_key(rest, key)[j]);
                } else {
                    let k = lemma_without_key_entry(rest, key, i);
                    assert(rest[k] == properties[k]);
                    assert(properties[k].key != properties[properties.len() - 1].key);
                }
            }
        }
    }
}

/// A read finds among the entries in effect what it finds among all.
pub proof fn lemma_in_effect_lookup(properties: Seq<Property>, key: usize)
    ensures
        lookup(in_effect(properties), key) == lookup(properties, key),
    decreases properties.len(),
{
    if properties.len() > 0 {
        let rest = properties.drop_last();
        let last = properties.last();
        let kept = without_key(in_effect(rest), last.key);
        assert(kept.push(last).drop_last() =~= kept);
        if last.key != key {
            lemma_without_key_lookup(in_effect(rest), last.key, key);
            lemma_in_effect_lookup(rest, key);
        }
    }
}

/// No two entries in effect stand under one key.
pub proof fn lemma_in_effect_distinct(properties: Seq<Property>)
    ensures
        distinct_keys(in_effect(properties)),
    decreases properties.len(),
{
    if properties.len() > 0 {
        let rest = properties.drop_last();
        let last = properties.last();
        lemma_in_effect_distinct(rest);
        lemma_without_key_distinct(in_effect(rest), last.key);
        let kept = without_key(in_effect(rest), last.key);
        let all = kept.push(last);
        assert forall|i: int, j: int| 0 <= i < j < all.len() implies (#[trigger] all[i]).key != (
        #[trigger] all[j]).key by {
            if j < kept.len() {
                assert(all[i] == kept[i] && all[j] == kept[j]);
            } else {
                lemma_without_key_entry(in_effect(rest), last.key, i);
            }
        }
    }
}

/// Every entry in effect is one of the entries.
pub proof fn lemma_in_effect_entry(properties: Seq<Property>, i: int) -> (j: int)
    requires
        0 <= i < in_effect(properties).len(),
    ensures
        0 <= j < properties.len(),
        properties[j] == in_effect(properties)[i],
    decreases properties.len(),
{
    let rest = properties.drop_last();
    let last = properties.last();
    let kept = without_key(in_effect(rest), last.key);
    if i == kept.len() {
        properties.len() - 1
    } else {
        let k = lemma_without_key_entry(in_effect(rest), last.key, i);
        let j = lemma_in_effect_entry(rest, k);
        assert(rest[j] == properties[j]);
        j
    }
}

/// Where every entry names a key and a value, so does every entry in effect,
/// and no two of them stand under one key.
pub proof fn lemma_in_effect_wf(properties: Seq<Property>)
    requires
        properties_wf(properties),
    ensures
        properties_wf(in_effect(properties)),
        distinct_keys(in_effect(properties)),
{
    lemma_in_effect_distinct(properties);
    assert forall|i: int| 0 <= i < in_effect(properties).len() implies (#[trigger] in_effect(
        properties,
    )[i]).key != NULL && in_effect(properties)[i].value != NULL by {
        lemma_in_effect_entry(properties, i);
    }
}

} // verus!
