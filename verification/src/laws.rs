//! What holds across calls: statements that relate one call to the next,
//! proved over the same functions in which the calls' contracts are written.
use vstd::prelude::*;
use crate::heap::{
    after_get_function, after_new_instance, distinct_keys, extends, function_for, heap_wf, holds,
    in_effect, instance_for, instance_of, lemma_in_effect_distinct, lemma_in_effect_lookup,
    lemma_lookup_found, lemma_realized_in_push, lookup, realization_wf, realized_in, with_context,
    Kind, ObjectView, NULL,
};
use crate::scope::{Handle, ScopeView};
use crate::value::{Property, Realized};

verus! {

/// Making a context always yields one: it stands last in the heap, it allows
/// code made from strings, and its global proxy is an object whose lookups
/// go on in the global object, which is shaped by the template.
pub proof fn lemma_new_context(heap: Seq<ObjectView>, templ: usize)
    requires
        heap_wf(heap),
        heap.len() + 2 <= usize::MAX,
    ensures
        ({
            let made = with_context(heap, templ);
            let context = (heap.len() + 2) as usize;
            let proxy = made[context as int].global_proxy();
            &&& holds(made, context, Kind::Context)
            &&& made[context as int].code_generation()
            &&& holds(made, proxy, Kind::Object)
            &&& made[proxy as int] matches ObjectView::Object { prototype, .. }
            &&& prototype == heap.len()
            &&& made[prototype as int] == instance_of(heap, templ)
        }),
{
}

/// A context keeps its global proxy: whatever is done after `before`, asking
/// the context again yields a handle to the same object.
pub proof fn lemma_global_proxy_is_stable(before: ScopeView, after: ScopeView, context: Handle)
    requires
        after.follows(before),
        holds(before.heap, context.address, Kind::Context),
    ensures
        holds(after.heap, context.address, Kind::Context),
        after.target(context).global_proxy() == before.target(context).global_proxy(),
        after.handle_for(after.target(context).global_proxy()).address == before.handle_for(
            before.target(context).global_proxy(),
        ).address,
{
    assert(after.heap[context.address as int].kind() == before.heap[context.address as int].kind());
}

/// The policy on code made from strings reads back as it was set, and
/// setting it changes no other object.
pub proof fn lemma_code_generation_reads_back(heap: Seq<ObjectView>, context: usize, allow: bool)
    requires
        holds(heap, context, Kind::Context),
    ensures
        ({
            let changed = heap.update(context as int, heap[context as int].with_code_generation(allow));
            &&& changed[context as int].code_generation() == allow
            &&& changed[context as int].global_proxy() == heap[context as int].global_proxy()
            &&& forall|a: int| 0 <= a < heap.len() && a != context ==> changed[a] == heap[a]
        }),
{
}

/// A read finds what was set last under its key, and setting one key
/// changes what no other key reads.
pub proof fn lemma_last_set_wins(properties: Seq<Property>, property: Property, key: usize)
    ensures
        lookup(properties.push(property), key) == (if key == property.key {
            Some(property)
        } else {
            lookup(properties, key)
        }),
{
    assert(properties.push(property).drop_last() =~= properties);
}

/// An object made from a template holds, for each key that was set on the
/// template, the entry that was set last under it, and no other entry.
pub proof fn lemma_instance_holds_what_was_set_last(properties: Seq<Property>, entry: Property)
    ensures
        in_effect(properties).contains(entry) <==> lookup(properties, entry.key) == Some(entry),
        distinct_keys(in_effect(properties)),
{
    let kept = in_effect(properties);
    lemma_in_effect_lookup(properties, entry.key);
    lemma_in_effect_distinct(properties);
    if kept.contains(entry) {
        let i = choose|i: int| 0 <= i < kept.len() && kept[i] == entry;
        assert(lookup(kept, entry.key) is Some) by {
            lemma_lookup_some(kept, i);
        }
        let j = lemma_lookup_found(kept, entry.key);
        if i < j {
            assert(kept[i].key != kept[j].key);
        }
    }
    if lookup(properties, entry.key) == Some(entry) {
        let j = lemma_lookup_found(kept, entry.key);
        assert(kept[j] == entry);
    }
}

/// A key under which an entry stands reads something.
pub proof fn lemma_lookup_some(properties: Seq<Property>, i: int)
    requires
        0 <= i < properties.len(),
    ensures
        lookup(properties, properties[i].key) is Some,
    decreases properties.len(),
{
    if properties.last().key != properties[i].key {
        assert(properties.drop_last()[i] == properties[i]);
        lemma_lookup_some(properties.drop_last(), i);
    }
}

/// A property set on an object template reads back, with its value and its
/// attributes, from every object made of the template afterwards, and is the
/// one property that the object has under its key.
pub proof fn lemma_set_then_instantiate(
    heap: Seq<ObjectView>,
    templ: usize,
    property: Property,
    context: usize,
)
    requires
        holds(heap, templ, Kind::ObjectTemplate),
        context != NULL,
        heap.len() < usize::MAX,
    ensures
        ({
            let set = heap.update(templ as int, heap[templ as int].with_property(property));
            let made = after_new_instance(set, templ, context);
            let instance = instance_for(set, context);
            &&& holds(made, instance, Kind::Object)
            &&& lookup(made[instance as int].properties(), property.key) == Some(property)
            &&& one_under_key(made[instance as int].properties(), property)
        }),
{
    let all = heap[templ as int].properties().push(property);
    lemma_last_set_wins(heap[templ as int].properties(), property, property.key);
    lemma_one_under_key(all, property);
}

/// Whether `entry` is the one entry of `properties` under its key.
pub open spec fn one_under_key(properties: Seq<Property>, entry: Property) -> bool {
    &&& properties.contains(entry)
    &&& forall|i: int|
        0 <= i < properties.len() && (#[trigger] properties[i]).key == entry.key ==> properties[i]
            == entry
    &&& distinct_keys(properties)
}

/// Of the entries in effect, the one that a key reads is the only one under
/// that key.
pub proof fn lemma_one_under_key(properties: Seq<Property>, entry: Property)
    requires
        lookup(properties, entry.key) == Some(entry),
    ensures
        one_under_key(in_effect(properties), entry),
{
    let kept = in_effect(properties);
    lemma_instance_holds_what_was_set_last(properties, entry);
    assert forall|i: int| 0 <= i < kept.len() && (#[trigger] kept[i]).key == entry.key implies kept[i]
        == entry by {
        lemma_instance_holds_what_was_set_last(properties, kept[i]);
        assert(kept.contains(kept[i]));
    }
}

/// Where one key is set twice on an object template, an object made of it
/// afterwards reads the later value with the later attributes, and has that
/// one property under the key: nothing of the earlier entry is left.
pub proof fn lemma_set_twice_then_instantiate(
    heap: Seq<ObjectView>,
    templ: usize,
    earlier: Property,
    later: Property,
    context: usize,
)
    requires
        holds(heap, templ, Kind::ObjectTemplate),
        earlier.key == later.key,
        context != NULL,
        heap.len() < usize::MAX,
    ensures
        ({
            let once = heap.update(templ as int, heap[templ as int].with_property(earlier));
            let twice = once.update(templ as int, once[templ as int].with_property(later));
            let made = after_new_instance(twice, templ, context);
            let instance = instance_for(twice, context);
            &&& lookup(made[instance as int].properties(), later.key) == Some(later)
            &&& one_under_key(made[instance as int].properties(), later)
            &&& earlier != later ==> !made[instance as int].properties().contains(earlier)
        }),
{
    let all = heap[templ as int].properties().push(earlier).push(later);
    lemma_last_set_wins(heap[templ as int].properties().push(earlier), later, later.key);
    lemma_one_under_key(all, later);
    let kept = in_effect(all);
    if kept.contains(earlier) {
        let i = choose|i: int| 0 <= i < kept.len() && kept[i] == earlier;
        assert(kept[i].key == later.key);
    }
}

/// A property set on a function template reads back from the function that
/// the template is realised as afterwards.
pub proof fn lemma_set_then_get_function(
    heap: Seq<ObjectView>,
    templ: usize,
    property: Property,
    context: usize,
)
    requires
        holds(heap, templ, Kind::FunctionTemplate),
        context != NULL,
        heap.len() < usize::MAX,
        realized_in(heap[templ as int].realized(), context) == NULL,
    ensures
        ({
            let set = heap.update(templ as int, heap[templ as int].with_property(property));
            let made = after_get_function(set, templ, context);
            let function = function_for(set, templ, context);
            &&& holds(made, function, Kind::Function)
            &&& lookup(made[function as int].properties(), property.key) == Some(property)
            &&& one_under_key(made[function as int].properties(), property)
        }),
{
    let all = heap[templ as int].properties().push(property);
    lemma_last_set_wins(heap[templ as int].properties(), property, property.key);
    lemma_one_under_key(all, property);
}

/// The count of internal fields reads back as it was set, every object made
/// of the template afterwards has that many, and setting it changes no
/// property.
pub proof fn lemma_internal_field_count_reads_back(
    heap: Seq<ObjectView>,
    templ: usize,
    count: int,
)
    requires
        holds(heap, templ, Kind::ObjectTemplate),
    ensures
        ({
            let set = heap.update(templ as int, heap[templ as int].with_internal_fields(count));
            &&& set[templ as int].internal_fields() == count
            &&& set[templ as int].properties() == heap[templ as int].properties()
            &&& instance_of(set, templ).internal_fields() == count
        }),
{
}

/// Asked twice in one context, a function template yields the same function,
/// and the second request changes nothing. It yields that function in every
/// later state as well.
pub proof fn lemma_get_function_is_stable(
    heap: Seq<ObjectView>,
    templ: usize,
    context: usize,
    later: Seq<ObjectView>,
)
    requires
        heap_wf(heap),
        holds(heap, templ, Kind::FunctionTemplate),
        context != NULL,
        extends(later, after_get_function(heap, templ, context)),
    ensures
        function_for(heap, templ, context) != NULL,
        function_for(after_get_function(heap, templ, context), templ, context) == function_for(
            heap,
            templ,
            context,
        ),
        after_get_function(after_get_function(heap, templ, context), templ, context)
            == after_get_function(heap, templ, context),
        function_for(later, templ, context) == function_for(heap, templ, context),
        after_get_function(later, templ, context) == later,
{
    let record = heap[templ as int].realized();
    let first = after_get_function(heap, templ, context);
    if realized_in(record, context) == NULL {
        let entry = Realized { context, function: heap.len() as usize };
        assert forall|i: int| 0 <= i < record.len() implies (#[trigger] record[i]).function
            != NULL by {
            assert(realization_wf(heap, templ as int, record[i]));
        }
        lemma_realized_in_push(record, entry, context);
        assert(first[templ as int].realized() == record.push(entry));
    }
    assert(realized_in(first[templ as int].realized(), context) != NULL);
    assert(realized_in(later[templ as int].realized(), context) == realized_in(
        first[templ as int].realized(),
        context,
    ));
}

/// Without a current context neither a function nor an instance is made, and
/// the heap stays as it is.
pub proof fn lemma_nothing_without_context(heap: Seq<ObjectView>, templ: usize)
    ensures
        function_for(heap, templ, NULL) == NULL,
        after_get_function(heap, templ, NULL) == heap,
        instance_for(heap, NULL) == NULL,
        after_new_instance(heap, templ, NULL) == heap,
{
}

/// With a current context an object template yields a new object at each
/// request: one that the heap did not hold, with the internal fields of the
/// template and with its properties, one for each key, which read as the
/// template's do, while all that the heap held stays.
pub proof fn lemma_new_instance_is_fresh(heap: Seq<ObjectView>, templ: usize, context: usize)
    requires
        holds(heap, templ, Kind::ObjectTemplate),
        context != NULL,
        heap.len() < usize::MAX,
    ensures
        ({
            let made = after_new_instance(heap, templ, context);
            let instance = instance_for(heap, context);
            let again = instance_for(made, context);
            &&& instance == heap.len()
            &&& again != instance
            &&& holds(made, instance, Kind::Object)
            &&& made[instance as int].properties() == in_effect(heap[templ as int].properties())
            &&& distinct_keys(made[instance as int].properties())
            &&& forall|key: usize| #[trigger]
                lookup(made[instance as int].properties(), key) == lookup(
                    heap[templ as int].properties(),
                    key,
                )
            &&& made[instance as int].internal_fields() == heap[templ as int].internal_fields()
            &&& forall|a: int| 0 <= a < heap.len() ==> made[a] == heap[a]
        }),
{
    lemma_in_effect_distinct(heap[templ as int].properties());
    assert forall|key: usize| #[trigger]
        lookup(in_effect(heap[templ as int].properties()), key) == lookup(
            heap[templ as int].properties(),
            key,
        ) by {
        lemma_in_effect_lookup(heap[templ as int].properties(), key);
    }
}

} // verus!
