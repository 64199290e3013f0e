use scoped_handles::heap::Kind;
use scoped_handles::isolate::Isolate;
use scoped_handles::scope::{HandleScope, Local};
use scoped_handles::value::{
    Context, Data, Name, Object, ObjectTemplate, PropertyAttribute, Template,
};

#[test]
fn new_context_is_always_there() {
    let mut scope = HandleScope::new(Isolate::new());
    let context = Context::new(&mut scope);
    assert!(scope.is_live(&context));
    assert_eq!(scope.kind_of(&context), Kind::Context);
    // The global object, its proxy and the context.
    assert_eq!(scope.heap_size(), 4);
    assert_eq!(scope.raw_address(&context), Some(3));
}

#[test]
fn each_context_is_another_object() {
    let mut scope = HandleScope::new(Isolate::new());
    let first = Context::new(&mut scope);
    let second = Context::new(&mut scope);
    assert!(!first.same_object(&second));
    assert_eq!(scope.heap_size(), 7);
}

#[test]
fn new_context_from_template_is_always_there() {
    let mut scope = HandleScope::new(Isolate::new());
    let templ = ObjectTemplate::new(&mut scope);
    let context = Context::new_from_template(&mut scope, templ);
    assert!(scope.is_live(&context));
    assert_eq!(scope.kind_of(&context), Kind::Context);
    assert_eq!(scope.heap_size(), 5);
}

#[test]
fn global_object_is_shaped_by_the_template() {
    let mut scope = HandleScope::new(Isolate::new());
    let templ = ObjectTemplate::new(&mut scope);
    let key = Name::new(&mut scope);
    let value = Name::new(&mut scope);
    let base: Local<Template> = templ.cast();
    let payload: Local<Data> = value.cast();
    Template::set_with_attr(&base, &mut scope, key, payload, PropertyAttribute::read_only());
    assert!(ObjectTemplate::set_internal_field_count(&templ, &mut scope, 2));

    let context = Context::new_from_template(&mut scope, templ);
    let proxy = Context::global(&context, &mut scope);
    let global = Object::get_prototype(&proxy, &mut scope).expect("the global object");
    assert!(!global.same_object(&proxy));
    assert_eq!(scope.kind_of(&global), Kind::Object);
    let read = Object::get(&global, &mut scope, key).expect("the property");
    assert!(read.same_object(&value));
    assert_eq!(
        Object::get_property_attributes(&global, &scope, key),
        Some(PropertyAttribute::read_only())
    );
    assert_eq!(Object::internal_field_count(&global, &scope), 2);
    assert_eq!(Object::property_count(&global, &scope), 1);
    // The proxy itself carries nothing.
    assert_eq!(Object::property_count(&proxy, &scope), 0);
    assert!(Object::get(&proxy, &mut scope, key).is_none());
    assert_eq!(Object::internal_field_count(&proxy, &scope), 0);
}

#[test]
fn global_object_of_a_plain_context_is_bare() {
    let mut scope = HandleScope::new(Isolate::new());
    let key = Name::new(&mut scope);
    let context = Context::new(&mut scope);
    let proxy = Context::global(&context, &mut scope);
    let global = Object::get_prototype(&proxy, &mut scope).expect("the global object");
    assert!(Object::get(&global, &mut scope, key).is_none());
    assert_eq!(Object::internal_field_count(&global, &scope), 0);
    assert!(Object::get_prototype(&global, &mut scope).is_none());
}

#[test]
fn global_returns_the_same_proxy_each_time() {
    let mut scope = HandleScope::new(Isolate::new());
    let context = Context::new(&mut scope);
    let first = Context::global(&context, &mut scope);
    let size = scope.heap_size();
    let second = Context::global(&context, &mut scope);
    assert!(first.same_object(&second));
    assert_eq!(scope.kind_of(&first), Kind::Object);
    assert_eq!(scope.heap_size(), size);
    assert_eq!(scope.raw_address(&first), Some(2));
}

#[test]
fn global_proxy_is_stable_across_other_calls() {
    let mut scope = HandleScope::new(Isolate::new());
    let context = Context::new(&mut scope);
    let first = Context::global(&context, &mut scope);
    Context::allow_code_generation_from_strings(&context, &mut scope, false);
    let _other = Context::new(&mut scope);
    assert!(scope.enter());
    let second = Context::global(&context, &mut scope);
    assert!(first.same_object(&second));
}

#[test]
fn contexts_have_proxies_of_their_own() {
    let mut scope = HandleScope::new(Isolate::new());
    let first = Context::new(&mut scope);
    let second = Context::new(&mut scope);
    let first_proxy = Context::global(&first, &mut scope);
    let second_proxy = Context::global(&second, &mut scope);
    assert!(!first_proxy.same_object(&second_proxy));
}

#[test]
fn global_proxy_handle_belongs_to_the_scope_of_the_call() {
    let mut scope = HandleScope::new(Isolate::new());
    let context = Context::new(&mut scope);
    assert!(scope.enter());
    let proxy = Context::global(&context, &mut scope);
    assert!(scope.exit());
    assert!(!scope.is_live(&proxy));
    assert!(scope.is_live(&context));
}

#[test]
fn code_generation_is_allowed_by_default() {
    let mut scope = HandleScope::new(Isolate::new());
    let context = Context::new(&mut scope);
    assert!(Context::is_code_generation_from_strings_allowed(&context, &scope));
    let templ = ObjectTemplate::new(&mut scope);
    let shaped = Context::new_from_template(&mut scope, templ);
    assert!(Context::is_code_generation_from_strings_allowed(&shaped, &scope));
}

#[test]
fn code_generation_policy_reads_back() {
    let mut scope = HandleScope::new(Isolate::new());
    let context = Context::new(&mut scope);
    Context::allow_code_generation_from_strings(&context, &mut scope, false);
    assert!(!Context::is_code_generation_from_strings_allowed(&context, &scope));
    Context::allow_code_generation_from_strings(&context, &mut scope, false);
    assert!(!Context::is_code_generation_from_strings_allowed(&context, &scope));
    Context::allow_code_generation_from_strings(&context, &mut scope, true);
    assert!(Context::is_code_generation_from_strings_allowed(&context, &scope));
}

#[test]
fn code_generation_policy_is_per_context() {
    let mut scope = HandleScope::new(Isolate::new());
    let first = Context::new(&mut scope);
    let second = Context::new(&mut scope);
    Context::allow_code_generation_from_strings(&first, &mut scope, false);
    assert!(!Context::is_code_generation_from_strings_allowed(&first, &scope));
    assert!(Context::is_code_generation_from_strings_allowed(&second, &scope));
}

#[test]
fn policy_does_not_depend_on_entry() {
    let mut scope = HandleScope::new(Isolate::new());
    let context = Context::new(&mut scope);
    assert!(scope.enter_context(&context));
    Context::allow_code_generation_from_strings(&context, &mut scope, false);
    assert!(scope.exit());
    assert!(!Context::is_code_generation_from_strings_allowed(&context, &scope));
}

#[test]
fn global_object_has_one_property_for_a_key_set_twice() {
    let mut scope = HandleScope::new(Isolate::new());
    let templ = ObjectTemplate::new(&mut scope);
    let key = Name::new(&mut scope);
    let earlier = Name::new(&mut scope);
    let later = Name::new(&mut scope);
    let base: Local<Template> = templ.cast();
    let first: Local<Data> = earlier.cast();
    let second: Local<Data> = later.cast();
    Template::set_with_attr(&base, &mut scope, key, first, PropertyAttribute::read_only());
    Template::set_with_attr(&base, &mut scope, key, second, PropertyAttribute::none());
    let context = Context::new_from_template(&mut scope, templ);
    let proxy = Context::global(&context, &mut scope);
    let global = Object::get_prototype(&proxy, &mut scope).expect("the global object");
    assert_eq!(Object::property_count(&global, &scope), 1);
    assert!(Object::get(&global, &mut scope, key).unwrap().same_object(&later));
    assert_eq!(
        Object::get_property_attributes(&global, &scope, key),
        Some(PropertyAttribute::none())
    );
}
