use scoped_handles::heap::Kind;
use scoped_handles::isolate::Isolate;
use scoped_handles::scope::{HandleScope, Local};
use scoped_handles::template::FunctionBuilder;
use scoped_handles::value::{
    ConstructorBehavior, Context, Data, FunctionCallback, FunctionConfig, FunctionTemplate, Name,
    Object, ObjectTemplate, PropertyAttribute, SideEffectType, Signature, Template, Value,
};

fn scope_with_context() -> (HandleScope, Local<Context>) {
    let mut scope = HandleScope::new(Isolate::new());
    let context = Context::new(&mut scope);
    assert!(scope.enter_context(&context));
    (scope, context)
}

#[test]
fn property_attribute_constructors() {
    let none = PropertyAttribute::none();
    assert!(!none.read_only && !none.dont_enum && !none.dont_delete);
    let read_only = PropertyAttribute::read_only();
    assert!(read_only.read_only && !read_only.dont_enum && !read_only.dont_delete);
    let dont_enum = PropertyAttribute::dont_enum();
    assert!(!dont_enum.read_only && dont_enum.dont_enum && !dont_enum.dont_delete);
    let dont_delete = PropertyAttribute::dont_delete();
    assert!(!dont_delete.read_only && !dont_delete.dont_enum && dont_delete.dont_delete);
    let both = read_only.with(dont_delete);
    assert!(both.read_only && !both.dont_enum && both.dont_delete);
    assert_eq!(none.with(dont_enum), dont_enum);
}

#[test]
fn set_property_reads_back_from_an_instance() {
    let (mut scope, _context) = scope_with_context();
    let templ = ObjectTemplate::new(&mut scope);
    let key = Name::new(&mut scope);
    let value = Name::new(&mut scope);
    let base: Local<Template> = templ.cast();
    Template::set(&base, &mut scope, key, value.cast());
    let instance = ObjectTemplate::new_instance(&templ, &mut scope).expect("an instance");
    let read = Object::get(&instance, &mut scope, key).expect("the property");
    assert!(read.same_object(&value));
    assert!(scope.is_live(&read));
    assert_eq!(
        Object::get_property_attributes(&instance, &scope, key),
        Some(PropertyAttribute::none())
    );
}

#[test]
fn set_is_set_with_attr_without_attributes() {
    let (mut scope, _context) = scope_with_context();
    let plain = ObjectTemplate::new(&mut scope);
    let explicit = ObjectTemplate::new(&mut scope);
    let key = Name::new(&mut scope);
    let value: Local<Data> = Name::new(&mut scope).cast();
    Template::set(&plain.cast(), &mut scope, key, value);
    Template::set_with_attr(&explicit.cast(), &mut scope, key, value, PropertyAttribute::none());
    let first = ObjectTemplate::new_instance(&plain, &mut scope).unwrap();
    let second = ObjectTemplate::new_instance(&explicit, &mut scope).unwrap();
    assert_eq!(
        Object::get_property_attributes(&first, &scope, key),
        Object::get_property_attributes(&second, &scope, key)
    );
    let a = Object::get(&first, &mut scope, key).unwrap();
    let b = Object::get(&second, &mut scope, key).unwrap();
    assert!(a.same_object(&b));
}

#[test]
fn set_with_attr_keeps_the_attributes() {
    let (mut scope, _context) = scope_with_context();
    let templ = ObjectTemplate::new(&mut scope);
    let key = Name::new(&mut scope);
    let value: Local<Data> = Name::new(&mut scope).cast();
    let attr = PropertyAttribute::read_only().with(PropertyAttribute::dont_enum());
    Template::set_with_attr(&templ.cast(), &mut scope, key, value, attr);
    let instance = ObjectTemplate::new_instance(&templ, &mut scope).unwrap();
    assert_eq!(Object::get_property_attributes(&instance, &scope, key), Some(attr));
}

#[test]
fn the_later_of_two_sets_wins() {
    let (mut scope, _context) = scope_with_context();
    let templ = ObjectTemplate::new(&mut scope);
    let key = Name::new(&mut scope);
    let earlier = Name::new(&mut scope);
    let later = Name::new(&mut scope);
    let base: Local<Template> = templ.cast();
    Template::set_with_attr(&base, &mut scope, key, earlier.cast(), PropertyAttribute::read_only());
    Template::set_with_attr(&base, &mut scope, key, later.cast(), PropertyAttribute::dont_delete());
    let instance = ObjectTemplate::new_instance(&templ, &mut scope).unwrap();
    let read = Object::get(&instance, &mut scope, key).unwrap();
    assert!(read.same_object(&later));
    assert!(!read.same_object(&earlier));
    assert_eq!(
        Object::get_property_attributes(&instance, &scope, key),
        Some(PropertyAttribute::dont_delete())
    );
    // One property under the key is left, not two.
    assert_eq!(Object::property_count(&instance, &scope), 1);
}

#[test]
fn read_only_then_none_leaves_one_property_without_attributes() {
    let (mut scope, _context) = scope_with_context();
    let templ = ObjectTemplate::new(&mut scope);
    let key = Name::new(&mut scope);
    let earlier = Name::new(&mut scope);
    let later = Name::new(&mut scope);
    let base: Local<Template> = templ.cast();
    Template::set_with_attr(&base, &mut scope, key, earlier.cast(), PropertyAttribute::read_only());
    Template::set_with_attr(&base, &mut scope, key, later.cast(), PropertyAttribute::none());
    let instance = ObjectTemplate::new_instance(&templ, &mut scope).expect("an instance");
    assert!(Object::get(&instance, &mut scope, key).unwrap().same_object(&later));
    assert_eq!(
        Object::get_property_attributes(&instance, &scope, key),
        Some(PropertyAttribute::none())
    );
    assert_eq!(Object::property_count(&instance, &scope), 1);
}

#[test]
fn an_instance_has_one_property_for_each_key() {
    let (mut scope, _context) = scope_with_context();
    let templ = ObjectTemplate::new(&mut scope);
    let first_key = Name::new(&mut scope);
    let second_key = Name::new(&mut scope);
    let third_key = Name::new(&mut scope);
    let a = Name::new(&mut scope);
    let b = Name::new(&mut scope);
    let c = Name::new(&mut scope);
    let base: Local<Template> = templ.cast();
    let bare = ObjectTemplate::new_instance(&templ, &mut scope).unwrap();
    assert_eq!(Object::property_count(&bare, &scope), 0);
    // first, second, first again, third, second again, first a third time
    Template::set(&base, &mut scope, first_key, a.cast());
    Template::set_with_attr(&base, &mut scope, second_key, a.cast(), PropertyAttribute::dont_enum());
    Template::set_with_attr(&base, &mut scope, first_key, b.cast(), PropertyAttribute::read_only());
    Template::set(&base, &mut scope, third_key, c.cast());
    Template::set(&base, &mut scope, second_key, b.cast());
    Template::set_with_attr(&base, &mut scope, first_key, c.cast(), PropertyAttribute::dont_delete());
    let instance = ObjectTemplate::new_instance(&templ, &mut scope).unwrap();
    assert_eq!(Object::property_count(&instance, &scope), 3);
    assert!(Object::get(&instance, &mut scope, first_key).unwrap().same_object(&c));
    assert!(Object::get(&instance, &mut scope, second_key).unwrap().same_object(&b));
    assert!(Object::get(&instance, &mut scope, third_key).unwrap().same_object(&c));
    assert_eq!(
        Object::get_property_attributes(&instance, &scope, first_key),
        Some(PropertyAttribute::dont_delete())
    );
    assert_eq!(
        Object::get_property_attributes(&instance, &scope, second_key),
        Some(PropertyAttribute::none())
    );
    assert_eq!(
        Object::get_property_attributes(&instance, &scope, third_key),
        Some(PropertyAttribute::none())
    );
    assert_eq!(Object::property_count(&bare, &scope), 0);
}

#[test]
fn a_function_has_one_property_for_a_key_set_twice() {
    let (mut scope, _context) = scope_with_context();
    let templ = FunctionTemplate::new(&mut scope, FunctionCallback { id: 1 });
    let key = Name::new(&mut scope);
    let earlier = Name::new(&mut scope);
    let later = Name::new(&mut scope);
    let base: Local<Template> = templ.cast();
    Template::set_with_attr(&base, &mut scope, key, earlier.cast(), PropertyAttribute::read_only());
    Template::set_with_attr(&base, &mut scope, key, later.cast(), PropertyAttribute::dont_enum());
    let function = FunctionTemplate::get_function(&templ, &mut scope).expect("a function");
    let as_object: Local<Object> = function.cast();
    assert_eq!(Object::property_count(&as_object, &scope), 1);
    assert!(Object::get(&as_object, &mut scope, key).unwrap().same_object(&later));
    assert_eq!(
        Object::get_property_attributes(&as_object, &scope, key),
        Some(PropertyAttribute::dont_enum())
    );
}

#[test]
fn keys_do_not_disturb_each_other() {
    let (mut scope, _context) = scope_with_context();
    let templ = ObjectTemplate::new(&mut scope);
    let first_key = Name::new(&mut scope);
    let second_key = Name::new(&mut scope);
    let unset_key = Name::new(&mut scope);
    let first = Name::new(&mut scope);
    let second = Name::new(&mut scope);
    let base: Local<Template> = templ.cast();
    Template::set(&base, &mut scope, first_key, first.cast());
    Template::set(&base, &mut scope, second_key, second.cast());
    let instance = ObjectTemplate::new_instance(&templ, &mut scope).unwrap();
    assert!(Object::get(&instance, &mut scope, first_key).unwrap().same_object(&first));
    assert!(Object::get(&instance, &mut scope, second_key).unwrap().same_object(&second));
    assert!(Object::get(&instance, &mut scope, unset_key).is_none());
    assert_eq!(Object::get_property_attributes(&instance, &scope, unset_key), None);
}

#[test]
fn an_instance_keeps_the_shape_it_was_made_with() {
    let (mut scope, _context) = scope_with_context();
    let templ = ObjectTemplate::new(&mut scope);
    let key = Name::new(&mut scope);
    let value: Local<Data> = Name::new(&mut scope).cast();
    let before = ObjectTemplate::new_instance(&templ, &mut scope).unwrap();
    Template::set(&templ.cast(), &mut scope, key, value);
    let after = ObjectTemplate::new_instance(&templ, &mut scope).unwrap();
    assert!(Object::get(&before, &mut scope, key).is_none());
    assert!(Object::get(&after, &mut scope, key).is_some());
}

#[test]
fn a_template_can_be_the_value_of_a_property() {
    let (mut scope, _context) = scope_with_context();
    let templ = ObjectTemplate::new(&mut scope);
    let method = FunctionTemplate::new(&mut scope, FunctionCallback { id: 1 });
    let key = Name::new(&mut scope);
    Template::set(&templ.cast(), &mut scope, key, method.cast());
    let instance = ObjectTemplate::new_instance(&templ, &mut scope).unwrap();
    let read = Object::get(&instance, &mut scope, key).unwrap();
    assert!(read.same_object(&method));
}

#[test]
fn set_on_a_function_template_shows_on_its_function() {
    let (mut scope, _context) = scope_with_context();
    let templ = FunctionTemplate::new(&mut scope, FunctionCallback { id: 1 });
    let key = Name::new(&mut scope);
    let value = Name::new(&mut scope);
    Template::set_with_attr(
        &templ.cast(),
        &mut scope,
        key,
        value.cast(),
        PropertyAttribute::dont_enum(),
    );
    let function = FunctionTemplate::get_function(&templ, &mut scope).expect("a function");
    let as_object: Local<Object> = function.cast();
    let read = Object::get(&as_object, &mut scope, key).expect("the property");
    assert!(read.same_object(&value));
    assert_eq!(
        Object::get_property_attributes(&as_object, &scope, key),
        Some(PropertyAttribute::dont_enum())
    );
}

#[test]
fn builder_starts_from_the_defaults() {
    let builder = FunctionTemplate::builder(FunctionCallback { id: 9 });
    assert_eq!(builder.callback, FunctionCallback { id: 9 });
    assert!(builder.data.is_none());
    assert!(builder.signature.is_none());
    assert_eq!(builder.length, 0);
    assert_eq!(builder.constructor_behavior, ConstructorBehavior::Allow);
    assert_eq!(builder.side_effect_type, SideEffectType::HasSideEffect);
    assert_eq!(
        builder.into_config(),
        FunctionConfig {
            callback: FunctionCallback { id: 9 },
            data: 0,
            signature: 0,
            length: 0,
            constructor_behavior: ConstructorBehavior::Allow,
            side_effect_type: SideEffectType::HasSideEffect,
        }
    );
}

#[test]
fn function_builder_new_is_the_same_builder() {
    let direct = FunctionBuilder::new(FunctionCallback { id: 4 });
    let through = FunctionTemplate::builder(FunctionCallback { id: 4 });
    assert_eq!(direct.into_config(), through.into_config());
}

#[test]
fn signature_is_staged_and_the_rest_stays() {
    let mut scope = HandleScope::new(Isolate::new());
    let receiver = FunctionTemplate::new(&mut scope, FunctionCallback { id: 1 });
    let signature = Signature::new(&mut scope, receiver);
    assert_eq!(scope.kind_of(&signature), Kind::Signature);
    let builder = FunctionTemplate::builder(FunctionCallback { id: 2 }).signature(signature);
    assert!(builder.signature.expect("a signature").same_object(&signature));
    assert!(builder.data.is_none());
    assert_eq!(builder.callback, FunctionCallback { id: 2 });
    assert_eq!(builder.length, 0);
    let config = builder.into_config();
    assert_eq!(Some(config.signature), scope.raw_address(&signature));
    assert_eq!(config.data, 0);
}

#[test]
fn builder_setters_chain() {
    let mut scope = HandleScope::new(Isolate::new());
    let receiver = FunctionTemplate::new(&mut scope, FunctionCallback { id: 1 });
    let signature = Signature::new(&mut scope, receiver);
    let data: Local<Value> = Name::new(&mut scope).cast();
    let builder = FunctionTemplate::builder(FunctionCallback { id: 3 })
        .data(data)
        .signature(signature)
        .length(2)
        .constructor_behavior(ConstructorBehavior::Throw)
        .side_effect_type(SideEffectType::HasNoSideEffect);
    let config = builder.into_config();
    assert_eq!(
        config,
        FunctionConfig {
            callback: FunctionCallback { id: 3 },
            data: scope.raw_address(&data).unwrap(),
            signature: scope.raw_address(&signature).unwrap(),
            length: 2,
            constructor_behavior: ConstructorBehavior::Throw,
            side_effect_type: SideEffectType::HasNoSideEffect,
        }
    );
}

#[test]
fn build_makes_one_function_template() {
    let mut scope = HandleScope::new(Isolate::new());
    let receiver = FunctionTemplate::new(&mut scope, FunctionCallback { id: 1 });
    let signature = Signature::new(&mut scope, receiver);
    let size = scope.heap_size();
    let templ =
        FunctionTemplate::builder(FunctionCallback { id: 2 }).signature(signature).build(&mut scope);
    assert_eq!(scope.heap_size(), size + 1);
    assert!(scope.is_live(&templ));
    assert_eq!(scope.kind_of(&templ), Kind::FunctionTemplate);
    assert_eq!(scope.raw_address(&templ), Some(size));
    assert!(!templ.same_object(&receiver));
}

#[test]
fn function_template_new_builds_with_defaults() {
    let mut scope = HandleScope::new(Isolate::new());
    let templ = FunctionTemplate::new(&mut scope, FunctionCallback { id: 5 });
    assert!(scope.is_live(&templ));
    assert_eq!(scope.kind_of(&templ), Kind::FunctionTemplate);
    assert_eq!(scope.heap_size(), 2);
}

#[test]
fn get_function_without_context_is_absent() {
    let mut scope = HandleScope::new(Isolate::new());
    let templ = FunctionTemplate::new(&mut scope, FunctionCallback { id: 1 });
    let size = scope.heap_size();
    assert!(FunctionTemplate::get_function(&templ, &mut scope).is_none());
    assert_eq!(scope.heap_size(), size);
}

#[test]
fn get_function_returns_the_same_function_each_time() {
    let (mut scope, _context) = scope_with_context();
    let templ = FunctionTemplate::new(&mut scope, FunctionCallback { id: 1 });
    let first = FunctionTemplate::get_function(&templ, &mut scope).expect("a function");
    assert_eq!(scope.kind_of(&first), Kind::Function);
    let size = scope.heap_size();
    let second = FunctionTemplate::get_function(&templ, &mut scope).expect("a function");
    assert!(first.same_object(&second));
    assert_eq!(scope.heap_size(), size);
    // In a scope of its own too, as long as the context is the same.
    assert!(scope.enter());
    let third = FunctionTemplate::get_function(&templ, &mut scope).expect("a function");
    assert!(first.same_object(&third));
}

#[test]
fn get_function_is_per_context() {
    let mut scope = HandleScope::new(Isolate::new());
    let first_context = Context::new(&mut scope);
    let second_context = Context::new(&mut scope);
    let templ = FunctionTemplate::new(&mut scope, FunctionCallback { id: 1 });
    assert!(scope.enter_context(&first_context));
    let in_first = FunctionTemplate::get_function(&templ, &mut scope).unwrap();
    let in_first = scope.escape(&in_first).unwrap();
    assert!(scope.exit());
    assert!(scope.enter_context(&second_context));
    let in_second = FunctionTemplate::get_function(&templ, &mut scope).unwrap();
    let in_second = scope.escape(&in_second).unwrap();
    assert!(scope.exit());
    assert!(!in_first.same_object(&in_second));
    assert!(scope.enter_context(&first_context));
    let again = FunctionTemplate::get_function(&templ, &mut scope).unwrap();
    assert!(again.same_object(&in_first));
}

#[test]
fn get_function_is_per_template() {
    let (mut scope, _context) = scope_with_context();
    let first = FunctionTemplate::new(&mut scope, FunctionCallback { id: 1 });
    let second = FunctionTemplate::new(&mut scope, FunctionCallback { id: 1 });
    let of_first = FunctionTemplate::get_function(&first, &mut scope).unwrap();
    let of_second = FunctionTemplate::get_function(&second, &mut scope).unwrap();
    assert!(!of_first.same_object(&of_second));
    let again = FunctionTemplate::get_function(&first, &mut scope).unwrap();
    assert!(again.same_object(&of_first));
}

#[test]
fn set_class_name_changes_nothing_else() {
    let (mut scope, _context) = scope_with_context();
    let templ = FunctionTemplate::new(&mut scope, FunctionCallback { id: 1 });
    let function = FunctionTemplate::get_function(&templ, &mut scope).unwrap();
    let name = Name::new(&mut scope);
    let size = scope.heap_size();
    FunctionTemplate::set_class_name(&templ, &mut scope, name);
    assert_eq!(scope.heap_size(), size);
    assert_eq!(scope.kind_of(&templ), Kind::FunctionTemplate);
    let again = FunctionTemplate::get_function(&templ, &mut scope).unwrap();
    assert!(again.same_object(&function));
}

#[test]
fn object_template_new_is_always_there() {
    let mut scope = HandleScope::new(Isolate::new());
    let templ = ObjectTemplate::new(&mut scope);
    assert!(scope.is_live(&templ));
    assert_eq!(scope.kind_of(&templ), Kind::ObjectTemplate);
    assert_eq!(scope.heap_size(), 2);
    assert_eq!(ObjectTemplate::internal_field_count(&templ, &scope), 0);
}

#[test]
fn object_template_from_function_template() {
    let (mut scope, _context) = scope_with_context();
    let constructor = FunctionTemplate::new(&mut scope, FunctionCallback { id: 1 });
    let templ = ObjectTemplate::new_from_template(&mut scope, constructor);
    assert!(scope.is_live(&templ));
    assert_eq!(scope.kind_of(&templ), Kind::ObjectTemplate);
    assert!(!templ.same_object(&constructor));
    assert_eq!(ObjectTemplate::internal_field_count(&templ, &scope), 0);
    let instance = ObjectTemplate::new_instance(&templ, &mut scope).expect("an instance");
    assert_eq!(scope.kind_of(&instance), Kind::Object);
}

#[test]
fn new_instance_without_context_is_absent() {
    let mut scope = HandleScope::new(Isolate::new());
    let templ = ObjectTemplate::new(&mut scope);
    let size = scope.heap_size();
    assert!(ObjectTemplate::new_instance(&templ, &mut scope).is_none());
    assert_eq!(scope.heap_size(), size);
}

#[test]
fn new_instance_is_a_new_object_each_time() {
    let (mut scope, _context) = scope_with_context();
    let templ = ObjectTemplate::new(&mut scope);
    let size = scope.heap_size();
    let first = ObjectTemplate::new_instance(&templ, &mut scope).expect("an instance");
    let second = ObjectTemplate::new_instance(&templ, &mut scope).expect("an instance");
    assert!(!first.same_object(&second));
    assert_eq!(scope.kind_of(&first), Kind::Object);
    assert_eq!(scope.kind_of(&second), Kind::Object);
    assert_eq!(scope.heap_size(), size + 2);
    assert_eq!(scope.raw_address(&first), Some(size));
    assert_eq!(scope.raw_address(&second), Some(size + 1));
    assert!(Object::get_prototype(&first, &mut scope).is_none());
}

#[test]
fn internal_field_count_reads_back() {
    let mut scope = HandleScope::new(Isolate::new());
    let templ = ObjectTemplate::new(&mut scope);
    assert!(ObjectTemplate::set_internal_field_count(&templ, &mut scope, 3));
    assert_eq!(ObjectTemplate::internal_field_count(&templ, &scope), 3);
    assert!(ObjectTemplate::set_internal_field_count(&templ, &mut scope, 0));
    assert_eq!(ObjectTemplate::internal_field_count(&templ, &scope), 0);
}

#[test]
fn internal_field_count_at_the_limit() {
    let mut scope = HandleScope::new(Isolate::new());
    let templ = ObjectTemplate::new(&mut scope);
    let limit: usize = 2147483647;
    assert!(ObjectTemplate::set_internal_field_count(&templ, &mut scope, limit));
    assert_eq!(ObjectTemplate::internal_field_count(&templ, &scope), limit);
}

#[test]
fn internal_field_count_above_the_limit_is_refused() {
    let mut scope = HandleScope::new(Isolate::new());
    let templ = ObjectTemplate::new(&mut scope);
    assert!(ObjectTemplate::set_internal_field_count(&templ, &mut scope, 5));
    let too_many: usize = 2147483648;
    assert!(!ObjectTemplate::set_internal_field_count(&templ, &mut scope, too_many));
    assert_eq!(ObjectTemplate::internal_field_count(&templ, &scope), 5);
    assert!(!ObjectTemplate::set_internal_field_count(&templ, &mut scope, usize::MAX));
    assert_eq!(ObjectTemplate::internal_field_count(&templ, &scope), 5);
}

#[test]
fn instances_get_the_internal_fields_of_the_template() {
    let (mut scope, _context) = scope_with_context();
    let templ = ObjectTemplate::new(&mut scope);
    assert!(ObjectTemplate::set_internal_field_count(&templ, &mut scope, 4));
    let instance = ObjectTemplate::new_instance(&templ, &mut scope).unwrap();
    assert_eq!(Object::internal_field_count(&instance, &scope), 4);
    // A later change is for later instances.
    assert!(ObjectTemplate::set_internal_field_count(&templ, &mut scope, 1));
    assert_eq!(Object::internal_field_count(&instance, &scope), 4);
    let later = ObjectTemplate::new_instance(&templ, &mut scope).unwrap();
    assert_eq!(Object::internal_field_count(&later, &scope), 1);
}

#[test]
fn names_are_distinct() {
    let mut scope = HandleScope::new(Isolate::new());
    let first = Name::new(&mut scope);
    let second = Name::new(&mut scope);
    assert!(!first.same_object(&second));
    assert_eq!(scope.kind_of(&first), Kind::Primitive);
    assert_eq!(scope.heap_size(), 3);
}
