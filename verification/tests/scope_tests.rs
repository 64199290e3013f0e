use scoped_handles::heap::Kind;
use scoped_handles::isolate::Isolate;
use scoped_handles::scope::{HandleScope, Local};
use scoped_handles::value::{Context, Data, Name, Object, ObjectTemplate, Value};

#[test]
fn a_new_isolate_holds_only_the_reserved_address() {
    let isolate = Isolate::new();
    assert_eq!(isolate.size(), 1);
    let scope = HandleScope::new(isolate);
    assert_eq!(scope.heap_size(), 1);
    assert_eq!(scope.depth(), 1);
    assert!(!scope.has_current_context());
}

#[test]
fn cast_local_maps_null_to_absence() {
    let scope = HandleScope::new(Isolate::new());
    let absent: Option<Local<Object>> = scope.cast_local(0);
    assert!(absent.is_none());
}

#[test]
fn cast_local_wraps_any_other_address() {
    let scope = HandleScope::new(Isolate::new());
    let present: Option<Local<Object>> = scope.cast_local(7);
    let local = present.expect("a handle");
    assert!(scope.is_live(&local));
    assert_eq!(scope.raw_address(&local), Some(7));
    // The address is not looked up: nothing stands there.
    assert_eq!(scope.kind_of(&local), Kind::Null);
}

#[test]
fn cast_local_binds_to_the_innermost_scope() {
    let mut scope = HandleScope::new(Isolate::new());
    let outer: Local<Value> = scope.cast_local(5).unwrap();
    assert!(scope.enter());
    let inner: Local<Value> = scope.cast_local(5).unwrap();
    assert!(inner.same_object(&outer));
    assert!(scope.exit());
    assert!(scope.is_live(&outer));
    assert!(!scope.is_live(&inner));
}

#[test]
fn handle_dies_when_its_scope_closes() {
    let mut scope = HandleScope::new(Isolate::new());
    assert!(scope.enter());
    let context = Context::new(&mut scope);
    assert!(scope.is_live(&context));
    assert_eq!(scope.kind_of(&context), Kind::Context);
    assert!(scope.exit());
    assert!(!scope.is_live(&context));
    assert_eq!(scope.kind_of(&context), Kind::Null);
    assert_eq!(scope.raw_address(&context), None);
}

#[test]
fn a_closed_scope_never_reopens() {
    let mut scope = HandleScope::new(Isolate::new());
    assert!(scope.enter());
    let name = Name::new(&mut scope);
    assert!(scope.exit());
    // A scope opened at the same depth is another scope.
    assert!(scope.enter());
    assert_eq!(scope.depth(), 2);
    assert!(!scope.is_live(&name));
    let again = Name::new(&mut scope);
    assert!(scope.is_live(&again));
    assert!(scope.exit());
    assert!(!scope.is_live(&name));
    assert!(!scope.is_live(&again));
}

#[test]
fn scopes_close_innermost_first() {
    let mut scope = HandleScope::new(Isolate::new());
    let root = Name::new(&mut scope);
    assert!(scope.enter());
    let middle = Name::new(&mut scope);
    assert!(scope.enter());
    let inner = Name::new(&mut scope);
    assert_eq!(scope.depth(), 3);
    assert!(scope.is_live(&root) && scope.is_live(&middle) && scope.is_live(&inner));
    assert!(scope.exit());
    assert!(scope.is_live(&root) && scope.is_live(&middle) && !scope.is_live(&inner));
    assert!(scope.exit());
    assert!(scope.is_live(&root) && !scope.is_live(&middle) && !scope.is_live(&inner));
    assert_eq!(scope.depth(), 1);
}

#[test]
fn the_outermost_scope_stays_open() {
    let mut scope = HandleScope::new(Isolate::new());
    let name = Name::new(&mut scope);
    assert!(!scope.exit());
    assert_eq!(scope.depth(), 1);
    assert!(scope.is_live(&name));
}

#[test]
fn an_escaped_handle_outlives_the_inner_scope() {
    let mut scope = HandleScope::new(Isolate::new());
    assert!(scope.enter());
    let inner = ObjectTemplate::new(&mut scope);
    let escaped = scope.escape(&inner).expect("an enclosing scope");
    assert!(escaped.same_object(&inner));
    assert!(scope.exit());
    assert!(!scope.is_live(&inner));
    assert!(scope.is_live(&escaped));
    assert_eq!(scope.kind_of(&escaped), Kind::ObjectTemplate);
}

#[test]
fn nothing_escapes_the_outermost_scope() {
    let mut scope = HandleScope::new(Isolate::new());
    let name = Name::new(&mut scope);
    assert!(scope.escape(&name).is_none());
}

#[test]
fn a_dead_handle_does_not_escape() {
    let mut scope = HandleScope::new(Isolate::new());
    assert!(scope.enter());
    let name = Name::new(&mut scope);
    assert!(scope.exit());
    assert!(scope.enter());
    assert!(scope.escape(&name).is_none());
}

#[test]
fn a_copy_lives_no_longer_than_its_source() {
    let mut scope = HandleScope::new(Isolate::new());
    assert!(scope.enter());
    let name = Name::new(&mut scope);
    let copy = name;
    let clone = name.clone();
    assert!(copy.same_object(&name) && clone.same_object(&name));
    assert!(scope.exit());
    assert!(!scope.is_live(&copy));
    assert!(!scope.is_live(&clone));
}

#[test]
fn cast_keeps_the_object_and_the_scope() {
    let mut scope = HandleScope::new(Isolate::new());
    assert!(scope.enter());
    let name = Name::new(&mut scope);
    let data: Local<Data> = name.cast();
    assert!(data.same_object(&name));
    assert!(scope.is_live(&data));
    assert_eq!(scope.kind_of(&data), Kind::Primitive);
    assert!(scope.exit());
    assert!(!scope.is_live(&data));
}

#[test]
fn same_object_tells_objects_apart() {
    let mut scope = HandleScope::new(Isolate::new());
    let first = Name::new(&mut scope);
    let second = Name::new(&mut scope);
    assert!(first.same_object(&first));
    assert!(!first.same_object(&second));
}

#[test]
fn a_nested_scope_inherits_the_current_context() {
    let mut scope = HandleScope::new(Isolate::new());
    let context = Context::new(&mut scope);
    assert!(!scope.has_current_context());
    assert!(scope.enter_context(&context));
    assert!(scope.has_current_context());
    assert!(scope.enter());
    assert!(scope.has_current_context());
    assert!(scope.exit());
    assert!(scope.exit());
    assert!(!scope.has_current_context());
}

#[test]
fn current_context_is_the_one_entered() {
    let mut scope = HandleScope::new(Isolate::new());
    assert!(scope.current_context().is_none());
    let first = Context::new(&mut scope);
    let second = Context::new(&mut scope);
    assert!(scope.enter_context(&first));
    assert!(scope.current_context().expect("a context").same_object(&first));
    assert!(scope.enter_context(&second));
    let current = scope.current_context().expect("a context");
    assert!(current.same_object(&second));
    assert_eq!(scope.kind_of(&current), Kind::Context);
    assert!(scope.exit());
    assert!(!scope.is_live(&current));
    assert!(scope.current_context().expect("a context").same_object(&first));
    assert!(scope.exit());
    assert!(scope.current_context().is_none());
}
