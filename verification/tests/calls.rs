use avm2_core::activation::Activation;
use avm2_core::activation::Invocation;
use avm2_core::avm2::Avm2;
use avm2_core::error::Error;
use avm2_core::heap::Heap;
use avm2_core::method::BytecodeMethod;
use avm2_core::method::Method;
use avm2_core::method::NativeMethod;
use avm2_core::object::Object;
use avm2_core::script::TranslationUnit;
use avm2_core::value::Value;

#[test]
fn objects_are_numbered_as_they_are_allocated() {
    let mut heap = Heap::new();
    let first = Object::allocate(&mut heap, None, None);
    let second = Object::allocate(&mut heap, Some(first), Some(Method::Native(NativeMethod(4))));
    assert_eq!(first, Object(0));
    assert_eq!(second, Object(1));
    assert!(heap.has_object(second));
    assert!(!heap.has_object(Object(2)));
    assert_eq!(first.proto(&heap), None);
    assert_eq!(second.proto(&heap), Some(first));
    assert_eq!(first.as_callable(&heap), None);
    assert_eq!(second.as_callable(&heap), Some(Method::Native(NativeMethod(4))));
}

#[test]
fn calling_a_plain_object_fails() {
    let mut heap = Heap::new();
    let plain = Object::allocate(&mut heap, None, None);
    let receiver = Object::allocate(&mut heap, Some(plain), None);
    let result = Avm2::run_stack_frame_for_callable(plain, None, &[], &heap);
    assert!(matches!(result, Err(Error::NotCallable)));
    let result =
        Avm2::run_stack_frame_for_callable(plain, Some(receiver), &[Value::Integer(1)], &heap);
    assert!(matches!(result, Err(Error::NotCallable)));
}

#[test]
fn calling_a_native_function_invokes_it_directly() {
    let mut heap = Heap::new();
    let proto = Object::allocate(&mut heap, None, None);
    let receiver = Object::allocate(&mut heap, Some(proto), None);
    let function = Object::allocate(&mut heap, None, Some(Method::Native(NativeMethod(12))));
    let args = [Value::Integer(1), Value::Bool(true), Value::Null];
    match Avm2::run_stack_frame_for_callable(function, Some(receiver), &args, &heap) {
        Ok(Invocation::Native { function, activation, receiver: this, arguments }) => {
            assert_eq!(function, NativeMethod(12));
            assert_eq!(activation.script, None);
            assert_eq!(activation.this, None);
            assert_eq!(activation.scope, None);
            assert_eq!(this, Some(receiver));
            assert_eq!(arguments.len(), 3);
            assert!(matches!(arguments[0], Value::Integer(1)));
            assert!(matches!(arguments[1], Value::Bool(true)));
            assert!(matches!(arguments[2], Value::Null));
        },
        _ => panic!("expected a native invocation"),
    }
}

#[test]
fn calling_a_bytecode_function_starts_from_the_receivers_prototype() {
    let mut heap = Heap::new();
    let proto = Object::allocate(&mut heap, None, None);
    let receiver = Object::allocate(&mut heap, Some(proto), None);
    let method = BytecodeMethod { unit: TranslationUnit(0), method: 5 };
    let function = Object::allocate(&mut heap, Some(proto), Some(Method::Entry(method)));
    let args = [Value::Integer(42)];
    match Avm2::run_stack_frame_for_callable(function, Some(receiver), &args, &heap) {
        Ok(Invocation::FunctionFrame {
            method: target,
            activation,
            receiver: this,
            arguments,
            base_proto,
            callee,
        }) => {
            assert_eq!(target, method);
            assert_eq!(activation.script, None);
            assert_eq!(activation.this, None);
            assert_eq!(this, Some(receiver));
            assert_eq!(arguments.len(), 1);
            assert!(matches!(arguments[0], Value::Integer(42)));
            assert_eq!(base_proto, Some(proto));
            assert_eq!(callee, function);
        },
        _ => panic!("expected a function frame"),
    }
}

#[test]
fn a_call_without_receiver_has_no_base_prototype() {
    let mut heap = Heap::new();
    let proto = Object::allocate(&mut heap, None, None);
    let method = BytecodeMethod { unit: TranslationUnit(3), method: 0 };
    let function = Object::allocate(&mut heap, Some(proto), Some(Method::Entry(method)));
    match Avm2::run_stack_frame_for_callable(function, None, &[], &heap) {
        Ok(Invocation::FunctionFrame { receiver, arguments, base_proto, callee, .. }) => {
            assert_eq!(receiver, None);
            assert!(arguments.is_empty());
            assert_eq!(base_proto, None);
            assert_eq!(callee, function);
        },
        _ => panic!("expected a function frame"),
    }
}

#[test]
fn a_receiver_without_prototype_gives_no_base_prototype() {
    let mut heap = Heap::new();
    let receiver = Object::allocate(&mut heap, None, None);
    let method = BytecodeMethod { unit: TranslationUnit(0), method: 1 };
    let function = Object::allocate(&mut heap, None, Some(Method::Entry(method)));
    match Avm2::run_stack_frame_for_callable(function, Some(receiver), &[], &heap) {
        Ok(Invocation::FunctionFrame { receiver: this, base_proto, .. }) => {
            assert_eq!(this, Some(receiver));
            assert_eq!(base_proto, None);
        },
        _ => panic!("expected a function frame"),
    }
}

#[test]
fn an_object_can_be_called_with_a_frame_of_the_callers_choice() {
    let mut heap = Heap::new();
    let this = Object::allocate(&mut heap, None, None);
    let function = Object::allocate(&mut heap, None, Some(Method::Native(NativeMethod(1))));
    let frame = Activation { script: None, this: Some(this), scope: Some(this) };
    match function.call(Some(this), &[Value::Undefined], frame, Some(this), &heap) {
        Ok(Invocation::Native { function, activation, receiver, arguments }) => {
            assert_eq!(function, NativeMethod(1));
            assert_eq!(activation.this, Some(this));
            assert_eq!(activation.scope, Some(this));
            assert_eq!(receiver, Some(this));
            assert_eq!(arguments.len(), 1);
            assert!(matches!(arguments[0], Value::Undefined));
        },
        _ => panic!("expected a native invocation"),
    }
    assert!(matches!(this.call(None, &[], frame, None, &heap), Err(Error::NotCallable)));
}

#[test]
fn a_frame_of_nothing_is_bound_to_nothing() {
    let frame = Activation::from_nothing();
    assert_eq!(frame.script, None);
    assert_eq!(frame.this, None);
    assert_eq!(frame.scope, None);
}

#[test]
fn an_outcome_settles_to_the_result_of_the_entry_point() {
    assert!(matches!(Invocation::settle(Ok(Value::Integer(3))), Ok(())));
    assert!(matches!(Invocation::settle(Ok(Value::Undefined)), Ok(())));
    let failed = Invocation::settle(Err(Error::Execution(String::from("TypeError"))));
    assert!(matches!(failed, Err(Error::Execution(message)) if message == "TypeError"));
    assert!(matches!(Invocation::settle(Err(Error::NotCallable)), Err(Error::NotCallable)));
}
