use avm2_core::avm2::Avm2;
use avm2_core::avm2::SystemPrototypes;
use avm2_core::domain::Domain;
use avm2_core::error::Error;
use avm2_core::heap::Heap;
use avm2_core::object::Object;
use avm2_core::text::Avm1String;
use avm2_core::value::Value;
use gc_arena::rootless_arena;

#[test]
fn a_new_interpreter_is_empty() {
    let mut heap = Heap::new();
    let mut avm2 = Avm2::new(&mut heap);
    assert_eq!(avm2.global_domain(), Domain(0));
    assert!(heap.has_domain(Domain(0)));
    assert!(!heap.has_domain(Domain(1)));
    assert_eq!(avm2.global_domain().parent(&heap), None);
    assert!(!avm2.has_prototypes());
    assert!(!avm2.show_debug_output());
    assert!(matches!(avm2.pop(), Value::Undefined));
}

#[test]
fn each_interpreter_gets_its_own_global_domain() {
    let mut heap = Heap::new();
    let first = Avm2::new(&mut heap);
    let second = Avm2::new(&mut heap);
    assert_eq!(first.global_domain(), Domain(0));
    assert_eq!(second.global_domain(), Domain(1));
}

#[test]
fn pops_return_pushes_in_reverse_order() {
    let mut heap = Heap::new();
    let mut avm2 = Avm2::new(&mut heap);
    for i in 0..10 {
        avm2.push(Value::Integer(i));
    }
    for i in (0..10).rev() {
        assert!(matches!(avm2.pop(), Value::Integer(n) if n == i));
    }
    assert!(matches!(avm2.pop(), Value::Undefined));
}

#[test]
fn pop_on_an_empty_stack_gives_undefined() {
    let mut heap = Heap::new();
    let mut avm2 = Avm2::new(&mut heap);
    assert!(matches!(avm2.pop(), Value::Undefined));
    assert!(matches!(avm2.pop(), Value::Undefined));
    avm2.push(Value::Bool(true));
    assert!(matches!(avm2.pop(), Value::Bool(true)));
    assert!(matches!(avm2.pop(), Value::Undefined));
}

#[test]
fn pop_args_returns_arguments_in_call_order() {
    let mut heap = Heap::new();
    let mut avm2 = Avm2::new(&mut heap);
    avm2.push(Value::Integer(1));
    avm2.push(Value::Integer(2));
    avm2.push(Value::Integer(3));
    let args = avm2.pop_args(3);
    assert_eq!(args.len(), 3);
    assert!(matches!(args[0], Value::Integer(1)));
    assert!(matches!(args[1], Value::Integer(2)));
    assert!(matches!(args[2], Value::Integer(3)));
    assert!(matches!(avm2.pop(), Value::Undefined));
}

#[test]
fn pop_args_leaves_the_values_below() {
    let mut heap = Heap::new();
    let mut avm2 = Avm2::new(&mut heap);
    avm2.push(Value::Null);
    avm2.push(Value::Number(0x4000_0000_0000_0000));
    avm2.push(Value::Bool(false));
    avm2.push(Value::Object(Object(7)));
    let args = avm2.pop_args(2);
    assert_eq!(args.len(), 2);
    assert!(matches!(args[0], Value::Bool(false)));
    assert!(matches!(args[1], Value::Object(Object(7))));
    assert!(matches!(avm2.pop(), Value::Number(0x4000_0000_0000_0000)));
    assert!(matches!(avm2.pop(), Value::Null));
    assert!(matches!(avm2.pop(), Value::Undefined));
}

#[test]
fn pop_args_of_nothing_changes_nothing() {
    let mut heap = Heap::new();
    let mut avm2 = Avm2::new(&mut heap);
    avm2.push(Value::Integer(5));
    let args = avm2.pop_args(0);
    assert!(args.is_empty());
    assert!(matches!(avm2.pop(), Value::Integer(5)));
}

#[test]
fn pop_args_pads_an_underflow_with_undefined_in_front() {
    let mut heap = Heap::new();
    let mut avm2 = Avm2::new(&mut heap);
    avm2.push(Value::Integer(8));
    avm2.push(Value::Integer(9));
    let args = avm2.pop_args(4);
    assert_eq!(args.len(), 4);
    assert!(matches!(args[0], Value::Undefined));
    assert!(matches!(args[1], Value::Undefined));
    assert!(matches!(args[2], Value::Integer(8)));
    assert!(matches!(args[3], Value::Integer(9)));
    assert!(matches!(avm2.pop(), Value::Undefined));
}

#[test]
fn text_values_come_back_from_the_stack() {
    rootless_arena(|mc| {
        let mut heap = Heap::new();
        let mut avm2 = Avm2::new(&mut heap);
        avm2.push(Value::String(Avm1String::new(mc, String::from("owned"))));
        avm2.push(Value::String(Avm1String::from("fixed")));
        match avm2.pop() {
            Value::String(text) => assert_eq!(text.as_str(), "fixed"),
            _ => panic!("expected text"),
        }
        match avm2.pop() {
            Value::String(text) => assert_eq!(text.as_str(), "owned"),
            _ => panic!("expected text"),
        }
    });
}

#[test]
fn debug_output_can_be_switched() {
    let mut heap = Heap::new();
    let mut avm2 = Avm2::new(&mut heap);
    assert!(!avm2.show_debug_output());
    avm2.set_show_debug_output(true);
    assert!(avm2.show_debug_output());
    avm2.set_show_debug_output(false);
    assert!(!avm2.show_debug_output());
}

#[test]
fn switching_debug_output_keeps_the_stack() {
    let mut heap = Heap::new();
    let mut avm2 = Avm2::new(&mut heap);
    avm2.push(Value::Integer(3));
    avm2.set_show_debug_output(true);
    assert!(matches!(avm2.pop(), Value::Integer(3)));
}

#[test]
fn player_globals_are_loaded_against_the_global_domain() {
    let mut heap = Heap::new();
    let _other = Domain::global_domain(&mut heap);
    let avm2 = Avm2::new(&mut heap);
    let load = avm2.load_player_globals();
    assert_eq!(load.domain, Domain(1));
    assert_eq!(load.domain, avm2.global_domain());
    assert_eq!(load.activation.script, None);
    assert_eq!(load.activation.this, None);
    assert_eq!(load.activation.scope, None);
}

#[test]
fn prototypes_are_there_once_the_globals_are_loaded() {
    let mut heap = Heap::new();
    let mut avm2 = Avm2::new(&mut heap);
    assert!(!avm2.has_prototypes());
    let protos = SystemPrototypes { object: Object(1), function: Object(2), class: Object(3) };
    assert!(avm2.player_globals_loaded(Ok(protos)).is_ok());
    assert!(avm2.has_prototypes());
    assert_eq!(avm2.prototypes().object, Object(1));
    assert_eq!(avm2.prototypes().function, Object(2));
    assert_eq!(avm2.prototypes().class, Object(3));
}

#[test]
fn a_failed_globals_load_leaves_no_prototypes() {
    let mut heap = Heap::new();
    let mut avm2 = Avm2::new(&mut heap);
    let result = avm2.player_globals_loaded(Err(Error::Execution(String::from("no globals"))));
    assert!(matches!(result, Err(Error::Execution(message)) if message == "no globals"));
    assert!(!avm2.has_prototypes());
}

#[test]
fn prototypes_are_cached_once() {
    let mut heap = Heap::new();
    let mut avm2 = Avm2::new(&mut heap);
    let first = SystemPrototypes { object: Object(1), function: Object(2), class: Object(3) };
    let second = SystemPrototypes { object: Object(4), function: Object(5), class: Object(6) };
    assert!(avm2.player_globals_loaded(Ok(first)).is_ok());
    assert!(avm2.player_globals_loaded(Ok(second)).is_ok());
    assert_eq!(avm2.prototypes().object, Object(1));
    assert!(avm2.player_globals_loaded(Err(Error::NotCallable)).is_err());
    assert_eq!(avm2.prototypes().class, Object(3));
}

#[test]
fn the_stack_depth_follows_pushes_and_pops() {
    let mut heap = Heap::new();
    let mut avm2 = Avm2::new(&mut heap);
    assert_eq!(avm2.stack_depth(), 0);
    avm2.push(Value::Null);
    avm2.push(Value::Integer(-1));
    avm2.push(Value::Undefined);
    assert_eq!(avm2.stack_depth(), 3);
    avm2.pop();
    assert_eq!(avm2.stack_depth(), 2);
    avm2.pop_args(5);
    assert_eq!(avm2.stack_depth(), 0);
    avm2.pop();
    assert_eq!(avm2.stack_depth(), 0);
}

#[test]
fn a_new_heap_holds_nothing() {
    let heap = Heap::new();
    assert_eq!(heap.script_count(), 0);
    assert!(!heap.has_object(Object(0)));
    assert!(!heap.has_domain(Domain(0)));
}
