use rune::module::VariantConstructor;
use rune::runtime::{
    ConstValue, FromValue, GeneratorState, Stack, StaticType, ToValue, TypeInfo, Value, VmError,
};

#[test]
fn stack_drain_takes_values_oldest_first() {
    let mut stack = Stack::new();
    stack.push(Value::Integer(1));
    stack.push(Value::Integer(2));
    stack.push(Value::Integer(3));
    let taken = stack.drain(2).unwrap();
    assert!(matches!(taken.as_slice(), [Value::Integer(2), Value::Integer(3)]));
    assert_eq!(stack.len(), 1);
    assert!(matches!(stack.drain(2), Err(VmError::StackOutOfBounds)));
    assert_eq!(stack.len(), 1);
    assert!(matches!(stack.pop(), Some(Value::Integer(1))));
    assert!(stack.pop().is_none());
}

#[test]
fn some_constructor_wraps_the_top_value() {
    let mut stack = Stack::new();
    stack.push(Value::Integer(7));
    stack.push(Value::Bool(true));
    VariantConstructor::OptionSome.fn_call(&mut stack, 1).unwrap();
    assert_eq!(stack.len(), 2);
    match stack.pop() {
        Some(Value::Option(Some(inner))) => assert!(matches!(*inner, Value::Bool(true))),
        _ => panic!("expected Some(true)"),
    }
    assert!(matches!(stack.pop(), Some(Value::Integer(7))));
}

#[test]
fn none_constructor_takes_no_arguments() {
    let mut stack = Stack::new();
    VariantConstructor::OptionNone.fn_call(&mut stack, 0).unwrap();
    assert!(matches!(stack.pop(), Some(Value::Option(None))));
    assert!(matches!(
        VariantConstructor::OptionNone.fn_call(&mut stack, 1),
        Err(VmError::BadArgumentCount { actual: 1, expected: 0 })
    ));
}

#[test]
fn constructors_check_argument_count_and_stack() {
    let mut stack = Stack::new();
    assert!(matches!(
        VariantConstructor::ResultOk.fn_call(&mut stack, 2),
        Err(VmError::BadArgumentCount { actual: 2, expected: 1 })
    ));
    assert!(matches!(
        VariantConstructor::ResultErr.fn_call(&mut stack, 1),
        Err(VmError::StackOutOfBounds)
    ));
    assert_eq!(stack.len(), 0);
    stack.push(Value::Unit);
    VariantConstructor::ResultErr.fn_call(&mut stack, 1).unwrap();
    match stack.pop() {
        Some(Value::Result(Err(inner))) => assert!(matches!(*inner, Value::Unit)),
        _ => panic!("expected Err(())"),
    }
    stack.push(Value::Char('x'));
    VariantConstructor::Yielded.fn_call(&mut stack, 1).unwrap();
    match stack.pop() {
        Some(Value::GeneratorState(state)) => {
            assert!(matches!(*state, GeneratorState::Yielded(Value::Char('x'))))
        }
        _ => panic!("expected Yielded('x')"),
    }
    stack.push(Value::Byte(1));
    VariantConstructor::Complete.fn_call(&mut stack, 1).unwrap();
    match stack.pop() {
        Some(Value::GeneratorState(state)) => {
            assert!(matches!(*state, GeneratorState::Complete(Value::Byte(1))))
        }
        _ => panic!("expected Complete(1)"),
    }
}

#[test]
fn constructor_metadata() {
    assert_eq!(VariantConstructor::OptionSome.args(), 1);
    assert_eq!(VariantConstructor::OptionNone.args(), 0);
    assert_eq!(VariantConstructor::ResultOk.return_type(), StaticType::Result);
    assert_eq!(VariantConstructor::Complete.return_type(), StaticType::GeneratorState);
    assert_eq!(VariantConstructor::OptionNone.return_type(), StaticType::Option);
}

#[test]
fn constants_from_values() {
    assert!(matches!(ConstValue::from_value(Value::Integer(3)), Ok(ConstValue::Integer(3))));
    assert!(matches!(ConstValue::from_value(Value::Unit), Ok(ConstValue::Unit)));
    assert!(matches!(ConstValue::from_value(Value::Option(None)), Ok(ConstValue::Option(None))));
    assert!(matches!(
        ConstValue::from_value(Value::Result(Ok(Box::new(Value::Unit)))),
        Err(VmError::ConstNotSupported { actual_type: TypeInfo::StaticType(StaticType::Result) })
    ));
    match ConstValue::from_value(Value::Option(Some(Box::new(Value::Option(Some(Box::new(
        Value::Byte(9),
    ))))))) {
        Ok(ConstValue::Option(Some(outer))) => match *outer {
            ConstValue::Option(Some(inner)) => assert!(matches!(*inner, ConstValue::Byte(9))),
            _ => panic!("inner option"),
        },
        _ => panic!("outer option"),
    }
}

#[test]
fn value_type_info() {
    assert!(matches!(Value::Bool(true).type_info(), TypeInfo::StaticType(StaticType::Bool)));
    assert!(matches!(Value::Any("T".to_string()).type_info(), TypeInfo::Any(ref n) if n == "T"));
    assert!(matches!(
        Value::Function(rune::hash::Hash(1)).type_info(),
        TypeInfo::StaticType(StaticType::Function)
    ));
}

#[test]
fn static_type_hash_is_the_hash_of_its_name() {
    assert_eq!(StaticType::Option.name(), "Option");
    assert_eq!(StaticType::Option.hash(), rune::hash::Hash::of_str("Option"));
    assert_ne!(StaticType::Option.hash(), StaticType::Result.hash());
}

#[test]
fn native_values_convert_from_values() {
    assert!(matches!(i64::from_value(Value::Integer(3)), Ok(3)));
    assert!(matches!(bool::from_value(Value::Bool(true)), Ok(true)));
    assert!(matches!(u8::from_value(Value::Byte(7)), Ok(7)));
    assert!(matches!(char::from_value(Value::Char('x')), Ok('x')));
    assert!(matches!(<()>::from_value(Value::Unit), Ok(())));
    assert!(matches!(String::from_value(Value::String("s".to_string())), Ok(ref s) if s == "s"));
    assert!(matches!(Value::from_value(Value::Byte(1)), Ok(Value::Byte(1))));
    match i64::from_value(Value::String("3".to_string())) {
        Err(VmError::Expected { expected, actual }) => {
            assert!(matches!(expected, TypeInfo::StaticType(StaticType::Integer)));
            assert!(matches!(actual, TypeInfo::StaticType(StaticType::String)));
        }
        _ => panic!("a string is no integer"),
    }
    match String::from_value(Value::Any("T".to_string())) {
        Err(VmError::Expected { expected, actual }) => {
            assert!(matches!(expected, TypeInfo::StaticType(StaticType::String)));
            assert!(matches!(actual, TypeInfo::Any(ref n) if n == "T"));
        }
        _ => panic!("an external value is no string"),
    }
    assert!(matches!(<()>::from_value(Value::Bool(false)), Err(VmError::Expected { .. })));
}

#[test]
fn native_values_convert_to_values() {
    assert!(matches!(42i64.to_value(), Ok(Value::Integer(42))));
    assert!(matches!(().to_value(), Ok(Value::Unit)));
    assert!(matches!(true.to_value(), Ok(Value::Bool(true))));
    assert!(matches!(9u8.to_value(), Ok(Value::Byte(9))));
    assert!(matches!('c'.to_value(), Ok(Value::Char('c'))));
    assert!(matches!("s".to_string().to_value(), Ok(Value::String(ref s)) if s == "s"));
}
