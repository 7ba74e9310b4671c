//! The runtime values that native functions exchange with the virtual machine,
//! the value stack, and the errors the machine reports.

use crate::hash::spec_str_hash;
use vstd::prelude::*;
use vstd::string::StringSliceAdditionalSpecFns;

verus! {

/// A type built into the virtual machine.
#[derive(Debug, Clone, Copy, PartialEq, Eq, Structural)]
pub enum StaticType {
    Unit,
    Bool,
    Byte,
    Char,
    Integer,
    String,
    Option,
    Result,
    GeneratorState,
    Function,
}

impl StaticType {
    /// The name of the type.
    pub open spec fn spec_name(self) -> &'static str {
        match self {
            StaticType::Unit => "unit",
            StaticType::Bool => "bool",
            StaticType::Byte => "byte",
            StaticType::Char => "char",
            StaticType::Integer => "integer",
            StaticType::String => "String",
            StaticType::Option => "Option",
            StaticType::Result => "Result",
            StaticType::GeneratorState => "GeneratorState",
            StaticType::Function => "Function",
        }
    }

    /// The name of the type.
    pub fn name(self) -> (name: &'static str)
        ensures
            name == self.spec_name(),
    {
        match self {
            StaticType::Unit => "unit",
            StaticType::Bool => "bool",
            StaticType::Byte => "byte",
            StaticType::Char => "char",
            StaticType::Integer => "integer",
            StaticType::String => "String",
            StaticType::Option => "Option",
            StaticType::Result => "Result",
            StaticType::GeneratorState => "GeneratorState",
            StaticType::Function => "Function",
        }
    }

    /// The hash of the type: the hash of its name.
    pub open spec fn spec_hash(self) -> crate::hash::Hash {
        spec_str_hash(self.spec_name().spec_bytes())
    }

    /// The hash of the type: the hash of its name.
    pub fn hash(self) -> (h: crate::hash::Hash)
        ensures
            h == self.spec_hash(),
    {
        crate::hash::Hash::of_str(self.name())
    }
}

/// Information on a type, for diagnostics.
#[derive(Debug)]
pub enum TypeInfo {
    /// A type built into the virtual machine.
    StaticType(StaticType),
    /// An external type, by name.
    Any(String),
}

/// The abstract value of type information.
pub enum TypeInfoView {
    /// A type built into the virtual machine.
    StaticType(StaticType),
    /// An external type, by name.
    Any(Seq<char>),
}

impl View for TypeInfo {
    type V = TypeInfoView;

    open spec fn view(&self) -> TypeInfoView {
        match self {
            TypeInfo::StaticType(t) => TypeInfoView::StaticType(*t),
            TypeInfo::Any(name) => TypeInfoView::Any(name@),
        }
    }
}

/// How the virtual machine checks that a value is a given variant of one of
/// its internal enums.
#[derive(Debug, Clone, Copy, PartialEq, Eq, Structural)]
pub enum TypeCheck {
    /// The variant of `Option` with this index.
    Option(usize),
    /// The variant of `Result` with this index.
    Result(usize),
    /// The variant of `GeneratorState` with this index.
    GeneratorState(usize),
}

/// The state a generator is left in after it was resumed.
#[derive(Debug)]
pub enum GeneratorState {
    /// The generator completed with a value.
    Complete(Value),
    /// The generator yielded a value.
    Yielded(Value),
}

/// A value of the virtual machine.
#[derive(Debug)]
pub enum Value {
    Unit,
    Bool(bool),
    Byte(u8),
    Char(char),
    Integer(i64),
    String(String),
    Option(Option<Box<Value>>),
    Result(Result<Box<Value>, Box<Value>>),
    GeneratorState(Box<GeneratorState>),
    /// A function, by the hash that identifies it.
    Function(crate::hash::Hash),
    /// A value of an external type, by the type's name.
    Any(String),
}

/// The type information of a value.
pub open spec fn spec_type_info(value: Value) -> TypeInfo {
    match value {
        Value::Unit => TypeInfo::StaticType(StaticType::Unit),
        Value::Bool(_) => TypeInfo::StaticType(StaticType::Bool),
        Value::Byte(_) => TypeInfo::StaticType(StaticType::Byte),
        Value::Char(_) => TypeInfo::StaticType(StaticType::Char),
        Value::Integer(_) => TypeInfo::StaticType(StaticType::Integer),
        Value::String(_) => TypeInfo::StaticType(StaticType::String),
        Value::Option(_) => TypeInfo::StaticType(StaticType::Option),
        Value::Result(_) => TypeInfo::StaticType(StaticType::Result),
        Value::GeneratorState(_) => TypeInfo::StaticType(StaticType::GeneratorState),
        Value::Function(_) => TypeInfo::StaticType(StaticType::Function),
        Value::Any(name) => TypeInfo::Any(name),
    }
}

impl Value {
    /// The type information of the value.
    pub fn type_info(&self) -> (info: TypeInfo)
        ensures
            info == spec_type_info(*self),
    {
        match self {
            Value::Unit => TypeInfo::StaticType(StaticType::Unit),
            Value::Bool(_) => TypeInfo::StaticType(StaticType::Bool),
            Value::Byte(_) => TypeInfo::StaticType(StaticType::Byte),
            Value::Char(_) => TypeInfo::StaticType(StaticType::Char),
            Value::Integer(_) => TypeInfo::StaticType(StaticType::Integer),
            Value::String(_) => TypeInfo::StaticType(StaticType::String),
            Value::Option(_) => TypeInfo::StaticType(StaticType::Option),
            Value::Result(_) => TypeInfo::StaticType(StaticType::Result),
            Value::GeneratorState(_) => TypeInfo::StaticType(StaticType::GeneratorState),
            Value::Function(_) => TypeInfo::StaticType(StaticType::Function),
            Value::Any(name) => TypeInfo::Any(name.clone()),
        }
    }
}

/// An error raised by the virtual machine.
#[derive(Debug)]
#[allow(inconsistent_fields)]
pub enum VmError {
    /// A function was called with the wrong number of arguments.
    BadArgumentCount { actual: usize, expected: usize },
    /// The stack holds fewer values than an operation takes.
    StackOutOfBounds,
    /// The value cannot be held as a constant.
    ConstNotSupported { actual_type: TypeInfo },
    /// A native function failed.
    Panic { reason: String },
    /// A value of one type was found where another was expected.
    Expected { expected: TypeInfo, actual: TypeInfo },
    /// An argument of a native function could not be converted.
    BadArgument { arg: usize, error: Box<VmError> },
}

/// A value that can be held as a constant.
#[derive(Debug)]
pub enum ConstValue {
    Unit,
    Bool(bool),
    Byte(u8),
    Char(char),
    Integer(i64),
    String(String),
    Option(Option<Box<ConstValue>>),
}

/// The constant that a value converts to, or why it does not.
pub open spec fn spec_const_from_value(value: Value) -> Result<ConstValue, VmError>
    decreases value,
{
    match value {
        Value::Unit => Ok(ConstValue::Unit),
        Value::Bool(b) => Ok(ConstValue::Bool(b)),
        Value::Byte(b) => Ok(ConstValue::Byte(b)),
        Value::Char(c) => Ok(ConstValue::Char(c)),
        Value::Integer(n) => Ok(ConstValue::Integer(n)),
        Value::String(s) => Ok(ConstValue::String(s)),
        Value::Option(None) => Ok(ConstValue::Option(None)),
        Value::Option(Some(inner)) => match spec_const_from_value(*inner) {
            Ok(c) => Ok(ConstValue::Option(Some(Box::new(c)))),
            Err(e) => Err(e),
        },
        _ => Err(VmError::ConstNotSupported { actual_type: spec_type_info(value) }),
    }
}

impl ConstValue {
    /// Convert a value into a constant.
    pub fn from_value(value: Value) -> (r: Result<ConstValue, VmError>)
        ensures
            r == spec_const_from_value(value),
        decreases value,
    {
        match value {
            Value::Unit => Ok(ConstValue::Unit),
            Value::Bool(b) => Ok(ConstValue::Bool(b)),
            Value::Byte(b) => Ok(ConstValue::Byte(b)),
            Value::Char(c) => Ok(ConstValue::Char(c)),
            Value::Integer(n) => Ok(ConstValue::Integer(n)),
            Value::String(s) => Ok(ConstValue::String(s)),
            Value::Option(None) => Ok(ConstValue::Option(None)),
            Value::Option(Some(inner)) => match ConstValue::from_value(*inner) {
                Ok(c) => Ok(ConstValue::Option(Some(Box::new(c)))),
                Err(e) => Err(e),
            },
            other => {
                let actual_type = other.type_info();
                Err(VmError::ConstNotSupported { actual_type })
            },
        }
    }
}

/// Conversion of a native value into a value of the virtual machine.
pub trait ToValue: Sized {
    /// The value of the virtual machine that `self` converts to, or why it
    /// does not.
    spec fn spec_to_value(self) -> Result<Value, VmError>;

    /// Convert into a value of the virtual machine.
    fn to_value(self) -> (r: Result<Value, VmError>)
        ensures
            r == self.spec_to_value(),
    ;
}

impl ToValue for Value {
    open spec fn spec_to_value(self) -> Result<Value, VmError> {
        Ok(self)
    }

    fn to_value(self) -> (r: Result<Value, VmError>) {
        Ok(self)
    }
}

impl ToValue for () {
    open spec fn spec_to_value(self) -> Result<Value, VmError> {
        Ok(Value::Unit)
    }

    fn to_value(self) -> (r: Result<Value, VmError>) {
        Ok(Value::Unit)
    }
}

impl ToValue for bool {
    open spec fn spec_to_value(self) -> Result<Value, VmError> {
        Ok(Value::Bool(self))
    }

    fn to_value(self) -> (r: Result<Value, VmError>) {
        Ok(Value::Bool(self))
    }
}

impl ToValue for u8 {
    open spec fn spec_to_value(self) -> Result<Value, VmError> {
        Ok(Value::Byte(self))
    }

    fn to_value(self) -> (r: Result<Value, VmError>) {
        Ok(Value::Byte(self))
    }
}

impl ToValue for char {
    open spec fn spec_to_value(self) -> Result<Value, VmError> {
        Ok(Value::Char(self))
    }

    fn to_value(self) -> (r: Result<Value, VmError>) {
        Ok(Value::Char(self))
    }
}

impl ToValue for i64 {
    open spec fn spec_to_value(self) -> Result<Value, VmError> {
        Ok(Value::Integer(self))
    }

    fn to_value(self) -> (r: Result<Value, VmError>) {
        Ok(Value::Integer(self))
    }
}

impl ToValue for String {
    open spec fn spec_to_value(self) -> Result<Value, VmError> {
        Ok(Value::String(self))
    }

    fn to_value(self) -> (r: Result<Value, VmError>) {
        Ok(Value::String(self))
    }
}

/// Conversion of a value of the virtual machine into a native value.
pub trait FromValue: Sized {
    /// The native value that `value` converts to, or why it does not.
    spec fn spec_from_value(value: Value) -> Result<Self, VmError>;

    /// Convert a value of the virtual machine.
    fn from_value(value: Value) -> (r: Result<Self, VmError>)
        ensures
            r == Self::spec_from_value(value),
    ;
}

/// The error of a value of another type than `expected`.
pub open spec fn spec_expected(wanted: StaticType, value: Value) -> VmError {
    VmError::Expected { expected: TypeInfo::StaticType(wanted), actual: spec_type_info(value) }
}

/// The error of a value of another type than `expected`.
fn expected(wanted: StaticType, value: &Value) -> (e: VmError)
    ensures
        e == spec_expected(wanted, *value),
{
    VmError::Expected { expected: TypeInfo::StaticType(wanted), actual: value.type_info() }
}

impl FromValue for Value {
    open spec fn spec_from_value(value: Value) -> Result<Value, VmError> {
        Ok(value)
    }

    fn from_value(value: Value) -> (r: Result<Value, VmError>) {
        Ok(value)
    }
}

impl FromValue for () {
    open spec fn spec_from_value(value: Value) -> Result<(), VmError> {
        match value {
            Value::Unit => Ok(()),
            _ => Err(spec_expected(StaticType::Unit, value)),
        }
    }

    fn from_value(value: Value) -> (r: Result<(), VmError>) {
        match value {
            Value::Unit => Ok(()),
            _ => Err(expected(StaticType::Unit, &value)),
        }
    }
}

impl FromValue for bool {
    open spec fn spec_from_value(value: Value) -> Result<bool, VmError> {
        match value {
            Value::Bool(b) => Ok(b),
            _ => Err(spec_expected(StaticType::Bool, value)),
        }
    }

    fn from_value(value: Value) -> (r: Result<bool, VmError>) {
        match value {
            Value::Bool(b) => Ok(b),
            _ => Err(expected(StaticType::Bool, &value)),
        }
    }
}

impl FromValue for u8 {
    open spec fn spec_from_value(value: Value) -> Result<u8, VmError> {
        match value {
            Value::Byte(b) => Ok(b),
            _ => Err(spec_expected(StaticType::Byte, value)),
        }
    }

    fn from_value(value: Value) -> (r: Result<u8, VmError>) {
        match value {
            Value::Byte(b) => Ok(b),
            _ => Err(expected(StaticType::Byte, &value)),
        }
    }
}

impl FromValue for char {
    open spec fn spec_from_value(value: Value) -> Result<char, VmError> {
        match value {
            Value::Char(c) => Ok(c),
            _ => Err(spec_expected(StaticType::Char, value)),
        }
    }

    fn from_value(value: Value) -> (r: Result<char, VmError>) {
        match value {
            Value::Char(c) => Ok(c),
            _ => Err(expected(StaticType::Char, &value)),
        }
    }
}

impl FromValue for i64 {
    open spec fn spec_from_value(value: Value) -> Result<i64, VmError> {
        match value {
            Value::Integer(n) => Ok(n),
            _ => Err(spec_expected(StaticType::Integer, value)),
        }
    }

    fn from_value(value: Value) -> (r: Result<i64, VmError>) {
        match value {
            Value::Integer(n) => Ok(n),
            _ => Err(expected(StaticType::Integer, &value)),
        }
    }
}

impl FromValue for String {
    open spec fn spec_from_value(value: Value) -> Result<String, VmError> {
        match value {
            Value::String(s) => Ok(s),
            _ => Err(spec_expected(StaticType::String, value)),
        }
    }

    fn from_value(value: Value) -> (r: Result<String, VmError>) {
        match value {
            Value::String(s) => Ok(s),
            _ => Err(expected(StaticType::String, &value)),
        }
    }
}

/// The value stack of the virtual machine.
pub struct Stack {
    values: Vec<Value>,
}

impl View for Stack {
    type V = Seq<Value>;

    closed spec fn view(&self) -> Seq<Value> {
        self.values@
    }
}

impl Stack {
    /// An empty stack.
    pub fn new() -> (stack: Stack)
        ensures
            stack@ == Seq::<Value>::empty(),
    {
        Stack { values: Vec::new() }
    }

    /// The number of values on the stack.
    pub fn len(&self) -> (n: usize)
        ensures
            n == self@.len(),
    {
        self.values.len()
    }

    /// Push a value on top of the stack.
    pub fn push(&mut self, value: Value)
        ensures
            final(self)@ == old(self)@.push(value),
    {
        self.values.push(value);
    }

    /// Pop the value on top of the stack.
    pub fn pop(&mut self) -> (value: Option<Value>)
        ensures
            old(self)@.len() > 0 ==> value == Some(old(self)@.last()) && final(self)@
                == old(self)@.drop_last(),
            old(self)@.len() == 0 ==> value is None && final(self)@ == old(self)@,
    {
        self.values.pop()
    }

    /// Take the `count` values on top of the stack, oldest first.
    pub fn drain(&mut self, count: usize) -> (r: Result<Vec<Value>, VmError>)
        ensures
            count <= old(self)@.len() ==> (r matches Ok(values) && values@ == old(self)@.skip(
                old(self)@.len() - count,
            ) && final(self)@ == old(self)@.take(old(self)@.len() - count)),
            count > old(self)@.len() ==> (r matches Err(VmError::StackOutOfBounds) && final(self)@
                == old(self)@),
    {
        let len = self.values.len();
        if count > len {
            return Err(VmError::StackOutOfBounds);
        }
        let values = self.values.split_off(len - count);
        proof {
            assert(values@ =~= old(self)@.skip(len - count));
            assert(self@ =~= old(self)@.take(len - count));
        }
        Ok(values)
    }
}

} // verus!
