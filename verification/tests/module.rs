use std::sync::Arc;

use rune::ast::ParseError;
use rune::hash::Protocol;
use rune::item::Item;
use rune::macros::{MacroContext, TokenStream};
use rune::module::{
    AsyncFunction, AsyncInstFn, ContextError, Function, Handlers, InstFn, InstallWith, Module,
    ModuleAssocKey, ModuleAssociatedKind, ModuleView, Named, TypeOf, VariantConstructor,
};
use rune::native::{InstNative0, InstNative1, Native0, Native1, Native2};
use rune::runtime::{
    ConstValue, FromValue, Stack, StaticType, TypeCheck, TypeInfo, TypeInfoView, Value, VmError,
};
use vstd::seq::Seq;

/// The characters of `s`, as the abstract value that the traits' contracts
/// speak of.
fn spec_chars(s: &str) -> Seq<char> {
    s.chars().fold(Seq::empty(), |acc, c| acc.push(c))
}

type FnHandler = Arc<dyn Fn(&mut Stack, usize) -> Result<(), VmError> + Send + Sync>;
type MacroHandler =
    Arc<dyn Fn(&mut MacroContext, &TokenStream) -> Result<TokenStream, ParseError> + Send + Sync>;

struct ArcHandlers;

impl Handlers for ArcHandlers {
    type Function = FnHandler;
    type Macro = MacroHandler;

    fn spec_function<Func: Function<Args>, Args>(f: Func) -> FnHandler {
        Self::function(f)
    }

    fn spec_async_function<Func: AsyncFunction<Args>, Args>(f: Func) -> FnHandler {
        Self::async_function(f)
    }

    fn spec_inst_fn<Func: InstFn<Args>, Args>(f: Func) -> FnHandler {
        Self::inst_fn(f)
    }

    fn spec_async_inst_fn<Func: AsyncInstFn<Args>, Args>(f: Func) -> FnHandler {
        Self::async_inst_fn(f)
    }

    fn spec_raw_fn<F>(f: F) -> FnHandler
    where
        F: 'static + Fn(&mut Stack, usize) -> Result<(), VmError> + Send + Sync,
    {
        Self::raw_fn(f)
    }

    fn spec_macro<M>(m: M) -> MacroHandler
    where
        M: 'static
            + Send
            + Sync
            + Fn(&mut MacroContext, &TokenStream) -> Result<TokenStream, ParseError>,
    {
        Self::macro_(m)
    }

    /// Calling a handler calls the callable it was made of; the library
    /// states what that does in terms of the callable's own statement.
    fn spec_handler_call(
        _h: FnHandler,
        _old: Seq<Value>,
        _args: usize,
        _new: Seq<Value>,
        _r: Result<(), VmError>,
    ) -> bool {
        true
    }

    /// Calling a macro handler calls the macro it was made of.
    fn spec_macro_call(
        _h: MacroHandler,
        _old: MacroContext,
        _input: TokenStream,
        _new: MacroContext,
        _r: Result<TokenStream, ParseError>,
    ) -> bool {
        true
    }

    fn call(h: &FnHandler, stack: &mut Stack, args: usize) -> Result<(), VmError> {
        h(stack, args)
    }

    fn call_macro(
        h: &MacroHandler,
        ctx: &mut MacroContext,
        input: &TokenStream,
    ) -> Result<TokenStream, ParseError> {
        h(ctx, input)
    }

    fn function<Func: Function<Args>, Args>(f: Func) -> FnHandler {
        Arc::new(move |stack, args| f.fn_call(stack, args))
    }

    fn async_function<Func: AsyncFunction<Args>, Args>(f: Func) -> FnHandler {
        Arc::new(move |stack, args| f.fn_call(stack, args))
    }

    fn inst_fn<Func: InstFn<Args>, Args>(f: Func) -> FnHandler {
        Arc::new(move |stack, args| f.fn_call(stack, args))
    }

    fn async_inst_fn<Func: AsyncInstFn<Args>, Args>(f: Func) -> FnHandler {
        Arc::new(move |stack, args| f.fn_call(stack, args))
    }

    fn raw_fn<F>(f: F) -> FnHandler
    where
        F: 'static + Fn(&mut Stack, usize) -> Result<(), VmError> + Send + Sync,
    {
        Arc::new(f)
    }

    fn macro_<M>(m: M) -> MacroHandler
    where
        M: 'static
            + Send
            + Sync
            + Fn(&mut MacroContext, &TokenStream) -> Result<TokenStream, ParseError>,
    {
        Arc::new(m)
    }
}

type TestModule = Module<ArcHandlers>;

fn add_ten(value: i64) -> i64 {
    value + 10
}

fn empty() {}

/// An asynchronous function of no arguments that returns unit.
struct Empty;

impl AsyncFunction<()> for Empty {
    type Return = ();

    fn spec_args() -> usize {
        0
    }

    fn args() -> usize {
        0
    }

    /// A call succeeds (and pushes unit).
    fn spec_call(&self, _old: Seq<Value>, _args: usize, _new: Seq<Value>, r: Result<(), VmError>) -> bool {
        r.is_ok()
    }

    fn fn_call(&self, stack: &mut Stack, _args: usize) -> Result<(), VmError> {
        stack.push(Value::Unit);
        Ok(())
    }
}

/// An external type with a `len` method.
struct MyBytes {
    queue: Vec<String>,
}

impl MyBytes {
    fn len(self) -> i64 {
        self.queue.len() as i64
    }
}

impl Named for MyBytes {
    fn spec_full_name() -> Seq<char> {
        spec_chars("MyBytes")
    }

    fn full_name() -> String {
        "MyBytes".to_string()
    }
}

impl TypeOf for MyBytes {
    fn spec_type_hash() -> rune::hash::Hash {
        rune::hash::Hash(0x1234)
    }

    fn spec_type_info() -> TypeInfoView {
        TypeInfoView::Any(spec_chars("MyBytes"))
    }

    fn type_hash() -> rune::hash::Hash {
        rune::hash::Hash(0x1234)
    }

    fn type_info() -> TypeInfo {
        TypeInfo::Any("MyBytes".to_string())
    }
}

impl FromValue for MyBytes {
    fn spec_from_value(value: Value) -> Result<Self, VmError> {
        Self::from_value(value)
    }

    /// A value of the external type converts to a `MyBytes` with two
    /// queued strings.
    fn from_value(value: Value) -> Result<Self, VmError> {
        match value {
            Value::Any(name) if name == "MyBytes" => {
                Ok(MyBytes { queue: vec!["a".to_string(), "b".to_string()] })
            }
            other => Err(VmError::Expected {
                expected: MyBytes::type_info(),
                actual: other.type_info(),
            }),
        }
    }
}

/// Installing `MyBytes` installs nothing more: the hook succeeds and leaves
/// the module as it was.
impl InstallWith for MyBytes {
    fn install_with<H: Handlers>(_module: &mut Module<H>) -> Result<(), ContextError> {
        Ok(())
    }
}

/// Another type that claims the same hash.
struct Impostor;

impl Named for Impostor {
    fn spec_full_name() -> Seq<char> {
        spec_chars("Impostor")
    }

    fn full_name() -> String {
        "Impostor".to_string()
    }
}

impl TypeOf for Impostor {
    fn spec_type_hash() -> rune::hash::Hash {
        rune::hash::Hash(0x1234)
    }

    fn spec_type_info() -> TypeInfoView {
        TypeInfoView::Any(spec_chars("Impostor"))
    }

    fn type_hash() -> rune::hash::Hash {
        rune::hash::Hash(0x1234)
    }

    fn type_info() -> TypeInfo {
        TypeInfo::Any("Impostor".to_string())
    }
}

/// Installing `Impostor` installs nothing more: the hook succeeds and leaves
/// the module as it was.
impl InstallWith for Impostor {
    fn install_with<H: Handlers>(_module: &mut Module<H>) -> Result<(), ContextError> {
        Ok(())
    }
}

/// A type whose hook installs a function, and fails when it is installed a
/// second time.
struct WithHelper;

impl Named for WithHelper {
    fn spec_full_name() -> Seq<char> {
        spec_chars("WithHelper")
    }

    fn full_name() -> String {
        "WithHelper".to_string()
    }
}

impl TypeOf for WithHelper {
    fn spec_type_hash() -> rune::hash::Hash {
        rune::hash::Hash(0x5678)
    }

    fn spec_type_info() -> TypeInfoView {
        TypeInfoView::Any(spec_chars("WithHelper"))
    }

    fn type_hash() -> rune::hash::Hash {
        rune::hash::Hash(0x5678)
    }

    fn type_info() -> TypeInfo {
        TypeInfo::Any("WithHelper".to_string())
    }
}

impl InstallWith for WithHelper {
    /// What the hook does is stated by its test, not here.
    fn spec_install<H: Handlers>(
        _old: ModuleView<H::Function, H::Macro>,
        _new: ModuleView<H::Function, H::Macro>,
        _r: Result<(), ContextError>,
    ) -> bool {
        true
    }

    fn install_with<H: Handlers>(module: &mut Module<H>) -> Result<(), ContextError> {
        module.function(&["WithHelper", "helper"], Native0::new(empty))
    }
}

/// `MyBytes::len(&self)`, asynchronously.
struct AsyncLen;

impl AsyncInstFn<(MyBytes,)> for AsyncLen {
    type Instance = MyBytes;
    type Return = i64;

    fn spec_args() -> usize {
        1
    }

    fn spec_instance_type_hash() -> rune::hash::Hash {
        MyBytes::spec_type_hash()
    }

    fn spec_instance_type_info() -> TypeInfoView {
        MyBytes::spec_type_info()
    }

    fn args() -> usize {
        1
    }

    fn instance_type_hash() -> rune::hash::Hash {
        MyBytes::type_hash()
    }

    fn instance_type_info() -> TypeInfo {
        MyBytes::type_info()
    }

    /// A call succeeds (and replaces the value on top with 0).
    fn spec_call(&self, _old: Seq<Value>, _args: usize, _new: Seq<Value>, r: Result<(), VmError>) -> bool {
        r.is_ok()
    }

    fn fn_call(&self, stack: &mut Stack, _args: usize) -> Result<(), VmError> {
        stack.pop();
        stack.push(Value::Integer(0));
        Ok(())
    }
}

fn len() -> InstNative0<fn(MyBytes) -> i64, MyBytes, i64> {
    InstNative0::new(MyBytes::len)
}

#[test]
fn module_new_is_empty() {
    let module = TestModule::new();
    assert_eq!(module.item().len(), 0);
    assert_eq!(module.function_count(), 0);
    assert_eq!(module.associated_function_count(), 0);
    assert!(module.unit_type().is_none());
    assert!(module.internal_enums().is_empty());
}

#[test]
fn module_items() {
    let module = TestModule::with_item(&["nonstd"]);
    assert!(module.item().eq_item(&Item::with_item(&["nonstd"])));
    let module = TestModule::with_crate("nonstd");
    assert!(module.item().eq_item(&Item::with_crate("nonstd")));
    assert!(!module.item().eq_item(&Item::with_item(&["nonstd"])));
    let module = TestModule::with_crate_item("nonstd", &["option"]);
    assert!(module.item().eq_item(&Item::with_crate_item("nonstd", &["option"])));
    assert_eq!(module.item().len(), 2);
}

#[test]
fn unit_registers_once() {
    let mut module = TestModule::with_item(&["nonstd"]);
    assert!(module.unit("unit").is_ok());
    assert!(matches!(module.unit("other"), Err(ContextError::UnitAlreadyPresent)));
    assert_eq!(module.unit_type().unwrap().name, "unit");
}

fn check_internal_enum(
    module: &TestModule,
    name: &str,
    base: &[&str],
    static_type: StaticType,
    variants: [(&str, TypeCheck, usize, VariantConstructor); 2],
) {
    let enums = module.internal_enums();
    assert_eq!(enums.len(), 1);
    let e = &enums[0];
    assert_eq!(e.name, name);
    assert!(e.base_type.eq_item(&Item::with_item(base)));
    assert_eq!(e.static_type, static_type);
    assert_eq!(e.variants.len(), 2);
    for (variant, (vname, check, args, constructor)) in e.variants.iter().zip(variants.iter()) {
        assert_eq!(variant.name, *vname);
        assert_eq!(variant.type_check, *check);
        assert_eq!(variant.args, *args);
        assert_eq!(variant.constructor, *constructor);
        assert_eq!(variant.type_hash, static_type.hash());
    }
}

#[test]
fn option_registers_internal_enum() {
    let mut module = TestModule::with_crate_item("nonstd", &["option"]);
    assert!(module.option(&["Option"]).is_ok());
    check_internal_enum(
        &module,
        "Option",
        &["Option"],
        StaticType::Option,
        [
            ("Some", TypeCheck::Option(0), 1, VariantConstructor::OptionSome),
            ("None", TypeCheck::Option(1), 0, VariantConstructor::OptionNone),
        ],
    );
}

#[test]
fn result_registers_internal_enum() {
    let mut module = TestModule::with_crate_item("nonstd", &["result"]);
    assert!(module.result(&["Result"]).is_ok());
    check_internal_enum(
        &module,
        "Result",
        &["Result"],
        StaticType::Result,
        [
            ("Ok", TypeCheck::Result(0), 1, VariantConstructor::ResultOk),
            ("Err", TypeCheck::Result(1), 1, VariantConstructor::ResultErr),
        ],
    );
}

#[test]
fn generator_state_registers_internal_enum() {
    let mut module = TestModule::with_crate_item("nonstd", &["generator"]);
    assert!(module.generator_state(&["GeneratorState"]).is_ok());
    check_internal_enum(
        &module,
        "GeneratorState",
        &["GeneratorState"],
        StaticType::GeneratorState,
        [
            ("Complete", TypeCheck::GeneratorState(0), 1, VariantConstructor::Complete),
            ("Yielded", TypeCheck::GeneratorState(1), 1, VariantConstructor::Yielded),
        ],
    );
}

#[test]
fn function_registers_and_calls() {
    let mut module = TestModule::default();
    assert!(module.function(&["add_ten"], Native1::new(add_ten)).is_ok());
    assert!(module.function(&["empty"], Native0::new(empty)).is_ok());
    assert_eq!(module.function_count(), 2);
    let f = module.get_function(&Item::with_item(&["add_ten"])).unwrap();
    assert_eq!(f.args, Some(1));
    let mut stack = Stack::new();
    stack.push(Value::Integer(32));
    (f.handler)(&mut stack, 1).unwrap();
    assert!(matches!(stack.pop(), Some(Value::Integer(42))));
    assert_eq!(module.get_function(&Item::with_item(&["empty"])).unwrap().args, Some(0));
}

#[test]
fn function_name_refused_twice() {
    let mut module = TestModule::new();
    assert!(module.function(&["add_ten"], Native1::new(add_ten)).is_ok());
    match module.function(&["add_ten"], Native0::new(empty)) {
        Err(ContextError::ConflictingFunctionName { name }) => {
            assert!(name.eq_item(&Item::with_item(&["add_ten"])));
        }
        other => panic!("unexpected: {:?}", other.is_ok()),
    }
    // The first registration stays.
    assert_eq!(module.function_count(), 1);
    assert_eq!(module.get_function(&Item::with_item(&["add_ten"])).unwrap().args, Some(1));
}

#[test]
fn async_and_raw_functions_share_the_name_space() {
    let mut module = TestModule::new();
    assert!(module.async_function(&["empty"], Empty).is_ok());
    assert!(matches!(
        module.function(&["empty"], Native0::new(empty)),
        Err(ContextError::ConflictingFunctionName { .. })
    ));
    assert!(matches!(
        module.raw_fn(&["empty"], |_: &mut Stack, _: usize| Ok(())),
        Err(ContextError::ConflictingFunctionName { .. })
    ));
    assert!(module.raw_fn(&["raw"], |_: &mut Stack, _: usize| Ok(())).is_ok());
    assert_eq!(module.get_function(&Item::with_item(&["raw"])).unwrap().args, None);
    assert_eq!(module.get_function(&Item::with_item(&["empty"])).unwrap().args, Some(0));
    assert!(matches!(
        module.async_function(&["raw"], Empty),
        Err(ContextError::ConflictingFunctionName { .. })
    ));
}

fn identity_macro(_: &mut MacroContext, stream: &TokenStream) -> Result<TokenStream, ParseError> {
    Ok(TokenStream { tokens: stream.tokens.clone() })
}

#[test]
fn macros_have_their_own_name_space() {
    let mut module = TestModule::new();
    assert!(module.function(&["stringify"], Native0::new(empty)).is_ok());
    assert!(module.macro_(&["stringify"], identity_macro).is_ok());
    match module.macro_(&["stringify"], identity_macro) {
        Err(ContextError::ConflictingFunctionName { name }) => {
            assert!(name.eq_item(&Item::with_item(&["stringify"])));
        }
        _ => panic!("a second macro under the same name must be refused"),
    }
    assert!(module.get_macro(&Item::with_item(&["stringify"])).is_some());
    assert!(module.get_macro(&Item::with_item(&["other"])).is_none());
    assert_eq!(module.function_count(), 1);
}

#[test]
fn constants_register() {
    let mut module = TestModule::new();
    assert!(module.constant(&["TEN"], 10i64).is_ok());
    assert!(module.constant(&["MyType", "TEN"], 10i64).is_ok());
    assert!(matches!(
        module.get_constant(&Item::with_item(&["TEN"])),
        Some(ConstValue::Integer(10))
    ));
    assert!(matches!(
        module.get_constant(&Item::with_item(&["MyType", "TEN"])),
        Some(ConstValue::Integer(10))
    ));
    match module.constant(&["TEN"], 11i64) {
        Err(ContextError::ConflictingConstantName { name }) => {
            assert!(name.eq_item(&Item::with_item(&["TEN"])));
        }
        _ => panic!("a second constant under the same name must be refused"),
    }
    assert!(matches!(
        module.get_constant(&Item::with_item(&["TEN"])),
        Some(ConstValue::Integer(10))
    ));
}

#[test]
fn constant_that_does_not_convert_is_refused() {
    let mut module = TestModule::new();
    let r = module.constant(&["F"], Value::Function(rune::hash::Hash(7)));
    match r {
        Err(ContextError::ValueError {
            error: VmError::ConstNotSupported { actual_type: TypeInfo::StaticType(t) },
        }) => assert_eq!(t, StaticType::Function),
        _ => panic!("a function is no constant"),
    }
    assert!(module.get_constant(&Item::with_item(&["F"])).is_none());
    // Nested values convert as a whole.
    let r = module.constant(
        &["SOME"],
        Value::Option(Some(Box::new(Value::String("x".to_string())))),
    );
    assert!(r.is_ok());
    match module.get_constant(&Item::with_item(&["SOME"])) {
        Some(ConstValue::Option(Some(inner))) => {
            assert!(matches!(&**inner, ConstValue::String(s) if s == "x"))
        }
        _ => panic!("nested option constant"),
    }
    let r = module.constant(&["BAD"], Value::Option(Some(Box::new(Value::Any("T".to_string())))));
    assert!(matches!(
        r,
        Err(ContextError::ValueError { error: VmError::ConstNotSupported { actual_type: TypeInfo::Any(ref n) } })
            if n == "T"
    ));
}

struct Failing;

impl rune::runtime::ToValue for Failing {
    fn spec_to_value(self) -> Result<Value, VmError> {
        self.to_value()
    }

    fn to_value(self) -> Result<Value, VmError> {
        Err(VmError::Panic { reason: "no".to_string() })
    }
}

#[test]
fn constant_whose_value_fails_is_refused() {
    let mut module = TestModule::new();
    assert!(matches!(
        module.constant(&["X"], Failing),
        Err(ContextError::ValueError { error: VmError::Panic { .. } })
    ));
    assert!(module.get_constant(&Item::with_item(&["X"])).is_none());
    // A name that is taken is refused before the value is converted.
    assert!(module.constant(&["X"], true).is_ok());
    assert!(matches!(
        module.constant(&["X"], Failing),
        Err(ContextError::ConflictingConstantName { .. })
    ));
}

#[test]
fn types_register_and_conflict() {
    let mut module = TestModule::new();
    assert!(module.ty::<MyBytes>().is_ok());
    assert_eq!(module.get_type(MyBytes::type_hash()).unwrap().name, "MyBytes");
    match module.ty::<Impostor>() {
        Err(ContextError::ConflictingType { item, existing }) => {
            assert!(item.eq_item(&Item::with_item(&["Impostor"])));
            assert!(matches!(existing, TypeInfo::Any(ref n) if n == "MyBytes"));
        }
        _ => panic!("the hash was taken"),
    }
    // The later registration took the place of the earlier one.
    assert_eq!(module.get_type(MyBytes::type_hash()).unwrap().name, "Impostor");
    assert!(module.get_type(rune::hash::Hash(1)).is_none());
}

#[test]
fn instance_functions_register_and_conflict() {
    let mut module = TestModule::new();
    assert!(module.ty::<MyBytes>().is_ok());
    assert!(module.inst_fn("len", len()).is_ok());
    match module.inst_fn("len", len()) {
        Err(ContextError::ConflictingInstanceFunction { type_info, name }) => {
            assert_eq!(name, "len");
            assert!(matches!(type_info, TypeInfo::Any(ref n) if n == "MyBytes"));
        }
        _ => panic!("the instance function was taken"),
    }
    assert!(matches!(
        module.async_inst_fn("len", AsyncLen),
        Err(ContextError::ConflictingInstanceFunction { .. })
    ));
    let key = ModuleAssocKey {
        type_hash: MyBytes::type_hash(),
        hash: rune::hash::Hash::of_str("len"),
        kind: ModuleAssociatedKind::Instance,
    };
    let f = module.get_associated_function(&key).unwrap();
    assert_eq!(f.name, "len");
    assert_eq!(f.args, Some(1));
    assert_eq!(module.associated_function_count(), 1);
}

#[test]
fn field_functions_are_keyed_by_protocol() {
    let get = Protocol { name: "get", hash: rune::hash::Hash(0x10) };
    let set = Protocol { name: "set", hash: rune::hash::Hash(0x20) };
    let mut module = TestModule::new();
    assert!(module.inst_fn("len", len()).is_ok());
    assert!(module.field_fn(get, "len", len()).is_ok());
    assert!(module.field_fn(set, "len", len()).is_ok());
    assert!(matches!(
        module.field_fn(get, "len", len()),
        Err(ContextError::ConflictingInstanceFunction { .. })
    ));
    // A protocol counts by its hash.
    let get_again = Protocol { name: "other name", hash: rune::hash::Hash(0x10) };
    assert!(matches!(
        module.field_fn(get_again, "len", len()),
        Err(ContextError::ConflictingInstanceFunction { .. })
    ));
    assert_eq!(module.associated_function_count(), 3);
}

#[test]
fn async_instance_function_registers() {
    let mut module = TestModule::new();
    assert!(module.ty::<MyBytes>().is_ok());
    assert!(module.async_inst_fn("test", AsyncLen).is_ok());
    assert_eq!(module.associated_function_count(), 1);
}

#[test]
fn registrations_under_distinct_names_commute() {
    let mut a = TestModule::new();
    assert!(a.function(&["x"], Native1::new(add_ten)).is_ok());
    assert!(a.function(&["y"], Native0::new(empty)).is_ok());
    let mut b = TestModule::new();
    assert!(b.function(&["y"], Native0::new(empty)).is_ok());
    assert!(b.function(&["x"], Native1::new(add_ten)).is_ok());
    for name in ["x", "y"] {
        let item = Item::with_item(&[name]);
        assert_eq!(a.get_function(&item).unwrap().args, b.get_function(&item).unwrap().args);
    }
    assert_eq!(a.function_count(), b.function_count());
}

#[test]
fn plain_functions_register_and_follow_the_calling_convention() {
    let mut module = TestModule::default();
    assert!(module.function(&["add_ten"], Native1::new(add_ten)).is_ok());
    assert!(module.function(&["empty"], Native0::new(empty)).is_ok());
    assert!(module.function(&["string"], Native1::new(|_a: String| ())).is_ok());
    assert!(module.function(&["add"], Native2::new(|a: i64, b: i64| a - b)).is_ok());
    let add_ten = &module.get_function(&Item::with_item(&["add_ten"])).unwrap().handler;

    let mut stack = Stack::new();
    stack.push(Value::Unit);
    stack.push(Value::Integer(32));
    assert!(add_ten(&mut stack, 1).is_ok());
    assert_eq!(stack.len(), 2);
    assert!(matches!(stack.pop(), Some(Value::Integer(42))));

    // A wrong argument count is refused before the stack is touched.
    stack.push(Value::Integer(1));
    assert!(matches!(
        add_ten(&mut stack, 2),
        Err(VmError::BadArgumentCount { actual: 2, expected: 1 })
    ));
    assert_eq!(stack.len(), 2);

    // An argument of the wrong type is refused, and the arguments are gone.
    stack.push(Value::Bool(true));
    match add_ten(&mut stack, 1) {
        Err(VmError::BadArgument { arg: 0, error }) => assert!(matches!(
            *error,
            VmError::Expected {
                expected: TypeInfo::StaticType(StaticType::Integer),
                actual: TypeInfo::StaticType(StaticType::Bool),
            }
        )),
        _ => panic!("the argument is no integer"),
    }
    assert_eq!(stack.len(), 2);

    // Too few values on the stack.
    let mut short = Stack::new();
    assert!(matches!(add_ten(&mut short, 1), Err(VmError::StackOutOfBounds)));

    // Arguments are taken oldest first.
    let add = &module.get_function(&Item::with_item(&["add"])).unwrap().handler;
    let mut stack = Stack::new();
    stack.push(Value::Integer(50));
    stack.push(Value::Integer(8));
    assert!(add(&mut stack, 2).is_ok());
    assert!(matches!(stack.pop(), Some(Value::Integer(42))));
    assert_eq!(stack.len(), 0);

    // The second argument is numbered 1.
    stack.push(Value::Integer(50));
    stack.push(Value::Unit);
    assert!(matches!(add(&mut stack, 2), Err(VmError::BadArgument { arg: 1, .. })));

    let empty = &module.get_function(&Item::with_item(&["empty"])).unwrap().handler;
    assert!(empty(&mut stack, 0).is_ok());
    assert!(matches!(stack.pop(), Some(Value::Unit)));
    assert_eq!(module.get_function(&Item::with_item(&["string"])).unwrap().args, Some(1));
    assert_eq!(module.get_function(&Item::with_item(&["add"])).unwrap().args, Some(2));
}

#[test]
fn instance_functions_take_the_instance_first() {
    let mut module = TestModule::new();
    assert!(module.ty::<MyBytes>().is_ok());
    assert!(module.inst_fn("len", len()).is_ok());
    let push = InstNative1::new(|this: MyBytes, s: String| this.queue.len() as i64 + s.len() as i64);
    assert!(module.inst_fn("push", push).is_ok());
    let key = |name: &str| ModuleAssocKey {
        type_hash: MyBytes::type_hash(),
        hash: rune::hash::Hash::of_str(name),
        kind: ModuleAssociatedKind::Instance,
    };
    let len = module.get_associated_function(&key("len")).unwrap();
    assert_eq!(len.args, Some(1));
    let mut stack = Stack::new();
    stack.push(Value::Any("MyBytes".to_string()));
    assert!((len.handler)(&mut stack, 1).is_ok());
    assert!(matches!(stack.pop(), Some(Value::Integer(2))));

    let push = module.get_associated_function(&key("push")).unwrap();
    assert_eq!(push.args, Some(2));
    stack.push(Value::Any("MyBytes".to_string()));
    stack.push(Value::String("abc".to_string()));
    assert!((push.handler)(&mut stack, 2).is_ok());
    assert!(matches!(stack.pop(), Some(Value::Integer(5))));

    // The instance is argument 0.
    stack.push(Value::Integer(1));
    stack.push(Value::String("abc".to_string()));
    assert!(matches!((push.handler)(&mut stack, 2), Err(VmError::BadArgument { arg: 0, .. })));
    assert_eq!(stack.len(), 0);
}

#[test]
fn type_hook_runs_after_the_type_is_registered() {
    let mut module = TestModule::new();
    assert!(module.ty::<WithHelper>().is_ok());
    assert_eq!(module.get_type(WithHelper::type_hash()).unwrap().name, "WithHelper");
    assert!(module.get_function(&Item::with_item(&["WithHelper", "helper"])).is_some());

    // The hook's error is returned as it is, and the type stays registered.
    let mut module = TestModule::new();
    assert!(module.function(&["WithHelper", "helper"], Native1::new(add_ten)).is_ok());
    match module.ty::<WithHelper>() {
        Err(ContextError::ConflictingFunctionName { name }) => {
            assert!(name.eq_item(&Item::with_item(&["WithHelper", "helper"])));
        }
        _ => panic!("the hook's registration conflicts"),
    }
    assert!(module.get_type(WithHelper::type_hash()).is_some());
    assert_eq!(
        module.get_function(&Item::with_item(&["WithHelper", "helper"])).unwrap().args,
        Some(1)
    );
}

#[test]
fn instance_and_field_functions_of_one_name_do_not_conflict() {
    let get = Protocol { name: "get", hash: rune::hash::Hash(0x10) };
    let mut module = TestModule::new();
    assert!(module.inst_fn("len", len()).is_ok());
    assert!(module.field_fn(get, "len", len()).is_ok());
    assert_eq!(module.associated_function_count(), 2);
    // An asynchronous instance function shares the instance functions' keys.
    match module.async_inst_fn("len", AsyncLen) {
        Err(ContextError::ConflictingInstanceFunction { type_info, name }) => {
            assert_eq!(name, "len");
            assert!(matches!(type_info, TypeInfo::Any(ref n) if n == "MyBytes"));
        }
        _ => panic!("the key is taken"),
    }
    assert_eq!(module.associated_function_count(), 2);
}

#[test]
fn registered_handlers_call_what_was_registered() {
    let mut module = TestModule::new();
    assert!(module.function(&["add_ten"], Native1::new(add_ten)).is_ok());
    assert!(module
        .raw_fn(&["count"], |stack: &mut Stack, args: usize| {
            stack.push(Value::Integer(args as i64));
            Ok(())
        })
        .is_ok());
    let add_ten = &module.get_function(&Item::with_item(&["add_ten"])).unwrap().handler;
    let mut stack = Stack::new();
    stack.push(Value::Integer(1));
    assert!(matches!(
        ArcHandlers::call(add_ten, &mut stack, 0),
        Err(VmError::BadArgumentCount { actual: 0, expected: 1 })
    ));
    assert!(ArcHandlers::call(add_ten, &mut stack, 1).is_ok());
    assert!(matches!(stack.pop(), Some(Value::Integer(11))));
    // A raw function gets the stack and the argument count as they are.
    let count = &module.get_function(&Item::with_item(&["count"])).unwrap().handler;
    assert!(ArcHandlers::call(count, &mut stack, 7).is_ok());
    assert!(matches!(stack.pop(), Some(Value::Integer(7))));

    assert!(module.macro_(&["same"], identity_macro).is_ok());
    let same = &module.get_macro(&Item::with_item(&["same"])).unwrap().handler;
    let mut ctx = MacroContext { macro_span: rune::ast::Span { start: 0, end: 4 } };
    let input = TokenStream { tokens: Vec::new() };
    assert!(ArcHandlers::call_macro(same, &mut ctx, &input).unwrap().tokens.is_empty());
}
