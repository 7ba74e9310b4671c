//! Native modules: collections of functions, macros, constants and types that
//! native code provides to scripts.

use crate::assoc::{AssocList, KeyEq};
use crate::ast::ParseError;
use crate::hash::{spec_field_fn, spec_instance_function, spec_str_hash, Protocol};
use crate::item::{spec_with_item, ComponentView, Item};
use crate::macros::{MacroContext, TokenStream};
use crate::runtime::{
    spec_const_from_value, ConstValue, Stack, StaticType, ToValue, TypeCheck, TypeInfo, TypeInfoView, Value,
    VmError,
};
use std::collections::HashMap;
use vstd::prelude::*;
use vstd::string::StringSliceAdditionalSpecFns;

verus! {

/// A function that can be called from the virtual machine.
pub trait Function<Args>: 'static + Send + Sync {
    /// The return type of the function.
    type Return;

    /// The number of arguments the function takes.
    spec fn spec_args() -> usize;

    /// The number of arguments the function takes.
    fn args() -> (n: usize)
        ensures
            n == Self::spec_args(),
    ;

    /// What a call with `args` arguments does: it takes the stack `old` to
    /// `new` and returns `r`.
    spec fn spec_call(&self, old: Seq<Value>, args: usize, new: Seq<Value>, r: Result<(), VmError>) -> bool;

    /// Call the function with `args` arguments taken from the top of `stack`,
    /// leaving its result there.
    fn fn_call(&self, stack: &mut Stack, args: usize) -> (r: Result<(), VmError>)
        ensures
            self.spec_call(old(stack)@, args, final(stack)@, r),
    ;
}

/// An asynchronous function that can be called from the virtual machine.
pub trait AsyncFunction<Args>: 'static + Send + Sync {
    /// The return type of the function.
    type Return;

    /// The number of arguments the function takes.
    spec fn spec_args() -> usize;

    /// The number of arguments the function takes.
    fn args() -> (n: usize)
        ensures
            n == Self::spec_args(),
    ;

    /// What a call with `args` arguments does: it takes the stack `old` to
    /// `new` and returns `r`.
    spec fn spec_call(&self, old: Seq<Value>, args: usize, new: Seq<Value>, r: Result<(), VmError>) -> bool;

    /// Call the function with `args` arguments taken from the top of `stack`,
    /// leaving its result there.
    fn fn_call(&self, stack: &mut Stack, args: usize) -> (r: Result<(), VmError>)
        ensures
            self.spec_call(old(stack)@, args, final(stack)@, r),
    ;
}

/// An instance function: one whose first argument is a value of the type it
/// belongs to.
pub trait InstFn<Args>: 'static + Send + Sync {
    /// The type of the instance.
    type Instance;

    /// The return type of the function.
    type Return;

    /// The number of arguments the function takes, the instance included.
    spec fn spec_args() -> usize;

    /// The hash of the instance type.
    spec fn spec_instance_type_hash() -> crate::hash::Hash;

    /// Information on the instance type.
    spec fn spec_instance_type_info() -> TypeInfoView;

    /// The number of arguments the function takes, the instance included.
    fn args() -> (n: usize)
        ensures
            n == Self::spec_args(),
    ;

    /// The hash of the instance type.
    fn instance_type_hash() -> (h: crate::hash::Hash)
        ensures
            h == Self::spec_instance_type_hash(),
    ;

    /// Information on the instance type.
    fn instance_type_info() -> (info: TypeInfo)
        ensures
            info@ == Self::spec_instance_type_info(),
    ;

    /// What a call with `args` arguments does: it takes the stack `old` to
    /// `new` and returns `r`.
    spec fn spec_call(&self, old: Seq<Value>, args: usize, new: Seq<Value>, r: Result<(), VmError>) -> bool;

    /// Call the function with `args` arguments taken from the top of `stack`,
    /// leaving its result there.
    fn fn_call(&self, stack: &mut Stack, args: usize) -> (r: Result<(), VmError>)
        ensures
            self.spec_call(old(stack)@, args, final(stack)@, r),
    ;
}

/// An asynchronous instance function.
pub trait AsyncInstFn<Args>: 'static + Send + Sync {
    /// The type of the instance.
    type Instance;

    /// The return type of the function.
    type Return;

    /// The number of arguments the function takes, the instance included.
    spec fn spec_args() -> usize;

    /// The hash of the instance type.
    spec fn spec_instance_type_hash() -> crate::hash::Hash;

    /// Information on the instance type.
    spec fn spec_instance_type_info() -> TypeInfoView;

    /// The number of arguments the function takes, the instance included.
    fn args() -> (n: usize)
        ensures
            n == Self::spec_args(),
    ;

    /// The hash of the instance type.
    fn instance_type_hash() -> (h: crate::hash::Hash)
        ensures
            h == Self::spec_instance_type_hash(),
    ;

    /// Information on the instance type.
    fn instance_type_info() -> (info: TypeInfo)
        ensures
            info@ == Self::spec_instance_type_info(),
    ;

    /// What a call with `args` arguments does: it takes the stack `old` to
    /// `new` and returns `r`.
    spec fn spec_call(&self, old: Seq<Value>, args: usize, new: Seq<Value>, r: Result<(), VmError>) -> bool;

    /// Call the function with `args` arguments taken from the top of `stack`,
    /// leaving its result there.
    fn fn_call(&self, stack: &mut Stack, args: usize) -> (r: Result<(), VmError>)
        ensures
            self.spec_call(old(stack)@, args, final(stack)@, r),
    ;
}

/// How an embedding of the virtual machine turns the callables registered in
/// a module into the handlers the module stores, and calls them. Each handler
/// is a function of the callable it is made from, and calling it is calling
/// that callable.
pub trait Handlers {
    /// The handler of a function.
    type Function;

    /// The handler of a macro.
    type Macro;

    /// What calling the function handler `h` with `args` arguments does: it
    /// takes the stack `old` to `new` and returns `r`.
    spec fn spec_handler_call(
        h: Self::Function,
        old: Seq<Value>,
        args: usize,
        new: Seq<Value>,
        r: Result<(), VmError>,
    ) -> bool;

    /// What calling the macro handler `h` on `input` does: it takes the
    /// context `old` to `new` and returns `r`.
    spec fn spec_macro_call(
        h: Self::Macro,
        old: MacroContext,
        input: TokenStream,
        new: MacroContext,
        r: Result<TokenStream, ParseError>,
    ) -> bool;

    /// Call the function handler `h` with `args` arguments on `stack`.
    fn call(h: &Self::Function, stack: &mut Stack, args: usize) -> (r: Result<(), VmError>)
        ensures
            Self::spec_handler_call(*h, old(stack)@, args, final(stack)@, r),
    ;

    /// Call the macro handler `h` on `input` in the context `ctx`.
    fn call_macro(h: &Self::Macro, ctx: &mut MacroContext, input: &TokenStream) -> (r: Result<
        TokenStream,
        ParseError,
    >)
        ensures
            Self::spec_macro_call(*h, *old(ctx), *input, *final(ctx), r),
    ;

    /// The handler made of a function.
    spec fn spec_function<Func: Function<Args>, Args>(f: Func) -> Self::Function;

    /// The handler made of an asynchronous function.
    spec fn spec_async_function<Func: AsyncFunction<Args>, Args>(f: Func) -> Self::Function;

    /// The handler made of an instance function.
    spec fn spec_inst_fn<Func: InstFn<Args>, Args>(f: Func) -> Self::Function;

    /// The handler made of an asynchronous instance function.
    spec fn spec_async_inst_fn<Func: AsyncInstFn<Args>, Args>(f: Func) -> Self::Function;

    /// The handler made of a function that works on the stack directly.
    spec fn spec_raw_fn<F>(f: F) -> Self::Function where
        F: 'static + Fn(&mut Stack, usize) -> Result<(), VmError> + Send + Sync,
    ;

    /// The handler made of a macro.
    spec fn spec_macro<M>(m: M) -> Self::Macro where
        M: 'static + Send + Sync + Fn(&mut MacroContext, &TokenStream) -> Result<
            TokenStream,
            ParseError,
        >,
    ;

    /// The handler of a function.
    fn function<Func: Function<Args>, Args>(f: Func) -> (h: Self::Function)
        ensures
            h == Self::spec_function(f),
            forall|old: Seq<Value>, args: usize, new: Seq<Value>, r: Result<(), VmError>|
                #[trigger] Self::spec_handler_call(h, old, args, new, r) ==> f.spec_call(
                    old,
                    args,
                    new,
                    r,
                ),
    ;

    /// The handler of an asynchronous function.
    fn async_function<Func: AsyncFunction<Args>, Args>(f: Func) -> (h: Self::Function)
        ensures
            h == Self::spec_async_function(f),
            forall|old: Seq<Value>, args: usize, new: Seq<Value>, r: Result<(), VmError>|
                #[trigger] Self::spec_handler_call(h, old, args, new, r) ==> f.spec_call(
                    old,
                    args,
                    new,
                    r,
                ),
    ;

    /// The handler of an instance function.
    fn inst_fn<Func: InstFn<Args>, Args>(f: Func) -> (h: Self::Function)
        ensures
            h == Self::spec_inst_fn(f),
            forall|old: Seq<Value>, args: usize, new: Seq<Value>, r: Result<(), VmError>|
                #[trigger] Self::spec_handler_call(h, old, args, new, r) ==> f.spec_call(
                    old,
                    args,
                    new,
                    r,
                ),
    ;

    /// The handler of an asynchronous instance function.
    fn async_inst_fn<Func: AsyncInstFn<Args>, Args>(f: Func) -> (h: Self::Function)
        ensures
            h == Self::spec_async_inst_fn(f),
            forall|old: Seq<Value>, args: usize, new: Seq<Value>, r: Result<(), VmError>|
                #[trigger] Self::spec_handler_call(h, old, args, new, r) ==> f.spec_call(
                    old,
                    args,
                    new,
                    r,
                ),
    ;

    /// The handler of a function that works on the stack directly.
    fn raw_fn<F>(f: F) -> (h: Self::Function) where
        F: 'static + Fn(&mut Stack, usize) -> Result<(), VmError> + Send + Sync,
        ensures
            h == Self::spec_raw_fn(f),
            forall|old: Seq<Value>, args: usize, new: Seq<Value>, r: Result<(), VmError>|
                #[trigger] Self::spec_handler_call(h, old, args, new, r) ==> exists|
                    stack: &mut Stack,
                |
                    (*stack)@ == old && (*final(stack))@ == new && call_ensures(f, (stack, args), r),
    ;

    /// The handler of a macro.
    fn macro_<M>(m: M) -> (h: Self::Macro) where
        M: 'static + Send + Sync + Fn(&mut MacroContext, &TokenStream) -> Result<
            TokenStream,
            ParseError,
        >,
        ensures
            h == Self::spec_macro(m),
            forall|
                old: MacroContext,
                input: TokenStream,
                new: MacroContext,
                r: Result<TokenStream, ParseError>,
            |
                #[trigger] Self::spec_macro_call(h, old, input, new, r) ==> exists|
                    ctx: &mut MacroContext,
                |
                    *ctx == old && *final(ctx) == new && call_ensures(m, (ctx, &input), r),
    ;
}

/// Calling the handler that `H` makes of a function `f` is calling `f`:
/// whatever a call of the handler does, a call of `f` does.
pub open spec fn spec_calls_function<H: Handlers, Func: Function<Args>, Args>(f: Func) -> bool {
    forall|old: Seq<Value>, args: usize, new: Seq<Value>, r: Result<(), VmError>|
        #[trigger] H::spec_handler_call(H::spec_function(f), old, args, new, r) ==> f.spec_call(
            old,
            args,
            new,
            r,
        )
}

/// Calling the handler that `H` makes of an asynchronous function `f` is calling `f`:
/// whatever a call of the handler does, a call of `f` does.
pub open spec fn spec_calls_async_function<H: Handlers, Func: AsyncFunction<Args>, Args>(f: Func) -> bool {
    forall|old: Seq<Value>, args: usize, new: Seq<Value>, r: Result<(), VmError>|
        #[trigger] H::spec_handler_call(H::spec_async_function(f), old, args, new, r) ==> f.spec_call(
            old,
            args,
            new,
            r,
        )
}

/// Calling the handler that `H` makes of an instance function `f` is calling `f`:
/// whatever a call of the handler does, a call of `f` does.
pub open spec fn spec_calls_inst_fn<H: Handlers, Func: InstFn<Args>, Args>(f: Func) -> bool {
    forall|old: Seq<Value>, args: usize, new: Seq<Value>, r: Result<(), VmError>|
        #[trigger] H::spec_handler_call(H::spec_inst_fn(f), old, args, new, r) ==> f.spec_call(
            old,
            args,
            new,
            r,
        )
}

/// Calling the handler that `H` makes of an asynchronous instance function `f` is calling `f`:
/// whatever a call of the handler does, a call of `f` does.
pub open spec fn spec_calls_async_inst_fn<H: Handlers, Func: AsyncInstFn<Args>, Args>(f: Func) -> bool {
    forall|old: Seq<Value>, args: usize, new: Seq<Value>, r: Result<(), VmError>|
        #[trigger] H::spec_handler_call(H::spec_async_inst_fn(f), old, args, new, r) ==> f.spec_call(
            old,
            args,
            new,
            r,
        )
}

/// A type with a name by which scripts refer to it.
pub trait Named {
    /// The full name of the type.
    spec fn spec_full_name() -> Seq<char>;

    /// The full name of the type.
    fn full_name() -> (name: String)
        ensures
            name@ == Self::spec_full_name(),
    ;
}

/// A type with an identity in the virtual machine.
pub trait TypeOf {
    /// The hash of the type.
    spec fn spec_type_hash() -> crate::hash::Hash;

    /// Information on the type.
    spec fn spec_type_info() -> TypeInfoView;

    /// The hash of the type.
    fn type_hash() -> (h: crate::hash::Hash)
        ensures
            h == Self::spec_type_hash(),
    ;

    /// Information on the type.
    fn type_info() -> (info: TypeInfo)
        ensures
            info@ == Self::spec_type_info(),
    ;
}

/// A hook to install what goes with a type into the module that registers
/// it. Installing only adds: every name, key and hash taken before stays
/// taken. A type that installs nothing keeps the statement `spec_install` as
/// it is, and its `install_with` returns `Ok(())` and leaves the module as it
/// is.
pub trait InstallWith {
    /// What installing does: the module `old` becomes `new`, and the hook
    /// returns `r`. Unless a type says otherwise, nothing is installed.
    open spec fn spec_install<H: Handlers>(
        old: ModuleView<H::Function, H::Macro>,
        new: ModuleView<H::Function, H::Macro>,
        r: Result<(), ContextError>,
    ) -> bool {
        r is Ok && new == old
    }

    /// Install more things into the module.
    fn install_with<H: Handlers>(module: &mut Module<H>) -> (r: Result<(), ContextError>)
        requires
            old(module).wf(),
        ensures
            final(module).wf(),
            old(module)@.functions.dom().subset_of(final(module)@.functions.dom()),
            old(module)@.macros.dom().subset_of(final(module)@.macros.dom()),
            old(module)@.constants.dom().subset_of(final(module)@.constants.dom()),
            old(module)@.associated_functions.dom().subset_of(
                final(module)@.associated_functions.dom(),
            ),
            old(module)@.types.dom().subset_of(final(module)@.types.dom()),
            Self::spec_install::<H>(old(module)@, final(module)@, r),
    ;
}

/// An error raised while registering something in a module.
#[derive(Debug)]
#[allow(inconsistent_fields)]
pub enum ContextError {
    /// A type was registered under a hash that was already taken.
    ConflictingType { item: Item, existing: TypeInfo },
    /// A unit type was already registered.
    UnitAlreadyPresent,
    /// A function or macro was registered under a name that was already taken.
    ConflictingFunctionName { name: Item },
    /// A constant was registered under a name that was already taken.
    ConflictingConstantName { name: Item },
    /// A value could not be turned into a constant.
    ValueError { error: VmError },
    /// An instance function was registered under a key that was already taken.
    ConflictingInstanceFunction { type_info: TypeInfo, name: String },
}

/// The constructor of a variant of an internal enum.
#[derive(Debug, Clone, Copy, PartialEq, Eq, Structural)]
pub enum VariantConstructor {
    /// `Option::Some`.
    OptionSome,
    /// `Option::None`.
    OptionNone,
    /// `Result::Ok`.
    ResultOk,
    /// `Result::Err`.
    ResultErr,
    /// `GeneratorState::Complete`.
    Complete,
    /// `GeneratorState::Yielded`.
    Yielded,
}

impl VariantConstructor {
    /// The number of arguments the constructor takes.
    pub open spec fn spec_args(self) -> usize {
        match self {
            VariantConstructor::OptionNone => 0,
            _ => 1,
        }
    }

    /// The type of the values the constructor makes.
    pub open spec fn spec_return_type(self) -> StaticType {
        match self {
            VariantConstructor::OptionSome | VariantConstructor::OptionNone => StaticType::Option,
            VariantConstructor::ResultOk | VariantConstructor::ResultErr => StaticType::Result,
            VariantConstructor::Complete | VariantConstructor::Yielded => StaticType::GeneratorState,
        }
    }

    /// The value the constructor makes of the arguments `args`.
    pub open spec fn spec_construct(self, args: Seq<Value>) -> Value {
        match self {
            VariantConstructor::OptionSome => Value::Option(Some(Box::new(args[0]))),
            VariantConstructor::OptionNone => Value::Option(None),
            VariantConstructor::ResultOk => Value::Result(Ok(Box::new(args[0]))),
            VariantConstructor::ResultErr => Value::Result(Err(Box::new(args[0]))),
            VariantConstructor::Complete => Value::GeneratorState(
                Box::new(crate::runtime::GeneratorState::Complete(args[0])),
            ),
            VariantConstructor::Yielded => Value::GeneratorState(
                Box::new(crate::runtime::GeneratorState::Yielded(args[0])),
            ),
        }
    }

    /// The number of arguments the constructor takes.
    pub fn args(self) -> (n: usize)
        ensures
            n == self.spec_args(),
    {
        match self {
            VariantConstructor::OptionNone => 0,
            _ => 1,
        }
    }

    /// The type of the values the constructor makes.
    pub fn return_type(self) -> (t: StaticType)
        ensures
            t == self.spec_return_type(),
    {
        match self {
            VariantConstructor::OptionSome | VariantConstructor::OptionNone => StaticType::Option,
            VariantConstructor::ResultOk | VariantConstructor::ResultErr => StaticType::Result,
            VariantConstructor::Complete | VariantConstructor::Yielded => StaticType::GeneratorState,
        }
    }

    /// Call the constructor from the virtual machine: check the argument count,
    /// take the arguments from the top of the stack and push the value made of
    /// them.
    pub fn fn_call(&self, stack: &mut Stack, args: usize) -> (r: Result<(), VmError>)
        ensures
            args != self.spec_args() ==> (r matches Err(VmError::BadArgumentCount { actual, expected })
                && actual == args && expected == self.spec_args() && final(stack)@ == old(stack)@),
            args == self.spec_args() && args > old(stack)@.len() ==> (r matches Err(
                VmError::StackOutOfBounds,
            ) && final(stack)@ == old(stack)@),
            args == self.spec_args() && args <= old(stack)@.len() ==> (r is Ok && final(stack)@
                == old(stack)@.take(old(stack)@.len() - args).push(
                self.spec_construct(old(stack)@.skip(old(stack)@.len() - args)),
            )),
    {
        let expected = self.args();
        if args != expected {
            return Err(VmError::BadArgumentCount { actual: args, expected });
        }
        let mut values = match stack.drain(expected) {
            Ok(values) => values,
            Err(e) => {
                return Err(e);
            },
        };
        let ghost taken = values@;
        let value = match self {
            VariantConstructor::OptionNone => Value::Option(None),
            VariantConstructor::OptionSome => {
                let v = values.pop().unwrap();
                Value::Option(Some(Box::new(v)))
            },
            VariantConstructor::ResultOk => {
                let v = values.pop().unwrap();
                Value::Result(Ok(Box::new(v)))
            },
            VariantConstructor::ResultErr => {
                let v = values.pop().unwrap();
                Value::Result(Err(Box::new(v)))
            },
            VariantConstructor::Complete => {
                let v = values.pop().unwrap();
                Value::GeneratorState(Box::new(crate::runtime::GeneratorState::Complete(v)))
            },
            VariantConstructor::Yielded => {
                let v = values.pop().unwrap();
                Value::GeneratorState(Box::new(crate::runtime::GeneratorState::Yielded(v)))
            },
        };
        assert(value == self.spec_construct(taken));
        stack.push(value);
        Ok(())
    }
}

/// A variant of an internal enum.
#[derive(Debug, Clone, Copy)]
pub struct ModuleInternalVariant {
    /// The name of the variant.
    pub name: &'static str,
    /// How the virtual machine checks a value for the variant.
    pub type_check: TypeCheck,
    /// The number of arguments of the variant's constructor.
    pub args: usize,
    /// The constructor of the variant.
    pub constructor: VariantConstructor,
    /// The hash of the type the variant's values have.
    pub type_hash: crate::hash::Hash,
}

/// The variant that `constructor` makes, as registered by
/// [`ModuleInternalEnum::variant`].
pub open spec fn spec_variant(
    name: &'static str,
    type_check: TypeCheck,
    constructor: VariantConstructor,
) -> ModuleInternalVariant {
    ModuleInternalVariant {
        name,
        type_check,
        args: constructor.spec_args(),
        constructor,
        type_hash: constructor.spec_return_type().spec_hash(),
    }
}

/// An enum of the virtual machine, such as `Option`, registered under an item
/// of the module.
#[derive(Debug)]
pub struct ModuleInternalEnum {
    /// The name of the enum.
    pub name: &'static str,
    /// The item the enum is registered under.
    pub base_type: Item,
    /// The static type of the enum.
    pub static_type: StaticType,
    /// The variants of the enum.
    pub variants: Vec<ModuleInternalVariant>,
}

/// The abstract value of an internal enum.
pub struct InternalEnumView {
    pub name: &'static str,
    pub base_type: Seq<ComponentView>,
    pub static_type: StaticType,
    pub variants: Seq<ModuleInternalVariant>,
}

impl View for ModuleInternalEnum {
    type V = InternalEnumView;

    open spec fn view(&self) -> InternalEnumView {
        InternalEnumView {
            name: self.name,
            base_type: self.base_type@,
            static_type: self.static_type,
            variants: self.variants@,
        }
    }
}

impl ModuleInternalEnum {
    /// An internal enum without variants yet.
    pub fn new(name: &'static str, base_type: &[&str], static_type: StaticType) -> (e: Self)
        ensures
            e@ == (InternalEnumView {
                name,
                base_type: spec_with_item(base_type@),
                static_type,
                variants: Seq::empty(),
            }),
    {
        ModuleInternalEnum {
            name,
            base_type: Item::with_item(base_type),
            static_type,
            variants: Vec::new(),
        }
    }

    /// Register a variant.
    pub fn variant(&mut self, name: &'static str, type_check: TypeCheck, constructor: VariantConstructor)
        ensures
            final(self)@ == (InternalEnumView {
                variants: old(self)@.variants.push(spec_variant(name, type_check, constructor)),
                ..old(self)@
            }),
    {
        let args = constructor.args();
        let type_hash = constructor.return_type().hash();
        self.variants.push(ModuleInternalVariant { name, type_check, args, constructor, type_hash });
    }
}

/// The kinds of functions associated with a type.
#[derive(Debug, Clone, Copy)]
pub enum ModuleAssociatedKind {
    /// A handler of a protocol for a field.
    FieldFn(Protocol),
    /// An instance function.
    Instance,
}

impl ModuleAssociatedKind {
    /// The hash under which a function of this kind is found.
    pub open spec fn spec_hash(self, instance_type: crate::hash::Hash, field: crate::hash::Hash) -> crate::hash::Hash {
        match self {
            ModuleAssociatedKind::FieldFn(protocol) => spec_field_fn(protocol, instance_type, field),
            ModuleAssociatedKind::Instance => spec_instance_function(instance_type, field),
        }
    }

    /// Convert the kind into a hash function.
    pub fn hash(self, instance_type: crate::hash::Hash, field: crate::hash::Hash) -> (h: crate::hash::Hash)
        ensures
            h == self.spec_hash(instance_type, field),
    {
        match self {
            ModuleAssociatedKind::FieldFn(protocol) => crate::hash::Hash::field_fn(
                protocol,
                instance_type,
                field,
            ),
            ModuleAssociatedKind::Instance => crate::hash::Hash::instance_function(
                instance_type,
                field,
            ),
        }
    }

    /// The protocol hash of the kind, none for instance functions.
    pub open spec fn spec_protocol(self) -> Option<u64> {
        match self {
            ModuleAssociatedKind::FieldFn(protocol) => Some(protocol.hash.0),
            ModuleAssociatedKind::Instance => None,
        }
    }
}

/// The key of a function associated with a type.
#[derive(Debug, Clone, Copy)]
pub struct ModuleAssocKey {
    /// The hash of the type.
    pub type_hash: crate::hash::Hash,
    /// The hash of the function's name.
    pub hash: crate::hash::Hash,
    /// The kind of the function.
    pub kind: ModuleAssociatedKind,
}

/// The abstract value of a key: protocols count by their hash.
pub struct AssocKeyView {
    pub type_hash: u64,
    pub hash: u64,
    pub protocol: Option<u64>,
}

impl View for ModuleAssocKey {
    type V = AssocKeyView;

    open spec fn view(&self) -> AssocKeyView {
        AssocKeyView {
            type_hash: self.type_hash.0,
            hash: self.hash.0,
            protocol: self.kind.spec_protocol(),
        }
    }
}

impl KeyEq for ModuleAssocKey {
    fn key_eq(&self, other: &Self) -> (b: bool) {
        let same_kind = match self.kind {
            ModuleAssociatedKind::FieldFn(p) => match other.kind {
                ModuleAssociatedKind::FieldFn(q) => p.hash.0 == q.hash.0,
                ModuleAssociatedKind::Instance => false,
            },
            ModuleAssociatedKind::Instance => match other.kind {
                ModuleAssociatedKind::FieldFn(_) => false,
                ModuleAssociatedKind::Instance => true,
            },
        };
        self.type_hash.0 == other.type_hash.0 && self.hash.0 == other.hash.0 && same_kind
    }
}

/// A registered free function.
pub struct ModuleFn<F> {
    /// The handler that calls the function.
    pub handler: F,
    /// The number of arguments, if known.
    pub args: Option<usize>,
}

/// A registered macro.
pub struct ModuleMacro<M> {
    /// The handler that expands the macro.
    pub handler: M,
}

/// A registered function associated with a type.
pub struct ModuleAssociatedFn<F> {
    /// The handler that calls the function.
    pub handler: F,
    /// The number of arguments, if known.
    pub args: Option<usize>,
    /// Information on the type.
    pub type_info: TypeInfo,
    /// The name of the function.
    pub name: String,
}

/// A registered type.
#[derive(Debug)]
pub struct ModuleType {
    /// The name of the type.
    pub name: String,
    /// Information on the type.
    pub type_info: TypeInfo,
}

/// The abstract value of a registered type.
pub struct ModuleTypeView {
    /// The name of the type.
    pub name: Seq<char>,
    /// Information on the type.
    pub type_info: TypeInfoView,
}

impl View for ModuleType {
    type V = ModuleTypeView;

    open spec fn view(&self) -> ModuleTypeView {
        ModuleTypeView { name: self.name@, type_info: self.type_info@ }
    }
}

/// The registered unit type.
pub struct ModuleUnitType {
    /// The name of the unit type.
    pub name: String,
}


/// The abstract value of a module.
pub struct ModuleView<F, M> {
    /// The item the module is registered under.
    pub item: Seq<ComponentView>,
    /// Free functions, by item.
    pub functions: Map<Seq<ComponentView>, ModuleFn<F>>,
    /// Macros, by item.
    pub macros: Map<Seq<ComponentView>, ModuleMacro<M>>,
    /// Constants, by item.
    pub constants: Map<Seq<ComponentView>, ConstValue>,
    /// Functions associated with types, by key.
    pub associated_functions: Map<AssocKeyView, ModuleAssociatedFn<F>>,
    /// Types, by the value of their hash.
    pub types: Map<u64, ModuleTypeView>,
    /// The name of the unit type, if one is registered.
    pub unit_type: Option<Seq<char>>,
    /// Internal enums, in the order of registration.
    pub internal_enums: Seq<InternalEnumView>,
}

impl<F, M> ModuleView<F, M> {
    /// A module under `item` with nothing registered.
    pub open spec fn empty(item: Seq<ComponentView>) -> Self {
        ModuleView {
            item,
            functions: Map::empty(),
            macros: Map::empty(),
            constants: Map::empty(),
            associated_functions: Map::empty(),
            types: Map::empty(),
            unit_type: None,
            internal_enums: Seq::empty(),
        }
    }

    /// The module with a free function added.
    pub open spec fn with_function(self, name: Seq<ComponentView>, entry: ModuleFn<F>) -> Self {
        ModuleView { functions: self.functions.insert(name, entry), ..self }
    }

    /// The module with a macro added.
    pub open spec fn with_macro(self, name: Seq<ComponentView>, entry: ModuleMacro<M>) -> Self {
        ModuleView { macros: self.macros.insert(name, entry), ..self }
    }

    /// The module with a constant added.
    pub open spec fn with_constant(self, name: Seq<ComponentView>, value: ConstValue) -> Self {
        ModuleView { constants: self.constants.insert(name, value), ..self }
    }

    /// The module with a function associated with a type added.
    pub open spec fn with_associated_function(
        self,
        key: AssocKeyView,
        entry: ModuleAssociatedFn<F>,
    ) -> Self {
        ModuleView { associated_functions: self.associated_functions.insert(key, entry), ..self }
    }

    /// The module with a type put under a hash.
    pub open spec fn with_type(self, hash: u64, ty: ModuleTypeView) -> Self {
        ModuleView { types: self.types.insert(hash, ty), ..self }
    }

    /// The module with a unit type.
    pub open spec fn with_unit(self, name: Seq<char>) -> Self {
        ModuleView { unit_type: Some(name), ..self }
    }

    /// The module with an internal enum appended.
    pub open spec fn with_internal_enum(self, e: InternalEnumView) -> Self {
        ModuleView { internal_enums: self.internal_enums.push(e), ..self }
    }
}

/// The internal enum that [`Module::option`] registers under `base`.
pub open spec fn spec_option_enum(base: Seq<ComponentView>) -> InternalEnumView {
    InternalEnumView {
        name: "Option",
        base_type: base,
        static_type: StaticType::Option,
        variants: seq![
            spec_variant("Some", TypeCheck::Option(0), VariantConstructor::OptionSome),
            spec_variant("None", TypeCheck::Option(1), VariantConstructor::OptionNone),
        ],
    }
}

/// The internal enum that [`Module::result`] registers under `base`.
pub open spec fn spec_result_enum(base: Seq<ComponentView>) -> InternalEnumView {
    InternalEnumView {
        name: "Result",
        base_type: base,
        static_type: StaticType::Result,
        variants: seq![
            spec_variant("Ok", TypeCheck::Result(0), VariantConstructor::ResultOk),
            spec_variant("Err", TypeCheck::Result(1), VariantConstructor::ResultErr),
        ],
    }
}

/// The internal enum that [`Module::generator_state`] registers under `base`.
pub open spec fn spec_generator_state_enum(base: Seq<ComponentView>) -> InternalEnumView {
    InternalEnumView {
        name: "GeneratorState",
        base_type: base,
        static_type: StaticType::GeneratorState,
        variants: seq![
            spec_variant("Complete", TypeCheck::GeneratorState(0), VariantConstructor::Complete),
            spec_variant("Yielded", TypeCheck::GeneratorState(1), VariantConstructor::Yielded),
        ],
    }
}

/// Registering the free function `entry` under `name` took `old` to `new`
/// with result `r`: refused, and nothing changed, if the name was taken;
/// otherwise added.
pub open spec fn spec_function_registered<F, M>(
    old: ModuleView<F, M>,
    new: ModuleView<F, M>,
    name: Seq<ComponentView>,
    entry: ModuleFn<F>,
    r: Result<(), ContextError>,
) -> bool {
    if old.functions.contains_key(name) {
        &&& new == old
        &&& r matches Err(ContextError::ConflictingFunctionName { name: n }) && n@ == name
    } else {
        &&& r is Ok
        &&& new == old.with_function(name, entry)
    }
}

/// The key under which a function associated with the type of hash
/// `type_hash`, named `name`, of the kind with protocol hash `protocol` is
/// registered.
pub open spec fn spec_assoc_key(type_hash: crate::hash::Hash, name: &str, protocol: Option<u64>) -> AssocKeyView {
    AssocKeyView { type_hash: type_hash.0, hash: spec_str_hash(name.spec_bytes()).0, protocol }
}

/// Registering a function associated with a type under `key`, with the given
/// handler, argument count, type information and name, took `old` to `new`
/// with result `r`: refused, with the type information and name in the error
/// and nothing changed, if the key was taken; otherwise added.
pub open spec fn spec_associated_registered<F, M>(
    old: ModuleView<F, M>,
    new: ModuleView<F, M>,
    key: AssocKeyView,
    handler: F,
    args: usize,
    type_info: TypeInfoView,
    name: Seq<char>,
    r: Result<(), ContextError>,
) -> bool {
    if old.associated_functions.contains_key(key) {
        &&& new == old
        &&& r matches Err(ContextError::ConflictingInstanceFunction { type_info: t, name: n })
            && t@ == type_info && n@ == name
    } else {
        &&& r is Ok
        &&& new.associated_functions.contains_key(key)
        &&& new == old.with_associated_function(key, new.associated_functions[key])
        &&& new.associated_functions[key].handler == handler
        &&& new.associated_functions[key].args == Some(args)
        &&& new.associated_functions[key].type_info@ == type_info
        &&& new.associated_functions[key].name@ == name
    }
}

/// Adding the function `entry` associated with a type under `key` took `old`
/// to `new` with result `r`: refused, with the entry's type information and
/// name in the error and nothing changed, if the key was taken; otherwise
/// added.
pub open spec fn spec_associated_inserted<F, M>(
    old: ModuleView<F, M>,
    new: ModuleView<F, M>,
    key: AssocKeyView,
    entry: ModuleAssociatedFn<F>,
    r: Result<(), ContextError>,
) -> bool {
    if old.associated_functions.contains_key(key) {
        &&& new == old
        &&& r matches Err(ContextError::ConflictingInstanceFunction { type_info, name })
            && type_info == entry.type_info && name == entry.name
    } else {
        &&& r is Ok
        &&& new == old.with_associated_function(key, entry)
    }
}

/// Registering the macro with handler `handler` under `name` took `old` to
/// `new` with result `r`: refused, and nothing changed, if the name was taken
/// by a macro; otherwise added.
pub open spec fn spec_macro_registered<F, M>(
    old: ModuleView<F, M>,
    new: ModuleView<F, M>,
    name: Seq<ComponentView>,
    handler: M,
    r: Result<(), ContextError>,
) -> bool {
    if old.macros.contains_key(name) {
        &&& new == old
        &&& r matches Err(ContextError::ConflictingFunctionName { name: n }) && n@ == name
    } else {
        &&& r is Ok
        &&& new == old.with_macro(name, ModuleMacro { handler })
    }
}

/// Registering under `name` the constant of a native value that converted to
/// `value` took `old` to `new` with result `r`: refused, and nothing changed,
/// if the name was taken; refused with the conversion's error, and nothing
/// changed, if the native value or the value did not convert; otherwise the
/// constant is added.
pub open spec fn spec_constant_registered<F, M>(
    old: ModuleView<F, M>,
    new: ModuleView<F, M>,
    name: Seq<ComponentView>,
    value: Result<Value, VmError>,
    r: Result<(), ContextError>,
) -> bool {
    if old.constants.contains_key(name) {
        &&& new == old
        &&& r matches Err(ContextError::ConflictingConstantName { name: n }) && n@ == name
    } else {
        match value {
            Err(e) => new == old && r == Err::<(), ContextError>(ContextError::ValueError { error: e }),
            Ok(v) => match spec_const_from_value(v) {
                Ok(c) => r is Ok && new == old.with_constant(name, c),
                Err(e) => new == old && r == Err::<(), ContextError>(
                    ContextError::ValueError { error: e },
                ),
            },
        }
    }
}

/// Registering the unit type named `name` took `old` to `new` with result
/// `r`: refused, and nothing changed, if one was registered; otherwise added.
pub open spec fn spec_unit_registered<F, M>(
    old: ModuleView<F, M>,
    new: ModuleView<F, M>,
    name: Seq<char>,
    r: Result<(), ContextError>,
) -> bool {
    if old.unit_type is Some {
        &&& new == old
        &&& r matches Err(ContextError::UnitAlreadyPresent)
    } else {
        &&& r is Ok
        &&& new == old.with_unit(name)
    }
}

/// Registering the type `ty` under the hash `hash` took `old` to `new` with
/// result `r`: the type is put under the hash in any case; if the hash was
/// taken, the result is an error that names the new type and reports what was
/// registered before.
pub open spec fn spec_type_registered<F, M>(
    old: ModuleView<F, M>,
    new: ModuleView<F, M>,
    hash: u64,
    ty: ModuleTypeView,
    r: Result<(), ContextError>,
) -> bool {
    &&& new == old.with_type(hash, ty)
    &&& if old.types.contains_key(hash) {
        r matches Err(ContextError::ConflictingType { item, existing }) && item@ == seq![
            ComponentView::Str(ty.name),
        ] && existing@ == old.types[hash].type_info
    } else {
        r is Ok
    }
}

/// A collection of native functions, macros, constants and types, registered
/// under an item.
pub struct Module<H: Handlers> {
    item: Item,
    functions: AssocList<Item, ModuleFn<H::Function>>,
    macros: AssocList<Item, ModuleMacro<H::Macro>>,
    constants: AssocList<Item, ConstValue>,
    associated_functions: AssocList<ModuleAssocKey, ModuleAssociatedFn<H::Function>>,
    types: HashMap<u64, ModuleType>,
    unit_type: Option<ModuleUnitType>,
    internal_enums: Vec<ModuleInternalEnum>,
}

impl<H: Handlers> View for Module<H> {
    type V = ModuleView<H::Function, H::Macro>;

    closed spec fn view(&self) -> ModuleView<H::Function, H::Macro> {
        ModuleView {
            item: self.item@,
            functions: self.functions@,
            macros: self.macros@,
            constants: self.constants@,
            associated_functions: self.associated_functions@,
            types: self.types@.map_values(|t: ModuleType| t@),
            unit_type: match self.unit_type {
                Some(u) => Some(u.name@),
                None => None,
            },
            internal_enums: Seq::new(
                self.internal_enums@.len(),
                |i: int| self.internal_enums@[i]@,
            ),
        }
    }
}

impl<H: Handlers> Module<H> {
    /// The module is well formed: no registry holds a key twice.
    pub closed spec fn wf(&self) -> bool {
        &&& self.functions.wf()
        &&& self.macros.wf()
        &&& self.constants.wf()
        &&& self.associated_functions.wf()
    }

    /// A module under `item` with nothing registered.
    fn inner_new(item: Item) -> (m: Self)
        ensures
            m.wf(),
            m@ == ModuleView::<H::Function, H::Macro>::empty(item@),
    {
        let m = Module {
            item,
            functions: AssocList::new(),
            macros: AssocList::new(),
            associated_functions: AssocList::new(),
            types: HashMap::new(),
            unit_type: None,
            internal_enums: Vec::new(),
            constants: AssocList::new(),
        };
        assert(m@.internal_enums =~= Seq::<InternalEnumView>::empty());
        assert(m@.types =~= Map::<u64, ModuleTypeView>::empty());
        m
    }

    /// An empty module for the root item.
    pub fn new() -> (m: Self)
        ensures
            m.wf(),
            m@ == ModuleView::<H::Function, H::Macro>::empty(Seq::empty()),
    {
        Self::inner_new(Item::new())
    }

    /// An empty module for the item made of `names`.
    pub fn with_item(names: &[&str]) -> (m: Self)
        ensures
            m.wf(),
            m@ == ModuleView::<H::Function, H::Macro>::empty(spec_with_item(names@)),
    {
        Self::inner_new(Item::with_item(names))
    }

    /// An empty module for the root of the crate `name`.
    pub fn with_crate(name: &str) -> (m: Self)
        ensures
            m.wf(),
            m@ == ModuleView::<H::Function, H::Macro>::empty(seq![ComponentView::Crate(name@)]),
    {
        Self::inner_new(Item::with_crate(name))
    }

    /// An empty module for the item made of `names` in the crate `name`.
    pub fn with_crate_item(name: &str, names: &[&str]) -> (m: Self)
        ensures
            m.wf(),
            m@ == ModuleView::<H::Function, H::Macro>::empty(
                seq![ComponentView::Crate(name@)] + spec_with_item(names@),
            ),
    {
        Self::inner_new(Item::with_crate_item(name, names))
    }
}

impl<H: Handlers> Module<H> {
    /// Register a type under `type_hash`, named `name`. If the hash was
    /// already taken, the new registration still replaces the old one, and
    /// the error reports what was registered before.
    pub fn ty_with(&mut self, type_hash: crate::hash::Hash, name: String, type_info: TypeInfo) -> (r:
        Result<(), ContextError>)
        requires
            old(self).wf(),
        ensures
            final(self).wf(),
            spec_type_registered(
                old(self)@,
                final(self)@,
                type_hash.0,
                ModuleTypeView { name: name@, type_info: type_info@ },
                r,
            ),
    {
        broadcast use vstd::std_specs::hash::group_hash_axioms;

        let item_name = name.clone();
        let ty = ModuleType { name, type_info };
        let ghost entry = ty@;
        let ghost before = self.types@;
        let replaced = self.types.insert(type_hash.0, ty);
        assert(self@.types =~= old(self)@.types.insert(type_hash.0, entry));
        proof {
            if before.contains_key(type_hash.0) {
                assert(old(self)@.types[type_hash.0] == before[type_hash.0]@);
            }
        }
        match replaced {
            Some(old) => Err(
                ContextError::ConflictingType {
                    item: Item::with_name(item_name),
                    existing: old.type_info,
                },
            ),
            None => Ok(()),
        }
    }

    /// Register the type `T`, then install what goes with it. If the type's
    /// hash was taken, the type still takes its place, the error reports what
    /// was registered before, and nothing is installed; otherwise the hook
    /// runs on the module that holds the type, its result is returned, and the
    /// type stays registered.
    pub fn ty<T: Named + TypeOf + InstallWith>(&mut self) -> (r: Result<(), ContextError>)
        requires
            old(self).wf(),
        ensures
            final(self).wf(),
            ({
                let h = T::spec_type_hash().0;
                let entry = ModuleTypeView { name: T::spec_full_name(), type_info: T::spec_type_info() };
                if old(self)@.types.contains_key(h) {
                    &&& r matches Err(ContextError::ConflictingType { item, existing })
                        && item@ == seq![ComponentView::Str(T::spec_full_name())] && existing@
                        == old(self)@.types[h].type_info
                    &&& final(self)@ == old(self)@.with_type(h, entry)
                } else {
                    &&& T::spec_install::<H>(old(self)@.with_type(h, entry), final(self)@, r)
                    &&& final(self)@.types.contains_key(h)
                    &&& old(self)@.types.dom().subset_of(final(self)@.types.dom())
                }
            }),
    {
        let type_hash = T::type_hash();
        let type_info = T::type_info();
        let name = T::full_name();
        match self.ty_with(type_hash, name, type_info) {
            Ok(()) => {},
            Err(e) => {
                return Err(e);
            },
        }
        T::install_with(self)
    }

    /// Register the unit type under the name `name`.
    pub fn unit(&mut self, name: &str) -> (r: Result<(), ContextError>)
        requires
            old(self).wf(),
        ensures
            final(self).wf(),
            spec_unit_registered(old(self)@, final(self)@, name@, r),
    {
        if self.unit_type.is_some() {
            return Err(ContextError::UnitAlreadyPresent);
        }
        self.unit_type = Some(ModuleUnitType { name: name.to_owned() });
        Ok(())
    }

    /// Append an internal enum.
    fn push_internal_enum(&mut self, e: ModuleInternalEnum)
        ensures
            final(self)@ == old(self)@.with_internal_enum(e@),
            final(self).wf() == old(self).wf(),
    {
        self.internal_enums.push(e);
        assert(self@.internal_enums =~= old(self)@.internal_enums.push(e@));
    }

    /// Register the `Option` type under the item made of `name`.
    pub fn option(&mut self, name: &[&str]) -> (r: Result<(), ContextError>)
        requires
            old(self).wf(),
        ensures
            final(self).wf(),
            r is Ok,
            final(self)@ == old(self)@.with_internal_enum(spec_option_enum(spec_with_item(name@))),
    {
        let mut enum_ = ModuleInternalEnum::new("Option", name, StaticType::Option);
        enum_.variant("Some", TypeCheck::Option(0), VariantConstructor::OptionSome);
        enum_.variant("None", TypeCheck::Option(1), VariantConstructor::OptionNone);
        assert(enum_@.variants =~= spec_option_enum(spec_with_item(name@)).variants);
        self.push_internal_enum(enum_);
        Ok(())
    }

    /// Register the `Result` type under the item made of `name`.
    pub fn result(&mut self, name: &[&str]) -> (r: Result<(), ContextError>)
        requires
            old(self).wf(),
        ensures
            final(self).wf(),
            r is Ok,
            final(self)@ == old(self)@.with_internal_enum(spec_result_enum(spec_with_item(name@))),
    {
        let mut enum_ = ModuleInternalEnum::new("Result", name, StaticType::Result);
        enum_.variant("Ok", TypeCheck::Result(0), VariantConstructor::ResultOk);
        enum_.variant("Err", TypeCheck::Result(1), VariantConstructor::ResultErr);
        assert(enum_@.variants =~= spec_result_enum(spec_with_item(name@)).variants);
        self.push_internal_enum(enum_);
        Ok(())
    }

    /// Register the `GeneratorState` type under the item made of `name`.
    pub fn generator_state(&mut self, name: &[&str]) -> (r: Result<(), ContextError>)
        requires
            old(self).wf(),
        ensures
            final(self).wf(),
            r is Ok,
            final(self)@ == old(self)@.with_internal_enum(
                spec_generator_state_enum(spec_with_item(name@)),
            ),
    {
        let mut enum_ = ModuleInternalEnum::new(
            "GeneratorState",
            name,
            StaticType::GeneratorState,
        );
        enum_.variant("Complete", TypeCheck::GeneratorState(0), VariantConstructor::Complete);
        enum_.variant("Yielded", TypeCheck::GeneratorState(1), VariantConstructor::Yielded);
        assert(enum_@.variants =~= spec_generator_state_enum(spec_with_item(name@)).variants);
        self.push_internal_enum(enum_);
        Ok(())
    }
}

impl<H: Handlers> Module<H> {
    /// Register a free function under `name`, with the given handler and
    /// argument count.
    pub fn insert_function(&mut self, name: Item, handler: H::Function, args: Option<usize>) -> (r:
        Result<(), ContextError>)
        requires
            old(self).wf(),
        ensures
            final(self).wf(),
            old(self)@.functions.contains_key(name@) ==> (r == Err::<(), ContextError>(
                ContextError::ConflictingFunctionName { name },
            ) && final(self)@ == old(self)@),
            !old(self)@.functions.contains_key(name@) ==> (r is Ok && final(self)@ == old(
                self,
            )@.with_function(name@, ModuleFn { handler, args })),
    {
        if self.functions.contains_key(&name) {
            return Err(ContextError::ConflictingFunctionName { name });
        }
        self.functions.insert_new(name, ModuleFn { handler, args });
        Ok(())
    }

    /// Register a function that cannot fail internally.
    pub fn function<Func, Args>(&mut self, name: &[&str], f: Func) -> (r: Result<(), ContextError>)
        where
            Func: Function<Args>,
        requires
            old(self).wf(),
        ensures
            final(self).wf(),
            spec_function_registered(
                old(self)@,
                final(self)@,
                spec_with_item(name@),
                (ModuleFn { handler: H::spec_function(f), args: Some(Func::spec_args()) }),
                r,
            ),
            r is Ok ==> spec_calls_function::<H, Func, Args>(f),
    {
        let name = Item::with_item(name);
        if self.functions.contains_key(&name) {
            return Err(ContextError::ConflictingFunctionName { name });
        }
        let args = Func::args();
        let handler = H::function(f);
        self.insert_function(name, handler, Some(args))
    }

    /// Register an asynchronous function.
    pub fn async_function<Func, Args>(&mut self, name: &[&str], f: Func) -> (r: Result<
        (),
        ContextError,
    >)
        where
            Func: AsyncFunction<Args>,
        requires
            old(self).wf(),
        ensures
            final(self).wf(),
            spec_function_registered(
                old(self)@,
                final(self)@,
                spec_with_item(name@),
                (ModuleFn { handler: H::spec_async_function(f), args: Some(Func::spec_args()) }),
                r,
            ),
            r is Ok ==> spec_calls_async_function::<H, Func, Args>(f),
    {
        let name = Item::with_item(name);
        if self.functions.contains_key(&name) {
            return Err(ContextError::ConflictingFunctionName { name });
        }
        let args = Func::args();
        let handler = H::async_function(f);
        self.insert_function(name, handler, Some(args))
    }

    /// Register a function that works on the stack of the virtual machine
    /// directly; its argument count is not known.
    pub fn raw_fn<F>(&mut self, name: &[&str], f: F) -> (r: Result<(), ContextError>)
        where
            F: 'static + Fn(&mut Stack, usize) -> Result<(), VmError> + Send + Sync,
        requires
            old(self).wf(),
        ensures
            final(self).wf(),
            spec_function_registered(
                old(self)@,
                final(self)@,
                spec_with_item(name@),
                (ModuleFn { handler: H::spec_raw_fn(f), args: None }),
                r,
            ),
            r is Ok ==> forall|old: Seq<Value>, args: usize, new: Seq<Value>, res: Result<(), VmError>|
                #[trigger] H::spec_handler_call(H::spec_raw_fn(f), old, args, new, res) ==> exists|
                    stack: &mut Stack,
                |
                    (*stack)@ == old && (*final(stack))@ == new && call_ensures(
                        f,
                        (stack, args),
                        res,
                    ),
    {
        let name = Item::with_item(name);
        if self.functions.contains_key(&name) {
            return Err(ContextError::ConflictingFunctionName { name });
        }
        let handler = H::raw_fn(f);
        self.insert_function(name, handler, None)
    }

    /// Register the constant that `value` converts to under `name`.
    pub fn insert_constant(&mut self, name: Item, value: Value) -> (r: Result<(), ContextError>)
        requires
            old(self).wf(),
        ensures
            final(self).wf(),
            old(self)@.constants.contains_key(name@) ==> (r == Err::<(), ContextError>(
                ContextError::ConflictingConstantName { name },
            ) && final(self)@ == old(self)@),
            !old(self)@.constants.contains_key(name@) ==> match spec_const_from_value(value) {
                Ok(c) => r is Ok && final(self)@ == old(self)@.with_constant(name@, c),
                Err(e) => r == Err::<(), ContextError>(ContextError::ValueError { error: e })
                    && final(self)@ == old(self)@,
            },
    {
        if self.constants.contains_key(&name) {
            return Err(ContextError::ConflictingConstantName { name });
        }
        let constant_value = match ConstValue::from_value(value) {
            Ok(v) => v,
            Err(e) => {
                return Err(ContextError::ValueError { error: e });
            },
        };
        self.constants.insert_new(name, constant_value);
        Ok(())
    }

    /// Register a constant value under `name`.
    pub fn constant<V: ToValue>(&mut self, name: &[&str], value: V) -> (r: Result<(), ContextError>)
        requires
            old(self).wf(),
        ensures
            final(self).wf(),
            spec_constant_registered(
                old(self)@,
                final(self)@,
                spec_with_item(name@),
                value.spec_to_value(),
                r,
            ),
    {
        let item = Item::with_item(name);
        if self.constants.contains_key(&item) {
            return Err(ContextError::ConflictingConstantName { name: item });
        }
        let value = match value.to_value() {
            Ok(v) => v,
            Err(e) => {
                return Err(ContextError::ValueError { error: e });
            },
        };
        self.insert_constant(item, value)
    }

    /// Register a macro under `name`, with the given handler.
    pub fn insert_macro(&mut self, name: Item, handler: H::Macro) -> (r: Result<(), ContextError>)
        requires
            old(self).wf(),
        ensures
            final(self).wf(),
            old(self)@.macros.contains_key(name@) ==> (r == Err::<(), ContextError>(
                ContextError::ConflictingFunctionName { name },
            ) && final(self)@ == old(self)@),
            !old(self)@.macros.contains_key(name@) ==> (r is Ok && final(self)@ == old(
                self,
            )@.with_macro(name@, ModuleMacro { handler })),
    {
        if self.macros.contains_key(&name) {
            return Err(ContextError::ConflictingFunctionName { name });
        }
        self.macros.insert_new(name, ModuleMacro { handler });
        Ok(())
    }

    /// Register a native macro.
    pub fn macro_<M>(&mut self, name: &[&str], f: M) -> (r: Result<(), ContextError>)
        where
            M: 'static + Send + Sync + Fn(&mut MacroContext, &TokenStream) -> Result<
                TokenStream,
                ParseError,
            >,
        requires
            old(self).wf(),
        ensures
            final(self).wf(),
            spec_macro_registered(old(self)@, final(self)@, spec_with_item(name@), H::spec_macro(f), r),
            r is Ok ==> forall|
                old: MacroContext,
                input: TokenStream,
                new: MacroContext,
                res: Result<TokenStream, ParseError>,
            |
                #[trigger] H::spec_macro_call(H::spec_macro(f), old, input, new, res) ==> exists|
                    ctx: &mut MacroContext,
                |
                    *ctx == old && *final(ctx) == new && call_ensures(f, (ctx, &input), res),
    {
        let name = Item::with_item(name);
        if self.macros.contains_key(&name) {
            return Err(ContextError::ConflictingFunctionName { name });
        }
        let handler = H::macro_(f);
        self.insert_macro(name, handler)
    }
}

impl<H: Handlers> Module<H> {
    /// Register a function associated with a type under `key`.
    pub fn insert_associated_function(
        &mut self,
        key: ModuleAssocKey,
        entry: ModuleAssociatedFn<H::Function>,
    ) -> (r: Result<(), ContextError>)
        requires
            old(self).wf(),
        ensures
            final(self).wf(),
            spec_associated_inserted(old(self)@, final(self)@, key@, entry, r),
    {
        if self.associated_functions.contains_key(&key) {
            let ModuleAssociatedFn { type_info, name, .. } = entry;
            return Err(ContextError::ConflictingInstanceFunction { type_info, name });
        }
        self.associated_functions.insert_new(key, entry);
        Ok(())
    }

    /// Register an instance function, or a field function, of the kind
    /// `kind`.
    fn assoc_fn<Func, Args>(&mut self, name: &str, f: Func, kind: ModuleAssociatedKind) -> (r:
        Result<(), ContextError>)
        where
            Func: InstFn<Args>,
        requires
            old(self).wf(),
        ensures
            final(self).wf(),
            spec_associated_registered(
                old(self)@,
                final(self)@,
                spec_assoc_key(Func::spec_instance_type_hash(), name, kind.spec_protocol()),
                H::spec_inst_fn(f),
                Func::spec_args(),
                Func::spec_instance_type_info(),
                name@,
                r,
            ),
            r is Ok ==> spec_calls_inst_fn::<H, Func, Args>(f),
    {
        let type_hash = Func::instance_type_hash();
        let type_info = Func::instance_type_info();
        let key = ModuleAssocKey { type_hash, hash: crate::hash::Hash::of_str(name), kind };
        let fn_name = name.to_owned();
        if self.associated_functions.contains_key(&key) {
            return Err(ContextError::ConflictingInstanceFunction { type_info, name: fn_name });
        }
        let handler = H::inst_fn(f);
        let entry = ModuleAssociatedFn { handler, args: Some(Func::args()), type_info, name: fn_name };
        self.insert_associated_function(key, entry)
    }

    /// Register an instance function.
    pub fn inst_fn<Func, Args>(&mut self, name: &str, f: Func) -> (r: Result<(), ContextError>)
        where
            Func: InstFn<Args>,
        requires
            old(self).wf(),
        ensures
            final(self).wf(),
            spec_associated_registered(
                old(self)@,
                final(self)@,
                spec_assoc_key(Func::spec_instance_type_hash(), name, None),
                H::spec_inst_fn(f),
                Func::spec_args(),
                Func::spec_instance_type_info(),
                name@,
                r,
            ),
            r is Ok ==> spec_calls_inst_fn::<H, Func, Args>(f),
    {
        self.assoc_fn(name, f, ModuleAssociatedKind::Instance)
    }

    /// Register a handler of `protocol` for the field `name`.
    pub fn field_fn<Func, Args>(&mut self, protocol: Protocol, name: &str, f: Func) -> (r: Result<
        (),
        ContextError,
    >)
        where
            Func: InstFn<Args>,
        requires
            old(self).wf(),
        ensures
            final(self).wf(),
            spec_associated_registered(
                old(self)@,
                final(self)@,
                spec_assoc_key(Func::spec_instance_type_hash(), name, Some(protocol.hash.0)),
                H::spec_inst_fn(f),
                Func::spec_args(),
                Func::spec_instance_type_info(),
                name@,
                r,
            ),
            r is Ok ==> spec_calls_inst_fn::<H, Func, Args>(f),
    {
        self.assoc_fn(name, f, ModuleAssociatedKind::FieldFn(protocol))
    }

    /// Register an asynchronous instance function. It shares its keys with
    /// the instance functions.
    pub fn async_inst_fn<Func, Args>(&mut self, name: &str, f: Func) -> (r: Result<
        (),
        ContextError,
    >)
        where
            Func: AsyncInstFn<Args>,
        requires
            old(self).wf(),
        ensures
            final(self).wf(),
            spec_associated_registered(
                old(self)@,
                final(self)@,
                spec_assoc_key(Func::spec_instance_type_hash(), name, None),
                H::spec_async_inst_fn(f),
                Func::spec_args(),
                Func::spec_instance_type_info(),
                name@,
                r,
            ),
            r is Ok ==> spec_calls_async_inst_fn::<H, Func, Args>(f),
    {
        let type_hash = Func::instance_type_hash();
        let type_info = Func::instance_type_info();
        let key = ModuleAssocKey {
            type_hash,
            hash: crate::hash::Hash::of_str(name),
            kind: ModuleAssociatedKind::Instance,
        };
        let fn_name = name.to_owned();
        if self.associated_functions.contains_key(&key) {
            return Err(ContextError::ConflictingInstanceFunction { type_info, name: fn_name });
        }
        let handler = H::async_inst_fn(f);
        let entry = ModuleAssociatedFn { handler, args: Some(Func::args()), type_info, name: fn_name };
        self.insert_associated_function(key, entry)
    }
}

impl<H: Handlers> Module<H> {
    /// The item the module is registered under.
    pub fn item(&self) -> (item: &Item)
        ensures
            item@ == self@.item,
    {
        &self.item
    }

    /// The free function registered under `name`, if there is one.
    pub fn get_function(&self, name: &Item) -> (f: Option<&ModuleFn<H::Function>>)
        requires
            self.wf(),
        ensures
            match f {
                Some(f) => self@.functions.contains_key(name@) && *f == self@.functions[name@],
                None => !self@.functions.contains_key(name@),
            },
    {
        self.functions.get(name)
    }

    /// The macro registered under `name`, if there is one.
    pub fn get_macro(&self, name: &Item) -> (m: Option<&ModuleMacro<H::Macro>>)
        requires
            self.wf(),
        ensures
            match m {
                Some(m) => self@.macros.contains_key(name@) && *m == self@.macros[name@],
                None => !self@.macros.contains_key(name@),
            },
    {
        self.macros.get(name)
    }

    /// The constant registered under `name`, if there is one.
    pub fn get_constant(&self, name: &Item) -> (c: Option<&ConstValue>)
        requires
            self.wf(),
        ensures
            match c {
                Some(c) => self@.constants.contains_key(name@) && *c == self@.constants[name@],
                None => !self@.constants.contains_key(name@),
            },
    {
        self.constants.get(name)
    }

    /// The function associated with a type under `key`, if there is one.
    pub fn get_associated_function(&self, key: &ModuleAssocKey) -> (f: Option<
        &ModuleAssociatedFn<H::Function>,
    >)
        requires
            self.wf(),
        ensures
            match f {
                Some(f) => self@.associated_functions.contains_key(key@) && *f
                    == self@.associated_functions[key@],
                None => !self@.associated_functions.contains_key(key@),
            },
    {
        self.associated_functions.get(key)
    }

    /// The type registered under `type_hash`, if there is one.
    pub fn get_type(&self, type_hash: crate::hash::Hash) -> (t: Option<&ModuleType>)
        ensures
            match t {
                Some(t) => self@.types.contains_key(type_hash.0) && t@ == self@.types[type_hash.0],
                None => !self@.types.contains_key(type_hash.0),
            },
    {
        broadcast use vstd::std_specs::hash::group_hash_axioms;

        self.types.get(&type_hash.0)
    }

    /// The registered unit type, if there is one.
    pub fn unit_type(&self) -> (u: Option<&ModuleUnitType>)
        ensures
            match u {
                Some(u) => self@.unit_type == Some(u.name@),
                None => self@.unit_type is None,
            },
    {
        match &self.unit_type {
            Some(u) => Some(u),
            None => None,
        }
    }

    /// The registered internal enums, in the order of registration.
    pub fn internal_enums(&self) -> (enums: &Vec<ModuleInternalEnum>)
        ensures
            enums@.len() == self@.internal_enums.len(),
            forall|i: int| 0 <= i < enums@.len() ==> enums@[i]@ == #[trigger] self@.internal_enums[i],
    {
        &self.internal_enums
    }

    /// The number of registered free functions.
    pub fn function_count(&self) -> (n: usize)
        requires
            self.wf(),
        ensures
            n == self@.functions.len(),
    {
        self.functions.len()
    }

    /// The number of registered functions associated with types.
    pub fn associated_function_count(&self) -> (n: usize)
        requires
            self.wf(),
        ensures
            n == self@.associated_functions.len(),
    {
        self.associated_functions.len()
    }
}

impl<H: Handlers> Default for Module<H> {
    /// An empty module for the root item.
    fn default() -> (m: Self)
        ensures
            m.wf(),
            m@ == ModuleView::<H::Function, H::Macro>::empty(Seq::empty()),
    {
        Self::new()
    }
}

} // verus!
