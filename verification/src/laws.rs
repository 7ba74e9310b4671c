//! Properties of the module registry that span several registrations, of the
//! values it stores and constructs, and of the declaration parser.

use crate::ast::{
    spec_starts_item, Decl, StructBody, spec_build_item, spec_leftover_error, spec_parse_item, DeclBody, Item, ItemMeta, ItemTarget, Kind,
    ParseError, Token, Visibility,
};
use crate::item::ComponentView;
use crate::runtime::{spec_const_from_value, ConstValue, GeneratorState, TypeInfoView, Value, VmError};
use crate::module::{
    spec_calls_function, Function, Handlers, VariantConstructor,
    spec_assoc_key, spec_associated_inserted, spec_associated_registered, spec_constant_registered, spec_function_registered, spec_generator_state_enum,
    spec_macro_registered, spec_option_enum, spec_result_enum, spec_type_registered,
    spec_unit_registered, AssocKeyView, ContextError, InternalEnumView, ModuleAssociatedFn, ModuleFn, ModuleTypeView,
    ModuleView,
};
use crate::native::{spec_returned, Native1};
use crate::runtime::{FromValue, ToValue};
use vstd::prelude::*;

verus! {

/// Registering a free function twice under the same name: the second
/// registration is refused and leaves the module as the first left it.
pub proof fn lemma_function_name_taken_after_registration<F, M>(
    m0: ModuleView<F, M>,
    m1: ModuleView<F, M>,
    m2: ModuleView<F, M>,
    name: Seq<ComponentView>,
    e1: ModuleFn<F>,
    e2: ModuleFn<F>,
    r1: Result<(), ContextError>,
    r2: Result<(), ContextError>,
)
    requires
        spec_function_registered(m0, m1, name, e1, r1),
        spec_function_registered(m1, m2, name, e2, r2),
    ensures
        m1.functions.contains_key(name),
        r2 is Err,
        m2 == m1,
{
}

/// Registering a free function, whatever the outcome, leaves the macros,
/// constants, associated functions, types, unit type and internal enums as
/// they were: macros and constants live in name spaces of their own.
pub proof fn lemma_function_registration_leaves_other_registries<F, M>(
    m0: ModuleView<F, M>,
    m1: ModuleView<F, M>,
    name: Seq<ComponentView>,
    entry: ModuleFn<F>,
    r: Result<(), ContextError>,
)
    requires
        spec_function_registered(m0, m1, name, entry, r),
    ensures
        m1.item == m0.item,
        m1.macros == m0.macros,
        m1.constants == m0.constants,
        m1.associated_functions == m0.associated_functions,
        m1.types == m0.types,
        m1.unit_type == m0.unit_type,
        m1.internal_enums == m0.internal_enums,
        forall|other: Seq<ComponentView>|
            other != name ==> (#[trigger] m1.functions.contains_key(other)
                == m0.functions.contains_key(other)),
{
}

/// Free functions registered under distinct names may be registered in either
/// order: the module comes out the same.
pub proof fn lemma_function_registrations_commute<F, M>(
    m: ModuleView<F, M>,
    a: Seq<ComponentView>,
    ea: ModuleFn<F>,
    b: Seq<ComponentView>,
    eb: ModuleFn<F>,
)
    requires
        a != b,
    ensures
        m.with_function(a, ea).with_function(b, eb) == m.with_function(b, eb).with_function(a, ea),
{
    assert(m.with_function(a, ea).with_function(b, eb).functions =~= m.with_function(
        b,
        eb,
    ).with_function(a, ea).functions);
}

/// Every variant of the internal enums `Option`, `Result` and
/// `GeneratorState` makes values of the enum's own type, and the variants are
/// numbered 0 and 1 in order.
pub proof fn lemma_internal_enum_variants(base: Seq<ComponentView>)
    ensures
        forall|e: InternalEnumView|
            e == spec_option_enum(base) || e == spec_result_enum(base) || e
                == spec_generator_state_enum(base) ==> {
                &&& e.base_type == base
                &&& e.variants.len() == 2
                &&& forall|i: int|
                    0 <= i < 2 ==> (#[trigger] e.variants[i]).type_hash
                        == e.static_type.spec_hash()
                        && e.variants[i].constructor.spec_return_type() == e.static_type
            },
{
}

/// A function declaration takes the attributes, the visibility and both
/// modifiers before it: once its parser succeeds, the declaration is
/// accepted and carries them.
pub proof fn lemma_fn_accepts_all_modifiers(meta: ItemMeta, next: Token, body: DeclBody)
    requires
        meta.path is None,
        next.kind == Kind::Fn,
    ensures
        spec_parse_item(meta, next, Ok(body)) == Ok::<Item, ParseError>(
            spec_build_item(meta, ItemTarget::Fn, body),
        ),
        spec_build_item(meta, ItemTarget::Fn, body) matches Item::Fn(d) && d.const_token
            == meta.const_token && d.async_token == meta.async_token,
{
    assert(spec_leftover_error(meta, ItemTarget::Fn) is None);
}

/// An accepted declaration carries every attribute and the visibility read
/// before it; after a macro path it is a macro call with that path, and no
/// visibility was read.
pub proof fn lemma_accepted_item_carries_meta(
    meta: ItemMeta,
    next: Token,
    parsed: Result<DeclBody, ParseError>,
)
    ensures
        spec_parse_item(meta, next, parsed) matches Ok(item) ==> {
            &&& item.spec_decl().attributes == meta.attributes
            &&& item.spec_decl().visibility == meta.visibility
            &&& meta.path is Some ==> {
                &&& item is MacroCall
                &&& item.spec_decl().path == meta.path
                &&& meta.visibility == Visibility::Inherited
            }
        },
{
}

/// Without a macro path, the accepted declaration is the one that the token
/// after the modifiers starts; an identifier starts a const declaration after
/// `const` and a macro call otherwise; an `async` modifier is accepted only
/// by a function, and a `const` modifier only by a function or a const
/// declaration.
pub proof fn lemma_declaration_follows_token(
    meta: ItemMeta,
    next: Token,
    parsed: Result<DeclBody, ParseError>,
)
    requires
        meta.path is None,
    ensures
        spec_parse_item(meta, next, parsed) matches Ok(item) ==> {
            &&& next.kind == Kind::Use ==> item is Use
            &&& next.kind == Kind::Enum ==> item is Enum
            &&& next.kind == Kind::Struct ==> item is Struct
            &&& next.kind == Kind::Impl ==> item is Impl
            &&& next.kind == Kind::Fn ==> item is Fn
            &&& next.kind == Kind::Mod ==> item is Mod
            &&& next.kind == Kind::Ident && meta.const_token is Some ==> item is Const
            &&& next.kind == Kind::Ident && meta.const_token is None ==> item is MacroCall
            &&& meta.async_token is Some ==> item is Fn
            &&& meta.const_token is Some ==> item is Fn || item is Const
        },
{
}

/// An identifier after a `const` modifier starts a const declaration, which
/// takes the attributes and visibility but refuses an `async` modifier; an
/// identifier without one starts a macro call, which refuses all of them.
pub proof fn lemma_ident_selects_const_or_macro_call(has_const: bool)
    ensures
        has_const ==> ItemTarget::spec_select(false, has_const, Kind::Ident) == Some(
            ItemTarget::Const,
        ),
        !has_const ==> ItemTarget::spec_select(false, has_const, Kind::Ident) == Some(
            ItemTarget::MacroCall,
        ),
        ItemTarget::Const.spec_takes_attributes() && ItemTarget::Const.spec_takes_visibility()
            && !ItemTarget::Const.spec_takes_async(),
        !ItemTarget::MacroCall.spec_takes_attributes()
            && !ItemTarget::MacroCall.spec_takes_visibility(),
{
}

/// A function and a macro may share a name: registering the function does
/// not change whether the macro is accepted, and the other way round.
pub proof fn lemma_functions_and_macros_do_not_conflict<F, M>(
    m0: ModuleView<F, M>,
    m1: ModuleView<F, M>,
    m2: ModuleView<F, M>,
    name: Seq<ComponentView>,
    entry: ModuleFn<F>,
    handler: M,
    r1: Result<(), ContextError>,
    r2: Result<(), ContextError>,
)
    requires
        spec_function_registered(m0, m1, name, entry, r1),
        spec_macro_registered(m1, m2, name, handler, r2),
    ensures
        r2 is Ok <==> !m0.macros.contains_key(name),
        m2.functions == m1.functions,
{
}

/// Registering a constant twice under the same name: the second registration
/// is refused and leaves the module as the first left it.
pub proof fn lemma_constant_name_taken_after_registration<F, M>(
    m0: ModuleView<F, M>,
    m1: ModuleView<F, M>,
    m2: ModuleView<F, M>,
    name: Seq<ComponentView>,
    v1: Result<Value, VmError>,
    v2: Result<Value, VmError>,
    r1: Result<(), ContextError>,
    r2: Result<(), ContextError>,
)
    requires
        spec_constant_registered(m0, m1, name, v1, r1),
        r1 is Ok,
        spec_constant_registered(m1, m2, name, v2, r2),
    ensures
        r2 matches Err(ContextError::ConflictingConstantName { .. }),
        m2 == m1,
{
}

/// The unit type is registered at most once: a second registration is
/// refused and the first name stays.
pub proof fn lemma_unit_registered_once<F, M>(
    m0: ModuleView<F, M>,
    m1: ModuleView<F, M>,
    m2: ModuleView<F, M>,
    first: Seq<char>,
    second: Seq<char>,
    r1: Result<(), ContextError>,
    r2: Result<(), ContextError>,
)
    requires
        spec_unit_registered(m0, m1, first, r1),
        r1 is Ok,
        spec_unit_registered(m1, m2, second, r2),
    ensures
        r2 matches Err(ContextError::UnitAlreadyPresent),
        m2.unit_type == Some(first),
{
}

/// Registering a second type under a hash that is taken: the error reports
/// the type registered first, and the second type takes its place.
pub proof fn lemma_type_registered_twice<F, M>(
    m0: ModuleView<F, M>,
    m1: ModuleView<F, M>,
    m2: ModuleView<F, M>,
    hash: u64,
    first: ModuleTypeView,
    second: ModuleTypeView,
    r1: Result<(), ContextError>,
    r2: Result<(), ContextError>,
)
    requires
        spec_type_registered(m0, m1, hash, first, r1),
        spec_type_registered(m1, m2, hash, second, r2),
    ensures
        r2 matches Err(ContextError::ConflictingType { existing, .. }) && existing@
            == first.type_info,
        m2.types[hash] == second,
{
}

/// Adding a function associated with a type twice under the same key: the
/// second is refused and leaves the module as the first left it; keys that
/// differ, for instance in their protocol, do not conflict.
pub proof fn lemma_associated_key_taken_after_registration<F, M>(
    m0: ModuleView<F, M>,
    m1: ModuleView<F, M>,
    m2: ModuleView<F, M>,
    key: AssocKeyView,
    other: AssocKeyView,
    e1: ModuleAssociatedFn<F>,
    e2: ModuleAssociatedFn<F>,
    r1: Result<(), ContextError>,
    r2: Result<(), ContextError>,
)
    requires
        spec_associated_inserted(m0, m1, key, e1, r1),
        spec_associated_inserted(m1, m2, key, e2, r2),
    ensures
        r2 matches Err(ContextError::ConflictingInstanceFunction { .. }),
        m2 == m1,
        other != key ==> m1.associated_functions.contains_key(other)
            == m0.associated_functions.contains_key(other),
{
}

/// An instance function and an asynchronous instance function of the same
/// type and name share a key: once one is registered, the other is refused
/// with its own type information and name, and the first stays.
pub proof fn lemma_instance_functions_share_keys<F, M>(
    m0: ModuleView<F, M>,
    m1: ModuleView<F, M>,
    m2: ModuleView<F, M>,
    type_hash: crate::hash::Hash,
    name: &str,
    h1: F,
    a1: usize,
    t1: TypeInfoView,
    h2: F,
    a2: usize,
    t2: TypeInfoView,
    r1: Result<(), ContextError>,
    r2: Result<(), ContextError>,
)
    requires
        spec_associated_registered(m0, m1, spec_assoc_key(type_hash, name, None), h1, a1, t1, name@, r1),
        r1 is Ok,
        spec_associated_registered(m1, m2, spec_assoc_key(type_hash, name, None), h2, a2, t2, name@, r2),
    ensures
        r2 matches Err(ContextError::ConflictingInstanceFunction { type_info, name: n })
            && type_info@ == t2 && n@ == name@,
        m2 == m1,
        m2.associated_functions[spec_assoc_key(type_hash, name, None)].handler == h1,
{
}

/// An instance function and a field function of the same type and name do
/// not conflict: the kind is part of the key, so once the instance function
/// is registered, the field function is refused exactly when one was
/// registered for that protocol before.
pub proof fn lemma_instance_and_field_functions_do_not_conflict<F, M>(
    m0: ModuleView<F, M>,
    m1: ModuleView<F, M>,
    m2: ModuleView<F, M>,
    type_hash: crate::hash::Hash,
    name: &str,
    protocol: u64,
    h1: F,
    a1: usize,
    t1: TypeInfoView,
    h2: F,
    a2: usize,
    t2: TypeInfoView,
    r1: Result<(), ContextError>,
    r2: Result<(), ContextError>,
)
    requires
        spec_associated_registered(m0, m1, spec_assoc_key(type_hash, name, None), h1, a1, t1, name@, r1),
        spec_associated_registered(
            m1,
            m2,
            spec_assoc_key(type_hash, name, Some(protocol)),
            h2,
            a2,
            t2,
            name@,
            r2,
        ),
    ensures
        r2 is Ok <==> !m0.associated_functions.contains_key(spec_assoc_key(type_hash, name, Some(protocol))),
        r2 is Ok ==> m2.associated_functions.dom() == m1.associated_functions.dom().insert(
            spec_assoc_key(type_hash, name, Some(protocol)),
        ),
{
    let k = spec_assoc_key(type_hash, name, Some(protocol));
    if r2 is Ok {
        assert(m2.associated_functions.dom() =~= m1.associated_functions.dom().insert(k));
    }
}

/// Registrations only add: whatever a registration does, every name, key and
/// hash that was taken before stays taken, and the internal enums registered
/// before stay in place.
pub proof fn lemma_registrations_only_add<F, M>(
    m0: ModuleView<F, M>,
    m1: ModuleView<F, M>,
    name: Seq<ComponentView>,
    r: Result<(), ContextError>,
)
    ensures
        forall|e: ModuleFn<F>|
            #[trigger] spec_function_registered(m0, m1, name, e, r) ==> m0.functions.dom().subset_of(
                m1.functions.dom(),
            ),
        forall|h: M|
            #[trigger] spec_macro_registered(m0, m1, name, h, r) ==> m0.macros.dom().subset_of(
                m1.macros.dom(),
            ),
        forall|v: Result<Value, VmError>|
            #[trigger] spec_constant_registered(m0, m1, name, v, r) ==> m0.constants.dom().subset_of(
                m1.constants.dom(),
            ),
        forall|hash: u64, ty: ModuleTypeView|
            #[trigger] spec_type_registered(m0, m1, hash, ty, r) ==> m0.types.dom().subset_of(
                m1.types.dom(),
            ),
        forall|key: AssocKeyView, e: ModuleAssociatedFn<F>|
            #[trigger] spec_associated_inserted(m0, m1, key, e, r)
                ==> m0.associated_functions.dom().subset_of(m1.associated_functions.dom()),
        forall|key: AssocKeyView, h: F, a: usize, t: TypeInfoView, n: Seq<char>|
            #[trigger] spec_associated_registered(m0, m1, key, h, a, t, n, r)
                ==> m0.associated_functions.dom().subset_of(m1.associated_functions.dom()),
        forall|n: Seq<char>|
            #[trigger] spec_unit_registered(m0, m1, n, r) ==> (m0.unit_type is Some
                ==> m1.unit_type == m0.unit_type),
{
}

/// A function registered through the one-argument adapter keeps the calling
/// convention when its handler is called: a call with another argument count
/// than one is refused with the stack unchanged; otherwise, on a stack that
/// holds a value, an argument that does not convert refuses the call, and an
/// argument that does is passed to the function, once, and what it returns
/// is pushed in place of the argument.
pub proof fn lemma_registered_function_keeps_calling_convention<H, F, A, R>(
    f: Native1<F, A, R>,
    old: Seq<Value>,
    args: usize,
    new: Seq<Value>,
    r: Result<(), VmError>,
)
    where
        H: Handlers,
        F: 'static + Send + Sync + Fn(A) -> R,
        A: 'static + Send + Sync + FromValue,
        R: 'static + Send + Sync + ToValue,
    requires
        spec_calls_function::<H, Native1<F, A, R>, (A,)>(f),
        H::spec_handler_call(H::spec_function(f), old, args, new, r),
    ensures
        args != 1 ==> r == Err::<(), VmError>(VmError::BadArgumentCount { actual: args, expected: 1 })
            && new == old,
        args == 1 && old.len() == 0 ==> r == Err::<(), VmError>(VmError::StackOutOfBounds) && new
            == old,
        args == 1 && old.len() > 0 ==> match A::spec_from_value(old.last()) {
            Err(e) => r == Err::<(), VmError>(VmError::BadArgument { arg: 0, error: Box::new(e) })
                && new == old.drop_last(),
            Ok(a) => exists|ret: R|
                #[trigger] call_ensures(f.function(), (a,), ret) && spec_returned(
                    old.drop_last(),
                    ret,
                    new,
                    r,
                ),
        },
{
    assert(f.spec_call(old, args, new, r));
    if args == 1 && old.len() > 0 {
        assert(old.take(old.len() - 1) =~= old.drop_last());
    }
}

/// Each constructor of the internal enums makes the variant it is named
/// after, holding its argument: `Some(v)`, `None`, `Ok(v)`, `Err(v)`,
/// `Complete(v)` and `Yielded(v)`; all but `None` take one argument.
pub proof fn lemma_variant_constructors_make_their_variant(v: Value)
    ensures
        VariantConstructor::OptionSome.spec_construct(seq![v]) == Value::Option(Some(Box::new(v))),
        VariantConstructor::OptionNone.spec_construct(Seq::empty()) == Value::Option(None),
        VariantConstructor::ResultOk.spec_construct(seq![v]) == Value::Result(Ok(Box::new(v))),
        VariantConstructor::ResultErr.spec_construct(seq![v]) == Value::Result(Err(Box::new(v))),
        VariantConstructor::Complete.spec_construct(seq![v]) == Value::GeneratorState(
            Box::new(GeneratorState::Complete(v)),
        ),
        VariantConstructor::Yielded.spec_construct(seq![v]) == Value::GeneratorState(
            Box::new(GeneratorState::Yielded(v)),
        ),
        VariantConstructor::OptionNone.spec_args() == 0,
        VariantConstructor::OptionSome.spec_args() == 1,
        VariantConstructor::ResultOk.spec_args() == 1,
        VariantConstructor::ResultErr.spec_args() == 1,
        VariantConstructor::Complete.spec_args() == 1,
        VariantConstructor::Yielded.spec_args() == 1,
{
}

/// A call of a one-argument constructor of the internal enums on a stack
/// whose top value is `v` replaces `v` by the variant holding it; the stack
/// below is untouched.
pub proof fn lemma_variant_constructor_call_wraps_top(
    c: VariantConstructor,
    below: Seq<Value>,
    v: Value,
)
    requires
        c != VariantConstructor::OptionNone,
    ensures
        c.spec_args() == 1,
        (below.push(v)).take(below.push(v).len() - 1) == below,
        (below.push(v)).skip(below.push(v).len() - 1) == seq![v],
        c == VariantConstructor::ResultOk ==> c.spec_construct(seq![v]) == Value::Result(
            Ok(Box::new(v)),
        ),
        c == VariantConstructor::ResultErr ==> c.spec_construct(seq![v]) == Value::Result(
            Err(Box::new(v)),
        ),
        c == VariantConstructor::OptionSome ==> c.spec_construct(seq![v]) == Value::Option(
            Some(Box::new(v)),
        ),
{
    assert(below.push(v).take(below.push(v).len() - 1) =~= below);
    assert(below.push(v).skip(below.push(v).len() - 1) =~= seq![v]);
}

/// Converting a value into a constant keeps what it holds: unit, booleans,
/// bytes, characters, integers and strings become the constant of the same
/// kind and payload, `None` stays `None`, and `Some` of a value that converts
/// becomes `Some` of its constant.
pub proof fn lemma_constants_keep_their_value(
    b: bool,
    byte: u8,
    c: char,
    n: i64,
    text: String,
    inner: Value,
)
    ensures
        spec_const_from_value(Value::Unit) == Ok::<ConstValue, VmError>(ConstValue::Unit),
        spec_const_from_value(Value::Bool(b)) == Ok::<ConstValue, VmError>(ConstValue::Bool(b)),
        spec_const_from_value(Value::Byte(byte)) == Ok::<ConstValue, VmError>(ConstValue::Byte(byte)),
        spec_const_from_value(Value::Char(c)) == Ok::<ConstValue, VmError>(ConstValue::Char(c)),
        spec_const_from_value(Value::Integer(n)) == Ok::<ConstValue, VmError>(ConstValue::Integer(n)),
        spec_const_from_value(Value::String(text)) == Ok::<ConstValue, VmError>(
            ConstValue::String(text),
        ),
        spec_const_from_value(Value::Option(None)) == Ok::<ConstValue, VmError>(
            ConstValue::Option(None),
        ),
        spec_const_from_value(inner) matches Ok(k) ==> spec_const_from_value(
            Value::Option(Some(Box::new(inner))),
        ) == Ok::<ConstValue, VmError>(ConstValue::Option(Some(Box::new(k)))),
{
}

/// Only use and const declarations, and structs without a body or with a
/// tuple body, are closed by a semicolon; enums, functions, impls, modules,
/// macro calls and braced structs end with their braces.
pub proof fn lemma_semicolon_only_after_use_const_and_unbraced_structs(d: Decl)
    ensures
        Item::Use(d).spec_needs_semi_colon(),
        Item::Const(d).spec_needs_semi_colon(),
        Item::Struct(d, StructBody::Empty).spec_needs_semi_colon(),
        Item::Struct(d, StructBody::Tuple).spec_needs_semi_colon(),
        !Item::Struct(d, StructBody::Named).spec_needs_semi_colon(),
        !Item::Enum(d).spec_needs_semi_colon(),
        !Item::Fn(d).spec_needs_semi_colon(),
        !Item::Impl(d).spec_needs_semi_colon(),
        !Item::Mod(d).spec_needs_semi_colon(),
        !Item::MacroCall(d).spec_needs_semi_colon(),
{
}

/// The tokens ahead begin a declaration exactly when the first is `use`,
/// `enum`, `struct`, `impl`, `fn`, `mod` or `const`, or is `async` followed by
/// `fn`.
pub proof fn lemma_declaration_starts(first: Kind, second: Kind)
    ensures
        spec_starts_item(first, second) <==> (first == Kind::Use || first == Kind::Enum || first
            == Kind::Struct || first == Kind::Impl || first == Kind::Fn || first == Kind::Mod
            || first == Kind::Const || (first == Kind::Async && second == Kind::Fn)),
{
}

/// An accepted declaration keeps what its parser read: its extent, and for a
/// struct the body its parser read, so that a struct without a body or with
/// a tuple body still needs its semicolon.
pub proof fn lemma_declaration_keeps_its_body(
    meta: ItemMeta,
    next: Token,
    body: DeclBody,
)
    ensures
        spec_parse_item(meta, next, Ok(body)) matches Ok(item) ==> {
            &&& item.spec_decl().span == body.span
            &&& meta.path is None && next.kind == Kind::Struct ==> (item matches Item::Struct(
                _,
                b,
            ) && b == body.struct_body)
            &&& meta.path is None && next.kind == Kind::Struct ==> (item.spec_needs_semi_colon()
                <==> body.struct_body != StructBody::Named)
        },
{
}

} // verus!
