//! Native functions as the virtual machine calls them: the calling
//! convention that checks the argument count, takes the arguments from the
//! stack, converts each of them, calls the function and pushes what it
//! returns.

use crate::module::{Function, InstFn, TypeOf};
use crate::runtime::{FromValue, Stack, ToValue, TypeInfo, TypeInfoView, Value, VmError};
use core::marker::PhantomData;
use vstd::prelude::*;

verus! {

/// Take the `expected` arguments of a call with `args` arguments from the top
/// of the stack, oldest first.
pub fn take_args(stack: &mut Stack, expected: usize, args: usize) -> (r: Result<Vec<Value>, VmError>)
    ensures
        args != expected ==> r == Err::<Vec<Value>, VmError>(
            VmError::BadArgumentCount { actual: args, expected },
        ) && final(stack)@ == old(stack)@,
        args == expected && expected > old(stack)@.len() ==> r == Err::<Vec<Value>, VmError>(
            VmError::StackOutOfBounds,
        ) && final(stack)@ == old(stack)@,
        args == expected && expected <= old(stack)@.len() ==> (r matches Ok(values) && values@
            == old(stack)@.skip(old(stack)@.len() - expected) && final(stack)@ == old(stack)@.take(
            old(stack)@.len() - expected,
        )),
{
    if args != expected {
        return Err(VmError::BadArgumentCount { actual: args, expected });
    }
    stack.drain(expected)
}

/// The argument at position `arg` converted from `value`, or the error that
/// names the argument.
pub open spec fn spec_convert_arg<A: FromValue>(value: Value, arg: usize) -> Result<A, VmError> {
    match A::spec_from_value(value) {
        Ok(a) => Ok(a),
        Err(e) => Err(VmError::BadArgument { arg, error: Box::new(e) }),
    }
}

/// Convert the argument at position `arg`.
pub fn convert_arg<A: FromValue>(value: Value, arg: usize) -> (r: Result<A, VmError>)
    ensures
        r == spec_convert_arg::<A>(value, arg),
{
    match A::from_value(value) {
        Ok(a) => Ok(a),
        Err(e) => Err(VmError::BadArgument { arg, error: Box::new(e) }),
    }
}

/// Pushing what a native function returned took the stack `old` to `new`
/// with result `r`: its value on top if it converts, otherwise the
/// conversion's error and the stack unchanged.
pub open spec fn spec_returned<R: ToValue>(
    old: Seq<Value>,
    ret: R,
    new: Seq<Value>,
    r: Result<(), VmError>,
) -> bool {
    match ret.spec_to_value() {
        Ok(v) => r is Ok && new == old.push(v),
        Err(e) => r == Err::<(), VmError>(e) && new == old,
    }
}

/// Push what a native function returned.
pub fn push_return<R: ToValue>(stack: &mut Stack, ret: R) -> (r: Result<(), VmError>)
    ensures
        spec_returned(old(stack)@, ret, final(stack)@, r),
{
    match ret.to_value() {
        Ok(v) => {
            stack.push(v);
            Ok(())
        },
        Err(e) => Err(e),
    }
}

/// Whether a call with `args` arguments of a native function that takes
/// `count` of them, on the stack `old`, gets to take its arguments: the count
/// is right and the stack holds enough values.
pub open spec fn spec_call_proceeds(count: usize, args: usize, old: Seq<Value>) -> bool {
    args == count && count <= old.len()
}

/// A call that does not get to take its arguments is refused, with the
/// stack unchanged: for a wrong argument count first, then for too short a
/// stack.
pub open spec fn spec_call_refused(
    count: usize,
    args: usize,
    old: Seq<Value>,
    new: Seq<Value>,
    r: Result<(), VmError>,
) -> bool {
    &&& new == old
    &&& if args != count {
        r == Err::<(), VmError>(VmError::BadArgumentCount { actual: args, expected: count })
    } else {
        r == Err::<(), VmError>(VmError::StackOutOfBounds)
    }
}

/// A native function of no arguments, as the virtual machine calls it.
#[verifier::reject_recursive_types(F)]
#[verifier::reject_recursive_types(R)]
pub struct Native0<F, R> where F: Fn() -> R {
    f: F,
    marker: PhantomData<(R,)>,
}

impl<F, R> Native0<F, R> where F: Fn() -> R {
    /// The function can be called on all arguments.
    #[verifier::type_invariant]
    spec fn callable(self) -> bool {
        call_requires(self.f, ())
    }

    /// The native function.
    pub closed spec fn function(self) -> F {
        self.f
    }

    /// Wrap a function that can be called on all arguments.
    pub fn new(f: F) -> (n: Self)
        requires
            call_requires(f, ()),
        ensures
            n.function() == f,
    {
        Native0 { f, marker: PhantomData }
    }
}

impl<F, R> Function<()> for Native0<F, R> where
    F: 'static + Send + Sync + Fn() -> R,
    R: 'static + Send + Sync + ToValue,
{
    type Return = R;

    open spec fn spec_args() -> usize {
        0
    }

    fn args() -> (n: usize) {
        0
    }

    /// The argument count is checked, then the stack; the arguments are the
    /// values on top of the stack, oldest first, and are taken off it; each
    /// is converted in turn, the first that does not convert refusing the
    /// call; then the function is called once and what it returns is pushed.
    open spec fn spec_call(
        &self,
        old: Seq<Value>,
        args: usize,
        new: Seq<Value>,
        r: Result<(), VmError>,
    ) -> bool {
        if !spec_call_proceeds(0, args, old) {
            spec_call_refused(0, args, old, new, r)
        } else {
            let below = old;
            exists|ret: R|
                #[trigger] call_ensures(self.function(), (), ret) && spec_returned(below, ret, new, r)
        }
    }

    fn fn_call(&self, stack: &mut Stack, args: usize) -> (r: Result<(), VmError>) {
        proof {
            use_type_invariant(self);
        }
        if let Err(e) = take_args(stack, 0, args) {
            return Err(e);
        }
        assert(old(stack)@.take(old(stack)@.len() - 0) =~= old(stack)@);
        let ret = (self.f)();
        let ghost returned = ret;
        let r = push_return(stack, ret);
        assert(call_ensures(self.function(), (), returned));
        r
    }
}

/// A native function of one argument, as the virtual machine calls it.
#[verifier::reject_recursive_types(F)]
#[verifier::reject_recursive_types(A)]
#[verifier::reject_recursive_types(R)]
pub struct Native1<F, A, R> where F: Fn(A) -> R {
    f: F,
    marker: PhantomData<(A, R)>,
}

impl<F, A, R> Native1<F, A, R> where F: Fn(A) -> R {
    /// The function can be called on all arguments.
    #[verifier::type_invariant]
    spec fn callable(self) -> bool {
        forall|a: A| #[trigger] call_requires(self.f, (a,))
    }

    /// The native function.
    pub closed spec fn function(self) -> F {
        self.f
    }

    /// Wrap a function that can be called on all arguments.
    pub fn new(f: F) -> (n: Self)
        requires
            forall|a: A| #[trigger] call_requires(f, (a,)),
        ensures
            n.function() == f,
    {
        Native1 { f, marker: PhantomData }
    }
}

impl<F, A, R> Function<(A,)> for Native1<F, A, R> where
    F: 'static + Send + Sync + Fn(A) -> R,
    A: 'static + Send + Sync + FromValue,
    R: 'static + Send + Sync + ToValue,
{
    type Return = R;

    open spec fn spec_args() -> usize {
        1
    }

    fn args() -> (n: usize) {
        1
    }

    /// The argument count is checked, then the stack; the arguments are the
    /// values on top of the stack, oldest first, and are taken off it; each
    /// is converted in turn, the first that does not convert refusing the
    /// call; then the function is called once and what it returns is pushed.
    open spec fn spec_call(
        &self,
        old: Seq<Value>,
        args: usize,
        new: Seq<Value>,
        r: Result<(), VmError>,
    ) -> bool {
        if !spec_call_proceeds(1, args, old) {
            spec_call_refused(1, args, old, new, r)
        } else {
            let below = old.take(old.len() - 1);
            match spec_convert_arg::<A>(old[old.len() - 1], 0) {
                Err(e) => r == Err::<(), VmError>(e) && new == below,
                Ok(a) => exists|ret: R|
                    #[trigger] call_ensures(self.function(), (a,), ret) && spec_returned(below, ret, new, r),
            }
        }
    }

    fn fn_call(&self, stack: &mut Stack, args: usize) -> (r: Result<(), VmError>) {
        proof {
            use_type_invariant(self);
        }
        let mut values = match take_args(stack, 1, args) {
            Ok(values) => values,
            Err(e) => {
                return Err(e);
            },
        };
        let ghost taken = values@;
        let v0 = values.pop().unwrap();
        assert(v0 == old(stack)@[old(stack)@.len() - 1]) by {
            assert(taken[0] == old(stack)@[old(stack)@.len() - 1]);
        }
        let a = match convert_arg::<A>(v0, 0) {
            Ok(x) => x,
            Err(e) => {
                return Err(e);
            },
        };
        let ret = (self.f)(a);
        let ghost returned = ret;
        let r = push_return(stack, ret);
        assert(call_ensures(self.function(), (a,), returned));
        r
    }
}

/// A native function of two arguments, as the virtual machine calls it.
#[verifier::reject_recursive_types(F)]
#[verifier::reject_recursive_types(A)]
#[verifier::reject_recursive_types(B)]
#[verifier::reject_recursive_types(R)]
pub struct Native2<F, A, B, R> where F: Fn(A, B) -> R {
    f: F,
    marker: PhantomData<(A, B, R)>,
}

impl<F, A, B, R> Native2<F, A, B, R> where F: Fn(A, B) -> R {
    /// The function can be called on all arguments.
    #[verifier::type_invariant]
    spec fn callable(self) -> bool {
        forall|a: A, b: B| #[trigger] call_requires(self.f, (a, b))
    }

    /// The native function.
    pub closed spec fn function(self) -> F {
        self.f
    }

    /// Wrap a function that can be called on all arguments.
    pub fn new(f: F) -> (n: Self)
        requires
            forall|a: A, b: B| #[trigger] call_requires(f, (a, b)),
        ensures
            n.function() == f,
    {
        Native2 { f, marker: PhantomData }
    }
}

impl<F, A, B, R> Function<(A, B)> for Native2<F, A, B, R> where
    F: 'static + Send + Sync + Fn(A, B) -> R,
    A: 'static + Send + Sync + FromValue,
    B: 'static + Send + Sync + FromValue,
    R: 'static + Send + Sync + ToValue,
{
    type Return = R;

    open spec fn spec_args() -> usize {
        2
    }

    fn args() -> (n: usize) {
        2
    }

    /// The argument count is checked, then the stack; the arguments are the
    /// values on top of the stack, oldest first, and are taken off it; each
    /// is converted in turn, the first that does not convert refusing the
    /// call; then the function is called once and what it returns is pushed.
    open spec fn spec_call(
        &self,
        old: Seq<Value>,
        args: usize,
        new: Seq<Value>,
        r: Result<(), VmError>,
    ) -> bool {
        if !spec_call_proceeds(2, args, old) {
            spec_call_refused(2, args, old, new, r)
        } else {
            let below = old.take(old.len() - 2);
            match spec_convert_arg::<A>(old[old.len() - 2], 0) {
                Err(e) => r == Err::<(), VmError>(e) && new == below,
                Ok(a) => match spec_convert_arg::<B>(old[old.len() - 1], 1) {
                        Err(e) => r == Err::<(), VmError>(e) && new == below,
                        Ok(b) => exists|ret: R|
                        #[trigger] call_ensures(self.function(), (a, b), ret) && spec_returned(below, ret, new, r),
                    },
            }
        }
    }

    fn fn_call(&self, stack: &mut Stack, args: usize) -> (r: Result<(), VmError>) {
        proof {
            use_type_invariant(self);
        }
        let mut values = match take_args(stack, 2, args) {
            Ok(values) => values,
            Err(e) => {
                return Err(e);
            },
        };
        let ghost taken = values@;
        let v1 = values.pop().unwrap();
        let v0 = values.pop().unwrap();
        assert(v0 == old(stack)@[old(stack)@.len() - 2] && v1 == old(stack)@[old(stack)@.len() - 1]) by {
            assert(taken[0] == old(stack)@[old(stack)@.len() - 2] && taken[1] == old(stack)@[old(stack)@.len() - 1]);
        }
        let a = match convert_arg::<A>(v0, 0) {
            Ok(x) => x,
            Err(e) => {
                return Err(e);
            },
        };
        let b = match convert_arg::<B>(v1, 1) {
            Ok(x) => x,
            Err(e) => {
                return Err(e);
            },
        };
        let ret = (self.f)(a, b);
        let ghost returned = ret;
        let r = push_return(stack, ret);
        assert(call_ensures(self.function(), (a, b), returned));
        r
    }
}

/// A native instance function of the instance alone, as the virtual machine
/// calls it. The instance is the first argument.
#[verifier::reject_recursive_types(F)]
#[verifier::reject_recursive_types(I)]
#[verifier::reject_recursive_types(R)]
pub struct InstNative0<F, I, R> where F: Fn(I) -> R {
    f: F,
    marker: PhantomData<(I, R)>,
}

impl<F, I, R> InstNative0<F, I, R> where F: Fn(I) -> R {
    /// The function can be called on all arguments.
    #[verifier::type_invariant]
    spec fn callable(self) -> bool {
        forall|i: I| #[trigger] call_requires(self.f, (i,))
    }

    /// The native function.
    pub closed spec fn function(self) -> F {
        self.f
    }

    /// Wrap a function that can be called on all arguments.
    pub fn new(f: F) -> (n: Self)
        requires
            forall|i: I| #[trigger] call_requires(f, (i,)),
        ensures
            n.function() == f,
    {
        InstNative0 { f, marker: PhantomData }
    }
}

impl<F, I, R> InstFn<(I,)> for InstNative0<F, I, R> where
    F: 'static + Send + Sync + Fn(I) -> R,
    I: 'static + Send + Sync + FromValue + TypeOf,
    R: 'static + Send + Sync + ToValue,
{
    type Instance = I;

    type Return = R;

    open spec fn spec_args() -> usize {
        1
    }

    open spec fn spec_instance_type_hash() -> crate::hash::Hash {
        I::spec_type_hash()
    }

    open spec fn spec_instance_type_info() -> TypeInfoView {
        I::spec_type_info()
    }

    fn instance_type_hash() -> (h: crate::hash::Hash) {
        I::type_hash()
    }

    fn instance_type_info() -> (info: TypeInfo) {
        I::type_info()
    }

    fn args() -> (n: usize) {
        1
    }

    /// The argument count is checked, then the stack; the arguments are the
    /// values on top of the stack, oldest first, and are taken off it; each
    /// is converted in turn, the first that does not convert refusing the
    /// call; then the function is called once and what it returns is pushed.
    open spec fn spec_call(
        &self,
        old: Seq<Value>,
        args: usize,
        new: Seq<Value>,
        r: Result<(), VmError>,
    ) -> bool {
        if !spec_call_proceeds(1, args, old) {
            spec_call_refused(1, args, old, new, r)
        } else {
            let below = old.take(old.len() - 1);
            match spec_convert_arg::<I>(old[old.len() - 1], 0) {
                Err(e) => r == Err::<(), VmError>(e) && new == below,
                Ok(i) => exists|ret: R|
                    #[trigger] call_ensures(self.function(), (i,), ret) && spec_returned(below, ret, new, r),
            }
        }
    }

    fn fn_call(&self, stack: &mut Stack, args: usize) -> (r: Result<(), VmError>) {
        proof {
            use_type_invariant(self);
        }
        let mut values = match take_args(stack, 1, args) {
            Ok(values) => values,
            Err(e) => {
                return Err(e);
            },
        };
        let ghost taken = values@;
        let v0 = values.pop().unwrap();
        assert(v0 == old(stack)@[old(stack)@.len() - 1]) by {
            assert(taken[0] == old(stack)@[old(stack)@.len() - 1]);
        }
        let i = match convert_arg::<I>(v0, 0) {
            Ok(x) => x,
            Err(e) => {
                return Err(e);
            },
        };
        let ret = (self.f)(i);
        let ghost returned = ret;
        let r = push_return(stack, ret);
        assert(call_ensures(self.function(), (i,), returned));
        r
    }
}

/// A native instance function of the instance and one more argument, as the
/// virtual machine calls it. The instance is the first argument.
#[verifier::reject_recursive_types(F)]
#[verifier::reject_recursive_types(I)]
#[verifier::reject_recursive_types(A)]
#[verifier::reject_recursive_types(R)]
pub struct InstNative1<F, I, A, R> where F: Fn(I, A) -> R {
    f: F,
    marker: PhantomData<(I, A, R)>,
}

impl<F, I, A, R> InstNative1<F, I, A, R> where F: Fn(I, A) -> R {
    /// The function can be called on all arguments.
    #[verifier::type_invariant]
    spec fn callable(self) -> bool {
        forall|i: I, a: A| #[trigger] call_requires(self.f, (i, a))
    }

    /// The native function.
    pub closed spec fn function(self) -> F {
        self.f
    }

    /// Wrap a function that can be called on all arguments.
    pub fn new(f: F) -> (n: Self)
        requires
            forall|i: I, a: A| #[trigger] call_requires(f, (i, a)),
        ensures
            n.function() == f,
    {
        InstNative1 { f, marker: PhantomData }
    }
}

impl<F, I, A, R> InstFn<(I, A)> for InstNative1<F, I, A, R> where
    F: 'static + Send + Sync + Fn(I, A) -> R,
    I: 'static + Send + Sync + FromValue + TypeOf,
    A: 'static + Send + Sync + FromValue,
    R: 'static + Send + Sync + ToValue,
{
    type Instance = I;

    type Return = R;

    open spec fn spec_args() -> usize {
        2
    }

    open spec fn spec_instance_type_hash() -> crate::hash::Hash {
        I::spec_type_hash()
    }

    open spec fn spec_instance_type_info() -> TypeInfoView {
        I::spec_type_info()
    }

    fn instance_type_hash() -> (h: crate::hash::Hash) {
        I::type_hash()
    }

    fn instance_type_info() -> (info: TypeInfo) {
        I::type_info()
    }

    fn args() -> (n: usize) {
        2
    }

    /// The argument count is checked, then the stack; the arguments are the
    /// values on top of the stack, oldest first, and are taken off it; each
    /// is converted in turn, the first that does not convert refusing the
    /// call; then the function is called once and what it returns is pushed.
    open spec fn spec_call(
        &self,
        old: Seq<Value>,
        args: usize,
        new: Seq<Value>,
        r: Result<(), VmError>,
    ) -> bool {
        if !spec_call_proceeds(2, args, old) {
            spec_call_refused(2, args, old, new, r)
        } else {
            let below = old.take(old.len() - 2);
            match spec_convert_arg::<I>(old[old.len() - 2], 0) {
                Err(e) => r == Err::<(), VmError>(e) && new == below,
                Ok(i) => match spec_convert_arg::<A>(old[old.len() - 1], 1) {
                        Err(e) => r == Err::<(), VmError>(e) && new == below,
                        Ok(a) => exists|ret: R|
                        #[trigger] call_ensures(self.function(), (i, a), ret) && spec_returned(below, ret, new, r),
                    },
            }
        }
    }

    fn fn_call(&self, stack: &mut Stack, args: usize) -> (r: Result<(), VmError>) {
        proof {
            use_type_invariant(self);
        }
        let mut values = match take_args(stack, 2, args) {
            Ok(values) => values,
            Err(e) => {
                return Err(e);
            },
        };
        let ghost taken = values@;
        let v1 = values.pop().unwrap();
        let v0 = values.pop().unwrap();
        assert(v0 == old(stack)@[old(stack)@.len() - 2] && v1 == old(stack)@[old(stack)@.len() - 1]) by {
            assert(taken[0] == old(stack)@[old(stack)@.len() - 2] && taken[1] == old(stack)@[old(stack)@.len() - 1]);
        }
        let i = match convert_arg::<I>(v0, 0) {
            Ok(x) => x,
            Err(e) => {
                return Err(e);
            },
        };
        let a = match convert_arg::<A>(v1, 1) {
            Ok(x) => x,
            Err(e) => {
                return Err(e);
            },
        };
        let ret = (self.f)(i, a);
        let ghost returned = ret;
        let r = push_return(stack, ret);
        assert(call_ensures(self.function(), (i, a), returned));
        r
    }
}

} // verus!
