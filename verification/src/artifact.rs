//! The three artifacts that one command gives rise to: the hidden inner
//! function, the host wrapper and the sandbox wrapper.

use vstd::prelude::*;
use crate::command::{
    param_views, ExtraParam, ExtraParamView, ReturnShape, ReturnShapeView, StateParam,
    StateParamView,
};
use crate::decl::texts;

verus! {

/// A named, typed input of a wrapper or a field of an argument record.
#[derive(Debug, Clone, PartialEq, Eq)]
pub struct NamedInput {
    pub name: String,
    pub ty: String,
}

/// The mathematical model of a [`NamedInput`].
pub struct NamedInputView {
    pub name: Seq<char>,
    pub ty: Seq<char>,
}

impl View for NamedInput {
    type V = NamedInputView;

    open spec fn view(&self) -> NamedInputView {
        NamedInputView { name: self.name@, ty: self.ty@ }
    }
}

/// The views of a list of inputs, in order.
pub open spec fn input_views(v: Seq<NamedInput>) -> Seq<NamedInputView> {
    v.map_values(|p: NamedInput| p@)
}

/// The hidden function that holds the command's body. It takes the state
/// parameter and the extra parameters as the command declared them and is
/// no part of any public command surface.
#[derive(Debug, Clone, PartialEq, Eq)]
pub struct InnerFunction {
    pub name: String,
    pub state: StateParam,
    pub params: Vec<ExtraParam>,
    pub ret: ReturnShape,
    pub body: String,
}

/// The mathematical model of an [`InnerFunction`].
pub struct InnerFunctionView {
    pub name: Seq<char>,
    pub state: StateParamView,
    pub params: Seq<ExtraParamView>,
    pub ret: ReturnShapeView,
    pub body: Seq<char>,
}

impl View for InnerFunction {
    type V = InnerFunctionView;

    open spec fn view(&self) -> InnerFunctionView {
        InnerFunctionView {
            name: self.name@,
            state: self.state@,
            params: param_views(self.params@),
            ret: self.ret@,
            body: self.body@,
        }
    }
}

/// How the host wrapper borrows the guarded state while the inner function
/// runs. The state stands behind one mutual-exclusion lock, and both modes
/// take that same lock, so calls on one state never overlap, readers
/// included. The modes differ only in the borrow of the guard.
#[derive(Debug, Clone, Copy, PartialEq, Eq, Structural)]
pub enum LockMode {
    /// The guard is borrowed for reading: the state is only read.
    Shared,
    /// The guard is borrowed for writing: the state may be changed.
    Exclusive,
}

/// The entry point for the multi-threaded host. The lock is taken before
/// the inner call, in either mode, and held to its end; a poisoned lock
/// stops the call.
#[derive(Debug, Clone, PartialEq, Eq)]
pub struct NativeWrapper {
    /// The name under which the host routes calls: the command's own.
    pub name: String,
    /// The extra parameters, each an input of its own.
    pub inputs: Vec<NamedInput>,
    /// The identifier of the implicit handle to the managed state.
    pub handle: String,
    /// The text of the state type behind the lock.
    pub state_ty: String,
    pub lock: LockMode,
    /// The function that the wrapper calls.
    pub inner_name: String,
    /// The identifiers handed to the inner function after the state.
    pub call_args: Vec<String>,
    /// The declared return, forwarded as it is.
    pub ret: ReturnShape,
}

/// The mathematical model of a [`NativeWrapper`].
pub struct NativeWrapperView {
    pub name: Seq<char>,
    pub inputs: Seq<NamedInputView>,
    pub handle: Seq<char>,
    pub state_ty: Seq<char>,
    pub lock: LockMode,
    pub inner_name: Seq<char>,
    pub call_args: Seq<Seq<char>>,
    pub ret: ReturnShapeView,
}

impl View for NativeWrapper {
    type V = NativeWrapperView;

    open spec fn view(&self) -> NativeWrapperView {
        NativeWrapperView {
            name: self.name@,
            inputs: input_views(self.inputs@),
            handle: self.handle@,
            state_ty: self.state_ty@,
            lock: self.lock,
            inner_name: self.inner_name@,
            call_args: texts(self.call_args@),
            ret: self.ret@,
        }
    }
}

/// The accessor of the state container that the sandbox wrapper goes through.
#[derive(Debug, Clone, Copy, PartialEq, Eq, Structural)]
pub enum Accessor {
    Read,
    Write,
}

/// What the sandbox wrapper hands back over the boundary.
#[derive(Debug, Clone, Copy, PartialEq, Eq, Structural)]
pub enum WebReturn {
    /// Nothing: the inner function is called for its effect.
    Nothing,
    /// The result in the opaque interchange form.
    Serialized,
    /// A success that carries the serialized value, or a failure that
    /// carries the error's text: the caller can tell the two apart.
    Tagged,
}

/// The private record that the opaque argument value is read into.
#[derive(Debug, Clone, PartialEq, Eq)]
pub struct ArgsRecord {
    pub name: String,
    pub fields: Vec<NamedInput>,
}

/// The mathematical model of an [`ArgsRecord`].
pub struct ArgsRecordView {
    pub name: Seq<char>,
    pub fields: Seq<NamedInputView>,
}

impl View for ArgsRecord {
    type V = ArgsRecordView;

    open spec fn view(&self) -> ArgsRecordView {
        ArgsRecordView { name: self.name@, fields: input_views(self.fields@) }
    }
}

/// The boundary function for the single-threaded sandbox.
#[derive(Debug, Clone, PartialEq, Eq)]
pub struct WebWrapper {
    /// The boundary function's name: the command's own.
    pub name: String,
    /// The record of the one opaque argument, or `None` where the boundary
    /// function takes no argument.
    pub args: Option<ArgsRecord>,
    pub accessor: Accessor,
    /// The function that the wrapper calls.
    pub inner_name: String,
    /// The fields of the record handed to the inner function after the state.
    pub call_args: Vec<String>,
    pub result: WebReturn,
}

/// The mathematical model of a [`WebWrapper`].
pub struct WebWrapperView {
    pub name: Seq<char>,
    pub args: Option<ArgsRecordView>,
    pub accessor: Accessor,
    pub inner_name: Seq<char>,
    pub call_args: Seq<Seq<char>>,
    pub result: WebReturn,
}

impl View for WebWrapper {
    type V = WebWrapperView;

    open spec fn view(&self) -> WebWrapperView {
        WebWrapperView {
            name: self.name@,
            args: match self.args {
                Some(r) => Some(r@),
                None => None,
            },
            accessor: self.accessor,
            inner_name: self.inner_name@,
            call_args: texts(self.call_args@),
            result: self.result,
        }
    }
}

/// All that one command gives rise to.
#[derive(Debug, Clone, PartialEq, Eq)]
pub struct Generated {
    pub inner: InnerFunction,
    pub native: NativeWrapper,
    pub web: WebWrapper,
}

/// The mathematical model of a [`Generated`].
pub struct GeneratedView {
    pub inner: InnerFunctionView,
    pub native: NativeWrapperView,
    pub web: WebWrapperView,
}

impl View for Generated {
    type V = GeneratedView;

    open spec fn view(&self) -> GeneratedView {
        GeneratedView { inner: self.inner@, native: self.native@, web: self.web@ }
    }
}

} // verus!
