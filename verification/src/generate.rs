//! The generators: from one validated command to its inner function, its
//! host wrapper and its sandbox wrapper.

use vstd::prelude::*;
use vstd::string::StringExecFns;
use crate::artifact::{
    input_views, Accessor, ArgsRecord, ArgsRecordView, Generated, GeneratedView, InnerFunction,
    InnerFunctionView, LockMode, NamedInput, NamedInputView, NativeWrapper, NativeWrapperView,
    WebReturn, WebWrapper, WebWrapperView,
};
use crate::command::{
    duplicate_params, param_names, param_views, CommandDeclaration, CommandDeclarationView,
    ExtraParam, ExtraParamView, ReturnShapeView,
};
use crate::decl::texts;
use crate::names::{args_record_name, args_record_name_of, inner_name, inner_name_of};

verus! {

/// The identifier of the host wrapper's implicit handle to the managed
/// state. It starts with the reserved prefix, so no extra parameter of a
/// validated command can bear it.
pub open spec fn state_handle() -> Seq<char> {
    "__webtau_tauri_state"@
}

/// An extra parameter as a wrapper's input: its identifier and its type,
/// without the binding's `mut`.
pub open spec fn input_of(p: ExtraParamView) -> NamedInputView {
    NamedInputView { name: p.ident, ty: p.ty }
}

/// The extra parameters as inputs, in declared order.
pub open spec fn inputs_of(params: Seq<ExtraParamView>) -> Seq<NamedInputView> {
    params.map_values(|p: ExtraParamView| input_of(p))
}

/// The lock mode that fits the state parameter.
pub open spec fn lock_mode_of(mutable: bool) -> LockMode {
    if mutable {
        LockMode::Exclusive
    } else {
        LockMode::Shared
    }
}

/// The container accessor that fits the state parameter.
pub open spec fn accessor_of(mutable: bool) -> Accessor {
    if mutable {
        Accessor::Write
    } else {
        Accessor::Read
    }
}

/// What the sandbox wrapper hands back for a return shape.
pub open spec fn web_return_of(shape: ReturnShapeView) -> WebReturn {
    match shape {
        ReturnShapeView::Unit => WebReturn::Nothing,
        ReturnShapeView::Plain(_) => WebReturn::Serialized,
        ReturnShapeView::Outcome { .. } => WebReturn::Tagged,
    }
}

/// The inner function of a command: parameters and body as declared, under
/// the reserved name.
pub open spec fn inner_of(c: CommandDeclarationView) -> InnerFunctionView {
    InnerFunctionView {
        name: inner_name_of(c.name),
        state: c.state,
        params: c.extra_params,
        ret: c.return_shape,
        body: c.body,
    }
}

/// The host wrapper of a command.
pub open spec fn native_of(c: CommandDeclarationView) -> NativeWrapperView {
    NativeWrapperView {
        name: c.name,
        inputs: inputs_of(c.extra_params),
        handle: state_handle(),
        state_ty: c.state.ty,
        lock: lock_mode_of(c.state.mutable),
        inner_name: inner_name_of(c.name),
        call_args: param_names(c.extra_params),
        ret: c.return_shape,
    }
}

/// The argument record of a command: absent without extra parameters, else
/// one field for each of them, in declared order.
pub open spec fn args_record_of(c: CommandDeclarationView) -> Option<ArgsRecordView> {
    if c.extra_params.len() == 0 {
        None
    } else {
        Some(
            ArgsRecordView {
                name: args_record_name_of(c.name),
                fields: inputs_of(c.extra_params),
            },
        )
    }
}

/// The sandbox wrapper of a command.
pub open spec fn web_of(c: CommandDeclarationView) -> WebWrapperView {
    WebWrapperView {
        name: c.name,
        args: args_record_of(c),
        accessor: accessor_of(c.state.mutable),
        inner_name: inner_name_of(c.name),
        call_args: param_names(c.extra_params),
        result: web_return_of(c.return_shape),
    }
}

/// The three artifacts of a command.
pub open spec fn generated_of(c: CommandDeclarationView) -> GeneratedView {
    GeneratedView { inner: inner_of(c), native: native_of(c), web: web_of(c) }
}

/// The extra parameters as wrapper inputs.
fn named_inputs(params: &Vec<ExtraParam>) -> (inputs: Vec<NamedInput>)
    ensures
        input_views(inputs@) == inputs_of(param_views(params@)),
{
    let mut inputs: Vec<NamedInput> = Vec::new();
    let mut i: usize = 0;
    while i < params.len()
        invariant
            i <= params.len(),
            inputs@.len() == i,
            forall|j: int| 0 <= j < i ==> (#[trigger] inputs@[j])@ == input_of(params@[j]@),
        decreases params.len() - i,
    {
        inputs.push(NamedInput { name: params[i].ident.clone(), ty: params[i].ty.clone() });
        i += 1;
    }
    assert(input_views(inputs@) =~= inputs_of(param_views(params@)));
    inputs
}

/// The identifiers of the extra parameters.
fn argument_names(params: &Vec<ExtraParam>) -> (names: Vec<String>)
    ensures
        texts(names@) == param_names(param_views(params@)),
{
    let mut names: Vec<String> = Vec::new();
    let mut i: usize = 0;
    while i < params.len()
        invariant
            i <= params.len(),
            names@.len() == i,
            forall|j: int| 0 <= j < i ==> (#[trigger] names@[j])@ == params@[j]@.ident,
        decreases params.len() - i,
    {
        names.push(params[i].ident.clone());
        i += 1;
    }
    assert(texts(names@) =~= param_names(param_views(params@)));
    names
}

/// Generates the hidden inner function that holds the command's body.
pub fn generate_inner(def: &CommandDeclaration) -> (inner: InnerFunction)
    ensures
        inner@ == inner_of(def@),
{
    InnerFunction {
        name: inner_name(def.name.as_str()),
        state: def.state.duplicate(),
        params: duplicate_params(&def.extra_params),
        ret: def.return_shape.duplicate(),
        body: def.body.clone(),
    }
}

/// Generates the wrapper for the multi-threaded host.
pub fn generate_native(def: &CommandDeclaration) -> (native: NativeWrapper)
    ensures
        native@ == native_of(def@),
{
    NativeWrapper {
        name: def.name.clone(),
        inputs: named_inputs(&def.extra_params),
        handle: String::from_str("__webtau_tauri_state"),
        state_ty: def.state.ty.clone(),
        lock: if def.state.mutable {
            LockMode::Exclusive
        } else {
            LockMode::Shared
        },
        inner_name: inner_name(def.name.as_str()),
        call_args: argument_names(&def.extra_params),
        ret: def.return_shape.duplicate(),
    }
}

/// Generates the boundary function for the single-threaded sandbox.
pub fn generate_wasm(def: &CommandDeclaration) -> (web: WebWrapper)
    ensures
        web@ == web_of(def@),
{
    let args = if def.extra_params.len() > 0 {
        Some(
            ArgsRecord {
                name: args_record_name(def.name.as_str()),
                fields: named_inputs(&def.extra_params),
            },
        )
    } else {
        None
    };
    let result = match &def.return_shape {
        crate::command::ReturnShape::Unit => WebReturn::Nothing,
        crate::command::ReturnShape::Plain(_) => WebReturn::Serialized,
        crate::command::ReturnShape::Outcome { .. } => WebReturn::Tagged,
    };
    WebWrapper {
        name: def.name.clone(),
        args,
        accessor: if def.state.mutable {
            Accessor::Write
        } else {
            Accessor::Read
        },
        inner_name: inner_name(def.name.as_str()),
        call_args: argument_names(&def.extra_params),
        result,
    }
}

/// Generates all three artifacts of a command.
pub fn generate_all(def: &CommandDeclaration) -> (all: Generated)
    ensures
        all@ == generated_of(def@),
{
    Generated {
        inner: generate_inner(def),
        native: generate_native(def),
        web: generate_wasm(def),
    }
}

} // verus!
