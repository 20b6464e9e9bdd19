//! Laws of validation and generation, each proved from the definitions that
//! the contracts of `validate` and of the generators are stated over.

use vstd::prelude::*;
use crate::artifact::{Accessor, LockMode, NamedInputView, WebReturn};
use crate::command::{param_names, reserved_prefix, CommandDeclarationView};
use crate::decl::{FnDeclView, ParamView};
use crate::diag::{Diagnostic, DiagnosticKind, Location};
use crate::generate::{inner_of, native_of, state_handle, web_of};
use crate::names::args_record_name_of;
use crate::command::ReturnShapeView;
use crate::decl::{TypeExprView, TypeShapeView};
use crate::validate::{
    binds_identifier, classify, classify_type, command_of, extra_violation, first_bad_extra,
    first_receiver, first_violation, has_reference_type, is_result_like, type_arguments,
};

verus! {

/// `first_receiver` is the least index at or after `from` that holds a
/// receiver, and the length where no such index exists.
pub proof fn lemma_first_receiver_least(params: Seq<ParamView>, from: int)
    requires
        0 <= from <= params.len(),
    ensures
        from <= first_receiver(params, from) <= params.len(),
        first_receiver(params, from) < params.len() ==> params[first_receiver(params, from)]
            is Receiver,
        forall|j: int| from <= j < first_receiver(params, from) ==> !(params[j] is Receiver),
    decreases params.len() - from,
{
    if from < params.len() && !(params[from] is Receiver) {
        lemma_first_receiver_least(params, from + 1);
    }
}

/// `first_bad_extra` is the least index at or after `from` whose parameter
/// breaks a rule for extra parameters, and the length where none does.
pub proof fn lemma_first_bad_extra_least(params: Seq<ParamView>, from: int)
    requires
        0 <= from <= params.len(),
    ensures
        from <= first_bad_extra(params, from) <= params.len(),
        first_bad_extra(params, from) < params.len() ==> extra_violation(
            params[first_bad_extra(params, from)],
        ) is Some,
        forall|j: int|
            from <= j < first_bad_extra(params, from) ==> extra_violation(params[j]) is None,
    decreases params.len() - from,
{
    if from < params.len() && extra_violation(params[from]) is None {
        lemma_first_bad_extra_least(params, from + 1);
    }
}

/// An `async` declaration is refused as such, whatever else it holds.
pub proof fn lemma_async_is_refused_first(d: FnDeclView)
    requires
        d.is_async,
    ensures
        first_violation(d) == Some(
            Diagnostic {
                kind: DiagnosticKind::UnsupportedAsync,
                location: Location::AsyncKeyword,
            },
        ),
{
}

/// A declaration that is not `async` and holds a receiver at `i` is refused
/// for its receiver, whatever else it holds, and the diagnostic points at the
/// first receiver.
pub proof fn lemma_receiver_is_refused(d: FnDeclView, i: int)
    requires
        !d.is_async,
        0 <= i < d.params.len(),
        d.params[i] is Receiver,
    ensures
        first_violation(d) is Some,
        first_violation(d).unwrap().kind == DiagnosticKind::SelfReceiverUnsupported,
        first_violation(d).unwrap().location == Location::Parameter(
            first_receiver(d.params, 0) as usize,
        ),
        first_receiver(d.params, 0) <= i,
        d.params[first_receiver(d.params, 0)] is Receiver,
{
    lemma_first_receiver_least(d.params, 0);
}

/// A declaration that is not `async` and has no parameter at all is refused
/// for its missing state parameter and for nothing else.
pub proof fn lemma_missing_state_is_refused(d: FnDeclView)
    requires
        !d.is_async,
        d.params.len() == 0,
    ensures
        first_violation(d) == Some(
            Diagnostic {
                kind: DiagnosticKind::MissingStateParameter,
                location: Location::FunctionName,
            },
        ),
{
}

/// A declaration that passes the earlier rules and whose first parameter's
/// type is no reference is refused for that type.
pub proof fn lemma_state_must_be_reference(d: FnDeclView)
    requires
        !d.is_async,
        forall|i: int| 0 <= i < d.params.len() ==> !(d.params[i] is Receiver),
        d.params.len() > 0,
        binds_identifier(d.params[0]),
        !has_reference_type(d.params[0]),
    ensures
        first_violation(d) == Some(
            Diagnostic {
                kind: DiagnosticKind::StateMustBeReference,
                location: Location::ParameterType(0),
            },
        ),
{
    lemma_first_receiver_least(d.params, 0);
}

/// A declaration is accepted exactly when it is not `async`, holds no
/// receiver, has a first parameter bound by an identifier to a reference,
/// and every later parameter is bound by an identifier outside the reserved
/// names.
pub proof fn lemma_accepted_exactly(d: FnDeclView)
    ensures
        first_violation(d) is None <==> {
            &&& !d.is_async
            &&& forall|i: int| 0 <= i < d.params.len() ==> !(d.params[i] is Receiver)
            &&& d.params.len() > 0
            &&& binds_identifier(d.params[0])
            &&& has_reference_type(d.params[0])
            &&& forall|i: int| 1 <= i < d.params.len() ==> extra_violation(d.params[i]) is None
        },
{
    lemma_first_receiver_least(d.params, 0);
    if d.params.len() > 0 {
        lemma_first_bad_extra_least(d.params, 1);
    }
}

/// The command of an accepted declaration keeps the invariant of validated
/// declarations, and has one extra parameter for each parameter after the
/// first.
pub proof fn lemma_accepted_command_is_wf(d: FnDeclView)
    requires
        first_violation(d) is None,
    ensures
        command_of(d).wf(),
        command_of(d).extra_params.len() == d.params.len() - 1,
{
    lemma_accepted_exactly(d);
    let c = command_of(d);
    assert forall|i: int| 0 <= i < c.extra_params.len() implies !reserved_prefix().is_prefix_of(
        #[trigger] c.extra_params[i].ident,
    ) by {
        assert(extra_violation(d.params[i + 1]) is None);
    }
}

/// Both wrappers of a command call the same inner function, hand it the
/// same arguments in the same order, those that the inner function
/// declares, and borrow the state in the same way, the way that the inner
/// function declares. So whatever the inner function does on given inputs,
/// it does behind either wrapper.
pub proof fn lemma_wrappers_call_alike(c: CommandDeclarationView)
    ensures
        native_of(c).inner_name == inner_of(c).name,
        web_of(c).inner_name == inner_of(c).name,
        native_of(c).call_args == param_names(inner_of(c).params),
        web_of(c).call_args == native_of(c).call_args,
        (native_of(c).lock == LockMode::Exclusive) == inner_of(c).state.mutable,
        (web_of(c).accessor == Accessor::Write) == inner_of(c).state.mutable,
        native_of(c).name == c.name,
        web_of(c).name == c.name,
        inner_of(c).body == c.body,
        native_of(c).ret == inner_of(c).ret,
{
}

/// Without extra parameters the sandbox wrapper takes no argument. With
/// some it takes one argument record, which has one field for each extra
/// parameter, in declared order, with that parameter's name and type.
pub proof fn lemma_web_arguments(c: CommandDeclarationView)
    ensures
        c.extra_params.len() == 0 <==> web_of(c).args is None,
        web_of(c).args matches Some(record) ==> {
            &&& record.name == args_record_name_of(c.name)
            &&& record.fields.len() == c.extra_params.len()
            &&& forall|i: int|
                0 <= i < c.extra_params.len() ==> {
                    &&& (#[trigger] record.fields[i]).name == c.extra_params[i].ident
                    &&& record.fields[i].ty == c.extra_params[i].ty
                }
        },
{
}

/// The host wrapper exposes each extra parameter as an input of its own, in
/// declared order, and in a validated command none of them bears the name
/// of the implicit state handle.
pub proof fn lemma_native_inputs(c: CommandDeclarationView)
    requires
        c.wf(),
    ensures
        native_of(c).inputs.len() == c.extra_params.len(),
        forall|i: int|
            0 <= i < c.extra_params.len() ==> {
                &&& (#[trigger] native_of(c).inputs[i]).name == c.extra_params[i].ident
                &&& native_of(c).inputs[i].ty == c.extra_params[i].ty
                &&& native_of(c).inputs[i].name != state_handle()
            },
{
    reveal_strlit("__webtau");
    reveal_strlit("__webtau_tauri_state");
    assert(reserved_prefix() =~= state_handle().subrange(0, 8));
    assert forall|i: int| 0 <= i < c.extra_params.len() implies (#[trigger] native_of(
        c,
    ).inputs[i]).name != state_handle() by {
        assert(!reserved_prefix().is_prefix_of(c.extra_params[i].ident));
    }
}

/// A written return type is never classified as `Unit`. It is an `Outcome`
/// exactly when it is a path whose last segment is the result-like head with
/// exactly two type arguments, which are then taken in order; every other
/// type is `Plain` and keeps its text. Only a missing return type is `Unit`.
pub proof fn lemma_classification(t: TypeExprView)
    ensures
        !(classify_type(t) is Unit),
        classify_type(t) is Outcome <==> (t.shape matches TypeShapeView::Path { segments }
            && is_result_like(segments)),
        classify_type(t) matches ReturnShapeView::Outcome { ok, err } ==> {
            &&& ok == type_arguments(t.shape->segments.last().args)[0]
            &&& err == type_arguments(t.shape->segments.last().args)[1]
        },
        classify_type(t) matches ReturnShapeView::Plain(text) ==> text == t.text,
        classify(None) == ReturnShapeView::Unit,
        classify(Some(t)) == classify_type(t),
{
}

/// Whether the texts of a list differ from one another.
pub open spec fn pairwise_distinct(names: Seq<Seq<char>>) -> bool {
    forall|i: int, j: int| 0 <= i < j < names.len() ==> names[i] != names[j]
}

/// The names of a list of inputs, in order.
pub open spec fn input_names(inputs: Seq<NamedInputView>) -> Seq<Seq<char>> {
    inputs.map_values(|p: NamedInputView| p.name)
}

/// Where the extra parameters of a command bear different identifiers, so
/// do the inputs of the host wrapper and the fields of the argument record.
pub proof fn lemma_distinct_names_carry_over(c: CommandDeclarationView)
    requires
        pairwise_distinct(c.extra_names()),
    ensures
        pairwise_distinct(input_names(native_of(c).inputs)),
        web_of(c).args matches Some(record) ==> pairwise_distinct(input_names(record.fields)),
{
    assert(input_names(native_of(c).inputs) =~= c.extra_names());
}

/// A command with a result-like return reaches the sandbox boundary tagged
/// as success or failure; one without a return hands nothing back; any
/// other hands back the serialized value. The host wrapper's return is the
/// declared one in every case.
pub proof fn lemma_return_handling(c: CommandDeclarationView)
    ensures
        c.return_shape is Outcome <==> web_of(c).result == WebReturn::Tagged,
        c.return_shape is Plain <==> web_of(c).result == WebReturn::Serialized,
        c.return_shape is Unit <==> web_of(c).result == WebReturn::Nothing,
        native_of(c).ret == c.return_shape,
{
}

} // verus!
