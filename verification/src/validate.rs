//! The signature validator and the return-shape classifier.
//!
//! The rules are checked in a fixed order and the first one broken is the one
//! reported. A declaration that breaks none becomes a `CommandDeclaration`.

use vstd::prelude::*;
use crate::command::{
    reserved_prefix, CommandDeclaration, CommandDeclarationView, ExtraParam, ExtraParamView,
    ReturnShape, ReturnShapeView, StateParam, StateParamView,
};
use crate::decl::{
    arg_views, segment_views, texts, FnDecl, FnDeclView, GenericArgKind, GenericArgView, Param,
    ParamView, PathSegmentView, Pattern, SegmentArgs, SegmentArgsView, TypeExpr, TypeExprView,
    TypeShape, TypeShapeView,
};
use crate::diag::{Diagnostic, DiagnosticKind, Location};
use crate::text::{same_text, starts_with};

verus! {

/// The head symbol of a result-like type.
pub open spec fn outcome_head() -> Seq<char> {
    "Result"@
}

/// The text of a generic argument where it is a type, nothing otherwise.
pub open spec fn type_text(a: GenericArgView) -> Option<Seq<char>> {
    if a.kind == GenericArgKind::Type {
        Some(a.text)
    } else {
        None
    }
}

/// The type arguments between a segment's angle brackets, in order.
/// Lifetimes, constants and bindings are passed over; a segment without
/// angle brackets has none.
pub open spec fn type_arguments(args: SegmentArgsView) -> Seq<Seq<char>> {
    match args {
        SegmentArgsView::AngleBracketed(list) => list.filter_map(|a: GenericArgView| type_text(a)),
        _ => Seq::empty(),
    }
}

/// Whether a path is result-like: its last segment is the result-like head
/// with exactly two type arguments.
pub open spec fn is_result_like(segments: Seq<PathSegmentView>) -> bool {
    &&& segments.len() > 0
    &&& segments.last().ident == outcome_head()
    &&& type_arguments(segments.last().args).len() == 2
}

/// The shape of a written return type: `Outcome` for a result-like path,
/// with its two type arguments in order; `Plain` with the type's text for
/// anything else.
pub open spec fn classify_type(t: TypeExprView) -> ReturnShapeView {
    match t.shape {
        TypeShapeView::Path { segments } => if is_result_like(segments) {
            ReturnShapeView::Outcome {
                ok: type_arguments(segments.last().args)[0],
                err: type_arguments(segments.last().args)[1],
            }
        } else {
            ReturnShapeView::Plain(t.text)
        },
        _ => ReturnShapeView::Plain(t.text),
    }
}

/// The shape of a return type that may be left out.
pub open spec fn classify(ret: Option<TypeExprView>) -> ReturnShapeView {
    match ret {
        None => ReturnShapeView::Unit,
        Some(t) => classify_type(t),
    }
}

/// The rule that a parameter after the first breaks, if it breaks one.
pub open spec fn extra_violation(p: ParamView) -> Option<DiagnosticKind> {
    if !binds_identifier(p) {
        Some(DiagnosticKind::NonIdentifierParameterPattern)
    } else if reserved_prefix().is_prefix_of(p->pat->name) {
        Some(DiagnosticKind::ReservedIdentifier)
    } else {
        None
    }
}

/// The least index from `from` on at which a receiver stands, or the length
/// of `params` where there is none.
pub open spec fn first_receiver(params: Seq<ParamView>, from: int) -> int
    decreases params.len() - from,
{
    if from < 0 || from >= params.len() {
        params.len() as int
    } else if params[from] is Receiver {
        from
    } else {
        first_receiver(params, from + 1)
    }
}

/// The least index from `from` on at which a parameter breaks a rule for
/// extra parameters, or the length of `params` where there is none.
pub open spec fn first_bad_extra(params: Seq<ParamView>, from: int) -> int
    decreases params.len() - from,
{
    if from < 0 || from >= params.len() {
        params.len() as int
    } else if extra_violation(params[from]) is Some {
        from
    } else {
        first_bad_extra(params, from + 1)
    }
}

/// Whether a parameter is bound by a plain identifier.
pub open spec fn binds_identifier(p: ParamView) -> bool {
    p matches ParamView::Typed { pat, .. } && pat.is_plain()
}

/// Whether a parameter's type is a reference.
pub open spec fn has_reference_type(p: ParamView) -> bool {
    p matches ParamView::Typed { ty, .. } && ty.shape is Reference
}

/// The diagnostic for a broken extra-parameter rule at index `i`.
pub open spec fn extra_diagnostic(kind: DiagnosticKind, i: usize) -> Diagnostic {
    Diagnostic {
        kind,
        location: if kind == DiagnosticKind::ReservedIdentifier {
            Location::ParameterName(i)
        } else {
            Location::ParameterPattern(i)
        },
    }
}

/// The first rule that a declaration breaks, in the order in which the rules
/// are checked, with the place that breaks it; `None` for a declaration that
/// breaks none.
pub open spec fn first_violation(d: FnDeclView) -> Option<Diagnostic> {
    if d.is_async {
        Some(
            Diagnostic {
                kind: DiagnosticKind::UnsupportedAsync,
                location: Location::AsyncKeyword,
            },
        )
    } else if first_receiver(d.params, 0) < d.params.len() {
        Some(
            Diagnostic {
                kind: DiagnosticKind::SelfReceiverUnsupported,
                location: Location::Parameter(first_receiver(d.params, 0) as usize),
            },
        )
    } else if d.params.len() == 0 {
        Some(
            Diagnostic {
                kind: DiagnosticKind::MissingStateParameter,
                location: Location::FunctionName,
            },
        )
    } else if !binds_identifier(d.params[0]) {
        Some(
            Diagnostic {
                kind: DiagnosticKind::NonIdentifierStatePattern,
                location: Location::ParameterPattern(0),
            },
        )
    } else if !has_reference_type(d.params[0]) {
        Some(
            Diagnostic {
                kind: DiagnosticKind::StateMustBeReference,
                location: Location::ParameterType(0),
            },
        )
    } else if first_bad_extra(d.params, 1) < d.params.len() {
        Some(
            extra_diagnostic(
                extra_violation(d.params[first_bad_extra(d.params, 1)]).unwrap(),
                first_bad_extra(d.params, 1) as usize,
            ),
        )
    } else {
        None
    }
}

/// The state parameter that a first parameter stands for.
pub open spec fn state_of(p: ParamView) -> StateParamView {
    StateParamView {
        ident: p->pat->name,
        ty: p->ty.shape->elem,
        mutable: p->ty.shape->Reference_mutable,
    }
}

/// The extra parameter that a later parameter stands for.
pub open spec fn extra_of(p: ParamView) -> ExtraParamView {
    ExtraParamView { mutable: p->pat->mutable, ident: p->pat->name, ty: p->ty.text }
}

/// The command that a declaration without violation describes.
pub open spec fn command_of(d: FnDeclView) -> CommandDeclarationView {
    CommandDeclarationView {
        name: d.name,
        state: state_of(d.params[0]),
        extra_params: Seq::new((d.params.len() - 1) as nat, |i: int| extra_of(d.params[i + 1])),
        return_shape: classify(d.ret),
        body: d.body,
    }
}

/// Collects the type arguments of a segment, in order.
pub fn collect_type_arguments(args: &SegmentArgs) -> (out: Vec<String>)
    ensures
        texts(out@) == type_arguments(args@),
{
    let mut out: Vec<String> = Vec::new();
    match args {
        SegmentArgs::AngleBracketed(list) => {
            let ghost all = arg_views(list@);
            let ghost pick = |a: GenericArgView| type_text(a);
            let mut i: usize = 0;
            while i < list.len()
                invariant
                    i <= list.len(),
                    all == arg_views(list@),
                    pick == (|a: GenericArgView| type_text(a)),
                    texts(out@) == all.take(i as int).filter_map(pick),
                decreases list.len() - i,
            {
                proof {
                    all.lemma_filter_map_take_succ(pick, i as int);
                }
                let ghost before = out@;
                match list[i].kind {
                    GenericArgKind::Type => {
                        out.push(list[i].text.clone());
                        assert(texts(out@) =~= texts(before) + seq![list@[i as int].text@]);
                    },
                    _ => {
                        assert(texts(out@) =~= texts(before) + Seq::<Seq<char>>::empty());
                    },
                }
                i += 1;
            }
            assert(all.take(i as int) =~= all);
        },
        _ => {
            assert(texts(out@) =~= Seq::<Seq<char>>::empty());
        },
    }
    out
}

/// Classifies a written return type.
pub fn parse_return_type(ty: &TypeExpr) -> (shape: ReturnShape)
    ensures
        shape@ == classify_type(ty@),
{
    match &ty.shape {
        TypeShape::Path { segments } => {
            let n: usize = segments.len();
            if n > 0 && same_text(segments[n - 1].ident.as_str(), "Result") {
                assert(segment_views(segments@).last() == segments@[n - 1]@);
                let types = collect_type_arguments(&segments[n - 1].args);
                if types.len() == 2 {
                    assert(texts(types@)[0] == types@[0]@);
                    assert(texts(types@)[1] == types@[1]@);
                    return ReturnShape::Outcome { ok: types[0].clone(), err: types[1].clone() };
                }
            }
        },
        _ => {},
    }
    ReturnShape::Plain(ty.text.clone())
}

/// Classifies the return type of a declaration, which may be left out.
pub fn classify_return(ret: &Option<TypeExpr>) -> (shape: ReturnShape)
    ensures
        shape@ == classify(
            match *ret {
                Some(t) => Some(t@),
                None => None,
            },
        ),
{
    match ret {
        None => ReturnShape::Unit,
        Some(ty) => parse_return_type(ty),
    }
}

/// Validates a declaration.
///
/// The result is an error exactly when the declaration breaks a rule, and
/// then it is the first rule broken with its place. Otherwise it is the
/// command that the declaration describes, which keeps the invariant of
/// validated declarations.
pub fn validate(func: &FnDecl) -> (res: Result<CommandDeclaration, Diagnostic>)
    ensures
        match res {
            Ok(cmd) => first_violation(func@) is None && cmd@ == command_of(func@) && cmd.wf(),
            Err(d) => first_violation(func@) == Some(d),
        },
{
    let ghost params = func@.params;
    if func.is_async {
        return Err(
            Diagnostic {
                kind: DiagnosticKind::UnsupportedAsync,
                location: Location::AsyncKeyword,
            },
        );
    }
    let n: usize = func.params.len();
    let mut i: usize = 0;
    while i < n
        invariant
            i <= n,
            n == func.params.len(),
            params == func@.params,
            !func.is_async,
            first_receiver(params, 0) == first_receiver(params, i as int),
        decreases n - i,
    {
        assert(params[i as int] == func.params@[i as int]@);
        match &func.params[i] {
            Param::Receiver => {
                return Err(
                    Diagnostic {
                        kind: DiagnosticKind::SelfReceiverUnsupported,
                        location: Location::Parameter(i),
                    },
                );
            },
            _ => {},
        }
        i += 1;
    }
    if n == 0 {
        return Err(
            Diagnostic {
                kind: DiagnosticKind::MissingStateParameter,
                location: Location::FunctionName,
            },
        );
    }
    let (state_ident, first_ty) = match &func.params[0] {
        Param::Typed {
            pat: Pattern::Ident { mutable: _, by_ref: false, subpattern: false, name },
            ty,
        } => (name.clone(), ty),
        _ => {
            return Err(
                Diagnostic {
                    kind: DiagnosticKind::NonIdentifierStatePattern,
                    location: Location::ParameterPattern(0),
                },
            );
        },
    };
    let (state_ty, state_mut) = match &first_ty.shape {
        TypeShape::Reference { mutable, elem } => (elem.clone(), *mutable),
        _ => {
            return Err(
                Diagnostic {
                    kind: DiagnosticKind::StateMustBeReference,
                    location: Location::ParameterType(0),
                },
            );
        },
    };
    let mut extra_params: Vec<ExtraParam> = Vec::new();
    let mut k: usize = 1;
    while k < n
        invariant
            1 <= k <= n,
            n == func.params.len(),
            params == func@.params,
            !func.is_async,
            first_receiver(params, 0) >= n,
            binds_identifier(params[0]),
            has_reference_type(params[0]),
            first_bad_extra(params, 1) == first_bad_extra(params, k as int),
            extra_params@.len() == k - 1,
            forall|j: int| 0 <= j < k - 1 ==> (#[trigger] extra_params@[j])@ == extra_of(params[j + 1]),
            forall|j: int|
                0 <= j < k - 1 ==> !reserved_prefix().is_prefix_of(
                    (#[trigger] extra_params@[j])@.ident,
                ),
        decreases n - k,
    {
        proof {
            reveal_strlit("__webtau");
            assert(params[k as int] == func.params@[k as int]@);
        }
        match &func.params[k] {
            Param::Typed {
                pat: Pattern::Ident { mutable, by_ref: false, subpattern: false, name },
                ty,
            } => {
                if starts_with(name.as_str(), "__webtau") {
                    return Err(
                        Diagnostic {
                            kind: DiagnosticKind::ReservedIdentifier,
                            location: Location::ParameterName(k),
                        },
                    );
                }
                extra_params.push(
                    ExtraParam { mutable: *mutable, ident: name.clone(), ty: ty.text.clone() },
                );
            },
            _ => {
                return Err(
                    Diagnostic {
                        kind: DiagnosticKind::NonIdentifierParameterPattern,
                        location: Location::ParameterPattern(k),
                    },
                );
            },
        }
        k += 1;
    }
    let return_shape = classify_return(&func.ret);
    let cmd = CommandDeclaration {
        name: func.name.clone(),
        state: StateParam { ident: state_ident, ty: state_ty, mutable: state_mut },
        extra_params,
        return_shape,
        body: func.body.clone(),
    };
    proof {
        assert(cmd@.extra_params =~= command_of(func@).extra_params);
    }
    Ok(cmd)
}

} // verus!
