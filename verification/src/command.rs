//! The validated command declaration: the one entity that every generated
//! artifact is derived from.

use vstd::prelude::*;

verus! {

/// The identifier prefix that generated code keeps for itself.
pub open spec fn reserved_prefix() -> Seq<char> {
    "__webtau"@
}

/// The required first parameter: the shared state, borrowed.
#[derive(Debug, Clone, PartialEq, Eq)]
pub struct StateParam {
    /// The identifier that the body knows the state by.
    pub ident: String,
    /// The text of the referenced type.
    pub ty: String,
    /// Whether the state is borrowed exclusively (`&mut T`).
    pub mutable: bool,
}

/// The mathematical model of a [`StateParam`].
pub struct StateParamView {
    pub ident: Seq<char>,
    pub ty: Seq<char>,
    pub mutable: bool,
}

impl View for StateParam {
    type V = StateParamView;

    open spec fn view(&self) -> StateParamView {
        StateParamView { ident: self.ident@, ty: self.ty@, mutable: self.mutable }
    }
}

/// A parameter after the state parameter.
#[derive(Debug, Clone, PartialEq, Eq)]
pub struct ExtraParam {
    /// Whether the binding is written `mut name`.
    pub mutable: bool,
    /// The identifier that the parameter binds.
    pub ident: String,
    /// The text of the parameter's type.
    pub ty: String,
}

/// The mathematical model of an [`ExtraParam`].
pub struct ExtraParamView {
    pub mutable: bool,
    pub ident: Seq<char>,
    pub ty: Seq<char>,
}

impl View for ExtraParam {
    type V = ExtraParamView;

    open spec fn view(&self) -> ExtraParamView {
        ExtraParamView { mutable: self.mutable, ident: self.ident@, ty: self.ty@ }
    }
}

/// What a command returns, as far as the wrappers need to tell.
#[derive(Debug, Clone, PartialEq, Eq)]
pub enum ReturnShape {
    /// No return type is written.
    Unit,
    /// Any type that is not result-like; the text of the type.
    Plain(String),
    /// A result-like type with its two type arguments.
    Outcome { ok: String, err: String },
}

/// The mathematical model of a [`ReturnShape`].
pub enum ReturnShapeView {
    Unit,
    Plain(Seq<char>),
    Outcome { ok: Seq<char>, err: Seq<char> },
}

impl View for ReturnShape {
    type V = ReturnShapeView;

    open spec fn view(&self) -> ReturnShapeView {
        match *self {
            ReturnShape::Unit => ReturnShapeView::Unit,
            ReturnShape::Plain(t) => ReturnShapeView::Plain(t@),
            ReturnShape::Outcome { ok, err } => ReturnShapeView::Outcome { ok: ok@, err: err@ },
        }
    }
}

/// The views of a list of extra parameters, in order.
pub open spec fn param_views(v: Seq<ExtraParam>) -> Seq<ExtraParamView> {
    v.map_values(|p: ExtraParam| p@)
}

/// The identifiers of a list of extra parameters, in order.
pub open spec fn param_names(v: Seq<ExtraParamView>) -> Seq<Seq<char>> {
    v.map_values(|p: ExtraParamView| p.ident)
}

/// A declaration that passed validation.
#[derive(Debug, Clone, PartialEq, Eq)]
pub struct CommandDeclaration {
    /// The operation's name.
    pub name: String,
    /// The state parameter.
    pub state: StateParam,
    /// The parameters after the state parameter, in declared order.
    pub extra_params: Vec<ExtraParam>,
    /// The classified return type.
    pub return_shape: ReturnShape,
    /// The body block as written.
    pub body: String,
}

/// The mathematical model of a [`CommandDeclaration`].
pub struct CommandDeclarationView {
    pub name: Seq<char>,
    pub state: StateParamView,
    pub extra_params: Seq<ExtraParamView>,
    pub return_shape: ReturnShapeView,
    pub body: Seq<char>,
}

impl View for CommandDeclaration {
    type V = CommandDeclarationView;

    open spec fn view(&self) -> CommandDeclarationView {
        CommandDeclarationView {
            name: self.name@,
            state: self.state@,
            extra_params: param_views(self.extra_params@),
            return_shape: self.return_shape@,
            body: self.body@,
        }
    }
}

impl CommandDeclarationView {
    /// No extra parameter's identifier starts with the reserved prefix.
    pub open spec fn wf(self) -> bool {
        forall|i: int|
            0 <= i < self.extra_params.len() ==> !reserved_prefix().is_prefix_of(
                #[trigger] self.extra_params[i].ident,
            )
    }

    /// The identifiers of the extra parameters, in declared order.
    pub open spec fn extra_names(self) -> Seq<Seq<char>> {
        param_names(self.extra_params)
    }
}

impl CommandDeclaration {
    /// The invariant of a validated declaration.
    pub open spec fn wf(&self) -> bool {
        self@.wf()
    }
}

impl StateParam {
    /// A copy of the parameter.
    pub fn duplicate(&self) -> (copy: StateParam)
        ensures
            copy == *self,
    {
        StateParam { ident: self.ident.clone(), ty: self.ty.clone(), mutable: self.mutable }
    }
}

impl ExtraParam {
    /// A copy of the parameter.
    pub fn duplicate(&self) -> (copy: ExtraParam)
        ensures
            copy == *self,
    {
        ExtraParam { mutable: self.mutable, ident: self.ident.clone(), ty: self.ty.clone() }
    }
}

impl ReturnShape {
    /// A copy of the shape.
    pub fn duplicate(&self) -> (copy: ReturnShape)
        ensures
            copy == *self,
    {
        match self {
            ReturnShape::Unit => ReturnShape::Unit,
            ReturnShape::Plain(t) => ReturnShape::Plain(t.clone()),
            ReturnShape::Outcome { ok, err } => ReturnShape::Outcome {
                ok: ok.clone(),
                err: err.clone(),
            },
        }
    }
}

/// A copy of a list of extra parameters, in the same order.
pub fn duplicate_params(params: &Vec<ExtraParam>) -> (copy: Vec<ExtraParam>)
    ensures
        copy@ == params@,
{
    let mut copy: Vec<ExtraParam> = Vec::new();
    let mut i: usize = 0;
    while i < params.len()
        invariant
            i <= params.len(),
            copy@ == params@.take(i as int),
        decreases params.len() - i,
    {
        copy.push(params[i].duplicate());
        assert(copy@ =~= params@.take(i + 1));
        i += 1;
    }
    assert(params@.take(i as int) =~= params@);
    copy
}

} // verus!
