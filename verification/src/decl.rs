//! The raw shape of a function declaration, as a front end hands it over.
//!
//! Types, bodies and identifiers are carried as source text. Beside the text
//! of a type stands its shape: whether it is a reference, and for a path its
//! segments with every generic argument, so that the validator and the
//! return-shape classifier decide what they read of it.

use vstd::prelude::*;

verus! {

/// The views of a vector of strings, in order.
pub open spec fn texts(v: Seq<String>) -> Seq<Seq<char>> {
    v.map_values(|s: String| s@)
}

/// The kind of one argument between the angle brackets of a path segment.
#[derive(Debug, Clone, Copy, PartialEq, Eq, Structural)]
pub enum GenericArgKind {
    /// A type, as `T` in `Vec<T>`.
    Type,
    /// A lifetime, as `'a` in `Cow<'a, str>`.
    Lifetime,
    /// A constant, as `3` in `Grid<3>`.
    Const,
    /// Anything else: a binding or a bound of an associated item.
    Other,
}

/// One argument between the angle brackets of a path segment.
#[derive(Debug, Clone, PartialEq, Eq)]
pub struct GenericArg {
    pub kind: GenericArgKind,
    /// The argument as written.
    pub text: String,
}

/// The mathematical model of a [`GenericArg`].
pub struct GenericArgView {
    pub kind: GenericArgKind,
    pub text: Seq<char>,
}

impl View for GenericArg {
    type V = GenericArgView;

    open spec fn view(&self) -> GenericArgView {
        GenericArgView { kind: self.kind, text: self.text@ }
    }
}

/// The views of a list of generic arguments, in order.
pub open spec fn arg_views(v: Seq<GenericArg>) -> Seq<GenericArgView> {
    v.map_values(|a: GenericArg| a@)
}

/// What follows the identifier of a path segment.
#[derive(Debug, Clone, PartialEq, Eq)]
pub enum SegmentArgs {
    /// Nothing, as in `View`.
    Bare,
    /// Arguments between angle brackets, as in `Result<View, E>`; every
    /// argument is kept, in order.
    AngleBracketed(Vec<GenericArg>),
    /// Arguments between round brackets, as in `Fn(u8) -> u8`.
    Parenthesized,
}

/// The mathematical model of a [`SegmentArgs`].
pub enum SegmentArgsView {
    Bare,
    AngleBracketed(Seq<GenericArgView>),
    Parenthesized,
}

impl View for SegmentArgs {
    type V = SegmentArgsView;

    open spec fn view(&self) -> SegmentArgsView {
        match *self {
            SegmentArgs::Bare => SegmentArgsView::Bare,
            SegmentArgs::AngleBracketed(list) => SegmentArgsView::AngleBracketed(arg_views(list@)),
            SegmentArgs::Parenthesized => SegmentArgsView::Parenthesized,
        }
    }
}

/// One segment of a path: an identifier and what follows it.
#[derive(Debug, Clone, PartialEq, Eq)]
pub struct PathSegment {
    pub ident: String,
    pub args: SegmentArgs,
}

/// The mathematical model of a [`PathSegment`].
pub struct PathSegmentView {
    pub ident: Seq<char>,
    pub args: SegmentArgsView,
}

impl View for PathSegment {
    type V = PathSegmentView;

    open spec fn view(&self) -> PathSegmentView {
        PathSegmentView { ident: self.ident@, args: self.args@ }
    }
}

/// The views of the segments of a path, in order.
pub open spec fn segment_views(v: Seq<PathSegment>) -> Seq<PathSegmentView> {
    v.map_values(|s: PathSegment| s@)
}

/// What the engine reads of a type.
#[derive(Debug, Clone, PartialEq, Eq)]
pub enum TypeShape {
    /// `&T` or `&mut T`; `elem` is the text of `T`.
    Reference { mutable: bool, elem: String },
    /// A path type: its segments in order, each with all of its arguments.
    Path { segments: Vec<PathSegment> },
    /// Any other type.
    Other,
}

/// The mathematical model of a [`TypeShape`].
pub enum TypeShapeView {
    Reference { mutable: bool, elem: Seq<char> },
    Path { segments: Seq<PathSegmentView> },
    Other,
}

impl View for TypeShape {
    type V = TypeShapeView;

    open spec fn view(&self) -> TypeShapeView {
        match *self {
            TypeShape::Reference { mutable, elem } => TypeShapeView::Reference {
                mutable,
                elem: elem@,
            },
            TypeShape::Path { segments } => TypeShapeView::Path {
                segments: segment_views(segments@),
            },
            TypeShape::Other => TypeShapeView::Other,
        }
    }
}

/// A type as written: its source text and its shape.
#[derive(Debug, Clone, PartialEq, Eq)]
pub struct TypeExpr {
    pub text: String,
    pub shape: TypeShape,
}

/// The mathematical model of a [`TypeExpr`].
pub struct TypeExprView {
    pub text: Seq<char>,
    pub shape: TypeShapeView,
}

impl View for TypeExpr {
    type V = TypeExprView;

    open spec fn view(&self) -> TypeExprView {
        TypeExprView { text: self.text@, shape: self.shape@ }
    }
}

/// The binding of a parameter.
#[derive(Debug, Clone, PartialEq, Eq)]
pub enum Pattern {
    /// A binding by one identifier, with whatever is written around it.
    Ident {
        /// Whether `mut` stands before the identifier.
        mutable: bool,
        /// Whether `ref` stands before the identifier.
        by_ref: bool,
        /// Whether a subpattern follows the identifier, as in `p @ (x, y)`.
        subpattern: bool,
        name: String,
    },
    /// Anything else: a tuple, a struct pattern, a wildcard.
    Other,
}

/// The mathematical model of a [`Pattern`].
pub enum PatternView {
    Ident { mutable: bool, by_ref: bool, subpattern: bool, name: Seq<char> },
    Other,
}

impl View for Pattern {
    type V = PatternView;

    open spec fn view(&self) -> PatternView {
        match *self {
            Pattern::Ident { mutable, by_ref, subpattern, name } => PatternView::Ident {
                mutable,
                by_ref,
                subpattern,
                name: name@,
            },
            Pattern::Other => PatternView::Other,
        }
    }
}

impl PatternView {
    /// Whether the binding is a plain identifier: one identifier, with or
    /// without `mut`, and neither `ref` nor a subpattern.
    pub open spec fn is_plain(self) -> bool {
        self matches PatternView::Ident { by_ref, subpattern, .. } && !by_ref && !subpattern
    }
}

/// One parameter of a declaration.
#[derive(Debug, Clone, PartialEq, Eq)]
pub enum Param {
    /// A `self` receiver in any of its forms.
    Receiver,
    /// A binding and its type.
    Typed { pat: Pattern, ty: TypeExpr },
}

/// The mathematical model of a [`Param`].
pub enum ParamView {
    Receiver,
    Typed { pat: PatternView, ty: TypeExprView },
}

impl View for Param {
    type V = ParamView;

    open spec fn view(&self) -> ParamView {
        match *self {
            Param::Receiver => ParamView::Receiver,
            Param::Typed { pat, ty } => ParamView::Typed { pat: pat@, ty: ty@ },
        }
    }
}

/// A function declaration before validation.
#[derive(Debug, Clone, PartialEq, Eq)]
pub struct FnDecl {
    /// The function's name.
    pub name: String,
    /// Whether the declaration is marked `async`.
    pub is_async: bool,
    /// The parameters in declared order.
    pub params: Vec<Param>,
    /// The declared return type, if one is written.
    pub ret: Option<TypeExpr>,
    /// The body block, braces included, as written.
    pub body: String,
}

/// The mathematical model of a [`FnDecl`].
pub struct FnDeclView {
    pub name: Seq<char>,
    pub is_async: bool,
    pub params: Seq<ParamView>,
    pub ret: Option<TypeExprView>,
    pub body: Seq<char>,
}

impl View for FnDecl {
    type V = FnDeclView;

    open spec fn view(&self) -> FnDeclView {
        FnDeclView {
            name: self.name@,
            is_async: self.is_async,
            params: self.params@.map_values(|p: Param| p@),
            ret: match self.ret {
                Some(t) => Some(t@),
                None => None,
            },
            body: self.body@,
        }
    }
}

} // verus!
