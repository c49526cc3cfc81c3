//! Dialects: which optional constructs of the language a parse accepts.
//!
//! A [`Dialect`] is a set of switches. The parser asks it at each optional
//! construct; the answer is the construct itself, unchanged, or a
//! [`Diagnostic`] that names the construct and the place.

use vstd::prelude::*;
use crate::ast::TypeExpr;
use crate::ast::Visibility;
use crate::codemap::CodeMap;
use crate::codemap::Pos;
use crate::codemap::Span;
use crate::codemap::Spanned;

verus! {

/// A construct that a dialect can forbid.
#[derive(Debug, Clone, Copy, PartialEq, Eq, Hash, Structural)]
pub enum DialectError {
    Def,
    Lambda,
    Load,
    KeywordOnlyArguments,
    Types,
}

impl DialectError {
    /// The text shown for each kind.
    pub open spec fn message_text(self) -> Seq<char> {
        match self {
            DialectError::Def => "`def` is not allowed in this dialect"@,
            DialectError::Lambda => "`lambda` is not allowed in this dialect"@,
            DialectError::Load => "`load` is not allowed in this dialect"@,
            DialectError::KeywordOnlyArguments =>
                "* keyword-only-arguments is not allowed in this dialect"@,
            DialectError::Types => "type annotations are not allowed in this dialect"@,
        }
    }

    /// The message of this kind: one fixed text per kind, the same at every call.
    pub fn message(&self) -> (s: &'static str)
        ensures
            s@ == self.message_text(),
    {
        match self {
            DialectError::Def => "`def` is not allowed in this dialect",
            DialectError::Lambda => "`lambda` is not allowed in this dialect",
            DialectError::Load => "`load` is not allowed in this dialect",
            DialectError::KeywordOnlyArguments =>
                "* keyword-only-arguments is not allowed in this dialect",
            DialectError::Types => "type annotations are not allowed in this dialect",
        }
    }
}

/// A rejected construct: what it was, where it stood, and in which source unit.
#[derive(Debug, Clone, Copy, PartialEq, Eq)]
pub struct Diagnostic<'a> {
    pub kind: DialectError,
    pub span: Span,
    pub codemap: &'a CodeMap,
}

/// How to handle type annotations.
#[derive(Debug, Clone, Copy, PartialEq, Eq, Hash, Structural)]
pub enum DialectTypes {
    /// Prohibit types at parse time.
    Disable,
    /// Allow types at parse time, but ignore types at runtime.
    ParseOnly,
    /// Check types at runtime.
    Enable,
}

/// Language features to enable.
///
/// Start from [`Dialect::standard`] or [`Dialect::extended`] and set the
/// fields that should differ.
#[derive(Debug, Clone, Copy, PartialEq, Eq, Hash, Structural)]
pub struct Dialect {
    /// Are `def` statements permitted.
    pub enable_def: bool,
    /// Are `lambda` expressions permitted.
    pub enable_lambda: bool,
    /// Are `load` statements permitted.
    pub enable_load: bool,
    /// Are `*` keyword-only arguments allowed in a function's parameters.
    pub enable_keyword_only_arguments: bool,
    /// Are expressions allowed in type positions.
    pub enable_types: DialectTypes,
    /// Do `load()` statements reexport what they load.
    pub enable_load_reexport: bool,
    /// Are `for`, `if` and other statements allowed at the top level.
    pub enable_top_level_stmt: bool,
    /// Are `f"{expression}"` strings supported.
    pub enable_f_strings: bool,
}

/// The rejection of a construct of kind `kind` at `span` in `codemap`.
pub fn err<'a, T>(codemap: &'a CodeMap, span: Span, kind: DialectError) -> (r: Result<
    T,
    Diagnostic<'a>,
>)
    ensures
        r == Err::<T, Diagnostic<'a>>(Diagnostic { kind, span, codemap }),
{
    Err(Diagnostic { kind, span, codemap })
}

/// What went wrong in a type position: the dialect has no type annotations,
/// or the expression is not shaped like a type. The two are kept apart.
#[derive(Debug, Clone, Copy, PartialEq, Eq)]
pub enum TypeError<'a, S> {
    /// The dialect's own rejection, of kind [`DialectError::Types`].
    Dialect(Diagnostic<'a>),
    /// The shape validator's error, as it gave it.
    Shape(S),
}

/// The position that a byte offset names: the offset modulo 2^32.
pub open spec fn offset_pos(offset: usize) -> Pos {
    Pos((offset as int % 0x1_0000_0000) as u32)
}

/// The span between two byte offsets.
pub open spec fn span_of_offsets(begin: usize, end: usize) -> Span {
    Span { begin: offset_pos(begin), end: offset_pos(end) }
}

/// The position that a byte offset names.
pub fn pos_of_offset(offset: usize) -> (p: Pos)
    ensures
        p == offset_pos(offset),
{
    let wide: u64 = offset as u64;
    let low: u64 = wide % 0x1_0000_0000;
    Pos::new(low as u32)
}

/// An expression as a type annotation: the same expression under the same
/// span, and the node spans what the expression spans.
pub open spec fn as_type_expr<E>(x: Spanned<E>) -> Spanned<TypeExpr<E>> {
    Spanned { node: TypeExpr { expr: x }, span: x.span }
}

/// What becomes of an expression in a type position once the shape validator
/// has spoken: the type annotation, or the validator's error.
pub open spec fn accepted_shape<'a, E, S>(x: Spanned<E>, shape: Result<(), S>) -> Result<
    Spanned<TypeExpr<E>>,
    TypeError<'a, S>,
> {
    match shape {
        Ok(_) => Ok(as_type_expr(x)),
        Err(e) => Err(TypeError::Shape(e)),
    }
}

/// Wraps an expression as a type annotation.
pub fn into_type_expr<E>(x: Spanned<E>) -> (t: Spanned<TypeExpr<E>>)
    ensures
        t == as_type_expr(x),
{
    let span = x.span;
    let wrap = |node: E| -> (e: TypeExpr<E>)
        ensures
            e == (TypeExpr { expr: Spanned { node, span } }),
        { TypeExpr { expr: Spanned { node, span } } };
    x.into_map(wrap)
}

/// Finishes the check of a type position in a dialect that has type
/// annotations: `shape` is what the shape validator said of `x`.
pub fn accept_shape<'a, E, S>(x: Spanned<E>, shape: Result<(), S>) -> (r: Result<
    Spanned<TypeExpr<E>>,
    TypeError<'a, S>,
>)
    ensures
        r == accepted_shape::<E, S>(x, shape),
{
    match shape {
        Ok(_) => Ok(into_type_expr(x)),
        Err(e) => Err(TypeError::Shape(e)),
    }
}

impl Dialect {
    /// The standard dialect, as a value of specifications.
    pub open spec fn standard_profile() -> Dialect {
        Dialect {
            enable_def: true,
            enable_lambda: true,
            enable_load: true,
            enable_keyword_only_arguments: false,
            enable_types: DialectTypes::Disable,
            enable_load_reexport: true,
            enable_top_level_stmt: false,
            enable_f_strings: false,
        }
    }

    /// The extended dialect, as a value of specifications.
    pub open spec fn extended_profile() -> Dialect {
        Dialect {
            enable_def: true,
            enable_lambda: true,
            enable_load: true,
            enable_keyword_only_arguments: true,
            enable_types: DialectTypes::ParseOnly,
            enable_load_reexport: true,
            enable_top_level_stmt: true,
            enable_f_strings: false,
        }
    }

    /// Follows the language standard as closely as possible: `def`, `lambda`
    /// and `load` with reexport; nothing else.
    pub fn standard() -> (d: Dialect)
        ensures
            d == Dialect::standard_profile(),
    {
        Dialect {
            enable_def: true,
            enable_lambda: true,
            enable_load: true,
            enable_keyword_only_arguments: false,
            enable_types: DialectTypes::Disable,
            enable_load_reexport: true,
            enable_top_level_stmt: false,
            enable_f_strings: false,
        }
    }

    /// The standard dialect and more: keyword-only arguments, type annotations
    /// that are parsed and not enforced, and statements at the top level.
    pub fn extended() -> (d: Dialect)
        ensures
            d == Dialect::extended_profile(),
    {
        Dialect {
            enable_def: true,
            enable_lambda: true,
            enable_load: true,
            enable_keyword_only_arguments: true,
            enable_types: DialectTypes::ParseOnly,
            enable_load_reexport: true,
            enable_top_level_stmt: true,
            enable_f_strings: false,
        }
    }

    /// Whether this dialect permits the construct that `kind` stands for.
    pub open spec fn allows(self, kind: DialectError) -> bool {
        match kind {
            DialectError::Def => self.enable_def,
            DialectError::Lambda => self.enable_lambda,
            DialectError::Load => self.enable_load,
            DialectError::KeywordOnlyArguments => self.enable_keyword_only_arguments,
            DialectError::Types => self.enable_types != DialectTypes::Disable,
        }
    }

    /// What a gate answers: the fragment itself where the construct is
    /// permitted, else the diagnostic of that kind at that span.
    pub open spec fn gate<'a, T>(
        self,
        kind: DialectError,
        codemap: &'a CodeMap,
        span: Span,
        x: T,
    ) -> Result<T, Diagnostic<'a>> {
        if self.allows(kind) {
            Ok(x)
        } else {
            Err(Diagnostic { kind, span, codemap })
        }
    }

    /// Accepts a `lambda` expression where the dialect has them.
    pub fn check_lambda<'a, T>(&self, codemap: &'a CodeMap, x: Spanned<T>) -> (r: Result<
        Spanned<T>,
        Diagnostic<'a>,
    >)
        ensures
            r == self.gate(DialectError::Lambda, codemap, x.span, x),
    {
        if self.enable_lambda {
            Ok(x)
        } else {
            err(codemap, x.span, DialectError::Lambda)
        }
    }

    /// Accepts a `def` statement where the dialect has them.
    pub fn check_def<'a, T>(&self, codemap: &'a CodeMap, x: Spanned<T>) -> (r: Result<
        Spanned<T>,
        Diagnostic<'a>,
    >)
        ensures
            r == self.gate(DialectError::Def, codemap, x.span, x),
    {
        if self.enable_def {
            Ok(x)
        } else {
            err(codemap, x.span, DialectError::Def)
        }
    }

    /// Accepts a `load` statement where the dialect has them.
    pub fn check_load<'a, T>(&self, codemap: &'a CodeMap, x: Spanned<T>) -> (r: Result<
        Spanned<T>,
        Diagnostic<'a>,
    >)
        ensures
            r == self.gate(DialectError::Load, codemap, x.span, x),
    {
        if self.enable_load {
            Ok(x)
        } else {
            err(codemap, x.span, DialectError::Load)
        }
    }

    /// Accepts a group of keyword-only parameters where the dialect has them.
    ///
    /// The group has no span of its own yet: `begin` and `end` are its byte
    /// offsets, and the span is made here. Positions are 32 bits wide, and an
    /// offset beyond that wraps around.
    pub fn check_keyword_only_arguments<'a, T>(
        &self,
        codemap: &'a CodeMap,
        begin: usize,
        end: usize,
        x: T,
    ) -> (r: Result<T, Diagnostic<'a>>)
        ensures
            r == self.gate(
                DialectError::KeywordOnlyArguments,
                codemap,
                span_of_offsets(begin, end),
                x,
            ),
    {
        let span = Span::new(pos_of_offset(begin), pos_of_offset(end));
        if self.enable_keyword_only_arguments {
            Ok(x)
        } else {
            err(codemap, span, DialectError::KeywordOnlyArguments)
        }
    }

    /// What the check of a type position answers, given what the shape
    /// validator said of the expression.
    ///
    /// The dialect is asked first: where it has no type annotations, the
    /// answer is its own diagnostic, whatever the validator would say.
    pub open spec fn type_position<'a, E, S>(
        self,
        codemap: &'a CodeMap,
        x: Spanned<E>,
        shape: Result<(), S>,
    ) -> Result<Spanned<TypeExpr<E>>, TypeError<'a, S>> {
        match self.gate(DialectError::Types, codemap, x.span, x) {
            Err(d) => Err(TypeError::Dialect(d)),
            Ok(x) => accepted_shape(x, shape),
        }
    }

    /// Accepts an expression in a type position where the dialect has type
    /// annotations and `validator` finds the expression shaped like a type.
    ///
    /// The validator is called only where the dialect has type annotations.
    /// Its error comes back as it is, apart from the dialect's own.
    pub fn check_type<'a, E, S, V>(&self, codemap: &'a CodeMap, x: Spanned<E>, validator: V) -> (r:
        Result<Spanned<TypeExpr<E>>, TypeError<'a, S>>) where
        V: FnOnce(&Spanned<E>, &'a CodeMap) -> Result<(), S>,

        requires
            self.allows(DialectError::Types) ==> validator.requires((&x, codemap)),
        ensures
            !self.allows(DialectError::Types) ==> r == Err::<Spanned<TypeExpr<E>>, TypeError<'a, S>>(
                TypeError::Dialect(Diagnostic { kind: DialectError::Types, span: x.span, codemap }),
            ),
            self.allows(DialectError::Types) ==> exists|shape: Result<(), S>|
                #[trigger] validator.ensures((&x, codemap), shape) && r == self.type_position(
                    codemap,
                    x,
                    shape,
                ),
    {
        match self.enable_types {
            DialectTypes::Disable => Err(
                TypeError::Dialect(Diagnostic { kind: DialectError::Types, span: x.span, codemap }),
            ),
            _ => {
                let shape = validator(&x, codemap);
                accept_shape(x, shape)
            },
        }
    }

    /// Whether names that a `load` statement binds can themselves be loaded
    /// from the loading module.
    pub open spec fn spec_load_visibility(self) -> Visibility {
        if self.enable_load_reexport {
            Visibility::Public
        } else {
            Visibility::Private
        }
    }

    /// The visibility of the names that a `load` statement binds.
    pub fn load_visibility(&self) -> (v: Visibility)
        ensures
            v == self.spec_load_visibility(),
    {
        if self.enable_load_reexport {
            Visibility::Public
        } else {
            Visibility::Private
        }
    }
}

impl Default for Dialect {
    /// The standard dialect.
    fn default() -> (d: Dialect)
        ensures
            d == Dialect::standard_profile(),
    {
        Dialect::standard()
    }
}

} // verus!
