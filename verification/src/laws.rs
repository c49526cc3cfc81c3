//! What holds of every dialect, stated over the specifications that the
//! checks in [`crate::dialect`] promise.

use vstd::prelude::*;
use crate::ast::TypeExpr;
use crate::ast::Visibility;
use crate::codemap::CodeMap;
use crate::codemap::Span;
use crate::codemap::Spanned;
use crate::dialect::Diagnostic;
use crate::dialect::Dialect;
use crate::dialect::DialectError;
use crate::dialect::DialectTypes;
use crate::dialect::TypeError;

verus! {

/// A gate accepts exactly where the dialect permits the construct. What it
/// accepts it hands back unchanged; what it rejects it reports under the
/// construct's own kind, at the span it was given, in the same source unit.
pub proof fn gate_accepts_iff_allowed<T>(
    d: Dialect,
    kind: DialectError,
    codemap: &CodeMap,
    span: Span,
    x: T,
)
    ensures
        d.gate(kind, codemap, span, x) is Ok <==> d.allows(kind),
        d.allows(kind) ==> d.gate(kind, codemap, span, x) == Ok::<T, Diagnostic>(x),
        !d.allows(kind) ==> d.gate(kind, codemap, span, x) == Err::<T, Diagnostic>(
            Diagnostic { kind, span, codemap },
        ),
{
}

/// Each construct is governed by one switch of its own: `def`, `lambda`,
/// `load` and keyword-only parameters by their flags, type annotations by a
/// mode other than `Disable`.
pub proof fn each_construct_has_its_switch(d: Dialect)
    ensures
        d.allows(DialectError::Def) <==> d.enable_def,
        d.allows(DialectError::Lambda) <==> d.enable_lambda,
        d.allows(DialectError::Load) <==> d.enable_load,
        d.allows(DialectError::KeywordOnlyArguments) <==> d.enable_keyword_only_arguments,
        d.allows(DialectError::Types) <==> (d.enable_types == DialectTypes::ParseOnly
            || d.enable_types == DialectTypes::Enable),
{
}

/// A fragment that a gate accepts keeps its span and its content.
pub proof fn accepted_fragment_is_unchanged<T>(
    d: Dialect,
    kind: DialectError,
    codemap: &CodeMap,
    x: Spanned<T>,
)
    requires
        d.allows(kind),
    ensures
        d.gate(kind, codemap, x.span, x) matches Ok(y) && y.span == x.span && y.node == x.node,
{
}

/// With type annotations disabled, a type position is rejected as
/// [`DialectError::Types`] whatever the expression is and whatever the shape
/// validator would say of it.
pub proof fn disabled_types_reject_before_shape<E, S>(
    d: Dialect,
    codemap: &CodeMap,
    x: Spanned<E>,
    shape: Result<(), S>,
)
    requires
        d.enable_types == DialectTypes::Disable,
    ensures
        d.type_position(codemap, x, shape) == Err::<Spanned<TypeExpr<E>>, TypeError<S>>(
            TypeError::Dialect(Diagnostic { kind: DialectError::Types, span: x.span, codemap }),
        ),
{
}

/// With type annotations parsed or enforced, an expression that the shape
/// validator accepts becomes a type annotation over the same span, holding
/// the expression as it was.
pub proof fn valid_shape_is_accepted_with_its_span<E, S>(
    d: Dialect,
    codemap: &CodeMap,
    x: Spanned<E>,
)
    requires
        d.enable_types == DialectTypes::ParseOnly || d.enable_types == DialectTypes::Enable,
    ensures
        d.type_position::<E, S>(codemap, x, Ok(())) matches Ok(t) && t.span == x.span && t.node.expr
            == x,
{
}

/// With type annotations parsed or enforced, an expression that the shape
/// validator refuses fails with the validator's error, not with the
/// dialect's.
pub proof fn invalid_shape_fails_with_the_validators_error<E, S>(
    d: Dialect,
    codemap: &CodeMap,
    x: Spanned<E>,
    e: S,
)
    requires
        d.enable_types == DialectTypes::ParseOnly || d.enable_types == DialectTypes::Enable,
    ensures
        d.type_position::<E, S>(codemap, x, Err(e)) == Err::<Spanned<TypeExpr<E>>, TypeError<S>>(
            TypeError::Shape(e),
        ),
        !(d.type_position::<E, S>(codemap, x, Err(e)) matches Err(TypeError::Dialect(_))),
{
}

/// A type position is accepted exactly where the dialect has type
/// annotations and the shape validator accepts the expression.
pub proof fn type_position_accepts_iff_allowed_and_valid<E, S>(
    d: Dialect,
    codemap: &CodeMap,
    x: Spanned<E>,
    shape: Result<(), S>,
)
    ensures
        d.type_position(codemap, x, shape) is Ok <==> d.allows(DialectError::Types) && shape is Ok,
{
}

/// Whether loaded names are reexported follows from that one flag: set, they
/// are public; clear, they are private; no other field has a say.
pub proof fn load_visibility_follows_reexport(d: Dialect, other: Dialect)
    ensures
        d.enable_load_reexport ==> d.spec_load_visibility() == Visibility::Public,
        !d.enable_load_reexport ==> d.spec_load_visibility() == Visibility::Private,
        d.enable_load_reexport == other.enable_load_reexport ==> d.spec_load_visibility()
            == other.spec_load_visibility(),
{
}

/// The extended dialect is the standard one but for keyword-only parameters,
/// the mode of type annotations and statements at the top level.
pub proof fn extended_differs_from_standard_in_three_fields()
    ensures
        Dialect::extended_profile() == (Dialect {
            enable_keyword_only_arguments: true,
            enable_types: DialectTypes::ParseOnly,
            enable_top_level_stmt: true,
            ..Dialect::standard_profile()
        }),
        Dialect::extended_profile().enable_keyword_only_arguments
            != Dialect::standard_profile().enable_keyword_only_arguments,
        Dialect::extended_profile().enable_types != Dialect::standard_profile().enable_types,
        Dialect::extended_profile().enable_top_level_stmt
            != Dialect::standard_profile().enable_top_level_stmt,
        Dialect::extended_profile().enable_def == Dialect::standard_profile().enable_def,
        Dialect::extended_profile().enable_lambda == Dialect::standard_profile().enable_lambda,
        Dialect::extended_profile().enable_load == Dialect::standard_profile().enable_load,
        Dialect::extended_profile().enable_load_reexport
            == Dialect::standard_profile().enable_load_reexport,
        Dialect::extended_profile().enable_f_strings
            == Dialect::standard_profile().enable_f_strings,
{
}

/// Everything the standard dialect permits, the extended dialect permits too.
pub proof fn extended_permits_what_standard_permits(kind: DialectError)
    requires
        Dialect::standard_profile().allows(kind),
    ensures
        Dialect::extended_profile().allows(kind),
{
}

} // verus!
