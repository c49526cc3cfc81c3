//! The few syntax-tree nodes that the dialect checks hand back.

use vstd::prelude::*;
use crate::codemap::Spanned;

verus! {

/// An expression accepted in a type position.
///
/// It holds the expression as the parser read it, with its span, and nothing
/// else: what a type annotation means is decided later.
#[derive(Debug, Clone, Copy, PartialEq, Eq, Hash)]
pub struct TypeExpr<E> {
    pub expr: Spanned<E>,
}

/// Whether a name bound in a module can be loaded from it by other modules.
#[derive(Debug, Clone, Copy, PartialEq, Eq, Hash, Structural)]
pub enum Visibility {
    Private,
    Public,
}

} // verus!
