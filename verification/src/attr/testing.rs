//! Attributes without documentation, for code that only exercises coercion.

use std::sync::Arc;
use vstd::prelude::*;
use crate::attr::Attribute;
use crate::attr::AttributeView;

verus! {

/// Makes an attribute from the two parts that matter to coercion.
pub trait AttributeExt: Sized {
    /// The type of the coercer.
    type Coercer;

    /// The type of a coerced value.
    type Value;

    /// The attribute with this default and this coercer.
    fn testing_new(default: Option<Arc<Self::Value>>, coercer: Self::Coercer) -> Self;
}

impl<T, V> AttributeExt for Attribute<T, V> {
    type Coercer = T;

    type Value = V;

    /// The attribute with this default and this coercer, and no documentation.
    fn testing_new(default: Option<Arc<V>>, coercer: T) -> (a: Attribute<T, V>)
        ensures
            a@ == (AttributeView { default, doc: Seq::<char>::empty(), coercer }),
    {
        Attribute { default, doc: String::new(), coercer }
    }
}

} // verus!
