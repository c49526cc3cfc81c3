//! Attributes of build rules: what a rule declares of one of its parameters.

use std::sync::Arc;
use vstd::prelude::*;

pub mod testing;

verus! {

/// What an attribute declares: how a value given for it is coerced, the
/// default to use where none is given, and what the attribute is for.
///
/// `T` is the type of the coercer and `V` the type of a coerced value.
#[derive(Debug, Clone, PartialEq, Eq, Hash)]
pub struct Attribute<T, V> {
    /// The default value. Without one, the user has to give a value.
    default: Option<Arc<V>>,
    /// What the attribute means, for the reader of the rule.
    doc: String,
    /// Turns a value as written into a coerced value.
    coercer: T,
}

/// An attribute as a plain value: its three parts, the text as characters.
pub struct AttributeView<T, V> {
    pub default: Option<Arc<V>>,
    pub doc: Seq<char>,
    pub coercer: T,
}

impl<T, V> View for Attribute<T, V> {
    type V = AttributeView<T, V>;

    closed spec fn view(&self) -> AttributeView<T, V> {
        AttributeView { default: self.default, doc: self.doc@, coercer: self.coercer }
    }
}

impl<T, V> Attribute<T, V> {
    /// The attribute with this default, this documentation and this coercer.
    pub fn new(default: Option<Arc<V>>, doc: &str, coercer: T) -> (a: Self)
        ensures
            a@ == (AttributeView { default, doc: doc@, coercer }),
    {
        Attribute { default, doc: doc.to_owned(), coercer }
    }

    /// The coercer of this attribute.
    pub fn coercer(&self) -> (c: &T)
        ensures
            *c == self@.coercer,
    {
        &self.coercer
    }

    /// The default value, if the attribute has one.
    pub fn default(&self) -> (d: Option<&Arc<V>>)
        ensures
            d is Some <==> self@.default is Some,
            d matches Some(v) ==> self@.default == Some(*v),
    {
        self.default.as_ref()
    }

    /// The documentation of this attribute.
    pub fn doc(&self) -> (s: &str)
        ensures
            s@ == self@.doc,
    {
        self.doc.as_str()
    }
}

/// The value of an attribute in one target: what the user wrote, coerced, or
/// the sign that nothing was written and the default applies.
#[derive(Debug, Clone, PartialEq, Eq, Hash)]
pub enum CoercedValue<V> {
    Custom(V),
    Default,
}

} // verus!
