//! A value that may carry the source location it was parsed from.
use vstd::prelude::*;

use crate::span::{Span, Spanned};

verus! {

/// A value together with its provenance: no span when it came from
/// configuration, the span of the source text when it was parsed.
#[derive(Default, Debug, Clone)]
pub struct MaybeSpanned<T> {
    data: T,
    span: Option<Span>,
}

/// What a value taken from configuration looks like: the value, no span.
pub open spec fn config_view<T>(data: T) -> (T, Option<Span>) {
    (data, None)
}

/// What a parsed value looks like: its content, and its span.
pub open spec fn spanned_view<T>(value: Spanned<T>) -> (T, Option<Span>) {
    (value.content, Some(value.span))
}

impl<T> View for MaybeSpanned<T> {
    type V = (T, Option<Span>);

    /// The wrapped value and its span, if it has one.
    closed spec fn view(&self) -> (T, Option<Span>) {
        (self.data, self.span)
    }
}

impl<T> core::ops::Deref for MaybeSpanned<T> {
    type Target = T;

    fn deref(&self) -> (r: &T)
        ensures
            *r == self@.0,
    {
        &self.data
    }
}

impl<T> MaybeSpanned<T> {
    /// Values from the configuration have no span.
    pub fn new_config(data: T) -> (r: Self)
        ensures
            r@ == config_view(data),
    {
        Self { data, span: None }
    }

    /// The span the value was parsed from, if any.
    pub fn span(&self) -> (r: Option<Span>)
        ensures
            r == self@.1,
    {
        self.span
    }

    /// Read-only access to the wrapped value.
    pub fn get(&self) -> (r: &T)
        ensures
            *r == self@.0,
    {
        &self.data
    }

    /// Gives up the span and returns the wrapped value.
    pub fn into_inner(self) -> (r: T)
        ensures
            r == self@.0,
    {
        self.data
    }
}

impl<T> From<Spanned<T>> for MaybeSpanned<T> {
    fn from(value: Spanned<T>) -> (r: Self)
        ensures
            r@ == spanned_view(value),
    {
        Self { data: value.content, span: Some(value.span) }
    }
}

impl<T> vstd::std_specs::convert::FromSpecImpl<Spanned<T>> for MaybeSpanned<T> {
    open spec fn obeys_from_spec() -> bool {
        true
    }

    closed spec fn from_spec(v: Spanned<T>) -> Self {
        MaybeSpanned { data: v.content, span: Some(v.span) }
    }
}

/// A value taken from configuration has no span.
pub proof fn lemma_config_value_has_no_span<T>(data: T)
    ensures
        config_view(data).1 == None::<Span>,
{
}

/// A value built from a parsed pair has that pair's span, and reads as that
/// pair's content.
pub proof fn lemma_parsed_value_keeps_span<T>(data: T, span: Span)
    ensures
        spanned_view(Spanned { content: data, span }).1 == Some(span),
        spanned_view(Spanned { content: data, span }).0 == data,
{
}

/// Unwrapping gives back the value that was supplied, whether it came from
/// configuration or from parsed text.
pub proof fn lemma_inner_value_is_supplied_data<T>(data: T, span: Span)
    ensures
        config_view(data).0 == data,
        spanned_view(Spanned { content: data, span }).0 == data,
{
}

} // verus!
