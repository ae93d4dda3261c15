//! A slot that accepts its first value and rejects every later one.
use vstd::prelude::*;

use crate::span::{Span, Spanned};

verus! {

/// An optional spanned value that can be set at most once.
///
/// Once the slot holds a value, further attempts to set it leave that value
/// in place and hand the rejected value back, so that the caller can report
/// both locations of the conflict.
#[derive(Debug, Clone)]
pub struct OptWithLine<T>(Option<Spanned<T>>);

/// One attempt to set a slot that holds `slot` with `data` at `span`: the
/// slot's next contents, and what the attempt hands back. An empty slot takes
/// the new pair and nothing is handed back; an occupied slot keeps what it
/// holds and the new pair is handed back unchanged.
pub open spec fn claim_slot<T>(slot: Option<Spanned<T>>, data: T, span: Span) -> (
    Option<Spanned<T>>,
    Option<Spanned<T>>,
) {
    let new = Spanned { content: data, span };
    match slot {
        Some(held) => (Some(held), Some(new)),
        None => (Some(new), None),
    }
}

impl<T> View for OptWithLine<T> {
    type V = Option<Spanned<T>>;

    /// The pair the slot holds, if it has been set.
    closed spec fn view(&self) -> Option<Spanned<T>> {
        self.0
    }
}

impl<T> core::ops::Deref for OptWithLine<T> {
    type Target = Option<Spanned<T>>;

    fn deref(&self) -> (r: &Option<Spanned<T>>)
        ensures
            *r == self@,
    {
        &self.0
    }
}

impl<T> From<Option<Spanned<T>>> for OptWithLine<T> {
    fn from(value: Option<Spanned<T>>) -> (r: Self)
        ensures
            r@ == value,
    {
        Self(value)
    }
}

impl<T> vstd::std_specs::convert::FromSpecImpl<Option<Spanned<T>>> for OptWithLine<T> {
    open spec fn obeys_from_spec() -> bool {
        true
    }

    closed spec fn from_spec(v: Option<Spanned<T>>) -> Self {
        OptWithLine(v)
    }
}

impl<T> From<Spanned<T>> for OptWithLine<T> {
    fn from(value: Spanned<T>) -> (r: Self)
        ensures
            r@ == Some(value),
    {
        Self(Some(value))
    }
}

impl<T> vstd::std_specs::convert::FromSpecImpl<Spanned<T>> for OptWithLine<T> {
    open spec fn obeys_from_spec() -> bool {
        true
    }

    closed spec fn from_spec(v: Spanned<T>) -> Self {
        OptWithLine(Some(v))
    }
}

impl<T> Default for OptWithLine<T> {
    /// An empty slot.
    fn default() -> (r: Self)
        ensures
            r@ == None::<Spanned<T>>,
    {
        Self(None)
    }
}

impl<T> OptWithLine<T> {
    /// A slot already set to `data` at `span`.
    pub fn new(data: T, span: Span) -> (r: Self)
        ensures
            r@ == Some(Spanned { content: data, span }),
    {
        Self(Some(Spanned::new(data, span)))
    }

    /// Tries to set the value if not already set. Returns the newly passed
    /// value in case there was already a value there.
    #[must_use]
    pub fn set(&mut self, data: T, span: Span) -> (r: Option<Spanned<T>>)
        ensures
            (final(self)@, r) == claim_slot(old(self)@, data, span),
    {
        let new = Spanned::new(data, span);
        if self.0.is_some() {
            Some(new)
        } else {
            self.0 = Some(new);
            None
        }
    }

    /// Read-only access to the pair the slot holds, if any.
    pub fn get(&self) -> (r: &Option<Spanned<T>>)
        ensures
            *r == self@,
    {
        &self.0
    }

    /// Gives up the slot and returns the pair it holds, if any.
    #[must_use]
    pub fn into_inner(self) -> (r: Option<Spanned<T>>)
        ensures
            r == self@,
    {
        self.0
    }
}

/// A run of attempts to set a slot that starts out holding `slot`: the
/// slot's final contents, and what each attempt hands back, in order.
pub open spec fn claim_run<T>(slot: Option<Spanned<T>>, claims: Seq<(T, Span)>) -> (
    Option<Spanned<T>>,
    Seq<Option<Spanned<T>>>,
)
    decreases claims.len(),
{
    if claims.len() == 0 {
        (slot, Seq::empty())
    } else {
        let step = claim_slot(slot, claims[0].0, claims[0].1);
        let rest = claim_run(step.0, claims.drop_first());
        (rest.0, seq![step.1] + rest.1)
    }
}

/// Setting an empty slot succeeds: nothing is handed back and the slot then
/// holds the new pair.
pub proof fn lemma_claim_empty_slot<T>(data: T, span: Span)
    ensures
        claim_slot(None, data, span) == (Some(Spanned { content: data, span }), None::<
            Spanned<T>,
        >),
{
}

/// Setting an occupied slot is rejected: the new pair is handed back
/// unchanged and the slot keeps what it held.
pub proof fn lemma_claim_occupied_slot<T>(held: Spanned<T>, data: T, span: Span)
    ensures
        claim_slot(Some(held), data, span) == (Some(held), Some(Spanned { content: data, span })),
{
}

/// However many times an occupied slot is set, each attempt hands back its
/// own pair and the slot keeps the pair it held before.
pub proof fn lemma_repeated_claims_keep_held<T>(held: Spanned<T>, claims: Seq<(T, Span)>)
    ensures
        claim_run(Some(held), claims).0 == Some(held),
        claim_run(Some(held), claims).1.len() == claims.len(),
        forall|i: int|
            0 <= i < claims.len() ==> #[trigger] claim_run(Some(held), claims).1[i] == Some(
                Spanned { content: claims[i].0, span: claims[i].1 },
            ),
    decreases claims.len(),
{
    if claims.len() > 0 {
        lemma_repeated_claims_keep_held(held, claims.drop_first());
    }
}

/// The first attempt on an empty slot wins: it hands back nothing, every
/// later attempt hands back its own pair, and the slot ends up holding the
/// first pair.
pub proof fn lemma_first_claim_wins<T>(claims: Seq<(T, Span)>)
    requires
        claims.len() > 0,
    ensures
        claim_run(None, claims).0 == Some(Spanned { content: claims[0].0, span: claims[0].1 }),
        claim_run(None, claims).1.len() == claims.len(),
        claim_run(None, claims).1[0] == None::<Spanned<T>>,
        forall|i: int|
            1 <= i < claims.len() ==> #[trigger] claim_run(None, claims).1[i] == Some(
                Spanned { content: claims[i].0, span: claims[i].1 },
            ),
{
    let first = Spanned { content: claims[0].0, span: claims[0].1 };
    let rest = claims.drop_first();
    lemma_repeated_claims_keep_held(first, rest);
    assert forall|i: int| 1 <= i < claims.len() implies #[trigger] claim_run(None, claims).1[i]
        == Some(Spanned { content: claims[i].0, span: claims[i].1 }) by {
        assert(rest[i - 1] == claims[i]);
    }
}

} // verus!
