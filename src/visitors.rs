//! The results buffer and the capabilities that every analysis visitor offers.

use crate::shapes::JsonValue;
use vstd::prelude::*;

verus! {

/// An ordered accumulation of results, drained in place: after a drain the
/// buffer is empty and ready for further results.
pub struct VisitorResults<R> {
    results: Vec<R>,
}

impl<R> View for VisitorResults<R> {
    type V = Seq<R>;

    closed spec fn view(&self) -> Seq<R> {
        self.results@
    }
}

impl<R> VisitorResults<R> {
    /// An empty buffer.
    pub fn new() -> (r: Self)
        ensures
            r@ == Seq::<R>::empty(),
    {
        VisitorResults { results: Vec::new() }
    }

    /// Appends `result` after everything buffered so far.
    pub fn push(&mut self, result: R)
        ensures
            final(self)@ == old(self)@.push(result),
    {
        self.results.push(result);
    }

    /// Hands out everything buffered, in the order it was pushed, and leaves
    /// the buffer empty. The result is never absent.
    pub fn take_results(&mut self) -> (r: Option<Vec<R>>)
        ensures
            r is Some,
            r->0@ == old(self)@,
            final(self)@ == Seq::<R>::empty(),
    {
        let mut flushed: Vec<R> = Vec::new();
        std::mem::swap(&mut flushed, &mut self.results);
        Some(flushed)
    }
}

/// What a buffer holding `start` holds after `items` are pushed one by one.
pub open spec fn after_pushes<R>(start: Seq<R>, items: Seq<R>) -> Seq<R>
    decreases items.len(),
{
    if items.len() == 0 {
        start
    } else {
        after_pushes(start.push(items[0]), items.drop_first())
    }
}

/// Pushes followed by a drain hand back exactly the pushed items, in push
/// order, after what was buffered before; from a fresh buffer, exactly the
/// pushed items.
pub proof fn lemma_drain_returns_pushes<R>(start: Seq<R>, items: Seq<R>)
    ensures
        after_pushes(start, items) == start + items,
        after_pushes(Seq::<R>::empty(), items) == items,
    decreases items.len(),
{
    if items.len() == 0 {
        assert(start + items =~= start);
        assert(Seq::<R>::empty() + items =~= items);
    } else {
        lemma_drain_returns_pushes(start.push(items[0]), items.drop_first());
        lemma_drain_returns_pushes(Seq::<R>::empty().push(items[0]), items.drop_first());
        assert(start.push(items[0]) + items.drop_first() =~= start + items);
        assert(Seq::<R>::empty().push(items[0]) + items.drop_first() =~= items);
    }
}

/// The identity of a known endpoint path.
pub type PathComponentId = String;

/// One observed request and its response.
pub struct HttpInteraction {
    pub uuid: String,
    pub method: String,
    pub path: String,
    pub request_body: Option<JsonValue>,
    pub response_body: Option<JsonValue>,
}

/// What the driver knows of an interaction's route: the endpoint path it
/// resolved to, if any.
pub struct PathVisitorContext<'a> {
    pub path: Option<&'a PathComponentId>,
}

/// What every analysis visitor offers: a results buffer, or none, with push
/// and drain. A visitor without a buffer drops what is pushed to it and has
/// no results to hand out.
pub trait InteractionVisitor<R>: Sized {
    /// The visitor's buffered results, or `None` for a visitor that keeps no
    /// results.
    spec fn buffer(&self) -> Option<Seq<R>>;

    /// Buffers `result` after the results so far; a visitor without a buffer
    /// drops it.
    fn push(&mut self, result: R)
        ensures
            match old(self).buffer() {
                Some(s) => final(self).buffer() == Some(s.push(result)),
                None => final(self).buffer() is None,
            },
    ;

    /// Hands out the buffered results in push order and leaves the buffer
    /// empty; `None` only for a visitor without a buffer.
    fn take_results(&mut self) -> (r: Option<Vec<R>>)
        ensures
            match old(self).buffer() {
                Some(s) => r is Some && r->0@ == s && final(self).buffer() == Some(Seq::<R>::empty()),
                None => r is None && final(self).buffer() is None,
            },
    ;
}

/// A visitor that analyses one interaction at a time. A visit only appends to
/// the buffer.
pub trait PathVisitor<R>: InteractionVisitor<R> {
    fn visit(&mut self, interaction: &HttpInteraction, context: PathVisitorContext)
        ensures
            match old(self).buffer() {
                Some(s) => final(self).buffer() is Some && s.is_prefix_of(final(self).buffer()->0),
                None => final(self).buffer() is None,
            },
    ;
}

/// The visitors of one analysis over interactions, drained together.
pub trait InteractionVisitors<R>: Sized {
    type Path: PathVisitor<R>;

    /// The bundled path visitor.
    spec fn path_visitor(&self) -> Self::Path;

    fn path(&mut self) -> (r: &mut Self::Path)
        ensures
            *r == old(self).path_visitor(),
            final(self).path_visitor() == *final(r),
    ;

    /// Drains the bundled path visitor.
    fn take_results(&mut self) -> (r: Option<Vec<R>>)
        ensures
            match old(self).path_visitor().buffer() {
                Some(s) => r is Some && r->0@ == s && final(self).path_visitor().buffer() == Some(Seq::<R>::empty()),
                None => r is None && final(self).path_visitor().buffer() is None,
            },
    {
        self.path().take_results()
    }
}

} // verus!
