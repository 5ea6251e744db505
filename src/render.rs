//! The context handed to a renderer for one rendering call.
//!
//! A renderer turns one candidate entity into at most one finished item. It is
//! supplied by the caller for each entity kind, and the accumulator passes it a
//! context made afresh from the analysis context of the request.
use vstd::prelude::*;

verus! {

/// A read-only view of the analysis context, made afresh for every rendering call.
pub struct RenderContext<'a, C> {
    completion: &'a C,
}

impl<'a, C> RenderContext<'a, C> {
    /// The context that reads from `completion`.
    pub closed spec fn of(completion: &'a C) -> RenderContext<'a, C> {
        RenderContext { completion }
    }

    pub closed spec fn spec_completion(&self) -> &'a C {
        self.completion
    }

    pub fn new(completion: &'a C) -> (r: RenderContext<'a, C>)
        ensures
            r == RenderContext::of(completion),
            r.spec_completion() == completion,
    {
        RenderContext { completion }
    }

    /// The analysis context this rendering call reads from.
    pub fn completion(&self) -> (r: &'a C)
        ensures
            r == self.spec_completion(),
    {
        self.completion
    }
}

} // verus!
