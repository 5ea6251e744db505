//! The accumulator of completion items for one completion request.
use vstd::prelude::*;

use crate::item::{Builder, CompletionItem};
use crate::render::RenderContext;
use vstd::std_specs::convert::FromSpec;

verus! {

/// The items of `items` followed by the one a renderer produced, if it produced one.
pub open spec fn appended(items: Seq<CompletionItem>, rendered: Option<CompletionItem>) -> Seq<
    CompletionItem,
> {
    match rendered {
        Some(item) => items.push(item),
        None => items,
    }
}

/// The items held after a run of entry point calls on an accumulator that held
/// `start`, where `outcomes[i]` is what the renderer of the `i`-th call produced.
pub open spec fn gathered(start: Seq<CompletionItem>, outcomes: Seq<Option<CompletionItem>>) -> Seq<
    CompletionItem,
>
    decreases outcomes.len(),
{
    if outcomes.len() == 0 {
        start
    } else {
        appended(gathered(start, outcomes.drop_last()), outcomes.last())
    }
}

/// The items that the renderers produced, in the order of the calls.
pub open spec fn produced(outcomes: Seq<Option<CompletionItem>>) -> Seq<CompletionItem> {
    outcomes.filter_map(|o: Option<CompletionItem>| o)
}

/// How many of the renderers produced an item.
pub open spec fn successes(outcomes: Seq<Option<CompletionItem>>) -> nat {
    outcomes.filter(|o: Option<CompletionItem>| o is Some).len()
}

/// A run of calls keeps what was there and then adds exactly the produced items,
/// one for each call whose renderer produced one, in the order of the calls.
pub proof fn lemma_order_preserved(start: Seq<CompletionItem>, outcomes: Seq<Option<CompletionItem>>)
    ensures
        gathered(start, outcomes) == start + produced(outcomes),
        gathered(start, outcomes).len() == start.len() + successes(outcomes),
    decreases outcomes.len(),
{
    reveal(Seq::filter);
    if outcomes.len() > 0 {
        let rest = outcomes.drop_last();
        lemma_order_preserved(start, rest);
        match outcomes.last() {
            Some(item) => {
                assert(produced(outcomes) == produced(rest) + seq![item]);
                assert(start + produced(outcomes) == (start + produced(rest)).push(item));
            },
            None => {
                assert(produced(outcomes) == produced(rest));
            },
        }
    } else {
        assert(start + produced(outcomes) == start);
    }
}

/// Adding a list of items is the same as a run of calls whose renderers each
/// produced the next item of the list.
pub proof fn lemma_add_all_is_repeated_add(start: Seq<CompletionItem>, items: Seq<CompletionItem>)
    ensures
        start + items == gathered(start, items.map_values(|i: CompletionItem| Some(i))),
    decreases items.len(),
{
    let outcomes = items.map_values(|i: CompletionItem| Some(i));
    if items.len() > 0 {
        let rest = items.drop_last();
        lemma_add_all_is_repeated_add(start, rest);
        assert(outcomes.drop_last() == rest.map_values(|i: CompletionItem| Some(i)));
        assert(start + items == (start + rest).push(items.last()));
    } else {
        assert(start + items == start);
    }
}

/// A call whose renderer produced nothing leaves the items exactly as they were;
/// one whose renderer produced an item adds it last.
pub proof fn lemma_decline_is_no_op(items: Seq<CompletionItem>, item: CompletionItem)
    ensures
        appended(items, None) == items,
        appended(items, Some(item)).len() == items.len() + 1,
        appended(items, Some(item)).last() == item,
        appended(items, Some(item)).take(items.len() as int) == items,
{
    assert(items.push(item).take(items.len() as int) == items);
}

/// Whether a macro can be offered under `name`: there is one, and it is not empty.
pub open spec fn usable_name(name: Option<String>) -> bool {
    name matches Some(n) && n@.len() > 0
}

/// Represents an in-progress set of completions being built.
#[derive(Debug)]
pub struct Completions {
    buf: Vec<CompletionItem>,
}

impl View for Completions {
    type V = Seq<CompletionItem>;

    closed spec fn view(&self) -> Seq<CompletionItem> {
        self.buf@
    }
}

impl Default for Completions {
    fn default() -> (r: Completions)
        ensures
            r@ == Seq::<CompletionItem>::empty(),
    {
        Completions::new()
    }
}

impl Completions {
    /// The storage that the items are handed over in.
    pub closed spec fn spec_buf(self) -> Vec<CompletionItem> {
        self.buf
    }

    /// Converting an accumulator reads its items and nothing else: accumulators that
    /// hold the same items convert to the same sequence, which is those items in order.
    pub proof fn lemma_conversion_is_read(a: Completions, b: Completions)
        ensures
            Vec::<CompletionItem>::from_spec(a)@ == a@,
            a@ == b@ ==> Vec::<CompletionItem>::from_spec(a)@ == Vec::<CompletionItem>::from_spec(b)@,
    {
    }
}

impl From<Completions> for Vec<CompletionItem> {
    /// Hands over the gathered items, in the order in which they were added.
    fn from(acc: Completions) -> (r: Vec<CompletionItem>)
        ensures
            r@ == acc@,
    {
        acc.buf
    }
}

impl vstd::std_specs::convert::FromSpecImpl<Completions> for Vec<CompletionItem> {
    open spec fn obeys_from_spec() -> bool {
        true
    }

    open spec fn from_spec(v: Completions) -> Vec<CompletionItem> {
        v.spec_buf()
    }
}

impl Builder {
    /// Convenience method, which allows to add a freshly created completion into accumulator
    /// without binding it to the variable.
    pub fn add_to(self, acc: &mut Completions)
        ensures
            final(acc)@ == old(acc)@.push(self.spec_build()),
    {
        acc.add(self.build())
    }
}

impl Completions {
    /// An empty accumulator.
    pub fn new() -> (r: Completions)
        ensures
            r@ == Seq::<CompletionItem>::empty(),
    {
        Completions { buf: Vec::new() }
    }

    /// The number of items gathered so far.
    pub fn len(&self) -> (r: usize)
        ensures
            r == self@.len(),
    {
        self.buf.len()
    }

    /// Hands over the gathered items, in the order in which they were added.
    pub fn into_items(self) -> (r: Vec<CompletionItem>)
        ensures
            r@ == self@,
    {
        self.buf
    }

    /// Appends a finished item.
    pub fn add(&mut self, item: CompletionItem)
        ensures
            final(self)@ == old(self)@.push(item),
    {
        self.buf.push(item)
    }

    /// Appends the items in their given order.
    pub fn add_all(&mut self, items: Vec<CompletionItem>)
        ensures
            final(self)@ == old(self)@ + items@,
    {
        let ghost start = self@;
        for item in it: items.into_iter()
            invariant
                it.seq() == items@,
                self@ == start + items@.take(it.index() as int),
        {
            assert(items@.take(it.index() + 1) == items@.take(it.index() as int).push(item));
            self.add(item);
        }
        assert(items@.take(items@.len() as int) == items@);
    }

    /// Appends what a renderer produced, if it produced anything.
    pub fn add_rendered(&mut self, rendered: Option<CompletionItem>)
        ensures
            final(self)@ == appended(old(self)@, rendered),
    {
        if let Some(item) = rendered {
            self.add(item);
        }
    }

    /// Adds the item rendered for a field of type `ty`; a field always gets one.
    pub fn add_field<'a, C, F, T, R>(
        &mut self,
        ctx: &'a C,
        field: F,
        ty: &'a T,
        render: R,
    ) where R: FnOnce(RenderContext<'a, C>, F, &'a T) -> CompletionItem
        requires
            call_requires(render, (RenderContext::<'a, C>::of(ctx), field, ty)),
        ensures
            exists|item: CompletionItem|
                call_ensures(render, (RenderContext::<'a, C>::of(ctx), field, ty), item) && final(self)@ == old(self)@.push(item),
    {
        let item = render(RenderContext::new(ctx), field, ty);
        self.add(item);
    }

    /// Adds the item rendered for the tuple field at position `field`, of type `ty`; such a
    /// field always gets one.
    pub fn add_tuple_field<'a, C, T, R>(
        &mut self,
        ctx: &'a C,
        field: usize,
        ty: &'a T,
        render: R,
    ) where R: FnOnce(RenderContext<'a, C>, usize, &'a T) -> CompletionItem
        requires
            call_requires(render, (RenderContext::<'a, C>::of(ctx), field, ty)),
        ensures
            exists|item: CompletionItem|
                call_ensures(render, (RenderContext::<'a, C>::of(ctx), field, ty), item) && final(self)@ == old(self)@.push(item),
    {
        let item = render(RenderContext::new(ctx), field, ty);
        self.add(item);
    }

    /// Adds the item rendered for a definition in scope under `local_name`, if any.
    pub fn add_resolution<'a, C, S, R>(
        &mut self,
        ctx: &'a C,
        local_name: String,
        resolution: &'a S,
        render: R,
    ) where R: FnOnce(RenderContext<'a, C>, String, &'a S) -> Option<CompletionItem>
        requires
            call_requires(render, (RenderContext::<'a, C>::of(ctx), local_name, resolution)),
        ensures
            exists|r: Option<CompletionItem>|
                call_ensures(render, (RenderContext::<'a, C>::of(ctx), local_name, resolution), r) && final(self)@ == appended(
                    old(self)@,
                    r,
                ),
    {
        let rendered = render(RenderContext::new(ctx), local_name, resolution);
        self.add_rendered(rendered);
    }

    /// Adds the item rendered for a macro, which needs a name to be shown under.
    ///
    /// Without a name, or with an empty one, the renderer is not called and
    /// nothing is added.
    pub fn add_macro<'a, C, M, R>(
        &mut self,
        ctx: &'a C,
        name: Option<String>,
        macro_: M,
        render: R,
    ) where R: FnOnce(RenderContext<'a, C>, String, M) -> Option<CompletionItem>
        requires
            usable_name(name) ==> call_requires(render, (RenderContext::<'a, C>::of(ctx), name->Some_0, macro_)),
        ensures
            usable_name(name) ==> exists|r: Option<CompletionItem>|
                call_ensures(render, (RenderContext::<'a, C>::of(ctx), name->Some_0, macro_), r) && final(self)@ == appended(
                    old(self)@,
                    r,
                ),
            !usable_name(name) ==> final(self)@ == old(self)@,
    {
        let name = match name {
            Some(it) => it,
            None => return,
        };
        if name.as_str().is_empty() {
            return;
        }
        let rendered = render(RenderContext::new(ctx), name, macro_);
        self.add_rendered(rendered);
    }

    /// Adds the item rendered for a function, shown under `local_name` where one is given; a
    /// function always gets one.
    pub fn add_function<'a, C, F, R>(
        &mut self,
        ctx: &'a C,
        func: F,
        local_name: Option<String>,
        render: R,
    ) where R: FnOnce(RenderContext<'a, C>, F, Option<String>) -> CompletionItem
        requires
            call_requires(render, (RenderContext::<'a, C>::of(ctx), func, local_name)),
        ensures
            exists|item: CompletionItem|
                call_ensures(render, (RenderContext::<'a, C>::of(ctx), func, local_name), item) && final(self)@ == old(self)@.push(item),
    {
        let item = render(RenderContext::new(ctx), func, local_name);
        self.add(item);
    }

    /// Adds the item rendered for a pattern that matches `variant`, if any.
    pub fn add_variant_pat<'a, C, V, N, R>(
        &mut self,
        ctx: &'a C,
        variant: V,
        local_name: Option<N>,
        render: R,
    ) where R: FnOnce(RenderContext<'a, C>, V, Option<N>) -> Option<CompletionItem>
        requires
            call_requires(render, (RenderContext::<'a, C>::of(ctx), variant, local_name)),
        ensures
            exists|r: Option<CompletionItem>|
                call_ensures(render, (RenderContext::<'a, C>::of(ctx), variant, local_name), r) && final(self)@ == appended(
                    old(self)@,
                    r,
                ),
    {
        let rendered = render(RenderContext::new(ctx), variant, local_name);
        self.add_rendered(rendered);
    }

    /// Adds the item rendered for a pattern that matches `strukt`, if any.
    pub fn add_struct_pat<'a, C, S, N, R>(
        &mut self,
        ctx: &'a C,
        strukt: S,
        local_name: Option<N>,
        render: R,
    ) where R: FnOnce(RenderContext<'a, C>, S, Option<N>) -> Option<CompletionItem>
        requires
            call_requires(render, (RenderContext::<'a, C>::of(ctx), strukt, local_name)),
        ensures
            exists|r: Option<CompletionItem>|
                call_ensures(render, (RenderContext::<'a, C>::of(ctx), strukt, local_name), r) && final(self)@ == appended(
                    old(self)@,
                    r,
                ),
    {
        let rendered = render(RenderContext::new(ctx), strukt, local_name);
        self.add_rendered(rendered);
    }

    /// Adds the item rendered for a constant, if any.
    pub fn add_const<'a, C, K, R>(
        &mut self,
        ctx: &'a C,
        constant: K,
        render: R,
    ) where R: FnOnce(RenderContext<'a, C>, K) -> Option<CompletionItem>
        requires
            call_requires(render, (RenderContext::<'a, C>::of(ctx), constant)),
        ensures
            exists|r: Option<CompletionItem>|
                call_ensures(render, (RenderContext::<'a, C>::of(ctx), constant), r) && final(self)@ == appended(
                    old(self)@,
                    r,
                ),
    {
        let rendered = render(RenderContext::new(ctx), constant);
        self.add_rendered(rendered);
    }

    /// Adds the item rendered for a type alias, if any.
    pub fn add_type_alias<'a, C, A, R>(
        &mut self,
        ctx: &'a C,
        type_alias: A,
        render: R,
    ) where R: FnOnce(RenderContext<'a, C>, A) -> Option<CompletionItem>
        requires
            call_requires(render, (RenderContext::<'a, C>::of(ctx), type_alias)),
        ensures
            exists|r: Option<CompletionItem>|
                call_ensures(render, (RenderContext::<'a, C>::of(ctx), type_alias), r) && final(self)@ == appended(
                    old(self)@,
                    r,
                ),
    {
        let rendered = render(RenderContext::new(ctx), type_alias);
        self.add_rendered(rendered);
    }

    /// Adds the item rendered for an enum variant reached through `path`, if any.
    ///
    /// Both enum variant entry points share one renderer, which takes a local
    /// name or a path.
    pub fn add_qualified_enum_variant<'a, C, V, P, R>(
        &mut self,
        ctx: &'a C,
        variant: V,
        path: P,
        render: R,
    ) where R: FnOnce(RenderContext<'a, C>, Option<String>, V, Option<P>) -> Option<CompletionItem>
        requires
            call_requires(render, (RenderContext::<'a, C>::of(ctx), None::<String>, variant, Some(path))),
        ensures
            exists|r: Option<CompletionItem>|
                call_ensures(render, (RenderContext::<'a, C>::of(ctx), None::<String>, variant, Some(path)), r) && final(self)@ == appended(old(self)@, r),
    {
        let rendered = render(RenderContext::new(ctx), None, variant, Some(path));
        self.add_rendered(rendered);
    }

    /// Adds the item rendered for an enum variant, shown under `local_name` where one is
    /// given, if any.
    pub fn add_enum_variant<'a, C, V, P, R>(
        &mut self,
        ctx: &'a C,
        variant: V,
        local_name: Option<String>,
        render: R,
    ) where R: FnOnce(RenderContext<'a, C>, Option<String>, V, Option<P>) -> Option<CompletionItem>
        requires
            call_requires(render, (RenderContext::<'a, C>::of(ctx), local_name, variant, None::<P>)),
        ensures
            exists|r: Option<CompletionItem>|
                call_ensures(render, (RenderContext::<'a, C>::of(ctx), local_name, variant, None::<P>), r) && final(self)@ == appended(old(self)@, r),
    {
        let rendered = render(RenderContext::new(ctx), local_name, variant, None);
        self.add_rendered(rendered);
    }
}

} // verus!
