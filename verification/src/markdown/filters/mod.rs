//! The filters that a page's events run through before they are written
//! out.
//!
//! Each filter pulls from the stream before it and is a stream itself, so
//! that filters chain. A filter holds back no more than the events of one
//! open tag.

pub mod decorate_links;
pub mod shorten_wikitext;
pub mod tag_headings;

use crate::markdown::event::{
    html_of, markdown_events, next_token, tokenizer, tokens_left, views, MarkupEvent,
    MarkupEventView,
};
use crate::markdown::filters::decorate_links::{links_decorated, DecorateLinks};
use crate::markdown::filters::shorten_wikitext::{wikitext_shortened, ShortenWikiText};
use crate::markdown::filters::tag_headings::{headings_tagged, TagHeadings};
use std::collections::VecDeque;
use vstd::prelude::*;

verus! {

/// A stream of markup events, pulled one at a time.
pub trait EventStream: Sized {
    /// The events still to come, in order.
    spec fn pending(&self) -> Seq<MarkupEventView>;

    /// Yields the next event, or `None` once the stream is at its end. A
    /// stream at its end stays there.
    fn next(&mut self) -> (r: Option<MarkupEvent>)
        ensures
            match r {
                Some(ev) => old(self).pending().len() > 0 && ev@ == old(self).pending()[0]
                    && final(self).pending() == old(self).pending().skip(1),
                None => old(self).pending().len() == 0 && final(self).pending().len() == 0,
            },
    ;
}

/// Exposes filters in a builder chain API.
pub trait FiltersExt: EventStream {
    /// Tags headings.
    fn tag_headings(self) -> (r: TagHeadings<Self>)
        ensures
            r.pending() == headings_tagged(self.pending()),
    {
        TagHeadings::new(self)
    }

    /// Shortens the display wikitext on WikiLinks when the link hasn't been
    /// potholed.
    fn shorten_wikitext(self) -> (r: ShortenWikiText<Self>)
        ensures
            r.pending() == wikitext_shortened(self.pending()),
    {
        ShortenWikiText::new(self)
    }

    /// Decorates links with classes.
    ///
    /// This is destructive: every link leaves the stream as HTML.
    fn decorate_links(self) -> (r: DecorateLinks<Self>)
        ensures
            r.source() == self.pending(),
            r.resolved() is None,
            r.pending() == links_decorated(self.pending(), None),
    {
        DecorateLinks::new(self)
    }
}

impl<T: EventStream> FiltersExt for T {

}

/// The events of a page's source: what the tokenizer reads with footnotes,
/// tables, wikilinks and smart punctuation switched on.
pub open spec fn page_events(content: Seq<char>) -> Seq<MarkupEventView> {
    markdown_events(content, true, true, true, true)
}

/// The stream of the events that the tokenizer reads from a source text.
pub struct Tokens<'a> {
    tokenizer: pulldown_cmark::Parser<'a>,
}

impl<'a> Tokens<'a> {
    /// The stream of the events of a page's source: footnotes, tables,
    /// wikilinks and smart punctuation are switched on.
    pub fn new(content: &'a str) -> (r: Tokens<'a>)
        ensures
            r.pending() == page_events(content@),
    {
        Tokens { tokenizer: tokenizer(content, true, true, true, true) }
    }

    /// The stream of the events of `content`, with each of the four
    /// extensions switched on or off.
    pub fn with_extensions(
        content: &'a str,
        footnotes: bool,
        tables: bool,
        wikilinks: bool,
        smart_punctuation: bool,
    ) -> (r: Tokens<'a>)
        ensures
            r.pending() == markdown_events(
                content@,
                footnotes,
                tables,
                wikilinks,
                smart_punctuation,
            ),
    {
        Tokens { tokenizer: tokenizer(content, footnotes, tables, wikilinks, smart_punctuation) }
    }
}

impl<'a> EventStream for Tokens<'a> {
    closed spec fn pending(&self) -> Seq<MarkupEventView> {
        tokens_left(self.tokenizer)
    }

    fn next(&mut self) -> (r: Option<MarkupEvent>) {
        match next_token(&mut self.tokenizer) {
            Some(raw) => Some(MarkupEvent::from_raw(raw)),
            None => None,
        }
    }
}

/// Appends to `out` what `pulldown_cmark::html::push_html` writes for the
/// events of a stream, which it pulls one by one to the end. What is written
/// depends on the events alone.
#[verifier::external_body]
pub(crate) fn push_html<S: EventStream>(out: &mut String, events: S)
    ensures
        final(out)@ == old(out)@ + html_of(events.pending()),
{
    let mut events = events;
    let pulled = std::iter::from_fn(|| events.next().map(MarkupEvent::into_raw));
    pulldown_cmark::html::push_html(out, pulled)
}

/// A stream over events that are at hand.
pub struct Events {
    items: VecDeque<MarkupEvent>,
}

impl Events {
    /// The stream that yields `items` in order.
    pub fn new(items: Vec<MarkupEvent>) -> (r: Events)
        ensures
            r.pending() == views(items@),
    {
        let mut items = items;
        let mut queue: VecDeque<MarkupEvent> = VecDeque::new();
        let ghost all = items@;
        while items.len() > 0
            invariant
                all == items@ + queue@,
            decreases items.len(),
        {
            let ghost before = items@;
            let ghost q = queue@;
            let ev = items.pop().unwrap();
            queue.push_front(ev);
            assert(before + q =~= items@ + queue@);
        }
        assert(items@ + queue@ =~= queue@);
        Events { items: queue }
    }
}

impl EventStream for Events {
    closed spec fn pending(&self) -> Seq<MarkupEventView> {
        views(self.items@)
    }

    fn next(&mut self) -> (r: Option<MarkupEvent>) {
        let r = self.items.pop_front();
        proof {
            if r is Some {
                assert(views(self.items@) =~= views(old(self).items@).skip(1));
            }
        }
        r
    }
}

/// The text of the `Text` events among `events`, in order.
pub open spec fn plain_text(events: Seq<MarkupEventView>) -> Seq<char>
    decreases events.len(),
{
    if events.len() == 0 {
        Seq::empty()
    } else {
        let before = plain_text(events.drop_last());
        match events.last() {
            MarkupEventView::Text(t) => before + t,
            _ => before,
        }
    }
}

/// Concatenates the text of the `Text` events among `events`.
pub fn text_of(events: &VecDeque<MarkupEvent>) -> (r: String)
    ensures
        r@ == plain_text(views(events@)),
{
    let mut out = String::new();
    let mut i: usize = 0;
    proof {
        assert(views(events@).take(0) == Seq::<MarkupEventView>::empty());
    }
    while i < events.len()
        invariant
            0 <= i <= events.len(),
            out@ == plain_text(views(events@).take(i as int)),
        decreases events.len() - i,
    {
        proof {
            let next = views(events@).take(i + 1);
            assert(next.drop_last() == views(events@).take(i as int));
            assert(next.last() == events@[i as int]@);
        }
        match &events[i] {
            MarkupEvent::Text(t) => {
                out.append(t.as_str());
            },
            _ => {},
        }
        i += 1;
    }
    proof {
        assert(views(events@).take(events.len() as int) == views(events@));
    }
    out
}

/// Pulls a stream to its end and gives the events it yielded.
pub fn collect<S: EventStream>(stream: S) -> (events: Vec<MarkupEvent>)
    ensures
        views(events@) == stream.pending(),
{
    let mut stream = stream;
    let ghost all = stream.pending();
    let mut events: Vec<MarkupEvent> = Vec::new();
    loop
        invariant
            all == views(events@) + stream.pending(),
        ensures
            all == views(events@),
        decreases stream.pending().len(),
    {
        let ghost before = views(events@);
        let ghost rest = stream.pending();
        match stream.next() {
            Some(ev) => {
                events.push(ev);
                assert(views(events@) =~= before.push(ev@));
                assert(before.push(rest[0]) + rest.skip(1) =~= before + rest);
            },
            None => {
                assert(before + stream.pending() =~= before);
                break ;
            },
        }
    }
    events
}

} // verus!
