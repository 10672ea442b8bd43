use crate::markdown::event::{
    views, Heading, HeadingView, Level, Link, LinkView, MarkupEvent, MarkupEventView,
};
use crate::markdown::filters::{plain_text, text_of, EventStream};
use crate::markdown::{heading_id, is_absolute_uri, is_uri_absolute, normalize_heading_id};
use crate::text::{chars_of, find_char, index_of, string_of};
use std::collections::VecDeque;
use vstd::prelude::*;

verus! {

/// The destination of a link with its fragment written as the id of the
/// heading it names. An absolute destination, and one without a fragment,
/// stays as it is.
pub open spec fn anchored(dest: Seq<char>) -> Seq<char> {
    if is_absolute_uri(dest) {
        dest
    } else {
        match index_of(dest, '#') {
            Some(i) => dest.take(i).push('#') + heading_id(dest.skip(i + 1)),
            None => dest,
        }
    }
}

/// The event with the destination of a link anchored.
pub open spec fn anchor_event(ev: MarkupEventView) -> MarkupEventView {
    match ev {
        MarkupEventView::LinkStart(l) => MarkupEventView::LinkStart(
            LinkView { dest_url: anchored(l.dest_url), ..l },
        ),
        _ => ev,
    }
}

/// What is written for a heading once its end is seen: its start, with
/// the id it had or else the id of its text, then its children, then its
/// end.
pub open spec fn closed_heading(
    h: HeadingView,
    children: Seq<MarkupEventView>,
    level: Level,
) -> Seq<MarkupEventView> {
    let id = match h.id {
        Some(id) => id,
        None => heading_id(plain_text(children)),
    };
    seq![MarkupEventView::HeadingStart(HeadingView { id: Some(id), ..h })] + children
        + seq![MarkupEventView::HeadingEnd(level)]
}

/// What the filter yields for `input`, where `open` is the heading that
/// is open at that point, with the children seen so far.
///
/// A heading that never ends is dropped with its children, and so is a
/// heading in which another one starts.
pub open spec fn tagged(
    open: Option<(HeadingView, Seq<MarkupEventView>)>,
    input: Seq<MarkupEventView>,
) -> Seq<MarkupEventView>
    decreases input.len(),
{
    if input.len() == 0 {
        Seq::empty()
    } else {
        let ev = anchor_event(input[0]);
        let rest = input.skip(1);
        match (ev, open) {
            (MarkupEventView::HeadingStart(h), _) => tagged(Some((h, Seq::empty())), rest),
            (MarkupEventView::HeadingEnd(level), Some((h, children))) => closed_heading(
                h,
                children,
                level,
            ) + tagged(None, rest),
            (_, Some((h, children))) => tagged(Some((h, children.push(ev))), rest),
            (_, None) => seq![ev] + tagged(None, rest),
        }
    }
}

/// What the filter makes of a whole stream.
pub open spec fn headings_tagged(input: Seq<MarkupEventView>) -> Seq<MarkupEventView> {
    tagged(None, input)
}

/// No start of a heading is among `events`.
pub open spec fn no_heading_starts(events: Seq<MarkupEventView>) -> bool {
    forall|i: int| 0 <= i < events.len() ==> !((#[trigger] events[i]) is HeadingStart)
}

/// Every start of a heading among `events` carries an id.
pub open spec fn headings_have_ids(events: Seq<MarkupEventView>) -> bool {
    forall|i: int|
        0 <= i < events.len() ==> ((#[trigger] events[i]) matches MarkupEventView::HeadingStart(h)
            ==> h.id is Some)
}

/// Every start of a heading that the filter yields carries an id.
pub proof fn lemma_tagged_headings_have_ids(input: Seq<MarkupEventView>)
    ensures
        headings_have_ids(headings_tagged(input)),
{
    lemma_tagged_have_ids(None, input);
}

proof fn lemma_tagged_have_ids(
    open: Option<(HeadingView, Seq<MarkupEventView>)>,
    input: Seq<MarkupEventView>,
)
    requires
        open matches Some((_, children)) ==> no_heading_starts(children),
    ensures
        headings_have_ids(tagged(open, input)),
    decreases input.len(),
{
    if input.len() > 0 {
        let ev = anchor_event(input[0]);
        let rest = input.skip(1);
        match (ev, open) {
            (MarkupEventView::HeadingStart(h), _) => {
                lemma_tagged_have_ids(Some((h, Seq::empty())), rest);
            },
            (MarkupEventView::HeadingEnd(level), Some((h, children))) => {
                lemma_tagged_have_ids(None, rest);
                let head = closed_heading(h, children, level);
                let tail = tagged(None, rest);
                assert forall|i: int| 0 <= i < (head + tail).len() implies ((#[trigger] (head
                    + tail)[i]) matches MarkupEventView::HeadingStart(h) ==> h.id is Some) by {
                    if i == 0 {
                    } else if i <= children.len() {
                        assert((head + tail)[i] == children[i - 1]);
                    } else if i < head.len() {
                    } else {
                        assert((head + tail)[i] == tail[i - head.len()]);
                    }
                }
            },
            (_, Some((h, children))) => {
                let more = children.push(ev);
                assert forall|i: int| 0 <= i < more.len() implies !((#[trigger] more[i])
                    is HeadingStart) by {
                    if i < children.len() {
                        assert(more[i] == children[i]);
                    }
                }
                lemma_tagged_have_ids(Some((h, more)), rest);
            },
            (_, None) => {
                lemma_tagged_have_ids(None, rest);
                let tail = tagged(None, rest);
                assert forall|i: int| 0 <= i < (seq![ev] + tail).len() implies ((#[trigger] (seq![
                    ev,
                ] + tail)[i]) matches MarkupEventView::HeadingStart(h) ==> h.id is Some) by {
                    if i > 0 {
                        assert((seq![ev] + tail)[i] == tail[i - 1]);
                    }
                }
            },
        }
    }
}

/// Writes the fragment of a link's destination as the id of the heading
/// that it names.
pub fn anchor_destination(dest: String) -> (r: String)
    ensures
        r@ == anchored(dest@),
{
    if is_uri_absolute(dest.as_str()) {
        return dest;
    }
    let chars = chars_of(dest.as_str());
    match find_char(&chars, '#') {
        Some(i) => {
            let mut out = string_of(&chars, 0, i);
            out.push('#');
            let fragment = string_of(&chars, i + 1, chars.len());
            let id = normalize_heading_id(fragment.as_str());
            out.append(id.as_str());
            proof {
                assert(chars@.subrange(0, i as int) == chars@.take(i as int));
                assert(chars@.subrange(i + 1, chars.len() as int) == chars@.skip(i + 1));
            }
            out
        },
        None => dest,
    }
}

/// Markdown filter that adds IDs to headings based on their text content.
pub struct TagHeadings<I> {
    inner: I,
    heading: Option<Heading>,
    children: VecDeque<MarkupEvent>,
    buffer: VecDeque<MarkupEvent>,
}

impl<I: EventStream> TagHeadings<I> {
    /// The heading that is open, with the children held back for it.
    pub closed spec fn open(&self) -> Option<(HeadingView, Seq<MarkupEventView>)> {
        match self.heading {
            Some(h) => Some((h@, views(self.children@))),
            None => None,
        }
    }

    /// Creates a new `TagHeadings`.
    pub fn new(inner: I) -> (r: TagHeadings<I>)
        ensures
            r.pending() == headings_tagged(inner.pending()),
    {
        let r = TagHeadings { inner, heading: None, children: VecDeque::new(), buffer: VecDeque::new() };
        assert(views(r.buffer@) + tagged(None, inner.pending()) =~= tagged(None, inner.pending()));
        r
    }
}

impl<I: EventStream> EventStream for TagHeadings<I> {
    closed spec fn pending(&self) -> Seq<MarkupEventView> {
        views(self.buffer@) + tagged(self.open(), self.inner.pending())
    }

    fn next(&mut self) -> (r: Option<MarkupEvent>) {
        if let Some(ev) = self.buffer.pop_front() {
            proof {
                assert(views(self.buffer@) =~= views(old(self).buffer@).skip(1));
                assert(self.pending() =~= old(self).pending().skip(1));
            }
            return Some(ev);
        }
        loop
            invariant
                self.buffer@.len() == 0,
                self.pending() == old(self).pending(),
            decreases self.inner.pending().len(),
        {
            let ghost input = self.inner.pending();
            let ghost open = self.open();
            assert(self.pending() =~= tagged(open, input));
            let ev = match self.inner.next() {
                Some(ev) => ev,
                None => {
                    return None;
                },
            };
            let ev = match ev {
                MarkupEvent::LinkStart(link) => MarkupEvent::LinkStart(
                    Link {
                        link_type: link.link_type,
                        dest_url: anchor_destination(link.dest_url),
                        title: link.title,
                        id: link.id,
                    },
                ),
                ev => ev,
            };
            assert(ev@ == anchor_event(input[0]));
            match ev {
                MarkupEvent::HeadingStart(h) => {
                    self.heading = Some(h);
                    self.children = VecDeque::new();
                    assert(views(self.children@) =~= Seq::<MarkupEventView>::empty());
                },
                ev => {
                    let closes = match ev {
                        MarkupEvent::HeadingEnd(_) => self.heading.is_some(),
                        _ => false,
                    };
                    if closes {
                        let heading = self.heading.take().unwrap();
                        let ghost kids = views(self.children@);
                        let id = match heading.id {
                            Some(id) => id,
                            None => {
                                let text = text_of(&self.children);
                                normalize_heading_id(text.as_str())
                            },
                        };
                        self.children.push_back(ev);
                        std::mem::swap(&mut self.buffer, &mut self.children);
                        let start = MarkupEvent::HeadingStart(
                            Heading {
                                level: heading.level,
                                id: Some(id),
                                classes: heading.classes,
                                attrs: heading.attrs,
                            },
                        );
                        proof {
                            assert(views(self.buffer@) =~= kids.push(ev@));
                            assert(views(self.children@) =~= Seq::<MarkupEventView>::empty());
                            assert(self.pending() =~= old(self).pending().skip(1));
                        }
                        return Some(start);
                    } else if self.heading.is_some() {
                        let ghost kids = views(self.children@);
                        self.children.push_back(ev);
                        assert(views(self.children@) =~= kids.push(ev@));
                    } else {
                        proof {
                            assert(self.pending() =~= old(self).pending().skip(1));
                        }
                        return Some(ev);
                    }
                },
            }
        }
    }
}

} // verus!
