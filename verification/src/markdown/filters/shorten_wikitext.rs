use crate::markdown::event::{views, Link, LinkKind, LinkView, MarkupEvent, MarkupEventView};
use crate::markdown::filters::{plain_text, text_of, EventStream};
use crate::slug::trim_slashes;
use crate::text::{chars_of, find_char, index_of, last_index_of, lemma_last_index_of, rfind_char};
use std::collections::VecDeque;
use vstd::prelude::*;

verus! {

/// The text shown for a wikilink to `text`: a fragment alone reads as what
/// follows its `#`; any other destination loses what follows its first `#`
/// and one slash at each edge, and reads as its last path segment.
pub open spec fn short_text(text: Seq<char>) -> Seq<char> {
    if text.len() > 0 && text[0] == '#' {
        text.skip(1)
    } else {
        let path = trim_slashes(
            match index_of(text, '#') {
                Some(i) => text.take(i),
                None => text,
            },
        );
        last_segment(path)
    }
}

/// The last path segment of `path`.
pub open spec fn last_segment(path: Seq<char>) -> Seq<char> {
    match last_index_of(path, '/') {
        Some(i) => path.skip(i + 1),
        None => path,
    }
}

/// The last `c` of a part of `s` is the last `c` of `s` before the part's
/// end, where that one stands in the part.
proof fn lemma_last_index_in_part(s: Seq<char>, from: int, to: int, c: char)
    requires
        0 <= from <= to <= s.len(),
    ensures
        last_index_of(s.subrange(from, to), c) == match last_index_of(s.take(to), c) {
            Some(i) => if i >= from {
                Some(i - from)
            } else {
                None
            },
            None => None,
        },
{
    let part = s.subrange(from, to);
    let whole = s.take(to);
    lemma_last_index_of(part, c);
    lemma_last_index_of(whole, c);
    assert(forall|j: int| 0 <= j < part.len() ==> #[trigger] part[j] == whole[j + from]);
    match last_index_of(whole, c) {
        Some(i) => {
            if i >= from {
                assert(part[i - from] == whole[i]);
                match last_index_of(part, c) {
                    Some(k) => {
                        assert(part[k] == whole[k + from]);
                        if k < i - from {
                            assert(part[i - from] != c);
                        }
                        if k > i - from {
                            assert(whole[k + from] != c);
                        }
                    },
                    None => {
                        assert(part[i - from] != c);
                    },
                }
            } else {
                match last_index_of(part, c) {
                    Some(k) => {
                        assert(part[k] == whole[k + from]);
                        assert(whole[k + from] != c);
                    },
                    None => {},
                }
            }
        },
        None => {
            match last_index_of(part, c) {
                Some(k) => {
                    assert(part[k] == whole[k + from]);
                    assert(whole[k + from] != c);
                },
                None => {},
            }
        },
    }
}

/// Where the last path segment of `chars[from..to]` begins.
fn last_segment_start(chars: &Vec<char>, from: usize, to: usize) -> (start: usize)
    requires
        from <= to <= chars.len(),
    ensures
        from <= start <= to,
        chars@.subrange(start as int, to as int) == last_segment(
            chars@.subrange(from as int, to as int),
        ),
{
    let part = Ghost(chars@.subrange(from as int, to as int));
    proof {
        lemma_last_index_in_part(chars@, from as int, to as int, '/');
    }
    match rfind_char(chars, to, '/') {
        Some(i) => {
            if i >= from {
                assert(part@.skip(i - from + 1) =~= chars@.subrange(i + 1, to as int));
                i + 1
            } else {
                from
            }
        },
        None => from,
    }
}

/// Shortens the text shown for a wikilink whose text is its destination.
pub fn shorten_wikitext(text: &str) -> (r: &str)
    ensures
        r@ == short_text(text@),
{
    let chars = chars_of(text);
    let n = chars.len();
    if n > 0 && chars[0] == '#' {
        let r = text.substring_char(1, n);
        assert(text@.subrange(1, n as int) == text@.skip(1));
        return r;
    }
    let end = match find_char(&chars, '#') {
        Some(i) => i,
        None => n,
    };
    let from: usize = if end > 0 && chars[0] == '/' {
        1
    } else {
        0
    };
    let to: usize = if end > from && chars[end - 1] == '/' {
        end - 1
    } else {
        end
    };
    proof {
        assert(text@.take(n as int) == text@);
        assert(trim_slashes(chars@.take(end as int)) =~= chars@.subrange(from as int, to as int));
    }
    let start = last_segment_start(&chars, from, to);
    text.substring_char(start, to)
}

/// Whether the link is a wikilink whose text the author did not choose.
pub open spec fn is_plain_wikilink(l: LinkView) -> bool {
    l.link_type == (LinkKind::WikiLink { has_pothole: false })
}

/// What is written for a plain wikilink once its end is seen: its start,
/// the short form of its text, its end.
pub open spec fn closed_link(l: LinkView, children: Seq<MarkupEventView>) -> Seq<MarkupEventView> {
    seq![
        MarkupEventView::LinkStart(l),
        MarkupEventView::Text(short_text(plain_text(children))),
        MarkupEventView::LinkEnd,
    ]
}

/// What the filter yields for `input`, where `open` is the plain wikilink
/// that is open at that point, with the children seen so far.
///
/// A plain wikilink that never ends is dropped with its children, and
/// so is one in which another one starts.
pub open spec fn shortened(
    open: Option<(LinkView, Seq<MarkupEventView>)>,
    input: Seq<MarkupEventView>,
) -> Seq<MarkupEventView>
    decreases input.len(),
{
    if input.len() == 0 {
        Seq::empty()
    } else {
        let ev = input[0];
        let rest = input.skip(1);
        if ev is LinkStart && is_plain_wikilink(ev->LinkStart_0) {
            shortened(Some((ev->LinkStart_0, Seq::empty())), rest)
        } else {
            match open {
                Some((l, children)) => if ev is LinkEnd {
                    closed_link(l, children) + shortened(None, rest)
                } else {
                    shortened(Some((l, children.push(ev))), rest)
                },
                None => seq![ev] + shortened(None, rest),
            }
        }
    }
}

/// What the filter makes of a whole stream.
pub open spec fn wikitext_shortened(input: Seq<MarkupEventView>) -> Seq<MarkupEventView> {
    shortened(None, input)
}

/// Markdown filter that shortens wikilinks.
pub struct ShortenWikiText<I> {
    inner: I,
    link: Option<Link>,
    children: VecDeque<MarkupEvent>,
    buffer: VecDeque<MarkupEvent>,
}

impl<I: EventStream> ShortenWikiText<I> {
    /// The wikilink that is open, with the children held back for it.
    pub closed spec fn open(&self) -> Option<(LinkView, Seq<MarkupEventView>)> {
        match self.link {
            Some(l) => Some((l@, views(self.children@))),
            None => None,
        }
    }

    /// Creates a new `ShortenWikiText`.
    pub fn new(inner: I) -> (r: ShortenWikiText<I>)
        ensures
            r.pending() == wikitext_shortened(inner.pending()),
    {
        let r = ShortenWikiText {
            inner,
            link: None,
            children: VecDeque::new(),
            buffer: VecDeque::new(),
        };
        assert(views(r.buffer@) + shortened(None, inner.pending()) =~= shortened(
            None,
            inner.pending(),
        ));
        r
    }
}

impl<I: EventStream> EventStream for ShortenWikiText<I> {
    closed spec fn pending(&self) -> Seq<MarkupEventView> {
        views(self.buffer@) + shortened(self.open(), self.inner.pending())
    }

    fn next(&mut self) -> (r: Option<MarkupEvent>) {
        if let Some(ev) = self.buffer.pop_front() {
            proof {
                assert(views(self.buffer@) =~= views(old(self).buffer@).skip(1));
                assert(self.pending() =~= old(self).pending().skip(1));
            }
            return Some(ev);
        }
        loop
            invariant
                self.buffer@.len() == 0,
                self.pending() == old(self).pending(),
            decreases self.inner.pending().len(),
        {
            let ghost input = self.inner.pending();
            let ghost open = self.open();
            assert(self.pending() =~= shortened(open, input));
            let ev = match self.inner.next() {
                Some(ev) => ev,
                None => {
                    return None;
                },
            };
            let starts = match &ev {
                MarkupEvent::LinkStart(l) => match l.link_type {
                    LinkKind::WikiLink { has_pothole } => !has_pothole,
                    _ => false,
                },
                _ => false,
            };
            let ends = match &ev {
                MarkupEvent::LinkEnd => true,
                _ => false,
            };
            if starts {
                match ev {
                    MarkupEvent::LinkStart(l) => {
                        self.link = Some(l);
                        self.children = VecDeque::new();
                        assert(views(self.children@) =~= Seq::<MarkupEventView>::empty());
                    },
                    _ => {},
                }
            } else if self.link.is_some() {
                if ends {
                    let link = self.link.take().unwrap();
                    let text = text_of(&self.children);
                    let short = shorten_wikitext(text.as_str()).to_owned();
                    self.children = VecDeque::new();
                    self.buffer.push_back(MarkupEvent::Text(short));
                    self.buffer.push_back(MarkupEvent::LinkEnd);
                    proof {
                        assert(views(self.buffer@) =~= seq![
                            MarkupEventView::Text(short@),
                            MarkupEventView::LinkEnd,
                        ]);
                        assert(self.pending() =~= old(self).pending().skip(1));
                    }
                    return Some(MarkupEvent::LinkStart(link));
                } else {
                    let ghost kids = views(self.children@);
                    self.children.push_back(ev);
                    assert(views(self.children@) =~= kids.push(ev@));
                }
            } else {
                proof {
                    assert(self.pending() =~= old(self).pending().skip(1));
                }
                return Some(ev);
            }
        }
    }
}

} // verus!
