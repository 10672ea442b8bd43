//! Page rendering markup.

pub mod event;
pub mod filters;
pub mod links;

use crate::markdown::event::{Link, LinkKind, LinkView, MarkupEvent, MarkupEventView};
use crate::markdown::filters::shorten_wikitext::{wikitext_shortened, ShortenWikiText};
use crate::markdown::filters::tag_headings::{headings_tagged, TagHeadings};
use crate::markdown::filters::{page_events, EventStream, FiltersExt, Tokens};
use crate::text::{
    alphanumeric, ascii_lower, char_is_ascii_whitespace, chars_of, index_of, is_ascii_whitespace,
    to_ascii_lower,
};
use vstd::prelude::*;

verus! {

/// What every generated heading id begins with, so that it cannot collide
/// with an anchor name that an author chose.
pub const HEADING_ID_PREFIX: &'static str = "heading-";

/// The pattern of a URI that names its own host: an optional scheme and a
/// colon, then two slashes (RFC 3986). Letters match in either case.
pub const ABSOLUTE_URI_PATTERN: &'static str = "^(?:[a-z][a-z0-9+\\-.]*:)?//";

/// A character that a scheme can begin with: an ASCII letter in either
/// case, or one of the two other characters that fold to one (the long s and
/// the Kelvin sign).
pub open spec fn scheme_start(c: char) -> bool {
    ('a' <= c && c <= 'z') || ('A' <= c && c <= 'Z') || c == '\u{17f}' || c == '\u{212a}'
}

/// A character that a scheme can go on with.
pub open spec fn scheme_char(c: char) -> bool {
    scheme_start(c) || ('0' <= c && c <= '9') || c == '+' || c == '-' || c == '.'
}

/// The first `k` characters of `uri` are a scheme, and `://` follows.
pub open spec fn has_scheme(uri: Seq<char>, k: int) -> bool {
    &&& 1 <= k
    &&& k + 2 < uri.len()
    &&& scheme_start(uri[0])
    &&& forall|j: int| 1 <= j < k ==> scheme_char(#[trigger] uri[j])
    &&& uri[k] == ':'
    &&& uri[k + 1] == '/'
    &&& uri[k + 2] == '/'
}

/// A URI is absolute where it begins with two slashes, or with a scheme, a
/// colon and two slashes.
pub open spec fn is_absolute_uri(uri: Seq<char>) -> bool {
    (uri.len() >= 2 && uri[0] == '/' && uri[1] == '/') || exists|k: int| has_scheme(uri, k)
}

/// Whether `regex` finds [`ABSOLUTE_URI_PATTERN`], letters in either case,
/// at the start of `uri`. The pattern is anchored, so a match is a prefix:
/// the two slashes alone, or letters, digits, `+`, `-` and `.` after a first
/// letter, then `://`. With Unicode case folding, which `regex` applies by
/// default, `[a-z]` in either case also takes U+017F and U+212A.
#[verifier::external_body]
fn matches_absolute_uri_pattern(uri: &str) -> (r: bool)
    ensures
        r == is_absolute_uri(uri@),
{
    regex::RegexBuilder::new(ABSOLUTE_URI_PATTERN)
        .case_insensitive(true)
        .build()
        .expect("valid regex")
        .is_match(uri)
}

/// Checks if a URI is absolute.
pub fn is_uri_absolute(uri: &str) -> (r: bool)
    ensures
        r == is_absolute_uri(uri@),
{
    matches_absolute_uri_pattern(uri)
}

/// What stands before the first `#` of a destination: the destination
/// without its fragment.
pub open spec fn before_fragment(dest: Seq<char>) -> Seq<char> {
    match index_of(dest, '#') {
        Some(i) => dest.take(i),
        None => dest,
    }
}

/// `s` with every run of ASCII whitespace that a character follows replaced
/// by one underscore, and whitespace at the end dropped.
pub open spec fn underscored(s: Seq<char>) -> Seq<char>
    decreases s.len(),
{
    if s.len() == 0 {
        Seq::empty()
    } else {
        let before = underscored(s.drop_last());
        if is_ascii_whitespace(s.last()) {
            before
        } else if s.len() >= 2 && is_ascii_whitespace(s[s.len() - 2]) {
            before.push('_').push(s.last())
        } else {
            before.push(s.last())
        }
    }
}

/// The destination that a wikilink stands for: an absolute URI, a fragment
/// and the empty string as they are; any other as a path between slashes,
/// with underscores for its whitespace.
pub open spec fn normalized_wikilink(link: Seq<char>) -> Seq<char> {
    if is_absolute_uri(link) || link.len() == 0 || link[0] == '#' {
        link
    } else {
        let lead = if link[0] == '/' {
            Seq::<char>::empty()
        } else {
            seq!['/']
        };
        let trail = if link.last() == '/' {
            Seq::<char>::empty()
        } else {
            seq!['/']
        };
        lead + underscored(link) + trail
    }
}

/// Normalizes wikilinks.
pub fn normalize_wikilink(link: &str) -> (r: String)
    ensures
        r@ == normalized_wikilink(link@),
{
    let chars = chars_of(link);
    let n = chars.len();
    if is_uri_absolute(link) || n == 0 || chars[0] == '#' {
        return link.to_owned();
    }
    let mut out = String::new();
    if chars[0] != '/' {
        out.push('/');
    }
    let ghost lead = out@;
    let mut i: usize = 0;
    proof {
        assert(chars@.take(0) == Seq::<char>::empty());
    }
    while i < n
        invariant
            0 <= i <= n,
            n == chars.len(),
            out@ == lead + underscored(chars@.take(i as int)),
        decreases n - i,
    {
        let ch = chars[i];
        proof {
            let next = chars@.take(i + 1);
            assert(next.drop_last() == chars@.take(i as int));
            assert(next.last() == ch);
        }
        if !char_is_ascii_whitespace(ch) {
            if i > 0 && char_is_ascii_whitespace(chars[i - 1]) {
                out.push('_');
            }
            out.push(ch);
        }
        i += 1;
    }
    proof {
        assert(chars@.take(n as int) == chars@);
    }
    if chars[n - 1] != '/' {
        out.push('/');
    }
    out
}

/// The alphanumeric characters of `s`, ASCII letters in lower case, with
/// one hyphen for every run of other characters that stands between two of
/// them.
pub open spec fn hyphenated(s: Seq<char>) -> Seq<char>
    decreases s.len(),
{
    if s.len() == 0 {
        Seq::empty()
    } else {
        let before = hyphenated(s.drop_last());
        if !alphanumeric(s.last()) {
            before
        } else if s.len() >= 2 && !alphanumeric(s[s.len() - 2]) && before.len() > 0 {
            before.push('-').push(ascii_lower(s.last()))
        } else {
            before.push(ascii_lower(s.last()))
        }
    }
}

/// No hyphen stands at an edge of the hyphenated text, and no two hyphens
/// stand in a row: each one stands for a run of other characters between two
/// alphanumeric ones.
pub proof fn lemma_hyphenated_shape(s: Seq<char>)
    ensures
        ({
            let t = hyphenated(s);
            &&& t.len() > 0 ==> t[0] != '-' && t.last() != '-'
            &&& forall|i: int| 0 < i < t.len() ==> !(t[i - 1] == '-' && #[trigger] t[i] == '-')
        }),
    decreases s.len(),
{
    if s.len() > 0 {
        lemma_hyphenated_shape(s.drop_last());
        let before = hyphenated(s.drop_last());
        let t = hyphenated(s);
        let c = s.last();
        if alphanumeric(c) {
            assert(ascii_lower(c) != '-');
            if s.len() >= 2 && !alphanumeric(s[s.len() - 2]) && before.len() > 0 {
                assert(t == before.push('-').push(ascii_lower(c)));
                assert forall|i: int| 0 < i < t.len() implies !(t[i - 1] == '-' && #[trigger] t[i]
                    == '-') by {
                    if i < before.len() {
                        assert(t[i] == before[i] && t[i - 1] == before[i - 1]);
                    } else if i == before.len() {
                        assert(t[i - 1] == before.last());
                    }
                }
            } else {
                assert(t == before.push(ascii_lower(c)));
                assert forall|i: int| 0 < i < t.len() implies !(t[i - 1] == '-' && #[trigger] t[i]
                    == '-') by {
                    if i < before.len() {
                        assert(t[i] == before[i] && t[i - 1] == before[i - 1]);
                    }
                }
            }
        }
    }
}

/// The id of the heading whose text is `s`: empty for an empty text, else
/// [`HEADING_ID_PREFIX`] and the hyphenated text.
pub open spec fn heading_id(s: Seq<char>) -> Seq<char> {
    if s.len() == 0 {
        s
    } else {
        HEADING_ID_PREFIX@ + hyphenated(s)
    }
}

/// Normalizes heading IDs.
pub fn normalize_heading_id(id: &str) -> (r: String)
    ensures
        r@ == heading_id(id@),
{
    let chars = chars_of(id);
    let n = chars.len();
    if n == 0 {
        return id.to_owned();
    }
    let mut out = HEADING_ID_PREFIX.to_owned();
    let mut any = false;
    let mut i: usize = 0;
    proof {
        assert(chars@.take(0) == Seq::<char>::empty());
    }
    while i < n
        invariant
            0 <= i <= n,
            n == chars.len(),
            out@ == HEADING_ID_PREFIX@ + hyphenated(chars@.take(i as int)),
            any == (hyphenated(chars@.take(i as int)).len() > 0),
        decreases n - i,
    {
        let ch = chars[i];
        proof {
            let next = chars@.take(i + 1);
            assert(next.drop_last() == chars@.take(i as int));
            assert(next.last() == ch);
        }
        if ch.is_alphanumeric() {
            if i > 0 && !chars[i - 1].is_alphanumeric() && any {
                out.push('-');
            }
            out.push(to_ascii_lower(ch));
            any = true;
        }
        i += 1;
    }
    proof {
        assert(chars@.take(n as int) == chars@);
    }
    out
}

/// The event with the destination of a wikilink normalized.
pub open spec fn normalized_event(ev: MarkupEventView) -> MarkupEventView {
    match ev {
        MarkupEventView::LinkStart(l) => if l.link_type is WikiLink {
            MarkupEventView::LinkStart(
                LinkView { dest_url: normalized_wikilink(l.dest_url), ..l },
            )
        } else {
            ev
        },
        _ => ev,
    }
}

/// The events with the destination of every wikilink normalized.
pub open spec fn wikilinks_normalized(events: Seq<MarkupEventView>) -> Seq<MarkupEventView> {
    events.map_values(|ev: MarkupEventView| normalized_event(ev))
}

/// The events of a page: what the tokenizer reads from its source, with
/// wikilinks normalized, headings tagged and wikitext shortened.
pub open spec fn parsed(content: Seq<char>) -> Seq<MarkupEventView> {
    wikitext_shortened(headings_tagged(wikilinks_normalized(page_events(content))))
}

/// Normalizes the destination of a wikilink and leaves any other event as
/// it is.
pub fn normalize_event(ev: MarkupEvent) -> (r: MarkupEvent)
    ensures
        r@ == normalized_event(ev@),
{
    match ev {
        MarkupEvent::LinkStart(link) => {
            match link.link_type {
                LinkKind::WikiLink { has_pothole } => {
                    let dest_url = normalize_wikilink(link.dest_url.as_str());
                    MarkupEvent::LinkStart(
                        Link {
                            link_type: LinkKind::WikiLink { has_pothole },
                            dest_url,
                            title: link.title,
                            id: link.id,
                        },
                    )
                },
                _ => MarkupEvent::LinkStart(link),
            }
        },
        ev => ev,
    }
}

/// A stream with the destination of every wikilink normalized.
pub struct NormalizeWikilinks<I> {
    inner: I,
}

impl<I: EventStream> NormalizeWikilinks<I> {
    /// Creates a new `NormalizeWikilinks`.
    pub fn new(inner: I) -> (r: NormalizeWikilinks<I>)
        ensures
            r.pending() == wikilinks_normalized(inner.pending()),
    {
        NormalizeWikilinks { inner }
    }
}

impl<I: EventStream> EventStream for NormalizeWikilinks<I> {
    closed spec fn pending(&self) -> Seq<MarkupEventView> {
        wikilinks_normalized(self.inner.pending())
    }

    fn next(&mut self) -> (r: Option<MarkupEvent>) {
        let ghost input = self.inner.pending();
        match self.inner.next() {
            Some(ev) => {
                assert(wikilinks_normalized(self.inner.pending()) =~= wikilinks_normalized(
                    input,
                ).skip(1));
                Some(normalize_event(ev))
            },
            None => None,
        }
    }
}

/// Creates a Markdown token stream from content.
pub fn parse<'a>(content: &'a str) -> (r: ShortenWikiText<
    TagHeadings<NormalizeWikilinks<Tokens<'a>>>,
>)
    ensures
        r.pending() == parsed(content@),
{
    NormalizeWikilinks::new(Tokens::new(content)).tag_headings().shorten_wikitext()
}

} // verus!
