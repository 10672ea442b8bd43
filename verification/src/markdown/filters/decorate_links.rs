use crate::markdown::event::{Link, LinkView, MarkupEvent, MarkupEventView};
use crate::markdown::filters::EventStream;
use crate::markdown::links::{link_of, link_target, names_page};
use crate::markdown::{is_absolute_uri, is_uri_absolute};
use crate::slug::{rejection, trim_slashes};
use crate::slug_set::SlugSet;
use crate::text::is_ascii_alphanumeric;
use vstd::utf8::encode_scalar;
use vstd::prelude::*;

verus! {

/// The characters that stand in an `href` as they are: the ASCII letters and
/// digits, and `! # $ % ( ) * + , - . / : ; = ? @ ^ _ ~`.
pub open spec fn href_safe(c: char) -> bool {
    ||| is_ascii_alphanumeric(c)
    ||| c == '!'
    ||| c == '#'
    ||| c == '$'
    ||| c == '%'
    ||| ('(' <= c && c <= '/')
    ||| c == ':'
    ||| c == ';'
    ||| c == '='
    ||| c == '?'
    ||| c == '@'
    ||| c == '^'
    ||| c == '_'
    ||| c == '~'
}

/// The upper-case hexadecimal digit for a value below sixteen.
pub open spec fn upper_hex_digit(n: int) -> char {
    if n < 10 {
        (('0' as u8) + n) as char
    } else {
        (('A' as u8) + n - 10) as char
    }
}

/// Each byte as a percent sign and two upper-case hexadecimal digits.
pub open spec fn percent_encoded(bytes: Seq<u8>) -> Seq<char>
    decreases bytes.len(),
{
    if bytes.len() == 0 {
        Seq::empty()
    } else {
        percent_encoded(bytes.drop_last()) + seq![
            '%',
            upper_hex_digit(bytes.last() as int / 16),
            upper_hex_digit(bytes.last() as int % 16),
        ]
    }
}

/// What stands for a character inside an `href`: the character itself where
/// it is safe there, an escape sequence for `&` and `'`, and else the bytes
/// of its UTF-8 encoding, percent-encoded.
pub open spec fn href_escaped_char(c: char) -> Seq<char> {
    if href_safe(c) {
        seq![c]
    } else if c == '&' {
        "&amp;"@
    } else if c == '\'' {
        "&#x27;"@
    } else {
        percent_encoded(encode_scalar(c as u32))
    }
}

/// `s` as it stands inside an `href`, character by character.
pub open spec fn href_escaped(s: Seq<char>) -> Seq<char>
    decreases s.len(),
{
    if s.len() == 0 {
        Seq::empty()
    } else {
        href_escaped(s.drop_last()) + href_escaped_char(s.last())
    }
}

/// What stands for a character inside a quoted HTML attribute.
pub open spec fn html_escaped_char(c: char) -> Seq<char> {
    if c == '&' {
        "&amp;"@
    } else if c == '<' {
        "&lt;"@
    } else if c == '>' {
        "&gt;"@
    } else if c == '"' {
        "&quot;"@
    } else if c == '\'' {
        "&#39;"@
    } else {
        seq![c]
    }
}

/// `s` with `&`, `<`, `>`, `"` and `'` replaced by their escape sequences.
pub open spec fn html_escaped(s: Seq<char>) -> Seq<char>
    decreases s.len(),
{
    if s.len() == 0 {
        Seq::empty()
    } else {
        html_escaped(s.drop_last()) + html_escaped_char(s.last())
    }
}

/// Appends what `pulldown_cmark_escape::escape_href` writes for `s`: the
/// bytes that its table of safe bytes holds as they are, `&amp;` for `&`,
/// `&#x27;` for `'`, and any other byte as `%` and two upper-case hexadecimal
/// digits. A `String` takes every write.
#[verifier::external_body]
fn escape_href(out: &mut String, s: &str)
    ensures
        final(out)@ == old(out)@ + href_escaped(s@),
{
    let _ = pulldown_cmark_escape::escape_href(out, s);
}

/// Appends what `pulldown_cmark_escape::escape_html` writes for `s`: the
/// string with `&`, `<`, `>`, `"` and `'` replaced by `&amp;`, `&lt;`,
/// `&gt;`, `&quot;` and `&#39;`.
#[verifier::external_body]
fn escape_html(out: &mut String, s: &str)
    ensures
        final(out)@ == old(out)@ + html_escaped(s@),
{
    let _ = pulldown_cmark_escape::escape_html(out, s);
}

/// Whether the page that a destination points to is among `resolved`: the
/// destination is read as the link extractor reads it, and the slug that it
/// gives is looked up.
pub open spec fn resolves(dest: Seq<char>, resolved: Set<Seq<char>>) -> bool {
    let target = link_target(dest);
    rejection(target) is None && resolved.contains(trim_slashes(target))
}

/// Whether a link is marked as leading nowhere. Without a set of resolved
/// links none is. With one, a link is marked unless it is absolute, a
/// fragment of the same page, or points to a page of the set.
pub open spec fn is_missing(dest: Seq<char>, resolved: Option<Set<Seq<char>>>) -> bool {
    match resolved {
        Some(set) => !is_absolute_uri(dest) && !(dest.len() > 0 && dest[0] == '#') && !resolves(
            dest,
            set,
        ),
        None => false,
    }
}

/// The text with one more class written after it.
pub open spec fn with_class(text: Seq<char>, any: bool, class: Seq<char>) -> Seq<char> {
    text + (if any {
        " "@
    } else {
        " class=\""@
    }) + class
}

/// The opening tag of the anchor that stands for a link.
pub open spec fn anchor_markup(l: LinkView, resolved: Option<Set<Seq<char>>>) -> Seq<char> {
    let absolute = is_absolute_uri(l.dest_url);
    let missing = is_missing(l.dest_url, resolved);
    let root = if !absolute && l.dest_url.len() > 0 && l.dest_url[0] == '/' {
        "/~"@
    } else {
        Seq::empty()
    };
    let title = if l.title.len() > 0 {
        "\" title=\""@ + html_escaped(l.title)
    } else {
        Seq::empty()
    };
    let head = "<a href=\""@ + root + href_escaped(l.dest_url) + title + "\""@;
    let first = if missing {
        with_class(head, false, "noexist"@)
    } else {
        head
    };
    let second = if absolute {
        with_class(first, missing, "external-link"@)
    } else {
        first
    };
    let closed = if missing || absolute {
        second + "\""@
    } else {
        second
    };
    closed + ">"@
}

/// Writes the `class` attribute of an anchor, class by class.
pub struct AnchorClassWriter {
    out: String,
    any: bool,
}

impl AnchorClassWriter {
    /// What has been written.
    pub closed spec fn written(&self) -> Seq<char> {
        self.out@
    }

    /// Whether a class has been written.
    pub closed spec fn any(&self) -> bool {
        self.any
    }

    /// Begins after the text `out`.
    pub fn new(out: String) -> (r: AnchorClassWriter)
        ensures
            r.written() == out@,
            !r.any(),
    {
        AnchorClassWriter { out, any: false }
    }

    /// Writes one more class.
    pub fn add(&mut self, class: &str)
        ensures
            final(self).written() == with_class(old(self).written(), old(self).any(), class@),
            final(self).any(),
    {
        if self.any {
            self.out.append(" ");
        } else {
            self.out.append(" class=\"");
        }
        self.any = true;
        self.out.append(class);
    }

    /// Closes the attribute, if a class was written, and gives the text.
    pub fn finish(self) -> (r: String)
        ensures
            r@ == if self.any() {
                self.written() + "\""@
            } else {
                self.written()
            },
    {
        let mut out = self.out;
        if self.any {
            out.append("\"");
        }
        out
    }
}

/// Whether a link is marked as leading nowhere.
pub fn link_is_missing(dest: &str, resolved: &Option<SlugSet>) -> (r: bool)
    ensures
        r == is_missing(dest@, resolved_view(*resolved)),
{
    match resolved {
        Some(set) => {
            if is_uri_absolute(dest) {
                return false;
            }
            if dest.unicode_len() > 0 && dest.get_char(0) == '#' {
                return false;
            }
            match link_of(dest) {
                Some(slug) => !set.contains(&slug),
                None => {
                    assert(!names_page(dest@, trim_slashes(link_target(dest@))));
                    true
                },
            }
        },
        None => false,
    }
}

/// The paths of a set of resolved links, where there is one.
pub open spec fn resolved_view(resolved: Option<SlugSet>) -> Option<Set<Seq<char>>> {
    match resolved {
        Some(set) => Some(set@),
        None => None,
    }
}

/// Builds the opening tag of the anchor that stands for a link.
pub fn anchor_html(link: &Link, resolved: &Option<SlugSet>) -> (r: String)
    ensures
        r@ == anchor_markup(link@, resolved_view(*resolved)),
{
    let dest = link.dest_url.as_str();
    let absolute = is_uri_absolute(dest);
    let mut html = String::new();
    html.append("<a href=\"");
    if !absolute && dest.unicode_len() > 0 && dest.get_char(0) == '/' {
        html.append("/~");
    }
    escape_href(&mut html, dest);
    if link.title.as_str().unicode_len() > 0 {
        html.append("\" title=\"");
        escape_html(&mut html, link.title.as_str());
    }
    html.append("\"");
    let mut classes = AnchorClassWriter::new(html);
    if link_is_missing(dest, resolved) {
        classes.add("noexist");
    }
    if absolute {
        classes.add("external-link");
    }
    let mut html = classes.finish();
    html.append(">");
    proof {
        let l = link@;
        let root = if !absolute && l.dest_url.len() > 0 && l.dest_url[0] == '/' {
            "/~"@
        } else {
            Seq::<char>::empty()
        };
        let title = if l.title.len() > 0 {
            "\" title=\""@ + html_escaped(l.title)
        } else {
            Seq::<char>::empty()
        };
        assert(Seq::<char>::empty() + "<a href=\""@ + root + href_escaped(l.dest_url) + title
            + "\""@ =~= "<a href=\""@ + root + href_escaped(l.dest_url) + title + "\""@);
        assert(html@ =~= anchor_markup(l, resolved_view(*resolved)));
    }
    html
}

/// What the filter makes of one event: a link's start becomes its anchor's
/// opening tag, a link's end the closing tag, any other event stays.
pub open spec fn decorated_event(
    ev: MarkupEventView,
    resolved: Option<Set<Seq<char>>>,
) -> MarkupEventView {
    match ev {
        MarkupEventView::LinkStart(l) => MarkupEventView::Html(anchor_markup(l, resolved)),
        MarkupEventView::LinkEnd => MarkupEventView::Html("</a>"@),
        _ => ev,
    }
}

/// What the filter makes of a whole stream.
pub open spec fn links_decorated(
    input: Seq<MarkupEventView>,
    resolved: Option<Set<Seq<char>>>,
) -> Seq<MarkupEventView> {
    input.map_values(|ev: MarkupEventView| decorated_event(ev, resolved))
}

/// Decorating keeps the number of events and leaves neither the start nor
/// the end of a link among them.
pub proof fn lemma_decorated_has_no_links(
    input: Seq<MarkupEventView>,
    resolved: Option<Set<Seq<char>>>,
)
    ensures
        links_decorated(input, resolved).len() == input.len(),
        forall|i: int|
            0 <= i < input.len() ==> !((#[trigger] links_decorated(input, resolved)[i])
                is LinkStart) && !(links_decorated(input, resolved)[i] is LinkEnd),
{
}

/// Decorates links, adding classes and marking external links.
///
/// ## Warning
/// This consumes any link events and replaces them with HTML events.
/// This should be the last link transformer in the chain of filters.
pub struct DecorateLinks<I> {
    inner: I,
    resolved_links: Option<SlugSet>,
}

impl<I: EventStream> DecorateLinks<I> {
    /// The events that the stream before this one has still to yield.
    pub closed spec fn source(&self) -> Seq<MarkupEventView> {
        self.inner.pending()
    }

    /// The paths of the resolved links, if a set of them was given.
    pub closed spec fn resolved(&self) -> Option<Set<Seq<char>>> {
        resolved_view(self.resolved_links)
    }

    /// Creates a new `DecorateLinks`.
    pub fn new(inner: I) -> (r: DecorateLinks<I>)
        ensures
            r.source() == inner.pending(),
            r.resolved() is None,
            r.pending() == links_decorated(inner.pending(), None),
    {
        DecorateLinks { inner, resolved_links: None }
    }

    /// Tells the decorator to use a list of resolved links, calculated in a
    /// previous pass.
    pub fn with_resolved_links(self, resolved_links: SlugSet) -> (r: DecorateLinks<I>)
        ensures
            r.source() == self.source(),
            r.resolved() == Some(resolved_links@),
            r.pending() == links_decorated(self.source(), Some(resolved_links@)),
    {
        DecorateLinks { inner: self.inner, resolved_links: Some(resolved_links) }
    }
}

impl<I: EventStream> EventStream for DecorateLinks<I> {
    closed spec fn pending(&self) -> Seq<MarkupEventView> {
        links_decorated(self.inner.pending(), resolved_view(self.resolved_links))
    }

    fn next(&mut self) -> (r: Option<MarkupEvent>) {
        let ghost input = self.inner.pending();
        let ghost resolved = resolved_view(self.resolved_links);
        let ev = match self.inner.next() {
            Some(ev) => ev,
            None => {
                return None;
            },
        };
        let ev = match ev {
            MarkupEvent::LinkStart(link) => MarkupEvent::Html(
                anchor_html(&link, &self.resolved_links),
            ),
            MarkupEvent::LinkEnd => MarkupEvent::Html("</a>".to_owned()),
            ev => ev,
        };
        proof {
            assert(links_decorated(self.inner.pending(), resolved) =~= links_decorated(
                input,
                resolved,
            ).skip(1));
        }
        Some(ev)
    }
}

} // verus!
