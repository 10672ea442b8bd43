//! The markup events that the filters work on.
//!
//! The tokenizer's events are kept as plain values where a filter reads or
//! rewrites them: headings, links, text and raw HTML. Every other event is
//! carried through unchanged.

use vstd::prelude::*;

verus! {

/// An event as the tokenizer yields it.
pub type RawEvent = pulldown_cmark::Event<'static>;

/// `pulldown_cmark::Event`: nothing is read inside one but through the
/// functions below.
#[verifier::external_type_specification]
#[verifier::external_body]
pub struct ExRawEvent<'a>(pulldown_cmark::Event<'a>);

/// `pulldown_cmark::HeadingLevel`, which [`Level`] stands for.
#[verifier::external_type_specification]
#[verifier::external_body]
pub struct ExRawHeadingLevel(pulldown_cmark::HeadingLevel);

/// `pulldown_cmark::Parser`, the tokenizer.
#[verifier::external_type_specification]
#[verifier::external_body]
#[verifier::reject_recursive_types(F)]
pub struct ExTokenizer<'input, F>(pulldown_cmark::Parser<'input, F>);

/// `pulldown_cmark::DefaultBrokenLinkCallback`, which a tokenizer is made
/// with unless it is given another.
#[verifier::external_type_specification]
#[verifier::external_body]
pub struct ExBrokenLinkCallback(pulldown_cmark::DefaultBrokenLinkCallback);

/// `pulldown_cmark::LinkType`, which [`LinkKind`] stands for.
#[verifier::external_type_specification]
#[verifier::external_body]
pub struct ExRawLinkType(pulldown_cmark::LinkType);

/// The level of a heading.
#[derive(Clone, Copy, Debug, PartialEq, Eq, Structural)]
pub enum Level {
    H1,
    H2,
    H3,
    H4,
    H5,
    H6,
}

/// How a link was written.
#[derive(Clone, Copy, Debug, PartialEq, Eq, Structural)]
pub enum LinkKind {
    /// Inline link like `[foo](bar)`.
    Inline,
    /// Reference link like `[foo][bar]`.
    Reference,
    /// Reference without destination in the document.
    ReferenceUnknown,
    /// Collapsed link like `[foo][]`.
    Collapsed,
    /// Collapsed link without destination in the document.
    CollapsedUnknown,
    /// Shortcut link like `[foo]`.
    Shortcut,
    /// Shortcut without destination in the document.
    ShortcutUnknown,
    /// Autolink like `<http://foo.bar/baz>`.
    Autolink,
    /// Email address in autolink like `<john@example.org>`.
    Email,
    /// Wikilink like `[[foo]]` or `[[foo|bar]]`.
    WikiLink {
        /// `true` if the wikilink was piped: its text was chosen by the
        /// author.
        has_pothole: bool,
    },
}

/// The start of a heading.
#[derive(Debug)]
pub struct Heading {
    pub level: Level,
    pub id: Option<String>,
    pub classes: Vec<String>,
    pub attrs: Vec<(String, Option<String>)>,
}

/// The start of a link.
#[derive(Debug)]
pub struct Link {
    pub link_type: LinkKind,
    pub dest_url: String,
    pub title: String,
    pub id: String,
}

/// A markup event.
#[derive(Debug)]
pub enum MarkupEvent {
    /// Start of a heading. The events up to the matching `HeadingEnd` are
    /// inside it.
    HeadingStart(Heading),
    /// End of a heading.
    HeadingEnd(Level),
    /// Start of a link. The events up to the matching `LinkEnd` are its
    /// display text.
    LinkStart(Link),
    /// End of a link.
    LinkEnd,
    /// A text node.
    Text(String),
    /// An HTML node, written out as it is.
    Html(String),
    /// Any other event of the tokenizer.
    Other(RawEvent),
}

/// A heading as a mathematical value.
pub struct HeadingView {
    pub level: Level,
    pub id: Option<Seq<char>>,
    pub classes: Seq<Seq<char>>,
    pub attrs: Seq<(Seq<char>, Option<Seq<char>>)>,
}

/// A link as a mathematical value.
pub struct LinkView {
    pub link_type: LinkKind,
    pub dest_url: Seq<char>,
    pub title: Seq<char>,
    pub id: Seq<char>,
}

/// An event as a mathematical value.
pub enum MarkupEventView {
    HeadingStart(HeadingView),
    HeadingEnd(Level),
    LinkStart(LinkView),
    LinkEnd,
    Text(Seq<char>),
    Html(Seq<char>),
    Other(RawEvent),
}

impl View for Heading {
    type V = HeadingView;

    open spec fn view(&self) -> HeadingView {
        HeadingView {
            level: self.level,
            id: self.id.deep_view(),
            classes: self.classes.deep_view(),
            attrs: self.attrs.deep_view(),
        }
    }
}

impl View for Link {
    type V = LinkView;

    open spec fn view(&self) -> LinkView {
        LinkView {
            link_type: self.link_type,
            dest_url: self.dest_url@,
            title: self.title@,
            id: self.id@,
        }
    }
}

impl View for MarkupEvent {
    type V = MarkupEventView;

    open spec fn view(&self) -> MarkupEventView {
        match self {
            MarkupEvent::HeadingStart(h) => MarkupEventView::HeadingStart(h@),
            MarkupEvent::HeadingEnd(level) => MarkupEventView::HeadingEnd(*level),
            MarkupEvent::LinkStart(l) => MarkupEventView::LinkStart(l@),
            MarkupEvent::LinkEnd => MarkupEventView::LinkEnd,
            MarkupEvent::Text(s) => MarkupEventView::Text(s@),
            MarkupEvent::Html(s) => MarkupEventView::Html(s@),
            MarkupEvent::Other(raw) => MarkupEventView::Other(*raw),
        }
    }
}

/// The views of a sequence of events, in order.
pub open spec fn views(events: Seq<MarkupEvent>) -> Seq<MarkupEventView> {
    events.map_values(|e: MarkupEvent| e@)
}

/// The events that the tokenizer reads from a source text, with each of
/// footnotes, tables, wikilinks and smart punctuation switched on or off,
/// and every other extension off.
pub uninterp spec fn markdown_events(
    content: Seq<char>,
    footnotes: bool,
    tables: bool,
    wikilinks: bool,
    smart_punctuation: bool,
) -> Seq<MarkupEventView>;

/// The HTML that the tokenizer's writer produces for a sequence of events.
pub uninterp spec fn html_of(events: Seq<MarkupEventView>) -> Seq<char>;

/// The level that a `pulldown_cmark::HeadingLevel` stands for: the variant
/// of the same name.
pub uninterp spec fn level_of(level: pulldown_cmark::HeadingLevel) -> Level;

/// The kind that a `pulldown_cmark::LinkType` stands for: the variant of
/// the same name, with the same field.
pub uninterp spec fn link_kind_of(link_type: pulldown_cmark::LinkType) -> LinkKind;

/// The heading that a tokenizer event starts, where it is
/// `Event::Start(Tag::Heading { .. })`.
pub uninterp spec fn heading_start_in(raw: pulldown_cmark::Event<'static>) -> Option<HeadingView>;

/// The level of the heading that a tokenizer event ends, where it is
/// `Event::End(TagEnd::Heading(..))`.
pub uninterp spec fn heading_end_in(raw: pulldown_cmark::Event<'static>) -> Option<Level>;

/// The link that a tokenizer event starts, where it is
/// `Event::Start(Tag::Link { .. })`.
pub uninterp spec fn link_start_in(raw: pulldown_cmark::Event<'static>) -> Option<LinkView>;

/// Whether a tokenizer event is `Event::End(TagEnd::Link)`.
pub uninterp spec fn link_end_in(raw: pulldown_cmark::Event<'static>) -> bool;

/// The text of a tokenizer event, where it is `Event::Text`.
pub uninterp spec fn text_in(raw: pulldown_cmark::Event<'static>) -> Option<Seq<char>>;

/// The HTML of a tokenizer event, where it is `Event::Html`.
pub uninterp spec fn html_in(raw: pulldown_cmark::Event<'static>) -> Option<Seq<char>>;

/// What a tokenizer event reads as: the start or the end of a heading or
/// of a link, a text or an HTML node with what it holds, and any other
/// event as itself.
pub open spec fn event_view(raw: RawEvent) -> MarkupEventView {
    if let Some(heading) = heading_start_in(raw) {
        MarkupEventView::HeadingStart(heading)
    } else if let Some(level) = heading_end_in(raw) {
        MarkupEventView::HeadingEnd(level)
    } else if let Some(link) = link_start_in(raw) {
        MarkupEventView::LinkStart(link)
    } else if link_end_in(raw) {
        MarkupEventView::LinkEnd
    } else if let Some(text) = text_in(raw) {
        MarkupEventView::Text(text)
    } else if let Some(html) = html_in(raw) {
        MarkupEventView::Html(html)
    } else {
        MarkupEventView::Other(raw)
    }
}

/// The view of a string that may not be there.
pub open spec fn text_view(text: Option<String>) -> Option<Seq<char>> {
    match text {
        Some(text) => Some(text@),
        None => None,
    }
}

/// `pulldown_cmark::HeadingLevel`, variant for variant.
#[verifier::external_body]
fn heading_level_from_raw(level: pulldown_cmark::HeadingLevel) -> (r: Level)
    ensures
        r == level_of(level),
{
    match level {
        pulldown_cmark::HeadingLevel::H1 => Level::H1,
        pulldown_cmark::HeadingLevel::H2 => Level::H2,
        pulldown_cmark::HeadingLevel::H3 => Level::H3,
        pulldown_cmark::HeadingLevel::H4 => Level::H4,
        pulldown_cmark::HeadingLevel::H5 => Level::H5,
        pulldown_cmark::HeadingLevel::H6 => Level::H6,
    }
}

/// `pulldown_cmark::HeadingLevel`, variant for variant: the level given is
/// the one that the result stands for.
#[verifier::external_body]
fn heading_level_to_raw(level: Level) -> (r: pulldown_cmark::HeadingLevel)
    ensures
        level_of(r) == level,
{
    match level {
        Level::H1 => pulldown_cmark::HeadingLevel::H1,
        Level::H2 => pulldown_cmark::HeadingLevel::H2,
        Level::H3 => pulldown_cmark::HeadingLevel::H3,
        Level::H4 => pulldown_cmark::HeadingLevel::H4,
        Level::H5 => pulldown_cmark::HeadingLevel::H5,
        Level::H6 => pulldown_cmark::HeadingLevel::H6,
    }
}

/// `pulldown_cmark::LinkType`, variant for variant.
#[verifier::external_body]
fn link_type_from_raw(link_type: pulldown_cmark::LinkType) -> (r: LinkKind)
    ensures
        r == link_kind_of(link_type),
{
    match link_type {
        pulldown_cmark::LinkType::Inline => LinkKind::Inline,
        pulldown_cmark::LinkType::Reference => LinkKind::Reference,
        pulldown_cmark::LinkType::ReferenceUnknown => LinkKind::ReferenceUnknown,
        pulldown_cmark::LinkType::Collapsed => LinkKind::Collapsed,
        pulldown_cmark::LinkType::CollapsedUnknown => LinkKind::CollapsedUnknown,
        pulldown_cmark::LinkType::Shortcut => LinkKind::Shortcut,
        pulldown_cmark::LinkType::ShortcutUnknown => LinkKind::ShortcutUnknown,
        pulldown_cmark::LinkType::Autolink => LinkKind::Autolink,
        pulldown_cmark::LinkType::Email => LinkKind::Email,
        pulldown_cmark::LinkType::WikiLink { has_pothole } => LinkKind::WikiLink { has_pothole },
    }
}

/// `pulldown_cmark::LinkType`, variant for variant: the kind given is the
/// one that the result stands for.
#[verifier::external_body]
fn link_type_to_raw(link_type: LinkKind) -> (r: pulldown_cmark::LinkType)
    ensures
        link_kind_of(r) == link_type,
{
    match link_type {
        LinkKind::Inline => pulldown_cmark::LinkType::Inline,
        LinkKind::Reference => pulldown_cmark::LinkType::Reference,
        LinkKind::ReferenceUnknown => pulldown_cmark::LinkType::ReferenceUnknown,
        LinkKind::Collapsed => pulldown_cmark::LinkType::Collapsed,
        LinkKind::CollapsedUnknown => pulldown_cmark::LinkType::CollapsedUnknown,
        LinkKind::Shortcut => pulldown_cmark::LinkType::Shortcut,
        LinkKind::ShortcutUnknown => pulldown_cmark::LinkType::ShortcutUnknown,
        LinkKind::Autolink => pulldown_cmark::LinkType::Autolink,
        LinkKind::Email => pulldown_cmark::LinkType::Email,
        LinkKind::WikiLink { has_pothole } => pulldown_cmark::LinkType::WikiLink { has_pothole },
    }
}

/// The fields of `Event::Start(Tag::Heading { .. })`, string for string,
/// and `None` for any other event.
#[verifier::external_body]
fn heading_start_of_raw(raw: &RawEvent) -> (r: Option<
    (pulldown_cmark::HeadingLevel, Option<String>, Vec<String>, Vec<(String, Option<String>)>),
>)
    ensures
        heading_start_in(*raw) == match r {
            Some((level, id, classes, attrs)) => Some(
                HeadingView {
                    level: level_of(level),
                    id: id.deep_view(),
                    classes: classes.deep_view(),
                    attrs: attrs.deep_view(),
                },
            ),
            None => None,
        },
{
    match raw {
        pulldown_cmark::Event::Start(pulldown_cmark::Tag::Heading { level, id, classes, attrs }) => Some((
            *level,
            id.as_ref().map(|s| s.to_string()),
            classes.iter().map(|s| s.to_string()).collect(),
            attrs.iter().map(|(k, v)| (k.to_string(), v.as_ref().map(|s| s.to_string()))).collect(),
        )),
        _ => None,
    }
}

/// The level of `Event::End(TagEnd::Heading(level))`, and `None` for any
/// other event.
#[verifier::external_body]
fn heading_end_of_raw(raw: &RawEvent) -> (r: Option<pulldown_cmark::HeadingLevel>)
    ensures
        heading_end_in(*raw) == match r {
            Some(level) => Some(level_of(level)),
            None => None,
        },
{
    match raw {
        pulldown_cmark::Event::End(pulldown_cmark::TagEnd::Heading(level)) => Some(*level),
        _ => None,
    }
}

/// The fields of `Event::Start(Tag::Link { .. })`, string for string, and
/// `None` for any other event.
#[verifier::external_body]
fn link_start_of_raw(raw: &RawEvent) -> (r: Option<
    (pulldown_cmark::LinkType, String, String, String),
>)
    ensures
        link_start_in(*raw) == match r {
            Some((link_type, dest_url, title, id)) => Some(
                LinkView {
                    link_type: link_kind_of(link_type),
                    dest_url: dest_url@,
                    title: title@,
                    id: id@,
                },
            ),
            None => None,
        },
{
    match raw {
        pulldown_cmark::Event::Start(pulldown_cmark::Tag::Link { link_type, dest_url, title, id }) => Some(
            (*link_type, dest_url.to_string(), title.to_string(), id.to_string()),
        ),
        _ => None,
    }
}

/// Whether the event is `Event::End(TagEnd::Link)`.
#[verifier::external_body]
fn is_link_end_raw(raw: &RawEvent) -> (r: bool)
    ensures
        r == link_end_in(*raw),
{
    match raw {
        pulldown_cmark::Event::End(pulldown_cmark::TagEnd::Link) => true,
        _ => false,
    }
}

/// The string of `Event::Text`, and `None` for any other event.
#[verifier::external_body]
fn text_of_raw(raw: &RawEvent) -> (r: Option<String>)
    ensures
        text_view(r) == text_in(*raw),
{
    match raw {
        pulldown_cmark::Event::Text(text) => Some(text.to_string()),
        _ => None,
    }
}

/// The string of `Event::Html`, and `None` for any other event.
#[verifier::external_body]
fn html_of_raw(raw: &RawEvent) -> (r: Option<String>)
    ensures
        text_view(r) == html_in(*raw),
{
    match raw {
        pulldown_cmark::Event::Html(html) => Some(html.to_string()),
        _ => None,
    }
}

/// Builds `Event::Start(Tag::Heading { .. })` from its fields: an event
/// that reads as the start of the heading with those fields.
#[verifier::external_body]
fn heading_start_to_raw(
    level: pulldown_cmark::HeadingLevel,
    id: Option<String>,
    classes: Vec<String>,
    attrs: Vec<(String, Option<String>)>,
) -> (r: RawEvent)
    ensures
        event_view(r) == MarkupEventView::HeadingStart(
            HeadingView {
                level: level_of(level),
                id: id.deep_view(),
                classes: classes.deep_view(),
                attrs: attrs.deep_view(),
            },
        ),
{
    pulldown_cmark::Event::Start(
        pulldown_cmark::Tag::Heading {
            level,
            id: id.map(pulldown_cmark::CowStr::from),
            classes: classes.into_iter().map(pulldown_cmark::CowStr::from).collect(),
            attrs: attrs.into_iter().map(|(k, v)| (k.into(), v.map(pulldown_cmark::CowStr::from))).collect(),
        },
    )
}

/// Builds `Event::End(TagEnd::Heading(level))`: an event that reads as the
/// end of a heading of that level.
#[verifier::external_body]
fn heading_end_to_raw(level: pulldown_cmark::HeadingLevel) -> (r: RawEvent)
    ensures
        event_view(r) == MarkupEventView::HeadingEnd(level_of(level)),
{
    pulldown_cmark::Event::End(pulldown_cmark::TagEnd::Heading(level))
}

/// Builds `Event::Start(Tag::Link { .. })` from its fields: an event that
/// reads as the start of the link with those fields.
#[verifier::external_body]
fn link_start_to_raw(
    link_type: pulldown_cmark::LinkType,
    dest_url: String,
    title: String,
    id: String,
) -> (r: RawEvent)
    ensures
        event_view(r) == MarkupEventView::LinkStart(
            LinkView {
                link_type: link_kind_of(link_type),
                dest_url: dest_url@,
                title: title@,
                id: id@,
            },
        ),
{
    pulldown_cmark::Event::Start(
        pulldown_cmark::Tag::Link {
            link_type,
            dest_url: dest_url.into(),
            title: title.into(),
            id: id.into(),
        },
    )
}

/// Builds `Event::End(TagEnd::Link)`: an event that reads as the end of a
/// link.
#[verifier::external_body]
fn link_end_to_raw() -> (r: RawEvent)
    ensures
        event_view(r) == MarkupEventView::LinkEnd,
{
    pulldown_cmark::Event::End(pulldown_cmark::TagEnd::Link)
}

/// Builds `Event::Text`: an event that reads as that text.
#[verifier::external_body]
fn text_to_raw(text: String) -> (r: RawEvent)
    ensures
        event_view(r) == MarkupEventView::Text(text@),
{
    pulldown_cmark::Event::Text(text.into())
}

/// Builds `Event::Html`: an event that reads as that HTML.
#[verifier::external_body]
fn html_to_raw(html: String) -> (r: RawEvent)
    ensures
        event_view(r) == MarkupEventView::Html(html@),
{
    pulldown_cmark::Event::Html(html.into())
}

impl MarkupEvent {
    /// Reads a tokenizer event: the parts that the filters work on become
    /// plain values, any other event is kept as it is.
    pub fn from_raw(raw: RawEvent) -> (r: MarkupEvent)
        ensures
            r@ == event_view(raw),
    {
        if let Some((level, id, classes, attrs)) = heading_start_of_raw(&raw) {
            MarkupEvent::HeadingStart(Heading { level: heading_level_from_raw(level), id, classes, attrs })
        } else if let Some(level) = heading_end_of_raw(&raw) {
            MarkupEvent::HeadingEnd(heading_level_from_raw(level))
        } else if let Some((link_type, dest_url, title, id)) = link_start_of_raw(&raw) {
            MarkupEvent::LinkStart(Link { link_type: link_type_from_raw(link_type), dest_url, title, id })
        } else if is_link_end_raw(&raw) {
            MarkupEvent::LinkEnd
        } else if let Some(text) = text_of_raw(&raw) {
            MarkupEvent::Text(text)
        } else if let Some(html) = html_of_raw(&raw) {
            MarkupEvent::Html(html)
        } else {
            MarkupEvent::Other(raw)
        }
    }

    /// Gives the tokenizer event that this event stands for: the event
    /// that was kept, or else one that reads as this event.
    pub fn into_raw(self) -> (r: RawEvent)
        ensures
            match self {
                MarkupEvent::Other(raw) => r == raw,
                _ => event_view(r) == self@,
            },
    {
        match self {
            MarkupEvent::HeadingStart(h) => heading_start_to_raw(
                heading_level_to_raw(h.level),
                h.id,
                h.classes,
                h.attrs,
            ),
            MarkupEvent::HeadingEnd(level) => heading_end_to_raw(heading_level_to_raw(level)),
            MarkupEvent::LinkStart(l) => link_start_to_raw(
                link_type_to_raw(l.link_type),
                l.dest_url,
                l.title,
                l.id,
            ),
            MarkupEvent::LinkEnd => link_end_to_raw(),
            MarkupEvent::Text(text) => text_to_raw(text),
            MarkupEvent::Html(html) => html_to_raw(html),
            MarkupEvent::Other(raw) => raw,
        }
    }
}

/// The events that a tokenizer has still to yield, in order.
pub uninterp spec fn tokens_left(tokenizer: pulldown_cmark::Parser<'_>) -> Seq<MarkupEventView>;

/// `pulldown_cmark::Parser::new_ext` over `content`, with the options for
/// footnotes, tables, wikilinks and smart punctuation set as given and no
/// other. The events that the tokenizer will yield depend on the text and the
/// options alone.
#[verifier::external_body]
pub(crate) fn tokenizer<'a>(
    content: &'a str,
    footnotes: bool,
    tables: bool,
    wikilinks: bool,
    smart_punctuation: bool,
) -> (r: pulldown_cmark::Parser<'a>)
    ensures
        tokens_left(r) == markdown_events(content@, footnotes, tables, wikilinks, smart_punctuation),
{
    let mut options = pulldown_cmark::Options::empty();
    options.set(pulldown_cmark::Options::ENABLE_FOOTNOTES, footnotes);
    options.set(pulldown_cmark::Options::ENABLE_TABLES, tables);
    options.set(pulldown_cmark::Options::ENABLE_WIKILINKS, wikilinks);
    options.set(pulldown_cmark::Options::ENABLE_SMART_PUNCTUATION, smart_punctuation);
    pulldown_cmark::Parser::new_ext(content, options)
}

/// `Iterator::next` of `pulldown_cmark::Parser`: yields the next event, made
/// to own its strings, or `None` once none is left. The tokenizer is fused:
/// at its end it stays there.
#[verifier::external_body]
pub(crate) fn next_token<'a>(tokenizer: &mut pulldown_cmark::Parser<'a>) -> (r: Option<RawEvent>)
    ensures
        match r {
            Some(raw) => tokens_left(*old(tokenizer)).len() > 0 && event_view(raw) == tokens_left(
                *old(tokenizer),
            )[0] && tokens_left(*final(tokenizer)) == tokens_left(*old(tokenizer)).skip(1),
            None => tokens_left(*old(tokenizer)).len() == 0 && tokens_left(
                *final(tokenizer),
            ).len() == 0,
        },
{
    tokenizer.next().map(pulldown_cmark::Event::into_static)
}

} // verus!
