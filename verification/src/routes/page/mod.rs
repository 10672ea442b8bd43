//! Page routes.
//!
//! These routes make up for most of the actual Wiki-things.

pub mod post;
pub mod show;

use crate::markdown::event::html_of;
use crate::markdown::filters::decorate_links::links_decorated;
use crate::markdown::filters::{push_html, EventStream, FiltersExt};
use crate::markdown::{parse, parsed, HEADING_ID_PREFIX};
use crate::routes::INDEX_PATH;
use crate::schema::page::Page;
use crate::slug::{rejection, slugified, Slug};
use crate::slug_set::{paths_of, SlugSet};
use crate::text::starts_with;
use vstd::prelude::*;

verus! {

/// What is done with a URL that names no host.
#[derive(Clone, Copy, Debug, PartialEq, Eq, Structural)]
pub enum RelativeUrls {
    /// Links and images with such a URL lose it.
    Deny,
    /// Such a URL stays as it is.
    PassThrough,
}

/// The HTML that `ammonia` leaves of a text, where the attributes of
/// `generic_attributes` are allowed on every element, each attribute goes
/// through [`filter_attribute`], links get the relation `link_rel`, and
/// relative URLs are dealt with as `relative_urls` says.
pub uninterp spec fn sanitized_html(
    html: Seq<char>,
    generic_attributes: Seq<Seq<char>>,
    link_rel: Seq<char>,
    relative_urls: RelativeUrls,
) -> Seq<char>;

/// The relation that every link of a page gets.
pub const LINK_REL: &'static str = "noopener noreferrer";

/// The attributes that are allowed on every element of a page.
pub open spec fn page_attributes() -> Seq<Seq<char>> {
    seq!["class"@, "id"@]
}

/// Whether an element is a heading.
pub open spec fn is_heading_element(element: Seq<char>) -> bool {
    element == "h1"@ || element == "h2"@ || element == "h3"@ || element == "h4"@ || element
        == "h5"@ || element == "h6"@
}

/// Whether an attribute stays on an element. An `id` stays on a heading
/// where it begins with [`HEADING_ID_PREFIX`], and nowhere else. Any other
/// attribute stays.
pub open spec fn keeps_attribute(
    element: Seq<char>,
    attribute: Seq<char>,
    value: Seq<char>,
) -> bool {
    attribute != "id"@ || (is_heading_element(element) && HEADING_ID_PREFIX@.is_prefix_of(value))
}

/// Gives the value that an attribute keeps, or `None` where the attribute
/// is to go.
pub fn filter_attribute(element: &str, attribute: &str, value: &str) -> (r: Option<String>)
    ensures
        match r {
            Some(kept) => keeps_attribute(element@, attribute@, value@) && kept@ == value@,
            None => !keeps_attribute(element@, attribute@, value@),
        },
{
    if attribute.eq("id") {
        let heading = element.eq("h1") || element.eq("h2") || element.eq("h3") || element.eq("h4")
            || element.eq("h5") || element.eq("h6");
        if heading && starts_with(value, HEADING_ID_PREFIX) {
            Some(value.to_owned())
        } else {
            None
        }
    } else {
        Some(value.to_owned())
    }
}

/// Cleans HTML with `ammonia::Builder`: `generic_attributes`,
/// `attribute_filter` with [`filter_attribute`], `link_rel`, `url_relative`,
/// then `clean`. What is left depends on the text and the settings alone.
///
/// `clean` panics where `rel` is allowed on every element while links are
/// given a relation, so `rel` is not among `generic_attributes`.
#[verifier::external_body]
fn sanitize(
    html: &str,
    generic_attributes: &Vec<String>,
    link_rel: &str,
    relative_urls: RelativeUrls,
) -> (clean: String)
    requires
        forall|i: int| 0 <= i < generic_attributes.len() ==> generic_attributes[i]@ != "rel"@,
    ensures
        clean@ == sanitized_html(html@, generic_attributes.deep_view(), link_rel@, relative_urls),
{
    ammonia::Builder::default()
        .generic_attributes(generic_attributes.iter().map(|name| name.as_str()).collect())
        .attribute_filter(|e, a, v| filter_attribute(e, a, v).map(std::borrow::Cow::Owned))
        .link_rel(Some(link_rel))
        .url_relative(match relative_urls {
            RelativeUrls::Deny => ammonia::UrlRelative::Deny,
            RelativeUrls::PassThrough => ammonia::UrlRelative::PassThrough,
        })
        .clean(html)
        .to_string()
}

/// The HTML shown for a page of source `content`: its events with links
/// decorated, written out and sanitized.
pub open spec fn rendered_html(content: Seq<char>, resolved: Option<Set<Seq<char>>>) -> Seq<char> {
    sanitized_html(
        html_of(links_decorated(parsed(content), resolved)),
        page_attributes(),
        LINK_REL@,
        RelativeUrls::PassThrough,
    )
}

/// A [`Page`] renderer.
pub struct Renderer<'a> {
    page: &'a Page,
    resolved_links: Option<SlugSet>,
}

impl<'a> Renderer<'a> {
    /// The source that is rendered.
    pub closed spec fn content(&self) -> Seq<char> {
        self.page.content@
    }

    /// The paths of the pages that are known to exist, if they were given.
    pub closed spec fn resolved(&self) -> Option<Set<Seq<char>>> {
        match self.resolved_links {
            Some(set) => Some(set@),
            None => None,
        }
    }

    /// Creates a new `Renderer`.
    pub fn new(page: &'a Page) -> (r: Renderer<'a>)
        ensures
            r.content() == page.content@,
            r.resolved() is None,
    {
        Renderer { page, resolved_links: None }
    }

    /// Tells the renderer which of the pages that the page links to exist.
    /// A link to any other page is marked as leading nowhere.
    pub fn resolve_links(self, links: Vec<Slug>) -> (r: Renderer<'a>)
        ensures
            r.content() == self.content(),
            r.resolved() == Some(paths_of(links@)),
    {
        Renderer { page: self.page, resolved_links: Some(SlugSet::from_vec(links)) }
    }

    /// Renders the page.
    pub fn render(self) -> (r: RenderedPage)
        ensures
            r.spec_rendered() == rendered_html(self.content(), self.resolved()),
    {
        let events = parse(self.page.content.as_str()).decorate_links();
        let events = match self.resolved_links {
            Some(resolved_links) => events.with_resolved_links(resolved_links),
            None => events,
        };
        let mut html_output = String::new();
        push_html(&mut html_output, events);
        assert(html_output@ =~= html_of(
            links_decorated(parsed(self.content()), self.resolved()),
        ));
        let mut generic_attributes: Vec<String> = Vec::new();
        generic_attributes.push("class".to_owned());
        generic_attributes.push("id".to_owned());
        proof {
            reveal_strlit("class");
            reveal_strlit("id");
            reveal_strlit("rel");
            assert("class"@.len() == 5 && "id"@.len() == 2 && "rel"@.len() == 3);
            assert(generic_attributes.deep_view() =~= page_attributes());
        }
        RenderedPage {
            content: sanitize(
                html_output.as_str(),
                &generic_attributes,
                LINK_REL,
                RelativeUrls::PassThrough,
            ),
        }
    }
}

/// A rendered page.
#[derive(Debug)]
pub struct RenderedPage {
    content: String,
}

impl RenderedPage {
    /// The rendered content, as a mathematical value.
    pub closed spec fn spec_rendered(&self) -> Seq<char> {
        self.content@
    }

    /// Starts the rendering of a page.
    pub fn build(page: &Page) -> (r: Renderer<'_>)
        ensures
            r.content() == page.content@,
            r.resolved() is None,
    {
        Renderer::new(page)
    }

    /// The rendered content.
    pub fn rendered(&self) -> (r: &str)
        ensures
            r@ == self.spec_rendered(),
    {
        self.content.as_str()
    }
}

/// Two renderings of one source, with the same pages known to exist, are
/// the same text.
pub proof fn lemma_rendering_repeats(
    first: RenderedPage,
    second: RenderedPage,
    content: Seq<char>,
    resolved: Option<Set<Seq<char>>>,
)
    requires
        first.spec_rendered() == rendered_html(content, resolved),
        second.spec_rendered() == rendered_html(content, resolved),
    ensures
        first.spec_rendered() == second.spec_rendered(),
{
}

/// Where a request is sent on.
#[derive(Debug)]
pub enum Redirect {
    /// For good: the path asked for has a proper form.
    Permanent(String),
    /// For now.
    To(String),
}

/// The prefix of the paths under which pages are shown.
pub const PAGE_PREFIX: &'static str = "/~/";

/// Redirects a bad slug.
#[derive(Debug)]
pub enum BadSlugRedirect<E> {
    BadSlug(String),
    Other(E),
}

impl<E> BadSlugRedirect<E> {
    /// Where a bad slug is sent: for good to the page that its text reads
    /// as once it is slugified, or else, for now, to the index. `None` for
    /// any other error.
    pub fn redirect(&self) -> (r: Option<Redirect>)
        ensures
            match *self {
                BadSlugRedirect::BadSlug(text) => match r {
                    Some(Redirect::Permanent(path)) => rejection(slugified(text@)) is None
                        && path@ == PAGE_PREFIX@ + crate::slug::trim_slashes(slugified(text@)),
                    Some(Redirect::To(path)) => rejection(slugified(text@)) is Some && path@
                        == INDEX_PATH@,
                    None => false,
                },
                BadSlugRedirect::Other(_) => r is None,
            },
    {
        match self {
            BadSlugRedirect::BadSlug(text) => {
                match Slug::slugify(text.as_str()) {
                    Ok(slug) => {
                        let mut path = PAGE_PREFIX.to_owned();
                        path.append(slug.as_str());
                        Some(Redirect::Permanent(path))
                    },
                    Err(_) => Some(Redirect::To(INDEX_PATH.to_owned())),
                }
            },
            BadSlugRedirect::Other(_) => None,
        }
    }
}

/// The title that a template shows for a page.
pub fn title(slug: &Slug) -> (r: String)
    ensures
        r@ == crate::slug::title_of(slug@),
{
    slug.title()
}

} // verus!
