//! The links of a page to other pages.

use crate::markdown::event::{MarkupEvent, MarkupEventView};
use crate::markdown::filters::EventStream;
use crate::markdown::{before_fragment, is_absolute_uri, is_uri_absolute, parse, parsed};
use crate::slug::{rejection, trim_slashes, Slug};
use crate::slug_set::SlugSet;
use crate::text::{chars_of, find_char, string_of};
use vstd::prelude::*;

verus! {

/// The text that a destination is read as a slug from: what stands before
/// its fragment, without one slash at each edge.
pub open spec fn link_target(dest: Seq<char>) -> Seq<char> {
    trim_slashes(before_fragment(dest))
}

/// The destination `dest` names the page of path `path`: it is not
/// absolute, and its target is a slug that reads as `path`.
pub open spec fn names_page(dest: Seq<char>, path: Seq<char>) -> bool {
    &&& !is_absolute_uri(dest)
    &&& rejection(link_target(dest)) is None
    &&& path == trim_slashes(link_target(dest))
}

/// The paths of the pages that the links among `events` name.
pub open spec fn linked_paths(events: Seq<MarkupEventView>) -> Set<Seq<char>> {
    Set::new(
        |path: Seq<char>|
            exists|i: int|
                0 <= i < events.len() && (#[trigger] events[i]) is LinkStart && names_page(
                    events[i]->LinkStart_0.dest_url,
                    path,
                ),
    )
}

/// The paths of the pages that a page of source `content` links to.
pub open spec fn page_links(content: Seq<char>) -> Set<Seq<char>> {
    linked_paths(parsed(content))
}

/// The page that a destination names, if it names one: an absolute
/// destination names none, and neither does one whose target is no slug.
pub fn link_of(dest: &str) -> (r: Option<Slug>)
    ensures
        match r {
            Some(slug) => names_page(dest@, slug@),
            None => forall|path: Seq<char>| !names_page(dest@, path),
        },
{
    if is_uri_absolute(dest) {
        return None;
    }
    let chars = chars_of(dest);
    let n = chars.len();
    let end = match find_char(&chars, '#') {
        Some(i) => i,
        None => n,
    };
    let from: usize = if end > 0 && chars[0] == '/' {
        1
    } else {
        0
    };
    let to: usize = if end > from && chars[end - 1] == '/' {
        end - 1
    } else {
        end
    };
    let target = string_of(&chars, from, to);
    proof {
        assert(dest@.take(n as int) == dest@);
        assert(trim_slashes(chars@.take(end as int)) =~= chars@.subrange(from as int, to as int));
    }
    match Slug::new(target.as_str()) {
        Ok(slug) => Some(slug),
        Err(_) => None,
    }
}

/// Collects the pages that the links of a stream name. A page that several
/// links name is collected once.
pub fn extract_links<S: EventStream>(events: S) -> (r: SlugSet)
    ensures
        r@ == linked_paths(events.pending()),
{
    let mut events = events;
    let ghost all = events.pending();
    let ghost mut seen: Seq<MarkupEventView> = Seq::empty();
    let mut links = SlugSet::new();
    proof {
        assert(linked_paths(seen) =~= Set::<Seq<char>>::empty());
    }
    loop
        invariant
            all == seen + events.pending(),
            links@ == linked_paths(seen),
        ensures
            all == seen,
            links@ == linked_paths(seen),
        decreases events.pending().len(),
    {
        let ghost rest = events.pending();
        match events.next() {
            Some(ev) => {
                let ghost before = seen;
                let ghost found = links@;
                proof {
                    seen = seen.push(ev@);
                    assert(before.push(rest[0]) + rest.skip(1) =~= before + rest);
                }
                match ev {
                    MarkupEvent::LinkStart(link) => {
                        match link_of(link.dest_url.as_str()) {
                            Some(slug) => {
                                let ghost path = slug@;
                                links.insert(slug);
                                proof {
                                    lemma_linked_paths_push(before, ev@);
                                    assert(linked_paths(seen) =~= found.insert(path));
                                }
                            },
                            None => {
                                proof {
                                    lemma_linked_paths_push(before, ev@);
                                    assert(linked_paths(seen) =~= found);
                                }
                            },
                        }
                    },
                    _ => {
                        proof {
                            lemma_linked_paths_push(before, ev@);
                            assert(linked_paths(seen) =~= found);
                        }
                    },
                }
            },
            None => {
                assert(seen + events.pending() =~= seen);
                break ;
            },
        }
    }
    links
}

/// One more event adds the page that it names, if it is a link that names
/// one, and nothing else.
pub proof fn lemma_linked_paths_push(events: Seq<MarkupEventView>, ev: MarkupEventView)
    ensures
        forall|path: Seq<char>|
            linked_paths(events.push(ev)).contains(path) <==> (linked_paths(events).contains(path)
                || (ev is LinkStart && names_page(ev->LinkStart_0.dest_url, path))),
{
    let more = events.push(ev);
    assert forall|path: Seq<char>|
        linked_paths(more).contains(path) <==> (linked_paths(events).contains(path) || (ev
            is LinkStart && names_page(ev->LinkStart_0.dest_url, path))) by {
        if linked_paths(more).contains(path) {
            let i = choose|i: int|
                0 <= i < more.len() && (#[trigger] more[i]) is LinkStart && names_page(
                    more[i]->LinkStart_0.dest_url,
                    path,
                );
            if i < events.len() {
                assert(events[i] == more[i]);
            }
        }
        if linked_paths(events).contains(path) {
            let i = choose|i: int|
                0 <= i < events.len() && (#[trigger] events[i]) is LinkStart && names_page(
                    events[i]->LinkStart_0.dest_url,
                    path,
                );
            assert(more[i] == events[i]);
        }
        if ev is LinkStart && names_page(ev->LinkStart_0.dest_url, path) {
            assert(more[events.len() as int] == ev);
        }
    }
}

/// The pages that a page of source `content` links to.
pub fn links_in(content: &str) -> (r: SlugSet)
    ensures
        r@ == page_links(content@),
{
    extract_links(parse(content))
}

} // verus!
