//! Page show routes.

use crate::schema::page::Page;
use vstd::prelude::*;

verus! {

/// A page action. One of `edit` or `view`.
#[derive(Clone, Copy, Debug, PartialEq, Eq, Structural)]
pub enum PageAction {
    View,
    ViewSource,
    Edit,
}

impl Default for PageAction {
    fn default() -> (r: PageAction)
        ensures
            r == PageAction::View,
    {
        PageAction::View
    }
}

/// Query parameters for the page show routes.
#[derive(Debug)]
pub struct QueryParams {
    pub action: PageAction,
}

impl Default for QueryParams {
    fn default() -> (r: QueryParams)
        ensures
            r.action == PageAction::View,
    {
        QueryParams { action: PageAction::View }
    }
}

/// Whether the source of a page is shown without the means to change it:
/// where the source was asked for to be viewed, and to whoever is not signed
/// in.
pub fn is_read_only(action: PageAction, signed_in: bool) -> (r: bool)
    ensures
        r == (action == PageAction::ViewSource || !signed_in),
{
    match action {
        PageAction::ViewSource => true,
        _ => !signed_in,
    }
}

/// A page that may not exist yet: its source, and the hash of its latest
/// change if it has one.
#[derive(Debug)]
pub struct MaybePage {
    pub content: String,
    pub latest_change_hash: Option<String>,
}

impl MaybePage {
    /// The page that is shown for editing: the stored page, or an empty one
    /// without a change where none is stored.
    pub fn from_stored(page: Option<Page>) -> (r: MaybePage)
        ensures
            match page {
                Some(page) => r.content == page.content && r.latest_change_hash == Some(
                    page.latest_change_hash,
                ),
                None => r.content@.len() == 0 && r.latest_change_hash is None,
            },
    {
        match page {
            Some(page) => MaybePage {
                content: page.content,
                latest_change_hash: Some(page.latest_change_hash),
            },
            None => MaybePage { content: String::new(), latest_change_hash: None },
        }
    }
}

} // verus!
