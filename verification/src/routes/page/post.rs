//! Page edits: what a submitted edit does to a page, its log of changes and
//! its links.
//!
//! Nothing here touches the storage. The caller reads the page and its
//! links inside a transaction, asks [`plan_edit`] what to write, writes it
//! and commits.

use crate::markdown::links::{links_in, page_links};
use crate::schema::page::{change_hash, change_hash_of, Page};
use crate::slug::Slug;
use crate::slug_set::{distinct, paths_of, SlugSet};
use vstd::prelude::*;

verus! {

/// `diff_match_patch_rs::Error`, the error of the diff engine.
#[verifier::external_type_specification]
#[verifier::external_body]
pub struct ExDiffError(diff_match_patch_rs::Error);

/// A submitted edit: the new source, and the hash of the change that the
/// author saw last.
#[derive(Debug)]
pub struct UpdatePage {
    pub source: String,
    pub latest_change_hash: Option<String>,
}

/// Why an edit is not made.
#[derive(Debug)]
pub enum EditError {
    /// The page changed after the author read it: the hash given is not
    /// that of the page's latest change.
    PageAlreadyChanged,
    /// The diff engine failed, with the error that it gave.
    Diff(diff_match_patch_rs::Error),
}

/// What is written for an edit.
#[derive(Debug)]
pub struct Edit {
    /// The new content of the page.
    pub content: String,
    /// The text of the patch that leads from the old content to the new,
    /// which is appended to the log of changes.
    pub changes: String,
    /// The hash that names the change.
    pub hash: String,
    /// The links to establish: the pages that the new content links to and
    /// the old did not.
    pub establish: Vec<Slug>,
    /// The links to deregister: the pages that the old content linked to
    /// and the new does not.
    pub deregister: Vec<Slug>,
}

/// Result of an edit.
#[derive(Debug)]
pub enum ChangeResult {
    /// The new content is the old: nothing is written.
    Unchanged,
    /// The page changes.
    Changed(Edit),
}

impl ChangeResult {
    /// The hash of the change. `None` if the page did not change.
    pub fn hash(&self) -> (r: Option<&str>)
        ensures
            match *self {
                ChangeResult::Unchanged => r is None,
                ChangeResult::Changed(edit) => r is Some && r.unwrap()@ == edit.hash@,
            },
    {
        match self {
            ChangeResult::Unchanged => None,
            ChangeResult::Changed(edit) => Some(edit.hash.as_str()),
        }
    }
}

/// What is decided of an edit before anything is computed.
#[derive(Clone, Copy, Debug, PartialEq, Eq, Structural)]
pub enum Verdict {
    /// The page has a change that the author did not see.
    Stale,
    /// The new content is the old.
    Unchanged,
    /// The edit is to be written.
    Write,
}

/// The verdict on an edit. A page with a change takes an edit only with the
/// hash of its latest change; a page without one takes any. An edit that
/// leaves the content as it is changes nothing.
pub open spec fn verdict_of(
    old_page: Option<Page>,
    token: Option<Seq<char>>,
    source: Seq<char>,
) -> Verdict {
    match old_page {
        Some(page) => if token != Some(page.latest_change_hash@) {
            Verdict::Stale
        } else if page.content@ == source {
            Verdict::Unchanged
        } else {
            Verdict::Write
        },
        None => Verdict::Write,
    }
}

/// The hash that an edit names, as a mathematical value.
pub open spec fn token_of(form: UpdatePage) -> Option<Seq<char>> {
    match form.latest_change_hash {
        Some(hash) => Some(hash@),
        None => None,
    }
}

/// The content that an edit is a change of: that of the page, or nothing
/// where there is no page.
pub open spec fn old_content(old_page: Option<Page>) -> Seq<char> {
    match old_page {
        Some(page) => page.content@,
        None => Seq::empty(),
    }
}

/// Decides whether an edit is stale, changes nothing or is to be written.
pub fn check_edit(old_page: &Option<Page>, form: &UpdatePage) -> (r: Verdict)
    ensures
        r == verdict_of(*old_page, token_of(*form), form.source@),
{
    match old_page {
        Some(page) => {
            let fresh = match &form.latest_change_hash {
                Some(hash) => *hash == page.latest_change_hash,
                None => false,
            };
            if !fresh {
                Verdict::Stale
            } else if page.content == form.source {
                Verdict::Unchanged
            } else {
                Verdict::Write
            }
        },
        None => Verdict::Write,
    }
}

/// The two texts that the diff engine is given for an edit: first the
/// content that the page has, or the empty text where there is no page, then
/// the new source.
pub fn diff_texts<'a>(old_page: &'a Option<Page>, form: &'a UpdatePage) -> (r: (&'a str, &'a str))
    ensures
        r.0@ == old_content(*old_page),
        r.1@ == form.source@,
{
    let old = match old_page {
        Some(page) => page.content.as_str(),
        None => "",
    };
    proof {
        reveal_strlit("");
        assert(""@ =~= Seq::<char>::empty());
    }
    (old, form.source.as_str())
}

/// Computes the patch that leads from `old` to `new` with
/// `diff_match_patch_rs`: `diff_main`, `patch_make` on the diffs, then
/// `patch_to_text`. The diff engine works against a deadline, so nothing is
/// said of the text.
#[verifier::external_body]
fn patch_text(old: &str, new: &str) -> Result<String, diff_match_patch_rs::Error> {
    let dmp = diff_match_patch_rs::DiffMatchPatch::new();
    let diffs = dmp.diff_main::<diff_match_patch_rs::Compat>(old, new)?;
    let patches = dmp.patch_make(diff_match_patch_rs::PatchInput::new_diffs(&diffs))?;
    Ok(dmp.patch_to_text(&patches))
}

/// `result` is what an edit comes to, given the patch that the diff engine
/// made of it.
pub open spec fn edit_result(
    path: Slug,
    old_page: Option<Page>,
    old_links: SlugSet,
    form: UpdatePage,
    author: Seq<char>,
    inserted_at: i64,
    patch: Result<Seq<char>, diff_match_patch_rs::Error>,
    result: Result<ChangeResult, EditError>,
) -> bool {
    match verdict_of(old_page, token_of(form), form.source@) {
        Verdict::Stale => result matches Err(EditError::PageAlreadyChanged),
        Verdict::Unchanged => result matches Ok(ChangeResult::Unchanged),
        Verdict::Write => match patch {
            Ok(changes) => {
                &&& result matches Ok(ChangeResult::Changed(edit))
                &&& edit.content@ == form.source@
                &&& edit.changes@ == changes
                &&& edit.hash@ == change_hash_of(path@, author, inserted_at, changes)
                &&& paths_of(edit.establish@) == page_links(form.source@).difference(old_links@)
                &&& paths_of(edit.deregister@) == old_links@.difference(page_links(form.source@))
                &&& distinct(edit.establish@)
                &&& distinct(edit.deregister@)
            },
            Err(error) => result matches Err(EditError::Diff(given)) && given == error,
        },
    }
}

/// What the diff engine gave: the text of a patch, or its error.
pub open spec fn patch_view(patch: Result<String, diff_match_patch_rs::Error>) -> Result<
    Seq<char>,
    diff_match_patch_rs::Error,
> {
    match patch {
        Ok(changes) => Ok(changes@),
        Err(error) => Err(error),
    }
}

/// Says what an edit comes to, given what the diff engine made of the old
/// and the new content.
pub fn plan_edit_with(
    path: &Slug,
    old_page: &Option<Page>,
    old_links: &SlugSet,
    form: &UpdatePage,
    author: &str,
    inserted_at: i64,
    patch: Result<String, diff_match_patch_rs::Error>,
) -> (r: Result<ChangeResult, EditError>)
    ensures
        edit_result(
            *path,
            *old_page,
            *old_links,
            *form,
            author@,
            inserted_at,
            patch_view(patch),
            r,
        ),
{
    match check_edit(old_page, form) {
        Verdict::Stale => Err(EditError::PageAlreadyChanged),
        Verdict::Unchanged => Ok(ChangeResult::Unchanged),
        Verdict::Write => {
            match patch {
                Ok(changes) => {
                    let links = links_in(form.source.as_str());
                    let establish = links.difference(old_links);
                    let deregister = old_links.difference(&links);
                    let hash = change_hash(path, author, inserted_at, changes.as_str());
                    Ok(
                        ChangeResult::Changed(
                            Edit {
                                content: form.source.clone(),
                                changes,
                                hash,
                                establish,
                                deregister,
                            },
                        ),
                    )
                },
                Err(error) => Err(EditError::Diff(error)),
            }
        },
    }
}

/// Says what an edit comes to.
///
/// `old_page` is the page as it is stored, `None` where it has no change
/// yet. `old_links` are the links that are stored for it. `inserted_at` is
/// the time of the change, in seconds of Unix time.
///
/// A stale edit is refused and an edit that changes nothing writes nothing,
/// without the diff engine being asked. For any other edit the engine is
/// given the texts of [`diff_texts`], and the result is that of
/// [`plan_edit_with`] for what the engine gave.
pub fn plan_edit(
    path: &Slug,
    old_page: &Option<Page>,
    old_links: &SlugSet,
    form: &UpdatePage,
    author: &str,
    inserted_at: i64,
) -> (r: Result<ChangeResult, EditError>)
    ensures
        exists|patch: Result<Seq<char>, diff_match_patch_rs::Error>|
            edit_result(*path, *old_page, *old_links, *form, author@, inserted_at, patch, r),
{
    match check_edit(old_page, form) {
        Verdict::Stale => {
            let r = Err(EditError::PageAlreadyChanged);
            assert(edit_result(
                *path,
                *old_page,
                *old_links,
                *form,
                author@,
                inserted_at,
                Ok(Seq::empty()),
                r,
            ));
            r
        },
        Verdict::Unchanged => {
            let r = Ok(ChangeResult::Unchanged);
            assert(edit_result(
                *path,
                *old_page,
                *old_links,
                *form,
                author@,
                inserted_at,
                Ok(Seq::empty()),
                r,
            ));
            r
        },
        Verdict::Write => {
            let (old, new) = diff_texts(old_page, form);
            let patch = patch_text(old, new);
            let ghost given = patch_view(patch);
            let r = plan_edit_with(path, old_page, old_links, form, author, inserted_at, patch);
            assert(edit_result(
                *path,
                *old_page,
                *old_links,
                *form,
                author@,
                inserted_at,
                given,
                r,
            ));
            r
        },
    }
}

/// One entry of a page's log of changes.
pub struct ChangeView {
    pub author: Seq<char>,
    pub hash: Seq<char>,
    pub changes: Seq<char>,
    pub inserted_at: i64,
}

/// What the storage holds of one page: its content, if it has any, its log
/// of changes, oldest first, and the pages that it links to.
pub struct PageState {
    pub content: Option<Seq<char>>,
    pub log: Seq<ChangeView>,
    pub links: Set<Seq<char>>,
}

/// `old_page` and `old_links` are what is read of a page in `state`: a
/// page is read where there is a change, with the stored content and the
/// hash of the latest change, and the links are those stored.
pub open spec fn reads(state: PageState, old_page: Option<Page>, old_links: SlugSet) -> bool {
    &&& old_links@ == state.links
    &&& match old_page {
        Some(page) => state.log.len() > 0 && state.content == Some(page.content@)
            && page.latest_change_hash@ == state.log.last().hash,
        None => state.log.len() == 0,
    }
}

/// What the storage holds of a page once the result of an edit is carried
/// out. An edit that is refused, fails or changes nothing leaves everything
/// as it is. Any other replaces the content, appends one change to the log,
/// takes the links to deregister out and puts the links to establish in.
pub open spec fn carried_out(
    state: PageState,
    author: Seq<char>,
    inserted_at: i64,
    result: Result<ChangeResult, EditError>,
) -> PageState {
    match result {
        Ok(ChangeResult::Changed(edit)) => PageState {
            content: Some(edit.content@),
            log: state.log.push(
                ChangeView { author, hash: edit.hash@, changes: edit.changes@, inserted_at },
            ),
            links: state.links.difference(paths_of(edit.deregister@)).union(
                paths_of(edit.establish@),
            ),
        },
        _ => state,
    }
}

/// An edit with a hash that is not that of the page's latest change is
/// refused, and leaves the content, the log of changes and the links as they
/// are.
pub proof fn lemma_stale_edit_changes_nothing(
    state: PageState,
    path: Slug,
    old_page: Option<Page>,
    old_links: SlugSet,
    form: UpdatePage,
    author: Seq<char>,
    inserted_at: i64,
    patch: Result<Seq<char>, diff_match_patch_rs::Error>,
    result: Result<ChangeResult, EditError>,
)
    requires
        reads(state, old_page, old_links),
        state.log.len() > 0,
        token_of(form) != Some(state.log.last().hash),
        edit_result(path, old_page, old_links, form, author, inserted_at, patch, result),
    ensures
        result matches Err(EditError::PageAlreadyChanged),
        carried_out(state, author, inserted_at, result) == state,
{
}

/// An edit whose content is the page's content, made with the hash of the
/// page's latest change, reports no change and leaves the content, the log
/// of changes and the links as they are.
pub proof fn lemma_same_content_changes_nothing(
    state: PageState,
    path: Slug,
    old_page: Option<Page>,
    old_links: SlugSet,
    form: UpdatePage,
    author: Seq<char>,
    inserted_at: i64,
    patch: Result<Seq<char>, diff_match_patch_rs::Error>,
    result: Result<ChangeResult, EditError>,
)
    requires
        reads(state, old_page, old_links),
        state.log.len() > 0,
        token_of(form) == Some(state.log.last().hash),
        state.content == Some(form.source@),
        edit_result(path, old_page, old_links, form, author, inserted_at, patch, result),
    ensures
        result matches Ok(ChangeResult::Unchanged),
        carried_out(state, author, inserted_at, result) == state,
{
}

/// After an edit that changes the page, the content is the new source, the
/// log has one more change, named by the hash that the result gives, and the
/// links are the pages that the new source links to.
pub proof fn lemma_edit_converges(
    state: PageState,
    path: Slug,
    old_page: Option<Page>,
    old_links: SlugSet,
    form: UpdatePage,
    author: Seq<char>,
    inserted_at: i64,
    patch: Result<Seq<char>, diff_match_patch_rs::Error>,
    result: Result<ChangeResult, EditError>,
)
    requires
        reads(state, old_page, old_links),
        edit_result(path, old_page, old_links, form, author, inserted_at, patch, result),
        result matches Ok(ChangeResult::Changed(_)),
    ensures
        ({
            let after = carried_out(state, author, inserted_at, result);
            &&& after.content == Some(form.source@)
            &&& after.links == page_links(form.source@)
            &&& after.log.len() == state.log.len() + 1
            &&& after.log.drop_last() == state.log
            &&& result matches Ok(ChangeResult::Changed(edit)) && after.log.last().hash == edit.hash@
        }),
{
    let after = carried_out(state, author, inserted_at, result);
    assert(after.links =~= page_links(form.source@));
    assert(after.log.drop_last() =~= state.log);
}

} // verus!
