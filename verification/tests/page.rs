use diff_match_patch_rs::{Compat, DiffMatchPatch};
use inferno::routes::page::post::{
    check_edit, diff_texts, plan_edit, plan_edit_with, ChangeResult, EditError, UpdatePage, Verdict,
};
use inferno::routes::page::show::{is_read_only, MaybePage, PageAction, QueryParams};
use inferno::routes::page::{
    filter_attribute, title, BadSlugRedirect, Redirect, RenderedPage, Renderer,
};
use inferno::schema::page::{change_hash, Page};
use inferno::slug::Slug;
use inferno::slug_set::SlugSet;

fn page(content: &str, hash: &str) -> Option<Page> {
    Some(Page {
        slug: Slug::new("Index").unwrap(),
        content: content.to_owned(),
        latest_change_hash: hash.to_owned(),
    })
}

fn form(source: &str, hash: Option<&str>) -> UpdatePage {
    UpdatePage { source: source.to_owned(), latest_change_hash: hash.map(|h| h.to_owned()) }
}

fn set(paths: &[&str]) -> SlugSet {
    SlugSet::from_vec(paths.iter().map(|p| Slug::new(*p).unwrap()).collect())
}

fn texts(slugs: &Vec<Slug>) -> Vec<String> {
    slugs.iter().map(|s| s.as_str().to_owned()).collect()
}

#[test]
fn an_id_stays_on_a_heading_only() {
    assert_eq!(filter_attribute("h1", "id", "heading-a"), Some("heading-a".to_owned()));
    assert_eq!(filter_attribute("h6", "id", "heading-"), Some("heading-".to_owned()));
    assert_eq!(filter_attribute("h2", "id", "other"), None);
    assert_eq!(filter_attribute("h2", "id", "headin"), None);
    assert_eq!(filter_attribute("h7", "id", "heading-a"), None);
    assert_eq!(filter_attribute("p", "id", "heading-a"), None);
    assert_eq!(filter_attribute("p", "class", "x"), Some("x".to_owned()));
    assert_eq!(filter_attribute("a", "href", "/~/a/"), Some("/~/a/".to_owned()));
}

#[test]
fn a_page_is_rendered_to_sanitized_html() {
    let page = page("# The Heading\n\nSee [[Other Page]].\n", "h").unwrap();
    let rendered = RenderedPage::build(&page).render();
    assert_eq!(
        rendered.rendered(),
        "<h1 id=\"heading-the-heading\">The Heading</h1>\n<p>See <a href=\"/~/Other_Page/\" rel=\"noopener noreferrer\">Other Page</a>.</p>\n"
    );
}

#[test]
fn links_to_pages_that_do_not_exist_are_marked() {
    let page = page("[[A]] [[B]] [x](#Top) <https://example.org/>", "h").unwrap();
    let rendered = Renderer::new(&page).resolve_links(vec![Slug::new("A").unwrap()]).render();
    assert_eq!(
        rendered.rendered(),
        "<p><a href=\"/~/A/\" rel=\"noopener noreferrer\">A</a> <a href=\"/~/B/\" class=\"noexist\" rel=\"noopener noreferrer\">B</a> <a href=\"#heading-top\" rel=\"noopener noreferrer\">x</a> <a href=\"https://example.org/\" class=\"external-link\" rel=\"noopener noreferrer\">https://example.org/</a></p>\n"
    );
}

#[test]
fn rendering_strips_scripts_and_foreign_ids() {
    let page = page("<script>alert(1)</script>\n\n<p id=\"x\" class=\"y\" onclick=\"z()\">hi</p>\n", "h")
        .unwrap();
    let rendered = Renderer::new(&page).render();
    assert_eq!(rendered.rendered(), "\n<p class=\"y\">hi</p>\n");
}

#[test]
fn rendering_twice_gives_the_same_html() {
    let source = "# A\n\n## B `c`\n\n[[D/E F]] and [g](h \"i\") \"quoted\" -- text\n\n| a |\n|---|\n| b |\n";
    let page = page(source, "h").unwrap();
    let first = Renderer::new(&page).resolve_links(vec![Slug::new("D/E_F").unwrap()]).render();
    let second = Renderer::new(&page).resolve_links(vec![Slug::new("D/E_F").unwrap()]).render();
    assert_eq!(first.rendered(), second.rendered());
    assert!(first.rendered().contains("<h2 id=\"heading-b\">B <code>c</code></h2>"));
    assert!(first.rendered().contains("<a href=\"/~/D/E_F/\" rel=\"noopener noreferrer\">E F</a>"));
}

#[test]
fn a_bad_slug_is_sent_to_its_proper_form() {
    let bad: BadSlugRedirect<()> = BadSlugRedirect::BadSlug("Index For Winners".to_owned());
    match bad.redirect() {
        Some(Redirect::Permanent(path)) => assert_eq!(path, "/~/Index_For_Winners"),
        other => panic!("{:?}", other),
    }
    let bad: BadSlugRedirect<()> = BadSlugRedirect::BadSlug("  ".to_owned());
    match bad.redirect() {
        Some(Redirect::To(path)) => assert_eq!(path, "/~/Index"),
        other => panic!("{:?}", other),
    }
    let other: BadSlugRedirect<u8> = BadSlugRedirect::Other(3);
    assert!(other.redirect().is_none());
}

#[test]
fn the_title_filter_gives_the_title() {
    assert_eq!(title(&Slug::new("a/b_c").unwrap()), "b c");
}

#[test]
fn the_source_is_read_only_for_viewers() {
    assert_eq!(PageAction::default(), PageAction::View);
    assert_eq!(QueryParams::default().action, PageAction::View);
    assert!(is_read_only(PageAction::ViewSource, true));
    assert!(is_read_only(PageAction::Edit, false));
    assert!(!is_read_only(PageAction::Edit, true));
    assert!(!is_read_only(PageAction::View, true));
}

#[test]
fn a_page_that_is_not_stored_is_empty() {
    let shown = MaybePage::from_stored(page("text", "abc"));
    assert_eq!(shown.content, "text");
    assert_eq!(shown.latest_change_hash.as_deref(), Some("abc"));
    let shown = MaybePage::from_stored(None);
    assert_eq!(shown.content, "");
    assert_eq!(shown.latest_change_hash, None);
}

#[test]
fn an_edit_is_checked_against_the_latest_change() {
    let old = page("text", "abc");
    assert_eq!(check_edit(&old, &form("new", Some("abc"))), Verdict::Write);
    assert_eq!(check_edit(&old, &form("text", Some("abc"))), Verdict::Unchanged);
    assert_eq!(check_edit(&old, &form("new", Some("abd"))), Verdict::Stale);
    assert_eq!(check_edit(&old, &form("text", Some("abd"))), Verdict::Stale);
    assert_eq!(check_edit(&old, &form("new", None)), Verdict::Stale);
    assert_eq!(check_edit(&None, &form("new", None)), Verdict::Write);
    assert_eq!(check_edit(&None, &form("", Some("whatever"))), Verdict::Write);
}

#[test]
fn a_stale_edit_writes_nothing() {
    let old = page("[[B]] [[C]]", "abc");
    let links = set(&["B", "C"]);
    let path = Slug::new("Index").unwrap();
    let result = plan_edit(&path, &old, &links, &form("[[A]]", Some("wrong")), "frostu8", 10);
    assert!(matches!(result, Err(EditError::PageAlreadyChanged)));
    let result = plan_edit(&path, &old, &links, &form("[[A]]", None), "frostu8", 10);
    assert!(matches!(result, Err(EditError::PageAlreadyChanged)));
}

#[test]
fn an_edit_to_the_same_content_reports_no_change() {
    let old = page("[[B]] [[C]]", "abc");
    let links = set(&["B", "C"]);
    let path = Slug::new("Index").unwrap();
    let result =
        plan_edit(&path, &old, &links, &form("[[B]] [[C]]", Some("abc")), "frostu8", 10).unwrap();
    assert!(matches!(result, ChangeResult::Unchanged));
    assert_eq!(result.hash(), None);
}

#[test]
fn an_edit_brings_the_links_to_those_of_the_new_content() {
    let old = page("[[B]] [[C]]", "abc");
    let links = set(&["B", "C"]);
    let path = Slug::new("Index").unwrap();
    let result =
        plan_edit(&path, &old, &links, &form("[[A]] [[B]]", Some("abc")), "frostu8", 1700000000)
            .unwrap();
    let hash = result.hash().map(|h| h.to_owned());
    match result {
        ChangeResult::Changed(edit) => {
            assert_eq!(edit.content, "[[A]] [[B]]");
            assert_eq!(texts(&edit.establish), vec!["A"]);
            assert_eq!(texts(&edit.deregister), vec!["C"]);
            assert_eq!(edit.hash, change_hash(&path, "frostu8", 1700000000, &edit.changes));
            assert_eq!(hash, Some(edit.hash.clone()));
            assert_eq!(edit.hash.len(), 64);
            // what is stored afterwards: the old links, less those to
            // deregister, with those to establish
            let mut stored = vec!["B".to_owned(), "C".to_owned()];
            stored.retain(|l| !texts(&edit.deregister).contains(l));
            stored.extend(texts(&edit.establish));
            stored.sort();
            assert_eq!(stored, vec!["A", "B"]);
        }
        ChangeResult::Unchanged => panic!("the page changes"),
    }
}

#[test]
fn the_first_edit_of_a_page_needs_no_hash() {
    let path = Slug::new("New_Page").unwrap();
    let result =
        plan_edit(&path, &None, &SlugSet::new(), &form("hello [[Index]]", None), "a", 0).unwrap();
    match result {
        ChangeResult::Changed(edit) => {
            assert_eq!(edit.content, "hello [[Index]]");
            assert_eq!(texts(&edit.establish), vec!["Index"]);
            assert!(edit.deregister.is_empty());
            let dmp = DiffMatchPatch::new();
            let patches = dmp.patch_from_text::<Compat>(&edit.changes).unwrap();
            let (text, applied) = dmp.patch_apply(&patches, "").unwrap();
            assert_eq!(text, "hello [[Index]]");
            assert!(applied.iter().all(|ok| *ok));
        }
        ChangeResult::Unchanged => panic!("the page changes"),
    }
}

#[test]
fn the_patch_given_is_what_is_logged_and_hashed() {
    let path = Slug::new("Index").unwrap();
    let old = page("a", "abc");
    let result = plan_edit_with(
        &path,
        &old,
        &set(&[]),
        &form("b", Some("abc")),
        "frostu8",
        5,
        Ok("@@ -1 +1 @@\n-a\n+b\n".to_owned()),
    )
    .unwrap();
    match result {
        ChangeResult::Changed(edit) => {
            assert_eq!(edit.changes, "@@ -1 +1 @@\n-a\n+b\n");
            assert_eq!(edit.hash, change_hash(&path, "frostu8", 5, "@@ -1 +1 @@\n-a\n+b\n"));
            assert!(edit.establish.is_empty());
            assert!(edit.deregister.is_empty());
        }
        ChangeResult::Unchanged => panic!("the page changes"),
    }
    let failed = plan_edit_with(
        &path,
        &old,
        &set(&[]),
        &form("b", Some("abc")),
        "frostu8",
        5,
        Err(diff_match_patch_rs::Error::InvalidInput),
    );
    assert!(matches!(
        failed,
        Err(EditError::Diff(diff_match_patch_rs::Error::InvalidInput))
    ));
    let stale = plan_edit_with(
        &path,
        &old,
        &set(&[]),
        &form("b", Some("x")),
        "frostu8",
        5,
        Err(diff_match_patch_rs::Error::InvalidInput),
    );
    assert!(matches!(stale, Err(EditError::PageAlreadyChanged)));
}

#[test]
fn the_logged_patches_lead_from_nothing_to_the_content() {
    let path = Slug::new("Index").unwrap();
    let versions = [
        "# Index\n\nWelcome.\n",
        "# Index\n\nWelcome to the [[Wiki]].\n\n- one\n- two\n",
        "# Index\n\nWelcome to the [[Wiki]].\n\n- one\n- three\n\nBye \u{e9}\u{20ac}.\n",
        "",
        "short",
    ];
    let mut stored: Option<Page> = None;
    let mut links = SlugSet::new();
    let mut log: Vec<String> = Vec::new();
    for (at, version) in versions.iter().enumerate() {
        let token = stored.as_ref().map(|p| p.latest_change_hash.clone());
        let form = UpdatePage { source: (*version).to_owned(), latest_change_hash: token };
        match plan_edit(&path, &stored, &links, &form, "frostu8", at as i64).unwrap() {
            ChangeResult::Changed(edit) => {
                log.push(edit.changes.clone());
                let mut kept: Vec<Slug> = Vec::new();
                for i in 0..links.len() {
                    if !edit.deregister.iter().any(|d| d == links.get(i)) {
                        kept.push(links.get(i).clone());
                    }
                }
                kept.extend(edit.establish.iter().cloned());
                links = SlugSet::from_vec(kept);
                stored = Some(Page {
                    slug: path.clone(),
                    content: edit.content,
                    latest_change_hash: edit.hash,
                });
            }
            ChangeResult::Unchanged => panic!("each version differs from the one before"),
        }
        let dmp = DiffMatchPatch::new();
        let mut text = String::new();
        for patch in log.iter() {
            let patches = dmp.patch_from_text::<Compat>(patch).unwrap();
            let (next, applied) = dmp.patch_apply(&patches, &text).unwrap();
            assert!(applied.iter().all(|ok| *ok));
            text = next;
        }
        assert_eq!(text, stored.as_ref().unwrap().content);
        assert_eq!(text, *version);
    }
    assert_eq!(log.len(), 5);
    assert_eq!(links.len(), 0);
}

#[test]
fn the_diff_engine_is_given_the_old_content_then_the_new_source() {
    let old = page("old text", "abc");
    let edit = form("new text", Some("abc"));
    assert_eq!(diff_texts(&old, &edit), ("old text", "new text"));
    assert_eq!(diff_texts(&None, &edit), ("", "new text"));
    assert_eq!(diff_texts(&old, &form("", None)), ("old text", ""));
}

#[test]
fn the_patch_of_an_edit_leads_from_the_old_content_to_the_new() {
    let path = Slug::new("Index").unwrap();
    let old = page("alpha\nbeta\n", "abc");
    let result =
        plan_edit(&path, &old, &set(&[]), &form("alpha\ngamma\n", Some("abc")), "a", 1).unwrap();
    match result {
        ChangeResult::Changed(edit) => {
            let dmp = DiffMatchPatch::new();
            let patches = dmp.patch_from_text::<Compat>(&edit.changes).unwrap();
            let (text, applied) = dmp.patch_apply(&patches, "alpha\nbeta\n").unwrap();
            assert_eq!(text, "alpha\ngamma\n");
            assert!(applied.iter().all(|ok| *ok));
            let (back, _) = dmp.patch_apply(&patches, "alpha\ngamma\n").unwrap();
            assert_ne!(back, "alpha\nbeta\n");
        }
        ChangeResult::Unchanged => panic!("the page changes"),
    }
}
