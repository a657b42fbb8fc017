use deepwell::hash::sha512_hash;
use deepwell::link::Selection;
use deepwell::models::{ChangeSet, PageRevisionModel, PageRevisionType, UserType};
use deepwell::provided::ProvidedValue;
use deepwell::revision::structs::CreateRevisionBody;
use deepwell::revision::tasks::{classify, RevisionTasks};

fn previous() -> PageRevisionModel {
    PageRevisionModel {
        revision_id: 40,
        revision_type: PageRevisionType::Regular,
        revision_number: 3,
        page_id: 2,
        site_id: 1,
        user_id: 5,
        changes: ChangeSet::empty(),
        wikitext_hash: sha512_hash(&"Some text.".to_string()),
        compiled_hash: sha512_hash(&"<p>Some text.</p>".to_string()),
        compiled_at: 10,
        compiled_generator: "ftml".to_string(),
        comments: String::new(),
        hidden: vec![],
        title: "Title".to_string(),
        alt_title: Some("Alt".to_string()),
        slug: "page".to_string(),
        tags: vec!["a".to_string(), "b".to_string()],
        metadata: "{}".to_string(),
    }
}

fn tasks(render: bool, links: bool, includes: bool, templates: bool) -> RevisionTasks {
    RevisionTasks {
        render_and_update_links: render,
        rerender_incoming_links: links,
        rerender_outgoing_includes: includes,
        rerender_templates: templates,
    }
}

#[test]
fn nothing_set_changes_nothing() {
    let body = CreateRevisionBody::default();
    assert_eq!(classify(&previous(), &body), ChangeSet::empty());
    let determined = RevisionTasks::determine(&previous(), &body);
    assert_eq!(determined, tasks(false, false, false, false));
    assert!(determined.is_empty());
}

#[test]
fn same_values_change_nothing() {
    let body = CreateRevisionBody {
        wikitext: ProvidedValue::SetTo("Some text.".to_string()),
        title: ProvidedValue::SetTo("Title".to_string()),
        alt_title: ProvidedValue::SetTo(Some("Alt".to_string())),
        slug: ProvidedValue::SetTo("page".to_string()),
        tags: ProvidedValue::SetTo(vec!["a".to_string(), "b".to_string()]),
        metadata: ProvidedValue::SetTo("{}".to_string()),
    };
    assert!(classify(&previous(), &body).is_empty());
    assert!(RevisionTasks::determine(&previous(), &body).is_empty());
}

#[test]
fn each_field_is_compared_on_its_own() {
    let mut body = CreateRevisionBody::default();
    body.wikitext = ProvidedValue::SetTo("Some text!".to_string());
    let changes = classify(&previous(), &body);
    assert_eq!(changes.names(), vec!["wikitext"]);
    assert_eq!(RevisionTasks::determine(&previous(), &body), tasks(true, false, true, true));

    let mut body = CreateRevisionBody::default();
    body.title = ProvidedValue::SetTo("title".to_string());
    assert_eq!(classify(&previous(), &body).names(), vec!["title"]);
    assert_eq!(RevisionTasks::determine(&previous(), &body), tasks(true, true, false, false));

    let mut body = CreateRevisionBody::default();
    body.alt_title = ProvidedValue::SetTo(None);
    assert_eq!(classify(&previous(), &body).names(), vec!["alt_title"]);
    assert_eq!(RevisionTasks::determine(&previous(), &body), tasks(true, true, false, false));

    let mut body = CreateRevisionBody::default();
    body.slug = ProvidedValue::SetTo("page-2".to_string());
    assert_eq!(classify(&previous(), &body).names(), vec!["slug"]);
    assert_eq!(RevisionTasks::determine(&previous(), &body), tasks(true, true, true, true));

    let mut body = CreateRevisionBody::default();
    body.tags = ProvidedValue::SetTo(vec!["b".to_string(), "a".to_string()]);
    assert_eq!(classify(&previous(), &body).names(), vec!["tags"]);
    assert_eq!(RevisionTasks::determine(&previous(), &body), tasks(true, false, true, true));

    let mut body = CreateRevisionBody::default();
    body.metadata = ProvidedValue::SetTo("{ }".to_string());
    assert_eq!(classify(&previous(), &body).names(), vec!["metadata"]);
    let determined = RevisionTasks::determine(&previous(), &body);
    assert!(determined.is_empty());
    assert_eq!(determined.to_selection(), Selection::none());
}

#[test]
fn several_changes_add_up() {
    let mut body = CreateRevisionBody::default();
    body.title = ProvidedValue::SetTo("New".to_string());
    body.tags = ProvidedValue::SetTo(vec![]);
    body.metadata = ProvidedValue::SetTo("{\"x\":1}".to_string());
    let changes = classify(&previous(), &body);
    assert_eq!(changes.names(), vec!["title", "tags", "metadata"]);
    assert_eq!(changes.len(), 3);
    assert!(!changes.is_empty());
    let determined = RevisionTasks::from_changes(changes);
    assert_eq!(determined, tasks(true, true, true, true));
    assert_eq!(determined.to_selection(), Selection::all());
}

#[test]
fn change_sets_list_their_names_in_order() {
    assert_eq!(ChangeSet::empty().names(), Vec::<String>::new());
    assert_eq!(ChangeSet::empty().len(), 0);
    assert!(ChangeSet::empty().is_empty());
    assert_eq!(
        ChangeSet::everything().names(),
        vec!["wikitext", "title", "alt_title", "slug", "tags", "metadata"]
    );
    assert_eq!(ChangeSet::everything().len(), 6);
    assert!(!ChangeSet::everything().is_empty());
}

#[test]
fn provided_values() {
    let set = ProvidedValue::SetTo(3);
    let unset: ProvidedValue<i32> = ProvidedValue::default();
    assert!(set.is_set());
    assert!(!unset.is_set());
    assert_eq!(set.to_option(), Some(3));
    assert_eq!(unset.to_option(), None);
    assert_eq!(unset, ProvidedValue::Unset);
}

#[test]
fn users_are_regular_by_default() {
    assert_eq!(UserType::default(), UserType::Regular);
}
