use deepwell::error::Error;
use deepwell::hash::sha512_hash;
use deepwell::job::{JobAction, SchedulerConfig};
use deepwell::link::{Backlink, ConnectionType};
use deepwell::models::{ChangeSet, PageRevisionModel, PageRevisionType};
use deepwell::provided::ProvidedValue;
use deepwell::revision::log::{RevisionDirection, RevisionLog};
use deepwell::revision::service::{RevisionService, ServiceContext};
use deepwell::revision::structs::{
    CreateFirstRevision, CreateRevision, CreateRevisionBody, ParseWarning, RenderOutput,
    UpdateRevision,
};

const SITE: i64 = 1;

fn context(capacity: usize) -> ServiceContext {
    ServiceContext::new(SchedulerConfig {
        queue_capacity: capacity,
        poll_delay: 250,
        max_processing_time: 30_000,
    })
}

fn link(slug: &str) -> Backlink {
    Backlink { slug: slug.to_string(), connection_type: ConnectionType::Link }
}

fn embed(slug: &str) -> Backlink {
    Backlink { slug: slug.to_string(), connection_type: ConnectionType::Include }
}

fn template(slug: &str) -> Backlink {
    Backlink { slug: slug.to_string(), connection_type: ConnectionType::Template }
}

fn rendering(html: &str, backlinks: Vec<Backlink>) -> RenderOutput {
    RenderOutput {
        html_output: html.to_string(),
        warnings: Vec::new(),
        compiled_generator: "ftml 1.0".to_string(),
        compiled_at: 1_000,
        backlinks,
    }
}

fn first(slug: &str, wikitext: &str) -> CreateFirstRevision {
    CreateFirstRevision {
        user_id: 7,
        comments: "start".to_string(),
        wikitext: wikitext.to_string(),
        title: slug.to_uppercase(),
        alt_title: None,
        slug: slug.to_string(),
    }
}

fn start_page(ctx: &mut ServiceContext, page_id: i64, slug: &str, backlinks: Vec<Backlink>) {
    let output = RevisionService::create_first(
        ctx,
        SITE,
        page_id,
        first(slug, &format!("text of {slug}")),
        rendering(&format!("<p>{slug}</p>"), backlinks),
    );
    assert!(output.is_ok());
}

fn nothing() -> CreateRevisionBody {
    CreateRevisionBody::default()
}

fn edit(body: CreateRevisionBody) -> CreateRevision {
    CreateRevision { user_id: 8, comments: "edit".to_string(), body }
}

fn latest(ctx: &ServiceContext, page_id: i64) -> PageRevisionModel {
    RevisionService::get_latest(ctx, SITE, page_id).unwrap()
}

fn queued_pages(ctx: &ServiceContext) -> Vec<i64> {
    let mut pages = Vec::new();
    let mut index = 0;
    while let Some((action, _)) = ctx.jobs.peek(index) {
        let JobAction::RerenderPage { site_id, page_id } = action;
        assert_eq!(site_id, SITE);
        pages.push(page_id);
        index += 1;
    }
    pages
}

fn drain(ctx: &mut ServiceContext) {
    while ctx.jobs.dequeue().is_some() {}
}

#[test]
fn first_revision_has_number_zero_and_all_changes() {
    let mut ctx = context(8);
    let output = RevisionService::create_first(
        &mut ctx,
        SITE,
        10,
        first("apple", "An apple."),
        RenderOutput {
            html_output: "<p>An apple.</p>".to_string(),
            warnings: vec![ParseWarning {
                token: "text".to_string(),
                rule: "fallback".to_string(),
                span_start: 0,
                span_end: 2,
                kind: "no-rules-match".to_string(),
            }],
            compiled_generator: "ftml 1.0".to_string(),
            compiled_at: 55,
            backlinks: vec![link("pear")],
        },
    )
    .unwrap();
    assert_eq!(output.revision_id, 0);
    assert_eq!(output.parser_warnings.len(), 1);
    assert_eq!(output.parser_warnings[0].rule, "fallback");
    assert!(output.outdate.queued.is_empty());
    assert!(output.outdate.rejected.is_empty());

    let revision = latest(&ctx, 10);
    assert_eq!(revision.revision_id, 0);
    assert_eq!(revision.revision_number, 0);
    assert_eq!(revision.revision_type, PageRevisionType::Create);
    assert_eq!(revision.site_id, SITE);
    assert_eq!(revision.page_id, 10);
    assert_eq!(revision.user_id, 7);
    assert_eq!(
        revision.changes.names(),
        vec!["wikitext", "title", "alt_title", "slug", "tags", "metadata"]
    );
    assert_eq!(revision.wikitext_hash, sha512_hash(&"An apple.".to_string()));
    assert_eq!(revision.compiled_hash, sha512_hash(&"<p>An apple.</p>".to_string()));
    assert_eq!(revision.compiled_at, 55);
    assert_eq!(revision.compiled_generator, "ftml 1.0");
    assert_eq!(revision.comments, "start");
    assert!(revision.hidden.is_empty());
    assert_eq!(revision.title, "APPLE");
    assert_eq!(revision.alt_title, None);
    assert_eq!(revision.slug, "apple");
    assert!(revision.tags.is_empty());
    assert_eq!(revision.metadata, "{}");
    assert_eq!(ctx.texts.get(&revision.wikitext_hash), Ok("An apple.".to_string()));
    assert_eq!(ctx.texts.get(&revision.compiled_hash), Ok("<p>An apple.</p>".to_string()));
    assert_eq!(RevisionService::count(&ctx, SITE, 10), Ok(1));

    let edges = ctx.links.outgoing(SITE, 10);
    assert_eq!(edges.len(), 1);
    assert_eq!(edges[0].to_page_id, None);
    assert_eq!(edges[0].to_slug, "pear");
}

#[test]
fn first_revision_of_an_existing_page_is_a_conflict() {
    let mut ctx = context(8);
    start_page(&mut ctx, 10, "apple", vec![]);
    let again = RevisionService::create_first(
        &mut ctx,
        SITE,
        10,
        first("other", "text"),
        rendering("<p></p>", vec![]),
    );
    assert_eq!(again.err(), Some(Error::Conflict));
    assert_eq!(RevisionService::count(&ctx, SITE, 10), Ok(1));
    assert_eq!(ctx.texts.len(), 2);
}

#[test]
fn first_revision_at_an_occupied_slug_is_a_conflict() {
    let mut ctx = context(8);
    start_page(&mut ctx, 10, "apple", vec![]);
    let other = RevisionService::create_first(
        &mut ctx,
        SITE,
        11,
        first("apple", "text"),
        rendering("<p></p>", vec![]),
    );
    assert_eq!(other.err(), Some(Error::Conflict));
    assert_eq!(RevisionService::count(&ctx, SITE, 11), Err(Error::NotFound));
    // The same slug on another site is free.
    let elsewhere = RevisionService::create_first(
        &mut ctx,
        2,
        11,
        first("apple", "text"),
        rendering("<p></p>", vec![]),
    );
    assert!(elsewhere.is_ok());
}

#[test]
fn identifiers_that_ran_out_are_a_storage_error() {
    let mut ctx = context(8);
    ctx.revisions = RevisionLog::starting_at(i64::MAX);
    let output = RevisionService::create_first(
        &mut ctx,
        SITE,
        10,
        first("apple", "text"),
        rendering("<p></p>", vec![]),
    );
    assert_eq!(output.err(), Some(Error::Storage));
    assert_eq!(ctx.texts.len(), 0);

    let mut ctx = context(8);
    ctx.revisions = RevisionLog::starting_at(i64::MAX - 1);
    start_page(&mut ctx, 10, "apple", vec![]);
    assert_eq!(latest(&ctx, 10).revision_id, i64::MAX - 1);
    let previous = latest(&ctx, 10);
    let mut body = nothing();
    body.metadata = ProvidedValue::SetTo("{\"a\":1}".to_string());
    let output = RevisionService::create(&mut ctx, SITE, 10, edit(body), previous, None);
    assert_eq!(output.err(), Some(Error::Storage));
    assert_eq!(RevisionService::count(&ctx, SITE, 10), Ok(1));
}

#[test]
fn unchanged_tags_and_new_title_make_one_revision() {
    let mut ctx = context(8);
    start_page(&mut ctx, 10, "p", vec![]);
    // A page that links to P, one that includes it, and one unrelated.
    start_page(&mut ctx, 11, "linker", vec![link("p")]);
    start_page(&mut ctx, 12, "includer", vec![embed("p")]);
    start_page(&mut ctx, 13, "stranger", vec![]);

    // Give P the tags a and b.
    let mut body = nothing();
    body.tags = ProvidedValue::SetTo(vec!["a".to_string(), "b".to_string()]);
    let previous = latest(&ctx, 10);
    let tagged = RevisionService::create(
        &mut ctx,
        SITE,
        10,
        edit(body),
        previous,
        Some(rendering("<p>p</p>", vec![])),
    )
    .unwrap()
    .unwrap();
    assert_eq!(tagged.revision_number, 1);
    drain(&mut ctx);

    // Now the scenario: the same tags again, and a new title.
    let mut body = nothing();
    body.tags = ProvidedValue::SetTo(vec!["a".to_string(), "b".to_string()]);
    body.title = ProvidedValue::SetTo("A new title".to_string());
    let previous = latest(&ctx, 10);
    let output = RevisionService::create(
        &mut ctx,
        SITE,
        10,
        edit(body),
        previous,
        Some(rendering("<h1>A new title</h1>", vec![])),
    )
    .unwrap()
    .unwrap();
    assert_eq!(output.revision_number, 2);
    assert_eq!(output.parser_warnings, Some(vec![]));
    assert_eq!(RevisionService::count(&ctx, SITE, 10), Ok(3));

    let revision = latest(&ctx, 10);
    assert_eq!(revision.changes.names(), vec!["title"]);
    assert_eq!(revision.revision_type, PageRevisionType::Regular);
    assert_eq!(revision.title, "A new title");
    assert_eq!(revision.tags, vec!["a", "b"]);
    assert_eq!(revision.compiled_hash, sha512_hash(&"<h1>A new title</h1>".to_string()));
    // Only the page that links to P follows a change of title.
    assert_eq!(output.outdate.queued, vec![11]);
    assert!(output.outdate.rejected.is_empty());
    assert_eq!(queued_pages(&ctx), vec![11]);
}

#[test]
fn identical_edit_creates_no_revision() {
    let mut ctx = context(8);
    start_page(&mut ctx, 10, "apple", vec![]);
    start_page(&mut ctx, 11, "linker", vec![link("apple")]);
    let previous = latest(&ctx, 10);
    let body = CreateRevisionBody {
        wikitext: ProvidedValue::SetTo("text of apple".to_string()),
        title: ProvidedValue::SetTo("APPLE".to_string()),
        alt_title: ProvidedValue::SetTo(None),
        slug: ProvidedValue::SetTo("apple".to_string()),
        tags: ProvidedValue::SetTo(vec![]),
        metadata: ProvidedValue::SetTo("{}".to_string()),
    };
    let texts = ctx.texts.len();
    let output = RevisionService::create(&mut ctx, SITE, 10, edit(body), previous, None);
    assert_eq!(output, Ok(None));
    assert_eq!(RevisionService::count(&ctx, SITE, 10), Ok(1));
    assert_eq!(ctx.texts.len(), texts);
    assert_eq!(ctx.jobs.len(), 0);

    let previous = latest(&ctx, 10);
    let output = RevisionService::create(&mut ctx, SITE, 10, edit(nothing()), previous, None);
    assert_eq!(output, Ok(None));
    assert_eq!(RevisionService::count(&ctx, SITE, 10), Ok(1));
}

#[test]
fn setting_a_field_to_empty_is_a_change() {
    let mut ctx = context(8);
    let mut input = first("apple", "text");
    input.alt_title = Some("Malus".to_string());
    RevisionService::create_first(&mut ctx, SITE, 10, input, rendering("<p></p>", vec![]))
        .unwrap();
    let mut body = nothing();
    body.alt_title = ProvidedValue::SetTo(None);
    let previous = latest(&ctx, 10);
    let output = RevisionService::create(
        &mut ctx,
        SITE,
        10,
        edit(body),
        previous,
        Some(rendering("<p></p>", vec![])),
    )
    .unwrap()
    .unwrap();
    assert_eq!(output.revision_number, 1);
    let revision = latest(&ctx, 10);
    assert_eq!(revision.alt_title, None);
    assert_eq!(revision.changes.names(), vec!["alt_title"]);
}

#[test]
fn metadata_alone_makes_a_revision_without_rendering() {
    let mut ctx = context(8);
    start_page(&mut ctx, 10, "apple", vec![]);
    start_page(&mut ctx, 11, "linker", vec![link("apple"), embed("apple"), template("apple")]);
    drain(&mut ctx);
    let mut body = nothing();
    body.metadata = ProvidedValue::SetTo("{\"rating\":5}".to_string());
    let previous = latest(&ctx, 10);
    let before = latest(&ctx, 10);
    let output =
        RevisionService::create(&mut ctx, SITE, 10, edit(body), previous, None).unwrap().unwrap();
    assert_eq!(output.revision_number, 1);
    assert_eq!(output.parser_warnings, None);
    assert!(output.outdate.queued.is_empty());
    let revision = latest(&ctx, 10);
    assert_eq!(revision.metadata, "{\"rating\":5}");
    assert_eq!(revision.changes.names(), vec!["metadata"]);
    assert_eq!(revision.compiled_hash, before.compiled_hash);
    assert_eq!(revision.compiled_at, before.compiled_at);
    assert_eq!(revision.wikitext_hash, before.wikitext_hash);
    assert_eq!(revision.comments, "edit");
    assert_eq!(revision.user_id, 8);
    assert_eq!(ctx.jobs.len(), 0);
}

#[test]
fn edit_that_needs_a_rendering_without_one_is_a_bad_request() {
    let mut ctx = context(8);
    start_page(&mut ctx, 10, "apple", vec![]);
    let mut body = nothing();
    body.wikitext = ProvidedValue::SetTo("other text".to_string());
    let previous = latest(&ctx, 10);
    let texts = ctx.texts.len();
    let output = RevisionService::create(&mut ctx, SITE, 10, edit(body), previous, None);
    assert_eq!(output.err(), Some(Error::BadRequest));
    assert_eq!(RevisionService::count(&ctx, SITE, 10), Ok(1));
    assert_eq!(ctx.texts.len(), texts);
}

#[test]
fn edit_from_a_stale_revision_is_a_conflict() {
    let mut ctx = context(8);
    start_page(&mut ctx, 10, "apple", vec![]);
    let stale = latest(&ctx, 10);
    let mut body = nothing();
    body.title = ProvidedValue::SetTo("One".to_string());
    let previous = latest(&ctx, 10);
    RevisionService::create(
        &mut ctx,
        SITE,
        10,
        edit(body),
        previous,
        Some(rendering("<p>1</p>", vec![])),
    )
    .unwrap();
    let mut body = nothing();
    body.title = ProvidedValue::SetTo("Two".to_string());
    let output = RevisionService::create(
        &mut ctx,
        SITE,
        10,
        edit(body),
        stale,
        Some(rendering("<p>2</p>", vec![])),
    );
    assert_eq!(output.err(), Some(Error::Conflict));
    assert_eq!(RevisionService::count(&ctx, SITE, 10), Ok(2));
    assert_eq!(latest(&ctx, 10).title, "One");
}

#[test]
fn edit_of_a_page_that_does_not_exist_is_not_found() {
    let mut ctx = context(8);
    start_page(&mut ctx, 10, "apple", vec![]);
    let mut previous = latest(&ctx, 10);
    previous.page_id = 99;
    let mut body = nothing();
    body.title = ProvidedValue::SetTo("One".to_string());
    let output = RevisionService::create(
        &mut ctx,
        SITE,
        99,
        edit(body),
        previous,
        Some(rendering("<p>1</p>", vec![])),
    );
    assert_eq!(output.err(), Some(Error::NotFound));
}

#[test]
fn previous_revision_of_another_page_is_refused() {
    let mut ctx = context(8);
    start_page(&mut ctx, 10, "apple", vec![]);
    start_page(&mut ctx, 11, "pear", vec![]);
    let mut body = nothing();
    body.title = ProvidedValue::SetTo("One".to_string());
    let previous = latest(&ctx, 11);
    let output = RevisionService::create(
        &mut ctx,
        SITE,
        10,
        edit(body),
        previous,
        Some(rendering("<p>1</p>", vec![])),
    );
    assert_eq!(output.err(), Some(Error::InvariantViolation));
    // Even an edit that changes nothing is refused.
    let previous = latest(&ctx, 10);
    let output = RevisionService::create(&mut ctx, 2, 10, edit(nothing()), previous, None);
    assert_eq!(output.err(), Some(Error::InvariantViolation));
    assert_eq!(RevisionService::count(&ctx, SITE, 10), Ok(1));
    assert_eq!(RevisionService::count(&ctx, SITE, 11), Ok(1));
    assert_eq!(latest(&ctx, 10).title, "APPLE");
}

#[test]
fn revision_numbers_are_contiguous_after_many_operations() {
    let mut ctx = context(64);
    start_page(&mut ctx, 10, "apple", vec![]);
    start_page(&mut ctx, 11, "pear", vec![link("apple")]);
    for round in 0..5 {
        for page_id in [10, 11] {
            let mut body = nothing();
            body.title = ProvidedValue::SetTo(format!("Title {round}"));
            let previous = latest(&ctx, page_id);
            RevisionService::create(
                &mut ctx,
                SITE,
                page_id,
                edit(body),
                previous,
                Some(rendering("<p></p>", vec![])),
            )
            .unwrap();
        }
        RevisionService::rerender(&mut ctx, SITE, 10, rendering("<p>again</p>", vec![])).unwrap();
        let id = latest(&ctx, 11).revision_id;
        RevisionService::update(
            &mut ctx,
            id,
            UpdateRevision { user_id: 1, hidden: vec!["title".to_string()] },
        )
        .unwrap();
    }
    for page_id in [10, 11] {
        let count = RevisionService::count(&ctx, SITE, page_id).unwrap();
        assert_eq!(count, 6);
        for number in 0..count {
            let revision = RevisionService::get(&ctx, SITE, page_id, number).unwrap();
            assert_eq!(revision.revision_number, number);
            assert_eq!(revision.page_id, page_id);
            assert_eq!(revision.site_id, SITE);
        }
        assert_eq!(RevisionService::revision_exists(&ctx, SITE, page_id, count), Ok(false));
        assert_eq!(RevisionService::revision_exists(&ctx, SITE, page_id, count - 1), Ok(true));
        assert_eq!(RevisionService::revision_exists(&ctx, SITE, page_id, -1), Ok(false));
        assert_eq!(RevisionService::get(&ctx, SITE, page_id, count).err(), Some(Error::NotFound));
        assert_eq!(latest(&ctx, page_id).revision_number, count - 1);
    }
}

#[test]
fn editing_an_included_page_queues_its_includer_once() {
    let mut ctx = context(8);
    start_page(&mut ctx, 1, "p", vec![]);
    // Q includes P, twice over and with a link besides.
    start_page(&mut ctx, 2, "q", vec![embed("p"), embed("p"), link("p"), template("p")]);
    start_page(&mut ctx, 3, "r", vec![]);
    drain(&mut ctx);

    // An unrelated page is edited in the same batch.
    let mut body = nothing();
    body.wikitext = ProvidedValue::SetTo("r, edited".to_string());
    let previous = latest(&ctx, 3);
    let unrelated = RevisionService::create(
        &mut ctx,
        SITE,
        3,
        edit(body),
        previous,
        Some(rendering("<p>r</p>", vec![])),
    )
    .unwrap()
    .unwrap();
    assert!(unrelated.outdate.queued.is_empty());

    let mut body = nothing();
    body.wikitext = ProvidedValue::SetTo("p, edited".to_string());
    let previous = latest(&ctx, 1);
    let output = RevisionService::create(
        &mut ctx,
        SITE,
        1,
        edit(body),
        previous,
        Some(rendering("<p>p</p>", vec![])),
    )
    .unwrap()
    .unwrap();
    assert_eq!(output.outdate.queued, vec![2]);
    assert_eq!(queued_pages(&ctx), vec![2]);
    assert_eq!(latest(&ctx, 1).changes.names(), vec!["wikitext"]);
    assert_eq!(latest(&ctx, 1).wikitext_hash, sha512_hash(&"p, edited".to_string()));
}

#[test]
fn full_queue_does_not_fail_the_edit() {
    let mut ctx = context(1);
    start_page(&mut ctx, 1, "p", vec![]);
    start_page(&mut ctx, 2, "q", vec![embed("p")]);
    start_page(&mut ctx, 3, "r", vec![embed("p")]);
    assert_eq!(ctx.jobs.len(), 0);
    let mut body = nothing();
    body.wikitext = ProvidedValue::SetTo("p, edited".to_string());
    let previous = latest(&ctx, 1);
    let output = RevisionService::create(
        &mut ctx,
        SITE,
        1,
        edit(body),
        previous,
        Some(rendering("<p>p</p>", vec![])),
    )
    .unwrap()
    .unwrap();
    // The edit is committed.
    assert_eq!(output.revision_number, 1);
    assert_eq!(RevisionService::count(&ctx, SITE, 1), Ok(2));
    // One dependent found room, the other is reported.
    assert_eq!(output.outdate.queued, vec![2]);
    assert_eq!(output.outdate.rejected, vec![3]);
    assert_eq!(queued_pages(&ctx), vec![2]);

    // With the queue still full, the next edit goes through as well.
    let mut body = nothing();
    body.wikitext = ProvidedValue::SetTo("p, edited again".to_string());
    let previous = latest(&ctx, 1);
    let output = RevisionService::create(
        &mut ctx,
        SITE,
        1,
        edit(body),
        previous,
        Some(rendering("<p>p</p>", vec![])),
    )
    .unwrap()
    .unwrap();
    assert_eq!(output.revision_number, 2);
    assert!(output.outdate.queued.is_empty());
    assert_eq!(output.outdate.rejected, vec![2, 3]);
    assert_eq!(ctx.jobs.len(), 1);
}

#[test]
fn move_is_one_pass_over_both_slugs() {
    let mut ctx = context(8);
    start_page(&mut ctx, 1, "old-home", vec![]);
    // 2 links to the old slug, 3 waits for the new one, 4 does both.
    start_page(&mut ctx, 2, "b", vec![link("old-home")]);
    start_page(&mut ctx, 3, "c", vec![link("new-home")]);
    start_page(&mut ctx, 4, "d", vec![embed("old-home"), link("new-home")]);
    start_page(&mut ctx, 5, "e", vec![link("elsewhere")]);
    drain(&mut ctx);

    let mut body = nothing();
    body.slug = ProvidedValue::SetTo("new-home".to_string());
    let previous = latest(&ctx, 1);
    let output = RevisionService::create(
        &mut ctx,
        SITE,
        1,
        edit(body),
        previous,
        Some(rendering("<p>home</p>", vec![])),
    )
    .unwrap()
    .unwrap();
    assert_eq!(output.outdate.queued, vec![2, 3, 4]);
    assert_eq!(queued_pages(&ctx), vec![2, 3, 4]);
    let revision = latest(&ctx, 1);
    assert_eq!(revision.revision_type, PageRevisionType::Move);
    assert_eq!(revision.slug, "new-home");
    assert_eq!(revision.changes.names(), vec!["slug"]);
    assert_eq!(ctx.revisions.page_at_slug(SITE, &"new-home".to_string()), Some(1));
    assert_eq!(ctx.revisions.page_at_slug(SITE, &"old-home".to_string()), None);
}

#[test]
fn move_to_an_occupied_slug_is_a_conflict() {
    let mut ctx = context(8);
    start_page(&mut ctx, 1, "apple", vec![]);
    start_page(&mut ctx, 2, "pear", vec![]);
    let mut body = nothing();
    body.slug = ProvidedValue::SetTo("pear".to_string());
    let previous = latest(&ctx, 1);
    let output = RevisionService::create(
        &mut ctx,
        SITE,
        1,
        edit(body),
        previous,
        Some(rendering("<p></p>", vec![])),
    );
    assert_eq!(output.err(), Some(Error::Conflict));
    assert_eq!(latest(&ctx, 1).slug, "apple");
}

#[test]
fn delete_and_restore_queue_the_same_dependents() {
    let mut ctx = context(16);
    start_page(&mut ctx, 1, "p", vec![link("q")]);
    start_page(&mut ctx, 2, "q", vec![link("p")]);
    start_page(&mut ctx, 3, "r", vec![embed("p"), template("p")]);
    start_page(&mut ctx, 4, "s", vec![]);
    drain(&mut ctx);

    let deleted =
        RevisionService::create_tombstone(&mut ctx, SITE, 1, 9, "gone".to_string()).unwrap();
    assert_eq!(deleted.revision_number, 1);
    assert_eq!(deleted.parser_warnings, None);
    assert_eq!(deleted.outdate.queued, vec![2, 3]);
    let tombstone = latest(&ctx, 1);
    assert_eq!(tombstone.revision_type, PageRevisionType::Delete);
    assert_eq!(tombstone.changes, ChangeSet::empty());
    assert_eq!(tombstone.comments, "gone");
    assert_eq!(tombstone.user_id, 9);
    assert_eq!(tombstone.slug, "p");
    assert!(ctx.links.outgoing(SITE, 1).is_empty());
    assert_eq!(ctx.revisions.page_at_slug(SITE, &"p".to_string()), None);

    // A deleted page cannot be edited or deleted again.
    let again = RevisionService::create_tombstone(&mut ctx, SITE, 1, 9, "gone".to_string());
    assert_eq!(again.err(), Some(Error::NotFound));
    let mut body = nothing();
    body.title = ProvidedValue::SetTo("Back?".to_string());
    let previous = latest(&ctx, 1);
    let edited = RevisionService::create(
        &mut ctx,
        SITE,
        1,
        edit(body),
        previous,
        Some(rendering("<p></p>", vec![])),
    );
    assert_eq!(edited.err(), Some(Error::NotFound));

    // The worker re-renders one dependent: its link now finds no page.
    drain(&mut ctx);
    RevisionService::rerender(&mut ctx, SITE, 2, rendering("<p>q</p>", vec![link("p")])).unwrap();
    assert_eq!(ctx.links.outgoing(SITE, 2)[0].to_page_id, None);
    drain(&mut ctx);

    let restored = RevisionService::create_resurrection(
        &mut ctx,
        SITE,
        1,
        9,
        "p".to_string(),
        "back".to_string(),
        rendering("<p>p</p>", vec![link("q")]),
    )
    .unwrap();
    assert_eq!(restored.revision_number, 2);
    // The same dependents, each once; the re-rendered one now comes last.
    assert_eq!(restored.outdate.queued, vec![3, 2]);
    let revision = latest(&ctx, 1);
    assert_eq!(revision.revision_type, PageRevisionType::Undelete);
    assert_eq!(revision.changes, ChangeSet::empty());
    assert_eq!(ctx.revisions.page_at_slug(SITE, &"p".to_string()), Some(1));
    assert_eq!(ctx.links.outgoing(SITE, 1)[0].to_page_id, Some(2));
}

#[test]
fn restoring_a_live_or_unknown_page_fails() {
    let mut ctx = context(8);
    start_page(&mut ctx, 1, "p", vec![]);
    let live = RevisionService::create_resurrection(
        &mut ctx,
        SITE,
        1,
        9,
        "p".to_string(),
        "back".to_string(),
        rendering("<p></p>", vec![]),
    );
    assert_eq!(live.err(), Some(Error::Conflict));
    let unknown = RevisionService::create_resurrection(
        &mut ctx,
        SITE,
        5,
        9,
        "p".to_string(),
        "back".to_string(),
        rendering("<p></p>", vec![]),
    );
    assert_eq!(unknown.err(), Some(Error::NotFound));

    // Restoring at a slug that another page took in the meantime.
    RevisionService::create_tombstone(&mut ctx, SITE, 1, 9, "gone".to_string()).unwrap();
    start_page(&mut ctx, 2, "p", vec![]);
    let taken = RevisionService::create_resurrection(
        &mut ctx,
        SITE,
        1,
        9,
        "p".to_string(),
        "back".to_string(),
        rendering("<p></p>", vec![]),
    );
    assert_eq!(taken.err(), Some(Error::Conflict));
    let moved = RevisionService::create_resurrection(
        &mut ctx,
        SITE,
        1,
        9,
        "p-2".to_string(),
        "back".to_string(),
        rendering("<p></p>", vec![]),
    )
    .unwrap();
    assert_eq!(moved.revision_number, 2);
    assert_eq!(latest(&ctx, 1).changes.names(), vec!["slug"]);
}

#[test]
fn new_page_queues_the_pages_that_waited_for_its_slug() {
    let mut ctx = context(8);
    start_page(&mut ctx, 1, "a", vec![link("wanted"), embed("wanted")]);
    start_page(&mut ctx, 2, "b", vec![link("other")]);
    drain(&mut ctx);
    let output = RevisionService::create_first(
        &mut ctx,
        SITE,
        3,
        first("wanted", "here"),
        rendering("<p>here</p>", vec![]),
    )
    .unwrap();
    assert_eq!(output.outdate.queued, vec![1]);
    assert_eq!(queued_pages(&ctx), vec![1]);
}

#[test]
fn rerender_touches_only_the_compiled_fields() {
    let mut ctx = context(8);
    start_page(&mut ctx, 1, "p", vec![]);
    start_page(&mut ctx, 2, "q", vec![link("p")]);
    drain(&mut ctx);
    let before = latest(&ctx, 1);
    let report = RevisionService::rerender(
        &mut ctx,
        SITE,
        1,
        RenderOutput {
            html_output: "<p>fresh</p>".to_string(),
            warnings: vec![],
            compiled_generator: "ftml 2.0".to_string(),
            compiled_at: 2_000,
            backlinks: vec![link("q")],
        },
    )
    .unwrap();
    assert_eq!(report.queued, vec![2]);
    assert_eq!(RevisionService::count(&ctx, SITE, 1), Ok(1));
    let after = latest(&ctx, 1);
    assert_eq!(after.compiled_hash, sha512_hash(&"<p>fresh</p>".to_string()));
    assert_eq!(after.compiled_generator, "ftml 2.0");
    // The time of compilation stays as the revision has it.
    assert_eq!(after.compiled_at, 1_000);
    let mut expected = before;
    expected.compiled_hash = after.compiled_hash.clone();
    expected.compiled_generator = "ftml 2.0".to_string();
    assert_eq!(after, expected);
    assert_eq!(ctx.links.outgoing(SITE, 1)[0].to_page_id, Some(2));

    let missing = RevisionService::rerender(&mut ctx, SITE, 9, rendering("<p></p>", vec![]));
    assert_eq!(missing.err(), Some(Error::NotFound));
}

#[test]
fn redaction_changes_only_the_hidden_fields() {
    let mut ctx = context(8);
    start_page(&mut ctx, 1, "p", vec![]);
    start_page(&mut ctx, 2, "q", vec![link("p")]);
    drain(&mut ctx);
    let before = latest(&ctx, 1);
    let other = latest(&ctx, 2);
    let output = RevisionService::update(
        &mut ctx,
        before.revision_id,
        UpdateRevision { user_id: 3, hidden: vec!["title".to_string(), "wikitext".to_string()] },
    );
    assert_eq!(output, Ok(()));
    let after = latest(&ctx, 1);
    assert_eq!(after.hidden, vec!["title", "wikitext"]);
    let mut expected = before;
    expected.hidden = vec!["title".to_string(), "wikitext".to_string()];
    assert_eq!(after, expected);
    assert_eq!(latest(&ctx, 2), other);
    assert_eq!(ctx.jobs.len(), 0);
    assert_eq!(RevisionService::count(&ctx, SITE, 1), Ok(1));

    let unknown = RevisionService::update(
        &mut ctx,
        777,
        UpdateRevision { user_id: 3, hidden: vec![] },
    );
    assert_eq!(unknown, Err(Error::NotFound));
}

#[test]
fn reads_of_a_page_that_does_not_exist() {
    let ctx = context(8);
    assert_eq!(RevisionService::get_latest(&ctx, SITE, 1).err(), Some(Error::NotFound));
    assert_eq!(RevisionService::get_optional(&ctx, SITE, 1, 0), Ok(None));
    assert_eq!(RevisionService::revision_exists(&ctx, SITE, 1, 0), Ok(false));
    assert_eq!(RevisionService::get(&ctx, SITE, 1, 0).err(), Some(Error::NotFound));
    assert_eq!(RevisionService::count(&ctx, SITE, 1), Err(Error::NotFound));
    assert_eq!(
        RevisionService::get_range(&ctx, SITE, 1, -1, RevisionDirection::Before, 10),
        Ok(vec![])
    );
}

fn numbers(revisions: Vec<PageRevisionModel>) -> Vec<i32> {
    revisions.iter().map(|revision| revision.revision_number).collect()
}

#[test]
fn ranges_of_revisions() {
    let mut ctx = context(64);
    start_page(&mut ctx, 1, "p", vec![]);
    for round in 0..5 {
        let mut body = nothing();
        body.metadata = ProvidedValue::SetTo(format!("{{\"round\":{round}}}"));
        let previous = latest(&ctx, 1);
        RevisionService::create(&mut ctx, SITE, 1, edit(body), previous, None).unwrap();
    }
    // Revisions 0 to 5 exist.
    let range = |number: i32, direction: RevisionDirection, limit: u64| {
        numbers(RevisionService::get_range(&ctx, SITE, 1, number, direction, limit).unwrap())
    };
    assert_eq!(range(3, RevisionDirection::Before, 10), vec![0, 1, 2, 3]);
    assert_eq!(range(3, RevisionDirection::Before, 4), vec![0, 1, 2, 3]);
    assert_eq!(range(3, RevisionDirection::Before, 2), vec![2, 3]);
    assert_eq!(range(3, RevisionDirection::Before, 1), vec![3]);
    assert_eq!(range(3, RevisionDirection::Before, 0), Vec::<i32>::new());
    assert_eq!(range(3, RevisionDirection::After, 10), vec![3, 4, 5]);
    assert_eq!(range(3, RevisionDirection::After, 2), vec![3, 4]);
    assert_eq!(range(3, RevisionDirection::After, 1), vec![3]);
    // A negative number stands for the most recent revision.
    assert_eq!(range(-1, RevisionDirection::Before, 10), vec![0, 1, 2, 3, 4, 5]);
    assert_eq!(range(-7, RevisionDirection::Before, 3), vec![3, 4, 5]);
    assert_eq!(range(-1, RevisionDirection::Before, 1), vec![5]);
    assert_eq!(range(-1, RevisionDirection::After, 10), vec![5]);
    assert_eq!(range(i32::MIN, RevisionDirection::After, 1), vec![5]);
    assert_eq!(range(-1, RevisionDirection::After, 0), Vec::<i32>::new());
    // A start beyond the latest revision.
    assert_eq!(range(9, RevisionDirection::Before, 10), vec![0, 1, 2, 3, 4, 5]);
    assert_eq!(range(9, RevisionDirection::Before, 2), vec![4, 5]);
    assert_eq!(range(9, RevisionDirection::After, 10), Vec::<i32>::new());
    assert_eq!(range(0, RevisionDirection::Before, 10), vec![0]);
    assert_eq!(range(0, RevisionDirection::After, 0), Vec::<i32>::new());
    assert_eq!(range(0, RevisionDirection::After, 3), vec![0, 1, 2]);
    assert_eq!(range(5, RevisionDirection::After, u64::MAX), vec![5]);
}

#[test]
fn wikitext_to_render_comes_from_the_edit_or_the_store() {
    let mut ctx = context(8);
    start_page(&mut ctx, 1, "p", vec![]);
    let previous = latest(&ctx, 1);

    let mut body = nothing();
    body.metadata = ProvidedValue::SetTo("{\"a\":1}".to_string());
    assert_eq!(RevisionService::wikitext_to_render(&ctx, &previous, &body), Ok(None));

    let mut body = nothing();
    body.title = ProvidedValue::SetTo("New".to_string());
    assert_eq!(
        RevisionService::wikitext_to_render(&ctx, &previous, &body),
        Ok(Some("text of p".to_string()))
    );

    let mut body = nothing();
    body.wikitext = ProvidedValue::SetTo("new text".to_string());
    assert_eq!(
        RevisionService::wikitext_to_render(&ctx, &previous, &body),
        Ok(Some("new text".to_string()))
    );

    let mut lost = latest(&ctx, 1);
    lost.wikitext_hash = vec![0; 64];
    let mut body = nothing();
    body.title = ProvidedValue::SetTo("New".to_string());
    assert_eq!(
        RevisionService::wikitext_to_render(&ctx, &lost, &body),
        Err(Error::NotFound)
    );
}
