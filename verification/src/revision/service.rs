//! The revision service: it writes the history of pages and sets off what a
//! change entails. Each call is one transaction: it either goes through, or
//! fails and leaves everything as it was.

use crate::category::{category_of, page_of, split_category, PageInfo, PageInfoView};
use crate::content::{stored_opt, ContentStore};
use crate::error::Error;
use crate::hash::text_digest;
use crate::job::{JobService, SchedulerConfig};
use crate::link::{dependents, replaced, Backlink, BacklinkView, LinkService};
use crate::models::{ChangeSet, PageRevisionModel, PageRevisionType, RevisionView};
use crate::outdate::{
    cascaded, stale_after_delete, stale_after_displace, stale_after_edit, stale_after_move,
    stale_after_restore, OutdateReport, OutdateService,
};
use crate::provided::ProvidedValue;
use crate::revision::log::{range_of, RevisionDirection, RevisionLog};
use crate::revision::structs::{
    BodyView, CreateFirstRevision, CreateFirstRevisionOutput, CreateRevision, CreateRevisionBody,
    CreateRevisionOutput, ParseWarning, RenderOutput, RenderView, UpdateRevision,
};
use crate::revision::tasks::{changes_of, classify, tasks_of, RevisionTasks};
use vstd::prelude::*;

verus! {

/// Everything that the services work on: the stored texts, the revision
/// log, the dependency graph and the job queue.
pub struct ServiceContext {
    pub texts: ContentStore,
    pub revisions: RevisionLog,
    pub links: LinkService,
    pub jobs: JobService,
}

impl ServiceContext {
    /// The invariants of the text store, of the revision log and of the
    /// dependency graph.
    pub open spec fn wf(self) -> bool {
        self.texts.wf() && self.revisions.wf() && self.links.wf()
    }

    /// A context in which nothing is stored, written or queued.
    pub fn new(config: SchedulerConfig) -> (ctx: ServiceContext)
        ensures
            ctx.wf(),
            ctx.texts@ == Map::<Seq<u8>, Seq<char>>::empty(),
            forall|site_id: i64, page_id: i64| #[trigger]
                ctx.revisions.history(site_id, page_id) == Seq::<RevisionView>::empty(),
            ctx.revisions.next_id() == 0,
            ctx.links@.len() == 0,
            ctx.jobs@.len() == 0,
            ctx.jobs.limits() == config,
    {
        ServiceContext {
            texts: ContentStore::new(),
            revisions: RevisionLog::new(),
            links: LinkService::new(),
            jobs: JobService::new(config),
        }
    }
}

/// The revision that an edit of `previous` makes. Each field is what the
/// edit sets, or what the previous revision holds where the edit leaves it
/// out; the compiled fields come from the rendering where the edit calls
/// for one. The number is one more than the previous one.
pub open spec fn next_revision(
    previous: RevisionView,
    user_id: i64,
    comments: Seq<char>,
    body: BodyView,
    render: Option<RenderView>,
    revision_id: i64,
) -> RevisionView {
    let changes = changes_of(previous, body);
    let rendered = tasks_of(changes).render_and_update_links && render is Some;
    RevisionView {
        revision_id,
        revision_type: if changes.slug {
            PageRevisionType::Move
        } else {
            PageRevisionType::Regular
        },
        revision_number: (previous.revision_number + 1) as i32,
        page_id: previous.page_id,
        site_id: previous.site_id,
        user_id,
        changes,
        wikitext_hash: match body.wikitext {
            Some(text) => text_digest(text),
            None => previous.wikitext_hash,
        },
        compiled_hash: if rendered {
            text_digest(render->0.html_output)
        } else {
            previous.compiled_hash
        },
        compiled_at: if rendered {
            render->0.compiled_at
        } else {
            previous.compiled_at
        },
        compiled_generator: if rendered {
            render->0.compiled_generator
        } else {
            previous.compiled_generator
        },
        comments,
        hidden: previous.hidden,
        title: match body.title {
            Some(title) => title,
            None => previous.title,
        },
        alt_title: match body.alt_title {
            Some(alt_title) => alt_title,
            None => previous.alt_title,
        },
        slug: match body.slug {
            Some(slug) => slug,
            None => previous.slug,
        },
        tags: match body.tags {
            Some(tags) => tags,
            None => previous.tags,
        },
        metadata: match body.metadata {
            Some(metadata) => metadata,
            None => previous.metadata,
        },
    }
}

/// What the renderer is told of a page of a site that holds a revision:
/// category and page name from the slug; title, alternative title and
/// tags as the revision has them; slug and language of the site.
pub open spec fn page_info_of(
    site_slug: Seq<char>,
    site_language: Seq<char>,
    revision: RevisionView,
) -> PageInfoView {
    PageInfoView {
        page: page_of(revision.slug),
        category: category_of(revision.slug),
        site: site_slug,
        title: revision.title,
        alt_title: revision.alt_title,
        tags: revision.tags,
        language: site_language,
    }
}

/// What the renderer is told of a page as an edit leaves it.
pub open spec fn page_info_after_edit(
    site_slug: Seq<char>,
    site_language: Seq<char>,
    previous: RevisionView,
    body: BodyView,
) -> PageInfoView {
    let slug = match body.slug {
        Some(slug) => slug,
        None => previous.slug,
    };
    PageInfoView {
        page: page_of(slug),
        category: category_of(slug),
        site: site_slug,
        title: match body.title {
            Some(title) => title,
            None => previous.title,
        },
        alt_title: match body.alt_title {
            Some(alt_title) => alt_title,
            None => previous.alt_title,
        },
        tags: match body.tags {
            Some(tags) => tags,
            None => previous.tags,
        },
        language: site_language,
    }
}

/// The rendering that was handed in, if one was, as mathematical values.
pub open spec fn rendering_of(render: Option<RenderOutput>) -> Option<RenderView> {
    match render {
        Some(output) => Some(output@),
        None => None,
    }
}

/// Whether another live page of the site sits at `slug`.
pub open spec fn slug_occupied(
    log: RevisionLog,
    site_id: i64,
    page_id: i64,
    slug: Seq<char>,
) -> bool {
    exists|other: i64| other != page_id && log.sits_at(site_id, other, slug)
}

/// Why an edit is refused, if it is. In this order: `previous` belongs to
/// another page or site than the one named; then, for an edit that changes
/// something: the page does not exist or is deleted; `previous` is not the
/// page's latest revision by its number; the numbers or identifiers have
/// run out (the count of a page's revisions has to fit the type of the
/// number); another page sits at the slug that the page would have; the
/// edit calls for a rendering and none was handed in. An edit that changes
/// nothing is refused for the first reason only.
pub open spec fn create_failure(
    log: RevisionLog,
    site_id: i64,
    page_id: i64,
    previous: RevisionView,
    body: BodyView,
    rendered: bool,
) -> Option<Error> {
    let changes = changes_of(previous, body);
    let slug = match body.slug {
        Some(slug) => slug,
        None => previous.slug,
    };
    if previous.site_id != site_id || previous.page_id != page_id {
        Some(Error::InvariantViolation)
    } else if changes == ChangeSet::none() {
        None
    } else if !log.is_live(site_id, page_id) {
        Some(Error::NotFound)
    } else if previous.revision_number + 1 != log.history(site_id, page_id).len() {
        Some(Error::Conflict)
    } else if previous.revision_number >= i32::MAX - 1 || log.next_id() == i64::MAX {
        Some(Error::Storage)
    } else if slug_occupied(log, site_id, page_id, slug) {
        Some(Error::Conflict)
    } else if tasks_of(changes).render_and_update_links && !rendered {
        Some(Error::BadRequest)
    } else {
        None
    }
}

/// How a context stands after a revision was written: the texts hold the
/// wikitext and the compiled page that came with it, the page's history is
/// one revision longer and every other history is as it was, and the
/// page's outgoing edges are those of the references handed in, resolved
/// against the new log.
pub open spec fn committed(
    before: ServiceContext,
    after: ServiceContext,
    revision: RevisionView,
    wikitext: Option<Seq<char>>,
    html: Option<Seq<char>>,
    backlinks: Option<Seq<BacklinkView>>,
) -> bool {
    let site_id = revision.site_id;
    let page_id = revision.page_id;
    &&& after.wf()
    &&& after.texts@ == stored_opt(stored_opt(before.texts@, wikitext), html)
    &&& after.revisions.next_id() == before.revisions.next_id() + 1
    &&& after.revisions.history(site_id, page_id) == before.revisions.history(
        site_id,
        page_id,
    ).push(revision)
    &&& forall|s: i64, p: i64|
        !(s == site_id && p == page_id) ==> #[trigger] after.revisions.history(s, p)
            == before.revisions.history(s, p)
    &&& after.links@ == match backlinks {
        Some(found) => replaced(before.links@, after.revisions, site_id, page_id, found),
        None => before.links@,
    }
}

/// The operations on the history of pages.
#[derive(Debug)]
pub struct RevisionService;

impl RevisionService {
    /// Appends a revision and, where references are handed in, replaces the
    /// page's outgoing edges by theirs.
    fn commit(
        ctx: &mut ServiceContext,
        revision: PageRevisionModel,
        backlinks: Option<&Vec<Backlink>>,
    )
        requires
            old(ctx).wf(),
            old(ctx).revisions.admits(revision@),
        ensures
            committed(
                *old(ctx),
                *final(ctx),
                revision@,
                None,
                None,
                match backlinks {
                    Some(found) => Some(found@.map_values(|b: Backlink| b@)),
                    None => None,
                },
            ),
            final(ctx).jobs == old(ctx).jobs,
    {
        let site_id = revision.site_id;
        let page_id = revision.page_id;
        ctx.revisions.append(revision);
        match backlinks {
            Some(found) => {
                ctx.links.update(&ctx.revisions, site_id, page_id, found);
            },
            None => {},
        }
    }

    /// Whether another live page of the site sits at `slug`.
    fn occupied(log: &RevisionLog, site_id: i64, page_id: i64, slug: &String) -> (r: bool)
        requires
            log.wf(),
        ensures
            r == slug_occupied(*log, site_id, page_id, slug@),
            !r ==> forall|q: i64| q != page_id ==> !log.sits_at(site_id, q, slug@),
    {
        match log.page_at_slug(site_id, slug) {
            Some(owner) => {
                proof {
                    if owner == page_id {
                        if slug_occupied(*log, site_id, page_id, slug@) {
                            let other = choose|other: i64|
                                other != page_id && log.sits_at(site_id, other, slug@);
                            crate::revision::log::lemma_slug_owner_unique(
                                *log,
                                site_id,
                                owner,
                                other,
                                slug@,
                            );
                        }
                    }
                }
                owner != page_id
            },
            None => false,
        }
    }

    /// Creates a new revision.
    ///
    /// For the given page, look at the changes to make. If there are none,
    /// or they are all equivalent to the previous revision's, then no
    /// revision is committed and `Ok(None)` is returned.
    ///
    /// If there are changes, then the new revision is created and all the
    /// appropriate updating is done: the new wikitext is stored, the page's
    /// outgoing edges are replaced, and the pages that depend on it are
    /// queued for re-rendering. Where the edit calls for a rendering
    /// (`RevisionTasks::determine` says so), the caller hands it in as
    /// `render`.
    ///
    /// The revision number is one greater than the previous revision's: no
    /// holes are permitted in the revision count. This is enforced by
    /// requiring the previous revision be passed in during creation.
    ///
    /// A previous revision of another page or site is a mistake of the
    /// caller, and refused as such. A full job queue does not make the edit
    /// fail: the dependents that it refused are reported in the output.
    pub fn create(
        ctx: &mut ServiceContext,
        site_id: i64,
        page_id: i64,
        input: CreateRevision,
        previous: PageRevisionModel,
        render: Option<RenderOutput>,
    ) -> (r: Result<Option<CreateRevisionOutput>, Error>)
        requires
            old(ctx).wf(),
        ensures
            final(ctx).wf(),
            match create_failure(
                old(ctx).revisions,
                site_id,
                page_id,
                previous@,
                input.body@,
                render is Some,
            ) {
                Some(error) => r == Err::<Option<CreateRevisionOutput>, Error>(error) && *final(ctx)
                    == *old(ctx),
                None => if changes_of(previous@, input.body@) == ChangeSet::none() {
                    r == Ok::<Option<CreateRevisionOutput>, Error>(None) && *final(ctx) == *old(ctx)
                } else {
                    r is Ok && r->Ok_0 is Some && create_done(
                        *old(ctx),
                        *final(ctx),
                        previous@,
                        input,
                        render,
                        r->Ok_0->0,
                    )
                },
            },
    {
        // Check for basic consistency
        if previous.site_id != site_id || previous.page_id != page_id {
            return Err(Error::InvariantViolation);
        }
        let CreateRevision { user_id, comments, body } = input;
        let ghost body_view = body@;
        let ghost render_view = rendering_of(render);
        // Check to see if any fields have changed
        let changes = classify(&previous, &body);
        if changes.is_empty() {
            return Ok(None);
        }
        let tasks = RevisionTasks::from_changes(changes);
        if !ctx.revisions.page_is_live(site_id, page_id) {
            return Err(Error::NotFound);
        }
        let count = ctx.revisions.count(site_id, page_id);
        proof {
            crate::revision::log::lemma_numbers_contiguous(ctx.revisions, site_id, page_id, 0);
        }
        if previous.revision_number < 0 || previous.revision_number as usize != count - 1 {
            return Err(Error::Conflict);
        }
        let revision_id = ctx.revisions.next_revision_id();
        if previous.revision_number >= i32::MAX - 1 || revision_id == i64::MAX {
            return Err(Error::Storage);
        }
        let taken = match &body.slug {
            ProvidedValue::SetTo(slug) => Self::occupied(&ctx.revisions, site_id, page_id, slug),
            ProvidedValue::Unset => Self::occupied(
                &ctx.revisions,
                site_id,
                page_id,
                &previous.slug,
            ),
        };
        if taken {
            return Err(Error::Conflict);
        }
        if tasks.render_and_update_links && render.is_none() {
            return Err(Error::BadRequest);
        }
        let PageRevisionModel {
            revision_id: _,
            revision_type: _,
            revision_number,
            page_id: _,
            site_id: _,
            user_id: _,
            changes: _,
            wikitext_hash,
            compiled_hash,
            compiled_at,
            compiled_generator,
            comments: _,
            hidden,
            title,
            alt_title,
            slug,
            tags,
            metadata,
        } = previous;
        let CreateRevisionBody {
            wikitext: new_wikitext,
            title: new_title,
            alt_title: new_alt_title,
            slug: new_slug,
            tags: new_tags,
            metadata: new_metadata,
        } = body;
        let wikitext_hash = match new_wikitext {
            ProvidedValue::SetTo(text) => ctx.texts.put(text),
            ProvidedValue::Unset => wikitext_hash,
        };
        let title = match new_title {
            ProvidedValue::SetTo(title) => title,
            ProvidedValue::Unset => title,
        };
        let alt_title = match new_alt_title {
            ProvidedValue::SetTo(alt_title) => alt_title,
            ProvidedValue::Unset => alt_title,
        };
        let slug = match new_slug {
            ProvidedValue::SetTo(slug) => slug,
            ProvidedValue::Unset => slug,
        };
        let tags = match new_tags {
            ProvidedValue::SetTo(tags) => tags,
            ProvidedValue::Unset => tags,
        };
        let metadata = match new_metadata {
            ProvidedValue::SetTo(metadata) => metadata,
            ProvidedValue::Unset => metadata,
        };
        let moved_to = if changes.slug {
            Some(slug.clone())
        } else {
            None
        };
        let mut compiled_hash = compiled_hash;
        let mut compiled_at = compiled_at;
        let mut compiled_generator = compiled_generator;
        let mut parser_warnings: Option<Vec<ParseWarning>> = None;
        let mut found: Option<Vec<Backlink>> = None;
        if tasks.render_and_update_links {
            let RenderOutput {
                html_output,
                warnings,
                compiled_generator: generator,
                compiled_at: at,
                backlinks,
            } = render.unwrap();
            compiled_hash = ctx.texts.put(html_output);
            compiled_at = at;
            compiled_generator = generator;
            parser_warnings = Some(warnings);
            found = Some(backlinks);
        }
        let revision = PageRevisionModel {
            revision_id,
            revision_type: if changes.slug {
                PageRevisionType::Move
            } else {
                PageRevisionType::Regular
            },
            revision_number: revision_number + 1,
            page_id,
            site_id,
            user_id,
            changes,
            wikitext_hash,
            compiled_hash,
            compiled_at,
            compiled_generator,
            comments,
            hidden,
            title,
            alt_title,
            slug,
            tags,
            metadata,
        };
        assert(revision@ == next_revision(
            previous@,
            user_id,
            comments@,
            body_view,
            render_view,
            revision_id,
        ));
        Self::commit(ctx, revision, found.as_ref());
        let outdate = match &moved_to {
            Some(slug) => OutdateService::process_page_move(
                &ctx.links,
                &mut ctx.jobs,
                site_id,
                page_id,
                slug,
            ),
            None => OutdateService::outdate(
                &ctx.links,
                &mut ctx.jobs,
                site_id,
                page_id,
                tasks.to_selection(),
                None,
            ),
        };
        Ok(
            Some(
                CreateRevisionOutput {
                    revision_id,
                    revision_number: revision_number + 1,
                    parser_warnings,
                    outdate,
                },
            ),
        )
    }

    /// Creates the first revision for a newly-inserted page.
    ///
    /// The first revision of a page is special.
    /// A revision change cannot be missing any fields (since there is
    /// not a previous revision to take prior data from), and always
    /// inserts, since it's not possible for it to be an empty revision
    /// (since there's no prior revision for it to be equal to).
    ///
    /// The page is always rendered, every field counts as changed, and the
    /// pages whose references to the slug found no page until now are
    /// queued for re-rendering.
    pub fn create_first(
        ctx: &mut ServiceContext,
        site_id: i64,
        page_id: i64,
        input: CreateFirstRevision,
        render: RenderOutput,
    ) -> (r: Result<CreateFirstRevisionOutput, Error>)
        requires
            old(ctx).wf(),
        ensures
            final(ctx).wf(),
            match create_first_failure(old(ctx).revisions, site_id, page_id, input.slug@) {
                Some(error) => r == Err::<CreateFirstRevisionOutput, Error>(error) && *final(ctx)
                    == *old(ctx),
                None => r is Ok && create_first_done(
                    *old(ctx),
                    *final(ctx),
                    site_id,
                    page_id,
                    input,
                    render,
                    r->Ok_0,
                ),
            },
    {
        if ctx.revisions.count(site_id, page_id) != 0 {
            return Err(Error::Conflict);
        }
        if ctx.revisions.page_at_slug(site_id, &input.slug).is_some() {
            return Err(Error::Conflict);
        }
        let revision_id = ctx.revisions.next_revision_id();
        if revision_id == i64::MAX {
            return Err(Error::Storage);
        }
        let CreateFirstRevision { user_id, comments, wikitext, title, alt_title, slug } = input;
        let RenderOutput { html_output, warnings, compiled_generator, compiled_at, backlinks } =
            render;
        let wikitext_hash = ctx.texts.put(wikitext);
        let compiled_hash = ctx.texts.put(html_output);
        let slug_copy = slug.clone();
        let revision = PageRevisionModel {
            revision_id,
            revision_type: PageRevisionType::Create,
            revision_number: 0,
            page_id,
            site_id,
            user_id,
            changes: ChangeSet::everything(),
            wikitext_hash,
            compiled_hash,
            compiled_at,
            compiled_generator,
            comments,
            hidden: Vec::new(),
            title,
            alt_title,
            slug,
            tags: Vec::new(),
            metadata: "{}".to_owned(),
        };
        proof {
            assert(revision.hidden.deep_view() =~= Seq::<Seq<char>>::empty());
            assert(revision.tags.deep_view() =~= Seq::<Seq<char>>::empty());
            assert forall|q: i64| q != page_id implies !ctx.revisions.sits_at(
                site_id,
                q,
                revision@.slug,
            ) by {}
        }
        Self::commit(ctx, revision, Some(&backlinks));
        let outdate = OutdateService::process_page_displace(
            &ctx.links,
            &mut ctx.jobs,
            site_id,
            page_id,
            &slug_copy,
        );
        Ok(CreateFirstRevisionOutput { revision_id, parser_warnings: warnings, outdate })
    }

    /// Creates a revision marking a page as deleted.
    ///
    /// This revision is called a "tombstone" in that
    /// its only purpose is to mark that the page has been deleted.
    /// The page's outgoing edges go, and the pages that refer to it are
    /// queued for re-rendering.
    pub fn create_tombstone(
        ctx: &mut ServiceContext,
        site_id: i64,
        page_id: i64,
        user_id: i64,
        comments: String,
    ) -> (r: Result<CreateRevisionOutput, Error>)
        requires
            old(ctx).wf(),
        ensures
            final(ctx).wf(),
            match tombstone_failure(old(ctx).revisions, site_id, page_id) {
                Some(error) => r == Err::<CreateRevisionOutput, Error>(error) && *final(ctx)
                    == *old(ctx),
                None => r is Ok && tombstone_done(
                    *old(ctx),
                    *final(ctx),
                    site_id,
                    page_id,
                    user_id,
                    comments@,
                    r->Ok_0,
                ),
            },
    {
        if !ctx.revisions.page_is_live(site_id, page_id) {
            return Err(Error::NotFound);
        }
        let latest = ctx.revisions.get_latest(site_id, page_id).unwrap();
        let revision_id = ctx.revisions.next_revision_id();
        proof {
            let n = ctx.revisions.history(site_id, page_id).len() - 1;
            crate::revision::log::lemma_numbers_contiguous(ctx.revisions, site_id, page_id, n);
        }
        if latest.revision_number >= i32::MAX - 1 || revision_id == i64::MAX {
            return Err(Error::Storage);
        }
        let revision_number = latest.revision_number + 1;
        let mut revision = latest;
        revision.revision_id = revision_id;
        revision.revision_type = PageRevisionType::Delete;
        revision.revision_number = revision_number;
        revision.user_id = user_id;
        revision.changes = ChangeSet::empty();
        revision.comments = comments;
        let nothing: Vec<Backlink> = Vec::new();
        assert(nothing@.map_values(|b: Backlink| b@) =~= Seq::<BacklinkView>::empty());
        Self::commit(ctx, revision, Some(&nothing));
        let outdate = OutdateService::process_page_delete(
            &ctx.links,
            &mut ctx.jobs,
            site_id,
            page_id,
        );
        Ok(CreateRevisionOutput { revision_id, revision_number, parser_warnings: None, outdate })
    }

    /// Creates a revision marking a pages as restored (i.e., undeleted).
    ///
    /// Similar to `create_tombstone`, this method creates
    /// a revision whose only purpose is to mark that the page
    /// has been restored. The page comes back at `slug`, with the rendering
    /// handed in; the pages that refer to it, and those whose references
    /// to the slug found no page, are queued for re-rendering.
    pub fn create_resurrection(
        ctx: &mut ServiceContext,
        site_id: i64,
        page_id: i64,
        user_id: i64,
        slug: String,
        comments: String,
        render: RenderOutput,
    ) -> (r: Result<CreateRevisionOutput, Error>)
        requires
            old(ctx).wf(),
        ensures
            final(ctx).wf(),
            match resurrection_failure(old(ctx).revisions, site_id, page_id, slug@) {
                Some(error) => r == Err::<CreateRevisionOutput, Error>(error) && *final(ctx)
                    == *old(ctx),
                None => r is Ok && resurrection_done(
                    *old(ctx),
                    *final(ctx),
                    site_id,
                    page_id,
                    user_id,
                    slug@,
                    comments@,
                    render,
                    r->Ok_0,
                ),
            },
    {
        let latest = match ctx.revisions.get_latest(site_id, page_id) {
            Some(latest) => latest,
            None => {
                return Err(Error::NotFound);
            },
        };
        if latest.revision_type != PageRevisionType::Delete {
            return Err(Error::Conflict);
        }
        let revision_id = ctx.revisions.next_revision_id();
        proof {
            let n = ctx.revisions.history(site_id, page_id).len() - 1;
            crate::revision::log::lemma_numbers_contiguous(ctx.revisions, site_id, page_id, n);
        }
        if latest.revision_number >= i32::MAX - 1 || revision_id == i64::MAX {
            return Err(Error::Storage);
        }
        if Self::occupied(&ctx.revisions, site_id, page_id, &slug) {
            return Err(Error::Conflict);
        }
        let RenderOutput { html_output, warnings, compiled_generator, compiled_at, backlinks } =
            render;
        let compiled_hash = ctx.texts.put(html_output);
        let revision_number = latest.revision_number + 1;
        let moved = slug != latest.slug;
        let slug_copy = slug.clone();
        let mut revision = latest;
        revision.revision_id = revision_id;
        revision.revision_type = PageRevisionType::Undelete;
        revision.revision_number = revision_number;
        revision.user_id = user_id;
        revision.changes = ChangeSet {
            wikitext: false,
            title: false,
            alt_title: false,
            slug: moved,
            tags: false,
            metadata: false,
        };
        revision.comments = comments;
        revision.slug = slug;
        revision.compiled_hash = compiled_hash;
        revision.compiled_generator = compiled_generator;
        revision.compiled_at = compiled_at;
        Self::commit(ctx, revision, Some(&backlinks));
        let outdate = OutdateService::process_page_restore(
            &ctx.links,
            &mut ctx.jobs,
            site_id,
            page_id,
            &slug_copy,
        );
        Ok(
            CreateRevisionOutput {
                revision_id,
                revision_number,
                parser_warnings: Some(warnings),
                outdate,
            },
        )
    }

    /// The wikitext that has to be rendered before `create` is called with
    /// this edit: none where the edit calls for no rendering; else the
    /// wikitext that the edit sets, or the stored one of the previous
    /// revision where it sets none.
    pub fn wikitext_to_render(
        ctx: &ServiceContext,
        previous: &PageRevisionModel,
        body: &CreateRevisionBody,
    ) -> (r: Result<Option<String>, Error>)
        requires
            ctx.wf(),
        ensures
            !tasks_of(changes_of(previous@, body@)).render_and_update_links ==> r == Ok::<
                Option<String>,
                Error,
            >(None),
            tasks_of(changes_of(previous@, body@)).render_and_update_links ==> match body@
                .wikitext {
                Some(text) => r is Ok && r->Ok_0 is Some && r->Ok_0->0@ == text,
                None => if ctx.texts@.contains_key(previous@.wikitext_hash) {
                    r is Ok && r->Ok_0 is Some && r->Ok_0->0@ == ctx.texts@[previous@.wikitext_hash]
                } else {
                    r == Err::<Option<String>, Error>(Error::NotFound)
                },
            },
    {
        let tasks = RevisionTasks::determine(previous, body);
        if !tasks.render_and_update_links {
            return Ok(None);
        }
        match &body.wikitext {
            ProvidedValue::SetTo(text) => Ok(Some(text.clone())),
            ProvidedValue::Unset => match ctx.texts.get(&previous.wikitext_hash) {
                Ok(text) => Ok(Some(text)),
                Err(error) => Err(error),
            },
        }
    }

    /// What the renderer is to be told of a page of the given site that
    /// holds the given revision.
    pub fn page_info(
        site_slug: &String,
        site_language: &String,
        revision: &PageRevisionModel,
    ) -> (info: PageInfo)
        ensures
            info@ == page_info_of(site_slug@, site_language@, revision@),
    {
        let (category, page) = split_category(revision.slug.as_str());
        PageInfo {
            page: page.to_owned(),
            category: match category {
                Some(category) => Some(category.to_owned()),
                None => None,
            },
            site: site_slug.clone(),
            title: revision.title.clone(),
            alt_title: crate::util::clone_opt_string(&revision.alt_title),
            tags: crate::util::clone_strings(&revision.tags),
            language: site_language.clone(),
        }
    }

    /// What the renderer is to be told of a page as an edit leaves it:
    /// slug, title, alternative title and tags are those that the edit
    /// sets, or those of the previous revision where it sets none.
    pub fn page_info_after(
        site_slug: &String,
        site_language: &String,
        previous: &PageRevisionModel,
        body: &CreateRevisionBody,
    ) -> (info: PageInfo)
        ensures
            info@ == page_info_after_edit(site_slug@, site_language@, previous@, body@),
    {
        let slug = match &body.slug {
            ProvidedValue::SetTo(slug) => slug,
            ProvidedValue::Unset => &previous.slug,
        };
        let title = match &body.title {
            ProvidedValue::SetTo(title) => title,
            ProvidedValue::Unset => &previous.title,
        };
        let alt_title = match &body.alt_title {
            ProvidedValue::SetTo(alt_title) => alt_title,
            ProvidedValue::Unset => &previous.alt_title,
        };
        let tags = match &body.tags {
            ProvidedValue::SetTo(tags) => tags,
            ProvidedValue::Unset => &previous.tags,
        };
        let (category, page) = split_category(slug.as_str());
        PageInfo {
            page: page.to_owned(),
            category: match category {
                Some(category) => Some(category.to_owned()),
                None => None,
            },
            site: site_slug.clone(),
            title: title.clone(),
            alt_title: crate::util::clone_opt_string(alt_title),
            tags: crate::util::clone_strings(tags),
            language: site_language.clone(),
        }
    }

    /// Re-renders a page.
    ///
    /// The rendering of the page's latest revision is handed in. No
    /// revision is created: the latest one gets the new compiled hash and
    /// generator and keeps everything else, the time of its compilation
    /// too; the page's outgoing edges are replaced, and the pages that
    /// depend on it are queued for re-rendering.
    pub fn rerender(
        ctx: &mut ServiceContext,
        site_id: i64,
        page_id: i64,
        render: RenderOutput,
    ) -> (r: Result<OutdateReport, Error>)
        requires
            old(ctx).wf(),
        ensures
            final(ctx).wf(),
            !old(ctx).revisions.has_page(site_id, page_id) ==> r == Err::<OutdateReport, Error>(
                Error::NotFound,
            ) && *final(ctx) == *old(ctx),
            old(ctx).revisions.has_page(site_id, page_id) ==> r is Ok && rerender_done(
                *old(ctx),
                *final(ctx),
                site_id,
                page_id,
                render@,
                r->Ok_0,
            ),
    {
        if ctx.revisions.count(site_id, page_id) == 0 {
            return Err(Error::NotFound);
        }
        let RenderOutput {
            html_output,
            warnings: _,
            compiled_generator,
            compiled_at: _,
            backlinks,
        } = render;
        let compiled_hash = ctx.texts.put(html_output);
        ctx.revisions.set_compiled(site_id, page_id, compiled_hash, compiled_generator);
        ctx.links.update(&ctx.revisions, site_id, page_id, &backlinks);
        let outdate = OutdateService::process_page_edit(
            &ctx.links,
            &mut ctx.jobs,
            site_id,
            page_id,
        );
        Ok(outdate)
    }

    /// Modifies an existing revision.
    ///
    /// Normally you should think of revisions as being immutable
    /// entries in an append-only log. This however is not always
    /// true. In addition to `rerender()`, staff are able to change
    /// the list of hidden fields, causing some fields of the revision to be
    /// hidden, for instance, if it contains spam, abuse, or harassment.
    /// Nothing else changes, and nothing is rendered or queued.
    pub fn update(ctx: &mut ServiceContext, revision_id: i64, input: UpdateRevision) -> (r: Result<
        (),
        Error,
    >)
        requires
            old(ctx).wf(),
        ensures
            final(ctx).wf(),
            final(ctx).texts == old(ctx).texts,
            final(ctx).links == old(ctx).links,
            final(ctx).jobs == old(ctx).jobs,
            final(ctx).revisions.next_id() == old(ctx).revisions.next_id(),
            r is Ok <==> old(ctx).revisions.has_revision(revision_id),
            r is Err ==> r == Err::<(), Error>(Error::NotFound),
            forall|s: i64, p: i64| #[trigger]
                final(ctx).revisions.history(s, p).len() == old(ctx).revisions.history(
                    s,
                    p,
                ).len(),
            forall|s: i64, p: i64, k: int|
                0 <= k < old(ctx).revisions.history(s, p).len()
                    ==> #[trigger] final(ctx).revisions.history(s, p)[k] == redacted(
                    old(ctx).revisions.history(s, p)[k],
                    revision_id,
                    input.hidden.deep_view(),
                ),
    {
        let UpdateRevision { user_id: _, hidden } = input;
        if ctx.revisions.set_hidden(revision_id, hidden) {
            Ok(())
        } else {
            Err(Error::NotFound)
        }
    }

    /// The latest revision of a page. Every page that exists has one.
    pub fn get_latest(ctx: &ServiceContext, site_id: i64, page_id: i64) -> (r: Result<
        PageRevisionModel,
        Error,
    >)
        requires
            ctx.wf(),
        ensures
            ctx.revisions.has_page(site_id, page_id) ==> r is Ok && r->Ok_0@
                == ctx.revisions.latest(site_id, page_id),
            !ctx.revisions.has_page(site_id, page_id) ==> r == Err::<PageRevisionModel, Error>(
                Error::NotFound,
            ),
    {
        match ctx.revisions.get_latest(site_id, page_id) {
            Some(revision) => Ok(revision),
            None => Err(Error::NotFound),
        }
    }

    /// The revision of a page with the given number, if there is one.
    pub fn get_optional(
        ctx: &ServiceContext,
        site_id: i64,
        page_id: i64,
        revision_number: i32,
    ) -> (r: Result<Option<PageRevisionModel>, Error>)
        requires
            ctx.wf(),
        ensures
            r is Ok,
            match r->Ok_0 {
                Some(revision) => 0 <= revision_number < ctx.revisions.history(
                    site_id,
                    page_id,
                ).len() && revision@ == ctx.revisions.history(
                    site_id,
                    page_id,
                )[revision_number as int],
                None => !(0 <= revision_number < ctx.revisions.history(site_id, page_id).len()),
            },
    {
        Ok(ctx.revisions.get(site_id, page_id, revision_number))
    }

    /// Whether the page has a revision with the given number.
    #[inline]
    pub fn revision_exists(
        ctx: &ServiceContext,
        site_id: i64,
        page_id: i64,
        revision_number: i32,
    ) -> (r: Result<bool, Error>)
        requires
            ctx.wf(),
        ensures
            r == Ok::<bool, Error>(
                0 <= revision_number < ctx.revisions.history(site_id, page_id).len(),
            ),
    {
        match Self::get_optional(ctx, site_id, page_id, revision_number) {
            Ok(revision) => Ok(revision.is_some()),
            Err(error) => Err(error),
        }
    }

    /// The revision of a page with the given number.
    #[inline]
    pub fn get(ctx: &ServiceContext, site_id: i64, page_id: i64, revision_number: i32) -> (r:
        Result<PageRevisionModel, Error>)
        requires
            ctx.wf(),
        ensures
            0 <= revision_number < ctx.revisions.history(site_id, page_id).len() ==> r is Ok
                && r->Ok_0@ == ctx.revisions.history(site_id, page_id)[revision_number as int],
            !(0 <= revision_number < ctx.revisions.history(site_id, page_id).len()) ==> r == Err::<
                PageRevisionModel,
                Error,
            >(Error::NotFound),
    {
        match Self::get_optional(ctx, site_id, page_id, revision_number) {
            Ok(Some(revision)) => Ok(revision),
            Ok(None) => Err(Error::NotFound),
            Err(error) => Err(error),
        }
    }

    /// How many revisions a page has. All pages have at least one revision,
    /// so if there are none the page does not exist.
    pub fn count(ctx: &ServiceContext, site_id: i64, page_id: i64) -> (r: Result<i32, Error>)
        requires
            ctx.wf(),
        ensures
            ctx.revisions.has_page(site_id, page_id) ==> r is Ok && r->Ok_0
                == ctx.revisions.history(site_id, page_id).len() && r->Ok_0 > 0,
            !ctx.revisions.has_page(site_id, page_id) ==> r == Err::<i32, Error>(Error::NotFound),
    {
        let row_count = ctx.revisions.count(site_id, page_id);
        if row_count == 0 {
            return Err(Error::NotFound);
        }
        proof {
            crate::revision::log::lemma_numbers_contiguous(ctx.revisions, site_id, page_id, 0);
        }
        Ok(row_count as i32)
    }

    /// The revisions of a page from a revision number toward older or
    /// toward newer ones: the revision with that number and those next to
    /// it in that direction, at most `revision_limit` of them, oldest
    /// first. A negative number stands for the most recent revision.
    pub fn get_range(
        ctx: &ServiceContext,
        site_id: i64,
        page_id: i64,
        revision_number: i32,
        revision_direction: RevisionDirection,
        revision_limit: u64,
    ) -> (r: Result<Vec<PageRevisionModel>, Error>)
        requires
            ctx.wf(),
        ensures
            r is Ok,
            r->Ok_0@.map_values(|m: PageRevisionModel| m@) == range_of(
                ctx.revisions.history(site_id, page_id),
                revision_number,
                revision_direction,
                revision_limit,
            ),
    {
        Ok(
            ctx.revisions.get_range(
                site_id,
                page_id,
                revision_number,
                revision_direction,
                revision_limit,
            ),
        )
    }
}

/// What a successful edit leaves behind: the new revision is committed
/// with the texts and references that came with it; the pages that depend
/// on the edited one are queued, as far as the queue has room; the output
/// names the new revision and hands on the renderer's warnings.
pub open spec fn create_done(
    before: ServiceContext,
    after: ServiceContext,
    previous: RevisionView,
    input: CreateRevision,
    render: Option<RenderOutput>,
    output: CreateRevisionOutput,
) -> bool {
    let site_id = previous.site_id;
    let page_id = previous.page_id;
    let body = input.body@;
    let changes = changes_of(previous, body);
    let tasks = tasks_of(changes);
    let rendering = rendering_of(render);
    let revision = next_revision(
        previous,
        input.user_id,
        input.comments@,
        body,
        rendering,
        before.revisions.next_id(),
    );
    &&& committed(
        before,
        after,
        revision,
        body.wikitext,
        if tasks.render_and_update_links {
            Some(rendering->0.html_output)
        } else {
            None
        },
        if tasks.render_and_update_links {
            Some(rendering->0.backlinks)
        } else {
            None
        },
    )
    &&& cascaded(
        before.jobs,
        after.jobs,
        output.outdate,
        site_id,
        if changes.slug {
            stale_after_move(after.links@, site_id, page_id, revision.slug)
        } else {
            dependents(after.links@, site_id, page_id, tasks.selection(), None)
        },
    )
    &&& output.revision_id == revision.revision_id
    &&& output.revision_number == revision.revision_number
    &&& output.parser_warnings == if tasks.render_and_update_links {
        Some(render->0.warnings)
    } else {
        None
    }
}

/// A revision after the redaction of the revision `revision_id`: that one
/// with the new list of hidden fields, every other one as it was.
pub open spec fn redacted(
    revision: RevisionView,
    revision_id: i64,
    hidden: Seq<Seq<char>>,
) -> RevisionView {
    if revision.revision_id == revision_id {
        RevisionView { hidden, ..revision }
    } else {
        revision
    }
}

/// The first revision of a page: number 0, every field changed, no tags,
/// nothing hidden, empty metadata.
pub open spec fn first_revision(
    site_id: i64,
    page_id: i64,
    input: CreateFirstRevision,
    render: RenderView,
    revision_id: i64,
) -> RevisionView {
    RevisionView {
        revision_id,
        revision_type: PageRevisionType::Create,
        revision_number: 0,
        page_id,
        site_id,
        user_id: input.user_id,
        changes: ChangeSet::all(),
        wikitext_hash: text_digest(input.wikitext@),
        compiled_hash: text_digest(render.html_output),
        compiled_at: render.compiled_at,
        compiled_generator: render.compiled_generator,
        comments: input.comments@,
        hidden: Seq::empty(),
        title: input.title@,
        alt_title: input.alt_title.deep_view(),
        slug: input.slug@,
        tags: Seq::empty(),
        metadata: "{}"@,
    }
}

/// Why a first revision is refused, if it is: the page has revisions
/// already, a live page sits at the slug, or the identifiers have run out.
pub open spec fn create_first_failure(
    log: RevisionLog,
    site_id: i64,
    page_id: i64,
    slug: Seq<char>,
) -> Option<Error> {
    if log.has_page(site_id, page_id) {
        Some(Error::Conflict)
    } else if log.slug_taken(site_id, slug) {
        Some(Error::Conflict)
    } else if log.next_id() == i64::MAX {
        Some(Error::Storage)
    } else {
        None
    }
}

/// What a first revision leaves behind.
pub open spec fn create_first_done(
    before: ServiceContext,
    after: ServiceContext,
    site_id: i64,
    page_id: i64,
    input: CreateFirstRevision,
    render: RenderOutput,
    output: CreateFirstRevisionOutput,
) -> bool {
    let revision = first_revision(site_id, page_id, input, render@, before.revisions.next_id());
    &&& committed(
        before,
        after,
        revision,
        Some(input.wikitext@),
        Some(render@.html_output),
        Some(render@.backlinks),
    )
    &&& cascaded(
        before.jobs,
        after.jobs,
        output.outdate,
        site_id,
        stale_after_displace(after.links@, site_id, page_id, input.slug@),
    )
    &&& output.revision_id == revision.revision_id
    &&& output.parser_warnings == render.warnings
}

/// The revision that marks a page as deleted: the latest one with the next
/// number, the type `Delete` and no changed field.
pub open spec fn tombstone_revision(
    latest: RevisionView,
    user_id: i64,
    comments: Seq<char>,
    revision_id: i64,
) -> RevisionView {
    RevisionView {
        revision_id,
        revision_type: PageRevisionType::Delete,
        revision_number: (latest.revision_number + 1) as i32,
        user_id,
        changes: ChangeSet::none(),
        comments,
        ..latest
    }
}

/// Why a deletion is refused, if it is: the page does not exist or is
/// deleted already, or the numbers or identifiers have run out.
pub open spec fn tombstone_failure(log: RevisionLog, site_id: i64, page_id: i64) -> Option<Error> {
    if !log.is_live(site_id, page_id) {
        Some(Error::NotFound)
    } else if log.history(site_id, page_id).len() >= i32::MAX || log.next_id() == i64::MAX {
        Some(Error::Storage)
    } else {
        None
    }
}

/// What a deletion leaves behind: the tombstone is committed, the page has
/// no outgoing edges any more, and the pages that refer to it are queued.
pub open spec fn tombstone_done(
    before: ServiceContext,
    after: ServiceContext,
    site_id: i64,
    page_id: i64,
    user_id: i64,
    comments: Seq<char>,
    output: CreateRevisionOutput,
) -> bool {
    let revision = tombstone_revision(
        before.revisions.latest(site_id, page_id),
        user_id,
        comments,
        before.revisions.next_id(),
    );
    &&& committed(before, after, revision, None, None, Some(Seq::empty()))
    &&& cascaded(
        before.jobs,
        after.jobs,
        output.outdate,
        site_id,
        stale_after_delete(after.links@, site_id, page_id),
    )
    &&& output.revision_id == revision.revision_id
    &&& output.revision_number == revision.revision_number
    &&& output.parser_warnings is None
}

/// The revision that brings a deleted page back at `slug`: the latest one
/// with the next number, the type `Undelete`, the slug and the rendering
/// given; the slug counts as changed where it differs.
pub open spec fn resurrection_revision(
    latest: RevisionView,
    user_id: i64,
    slug: Seq<char>,
    comments: Seq<char>,
    render: RenderView,
    revision_id: i64,
) -> RevisionView {
    RevisionView {
        revision_id,
        revision_type: PageRevisionType::Undelete,
        revision_number: (latest.revision_number + 1) as i32,
        user_id,
        changes: ChangeSet { slug: slug != latest.slug, ..ChangeSet::none() },
        comments,
        slug,
        compiled_hash: text_digest(render.html_output),
        compiled_generator: render.compiled_generator,
        compiled_at: render.compiled_at,
        ..latest
    }
}

/// Why a restoration is refused, if it is: the page does not exist; it is
/// not deleted; the numbers or identifiers have run out; another page sits
/// at the slug.
pub open spec fn resurrection_failure(
    log: RevisionLog,
    site_id: i64,
    page_id: i64,
    slug: Seq<char>,
) -> Option<Error> {
    if !log.has_page(site_id, page_id) {
        Some(Error::NotFound)
    } else if log.is_live(site_id, page_id) {
        Some(Error::Conflict)
    } else if log.history(site_id, page_id).len() >= i32::MAX || log.next_id() == i64::MAX {
        Some(Error::Storage)
    } else if slug_occupied(log, site_id, page_id, slug) {
        Some(Error::Conflict)
    } else {
        None
    }
}

/// What a restoration leaves behind.
pub open spec fn resurrection_done(
    before: ServiceContext,
    after: ServiceContext,
    site_id: i64,
    page_id: i64,
    user_id: i64,
    slug: Seq<char>,
    comments: Seq<char>,
    render: RenderOutput,
    output: CreateRevisionOutput,
) -> bool {
    let revision = resurrection_revision(
        before.revisions.latest(site_id, page_id),
        user_id,
        slug,
        comments,
        render@,
        before.revisions.next_id(),
    );
    &&& committed(
        before,
        after,
        revision,
        None,
        Some(render@.html_output),
        Some(render@.backlinks),
    )
    &&& cascaded(
        before.jobs,
        after.jobs,
        output.outdate,
        site_id,
        stale_after_restore(after.links@, site_id, page_id, slug),
    )
    &&& output.revision_id == revision.revision_id
    &&& output.revision_number == revision.revision_number
    &&& output.parser_warnings == Some(render.warnings)
}

/// What a re-rendering leaves behind: the compiled page is stored; the
/// latest revision of the page carries the new compiled hash and
/// generator and is otherwise as it was; no history is longer or shorter;
/// the page's outgoing edges are those of the rendering; the pages that
/// depend on the page are queued.
pub open spec fn rerender_done(
    before: ServiceContext,
    after: ServiceContext,
    site_id: i64,
    page_id: i64,
    render: RenderView,
    report: OutdateReport,
) -> bool {
    let history = before.revisions.history(site_id, page_id);
    &&& after.wf()
    &&& after.texts@ == stored_opt(before.texts@, Some(render.html_output))
    &&& after.revisions.next_id() == before.revisions.next_id()
    &&& after.revisions.history(site_id, page_id) == history.update(
        history.len() - 1,
        (RevisionView {
            compiled_hash: text_digest(render.html_output),
            compiled_generator: render.compiled_generator,
            ..history.last()
        }),
    )
    &&& forall|s: i64, p: i64|
        !(s == site_id && p == page_id) ==> #[trigger] after.revisions.history(s, p)
            == before.revisions.history(s, p)
    &&& after.links@ == replaced(before.links@, after.revisions, site_id, page_id, render.backlinks)
    &&& cascaded(
        before.jobs,
        after.jobs,
        report,
        site_id,
        stale_after_edit(after.links@, site_id, page_id),
    )
}

} // verus!
