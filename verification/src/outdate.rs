//! The outdate cascade: when a page changes, the pages that depend on it are
//! queued for re-rendering. Nothing is rendered here: the work goes to the
//! job queue, and a dependent that the queue refuses stays stale until a
//! later event names it again.

use crate::job::{rerender_job, JobService, QueuedJob};
use crate::link::{
    depends_on, dependents, lemma_dependents_complete, lemma_dependents_distinct, EdgeView,
    LinkService, Selection,
};
use vstd::prelude::*;

verus! {

/// What became of the dependents of a changed page.
#[derive(Debug, PartialEq, Eq)]
pub struct OutdateReport {
    /// The pages whose re-rendering was queued, in the order of queueing.
    pub queued: Vec<i64>,
    /// The pages that the full queue refused: they stay stale.
    pub rejected: Vec<i64>,
}

/// How many of `wanted` jobs a queue with `room` free places takes.
pub open spec fn accepted(room: nat, wanted: nat) -> int {
    if room < wanted {
        room as int
    } else {
        wanted as int
    }
}

/// The jobs that re-render the given pages of a site, one each.
pub open spec fn rerender_jobs(site_id: i64, page_ids: Seq<i64>) -> Seq<QueuedJob> {
    page_ids.map_values(|page_id: i64| rerender_job(site_id, page_id))
}

/// What one pass of the cascade does with the dependents `stale` of a page:
/// as many as the queue has room for are queued, in order, one job each; the
/// others are reported as rejected; nothing else changes.
pub open spec fn cascaded(
    before: JobService,
    after: JobService,
    report: OutdateReport,
    site_id: i64,
    stale: Seq<i64>,
) -> bool {
    let n = accepted(before.room(), stale.len());
    &&& after.limits() == before.limits()
    &&& report.queued@ == stale.take(n)
    &&& report.rejected@ == stale.skip(n)
    &&& after@ == before@ + rerender_jobs(site_id, stale.take(n))
}

/// The cascade, one entry for each event that can befall a page.
#[derive(Debug)]
pub struct OutdateService;

impl OutdateService {
    /// One pass over the graph: finds the dependents of the page, each one
    /// once, and queues a re-rendering for each.
    pub fn outdate(
        links: &LinkService,
        jobs: &mut JobService,
        site_id: i64,
        page_id: i64,
        selection: Selection,
        slug: Option<&String>,
    ) -> (report: OutdateReport)
        ensures
            cascaded(
                *old(jobs),
                *final(jobs),
                report,
                site_id,
                dependents(
                    links@,
                    site_id,
                    page_id,
                    selection,
                    match slug {
                        Some(s) => Some(s@),
                        None => None,
                    },
                ),
            ),
    {
        let stale = links.dependents(site_id, page_id, selection, slug);
        let ghost room = jobs.room();
        let ghost start = jobs@;
        let mut queued: Vec<i64> = Vec::new();
        let mut rejected: Vec<i64> = Vec::new();
        let mut i: usize = 0;
        assert(rerender_jobs(site_id, stale@.take(0)) =~= Seq::<QueuedJob>::empty());
        assert(start + Seq::<QueuedJob>::empty() =~= start);
        while i < stale.len()
            invariant
                i <= stale.len(),
                jobs.limits() == old(jobs).limits(),
                start == old(jobs)@,
                room == old(jobs).room(),
                queued@ == stale@.take(accepted(room, i as nat)),
                rejected@ == stale@.subrange(accepted(room, i as nat), i as int),
                jobs@ == start + rerender_jobs(site_id, stale@.take(accepted(room, i as nat))),
                jobs@.len() == start.len() + accepted(room, i as nat),
            decreases stale.len() - i,
        {
            let dependent = stale[i];
            let ghost n = accepted(room, i as nat);
            match jobs.queue_rerender_page(site_id, dependent) {
                Ok(_) => {
                    queued.push(dependent);
                    proof {
                        assert(n == i);
                        assert(stale@.take(i + 1) =~= stale@.take(i as int).push(dependent));
                        assert(rerender_jobs(site_id, stale@.take(i + 1)) =~= rerender_jobs(
                            site_id,
                            stale@.take(i as int),
                        ).push(rerender_job(site_id, dependent)));
                        assert(jobs@ =~= start + rerender_jobs(site_id, stale@.take(i + 1)));
                        assert(rejected@ =~= stale@.subrange(i + 1, i + 1));
                    }
                },
                Err(_) => {
                    rejected.push(dependent);
                    proof {
                        assert(n == room);
                        assert(rejected@ =~= stale@.subrange(n, i + 1));
                    }
                },
            }
            i += 1;
        }
        proof {
            let n = accepted(room, stale@.len());
            assert(stale@.subrange(n, stale@.len() as int) =~= stale@.skip(n));
        }
        OutdateReport { queued, rejected }
    }

    /// The content of a page changed and its slug did not: the pages that
    /// link to it, include it or use it as a template are queued, each
    /// once.
    pub fn process_page_edit(
        links: &LinkService,
        jobs: &mut JobService,
        site_id: i64,
        page_id: i64,
    ) -> (report: OutdateReport)
        ensures
            cascaded(
                *old(jobs),
                *final(jobs),
                report,
                site_id,
                stale_after_edit(links@, site_id, page_id),
            ),
    {
        Self::outdate(links, jobs, site_id, page_id, Selection::all(), None)
    }

    /// A page moved to `new_slug`: the pages that referred to it, and the
    /// pages whose references to `new_slug` found no page, are queued in
    /// one pass, each once.
    pub fn process_page_move(
        links: &LinkService,
        jobs: &mut JobService,
        site_id: i64,
        page_id: i64,
        new_slug: &String,
    ) -> (report: OutdateReport)
        ensures
            cascaded(
                *old(jobs),
                *final(jobs),
                report,
                site_id,
                stale_after_move(links@, site_id, page_id, new_slug@),
            ),
    {
        Self::outdate(links, jobs, site_id, page_id, Selection::all(), Some(new_slug))
    }

    /// A page was created at `slug`: the pages whose references to that slug
    /// found no page are queued, each once.
    pub fn process_page_displace(
        links: &LinkService,
        jobs: &mut JobService,
        site_id: i64,
        page_id: i64,
        slug: &String,
    ) -> (report: OutdateReport)
        ensures
            cascaded(
                *old(jobs),
                *final(jobs),
                report,
                site_id,
                stale_after_displace(links@, site_id, page_id, slug@),
            ),
    {
        Self::outdate(links, jobs, site_id, page_id, Selection::none(), Some(slug))
    }

    /// A page was deleted: the pages that referred to it are queued, each
    /// once.
    pub fn process_page_delete(
        links: &LinkService,
        jobs: &mut JobService,
        site_id: i64,
        page_id: i64,
    ) -> (report: OutdateReport)
        ensures
            cascaded(
                *old(jobs),
                *final(jobs),
                report,
                site_id,
                stale_after_delete(links@, site_id, page_id),
            ),
    {
        Self::outdate(links, jobs, site_id, page_id, Selection::all(), None)
    }

    /// A deleted page came back at `slug`: the pages that still refer to
    /// it, and the pages whose references to the slug found no page, are
    /// queued in one pass, each once.
    pub fn process_page_restore(
        links: &LinkService,
        jobs: &mut JobService,
        site_id: i64,
        page_id: i64,
        slug: &String,
    ) -> (report: OutdateReport)
        ensures
            cascaded(
                *old(jobs),
                *final(jobs),
                report,
                site_id,
                stale_after_restore(links@, site_id, page_id, slug@),
            ),
    {
        Self::outdate(links, jobs, site_id, page_id, Selection::all(), Some(slug))
    }

    /// Queues the pages that link to the page.
    pub fn outdate_incoming_links(
        links: &LinkService,
        jobs: &mut JobService,
        site_id: i64,
        page_id: i64,
    ) -> (report: OutdateReport)
        ensures
            cascaded(
                *old(jobs),
                *final(jobs),
                report,
                site_id,
                dependents(
                    links@,
                    site_id,
                    page_id,
                    (Selection { links: true, includes: false, templates: false }),
                    None,
                ),
            ),
    {
        let selection = Selection { links: true, includes: false, templates: false };
        Self::outdate(links, jobs, site_id, page_id, selection, None)
    }

    /// Queues the pages that include the page.
    pub fn outdate_outgoing_includes(
        links: &LinkService,
        jobs: &mut JobService,
        site_id: i64,
        page_id: i64,
    ) -> (report: OutdateReport)
        ensures
            cascaded(
                *old(jobs),
                *final(jobs),
                report,
                site_id,
                dependents(
                    links@,
                    site_id,
                    page_id,
                    (Selection { links: false, includes: true, templates: false }),
                    None,
                ),
            ),
    {
        let selection = Selection { links: false, includes: true, templates: false };
        Self::outdate(links, jobs, site_id, page_id, selection, None)
    }

    /// Queues the pages that use the page as their template.
    pub fn outdate_templates(
        links: &LinkService,
        jobs: &mut JobService,
        site_id: i64,
        page_id: i64,
    ) -> (report: OutdateReport)
        ensures
            cascaded(
                *old(jobs),
                *final(jobs),
                report,
                site_id,
                dependents(
                    links@,
                    site_id,
                    page_id,
                    (Selection { links: false, includes: false, templates: true }),
                    None,
                ),
            ),
    {
        let selection = Selection { links: false, includes: false, templates: true };
        Self::outdate(links, jobs, site_id, page_id, selection, None)
    }
}

/// Every kind of reference.
pub open spec fn every_kind() -> Selection {
    Selection { links: true, includes: true, templates: true }
}

/// No kind of reference.
pub open spec fn no_kind() -> Selection {
    Selection { links: false, includes: false, templates: false }
}

/// The pages to re-render after an edit of a page.
pub open spec fn stale_after_edit(
    edges: Seq<EdgeView>,
    site_id: i64,
    page_id: i64,
) -> Seq<i64> {
    dependents(edges, site_id, page_id, every_kind(), None)
}

/// The pages to re-render after a page moved to `new_slug`.
pub open spec fn stale_after_move(
    edges: Seq<EdgeView>,
    site_id: i64,
    page_id: i64,
    new_slug: Seq<char>,
) -> Seq<i64> {
    dependents(edges, site_id, page_id, every_kind(), Some(new_slug))
}

/// The pages to re-render after a page was created at `slug`.
pub open spec fn stale_after_displace(
    edges: Seq<EdgeView>,
    site_id: i64,
    page_id: i64,
    slug: Seq<char>,
) -> Seq<i64> {
    dependents(edges, site_id, page_id, no_kind(), Some(slug))
}

/// The pages to re-render after a page was deleted.
pub open spec fn stale_after_delete(
    edges: Seq<EdgeView>,
    site_id: i64,
    page_id: i64,
) -> Seq<i64> {
    dependents(edges, site_id, page_id, every_kind(), None)
}

/// The pages to re-render after a deleted page came back at `slug`.
pub open spec fn stale_after_restore(
    edges: Seq<EdgeView>,
    site_id: i64,
    page_id: i64,
    slug: Seq<char>,
) -> Seq<i64> {
    dependents(edges, site_id, page_id, every_kind(), Some(slug))
}

/// A move is one pass over the dependents of both ends: a page is queued
/// exactly if it referred to the moved page or waited for the new slug, and
/// no page is queued twice, not even one that did both.
pub proof fn lemma_move_is_one_pass(
    edges: Seq<EdgeView>,
    site_id: i64,
    page_id: i64,
    new_slug: Seq<char>,
    candidate: i64,
)
    ensures
        stale_after_move(edges, site_id, page_id, new_slug).no_duplicates(),
        !stale_after_move(edges, site_id, page_id, new_slug).contains(page_id),
        stale_after_move(edges, site_id, page_id, new_slug).contains(candidate) <==> (
        stale_after_edit(edges, site_id, page_id).contains(candidate) || stale_after_displace(
            edges,
            site_id,
            page_id,
            new_slug,
        ).contains(candidate)),
{
    lemma_dependents_distinct(edges, site_id, page_id, every_kind(), Some(new_slug));
    lemma_dependents_complete(edges, site_id, page_id, every_kind(), Some(new_slug), candidate);
    lemma_dependents_complete(edges, site_id, page_id, every_kind(), None, candidate);
    lemma_dependents_complete(edges, site_id, page_id, no_kind(), Some(new_slug), candidate);
    let both = every_kind();
    let none = no_kind();
    if exists|i: int|
        0 <= i < edges.len() && depends_on(
            #[trigger] edges[i],
            site_id,
            page_id,
            both,
            Some(new_slug),
        ) && edges[i].from_page_id == candidate {
        let i = choose|i: int|
            0 <= i < edges.len() && depends_on(
                #[trigger] edges[i],
                site_id,
                page_id,
                both,
                Some(new_slug),
            ) && edges[i].from_page_id == candidate;
        assert(depends_on(edges[i], site_id, page_id, both, None) || depends_on(
            edges[i],
            site_id,
            page_id,
            none,
            Some(new_slug),
        ));
    }
    if exists|i: int|
        0 <= i < edges.len() && depends_on(#[trigger] edges[i], site_id, page_id, both, None)
            && edges[i].from_page_id == candidate {
        let i = choose|i: int|
            0 <= i < edges.len() && depends_on(#[trigger] edges[i], site_id, page_id, both, None)
                && edges[i].from_page_id == candidate;
        assert(depends_on(edges[i], site_id, page_id, both, Some(new_slug)));
    }
    if exists|i: int|
        0 <= i < edges.len() && depends_on(
            #[trigger] edges[i],
            site_id,
            page_id,
            none,
            Some(new_slug),
        ) && edges[i].from_page_id == candidate {
        let i = choose|i: int|
            0 <= i < edges.len() && depends_on(
                #[trigger] edges[i],
                site_id,
                page_id,
                none,
                Some(new_slug),
            ) && edges[i].from_page_id == candidate;
        assert(depends_on(edges[i], site_id, page_id, both, Some(new_slug)));
    }
}

/// An edit, a deletion, a creation and a restoration each queue a page at
/// most once, and never the changed page itself.
pub proof fn lemma_each_dependent_once(
    edges: Seq<EdgeView>,
    site_id: i64,
    page_id: i64,
    slug: Seq<char>,
)
    ensures
        stale_after_edit(edges, site_id, page_id).no_duplicates(),
        stale_after_delete(edges, site_id, page_id).no_duplicates(),
        stale_after_displace(edges, site_id, page_id, slug).no_duplicates(),
        stale_after_restore(edges, site_id, page_id, slug).no_duplicates(),
        !stale_after_edit(edges, site_id, page_id).contains(page_id),
        !stale_after_delete(edges, site_id, page_id).contains(page_id),
        !stale_after_displace(edges, site_id, page_id, slug).contains(page_id),
        !stale_after_restore(edges, site_id, page_id, slug).contains(page_id),
{
    lemma_dependents_distinct(edges, site_id, page_id, every_kind(), None);
    lemma_dependents_distinct(edges, site_id, page_id, no_kind(), Some(slug));
    lemma_dependents_distinct(edges, site_id, page_id, every_kind(), Some(slug));
}

/// Whether the graph holds a reference of `from_page_id` to the page, found
/// or broken: an edge that points at the page, or one that points at no
/// page and names the slug.
pub open spec fn still_refers(
    edges: Seq<EdgeView>,
    site_id: i64,
    from_page_id: i64,
    page_id: i64,
    slug: Seq<char>,
) -> bool {
    exists|i: int|
        0 <= i < edges.len() && (#[trigger] edges[i]).site_id == site_id && edges[i].from_page_id
            == from_page_id && (edges[i].to_page_id == Some(page_id) || (edges[i].to_page_id
            is None && edges[i].to_slug == slug))
}

/// A page that was queued when a page was deleted is queued again when the
/// page is restored at `slug`, as long as the graph still holds its
/// reference, be it as the edge that it was or, after its re-rendering, as
/// a reference to the slug that finds no page.
pub proof fn lemma_restore_queues_again(
    at_delete: Seq<EdgeView>,
    at_restore: Seq<EdgeView>,
    site_id: i64,
    page_id: i64,
    slug: Seq<char>,
    dependent: i64,
)
    requires
        stale_after_delete(at_delete, site_id, page_id).contains(dependent),
        still_refers(at_restore, site_id, dependent, page_id, slug),
    ensures
        stale_after_restore(at_restore, site_id, page_id, slug).contains(dependent),
{
    lemma_dependents_distinct(at_delete, site_id, page_id, every_kind(), None);
    lemma_dependents_complete(at_restore, site_id, page_id, every_kind(), Some(slug), dependent);
    let i = choose|i: int|
        0 <= i < at_restore.len() && (#[trigger] at_restore[i]).site_id == site_id
            && at_restore[i].from_page_id == dependent && (at_restore[i].to_page_id == Some(
            page_id,
        ) || (at_restore[i].to_page_id is None && at_restore[i].to_slug == slug));
    assert(dependent != page_id);
    assert(depends_on(at_restore[i], site_id, page_id, every_kind(), Some(slug)));
}

/// Where the graph did not change in between, the restoration queues every
/// page that the deletion queued.
pub proof fn lemma_restore_covers_delete(
    edges: Seq<EdgeView>,
    site_id: i64,
    page_id: i64,
    slug: Seq<char>,
    dependent: i64,
)
    requires
        stale_after_delete(edges, site_id, page_id).contains(dependent),
    ensures
        stale_after_restore(edges, site_id, page_id, slug).contains(dependent),
{
    lemma_dependents_complete(edges, site_id, page_id, every_kind(), None, dependent);
    let i = choose|i: int|
        0 <= i < edges.len() && depends_on(
            #[trigger] edges[i],
            site_id,
            page_id,
            every_kind(),
            None,
        ) && edges[i].from_page_id == dependent;
    assert(still_refers(edges, site_id, dependent, page_id, slug));
    lemma_restore_queues_again(edges, edges, site_id, page_id, slug, dependent);
}

} // verus!
