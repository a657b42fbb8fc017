//! The dependency graph: which page links to, includes or uses which.

use crate::revision::log::RevisionLog;
use vstd::prelude::*;

verus! {

/// How one page refers to another.
#[derive(Debug, Clone, Copy, PartialEq, Eq, Structural)]
pub enum ConnectionType {
    /// The page links to the target.
    Link,
    /// The page embeds the target's content.
    Include,
    /// The page is laid out by the target.
    Template,
}

/// The kind of an edge of the graph.
#[derive(Debug, Clone, Copy, PartialEq, Eq, Structural)]
pub enum LinkKind {
    Link,
    Include,
    Template,
    /// The target did not exist when the edge was recorded.
    MissingTarget,
}

/// A reference that a rendering found in a page: the slug it names and how
/// it is used.
#[derive(Debug, PartialEq, Eq)]
pub struct Backlink {
    pub slug: String,
    pub connection_type: ConnectionType,
}

/// An edge of the graph, from the page that refers to the page referred to.
/// An edge without a target page stands for a reference to a slug at which
/// no page sat.
#[derive(Debug, PartialEq, Eq)]
pub struct LinkEdge {
    pub site_id: i64,
    pub from_page_id: i64,
    pub to_page_id: Option<i64>,
    pub to_slug: String,
    pub connection_type: ConnectionType,
}

/// An edge as mathematical values.
pub struct EdgeView {
    pub site_id: i64,
    pub from_page_id: i64,
    pub to_page_id: Option<i64>,
    pub to_slug: Seq<char>,
    pub connection_type: ConnectionType,
}

/// A reference found by a rendering, as mathematical values.
pub struct BacklinkView {
    pub slug: Seq<char>,
    pub connection_type: ConnectionType,
}

impl View for Backlink {
    type V = BacklinkView;

    open spec fn view(&self) -> BacklinkView {
        BacklinkView { slug: self.slug@, connection_type: self.connection_type }
    }
}

impl View for LinkEdge {
    type V = EdgeView;

    open spec fn view(&self) -> EdgeView {
        EdgeView {
            site_id: self.site_id,
            from_page_id: self.from_page_id,
            to_page_id: self.to_page_id,
            to_slug: self.to_slug@,
            connection_type: self.connection_type,
        }
    }
}

impl EdgeView {
    /// The kind of the edge.
    pub open spec fn kind(self) -> LinkKind {
        if self.to_page_id is None {
            LinkKind::MissingTarget
        } else {
            match self.connection_type {
                ConnectionType::Link => LinkKind::Link,
                ConnectionType::Include => LinkKind::Include,
                ConnectionType::Template => LinkKind::Template,
            }
        }
    }

    /// Whether the edge leaves the given page.
    pub open spec fn leaves(self, site_id: i64, page_id: i64) -> bool {
        self.site_id == site_id && self.from_page_id == page_id
    }
}

impl Clone for LinkEdge {
    fn clone(&self) -> (r: LinkEdge)
        ensures
            r@ == self@,
    {
        LinkEdge {
            site_id: self.site_id,
            from_page_id: self.from_page_id,
            to_page_id: self.to_page_id,
            to_slug: self.to_slug.clone(),
            connection_type: self.connection_type,
        }
    }
}

impl LinkEdge {
    /// The kind of the edge.
    pub fn kind(&self) -> (k: LinkKind)
        ensures
            k == self@.kind(),
    {
        match self.to_page_id {
            None => LinkKind::MissingTarget,
            Some(_) => match self.connection_type {
                ConnectionType::Link => LinkKind::Link,
                ConnectionType::Include => LinkKind::Include,
                ConnectionType::Template => LinkKind::Template,
            },
        }
    }

    /// Whether two edges are the same edge.
    pub fn same(&self, other: &LinkEdge) -> (r: bool)
        ensures
            r == (self@ == other@),
    {
        let targets = match (self.to_page_id, other.to_page_id) {
            (Some(a), Some(b)) => a == b,
            (None, None) => true,
            _ => false,
        };
        self.site_id == other.site_id && self.from_page_id == other.from_page_id && targets
            && self.to_slug == other.to_slug && self.connection_type == other.connection_type
    }
}

/// The edge that a reference found in a page becomes: it points at the live
/// page that sits at the slug, or at no page where none does.
pub open spec fn resolve(
    log: RevisionLog,
    site_id: i64,
    page_id: i64,
    backlink: BacklinkView,
) -> EdgeView {
    EdgeView {
        site_id,
        from_page_id: page_id,
        to_page_id: log.page_at(site_id, backlink.slug),
        to_slug: backlink.slug,
        connection_type: backlink.connection_type,
    }
}

/// `edges` with `edge` added at the end, unless it is there already.
pub open spec fn with_edge(edges: Seq<EdgeView>, edge: EdgeView) -> Seq<EdgeView> {
    if edges.contains(edge) {
        edges
    } else {
        edges.push(edge)
    }
}

/// `edges` with the edges of all the references added, in their order, each
/// one once.
pub open spec fn with_references(
    edges: Seq<EdgeView>,
    log: RevisionLog,
    site_id: i64,
    page_id: i64,
    backlinks: Seq<BacklinkView>,
) -> Seq<EdgeView>
    decreases backlinks.len(),
{
    if backlinks.len() == 0 {
        edges
    } else {
        with_edge(
            with_references(edges, log, site_id, page_id, backlinks.drop_last()),
            resolve(log, site_id, page_id, backlinks.last()),
        )
    }
}

/// The edges that remain when a page's outgoing edges are taken away.
pub open spec fn without_page(edges: Seq<EdgeView>, site_id: i64, page_id: i64) -> Seq<EdgeView> {
    edges.filter(|e: EdgeView| !e.leaves(site_id, page_id))
}

/// The graph after a page's outgoing edges are replaced by those of the
/// references that its latest rendering found.
pub open spec fn replaced(
    edges: Seq<EdgeView>,
    log: RevisionLog,
    site_id: i64,
    page_id: i64,
    backlinks: Seq<BacklinkView>,
) -> Seq<EdgeView> {
    with_references(without_page(edges, site_id, page_id), log, site_id, page_id, backlinks)
}

proof fn lemma_filter_keeps_unique(edges: Seq<EdgeView>, keep: spec_fn(EdgeView) -> bool)
    requires
        edges.no_duplicates(),
    ensures
        edges.filter(keep).no_duplicates(),
    decreases edges.len(),
{
    reveal(Seq::filter);
    if edges.len() > 0 {
        let rest = edges.drop_last();
        lemma_filter_keeps_unique(rest, keep);
        if keep(edges.last()) && rest.filter(keep).contains(edges.last()) {
            rest.lemma_filter_contains_rev(keep, edges.last());
            let i = choose|i: int| 0 <= i < rest.len() && rest[i] == edges.last();
            assert(edges[i] == edges[edges.len() - 1]);
        }
    }
}

proof fn lemma_references_keep_unique(
    edges: Seq<EdgeView>,
    log: RevisionLog,
    site_id: i64,
    page_id: i64,
    backlinks: Seq<BacklinkView>,
)
    requires
        edges.no_duplicates(),
    ensures
        with_references(edges, log, site_id, page_id, backlinks).no_duplicates(),
    decreases backlinks.len(),
{
    if backlinks.len() > 0 {
        lemma_references_keep_unique(edges, log, site_id, page_id, backlinks.drop_last());
    }
}

/// Replacing a page's outgoing edges leaves no edge twice in a graph that
/// had none twice.
pub proof fn lemma_replaced_keeps_edges_unique(
    edges: Seq<EdgeView>,
    log: RevisionLog,
    site_id: i64,
    page_id: i64,
    backlinks: Seq<BacklinkView>,
)
    requires
        edges.no_duplicates(),
    ensures
        replaced(edges, log, site_id, page_id, backlinks).no_duplicates(),
{
    lemma_filter_keeps_unique(edges, |e: EdgeView| !e.leaves(site_id, page_id));
    lemma_references_keep_unique(
        without_page(edges, site_id, page_id),
        log,
        site_id,
        page_id,
        backlinks,
    );
}

proof fn lemma_references_leave_page(
    edges: Seq<EdgeView>,
    log: RevisionLog,
    site_id: i64,
    page_id: i64,
    backlinks: Seq<BacklinkView>,
)
    ensures
        without_page(with_references(edges, log, site_id, page_id, backlinks), site_id, page_id)
            == without_page(edges, site_id, page_id),
        forall|edge: EdgeView|
            !edge.leaves(site_id, page_id) ==> (#[trigger] with_references(
                edges,
                log,
                site_id,
                page_id,
                backlinks,
            ).contains(edge) <==> edges.contains(edge)),
    decreases backlinks.len(),
{
    if backlinks.len() > 0 {
        let shorter = with_references(edges, log, site_id, page_id, backlinks.drop_last());
        let added = resolve(log, site_id, page_id, backlinks.last());
        lemma_references_leave_page(edges, log, site_id, page_id, backlinks.drop_last());
        assert(added.leaves(site_id, page_id));
        shorter.lemma_filter_push(added, |e: EdgeView| !e.leaves(site_id, page_id));
        let longer = with_references(edges, log, site_id, page_id, backlinks);
        assert forall|edge: EdgeView| !edge.leaves(site_id, page_id) implies (longer.contains(
            edge,
        ) <==> edges.contains(edge)) by {
            if longer != shorter {
                assert(longer == shorter.push(added));
                if shorter.contains(edge) {
                    let i = choose|i: int| 0 <= i < shorter.len() && shorter[i] == edge;
                    assert(longer[i] == edge);
                }
                if longer.contains(edge) {
                    let i = choose|i: int| 0 <= i < longer.len() && longer[i] == edge;
                    assert(i < shorter.len());
                    assert(shorter[i] == edge);
                }
            }
        }
    }
}

proof fn lemma_without_page_twice(edges: Seq<EdgeView>, site_id: i64, page_id: i64)
    ensures
        without_page(without_page(edges, site_id, page_id), site_id, page_id) == without_page(
            edges,
            site_id,
            page_id,
        ),
    decreases edges.len(),
{
    let keep = |e: EdgeView| !e.leaves(site_id, page_id);
    reveal(Seq::filter);
    if edges.len() > 0 {
        lemma_without_page_twice(edges.drop_last(), site_id, page_id);
        if keep(edges.last()) {
            edges.drop_last().filter(keep).lemma_filter_push(edges.last(), keep);
        }
    }
}

/// Replacing a page's outgoing edges by the same references a second time
/// changes nothing: the update is no patch, it puts the page's edges anew.
pub proof fn lemma_update_idempotent(
    edges: Seq<EdgeView>,
    log: RevisionLog,
    site_id: i64,
    page_id: i64,
    backlinks: Seq<BacklinkView>,
)
    ensures
        replaced(
            replaced(edges, log, site_id, page_id, backlinks),
            log,
            site_id,
            page_id,
            backlinks,
        ) == replaced(edges, log, site_id, page_id, backlinks),
{
    lemma_references_leave_page(
        without_page(edges, site_id, page_id),
        log,
        site_id,
        page_id,
        backlinks,
    );
    lemma_without_page_twice(edges, site_id, page_id);
}

/// Replacing a page's outgoing edges leaves the edges of every other page
/// as they are: an edge that does not leave the page is in the graph
/// afterwards exactly if it was there before.
pub proof fn lemma_update_keeps_other_pages(
    edges: Seq<EdgeView>,
    log: RevisionLog,
    site_id: i64,
    page_id: i64,
    backlinks: Seq<BacklinkView>,
    edge: EdgeView,
)
    requires
        !edge.leaves(site_id, page_id),
    ensures
        replaced(edges, log, site_id, page_id, backlinks).contains(edge) <==> edges.contains(edge),
{
    let keep = |e: EdgeView| !e.leaves(site_id, page_id);
    let kept = without_page(edges, site_id, page_id);
    lemma_references_leave_page(kept, log, site_id, page_id, backlinks);
    if edges.contains(edge) {
        let i = choose|i: int| 0 <= i < edges.len() && edges[i] == edge;
        edges.lemma_filter_contains(keep, i);
    }
    if kept.contains(edge) {
        edges.lemma_filter_contains_rev(keep, edge);
    }
}

/// The edges between the pages of all sites.
pub struct LinkService {
    edges: Vec<LinkEdge>,
}

impl View for LinkService {
    type V = Seq<EdgeView>;

    closed spec fn view(&self) -> Seq<EdgeView> {
        self.edges@.map_values(|e: LinkEdge| e@)
    }
}

fn contains_edge(edges: &Vec<LinkEdge>, edge: &LinkEdge) -> (r: bool)
    ensures
        r == edges@.map_values(|e: LinkEdge| e@).contains(edge@),
{
    let ghost views = edges@.map_values(|e: LinkEdge| e@);
    let mut i: usize = 0;
    while i < edges.len()
        invariant
            i <= edges.len(),
            views == edges@.map_values(|e: LinkEdge| e@),
            forall|j: int| 0 <= j < i ==> views[j] != edge@,
        decreases edges.len() - i,
    {
        if edges[i].same(edge) {
            assert(views[i as int] == edge@);
            return true;
        }
        i += 1;
    }
    false
}

impl LinkService {
    /// No edge occurs twice: between two pages there is at most one edge
    /// of each kind.
    pub open spec fn wf(self) -> bool {
        self@.no_duplicates()
    }

    /// A graph without edges.
    pub fn new() -> (links: LinkService)
        ensures
            links.wf(),
            links@ == Seq::<EdgeView>::empty(),
    {
        let links = LinkService { edges: Vec::new() };
        assert(links@ =~= Seq::<EdgeView>::empty());
        links
    }

    /// How many edges the graph has.
    pub fn len(&self) -> (n: usize)
        ensures
            n == self@.len(),
    {
        self.edges.len()
    }

    /// Replaces the outgoing edges of a page by the edges of the references
    /// that its latest rendering found: all the old ones go, then each new
    /// one is added once. Edges of other pages stay as they are.
    pub fn update(
        &mut self,
        log: &RevisionLog,
        site_id: i64,
        page_id: i64,
        backlinks: &Vec<Backlink>,
    )
        requires
            log.wf(),
        ensures
            final(self)@ == replaced(
                old(self)@,
                *log,
                site_id,
                page_id,
                backlinks@.map_values(|b: Backlink| b@),
            ),
            old(self).wf() ==> final(self).wf(),
    {
        proof {
            if self.wf() {
                lemma_replaced_keeps_edges_unique(
                    self@,
                    *log,
                    site_id,
                    page_id,
                    backlinks@.map_values(|b: Backlink| b@),
                );
            }
        }
        let ghost before = self@;
        let ghost refs = backlinks@.map_values(|b: Backlink| b@);
        let ghost keep = |e: EdgeView| !e.leaves(site_id, page_id);
        let mut kept: Vec<LinkEdge> = Vec::new();
        let mut i: usize = 0;
        assert(before.take(0).filter(keep) =~= Seq::<EdgeView>::empty());
        while i < self.edges.len()
            invariant
                i <= self.edges.len(),
                before == self.edges@.map_values(|e: LinkEdge| e@),
                keep == |e: EdgeView| !e.leaves(site_id, page_id),
                kept@.map_values(|e: LinkEdge| e@) == before.take(i as int).filter(keep),
            decreases self.edges.len() - i,
        {
            let edge = &self.edges[i];
            let ghost prior = kept@.map_values(|e: LinkEdge| e@);
            proof {
                assert(before.take(i + 1) =~= before.take(i as int).push(before[i as int]));
                before.take(i as int).lemma_filter_push(before[i as int], keep);
            }
            if !(edge.site_id == site_id && edge.from_page_id == page_id) {
                kept.push(edge.clone());
                assert(kept@.map_values(|e: LinkEdge| e@) =~= prior.push(before[i as int]));
            }
            i += 1;
        }
        assert(before.take(before.len() as int) =~= before);
        let ghost base = kept@.map_values(|e: LinkEdge| e@);
        let mut k: usize = 0;
        assert(refs.take(0) =~= Seq::<BacklinkView>::empty());
        while k < backlinks.len()
            invariant
                log.wf(),
                k <= backlinks.len(),
                refs == backlinks@.map_values(|b: Backlink| b@),
                kept@.map_values(|e: LinkEdge| e@) == with_references(
                    base,
                    *log,
                    site_id,
                    page_id,
                    refs.take(k as int),
                ),
            decreases backlinks.len() - k,
        {
            let backlink = &backlinks[k];
            let edge = LinkEdge {
                site_id,
                from_page_id: page_id,
                to_page_id: log.page_at_slug(site_id, &backlink.slug),
                to_slug: backlink.slug.clone(),
                connection_type: backlink.connection_type,
            };
            let ghost prior = kept@.map_values(|e: LinkEdge| e@);
            proof {
                assert(refs.take(k + 1).drop_last() =~= refs.take(k as int));
                assert(refs.take(k + 1).last() == refs[k as int]);
                assert(edge@ == resolve(*log, site_id, page_id, refs[k as int]));
            }
            if !contains_edge(&kept, &edge) {
                kept.push(edge);
                assert(kept@.map_values(|e: LinkEdge| e@) =~= prior.push(edge@));
            }
            k += 1;
        }
        assert(refs.take(refs.len() as int) =~= refs);
        self.edges = kept;
    }
}

/// Which kinds of reference to a changed page make the referring page stale.
#[derive(Debug, Clone, Copy, PartialEq, Eq, Structural)]
pub struct Selection {
    pub links: bool,
    pub includes: bool,
    pub templates: bool,
}

impl Selection {
    /// Whether references of the given kind are selected.
    pub open spec fn selects(self, connection_type: ConnectionType) -> bool {
        match connection_type {
            ConnectionType::Link => self.links,
            ConnectionType::Include => self.includes,
            ConnectionType::Template => self.templates,
        }
    }

    /// Every kind of reference.
    pub fn all() -> (r: Selection)
        ensures
            r == (Selection { links: true, includes: true, templates: true }),
    {
        Selection { links: true, includes: true, templates: true }
    }

    /// No kind of reference.
    pub fn none() -> (r: Selection)
        ensures
            r == (Selection { links: false, includes: false, templates: false }),
    {
        Selection { links: false, includes: false, templates: false }
    }

    /// Whether references of the given kind are selected.
    pub fn includes_kind(&self, connection_type: ConnectionType) -> (r: bool)
        ensures
            r == self.selects(connection_type),
    {
        match connection_type {
            ConnectionType::Link => self.links,
            ConnectionType::Include => self.includes,
            ConnectionType::Template => self.templates,
        }
    }
}

/// Whether the page that `edge` leaves depends on the changed page: the edge
/// belongs to the site, leaves another page, and either points at the
/// changed page with a selected kind of reference, or points at no page and
/// names the slug given.
pub open spec fn depends_on(
    edge: EdgeView,
    site_id: i64,
    page_id: i64,
    selection: Selection,
    slug: Option<Seq<char>>,
) -> bool {
    &&& edge.site_id == site_id
    &&& edge.from_page_id != page_id
    &&& {
        ||| edge.to_page_id == Some(page_id) && selection.selects(edge.connection_type)
        ||| edge.to_page_id is None && slug == Some(edge.to_slug)
    }
}

/// The pages that depend on the changed page, each one once, in the order
/// in which the graph first names them.
pub open spec fn dependents(
    edges: Seq<EdgeView>,
    site_id: i64,
    page_id: i64,
    selection: Selection,
    slug: Option<Seq<char>>,
) -> Seq<i64>
    decreases edges.len(),
{
    if edges.len() == 0 {
        Seq::empty()
    } else {
        let rest = dependents(edges.drop_last(), site_id, page_id, selection, slug);
        let edge = edges.last();
        if depends_on(edge, site_id, page_id, selection, slug) && !rest.contains(
            edge.from_page_id,
        ) {
            rest.push(edge.from_page_id)
        } else {
            rest
        }
    }
}

/// Whether `page_ids` holds `page_id`.
pub fn contains_page(page_ids: &Vec<i64>, page_id: i64) -> (r: bool)
    ensures
        r == page_ids@.contains(page_id),
{
    let mut i: usize = 0;
    while i < page_ids.len()
        invariant
            i <= page_ids.len(),
            forall|j: int| 0 <= j < i ==> page_ids@[j] != page_id,
        decreases page_ids.len() - i,
    {
        if page_ids[i] == page_id {
            return true;
        }
        i += 1;
    }
    false
}

impl LinkService {
    /// The edges that leave a page, in the order of the graph.
    pub fn outgoing(&self, site_id: i64, page_id: i64) -> (r: Vec<LinkEdge>)
        ensures
            r@.map_values(|e: LinkEdge| e@) == self@.filter(
                |e: EdgeView| e.leaves(site_id, page_id),
            ),
    {
        let ghost all = self@;
        let ghost wanted = |e: EdgeView| e.leaves(site_id, page_id);
        let mut out: Vec<LinkEdge> = Vec::new();
        let mut i: usize = 0;
        assert(all.take(0).filter(wanted) =~= Seq::<EdgeView>::empty());
        while i < self.edges.len()
            invariant
                i <= self.edges.len(),
                all == self.edges@.map_values(|e: LinkEdge| e@),
                wanted == |e: EdgeView| e.leaves(site_id, page_id),
                out@.map_values(|e: LinkEdge| e@) == all.take(i as int).filter(wanted),
            decreases self.edges.len() - i,
        {
            let edge = &self.edges[i];
            let ghost prior = out@.map_values(|e: LinkEdge| e@);
            proof {
                assert(all.take(i + 1) =~= all.take(i as int).push(all[i as int]));
                all.take(i as int).lemma_filter_push(all[i as int], wanted);
            }
            if edge.site_id == site_id && edge.from_page_id == page_id {
                out.push(edge.clone());
                assert(out@.map_values(|e: LinkEdge| e@) =~= prior.push(all[i as int]));
            }
            i += 1;
        }
        assert(all.take(all.len() as int) =~= all);
        out
    }

    /// The edges that point at a page, in the order of the graph.
    pub fn incoming(&self, site_id: i64, page_id: i64) -> (r: Vec<LinkEdge>)
        ensures
            r@.map_values(|e: LinkEdge| e@) == self@.filter(
                |e: EdgeView| e.site_id == site_id && e.to_page_id == Some(page_id),
            ),
    {
        let ghost all = self@;
        let ghost wanted = |e: EdgeView| e.site_id == site_id && e.to_page_id == Some(page_id);
        let mut out: Vec<LinkEdge> = Vec::new();
        let mut i: usize = 0;
        assert(all.take(0).filter(wanted) =~= Seq::<EdgeView>::empty());
        while i < self.edges.len()
            invariant
                i <= self.edges.len(),
                all == self.edges@.map_values(|e: LinkEdge| e@),
                wanted == |e: EdgeView| e.site_id == site_id && e.to_page_id == Some(page_id),
                out@.map_values(|e: LinkEdge| e@) == all.take(i as int).filter(wanted),
            decreases self.edges.len() - i,
        {
            let edge = &self.edges[i];
            let ghost prior = out@.map_values(|e: LinkEdge| e@);
            proof {
                assert(all.take(i + 1) =~= all.take(i as int).push(all[i as int]));
                all.take(i as int).lemma_filter_push(all[i as int], wanted);
            }
            let hit = match edge.to_page_id {
                Some(target) => target == page_id,
                None => false,
            };
            if edge.site_id == site_id && hit {
                out.push(edge.clone());
                assert(out@.map_values(|e: LinkEdge| e@) =~= prior.push(all[i as int]));
            }
            i += 1;
        }
        assert(all.take(all.len() as int) =~= all);
        out
    }

    /// The pages that depend on a changed page: those with a selected kind
    /// of reference to it and, where a slug is given, those with a
    /// reference to that slug that found no page. Each page comes once.
    pub fn dependents(
        &self,
        site_id: i64,
        page_id: i64,
        selection: Selection,
        slug: Option<&String>,
    ) -> (r: Vec<i64>)
        ensures
            r@ == dependents(
                self@,
                site_id,
                page_id,
                selection,
                match slug {
                    Some(s) => Some(s@),
                    None => None,
                },
            ),
    {
        let ghost all = self@;
        let ghost named: Option<Seq<char>> = match slug {
            Some(s) => Some(s@),
            None => None,
        };
        let mut out: Vec<i64> = Vec::new();
        let mut i: usize = 0;
        assert(all.take(0) =~= Seq::<EdgeView>::empty());
        while i < self.edges.len()
            invariant
                i <= self.edges.len(),
                all == self.edges@.map_values(|e: LinkEdge| e@),
                named == match slug {
                    Some(s) => Some(s@),
                    None => None,
                },
                out@ == dependents(all.take(i as int), site_id, page_id, selection, named),
            decreases self.edges.len() - i,
        {
            let edge = &self.edges[i];
            proof {
                assert(all.take(i + 1).drop_last() =~= all.take(i as int));
                assert(all.take(i + 1).last() == edge@);
            }
            let points_here = match edge.to_page_id {
                Some(target) => target == page_id && selection.includes_kind(
                    edge.connection_type,
                ),
                None => match slug {
                    Some(s) => edge.to_slug == *s,
                    None => false,
                },
            };
            if edge.site_id == site_id && edge.from_page_id != page_id && points_here {
                if !contains_page(&out, edge.from_page_id) {
                    out.push(edge.from_page_id);
                }
            }
            i += 1;
        }
        assert(all.take(all.len() as int) =~= all);
        out
    }
}

/// No page occurs twice among the dependents, and the changed page itself
/// is never one of them.
pub proof fn lemma_dependents_distinct(
    edges: Seq<EdgeView>,
    site_id: i64,
    page_id: i64,
    selection: Selection,
    slug: Option<Seq<char>>,
)
    ensures
        dependents(edges, site_id, page_id, selection, slug).no_duplicates(),
        !dependents(edges, site_id, page_id, selection, slug).contains(page_id),
    decreases edges.len(),
{
    if edges.len() > 0 {
        lemma_dependents_distinct(edges.drop_last(), site_id, page_id, selection, slug);
    }
}

/// A page is among the dependents exactly if some edge of the graph makes it
/// depend on the changed page.
pub proof fn lemma_dependents_complete(
    edges: Seq<EdgeView>,
    site_id: i64,
    page_id: i64,
    selection: Selection,
    slug: Option<Seq<char>>,
    candidate: i64,
)
    ensures
        dependents(edges, site_id, page_id, selection, slug).contains(candidate) <==> exists|
            i: int,
        |
            0 <= i < edges.len() && depends_on(
                #[trigger] edges[i],
                site_id,
                page_id,
                selection,
                slug,
            ) && edges[i].from_page_id == candidate,
    decreases edges.len(),
{
    let found = dependents(edges, site_id, page_id, selection, slug);
    if edges.len() > 0 {
        let shorter = edges.drop_last();
        let rest = dependents(shorter, site_id, page_id, selection, slug);
        let edge = edges.last();
        lemma_dependents_complete(shorter, site_id, page_id, selection, slug, candidate);
        if found.contains(candidate) {
            if rest.contains(candidate) {
                let i = choose|i: int|
                    0 <= i < shorter.len() && depends_on(
                        #[trigger] shorter[i],
                        site_id,
                        page_id,
                        selection,
                        slug,
                    ) && shorter[i].from_page_id == candidate;
                assert(edges[i] == shorter[i]);
            } else {
                let at = choose|at: int| 0 <= at < found.len() && found[at] == candidate;
                assert(found == rest.push(edge.from_page_id));
                if at < rest.len() {
                    assert(rest[at] == candidate);
                }
                assert(edges[edges.len() - 1] == edge);
            }
        }
        if exists|i: int|
            0 <= i < edges.len() && depends_on(
                #[trigger] edges[i],
                site_id,
                page_id,
                selection,
                slug,
            ) && edges[i].from_page_id == candidate {
            let i = choose|i: int|
                0 <= i < edges.len() && depends_on(
                    #[trigger] edges[i],
                    site_id,
                    page_id,
                    selection,
                    slug,
                ) && edges[i].from_page_id == candidate;
            if i < shorter.len() {
                assert(shorter[i] == edges[i]);
                assert(rest.contains(candidate));
                if found != rest {
                    assert(found == rest.push(edge.from_page_id));
                    let at = choose|at: int| 0 <= at < rest.len() && rest[at] == candidate;
                    assert(found[at] == candidate);
                }
            } else {
                if rest.contains(candidate) {
                    let at = choose|at: int| 0 <= at < rest.len() && rest[at] == candidate;
                    assert(found == rest);
                } else {
                    assert(found == rest.push(candidate));
                    assert(found[rest.len() as int] == candidate);
                }
            }
        }
    }
}

} // verus!
