//! The revision log: for every page the append-only sequence of its revisions.

use crate::models::{PageRevisionModel, PageRevisionType, RevisionView};
use vstd::prelude::*;

verus! {

/// The revisions of one page, oldest first.
struct PageHistory {
    site_id: i64,
    page_id: i64,
    revisions: Vec<PageRevisionModel>,
}

impl PageHistory {
    spec fn views(self) -> Seq<RevisionView> {
        self.revisions@.map_values(|r: PageRevisionModel| r@)
    }

    spec fn live(self) -> bool {
        self.revisions@.len() > 0 && !self.revisions@.last()@.is_tombstone()
    }

    spec fn numbered(self, top: i64) -> bool {
        &&& 0 < self.revisions@.len() <= i32::MAX
        &&& forall|k: int|
            0 <= k < self.revisions@.len() ==> {
                let r = #[trigger] self.revisions@[k];
                &&& r.revision_number == k
                &&& r.site_id == self.site_id
                &&& r.page_id == self.page_id
                &&& 0 <= r.revision_id < top
            }
    }
}

/// Every page's history, with the identifier that the next revision gets.
pub struct RevisionLog {
    pages: Vec<PageHistory>,
    next_revision_id: i64,
}

/// In which direction a range of revisions runs from its starting number.
#[derive(Debug, Clone, Copy, PartialEq, Eq, Structural)]
pub enum RevisionDirection {
    /// Toward older revisions: the start and the numbers below it.
    Before,
    /// Toward newer revisions: the start and the numbers above it.
    After,
}

/// The number that a range starts from: the number given, or, where that
/// is negative, the number of the most recent of the `len` revisions.
pub open spec fn range_start(revision_number: i32, len: int) -> int {
    if revision_number >= 0 {
        revision_number as int
    } else {
        len - 1
    }
}

/// The revisions of `history` that a range request selects: the revision
/// it starts from and those that follow it in the direction asked for, as
/// many as there are and at most `limit`, the nearest to the start. They
/// stand oldest first. A start beyond the latest revision counts as the
/// latest toward older revisions, and selects nothing toward newer ones.
pub open spec fn range_of(
    history: Seq<RevisionView>,
    revision_number: i32,
    direction: RevisionDirection,
    limit: u64,
) -> Seq<RevisionView> {
    let len = history.len() as int;
    let start = range_start(revision_number, len);
    match direction {
        RevisionDirection::Before => {
            let end = if start + 1 < len {
                start + 1
            } else {
                len
            };
            history.subrange(
                if limit < end {
                    end - limit
                } else {
                    0
                },
                end,
            )
        },
        RevisionDirection::After => {
            let from = if len == 0 {
                0
            } else if start < len {
                start
            } else {
                len
            };
            history.subrange(
                from,
                if from + limit < len {
                    from + limit
                } else {
                    len
                },
            )
        },
    }
}

impl RevisionLog {
    spec fn slot_matches(self, i: int, site_id: i64, page_id: i64) -> bool {
        &&& 0 <= i < self.pages@.len()
        &&& self.pages@[i].site_id == site_id
        &&& self.pages@[i].page_id == page_id
    }

    /// The revisions of a page, oldest first; empty where the page does not
    /// exist.
    pub closed spec fn history(self, site_id: i64, page_id: i64) -> Seq<RevisionView> {
        if exists|i: int| self.slot_matches(i, site_id, page_id) {
            self.pages@[choose|i: int| self.slot_matches(i, site_id, page_id)].views()
        } else {
            Seq::empty()
        }
    }

    /// The identifier that the next revision gets.
    pub closed spec fn next_id(self) -> i64 {
        self.next_revision_id
    }

    /// Whether the page has any revision.
    pub open spec fn has_page(self, site_id: i64, page_id: i64) -> bool {
        self.history(site_id, page_id).len() > 0
    }

    /// The most recent revision of a page that exists.
    pub open spec fn latest(self, site_id: i64, page_id: i64) -> RevisionView {
        self.history(site_id, page_id).last()
    }

    /// Whether the page exists and its latest revision is no tombstone.
    pub open spec fn is_live(self, site_id: i64, page_id: i64) -> bool {
        self.has_page(site_id, page_id) && !self.latest(site_id, page_id).is_tombstone()
    }

    /// Whether `page_id` is a live page of the site that sits at `slug`.
    pub open spec fn sits_at(self, site_id: i64, page_id: i64, slug: Seq<char>) -> bool {
        self.is_live(site_id, page_id) && self.latest(site_id, page_id).slug == slug
    }

    /// Whether some live page of the site sits at `slug`.
    pub open spec fn slug_taken(self, site_id: i64, slug: Seq<char>) -> bool {
        exists|page_id: i64| self.sits_at(site_id, page_id, slug)
    }

    /// The live page of the site that sits at `slug`, if there is one.
    pub open spec fn page_at(self, site_id: i64, slug: Seq<char>) -> Option<i64> {
        if self.slug_taken(site_id, slug) {
            Some(choose|page_id: i64| self.sits_at(site_id, page_id, slug))
        } else {
            None
        }
    }

    /// Whether some revision has the identifier `revision_id`.
    pub open spec fn has_revision(self, revision_id: i64) -> bool {
        exists|site_id: i64, page_id: i64, k: int|
            0 <= k < self.history(site_id, page_id).len() && #[trigger] self.history(
                site_id,
                page_id,
            )[k].revision_id == revision_id
    }

    /// The invariant of the log. Every page's revisions carry the numbers
    /// 0, 1, 2, ... without a gap and the page's own keys; revision
    /// identifiers are below `next_id` and none occurs twice; no two live
    /// pages of a site sit at the same slug.
    pub closed spec fn wf(self) -> bool {
        &&& 0 <= self.next_revision_id
        &&& forall|i: int|
            0 <= i < self.pages@.len() ==> (#[trigger] self.pages@[i]).numbered(
                self.next_revision_id,
            )
        &&& forall|i: int, j: int|
            0 <= i < j < self.pages@.len() ==> !(#[trigger] self.pages@[i].site_id
                == #[trigger] self.pages@[j].site_id && self.pages@[i].page_id
                == self.pages@[j].page_id)
        &&& forall|i: int, k: int, j: int, l: int|
            0 <= i < self.pages@.len() && 0 <= k < self.pages@[i].revisions@.len() && 0 <= j
                < self.pages@.len() && 0 <= l < self.pages@[j].revisions@.len() && (i != j || k
                != l) ==> (#[trigger] self.pages@[i].revisions@[k]).revision_id
                != (#[trigger] self.pages@[j].revisions@[l]).revision_id
        &&& forall|i: int, j: int|
            0 <= i < self.pages@.len() && 0 <= j < self.pages@.len() && i != j
                && self.pages@[i].site_id == self.pages@[j].site_id && (
            #[trigger] self.pages@[i]).live() && (#[trigger] self.pages@[j]).live()
                ==> self.pages@[i].revisions@.last().slug@ != self.pages@[j].revisions@.last().slug@
    }

    proof fn lemma_history_at(self, i: int)
        requires
            self.wf(),
            0 <= i < self.pages@.len(),
        ensures
            self.history(self.pages@[i].site_id, self.pages@[i].page_id) == self.pages@[i].views(),
            self.pages@[i].views().len() == self.pages@[i].revisions@.len(),
    {
        let s = self.pages@[i].site_id;
        let p = self.pages@[i].page_id;
        assert(self.slot_matches(i, s, p));
        let c = choose|c: int| self.slot_matches(c, s, p);
        assert(self.slot_matches(c, s, p));
        if c < i {
            assert(!(self.pages@[c].site_id == self.pages@[i].site_id && self.pages@[c].page_id
                == self.pages@[i].page_id));
        } else if i < c {
            assert(!(self.pages@[i].site_id == self.pages@[c].site_id && self.pages@[i].page_id
                == self.pages@[c].page_id));
        }
    }

    proof fn lemma_history_slot(self, site_id: i64, page_id: i64) -> (i: int)
        requires
            self.wf(),
            self.has_page(site_id, page_id),
        ensures
            self.slot_matches(i, site_id, page_id),
            self.history(site_id, page_id) == self.pages@[i].views(),
    {
        choose|i: int| self.slot_matches(i, site_id, page_id)
    }

    /// A log without any page.
    pub fn new() -> (log: RevisionLog)
        ensures
            log.wf(),
            log.next_id() == 0,
            forall|site_id: i64, page_id: i64| #[trigger]
                log.history(site_id, page_id) == Seq::<RevisionView>::empty(),
    {
        RevisionLog { pages: Vec::new(), next_revision_id: 0 }
    }

    /// A log without any page, whose first revision gets the identifier
    /// `next_id`; a negative one counts as 0.
    pub fn starting_at(next_id: i64) -> (log: RevisionLog)
        ensures
            log.wf(),
            log.next_id() == if next_id < 0 {
                0
            } else {
                next_id
            },
            forall|site_id: i64, page_id: i64| #[trigger]
                log.history(site_id, page_id) == Seq::<RevisionView>::empty(),
    {
        RevisionLog {
            pages: Vec::new(),
            next_revision_id: if next_id < 0 {
                0
            } else {
                next_id
            },
        }
    }

    fn find_page(&self, site_id: i64, page_id: i64) -> (r: Option<usize>)
        requires
            self.wf(),
        ensures
            match r {
                Some(i) => self.slot_matches(i as int, site_id, page_id) && self.history(
                    site_id,
                    page_id,
                ) == self.pages@[i as int].views() && self.has_page(site_id, page_id),
                None => !self.has_page(site_id, page_id) && forall|i: int|
                    !self.slot_matches(i, site_id, page_id),
            },
    {
        let mut i: usize = 0;
        while i < self.pages.len()
            invariant
                self.wf(),
                i <= self.pages.len(),
                forall|j: int| 0 <= j < i ==> !self.slot_matches(j, site_id, page_id),
            decreases self.pages.len() - i,
        {
            if self.pages[i].site_id == site_id && self.pages[i].page_id == page_id {
                proof {
                    self.lemma_history_at(i as int);
                    assert(self.pages@[i as int].numbered(self.next_revision_id));
                }
                return Some(i);
            }
            i += 1;
        }
        None
    }

    /// How many revisions the page has.
    pub fn count(&self, site_id: i64, page_id: i64) -> (n: usize)
        requires
            self.wf(),
        ensures
            n == self.history(site_id, page_id).len(),
    {
        match self.find_page(site_id, page_id) {
            Some(i) => self.pages[i].revisions.len(),
            None => 0,
        }
    }

    /// Whether the page exists and is not deleted.
    pub fn page_is_live(&self, site_id: i64, page_id: i64) -> (r: bool)
        requires
            self.wf(),
        ensures
            r == self.is_live(site_id, page_id),
    {
        match self.find_page(site_id, page_id) {
            Some(i) => {
                let revisions = &self.pages[i].revisions;
                proof {
                    assert(self.pages@[i as int].numbered(self.next_revision_id));
                    assert(self.pages@[i as int].views().last() == revisions@.last()@);
                }
                revisions[revisions.len() - 1].revision_type != PageRevisionType::Delete
            },
            None => false,
        }
    }

    /// Whether some revision has the identifier `revision_id`.
    pub fn contains_revision(&self, revision_id: i64) -> (r: bool)
        requires
            self.wf(),
        ensures
            r == self.has_revision(revision_id),
    {
        let mut i: usize = 0;
        while i < self.pages.len()
            invariant
                self.wf(),
                i <= self.pages.len(),
                forall|a: int, k: int|
                    0 <= a < i && 0 <= k < self.pages@[a].revisions@.len() ==> (
                    #[trigger] self.pages@[a].revisions@[k]).revision_id != revision_id,
            decreases self.pages.len() - i,
        {
            let revisions = &self.pages[i].revisions;
            let mut k: usize = 0;
            while k < revisions.len()
                invariant
                    self.wf(),
                    i < self.pages.len(),
                    revisions@ == self.pages@[i as int].revisions@,
                    k <= revisions@.len(),
                    forall|l: int|
                        0 <= l < k ==> (#[trigger] self.pages@[i as int].revisions@[l]).revision_id
                            != revision_id,
                decreases revisions@.len() - k,
            {
                if revisions[k].revision_id == revision_id {
                    proof {
                        self.lemma_history_at(i as int);
                        let s0 = self.pages@[i as int].site_id;
                        let p0 = self.pages@[i as int].page_id;
                        assert(self.pages@[i as int].views()[k as int] == revisions@[k as int]@);
                        assert(self.history(s0, p0)[k as int].revision_id == revision_id);
                        assert(self.has_revision(revision_id));
                    }
                    return true;
                }
                k += 1;
            }
            i += 1;
        }
        proof {
            if self.has_revision(revision_id) {
                let (s, p, l) = choose|s: i64, p: i64, l: int|
                    0 <= l < self.history(s, p).len() && #[trigger] self.history(
                        s,
                        p,
                    )[l].revision_id == revision_id;
                let c = self.lemma_history_slot(s, p);
                assert(self.pages@[c].views()[l] == self.pages@[c].revisions@[l]@);
            }
        }
        false
    }

    /// The identifier that the next revision gets.
    pub fn next_revision_id(&self) -> (id: i64)
        ensures
            id == self.next_id(),
    {
        self.next_revision_id
    }

    /// The most recent revision of the page.
    pub fn get_latest(&self, site_id: i64, page_id: i64) -> (r: Option<PageRevisionModel>)
        requires
            self.wf(),
        ensures
            match r {
                Some(revision) => self.has_page(site_id, page_id) && revision@ == self.latest(
                    site_id,
                    page_id,
                ),
                None => !self.has_page(site_id, page_id),
            },
    {
        match self.find_page(site_id, page_id) {
            Some(i) => {
                let revisions = &self.pages[i].revisions;
                Some(revisions[revisions.len() - 1].clone())
            },
            None => None,
        }
    }

    /// The revision of the page with the given number.
    pub fn get(&self, site_id: i64, page_id: i64, revision_number: i32) -> (r: Option<
        PageRevisionModel,
    >)
        requires
            self.wf(),
        ensures
            match r {
                Some(revision) => 0 <= revision_number < self.history(site_id, page_id).len()
                    && revision@ == self.history(site_id, page_id)[revision_number as int],
                None => !(0 <= revision_number < self.history(site_id, page_id).len()),
            },
    {
        if revision_number < 0 {
            return None;
        }
        match self.find_page(site_id, page_id) {
            Some(i) => {
                let revisions = &self.pages[i].revisions;
                if (revision_number as usize) < revisions.len() {
                    Some(revisions[revision_number as usize].clone())
                } else {
                    None
                }
            },
            None => None,
        }
    }

    /// The revisions that a range request selects: from the given number,
    /// or from the most recent revision where the number is negative, in
    /// the direction asked for, at most `limit` of them, oldest first.
    pub fn get_range(
        &self,
        site_id: i64,
        page_id: i64,
        revision_number: i32,
        direction: RevisionDirection,
        limit: u64,
    ) -> (r: Vec<PageRevisionModel>)
        requires
            self.wf(),
        ensures
            r@.map_values(|m: PageRevisionModel| m@) == range_of(
                self.history(site_id, page_id),
                revision_number,
                direction,
                limit,
            ),
    {
        let mut out: Vec<PageRevisionModel> = Vec::new();
        let ghost wanted = range_of(
            self.history(site_id, page_id),
            revision_number,
            direction,
            limit,
        );
        match self.find_page(site_id, page_id) {
            Some(i) => {
                let revisions = &self.pages[i].revisions;
                let len = revisions.len();
                // A negative number stands for the most recent revision.
                let start: usize = if revision_number >= 0 {
                    revision_number as usize
                } else {
                    len - 1
                };
                let (from, to): (usize, usize) = match direction {
                    RevisionDirection::Before => {
                        let end = if start < len {
                            start + 1
                        } else {
                            len
                        };
                        (
                            if limit < end as u64 {
                                end - limit as usize
                            } else {
                                0
                            },
                            end,
                        )
                    },
                    RevisionDirection::After => {
                        let from = if start < len {
                            start
                        } else {
                            len
                        };
                        (
                            from,
                            if limit < (len - from) as u64 {
                                from + limit as usize
                            } else {
                                len
                            },
                        )
                    },
                };
                assert(wanted == self.pages@[i as int].views().subrange(from as int, to as int));
                let mut k: usize = from;
                while k < to
                    invariant
                        from <= k <= to <= len,
                        len == revisions@.len(),
                        revisions@ == self.pages@[i as int].revisions@,
                        out@.map_values(|m: PageRevisionModel| m@)
                            == self.pages@[i as int].views().subrange(from as int, k as int),
                    decreases to - k,
                {
                    let ghost before = out@;
                    out.push(revisions[k].clone());
                    proof {
                        let f = |m: PageRevisionModel| m@;
                        assert(out@.map_values(f) =~= before.map_values(f).push(
                            self.pages@[i as int].views()[k as int],
                        ));
                        assert(self.pages@[i as int].views().subrange(from as int, k + 1)
                            =~= self.pages@[i as int].views().subrange(from as int, k as int).push(
                            self.pages@[i as int].views()[k as int],
                        ));
                    }
                    k += 1;
                }
            },
            None => {
                assert(wanted =~= Seq::<RevisionView>::empty());
                assert(out@.map_values(|m: PageRevisionModel| m@) =~= Seq::<RevisionView>::empty());
            },
        }
        out
    }

    /// The live page of the site that sits at `slug`, if there is one.
    pub fn page_at_slug(&self, site_id: i64, slug: &String) -> (r: Option<i64>)
        requires
            self.wf(),
        ensures
            r == self.page_at(site_id, slug@),
            match r {
                Some(page_id) => self.sits_at(site_id, page_id, slug@),
                None => !self.slug_taken(site_id, slug@),
            },
    {
        let mut i: usize = 0;
        while i < self.pages.len()
            invariant
                self.wf(),
                i <= self.pages.len(),
                forall|j: int|
                    0 <= j < i ==> !(self.pages@[j].site_id == site_id && (
                    #[trigger] self.pages@[j]).live() && self.pages@[j].revisions@.last().slug@
                        == slug@),
            decreases self.pages.len() - i,
        {
            let page = &self.pages[i];
            proof {
                self.lemma_history_at(i as int);
                assert(page.numbered(self.next_revision_id));
            }
            if page.site_id == site_id {
                let last = &page.revisions[page.revisions.len() - 1];
                if last.revision_type != PageRevisionType::Delete && last.slug == *slug {
                    assert(page.views().last() == last@);
                    proof {
                        assert(self.sits_at(site_id, page.page_id, slug@));
                        lemma_slug_owner_unique(
                            *self,
                            site_id,
                            page.page_id,
                            self.page_at(site_id, slug@).unwrap(),
                            slug@,
                        );
                    }
                    return Some(page.page_id);
                }
            }
            i += 1;
        }
        proof {
            if self.slug_taken(site_id, slug@) {
                let q = choose|q: i64| self.sits_at(site_id, q, slug@);
                let j = self.lemma_history_slot(site_id, q);
                assert(self.pages@[j].numbered(self.next_revision_id));
                assert(self.pages@[j].views().last() == self.pages@[j].revisions@.last()@);
                assert(self.pages@[j].live());
            }
        }
        None
    }

    proof fn lemma_frame(self, before: RevisionLog, slot: int)
        requires
            before.wf(),
            self.wf(),
            0 <= slot < self.pages@.len(),
            before.pages@.len() <= self.pages@.len() <= before.pages@.len() + 1,
            self.pages@.len() > before.pages@.len() ==> slot == before.pages@.len(),
            forall|j: int|
                0 <= j < before.pages@.len() && j != slot ==> #[trigger] self.pages@[j]
                    == before.pages@[j],
            forall|j: int|
                0 <= j < before.pages@.len() ==> (#[trigger] self.pages@[j]).site_id
                    == before.pages@[j].site_id && self.pages@[j].page_id
                    == before.pages@[j].page_id,
        ensures
            forall|s: i64, p: i64|
                !(s == self.pages@[slot].site_id && p == self.pages@[slot].page_id)
                    ==> #[trigger] self.history(s, p) == before.history(s, p),
    {
        assert forall|s: i64, p: i64|
            !(s == self.pages@[slot].site_id && p == self.pages@[slot].page_id)
                implies #[trigger] self.history(s, p) == before.history(s, p) by {
            if exists|c: int| before.slot_matches(c, s, p) {
                let c = choose|c: int| before.slot_matches(c, s, p);
                before.lemma_history_at(c);
                assert(self.pages@[c] == before.pages@[c]);
                self.lemma_history_at(c);
            } else {
                if exists|c: int| self.slot_matches(c, s, p) {
                    let c = choose|c: int| self.slot_matches(c, s, p);
                    assert(self.slot_matches(c, s, p));
                    if c < before.pages@.len() {
                        assert(before.slot_matches(c, s, p));
                    }
                }
            }
        }
    }

    /// Whether `revision` may be appended: it continues its page's history
    /// with the next number and the next identifier, the count of the
    /// page's revisions still fits the type of a revision number, and, if
    /// it leaves the page live, no other live page of the site sits at its
    /// slug.
    pub open spec fn admits(self, revision: RevisionView) -> bool {
        &&& revision.revision_number == self.history(revision.site_id, revision.page_id).len()
        &&& revision.revision_number < i32::MAX
        &&& revision.revision_id == self.next_id()
        &&& self.next_id() < i64::MAX
        &&& !revision.is_tombstone() ==> forall|q: i64|
            q != revision.page_id ==> !self.sits_at(revision.site_id, q, revision.slug)
    }

    /// Appends a revision to the history of its page; one with the number 0
    /// starts a page.
    pub(crate) fn append(&mut self, revision: PageRevisionModel)
        requires
            old(self).wf(),
            old(self).admits(revision@),
        ensures
            final(self).wf(),
            final(self).next_id() == old(self).next_id() + 1,
            final(self).history(revision.site_id, revision.page_id) == old(self).history(
                revision.site_id,
                revision.page_id,
            ).push(revision@),
            forall|s: i64, p: i64|
                !(s == revision.site_id && p == revision.page_id)
                    ==> #[trigger] final(self).history(s, p) == old(self).history(s, p),
    {
        let ghost before = *self;
        let ghost rv = revision@;
        let site_id = revision.site_id;
        let page_id = revision.page_id;
        let found = self.find_page(site_id, page_id);
        let slot: usize = match found {
            Some(i) => {
                self.pages[i].revisions.push(revision);
                i
            },
            None => {
                let mut revisions: Vec<PageRevisionModel> = Vec::new();
                revisions.push(revision);
                self.pages.push(PageHistory { site_id, page_id, revisions });
                self.pages.len() - 1
            },
        };
        self.next_revision_id = self.next_revision_id + 1;
        proof {
            let i = slot as int;
            let f = |r: PageRevisionModel| r@;
            if found is Some {
                before.lemma_history_at(i);
                assert(before.pages@[i].numbered(before.next_revision_id));
                assert(self.pages@[i].revisions@ == before.pages@[i].revisions@.push(revision));
                assert(self.pages@[i].views() =~= before.pages@[i].views().push(rv));
            } else {
                assert(self.pages@[i].revisions@ =~= seq![revision]);
                assert(self.pages@[i].views() =~= Seq::<RevisionView>::empty().push(rv));
            }
            assert(self.pages@[i].numbered(self.next_revision_id));
            assert forall|j: int| 0 <= j < self.pages@.len() implies (
            #[trigger] self.pages@[j]).numbered(self.next_revision_id) by {
                if j != i {
                    assert(self.pages@[j] == before.pages@[j]);
                    assert(before.pages@[j].numbered(before.next_revision_id));
                }
            }
            assert forall|a: int, b: int| 0 <= a < b < self.pages@.len() implies !(
            #[trigger] self.pages@[a].site_id == #[trigger] self.pages@[b].site_id
                && self.pages@[a].page_id == self.pages@[b].page_id) by {
                if found is None {
                    if b == i {
                        assert(!before.slot_matches(a, site_id, page_id));
                    }
                }
            }
            assert forall|a: int, k: int, b: int, l: int|
                0 <= a < self.pages@.len() && 0 <= k < self.pages@[a].revisions@.len() && 0 <= b
                    < self.pages@.len() && 0 <= l < self.pages@[b].revisions@.len() && (a != b
                    || k != l) implies (#[trigger] self.pages@[a].revisions@[k]).revision_id != (
            #[trigger] self.pages@[b].revisions@[l]).revision_id by {
                let fresh_a = a == i && k == self.pages@[i].revisions@.len() - 1;
                let fresh_b = b == i && l == self.pages@[i].revisions@.len() - 1;
                if !fresh_a {
                    assert(before.pages@[a].numbered(before.next_revision_id));
                    assert(self.pages@[a].revisions@[k] == before.pages@[a].revisions@[k]);
                }
                if !fresh_b {
                    assert(before.pages@[b].numbered(before.next_revision_id));
                    assert(self.pages@[b].revisions@[l] == before.pages@[b].revisions@[l]);
                }
            }
            assert forall|a: int, b: int|
                0 <= a < self.pages@.len() && 0 <= b < self.pages@.len() && a != b
                    && self.pages@[a].site_id == self.pages@[b].site_id && (
                #[trigger] self.pages@[a]).live() && (
                #[trigger] self.pages@[b]).live() implies self.pages@[a].revisions@.last().slug@
                != self.pages@[b].revisions@.last().slug@ by {
                if a == i || b == i {
                    let o = if a == i {
                        b
                    } else {
                        a
                    };
                    assert(self.pages@[o] == before.pages@[o]);
                    before.lemma_history_at(o);
                    assert(before.pages@[o].numbered(before.next_revision_id));
                    assert(before.pages@[o].views().last() == before.pages@[o].revisions@.last()@);
                    assert(self.pages@[i].revisions@.last() == revision);
                    let q = before.pages@[o].page_id;
                    assert(q != page_id);
                    if self.pages@[a].revisions@.last().slug@
                        == self.pages@[b].revisions@.last().slug@ {
                        assert(before.sits_at(site_id, q, rv.slug));
                    }
                } else {
                    assert(self.pages@[a] == before.pages@[a]);
                    assert(self.pages@[b] == before.pages@[b]);
                }
            }
            assert(self.wf());
            self.lemma_history_at(i);
            self.lemma_frame(before, i);
        }
    }

    /// Records a new rendering on the latest revision of a page: its
    /// compiled hash and generator. Nothing else changes.
    pub(crate) fn set_compiled(
        &mut self,
        site_id: i64,
        page_id: i64,
        compiled_hash: Vec<u8>,
        compiled_generator: String,
    )
        requires
            old(self).wf(),
            old(self).has_page(site_id, page_id),
        ensures
            final(self).wf(),
            final(self).next_id() == old(self).next_id(),
            final(self).history(site_id, page_id) == old(self).history(site_id, page_id).update(
                old(self).history(site_id, page_id).len() - 1,
                (RevisionView {
                    compiled_hash: compiled_hash@,
                    compiled_generator: compiled_generator@,
                    ..old(self).latest(site_id, page_id)
                }),
            ),
            forall|s: i64, p: i64|
                !(s == site_id && p == page_id) ==> #[trigger] final(self).history(s, p)
                    == old(self).history(s, p),
    {
        let ghost before = *self;
        let found = self.find_page(site_id, page_id);
        let i = found.unwrap();
        proof {
            before.lemma_history_at(i as int);
            assert(before.pages@[i as int].numbered(before.next_revision_id));
        }
        let last = self.pages[i].revisions.len() - 1;
        self.pages[i].revisions[last].compiled_hash = compiled_hash;
        self.pages[i].revisions[last].compiled_generator = compiled_generator;
        proof {
            let i = i as int;
            let n = last as int;
            let changed = self.pages@[i].revisions@[n];
            let prior = before.pages@[i].revisions@[n];
            assert(self.pages@[i].revisions@ =~= before.pages@[i].revisions@.update(n, changed));
            assert(before.pages@[i].views().last() == prior@);
            assert(changed@ == (RevisionView {
                compiled_hash: compiled_hash@,
                compiled_generator: compiled_generator@,
                ..prior@
            }));
            assert(self.pages@[i].views() =~= before.pages@[i].views().update(n, changed@));
            self.lemma_keeps_wf(before, i, n);
            self.lemma_history_at(i);
            self.lemma_frame(before, i);
        }
    }

    /// A log that differs from a well-formed one in a single revision, which
    /// kept its numbers, keys, type and slug, is well-formed.
    proof fn lemma_keeps_wf(self, before: RevisionLog, i: int, n: int)
        requires
            before.wf(),
            self.next_revision_id == before.next_revision_id,
            self.pages@.len() == before.pages@.len(),
            0 <= i < before.pages@.len(),
            0 <= n < before.pages@[i].revisions@.len(),
            forall|j: int|
                0 <= j < before.pages@.len() && j != i ==> #[trigger] self.pages@[j]
                    == before.pages@[j],
            self.pages@[i].site_id == before.pages@[i].site_id,
            self.pages@[i].page_id == before.pages@[i].page_id,
            self.pages@[i].revisions@ == before.pages@[i].revisions@.update(
                n,
                self.pages@[i].revisions@[n],
            ),
            self.pages@[i].revisions@[n].revision_id == before.pages@[i].revisions@[n].revision_id,
            self.pages@[i].revisions@[n].revision_number
                == before.pages@[i].revisions@[n].revision_number,
            self.pages@[i].revisions@[n].site_id == before.pages@[i].revisions@[n].site_id,
            self.pages@[i].revisions@[n].page_id == before.pages@[i].revisions@[n].page_id,
            self.pages@[i].revisions@[n].revision_type
                == before.pages@[i].revisions@[n].revision_type,
            self.pages@[i].revisions@[n].slug@ == before.pages@[i].revisions@[n].slug@,
        ensures
            self.wf(),
    {
        assert forall|j: int| 0 <= j < self.pages@.len() implies (
        #[trigger] self.pages@[j]).numbered(self.next_revision_id) by {
            assert(before.pages@[j].numbered(before.next_revision_id));
            if j == i {
                assert forall|k: int| 0 <= k < self.pages@[i].revisions@.len() implies {
                    let r = #[trigger] self.pages@[i].revisions@[k];
                    &&& r.revision_number == k
                    &&& r.site_id == self.pages@[i].site_id
                    &&& r.page_id == self.pages@[i].page_id
                    &&& 0 <= r.revision_id < self.next_revision_id
                } by {
                    let r = before.pages@[i].revisions@[k];
                }
            }
        }
        assert forall|a: int, b: int| 0 <= a < b < self.pages@.len() implies !(
        #[trigger] self.pages@[a].site_id == #[trigger] self.pages@[b].site_id
            && self.pages@[a].page_id == self.pages@[b].page_id) by {
            assert(!(before.pages@[a].site_id == before.pages@[b].site_id
                && before.pages@[a].page_id == before.pages@[b].page_id));
        }
        assert forall|a: int, k: int, b: int, l: int|
            0 <= a < self.pages@.len() && 0 <= k < self.pages@[a].revisions@.len() && 0 <= b
                < self.pages@.len() && 0 <= l < self.pages@[b].revisions@.len() && (a != b || k
                != l) implies (#[trigger] self.pages@[a].revisions@[k]).revision_id != (
        #[trigger] self.pages@[b].revisions@[l]).revision_id by {
            assert(before.pages@[a].revisions@[k].revision_id
                != before.pages@[b].revisions@[l].revision_id);
        }
        assert forall|a: int, b: int|
            0 <= a < self.pages@.len() && 0 <= b < self.pages@.len() && a != b
                && self.pages@[a].site_id == self.pages@[b].site_id && (
            #[trigger] self.pages@[a]).live() && (
            #[trigger] self.pages@[b]).live() implies self.pages@[a].revisions@.last().slug@
            != self.pages@[b].revisions@.last().slug@ by {
            assert(before.pages@[a].live());
            assert(before.pages@[b].live());
        }
    }

    /// Replaces the list of hidden fields of the revision with the
    /// identifier `revision_id`, and says whether there is such a revision.
    /// No other field and no other revision changes.
    pub fn set_hidden(&mut self, revision_id: i64, hidden: Vec<String>) -> (found: bool)
        requires
            old(self).wf(),
        ensures
            final(self).wf(),
            final(self).next_id() == old(self).next_id(),
            found == old(self).has_revision(revision_id),
            forall|s: i64, p: i64| #[trigger]
                final(self).history(s, p).len() == old(self).history(s, p).len(),
            forall|s: i64, p: i64, k: int|
                0 <= k < old(self).history(s, p).len() ==> #[trigger] final(self).history(s, p)[k]
                    == if old(self).history(s, p)[k].revision_id == revision_id {
                    RevisionView { hidden: hidden.deep_view(), ..old(self).history(s, p)[k] }
                } else {
                    old(self).history(s, p)[k]
                },
    {
        let ghost before = *self;
        let mut i: usize = 0;
        while i < self.pages.len()
            invariant
                *self == before,
                before == *old(self),
                self.wf(),
                i <= self.pages.len(),
                forall|a: int, k: int|
                    0 <= a < i && 0 <= k < self.pages@[a].revisions@.len() ==> (
                    #[trigger] self.pages@[a].revisions@[k]).revision_id != revision_id,
            decreases self.pages.len() - i,
        {
            let mut k: usize = 0;
            while k < self.pages[i].revisions.len()
                invariant
                    *self == before,
                    before == *old(self),
                    self.wf(),
                    i < self.pages.len(),
                    k <= self.pages@[i as int].revisions@.len(),
                    forall|a: int, l: int|
                        0 <= a < i && 0 <= l < self.pages@[a].revisions@.len() ==> (
                        #[trigger] self.pages@[a].revisions@[l]).revision_id != revision_id,
                    forall|l: int|
                        0 <= l < k ==> (#[trigger] self.pages@[i as int].revisions@[l]).revision_id
                            != revision_id,
                decreases self.pages@[i as int].revisions@.len() - k,
            {
                if self.pages[i].revisions[k].revision_id == revision_id {
                    self.pages[i].revisions[k].hidden = hidden;
                    proof {
                        let i = i as int;
                        let n = k as int;
                        let changed = self.pages@[i].revisions@[n];
                        let prior = before.pages@[i].revisions@[n];
                        assert(self.pages@[i].revisions@ =~= before.pages@[i].revisions@.update(
                            n,
                            changed,
                        ));
                        assert(changed@ == (RevisionView { hidden: hidden.deep_view(), ..prior@ }));
                        self.lemma_keeps_wf(before, i, n);
                        self.lemma_history_at(i);
                        before.lemma_history_at(i);
                        self.lemma_frame(before, i);
                        let s0 = before.pages@[i].site_id;
                        let p0 = before.pages@[i].page_id;
                        assert(before.history(s0, p0)[n] == prior@);
                        assert(before.has_revision(revision_id));
                        assert(self.pages@[i].views() =~= before.pages@[i].views().update(
                            n,
                            changed@,
                        ));
                        assert forall|s: i64, p: i64, l: int|
                            0 <= l < before.history(s, p).len() implies #[trigger] self.history(
                            s,
                            p,
                        )[l] == if before.history(s, p)[l].revision_id == revision_id {
                            RevisionView { hidden: hidden.deep_view(), ..before.history(s, p)[l] }
                        } else {
                            before.history(s, p)[l]
                        } by {
                            if s == s0 && p == p0 {
                                if l != n {
                                    assert(before.pages@[i].revisions@[l].revision_id
                                        != before.pages@[i].revisions@[n].revision_id);
                                    assert(before.pages@[i].views()[l]
                                        == before.pages@[i].revisions@[l]@);
                                }
                            } else {
                                let c = before.lemma_history_slot(s, p);
                                assert(c != i);
                                assert(before.pages@[c].revisions@[l].revision_id
                                    != before.pages@[i].revisions@[n].revision_id);
                                assert(before.pages@[c].views()[l]
                                    == before.pages@[c].revisions@[l]@);
                            }
                        }
                    }
                    return true;
                }
                k += 1;
            }
            i += 1;
        }
        proof {
            if self.has_revision(revision_id) {
                let (s, p, l) = choose|s: i64, p: i64, l: int|
                    0 <= l < self.history(s, p).len() && #[trigger] self.history(
                        s,
                        p,
                    )[l].revision_id == revision_id;
                let c = self.lemma_history_slot(s, p);
                assert(self.pages@[c].views()[l] == self.pages@[c].revisions@[l]@);
            }
        }
        false
    }
}

/// The numbers of a page's revisions are 0, 1, 2, ... in order, without a
/// gap, and every revision carries the keys of its page.
pub proof fn lemma_numbers_contiguous(log: RevisionLog, site_id: i64, page_id: i64, k: int)
    requires
        log.wf(),
        0 <= k < log.history(site_id, page_id).len(),
    ensures
        log.history(site_id, page_id)[k].revision_number == k,
        log.history(site_id, page_id)[k].site_id == site_id,
        log.history(site_id, page_id)[k].page_id == page_id,
        0 <= log.history(site_id, page_id)[k].revision_id < log.next_id(),
        log.history(site_id, page_id).len() <= i32::MAX,
{
    let i = log.lemma_history_slot(site_id, page_id);
    assert(log.pages@[i].numbered(log.next_revision_id));
    let r = log.pages@[i].revisions@[k];
    assert(log.pages@[i].views()[k] == r@);
}

/// No two live pages of a site sit at the same slug.
pub proof fn lemma_slug_owner_unique(
    log: RevisionLog,
    site_id: i64,
    page_a: i64,
    page_b: i64,
    slug: Seq<char>,
)
    requires
        log.wf(),
        log.sits_at(site_id, page_a, slug),
        log.sits_at(site_id, page_b, slug),
    ensures
        page_a == page_b,
{
    let i = log.lemma_history_slot(site_id, page_a);
    let j = log.lemma_history_slot(site_id, page_b);
    assert(log.pages@[i].numbered(log.next_revision_id));
    assert(log.pages@[j].numbered(log.next_revision_id));
    assert(log.pages@[i].views().last() == log.pages@[i].revisions@.last()@);
    assert(log.pages@[j].views().last() == log.pages@[j].revisions@.last()@);
    assert(log.pages@[i].live());
    assert(log.pages@[j].live());
}

/// No two revisions share an identifier.
pub proof fn lemma_revision_ids_unique(
    log: RevisionLog,
    site_a: i64,
    page_a: i64,
    k: int,
    site_b: i64,
    page_b: i64,
    l: int,
)
    requires
        log.wf(),
        0 <= k < log.history(site_a, page_a).len(),
        0 <= l < log.history(site_b, page_b).len(),
        log.history(site_a, page_a)[k].revision_id == log.history(site_b, page_b)[l].revision_id,
    ensures
        site_a == site_b,
        page_a == page_b,
        k == l,
{
    let i = log.lemma_history_slot(site_a, page_a);
    let j = log.lemma_history_slot(site_b, page_b);
    assert(log.pages@[i].views()[k] == log.pages@[i].revisions@[k]@);
    assert(log.pages@[j].views()[l] == log.pages@[j].revisions@[l]@);
    if i != j || k != l {
        assert(log.pages@[i].revisions@[k].revision_id != log.pages@[j].revisions@[l].revision_id);
    }
}

/// A range holds the revisions nearest to its start. From the revision
/// `k` toward older ones it holds `k`, `k - 1`, ... down as far as the
/// limit allows; toward newer ones `k`, `k + 1`, ... up as far as the limit
/// allows; `k` being the number given, or the latest where that is
/// negative. They stand oldest first.
pub proof fn lemma_range_nearest_to_start(
    log: RevisionLog,
    site_id: i64,
    page_id: i64,
    revision_number: i32,
    direction: RevisionDirection,
    limit: u64,
)
    requires
        log.wf(),
        revision_number < log.history(site_id, page_id).len(),
        log.has_page(site_id, page_id),
    ensures
        ({
            let history = log.history(site_id, page_id);
            let k = range_start(revision_number, history.len() as int);
            let range = range_of(history, revision_number, direction, limit);
            let most = match direction {
                RevisionDirection::Before => k + 1,
                RevisionDirection::After => history.len() - k,
            };
            let first = match direction {
                RevisionDirection::Before => k - range.len() + 1,
                RevisionDirection::After => k,
            };
            &&& range.len() == if limit < most {
                limit as int
            } else {
                most
            }
            &&& forall|j: int|
                0 <= j < range.len() ==> (#[trigger] range[j]).revision_number == first + j
        }),
{
    let history = log.history(site_id, page_id);
    let range = range_of(history, revision_number, direction, limit);
    let k = range_start(revision_number, history.len() as int);
    let first = match direction {
        RevisionDirection::Before => k - range.len() + 1,
        RevisionDirection::After => k,
    };
    assert forall|j: int| 0 <= j < range.len() implies (#[trigger] range[j]).revision_number
        == first + j by {
        lemma_numbers_contiguous(log, site_id, page_id, first + j);
    }
}

} // verus!
