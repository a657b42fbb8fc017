//! The records that the engine keeps: revisions and the enumerations in them.

use crate::util::{clone_bytes, clone_opt_string, clone_strings};
use vstd::prelude::*;

verus! {

/// What kind of change a page revision records.
#[derive(Debug, Clone, Copy, PartialEq, Eq, Structural)]
pub enum PageRevisionType {
    Create,
    Delete,
    Move,
    Regular,
    Undelete,
}

/// What kind of account a user is.
#[derive(Debug, Clone, Copy, PartialEq, Eq, Structural)]
pub enum UserType {
    Bot,
    Regular,
    System,
}

impl Default for UserType {
    fn default() -> (r: UserType)
        ensures
            r == UserType::Regular,
    {
        UserType::Regular
    }
}

/// What kind of change a file revision records.
#[derive(Debug, Clone, Copy, PartialEq, Eq, Structural)]
pub enum FileRevisionType {
    Create,
    Delete,
    Undelete,
    Update,
}

/// The set of revision fields that an edit changed.
#[derive(Debug, Clone, Copy, PartialEq, Eq, Structural)]
pub struct ChangeSet {
    pub wikitext: bool,
    pub title: bool,
    pub alt_title: bool,
    pub slug: bool,
    pub tags: bool,
    pub metadata: bool,
}

impl ChangeSet {
    /// The set that holds no field.
    pub open spec fn none() -> ChangeSet {
        ChangeSet {
            wikitext: false,
            title: false,
            alt_title: false,
            slug: false,
            tags: false,
            metadata: false,
        }
    }

    /// The set that holds every field.
    pub open spec fn all() -> ChangeSet {
        ChangeSet {
            wikitext: true,
            title: true,
            alt_title: true,
            slug: true,
            tags: true,
            metadata: true,
        }
    }

    /// The names of the fields in the set, in the order in which a revision
    /// lists them.
    pub open spec fn spec_names(self) -> Seq<Seq<char>> {
        (if self.wikitext {
            seq!["wikitext"@]
        } else {
            seq![]
        }) + (if self.title {
            seq!["title"@]
        } else {
            seq![]
        }) + (if self.alt_title {
            seq!["alt_title"@]
        } else {
            seq![]
        }) + (if self.slug {
            seq!["slug"@]
        } else {
            seq![]
        }) + (if self.tags {
            seq!["tags"@]
        } else {
            seq![]
        }) + (if self.metadata {
            seq!["metadata"@]
        } else {
            seq![]
        })
    }

    /// The empty set.
    pub fn empty() -> (r: ChangeSet)
        ensures
            r == ChangeSet::none(),
    {
        ChangeSet {
            wikitext: false,
            title: false,
            alt_title: false,
            slug: false,
            tags: false,
            metadata: false,
        }
    }

    /// The full set: a first revision changes everything.
    pub fn everything() -> (r: ChangeSet)
        ensures
            r == ChangeSet::all(),
    {
        ChangeSet {
            wikitext: true,
            title: true,
            alt_title: true,
            slug: true,
            tags: true,
            metadata: true,
        }
    }

    /// Whether no field changed.
    pub fn is_empty(&self) -> (r: bool)
        ensures
            r == (*self == ChangeSet::none()),
    {
        !self.wikitext && !self.title && !self.alt_title && !self.slug && !self.tags
            && !self.metadata
    }

    /// How many fields changed.
    pub fn len(&self) -> (n: usize)
        ensures
            n == self.spec_names().len(),
    {
        let mut n: usize = 0;
        if self.wikitext {
            n += 1;
        }
        if self.title {
            n += 1;
        }
        if self.alt_title {
            n += 1;
        }
        if self.slug {
            n += 1;
        }
        if self.tags {
            n += 1;
        }
        if self.metadata {
            n += 1;
        }
        n
    }

    /// The names of the changed fields.
    pub fn names(&self) -> (r: Vec<String>)
        ensures
            r.deep_view() == self.spec_names(),
    {
        let mut r: Vec<String> = Vec::new();
        if self.wikitext {
            r.push("wikitext".to_owned());
        }
        if self.title {
            r.push("title".to_owned());
        }
        if self.alt_title {
            r.push("alt_title".to_owned());
        }
        if self.slug {
            r.push("slug".to_owned());
        }
        if self.tags {
            r.push("tags".to_owned());
        }
        if self.metadata {
            r.push("metadata".to_owned());
        }
        assert(r.deep_view() =~= self.spec_names());
        r
    }
}

/// One numbered snapshot of a page.
#[derive(Debug, PartialEq, Eq)]
pub struct PageRevisionModel {
    pub revision_id: i64,
    pub revision_type: PageRevisionType,
    pub revision_number: i32,
    pub page_id: i64,
    pub site_id: i64,
    pub user_id: i64,
    pub changes: ChangeSet,
    pub wikitext_hash: Vec<u8>,
    pub compiled_hash: Vec<u8>,
    pub compiled_at: i64,
    pub compiled_generator: String,
    pub comments: String,
    pub hidden: Vec<String>,
    pub title: String,
    pub alt_title: Option<String>,
    pub slug: String,
    pub tags: Vec<String>,
    pub metadata: String,
}

/// What a revision holds, as mathematical values.
pub struct RevisionView {
    pub revision_id: i64,
    pub revision_type: PageRevisionType,
    pub revision_number: i32,
    pub page_id: i64,
    pub site_id: i64,
    pub user_id: i64,
    pub changes: ChangeSet,
    pub wikitext_hash: Seq<u8>,
    pub compiled_hash: Seq<u8>,
    pub compiled_at: i64,
    pub compiled_generator: Seq<char>,
    pub comments: Seq<char>,
    pub hidden: Seq<Seq<char>>,
    pub title: Seq<char>,
    pub alt_title: Option<Seq<char>>,
    pub slug: Seq<char>,
    pub tags: Seq<Seq<char>>,
    pub metadata: Seq<char>,
}

impl View for PageRevisionModel {
    type V = RevisionView;

    open spec fn view(&self) -> RevisionView {
        RevisionView {
            revision_id: self.revision_id,
            revision_type: self.revision_type,
            revision_number: self.revision_number,
            page_id: self.page_id,
            site_id: self.site_id,
            user_id: self.user_id,
            changes: self.changes,
            wikitext_hash: self.wikitext_hash@,
            compiled_hash: self.compiled_hash@,
            compiled_at: self.compiled_at,
            compiled_generator: self.compiled_generator@,
            comments: self.comments@,
            hidden: self.hidden.deep_view(),
            title: self.title@,
            alt_title: self.alt_title.deep_view(),
            slug: self.slug@,
            tags: self.tags.deep_view(),
            metadata: self.metadata@,
        }
    }
}

impl Clone for PageRevisionModel {
    fn clone(&self) -> (r: PageRevisionModel)
        ensures
            r@ == self@,
    {
        PageRevisionModel {
            revision_id: self.revision_id,
            revision_type: self.revision_type,
            revision_number: self.revision_number,
            page_id: self.page_id,
            site_id: self.site_id,
            user_id: self.user_id,
            changes: self.changes,
            wikitext_hash: clone_bytes(&self.wikitext_hash),
            compiled_hash: clone_bytes(&self.compiled_hash),
            compiled_at: self.compiled_at,
            compiled_generator: self.compiled_generator.clone(),
            comments: self.comments.clone(),
            hidden: clone_strings(&self.hidden),
            title: self.title.clone(),
            alt_title: clone_opt_string(&self.alt_title),
            slug: self.slug.clone(),
            tags: clone_strings(&self.tags),
            metadata: self.metadata.clone(),
        }
    }
}

impl RevisionView {
    /// Whether the page is deleted as of this revision.
    pub open spec fn is_tombstone(self) -> bool {
        self.revision_type == PageRevisionType::Delete
    }
}

} // verus!
