//! What the callers of the revision service hand in and get back.

use crate::link::{Backlink, BacklinkView};
use crate::outdate::OutdateReport;
use crate::provided::ProvidedValue;
use vstd::prelude::*;

verus! {

/// A problem that the renderer met and got over.
#[derive(Debug, PartialEq, Eq)]
pub struct ParseWarning {
    pub token: String,
    pub rule: String,
    pub span_start: usize,
    pub span_end: usize,
    pub kind: String,
}

/// What the renderer made of a page.
#[derive(Debug)]
pub struct RenderOutput {
    /// The compiled page.
    pub html_output: String,
    /// The problems that the renderer met.
    pub warnings: Vec<ParseWarning>,
    /// The name and version of the renderer.
    pub compiled_generator: String,
    /// When the rendering was done, in seconds since the epoch.
    pub compiled_at: i64,
    /// The references to other pages that the renderer found.
    pub backlinks: Vec<Backlink>,
}

/// A rendering as mathematical values.
pub struct RenderView {
    pub html_output: Seq<char>,
    pub warnings: Seq<ParseWarning>,
    pub compiled_generator: Seq<char>,
    pub compiled_at: i64,
    pub backlinks: Seq<BacklinkView>,
}

impl View for RenderOutput {
    type V = RenderView;

    open spec fn view(&self) -> RenderView {
        RenderView {
            html_output: self.html_output@,
            warnings: self.warnings@,
            compiled_generator: self.compiled_generator@,
            compiled_at: self.compiled_at,
            backlinks: self.backlinks@.map_values(|b: Backlink| b@),
        }
    }
}

/// An edit of a page: who makes it, why, and what it sets.
#[derive(Debug)]
pub struct CreateRevision {
    pub user_id: i64,
    pub comments: String,
    pub body: CreateRevisionBody,
}

/// The fields of a page that an edit may set. One left `Unset` stays as the
/// previous revision has it.
#[derive(Debug)]
pub struct CreateRevisionBody {
    pub wikitext: ProvidedValue<String>,
    pub title: ProvidedValue<String>,
    pub alt_title: ProvidedValue<Option<String>>,
    pub slug: ProvidedValue<String>,
    pub tags: ProvidedValue<Vec<String>>,
    pub metadata: ProvidedValue<String>,
}

/// An edit as mathematical values: `None` for a field that is left as it is.
pub struct BodyView {
    pub wikitext: Option<Seq<char>>,
    pub title: Option<Seq<char>>,
    pub alt_title: Option<Option<Seq<char>>>,
    pub slug: Option<Seq<char>>,
    pub tags: Option<Seq<Seq<char>>>,
    pub metadata: Option<Seq<char>>,
}

impl View for CreateRevisionBody {
    type V = BodyView;

    open spec fn view(&self) -> BodyView {
        BodyView {
            wikitext: match self.wikitext {
                ProvidedValue::SetTo(v) => Some(v@),
                ProvidedValue::Unset => None,
            },
            title: match self.title {
                ProvidedValue::SetTo(v) => Some(v@),
                ProvidedValue::Unset => None,
            },
            alt_title: match self.alt_title {
                ProvidedValue::SetTo(v) => Some(v.deep_view()),
                ProvidedValue::Unset => None,
            },
            slug: match self.slug {
                ProvidedValue::SetTo(v) => Some(v@),
                ProvidedValue::Unset => None,
            },
            tags: match self.tags {
                ProvidedValue::SetTo(v) => Some(v.deep_view()),
                ProvidedValue::Unset => None,
            },
            metadata: match self.metadata {
                ProvidedValue::SetTo(v) => Some(v@),
                ProvidedValue::Unset => None,
            },
        }
    }
}

impl Default for CreateRevisionBody {
    /// The edit that sets nothing.
    fn default() -> (body: CreateRevisionBody)
        ensures
            body@ == (BodyView {
                wikitext: None,
                title: None,
                alt_title: None,
                slug: None,
                tags: None,
                metadata: None,
            }),
    {
        CreateRevisionBody {
            wikitext: ProvidedValue::Unset,
            title: ProvidedValue::Unset,
            alt_title: ProvidedValue::Unset,
            slug: ProvidedValue::Unset,
            tags: ProvidedValue::Unset,
            metadata: ProvidedValue::Unset,
        }
    }
}

/// The first revision of a page: every field is given.
#[derive(Debug)]
pub struct CreateFirstRevision {
    pub user_id: i64,
    pub comments: String,
    pub wikitext: String,
    pub title: String,
    pub alt_title: Option<String>,
    pub slug: String,
}

/// What an edit that made a revision is answered with.
#[derive(Debug, PartialEq, Eq)]
pub struct CreateRevisionOutput {
    pub revision_id: i64,
    pub revision_number: i32,
    pub parser_warnings: Option<Vec<ParseWarning>>,
    /// What became of the pages that depend on the edited one.
    pub outdate: OutdateReport,
}

/// What the creation of a page is answered with.
#[derive(Debug, PartialEq, Eq)]
pub struct CreateFirstRevisionOutput {
    pub revision_id: i64,
    pub parser_warnings: Vec<ParseWarning>,
    /// What became of the pages that were waiting for the new one.
    pub outdate: OutdateReport,
}

/// A redaction: who makes it, and which fields of the revision are hidden
/// from now on.
#[derive(Debug)]
pub struct UpdateRevision {
    pub user_id: i64,
    pub hidden: Vec<String>,
}

} // verus!
