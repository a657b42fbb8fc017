//! The change classifier: which fields an edit changes, and what has to be
//! done about it.

use crate::hash::{sha512_hash, text_digest};
use crate::link::Selection;
use crate::models::{ChangeSet, PageRevisionModel, RevisionView};
use crate::provided::ProvidedValue;
use crate::revision::structs::{BodyView, CreateRevisionBody};
use crate::util::{bytes_eq, opt_string_eq, strings_eq};
use vstd::prelude::*;

verus! {

/// The fields in which an edit differs from the previous revision. A field
/// that the edit leaves out, or sets to what is there, has not changed; the
/// wikitext is compared by its hash.
pub open spec fn changes_of(previous: RevisionView, body: BodyView) -> ChangeSet {
    ChangeSet {
        wikitext: body.wikitext is Some && text_digest(body.wikitext->0)
            != previous.wikitext_hash,
        title: body.title is Some && body.title->0 != previous.title,
        alt_title: body.alt_title is Some && body.alt_title->0 != previous.alt_title,
        slug: body.slug is Some && body.slug->0 != previous.slug,
        tags: body.tags is Some && body.tags->0 != previous.tags,
        metadata: body.metadata is Some && body.metadata->0 != previous.metadata,
    }
}

/// What an edit asks for besides the new revision itself.
#[derive(Debug, Clone, Copy, PartialEq, Eq, Structural)]
pub struct RevisionTasks {
    /// Render the page anew and replace its outgoing edges.
    pub render_and_update_links: bool,
    /// Re-render the pages that link to this one.
    pub rerender_incoming_links: bool,
    /// Re-render the pages that include this one.
    pub rerender_outgoing_includes: bool,
    /// Re-render the pages that use this one as their template.
    pub rerender_templates: bool,
}

/// The tasks that a set of changed fields calls for. The page is rendered
/// anew when its wikitext, title, alternative title, tags or slug changed.
/// Pages that link to it show its title, so they follow a change of title
/// or alternative title; pages that include it or use it as a template
/// carry its content, so they follow a change of wikitext or tags; a change
/// of slug concerns them all. A change of metadata alone calls for nothing.
pub open spec fn tasks_of(changes: ChangeSet) -> RevisionTasks {
    RevisionTasks {
        render_and_update_links: changes.wikitext || changes.title || changes.alt_title
            || changes.tags || changes.slug,
        rerender_incoming_links: changes.title || changes.alt_title || changes.slug,
        rerender_outgoing_includes: changes.wikitext || changes.tags || changes.slug,
        rerender_templates: changes.wikitext || changes.tags || changes.slug,
    }
}

impl RevisionTasks {
    /// The kinds of reference whose holders are to be re-rendered.
    pub open spec fn selection(self) -> Selection {
        Selection {
            links: self.rerender_incoming_links,
            includes: self.rerender_outgoing_includes,
            templates: self.rerender_templates,
        }
    }

    /// No task at all.
    pub open spec fn nothing() -> RevisionTasks {
        RevisionTasks {
            render_and_update_links: false,
            rerender_incoming_links: false,
            rerender_outgoing_includes: false,
            rerender_templates: false,
        }
    }

    /// The tasks that a set of changed fields calls for.
    pub fn from_changes(changes: ChangeSet) -> (tasks: RevisionTasks)
        ensures
            tasks == tasks_of(changes),
    {
        RevisionTasks {
            render_and_update_links: changes.wikitext || changes.title || changes.alt_title
                || changes.tags || changes.slug,
            rerender_incoming_links: changes.title || changes.alt_title || changes.slug,
            rerender_outgoing_includes: changes.wikitext || changes.tags || changes.slug,
            rerender_templates: changes.wikitext || changes.tags || changes.slug,
        }
    }

    /// The tasks that an edit of the given revision calls for.
    pub fn determine(previous: &PageRevisionModel, body: &CreateRevisionBody) -> (tasks:
        RevisionTasks)
        ensures
            tasks == tasks_of(changes_of(previous@, body@)),
    {
        Self::from_changes(classify(previous, body))
    }

    /// Whether there is nothing to do.
    pub fn is_empty(&self) -> (r: bool)
        ensures
            r == (*self == RevisionTasks::nothing()),
    {
        !self.render_and_update_links && !self.rerender_incoming_links
            && !self.rerender_outgoing_includes && !self.rerender_templates
    }

    /// The kinds of reference whose holders are to be re-rendered.
    pub fn to_selection(&self) -> (r: Selection)
        ensures
            r == self.selection(),
    {
        Selection {
            links: self.rerender_incoming_links,
            includes: self.rerender_outgoing_includes,
            templates: self.rerender_templates,
        }
    }
}

/// Compares an edit with the previous revision, field by field.
pub fn classify(previous: &PageRevisionModel, body: &CreateRevisionBody) -> (changes: ChangeSet)
    ensures
        changes == changes_of(previous@, body@),
{
    let wikitext = match &body.wikitext {
        ProvidedValue::SetTo(text) => {
            let hash = sha512_hash(text);
            !bytes_eq(&hash, &previous.wikitext_hash)
        },
        ProvidedValue::Unset => false,
    };
    let title = match &body.title {
        ProvidedValue::SetTo(title) => *title != previous.title,
        ProvidedValue::Unset => false,
    };
    let alt_title = match &body.alt_title {
        ProvidedValue::SetTo(alt_title) => !opt_string_eq(alt_title, &previous.alt_title),
        ProvidedValue::Unset => false,
    };
    let slug = match &body.slug {
        ProvidedValue::SetTo(slug) => *slug != previous.slug,
        ProvidedValue::Unset => false,
    };
    let tags = match &body.tags {
        ProvidedValue::SetTo(tags) => !strings_eq(tags, &previous.tags),
        ProvidedValue::Unset => false,
    };
    let metadata = match &body.metadata {
        ProvidedValue::SetTo(metadata) => *metadata != previous.metadata,
        ProvidedValue::Unset => false,
    };
    ChangeSet { wikitext, title, alt_title, slug, tags, metadata }
}

/// An edit that sets every field to what the previous revision holds
/// changes nothing, and so does one that sets no field.
pub proof fn lemma_same_fields_change_nothing(previous: RevisionView, body: BodyView)
    requires
        body.wikitext is Some ==> text_digest(body.wikitext->0) == previous.wikitext_hash,
        body.title is Some ==> body.title->0 == previous.title,
        body.alt_title is Some ==> body.alt_title->0 == previous.alt_title,
        body.slug is Some ==> body.slug->0 == previous.slug,
        body.tags is Some ==> body.tags->0 == previous.tags,
        body.metadata is Some ==> body.metadata->0 == previous.metadata,
    ensures
        changes_of(previous, body) == ChangeSet::none(),
        tasks_of(changes_of(previous, body)) == RevisionTasks::nothing(),
{
}

} // verus!
