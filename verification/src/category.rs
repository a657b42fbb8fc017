//! Slugs and categories: a slug names its category before the first colon.

use vstd::prelude::*;

verus! {

/// Where the first colon of a text stands.
pub open spec fn first_colon(text: Seq<char>) -> Option<int>
    decreases text.len(),
{
    if text.len() == 0 {
        None
    } else if text[0] == ':' {
        Some(0)
    } else {
        match first_colon(text.drop_first()) {
            Some(i) => Some(i + 1),
            None => None,
        }
    }
}

/// The category that a slug names, if it names one: what stands before its
/// first colon.
pub open spec fn category_of(slug: Seq<char>) -> Option<Seq<char>> {
    match first_colon(slug) {
        Some(i) => Some(slug.take(i)),
        None => None,
    }
}

/// The name of the page within its category: what follows the first colon
/// of the slug, or the whole slug where it has none.
pub open spec fn page_of(slug: Seq<char>) -> Seq<char> {
    match first_colon(slug) {
        Some(i) => slug.skip(i + 1),
        None => slug,
    }
}

/// The first colon stands within the text, and no colon stands before it.
pub proof fn lemma_first_colon(text: Seq<char>)
    ensures
        match first_colon(text) {
            Some(i) => 0 <= i < text.len() && text[i] == ':' && forall|j: int|
                0 <= j < i ==> text[j] != ':',
            None => forall|j: int| 0 <= j < text.len() ==> text[j] != ':',
        },
    decreases text.len(),
{
    if text.len() > 0 && text[0] != ':' {
        let rest = text.drop_first();
        lemma_first_colon(rest);
        match first_colon(rest) {
            Some(i) => {
                assert forall|j: int| 0 <= j < i + 1 implies text[j] != ':' by {
                    if j > 0 {
                        assert(rest[j - 1] == text[j]);
                    }
                }
            },
            None => {
                assert forall|j: int| 0 <= j < text.len() implies text[j] != ':' by {
                    if j > 0 {
                        assert(rest[j - 1] == text[j]);
                    }
                }
            },
        }
    }
}

/// Splits a slug into its category, if it names one, and the name of the
/// page.
pub fn split_category<'a>(slug: &'a str) -> (r: (Option<&'a str>, &'a str))
    ensures
        r.0 is Some == category_of(slug@) is Some,
        r.0 is Some ==> r.0->0@ == category_of(slug@)->0,
        r.1@ == page_of(slug@),
{
    let n = slug.unicode_len();
    let mut i: usize = 0;
    assert(slug@.skip(0) =~= slug@);
    while i < n
        invariant
            i <= n,
            n == slug@.len(),
            first_colon(slug@) == match first_colon(slug@.skip(i as int)) {
                Some(k) => Some(k + i),
                None => None,
            },
        decreases n - i,
    {
        assert(slug@.skip(i as int).drop_first() =~= slug@.skip(i + 1));
        if slug.get_char(i) == ':' {
            let category = slug.substring_char(0, i);
            let page = slug.substring_char(i + 1, n);
            assert(slug@.subrange(0, i as int) =~= slug@.take(i as int));
            assert(slug@.subrange(i + 1, n as int) =~= slug@.skip(i + 1));
            return (Some(category), page);
        }
        i += 1;
    }
    (None, slug)
}

/// Splits a slug into the name of its category and the name of the page.
/// A slug that names no category belongs to the category `_default`.
pub fn split_category_name<'a>(slug: &'a str) -> (r: (&'a str, &'a str))
    ensures
        r.0@ == match category_of(slug@) {
            Some(category) => category,
            None => "_default"@,
        },
        r.1@ == page_of(slug@),
{
    let (category, page) = split_category(slug);
    match category {
        Some(category) => (category, page),
        None => ("_default", page),
    }
}

/// What the renderer is told of the page that it renders.
#[derive(Debug, PartialEq, Eq)]
pub struct PageInfo {
    /// The name of the page within its category.
    pub page: String,
    /// The category of the page, where its slug names one.
    pub category: Option<String>,
    /// The slug of the site.
    pub site: String,
    pub title: String,
    pub alt_title: Option<String>,
    pub tags: Vec<String>,
    /// The language of the site.
    pub language: String,
}

/// What the renderer is told of a page, as mathematical values.
pub struct PageInfoView {
    pub page: Seq<char>,
    pub category: Option<Seq<char>>,
    pub site: Seq<char>,
    pub title: Seq<char>,
    pub alt_title: Option<Seq<char>>,
    pub tags: Seq<Seq<char>>,
    pub language: Seq<char>,
}

impl View for PageInfo {
    type V = PageInfoView;

    open spec fn view(&self) -> PageInfoView {
        PageInfoView {
            page: self.page@,
            category: self.category.deep_view(),
            site: self.site@,
            title: self.title@,
            alt_title: self.alt_title.deep_view(),
            tags: self.tags.deep_view(),
            language: self.language@,
        }
    }
}

} // verus!
