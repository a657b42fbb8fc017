//! The view service: what a request for a page of a site is answered with.

use crate::api::str_eq;
use crate::category::{category_of, page_of, split_category, PageInfo, PageInfoView};
use crate::error::Error;
use crate::locale::{parsed_locale, validate_locale};
use crate::models::PageRevisionModel;
use crate::revision::service::ServiceContext;
use vstd::prelude::*;

verus! {

/// The normal form of a slug, as `wikidot_normalize` computes it.
pub uninterp spec fn normalized(text: Seq<char>) -> Seq<char>;

/// A text with a colon in the place of every semicolon.
pub open spec fn with_colons(text: Seq<char>) -> Seq<char> {
    text.map_values(
        |c: char|
            if c == ';' {
                ':'
            } else {
                c
            },
    )
}

/// Calls `wikidot_normalize::normalize`. Trusted: the text is replaced by
/// its normal form, which depends on the text alone.
#[verifier::external_body]
fn normalize(text: &mut String)
    ensures
        final(text)@ == normalized(old(text)@),
{
    wikidot_normalize::normalize(text)
}

/// A copy of the text with a colon in the place of every semicolon.
pub fn colons_for_semicolons(text: &str) -> (r: String)
    ensures
        r@ == with_colons(text@),
{
    let n = text.unicode_len();
    let mut out = String::new();
    let mut i: usize = 0;
    while i < n
        invariant
            i <= n,
            n == text@.len(),
            out@ == with_colons(text@).take(i as int),
        decreases n - i,
    {
        let ghost before = out@;
        if text.get_char(i) == ';' {
            let colon = ":";
            proof {
                reveal_strlit(":");
                assert(colon@ =~= seq![':']);
            }
            out.append(colon);
        } else {
            out.append(text.substring_char(i, i + 1));
        }
        assert(out@ =~= with_colons(text@).take(i + 1));
        i += 1;
    }
    assert(with_colons(text@).take(n as int) =~= with_colons(text@));
    out
}

/// The normal form of a text.
pub fn normalize_text(text: String) -> (r: String)
    ensures
        r@ == normalized(text@),
{
    let mut text = text;
    normalize(&mut text);
    text
}

/// Where a request for `slug` is to be sent instead: to its normal form,
/// with colons for semicolons, unless the slug is that already.
pub open spec fn page_redirect(slug: Seq<char>) -> Option<Seq<char>> {
    let target = normalized(with_colons(slug));
    if slug == target {
        None
    } else {
        Some(target)
    }
}

/// The part of a route that names a page, and what follows it.
#[derive(Debug)]
pub struct PageRoute {
    pub slug: String,
    pub extra: String,
}

/// What a page view shows of a page that exists.
#[derive(Debug)]
pub struct PageContents {
    pub page_revision: PageRevisionModel,
    pub wikitext: String,
    pub compiled_html: String,
}

/// What a request for a page asks for.
#[derive(Debug)]
pub struct GetPageView {
    pub domain: String,
    pub locale: String,
    pub route: Option<PageRoute>,
    pub session_token: Option<String>,
}

/// The site that a request came in on, as far as a page view needs it.
#[derive(Debug)]
pub struct SiteInfo {
    pub site_id: i64,
    pub slug: String,
    pub default_page: String,
    /// The domain under which the site wants to be reached.
    pub preferred_domain: String,
}

/// Who looks at a page, and where: the site of the request, the domain to
/// send the request to instead, if any, and the session of the user, if
/// the request came with one. The library carries a session and does not
/// look into it.
#[derive(Debug)]
pub struct Viewer<U> {
    pub site: SiteInfo,
    pub redirect_site: Option<String>,
    pub user_session: Option<U>,
}

/// The domain to send a request to instead: the one that the site
/// prefers, unless the request came in on it.
pub open spec fn site_redirect(site: SiteInfo, domain: Seq<char>) -> Option<Seq<char>> {
    if domain == site.preferred_domain@ {
        None
    } else {
        Some(site.preferred_domain@)
    }
}

/// What a page view shows.
#[derive(Debug)]
pub enum PageViewContents {
    /// The page exists: its latest revision with both texts.
    Found { page_id: i64, contents: PageContents },
    /// No page is there: the page that says so is to be rendered with
    /// this information.
    Missing { page_info: PageInfo },
}

/// What a request for a page is answered with.
#[derive(Debug)]
pub struct GetPageViewOutput<U> {
    pub viewer: Viewer<U>,
    /// What follows the slug in the route.
    pub options: String,
    /// The slug to send the request to instead, if any.
    pub redirect_page: Option<String>,
    pub contents: PageViewContents,
}

/// The slug that a request asks for.
pub open spec fn requested_slug(site: SiteInfo, input: GetPageView) -> Seq<char> {
    match input.route {
        Some(page_route) => page_route.slug@,
        None => site.default_page@,
    }
}

/// What the page that stands for a missing one is rendered with: the
/// names from the slug asked for, the name of the page for a title, no
/// tags, the language of the request.
pub open spec fn missing_page_info(site: SiteInfo, input: GetPageView) -> PageInfoView {
    let slug = requested_slug(site, input);
    PageInfoView {
        page: page_of(slug),
        category: category_of(slug),
        site: site.slug@,
        title: page_of(slug),
        alt_title: None,
        tags: Seq::empty(),
        language: input.locale@,
    }
}

/// The service that puts together what a page view shows.
#[derive(Debug)]
pub struct ViewService;

impl ViewService {
    /// The slug and the rest of the route that a request asks for: those
    /// of its route, or the site's default page and nothing where it has
    /// none.
    pub fn route_of<'a>(route: &'a Option<PageRoute>, default_page: &'a String) -> (r: (
        &'a str,
        &'a str,
    ))
        ensures
            r.0@ == match route {
                Some(page_route) => page_route.slug@,
                None => default_page@,
            },
            r.1@ == match route {
                Some(page_route) => page_route.extra@,
                None => Seq::<char>::empty(),
            },
    {
        match route {
            Some(page_route) => (page_route.slug.as_str(), page_route.extra.as_str()),
            None => {
                let nothing = "";
                proof {
                    reveal_strlit("");
                    assert(nothing@ =~= Seq::<char>::empty());
                }
                (default_page.as_str(), nothing)
            },
        }
    }

    /// Whether a request carries a session token to look up: one that is
    /// there and not empty.
    pub fn has_session(session_token: Option<&str>) -> (r: bool)
        ensures
            r == match session_token {
                Some(token) => token@.len() > 0,
                None => false,
            },
    {
        match session_token {
            None => false,
            Some(token) => !token.is_empty(),
        }
    }

    /// The latest revision of a page with its wikitext and its compiled
    /// page.
    pub fn page_contents(ctx: &ServiceContext, site_id: i64, page_id: i64) -> (r: Result<
        PageContents,
        Error,
    >)
        requires
            ctx.wf(),
        ensures
            match r {
                Ok(contents) => {
                    &&& ctx.revisions.has_page(site_id, page_id)
                    &&& contents.page_revision@ == ctx.revisions.latest(site_id, page_id)
                    &&& ctx.texts@.contains_key(contents.page_revision@.wikitext_hash)
                    &&& ctx.texts@.contains_key(contents.page_revision@.compiled_hash)
                    &&& contents.wikitext@ == ctx.texts@[contents.page_revision@.wikitext_hash]
                    &&& contents.compiled_html@ == ctx.texts@[contents.page_revision@.compiled_hash]
                },
                Err(error) => {
                    &&& error == Error::NotFound
                    &&& !ctx.revisions.has_page(site_id, page_id) || !ctx.texts@.contains_key(
                        ctx.revisions.latest(site_id, page_id).wikitext_hash,
                    ) || !ctx.texts@.contains_key(
                        ctx.revisions.latest(site_id, page_id).compiled_hash,
                    )
                },
            },
    {
        let page_revision = match ctx.revisions.get_latest(site_id, page_id) {
            Some(revision) => revision,
            None => {
                return Err(Error::NotFound);
            },
        };
        let wikitext = match ctx.texts.get(&page_revision.wikitext_hash) {
            Ok(text) => text,
            Err(error) => {
                return Err(error);
            },
        };
        let compiled_html = match ctx.texts.get(&page_revision.compiled_hash) {
            Ok(text) => text,
            Err(error) => {
                return Err(error);
            },
        };
        Ok(PageContents { page_revision, wikitext, compiled_html })
    }

    /// Gets basic data and runs common logic for all web routes.
    ///
    /// The site of the request and the session of its user, if it has one,
    /// are looked up by the caller and handed in: a session is to be
    /// looked up where `has_session` says so. The viewer holds both, and
    /// the domain to send the request to instead where it came in on
    /// another one than the site prefers.
    pub fn get_viewer<U>(site: SiteInfo, domain: &str, user_session: Option<U>) -> (viewer: Viewer<
        U,
    >)
        ensures
            viewer.site == site,
            viewer.redirect_site.deep_view() == site_redirect(site, domain@),
            viewer.user_session == user_session,
    {
        let redirect_site = Self::should_redirect_site(site.preferred_domain.clone(), domain);
        Viewer { site, redirect_site, user_session }
    }

    /// Answers a request for a page of the viewer's site.
    ///
    /// The locale has to be a language identifier. The slug is that of the
    /// route, or the site's default page. The page is looked up by the
    /// name that the slug gives it within its category; where no live
    /// page sits there, the answer says what the page that stands for a
    /// missing one is to be rendered with. The viewer goes into the
    /// answer as it is.
    pub fn page<U>(ctx: &ServiceContext, viewer: Viewer<U>, input: &GetPageView) -> (r: Result<
        GetPageViewOutput<U>,
        Error,
    >)
        requires
            ctx.wf(),
        ensures
            match page_view_failure(*ctx, viewer.site, *input) {
                Some(error) => r == Err::<GetPageViewOutput<U>, Error>(error),
                None => r is Ok && r->Ok_0.viewer == viewer && page_viewed(
                    *ctx,
                    viewer.site,
                    *input,
                    r->Ok_0,
                ),
            },
    {
        let site = &viewer.site;
        match validate_locale(input.locale.as_str()) {
            Ok(_) => {},
            Err(error) => {
                return Err(error);
            },
        }
        // If None, means the main page for the site. Pull from site data.
        let (page_slug, page_extra) = Self::route_of(&input.route, &site.default_page);
        let redirect_page = Self::should_redirect_page(page_slug);
        let (category_slug, page_name) = split_category(page_slug);
        let looked_up = page_name.to_owned();
        let contents = match ctx.revisions.page_at_slug(site.site_id, &looked_up) {
            // This page exists, return its data directly.
            Some(page_id) => match Self::page_contents(ctx, site.site_id, page_id) {
                Ok(contents) => PageViewContents::Found { page_id, contents },
                Err(error) => {
                    return Err(error);
                },
            },
            // The page is missing.
            None => PageViewContents::Missing {
                page_info: PageInfo {
                    page: page_name.to_owned(),
                    category: match category_slug {
                        Some(category) => Some(category.to_owned()),
                        None => None,
                    },
                    site: site.slug.clone(),
                    title: page_name.to_owned(),
                    alt_title: None,
                    tags: Vec::new(),
                    language: input.locale.clone(),
                },
            },
        };
        proof {
            if contents is Missing {
                assert(contents->page_info.tags.deep_view() =~= Seq::<Seq<char>>::empty());
            }
        }
        let options = page_extra.to_owned();
        Ok(GetPageViewOutput { viewer, options, redirect_page, contents })
    }

    /// The domain to send a request to instead, where it came in on
    /// another domain than the one that the site prefers.
    pub fn should_redirect_site(preferred_domain: String, domain: &str) -> (r: Option<String>)
        ensures
            r.deep_view() == if domain@ == preferred_domain@ {
                None
            } else {
                Some(preferred_domain@)
            },
    {
        if str_eq(domain, preferred_domain.as_str()) {
            None
        } else {
            Some(preferred_domain)
        }
    }

    /// The slug to send a request to instead, given the normal form of the
    /// slug that it asks for: none where the slug is in normal form.
    pub fn redirect_to(slug: &str, target: String) -> (r: Option<String>)
        ensures
            r.deep_view() == if slug@ == target@ {
                None
            } else {
                Some(target@)
            },
    {
        if str_eq(slug, target.as_str()) {
            None
        } else {
            Some(target)
        }
    }

    /// The slug to send a request for `slug` to instead: semicolons are
    /// taken for mistyped colons, and the slug is brought to normal form.
    pub fn should_redirect_page(slug: &str) -> (r: Option<String>)
        ensures
            r.deep_view() == page_redirect(slug@),
    {
        // Fix typos in the page slug.
        let target = colons_for_semicolons(slug);
        // Run slug normalization.
        // This also strips _default and merges multiple categories.
        let target = normalize_text(target);
        Self::redirect_to(slug, target)
    }
}

/// Why a request for a page is refused, if it is: its locale is no
/// language identifier, or the page is there and one of its texts is not.
pub open spec fn page_view_failure(
    ctx: ServiceContext,
    site: SiteInfo,
    input: GetPageView,
) -> Option<Error> {
    let name = page_of(requested_slug(site, input));
    if parsed_locale(vstd::utf8::encode_utf8(input.locale@)) is None {
        Some(Error::BadRequest)
    } else {
        match ctx.revisions.page_at(site.site_id, name) {
            Some(page_id) => {
                let latest = ctx.revisions.latest(site.site_id, page_id);
                if ctx.texts@.contains_key(latest.wikitext_hash) && ctx.texts@.contains_key(
                    latest.compiled_hash,
                ) {
                    None
                } else {
                    Some(Error::NotFound)
                }
            },
            None => None,
        }
    }
}

/// What a request for a page is answered with.
pub open spec fn page_viewed<U>(
    ctx: ServiceContext,
    site: SiteInfo,
    input: GetPageView,
    output: GetPageViewOutput<U>,
) -> bool {
    let slug = requested_slug(site, input);
    &&& output.options@ == match input.route {
        Some(page_route) => page_route.extra@,
        None => Seq::<char>::empty(),
    }
    &&& output.redirect_page.deep_view() == page_redirect(slug)
    &&& match ctx.revisions.page_at(site.site_id, page_of(slug)) {
        Some(page_id) => {
            let latest = ctx.revisions.latest(site.site_id, page_id);
            &&& output.contents is Found
            &&& output.contents->page_id == page_id
            &&& output.contents->contents.page_revision@ == latest
            &&& output.contents->contents.wikitext@ == ctx.texts@[latest.wikitext_hash]
            &&& output.contents->contents.compiled_html@ == ctx.texts@[latest.compiled_hash]
        },
        None => {
            &&& output.contents is Missing
            &&& output.contents->page_info@ == missing_page_info(site, input)
        },
    }
}

} // verus!
