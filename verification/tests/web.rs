use deepwell::api::{parse_i64, str_eq, ApiRequest, Param};
use deepwell::error::Error;
use deepwell::job::SchedulerConfig;
use deepwell::link::Backlink;
use deepwell::locale::{locale_or_bad_request, validate_locale};
use deepwell::page_query::ComparisonOperation;
use deepwell::reference::{Reference, SerialReference};
use deepwell::revision::service::{RevisionService, ServiceContext};
use deepwell::revision::structs::{CreateFirstRevision, RenderOutput};
use deepwell::view::{normalize_text, PageRoute, ViewService};

fn request(params: &[(&str, &str)]) -> ApiRequest {
    ApiRequest {
        params: params
            .iter()
            .map(|(name, value)| Param { name: name.to_string(), value: value.to_string() })
            .collect(),
    }
}

#[test]
fn decimal_numbers() {
    assert_eq!(parse_i64("0"), Some(0));
    assert_eq!(parse_i64("42"), Some(42));
    assert_eq!(parse_i64("+42"), Some(42));
    assert_eq!(parse_i64("-42"), Some(-42));
    assert_eq!(parse_i64("-0"), Some(0));
    assert_eq!(parse_i64("007"), Some(7));
    assert_eq!(parse_i64("9223372036854775807"), Some(i64::MAX));
    assert_eq!(parse_i64("-9223372036854775808"), Some(i64::MIN));
    assert_eq!(parse_i64("0000000000000000000000009223372036854775807"), Some(i64::MAX));
    assert_eq!(parse_i64("9223372036854775808"), None);
    assert_eq!(parse_i64("-9223372036854775809"), None);
    assert_eq!(parse_i64("99999999999999999999999999999999999999999999"), None);
    assert_eq!(parse_i64(""), None);
    assert_eq!(parse_i64("+"), None);
    assert_eq!(parse_i64("-"), None);
    assert_eq!(parse_i64("--1"), None);
    assert_eq!(parse_i64("1-"), None);
    assert_eq!(parse_i64(" 1"), None);
    assert_eq!(parse_i64("1 "), None);
    assert_eq!(parse_i64("1_000"), None);
    assert_eq!(parse_i64("12a"), None);
    assert_eq!(parse_i64("٣"), None);
    assert_eq!(parse_i64("0x10"), None);
}

#[test]
fn decimal_numbers_read_as_std_reads_them() {
    for text in ["5", "-5", "+5", "", "-", "+-5", "18446744073709551616", "00", "1.0", "１"] {
        assert_eq!(parse_i64(text), text.parse::<i64>().ok(), "{text:?}");
    }
}

#[test]
fn reference_by_slug_or_id() {
    assert_eq!(Reference::try_from_fields("slug", "main"), Ok(Reference::Slug("main")));
    assert_eq!(Reference::try_from_fields("slug", "42"), Ok(Reference::Slug("42")));
    assert_eq!(Reference::try_from_fields("slug", ""), Ok(Reference::Slug("")));
    assert_eq!(Reference::try_from_fields("id", "42"), Ok(Reference::Id(42)));
    assert_eq!(Reference::try_from_fields("id", "-3"), Ok(Reference::Id(-3)));
    assert_eq!(Reference::try_from_fields("id", "main"), Err(Error::BadRequest));
    assert_eq!(Reference::try_from_fields("id", ""), Err(Error::BadRequest));
    assert_eq!(Reference::try_from_fields("ID", "42"), Err(Error::BadRequest));
    assert_eq!(Reference::try_from_fields("", "42"), Err(Error::BadRequest));
    assert_eq!(Reference::try_from_fields("name", "main"), Err(Error::BadRequest));
}

#[test]
fn reference_from_the_parameters_of_a_request() {
    let req = request(&[("type", "id"), ("id_or_slug", "17"), ("type", "slug")]);
    assert_eq!(Reference::try_from_fields_key(&req, "type", "id_or_slug"), Ok(Reference::Id(17)));
    let req = request(&[("type", "slug"), ("id_or_slug", "17")]);
    assert_eq!(
        Reference::try_from_fields_key(&req, "type", "id_or_slug"),
        Ok(Reference::Slug("17"))
    );
    assert_eq!(
        Reference::try_from_fields_key(&req, "kind", "id_or_slug"),
        Err(Error::BadRequest)
    );
    assert_eq!(Reference::try_from_fields_key(&req, "type", "value"), Err(Error::BadRequest));
    let req = request(&[("type", "id"), ("id_or_slug", "seventeen")]);
    assert_eq!(
        Reference::try_from_fields_key(&req, "type", "id_or_slug"),
        Err(Error::BadRequest)
    );
    assert_eq!(Reference::try_from_request(&req), Err(Error::BadRequest));
    let req = request(&[("id_or_slug", "main"), ("type", "slug")]);
    assert_eq!(Reference::try_from_request(&req), Ok(Reference::Slug("main")));
    assert_eq!(req.param("type"), Ok("slug"));
    assert_eq!(req.param("Type"), Err(Error::BadRequest));
    assert_eq!(request(&[]).param("type"), Err(Error::BadRequest));
}

#[test]
fn references_with_and_without_a_slug_of_their_own() {
    let owned = SerialReference::Slug("main".to_string());
    assert_eq!(owned.as_reference_struct(), Reference::Slug("main"));
    assert_eq!(SerialReference::Id(9).as_reference_struct(), Reference::Id(9));
    assert_eq!(Reference::Slug("main").to_serial(), owned);
    assert_eq!(Reference::Id(9).to_serial(), SerialReference::Id(9));
    assert_eq!(Reference::from(4), Reference::Id(4));
    assert_eq!(Reference::from("x"), Reference::Slug("x"));
    assert!(str_eq("main", "main"));
    assert!(!str_eq("main", "Main"));
    assert!(!str_eq("main", "mai"));
}

#[test]
fn locales() {
    assert_eq!(validate_locale("en").unwrap().to_string(), "en");
    assert_eq!(validate_locale("en-US").unwrap().to_string(), "en-US");
    assert_eq!(validate_locale("zh_Hant").unwrap().to_string(), "zh-Hant");
    assert_eq!(validate_locale("!!").err(), Some(Error::BadRequest));
    assert_eq!(validate_locale("e").err(), Some(Error::BadRequest));
    assert_eq!(locale_or_bad_request(None), Err(Error::BadRequest));
    let english = validate_locale("en").unwrap();
    assert_eq!(locale_or_bad_request(Some(english.clone())), Ok(english));
}

#[test]
fn slugs_are_redirected_to_their_normal_form() {
    assert_eq!(ViewService::should_redirect_page("main"), None);
    assert_eq!(ViewService::should_redirect_page("fragment:page-1"), None);
    assert_eq!(
        ViewService::should_redirect_page("Big Cheese Horace"),
        Some("big-cheese-horace".to_string())
    );
    assert_eq!(
        ViewService::should_redirect_page("fragment;page"),
        Some("fragment:page".to_string())
    );
    assert_eq!(ViewService::should_redirect_page("a;b;c"), Some("a-b:c".to_string()));
    assert_eq!(ViewService::should_redirect_page("_default:main"), Some("main".to_string()));
    assert_eq!(ViewService::should_redirect_page("-test-"), Some("test".to_string()));
    assert_eq!(normalize_text("Tufto's Proposal".to_string()), "tufto-s-proposal");
    assert_eq!(normalize_text("end-of-death-hub".to_string()), "end-of-death-hub");
    assert_eq!(ViewService::redirect_to("main", "main".to_string()), None);
    assert_eq!(ViewService::redirect_to("Main", "main".to_string()), Some("main".to_string()));
}

#[test]
fn requests_are_redirected_to_the_preferred_domain() {
    assert_eq!(ViewService::should_redirect_site("wiki.example".to_string(), "wiki.example"), None);
    assert_eq!(
        ViewService::should_redirect_site("wiki.example".to_string(), "old.example"),
        Some("wiki.example".to_string())
    );
}

#[test]
fn route_and_session_of_a_request() {
    let default_page = "start".to_string();
    assert_eq!(ViewService::route_of(&None, &default_page), ("start", ""));
    let route = Some(PageRoute { slug: "apple".to_string(), extra: "/edit/true".to_string() });
    assert_eq!(ViewService::route_of(&route, &default_page), ("apple", "/edit/true"));
    assert!(!ViewService::has_session(None));
    assert!(!ViewService::has_session(Some("")));
    assert!(ViewService::has_session(Some("token")));
}

#[test]
fn contents_of_a_page() {
    let mut ctx = ServiceContext::new(SchedulerConfig {
        queue_capacity: 4,
        poll_delay: 1,
        max_processing_time: 1,
    });
    assert_eq!(ViewService::page_contents(&ctx, 1, 1).err(), Some(Error::NotFound));
    RevisionService::create_first(
        &mut ctx,
        1,
        1,
        CreateFirstRevision {
            user_id: 1,
            comments: String::new(),
            wikitext: "**bold**".to_string(),
            title: "Bold".to_string(),
            alt_title: None,
            slug: "bold".to_string(),
        },
        RenderOutput {
            html_output: "<b>bold</b>".to_string(),
            warnings: vec![],
            compiled_generator: "ftml".to_string(),
            compiled_at: 0,
            backlinks: Vec::<Backlink>::new(),
        },
    )
    .unwrap();
    let contents = ViewService::page_contents(&ctx, 1, 1).unwrap();
    assert_eq!(contents.wikitext, "**bold**");
    assert_eq!(contents.compiled_html, "<b>bold</b>");
    assert_eq!(contents.page_revision.slug, "bold");
    assert_eq!(contents.page_revision.revision_number, 0);
}

#[test]
fn comparison_operations() {
    assert!(ComparisonOperation::GreaterThan.compare(2, 1));
    assert!(!ComparisonOperation::GreaterThan.compare(1, 1));
    assert!(ComparisonOperation::LessThan.compare(-1, 1));
    assert!(!ComparisonOperation::LessThan.compare(1, 1));
    assert!(ComparisonOperation::GreaterOrEqualThan.compare(1, 1));
    assert!(!ComparisonOperation::GreaterOrEqualThan.compare(0, 1));
    assert!(ComparisonOperation::LessOrEqualThan.compare(1, 1));
    assert!(!ComparisonOperation::LessOrEqualThan.compare(2, 1));
    assert!(ComparisonOperation::Equal.compare(5, 5));
    assert!(!ComparisonOperation::Equal.compare(5, 6));
    assert!(ComparisonOperation::NotEqual.compare(5, 6));
    assert!(!ComparisonOperation::NotEqual.compare(5, 5));
}
