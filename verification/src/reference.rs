//! References to an object: by its identifier or by its slug.

use crate::api::{decimal_i64, param_of, parse_i64, str_eq, ApiRequest};
use crate::error::Error;
use vstd::prelude::*;

verus! {

/// A reference to an object, with the slug borrowed.
#[derive(Debug, Copy, Clone, Hash, PartialEq, Eq)]
pub enum Reference<'a> {
    Id(i64),
    Slug(&'a str),
}

/// A reference that owns its slug, as it travels in requests and answers.
#[derive(Debug, Clone, Hash, PartialEq, Eq)]
pub enum SerialReference {
    Id(i64),
    Slug(String),
}

/// A reference as mathematical values.
pub enum ReferenceView {
    Id(i64),
    Slug(Seq<char>),
}

impl<'a> View for Reference<'a> {
    type V = ReferenceView;

    open spec fn view(&self) -> ReferenceView {
        match self {
            Reference::Id(id) => ReferenceView::Id(*id),
            Reference::Slug(slug) => ReferenceView::Slug(slug@),
        }
    }
}

impl View for SerialReference {
    type V = ReferenceView;

    open spec fn view(&self) -> ReferenceView {
        match self {
            SerialReference::Id(id) => ReferenceView::Id(*id),
            SerialReference::Slug(slug) => ReferenceView::Slug(slug@),
        }
    }
}

/// The reference that a type and a value written as text stand for: with
/// the type `slug` the value is the slug; with the type `id` it is the
/// identifier, written in decimal; no other type is known.
pub open spec fn reference_of(value_type: Seq<char>, value: Seq<char>) -> Option<ReferenceView> {
    if value_type == "slug"@ {
        Some(ReferenceView::Slug(value))
    } else if value_type == "id"@ {
        match decimal_i64(value) {
            Some(id) => Some(ReferenceView::Id(id)),
            None => None,
        }
    } else {
        None
    }
}

impl<'a> Reference<'a> {
    /// The reference that two route parameters of a request stand for: the
    /// one named `value_type_key` gives the type, the one named `value_key`
    /// the value.
    pub fn try_from_fields_key(req: &'a ApiRequest, value_type_key: &str, value_key: &str) -> (r:
        Result<Reference<'a>, Error>)
        ensures
            match (param_of(req.params@, value_type_key@), param_of(req.params@, value_key@)) {
                (Some(value_type), Some(value)) => match reference_of(value_type, value) {
                    Some(reference) => r is Ok && r->Ok_0@ == reference,
                    None => r == Err::<Reference<'a>, Error>(Error::BadRequest),
                },
                _ => r == Err::<Reference<'a>, Error>(Error::BadRequest),
            },
    {
        let value_type = match req.param(value_type_key) {
            Ok(value_type) => value_type,
            Err(error) => {
                return Err(error);
            },
        };
        let value = match req.param(value_key) {
            Ok(value) => value,
            Err(error) => {
                return Err(error);
            },
        };
        Reference::try_from_fields(value_type, value)
    }

    /// The reference that a type and a value written as text stand for.
    pub fn try_from_fields(value_type: &str, value: &'a str) -> (r: Result<Reference<'a>, Error>)
        ensures
            match reference_of(value_type@, value@) {
                Some(reference) => r is Ok && r->Ok_0@ == reference,
                None => r == Err::<Reference<'a>, Error>(Error::BadRequest),
            },
    {
        if str_eq(value_type, "slug") {
            Ok(Reference::Slug(value))
        } else if str_eq(value_type, "id") {
            match parse_i64(value) {
                Some(id) => Ok(Reference::Id(id)),
                None => Err(Error::BadRequest),
            }
        } else {
            Err(Error::BadRequest)
        }
    }

    /// The reference that the route parameters `type` and `id_or_slug` of
    /// a request stand for.
    #[inline]
    pub fn try_from_request(req: &'a ApiRequest) -> (r: Result<Reference<'a>, Error>)
        ensures
            match (param_of(req.params@, "type"@), param_of(req.params@, "id_or_slug"@)) {
                (Some(value_type), Some(value)) => match reference_of(value_type, value) {
                    Some(reference) => r is Ok && r->Ok_0@ == reference,
                    None => r == Err::<Reference<'a>, Error>(Error::BadRequest),
                },
                _ => r == Err::<Reference<'a>, Error>(Error::BadRequest),
            },
    {
        Reference::try_from_fields_key(req, "type", "id_or_slug")
    }

    /// The reference with a slug of its own.
    pub fn to_serial(&self) -> (r: SerialReference)
        ensures
            r@ == self@,
    {
        match self {
            Reference::Id(id) => SerialReference::Id(*id),
            Reference::Slug(slug) => SerialReference::Slug((*slug).to_owned()),
        }
    }
}

impl From<i64> for Reference<'static> {
    #[inline]
    fn from(id: i64) -> (r: Reference<'static>) {
        Reference::Id(id)
    }
}

impl vstd::std_specs::convert::FromSpecImpl<i64> for Reference<'static> {
    open spec fn obeys_from_spec() -> bool {
        true
    }

    open spec fn from_spec(id: i64) -> Reference<'static> {
        Reference::Id(id)
    }
}

impl<'a> From<&'a str> for Reference<'a> {
    #[inline]
    fn from(slug: &'a str) -> (r: Reference<'a>) {
        Reference::Slug(slug)
    }
}

impl<'a> vstd::std_specs::convert::FromSpecImpl<&'a str> for Reference<'a> {
    open spec fn obeys_from_spec() -> bool {
        true
    }

    open spec fn from_spec(slug: &'a str) -> Reference<'a> {
        Reference::Slug(slug)
    }
}

impl SerialReference {
    /// The same reference, with the slug borrowed.
    pub fn as_reference_struct<'a>(&'a self) -> (r: Reference<'a>)
        ensures
            r@ == self@,
    {
        match self {
            SerialReference::Id(id) => Reference::Id(*id),
            SerialReference::Slug(slug) => Reference::Slug(slug.as_str()),
        }
    }
}

} // verus!
