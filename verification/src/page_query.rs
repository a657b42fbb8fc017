//! The selectors of a page query: what a listing of pages may ask for.

use vstd::prelude::*;

verus! {

/// The service that lists pages by a query.
#[derive(Debug)]
pub struct PageQueryService;

/// The type of page based on visibility to select in a page query.
/// A page is hidden if its URL is prefixed by an underscore; otherwise, it is visible.
#[derive(Debug, PartialEq, Eq, Clone, Copy, Hash)]
pub enum PageTypeSelector {
    Normal,
    Hidden,
    All,
}

#[derive(Debug, PartialEq, Eq, Clone)]
pub enum IncludedCategories {
    All,
    List(Vec<String>),
}

#[derive(Debug, PartialEq, Eq, Clone)]
pub struct CategoriesSelector {
    pub included_categories: IncludedCategories,
    pub excluded_categories: Vec<String>,
}

/// The tag conditions for the page query.
#[derive(Debug, PartialEq, Eq, Clone)]
pub enum TagCondition {
    /// Represents an OR operator for the tag; page may contain any of these tags.
    AnyPresent(String),
    /// Represents the AND operator for the tag; page must contain all of these tags.
    AllPresent(String),
    /// Represents the NOT operator for the tag; page must *not* contain any of these tags.
    AllAbsent(String),
}

/// The relationship of the pages being queried to their parent/child pages.
#[derive(Debug, PartialEq, Eq, Clone, Hash)]
pub enum PageParentSelector {
    /// Pages which do not have a parent page.
    NoParent,
    /// Pages which share the same parent page as the page making the query.
    SameParents,
    /// Pages which do *not* share the same parent page as the page making the query.
    DifferentParents,
    /// Pages which are children page of the page making the query.
    ChildOf,
    /// Pages which have specified parent pages.
    HasParents(Vec<String>),
}

#[derive(Debug, PartialEq, Eq, Clone, Copy, Hash)]
pub enum DateTimeResolution {
    Second,
    Minute,
    Hour,
    Day,
    Month,
    Year,
}

#[derive(Debug, PartialEq, Eq, Clone, Copy, Hash)]
pub enum ComparisonOperation {
    GreaterThan,
    LessThan,
    GreaterOrEqualThan,
    LessOrEqualThan,
    Equal,
    NotEqual,
}

impl ComparisonOperation {
    /// Whether `left` stands to `right` as the operation says.
    pub open spec fn holds(self, left: int, right: int) -> bool {
        match self {
            ComparisonOperation::GreaterThan => left > right,
            ComparisonOperation::LessThan => left < right,
            ComparisonOperation::GreaterOrEqualThan => left >= right,
            ComparisonOperation::LessOrEqualThan => left <= right,
            ComparisonOperation::Equal => left == right,
            ComparisonOperation::NotEqual => left != right,
        }
    }

    /// Whether `left` stands to `right` as the operation says.
    pub fn compare(&self, left: i64, right: i64) -> (r: bool)
        ensures
            r == self.holds(left as int, right as int),
    {
        match self {
            ComparisonOperation::GreaterThan => left > right,
            ComparisonOperation::LessThan => left < right,
            ComparisonOperation::GreaterOrEqualThan => left >= right,
            ComparisonOperation::LessOrEqualThan => left <= right,
            ComparisonOperation::Equal => left == right,
            ComparisonOperation::NotEqual => left != right,
        }
    }
}

/// A selector of pages by a date. Times are seconds since the epoch.
#[derive(Debug, PartialEq, Eq, Clone, Copy)]
pub enum DateSelector {
    /// A time span represented by a timestamp, the "resolution" of the time,
    /// and a comparison operator.
    Span { timestamp: i64, resolution: DateTimeResolution, comparison: ComparisonOperation },
    /// A time span represented by a timestamp, from present to the time specified.
    FromPresent { start_time: i64 },
}

/// Range of pages to display, relative to the current page.
#[derive(Debug, PartialEq, Eq, Clone, Copy, Hash)]
pub enum RangeSelector {
    /// Display only the current page.
    Current,
    /// Display pages before the current page in queried results.
    Before,
    /// Display pages after the current page in queried results.
    After,
    /// Display all pages besides the current page.
    Others,
}

/// Selects all pages that have a data form with matching field-value pairs.
#[derive(Debug, PartialEq, Eq, Clone)]
pub struct DataFormSelector {
    pub field: String,
    pub value: String,
}

#[derive(Debug, PartialEq, Eq, Clone, Copy, Hash)]
pub enum OrderProperties {
    Name,
    Slug,
    Title,
    CreatedBy,
    CreatedAt,
    UpdatedAt,
    Size,
    Rating,
    Votes,
    Revisions,
    Comments,
    Random,
    DataFormFieldName,
}

#[derive(Debug, PartialEq, Eq, Clone, Copy)]
pub struct OrderBySelector {
    pub property: OrderProperties,
    pub ascending: bool,
}

#[derive(Debug, PartialEq, Eq, Clone, Copy, Hash)]
pub struct PaginationSelector {
    pub limit: u64,
    pub per_page: u8,
    pub reversed: bool,
}

#[derive(Debug, PartialEq, Eq, Clone)]
pub enum PageQueryVariables {
    CreatedAt,
    CreatedBy,
    CreatedBySlug,
    CreatedById,
    CreatedByLinked,
    UpdatedAt,
    UpdatedBy,
    UpdatedBySlug,
    UpdatedById,
    UpdatedByLinked,
    CommentedAt,
    CommentedBy,
    CommentedBySlug,
    CommentedById,
    CommentedByLinked,
    Name,
    Category,
    Slug,
    Title,
    TitleLinked,
    ParentNamed,
    ParentCategory,
    ParentSlug,
    ParentTitle,
    ParentTitleLinked,
    Link,
    Content,
    ContentN(u64),
    Preview,
    PreviewN(u64),
    Summary,
    FirstParagraph,
    Tags,
    TagsLinked,
    TagsLinkedURL(String),
    HiddenTags,
    HiddenTagsLinked,
    HiddenTagsLinkedURL(String),
    FormData(String),
    FormRaw(String),
    FormLabel(String),
    FormHint(String),
    Children,
    Comments,
    Size,
    Rating,
    RatingVotes,
    RatingPercent,
    Revisions,
    Index,
    Total,
    Limit,
    TotalOrLimit,
    SiteTitle,
    SiteName,
    SiteDomain,
}

} // verus!
