//! Request and response shapes of the subject catalogue, and its paging rule.

use vstd::prelude::*;

verus! {

/// Default page size of a subject listing.
pub const DEFAULT_LIMIT: i64 = 20;

/// Largest page size of a subject listing.
pub const MAX_LIMIT: i64 = 100;

/// A response carrying one value.
pub struct ApiResponse<T> {
    pub ok: bool,
    pub data: T,
}

/// One page of a listing.
pub struct PaginatedResponse<T> {
    pub ok: bool,
    pub items: Vec<T>,
    pub page: i64,
    pub limit: i64,
    pub total: i64,
}

/// The query of a subject listing.
#[allow(non_snake_case)]
pub struct SubjectsQuery {
    pub page: Option<i64>,
    pub limit: Option<i64>,
    pub search: Option<String>,
    pub sortBy: Option<String>,
    pub sortOrder: Option<String>,
}

/// A subject as listed.
#[allow(non_snake_case)]
pub struct SubjectListItem {
    pub id: String,
    pub name: String,
    pub description: Option<String>,
    pub color: String,
    pub icon: Option<String>,
    pub order: i32,
    pub isActive: bool,
    pub createdAt: String,
    pub updatedAt: String,
    pub createdBy: String,
    pub assignmentCount: i64,
}

/// The body of a request that creates a subject.
pub struct CreateSubjectReq {
    pub name: String,
    pub description: Option<String>,
    pub color: Option<String>,
    pub icon: Option<String>,
    pub order: Option<i32>,
}

/// The body of a request that updates a subject; absent fields stay.
#[allow(non_snake_case)]
pub struct UpdateSubjectReq {
    pub name: Option<String>,
    pub description: Option<String>,
    pub color: Option<String>,
    pub icon: Option<String>,
    pub order: Option<i32>,
    pub isActive: Option<bool>,
}

/// An assignment of a subject, as shown with the subject.
#[allow(non_snake_case)]
pub struct SubjectAssignmentItem {
    pub id: String,
    pub title: String,
    pub gradeLevel: i32,
    pub difficulty: String,
}

/// The page asked for: 1 when absent, and never below 1.
pub open spec fn page_of(q: Option<i64>) -> i64 {
    match q {
        None => 1,
        Some(p) => if p < 1 {
            1
        } else {
            p
        },
    }
}

/// The page size asked for: `DEFAULT_LIMIT` when absent, kept within 1 and
/// `MAX_LIMIT`.
pub open spec fn limit_of(q: Option<i64>) -> i64 {
    match q {
        None => DEFAULT_LIMIT,
        Some(l) => if l < 1 {
            1
        } else if l > MAX_LIMIT {
            MAX_LIMIT
        } else {
            l
        },
    }
}

/// The page and page size of a listing query.
pub fn page_and_limit(q: &SubjectsQuery) -> (r: (i64, i64))
    ensures
        r == (page_of(q.page), limit_of(q.limit)),
{
    let page = match q.page {
        None => 1,
        Some(p) => if p < 1 {
            1
        } else {
            p
        },
    };
    let limit = match q.limit {
        None => DEFAULT_LIMIT,
        Some(l) => if l < 1 {
            1
        } else if l > MAX_LIMIT {
            MAX_LIMIT
        } else {
            l
        },
    };
    (page, limit)
}

/// The answer to a subject listing while the catalogue holds no subjects: an
/// empty page, at the page and page size the query asks for.
pub fn list_subjects(q: &SubjectsQuery) -> (r: PaginatedResponse<SubjectListItem>)
    ensures
        r.ok,
        r.items@.len() == 0,
        r.page == page_of(q.page),
        r.limit == limit_of(q.limit),
        r.total == 0,
{
    let (page, limit) = page_and_limit(q);
    PaginatedResponse { ok: true, items: Vec::new(), page, limit, total: 0 }
}

} // verus!
