//! How the user, member, file and tool-execution listings are paged and
//! ordered, and what a listed user shows.
use vstd::prelude::*;

use crate::departments::{eq_ignore_ascii_case, eq_ignore_ascii_case_exec};
use crate::text::same_text;

verus! {

/// The column a listing request asks to sort by.
#[derive(Debug, Clone, Copy, PartialEq, Eq, Structural)]
pub enum SortRule {
    Name,
    Email,
    CreatedAt,
    UpdatedAt,
    LastLoginAt,
    Size,
}

/// The user column a user listing is ordered by.
#[derive(Debug, Clone, Copy, PartialEq, Eq, Structural)]
pub enum UserSortColumn {
    Name,
    Email,
    CreatedAt,
    UpdatedAt,
    LastLoginAt,
}

/// The file column a file listing is ordered by.
#[derive(Debug, Clone, Copy, PartialEq, Eq, Structural)]
pub enum FileSortColumn {
    Name,
    CreatedAt,
    Size,
}

/// The user column for a sort rule; a rule with no user column sorts by
/// creation time.
pub open spec fn user_column_of(rule: SortRule) -> UserSortColumn {
    match rule {
        SortRule::Name => UserSortColumn::Name,
        SortRule::Email => UserSortColumn::Email,
        SortRule::CreatedAt => UserSortColumn::CreatedAt,
        SortRule::UpdatedAt => UserSortColumn::UpdatedAt,
        SortRule::LastLoginAt => UserSortColumn::LastLoginAt,
        SortRule::Size => UserSortColumn::CreatedAt,
    }
}

pub fn user_sort_column(rule: SortRule) -> (r: UserSortColumn)
    ensures
        r == user_column_of(rule),
{
    match rule {
        SortRule::Name => UserSortColumn::Name,
        SortRule::Email => UserSortColumn::Email,
        SortRule::CreatedAt => UserSortColumn::CreatedAt,
        SortRule::UpdatedAt => UserSortColumn::UpdatedAt,
        SortRule::LastLoginAt => UserSortColumn::LastLoginAt,
        SortRule::Size => UserSortColumn::CreatedAt,
    }
}

/// The file column for a sort rule; a rule with no file column sorts by
/// creation time.
pub open spec fn file_column_of(rule: SortRule) -> FileSortColumn {
    match rule {
        SortRule::Name => FileSortColumn::Name,
        SortRule::Size => FileSortColumn::Size,
        _ => FileSortColumn::CreatedAt,
    }
}

pub fn file_sort_column(rule: SortRule) -> (r: FileSortColumn)
    ensures
        r == file_column_of(rule),
{
    match rule {
        SortRule::Name => FileSortColumn::Name,
        SortRule::Size => FileSortColumn::Size,
        _ => FileSortColumn::CreatedAt,
    }
}

/// The page size of a user or file listing when the request gives none.
pub const DEFAULT_PAGE_LIMIT: u64 = 20;

/// The page size of a tool-execution listing when the request gives none,
/// and the largest it may be.
pub const DEFAULT_EXECUTION_LIMIT: u64 = 50;

pub const MAX_EXECUTION_LIMIT: u64 = 100;

/// Which slice of a listing a request reads: `page` counts whole pages of
/// `limit` rows before `offset`.
#[derive(Debug, Clone, Copy, PartialEq, Eq, Structural)]
pub struct PageWindow {
    pub limit: u64,
    pub offset: u64,
    pub page: u64,
}

pub open spec fn window_of(limit: u64, offset: Option<u64>) -> PageWindow {
    let o: u64 = match offset {
        Some(o) => o,
        None => 0,
    };
    PageWindow { limit, offset: o, page: (o / limit) as u64 }
}

/// The window of a user or file listing: 20 rows unless the request says
/// otherwise, from offset 0 unless it says otherwise.
pub fn page_window(limit: Option<u64>, offset: Option<u64>) -> (r: PageWindow)
    requires
        limit != Some(0u64),
    ensures
        r == window_of(
            match limit {
                Some(l) => l,
                None => DEFAULT_PAGE_LIMIT,
            },
            offset,
        ),
{
    let l: u64 = match limit {
        Some(l) => l,
        None => DEFAULT_PAGE_LIMIT,
    };
    let o: u64 = match offset {
        Some(o) => o,
        None => 0,
    };
    PageWindow { limit: l, offset: o, page: o / l }
}

/// The page size of a tool-execution listing: 50 unless the request says
/// otherwise, and never more than 100.
pub open spec fn execution_limit_of(limit: Option<u64>) -> u64 {
    match limit {
        Some(l) => if l < MAX_EXECUTION_LIMIT { l } else { MAX_EXECUTION_LIMIT },
        None => DEFAULT_EXECUTION_LIMIT,
    }
}

pub fn execution_page_window(limit: Option<u64>, offset: Option<u64>) -> (r: PageWindow)
    requires
        limit != Some(0u64),
    ensures
        r == window_of(execution_limit_of(limit), offset),
        r.limit <= MAX_EXECUTION_LIMIT,
{
    let l: u64 = match limit {
        Some(l) => if l < MAX_EXECUTION_LIMIT { l } else { MAX_EXECUTION_LIMIT },
        None => DEFAULT_EXECUTION_LIMIT,
    };
    let o: u64 = match offset {
        Some(o) => o,
        None => 0,
    };
    PageWindow { limit: l, offset: o, page: o / l }
}

/// A department's member listing is ascending only when the request's order
/// is "asc", in any case; it is descending otherwise and by default.
pub fn member_order_ascending(order: Option<&str>) -> (r: bool)
    ensures
        r == match order {
            Some(o) => eq_ignore_ascii_case(o@, "asc"@),
            None => false,
        },
{
    match order {
        Some(o) => eq_ignore_ascii_case_exec(o, "asc"),
        None => false,
    }
}

/// The name of the role that makes a user a super admin.
pub const SUPER_ADMIN_ROLE: &'static str = "Super Admin";

/// Whether one of the user's roles is the super-admin role.
pub fn has_super_admin_role(roles: &Vec<String>) -> (r: bool)
    ensures
        r == exists|i: int| 0 <= i < roles@.len() && #[trigger] roles@[i]@ == SUPER_ADMIN_ROLE@,
{
    let mut i: usize = 0;
    while i < roles.len()
        invariant
            i <= roles@.len(),
            forall|j: int| 0 <= j < i ==> #[trigger] roles@[j]@ != SUPER_ADMIN_ROLE@,
        decreases roles@.len() - i,
    {
        if same_text(roles[i].as_str(), SUPER_ADMIN_ROLE) {
            return true;
        }
        i = i + 1;
    }
    false
}

/// The subject a listed user is shown under: the first identity-provider id
/// it has, else its email.
pub fn user_subject(preferred: Option<String>, fallback: Option<String>, email: String) -> (r: String)
    ensures
        r@ == match preferred {
            Some(p) => p@,
            None => match fallback {
                Some(f) => f@,
                None => email@,
            },
        },
{
    match preferred {
        Some(p) => p,
        None => match fallback {
            Some(f) => f,
            None => email,
        },
    }
}

/// The audit-log export reads page after page: after a page it reads
/// another only when that page had entries and the rows read so far are
/// fewer than both the total and the export's cap.
pub fn export_reads_another_page(page_len: u64, rows_read: u64, total: u64, max_rows: u64) -> (r: bool)
    ensures
        r == (page_len > 0 && rows_read < total && rows_read < max_rows),
{
    page_len > 0 && rows_read < total && rows_read < max_rows
}


/// A page window starts at the requested offset (0 by default) and counts
/// the whole pages of its size that lie before that offset.
pub proof fn law_page_counts_whole_pages(limit: u64, offset: Option<u64>)
    requires
        limit > 0,
    ensures
        ({
            let w = window_of(limit, offset);
            let o: u64 = match offset {
                Some(o) => o,
                None => 0,
            };
            &&& w.limit == limit
            &&& w.offset == o
            &&& w.page * limit <= o
            &&& o < (w.page + 1) * limit
        }),
{
    let o: u64 = match offset {
        Some(o) => o,
        None => 0,
    };
    let q = o / limit;
    assert(q * limit <= o && o < (q + 1) * limit) by (nonlinear_arith)
        requires
            limit > 0,
            q == o / limit,
    ;
}

/// A tool-execution page holds the requested number of rows up to the
/// largest page, the largest page for any larger request, and the default
/// number when none is requested.
pub proof fn law_execution_page_size(requested: u64)
    ensures
        requested <= MAX_EXECUTION_LIMIT ==> execution_limit_of(Some(requested)) == requested,
        requested > MAX_EXECUTION_LIMIT ==> execution_limit_of(Some(requested)) == MAX_EXECUTION_LIMIT,
        execution_limit_of(None) == DEFAULT_EXECUTION_LIMIT,
        DEFAULT_EXECUTION_LIMIT <= MAX_EXECUTION_LIMIT,
{
}

} // verus!
