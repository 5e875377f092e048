use vstd::prelude::*;
use crate::collaborator_errors::BackupCatalogError;
use crate::text::{opt_sstr_view, opt_str_view, opt_to_string, opt_ref_view, pairs_view, strings_view};
use crate::text::{contains_control, has_control_char};

verus! {
pub const BACKUP_CATALOG_MAX_PAGE_SIZE: usize = 50;

const BACKUP_CATALOG_MAX_CURSOR_LENGTH: usize = 256;

#[derive(Debug, Clone, PartialEq, Eq)]
pub struct ListBackupCatalogInput {
    workspace_id: String,
    cursor: Option<String>,
    limit: usize,
}

impl View for ListBackupCatalogInput {
    type V = (Seq<char>, Option<Seq<char>>, usize);

    closed spec fn view(&self) -> (Seq<char>, Option<Seq<char>>, usize) {
        (self.workspace_id@, opt_str_view(self.cursor), self.limit)
    }
}

impl ListBackupCatalogInput {
    pub fn new(workspace_id: &str, cursor: Option<&str>, limit: usize) -> (result: Self)
        ensures
            result@ == (workspace_id@, opt_ref_view(cursor), limit),
    {
        Self {
            workspace_id: workspace_id.to_string(),
            cursor: opt_to_string(cursor),
            limit: limit,
        }
    }

}

#[derive(Debug, Clone, Copy, PartialEq, Eq, Structural)]
pub enum ListBackupCatalogError {
    InvalidInput,
    CatalogUnavailable,
    CorruptedCatalog,
}

impl ListBackupCatalogError {
    pub fn code(self) -> (result: &'static str)
        ensures
            result@ == match self {
                Self::InvalidInput => "backup_catalog.invalid_input"@,
                Self::CatalogUnavailable => "backup_catalog.unavailable"@,
                Self::CorruptedCatalog => "backup_catalog.corrupted"@,
            },
    {
        match self {
            Self::InvalidInput => "backup_catalog.invalid_input",
            Self::CatalogUnavailable => "backup_catalog.unavailable",
            Self::CorruptedCatalog => "backup_catalog.corrupted",
        }
    }

    pub fn retryable(self) -> (result: bool)
        ensures
            result == match self {
                Self::InvalidInput => false,
                Self::CatalogUnavailable => true,
                Self::CorruptedCatalog => false,
            },
    {
        match self {
            Self::InvalidInput => false,
            Self::CatalogUnavailable => true,
            Self::CorruptedCatalog => false,
        }
    }

}

#[derive(Debug, Clone, Copy, PartialEq, Eq, Structural)]
pub struct ListBackupCatalogUsecase;

impl ListBackupCatalogUsecase {
    pub fn new() -> (result: Self)
        ensures
            result == (ListBackupCatalogUsecase),
    {
        ListBackupCatalogUsecase
    }
}

impl Default for ListBackupCatalogUsecase {
    fn default() -> (result: Self)
        ensures
            result == (ListBackupCatalogUsecase),
    {
        Self::new()
    }
}

/// A catalog cursor is valid when it is non-empty, at most 256 bytes long
/// and free of control characters.
pub open spec fn is_valid_cursor(cursor: &str) -> bool {
    cursor@.len() > 0 && cursor.len() <= 256 && !has_control_char(cursor@)
}

pub fn valid_cursor(cursor: &str) -> (result: bool)
    ensures
        result == is_valid_cursor(cursor),
{
    !cursor.is_empty() && cursor.len() <= BACKUP_CATALOG_MAX_CURSOR_LENGTH && !contains_control(cursor)
}

/// The error that a catalog request with this page size and cursor is
/// refused with, if any: the size must be between 1 and 50 and a cursor must
/// be valid.
pub open spec fn catalog_request_error(limit: usize, cursor: Option<&str>) -> Option<ListBackupCatalogError> {
    if limit == 0 || limit > 50 {
        Some(ListBackupCatalogError::InvalidInput)
    } else if cursor matches Some(c) && !is_valid_cursor(c) {
        Some(ListBackupCatalogError::InvalidInput)
    } else {
        None
    }
}

/// Checks the page size and the cursor of a catalog request.
pub fn check_catalog_request(limit: usize, cursor: Option<&str>) -> (result: Result<(), ListBackupCatalogError>)
    ensures
        match catalog_request_error(limit, cursor) {
            Some(error) => result == Err::<(), ListBackupCatalogError>(error),
            None => result is Ok,
        },
{
    if limit == 0 || limit > BACKUP_CATALOG_MAX_PAGE_SIZE {
        return Err(ListBackupCatalogError::InvalidInput);
    }
    match cursor {
        Some(c) => {
            if !valid_cursor(c) {
                return Err(ListBackupCatalogError::InvalidInput);
            }
        },
        None => {},
    }
    Ok(())
}

/// `Option<u64>` ordered as Rust orders it: `None` first, then by value.
pub open spec fn option_at_least(left: Option<u64>, right: Option<u64>) -> bool {
    match (left, right) {
        (_, None) => true,
        (None, Some(_)) => false,
        (Some(l), Some(r)) => l >= r,
    }
}

/// The creation times never increase from one record to the next.
pub open spec fn newest_first(created: Seq<Option<u64>>) -> bool {
    forall|i: int| 0 <= i < created.len() - 1 ==> option_at_least(#[trigger] created[i], created[i + 1])
}

/// Two records share a package id.
pub open spec fn has_duplicate(ids: Seq<Seq<char>>) -> bool {
    exists|i: int, j: int| 0 <= i < j < ids.len() && #[trigger] ids[i] == #[trigger] ids[j]
}

/// A catalog page is consistent when it holds at most `limit` records, its
/// next cursor, if any, is valid, its records are ordered newest first and no
/// package id occurs twice.
pub open spec fn catalog_page_consistent(
    limit: usize,
    ids: Seq<Seq<char>>,
    created: Seq<Option<u64>>,
    next_cursor: Option<&str>,
) -> bool {
    &&& ids.len() <= limit
    &&& !(next_cursor matches Some(c) && !is_valid_cursor(c))
    &&& newest_first(created)
    &&& !has_duplicate(ids)
}

fn option_ge(left: Option<u64>, right: Option<u64>) -> (result: bool)
    ensures
        result == option_at_least(left, right),
{
    match (left, right) {
        (_, None) => true,
        (None, Some(_)) => false,
        (Some(l), Some(r)) => l >= r,
    }
}

/// Checks a page that the catalog returned, given the package id and the
/// creation time of each of its records in order.
pub fn catalog_page_is_consistent(
    limit: usize,
    package_ids: &Vec<String>,
    created_at_epoch_ms: &Vec<Option<u64>>,
    next_cursor: Option<&str>,
) -> (result: bool)
    requires
        package_ids@.len() == created_at_epoch_ms@.len(),
    ensures
        result == catalog_page_consistent(limit, strings_view(package_ids@), created_at_epoch_ms@, next_cursor),
{
    let n = package_ids.len();
    let ghost ids = strings_view(package_ids@);
    if n > limit {
        return false;
    }
    match next_cursor {
        Some(c) => {
            if !valid_cursor(c) {
                return false;
            }
        },
        None => {},
    }
    let mut i: usize = 0;
    while i + 1 < n
        invariant
            n == created_at_epoch_ms@.len(),
            i == 0 || i < n,
            forall|k: int| 0 <= k < i ==> option_at_least(#[trigger] created_at_epoch_ms@[k], created_at_epoch_ms@[k + 1]),
        decreases n - i,
    {
        if !option_ge(created_at_epoch_ms[i], created_at_epoch_ms[i + 1]) {
            assert(!option_at_least(created_at_epoch_ms@[i as int], created_at_epoch_ms@[i + 1]));
            return false;
        }
        i = i + 1;
    }
    let mut j: usize = 0;
    while j < n
        invariant
            n == package_ids@.len(),
            ids == strings_view(package_ids@),
            newest_first(created_at_epoch_ms@),
            forall|a: int, b: int| 0 <= a < b < ids.len() && a < j ==> ids[a] != ids[b],
        decreases n - j,
    {
        let mut k: usize = j + 1;
        while k < n
            invariant
                j < n,
                n == package_ids@.len(),
                ids == strings_view(package_ids@),
                j + 1 <= k <= n,
                forall|b: int| j < b < k ==> ids[j as int] != ids[b],
            decreases n - k,
        {
            if package_ids[j] == package_ids[k] {
                assert(ids[j as int] == ids[k as int]);
                return false;
            }
            k = k + 1;
        }
        j = j + 1;
    }
    true
}


/// What `map_catalog_error` gives for each value.
pub open spec fn map_catalog_error_spec(error: BackupCatalogError) -> ListBackupCatalogError {
    match error {
        BackupCatalogError::InvalidLimit | BackupCatalogError::InvalidCursor => ListBackupCatalogError::InvalidInput,
        BackupCatalogError::StorageUnavailable => ListBackupCatalogError::CatalogUnavailable,
        BackupCatalogError::CorruptedCatalog => ListBackupCatalogError::CorruptedCatalog,
    }
}

/// How this usecase reports each backup catalog failure.
#[verifier::when_used_as_spec(map_catalog_error_spec)]
pub fn map_catalog_error(error: BackupCatalogError) -> (result: ListBackupCatalogError)
    ensures
        result == map_catalog_error_spec(error),
{
    match error {
        BackupCatalogError::InvalidLimit | BackupCatalogError::InvalidCursor => ListBackupCatalogError::InvalidInput,
        BackupCatalogError::StorageUnavailable => ListBackupCatalogError::CatalogUnavailable,
        BackupCatalogError::CorruptedCatalog => ListBackupCatalogError::CorruptedCatalog,
    }
}


/// What a catalog listing makes of the page the catalog returned: a failed
/// listing is mapped by `map_catalog_error`; a page that is too long, ends
/// with an invalid cursor, is not newest first or names a package twice is a
/// corrupted catalog; any other page is accepted.
pub fn accept_catalog_page(
    limit: usize,
    listed: Result<(), BackupCatalogError>,
    package_ids: &Vec<String>,
    created_at_epoch_ms: &Vec<Option<u64>>,
    next_cursor: Option<&str>,
) -> (result: Result<(), ListBackupCatalogError>)
    requires
        package_ids@.len() == created_at_epoch_ms@.len(),
    ensures
        match listed {
            Err(error) => result == Err::<(), ListBackupCatalogError>(map_catalog_error(error)),
            Ok(()) => if catalog_page_consistent(limit, strings_view(package_ids@), created_at_epoch_ms@, next_cursor) {
                result is Ok
            } else {
                result == Err::<(), ListBackupCatalogError>(ListBackupCatalogError::CorruptedCatalog)
            },
        },
{
    match listed {
        Err(error) => Err(map_catalog_error(error)),
        Ok(()) => {
            if catalog_page_is_consistent(limit, package_ids, created_at_epoch_ms, next_cursor) {
                Ok(())
            } else {
                Err(ListBackupCatalogError::CorruptedCatalog)
            }
        },
    }
}

} // verus!
