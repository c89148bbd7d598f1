use vstd::prelude::*;

use crate::connection::VpnFile;

verus! {

/// Why the catalog could not be built.
#[derive(Clone, Copy, Debug, PartialEq, Eq, Structural)]
pub enum CatalogError {
    /// The profile directory could not be opened.
    DirectoryUnreadable,
    /// One entry of the directory could not be inspected.
    EntryUnreadable,
    /// A file name or a path cannot be represented as text.
    NonUtf8Name,
}

/// What listing the directory gave for one entry: whether it could be
/// inspected, and its file name and full path where they are valid text.
pub struct DirEntryScan {
    pub readable: bool,
    pub name: Option<String>,
    pub path: Option<String>,
}

/// The error that one entry causes, if any.
pub open spec fn entry_error(e: DirEntryScan) -> Option<CatalogError> {
    if !e.readable {
        Some(CatalogError::EntryUnreadable)
    } else if e.name is None || e.path is None {
        Some(CatalogError::NonUtf8Name)
    } else {
        None
    }
}

/// Entry `k` is the first one that causes an error.
pub open spec fn first_bad_entry(entries: Seq<DirEntryScan>, k: int) -> bool {
    &&& 0 <= k < entries.len()
    &&& entry_error(entries[k]) is Some
    &&& forall|j: int| 0 <= j < k ==> entry_error(#[trigger] entries[j]) is None
}

/// Builds the profile files from a directory listing (`None` when the
/// directory could not be opened), one per entry and in the listing's order:
/// the title is the entry's file name and the path its full path. The first
/// entry that cannot be inspected or named as text decides the error.
pub fn list_vpn_files(listing: Option<Vec<DirEntryScan>>) -> (r: Result<
    Vec<VpnFile>,
    CatalogError,
>)
    ensures
        listing is None ==> r == Err::<Vec<VpnFile>, CatalogError>(
            CatalogError::DirectoryUnreadable,
        ),
        listing matches Some(entries) ==> {
            &&& r is Ok <==> (forall|j: int|
                0 <= j < entries@.len() ==> entry_error(#[trigger] entries@[j]) is None)
            &&& r matches Ok(files) ==> {
                &&& files@.len() == entries@.len()
                &&& forall|j: int|
                    0 <= j < entries@.len() ==> {
                        &&& (#[trigger] files@[j]).title@ == entries@[j].name->0@
                        &&& files@[j].path@ == entries@[j].path->0@
                    }
            }
            &&& r matches Err(e) ==> exists|k: int|
                first_bad_entry(entries@, k) && entry_error(#[trigger] entries@[k]) == Some(e)
        },
{
    let entries = match listing {
        None => {
            return Err(CatalogError::DirectoryUnreadable);
        },
        Some(entries) => entries,
    };
    let mut files: Vec<VpnFile> = Vec::new();
    let mut k: usize = 0;
    while k < entries.len()
        invariant
            listing == Some(entries),
            k <= entries@.len(),
            files@.len() == k,
            forall|j: int| 0 <= j < k ==> entry_error(#[trigger] entries@[j]) is None,
            forall|j: int|
                0 <= j < k ==> {
                    &&& (#[trigger] files@[j]).title@ == entries@[j].name->0@
                    &&& files@[j].path@ == entries@[j].path->0@
                },
        decreases entries@.len() - k,
    {
        let e = &entries[k];
        if !e.readable {
            assert(first_bad_entry(entries@, k as int));
            return Err(CatalogError::EntryUnreadable);
        }
        let title = match &e.name {
            Some(name) => name.clone(),
            None => {
                assert(first_bad_entry(entries@, k as int));
                return Err(CatalogError::NonUtf8Name);
            },
        };
        let path = match &e.path {
            Some(path) => path.clone(),
            None => {
                assert(first_bad_entry(entries@, k as int));
                return Err(CatalogError::NonUtf8Name);
            },
        };
        files.push(VpnFile { path, title });
        k = k + 1;
    }
    Ok(files)
}

} // verus!
