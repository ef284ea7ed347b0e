//! Folder hashing: aggregating the files collected from one folder, or from
//! several folders in order.
//!
//! Walking a directory tree and reading the files it holds is the caller's
//! business; these functions take the collected read outcomes, one list per
//! folder, and fold them into one aggregate digest.

use vstd::prelude::*;

use crate::HashError;
use crate::ProgressInfo;
use crate::file::events_of;
use crate::file::files_digest;
use crate::file::fold_files;
use crate::file::get_hash_files;
use crate::state::HashState;
use crate::state::fed_bytes;

verus! {

/// The file lists of several folders, concatenated in folder order, without
/// deduplication.
pub open spec fn concat_folders(folders: Seq<Vec<Result<Vec<u8>, HashError>>>) -> Seq<
    Result<Vec<u8>, HashError>,
>
    decreases folders.len(),
{
    if folders.len() == 0 {
        Seq::empty()
    } else {
        concat_folders(folders.drop_last()) + folders.last()@
    }
}

/// Get hash from a **folder**.
///
/// `folder` holds the read outcome of every regular file collected from one
/// folder; the outcomes are folded into `hash` in order, exactly as
/// [`get_hash_files`] does.
///
/// # Error
///
/// If the folder holds no files, `HashError::InvalidInput` is returned and
/// the accumulator is not touched.
pub fn get_hash_folder(folder: &Vec<Result<Vec<u8>, HashError>>, hash: &mut HashState) -> (r: (
    Result<String, HashError>,
    Vec<ProgressInfo>,
))
    ensures
        folder@.len() == 0 ==> r.0 == Err::<String, HashError>(HashError::InvalidInput),
        folder@.len() == 0 ==> r.1@ == Seq::<ProgressInfo>::empty(),
        folder@.len() == 0 ==> *final(hash) == *old(hash),
        folder@.len() > 0 ==> fed_bytes(*final(hash)) == fold_files(fed_bytes(*old(hash)), folder@),
        folder@.len() > 0 ==> r.0 is Ok,
        folder@.len() > 0 ==> r.0->Ok_0@ == files_digest(fed_bytes(*old(hash)), folder@),
        folder@.len() > 0 ==> r.0->Ok_0@.len() == 64,
        folder@.len() > 0 ==> r.1@ == events_of(folder@),
{
    get_hash_files(folder, hash)
}

/// Get hash from **folders**.
///
/// The per-folder file lists are concatenated in folder order — no
/// deduplication across folders — and the combined list is folded into
/// `hash` exactly as [`get_hash_files`] does.
///
/// # Error
///
/// If the folders hold no files at all, `HashError::InvalidInput` is
/// returned and the accumulator is not touched.
pub fn get_hash_folders(folders: Vec<Vec<Result<Vec<u8>, HashError>>>, hash: &mut HashState) -> (r:
    (Result<String, HashError>, Vec<ProgressInfo>))
    ensures
        concat_folders(folders@).len() == 0 ==> r.0 == Err::<String, HashError>(
            HashError::InvalidInput,
        ),
        concat_folders(folders@).len() == 0 ==> r.1@ == Seq::<ProgressInfo>::empty(),
        concat_folders(folders@).len() == 0 ==> *final(hash) == *old(hash),
        concat_folders(folders@).len() > 0 ==> fed_bytes(*final(hash)) == fold_files(
            fed_bytes(*old(hash)),
            concat_folders(folders@),
        ),
        concat_folders(folders@).len() > 0 ==> r.0 is Ok,
        concat_folders(folders@).len() > 0 ==> r.0->Ok_0@ == files_digest(
            fed_bytes(*old(hash)),
            concat_folders(folders@),
        ),
        concat_folders(folders@).len() > 0 ==> r.0->Ok_0@.len() == 64,
        concat_folders(folders@).len() > 0 ==> r.1@ == events_of(concat_folders(folders@)),
{
    let ghost all_folders = folders@;
    let mut remaining = folders;
    let mut combined: Vec<Result<Vec<u8>, HashError>> = Vec::new();
    let total = remaining.len();
    let mut k: usize = 0;
    proof {
        assert(all_folders.subrange(0, 0) =~= Seq::<Vec<Result<Vec<u8>, HashError>>>::empty());
        assert(remaining@ =~= all_folders.subrange(0, all_folders.len() as int));
    }
    while remaining.len() > 0
        invariant
            total == all_folders.len(),
            k + remaining@.len() == all_folders.len(),
            remaining@ == all_folders.subrange(k as int, all_folders.len() as int),
            combined@ == concat_folders(all_folders.subrange(0, k as int)),
        decreases remaining@.len(),
    {
        let mut folder = remaining.remove(0);
        combined.append(&mut folder);
        proof {
            assert(all_folders.subrange(k as int, all_folders.len() as int).remove(0) =~= all_folders
                .subrange(k + 1, all_folders.len() as int));
            let extended = all_folders.subrange(0, k + 1);
            assert(extended.drop_last() =~= all_folders.subrange(0, k as int));
            assert(extended.last() == all_folders[k as int]);
        }
        k = k + 1;
    }
    proof {
        assert(all_folders.subrange(0, all_folders.len() as int) =~= all_folders);
    }
    get_hash_files(&combined, hash)
}

} // verus!
