//! File hashing: one file's bytes, or a whole list of file read outcomes.
//!
//! The functions here take the bytes of each file as values (a successful
//! read) or the error kind of a failed read; opening and reading the files
//! themselves is the caller's business.

use vstd::prelude::*;
use vstd::slice::slice_subrange;

use crate::HashError;
use crate::PAGE_SIZE;
use crate::ProgressInfo;
use crate::encoding::ascii_bytes;
use crate::encoding::get_lowerhex;
use crate::encoding::hex_lower_of;
use crate::encoding::lemma_hex_lower_is_ascii;
use crate::state::HashState;
use crate::state::digest_of;
use crate::state::fed_bytes;

verus! {

/// The accumulator's contents after one file with bytes `content` has been
/// folded in, starting from contents `acc`: first the file's bytes, then the
/// hex digest (as ASCII bytes) of everything fed so far.
pub open spec fn fold_file(acc: Seq<u8>, content: Seq<u8>) -> Seq<u8> {
    (acc + content) + ascii_bytes(hex_lower_of(digest_of(acc + content)))
}

/// Folding one read outcome: a file whose bytes could not be read leaves the
/// accumulator as it was.
pub open spec fn fold_outcome(acc: Seq<u8>, file: Result<Vec<u8>, HashError>) -> Seq<u8> {
    match file {
        Ok(content) => fold_file(acc, content@),
        Err(_) => acc,
    }
}

/// The accumulator's contents after every outcome in `files` has been folded
/// in, in order.
pub open spec fn fold_files(acc: Seq<u8>, files: Seq<Result<Vec<u8>, HashError>>) -> Seq<u8>
    decreases files.len(),
{
    if files.len() == 0 {
        acc
    } else {
        fold_outcome(fold_files(acc, files.drop_last()), files.last())
    }
}

/// How many outcomes in `files` are successful reads.
pub open spec fn ok_count(files: Seq<Result<Vec<u8>, HashError>>) -> int
    decreases files.len(),
{
    if files.len() == 0 {
        0
    } else {
        ok_count(files.drop_last()) + if files.last() is Ok {
            1int
        } else {
            0int
        }
    }
}

/// The progress event reported for one outcome, where `done` files have been
/// hashed successfully up to and including it.
pub open spec fn event_for(file: Result<Vec<u8>, HashError>, done: int) -> ProgressInfo {
    match file {
        Ok(_) => ProgressInfo::Yield(done as u64),
        Err(e) => ProgressInfo::Error(e),
    }
}

/// The whole progress report for `files`: one event per outcome, in order. A
/// success yields the number of successes so far; a failure reports its error
/// and the count does not advance.
pub open spec fn events_of(files: Seq<Result<Vec<u8>, HashError>>) -> Seq<ProgressInfo>
    decreases files.len(),
{
    if files.len() == 0 {
        Seq::empty()
    } else {
        events_of(files.drop_last()).push(event_for(files.last(), ok_count(files)))
    }
}

/// The aggregate hex digest for `files` folded into an accumulator whose
/// contents were `acc`.
pub open spec fn files_digest(acc: Seq<u8>, files: Seq<Result<Vec<u8>, HashError>>) -> Seq<char> {
    hex_lower_of(digest_of(fold_files(acc, files)))
}

/// Get hash from one **file**'s read outcome.
///
/// A successful read feeds the file's bytes into `hash`, one page at a time,
/// and returns the lowercase hex digest of everything the accumulator has
/// seen so far — the accumulator is not reset, so further files can be folded
/// into the same digest. A failed read leaves `hash` untouched and hands the
/// error back unchanged.
pub fn get_hash_file(data: &Result<Vec<u8>, HashError>, hash: &mut HashState) -> (r: Result<
    String,
    HashError,
>)
    ensures
        data is Ok ==> fed_bytes(*final(hash)) == fed_bytes(*old(hash)) + data->Ok_0@,
        data is Ok ==> r is Ok,
        data is Ok ==> r->Ok_0@ == hex_lower_of(digest_of(fed_bytes(*final(hash)))),
        data is Ok ==> r->Ok_0@.len() == 64,
        data is Err ==> r == Err::<String, HashError>(data->Err_0),
        data is Err ==> *final(hash) == *old(hash),
{
    let content: &Vec<u8> = match data {
        Ok(content) => content,
        Err(e) => {
            return Err(*e);
        },
    };
    let ghost start = fed_bytes(*hash);
    let len = content.len();
    let mut i: usize = 0;
    proof {
        assert(start + content@.subrange(0, 0) =~= start);
    }
    while i < len
        invariant
            i <= len,
            len == content@.len(),
            fed_bytes(*hash) == start + content@.subrange(0, i as int),
        decreases len - i,
    {
        let end = if len - i < PAGE_SIZE {
            len
        } else {
            i + PAGE_SIZE
        };
        let chunk = slice_subrange(content.as_slice(), i, end);
        hash.update(chunk);
        proof {
            assert(start + content@.subrange(0, i as int) + content@.subrange(i as int, end as int)
                =~= start + content@.subrange(0, end as int));
        }
        i = end;
    }
    proof {
        assert(start + content@.subrange(0, len as int) =~= start + content@);
    }
    Ok(get_lowerhex(hash))
}

/// Get hash from **files**.
///
/// Every successful outcome in `files` is folded into `hash` in order — the
/// file's bytes, then the hex digest of everything fed so far — and yields a
/// progress event carrying the number of files hashed successfully so far. A
/// failed outcome contributes nothing to the digest and reports its error;
/// the aggregation goes on. The final hex digest is returned even when some
/// outcomes failed.
///
/// # Error
///
/// If `files` is empty, `HashError::InvalidInput` is returned, the
/// accumulator is not touched, and no progress is reported.
pub fn get_hash_files(files: &Vec<Result<Vec<u8>, HashError>>, hash: &mut HashState) -> (r: (
    Result<String, HashError>,
    Vec<ProgressInfo>,
))
    ensures
        files@.len() == 0 ==> r.0 == Err::<String, HashError>(HashError::InvalidInput),
        files@.len() == 0 ==> r.1@ == Seq::<ProgressInfo>::empty(),
        files@.len() == 0 ==> *final(hash) == *old(hash),
        files@.len() > 0 ==> fed_bytes(*final(hash)) == fold_files(fed_bytes(*old(hash)), files@),
        files@.len() > 0 ==> r.0 is Ok,
        files@.len() > 0 ==> r.0->Ok_0@ == files_digest(fed_bytes(*old(hash)), files@),
        files@.len() > 0 ==> r.0->Ok_0@.len() == 64,
        files@.len() > 0 ==> r.1@ == events_of(files@),
{
    if files.len() == 0 {
        return (Err(HashError::InvalidInput), Vec::new());
    }
    let ghost start = fed_bytes(*hash);
    let mut events: Vec<ProgressInfo> = Vec::new();
    let mut done: u64 = 0;
    let len = files.len();
    let mut i: usize = 0;
    proof {
        assert(files@.subrange(0, 0) =~= Seq::<Result<Vec<u8>, HashError>>::empty());
    }
    while i < len
        invariant
            i <= len,
            len == files@.len(),
            fed_bytes(*hash) == fold_files(start, files@.subrange(0, i as int)),
            events@ == events_of(files@.subrange(0, i as int)),
            done == ok_count(files@.subrange(0, i as int)),
            done <= i,
        decreases len - i,
    {
        let file = &files[i];
        let ghost pre = fed_bytes(*hash);
        match get_hash_file(file, hash) {
            Ok(file_hash) => {
                let bytes = file_hash.as_str().as_bytes();
                proof {
                    lemma_hex_lower_is_ascii(digest_of(fed_bytes(*hash)));
                    vstd::utf8::is_ascii_chars_encode_utf8(file_hash@);
                    assert(bytes@ =~= ascii_bytes(file_hash@));
                }
                hash.update(bytes);
                done = done + 1;
                events.push(ProgressInfo::Yield(done));
            },
            Err(error) => {
                events.push(ProgressInfo::Error(error));
            },
        }
        proof {
            let prefix = files@.subrange(0, i as int);
            let extended = files@.subrange(0, i + 1);
            assert(extended.drop_last() =~= prefix);
            assert(extended.last() == files@[i as int]);
        }
        i = i + 1;
    }
    proof {
        assert(files@.subrange(0, len as int) =~= files@);
    }
    let result = get_lowerhex(hash);
    (Ok(result), events)
}

/// Law: hashing a file is streaming its bytes. For a fresh accumulator —
/// one whose contents are `Seq::empty()` — the hex string `get_hash_file`
/// returns after feeding the content page by page is the hex string that a
/// single `update` call over the whole content, followed by a digest peek,
/// yields: both are `hex_lower_of(digest_of(c))`, whatever the page size.
pub proof fn lemma_hash_file_is_streaming(c: Seq<u8>)
    ensures
        hex_lower_of(digest_of(Seq::<u8>::empty() + c)) == hex_lower_of(digest_of(c)),
{
    assert(Seq::<u8>::empty() + c =~= c);
}

/// Law: aggregation is deterministic. The same file outcomes folded into an
/// accumulator with the same contents give the same final contents, the same
/// aggregate digest, and the same progress report, on every run.
pub proof fn lemma_hash_files_deterministic(
    acc1: Seq<u8>,
    files1: Seq<Result<Vec<u8>, HashError>>,
    acc2: Seq<u8>,
    files2: Seq<Result<Vec<u8>, HashError>>,
)
    requires
        acc1 == acc2,
        files1 == files2,
    ensures
        fold_files(acc1, files1) == fold_files(acc2, files2),
        files_digest(acc1, files1) == files_digest(acc2, files2),
        events_of(files1) == events_of(files2),
{
}

/// Law: when every file is read successfully, the progress report is exactly
/// `Yield(1), Yield(2), ..., Yield(n)` — one event per file, counts strictly
/// increasing, no gaps, no duplicates, and no error events.
pub proof fn lemma_events_all_ok(files: Seq<Result<Vec<u8>, HashError>>)
    requires
        files.len() <= u64::MAX,
        forall|i: int| 0 <= i < files.len() ==> files[i] is Ok,
    ensures
        events_of(files).len() == files.len(),
        ok_count(files) == files.len(),
        forall|i: int|
            0 <= i < files.len() ==> events_of(files)[i] == ProgressInfo::Yield((i + 1) as u64),
    decreases files.len(),
{
    if files.len() > 0 {
        assert(forall|i: int|
            0 <= i < files.drop_last().len() ==> files.drop_last()[i] == files[i]);
        lemma_events_all_ok(files.drop_last());
    }
}

/// Law: when exactly one file, at position `at`, fails to read and every
/// other file is read successfully, the progress report holds one error event
/// at that position and a `Yield` for every other file — counts `1..` before
/// the failure, then continuing without it — and the digest is still produced
/// (the failing input does not abort the aggregation: see `get_hash_files`).
pub proof fn lemma_events_one_error(files: Seq<Result<Vec<u8>, HashError>>, at: int)
    requires
        files.len() <= u64::MAX,
        0 <= at < files.len(),
        files[at] is Err,
        forall|i: int| 0 <= i < files.len() && i != at ==> files[i] is Ok,
    ensures
        events_of(files).len() == files.len(),
        ok_count(files) == files.len() - 1,
        events_of(files)[at] == ProgressInfo::Error(files[at]->Err_0),
        forall|i: int| 0 <= i < at ==> events_of(files)[i] == ProgressInfo::Yield((i + 1) as u64),
        forall|i: int|
            at < i < files.len() ==> events_of(files)[i] == ProgressInfo::Yield(i as u64),
    decreases files.len(),
{
    assert(forall|i: int| 0 <= i < files.drop_last().len() ==> files.drop_last()[i] == files[i]);
    if at == files.len() - 1 {
        lemma_events_all_ok(files.drop_last());
    } else {
        lemma_events_one_error(files.drop_last(), at);
    }
}

} // verus!
