//! Discovery of process and task identifiers from raw directory listings.
//!
//! The top-level process table and each process's task directory are read
//! by the caller; this module turns the raw entry-name lists into
//! identifier lists. Entries that do not parse as valid identifiers are
//! silently skipped (they are aliases such as "self" coexisting in the
//! same namespace), a designated identifier can be excluded (a process's
//! own id never appears in its task list), and duplicates are removed so
//! the report never shows a doubled row.

use vstd::prelude::*;
use crate::errors::ScanError;
use crate::parse::{i32_numeral_value, is_i32_numeral, parse_task_from_filename};

verus! {

/// Whether an entry name is kept when collecting identifiers while
/// excluding `exclude`: it parses as a decimal numeral with a
/// non-negative value different from `exclude`.
pub open spec fn keeps_entry(entry: Seq<char>, exclude: i32) -> bool {
    is_i32_numeral(entry) && i32_numeral_value(entry) >= 0 && i32_numeral_value(entry)
        != exclude as int
}

/// The identifier list produced from an entry-name list: every kept entry
/// contributes its value, in entry order, first occurrence only.
pub open spec fn id_list_of(entries: Seq<String>, exclude: i32) -> Seq<i32>
    decreases entries.len(),
{
    if entries.len() == 0 {
        Seq::empty()
    } else {
        let prefix = id_list_of(entries.drop_last(), exclude);
        let e = entries.last()@;
        if keeps_entry(e, exclude) && !prefix.contains(i32_numeral_value(e) as i32) {
            prefix.push(i32_numeral_value(e) as i32)
        } else {
            prefix
        }
    }
}

/// The process-identifier list of the top-level listing. No identifier is
/// excluded: every valid identifier is non-negative, so excluding -1
/// excludes nothing.
pub open spec fn process_id_list_of(entries: Seq<String>) -> Seq<i32> {
    id_list_of(entries, -1i32)
}

/// Law: a collected identifier list holds only valid (non-negative)
/// identifiers, never holds the excluded identifier, and holds no
/// duplicates.
pub proof fn lemma_id_list_props(entries: Seq<String>, exclude: i32)
    ensures
        forall|k: int|
            0 <= k < id_list_of(entries, exclude).len() ==> id_list_of(entries, exclude)[k] >= 0
                && id_list_of(entries, exclude)[k] != exclude,
        forall|k1: int, k2: int|
            0 <= k1 < k2 < id_list_of(entries, exclude).len() ==> id_list_of(entries, exclude)[k1]
                != id_list_of(entries, exclude)[k2],
    decreases entries.len(),
{
    if entries.len() > 0 {
        lemma_id_list_props(entries.drop_last(), exclude);
        let prefix = id_list_of(entries.drop_last(), exclude);
        let e = entries.last()@;
        if keeps_entry(e, exclude) && !prefix.contains(i32_numeral_value(e) as i32) {
            crate::parse::lemma_i32_numeral_value_bounds(e);
            let v = i32_numeral_value(e) as i32;
            assert(v as int == i32_numeral_value(e));
            assert(forall|k: int| 0 <= k < prefix.len() ==> prefix[k] != v);
        }
    }
}

/// Whether a vector holds a given value.
fn vec_contains_i32(v: &Vec<i32>, x: i32) -> (r: bool)
    ensures
        r == v@.contains(x),
{
    let mut k: usize = 0;
    while k < v.len()
        invariant
            0 <= k <= v@.len(),
            forall|t: int| 0 <= t < k ==> v@[t] != x,
        decreases v@.len() - k,
    {
        if v[k] == x {
            return true;
        }
        k = k + 1;
    }
    false
}

/// Collects the identifiers denoted by a list of entry names, skipping
/// entries that are not valid identifiers, excluding `exclude`, and
/// removing duplicates; order of first occurrence is kept.
pub fn collect_ids(entries: &Vec<String>, exclude: i32) -> (r: Vec<i32>)
    ensures
        r@ == id_list_of(entries@, exclude),
{
    let mut out: Vec<i32> = Vec::new();
    let mut k: usize = 0;
    while k < entries.len()
        invariant
            0 <= k <= entries@.len(),
            out@ == id_list_of(entries@.subrange(0, k as int), exclude),
        decreases entries@.len() - k,
    {
        let found = parse_task_from_filename(entries[k].as_str());
        match found {
            Some(t) => {
                if t >= 0 && t != exclude && !vec_contains_i32(&out, t) {
                    out.push(t);
                }
            },
            None => {},
        }
        proof {
            let p = entries@.subrange(0, k as int + 1);
            assert(p.drop_last() =~= entries@.subrange(0, k as int));
            assert(p.last() == entries@[k as int]);
        }
        k = k + 1;
    }
    proof {
        assert(entries@.subrange(0, entries@.len() as int) =~= entries@);
    }
    out
}

/// Resolves a process's task-identifier list from the raw directory
/// listing read for it. A failed read fails with the reader's error; a
/// successful result holds only valid identifiers, never contains `id`
/// itself, and holds no duplicates.
pub fn list_task_ids(entries: Result<Vec<String>, ScanError>, id: i32) -> (r: Result<
    Vec<i32>,
    ScanError,
>)
    ensures
        entries matches Err(e) ==> r == Err::<Vec<i32>, ScanError>(e),
        entries matches Ok(list) ==> (r matches Ok(ids) && ids@ == id_list_of(list@, id)),
        r matches Ok(ids) ==> forall|k: int| 0 <= k < ids@.len() ==> ids@[k] != id && ids@[k] >= 0,
        r matches Ok(ids) ==> forall|k1: int, k2: int|
            0 <= k1 < k2 < ids@.len() ==> ids@[k1] != ids@[k2],
{
    match entries {
        Ok(list) => {
            let ids = collect_ids(&list, id);
            proof {
                lemma_id_list_props(list@, id);
            }
            Ok(ids)
        },
        Err(e) => Err(e),
    }
}

/// Enumerates the top-level process identifiers from the raw process-table
/// listing. A failure to read the listing at all is fatal: it becomes an
/// enumeration failure and no partial result is produced. A successful
/// result holds only valid identifiers, without duplicates.
pub fn discover_process_ids(entries: Result<Vec<String>, ScanError>) -> (r: Result<
    Vec<i32>,
    ScanError,
>)
    ensures
        r is Err <==> entries is Err,
        entries is Err ==> r == Err::<Vec<i32>, ScanError>(ScanError::EnumerationFailure),
        entries matches Ok(list) ==> (r matches Ok(ids) && ids@ == process_id_list_of(list@)),
        r matches Ok(ids) ==> forall|k: int| 0 <= k < ids@.len() ==> ids@[k] >= 0,
        r matches Ok(ids) ==> forall|k1: int, k2: int|
            0 <= k1 < k2 < ids@.len() ==> ids@[k1] != ids@[k2],
{
    match entries {
        Ok(list) => {
            let ids = collect_ids(&list, -1);
            proof {
                lemma_id_list_props(list@, -1i32);
            }
            Ok(ids)
        },
        Err(_) => Err(ScanError::EnumerationFailure),
    }
}

} // verus!
