//! Summing the sizes of the visible entries of a directory listing.

use vstd::prelude::*;
use vstd::string::*;

verus! {

/// One immediate entry of a directory: its name and the size its metadata
/// reports, in bytes.
#[derive(Debug)]
pub struct DirEntry {
    pub name: String,
    pub size: u64,
}

/// Whether a directory entry name marks a hidden entry: it starts with a dot.
pub open spec fn is_hidden_name(name: Seq<char>) -> bool {
    name.len() > 0 && name[0] == '.'
}

/// What one entry adds to the total: nothing when hidden, its size otherwise.
pub open spec fn entry_contribution(e: DirEntry) -> int {
    if is_hidden_name(e.name@) {
        0
    } else {
        e.size as int
    }
}

/// The total size, in bytes, of the visible entries of a listing.
pub open spec fn visible_total(entries: Seq<DirEntry>) -> int
    decreases entries.len(),
{
    if entries.len() == 0 {
        0
    } else {
        visible_total(entries.drop_last()) + entry_contribution(entries.last())
    }
}

/// The sum of the sizes of all entries of a listing, hidden or not.
pub open spec fn size_total(entries: Seq<DirEntry>) -> int
    decreases entries.len(),
{
    if entries.len() == 0 {
        0
    } else {
        size_total(entries.drop_last()) + entries.last().size as int
    }
}

/// Whether an entry name marks a hidden entry.
pub fn is_hidden(name: &str) -> (r: bool)
    ensures
        r == is_hidden_name(name@),
{
    if name.is_empty() {
        false
    } else {
        name.get_char(0) == '.'
    }
}

proof fn lemma_visible_total_take_step(entries: Seq<DirEntry>, i: int)
    requires
        0 <= i < entries.len(),
    ensures
        visible_total(entries.take(i + 1)) == visible_total(entries.take(i))
            + entry_contribution(entries[i]),
{
    assert(entries.take(i + 1).drop_last() =~= entries.take(i));
    assert(entries.take(i + 1).last() == entries[i]);
}

proof fn lemma_visible_total_take_le(entries: Seq<DirEntry>, i: int)
    requires
        0 <= i <= entries.len(),
    ensures
        visible_total(entries.take(i)) <= visible_total(entries),
    decreases entries.len() - i,
{
    if i == entries.len() {
        assert(entries.take(i) =~= entries);
    } else {
        lemma_visible_total_take_step(entries, i);
        lemma_visible_total_take_le(entries, i + 1);
    }
}

/// Law: for a listing whose entries are all visible, the total that the sum
/// works from is the plain sum of the entry sizes — so, with the contract of
/// [`calculate_dir_total`], the reported value is that sum divided by the
/// factor, truncated.
pub proof fn lemma_all_visible_total(entries: Seq<DirEntry>)
    requires
        forall|i: int| 0 <= i < entries.len() ==> !is_hidden_name(entries[i].name@),
    ensures
        visible_total(entries) == size_total(entries),
    decreases entries.len(),
{
    if entries.len() > 0 {
        assert(forall|i: int|
            0 <= i < entries.drop_last().len() ==> !is_hidden_name(
                entries.drop_last()[i].name@,
            ));
        lemma_all_visible_total(entries.drop_last());
        assert(!is_hidden_name(entries.last().name@));
    }
}

/// Law: a hidden entry contributes nothing, whatever its size — removing it
/// from a listing leaves the visible total unchanged.
pub proof fn lemma_hidden_entry_contributes_zero(entries: Seq<DirEntry>, i: int)
    requires
        0 <= i < entries.len(),
        is_hidden_name(entries[i].name@),
    ensures
        visible_total(entries) == visible_total(entries.remove(i)),
    decreases entries.len(),
{
    if i == entries.len() - 1 {
        assert(entries.remove(i) =~= entries.drop_last());
    } else {
        lemma_hidden_entry_contributes_zero(entries.drop_last(), i);
        assert(entries.remove(i).drop_last() =~= entries.drop_last().remove(i));
        assert(entries.remove(i).last() == entries.last());
    }
}

/// The total size of the visible entries of a listing, divided by `factor`
/// with truncation. `None` only when the raw byte total of the visible
/// entries does not fit in a machine word.
pub fn calculate_dir_total(entries: &Vec<DirEntry>, factor: u64) -> (r: Option<u64>)
    requires
        factor >= 1,
    ensures
        visible_total(entries@) <= u64::MAX ==> r == Some::<u64>(
            (visible_total(entries@) / factor as int) as u64,
        ),
        visible_total(entries@) > u64::MAX ==> r is None,
{
    let mut total: u64 = 0;
    let mut i: usize = 0;
    while i < entries.len()
        invariant
            i <= entries@.len(),
            total as int == visible_total(entries@.take(i as int)),
        decreases entries@.len() - i,
    {
        let entry = &entries[i];
        proof {
            lemma_visible_total_take_step(entries@, i as int);
        }
        if !is_hidden(entry.name.as_str()) {
            if entry.size > u64::MAX - total {
                proof {
                    lemma_visible_total_take_le(entries@, i as int + 1);
                }
                return None;
            }
            total = total + entry.size;
        }
        i = i + 1;
    }
    proof {
        assert(entries@.take(entries@.len() as int) =~= entries@);
    }
    Some(total / factor)
}

} // verus!
