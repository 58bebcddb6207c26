use vstd::prelude::*;
use vstd::string::StrSliceExecFns;
use crate::error::StoreError;
use crate::store::{Store, store_tables, store_in_txn, entry_pairs, lists_table, dml_ok};
use crate::records::{Entry, EntryData};
use crate::clock::now_rfc3339;
use crate::util::lex_le;

verus! {

// The journal-entry repository: one row per calendar date, saved by upsert.

/// All entries, newest date first.
pub fn get_entries(store: &Store) -> (r: Result<Vec<Entry>, StoreError>)
    ensures
        r matches Ok(rows) ==> {
            &&& lists_table(entry_pairs(rows@), store_tables(*store).entries)
            &&& forall|i: int, j: int|
                0 <= i < j < rows@.len() ==> lex_le(
                    (#[trigger] rows@[j]).date@,
                    (#[trigger] rows@[i]).date@,
                )
        },
{
    store.select_entries()
}

/// The entry of one date, if there is one; an absent date is not an error.
pub fn get_entry(store: &Store, date: &str) -> (r: Result<Option<Entry>, StoreError>)
    ensures
        r matches Ok(Some(e)) ==> store_tables(*store).entries.dom().contains(date@) && e.data()
            == store_tables(*store).entries[date@] && e.date@ == date@,
        r matches Ok(None) ==> !store_tables(*store).entries.dom().contains(date@),
{
    store.get_entry_row(date)
}

/// Saves the entry of a date as an upsert: a new date is inserted with a
/// fresh creation stamp; an existing date has its content overwritten while
/// its original creation stamp is preserved.
pub fn save_entry(store: &mut Store, date: &str, yesterday: &str, today: &str) -> (r: Result<
    (),
    StoreError,
>)
    requires
        !store_in_txn(*old(store)),
    ensures
        !store_in_txn(*final(store)),
        r matches Ok(_) ==> {
            let pre = store_tables(*old(store));
            let post = store_tables(*final(store));
            &&& dml_ok(*old(store), *final(store))
            &&& pre.entries.dom().contains(date@) ==> post == pre.with_entries(
                pre.entries.insert(
                    date@,
                    EntryData {
                        yesterday: yesterday@,
                        today: today@,
                        created_at: pre.entries[date@].created_at,
                    },
                ),
            )
            &&& !pre.entries.dom().contains(date@) ==> {
                &&& post == pre.with_entries(post.entries)
                &&& post.entries.remove(date@) =~= pre.entries
                &&& post.entries.dom().contains(date@)
                &&& post.entries[date@].yesterday == yesterday@
                &&& post.entries[date@].today == today@
            }
        },
        r is Err ==> store_tables(*final(store)) == store_tables(*old(store)),
{
    let existing = match store.get_entry_row(date) {
        Ok(e) => e,
        Err(e) => {
            return Err(e);
        },
    };
    let created_at: String = match existing {
        Some(row) => row.created_at,
        None => now_rfc3339(),
    };
    match store.upsert_entry(date, yesterday, today, created_at.as_str()) {
        Ok(_) => {
            proof {
                let pre = store_tables(*old(store));
                let post = store_tables(*final(store));
                if !pre.entries.dom().contains(date@) {
                    assert(post.entries.remove(date@) =~= pre.entries);
                }
            }
            Ok(())
        },
        Err(e) => {
            proof {
                crate::store::lemma_dml_err_outside_txn(*old(store), *final(store));
            }
            Err(e)
        },
    }
}

/// Deletes the entry of a date; deleting an absent date is a no-op.
pub fn delete_entry(store: &mut Store, date: &str) -> (r: Result<(), StoreError>)
    requires
        !store_in_txn(*old(store)),
    ensures
        !store_in_txn(*final(store)),
        r matches Ok(_) ==> dml_ok(*old(store), *final(store)) && store_tables(*final(store))
            == store_tables(*old(store)).with_entries(
            store_tables(*old(store)).entries.remove(date@),
        ),
        r is Err ==> store_tables(*final(store)) == store_tables(*old(store)),
{
    match store.delete_entry_row(date) {
        Ok(_) => Ok(()),
        Err(e) => {
            proof {
                crate::store::lemma_dml_err_outside_txn(*old(store), *final(store));
            }
            Err(e)
        },
    }
}

/// Lower-cases an ASCII letter; any other character is unchanged.  The
/// stored text is matched case-insensitively in this sense.
pub open spec fn spec_lower_ascii(c: char) -> char {
    if c == 'A' {
        'a'
    } else     if c == 'B' {
        'b'
    } else     if c == 'C' {
        'c'
    } else     if c == 'D' {
        'd'
    } else     if c == 'E' {
        'e'
    } else     if c == 'F' {
        'f'
    } else     if c == 'G' {
        'g'
    } else     if c == 'H' {
        'h'
    } else     if c == 'I' {
        'i'
    } else     if c == 'J' {
        'j'
    } else     if c == 'K' {
        'k'
    } else     if c == 'L' {
        'l'
    } else     if c == 'M' {
        'm'
    } else     if c == 'N' {
        'n'
    } else     if c == 'O' {
        'o'
    } else     if c == 'P' {
        'p'
    } else     if c == 'Q' {
        'q'
    } else     if c == 'R' {
        'r'
    } else     if c == 'S' {
        's'
    } else     if c == 'T' {
        't'
    } else     if c == 'U' {
        'u'
    } else     if c == 'V' {
        'v'
    } else     if c == 'W' {
        'w'
    } else     if c == 'X' {
        'x'
    } else     if c == 'Y' {
        'y'
    } else     if c == 'Z' {
        'z'
    } else {
        c
    }
}

pub open spec fn lower_seq(s: Seq<char>) -> Seq<char> {
    s.map_values(|c: char| spec_lower_ascii(c))
}

/// `needle` occurs in `hay` starting at position `at`.
pub open spec fn occurs_at(hay: Seq<char>, needle: Seq<char>, at: int) -> bool {
    &&& 0 <= at
    &&& at + needle.len() <= hay.len()
    &&& hay.subrange(at, at + needle.len()) == needle
}

/// Case-insensitive substring containment.
pub open spec fn contains_text(hay: Seq<char>, needle: Seq<char>) -> bool {
    exists|at: int| occurs_at(lower_seq(hay), lower_seq(needle), at)
}

/// An entry matches a search query when either of its content fields
/// contains the query, ignoring ASCII case.
pub open spec fn entry_matches(e: Entry, query: Seq<char>) -> bool {
    contains_text(e.yesterday@, query) || contains_text(e.today@, query)
}

/// The search predicate as a single closure value, so that contracts and
/// proofs speak of one and the same filter.
pub open spec fn search_pred(query: Seq<char>) -> spec_fn(Entry) -> bool {
    |e: Entry| entry_matches(e, query)
}

fn lower_ascii(c: char) -> (r: char)
    ensures
        r == spec_lower_ascii(c),
{
    match c {
        'A' => 'a',
        'B' => 'b',
        'C' => 'c',
        'D' => 'd',
        'E' => 'e',
        'F' => 'f',
        'G' => 'g',
        'H' => 'h',
        'I' => 'i',
        'J' => 'j',
        'K' => 'k',
        'L' => 'l',
        'M' => 'm',
        'N' => 'n',
        'O' => 'o',
        'P' => 'p',
        'Q' => 'q',
        'R' => 'r',
        'S' => 's',
        'T' => 't',
        'U' => 'u',
        'V' => 'v',
        'W' => 'w',
        'X' => 'x',
        'Y' => 'y',
        'Z' => 'z',
        _ => c,
    }
}

fn contains_sub(hay: &str, needle: &str) -> (r: bool)
    ensures
        r == contains_text(hay@, needle@),
{
    let h_len = hay.unicode_len();
    let n_len = needle.unicode_len();
    if n_len > h_len {
        proof {
            assert forall|at: int| !occurs_at(lower_seq(hay@), lower_seq(needle@), at) by {}
        }
        return false;
    }
    if n_len == 0 {
        proof {
            assert(lower_seq(hay@).subrange(0, 0) =~= lower_seq(needle@));
            assert(occurs_at(lower_seq(hay@), lower_seq(needle@), 0));
        }
        return true;
    }
    let mut at: usize = 0;
    while at <= h_len - n_len
        invariant
            h_len == hay@.len(),
            n_len == needle@.len(),
            1 <= n_len <= h_len,
            at <= h_len - n_len + 1,
            forall|p: int| 0 <= p < at ==> !occurs_at(lower_seq(hay@), lower_seq(needle@), p),
        decreases h_len - n_len + 1 - at,
    {
        let mut k: usize = 0;
        let mut matches_here = true;
        while matches_here && k < n_len
            invariant
                h_len == hay@.len(),
                n_len == needle@.len(),
                at + n_len <= h_len,
                k <= n_len,
                matches_here ==> forall|q: int|
                    0 <= q < k ==> lower_seq(hay@)[at + q] == #[trigger] lower_seq(needle@)[q],
                !matches_here ==> !occurs_at(lower_seq(hay@), lower_seq(needle@), at as int),
            decreases n_len - k + (if matches_here { 1int } else { 0int }),
        {
            if lower_ascii(hay.get_char(at + k)) != lower_ascii(needle.get_char(k)) {
                matches_here = false;
                proof {
                    assert(lower_seq(hay@)[at + k] == spec_lower_ascii(hay@[at + k]));
                    assert(lower_seq(needle@)[k as int] == spec_lower_ascii(needle@[k as int]));
                    assert(lower_seq(hay@)[at + k] != lower_seq(needle@)[k as int]);
                    assert(!occurs_at(lower_seq(hay@), lower_seq(needle@), at as int)) by {
                        if occurs_at(lower_seq(hay@), lower_seq(needle@), at as int) {
                            assert(lower_seq(hay@).subrange(
                                at as int,
                                at + lower_seq(needle@).len(),
                            )[k as int] == lower_seq(needle@)[k as int]);
                        }
                    }
                }
            } else {
                proof {
                    assert(lower_seq(hay@)[at + k] == spec_lower_ascii(hay@[at + k]));
                    assert(lower_seq(needle@)[k as int] == spec_lower_ascii(needle@[k as int]));
                }
                k = k + 1;
            }
        }
        if matches_here {
            proof {
                assert(lower_seq(needle@).len() == n_len);
                assert forall|q: int| 0 <= q < n_len implies lower_seq(hay@).subrange(
                    at as int,
                    at + n_len,
                )[q] == lower_seq(needle@)[q] by {
                    assert(lower_seq(hay@)[at + q] == lower_seq(needle@)[q]);
                }
                assert(lower_seq(hay@).subrange(at as int, at + n_len) =~= lower_seq(needle@));
                assert(occurs_at(lower_seq(hay@), lower_seq(needle@), at as int));
            }
            return true;
        }
        at = at + 1;
    }
    proof {
        assert forall|p: int| !occurs_at(lower_seq(hay@), lower_seq(needle@), p) by {
            if occurs_at(lower_seq(hay@), lower_seq(needle@), p) {
                assert(0 <= p < at);
            }
        }
    }
    false
}

/// Entries whose content matches the query, ignoring ASCII case, newest
/// date first.
pub fn search_entries(store: &Store, query: &str) -> (r: Result<Vec<Entry>, StoreError>)
    ensures
        r matches Ok(rows) ==> (exists|all: Seq<Entry>|
            {
                &&& #[trigger] lists_table(entry_pairs(all), store_tables(*store).entries)
                &&& forall|i: int, j: int|
                    0 <= i < j < all.len() ==> lex_le(
                        (#[trigger] all[j]).date@,
                        (#[trigger] all[i]).date@,
                    )
                &&& rows@ == all.filter(search_pred(query@))
            }),
{
    let all = match store.select_entries() {
        Ok(v) => v,
        Err(e) => {
            return Err(e);
        },
    };
    let ghost all_seq = all@;
    let mut out: Vec<Entry> = Vec::new();
    let n = all.len();
    let mut i: usize = 0;
    proof {
        reveal(Seq::filter);
        assert(all_seq.take(0) =~= Seq::<Entry>::empty());
    }
    while i < n
        invariant
            n == all_seq.len(),
            all_seq == all@,
            i <= n,
            out@ == all_seq.take(i as int).filter(search_pred(query@)),
        decreases n - i,
    {
        let matched = {
            let e = &all[i];
            contains_sub(e.yesterday.as_str(), query) || contains_sub(e.today.as_str(), query)
        };
        if matched {
            let e = &all[i];
            let copy = Entry {
                id: e.id,
                date: e.date.clone(),
                yesterday: e.yesterday.clone(),
                today: e.today.clone(),
                created_at: e.created_at.clone(),
            };
            proof {
                assert(copy == all_seq[i as int]);
            }
            out.push(copy);
        }
        proof {
            reveal(Seq::filter);
            let pred = search_pred(query@);
            assert(all_seq.take(i + 1).drop_last() =~= all_seq.take(i as int));
            assert(all_seq.take(i + 1).last() == all_seq[i as int]);
            if matched {
                assert(entry_matches(all_seq[i as int], query@));
                assert(pred(all_seq[i as int]));
                assert(out@ == all_seq.take(i + 1).filter(pred));
            } else {
                assert(!entry_matches(all_seq[i as int], query@));
                assert(!pred(all_seq[i as int]));
                assert(out@ == all_seq.take(i + 1).filter(pred));
            }
        }
        i = i + 1;
    }
    proof {
        assert(all_seq.take(n as int) =~= all_seq);
    }
    Ok(out)
}

} // verus!
