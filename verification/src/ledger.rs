//! Reading and writing one record at its address, as every family does.

use vstd::prelude::*;
use vstd::string::*;
use crate::error::{ApplyError, ContextError, Failure, failure_of_context_error, context_error_text};
use crate::record::{
    Record,
    views,
    lookup,
    upsert,
    find,
    upsert_record,
    keys_unique,
    at_most_one_key,
    lemma_unique_has_at_most_one,
    lemma_lacking_has_at_most_one,
    lemma_index_of_key,
    law_lookup_after_upsert,
    law_lookup_other_after_upsert,
    law_upsert_keeps_keys_unique,
    law_upsert_twice,
};
use crate::state::{
    Entry,
    Stored,
    Slot,
    SlotView,
    StateContext,
    entry_at,
    stored,
    law_fetch_after_store,
    law_fetch_other_after_store,
    law_store_twice,
};
use crate::text::join;

verus! {

/// The outcome of a lookup, with records and errors by their views.
pub open spec fn found_view<T: View>(r: Result<Option<T>, ApplyError>) -> Result<
    Option<T::V>,
    Failure,
> {
    match r {
        Ok(Some(t)) => Ok(Some(t@)),
        Ok(None) => Ok(None),
        Err(e) => Err(e@),
    }
}

/// The outcome of an operation that returns nothing, with errors by their views.
pub open spec fn done_view(r: Result<(), ApplyError>) -> Result<(), Failure> {
    match r {
        Ok(()) => Ok(()),
        Err(e) => Err(e@),
    }
}

/// `r` and the state after an operation agree with `expected`: on success
/// the state is the expected one; on failure the error is the expected one
/// and the state is unchanged.
pub open spec fn applied<V>(
    r: Result<(), ApplyError>,
    before: Seq<SlotView<V>>,
    after: Seq<SlotView<V>>,
    expected: Result<Seq<SlotView<V>>, Failure>,
) -> bool {
    match expected {
        Ok(state) => r is Ok && after == state,
        Err(f) => done_view(r) == Err::<(), Failure>(f) && after == before,
    }
}

/// What reading the record of key `key` at `address` gives: the first record
/// of that key in the list stored there; nothing when the address is empty;
/// an internal error, whose message is `undecodable` followed by the decoding
/// error, when the bytes there do not decode; and the context's own error
/// when the address cannot be read.
pub open spec fn read_record<T: Record>(
    slots: Seq<SlotView<T::V>>,
    address: Seq<char>,
    key: Seq<char>,
    undecodable: Seq<char>,
) -> Result<Option<T::V>, Failure> {
    match entry_at::<T>(slots, address) {
        Stored::Absent => Ok(None),
        Stored::Present(list) => Ok(lookup::<T>(list, key)),
        Stored::Undecodable(why) => Err(Failure::InternalError(undecodable + why)),
        Stored::Unreadable(e) => Err(failure_of_context_error(e)),
    }
}

/// The state after the record `v` is written under key `key` at `address`:
/// the list stored there (empty when the address is empty) with `v` in place
/// of its first record of that key. When the address cannot be read or does
/// not decode, an internal error with message `unreadable`.
pub open spec fn write_record<T: Record>(
    slots: Seq<SlotView<T::V>>,
    address: Seq<char>,
    key: Seq<char>,
    v: T::V,
    unreadable: Seq<char>,
) -> Result<Seq<SlotView<T::V>>, Failure> {
    match entry_at::<T>(slots, address) {
        Stored::Absent => Ok(stored::<T>(slots, address, upsert::<T>(Seq::empty(), key, v))),
        Stored::Present(list) => Ok(stored::<T>(slots, address, upsert::<T>(list, key, v))),
        _ => Err(Failure::InternalError(unreadable)),
    }
}

/// Reads the record of key `key` at `address`.
pub fn get_record<T: Record>(
    context: &StateContext<T>,
    address: &str,
    key: &str,
    undecodable: &str,
) -> (r: Result<Option<T>, ApplyError>)
    ensures
        found_view(r) == read_record::<T>(context@, address@, key@, undecodable@),
{
    match context.fetch(address) {
        Entry::Absent => Ok(None),
        Entry::Present(list) => Ok(find(&list, key)),
        Entry::Undecodable(why) => Err(ApplyError::InternalError(join(undecodable, why.as_str()))),
        Entry::Unreadable(e) => Err(e.to_apply_error()),
    }
}

/// Writes `value` under key `key` at `address`.
pub fn set_record<T: Record>(
    context: &mut StateContext<T>,
    address: String,
    key: &str,
    value: T,
    unreadable: &str,
) -> (r: Result<(), ApplyError>)
    ensures
        applied(
            r,
            old(context)@,
            final(context)@,
            write_record::<T>(old(context)@, address@, key@, value@, unreadable@),
        ),
{
    let mut list = match context.fetch(address.as_str()) {
        Entry::Absent => {
            let empty: Vec<T> = Vec::new();
            assert(views(empty@) =~= Seq::<T::V>::empty());
            empty
        },
        Entry::Present(list) => list,
        _ => {
            return Err(ApplyError::InternalError(String::from_str(unreadable)));
        },
    };
    upsert_record(&mut list, key, value);
    context.store(address, list);
    Ok(())
}

/// Why the lists a transaction wrote could not be committed.
#[derive(Debug, PartialEq, Eq)]
pub enum CommitFailure {
    /// A list could not be encoded.
    Unencodable,
    /// The context refused the write.
    Rejected(ContextError),
}

/// The error of a failed commit: `unencodable` when a list could not be
/// encoded, the text of the context's error when it refused the write; both
/// internal errors.
pub open spec fn commit_failure(f: CommitFailure, unencodable: Seq<char>) -> Failure {
    match f {
        CommitFailure::Unencodable => Failure::InternalError(unencodable),
        CommitFailure::Rejected(e) => Failure::InternalError(context_error_text(e)),
    }
}

/// The error of a failed commit.
pub fn commit_error(failure: &CommitFailure, unencodable: &str) -> (r: ApplyError)
    ensures
        r@ == commit_failure(*failure, unencodable@),
{
    match failure {
        CommitFailure::Unencodable => ApplyError::InternalError(String::from_str(unencodable)),
        CommitFailure::Rejected(e) => ApplyError::InternalError(e.describe()),
    }
}

/// Every list held in the state has no two records with the same key.
pub open spec fn keys_unique_everywhere<T: Record>(slots: Seq<SlotView<T::V>>) -> bool {
    forall|i: int|
        0 <= i < slots.len() ==> match (#[trigger] slots[i]).entry {
            Stored::Present(list) => keys_unique::<T>(list),
            _ => true,
        }
}

/// In a state whose lists have unique keys, the list at any address has.
proof fn lemma_entry_keys_unique<T: Record>(slots: Seq<SlotView<T::V>>, address: Seq<char>)
    requires
        keys_unique_everywhere::<T>(slots),
    ensures
        entry_at::<T>(slots, address) matches Stored::Present(list) ==> keys_unique::<T>(list),
{
    lemma_index_of_key::<Slot<T>>(slots, address);
}

/// Law: writing a record under its own key keeps every list's keys unique.
pub proof fn law_write_keeps_keys_unique<T: Record>(
    slots: Seq<SlotView<T::V>>,
    address: Seq<char>,
    key: Seq<char>,
    v: T::V,
    unreadable: Seq<char>,
)
    requires
        keys_unique_everywhere::<T>(slots),
        T::key_of(v) == key,
        write_record::<T>(slots, address, key, v, unreadable) is Ok,
    ensures
        keys_unique_everywhere::<T>(write_record::<T>(slots, address, key, v, unreadable)->Ok_0),
{
    lemma_entry_keys_unique::<T>(slots, address);
    lemma_index_of_key::<Slot<T>>(slots, address);
    let list = match entry_at::<T>(slots, address) {
        Stored::Present(l) => l,
        _ => Seq::empty(),
    };
    law_upsert_keeps_keys_unique::<T>(list, key, v);
    let after = stored::<T>(slots, address, upsert::<T>(list, key, v));
    assert(write_record::<T>(slots, address, key, v, unreadable)->Ok_0 == after);
    assert forall|i: int| 0 <= i < after.len() implies match (#[trigger] after[i]).entry {
        Stored::Present(l) => keys_unique::<T>(l),
        _ => true,
    } by {
        if i < slots.len() && after[i] == slots[i] {
        } else {
            assert(after[i].entry == Stored::Present(upsert::<T>(list, key, v)));
        }
    }
}

/// The list at `address` holds at most one record of key `key`.
pub open spec fn single_at<T: Record>(
    slots: Seq<SlotView<T::V>>,
    address: Seq<char>,
    key: Seq<char>,
) -> bool {
    match entry_at::<T>(slots, address) {
        Stored::Present(list) => at_most_one_key::<T>(list, key),
        _ => true,
    }
}

/// In a state whose lists have unique keys, every list holds at most one
/// record of each key.
pub proof fn lemma_unique_everywhere_is_single<T: Record>(
    slots: Seq<SlotView<T::V>>,
    address: Seq<char>,
    key: Seq<char>,
)
    requires
        keys_unique_everywhere::<T>(slots),
    ensures
        single_at::<T>(slots, address, key),
{
    lemma_entry_keys_unique::<T>(slots, address);
    if let Stored::Present(l) = entry_at::<T>(slots, address) {
        lemma_unique_has_at_most_one::<T>(l, key);
    }
}

/// When a read of key `key` at `address` finds nothing, the list there holds
/// at most one record of that key.
pub proof fn lemma_not_found_is_single<T: Record>(
    slots: Seq<SlotView<T::V>>,
    address: Seq<char>,
    key: Seq<char>,
    undecodable: Seq<char>,
)
    requires
        read_record::<T>(slots, address, key, undecodable) == Ok::<Option<T::V>, Failure>(None),
    ensures
        single_at::<T>(slots, address, key),
{
    if let Stored::Present(l) = entry_at::<T>(slots, address) {
        lemma_index_of_key::<T>(l, key);
        lemma_lacking_has_at_most_one::<T>(l, key);
    }
}

/// Law: a written record is what a read of its key at its address then
/// finds, when the list there held at most one record of that key.
pub proof fn law_read_after_write<T: Record>(
    slots: Seq<SlotView<T::V>>,
    address: Seq<char>,
    key: Seq<char>,
    v: T::V,
    unreadable: Seq<char>,
    undecodable: Seq<char>,
)
    requires
        single_at::<T>(slots, address, key),
        T::key_of(v) == key,
        write_record::<T>(slots, address, key, v, unreadable) is Ok,
    ensures
        read_record::<T>(
            write_record::<T>(slots, address, key, v, unreadable)->Ok_0,
            address,
            key,
            undecodable,
        ) == Ok::<Option<T::V>, Failure>(Some(v)),
{
    let list = match entry_at::<T>(slots, address) {
        Stored::Present(l) => l,
        _ => Seq::empty(),
    };
    law_fetch_after_store::<T>(slots, address, upsert::<T>(list, key, v));
    law_lookup_after_upsert::<T>(list, key, v);
}

/// Law: writing a record leaves what a read of any other key finds, at any
/// address, as it was.
pub proof fn law_read_other_after_write<T: Record>(
    slots: Seq<SlotView<T::V>>,
    address: Seq<char>,
    key: Seq<char>,
    v: T::V,
    unreadable: Seq<char>,
    other_address: Seq<char>,
    other_key: Seq<char>,
    undecodable: Seq<char>,
)
    requires
        T::key_of(v) == key,
        other_key != key,
        write_record::<T>(slots, address, key, v, unreadable) is Ok,
    ensures
        read_record::<T>(
            write_record::<T>(slots, address, key, v, unreadable)->Ok_0,
            other_address,
            other_key,
            undecodable,
        ) == read_record::<T>(slots, other_address, other_key, undecodable),
{
    let list = match entry_at::<T>(slots, address) {
        Stored::Present(l) => l,
        _ => Seq::empty(),
    };
    let written = upsert::<T>(list, key, v);
    if other_address == address {
        law_fetch_after_store::<T>(slots, address, written);
        law_lookup_other_after_upsert::<T>(list, key, v, other_key);
        if entry_at::<T>(slots, address) is Absent {
            crate::record::lemma_lacks_key_is_none::<T>(Seq::<T::V>::empty(), other_key);
        }
    } else {
        law_fetch_other_after_store::<T>(slots, address, written, other_address);
    }
}

/// Law: writing the same record twice leaves the state as writing it once
/// does, when the list at its address held at most one record of its key.
pub proof fn law_write_twice<T: Record>(
    slots: Seq<SlotView<T::V>>,
    address: Seq<char>,
    key: Seq<char>,
    v: T::V,
    unreadable: Seq<char>,
)
    requires
        single_at::<T>(slots, address, key),
        T::key_of(v) == key,
        write_record::<T>(slots, address, key, v, unreadable) is Ok,
    ensures
        write_record::<T>(
            write_record::<T>(slots, address, key, v, unreadable)->Ok_0,
            address,
            key,
            v,
            unreadable,
        ) == write_record::<T>(slots, address, key, v, unreadable),
{
    let list = match entry_at::<T>(slots, address) {
        Stored::Present(l) => l,
        _ => Seq::empty(),
    };
    let once = upsert::<T>(list, key, v);
    law_fetch_after_store::<T>(slots, address, once);
    law_upsert_twice::<T>(list, key, v);
    law_store_twice::<T>(slots, address, once);
}

} // verus!
