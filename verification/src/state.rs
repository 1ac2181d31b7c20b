//! The state that a transaction reads and writes, as a list of slots: one
//! per address, each with what the context answered for that address and
//! whether the transaction wrote it.

use vstd::prelude::*;
use crate::error::ContextError;
use crate::record::{
    Record,
    Duplicate,
    views,
    index_of_key,
    position,
    copy_all,
    lemma_index_of_key,
    lemma_first_match_is_index,
    lemma_lacks_key_is_none,
};

verus! {

/// What the context holds at an address, as the transaction sees it.
pub enum Entry<T> {
    /// Nothing is stored at the address.
    Absent,
    /// The address holds this list of records.
    Present(Vec<T>),
    /// The address holds bytes that do not decode as a list of records; the
    /// text describes the decoding error.
    Undecodable(String),
    /// The context could not be read at the address.
    Unreadable(ContextError),
}

/// An entry, with the views of its records and texts.
pub enum Stored<V> {
    Absent,
    Present(Seq<V>),
    Undecodable(Seq<char>),
    Unreadable(ContextError),
}

impl<T: View> View for Entry<T> {
    type V = Stored<T::V>;

    open spec fn view(&self) -> Stored<T::V> {
        match self {
            Entry::Absent => Stored::Absent,
            Entry::Present(list) => Stored::Present(views(list@)),
            Entry::Undecodable(s) => Stored::Undecodable(s@),
            Entry::Unreadable(e) => Stored::Unreadable(*e),
        }
    }
}

/// One address of the state.
pub struct Slot<T> {
    pub address: String,
    pub entry: Entry<T>,
    /// Whether the transaction stored a list at this address.
    pub written: bool,
}

/// A slot, with the views of its address and entry.
pub struct SlotView<V> {
    pub address: Seq<char>,
    pub entry: Stored<V>,
    pub written: bool,
}

impl<T: View> View for Slot<T> {
    type V = SlotView<T::V>;

    open spec fn view(&self) -> SlotView<T::V> {
        SlotView { address: self.address@, entry: self.entry@, written: self.written }
    }
}

impl<T: Record> Entry<T> {
    /// A copy of the entry.
    pub fn duplicate(&self) -> (r: Entry<T>)
        ensures
            r@ == self@,
    {
        match self {
            Entry::Absent => Entry::Absent,
            Entry::Present(list) => Entry::Present(copy_all(list)),
            Entry::Undecodable(s) => Entry::Undecodable(s.clone()),
            Entry::Unreadable(e) => Entry::Unreadable(e.duplicate()),
        }
    }
}

impl<T: Record> Duplicate for Slot<T> {
    fn duplicate(&self) -> (d: Self) {
        Slot { address: self.address.clone(), entry: self.entry.duplicate(), written: self.written }
    }
}

impl<T: Record> Record for Slot<T> {
    open spec fn key_of(v: SlotView<T::V>) -> Seq<char> {
        v.address
    }

    fn key(&self) -> (k: &String) {
        &self.address
    }
}

/// The entry at `address`: that of the first slot with this address, or
/// `Absent` when no slot has it.
pub open spec fn entry_at<T: Record>(slots: Seq<SlotView<T::V>>, address: Seq<char>) -> Stored<
    T::V,
> {
    match index_of_key::<Slot<T>>(slots, address) {
        Some(i) => slots[i].entry,
        None => Stored::Absent,
    }
}

/// The slots after `list` is stored at `address`: the first slot with that
/// address now holds `list` and is marked written; without such a slot, a
/// new written slot is appended.
pub open spec fn stored<T: Record>(
    slots: Seq<SlotView<T::V>>,
    address: Seq<char>,
    list: Seq<T::V>,
) -> Seq<SlotView<T::V>> {
    let slot = SlotView { address, entry: Stored::Present(list), written: true };
    match index_of_key::<Slot<T>>(slots, address) {
        Some(i) => slots.update(i, slot),
        None => slots.push(slot),
    }
}

/// The state a transaction works on.
pub struct StateContext<T> {
    slots: Vec<Slot<T>>,
}

impl<T: View> View for StateContext<T> {
    type V = Seq<SlotView<T::V>>;

    closed spec fn view(&self) -> Seq<SlotView<T::V>> {
        views(self.slots@)
    }
}

impl<T: Record> StateContext<T> {
    /// A context with no address loaded.
    pub fn new() -> (r: Self)
        ensures
            r@ == Seq::<SlotView<T::V>>::empty(),
    {
        let r = StateContext { slots: Vec::new() };
        assert(r@ =~= Seq::<SlotView<T::V>>::empty());
        r
    }

    /// Records what the context holds at `address`, as a slot the transaction
    /// has not written. A slot for an address already loaded is shadowed by
    /// the earlier one.
    pub fn load(&mut self, address: String, entry: Entry<T>)
        ensures
            final(self)@ == old(self)@.push(
                SlotView { address: address@, entry: entry@, written: false },
            ),
    {
        let ghost before = self@;
        self.slots.push(Slot { address, entry, written: false });
        assert(self@ =~= before.push(SlotView { address: address@, entry: entry@, written: false }));
    }

    /// What the context holds at `address`.
    pub fn fetch(&self, address: &str) -> (r: Entry<T>)
        ensures
            r@ == entry_at::<T>(self@, address@),
    {
        match position(&self.slots, address) {
            Some(i) => self.slots[i].entry.duplicate(),
            None => Entry::Absent,
        }
    }

    /// Stores `list` at `address`.
    pub fn store(&mut self, address: String, list: Vec<T>)
        ensures
            final(self)@ == stored::<T>(old(self)@, address@, views(list@)),
    {
        let ghost before = self@;
        let ghost slot = SlotView { address: address@, entry: Stored::Present(views(list@)), written: true };
        match position(&self.slots, address.as_str()) {
            Some(i) => {
                let kept = self.slots[i].address.clone();
                proof {
                    lemma_index_of_key::<Slot<T>>(before, address@);
                }
                self.slots.set(i, Slot { address: kept, entry: Entry::Present(list), written: true });
                assert(self@[i as int] == slot);
                assert(self@ =~= before.update(i as int, slot));
            },
            None => {
                self.slots.push(Slot { address, entry: Entry::Present(list), written: true });
                assert(self@ =~= before.push(slot));
            },
        }
    }

    /// The slots of the context, in order.
    pub fn slots(&self) -> (r: &Vec<Slot<T>>)
        ensures
            views(r@) == self@,
    {
        &self.slots
    }
}

/// Law: after a list is stored at an address, that address holds the list.
pub proof fn law_fetch_after_store<T: Record>(
    slots: Seq<SlotView<T::V>>,
    address: Seq<char>,
    list: Seq<T::V>,
)
    ensures
        entry_at::<T>(stored::<T>(slots, address, list), address) == Stored::Present(list),
{
    lemma_index_of_key::<Slot<T>>(slots, address);
    let t = stored::<T>(slots, address, list);
    match index_of_key::<Slot<T>>(slots, address) {
        Some(i) => {
            assert(forall|j: int| 0 <= j < i ==> t[j] == slots[j]);
            lemma_first_match_is_index::<Slot<T>>(t, address, i);
        },
        None => {
            assert(forall|j: int| 0 <= j < slots.len() ==> t[j] == slots[j]);
            lemma_first_match_is_index::<Slot<T>>(t, address, slots.len() as int);
        },
    }
}

/// Law: storing at one address leaves every other address as it was.
pub proof fn law_fetch_other_after_store<T: Record>(
    slots: Seq<SlotView<T::V>>,
    address: Seq<char>,
    list: Seq<T::V>,
    other: Seq<char>,
)
    requires
        other != address,
    ensures
        entry_at::<T>(stored::<T>(slots, address, list), other) == entry_at::<T>(slots, other),
{
    lemma_index_of_key::<Slot<T>>(slots, address);
    lemma_index_of_key::<Slot<T>>(slots, other);
    let t = stored::<T>(slots, address, list);
    assert(forall|j: int|
        0 <= j < t.len() ==> (#[trigger] t[j]).address == (if j < slots.len() {
            slots[j].address
        } else {
            address
        }));
    match index_of_key::<Slot<T>>(slots, other) {
        Some(m) => {
            assert(forall|j: int| 0 <= j < m ==> (#[trigger] t[j]).address != other);
            lemma_first_match_is_index::<Slot<T>>(t, other, m);
            assert(t[m] == slots[m]);
        },
        None => {
            assert(forall|j: int| 0 <= j < t.len() ==> (#[trigger] t[j]).address != other);
            lemma_lacks_key_is_none::<Slot<T>>(t, other);
        },
    }
}

/// Law: storing the same list twice at an address leaves the slots as
/// storing it once does.
pub proof fn law_store_twice<T: Record>(
    slots: Seq<SlotView<T::V>>,
    address: Seq<char>,
    list: Seq<T::V>,
)
    ensures
        stored::<T>(stored::<T>(slots, address, list), address, list) == stored::<T>(
            slots,
            address,
            list,
        ),
{
    lemma_index_of_key::<Slot<T>>(slots, address);
    let t = stored::<T>(slots, address, list);
    match index_of_key::<Slot<T>>(slots, address) {
        Some(i) => {
            assert(forall|j: int| 0 <= j < i ==> t[j] == slots[j]);
            lemma_first_match_is_index::<Slot<T>>(t, address, i);
            assert(t.update(i, t[i]) =~= t);
        },
        None => {
            assert(forall|j: int| 0 <= j < slots.len() ==> t[j] == slots[j]);
            lemma_first_match_is_index::<Slot<T>>(t, address, slots.len() as int);
            assert(t.update(slots.len() as int, t[slots.len() as int]) =~= t);
        },
    }
}

} // verus!
