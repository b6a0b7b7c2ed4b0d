//! Dynamic entries and the two cleaning rules over a dynamic table: removal of
//! denied tags and masking of the extra flags.
use vstd::prelude::*;
use crate::tags::{
    is_denied, mask_flags, mask_flags_spec, removal_rule, removal_rule_spec, RemovedTag,
    DT_FLAGS_1,
};

verus! {

/// The value of a dynamic entry.
#[derive(Clone, Debug, PartialEq, Eq)]
pub enum EntryValue {
    /// Computed from the rest of the image when the image is written.
    Auto,
    /// A plain integer or an address.
    Integer(u64),
    /// A string, kept in the dynamic string table of the image.
    String(Vec<u8>),
}

/// An entry of a dynamic table: a tag and its value.
#[derive(Clone, Debug, PartialEq, Eq)]
pub struct DynamicEntry {
    pub tag: u32,
    pub value: EntryValue,
}

/// The value of a dynamic entry, as contracts see it.
pub enum ValueView {
    Auto,
    Integer(u64),
    String(Seq<u8>),
}

/// A dynamic entry, as contracts see it.
pub struct EntryView {
    pub tag: u32,
    pub value: ValueView,
}

impl View for EntryValue {
    type V = ValueView;

    open spec fn view(&self) -> ValueView {
        match self {
            EntryValue::Auto => ValueView::Auto,
            EntryValue::Integer(val) => ValueView::Integer(*val),
            EntryValue::String(val) => ValueView::String(val@),
        }
    }
}

impl View for DynamicEntry {
    type V = EntryView;

    open spec fn view(&self) -> EntryView {
        EntryView { tag: self.tag, value: self.value@ }
    }
}

/// The views of a run of entries, in order.
pub open spec fn entries_view(entries: Seq<DynamicEntry>) -> Seq<EntryView> {
    entries.map_values(|e: DynamicEntry| e@)
}

/// One thing that cleaning did to a dynamic table.
#[derive(Clone, Copy, Debug, PartialEq, Eq, Structural)]
pub enum Change {
    /// An entry of this kind was removed.
    Removed { tag: RemovedTag },
    /// The extra flags went from `before` to `after`.
    FlagsReplaced { before: u64, after: u64 },
}

/// The entries that stay on `machine`.
pub open spec fn kept(machine: u16) -> spec_fn(EntryView) -> bool {
    |e: EntryView| !is_denied(e.tag, machine)
}

/// The entries that leave on `machine`.
pub open spec fn dropped(machine: u16) -> spec_fn(EntryView) -> bool {
    |e: EntryView| is_denied(e.tag, machine)
}

/// The removal rule: the entries that stay, in their order.
pub open spec fn retained(entries: Seq<EntryView>, machine: u16) -> Seq<EntryView> {
    entries.filter(kept(machine))
}

/// The report of one removed entry.
pub open spec fn removal_of(machine: u16) -> spec_fn(EntryView) -> Change {
    |e: EntryView| Change::Removed { tag: removal_rule_spec(e.tag, machine).unwrap() }
}

/// One report for each entry that leaves, in their order.
pub open spec fn removals(entries: Seq<EntryView>, machine: u16) -> Seq<Change> {
    entries.filter(dropped(machine)).map_values(removal_of(machine))
}

/// Whether `e` is an extra-flags entry with an integer value.
pub open spec fn is_flags(e: EntryView) -> bool {
    e.tag == DT_FLAGS_1 && e.value is Integer
}

/// Whether position `p` holds the first extra-flags entry of `entries`.
pub open spec fn is_first_flags(entries: Seq<EntryView>, p: int) -> bool {
    &&& 0 <= p < entries.len()
    &&& is_flags(entries[p])
    &&& forall|j: int| 0 <= j < p ==> !is_flags(#[trigger] entries[j])
}

/// Whether `entries` has an extra-flags entry.
pub open spec fn has_flags(entries: Seq<EntryView>) -> bool {
    exists|p: int| is_first_flags(entries, p)
}

/// The position of the first extra-flags entry, where there is one.
pub open spec fn flags_position(entries: Seq<EntryView>) -> int {
    choose|p: int| is_first_flags(entries, p)
}

/// The value of the first extra-flags entry, where there is one.
pub open spec fn flags_value(entries: Seq<EntryView>) -> u64 {
    entries[flags_position(entries)].value->Integer_0
}

/// An extra-flags entry with `value`.
pub open spec fn flags_entry(value: u64) -> EntryView {
    EntryView { tag: DT_FLAGS_1, value: ValueView::Integer(value) }
}

/// The masking rule: the first extra-flags entry keeps only the supported
/// flags; every other entry is as it was.
pub open spec fn masked(entries: Seq<EntryView>) -> Seq<EntryView> {
    if has_flags(entries) {
        entries.update(
            flags_position(entries),
            flags_entry(mask_flags_spec(flags_value(entries))),
        )
    } else {
        entries
    }
}

/// The report of the masking rule: one where the flags value changes.
pub open spec fn flags_change(entries: Seq<EntryView>) -> Option<Change> {
    if has_flags(entries) && mask_flags_spec(flags_value(entries)) != flags_value(entries) {
        Some(
            Change::FlagsReplaced {
                before: flags_value(entries),
                after: mask_flags_spec(flags_value(entries)),
            },
        )
    } else {
        None
    }
}

/// A cleaned dynamic table: denied entries removed, extra flags masked.
pub open spec fn cleaned_entries(entries: Seq<EntryView>, machine: u16) -> Seq<EntryView> {
    masked(retained(entries, machine))
}

/// The reports of cleaning a dynamic table: the removals in the order of the
/// removed entries, then the change of the extra flags if they changed.
pub open spec fn entry_changes(entries: Seq<EntryView>, machine: u16) -> Seq<Change> {
    match flags_change(retained(entries, machine)) {
        Some(change) => removals(entries, machine).push(change),
        None => removals(entries, machine),
    }
}

/// Filtering one element more of a sequence.
proof fn lemma_filter_step<A>(s: Seq<A>, pred: spec_fn(A) -> bool, k: int)
    requires
        0 <= k < s.len(),
    ensures
        s.take(k + 1).filter(pred) == if pred(s[k]) {
            s.take(k).filter(pred).push(s[k])
        } else {
            s.take(k).filter(pred)
        },
{
    reveal(Seq::filter);
    assert(s.take(k + 1).drop_last() =~= s.take(k));
}

/// Only one position can hold the first extra-flags entry.
pub proof fn lemma_first_flags_unique(entries: Seq<EntryView>, p: int)
    requires
        is_first_flags(entries, p),
    ensures
        has_flags(entries),
        flags_position(entries) == p,
{
    let q = flags_position(entries);
    assert(is_first_flags(entries, q));
    if q < p {
        assert(!is_flags(entries[q]));
    }
    if p < q {
        assert(!is_flags(entries[p]));
    }
}

/// Applies the removal rule: takes out of `entries` every entry whose tag is
/// denied on `machine`, keeps the others in their order, and reports each
/// removal.
pub fn remove_denied(entries: &mut Vec<DynamicEntry>, machine: u16) -> (changes: Vec<Change>)
    ensures
        entries_view(final(entries)@) == retained(entries_view(old(entries)@), machine),
        changes@ == removals(entries_view(old(entries)@), machine),
{
    let ghost orig = entries_view(entries@);
    let mut changes: Vec<Change> = Vec::new();
    let mut i: usize = 0;
    let ghost mut k: int = 0;
    proof {
        reveal(Seq::filter);
        assert(orig.take(0).filter(kept(machine)) =~= Seq::<EntryView>::empty());
        assert(orig.take(0).filter(dropped(machine)) =~= Seq::<EntryView>::empty());
        assert(entries_view(entries@).take(0) =~= Seq::<EntryView>::empty());
        assert(entries_view(entries@).skip(0) =~= orig.skip(0));
        assert(removals(orig.take(0), machine) =~= Seq::<Change>::empty());
    }
    while i < entries.len()
        invariant
            0 <= i <= entries.len(),
            0 <= k <= orig.len(),
            orig.len() - k == entries.len() - i,
            entries_view(entries@).take(i as int) == orig.take(k).filter(kept(machine)),
            entries_view(entries@).skip(i as int) == orig.skip(k),
            changes@ == removals(orig.take(k), machine),
        decreases entries.len() - i,
    {
        let ghost before = entries_view(entries@);
        proof {
            lemma_filter_step(orig, kept(machine), k);
            lemma_filter_step(orig, dropped(machine), k);
            assert(before[i as int] == before.skip(i as int)[0]);
            assert(orig[k] == orig.skip(k)[0]);
        }
        match removal_rule(entries[i].tag, machine) {
            Some(tag) => {
                entries.remove(i);
                changes.push(Change::Removed { tag });
                proof {
                    let after = entries_view(entries@);
                    assert(after.take(i as int) =~= before.take(i as int));
                    assert(after.skip(i as int) =~= before.skip(i as int).skip(1));
                    assert(orig.skip(k).skip(1) =~= orig.skip(k + 1));
                    assert(removals(orig.take(k + 1), machine) =~= removals(
                        orig.take(k),
                        machine,
                    ).push(removal_of(machine)(orig[k])));
                    k = k + 1;
                }
            },
            None => {
                proof {
                    assert(before.take(i as int + 1) =~= before.take(i as int).push(
                        before[i as int],
                    ));
                    assert(before.skip(i as int + 1) =~= before.skip(i as int).skip(1));
                    assert(orig.skip(k).skip(1) =~= orig.skip(k + 1));
                    k = k + 1;
                }
                i += 1;
            },
        }
    }
    proof {
        assert(entries_view(entries@).take(i as int) =~= entries_view(entries@));
        assert(orig.take(k) =~= orig);
    }
    changes
}

/// Applies the masking rule: clears the unsupported bits of the first
/// extra-flags entry of `entries`, and reports the change where there is one.
pub fn mask_extra_flags(entries: &mut Vec<DynamicEntry>) -> (change: Option<Change>)
    ensures
        entries_view(final(entries)@) == masked(entries_view(old(entries)@)),
        change == flags_change(entries_view(old(entries)@)),
{
    let ghost orig = entries_view(entries@);
    let mut i: usize = 0;
    while i < entries.len()
        invariant
            0 <= i <= entries.len(),
            orig == entries_view(old(entries)@),
            entries_view(entries@) == orig,
            forall|j: int| 0 <= j < i ==> !is_flags(#[trigger] orig[j]),
        decreases entries.len() - i,
    {
        let tag = entries[i].tag;
        if tag == DT_FLAGS_1 {
            if let EntryValue::Integer(value) = &entries[i].value {
                let before: u64 = *value;
                let after: u64 = mask_flags(before);
                proof {
                    lemma_first_flags_unique(orig, i as int);
                }
                if after != before {
                    entries.set(i, DynamicEntry { tag, value: EntryValue::Integer(after) });
                    assert(entries_view(entries@) =~= masked(orig));
                    return Some(Change::FlagsReplaced { before, after });
                }
                assert(orig =~= masked(orig));
                return None;
            }
        }
        i += 1;
    }
    proof {
        if has_flags(orig) {
            let p = flags_position(orig);
            assert(is_first_flags(orig, p));
            assert(!is_flags(orig[p]));
        }
    }
    None
}

/// Cleans a dynamic table for `machine`: removes the denied entries, then
/// masks the extra flags. Returns what was done, in the order in which a
/// diagnostic is due.
pub fn clean_entries(entries: &mut Vec<DynamicEntry>, machine: u16) -> (changes: Vec<Change>)
    ensures
        entries_view(final(entries)@) == cleaned_entries(entries_view(old(entries)@), machine),
        changes@ == entry_changes(entries_view(old(entries)@), machine),
{
    let mut changes = remove_denied(entries, machine);
    match mask_extra_flags(entries) {
        Some(change) => {
            changes.push(change);
        },
        None => {},
    }
    changes
}

} // verus!
