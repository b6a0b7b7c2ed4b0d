//! What holds of cleaning, whatever the input: the laws that callers may rely
//! on, each proved from the definitions of the rules.
use vstd::prelude::*;
use crate::dynamic::{
    cleaned_entries, dropped, entry_changes, flags_change, flags_entry, flags_position,
    flags_value, has_flags, is_first_flags, is_flags, kept, lemma_first_flags_unique, masked,
    removals, retained, Change, EntryView,
};
use crate::image::{
    changes_through, clean_image, clean_section, entries_writable, entry_writable, image_changes,
    section_writable, writable, ImageView, SectionView,
};
use crate::tags::{
    is_denied, lemma_mask_only_clears, mask_flags_spec, DT_AARCH64_BTI_PLT, DT_AARCH64_PAC_PLT,
    DT_AARCH64_VARIANT_PCS, DT_FLAGS_1, DT_NULL, DT_RPATH, DT_RUNPATH, EM_AARCH64,
};

verus! {

/// A filter keeps a sequence whose elements all pass.
proof fn lemma_filter_all<A>(s: Seq<A>, pred: spec_fn(A) -> bool)
    requires
        forall|i: int| 0 <= i < s.len() ==> pred(#[trigger] s[i]),
    ensures
        s.filter(pred) == s,
    decreases s.len(),
{
    reveal(Seq::filter);
    if s.len() > 0 {
        lemma_filter_all(s.drop_last(), pred);
        assert(s.drop_last().push(s.last()) =~= s);
    }
}

/// A filter empties a sequence whose elements all fail.
proof fn lemma_filter_none<A>(s: Seq<A>, pred: spec_fn(A) -> bool)
    requires
        forall|i: int| 0 <= i < s.len() ==> !pred(#[trigger] s[i]),
    ensures
        s.filter(pred) == Seq::<A>::empty(),
    decreases s.len(),
{
    reveal(Seq::filter);
    if s.len() > 0 {
        lemma_filter_none(s.drop_last(), pred);
    } else {
        assert(s =~= Seq::<A>::empty());
    }
}

/// Every element of a filtered sequence passes the filter.
proof fn lemma_filter_passes<A>(s: Seq<A>, pred: spec_fn(A) -> bool)
    ensures
        forall|i: int| 0 <= i < s.filter(pred).len() ==> pred(#[trigger] s.filter(pred)[i]),
    decreases s.len(),
{
    reveal(Seq::filter);
    if s.len() > 0 {
        lemma_filter_passes(s.drop_last(), pred);
    }
}

/// A filter that lets nothing out of a sequence lets every element pass.
proof fn lemma_filter_full_length<A>(s: Seq<A>, pred: spec_fn(A) -> bool)
    requires
        s.filter(pred).len() >= s.len(),
    ensures
        forall|i: int| 0 <= i < s.len() ==> pred(#[trigger] s[i]),
    decreases s.len(),
{
    reveal(Seq::filter);
    if s.len() > 0 {
        s.drop_last().lemma_filter_len(pred);
        lemma_filter_full_length(s.drop_last(), pred);
        assert forall|i: int| 0 <= i < s.len() implies pred(#[trigger] s[i]) by {
            if i < s.len() - 1 {
                assert(s[i] == s.drop_last()[i]);
            }
        }
    }
}

/// Filtering twice, the second time by a weaker test, is filtering once by
/// the stronger one.
proof fn lemma_filter_twice<A>(s: Seq<A>, outer: spec_fn(A) -> bool, inner: spec_fn(A) -> bool)
    requires
        forall|a: A| #[trigger] inner(a) ==> outer(a),
    ensures
        s.filter(outer).filter(inner) == s.filter(inner),
    decreases s.len(),
{
    reveal(Seq::filter);
    if s.len() > 0 {
        lemma_filter_twice(s.drop_last(), outer, inner);
        if outer(s.last()) {
            let front = s.drop_last().filter(outer);
            assert(front.push(s.last()).drop_last() =~= front);
        }
    }
}

/// Replacing an element that fails a filter by another that fails it does
/// not change what the filter lets through.
proof fn lemma_filter_update<A>(s: Seq<A>, pred: spec_fn(A) -> bool, p: int, a: A)
    requires
        0 <= p < s.len(),
        !pred(s[p]),
        !pred(a),
    ensures
        s.update(p, a).filter(pred) == s.filter(pred),
    decreases s.len(),
{
    reveal(Seq::filter);
    let t = s.update(p, a);
    if p == s.len() - 1 {
        assert(t.drop_last() =~= s.drop_last());
    } else {
        lemma_filter_update(s.drop_last(), pred, p, a);
        assert(t.drop_last() =~= s.drop_last().update(p, a));
    }
}

/// Masking keeps the tag and the kind of every entry, and masks the value of
/// the first extra-flags entry.
proof fn lemma_masked_shape(entries: Seq<EntryView>)
    ensures
        masked(entries).len() == entries.len(),
        forall|i: int|
            0 <= i < entries.len() ==> (#[trigger] masked(entries)[i]).tag == entries[i].tag
                && is_flags(masked(entries)[i]) == is_flags(entries[i]),
        forall|i: int|
            0 <= i < entries.len() && !is_flags(entries[i]) ==> #[trigger] masked(entries)[i]
                == entries[i],
        has_flags(masked(entries)) == has_flags(entries),
        has_flags(entries) ==> flags_position(masked(entries)) == flags_position(entries)
            && flags_value(masked(entries)) == mask_flags_spec(flags_value(entries)),
{
    if has_flags(entries) {
        let p = flags_position(entries);
        assert(is_first_flags(entries, p));
        let after = masked(entries);
        assert(is_first_flags(after, p)) by {
            assert forall|j: int| 0 <= j < p implies !is_flags(#[trigger] after[j]) by {
                assert(!is_flags(entries[j]));
            }
        }
        let q = flags_position(after);
        assert(is_first_flags(after, q));
        if q < p {
            assert(!is_flags(after[q]));
        }
        if p < q {
            assert(!is_flags(after[p]));
        }
    } else {
        if has_flags(masked(entries)) {
            assert(false);
        }
    }
}

/// **Idempotence.** Cleaning a cleaned table changes nothing and reports
/// nothing.
pub proof fn lemma_clean_idempotent(entries: Seq<EntryView>, machine: u16)
    ensures
        cleaned_entries(cleaned_entries(entries, machine), machine) == cleaned_entries(
            entries,
            machine,
        ),
        entry_changes(cleaned_entries(entries, machine), machine) == Seq::<Change>::empty(),
{
    let stay = retained(entries, machine);
    let once = masked(stay);
    lemma_filter_passes(entries, kept(machine));
    lemma_masked_shape(stay);
    assert forall|i: int| 0 <= i < once.len() implies kept(machine)(#[trigger] once[i]) by {
        assert(kept(machine)(stay[i]));
    }
    lemma_filter_all(once, kept(machine));
    assert(retained(once, machine) == once);
    assert forall|i: int| 0 <= i < once.len() implies !dropped(machine)(#[trigger] once[i]) by {
        assert(kept(machine)(once[i]));
    }
    lemma_filter_none(once, dropped(machine));
    assert(removals(once, machine) =~= Seq::<Change>::empty());
    if has_flags(stay) {
        lemma_mask_only_clears(flags_value(stay));
        assert(masked(once) =~= once);
    }
    assert(flags_change(once) is None);
}

/// **No report, no change.** Cleaning reports nothing exactly when it leaves
/// the table as it was.
pub proof fn lemma_silent_iff_unchanged(entries: Seq<EntryView>, machine: u16)
    ensures
        entry_changes(entries, machine).len() == 0 <==> cleaned_entries(entries, machine)
            == entries,
{
    let stay = retained(entries, machine);
    lemma_masked_shape(stay);
    entries.lemma_filter_len(kept(machine));
    if entry_changes(entries, machine).len() == 0 {
        assert(flags_change(stay) is None);
        assert(removals(entries, machine).len() == 0);
        assert(entries.filter(dropped(machine)).len() == 0);
        lemma_filter_passes(entries, dropped(machine));
        assert forall|i: int| 0 <= i < entries.len() implies kept(machine)(
            #[trigger] entries[i],
        ) by {
            if dropped(machine)(entries[i]) {
                entries.lemma_filter_contains(dropped(machine), i);
            }
        }
        lemma_filter_all(entries, kept(machine));
        if has_flags(stay) {
            assert(masked(stay) =~= stay);
        }
    }
    if cleaned_entries(entries, machine) == entries {
        lemma_filter_full_length(entries, kept(machine));
        lemma_filter_all(entries, kept(machine));
        assert forall|i: int| 0 <= i < entries.len() implies !dropped(machine)(
            #[trigger] entries[i],
        ) by {
            assert(kept(machine)(entries[i]));
        }
        lemma_filter_none(entries, dropped(machine));
        assert(removals(entries, machine) =~= Seq::<Change>::empty());
        if has_flags(stay) {
            let p = flags_position(stay);
            assert(is_first_flags(stay, p));
            assert(masked(stay)[p] == stay[p]);
        }
    }
}

/// **Removal is complete and stable.** A cleaned table holds neither search
/// path. It holds the entries that are not denied, in the order of the input,
/// each as it was but for the masked extra flags.
pub proof fn lemma_search_paths_removed(entries: Seq<EntryView>, machine: u16)
    ensures
        forall|i: int|
            0 <= i < cleaned_entries(entries, machine).len() ==> (#[trigger] cleaned_entries(
                entries,
                machine,
            )[i]).tag != DT_RPATH && cleaned_entries(entries, machine)[i].tag != DT_RUNPATH,
        cleaned_entries(entries, machine).len() == entries.filter(kept(machine)).len(),
        forall|i: int|
            0 <= i < cleaned_entries(entries, machine).len() ==> (#[trigger] cleaned_entries(
                entries,
                machine,
            )[i]).tag == entries.filter(kept(machine))[i].tag,
        forall|i: int|
            0 <= i < cleaned_entries(entries, machine).len() && cleaned_entries(
                entries,
                machine,
            )[i].tag != DT_FLAGS_1 ==> #[trigger] cleaned_entries(entries, machine)[i]
                == entries.filter(kept(machine))[i],
{
    let stay = retained(entries, machine);
    lemma_filter_passes(entries, kept(machine));
    lemma_masked_shape(stay);
    assert forall|i: int| 0 <= i < masked(stay).len() implies (#[trigger] masked(stay)[i]).tag
        != DT_RPATH && masked(stay)[i].tag != DT_RUNPATH by {
        assert(kept(machine)(stay[i]));
    }
}

/// Every element of a filtered sequence has what every element of the
/// sequence has.
proof fn lemma_filter_keeps_property<A>(
    s: Seq<A>,
    pred: spec_fn(A) -> bool,
    property: spec_fn(A) -> bool,
)
    requires
        forall|i: int| 0 <= i < s.len() ==> property(#[trigger] s[i]),
    ensures
        forall|i: int| 0 <= i < s.filter(pred).len() ==> property(#[trigger] s.filter(pred)[i]),
    decreases s.len(),
{
    reveal(Seq::filter);
    if s.len() > 0 {
        lemma_filter_keeps_property(s.drop_last(), pred, property);
        let front = s.drop_last().filter(pred);
        assert forall|i: int| 0 <= i < s.filter(pred).len() implies property(
            #[trigger] s.filter(pred)[i],
        ) by {
            if i < front.len() {
                assert(s.filter(pred)[i] == front[i]);
            } else {
                assert(s.filter(pred)[i] == s.last());
                assert(property(s[s.len() - 1]));
            }
        }
    }
}

/// **The rules commute.** Removal and masking touch different entries, so
/// either may run first.
pub proof fn lemma_rules_commute(entries: Seq<EntryView>, machine: u16)
    ensures
        masked(retained(entries, machine)) == retained(masked(entries), machine),
{
    let keep = kept(machine);
    let plain = |e: EntryView| !is_flags(e);
    if has_flags(entries) {
        let p = flags_position(entries);
        assert(is_first_flags(entries, p));
        let changed = flags_entry(mask_flags_spec(flags_value(entries)));
        let front = entries.take(p);
        let back = entries.skip(p + 1);
        assert(entries =~= front + seq![entries[p]] + back);
        assert(masked(entries) =~= front + seq![changed] + back);
        Seq::filter_distributes_over_add(front + seq![entries[p]], back, keep);
        Seq::filter_distributes_over_add(front, seq![entries[p]], keep);
        Seq::filter_distributes_over_add(front + seq![changed], back, keep);
        Seq::filter_distributes_over_add(front, seq![changed], keep);
        assert(seq![entries[p]].filter(keep) =~= seq![entries[p]]) by {
            reveal(Seq::filter);
            assert(seq![entries[p]].drop_last().filter(keep) =~= Seq::<EntryView>::empty());
        }
        assert(seq![changed].filter(keep) =~= seq![changed]) by {
            reveal(Seq::filter);
            assert(seq![changed].drop_last().filter(keep) =~= Seq::<EntryView>::empty());
        }
        assert forall|i: int| 0 <= i < front.len() implies plain(#[trigger] front[i]) by {
            assert(!is_flags(entries[i]));
        }
        lemma_filter_keeps_property(front, keep, plain);
        let stay = retained(entries, machine);
        let q = front.filter(keep).len() as int;
        assert(stay =~= front.filter(keep) + seq![entries[p]] + back.filter(keep));
        assert(is_first_flags(stay, q)) by {
            assert(stay[q] == entries[p]);
            assert forall|j: int| 0 <= j < q implies !is_flags(#[trigger] stay[j]) by {
                assert(stay[j] == front.filter(keep)[j]);
                assert(plain(front.filter(keep)[j]));
            }
        }
        lemma_first_flags_unique(stay, q);
        assert(masked(stay) =~= front.filter(keep) + seq![changed] + back.filter(keep));
    } else {
        assert forall|i: int| 0 <= i < entries.len() implies plain(#[trigger] entries[i]) by {
            if is_flags(entries[i]) {
                lemma_has_first_flags(entries, i);
            }
        }
        lemma_filter_keeps_property(entries, keep, plain);
        let stay = retained(entries, machine);
        if has_flags(stay) {
            let q = flags_position(stay);
            assert(is_first_flags(stay, q));
            assert(plain(stay[q]));
        }
    }
}

/// A table with an extra-flags entry has a first one.
proof fn lemma_has_first_flags(entries: Seq<EntryView>, at: int)
    requires
        0 <= at < entries.len(),
        is_flags(entries[at]),
    ensures
        has_flags(entries),
    decreases at,
{
    if exists|j: int| 0 <= j < at && is_flags(#[trigger] entries[j]) {
        let j = choose|j: int| 0 <= j < at && is_flags(#[trigger] entries[j]);
        lemma_has_first_flags(entries, j);
    } else {
        assert(is_first_flags(entries, at));
    }
}

/// Whether `tag` has the value of one of the three 64-bit ARM marker tags.
pub open spec fn is_marker(tag: u32) -> bool {
    tag == DT_AARCH64_BTI_PLT || tag == DT_AARCH64_PAC_PLT || tag == DT_AARCH64_VARIANT_PCS
}

/// The entries whose tag has the value of a marker tag.
pub open spec fn markers() -> spec_fn(EntryView) -> bool {
    |e: EntryView| is_marker(e.tag)
}

/// **Architecture conditionality.** On 64-bit ARM a cleaned table holds no
/// marker entry. On any other machine the entries whose tags have those
/// values are all still there, unmodified and in their order.
pub proof fn lemma_markers_only_on_aarch64(entries: Seq<EntryView>, machine: u16)
    ensures
        forall|tag: u32| is_marker(tag) ==> (is_denied(tag, machine) <==> machine == EM_AARCH64),
        machine == EM_AARCH64 ==> cleaned_entries(entries, machine).filter(markers())
            == Seq::<EntryView>::empty(),
        machine != EM_AARCH64 ==> cleaned_entries(entries, machine).filter(markers())
            == entries.filter(markers()),
{
    let stay = retained(entries, machine);
    lemma_filter_passes(entries, kept(machine));
    lemma_masked_shape(stay);
    if has_flags(stay) {
        let p = flags_position(stay);
        assert(is_first_flags(stay, p));
        lemma_filter_update(
            stay,
            markers(),
            p,
            flags_entry(mask_flags_spec(flags_value(stay))),
        );
    }
    assert(masked(stay).filter(markers()) == stay.filter(markers()));
    if machine == EM_AARCH64 {
        assert forall|i: int| 0 <= i < stay.len() implies !markers()(#[trigger] stay[i]) by {
            assert(kept(machine)(stay[i]));
        }
        lemma_filter_none(stay, markers());
    } else {
        assert forall|e: EntryView| #[trigger] markers()(e) implies kept(machine)(e) by {}
        lemma_filter_twice(entries, kept(machine), markers());
    }
}

/// **The terminator stays.** A table that ends with the null entry still
/// ends with it after cleaning.
pub proof fn lemma_terminator_kept(entries: Seq<EntryView>, machine: u16)
    requires
        entries.len() > 0,
        entries.last().tag == DT_NULL,
    ensures
        cleaned_entries(entries, machine).len() > 0,
        cleaned_entries(entries, machine).last() == entries.last(),
{
    reveal(Seq::filter);
    let stay = retained(entries, machine);
    assert(kept(machine)(entries.last()));
    assert(stay == entries.drop_last().filter(kept(machine)).push(entries.last()));
    lemma_masked_shape(stay);
    assert(!is_flags(stay[stay.len() - 1]));
}

/// **Masking only clears.** The extra flags of a cleaned table are those of
/// the input with the unsupported bits cleared: no bit is set that was not
/// set, and a table without extra flags gets none.
pub proof fn lemma_flags_only_cleared(entries: Seq<EntryView>, machine: u16)
    ensures
        has_flags(cleaned_entries(entries, machine)) == has_flags(retained(entries, machine)),
        has_flags(retained(entries, machine)) ==> {
            let before = flags_value(retained(entries, machine));
            let after = flags_value(cleaned_entries(entries, machine));
            &&& after == before & 0x11
            &&& after & !before == 0
            &&& after <= before
        },
{
    let stay = retained(entries, machine);
    lemma_masked_shape(stay);
    if has_flags(stay) {
        lemma_mask_only_clears(flags_value(stay));
    }
}

/// The reports of the first `count` sections of a cleaned image are empty.
proof fn lemma_cleaned_sections_silent(image: ImageView, count: int)
    requires
        0 <= count <= image.sections.len(),
    ensures
        changes_through(clean_image(image).sections, image.machine, count) == Seq::<
            Change,
        >::empty(),
    decreases count,
{
    if count > 0 {
        lemma_cleaned_sections_silent(image, count - 1);
        match image.sections[count - 1] {
            SectionView::Dynamic(entries) => {
                lemma_clean_idempotent(entries, image.machine);
            },
            SectionView::Opaque(_) => {},
        }
    }
}

/// **Idempotence of the transform.** Cleaning a cleaned image changes
/// nothing and reports nothing.
pub proof fn lemma_clean_image_idempotent(image: ImageView)
    ensures
        clean_image(clean_image(image)) == clean_image(image),
        image_changes(clean_image(image)) == Seq::<Change>::empty(),
{
    let once = clean_image(image);
    assert forall|i: int| 0 <= i < once.sections.len() implies clean_section(
        #[trigger] once.sections[i],
        image.machine,
    ) == once.sections[i] by {
        match image.sections[i] {
            SectionView::Dynamic(entries) => {
                lemma_clean_idempotent(entries, image.machine);
            },
            SectionView::Opaque(_) => {},
        }
    }
    assert(clean_image(once).sections =~= once.sections);
    lemma_cleaned_sections_silent(image, image.sections.len() as int);
}

/// A cleaned table holds no string that the table did not hold: where every
/// entry could be stored, every entry still can.
pub proof fn lemma_cleaned_entries_writable(entries: Seq<EntryView>, machine: u16)
    requires
        entries_writable(entries),
    ensures
        entries_writable(cleaned_entries(entries, machine)),
{
    let storable = |e: EntryView| entry_writable(e);
    assert forall|i: int| 0 <= i < entries.len() implies storable(#[trigger] entries[i]) by {}
    lemma_filter_keeps_property(entries, kept(machine), storable);
    let stay = retained(entries, machine);
    lemma_masked_shape(stay);
    assert forall|i: int| 0 <= i < masked(stay).len() implies entry_writable(
        #[trigger] masked(stay)[i],
    ) by {
        assert(storable(stay[i]));
        if has_flags(stay) && i == flags_position(stay) {
        } else {
            if has_flags(stay) {
                assert(masked(stay)[i] == stay[i]);
            }
        }
    }
}

/// **Cleaning keeps an image writable.** Cleaning changes none of the
/// values that the writer computes with and adds no string, so an image
/// that could be handed to the writer still can.
pub proof fn lemma_cleaning_keeps_writable(image: ImageView)
    requires
        writable(image),
    ensures
        writable(clean_image(image)),
{
    let cleaned = clean_image(image);
    assert forall|i: int| 0 <= i < cleaned.sections.len() implies section_writable(
        #[trigger] cleaned.sections[i],
    ) by {
        assert(section_writable(image.sections[i]));
        match image.sections[i] {
            SectionView::Dynamic(entries) => {
                lemma_cleaned_entries_writable(entries, image.machine);
            },
            SectionView::Opaque(_) => {},
        }
    }
}

/// **Other sections are untouched.** Cleaning keeps the header, the hash
/// parameters, the number and the order of the sections, the layout fields
/// of every section, and every section that is not a dynamic table exactly
/// as it was.
pub proof fn lemma_opaque_untouched(image: ImageView)
    ensures
        clean_image(image).class == image.class,
        clean_image(image).endianness == image.endianness,
        clean_image(image).machine == image.machine,
        clean_image(image).hash == image.hash,
        clean_image(image).layouts == image.layouts,
        clean_image(image).sections.len() == image.sections.len(),
        forall|i: int|
            0 <= i < image.sections.len() && image.sections[i] is Opaque
                ==> #[trigger] clean_image(image).sections[i] == image.sections[i],
        forall|i: int|
            0 <= i < image.sections.len() ==> ((#[trigger] clean_image(image).sections[i])
                is Dynamic <==> image.sections[i] is Dynamic),
{
}

} // verus!
