//! Dynamic tags, machine numbers and the table of removal rules.
use vstd::prelude::*;

verus! {

/// Tag of the entry that ends a dynamic table.
pub const DT_NULL: u32 = 0;

/// Tag of an entry that names a needed library.
pub const DT_NEEDED: u32 = 1;

/// Tag of the legacy library search path.
pub const DT_RPATH: u32 = 15;

/// Tag of the modern library search path.
pub const DT_RUNPATH: u32 = 29;

/// Tag of the extra-flags entry.
pub const DT_FLAGS_1: u32 = 0x6fff_fffb;

/// First tag of the processor-specific range.
pub const DT_LOPROC: u32 = 0x7000_0000;

/// 64-bit ARM: the PLT uses branch target identification.
pub const DT_AARCH64_BTI_PLT: u32 = DT_LOPROC + 1;

/// 64-bit ARM: the PLT uses pointer authentication.
pub const DT_AARCH64_PAC_PLT: u32 = DT_LOPROC + 3;

/// 64-bit ARM: some symbols follow a variant calling convention.
pub const DT_AARCH64_VARIANT_PCS: u32 = DT_LOPROC + 5;

/// Machine number of 64-bit ARM.
pub const EM_AARCH64: u16 = 183;

/// Extra flag: resolve all symbols when the object is loaded.
pub const FLAG_BIND_NOW: u64 = 0x01;

/// Extra flag: expose the object's symbols to lookups by name.
pub const FLAG_GLOBAL: u64 = 0x10;

/// The extra flags that survive cleaning: `FLAG_BIND_NOW` and `FLAG_GLOBAL`.
pub const SUPPORTED_DT_FLAGS: u64 = 0x11;

/// The kinds of entry that cleaning removes.
#[derive(Clone, Copy, Debug, PartialEq, Eq, Structural)]
pub enum RemovedTag {
    Rpath,
    Runpath,
    Aarch64BtiPlt,
    Aarch64PacPlt,
    Aarch64VariantPcs,
}

/// The machines on which a removal rule applies.
#[derive(Clone, Copy, Debug, PartialEq, Eq, Structural)]
pub enum Scope {
    /// Every machine.
    AnyMachine,
    /// 64-bit ARM only.
    Aarch64,
}

/// One removal rule: entries with `tag` are removed on the machines of `scope`.
#[derive(Clone, Copy, Debug, PartialEq, Eq, Structural)]
pub struct Rule {
    pub tag: u32,
    pub scope: Scope,
    pub removes: RemovedTag,
}

impl RemovedTag {
    /// The conventional name of the tag.
    pub open spec fn spec_name(self) -> Seq<char> {
        match self {
            RemovedTag::Rpath => "DT_RPATH"@,
            RemovedTag::Runpath => "DT_RUNPATH"@,
            RemovedTag::Aarch64BtiPlt => "DT_AARCH64_BTI_PLT"@,
            RemovedTag::Aarch64PacPlt => "DT_AARCH64_PAC_PLT"@,
            RemovedTag::Aarch64VariantPcs => "DT_AARCH64_VARIANT_PCS"@,
        }
    }

    /// The numeric tag.
    pub open spec fn spec_tag(self) -> u32 {
        match self {
            RemovedTag::Rpath => DT_RPATH,
            RemovedTag::Runpath => DT_RUNPATH,
            RemovedTag::Aarch64BtiPlt => DT_AARCH64_BTI_PLT,
            RemovedTag::Aarch64PacPlt => DT_AARCH64_PAC_PLT,
            RemovedTag::Aarch64VariantPcs => DT_AARCH64_VARIANT_PCS,
        }
    }

    /// The conventional name of the tag, as diagnostics print it.
    pub fn name(self) -> (r: &'static str)
        ensures
            r@ == self.spec_name(),
    {
        match self {
            RemovedTag::Rpath => "DT_RPATH",
            RemovedTag::Runpath => "DT_RUNPATH",
            RemovedTag::Aarch64BtiPlt => "DT_AARCH64_BTI_PLT",
            RemovedTag::Aarch64PacPlt => "DT_AARCH64_PAC_PLT",
            RemovedTag::Aarch64VariantPcs => "DT_AARCH64_VARIANT_PCS",
        }
    }

    /// The numeric tag.
    pub fn tag(self) -> (r: u32)
        ensures
            r == self.spec_tag(),
    {
        match self {
            RemovedTag::Rpath => DT_RPATH,
            RemovedTag::Runpath => DT_RUNPATH,
            RemovedTag::Aarch64BtiPlt => DT_AARCH64_BTI_PLT,
            RemovedTag::Aarch64PacPlt => DT_AARCH64_PAC_PLT,
            RemovedTag::Aarch64VariantPcs => DT_AARCH64_VARIANT_PCS,
        }
    }
}

impl Scope {
    /// Whether the scope covers `machine`.
    pub open spec fn spec_covers(self, machine: u16) -> bool {
        self == Scope::AnyMachine || machine == EM_AARCH64
    }

    /// Whether the scope covers `machine`.
    pub fn covers(self, machine: u16) -> (r: bool)
        ensures
            r == self.spec_covers(machine),
    {
        match self {
            Scope::AnyMachine => true,
            Scope::Aarch64 => machine == EM_AARCH64,
        }
    }
}

/// The removal rule for `tag` on `machine`, if there is one: the two search
/// paths everywhere, the three marker tags on 64-bit ARM only.
pub open spec fn removal_rule_spec(tag: u32, machine: u16) -> Option<RemovedTag> {
    if tag == DT_RPATH {
        Some(RemovedTag::Rpath)
    } else if tag == DT_RUNPATH {
        Some(RemovedTag::Runpath)
    } else if machine == EM_AARCH64 && tag == DT_AARCH64_BTI_PLT {
        Some(RemovedTag::Aarch64BtiPlt)
    } else if machine == EM_AARCH64 && tag == DT_AARCH64_PAC_PLT {
        Some(RemovedTag::Aarch64PacPlt)
    } else if machine == EM_AARCH64 && tag == DT_AARCH64_VARIANT_PCS {
        Some(RemovedTag::Aarch64VariantPcs)
    } else {
        None
    }
}

/// Whether an entry with `tag` is removed from an image for `machine`.
pub open spec fn is_denied(tag: u32, machine: u16) -> bool {
    removal_rule_spec(tag, machine) is Some
}

/// What the rule table holds.
pub open spec fn rule_table() -> Seq<Rule> {
    seq![
        Rule { tag: DT_RPATH, scope: Scope::AnyMachine, removes: RemovedTag::Rpath },
        Rule { tag: DT_RUNPATH, scope: Scope::AnyMachine, removes: RemovedTag::Runpath },
        Rule { tag: DT_AARCH64_BTI_PLT, scope: Scope::Aarch64, removes: RemovedTag::Aarch64BtiPlt },
        Rule { tag: DT_AARCH64_PAC_PLT, scope: Scope::Aarch64, removes: RemovedTag::Aarch64PacPlt },
        Rule {
            tag: DT_AARCH64_VARIANT_PCS,
            scope: Scope::Aarch64,
            removes: RemovedTag::Aarch64VariantPcs,
        },
    ]
}

/// Whether `rule` asks for the removal of `tag` on `machine`.
pub open spec fn rule_matches(rule: Rule, tag: u32, machine: u16) -> bool {
    rule.tag == tag && rule.scope.spec_covers(machine)
}

/// The rule table: one row per removable tag.
pub fn removal_rules() -> (table: [Rule; 5])
    ensures
        table@ == rule_table(),
{
    let table = [
        Rule { tag: DT_RPATH, scope: Scope::AnyMachine, removes: RemovedTag::Rpath },
        Rule { tag: DT_RUNPATH, scope: Scope::AnyMachine, removes: RemovedTag::Runpath },
        Rule { tag: DT_AARCH64_BTI_PLT, scope: Scope::Aarch64, removes: RemovedTag::Aarch64BtiPlt },
        Rule { tag: DT_AARCH64_PAC_PLT, scope: Scope::Aarch64, removes: RemovedTag::Aarch64PacPlt },
        Rule {
            tag: DT_AARCH64_VARIANT_PCS,
            scope: Scope::Aarch64,
            removes: RemovedTag::Aarch64VariantPcs,
        },
    ];
    assert(table@ =~= rule_table());
    table
}

/// The rule table decides removal: a tag is removed exactly when a row
/// matches it, and each row names the tag that it removes.
pub proof fn lemma_rule_table(tag: u32, machine: u16)
    ensures
        is_denied(tag, machine) <==> exists|i: int|
            0 <= i < rule_table().len() && rule_matches(#[trigger] rule_table()[i], tag, machine),
        forall|i: int|
            0 <= i < rule_table().len() && rule_matches(#[trigger] rule_table()[i], tag, machine)
                ==> removal_rule_spec(tag, machine) == Some(rule_table()[i].removes),
        forall|i: int|
            0 <= i < rule_table().len() ==> (#[trigger] rule_table()[i]).removes.spec_tag()
                == rule_table()[i].tag,
{
    let t = rule_table();
    if is_denied(tag, machine) {
        let i: int = match removal_rule_spec(tag, machine).unwrap() {
            RemovedTag::Rpath => 0,
            RemovedTag::Runpath => 1,
            RemovedTag::Aarch64BtiPlt => 2,
            RemovedTag::Aarch64PacPlt => 3,
            RemovedTag::Aarch64VariantPcs => 4,
        };
        assert(rule_matches(t[i], tag, machine));
    }
}

/// Looks `tag` up in the rule table: the kind of entry to remove on
/// `machine`, or `None` where the entry stays.
pub fn removal_rule(tag: u32, machine: u16) -> (r: Option<RemovedTag>)
    ensures
        r == removal_rule_spec(tag, machine),
{
    let table = removal_rules();
    let mut i: usize = 0;
    while i < 5
        invariant
            i <= 5,
            table@ == rule_table(),
            forall|j: int| 0 <= j < i ==> !rule_matches(#[trigger] rule_table()[j], tag, machine),
        decreases 5 - i,
    {
        let rule = table[i];
        if rule.tag == tag && rule.scope.covers(machine) {
            proof {
                lemma_rule_table(tag, machine);
            }
            return Some(rule.removes);
        }
        i += 1;
    }
    proof {
        lemma_rule_table(tag, machine);
    }
    None
}

/// What masking leaves of an extra-flags value.
pub open spec fn mask_flags_spec(value: u64) -> u64 {
    value & SUPPORTED_DT_FLAGS
}

/// Clears every extra flag but the two supported ones.
pub fn mask_flags(value: u64) -> (r: u64)
    ensures
        r == mask_flags_spec(value),
        r == value & 0x11,
{
    value & SUPPORTED_DT_FLAGS
}

/// Masking only clears bits: it sets none that the value lacked, keeps the two
/// supported bits as they were, and changes nothing when applied again.
pub proof fn lemma_mask_only_clears(value: u64)
    ensures
        mask_flags_spec(value) & !value == 0,
        mask_flags_spec(value) <= value,
        mask_flags_spec(value) & 0x11 == value & 0x11,
        mask_flags_spec(value) & !0x11u64 == 0,
        mask_flags_spec(mask_flags_spec(value)) == mask_flags_spec(value),
        SUPPORTED_DT_FLAGS == FLAG_BIND_NOW | FLAG_GLOBAL,
{
    assert(0x11u64 == 0x01u64 | 0x10u64) by (bit_vector);
    assert((value & 0x11) & !value == 0) by (bit_vector);
    assert((value & 0x11) <= value) by (bit_vector);
    assert((value & 0x11) & 0x11 == value & 0x11) by (bit_vector);
    assert((value & 0x11) & !0x11u64 == 0) by (bit_vector);
}

} // verus!
