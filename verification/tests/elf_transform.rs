use elf_cleaner::dynamic::{Change, DynamicEntry, EntryValue};
use elf_cleaner::error::CleanError;
use elf_cleaner::image::{
    are_entries_writable, is_alignment_writable, is_hash_writable, is_layout_writable,
    is_text_writable, Class, ElfImage, Endianness, HashParams, Section, SectionLayout,
    MAX_ALIGNMENT, MAX_HASH_COUNT, MAX_SECTION_OFFSET, SHT_NOBITS,
};
use elf_cleaner::tags::{
    RemovedTag, DT_AARCH64_BTI_PLT, DT_AARCH64_PAC_PLT, DT_AARCH64_VARIANT_PCS, DT_FLAGS_1,
    DT_NEEDED, DT_RPATH, DT_RUNPATH, EM_AARCH64,
};
use elf_cleaner::transform::clean_elf;
use object::build::elf::{Builder, Dynamic, SectionData};
use object::elf;
use object::read::elf::{Dyn, FileHeader, SectionHeader};

fn shared_object(machine: u16, is_64: bool, entries: Vec<Dynamic<'static>>) -> Vec<u8> {
    object_file(object::Endianness::Little, machine, is_64, entries)
}

fn object_file(
    endian: object::Endianness,
    machine: u16,
    is_64: bool,
    entries: Vec<Dynamic<'static>>,
) -> Vec<u8> {
    let mut builder = Builder::new(endian, is_64);
    builder.header.e_type = elf::ET_DYN;
    builder.header.e_machine = machine;
    builder.header.e_phoff = if is_64 { 0x40 } else { 0x34 };

    let section = builder.sections.add();
    section.name = b".shstrtab"[..].into();
    section.sh_type = elf::SHT_STRTAB;
    section.data = SectionData::SectionString;

    let section = builder.sections.add();
    section.name = b".dynstr"[..].into();
    section.sh_type = elf::SHT_STRTAB;
    section.sh_flags = elf::SHF_ALLOC as u64;
    section.sh_addralign = 1;
    section.data = SectionData::DynamicString;
    let dynstr = section.id();

    let section = builder.sections.add();
    section.name = b".dynsym"[..].into();
    section.sh_type = elf::SHT_DYNSYM;
    section.sh_flags = elf::SHF_ALLOC as u64;
    section.sh_addralign = 8;
    section.sh_link_section = Some(dynstr);
    section.data = SectionData::DynamicSymbol;
    let dynsym = section.id();

    let section = builder.sections.add();
    section.name = b".text"[..].into();
    section.sh_type = elf::SHT_PROGBITS;
    section.sh_flags = (elf::SHF_ALLOC | elf::SHF_EXECINSTR) as u64;
    section.sh_addralign = 4;
    section.data = SectionData::Data(vec![0xde, 0xad, 0xbe, 0xef, 1, 2, 3, 4].into());
    let text = section.id();

    let section = builder.sections.add();
    section.name = b".dynamic"[..].into();
    section.sh_type = elf::SHT_DYNAMIC;
    section.sh_flags = (elf::SHF_ALLOC | elf::SHF_WRITE) as u64;
    section.sh_addralign = 8;
    section.sh_entsize = if is_64 { 16 } else { 8 };
    section.sh_link_section = Some(dynstr);
    section.data = SectionData::Dynamic(entries);
    let dynamic = section.id();

    builder.set_section_sizes();

    let segment = builder.segments.add();
    segment.p_type = elf::PT_LOAD;
    segment.p_flags = elf::PF_R | elf::PF_W | elf::PF_X;
    segment.p_offset = 0x1000;
    segment.p_vaddr = 0x1000;
    segment.p_paddr = 0x1000;
    segment.p_align = 0x1000;
    segment.append_section(builder.sections.get_mut(dynstr));
    segment.append_section(builder.sections.get_mut(dynsym));
    segment.append_section(builder.sections.get_mut(text));
    segment.append_section(builder.sections.get_mut(dynamic));

    let mut bytes = Vec::new();
    builder.write(&mut bytes).unwrap();
    bytes
}

fn dynamic_of(bytes: &[u8]) -> Vec<DynamicEntry> {
    let image = ElfImage::parse(bytes).unwrap();
    let mut found = Vec::new();
    for index in 0..image.section_count() {
        if let Some(Section::Dynamic(entries)) = image.section(index) {
            found.extend(entries);
        }
    }
    found
}

fn text(tag: u32, value: &str) -> DynamicEntry {
    DynamicEntry { tag, value: EntryValue::String(value.as_bytes().to_vec()) }
}

fn integer(tag: u32, value: u64) -> DynamicEntry {
    DynamicEntry { tag, value: EntryValue::Integer(value) }
}

#[test]
fn aarch64_shared_object_is_cleaned() {
    let input = shared_object(
        EM_AARCH64,
        true,
        vec![
            Dynamic::String { tag: DT_NEEDED, val: b"libc.so"[..].into() },
            Dynamic::String { tag: DT_RPATH, val: b"/vendor/lib"[..].into() },
            Dynamic::Integer { tag: DT_AARCH64_BTI_PLT, val: 0 },
            Dynamic::Integer { tag: DT_FLAGS_1, val: 0x15 },
        ],
    );
    assert_eq!(
        dynamic_of(&input),
        vec![
            text(DT_NEEDED, "libc.so"),
            text(DT_RPATH, "/vendor/lib"),
            integer(DT_AARCH64_BTI_PLT, 0),
            integer(DT_FLAGS_1, 0x15),
        ]
    );
    let cleaned = clean_elf(&input).unwrap();
    assert_eq!(
        cleaned.changes,
        vec![
            Change::Removed { tag: RemovedTag::Rpath },
            Change::Removed { tag: RemovedTag::Aarch64BtiPlt },
            Change::FlagsReplaced { before: 0x15, after: 0x11 },
        ]
    );
    assert_eq!(
        dynamic_of(&cleaned.bytes),
        vec![text(DT_NEEDED, "libc.so"), integer(DT_FLAGS_1, 0x11)]
    );
}

#[test]
fn truncated_file_is_a_parse_error() {
    let input = shared_object(EM_AARCH64, true, vec![Dynamic::Integer { tag: DT_FLAGS_1, val: 1 }]);
    assert!(matches!(clean_elf(&input[..20]), Err(CleanError::Parse(_))));
    assert!(matches!(clean_elf(b"not an elf file at all"), Err(CleanError::Parse(_))));
    assert!(matches!(clean_elf(&[]), Err(CleanError::Parse(_))));
}

fn opaque_of(bytes: &[u8]) -> Vec<Vec<u8>> {
    let image = ElfImage::parse(bytes).unwrap();
    let mut found = Vec::new();
    for index in 0..image.section_count() {
        if let Some(Section::Opaque(data)) = image.section(index) {
            found.push(data);
        }
    }
    found
}

#[test]
fn cleaning_twice_gives_the_same_bytes() {
    let input = shared_object(
        EM_AARCH64,
        true,
        vec![
            Dynamic::String { tag: DT_NEEDED, val: b"libc.so"[..].into() },
            Dynamic::String { tag: DT_RUNPATH, val: b"/system/lib64"[..].into() },
            Dynamic::Integer { tag: DT_AARCH64_PAC_PLT, val: 0 },
            Dynamic::Integer { tag: DT_FLAGS_1, val: 0xffff_ffff },
            Dynamic::Integer { tag: DT_AARCH64_VARIANT_PCS, val: 0 },
        ],
    );
    let once = clean_elf(&input).unwrap();
    assert_eq!(once.changes.len(), 4);
    let twice = clean_elf(&once.bytes).unwrap();
    assert_eq!(twice.changes, vec![]);
    assert_eq!(twice.bytes, once.bytes);
    let thrice = clean_elf(&twice.bytes).unwrap();
    assert_eq!(thrice.bytes, once.bytes);
}

#[test]
fn markers_stay_on_other_machines() {
    let entries = vec![
        Dynamic::Integer { tag: DT_AARCH64_BTI_PLT, val: 7 },
        Dynamic::String { tag: DT_RPATH, val: b"/opt/lib"[..].into() },
        Dynamic::Integer { tag: DT_AARCH64_PAC_PLT, val: 8 },
        Dynamic::Integer { tag: DT_AARCH64_VARIANT_PCS, val: 9 },
        Dynamic::String { tag: DT_RUNPATH, val: b"/opt/lib"[..].into() },
    ];
    for machine in [elf::EM_X86_64, elf::EM_ARM, elf::EM_RISCV, 0u16] {
        let cleaned = clean_elf(&shared_object(machine, true, entries.clone())).unwrap();
        assert_eq!(
            cleaned.changes,
            vec![
                Change::Removed { tag: RemovedTag::Rpath },
                Change::Removed { tag: RemovedTag::Runpath },
            ]
        );
        assert_eq!(
            dynamic_of(&cleaned.bytes),
            vec![
                integer(DT_AARCH64_BTI_PLT, 7),
                integer(DT_AARCH64_PAC_PLT, 8),
                integer(DT_AARCH64_VARIANT_PCS, 9),
            ]
        );
    }
    let cleaned = clean_elf(&shared_object(EM_AARCH64, true, entries)).unwrap();
    assert_eq!(
        cleaned.changes,
        vec![
            Change::Removed { tag: RemovedTag::Aarch64BtiPlt },
            Change::Removed { tag: RemovedTag::Rpath },
            Change::Removed { tag: RemovedTag::Aarch64PacPlt },
            Change::Removed { tag: RemovedTag::Aarch64VariantPcs },
            Change::Removed { tag: RemovedTag::Runpath },
        ]
    );
    assert_eq!(dynamic_of(&cleaned.bytes), vec![]);
}

#[test]
fn other_sections_keep_their_bytes() {
    let input = shared_object(
        EM_AARCH64,
        true,
        vec![
            Dynamic::String { tag: DT_RPATH, val: b"/vendor/lib"[..].into() },
            Dynamic::Integer { tag: DT_FLAGS_1, val: 0x15 },
        ],
    );
    let before = opaque_of(&input);
    assert!(before.contains(&vec![0xde, 0xad, 0xbe, 0xef, 1, 2, 3, 4]));
    let cleaned = clean_elf(&input).unwrap();
    assert_eq!(opaque_of(&cleaned.bytes), before);
    let before_image = ElfImage::parse(&input).unwrap();
    let after_image = ElfImage::parse(&cleaned.bytes).unwrap();
    assert_eq!(after_image.section_count(), before_image.section_count());
    assert_eq!(after_image.machine(), EM_AARCH64);
    assert_eq!(before_image.section(before_image.section_count()), None);
}

#[test]
fn a_conformant_file_is_reported_unchanged() {
    for flags in [0x00u64, 0x01, 0x10, 0x11] {
        let input = shared_object(
            EM_AARCH64,
            true,
            vec![
                Dynamic::String { tag: DT_NEEDED, val: b"libm.so"[..].into() },
                Dynamic::Integer { tag: DT_FLAGS_1, val: flags },
            ],
        );
        let cleaned = clean_elf(&input).unwrap();
        assert_eq!(cleaned.changes, vec![]);
        assert_eq!(
            dynamic_of(&cleaned.bytes),
            vec![text(DT_NEEDED, "libm.so"), integer(DT_FLAGS_1, flags)]
        );
    }
    let empty = shared_object(EM_AARCH64, true, vec![]);
    let cleaned = clean_elf(&empty).unwrap();
    assert_eq!(cleaned.changes, vec![]);
    assert_eq!(dynamic_of(&cleaned.bytes), vec![]);
}

#[test]
fn both_classes_and_both_byte_orders_are_cleaned() {
    for endian in [object::Endianness::Little, object::Endianness::Big] {
        for is_64 in [true, false] {
            let input = object_file(
                endian,
                elf::EM_MIPS,
                is_64,
                vec![
                    Dynamic::String { tag: DT_NEEDED, val: b"libc.so"[..].into() },
                    Dynamic::String { tag: DT_RPATH, val: b"/lib"[..].into() },
                    Dynamic::Integer { tag: DT_FLAGS_1, val: 0x8000_0015 },
                ],
            );
            let cleaned = clean_elf(&input).unwrap();
            assert_eq!(
                cleaned.changes,
                vec![
                    Change::Removed { tag: RemovedTag::Rpath },
                    Change::FlagsReplaced { before: 0x8000_0015, after: 0x11 },
                ]
            );
            assert_eq!(
                dynamic_of(&cleaned.bytes),
                vec![text(DT_NEEDED, "libc.so"), integer(DT_FLAGS_1, 0x11)]
            );
            let reread = Builder::read(&*cleaned.bytes).unwrap();
            assert_eq!(reread.is_64, is_64);
            assert_eq!(reread.endian, endian);
            let image = ElfImage::parse(&cleaned.bytes).unwrap();
            assert_eq!(image.class(), if is_64 { Class::Elf64 } else { Class::Elf32 });
            assert_eq!(
                image.endianness(),
                match endian {
                    object::Endianness::Little => Endianness::Little,
                    object::Endianness::Big => Endianness::Big,
                }
            );
            assert_eq!(image.machine(), elf::EM_MIPS);
        }
    }
}

#[test]
fn the_written_table_ends_with_the_null_entry() {
    let input = shared_object(
        EM_AARCH64,
        true,
        vec![
            Dynamic::String { tag: DT_RPATH, val: b"/vendor/lib"[..].into() },
            Dynamic::Integer { tag: DT_FLAGS_1, val: 0x15 },
        ],
    );
    let cleaned = clean_elf(&input).unwrap();
    let file = object::read::elf::ElfFile64::<object::Endianness>::parse(&*cleaned.bytes).unwrap();
    let endian = file.endian();
    let header = file.elf_header();
    let sections = header.sections(endian, &*cleaned.bytes).unwrap();
    let mut tables = 0;
    for section in sections.iter() {
        if let Some((entries, _)) = section.dynamic(endian, &*cleaned.bytes).unwrap() {
            tables += 1;
            assert_eq!(entries.len(), 2);
            assert_eq!(entries[0].d_tag(endian), u64::from(DT_FLAGS_1));
            assert_eq!(entries[0].d_val(endian), 0x11);
            assert_eq!(entries[1].d_tag(endian), 0);
        }
    }
    assert_eq!(tables, 1);
}

#[test]
fn an_image_is_cleaned_in_stages() {
    let input = shared_object(
        EM_AARCH64,
        true,
        vec![
            Dynamic::Integer { tag: DT_FLAGS_1, val: 0x15 },
            Dynamic::Integer { tag: DT_FLAGS_1, val: 0x15 },
        ],
    );
    let mut image = ElfImage::parse(&input).unwrap();
    assert_eq!(image.machine(), 183);
    let changes = image.clean();
    assert_eq!(changes, vec![Change::FlagsReplaced { before: 0x15, after: 0x11 }]);
    assert_eq!(image.clean(), vec![]);
    let bytes = image.serialize().unwrap();
    // only the first extra-flags entry is masked
    assert_eq!(dynamic_of(&bytes), vec![integer(DT_FLAGS_1, 0x11), integer(DT_FLAGS_1, 0x15)]);
}

fn patched(input: &[u8], section: usize, field: usize, value: u64) -> Vec<u8> {
    let mut bytes = input.to_vec();
    let table = u64::from_le_bytes(bytes[40..48].try_into().unwrap()) as usize;
    let at = table + (section + 1) * 64 + field;
    bytes[at..at + 8].copy_from_slice(&value.to_le_bytes());
    bytes
}

fn index_of_type(image: &ElfImage, sh_type: u32) -> usize {
    (0..image.section_count()).find(|i| image.layout(*i).unwrap().sh_type == sh_type).unwrap()
}

#[test]
fn layouts_and_hash_parameters_are_read() {
    let input = shared_object(EM_AARCH64, true, vec![Dynamic::Integer { tag: DT_FLAGS_1, val: 1 }]);
    let image = ElfImage::parse(&input).unwrap();
    assert_eq!(
        image.hash_params(),
        HashParams {
            hash_bucket_count: 0,
            gnu_hash_bucket_count: 0,
            gnu_hash_bloom_count: 0,
            gnu_hash_bloom_shift: 0,
        }
    );
    let text = index_of_type(&image, elf::SHT_PROGBITS);
    let layout = image.layout(text).unwrap();
    assert_eq!(layout.sh_type, elf::SHT_PROGBITS);
    assert_eq!(layout.sh_addralign, 4);
    assert!(layout.sh_offset >= 0x1000);
    assert_eq!(image.section(text), Some(Section::Opaque(vec![0xde, 0xad, 0xbe, 0xef, 1, 2, 3, 4])));
    assert_eq!(image.layout(image.section_count()), None);
    assert!(image.is_writable());
}

#[test]
fn an_image_that_cannot_be_laid_out_is_refused() {
    let input = shared_object(
        EM_AARCH64,
        true,
        vec![
            Dynamic::String { tag: DT_RPATH, val: b"/vendor/lib"[..].into() },
            Dynamic::Integer { tag: DT_FLAGS_1, val: 0x15 },
        ],
    );
    let text = index_of_type(&ElfImage::parse(&input).unwrap(), elf::SHT_PROGBITS);
    for align in [3u64, 6, u64::MAX, u64::MAX - 1, 1 << 33, 1 << 63] {
        let bad = patched(&input, text, 48, align);
        let image = ElfImage::parse(&bad).unwrap();
        assert_eq!(image.layout(text).unwrap().sh_addralign, align);
        assert!(!image.is_writable());
        assert!(matches!(image.serialize(), Err(CleanError::Serialize(_))));
        assert!(matches!(clean_elf(&bad), Err(CleanError::Serialize(_))));
    }
    for align in [0u64, 1, 4] {
        let good = patched(&input, text, 48, align);
        assert!(ElfImage::parse(&good).unwrap().is_writable());
        assert!(clean_elf(&good).is_ok());
    }
}

#[test]
fn the_limits_of_the_writer_are_tested_on_plain_values() {
    assert!(is_alignment_writable(0));
    assert!(is_alignment_writable(1));
    assert!(is_alignment_writable(2));
    assert!(is_alignment_writable(0x1000));
    assert!(is_alignment_writable(MAX_ALIGNMENT));
    assert!(!is_alignment_writable(3));
    assert!(!is_alignment_writable(12));
    assert!(!is_alignment_writable(MAX_ALIGNMENT * 2));
    assert!(!is_alignment_writable(u64::MAX));

    let layout = SectionLayout { sh_type: 1, sh_offset: 0x2000, sh_addralign: 16 };
    assert!(is_layout_writable(layout));
    assert!(is_layout_writable(SectionLayout { sh_offset: MAX_SECTION_OFFSET, ..layout }));
    assert!(!is_layout_writable(SectionLayout { sh_offset: MAX_SECTION_OFFSET + 1, ..layout }));
    assert!(!is_layout_writable(SectionLayout { sh_offset: u64::MAX, ..layout }));
    assert!(is_layout_writable(SectionLayout { sh_type: SHT_NOBITS, sh_offset: u64::MAX, ..layout }));
    assert!(!is_layout_writable(SectionLayout { sh_type: SHT_NOBITS, sh_addralign: 5, ..layout }));

    let none = HashParams {
        hash_bucket_count: 0,
        gnu_hash_bucket_count: 0,
        gnu_hash_bloom_count: 0,
        gnu_hash_bloom_shift: 0,
    };
    assert!(is_hash_writable(none));
    let usual = HashParams {
        hash_bucket_count: 17,
        gnu_hash_bucket_count: 3,
        gnu_hash_bloom_count: 1,
        gnu_hash_bloom_shift: 6,
    };
    assert!(is_hash_writable(usual));
    assert!(is_hash_writable(HashParams { gnu_hash_bloom_shift: 31, ..usual }));
    assert!(!is_hash_writable(HashParams { gnu_hash_bloom_shift: 32, ..usual }));
    assert!(!is_hash_writable(HashParams { gnu_hash_bloom_count: 0, ..usual }));
    assert!(is_hash_writable(HashParams { gnu_hash_bucket_count: 0, gnu_hash_bloom_count: 0, ..usual }));
    assert!(is_hash_writable(HashParams { gnu_hash_bucket_count: 0, gnu_hash_bloom_shift: 99, ..usual }));
    assert!(is_hash_writable(HashParams { hash_bucket_count: MAX_HASH_COUNT, ..usual }));
    assert!(!is_hash_writable(HashParams { hash_bucket_count: MAX_HASH_COUNT + 1, ..usual }));
    assert!(!is_hash_writable(HashParams { gnu_hash_bucket_count: u32::MAX, ..usual }));
    assert!(!is_hash_writable(HashParams { gnu_hash_bloom_count: u32::MAX, ..usual }));

    assert!(is_text_writable(&b"libc.so".to_vec()));
    assert!(is_text_writable(&vec![]));
    assert!(!is_text_writable(&b"lib\0c.so".to_vec()));
    assert!(!is_text_writable(&vec![0]));
    assert!(are_entries_writable(&vec![text(DT_NEEDED, "libc.so"), integer(DT_FLAGS_1, 0)]));
    assert!(are_entries_writable(&vec![]));
    assert!(!are_entries_writable(&vec![integer(DT_FLAGS_1, 0), text(DT_NEEDED, "a\0b")]));
}

#[test]
fn a_silent_clean_leaves_the_written_bytes_alone() {
    let input = shared_object(
        EM_AARCH64,
        true,
        vec![
            Dynamic::String { tag: DT_NEEDED, val: b"libc.so"[..].into() },
            Dynamic::Integer { tag: DT_FLAGS_1, val: 0x11 },
        ],
    );
    let untouched = ElfImage::parse(&input).unwrap().serialize().unwrap();
    let mut image = ElfImage::parse(&input).unwrap();
    assert!(image.clean().is_empty());
    assert_eq!(image.serialize().unwrap(), untouched);
}
