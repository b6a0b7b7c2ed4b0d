//! An ELF image in memory: read from bytes, edited in its dynamic sections,
//! written back to bytes. The container itself is handled by
//! `object::build::elf::Builder`; this module states what the library relies
//! on and builds the cleaning of a whole image on it.
use vstd::prelude::*;
use vstd::string::StringExecFns;
use object::build::elf::{Builder, Dynamic, SectionData};
use crate::dynamic::{
    clean_entries, cleaned_entries, entries_view, entry_changes, Change, DynamicEntry, EntryValue,
    EntryView, ValueView,
};
use crate::error::CleanError;
use crate::laws::lemma_silent_iff_unchanged;

verus! {

/// `object::build::elf::Builder`, carried as an opaque value.
#[verifier::external_type_specification]
#[verifier::external_body]
pub struct ExBuilder<'data>(Builder<'data>);

/// `object::build::Error`, carried as an opaque value.
#[verifier::external_type_specification]
#[verifier::external_body]
pub struct ExBuildError(object::build::Error);

/// A section of an image, as contracts see it.
pub enum SectionView {
    /// A dynamic table, without its terminator.
    Dynamic(Seq<EntryView>),
    /// Any other section, with the raw bytes that the image carries for it.
    Opaque(Seq<u8>),
}

/// The class of an image: the width of its addresses and offsets.
#[derive(Clone, Copy, Debug, PartialEq, Eq, Structural)]
pub enum Class {
    Elf32,
    Elf64,
}

/// The byte order of an image.
#[derive(Clone, Copy, Debug, PartialEq, Eq, Structural)]
pub enum Endianness {
    Little,
    Big,
}

/// Section type of a section that occupies no space in the file.
pub const SHT_NOBITS: u32 = 8;

/// The largest file offset of a section that is written.
pub const MAX_SECTION_OFFSET: u64 = 0x100_0000_0000;

/// The largest alignment of a section that is written.
pub const MAX_ALIGNMENT: u64 = 0x1_0000_0000;

/// The largest bucket or filter count of a hash table that is written.
pub const MAX_HASH_COUNT: u32 = 0x100_0000;

/// The header fields of a section that decide where it is laid out.
#[derive(Clone, Copy, Debug, PartialEq, Eq, Structural)]
pub struct SectionLayout {
    pub sh_type: u32,
    pub sh_offset: u64,
    pub sh_addralign: u64,
}

/// The parameters of the two symbol hash tables of an image. They are 0
/// where the image has no such table.
#[derive(Clone, Copy, Debug, PartialEq, Eq, Structural)]
pub struct HashParams {
    pub hash_bucket_count: u32,
    pub gnu_hash_bucket_count: u32,
    pub gnu_hash_bloom_count: u32,
    pub gnu_hash_bloom_shift: u32,
}

/// An image, as contracts see it.
pub struct ImageView {
    /// The class of the file header.
    pub class: Class,
    /// The byte order of the file header.
    pub endianness: Endianness,
    /// The target machine of the file header.
    pub machine: u16,
    /// The parameters of the symbol hash tables.
    pub hash: HashParams,
    /// The layout fields of the sections, in the order of the section table.
    pub layouts: Seq<SectionLayout>,
    /// The sections, in the order of the section table.
    pub sections: Seq<SectionView>,
}

/// The sections that a builder holds and has not marked as deleted, in table
/// order. A section whose data is `SectionData::Dynamic` is a dynamic table
/// with the builder's entries; any other is opaque, with the bytes of
/// `SectionData::Data` or `SectionData::Note` and with none where the builder
/// keeps the section in another form.
pub uninterp spec fn image_sections(image: Builder<'_>) -> Seq<SectionView>;

/// The `e_machine` field of a builder's header.
pub uninterp spec fn image_machine(image: Builder<'_>) -> u16;

/// The `is_64` field of a builder.
pub uninterp spec fn image_is_64(image: Builder<'_>) -> bool;

/// The `endian` field of a builder.
pub uninterp spec fn image_endianness(image: Builder<'_>) -> Endianness;

/// The `sh_type`, `sh_offset` and `sh_addralign` fields of the sections
/// that a builder holds and has not marked as deleted, in table order: one
/// for each section of `image_sections`.
pub uninterp spec fn image_layouts(image: Builder<'_>) -> Seq<SectionLayout>;

/// The fields `hash_bucket_count`, `gnu_hash_bucket_count`,
/// `gnu_hash_bloom_count` and `gnu_hash_bloom_shift` of a builder.
pub uninterp spec fn image_hash_params(image: Builder<'_>) -> HashParams;

/// What `Builder::read` makes of a file: `None` where it reports an error,
/// else the header fields and sections of the builder that it returns.
pub uninterp spec fn elf_parsed(bytes: Seq<u8>) -> Option<ImageView>;

/// What `Builder::write` makes of a builder: `None` where it reports an
/// error, else the bytes of the file.
pub uninterp spec fn elf_written(image: Builder<'_>) -> Option<Seq<u8>>;

/// What a builder shows of its image.
pub open spec fn builder_view(image: Builder<'_>) -> ImageView {
    ImageView {
        class: if image_is_64(image) {
            Class::Elf64
        } else {
            Class::Elf32
        },
        endianness: image_endianness(image),
        machine: image_machine(image),
        hash: image_hash_params(image),
        layouts: image_layouts(image),
        sections: image_sections(image),
    }
}

/// Whether a value of a section header is small enough for the writer to
/// add to a file offset: within `limit`, and within a quarter of the
/// address space of the machine.
pub open spec fn within(value: u64, limit: u64) -> bool {
    value <= limit && value <= usize::MAX / 4
}

/// Whether an alignment is one that the writer can round an offset up to:
/// none, or a power of two within `MAX_ALIGNMENT`.
pub open spec fn alignment_writable(align: u64) -> bool {
    align == 0 || (within(align, MAX_ALIGNMENT) && align & ((align - 1) as u64) == 0)
}

/// Whether the writer can place a section with these header fields: the
/// alignment is usable, and the offset is within `MAX_SECTION_OFFSET`
/// unless the section occupies no space in the file.
pub open spec fn layout_writable(layout: SectionLayout) -> bool {
    &&& alignment_writable(layout.sh_addralign)
    &&& layout.sh_type == SHT_NOBITS || within(layout.sh_offset, MAX_SECTION_OFFSET)
}

/// Whether the writer can build the hash tables: the counts are within
/// `MAX_HASH_COUNT`, and a GNU hash table with buckets has at least one
/// filter word and a filter shift below 32.
pub open spec fn hash_writable(hash: HashParams) -> bool {
    &&& hash.hash_bucket_count <= MAX_HASH_COUNT
    &&& hash.gnu_hash_bucket_count <= MAX_HASH_COUNT
    &&& hash.gnu_hash_bloom_count <= MAX_HASH_COUNT
    &&& hash.gnu_hash_bucket_count == 0 || (hash.gnu_hash_bloom_count >= 1
        && hash.gnu_hash_bloom_shift < 32)
}

/// Whether a text can stand in a string table: it holds no null byte.
pub open spec fn text_writable(text: Seq<u8>) -> bool {
    forall|i: int| 0 <= i < text.len() ==> #[trigger] text[i] != 0
}

/// Whether the writer can store a dynamic entry: a string value holds no
/// null byte.
pub open spec fn entry_writable(entry: EntryView) -> bool {
    entry.value matches ValueView::String(text) ==> text_writable(text)
}

/// Whether the writer can store every entry of a run.
pub open spec fn entries_writable(entries: Seq<EntryView>) -> bool {
    forall|i: int| 0 <= i < entries.len() ==> entry_writable(#[trigger] entries[i])
}

/// Whether the writer can store a section: every entry of a dynamic table
/// can be stored.
pub open spec fn section_writable(section: SectionView) -> bool {
    section matches SectionView::Dynamic(entries) ==> entries_writable(entries)
}

/// Whether an image is one that is handed to the writer: its hash
/// parameters, the layout fields of every section and the strings of every
/// dynamic table are within what the writer computes with.
pub open spec fn writable(image: ImageView) -> bool {
    &&& hash_writable(image.hash)
    &&& image.layouts.len() == image.sections.len()
    &&& forall|i: int| 0 <= i < image.layouts.len() ==> layout_writable(#[trigger] image.layouts[i])
    &&& forall|i: int|
        0 <= i < image.sections.len() ==> section_writable(#[trigger] image.sections[i])
}

/// Calls `Builder::read` on the bytes of a file. The builder that comes back
/// is the one that `elf_parsed` describes; an error comes back exactly where
/// `elf_parsed` is `None`.
#[verifier::external_body]
fn read_builder<'data>(bytes: &'data [u8]) -> (r: Result<Builder<'data>, object::build::Error>)
    ensures
        match r {
            Ok(image) => elf_parsed(bytes@) == Some(builder_view(image)),
            Err(_) => elf_parsed(bytes@) is None,
        },
{
    Builder::read(bytes)
}

/// Calls `Builder::write` into a fresh buffer. The bytes, or the failure, are
/// those that `elf_written` names for this builder.
///
/// The writer takes some values of the builder as they are and computes or
/// indexes with them, and fails hard where they are out of range. The
/// builder is therefore handed over only where it is `writable`:
/// - `util::align` adds the alignment to an offset and masks with it, so an
///   alignment is a power of two and small;
/// - `Writer::reserve_until` takes a section's offset as the length of the
///   file so far, so an offset is small;
/// - `Writer::write_hash` and `write_gnu_hash` make tables of the given
///   counts, index the filter by `count - 1` and shift by the given shift,
///   so the counts are small, and a GNU table with buckets has a filter
///   word and a shift below 32;
/// - `StringTable::add` asserts that a string holds no null byte.
/// Everything else that the writer adds up is the length of data that the
/// builder holds in memory.
#[verifier::external_body]
fn write_builder(image: Builder<'_>) -> (r: Result<Vec<u8>, object::build::Error>)
    requires
        writable(builder_view(image)),
    ensures
        match r {
            Ok(bytes) => elf_written(image) == Some(bytes@),
            Err(_) => elf_written(image) is None,
        },
{
    let mut buffer = Vec::new();
    match image.write(&mut buffer) {
        Ok(()) => Ok(buffer),
        Err(error) => Err(error),
    }
}

/// The text of an `object::build::Error`, through its `Display`.
#[verifier::external_body]
fn error_text(error: &object::build::Error) -> String {
    error.to_string()
}

/// Reads `header.e_machine` of a builder.
#[verifier::external_body]
fn builder_machine(image: &Builder<'_>) -> (r: u16)
    ensures
        r == image_machine(*image),
{
    image.header.e_machine
}

/// Reads the `is_64` field of a builder.
#[verifier::external_body]
fn builder_is_64(image: &Builder<'_>) -> (r: bool)
    ensures
        r == image_is_64(*image),
{
    image.is_64
}

/// Reads the `endian` field of a builder.
#[verifier::external_body]
fn builder_endianness(image: &Builder<'_>) -> (r: Endianness)
    ensures
        r == image_endianness(*image),
{
    match image.endian {
        object::Endianness::Little => Endianness::Little,
        object::Endianness::Big => Endianness::Big,
    }
}

/// Reads the four hash parameters of a builder.
#[verifier::external_body]
fn builder_hash_params(image: &Builder<'_>) -> (r: HashParams)
    ensures
        r == image_hash_params(*image),
{
    HashParams {
        hash_bucket_count: image.hash_bucket_count,
        gnu_hash_bucket_count: image.gnu_hash_bucket_count,
        gnu_hash_bloom_count: image.gnu_hash_bloom_count,
        gnu_hash_bloom_shift: image.gnu_hash_bloom_shift,
    }
}

/// Reads the layout fields of the section at `index` of `Table::iter`.
#[verifier::external_body]
fn builder_layout(image: &Builder<'_>, index: usize) -> (r: Option<SectionLayout>)
    requires
        index < image_sections(*image).len(),
    ensures
        r == Some(image_layouts(*image)[index as int]),
{
    let section = image.sections.iter().nth(index)?;
    Some(SectionLayout {
        sh_type: section.sh_type,
        sh_offset: section.sh_offset,
        sh_addralign: section.sh_addralign,
    })
}

/// Counts the sections of a builder with `Table::count`, which leaves out
/// the deleted ones.
#[verifier::external_body]
fn builder_section_count(image: &Builder<'_>) -> (r: usize)
    ensures
        r == image_sections(*image).len(),
        r == image_layouts(*image).len(),
{
    image.sections.count()
}

/// Copies out the entries of the section at `index` of `Table::iter`, where
/// that section is a dynamic table: the tag of each by `Dynamic::tag`, the
/// value by its variant.
#[verifier::external_body]
fn builder_dynamic(image: &Builder<'_>, index: usize) -> (r: Option<Vec<DynamicEntry>>)
    requires
        index < image_sections(*image).len(),
    ensures
        match r {
            Some(entries) => image_sections(*image)[index as int] == SectionView::Dynamic(
                entries_view(entries@),
            ),
            None => image_sections(*image)[index as int] is Opaque,
        },
{
    match &image.sections.iter().nth(index)?.data {
        SectionData::Dynamic(entries) => Some(
            entries.iter().map(|entry| DynamicEntry {
                tag: entry.tag(),
                value: match entry {
                    Dynamic::Auto { .. } => EntryValue::Auto,
                    Dynamic::Integer { val, .. } => EntryValue::Integer(*val),
                    Dynamic::String { val, .. } => EntryValue::String(val.to_vec()),
                },
            }).collect(),
        ),
        _ => None,
    }
}

/// Copies out the raw bytes of the section at `index` of `Table::iter`, where
/// that section is not a dynamic table.
#[verifier::external_body]
fn builder_opaque(image: &Builder<'_>, index: usize) -> (r: Option<Vec<u8>>)
    requires
        index < image_sections(*image).len(),
    ensures
        match r {
            Some(bytes) => image_sections(*image)[index as int] == SectionView::Opaque(bytes@),
            None => image_sections(*image)[index as int] is Dynamic,
        },
{
    match &image.sections.iter().nth(index)?.data {
        SectionData::Dynamic(_) => None,
        SectionData::Data(bytes) => Some(bytes.to_vec()),
        SectionData::Note(bytes) => Some(bytes.to_vec()),
        _ => Some(Vec::new()),
    }
}

/// Replaces the entries of the dynamic table at `index` of `Table::iter_mut`.
/// Nothing else in the builder is touched.
#[verifier::external_body]
fn builder_set_dynamic(image: &mut Builder<'_>, index: usize, entries: Vec<DynamicEntry>)
    requires
        index < image_sections(*old(image)).len(),
        image_sections(*old(image))[index as int] is Dynamic,
    ensures
        image_machine(*final(image)) == image_machine(*old(image)),
        image_is_64(*final(image)) == image_is_64(*old(image)),
        image_endianness(*final(image)) == image_endianness(*old(image)),
        image_hash_params(*final(image)) == image_hash_params(*old(image)),
        image_layouts(*final(image)) == image_layouts(*old(image)),
        image_sections(*final(image)) == image_sections(*old(image)).update(
            index as int,
            SectionView::Dynamic(entries_view(entries@)),
        ),
{
    if let Some(section) = image.sections.iter_mut().nth(index) {
        section.data = SectionData::Dynamic(
            entries.into_iter().map(|entry| match entry.value {
                EntryValue::Auto => Dynamic::Auto { tag: entry.tag },
                EntryValue::Integer(val) => Dynamic::Integer { tag: entry.tag, val },
                EntryValue::String(val) => Dynamic::String { tag: entry.tag, val: val.into() },
            }).collect(),
        );
    }
}

/// Whether a value of a section header is within `limit` and within a
/// quarter of the address space.
pub fn is_within(value: u64, limit: u64) -> (r: bool)
    ensures
        r == within(value, limit),
{
    value <= limit && value <= (usize::MAX / 4) as u64
}

/// Whether an alignment is one that the writer can round an offset up to.
pub fn is_alignment_writable(align: u64) -> (r: bool)
    ensures
        r == alignment_writable(align),
{
    align == 0 || (is_within(align, MAX_ALIGNMENT) && align & (align - 1) == 0)
}

/// Whether the writer can place a section with these header fields.
pub fn is_layout_writable(layout: SectionLayout) -> (r: bool)
    ensures
        r == layout_writable(layout),
{
    is_alignment_writable(layout.sh_addralign) && (layout.sh_type == SHT_NOBITS || is_within(
        layout.sh_offset,
        MAX_SECTION_OFFSET,
    ))
}

/// Whether the writer can build the hash tables.
pub fn is_hash_writable(hash: HashParams) -> (r: bool)
    ensures
        r == hash_writable(hash),
{
    hash.hash_bucket_count <= MAX_HASH_COUNT && hash.gnu_hash_bucket_count <= MAX_HASH_COUNT
        && hash.gnu_hash_bloom_count <= MAX_HASH_COUNT && (hash.gnu_hash_bucket_count == 0 || (
    hash.gnu_hash_bloom_count >= 1 && hash.gnu_hash_bloom_shift < 32))
}

/// Whether a text holds no null byte.
pub fn is_text_writable(text: &Vec<u8>) -> (r: bool)
    ensures
        r == text_writable(text@),
{
    let mut i: usize = 0;
    while i < text.len()
        invariant
            i <= text.len(),
            forall|j: int| 0 <= j < i ==> #[trigger] text@[j] != 0,
        decreases text.len() - i,
    {
        if text[i] == 0 {
            return false;
        }
        i += 1;
    }
    true
}

/// Whether the writer can store every entry of a run.
pub fn are_entries_writable(entries: &Vec<DynamicEntry>) -> (r: bool)
    ensures
        r == entries_writable(entries_view(entries@)),
{
    let mut i: usize = 0;
    while i < entries.len()
        invariant
            i <= entries.len(),
            forall|j: int| 0 <= j < i ==> entry_writable(#[trigger] entries_view(entries@)[j]),
        decreases entries.len() - i,
    {
        let ok = match &entries[i].value {
            EntryValue::String(text) => is_text_writable(text),
            _ => true,
        };
        if !ok {
            assert(!entry_writable(entries_view(entries@)[i as int]));
            return false;
        }
        i += 1;
    }
    true
}

/// A section of an image.
#[derive(Clone, Debug, PartialEq, Eq)]
pub enum Section {
    /// A dynamic table: its entries in order, without the terminator.
    Dynamic(Vec<DynamicEntry>),
    /// Any other section: the raw bytes that the image carries for it. They
    /// are empty for sections that the image keeps in parsed form, such as
    /// symbol and string tables.
    Opaque(Vec<u8>),
}

impl View for Section {
    type V = SectionView;

    open spec fn view(&self) -> SectionView {
        match self {
            Section::Dynamic(entries) => SectionView::Dynamic(entries_view(entries@)),
            Section::Opaque(bytes) => SectionView::Opaque(bytes@),
        }
    }
}

/// A cleaned section: a dynamic table is cleaned, any other section is as it
/// was.
pub open spec fn clean_section(section: SectionView, machine: u16) -> SectionView {
    match section {
        SectionView::Dynamic(entries) => SectionView::Dynamic(cleaned_entries(entries, machine)),
        SectionView::Opaque(_) => section,
    }
}

/// The reports of cleaning one section.
pub open spec fn section_changes(section: SectionView, machine: u16) -> Seq<Change> {
    match section {
        SectionView::Dynamic(entries) => entry_changes(entries, machine),
        SectionView::Opaque(_) => Seq::empty(),
    }
}

/// The cleaning of one section, on `machine`.
pub open spec fn cleaning(machine: u16) -> spec_fn(SectionView) -> SectionView {
    |section: SectionView| clean_section(section, machine)
}

/// A cleaned image: the same header, each section cleaned for the machine of
/// the header.
pub open spec fn clean_image(image: ImageView) -> ImageView {
    ImageView { sections: image.sections.map_values(cleaning(image.machine)), ..image }
}

/// The reports of cleaning the first `count` sections, section by section.
pub open spec fn changes_through(sections: Seq<SectionView>, machine: u16, count: int) -> Seq<
    Change,
>
    decreases count,
{
    if count <= 0 {
        Seq::empty()
    } else {
        changes_through(sections, machine, count - 1) + section_changes(
            sections[count - 1],
            machine,
        )
    }
}

/// The reports of cleaning an image: those of its sections, in table order.
pub open spec fn image_changes(image: ImageView) -> Seq<Change> {
    changes_through(image.sections, image.machine, image.sections.len() as int)
}

/// An ELF image that can be edited and written back.
pub struct ElfImage<'data> {
    builder: Builder<'data>,
}

impl<'data> View for ElfImage<'data> {
    type V = ImageView;

    closed spec fn view(&self) -> ImageView {
        builder_view(self.builder)
    }
}

impl<'data> ElfImage<'data> {
    /// The bytes that writing this image gives, or `None` where it cannot be
    /// laid out.
    pub closed spec fn serialized(&self) -> Option<Seq<u8>> {
        elf_written(self.builder)
    }

    /// Reads an image from the bytes of a file. Fails with
    /// `CleanError::Parse` exactly on the bytes that are not a readable ELF
    /// image.
    pub fn parse(bytes: &'data [u8]) -> (r: Result<ElfImage<'data>, CleanError>)
        ensures
            match r {
                Ok(image) => elf_parsed(bytes@) == Some(image@),
                Err(error) => elf_parsed(bytes@) is None && error is Parse,
            },
    {
        match read_builder(bytes) {
            Ok(builder) => Ok(ElfImage { builder }),
            Err(error) => Err(CleanError::Parse(error_text(&error))),
        }
    }

    /// The target machine of the image.
    pub fn machine(&self) -> (r: u16)
        ensures
            r == self@.machine,
    {
        builder_machine(&self.builder)
    }

    /// The class of the image.
    pub fn class(&self) -> (r: Class)
        ensures
            r == self@.class,
    {
        if builder_is_64(&self.builder) {
            Class::Elf64
        } else {
            Class::Elf32
        }
    }

    /// The byte order of the image.
    pub fn endianness(&self) -> (r: Endianness)
        ensures
            r == self@.endianness,
    {
        builder_endianness(&self.builder)
    }

    /// The parameters of the symbol hash tables.
    pub fn hash_params(&self) -> (r: HashParams)
        ensures
            r == self@.hash,
    {
        builder_hash_params(&self.builder)
    }

    /// The layout fields of the section at `index`, or `None` past the last
    /// section.
    pub fn layout(&self, index: usize) -> (r: Option<SectionLayout>)
        ensures
            self@.layouts.len() == self@.sections.len(),
            r == if index < self@.layouts.len() {
                Some(self@.layouts[index as int])
            } else {
                None
            },
    {
        if index >= builder_section_count(&self.builder) {
            return None;
        }
        builder_layout(&self.builder, index)
    }

    /// Whether writing is attempted on this image: see `writable`.
    pub fn is_writable(&self) -> (r: bool)
        ensures
            r == writable(self@),
    {
        if !is_hash_writable(builder_hash_params(&self.builder)) {
            return false;
        }
        let count = builder_section_count(&self.builder);
        let mut index: usize = 0;
        while index < count
            invariant
                index <= count,
                count == self@.sections.len(),
                count == self@.layouts.len(),
                forall|j: int| 0 <= j < index ==> layout_writable(#[trigger] self@.layouts[j]),
                forall|j: int| 0 <= j < index ==> section_writable(#[trigger] self@.sections[j]),
            decreases count - index,
        {
            match builder_layout(&self.builder, index) {
                Some(layout) => {
                    if !is_layout_writable(layout) {
                        assert(!layout_writable(self@.layouts[index as int]));
                        return false;
                    }
                },
                None => {},
            }
            match builder_dynamic(&self.builder, index) {
                Some(entries) => {
                    if !are_entries_writable(&entries) {
                        assert(!section_writable(self@.sections[index as int]));
                        return false;
                    }
                },
                None => {},
            }
            index += 1;
        }
        true
    }

    /// The number of sections.
    pub fn section_count(&self) -> (r: usize)
        ensures
            r == self@.sections.len(),
    {
        builder_section_count(&self.builder)
    }

    /// A copy of the section at `index`, or `None` past the last section.
    pub fn section(&self, index: usize) -> (r: Option<Section>)
        ensures
            match r {
                Some(section) => index < self@.sections.len() && section@
                    == self@.sections[index as int],
                None => index >= self@.sections.len(),
            },
    {
        if index >= builder_section_count(&self.builder) {
            return None;
        }
        match builder_dynamic(&self.builder, index) {
            Some(entries) => Some(Section::Dynamic(entries)),
            None => match builder_opaque(&self.builder, index) {
                Some(bytes) => Some(Section::Opaque(bytes)),
                None => None,
            },
        }
    }

    /// Cleans every dynamic section of the image for the machine of its
    /// header and leaves every other section as it is. Returns what was
    /// done, section by section. Where nothing was done the image is not
    /// touched at all, and writing it gives what it gave before.
    pub fn clean(&mut self) -> (changes: Vec<Change>)
        ensures
            final(self)@ == clean_image(old(self)@),
            changes@ == image_changes(old(self)@),
            changes@.len() == 0 ==> final(self).serialized() == old(self).serialized(),
    {
        let machine = builder_machine(&self.builder);
        let count = builder_section_count(&self.builder);
        let mut changes: Vec<Change> = Vec::new();
        let mut index: usize = 0;
        while index < count
            invariant
                index <= count,
                count == old(self)@.sections.len(),
                self@.sections.len() == count,
                self@.machine == machine,
                old(self)@.machine == machine,
                self@.class == old(self)@.class,
                self@.endianness == old(self)@.endianness,
                self@.hash == old(self)@.hash,
                self@.layouts == old(self)@.layouts,
                changes@.len() == 0 ==> self.builder == old(self).builder,
                forall|j: int|
                    0 <= j < index ==> #[trigger] self@.sections[j] == clean_section(
                        old(self)@.sections[j],
                        machine,
                    ),
                forall|j: int|
                    index <= j < count ==> #[trigger] self@.sections[j] == old(self)@.sections[j],
                changes@ == changes_through(old(self)@.sections, machine, index as int),
            decreases count - index,
        {
            match builder_dynamic(&self.builder, index) {
                Some(mut entries) => {
                    let ghost before = entries_view(entries@);
                    let mut found = clean_entries(&mut entries, machine);
                    if found.len() > 0 {
                        builder_set_dynamic(&mut self.builder, index, entries);
                        changes.append(&mut found);
                    } else {
                        proof {
                            lemma_silent_iff_unchanged(before, machine);
                            assert(changes@ + found@ =~= changes@);
                        }
                    }
                },
                None => {},
            }
            index += 1;
        }
        proof {
            assert(self@.sections =~= clean_image(old(self)@).sections);
        }
        changes
    }

    /// Writes the image out as the bytes of a file. Fails with
    /// `CleanError::Serialize` exactly where the image is not `writable` or
    /// the writer cannot lay it out.
    pub fn serialize(self) -> (r: Result<Vec<u8>, CleanError>)
        ensures
            match r {
                Ok(bytes) => writable(self@) && self.serialized() == Some(bytes@),
                Err(error) => error is Serialize && (!writable(self@) || self.serialized()
                    is None),
            },
    {
        if !self.is_writable() {
            return Err(
                CleanError::Serialize(
                    String::from_str("the image holds values that cannot be laid out"),
                ),
            );
        }
        match write_builder(self.builder) {
            Ok(bytes) => Ok(bytes),
            Err(error) => Err(CleanError::Serialize(error_text(&error))),
        }
    }
}

} // verus!
