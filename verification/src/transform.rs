//! The whole transform of one file: read, clean, write.
use vstd::prelude::*;
use crate::dynamic::Change;
use crate::error::CleanError;
use crate::image::{clean_image, elf_parsed, image_changes, writable, ElfImage, ImageView};

verus! {

/// The outcome of cleaning a file.
#[derive(Clone, Debug, PartialEq, Eq)]
pub struct Cleaned {
    /// The bytes of the cleaned file.
    pub bytes: Vec<u8>,
    /// What was done, in the order in which a diagnostic is due.
    pub changes: Vec<Change>,
}

/// Whether `bytes` is what writing some image that shows `image` gives.
pub open spec fn written_from(image: ImageView, bytes: Option<Seq<u8>>) -> bool {
    exists|cleaned: ElfImage| cleaned@ == image && cleaned.serialized() == bytes
}

/// Cleans the ELF file held in `bytes` and returns the bytes of the cleaned
/// file together with what was done. The input is not touched, and the
/// output exists in full before the caller can write any of it.
///
/// Fails with `CleanError::Parse` exactly where the bytes are not a readable
/// image, and with `CleanError::Serialize` exactly where the cleaned image
/// is not `writable` or the writer cannot lay it out.
pub fn clean_elf(bytes: &[u8]) -> (r: Result<Cleaned, CleanError>)
    ensures
        match r {
            Ok(out) => {
                &&& elf_parsed(bytes@) is Some
                &&& out.changes@ == image_changes(elf_parsed(bytes@).unwrap())
                &&& writable(clean_image(elf_parsed(bytes@).unwrap()))
                &&& written_from(clean_image(elf_parsed(bytes@).unwrap()), Some(out.bytes@))
            },
            Err(CleanError::Parse(_)) => elf_parsed(bytes@) is None,
            Err(CleanError::Serialize(_)) => {
                &&& elf_parsed(bytes@) is Some
                &&& !writable(clean_image(elf_parsed(bytes@).unwrap())) || written_from(
                    clean_image(elf_parsed(bytes@).unwrap()),
                    None,
                )
            },
        },
{
    let mut image = match ElfImage::parse(bytes) {
        Ok(image) => image,
        Err(error) => {
            return Err(error);
        },
    };
    let changes = image.clean();
    let ghost cleaned = image;
    match image.serialize() {
        Ok(bytes) => {
            assert(cleaned.serialized() == Some(bytes@));
            Ok(Cleaned { bytes, changes })
        },
        Err(error) => {
            assert(!writable(cleaned@) || cleaned.serialized() is None);
            Err(error)
        },
    }
}

} // verus!
