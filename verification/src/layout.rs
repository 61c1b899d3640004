//! Where the headers and sections of an image lie.
//!
//! `pelite` reads the headers of an image, its section table and its export
//! directory in place. It looks at the address that a structure has in memory
//! for some of them, and for others takes on trust that the image puts it at
//! a multiple of its alignment. This module reads the few header fields that
//! decide it, so that only an image whose structures are all aligned is
//! handed on.

use vstd::prelude::*;

verus! {

/// The two bytes at `at`, read as a number with the low byte first.
pub open spec fn spec_le16(image: Seq<u8>, at: int) -> int {
    image[at] as int + 256 * (image[at + 1] as int)
}

/// The four bytes at `at`, read as a number with the low byte first.
pub open spec fn spec_le32(image: Seq<u8>, at: int) -> int {
    image[at] as int + 256 * (image[at + 1] as int) + 65536 * (image[at + 2] as int) + 16777216 * (
    image[at + 3] as int)
}

/// The size of the headers that follow the offset in the first header: a
/// signature, the file header, and the optional header of the layout
/// without its directories, which `pelite` bounds apart.
pub open spec fn spec_nt_size(wide: bool) -> int {
    if wide {
        136
    } else {
        120
    }
}

/// The alignment of those headers: that of the widest field in them.
pub open spec fn spec_nt_align(wide: bool) -> int {
    if wide {
        8
    } else {
        4
    }
}

/// Where the headers of the layout begin.
pub open spec fn spec_nt_offset(image: Seq<u8>) -> int {
    spec_le32(image, 60)
}

/// Whether the image begins with the mark of an executable and its headers
/// lie within it, at an offset in the range that `pelite` accepts. An image
/// of which this does not hold is refused before any of its structures is
/// looked at.
pub open spec fn headers_present(image: Seq<u8>, wide: bool) -> bool {
    &&& image.len() >= 64
    &&& image[0] == 0x4d
    &&& image[1] == 0x5a
    &&& spec_nt_offset(image) <= 0x0100_0000
    &&& spec_nt_offset(image) + spec_nt_size(wide) <= image.len()
}

/// The size that the image gives for its optional header.
pub open spec fn spec_optional_size(image: Seq<u8>) -> int {
    spec_le16(image, spec_nt_offset(image) + 20)
}

/// The number of sections that the image declares.
pub open spec fn spec_section_count(image: Seq<u8>) -> int {
    spec_le16(image, spec_nt_offset(image) + 6)
}

/// Where the section table begins: behind the optional header.
pub open spec fn spec_sections_offset(image: Seq<u8>) -> int {
    spec_nt_offset(image) + 24 + spec_optional_size(image)
}

/// Whether the section table lies within the image and has no more entries
/// than `pelite` accepts. An image of which this does not hold is refused
/// before its section table is looked at.
pub open spec fn sections_present(image: Seq<u8>) -> bool {
    &&& spec_section_count(image) <= 96
    &&& spec_sections_offset(image) + 40 * spec_section_count(image) <= image.len()
}

/// Whether the section at `index` lies in the file at an offset that differs
/// from its virtual address by a multiple of four, so that what is aligned
/// by its address in the section is aligned in the file.
pub open spec fn section_aligned(image: Seq<u8>, index: int) -> bool {
    let at = spec_sections_offset(image) + 40 * index;
    spec_le32(image, at + 12) % 4 == spec_le32(image, at + 20) % 4
}

/// Whether every structure that is read in place lies at a multiple of its
/// alignment, the image itself lying at a multiple of eight: the headers of
/// the layout, the section table, and what each section holds.
pub open spec fn spec_layout_aligned(image: Seq<u8>, wide: bool) -> bool {
    headers_present(image, wide) ==> {
        &&& spec_nt_offset(image) % spec_nt_align(wide) == 0
        &&& spec_optional_size(image) % 4 == 0
        &&& sections_present(image) ==> forall|i: int|
            0 <= i < spec_section_count(image) ==> #[trigger] section_aligned(image, i)
    }
}

fn le16(image: &[u8], at: usize) -> (r: u64)
    requires
        at + 2 <= image@.len(),
    ensures
        r == spec_le16(image@, at as int),
        r < 65536,
{
    image[at] as u64 + 256 * (image[at + 1] as u64)
}

fn le32(image: &[u8], at: usize) -> (r: u64)
    requires
        at + 4 <= image@.len(),
    ensures
        r == spec_le32(image@, at as int),
        r < 0x1_0000_0000,
{
    image[at] as u64 + 256 * (image[at + 1] as u64) + 65536 * (image[at + 2] as u64) + 16777216 * (
    image[at + 3] as u64)
}

/// Whether every structure of the image that is read in place is aligned.
pub fn layout_aligned(image: &[u8], wide: bool) -> (r: bool)
    ensures
        r == spec_layout_aligned(image@, wide),
{
    let len = image.len();
    if len < 64 || image[0] != 0x4d || image[1] != 0x5a {
        return true;
    }
    let nt_offset = le32(image, 60);
    let nt_size: u64 = if wide {
        136
    } else {
        120
    };
    if nt_offset > 0x0100_0000 || nt_offset + nt_size > len as u64 {
        return true;
    }
    let nt_align: u64 = if wide {
        8
    } else {
        4
    };
    if nt_offset % nt_align != 0 {
        return false;
    }
    let nt = nt_offset as usize;
    let optional_size = le16(image, nt + 20);
    if optional_size % 4 != 0 {
        return false;
    }
    let count = le16(image, nt + 6);
    let sections = nt_offset + 24 + optional_size;
    if count > 96 || sections + 40 * count > len as u64 {
        return true;
    }
    let mut i: u64 = 0;
    while i < count
        invariant
            0 <= i <= count,
            count == spec_section_count(image@),
            count <= 96,
            sections == spec_sections_offset(image@),
            sections + 40 * count <= len,
            len == image@.len(),
            headers_present(image@, wide),
            sections_present(image@),
            spec_nt_offset(image@) % spec_nt_align(wide) == 0,
            spec_optional_size(image@) % 4 == 0,
            forall|j: int| 0 <= j < i ==> #[trigger] section_aligned(image@, j),
        decreases count - i,
    {
        assert(sections + 40 * i + 40 <= len);
        let at = (sections + 40 * i) as usize;
        if le32(image, at + 12) % 4 != le32(image, at + 20) % 4 {
            assert(!section_aligned(image@, i as int));
            return false;
        }
        i += 1;
    }
    true
}

} // verus!
