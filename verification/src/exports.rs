//! Reading the names that a library image exports.
//!
//! The export directory itself is read by `pelite`; this module turns what it
//! finds into validated export names, or into the first fault in the order of
//! the directory.

use vstd::prelude::*;
use vstd::string::*;
use vstd::utf8::*;
use crate::layout::{layout_aligned, spec_layout_aligned};
use crate::target::{spec_target, Arch, TargetDescriptor};
use crate::text::{decimal, join, spec_decimal, utf8_text};

verus! {

/// One entry of the name table as it was read: the bytes of a name, or the
/// reason why the entry could not be read.
pub type RawEntry = Result<Vec<u8>, String>;

/// The name table of an image as it was read, or the reason why the image has
/// none that can be read.
pub type RawListing = Result<Vec<RawEntry>, String>;

/// The mathematical value of a [`RawEntry`].
pub type EntryView = Result<Seq<u8>, Seq<char>>;

/// The mathematical value of a [`RawListing`].
pub type ListingView = Result<Seq<EntryView>, Seq<char>>;

/// What `pelite` reads from the export directory of a 32-bit image that lies
/// at an aligned address and whose structures are aligned, on a little-endian
/// host.
pub uninterp spec fn pe32_export_names(image: Seq<u8>) -> ListingView;

/// What `pelite` reads from the export directory of a 64-bit image that lies
/// at an aligned address and whose structures are aligned, on a little-endian
/// host.
pub uninterp spec fn pe64_export_names(image: Seq<u8>) -> ListingView;

/// How `pelite` describes what does not lie at a multiple of its alignment.
pub open spec fn misaligned_text() -> Seq<char> {
    "address misaligned"@
}

pub open spec fn entry_view(e: RawEntry) -> EntryView {
    match e {
        Ok(bytes) => Ok(bytes@),
        Err(reason) => Err(reason@),
    }
}

pub open spec fn entries_view(entries: Seq<RawEntry>) -> Seq<EntryView> {
    Seq::new(entries.len(), |i: int| entry_view(entries[i]))
}

pub open spec fn listing_view(listing: RawListing) -> ListingView {
    match listing {
        Ok(entries) => Ok(entries_view(entries@)),
        Err(reason) => Err(reason@),
    }
}

/// Why the exports of an image could not be listed.
#[derive(Debug)]
pub enum ExportError {
    /// The pair of operating system and instruction set is not supported.
    UnsupportedTarget,
    /// The image has no export directory that can be read.
    Image { reason: String },
    /// The entry at `index` of the name table cannot be read.
    Entry { index: usize, reason: String },
    /// The name at `index` is not text.
    NotText { index: usize },
    /// The name at `index` is empty.
    Empty { index: usize },
}

/// The mathematical value of an [`ExportError`].
pub enum ExportFault {
    UnsupportedTarget,
    Image { reason: Seq<char> },
    Entry { index: int, reason: Seq<char> },
    NotText { index: int },
    Empty { index: int },
}

impl View for ExportError {
    type V = ExportFault;

    open spec fn view(&self) -> ExportFault {
        match *self {
            ExportError::UnsupportedTarget => ExportFault::UnsupportedTarget,
            ExportError::Image { reason } => ExportFault::Image { reason: reason@ },
            ExportError::Entry { index, reason } => ExportFault::Entry {
                index: index as int,
                reason: reason@,
            },
            ExportError::NotText { index } => ExportFault::NotText { index: index as int },
            ExportError::Empty { index } => ExportFault::Empty { index: index as int },
        }
    }
}

/// What is wrong with the entry at `index`, if anything: it could not be
/// read, its bytes are not UTF-8, or it is empty.
pub open spec fn entry_fault(index: int, entry: EntryView) -> Option<ExportFault> {
    match entry {
        Err(reason) => Some(ExportFault::Entry { index, reason }),
        Ok(bytes) => if !valid_utf8(bytes) {
            Some(ExportFault::NotText { index })
        } else if bytes.len() == 0 {
            Some(ExportFault::Empty { index })
        } else {
            None
        },
    }
}

/// Every entry before `upto` is a name.
pub open spec fn sound_before(entries: Seq<EntryView>, upto: int) -> bool {
    forall|j: int| 0 <= j < upto && j < entries.len() ==> entry_fault(j, #[trigger] entries[j]) is None
}

/// Every entry is a name: the directory is well formed.
pub open spec fn well_formed(entries: Seq<EntryView>) -> bool {
    sound_before(entries, entries.len() as int)
}

/// The bytes of an entry that was read.
pub open spec fn entry_bytes(entry: EntryView) -> Seq<u8> {
    match entry {
        Ok(bytes) => bytes,
        Err(_) => Seq::empty(),
    }
}

/// The text of the name at each entry of a well-formed directory.
pub open spec fn decoded_names(entries: Seq<EntryView>) -> Seq<Seq<char>> {
    Seq::new(entries.len(), |i: int| decode_utf8(entry_bytes(entries[i])))
}

/// The result of decoding a name table: the names of a well-formed one, else
/// the fault of the first entry that has one.
pub open spec fn decodes_to(entries: Seq<EntryView>, r: Result<Seq<Seq<char>>, ExportFault>) -> bool {
    match r {
        Ok(names) => well_formed(entries) && names == decoded_names(entries),
        Err(fault) => exists|i: int|
            0 <= i < entries.len() && sound_before(entries, i) && entry_fault(i, entries[i]) == Some(
                fault,
            ),
    }
}

/// The result of reading a listing: the reason of one that could not be
/// read, else the result of decoding its entries.
pub open spec fn reads_to(listing: ListingView, r: Result<Seq<Seq<char>>, ExportFault>) -> bool {
    match listing {
        Err(reason) => r == Err::<Seq<Seq<char>>, ExportFault>(ExportFault::Image { reason }),
        Ok(entries) => decodes_to(entries, r),
    }
}

/// The mathematical value of a result of this module.
pub open spec fn names_result_view(r: Result<Vec<String>, ExportError>) -> Result<
    Seq<Seq<char>>,
    ExportFault,
> {
    match r {
        Ok(names) => Ok(names.deep_view()),
        Err(e) => Err(e@),
    }
}

/// Decodes the entries of a name table, in their order. The result holds one
/// name for each entry; the first entry that is not a name ends the reading
/// with its index.
pub fn decode_names(entries: &Vec<RawEntry>) -> (r: Result<Vec<String>, ExportError>)
    ensures
        decodes_to(entries_view(entries@), names_result_view(r)),
{
    let ghost view = entries_view(entries@);
    let mut names: Vec<String> = Vec::new();
    let mut i: usize = 0;
    while i < entries.len()
        invariant
            0 <= i <= entries.len(),
            view == entries_view(entries@),
            sound_before(view, i as int),
            names.len() == i,
            forall|j: int| 0 <= j < i ==> (#[trigger] names[j])@ == decode_utf8(entry_bytes(view[j])),
        decreases entries.len() - i,
    {
        assert(view[i as int] == entry_view(entries[i as int]));
        match &entries[i] {
            Err(reason) => {
                let e = ExportError::Entry { index: i, reason: reason.clone() };
                assert(entry_fault(i as int, view[i as int]) == Some(e@));
                return Err(e);
            },
            Ok(bytes) => {
                match utf8_text(bytes.as_slice()) {
                    None => {
                        let e = ExportError::NotText { index: i };
                        assert(entry_fault(i as int, view[i as int]) == Some(e@));
                        return Err(e);
                    },
                    Some(text) => {
                        if bytes.len() == 0 {
                            let e = ExportError::Empty { index: i };
                            assert(entry_fault(i as int, view[i as int]) == Some(e@));
                            return Err(e);
                        }
                        names.push(String::from_str(text));
                    },
                }
            },
        }
        i += 1;
    }
    proof {
        assert(names.deep_view() =~= decoded_names(view));
    }
    Ok(names)
}

/// Turns what was read from an image into export names.
pub fn read_listing(listing: &RawListing) -> (r: Result<Vec<String>, ExportError>)
    ensures
        reads_to(listing_view(*listing), names_result_view(r)),
{
    match listing {
        Err(reason) => Err(ExportError::Image { reason: reason.clone() }),
        Ok(entries) => decode_names(entries),
    }
}

/// A well-formed directory is decoded without a fault, into as many names as
/// it has entries, none of them empty, and each name written back as UTF-8
/// gives the bytes of its entry.
pub proof fn lemma_names_round_trip(entries: Seq<EntryView>, r: Result<Seq<Seq<char>>, ExportFault>)
    requires
        well_formed(entries),
        decodes_to(entries, r),
    ensures
        r matches Ok(names) && names.len() == entries.len() && forall|i: int|
            0 <= i < entries.len() ==> (#[trigger] entries[i]) is Ok && names[i].len() > 0
                && encode_utf8(names[i]) == entry_bytes(entries[i]),
{
    match r {
        Err(fault) => {
            let i = choose|i: int|
                0 <= i < entries.len() && sound_before(entries, i) && entry_fault(i, entries[i])
                    == Some(fault);
            assert(entry_fault(i, entries[i]) is None);
        },
        Ok(names) => {
            assert forall|i: int| 0 <= i < entries.len() implies (#[trigger] entries[i]) is Ok
                && names[i].len() > 0 && encode_utf8(names[i]) == entry_bytes(entries[i]) by {
                assert(entry_fault(i, entries[i]) is None);
                let bytes = entry_bytes(entries[i]);
                decode_utf8_encode_utf8(bytes);
                if names[i].len() == 0 {
                    assert(encode_utf8(names[i]).len() == 0);
                }
            }
        },
    }
}

/// A directory with a fault is never decoded into names: the result names
/// the first entry that is no name, and says what is wrong with it.
pub proof fn lemma_first_fault_reported(
    entries: Seq<EntryView>,
    r: Result<Seq<Seq<char>>, ExportFault>,
    k: int,
)
    requires
        0 <= k < entries.len(),
        entry_fault(k, entries[k]) is Some,
        sound_before(entries, k),
        decodes_to(entries, r),
    ensures
        r == Err::<Seq<Seq<char>>, ExportFault>(entry_fault(k, entries[k]).unwrap()),
{
    match r {
        Ok(names) => {
            assert(entry_fault(k, entries[k]) is None);
        },
        Err(fault) => {
            let i = choose|i: int|
                0 <= i < entries.len() && sound_before(entries, i) && entry_fault(i, entries[i])
                    == Some(fault);
            if i < k {
                assert(entry_fault(i, entries[i]) is None);
            } else if k < i {
                assert(entry_fault(k, entries[k]) is None);
            }
        },
    }
}

/// What `pelite` reads from an image for a target: the narrow layout of the
/// export directory where pointers have 32 bits, the wide one where they have
/// 64.
pub open spec fn listing_of(target: TargetDescriptor, image: Seq<u8>) -> ListingView {
    if target.spec_pointer_width() == 32 {
        pe32_export_names(image)
    } else {
        pe64_export_names(image)
    }
}

/// The name table of an image for a target. An image with a structure that
/// is not aligned is refused, in the words that `pelite` has for it; any
/// other is read by `pelite`.
pub open spec fn spec_listing(target: TargetDescriptor, image: Seq<u8>) -> ListingView {
    if spec_layout_aligned(image, target.spec_pointer_width() == 64) {
        listing_of(target, image)
    } else {
        Err(misaligned_text())
    }
}

/// Copies the image into `room` with `dataview::bytes_mut`, so that it lies
/// at an aligned address, and reads it there with `PeFile::from_bytes`,
/// `Pe::exports`, `Exports::by`, `By::names` and `By::name_of_hint` of
/// `pelite::pe32`: the entries of the name table of a 32-bit image in their
/// order, each the bytes of a name without the closing zero, or `pelite`'s
/// description of the error that stood in its place. `pelite` reads the
/// headers, the section table and the export directory in place, which is
/// why an image with a structure that is not aligned is left out.
#[verifier::external_body]
fn get_proc_names_win32(dll_img: &[u8], room: Vec<u64>) -> (r: RawListing)
    requires
        dll_img@.len() <= 8 * room@.len(),
        spec_layout_aligned(dll_img@, false),
    ensures
        listing_view(r) == pe32_export_names(dll_img@),
{
    let mut room = room;
    dataview::bytes_mut(room.as_mut_slice())[..dll_img.len()].copy_from_slice(dll_img);
    let image = &dataview::bytes(room.as_slice())[..dll_img.len()];
    let pe = pelite::pe32::PeFile::from_bytes(image).map_err(|e| e.to_string())?;
    let by = pelite::pe32::Pe::exports(pe).and_then(|x| x.by()).map_err(|e| e.to_string())?;
    let name = |i| by.name_of_hint(i).map(|c| c.to_vec()).map_err(|e| e.to_string());
    Ok((0..by.names().len()).map(name).collect())
}

/// As for the 32-bit layout, with the same functions of `pelite::pe64`, for
/// a 64-bit image.
#[verifier::external_body]
fn get_proc_names_win64(dll_img: &[u8], room: Vec<u64>) -> (r: RawListing)
    requires
        dll_img@.len() <= 8 * room@.len(),
        spec_layout_aligned(dll_img@, true),
    ensures
        listing_view(r) == pe64_export_names(dll_img@),
{
    let mut room = room;
    dataview::bytes_mut(room.as_mut_slice())[..dll_img.len()].copy_from_slice(dll_img);
    let image = &dataview::bytes(room.as_slice())[..dll_img.len()];
    let pe = pelite::pe64::PeFile::from_bytes(image).map_err(|e| e.to_string())?;
    let by = pelite::pe64::Pe::exports(pe).and_then(|x| x.by()).map_err(|e| e.to_string())?;
    let name = |i| by.name_of_hint(i).map(|c| c.to_vec()).map_err(|e| e.to_string());
    Ok((0..by.names().len()).map(name).collect())
}

/// Room for an image of `len` bytes, in words of eight.
fn room_for(len: usize) -> (room: Vec<u64>)
    ensures
        len <= 8 * room@.len(),
{
    let words = len / 8 + 1;
    let mut room: Vec<u64> = Vec::new();
    let mut i: usize = 0;
    while i < words
        invariant
            0 <= i <= words,
            room@.len() == i,
        decreases words - i,
    {
        room.push(0);
        i += 1;
    }
    room
}

/// Reads the name table of an image in the layout of a target: the narrow
/// one where pointers have 32 bits, the wide one where they have 64.
///
/// An image with a header, a section table or a section that does not lie at
/// a multiple of its alignment is refused as misaligned. Where the caller
/// holds the image makes no difference.
pub fn list_exports(target: TargetDescriptor, dll_img: &[u8]) -> (listing: RawListing)
    ensures
        listing_view(listing) == spec_listing(target, dll_img@),
{
    let wide = target.pointer_width() == 64;
    if !layout_aligned(dll_img, wide) {
        return Err(String::from_str("address misaligned"));
    }
    let room = room_for(dll_img.len());
    match target.arch {
        Arch::X86 => get_proc_names_win32(dll_img, room),
        Arch::X86_64 => get_proc_names_win64(dll_img, room),
    }
}

/// The result of reading the exports of an image for a pair of names of an
/// operating system and an instruction set.
pub open spec fn exports_read(
    os: Seq<char>,
    arch: Seq<char>,
    image: Seq<u8>,
    r: Result<Seq<Seq<char>>, ExportFault>,
) -> bool {
    match spec_target(os, arch) {
        None => r == Err::<Seq<Seq<char>>, ExportFault>(ExportFault::UnsupportedTarget),
        Some(target) => reads_to(spec_listing(target, image), r),
    }
}

/// Lists the names that an image exports, in the order of its name table.
///
/// A pair of names that is no supported target is refused before the image
/// is looked at. The layout of the export directory is chosen by the target's
/// pointer width.
pub fn read_exports(os: &str, arch: &str, dll_img: &[u8]) -> (r: Result<Vec<String>, ExportError>)
    ensures
        exports_read(os@, arch@, dll_img@, names_result_view(r)),
{
    match TargetDescriptor::parse(os, arch) {
        None => Err(ExportError::UnsupportedTarget),
        Some(target) => {
            let listing = list_exports(target, dll_img);
            read_listing(&listing)
        },
    }
}

/// The entries of a listing that could be read.
pub open spec fn listing_entries(listing: ListingView) -> Seq<EntryView> {
    match listing {
        Ok(entries) => entries,
        Err(_) => Seq::empty(),
    }
}

/// Where the name table of an image for a supported target is well formed,
/// the exports that are read are as many as the table has entries, and each
/// name written back as UTF-8 gives the bytes of its entry.
pub proof fn lemma_exports_round_trip(
    os: Seq<char>,
    arch: Seq<char>,
    image: Seq<u8>,
    r: Result<Seq<Seq<char>>, ExportFault>,
)
    requires
        spec_target(os, arch) is Some,
        spec_listing(spec_target(os, arch).unwrap(), image) is Ok,
        well_formed(listing_entries(spec_listing(spec_target(os, arch).unwrap(), image))),
        exports_read(os, arch, image, r),
    ensures
        ({
            let entries = listing_entries(spec_listing(spec_target(os, arch).unwrap(), image));
            r matches Ok(names) && names.len() == entries.len() && forall|i: int|
                0 <= i < entries.len() ==> (#[trigger] entries[i]) is Ok && encode_utf8(names[i])
                    == entry_bytes(entries[i])
        }),
{
    let entries = listing_entries(spec_listing(spec_target(os, arch).unwrap(), image));
    lemma_names_round_trip(entries, r);
}

impl ExportError {
    /// The words of the error.
    pub open spec fn spec_message(fault: ExportFault) -> Seq<char> {
        match fault {
            ExportFault::UnsupportedTarget => "Current target unsupported"@,
            ExportFault::Image { reason } => "Failed to get proc names: "@ + reason,
            ExportFault::Entry { index, reason } => "Failed to get name of export #"@
                + spec_decimal(index as nat) + ": "@ + reason,
            ExportFault::NotText { index } => "Failed to convert proc to str: export #"@
                + spec_decimal(index as nat),
            ExportFault::Empty { index } => "Failed to get name of export #"@ + spec_decimal(
                index as nat,
            ) + ": empty name"@,
        }
    }

    /// The words of the error. An entry is named by its place in the name
    /// table, counted from zero.
    pub fn message(&self) -> (r: String)
        ensures
            r@ == Self::spec_message(self@),
    {
        match self {
            ExportError::UnsupportedTarget => String::from_str("Current target unsupported"),
            ExportError::Image { reason } => join("Failed to get proc names: ", reason.as_str()),
            ExportError::Entry { index, reason } => {
                let mut r = join("Failed to get name of export #", decimal(*index).as_str());
                r.append(": ");
                r.append(reason.as_str());
                r
            },
            ExportError::NotText { index } => join(
                "Failed to convert proc to str: export #",
                decimal(*index).as_str(),
            ),
            ExportError::Empty { index } => {
                let mut r = join("Failed to get name of export #", decimal(*index).as_str());
                r.append(": empty name");
                r
            },
        }
    }
}

} // verus!
