//! A loaded image: its metadata and the file bytes behind it, with lookups
//! by name and address and the byte ranges of sections and virtual ranges.

use std::ops::Range;
use std::path::PathBuf;

use vstd::prelude::*;
use vstd::slice::slice_subrange;

use crate::model::{
    section_full_name, Architecture, BinaryFormat, DyldMetadata, Endianness, Import, ObjcMetadata,
    Relocation, Section, Segment, SliceDescriptor, SliceInfo, Symbol,
};
use crate::text::{chars_vec, str_eq};

verus! {

/// A loaded image and the bytes of the file it was read from.
pub struct BinaryImage {
    pub path: PathBuf,
    pub format: BinaryFormat,
    pub architecture: Architecture,
    pub endianness: Endianness,
    pub entry_point: Option<u64>,
    pub platform: Option<String>,
    pub slice: SliceInfo,
    /// Every slice the file holds.
    pub available_slices: Vec<SliceDescriptor>,
    pub segments: Vec<Segment>,
    pub sections: Vec<Section>,
    pub symbols: Vec<Symbol>,
    pub imports: Vec<Import>,
    pub relocations: Vec<Relocation>,
    pub objc: ObjcMetadata,
    pub dyld: DyldMetadata,
    /// The bytes of the file the image was read from.
    pub data: Vec<u8>,
}

/// `__TEXT:` followed by a name.
pub open spec fn text_qualified(name: Seq<char>) -> Seq<char> {
    seq!['_', '_', 'T', 'E', 'X', 'T', ':'] + name
}

/// A section answers to a name given bare, qualified, or qualified with
/// the text segment.
pub open spec fn section_matches(s: Section, name: Seq<char>) -> bool {
    let full = section_full_name(s.segment_name@, s.name@);
    s.name@ == name || full == name || full == text_qualified(name)
}

/// The end of a section's address range, clamped at the top of the space.
pub open spec fn section_end(s: Section) -> int {
    if s.address + s.size > u64::MAX {
        u64::MAX as int
    } else {
        s.address + s.size
    }
}

/// A range of `size` bytes at `address` lies inside section `s`, which
/// has file contents and does not wrap around the address space.
pub open spec fn virtual_range_fits(s: Section, address: u64, size: int) -> bool {
    &&& s.file_offset is Some
    &&& s.address + s.size <= u64::MAX
    &&& address + size <= s.address + s.size
}

/// The section's address range holds the address.
pub open spec fn section_contains(s: Section, address: u64) -> bool {
    s.address <= address < section_end(s)
}

/// `i` is the first index whose element satisfies `p`.
pub open spec fn first_match<T>(items: Seq<T>, p: spec_fn(T) -> bool, i: int) -> bool {
    0 <= i < items.len() && p(items[i]) && forall|j: int| 0 <= j < i ==> !p(items[j])
}

/// The result of a first-match search: the first matching element, or
/// nothing when no element matches.
pub open spec fn found_first<T>(items: Seq<T>, p: spec_fn(T) -> bool, r: Option<T>) -> bool {
    match r {
        Some(x) => exists|i: int| first_match(items, p, i) && items[i] == x,
        None => forall|j: int| 0 <= j < items.len() ==> !p(#[trigger] items[j]),
    }
}

/// The first element that satisfies `p`, if any.
pub open spec fn first_found<T>(items: Seq<T>, p: spec_fn(T) -> bool) -> Option<T> {
    if exists|i: int| first_match(items, p, i) {
        Some(items[choose|i: int| first_match(items, p, i)])
    } else {
        None
    }
}

/// A first-match search has exactly one outcome.
pub proof fn lemma_found_first_is_first_found<T>(items: Seq<T>, p: spec_fn(T) -> bool, r: Option<T>)
    requires
        found_first(items, p, r),
    ensures
        r == first_found(items, p),
{
    match r {
        Some(x) => {
            let i = choose|i: int| first_match(items, p, i) && items[i] == x;
            let j = choose|j: int| first_match(items, p, j);
            assert(first_match(items, p, j));
            if i < j {
                assert(!p(items[i]));
            } else if j < i {
                assert(!p(items[j]));
            }
        },
        None => {
            if exists|i: int| first_match(items, p, i) {
                let i = choose|i: int| first_match(items, p, i);
                assert(p(items[i]));
            }
        },
    }
}

/// The analysed slice as the file's one slice: selected, with the image's
/// architecture.
pub open spec fn sole_slice(slice: SliceInfo, architecture: Architecture) -> SliceDescriptor {
    SliceDescriptor {
        offset: slice.offset,
        size: slice.size,
        is_universal: slice.is_universal,
        cpu_subtype: slice.cpu_subtype,
        architecture,
        selected: true,
    }
}

/// The value behind an optional reference.
pub open spec fn deref_option<T>(r: Option<&T>) -> Option<T> {
    match r {
        Some(x) => Some(*x),
        None => None,
    }
}

impl BinaryImage {
    /// An image from its parts and the bytes of its file.
    pub fn new(
        path: PathBuf,
        format: BinaryFormat,
        architecture: Architecture,
        endianness: Endianness,
        entry_point: Option<u64>,
        platform: Option<String>,
        slice: SliceInfo,
        segments: Vec<Segment>,
        sections: Vec<Section>,
        symbols: Vec<Symbol>,
        imports: Vec<Import>,
        relocations: Vec<Relocation>,
        objc: ObjcMetadata,
        dyld: DyldMetadata,
        data: Vec<u8>,
    ) -> (r: BinaryImage)
        ensures
            r.format == format,
            r.architecture == architecture,
            r.endianness == endianness,
            r.entry_point == entry_point,
            r.platform == platform,
            r.slice == slice,
            r.segments == segments,
            r.sections == sections,
            r.symbols == symbols,
            r.imports == imports,
            r.relocations == relocations,
            r.objc == objc,
            r.dyld == dyld,
            r.data@ == data@,
            r.available_slices@ == seq![sole_slice(slice, architecture)],
    {
        let sole = SliceDescriptor {
            offset: slice.offset,
            size: slice.size,
            is_universal: slice.is_universal,
            cpu_subtype: slice.cpu_subtype,
            architecture,
            selected: true,
        };
        let mut available_slices: Vec<SliceDescriptor> = Vec::new();
        available_slices.push(sole);
        BinaryImage {
            path,
            format,
            architecture,
            endianness,
            entry_point,
            platform,
            slice,
            available_slices,
            segments,
            sections,
            symbols,
            imports,
            relocations,
            objc,
            dyld,
            data,
        }
    }

    /// The first of the file's slices marked as the one analysed.
    pub fn selected_slice_descriptor(&self) -> (r: Option<&SliceDescriptor>)
        ensures
            found_first(self.available_slices@, |d: SliceDescriptor| d.selected, deref_option(r)),
    {
        let ghost p = |d: SliceDescriptor| d.selected;
        let mut i: usize = 0;
        while i < self.available_slices.len()
            invariant
                i <= self.available_slices@.len(),
                p == (|d: SliceDescriptor| d.selected),
                forall|j: int| 0 <= j < i ==> !p(#[trigger] self.available_slices@[j]),
            decreases self.available_slices@.len() - i,
        {
            let d = &self.available_slices[i];
            if d.selected {
                assert(first_match(self.available_slices@, p, i as int));
                return Some(d);
            }
            i = i + 1;
        }
        None
    }

    /// The image with the slices its file holds.
    pub fn with_available_slices(self, slices: Vec<SliceDescriptor>) -> (r: BinaryImage)
        ensures
            r.available_slices == slices,
            r.path == self.path,
            r.format == self.format,
            r.architecture == self.architecture,
            r.endianness == self.endianness,
            r.entry_point == self.entry_point,
            r.platform == self.platform,
            r.slice == self.slice,
            r.segments == self.segments,
            r.sections == self.sections,
            r.symbols == self.symbols,
            r.imports == self.imports,
            r.relocations == self.relocations,
            r.objc == self.objc,
            r.dyld == self.dyld,
            r.data == self.data,
    {
        let mut image = self;
        image.available_slices = slices;
        image
    }

    /// The bytes of the analysed slice.
    pub fn slice_bytes(&self) -> (r: &[u8])
        requires
            self.slice.offset + self.slice.size <= self.data@.len(),
        ensures
            r@ == self.data@.subrange(
                self.slice.offset as int,
                self.slice.offset + self.slice.size,
            ),
    {
        let len = self.data.len();
        assert(self.slice.offset + self.slice.size <= len);
        let start = self.slice.offset as usize;
        let end = start + self.slice.size as usize;
        slice_subrange(self.data.as_slice(), start, end)
    }

    /// The bytes `size` bytes long at `file_offset` within the slice, when
    /// they lie inside the file.
    pub fn bytes_for_file_range(&self, file_offset: u64, size: u64) -> (r: Option<&[u8]>)
        ensures
            ({
                let start = self.slice.offset + file_offset;
                let end = start + size;
                match r {
                    Some(bytes) => start <= u64::MAX && end <= self.data@.len() && bytes@
                        == self.data@.subrange(start, end),
                    None => !(start <= u64::MAX && end <= self.data@.len()),
                }
            }),
    {
        let start = match self.slice.offset.checked_add(file_offset) {
            Some(v) => v,
            None => return None,
        };
        let len = self.data.len();
        if start > len as u64 {
            return None;
        }
        let end = match start.checked_add(size) {
            Some(v) => v,
            None => return None,
        };
        if end > len as u64 {
            return None;
        }
        Some(slice_subrange(self.data.as_slice(), start as usize, end as usize))
    }

    /// The file bytes of a section, when it has file contents inside the file.
    pub fn bytes_for_section(&self, section: &Section) -> (r: Option<&[u8]>)
        ensures
            match section.file_offset {
                None => r is None,
                Some(offset) => {
                    let start = self.slice.offset + offset;
                    let end = start + section.file_size;
                    match r {
                        Some(bytes) => start <= u64::MAX && end <= self.data@.len() && bytes@
                            == self.data@.subrange(start, end),
                        None => !(start <= u64::MAX && end <= self.data@.len()),
                    }
                },
            },
    {
        let offset = match section.file_offset {
            Some(v) => v,
            None => return None,
        };
        self.bytes_for_file_range(offset, section.file_size)
    }

    /// The first section answering to `name` (see `section_matches`).
    pub fn section_by_name(&self, name: &str) -> (r: Option<&Section>)
        ensures
            found_first(self.sections@, |s: Section| section_matches(s, name@), deref_option(r)),
    {
        let ghost p = |s: Section| section_matches(s, name@);
        let needle = chars_vec(name);
        let mut qualified: Vec<char> = Vec::new();
        qualified.push('_');
        qualified.push('_');
        qualified.push('T');
        qualified.push('E');
        qualified.push('X');
        qualified.push('T');
        qualified.push(':');
        let mut k: usize = 0;
        while k < needle.len()
            invariant
                k <= needle@.len(),
                qualified@ == seq!['_', '_', 'T', 'E', 'X', 'T', ':'] + needle@.take(k as int),
            decreases needle@.len() - k,
        {
            qualified.push(needle[k]);
            assert(needle@.take(k + 1) =~= needle@.take(k as int).push(needle@[k as int]));
            k = k + 1;
        }
        assert(needle@.take(needle@.len() as int) =~= needle@);
        let mut i: usize = 0;
        while i < self.sections.len()
            invariant
                i <= self.sections@.len(),
                needle@ == name@,
                qualified@ == text_qualified(name@),
                p == (|s: Section| section_matches(s, name@)),
                forall|j: int| 0 <= j < i ==> !p(#[trigger] self.sections@[j]),
            decreases self.sections@.len() - i,
        {
            let section = &self.sections[i];
            let full = chars_vec(section.full_name().as_str());
            let own = chars_vec(section.name.as_str());
            if crate::text::chars_eq(&own, &needle) || crate::text::chars_eq(&full, &needle)
                || crate::text::chars_eq(&full, &qualified) {
                assert(first_match(self.sections@, p, i as int));
                return Some(section);
            }
            i = i + 1;
        }
        None
    }

    /// The first symbol with exactly this name.
    pub fn symbol_by_name(&self, name: &str) -> (r: Option<&Symbol>)
        ensures
            found_first(self.symbols@, |s: Symbol| s.name@ == name@, deref_option(r)),
    {
        let ghost p = |s: Symbol| s.name@ == name@;
        let mut i: usize = 0;
        while i < self.symbols.len()
            invariant
                i <= self.symbols@.len(),
                p == (|s: Symbol| s.name@ == name@),
                forall|j: int| 0 <= j < i ==> !p(#[trigger] self.symbols@[j]),
            decreases self.symbols@.len() - i,
        {
            let symbol = &self.symbols[i];
            if str_eq(symbol.name.as_str(), name) {
                assert(first_match(self.symbols@, p, i as int));
                return Some(symbol);
            }
            i = i + 1;
        }
        None
    }

    /// The first section whose address range holds `address`.
    pub fn containing_section(&self, address: u64) -> (r: Option<&Section>)
        ensures
            found_first(self.sections@, |s: Section| section_contains(s, address), deref_option(r)),
    {
        let ghost p = |s: Section| section_contains(s, address);
        let mut i: usize = 0;
        while i < self.sections.len()
            invariant
                i <= self.sections@.len(),
                p == (|s: Section| section_contains(s, address)),
                forall|j: int| 0 <= j < i ==> !p(#[trigger] self.sections@[j]),
            decreases self.sections@.len() - i,
        {
            let section = &self.sections[i];
            let end = section.address.saturating_add(section.size);
            if section.address <= address && address < end {
                assert(first_match(self.sections@, p, i as int));
                return Some(section);
            }
            i = i + 1;
        }
        None
    }

    /// The bytes `size` bytes long at virtual address `address`, with the
    /// section that holds them: the first section whose range holds the
    /// address, when it has file contents, the range ends inside it, and the
    /// bytes lie inside the file.
    pub fn bytes_for_virtual_range(&self, address: u64, size: usize) -> (r: Option<(&Section, &[u8])>)
        requires
            forall|s: Section|
                #![trigger virtual_range_fits(s, address, size as int)]
                found_first(self.sections@, |s: Section| section_contains(s, address), Some(s))
                    && virtual_range_fits(s, address, size as int)
                    ==> s.file_offset.unwrap() + (address - s.address) <= u64::MAX,
        ensures
            match r {
                Some((s, bytes)) => {
                    &&& found_first(self.sections@, |s: Section| section_contains(s, address), Some(*s))
                    &&& virtual_range_fits(*s, address, size as int)
                    &&& self.virtual_bytes_present(*s, address, size as int)
                    &&& bytes@ == self.data@.subrange(
                        self.virtual_file_start(*s, address),
                        self.virtual_file_start(*s, address) + size,
                    )
                },
                None => forall|s: Section|
                    #![trigger virtual_range_fits(s, address, size as int)]
                    found_first(self.sections@, |s: Section| section_contains(s, address), Some(s))
                        ==> !(virtual_range_fits(s, address, size as int)
                            && self.virtual_bytes_present(s, address, size as int)),
            },
    {
        let section = match self.containing_section(address) {
            Some(s) => s,
            None => return None,
        };
        let file_offset = match section.file_offset {
            Some(v) => v,
            None => return None,
        };
        let section_end = match section.address.checked_add(section.size) {
            Some(v) => v,
            None => return None,
        };
        let wide_size = size as u64;
        let end = match address.checked_add(wide_size) {
            Some(v) => v,
            None => return None,
        };
        if end > section_end {
            return None;
        }
        let section_offset = address - section.address;
        assert(virtual_range_fits(*section, address, size as int));
        match self.bytes_for_file_range(file_offset + section_offset, wide_size) {
            Some(data) => Some((section, data)),
            None => None,
        }
    }

    /// Where in the file the bytes at `address` inside section `s` begin.
    pub open spec fn virtual_file_start(&self, s: Section, address: u64) -> int {
        self.slice.offset + s.file_offset.unwrap() + (address - s.address)
    }

    /// The bytes for `size` bytes at `address` in section `s` lie inside
    /// the file.
    pub open spec fn virtual_bytes_present(&self, s: Section, address: u64, size: int) -> bool {
        self.virtual_file_start(s, address) <= u64::MAX
            && self.virtual_file_start(s, address) + size <= self.data@.len()
    }

    /// The address range of a section, clamped at the top of the space.
    pub fn virtual_range_for_section(&self, section: &Section) -> (r: Range<u64>)
        ensures
            r.start == section.address,
            r.end == section_end(*section),
    {
        section.address..section.address.saturating_add(section.size)
    }
}

} // verus!
