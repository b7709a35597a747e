use std::path::PathBuf;

use damsel_core::model::{
    Architecture, BinaryFormat, DyldMetadata, Endianness, ObjcMetadata, Section, SliceDescriptor,
    SliceInfo, Symbol, SymbolKind,
};
use damsel_core::BinaryImage;

fn section(segment: &str, name: &str, address: u64, size: u64, file_offset: Option<u64>) -> Section {
    Section {
        segment_name: segment.to_string(),
        name: name.to_string(),
        address,
        size,
        file_offset,
        file_size: size,
        kind: "regular".to_string(),
        executable: segment == "__TEXT",
    }
}

fn image(slice_offset: u64) -> BinaryImage {
    BinaryImage::new(
        PathBuf::from("/tmp/image"),
        BinaryFormat::MachO,
        Architecture::Arm64,
        Endianness::Little,
        None,
        Some("macos".to_string()),
        SliceInfo {
            offset: slice_offset,
            size: 0x20,
            is_universal: slice_offset != 0,
            cpu_subtype: 0,
        },
        Vec::new(),
        vec![
            section("__TEXT", "__text", 0x1000, 0x10, Some(0)),
            section("__DATA", "__data", 0x1010, 0x10, Some(0x10)),
            section("__DATA", "__bss", 0x1020, 0x10, None),
            section("__TEXT", "__text", 0x9000, 0x10, Some(0)),
        ],
        vec![
            Symbol {
                name: "_main".to_string(),
                address: 0x1000,
                size: 4,
                kind: SymbolKind::Text,
                defined: true,
                global: true,
                weak: false,
                section: None,
            },
            Symbol {
                name: "_main".to_string(),
                address: 0x2000,
                size: 4,
                kind: SymbolKind::Data,
                defined: true,
                global: false,
                weak: false,
                section: None,
            },
        ],
        Vec::new(),
        Vec::new(),
        ObjcMetadata::default(),
        DyldMetadata::default(),
        (0u8..0x40).collect(),
    )
}

#[test]
fn lookups_return_the_first_match() {
    let image = image(0);
    assert_eq!(image.symbol_by_name("_main").map(|s| s.address), Some(0x1000));
    assert!(image.symbol_by_name("_none").is_none());
    assert_eq!(image.section_by_name("__text").map(|s| s.address), Some(0x1000));
    assert_eq!(image.section_by_name("__DATA:__data").map(|s| s.address), Some(0x1010));
    assert!(image.section_by_name("__nothing").is_none());
    assert_eq!(image.containing_section(0x1014).map(|s| s.name.as_str()), Some("__data"));
    assert!(image.containing_section(0x1030).is_none());
    let range = image.virtual_range_for_section(&image.sections[0]);
    assert_eq!((range.start, range.end), (0x1000, 0x1010));
}

#[test]
fn byte_ranges_respect_the_slice_and_the_file() {
    let image = image(0x10);
    assert_eq!(image.slice_bytes(), &(0x10u8..0x30).collect::<Vec<u8>>()[..]);
    assert_eq!(image.bytes_for_file_range(4, 2), Some(&[0x14u8, 0x15][..]));
    assert_eq!(image.bytes_for_file_range(0x30, 0x10), None);
    assert_eq!(image.bytes_for_file_range(u64::MAX, 1), None);
    assert_eq!(
        image.bytes_for_section(&image.sections[1]).map(|b| b.len()),
        Some(0x10)
    );
    assert_eq!(image.bytes_for_section(&image.sections[2]), None);
}

#[test]
fn virtual_ranges_map_through_the_holding_section() {
    let image = image(0);
    let (section, bytes) = image.bytes_for_virtual_range(0x1004, 4).expect("mapped");
    assert_eq!(section.name, "__text");
    assert_eq!(bytes, &[4u8, 5, 6, 7][..]);
    assert!(image.bytes_for_virtual_range(0x100c, 8).is_none());
    assert!(image.bytes_for_virtual_range(0x1024, 4).is_none());
    assert!(image.bytes_for_virtual_range(0x5000, 4).is_none());
}

#[test]
fn info_summarises_the_image() {
    let image = image(0x10);
    let rendered = damsel_core::info::info_json(&image, "/tmp/sample").render(false);
    let value: serde_json::Value = serde_json::from_str(&rendered).unwrap();
    assert_eq!(value["path"], "/tmp/sample");
    assert_eq!(value["format"], "MachO");
    assert_eq!(value["architecture"], "arm64");
    assert_eq!(value["slice"]["offset"], 0x10);
    assert_eq!(value["counts"]["sections"], image.sections.len());
    assert_eq!(value["counts"]["symbols"], image.symbols.len());
    assert_eq!(value["objc"]["classes"], 0);
    assert_eq!(value["dyld"]["stubs"], 0);
    assert_eq!(value["available_slices"].as_array().unwrap().len(), 1);
    let keys: Vec<_> = value.as_object().unwrap().keys().cloned().collect();
    assert_eq!(keys.len(), 11);
    assert!(rendered.contains(r#""slice":{"offset":16,"size":32,"is_universal":true,"cpu_subtype":0},"available_slices":[{"offset":16,"size":32,"is_universal":true,"cpu_subtype":0,"architecture":"arm64","selected":true}],"counts":"#));

    let image = self::image(0x10).with_available_slices(vec![
        SliceDescriptor {
            offset: 0x10,
            size: 0x20,
            is_universal: true,
            cpu_subtype: 0,
            architecture: Architecture::Arm64,
            selected: true,
        },
        SliceDescriptor {
            offset: 0x40,
            size: 0x20,
            is_universal: true,
            cpu_subtype: 2,
            architecture: Architecture::Arm64e,
            selected: false,
        },
    ]);
    let rendered = damsel_core::info::info_json(&image, "/tmp/sample").render(false);
    assert!(rendered.contains(r#""available_slices":[{"offset":16,"size":32,"is_universal":true,"cpu_subtype":0,"architecture":"arm64","selected":true},{"offset":64,"size":32,"is_universal":true,"cpu_subtype":2,"architecture":"arm64e","selected":false}]"#));
    let lines = damsel_core::info::info_text_lines(&image, "/tmp/sample");
    assert_eq!(lines[6], "available_slices: 2");
}

#[test]
fn info_lines_summarise_the_image() {
    let image = image(0x10);
    let lines = damsel_core::info::info_text_lines(&image, "/tmp/sample");
    assert_eq!(lines[0], "path: /tmp/sample");
    assert_eq!(lines[1], "format: MachO");
    assert_eq!(lines[2], "architecture: arm64");
    assert_eq!(lines[3], "endianness: Little");
    assert_eq!(lines[4], "platform: macos");
    assert_eq!(lines[5], "slice: offset=0x10 size=0x20 universal=true subtype=0x0");
    assert_eq!(lines[6], "available_slices: 1");
    assert_eq!(lines[7], "counts: segments=0 sections=4 symbols=2 imports=0 relocations=0");
    assert_eq!(
        lines[9],
        "dyld: dylibs=0 rpaths=0 exports=0 function_starts=0 bindings=0 stubs=0 helpers=0 rebases=false binds=false chained_fixups=false"
    );
    assert_eq!(lines.len(), 10);
}

#[test]
fn exposes_slice_descriptors_and_selection() {
    let image = BinaryImage::new(
        PathBuf::from("typed-contract"),
        BinaryFormat::MachO,
        Architecture::Arm64,
        Endianness::Little,
        None,
        None,
        SliceInfo { offset: 0, size: 64, is_universal: true, cpu_subtype: 2 },
        Vec::new(),
        vec![section("__TEXT", "__text", 0x1000, 32, Some(0))],
        Vec::new(),
        Vec::new(),
        Vec::new(),
        ObjcMetadata::default(),
        DyldMetadata::default(),
        vec![0u8; 64],
    );
    assert_eq!(image.available_slices.len(), 1);
    let selected = image.selected_slice_descriptor().expect("selected slice");
    assert!(selected.selected);
    assert!(selected.contains_file_offset(10));
    assert!(!selected.contains_file_offset(128));

    let replacement = SliceDescriptor {
        offset: 0,
        size: 64,
        is_universal: true,
        cpu_subtype: 2,
        architecture: Architecture::Arm64e,
        selected: true,
    };
    let image = image.with_available_slices(vec![replacement.clone()]);
    assert_eq!(image.available_slices, vec![replacement]);
}

#[test]
fn slices_listing_marks_the_selected_slice() {
    let image = image(0x10).with_available_slices(vec![
        SliceDescriptor {
            offset: 0x4000,
            size: 0x8000,
            is_universal: true,
            cpu_subtype: 0,
            architecture: Architecture::Arm64,
            selected: true,
        },
        SliceDescriptor {
            offset: 0xc000,
            size: 0x8000,
            is_universal: true,
            cpu_subtype: 2,
            architecture: Architecture::Arm64e,
            selected: false,
        },
    ]);
    assert_eq!(
        damsel_core::info::slices_text_lines(&image),
        vec![
            "* offset=0x4000 size=0x8000 universal=true subtype=0x0 arch=arm64".to_string(),
            "- offset=0xc000 size=0x8000 universal=true subtype=0x2 arch=arm64e".to_string(),
        ]
    );
    let value: serde_json::Value =
        serde_json::from_str(&damsel_core::info::available_slices_json(&image).render(false)).unwrap();
    assert_eq!(value[0]["selected"], true);
    assert_eq!(value[1]["architecture"], "arm64e");
    assert_eq!(value.as_array().unwrap().len(), 2);
}
