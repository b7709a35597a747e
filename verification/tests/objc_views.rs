use damsel_core::objc::{
    filter_objc_view, objc_category_matches, objc_category_record_json, objc_json,
    objc_method_record_json, ObjcCategoryRecord, ObjcCategoryRecordSource,
    ObjcCategorySourceFilter, ObjcClassRecord, ObjcDetail, ObjcIvarRecord, ObjcMethodOwnerKind, ObjcMethodRecord, ObjcNameSource,
    ObjcPointerKind, ObjcPointerRef, ObjcPropertyRecord, ObjcProtocolRecord, ObjcSelectorSource,
    ObjcViewOptions,
};
use damsel_core::ObjcMetadata;

#[test]
fn objc_property_and_ivar_provenance_is_constructible() {
    let property = ObjcPropertyRecord {
        owner_pointer: 0x6000,
        name: Some("greeting".to_string()),
        name_source: ObjcNameSource::Runtime,
        attributes: Some("T@\"NSString\",&,N".to_string()),
    };
    let ivar = ObjcIvarRecord {
        owner_pointer: 0x6000,
        name: Some("_greeting".to_string()),
        name_source: ObjcNameSource::PointerTable,
        type_encoding: Some("@\"NSString\"".to_string()),
        offset: Some(0x18),
    };

    assert_eq!(property.name_source, ObjcNameSource::Runtime);
    assert_eq!(ivar.name_source, ObjcNameSource::PointerTable);
}

fn method(owner: u64, kind: ObjcMethodOwnerKind, selector: &str, source: ObjcSelectorSource) -> ObjcMethodRecord {
    ObjcMethodRecord {
        owner_pointer: owner,
        owner_kind: kind,
        is_class_method: false,
        selector: Some(selector.to_string()),
        selector_source: source,
        implementation: Some(0x2000),
        type_encoding: None,
    }
}

fn sample() -> ObjcMetadata {
    let greeter = ObjcClassRecord {
        class_pointer: 0x6000,
        name: Some("Greeter".to_string()),
        name_source: ObjcNameSource::Runtime,
        superclass_pointer: None,
        superclass_name: Some("NSObject".to_string()),
        ro_pointer: None,
        metaclass_pointer: None,
        method_list_pointer: None,
        property_list_pointer: None,
        protocol_list_pointer: None,
        ivar_list_pointer: None,
        adopted_protocols: vec!["GreetingProviding".to_string()],
        methods: vec![
            method(0x6000, ObjcMethodOwnerKind::Class, "greet", ObjcSelectorSource::Relative),
            method(0x6000, ObjcMethodOwnerKind::Class, "wave", ObjcSelectorSource::Direct),
        ],
        class_methods: vec![method(0x6100, ObjcMethodOwnerKind::Metaclass, "shared", ObjcSelectorSource::Relative)],
        properties: vec![ObjcPropertyRecord {
            owner_pointer: 0x6000,
            name: Some("greeting".to_string()),
            name_source: ObjcNameSource::Runtime,
            attributes: None,
        }],
        ivars: vec![ObjcIvarRecord {
            owner_pointer: 0x6000,
            name: Some("_greeting".to_string()),
            name_source: ObjcNameSource::PointerTable,
            type_encoding: None,
            offset: Some(8),
        }],
    };
    let other = ObjcClassRecord {
        class_pointer: 0x7000,
        name: Some("Other".to_string()),
        superclass_name: None,
        methods: vec![],
        class_methods: vec![],
        properties: vec![],
        ivars: vec![],
        adopted_protocols: vec![],
        ..greeter.clone()
    };
    ObjcMetadata {
        class_names: vec!["Greeter".to_string(), "Other".to_string()],
        protocols: vec![ObjcProtocolRecord {
            pointer: 0x4000,
            name: Some("GreetingProviding".to_string()),
            name_source: ObjcNameSource::Runtime,
            required_instance_methods: vec![method(0x4000, ObjcMethodOwnerKind::Protocol, "greeting", ObjcSelectorSource::Relative)],
            required_class_methods: vec![],
            optional_instance_methods: vec![],
            optional_class_methods: vec![],
            properties: vec![],
        }],
        categories: vec![ObjcCategoryRecord {
            pointer: 0x5000,
            name: None,
            name_source: ObjcNameSource::Unresolved,
            class_pointer: Some(0x6000),
            class_name: Some("Greeter".to_string()),
            class_name_source: ObjcNameSource::PointerTable,
            property_list_pointer: None,
            protocol_list_pointer: None,
            properties_source: ObjcCategoryRecordSource::RuntimeList,
            protocols_source: ObjcCategoryRecordSource::RuntimeList,
            record_source: ObjcCategoryRecordSource::RuntimeList,
            methods: vec![method(0x5000, ObjcMethodOwnerKind::Category, "shout", ObjcSelectorSource::Direct)],
            class_methods: vec![],
            properties: vec![],
            adopted_protocols: vec![],
        }],
        pointer_refs: vec![
            ObjcPointerRef {
                kind: ObjcPointerKind::ClassRef,
                table_address: 0x8000,
                raw_pointer: 0x6000,
                resolved_address: Some(0x6000),
                resolved_name: Some("Greeter".to_string()),
            },
            ObjcPointerRef {
                kind: ObjcPointerKind::ClassRef,
                table_address: 0x8008,
                raw_pointer: 0x7000,
                resolved_address: Some(0x7000),
                resolved_name: Some("Other".to_string()),
            },
        ],
        classes: vec![greeter, other],
        ..ObjcMetadata::default()
    }
}

fn options(detail: ObjcDetail, owner: Option<&str>) -> ObjcViewOptions {
    ObjcViewOptions {
        detail,
        owner_filter: owner.map(str::to_string),
        name_source_filter: None,
        selector_source_filter: None,
        category_source_filter: None,
    }
}

#[test]
fn owner_filter_keeps_matching_records_and_their_members() {
    let objc = sample();
    let view = filter_objc_view(&objc, &options(ObjcDetail::All, Some("greet")));
    let classes: Vec<_> = view.classes.iter().map(|c| c.name.clone().unwrap()).collect();
    assert_eq!(classes, vec!["Greeter"]);
    assert_eq!(view.protocols.len(), 1);
    assert_eq!(view.categories.len(), 1);
    let selectors: Vec<_> = view
        .methods
        .iter()
        .map(|m| (m.owner_name.clone(), m.record.selector.clone().unwrap()))
        .collect();
    assert_eq!(
        selectors,
        vec![
            (Some("Greeter".to_string()), "greet".to_string()),
            (Some("Greeter".to_string()), "wave".to_string()),
            (Some("Greeter".to_string()), "shared".to_string()),
            (Some("GreetingProviding".to_string()), "greeting".to_string()),
            (Some("Greeter".to_string()), "shout".to_string()),
        ]
    );
    let refs: Vec<_> = view.pointer_refs.iter().map(|p| p.table_address).collect();
    assert_eq!(refs, vec![0x8000]);
    assert_eq!(view.ivars.len(), 1);
    assert_eq!(view.properties.len(), 1);

    let unfiltered = filter_objc_view(&objc, &options(ObjcDetail::All, None));
    assert_eq!(unfiltered.classes.len(), 2);
    assert_eq!(unfiltered.pointer_refs.len(), 2);
}

#[test]
fn source_filters_narrow_members() {
    let objc = sample();
    let mut opts = options(ObjcDetail::Methods, None);
    opts.selector_source_filter = Some(ObjcSelectorSource::Direct);
    let view = filter_objc_view(&objc, &opts);
    let selectors: Vec<_> = view.methods.iter().map(|m| m.record.selector.clone().unwrap()).collect();
    assert_eq!(selectors, vec!["wave", "shout"]);

    let mut opts = options(ObjcDetail::All, None);
    opts.name_source_filter = Some(ObjcNameSource::PointerTable);
    let view = filter_objc_view(&objc, &opts);
    assert!(view.classes.is_empty());
    assert_eq!(view.categories.len(), 1);
    assert!(view.ivars.is_empty());
}

#[test]
fn objc_json_shows_groups_by_detail() {
    let objc = sample();
    let rendered = objc_json(&objc, &options(ObjcDetail::Classes, Some("other"))).render(false);
    let value: serde_json::Value = serde_json::from_str(&rendered).unwrap();
    assert_eq!(value["requested_detail"], "classes");
    assert_eq!(value["owner_filter"], "other");
    assert_eq!(value["classes"].as_array().unwrap().len(), 1);
    assert_eq!(value["classes"][0]["name"], "Other");
    assert!(value["methods"].as_array().unwrap().is_empty());
    assert!(value["pointer_refs"].as_array().unwrap().is_empty());
    assert_eq!(value["class_names"][1], "Other");

    let all = objc_json(&objc, &options(ObjcDetail::All, None)).render(false);
    let value: serde_json::Value = serde_json::from_str(&all).unwrap();
    assert_eq!(value["methods"][0]["owner_name"], "Greeter");
    assert_eq!(value["methods"][0]["selector_source"], "Relative");
    assert_eq!(value["pointer_refs"][1]["kind"], "classref");
    assert_eq!(value["categories"][0]["class_name_source"], "PointerTable");

    let method = objc_method_record_json(&objc.classes[0].methods[0]).render(false);
    assert_eq!(
        method,
        r#"{"owner_pointer":24576,"owner_kind":"class","is_class_method":false,"selector":"greet","selector_source":"Relative","implementation":8192,"type_encoding":null}"#
    );
}

#[test]
fn objc_text_lists_groups_by_detail() {
    let objc = sample();
    let lines = damsel_core::objc::objc_text_lines(&objc, &options(ObjcDetail::Methods, Some("greet")));
    assert_eq!(
        lines[0],
        "summary: class_names=2 selectors=0 methods=0 pointer_refs=2 classes=2 protocols=1 categories=1"
    );
    assert_eq!(lines[1], "active_filters: owner=greet");
    assert_eq!(lines[2], "method_records (5/5):");
    assert_eq!(
        lines[3],
        "  owner=Greeter kind=class class_method=false selector=greet selector_source=Relative impl=0x2000 types=-"
    );
    assert_eq!(lines.len(), 8);

    let all = damsel_core::objc::objc_text_lines(&objc, &options(ObjcDetail::All, None));
    assert!(all.contains(&"class_records (2/2):".to_string()));
    assert!(all.contains(&"  0x6000 name=Greeter source=Runtime superclass=NSObject metaclass=- ro=- methods=2 class_methods=1 properties=1 ivars=1 protocols=1".to_string()));
    assert!(all.contains(&"  0x4000 GreetingProviding source=Runtime required_inst=1 required_class=0 optional_inst=0 optional_class=0 properties=0".to_string()));
    assert!(all.contains(&"  0x5000 name=- name_source=Unresolved record_source=RuntimeList class=Greeter class_source=PointerTable class_ptr=0x6000 prop_list=- proto_list=- props_source=RuntimeList protos_source=RuntimeList methods=1 class_methods=0 properties=0 protocols=0".to_string()));
    assert!(all.contains(&"ivar_records (1/1):".to_string()));
    assert!(all.contains(&"  owner=Greeter name=_greeting source=PointerTable type=- offset=0x8".to_string()));
    assert!(all.contains(&"  classref   table=0x8000 raw=0x6000 resolved_addr=0x6000 resolved_name=Greeter".to_string()));
    assert!(all.contains(&"classes:".to_string()));
}

fn synthesized(pointer: u64, class_name: &str, property_list: Option<u64>) -> ObjcCategoryRecord {
    ObjcCategoryRecord {
        pointer,
        name: Some("Extras".to_string()),
        name_source: ObjcNameSource::Runtime,
        class_pointer: None,
        class_name: Some(class_name.to_string()),
        class_name_source: ObjcNameSource::Runtime,
        property_list_pointer: property_list,
        protocol_list_pointer: None,
        properties_source: ObjcCategoryRecordSource::SymbolSynthesis,
        protocols_source: ObjcCategoryRecordSource::SymbolSynthesis,
        record_source: ObjcCategoryRecordSource::SymbolSynthesis,
        methods: vec![],
        class_methods: vec![],
        properties: vec![],
        adopted_protocols: vec![],
    }
}

#[test]
fn category_source_filter_keeps_categories_found_that_way() {
    let mut objc = sample();
    objc.categories.push(synthesized(0x5100, "Bare", None));
    objc.categories.push(synthesized(0x5200, "Listed", Some(0x5300)));

    let mut opts = options(ObjcDetail::Categories, None);
    opts.category_source_filter = Some(ObjcCategorySourceFilter::RuntimeList);
    let kept: Vec<_> = filter_objc_view(&objc, &opts).categories.iter().map(|c| c.pointer).collect();
    assert_eq!(kept, vec![0x5000]);

    opts.category_source_filter = Some(ObjcCategorySourceFilter::SymbolSynthesis);
    let kept: Vec<_> = filter_objc_view(&objc, &opts).categories.iter().map(|c| c.pointer).collect();
    assert_eq!(kept, vec![0x5100, 0x5200]);

    opts.category_source_filter = Some(ObjcCategorySourceFilter::SymbolSynthesisWithLists);
    let kept: Vec<_> = filter_objc_view(&objc, &opts).categories.iter().map(|c| c.pointer).collect();
    assert_eq!(kept, vec![0x5200]);

    assert!(!objc.categories[1].has_list_backing());
    assert!(objc.categories[2].has_list_backing());
    assert!(!objc.categories[0].has_list_backing());
    assert!(objc_category_matches(&objc.categories[2], Some("list"), None, Some(ObjcCategorySourceFilter::SymbolSynthesisWithLists)));
    assert!(!objc_category_matches(&objc.categories[0], None, None, Some(ObjcCategorySourceFilter::SymbolSynthesis)));

    let lines = damsel_core::objc::objc_text_lines(&objc, &opts);
    assert_eq!(lines[1], "active_filters: category_source=SymbolSynthesisWithLists");
}

#[test]
fn objc_json_keys_are_stable_and_include_category_source_filter() {
    let objc = sample();
    let mut opts = options(ObjcDetail::Methods, None);
    let rendered = objc_json(&objc, &opts).render(false);
    let keys: Vec<String> = match serde_json::from_str::<serde_json::Value>(&rendered).unwrap() {
        serde_json::Value::Object(map) => map.keys().cloned().collect(),
        _ => panic!("not an object"),
    };
    let mut expected: Vec<String> = [
        "requested_detail",
        "owner_filter",
        "name_source_filter",
        "selector_source_filter",
        "category_source_filter",
        "image_info_flags",
        "class_names",
        "selector_names",
        "method_names",
        "pointer_refs",
        "classes",
        "protocols",
        "categories",
        "methods",
        "properties",
        "ivars",
    ]
    .iter()
    .map(|k| k.to_string())
    .collect();
    expected.sort();
    let mut sorted = keys.clone();
    sorted.sort();
    assert_eq!(sorted, expected);
    assert!(rendered.starts_with(
        r#"{"requested_detail":"methods","owner_filter":null,"name_source_filter":null,"selector_source_filter":null,"category_source_filter":null,"image_info_flags":"#
    ));

    opts.category_source_filter = Some(ObjcCategorySourceFilter::SymbolSynthesis);
    let value: serde_json::Value = serde_json::from_str(&objc_json(&objc, &opts).render(false)).unwrap();
    assert_eq!(value["category_source_filter"], "SymbolSynthesis");
}

#[test]
fn category_json_carries_list_pointers_and_record_source() {
    let record = synthesized(0x5200, "Listed", Some(0x5300));
    assert_eq!(
        objc_category_record_json(&record).render(false),
        r#"{"pointer":20992,"name":"Extras","class_pointer":null,"class_name":"Listed","name_source":"Runtime","class_name_source":"Runtime","property_list_pointer":21248,"protocol_list_pointer":null,"properties_source":"SymbolSynthesis","protocols_source":"SymbolSynthesis","record_source":"SymbolSynthesis","adopted_protocols":[],"methods":[],"class_methods":[],"properties":[]}"#
    );
}

#[test]
fn objc_category_provenance_is_constructible() {
    let category = ObjcCategoryRecord {
        pointer: 0x5000,
        name: Some("Excited".to_string()),
        name_source: ObjcNameSource::Runtime,
        class_pointer: Some(0x5100),
        class_name: Some("Greeter".to_string()),
        class_name_source: ObjcNameSource::PointerTable,
        property_list_pointer: None,
        protocol_list_pointer: None,
        properties_source: ObjcCategoryRecordSource::RuntimeList,
        protocols_source: ObjcCategoryRecordSource::RuntimeList,
        record_source: ObjcCategoryRecordSource::RuntimeList,
        methods: Vec::new(),
        class_methods: Vec::new(),
        properties: Vec::new(),
        adopted_protocols: Vec::new(),
    };

    assert_eq!(category.name_source, ObjcNameSource::Runtime);
    assert_eq!(category.class_name_source, ObjcNameSource::PointerTable);
}
