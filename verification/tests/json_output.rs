use damsel_core::cli::ErrorResponse;
use damsel_core::compat::{CapabilityStatus, CompatibilityIssue, HostArchitecture, HostPlatform};
use damsel_core::doctor::{
    evaluate_doctor_report, DoctorContext, DoctorTools, HashToolStatus, ToolStatus,
};
use damsel_core::json::{write_json_string, JsonValue};
use damsel_core::model::{Annotation, Reference};
use damsel_core::report::{
    annotation_json, capability_report_json, compatibility_issue_json, doctor_json,
    envelope_json, error_json, reference_json, reference_to_text, tool_status_json,
};

fn tool(usable: bool, path: Option<&str>) -> ToolStatus {
    ToolStatus {
        detected: usable,
        usable,
        path: path.map(str::to_string),
    }
}

#[test]
fn strings_are_escaped_for_json() {
    let mut out = String::new();
    write_json_string(&mut out, "a\"b\\c\nd\u{1}e\u{7f}f\u{8}\u{c}\té");
    assert_eq!(out, "\"a\\\"b\\\\c\\nd\\u0001e\\u007ff\\b\\f\\té\"");
    for text in ["plain", "tab\there", "\u{9f}", "quote\"s"] {
        let mut ours = String::new();
        write_json_string(&mut ours, text);
        let parsed: String = serde_json::from_str(&ours).expect("valid JSON string");
        assert_eq!(parsed, text);
    }
}

#[test]
fn values_render_compact_and_indented() {
    let value = JsonValue::Object(vec![
        ("a".to_string(), JsonValue::Number("1".to_string())),
        (
            "b".to_string(),
            JsonValue::Array(vec![JsonValue::Null, JsonValue::Bool(true)]),
        ),
        ("c".to_string(), JsonValue::Array(Vec::new())),
        ("d".to_string(), JsonValue::Object(Vec::new())),
    ]);
    assert_eq!(
        value.render(false),
        "{\"a\":1,\"b\":[null,true],\"c\":[],\"d\":{}}"
    );
    assert_eq!(
        value.render(true),
        "{\n  \"a\": 1,\n  \"b\": [\n    null,\n    true\n  ],\n  \"c\": [],\n  \"d\": {}\n}"
    );
}

#[test]
fn issue_tool_and_capability_documents() {
    let issue = CompatibilityIssue::new("missing-tool", "xcrun was not found");
    assert_eq!(
        compatibility_issue_json(&issue).render(false),
        "{\"code\":\"missing-tool\",\"message\":\"xcrun was not found\"}"
    );
    assert_eq!(
        tool_status_json(&tool(true, Some("/usr/bin/nm"))).render(false),
        "{\"detected\":true,\"usable\":true,\"path\":\"/usr/bin/nm\"}"
    );
    assert_eq!(
        tool_status_json(&tool(false, None)).render(false),
        "{\"detected\":false,\"usable\":false,\"path\":null}"
    );
    let report = damsel_core::doctor::CapabilityReport {
        status: CapabilityStatus::SupportedWithDegradedFeatures,
        reasons: vec![issue],
    };
    assert_eq!(
        capability_report_json(&report).render(false),
        "{\"status\":\"supported-with-degraded-features\",\"reasons\":[{\"code\":\"missing-tool\",\"message\":\"xcrun was not found\"}]}"
    );
}

#[test]
fn doctor_document_has_host_capabilities_tools_and_issues() {
    let usable = tool(true, Some("/usr/bin/x"));
    let context = DoctorContext {
        host_platform: HostPlatform::Linux,
        host_architecture: HostArchitecture::Arm64,
        target_triple: None,
        tools: DoctorTools {
            xcrun: usable.clone(),
            clang: usable.clone(),
            strip: usable.clone(),
            python3: usable.clone(),
            nm: usable.clone(),
            sdk_path_probe: usable.clone(),
            hash_tools: HashToolStatus {
                sha256sum: usable.clone(),
                shasum: tool(false, None),
                openssl: tool(false, None),
            },
            selected_hash_tool: Some("sha256sum".to_string()),
        },
    };
    let report = evaluate_doctor_report(&context);
    let text = envelope_json("doctor", doctor_json(&report)).render(false);
    let parsed: serde_json::Value = serde_json::from_str(&text).expect("valid JSON");
    assert_eq!(parsed["schema_version"], 1);
    assert_eq!(parsed["command"], "doctor");
    let data = &parsed["data"];
    assert_eq!(data["host"]["os"], "linux");
    assert_eq!(data["host"]["architecture"], "arm64");
    assert!(data["host"]["target_triple"].is_null());
    assert_eq!(data["overall_status"], report.overall_status.as_str());
    for key in [
        "macho_analysis",
        "fixture_rebuild",
        "fixture_drift_check",
        "bench_compile",
        "bench_runtime",
        "benchmark",
    ] {
        assert!(data["capabilities"][key]["status"].is_string(), "{key}");
    }
    assert_eq!(data["tools"]["hash_tools"]["sha256sum"]["usable"], true);
    assert_eq!(data["tools"]["selected_hash_tool"], "sha256sum");
    assert_eq!(
        data["issues"].as_array().map(|a| a.len()),
        Some(report.issues.len())
    );
    let keys: Vec<&String> = data.as_object().unwrap().keys().collect();
    assert_eq!(keys.len(), 5);
}

#[test]
fn error_documents_keep_details_or_null() {
    let error = ErrorResponse {
        code: "invalid_args",
        message: "bad".to_string(),
        details: None,
    };
    assert_eq!(
        envelope_json("error", error_json(&error)).render(false),
        "{\"schema_version\":1,\"command\":\"error\",\"data\":{\"code\":\"invalid_args\",\"message\":\"bad\",\"details\":null}}"
    );
}

#[test]
fn references_and_notes_as_json_and_text() {
    assert_eq!(
        reference_json(&Reference::Call { target: 0x10 }).render(false),
        "{\"type\":\"call\",\"target\":16}"
    );
    let import = Reference::Import {
        name: "_puts".to_string(),
        dylib: "libSystem".to_string(),
        address: Some(0x20),
    };
    assert_eq!(
        reference_json(&import).render(false),
        "{\"type\":\"import\",\"name\":\"_puts\",\"dylib\":\"libSystem\",\"address\":32}"
    );
    assert_eq!(reference_to_text(&import), "import libSystem:_puts (0x20)");
    assert_eq!(reference_to_text(&Reference::Page { target: 0x4000 }), "page 0x4000");
    assert_eq!(
        annotation_json(&Annotation::Note("range start".to_string())).render(false),
        "{\"type\":\"note\",\"value\":\"range start\"}"
    );
    assert_eq!(
        annotation_json(&Annotation::TargetSymbol {
            address: 1,
            name: "_f".to_string()
        })
        .render(false),
        "{\"type\":\"target_symbol\",\"address\":1,\"name\":\"_f\"}"
    );
}

#[test]
fn string_literals_read_back_as_written() {
    for text in ["plain", "quote \" and \\ slash", "line\nbreak\ttab", "bell\u{7}del\u{7f}c1\u{85}", "é ü 漢"] {
        let rendered = JsonValue::String(text.to_string()).render(false);
        let back: String = serde_json::from_str(&rendered).expect("valid JSON string");
        assert_eq!(back, text);
    }
}

#[test]
fn compact_and_indented_renderings_read_back_as_the_same_tree() {
    let value = JsonValue::Object(vec![
        ("name".to_string(), JsonValue::String("say \"hi\"\n\ttab".to_string())),
        ("count".to_string(), JsonValue::Number("-12.5e3".to_string())),
        (
            "items".to_string(),
            JsonValue::Array(vec![
                JsonValue::Null,
                JsonValue::Bool(true),
                JsonValue::Array(vec![]),
                JsonValue::Object(vec![]),
                JsonValue::Object(vec![("x y".to_string(), JsonValue::Bool(false))]),
            ]),
        ),
    ]);
    let compact = value.render(false);
    let indented = value.render(true);
    assert_ne!(compact, indented);
    assert!(value.depth_below(usize::MAX));
    assert!(!value.depth_below(3));
    assert!(value.depth_below(4));
    let a: serde_json::Value = serde_json::from_str(&compact).unwrap();
    let b: serde_json::Value = serde_json::from_str(&indented).unwrap();
    assert_eq!(a, b);
    assert_eq!(a["name"], "say \"hi\"\n\ttab");
    assert_eq!(a["items"][4]["x y"], false);
}
