use damsel_core::compat::{
    capability_status_severity, CapabilityStatus, HostArchitecture, HostPlatform,
};
use damsel_core::doctor::{
    doctor_non_summary_reports, evaluate_doctor_check,
    evaluate_doctor_report, parse_doctor_test_scenario, unique_issues_from_reports,
    DoctorCheckOutcome, DoctorCheckRequest, DoctorCheckTarget, DoctorContext,
    DoctorRequireStatus, DoctorTools, HashToolStatus, ToolStatus,
};

fn missing_tool() -> ToolStatus {
    ToolStatus {
        detected: false,
        usable: false,
        path: None,
    }
}

fn usable_tool(path: &str) -> ToolStatus {
    ToolStatus {
        detected: true,
        usable: true,
        path: Some(path.to_string()),
    }
}

fn doctor_tools(selected_hash_tool: Option<&str>) -> DoctorTools {
    let sha256sum = if selected_hash_tool == Some("sha256sum") {
        usable_tool("/usr/bin/sha256sum")
    } else {
        missing_tool()
    };
    let shasum = if selected_hash_tool == Some("shasum") {
        usable_tool("/usr/bin/shasum")
    } else {
        missing_tool()
    };
    let openssl = if selected_hash_tool == Some("openssl") {
        usable_tool("/usr/bin/openssl")
    } else {
        missing_tool()
    };
    DoctorTools {
        xcrun: usable_tool("/usr/bin/xcrun"),
        clang: usable_tool("/usr/bin/clang"),
        strip: usable_tool("/usr/bin/strip"),
        python3: usable_tool("/usr/bin/python3"),
        nm: usable_tool("/usr/bin/nm"),
        sdk_path_probe: usable_tool("/Applications/Xcode.app/SDKs/MacOSX.sdk"),
        hash_tools: HashToolStatus {
            sha256sum,
            shasum,
            openssl,
        },
        selected_hash_tool: selected_hash_tool.map(ToString::to_string),
    }
}

fn context(platform: HostPlatform, architecture: HostArchitecture) -> DoctorContext {
    DoctorContext {
        host_platform: platform,
        host_architecture: architecture,
        target_triple: Some("test-target".to_string()),
        tools: doctor_tools(Some("sha256sum")),
    }
}

#[test]
fn evaluator_reports_full_support_on_linux_arm64() {
    let report = evaluate_doctor_report(&context(HostPlatform::Linux, HostArchitecture::Arm64));
    assert_eq!(report.macho_analysis.status, CapabilityStatus::Supported);
    assert_eq!(
        report.fixture_drift_check.status,
        CapabilityStatus::Supported
    );
    assert_eq!(report.bench_compile.status, CapabilityStatus::Supported);
    assert_eq!(report.bench_runtime.status, CapabilityStatus::Supported);
    assert_eq!(report.benchmark.status, CapabilityStatus::Supported);
}

#[test]
fn evaluator_reports_degraded_runtime_on_linux_x86_64() {
    let report = evaluate_doctor_report(&context(HostPlatform::Linux, HostArchitecture::X86_64));
    assert_eq!(report.bench_compile.status, CapabilityStatus::Supported);
    assert_eq!(
        report.bench_runtime.status,
        CapabilityStatus::SupportedWithDegradedFeatures
    );
    assert_eq!(
        report.benchmark.status,
        CapabilityStatus::SupportedWithDegradedFeatures
    );
    assert!(report
        .bench_runtime
        .reasons
        .iter()
        .any(|issue| issue.code == "throughput_smoke_linux_arm64_only"));
}

#[test]
fn evaluator_reports_graceful_degraded_host_on_windows() {
    let report = evaluate_doctor_report(&context(HostPlatform::Windows, HostArchitecture::X86_64));
    assert_eq!(
        report.macho_analysis.status,
        CapabilityStatus::SupportedWithDegradedFeatures
    );
    assert_eq!(
        report.bench_compile.status,
        CapabilityStatus::SupportedWithDegradedFeatures
    );
    assert_eq!(report.fixture_rebuild.status, CapabilityStatus::Unsupported);
    assert!(report
        .issues
        .iter()
        .any(|issue| issue.code == "host_not_ci_verified"));
}

#[test]
fn evaluator_reports_graceful_degraded_host_on_unknown_platform() {
    let report = evaluate_doctor_report(&context(
        HostPlatform::Unknown("solaris".to_string()),
        HostArchitecture::Unknown("sparc64".to_string()),
    ));
    assert_eq!(
        report.macho_analysis.status,
        CapabilityStatus::SupportedWithDegradedFeatures
    );
    assert_eq!(
        report.bench_compile.status,
        CapabilityStatus::SupportedWithDegradedFeatures
    );
    assert_eq!(
        report.bench_runtime.status,
        CapabilityStatus::SupportedWithDegradedFeatures
    );
    assert!(report
        .issues
        .iter()
        .any(|issue| issue.code == "host_not_ci_verified"));
}

#[test]
fn evaluator_requires_sdk_probe_for_fixture_rebuild() {
    let mut context = context(HostPlatform::MacOS, HostArchitecture::Arm64);
    context.tools.sdk_path_probe = missing_tool();
    let report = evaluate_doctor_report(&context);
    assert_eq!(report.fixture_rebuild.status, CapabilityStatus::Unsupported);
    assert!(report
        .fixture_rebuild
        .reasons
        .iter()
        .any(|issue| issue.code == "xcrun_sdk_path_probe_failed"));
}

#[test]
fn evaluator_uses_openssl_only_hash_fallback() {
    let mut context = context(HostPlatform::Linux, HostArchitecture::Arm64);
    context.tools = doctor_tools(Some("openssl"));
    let report = evaluate_doctor_report(&context);
    assert_eq!(
        report.fixture_drift_check.status,
        CapabilityStatus::Supported
    );
    assert_eq!(report.tools.selected_hash_tool.as_deref(), Some("openssl"));
    assert!(report.tools.hash_tools.openssl.usable);
    assert!(!report.tools.hash_tools.sha256sum.usable);
}

#[test]
fn doctor_check_targets_split_bench_capabilities() {
    let report = evaluate_doctor_report(&context(HostPlatform::Linux, HostArchitecture::X86_64));
    assert_eq!(
        evaluate_doctor_check(
            &report,
            DoctorCheckRequest {
                target: DoctorCheckTarget::BenchCompile,
                require_status: DoctorRequireStatus::Supported,
            }
        ),
        DoctorCheckOutcome::Passed
    );
    assert_eq!(
        evaluate_doctor_check(
            &report,
            DoctorCheckRequest {
                target: DoctorCheckTarget::BenchRuntime,
                require_status: DoctorRequireStatus::Supported,
            }
        ),
        DoctorCheckOutcome::Failed
    );
    assert_eq!(
        evaluate_doctor_check(
            &report,
            DoctorCheckRequest {
                target: DoctorCheckTarget::BenchRuntime,
                require_status: DoctorRequireStatus::SupportedWithDegradedFeatures,
            }
        ),
        DoctorCheckOutcome::Passed
    );
}

#[test]
fn parse_doctor_test_scenario_supports_known_values() {
    assert_eq!(
        parse_doctor_test_scenario("linux-arm64"),
        Some((HostPlatform::Linux, HostArchitecture::Arm64))
    );
    assert_eq!(
        parse_doctor_test_scenario("linux-x86_64"),
        Some((HostPlatform::Linux, HostArchitecture::X86_64))
    );
    assert_eq!(
        parse_doctor_test_scenario("macos-arm64"),
        Some((HostPlatform::MacOS, HostArchitecture::Arm64))
    );
    assert_eq!(
        parse_doctor_test_scenario("windows-x86_64"),
        Some((HostPlatform::Windows, HostArchitecture::X86_64))
    );
}

#[test]
fn parse_doctor_test_scenario_supports_unknown_tuple() {
    assert_eq!(
        parse_doctor_test_scenario("unknown:solaris:sparc64"),
        Some((
            HostPlatform::Unknown("solaris".to_string()),
            HostArchitecture::Unknown("sparc64".to_string()),
        ))
    );
}

#[test]
fn parse_doctor_test_scenario_rejects_invalid_values() {
    assert_eq!(parse_doctor_test_scenario("unknown"), None);
    assert_eq!(parse_doctor_test_scenario("unknown:solaris"), None);
    assert_eq!(parse_doctor_test_scenario("linux"), None);
}

#[test]
fn benchmark_summary_matches_split_max_severity() {
    for report in [
        evaluate_doctor_report(&context(HostPlatform::Linux, HostArchitecture::Arm64)),
        evaluate_doctor_report(&context(HostPlatform::Linux, HostArchitecture::X86_64)),
        evaluate_doctor_report(&context(HostPlatform::MacOS, HostArchitecture::Arm64)),
        evaluate_doctor_report(&context(HostPlatform::Windows, HostArchitecture::X86_64)),
    ] {
        let split_max = [report.bench_compile.status, report.bench_runtime.status]
            .iter()
            .max_by_key(|status| capability_status_severity(**status))
            .copied()
            .expect("split capability statuses");
        assert_eq!(report.benchmark.status, split_max);
    }
}

#[test]
fn overall_status_matches_non_summary_max_severity() {
    for report in [
        evaluate_doctor_report(&context(HostPlatform::Linux, HostArchitecture::Arm64)),
        evaluate_doctor_report(&context(HostPlatform::Linux, HostArchitecture::X86_64)),
        evaluate_doctor_report(&context(HostPlatform::MacOS, HostArchitecture::Arm64)),
        evaluate_doctor_report(&context(HostPlatform::Windows, HostArchitecture::X86_64)),
    ] {
        let expected = doctor_non_summary_reports(&report)
            .iter()
            .map(|capability| capability.status)
            .max_by_key(|status| capability_status_severity(*status))
            .expect("non-summary statuses");
        assert_eq!(report.overall_status, expected);
    }
}

#[test]
fn issues_are_deduped_union_of_non_summary_reasons() {
    let mut context = context(HostPlatform::MacOS, HostArchitecture::Arm64);
    context.tools.python3 = ToolStatus {
        detected: true,
        usable: false,
        path: Some("/usr/bin/python3".to_string()),
    };
    context.tools.nm = ToolStatus {
        detected: true,
        usable: false,
        path: Some("/usr/bin/nm".to_string()),
    };
    context.tools.sdk_path_probe = ToolStatus {
        detected: true,
        usable: false,
        path: None,
    };
    context.tools.selected_hash_tool = None;
    context.tools.hash_tools = HashToolStatus {
        sha256sum: missing_tool(),
        shasum: missing_tool(),
        openssl: missing_tool(),
    };
    let report = evaluate_doctor_report(&context);
    let expected = unique_issues_from_reports(&doctor_non_summary_reports(&report));
    assert_eq!(report.issues, expected);
}

#[test]
fn support_matrix_matches_the_documented_table() {
    let (s, d, u) = (
        CapabilityStatus::Supported,
        CapabilityStatus::SupportedWithDegradedFeatures,
        CapabilityStatus::Unsupported,
    );
    let rows = [
        (HostPlatform::MacOS, HostArchitecture::Arm64, [s, s, s, s, d]),
        (HostPlatform::MacOS, HostArchitecture::X86_64, [s, s, s, s, d]),
        (HostPlatform::Linux, HostArchitecture::X86_64, [s, u, s, s, d]),
        (HostPlatform::Linux, HostArchitecture::Arm64, [s, u, s, s, s]),
        (HostPlatform::Windows, HostArchitecture::X86_64, [d, u, s, d, d]),
        (
            HostPlatform::Unknown("haiku".to_string()),
            HostArchitecture::Unknown("riscv64".to_string()),
            [d, u, s, d, d],
        ),
    ];
    for (platform, architecture, expected) in rows {
        let report = evaluate_doctor_report(&context(platform.clone(), architecture.clone()));
        let actual = [
            report.macho_analysis.status,
            report.fixture_rebuild.status,
            report.fixture_drift_check.status,
            report.bench_compile.status,
            report.bench_runtime.status,
        ];
        assert_eq!(actual, expected, "{platform:?} {architecture:?}");
    }
}
