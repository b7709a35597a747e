use damsel_core::{
    CapabilityStatus, CompatibilityCapability, CompatibilityCapabilityRole, CompatibilityHostClass,
    CompatibilityHostRule, CompatibilityIssue, CompatibilityPolicy, CompatibilityToolRequirement,
    HostArchitecture, HostPlatform,
};

#[test]
fn host_platform_parsing_and_display_is_stable() {
    assert_eq!(HostPlatform::parse("darwin"), HostPlatform::MacOS);
    assert_eq!(HostPlatform::parse("linux"), HostPlatform::Linux);
    assert_eq!(HostPlatform::parse("win32"), HostPlatform::Windows);
    assert_eq!(HostPlatform::MacOS.to_text(), "macos");
    assert_eq!(HostPlatform::Linux.to_text(), "linux");
    assert_eq!(HostPlatform::Windows.to_text(), "windows");

    let unknown = HostPlatform::parse("Plan9");
    assert_eq!(unknown, HostPlatform::Unknown("Plan9".to_string()));
    assert_eq!(unknown.raw_identifier(), Some("Plan9"));
}

#[test]
fn host_architecture_parsing_and_display_is_stable() {
    assert_eq!(HostArchitecture::parse("aarch64"), HostArchitecture::Arm64);
    assert_eq!(HostArchitecture::parse("arm64"), HostArchitecture::Arm64);
    assert_eq!(HostArchitecture::parse("amd64"), HostArchitecture::X86_64);
    assert_eq!(HostArchitecture::parse("x86_64"), HostArchitecture::X86_64);
    assert_eq!(HostArchitecture::Arm64.to_text(), "arm64");
    assert_eq!(HostArchitecture::X86_64.to_text(), "x86_64");

    let unknown = HostArchitecture::parse("mips64");
    assert_eq!(unknown, HostArchitecture::Unknown("mips64".to_string()));
    assert_eq!(unknown.raw_identifier(), Some("mips64"));
}

#[test]
fn capability_status_display_and_helpers_are_stable() {
    assert_eq!(CapabilityStatus::Supported.to_text(), "supported");
    assert_eq!(
        CapabilityStatus::SupportedWithDegradedFeatures.to_text(),
        "supported-with-degraded-features"
    );
    assert_eq!(CapabilityStatus::Unsupported.to_text(), "unsupported");

    assert!(CapabilityStatus::Supported.is_supported());
    assert!(CapabilityStatus::SupportedWithDegradedFeatures.is_supported());
    assert!(!CapabilityStatus::Unsupported.is_supported());
    assert!(!CapabilityStatus::Supported.is_degraded());
    assert!(CapabilityStatus::SupportedWithDegradedFeatures.is_degraded());
    assert!(!CapabilityStatus::Unsupported.is_degraded());
}

#[test]
fn compatibility_issue_constructor_and_display_are_stable() {
    let issue = CompatibilityIssue::new("missing-tool", "xcrun was not found");
    assert_eq!(issue.code, "missing-tool");
    assert_eq!(issue.message, "xcrun was not found");
    assert_eq!(issue.to_text(), "missing-tool: xcrun was not found");
}

#[test]
fn compatibility_capability_key_and_cli_name_are_stable() {
    assert_eq!(
        CompatibilityCapability::MachoAnalysis.key(),
        "macho_analysis"
    );
    assert_eq!(
        CompatibilityCapability::FixtureRebuild.key(),
        "fixture_rebuild"
    );
    assert_eq!(
        CompatibilityCapability::FixtureDriftCheck.key(),
        "fixture_drift_check"
    );
    assert_eq!(CompatibilityCapability::Benchmark.key(), "benchmark");
    assert_eq!(CompatibilityCapability::BenchCompile.key(), "bench_compile");
    assert_eq!(CompatibilityCapability::BenchRuntime.key(), "bench_runtime");

    assert_eq!(
        CompatibilityCapability::MachoAnalysis.cli_name(),
        "macho-analysis"
    );
    assert_eq!(
        CompatibilityCapability::FixtureRebuild.cli_name(),
        "fixture-rebuild"
    );
    assert_eq!(
        CompatibilityCapability::FixtureDriftCheck.cli_name(),
        "fixture-drift-check"
    );
    assert_eq!(CompatibilityCapability::Benchmark.cli_name(), "benchmark");
    assert_eq!(
        CompatibilityCapability::BenchCompile.cli_name(),
        "bench-compile"
    );
    assert_eq!(
        CompatibilityCapability::BenchRuntime.cli_name(),
        "bench-runtime"
    );
}

#[test]
fn compatibility_capability_parse_supports_json_and_cli_forms() {
    assert_eq!(
        CompatibilityCapability::parse("macho_analysis"),
        Some(CompatibilityCapability::MachoAnalysis)
    );
    assert_eq!(
        CompatibilityCapability::parse("macho-analysis"),
        Some(CompatibilityCapability::MachoAnalysis)
    );
    assert_eq!(
        CompatibilityCapability::parse("fixture_rebuild"),
        Some(CompatibilityCapability::FixtureRebuild)
    );
    assert_eq!(
        CompatibilityCapability::parse("fixture-drift-check"),
        Some(CompatibilityCapability::FixtureDriftCheck)
    );
    assert_eq!(
        CompatibilityCapability::parse("bench_compile"),
        Some(CompatibilityCapability::BenchCompile)
    );
    assert_eq!(
        CompatibilityCapability::parse("bench-runtime"),
        Some(CompatibilityCapability::BenchRuntime)
    );
    assert_eq!(CompatibilityCapability::parse("unknown"), None);
}

#[test]
fn compatibility_capability_all_is_deterministic() {
    assert_eq!(
        CompatibilityCapability::ALL,
        [
            CompatibilityCapability::MachoAnalysis,
            CompatibilityCapability::FixtureRebuild,
            CompatibilityCapability::FixtureDriftCheck,
            CompatibilityCapability::Benchmark,
            CompatibilityCapability::BenchCompile,
            CompatibilityCapability::BenchRuntime,
        ]
    );
}

#[test]
fn compatibility_capability_doctor_check_all_is_stable() {
    assert_eq!(
        CompatibilityCapability::DOCTOR_CHECK_ALL,
        [
            CompatibilityCapability::MachoAnalysis,
            CompatibilityCapability::FixtureRebuild,
            CompatibilityCapability::FixtureDriftCheck,
            CompatibilityCapability::BenchCompile,
            CompatibilityCapability::BenchRuntime,
        ]
    );
    assert!(
        !CompatibilityCapability::DOCTOR_CHECK_ALL.contains(&CompatibilityCapability::Benchmark)
    );
}

#[test]
fn compatibility_capability_doctor_check_portable_is_stable() {
    assert_eq!(
        CompatibilityCapability::DOCTOR_CHECK_PORTABLE,
        [
            CompatibilityCapability::MachoAnalysis,
            CompatibilityCapability::FixtureDriftCheck,
            CompatibilityCapability::BenchCompile,
        ]
    );
    assert!(
        !CompatibilityCapability::DOCTOR_CHECK_PORTABLE
            .contains(&CompatibilityCapability::FixtureRebuild)
    );
    assert!(
        !CompatibilityCapability::DOCTOR_CHECK_PORTABLE
            .contains(&CompatibilityCapability::BenchRuntime)
    );
    assert!(
        !CompatibilityCapability::DOCTOR_CHECK_PORTABLE
            .contains(&CompatibilityCapability::Benchmark)
    );
}

#[test]
fn compatibility_capability_roles_distinguish_primary_and_derived() {
    assert_eq!(
        CompatibilityCapability::Benchmark.role(),
        CompatibilityCapabilityRole::DerivedSummary
    );
    assert!(CompatibilityCapability::Benchmark.is_derived_summary());
    assert!(!CompatibilityCapability::Benchmark.is_primary_input());

    for capability in [
        CompatibilityCapability::MachoAnalysis,
        CompatibilityCapability::FixtureRebuild,
        CompatibilityCapability::FixtureDriftCheck,
        CompatibilityCapability::BenchCompile,
        CompatibilityCapability::BenchRuntime,
    ] {
        assert_eq!(capability.role(), CompatibilityCapabilityRole::PrimaryInput);
        assert!(capability.is_primary_input());
        assert!(!capability.is_derived_summary());
    }
}

#[test]
fn compatibility_policy_target_sets_are_stable() {
    assert_eq!(
        CompatibilityPolicy::DOCTOR_CHECK_ALL,
        CompatibilityCapability::DOCTOR_CHECK_ALL
    );
    assert_eq!(
        CompatibilityPolicy::DOCTOR_CHECK_PORTABLE,
        CompatibilityCapability::DOCTOR_CHECK_PORTABLE
    );
}

#[test]
fn compatibility_policy_primary_supported_hosts_are_stable() {
    assert_eq!(
        CompatibilityPolicy::PRIMARY_SUPPORTED_HOSTS,
        [
            (HostPlatform::MacOS, HostArchitecture::Arm64),
            (HostPlatform::Linux, HostArchitecture::X86_64),
            (HostPlatform::Linux, HostArchitecture::Arm64),
        ]
    );
    assert!(CompatibilityPolicy::is_primary_supported_host(
        &HostPlatform::MacOS,
        &HostArchitecture::X86_64
    ));
    assert!(CompatibilityPolicy::is_primary_supported_host(
        &HostPlatform::Linux,
        &HostArchitecture::X86_64
    ));
    assert!(CompatibilityPolicy::is_primary_supported_host(
        &HostPlatform::Linux,
        &HostArchitecture::Arm64
    ));
    assert!(!CompatibilityPolicy::is_primary_supported_host(
        &HostPlatform::Windows,
        &HostArchitecture::X86_64
    ));
}

#[test]
fn compatibility_policy_matches_capability_role_and_summary_contracts() {
    for capability in CompatibilityCapability::ALL {
        let policy = CompatibilityPolicy::capability(capability);
        assert_eq!(policy.capability, capability);
        assert_eq!(policy.role, capability.role());
        assert_eq!(policy.summary_inputs, capability.summary_inputs());
    }
}

#[test]
fn compatibility_policy_host_rules_are_stable() {
    assert_eq!(
        CompatibilityPolicy::capability(CompatibilityCapability::MachoAnalysis).host_rule,
        CompatibilityHostRule::PrimarySupportedHosts
    );
    assert_eq!(
        CompatibilityPolicy::capability(CompatibilityCapability::FixtureRebuild).host_rule,
        CompatibilityHostRule::MacOSOnly
    );
    assert_eq!(
        CompatibilityPolicy::capability(CompatibilityCapability::FixtureDriftCheck).host_rule,
        CompatibilityHostRule::AnyHost
    );
    assert_eq!(
        CompatibilityPolicy::capability(CompatibilityCapability::Benchmark).host_rule,
        CompatibilityHostRule::DerivedFromInputs
    );
    assert_eq!(
        CompatibilityPolicy::capability(CompatibilityCapability::BenchCompile).host_rule,
        CompatibilityHostRule::PrimarySupportedHosts
    );
    assert_eq!(
        CompatibilityPolicy::capability(CompatibilityCapability::BenchRuntime).host_rule,
        CompatibilityHostRule::LinuxArm64Only
    );
}

#[test]
fn compatibility_policy_tool_requirements_are_stable() {
    let rebuild = CompatibilityPolicy::capability(CompatibilityCapability::FixtureRebuild);
    assert_eq!(rebuild.required_tools_any, &[]);
    assert_eq!(
        rebuild.required_tools_all,
        &[
            CompatibilityToolRequirement::Xcrun,
            CompatibilityToolRequirement::XcrunSdkPathProbe,
            CompatibilityToolRequirement::Clang,
            CompatibilityToolRequirement::Strip,
            CompatibilityToolRequirement::Python3,
            CompatibilityToolRequirement::Nm,
            CompatibilityToolRequirement::Swiftc,
        ]
    );

    let drift = CompatibilityPolicy::capability(CompatibilityCapability::FixtureDriftCheck);
    assert_eq!(drift.required_tools_all, &[]);
    assert_eq!(
        drift.required_tools_any,
        &[
            CompatibilityToolRequirement::Sha256sum,
            CompatibilityToolRequirement::Shasum,
            CompatibilityToolRequirement::Openssl,
        ]
    );
}

#[test]
fn compatibility_policy_is_exhaustive_and_ordered() {
    let policies = CompatibilityPolicy::policies();
    assert_eq!(policies.len(), CompatibilityCapability::ALL.len());
    let listed: Vec<_> = policies.iter().map(|policy| policy.capability).collect();
    assert_eq!(listed.as_slice(), &CompatibilityCapability::ALL);
}

#[test]
fn compatibility_capability_benchmark_summary_inputs_are_stable() {
    assert_eq!(
        CompatibilityCapability::Benchmark.summary_inputs(),
        &[
            CompatibilityCapability::BenchCompile,
            CompatibilityCapability::BenchRuntime,
        ]
    );
    assert!(
        CompatibilityCapability::MachoAnalysis
            .summary_inputs()
            .is_empty()
    );
    assert!(
        CompatibilityCapability::FixtureRebuild
            .summary_inputs()
            .is_empty()
    );
    assert!(
        CompatibilityCapability::FixtureDriftCheck
            .summary_inputs()
            .is_empty()
    );
    assert!(
        CompatibilityCapability::BenchCompile
            .summary_inputs()
            .is_empty()
    );
    assert!(
        CompatibilityCapability::BenchRuntime
            .summary_inputs()
            .is_empty()
    );
}

#[test]
fn compatibility_policy_host_classification_is_stable() {
    assert_eq!(
        CompatibilityPolicy::host_class(&HostPlatform::MacOS, &HostArchitecture::Arm64),
        CompatibilityHostClass::PrimarySupported
    );
    assert_eq!(
        CompatibilityPolicy::host_class(&HostPlatform::MacOS, &HostArchitecture::X86_64),
        CompatibilityHostClass::PrimarySupported
    );
    assert_eq!(
        CompatibilityPolicy::host_class(&HostPlatform::Linux, &HostArchitecture::X86_64),
        CompatibilityHostClass::PrimarySupported
    );
    assert_eq!(
        CompatibilityPolicy::host_class(&HostPlatform::Linux, &HostArchitecture::Arm64),
        CompatibilityHostClass::PrimarySupported
    );
    assert_eq!(
        CompatibilityPolicy::host_class(&HostPlatform::Windows, &HostArchitecture::X86_64),
        CompatibilityHostClass::OutsidePrimaryMatrix
    );
    assert_eq!(
        CompatibilityPolicy::host_class(
            &HostPlatform::Unknown("solaris".to_string()),
            &HostArchitecture::Unknown("sparc64".to_string()),
        ),
        CompatibilityHostClass::OutsidePrimaryMatrix
    );
}

#[test]
fn compatibility_policy_expected_host_rule_statuses_are_stable() {
    assert_eq!(
        CompatibilityPolicy::expected_status_for_host_rule(
            CompatibilityHostRule::PrimarySupportedHosts,
            &HostPlatform::Linux,
            &HostArchitecture::Arm64,
        ),
        CapabilityStatus::Supported
    );
    assert_eq!(
        CompatibilityPolicy::expected_status_for_host_rule(
            CompatibilityHostRule::PrimarySupportedHosts,
            &HostPlatform::Windows,
            &HostArchitecture::X86_64,
        ),
        CapabilityStatus::SupportedWithDegradedFeatures
    );
    assert_eq!(
        CompatibilityPolicy::expected_status_for_host_rule(
            CompatibilityHostRule::MacOSOnly,
            &HostPlatform::Linux,
            &HostArchitecture::Arm64,
        ),
        CapabilityStatus::Unsupported
    );
    assert_eq!(
        CompatibilityPolicy::expected_status_for_host_rule(
            CompatibilityHostRule::MacOSOnly,
            &HostPlatform::MacOS,
            &HostArchitecture::X86_64,
        ),
        CapabilityStatus::Supported
    );
    assert_eq!(
        CompatibilityPolicy::expected_status_for_host_rule(
            CompatibilityHostRule::LinuxArm64Only,
            &HostPlatform::Linux,
            &HostArchitecture::X86_64,
        ),
        CapabilityStatus::SupportedWithDegradedFeatures
    );
    assert_eq!(
        CompatibilityPolicy::expected_status_for_host_rule(
            CompatibilityHostRule::LinuxArm64Only,
            &HostPlatform::Linux,
            &HostArchitecture::Arm64,
        ),
        CapabilityStatus::Supported
    );
    assert_eq!(
        CompatibilityPolicy::expected_status_for_host_rule(
            CompatibilityHostRule::AnyHost,
            &HostPlatform::Windows,
            &HostArchitecture::X86_64,
        ),
        CapabilityStatus::Supported
    );
    assert_eq!(
        CompatibilityPolicy::expected_status_for_host_rule(
            CompatibilityHostRule::DerivedFromInputs,
            &HostPlatform::Windows,
            &HostArchitecture::X86_64,
        ),
        CapabilityStatus::Supported
    );
}

