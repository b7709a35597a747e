//! The host-compatibility policy: which capabilities the tool offers on which
//! host platform and architecture, and which external tools they need.

use vstd::prelude::*;

use crate::text::{str_eq, string_of};

verus! {

/// The operating system of the host the tool runs on.
#[derive(Debug, Clone, PartialEq, Eq, Hash, PartialOrd, Ord)]
pub enum HostPlatform {
    MacOS,
    Linux,
    Windows,
    Unknown(String),
}

/// The CPU architecture of the host the tool runs on.
#[derive(Debug, Clone, PartialEq, Eq, Hash, PartialOrd, Ord)]
pub enum HostArchitecture {
    Arm64,
    X86_64,
    Unknown(String),
}

/// The platform that a runtime identifier names.
pub open spec fn platform_from_text(t: Seq<char>) -> HostPlatformView {
    if t == "macos"@ || t == "darwin"@ {
        HostPlatformView::MacOS
    } else if t == "linux"@ {
        HostPlatformView::Linux
    } else if t == "windows"@ || t == "win32"@ {
        HostPlatformView::Windows
    } else {
        HostPlatformView::Unknown(t)
    }
}

/// A host platform with its payload as characters.
pub enum HostPlatformView {
    MacOS,
    Linux,
    Windows,
    Unknown(Seq<char>),
}

/// A host architecture with its payload as characters.
pub enum HostArchitectureView {
    Arm64,
    X86_64,
    Unknown(Seq<char>),
}

/// The architecture that a runtime identifier names.
pub open spec fn architecture_from_text(t: Seq<char>) -> HostArchitectureView {
    if t == "aarch64"@ || t == "arm64"@ {
        HostArchitectureView::Arm64
    } else if t == "x86_64"@ || t == "amd64"@ {
        HostArchitectureView::X86_64
    } else {
        HostArchitectureView::Unknown(t)
    }
}

impl View for HostPlatform {
    type V = HostPlatformView;

    open spec fn view(&self) -> HostPlatformView {
        match self {
            HostPlatform::MacOS => HostPlatformView::MacOS,
            HostPlatform::Linux => HostPlatformView::Linux,
            HostPlatform::Windows => HostPlatformView::Windows,
            HostPlatform::Unknown(s) => HostPlatformView::Unknown(s@),
        }
    }
}

impl View for HostArchitecture {
    type V = HostArchitectureView;

    open spec fn view(&self) -> HostArchitectureView {
        match self {
            HostArchitecture::Arm64 => HostArchitectureView::Arm64,
            HostArchitecture::X86_64 => HostArchitectureView::X86_64,
            HostArchitecture::Unknown(s) => HostArchitectureView::Unknown(s@),
        }
    }
}

/// The canonical name of a platform.
pub open spec fn platform_text(p: HostPlatformView) -> Seq<char> {
    match p {
        HostPlatformView::MacOS => "macos"@,
        HostPlatformView::Linux => "linux"@,
        HostPlatformView::Windows => "windows"@,
        HostPlatformView::Unknown(s) => s,
    }
}

/// The canonical name of an architecture.
pub open spec fn architecture_text(a: HostArchitectureView) -> Seq<char> {
    match a {
        HostArchitectureView::Arm64 => "arm64"@,
        HostArchitectureView::X86_64 => "x86_64"@,
        HostArchitectureView::Unknown(s) => s,
    }
}

impl HostPlatform {
    /// Classifies a runtime operating-system identifier.
    pub fn parse(value: &str) -> (r: HostPlatform)
        ensures
            r@ == platform_from_text(value@),
    {
        if str_eq(value, "macos") || str_eq(value, "darwin") {
            HostPlatform::MacOS
        } else if str_eq(value, "linux") {
            HostPlatform::Linux
        } else if str_eq(value, "windows") || str_eq(value, "win32") {
            HostPlatform::Windows
        } else {
            HostPlatform::Unknown(string_of(value))
        }
    }

    /// The identifier an unrecognised platform was parsed from.
    pub fn raw_identifier(&self) -> (r: Option<&str>)
        ensures
            match self@ {
                HostPlatformView::Unknown(s) => r is Some && r->0@ == s,
                _ => r is None,
            },
    {
        match self {
            HostPlatform::Unknown(s) => Some(s.as_str()),
            _ => None,
        }
    }

    /// The platform's canonical name.
    pub fn to_text(&self) -> (r: String)
        ensures
            r@ == platform_text(self@),
    {
        match self {
            HostPlatform::MacOS => string_of("macos"),
            HostPlatform::Linux => string_of("linux"),
            HostPlatform::Windows => string_of("windows"),
            HostPlatform::Unknown(s) => s.clone(),
        }
    }

    /// An identical copy.
    pub fn duplicate(&self) -> (r: HostPlatform)
        ensures
            r == *self,
    {
        match self {
            HostPlatform::MacOS => HostPlatform::MacOS,
            HostPlatform::Linux => HostPlatform::Linux,
            HostPlatform::Windows => HostPlatform::Windows,
            HostPlatform::Unknown(s) => HostPlatform::Unknown(s.clone()),
        }
    }

    /// Whether this is macOS.
    pub fn is_macos(&self) -> (r: bool)
        ensures
            r == (self@ is MacOS),
    {
        match self {
            HostPlatform::MacOS => true,
            _ => false,
        }
    }

    /// Whether this is Linux.
    pub fn is_linux(&self) -> (r: bool)
        ensures
            r == (self@ is Linux),
    {
        match self {
            HostPlatform::Linux => true,
            _ => false,
        }
    }
}

impl HostArchitecture {
    /// Classifies a runtime architecture identifier.
    pub fn parse(value: &str) -> (r: HostArchitecture)
        ensures
            r@ == architecture_from_text(value@),
    {
        if str_eq(value, "aarch64") || str_eq(value, "arm64") {
            HostArchitecture::Arm64
        } else if str_eq(value, "x86_64") || str_eq(value, "amd64") {
            HostArchitecture::X86_64
        } else {
            HostArchitecture::Unknown(string_of(value))
        }
    }

    /// The identifier an unrecognised architecture was parsed from.
    pub fn raw_identifier(&self) -> (r: Option<&str>)
        ensures
            match self@ {
                HostArchitectureView::Unknown(s) => r is Some && r->0@ == s,
                _ => r is None,
            },
    {
        match self {
            HostArchitecture::Unknown(s) => Some(s.as_str()),
            _ => None,
        }
    }

    /// An identical copy.
    pub fn duplicate(&self) -> (r: HostArchitecture)
        ensures
            r == *self,
    {
        match self {
            HostArchitecture::Arm64 => HostArchitecture::Arm64,
            HostArchitecture::X86_64 => HostArchitecture::X86_64,
            HostArchitecture::Unknown(s) => HostArchitecture::Unknown(s.clone()),
        }
    }

    /// The architecture's canonical name.
    pub fn to_text(&self) -> (r: String)
        ensures
            r@ == architecture_text(self@),
    {
        match self {
            HostArchitecture::Arm64 => string_of("arm64"),
            HostArchitecture::X86_64 => string_of("x86_64"),
            HostArchitecture::Unknown(s) => s.clone(),
        }
    }
}

/// Parsing the canonical name of a recognised platform gives that platform
/// back, and parsing an unrecognised identifier keeps the identifier.
pub proof fn lemma_platform_text_roundtrip(p: HostPlatformView)
    requires
        p is Unknown ==> platform_from_text(p->Unknown_0) == p,
    ensures
        platform_from_text(platform_text(p)) == p,
{
    broadcast use vstd::string::group_string_axioms;

    reveal_strlit("macos");
    reveal_strlit("darwin");
    reveal_strlit("linux");
    reveal_strlit("windows");
    reveal_strlit("win32");
    assert("macos"@.len() == 5 && "darwin"@.len() == 6 && "linux"@.len() == 5);
    assert("windows"@.len() == 7 && "win32"@.len() == 5);
    assert("linux"@[0] == 'l' && "macos"@[0] == 'm' && "win32"@[0] == 'w');
}

/// Parsing the canonical name of a recognised architecture gives that
/// architecture back.
pub proof fn lemma_architecture_text_roundtrip(a: HostArchitectureView)
    requires
        a is Unknown ==> architecture_from_text(a->Unknown_0) == a,
    ensures
        architecture_from_text(architecture_text(a)) == a,
{
    broadcast use vstd::string::group_string_axioms;

    reveal_strlit("aarch64");
    reveal_strlit("arm64");
    reveal_strlit("x86_64");
    reveal_strlit("amd64");
    assert("aarch64"@.len() == 7 && "arm64"@.len() == 5);
    assert("x86_64"@.len() == 6 && "amd64"@.len() == 5);
}

/// How well a capability is supported on a host.
#[derive(Debug, Clone, Copy, PartialEq, Eq, Structural, Hash, PartialOrd, Ord)]
pub enum CapabilityStatus {
    Supported,
    SupportedWithDegradedFeatures,
    Unsupported,
}

/// The rank of a status: higher is worse.
pub open spec fn severity(s: CapabilityStatus) -> nat {
    match s {
        CapabilityStatus::Supported => 0,
        CapabilityStatus::SupportedWithDegradedFeatures => 1,
        CapabilityStatus::Unsupported => 2,
    }
}

/// The canonical name of a status.
pub open spec fn status_text(s: CapabilityStatus) -> Seq<char> {
    match s {
        CapabilityStatus::Supported => "supported"@,
        CapabilityStatus::SupportedWithDegradedFeatures => "supported-with-degraded-features"@,
        CapabilityStatus::Unsupported => "unsupported"@,
    }
}

impl CapabilityStatus {
    /// The status's canonical name.
    pub fn as_str(self) -> (r: &'static str)
        ensures
            r@ == status_text(self),
    {
        match self {
            CapabilityStatus::Supported => "supported",
            CapabilityStatus::SupportedWithDegradedFeatures => "supported-with-degraded-features",
            CapabilityStatus::Unsupported => "unsupported",
        }
    }

    /// The status's canonical name, as an owned string.
    pub fn to_text(self) -> (r: String)
        ensures
            r@ == status_text(self),
    {
        string_of(self.as_str())
    }

    /// Whether the capability can be used at all.
    pub fn is_supported(self) -> (r: bool)
        ensures
            r == (self != CapabilityStatus::Unsupported),
    {
        match self {
            CapabilityStatus::Unsupported => false,
            _ => true,
        }
    }

    /// Whether the capability works with reduced features.
    pub fn is_degraded(self) -> (r: bool)
        ensures
            r == (self == CapabilityStatus::SupportedWithDegradedFeatures),
    {
        match self {
            CapabilityStatus::SupportedWithDegradedFeatures => true,
            _ => false,
        }
    }
}

/// The rank of a status: higher is worse.
pub fn capability_status_severity(status: CapabilityStatus) -> (r: u8)
    ensures
        r as nat == severity(status),
{
    match status {
        CapabilityStatus::Supported => 0,
        CapabilityStatus::SupportedWithDegradedFeatures => 1,
        CapabilityStatus::Unsupported => 2,
    }
}

/// Severity determines the status.
pub proof fn lemma_severity_injective(a: CapabilityStatus, b: CapabilityStatus)
    ensures
        severity(a) == severity(b) <==> a == b,
{
}

/// A reason why a capability is degraded or unavailable.
#[derive(Debug, Clone, PartialEq, Eq, Hash)]
pub struct CompatibilityIssue {
    pub code: &'static str,
    pub message: String,
}

/// An issue as characters: its code and its message.
pub open spec fn issue_view(issue: CompatibilityIssue) -> (Seq<char>, Seq<char>) {
    (issue.code@, issue.message@)
}

impl CompatibilityIssue {
    /// An issue with the given code and message.
    pub fn new(code: &'static str, message: &str) -> (r: CompatibilityIssue)
        ensures
            r.code == code,
            r.message@ == message@,
    {
        CompatibilityIssue { code, message: string_of(message) }
    }

    /// `code: message`.
    pub fn to_text(&self) -> (r: String)
        ensures
            r@ == self.code@ + ": "@ + self.message@,
    {
        let mut out = string_of(self.code);
        out.append(": ");
        out.append(self.message.as_str());
        out
    }
}

/// Whether a capability is evaluated on its own or summarises others.
#[derive(Debug, Clone, Copy, PartialEq, Eq, Structural, Hash)]
pub enum CompatibilityCapabilityRole {
    PrimaryInput,
    DerivedSummary,
}

/// Which hosts a capability is expected to work on.
#[derive(Debug, Clone, Copy, PartialEq, Eq, Structural, Hash)]
pub enum CompatibilityHostRule {
    PrimarySupportedHosts,
    MacOSOnly,
    AnyHost,
    DerivedFromInputs,
    LinuxArm64Only,
}

/// Whether a host lies inside the primary support matrix.
#[derive(Debug, Clone, Copy, PartialEq, Eq, Structural, Hash)]
pub enum CompatibilityHostClass {
    PrimarySupported,
    OutsidePrimaryMatrix,
}

/// An external tool (or probe) that a capability relies on.
#[derive(Debug, Clone, Copy, PartialEq, Eq, Structural, Hash, PartialOrd, Ord)]
pub enum CompatibilityToolRequirement {
    Xcrun,
    XcrunSdkPathProbe,
    Clang,
    Strip,
    Python3,
    Nm,
    Swiftc,
    Sha256sum,
    Shasum,
    Openssl,
}

/// A capability whose support on the host is reported.
#[derive(Debug, Clone, Copy, PartialEq, Eq, Structural, Hash, PartialOrd, Ord)]
pub enum CompatibilityCapability {
    MachoAnalysis,
    FixtureRebuild,
    FixtureDriftCheck,
    Benchmark,
    BenchCompile,
    BenchRuntime,
}

/// Every capability, in reporting order.
pub open spec fn all_capabilities() -> Seq<CompatibilityCapability> {
    seq![
        CompatibilityCapability::MachoAnalysis,
        CompatibilityCapability::FixtureRebuild,
        CompatibilityCapability::FixtureDriftCheck,
        CompatibilityCapability::Benchmark,
        CompatibilityCapability::BenchCompile,
        CompatibilityCapability::BenchRuntime,
    ]
}

/// The capabilities a doctor check covers: every primary input.
pub open spec fn doctor_check_all() -> Seq<CompatibilityCapability> {
    seq![
        CompatibilityCapability::MachoAnalysis,
        CompatibilityCapability::FixtureRebuild,
        CompatibilityCapability::FixtureDriftCheck,
        CompatibilityCapability::BenchCompile,
        CompatibilityCapability::BenchRuntime,
    ]
}

/// The JSON key of a capability.
pub open spec fn capability_key(c: CompatibilityCapability) -> Seq<char> {
    match c {
        CompatibilityCapability::MachoAnalysis => "macho_analysis"@,
        CompatibilityCapability::FixtureRebuild => "fixture_rebuild"@,
        CompatibilityCapability::FixtureDriftCheck => "fixture_drift_check"@,
        CompatibilityCapability::Benchmark => "benchmark"@,
        CompatibilityCapability::BenchCompile => "bench_compile"@,
        CompatibilityCapability::BenchRuntime => "bench_runtime"@,
    }
}

/// The command-line name of a capability.
pub open spec fn capability_cli_name(c: CompatibilityCapability) -> Seq<char> {
    match c {
        CompatibilityCapability::MachoAnalysis => "macho-analysis"@,
        CompatibilityCapability::FixtureRebuild => "fixture-rebuild"@,
        CompatibilityCapability::FixtureDriftCheck => "fixture-drift-check"@,
        CompatibilityCapability::Benchmark => "benchmark"@,
        CompatibilityCapability::BenchCompile => "bench-compile"@,
        CompatibilityCapability::BenchRuntime => "bench-runtime"@,
    }
}

/// The capability a JSON key or command-line name denotes.
pub open spec fn capability_from_text(t: Seq<char>) -> Option<CompatibilityCapability> {
    if t == "macho_analysis"@ || t == "macho-analysis"@ {
        Some(CompatibilityCapability::MachoAnalysis)
    } else if t == "fixture_rebuild"@ || t == "fixture-rebuild"@ {
        Some(CompatibilityCapability::FixtureRebuild)
    } else if t == "fixture_drift_check"@ || t == "fixture-drift-check"@ {
        Some(CompatibilityCapability::FixtureDriftCheck)
    } else if t == "benchmark"@ {
        Some(CompatibilityCapability::Benchmark)
    } else if t == "bench_compile"@ || t == "bench-compile"@ {
        Some(CompatibilityCapability::BenchCompile)
    } else if t == "bench_runtime"@ || t == "bench-runtime"@ {
        Some(CompatibilityCapability::BenchRuntime)
    } else {
        None
    }
}

/// The role of a capability: only the benchmark summarises others.
pub open spec fn capability_role(c: CompatibilityCapability) -> CompatibilityCapabilityRole {
    if c == CompatibilityCapability::Benchmark {
        CompatibilityCapabilityRole::DerivedSummary
    } else {
        CompatibilityCapabilityRole::PrimaryInput
    }
}

/// The capabilities a summary capability is derived from.
pub open spec fn capability_summary_inputs(c: CompatibilityCapability) -> Seq<CompatibilityCapability> {
    if c == CompatibilityCapability::Benchmark {
        seq![CompatibilityCapability::BenchCompile, CompatibilityCapability::BenchRuntime]
    } else {
        Seq::empty()
    }
}

impl CompatibilityCapability {
    /// Every capability, in reporting order.
    pub const ALL: [CompatibilityCapability; 6] = [
        CompatibilityCapability::MachoAnalysis,
        CompatibilityCapability::FixtureRebuild,
        CompatibilityCapability::FixtureDriftCheck,
        CompatibilityCapability::Benchmark,
        CompatibilityCapability::BenchCompile,
        CompatibilityCapability::BenchRuntime,
    ];

    /// The primary inputs a doctor check covers.
    pub const DOCTOR_CHECK_ALL: [CompatibilityCapability; 5] = [
        CompatibilityCapability::MachoAnalysis,
        CompatibilityCapability::FixtureRebuild,
        CompatibilityCapability::FixtureDriftCheck,
        CompatibilityCapability::BenchCompile,
        CompatibilityCapability::BenchRuntime,
    ];

    /// The primary inputs a doctor check covers on any host.
    pub const DOCTOR_CHECK_PORTABLE: [CompatibilityCapability; 3] = [
        CompatibilityCapability::MachoAnalysis,
        CompatibilityCapability::FixtureDriftCheck,
        CompatibilityCapability::BenchCompile,
    ];

    /// The JSON key.
    pub fn key(self) -> (r: &'static str)
        ensures
            r@ == capability_key(self),
    {
        match self {
            CompatibilityCapability::MachoAnalysis => "macho_analysis",
            CompatibilityCapability::FixtureRebuild => "fixture_rebuild",
            CompatibilityCapability::FixtureDriftCheck => "fixture_drift_check",
            CompatibilityCapability::Benchmark => "benchmark",
            CompatibilityCapability::BenchCompile => "bench_compile",
            CompatibilityCapability::BenchRuntime => "bench_runtime",
        }
    }

    /// The command-line name.
    pub fn cli_name(self) -> (r: &'static str)
        ensures
            r@ == capability_cli_name(self),
    {
        match self {
            CompatibilityCapability::MachoAnalysis => "macho-analysis",
            CompatibilityCapability::FixtureRebuild => "fixture-rebuild",
            CompatibilityCapability::FixtureDriftCheck => "fixture-drift-check",
            CompatibilityCapability::Benchmark => "benchmark",
            CompatibilityCapability::BenchCompile => "bench-compile",
            CompatibilityCapability::BenchRuntime => "bench-runtime",
        }
    }

    /// The capability named by a JSON key or a command-line name.
    pub fn parse(value: &str) -> (r: Option<CompatibilityCapability>)
        ensures
            r == capability_from_text(value@),
    {
        if str_eq(value, "macho_analysis") || str_eq(value, "macho-analysis") {
            Some(CompatibilityCapability::MachoAnalysis)
        } else if str_eq(value, "fixture_rebuild") || str_eq(value, "fixture-rebuild") {
            Some(CompatibilityCapability::FixtureRebuild)
        } else if str_eq(value, "fixture_drift_check") || str_eq(value, "fixture-drift-check") {
            Some(CompatibilityCapability::FixtureDriftCheck)
        } else if str_eq(value, "benchmark") {
            Some(CompatibilityCapability::Benchmark)
        } else if str_eq(value, "bench_compile") || str_eq(value, "bench-compile") {
            Some(CompatibilityCapability::BenchCompile)
        } else if str_eq(value, "bench_runtime") || str_eq(value, "bench-runtime") {
            Some(CompatibilityCapability::BenchRuntime)
        } else {
            None
        }
    }

    /// Whether the capability is evaluated directly or summarises others.
    pub fn role(self) -> (r: CompatibilityCapabilityRole)
        ensures
            r == capability_role(self),
    {
        match self {
            CompatibilityCapability::Benchmark => CompatibilityCapabilityRole::DerivedSummary,
            _ => CompatibilityCapabilityRole::PrimaryInput,
        }
    }

    /// Whether the capability summarises others.
    pub fn is_derived_summary(self) -> (r: bool)
        ensures
            r == (capability_role(self) == CompatibilityCapabilityRole::DerivedSummary),
    {
        match self.role() {
            CompatibilityCapabilityRole::DerivedSummary => true,
            CompatibilityCapabilityRole::PrimaryInput => false,
        }
    }

    /// Whether the capability is evaluated directly.
    pub fn is_primary_input(self) -> (r: bool)
        ensures
            r == (capability_role(self) == CompatibilityCapabilityRole::PrimaryInput),
    {
        match self.role() {
            CompatibilityCapabilityRole::DerivedSummary => false,
            CompatibilityCapabilityRole::PrimaryInput => true,
        }
    }

    /// The capabilities this one is derived from (empty for primary inputs).
    pub fn summary_inputs(self) -> (r: &'static [CompatibilityCapability])
        ensures
            r@ == capability_summary_inputs(self),
    {
        match self {
            CompatibilityCapability::Benchmark => &[
                CompatibilityCapability::BenchCompile,
                CompatibilityCapability::BenchRuntime,
            ],
            _ => &[],
        }
    }
}

/// Parsing a capability's JSON key or its command-line name gives the
/// capability back.
pub proof fn lemma_capability_names_roundtrip(c: CompatibilityCapability)
    ensures
        capability_from_text(capability_key(c)) == Some(c),
        capability_from_text(capability_cli_name(c)) == Some(c),
{
    broadcast use vstd::string::group_string_axioms;

    reveal_strlit("macho_analysis");
    reveal_strlit("macho-analysis");
    reveal_strlit("fixture_rebuild");
    reveal_strlit("fixture-rebuild");
    reveal_strlit("fixture_drift_check");
    reveal_strlit("fixture-drift-check");
    reveal_strlit("benchmark");
    reveal_strlit("bench_compile");
    reveal_strlit("bench-compile");
    reveal_strlit("bench_runtime");
    reveal_strlit("bench-runtime");
    assert("macho_analysis"@.len() == 14 && "macho-analysis"@.len() == 14);
    assert("fixture_rebuild"@.len() == 15 && "fixture-rebuild"@.len() == 15);
    assert("fixture_drift_check"@.len() == 19 && "fixture-drift-check"@.len() == 19);
    assert("benchmark"@.len() == 9);
    assert("bench_compile"@.len() == 13 && "bench-compile"@.len() == 13);
    assert("bench_runtime"@.len() == 13 && "bench-runtime"@.len() == 13);
    assert("bench_compile"@[6] == 'c' && "bench-compile"@[6] == 'c');
    assert("bench_runtime"@[6] == 'r' && "bench-runtime"@[6] == 'r');
}

/// A capability is exactly one of primary input and derived summary, and
/// only a derived summary has inputs, all of them primary.
pub proof fn lemma_roles_partition(c: CompatibilityCapability)
    ensures
        (capability_role(c) == CompatibilityCapabilityRole::PrimaryInput) != (capability_role(c)
            == CompatibilityCapabilityRole::DerivedSummary),
        capability_role(c) == CompatibilityCapabilityRole::PrimaryInput
            ==> capability_summary_inputs(c).len() == 0,
        forall|i: int|
            0 <= i < capability_summary_inputs(c).len() ==> capability_role(
                #[trigger] capability_summary_inputs(c)[i],
            ) == CompatibilityCapabilityRole::PrimaryInput,
{
}

/// The support contract of one capability.
#[derive(Debug, Clone, Copy, PartialEq, Eq)]
pub struct CompatibilityPolicy {
    pub capability: CompatibilityCapability,
    pub role: CompatibilityCapabilityRole,
    pub host_rule: CompatibilityHostRule,
    pub summary_inputs: &'static [CompatibilityCapability],
    pub required_tools_all: &'static [CompatibilityToolRequirement],
    pub required_tools_any: &'static [CompatibilityToolRequirement],
}

/// The host rule of a capability.
pub open spec fn capability_host_rule(c: CompatibilityCapability) -> CompatibilityHostRule {
    match c {
        CompatibilityCapability::MachoAnalysis => CompatibilityHostRule::PrimarySupportedHosts,
        CompatibilityCapability::FixtureRebuild => CompatibilityHostRule::MacOSOnly,
        CompatibilityCapability::FixtureDriftCheck => CompatibilityHostRule::AnyHost,
        CompatibilityCapability::Benchmark => CompatibilityHostRule::DerivedFromInputs,
        CompatibilityCapability::BenchCompile => CompatibilityHostRule::PrimarySupportedHosts,
        CompatibilityCapability::BenchRuntime => CompatibilityHostRule::LinuxArm64Only,
    }
}

/// The tools a capability needs, every one of them.
pub open spec fn capability_tools_all(c: CompatibilityCapability) -> Seq<CompatibilityToolRequirement> {
    if c == CompatibilityCapability::FixtureRebuild {
        seq![
            CompatibilityToolRequirement::Xcrun,
            CompatibilityToolRequirement::XcrunSdkPathProbe,
            CompatibilityToolRequirement::Clang,
            CompatibilityToolRequirement::Strip,
            CompatibilityToolRequirement::Python3,
            CompatibilityToolRequirement::Nm,
            CompatibilityToolRequirement::Swiftc,
        ]
    } else {
        Seq::empty()
    }
}

/// The tools a capability needs, any one of them.
pub open spec fn capability_tools_any(c: CompatibilityCapability) -> Seq<CompatibilityToolRequirement> {
    if c == CompatibilityCapability::FixtureDriftCheck {
        seq![
            CompatibilityToolRequirement::Sha256sum,
            CompatibilityToolRequirement::Shasum,
            CompatibilityToolRequirement::Openssl,
        ]
    } else {
        Seq::empty()
    }
}

/// The policy of a capability has the capability's own role, host rule,
/// summary inputs and tool requirements.
pub open spec fn policy_matches(p: CompatibilityPolicy, c: CompatibilityCapability) -> bool {
    &&& p.capability == c
    &&& p.role == capability_role(c)
    &&& p.host_rule == capability_host_rule(c)
    &&& p.summary_inputs@ == capability_summary_inputs(c)
    &&& p.required_tools_all@ == capability_tools_all(c)
    &&& p.required_tools_any@ == capability_tools_any(c)
}

/// Hosts inside the primary support matrix: macOS on arm64 or x86_64, and
/// Linux on x86_64 or arm64.
pub open spec fn primary_supported_host(p: HostPlatformView, a: HostArchitectureView) -> bool {
    match (p, a) {
        (HostPlatformView::MacOS, HostArchitectureView::Arm64) => true,
        (HostPlatformView::MacOS, HostArchitectureView::X86_64) => true,
        (HostPlatformView::Linux, HostArchitectureView::X86_64) => true,
        (HostPlatformView::Linux, HostArchitectureView::Arm64) => true,
        _ => false,
    }
}

/// The status a host rule gives a capability on a host.
pub open spec fn host_rule_status(
    rule: CompatibilityHostRule,
    p: HostPlatformView,
    a: HostArchitectureView,
) -> CapabilityStatus {
    match rule {
        CompatibilityHostRule::PrimarySupportedHosts => if primary_supported_host(p, a) {
            CapabilityStatus::Supported
        } else {
            CapabilityStatus::SupportedWithDegradedFeatures
        },
        CompatibilityHostRule::MacOSOnly => if p is MacOS {
            CapabilityStatus::Supported
        } else {
            CapabilityStatus::Unsupported
        },
        CompatibilityHostRule::LinuxArm64Only => if p is Linux && a is Arm64 {
            CapabilityStatus::Supported
        } else {
            CapabilityStatus::SupportedWithDegradedFeatures
        },
        CompatibilityHostRule::AnyHost => CapabilityStatus::Supported,
        CompatibilityHostRule::DerivedFromInputs => CapabilityStatus::Supported,
    }
}

impl CompatibilityPolicy {
    /// The primary inputs a doctor check covers.
    pub const DOCTOR_CHECK_ALL: [CompatibilityCapability; 5] = CompatibilityCapability::DOCTOR_CHECK_ALL;

    /// The primary inputs a doctor check covers on any host.
    pub const DOCTOR_CHECK_PORTABLE: [CompatibilityCapability; 3] = CompatibilityCapability::DOCTOR_CHECK_PORTABLE;

    /// The host pairs the continuous-integration matrix verifies.
    pub const PRIMARY_SUPPORTED_HOSTS: [(HostPlatform, HostArchitecture); 3] = [
        (HostPlatform::MacOS, HostArchitecture::Arm64),
        (HostPlatform::Linux, HostArchitecture::X86_64),
        (HostPlatform::Linux, HostArchitecture::Arm64),
    ];

    /// The policy of one capability.
    pub fn capability(capability: CompatibilityCapability) -> (r: CompatibilityPolicy)
        ensures
            policy_matches(r, capability),
    {
        let policy = match capability {
            CompatibilityCapability::MachoAnalysis => CompatibilityPolicy {
                capability,
                role: CompatibilityCapabilityRole::PrimaryInput,
                host_rule: CompatibilityHostRule::PrimarySupportedHosts,
                summary_inputs: &[],
                required_tools_all: &[],
                required_tools_any: &[],
            },
            CompatibilityCapability::FixtureRebuild => CompatibilityPolicy {
                capability,
                role: CompatibilityCapabilityRole::PrimaryInput,
                host_rule: CompatibilityHostRule::MacOSOnly,
                summary_inputs: &[],
                required_tools_all: &[
                    CompatibilityToolRequirement::Xcrun,
                    CompatibilityToolRequirement::XcrunSdkPathProbe,
                    CompatibilityToolRequirement::Clang,
                    CompatibilityToolRequirement::Strip,
                    CompatibilityToolRequirement::Python3,
                    CompatibilityToolRequirement::Nm,
                    CompatibilityToolRequirement::Swiftc,
                ],
                required_tools_any: &[],
            },
            CompatibilityCapability::FixtureDriftCheck => CompatibilityPolicy {
                capability,
                role: CompatibilityCapabilityRole::PrimaryInput,
                host_rule: CompatibilityHostRule::AnyHost,
                summary_inputs: &[],
                required_tools_all: &[],
                required_tools_any: &[
                    CompatibilityToolRequirement::Sha256sum,
                    CompatibilityToolRequirement::Shasum,
                    CompatibilityToolRequirement::Openssl,
                ],
            },
            CompatibilityCapability::Benchmark => CompatibilityPolicy {
                capability,
                role: CompatibilityCapabilityRole::DerivedSummary,
                host_rule: CompatibilityHostRule::DerivedFromInputs,
                summary_inputs: &[
                    CompatibilityCapability::BenchCompile,
                    CompatibilityCapability::BenchRuntime,
                ],
                required_tools_all: &[],
                required_tools_any: &[],
            },
            CompatibilityCapability::BenchCompile => CompatibilityPolicy {
                capability,
                role: CompatibilityCapabilityRole::PrimaryInput,
                host_rule: CompatibilityHostRule::PrimarySupportedHosts,
                summary_inputs: &[],
                required_tools_all: &[],
                required_tools_any: &[],
            },
            CompatibilityCapability::BenchRuntime => CompatibilityPolicy {
                capability,
                role: CompatibilityCapabilityRole::PrimaryInput,
                host_rule: CompatibilityHostRule::LinuxArm64Only,
                summary_inputs: &[],
                required_tools_all: &[],
                required_tools_any: &[],
            },
        };
        assert(policy.summary_inputs@ =~= capability_summary_inputs(capability));
        assert(policy.required_tools_all@ =~= capability_tools_all(capability));
        assert(policy.required_tools_any@ =~= capability_tools_any(capability));
        policy
    }

    /// The policy of every capability, in the order of `CompatibilityCapability::ALL`.
    pub fn policies() -> (r: Vec<CompatibilityPolicy>)
        ensures
            r@.len() == all_capabilities().len(),
            forall|i: int| 0 <= i < r@.len() ==> policy_matches(#[trigger] r@[i], all_capabilities()[i]),
    {
        let mut out: Vec<CompatibilityPolicy> = Vec::new();
        out.push(Self::capability(CompatibilityCapability::MachoAnalysis));
        out.push(Self::capability(CompatibilityCapability::FixtureRebuild));
        out.push(Self::capability(CompatibilityCapability::FixtureDriftCheck));
        out.push(Self::capability(CompatibilityCapability::Benchmark));
        out.push(Self::capability(CompatibilityCapability::BenchCompile));
        out.push(Self::capability(CompatibilityCapability::BenchRuntime));
        out
    }

    /// Whether a host lies inside the primary support matrix.
    pub fn is_primary_supported_host(platform: &HostPlatform, architecture: &HostArchitecture) -> (r: bool)
        ensures
            r == primary_supported_host(platform@, architecture@),
    {
        match (platform, architecture) {
            (HostPlatform::MacOS, HostArchitecture::Arm64) => true,
            (HostPlatform::MacOS, HostArchitecture::X86_64) => true,
            (HostPlatform::Linux, HostArchitecture::X86_64) => true,
            (HostPlatform::Linux, HostArchitecture::Arm64) => true,
            _ => false,
        }
    }

    /// Where a host stands relative to the primary support matrix.
    pub fn host_class(platform: &HostPlatform, architecture: &HostArchitecture) -> (r: CompatibilityHostClass)
        ensures
            (r == CompatibilityHostClass::PrimarySupported) == primary_supported_host(platform@, architecture@),
    {
        if Self::is_primary_supported_host(platform, architecture) {
            CompatibilityHostClass::PrimarySupported
        } else {
            CompatibilityHostClass::OutsidePrimaryMatrix
        }
    }

    /// The status a host rule gives on a host.
    pub fn expected_status_for_host_rule(
        rule: CompatibilityHostRule,
        platform: &HostPlatform,
        architecture: &HostArchitecture,
    ) -> (r: CapabilityStatus)
        ensures
            r == host_rule_status(rule, platform@, architecture@),
    {
        match rule {
            CompatibilityHostRule::PrimarySupportedHosts => {
                if Self::is_primary_supported_host(platform, architecture) {
                    CapabilityStatus::Supported
                } else {
                    CapabilityStatus::SupportedWithDegradedFeatures
                }
            },
            CompatibilityHostRule::MacOSOnly => {
                if platform.is_macos() {
                    CapabilityStatus::Supported
                } else {
                    CapabilityStatus::Unsupported
                }
            },
            CompatibilityHostRule::LinuxArm64Only => {
                let arm64 = match architecture {
                    HostArchitecture::Arm64 => true,
                    _ => false,
                };
                if platform.is_linux() && arm64 {
                    CapabilityStatus::Supported
                } else {
                    CapabilityStatus::SupportedWithDegradedFeatures
                }
            },
            CompatibilityHostRule::AnyHost => CapabilityStatus::Supported,
            CompatibilityHostRule::DerivedFromInputs => CapabilityStatus::Supported,
        }
    }
}

/// A host in the primary matrix gets every primary capability except the
/// macOS-only and linux-arm64-only ones at full support, and no host rule
/// ever marks a capability worse than degraded unless it is macOS-only.
pub proof fn lemma_host_rules_on_primary_hosts(
    rule: CompatibilityHostRule,
    p: HostPlatformView,
    a: HostArchitectureView,
)
    ensures
        primary_supported_host(p, a) && rule != CompatibilityHostRule::MacOSOnly && rule
            != CompatibilityHostRule::LinuxArm64Only ==> host_rule_status(rule, p, a)
            == CapabilityStatus::Supported,
        rule != CompatibilityHostRule::MacOSOnly ==> host_rule_status(rule, p, a)
            != CapabilityStatus::Unsupported,
{
}

} // verus!
