//! The doctor report: how each capability fares on the current host, given
//! the host pair and the external tools that were detected.

use vstd::prelude::*;
use vstd::string::StringExecFns;

use crate::compat::{
    capability_host_rule, capability_summary_inputs, capability_tools_all, capability_tools_any,
    doctor_check_all, host_rule_status, issue_view, severity, CapabilityStatus,
    CompatibilityCapability, CompatibilityHostRule, CompatibilityIssue, CompatibilityPolicy,
    CompatibilityToolRequirement, HostArchitecture, HostArchitectureView, HostPlatform,
    HostPlatformView,
};
use crate::compat::capability_status_severity;
use crate::text::{chars_vec, starts_with_chars, str_eq, string_from_range, string_of};

verus! {

/// An issue as characters: its code and its message.
pub type IssueView = (Seq<char>, Seq<char>);

/// What was found out about one external tool.
#[derive(Debug, Clone, PartialEq, Eq)]
pub struct ToolStatus {
    pub detected: bool,
    pub usable: bool,
    pub path: Option<String>,
}

/// What was found out about the hash tools.
#[derive(Debug, Clone, PartialEq, Eq)]
pub struct HashToolStatus {
    pub sha256sum: ToolStatus,
    pub shasum: ToolStatus,
    pub openssl: ToolStatus,
}

/// What was found out about every tool the capabilities rely on.
#[derive(Debug, Clone, PartialEq, Eq)]
pub struct DoctorTools {
    pub xcrun: ToolStatus,
    pub clang: ToolStatus,
    pub strip: ToolStatus,
    pub python3: ToolStatus,
    pub nm: ToolStatus,
    pub sdk_path_probe: ToolStatus,
    pub hash_tools: HashToolStatus,
    pub selected_hash_tool: Option<String>,
}

/// The inputs of a doctor evaluation.
#[derive(Debug, Clone, PartialEq, Eq)]
pub struct DoctorContext {
    pub host_platform: HostPlatform,
    pub host_architecture: HostArchitecture,
    pub target_triple: Option<String>,
    pub tools: DoctorTools,
}

/// The outcome on one capability, with the reasons for anything short of
/// full support.
#[derive(Debug, Clone, PartialEq, Eq)]
pub struct CapabilityReport {
    pub status: CapabilityStatus,
    pub reasons: Vec<CompatibilityIssue>,
}

/// The outcome on every capability.
#[derive(Debug, Clone, PartialEq, Eq)]
pub struct DoctorReport {
    pub host_platform: HostPlatform,
    pub host_architecture: HostArchitecture,
    pub target_triple: Option<String>,
    pub overall_status: CapabilityStatus,
    pub macho_analysis: CapabilityReport,
    pub fixture_rebuild: CapabilityReport,
    pub fixture_drift_check: CapabilityReport,
    pub bench_compile: CapabilityReport,
    pub bench_runtime: CapabilityReport,
    pub benchmark: CapabilityReport,
    pub tools: DoctorTools,
    pub issues: Vec<CompatibilityIssue>,
}

/// Which capabilities a doctor check covers.
#[derive(Debug, Clone, Copy, PartialEq, Eq, Structural)]
pub enum DoctorCheckTarget {
    All,
    MachoAnalysis,
    FixtureRebuild,
    FixtureDriftCheck,
    BenchCompile,
    BenchRuntime,
}

/// The worst status a doctor check accepts.
#[derive(Debug, Clone, Copy, PartialEq, Eq, Structural)]
pub enum DoctorRequireStatus {
    Supported,
    SupportedWithDegradedFeatures,
}

/// A doctor check: a target and the worst status it accepts.
#[derive(Debug, Clone, Copy, PartialEq, Eq, Structural)]
pub struct DoctorCheckRequest {
    pub target: DoctorCheckTarget,
    pub require_status: DoctorRequireStatus,
}

/// Whether a doctor check passed.
#[derive(Debug, Clone, Copy, PartialEq, Eq, Structural)]
pub enum DoctorCheckOutcome {
    Passed,
    Failed,
}

// ---------------------------------------------------------------------------
// The model of a report.

/// The issues of a list, as characters.
pub open spec fn issues_view(issues: Seq<CompatibilityIssue>) -> Seq<IssueView> {
    issues.map_values(|i: CompatibilityIssue| issue_view(i))
}

/// A report as its status and its reasons.
pub open spec fn report_view(r: CapabilityReport) -> (CapabilityStatus, Seq<IssueView>) {
    (r.status, issues_view(r.reasons@))
}

/// The report a host rule gives: a reason only when the status is degraded.
pub open spec fn host_report(
    status: CapabilityStatus,
    code: Seq<char>,
    message: Seq<char>,
) -> (CapabilityStatus, Seq<IssueView>) {
    if status == CapabilityStatus::SupportedWithDegradedFeatures {
        (status, seq![(code, message)])
    } else {
        (status, Seq::empty())
    }
}

/// The reason a tool needed by a capability gives, if any.
pub open spec fn tool_reasons(
    status: ToolStatus,
    name: Seq<char>,
    missing_code: Seq<char>,
    unusable_code: Seq<char>,
) -> Seq<IssueView> {
    if !status.detected {
        seq![(missing_code, name + " was not found on PATH."@)]
    } else if !status.usable {
        seq![(unusable_code, name + " was detected but did not pass usability probe."@)]
    } else {
        Seq::empty()
    }
}

/// The reasons one required tool gives.
pub open spec fn requirement_reasons(
    tools: DoctorTools,
    requirement: CompatibilityToolRequirement,
) -> Seq<IssueView> {
    match requirement {
        CompatibilityToolRequirement::Xcrun => tool_reasons(
            tools.xcrun,
            "xcrun"@,
            "missing_xcrun"@,
            "unusable_xcrun"@,
        ),
        CompatibilityToolRequirement::XcrunSdkPathProbe => if !tools.sdk_path_probe.usable {
            seq![("xcrun_sdk_path_probe_failed"@, "xcrun --show-sdk-path failed."@)]
        } else {
            Seq::empty()
        },
        CompatibilityToolRequirement::Clang => tool_reasons(
            tools.clang,
            "clang"@,
            "missing_clang"@,
            "unusable_clang"@,
        ),
        CompatibilityToolRequirement::Strip => tool_reasons(
            tools.strip,
            "strip"@,
            "missing_strip"@,
            "unusable_strip"@,
        ),
        CompatibilityToolRequirement::Python3 => tool_reasons(
            tools.python3,
            "python3"@,
            "missing_python3"@,
            "unusable_python3"@,
        ),
        CompatibilityToolRequirement::Nm => tool_reasons(
            tools.nm,
            "nm"@,
            "missing_nm"@,
            "unusable_nm"@,
        ),
        _ => Seq::empty(),
    }
}

/// The reasons a list of required tools gives, in list order.
pub open spec fn requirements_reasons(
    tools: DoctorTools,
    requirements: Seq<CompatibilityToolRequirement>,
) -> Seq<IssueView>
    decreases requirements.len(),
{
    if requirements.len() == 0 {
        Seq::empty()
    } else {
        requirements_reasons(tools, requirements.drop_last()) + requirement_reasons(
            tools,
            requirements.last(),
        )
    }
}

/// Whether a tool was found usable (tools that are not probed never are).
pub open spec fn requirement_usable(tools: DoctorTools, requirement: CompatibilityToolRequirement) -> bool {
    match requirement {
        CompatibilityToolRequirement::Xcrun => tools.xcrun.usable,
        CompatibilityToolRequirement::XcrunSdkPathProbe => tools.sdk_path_probe.usable,
        CompatibilityToolRequirement::Clang => tools.clang.usable,
        CompatibilityToolRequirement::Strip => tools.strip.usable,
        CompatibilityToolRequirement::Python3 => tools.python3.usable,
        CompatibilityToolRequirement::Nm => tools.nm.usable,
        CompatibilityToolRequirement::Swiftc => false,
        CompatibilityToolRequirement::Sha256sum => tools.hash_tools.sha256sum.usable,
        CompatibilityToolRequirement::Shasum => tools.hash_tools.shasum.usable,
        CompatibilityToolRequirement::Openssl => tools.hash_tools.openssl.usable,
    }
}

/// The fixture-rebuild outcome: macOS only, and every required tool usable.
pub open spec fn rebuild_report(
    platform: HostPlatformView,
    architecture: HostArchitectureView,
    tools: DoctorTools,
) -> (CapabilityStatus, Seq<IssueView>) {
    let host = host_rule_status(
        capability_host_rule(CompatibilityCapability::FixtureRebuild),
        platform,
        architecture,
    );
    if host == CapabilityStatus::Unsupported {
        (
            CapabilityStatus::Unsupported,
            seq![
                (
                    "fixture_rebuild_macos_only"@,
                    "Fixture rebuild requires macOS and Xcode tooling."@,
                ),
            ],
        )
    } else {
        let reasons = requirements_reasons(
            tools,
            capability_tools_all(CompatibilityCapability::FixtureRebuild),
        );
        if reasons.len() == 0 {
            (CapabilityStatus::Supported, reasons)
        } else {
            (CapabilityStatus::Unsupported, reasons)
        }
    }
}

/// The fixture-drift-check outcome: some tool of the list must be usable.
pub open spec fn drift_report(
    tools: DoctorTools,
    any: Seq<CompatibilityToolRequirement>,
) -> (CapabilityStatus, Seq<IssueView>) {
    if exists|i: int| 0 <= i < any.len() && requirement_usable(tools, #[trigger] any[i]) {
        (CapabilityStatus::Supported, Seq::empty())
    } else {
        (
            CapabilityStatus::Unsupported,
            seq![
                (
                    "missing_usable_hash_tool"@,
                    "No usable hash tool detected; fixture drift check expects sha256sum, shasum, or openssl."@,
                ),
            ],
        )
    }
}

/// The outcome on a capability evaluated on its own.
pub open spec fn primary_report(
    platform: HostPlatformView,
    architecture: HostArchitectureView,
    tools: DoctorTools,
    capability: CompatibilityCapability,
) -> (CapabilityStatus, Seq<IssueView>) {
    let host = host_rule_status(capability_host_rule(capability), platform, architecture);
    match capability {
        CompatibilityCapability::MachoAnalysis => host_report(
            host,
            "host_not_ci_verified"@,
            "Mach-O analysis should still work, but this host pair is outside the current CI matrix."@,
        ),
        CompatibilityCapability::FixtureRebuild => rebuild_report(platform, architecture, tools),
        CompatibilityCapability::FixtureDriftCheck => drift_report(
            tools,
            capability_tools_any(CompatibilityCapability::FixtureDriftCheck),
        ),
        CompatibilityCapability::BenchCompile => host_report(
            host,
            "host_not_ci_verified_for_bench_compile"@,
            "Bench compile smoke is not CI-verified for this host pair."@,
        ),
        CompatibilityCapability::BenchRuntime => host_report(
            host,
            "throughput_smoke_linux_arm64_only"@,
            "Throughput smoke runs only on linux arm64; other hosts support benchmark compile smoke."@,
        ),
        CompatibilityCapability::Benchmark => (CapabilityStatus::Supported, Seq::empty()),
    }
}

/// The worse of two statuses.
pub open spec fn worse(a: CapabilityStatus, b: CapabilityStatus) -> CapabilityStatus {
    if severity(b) >= severity(a) {
        b
    } else {
        a
    }
}

/// The worst status of a list; full support for an empty list.
pub open spec fn worst_status(s: Seq<CapabilityStatus>) -> CapabilityStatus
    decreases s.len(),
{
    if s.len() == 0 {
        CapabilityStatus::Supported
    } else {
        worse(worst_status(s.drop_last()), s.last())
    }
}

/// All the issue lists, one after another.
pub open spec fn flatten_issues(lists: Seq<Seq<IssueView>>) -> Seq<IssueView>
    decreases lists.len(),
{
    if lists.len() == 0 {
        Seq::empty()
    } else {
        flatten_issues(lists.drop_last()) + lists.last()
    }
}

/// The list with every repeated element after its first occurrence removed.
pub open spec fn dedup_issues(s: Seq<IssueView>) -> Seq<IssueView>
    decreases s.len(),
{
    if s.len() == 0 {
        Seq::empty()
    } else {
        let d = dedup_issues(s.drop_last());
        if d.contains(s.last()) {
            d
        } else {
            d.push(s.last())
        }
    }
}

/// The reports a list of references points to.
pub open spec fn derefs(reports: Seq<&CapabilityReport>) -> Seq<CapabilityReport> {
    reports.map_values(|r: &CapabilityReport| *r)
}

/// The statuses of a list of reports.
pub open spec fn statuses_of(reports: Seq<CapabilityReport>) -> Seq<CapabilityStatus> {
    reports.map_values(|r: CapabilityReport| r.status)
}

/// The reason lists of a list of reports.
pub open spec fn reasons_of(reports: Seq<CapabilityReport>) -> Seq<Seq<IssueView>> {
    reports.map_values(|r: CapabilityReport| issues_view(r.reasons@))
}

/// The distinct reasons of a list of reports, in order of first occurrence.
pub open spec fn unique_reasons(reports: Seq<CapabilityReport>) -> Seq<IssueView> {
    dedup_issues(flatten_issues(reasons_of(reports)))
}

/// The report of one capability.
pub open spec fn report_of(r: DoctorReport, capability: CompatibilityCapability) -> CapabilityReport {
    match capability {
        CompatibilityCapability::MachoAnalysis => r.macho_analysis,
        CompatibilityCapability::FixtureRebuild => r.fixture_rebuild,
        CompatibilityCapability::FixtureDriftCheck => r.fixture_drift_check,
        CompatibilityCapability::Benchmark => r.benchmark,
        CompatibilityCapability::BenchCompile => r.bench_compile,
        CompatibilityCapability::BenchRuntime => r.bench_runtime,
    }
}

/// The report with one capability's outcome replaced.
pub open spec fn with_report(
    r: DoctorReport,
    capability: CompatibilityCapability,
    new: CapabilityReport,
) -> DoctorReport {
    match capability {
        CompatibilityCapability::MachoAnalysis => DoctorReport { macho_analysis: new, ..r },
        CompatibilityCapability::FixtureRebuild => DoctorReport { fixture_rebuild: new, ..r },
        CompatibilityCapability::FixtureDriftCheck => DoctorReport { fixture_drift_check: new, ..r },
        CompatibilityCapability::Benchmark => DoctorReport { benchmark: new, ..r },
        CompatibilityCapability::BenchCompile => DoctorReport { bench_compile: new, ..r },
        CompatibilityCapability::BenchRuntime => DoctorReport { bench_runtime: new, ..r },
    }
}

/// The reports of the primary inputs, in doctor-check order.
pub open spec fn non_summary_reports(r: DoctorReport) -> Seq<CapabilityReport> {
    doctor_check_all().map_values(|c: CompatibilityCapability| report_of(r, c))
}

/// The capabilities a check target covers.
pub open spec fn check_targets(target: DoctorCheckTarget) -> Seq<CompatibilityCapability> {
    match target {
        DoctorCheckTarget::All => doctor_check_all(),
        DoctorCheckTarget::MachoAnalysis => seq![CompatibilityCapability::MachoAnalysis],
        DoctorCheckTarget::FixtureRebuild => seq![CompatibilityCapability::FixtureRebuild],
        DoctorCheckTarget::FixtureDriftCheck => seq![CompatibilityCapability::FixtureDriftCheck],
        DoctorCheckTarget::BenchCompile => seq![CompatibilityCapability::BenchCompile],
        DoctorCheckTarget::BenchRuntime => seq![CompatibilityCapability::BenchRuntime],
    }
}

/// The status a requirement level stands for.
pub open spec fn required_status(level: DoctorRequireStatus) -> CapabilityStatus {
    match level {
        DoctorRequireStatus::Supported => CapabilityStatus::Supported,
        DoctorRequireStatus::SupportedWithDegradedFeatures => CapabilityStatus::SupportedWithDegradedFeatures,
    }
}

/// A check passes when every covered capability is at least as well
/// supported as required.
pub open spec fn check_passes(r: DoctorReport, request: DoctorCheckRequest) -> bool {
    forall|i: int|
        0 <= i < check_targets(request.target).len() ==> severity(
            report_of(r, #[trigger] check_targets(request.target)[i]).status,
        ) <= severity(required_status(request.require_status))
}

// ---------------------------------------------------------------------------
// Laws of the report model.

/// Removing repetitions keeps exactly the elements of the list, each once.
pub proof fn lemma_dedup_issues(s: Seq<IssueView>)
    ensures
        forall|x: IssueView| dedup_issues(s).contains(x) <==> s.contains(x),
        forall|i: int, j: int|
            0 <= i < j < dedup_issues(s).len() ==> dedup_issues(s)[i] != dedup_issues(s)[j],
    decreases s.len(),
{
    if s.len() > 0 {
        let init = s.drop_last();
        lemma_dedup_issues(init);
        assert forall|x: IssueView| s.contains(x) <==> (init.contains(x) || x == s.last()) by {
            if s.contains(x) {
                let k = choose|k: int| 0 <= k < s.len() && s[k] == x;
                if k < s.len() - 1 {
                    assert(init[k] == x);
                }
            }
            if init.contains(x) {
                let k = choose|k: int| 0 <= k < init.len() && init[k] == x;
                assert(s[k] == x);
            }
            if x == s.last() {
                assert(s[s.len() - 1] == x);
            }
        }
        let d = dedup_issues(init);
        if !d.contains(s.last()) {
            assert forall|x: IssueView| d.push(s.last()).contains(x) <==> (d.contains(x) || x == s.last()) by {
                if d.push(s.last()).contains(x) {
                    let k = choose|k: int| 0 <= k < d.push(s.last()).len() && d.push(s.last())[k] == x;
                    if k < d.len() {
                        assert(d[k] == x);
                    }
                }
                if d.contains(x) {
                    let k = choose|k: int| 0 <= k < d.len() && d[k] == x;
                    assert(d.push(s.last())[k] == x);
                }
                if x == s.last() {
                    assert(d.push(s.last())[d.len() as int] == x);
                }
            }
            assert forall|i: int, j: int|
                0 <= i < j < d.push(s.last()).len() implies d.push(s.last())[i] != d.push(s.last())[j] by {
                if j == d.len() {
                    assert(d[i] == d.push(s.last())[i]);
                }
            }
        }
    }
}

/// The worst status of a list is one of its statuses (or full support when
/// the list is empty), and no status of the list is worse.
pub proof fn lemma_worst_status(s: Seq<CapabilityStatus>)
    ensures
        forall|i: int| 0 <= i < s.len() ==> severity(#[trigger] s[i]) <= severity(worst_status(s)),
        s.len() == 0 ==> worst_status(s) == CapabilityStatus::Supported,
        s.len() > 0 ==> exists|i: int| 0 <= i < s.len() && s[i] == worst_status(s),
    decreases s.len(),
{
    if s.len() > 0 {
        lemma_worst_status(s.drop_last());
        assert forall|i: int| 0 <= i < s.len() implies severity(#[trigger] s[i]) <= severity(worst_status(s)) by {
            if i < s.len() - 1 {
                assert(s.drop_last()[i] == s[i]);
            }
        }
        if worst_status(s) == s.last() {
            assert(s[s.len() - 1] == worst_status(s));
        } else {
            let k = choose|k: int| 0 <= k < s.drop_last().len() && s.drop_last()[k] == worst_status(s.drop_last());
            assert(s[k] == worst_status(s));
        }
    }
}

// ---------------------------------------------------------------------------
// Evaluation.

/// A copy of an optional string.
pub fn clone_optional_string(o: &Option<String>) -> (r: Option<String>)
    ensures
        r == *o,
{
    match o {
        Some(s) => Some(s.clone()),
        None => None,
    }
}

impl ToolStatus {
    /// An identical copy.
    pub fn duplicate(&self) -> (r: ToolStatus)
        ensures
            r == *self,
    {
        ToolStatus {
            detected: self.detected,
            usable: self.usable,
            path: clone_optional_string(&self.path),
        }
    }
}

impl HashToolStatus {
    /// An identical copy.
    pub fn duplicate(&self) -> (r: HashToolStatus)
        ensures
            r == *self,
    {
        HashToolStatus {
            sha256sum: self.sha256sum.duplicate(),
            shasum: self.shasum.duplicate(),
            openssl: self.openssl.duplicate(),
        }
    }
}

impl DoctorTools {
    /// An identical copy.
    pub fn duplicate(&self) -> (r: DoctorTools)
        ensures
            r == *self,
    {
        DoctorTools {
            xcrun: self.xcrun.duplicate(),
            clang: self.clang.duplicate(),
            strip: self.strip.duplicate(),
            python3: self.python3.duplicate(),
            nm: self.nm.duplicate(),
            sdk_path_probe: self.sdk_path_probe.duplicate(),
            hash_tools: self.hash_tools.duplicate(),
            selected_hash_tool: clone_optional_string(&self.selected_hash_tool),
        }
    }
}

/// An issue with the given code and message.
pub fn compatibility_issue(code: &'static str, message: &str) -> (r: CompatibilityIssue)
    ensures
        issue_view(r) == (code@, message@),
        r.code == code,
{
    CompatibilityIssue::new(code, message)
}

/// A copy of an issue.
pub fn duplicate_issue(issue: &CompatibilityIssue) -> (r: CompatibilityIssue)
    ensures
        r == *issue,
{
    CompatibilityIssue { code: issue.code, message: issue.message.clone() }
}

/// The report of a capability governed by a host rule alone: a reason is
/// given only when the host is supported with degraded features.
pub fn report_for_host_rule(
    status: CapabilityStatus,
    degraded_code: &'static str,
    degraded_message: &'static str,
) -> (r: CapabilityReport)
    ensures
        report_view(r) == host_report(status, degraded_code@, degraded_message@),
{
    let mut reasons: Vec<CompatibilityIssue> = Vec::new();
    if status == CapabilityStatus::SupportedWithDegradedFeatures {
        reasons.push(compatibility_issue(degraded_code, degraded_message));
    }
    let r = CapabilityReport { status, reasons };
    assert(report_view(r).1 =~= host_report(status, degraded_code@, degraded_message@).1);
    r
}

/// Adds the reason a required tool gives: missing, or found but unusable.
pub fn push_tool_requirement(
    reasons: &mut Vec<CompatibilityIssue>,
    status: &ToolStatus,
    tool_name: &'static str,
    missing_code: &'static str,
    unusable_code: &'static str,
)
    ensures
        issues_view(final(reasons)@) == issues_view(old(reasons)@) + tool_reasons(
            *status,
            tool_name@,
            missing_code@,
            unusable_code@,
        ),
{
    if !status.detected {
        let mut message = string_of(tool_name);
        message.append(" was not found on PATH.");
        reasons.push(CompatibilityIssue { code: missing_code, message });
    } else if !status.usable {
        let mut message = string_of(tool_name);
        message.append(" was detected but did not pass usability probe.");
        reasons.push(CompatibilityIssue { code: unusable_code, message });
    }
    assert(issues_view(reasons@) =~= issues_view(old(reasons)@) + tool_reasons(
        *status,
        tool_name@,
        missing_code@,
        unusable_code@,
    ));
}

/// Adds the reasons a policy's tool requirement gives on this host.
pub fn push_tool_requirement_from_policy(
    reasons: &mut Vec<CompatibilityIssue>,
    context: &DoctorContext,
    requirement: CompatibilityToolRequirement,
)
    ensures
        issues_view(final(reasons)@) == issues_view(old(reasons)@) + requirement_reasons(
            context.tools,
            requirement,
        ),
{
    match requirement {
        CompatibilityToolRequirement::Xcrun => push_tool_requirement(
            reasons,
            &context.tools.xcrun,
            "xcrun",
            "missing_xcrun",
            "unusable_xcrun",
        ),
        CompatibilityToolRequirement::XcrunSdkPathProbe => {
            if !context.tools.sdk_path_probe.usable {
                reasons.push(
                    compatibility_issue("xcrun_sdk_path_probe_failed", "xcrun --show-sdk-path failed."),
                );
            }
            assert(issues_view(reasons@) =~= issues_view(old(reasons)@) + requirement_reasons(
                context.tools,
                requirement,
            ));
        },
        CompatibilityToolRequirement::Clang => push_tool_requirement(
            reasons,
            &context.tools.clang,
            "clang",
            "missing_clang",
            "unusable_clang",
        ),
        CompatibilityToolRequirement::Strip => push_tool_requirement(
            reasons,
            &context.tools.strip,
            "strip",
            "missing_strip",
            "unusable_strip",
        ),
        CompatibilityToolRequirement::Python3 => push_tool_requirement(
            reasons,
            &context.tools.python3,
            "python3",
            "missing_python3",
            "unusable_python3",
        ),
        CompatibilityToolRequirement::Nm => push_tool_requirement(
            reasons,
            &context.tools.nm,
            "nm",
            "missing_nm",
            "unusable_nm",
        ),
        _ => {
            assert(issues_view(reasons@) =~= issues_view(old(reasons)@) + requirement_reasons(
                context.tools,
                requirement,
            ));
        },
    }
}

/// Whether a required tool was found usable.
pub fn tool_requirement_usable(context: &DoctorContext, requirement: CompatibilityToolRequirement) -> (r: bool)
    ensures
        r == requirement_usable(context.tools, requirement),
{
    match requirement {
        CompatibilityToolRequirement::Xcrun => context.tools.xcrun.usable,
        CompatibilityToolRequirement::XcrunSdkPathProbe => context.tools.sdk_path_probe.usable,
        CompatibilityToolRequirement::Clang => context.tools.clang.usable,
        CompatibilityToolRequirement::Strip => context.tools.strip.usable,
        CompatibilityToolRequirement::Python3 => context.tools.python3.usable,
        CompatibilityToolRequirement::Nm => context.tools.nm.usable,
        CompatibilityToolRequirement::Swiftc => false,
        CompatibilityToolRequirement::Sha256sum => context.tools.hash_tools.sha256sum.usable,
        CompatibilityToolRequirement::Shasum => context.tools.hash_tools.shasum.usable,
        CompatibilityToolRequirement::Openssl => context.tools.hash_tools.openssl.usable,
    }
}

/// The fixture-rebuild outcome.
pub fn evaluate_fixture_rebuild_capability(context: &DoctorContext) -> (r: CapabilityReport)
    ensures
        report_view(r) == rebuild_report(
            context.host_platform@,
            context.host_architecture@,
            context.tools,
        ),
{
    let policy = CompatibilityPolicy::capability(CompatibilityCapability::FixtureRebuild);
    let host_status = CompatibilityPolicy::expected_status_for_host_rule(
        policy.host_rule,
        &context.host_platform,
        &context.host_architecture,
    );
    if host_status == CapabilityStatus::Unsupported {
        let mut reasons: Vec<CompatibilityIssue> = Vec::new();
        reasons.push(
            compatibility_issue(
                "fixture_rebuild_macos_only",
                "Fixture rebuild requires macOS and Xcode tooling.",
            ),
        );
        let r = CapabilityReport { status: CapabilityStatus::Unsupported, reasons };
        assert(report_view(r).1 =~= rebuild_report(
            context.host_platform@,
            context.host_architecture@,
            context.tools,
        ).1);
        return r;
    }
    let ghost all = capability_tools_all(CompatibilityCapability::FixtureRebuild);
    let mut reasons: Vec<CompatibilityIssue> = Vec::new();
    let mut i: usize = 0;
    while i < policy.required_tools_all.len()
        invariant
            policy.required_tools_all@ == all,
            i <= all.len(),
            issues_view(reasons@) == requirements_reasons(context.tools, all.take(i as int)),
        decreases all.len() - i,
    {
        assert(all.take(i + 1).drop_last() =~= all.take(i as int));
        push_tool_requirement_from_policy(&mut reasons, context, policy.required_tools_all[i]);
        i = i + 1;
    }
    assert(all.take(all.len() as int) =~= all);
    let status = if reasons.len() == 0 {
        CapabilityStatus::Supported
    } else {
        CapabilityStatus::Unsupported
    };
    CapabilityReport { status, reasons }
}

/// The fixture-drift-check outcome: supported when any listed tool is usable.
pub fn evaluate_fixture_drift_check_capability(
    context: &DoctorContext,
    required_tools_any: &[CompatibilityToolRequirement],
) -> (r: CapabilityReport)
    ensures
        report_view(r) == drift_report(context.tools, required_tools_any@),
{
    let mut any_usable = false;
    let mut i: usize = 0;
    while i < required_tools_any.len()
        invariant
            i <= required_tools_any@.len(),
            any_usable == exists|k: int|
                0 <= k < i && requirement_usable(context.tools, #[trigger] required_tools_any@[k]),
        decreases required_tools_any@.len() - i,
    {
        if tool_requirement_usable(context, required_tools_any[i]) {
            any_usable = true;
        }
        i = i + 1;
    }
    if any_usable {
        let r = CapabilityReport { status: CapabilityStatus::Supported, reasons: Vec::new() };
        assert(report_view(r).1 =~= drift_report(context.tools, required_tools_any@).1);
        r
    } else {
        let mut reasons: Vec<CompatibilityIssue> = Vec::new();
        reasons.push(
            compatibility_issue(
                "missing_usable_hash_tool",
                "No usable hash tool detected; fixture drift check expects sha256sum, shasum, or openssl.",
            ),
        );
        let r = CapabilityReport { status: CapabilityStatus::Unsupported, reasons };
        assert(report_view(r).1 =~= drift_report(context.tools, required_tools_any@).1);
        r
    }
}

/// The outcome on a capability evaluated on its own.
pub fn evaluate_primary_capability(
    context: &DoctorContext,
    capability: CompatibilityCapability,
) -> (r: CapabilityReport)
    ensures
        report_view(r) == primary_report(
            context.host_platform@,
            context.host_architecture@,
            context.tools,
            capability,
        ),
{
    let policy = CompatibilityPolicy::capability(capability);
    let host_status = CompatibilityPolicy::expected_status_for_host_rule(
        policy.host_rule,
        &context.host_platform,
        &context.host_architecture,
    );
    match capability {
        CompatibilityCapability::MachoAnalysis => report_for_host_rule(
            host_status,
            "host_not_ci_verified",
            "Mach-O analysis should still work, but this host pair is outside the current CI matrix.",
        ),
        CompatibilityCapability::FixtureRebuild => evaluate_fixture_rebuild_capability(context),
        CompatibilityCapability::FixtureDriftCheck => evaluate_fixture_drift_check_capability(
            context,
            policy.required_tools_any,
        ),
        CompatibilityCapability::BenchCompile => report_for_host_rule(
            host_status,
            "host_not_ci_verified_for_bench_compile",
            "Bench compile smoke is not CI-verified for this host pair.",
        ),
        CompatibilityCapability::BenchRuntime => report_for_host_rule(
            host_status,
            "throughput_smoke_linux_arm64_only",
            "Throughput smoke runs only on linux arm64; other hosts support benchmark compile smoke.",
        ),
        CompatibilityCapability::Benchmark => {
            let r = CapabilityReport { status: CapabilityStatus::Supported, reasons: Vec::new() };
            assert(report_view(r).1 =~= Seq::<IssueView>::empty());
            r
        },
    }
}

/// Whether an issue with the same code and message is already listed.
pub fn contains_issue(issues: &Vec<CompatibilityIssue>, issue: &CompatibilityIssue) -> (r: bool)
    ensures
        r == issues_view(issues@).contains(issue_view(*issue)),
{
    let mut i: usize = 0;
    while i < issues.len()
        invariant
            i <= issues@.len(),
            forall|k: int| 0 <= k < i ==> issue_view(#[trigger] issues@[k]) != issue_view(*issue),
        decreases issues@.len() - i,
    {
        let item = &issues[i];
        if str_eq(item.code, issue.code) && item.message == issue.message {
            assert(issues_view(issues@)[i as int] == issue_view(*issue));
            return true;
        }
        i = i + 1;
    }
    assert forall|k: int| 0 <= k < issues_view(issues@).len() implies issues_view(issues@)[k]
        != issue_view(*issue) by {
        assert(issues_view(issues@)[k] == issue_view(issues@[k]));
    }
    false
}

/// The distinct reasons of the reports, in order of first occurrence.
pub fn unique_issues_from_reports(reports: &[&CapabilityReport]) -> (r: Vec<CompatibilityIssue>)
    ensures
        issues_view(r@) == unique_reasons(derefs(reports@)),
{
    let ghost all = reasons_of(derefs(reports@));
    let mut issues: Vec<CompatibilityIssue> = Vec::new();
    let mut i: usize = 0;
    while i < reports.len()
        invariant
            i <= reports@.len(),
            all == reasons_of(derefs(reports@)),
            all.len() == reports@.len(),
            issues_view(issues@) == dedup_issues(flatten_issues(all.take(i as int))),
        decreases reports@.len() - i,
    {
        let report = reports[i];
        let ghost done = flatten_issues(all.take(i as int));
        let ghost current = issues_view(report.reasons@);
        assert(all[i as int] == current);
        let mut j: usize = 0;
        while j < report.reasons.len()
            invariant
                j <= current.len(),
                current == issues_view(report.reasons@),
                issues_view(issues@) == dedup_issues(done + current.take(j as int)),
            decreases current.len() - j,
        {
            let issue = &report.reasons[j];
            assert((done + current.take(j + 1)).drop_last() =~= done + current.take(j as int));
            assert((done + current.take(j + 1)).last() == issue_view(*issue));
            if !contains_issue(&issues, issue) {
                issues.push(duplicate_issue(issue));
                assert(issues_view(issues@) =~= dedup_issues(done + current.take(j as int)).push(
                    issue_view(*issue),
                ));
            }
            j = j + 1;
        }
        assert(current.take(current.len() as int) =~= current);
        assert(all.take(i + 1).drop_last() =~= all.take(i as int));
        i = i + 1;
    }
    assert(all.take(all.len() as int) =~= all);
    issues
}

/// The summary of several reports: the worst status and the distinct reasons.
pub fn summarize_capability_reports(reports: &[&CapabilityReport]) -> (r: CapabilityReport)
    ensures
        r.status == worst_status(statuses_of(derefs(reports@))),
        issues_view(r.reasons@) == unique_reasons(derefs(reports@)),
{
    let ghost statuses = statuses_of(derefs(reports@));
    let mut status = CapabilityStatus::Supported;
    let mut i: usize = 0;
    while i < reports.len()
        invariant
            i <= reports@.len(),
            statuses == statuses_of(derefs(reports@)),
            statuses.len() == reports@.len(),
            status == worst_status(statuses.take(i as int)),
        decreases reports@.len() - i,
    {
        assert(statuses.take(i + 1).drop_last() =~= statuses.take(i as int));
        let next = reports[i].status;
        if capability_status_severity(next) >= capability_status_severity(status) {
            status = next;
        }
        i = i + 1;
    }
    assert(statuses.take(statuses.len() as int) =~= statuses);
    CapabilityReport { status, reasons: unique_issues_from_reports(reports) }
}

impl DoctorReport {
    /// The report of one capability.
    pub fn capability(&self, capability: CompatibilityCapability) -> (r: &CapabilityReport)
        ensures
            *r == report_of(*self, capability),
    {
        match capability {
            CompatibilityCapability::MachoAnalysis => &self.macho_analysis,
            CompatibilityCapability::FixtureRebuild => &self.fixture_rebuild,
            CompatibilityCapability::FixtureDriftCheck => &self.fixture_drift_check,
            CompatibilityCapability::Benchmark => &self.benchmark,
            CompatibilityCapability::BenchCompile => &self.bench_compile,
            CompatibilityCapability::BenchRuntime => &self.bench_runtime,
        }
    }

    /// The report of one capability, for replacement.
    pub fn capability_mut(&mut self, capability: CompatibilityCapability) -> (r: &mut CapabilityReport)
        ensures
            *r == report_of(*old(self), capability),
            *final(self) == with_report(*old(self), capability, *final(r)),
    {
        match capability {
            CompatibilityCapability::MachoAnalysis => &mut self.macho_analysis,
            CompatibilityCapability::FixtureRebuild => &mut self.fixture_rebuild,
            CompatibilityCapability::FixtureDriftCheck => &mut self.fixture_drift_check,
            CompatibilityCapability::Benchmark => &mut self.benchmark,
            CompatibilityCapability::BenchCompile => &mut self.bench_compile,
            CompatibilityCapability::BenchRuntime => &mut self.bench_runtime,
        }
    }
}

/// The primary inputs, in doctor-check order.
pub fn doctor_non_summary_capabilities() -> (r: [CompatibilityCapability; 5])
    ensures
        r@ == doctor_check_all(),
{
    let r = CompatibilityPolicy::DOCTOR_CHECK_ALL;
    assert(r@ =~= doctor_check_all());
    r
}

/// The reports of the primary inputs, in doctor-check order.
pub fn doctor_non_summary_reports<'a>(report: &'a DoctorReport) -> (r: Vec<&'a CapabilityReport>)
    ensures
        derefs(r@) == non_summary_reports(*report),
{
    let capabilities = doctor_non_summary_capabilities();
    let mut out: Vec<&'a CapabilityReport> = Vec::new();
    let mut i: usize = 0;
    while i < 5
        invariant
            i <= 5,
            capabilities@ == doctor_check_all(),
            out@.len() == i,
            derefs(out@) == non_summary_reports(*report).take(i as int),
        decreases 5 - i,
    {
        let item = report.capability(capabilities[i]);
        assert(*item == non_summary_reports(*report)[i as int]);
        let ghost before = out@;
        out.push(item);
        assert(out@ == before.push(item));
        assert(derefs(out@) =~= non_summary_reports(*report).take(i + 1)) by {
            assert forall|k: int| 0 <= k < i + 1 implies derefs(out@)[k] == non_summary_reports(
                *report,
            ).take(i + 1)[k] by {
                if k < i {
                    assert(derefs(before)[k] == non_summary_reports(*report).take(i as int)[k]);
                }
            }
        }
        i = i + 1;
    }
    assert(non_summary_reports(*report).take(5) =~= non_summary_reports(*report));
    out
}

/// The reports a summary capability is derived from.
pub fn doctor_summary_reports<'a>(
    report: &'a DoctorReport,
    capability: CompatibilityCapability,
) -> (r: Vec<&'a CapabilityReport>)
    ensures
        derefs(r@) == capability_summary_inputs(capability).map_values(
            |c: CompatibilityCapability| report_of(*report, c),
        ),
{
    let policy = CompatibilityPolicy::capability(capability);
    let ghost inputs = capability_summary_inputs(capability);
    let ghost wanted = inputs.map_values(|c: CompatibilityCapability| report_of(*report, c));
    let mut out: Vec<&'a CapabilityReport> = Vec::new();
    let mut i: usize = 0;
    while i < policy.summary_inputs.len()
        invariant
            policy.summary_inputs@ == inputs,
            wanted == inputs.map_values(|c: CompatibilityCapability| report_of(*report, c)),
            i <= inputs.len(),
            out@.len() == i,
            derefs(out@) == wanted.take(i as int),
        decreases inputs.len() - i,
    {
        let item = report.capability(policy.summary_inputs[i]);
        assert(*item == wanted[i as int]);
        let ghost before = out@;
        out.push(item);
        assert(derefs(out@) =~= wanted.take(i + 1)) by {
            assert forall|k: int| 0 <= k < i + 1 implies derefs(out@)[k] == wanted.take(i + 1)[k] by {
                if k < i {
                    assert(derefs(before)[k] == wanted.take(i as int)[k]);
                }
            }
        }
        i = i + 1;
    }
    assert(wanted.take(inputs.len() as int) =~= wanted);
    out
}

/// A report with every capability fully supported and nothing else known.
pub fn supported_report() -> (r: CapabilityReport)
    ensures
        r.status == CapabilityStatus::Supported,
        r.reasons@.len() == 0,
{
    CapabilityReport { status: CapabilityStatus::Supported, reasons: Vec::new() }
}

/// The doctor report of a host: every primary capability evaluated on its
/// own, the benchmark summarised from its inputs, the overall status the
/// worst primary status, and the issues the distinct primary reasons.
pub fn evaluate_doctor_report(context: &DoctorContext) -> (r: DoctorReport)
    ensures
        r.host_platform == context.host_platform,
        r.host_architecture == context.host_architecture,
        r.target_triple == context.target_triple,
        r.tools == context.tools,
        forall|i: int|
            0 <= i < doctor_check_all().len() ==> report_view(
                report_of(r, #[trigger] doctor_check_all()[i]),
            ) == primary_report(
                context.host_platform@,
                context.host_architecture@,
                context.tools,
                doctor_check_all()[i],
            ),
        r.benchmark.status == worst_status(seq![r.bench_compile.status, r.bench_runtime.status]),
        issues_view(r.benchmark.reasons@) == dedup_issues(
            issues_view(r.bench_compile.reasons@) + issues_view(r.bench_runtime.reasons@),
        ),
        r.overall_status == worst_status(statuses_of(non_summary_reports(r))),
        issues_view(r.issues@) == unique_reasons(non_summary_reports(r)),
{
    let mut report = DoctorReport {
        host_platform: context.host_platform.duplicate(),
        host_architecture: context.host_architecture.duplicate(),
        target_triple: clone_optional_string(&context.target_triple),
        overall_status: CapabilityStatus::Supported,
        macho_analysis: supported_report(),
        fixture_rebuild: supported_report(),
        fixture_drift_check: supported_report(),
        bench_compile: supported_report(),
        bench_runtime: supported_report(),
        benchmark: supported_report(),
        tools: context.tools.duplicate(),
        issues: Vec::new(),
    };
    let capabilities = doctor_non_summary_capabilities();
    let mut i: usize = 0;
    while i < 5
        invariant
            i <= 5,
            capabilities@ == doctor_check_all(),
            report.host_platform == context.host_platform,
            report.host_architecture == context.host_architecture,
            report.target_triple == context.target_triple,
            report.tools == context.tools,
            forall|k: int|
                0 <= k < i ==> report_view(report_of(report, #[trigger] doctor_check_all()[k]))
                    == primary_report(
                    context.host_platform@,
                    context.host_architecture@,
                    context.tools,
                    doctor_check_all()[k],
                ),
        decreases 5 - i,
    {
        let capability = capabilities[i];
        let evaluated = evaluate_primary_capability(context, capability);
        let slot = report.capability_mut(capability);
        *slot = evaluated;
        i = i + 1;
    }
    let summary = {
        let inputs = doctor_summary_reports(&report, CompatibilityCapability::Benchmark);
        proof {
            let d = derefs(inputs@);
            assert(statuses_of(d) =~= seq![report.bench_compile.status, report.bench_runtime.status]);
            assert(reasons_of(d) =~= seq![
                issues_view(report.bench_compile.reasons@),
                issues_view(report.bench_runtime.reasons@),
            ]);
            assert(flatten_issues(reasons_of(d)) =~= issues_view(report.bench_compile.reasons@)
                + issues_view(report.bench_runtime.reasons@)) by {
                reveal_with_fuel(flatten_issues, 3);
                assert(reasons_of(d).drop_last().drop_last() =~= Seq::<Seq<IssueView>>::empty());
                assert(Seq::<IssueView>::empty() + issues_view(report.bench_compile.reasons@)
                    =~= issues_view(report.bench_compile.reasons@));
            }
        }
        summarize_capability_reports(inputs.as_slice())
    };
    report.benchmark = summary;
    let (overall_status, issues) = {
        let non_summary = doctor_non_summary_reports(&report);
        let overall = summarize_capability_reports(non_summary.as_slice());
        (overall.status, overall.reasons)
    };
    let ghost before = report;
    report.issues = issues;
    report.overall_status = overall_status;
    assert(non_summary_reports(report) =~= non_summary_reports(before));
    report
}

/// Whether every capability a check covers is at least as well supported as
/// the check requires.
pub fn evaluate_doctor_check(report: &DoctorReport, request: DoctorCheckRequest) -> (r: DoctorCheckOutcome)
    ensures
        (r == DoctorCheckOutcome::Passed) == check_passes(*report, request),
{
    let required = match request.require_status {
        DoctorRequireStatus::Supported => CapabilityStatus::Supported,
        DoctorRequireStatus::SupportedWithDegradedFeatures => CapabilityStatus::SupportedWithDegradedFeatures,
    };
    let required_severity = capability_status_severity(required);
    let passes = match request.target {
        DoctorCheckTarget::All => {
            let capabilities = doctor_non_summary_capabilities();
            let mut all_pass = true;
            let mut i: usize = 0;
            while i < 5
                invariant
                    i <= 5,
                    capabilities@ == doctor_check_all(),
                    required_severity as nat == severity(required_status(request.require_status)),
                    all_pass == forall|k: int|
                        0 <= k < i ==> severity(report_of(*report, #[trigger] doctor_check_all()[k]).status)
                            <= required_severity,
                decreases 5 - i,
            {
                if capability_status_severity(report.capability(capabilities[i]).status) > required_severity {
                    all_pass = false;
                }
                i = i + 1;
            }
            all_pass
        },
        DoctorCheckTarget::MachoAnalysis => capability_status_severity(report.macho_analysis.status)
            <= required_severity,
        DoctorCheckTarget::FixtureRebuild => capability_status_severity(report.fixture_rebuild.status)
            <= required_severity,
        DoctorCheckTarget::FixtureDriftCheck => capability_status_severity(
            report.fixture_drift_check.status,
        ) <= required_severity,
        DoctorCheckTarget::BenchCompile => capability_status_severity(report.bench_compile.status)
            <= required_severity,
        DoctorCheckTarget::BenchRuntime => capability_status_severity(report.bench_runtime.status)
            <= required_severity,
    };
    proof {
        let ts = check_targets(request.target);
        if request.target != DoctorCheckTarget::All {
            assert(ts.len() == 1);
            assert(passes == (severity(report_of(*report, ts[0]).status) <= required_severity));
            if passes {
                assert forall|i: int| 0 <= i < ts.len() implies severity(
                    report_of(*report, #[trigger] ts[i]).status,
                ) <= severity(required_status(request.require_status)) by {
                    assert(i == 0);
                }
            }
        }
    }
    if passes {
        DoctorCheckOutcome::Passed
    } else {
        DoctorCheckOutcome::Failed
    }
}

/// The hash tool used for drift checks: the first usable of sha256sum,
/// shasum and openssl.
pub fn select_hash_tool(hash_tools: &HashToolStatus) -> (r: Option<&'static str>)
    ensures
        hash_tools.sha256sum.usable ==> r is Some && r->0@ == "sha256sum"@,
        !hash_tools.sha256sum.usable && hash_tools.shasum.usable ==> r is Some && r->0@
            == "shasum"@,
        !hash_tools.sha256sum.usable && !hash_tools.shasum.usable && hash_tools.openssl.usable
            ==> r is Some && r->0@ == "openssl"@,
        !hash_tools.sha256sum.usable && !hash_tools.shasum.usable && !hash_tools.openssl.usable
            ==> r is None,
{
    if hash_tools.sha256sum.usable {
        Some("sha256sum")
    } else if hash_tools.shasum.usable {
        Some("shasum")
    } else if hash_tools.openssl.usable {
        Some("openssl")
    } else {
        None
    }
}

/// The first position of `c` in `s`, when there is one.
pub open spec fn is_first_index(s: Seq<char>, c: char, k: int) -> bool {
    0 <= k < s.len() && s[k] == c && forall|j: int| 0 <= j < k ==> s[j] != c
}

/// The host pair a test-scenario name stands for: one of the named pairs,
/// or `unknown:<platform>:<architecture>`, split at the first colon after
/// the prefix.
pub open spec fn scenario_from_text(t: Seq<char>) -> Option<(HostPlatformView, HostArchitectureView)> {
    if t == "linux-arm64"@ {
        Some((HostPlatformView::Linux, HostArchitectureView::Arm64))
    } else if t == "linux-x86_64"@ {
        Some((HostPlatformView::Linux, HostArchitectureView::X86_64))
    } else if t == "macos-arm64"@ {
        Some((HostPlatformView::MacOS, HostArchitectureView::Arm64))
    } else if t == "macos-x86_64"@ {
        Some((HostPlatformView::MacOS, HostArchitectureView::X86_64))
    } else if t == "windows-x86_64"@ {
        Some((HostPlatformView::Windows, HostArchitectureView::X86_64))
    } else {
        let prefix = "unknown:"@;
        let rest = t.skip(prefix.len() as int);
        if prefix.len() <= t.len() && t.take(prefix.len() as int) == prefix && exists|k: int|
            is_first_index(rest, ':', k) {
            let k = choose|k: int| is_first_index(rest, ':', k);
            Some(
                (
                    HostPlatformView::Unknown(rest.take(k)),
                    HostArchitectureView::Unknown(rest.skip(k + 1)),
                ),
            )
        } else {
            None
        }
    }
}

/// The host pair a test-scenario name stands for.
pub fn parse_doctor_test_scenario(value: &str) -> (r: Option<(HostPlatform, HostArchitecture)>)
    ensures
        match r {
            Some((p, a)) => scenario_from_text(value@) == Some((p@, a@)),
            None => scenario_from_text(value@) is None,
        },
{
    if str_eq(value, "linux-arm64") {
        return Some((HostPlatform::Linux, HostArchitecture::Arm64));
    } else if str_eq(value, "linux-x86_64") {
        return Some((HostPlatform::Linux, HostArchitecture::X86_64));
    } else if str_eq(value, "macos-arm64") {
        return Some((HostPlatform::MacOS, HostArchitecture::Arm64));
    } else if str_eq(value, "macos-x86_64") {
        return Some((HostPlatform::MacOS, HostArchitecture::X86_64));
    } else if str_eq(value, "windows-x86_64") {
        return Some((HostPlatform::Windows, HostArchitecture::X86_64));
    }
    let v = chars_vec(value);
    let prefix = chars_vec("unknown:");
    if !starts_with_chars(&v, &prefix) {
        return None;
    }
    let start = prefix.len();
    let ghost rest = v@.skip(start as int);
    let mut i: usize = start;
    while i < v.len()
        invariant
            start <= i <= v@.len(),
            rest == v@.skip(start as int),
            v@ == value@,
            prefix@ == "unknown:"@,
            start == prefix@.len(),
            v@.take(start as int) == prefix@,
            value@ != "linux-arm64"@,
            value@ != "linux-x86_64"@,
            value@ != "macos-arm64"@,
            value@ != "macos-x86_64"@,
            value@ != "windows-x86_64"@,
            forall|j: int| 0 <= j < i - start ==> rest[j] != ':',
        decreases v@.len() - i,
    {
        if v[i] == ':' {
            let ghost k = (i - start) as int;
            assert(is_first_index(rest, ':', k));
            proof {
                let c = choose|k: int| is_first_index(rest, ':', k);
                assert(c == k) by {
                    if c < k {
                        assert(rest[c] != ':');
                    } else if c > k {
                        assert(rest[k] != ':');
                    }
                }
            }
            let platform = string_from_range(&v, start, i);
            let architecture = string_from_range(&v, i + 1, v.len());
            assert(platform@ =~= rest.take(k));
            assert(architecture@ =~= rest.skip(k + 1));
            return Some((HostPlatform::Unknown(platform), HostArchitecture::Unknown(architecture)));
        }
        i = i + 1;
    }
    assert forall|k: int| !is_first_index(rest, ':', k) by {
        if 0 <= k < rest.len() && rest[k] == ':' {
            assert(v@[start + k] == ':');
        }
    }
    None
}

} // verus!
