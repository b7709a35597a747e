//! The command line's error values and the small rules its commands share:
//! positive limits, truncated collections, and matching export kinds and
//! flags.

use vstd::prelude::*;

use crate::model::{ExportFlags, ExportKind};
use crate::text::{contains_chars, chars_vec, push_char, string_of};

verus! {

/// A command failure: a stable code, a message and optional details.
#[derive(Debug, Clone, PartialEq, Eq)]
pub struct CliRunError {
    pub code: &'static str,
    pub message: String,
    pub details: Option<String>,
}

/// An error as reported to the user.
#[derive(Debug, Clone, PartialEq, Eq)]
pub struct ErrorResponse {
    pub code: &'static str,
    pub message: String,
    pub details: Option<String>,
}

/// `e` carries this code and message and no details.
pub open spec fn error_is(e: CliRunError, code: Seq<char>, message: Seq<char>) -> bool {
    e.code@ == code && e.message@ == message && e.details is None
}

/// How an error is printed: `code: message`, then ` (details)` when there
/// are details.
pub open spec fn cli_error_text(e: CliRunError) -> Seq<char> {
    match e.details {
        Some(d) => e.code@ + ": "@ + e.message@ + " ("@ + d@ + seq![')'],
        None => e.code@ + ": "@ + e.message@,
    }
}

impl CliRunError {
    /// An error for arguments that cannot be used together or are out of
    /// range.
    pub fn invalid_args(message: &str) -> (r: CliRunError)
        ensures
            error_is(r, "invalid_args"@, message@),
    {
        CliRunError { code: "invalid_args", message: string_of(message), details: None }
    }

    /// An error a command reports under its own code.
    pub fn command(code: &'static str, message: &str) -> (r: CliRunError)
        ensures
            error_is(r, code@, message@),
    {
        CliRunError { code, message: string_of(message), details: None }
    }

    /// The error as reported to the user.
    pub fn to_error_response(&self) -> (r: ErrorResponse)
        ensures
            r.code == self.code,
            r.message == self.message,
            r.details == self.details,
    {
        let details = match &self.details {
            Some(d) => Some(d.clone()),
            None => None,
        };
        ErrorResponse { code: self.code, message: self.message.clone(), details }
    }

    /// The error as printed.
    pub fn to_text(&self) -> (r: String)
        ensures
            r@ == cli_error_text(*self),
    {
        let mut out = string_of(self.code);
        out.append(": ");
        out.append(self.message.as_str());
        match &self.details {
            Some(d) => {
                out.append(" (");
                out.append(d.as_str());
                push_char(&mut out, ')');
            },
            None => {},
        }
        out
    }
}

/// `flag must be greater than 0`.
pub open spec fn zero_limit_message(flag: Seq<char>) -> Seq<char> {
    flag + " must be greater than 0"@
}

/// A collection limit given on the command line: refused when zero.
pub fn normalize_limit(limit: Option<usize>, flag: &str) -> (r: Result<Option<usize>, CliRunError>)
    ensures
        limit == Some(0usize) ==> (r matches Err(e) && error_is(e, "invalid_args"@, zero_limit_message(flag@))),
        limit != Some(0usize) ==> r == Ok::<Option<usize>, CliRunError>(limit),
{
    if limit == Some(0usize) {
        let mut message = string_of(flag);
        message.append(" must be greater than 0");
        return Err(CliRunError::invalid_args(message.as_str()));
    }
    Ok(limit)
}

/// How many of a collection are shown, and whether that is fewer than all.
#[derive(Debug, Clone, Copy, PartialEq, Eq, Structural)]
pub struct CacheCollectionMetadata {
    pub total: usize,
    pub returned: usize,
    pub truncated: bool,
}

/// The metadata of a collection of `total` items shown under an optional
/// limit.
pub fn collection_metadata(total: usize, limit: Option<usize>) -> (r: CacheCollectionMetadata)
    ensures
        r.total == total,
        r.returned == match limit {
            Some(l) => if l < total { l } else { total },
            None => total,
        },
        r.truncated == (r.returned < total),
{
    let wanted = match limit {
        Some(l) => l,
        None => total,
    };
    let returned = if wanted < total { wanted } else { total };
    CacheCollectionMetadata { total, returned, truncated: returned < total }
}

/// The first `returned` values (all of them when there are fewer).
pub fn apply_limit<T>(values: Vec<T>, returned: usize) -> (r: Vec<T>)
    ensures
        r@ == if returned < values@.len() { values@.take(returned as int) } else { values@ },
{
    let mut values = values;
    values.truncate(returned);
    values
}

/// The kinds of export a listing can be narrowed to.
#[derive(Debug, Clone, Copy, PartialEq, Eq, Structural)]
pub enum ExportKindFilter {
    Regular,
    Reexport,
    Resolver,
    StubAndResolver,
    WeakDefinition,
    Absolute,
    ThreadLocal,
    Unknown,
}

/// The name of an export kind as a shared cache reports it.
pub open spec fn export_kind_name(filter: ExportKindFilter) -> Seq<char> {
    match filter {
        ExportKindFilter::Regular => "regular"@,
        ExportKindFilter::Reexport => "reexport"@,
        ExportKindFilter::Resolver => "resolver"@,
        ExportKindFilter::StubAndResolver => "stub-and-resolver"@,
        ExportKindFilter::WeakDefinition => "weak-definition"@,
        ExportKindFilter::Absolute => "absolute"@,
        ExportKindFilter::ThreadLocal => "thread-local"@,
        ExportKindFilter::Unknown => "unknown"@,
    }
}

/// The name of an export kind, for exec code.
fn export_kind_str(filter: ExportKindFilter) -> (r: &'static str)
    ensures
        r@ == export_kind_name(filter),
{
    match filter {
        ExportKindFilter::Regular => "regular",
        ExportKindFilter::Reexport => "reexport",
        ExportKindFilter::Resolver => "resolver",
        ExportKindFilter::StubAndResolver => "stub-and-resolver",
        ExportKindFilter::WeakDefinition => "weak-definition",
        ExportKindFilter::Absolute => "absolute",
        ExportKindFilter::ThreadLocal => "thread-local",
        ExportKindFilter::Unknown => "unknown",
    }
}

/// Whether an export kind reported by a shared cache is the one asked for.
pub fn matches_cache_export_kind(kind: &str, filter: ExportKindFilter) -> (r: bool)
    ensures
        r == (kind@ == export_kind_name(filter)),
{
    crate::text::str_eq(kind, export_kind_str(filter))
}

/// The export flags a listing can be narrowed to.
#[derive(Debug, Clone, Copy, PartialEq, Eq, Structural)]
pub enum ExportFlagFilter {
    WeakDefinition,
    Reexport,
    StubAndResolver,
    ThreadLocal,
    Absolute,
}

/// The text a shared cache's flag list holds when the flag is set.
pub open spec fn export_flag_pattern(flag: ExportFlagFilter) -> Seq<char> {
    match flag {
        ExportFlagFilter::WeakDefinition => "weak=true"@,
        ExportFlagFilter::Reexport => "reexport=true"@,
        ExportFlagFilter::StubAndResolver => "stub_and_resolver=true"@,
        ExportFlagFilter::ThreadLocal => "thread_local=true"@,
        ExportFlagFilter::Absolute => "absolute=true"@,
    }
}

/// The flag pattern, for exec code.
fn export_flag_str(flag: ExportFlagFilter) -> (r: &'static str)
    ensures
        r@ == export_flag_pattern(flag),
{
    match flag {
        ExportFlagFilter::WeakDefinition => "weak=true",
        ExportFlagFilter::Reexport => "reexport=true",
        ExportFlagFilter::StubAndResolver => "stub_and_resolver=true",
        ExportFlagFilter::ThreadLocal => "thread_local=true",
        ExportFlagFilter::Absolute => "absolute=true",
    }
}

/// Whether a shared cache's flag list shows the flag set.
pub fn cache_export_matches_flag(flags: &str, flag: ExportFlagFilter) -> (r: bool)
    ensures
        r == crate::text::contains_seq(flags@, export_flag_pattern(flag)),
{
    let hay = chars_vec(flags);
    let needle = chars_vec(export_flag_str(flag));
    contains_chars(&hay, &needle)
}

/// The variant's name, as a listing prints the filter.
pub open spec fn export_kind_filter_name(filter: ExportKindFilter) -> Seq<char> {
    match filter {
        ExportKindFilter::Regular => "Regular"@,
        ExportKindFilter::Reexport => "Reexport"@,
        ExportKindFilter::Resolver => "Resolver"@,
        ExportKindFilter::StubAndResolver => "StubAndResolver"@,
        ExportKindFilter::WeakDefinition => "WeakDefinition"@,
        ExportKindFilter::Absolute => "Absolute"@,
        ExportKindFilter::ThreadLocal => "ThreadLocal"@,
        ExportKindFilter::Unknown => "Unknown"@,
    }
}

/// The variant's name, as a listing prints the filter.
pub open spec fn export_flag_filter_name(flag: ExportFlagFilter) -> Seq<char> {
    match flag {
        ExportFlagFilter::WeakDefinition => "WeakDefinition"@,
        ExportFlagFilter::Reexport => "Reexport"@,
        ExportFlagFilter::StubAndResolver => "StubAndResolver"@,
        ExportFlagFilter::ThreadLocal => "ThreadLocal"@,
        ExportFlagFilter::Absolute => "Absolute"@,
    }
}

impl ExportKindFilter {
    /// The variant's name.
    pub fn name(&self) -> (r: &'static str)
        ensures
            r@ == export_kind_filter_name(*self),
    {
        match self {
            ExportKindFilter::Regular => "Regular",
            ExportKindFilter::Reexport => "Reexport",
            ExportKindFilter::Resolver => "Resolver",
            ExportKindFilter::StubAndResolver => "StubAndResolver",
            ExportKindFilter::WeakDefinition => "WeakDefinition",
            ExportKindFilter::Absolute => "Absolute",
            ExportKindFilter::ThreadLocal => "ThreadLocal",
            ExportKindFilter::Unknown => "Unknown",
        }
    }
}

impl ExportFlagFilter {
    /// The variant's name.
    pub fn name(&self) -> (r: &'static str)
        ensures
            r@ == export_flag_filter_name(*self),
    {
        match self {
            ExportFlagFilter::WeakDefinition => "WeakDefinition",
            ExportFlagFilter::Reexport => "Reexport",
            ExportFlagFilter::StubAndResolver => "StubAndResolver",
            ExportFlagFilter::ThreadLocal => "ThreadLocal",
            ExportFlagFilter::Absolute => "Absolute",
        }
    }
}

/// An export of kind `kind` is of the kind a filter asks for: the same
/// variant.
pub open spec fn kind_matches(kind: ExportKind, filter: ExportKindFilter) -> bool {
    match filter {
        ExportKindFilter::Regular => kind is Regular,
        ExportKindFilter::Reexport => kind is Reexport,
        ExportKindFilter::Resolver => kind is Resolver,
        ExportKindFilter::StubAndResolver => kind is StubAndResolver,
        ExportKindFilter::WeakDefinition => kind is WeakDefinition,
        ExportKindFilter::Absolute => kind is Absolute,
        ExportKindFilter::ThreadLocal => kind is ThreadLocal,
        ExportKindFilter::Unknown => kind is Unknown,
    }
}

/// An export with flag set `flags` carries the flag asked for.
pub open spec fn flag_set_has(flags: ExportFlags, flag: ExportFlagFilter) -> bool {
    match flag {
        ExportFlagFilter::WeakDefinition => flags.is_weak_definition,
        ExportFlagFilter::Reexport => flags.is_reexport,
        ExportFlagFilter::StubAndResolver => flags.is_stub_and_resolver,
        ExportFlagFilter::ThreadLocal => flags.is_thread_local,
        ExportFlagFilter::Absolute => flags.is_absolute,
    }
}

/// Whether an export's kind is the one a filter asks for.
pub fn export_matches_kind(kind: &ExportKind, filter: ExportKindFilter) -> (r: bool)
    ensures
        r == kind_matches(*kind, filter),
{
    match filter {
        ExportKindFilter::Regular => matches!(kind, ExportKind::Regular),
        ExportKindFilter::Reexport => matches!(kind, ExportKind::Reexport { .. }),
        ExportKindFilter::Resolver => matches!(kind, ExportKind::Resolver { .. }),
        ExportKindFilter::StubAndResolver => matches!(kind, ExportKind::StubAndResolver { .. }),
        ExportKindFilter::WeakDefinition => matches!(kind, ExportKind::WeakDefinition),
        ExportKindFilter::Absolute => matches!(kind, ExportKind::Absolute),
        ExportKindFilter::ThreadLocal => matches!(kind, ExportKind::ThreadLocal),
        ExportKindFilter::Unknown => matches!(kind, ExportKind::Unknown(_)),
    }
}

/// The flags a flag word sets, in the order the flag filter's variants
/// are declared.
pub open spec fn flag_names(flags: ExportFlags) -> Seq<ExportFlagFilter> {
    (if flags.is_weak_definition {
        seq![ExportFlagFilter::WeakDefinition]
    } else {
        seq![]
    }) + (if flags.is_reexport {
        seq![ExportFlagFilter::Reexport]
    } else {
        seq![]
    }) + (if flags.is_stub_and_resolver {
        seq![ExportFlagFilter::StubAndResolver]
    } else {
        seq![]
    }) + (if flags.is_thread_local {
        seq![ExportFlagFilter::ThreadLocal]
    } else {
        seq![]
    }) + (if flags.is_absolute {
        seq![ExportFlagFilter::Absolute]
    } else {
        seq![]
    })
}

/// Appends `flag` when `set`.
fn push_flag_if(names: &mut Vec<ExportFlagFilter>, set: bool, flag: ExportFlagFilter)
    ensures
        final(names)@ == old(names)@ + (if set {
            seq![flag]
        } else {
            seq![]
        }),
{
    if set {
        names.push(flag);
    }
    assert(names@ =~= old(names)@ + (if set {
        seq![flag]
    } else {
        seq![]
    }));
}

impl ExportFlags {
    /// The flags the word sets (see `flag_names`).
    pub fn flag_names(&self) -> (r: Vec<ExportFlagFilter>)
        ensures
            r@ == flag_names(*self),
    {
        let mut names: Vec<ExportFlagFilter> = Vec::new();
        push_flag_if(&mut names, self.is_weak_definition, ExportFlagFilter::WeakDefinition);
        push_flag_if(&mut names, self.is_reexport, ExportFlagFilter::Reexport);
        push_flag_if(&mut names, self.is_stub_and_resolver, ExportFlagFilter::StubAndResolver);
        push_flag_if(&mut names, self.is_thread_local, ExportFlagFilter::ThreadLocal);
        push_flag_if(&mut names, self.is_absolute, ExportFlagFilter::Absolute);
        assert(names@ =~= flag_names(*self));
        names
    }
}

/// Whether an export's flag set carries the flag a filter asks for.
pub fn export_matches_flag(flags: ExportFlags, flag: ExportFlagFilter) -> (r: bool)
    ensures
        r == flag_set_has(flags, flag),
{
    match flag {
        ExportFlagFilter::WeakDefinition => flags.is_weak_definition,
        ExportFlagFilter::Reexport => flags.is_reexport,
        ExportFlagFilter::StubAndResolver => flags.is_stub_and_resolver,
        ExportFlagFilter::ThreadLocal => flags.is_thread_local,
        ExportFlagFilter::Absolute => flags.is_absolute,
    }
}

} // verus!
