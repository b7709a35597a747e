//! Objective-C metadata records (classes, protocols, their methods,
//! properties and instance variables), the filters a listing applies to
//! them, and their JSON form.

use vstd::prelude::*;

use crate::json::{
    elements_view, json_view, members_view, opt_number_view, opt_str_view, opt_string, opt_u64,
    push_element, push_member, string_value, u64_num, JsonValue, JsonView,
};
use crate::listing::{contains_case_insensitive, passes};
use crate::model::{copy_opt_string, opt_text, ObjcMetadata};
use crate::dyld::{
    bool_word, counted_heading, counted_section, hex_or_dash, join_parts, labelled_line,
    named_section, part_if, push_bool_word, push_hex_or_dash, push_name_lines, push_text_line,
    push_text_or_dash, shown_lines, text_or_dash,
};
use crate::model::{join, push_str};
use crate::plain::{align_left, line_views, push_left};
use crate::text::{ascii_lower, contains_seq, decimal, hex, push_digits, push_hex, str_eq, string_of};

verus! {

/// Where a recovered Objective-C name came from.
#[derive(Debug, Clone, Copy, PartialEq, Eq, Structural)]
pub enum ObjcNameSource {
    Runtime,
    PointerTable,
    LegacyPool,
    Unresolved,
}

/// Where a method's selector came from.
#[derive(Debug, Clone, Copy, PartialEq, Eq, Structural)]
pub enum ObjcSelectorSource {
    Direct,
    Relative,
    LegacyPool,
    Unresolved,
}

/// What kind of record owns a method.
#[derive(Debug, Clone, Copy, PartialEq, Eq, Structural)]
pub enum ObjcMethodOwnerKind {
    Class,
    Metaclass,
    Protocol,
    Category,
}

/// The name of a name source, as its variant is written.
pub open spec fn name_source_name(s: ObjcNameSource) -> Seq<char> {
    match s {
        ObjcNameSource::Runtime => "Runtime"@,
        ObjcNameSource::PointerTable => "PointerTable"@,
        ObjcNameSource::LegacyPool => "LegacyPool"@,
        ObjcNameSource::Unresolved => "Unresolved"@,
    }
}

/// The name of a selector source, as its variant is written.
pub open spec fn selector_source_name(s: ObjcSelectorSource) -> Seq<char> {
    match s {
        ObjcSelectorSource::Direct => "Direct"@,
        ObjcSelectorSource::Relative => "Relative"@,
        ObjcSelectorSource::LegacyPool => "LegacyPool"@,
        ObjcSelectorSource::Unresolved => "Unresolved"@,
    }
}

/// The printed kind of a method's owner.
pub open spec fn owner_kind_text(k: ObjcMethodOwnerKind) -> Seq<char> {
    match k {
        ObjcMethodOwnerKind::Class => "class"@,
        ObjcMethodOwnerKind::Metaclass => "metaclass"@,
        ObjcMethodOwnerKind::Protocol => "protocol"@,
        ObjcMethodOwnerKind::Category => "category"@,
    }
}

impl ObjcNameSource {
    /// The variant's name.
    pub fn name(&self) -> (r: &'static str)
        ensures
            r@ == name_source_name(*self),
    {
        match self {
            ObjcNameSource::Runtime => "Runtime",
            ObjcNameSource::PointerTable => "PointerTable",
            ObjcNameSource::LegacyPool => "LegacyPool",
            ObjcNameSource::Unresolved => "Unresolved",
        }
    }
}

impl ObjcSelectorSource {
    /// The variant's name.
    pub fn name(&self) -> (r: &'static str)
        ensures
            r@ == selector_source_name(*self),
    {
        match self {
            ObjcSelectorSource::Direct => "Direct",
            ObjcSelectorSource::Relative => "Relative",
            ObjcSelectorSource::LegacyPool => "LegacyPool",
            ObjcSelectorSource::Unresolved => "Unresolved",
        }
    }
}

/// The printed kind of a method's owner.
pub fn objc_method_owner_kind_text(kind: ObjcMethodOwnerKind) -> (r: &'static str)
    ensures
        r@ == owner_kind_text(kind),
{
    match kind {
        ObjcMethodOwnerKind::Class => "class",
        ObjcMethodOwnerKind::Metaclass => "metaclass",
        ObjcMethodOwnerKind::Protocol => "protocol",
        ObjcMethodOwnerKind::Category => "category",
    }
}

/// One method of a class, metaclass, protocol or category.
#[derive(Debug, Clone, PartialEq, Eq)]
pub struct ObjcMethodRecord {
    pub owner_pointer: u64,
    pub owner_kind: ObjcMethodOwnerKind,
    pub is_class_method: bool,
    pub selector: Option<String>,
    pub selector_source: ObjcSelectorSource,
    pub implementation: Option<u64>,
    pub type_encoding: Option<String>,
}

/// One declared property.
#[derive(Debug, Clone, PartialEq, Eq)]
pub struct ObjcPropertyRecord {
    pub owner_pointer: u64,
    pub name: Option<String>,
    pub name_source: ObjcNameSource,
    pub attributes: Option<String>,
}

/// One instance variable.
#[derive(Debug, Clone, PartialEq, Eq)]
pub struct ObjcIvarRecord {
    pub owner_pointer: u64,
    pub name: Option<String>,
    pub name_source: ObjcNameSource,
    pub type_encoding: Option<String>,
    pub offset: Option<u64>,
}

/// One protocol.
#[derive(Debug, Clone, PartialEq, Eq)]
pub struct ObjcProtocolRecord {
    pub pointer: u64,
    pub name: Option<String>,
    pub name_source: ObjcNameSource,
    pub required_instance_methods: Vec<ObjcMethodRecord>,
    pub required_class_methods: Vec<ObjcMethodRecord>,
    pub optional_instance_methods: Vec<ObjcMethodRecord>,
    pub optional_class_methods: Vec<ObjcMethodRecord>,
    pub properties: Vec<ObjcPropertyRecord>,
}

/// One class, with the pointers to its lists and what they hold.
#[derive(Debug, Clone, PartialEq, Eq)]
pub struct ObjcClassRecord {
    pub class_pointer: u64,
    pub name: Option<String>,
    pub name_source: ObjcNameSource,
    pub superclass_pointer: Option<u64>,
    pub superclass_name: Option<String>,
    pub ro_pointer: Option<u64>,
    pub metaclass_pointer: Option<u64>,
    pub method_list_pointer: Option<u64>,
    pub property_list_pointer: Option<u64>,
    pub protocol_list_pointer: Option<u64>,
    pub ivar_list_pointer: Option<u64>,
    pub adopted_protocols: Vec<String>,
    pub methods: Vec<ObjcMethodRecord>,
    pub class_methods: Vec<ObjcMethodRecord>,
    pub properties: Vec<ObjcPropertyRecord>,
    pub ivars: Vec<ObjcIvarRecord>,
}

/// An optional string as JSON: the string, or null.
pub open spec fn opt_text_view(o: Option<String>) -> JsonView {
    opt_str_view(opt_text(o))
}

/// A method as JSON.
pub open spec fn method_view(m: ObjcMethodRecord) -> JsonView {
    JsonView::Object(
        seq![
            ("owner_pointer"@, JsonView::Number(decimal(m.owner_pointer as nat))),
            ("owner_kind"@, JsonView::Str(owner_kind_text(m.owner_kind))),
            ("is_class_method"@, JsonView::Bool(m.is_class_method)),
            ("selector"@, opt_text_view(m.selector)),
            ("selector_source"@, JsonView::Str(selector_source_name(m.selector_source))),
            ("implementation"@, opt_number_view(m.implementation)),
            ("type_encoding"@, opt_text_view(m.type_encoding)),
        ],
    )
}

/// A property as JSON.
pub open spec fn property_view(p: ObjcPropertyRecord) -> JsonView {
    JsonView::Object(
        seq![
            ("owner_pointer"@, JsonView::Number(decimal(p.owner_pointer as nat))),
            ("name"@, opt_text_view(p.name)),
            ("name_source"@, JsonView::Str(name_source_name(p.name_source))),
            ("attributes"@, opt_text_view(p.attributes)),
        ],
    )
}

/// An instance variable as JSON.
pub open spec fn ivar_view(v: ObjcIvarRecord) -> JsonView {
    JsonView::Object(
        seq![
            ("owner_pointer"@, JsonView::Number(decimal(v.owner_pointer as nat))),
            ("name"@, opt_text_view(v.name)),
            ("name_source"@, JsonView::Str(name_source_name(v.name_source))),
            ("type_encoding"@, opt_text_view(v.type_encoding)),
            ("offset"@, opt_number_view(v.offset)),
        ],
    )
}

/// The methods of a list as JSON.
pub open spec fn methods_view(ms: Seq<ObjcMethodRecord>) -> JsonView {
    JsonView::Array(ms.map_values(|x: ObjcMethodRecord| method_view(x)))
}

/// A protocol as JSON.
pub open spec fn protocol_view(p: ObjcProtocolRecord) -> JsonView {
    JsonView::Object(
        seq![
            ("pointer"@, JsonView::Number(decimal(p.pointer as nat))),
            ("name"@, opt_text_view(p.name)),
            ("name_source"@, JsonView::Str(name_source_name(p.name_source))),
            ("required_instance_methods"@, methods_view(p.required_instance_methods@)),
            ("required_class_methods"@, methods_view(p.required_class_methods@)),
            ("optional_instance_methods"@, methods_view(p.optional_instance_methods@)),
            ("optional_class_methods"@, methods_view(p.optional_class_methods@)),
            (
                "properties"@,
                JsonView::Array(p.properties@.map_values(|x: ObjcPropertyRecord| property_view(x))),
            ),
        ],
    )
}

/// A class as JSON.
pub open spec fn class_view(c: ObjcClassRecord) -> JsonView {
    JsonView::Object(
        seq![
            ("class_pointer"@, JsonView::Number(decimal(c.class_pointer as nat))),
            ("name"@, opt_text_view(c.name)),
            ("name_source"@, JsonView::Str(name_source_name(c.name_source))),
            ("superclass_pointer"@, opt_number_view(c.superclass_pointer)),
            ("superclass_name"@, opt_text_view(c.superclass_name)),
            ("ro_pointer"@, opt_number_view(c.ro_pointer)),
            ("metaclass_pointer"@, opt_number_view(c.metaclass_pointer)),
            ("method_list_pointer"@, opt_number_view(c.method_list_pointer)),
            ("property_list_pointer"@, opt_number_view(c.property_list_pointer)),
            ("protocol_list_pointer"@, opt_number_view(c.protocol_list_pointer)),
            ("ivar_list_pointer"@, opt_number_view(c.ivar_list_pointer)),
            (
                "adopted_protocols"@,
                JsonView::Array(c.adopted_protocols@.map_values(|x: String| JsonView::Str(x@))),
            ),
            ("methods"@, methods_view(c.methods@)),
            ("class_methods"@, methods_view(c.class_methods@)),
            (
                "properties"@,
                JsonView::Array(c.properties@.map_values(|x: ObjcPropertyRecord| property_view(x))),
            ),
            ("ivars"@, JsonView::Array(c.ivars@.map_values(|x: ObjcIvarRecord| ivar_view(x)))),
        ],
    )
}

/// A method as JSON.
pub fn objc_method_record_json(record: &ObjcMethodRecord) -> (r: JsonValue)
    ensures
        json_view(r) == method_view(*record),
{
    let mut fields: Vec<(String, JsonValue)> = Vec::new();
    push_member(&mut fields, "owner_pointer", u64_num(record.owner_pointer));
    push_member(&mut fields, "owner_kind", string_value(objc_method_owner_kind_text(record.owner_kind)));
    push_member(&mut fields, "is_class_method", JsonValue::Bool(record.is_class_method));
    push_member(&mut fields, "selector", opt_string(&record.selector));
    push_member(&mut fields, "selector_source", string_value(record.selector_source.name()));
    push_member(&mut fields, "implementation", opt_u64(record.implementation));
    push_member(&mut fields, "type_encoding", opt_string(&record.type_encoding));
    assert(members_view(fields@) =~= method_view(*record)->Object_0);
    JsonValue::Object(fields)
}

/// A property as JSON.
pub fn objc_property_record_json(record: &ObjcPropertyRecord) -> (r: JsonValue)
    ensures
        json_view(r) == property_view(*record),
{
    let mut fields: Vec<(String, JsonValue)> = Vec::new();
    push_member(&mut fields, "owner_pointer", u64_num(record.owner_pointer));
    push_member(&mut fields, "name", opt_string(&record.name));
    push_member(&mut fields, "name_source", string_value(record.name_source.name()));
    push_member(&mut fields, "attributes", opt_string(&record.attributes));
    assert(members_view(fields@) =~= property_view(*record)->Object_0);
    JsonValue::Object(fields)
}

/// An instance variable as JSON.
pub fn objc_ivar_record_json(record: &ObjcIvarRecord) -> (r: JsonValue)
    ensures
        json_view(r) == ivar_view(*record),
{
    let mut fields: Vec<(String, JsonValue)> = Vec::new();
    push_member(&mut fields, "owner_pointer", u64_num(record.owner_pointer));
    push_member(&mut fields, "name", opt_string(&record.name));
    push_member(&mut fields, "name_source", string_value(record.name_source.name()));
    push_member(&mut fields, "type_encoding", opt_string(&record.type_encoding));
    push_member(&mut fields, "offset", opt_u64(record.offset));
    assert(members_view(fields@) =~= ivar_view(*record)->Object_0);
    JsonValue::Object(fields)
}

/// A list of records as a JSON array, in order.
pub fn methods_json(records: &Vec<ObjcMethodRecord>) -> (r: JsonValue)
    ensures
        json_view(r) == JsonView::Array(records@.map_values(|x: ObjcMethodRecord| method_view(x))),
{
    let mut items: Vec<JsonValue> = Vec::new();
    let mut i: usize = 0;
    while i < records.len()
        invariant
            i <= records@.len(),
            elements_view(items@) == records@.take(i as int).map_values(|x: ObjcMethodRecord| method_view(x)),
        decreases records@.len() - i,
    {
        push_element(&mut items, objc_method_record_json(&records[i]));
        assert(records@.take(i + 1).map_values(|x: ObjcMethodRecord| method_view(x)) =~= records@.take(
            i as int,
        ).map_values(|x: ObjcMethodRecord| method_view(x)).push(method_view(records@[i as int])));
        i = i + 1;
    }
    assert(records@.take(records@.len() as int) =~= records@);
    JsonValue::Array(items)
}

/// A list of records as a JSON array, in order.
pub fn properties_json(records: &Vec<ObjcPropertyRecord>) -> (r: JsonValue)
    ensures
        json_view(r) == JsonView::Array(records@.map_values(|x: ObjcPropertyRecord| property_view(x))),
{
    let mut items: Vec<JsonValue> = Vec::new();
    let mut i: usize = 0;
    while i < records.len()
        invariant
            i <= records@.len(),
            elements_view(items@) == records@.take(i as int).map_values(|x: ObjcPropertyRecord| property_view(x)),
        decreases records@.len() - i,
    {
        push_element(&mut items, objc_property_record_json(&records[i]));
        assert(records@.take(i + 1).map_values(|x: ObjcPropertyRecord| property_view(x)) =~= records@.take(
            i as int,
        ).map_values(|x: ObjcPropertyRecord| property_view(x)).push(property_view(records@[i as int])));
        i = i + 1;
    }
    assert(records@.take(records@.len() as int) =~= records@);
    JsonValue::Array(items)
}

/// A list of records as a JSON array, in order.
pub fn ivars_json(records: &Vec<ObjcIvarRecord>) -> (r: JsonValue)
    ensures
        json_view(r) == JsonView::Array(records@.map_values(|x: ObjcIvarRecord| ivar_view(x))),
{
    let mut items: Vec<JsonValue> = Vec::new();
    let mut i: usize = 0;
    while i < records.len()
        invariant
            i <= records@.len(),
            elements_view(items@) == records@.take(i as int).map_values(|x: ObjcIvarRecord| ivar_view(x)),
        decreases records@.len() - i,
    {
        push_element(&mut items, objc_ivar_record_json(&records[i]));
        assert(records@.take(i + 1).map_values(|x: ObjcIvarRecord| ivar_view(x)) =~= records@.take(
            i as int,
        ).map_values(|x: ObjcIvarRecord| ivar_view(x)).push(ivar_view(records@[i as int])));
        i = i + 1;
    }
    assert(records@.take(records@.len() as int) =~= records@);
    JsonValue::Array(items)
}

/// A list of names as a JSON array of strings, in order.
pub fn names_json(names: &Vec<String>) -> (r: JsonValue)
    ensures
        json_view(r) == JsonView::Array(names@.map_values(|x: String| JsonView::Str(x@))),
{
    let mut items: Vec<JsonValue> = Vec::new();
    let mut i: usize = 0;
    while i < names.len()
        invariant
            i <= names@.len(),
            elements_view(items@) == names@.take(i as int).map_values(|x: String| JsonView::Str(x@)),
        decreases names@.len() - i,
    {
        push_element(&mut items, string_value(names[i].as_str()));
        assert(names@.take(i + 1).map_values(|x: String| JsonView::Str(x@)) =~= names@.take(
            i as int,
        ).map_values(|x: String| JsonView::Str(x@)).push(JsonView::Str(names@[i as int]@)));
        i = i + 1;
    }
    assert(names@.take(names@.len() as int) =~= names@);
    JsonValue::Array(items)
}

/// A protocol as JSON.
pub fn objc_protocol_record_json(record: &ObjcProtocolRecord) -> (r: JsonValue)
    ensures
        json_view(r) == protocol_view(*record),
{
    let mut fields: Vec<(String, JsonValue)> = Vec::new();
    push_member(&mut fields, "pointer", u64_num(record.pointer));
    push_member(&mut fields, "name", opt_string(&record.name));
    push_member(&mut fields, "name_source", string_value(record.name_source.name()));
    push_member(&mut fields, "required_instance_methods", methods_json(&record.required_instance_methods));
    push_member(&mut fields, "required_class_methods", methods_json(&record.required_class_methods));
    push_member(&mut fields, "optional_instance_methods", methods_json(&record.optional_instance_methods));
    push_member(&mut fields, "optional_class_methods", methods_json(&record.optional_class_methods));
    push_member(&mut fields, "properties", properties_json(&record.properties));
    assert(members_view(fields@) =~= protocol_view(*record)->Object_0);
    JsonValue::Object(fields)
}

/// A class as JSON.
pub fn objc_class_record_json(record: &ObjcClassRecord) -> (r: JsonValue)
    ensures
        json_view(r) == class_view(*record),
{
    let mut fields: Vec<(String, JsonValue)> = Vec::new();
    push_member(&mut fields, "class_pointer", u64_num(record.class_pointer));
    push_member(&mut fields, "name", opt_string(&record.name));
    push_member(&mut fields, "name_source", string_value(record.name_source.name()));
    push_member(&mut fields, "superclass_pointer", opt_u64(record.superclass_pointer));
    push_member(&mut fields, "superclass_name", opt_string(&record.superclass_name));
    push_member(&mut fields, "ro_pointer", opt_u64(record.ro_pointer));
    push_member(&mut fields, "metaclass_pointer", opt_u64(record.metaclass_pointer));
    push_member(&mut fields, "method_list_pointer", opt_u64(record.method_list_pointer));
    push_member(&mut fields, "property_list_pointer", opt_u64(record.property_list_pointer));
    push_member(&mut fields, "protocol_list_pointer", opt_u64(record.protocol_list_pointer));
    push_member(&mut fields, "ivar_list_pointer", opt_u64(record.ivar_list_pointer));
    push_member(&mut fields, "adopted_protocols", names_json(&record.adopted_protocols));
    push_member(&mut fields, "methods", methods_json(&record.methods));
    push_member(&mut fields, "class_methods", methods_json(&record.class_methods));
    push_member(&mut fields, "properties", properties_json(&record.properties));
    push_member(&mut fields, "ivars", ivars_json(&record.ivars));
    assert(members_view(fields@) =~= class_view(*record)->Object_0);
    JsonValue::Object(fields)
}

/// Whether an optional name passes an owner filter (an absent name never
/// does).
pub open spec fn name_passes(name: Option<String>, needle: Seq<char>) -> bool {
    match name {
        Some(n) => passes(Some(needle), n@),
        None => false,
    }
}

/// Whether an optional name contains the owner filter, ignoring case.
fn name_contains(name: &Option<String>, needle: &str) -> (r: bool)
    ensures
        r == name_passes(*name, needle@),
{
    match name {
        Some(n) => contains_case_insensitive(n.as_str(), needle),
        None => false,
    }
}

/// The classes a listing keeps: those whose name or superclass name
/// contains the owner filter, and whose name came from the given source.
pub open spec fn class_selected(
    c: ObjcClassRecord,
    owner: Option<Seq<char>>,
    name_source: Option<ObjcNameSource>,
) -> bool {
    &&& match owner {
        Some(o) => name_passes(c.name, o) || name_passes(c.superclass_name, o),
        None => true,
    }
    &&& match name_source {
        Some(s) => c.name_source == s,
        None => true,
    }
}

/// The protocols a listing keeps: those whose name contains the owner
/// filter, and whose name came from the given source.
pub open spec fn protocol_selected(
    p: ObjcProtocolRecord,
    owner: Option<Seq<char>>,
    name_source: Option<ObjcNameSource>,
) -> bool {
    &&& match owner {
        Some(o) => name_passes(p.name, o),
        None => true,
    }
    &&& match name_source {
        Some(s) => p.name_source == s,
        None => true,
    }
}

/// Whether a class passes a listing's owner and name-source filters.
pub fn objc_class_matches(
    record: &ObjcClassRecord,
    owner_filter: Option<&str>,
    name_source_filter: Option<ObjcNameSource>,
) -> (r: bool)
    ensures
        r == class_selected(
            *record,
            match owner_filter {
                Some(o) => Some(o@),
                None => None,
            },
            name_source_filter,
        ),
{
    let owner_ok = match owner_filter {
        Some(needle) => name_contains(&record.name, needle) || name_contains(
            &record.superclass_name,
            needle,
        ),
        None => true,
    };
    let source_ok = match name_source_filter {
        Some(source) => record.name_source == source,
        None => true,
    };
    owner_ok && source_ok
}

/// Whether a protocol passes a listing's owner and name-source filters.
pub fn objc_protocol_matches(
    record: &ObjcProtocolRecord,
    owner_filter: Option<&str>,
    name_source_filter: Option<ObjcNameSource>,
) -> (r: bool)
    ensures
        r == protocol_selected(
            *record,
            match owner_filter {
                Some(o) => Some(o@),
                None => None,
            },
            name_source_filter,
        ),
{
    let owner_ok = match owner_filter {
        Some(needle) => name_contains(&record.name, needle),
        None => true,
    };
    let source_ok = match name_source_filter {
        Some(source) => record.name_source == source,
        None => true,
    };
    owner_ok && source_ok
}

/// How a category record was found: in the runtime's category list, or
/// put together from symbols.
#[derive(Debug, Clone, Copy, PartialEq, Eq, Structural)]
pub enum ObjcCategoryRecordSource {
    RuntimeList,
    SymbolSynthesis,
}

/// The name of a category record source, as its variant is written.
pub open spec fn record_source_name(s: ObjcCategoryRecordSource) -> Seq<char> {
    match s {
        ObjcCategoryRecordSource::RuntimeList => "RuntimeList"@,
        ObjcCategoryRecordSource::SymbolSynthesis => "SymbolSynthesis"@,
    }
}

impl ObjcCategoryRecordSource {
    /// The variant's name.
    pub fn name(&self) -> (r: &'static str)
        ensures
            r@ == record_source_name(*self),
    {
        match self {
            ObjcCategoryRecordSource::RuntimeList => "RuntimeList",
            ObjcCategoryRecordSource::SymbolSynthesis => "SymbolSynthesis",
        }
    }
}

/// The categories a listing can be narrowed to by how they were found.
#[derive(Debug, Clone, Copy, PartialEq, Eq, Structural)]
pub enum ObjcCategorySourceFilter {
    RuntimeList,
    SymbolSynthesis,
    SymbolSynthesisWithLists,
}

/// The name of a category source filter, as its variant is written.
pub open spec fn category_source_name(s: ObjcCategorySourceFilter) -> Seq<char> {
    match s {
        ObjcCategorySourceFilter::RuntimeList => "RuntimeList"@,
        ObjcCategorySourceFilter::SymbolSynthesis => "SymbolSynthesis"@,
        ObjcCategorySourceFilter::SymbolSynthesisWithLists => "SymbolSynthesisWithLists"@,
    }
}

impl ObjcCategorySourceFilter {
    /// The variant's name.
    pub fn name(&self) -> (r: &'static str)
        ensures
            r@ == category_source_name(*self),
    {
        match self {
            ObjcCategorySourceFilter::RuntimeList => "RuntimeList",
            ObjcCategorySourceFilter::SymbolSynthesis => "SymbolSynthesis",
            ObjcCategorySourceFilter::SymbolSynthesisWithLists => "SymbolSynthesisWithLists",
        }
    }
}

/// One category: the class it extends, what it adds, the lists it points
/// to and how it was found.
#[derive(Debug, Clone, PartialEq, Eq)]
pub struct ObjcCategoryRecord {
    pub pointer: u64,
    pub name: Option<String>,
    pub name_source: ObjcNameSource,
    pub class_pointer: Option<u64>,
    pub class_name: Option<String>,
    pub class_name_source: ObjcNameSource,
    pub property_list_pointer: Option<u64>,
    pub protocol_list_pointer: Option<u64>,
    pub properties_source: ObjcCategoryRecordSource,
    pub protocols_source: ObjcCategoryRecordSource,
    pub record_source: ObjcCategoryRecordSource,
    pub methods: Vec<ObjcMethodRecord>,
    pub class_methods: Vec<ObjcMethodRecord>,
    pub properties: Vec<ObjcPropertyRecord>,
    pub adopted_protocols: Vec<String>,
}

/// A category is backed by lists when it points to a property or protocol
/// list.
pub open spec fn list_backed(c: ObjcCategoryRecord) -> bool {
    c.property_list_pointer is Some || c.protocol_list_pointer is Some
}

impl ObjcCategoryRecord {
    /// Whether the category is backed by lists (see `list_backed`).
    pub fn has_list_backing(&self) -> (r: bool)
        ensures
            r == list_backed(*self),
    {
        self.property_list_pointer.is_some() || self.protocol_list_pointer.is_some()
    }
}

/// The table an Objective-C pointer reference sits in.
#[derive(Debug, Clone, Copy, PartialEq, Eq, Structural)]
pub enum ObjcPointerKind {
    SelRef,
    ClassRef,
    ClassList,
}

/// The printed kind of a pointer table.
pub open spec fn pointer_kind_text(k: ObjcPointerKind) -> Seq<char> {
    match k {
        ObjcPointerKind::SelRef => "selref"@,
        ObjcPointerKind::ClassRef => "classref"@,
        ObjcPointerKind::ClassList => "classlist"@,
    }
}

/// The printed kind of a pointer table.
pub fn objc_pointer_kind_text(kind: ObjcPointerKind) -> (r: &'static str)
    ensures
        r@ == pointer_kind_text(kind),
{
    match kind {
        ObjcPointerKind::SelRef => "selref",
        ObjcPointerKind::ClassRef => "classref",
        ObjcPointerKind::ClassList => "classlist",
    }
}

/// One entry of a selector or class pointer table.
#[derive(Debug, Clone, PartialEq, Eq)]
pub struct ObjcPointerRef {
    pub kind: ObjcPointerKind,
    pub table_address: u64,
    pub raw_pointer: u64,
    pub resolved_address: Option<u64>,
    pub resolved_name: Option<String>,
}

/// A category as JSON.
pub open spec fn category_view(c: ObjcCategoryRecord) -> JsonView {
    JsonView::Object(
        seq![
            ("pointer"@, JsonView::Number(decimal(c.pointer as nat))),
            ("name"@, opt_text_view(c.name)),
            ("class_pointer"@, opt_number_view(c.class_pointer)),
            ("class_name"@, opt_text_view(c.class_name)),
            ("name_source"@, JsonView::Str(name_source_name(c.name_source))),
            ("class_name_source"@, JsonView::Str(name_source_name(c.class_name_source))),
            ("property_list_pointer"@, opt_number_view(c.property_list_pointer)),
            ("protocol_list_pointer"@, opt_number_view(c.protocol_list_pointer)),
            ("properties_source"@, JsonView::Str(record_source_name(c.properties_source))),
            ("protocols_source"@, JsonView::Str(record_source_name(c.protocols_source))),
            ("record_source"@, JsonView::Str(record_source_name(c.record_source))),
            (
                "adopted_protocols"@,
                JsonView::Array(c.adopted_protocols@.map_values(|x: String| JsonView::Str(x@))),
            ),
            ("methods"@, methods_view(c.methods@)),
            ("class_methods"@, methods_view(c.class_methods@)),
            (
                "properties"@,
                JsonView::Array(c.properties@.map_values(|x: ObjcPropertyRecord| property_view(x))),
            ),
        ],
    )
}

/// A pointer-table entry as JSON.
pub open spec fn pointer_ref_view(p: ObjcPointerRef) -> JsonView {
    JsonView::Object(
        seq![
            ("kind"@, JsonView::Str(pointer_kind_text(p.kind))),
            ("table_address"@, JsonView::Number(decimal(p.table_address as nat))),
            ("raw_pointer"@, JsonView::Number(decimal(p.raw_pointer as nat))),
            ("resolved_address"@, opt_number_view(p.resolved_address)),
            ("resolved_name"@, opt_text_view(p.resolved_name)),
        ],
    )
}

/// A category as JSON.
pub fn objc_category_record_json(record: &ObjcCategoryRecord) -> (r: JsonValue)
    ensures
        json_view(r) == category_view(*record),
{
    let mut fields: Vec<(String, JsonValue)> = Vec::new();
    push_member(&mut fields, "pointer", u64_num(record.pointer));
    push_member(&mut fields, "name", opt_string(&record.name));
    push_member(&mut fields, "class_pointer", opt_u64(record.class_pointer));
    push_member(&mut fields, "class_name", opt_string(&record.class_name));
    push_member(&mut fields, "name_source", string_value(record.name_source.name()));
    push_member(&mut fields, "class_name_source", string_value(record.class_name_source.name()));
    push_member(&mut fields, "property_list_pointer", opt_u64(record.property_list_pointer));
    push_member(&mut fields, "protocol_list_pointer", opt_u64(record.protocol_list_pointer));
    push_member(&mut fields, "properties_source", string_value(record.properties_source.name()));
    push_member(&mut fields, "protocols_source", string_value(record.protocols_source.name()));
    push_member(&mut fields, "record_source", string_value(record.record_source.name()));
    push_member(&mut fields, "adopted_protocols", names_json(&record.adopted_protocols));
    push_member(&mut fields, "methods", methods_json(&record.methods));
    push_member(&mut fields, "class_methods", methods_json(&record.class_methods));
    push_member(&mut fields, "properties", properties_json(&record.properties));
    assert(members_view(fields@) =~= category_view(*record)->Object_0);
    JsonValue::Object(fields)
}

/// A pointer-table entry as JSON.
pub fn objc_pointer_ref_json(entry: &ObjcPointerRef) -> (r: JsonValue)
    ensures
        json_view(r) == pointer_ref_view(*entry),
{
    let mut fields: Vec<(String, JsonValue)> = Vec::new();
    push_member(&mut fields, "kind", string_value(objc_pointer_kind_text(entry.kind)));
    push_member(&mut fields, "table_address", u64_num(entry.table_address));
    push_member(&mut fields, "raw_pointer", u64_num(entry.raw_pointer));
    push_member(&mut fields, "resolved_address", opt_u64(entry.resolved_address));
    push_member(&mut fields, "resolved_name", opt_string(&entry.resolved_name));
    assert(members_view(fields@) =~= pointer_ref_view(*entry)->Object_0);
    JsonValue::Object(fields)
}

/// The categories a listing keeps: those whose name or class name contains
/// the owner filter, and whose name or class name came from the given
/// source.
pub open spec fn category_selected(
    c: ObjcCategoryRecord,
    owner: Option<Seq<char>>,
    name_source: Option<ObjcNameSource>,
    category_source: Option<ObjcCategorySourceFilter>,
) -> bool {
    &&& match owner {
        Some(o) => name_passes(c.name, o) || name_passes(c.class_name, o),
        None => true,
    }
    &&& match name_source {
        Some(s) => c.name_source == s || c.class_name_source == s,
        None => true,
    }
    &&& match category_source {
        Some(f) => category_source_passes(c, f),
        None => true,
    }
}

/// A category was found the way a filter asks for: in the runtime list,
/// from symbols, or from symbols and backed by lists.
pub open spec fn category_source_passes(c: ObjcCategoryRecord, f: ObjcCategorySourceFilter) -> bool {
    match f {
        ObjcCategorySourceFilter::RuntimeList => c.record_source == ObjcCategoryRecordSource::RuntimeList,
        ObjcCategorySourceFilter::SymbolSynthesis => c.record_source
            == ObjcCategoryRecordSource::SymbolSynthesis,
        ObjcCategorySourceFilter::SymbolSynthesisWithLists => c.record_source
            == ObjcCategoryRecordSource::SymbolSynthesis && list_backed(c),
    }
}

/// Whether a category passes a listing's owner, name-source and
/// category-source filters.
pub fn objc_category_matches(
    record: &ObjcCategoryRecord,
    owner_filter: Option<&str>,
    name_source_filter: Option<ObjcNameSource>,
    category_source_filter: Option<ObjcCategorySourceFilter>,
) -> (r: bool)
    ensures
        r == category_selected(
            *record,
            match owner_filter {
                Some(o) => Some(o@),
                None => None,
            },
            name_source_filter,
            category_source_filter,
        ),
{
    let owner_ok = match owner_filter {
        Some(needle) => name_contains(&record.name, needle) || name_contains(&record.class_name, needle),
        None => true,
    };
    let source_ok = match name_source_filter {
        Some(source) => record.name_source == source || record.class_name_source == source,
        None => true,
    };
    let found_ok = match category_source_filter {
        Some(ObjcCategorySourceFilter::RuntimeList) => record.record_source
            == ObjcCategoryRecordSource::RuntimeList,
        Some(ObjcCategorySourceFilter::SymbolSynthesis) => record.record_source
            == ObjcCategoryRecordSource::SymbolSynthesis,
        Some(ObjcCategorySourceFilter::SymbolSynthesisWithLists) => record.record_source
            == ObjcCategoryRecordSource::SymbolSynthesis && record.has_list_backing(),
        None => true,
    };
    owner_ok && source_ok && found_ok
}

/// How much of the Objective-C metadata a listing shows.
#[derive(Debug, Clone, Copy, PartialEq, Eq, Structural)]
pub enum ObjcDetail {
    Summary,
    Classes,
    Protocols,
    Categories,
    Methods,
    Properties,
    Ivars,
    All,
}

/// What an Objective-C listing shows, and the filters it applies.
#[derive(Debug, Clone, PartialEq, Eq)]
pub struct ObjcViewOptions {
    pub detail: ObjcDetail,
    pub owner_filter: Option<String>,
    pub name_source_filter: Option<ObjcNameSource>,
    pub selector_source_filter: Option<ObjcSelectorSource>,
    pub category_source_filter: Option<ObjcCategorySourceFilter>,
}

/// A record listed together with the name of the class, protocol or
/// category that owns it.
#[derive(Debug)]
pub struct ObjcOwned<'a, T> {
    pub owner_name: Option<String>,
    pub record: &'a T,
}

/// The records an Objective-C listing keeps.
#[derive(Debug)]
pub struct FilteredObjcView<'a> {
    pub pointer_refs: Vec<&'a ObjcPointerRef>,
    pub classes: Vec<&'a ObjcClassRecord>,
    pub protocols: Vec<&'a ObjcProtocolRecord>,
    pub categories: Vec<&'a ObjcCategoryRecord>,
    pub methods: Vec<ObjcOwned<'a, ObjcMethodRecord>>,
    pub properties: Vec<ObjcOwned<'a, ObjcPropertyRecord>>,
    pub ivars: Vec<ObjcOwned<'a, ObjcIvarRecord>>,
}

/// A listed record with its owner's name.
pub type OwnedView<T> = (Option<Seq<char>>, T);

/// The records a listing keeps, as values.
pub struct ObjcSelection {
    pub pointer_refs: Seq<ObjcPointerRef>,
    pub classes: Seq<ObjcClassRecord>,
    pub protocols: Seq<ObjcProtocolRecord>,
    pub categories: Seq<ObjcCategoryRecord>,
    pub methods: Seq<OwnedView<ObjcMethodRecord>>,
    pub properties: Seq<OwnedView<ObjcPropertyRecord>>,
    pub ivars: Seq<OwnedView<ObjcIvarRecord>>,
}

/// The records behind a list of references.
pub open spec fn derefs<T>(s: Seq<&T>) -> Seq<T> {
    s.map_values(|x: &T| *x)
}

/// Owned records as values.
pub open spec fn owned_views<T>(s: Seq<ObjcOwned<T>>) -> Seq<OwnedView<T>> {
    s.map_values(|x: ObjcOwned<T>| (opt_text(x.owner_name), *x.record))
}

/// Each record of `list` with the owner name `owner`.
pub open spec fn owned_by<T>(owner: Option<Seq<char>>, list: Seq<T>) -> Seq<OwnedView<T>> {
    list.map_values(|x: T| (owner, x))
}

impl<'a> FilteredObjcView<'a> {
    /// The kept records as values.
    pub open spec fn selection(&self) -> ObjcSelection {
        ObjcSelection {
            pointer_refs: derefs(self.pointer_refs@),
            classes: derefs(self.classes@),
            protocols: derefs(self.protocols@),
            categories: derefs(self.categories@),
            methods: owned_views(self.methods@),
            properties: owned_views(self.properties@),
            ivars: owned_views(self.ivars@),
        }
    }
}

/// The name a category's records are listed under: its own name, else the
/// name of the class it extends.
pub open spec fn category_owner(c: ObjcCategoryRecord) -> Option<Seq<char>> {
    match c.name {
        Some(n) => Some(n@),
        None => opt_text(c.class_name),
    }
}

/// The methods of the kept classes: each class's instance methods, then
/// its class methods.
pub open spec fn class_methods_listed(cs: Seq<ObjcClassRecord>) -> Seq<OwnedView<ObjcMethodRecord>>
    decreases cs.len(),
{
    if cs.len() == 0 {
        Seq::empty()
    } else {
        let c = cs.last();
        class_methods_listed(cs.drop_last()) + owned_by(opt_text(c.name), c.methods@) + owned_by(
            opt_text(c.name),
            c.class_methods@,
        )
    }
}

/// The methods of the kept protocols: required instance, required class,
/// optional instance and optional class methods, in that order.
pub open spec fn protocol_methods_listed(ps: Seq<ObjcProtocolRecord>) -> Seq<OwnedView<ObjcMethodRecord>>
    decreases ps.len(),
{
    if ps.len() == 0 {
        Seq::empty()
    } else {
        let p = ps.last();
        let o = opt_text(p.name);
        protocol_methods_listed(ps.drop_last()) + owned_by(o, p.required_instance_methods@)
            + owned_by(o, p.required_class_methods@) + owned_by(o, p.optional_instance_methods@)
            + owned_by(o, p.optional_class_methods@)
    }
}

/// The methods of the kept categories: instance methods, then class
/// methods.
pub open spec fn category_methods_listed(cs: Seq<ObjcCategoryRecord>) -> Seq<OwnedView<ObjcMethodRecord>>
    decreases cs.len(),
{
    if cs.len() == 0 {
        Seq::empty()
    } else {
        let c = cs.last();
        category_methods_listed(cs.drop_last()) + owned_by(category_owner(c), c.methods@) + owned_by(
            category_owner(c),
            c.class_methods@,
        )
    }
}

/// The properties of the kept classes.
pub open spec fn class_properties_listed(cs: Seq<ObjcClassRecord>) -> Seq<OwnedView<ObjcPropertyRecord>>
    decreases cs.len(),
{
    if cs.len() == 0 {
        Seq::empty()
    } else {
        class_properties_listed(cs.drop_last()) + owned_by(opt_text(cs.last().name), cs.last().properties@)
    }
}

/// The properties of the kept protocols.
pub open spec fn protocol_properties_listed(ps: Seq<ObjcProtocolRecord>) -> Seq<OwnedView<ObjcPropertyRecord>>
    decreases ps.len(),
{
    if ps.len() == 0 {
        Seq::empty()
    } else {
        protocol_properties_listed(ps.drop_last()) + owned_by(opt_text(ps.last().name), ps.last().properties@)
    }
}

/// The properties of the kept categories.
pub open spec fn category_properties_listed(cs: Seq<ObjcCategoryRecord>) -> Seq<OwnedView<ObjcPropertyRecord>>
    decreases cs.len(),
{
    if cs.len() == 0 {
        Seq::empty()
    } else {
        category_properties_listed(cs.drop_last()) + owned_by(category_owner(cs.last()), cs.last().properties@)
    }
}

/// The instance variables of the kept classes.
pub open spec fn class_ivars_listed(cs: Seq<ObjcClassRecord>) -> Seq<OwnedView<ObjcIvarRecord>>
    decreases cs.len(),
{
    if cs.len() == 0 {
        Seq::empty()
    } else {
        class_ivars_listed(cs.drop_last()) + owned_by(opt_text(cs.last().name), cs.last().ivars@)
    }
}

/// Whether a listed method has the selector source asked for.
pub open spec fn method_kept(source: Option<ObjcSelectorSource>) -> spec_fn(OwnedView<ObjcMethodRecord>) -> bool {
    |e: OwnedView<ObjcMethodRecord>| match source {
        Some(s) => e.1.selector_source == s,
        None => true,
    }
}

/// Whether a listed property has the name source asked for.
pub open spec fn property_kept(source: Option<ObjcNameSource>) -> spec_fn(OwnedView<ObjcPropertyRecord>) -> bool {
    |e: OwnedView<ObjcPropertyRecord>| match source {
        Some(s) => e.1.name_source == s,
        None => true,
    }
}

/// Whether a listed instance variable has the name source asked for.
pub open spec fn ivar_kept(source: Option<ObjcNameSource>) -> spec_fn(OwnedView<ObjcIvarRecord>) -> bool {
    |e: OwnedView<ObjcIvarRecord>| match source {
        Some(s) => e.1.name_source == s,
        None => true,
    }
}

/// Whether `name` is the name of a kept class or protocol, or the class
/// name of a kept category.
pub open spec fn kept_name(
    classes: Seq<ObjcClassRecord>,
    protocols: Seq<ObjcProtocolRecord>,
    categories: Seq<ObjcCategoryRecord>,
    name: Seq<char>,
) -> bool {
    ||| exists|i: int| 0 <= i < classes.len() && opt_text(#[trigger] classes[i].name) == Some(name)
    ||| exists|i: int| 0 <= i < protocols.len() && opt_text(#[trigger] protocols[i].name) == Some(name)
    ||| exists|i: int|
        0 <= i < categories.len() && opt_text(#[trigger] categories[i].class_name) == Some(name)
}

/// Whether a pointer-table entry stays under an owner filter: its
/// resolved name is one of the kept names.
pub open spec fn pointer_ref_kept(
    classes: Seq<ObjcClassRecord>,
    protocols: Seq<ObjcProtocolRecord>,
    categories: Seq<ObjcCategoryRecord>,
) -> spec_fn(ObjcPointerRef) -> bool {
    |e: ObjcPointerRef| match e.resolved_name {
        Some(n) => kept_name(classes, protocols, categories, n@),
        None => false,
    }
}

/// What an Objective-C listing keeps: the classes, protocols and
/// categories that pass the owner and name-source filters (categories also
/// the category-source filter); the methods,
/// properties and instance variables of those records (classes first, then
/// protocols, then categories), narrowed by the selector or name source
/// asked for; and, under an owner filter, only the pointer-table entries
/// that resolve to a kept name.
#[verifier::opaque]
pub open spec fn objc_selection(objc: ObjcMetadata, view: ObjcViewOptions) -> ObjcSelection {
    let owner = opt_text(view.owner_filter);
    let ns = view.name_source_filter;
    let classes = objc.classes@.filter(|c: ObjcClassRecord| class_selected(c, owner, ns));
    let protocols = objc.protocols@.filter(|p: ObjcProtocolRecord| protocol_selected(p, owner, ns));
    let cs = view.category_source_filter;
    let categories = objc.categories@.filter(|c: ObjcCategoryRecord| category_selected(c, owner, ns, cs));
    ObjcSelection {
        pointer_refs: if owner is Some {
            objc.pointer_refs@.filter(pointer_ref_kept(classes, protocols, categories))
        } else {
            objc.pointer_refs@
        },
        classes,
        protocols,
        categories,
        methods: (class_methods_listed(classes) + protocol_methods_listed(protocols)
            + category_methods_listed(categories)).filter(method_kept(view.selector_source_filter)),
        properties: (class_properties_listed(classes) + protocol_properties_listed(protocols)
            + category_properties_listed(categories)).filter(property_kept(ns)),
        ivars: class_ivars_listed(classes).filter(ivar_kept(ns)),
    }
}

/// The classes a listing keeps (see `class_selected`), in order.
fn keep_classes<'a>(records: &'a Vec<ObjcClassRecord>, owner: &Option<String>, ns: Option<ObjcNameSource>) -> (r: Vec<&'a ObjcClassRecord>)
    ensures
        derefs(r@) == records@.filter(|c: ObjcClassRecord| class_selected(c, opt_text(*owner), ns)),
{
    let ghost pred = |c: ObjcClassRecord| class_selected(c, opt_text(*owner), ns);
    let needle: Option<&str> = match owner {
        Some(o) => Some(o.as_str()),
        None => None,
    };
    assert(match needle {
        Some(o) => Some(o@),
        None => None,
    } == opt_text(*owner));
    let mut kept: Vec<&'a ObjcClassRecord> = Vec::new();
    let mut i: usize = 0;
    while i < records.len()
        invariant
            i <= records@.len(),
            pred == (|c: ObjcClassRecord| class_selected(c, opt_text(*owner), ns)),
            match needle {
                Some(o) => Some(o@),
                None => None,
            } == opt_text(*owner),
            derefs(kept@) == records@.take(i as int).filter(pred),
        decreases records@.len() - i,
    {
        proof {
            crate::listing::lemma_filter_step(records@, i as int, pred);
        }
        let ghost before = kept@;
        if objc_class_matches(&records[i], needle, ns) {
            kept.push(&records[i]);
            assert(derefs(kept@) =~= derefs(before).push(records@[i as int]));
        }
        i = i + 1;
    }
    assert(records@.take(records@.len() as int) =~= records@);
    kept
}

/// The protocols a listing keeps (see `protocol_selected`), in order.
fn keep_protocols<'a>(records: &'a Vec<ObjcProtocolRecord>, owner: &Option<String>, ns: Option<ObjcNameSource>) -> (r: Vec<&'a ObjcProtocolRecord>)
    ensures
        derefs(r@) == records@.filter(|c: ObjcProtocolRecord| protocol_selected(c, opt_text(*owner), ns)),
{
    let ghost pred = |c: ObjcProtocolRecord| protocol_selected(c, opt_text(*owner), ns);
    let needle: Option<&str> = match owner {
        Some(o) => Some(o.as_str()),
        None => None,
    };
    assert(match needle {
        Some(o) => Some(o@),
        None => None,
    } == opt_text(*owner));
    let mut kept: Vec<&'a ObjcProtocolRecord> = Vec::new();
    let mut i: usize = 0;
    while i < records.len()
        invariant
            i <= records@.len(),
            pred == (|c: ObjcProtocolRecord| protocol_selected(c, opt_text(*owner), ns)),
            match needle {
                Some(o) => Some(o@),
                None => None,
            } == opt_text(*owner),
            derefs(kept@) == records@.take(i as int).filter(pred),
        decreases records@.len() - i,
    {
        proof {
            crate::listing::lemma_filter_step(records@, i as int, pred);
        }
        let ghost before = kept@;
        if objc_protocol_matches(&records[i], needle, ns) {
            kept.push(&records[i]);
            assert(derefs(kept@) =~= derefs(before).push(records@[i as int]));
        }
        i = i + 1;
    }
    assert(records@.take(records@.len() as int) =~= records@);
    kept
}

/// The categories a listing keeps (see `category_selected`), in order.
fn keep_categories<'a>(
    records: &'a Vec<ObjcCategoryRecord>,
    owner: &Option<String>,
    ns: Option<ObjcNameSource>,
    cs: Option<ObjcCategorySourceFilter>,
) -> (r: Vec<&'a ObjcCategoryRecord>)
    ensures
        derefs(r@) == records@.filter(|c: ObjcCategoryRecord| category_selected(c, opt_text(*owner), ns, cs)),
{
    let ghost pred = |c: ObjcCategoryRecord| category_selected(c, opt_text(*owner), ns, cs);
    let needle: Option<&str> = match owner {
        Some(o) => Some(o.as_str()),
        None => None,
    };
    assert(match needle {
        Some(o) => Some(o@),
        None => None,
    } == opt_text(*owner));
    let mut kept: Vec<&'a ObjcCategoryRecord> = Vec::new();
    let mut i: usize = 0;
    while i < records.len()
        invariant
            i <= records@.len(),
            pred == (|c: ObjcCategoryRecord| category_selected(c, opt_text(*owner), ns, cs)),
            match needle {
                Some(o) => Some(o@),
                None => None,
            } == opt_text(*owner),
            derefs(kept@) == records@.take(i as int).filter(pred),
        decreases records@.len() - i,
    {
        proof {
            crate::listing::lemma_filter_step(records@, i as int, pred);
        }
        let ghost before = kept@;
        if objc_category_matches(&records[i], needle, ns, cs) {
            kept.push(&records[i]);
            assert(derefs(kept@) =~= derefs(before).push(records@[i as int]));
        }
        i = i + 1;
    }
    assert(records@.take(records@.len() as int) =~= records@);
    kept
}

/// Appends each record of `list` with the owner name `owner`.
fn push_owned<'a, T>(out: &mut Vec<ObjcOwned<'a, T>>, owner: &Option<String>, list: &'a Vec<T>)
    ensures
        owned_views(final(out)@) == owned_views(old(out)@) + owned_by(opt_text(*owner), list@),
{
    let ghost start = owned_views(out@);
    let mut j: usize = 0;
    while j < list.len()
        invariant
            j <= list@.len(),
            owned_views(out@) == start + owned_by(opt_text(*owner), list@.take(j as int)),
        decreases list@.len() - j,
    {
        let ghost before = out@;
        out.push(ObjcOwned { owner_name: copy_opt_string(owner), record: &list[j] });
        assert(owned_views(out@) =~= owned_views(before).push((opt_text(*owner), list@[j as int])));
        assert(owned_by(opt_text(*owner), list@.take(j + 1)) =~= owned_by(
            opt_text(*owner),
            list@.take(j as int),
        ).push((opt_text(*owner), list@[j as int])));
        j = j + 1;
    }
    assert(list@.take(list@.len() as int) =~= list@);
}

/// The name a category's records are listed under (see `category_owner`).
fn category_owner_name(c: &ObjcCategoryRecord) -> (r: Option<String>)
    ensures
        opt_text(r) == category_owner(*c),
{
    match &c.name {
        Some(n) => Some(n.clone()),
        None => copy_opt_string(&c.class_name),
    }
}

/// Appends the methods of the kept classes (see `class_methods_listed`).
fn list_class_methods<'a>(out: &mut Vec<ObjcOwned<'a, ObjcMethodRecord>>, records: &Vec<&'a ObjcClassRecord>)
    ensures
        owned_views(final(out)@) == owned_views(old(out)@) + class_methods_listed(derefs(records@)),
{
    let ghost start = owned_views(out@);
    let ghost all = derefs(records@);
    let mut i: usize = 0;
    while i < records.len()
        invariant
            i <= records@.len(),
            all == derefs(records@),
            owned_views(out@) == start + class_methods_listed(all.take(i as int)),
        decreases records@.len() - i,
    {
        let rec: &'a ObjcClassRecord = records[i];
        let owner = copy_opt_string(&rec.name);
        push_owned(out, &owner, &rec.methods);
        push_owned(out, &owner, &rec.class_methods);
        assert(all.take(i + 1).drop_last() =~= all.take(i as int));
        assert(all.take(i + 1).last() == *rec);
        assert(owned_views(out@) =~= start + class_methods_listed(all.take(i + 1)));
        i = i + 1;
    }
    assert(all.take(all.len() as int) =~= all);
}

/// Appends the methods of the kept protocols (see `protocol_methods_listed`).
fn list_protocol_methods<'a>(out: &mut Vec<ObjcOwned<'a, ObjcMethodRecord>>, records: &Vec<&'a ObjcProtocolRecord>)
    ensures
        owned_views(final(out)@) == owned_views(old(out)@) + protocol_methods_listed(derefs(records@)),
{
    let ghost start = owned_views(out@);
    let ghost all = derefs(records@);
    let mut i: usize = 0;
    while i < records.len()
        invariant
            i <= records@.len(),
            all == derefs(records@),
            owned_views(out@) == start + protocol_methods_listed(all.take(i as int)),
        decreases records@.len() - i,
    {
        let rec: &'a ObjcProtocolRecord = records[i];
        let owner = copy_opt_string(&rec.name);
        push_owned(out, &owner, &rec.required_instance_methods);
        push_owned(out, &owner, &rec.required_class_methods);
        push_owned(out, &owner, &rec.optional_instance_methods);
        push_owned(out, &owner, &rec.optional_class_methods);
        assert(all.take(i + 1).drop_last() =~= all.take(i as int));
        assert(all.take(i + 1).last() == *rec);
        assert(owned_views(out@) =~= start + protocol_methods_listed(all.take(i + 1)));
        i = i + 1;
    }
    assert(all.take(all.len() as int) =~= all);
}

/// Appends the methods of the kept categories (see `category_methods_listed`).
fn list_category_methods<'a>(out: &mut Vec<ObjcOwned<'a, ObjcMethodRecord>>, records: &Vec<&'a ObjcCategoryRecord>)
    ensures
        owned_views(final(out)@) == owned_views(old(out)@) + category_methods_listed(derefs(records@)),
{
    let ghost start = owned_views(out@);
    let ghost all = derefs(records@);
    let mut i: usize = 0;
    while i < records.len()
        invariant
            i <= records@.len(),
            all == derefs(records@),
            owned_views(out@) == start + category_methods_listed(all.take(i as int)),
        decreases records@.len() - i,
    {
        let rec: &'a ObjcCategoryRecord = records[i];
        let owner = category_owner_name(rec);
        push_owned(out, &owner, &rec.methods);
        push_owned(out, &owner, &rec.class_methods);
        assert(all.take(i + 1).drop_last() =~= all.take(i as int));
        assert(all.take(i + 1).last() == *rec);
        assert(owned_views(out@) =~= start + category_methods_listed(all.take(i + 1)));
        i = i + 1;
    }
    assert(all.take(all.len() as int) =~= all);
}

/// Appends the properties of the kept classes (see `class_properties_listed`).
fn list_class_properties<'a>(out: &mut Vec<ObjcOwned<'a, ObjcPropertyRecord>>, records: &Vec<&'a ObjcClassRecord>)
    ensures
        owned_views(final(out)@) == owned_views(old(out)@) + class_properties_listed(derefs(records@)),
{
    let ghost start = owned_views(out@);
    let ghost all = derefs(records@);
    let mut i: usize = 0;
    while i < records.len()
        invariant
            i <= records@.len(),
            all == derefs(records@),
            owned_views(out@) == start + class_properties_listed(all.take(i as int)),
        decreases records@.len() - i,
    {
        let rec: &'a ObjcClassRecord = records[i];
        let owner = copy_opt_string(&rec.name);
        push_owned(out, &owner, &rec.properties);
        assert(all.take(i + 1).drop_last() =~= all.take(i as int));
        assert(all.take(i + 1).last() == *rec);
        assert(owned_views(out@) =~= start + class_properties_listed(all.take(i + 1)));
        i = i + 1;
    }
    assert(all.take(all.len() as int) =~= all);
}

/// Appends the properties of the kept protocols (see `protocol_properties_listed`).
fn list_protocol_properties<'a>(out: &mut Vec<ObjcOwned<'a, ObjcPropertyRecord>>, records: &Vec<&'a ObjcProtocolRecord>)
    ensures
        owned_views(final(out)@) == owned_views(old(out)@) + protocol_properties_listed(derefs(records@)),
{
    let ghost start = owned_views(out@);
    let ghost all = derefs(records@);
    let mut i: usize = 0;
    while i < records.len()
        invariant
            i <= records@.len(),
            all == derefs(records@),
            owned_views(out@) == start + protocol_properties_listed(all.take(i as int)),
        decreases records@.len() - i,
    {
        let rec: &'a ObjcProtocolRecord = records[i];
        let owner = copy_opt_string(&rec.name);
        push_owned(out, &owner, &rec.properties);
        assert(all.take(i + 1).drop_last() =~= all.take(i as int));
        assert(all.take(i + 1).last() == *rec);
        assert(owned_views(out@) =~= start + protocol_properties_listed(all.take(i + 1)));
        i = i + 1;
    }
    assert(all.take(all.len() as int) =~= all);
}

/// Appends the properties of the kept categories (see `category_properties_listed`).
fn list_category_properties<'a>(out: &mut Vec<ObjcOwned<'a, ObjcPropertyRecord>>, records: &Vec<&'a ObjcCategoryRecord>)
    ensures
        owned_views(final(out)@) == owned_views(old(out)@) + category_properties_listed(derefs(records@)),
{
    let ghost start = owned_views(out@);
    let ghost all = derefs(records@);
    let mut i: usize = 0;
    while i < records.len()
        invariant
            i <= records@.len(),
            all == derefs(records@),
            owned_views(out@) == start + category_properties_listed(all.take(i as int)),
        decreases records@.len() - i,
    {
        let rec: &'a ObjcCategoryRecord = records[i];
        let owner = category_owner_name(rec);
        push_owned(out, &owner, &rec.properties);
        assert(all.take(i + 1).drop_last() =~= all.take(i as int));
        assert(all.take(i + 1).last() == *rec);
        assert(owned_views(out@) =~= start + category_properties_listed(all.take(i + 1)));
        i = i + 1;
    }
    assert(all.take(all.len() as int) =~= all);
}

/// Appends the instance variables of the kept classes (see `class_ivars_listed`).
fn list_class_ivars<'a>(out: &mut Vec<ObjcOwned<'a, ObjcIvarRecord>>, records: &Vec<&'a ObjcClassRecord>)
    ensures
        owned_views(final(out)@) == owned_views(old(out)@) + class_ivars_listed(derefs(records@)),
{
    let ghost start = owned_views(out@);
    let ghost all = derefs(records@);
    let mut i: usize = 0;
    while i < records.len()
        invariant
            i <= records@.len(),
            all == derefs(records@),
            owned_views(out@) == start + class_ivars_listed(all.take(i as int)),
        decreases records@.len() - i,
    {
        let rec: &'a ObjcClassRecord = records[i];
        let owner = copy_opt_string(&rec.name);
        push_owned(out, &owner, &rec.ivars);
        assert(all.take(i + 1).drop_last() =~= all.take(i as int));
        assert(all.take(i + 1).last() == *rec);
        assert(owned_views(out@) =~= start + class_ivars_listed(all.take(i + 1)));
        i = i + 1;
    }
    assert(all.take(all.len() as int) =~= all);
}

/// The listed records that `method_kept` keeps, in order.
fn retain_methods<'a>(entries: Vec<ObjcOwned<'a, ObjcMethodRecord>>, source: Option<ObjcSelectorSource>) -> (r: Vec<ObjcOwned<'a, ObjcMethodRecord>>)
    ensures
        owned_views(r@) == owned_views(entries@).filter(method_kept(source)),
{
    let ghost all = owned_views(entries@);
    let ghost pred = method_kept(source);
    let mut kept: Vec<ObjcOwned<'a, ObjcMethodRecord>> = Vec::new();
    for e in it: entries.into_iter()
        invariant
            all == owned_views(it.seq()),
            pred == method_kept(source),
            owned_views(kept@) == all.take(it.index() as int).filter(pred),
    {
        let ghost k = it.index() as int;
        proof {
            crate::listing::lemma_filter_step(all, k, pred);
        }
        assert(all[k] == (opt_text(e.owner_name), *e.record));
        let ghost before = kept@;
        let keep = match source {
            Some(s) => e.record.selector_source == s,
            None => true,
        };
        if keep {
            kept.push(e);
            assert(owned_views(kept@) =~= owned_views(before).push(all[k]));
        }
    }
    assert(all.take(all.len() as int) =~= all);
    kept
}

/// The listed records that `property_kept` keeps, in order.
fn retain_properties<'a>(entries: Vec<ObjcOwned<'a, ObjcPropertyRecord>>, source: Option<ObjcNameSource>) -> (r: Vec<ObjcOwned<'a, ObjcPropertyRecord>>)
    ensures
        owned_views(r@) == owned_views(entries@).filter(property_kept(source)),
{
    let ghost all = owned_views(entries@);
    let ghost pred = property_kept(source);
    let mut kept: Vec<ObjcOwned<'a, ObjcPropertyRecord>> = Vec::new();
    for e in it: entries.into_iter()
        invariant
            all == owned_views(it.seq()),
            pred == property_kept(source),
            owned_views(kept@) == all.take(it.index() as int).filter(pred),
    {
        let ghost k = it.index() as int;
        proof {
            crate::listing::lemma_filter_step(all, k, pred);
        }
        assert(all[k] == (opt_text(e.owner_name), *e.record));
        let ghost before = kept@;
        let keep = match source {
            Some(s) => e.record.name_source == s,
            None => true,
        };
        if keep {
            kept.push(e);
            assert(owned_views(kept@) =~= owned_views(before).push(all[k]));
        }
    }
    assert(all.take(all.len() as int) =~= all);
    kept
}

/// The listed records that `ivar_kept` keeps, in order.
fn retain_ivars<'a>(entries: Vec<ObjcOwned<'a, ObjcIvarRecord>>, source: Option<ObjcNameSource>) -> (r: Vec<ObjcOwned<'a, ObjcIvarRecord>>)
    ensures
        owned_views(r@) == owned_views(entries@).filter(ivar_kept(source)),
{
    let ghost all = owned_views(entries@);
    let ghost pred = ivar_kept(source);
    let mut kept: Vec<ObjcOwned<'a, ObjcIvarRecord>> = Vec::new();
    for e in it: entries.into_iter()
        invariant
            all == owned_views(it.seq()),
            pred == ivar_kept(source),
            owned_views(kept@) == all.take(it.index() as int).filter(pred),
    {
        let ghost k = it.index() as int;
        proof {
            crate::listing::lemma_filter_step(all, k, pred);
        }
        assert(all[k] == (opt_text(e.owner_name), *e.record));
        let ghost before = kept@;
        let keep = match source {
            Some(s) => e.record.name_source == s,
            None => true,
        };
        if keep {
            kept.push(e);
            assert(owned_views(kept@) =~= owned_views(before).push(all[k]));
        }
    }
    assert(all.take(all.len() as int) =~= all);
    kept
}

/// Whether one of the kept classes' names is `name`.
fn class_named(records: &Vec<&ObjcClassRecord>, name: &String) -> (r: bool)
    ensures
        r == exists|i: int| 0 <= i < records@.len() && opt_text(#[trigger] derefs(records@)[i].name) == Some(name@),
{
    let ghost all = derefs(records@);
    let mut i: usize = 0;
    while i < records.len()
        invariant
            i <= records@.len(),
            all == derefs(records@),
            forall|j: int| 0 <= j < i ==> opt_text(#[trigger] all[j].name) != Some(name@),
        decreases records@.len() - i,
    {
        match &records[i].name {
            Some(n) => {
                if str_eq(n.as_str(), name.as_str()) {
                    assert(opt_text(all[i as int].name) == Some(name@));
                    return true;
                }
            },
            None => {},
        }
        assert(opt_text(all[i as int].name) != Some(name@));
        i = i + 1;
    }
    false
}

/// Whether one of the kept protocols' names is `name`.
fn protocol_named(records: &Vec<&ObjcProtocolRecord>, name: &String) -> (r: bool)
    ensures
        r == exists|i: int| 0 <= i < records@.len() && opt_text(#[trigger] derefs(records@)[i].name) == Some(name@),
{
    let ghost all = derefs(records@);
    let mut i: usize = 0;
    while i < records.len()
        invariant
            i <= records@.len(),
            all == derefs(records@),
            forall|j: int| 0 <= j < i ==> opt_text(#[trigger] all[j].name) != Some(name@),
        decreases records@.len() - i,
    {
        match &records[i].name {
            Some(n) => {
                if str_eq(n.as_str(), name.as_str()) {
                    assert(opt_text(all[i as int].name) == Some(name@));
                    return true;
                }
            },
            None => {},
        }
        assert(opt_text(all[i as int].name) != Some(name@));
        i = i + 1;
    }
    false
}

/// Whether one of the kept categories' class names is `name`.
fn category_class_named(records: &Vec<&ObjcCategoryRecord>, name: &String) -> (r: bool)
    ensures
        r == exists|i: int| 0 <= i < records@.len() && opt_text(#[trigger] derefs(records@)[i].class_name) == Some(name@),
{
    let ghost all = derefs(records@);
    let mut i: usize = 0;
    while i < records.len()
        invariant
            i <= records@.len(),
            all == derefs(records@),
            forall|j: int| 0 <= j < i ==> opt_text(#[trigger] all[j].class_name) != Some(name@),
        decreases records@.len() - i,
    {
        match &records[i].class_name {
            Some(n) => {
                if str_eq(n.as_str(), name.as_str()) {
                    assert(opt_text(all[i as int].class_name) == Some(name@));
                    return true;
                }
            },
            None => {},
        }
        assert(opt_text(all[i as int].class_name) != Some(name@));
        i = i + 1;
    }
    false
}

/// The pointer-table entries that resolve to a kept name, in order.
fn keep_pointer_refs<'a>(
    entries: &'a Vec<ObjcPointerRef>,
    classes: &Vec<&ObjcClassRecord>,
    protocols: &Vec<&ObjcProtocolRecord>,
    categories: &Vec<&ObjcCategoryRecord>,
) -> (r: Vec<&'a ObjcPointerRef>)
    ensures
        derefs(r@) == entries@.filter(
            pointer_ref_kept(derefs(classes@), derefs(protocols@), derefs(categories@)),
        ),
{
    let ghost pred = pointer_ref_kept(derefs(classes@), derefs(protocols@), derefs(categories@));
    let mut kept: Vec<&'a ObjcPointerRef> = Vec::new();
    let mut i: usize = 0;
    while i < entries.len()
        invariant
            i <= entries@.len(),
            pred == pointer_ref_kept(derefs(classes@), derefs(protocols@), derefs(categories@)),
            derefs(kept@) == entries@.take(i as int).filter(pred),
        decreases entries@.len() - i,
    {
        proof {
            crate::listing::lemma_filter_step(entries@, i as int, pred);
        }
        let ghost before = kept@;
        let keep = match &entries[i].resolved_name {
            Some(n) => class_named(classes, n) || protocol_named(protocols, n) || category_class_named(
                categories,
                n,
            ),
            None => false,
        };
        if keep {
            kept.push(&entries[i]);
            assert(derefs(kept@) =~= derefs(before).push(entries@[i as int]));
        }
        i = i + 1;
    }
    assert(entries@.take(entries@.len() as int) =~= entries@);
    kept
}

/// All pointer-table entries, in order.
fn all_pointer_refs<'a>(entries: &'a Vec<ObjcPointerRef>) -> (r: Vec<&'a ObjcPointerRef>)
    ensures
        derefs(r@) == entries@,
{
    let mut all: Vec<&'a ObjcPointerRef> = Vec::new();
    let mut i: usize = 0;
    while i < entries.len()
        invariant
            i <= entries@.len(),
            derefs(all@) == entries@.take(i as int),
        decreases entries@.len() - i,
    {
        let ghost before = all@;
        all.push(&entries[i]);
        assert(derefs(all@) =~= derefs(before).push(entries@[i as int]));
        assert(entries@.take(i + 1) =~= entries@.take(i as int).push(entries@[i as int]));
        i = i + 1;
    }
    assert(entries@.take(entries@.len() as int) =~= entries@);
    all
}

/// The records an Objective-C listing keeps (see `objc_selection`).
pub fn filter_objc_view<'a>(objc: &'a ObjcMetadata, view: &ObjcViewOptions) -> (r: FilteredObjcView<'a>)
    ensures
        r.selection() == objc_selection(*objc, *view),
{
    let ns = view.name_source_filter;
    let classes = keep_classes(&objc.classes, &view.owner_filter, ns);
    let protocols = keep_protocols(&objc.protocols, &view.owner_filter, ns);
    let categories = keep_categories(&objc.categories, &view.owner_filter, ns, view.category_source_filter);
    let mut methods: Vec<ObjcOwned<'a, ObjcMethodRecord>> = Vec::new();
    list_class_methods(&mut methods, &classes);
    list_protocol_methods(&mut methods, &protocols);
    list_category_methods(&mut methods, &categories);
    let mut properties: Vec<ObjcOwned<'a, ObjcPropertyRecord>> = Vec::new();
    list_class_properties(&mut properties, &classes);
    list_protocol_properties(&mut properties, &protocols);
    list_category_properties(&mut properties, &categories);
    let mut ivars: Vec<ObjcOwned<'a, ObjcIvarRecord>> = Vec::new();
    list_class_ivars(&mut ivars, &classes);
    let methods = retain_methods(methods, view.selector_source_filter);
    let properties = retain_properties(properties, ns);
    let ivars = retain_ivars(ivars, ns);
    let pointer_refs = match &view.owner_filter {
        Some(_) => keep_pointer_refs(&objc.pointer_refs, &classes, &protocols, &categories),
        None => all_pointer_refs(&objc.pointer_refs),
    };
    let r = FilteredObjcView { pointer_refs, classes, protocols, categories, methods, properties, ivars };
    proof {
        reveal(objc_selection);
    }
    assert(Seq::<OwnedView<ObjcMethodRecord>>::empty() + class_methods_listed(derefs(r.classes@))
        =~= class_methods_listed(derefs(r.classes@)));
    assert(Seq::<OwnedView<ObjcPropertyRecord>>::empty() + class_properties_listed(
        derefs(r.classes@),
    ) =~= class_properties_listed(derefs(r.classes@)));
    assert(Seq::<OwnedView<ObjcIvarRecord>>::empty() + class_ivars_listed(derefs(r.classes@))
        =~= class_ivars_listed(derefs(r.classes@)));
    r
}

/// A listed method as JSON: the method's members, then its owner's name.
pub open spec fn owned_method_view(e: OwnedView<ObjcMethodRecord>) -> JsonView {
    JsonView::Object(method_view(e.1)->Object_0.push(("owner_name"@, opt_str_view(e.0))))
}

/// A listed property as JSON: the property's members, then its owner's
/// name.
pub open spec fn owned_property_view(e: OwnedView<ObjcPropertyRecord>) -> JsonView {
    JsonView::Object(property_view(e.1)->Object_0.push(("owner_name"@, opt_str_view(e.0))))
}

/// A listed instance variable as JSON: its members, then its owner's name.
pub open spec fn owned_ivar_view(e: OwnedView<ObjcIvarRecord>) -> JsonView {
    JsonView::Object(ivar_view(e.1)->Object_0.push(("owner_name"@, opt_str_view(e.0))))
}

/// A listed method as JSON.
pub fn objc_method_view_json(view: &ObjcOwned<ObjcMethodRecord>) -> (r: JsonValue)
    ensures
        json_view(r) == owned_method_view((opt_text(view.owner_name), *view.record)),
{
    match objc_method_record_json(view.record) {
        JsonValue::Object(mut fields) => {
            push_member(&mut fields, "owner_name", opt_string(&view.owner_name));
            JsonValue::Object(fields)
        },
        other => other,
    }
}

/// A listed property as JSON.
pub fn objc_property_view_json(view: &ObjcOwned<ObjcPropertyRecord>) -> (r: JsonValue)
    ensures
        json_view(r) == owned_property_view((opt_text(view.owner_name), *view.record)),
{
    match objc_property_record_json(view.record) {
        JsonValue::Object(mut fields) => {
            push_member(&mut fields, "owner_name", opt_string(&view.owner_name));
            JsonValue::Object(fields)
        },
        other => other,
    }
}

/// A listed instance variable as JSON.
pub fn objc_ivar_view_json(view: &ObjcOwned<ObjcIvarRecord>) -> (r: JsonValue)
    ensures
        json_view(r) == owned_ivar_view((opt_text(view.owner_name), *view.record)),
{
    match objc_ivar_record_json(view.record) {
        JsonValue::Object(mut fields) => {
            push_member(&mut fields, "owner_name", opt_string(&view.owner_name));
            JsonValue::Object(fields)
        },
        other => other,
    }
}

/// Kept classes as a JSON array, in order.
fn kept_classes_json(records: &Vec<&ObjcClassRecord>) -> (r: JsonValue)
    ensures
        json_view(r) == JsonView::Array(records@.map_values(|x: &ObjcClassRecord| class_view(*x))),
{
    let ghost f = |x: &ObjcClassRecord| class_view(*x);
    let mut items: Vec<JsonValue> = Vec::new();
    let mut i: usize = 0;
    while i < records.len()
        invariant
            i <= records@.len(),
            f == (|x: &ObjcClassRecord| class_view(*x)),
            elements_view(items@) == records@.take(i as int).map_values(f),
        decreases records@.len() - i,
    {
        push_element(&mut items, objc_class_record_json(records[i]));
        assert(records@.take(i + 1).map_values(f) =~= records@.take(i as int).map_values(f).push(
            f(records@[i as int]),
        ));
        i = i + 1;
    }
    assert(records@.take(records@.len() as int) =~= records@);
    JsonValue::Array(items)
}

/// Kept protocols as a JSON array, in order.
fn kept_protocols_json(records: &Vec<&ObjcProtocolRecord>) -> (r: JsonValue)
    ensures
        json_view(r) == JsonView::Array(records@.map_values(|x: &ObjcProtocolRecord| protocol_view(*x))),
{
    let ghost f = |x: &ObjcProtocolRecord| protocol_view(*x);
    let mut items: Vec<JsonValue> = Vec::new();
    let mut i: usize = 0;
    while i < records.len()
        invariant
            i <= records@.len(),
            f == (|x: &ObjcProtocolRecord| protocol_view(*x)),
            elements_view(items@) == records@.take(i as int).map_values(f),
        decreases records@.len() - i,
    {
        push_element(&mut items, objc_protocol_record_json(records[i]));
        assert(records@.take(i + 1).map_values(f) =~= records@.take(i as int).map_values(f).push(
            f(records@[i as int]),
        ));
        i = i + 1;
    }
    assert(records@.take(records@.len() as int) =~= records@);
    JsonValue::Array(items)
}

/// Kept categories as a JSON array, in order.
fn kept_categories_json(records: &Vec<&ObjcCategoryRecord>) -> (r: JsonValue)
    ensures
        json_view(r) == JsonView::Array(records@.map_values(|x: &ObjcCategoryRecord| category_view(*x))),
{
    let ghost f = |x: &ObjcCategoryRecord| category_view(*x);
    let mut items: Vec<JsonValue> = Vec::new();
    let mut i: usize = 0;
    while i < records.len()
        invariant
            i <= records@.len(),
            f == (|x: &ObjcCategoryRecord| category_view(*x)),
            elements_view(items@) == records@.take(i as int).map_values(f),
        decreases records@.len() - i,
    {
        push_element(&mut items, objc_category_record_json(records[i]));
        assert(records@.take(i + 1).map_values(f) =~= records@.take(i as int).map_values(f).push(
            f(records@[i as int]),
        ));
        i = i + 1;
    }
    assert(records@.take(records@.len() as int) =~= records@);
    JsonValue::Array(items)
}

/// Kept pointer-table entries as a JSON array, in order.
fn kept_pointer_refs_json(records: &Vec<&ObjcPointerRef>) -> (r: JsonValue)
    ensures
        json_view(r) == JsonView::Array(records@.map_values(|x: &ObjcPointerRef| pointer_ref_view(*x))),
{
    let ghost f = |x: &ObjcPointerRef| pointer_ref_view(*x);
    let mut items: Vec<JsonValue> = Vec::new();
    let mut i: usize = 0;
    while i < records.len()
        invariant
            i <= records@.len(),
            f == (|x: &ObjcPointerRef| pointer_ref_view(*x)),
            elements_view(items@) == records@.take(i as int).map_values(f),
        decreases records@.len() - i,
    {
        push_element(&mut items, objc_pointer_ref_json(records[i]));
        assert(records@.take(i + 1).map_values(f) =~= records@.take(i as int).map_values(f).push(
            f(records@[i as int]),
        ));
        i = i + 1;
    }
    assert(records@.take(records@.len() as int) =~= records@);
    JsonValue::Array(items)
}

/// Listed methods as a JSON array, in order.
fn listed_methods_json(records: &Vec<ObjcOwned<ObjcMethodRecord>>) -> (r: JsonValue)
    ensures
        json_view(r) == JsonView::Array(records@.map_values(|x: ObjcOwned<ObjcMethodRecord>| owned_method_view((opt_text(x.owner_name), *x.record)))),
{
    let ghost f = |x: ObjcOwned<ObjcMethodRecord>| owned_method_view((opt_text(x.owner_name), *x.record));
    let mut items: Vec<JsonValue> = Vec::new();
    let mut i: usize = 0;
    while i < records.len()
        invariant
            i <= records@.len(),
            f == (|x: ObjcOwned<ObjcMethodRecord>| owned_method_view((opt_text(x.owner_name), *x.record))),
            elements_view(items@) == records@.take(i as int).map_values(f),
        decreases records@.len() - i,
    {
        push_element(&mut items, objc_method_view_json(&records[i]));
        assert(records@.take(i + 1).map_values(f) =~= records@.take(i as int).map_values(f).push(
            f(records@[i as int]),
        ));
        i = i + 1;
    }
    assert(records@.take(records@.len() as int) =~= records@);
    JsonValue::Array(items)
}

/// Listed properties as a JSON array, in order.
fn listed_properties_json(records: &Vec<ObjcOwned<ObjcPropertyRecord>>) -> (r: JsonValue)
    ensures
        json_view(r) == JsonView::Array(records@.map_values(|x: ObjcOwned<ObjcPropertyRecord>| owned_property_view((opt_text(x.owner_name), *x.record)))),
{
    let ghost f = |x: ObjcOwned<ObjcPropertyRecord>| owned_property_view((opt_text(x.owner_name), *x.record));
    let mut items: Vec<JsonValue> = Vec::new();
    let mut i: usize = 0;
    while i < records.len()
        invariant
            i <= records@.len(),
            f == (|x: ObjcOwned<ObjcPropertyRecord>| owned_property_view((opt_text(x.owner_name), *x.record))),
            elements_view(items@) == records@.take(i as int).map_values(f),
        decreases records@.len() - i,
    {
        push_element(&mut items, objc_property_view_json(&records[i]));
        assert(records@.take(i + 1).map_values(f) =~= records@.take(i as int).map_values(f).push(
            f(records@[i as int]),
        ));
        i = i + 1;
    }
    assert(records@.take(records@.len() as int) =~= records@);
    JsonValue::Array(items)
}

/// Listed instance variables as a JSON array, in order.
fn listed_ivars_json(records: &Vec<ObjcOwned<ObjcIvarRecord>>) -> (r: JsonValue)
    ensures
        json_view(r) == JsonView::Array(records@.map_values(|x: ObjcOwned<ObjcIvarRecord>| owned_ivar_view((opt_text(x.owner_name), *x.record)))),
{
    let ghost f = |x: ObjcOwned<ObjcIvarRecord>| owned_ivar_view((opt_text(x.owner_name), *x.record));
    let mut items: Vec<JsonValue> = Vec::new();
    let mut i: usize = 0;
    while i < records.len()
        invariant
            i <= records@.len(),
            f == (|x: ObjcOwned<ObjcIvarRecord>| owned_ivar_view((opt_text(x.owner_name), *x.record))),
            elements_view(items@) == records@.take(i as int).map_values(f),
        decreases records@.len() - i,
    {
        push_element(&mut items, objc_ivar_view_json(&records[i]));
        assert(records@.take(i + 1).map_values(f) =~= records@.take(i as int).map_values(f).push(
            f(records@[i as int]),
        ));
        i = i + 1;
    }
    assert(records@.take(records@.len() as int) =~= records@);
    JsonValue::Array(items)
}

/// The lower-case name of a detail level.
pub open spec fn detail_text(d: ObjcDetail) -> Seq<char> {
    match d {
        ObjcDetail::Summary => "summary"@,
        ObjcDetail::Classes => "classes"@,
        ObjcDetail::Protocols => "protocols"@,
        ObjcDetail::Categories => "categories"@,
        ObjcDetail::Methods => "methods"@,
        ObjcDetail::Properties => "properties"@,
        ObjcDetail::Ivars => "ivars"@,
        ObjcDetail::All => "all"@,
    }
}

/// The lower-case name of a detail level.
pub fn objc_detail_text(d: ObjcDetail) -> (r: &'static str)
    ensures
        r@ == detail_text(d),
{
    match d {
        ObjcDetail::Summary => "summary",
        ObjcDetail::Classes => "classes",
        ObjcDetail::Protocols => "protocols",
        ObjcDetail::Categories => "categories",
        ObjcDetail::Methods => "methods",
        ObjcDetail::Properties => "properties",
        ObjcDetail::Ivars => "ivars",
        ObjcDetail::All => "all",
    }
}

/// An array when `shown`, else an empty array.
pub open spec fn shown_or_empty(shown: bool, items: Seq<JsonView>) -> JsonView {
    if shown {
        JsonView::Array(items)
    } else {
        JsonView::Array(Seq::empty())
    }
}

/// The Objective-C listing as JSON: the request, the name tables, and the
/// kept records (see `objc_selection`); each group of records only at the
/// detail levels that show it (pointer-table entries only at `all`).
pub open spec fn objc_json_view(objc: ObjcMetadata, view: ObjcViewOptions) -> JsonView {
    let sel = objc_selection(objc, view);
    let d = view.detail;
    JsonView::Object(
        seq![
            ("requested_detail"@, JsonView::Str(detail_text(d))),
            ("owner_filter"@, opt_text_view(view.owner_filter)),
            (
                "name_source_filter"@,
                match view.name_source_filter {
                    Some(x) => JsonView::Str(name_source_name(x)),
                    None => JsonView::Null,
                },
            ),
            (
                "selector_source_filter"@,
                match view.selector_source_filter {
                    Some(x) => JsonView::Str(selector_source_name(x)),
                    None => JsonView::Null,
                },
            ),
            (
                "category_source_filter"@,
                match view.category_source_filter {
                    Some(x) => JsonView::Str(category_source_name(x)),
                    None => JsonView::Null,
                },
            ),
            (
                "image_info_flags"@,
                match objc.image_info_flags {
                    Some(f) => JsonView::Number(decimal(f as nat)),
                    None => JsonView::Null,
                },
            ),
            ("class_names"@, JsonView::Array(objc.class_names@.map_values(|x: String| JsonView::Str(x@)))),
            (
                "selector_names"@,
                JsonView::Array(objc.selector_names@.map_values(|x: String| JsonView::Str(x@))),
            ),
            ("method_names"@, JsonView::Array(objc.method_names@.map_values(|x: String| JsonView::Str(x@)))),
            (
                "pointer_refs"@,
                shown_or_empty(
                    d == ObjcDetail::All,
                    sel.pointer_refs.map_values(|x: ObjcPointerRef| pointer_ref_view(x)),
                ),
            ),
            (
                "classes"@,
                shown_or_empty(
                    d == ObjcDetail::Classes || d == ObjcDetail::All,
                    sel.classes.map_values(|x: ObjcClassRecord| class_view(x)),
                ),
            ),
            (
                "protocols"@,
                shown_or_empty(
                    d == ObjcDetail::Protocols || d == ObjcDetail::All,
                    sel.protocols.map_values(|x: ObjcProtocolRecord| protocol_view(x)),
                ),
            ),
            (
                "categories"@,
                shown_or_empty(
                    d == ObjcDetail::Categories || d == ObjcDetail::All,
                    sel.categories.map_values(|x: ObjcCategoryRecord| category_view(x)),
                ),
            ),
            (
                "methods"@,
                shown_or_empty(
                    d == ObjcDetail::Methods || d == ObjcDetail::All,
                    sel.methods.map_values(|x: OwnedView<ObjcMethodRecord>| owned_method_view(x)),
                ),
            ),
            (
                "properties"@,
                shown_or_empty(
                    d == ObjcDetail::Properties || d == ObjcDetail::All,
                    sel.properties.map_values(|x: OwnedView<ObjcPropertyRecord>| owned_property_view(x)),
                ),
            ),
            (
                "ivars"@,
                shown_or_empty(
                    d == ObjcDetail::Ivars || d == ObjcDetail::All,
                    sel.ivars.map_values(|x: OwnedView<ObjcIvarRecord>| owned_ivar_view(x)),
                ),
            ),
        ],
    )
}

/// An empty JSON array.
fn empty_array() -> (r: JsonValue)
    ensures
        json_view(r) == JsonView::Array(Seq::empty()),
{
    let items: Vec<JsonValue> = Vec::new();
    assert(elements_view(items@) =~= Seq::<JsonView>::empty());
    JsonValue::Array(items)
}

/// The kept pointer_refs as a JSON member value (see `shown_or_empty`).
fn pointer_refs_member(filtered: &FilteredObjcView, shown: bool) -> (r: JsonValue)
    ensures
        json_view(r) == shown_or_empty(
            shown,
            filtered.selection().pointer_refs.map_values(|x: ObjcPointerRef| pointer_ref_view(x)),
        ),
{
    assert(filtered.selection().pointer_refs.map_values(|x: ObjcPointerRef| pointer_ref_view(x)) =~= filtered.pointer_refs@.map_values(
        |x: &ObjcPointerRef| pointer_ref_view(*x),
    ));
    if shown {
        kept_pointer_refs_json(&filtered.pointer_refs)
    } else {
        empty_array()
    }
}

/// The kept classes as a JSON member value (see `shown_or_empty`).
fn classes_member(filtered: &FilteredObjcView, shown: bool) -> (r: JsonValue)
    ensures
        json_view(r) == shown_or_empty(
            shown,
            filtered.selection().classes.map_values(|x: ObjcClassRecord| class_view(x)),
        ),
{
    assert(filtered.selection().classes.map_values(|x: ObjcClassRecord| class_view(x)) =~= filtered.classes@.map_values(
        |x: &ObjcClassRecord| class_view(*x),
    ));
    if shown {
        kept_classes_json(&filtered.classes)
    } else {
        empty_array()
    }
}

/// The kept protocols as a JSON member value (see `shown_or_empty`).
fn protocols_member(filtered: &FilteredObjcView, shown: bool) -> (r: JsonValue)
    ensures
        json_view(r) == shown_or_empty(
            shown,
            filtered.selection().protocols.map_values(|x: ObjcProtocolRecord| protocol_view(x)),
        ),
{
    assert(filtered.selection().protocols.map_values(|x: ObjcProtocolRecord| protocol_view(x)) =~= filtered.protocols@.map_values(
        |x: &ObjcProtocolRecord| protocol_view(*x),
    ));
    if shown {
        kept_protocols_json(&filtered.protocols)
    } else {
        empty_array()
    }
}

/// The kept categories as a JSON member value (see `shown_or_empty`).
fn categories_member(filtered: &FilteredObjcView, shown: bool) -> (r: JsonValue)
    ensures
        json_view(r) == shown_or_empty(
            shown,
            filtered.selection().categories.map_values(|x: ObjcCategoryRecord| category_view(x)),
        ),
{
    assert(filtered.selection().categories.map_values(|x: ObjcCategoryRecord| category_view(x)) =~= filtered.categories@.map_values(
        |x: &ObjcCategoryRecord| category_view(*x),
    ));
    if shown {
        kept_categories_json(&filtered.categories)
    } else {
        empty_array()
    }
}

/// The kept methods as a JSON member value (see `shown_or_empty`).
fn methods_member(filtered: &FilteredObjcView, shown: bool) -> (r: JsonValue)
    ensures
        json_view(r) == shown_or_empty(
            shown,
            filtered.selection().methods.map_values(|x: OwnedView<ObjcMethodRecord>| owned_method_view(x)),
        ),
{
    assert(filtered.selection().methods.map_values(|x: OwnedView<ObjcMethodRecord>| owned_method_view(x)) =~= filtered.methods@.map_values(
        |x: ObjcOwned<ObjcMethodRecord>| owned_method_view((opt_text(x.owner_name), *x.record)),
    ));
    if shown {
        listed_methods_json(&filtered.methods)
    } else {
        empty_array()
    }
}

/// The kept properties as a JSON member value (see `shown_or_empty`).
fn properties_member(filtered: &FilteredObjcView, shown: bool) -> (r: JsonValue)
    ensures
        json_view(r) == shown_or_empty(
            shown,
            filtered.selection().properties.map_values(|x: OwnedView<ObjcPropertyRecord>| owned_property_view(x)),
        ),
{
    assert(filtered.selection().properties.map_values(|x: OwnedView<ObjcPropertyRecord>| owned_property_view(x)) =~= filtered.properties@.map_values(
        |x: ObjcOwned<ObjcPropertyRecord>| owned_property_view((opt_text(x.owner_name), *x.record)),
    ));
    if shown {
        listed_properties_json(&filtered.properties)
    } else {
        empty_array()
    }
}

/// The kept ivars as a JSON member value (see `shown_or_empty`).
fn ivars_member(filtered: &FilteredObjcView, shown: bool) -> (r: JsonValue)
    ensures
        json_view(r) == shown_or_empty(
            shown,
            filtered.selection().ivars.map_values(|x: OwnedView<ObjcIvarRecord>| owned_ivar_view(x)),
        ),
{
    assert(filtered.selection().ivars.map_values(|x: OwnedView<ObjcIvarRecord>| owned_ivar_view(x)) =~= filtered.ivars@.map_values(
        |x: ObjcOwned<ObjcIvarRecord>| owned_ivar_view((opt_text(x.owner_name), *x.record)),
    ));
    if shown {
        listed_ivars_json(&filtered.ivars)
    } else {
        empty_array()
    }
}

/// The Objective-C listing as JSON (see `objc_json_view`).
#[verifier::rlimit(40)]
pub fn objc_json(objc: &ObjcMetadata, view: &ObjcViewOptions) -> (r: JsonValue)
    ensures
        json_view(r) == objc_json_view(*objc, *view),
{
    let filtered = filter_objc_view(objc, view);
    let d = view.detail;
    let all = d == ObjcDetail::All;
    let mut fields: Vec<(String, JsonValue)> = Vec::new();
    push_member(&mut fields, "requested_detail", string_value(objc_detail_text(d)));
    push_member(&mut fields, "owner_filter", opt_string(&view.owner_filter));
    push_member(
        &mut fields,
        "name_source_filter",
        match view.name_source_filter {
            Some(x) => string_value(x.name()),
            None => JsonValue::Null,
        },
    );
    push_member(
        &mut fields,
        "selector_source_filter",
        match view.selector_source_filter {
            Some(x) => string_value(x.name()),
            None => JsonValue::Null,
        },
    );
    push_member(
        &mut fields,
        "category_source_filter",
        match view.category_source_filter {
            Some(x) => string_value(x.name()),
            None => JsonValue::Null,
        },
    );
    push_member(
        &mut fields,
        "image_info_flags",
        match objc.image_info_flags {
            Some(f) => u64_num(f as u64),
            None => JsonValue::Null,
        },
    );
    push_member(&mut fields, "class_names", names_json(&objc.class_names));
    push_member(&mut fields, "selector_names", names_json(&objc.selector_names));
    push_member(&mut fields, "method_names", names_json(&objc.method_names));
    push_member(&mut fields, "pointer_refs", pointer_refs_member(&filtered, all));
    push_member(&mut fields, "classes", classes_member(&filtered, all || d == ObjcDetail::Classes));
    push_member(&mut fields, "protocols", protocols_member(&filtered, all || d == ObjcDetail::Protocols));
    push_member(
        &mut fields,
        "categories",
        categories_member(&filtered, all || d == ObjcDetail::Categories),
    );
    push_member(&mut fields, "methods", methods_member(&filtered, all || d == ObjcDetail::Methods));
    push_member(
        &mut fields,
        "properties",
        properties_member(&filtered, all || d == ObjcDetail::Properties),
    );
    push_member(&mut fields, "ivars", ivars_member(&filtered, all || d == ObjcDetail::Ivars));
    assert(members_view(fields@) =~= objc_json_view(*objc, *view)->Object_0);
    JsonValue::Object(fields)
}

/// An optional owner name, `-` when absent.
pub open spec fn owner_or_dash(o: Option<Seq<char>>) -> Seq<char> {
    match o {
        Some(t) => t,
        None => "-"@,
    }
}

/// What a class line shows as the superclass: its name, else its pointer,
/// else `-`.
pub open spec fn superclass_text(c: ObjcClassRecord) -> Seq<char> {
    match c.superclass_name {
        Some(n) => n@,
        None => hex_or_dash(c.superclass_pointer),
    }
}

/// A kept class as a listing line.
pub open spec fn class_line(c: ObjcClassRecord) -> Seq<char> {
    "  "@ + hex(c.class_pointer as nat) + " name="@ + text_or_dash(c.name) + " source="@
        + name_source_name(c.name_source) + " superclass="@ + superclass_text(c) + " metaclass="@
        + hex_or_dash(c.metaclass_pointer) + " ro="@ + hex_or_dash(c.ro_pointer) + " methods="@
        + decimal(c.methods@.len()) + " class_methods="@ + decimal(c.class_methods@.len())
        + " properties="@ + decimal(c.properties@.len()) + " ivars="@ + decimal(c.ivars@.len())
        + " protocols="@ + decimal(c.adopted_protocols@.len())
}

/// A kept protocol as a listing line.
pub open spec fn protocol_line(p: ObjcProtocolRecord) -> Seq<char> {
    "  "@ + hex(p.pointer as nat) + " "@ + text_or_dash(p.name) + " source="@ + name_source_name(
        p.name_source,
    ) + " required_inst="@ + decimal(p.required_instance_methods@.len()) + " required_class="@
        + decimal(p.required_class_methods@.len()) + " optional_inst="@ + decimal(
        p.optional_instance_methods@.len(),
    ) + " optional_class="@ + decimal(p.optional_class_methods@.len()) + " properties="@ + decimal(
        p.properties@.len(),
    )
}

/// A kept category as a listing line.
pub open spec fn category_line(c: ObjcCategoryRecord) -> Seq<char> {
    "  "@ + hex(c.pointer as nat) + " name="@ + text_or_dash(c.name) + " name_source="@
        + name_source_name(c.name_source) + " record_source="@ + record_source_name(c.record_source)
        + " class="@ + text_or_dash(c.class_name) + " class_source="@
        + name_source_name(c.class_name_source) + " class_ptr="@ + hex_or_dash(c.class_pointer)
        + " prop_list="@ + hex_or_dash(c.property_list_pointer) + " proto_list="@ + hex_or_dash(
        c.protocol_list_pointer,
    ) + " props_source="@ + record_source_name(c.properties_source) + " protos_source="@
        + record_source_name(c.protocols_source) + " methods="@ + decimal(c.methods@.len()) + " class_methods="@ + decimal(
        c.class_methods@.len(),
    ) + " properties="@ + decimal(c.properties@.len()) + " protocols="@ + decimal(
        c.adopted_protocols@.len(),
    )
}

/// A listed method as a listing line.
pub open spec fn method_line(e: OwnedView<ObjcMethodRecord>) -> Seq<char> {
    "  owner="@ + owner_or_dash(e.0) + " kind="@ + owner_kind_text(e.1.owner_kind)
        + " class_method="@ + bool_word(e.1.is_class_method) + " selector="@ + text_or_dash(
        e.1.selector,
    ) + " selector_source="@ + selector_source_name(e.1.selector_source) + " impl="@ + hex_or_dash(
        e.1.implementation,
    ) + " types="@ + text_or_dash(e.1.type_encoding)
}

/// A listed property as a listing line.
pub open spec fn property_line(e: OwnedView<ObjcPropertyRecord>) -> Seq<char> {
    "  owner="@ + owner_or_dash(e.0) + " name="@ + text_or_dash(e.1.name) + " source="@
        + name_source_name(e.1.name_source) + " attrs="@ + text_or_dash(e.1.attributes)
}

/// A listed instance variable as a listing line.
pub open spec fn ivar_line(e: OwnedView<ObjcIvarRecord>) -> Seq<char> {
    "  owner="@ + owner_or_dash(e.0) + " name="@ + text_or_dash(e.1.name) + " source="@
        + name_source_name(e.1.name_source) + " type="@ + text_or_dash(e.1.type_encoding)
        + " offset="@ + hex_or_dash(e.1.offset)
}

/// A kept pointer-table entry as a listing line.
pub open spec fn pointer_ref_line(p: ObjcPointerRef) -> Seq<char> {
    "  "@ + align_left(pointer_kind_text(p.kind), 10) + " table="@ + hex(p.table_address as nat)
        + " raw="@ + hex(p.raw_pointer as nat) + " resolved_addr="@ + hex_or_dash(p.resolved_address)
        + " resolved_name="@ + text_or_dash(p.resolved_name)
}

/// The filters an Objective-C listing applies, as `key=value` parts.
pub open spec fn objc_filter_parts(v: ObjcViewOptions) -> Seq<Seq<char>> {
    part_if(v.owner_filter is Some, "owner="@ + text_or_dash(v.owner_filter)) + part_if(
        v.name_source_filter is Some,
        "name_source="@ + name_source_name(v.name_source_filter->0),
    ) + part_if(
        v.selector_source_filter is Some,
        "selector_source="@ + selector_source_name(v.selector_source_filter->0),
    ) + part_if(
        v.category_source_filter is Some,
        "category_source="@ + category_source_name(v.category_source_filter->0),
    )
}

/// The summary line of an Objective-C listing.
pub open spec fn objc_summary_line(o: ObjcMetadata) -> Seq<char> {
    "summary: class_names="@ + decimal(o.class_names@.len()) + " selectors="@ + decimal(
        o.selector_names@.len(),
    ) + " methods="@ + decimal(o.method_names@.len()) + " pointer_refs="@ + decimal(
        o.pointer_refs@.len(),
    ) + " classes="@ + decimal(o.classes@.len()) + " protocols="@ + decimal(o.protocols@.len())
        + " categories="@ + decimal(o.categories@.len())
}

/// How many methods the metadata holds in all.
pub open spec fn total_methods(o: ObjcMetadata) -> nat {
    class_methods_listed(o.classes@).len() + protocol_methods_listed(o.protocols@).len()
        + category_methods_listed(o.categories@).len()
}

/// How many properties the metadata holds in all.
pub open spec fn total_properties(o: ObjcMetadata) -> nat {
    class_properties_listed(o.classes@).len() + protocol_properties_listed(o.protocols@).len()
        + category_properties_listed(o.categories@).len()
}

/// The Objective-C listing as text lines, for the kept records `sel`: the
/// image-info flags when known, the summary, the active filters when any,
/// the name tables at `all`, then each non-empty group of kept records the
/// detail level shows (pointer-table entries only at `all`).
pub open spec fn objc_lines_of(o: ObjcMetadata, v: ObjcViewOptions, sel: ObjcSelection) -> Seq<Seq<char>> {
    let d = v.detail;
    let all = d == ObjcDetail::All;
    let parts = objc_filter_parts(v);
    (match o.image_info_flags {
        Some(f) => seq!["image_info_flags: "@ + hex(f as nat)],
        None => seq![],
    }) + seq![objc_summary_line(o)] + shown_lines(
        parts.len() > 0,
        seq!["active_filters: "@ + join(parts, " "@)],
    ) + shown_lines(
        all,
        named_section("classes:"@, o.class_names@) + named_section("selectors:"@, o.selector_names@)
            + named_section("methods:"@, o.method_names@),
    ) + shown_lines(
        sel.classes.len() > 0 && (d == ObjcDetail::Classes || all),
        counted_section(
            "class_records"@,
            sel.classes.len(),
            o.classes@.len(),
            sel.classes.map_values(|c: ObjcClassRecord| class_line(c)),
        ),
    ) + shown_lines(
        sel.protocols.len() > 0 && (d == ObjcDetail::Protocols || all),
        counted_section(
            "protocol_records"@,
            sel.protocols.len(),
            o.protocols@.len(),
            sel.protocols.map_values(|p: ObjcProtocolRecord| protocol_line(p)),
        ),
    ) + shown_lines(
        sel.categories.len() > 0 && (d == ObjcDetail::Categories || all),
        counted_section(
            "category_records"@,
            sel.categories.len(),
            o.categories@.len(),
            sel.categories.map_values(|c: ObjcCategoryRecord| category_line(c)),
        ),
    ) + shown_lines(
        sel.methods.len() > 0 && (d == ObjcDetail::Methods || all),
        counted_section(
            "method_records"@,
            sel.methods.len(),
            total_methods(o),
            sel.methods.map_values(|e: OwnedView<ObjcMethodRecord>| method_line(e)),
        ),
    ) + shown_lines(
        sel.properties.len() > 0 && (d == ObjcDetail::Properties || all),
        counted_section(
            "property_records"@,
            sel.properties.len(),
            total_properties(o),
            sel.properties.map_values(|e: OwnedView<ObjcPropertyRecord>| property_line(e)),
        ),
    ) + shown_lines(
        sel.ivars.len() > 0 && (d == ObjcDetail::Ivars || all),
        counted_section(
            "ivar_records"@,
            sel.ivars.len(),
            class_ivars_listed(o.classes@).len(),
            sel.ivars.map_values(|e: OwnedView<ObjcIvarRecord>| ivar_line(e)),
        ),
    ) + shown_lines(
        sel.pointer_refs.len() > 0 && all,
        counted_section(
            "pointer_refs"@,
            sel.pointer_refs.len(),
            o.pointer_refs@.len(),
            sel.pointer_refs.map_values(|p: ObjcPointerRef| pointer_ref_line(p)),
        ),
    )
}

/// The Objective-C listing as text lines (see `objc_lines_of`).
pub open spec fn objc_lines(o: ObjcMetadata, v: ObjcViewOptions) -> Seq<Seq<char>> {
    objc_lines_of(o, v, objc_selection(o, v))
}

/// Appends a label and a count.
fn push_count(out: &mut String, label: &str, n: usize)
    ensures
        final(out)@ == old(out)@ + label@ + decimal(n as nat),
{
    push_str(out, label);
    push_digits(out, n as u64, 10);
}

/// An optional owner name, `-` when absent.
fn push_owner(out: &mut String, o: &Option<String>)
    ensures
        final(out)@ == old(out)@ + owner_or_dash(opt_text(*o)),
{
    push_text_or_dash(out, o);
}

/// A kept class as a listing line (see `class_line`).
fn class_text(c: &ObjcClassRecord) -> (r: String)
    ensures
        r@ == class_line(*c),
{
    let mut out = string_of("  ");
    push_hex(&mut out, c.class_pointer);
    push_str(&mut out, " name=");
    push_text_or_dash(&mut out, &c.name);
    push_str(&mut out, " source=");
    push_str(&mut out, c.name_source.name());
    push_str(&mut out, " superclass=");
    match &c.superclass_name {
        Some(n) => push_str(&mut out, n.as_str()),
        None => push_hex_or_dash(&mut out, c.superclass_pointer),
    }
    push_str(&mut out, " metaclass=");
    push_hex_or_dash(&mut out, c.metaclass_pointer);
    push_str(&mut out, " ro=");
    push_hex_or_dash(&mut out, c.ro_pointer);
    push_count(&mut out, " methods=", c.methods.len());
    push_count(&mut out, " class_methods=", c.class_methods.len());
    push_count(&mut out, " properties=", c.properties.len());
    push_count(&mut out, " ivars=", c.ivars.len());
    push_count(&mut out, " protocols=", c.adopted_protocols.len());
    assert(out@ =~= class_line(*c));
    out
}

/// A kept protocol as a listing line (see `protocol_line`).
fn protocol_text(p: &ObjcProtocolRecord) -> (r: String)
    ensures
        r@ == protocol_line(*p),
{
    let mut out = string_of("  ");
    push_hex(&mut out, p.pointer);
    push_str(&mut out, " ");
    push_text_or_dash(&mut out, &p.name);
    push_str(&mut out, " source=");
    push_str(&mut out, p.name_source.name());
    push_count(&mut out, " required_inst=", p.required_instance_methods.len());
    push_count(&mut out, " required_class=", p.required_class_methods.len());
    push_count(&mut out, " optional_inst=", p.optional_instance_methods.len());
    push_count(&mut out, " optional_class=", p.optional_class_methods.len());
    push_count(&mut out, " properties=", p.properties.len());
    assert(out@ =~= protocol_line(*p));
    out
}

/// A kept category as a listing line (see `category_line`).
fn category_text(c: &ObjcCategoryRecord) -> (r: String)
    ensures
        r@ == category_line(*c),
{
    let mut out = string_of("  ");
    push_hex(&mut out, c.pointer);
    push_str(&mut out, " name=");
    push_text_or_dash(&mut out, &c.name);
    push_str(&mut out, " name_source=");
    push_str(&mut out, c.name_source.name());
    push_str(&mut out, " record_source=");
    push_str(&mut out, c.record_source.name());
    push_str(&mut out, " class=");
    push_text_or_dash(&mut out, &c.class_name);
    push_str(&mut out, " class_source=");
    push_str(&mut out, c.class_name_source.name());
    push_str(&mut out, " class_ptr=");
    push_hex_or_dash(&mut out, c.class_pointer);
    push_str(&mut out, " prop_list=");
    push_hex_or_dash(&mut out, c.property_list_pointer);
    push_str(&mut out, " proto_list=");
    push_hex_or_dash(&mut out, c.protocol_list_pointer);
    push_str(&mut out, " props_source=");
    push_str(&mut out, c.properties_source.name());
    push_str(&mut out, " protos_source=");
    push_str(&mut out, c.protocols_source.name());
    push_count(&mut out, " methods=", c.methods.len());
    push_count(&mut out, " class_methods=", c.class_methods.len());
    push_count(&mut out, " properties=", c.properties.len());
    push_count(&mut out, " protocols=", c.adopted_protocols.len());
    assert(out@ =~= category_line(*c));
    out
}

/// A listed method as a listing line (see `method_line`).
fn method_text(e: &ObjcOwned<ObjcMethodRecord>) -> (r: String)
    ensures
        r@ == method_line((opt_text(e.owner_name), *e.record)),
{
    let m = e.record;
    let mut out = string_of("  owner=");
    push_owner(&mut out, &e.owner_name);
    push_str(&mut out, " kind=");
    push_str(&mut out, objc_method_owner_kind_text(m.owner_kind));
    push_str(&mut out, " class_method=");
    push_bool_word(&mut out, m.is_class_method);
    push_str(&mut out, " selector=");
    push_text_or_dash(&mut out, &m.selector);
    push_str(&mut out, " selector_source=");
    push_str(&mut out, m.selector_source.name());
    push_str(&mut out, " impl=");
    push_hex_or_dash(&mut out, m.implementation);
    push_str(&mut out, " types=");
    push_text_or_dash(&mut out, &m.type_encoding);
    assert(out@ =~= method_line((opt_text(e.owner_name), *e.record)));
    out
}

/// A listed property as a listing line (see `property_line`).
fn property_text(e: &ObjcOwned<ObjcPropertyRecord>) -> (r: String)
    ensures
        r@ == property_line((opt_text(e.owner_name), *e.record)),
{
    let p = e.record;
    let mut out = string_of("  owner=");
    push_owner(&mut out, &e.owner_name);
    push_str(&mut out, " name=");
    push_text_or_dash(&mut out, &p.name);
    push_str(&mut out, " source=");
    push_str(&mut out, p.name_source.name());
    push_str(&mut out, " attrs=");
    push_text_or_dash(&mut out, &p.attributes);
    assert(out@ =~= property_line((opt_text(e.owner_name), *e.record)));
    out
}

/// A listed instance variable as a listing line (see `ivar_line`).
fn ivar_text(e: &ObjcOwned<ObjcIvarRecord>) -> (r: String)
    ensures
        r@ == ivar_line((opt_text(e.owner_name), *e.record)),
{
    let v = e.record;
    let mut out = string_of("  owner=");
    push_owner(&mut out, &e.owner_name);
    push_str(&mut out, " name=");
    push_text_or_dash(&mut out, &v.name);
    push_str(&mut out, " source=");
    push_str(&mut out, v.name_source.name());
    push_str(&mut out, " type=");
    push_text_or_dash(&mut out, &v.type_encoding);
    push_str(&mut out, " offset=");
    push_hex_or_dash(&mut out, v.offset);
    assert(out@ =~= ivar_line((opt_text(e.owner_name), *e.record)));
    out
}

/// A kept pointer-table entry as a listing line (see `pointer_ref_line`).
fn pointer_ref_text(p: &ObjcPointerRef) -> (r: String)
    ensures
        r@ == pointer_ref_line(*p),
{
    let mut out = string_of("  ");
    push_left(&mut out, objc_pointer_kind_text(p.kind), 10);
    push_str(&mut out, " table=");
    push_hex(&mut out, p.table_address);
    push_str(&mut out, " raw=");
    push_hex(&mut out, p.raw_pointer);
    push_str(&mut out, " resolved_addr=");
    push_hex_or_dash(&mut out, p.resolved_address);
    push_str(&mut out, " resolved_name=");
    push_text_or_dash(&mut out, &p.resolved_name);
    assert(out@ =~= pointer_ref_line(*p));
    out
}

/// Appends the kept classes, one line each.
fn push_class_lines(lines: &mut Vec<String>, items: &Vec<&ObjcClassRecord>)
    ensures
        line_views(final(lines)@) == line_views(old(lines)@) + items@.map_values(|x: &ObjcClassRecord| class_line(*x)),
{
    let ghost start = line_views(lines@);
    let ghost f = |x: &ObjcClassRecord| class_line(*x);
    let mut i: usize = 0;
    while i < items.len()
        invariant
            i <= items@.len(),
            f == (|x: &ObjcClassRecord| class_line(*x)),
            line_views(lines@) == start + items@.take(i as int).map_values(f),
        decreases items@.len() - i,
    {
        push_text_line(lines, class_text(items[i]));
        assert(items@.take(i + 1).map_values(f) =~= items@.take(i as int).map_values(f).push(
            f(items@[i as int]),
        ));
        i = i + 1;
    }
    assert(items@.take(items@.len() as int) =~= items@);
}

/// Appends the kept protocols, one line each.
fn push_protocol_lines(lines: &mut Vec<String>, items: &Vec<&ObjcProtocolRecord>)
    ensures
        line_views(final(lines)@) == line_views(old(lines)@) + items@.map_values(|x: &ObjcProtocolRecord| protocol_line(*x)),
{
    let ghost start = line_views(lines@);
    let ghost f = |x: &ObjcProtocolRecord| protocol_line(*x);
    let mut i: usize = 0;
    while i < items.len()
        invariant
            i <= items@.len(),
            f == (|x: &ObjcProtocolRecord| protocol_line(*x)),
            line_views(lines@) == start + items@.take(i as int).map_values(f),
        decreases items@.len() - i,
    {
        push_text_line(lines, protocol_text(items[i]));
        assert(items@.take(i + 1).map_values(f) =~= items@.take(i as int).map_values(f).push(
            f(items@[i as int]),
        ));
        i = i + 1;
    }
    assert(items@.take(items@.len() as int) =~= items@);
}

/// Appends the kept categories, one line each.
fn push_category_lines(lines: &mut Vec<String>, items: &Vec<&ObjcCategoryRecord>)
    ensures
        line_views(final(lines)@) == line_views(old(lines)@) + items@.map_values(|x: &ObjcCategoryRecord| category_line(*x)),
{
    let ghost start = line_views(lines@);
    let ghost f = |x: &ObjcCategoryRecord| category_line(*x);
    let mut i: usize = 0;
    while i < items.len()
        invariant
            i <= items@.len(),
            f == (|x: &ObjcCategoryRecord| category_line(*x)),
            line_views(lines@) == start + items@.take(i as int).map_values(f),
        decreases items@.len() - i,
    {
        push_text_line(lines, category_text(items[i]));
        assert(items@.take(i + 1).map_values(f) =~= items@.take(i as int).map_values(f).push(
            f(items@[i as int]),
        ));
        i = i + 1;
    }
    assert(items@.take(items@.len() as int) =~= items@);
}

/// Appends the listed methods, one line each.
fn push_method_lines(lines: &mut Vec<String>, items: &Vec<ObjcOwned<ObjcMethodRecord>>)
    ensures
        line_views(final(lines)@) == line_views(old(lines)@) + items@.map_values(|x: ObjcOwned<ObjcMethodRecord>| method_line((opt_text(x.owner_name), *x.record))),
{
    let ghost start = line_views(lines@);
    let ghost f = |x: ObjcOwned<ObjcMethodRecord>| method_line((opt_text(x.owner_name), *x.record));
    let mut i: usize = 0;
    while i < items.len()
        invariant
            i <= items@.len(),
            f == (|x: ObjcOwned<ObjcMethodRecord>| method_line((opt_text(x.owner_name), *x.record))),
            line_views(lines@) == start + items@.take(i as int).map_values(f),
        decreases items@.len() - i,
    {
        push_text_line(lines, method_text(&items[i]));
        assert(items@.take(i + 1).map_values(f) =~= items@.take(i as int).map_values(f).push(
            f(items@[i as int]),
        ));
        i = i + 1;
    }
    assert(items@.take(items@.len() as int) =~= items@);
}

/// Appends the listed properties, one line each.
fn push_property_lines(lines: &mut Vec<String>, items: &Vec<ObjcOwned<ObjcPropertyRecord>>)
    ensures
        line_views(final(lines)@) == line_views(old(lines)@) + items@.map_values(|x: ObjcOwned<ObjcPropertyRecord>| property_line((opt_text(x.owner_name), *x.record))),
{
    let ghost start = line_views(lines@);
    let ghost f = |x: ObjcOwned<ObjcPropertyRecord>| property_line((opt_text(x.owner_name), *x.record));
    let mut i: usize = 0;
    while i < items.len()
        invariant
            i <= items@.len(),
            f == (|x: ObjcOwned<ObjcPropertyRecord>| property_line((opt_text(x.owner_name), *x.record))),
            line_views(lines@) == start + items@.take(i as int).map_values(f),
        decreases items@.len() - i,
    {
        push_text_line(lines, property_text(&items[i]));
        assert(items@.take(i + 1).map_values(f) =~= items@.take(i as int).map_values(f).push(
            f(items@[i as int]),
        ));
        i = i + 1;
    }
    assert(items@.take(items@.len() as int) =~= items@);
}

/// Appends the listed instance variables, one line each.
fn push_ivar_lines(lines: &mut Vec<String>, items: &Vec<ObjcOwned<ObjcIvarRecord>>)
    ensures
        line_views(final(lines)@) == line_views(old(lines)@) + items@.map_values(|x: ObjcOwned<ObjcIvarRecord>| ivar_line((opt_text(x.owner_name), *x.record))),
{
    let ghost start = line_views(lines@);
    let ghost f = |x: ObjcOwned<ObjcIvarRecord>| ivar_line((opt_text(x.owner_name), *x.record));
    let mut i: usize = 0;
    while i < items.len()
        invariant
            i <= items@.len(),
            f == (|x: ObjcOwned<ObjcIvarRecord>| ivar_line((opt_text(x.owner_name), *x.record))),
            line_views(lines@) == start + items@.take(i as int).map_values(f),
        decreases items@.len() - i,
    {
        push_text_line(lines, ivar_text(&items[i]));
        assert(items@.take(i + 1).map_values(f) =~= items@.take(i as int).map_values(f).push(
            f(items@[i as int]),
        ));
        i = i + 1;
    }
    assert(items@.take(items@.len() as int) =~= items@);
}

/// Appends the kept pointer-table entries, one line each.
fn push_pointer_ref_lines(lines: &mut Vec<String>, items: &Vec<&ObjcPointerRef>)
    ensures
        line_views(final(lines)@) == line_views(old(lines)@) + items@.map_values(|x: &ObjcPointerRef| pointer_ref_line(*x)),
{
    let ghost start = line_views(lines@);
    let ghost f = |x: &ObjcPointerRef| pointer_ref_line(*x);
    let mut i: usize = 0;
    while i < items.len()
        invariant
            i <= items@.len(),
            f == (|x: &ObjcPointerRef| pointer_ref_line(*x)),
            line_views(lines@) == start + items@.take(i as int).map_values(f),
        decreases items@.len() - i,
    {
        push_text_line(lines, pointer_ref_text(items[i]));
        assert(items@.take(i + 1).map_values(f) =~= items@.take(i as int).map_values(f).push(
            f(items@[i as int]),
        ));
        i = i + 1;
    }
    assert(items@.take(items@.len() as int) =~= items@);
}

/// Appends a group of kept records under its heading, when shown and not
/// empty.
fn push_class_group(lines: &mut Vec<String>, items: &Vec<&ObjcClassRecord>, total: usize, shown: bool)
    ensures
        line_views(final(lines)@) == line_views(old(lines)@) + shown_lines(
            items@.len() > 0 && shown,
            counted_section(
                "class_records"@,
                items@.len(),
                total as nat,
                items@.map_values(|x: &ObjcClassRecord| class_line(*x)),
            ),
        ),
{
    let ghost start = line_views(lines@);
    if items.len() > 0 && shown {
        push_text_line(lines, counted_heading("class_records", items.len(), total));
        push_class_lines(lines, items);
    }
    assert(line_views(lines@) =~= start + shown_lines(
        items@.len() > 0 && shown,
        counted_section(
            "class_records"@,
            items@.len(),
            total as nat,
            items@.map_values(|x: &ObjcClassRecord| class_line(*x)),
        ),
    ));
}

/// Appends a group of kept records under its heading, when shown and not
/// empty.
fn push_protocol_group(lines: &mut Vec<String>, items: &Vec<&ObjcProtocolRecord>, total: usize, shown: bool)
    ensures
        line_views(final(lines)@) == line_views(old(lines)@) + shown_lines(
            items@.len() > 0 && shown,
            counted_section(
                "protocol_records"@,
                items@.len(),
                total as nat,
                items@.map_values(|x: &ObjcProtocolRecord| protocol_line(*x)),
            ),
        ),
{
    let ghost start = line_views(lines@);
    if items.len() > 0 && shown {
        push_text_line(lines, counted_heading("protocol_records", items.len(), total));
        push_protocol_lines(lines, items);
    }
    assert(line_views(lines@) =~= start + shown_lines(
        items@.len() > 0 && shown,
        counted_section(
            "protocol_records"@,
            items@.len(),
            total as nat,
            items@.map_values(|x: &ObjcProtocolRecord| protocol_line(*x)),
        ),
    ));
}

/// Appends a group of kept records under its heading, when shown and not
/// empty.
fn push_category_group(lines: &mut Vec<String>, items: &Vec<&ObjcCategoryRecord>, total: usize, shown: bool)
    ensures
        line_views(final(lines)@) == line_views(old(lines)@) + shown_lines(
            items@.len() > 0 && shown,
            counted_section(
                "category_records"@,
                items@.len(),
                total as nat,
                items@.map_values(|x: &ObjcCategoryRecord| category_line(*x)),
            ),
        ),
{
    let ghost start = line_views(lines@);
    if items.len() > 0 && shown {
        push_text_line(lines, counted_heading("category_records", items.len(), total));
        push_category_lines(lines, items);
    }
    assert(line_views(lines@) =~= start + shown_lines(
        items@.len() > 0 && shown,
        counted_section(
            "category_records"@,
            items@.len(),
            total as nat,
            items@.map_values(|x: &ObjcCategoryRecord| category_line(*x)),
        ),
    ));
}

/// Appends a group of kept records under its heading, when shown and not
/// empty.
fn push_method_group(lines: &mut Vec<String>, items: &Vec<ObjcOwned<ObjcMethodRecord>>, total: usize, shown: bool)
    ensures
        line_views(final(lines)@) == line_views(old(lines)@) + shown_lines(
            items@.len() > 0 && shown,
            counted_section(
                "method_records"@,
                items@.len(),
                total as nat,
                items@.map_values(|x: ObjcOwned<ObjcMethodRecord>| method_line((opt_text(x.owner_name), *x.record))),
            ),
        ),
{
    let ghost start = line_views(lines@);
    if items.len() > 0 && shown {
        push_text_line(lines, counted_heading("method_records", items.len(), total));
        push_method_lines(lines, items);
    }
    assert(line_views(lines@) =~= start + shown_lines(
        items@.len() > 0 && shown,
        counted_section(
            "method_records"@,
            items@.len(),
            total as nat,
            items@.map_values(|x: ObjcOwned<ObjcMethodRecord>| method_line((opt_text(x.owner_name), *x.record))),
        ),
    ));
}

/// Appends a group of kept records under its heading, when shown and not
/// empty.
fn push_property_group(lines: &mut Vec<String>, items: &Vec<ObjcOwned<ObjcPropertyRecord>>, total: usize, shown: bool)
    ensures
        line_views(final(lines)@) == line_views(old(lines)@) + shown_lines(
            items@.len() > 0 && shown,
            counted_section(
                "property_records"@,
                items@.len(),
                total as nat,
                items@.map_values(|x: ObjcOwned<ObjcPropertyRecord>| property_line((opt_text(x.owner_name), *x.record))),
            ),
        ),
{
    let ghost start = line_views(lines@);
    if items.len() > 0 && shown {
        push_text_line(lines, counted_heading("property_records", items.len(), total));
        push_property_lines(lines, items);
    }
    assert(line_views(lines@) =~= start + shown_lines(
        items@.len() > 0 && shown,
        counted_section(
            "property_records"@,
            items@.len(),
            total as nat,
            items@.map_values(|x: ObjcOwned<ObjcPropertyRecord>| property_line((opt_text(x.owner_name), *x.record))),
        ),
    ));
}

/// Appends a group of kept records under its heading, when shown and not
/// empty.
fn push_ivar_group(lines: &mut Vec<String>, items: &Vec<ObjcOwned<ObjcIvarRecord>>, total: usize, shown: bool)
    ensures
        line_views(final(lines)@) == line_views(old(lines)@) + shown_lines(
            items@.len() > 0 && shown,
            counted_section(
                "ivar_records"@,
                items@.len(),
                total as nat,
                items@.map_values(|x: ObjcOwned<ObjcIvarRecord>| ivar_line((opt_text(x.owner_name), *x.record))),
            ),
        ),
{
    let ghost start = line_views(lines@);
    if items.len() > 0 && shown {
        push_text_line(lines, counted_heading("ivar_records", items.len(), total));
        push_ivar_lines(lines, items);
    }
    assert(line_views(lines@) =~= start + shown_lines(
        items@.len() > 0 && shown,
        counted_section(
            "ivar_records"@,
            items@.len(),
            total as nat,
            items@.map_values(|x: ObjcOwned<ObjcIvarRecord>| ivar_line((opt_text(x.owner_name), *x.record))),
        ),
    ));
}

/// Appends a group of kept records under its heading, when shown and not
/// empty.
fn push_pointer_ref_group(lines: &mut Vec<String>, items: &Vec<&ObjcPointerRef>, total: usize, shown: bool)
    ensures
        line_views(final(lines)@) == line_views(old(lines)@) + shown_lines(
            items@.len() > 0 && shown,
            counted_section(
                "pointer_refs"@,
                items@.len(),
                total as nat,
                items@.map_values(|x: &ObjcPointerRef| pointer_ref_line(*x)),
            ),
        ),
{
    let ghost start = line_views(lines@);
    if items.len() > 0 && shown {
        push_text_line(lines, counted_heading("pointer_refs", items.len(), total));
        push_pointer_ref_lines(lines, items);
    }
    assert(line_views(lines@) =~= start + shown_lines(
        items@.len() > 0 && shown,
        counted_section(
            "pointer_refs"@,
            items@.len(),
            total as nat,
            items@.map_values(|x: &ObjcPointerRef| pointer_ref_line(*x)),
        ),
    ));
}

/// References to every record of a list, in order.
fn all_refs<'a, T>(items: &'a Vec<T>) -> (r: Vec<&'a T>)
    ensures
        derefs(r@) == items@,
{
    let mut all: Vec<&'a T> = Vec::new();
    let mut i: usize = 0;
    while i < items.len()
        invariant
            i <= items@.len(),
            derefs(all@) == items@.take(i as int),
        decreases items@.len() - i,
    {
        let ghost before = all@;
        all.push(&items[i]);
        assert(derefs(all@) =~= derefs(before).push(items@[i as int]));
        assert(items@.take(i + 1) =~= items@.take(i as int).push(items@[i as int]));
        i = i + 1;
    }
    assert(items@.take(items@.len() as int) =~= items@);
    all
}

/// How many methods and properties the metadata holds in all (see
/// `total_methods` and `total_properties`), and how many instance variables
/// its classes hold.
fn member_totals(o: &ObjcMetadata) -> (r: (usize, usize, usize))
    ensures
        r.0 == total_methods(*o),
        r.1 == total_properties(*o),
        r.2 == class_ivars_listed(o.classes@).len(),
{
    let classes = all_refs(&o.classes);
    let protocols = all_refs(&o.protocols);
    let categories = all_refs(&o.categories);
    let mut methods: Vec<ObjcOwned<ObjcMethodRecord>> = Vec::new();
    list_class_methods(&mut methods, &classes);
    list_protocol_methods(&mut methods, &protocols);
    list_category_methods(&mut methods, &categories);
    let mut properties: Vec<ObjcOwned<ObjcPropertyRecord>> = Vec::new();
    list_class_properties(&mut properties, &classes);
    list_protocol_properties(&mut properties, &protocols);
    list_category_properties(&mut properties, &categories);
    let mut ivars: Vec<ObjcOwned<ObjcIvarRecord>> = Vec::new();
    list_class_ivars(&mut ivars, &classes);
    assert(owned_views(methods@).len() == methods@.len());
    assert(owned_views(properties@).len() == properties@.len());
    assert(owned_views(ivars@).len() == ivars@.len());
    (methods.len(), properties.len(), ivars.len())
}

/// The parts of the active-filters line (see `objc_filter_parts`).
fn objc_filter_part_texts(v: &ObjcViewOptions) -> (r: Vec<String>)
    ensures
        line_views(r@) == objc_filter_parts(*v),
{
    let mut parts: Vec<String> = Vec::new();
    assert(line_views(parts@) =~= Seq::<Seq<char>>::empty());
    let ghost p0 = line_views(parts@);
    match &v.owner_filter {
        Some(n) => push_text_line(&mut parts, labelled_line("owner=", n.as_str())),
        None => {},
    }
    assert(line_views(parts@) =~= p0 + part_if(v.owner_filter is Some, "owner="@ + text_or_dash(v.owner_filter)));
    let ghost p1 = line_views(parts@);
    match v.name_source_filter {
        Some(x) => push_text_line(&mut parts, labelled_line("name_source=", x.name())),
        None => {},
    }
    assert(line_views(parts@) =~= p1 + part_if(
        v.name_source_filter is Some,
        "name_source="@ + name_source_name(v.name_source_filter->0),
    ));
    let ghost p2 = line_views(parts@);
    match v.selector_source_filter {
        Some(x) => push_text_line(&mut parts, labelled_line("selector_source=", x.name())),
        None => {},
    }
    assert(line_views(parts@) =~= p2 + part_if(
        v.selector_source_filter is Some,
        "selector_source="@ + selector_source_name(v.selector_source_filter->0),
    ));
    let ghost p3 = line_views(parts@);
    match v.category_source_filter {
        Some(x) => push_text_line(&mut parts, labelled_line("category_source=", x.name())),
        None => {},
    }
    assert(line_views(parts@) =~= p3 + part_if(
        v.category_source_filter is Some,
        "category_source="@ + category_source_name(v.category_source_filter->0),
    ));
    parts
}

/// The lines before the groups of records: the image-info flags, the
/// summary, the active filters and, at `all`, the name tables.
pub open spec fn objc_head_lines(o: ObjcMetadata, v: ObjcViewOptions) -> Seq<Seq<char>> {
    let parts = objc_filter_parts(v);
    (match o.image_info_flags {
        Some(f) => seq!["image_info_flags: "@ + hex(f as nat)],
        None => seq![],
    }) + seq![objc_summary_line(o)] + shown_lines(
        parts.len() > 0,
        seq!["active_filters: "@ + join(parts, " "@)],
    ) + shown_lines(
        v.detail == ObjcDetail::All,
        named_section("classes:"@, o.class_names@) + named_section("selectors:"@, o.selector_names@)
            + named_section("methods:"@, o.method_names@),
    )
}

/// The lines before the groups of records (see `objc_head_lines`).
#[verifier::rlimit(40)]
fn objc_head(o: &ObjcMetadata, v: &ObjcViewOptions) -> (r: Vec<String>)
    ensures
        line_views(r@) == objc_head_lines(*o, *v),
{
    let mut lines: Vec<String> = Vec::new();
    match o.image_info_flags {
        Some(f) => {
            let mut line = string_of("image_info_flags: ");
            push_hex(&mut line, f as u64);
            push_text_line(&mut lines, line);
        },
        None => {},
    }
    let mut summary = string_of("summary: class_names=");
    push_digits(&mut summary, o.class_names.len() as u64, 10);
    push_count(&mut summary, " selectors=", o.selector_names.len());
    push_count(&mut summary, " methods=", o.method_names.len());
    push_count(&mut summary, " pointer_refs=", o.pointer_refs.len());
    push_count(&mut summary, " classes=", o.classes.len());
    push_count(&mut summary, " protocols=", o.protocols.len());
    push_count(&mut summary, " categories=", o.categories.len());
    assert(summary@ =~= objc_summary_line(*o));
    push_text_line(&mut lines, summary);
    let ghost l1 = line_views(lines@);
    let parts = objc_filter_part_texts(v);
    if parts.len() > 0 {
        let joined = join_parts(&parts);
        let mut line = string_of("active_filters: ");
        push_str(&mut line, joined.as_str());
        push_text_line(&mut lines, line);
    }
    let ghost l2 = line_views(lines@);
    assert(l2 =~= l1 + shown_lines(
        objc_filter_parts(*v).len() > 0,
        seq!["active_filters: "@ + join(objc_filter_parts(*v), " "@)],
    ));
    if v.detail == ObjcDetail::All {
        push_text_line(&mut lines, string_of("classes:"));
        push_name_lines(&mut lines, &o.class_names);
        push_text_line(&mut lines, string_of("selectors:"));
        push_name_lines(&mut lines, &o.selector_names);
        push_text_line(&mut lines, string_of("methods:"));
        push_name_lines(&mut lines, &o.method_names);
    }
    assert(line_views(lines@) =~= objc_head_lines(*o, *v));
    lines
}

/// The Objective-C listing as text lines (see `objc_lines`).
pub fn objc_text_lines(o: &ObjcMetadata, v: &ObjcViewOptions) -> (r: Vec<String>)
    ensures
        line_views(r@) == objc_lines(*o, *v),
{
    let filtered = filter_objc_view(o, v);
    let ghost sel = filtered.selection();
    let (total_m, total_p, total_i) = member_totals(o);
    let d = v.detail;
    let all = d == ObjcDetail::All;
    let mut lines = objc_head(o, v);
    push_class_group(&mut lines, &filtered.classes, o.classes.len(), all || d == ObjcDetail::Classes);
    push_protocol_group(&mut lines, &filtered.protocols, o.protocols.len(), all || d == ObjcDetail::Protocols);
    push_category_group(&mut lines, &filtered.categories, o.categories.len(), all || d == ObjcDetail::Categories);
    push_method_group(&mut lines, &filtered.methods, total_m, all || d == ObjcDetail::Methods);
    push_property_group(&mut lines, &filtered.properties, total_p, all || d == ObjcDetail::Properties);
    push_ivar_group(&mut lines, &filtered.ivars, total_i, all || d == ObjcDetail::Ivars);
    push_pointer_ref_group(&mut lines, &filtered.pointer_refs, o.pointer_refs.len(), all);
    assert(sel.classes.map_values(|c: ObjcClassRecord| class_line(c)) =~= filtered.classes@.map_values(
        |x: &ObjcClassRecord| class_line(*x),
    ));
    assert(sel.protocols.map_values(|p: ObjcProtocolRecord| protocol_line(p))
        =~= filtered.protocols@.map_values(|x: &ObjcProtocolRecord| protocol_line(*x)));
    assert(sel.categories.map_values(|c: ObjcCategoryRecord| category_line(c))
        =~= filtered.categories@.map_values(|x: &ObjcCategoryRecord| category_line(*x)));
    assert(sel.methods.map_values(|e: OwnedView<ObjcMethodRecord>| method_line(e)) =~= filtered.methods@.map_values(
        |x: ObjcOwned<ObjcMethodRecord>| method_line((opt_text(x.owner_name), *x.record)),
    ));
    assert(sel.properties.map_values(|e: OwnedView<ObjcPropertyRecord>| property_line(e))
        =~= filtered.properties@.map_values(
        |x: ObjcOwned<ObjcPropertyRecord>| property_line((opt_text(x.owner_name), *x.record)),
    ));
    assert(sel.ivars.map_values(|e: OwnedView<ObjcIvarRecord>| ivar_line(e)) =~= filtered.ivars@.map_values(
        |x: ObjcOwned<ObjcIvarRecord>| ivar_line((opt_text(x.owner_name), *x.record)),
    ));
    assert(sel.pointer_refs.map_values(|p: ObjcPointerRef| pointer_ref_line(p))
        =~= filtered.pointer_refs@.map_values(|x: &ObjcPointerRef| pointer_ref_line(*x)));
    assert(line_views(lines@) =~= objc_lines_of(*o, *v, sel));
    lines
}


/// Under an owner filter (and no name-source filter), a class whose
/// superclass name contains the filter, ignoring ASCII case, is kept, as
/// one whose own name does: a listing for a class shows its subclasses.
pub proof fn lemma_owner_filter_keeps_subclasses(objc: ObjcMetadata, view: ObjcViewOptions, k: int)
    requires
        0 <= k < objc.classes@.len(),
        view.owner_filter matches Some(o) && objc.classes@[k].superclass_name matches Some(sup)
            && contains_seq(ascii_lower(sup@), ascii_lower(o@)),
        view.name_source_filter is None,
    ensures
        objc_selection(objc, view).classes.contains(objc.classes@[k]),
{
    reveal(objc_selection);
    let owner = opt_text(view.owner_filter);
    let pred = |c: ObjcClassRecord| class_selected(c, owner, None);
    assert(pred(objc.classes@[k]));
    objc.classes@.lemma_filter_contains(pred, k);
}


/// An optional name contains `needle`, ignoring ASCII case.
pub open spec fn opt_contains(name: Option<String>, needle: Seq<char>) -> bool {
    name matches Some(n) && contains_seq(ascii_lower(n@), ascii_lower(needle))
}

/// The classes a listing keeps are exactly the image's classes, in order,
/// whose name or superclass name contains the owner filter (ignoring ASCII
/// case) and whose name came from the name source asked for.
pub proof fn lemma_kept_classes(objc: ObjcMetadata, view: ObjcViewOptions)
    ensures
        forall|i: int|
            0 <= i < objc_selection(objc, view).classes.len() ==> {
                let c = #[trigger] objc_selection(objc, view).classes[i];
                &&& objc.classes@.contains(c)
                &&& (view.owner_filter matches Some(o) ==> opt_contains(c.name, o@) || opt_contains(
                    c.superclass_name,
                    o@,
                ))
                &&& (view.name_source_filter matches Some(ns) ==> c.name_source == ns)
            },
        forall|k: int|
            0 <= k < objc.classes@.len() && (view.owner_filter matches Some(o) ==> opt_contains(
                (#[trigger] objc.classes@[k]).name,
                o@,
            ) || opt_contains(objc.classes@[k].superclass_name, o@)) && (
            view.name_source_filter matches Some(ns) ==> objc.classes@[k].name_source == ns)
                ==> objc_selection(objc, view).classes.contains(objc.classes@[k]),
{
    reveal(objc_selection);
    let pred = |c: ObjcClassRecord| class_selected(c, opt_text(view.owner_filter), view.name_source_filter);
    let kept = objc.classes@.filter(pred);
    assert forall|i: int| 0 <= i < kept.len() implies pred(#[trigger] kept[i]) && objc.classes@.contains(
        kept[i],
    ) by {
        objc.classes@.lemma_filter_pred(pred, i);
        objc.classes@.lemma_filter_contains_rev(pred, kept[i]);
    }
    assert forall|k: int|
        0 <= k < objc.classes@.len() && (view.owner_filter matches Some(o) ==> opt_contains(
            (#[trigger] objc.classes@[k]).name,
            o@,
        ) || opt_contains(objc.classes@[k].superclass_name, o@)) && (view.name_source_filter matches Some(
            ns,
        ) ==> objc.classes@[k].name_source == ns) implies kept.contains(objc.classes@[k]) by {
        objc.classes@.lemma_filter_contains(pred, k);
    }
}

/// The protocols a listing keeps are exactly the image's protocols whose
/// name contains the owner filter (ignoring ASCII case) and came from the
/// name source asked for.
pub proof fn lemma_kept_protocols(objc: ObjcMetadata, view: ObjcViewOptions)
    ensures
        forall|i: int|
            0 <= i < objc_selection(objc, view).protocols.len() ==> {
                let p = #[trigger] objc_selection(objc, view).protocols[i];
                &&& objc.protocols@.contains(p)
                &&& (view.owner_filter matches Some(o) ==> opt_contains(p.name, o@))
                &&& (view.name_source_filter matches Some(ns) ==> p.name_source == ns)
            },
        forall|k: int|
            0 <= k < objc.protocols@.len() && (view.owner_filter matches Some(o) ==> opt_contains(
                (#[trigger] objc.protocols@[k]).name,
                o@,
            )) && (view.name_source_filter matches Some(ns) ==> objc.protocols@[k].name_source == ns)
                ==> objc_selection(objc, view).protocols.contains(objc.protocols@[k]),
{
    reveal(objc_selection);
    let pred = |p: ObjcProtocolRecord| protocol_selected(p, opt_text(view.owner_filter), view.name_source_filter);
    let kept = objc.protocols@.filter(pred);
    assert forall|i: int| 0 <= i < kept.len() implies pred(#[trigger] kept[i]) && objc.protocols@.contains(
        kept[i],
    ) by {
        objc.protocols@.lemma_filter_pred(pred, i);
        objc.protocols@.lemma_filter_contains_rev(pred, kept[i]);
    }
    assert forall|k: int|
        0 <= k < objc.protocols@.len() && (view.owner_filter matches Some(o) ==> opt_contains(
            (#[trigger] objc.protocols@[k]).name,
            o@,
        )) && (view.name_source_filter matches Some(ns) ==> objc.protocols@[k].name_source == ns)
        implies kept.contains(objc.protocols@[k]) by {
        objc.protocols@.lemma_filter_contains(pred, k);
    }
}

/// The categories a listing keeps are exactly the image's categories whose
/// name or class name contains the owner filter (ignoring ASCII case),
/// whose name or class name came from the name source asked for, and that
/// were found the way the category-source filter asks.
pub proof fn lemma_kept_categories(objc: ObjcMetadata, view: ObjcViewOptions)
    ensures
        forall|i: int|
            0 <= i < objc_selection(objc, view).categories.len() ==> {
                let c = #[trigger] objc_selection(objc, view).categories[i];
                &&& objc.categories@.contains(c)
                &&& (view.owner_filter matches Some(o) ==> opt_contains(c.name, o@) || opt_contains(
                    c.class_name,
                    o@,
                ))
                &&& (view.name_source_filter matches Some(ns) ==> c.name_source == ns
                    || c.class_name_source == ns)
                &&& (view.category_source_filter matches Some(f) ==> match f {
                    ObjcCategorySourceFilter::RuntimeList => c.record_source
                        == ObjcCategoryRecordSource::RuntimeList,
                    ObjcCategorySourceFilter::SymbolSynthesis => c.record_source
                        == ObjcCategoryRecordSource::SymbolSynthesis,
                    ObjcCategorySourceFilter::SymbolSynthesisWithLists => c.record_source
                        == ObjcCategoryRecordSource::SymbolSynthesis && (c.property_list_pointer is Some
                        || c.protocol_list_pointer is Some),
                })
            },
{
    reveal(objc_selection);
    let pred = |c: ObjcCategoryRecord|
        category_selected(c, opt_text(view.owner_filter), view.name_source_filter, view.category_source_filter);
    let kept = objc.categories@.filter(pred);
    assert forall|i: int| 0 <= i < kept.len() implies pred(#[trigger] kept[i]) && objc.categories@.contains(
        kept[i],
    ) by {
        objc.categories@.lemma_filter_pred(pred, i);
        objc.categories@.lemma_filter_contains_rev(pred, kept[i]);
    }
}

} // verus!
