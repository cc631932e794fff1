//! Data model of one derivation pass: field descriptors, raw configuration
//! annotations, record definitions, and the fatal-error taxonomy.

use vstd::prelude::*;

verus! {

/// How one field is identified: by its declared name, or by its position.
pub enum FieldIdentity {
    Named(String),
    Positional(usize),
}

/// The value attached to one configuration key.
pub enum MetaValue {
    /// The key stands bare, with no `=` part.
    Absent,
    /// The value is a boolean literal.
    Bool(bool),
    /// The value is a string literal.
    Str(String),
    /// The value is some other literal or expression.
    Other,
}

/// One `key` or `key = value` entry inside a `getter(...)` or `setter(...)`
/// group.
pub struct ConfigEntry {
    pub key: String,
    pub value: MetaValue,
}

/// One top-level entry of the configuration annotation: a key with an
/// optional parenthesized group of nested entries.
pub struct GroupEntry {
    pub key: String,
    pub args: Option<Vec<ConfigEntry>>,
}

/// The shape of one raw annotation attached to a field.
pub enum AnnotationMeta {
    /// A bare marker annotation, carrying no entries.
    Marker,
    /// A `path = value` annotation; it carries no per-side entries either.
    KeyValue,
    /// A parenthesized annotation with nested entries.
    Entries(Vec<GroupEntry>),
}

/// One raw annotation node: its path and its shape.
pub struct Annotation {
    pub path: String,
    pub meta: AnnotationMeta,
}

/// Normalized view of one record field: identity, the declared type rendered
/// as exact source text, and the raw annotations attached to it.
pub struct FieldDescriptor {
    pub identity: FieldIdentity,
    pub type_text: String,
    pub annotations: Vec<Annotation>,
}

/// The shape of a parsed record definition.
pub enum RecordShape {
    /// A record of named fields.
    Named(Vec<FieldDescriptor>),
    /// A record of positional fields.
    Positional(Vec<FieldDescriptor>),
    /// A record with no fields at all.
    Unit,
    /// A sum type; derivation declines it.
    Variants,
    /// An opaque blob such as an untagged overlay; derivation declines it.
    Opaque,
}

/// One parsed record definition handed in by the host front end.
pub struct RecordDef {
    pub ident: String,
    pub shape: RecordShape,
}

/// A fatal configuration error; any of these aborts the whole derivation
/// with no partial output.
#[derive(Clone, Copy, Debug, PartialEq, Eq, Structural)]
pub enum DeriveError {
    /// A `name` value that is not a string literal.
    NameNotString,
    /// A `pub_scope` value that is not a string literal.
    ScopeNotString,
    /// A `pub_scope` string naming no recognized scope.
    UnknownScope,
    /// A record whose shape is a sum type or an opaque blob.
    UnsupportedShape,
}

impl DeriveError {
    /// A short description of the error, for the host to report.
    pub fn message(&self) -> (r: &'static str)
        ensures
            r@ == self.spec_message(),
    {
        match self {
            DeriveError::NameNotString => "name value must be a string literal",
            DeriveError::ScopeNotString => "pub_scope value must be a string literal",
            DeriveError::UnknownScope => "unsupported pub scope",
            DeriveError::UnsupportedShape => "accessor derivation supports single-shape records only",
        }
    }

    pub open spec fn spec_message(&self) -> Seq<char> {
        match self {
            DeriveError::NameNotString => "name value must be a string literal"@,
            DeriveError::ScopeNotString => "pub_scope value must be a string literal"@,
            DeriveError::UnknownScope => "unsupported pub scope"@,
            DeriveError::UnsupportedShape => "accessor derivation supports single-shape records only"@,
        }
    }
}

} // verus!
