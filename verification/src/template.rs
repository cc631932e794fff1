//! Type classifier and template resolver: decides whether a field's declared
//! type is a copyable scalar or one of the four access-wrapper categories,
//! and produces the exact read expression / write statement for the wrapped
//! categories.

use vstd::prelude::*;
use vstd::string::*;

use crate::model::FieldDescriptor;
use crate::model::FieldIdentity;
use crate::text::dec_digits;
use crate::text::find_first;
use crate::text::find_last;
use crate::text::find_first_char;
use crate::text::find_last_char;
use crate::text::head_of;
use crate::text::str_eq;
use crate::text::trim_edge_chars;
use crate::text::trim_edges;
use crate::text::type_head;
use crate::text::usize_to_string;

verus! {

/// The four recognized access-wrapper categories.
#[derive(Clone, Copy, Debug, PartialEq, Eq, Structural)]
pub enum WrapKind {
    /// Blocking reader/writer lock.
    RwLock,
    /// Blocking mutual-exclusion lock.
    Mutex,
    /// Single-threaded copy-based mutable cell.
    Cell,
    /// Single-threaded borrow-checked mutable cell.
    RefCell,
}

/// The expression a generated accessor uses to reach the field: the declared
/// name of a named field, or the decimal index of a positional field.
pub open spec fn spec_accessor_name(identity: FieldIdentity) -> Seq<char> {
    match identity {
        FieldIdentity::Named(n) => n@,
        FieldIdentity::Positional(i) => dec_digits(i as nat),
    }
}

/// The member-access text of a field identity.
pub fn accessor_name(identity: &FieldIdentity) -> (r: String)
    ensures
        r@ == spec_accessor_name(*identity),
{
    match identity {
        FieldIdentity::Named(n) => n.clone(),
        FieldIdentity::Positional(i) => usize_to_string(*i),
    }
}

/// The wrapper category of a rendered type, decided by the type's leading
/// identifier token alone. A wrapper nested inside any other generic is
/// deliberately not detected and falls through to plain-field handling.
pub open spec fn spec_wrap_category(t: Seq<char>) -> Option<WrapKind> {
    let head = head_of(t);
    if head == "RwLock"@ {
        Some(WrapKind::RwLock)
    } else if head == "Mutex"@ {
        Some(WrapKind::Mutex)
    } else if head == "Cell"@ {
        Some(WrapKind::Cell)
    } else if head == "RefCell"@ {
        Some(WrapKind::RefCell)
    } else {
        None
    }
}

/// Classify a rendered type into a wrapper category, if any.
pub fn wrap_category(t: &str) -> (r: Option<WrapKind>)
    ensures
        r == spec_wrap_category(t@),
{
    let head: &str = type_head(t);
    if str_eq(head, "RwLock") {
        Some(WrapKind::RwLock)
    } else if str_eq(head, "Mutex") {
        Some(WrapKind::Mutex)
    } else if str_eq(head, "Cell") {
        Some(WrapKind::Cell)
    } else if str_eq(head, "RefCell") {
        Some(WrapKind::RefCell)
    } else {
        None
    }
}

/// A wrapped type must carry its inner type between angle brackets; a bare
/// wrapper name has no inner type to extract.
pub open spec fn wrapped_type_wf(t: Seq<char>) -> bool {
    &&& find_first(t, '<') >= 0
    &&& find_last(t, '>') > find_first(t, '<')
}

/// The inner type of a wrapped type: the text between the first `<` and the
/// last `>`, with surrounding blanks removed — exactly as declared.
pub open spec fn inner_type_of(t: Seq<char>) -> Seq<char> {
    trim_edges(t.subrange(find_first(t, '<') + 1, find_last(t, '>')), ' ')
}

/// A field's declared type is well formed when a detected wrapper carries
/// its inner type.
pub open spec fn field_type_wf(t: Seq<char>) -> bool {
    spec_wrap_category(t) is Some ==> wrapped_type_wf(t)
}

/// Decide whether a field's declared type is well formed.
pub fn field_type_wf_check(t: &str) -> (r: bool)
    ensures
        r == field_type_wf(t@),
{
    match wrap_category(t) {
        Some(_) => {
            let open_at = find_first_char(t, '<');
            let close_at = find_last_char(t, '>');
            match (open_at, close_at) {
                (Some(i), Some(j)) => i < j,
                (Some(_), None) => false,
                (None, Some(_)) => false,
                (None, None) => false,
            }
        },
        None => true,
    }
}

/// Extract the inner type of a wrapped type.
pub fn inner_type<'a>(t: &'a str) -> (r: &'a str)
    requires
        wrapped_type_wf(t@),
    ensures
        r@ == inner_type_of(t@),
{
    let open_at: usize = match find_first_char(t, '<') {
        Some(i) => i,
        None => {
            proof {
                assert(false);
            }
            0
        },
    };
    let close_at: usize = match find_last_char(t, '>') {
        Some(i) => i,
        None => {
            proof {
                assert(false);
            }
            0
        },
    };
    let raw: &str = t.substring_char(open_at + 1, close_at);
    trim_edge_chars(raw, ' ')
}

/// Carrier of the classification tables and of the access templates of the
/// four wrapper categories.
pub struct DataclassTemplate;

impl DataclassTemplate {
    /// The fixed allow-list of copyable scalar spellings: fixed-width
    /// integers, the two floating-point widths, and the borrowed text slice.
    /// The owned text spelling is deliberately not in this list.
    pub open spec fn spec_is_copyable(s: Seq<char>) -> bool {
        ||| s == "u8"@
        ||| s == "u16"@
        ||| s == "u32"@
        ||| s == "u64"@
        ||| s == "u128"@
        ||| s == "i8"@
        ||| s == "i16"@
        ||| s == "i32"@
        ||| s == "i64"@
        ||| s == "i128"@
        ||| s == "f32"@
        ||| s == "f64"@
        ||| s == "str"@
    }

    /// Whether `name` is one of the copyable scalar spellings.
    pub fn is_copyable(name: &str) -> (r: bool)
        ensures
            r == Self::spec_is_copyable(name@),
    {
        str_eq(name, "u8") || str_eq(name, "u16") || str_eq(name, "u32") || str_eq(name, "u64")
            || str_eq(name, "u128") || str_eq(name, "i8") || str_eq(name, "i16") || str_eq(
            name,
            "i32",
        ) || str_eq(name, "i64") || str_eq(name, "i128") || str_eq(name, "f32") || str_eq(
            name,
            "f64",
        ) || str_eq(name, "str")
    }

    /// The getter return type owed to a recognized scalar spelling: the
    /// identity for every copyable scalar, the borrowed text slice for the
    /// owned text spelling, and nothing for anything else.
    pub open spec fn spec_return_type(s: Seq<char>) -> Option<Seq<char>> {
        if s == "u8"@ {
            Some("u8"@)
        } else if s == "u16"@ {
            Some("u16"@)
        } else if s == "u32"@ {
            Some("u32"@)
        } else if s == "u64"@ {
            Some("u64"@)
        } else if s == "u128"@ {
            Some("u128"@)
        } else if s == "i8"@ {
            Some("i8"@)
        } else if s == "i16"@ {
            Some("i16"@)
        } else if s == "i32"@ {
            Some("i32"@)
        } else if s == "i64"@ {
            Some("i64"@)
        } else if s == "i128"@ {
            Some("i128"@)
        } else if s == "f32"@ {
            Some("f32"@)
        } else if s == "f64"@ {
            Some("f64"@)
        } else if s == "String"@ {
            Some("str"@)
        } else {
            None
        }
    }

    /// The return type a getter uses for a recognized scalar spelling.
    pub fn return_type(name: &str) -> (r: Option<&'static str>)
        ensures
            (match r {
                Some(t) => Some(t@),
                None => None::<Seq<char>>,
            }) == Self::spec_return_type(name@),
    {
        if str_eq(name, "u8") {
            Some("u8")
        } else if str_eq(name, "u16") {
            Some("u16")
        } else if str_eq(name, "u32") {
            Some("u32")
        } else if str_eq(name, "u64") {
            Some("u64")
        } else if str_eq(name, "u128") {
            Some("u128")
        } else if str_eq(name, "i8") {
            Some("i8")
        } else if str_eq(name, "i16") {
            Some("i16")
        } else if str_eq(name, "i32") {
            Some("i32")
        } else if str_eq(name, "i64") {
            Some("i64")
        } else if str_eq(name, "i128") {
            Some("i128")
        } else if str_eq(name, "f32") {
            Some("f32")
        } else if str_eq(name, "f64") {
            Some("f64")
        } else if str_eq(name, "String") {
            Some("str")
        } else {
            None
        }
    }

    /// The parameter type a setter uses for a recognized scalar spelling;
    /// the mapping coincides with the getter return-type mapping.
    pub fn input_type(name: &str) -> (r: Option<&'static str>)
        ensures
            (match r {
                Some(t) => Some(t@),
                None => None::<Seq<char>>,
            }) == Self::spec_return_type(name@),
    {
        Self::return_type(name)
    }

    pub open spec fn spec_sync_rwlock_setter(name: Seq<char>, value: Seq<char>) -> Seq<char> {
        "*self."@ + name + ".write().unwrap() = "@ + value + ";"@
    }

    pub open spec fn spec_sync_rwlock_getter(name: Seq<char>) -> Seq<char> {
        "*self."@ + name + ".read().unwrap()"@
    }

    pub open spec fn spec_sync_mutex_setter(name: Seq<char>, value: Seq<char>) -> Seq<char> {
        "*self."@ + name + ".lock().unwrap() = "@ + value + ";"@
    }

    pub open spec fn spec_sync_mutex_getter(name: Seq<char>) -> Seq<char> {
        "*self."@ + name + ".lock().unwrap()"@
    }

    pub open spec fn spec_cell_setter(name: Seq<char>, value: Seq<char>) -> Seq<char> {
        "self."@ + name + ".set("@ + value + ");"@
    }

    pub open spec fn spec_cell_getter(name: Seq<char>) -> Seq<char> {
        "self."@ + name + ".get()"@
    }

    pub open spec fn spec_refcell_setter(name: Seq<char>, value: Seq<char>) -> Seq<char> {
        "*self."@ + name + ".borrow_mut() = "@ + value + ";"@
    }

    pub open spec fn spec_refcell_getter(name: Seq<char>) -> Seq<char> {
        "*self."@ + name + ".borrow()"@
    }

    /// Write statement of the reader/writer-lock category.
    pub fn sync_rwlock_setter(name: &str, value: &str) -> (r: String)
        ensures
            r@ == Self::spec_sync_rwlock_setter(name@, value@),
    {
        let mut s = String::from_str("*self.");
        s.append(name);
        s.append(".write().unwrap() = ");
        s.append(value);
        s.append(";");
        s
    }

    /// Read expression of the reader/writer-lock category.
    pub fn sync_rwlock_getter(name: &str) -> (r: String)
        ensures
            r@ == Self::spec_sync_rwlock_getter(name@),
    {
        let mut s = String::from_str("*self.");
        s.append(name);
        s.append(".read().unwrap()");
        s
    }

    /// Write statement of the mutual-exclusion-lock category.
    pub fn sync_mutex_setter(name: &str, value: &str) -> (r: String)
        ensures
            r@ == Self::spec_sync_mutex_setter(name@, value@),
    {
        let mut s = String::from_str("*self.");
        s.append(name);
        s.append(".lock().unwrap() = ");
        s.append(value);
        s.append(";");
        s
    }

    /// Read expression of the mutual-exclusion-lock category.
    pub fn sync_mutex_getter(name: &str) -> (r: String)
        ensures
            r@ == Self::spec_sync_mutex_getter(name@),
    {
        let mut s = String::from_str("*self.");
        s.append(name);
        s.append(".lock().unwrap()");
        s
    }

    /// Write statement of the copy-based-cell category.
    pub fn cell_setter(name: &str, value: &str) -> (r: String)
        ensures
            r@ == Self::spec_cell_setter(name@, value@),
    {
        let mut s = String::from_str("self.");
        s.append(name);
        s.append(".set(");
        s.append(value);
        s.append(");");
        s
    }

    /// Read expression of the copy-based-cell category.
    pub fn cell_getter(name: &str) -> (r: String)
        ensures
            r@ == Self::spec_cell_getter(name@),
    {
        let mut s = String::from_str("self.");
        s.append(name);
        s.append(".get()");
        s
    }

    /// Write statement of the borrow-checked-cell category.
    pub fn refcell_setter(name: &str, value: &str) -> (r: String)
        ensures
            r@ == Self::spec_refcell_setter(name@, value@),
    {
        let mut s = String::from_str("*self.");
        s.append(name);
        s.append(".borrow_mut() = ");
        s.append(value);
        s.append(";");
        s
    }

    /// Read expression of the borrow-checked-cell category.
    pub fn refcell_getter(name: &str) -> (r: String)
        ensures
            r@ == Self::spec_refcell_getter(name@),
    {
        let mut s = String::from_str("*self.");
        s.append(name);
        s.append(".borrow()");
        s
    }

    /// The write statement of a wrapper category, with the field's accessor
    /// root and the literal parameter name `value` substituted.
    pub open spec fn spec_write_stmt(kind: WrapKind, name: Seq<char>) -> Seq<char> {
        match kind {
            WrapKind::RwLock => Self::spec_sync_rwlock_setter(name, "value"@),
            WrapKind::Mutex => Self::spec_sync_mutex_setter(name, "value"@),
            WrapKind::Cell => Self::spec_cell_setter(name, "value"@),
            WrapKind::RefCell => Self::spec_refcell_setter(name, "value"@),
        }
    }

    /// The read expression of a wrapper category, with the field's accessor
    /// root substituted.
    pub open spec fn spec_read_expr(kind: WrapKind, name: Seq<char>) -> Seq<char> {
        match kind {
            WrapKind::RwLock => Self::spec_sync_rwlock_getter(name),
            WrapKind::Mutex => Self::spec_sync_mutex_getter(name),
            WrapKind::Cell => Self::spec_cell_getter(name),
            WrapKind::RefCell => Self::spec_refcell_getter(name),
        }
    }

    /// The resolved setter body of a field, when its type is one of the four
    /// wrapper categories; `None` signals direct member assignment instead.
    pub open spec fn spec_match_setter_template(field: FieldDescriptor) -> Option<Seq<char>> {
        match spec_wrap_category(field.type_text@) {
            Some(kind) => Some(
                Self::spec_write_stmt(kind, spec_accessor_name(field.identity)),
            ),
            None => None,
        }
    }

    /// The resolved getter body of a field, when its type is one of the four
    /// wrapper categories; `None` signals direct member access instead.
    pub open spec fn spec_match_getter_template(field: FieldDescriptor) -> Option<Seq<char>> {
        match spec_wrap_category(field.type_text@) {
            Some(kind) => Some(Self::spec_read_expr(kind, spec_accessor_name(field.identity))),
            None => None,
        }
    }

    /// Resolve the write template of one field.
    pub fn match_setter_template(field: &FieldDescriptor) -> (r: Option<String>)
        ensures
            (match r {
                Some(t) => Some(t@),
                None => None::<Seq<char>>,
            }) == Self::spec_match_setter_template(*field),
    {
        let name = accessor_name(&field.identity);
        match wrap_category(field.type_text.as_str()) {
            Some(WrapKind::RwLock) => Some(Self::sync_rwlock_setter(name.as_str(), "value")),
            Some(WrapKind::Mutex) => Some(Self::sync_mutex_setter(name.as_str(), "value")),
            Some(WrapKind::Cell) => Some(Self::cell_setter(name.as_str(), "value")),
            Some(WrapKind::RefCell) => Some(Self::refcell_setter(name.as_str(), "value")),
            None => None,
        }
    }

    /// Resolve the read template of one field.
    pub fn match_getter_template(field: &FieldDescriptor) -> (r: Option<String>)
        ensures
            (match r {
                Some(t) => Some(t@),
                None => None::<Seq<char>>,
            }) == Self::spec_match_getter_template(*field),
    {
        let name = accessor_name(&field.identity);
        match wrap_category(field.type_text.as_str()) {
            Some(WrapKind::RwLock) => Some(Self::sync_rwlock_getter(name.as_str())),
            Some(WrapKind::Mutex) => Some(Self::sync_mutex_getter(name.as_str())),
            Some(WrapKind::Cell) => Some(Self::cell_getter(name.as_str())),
            Some(WrapKind::RefCell) => Some(Self::refcell_getter(name.as_str())),
            None => None,
        }
    }
}

} // verus!
