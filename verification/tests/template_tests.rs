use dataclass::model::DeriveError;
use dataclass::model::FieldDescriptor;
use dataclass::model::FieldIdentity;
use dataclass::scope::PubScope;
use dataclass::scope::Visibility;
use dataclass::template::DataclassTemplate;
use dataclass::template::WrapKind;
use dataclass::template::inner_type;
use dataclass::template::wrap_category;
use dataclass::attribute::DataclassAttribute;
use dataclass::text::str_eq;
use dataclass::text::trim_edge_chars;
use dataclass::text::type_head;
use dataclass::text::usize_to_string;

fn plain_field(name: &str, ty: &str) -> FieldDescriptor {
    FieldDescriptor {
        identity: FieldIdentity::Named(name.to_string()),
        type_text: ty.to_string(),
        annotations: Vec::new(),
    }
}

#[test]
fn copyable_allow_list_is_exact() {
    for ty in [
        "u8", "u16", "u32", "u64", "u128", "i8", "i16", "i32", "i64", "i128", "f32", "f64", "str",
    ] {
        assert!(DataclassTemplate::is_copyable(ty), "{ty} should be copyable");
    }
    assert!(!DataclassTemplate::is_copyable("String"));
    assert!(!DataclassTemplate::is_copyable("usize"));
    assert!(!DataclassTemplate::is_copyable("u8 "));
    assert!(!DataclassTemplate::is_copyable(""));
}

#[test]
fn return_type_maps_owned_text_to_borrowed() {
    assert_eq!(DataclassTemplate::return_type("String"), Some("str"));
    assert_eq!(DataclassTemplate::return_type("u64"), Some("u64"));
    assert_eq!(DataclassTemplate::return_type("Vec"), None);
    assert_eq!(DataclassTemplate::input_type("String"), Some("str"));
    assert_eq!(DataclassTemplate::input_type("i128"), Some("i128"));
    assert_eq!(DataclassTemplate::input_type("Foo"), None);
}

#[test]
fn template_builders_substitute_both_holes() {
    assert_eq!(
        DataclassTemplate::sync_rwlock_setter("age", "value"),
        "*self.age.write().unwrap() = value;"
    );
    assert_eq!(
        DataclassTemplate::sync_rwlock_getter("age"),
        "*self.age.read().unwrap()"
    );
    assert_eq!(
        DataclassTemplate::sync_mutex_setter("m", "value"),
        "*self.m.lock().unwrap() = value;"
    );
    assert_eq!(DataclassTemplate::sync_mutex_getter("m"), "*self.m.lock().unwrap()");
    assert_eq!(DataclassTemplate::cell_setter("c", "value"), "self.c.set(value);");
    assert_eq!(DataclassTemplate::cell_getter("c"), "self.c.get()");
    assert_eq!(
        DataclassTemplate::refcell_setter("r", "value"),
        "*self.r.borrow_mut() = value;"
    );
    assert_eq!(DataclassTemplate::refcell_getter("r"), "*self.r.borrow()");
}

#[test]
fn wrap_category_matches_head_token_only() {
    assert_eq!(wrap_category("RwLock<u16>"), Some(WrapKind::RwLock));
    assert_eq!(wrap_category("Mutex<String>"), Some(WrapKind::Mutex));
    assert_eq!(wrap_category("Cell<u8>"), Some(WrapKind::Cell));
    assert_eq!(wrap_category("RefCell<Vec<u8>>"), Some(WrapKind::RefCell));
    assert_eq!(wrap_category("Option<RwLock<u16>>"), None);
    assert_eq!(wrap_category("RwLockLike<u16>"), None);
    assert_eq!(wrap_category("u16"), None);
}

#[test]
fn match_templates_resolve_by_category() {
    let field = plain_field("age", "RwLock<u16>");
    assert_eq!(
        DataclassTemplate::match_getter_template(&field),
        Some("*self.age.read().unwrap()".to_string())
    );
    assert_eq!(
        DataclassTemplate::match_setter_template(&field),
        Some("*self.age.write().unwrap() = value;".to_string())
    );
    let plain = plain_field("age", "u16");
    assert_eq!(DataclassTemplate::match_getter_template(&plain), None);
    assert_eq!(DataclassTemplate::match_setter_template(&plain), None);
}

#[test]
fn positional_templates_use_decimal_index() {
    let field = FieldDescriptor {
        identity: FieldIdentity::Positional(3),
        type_text: "Cell<u8>".to_string(),
        annotations: Vec::new(),
    };
    assert_eq!(
        DataclassTemplate::match_getter_template(&field),
        Some("self.3.get()".to_string())
    );
    assert_eq!(
        DataclassTemplate::match_setter_template(&field),
        Some("self.3.set(value);".to_string())
    );
}

#[test]
fn head_and_inner_extraction() {
    assert_eq!(type_head("RwLock<u16>"), "RwLock");
    assert_eq!(type_head("u16"), "u16");
    assert_eq!(type_head("&str"), "");
    assert_eq!(inner_type("RwLock<u16>"), "u16");
    assert_eq!(inner_type("RwLock< u16 >"), "u16");
    assert_eq!(inner_type("RefCell<Vec<u8>>"), "Vec<u8>");
    assert_eq!(inner_type("Mutex<std::collections::BTreeMap<u8, u8>>"),
        "std::collections::BTreeMap<u8, u8>");
}

#[test]
fn string_utilities_behave() {
    assert!(str_eq("abc", "abc"));
    assert!(!str_eq("abc", "abd"));
    assert!(!str_eq("abc", "abcd"));
    assert_eq!(trim_edge_chars("_age_", '_'), "age");
    assert_eq!(trim_edge_chars("__a_b__", '_'), "a_b");
    assert_eq!(trim_edge_chars("___", '_'), "");
    assert_eq!(trim_edge_chars("age", '_'), "age");
    assert_eq!(usize_to_string(0), "0");
    assert_eq!(usize_to_string(7), "7");
    assert_eq!(usize_to_string(12034), "12034");
}

#[test]
fn scope_spellings_round_trip() {
    for (scope, text) in [
        (PubScope::Crate, "crate"),
        (PubScope::Super, "super"),
        (PubScope::Self_, "self"),
    ] {
        assert_eq!(scope.to_string(), text);
        assert_eq!(PubScope::from_str(text), Ok(scope));
    }
    assert_eq!(PubScope::from_str("world"), Err(DeriveError::UnknownScope));
    assert_eq!(PubScope::from_str(""), Err(DeriveError::UnknownScope));
}

#[test]
fn default_configurations_match_documented_defaults() {
    let getter = DataclassAttribute::getter();
    assert!(getter.is_getter);
    assert!(!getter.is_setter);
    assert!(getter.as_ref);
    assert!(!getter.is_skip);
    assert!(!getter.is_const);
    assert!(getter.name.is_none());
    assert_eq!(getter.visibility, Visibility::Public);
    let setter = DataclassAttribute::setter();
    assert!(setter.is_setter);
    assert!(!setter.is_getter);
    assert!(!setter.is_skip);
    assert!(setter.name.is_none());
    assert_eq!(setter.visibility, Visibility::Public);
}
