use dataclass::driver::dataclass_derive;
use dataclass::driver::record_wf_check;
use dataclass::model::Annotation;
use dataclass::model::AnnotationMeta;
use dataclass::model::ConfigEntry;
use dataclass::model::DeriveError;
use dataclass::model::FieldDescriptor;
use dataclass::model::FieldIdentity;
use dataclass::model::GroupEntry;
use dataclass::model::MetaValue;
use dataclass::model::RecordDef;
use dataclass::model::RecordShape;

fn named_field(name: &str, ty: &str) -> FieldDescriptor {
    FieldDescriptor {
        identity: FieldIdentity::Named(name.to_string()),
        type_text: ty.to_string(),
        annotations: Vec::new(),
    }
}

fn named_field_with(name: &str, ty: &str, entries: Vec<GroupEntry>) -> FieldDescriptor {
    FieldDescriptor {
        identity: FieldIdentity::Named(name.to_string()),
        type_text: ty.to_string(),
        annotations: vec![Annotation {
            path: "dataclass".to_string(),
            meta: AnnotationMeta::Entries(entries),
        }],
    }
}

fn positional_field(index: usize, ty: &str) -> FieldDescriptor {
    FieldDescriptor {
        identity: FieldIdentity::Positional(index),
        type_text: ty.to_string(),
        annotations: Vec::new(),
    }
}

fn group(key: &str, entries: Vec<ConfigEntry>) -> GroupEntry {
    GroupEntry {
        key: key.to_string(),
        args: Some(entries),
    }
}

fn bare(key: &str) -> GroupEntry {
    GroupEntry {
        key: key.to_string(),
        args: None,
    }
}

fn key_str(key: &str, value: &str) -> ConfigEntry {
    ConfigEntry {
        key: key.to_string(),
        value: MetaValue::Str(value.to_string()),
    }
}

fn key_bool(key: &str, value: bool) -> ConfigEntry {
    ConfigEntry {
        key: key.to_string(),
        value: MetaValue::Bool(value),
    }
}

fn named_record(ident: &str, fields: Vec<FieldDescriptor>) -> RecordDef {
    RecordDef {
        ident: ident.to_string(),
        shape: RecordShape::Named(fields),
    }
}

#[test]
fn unannotated_scalar_field_gets_default_accessors() {
    let record = named_record("Point", vec![named_field("x", "u32")]);
    let out = dataclass_derive(&record).unwrap();
    assert_eq!(
        out,
        "impl Point { pub fn get_x(&self) -> u32 { self.x } \
         pub fn set_x(&mut self, value: u32) { self.x = value; } }"
    );
}

#[test]
fn name_trimming_strips_edge_markers_only() {
    let record = named_record("Person", vec![named_field("_age_", "u16")]);
    let out = dataclass_derive(&record).unwrap();
    assert_eq!(
        out,
        "impl Person { pub fn get_age(&self) -> u16 { self._age_ } \
         pub fn set_age(&mut self, value: u16) { self._age_ = value; } }"
    );
}

#[test]
fn name_trimming_keeps_interior_markers() {
    let record = named_record("Rec", vec![named_field("_first_name_", "u8")]);
    let out = dataclass_derive(&record).unwrap();
    assert!(out.contains("fn get_first_name(&self)"));
    assert!(out.contains("fn set_first_name(&mut self"));
    assert!(out.contains("self._first_name_"));
}

#[test]
fn all_marker_name_trims_to_empty_base() {
    let record = named_record("Rec", vec![named_field("___", "u8")]);
    let out = dataclass_derive(&record).unwrap();
    assert!(out.contains("fn get_(&self)"));
    assert!(out.contains("self.___"));
}

#[test]
fn owned_text_getter_returns_borrowed_view() {
    let record = named_record("Person", vec![named_field("name", "String")]);
    let out = dataclass_derive(&record).unwrap();
    assert_eq!(
        out,
        "impl Person { pub fn get_name(&self) -> &str { &self.name } \
         pub fn set_name(&mut self, value: String) { self.name = value; } }"
    );
}

#[test]
fn whole_scenario_text_and_locked_integer() {
    let record = named_record(
        "Person",
        vec![named_field("name", "String"), named_field("age", "RwLock<u16>")],
    );
    let out = dataclass_derive(&record).unwrap();
    assert_eq!(
        out,
        "impl Person { pub fn get_name(&self) -> &str { &self.name } \
         pub fn set_name(&mut self, value: String) { self.name = value; } \
         pub fn get_age(&self) -> u16 { *self.age.read().unwrap() } \
         pub fn set_age(&self, value: u16) { *self.age.write().unwrap() = value; } }"
    );
}

#[test]
fn field_level_skip_emits_nothing() {
    let record = named_record(
        "Rec",
        vec![named_field_with("hidden", "u8", vec![bare("skip")])],
    );
    let out = dataclass_derive(&record).unwrap();
    assert_eq!(out, "impl Rec { }");
}

#[test]
fn field_level_skip_short_circuits_later_entries() {
    // A fatal `name` value after a field-level skip is never reached.
    let record = named_record(
        "Rec",
        vec![named_field_with(
            "hidden",
            "u8",
            vec![
                bare("skip"),
                group("setter", vec![key_bool("name", true)]),
            ],
        )],
    );
    let out = dataclass_derive(&record).unwrap();
    assert_eq!(out, "impl Rec { }");
}

#[test]
fn fatal_entry_before_skip_still_aborts() {
    let record = named_record(
        "Rec",
        vec![named_field_with(
            "hidden",
            "u8",
            vec![
                group("setter", vec![key_bool("name", true)]),
                bare("skip"),
            ],
        )],
    );
    assert_eq!(dataclass_derive(&record), Err(DeriveError::NameNotString));
}

#[test]
fn side_skip_drops_only_that_side() {
    let record = named_record(
        "Rec",
        vec![named_field_with(
            "x",
            "u8",
            vec![group("getter", vec![ConfigEntry {
                key: "skip".to_string(),
                value: MetaValue::Absent,
            }])],
        )],
    );
    let out = dataclass_derive(&record).unwrap();
    assert_eq!(out, "impl Rec { pub fn set_x(&mut self, value: u8) { self.x = value; } }");
}

#[test]
fn rwlock_templates_substitute_identity() {
    let record = named_record("Rec", vec![named_field("age", "RwLock<u16>")]);
    let out = dataclass_derive(&record).unwrap();
    assert!(out.contains("{ *self.age.read().unwrap() }"));
    assert!(out.contains("{ *self.age.write().unwrap() = value; }"));
}

#[test]
fn mutex_templates_substitute_identity() {
    let record = named_record("Rec", vec![named_field("m", "Mutex<i64>")]);
    let out = dataclass_derive(&record).unwrap();
    assert_eq!(
        out,
        "impl Rec { pub fn get_m(&self) -> i64 { *self.m.lock().unwrap() } \
         pub fn set_m(&self, value: i64) { *self.m.lock().unwrap() = value; } }"
    );
}

#[test]
fn cell_templates_substitute_identity() {
    let record = named_record("Rec", vec![named_field("c", "Cell<u8>")]);
    let out = dataclass_derive(&record).unwrap();
    assert_eq!(
        out,
        "impl Rec { pub fn get_c(&self) -> u8 { self.c.get() } \
         pub fn set_c(&self, value: u8) { self.c.set(value); } }"
    );
}

#[test]
fn refcell_templates_substitute_identity() {
    let record = named_record("Rec", vec![named_field("r", "RefCell<i8>")]);
    let out = dataclass_derive(&record).unwrap();
    assert_eq!(
        out,
        "impl Rec { pub fn get_r(&self) -> i8 { *self.r.borrow() } \
         pub fn set_r(&self, value: i8) { *self.r.borrow_mut() = value; } }"
    );
}

#[test]
fn wrapper_inner_type_keeps_nested_generics() {
    let record = named_record("Rec", vec![named_field("v", "RwLock<Vec<u8>>")]);
    let out = dataclass_derive(&record).unwrap();
    assert_eq!(
        out,
        "impl Rec { pub fn get_v(&self) -> Vec<u8> { *self.v.read().unwrap() } \
         pub fn set_v(&self, value: Vec<u8>) { *self.v.write().unwrap() = value; } }"
    );
}

#[test]
fn wrapper_nested_in_other_generic_is_not_detected() {
    let record = named_record("Rec", vec![named_field("o", "Option<RwLock<u16>>")]);
    let out = dataclass_derive(&record).unwrap();
    assert_eq!(
        out,
        "impl Rec { pub fn get_o(&self) -> &Option<RwLock<u16>> { &self.o } \
         pub fn set_o(&mut self, value: Option<RwLock<u16>>) { self.o = value; } }"
    );
}

#[test]
fn deriving_twice_is_byte_identical() {
    let record = named_record(
        "Person",
        vec![
            named_field("_name_", "String"),
            named_field("age", "RwLock<u16>"),
            named_field_with("flags", "u32", vec![group("getter", vec![key_bool("const", true)])]),
        ],
    );
    let first = dataclass_derive(&record).unwrap();
    let second = dataclass_derive(&record).unwrap();
    assert_eq!(first, second);
}

#[test]
fn positional_fields_use_index_names() {
    let record = RecordDef {
        ident: "Triple".to_string(),
        shape: RecordShape::Positional(vec![
            positional_field(0, "u8"),
            positional_field(1, "u8"),
            positional_field(2, "u8"),
        ]),
    };
    let out = dataclass_derive(&record).unwrap();
    assert!(out.contains("pub fn get_field_2(&self) -> u8 { self.2 }"));
    assert!(out.contains("pub fn set_field_2(&mut self, value: u8) { self.2 = value; }"));
}

#[test]
fn two_digit_positional_index_renders_in_decimal() {
    let mut fields = Vec::new();
    for i in 0usize..11 {
        fields.push(positional_field(i, "u8"));
    }
    let record = RecordDef {
        ident: "Wide".to_string(),
        shape: RecordShape::Positional(fields),
    };
    let out = dataclass_derive(&record).unwrap();
    assert!(out.contains("pub fn get_field_10(&self) -> u8 { self.10 }"));
}

#[test]
fn setter_scope_restricts_to_crate() {
    let record = named_record(
        "Rec",
        vec![named_field_with(
            "x",
            "u8",
            vec![group("setter", vec![key_str("pub_scope", "crate")])],
        )],
    );
    let out = dataclass_derive(&record).unwrap();
    assert_eq!(
        out,
        "impl Rec { pub fn get_x(&self) -> u8 { self.x } \
         pub(crate) fn set_x(&mut self, value: u8) { self.x = value; } }"
    );
}

#[test]
fn const_on_scalar_getter_is_applied() {
    let record = named_record(
        "Rec",
        vec![named_field_with(
            "x",
            "u16",
            vec![group("getter", vec![key_bool("const", true)])],
        )],
    );
    let out = dataclass_derive(&record).unwrap();
    assert!(out.contains("pub const fn get_x(&self) -> u16 { self.x }"));
}

#[test]
fn const_on_non_scalar_getter_has_no_effect() {
    let with_const = named_record(
        "Rec",
        vec![named_field_with(
            "s",
            "String",
            vec![group("getter", vec![key_bool("const", true)])],
        )],
    );
    let without = named_record("Rec", vec![named_field("s", "String")]);
    assert_eq!(
        dataclass_derive(&with_const).unwrap(),
        dataclass_derive(&without).unwrap()
    );
}

#[test]
fn const_on_setter_side_is_ignored() {
    let record = named_record(
        "Rec",
        vec![named_field_with(
            "x",
            "u16",
            vec![group("setter", vec![key_bool("const", true)])],
        )],
    );
    let out = dataclass_derive(&record).unwrap();
    assert!(!out.contains("const"));
}

#[test]
fn name_override_is_used_verbatim() {
    let record = named_record(
        "Rec",
        vec![named_field_with(
            "_x_",
            "u8",
            vec![
                group("getter", vec![key_str("name", "read_x")]),
                group("setter", vec![key_str("name", "write_x")]),
            ],
        )],
    );
    let out = dataclass_derive(&record).unwrap();
    assert_eq!(
        out,
        "impl Rec { pub fn read_x(&self) -> u8 { self._x_ } \
         pub fn write_x(&mut self, value: u8) { self._x_ = value; } }"
    );
}

#[test]
fn as_ref_false_drops_reference() {
    let record = named_record(
        "Rec",
        vec![named_field_with(
            "s",
            "String",
            vec![group("getter", vec![key_bool("as_ref", false)])],
        )],
    );
    let out = dataclass_derive(&record).unwrap();
    assert!(out.contains("pub fn get_s(&self) -> str { self.s }"));
}

#[test]
fn pub_false_makes_accessor_private() {
    let record = named_record(
        "Rec",
        vec![named_field_with(
            "x",
            "u8",
            vec![group("getter", vec![key_bool("pub", false)])],
        )],
    );
    let out = dataclass_derive(&record).unwrap();
    assert_eq!(
        out,
        "impl Rec { fn get_x(&self) -> u8 { self.x } \
         pub fn set_x(&mut self, value: u8) { self.x = value; } }"
    );
}

#[test]
fn pub_false_after_scope_wins() {
    let record = named_record(
        "Rec",
        vec![named_field_with(
            "x",
            "u8",
            vec![group("setter", vec![
                key_str("pub_scope", "crate"),
                key_bool("pub", false),
            ])],
        )],
    );
    let out = dataclass_derive(&record).unwrap();
    assert!(out.contains(" fn set_x(&mut self, value: u8)"));
    assert!(!out.contains("pub(crate)"));
}

#[test]
fn unrecognized_keys_are_ignored() {
    let record = named_record(
        "Rec",
        vec![named_field_with(
            "x",
            "u8",
            vec![
                bare("wibble"),
                group("getter", vec![key_bool("wobble", true)]),
            ],
        )],
    );
    let out = dataclass_derive(&record).unwrap();
    assert_eq!(
        out,
        "impl Rec { pub fn get_x(&self) -> u8 { self.x } \
         pub fn set_x(&mut self, value: u8) { self.x = value; } }"
    );
}

#[test]
fn bare_boolean_keys_default_to_true() {
    // `as_ref` written bare reads as true, so the default behaviour stays.
    let record = named_record(
        "Rec",
        vec![named_field_with(
            "s",
            "String",
            vec![group("getter", vec![ConfigEntry {
                key: "as_ref".to_string(),
                value: MetaValue::Absent,
            }])],
        )],
    );
    let out = dataclass_derive(&record).unwrap();
    assert!(out.contains("pub fn get_s(&self) -> &str { &self.s }"));
}

#[test]
fn non_boolean_flag_value_reads_as_false() {
    let record = named_record(
        "Rec",
        vec![named_field_with(
            "s",
            "String",
            vec![group("getter", vec![key_str("as_ref", "yes")])],
        )],
    );
    let out = dataclass_derive(&record).unwrap();
    assert!(out.contains("pub fn get_s(&self) -> str { self.s }"));
}

#[test]
fn bare_name_key_resets_the_override() {
    let record = named_record(
        "Rec",
        vec![named_field_with(
            "x",
            "u8",
            vec![group("getter", vec![
                key_str("name", "renamed"),
                ConfigEntry {
                    key: "name".to_string(),
                    value: MetaValue::Absent,
                },
            ])],
        )],
    );
    let out = dataclass_derive(&record).unwrap();
    assert!(out.contains("pub fn get_x(&self)"));
    assert!(!out.contains("renamed"));
}

#[test]
fn bare_scope_key_means_plain_public() {
    let record = named_record(
        "Rec",
        vec![named_field_with(
            "x",
            "u8",
            vec![group("setter", vec![ConfigEntry {
                key: "pub_scope".to_string(),
                value: MetaValue::Absent,
            }])],
        )],
    );
    let out = dataclass_derive(&record).unwrap();
    assert!(out.contains("pub fn set_x(&mut self, value: u8)"));
}

#[test]
fn well_formedness_check_accepts_and_rejects() {
    let good = named_record(
        "Rec",
        vec![named_field("x", "u8"), named_field("age", "RwLock<u16>")],
    );
    assert!(record_wf_check(&good));
    // A detected wrapper spelled without its generic argument has no inner
    // type to extract.
    let bare_wrapper = named_record("Rec", vec![named_field("x", "RwLock")]);
    assert!(!record_wf_check(&bare_wrapper));
    // A positional field must sit at its own index.
    let misplaced = RecordDef {
        ident: "Rec".to_string(),
        shape: RecordShape::Positional(vec![positional_field(1, "u8")]),
    };
    assert!(!record_wf_check(&misplaced));
    // A named record must not hold positional identities.
    let mixed = RecordDef {
        ident: "Rec".to_string(),
        shape: RecordShape::Named(vec![positional_field(0, "u8")]),
    };
    assert!(!record_wf_check(&mixed));
    let unit = RecordDef {
        ident: "Rec".to_string(),
        shape: RecordShape::Unit,
    };
    assert!(record_wf_check(&unit));
}

#[test]
fn unit_record_derives_empty_impl() {
    let record = RecordDef {
        ident: "Empty".to_string(),
        shape: RecordShape::Unit,
    };
    assert_eq!(dataclass_derive(&record).unwrap(), "impl Empty { }");
}

#[test]
fn sum_type_shape_is_fatal() {
    let record = RecordDef {
        ident: "Choice".to_string(),
        shape: RecordShape::Variants,
    };
    assert_eq!(dataclass_derive(&record), Err(DeriveError::UnsupportedShape));
}

#[test]
fn opaque_shape_is_fatal() {
    let record = RecordDef {
        ident: "Blob".to_string(),
        shape: RecordShape::Opaque,
    };
    assert_eq!(dataclass_derive(&record), Err(DeriveError::UnsupportedShape));
}

#[test]
fn non_string_name_value_is_fatal() {
    let record = named_record(
        "Rec",
        vec![named_field_with(
            "x",
            "u8",
            vec![group("getter", vec![key_bool("name", true)])],
        )],
    );
    assert_eq!(dataclass_derive(&record), Err(DeriveError::NameNotString));
}

#[test]
fn non_string_scope_value_is_fatal() {
    let record = named_record(
        "Rec",
        vec![named_field_with(
            "x",
            "u8",
            vec![group("setter", vec![key_bool("pub_scope", true)])],
        )],
    );
    assert_eq!(dataclass_derive(&record), Err(DeriveError::ScopeNotString));
}

#[test]
fn unknown_scope_string_is_fatal() {
    let record = named_record(
        "Rec",
        vec![named_field_with(
            "x",
            "u8",
            vec![group("setter", vec![key_str("pub_scope", "world")])],
        )],
    );
    assert_eq!(dataclass_derive(&record), Err(DeriveError::UnknownScope));
}

#[test]
fn error_messages_describe_each_failure() {
    assert_eq!(
        DeriveError::NameNotString.message(),
        "name value must be a string literal"
    );
    assert_eq!(
        DeriveError::ScopeNotString.message(),
        "pub_scope value must be a string literal"
    );
    assert_eq!(DeriveError::UnknownScope.message(), "unsupported pub scope");
    assert_eq!(
        DeriveError::UnsupportedShape.message(),
        "accessor derivation supports single-shape records only"
    );
}

#[test]
fn named_fields_use_first_recognized_annotation() {
    let field = FieldDescriptor {
        identity: FieldIdentity::Named("x".to_string()),
        type_text: "u8".to_string(),
        annotations: vec![
            Annotation {
                path: "dataclass".to_string(),
                meta: AnnotationMeta::Entries(vec![group(
                    "getter",
                    vec![key_str("name", "first_wins")],
                )]),
            },
            Annotation {
                path: "dataclass".to_string(),
                meta: AnnotationMeta::Entries(vec![group(
                    "getter",
                    vec![key_str("name", "second_loses")],
                )]),
            },
        ],
    };
    let record = named_record("Rec", vec![field]);
    let out = dataclass_derive(&record).unwrap();
    assert!(out.contains("fn first_wins"));
    assert!(!out.contains("second_loses"));
}

#[test]
fn positional_fields_use_last_recognized_annotation() {
    let field = FieldDescriptor {
        identity: FieldIdentity::Positional(0),
        type_text: "u8".to_string(),
        annotations: vec![
            Annotation {
                path: "dataclass".to_string(),
                meta: AnnotationMeta::Entries(vec![group(
                    "getter",
                    vec![key_str("name", "first_loses")],
                )]),
            },
            Annotation {
                path: "dataclass".to_string(),
                meta: AnnotationMeta::Entries(vec![group(
                    "getter",
                    vec![key_str("name", "last_wins")],
                )]),
            },
        ],
    };
    let record = RecordDef {
        ident: "Rec".to_string(),
        shape: RecordShape::Positional(vec![field]),
    };
    let out = dataclass_derive(&record).unwrap();
    assert!(out.contains("fn last_wins"));
    assert!(!out.contains("first_loses"));
}

#[test]
fn unrelated_annotations_are_ignored() {
    let field = FieldDescriptor {
        identity: FieldIdentity::Named("x".to_string()),
        type_text: "u8".to_string(),
        annotations: vec![Annotation {
            path: "serde".to_string(),
            meta: AnnotationMeta::Entries(vec![bare("skip")]),
        }],
    };
    let record = named_record("Rec", vec![field]);
    let out = dataclass_derive(&record).unwrap();
    assert!(out.contains("fn get_x"));
    assert!(out.contains("fn set_x"));
}

#[test]
fn bare_marker_annotation_keeps_defaults() {
    let field = FieldDescriptor {
        identity: FieldIdentity::Named("x".to_string()),
        type_text: "u8".to_string(),
        annotations: vec![Annotation {
            path: "dataclass".to_string(),
            meta: AnnotationMeta::Marker,
        }],
    };
    let record = named_record("Rec", vec![field]);
    let out = dataclass_derive(&record).unwrap();
    assert_eq!(
        out,
        "impl Rec { pub fn get_x(&self) -> u8 { self.x } \
         pub fn set_x(&mut self, value: u8) { self.x = value; } }"
    );
}
