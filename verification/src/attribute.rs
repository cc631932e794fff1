//! Configuration parser and method synthesizer: resolves one getter
//! configuration and one setter configuration per field from its raw
//! annotation entries, and emits the full text of one accessor function.

use vstd::prelude::*;
use vstd::string::*;

use crate::model::AnnotationMeta;
use crate::model::ConfigEntry;
use crate::model::DeriveError;
use crate::model::FieldDescriptor;
use crate::model::GroupEntry;
use crate::model::MetaValue;
use crate::scope::PubScope;
use crate::scope::Visibility;
use crate::template::DataclassTemplate;
use crate::template::accessor_name;
use crate::template::field_type_wf;
use crate::template::inner_type;
use crate::template::inner_type_of;
use crate::template::spec_accessor_name;
use crate::template::spec_wrap_category;
use crate::text::head_of;
use crate::text::str_eq;
use crate::text::type_head;

verus! {

/// The resolved configuration of one accessor side of one field.
pub struct DataclassAttribute {
    /// Overrides the default accessor name when present.
    pub name: Option<String>,
    /// This configuration describes the setter side.
    pub is_setter: bool,
    /// This configuration describes the getter side.
    pub is_getter: bool,
    /// The resolved exposure of the generated accessor.
    pub visibility: Visibility,
    /// Getter only: return a reference instead of a copy, when legal.
    pub as_ref: bool,
    /// Getter only: mark the accessor compile-time evaluable, applicable
    /// only over a copyable scalar type.
    pub is_const: bool,
    /// No accessor is emitted for this side.
    pub is_skip: bool,
}

/// The truth value of a boolean configuration key: true when the key stands
/// bare, its literal value when it carries one, and false when the value is
/// not a boolean literal.
pub open spec fn spec_flag_value(v: MetaValue) -> bool {
    match v {
        MetaValue::Absent => true,
        MetaValue::Bool(b) => b,
        MetaValue::Str(_) => false,
        MetaValue::Other => false,
    }
}

fn flag_value(v: &MetaValue) -> (r: bool)
    ensures
        r == spec_flag_value(*v),
{
    match v {
        MetaValue::Absent => true,
        MetaValue::Bool(b) => *b,
        MetaValue::Str(_) => false,
        MetaValue::Other => false,
    }
}

impl DataclassAttribute {
    /// The default setter configuration: public, nothing else set.
    pub open spec fn spec_setter() -> DataclassAttribute {
        DataclassAttribute {
            name: None,
            is_setter: true,
            is_getter: false,
            visibility: Visibility::Public,
            as_ref: false,
            is_const: false,
            is_skip: false,
        }
    }

    /// The default getter configuration: public and reference-returning.
    pub open spec fn spec_getter() -> DataclassAttribute {
        DataclassAttribute {
            name: None,
            is_setter: false,
            is_getter: true,
            visibility: Visibility::Public,
            as_ref: true,
            is_const: false,
            is_skip: false,
        }
    }

    /// Build the default setter configuration.
    pub fn setter() -> (r: Self)
        ensures
            r == Self::spec_setter(),
    {
        DataclassAttribute {
            name: None,
            is_setter: true,
            is_getter: false,
            visibility: Visibility::Public,
            as_ref: false,
            is_const: false,
            is_skip: false,
        }
    }

    /// Build the default getter configuration.
    pub fn getter() -> (r: Self)
        ensures
            r == Self::spec_getter(),
    {
        DataclassAttribute {
            name: None,
            is_setter: false,
            is_getter: true,
            visibility: Visibility::Public,
            as_ref: true,
            is_const: false,
            is_skip: false,
        }
    }

    /// The effect of one nested `key` / `key = value` entry on a side's
    /// configuration. A `name` or `pub_scope` value that is not a string
    /// literal is fatal, as is an unrecognized scope string; every
    /// unrecognized key is silently ignored.
    pub open spec fn spec_setup(cfg: DataclassAttribute, entry: ConfigEntry) -> Result<
        DataclassAttribute,
        DeriveError,
    > {
        if entry.key@ == "name"@ {
            match entry.value {
                MetaValue::Absent => Ok(DataclassAttribute { name: None, ..cfg }),
                MetaValue::Str(s) => Ok(DataclassAttribute { name: Some(s), ..cfg }),
                MetaValue::Bool(_) => Err(DeriveError::NameNotString),
                MetaValue::Other => Err(DeriveError::NameNotString),
            }
        } else if entry.key@ == "as_ref"@ {
            Ok(DataclassAttribute { as_ref: spec_flag_value(entry.value), ..cfg })
        } else if entry.key@ == "pub"@ {
            Ok(
                DataclassAttribute {
                    visibility: if spec_flag_value(entry.value) {
                        Visibility::Public
                    } else {
                        Visibility::Private
                    },
                    ..cfg
                },
            )
        } else if entry.key@ == "const"@ {
            if cfg.is_getter {
                Ok(DataclassAttribute { is_const: spec_flag_value(entry.value), ..cfg })
            } else {
                Ok(cfg)
            }
        } else if entry.key@ == "skip"@ {
            Ok(DataclassAttribute { is_skip: true, ..cfg })
        } else if entry.key@ == "pub_scope"@ {
            match entry.value {
                MetaValue::Absent => Ok(
                    DataclassAttribute { visibility: Visibility::Public, ..cfg },
                ),
                MetaValue::Str(s) => match PubScope::spec_from_str(s@) {
                    Ok(scope) => Ok(
                        DataclassAttribute {
                            visibility: Visibility::PublicScoped(scope),
                            ..cfg
                        },
                    ),
                    Err(e) => Err(e),
                },
                MetaValue::Bool(_) => Err(DeriveError::ScopeNotString),
                MetaValue::Other => Err(DeriveError::ScopeNotString),
            }
        } else {
            Ok(cfg)
        }
    }

    /// Apply one nested configuration entry to this side.
    pub fn setup(&mut self, entry: &ConfigEntry) -> (r: Result<(), DeriveError>)
        ensures
            match r {
                Ok(_) => Self::spec_setup(*old(self), *entry) == Ok::<_, DeriveError>(
                    *final(self),
                ),
                Err(e) => Self::spec_setup(*old(self), *entry) == Err::<DataclassAttribute, _>(e)
                    && *final(self) == *old(self),
            },
    {
        if str_eq(entry.key.as_str(), "name") {
            match &entry.value {
                MetaValue::Absent => {
                    self.name = None;
                    Ok(())
                },
                MetaValue::Str(s) => {
                    self.name = Some(s.clone());
                    Ok(())
                },
                MetaValue::Bool(_) => Err(DeriveError::NameNotString),
                MetaValue::Other => Err(DeriveError::NameNotString),
            }
        } else if str_eq(entry.key.as_str(), "as_ref") {
            self.as_ref = flag_value(&entry.value);
            Ok(())
        } else if str_eq(entry.key.as_str(), "pub") {
            self.visibility = if flag_value(&entry.value) {
                Visibility::Public
            } else {
                Visibility::Private
            };
            Ok(())
        } else if str_eq(entry.key.as_str(), "const") {
            if self.is_getter {
                self.is_const = flag_value(&entry.value);
            }
            Ok(())
        } else if str_eq(entry.key.as_str(), "skip") {
            self.is_skip = true;
            Ok(())
        } else if str_eq(entry.key.as_str(), "pub_scope") {
            match &entry.value {
                MetaValue::Absent => {
                    self.visibility = Visibility::Public;
                    Ok(())
                },
                MetaValue::Str(s) => match PubScope::from_str(s.as_str()) {
                    Ok(scope) => {
                        self.visibility = Visibility::PublicScoped(scope);
                        Ok(())
                    },
                    Err(e) => Err(e),
                },
                MetaValue::Bool(_) => Err(DeriveError::ScopeNotString),
                MetaValue::Other => Err(DeriveError::ScopeNotString),
            }
        } else {
            Ok(())
        }
    }

    /// The effect of a whole `getter(...)` or `setter(...)` group on one
    /// side, entry by entry in declaration order; the first fatal entry
    /// aborts.
    pub open spec fn spec_apply_entries(cfg: DataclassAttribute, entries: Seq<ConfigEntry>) -> Result<
        DataclassAttribute,
        DeriveError,
    >
        decreases entries.len(),
    {
        if entries.len() == 0 {
            Ok(cfg)
        } else {
            match Self::spec_setup(cfg, entries[0]) {
                Ok(next) => Self::spec_apply_entries(next, entries.skip(1)),
                Err(e) => Err(e),
            }
        }
    }

    /// Apply a whole group of nested entries to this side.
    pub fn apply_entries(&mut self, entries: &Vec<ConfigEntry>) -> (r: Result<(), DeriveError>)
        ensures
            match r {
                Ok(_) => Self::spec_apply_entries(*old(self), entries@) == Ok::<_, DeriveError>(
                    *final(self),
                ),
                Err(e) => Self::spec_apply_entries(*old(self), entries@) == Err::<
                    DataclassAttribute,
                    _,
                >(e),
            },
    {
        let n: usize = entries.len();
        let mut i: usize = 0;
        proof {
            assert(entries@.skip(0) =~= entries@);
        }
        while i < n
            invariant
                i <= n,
                n == entries@.len(),
                Self::spec_apply_entries(*old(self), entries@) == Self::spec_apply_entries(
                    *self,
                    entries@.skip(i as int),
                ),
            decreases n - i,
        {
            let ghost pre = *self;
            let r = self.setup(&entries[i]);
            proof {
                assert(entries@.skip(i as int)[0] == entries@[i as int]);
                assert(entries@.skip(i as int).skip(1) =~= entries@.skip(i as int + 1));
            }
            match r {
                Ok(_) => {},
                Err(e) => {
                    return Err(e);
                },
            }
            i = i + 1;
        }
        proof {
            assert(entries@.skip(n as int) =~= Seq::<ConfigEntry>::empty());
        }
        Ok(())
    }

    /// The walk over the top-level entries of the configuration annotation:
    /// a field-wide `skip` marks both sides skipped and ignores every later
    /// entry; `setter(...)` and `getter(...)` groups are applied to their
    /// side; everything else is ignored.
    pub open spec fn spec_scan_entries(
        getter_cfg: DataclassAttribute,
        setter_cfg: DataclassAttribute,
        entries: Seq<GroupEntry>,
    ) -> Result<(DataclassAttribute, DataclassAttribute), DeriveError>
        decreases entries.len(),
    {
        if entries.len() == 0 {
            Ok((getter_cfg, setter_cfg))
        } else {
            let e = entries[0];
            if e.key@ == "skip"@ {
                Ok(
                    (
                        DataclassAttribute { is_skip: true, ..getter_cfg },
                        DataclassAttribute { is_skip: true, ..setter_cfg },
                    ),
                )
            } else if e.key@ == "setter"@ {
                match e.args {
                    Some(args) => match Self::spec_apply_entries(setter_cfg, args@) {
                        Ok(next) => Self::spec_scan_entries(getter_cfg, next, entries.skip(1)),
                        Err(err) => Err(err),
                    },
                    None => Self::spec_scan_entries(getter_cfg, setter_cfg, entries.skip(1)),
                }
            } else if e.key@ == "getter"@ {
                match e.args {
                    Some(args) => match Self::spec_apply_entries(getter_cfg, args@) {
                        Ok(next) => Self::spec_scan_entries(next, setter_cfg, entries.skip(1)),
                        Err(err) => Err(err),
                    },
                    None => Self::spec_scan_entries(getter_cfg, setter_cfg, entries.skip(1)),
                }
            } else {
                Self::spec_scan_entries(getter_cfg, setter_cfg, entries.skip(1))
            }
        }
    }

    /// The pair of configurations resolved from one raw annotation: both
    /// sides at their defaults for a bare or `path = value` annotation, and
    /// the entry walk above for a parenthesized one.
    pub open spec fn spec_of(meta: AnnotationMeta) -> Result<
        (DataclassAttribute, DataclassAttribute),
        DeriveError,
    > {
        match meta {
            AnnotationMeta::Marker => Ok((Self::spec_getter(), Self::spec_setter())),
            AnnotationMeta::KeyValue => Ok((Self::spec_getter(), Self::spec_setter())),
            AnnotationMeta::Entries(entries) => Self::spec_scan_entries(
                Self::spec_getter(),
                Self::spec_setter(),
                entries@,
            ),
        }
    }

    /// Resolve the (getter, setter) configuration pair of one annotation.
    pub fn of(meta: &AnnotationMeta) -> (r: Result<
        (DataclassAttribute, DataclassAttribute),
        DeriveError,
    >)
        ensures
            r == Self::spec_of(*meta),
    {
        let mut getter_cfg = Self::getter();
        let mut setter_cfg = Self::setter();
        match meta {
            AnnotationMeta::Marker => Ok((getter_cfg, setter_cfg)),
            AnnotationMeta::KeyValue => Ok((getter_cfg, setter_cfg)),
            AnnotationMeta::Entries(entries) => {
                let n: usize = entries.len();
                let mut i: usize = 0;
                proof {
                    assert(entries@.skip(0) =~= entries@);
                }
                while i < n
                    invariant
                        i <= n,
                        n == entries@.len(),
                        Self::spec_of(*meta) == Self::spec_scan_entries(
                            getter_cfg,
                            setter_cfg,
                            entries@.skip(i as int),
                        ),
                    decreases n - i,
                {
                    proof {
                        assert(entries@.skip(i as int)[0] == entries@[i as int]);
                        assert(entries@.skip(i as int).skip(1) =~= entries@.skip(i as int + 1));
                    }
                    let e = &entries[i];
                    if str_eq(e.key.as_str(), "skip") {
                        getter_cfg.is_skip = true;
                        setter_cfg.is_skip = true;
                        return Ok((getter_cfg, setter_cfg));
                    } else if str_eq(e.key.as_str(), "setter") {
                        match &e.args {
                            Some(args) => {
                                match setter_cfg.apply_entries(args) {
                                    Ok(_) => {},
                                    Err(err) => {
                                        return Err(err);
                                    },
                                }
                            },
                            None => {},
                        }
                    } else if str_eq(e.key.as_str(), "getter") {
                        match &e.args {
                            Some(args) => {
                                match getter_cfg.apply_entries(args) {
                                    Ok(_) => {},
                                    Err(err) => {
                                        return Err(err);
                                    },
                                }
                            },
                            None => {},
                        }
                    }
                    i = i + 1;
                }
                proof {
                    assert(entries@.skip(n as int) =~= Seq::<GroupEntry>::empty());
                }
                Ok((getter_cfg, setter_cfg))
            },
        }
    }

    /// The name the emitted accessor carries: the caller-supplied default
    /// when one was passed, otherwise the configured override.
    pub open spec fn spec_pick_name(method_name: Option<String>, cfg_name: Option<String>) -> Seq<
        char,
    > {
        match method_name {
            Some(n) => n@,
            None => match cfg_name {
                Some(n) => n@,
                None => Seq::<char>::empty(),
            },
        }
    }

    /// The complete source text of one accessor function, synthesized from a
    /// resolved configuration, a resolved method name, and a field.
    pub open spec fn spec_method_text(
        cfg: DataclassAttribute,
        name: Seq<char>,
        field: FieldDescriptor,
    ) -> Seq<char> {
        let tt = field.type_text@;
        let head = head_of(tt);
        let acc = spec_accessor_name(field.identity);
        let cst: Seq<char> = if cfg.is_const && cfg.is_getter
            && DataclassTemplate::spec_is_copyable(head) {
            "const "@
        } else {
            Seq::<char>::empty()
        };
        let intro = cfg.visibility.spec_prefix() + cst + "fn "@ + name;
        if cfg.is_setter {
            match spec_wrap_category(tt) {
                Some(kind) => intro + "(&self, value: "@ + inner_type_of(tt) + ") { "@
                    + DataclassTemplate::spec_write_stmt(kind, acc) + " }"@,
                None => intro + "(&mut self, value: "@ + tt + ") { self."@ + acc
                    + " = value; }"@,
            }
        } else {
            let opened = intro + "(&self) -> "@;
            match spec_wrap_category(tt) {
                Some(kind) => opened + inner_type_of(tt) + " { "@
                    + DataclassTemplate::spec_read_expr(kind, acc) + " }"@,
                None => {
                    let amp: Seq<char> = if cfg.as_ref && !DataclassTemplate::spec_is_copyable(
                        head,
                    ) {
                        "&"@
                    } else {
                        Seq::<char>::empty()
                    };
                    let ret = match DataclassTemplate::spec_return_type(head) {
                        Some(t) => t,
                        None => tt,
                    };
                    opened + amp + ret + " { "@ + amp + "self."@ + acc + " }"@
                },
            }
        }
    }

    /// Synthesize the text of one accessor: visibility, constness, name,
    /// receiver, parameter or return type, and the resolved body.
    pub fn generate_method(&self, method_name: Option<String>, field: &FieldDescriptor) -> (r:
        String)
        requires
            method_name is Some || self.name is Some,
            field_type_wf(field.type_text@),
        ensures
            r@ == Self::spec_method_text(
                *self,
                Self::spec_pick_name(method_name, self.name),
                *field,
            ),
    {
        let mut s = String::new();
        s.append(self.visibility.prefix());
        let ty_head: &str = type_head(field.type_text.as_str());
        if self.is_const && self.is_getter && DataclassTemplate::is_copyable(ty_head) {
            s.append("const ");
        }
        s.append("fn ");
        match &method_name {
            Some(n) => s.append(n.as_str()),
            None => {
                match &self.name {
                    Some(n) => s.append(n.as_str()),
                    None => {
                        proof {
                            assert(false);
                        }
                    },
                }
            },
        }
        let acc = accessor_name(&field.identity);
        if self.is_setter {
            match DataclassTemplate::match_setter_template(field) {
                Some(template) => {
                    s.append("(&self, value: ");
                    let inner: &str = inner_type(field.type_text.as_str());
                    s.append(inner);
                    s.append(") { ");
                    s.append(template.as_str());
                    s.append(" }");
                },
                None => {
                    s.append("(&mut self, value: ");
                    s.append(field.type_text.as_str());
                    s.append(") { self.");
                    s.append(acc.as_str());
                    s.append(" = value; }");
                },
            }
        } else {
            s.append("(&self) -> ");
            match DataclassTemplate::match_getter_template(field) {
                Some(template) => {
                    let inner: &str = inner_type(field.type_text.as_str());
                    s.append(inner);
                    s.append(" { ");
                    s.append(template.as_str());
                    s.append(" }");
                },
                None => {
                    let amp: bool = self.as_ref && !DataclassTemplate::is_copyable(ty_head);
                    if amp {
                        s.append("&");
                    }
                    match DataclassTemplate::return_type(ty_head) {
                        Some(ret) => s.append(ret),
                        None => s.append(field.type_text.as_str()),
                    }
                    s.append(" { ");
                    if amp {
                        s.append("&");
                    }
                    s.append("self.");
                    s.append(acc.as_str());
                    s.append(" }");
                },
            }
        }
        proof {
            assert(s@ =~= Self::spec_method_text(
                *self,
                Self::spec_pick_name(method_name, self.name),
                *field,
            ));
        }
        s
    }
}

} // verus!
