//! Derivation driver: resolves the configuration pair of every field,
//! synthesizes the accessor methods, and assembles one implementation block
//! attached to the record's identity.

use vstd::prelude::*;
use vstd::string::*;

use crate::attribute::DataclassAttribute;
use crate::model::Annotation;
use crate::model::DeriveError;
use crate::model::FieldDescriptor;
use crate::model::FieldIdentity;
use crate::model::RecordDef;
use crate::model::RecordShape;
use crate::template::field_type_wf;
use crate::text::dec_digits;
use crate::text::str_eq;
use crate::text::trim_edge_chars;
use crate::text::trim_edges;
use crate::text::usize_to_string;

verus! {

/// The default base of a field's accessor names: the declared name with its
/// leading and trailing low-dash markers stripped, or `field_<index>` for a
/// positional field.
pub open spec fn spec_default_base(identity: FieldIdentity) -> Seq<char> {
    match identity {
        FieldIdentity::Named(n) => trim_edges(n@, '_'),
        FieldIdentity::Positional(i) => "field_"@ + dec_digits(i as nat),
    }
}

/// The name one side's accessor carries: the explicit override when one was
/// configured, the supplied default otherwise.
pub open spec fn spec_resolved_name(cfg_name: Option<String>, default: Seq<char>) -> Seq<char> {
    match cfg_name {
        Some(n) => n@,
        None => default,
    }
}

/// The configuration pair of a named field: resolved from the first
/// annotation whose path is the recognized configuration path, or both
/// defaults when the field carries none.
pub open spec fn spec_named_cfgs(anns: Seq<Annotation>) -> Result<
    (DataclassAttribute, DataclassAttribute),
    DeriveError,
>
    decreases anns.len(),
{
    if anns.len() == 0 {
        Ok((DataclassAttribute::spec_getter(), DataclassAttribute::spec_setter()))
    } else if anns[0].path@ == "dataclass"@ {
        DataclassAttribute::spec_of(anns[0].meta)
    } else {
        spec_named_cfgs(anns.skip(1))
    }
}

/// The configuration pair of a positional field: every recognized annotation
/// is resolved in order and the last one wins, but an earlier fatal one
/// still aborts.
pub open spec fn spec_cfgs_from(
    cur: (DataclassAttribute, DataclassAttribute),
    anns: Seq<Annotation>,
) -> Result<(DataclassAttribute, DataclassAttribute), DeriveError>
    decreases anns.len(),
{
    if anns.len() == 0 {
        Ok(cur)
    } else if anns[0].path@ == "dataclass"@ {
        match DataclassAttribute::spec_of(anns[0].meta) {
            Ok(next) => spec_cfgs_from(next, anns.skip(1)),
            Err(e) => Err(e),
        }
    } else {
        spec_cfgs_from(cur, anns.skip(1))
    }
}

/// The method texts one field contributes, once its configuration pair is
/// resolved: the getter's text unless the getter is skipped, then the
/// setter's text unless the setter is skipped.
pub open spec fn spec_side_texts(
    getter_cfg: DataclassAttribute,
    setter_cfg: DataclassAttribute,
    field: FieldDescriptor,
) -> Seq<Seq<char>> {
    let base = spec_default_base(field.identity);
    let getter_texts: Seq<Seq<char>> = if !getter_cfg.is_skip {
        seq![
            DataclassAttribute::spec_method_text(
                getter_cfg,
                spec_resolved_name(getter_cfg.name, "get_"@ + base),
                field,
            ),
        ]
    } else {
        Seq::empty()
    };
    let setter_texts: Seq<Seq<char>> = if !setter_cfg.is_skip {
        seq![
            DataclassAttribute::spec_method_text(
                setter_cfg,
                spec_resolved_name(setter_cfg.name, "set_"@ + base),
                field,
            ),
        ]
    } else {
        Seq::empty()
    };
    getter_texts + setter_texts
}

/// The method texts of one named field.
pub open spec fn spec_named_field_texts(field: FieldDescriptor) -> Result<
    Seq<Seq<char>>,
    DeriveError,
> {
    match spec_named_cfgs(field.annotations@) {
        Ok(cfgs) => Ok(spec_side_texts(cfgs.0, cfgs.1, field)),
        Err(e) => Err(e),
    }
}

/// The method texts of one positional field.
pub open spec fn spec_unnamed_field_texts(field: FieldDescriptor) -> Result<
    Seq<Seq<char>>,
    DeriveError,
> {
    match spec_cfgs_from(
        (DataclassAttribute::spec_getter(), DataclassAttribute::spec_setter()),
        field.annotations@,
    ) {
        Ok(cfgs) => Ok(spec_side_texts(cfgs.0, cfgs.1, field)),
        Err(e) => Err(e),
    }
}

/// Generate the accessor methods of one named field.
pub fn dataclass_named_field_impl(field: &FieldDescriptor) -> (r: Result<Vec<String>, DeriveError>)
    requires
        field.identity is Named,
        field_type_wf(field.type_text@),
    ensures
        match r {
            Ok(v) => spec_named_field_texts(*field) == Ok::<Seq<Seq<char>>, DeriveError>(
                v.deep_view(),
            ),
            Err(e) => spec_named_field_texts(*field) == Err::<Seq<Seq<char>>, DeriveError>(e),
        },
{
    let n: usize = field.annotations.len();
    let mut i: usize = 0;
    let mut cfgs: (DataclassAttribute, DataclassAttribute) = (
        DataclassAttribute::getter(),
        DataclassAttribute::setter(),
    );
    let mut found: bool = false;
    proof {
        assert(field.annotations@.skip(0) =~= field.annotations@);
    }
    while i < n && !found
        invariant
            i <= n,
            n == field.annotations@.len(),
            !found ==> cfgs == (
                DataclassAttribute::spec_getter(),
                DataclassAttribute::spec_setter(),
            ),
            !found ==> spec_named_cfgs(field.annotations@) == spec_named_cfgs(
                field.annotations@.skip(i as int),
            ),
            found ==> spec_named_cfgs(field.annotations@) == Ok::<_, DeriveError>(cfgs),
        decreases n - i,
    {
        proof {
            assert(field.annotations@.skip(i as int)[0] == field.annotations@[i as int]);
            assert(field.annotations@.skip(i as int).skip(1) =~= field.annotations@.skip(
                i as int + 1,
            ));
        }
        let ann = &field.annotations[i];
        if str_eq(ann.path.as_str(), "dataclass") {
            match DataclassAttribute::of(&ann.meta) {
                Ok(pair) => {
                    cfgs = pair;
                    found = true;
                },
                Err(e) => {
                    return Err(e);
                },
            }
        }
        i = i + 1;
    }
    proof {
        if !found {
            assert(field.annotations@.skip(n as int) =~= Seq::<Annotation>::empty());
        }
    }
    let (getter_cfg, setter_cfg) = cfgs;
    let base: &str = match &field.identity {
        FieldIdentity::Named(name) => trim_edge_chars(name.as_str(), '_'),
        FieldIdentity::Positional(_) => {
            proof {
                assert(false);
            }
            ""
        },
    };
    let mut out: Vec<String> = Vec::new();
    if !getter_cfg.is_skip {
        let m: String = if getter_cfg.name.is_none() {
            let mut default_name = String::from_str("get_");
            default_name.append(base);
            getter_cfg.generate_method(Some(default_name), field)
        } else {
            getter_cfg.generate_method(None, field)
        };
        out.push(m);
    }
    if !setter_cfg.is_skip {
        let m: String = if setter_cfg.name.is_none() {
            let mut default_name = String::from_str("set_");
            default_name.append(base);
            setter_cfg.generate_method(Some(default_name), field)
        } else {
            setter_cfg.generate_method(None, field)
        };
        out.push(m);
    }
    proof {
        assert(out.deep_view() =~= spec_side_texts(getter_cfg, setter_cfg, *field));
    }
    Ok(out)
}

/// Generate the accessor methods of one positional field.
pub fn dataclass_unnamed_field_impl(index: usize, field: &FieldDescriptor) -> (r: Result<
    Vec<String>,
    DeriveError,
>)
    requires
        (match field.identity {
            FieldIdentity::Positional(j) => j == index,
            FieldIdentity::Named(_) => false,
        }),
        field_type_wf(field.type_text@),
    ensures
        match r {
            Ok(v) => spec_unnamed_field_texts(*field) == Ok::<Seq<Seq<char>>, DeriveError>(
                v.deep_view(),
            ),
            Err(e) => spec_unnamed_field_texts(*field) == Err::<Seq<Seq<char>>, DeriveError>(e),
        },
{
    let n: usize = field.annotations.len();
    let mut i: usize = 0;
    let mut cfgs: (DataclassAttribute, DataclassAttribute) = (
        DataclassAttribute::getter(),
        DataclassAttribute::setter(),
    );
    proof {
        assert(field.annotations@.skip(0) =~= field.annotations@);
    }
    while i < n
        invariant
            i <= n,
            n == field.annotations@.len(),
            spec_cfgs_from(
                (DataclassAttribute::spec_getter(), DataclassAttribute::spec_setter()),
                field.annotations@,
            ) == spec_cfgs_from(cfgs, field.annotations@.skip(i as int)),
        decreases n - i,
    {
        proof {
            assert(field.annotations@.skip(i as int)[0] == field.annotations@[i as int]);
            assert(field.annotations@.skip(i as int).skip(1) =~= field.annotations@.skip(
                i as int + 1,
            ));
        }
        let ann = &field.annotations[i];
        if str_eq(ann.path.as_str(), "dataclass") {
            match DataclassAttribute::of(&ann.meta) {
                Ok(pair) => {
                    cfgs = pair;
                },
                Err(e) => {
                    return Err(e);
                },
            }
        }
        i = i + 1;
    }
    proof {
        assert(field.annotations@.skip(n as int) =~= Seq::<Annotation>::empty());
    }
    let (getter_cfg, setter_cfg) = cfgs;
    let mut base = String::from_str("field_");
    let rendered_index = usize_to_string(index);
    base.append(rendered_index.as_str());
    let mut out: Vec<String> = Vec::new();
    if !getter_cfg.is_skip {
        let m: String = if getter_cfg.name.is_none() {
            let mut default_name = String::from_str("get_");
            default_name.append(base.as_str());
            getter_cfg.generate_method(Some(default_name), field)
        } else {
            getter_cfg.generate_method(None, field)
        };
        out.push(m);
    }
    if !setter_cfg.is_skip {
        let m: String = if setter_cfg.name.is_none() {
            let mut default_name = String::from_str("set_");
            default_name.append(base.as_str());
            setter_cfg.generate_method(Some(default_name), field)
        } else {
            setter_cfg.generate_method(None, field)
        };
        out.push(m);
    }
    proof {
        assert(out.deep_view() =~= spec_side_texts(getter_cfg, setter_cfg, *field));
    }
    Ok(out)
}

/// The method texts of a whole list of named fields, in declaration order;
/// the first fatal field aborts.
pub open spec fn spec_named_texts(fields: Seq<FieldDescriptor>) -> Result<
    Seq<Seq<char>>,
    DeriveError,
>
    decreases fields.len(),
{
    if fields.len() == 0 {
        Ok(Seq::empty())
    } else {
        match spec_named_field_texts(fields[0]) {
            Ok(head) => match spec_named_texts(fields.skip(1)) {
                Ok(rest) => Ok(head + rest),
                Err(e) => Err(e),
            },
            Err(e) => Err(e),
        }
    }
}

/// The method texts of a whole list of positional fields.
pub open spec fn spec_unnamed_texts(fields: Seq<FieldDescriptor>) -> Result<
    Seq<Seq<char>>,
    DeriveError,
>
    decreases fields.len(),
{
    if fields.len() == 0 {
        Ok(Seq::empty())
    } else {
        match spec_unnamed_field_texts(fields[0]) {
            Ok(head) => match spec_unnamed_texts(fields.skip(1)) {
                Ok(rest) => Ok(head + rest),
                Err(e) => Err(e),
            },
            Err(e) => Err(e),
        }
    }
}

/// The body text of the generated unit: each method preceded by one blank.
pub open spec fn spec_join(methods: Seq<Seq<char>>) -> Seq<char>
    decreases methods.len(),
{
    if methods.len() == 0 {
        Seq::empty()
    } else {
        " "@ + methods[0] + spec_join(methods.skip(1))
    }
}

/// Appending one more method extends the joined body on the right.
pub proof fn lemma_join_push(methods: Seq<Seq<char>>, m: Seq<char>)
    ensures
        spec_join(methods.push(m)) == spec_join(methods) + (" "@ + m),
    decreases methods.len(),
{
    if methods.len() == 0 {
        assert(methods.push(m).skip(1) =~= Seq::<Seq<char>>::empty());
        assert(methods.push(m)[0] == m);
        assert(spec_join(methods.push(m)) == " "@ + m + spec_join(Seq::<Seq<char>>::empty()));
        assert(spec_join(methods.push(m)) =~= spec_join(methods) + (" "@ + m));
    } else {
        assert(methods.push(m)[0] == methods[0]);
        assert(methods.push(m).skip(1) =~= methods.skip(1).push(m));
        lemma_join_push(methods.skip(1), m);
        assert(spec_join(methods.push(m)) == " "@ + methods[0] + (spec_join(methods.skip(1)) + (
        " "@ + m)));
        assert(spec_join(methods.push(m)) =~= spec_join(methods) + (" "@ + m));
    }
}

/// The complete generated unit: one implementation block holding the
/// concatenation of the emitted accessor definitions.
pub open spec fn spec_impl_text(ident: Seq<char>, methods: Seq<Seq<char>>) -> Seq<char> {
    "impl "@ + ident + " {"@ + spec_join(methods) + " }"@
}

/// The full derivation result of one record definition.
pub open spec fn spec_derive(record: RecordDef) -> Result<Seq<char>, DeriveError> {
    match record.shape {
        RecordShape::Named(fields) => match spec_named_texts(fields@) {
            Ok(methods) => Ok(spec_impl_text(record.ident@, methods)),
            Err(e) => Err(e),
        },
        RecordShape::Positional(fields) => match spec_unnamed_texts(fields@) {
            Ok(methods) => Ok(spec_impl_text(record.ident@, methods)),
            Err(e) => Err(e),
        },
        RecordShape::Unit => Ok(spec_impl_text(record.ident@, Seq::empty())),
        RecordShape::Variants => Err(DeriveError::UnsupportedShape),
        RecordShape::Opaque => Err(DeriveError::UnsupportedShape),
    }
}

/// A record definition as the host front end owes it to the engine: named
/// fields carry names, positional fields carry their own position, and a
/// detected wrapper type carries an inner type.
pub open spec fn record_wf(record: RecordDef) -> bool {
    match record.shape {
        RecordShape::Named(fields) => forall|i: int|
            0 <= i < fields@.len() ==> (#[trigger] fields@[i]).identity is Named
                && field_type_wf(fields@[i].type_text@),
        RecordShape::Positional(fields) => forall|i: int|
            0 <= i < fields@.len() ==> (match (#[trigger] fields@[i]).identity {
                FieldIdentity::Positional(j) => j == i,
                FieldIdentity::Named(_) => false,
            }) && field_type_wf(fields@[i].type_text@),
        RecordShape::Unit => true,
        RecordShape::Variants => true,
        RecordShape::Opaque => true,
    }
}

/// Decide whether a record definition is well formed, so that an
/// unverified host can test the condition before asking for a derivation.
pub fn record_wf_check(record: &RecordDef) -> (r: bool)
    ensures
        r == record_wf(*record),
{
    match &record.shape {
        RecordShape::Named(fields) => {
            let n: usize = fields.len();
            let mut i: usize = 0;
            while i < n
                invariant
                    i <= n,
                    n == fields@.len(),
                    record.shape matches RecordShape::Named(fs) && fs@ == fields@,
                    forall|j: int|
                        0 <= j < i ==> (#[trigger] fields@[j]).identity is Named && field_type_wf(
                            fields@[j].type_text@,
                        ),
                decreases n - i,
            {
                let named = match &fields[i].identity {
                    FieldIdentity::Named(_) => true,
                    FieldIdentity::Positional(_) => false,
                };
                if !named || !crate::template::field_type_wf_check(fields[i].type_text.as_str()) {
                    proof {
                        assert(!(fields@[i as int].identity is Named && field_type_wf(
                            fields@[i as int].type_text@,
                        )));
                        assert(!record_wf(*record));
                    }
                    return false;
                }
                i = i + 1;
            }
            proof {
                assert(record_wf(*record));
            }
            true
        },
        RecordShape::Positional(fields) => {
            let n: usize = fields.len();
            let mut i: usize = 0;
            while i < n
                invariant
                    i <= n,
                    n == fields@.len(),
                    record.shape matches RecordShape::Positional(fs) && fs@ == fields@,
                    forall|j: int|
                        0 <= j < i ==> (match (#[trigger] fields@[j]).identity {
                            FieldIdentity::Positional(k) => k == j,
                            FieldIdentity::Named(_) => false,
                        }) && field_type_wf(fields@[j].type_text@),
                decreases n - i,
            {
                let placed = match &fields[i].identity {
                    FieldIdentity::Positional(k) => *k == i,
                    FieldIdentity::Named(_) => false,
                };
                if !placed || !crate::template::field_type_wf_check(fields[i].type_text.as_str()) {
                    proof {
                        assert(!((match fields@[i as int].identity {
                            FieldIdentity::Positional(k) => k == i as int,
                            FieldIdentity::Named(_) => false,
                        }) && field_type_wf(fields@[i as int].type_text@)));
                        assert(!record_wf(*record));
                    }
                    return false;
                }
                i = i + 1;
            }
            proof {
                assert(record_wf(*record));
            }
            true
        },
        RecordShape::Unit => true,
        RecordShape::Variants => true,
        RecordShape::Opaque => true,
    }
}

/// Derive the accessor implementation block of one record definition, or
/// the first fatal configuration error.
pub fn dataclass_derive(record: &RecordDef) -> (r: Result<String, DeriveError>)
    requires
        record_wf(*record),
    ensures
        match r {
            Ok(s) => spec_derive(*record) == Ok::<Seq<char>, DeriveError>(s@),
            Err(e) => spec_derive(*record) == Err::<Seq<char>, DeriveError>(e),
        },
{
    let methods: Vec<String> = match &record.shape {
        RecordShape::Named(fields) => {
            let n: usize = fields.len();
            let mut i: usize = 0;
            let mut collected: Vec<String> = Vec::new();
            proof {
                assert(fields@.skip(0) =~= fields@);
            }
            while i < n
                invariant
                    i <= n,
                    n == fields@.len(),
                    record.shape matches RecordShape::Named(fs) && fs@ == fields@,
                    record_wf(*record),
                    match spec_named_texts(fields@.skip(i as int)) {
                        Ok(rest) => spec_named_texts(fields@) == Ok::<Seq<Seq<char>>, DeriveError>(
                            collected.deep_view() + rest,
                        ),
                        Err(e) => spec_named_texts(fields@) == Err::<Seq<Seq<char>>, DeriveError>(
                            e,
                        ),
                    },
                decreases n - i,
            {
                proof {
                    assert(fields@.skip(i as int)[0] == fields@[i as int]);
                    assert(fields@.skip(i as int).skip(1) =~= fields@.skip(i as int + 1));
                }
                match dataclass_named_field_impl(&fields[i]) {
                    Ok(mut texts) => {
                        let ghost prior = collected.deep_view();
                        let ghost added = texts.deep_view();
                        collected.append(&mut texts);
                        proof {
                            assert(collected.deep_view() =~= prior + added);
                            assert(spec_named_texts(fields@.skip(i as int + 1)) matches Ok(rest)
                                ==> (prior + added) + rest =~= prior + (added + rest));
                        }
                    },
                    Err(e) => {
                        return Err(e);
                    },
                }
                i = i + 1;
            }
            proof {
                assert(fields@.skip(n as int) =~= Seq::<FieldDescriptor>::empty());
                assert(collected.deep_view() + Seq::<Seq<char>>::empty() =~= collected.deep_view());
            }
            collected
        },
        RecordShape::Positional(fields) => {
            let n: usize = fields.len();
            let mut i: usize = 0;
            let mut collected: Vec<String> = Vec::new();
            proof {
                assert(fields@.skip(0) =~= fields@);
            }
            while i < n
                invariant
                    i <= n,
                    n == fields@.len(),
                    record.shape matches RecordShape::Positional(fs) && fs@ == fields@,
                    record_wf(*record),
                    match spec_unnamed_texts(fields@.skip(i as int)) {
                        Ok(rest) => spec_unnamed_texts(fields@) == Ok::<
                            Seq<Seq<char>>,
                            DeriveError,
                        >(collected.deep_view() + rest),
                        Err(e) => spec_unnamed_texts(fields@) == Err::<
                            Seq<Seq<char>>,
                            DeriveError,
                        >(e),
                    },
                decreases n - i,
            {
                proof {
                    assert(fields@.skip(i as int)[0] == fields@[i as int]);
                    assert(fields@.skip(i as int).skip(1) =~= fields@.skip(i as int + 1));
                }
                match dataclass_unnamed_field_impl(i, &fields[i]) {
                    Ok(mut texts) => {
                        let ghost prior = collected.deep_view();
                        let ghost added = texts.deep_view();
                        collected.append(&mut texts);
                        proof {
                            assert(collected.deep_view() =~= prior + added);
                            assert(spec_unnamed_texts(fields@.skip(i as int + 1)) matches Ok(rest)
                                ==> (prior + added) + rest =~= prior + (added + rest));
                        }
                    },
                    Err(e) => {
                        return Err(e);
                    },
                }
                i = i + 1;
            }
            proof {
                assert(fields@.skip(n as int) =~= Seq::<FieldDescriptor>::empty());
                assert(collected.deep_view() + Seq::<Seq<char>>::empty() =~= collected.deep_view());
            }
            collected
        },
        RecordShape::Unit => Vec::new(),
        RecordShape::Variants => {
            return Err(DeriveError::UnsupportedShape);
        },
        RecordShape::Opaque => {
            return Err(DeriveError::UnsupportedShape);
        },
    };
    let ghost method_views = methods.deep_view();
    let mut out = String::from_str("impl ");
    out.append(record.ident.as_str());
    out.append(" {");
    let ghost opened = out@;
    let count: usize = methods.len();
    let mut j: usize = 0;
    proof {
        assert(method_views.take(0) =~= Seq::<Seq<char>>::empty());
    }
    while j < count
        invariant
            j <= count,
            count == methods@.len(),
            method_views == methods.deep_view(),
            opened == "impl "@ + record.ident@ + " {"@,
            out@ == opened + spec_join(method_views.take(j as int)),
        decreases count - j,
    {
        out.append(" ");
        out.append(methods[j].as_str());
        proof {
            assert(method_views.take(j as int + 1) =~= method_views.take(j as int).push(
                method_views[j as int],
            ));
            lemma_join_push(method_views.take(j as int), method_views[j as int]);
            assert(out@ =~= opened + spec_join(method_views.take(j as int + 1)));
        }
        j = j + 1;
    }
    out.append(" }");
    proof {
        assert(method_views.take(count as int) =~= method_views);
        assert(out@ =~= spec_impl_text(record.ident@, method_views));
    }
    Ok(out)
}

} // verus!
