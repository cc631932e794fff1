//! The library's laws: properties of the derivation that hold for every
//! record and field, each stated and proved over the same specification
//! functions the executable contracts use.

use vstd::prelude::*;

use crate::attribute::DataclassAttribute;
use crate::model::Annotation;
use crate::model::AnnotationMeta;
use crate::model::ConfigEntry;
use crate::model::DeriveError;
use crate::model::FieldDescriptor;
use crate::model::GroupEntry;
use crate::model::MetaValue;
use crate::model::RecordDef;
use crate::scope::PubScope;
use crate::scope::Visibility;
use crate::template::DataclassTemplate;
use crate::template::inner_type_of;
use crate::template::spec_accessor_name;
use crate::template::spec_wrap_category;
use crate::text::head_of;
use crate::text::leading_count;
use crate::text::trailing_count;
use crate::text::trim_edges;
use crate::text::lemma_leading_count_facts;
use crate::text::lemma_trailing_count_facts;
use crate::driver::spec_cfgs_from;
use crate::driver::spec_default_base;
use crate::driver::spec_named_cfgs;
use crate::driver::spec_named_field_texts;
use crate::driver::spec_side_texts;
use crate::driver::spec_unnamed_field_texts;
use crate::driver::spec_derive;

verus! {

/// A field that carries no recognized configuration annotation resolves to
/// the default configuration pair, whether its record is named or
/// positional: getter and setter both emitted and public, the getter
/// reference-returning, nothing renamed, nothing const.
pub proof fn lemma_unconfigured_field_defaults(anns: Seq<Annotation>)
    requires
        forall|i: int| 0 <= i < anns.len() ==> (#[trigger] anns[i]).path@ != "dataclass"@,
    ensures
        spec_named_cfgs(anns) == Ok::<_, DeriveError>(
            (DataclassAttribute::spec_getter(), DataclassAttribute::spec_setter()),
        ),
        spec_cfgs_from(
            (DataclassAttribute::spec_getter(), DataclassAttribute::spec_setter()),
            anns,
        ) == Ok::<_, DeriveError>(
            (DataclassAttribute::spec_getter(), DataclassAttribute::spec_setter()),
        ),
        DataclassAttribute::spec_getter().visibility == Visibility::Public,
        DataclassAttribute::spec_getter().as_ref,
        DataclassAttribute::spec_getter().name is None,
        !DataclassAttribute::spec_getter().is_skip,
        !DataclassAttribute::spec_getter().is_const,
        DataclassAttribute::spec_setter().visibility == Visibility::Public,
        DataclassAttribute::spec_setter().name is None,
        !DataclassAttribute::spec_setter().is_skip,
    decreases anns.len(),
{
    if anns.len() > 0 {
        assert(anns[0].path@ != "dataclass"@);
        assert forall|i: int| 0 <= i < anns.skip(1).len() implies (#[trigger] anns.skip(
            1,
        )[i]).path@ != "dataclass"@ by {
            assert(anns.skip(1)[i] == anns[i + 1]);
        }
        lemma_unconfigured_field_defaults(anns.skip(1));
    }
}

/// A field with no configuration annotation contributes exactly two
/// methods: a getter named `get_` plus the trimmed default base, then a
/// setter named `set_` plus the same base, each synthesized from the
/// default configuration of its side.
pub proof fn lemma_unconfigured_field_texts(field: FieldDescriptor)
    requires
        forall|i: int|
            0 <= i < field.annotations@.len() ==> (#[trigger] field.annotations@[i]).path@
                != "dataclass"@,
    ensures
        spec_named_field_texts(field) == Ok::<Seq<Seq<char>>, DeriveError>(
            seq![
                DataclassAttribute::spec_method_text(
                    DataclassAttribute::spec_getter(),
                    "get_"@ + spec_default_base(field.identity),
                    field,
                ),
                DataclassAttribute::spec_method_text(
                    DataclassAttribute::spec_setter(),
                    "set_"@ + spec_default_base(field.identity),
                    field,
                ),
            ],
        ),
        spec_unnamed_field_texts(field) == spec_named_field_texts(field),
{
    lemma_unconfigured_field_defaults(field.annotations@);
    assert(spec_side_texts(
        DataclassAttribute::spec_getter(),
        DataclassAttribute::spec_setter(),
        field,
    ) =~= seq![
        DataclassAttribute::spec_method_text(
            DataclassAttribute::spec_getter(),
            "get_"@ + spec_default_base(field.identity),
            field,
        ),
        DataclassAttribute::spec_method_text(
            DataclassAttribute::spec_setter(),
            "set_"@ + spec_default_base(field.identity),
            field,
        ),
    ]);
}

/// The default getter of a plain field whose type is not a copyable scalar
/// returns a reference: both the return type and the body expression are
/// reference-qualified.
pub proof fn lemma_default_getter_returns_reference(name: Seq<char>, field: FieldDescriptor)
    requires
        spec_wrap_category(field.type_text@) is None,
        !DataclassTemplate::spec_is_copyable(head_of(field.type_text@)),
    ensures
        DataclassAttribute::spec_method_text(DataclassAttribute::spec_getter(), name, field)
            == Visibility::Public.spec_prefix() + Seq::<char>::empty() + "fn "@ + name
            + "(&self) -> "@ + "&"@ + (match DataclassTemplate::spec_return_type(
            head_of(field.type_text@),
        ) {
            Some(t) => t,
            None => field.type_text@,
        }) + " { "@ + "&"@ + "self."@ + spec_accessor_name(field.identity) + " }"@,
{
}

/// Once a field-wide `skip` entry is seen, a successful configuration walk
/// marks both sides skipped, wherever in the entry list the marker stands.
pub proof fn lemma_skip_entry_skips_both(
    getter_cfg: DataclassAttribute,
    setter_cfg: DataclassAttribute,
    entries: Seq<GroupEntry>,
    k: int,
)
    requires
        0 <= k < entries.len(),
        entries[k].key@ == "skip"@,
        DataclassAttribute::spec_scan_entries(getter_cfg, setter_cfg, entries) is Ok,
    ensures
        (match DataclassAttribute::spec_scan_entries(getter_cfg, setter_cfg, entries) {
            Ok(cfgs) => cfgs.0.is_skip && cfgs.1.is_skip,
            Err(_) => false,
        }),
    decreases entries.len(),
{
    let e = entries[0];
    if e.key@ == "skip"@ {
    } else {
        assert(k >= 1);
        assert(entries.skip(1)[k - 1] == entries[k]);
        if e.key@ == "setter"@ {
            match e.args {
                Some(args) => {
                    match DataclassAttribute::spec_apply_entries(setter_cfg, args@) {
                        Ok(next) => lemma_skip_entry_skips_both(
                            getter_cfg,
                            next,
                            entries.skip(1),
                            k - 1,
                        ),
                        Err(_) => {},
                    }
                },
                None => lemma_skip_entry_skips_both(getter_cfg, setter_cfg, entries.skip(1), k - 1),
            }
        } else if e.key@ == "getter"@ {
            match e.args {
                Some(args) => {
                    match DataclassAttribute::spec_apply_entries(getter_cfg, args@) {
                        Ok(next) => lemma_skip_entry_skips_both(
                            next,
                            setter_cfg,
                            entries.skip(1),
                            k - 1,
                        ),
                        Err(_) => {},
                    }
                },
                None => lemma_skip_entry_skips_both(getter_cfg, setter_cfg, entries.skip(1), k - 1),
            }
        } else {
            lemma_skip_entry_skips_both(getter_cfg, setter_cfg, entries.skip(1), k - 1);
        }
    }
}

/// The configuration pair of a named field comes from its first recognized
/// annotation.
pub proof fn lemma_named_cfgs_find_first(anns: Seq<Annotation>, j: int)
    requires
        0 <= j < anns.len(),
        forall|i: int| 0 <= i < j ==> (#[trigger] anns[i]).path@ != "dataclass"@,
        anns[j].path@ == "dataclass"@,
    ensures
        spec_named_cfgs(anns) == DataclassAttribute::spec_of(anns[j].meta),
    decreases j,
{
    if j > 0 {
        assert(anns[0].path@ != "dataclass"@);
        assert forall|i: int| 0 <= i < j - 1 implies (#[trigger] anns.skip(1)[i]).path@
            != "dataclass"@ by {
            assert(anns.skip(1)[i] == anns[i + 1]);
        }
        assert(anns.skip(1)[j - 1] == anns[j]);
        lemma_named_cfgs_find_first(anns.skip(1), j - 1);
    }
}

/// A named field whose recognized annotation carries a field-level `skip`
/// entry contributes no accessor at all, whenever its configuration walk
/// succeeds.
pub proof fn lemma_field_level_skip_emits_nothing(field: FieldDescriptor, j: int, k: int)
    requires
        0 <= j < field.annotations@.len(),
        forall|i: int| 0 <= i < j ==> (#[trigger] field.annotations@[i]).path@ != "dataclass"@,
        field.annotations@[j].path@ == "dataclass"@,
        field.annotations@[j].meta matches AnnotationMeta::Entries(es) && 0 <= k < es@.len()
            && es@[k].key@ == "skip"@,
        spec_named_field_texts(field) is Ok,
    ensures
        spec_named_field_texts(field) == Ok::<Seq<Seq<char>>, DeriveError>(
            Seq::<Seq<char>>::empty(),
        ),
{
    lemma_named_cfgs_find_first(field.annotations@, j);
    let es = match field.annotations@[j].meta {
        AnnotationMeta::Entries(es) => es,
        AnnotationMeta::Marker => arbitrary(),
        AnnotationMeta::KeyValue => arbitrary(),
    };
    lemma_skip_entry_skips_both(
        DataclassAttribute::spec_getter(),
        DataclassAttribute::spec_setter(),
        es@,
        k,
    );
    let cfgs = match spec_named_cfgs(field.annotations@) {
        Ok(cfgs) => cfgs,
        Err(_) => arbitrary(),
    };
    lemma_skipped_field_emits_nothing(cfgs.0, cfgs.1, field);
}

/// A field whose resolved configurations are both skipped contributes no
/// method at all.
pub proof fn lemma_skipped_field_emits_nothing(
    getter_cfg: DataclassAttribute,
    setter_cfg: DataclassAttribute,
    field: FieldDescriptor,
)
    requires
        getter_cfg.is_skip,
        setter_cfg.is_skip,
    ensures
        spec_side_texts(getter_cfg, setter_cfg, field) == Seq::<Seq<char>>::empty(),
{
    assert(spec_side_texts(getter_cfg, setter_cfg, field) =~= Seq::<Seq<char>>::empty());
}

/// For a field whose declared type is one of the four wrapper spellings,
/// the synthesized setter closes over exactly that category's write
/// statement and the synthesized getter over exactly that category's read
/// expression, with the field's own identity substituted.
pub proof fn lemma_wrapped_accessor_bodies(
    cfg: DataclassAttribute,
    name: Seq<char>,
    field: FieldDescriptor,
    kind: crate::template::WrapKind,
)
    requires
        spec_wrap_category(field.type_text@) == Some(kind),
    ensures
        cfg.is_setter ==> DataclassAttribute::spec_method_text(cfg, name, field)
            == cfg.visibility.spec_prefix() + (if cfg.is_const && cfg.is_getter
            && DataclassTemplate::spec_is_copyable(head_of(field.type_text@)) {
            "const "@
        } else {
            Seq::<char>::empty()
        }) + "fn "@ + name + "(&self, value: "@ + inner_type_of(field.type_text@) + ") { "@
            + DataclassTemplate::spec_write_stmt(kind, spec_accessor_name(field.identity))
            + " }"@,
        !cfg.is_setter ==> DataclassAttribute::spec_method_text(cfg, name, field)
            == cfg.visibility.spec_prefix() + (if cfg.is_const && cfg.is_getter
            && DataclassTemplate::spec_is_copyable(head_of(field.type_text@)) {
            "const "@
        } else {
            Seq::<char>::empty()
        }) + "fn "@ + name + "(&self) -> "@ + inner_type_of(field.type_text@) + " { "@
            + DataclassTemplate::spec_read_expr(kind, spec_accessor_name(field.identity)) + " }"@,
{
}

/// Idempotence of derivation: the output is a function of the record
/// definition alone, so two derivations of one unchanged record are
/// byte-identical.
pub proof fn lemma_derivation_deterministic(record: RecordDef, out1: Seq<char>, out2: Seq<char>)
    requires
        spec_derive(record) == Ok::<Seq<char>, DeriveError>(out1),
        spec_derive(record) == Ok::<Seq<char>, DeriveError>(out2),
    ensures
        out1 == out2,
{
}

/// Name trimming strips exactly the maximal leading and the maximal
/// trailing run of the marker character and keeps the interior untouched:
/// the result is a contiguous slice of the original name, and it neither
/// begins nor ends with the marker.
pub proof fn lemma_name_trimming(name: Seq<char>, marker: char)
    ensures
        trim_edges(name, marker) == name.subrange(
            leading_count(name, marker) as int,
            name.len() - trailing_count(name.skip(leading_count(name, marker) as int), marker),
        ),
        trim_edges(name, marker).len() > 0 ==> trim_edges(name, marker)[0] != marker,
        trim_edges(name, marker).len() > 0 ==> trim_edges(name, marker)[trim_edges(
            name,
            marker,
        ).len() - 1] != marker,
{
    let lead = leading_count(name, marker) as int;
    let rest = name.skip(lead);
    let trail = trailing_count(rest, marker) as int;
    lemma_leading_count_facts(name, marker);
    lemma_trailing_count_facts(rest, marker);
    assert(trim_edges(name, marker) =~= name.subrange(lead, name.len() - trail));
    if trim_edges(name, marker).len() > 0 {
        assert(trim_edges(name, marker)[0] == rest[0]);
        assert(rest[0] != marker);
        assert(trim_edges(name, marker)[trim_edges(name, marker).len() - 1] == rest[
            rest.len() - trail - 1
        ]);
    }
}

/// A `pub_scope` entry carrying a recognized scope string makes the side
/// scoped-public with exactly that scope — never plain public — and the
/// synthesized method then opens with `pub(<scope>) `, never with the
/// unscoped `pub `.
pub proof fn lemma_scope_restricts(
    cfg: DataclassAttribute,
    entry: ConfigEntry,
    scope: PubScope,
    method_name: Seq<char>,
    field: FieldDescriptor,
)
    requires
        entry.key@ == "pub_scope"@,
        entry.value matches MetaValue::Str(s) && PubScope::spec_from_str(s@) == Ok::<
            PubScope,
            DeriveError,
        >(scope),
    ensures
        (match DataclassAttribute::spec_setup(cfg, entry) {
            Ok(next) => next.visibility == Visibility::PublicScoped(scope) && next.is_setter
                == cfg.is_setter && next.is_skip == cfg.is_skip && next.name == cfg.name,
            Err(_) => false,
        }),
        Visibility::PublicScoped(scope).spec_prefix() != Visibility::Public.spec_prefix(),
        (match DataclassAttribute::spec_setup(cfg, entry) {
            Ok(next) => DataclassAttribute::spec_method_text(next, method_name, field).take(
                Visibility::PublicScoped(scope).spec_prefix().len() as int,
            ) == Visibility::PublicScoped(scope).spec_prefix(),
            Err(_) => false,
        }),
{
    reveal_strlit("name");
    reveal_strlit("as_ref");
    reveal_strlit("pub");
    reveal_strlit("const");
    reveal_strlit("skip");
    reveal_strlit("pub_scope");
    reveal_strlit("pub ");
    reveal_strlit("pub(crate) ");
    reveal_strlit("pub(super) ");
    reveal_strlit("pub(self) ");
    assert("name"@.len() == 4);
    assert("as_ref"@.len() == 6);
    assert("pub"@.len() == 3);
    assert("const"@.len() == 5);
    assert("skip"@.len() == 4);
    assert("pub_scope"@.len() == 9);
    assert("pub "@.len() == 4);
    assert("pub(crate) "@.len() == 11);
    assert("pub(super) "@.len() == 11);
    assert("pub(self) "@.len() == 10);
    let next = match DataclassAttribute::spec_setup(cfg, entry) {
        Ok(n) => n,
        Err(_) => cfg,
    };
    let text = DataclassAttribute::spec_method_text(next, method_name, field);
    let prefix = Visibility::PublicScoped(scope).spec_prefix();
    assert(text.take(prefix.len() as int) =~= prefix);
}

/// `const` over a non-scalar type has no effect: the synthesized getter
/// text with constness requested equals the text without it.
pub proof fn lemma_const_needs_copyable(
    cfg: DataclassAttribute,
    name: Seq<char>,
    field: FieldDescriptor,
)
    requires
        !DataclassTemplate::spec_is_copyable(head_of(field.type_text@)),
    ensures
        DataclassAttribute::spec_method_text(
            DataclassAttribute { is_const: true, ..cfg },
            name,
            field,
        ) == DataclassAttribute::spec_method_text(
            DataclassAttribute { is_const: false, ..cfg },
            name,
            field,
        ),
{
}

} // verus!
