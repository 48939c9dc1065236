//! Laws of the compiler, stated over the specification functions that the
//! executable pipeline is proved to compute.

use vstd::prelude::*;
use crate::error::FunctionErrorV;
use crate::error::ToSQLErrorV;
use crate::parser::sp_parse_source;
use crate::schema::spec_get_enum;
use crate::schema::spec_get_field;
use crate::schema::spec_get_model;
use crate::schema::spec_get_variant;
use crate::schema::EnumV;
use crate::schema::FunctionCallV;
use crate::schema::ModelV;
use crate::schema::ReferenceV;
use crate::schema::SchemaV;
use crate::sql::sat_col;
use crate::sql::sp_field_ref_sql;
use crate::sql::sp_function_call_sql;
use crate::sql::sp_schema_sql;
use crate::sql::sp_single_arg;
use crate::sql::sp_type_name;
use crate::sql::sp_type_sql;
use crate::sql::sp_variant_ref_sql;
use crate::types::DataTypeV;

verus! {

// ---------------------------------------------------------------------------
// Determinism.
// ---------------------------------------------------------------------------

/// Identical source always yields identical output: every stage is a pure
/// function of the characters of its input, so equal sources agree on the
/// parsed schema and on the generated statements.
pub proof fn lemma_compile_deterministic(a: Seq<char>, b: Seq<char>)
    requires
        a == b,
    ensures
        sp_parse_source(a) == sp_parse_source(b),
        (sp_parse_source(a) matches Ok(s) ==> sp_parse_source(b) matches Ok(t) && sp_schema_sql(s)
            == sp_schema_sql(t)),
{
}

// ---------------------------------------------------------------------------
// Reference laws.
// ---------------------------------------------------------------------------

/// Resolving `model.field`: a nonexistent model is `ModelNotFound`, an
/// existing model without the field is `FieldNotFound`, and the resolution
/// succeeds exactly when both exist.
pub proof fn lemma_field_reference_law(s: SchemaV, r: ReferenceV)
    ensures
        spec_get_model(s, r.entity) is None ==> sp_field_ref_sql(s, r) == Err::<
            Seq<char>,
            ToSQLErrorV,
        >(
            ToSQLErrorV::ModelNotFound {
                model_name: r.entity,
                line_number: r.line_number,
                column: r.column,
            },
        ),
        (spec_get_model(s, r.entity) matches Some(m) && spec_get_field(m, r.property) is None)
            ==> sp_field_ref_sql(s, r) == Err::<Seq<char>, ToSQLErrorV>(
            ToSQLErrorV::FieldNotFound {
                model_name: spec_get_model(s, r.entity)->0.name,
                field_name: r.property,
                line_number: r.line_number,
                column: sat_col(r.column + r.property.len() + 1),
            },
        ),
        sp_field_ref_sql(s, r) is Ok <==> (spec_get_model(s, r.entity) matches Some(m)
            && spec_get_field(m, r.property) is Some),
{
}

/// Resolving `enum.variant` for a default: a nonexistent enum is
/// `EnumNotFound`, an existing enum without the variant is
/// `VariantNotFound`, and the resolution succeeds exactly when both exist.
pub proof fn lemma_variant_reference_law(s: SchemaV, r: ReferenceV)
    ensures
        spec_get_enum(s, r.entity) is None ==> sp_variant_ref_sql(s, r) == Err::<
            Seq<char>,
            ToSQLErrorV,
        >(
            ToSQLErrorV::EnumNotFound {
                enum_name: r.entity,
                line_number: r.line_number,
                column: r.column,
            },
        ),
        (spec_get_enum(s, r.entity) matches Some(e) && spec_get_variant(e, r.property) is None)
            ==> sp_variant_ref_sql(s, r) == Err::<Seq<char>, ToSQLErrorV>(
            ToSQLErrorV::VariantNotFound {
                enum_name: spec_get_enum(s, r.entity)->0.name,
                variant: r.property,
                line_number: r.line_number,
                column: sat_col(r.column + r.property.len() + 1),
            },
        ),
        sp_variant_ref_sql(s, r) is Ok <==> (spec_get_enum(s, r.entity) matches Some(e)
            && spec_get_variant(e, r.property) is Some),
{
}

// ---------------------------------------------------------------------------
// Arity and dispatch laws.
// ---------------------------------------------------------------------------

pub open spec fn is_translated_builtin(name: Seq<char>) -> bool {
    name == "min"@ || name == "max"@ || name == "references"@ || name == "default"@
}

/// Any built-in that takes an argument fails with `MissingArgument` when
/// called with none and with `ExpectsExactlyOneArgument` when called with
/// two or more.
pub proof fn lemma_builtin_arity(s: SchemaV, f: FunctionCallV)
    requires
        is_translated_builtin(f.name),
    ensures
        f.arguments.list.len() == 0 ==> sp_function_call_sql(s, f) == Err::<Seq<char>, ToSQLErrorV>(
            ToSQLErrorV::FunctionError {
                source: FunctionErrorV::MissingArgument,
                line_number: f.arguments.line_number,
                column: f.arguments.column,
            },
        ),
        f.arguments.list.len() >= 2 ==> sp_function_call_sql(s, f) == Err::<Seq<char>, ToSQLErrorV>(
            ToSQLErrorV::FunctionError {
                source: FunctionErrorV::ExpectsExactlyOneArgument(f.name),
                line_number: f.arguments.line_number,
                column: f.arguments.column,
            },
        ),
{
    reveal_strlit("now");
    reveal_strlit("min");
    reveal_strlit("max");
    reveal_strlit("references");
    reveal_strlit("default");
    assert("min"@ != "now"@) by {
        assert("min"@[0] == 'm' && "now"@[0] == 'n');
    }
    assert("max"@ != "now"@) by {
        assert("max"@[0] == 'm' && "now"@[0] == 'n');
    }
    assert("max"@ != "min"@) by {
        assert("max"@[1] == 'a' && "min"@[1] == 'i');
    }
    if f.arguments.list.len() != 1 {
        assert(sp_single_arg(f.name, f.arguments) is Err);
    }
}

/// The table-level `foreign_key` built-in obeys the same arity rule.
pub proof fn lemma_foreign_key_arity(
    s: SchemaV,
    ctx: crate::schema::FunctionCallContextV,
    args: crate::schema::ArgumentsV,
    name: Seq<char>,
)
    ensures
        args.list.len() == 0 ==> crate::sql::sp_foreign_key(s, ctx, args, name) == Err::<
            Seq<char>,
            ToSQLErrorV,
        >(
            ToSQLErrorV::FunctionError {
                source: FunctionErrorV::MissingArgument,
                line_number: args.line_number,
                column: args.column,
            },
        ),
        args.list.len() >= 2 ==> crate::sql::sp_foreign_key(s, ctx, args, name) == Err::<
            Seq<char>,
            ToSQLErrorV,
        >(
            ToSQLErrorV::FunctionError {
                source: FunctionErrorV::ExpectsExactlyOneArgument(name),
                line_number: args.line_number,
                column: args.column,
            },
        ),
{
}

/// A call whose name is none of the built-ins fails with
/// `UndefinedFunction`, whatever its arguments.
pub proof fn lemma_undefined_function(s: SchemaV, f: FunctionCallV)
    requires
        f.name != "now"@,
        f.name != "min"@,
        f.name != "max"@,
        f.name != "references"@,
        f.name != "default"@,
    ensures
        sp_function_call_sql(s, f) == Err::<Seq<char>, ToSQLErrorV>(
            ToSQLErrorV::FunctionError {
                source: FunctionErrorV::UndefinedFunction(f.name),
                line_number: f.line_number,
                column: f.column,
            },
        ),
{
}

// ---------------------------------------------------------------------------
// Duplicate-name laws: whatever schema the parser accepts satisfies the
// naming invariants; a source that breaks one never parses.
// ---------------------------------------------------------------------------

pub open spec fn enum_variants_unique(e: EnumV) -> bool {
    forall|i: int, j: int|
        0 <= i < j < e.variants.len() ==> #[trigger] e.variants[i].name != #[trigger] e.variants[j].name
}

pub open spec fn model_fields_unique(m: ModelV) -> bool {
    forall|i: int, j: int|
        0 <= i < j < m.fields.len() ==> #[trigger] m.fields[i].name != #[trigger] m.fields[j].name
}

/// Enum and model names are globally unique, drawn from one shared set.
pub open spec fn schema_names_unique(s: SchemaV) -> bool {
    &&& forall|i: int, j: int|
        0 <= i < j < s.enums.len() ==> #[trigger] s.enums[i].name != #[trigger] s.enums[j].name
    &&& forall|i: int, j: int|
        0 <= i < j < s.models.len() ==> #[trigger] s.models[i].name != #[trigger] s.models[j].name
    &&& forall|i: int, j: int|
        0 <= i < s.enums.len() && 0 <= j < s.models.len() ==> #[trigger] s.enums[i].name
            != #[trigger] s.models[j].name
}

proof fn lemma_parse_enum_ok(
    ename: Seq<char>,
    toks: crate::parser::TokSeq,
    i: int,
    variants: Seq<crate::schema::EnumVariantV>,
    seen: Seq<Seq<char>>,
    ev: EnumV,
)
    requires
        crate::parser::sp_parse_enum(ename, toks, i, variants, seen).0 == Ok::<
            EnumV,
            crate::error::ParseErrorV,
        >(ev),
        variants.len() == seen.len(),
        forall|k: int| 0 <= k < variants.len() ==> #[trigger] variants[k].name == seen[k],
        forall|k1: int, k2: int|
            0 <= k1 < k2 < variants.len() ==> #[trigger] variants[k1].name
                != #[trigger] variants[k2].name,
    ensures
        ev.name == ename,
        enum_variants_unique(ev),
    decreases toks.len() - i,
{
    if i >= toks.len() {
    } else {
        let (t, l, c) = toks[i];
        match t {
            crate::token::TokenV::BraceClose => {
                assert(ev.variants == variants);
            },
            crate::token::TokenV::Identifier(v) => {
                if !seen.contains(v) {
                    let variants2 = variants.push(
                        crate::schema::EnumVariantV { name: v, line_number: l, column: c },
                    );
                    let seen2 = seen.push(v);
                    assert(forall|k: int|
                        0 <= k < variants2.len() ==> #[trigger] variants2[k].name == seen2[k]);
                    assert forall|k1: int, k2: int|
                        0 <= k1 < k2 < variants2.len() implies #[trigger] variants2[k1].name
                        != #[trigger] variants2[k2].name by {
                        if k2 == variants2.len() - 1 {
                            assert(variants2[k1].name == seen[k1]);
                            assert(!seen.contains(v));
                            assert(seen[k1] != v);
                        }
                    }
                    lemma_parse_enum_ok(ename, toks, i + 1, variants2, seen2, ev);
                }
            },
            _ => {},
        }
    }
}

proof fn lemma_parse_model_ok(
    mname: Seq<char>,
    toks: crate::parser::TokSeq,
    i: int,
    fields: Seq<crate::schema::FieldV>,
    seen: Seq<Seq<char>>,
    mv: crate::schema::ModelV,
)
    requires
        crate::parser::sp_parse_model(mname, toks, i, fields, seen).0 == Ok::<
            crate::schema::ModelV,
            crate::error::ParseErrorV,
        >(mv),
        fields.len() == seen.len(),
        forall|k: int| 0 <= k < fields.len() ==> #[trigger] fields[k].name == seen[k],
        forall|k1: int, k2: int|
            0 <= k1 < k2 < fields.len() ==> #[trigger] fields[k1].name
                != #[trigger] fields[k2].name,
    ensures
        mv.name == mname,
        model_fields_unique(mv),
    decreases toks.len() - i,
{
    if i >= toks.len() {
    } else {
        let (t, l, c) = toks[i];
        match t {
            crate::token::TokenV::BraceClose => {
                assert(mv.fields == fields);
            },
            crate::token::TokenV::Identifier(fname) => {
                if i + 1 < toks.len() && toks[i + 1].0 is Colon && !seen.contains(fname) {
                    let rec = crate::parser::sp_parse_field(fname, toks, i + 2);
                    if let Ok(fv) = rec.0 {
                        lemma_parse_field_name(fname, toks, i + 2, fv);
                        let fields2 = fields.push(fv);
                        let seen2 = seen.push(fname);
                        assert(forall|k: int|
                            0 <= k < fields2.len() ==> #[trigger] fields2[k].name == seen2[k]);
                        assert forall|k1: int, k2: int|
                            0 <= k1 < k2 < fields2.len() implies #[trigger] fields2[k1].name
                            != #[trigger] fields2[k2].name by {
                            if k2 == fields2.len() - 1 {
                                assert(fields2[k1].name == seen[k1]);
                                assert(seen[k1] != fname);
                            }
                        }
                        lemma_parse_model_ok(
                            mname,
                            toks,
                            crate::parser::adv(rec.1, i, toks.len() as int),
                            fields2,
                            seen2,
                            mv,
                        );
                    }
                }
            },
            _ => {},
        }
    }
}

/// A parsed field carries the declared name.
proof fn lemma_parse_field_name(
    name: Seq<char>,
    toks: crate::parser::TokSeq,
    i: int,
    fv: crate::schema::FieldV,
)
    requires
        crate::parser::sp_parse_field(name, toks, i).0 == Ok::<
            crate::schema::FieldV,
            crate::error::ParseErrorV,
        >(fv),
    ensures
        fv.name == name,
{
    if i < toks.len() {
        let (t, l, c) = toks[i];
        if let Ok(dtv) = crate::parser::sp_data_type(t, l, c) {
            lemma_field_props_name(
                name,
                crate::schema::DataTypeWithSpanV { data_type: dtv, line_number: l, column: c },
                toks,
                i + 1,
                Seq::empty(),
                fv,
            );
        }
    }
}

proof fn lemma_field_props_name(
    name: Seq<char>,
    dt: crate::schema::DataTypeWithSpanV,
    toks: crate::parser::TokSeq,
    i: int,
    props: Seq<crate::schema::PropertyV>,
    fv: crate::schema::FieldV,
)
    requires
        crate::parser::sp_field_props(name, dt, toks, i, props).0 == Ok::<
            crate::schema::FieldV,
            crate::error::ParseErrorV,
        >(fv),
    ensures
        fv.name == name,
    decreases toks.len() - i,
{
    if i >= toks.len() {
    } else {
        let (t, l, c) = toks[i];
        match t {
            crate::token::TokenV::Identifier(id) => {
                if i + 1 < toks.len() && toks[i + 1].0 is ParenOpen {
                    let ctx = crate::schema::FunctionCallContextV {
                        property_name: name,
                        property_data_type: dt,
                    };
                    let rec = crate::parser::sp_parse_function_call(
                        id,
                        ctx,
                        toks,
                        i + 2,
                        l,
                        c,
                        Seq::empty(),
                    );
                    if let Ok(fcv) = rec.0 {
                        lemma_field_props_name(
                            name,
                            dt,
                            toks,
                            crate::parser::adv(rec.1, i, toks.len() as int),
                            props.push(crate::schema::PropertyV::FunctionCall(fcv)),
                            fv,
                        );
                    }
                }
            },
            crate::token::TokenV::Keyword(kw) => {
                if kw is PrimaryKey {
                    lemma_field_props_name(
                        name,
                        dt,
                        toks,
                        i + 1,
                        props.push(crate::schema::PropertyV::PrimaryKey),
                        fv,
                    );
                } else if kw is AutoIncrement {
                    lemma_field_props_name(
                        name,
                        dt,
                        toks,
                        i + 1,
                        props.push(crate::schema::PropertyV::AutoIncrement),
                        fv,
                    );
                } else if kw is Unique {
                    lemma_field_props_name(
                        name,
                        dt,
                        toks,
                        i + 1,
                        props.push(crate::schema::PropertyV::Unique),
                        fv,
                    );
                }
            },
            _ => {},
        }
    }
}

proof fn lemma_parse_ok_names(
    toks: crate::parser::TokSeq,
    i: int,
    enums: Seq<EnumV>,
    models: Seq<crate::schema::ModelV>,
    ids: Seq<Seq<char>>,
    s: SchemaV,
)
    requires
        crate::parser::sp_parse(toks, i, enums, models, ids) == Ok::<
            SchemaV,
            crate::error::ParseErrorV,
        >(s),
        forall|k: int| 0 <= k < enums.len() ==> ids.contains(#[trigger] enums[k].name),
        forall|k: int| 0 <= k < models.len() ==> ids.contains(#[trigger] models[k].name),
        forall|k1: int, k2: int|
            0 <= k1 < k2 < enums.len() ==> #[trigger] enums[k1].name != #[trigger] enums[k2].name,
        forall|k1: int, k2: int|
            0 <= k1 < k2 < models.len() ==> #[trigger] models[k1].name
                != #[trigger] models[k2].name,
        forall|k1: int, k2: int|
            0 <= k1 < enums.len() && 0 <= k2 < models.len() ==> #[trigger] enums[k1].name
                != #[trigger] models[k2].name,
        forall|k: int| 0 <= k < enums.len() ==> enum_variants_unique(#[trigger] enums[k]),
        forall|k: int| 0 <= k < models.len() ==> model_fields_unique(#[trigger] models[k]),
    ensures
        schema_names_unique(s),
        forall|k: int| 0 <= k < s.enums.len() ==> enum_variants_unique(#[trigger] s.enums[k]),
        forall|k: int| 0 <= k < s.models.len() ==> model_fields_unique(#[trigger] s.models[k]),
    decreases toks.len() - i,
{
    let n = toks.len() as int;
    if i >= n {
    } else {
        let (t, l, c) = toks[i];
        if let crate::token::TokenV::Keyword(kw) = t {
            if kw is Enum {
                let named = crate::parser::sp_entity_name(toks, i + 1, ids);
                if let Ok(name) = named.0 {
                    assert(!ids.contains(name));
                    let rec = crate::parser::sp_parse_enum(
                        name,
                        toks,
                        crate::parser::adv(named.1, i, n),
                        Seq::empty(),
                        Seq::empty(),
                    );
                    if let Ok(ev) = rec.0 {
                        lemma_parse_enum_ok(
                            name,
                            toks,
                            crate::parser::adv(named.1, i, n),
                            Seq::empty(),
                            Seq::empty(),
                            ev,
                        );
                        let enums2 = enums.push(ev);
                        let ids2 = ids.push(name);
                        lemma_push_keeps_members(ids, name);
                        assert forall|k1: int, k2: int|
                            0 <= k1 < k2 < enums2.len() implies #[trigger] enums2[k1].name
                            != #[trigger] enums2[k2].name by {
                            if k2 == enums2.len() - 1 {
                                assert(ids.contains(enums[k1].name));
                            }
                        }
                        assert forall|k1: int, k2: int|
                            0 <= k1 < enums2.len() && 0 <= k2 < models.len() implies #[trigger] enums2[k1].name
                            != #[trigger] models[k2].name by {
                            if k1 == enums2.len() - 1 {
                                assert(ids.contains(models[k2].name));
                            }
                        }
                        lemma_parse_ok_names(
                            toks,
                            crate::parser::adv(rec.1, i, n),
                            enums2,
                            models,
                            ids2,
                            s,
                        );
                    }
                }
            } else if kw is Model {
                let named = crate::parser::sp_entity_name(toks, i + 1, ids);
                if let Ok(name) = named.0 {
                    assert(!ids.contains(name));
                    let rec = crate::parser::sp_parse_model(
                        name,
                        toks,
                        crate::parser::adv(named.1, i, n),
                        Seq::empty(),
                        Seq::empty(),
                    );
                    if let Ok(mv) = rec.0 {
                        lemma_parse_model_ok(
                            name,
                            toks,
                            crate::parser::adv(named.1, i, n),
                            Seq::empty(),
                            Seq::empty(),
                            mv,
                        );
                        let models2 = models.push(mv);
                        let ids2 = ids.push(name);
                        lemma_push_keeps_members(ids, name);
                        assert forall|k1: int, k2: int|
                            0 <= k1 < k2 < models2.len() implies #[trigger] models2[k1].name
                            != #[trigger] models2[k2].name by {
                            if k2 == models2.len() - 1 {
                                assert(ids.contains(models[k1].name));
                            }
                        }
                        assert forall|k1: int, k2: int|
                            0 <= k1 < enums.len() && 0 <= k2 < models2.len() implies #[trigger] enums[k1].name
                            != #[trigger] models2[k2].name by {
                            if k2 == models2.len() - 1 {
                                assert(ids.contains(enums[k1].name));
                            }
                        }
                        lemma_parse_ok_names(
                            toks,
                            crate::parser::adv(rec.1, i, n),
                            enums,
                            models2,
                            ids2,
                            s,
                        );
                    }
                }
            }
        }
    }
}

/// Pushing onto a sequence keeps every member it already had.
proof fn lemma_push_keeps_members(ids: Seq<Seq<char>>, x: Seq<char>)
    ensures
        forall|y: Seq<char>| ids.contains(y) ==> #[trigger] ids.push(x).contains(y),
        ids.push(x).contains(x),
{
    assert forall|y: Seq<char>| ids.contains(y) implies #[trigger] ids.push(x).contains(y) by {
        let j = choose|j: int| 0 <= j < ids.len() && ids[j] == y;
        assert(ids.push(x)[j] == y);
    }
    assert(ids.push(x)[ids.len() as int] == x);
}

/// Whatever schema the parser yields satisfies the naming invariants:
/// top-level names are globally unique, variant names are unique within
/// each enum, and field names are unique within each model. A source with
/// a duplicate in any of these scopes therefore never parses.
pub proof fn lemma_parsed_schema_names_unique(src: Seq<char>, s: SchemaV)
    requires
        sp_parse_source(src) == Ok::<SchemaV, crate::error::ParseErrorV>(s),
    ensures
        schema_names_unique(s),
        forall|k: int| 0 <= k < s.enums.len() ==> enum_variants_unique(#[trigger] s.enums[k]),
        forall|k: int| 0 <= k < s.models.len() ==> model_fields_unique(#[trigger] s.models[k]),
{
    match crate::tokenizer::spec_tokenize(src) {
        Err(_) => {},
        Ok(ts) => {
            lemma_parse_ok_names(ts, 0, Seq::empty(), Seq::empty(), Seq::empty(), s);
        },
    }
}

// ---------------------------------------------------------------------------
// Position fidelity: each stage copies the defining token's position into
// what it builds (visible in the parser's specification); for the tokenizer
// itself, every emitted position names a real line of the source and a
// column within that line.
// ---------------------------------------------------------------------------

pub open spec fn tokens_well_positioned(ts: Seq<(crate::token::TokenV, int, int)>, n: int, linelen: int) -> bool {
    forall|k: int|
        0 <= k < ts.len() ==> (#[trigger] ts[k]).1 == n && 0 <= ts[k].2 <= linelen
}

proof fn lemma_line_loop_positions(
    line: Seq<char>,
    n: int,
    i: int,
    st: crate::tokenizer::LineState,
    ts: Seq<(crate::token::TokenV, int, int)>,
)
    requires
        crate::tokenizer::spec_line_loop(line, n, i, st) == Ok::<
            Seq<(crate::token::TokenV, int, int)>,
            crate::error::TokenizationErrorV,
        >(ts),
        0 <= i <= line.len(),
        st.buf.len() <= i,
        tokens_well_positioned(st.toks, n, line.len() as int),
    ensures
        tokens_well_positioned(ts, n, line.len() as int),
    decreases line.len() - i,
{
    if i >= line.len() {
    } else {
        let c = line[i];
        if c == '#' && !st.in_str {
        } else {
            match crate::tokenizer::spec_line_step(st, line, n, i) {
                Ok(st2) => {
                    assert(st2.buf.len() <= i + 1);
                    assert(tokens_well_positioned(st2.toks, n, line.len() as int));
                    lemma_line_loop_positions(line, n, i + 1, st2, ts);
                },
                Err(_) => {},
            }
        }
    }
}

proof fn lemma_tokenize_lines_positions(
    ls: Seq<Seq<char>>,
    k: int,
    ts: Seq<(crate::token::TokenV, int, int)>,
)
    requires
        crate::tokenizer::spec_tokenize_lines(ls, k) == Ok::<
            Seq<(crate::token::TokenV, int, int)>,
            crate::error::TokenizationErrorV,
        >(ts),
        0 <= k,
    ensures
        forall|j: int|
            0 <= j < ts.len() ==> k + 1 <= (#[trigger] ts[j]).1 <= ls.len() && 0 <= ts[j].2
                <= ls[ts[j].1 - 1].len(),
    decreases ls.len() - k,
{
    if k >= ls.len() {
    } else if crate::tokenizer::spec_is_comment(ls[k]) {
        lemma_tokenize_lines_positions(ls, k + 1, ts);
    } else {
        match crate::tokenizer::spec_tokenize_line(ls[k], k + 1) {
            Err(_) => {},
            Ok(ts1) => {
                lemma_line_loop_positions(
                    ls[k],
                    k + 1,
                    0,
                    crate::tokenizer::line_init(),
                    ts1,
                );
                match crate::tokenizer::spec_tokenize_lines(ls, k + 1) {
                    Err(_) => {},
                    Ok(rest) => {
                        lemma_tokenize_lines_positions(ls, k + 1, rest);
                        assert forall|j: int| 0 <= j < ts.len() implies k + 1 <= (
                        #[trigger] ts[j]).1 <= ls.len() && 0 <= ts[j].2 <= ls[ts[j].1
                            - 1].len() by {
                            if j < ts1.len() {
                                assert(ts[j] == ts1[j]);
                            } else {
                                assert(ts[j] == rest[j - ts1.len()]);
                            }
                        }
                    },
                }
            },
        }
    }
}

proof fn lemma_parse_enum_variant_tokens(
    ename: Seq<char>,
    toks: crate::parser::TokSeq,
    i: int,
    variants: Seq<crate::schema::EnumVariantV>,
    seen: Seq<Seq<char>>,
    ev: EnumV,
)
    requires
        0 <= i,
        crate::parser::sp_parse_enum(ename, toks, i, variants, seen).0 == Ok::<
            EnumV,
            crate::error::ParseErrorV,
        >(ev),
        forall|k: int|
            0 <= k < variants.len() ==> exists|j: int|
                0 <= j < toks.len() && toks[j] == (
                crate::token::TokenV::Identifier((#[trigger] variants[k]).name),
                variants[k].line_number,
                variants[k].column,
                ),
    ensures
        forall|k: int|
            0 <= k < ev.variants.len() ==> exists|j: int|
                0 <= j < toks.len() && toks[j] == (
                crate::token::TokenV::Identifier((#[trigger] ev.variants[k]).name),
                ev.variants[k].line_number,
                ev.variants[k].column,
                ),
    decreases toks.len() - i,
{
    if i >= toks.len() {
    } else {
        let (t, l, c) = toks[i];
        match t {
            crate::token::TokenV::Identifier(v) => {
                if !seen.contains(v) {
                    let nv = crate::schema::EnumVariantV { name: v, line_number: l, column: c };
                    let variants2 = variants.push(nv);
                    assert forall|k: int| 0 <= k < variants2.len() implies exists|j: int|
                        0 <= j < toks.len() && toks[j] == (
                        crate::token::TokenV::Identifier((#[trigger] variants2[k]).name),
                        variants2[k].line_number,
                        variants2[k].column,
                        ) by {
                        if k == variants2.len() - 1 {
                            assert(0 <= i < toks.len() && toks[i] == (
                                crate::token::TokenV::Identifier(variants2[k].name),
                                variants2[k].line_number,
                                variants2[k].column,
                            ));
                        } else {
                            assert(variants2[k] == variants[k]);
                            let j0 = choose|j: int|
                                0 <= j < toks.len() && toks[j] == (
                                crate::token::TokenV::Identifier(variants[k].name),
                                variants[k].line_number,
                                variants[k].column,
                                );
                            assert(0 <= j0 < toks.len() && toks[j0] == (
                                crate::token::TokenV::Identifier(variants2[k].name),
                                variants2[k].line_number,
                                variants2[k].column,
                            ));
                        }
                    }
                    lemma_parse_enum_variant_tokens(ename, toks, i + 1, variants2, seen.push(v), ev);
                }
            },
            _ => {},
        }
    }
}

/// Each enum variant the parser builds records exactly the position of the
/// identifier token that defines it.
pub proof fn lemma_variant_positions_match_tokens(
    ename: Seq<char>,
    toks: crate::parser::TokSeq,
    i: int,
    ev: EnumV,
)
    requires
        0 <= i,
        crate::parser::sp_parse_enum(ename, toks, i, Seq::empty(), Seq::empty()).0 == Ok::<
            EnumV,
            crate::error::ParseErrorV,
        >(ev),
    ensures
        forall|k: int|
            0 <= k < ev.variants.len() ==> exists|j: int|
                0 <= j < toks.len() && toks[j] == (
                crate::token::TokenV::Identifier((#[trigger] ev.variants[k]).name),
                ev.variants[k].line_number,
                ev.variants[k].column,
                ),
{
    lemma_parse_enum_variant_tokens(ename, toks, i, Seq::empty(), Seq::empty(), ev);
}

/// An enum records the position of the closing brace that ends it.
pub proof fn lemma_enum_position_matches_token(
    ename: Seq<char>,
    toks: crate::parser::TokSeq,
    i: int,
    variants: Seq<crate::schema::EnumVariantV>,
    seen: Seq<Seq<char>>,
    ev: EnumV,
)
    requires
        0 <= i,
        crate::parser::sp_parse_enum(ename, toks, i, variants, seen).0 == Ok::<
            EnumV,
            crate::error::ParseErrorV,
        >(ev),
    ensures
        exists|j: int|
            0 <= j < toks.len() && #[trigger] toks[j] == (
                crate::token::TokenV::BraceClose,
                ev.line_number,
                ev.column,
            ),
    decreases toks.len() - i,
{
    if i < toks.len() {
        let (t, l, c) = toks[i];
        match t {
            crate::token::TokenV::BraceClose => {
                assert(toks[i] == (crate::token::TokenV::BraceClose, ev.line_number, ev.column));
            },
            crate::token::TokenV::Identifier(v) => {
                if !seen.contains(v) {
                    lemma_enum_position_matches_token(
                        ename,
                        toks,
                        i + 1,
                        variants.push(
                            crate::schema::EnumVariantV { name: v, line_number: l, column: c },
                        ),
                        seen.push(v),
                        ev,
                    );
                }
            },
            _ => {},
        }
    }
}

/// A model records the position of the closing brace that ends it.
pub proof fn lemma_model_position_matches_token(
    mname: Seq<char>,
    toks: crate::parser::TokSeq,
    i: int,
    fields: Seq<crate::schema::FieldV>,
    seen: Seq<Seq<char>>,
    mv: ModelV,
)
    requires
        0 <= i,
        crate::parser::sp_parse_model(mname, toks, i, fields, seen).0 == Ok::<
            ModelV,
            crate::error::ParseErrorV,
        >(mv),
    ensures
        exists|j: int|
            0 <= j < toks.len() && #[trigger] toks[j] == (
                crate::token::TokenV::BraceClose,
                mv.line_number,
                mv.column,
            ),
    decreases toks.len() - i,
{
    if i < toks.len() {
        let (t, l, c) = toks[i];
        match t {
            crate::token::TokenV::BraceClose => {
                assert(toks[i] == (crate::token::TokenV::BraceClose, mv.line_number, mv.column));
            },
            crate::token::TokenV::Identifier(fname) => {
                if i + 1 < toks.len() && toks[i + 1].0 is Colon && !seen.contains(fname) {
                    let rec = crate::parser::sp_parse_field(fname, toks, i + 2);
                    if let Ok(fv) = rec.0 {
                        lemma_model_position_matches_token(
                            mname,
                            toks,
                            crate::parser::adv(rec.1, i, toks.len() as int),
                            fields.push(fv),
                            seen.push(fname),
                            mv,
                        );
                    }
                }
            },
            _ => {},
        }
    }
}

/// Every token the tokenizer yields records the 1-based number of a real
/// source line and a column within that line.
pub proof fn lemma_token_positions_in_source(
    src: Seq<char>,
    ts: Seq<(crate::token::TokenV, int, int)>,
)
    requires
        crate::tokenizer::spec_tokenize(src) == Ok::<
            Seq<(crate::token::TokenV, int, int)>,
            crate::error::TokenizationErrorV,
        >(ts),
    ensures
        forall|j: int|
            0 <= j < ts.len() ==> 1 <= (#[trigger] ts[j]).1 <= crate::tokenizer::spec_lines(
                src,
            ).len() && 0 <= ts[j].2 <= crate::tokenizer::spec_lines(src)[ts[j].1 - 1].len(),
{
    lemma_tokenize_lines_positions(crate::tokenizer::spec_lines(src), 0, ts);
}

// ---------------------------------------------------------------------------
// The optional law.
// ---------------------------------------------------------------------------

/// The base type under any number of optional wrappers.
pub open spec fn strip_optional(dt: DataTypeV) -> DataTypeV
    decreases dt,
{
    match dt {
        DataTypeV::Optional(inner) => strip_optional(*inner),
        _ => dt,
    }
}

/// An optional type always renders as its base SQL type followed by
/// ` NULL`; a plain type in column position always renders followed by
/// ` NOT NULL`.
pub proof fn lemma_optional_law(dt: DataTypeV, not_null: bool)
    ensures
        sp_type_sql(dt, not_null) == sp_type_name(strip_optional(dt)) + (if not_null && !(dt
            is Optional) {
            " NOT NULL"@
        } else {
            " NULL"@
        }),
    decreases dt,
{
    match dt {
        DataTypeV::Optional(inner) => {
            lemma_optional_law(*inner, false);
        },
        _ => {},
    }
}

} // verus!
