//! Laws relating the parser and the conversion step.
//!
//! These proof functions state, over the parsing and conversion relations
//! themselves, what any invocation of a one-field primary operation must
//! yield: a supplied scalar value comes back equal to the value the token
//! denotes, a boolean scalar behaves as a pure presence flag, and an
//! optional field of any carrier yields the explicit "no value" result
//! when omitted and the wrapped value when supplied.

use vstd::prelude::*;
use crate::convert::{BoundModel, spec_convert};
use crate::errors::ParseErrorModel;
use crate::param::{KindModel, ScalarType};
use crate::parse::{
    InvocationModel, ValueModel, dashdash, has_help_token, has_version_token, is_help_token,
    is_version_token, run_token, spec_field_value, spec_find_flag, spec_finalize,
    spec_is_bool_flag, spec_parse, spec_parse_primary,
};
use crate::schema::{CliSchema, SchemaField, flag_usable};

verus! {

/// Parsing `--flag value` for the only field of a primary operation, then
/// converting, is exhaustive in the supplied steps: proved here for the
/// parse relation on a three-token vector.
proof fn lemma_parse_single_supplied(
    schema: CliSchema,
    f: SchemaField,
    v: Seq<char>,
    argv: Seq<Seq<char>>,
    m: ValueModel,
)
    requires
        schema.primary.fields@ == seq![f],
        argv == seq![run_token(), dashdash(f.flag@), v],
        !spec_is_bool_flag(f),
        flag_usable(f.flag@),
        !is_help_token(v),
        !is_version_token(v),
        spec_field_value(f.flag@, f.kind@, v) == Ok::<ValueModel, ParseErrorModel>(m),
    ensures
        spec_parse(schema, argv) == Ok::<InvocationModel, ParseErrorModel>(
            InvocationModel::PrimaryM(seq![m]),
        ),
{
    let fields = schema.primary.fields@;
    let acc0 = Seq::new(fields.len(), |k: int| None::<ValueModel>);
    let acc1 = acc0.update(0, Some(m));
    assert(argv.len() == 3);
    assert(!is_help_token(argv[0]));
    assert(!is_version_token(argv[0]));
    assert(dashdash(f.flag@).len() == 2 + f.flag@.len());
    assert(!is_help_token(argv[1])) by {
        if argv[1] == seq!['-', '-', 'h', 'e', 'l', 'p'] {
            assert(f.flag@ =~= crate::schema::help_flag_name());
        }
    }
    assert(!is_version_token(argv[1])) by {
        if argv[1] == seq!['-', '-', 'v', 'e', 'r', 's', 'i', 'o', 'n'] {
            assert(f.flag@ =~= crate::schema::version_flag_name());
        }
    }
    assert(!has_help_token(argv)) by {
        assert forall|i: int| 1 <= i < argv.len() implies !is_help_token(#[trigger] argv[i]) by {
            if i == 1 {
                assert(!is_help_token(argv[1]));
            } else {
                assert(argv[i] == v);
            }
        }
    }
    assert(!has_version_token(argv)) by {
        assert forall|i: int| 1 <= i < argv.len() implies !is_version_token(
            #[trigger] argv[i],
        ) by {
            if i == 1 {
                assert(!is_version_token(argv[1]));
            } else {
                assert(argv[i] == v);
            }
        }
    }
    assert(argv[0] == run_token());
    assert(argv[1] == dashdash(f.flag@));
    assert(argv[2] == v);
    assert(fields.len() == 1);
    assert(fields[0] == f);
    assert(spec_find_flag(fields, dashdash(f.flag@), 0) == Some(0int));
    assert(acc0[0] is None);
    assert(spec_parse_primary(fields, argv, 3, acc1) == spec_finalize(fields, acc1, 0));
    assert(spec_finalize(fields, acc1, 1) == Ok::<Seq<ValueModel>, ParseErrorModel>(Seq::empty()));
    assert(seq![m] + Seq::<ValueModel>::empty() =~= seq![m]);
    assert(spec_finalize(fields, acc1, 0) == Ok::<Seq<ValueModel>, ParseErrorModel>(seq![m]));
    assert(spec_parse_primary(fields, argv, 1, acc0) == Ok::<Seq<ValueModel>, ParseErrorModel>(
        seq![m],
    ));
    assert(spec_parse(schema, argv) == Ok::<InvocationModel, ParseErrorModel>(
        InvocationModel::PrimaryM(seq![m]),
    ));
}

/// Parsing `run` alone for a one-field primary operation whose field is
/// optional yields the explicit "no value" result for it.
proof fn lemma_parse_single_omitted(schema: CliSchema, f: SchemaField, argv: Seq<Seq<char>>)
    requires
        schema.primary.fields@ == seq![f],
        f.kind@ is OptionalM,
        f.required == false,
        argv == seq![run_token()],
    ensures
        spec_parse(schema, argv) == Ok::<InvocationModel, ParseErrorModel>(
            InvocationModel::PrimaryM(seq![ValueModel::AbsentM]),
        ),
{
    let fields = schema.primary.fields@;
    let acc0 = Seq::new(fields.len(), |k: int| None::<ValueModel>);
    assert(fields[0] == f);
    assert(acc0[0] is None);
    assert(!is_help_token(argv[0]));
    assert(!is_version_token(argv[0]));
    assert(!has_help_token(argv));
    assert(!has_version_token(argv));
    assert(spec_parse_primary(fields, argv, 1, acc0) == spec_finalize(fields, acc0, 0));
    assert(spec_finalize(fields, acc0, 1) == Ok::<Seq<ValueModel>, ParseErrorModel>(Seq::empty()));
    assert(seq![ValueModel::AbsentM] + Seq::<ValueModel>::empty() =~= seq![ValueModel::AbsentM]);
    assert(spec_finalize(fields, acc0, 0) == Ok::<Seq<ValueModel>, ParseErrorModel>(
        seq![ValueModel::AbsentM],
    ));
    assert(spec_parse(schema, argv) == Ok::<InvocationModel, ParseErrorModel>(
        InvocationModel::PrimaryM(seq![ValueModel::AbsentM]),
    ));
}

/// A token that denotes a boolean is never a help or version token.
proof fn lemma_bool_token_not_surface(v: Seq<char>, b: bool)
    requires
        crate::numbers::spec_bool_of(v) == Some(b),
    ensures
        !is_help_token(v),
        !is_version_token(v),
{
    assert(v.len() == 4 || v.len() == 5);
}

/// A token that denotes an integer is never a help or version token.
proof fn lemma_int_token_not_surface(v: Seq<char>, n: int)
    requires
        crate::numbers::spec_int_of(v) == Some(n),
    ensures
        !is_help_token(v),
        !is_version_token(v),
{
    if v == seq!['-', '-', 'h', 'e', 'l', 'p'] {
        assert(!crate::numbers::is_digit(v.skip(1)[0]));
    }
    if v == seq!['-', 'h'] {
        assert(!crate::numbers::is_digit(v.skip(1)[0]));
    }
    if v == seq!['-', '-', 'v', 'e', 'r', 's', 'i', 'o', 'n'] {
        assert(!crate::numbers::is_digit(v.skip(1)[0]));
    }
    if v == seq!['-', 'V'] {
        assert(!crate::numbers::is_digit(v.skip(1)[0]));
    }
}

/// Round trip for an integer scalar field: parsing `--flag value` where the
/// value token denotes the integer `n`, then converting under the field's
/// declared type, yields exactly the binding for `n`.
pub proof fn lemma_scalar_round_trip(
    schema: CliSchema,
    f: SchemaField,
    v: Seq<char>,
    n: int,
    argv: Seq<Seq<char>>,
)
    requires
        schema.primary.fields@ == seq![f],
        f.kind@ == KindModel::ScalarM(ScalarType::IntTy),
        flag_usable(f.flag@),
        crate::numbers::spec_int_of(v) == Some(n),
        argv == seq![run_token(), dashdash(f.flag@), v],
    ensures
        spec_parse(schema, argv) == Ok::<InvocationModel, ParseErrorModel>(
            InvocationModel::PrimaryM(seq![ValueModel::IntM(n)]),
        ),
        spec_convert(f.kind@, ValueModel::IntM(n)) == BoundModel::IntB(n),
{
    assert(spec_field_value(f.flag@, f.kind@, v) == Ok::<ValueModel, ParseErrorModel>(
        ValueModel::IntM(n),
    ));
    lemma_int_token_not_surface(v, n);
    lemma_parse_single_supplied(schema, f, v, argv, ValueModel::IntM(n));
}

/// Round trip for a text scalar field: the parsed and converted binding
/// carries exactly the supplied token. A token that is itself a help or
/// version request yields that surface instead and stands outside this
/// law.
pub proof fn lemma_text_round_trip(
    schema: CliSchema,
    f: SchemaField,
    v: Seq<char>,
    argv: Seq<Seq<char>>,
)
    requires
        schema.primary.fields@ == seq![f],
        f.kind@ == KindModel::ScalarM(ScalarType::TextTy),
        flag_usable(f.flag@),
        !is_help_token(v),
        !is_version_token(v),
        argv == seq![run_token(), dashdash(f.flag@), v],
    ensures
        spec_parse(schema, argv) == Ok::<InvocationModel, ParseErrorModel>(
            InvocationModel::PrimaryM(seq![ValueModel::TextM(v)]),
        ),
        spec_convert(f.kind@, ValueModel::TextM(v)) == BoundModel::TextB(v),
{
    assert(spec_field_value(f.flag@, f.kind@, v) == Ok::<ValueModel, ParseErrorModel>(
        ValueModel::TextM(v),
    ));
    lemma_parse_single_supplied(schema, f, v, argv, ValueModel::TextM(v));
}

/// A boolean scalar field is a presence flag: naming its flag binds
/// `true`, omitting it binds `false`; no value token is consumed.
pub proof fn lemma_bool_flag_field(
    schema: CliSchema,
    f: SchemaField,
    argv_on: Seq<Seq<char>>,
    argv_off: Seq<Seq<char>>,
)
    requires
        schema.primary.fields@ == seq![f],
        f.kind@ == KindModel::ScalarM(ScalarType::BoolTy),
        f.required == false,
        flag_usable(f.flag@),
        argv_on == seq![run_token(), dashdash(f.flag@)],
        argv_off == seq![run_token()],
    ensures
        spec_parse(schema, argv_on) == Ok::<InvocationModel, ParseErrorModel>(
            InvocationModel::PrimaryM(seq![ValueModel::BoolM(true)]),
        ),
        spec_parse(schema, argv_off) == Ok::<InvocationModel, ParseErrorModel>(
            InvocationModel::PrimaryM(seq![ValueModel::BoolM(false)]),
        ),
        spec_convert(f.kind@, ValueModel::BoolM(true)) == BoundModel::BoolB(true),
        spec_convert(f.kind@, ValueModel::BoolM(false)) == BoundModel::BoolB(false),
{
    let fields = schema.primary.fields@;
    let acc0 = Seq::new(fields.len(), |k: int| None::<ValueModel>);
    let acc1 = acc0.update(0, Some(ValueModel::BoolM(true)));
    assert(fields[0] == f);
    assert(acc0[0] is None);
    assert(dashdash(f.flag@).len() == 2 + f.flag@.len());
    assert(!is_help_token(argv_on[1])) by {
        if argv_on[1] == seq!['-', '-', 'h', 'e', 'l', 'p'] {
            assert(f.flag@ =~= crate::schema::help_flag_name());
        }
    }
    assert(!is_version_token(argv_on[1])) by {
        if argv_on[1] == seq!['-', '-', 'v', 'e', 'r', 's', 'i', 'o', 'n'] {
            assert(f.flag@ =~= crate::schema::version_flag_name());
        }
    }
    assert(!has_help_token(argv_on)) by {
        assert forall|i: int| 1 <= i < argv_on.len() implies !is_help_token(
            #[trigger] argv_on[i],
        ) by {
            assert(argv_on[i] == argv_on[1]);
        }
    }
    assert(!has_version_token(argv_on)) by {
        assert forall|i: int| 1 <= i < argv_on.len() implies !is_version_token(
            #[trigger] argv_on[i],
        ) by {
            assert(argv_on[i] == argv_on[1]);
        }
    }
    assert(spec_find_flag(fields, dashdash(f.flag@), 0) == Some(0int));
    assert(spec_is_bool_flag(f));
    assert(spec_parse_primary(fields, argv_on, 2, acc1) == spec_finalize(fields, acc1, 0));
    assert(spec_finalize(fields, acc1, 1) == Ok::<Seq<ValueModel>, ParseErrorModel>(Seq::empty()));
    assert(seq![ValueModel::BoolM(true)] + Seq::<ValueModel>::empty() =~= seq![
        ValueModel::BoolM(true),
    ]);
    assert(spec_finalize(fields, acc1, 0) == Ok::<Seq<ValueModel>, ParseErrorModel>(
        seq![ValueModel::BoolM(true)],
    ));
    assert(spec_parse_primary(fields, argv_on, 1, acc0) == Ok::<Seq<ValueModel>, ParseErrorModel>(
        seq![ValueModel::BoolM(true)],
    ));
    assert(spec_parse(schema, argv_on) == Ok::<InvocationModel, ParseErrorModel>(
        InvocationModel::PrimaryM(seq![ValueModel::BoolM(true)]),
    ));
    assert(!has_help_token(argv_off));
    assert(!has_version_token(argv_off));
    assert(spec_parse_primary(fields, argv_off, 1, acc0) == spec_finalize(fields, acc0, 0));
    assert(spec_finalize(fields, acc0, 1) == Ok::<Seq<ValueModel>, ParseErrorModel>(Seq::empty()));
    assert(seq![ValueModel::BoolM(false)] + Seq::<ValueModel>::empty() =~= seq![
        ValueModel::BoolM(false),
    ]);
    assert(spec_finalize(fields, acc0, 0) == Ok::<Seq<ValueModel>, ParseErrorModel>(
        seq![ValueModel::BoolM(false)],
    ));
    assert(spec_parse(schema, argv_off) == Ok::<InvocationModel, ParseErrorModel>(
        InvocationModel::PrimaryM(seq![ValueModel::BoolM(false)]),
    ));
}

/// Omitting an optional integer field yields the explicit "no value"
/// result; supplying it yields the wrapped value.
pub proof fn lemma_optional_field(
    schema: CliSchema,
    f: SchemaField,
    v: Seq<char>,
    n: int,
    argv_omit: Seq<Seq<char>>,
    argv_give: Seq<Seq<char>>,
)
    requires
        schema.primary.fields@ == seq![f],
        f.kind@ == KindModel::OptionalM(ScalarType::IntTy),
        f.required == false,
        flag_usable(f.flag@),
        crate::numbers::spec_int_of(v) == Some(n),
        argv_omit == seq![run_token()],
        argv_give == seq![run_token(), dashdash(f.flag@), v],
    ensures
        spec_parse(schema, argv_omit) == Ok::<InvocationModel, ParseErrorModel>(
            InvocationModel::PrimaryM(seq![ValueModel::AbsentM]),
        ),
        spec_convert(f.kind@, ValueModel::AbsentM) == BoundModel::OptIntB(None),
        spec_parse(schema, argv_give) == Ok::<InvocationModel, ParseErrorModel>(
            InvocationModel::PrimaryM(seq![ValueModel::IntM(n)]),
        ),
        spec_convert(f.kind@, ValueModel::IntM(n)) == BoundModel::OptIntB(Some(n)),
{
    let fields = schema.primary.fields@;
    let acc0 = Seq::new(fields.len(), |k: int| None::<ValueModel>);
    assert(fields[0] == f);
    assert(acc0[0] is None);
    assert(!is_help_token(argv_omit[0]));
    assert(!is_version_token(argv_omit[0]));
    assert(!has_help_token(argv_omit));
    assert(!has_version_token(argv_omit));
    assert(spec_parse_primary(fields, argv_omit, 1, acc0) == spec_finalize(fields, acc0, 0));
    assert(spec_finalize(fields, acc0, 1) == Ok::<Seq<ValueModel>, ParseErrorModel>(Seq::empty()));
    assert(seq![ValueModel::AbsentM] + Seq::<ValueModel>::empty() =~= seq![ValueModel::AbsentM]);
    assert(spec_finalize(fields, acc0, 0) == Ok::<Seq<ValueModel>, ParseErrorModel>(
        seq![ValueModel::AbsentM],
    ));
    assert(spec_parse(schema, argv_omit) == Ok::<InvocationModel, ParseErrorModel>(
        InvocationModel::PrimaryM(seq![ValueModel::AbsentM]),
    ));
    assert(spec_field_value(f.flag@, f.kind@, v) == Ok::<ValueModel, ParseErrorModel>(
        ValueModel::IntM(n),
    ));
    lemma_int_token_not_surface(v, n);
    lemma_parse_single_supplied(schema, f, v, argv_give, ValueModel::IntM(n));
}


/// Omitting an optional text field yields the explicit "no value" result;
/// supplying it yields the wrapped text. A token that is itself a help or
/// version request yields that surface instead and stands outside this
/// law.
pub proof fn lemma_optional_text_field(
    schema: CliSchema,
    f: SchemaField,
    v: Seq<char>,
    argv_omit: Seq<Seq<char>>,
    argv_give: Seq<Seq<char>>,
)
    requires
        schema.primary.fields@ == seq![f],
        f.kind@ == KindModel::OptionalM(ScalarType::TextTy),
        f.required == false,
        flag_usable(f.flag@),
        !is_help_token(v),
        !is_version_token(v),
        argv_omit == seq![run_token()],
        argv_give == seq![run_token(), dashdash(f.flag@), v],
    ensures
        spec_parse(schema, argv_omit) == Ok::<InvocationModel, ParseErrorModel>(
            InvocationModel::PrimaryM(seq![ValueModel::AbsentM]),
        ),
        spec_convert(f.kind@, ValueModel::AbsentM) == BoundModel::OptTextB(None),
        spec_parse(schema, argv_give) == Ok::<InvocationModel, ParseErrorModel>(
            InvocationModel::PrimaryM(seq![ValueModel::TextM(v)]),
        ),
        spec_convert(f.kind@, ValueModel::TextM(v)) == BoundModel::OptTextB(Some(v)),
{
    lemma_parse_single_omitted(schema, f, argv_omit);
    assert(spec_field_value(f.flag@, f.kind@, v) == Ok::<ValueModel, ParseErrorModel>(
        ValueModel::TextM(v),
    ));
    lemma_parse_single_supplied(schema, f, v, argv_give, ValueModel::TextM(v));
}

/// Omitting an optional boolean field yields the explicit "no value"
/// result; supplying it an explicit `true` or `false` token yields the
/// wrapped value.
pub proof fn lemma_optional_bool_field(
    schema: CliSchema,
    f: SchemaField,
    v: Seq<char>,
    b: bool,
    argv_omit: Seq<Seq<char>>,
    argv_give: Seq<Seq<char>>,
)
    requires
        schema.primary.fields@ == seq![f],
        f.kind@ == KindModel::OptionalM(ScalarType::BoolTy),
        f.required == false,
        flag_usable(f.flag@),
        crate::numbers::spec_bool_of(v) == Some(b),
        argv_omit == seq![run_token()],
        argv_give == seq![run_token(), dashdash(f.flag@), v],
    ensures
        spec_parse(schema, argv_omit) == Ok::<InvocationModel, ParseErrorModel>(
            InvocationModel::PrimaryM(seq![ValueModel::AbsentM]),
        ),
        spec_convert(f.kind@, ValueModel::AbsentM) == BoundModel::OptBoolB(None),
        spec_parse(schema, argv_give) == Ok::<InvocationModel, ParseErrorModel>(
            InvocationModel::PrimaryM(seq![ValueModel::BoolM(b)]),
        ),
        spec_convert(f.kind@, ValueModel::BoolM(b)) == BoundModel::OptBoolB(Some(b)),
{
    lemma_parse_single_omitted(schema, f, argv_omit);
    lemma_bool_token_not_surface(v, b);
    assert(spec_field_value(f.flag@, f.kind@, v) == Ok::<ValueModel, ParseErrorModel>(
        ValueModel::BoolM(b),
    ));
    lemma_parse_single_supplied(schema, f, v, argv_give, ValueModel::BoolM(b));
}

} // verus!
