//! The argument parser: the sole input-validation boundary.
//!
//! One invocation's argument vector is parsed once, against the schema,
//! into either the primary operation's field values or the completion
//! operation's shell name. The grammar: the first token selects the
//! operation; each following `--flag` token selects a field; boolean
//! scalar fields are presence flags, every other field consumes the next
//! token as its value; optional fields are omissible, required fields are
//! not; enumerated fields accept only their choice tokens. A value is
//! always its own token: the single-token `--flag=value` form is not part
//! of this grammar.

use vstd::prelude::*;
use crate::errors::{ParseError, ParseErrorModel};
use crate::numbers::{parse_bool, parse_i64, spec_bool_of, spec_int_of};
use crate::param::{KindModel, ParamKind, ScalarType};
use crate::schema::{CliSchema, SchemaField};

verus! {

/// One parsed field value, produced once per process invocation and
/// consumed exactly once by the conversion step.
#[derive(Debug)]
pub enum FieldValue {
    /// An optional field that was omitted.
    Missing,
    /// A boolean scalar: presence of the flag, or an explicit token.
    BoolValue(bool),
    /// An integer scalar value.
    IntValue(i64),
    /// Owned text, for text scalars and text-reference fields.
    TextValue(String),
    /// A choice token of an enumerated field, verbatim.
    ChoiceValue(String),
}

/// The ghost mirror of a `FieldValue`.
#[verifier::ext_equal]
pub enum ValueModel {
    AbsentM,
    BoolM(bool),
    IntM(int),
    TextM(Seq<char>),
    ChoiceM(Seq<char>),
}

impl View for FieldValue {
    type V = ValueModel;

    open spec fn view(&self) -> ValueModel {
        match self {
            FieldValue::Missing => ValueModel::AbsentM,
            FieldValue::BoolValue(b) => ValueModel::BoolM(*b),
            FieldValue::IntValue(n) => ValueModel::IntM(*n as int),
            FieldValue::TextValue(s) => ValueModel::TextM(s@),
            FieldValue::ChoiceValue(s) => ValueModel::ChoiceM(s@),
        }
    }
}

impl FieldValue {
    /// An equal-view copy of this value.
    pub fn duplicate(&self) -> (r: FieldValue)
        ensures
            r@ == self@,
    {
        match self {
            FieldValue::Missing => FieldValue::Missing,
            FieldValue::BoolValue(b) => FieldValue::BoolValue(*b),
            FieldValue::IntValue(n) => FieldValue::IntValue(*n),
            FieldValue::TextValue(s) => FieldValue::TextValue(s.clone()),
            FieldValue::ChoiceValue(s) => FieldValue::ChoiceValue(s.clone()),
        }
    }
}

/// The views of a sequence of parsed values.
pub open spec fn args_view(vs: Seq<FieldValue>) -> Seq<ValueModel> {
    vs.map_values(|f: FieldValue| f@)
}

/// The views of a partial assignment of parsed values.
pub open spec fn acc_view(acc: Seq<Option<FieldValue>>) -> Seq<Option<ValueModel>> {
    acc.map_values(
        |o: Option<FieldValue>|
            match o {
                Some(f) => Some(f@),
                None => None,
            },
    )
}

/// The parsed values of one primary-operation invocation, one per schema
/// field, in field order.
#[derive(Debug)]
pub struct ParsedArguments {
    pub values: Vec<FieldValue>,
}

impl View for ParsedArguments {
    type V = Seq<ValueModel>;

    open spec fn view(&self) -> Seq<ValueModel> {
        args_view(self.values@)
    }
}

/// What one invocation asked for: the primary operation with its parsed
/// field values, the completion operation with its shell name, or one of
/// the standard help and version surfaces.
#[derive(Debug)]
pub enum ParsedInvocation {
    Primary(ParsedArguments),
    Completion { shell: String },
    HelpRequested,
    VersionRequested,
}

/// The ghost mirror of a `ParsedInvocation`.
#[verifier::ext_equal]
pub enum InvocationModel {
    PrimaryM(Seq<ValueModel>),
    CompletionM(Seq<char>),
    HelpM,
    VersionM,
}

impl View for ParsedInvocation {
    type V = InvocationModel;

    open spec fn view(&self) -> InvocationModel {
        match self {
            ParsedInvocation::Primary(a) => InvocationModel::PrimaryM(a@),
            ParsedInvocation::Completion { shell } => InvocationModel::CompletionM(shell@),
            ParsedInvocation::HelpRequested => InvocationModel::HelpM,
            ParsedInvocation::VersionRequested => InvocationModel::VersionM,
        }
    }
}

/// The long token a flag answers to.
pub open spec fn dashdash(flag: Seq<char>) -> Seq<char> {
    seq!['-', '-'] + flag
}

/// The token selecting the primary operation.
pub open spec fn run_token() -> Seq<char> {
    seq!['r', 'u', 'n']
}

/// The token selecting the completion operation.
pub open spec fn completion_token() -> Seq<char> {
    seq!['c', 'o', 'm', 'p', 'l', 'e', 't', 'i', 'o', 'n']
}

/// A token requesting the help surface.
pub open spec fn is_help_token(t: Seq<char>) -> bool {
    t == seq!['-', '-', 'h', 'e', 'l', 'p'] || t == seq!['-', 'h']
}

/// A token requesting the version surface.
pub open spec fn is_version_token(t: Seq<char>) -> bool {
    t == seq!['-', '-', 'v', 'e', 'r', 's', 'i', 'o', 'n'] || t == seq!['-', 'V']
}

/// Whether the primary operation's tokens ask for a standard surface
/// instead of a run: any help or version token among them.
pub open spec fn has_help_token(argv: Seq<Seq<char>>) -> bool {
    exists|i: int| 1 <= i < argv.len() && is_help_token(#[trigger] argv[i])
}

/// Whether the primary operation's tokens ask for the version surface.
pub open spec fn has_version_token(argv: Seq<Seq<char>>) -> bool {
    exists|i: int| 1 <= i < argv.len() && is_version_token(#[trigger] argv[i])
}

/// The first field, from `i` on, whose long token is `t`.
pub open spec fn spec_find_flag(fields: Seq<SchemaField>, t: Seq<char>, i: int) -> Option<int>
    decreases fields.len() - i,
{
    if i < 0 || i >= fields.len() {
        None
    } else if dashdash(fields[i].flag@) == t {
        Some(i)
    } else {
        spec_find_flag(fields, t, i + 1)
    }
}

/// The value a token denotes under a scalar carrier type.
pub open spec fn spec_scalar_value(flag: Seq<char>, t: ScalarType, v: Seq<char>) -> Result<
    ValueModel,
    ParseErrorModel,
> {
    match t {
        ScalarType::BoolTy => match spec_bool_of(v) {
            Some(b) => Ok(ValueModel::BoolM(b)),
            None => Err(ParseErrorModel::InvalidValueM { flag, text: v }),
        },
        ScalarType::IntTy => match spec_int_of(v) {
            Some(n) => Ok(ValueModel::IntM(n)),
            None => Err(ParseErrorModel::InvalidValueM { flag, text: v }),
        },
        ScalarType::TextTy => Ok(ValueModel::TextM(v)),
    }
}

/// The value a token denotes under a field kind.
pub open spec fn spec_field_value(flag: Seq<char>, kind: KindModel, v: Seq<char>) -> Result<
    ValueModel,
    ParseErrorModel,
> {
    match kind {
        KindModel::ScalarM(t) => spec_scalar_value(flag, t, v),
        KindModel::OptionalM(t) => spec_scalar_value(flag, t, v),
        KindModel::TextRefM => Ok(ValueModel::TextM(v)),
        KindModel::EnumeratedM(vs) => if vs.contains(v) {
            Ok(ValueModel::ChoiceM(v))
        } else {
            Err(ParseErrorModel::InvalidChoiceM { flag, token: v })
        },
    }
}

/// Whether a field is a presence flag: a boolean scalar.
pub open spec fn spec_is_bool_flag(f: SchemaField) -> bool {
    f.kind@ == KindModel::ScalarM(ScalarType::BoolTy)
}

/// What an unsupplied field yields: an error when it is required, `false`
/// for a presence flag, and the explicit "no value" result otherwise.
pub open spec fn spec_default_value(f: SchemaField) -> Result<ValueModel, ParseErrorModel> {
    if f.required {
        Err(ParseErrorModel::MissingRequiredM { name: f.name@ })
    } else if spec_is_bool_flag(f) {
        Ok(ValueModel::BoolM(false))
    } else {
        Ok(ValueModel::AbsentM)
    }
}

/// Completes a partial assignment, field by field from `i` on.
pub open spec fn spec_finalize(
    fields: Seq<SchemaField>,
    acc: Seq<Option<ValueModel>>,
    i: int,
) -> Result<Seq<ValueModel>, ParseErrorModel>
    decreases fields.len() - i,
{
    if i < 0 || i >= fields.len() {
        Ok(Seq::empty())
    } else {
        let head = match acc[i] {
            Some(v) => Ok(v),
            None => spec_default_value(fields[i]),
        };
        match head {
            Err(e) => Err(e),
            Ok(v) => match spec_finalize(fields, acc, i + 1) {
                Ok(rest) => Ok(seq![v] + rest),
                Err(e) => Err(e),
            },
        }
    }
}

/// Parses the primary operation's tokens from `i` on, over the partial
/// assignment built so far.
pub open spec fn spec_parse_primary(
    fields: Seq<SchemaField>,
    argv: Seq<Seq<char>>,
    i: int,
    acc: Seq<Option<ValueModel>>,
) -> Result<Seq<ValueModel>, ParseErrorModel>
    decreases argv.len() - i,
{
    if i < 0 || i >= argv.len() {
        spec_finalize(fields, acc, 0)
    } else {
        let t = argv[i];
        match spec_find_flag(fields, t, 0) {
            None => Err(ParseErrorModel::UnknownFlagM { token: t }),
            Some(j) => {
                if acc[j] is Some {
                    Err(ParseErrorModel::DuplicateFlagM { token: t })
                } else if spec_is_bool_flag(fields[j]) {
                    spec_parse_primary(
                        fields,
                        argv,
                        i + 1,
                        acc.update(j, Some(ValueModel::BoolM(true))),
                    )
                } else if i + 1 >= argv.len() {
                    Err(ParseErrorModel::MissingValueM { flag: fields[j].flag@ })
                } else {
                    match spec_field_value(fields[j].flag@, fields[j].kind@, argv[i + 1]) {
                        Ok(v) => spec_parse_primary(fields, argv, i + 2, acc.update(j, Some(v))),
                        Err(e) => Err(e),
                    }
                }
            },
        }
    }
}

/// Parses the completion operation's tokens from `i` on: exactly the shell
/// flag and its value.
pub open spec fn spec_parse_completion(shell_flag: Seq<char>, argv: Seq<Seq<char>>, i: int) -> Result<
    Seq<char>,
    ParseErrorModel,
> {
    if argv.len() <= i {
        Err(ParseErrorModel::MissingRequiredM { name: shell_flag })
    } else if argv[i] != dashdash(shell_flag) {
        Err(ParseErrorModel::UnknownFlagM { token: argv[i] })
    } else if argv.len() <= i + 1 {
        Err(ParseErrorModel::MissingValueM { flag: shell_flag })
    } else if argv.len() > i + 2 {
        Err(ParseErrorModel::UnknownFlagM { token: argv[i + 2] })
    } else {
        Ok(argv[i + 1])
    }
}

/// The whole parse of one argument vector against a schema.
pub open spec fn spec_parse(schema: CliSchema, argv: Seq<Seq<char>>) -> Result<
    InvocationModel,
    ParseErrorModel,
> {
    if argv.len() == 0 {
        Err(ParseErrorModel::MissingOperationM)
    } else if is_help_token(argv[0]) {
        Ok(InvocationModel::HelpM)
    } else if is_version_token(argv[0]) {
        Ok(InvocationModel::VersionM)
    } else if argv[0] == run_token() && has_help_token(argv) {
        Ok(InvocationModel::HelpM)
    } else if argv[0] == run_token() && has_version_token(argv) {
        Ok(InvocationModel::VersionM)
    } else if argv[0] == run_token() {
        match spec_parse_primary(
            schema.primary.fields@,
            argv,
            1,
            Seq::new(schema.primary.fields@.len(), |k: int| None::<ValueModel>),
        ) {
            Ok(vs) => Ok(InvocationModel::PrimaryM(vs)),
            Err(e) => Err(e),
        }
    } else if argv[0] == completion_token() {
        match spec_parse_completion(schema.completion.shell_flag@, argv, 1) {
            Ok(sh) => Ok(InvocationModel::CompletionM(sh)),
            Err(e) => Err(e),
        }
    } else {
        Err(ParseErrorModel::UnknownOperationM { token: argv[0] })
    }
}

/// Whether a parsed value is one the field's kind can produce.
pub open spec fn value_matches_kind(k: KindModel, v: ValueModel) -> bool {
    match k {
        KindModel::ScalarM(t) => match t {
            ScalarType::BoolTy => v is BoolM,
            ScalarType::IntTy => v is IntM,
            ScalarType::TextTy => v is TextM,
        },
        KindModel::OptionalM(t) => v is AbsentM || (match t {
            ScalarType::BoolTy => v is BoolM,
            ScalarType::IntTy => v is IntM,
            ScalarType::TextTy => v is TextM,
        }),
        KindModel::TextRefM => v is TextM,
        KindModel::EnumeratedM(vs) => v matches ValueModel::ChoiceM(c) && vs.contains(c),
    }
}

/// Whether every set entry of a partial assignment matches its field.
pub open spec fn acc_wellformed(fields: Seq<SchemaField>, acc: Seq<Option<ValueModel>>) -> bool {
    forall|j: int|
        0 <= j < fields.len() ==> (#[trigger] acc[j] matches Some(v) ==> value_matches_kind(
            fields[j].kind@,
            v,
        ))
}

/// Whether a full assignment matches the schema, field by field.
pub open spec fn args_wellformed(fields: Seq<SchemaField>, vs: Seq<ValueModel>) -> bool {
    vs.len() == fields.len() && forall|j: int|
        0 <= j < fields.len() ==> value_matches_kind(fields[j].kind@, #[trigger] vs[j])
}

/// Whether a token requests the help surface.
fn is_help_tok(s: &String) -> (b: bool)
    ensures
        b == is_help_token(s@),
{
    proof {
        reveal_strlit("--help");
        reveal_strlit("-h");
        assert("--help"@ =~= seq!['-', '-', 'h', 'e', 'l', 'p']);
        assert("-h"@ =~= seq!['-', 'h']);
    }
    *s == String::from_str("--help") || *s == String::from_str("-h")
}

/// Whether a token requests the version surface.
fn is_version_tok(s: &String) -> (b: bool)
    ensures
        b == is_version_token(s@),
{
    proof {
        reveal_strlit("--version");
        reveal_strlit("-V");
        assert("--version"@ =~= seq!['-', '-', 'v', 'e', 'r', 's', 'i', 'o', 'n']);
        assert("-V"@ =~= seq!['-', 'V']);
    }
    *s == String::from_str("--version") || *s == String::from_str("-V")
}

/// Builds the long token a flag answers to.
fn long_token(flag: &String) -> (r: String)
    ensures
        r@ == dashdash(flag@),
{
    proof {
        reveal_strlit("--");
        assert("--"@ =~= seq!['-', '-']);
    }
    let mut t = String::from_str("--");
    t.append(flag.as_str());
    t
}

/// Finds the first field whose long token is `t`.
fn find_flag(fields: &Vec<SchemaField>, t: &String) -> (r: Option<usize>)
    ensures
        match r {
            Some(j) => spec_find_flag(fields@, t@, 0) == Some(j as int) && j < fields@.len(),
            None => spec_find_flag(fields@, t@, 0) is None,
        },
{
    let mut j: usize = 0;
    while j < fields.len()
        invariant
            j <= fields@.len(),
            spec_find_flag(fields@, t@, 0) == spec_find_flag(fields@, t@, j as int),
        decreases fields@.len() - j,
    {
        let long = long_token(&fields[j].flag);
        if long == *t {
            return Some(j);
        }
        j = j + 1;
    }
    None
}

/// The value a token denotes under a scalar carrier type.
fn scalar_value(flag: &String, t: ScalarType, v: &String) -> (r: Result<FieldValue, ParseError>)
    ensures
        match r {
            Ok(fv) => spec_scalar_value(flag@, t, v@) == Ok::<ValueModel, ParseErrorModel>(fv@),
            Err(e) => spec_scalar_value(flag@, t, v@) == Err::<ValueModel, ParseErrorModel>(e@),
        },
{
    match t {
        ScalarType::BoolTy => match parse_bool(v) {
            Some(b) => Ok(FieldValue::BoolValue(b)),
            None => Err(ParseError::InvalidValue { flag: flag.clone(), text: v.clone() }),
        },
        ScalarType::IntTy => match parse_i64(v) {
            Some(n) => Ok(FieldValue::IntValue(n)),
            None => Err(ParseError::InvalidValue { flag: flag.clone(), text: v.clone() }),
        },
        ScalarType::TextTy => Ok(FieldValue::TextValue(v.clone())),
    }
}

/// The value a token denotes under a field kind.
fn field_value(flag: &String, kind: &ParamKind, v: &String) -> (r: Result<FieldValue, ParseError>)
    ensures
        match r {
            Ok(fv) => spec_field_value(flag@, kind@, v@) == Ok::<ValueModel, ParseErrorModel>(fv@)
                && value_matches_kind(kind@, fv@),
            Err(e) => spec_field_value(flag@, kind@, v@) == Err::<ValueModel, ParseErrorModel>(e@),
        },
{
    match kind {
        ParamKind::Scalar(t) => scalar_value(flag, *t, v),
        ParamKind::Optional(t) => scalar_value(flag, *t, v),
        ParamKind::TextRef => Ok(FieldValue::TextValue(v.clone())),
        ParamKind::Enumerated(vs) => {
            let mut k: usize = 0;
            while k < vs.len()
                invariant
                    k <= vs@.len(),
                    kind@ == KindModel::EnumeratedM(vs.deep_view()),
                    forall|m: int| 0 <= m < k ==> vs.deep_view()[m] != v@,
                decreases vs@.len() - k,
            {
                if vs[k] == *v {
                    let out = FieldValue::ChoiceValue(v.clone());
                    proof {
                        assert(vs.deep_view()[k as int] == v@);
                        assert(vs.deep_view().contains(v@));
                        assert(out@ == ValueModel::ChoiceM(v@));
                        assert(spec_field_value(flag@, kind@, v@) == Ok::<
                            ValueModel,
                            ParseErrorModel,
                        >(ValueModel::ChoiceM(v@)));
                    }
                    return Ok(out);
                }
                k = k + 1;
            }
            proof {
                assert(forall|m: int| 0 <= m < vs.deep_view().len() ==> vs.deep_view()[m] != v@);
                assert(!vs.deep_view().contains(v@));
                assert(spec_field_value(flag@, kind@, v@) == Err::<ValueModel, ParseErrorModel>(
                    ParseErrorModel::InvalidChoiceM { flag: flag@, token: v@ },
                ));
            }
            Err(ParseError::InvalidChoice { flag: flag.clone(), token: v.clone() })
        },
    }
}

/// Completes a partial assignment from field `i` on, supplying defaults and
/// rejecting unsupplied required fields.
fn finalize_fields(fields: &Vec<SchemaField>, acc: &Vec<Option<FieldValue>>, i: usize) -> (r:
    Result<Vec<FieldValue>, ParseError>)
    requires
        i <= fields@.len(),
        acc@.len() == fields@.len(),
        acc_wellformed(fields@, acc_view(acc@)),
        crate::schema::fields_wellformed(fields@),
    ensures
        match r {
            Ok(vs) => spec_finalize(fields@, acc_view(acc@), i as int) == Ok::<
                Seq<ValueModel>,
                ParseErrorModel,
            >(args_view(vs@)) && vs@.len() == fields@.len() - i && forall|j: int|
                i <= j < fields@.len() ==> value_matches_kind(
                    fields@[j].kind@,
                    #[trigger] args_view(vs@)[j - i],
                ),
            Err(e) => spec_finalize(fields@, acc_view(acc@), i as int) == Err::<
                Seq<ValueModel>,
                ParseErrorModel,
            >(e@),
        },
    decreases fields@.len() - i,
{
    if i == fields.len() {
        let out: Vec<FieldValue> = Vec::new();
        proof {
            assert(args_view(out@) =~= Seq::<ValueModel>::empty());
        }
        return Ok(out);
    }
    let head = match &acc[i] {
        Some(fv) => {
            let h = fv.duplicate();
            proof {
                assert(acc_view(acc@)[i as int] == Some(h@));
                assert(value_matches_kind(fields@[i as int].kind@, h@));
            }
            h
        },
        None => {
            proof {
                assert(acc_view(acc@)[i as int] is None);
            }
            if fields[i].required {
                return Err(ParseError::MissingRequired { name: fields[i].name.clone() });
            }
            let is_bool = match &fields[i].kind {
                ParamKind::Scalar(t) => *t == ScalarType::BoolTy,
                _ => false,
            };
            proof {
                assert(is_bool <==> spec_is_bool_flag(fields@[i as int]));
                assert(!fields@[i as int].required);
                assert(fields@[i as int].required == crate::param::kind_required(
                    fields@[i as int].kind@,
                ));
            }
            if is_bool {
                FieldValue::BoolValue(false)
            } else {
                proof {
                    assert(fields@[i as int].kind@ is OptionalM);
                }
                FieldValue::Missing
            }
        },
    };
    let ghost headm = head@;
    proof {
        assert(value_matches_kind(fields@[i as int].kind@, headm));
        assert(match acc_view(acc@)[i as int] {
            Some(v) => Ok::<ValueModel, ParseErrorModel>(v),
            None => spec_default_value(fields@[i as int]),
        } == Ok::<ValueModel, ParseErrorModel>(headm));
    }
    match finalize_fields(fields, acc, i + 1) {
        Ok(rest) => {
            let ghost restseq = rest@;
            let mut out = rest;
            out.insert(0, head);
            proof {
                let l = args_view(out@);
                let rr = seq![headm] + args_view(restseq);
                assert(l.len() == rr.len());
                assert forall|m: int| 0 <= m < l.len() implies l[m] == rr[m] by {
                    if m == 0 {
                        assert(out@[0]@ == headm);
                    } else {
                        assert(out@[m] == restseq[m - 1]);
                    }
                }
                assert(l =~= rr);
                assert forall|j: int| i <= j < fields@.len() implies value_matches_kind(
                    fields@[j].kind@,
                    #[trigger] args_view(out@)[j - i],
                ) by {
                    if j == i {
                        assert(args_view(out@)[0] == headm);
                    } else {
                        assert(args_view(out@)[j - i] == args_view(restseq)[j - (i + 1)]);
                    }
                }
            }
            Ok(out)
        },
        Err(e) => Err(e),
    }
}

/// Parses the primary operation's tokens from `i` on.
fn parse_primary(
    fields: &Vec<SchemaField>,
    argv: &Vec<String>,
    i: usize,
    acc: Vec<Option<FieldValue>>,
) -> (r: Result<Vec<FieldValue>, ParseError>)
    requires
        i <= argv@.len(),
        acc@.len() == fields@.len(),
        acc_wellformed(fields@, acc_view(acc@)),
        crate::schema::fields_wellformed(fields@),
    ensures
        match r {
            Ok(vs) => spec_parse_primary(fields@, argv.deep_view(), i as int, acc_view(acc@))
                == Ok::<Seq<ValueModel>, ParseErrorModel>(args_view(vs@)) && args_wellformed(
                fields@,
                args_view(vs@),
            ),
            Err(e) => spec_parse_primary(fields@, argv.deep_view(), i as int, acc_view(acc@))
                == Err::<Seq<ValueModel>, ParseErrorModel>(e@),
        },
    decreases argv@.len() - i,
{
    if i == argv.len() {
        let r = finalize_fields(fields, &acc, 0);
        proof {
            if r is Ok {
                let vs = r->Ok_0;
                assert(args_view(vs@).len() == fields@.len());
                assert forall|j: int| 0 <= j < fields@.len() implies value_matches_kind(
                    fields@[j].kind@,
                    #[trigger] args_view(vs@)[j],
                ) by {
                    assert(value_matches_kind(fields@[j].kind@, args_view(vs@)[j - 0]));
                }
            }
        }
        return r;
    }
    let t = &argv[i];
    proof {
        assert(argv.deep_view()[i as int] == argv@[i as int]@);
    }
    match find_flag(fields, t) {
        None => Err(ParseError::UnknownFlag { token: t.clone() }),
        Some(j) => {
            let already = match &acc[j] {
                Some(_) => true,
                None => false,
            };
            if already {
                return Err(ParseError::DuplicateFlag { token: t.clone() });
            }
            let is_bool = match &fields[j].kind {
                ParamKind::Scalar(tt) => *tt == ScalarType::BoolTy,
                _ => false,
            };
            if is_bool {
                let mut acc2 = acc;
                acc2.set(j, Some(FieldValue::BoolValue(true)));
                proof {
                    assert(acc_view(acc2@) =~= acc_view(acc@).update(
                        j as int,
                        Some(ValueModel::BoolM(true)),
                    ));
                }
                parse_primary(fields, argv, i + 1, acc2)
            } else if i + 1 == argv.len() {
                Err(ParseError::MissingValue { flag: fields[j].flag.clone() })
            } else {
                proof {
                    assert(argv.deep_view()[i + 1] == argv@[i + 1]@);
                }
                match field_value(&fields[j].flag, &fields[j].kind, &argv[i + 1]) {
                    Ok(v) => {
                        let ghost vm = v@;
                        let mut acc2 = acc;
                        acc2.set(j, Some(v));
                        proof {
                            assert(acc_view(acc2@) =~= acc_view(acc@).update(j as int, Some(vm)));
                        }
                        parse_primary(fields, argv, i + 2, acc2)
                    },
                    Err(e) => Err(e),
                }
            }
        },
    }
}

/// Parses the completion operation's tokens from `i` on.
fn parse_completion(shell_flag: &String, argv: &Vec<String>, i: usize) -> (r: Result<
    String,
    ParseError,
>)
    requires
        i <= argv@.len(),
    ensures
        match r {
            Ok(sh) => spec_parse_completion(shell_flag@, argv.deep_view(), i as int) == Ok::<
                Seq<char>,
                ParseErrorModel,
            >(sh@),
            Err(e) => spec_parse_completion(shell_flag@, argv.deep_view(), i as int) == Err::<
                Seq<char>,
                ParseErrorModel,
            >(e@),
        },
{
    if i == argv.len() {
        return Err(ParseError::MissingRequired { name: shell_flag.clone() });
    }
    proof {
        assert(argv.deep_view()[i as int] == argv@[i as int]@);
    }
    let long = long_token(shell_flag);
    if argv[i] != long {
        return Err(ParseError::UnknownFlag { token: argv[i].clone() });
    }
    if i + 1 == argv.len() {
        return Err(ParseError::MissingValue { flag: shell_flag.clone() });
    }
    proof {
        assert(argv.deep_view()[i + 1] == argv@[i + 1]@);
    }
    if argv.len() > i + 2 {
        proof {
            assert(argv.deep_view()[i + 2] == argv@[i + 2]@);
        }
        return Err(ParseError::UnknownFlag { token: argv[i + 2].clone() });
    }
    Ok(argv[i + 1].clone())
}

/// Parses one argument vector against the schema.
///
/// The result is exactly what the parsing relation of the schema says of
/// this vector: the primary operation's field values — each matching its
/// field's kind — the completion operation's shell name, or the first
/// parse error.
pub fn parse_arguments(schema: &CliSchema, argv: &Vec<String>) -> (r: Result<
    ParsedInvocation,
    ParseError,
>)
    requires
        crate::schema::schema_wellformed(*schema),
    ensures
        match r {
            Ok(inv) => spec_parse(*schema, argv.deep_view()) == Ok::<
                InvocationModel,
                ParseErrorModel,
            >(inv@),
            Err(e) => spec_parse(*schema, argv.deep_view()) == Err::<
                InvocationModel,
                ParseErrorModel,
            >(e@),
        },
        r matches Ok(ParsedInvocation::Primary(a)) ==> args_wellformed(
            schema.primary.fields@,
            a@,
        ),
{
    if argv.len() == 0 {
        return Err(ParseError::MissingOperation);
    }
    proof {
        assert(argv.deep_view()[0] == argv@[0]@);
        reveal_strlit("run");
        reveal_strlit("completion");
        assert("run"@ =~= run_token());
        assert("completion"@ =~= completion_token());
    }
    if is_help_tok(&argv[0]) {
        return Ok(ParsedInvocation::HelpRequested);
    }
    if is_version_tok(&argv[0]) {
        return Ok(ParsedInvocation::VersionRequested);
    }
    let run = String::from_str("run");
    let completion = String::from_str("completion");
    if argv[0] == run {
        let mut h: usize = 1;
        while h < argv.len()
            invariant
                1 <= h <= argv@.len(),
                argv.deep_view()[0] == run_token(),
                forall|m: int| 1 <= m < h ==> !is_help_token(#[trigger] argv.deep_view()[m]),
            decreases argv@.len() - h,
        {
            proof {
                assert(argv.deep_view()[h as int] == argv@[h as int]@);
            }
            if is_help_tok(&argv[h]) {
                proof {
                    assert(has_help_token(argv.deep_view()));
                }
                return Ok(ParsedInvocation::HelpRequested);
            }
            h = h + 1;
        }
        proof {
            assert(!has_help_token(argv.deep_view()));
        }
        let mut v: usize = 1;
        while v < argv.len()
            invariant
                1 <= v <= argv@.len(),
                argv.deep_view()[0] == run_token(),
                !has_help_token(argv.deep_view()),
                forall|m: int| 1 <= m < v ==> !is_version_token(#[trigger] argv.deep_view()[m]),
            decreases argv@.len() - v,
        {
            proof {
                assert(argv.deep_view()[v as int] == argv@[v as int]@);
            }
            if is_version_tok(&argv[v]) {
                proof {
                    assert(has_version_token(argv.deep_view()));
                }
                return Ok(ParsedInvocation::VersionRequested);
            }
            v = v + 1;
        }
        proof {
            assert(!has_version_token(argv.deep_view()));
        }
        let mut acc: Vec<Option<FieldValue>> = Vec::new();
        let n = schema.primary.fields.len();
        while acc.len() < n
            invariant
                acc@.len() <= n,
                forall|j: int| 0 <= j < acc@.len() ==> acc@[j] is None,
            decreases n - acc@.len(),
        {
            acc.push(None);
        }
        proof {
            assert(acc_view(acc@) =~= Seq::new(
                schema.primary.fields@.len(),
                |k: int| None::<ValueModel>,
            ));
        }
        match parse_primary(&schema.primary.fields, argv, 1, acc) {
            Ok(vs) => Ok(ParsedInvocation::Primary(ParsedArguments { values: vs })),
            Err(e) => Err(e),
        }
    } else if argv[0] == completion {
        match parse_completion(&schema.completion.shell_flag, argv, 1) {
            Ok(sh) => Ok(ParsedInvocation::Completion { shell: sh }),
            Err(e) => Err(e),
        }
    } else {
        Err(ParseError::UnknownOperation { token: argv[0].clone() })
    }
}

} // verus!
