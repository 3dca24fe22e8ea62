//! Typed conversion of parsed values back to the declared parameter forms.
//!
//! For each schema field the parsed value is converted to the binding the
//! original parameter declared: text-reference fields are exposed to the
//! body as borrowed views over the parsed owned text; optional fields as an
//! explicit "no value" or the wrapped value; everything else is passed
//! through unchanged.

use vstd::prelude::*;
use crate::param::{KindModel, ParamKind, ScalarType};
use crate::parse::{FieldValue, ParsedArguments, ValueModel, args_wellformed, value_matches_kind};
use crate::schema::SchemaField;

verus! {

/// One binding handed to the wrapped body, under the original parameter's
/// name and declared form.
#[derive(Debug)]
pub enum BoundValue {
    BoolBinding(bool),
    IntBinding(i64),
    TextBinding(String),
    /// Owned storage whose borrowed view the body sees.
    TextRefBinding(String),
    /// A choice token of an enumerated parameter, verbatim.
    ChoiceBinding(String),
    OptionalBool(Option<bool>),
    OptionalInt(Option<i64>),
    OptionalText(Option<String>),
}

/// The ghost mirror of a `BoundValue`.
#[verifier::ext_equal]
pub enum BoundModel {
    BoolB(bool),
    IntB(int),
    TextB(Seq<char>),
    TextRefB(Seq<char>),
    ChoiceB(Seq<char>),
    OptBoolB(Option<bool>),
    OptIntB(Option<int>),
    OptTextB(Option<Seq<char>>),
}

impl View for BoundValue {
    type V = BoundModel;

    open spec fn view(&self) -> BoundModel {
        match self {
            BoundValue::BoolBinding(b) => BoundModel::BoolB(*b),
            BoundValue::IntBinding(n) => BoundModel::IntB(*n as int),
            BoundValue::TextBinding(s) => BoundModel::TextB(s@),
            BoundValue::TextRefBinding(s) => BoundModel::TextRefB(s@),
            BoundValue::ChoiceBinding(s) => BoundModel::ChoiceB(s@),
            BoundValue::OptionalBool(o) => BoundModel::OptBoolB(*o),
            BoundValue::OptionalInt(o) => BoundModel::OptIntB(
                match o {
                    Some(n) => Some(*n as int),
                    None => None,
                },
            ),
            BoundValue::OptionalText(o) => BoundModel::OptTextB(
                match o {
                    Some(s) => Some(s@),
                    None => None,
                },
            ),
        }
    }
}

impl BoundValue {
    /// The borrowed view of a text-reference binding: its content is
    /// exactly the parsed owned text.
    pub fn text_ref(&self) -> (r: &str)
        requires
            self@ is TextRefB,
        ensures
            r@ == self@->TextRefB_0,
    {
        match self {
            BoundValue::TextRefBinding(s) => s.as_str(),
            _ => vstd::pervasive::unreached(),
        }
    }
}

/// The views of a sequence of bindings.
pub open spec fn bounds_view(vs: Seq<BoundValue>) -> Seq<BoundModel> {
    vs.map_values(|b: BoundValue| b@)
}

/// The binding a parsed value converts to under a field kind.
pub open spec fn spec_convert(kind: KindModel, v: ValueModel) -> BoundModel {
    match kind {
        KindModel::ScalarM(t) => match t {
            ScalarType::BoolTy => BoundModel::BoolB(v->BoolM_0),
            ScalarType::IntTy => BoundModel::IntB(v->IntM_0),
            ScalarType::TextTy => BoundModel::TextB(v->TextM_0),
        },
        KindModel::OptionalM(t) => match t {
            ScalarType::BoolTy => BoundModel::OptBoolB(
                if v is AbsentM {
                    None
                } else {
                    Some(v->BoolM_0)
                },
            ),
            ScalarType::IntTy => BoundModel::OptIntB(
                if v is AbsentM {
                    None
                } else {
                    Some(v->IntM_0)
                },
            ),
            ScalarType::TextTy => BoundModel::OptTextB(
                if v is AbsentM {
                    None
                } else {
                    Some(v->TextM_0)
                },
            ),
        },
        KindModel::TextRefM => BoundModel::TextRefB(v->TextM_0),
        KindModel::EnumeratedM(_) => BoundModel::ChoiceB(v->ChoiceM_0),
    }
}

/// Converts one parsed value under its field's kind.
pub fn convert_field(kind: &ParamKind, v: &FieldValue) -> (r: BoundValue)
    requires
        value_matches_kind(kind@, v@),
    ensures
        r@ == spec_convert(kind@, v@),
{
    match kind {
        ParamKind::Scalar(t) => match t {
            ScalarType::BoolTy => match v {
                FieldValue::BoolValue(b) => BoundValue::BoolBinding(*b),
                _ => vstd::pervasive::unreached(),
            },
            ScalarType::IntTy => match v {
                FieldValue::IntValue(n) => BoundValue::IntBinding(*n),
                _ => vstd::pervasive::unreached(),
            },
            ScalarType::TextTy => match v {
                FieldValue::TextValue(s) => BoundValue::TextBinding(s.clone()),
                _ => vstd::pervasive::unreached(),
            },
        },
        ParamKind::Optional(t) => match t {
            ScalarType::BoolTy => match v {
                FieldValue::Missing => BoundValue::OptionalBool(None),
                FieldValue::BoolValue(b) => BoundValue::OptionalBool(Some(*b)),
                _ => vstd::pervasive::unreached(),
            },
            ScalarType::IntTy => match v {
                FieldValue::Missing => BoundValue::OptionalInt(None),
                FieldValue::IntValue(n) => BoundValue::OptionalInt(Some(*n)),
                _ => vstd::pervasive::unreached(),
            },
            ScalarType::TextTy => match v {
                FieldValue::Missing => BoundValue::OptionalText(None),
                FieldValue::TextValue(s) => BoundValue::OptionalText(Some(s.clone())),
                _ => vstd::pervasive::unreached(),
            },
        },
        ParamKind::TextRef => match v {
            FieldValue::TextValue(s) => BoundValue::TextRefBinding(s.clone()),
            _ => vstd::pervasive::unreached(),
        },
        ParamKind::Enumerated(_) => match v {
            FieldValue::ChoiceValue(s) => BoundValue::ChoiceBinding(s.clone()),
            _ => vstd::pervasive::unreached(),
        },
    }
}

/// Converts a whole parsed invocation of the primary operation: one binding
/// per schema field, in field order, each under its field's kind.
pub fn convert_arguments(fields: &Vec<SchemaField>, args: &ParsedArguments) -> (r: Vec<BoundValue>)
    requires
        args_wellformed(fields@, args@),
    ensures
        r@.len() == fields@.len(),
        forall|j: int|
            0 <= j < fields@.len() ==> bounds_view(r@)[j] == spec_convert(
                fields@[j].kind@,
                args@[j],
            ),
{
    let mut out: Vec<BoundValue> = Vec::new();
    let mut i: usize = 0;
    while i < fields.len()
        invariant
            i <= fields@.len(),
            out@.len() == i,
            args_wellformed(fields@, args@),
            args.values@.len() == fields@.len(),
            forall|j: int|
                0 <= j < i ==> bounds_view(out@)[j] == spec_convert(fields@[j].kind@, args@[j]),
        decreases fields@.len() - i,
    {
        proof {
            assert(args@[i as int] == args.values@[i as int]@);
        }
        let b = convert_field(&fields[i].kind, &args.values[i]);
        let ghost bm = b@;
        let ghost prev = out@;
        out.push(b);
        proof {
            assert forall|j: int| 0 <= j < i + 1 implies bounds_view(out@)[j] == spec_convert(
                fields@[j].kind@,
                args@[j],
            ) by {
                if j < i {
                    assert(out@[j] == prev[j]);
                    assert(bounds_view(prev)[j] == spec_convert(fields@[j].kind@, args@[j]));
                } else {
                    assert(out@[j]@ == bm);
                }
            }
        }
        i = i + 1;
    }
    out
}

} // verus!
