//! Normalized parameter descriptors and their extraction.
//!
//! One declared entry-point parameter — its pattern, declared type, explicit
//! overrides and doc text — becomes a `ParameterSpec`, the normalized form the
//! schema builder works on.

use vstd::prelude::*;
use crate::errors::BuildError;

verus! {

/// The scalar carriers a field can bind: a presence flag, a signed integer,
/// or owned text.
#[derive(Clone, Copy, Debug, PartialEq, Eq, Structural)]
pub enum ScalarType {
    BoolTy,
    IntTy,
    TextTy,
}

/// The binding kind of one schema field.
#[derive(Clone, Debug)]
pub enum ParamKind {
    /// Passed through unchanged under the declared scalar type.
    Scalar(ScalarType),
    /// Never required; omission yields the explicit "no value" result.
    Optional(ScalarType),
    /// Owned text in the schema, exposed to the body as a borrowed view.
    TextRef,
    /// A flat enumeration; each variant identifier is a choice token verbatim.
    Enumerated(Vec<String>),
}

/// The ghost mirror of a `ParamKind`, over sequences of characters.
#[verifier::ext_equal]
pub enum KindModel {
    ScalarM(ScalarType),
    OptionalM(ScalarType),
    TextRefM,
    EnumeratedM(Seq<Seq<char>>),
}

impl View for ParamKind {
    type V = KindModel;

    open spec fn view(&self) -> KindModel {
        match self {
            ParamKind::Scalar(t) => KindModel::ScalarM(*t),
            ParamKind::Optional(t) => KindModel::OptionalM(*t),
            ParamKind::TextRef => KindModel::TextRefM,
            ParamKind::Enumerated(vs) => KindModel::EnumeratedM(vs.deep_view()),
        }
    }
}

impl ParamKind {
    /// An equal-view copy of this kind.
    pub fn duplicate(&self) -> (r: ParamKind)
        ensures
            r@ == self@,
    {
        match self {
            ParamKind::Scalar(t) => ParamKind::Scalar(*t),
            ParamKind::Optional(t) => ParamKind::Optional(*t),
            ParamKind::TextRef => ParamKind::TextRef,
            ParamKind::Enumerated(vs) => {
                let c = vs.clone();
                proof {
                    assert(c.deep_view() =~= vs.deep_view());
                }
                ParamKind::Enumerated(c)
            },
        }
    }
}

/// Whether a field of this kind must be supplied at parse time: optional
/// fields never, boolean scalars never (absence simply means `false`),
/// everything else always.
pub open spec fn kind_required(k: KindModel) -> bool {
    match k {
        KindModel::OptionalM(_) => false,
        KindModel::ScalarM(t) => t != ScalarType::BoolTy,
        KindModel::TextRefM => true,
        KindModel::EnumeratedM(_) => true,
    }
}

/// The pattern a parameter was declared under.
#[derive(Clone, Debug)]
pub enum ParamPattern {
    /// A plain identifier: the only supported form.
    Identifier(String),
    /// Anything else: a registration-time error.
    Unsupported,
}

/// The declared type of a parameter, as the type-mapping policy reads it.
#[derive(Clone, Debug)]
pub enum DeclaredType {
    /// A string-like reference type.
    Reference,
    /// An optional-wrapped scalar.
    OptionOf(ScalarType),
    /// A flat enumeration with the given variant identifiers.
    Enumeration(Vec<String>),
    /// Any other declared type.
    Plain(ScalarType),
}

/// The kind that the type-mapping policy assigns to a declared type.
pub open spec fn mapped_kind(t: DeclaredType) -> KindModel {
    match t {
        DeclaredType::Reference => KindModel::TextRefM,
        DeclaredType::OptionOf(s) => KindModel::OptionalM(s),
        DeclaredType::Enumeration(vs) => KindModel::EnumeratedM(vs.deep_view()),
        DeclaredType::Plain(s) => KindModel::ScalarM(s),
    }
}

/// One declared entry-point parameter, before normalization: the pattern and
/// type from the declaration, explicit per-parameter overrides, and the doc
/// text attached to the declaration.
#[derive(Clone, Debug)]
pub struct DeclaredParameter {
    pub pattern: ParamPattern,
    pub declared_type: DeclaredType,
    pub flag_override: Option<String>,
    pub help_override: Option<String>,
    pub required_override: Option<bool>,
    pub doc_text: Option<String>,
}

/// A normalized parameter descriptor.
#[derive(Clone, Debug)]
pub struct ParameterSpec {
    pub name: String,
    pub kind: ParamKind,
    pub flag_override: Option<String>,
    pub help_text: Option<String>,
    pub required_override: Option<bool>,
}

/// The view of an optional owned string.
pub open spec fn opt_view(o: Option<String>) -> Option<Seq<char>> {
    match o {
        Some(s) => Some(s@),
        None => None,
    }
}

/// What extraction yields for a well-formed declared parameter.
pub open spec fn spec_extracted(p: DeclaredParameter, r: ParameterSpec) -> bool {
    &&& p.pattern matches ParamPattern::Identifier(n) && r.name@ == n@
    &&& r.kind@ == mapped_kind(p.declared_type)
    &&& opt_view(r.flag_override) == opt_view(p.flag_override)
    &&& opt_view(r.help_text) == (if p.help_override is Some {
        opt_view(p.help_override)
    } else {
        opt_view(p.doc_text)
    })
    &&& r.required_override == p.required_override
}

/// A declared parameter is malformed when its pattern is not an identifier.
pub open spec fn pattern_unsupported(p: DeclaredParameter) -> bool {
    !(p.pattern matches ParamPattern::Identifier(_))
}

/// An explicit required override contradicts the authoritative rule when it
/// disagrees with the requiredness derived from the declared type.
pub open spec fn override_contradicts(p: DeclaredParameter) -> bool {
    match p.required_override {
        Some(b) => b != kind_required(mapped_kind(p.declared_type)),
        None => false,
    }
}

/// Turns one declared parameter into its normalized descriptor.
///
/// A non-identifier pattern is the "unsupported parameter form" error; an
/// explicit required override that contradicts the declared type's
/// optionality is flagged rather than silently resolved. Help text falls
/// back to the parameter's doc text when no explicit help is given.
pub fn extract_parameter(p: &DeclaredParameter, position: usize) -> (r: Result<
    ParameterSpec,
    BuildError,
>)
    ensures
        pattern_unsupported(*p) <==> (r matches Err(BuildError::UnsupportedParameterForm {
            position: q,
        }) && q == position),
        !pattern_unsupported(*p) && override_contradicts(*p) <==> (r matches Err(
            BuildError::ContradictoryRequiredOverride { name },
        ) && p.pattern matches ParamPattern::Identifier(n) && name@ == n@),
        r matches Ok(s) ==> spec_extracted(*p, s),
        r is Ok <==> !pattern_unsupported(*p) && !override_contradicts(*p),
{
    let name = match &p.pattern {
        ParamPattern::Identifier(n) => n.clone(),
        ParamPattern::Unsupported => {
            return Err(BuildError::UnsupportedParameterForm { position });
        },
    };
    let kind = match &p.declared_type {
        DeclaredType::Reference => ParamKind::TextRef,
        DeclaredType::OptionOf(s) => ParamKind::Optional(*s),
        DeclaredType::Enumeration(vs) => ParamKind::Enumerated(vs.clone()),
        DeclaredType::Plain(s) => ParamKind::Scalar(*s),
    };
    let derived_required = match &kind {
        ParamKind::Optional(_) => false,
        ParamKind::Scalar(t) => *t != ScalarType::BoolTy,
        ParamKind::TextRef => true,
        ParamKind::Enumerated(_) => true,
    };
    if let Some(b) = p.required_override {
        if b != derived_required {
            return Err(BuildError::ContradictoryRequiredOverride { name });
        }
    }
    let help_text = match &p.help_override {
        Some(h) => Some(h.clone()),
        None => match &p.doc_text {
            Some(d) => Some(d.clone()),
            None => None,
        },
    };
    let flag_override = match &p.flag_override {
        Some(f) => Some(f.clone()),
        None => None,
    };
    Ok(ParameterSpec { name, kind, flag_override, help_text, required_override: p.required_override })
}

} // verus!
