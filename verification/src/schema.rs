//! The schema builder.
//!
//! An ordered list of normalized parameter descriptors plus the entry
//! point's doc text becomes a complete CLI schema: one primary-operation
//! field per parameter, in declaration order, and the always-present
//! completion operation with its single required shell field.

use vstd::prelude::*;
use crate::errors::BuildError;
use crate::param::{
    DeclaredParameter, KindModel, ParamKind, ParameterSpec, extract_parameter, kind_required,
    opt_view, pattern_unsupported, spec_extracted,
};

verus! {

/// The package metadata the generated `--help` and `--version` surfaces
/// draw on, supplied explicitly at registration.
#[derive(Clone, Debug)]
pub struct PackageMetadata {
    pub name: String,
    pub version: String,
    pub author: String,
}

/// A complete signature of the entry point, after per-parameter extraction.
#[derive(Clone, Debug)]
pub struct FunctionSignature {
    pub entry_name: String,
    pub parameters: Vec<ParameterSpec>,
    pub declared_async: bool,
    pub doc_lines: Vec<String>,
}

/// One field of the primary operation.
#[derive(Clone, Debug)]
pub struct SchemaField {
    pub name: String,
    pub flag: String,
    pub kind: ParamKind,
    pub help: Option<String>,
    pub required: bool,
}

/// The primary operation: one field per parameter, plus the about text.
#[derive(Clone, Debug)]
pub struct PrimaryOperation {
    pub fields: Vec<SchemaField>,
    pub about: Option<String>,
}

/// The completion operation: a single required text field naming the shell.
#[derive(Clone, Debug)]
pub struct CompletionOperation {
    pub shell_flag: String,
}

/// The complete CLI schema derived once from a signature.
#[derive(Clone, Debug)]
pub struct CliSchema {
    pub primary: PrimaryOperation,
    pub completion: CompletionOperation,
    pub metadata: PackageMetadata,
}

/// The flag a descriptor's field answers to: the explicit override when one
/// is given, else the parameter name.
pub open spec fn spec_flag_of(p: ParameterSpec) -> Seq<char> {
    match p.flag_override {
        Some(f) => f@,
        None => p.name@,
    }
}

/// The field a descriptor maps to, component by component.
pub open spec fn field_corresponds(p: ParameterSpec, f: SchemaField) -> bool {
    &&& f.name@ == p.name@
    &&& f.flag@ == spec_flag_of(p)
    &&& f.kind@ == p.kind@
    &&& opt_view(f.help) == opt_view(p.help_text)
    &&& f.required == kind_required(p.kind@)
}

/// The about text: the doc lines joined with newline separators, taking the
/// first `i` lines.
pub open spec fn spec_join_lines(lines: Seq<Seq<char>>, i: int) -> Seq<char>
    decreases i,
{
    if i <= 0 {
        Seq::empty()
    } else if i == 1 {
        lines[0]
    } else {
        spec_join_lines(lines, i - 1) + seq!['\n'] + lines[i - 1]
    }
}

/// The name of the completion operation's shell field.
pub open spec fn spec_shell_flag() -> Seq<char> {
    seq!['s', 'h', 'e', 'l', 'l']
}

/// Every field's requiredness is the one its kind derives.
pub open spec fn fields_wellformed(fields: Seq<SchemaField>) -> bool {
    forall|j: int|
        0 <= j < fields.len() ==> (#[trigger] fields[j]).required == kind_required(
            fields[j].kind@,
        )
}

/// The flag reserved for the generated help surface.
pub open spec fn help_flag_name() -> Seq<char> {
    seq!['h', 'e', 'l', 'p']
}

/// The flag reserved for the generated version surface.
pub open spec fn version_flag_name() -> Seq<char> {
    seq!['v', 'e', 'r', 's', 'i', 'o', 'n']
}

/// A name can serve as a flag: non-empty, not starting with a dash, and
/// not one of the reserved surface flags.
pub open spec fn flag_usable(s: Seq<char>) -> bool {
    s.len() > 0 && s[0] != '-' && s != help_flag_name() && s != version_flag_name()
}

/// Parameter names are pairwise distinct.
pub open spec fn names_unique(ps: Seq<ParameterSpec>) -> bool {
    forall|a: int, b: int| 0 <= a < b < ps.len() ==> ps[a].name@ != ps[b].name@
}

/// The flags the fields will answer to are pairwise distinct.
pub open spec fn flags_unique(ps: Seq<ParameterSpec>) -> bool {
    forall|a: int, b: int| 0 <= a < b < ps.len() ==> spec_flag_of(ps[a]) != spec_flag_of(ps[b])
}

/// Every descriptor's name and flag can serve as a flag.
pub open spec fn params_usable(ps: Seq<ParameterSpec>) -> bool {
    forall|i: int|
        0 <= i < ps.len() ==> flag_usable((#[trigger] ps[i]).name@) && flag_usable(
            spec_flag_of(ps[i]),
        )
}

/// The invariant every built schema satisfies: requiredness derived from
/// the kinds, names and flags pairwise distinct, every name and flag
/// usable.
pub open spec fn schema_wellformed(s: CliSchema) -> bool {
    &&& s.completion.shell_flag@ == spec_shell_flag()
    &&& fields_wellformed(s.primary.fields@)
    &&& forall|a: int, b: int|
        0 <= a < b < s.primary.fields@.len() ==> s.primary.fields@[a].name@
            != s.primary.fields@[b].name@
    &&& forall|a: int, b: int|
        0 <= a < b < s.primary.fields@.len() ==> s.primary.fields@[a].flag@
            != s.primary.fields@[b].flag@
    &&& forall|i: int|
        0 <= i < s.primary.fields@.len() ==> flag_usable(
            (#[trigger] s.primary.fields@[i]).name@,
        ) && flag_usable(s.primary.fields@[i].flag@)
}

/// Joins doc lines with newline separators.
fn join_lines(lines: &Vec<String>) -> (r: String)
    ensures
        r@ == spec_join_lines(lines.deep_view(), lines@.len() as int),
{
    let mut acc = String::new();
    let mut i: usize = 0;
    while i < lines.len()
        invariant
            i <= lines@.len(),
            acc@ == spec_join_lines(lines.deep_view(), i as int),
        decreases lines@.len() - i,
    {
        if i > 0 {
            acc.append("\n");
            proof {
                reveal_strlit("\n");
                assert("\n"@ =~= seq!['\n']);
            }
        }
        acc.append(lines[i].as_str());
        proof {
            assert(lines.deep_view()[i as int] == lines@[i as int]@);
        }
        i = i + 1;
    }
    acc
}

/// Builds the schema for a signature whose descriptors are already
/// normalized, pairwise distinct and usable as flags.
///
/// Exactly one primary-operation field per parameter, in declaration order;
/// the joined doc lines, if any, as the about text; the completion
/// operation, always present, with its single `shell` field; and the
/// supplied package metadata.
pub fn build_schema(sig: &FunctionSignature, metadata: PackageMetadata) -> (r: CliSchema)
    requires
        names_unique(sig.parameters@),
        flags_unique(sig.parameters@),
        params_usable(sig.parameters@),
    ensures
        r.primary.fields@.len() == sig.parameters@.len(),
        forall|i: int|
            0 <= i < sig.parameters@.len() ==> field_corresponds(
                sig.parameters@[i],
                #[trigger] r.primary.fields@[i],
            ),
        sig.doc_lines@.len() == 0 ==> r.primary.about is None,
        sig.doc_lines@.len() > 0 ==> opt_view(r.primary.about) == Some(
            spec_join_lines(sig.doc_lines.deep_view(), sig.doc_lines@.len() as int),
        ),
        r.completion.shell_flag@ == spec_shell_flag(),
        r.metadata.name@ == metadata.name@,
        r.metadata.version@ == metadata.version@,
        r.metadata.author@ == metadata.author@,
        schema_wellformed(r),
{
    let mut fields: Vec<SchemaField> = Vec::new();
    let mut i: usize = 0;
    while i < sig.parameters.len()
        invariant
            i <= sig.parameters@.len(),
            fields@.len() == i,
            forall|j: int|
                0 <= j < i ==> field_corresponds(sig.parameters@[j], #[trigger] fields@[j]),
        decreases sig.parameters@.len() - i,
    {
        let p = &sig.parameters[i];
        let flag = match &p.flag_override {
            Some(f) => f.clone(),
            None => p.name.clone(),
        };
        let required = match &p.kind {
            ParamKind::Optional(_) => false,
            ParamKind::Scalar(t) => *t != crate::param::ScalarType::BoolTy,
            ParamKind::TextRef => true,
            ParamKind::Enumerated(_) => true,
        };
        let help = match &p.help_text {
            Some(h) => Some(h.clone()),
            None => None,
        };
        fields.push(
            SchemaField { name: p.name.clone(), flag, kind: p.kind.duplicate(), help, required },
        );
        i = i + 1;
    }
    let about = if sig.doc_lines.len() > 0 {
        Some(join_lines(&sig.doc_lines))
    } else {
        None
    };
    proof {
        reveal_strlit("shell");
        assert("shell"@ =~= spec_shell_flag());
        assert forall|a: int, b: int| 0 <= a < b < fields@.len() implies fields@[a].name@
            != fields@[b].name@ by {
            assert(field_corresponds(sig.parameters@[a], fields@[a]));
            assert(field_corresponds(sig.parameters@[b], fields@[b]));
        }
        assert forall|a: int, b: int| 0 <= a < b < fields@.len() implies fields@[a].flag@
            != fields@[b].flag@ by {
            assert(field_corresponds(sig.parameters@[a], fields@[a]));
            assert(field_corresponds(sig.parameters@[b], fields@[b]));
        }
        assert forall|i: int| 0 <= i < fields@.len() implies flag_usable(
            (#[trigger] fields@[i]).name@,
        ) && flag_usable(fields@[i].flag@) by {
            assert(field_corresponds(sig.parameters@[i], fields@[i]));
            assert(flag_usable(sig.parameters@[i].name@));
            assert(flag_usable(spec_flag_of(sig.parameters@[i])));
        }
    }
    CliSchema {
        primary: PrimaryOperation { fields, about },
        completion: CompletionOperation { shell_flag: String::from_str("shell") },
        metadata,
    }
}

/// The structured error the first failing declared parameter yields: a
/// non-identifier pattern is the unsupported-parameter-form error at its
/// position; a contradictory override names its parameter.
pub open spec fn extraction_error_for(p: DeclaredParameter, position: int, e: BuildError) -> bool {
    if pattern_unsupported(p) {
        e matches BuildError::UnsupportedParameterForm { position: q } && q as int == position
    } else {
        e matches BuildError::ContradictoryRequiredOverride { name } && (p.pattern matches
        crate::param::ParamPattern::Identifier(n) && name@ == n@)
    }
}

/// Normalizes a whole declared parameter list, in order.
///
/// The first malformed parameter or contradictory override aborts
/// registration with its structured error; nothing is partially
/// constructed.
pub fn extract_signature(
    entry_name: String,
    declared: &Vec<DeclaredParameter>,
    declared_async: bool,
    doc_lines: Vec<String>,
) -> (r: Result<FunctionSignature, BuildError>)
    ensures
        r matches Ok(sig) ==> {
            &&& sig.entry_name@ == entry_name@
            &&& sig.declared_async == declared_async
            &&& sig.doc_lines == doc_lines
            &&& sig.parameters@.len() == declared@.len()
            &&& forall|i: int|
                0 <= i < declared@.len() ==> spec_extracted(
                    declared@[i],
                    #[trigger] sig.parameters@[i],
                )
        },
        r is Ok <==> forall|i: int|
            0 <= i < declared@.len() ==> !pattern_unsupported(#[trigger] declared@[i])
                && !crate::param::override_contradicts(declared@[i]),
        r matches Err(e) ==> exists|i: int|
            0 <= i < declared@.len() && (forall|j: int|
                0 <= j < i ==> !pattern_unsupported(#[trigger] declared@[j])
                    && !crate::param::override_contradicts(declared@[j]))
                && #[trigger] extraction_error_for(declared@[i], i, e),
{
    let mut parameters: Vec<ParameterSpec> = Vec::new();
    let mut i: usize = 0;
    while i < declared.len()
        invariant
            i <= declared@.len(),
            parameters@.len() == i,
            forall|j: int|
                0 <= j < i ==> spec_extracted(declared@[j], #[trigger] parameters@[j]),
            forall|j: int|
                0 <= j < i ==> !pattern_unsupported(#[trigger] declared@[j])
                    && !crate::param::override_contradicts(declared@[j]),
        decreases declared@.len() - i,
    {
        match extract_parameter(&declared[i], i) {
            Ok(p) => {
                parameters.push(p);
            },
            Err(e) => {
                proof {
                    assert(extraction_error_for(declared@[i as int], i as int, e));
                }
                return Err(e);
            },
        }
        i = i + 1;
    }
    Ok(FunctionSignature { entry_name, parameters, declared_async, doc_lines })
}

} // verus!
