//! A signature-to-CLI binding engine.
//!
//! A developer registers an ordinary typed entry point — an ordered list of
//! parameter descriptors plus a little metadata — and obtains a command-line
//! interface for it: an argument schema, flag parsing with validated type
//! conversion, an execution-mode policy, and a shell-completion path.

use vstd::prelude::*;

pub mod completion;
pub mod convert;
pub mod dispatch;
pub mod errors;
pub mod laws;
pub mod numbers;
pub mod param;
pub mod parse;
pub mod policy;
pub mod schema;

use crate::errors::BuildError;
use crate::param::ParameterSpec;
use crate::schema::{
    CliSchema, FunctionSignature, PackageMetadata, build_schema, field_corresponds, flag_usable,
    flags_unique, names_unique, params_usable, schema_wellformed, spec_flag_of, spec_join_lines,
    spec_shell_flag,
};

verus! {

/// How the wrapped body will be executed: directly on the calling thread, or
/// as the sole top-level task of a cooperative task runtime.
#[derive(Clone, Copy, Debug, PartialEq, Eq, Structural)]
pub enum ExecutionMode {
    Sync,
    CooperativeTask,
}

/// A fully registered program: the schema derived from the signature, the
/// execution mode the policy chose, and whether a synchronous body was
/// implicitly promoted (to be surfaced as a warning).
#[derive(Debug)]
pub struct BoundProgram {
    pub schema: CliSchema,
    pub mode: ExecutionMode,
    pub implicit_promotion: bool,
}

/// The reserved entry-point name.
pub open spec fn main_name() -> Seq<char> {
    seq!['m', 'a', 'i', 'n']
}

/// The outcome is the wrong-entry-name error, carrying the actual name.
pub open spec fn wrong_name_outcome(
    sig: FunctionSignature,
    r: Result<BoundProgram, BuildError>,
) -> bool {
    r matches Err(BuildError::WrongEntryName { actual }) && actual@ == sig.entry_name@
}

/// The outcome is the malformed-flag error, carrying one offending name
/// or flag.
pub open spec fn malformed_flag_outcome(
    sig: FunctionSignature,
    r: Result<BoundProgram, BuildError>,
) -> bool {
    r matches Err(BuildError::MalformedFlag { flag }) && exists|i: int|
        0 <= i < sig.parameters@.len() && ((flag@ == sig.parameters@[i].name@ && !flag_usable(
            sig.parameters@[i].name@,
        )) || (flag@ == spec_flag_of(sig.parameters@[i]) && !flag_usable(
            spec_flag_of(sig.parameters@[i]),
        )))
}

/// The outcome is the duplicate-name error, carrying one duplicated name.
pub open spec fn dup_name_outcome(
    sig: FunctionSignature,
    r: Result<BoundProgram, BuildError>,
) -> bool {
    r matches Err(BuildError::DuplicateParameterName { name }) && exists|a: int, b: int|
        0 <= a < b < sig.parameters@.len() && sig.parameters@[a].name@ == sig.parameters@[b].name@
            && sig.parameters@[b].name@ == name@
}

/// The outcome is the duplicate-flag error, carrying one duplicated flag.
pub open spec fn dup_flag_outcome(
    sig: FunctionSignature,
    r: Result<BoundProgram, BuildError>,
) -> bool {
    r matches Err(BuildError::DuplicateFlagName { flag }) && exists|a: int, b: int|
        0 <= a < b < sig.parameters@.len() && spec_flag_of(sig.parameters@[a]) == spec_flag_of(
            sig.parameters@[b],
        ) && spec_flag_of(sig.parameters@[b]) == flag@
}

/// The outcome is a bound program of the promised shape.
pub open spec fn ok_outcome(
    sig: FunctionSignature,
    metadata: PackageMetadata,
    concurrency_requested: bool,
    p: BoundProgram,
) -> bool {
    &&& p.mode == (if concurrency_requested {
        ExecutionMode::CooperativeTask
    } else {
        ExecutionMode::Sync
    })
    &&& p.implicit_promotion == (!sig.declared_async && concurrency_requested)
    &&& p.schema.primary.fields@.len() == sig.parameters@.len()
    &&& forall|i: int|
        0 <= i < sig.parameters@.len() ==> field_corresponds(
            sig.parameters@[i],
            #[trigger] p.schema.primary.fields@[i],
        )
    &&& sig.doc_lines@.len() == 0 ==> p.schema.primary.about is None
    &&& sig.doc_lines@.len() > 0 ==> crate::param::opt_view(p.schema.primary.about) == Some(
        spec_join_lines(sig.doc_lines.deep_view(), sig.doc_lines@.len() as int),
    )
    &&& p.schema.completion.shell_flag@ == spec_shell_flag()
    &&& p.schema.metadata.name@ == metadata.name@
    &&& p.schema.metadata.version@ == metadata.version@
    &&& p.schema.metadata.author@ == metadata.author@
    &&& schema_wellformed(p.schema)
}

/// Everything registration promises of its outcome: each failure if and
/// only if its cause, in check order, and on success the whole shape of the
/// bound program.
pub open spec fn bind_post(
    sig: FunctionSignature,
    metadata: PackageMetadata,
    concurrency_requested: bool,
    r: Result<BoundProgram, BuildError>,
) -> bool {
    let mismatch = sig.declared_async && !concurrency_requested;
    let wrong_name = sig.entry_name@ != main_name();
    let bad_shapes = !params_usable(sig.parameters@);
    let dup_names = !names_unique(sig.parameters@);
    let dup_flags = !flags_unique(sig.parameters@);
    &&& (r is Err <==> mismatch || wrong_name || bad_shapes || dup_names || dup_flags)
    &&& mismatch ==> (r matches Err(BuildError::AsyncWithoutConcurrency))
    &&& !mismatch && wrong_name ==> wrong_name_outcome(sig, r)
    &&& !mismatch && !wrong_name && bad_shapes ==> malformed_flag_outcome(sig, r)
    &&& !mismatch && !wrong_name && !bad_shapes && dup_names ==> dup_name_outcome(sig, r)
    &&& !mismatch && !wrong_name && !bad_shapes && !dup_names && dup_flags ==> dup_flag_outcome(
        sig,
        r,
    )
    &&& r matches Ok(p) ==> ok_outcome(sig, metadata, concurrency_requested, p)
}

/// The flag a descriptor's field will answer to.
fn flag_of(p: &ParameterSpec) -> (r: String)
    ensures
        r@ == spec_flag_of(*p),
{
    match &p.flag_override {
        Some(f) => f.clone(),
        None => p.name.clone(),
    }
}

/// Whether a name can serve as a flag.
fn flag_usable_exec(s: &String) -> (b: bool)
    ensures
        b == flag_usable(s@),
{
    proof {
        reveal_strlit("help");
        reveal_strlit("version");
        assert("help"@ =~= crate::schema::help_flag_name());
        assert("version"@ =~= crate::schema::version_flag_name());
    }
    let st = s.as_str();
    let len = st.unicode_len();
    if len == 0 {
        return false;
    }
    let c0 = st.get_char(0);
    if c0 as u32 == 45 {
        return false;
    }
    if *s == String::from_str("help") {
        return false;
    }
    if *s == String::from_str("version") {
        return false;
    }
    true
}

/// Registers a signature: evaluates the execution-mode policy, checks the
/// reserved entry-point name, the shape and uniqueness of names and flags,
/// and derives the schema. Nothing is partially constructed: the first
/// failing check aborts registration with its structured error.
pub fn bind_signature(
    sig: &FunctionSignature,
    metadata: PackageMetadata,
    concurrency_requested: bool,
) -> (r: Result<BoundProgram, BuildError>)
    ensures
        bind_post(*sig, metadata, concurrency_requested, r),
{
    let outcome = match crate::policy::validate_execution_policy(
        sig.declared_async,
        concurrency_requested,
    ) {
        Ok(o) => o,
        Err(e) => {
            return Err(e);
        },
    };
    proof {
        reveal_strlit("main");
        assert("main"@ =~= main_name());
    }
    if !(sig.entry_name == String::from_str("main")) {
        return Err(BuildError::WrongEntryName { actual: sig.entry_name.clone() });
    }
    let n = sig.parameters.len();
    let mut k: usize = 0;
    while k < n
        invariant
            k <= n == sig.parameters@.len(),
            !(sig.declared_async && !concurrency_requested),
            sig.entry_name@ == main_name(),
            forall|a: int|
                0 <= a < k ==> flag_usable((#[trigger] sig.parameters@[a]).name@) && flag_usable(
                    spec_flag_of(sig.parameters@[a]),
                ),
        decreases n - k,
    {
        if !flag_usable_exec(&sig.parameters[k].name) {
            proof {
                assert(!flag_usable(sig.parameters@[k as int].name@));
                assert(!params_usable(sig.parameters@));
            }
            return Err(BuildError::MalformedFlag { flag: sig.parameters[k].name.clone() });
        }
        let fk = flag_of(&sig.parameters[k]);
        if !flag_usable_exec(&fk) {
            proof {
                assert(!flag_usable(spec_flag_of(sig.parameters@[k as int])));
                assert(!params_usable(sig.parameters@));
            }
            return Err(BuildError::MalformedFlag { flag: fk });
        }
        k = k + 1;
    }
    let mut i: usize = 1;
    while i < n
        invariant
            1 <= i,
            n == sig.parameters@.len(),
            !(sig.declared_async && !concurrency_requested),
            sig.entry_name@ == main_name(),
            params_usable(sig.parameters@),
            forall|a: int, b: int|
                0 <= a < b < i ==> sig.parameters@[a].name@ != sig.parameters@[b].name@,
        decreases n - i,
    {
        let mut j: usize = 0;
        while j < i
            invariant
                j <= i < n == sig.parameters@.len(),
                !(sig.declared_async && !concurrency_requested),
                sig.entry_name@ == main_name(),
                params_usable(sig.parameters@),
                forall|a: int| 0 <= a < j ==> sig.parameters@[a].name@ != sig.parameters@[i as int].name@,
            decreases i - j,
        {
            if sig.parameters[j].name == sig.parameters[i].name {
                proof {
                    let ps = sig.parameters@;
                    assert(ps[j as int].name@ == ps[i as int].name@);
                    assert(exists|a: int, b: int|
                        0 <= a < b < ps.len() && ps[a].name@ == ps[b].name@ && ps[b].name@ == ps[
                            i as int
                        ].name@) by {
                        assert(0 <= (j as int) && (j as int) < (i as int) && (i as int) < ps.len());
                        assert(ps[j as int].name@ == ps[i as int].name@);
                    }
                    assert(!names_unique(ps));
                }
                return Err(
                    BuildError::DuplicateParameterName { name: sig.parameters[i].name.clone() },
                );
            }
            j = j + 1;
        }
        i = i + 1;
    }
    let mut i2: usize = 1;
    while i2 < n
        invariant
            1 <= i2,
            n == sig.parameters@.len(),
            !(sig.declared_async && !concurrency_requested),
            sig.entry_name@ == main_name(),
            params_usable(sig.parameters@),
            names_unique(sig.parameters@),
            forall|a: int, b: int|
                0 <= a < b < i2 ==> spec_flag_of(sig.parameters@[a]) != spec_flag_of(
                    sig.parameters@[b],
                ),
        decreases n - i2,
    {
        let fi = flag_of(&sig.parameters[i2]);
        let mut j2: usize = 0;
        while j2 < i2
            invariant
                j2 <= i2 < n == sig.parameters@.len(),
                !(sig.declared_async && !concurrency_requested),
                sig.entry_name@ == main_name(),
                params_usable(sig.parameters@),
                names_unique(sig.parameters@),
                fi@ == spec_flag_of(sig.parameters@[i2 as int]),
                forall|a: int|
                    0 <= a < j2 ==> spec_flag_of(sig.parameters@[a]) != spec_flag_of(
                        sig.parameters@[i2 as int],
                    ),
            decreases i2 - j2,
        {
            let fj = flag_of(&sig.parameters[j2]);
            if fj == fi {
                proof {
                    let ps = sig.parameters@;
                    assert(spec_flag_of(ps[j2 as int]) == spec_flag_of(ps[i2 as int]));
                    assert(exists|a: int, b: int|
                        0 <= a < b < ps.len() && spec_flag_of(ps[a]) == spec_flag_of(ps[b])
                            && spec_flag_of(ps[b]) == fi@) by {
                        assert(0 <= (j2 as int) && (j2 as int) < (i2 as int) && (i2 as int) < ps.len());
                        assert(spec_flag_of(ps[j2 as int]) == spec_flag_of(ps[i2 as int]));
                        assert(spec_flag_of(ps[i2 as int]) == fi@);
                    }
                    assert(!flags_unique(ps));
                }
                return Err(BuildError::DuplicateFlagName { flag: fi });
            }
            j2 = j2 + 1;
        }
        i2 = i2 + 1;
    }
    let schema = build_schema(sig, metadata);
    Ok(
        BoundProgram {
            schema,
            mode: outcome.mode,
            implicit_promotion: outcome.implicit_promotion,
        },
    )
}

/// Registers a body that is not declared asynchronous; concurrency may
/// still be requested explicitly, which promotes the body to the
/// cooperative task runtime.
pub fn oscript_main(
    sig: &FunctionSignature,
    metadata: PackageMetadata,
    request_concurrency: bool,
) -> (r: Result<BoundProgram, BuildError>)
    ensures
        bind_post(*sig, metadata, request_concurrency, r),
{
    bind_signature(sig, metadata, request_concurrency)
}

/// Registers a body under requested concurrency: the form a declared
/// asynchronous body must use.
pub fn oscript_async_main(sig: &FunctionSignature, metadata: PackageMetadata) -> (r: Result<
    BoundProgram,
    BuildError,
>)
    ensures
        bind_post(*sig, metadata, true, r),
{
    bind_signature(sig, metadata, true)
}

} // verus!
