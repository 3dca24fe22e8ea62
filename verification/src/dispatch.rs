//! The dispatch harness.
//!
//! One invocation runs through a fixed sequence: parse the argument vector
//! against the schema, then branch — the help and version surfaces render
//! their text and stop; the completion operation renders its script and
//! never reaches the primary body; the primary operation converts every
//! field back to its declared form and hands the bindings to the caller
//! together with the execution mode chosen at registration time. Every
//! failure is terminal for the invocation.

use vstd::prelude::*;
use crate::BoundProgram;
use crate::ExecutionMode;
use crate::completion::{
    help_of, is_supported_shell, render_completion, render_help_text, script_of, spec_root_command,
    spec_shell,
};
use crate::convert::{BoundValue, bounds_view, convert_arguments, spec_convert};
use crate::errors::{ParseErrorModel, model_message};
use crate::parse::{InvocationModel, ParsedInvocation, parse_arguments, spec_parse};
use crate::schema::CliSchema;

verus! {

/// What one invocation asks the surrounding process to do.
#[derive(Debug)]
pub enum HarnessAction {
    /// Run the wrapped body with these bindings, under this mode, and
    /// reflect the body's own termination.
    RunPrimary { bindings: Vec<BoundValue>, mode: ExecutionMode },
    /// Write this non-empty script to standard output and terminate
    /// successfully, without running the body.
    EmitCompletion { script: Vec<u8> },
    /// Write this help text to standard output and terminate successfully.
    EmitHelp { text: Vec<u8> },
    /// Write this version line to standard output and terminate
    /// successfully.
    EmitVersion { text: String },
    /// Report this diagnostic on standard error and terminate with a
    /// nonzero status, producing no other output.
    Fatal { message: String },
}

/// The version surface's one line: the package name, a space, the version.
pub open spec fn spec_version_line(schema: CliSchema) -> Seq<char> {
    schema.metadata.name@ + seq![' '] + schema.metadata.version@ + seq!['\n']
}

/// The action emits the completion script for this schema and shell: the
/// generator's bytes for the one command description the schema derives,
/// never empty.
pub open spec fn emits_script(r: HarnessAction, schema: CliSchema, sh: Seq<char>) -> bool {
    r matches HarnessAction::EmitCompletion { script } && script@ == script_of(
        spec_shell(sh),
        spec_root_command(schema),
        schema.metadata.name@,
    ) && script@.len() > 0
}

/// The action emits the help text of the schema's command description.
pub open spec fn emits_help(r: HarnessAction, schema: CliSchema) -> bool {
    r matches HarnessAction::EmitHelp { text } && text@ == help_of(spec_root_command(schema))
}

/// The action emits the version line.
pub open spec fn emits_version(r: HarnessAction, schema: CliSchema) -> bool {
    r matches HarnessAction::EmitVersion { text } && text@ == spec_version_line(schema)
}

/// The action is fatal with exactly this diagnostic, and carries no output.
pub open spec fn fatal_with(r: HarnessAction, msg: Seq<char>) -> bool {
    r matches HarnessAction::Fatal { message } && message@ == msg
}

/// The action runs the body under the registered mode, with one binding
/// per schema field, each the conversion of its parsed value.
pub open spec fn runs_primary(
    r: HarnessAction,
    program: BoundProgram,
    vals: Seq<crate::parse::ValueModel>,
) -> bool {
    r matches HarnessAction::RunPrimary { bindings, mode } && mode == program.mode
        && bindings@.len() == program.schema.primary.fields@.len() && forall|j: int|
        0 <= j < bindings@.len() ==> bounds_view(bindings@)[j] == spec_convert(
            program.schema.primary.fields@[j].kind@,
            vals[j],
        )
}

/// Builds the version surface's line.
fn version_line(schema: &CliSchema) -> (r: String)
    ensures
        r@ == spec_version_line(*schema),
{
    proof {
        reveal_strlit(" ");
        reveal_strlit("\n");
        assert(" "@ =~= seq![' ']);
        assert("\n"@ =~= seq!['\n']);
    }
    let mut line = schema.metadata.name.clone();
    line.append(" ");
    line.append(schema.metadata.version.as_str());
    line.append("\n");
    line
}

/// Decides one invocation of a bound program.
///
/// A parse failure is fatal with that error's diagnostic. A help or
/// version request yields its surface's text and stops. A completion
/// request with a supported shell yields the schema's non-empty script and
/// never the primary branch; with an unsupported shell it is fatal and
/// yields no output. A primary request yields one binding per schema
/// field, each the conversion of its parsed value, under the registered
/// execution mode.
pub fn dispatch_invocation(program: &BoundProgram, argv: &Vec<String>) -> (r: HarnessAction)
    requires
        crate::schema::schema_wellformed(program.schema),
    ensures
        spec_parse(program.schema, argv.deep_view()) matches Err(e) ==> fatal_with(
            r,
            model_message(e),
        ),
        spec_parse(program.schema, argv.deep_view()) == Ok::<InvocationModel, ParseErrorModel>(
            InvocationModel::HelpM,
        ) ==> emits_help(r, program.schema),
        spec_parse(program.schema, argv.deep_view()) == Ok::<InvocationModel, ParseErrorModel>(
            InvocationModel::VersionM,
        ) ==> emits_version(r, program.schema),
        spec_parse(program.schema, argv.deep_view()) matches Ok(InvocationModel::CompletionM(sh))
            ==> (if is_supported_shell(sh) {
            emits_script(r, program.schema, sh)
        } else {
            fatal_with(r, model_message(ParseErrorModel::UnsupportedShellM { name: sh }))
        }),
        spec_parse(program.schema, argv.deep_view()) matches Ok(InvocationModel::PrimaryM(vals))
            ==> runs_primary(r, *program, vals),
{
    match parse_arguments(&program.schema, argv) {
        Err(e) => HarnessAction::Fatal { message: e.message() },
        Ok(ParsedInvocation::HelpRequested) => HarnessAction::EmitHelp {
            text: render_help_text(&program.schema),
        },
        Ok(ParsedInvocation::VersionRequested) => HarnessAction::EmitVersion {
            text: version_line(&program.schema),
        },
        Ok(ParsedInvocation::Completion { shell }) => {
            match render_completion(&program.schema, &shell) {
                Ok(script) => HarnessAction::EmitCompletion { script },
                Err(e) => HarnessAction::Fatal { message: e.message() },
            }
        },
        Ok(ParsedInvocation::Primary(args)) => {
            let bindings = convert_arguments(&program.schema.primary.fields, &args);
            HarnessAction::RunPrimary { bindings, mode: program.mode }
        },
    }
}

} // verus!
