//! The completion and help subsystem.
//!
//! The shell name is validated against the fixed supported set before any
//! external call; for a supported shell the completion script for the full
//! schema is rendered and handed back, without ever running the primary
//! body. The same outside command description also renders the help text.
//!
//! The outside command and argument builders are opaque; a family of
//! uninterpreted model functions names what each builder call returns and
//! what a built value holds (its argument ids, its long flags, its
//! subcommand names), so that the rendered bytes are pinned, in every
//! contract, to the one command description the schema derives.

use vstd::prelude::*;
use crate::errors::ParseError;
use crate::parse::{completion_token, run_token, spec_is_bool_flag};
use crate::schema::{CliSchema, PrimaryOperation, SchemaField, flag_usable, schema_wellformed};
use crate::param::opt_view;

verus! {

/// A shell of the supported set.
#[derive(Clone, Copy, Debug, PartialEq, Eq, Structural)]
pub enum ShellKind {
    Bash,
    Elvish,
    Fish,
    PowerShell,
    Zsh,
}

/// The name token of each supported shell.
pub open spec fn shell_token(k: ShellKind) -> Seq<char> {
    match k {
        ShellKind::Bash => seq!['b', 'a', 's', 'h'],
        ShellKind::Elvish => seq!['e', 'l', 'v', 'i', 's', 'h'],
        ShellKind::Fish => seq!['f', 'i', 's', 'h'],
        ShellKind::PowerShell => seq!['p', 'o', 'w', 'e', 'r', 's', 'h', 'e', 'l', 'l'],
        ShellKind::Zsh => seq!['z', 's', 'h'],
    }
}

/// Whether a name is in the supported shell set.
pub open spec fn is_supported_shell(name: Seq<char>) -> bool {
    exists|k: ShellKind| shell_token(k) == name
}

/// Resolves a shell name against the supported set, case-sensitively.
pub fn shell_of_name(name: &String) -> (r: Option<ShellKind>)
    ensures
        match r {
            Some(k) => shell_token(k) == name@,
            None => !is_supported_shell(name@),
        },
{
    proof {
        reveal_strlit("bash");
        reveal_strlit("elvish");
        reveal_strlit("fish");
        reveal_strlit("powershell");
        reveal_strlit("zsh");
        assert("bash"@ =~= shell_token(ShellKind::Bash));
        assert("elvish"@ =~= shell_token(ShellKind::Elvish));
        assert("fish"@ =~= shell_token(ShellKind::Fish));
        assert("powershell"@ =~= shell_token(ShellKind::PowerShell));
        assert("zsh"@ =~= shell_token(ShellKind::Zsh));
    }
    if *name == String::from_str("bash") {
        Some(ShellKind::Bash)
    } else if *name == String::from_str("elvish") {
        Some(ShellKind::Elvish)
    } else if *name == String::from_str("fish") {
        Some(ShellKind::Fish)
    } else if *name == String::from_str("powershell") {
        Some(ShellKind::PowerShell)
    } else if *name == String::from_str("zsh") {
        Some(ShellKind::Zsh)
    } else {
        proof {
            assert forall|k: ShellKind| shell_token(k) != name@ by {
                match k {
                    ShellKind::Bash => assert(shell_token(k) != name@),
                    ShellKind::Elvish => assert(shell_token(k) != name@),
                    ShellKind::Fish => assert(shell_token(k) != name@),
                    ShellKind::PowerShell => assert(shell_token(k) != name@),
                    ShellKind::Zsh => assert(shell_token(k) != name@),
                }
            }
        }
        None
    }
}

/// The declaration of the outside command-builder type.
#[verifier::external_type_specification]
#[verifier::external_body]
pub struct ExCommand(clap::Command);

/// The declaration of the outside argument-builder type.
#[verifier::external_type_specification]
#[verifier::external_body]
pub struct ExArg(clap::Arg);

/// The declaration of the outside shell selector type.
#[verifier::external_type_specification]
#[verifier::external_body]
pub struct ExShell(clap_complete::Shell);

/// The id an argument description carries.
pub uninterp spec fn arg_id_of(a: clap::Arg) -> Seq<char>;

/// The long flag an argument description carries, if one is set.
pub uninterp spec fn arg_long_of(a: clap::Arg) -> Option<Seq<char>>;

/// Whether an argument description carries the presence-flag action.
pub uninterp spec fn arg_flaglike_of(a: clap::Arg) -> bool;

/// Whether an argument description carries a possible-values parser.
pub uninterp spec fn arg_choiced_of(a: clap::Arg) -> bool;

/// The name a command description carries.
pub uninterp spec fn cmd_name_of(c: clap::Command) -> Seq<char>;

/// The ids of a command description's own arguments, in insertion order.
pub uninterp spec fn ids_of(c: clap::Command) -> Seq<Seq<char>>;

/// The long flags of a command description's own arguments, in insertion
/// order.
pub uninterp spec fn longs_of(c: clap::Command) -> Seq<Seq<char>>;

/// The names of a command description's subcommands, in insertion order.
pub uninterp spec fn subs_of(c: clap::Command) -> Seq<Seq<char>>;

/// Whether the outside builder's own build-time validation passes for this
/// command description and every subcommand below it.
pub uninterp spec fn buildable(c: clap::Command) -> bool;

/// What clap::Command::new returns for a name.
pub uninterp spec fn spec_command_new(name: Seq<char>) -> clap::Command;

/// What clap::Command::about returns for a command and a text.
pub uninterp spec fn spec_command_about(c: clap::Command, text: Seq<char>) -> clap::Command;

/// What clap::Command::version returns for a command and a text.
pub uninterp spec fn spec_command_version(c: clap::Command, text: Seq<char>) -> clap::Command;

/// What clap::Command::author returns for a command and a text.
pub uninterp spec fn spec_command_author(c: clap::Command, text: Seq<char>) -> clap::Command;

/// What clap::Command::arg returns for a command and an argument.
pub uninterp spec fn spec_command_arg(c: clap::Command, a: clap::Arg) -> clap::Command;

/// What clap::Command::subcommand returns for a command and a subcommand.
pub uninterp spec fn spec_command_subcommand(c: clap::Command, s: clap::Command) -> clap::Command;

/// What clap::Arg::new returns for an id.
pub uninterp spec fn spec_arg_new(id: Seq<char>) -> clap::Arg;

/// What clap::Arg::long returns for an argument and a flag name.
pub uninterp spec fn spec_arg_long(a: clap::Arg, flag: Seq<char>) -> clap::Arg;

/// What clap::Arg::help returns for an argument and a help text.
pub uninterp spec fn spec_arg_help(a: clap::Arg, text: Seq<char>) -> clap::Arg;

/// What clap::Arg::required returns for an argument and a choice.
pub uninterp spec fn spec_arg_required(a: clap::Arg, yes: bool) -> clap::Arg;

/// What clap::Arg::action returns for an argument made a presence flag.
pub uninterp spec fn spec_arg_flag(a: clap::Arg) -> clap::Arg;

/// What clap::Arg::value_parser returns for an argument restricted to a
/// fixed set of choice tokens.
pub uninterp spec fn spec_arg_choices(a: clap::Arg, tokens: Seq<Seq<char>>) -> clap::Arg;

/// What clap_complete::Shell's FromStr returns for a supported name.
pub uninterp spec fn spec_shell(name: Seq<char>) -> clap_complete::Shell;

/// What clap_complete::generate writes for a shell, a command description
/// and a binary name.
pub uninterp spec fn script_of(shell: clap_complete::Shell, c: clap::Command, bin: Seq<char>) -> Seq<
    u8,
>;

/// What clap::Command::render_help returns for a command description.
pub uninterp spec fn help_of(c: clap::Command) -> Seq<u8>;

/// Relies on clap::Command::new: builds an empty command under the given
/// name, with no arguments and no subcommands, which the outside build-time
/// validation accepts.
#[verifier::external_body]
fn command_new(name: &String) -> (r: clap::Command)
    ensures
        r == spec_command_new(name@),
        cmd_name_of(r) == name@,
        ids_of(r) == Seq::<Seq<char>>::empty(),
        longs_of(r) == Seq::<Seq<char>>::empty(),
        subs_of(r) == Seq::<Seq<char>>::empty(),
        buildable(r),
{
    clap::Command::new(name.clone())
}

/// Relies on clap::Command::about: attaches the about text and changes
/// nothing else the model tracks.
#[verifier::external_body]
fn command_about(cmd: clap::Command, about: &String) -> (r: clap::Command)
    ensures
        r == spec_command_about(cmd, about@),
        cmd_name_of(r) == cmd_name_of(cmd),
        ids_of(r) == ids_of(cmd),
        longs_of(r) == longs_of(cmd),
        subs_of(r) == subs_of(cmd),
        buildable(r) == buildable(cmd),
{
    cmd.about(about.clone())
}

/// Relies on clap::Command::version: attaches the version text and changes
/// nothing else the model tracks.
#[verifier::external_body]
fn command_version(cmd: clap::Command, version: &String) -> (r: clap::Command)
    ensures
        r == spec_command_version(cmd, version@),
        cmd_name_of(r) == cmd_name_of(cmd),
        ids_of(r) == ids_of(cmd),
        longs_of(r) == longs_of(cmd),
        subs_of(r) == subs_of(cmd),
        buildable(r) == buildable(cmd),
{
    cmd.version(version.clone())
}

/// Relies on clap::Command::author: attaches the author text and changes
/// nothing else the model tracks.
#[verifier::external_body]
fn command_author(cmd: clap::Command, author: &String) -> (r: clap::Command)
    ensures
        r == spec_command_author(cmd, author@),
        cmd_name_of(r) == cmd_name_of(cmd),
        ids_of(r) == ids_of(cmd),
        longs_of(r) == longs_of(cmd),
        subs_of(r) == subs_of(cmd),
        buildable(r) == buildable(cmd),
{
    cmd.author(author.clone())
}

/// Relies on clap::Command::arg: appends one argument description. The
/// argument must carry a usable long flag and an id and long that are both
/// fresh for this command, which is what the outside build-time checks ask
/// of it; `help` and `version` stay reserved for the generated surfaces.
/// Arguments from this module's builders carry no short flags or aliases,
/// so id and long freshness are the only conflict conditions; a presence
/// flag combined with a choice set would fail the outside checks and is
/// excluded.
#[verifier::external_body]
fn command_arg(cmd: clap::Command, a: clap::Arg) -> (r: clap::Command)
    requires
        !(arg_flaglike_of(a) && arg_choiced_of(a)),
        arg_long_of(a) is Some,
        flag_usable(arg_long_of(a).unwrap()),
        flag_usable(arg_id_of(a)),
        !ids_of(cmd).contains(arg_id_of(a)),
        !longs_of(cmd).contains(arg_long_of(a).unwrap()),
    ensures
        r == spec_command_arg(cmd, a),
        cmd_name_of(r) == cmd_name_of(cmd),
        ids_of(r) == ids_of(cmd).push(arg_id_of(a)),
        longs_of(r) == longs_of(cmd).push(arg_long_of(a).unwrap()),
        subs_of(r) == subs_of(cmd),
        buildable(r) == buildable(cmd),
{
    cmd.arg(a)
}

/// Relies on clap::Command::subcommand: appends one subcommand whose name
/// is fresh for this command and is not `help`, which the outside builder
/// claims for its own generated subcommand as soon as any subcommand
/// exists. Commands from this module's builders carry no subcommand-level
/// flags or aliases, so these are the only cross-command conditions the
/// outside build-time checks ask of them.
#[verifier::external_body]
fn command_subcommand(cmd: clap::Command, sub: clap::Command) -> (r: clap::Command)
    requires
        !subs_of(cmd).contains(cmd_name_of(sub)),
        cmd_name_of(sub) != crate::schema::help_flag_name(),
    ensures
        r == spec_command_subcommand(cmd, sub),
        cmd_name_of(r) == cmd_name_of(cmd),
        ids_of(r) == ids_of(cmd),
        longs_of(r) == longs_of(cmd),
        subs_of(r) == subs_of(cmd).push(cmd_name_of(sub)),
        buildable(r) == (buildable(cmd) && buildable(sub)),
{
    cmd.subcommand(sub)
}

/// Relies on clap::Arg::new: begins an argument description under an id,
/// with no long flag yet.
#[verifier::external_body]
fn arg_new(id: &String) -> (r: clap::Arg)
    ensures
        r == spec_arg_new(id@),
        arg_id_of(r) == id@,
        arg_long_of(r) is None,
        !arg_flaglike_of(r),
        !arg_choiced_of(r),
{
    clap::Arg::new(id.clone())
}

/// Relies on clap::Arg::long: sets the long flag name.
#[verifier::external_body]
fn arg_long(a: clap::Arg, flag: &String) -> (r: clap::Arg)
    ensures
        r == spec_arg_long(a, flag@),
        arg_id_of(r) == arg_id_of(a),
        arg_long_of(r) == Some(flag@),
        arg_flaglike_of(r) == arg_flaglike_of(a),
        arg_choiced_of(r) == arg_choiced_of(a),
{
    a.long(flag.clone())
}

/// Relies on clap::Arg::help: sets the help text.
#[verifier::external_body]
fn arg_help(a: clap::Arg, help: &String) -> (r: clap::Arg)
    ensures
        r == spec_arg_help(a, help@),
        arg_id_of(r) == arg_id_of(a),
        arg_long_of(r) == arg_long_of(a),
        arg_flaglike_of(r) == arg_flaglike_of(a),
        arg_choiced_of(r) == arg_choiced_of(a),
{
    a.help(help.clone())
}

/// Relies on clap::Arg::required: marks the argument required or not.
#[verifier::external_body]
fn arg_required(a: clap::Arg, yes: bool) -> (r: clap::Arg)
    ensures
        r == spec_arg_required(a, yes),
        arg_id_of(r) == arg_id_of(a),
        arg_long_of(r) == arg_long_of(a),
        arg_flaglike_of(r) == arg_flaglike_of(a),
        arg_choiced_of(r) == arg_choiced_of(a),
{
    a.required(yes)
}

/// Relies on clap::Arg::action: makes the argument a plain presence flag,
/// which must not already carry a choice set.
#[verifier::external_body]
fn arg_flag_action(a: clap::Arg) -> (r: clap::Arg)
    requires
        !arg_choiced_of(a),
    ensures
        r == spec_arg_flag(a),
        arg_id_of(r) == arg_id_of(a),
        arg_long_of(r) == arg_long_of(a),
        arg_flaglike_of(r),
        !arg_choiced_of(r),
{
    a.action(clap::ArgAction::SetTrue)
}

/// Relies on clap::Arg::value_parser with the outside crate's
/// possible-values parser: restricts the argument to the given choice
/// tokens, verbatim; the argument must not be a presence flag.
#[verifier::external_body]
fn arg_choices(a: clap::Arg, tokens: &Vec<String>) -> (r: clap::Arg)
    requires
        !arg_flaglike_of(a),
    ensures
        r == spec_arg_choices(a, tokens.deep_view()),
        arg_id_of(r) == arg_id_of(a),
        arg_long_of(r) == arg_long_of(a),
        !arg_flaglike_of(r),
        arg_choiced_of(r),
{
    a.value_parser(clap::builder::PossibleValuesParser::new(tokens.clone()))
}

/// Relies on clap_complete::Shell's FromStr, whose accepted names are
/// exactly the five supported shell names, case-sensitively, and which is
/// deterministic in the name.
#[verifier::external_body]
fn shell_selector(name: &String) -> (r: Option<clap_complete::Shell>)
    ensures
        r is Some <==> is_supported_shell(name@),
        r matches Some(sh) ==> sh == spec_shell(name@),
{
    name.as_str().parse::<clap_complete::Shell>().ok()
}

/// Relies on clap_complete::generate: renders the completion script of the
/// command description for the given shell into a buffer, deterministically
/// in its three inputs. Every supported shell's generator starts from a
/// non-empty fixed template, so the script is never empty; the command must
/// pass the outside build-time validation.
#[verifier::external_body]
fn render_script(shell: clap_complete::Shell, cmd: clap::Command, bin_name: &String) -> (r: Vec<
    u8,
>)
    requires
        buildable(cmd),
    ensures
        r@ == script_of(shell, cmd, bin_name@),
        r@.len() > 0,
{
    let mut command = cmd;
    let mut buf: Vec<u8> = Vec::new();
    clap_complete::generate(shell, &mut command, bin_name.clone(), &mut buf);
    buf
}

/// Relies on clap::Command::render_help: renders the help text of the
/// command description, deterministically; the command must pass the
/// outside build-time validation.
#[verifier::external_body]
fn render_help(cmd: clap::Command) -> (r: Vec<u8>)
    requires
        buildable(cmd),
    ensures
        r@ == help_of(cmd),
{
    let mut command = cmd;
    let styled = command.render_help();
    styled.to_string().into_bytes()
}

/// The argument description one schema field derives.
pub open spec fn spec_field_arg(f: SchemaField) -> clap::Arg {
    let a = spec_arg_required(spec_arg_long(spec_arg_new(f.name@), f.flag@), f.required);
    let b = if spec_is_bool_flag(f) {
        spec_arg_flag(a)
    } else {
        a
    };
    let c = match f.kind@ {
        crate::param::KindModel::EnumeratedM(vs) => spec_arg_choices(b, vs),
        _ => b,
    };
    match opt_view(f.help) {
        Some(h) => spec_arg_help(c, h),
        None => c,
    }
}

/// The run command with the fields from `i` on appended.
pub open spec fn spec_args_added(c: clap::Command, fields: Seq<SchemaField>, i: int) -> clap::Command
    decreases fields.len() - i,
{
    if i < 0 || i >= fields.len() {
        c
    } else {
        spec_args_added(spec_command_arg(c, spec_field_arg(fields[i])), fields, i + 1)
    }
}

/// The command description of the primary operation.
pub open spec fn spec_run_command(p: PrimaryOperation) -> clap::Command {
    let base = match opt_view(p.about) {
        Some(t) => spec_command_about(spec_command_new(run_token()), t),
        None => spec_command_new(run_token()),
    };
    spec_args_added(base, p.fields@, 0)
}

/// The command description of the completion operation.
pub open spec fn spec_completion_command(shell_flag: Seq<char>) -> clap::Command {
    spec_command_arg(
        spec_command_new(completion_token()),
        spec_arg_required(spec_arg_long(spec_arg_new(shell_flag), shell_flag), true),
    )
}

/// The one command description a schema derives: the root carries the
/// package metadata, the completion operation and the primary operation.
pub open spec fn spec_root_command(s: CliSchema) -> clap::Command {
    spec_command_subcommand(
        spec_command_subcommand(
            spec_command_author(
                spec_command_version(spec_command_new(s.metadata.name@), s.metadata.version@),
                s.metadata.author@,
            ),
            spec_completion_command(s.completion.shell_flag@),
        ),
        spec_run_command(s.primary),
    )
}

/// Builds the outside command description of the full schema.
fn build_command(schema: &CliSchema) -> (r: clap::Command)
    requires
        schema_wellformed(*schema),
    ensures
        r == spec_root_command(*schema),
        buildable(r),
{
    proof {
        reveal_strlit("run");
        reveal_strlit("completion");
        reveal_strlit("shell");
        assert("run"@ =~= run_token());
        assert("completion"@ =~= completion_token());
        assert("shell"@ =~= crate::schema::spec_shell_flag());
    }
    let run_name = String::from_str("run");
    let mut run = command_new(&run_name);
    if let Some(about) = &schema.primary.about {
        run = command_about(run, about);
    }
    let fields = &schema.primary.fields;
    let ghost base = run;
    let mut i: usize = 0;
    while i < fields.len()
        invariant
            i <= fields@.len(),
            schema_wellformed(*schema),
            fields@ == schema.primary.fields@,
            spec_args_added(run, fields@, i as int) == spec_args_added(base, fields@, 0 as int),
            cmd_name_of(run) == run_token(),
            subs_of(run) == Seq::<Seq<char>>::empty(),
            buildable(run),
            ids_of(run) =~= fields@.take(i as int).map_values(|f: SchemaField| f.name@),
            longs_of(run) =~= fields@.take(i as int).map_values(|f: SchemaField| f.flag@),
        decreases fields@.len() - i,
    {
        let f = &fields[i];
        let mut a = arg_new(&f.name);
        a = arg_long(a, &f.flag);
        a = arg_required(a, f.required);
        let is_bool_flag = match &f.kind {
            crate::param::ParamKind::Scalar(t) => *t == crate::param::ScalarType::BoolTy,
            _ => false,
        };
        if is_bool_flag {
            a = arg_flag_action(a);
        }
        if let crate::param::ParamKind::Enumerated(vs) = &f.kind {
            a = arg_choices(a, vs);
        }
        if let Some(h) = &f.help {
            a = arg_help(a, h);
        }
        proof {
            assert(a == spec_field_arg(fields@[i as int]));
            assert(arg_id_of(a) == fields@[i as int].name@);
            assert(arg_long_of(a) == Some(fields@[i as int].flag@));
            let names = fields@.take(i as int).map_values(|g: SchemaField| g.name@);
            let flags = fields@.take(i as int).map_values(|g: SchemaField| g.flag@);
            assert forall|m: int| 0 <= m < names.len() implies names[m] != fields@[
                i as int
            ].name@ by {
                assert(fields@[m].name@ != fields@[i as int].name@);
            }
            assert(!names.contains(fields@[i as int].name@));
            assert forall|m: int| 0 <= m < flags.len() implies flags[m] != fields@[
                i as int
            ].flag@ by {
                assert(fields@[m].flag@ != fields@[i as int].flag@);
            }
            assert(!flags.contains(fields@[i as int].flag@));
        }
        let ghost before = run;
        run = command_arg(run, a);
        proof {
            assert(spec_args_added(before, fields@, i as int) == spec_args_added(
                run,
                fields@,
                i + 1,
            ));
            assert(fields@.take(i + 1).drop_last() =~= fields@.take(i as int));
            assert(ids_of(run) =~= fields@.take(i + 1).map_values(|f: SchemaField| f.name@));
            assert(longs_of(run) =~= fields@.take(i + 1).map_values(|f: SchemaField| f.flag@));
        }
        i = i + 1;
    }
    proof {
        assert(fields@.take(fields@.len() as int) =~= fields@);
        assert(spec_args_added(run, fields@, fields@.len() as int) == run);
        assert(run == spec_run_command(schema.primary));
    }
    proof {
        assert(crate::schema::spec_shell_flag().len() == 5);
        assert(crate::schema::help_flag_name().len() == 4);
        assert(crate::schema::version_flag_name().len() == 7);
        assert(flag_usable(crate::schema::spec_shell_flag()));
    }
    let completion_name = String::from_str("completion");
    let mut completion = command_new(&completion_name);
    let mut shell_arg = arg_new(&schema.completion.shell_flag);
    shell_arg = arg_long(shell_arg, &schema.completion.shell_flag);
    shell_arg = arg_required(shell_arg, true);
    completion = command_arg(completion, shell_arg);
    let root = command_new(&schema.metadata.name);
    let root = command_version(root, &schema.metadata.version);
    let root = command_author(root, &schema.metadata.author);
    proof {
        assert(completion_token().len() == 10);
        assert(run_token().len() == 3);
        assert(crate::schema::help_flag_name().len() == 4);
    }
    let root = command_subcommand(root, completion);
    proof {
        assert(run_token() != completion_token());
    }
    let root = command_subcommand(root, run);
    root
}

/// Renders the completion script for a shell name, validating the name
/// against the supported set before any external call is made.
///
/// Exactly the supported shell names succeed, and the bytes are the
/// generator's script for that shell and for the one command description
/// this schema derives — non-empty always; every other name fails with the
/// unsupported-shell error and produces no output.
pub fn render_completion(schema: &CliSchema, shell_name: &String) -> (r: Result<
    Vec<u8>,
    ParseError,
>)
    requires
        schema_wellformed(*schema),
    ensures
        r is Ok <==> is_supported_shell(shell_name@),
        r matches Ok(script) ==> script@ == script_of(
            spec_shell(shell_name@),
            spec_root_command(*schema),
            schema.metadata.name@,
        ) && script@.len() > 0,
        r matches Err(e) ==> e@ == (crate::errors::ParseErrorModel::UnsupportedShellM {
            name: shell_name@,
        }),
{
    let known = shell_of_name(shell_name);
    if known.is_none() {
        return Err(ParseError::UnsupportedShell { name: shell_name.clone() });
    }
    proof {
        assert(is_supported_shell(shell_name@));
    }
    match shell_selector(shell_name) {
        Some(shell) => {
            let cmd = build_command(schema);
            Ok(render_script(shell, cmd, &schema.metadata.name))
        },
        None => vstd::pervasive::unreached(),
    }
}

/// Renders the help text of the schema's command description.
pub fn render_help_text(schema: &CliSchema) -> (r: Vec<u8>)
    requires
        schema_wellformed(*schema),
    ensures
        r@ == help_of(spec_root_command(*schema)),
{
    let cmd = build_command(schema);
    render_help(cmd)
}

} // verus!
