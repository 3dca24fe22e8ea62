//! Structured errors of the binding engine.
//!
//! Registration-time (build-time) failures prevent a program from being
//! constructed at all; parse-time failures abort one invocation with a
//! usage-style diagnostic.

use vstd::prelude::*;

verus! {

/// A registration-time signature error: the program cannot be constructed.
#[derive(Debug)]
pub enum BuildError {
    /// The entry point was not named `main`.
    WrongEntryName { actual: String },
    /// A declared parameter does not use a plain identifier pattern.
    UnsupportedParameterForm { position: usize },
    /// Two parameters share one name.
    DuplicateParameterName { name: String },
    /// Two schema fields would share one flag.
    DuplicateFlagName { flag: String },
    /// An explicit required override contradicts the declared type's
    /// optionality, which is the authoritative rule.
    ContradictoryRequiredOverride { name: String },
    /// A parameter name or flag is empty, begins with a dash, or is
    /// reserved for the generated help and version surfaces.
    MalformedFlag { flag: String },
    /// The body is declared asynchronous but concurrency was not requested.
    AsyncWithoutConcurrency,
}

impl BuildError {
    /// The diagnostic text of this error.
    pub fn message(&self) -> (r: String)
        ensures
            r@ == self.spec_message(),
    {
        proof {
            reveal_strlit("entry point must be named `main`, got: ");
            reveal_strlit("unsupported parameter form");
            reveal_strlit("duplicate parameter name: ");
            reveal_strlit("duplicate flag name: ");
            reveal_strlit("required override contradicts declared type optionality: ");
            reveal_strlit("malformed or reserved flag name: ");
            reveal_strlit("function is declared asynchronous but concurrency was not requested");
        }
        match self {
            BuildError::WrongEntryName { actual } => {
                let mut m = String::from_str("entry point must be named `main`, got: ");
                m.append(actual.as_str());
                m
            },
            BuildError::UnsupportedParameterForm { position: _ } => {
                String::from_str("unsupported parameter form")
            },
            BuildError::DuplicateParameterName { name } => {
                let mut m = String::from_str("duplicate parameter name: ");
                m.append(name.as_str());
                m
            },
            BuildError::DuplicateFlagName { flag } => {
                let mut m = String::from_str("duplicate flag name: ");
                m.append(flag.as_str());
                m
            },
            BuildError::ContradictoryRequiredOverride { name } => {
                let mut m = String::from_str(
                    "required override contradicts declared type optionality: ",
                );
                m.append(name.as_str());
                m
            },
            BuildError::MalformedFlag { flag } => {
                let mut m = String::from_str("malformed or reserved flag name: ");
                m.append(flag.as_str());
                m
            },
            BuildError::AsyncWithoutConcurrency => {
                String::from_str(
                    "function is declared asynchronous but concurrency was not requested",
                )
            },
        }
    }

    /// What `message` returns, field by field.
    pub open spec fn spec_message(&self) -> Seq<char> {
        match self {
            BuildError::WrongEntryName { actual } => {
                "entry point must be named `main`, got: "@ + actual@
            },
            BuildError::UnsupportedParameterForm { .. } => "unsupported parameter form"@,
            BuildError::DuplicateParameterName { name } => "duplicate parameter name: "@ + name@,
            BuildError::DuplicateFlagName { flag } => "duplicate flag name: "@ + flag@,
            BuildError::ContradictoryRequiredOverride { name } => {
                "required override contradicts declared type optionality: "@ + name@
            },
            BuildError::MalformedFlag { flag } => "malformed or reserved flag name: "@ + flag@,
            BuildError::AsyncWithoutConcurrency => {
                "function is declared asynchronous but concurrency was not requested"@
            },
        }
    }
}

/// The ghost mirror of a `ParseError`, over sequences of characters.
#[verifier::ext_equal]
pub enum ParseErrorModel {
    MissingOperationM,
    UnknownOperationM { token: Seq<char> },
    UnknownFlagM { token: Seq<char> },
    DuplicateFlagM { token: Seq<char> },
    MissingValueM { flag: Seq<char> },
    InvalidValueM { flag: Seq<char>, text: Seq<char> },
    InvalidChoiceM { flag: Seq<char>, token: Seq<char> },
    MissingRequiredM { name: Seq<char> },
    UnsupportedShellM { name: Seq<char> },
}

/// The usage-style diagnostic a parse error carries, at the model level.
pub open spec fn model_message(e: ParseErrorModel) -> Seq<char> {
    match e {
        ParseErrorModel::MissingOperationM => "missing operation: expected `run` or `completion`"@,
        ParseErrorModel::UnknownOperationM { token } => "unknown operation: "@ + token,
        ParseErrorModel::UnknownFlagM { token } => "unexpected argument: "@ + token,
        ParseErrorModel::DuplicateFlagM { token } => "argument supplied more than once: "@ + token,
        ParseErrorModel::MissingValueM { flag } => "missing value for argument: "@ + flag,
        ParseErrorModel::InvalidValueM { flag, text } => {
            "invalid value for argument: "@ + flag + ": "@ + text
        },
        ParseErrorModel::InvalidChoiceM { flag, token } => {
            "invalid choice for argument: "@ + flag + ": "@ + token
        },
        ParseErrorModel::MissingRequiredM { name } => "missing required argument: "@ + name,
        ParseErrorModel::UnsupportedShellM { name } => "unsupported shell: "@ + name,
    }
}

/// A runtime parse error: one invocation is aborted with a usage-style
/// diagnostic and a nonzero exit; nothing is ever silently defaulted.
#[derive(Debug)]
pub enum ParseError {
    /// The argument vector names no operation.
    MissingOperation,
    /// The first token names neither the primary nor the completion operation.
    UnknownOperation { token: String },
    /// A token matches no schema field's flag.
    UnknownFlag { token: String },
    /// One flag was supplied more than once.
    DuplicateFlag { token: String },
    /// A value-taking flag stands last, with no value token after it.
    MissingValue { flag: String },
    /// A value token does not parse under the field's declared type.
    InvalidValue { flag: String, text: String },
    /// A value token is outside an enumerated field's choice set.
    InvalidChoice { flag: String, token: String },
    /// A required field was not supplied.
    MissingRequired { name: String },
    /// The completion operation named a shell outside the supported set.
    UnsupportedShell { name: String },
}

impl View for ParseError {
    type V = ParseErrorModel;

    open spec fn view(&self) -> ParseErrorModel {
        match self {
            ParseError::MissingOperation => ParseErrorModel::MissingOperationM,
            ParseError::UnknownOperation { token } => {
                ParseErrorModel::UnknownOperationM { token: token@ }
            },
            ParseError::UnknownFlag { token } => ParseErrorModel::UnknownFlagM { token: token@ },
            ParseError::DuplicateFlag { token } => ParseErrorModel::DuplicateFlagM {
                token: token@,
            },
            ParseError::MissingValue { flag } => ParseErrorModel::MissingValueM { flag: flag@ },
            ParseError::InvalidValue { flag, text } => ParseErrorModel::InvalidValueM {
                flag: flag@,
                text: text@,
            },
            ParseError::InvalidChoice { flag, token } => ParseErrorModel::InvalidChoiceM {
                flag: flag@,
                token: token@,
            },
            ParseError::MissingRequired { name } => ParseErrorModel::MissingRequiredM {
                name: name@,
            },
            ParseError::UnsupportedShell { name } => ParseErrorModel::UnsupportedShellM {
                name: name@,
            },
        }
    }
}

impl ParseError {
    /// The usage-style diagnostic text of this error.
    pub fn message(&self) -> (r: String)
        ensures
            r@ == self.spec_message(),
    {
        proof {
            reveal_strlit("missing operation: expected `run` or `completion`");
            reveal_strlit("unknown operation: ");
            reveal_strlit("unexpected argument: ");
            reveal_strlit("argument supplied more than once: ");
            reveal_strlit("missing value for argument: ");
            reveal_strlit("invalid value for argument: ");
            reveal_strlit("invalid choice for argument: ");
            reveal_strlit("missing required argument: ");
            reveal_strlit("unsupported shell: ");
            reveal_strlit(": ");
        }
        match self {
            ParseError::MissingOperation => {
                String::from_str("missing operation: expected `run` or `completion`")
            },
            ParseError::UnknownOperation { token } => {
                let mut m = String::from_str("unknown operation: ");
                m.append(token.as_str());
                m
            },
            ParseError::UnknownFlag { token } => {
                let mut m = String::from_str("unexpected argument: ");
                m.append(token.as_str());
                m
            },
            ParseError::DuplicateFlag { token } => {
                let mut m = String::from_str("argument supplied more than once: ");
                m.append(token.as_str());
                m
            },
            ParseError::MissingValue { flag } => {
                let mut m = String::from_str("missing value for argument: ");
                m.append(flag.as_str());
                m
            },
            ParseError::InvalidValue { flag, text } => {
                let mut m = String::from_str("invalid value for argument: ");
                m.append(flag.as_str());
                m.append(": ");
                m.append(text.as_str());
                m
            },
            ParseError::InvalidChoice { flag, token } => {
                let mut m = String::from_str("invalid choice for argument: ");
                m.append(flag.as_str());
                m.append(": ");
                m.append(token.as_str());
                m
            },
            ParseError::MissingRequired { name } => {
                let mut m = String::from_str("missing required argument: ");
                m.append(name.as_str());
                m
            },
            ParseError::UnsupportedShell { name } => {
                let mut m = String::from_str("unsupported shell: ");
                m.append(name.as_str());
                m
            },
        }
    }

    /// What `message` returns: the model-level diagnostic of this error.
    pub open spec fn spec_message(&self) -> Seq<char> {
        model_message(self@)
    }
}

} // verus!
