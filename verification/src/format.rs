//! Formatting dispatch: which external formatter a language's code goes to,
//! how it is fed, and how the formatter's outcome becomes the formatted
//! text. The host spawns the process; the decisions live here.
use vstd::prelude::*;

use crate::chars::text_matches;
use crate::driver::CommandModel;
use crate::driver::CommandSpec;
use crate::driver::ExecutionOutcome;
use crate::driver::OutcomeModel;
use crate::errors::ErrorModel;
use crate::errors::ExecError;
use crate::sink::utf8_to_string;

verus! {

/// How a language's formatter is driven.
pub enum FormatPlan {
    /// Feed the source to this command's stdin and read the result from its
    /// stdout.
    ViaStdin { command: CommandSpec },
    /// Write the source to a scratch file, run the program with these fixed
    /// arguments followed by the file's path, and read the file back.
    ViaFile { program: String, fixed_args: Vec<String> },
}

/// Spec-level shape of a [`FormatPlan`].
#[verifier::ext_equal]
pub enum FormatPlanModel {
    ViaStdin { command: CommandModel },
    ViaFile { program: Seq<char>, fixed_args: Seq<Seq<char>> },
}

impl View for FormatPlan {
    type V = FormatPlanModel;

    open spec fn view(&self) -> FormatPlanModel {
        match self {
            FormatPlan::ViaStdin { command } => FormatPlanModel::ViaStdin { command: command@ },
            FormatPlan::ViaFile { program, fixed_args } => FormatPlanModel::ViaFile {
                program: program@,
                fixed_args: fixed_args.deep_view(),
            },
        }
    }
}

/// The fixed formatter table, keyed by language identifier.
pub open spec fn format_plan_model(id: Seq<char>) -> Option<FormatPlanModel> {
    if id == "python"@ {
        Some(
            FormatPlanModel::ViaStdin {
                command: CommandModel { program: "black"@, args: seq!["--quiet"@, "-"@] },
            },
        )
    } else if id == "javascript"@ {
        Some(
            FormatPlanModel::ViaStdin {
                command: CommandModel {
                    program: "prettier"@,
                    args: seq!["--stdin-filepath"@, "code.js"@],
                },
            },
        )
    } else if id == "rust"@ {
        Some(
            FormatPlanModel::ViaStdin {
                command: CommandModel { program: "rustfmt"@, args: Seq::empty() },
            },
        )
    } else if id == "cpp"@ || id == "c++"@ {
        Some(
            FormatPlanModel::ViaStdin {
                command: CommandModel {
                    program: "clang-format"@,
                    args: seq!["-style=file"@, "-assume-filename=.cpp"@],
                },
            },
        )
    } else if id == "java"@ {
        Some(
            FormatPlanModel::ViaStdin {
                command: CommandModel {
                    program: "java"@,
                    args: seq!["-jar"@, "/usr/local/bin/google-java-format.jar"@, "-"@],
                },
            },
        )
    } else if id == "php"@ {
        Some(
            FormatPlanModel::ViaFile {
                program: "php-cs-fixer"@,
                fixed_args: seq!["fix"@, "--rules=@PSR2"@, "--diff"@],
            },
        )
    } else {
        None
    }
}

/// Builds a command from string literals.
fn command_of(program: &str, args: Vec<String>) -> (c: CommandSpec)
    ensures
        c@.program == program@,
        c@.args == args.deep_view(),
{
    CommandSpec { program: String::from_str(program), args: args }
}

/// Picks the formatter for a language identifier from the fixed table.
/// Unknown identifiers fail with `NotSupportedLanguage`.
pub fn format_plan(language_id: &String) -> (r: Result<FormatPlan, ExecError>)
    ensures
        r is Ok <==> format_plan_model(language_id@) is Some,
        r matches Ok(p) ==> format_plan_model(language_id@) == Some(p@),
        r matches Err(e) ==> e@ == ErrorModel::NotSupportedLanguage,
{
    if text_matches(language_id, "python") {
        let mut args: Vec<String> = Vec::new();
        args.push(String::from_str("--quiet"));
        args.push(String::from_str("-"));
        let p = FormatPlan::ViaStdin { command: command_of("black", args) };
        proof {
            assert(p@ =~~= format_plan_model(language_id@).unwrap());
        }
        Ok(p)
    } else if text_matches(language_id, "javascript") {
        let mut args: Vec<String> = Vec::new();
        args.push(String::from_str("--stdin-filepath"));
        args.push(String::from_str("code.js"));
        let p = FormatPlan::ViaStdin { command: command_of("prettier", args) };
        proof {
            assert(p@ =~~= format_plan_model(language_id@).unwrap());
        }
        Ok(p)
    } else if text_matches(language_id, "rust") {
        let args: Vec<String> = Vec::new();
        let p = FormatPlan::ViaStdin { command: command_of("rustfmt", args) };
        proof {
            assert(p@ =~~= format_plan_model(language_id@).unwrap());
        }
        Ok(p)
    } else if text_matches(language_id, "cpp") || text_matches(language_id, "c++") {
        let mut args: Vec<String> = Vec::new();
        args.push(String::from_str("-style=file"));
        args.push(String::from_str("-assume-filename=.cpp"));
        let p = FormatPlan::ViaStdin { command: command_of("clang-format", args) };
        proof {
            assert(p@ =~~= format_plan_model(language_id@).unwrap());
        }
        Ok(p)
    } else if text_matches(language_id, "java") {
        let mut args: Vec<String> = Vec::new();
        args.push(String::from_str("-jar"));
        args.push(String::from_str("/usr/local/bin/google-java-format.jar"));
        args.push(String::from_str("-"));
        let p = FormatPlan::ViaStdin { command: command_of("java", args) };
        proof {
            assert(p@ =~~= format_plan_model(language_id@).unwrap());
        }
        Ok(p)
    } else if text_matches(language_id, "php") {
        let mut args: Vec<String> = Vec::new();
        args.push(String::from_str("fix"));
        args.push(String::from_str("--rules=@PSR2"));
        args.push(String::from_str("--diff"));
        let p = FormatPlan::ViaFile { program: String::from_str("php-cs-fixer"), fixed_args: args };
        proof {
            assert(p@ =~~= format_plan_model(language_id@).unwrap());
        }
        Ok(p)
    } else {
        Err(ExecError::NotSupportedLanguage)
    }
}

/// What a stdin-fed formatter's outcome yields: a failure carries its
/// stderr; an empty stdout means the input was already formatted and is
/// returned unchanged; otherwise stdout must decode as UTF-8.
pub open spec fn finish_format_model(original: Seq<char>, o: OutcomeModel) -> Result<
    Seq<char>,
    ErrorModel,
> {
    if !o.exit_success {
        Err(ErrorModel::RunFailed { stderr: o.stderr })
    } else if o.stdout.len() == 0 {
        Ok(original)
    } else if vstd::utf8::valid_utf8(o.stdout) {
        Ok(vstd::utf8::decode_utf8(o.stdout))
    } else {
        Err(ErrorModel::InvalidUtf8Output)
    }
}

/// Turns a stdin-fed formatter's outcome into the formatted text, per
/// [`finish_format_model`].
pub fn finish_format(original: &str, outcome: ExecutionOutcome) -> (r: Result<String, ExecError>)
    ensures
        r matches Ok(s) ==> finish_format_model(original@, outcome@) == Ok::<
            Seq<char>,
            ErrorModel,
        >(s@),
        r matches Err(e) ==> finish_format_model(original@, outcome@) == Err::<
            Seq<char>,
            ErrorModel,
        >(e@),
{
    if !outcome.exit_success {
        Err(ExecError::RunFailed { stderr: outcome.stderr })
    } else if outcome.stdout.len() == 0 {
        Ok(String::from_str(original))
    } else {
        match utf8_to_string(outcome.stdout) {
            Some(s) => Ok(s),
            None => Err(ExecError::InvalidUtf8Output),
        }
    }
}

} // verus!
