//! Flag parsing for the execute and format commands: leading flags are
//! consumed left to right, everything from the first unrecognised token on
//! is passed through verbatim.
use vstd::prelude::*;

use crate::chars::text_matches;

verus! {

/// Spec-level shape of [`ExecuteOptions`].
#[verifier::ext_equal]
pub struct ExecOptionsModel {
    pub language: Seq<char>,
    pub verbose: bool,
    pub to_clipboard: bool,
    pub rest: Seq<Seq<char>>,
}

/// The execute command's options: the selected language, the two switches,
/// and the remaining tokens, forwarded untouched as passthrough arguments.
pub struct ExecuteOptions {
    pub language: String,
    pub verbose: bool,
    pub output_to_clipboard: bool,
    pub rest: Vec<String>,
}

impl View for ExecuteOptions {
    type V = ExecOptionsModel;

    open spec fn view(&self) -> ExecOptionsModel {
        ExecOptionsModel {
            language: self.language@,
            verbose: self.verbose,
            to_clipboard: self.output_to_clipboard,
            rest: self.rest.deep_view(),
        }
    }
}

/// The execute command's flag scan, from position `i` with the current
/// settings: `-l`/`--language` takes the next token as the language (and is
/// ignored when nothing follows), `-v`/`--verbose` and
/// `-o`/`--output-clipboard` set their switches, and the first other token
/// starts the passthrough remainder.
pub open spec fn parse_exec_model(
    args: Seq<Seq<char>>,
    i: int,
    lang: Seq<char>,
    verbose: bool,
    clip: bool,
) -> ExecOptionsModel
    decreases args.len() - i,
{
    if i < 0 || i >= args.len() {
        ExecOptionsModel { language: lang, verbose: verbose, to_clipboard: clip, rest: Seq::empty() }
    } else if args[i] == "-l"@ || args[i] == "--language"@ {
        if i + 1 < args.len() {
            parse_exec_model(args, i + 2, args[i + 1], verbose, clip)
        } else {
            ExecOptionsModel {
                language: lang,
                verbose: verbose,
                to_clipboard: clip,
                rest: Seq::empty(),
            }
        }
    } else if args[i] == "-v"@ || args[i] == "--verbose"@ {
        parse_exec_model(args, i + 1, lang, true, clip)
    } else if args[i] == "-o"@ || args[i] == "--output-clipboard"@ {
        parse_exec_model(args, i + 1, lang, verbose, true)
    } else {
        ExecOptionsModel { language: lang, verbose: verbose, to_clipboard: clip, rest: args.skip(i) }
    }
}

/// A copy of `args` from position `from` on.
fn clone_tail(args: &Vec<String>, from: usize) -> (r: Vec<String>)
    requires
        from <= args@.len(),
    ensures
        r.deep_view() == args.deep_view().skip(from as int),
{
    let mut r: Vec<String> = Vec::new();
    let mut j: usize = from;
    while j < args.len()
        invariant
            from <= j <= args@.len(),
            r.deep_view() == args.deep_view().subrange(from as int, j as int),
        decreases args@.len() - j,
    {
        let ghost prev = r.deep_view();
        let cloned_arg = args[j].clone();
        proof {
            assert(cloned_arg@ == args.deep_view()[j as int]);
        }
        r.push(cloned_arg);
        j = j + 1;
        proof {
            assert(r.deep_view() =~~= prev.push(args.deep_view()[j - 1]));
            assert(r.deep_view() =~~= args.deep_view().subrange(from as int, j as int));
        }
    }
    proof {
        assert(r.deep_view() =~~= args.deep_view().skip(from as int));
    }
    r
}

/// Parses the execute command's flags, per [`parse_exec_model`], with the
/// fixed default language `python` and both switches off.
pub fn parse_execute_args(args: &Vec<String>) -> (r: ExecuteOptions)
    ensures
        r@ == parse_exec_model(args.deep_view(), 0, "python"@, false, false),
{
    let ghost dv = args.deep_view();
    let mut language = String::from_str("python");
    let mut verbose = false;
    let mut clip = false;
    let mut i: usize = 0;
    while i < args.len()
        invariant
            i <= dv.len(),
            dv == args.deep_view(),
            parse_exec_model(dv, 0, "python"@, false, false) == parse_exec_model(
                dv,
                i as int,
                language@,
                verbose,
                clip,
            ),
        decreases dv.len() - i,
    {
        proof {
            assert(dv[i as int] == args@[i as int]@);
        }
        if text_matches(&args[i], "-l") || text_matches(&args[i], "--language") {
            if i + 1 < args.len() {
                proof {
                    assert(dv[i as int + 1] == args@[i as int + 1]@);
                }
                language = args[i + 1].clone();
                i = i + 2;
            } else {
                let r = ExecuteOptions {
                    language: language,
                    verbose: verbose,
                    output_to_clipboard: clip,
                    rest: Vec::new(),
                };
                proof {
                    assert(r@ =~~= parse_exec_model(dv, i as int, language@, verbose, clip));
                }
                return r;
            }
        } else if text_matches(&args[i], "-v") || text_matches(&args[i], "--verbose") {
            verbose = true;
            i = i + 1;
        } else if text_matches(&args[i], "-o") || text_matches(&args[i], "--output-clipboard") {
            clip = true;
            i = i + 1;
        } else {
            let rest = clone_tail(args, i);
            let r = ExecuteOptions {
                language: language,
                verbose: verbose,
                output_to_clipboard: clip,
                rest: rest,
            };
            proof {
                assert(r@ =~~= parse_exec_model(dv, i as int, language@, verbose, clip));
            }
            return r;
        }
    }
    let r = ExecuteOptions {
        language: language,
        verbose: verbose,
        output_to_clipboard: clip,
        rest: Vec::new(),
    };
    proof {
        assert(r@ =~~= parse_exec_model(dv, i as int, language@, verbose, clip));
    }
    r
}

/// The format command's flag scan: only `-l`/`--language` is recognised;
/// the first other token ends the scan.
pub open spec fn parse_format_model(args: Seq<Seq<char>>, i: int, lang: Seq<char>) -> Seq<char>
    decreases args.len() - i,
{
    if i < 0 || i >= args.len() {
        lang
    } else if args[i] == "-l"@ || args[i] == "--language"@ {
        if i + 1 < args.len() {
            parse_format_model(args, i + 2, args[i + 1])
        } else {
            lang
        }
    } else {
        lang
    }
}

/// Parses the format command's language flag, per [`parse_format_model`],
/// with the fixed default language `python`.
pub fn parse_format_args(args: &Vec<String>) -> (r: String)
    ensures
        r@ == parse_format_model(args.deep_view(), 0, "python"@),
{
    let ghost dv = args.deep_view();
    let mut language = String::from_str("python");
    let mut i: usize = 0;
    while i < args.len()
        invariant
            i <= dv.len(),
            dv == args.deep_view(),
            parse_format_model(dv, 0, "python"@) == parse_format_model(dv, i as int, language@),
        decreases dv.len() - i,
    {
        proof {
            assert(dv[i as int] == args@[i as int]@);
        }
        if text_matches(&args[i], "-l") || text_matches(&args[i], "--language") {
            if i + 1 < args.len() {
                proof {
                    assert(dv[i as int + 1] == args@[i as int + 1]@);
                }
                language = args[i + 1].clone();
                i = i + 2;
            } else {
                return language;
            }
        } else {
            return language;
        }
    }
    language
}

} // verus!
