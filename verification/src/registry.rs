//! The language registry: a fixed, process-wide mapping from a language
//! identifier to the profile that drives its execution.
//!
//! Lookup is exact-match and case-sensitive. An unknown identifier fails
//! fast, before any workspace or child process exists.
use vstd::prelude::*;

use crate::errors::ErrorModel;
use crate::errors::ExecError;

verus! {

/// The three execution shapes a language can have.
#[derive(Clone, Copy, Debug, PartialEq, Eq, Structural)]
pub enum Strategy {
    /// The interpreter runs the staged source file directly.
    Interpreted,
    /// The compiler produces an executable at a path of our choosing, which
    /// is then run.
    CompiledGeneric,
    /// The compiler requires the file name to match an entry-point name
    /// derived from the source; a separate runtime command runs the result.
    CompiledNamedEntry,
}

/// Spec-level shape of a [`LanguageProfile`].
#[verifier::ext_equal]
pub struct ProfileModel {
    pub language_id: Seq<char>,
    pub file_extension: Seq<char>,
    pub tool: Seq<char>,
    pub runtime: Option<Seq<char>>,
    pub strategy: Strategy,
}

/// How one supported language's source is turned into a running process:
/// its file extension, its interpreter or compiler, and, for a named-entry
/// language, the runtime that runs the compiled artifact.
#[derive(Debug, Clone)]
pub struct LanguageProfile {
    pub language_id: String,
    pub file_extension: String,
    pub tool: String,
    pub runtime: Option<String>,
    pub strategy: Strategy,
}

impl View for LanguageProfile {
    type V = ProfileModel;

    open spec fn view(&self) -> ProfileModel {
        ProfileModel {
            language_id: self.language_id@,
            file_extension: self.file_extension@,
            tool: self.tool@,
            runtime: match self.runtime {
                Some(r) => Some(r@),
                None => None,
            },
            strategy: self.strategy,
        }
    }
}

/// The registry table. A language identifier resolves to at most one
/// profile, and the table never changes at run time.
pub open spec fn resolve_model(id: Seq<char>) -> Option<ProfileModel> {
    if id == "python"@ {
        Some(
            ProfileModel {
                language_id: "python"@,
                file_extension: "py"@,
                tool: "python"@,
                runtime: None,
                strategy: Strategy::Interpreted,
            },
        )
    } else if id == "javascript"@ {
        Some(
            ProfileModel {
                language_id: "javascript"@,
                file_extension: "js"@,
                tool: "node"@,
                runtime: None,
                strategy: Strategy::Interpreted,
            },
        )
    } else if id == "rust"@ {
        Some(
            ProfileModel {
                language_id: "rust"@,
                file_extension: "rs"@,
                tool: "rustc"@,
                runtime: None,
                strategy: Strategy::CompiledGeneric,
            },
        )
    } else if id == "cpp"@ {
        Some(
            ProfileModel {
                language_id: "cpp"@,
                file_extension: "cpp"@,
                tool: "g++"@,
                runtime: None,
                strategy: Strategy::CompiledGeneric,
            },
        )
    } else if id == "java"@ {
        Some(
            ProfileModel {
                language_id: "java"@,
                file_extension: "java"@,
                tool: "javac"@,
                runtime: Some("java"@),
                strategy: Strategy::CompiledNamedEntry,
            },
        )
    } else if id == "php"@ {
        Some(
            ProfileModel {
                language_id: "php"@,
                file_extension: "php"@,
                tool: "php"@,
                runtime: None,
                strategy: Strategy::Interpreted,
            },
        )
    } else {
        None
    }
}

/// True exactly of the identifiers the registry supports.
pub open spec fn supported_language(id: Seq<char>) -> bool {
    resolve_model(id) is Some
}

/// Exact-match, case-sensitive lookup of a language identifier in the fixed
/// registry table. Unknown identifiers fail with `NotSupportedLanguage`;
/// no other error is possible here.
pub fn resolve(language_id: &String) -> (r: Result<LanguageProfile, ExecError>)
    ensures
        r is Ok <==> supported_language(language_id@),
        r matches Ok(p) ==> resolve_model(language_id@) == Some(p@),
        r matches Err(e) ==> e@ == ErrorModel::NotSupportedLanguage,
{
    if crate::chars::text_matches(language_id, "python") {
        let p = LanguageProfile {
            language_id: String::from_str("python"),
            file_extension: String::from_str("py"),
            tool: String::from_str("python"),
            runtime: None,
            strategy: Strategy::Interpreted,
        };
        proof {
            assert(resolve_model(language_id@) == Some(p@)) by {
                assert(p@ =~= resolve_model(language_id@).unwrap());
            }
        }
        Ok(p)
    } else if crate::chars::text_matches(language_id, "javascript") {
        let p = LanguageProfile {
            language_id: String::from_str("javascript"),
            file_extension: String::from_str("js"),
            tool: String::from_str("node"),
            runtime: None,
            strategy: Strategy::Interpreted,
        };
        proof {
            assert(resolve_model(language_id@) == Some(p@)) by {
                assert(p@ =~= resolve_model(language_id@).unwrap());
            }
        }
        Ok(p)
    } else if crate::chars::text_matches(language_id, "rust") {
        let p = LanguageProfile {
            language_id: String::from_str("rust"),
            file_extension: String::from_str("rs"),
            tool: String::from_str("rustc"),
            runtime: None,
            strategy: Strategy::CompiledGeneric,
        };
        proof {
            assert(resolve_model(language_id@) == Some(p@)) by {
                assert(p@ =~= resolve_model(language_id@).unwrap());
            }
        }
        Ok(p)
    } else if crate::chars::text_matches(language_id, "cpp") {
        let p = LanguageProfile {
            language_id: String::from_str("cpp"),
            file_extension: String::from_str("cpp"),
            tool: String::from_str("g++"),
            runtime: None,
            strategy: Strategy::CompiledGeneric,
        };
        proof {
            assert(resolve_model(language_id@) == Some(p@)) by {
                assert(p@ =~= resolve_model(language_id@).unwrap());
            }
        }
        Ok(p)
    } else if crate::chars::text_matches(language_id, "java") {
        let p = LanguageProfile {
            language_id: String::from_str("java"),
            file_extension: String::from_str("java"),
            tool: String::from_str("javac"),
            runtime: Some(String::from_str("java")),
            strategy: Strategy::CompiledNamedEntry,
        };
        proof {
            assert(resolve_model(language_id@) == Some(p@)) by {
                assert(p@ =~= resolve_model(language_id@).unwrap());
            }
        }
        Ok(p)
    } else if crate::chars::text_matches(language_id, "php") {
        let p = LanguageProfile {
            language_id: String::from_str("php"),
            file_extension: String::from_str("php"),
            tool: String::from_str("php"),
            runtime: None,
            strategy: Strategy::Interpreted,
        };
        proof {
            assert(resolve_model(language_id@) == Some(p@)) by {
                assert(p@ =~= resolve_model(language_id@).unwrap());
            }
        }
        Ok(p)
    } else {
        Err(ExecError::NotSupportedLanguage)
    }
}

/// Law: every profile the registry hands out is well-formed. Its file
/// extension is non-empty, it echoes the identifier it was resolved under,
/// and it names a runtime command exactly when its strategy compiles to a
/// named entry point. (That the strategy is one of the three enumerated
/// kinds is forced by the `Strategy` type itself.)
pub proof fn lemma_registry_well_formed(id: Seq<char>)
    ensures
        resolve_model(id) matches Some(p) ==> p.file_extension.len() > 0,
        resolve_model(id) matches Some(p) ==> p.language_id == id,
        resolve_model(id) matches Some(p) ==> (p.runtime is Some <==> p.strategy
            == Strategy::CompiledNamedEntry),
        resolve_model(id) matches Some(p) ==> p.tool.len() > 0,
{
    reveal_strlit("py");
    reveal_strlit("js");
    reveal_strlit("rs");
    reveal_strlit("cpp");
    reveal_strlit("java");
    reveal_strlit("php");
    reveal_strlit("python");
    reveal_strlit("node");
    reveal_strlit("rustc");
    reveal_strlit("g++");
    reveal_strlit("javac");
}

} // verus!
