//! The execution driver: a state machine over one execution request.
//!
//! The driver owns every decision of the pipeline — which profile applies,
//! what file to stage, which command to invoke next, when to stop — while
//! the host performs the outside work (directory creation, the file write,
//! the child processes) and feeds the observed result of each step back in
//! as an event. One call to [`begin`] and a run of [`Driver::step`] calls
//! drive a request from classification to a terminal [`DriverAction`].
use vstd::prelude::*;

use crate::chars::string_from_chars;
use crate::entry::derive_entry_name;
use crate::entry::entry_name_model;
use crate::errors::ErrorModel;
use crate::errors::ExecError;
use crate::registry::LanguageProfile;
use crate::registry::ProfileModel;
use crate::registry::Strategy;
use crate::registry::resolve;
use crate::registry::resolve_model;

verus! {

/// One invocation of the utility, as handed in by the command line layer.
pub struct ExecutionRequest {
    pub language_id: String,
    pub source_text: String,
    pub passthrough_args: Vec<String>,
    pub output_to_clipboard: bool,
    pub verbose: bool,
}

/// Spec-level shape of an [`ExecutionRequest`].
#[verifier::ext_equal]
pub struct RequestModel {
    pub language_id: Seq<char>,
    pub source_text: Seq<char>,
    pub passthrough: Seq<Seq<char>>,
    pub to_clipboard: bool,
    pub verbose: bool,
}

impl View for ExecutionRequest {
    type V = RequestModel;

    open spec fn view(&self) -> RequestModel {
        RequestModel {
            language_id: self.language_id@,
            source_text: self.source_text@,
            passthrough: self.passthrough_args.deep_view(),
            to_clipboard: self.output_to_clipboard,
            verbose: self.verbose,
        }
    }
}

/// What one completed toolchain invocation reported back.
pub struct ExecutionOutcome {
    pub exit_success: bool,
    pub stdout: Vec<u8>,
    pub stderr: Vec<u8>,
}

/// Spec-level shape of an [`ExecutionOutcome`].
#[verifier::ext_equal]
pub struct OutcomeModel {
    pub exit_success: bool,
    pub stdout: Seq<u8>,
    pub stderr: Seq<u8>,
}

impl View for ExecutionOutcome {
    type V = OutcomeModel;

    open spec fn view(&self) -> OutcomeModel {
        OutcomeModel {
            exit_success: self.exit_success,
            stdout: self.stdout@,
            stderr: self.stderr@,
        }
    }
}

/// A command for the host to run: a program and its arguments, in order.
/// Passthrough arguments always come after the fixed ones, verbatim.
pub struct CommandSpec {
    pub program: String,
    pub args: Vec<String>,
}

/// Spec-level shape of a [`CommandSpec`].
#[verifier::ext_equal]
pub struct CommandModel {
    pub program: Seq<char>,
    pub args: Seq<Seq<char>>,
}

impl View for CommandSpec {
    type V = CommandModel;

    open spec fn view(&self) -> CommandModel {
        CommandModel { program: self.program@, args: self.args.deep_view() }
    }
}

/// Where the driver stands within one request.
#[derive(Clone, Copy, Debug, PartialEq, Eq, Structural)]
pub enum Phase {
    /// Waiting for the host to create the scratch workspace.
    AwaitWorkspace,
    /// Waiting for the host to write the staged source file.
    AwaitStaging,
    /// Waiting for the compile stage's outcome.
    AwaitBuild,
    /// Waiting for the run (or interpret) stage's outcome.
    AwaitRun,
    /// Terminal: a `Complete` or `Fail` action has been issued.
    Finished,
}

/// What the host observed while performing the action the driver asked for.
pub enum DriverEvent {
    /// The workspace exists; `root` is its path.
    WorkspaceReady { root: String },
    /// The workspace could not be created.
    WorkspaceFailed,
    /// The staged source file has been written.
    SourceStaged,
    /// The program of the requested command is not on the search path.
    ToolchainMissing,
    /// The requested command ran to completion with this outcome.
    Invoked { outcome: ExecutionOutcome },
}

/// Spec-level shape of a [`DriverEvent`].
#[verifier::ext_equal]
pub enum EventModel {
    WorkspaceReady { root: Seq<char> },
    WorkspaceFailed,
    SourceStaged,
    ToolchainMissing,
    Invoked { outcome: OutcomeModel },
}

impl View for DriverEvent {
    type V = EventModel;

    open spec fn view(&self) -> EventModel {
        match self {
            DriverEvent::WorkspaceReady { root } => EventModel::WorkspaceReady { root: root@ },
            DriverEvent::WorkspaceFailed => EventModel::WorkspaceFailed,
            DriverEvent::SourceStaged => EventModel::SourceStaged,
            DriverEvent::ToolchainMissing => EventModel::ToolchainMissing,
            DriverEvent::Invoked { outcome } => EventModel::Invoked { outcome: outcome@ },
        }
    }
}

/// What the host must do next. `Complete` and `Fail` are terminal; their
/// `release_workspace` flag tells the host whether a workspace exists that
/// must now be removed.
pub enum DriverAction {
    /// Write the request's source text under this name in the workspace.
    StageSource { file_name: String },
    /// Run this command and report its outcome (or its absence).
    Invoke { command: CommandSpec },
    /// The pipeline succeeded; deliver this outcome.
    Complete { outcome: ExecutionOutcome, release_workspace: bool },
    /// The pipeline failed with this error.
    Fail { error: ExecError, release_workspace: bool },
}

/// Spec-level shape of a [`DriverAction`].
#[verifier::ext_equal]
pub enum ActionModel {
    StageSource { file_name: Seq<char> },
    Invoke { command: CommandModel },
    Complete { outcome: OutcomeModel, release_workspace: bool },
    Fail { error: ErrorModel, release_workspace: bool },
}

impl View for DriverAction {
    type V = ActionModel;

    open spec fn view(&self) -> ActionModel {
        match self {
            DriverAction::StageSource { file_name } => ActionModel::StageSource {
                file_name: file_name@,
            },
            DriverAction::Invoke { command } => ActionModel::Invoke { command: command@ },
            DriverAction::Complete { outcome, release_workspace } => ActionModel::Complete {
                outcome: outcome@,
                release_workspace: *release_workspace,
            },
            DriverAction::Fail { error, release_workspace } => ActionModel::Fail {
                error: error@,
                release_workspace: *release_workspace,
            },
        }
    }
}

/// The driver's state for one request.
pub struct Driver {
    pub source_text: String,
    pub passthrough_args: Vec<String>,
    pub to_clipboard: bool,
    pub verbose: bool,
    pub profile: LanguageProfile,
    /// The derived entry-point name; empty unless the strategy needs one.
    pub entry_name: String,
    /// The name the source is staged under inside the workspace.
    pub file_name: String,
    /// The workspace root; empty until the workspace exists.
    pub root: String,
    /// Whether a workspace has been acquired for this request.
    pub acquired: bool,
    pub phase: Phase,
}

/// Spec-level shape of a [`Driver`].
#[verifier::ext_equal]
pub struct DriverModel {
    pub source_text: Seq<char>,
    pub passthrough: Seq<Seq<char>>,
    pub to_clipboard: bool,
    pub verbose: bool,
    pub profile: ProfileModel,
    pub entry_name: Seq<char>,
    pub file_name: Seq<char>,
    pub root: Seq<char>,
    pub acquired: bool,
    pub phase: Phase,
}

impl View for Driver {
    type V = DriverModel;

    open spec fn view(&self) -> DriverModel {
        DriverModel {
            source_text: self.source_text@,
            passthrough: self.passthrough_args.deep_view(),
            to_clipboard: self.to_clipboard,
            verbose: self.verbose,
            profile: self.profile@,
            entry_name: self.entry_name@,
            file_name: self.file_name@,
            root: self.root@,
            acquired: self.acquired,
            phase: self.phase,
        }
    }
}

/// The name the source file is staged under: the fixed stem for interpreted
/// and generically compiled languages, the derived entry name otherwise.
pub open spec fn staged_name_model(p: ProfileModel, entry: Seq<char>) -> Seq<char> {
    if p.strategy == Strategy::CompiledNamedEntry {
        entry + "."@ + p.file_extension
    } else {
        "temp_code."@ + p.file_extension
    }
}

/// Path of the staged source file inside the workspace.
pub open spec fn source_path_model(d: DriverModel) -> Seq<char> {
    d.root + "/"@ + d.file_name
}

/// Path of the executable a generic compile produces.
pub open spec fn exe_path_model(d: DriverModel) -> Seq<char> {
    d.root + "/temp_executable"@
}

/// The first toolchain invocation after staging: the interpreter on the
/// staged file (passthrough arguments appended), or the compiler on it.
pub open spec fn first_command_model(d: DriverModel) -> CommandModel {
    match d.profile.strategy {
        Strategy::Interpreted => CommandModel {
            program: d.profile.tool,
            args: seq![source_path_model(d)] + d.passthrough,
        },
        Strategy::CompiledGeneric => CommandModel {
            program: d.profile.tool,
            args: seq![source_path_model(d), "-o"@, exe_path_model(d)],
        },
        Strategy::CompiledNamedEntry => CommandModel {
            program: d.profile.tool,
            args: seq![source_path_model(d)],
        },
    }
}

/// The program the run stage invokes.
pub open spec fn run_program_model(d: DriverModel) -> Seq<char> {
    match d.profile.strategy {
        Strategy::Interpreted => d.profile.tool,
        Strategy::CompiledGeneric => exe_path_model(d),
        Strategy::CompiledNamedEntry => match d.profile.runtime {
            Some(r) => r,
            None => d.profile.tool,
        },
    }
}

/// The run stage's invocation after a successful compile: the produced
/// executable, or the runtime pointed at the workspace root and the entry
/// name. Passthrough arguments always come last.
pub open spec fn run_command_model(d: DriverModel) -> CommandModel {
    match d.profile.strategy {
        Strategy::Interpreted => first_command_model(d),
        Strategy::CompiledGeneric => CommandModel {
            program: run_program_model(d),
            args: d.passthrough,
        },
        Strategy::CompiledNamedEntry => CommandModel {
            program: run_program_model(d),
            args: seq!["-cp"@, d.root, d.entry_name] + d.passthrough,
        },
    }
}

/// The driver state `begin` hands out for a resolved request.
pub open spec fn driver_init_model(req: RequestModel, p: ProfileModel, entry: Seq<char>) -> DriverModel {
    DriverModel {
        source_text: req.source_text,
        passthrough: req.passthrough,
        to_clipboard: req.to_clipboard,
        verbose: req.verbose,
        profile: p,
        entry_name: entry,
        file_name: staged_name_model(p, entry),
        root: Seq::empty(),
        acquired: false,
        phase: Phase::AwaitWorkspace,
    }
}

/// What `begin` returns: the registry decides first, then — for a
/// named-entry strategy — the entry name must be derivable before anything
/// is staged. Both failures are terminal input errors.
pub open spec fn begin_model(req: RequestModel) -> Result<DriverModel, ErrorModel> {
    match resolve_model(req.language_id) {
        None => Err(ErrorModel::NotSupportedLanguage),
        Some(p) => {
            if p.strategy == Strategy::CompiledNamedEntry {
                match entry_name_model(req.source_text) {
                    None => Err(ErrorModel::EntryNameNotFound),
                    Some(name) => Ok(driver_init_model(req, p, name)),
                }
            } else {
                Ok(driver_init_model(req, p, Seq::empty()))
            }
        },
    }
}

/// The transition relation of the driver: from a state and an observed
/// event to the next state and the next action. `None` marks the pairs the
/// protocol never produces.
pub open spec fn next_step(d: DriverModel, e: EventModel) -> Option<(DriverModel, ActionModel)> {
    match (d.phase, e) {
        (Phase::AwaitWorkspace, EventModel::WorkspaceReady { root }) => Some(
            (
                DriverModel { root: root, acquired: true, phase: Phase::AwaitStaging, ..d },
                ActionModel::StageSource { file_name: d.file_name },
            ),
        ),
        (Phase::AwaitWorkspace, EventModel::WorkspaceFailed) => Some(
            (
                DriverModel { phase: Phase::Finished, ..d },
                ActionModel::Fail {
                    error: ErrorModel::WorkspaceCreationFailed,
                    release_workspace: d.acquired,
                },
            ),
        ),
        (Phase::AwaitStaging, EventModel::SourceStaged) => Some(
            (
                DriverModel {
                    phase: if d.profile.strategy == Strategy::Interpreted {
                        Phase::AwaitRun
                    } else {
                        Phase::AwaitBuild
                    },
                    ..d
                },
                ActionModel::Invoke { command: first_command_model(d) },
            ),
        ),
        (Phase::AwaitBuild, EventModel::ToolchainMissing) => Some(
            (
                DriverModel { phase: Phase::Finished, ..d },
                ActionModel::Fail {
                    error: ErrorModel::ToolchainNotFound { program: d.profile.tool },
                    release_workspace: d.acquired,
                },
            ),
        ),
        (Phase::AwaitRun, EventModel::ToolchainMissing) => Some(
            (
                DriverModel { phase: Phase::Finished, ..d },
                ActionModel::Fail {
                    error: ErrorModel::ToolchainNotFound { program: run_program_model(d) },
                    release_workspace: d.acquired,
                },
            ),
        ),
        (Phase::AwaitBuild, EventModel::Invoked { outcome }) => {
            if outcome.exit_success {
                Some(
                    (
                        DriverModel { phase: Phase::AwaitRun, ..d },
                        ActionModel::Invoke { command: run_command_model(d) },
                    ),
                )
            } else {
                Some(
                    (
                        DriverModel { phase: Phase::Finished, ..d },
                        ActionModel::Fail {
                            error: ErrorModel::CompileFailed { stderr: outcome.stderr },
                            release_workspace: d.acquired,
                        },
                    ),
                )
            }
        },
        (Phase::AwaitRun, EventModel::Invoked { outcome }) => {
            if outcome.exit_success {
                Some(
                    (
                        DriverModel { phase: Phase::Finished, ..d },
                        ActionModel::Complete { outcome: outcome, release_workspace: d.acquired },
                    ),
                )
            } else {
                Some(
                    (
                        DriverModel { phase: Phase::Finished, ..d },
                        ActionModel::Fail {
                            error: ErrorModel::RunFailed { stderr: outcome.stderr },
                            release_workspace: d.acquired,
                        },
                    ),
                )
            }
        },
        _ => None,
    }
}

/// Classifies the request and prepares the driver. Fails with
/// `NotSupportedLanguage` exactly on identifiers the registry lacks, and
/// with `EntryNameNotFound` exactly when a named-entry strategy finds no
/// derivable name — in both cases before any workspace or process exists.
pub fn begin(request: ExecutionRequest) -> (r: Result<Driver, ExecError>)
    ensures
        r matches Ok(d) ==> begin_model(request@) == Ok::<DriverModel, ErrorModel>(d@),
        r matches Err(e) ==> begin_model(request@) == Err::<DriverModel, ErrorModel>(e@),
{
    let ghost req0 = request@;
    let profile = match resolve(&request.language_id) {
        Ok(p) => p,
        Err(e) => {
            return Err(e);
        },
    };
    let named = matches!(profile.strategy, Strategy::CompiledNamedEntry);
    let entry_name: String = if named {
        match derive_entry_name(request.source_text.as_str()) {
            Some(n) => n,
            None => {
                return Err(ExecError::EntryNameNotFound);
            },
        }
    } else {
        String::new()
    };
    let mut file_name: String = if named {
        entry_name.clone()
    } else {
        String::from_str("temp_code")
    };
    file_name.append(".");
    file_name.append(profile.file_extension.as_str());
    let d = Driver {
        source_text: request.source_text,
        passthrough_args: request.passthrough_args,
        to_clipboard: request.output_to_clipboard,
        verbose: request.verbose,
        profile: profile,
        entry_name: entry_name,
        file_name: file_name,
        root: String::new(),
        acquired: false,
        phase: Phase::AwaitWorkspace,
    };
    proof {
        let p = resolve_model(req0.language_id).unwrap();
        if named {
            let name = entry_name_model(req0.source_text).unwrap();
            assert(d.file_name@ =~= staged_name_model(p, name));
        } else {
            reveal_strlit("temp_code");
            reveal_strlit(".");
            reveal_strlit("temp_code.");
            assert(d.file_name@ =~= staged_name_model(p, Seq::empty()));
        }
        assert(begin_model(req0) matches Ok(m) && d@ =~= m);
    }
    Ok(d)
}

impl Driver {
    /// Builds the first toolchain invocation for this driver.
    fn first_command(&self) -> (c: CommandSpec)
        ensures
            c@ == first_command_model(self@),
    {
        let mut source_path = self.root.clone();
        source_path.append("/");
        source_path.append(self.file_name.as_str());
        proof {
            assert(source_path@ == source_path_model(self@));
        }
        let mut args: Vec<String> = Vec::new();
        match self.profile.strategy {
            Strategy::Interpreted => {
                args.push(source_path);
                proof {
                    assert(args.deep_view() =~= seq![source_path_model(self@)]);
                }
                append_clones(&mut args, &self.passthrough_args);
                let c = CommandSpec { program: self.profile.tool.clone(), args: args };
                proof {
                    assert(c@ =~= first_command_model(self@));
                }
                c
            },
            Strategy::CompiledGeneric => {
                let mut exe_path = self.root.clone();
                exe_path.append("/temp_executable");
                args.push(source_path);
                args.push(String::from_str("-o"));
                args.push(exe_path);
                let c = CommandSpec { program: self.profile.tool.clone(), args: args };
                proof {
                    assert(c@.args =~= seq![
                        source_path_model(self@),
                        "-o"@,
                        exe_path_model(self@),
                    ]);
                    assert(c@ =~= first_command_model(self@));
                }
                c
            },
            Strategy::CompiledNamedEntry => {
                args.push(source_path);
                let c = CommandSpec { program: self.profile.tool.clone(), args: args };
                proof {
                    assert(c@.args =~= seq![source_path_model(self@)]);
                    assert(c@ =~= first_command_model(self@));
                }
                c
            },
        }
    }

    /// Builds the run-stage invocation that follows a successful compile.
    fn run_command(&self) -> (c: CommandSpec)
        ensures
            c@ == run_command_model(self@),
    {
        match self.profile.strategy {
            Strategy::Interpreted => self.first_command(),
            Strategy::CompiledGeneric => {
                let mut exe_path = self.root.clone();
                exe_path.append("/temp_executable");
                let mut args: Vec<String> = Vec::new();
                proof {
                    assert(args.deep_view() =~= Seq::<Seq<char>>::empty());
                }
                append_clones(&mut args, &self.passthrough_args);
                let c = CommandSpec { program: exe_path, args: args };
                proof {
                    assert(c@.args =~= self@.passthrough);
                    assert(c@ =~= run_command_model(self@));
                }
                c
            },
            Strategy::CompiledNamedEntry => {
                let runtime = match &self.profile.runtime {
                    Some(r) => r.clone(),
                    None => self.profile.tool.clone(),
                };
                let mut args: Vec<String> = Vec::new();
                args.push(String::from_str("-cp"));
                args.push(self.root.clone());
                args.push(self.entry_name.clone());
                proof {
                    assert(args.deep_view() =~= seq!["-cp"@, self@.root, self@.entry_name]);
                }
                append_clones(&mut args, &self.passthrough_args);
                let c = CommandSpec { program: runtime, args: args };
                proof {
                    assert(c@ =~= run_command_model(self@));
                }
                c
            },
        }
    }

    /// The program of the run stage, for error reporting.
    fn run_program(&self) -> (p: String)
        ensures
            p@ == run_program_model(self@),
    {
        match self.profile.strategy {
            Strategy::Interpreted => self.profile.tool.clone(),
            Strategy::CompiledGeneric => {
                let mut exe_path = self.root.clone();
                exe_path.append("/temp_executable");
                exe_path
            },
            Strategy::CompiledNamedEntry => match &self.profile.runtime {
                Some(r) => r.clone(),
                None => self.profile.tool.clone(),
            },
        }
    }

    /// Feeds one observed event into the driver and returns what the host
    /// must do next, exactly as the transition relation [`next_step`] says.
    pub fn step(&mut self, event: DriverEvent) -> (action: DriverAction)
        requires
            next_step(old(self)@, event@) is Some,
        ensures
            next_step(old(self)@, event@) == Some((final(self)@, action@)),
    {
        let ghost d0 = self@;
        let ghost e0 = event@;
        match (self.phase, event) {
            (Phase::AwaitWorkspace, DriverEvent::WorkspaceReady { root }) => {
                self.root = root;
                self.acquired = true;
                self.phase = Phase::AwaitStaging;
                let action = DriverAction::StageSource { file_name: self.file_name.clone() };
                proof {
                    let pair = next_step(d0, e0).unwrap();
                    assert(self@ =~= pair.0);
                    assert(action@ =~= pair.1);
                }
                action
            },
            (Phase::AwaitWorkspace, DriverEvent::WorkspaceFailed) => {
                self.phase = Phase::Finished;
                let action = DriverAction::Fail {
                    error: ExecError::WorkspaceCreationFailed,
                    release_workspace: self.acquired,
                };
                proof {
                    let pair = next_step(d0, e0).unwrap();
                    assert(self@ =~= pair.0);
                    assert(action@ =~= pair.1);
                }
                action
            },
            (Phase::AwaitStaging, DriverEvent::SourceStaged) => {
                let command = self.first_command();
                self.phase = match self.profile.strategy {
                    Strategy::Interpreted => Phase::AwaitRun,
                    Strategy::CompiledGeneric => Phase::AwaitBuild,
                    Strategy::CompiledNamedEntry => Phase::AwaitBuild,
                };
                let action = DriverAction::Invoke { command: command };
                proof {
                    let pair = next_step(d0, e0).unwrap();
                    assert(self@ =~= pair.0);
                    assert(action@ =~= pair.1);
                }
                action
            },
            (Phase::AwaitBuild, DriverEvent::ToolchainMissing) => {
                self.phase = Phase::Finished;
                let action = DriverAction::Fail {
                    error: ExecError::ToolchainNotFound { program: self.profile.tool.clone() },
                    release_workspace: self.acquired,
                };
                proof {
                    let pair = next_step(d0, e0).unwrap();
                    assert(self@ =~= pair.0);
                    assert(action@ =~= pair.1);
                }
                action
            },
            (Phase::AwaitRun, DriverEvent::ToolchainMissing) => {
                let program = self.run_program();
                self.phase = Phase::Finished;
                let action = DriverAction::Fail {
                    error: ExecError::ToolchainNotFound { program: program },
                    release_workspace: self.acquired,
                };
                proof {
                    let pair = next_step(d0, e0).unwrap();
                    assert(self@ =~= pair.0);
                    assert(action@ =~= pair.1);
                }
                action
            },
            (Phase::AwaitBuild, DriverEvent::Invoked { outcome }) => {
                if outcome.exit_success {
                    let command = self.run_command();
                    self.phase = Phase::AwaitRun;
                    let action = DriverAction::Invoke { command: command };
                    proof {
                        let pair = next_step(d0, e0).unwrap();
                        assert(self@ =~= pair.0);
                        assert(action@ =~= pair.1);
                    }
                    action
                } else {
                    self.phase = Phase::Finished;
                    let action = DriverAction::Fail {
                        error: ExecError::CompileFailed { stderr: outcome.stderr },
                        release_workspace: self.acquired,
                    };
                    proof {
                        let pair = next_step(d0, e0).unwrap();
                        assert(self@ =~= pair.0);
                        assert(action@ =~= pair.1);
                    }
                    action
                }
            },
            (Phase::AwaitRun, DriverEvent::Invoked { outcome }) => {
                self.phase = Phase::Finished;
                if outcome.exit_success {
                    let action = DriverAction::Complete {
                        outcome: outcome,
                        release_workspace: self.acquired,
                    };
                    proof {
                        let pair = next_step(d0, e0).unwrap();
                        assert(self@ =~= pair.0);
                        assert(action@ =~= pair.1);
                    }
                    action
                } else {
                    let action = DriverAction::Fail {
                        error: ExecError::RunFailed { stderr: outcome.stderr },
                        release_workspace: self.acquired,
                    };
                    proof {
                        let pair = next_step(d0, e0).unwrap();
                        assert(self@ =~= pair.0);
                        assert(action@ =~= pair.1);
                    }
                    action
                }
            },
            _ => vstd::pervasive::unreached(),
        }
    }
}

/// Phases in which the driver owns a live workspace.
pub open spec fn holds_workspace_phase(p: Phase) -> bool {
    p == Phase::AwaitStaging || p == Phase::AwaitBuild || p == Phase::AwaitRun
}

/// The driver's workspace bookkeeping invariant: no workspace before the
/// host reported one, and one in every phase that works inside it.
pub open spec fn workspace_inv(d: DriverModel) -> bool {
    &&& (d.phase == Phase::AwaitWorkspace ==> !d.acquired)
    &&& (holds_workspace_phase(d.phase) ==> d.acquired)
}

/// Law: a request whose language the registry does not support fails with
/// `NotSupportedLanguage` at `begin`, before a driver — and therefore any
/// workspace, staged file or process — can exist.
pub proof fn lemma_unsupported_language_fails_first(req: RequestModel)
    requires
        !crate::registry::supported_language(req.language_id),
    ensures
        begin_model(req) == Err::<DriverModel, ErrorModel>(ErrorModel::NotSupportedLanguage),
{
}

/// Law: a named-entry request without a derivable entry name fails with
/// `EntryNameNotFound` at `begin`, before staging.
pub proof fn lemma_no_entry_name_fails_first(req: RequestModel)
    requires
        resolve_model(req.language_id) matches Some(p) && p.strategy
            == Strategy::CompiledNamedEntry,
        entry_name_model(req.source_text) is None,
    ensures
        begin_model(req) == Err::<DriverModel, ErrorModel>(ErrorModel::EntryNameNotFound),
{
}

/// Law: every driver `begin` hands out starts without a workspace and
/// satisfies the workspace invariant.
pub proof fn lemma_begin_establishes_inv(req: RequestModel)
    ensures
        begin_model(req) matches Ok(d) ==> !d.acquired && d.phase == Phase::AwaitWorkspace
            && workspace_inv(d),
{
}

/// Law: a named-entry driver exists only with a successfully derived name.
/// `begin` hands out a named-entry driver only when derivation succeeded,
/// and stages the source under exactly that name.
pub proof fn lemma_named_entry_needs_name(req: RequestModel)
    ensures
        begin_model(req) matches Ok(d) ==> (d.profile.strategy == Strategy::CompiledNamedEntry
            ==> entry_name_model(req.source_text) == Some(d.entry_name) && d.file_name
            == d.entry_name + "."@ + d.profile.file_extension),
{
}

/// Law: every transition preserves the workspace invariant.
pub proof fn lemma_step_preserves_inv(d: DriverModel, e: EventModel)
    requires
        workspace_inv(d),
        next_step(d, e) is Some,
    ensures
        workspace_inv(next_step(d, e).unwrap().0),
{
}

/// Law: a failed compile stage is terminal. The driver reports
/// `CompileFailed` carrying the compiler's stderr verbatim, the run command
/// is never issued, and the machine accepts no further event.
pub proof fn lemma_compile_failure_short_circuits(d: DriverModel, o: OutcomeModel)
    requires
        d.phase == Phase::AwaitBuild,
        !o.exit_success,
    ensures
        next_step(d, EventModel::Invoked { outcome: o }) == Some(
            (
                DriverModel { phase: Phase::Finished, ..d },
                ActionModel::Fail {
                    error: ErrorModel::CompileFailed { stderr: o.stderr },
                    release_workspace: d.acquired,
                },
            ),
        ),
{
}

/// Law: a finished driver accepts no event; nothing follows a terminal
/// action.
pub proof fn lemma_finished_accepts_nothing(d: DriverModel, e: EventModel)
    requires
        d.phase == Phase::Finished,
    ensures
        next_step(d, e) is None,
{
}

/// Law: cleanup happens on every exit path. Whenever a transition ends the
/// request — success or any failure — the terminal action orders the
/// workspace released exactly when one was acquired, so no scratch
/// directory outlives the request.
pub proof fn lemma_cleanup_on_every_exit(d: DriverModel, e: EventModel)
    requires
        workspace_inv(d),
        next_step(d, e) is Some,
    ensures
        next_step(d, e).unwrap().1 matches ActionModel::Complete { release_workspace, .. }
            ==> release_workspace == d.acquired,
        next_step(d, e).unwrap().1 matches ActionModel::Fail { release_workspace, .. }
            ==> release_workspace == d.acquired,
        holds_workspace_phase(d.phase) ==> (next_step(d, e).unwrap().1 matches ActionModel::Fail {
            release_workspace,
            ..
        } ==> release_workspace),
{
}

/// Appends a copy of every string in `extra` to `args`, in order.
fn append_clones(args: &mut Vec<String>, extra: &Vec<String>)
    ensures
        final(args).deep_view() == old(args).deep_view() + extra.deep_view(),
{
    let mut i: usize = 0;
    while i < extra.len()
        invariant
            i <= extra@.len(),
            args.deep_view() == old(args).deep_view() + extra.deep_view().take(i as int),
        decreases extra@.len() - i,
    {
        let ghost prev = args.deep_view();
        let cloned_arg = extra[i].clone();
        proof {
            assert(cloned_arg@ == extra.deep_view()[i as int]);
        }
        args.push(cloned_arg);
        i = i + 1;
        proof {
            assert(args@.len() == prev.len() + 1);
            assert(args.deep_view() =~~= prev.push(extra.deep_view()[i - 1]));
            assert(args.deep_view() =~~= old(args).deep_view() + extra.deep_view().take(i as int));
        }
    }
    proof {
        assert(args.deep_view() =~~= old(args).deep_view() + extra.deep_view());
    }
}

} // verus!
