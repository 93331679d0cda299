//! The per-host update pipeline.
//!
//! One pipeline drives one host through connect, authenticate, optional
//! before-command, repository check, repository sync, rebuild, optional
//! after-command — strictly in that order, stopping at the first failure.
//! The pipeline itself performs no I/O: it hands the driver an action, the
//! driver performs it on the SSH session and feeds the outcome back as a
//! [`StepEvent`]. Every transition is mirrored by [`step_model`], emits its
//! progress messages, and maintains the host's transcript.

use vstd::prelude::*;
use vstd::string::StringExecFns;

use crate::fmt::exit_code_string;
use crate::fmt::int_str;
use crate::text::find_char_from;
use crate::host::rebuild_identifier_of;
use crate::host::rebuild_identifier_spec;
use crate::host::token_address;
use crate::host::token_hostname;
use crate::host::HostTarget;
use crate::phase::PhaseView;
use crate::phase::ProgressUpdate;
use crate::phase::ProgressUpdateView;
use crate::phase::UpdatePhase;
use crate::stream::event_views;
use crate::text::contains_seq;
use crate::text::str_contains;

verus! {

/// Options of one fleet run, as the operator chose them.
#[derive(Debug, Clone)]
pub struct RunOptions {
    /// Rebuild into the boot configuration instead of switching now.
    pub use_boot: bool,
    /// Forward credential-agent access to the remote session.
    pub forward_agent: bool,
    /// An auxiliary command to run on each host, if any.
    pub command: Option<String>,
    /// Run the auxiliary command after the rebuild rather than before it.
    pub run_after: bool,
}

/// Model of [`RunOptions`].
pub struct RunOptionsView {
    pub use_boot: bool,
    pub forward_agent: bool,
    pub command: Option<Seq<char>>,
    pub run_after: bool,
}

impl View for RunOptions {
    type V = RunOptionsView;

    open spec fn view(&self) -> RunOptionsView {
        RunOptionsView {
            use_boot: self.use_boot,
            forward_agent: self.forward_agent,
            command: match self.command {
                Some(ref c) => Some(c@),
                None => None,
            },
            run_after: self.run_after,
        }
    }
}

/// Model of a [`HostPipeline`]: its identity, options, phase and transcript.
pub struct PipelineModel {
    pub hostname: Seq<char>,
    pub address: Seq<char>,
    pub use_boot: bool,
    pub forward_agent: bool,
    pub command: Option<Seq<char>>,
    pub run_after: bool,
    pub phase: PhaseView,
    pub transcript: Seq<char>,
}

/// `m` with a new phase and transcript; everything else is fixed for the
/// pipeline's life.
pub open spec fn with_state(m: PipelineModel, phase: PhaseView, transcript: Seq<char>) -> PipelineModel {
    PipelineModel {
        hostname: m.hostname,
        address: m.address,
        use_boot: m.use_boot,
        forward_agent: m.forward_agent,
        command: m.command,
        run_after: m.run_after,
        phase: phase,
        transcript: transcript,
    }
}

/// The auxiliary command, when one is configured.
pub open spec fn the_command(m: PipelineModel) -> Seq<char> {
    match m.command {
        Some(c) => c,
        None => Seq::empty(),
    }
}

/// One progress message.
pub open spec fn ev(h: Seq<char>, p: PhaseView, line: Option<Seq<char>>) -> ProgressUpdateView {
    ProgressUpdateView { hostname: h, phase: p, output_line: line }
}

/// The transcript section one remote command contributes: the command line
/// and its output.
pub open spec fn command_section(cmd: Seq<char>, out: Seq<char>) -> Seq<char> {
    "$ "@ + cmd + "\n"@ + out + "\n"@
}

/// The fixed remote command testing for the configuration repository.
pub open spec fn repo_check_command() -> Seq<char> {
    "test -d /etc/nixos/.git || echo 'No git repo found'"@
}

/// The fixed remote command syncing the configuration repository.
pub open spec fn repo_sync_command() -> Seq<char> {
    "cd /etc/nixos && git pull --verbose"@
}

/// The remote rebuild command for mode and rebuild identifier.
pub open spec fn rebuild_command_spec(use_boot: bool, id: Seq<char>) -> Seq<char> {
    "nixos-rebuild "@ + (if use_boot {
        "boot"@
    } else {
        "switch"@
    }) + " --flake \"/etc/nixos#"@ + id + "\" --no-write-lock-file"@
}

pub open spec fn invalid_token_msg() -> Seq<char> {
    "Invalid server info format"@
}

pub open spec fn auth_failed_msg() -> Seq<char> {
    "SSH authentication failed"@
}

pub open spec fn no_repo_msg() -> Seq<char> {
    "No git repository found in /etc/nixos"@
}

pub open spec fn before_failed_msg(code: int) -> Seq<char> {
    "Before-command failed with exit code: "@ + int_str(code)
}

pub open spec fn sync_failed_msg(code: int) -> Seq<char> {
    "Git pull failed with exit code: "@ + int_str(code)
}

pub open spec fn rebuild_failed_msg(code: int) -> Seq<char> {
    "nixos-rebuild failed with exit code: "@ + int_str(code)
}

pub open spec fn after_failed_msg(code: int) -> Seq<char> {
    "After-command failed with exit code: "@ + int_str(code)
}

/// What the driver feeds back after performing the pipeline's current action.
pub enum StepEvent {
    /// The transport opened and the session authenticated.
    Connected,
    /// The transport could not be opened (resolution, connect or handshake).
    ConnectFailed { error: String },
    /// Every authentication strategy failed; `log` collects the attempts.
    AuthFailed { log: String },
    /// The current remote command ran to completion.
    CommandFinished { output: String, exit_status: i32 },
    /// The current remote command could not be run at all.
    ExecFailed { error: String },
}

/// Model of a [`StepEvent`].
pub enum StepEventView {
    Connected,
    ConnectFailed { error: Seq<char> },
    AuthFailed { log: Seq<char> },
    CommandFinished { output: Seq<char>, exit_status: int },
    ExecFailed { error: Seq<char> },
}

impl View for StepEvent {
    type V = StepEventView;

    open spec fn view(&self) -> StepEventView {
        match self {
            StepEvent::Connected => StepEventView::Connected,
            StepEvent::ConnectFailed { error } => StepEventView::ConnectFailed { error: error@ },
            StepEvent::AuthFailed { log } => StepEventView::AuthFailed { log: log@ },
            StepEvent::CommandFinished { output, exit_status } => StepEventView::CommandFinished {
                output: output@,
                exit_status: *exit_status as int,
            },
            StepEvent::ExecFailed { error } => StepEventView::ExecFailed { error: error@ },
        }
    }
}

/// Entering the terminal failure phase: the reason becomes the phase, the
/// transcript is set, one failure message is emitted.
pub open spec fn fail_model(
    m: PipelineModel,
    reason: Seq<char>,
    transcript: Seq<char>,
    line: Option<Seq<char>>,
) -> (PipelineModel, Seq<ProgressUpdateView>) {
    (
        with_state(m, PhaseView::Failed { reason: reason }, transcript),
        seq![ev(m.hostname, PhaseView::Failed { reason: reason }, line)],
    )
}

/// The step after a successful connect and authentication: the
/// before-command when one is configured to run first, else the repository
/// check.
pub open spec fn after_connect_model(m: PipelineModel) -> (PipelineModel, Seq<ProgressUpdateView>) {
    if m.command is Some && !m.run_after {
        (
            with_state(
                m,
                PhaseView::RunningBeforeCommand,
                m.transcript + "=== Running before-command ===\n"@,
            ),
            seq![
                ev(
                    m.hostname,
                    PhaseView::RunningBeforeCommand,
                    Some("Running: "@ + the_command(m)),
                ),
            ],
        )
    } else {
        (
            with_state(m, PhaseView::CheckingRepo, m.transcript),
            seq![
                ev(
                    m.hostname,
                    PhaseView::CheckingRepo,
                    Some("Checking for git repository..."@),
                ),
            ],
        )
    }
}

/// The step after the rebuild succeeded: the after-command when one is
/// configured to run last, else terminal success.
pub open spec fn after_rebuild_model(
    m: PipelineModel,
    transcript: Seq<char>,
) -> (PipelineModel, Seq<ProgressUpdateView>) {
    if m.command is Some && m.run_after {
        (
            with_state(
                m,
                PhaseView::RunningAfterCommand,
                transcript + "=== Running after-command ===\n"@,
            ),
            seq![
                ev(
                    m.hostname,
                    PhaseView::RunningAfterCommand,
                    Some("Running: "@ + the_command(m)),
                ),
            ],
        )
    } else {
        (
            with_state(m, PhaseView::Success, transcript),
            seq![ev(m.hostname, PhaseView::Success, None)],
        )
    }
}

/// The pipeline's transition function: from a state and the outcome of its
/// current action to the next state and the progress messages emitted.
/// Terminal states are fixed points; an event that does not belong to the
/// current phase changes nothing.
pub open spec fn step_model(m: PipelineModel, e: StepEventView) -> (
    PipelineModel,
    Seq<ProgressUpdateView>,
) {
    if m.phase.is_terminal() {
        (m, Seq::empty())
    } else {
        match e {
            StepEventView::ExecFailed { error } => fail_model(
                m,
                error,
                m.transcript + error + "\n"@,
                None,
            ),
            StepEventView::Connected => if m.phase is Connecting {
                after_connect_model(m)
            } else {
                (m, Seq::empty())
            },
            StepEventView::ConnectFailed { error } => if m.phase is Connecting {
                fail_model(m, error, m.transcript + error, None)
            } else {
                (m, Seq::empty())
            },
            StepEventView::AuthFailed { log } => if m.phase is Connecting {
                fail_model(m, auth_failed_msg(), m.transcript + auth_failed_msg(), Some(log))
            } else {
                (m, Seq::empty())
            },
            StepEventView::CommandFinished { output, exit_status } => match m.phase {
                PhaseView::RunningBeforeCommand => {
                    let t = m.transcript + command_section(the_command(m), output);
                    if exit_status != 0 {
                        fail_model(
                            m,
                            before_failed_msg(exit_status),
                            t + before_failed_msg(exit_status) + "\n"@,
                            None,
                        )
                    } else {
                        (
                            with_state(m, PhaseView::CheckingRepo, t),
                            seq![
                                ev(
                                    m.hostname,
                                    PhaseView::CheckingRepo,
                                    Some("Checking for git repository..."@),
                                ),
                            ],
                        )
                    }
                },
                PhaseView::CheckingRepo => {
                    if contains_seq(output, "No git repo found"@) {
                        fail_model(m, no_repo_msg(), no_repo_msg(), None)
                    } else {
                        (
                            with_state(m, PhaseView::SyncingRepo, m.transcript),
                            seq![
                                ev(
                                    m.hostname,
                                    PhaseView::SyncingRepo,
                                    Some("Running git pull..."@),
                                ),
                            ],
                        )
                    }
                },
                PhaseView::SyncingRepo => {
                    let t = m.transcript + command_section(repo_sync_command(), output);
                    if exit_status != 0 {
                        fail_model(
                            m,
                            sync_failed_msg(exit_status),
                            t + sync_failed_msg(exit_status) + "\n"@,
                            None,
                        )
                    } else {
                        (
                            with_state(m, PhaseView::Rebuilding { detail: Seq::empty() }, t),
                            seq![
                                ev(
                                    m.hostname,
                                    PhaseView::Rebuilding { detail: Seq::empty() },
                                    Some("Starting system rebuild..."@),
                                ),
                            ],
                        )
                    }
                },
                PhaseView::Rebuilding { .. } => {
                    let t = m.transcript + command_section(
                        rebuild_command_spec(m.use_boot, rebuild_identifier_spec(m.hostname)),
                        output,
                    );
                    if exit_status != 0 {
                        fail_model(
                            m,
                            rebuild_failed_msg(exit_status),
                            t + rebuild_failed_msg(exit_status) + "\n"@,
                            None,
                        )
                    } else {
                        after_rebuild_model(m, t)
                    }
                },
                PhaseView::RunningAfterCommand => {
                    let t = m.transcript + command_section(the_command(m), output);
                    if exit_status != 0 {
                        fail_model(
                            m,
                            after_failed_msg(exit_status),
                            t + after_failed_msg(exit_status) + "\n"@,
                            None,
                        )
                    } else {
                        (
                            with_state(m, PhaseView::Success, t),
                            seq![ev(m.hostname, PhaseView::Success, None)],
                        )
                    }
                },
                _ => (m, Seq::empty()),
            },
        }
    }
}

/// What a fresh pipeline for `token` looks like, and the messages it emits at
/// once: a malformed token is a terminal per-host failure before any network
/// work; a well-formed one starts connecting.
pub open spec fn init_model(token: Seq<char>, options: RunOptionsView) -> (
    PipelineModel,
    Seq<ProgressUpdateView>,
) {
    if find_char_from(token, ':', 0) == token.len() {
        (
            PipelineModel {
                hostname: token,
                address: Seq::empty(),
                use_boot: options.use_boot,
                forward_agent: options.forward_agent,
                command: options.command,
                run_after: options.run_after,
                phase: PhaseView::Failed { reason: invalid_token_msg() },
                transcript: invalid_token_msg(),
            },
            seq![ev(token, PhaseView::Failed { reason: invalid_token_msg() }, None)],
        )
    } else {
        (
            PipelineModel {
                hostname: token_hostname(token),
                address: token_address(token),
                use_boot: options.use_boot,
                forward_agent: options.forward_agent,
                command: options.command,
                run_after: options.run_after,
                phase: PhaseView::Connecting,
                transcript: Seq::empty(),
            },
            seq![
                ev(
                    token_hostname(token),
                    PhaseView::Connecting,
                    Some("Connecting to "@ + token_address(token) + "..."@),
                ),
            ],
        )
    }
}

/// What the driver must do next for this pipeline.
pub enum PipelineAction {
    /// Open a transport to `address` on the SSH port, with the bounded
    /// connect timeout, and authenticate the session.
    Connect { address: String },
    /// Run `command` on the session. `streaming`: parse its output through a
    /// [`crate::stream::CommandStreamParser`] as it arrives; `pty`: under a
    /// pseudo-terminal with rebuild classification.
    RunCommand { command: String, streaming: bool, pty: bool },
    /// The pipeline is in a terminal phase; collect its result.
    Finished,
}

/// Model of a [`PipelineAction`].
pub enum ActionView {
    Connect { address: Seq<char> },
    RunCommand { command: Seq<char>, streaming: bool, pty: bool },
    Finished,
}

impl View for PipelineAction {
    type V = ActionView;

    open spec fn view(&self) -> ActionView {
        match self {
            PipelineAction::Connect { address } => ActionView::Connect { address: address@ },
            PipelineAction::RunCommand { command, streaming, pty } => ActionView::RunCommand {
                command: command@,
                streaming: *streaming,
                pty: *pty,
            },
            PipelineAction::Finished => ActionView::Finished,
        }
    }
}

/// The action each phase calls for.
pub open spec fn action_model(m: PipelineModel) -> ActionView {
    match m.phase {
        PhaseView::Connecting => ActionView::Connect { address: m.address },
        PhaseView::RunningBeforeCommand => ActionView::RunCommand {
            command: the_command(m),
            streaming: false,
            pty: false,
        },
        PhaseView::CheckingRepo => ActionView::RunCommand {
            command: repo_check_command(),
            streaming: false,
            pty: false,
        },
        PhaseView::SyncingRepo => ActionView::RunCommand {
            command: repo_sync_command(),
            streaming: true,
            pty: false,
        },
        PhaseView::Rebuilding { .. } => ActionView::RunCommand {
            command: rebuild_command_spec(m.use_boot, rebuild_identifier_spec(m.hostname)),
            streaming: true,
            pty: true,
        },
        PhaseView::RunningAfterCommand => ActionView::RunCommand {
            command: the_command(m),
            streaming: false,
            pty: false,
        },
        _ => ActionView::Finished,
    }
}

/// Model of an [`UpdateResult`].
pub struct UpdateResultView {
    pub hostname: Seq<char>,
    pub success: bool,
    pub transcript: Seq<char>,
}

/// The final outcome for one host, produced exactly once when its pipeline
/// reaches a terminal phase.
#[derive(Debug, Clone)]
pub struct UpdateResult {
    pub hostname: String,
    pub success: bool,
    pub transcript: String,
}

impl View for UpdateResult {
    type V = UpdateResultView;

    open spec fn view(&self) -> UpdateResultView {
        UpdateResultView {
            hostname: self.hostname@,
            success: self.success,
            transcript: self.transcript@,
        }
    }
}

/// The pipeline's state after a sequence of events.
pub open spec fn run_model(m: PipelineModel, es: Seq<StepEventView>) -> PipelineModel
    decreases es.len(),
{
    if es.len() == 0 {
        m
    } else {
        run_model(step_model(m, es.first()).0, es.skip(1))
    }
}

/// All progress messages emitted along a sequence of events.
pub open spec fn trace_model(m: PipelineModel, es: Seq<StepEventView>) -> Seq<ProgressUpdateView>
    decreases es.len(),
{
    if es.len() == 0 {
        Seq::empty()
    } else {
        step_model(m, es.first()).1 + trace_model(step_model(m, es.first()).0, es.skip(1))
    }
}

/// Terminal phases are fixed points: a pipeline that reached `Success` or
/// `Failed` never changes state and never emits again, whatever events arrive.
pub proof fn lemma_terminal_is_fixed(m: PipelineModel, es: Seq<StepEventView>)
    requires
        m.phase.is_terminal(),
    ensures
        run_model(m, es) == m,
        trace_model(m, es) == Seq::<ProgressUpdateView>::empty(),
    decreases es.len(),
{
    if es.len() > 0 {
        assert(step_model(m, es.first()).0 == m);
        lemma_terminal_is_fixed(m, es.skip(1));
        assert(step_model(m, es.first()).1 + trace_model(m, es.skip(1))
            =~= Seq::<ProgressUpdateView>::empty());
    }
}

/// In one pipeline's emission trace, a message carrying a terminal phase can
/// only be the last message.
pub open spec fn terminal_only_last(es: Seq<ProgressUpdateView>) -> bool {
    forall|i: int|
        0 <= i < es.len() && (#[trigger] es[i]).phase.is_terminal() ==> i == es.len() - 1
}

/// Each step emits at most one message, always for the pipeline's own host,
/// and a terminal message only in the step that makes the pipeline terminal.
pub proof fn lemma_step_model_events(m: PipelineModel, e: StepEventView)
    ensures
        step_model(m, e).1.len() <= 1,
        forall|i: int|
            0 <= i < step_model(m, e).1.len() ==> (#[trigger] step_model(m, e).1[i]).hostname
                == m.hostname,
        forall|i: int|
            0 <= i < step_model(m, e).1.len() && (#[trigger] step_model(
                m,
                e,
            ).1[i]).phase.is_terminal() ==> step_model(m, e).0.phase.is_terminal(),
        step_model(m, e).0.hostname == m.hostname,
        m.phase.is_terminal() ==> step_model(m, e).0 == m && step_model(m, e).1.len() == 0,
{
}

/// One pipeline's whole emission trace: every message names the pipeline's
/// host, and a message carrying `Success` or `Failed` is the last message the
/// pipeline ever emits.
pub proof fn lemma_trace_terminal_only_last(m: PipelineModel, es: Seq<StepEventView>)
    ensures
        terminal_only_last(trace_model(m, es)),
        forall|i: int|
            0 <= i < trace_model(m, es).len() ==> (#[trigger] trace_model(m, es)[i]).hostname
                == m.hostname,
    decreases es.len(),
{
    if es.len() > 0 {
        let m1 = step_model(m, es.first()).0;
        let batch = step_model(m, es.first()).1;
        let rest = trace_model(m1, es.skip(1));
        let t = trace_model(m, es);
        lemma_step_model_events(m, es.first());
        lemma_trace_terminal_only_last(m1, es.skip(1));
        assert forall|i: int|
            0 <= i < t.len() && (#[trigger] t[i]).phase.is_terminal() implies i == t.len()
            - 1 by {
            if i < batch.len() {
                assert(t[i] == batch[i]);
                assert(m1.phase.is_terminal());
                lemma_terminal_is_fixed(m1, es.skip(1));
                assert(t.len() == batch.len());
            } else {
                assert(t[i] == rest[i - batch.len()]);
            }
        }
        assert forall|i: int| 0 <= i < t.len() implies (#[trigger] t[i]).hostname
            == m.hostname by {
            if i < batch.len() {
                assert(t[i] == batch[i]);
            } else {
                assert(t[i] == rest[i - batch.len()]);
            }
        }
    }
}

/// Terminal success is only entered by a step that finished with exit status
/// zero: no event invents a successful update.
pub proof fn lemma_success_needs_zero_exit(m: PipelineModel, e: StepEventView)
    requires
        !(m.phase is Success),
    ensures
        step_model(m, e).0.phase is Success ==> (e matches StepEventView::CommandFinished {
            output,
            exit_status,
        } && exit_status == 0),
{
}

/// One pipeline's trace arrives at the aggregator as pipelines promise: no
/// message follows a terminal message for the same host.
pub proof fn lemma_trace_feeds_aggregator(m: PipelineModel, es: Seq<StepEventView>)
    ensures
        crate::aggregator::no_event_after_terminal(trace_model(m, es)),
{
    lemma_trace_terminal_only_last(m, es);
}

/// A host whose before-command exits non-zero is terminally failed at once:
/// whatever happens later it never reaches the repository check, the sync or
/// the rebuild, its result is failure, and its transcript holds the
/// before-command's section alone.
pub proof fn lemma_before_command_failure(
    token: Seq<char>,
    options: RunOptionsView,
    output: Seq<char>,
    code: int,
    later: Seq<StepEventView>,
)
    requires
        find_char_from(token, ':', 0) < token.len(),
        options.command is Some,
        !options.run_after,
        code != 0,
    ensures
        ({
            let m0 = init_model(token, options).0;
            let es = seq![
                StepEventView::Connected,
                StepEventView::CommandFinished { output: output, exit_status: code },
            ] + later;
            let mf = run_model(m0, es);
            &&& mf.phase == (PhaseView::Failed { reason: before_failed_msg(code) })
            &&& mf.transcript == "=== Running before-command ===\n"@ + command_section(
                the_command(m0),
                output,
            ) + before_failed_msg(code) + "\n"@
            &&& forall|p: int|
                0 <= p <= es.len() ==> {
                    let mp = #[trigger] run_model(m0, es.take(p));
                    !(mp.phase is CheckingRepo) && !(mp.phase is SyncingRepo) && !(mp.phase
                        is Rebuilding)
                }
        }),
{
    let m0 = init_model(token, options).0;
    let e1 = StepEventView::Connected;
    let e2 = StepEventView::CommandFinished { output: output, exit_status: code };
    let es = seq![e1, e2] + later;
    let m1 = step_model(m0, e1).0;
    let m2 = step_model(m1, e2).0;
    assert(m1.phase is RunningBeforeCommand);
    assert(m2.phase == (PhaseView::Failed { reason: before_failed_msg(code) }));
    assert(m2.transcript =~= "=== Running before-command ===\n"@ + command_section(
        the_command(m0),
        output,
    ) + before_failed_msg(code) + "\n"@);
    assert(es.first() == e1);
    assert(es.skip(1) =~= seq![e2] + later);
    assert((seq![e2] + later).first() == e2);
    assert((seq![e2] + later).skip(1) =~= later);
    lemma_terminal_is_fixed(m2, later);
    assert(run_model(m0, es) == run_model(m1, seq![e2] + later));
    assert(run_model(m1, seq![e2] + later) == run_model(m2, later));
    assert(run_model(m0, es) == m2);
    assert forall|p: int| 0 <= p <= es.len() implies {
        let mp = #[trigger] run_model(m0, es.take(p));
        !(mp.phase is CheckingRepo) && !(mp.phase is SyncingRepo) && !(mp.phase is Rebuilding)
    } by {
        if p == 0 {
            assert(es.take(0) =~= Seq::<StepEventView>::empty());
        } else if p == 1 {
            assert(es.take(1) =~= seq![e1]);
            assert(seq![e1].first() == e1);
            assert(seq![e1].skip(1) =~= Seq::<StepEventView>::empty());
            assert(run_model(m0, es.take(p)) == run_model(m1, Seq::<StepEventView>::empty()));
            assert(run_model(m0, es.take(p)) == m1);
        } else {
            assert(es.take(p) =~= seq![e1, e2] + later.take(p - 2));
            let tail = seq![e2] + later.take(p - 2);
            assert((seq![e1, e2] + later.take(p - 2)).first() == e1);
            assert((seq![e1, e2] + later.take(p - 2)).skip(1) =~= tail);
            assert(tail.first() == e2);
            assert(tail.skip(1) =~= later.take(p - 2));
            lemma_terminal_is_fixed(m2, later.take(p - 2));
            assert(run_model(m0, es.take(p)) == run_model(m1, tail));
            assert(run_model(m1, tail) == run_model(m2, later.take(p - 2)));
            assert(run_model(m0, es.take(p)) == m2);
        }
    }
}

/// A rebuild that exits zero followed by an after-command that exits
/// non-zero: the overall result is failure, yet the transcript keeps the
/// completed rebuild section ahead of the after-command's failure.
pub proof fn lemma_after_command_failure(
    m: PipelineModel,
    rebuild_out: Seq<char>,
    after_out: Seq<char>,
    code: int,
    later: Seq<StepEventView>,
)
    requires
        m.phase is Rebuilding,
        m.command is Some,
        m.run_after,
        code != 0,
    ensures
        ({
            let m1 = step_model(
                m,
                StepEventView::CommandFinished { output: rebuild_out, exit_status: 0 },
            ).0;
            let m2 = step_model(
                m1,
                StepEventView::CommandFinished { output: after_out, exit_status: code },
            ).0;
            &&& m1.phase is RunningAfterCommand
            &&& m2.phase == (PhaseView::Failed { reason: after_failed_msg(code) })
            &&& m2.transcript == m.transcript + command_section(
                rebuild_command_spec(m.use_boot, rebuild_identifier_spec(m.hostname)),
                rebuild_out,
            ) + "=== Running after-command ===\n"@ + command_section(the_command(m), after_out)
                + after_failed_msg(code) + "\n"@
            &&& run_model(m2, later) == m2
        }),
{
    let m1 = step_model(
        m,
        StepEventView::CommandFinished { output: rebuild_out, exit_status: 0 },
    ).0;
    let m2 = step_model(
        m1,
        StepEventView::CommandFinished { output: after_out, exit_status: code },
    ).0;
    assert(m2.transcript =~= m.transcript + command_section(
        rebuild_command_spec(m.use_boot, rebuild_identifier_spec(m.hostname)),
        rebuild_out,
    ) + "=== Running after-command ===\n"@ + command_section(the_command(m), after_out)
        + after_failed_msg(code) + "\n"@);
    lemma_terminal_is_fixed(m2, later);
}

/// Appends one remote command's section to a transcript.
fn append_section(t: &mut String, cmd: &str, out: &str)
    ensures
        final(t)@ == old(t)@ + command_section(cmd@, out@),
{
    t.append("$ ");
    t.append(cmd);
    t.append("\n");
    t.append(out);
    t.append("\n");
    proof {
        assert(t@ =~= old(t)@ + command_section(cmd@, out@));
    }
}

/// A failure reason of the form prefix plus decimal exit code.
fn failure_message(prefix: &str, code: i32) -> (r: String)
    ensures
        r@ == prefix@ + int_str(code as int),
{
    let mut m = prefix.to_owned();
    let c = exit_code_string(code);
    m.append(c.as_str());
    m
}

/// The state machine driving one host's update.
pub struct HostPipeline {
    hostname: String,
    address: String,
    use_boot: bool,
    forward_agent: bool,
    command: Option<String>,
    run_after: bool,
    phase: UpdatePhase,
    transcript: String,
}

impl View for HostPipeline {
    type V = PipelineModel;

    closed spec fn view(&self) -> PipelineModel {
        PipelineModel {
            hostname: self.hostname@,
            address: self.address@,
            use_boot: self.use_boot,
            forward_agent: self.forward_agent,
            command: match self.command {
                Some(ref c) => Some(c@),
                None => None,
            },
            run_after: self.run_after,
            phase: self.phase@,
            transcript: self.transcript@,
        }
    }
}

impl HostPipeline {
    /// Builds one progress message for this host.
    fn event_now(&self, phase: UpdatePhase, line: Option<String>) -> (r: ProgressUpdate)
        ensures
            r@ == ev(
                self@.hostname,
                phase@,
                match line {
                    Some(l) => Some(l@),
                    None => None,
                },
            ),
    {
        ProgressUpdate { hostname: self.hostname.clone(), phase: phase, output_line: line }
    }

    /// The auxiliary command, or an empty one when none is configured.
    fn command_now(&self) -> (r: String)
        ensures
            r@ == the_command(self@),
    {
        match &self.command {
            Some(c) => c.clone(),
            None => String::new(),
        }
    }

    /// Starts a pipeline for one host token, returning it together with the
    /// messages it emits at once. A token without `:` yields a pipeline that
    /// is already terminally failed, so no network work is ever attempted
    /// for it.
    pub fn new(token: &str, options: RunOptions) -> (r: (HostPipeline, Vec<ProgressUpdate>))
        ensures
            r.0@ == init_model(token@, options@).0,
            event_views(r.1@) == init_model(token@, options@).1,
    {
        match HostTarget::parse(token) {
            Some(target) => {
                let mut line = "Connecting to ".to_owned();
                line.append(target.address.as_str());
                line.append("...");
                let p = HostPipeline {
                    hostname: target.hostname,
                    address: target.address,
                    use_boot: options.use_boot,
                    forward_agent: options.forward_agent,
                    command: options.command,
                    run_after: options.run_after,
                    phase: UpdatePhase::Connecting,
                    transcript: String::new(),
                };
                let e = p.event_now(UpdatePhase::Connecting, Some(line));
                let events = vec![e];
                proof {
                    assert(line@ =~= "Connecting to "@ + token_address(token@) + "..."@);
                    assert(event_views(events@) =~= seq![e@]);
                }
                (p, events)
            },
            None => {
                let reason = "Invalid server info format".to_owned();
                let p = HostPipeline {
                    hostname: token.to_owned(),
                    address: String::new(),
                    use_boot: options.use_boot,
                    forward_agent: options.forward_agent,
                    command: options.command,
                    run_after: options.run_after,
                    phase: UpdatePhase::Failed { reason },
                    transcript: "Invalid server info format".to_owned(),
                };
                let e = p.event_now(
                    UpdatePhase::Failed { reason: "Invalid server info format".to_owned() },
                    None,
                );
                let events = vec![e];
                proof {
                    assert(event_views(events@) =~= seq![e@]);
                }
                (p, events)
            },
        }
    }

    /// Whether the pipeline has reached `Success` or `Failed`.
    pub fn is_finished(&self) -> (r: bool)
        ensures
            r == self@.phase.is_terminal(),
    {
        self.phase.is_terminal()
    }

    /// Whether the driver forwards credential-agent access on each channel.
    pub fn forward_agent(&self) -> (r: bool)
        ensures
            r == self@.forward_agent,
    {
        self.forward_agent
    }

    /// The hostname progress messages are attributed to.
    pub fn hostname(&self) -> (r: String)
        ensures
            r@ == self@.hostname,
    {
        self.hostname.clone()
    }

    /// What the driver must do next.
    pub fn next_action(&self) -> (r: PipelineAction)
        ensures
            r@ == action_model(self@),
    {
        match &self.phase {
            UpdatePhase::Connecting => PipelineAction::Connect { address: self.address.clone() },
            UpdatePhase::RunningBeforeCommand => PipelineAction::RunCommand {
                command: self.command_now(),
                streaming: false,
                pty: false,
            },
            UpdatePhase::CheckingRepo => PipelineAction::RunCommand {
                command: "test -d /etc/nixos/.git || echo 'No git repo found'".to_owned(),
                streaming: false,
                pty: false,
            },
            UpdatePhase::SyncingRepo => PipelineAction::RunCommand {
                command: "cd /etc/nixos && git pull --verbose".to_owned(),
                streaming: true,
                pty: false,
            },
            UpdatePhase::Rebuilding { .. } => PipelineAction::RunCommand {
                command: self.rebuild_command(),
                streaming: true,
                pty: true,
            },
            UpdatePhase::RunningAfterCommand => PipelineAction::RunCommand {
                command: self.command_now(),
                streaming: false,
                pty: false,
            },
            _ => PipelineAction::Finished,
        }
    }

    /// The rebuild command for this host and the chosen mode.
    fn rebuild_command(&self) -> (r: String)
        ensures
            r@ == rebuild_command_spec(self@.use_boot, rebuild_identifier_spec(self@.hostname)),
    {
        let id = rebuild_identifier_of(self.hostname.as_str());
        let mut c = "nixos-rebuild ".to_owned();
        if self.use_boot {
            c.append("boot");
        } else {
            c.append("switch");
        }
        c.append(" --flake \"/etc/nixos#");
        c.append(id.as_str());
        c.append("\" --no-write-lock-file");
        proof {
            assert(c@ =~= rebuild_command_spec(self@.use_boot, rebuild_identifier_spec(
                self@.hostname,
            )));
        }
        c
    }

    /// Enters the terminal failure phase with `reason`, leaving the
    /// transcript as it stands, and emits the failure message.
    fn fail_with(&mut self, reason: String, line: Option<String>) -> (events: Vec<ProgressUpdate>)
        ensures
            final(self)@ == with_state(
                old(self)@,
                PhaseView::Failed { reason: reason@ },
                old(self)@.transcript,
            ),
            event_views(events@) == seq![
                ev(
                    old(self)@.hostname,
                    PhaseView::Failed { reason: reason@ },
                    match line {
                        Some(l) => Some(l@),
                        None => None,
                    },
                ),
            ],
    {
        let e = self.event_now(UpdatePhase::Failed { reason: reason.clone() }, line);
        self.phase = UpdatePhase::Failed { reason };
        let events = vec![e];
        proof {
            assert(event_views(events@) =~= seq![e@]);
        }
        events
    }

    /// One message, emitted on entering `phase`.
    fn advance_to(&mut self, phase: UpdatePhase, line: Option<String>) -> (events: Vec<
        ProgressUpdate,
    >)
        ensures
            final(self)@ == with_state(old(self)@, phase@, old(self)@.transcript),
            event_views(events@) == seq![
                ev(
                    old(self)@.hostname,
                    phase@,
                    match line {
                        Some(l) => Some(l@),
                        None => None,
                    },
                ),
            ],
    {
        let e = self.event_now(phase.clone_phase(), line);
        self.phase = phase;
        let events = vec![e];
        proof {
            assert(event_views(events@) =~= seq![e@]);
        }
        events
    }

    /// The operator-facing line announcing the auxiliary command.
    fn running_line(&self) -> (r: String)
        ensures
            r@ == "Running: "@ + the_command(self@),
    {
        let c = self.command_now();
        let mut line = "Running: ".to_owned();
        line.append(c.as_str());
        line
    }

    /// Applies the outcome of the current action: moves to the next phase,
    /// extends the transcript, and returns the progress messages emitted —
    /// exactly as [`step_model`] says. A terminal pipeline ignores every
    /// event and emits nothing.
    pub fn apply_event(&mut self, event: StepEvent) -> (events: Vec<ProgressUpdate>)
        ensures
            final(self)@ == step_model(old(self)@, event@).0,
            event_views(events@) == step_model(old(self)@, event@).1,
    {
        if self.phase.is_terminal() {
            let events: Vec<ProgressUpdate> = Vec::new();
            proof {
                assert(event_views(events@) =~= Seq::<ProgressUpdateView>::empty());
            }
            return events;
        }
        match event {
            StepEvent::ExecFailed { error } => {
                self.transcript.append(error.as_str());
                self.transcript.append("\n");
                self.fail_with(error, None)
            },
            StepEvent::Connected => {
                if matches!(self.phase, UpdatePhase::Connecting) {
                    if self.command.is_some() && !self.run_after {
                        self.transcript.append("=== Running before-command ===\n");
                        let line = self.running_line();
                        self.advance_to(UpdatePhase::RunningBeforeCommand, Some(line))
                    } else {
                        self.advance_to(
                            UpdatePhase::CheckingRepo,
                            Some("Checking for git repository...".to_owned()),
                        )
                    }
                } else {
                    let events: Vec<ProgressUpdate> = Vec::new();
                    proof {
                        assert(event_views(events@) =~= Seq::<ProgressUpdateView>::empty());
                    }
                    events
                }
            },
            StepEvent::ConnectFailed { error } => {
                if matches!(self.phase, UpdatePhase::Connecting) {
                    self.transcript.append(error.as_str());
                    self.fail_with(error, None)
                } else {
                    let events: Vec<ProgressUpdate> = Vec::new();
                    proof {
                        assert(event_views(events@) =~= Seq::<ProgressUpdateView>::empty());
                    }
                    events
                }
            },
            StepEvent::AuthFailed { log } => {
                if matches!(self.phase, UpdatePhase::Connecting) {
                    self.transcript.append("SSH authentication failed");
                    self.fail_with("SSH authentication failed".to_owned(), Some(log))
                } else {
                    let events: Vec<ProgressUpdate> = Vec::new();
                    proof {
                        assert(event_views(events@) =~= Seq::<ProgressUpdateView>::empty());
                    }
                    events
                }
            },
            StepEvent::CommandFinished { output, exit_status } => {
                self.command_finished(output, exit_status)
            },
        }
    }

    /// The transition for a completed remote command, by current phase.
    fn command_finished(&mut self, output: String, exit_status: i32) -> (events: Vec<
        ProgressUpdate,
    >)
        requires
            !old(self)@.phase.is_terminal(),
        ensures
            final(self)@ == step_model(
                old(self)@,
                StepEventView::CommandFinished {
                    output: output@,
                    exit_status: exit_status as int,
                },
            ).0,
            event_views(events@) == step_model(
                old(self)@,
                StepEventView::CommandFinished {
                    output: output@,
                    exit_status: exit_status as int,
                },
            ).1,
    {
        if matches!(self.phase, UpdatePhase::RunningBeforeCommand) {
            let cmd = self.command_now();
            append_section(&mut self.transcript, cmd.as_str(), output.as_str());
            if exit_status != 0 {
                let msg = failure_message("Before-command failed with exit code: ", exit_status);
                self.transcript.append(msg.as_str());
                self.transcript.append("\n");
                self.fail_with(msg, None)
            } else {
                self.advance_to(
                    UpdatePhase::CheckingRepo,
                    Some("Checking for git repository...".to_owned()),
                )
            }
        } else if matches!(self.phase, UpdatePhase::CheckingRepo) {
            if str_contains(output.as_str(), "No git repo found") {
                self.transcript = "No git repository found in /etc/nixos".to_owned();
                self.fail_with("No git repository found in /etc/nixos".to_owned(), None)
            } else {
                self.advance_to(UpdatePhase::SyncingRepo, Some("Running git pull...".to_owned()))
            }
        } else if matches!(self.phase, UpdatePhase::SyncingRepo) {
            append_section(
                &mut self.transcript,
                "cd /etc/nixos && git pull --verbose",
                output.as_str(),
            );
            if exit_status != 0 {
                let msg = failure_message("Git pull failed with exit code: ", exit_status);
                self.transcript.append(msg.as_str());
                self.transcript.append("\n");
                self.fail_with(msg, None)
            } else {
                self.advance_to(
                    UpdatePhase::Rebuilding { detail: String::new() },
                    Some("Starting system rebuild...".to_owned()),
                )
            }
        } else if matches!(self.phase, UpdatePhase::Rebuilding { .. }) {
            let rc = self.rebuild_command();
            append_section(&mut self.transcript, rc.as_str(), output.as_str());
            if exit_status != 0 {
                let msg = failure_message("nixos-rebuild failed with exit code: ", exit_status);
                self.transcript.append(msg.as_str());
                self.transcript.append("\n");
                self.fail_with(msg, None)
            } else if self.command.is_some() && self.run_after {
                self.transcript.append("=== Running after-command ===\n");
                let line = self.running_line();
                self.advance_to(UpdatePhase::RunningAfterCommand, Some(line))
            } else {
                self.advance_to(UpdatePhase::Success, None)
            }
        } else if matches!(self.phase, UpdatePhase::RunningAfterCommand) {
            let cmd = self.command_now();
            append_section(&mut self.transcript, cmd.as_str(), output.as_str());
            if exit_status != 0 {
                let msg = failure_message("After-command failed with exit code: ", exit_status);
                self.transcript.append(msg.as_str());
                self.transcript.append("\n");
                self.fail_with(msg, None)
            } else {
                self.advance_to(UpdatePhase::Success, None)
            }
        } else {
            let events: Vec<ProgressUpdate> = Vec::new();
            proof {
                assert(event_views(events@) =~= Seq::<ProgressUpdateView>::empty());
            }
            events
        }
    }

    /// The final outcome of this host's run.
    pub fn result(&self) -> (r: UpdateResult)
        requires
            self@.phase.is_terminal(),
        ensures
            r@.hostname == self@.hostname,
            r@.success == (self@.phase is Success),
            r@.transcript == self@.transcript,
    {
        UpdateResult {
            hostname: self.hostname.clone(),
            success: matches!(self.phase, UpdatePhase::Success),
            transcript: self.transcript.clone(),
        }
    }
}

} // verus!
