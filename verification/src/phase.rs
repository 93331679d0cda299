//! The per-host update phases shown to the operator, and the progress
//! messages that carry them from a pipeline to the aggregator.

use vstd::prelude::*;
use vstd::string::StringExecFns;

verus! {

/// Mathematical model of an [`UpdatePhase`]: the same variants with string
/// payloads as character sequences.
pub enum PhaseView {
    Pending,
    Connecting,
    RunningBeforeCommand,
    CheckingRepo,
    SyncingRepo,
    Rebuilding { detail: Seq<char> },
    RunningAfterCommand,
    Success,
    Failed { reason: Seq<char> },
}

impl PhaseView {
    /// `Success` and `Failed` are the only phases a host never leaves.
    pub open spec fn is_terminal(self) -> bool {
        self is Success || self is Failed
    }
}

/// The coarse stage of one host's update pipeline. `Rebuilding` carries a
/// free-text detail refined as finer-grained signals arrive; `Failed` carries
/// the reason shown to the operator.
#[derive(Debug, Clone)]
pub enum UpdatePhase {
    Pending,
    Connecting,
    RunningBeforeCommand,
    CheckingRepo,
    SyncingRepo,
    Rebuilding { detail: String },
    RunningAfterCommand,
    Success,
    Failed { reason: String },
}

impl View for UpdatePhase {
    type V = PhaseView;

    open spec fn view(&self) -> PhaseView {
        match self {
            UpdatePhase::Pending => PhaseView::Pending,
            UpdatePhase::Connecting => PhaseView::Connecting,
            UpdatePhase::RunningBeforeCommand => PhaseView::RunningBeforeCommand,
            UpdatePhase::CheckingRepo => PhaseView::CheckingRepo,
            UpdatePhase::SyncingRepo => PhaseView::SyncingRepo,
            UpdatePhase::Rebuilding { detail } => PhaseView::Rebuilding { detail: detail@ },
            UpdatePhase::RunningAfterCommand => PhaseView::RunningAfterCommand,
            UpdatePhase::Success => PhaseView::Success,
            UpdatePhase::Failed { reason } => PhaseView::Failed { reason: reason@ },
        }
    }
}

/// Colour/severity class of a phase, for the renderer. Pending is neutral,
/// terminal success and failure are distinct, everything else is in progress.
#[derive(Debug, Clone, Copy, PartialEq, Eq, Structural)]
pub enum PhaseColor {
    Gray,
    Yellow,
    Green,
    Red,
}

pub open spec fn phase_color_spec(p: PhaseView) -> PhaseColor {
    match p {
        PhaseView::Pending => PhaseColor::Gray,
        PhaseView::Success => PhaseColor::Green,
        PhaseView::Failed { .. } => PhaseColor::Red,
        _ => PhaseColor::Yellow,
    }
}

/// The operator-facing label of a phase.
pub open spec fn phase_label_spec(p: PhaseView) -> Seq<char> {
    match p {
        PhaseView::Pending => "Pending"@,
        PhaseView::Connecting => "Connecting..."@,
        PhaseView::RunningBeforeCommand => "Running before-command..."@,
        PhaseView::CheckingRepo => "Checking git repo..."@,
        PhaseView::SyncingRepo => "Pulling git updates..."@,
        PhaseView::Rebuilding { detail } => if detail.len() == 0 {
            "Rebuilding system..."@
        } else {
            "Rebuilding: "@ + detail
        },
        PhaseView::RunningAfterCommand => "Running after-command..."@,
        PhaseView::Success => "\u{2705} Success"@,
        PhaseView::Failed { reason } => "\u{274c} Failed: "@ + reason,
    }
}

impl UpdatePhase {
    /// The label rendered beside the host in the progress table.
    pub fn to_string(&self) -> (r: String)
        ensures
            r@ == phase_label_spec(self@),
    {
        match self {
            UpdatePhase::Pending => "Pending".to_owned(),
            UpdatePhase::Connecting => "Connecting...".to_owned(),
            UpdatePhase::RunningBeforeCommand => "Running before-command...".to_owned(),
            UpdatePhase::CheckingRepo => "Checking git repo...".to_owned(),
            UpdatePhase::SyncingRepo => "Pulling git updates...".to_owned(),
            UpdatePhase::Rebuilding { detail } => {
                if detail.as_str().is_empty() {
                    "Rebuilding system...".to_owned()
                } else {
                    let mut s = "Rebuilding: ".to_owned();
                    s.append(detail.as_str());
                    s
                }
            },
            UpdatePhase::RunningAfterCommand => "Running after-command...".to_owned(),
            UpdatePhase::Success => "\u{2705} Success".to_owned(),
            UpdatePhase::Failed { reason } => {
                let mut s = "\u{274c} Failed: ".to_owned();
                s.append(reason.as_str());
                s
            },
        }
    }

    /// Severity class used by the renderer to colour the host's row.
    pub fn color(&self) -> (r: PhaseColor)
        ensures
            r == phase_color_spec(self@),
    {
        match self {
            UpdatePhase::Pending => PhaseColor::Gray,
            UpdatePhase::Success => PhaseColor::Green,
            UpdatePhase::Failed { .. } => PhaseColor::Red,
            _ => PhaseColor::Yellow,
        }
    }

    /// A copy of the phase, equal in the model.
    pub fn clone_phase(&self) -> (r: UpdatePhase)
        ensures
            r@ == self@,
    {
        match self {
            UpdatePhase::Pending => UpdatePhase::Pending,
            UpdatePhase::Connecting => UpdatePhase::Connecting,
            UpdatePhase::RunningBeforeCommand => UpdatePhase::RunningBeforeCommand,
            UpdatePhase::CheckingRepo => UpdatePhase::CheckingRepo,
            UpdatePhase::SyncingRepo => UpdatePhase::SyncingRepo,
            UpdatePhase::Rebuilding { detail } => UpdatePhase::Rebuilding {
                detail: detail.clone(),
            },
            UpdatePhase::RunningAfterCommand => UpdatePhase::RunningAfterCommand,
            UpdatePhase::Success => UpdatePhase::Success,
            UpdatePhase::Failed { reason } => UpdatePhase::Failed { reason: reason.clone() },
        }
    }

    /// Whether this phase is terminal: a host in it never changes phase again.
    pub fn is_terminal(&self) -> (r: bool)
        ensures
            r == self@.is_terminal(),
    {
        matches!(self, UpdatePhase::Success | UpdatePhase::Failed { .. })
    }
}

/// Model of a [`ProgressUpdate`].
pub struct ProgressUpdateView {
    pub hostname: Seq<char>,
    pub phase: PhaseView,
    pub output_line: Option<Seq<char>>,
}

/// One message from a pipeline to the aggregator: the host's new phase and,
/// optionally, one output line to append to its transcript.
#[derive(Debug, Clone)]
pub struct ProgressUpdate {
    pub hostname: String,
    pub phase: UpdatePhase,
    pub output_line: Option<String>,
}

impl View for ProgressUpdate {
    type V = ProgressUpdateView;

    open spec fn view(&self) -> ProgressUpdateView {
        ProgressUpdateView {
            hostname: self.hostname@,
            phase: self.phase@,
            output_line: match self.output_line {
                Some(ref l) => Some(l@),
                None => None,
            },
        }
    }
}

/// Model of a [`ServerProgress`].
pub struct ServerProgressView {
    pub phase: PhaseView,
    pub full_output: Seq<char>,
}

/// The aggregator's record for one host: its latest phase and the transcript
/// accumulated from its progress messages.
#[derive(Debug, Clone)]
pub struct ServerProgress {
    pub phase: UpdatePhase,
    pub full_output: String,
}

impl View for ServerProgress {
    type V = ServerProgressView;

    open spec fn view(&self) -> ServerProgressView {
        ServerProgressView { phase: self.phase@, full_output: self.full_output@ }
    }
}

impl ServerProgress {
    /// A fresh record: the host is pending with an empty transcript.
    pub fn new() -> (r: ServerProgress)
        ensures
            r@.phase == PhaseView::Pending,
            r@.full_output.len() == 0,
    {
        ServerProgress { phase: UpdatePhase::Pending, full_output: String::new() }
    }
}

} // verus!
