//! The authentication resolver for one SSH session.
//!
//! Credential sources are tried in a fixed order until one authenticates:
//! file-based private keys at the conventional paths, then automatic
//! credential-agent authentication, then every identity the agent offers,
//! one by one. The resolver performs no I/O: it hands the driver one attempt
//! at a time, consumes the outcome, reports each attempt as a
//! connecting-phase progress line, and collects every error so that a final
//! failure carries the whole diagnostic.

use vstd::prelude::*;
use vstd::string::StringExecFns;

use crate::fmt::count_string;
use crate::fmt::dec_digits;
use crate::phase::PhaseView;
use crate::phase::ProgressUpdate;
use crate::phase::ProgressUpdateView;
use crate::phase::UpdatePhase;
use crate::stream::event_views;

verus! {

/// How many conventional key paths are probed.
pub const KEY_PATH_COUNT: usize = 4;

/// Where the resolver stands: which credential source the next attempt uses.
#[derive(Debug, Clone, Copy, PartialEq, Eq, Structural)]
pub enum AuthStage {
    /// Asking whether key file `idx` exists.
    ProbingKeyFile { idx: usize },
    /// Authenticating with key file `idx`.
    TryingKeyFile { idx: usize },
    /// Automatic agent authentication.
    TryingAgentAuto,
    /// Connecting to the agent to enumerate its identities.
    ConnectingAgent,
    /// Authenticating with agent identity `idx`.
    TryingAgentIdentity { idx: usize },
    /// All strategies decided.
    Done { ok: bool },
}

/// What the driver must do next for the resolver.
pub enum AuthAction {
    /// Ask whether a private key file exists at `path`.
    ProbeKeyFile { path: String },
    /// Try public-key authentication with the key file at `path`.
    TryKeyFile { path: String },
    /// Try automatic agent authentication.
    TryAgentAuto,
    /// Connect to the agent and list its identities' comments.
    ConnectAgent,
    /// Try authentication with the agent identity at `index`.
    TryAgentIdentity { index: usize },
    /// The resolver has decided.
    Finished { ok: bool },
}

/// The outcome the driver feeds back.
pub enum AuthEvent {
    /// Whether the probed key file exists.
    KeyFileExists { exists: bool },
    /// One authentication attempt: whether the session is now authenticated,
    /// and the error text when the call failed.
    Attempt { authenticated: bool, error: Option<String> },
    /// The agent's identities, by comment, in the agent's order.
    AgentKeys { comments: Vec<String> },
    /// The agent could not be reached or listed.
    AgentUnavailable,
}

/// Model of an [`AuthEvent`].
pub enum AuthEventView {
    KeyFileExists { exists: bool },
    Attempt { authenticated: bool, error: Option<Seq<char>> },
    AgentKeys { comments: Seq<Seq<char>> },
    AgentUnavailable,
}

impl View for AuthEvent {
    type V = AuthEventView;

    open spec fn view(&self) -> AuthEventView {
        match self {
            AuthEvent::KeyFileExists { exists } => AuthEventView::KeyFileExists {
                exists: *exists,
            },
            AuthEvent::Attempt { authenticated, error } => AuthEventView::Attempt {
                authenticated: *authenticated,
                error: match error {
                    Some(e) => Some(e@),
                    None => None,
                },
            },
            AuthEvent::AgentKeys { comments } => AuthEventView::AgentKeys {
                comments: comments@.map_values(|c: String| c@),
            },
            AuthEvent::AgentUnavailable => AuthEventView::AgentUnavailable,
        }
    }
}

/// Model of an [`AuthResolver`].
pub struct AuthModel {
    pub hostname: Seq<char>,
    pub home: Seq<char>,
    pub stage: AuthStage,
    pub errors: Seq<Seq<char>>,
    pub comments: Seq<Seq<char>>,
}

/// The conventional key paths under the user's key directory, in priority
/// order.
pub open spec fn key_path_spec(home: Seq<char>, idx: int) -> Seq<char> {
    home + (if idx == 0 {
        "/.ssh/id_ed25519"@
    } else if idx == 1 {
        "/.ssh/id_rsa"@
    } else if idx == 2 {
        "/.ssh/id_ecdsa"@
    } else {
        "/.ssh/id_dsa"@
    })
}

/// One connecting-phase progress line.
pub open spec fn conn_ev(h: Seq<char>, line: Seq<char>) -> ProgressUpdateView {
    ProgressUpdateView { hostname: h, phase: PhaseView::Connecting, output_line: Some(line) }
}

pub open spec fn with_stage(m: AuthModel, stage: AuthStage) -> AuthModel {
    AuthModel {
        hostname: m.hostname,
        home: m.home,
        stage: stage,
        errors: m.errors,
        comments: m.comments,
    }
}

pub open spec fn push_error(m: AuthModel, err: Seq<char>) -> AuthModel {
    AuthModel {
        hostname: m.hostname,
        home: m.home,
        stage: m.stage,
        errors: m.errors.push(err),
        comments: m.comments,
    }
}

/// The line announcing one manual agent attempt.
pub open spec fn trying_line(comments: Seq<Seq<char>>, idx: int) -> Seq<char> {
    "  Trying key #"@ + dec_digits((idx + 1) as nat) + ": "@ + comments[idx]
}

/// Moving past key file `idx`: to the next path, or on to the agent when the
/// paths are exhausted.
pub open spec fn next_file_model(m: AuthModel, idx: int) -> (AuthModel, Seq<ProgressUpdateView>) {
    if idx + 1 < KEY_PATH_COUNT {
        (with_stage(m, AuthStage::ProbingKeyFile { idx: (idx + 1) as usize }), Seq::empty())
    } else {
        (
            with_stage(m, AuthStage::TryingAgentAuto),
            seq![conn_ev(m.hostname, "Trying SSH agent authentication..."@)],
        )
    }
}

/// The resolver's transition function: from a stage and the outcome of its
/// current attempt to the next stage, the updated error log, and the progress
/// lines reported.
pub open spec fn auth_step(m: AuthModel, e: AuthEventView) -> (AuthModel, Seq<ProgressUpdateView>) {
    match (m.stage, e) {
        (AuthStage::ProbingKeyFile { idx }, AuthEventView::KeyFileExists { exists }) => {
            if exists {
                (with_stage(m, AuthStage::TryingKeyFile { idx }), Seq::empty())
            } else {
                next_file_model(m, idx as int)
            }
        },
        (AuthStage::TryingKeyFile { idx }, AuthEventView::Attempt { authenticated, error }) => {
            if authenticated {
                (
                    with_stage(m, AuthStage::Done { ok: true }),
                    seq![
                        conn_ev(
                            m.hostname,
                            "\u{2713} Authenticated with key: "@ + key_path_spec(
                                m.home,
                                idx as int,
                            ),
                        ),
                    ],
                )
            } else {
                let m1 = match error {
                    Some(err) => push_error(
                        m,
                        "Key "@ + key_path_spec(m.home, idx as int) + ": "@ + err,
                    ),
                    None => m,
                };
                next_file_model(m1, idx as int)
            }
        },
        (AuthStage::TryingAgentAuto, AuthEventView::Attempt { authenticated, error }) => {
            if authenticated {
                (
                    with_stage(m, AuthStage::Done { ok: true }),
                    seq![conn_ev(m.hostname, "\u{2713} Authenticated via SSH agent"@)],
                )
            } else {
                let m1 = match error {
                    Some(err) => push_error(m, "SSH agent automatic: "@ + err),
                    None => m,
                };
                (
                    with_stage(m1, AuthStage::ConnectingAgent),
                    seq![conn_ev(m.hostname, "Trying manual agent key iteration..."@)],
                )
            }
        },
        (AuthStage::ConnectingAgent, AuthEventView::AgentKeys { comments }) => {
            let m1 = AuthModel {
                hostname: m.hostname,
                home: m.home,
                stage: m.stage,
                errors: m.errors,
                comments: comments,
            };
            let found = conn_ev(
                m.hostname,
                "Found "@ + dec_digits(comments.len() as nat) + " key(s) in agent"@,
            );
            if comments.len() > 0 {
                (
                    with_stage(m1, AuthStage::TryingAgentIdentity { idx: 0 }),
                    seq![found, conn_ev(m.hostname, trying_line(comments, 0))],
                )
            } else {
                (with_stage(m1, AuthStage::Done { ok: false }), seq![found])
            }
        },
        (AuthStage::ConnectingAgent, AuthEventView::AgentUnavailable) => {
            (with_stage(m, AuthStage::Done { ok: false }), Seq::empty())
        },
        (AuthStage::TryingAgentIdentity { idx }, AuthEventView::Attempt { authenticated, error }) => {
            if authenticated {
                (
                    with_stage(m, AuthStage::Done { ok: true }),
                    seq![
                        conn_ev(
                            m.hostname,
                            "\u{2713} Authenticated with agent key: "@ + m.comments[idx as int],
                        ),
                    ],
                )
            } else {
                let m1 = match error {
                    Some(err) => push_error(
                        m,
                        "Agent key '"@ + m.comments[idx as int] + "': "@ + err,
                    ),
                    None => m,
                };
                if idx + 1 < m.comments.len() {
                    (
                        with_stage(m1, AuthStage::TryingAgentIdentity { idx: (idx + 1) as usize }),
                        seq![conn_ev(m.hostname, trying_line(m.comments, idx + 1))],
                    )
                } else {
                    (with_stage(m1, AuthStage::Done { ok: false }), Seq::empty())
                }
            }
        },
        _ => (m, Seq::empty()),
    }
}

/// The resolver reports success only when an attempt authenticated the
/// session: no event invents credentials.
pub proof fn lemma_auth_success_needs_authentication(m: AuthModel, e: AuthEventView)
    requires
        !(m.stage is Done),
    ensures
        auth_step(m, e).0.stage == (AuthStage::Done { ok: true }) ==> (e
            matches AuthEventView::Attempt { authenticated, error } && authenticated),
{
}

/// The attempt log joined into one diagnostic block.
pub open spec fn join_lines(errors: Seq<Seq<char>>) -> Seq<char>
    decreases errors.len(),
{
    if errors.len() == 0 {
        Seq::empty()
    } else if errors.len() == 1 {
        errors[0]
    } else {
        join_lines(errors.drop_last()) + "\n"@ + errors.last()
    }
}

/// The diagnostic the pipeline reports when every strategy failed.
pub open spec fn failure_log_spec(hostname: Seq<char>, errors: Seq<Seq<char>>) -> Seq<char> {
    "Failed to authenticate with SSH for "@ + hostname + ".\n\nAttempted methods:\n"@ + join_lines(
        errors,
    )
}

/// Tries credential sources in a fixed order and reports every attempt.
pub struct AuthResolver {
    hostname: String,
    home: String,
    stage: AuthStage,
    errors: Vec<String>,
    comments: Vec<String>,
}

impl View for AuthResolver {
    type V = AuthModel;

    closed spec fn view(&self) -> AuthModel {
        AuthModel {
            hostname: self.hostname@,
            home: self.home@,
            stage: self.stage,
            errors: self.errors@.map_values(|e: String| e@),
            comments: self.comments@.map_values(|c: String| c@),
        }
    }
}

impl AuthResolver {
    /// Key-file indices stay within the fixed paths; indices into agent
    /// identities stay within what the agent listed.
    pub open spec fn wf(&self) -> bool {
        match self@.stage {
            AuthStage::ProbingKeyFile { idx } => idx < KEY_PATH_COUNT,
            AuthStage::TryingKeyFile { idx } => idx < KEY_PATH_COUNT,
            AuthStage::TryingAgentIdentity { idx } => idx < self@.comments.len(),
            _ => true,
        }
    }

    /// Starts resolving for one host; the first strategy is the key files,
    /// under the given home directory.
    pub fn new(hostname: String, home: String) -> (r: (AuthResolver, Vec<ProgressUpdate>))
        ensures
            r.0.wf(),
            r.0@.hostname == hostname@,
            r.0@.home == home@,
            r.0@.stage == (AuthStage::ProbingKeyFile { idx: 0 }),
            r.0@.errors == Seq::<Seq<char>>::empty(),
            event_views(r.1@) == seq![
                conn_ev(hostname@, "Trying file-based SSH keys..."@),
            ],
    {
        let r = AuthResolver {
            hostname: hostname.clone(),
            home,
            stage: AuthStage::ProbingKeyFile { idx: 0 },
            errors: Vec::new(),
            comments: Vec::new(),
        };
        let e = ProgressUpdate {
            hostname,
            phase: UpdatePhase::Connecting,
            output_line: Some("Trying file-based SSH keys...".to_owned()),
        };
        let events = vec![e];
        proof {
            assert(r@.errors =~= Seq::<Seq<char>>::empty());
            assert(event_views(events@) =~= seq![e@]);
        }
        (r, events)
    }

    /// The key path probed or tried at `idx`.
    fn key_path(&self, idx: usize) -> (r: String)
        requires
            idx < KEY_PATH_COUNT,
        ensures
            r@ == key_path_spec(self@.home, idx as int),
    {
        let mut p = self.home.clone();
        if idx == 0 {
            p.append("/.ssh/id_ed25519");
        } else if idx == 1 {
            p.append("/.ssh/id_rsa");
        } else if idx == 2 {
            p.append("/.ssh/id_ecdsa");
        } else {
            p.append("/.ssh/id_dsa");
        }
        p
    }

    /// One connecting-phase progress line for this host.
    fn line_event(&self, line: String) -> (r: ProgressUpdate)
        ensures
            r@ == conn_ev(self@.hostname, line@),
    {
        ProgressUpdate {
            hostname: self.hostname.clone(),
            phase: UpdatePhase::Connecting,
            output_line: Some(line),
        }
    }

    /// The line announcing the manual attempt at `idx`.
    fn trying_line_now(&self, idx: usize) -> (r: String)
        requires
            idx < self@.comments.len(),
        ensures
            r@ == trying_line(self@.comments, idx as int),
    {
        let n = self.comments.len();
        let mut line = "  Trying key #".to_owned();
        let num = count_string(idx + 1);
        line.append(num.as_str());
        line.append(": ");
        line.append(self.comments[idx].as_str());
        proof {
            assert(line@ =~= trying_line(self@.comments, idx as int));
        }
        line
    }

    /// What the driver must do next.
    pub fn next_action(&self) -> (r: AuthAction)
        requires
            self.wf(),
        ensures
            match r {
                AuthAction::ProbeKeyFile { path } => self@.stage matches AuthStage::ProbingKeyFile {
                    idx,
                } && path@ == key_path_spec(self@.home, idx as int),
                AuthAction::TryKeyFile { path } => self@.stage matches AuthStage::TryingKeyFile {
                    idx,
                } && path@ == key_path_spec(self@.home, idx as int),
                AuthAction::TryAgentAuto => self@.stage is TryingAgentAuto,
                AuthAction::ConnectAgent => self@.stage is ConnectingAgent,
                AuthAction::TryAgentIdentity { index } => self@.stage == (
                AuthStage::TryingAgentIdentity { idx: index }) && index < self@.comments.len(),
                AuthAction::Finished { ok } => self@.stage == (AuthStage::Done { ok }),
            },
    {
        match self.stage {
            AuthStage::ProbingKeyFile { idx } => AuthAction::ProbeKeyFile {
                path: self.key_path(idx),
            },
            AuthStage::TryingKeyFile { idx } => AuthAction::TryKeyFile {
                path: self.key_path(idx),
            },
            AuthStage::TryingAgentAuto => AuthAction::TryAgentAuto,
            AuthStage::ConnectingAgent => AuthAction::ConnectAgent,
            AuthStage::TryingAgentIdentity { idx } => AuthAction::TryAgentIdentity { index: idx },
            AuthStage::Done { ok } => AuthAction::Finished { ok },
        }
    }

    /// Whether the resolver has decided, and how.
    pub fn outcome(&self) -> (r: Option<bool>)
        ensures
            match r {
                Some(ok) => self@.stage == (AuthStage::Done { ok }),
                None => !(self@.stage is Done),
            },
    {
        match self.stage {
            AuthStage::Done { ok } => Some(ok),
            _ => None,
        }
    }

    /// The diagnostic carried by the final failure: the host and every
    /// attempt's error.
    pub fn failure_log(&self) -> (r: String)
        ensures
            r@ == failure_log_spec(self@.hostname, self@.errors),
    {
        let mut log = "Failed to authenticate with SSH for ".to_owned();
        log.append(self.hostname.as_str());
        log.append(".\n\nAttempted methods:\n");
        let n = self.errors.len();
        let mut i: usize = 0;
        let mut joined = String::new();
        while i < n
            invariant
                0 <= i <= n,
                n == self.errors@.len(),
                joined@ == join_lines(self@.errors.take(i as int)),
            decreases n - i,
        {
            if i > 0 {
                joined.append("\n");
            }
            joined.append(self.errors[i].as_str());
            proof {
                let evs = self@.errors;
                assert(evs.take(i + 1).drop_last() =~= evs.take(i as int));
                assert(evs.take(i + 1).last() == evs[i as int]);
                if i == 0 {
                    assert(evs.take(1) =~= seq![evs[0]]);
                    assert(joined@ =~= join_lines(evs.take(1)));
                } else {
                    assert(joined@ =~= join_lines(evs.take(i as int)) + "\n"@ + evs[i as int]);
                }
            }
            i = i + 1;
        }
        log.append(joined.as_str());
        proof {
            assert(self@.errors.take(n as int) =~= self@.errors);
            assert(log@ =~= failure_log_spec(self@.hostname, self@.errors));
        }
        log
    }

    /// Applies the outcome of the current attempt, exactly as [`auth_step`]
    /// says, and returns the progress lines to report.
    pub fn apply_event(&mut self, event: AuthEvent) -> (events: Vec<ProgressUpdate>)
        requires
            old(self).wf(),
        ensures
            final(self).wf(),
            final(self)@ == auth_step(old(self)@, event@).0,
            event_views(events@) == auth_step(old(self)@, event@).1,
    {
        match event {
            AuthEvent::KeyFileExists { exists } => {
                if matches!(self.stage, AuthStage::ProbingKeyFile { .. }) {
                    let idx = match self.stage {
                        AuthStage::ProbingKeyFile { idx } => idx,
                        _ => 0,
                    };
                    if exists {
                        self.stage = AuthStage::TryingKeyFile { idx };
                        self.no_events()
                    } else {
                        self.advance_file(idx)
                    }
                } else {
                    self.no_events()
                }
            },
            AuthEvent::Attempt { authenticated, error } => {
                self.apply_attempt(authenticated, error)
            },
            AuthEvent::AgentKeys { comments } => {
                if matches!(self.stage, AuthStage::ConnectingAgent) {
                    let n = comments.len();
                    self.comments = comments;
                    let mut line = "Found ".to_owned();
                    let num = count_string(n);
                    line.append(num.as_str());
                    line.append(" key(s) in agent");
                    proof {
                        assert(line@ =~= "Found "@ + dec_digits(n as nat) + " key(s) in agent"@);
                    }
                    let found = self.line_event(line);
                    if n > 0 {
                        self.stage = AuthStage::TryingAgentIdentity { idx: 0 };
                        let trying = self.line_event(self.trying_line_now(0));
                        let events = vec![found, trying];
                        proof {
                            assert(event_views(events@) =~= seq![found@, trying@]);
                        }
                        events
                    } else {
                        self.stage = AuthStage::Done { ok: false };
                        let events = vec![found];
                        proof {
                            assert(event_views(events@) =~= seq![found@]);
                        }
                        events
                    }
                } else {
                    self.no_events()
                }
            },
            AuthEvent::AgentUnavailable => {
                if matches!(self.stage, AuthStage::ConnectingAgent) {
                    self.stage = AuthStage::Done { ok: false };
                }
                self.no_events()
            },
        }
    }

    /// An empty batch of progress lines.
    fn no_events(&self) -> (events: Vec<ProgressUpdate>)
        ensures
            event_views(events@) == Seq::<ProgressUpdateView>::empty(),
    {
        let events: Vec<ProgressUpdate> = Vec::new();
        proof {
            assert(event_views(events@) =~= Seq::<ProgressUpdateView>::empty());
        }
        events
    }

    /// Moves past key file `idx`.
    fn advance_file(&mut self, idx: usize) -> (events: Vec<ProgressUpdate>)
        requires
            idx < KEY_PATH_COUNT,
        ensures
            final(self)@ == next_file_model(old(self)@, idx as int).0,
            event_views(events@) == next_file_model(old(self)@, idx as int).1,
            final(self).wf(),
    {
        if idx + 1 < KEY_PATH_COUNT {
            self.stage = AuthStage::ProbingKeyFile { idx: idx + 1 };
            self.no_events()
        } else {
            self.stage = AuthStage::TryingAgentAuto;
            let e = self.line_event("Trying SSH agent authentication...".to_owned());
            let events = vec![e];
            proof {
                assert(event_views(events@) =~= seq![e@]);
            }
            events
        }
    }

    /// Applies one authentication attempt's outcome.
    fn apply_attempt(&mut self, authenticated: bool, error: Option<String>) -> (events: Vec<
        ProgressUpdate,
    >)
        requires
            old(self).wf(),
        ensures
            final(self).wf(),
            final(self)@ == auth_step(
                old(self)@,
                AuthEventView::Attempt {
                    authenticated,
                    error: match error {
                        Some(ref e) => Some(e@),
                        None => None,
                    },
                },
            ).0,
            event_views(events@) == auth_step(
                old(self)@,
                AuthEventView::Attempt {
                    authenticated,
                    error: match error {
                        Some(ref e) => Some(e@),
                        None => None,
                    },
                },
            ).1,
    {
        if matches!(self.stage, AuthStage::TryingKeyFile { .. }) {
            let idx = match self.stage {
                AuthStage::TryingKeyFile { idx } => idx,
                _ => 0,
            };
            if authenticated {
                self.stage = AuthStage::Done { ok: true };
                let mut line = "\u{2713} Authenticated with key: ".to_owned();
                let path = self.key_path(idx);
                line.append(path.as_str());
                let e = self.line_event(line);
                let events = vec![e];
                proof {
                    assert(event_views(events@) =~= seq![e@]);
                }
                events
            } else {
                if let Some(err) = error {
                    let mut msg = "Key ".to_owned();
                    let path = self.key_path(idx);
                    msg.append(path.as_str());
                    msg.append(": ");
                    msg.append(err.as_str());
                    let ghost before = self@.errors;
                    self.errors.push(msg);
                    proof {
                        assert(self@.errors =~= before.push(
                            "Key "@ + key_path_spec(self@.home, idx as int) + ": "@ + err@,
                        ));
                    }
                }
                self.advance_file(idx)
            }
        } else if matches!(self.stage, AuthStage::TryingAgentAuto) {
            if authenticated {
                self.stage = AuthStage::Done { ok: true };
                let e = self.line_event("\u{2713} Authenticated via SSH agent".to_owned());
                let events = vec![e];
                proof {
                    assert(event_views(events@) =~= seq![e@]);
                }
                events
            } else {
                if let Some(err) = error {
                    let mut msg = "SSH agent automatic: ".to_owned();
                    msg.append(err.as_str());
                    let ghost before = self@.errors;
                    self.errors.push(msg);
                    proof {
                        assert(self@.errors =~= before.push("SSH agent automatic: "@ + err@));
                    }
                }
                self.stage = AuthStage::ConnectingAgent;
                let e = self.line_event("Trying manual agent key iteration...".to_owned());
                let events = vec![e];
                proof {
                    assert(event_views(events@) =~= seq![e@]);
                }
                events
            }
        } else if matches!(self.stage, AuthStage::TryingAgentIdentity { .. }) {
            let idx = match self.stage {
                AuthStage::TryingAgentIdentity { idx } => idx,
                _ => 0,
            };
            if authenticated {
                self.stage = AuthStage::Done { ok: true };
                let mut line = "\u{2713} Authenticated with agent key: ".to_owned();
                line.append(self.comments[idx].as_str());
                let e = self.line_event(line);
                let events = vec![e];
                proof {
                    assert(event_views(events@) =~= seq![e@]);
                }
                events
            } else {
                if let Some(err) = error {
                    let mut msg = "Agent key '".to_owned();
                    msg.append(self.comments[idx].as_str());
                    msg.append("': ");
                    msg.append(err.as_str());
                    let ghost before = self@.errors;
                    self.errors.push(msg);
                    proof {
                        assert(self@.errors =~= before.push(
                            "Agent key '"@ + self@.comments[idx as int] + "': "@ + err@,
                        ));
                    }
                }
                let total = self.comments.len();
                if idx + 1 < total {
                    self.stage = AuthStage::TryingAgentIdentity { idx: idx + 1 };
                    let trying = self.line_event(self.trying_line_now(idx + 1));
                    let events = vec![trying];
                    proof {
                        assert(event_views(events@) =~= seq![trying@]);
                    }
                    events
                } else {
                    self.stage = AuthStage::Done { ok: false };
                    self.no_events()
                }
            }
        } else {
            self.no_events()
        }
    }
}

} // verus!
