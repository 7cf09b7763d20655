//! The configuration file's protocols, as state machines that the program
//! drives: it performs each action and hands back what came of it.
//!
//! Bootstrap: ensure the directories, and write the default configuration
//! when none exists. Safe edit: snapshot the file, let the editor run, read
//! it again and validate it; a file that does not parse is restored from the
//! snapshot, so the file never stays in a state that fails to parse. Show:
//! read and parse the file, if it is there.
use vstd::prelude::*;
use crate::cli::{ConfigCommand, ConfigSubcommand};

verus! {

/// What the program reports back after performing an action.
#[derive(Debug)]
pub enum SessionEvent {
    /// The directories exist (bootstrap), or presence was checked (show).
    Located { config_exists: bool },
    /// The requested write finished.
    Written,
    /// The file was read; its text.
    ReadDone(String),
    /// The editor exited normally.
    EditorExited,
    /// The editor failed to launch or exited abnormally; the cause.
    EditorFailed(String),
    /// The text given for validation parses as a configuration.
    Parsed,
    /// It does not; the parser's message.
    ParseFailed(String),
    /// The requested file operation failed; the cause.
    IoFailed(String),
}

/// What the program is asked to do next.
#[derive(Debug)]
pub enum SessionAction {
    /// Create the tool's directories where missing, then report whether the
    /// configuration file exists.
    EnsureDirectories,
    /// Report whether the configuration file exists.
    LocateConfig,
    /// Write the default configuration to the file.
    WriteDefaultConfig,
    /// Read the file's text.
    ReadConfig,
    /// Open the file in the external editor and wait for it to exit.
    LaunchEditor,
    /// Parse this text as a configuration.
    ValidateConfig(String),
    /// Overwrite the file with exactly this text.
    RestoreConfig(String),
    /// Nothing more: the session has ended.
    Finish,
}

/// Why a session stopped without reaching its normal end.
#[derive(Debug)]
pub enum SessionFailure {
    /// The directories could not be created.
    Provision(String),
    /// The default configuration could not be written.
    WriteDefault(String),
    /// The file could not be read before editing; there is nothing to restore.
    Snapshot(String),
    /// The editor failed.
    Editor(String),
    /// Restoring the snapshot failed.
    Restore(String),
    /// The file could not be read for showing.
    Read(String),
    /// The file exists but does not parse.
    Corrupt(String),
    /// An event came that the current state does not expect.
    OutOfOrder,
}

/// Bootstrap of the tool's directories and configuration file.
#[derive(Debug)]
pub enum InitState {
    Provisioning,
    WritingDefault,
    Ready,
    Failed(SessionFailure),
}

/// The safe-edit session.
#[derive(Debug)]
pub enum EditState {
    Snapshotting,
    Editing { before: String },
    Reloading { before: String },
    Validating { before: String },
    RollingBack { reason: String },
    /// The edit was accepted and left in place.
    Committed,
    /// The edit was rejected, for this reason, and the snapshot restored.
    RolledBack { reason: String },
    Failed(SessionFailure),
}

/// Showing the configuration.
#[derive(Debug)]
pub enum ShowState {
    Locating,
    Reading,
    Parsing,
    /// The file parsed; the program shows what it parsed.
    Shown,
    /// There is no file yet: a warning, not an error.
    Missing,
    Failed(SessionFailure),
}

pub open spec fn init_next(s: InitState, e: SessionEvent) -> (InitState, SessionAction) {
    match (s, e) {
        (InitState::Provisioning, SessionEvent::Located { config_exists }) =>
            if config_exists {
                (InitState::Ready, SessionAction::Finish)
            } else {
                (InitState::WritingDefault, SessionAction::WriteDefaultConfig)
            },
        (InitState::Provisioning, SessionEvent::IoFailed(m)) =>
            (InitState::Failed(SessionFailure::Provision(m)), SessionAction::Finish),
        (InitState::WritingDefault, SessionEvent::Written) => (InitState::Ready, SessionAction::Finish),
        (InitState::WritingDefault, SessionEvent::IoFailed(m)) =>
            (InitState::Failed(SessionFailure::WriteDefault(m)), SessionAction::Finish),
        (InitState::Ready, _) => (InitState::Ready, SessionAction::Finish),
        (InitState::Failed(f), _) => (InitState::Failed(f), SessionAction::Finish),
        _ => (InitState::Failed(SessionFailure::OutOfOrder), SessionAction::Finish),
    }
}

pub open spec fn edit_next(s: EditState, e: SessionEvent) -> (EditState, SessionAction) {
    match (s, e) {
        (EditState::Snapshotting, SessionEvent::ReadDone(t)) =>
            (EditState::Editing { before: t }, SessionAction::LaunchEditor),
        (EditState::Snapshotting, SessionEvent::IoFailed(m)) =>
            (EditState::Failed(SessionFailure::Snapshot(m)), SessionAction::Finish),
        (EditState::Editing { before }, SessionEvent::EditorExited) =>
            (EditState::Reloading { before }, SessionAction::ReadConfig),
        (EditState::Editing { before }, SessionEvent::EditorFailed(m)) =>
            (EditState::Failed(SessionFailure::Editor(m)), SessionAction::Finish),
        (EditState::Reloading { before }, SessionEvent::ReadDone(after)) =>
            (EditState::Validating { before }, SessionAction::ValidateConfig(after)),
        (EditState::Reloading { before }, SessionEvent::IoFailed(m)) =>
            (EditState::RollingBack { reason: m }, SessionAction::RestoreConfig(before)),
        (EditState::Validating { before }, SessionEvent::Parsed) =>
            (EditState::Committed, SessionAction::Finish),
        (EditState::Validating { before }, SessionEvent::ParseFailed(m)) =>
            (EditState::RollingBack { reason: m }, SessionAction::RestoreConfig(before)),
        (EditState::RollingBack { reason }, SessionEvent::Written) =>
            (EditState::RolledBack { reason }, SessionAction::Finish),
        (EditState::RollingBack { reason }, SessionEvent::IoFailed(m)) =>
            (EditState::Failed(SessionFailure::Restore(m)), SessionAction::Finish),
        (EditState::Committed, _) => (EditState::Committed, SessionAction::Finish),
        (EditState::RolledBack { reason }, _) => (EditState::RolledBack { reason }, SessionAction::Finish),
        (EditState::Failed(f), _) => (EditState::Failed(f), SessionAction::Finish),
        _ => (EditState::Failed(SessionFailure::OutOfOrder), SessionAction::Finish),
    }
}

pub open spec fn show_next(s: ShowState, e: SessionEvent) -> (ShowState, SessionAction) {
    match (s, e) {
        (ShowState::Locating, SessionEvent::Located { config_exists }) =>
            if config_exists {
                (ShowState::Reading, SessionAction::ReadConfig)
            } else {
                (ShowState::Missing, SessionAction::Finish)
            },
        (ShowState::Reading, SessionEvent::ReadDone(t)) => (ShowState::Parsing, SessionAction::ValidateConfig(t)),
        (ShowState::Reading, SessionEvent::IoFailed(m)) =>
            (ShowState::Failed(SessionFailure::Read(m)), SessionAction::Finish),
        (ShowState::Parsing, SessionEvent::Parsed) => (ShowState::Shown, SessionAction::Finish),
        (ShowState::Parsing, SessionEvent::ParseFailed(m)) =>
            (ShowState::Failed(SessionFailure::Corrupt(m)), SessionAction::Finish),
        (ShowState::Shown, _) => (ShowState::Shown, SessionAction::Finish),
        (ShowState::Missing, _) => (ShowState::Missing, SessionAction::Finish),
        (ShowState::Failed(f), _) => (ShowState::Failed(f), SessionAction::Finish),
        _ => (ShowState::Failed(SessionFailure::OutOfOrder), SessionAction::Finish),
    }
}

impl InitState {
    /// The first state and action of a bootstrap.
    pub fn start() -> (r: (InitState, SessionAction))
        ensures
            r == (InitState::Provisioning, SessionAction::EnsureDirectories),
    {
        (InitState::Provisioning, SessionAction::EnsureDirectories)
    }

    /// The next state and action, given what came of the last action.
    pub fn step(self, e: SessionEvent) -> (r: (InitState, SessionAction))
        ensures
            r == init_next(self, e),
    {
        match (self, e) {
            (InitState::Provisioning, SessionEvent::Located { config_exists }) =>
                if config_exists {
                    (InitState::Ready, SessionAction::Finish)
                } else {
                    (InitState::WritingDefault, SessionAction::WriteDefaultConfig)
                },
            (InitState::Provisioning, SessionEvent::IoFailed(m)) =>
                (InitState::Failed(SessionFailure::Provision(m)), SessionAction::Finish),
            (InitState::WritingDefault, SessionEvent::Written) => (InitState::Ready, SessionAction::Finish),
            (InitState::WritingDefault, SessionEvent::IoFailed(m)) =>
                (InitState::Failed(SessionFailure::WriteDefault(m)), SessionAction::Finish),
            (InitState::Ready, _) => (InitState::Ready, SessionAction::Finish),
            (InitState::Failed(f), _) => (InitState::Failed(f), SessionAction::Finish),
            _ => (InitState::Failed(SessionFailure::OutOfOrder), SessionAction::Finish),
        }
    }
}

impl EditState {
    /// The first state and action of a safe edit: take the snapshot.
    pub fn start() -> (r: (EditState, SessionAction))
        ensures
            r == (EditState::Snapshotting, SessionAction::ReadConfig),
    {
        (EditState::Snapshotting, SessionAction::ReadConfig)
    }

    /// The next state and action, given what came of the last action.
    pub fn step(self, e: SessionEvent) -> (r: (EditState, SessionAction))
        ensures
            r == edit_next(self, e),
    {
        match (self, e) {
            (EditState::Snapshotting, SessionEvent::ReadDone(t)) =>
                (EditState::Editing { before: t }, SessionAction::LaunchEditor),
            (EditState::Snapshotting, SessionEvent::IoFailed(m)) =>
                (EditState::Failed(SessionFailure::Snapshot(m)), SessionAction::Finish),
            (EditState::Editing { before }, SessionEvent::EditorExited) =>
                (EditState::Reloading { before }, SessionAction::ReadConfig),
            (EditState::Editing { before }, SessionEvent::EditorFailed(m)) =>
                (EditState::Failed(SessionFailure::Editor(m)), SessionAction::Finish),
            (EditState::Reloading { before }, SessionEvent::ReadDone(after)) =>
                (EditState::Validating { before }, SessionAction::ValidateConfig(after)),
            (EditState::Reloading { before }, SessionEvent::IoFailed(m)) =>
                (EditState::RollingBack { reason: m }, SessionAction::RestoreConfig(before)),
            (EditState::Validating { before }, SessionEvent::Parsed) =>
                (EditState::Committed, SessionAction::Finish),
            (EditState::Validating { before }, SessionEvent::ParseFailed(m)) =>
                (EditState::RollingBack { reason: m }, SessionAction::RestoreConfig(before)),
            (EditState::RollingBack { reason }, SessionEvent::Written) =>
                (EditState::RolledBack { reason }, SessionAction::Finish),
            (EditState::RollingBack { reason }, SessionEvent::IoFailed(m)) =>
                (EditState::Failed(SessionFailure::Restore(m)), SessionAction::Finish),
            (EditState::Committed, _) => (EditState::Committed, SessionAction::Finish),
            (EditState::RolledBack { reason }, _) => (EditState::RolledBack { reason }, SessionAction::Finish),
            (EditState::Failed(f), _) => (EditState::Failed(f), SessionAction::Finish),
            _ => (EditState::Failed(SessionFailure::OutOfOrder), SessionAction::Finish),
        }
    }
}

impl ShowState {
    /// The first state and action of showing the configuration.
    pub fn start() -> (r: (ShowState, SessionAction))
        ensures
            r == (ShowState::Locating, SessionAction::LocateConfig),
    {
        (ShowState::Locating, SessionAction::LocateConfig)
    }

    /// The next state and action, given what came of the last action.
    pub fn step(self, e: SessionEvent) -> (r: (ShowState, SessionAction))
        ensures
            r == show_next(self, e),
    {
        match (self, e) {
            (ShowState::Locating, SessionEvent::Located { config_exists }) =>
                if config_exists {
                    (ShowState::Reading, SessionAction::ReadConfig)
                } else {
                    (ShowState::Missing, SessionAction::Finish)
                },
            (ShowState::Reading, SessionEvent::ReadDone(t)) => (ShowState::Parsing, SessionAction::ValidateConfig(t)),
            (ShowState::Reading, SessionEvent::IoFailed(m)) =>
                (ShowState::Failed(SessionFailure::Read(m)), SessionAction::Finish),
            (ShowState::Parsing, SessionEvent::Parsed) => (ShowState::Shown, SessionAction::Finish),
            (ShowState::Parsing, SessionEvent::ParseFailed(m)) =>
                (ShowState::Failed(SessionFailure::Corrupt(m)), SessionAction::Finish),
            (ShowState::Shown, _) => (ShowState::Shown, SessionAction::Finish),
            (ShowState::Missing, _) => (ShowState::Missing, SessionAction::Finish),
            (ShowState::Failed(f), _) => (ShowState::Failed(f), SessionAction::Finish),
            _ => (ShowState::Failed(SessionFailure::OutOfOrder), SessionAction::Finish),
        }
    }
}

/// What a config command asks for.
#[derive(Debug, Clone, Copy, PartialEq, Eq)]
pub enum ConfigAction {
    Edit,
    Show,
    Nothing,
}

/// The session a config command starts, if any.
pub fn config(args: &ConfigCommand) -> (r: ConfigAction)
    ensures
        args.command matches Some(ConfigSubcommand::Edit(_)) ==> r == ConfigAction::Edit,
        args.command matches Some(ConfigSubcommand::Show(_)) ==> r == ConfigAction::Show,
        args.command is None ==> r == ConfigAction::Nothing,
{
    match args.command {
        Some(ConfigSubcommand::Edit(_)) => ConfigAction::Edit,
        Some(ConfigSubcommand::Show(_)) => ConfigAction::Show,
        None => ConfigAction::Nothing,
    }
}

/// The final state and the actions asked for, when the bootstrap in state
/// `s` is handed the events `es` in turn.
pub open spec fn run_init(s: InitState, es: Seq<SessionEvent>) -> (InitState, Seq<SessionAction>)
    decreases es.len(),
{
    if es.len() == 0 {
        (s, Seq::empty())
    } else {
        let (s1, a) = init_next(s, es[0]);
        let (s2, acts) = run_init(s1, es.drop_first());
        (s2, seq![a] + acts)
    }
}

/// As `run_init`, for the safe-edit session.
pub open spec fn run_edit(s: EditState, es: Seq<SessionEvent>) -> (EditState, Seq<SessionAction>)
    decreases es.len(),
{
    if es.len() == 0 {
        (s, Seq::empty())
    } else {
        let (s1, a) = edit_next(s, es[0]);
        let (s2, acts) = run_edit(s1, es.drop_first());
        (s2, seq![a] + acts)
    }
}

/// As `run_init`, for showing the configuration.
pub open spec fn run_show(s: ShowState, es: Seq<SessionEvent>) -> (ShowState, Seq<SessionAction>)
    decreases es.len(),
{
    if es.len() == 0 {
        (s, Seq::empty())
    } else {
        let (s1, a) = show_next(s, es[0]);
        let (s2, acts) = run_show(s1, es.drop_first());
        (s2, seq![a] + acts)
    }
}

/// The configuration file's text after the program performs `a`, where the
/// editor, when launched, leaves `edited` in the file, and `default_text` is
/// the default configuration as written.
pub open spec fn file_after_action(file: Seq<char>, a: SessionAction, edited: Seq<char>, default_text: Seq<char>) -> Seq<char> {
    match a {
        SessionAction::WriteDefaultConfig => default_text,
        SessionAction::LaunchEditor => edited,
        SessionAction::RestoreConfig(t) => t@,
        _ => file,
    }
}

/// The file's text after the program performs the actions `acts` in turn.
pub open spec fn file_after(file: Seq<char>, acts: Seq<SessionAction>, edited: Seq<char>, default_text: Seq<char>) -> Seq<char>
    decreases acts.len(),
{
    if acts.len() == 0 {
        file
    } else {
        file_after(file_after_action(file, acts[0], edited, default_text), acts.drop_first(), edited, default_text)
    }
}

/// An edit that still parses is kept: after the session the file holds
/// what the editor wrote, and the session ends committed.
pub proof fn lemma_valid_edit_committed(before: String, after: String, default_text: Seq<char>)
    ensures
        ({
            let es = seq![
                SessionEvent::ReadDone(before),
                SessionEvent::EditorExited,
                SessionEvent::ReadDone(after),
                SessionEvent::Parsed,
            ];
            let (s, acts) = run_edit(EditState::Snapshotting, es);
            &&& s is Committed
            &&& file_after(before@, seq![SessionAction::ReadConfig] + acts, after@, default_text) == after@
        }),
{
    reveal_with_fuel(run_edit, 5);
    reveal_with_fuel(file_after, 6);
    let es = seq![
        SessionEvent::ReadDone(before),
        SessionEvent::EditorExited,
        SessionEvent::ReadDone(after),
        SessionEvent::Parsed,
    ];
    assert(es.drop_first() =~= seq![SessionEvent::EditorExited, SessionEvent::ReadDone(after), SessionEvent::Parsed]);
    assert(es.drop_first().drop_first() =~= seq![SessionEvent::ReadDone(after), SessionEvent::Parsed]);
    assert(es.drop_first().drop_first().drop_first() =~= seq![SessionEvent::Parsed]);
    assert(es.drop_first().drop_first().drop_first().drop_first() =~= Seq::<SessionEvent>::empty());
    let (s, acts) = run_edit(EditState::Snapshotting, es);
    let all = seq![SessionAction::ReadConfig] + acts;
    assert(all =~= seq![
        SessionAction::ReadConfig,
        SessionAction::LaunchEditor,
        SessionAction::ReadConfig,
        SessionAction::ValidateConfig(after),
        SessionAction::Finish,
    ]);
    assert(all.drop_first() =~= seq![
        SessionAction::LaunchEditor,
        SessionAction::ReadConfig,
        SessionAction::ValidateConfig(after),
        SessionAction::Finish,
    ]);
    assert(all.drop_first().drop_first() =~= seq![
        SessionAction::ReadConfig,
        SessionAction::ValidateConfig(after),
        SessionAction::Finish,
    ]);
    assert(all.drop_first().drop_first().drop_first() =~= seq![
        SessionAction::ValidateConfig(after),
        SessionAction::Finish,
    ]);
    assert(all.drop_first().drop_first().drop_first().drop_first() =~= seq![SessionAction::Finish]);
    assert(all.drop_first().drop_first().drop_first().drop_first().drop_first() =~= Seq::<SessionAction>::empty());
}

/// An edit that does not parse is rolled back: after the session the file
/// holds exactly its text from before the edit, and the session ends
/// rejected, with the parser's message.
pub proof fn lemma_invalid_edit_rolled_back(before: String, after: String, reason: String, default_text: Seq<char>)
    ensures
        ({
            let es = seq![
                SessionEvent::ReadDone(before),
                SessionEvent::EditorExited,
                SessionEvent::ReadDone(after),
                SessionEvent::ParseFailed(reason),
                SessionEvent::Written,
            ];
            let (s, acts) = run_edit(EditState::Snapshotting, es);
            &&& s == EditState::RolledBack { reason }
            &&& file_after(before@, seq![SessionAction::ReadConfig] + acts, after@, default_text) == before@
        }),
{
    reveal_with_fuel(run_edit, 6);
    reveal_with_fuel(file_after, 7);
    let es = seq![
        SessionEvent::ReadDone(before),
        SessionEvent::EditorExited,
        SessionEvent::ReadDone(after),
        SessionEvent::ParseFailed(reason),
        SessionEvent::Written,
    ];
    let e1 = es.drop_first();
    let e2 = e1.drop_first();
    let e3 = e2.drop_first();
    let e4 = e3.drop_first();
    assert(e1 =~= seq![SessionEvent::EditorExited, SessionEvent::ReadDone(after), SessionEvent::ParseFailed(reason), SessionEvent::Written]);
    assert(e2 =~= seq![SessionEvent::ReadDone(after), SessionEvent::ParseFailed(reason), SessionEvent::Written]);
    assert(e3 =~= seq![SessionEvent::ParseFailed(reason), SessionEvent::Written]);
    assert(e4 =~= seq![SessionEvent::Written]);
    assert(e4.drop_first() =~= Seq::<SessionEvent>::empty());
    let (s, acts) = run_edit(EditState::Snapshotting, es);
    let all = seq![SessionAction::ReadConfig] + acts;
    assert(all =~= seq![
        SessionAction::ReadConfig,
        SessionAction::LaunchEditor,
        SessionAction::ReadConfig,
        SessionAction::ValidateConfig(after),
        SessionAction::RestoreConfig(before),
        SessionAction::Finish,
    ]);
    let a1 = all.drop_first();
    let a2 = a1.drop_first();
    let a3 = a2.drop_first();
    let a4 = a3.drop_first();
    let a5 = a4.drop_first();
    assert(a1 =~= all.subrange(1, 6));
    assert(a2 =~= all.subrange(2, 6));
    assert(a3 =~= all.subrange(3, 6));
    assert(a4 =~= all.subrange(4, 6));
    assert(a5 =~= all.subrange(5, 6));
    assert(a5.drop_first() =~= Seq::<SessionAction>::empty());
}

/// On a first run, with no configuration file, the bootstrap ensures the
/// directories and writes the default configuration; showing the file then
/// reads and validates exactly that text, and ends shown once it parses.
pub proof fn lemma_first_run_bootstrap(default_written: String)
    ensures
        ({
            let (s, acts) = run_init(InitState::Provisioning, seq![
                SessionEvent::Located { config_exists: false },
                SessionEvent::Written,
            ]);
            &&& s is Ready
            &&& acts == seq![SessionAction::WriteDefaultConfig, SessionAction::Finish]
            &&& file_after(Seq::empty(), seq![SessionAction::EnsureDirectories] + acts, Seq::empty(), default_written@)
                == default_written@
        }),
        ({
            let (s, acts) = run_show(ShowState::Locating, seq![
                SessionEvent::Located { config_exists: true },
                SessionEvent::ReadDone(default_written),
                SessionEvent::Parsed,
            ]);
            &&& s is Shown
            &&& acts == seq![
                SessionAction::ReadConfig,
                SessionAction::ValidateConfig(default_written),
                SessionAction::Finish,
            ]
        }),
{
    reveal_with_fuel(run_init, 3);
    reveal_with_fuel(run_show, 4);
    reveal_with_fuel(file_after, 4);
    let ie = seq![SessionEvent::Located { config_exists: false }, SessionEvent::Written];
    assert(ie.drop_first() =~= seq![SessionEvent::Written]);
    assert(ie.drop_first().drop_first() =~= Seq::<SessionEvent>::empty());
    let (s, acts) = run_init(InitState::Provisioning, ie);
    assert(acts =~= seq![SessionAction::WriteDefaultConfig, SessionAction::Finish]);
    let all = seq![SessionAction::EnsureDirectories] + acts;
    assert(all.drop_first() =~= acts);
    assert(acts.drop_first() =~= seq![SessionAction::Finish]);
    assert(acts.drop_first().drop_first() =~= Seq::<SessionAction>::empty());
    let se = seq![
        SessionEvent::Located { config_exists: true },
        SessionEvent::ReadDone(default_written),
        SessionEvent::Parsed,
    ];
    assert(se.drop_first() =~= seq![SessionEvent::ReadDone(default_written), SessionEvent::Parsed]);
    assert(se.drop_first().drop_first() =~= seq![SessionEvent::Parsed]);
    assert(se.drop_first().drop_first().drop_first() =~= Seq::<SessionEvent>::empty());
    let (s2, acts2) = run_show(ShowState::Locating, se);
    assert(acts2 =~= seq![
        SessionAction::ReadConfig,
        SessionAction::ValidateConfig(default_written),
        SessionAction::Finish,
    ]);
}

/// The write actions in `acts` restore `snapshot` and nothing else.
pub open spec fn restores_only(acts: Seq<SessionAction>, snapshot: String) -> bool {
    forall|i: int| 0 <= i < acts.len() ==> {
        &&& !(#[trigger] acts[i] is WriteDefaultConfig)
        &&& (acts[i] matches SessionAction::RestoreConfig(t) ==> t == snapshot)
    }
}

/// A safe-edit state after the snapshot `b` was taken.
pub open spec fn after_snapshot(s: EditState, b: String) -> bool {
    match s {
        EditState::Editing { before } => before == b,
        EditState::Reloading { before } => before == b,
        EditState::Validating { before } => before == b,
        EditState::Snapshotting => false,
        _ => true,
    }
}

proof fn lemma_restores_only_after_snapshot(s: EditState, es: Seq<SessionEvent>, b: String)
    requires
        after_snapshot(s, b),
    ensures
        restores_only(run_edit(s, es).1, b),
    decreases es.len(),
{
    if es.len() > 0 {
        let (s1, a) = edit_next(s, es[0]);
        lemma_restores_only_after_snapshot(s1, es.drop_first(), b);
        let acts = run_edit(s, es).1;
        let rest = run_edit(s1, es.drop_first()).1;
        assert(acts == seq![a] + rest);
        assert forall|i: int| 0 <= i < acts.len() implies {
            &&& !(#[trigger] acts[i] is WriteDefaultConfig)
            &&& (acts[i] matches SessionAction::RestoreConfig(t) ==> t == b)
        } by {
            if i > 0 {
                assert(acts[i] == rest[i - 1]);
            }
        }
    }
}

/// Whatever happens during a safe edit, the only write the session asks
/// for is to restore the text read as the snapshot, unchanged: it never
/// writes anything else to the configuration file.
pub proof fn lemma_edit_writes_only_snapshot(es: Seq<SessionEvent>)
    ensures
        ({
            let acts = run_edit(EditState::Snapshotting, es).1;
            &&& forall|i: int| 0 <= i < acts.len() ==> !(#[trigger] acts[i] is WriteDefaultConfig)
            &&& forall|i: int| 0 <= i < acts.len() && #[trigger] acts[i] is RestoreConfig
                ==> (es[0] matches SessionEvent::ReadDone(b) && acts[i]->RestoreConfig_0 == b)
        }),
{
    if es.len() > 0 {
        let (s1, a) = edit_next(EditState::Snapshotting, es[0]);
        let acts = run_edit(EditState::Snapshotting, es).1;
        let rest = run_edit(s1, es.drop_first()).1;
        assert(acts == seq![a] + rest);
        match es[0] {
            SessionEvent::ReadDone(b) => {
                lemma_restores_only_after_snapshot(s1, es.drop_first(), b);
                assert forall|i: int| 0 <= i < acts.len() implies !(#[trigger] acts[i] is WriteDefaultConfig)
                    && (acts[i] is RestoreConfig ==> acts[i]->RestoreConfig_0 == b) by {
                    if i > 0 {
                        assert(acts[i] == rest[i - 1]);
                    }
                }
            },
            _ => {
                assert(s1 is Failed);
                lemma_no_actions_after_failure(s1, es.drop_first());
                assert forall|i: int| 0 <= i < acts.len() implies !(#[trigger] acts[i] is WriteDefaultConfig)
                    && !(acts[i] is RestoreConfig) by {
                    if i > 0 {
                        assert(acts[i] == rest[i - 1]);
                    }
                }
            },
        }
    }
}

proof fn lemma_no_actions_after_failure(s: EditState, es: Seq<SessionEvent>)
    requires
        s is Failed,
    ensures
        forall|i: int| 0 <= i < run_edit(s, es).1.len() ==> #[trigger] run_edit(s, es).1[i] is Finish,
    decreases es.len(),
{
    if es.len() > 0 {
        let (s1, a) = edit_next(s, es[0]);
        lemma_no_actions_after_failure(s1, es.drop_first());
        let acts = run_edit(s, es).1;
        let rest = run_edit(s1, es.drop_first()).1;
        assert(acts == seq![a] + rest);
        assert forall|i: int| 0 <= i < acts.len() implies #[trigger] acts[i] is Finish by {
            if i > 0 {
                assert(acts[i] == rest[i - 1]);
            }
        }
    }
}

} // verus!
