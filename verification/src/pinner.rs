//! The pinning run as a state machine. The machine hands out one action at a time, the
//! caller performs it and reports what came of it, and the machine decides what is next.
use crate::config::{
    acceptable, is_in_state, kinds_in_state, lemma_validation_outcome, none_requested,
    subdir_views, subdirs_of, validation, Config, ConfigError, ConfigErrorView, ConfigView,
    PathStatus, Probe, Subdir, SubdirView,
};
use crate::namespace::{
    enabled_kinds, lemma_enabled_kinds, lemma_kinds_filtered, unshare_mask, Namespace,
    NamespaceKind,
};
use crate::path::{bind_path, bind_target, parent_dir, proc_handle, proc_path};
use nix::errno::Errno;
use vstd::prelude::*;
use vstd::string::*;

verus! {

/// The error number that the operating system gives when a file is already there.
pub open spec fn file_exists() -> i32 {
    17
}

/// `Errno::EEXIST` of nix as a number: the value of libc's `EEXIST` on Linux.
#[verifier::external_body]
fn errno_file_exists() -> (errno: i32)
    ensures
        errno == file_exists(),
{
    Errno::EEXIST as i32
}

/// Why a namespace could not be bound.
#[derive(Debug, PartialEq, Eq)]
pub enum BindError {
    /// A file is already at the path that the namespace was to be bound to.
    AlreadyExists { path: String },
    /// The file could not be created for another reason.
    Io { path: String, errno: i32 },
    /// The handle `source` could not be mounted on the file `target`.
    MountFailed { source: String, target: String, errno: i32 },
}

/// A `BindError` with its paths as text.
pub enum BindErrorView {
    AlreadyExists { path: Seq<char> },
    Io { path: Seq<char>, errno: i32 },
    MountFailed { source: Seq<char>, target: Seq<char>, errno: i32 },
}

impl View for BindError {
    type V = BindErrorView;

    open spec fn view(&self) -> BindErrorView {
        match self {
            BindError::AlreadyExists { path } => BindErrorView::AlreadyExists { path: path@ },
            BindError::Io { path, errno } => BindErrorView::Io { path: path@, errno: *errno },
            BindError::MountFailed { source, target, errno } => BindErrorView::MountFailed {
                source: source@,
                target: target@,
                errno: *errno,
            },
        }
    }
}

/// What a failure to create the file at `path` means: the file was already there if the
/// error number says so, and creation failed otherwise.
pub open spec fn creation_error(path: Seq<char>, errno: i32) -> BindErrorView {
    if errno == file_exists() {
        BindErrorView::AlreadyExists { path }
    } else {
        BindErrorView::Io { path, errno }
    }
}

impl BindErrorView {
    /// What was being done when the error came up, in words.
    pub open spec fn message(self) -> Seq<char> {
        match self {
            BindErrorView::AlreadyExists { path } => "unable to create namespace file "@ + path,
            BindErrorView::Io { path, errno } => "unable to create namespace file "@ + path,
            BindErrorView::MountFailed { source, target, errno } =>
                "unable to bind mount namespace "@ + source,
        }
    }

    /// The error number that the operating system gave.
    pub open spec fn errno(self) -> i32 {
        match self {
            BindErrorView::AlreadyExists { path } => file_exists(),
            BindErrorView::Io { path, errno } => errno,
            BindErrorView::MountFailed { source, target, errno } => errno,
        }
    }
}

impl BindError {
    /// What was being done when the error came up, in words.
    pub fn message(&self) -> (text: String)
        ensures
            text@ == self@.message(),
    {
        match self {
            BindError::AlreadyExists { path } => String::from_str(
                "unable to create namespace file ",
            ).concat(path.as_str()),
            BindError::Io { path, errno } => String::from_str(
                "unable to create namespace file ",
            ).concat(path.as_str()),
            BindError::MountFailed { source, target, errno } => String::from_str(
                "unable to bind mount namespace ",
            ).concat(source.as_str()),
        }
    }

    /// The error number that the operating system gave.
    pub fn errno(&self) -> (errno: i32)
        ensures
            errno == self@.errno(),
    {
        match self {
            BindError::AlreadyExists { path } => errno_file_exists(),
            BindError::Io { path, errno } => *errno,
            BindError::MountFailed { source, target, errno } => *errno,
        }
    }

    /// The error for a file at `path` that could not be created, from the error number.
    pub fn from_creation(path: String, errno: i32) -> (error: BindError)
        ensures
            error@ == creation_error(path@, errno),
    {
        if errno == errno_file_exists() {
            BindError::AlreadyExists { path }
        } else {
            BindError::Io { path, errno }
        }
    }
}

/// The files under `dir` that the namespaces of `kinds` are bound to under `file_name`, in
/// the order of `kinds`.
pub open spec fn files_of(
    dir: Seq<char>,
    file_name: Seq<char>,
    kinds: Seq<NamespaceKind>,
) -> Seq<Seq<char>> {
    kinds.map_values(|kind: NamespaceKind| bind_target(dir, kind.proc_name(), file_name))
}

/// The views of `paths`, in their order.
pub open spec fn path_views(paths: Seq<String>) -> Seq<Seq<char>> {
    paths.map_values(|path: String| path@)
}

/// How a run ended.
#[derive(Debug, PartialEq, Eq)]
pub enum Outcome {
    /// Every namespace asked for is bound; `paths` are the files, in the fixed order.
    Complete { paths: Vec<String> },
    /// The namespace of `kind` could not be bound. Those in `bound` were bound before it and
    /// stay bound; those after it were not tried.
    PartiallyBound { bound: Vec<String>, kind: NamespaceKind, error: BindError },
    /// The configuration was turned down before anything was changed.
    Rejected(ConfigError),
    /// The directory of a kind could not be created.
    DirectoryFailed { path: String, errno: i32 },
    /// The kernel refused to unshare; no namespace was created.
    UnshareFailed { flags: i32, errno: i32 },
}

/// An `Outcome` with its paths as text.
pub enum OutcomeView {
    Complete { paths: Seq<Seq<char>> },
    PartiallyBound { bound: Seq<Seq<char>>, kind: NamespaceKind, error: BindErrorView },
    Rejected(ConfigErrorView),
    DirectoryFailed { path: Seq<char>, errno: i32 },
    UnshareFailed { flags: i32, errno: i32 },
}

impl View for Outcome {
    type V = OutcomeView;

    open spec fn view(&self) -> OutcomeView {
        match self {
            Outcome::Complete { paths } => OutcomeView::Complete { paths: path_views(paths@) },
            Outcome::PartiallyBound { bound, kind, error } => OutcomeView::PartiallyBound {
                bound: path_views(bound@),
                kind: *kind,
                error: error@,
            },
            Outcome::Rejected(error) => OutcomeView::Rejected(error@),
            Outcome::DirectoryFailed { path, errno } => OutcomeView::DirectoryFailed {
                path: path@,
                errno: *errno,
            },
            Outcome::UnshareFailed { flags, errno } => OutcomeView::UnshareFailed {
                flags: *flags,
                errno: *errno,
            },
        }
    }
}

impl OutcomeView {
    /// What went wrong, in words: nothing for a complete run, and nothing where the error
    /// number says it all.
    pub open spec fn message(self) -> Option<Seq<char>> {
        match self {
            OutcomeView::Complete { paths } => None,
            OutcomeView::PartiallyBound { bound, kind, error } => Some(error.message()),
            OutcomeView::Rejected(error) => Some(error.message()),
            OutcomeView::DirectoryFailed { path, errno } => None,
            OutcomeView::UnshareFailed { flags, errno } => Some("failed to unshare namespaces"@),
        }
    }

    /// The error number that the operating system gave, if the run ended on one.
    pub open spec fn errno(self) -> Option<i32> {
        match self {
            OutcomeView::Complete { paths } => None,
            OutcomeView::PartiallyBound { bound, kind, error } => Some(error.errno()),
            OutcomeView::Rejected(error) => None,
            OutcomeView::DirectoryFailed { path, errno } => Some(errno),
            OutcomeView::UnshareFailed { flags, errno } => Some(errno),
        }
    }
}

impl Outcome {
    /// Whether every namespace asked for was bound.
    pub fn is_complete(&self) -> (complete: bool)
        ensures
            complete == (self@ is Complete),
    {
        match self {
            Outcome::Complete { paths } => true,
            _ => false,
        }
    }

    /// What went wrong, in words: nothing for a complete run, and nothing where the error
    /// number says it all.
    pub fn message(&self) -> (text: Option<String>)
        ensures
            match text {
                Some(text) => self@.message() == Some(text@),
                None => self@.message().is_none(),
            },
    {
        match self {
            Outcome::Complete { paths } => None,
            Outcome::PartiallyBound { bound, kind, error } => Some(error.message()),
            Outcome::Rejected(error) => Some(error.message()),
            Outcome::DirectoryFailed { path, errno } => None,
            Outcome::UnshareFailed { flags, errno } => Some(
                String::from_str("failed to unshare namespaces"),
            ),
        }
    }

    /// The error number that the operating system gave, if the run ended on one.
    pub fn errno(&self) -> (errno: Option<i32>)
        ensures
            errno == self@.errno(),
    {
        match self {
            Outcome::Complete { paths } => None,
            Outcome::PartiallyBound { bound, kind, error } => Some(error.errno()),
            Outcome::Rejected(error) => None,
            Outcome::DirectoryFailed { path, errno } => Some(*errno),
            Outcome::UnshareFailed { flags, errno } => Some(*errno),
        }
    }
}

/// What the caller reports to the machine.
#[derive(Clone, Copy, Debug, PartialEq, Eq, Structural)]
pub enum Event {
    /// The run begins.
    Start,
    /// The paths of a `Probe` action were looked at.
    Probed(Probe),
    /// The action handed out last was performed.
    Succeeded,
    /// The action handed out last failed with this error number.
    Failed(i32),
}

/// What the machine asks the caller to do next.
#[derive(Debug, PartialEq, Eq)]
pub enum Action {
    /// Look at the target directory `dir` and at each of `subdirs`, and report with
    /// `Event::Probed` what is there.
    Probe { dir: String, subdirs: Vec<Subdir> },
    /// Create the directory `path`, which is that of `kind`.
    CreateDir { kind: NamespaceKind, path: String },
    /// Unshare the namespaces that `flags` name, in one call.
    Unshare { flags: i32 },
    /// Create the empty file `path`, and fail if anything is there already.
    CreateFile { kind: NamespaceKind, path: String },
    /// Bind-mount the handle `source` on the file `target`.
    BindMount { kind: NamespaceKind, source: String, target: String },
    /// The run is over.
    Finish(Outcome),
    /// The event answers nothing that the machine has asked for. Nothing has changed.
    Unexpected,
}

/// An `Action` with its paths as text.
pub enum ActionView {
    Probe { dir: Seq<char>, subdirs: Seq<SubdirView> },
    CreateDir { kind: NamespaceKind, path: Seq<char> },
    Unshare { flags: i32 },
    CreateFile { kind: NamespaceKind, path: Seq<char> },
    BindMount { kind: NamespaceKind, source: Seq<char>, target: Seq<char> },
    Finish(OutcomeView),
    Unexpected,
}

impl View for Action {
    type V = ActionView;

    open spec fn view(&self) -> ActionView {
        match self {
            Action::Probe { dir, subdirs } => ActionView::Probe {
                dir: dir@,
                subdirs: subdir_views(subdirs@),
            },
            Action::CreateDir { kind, path } => ActionView::CreateDir { kind: *kind, path: path@ },
            Action::Unshare { flags } => ActionView::Unshare { flags: *flags },
            Action::CreateFile { kind, path } => ActionView::CreateFile {
                kind: *kind,
                path: path@,
            },
            Action::BindMount { kind, source, target } => ActionView::BindMount {
                kind: *kind,
                source: source@,
                target: target@,
            },
            Action::Finish(outcome) => ActionView::Finish(outcome@),
            Action::Unexpected => ActionView::Unexpected,
        }
    }
}

/// Where a run stands.
#[derive(Clone, Copy, Debug, PartialEq, Eq, Structural)]
pub enum Phase {
    /// Nothing was done yet.
    Unvalidated,
    /// The machine waits to hear what is at the target directory and under it.
    Probing,
    /// The configuration is valid; the directory of a kind is being created.
    Preparing,
    /// Every directory is there; the namespaces are being unshared.
    Unsharing,
    /// The namespaces are unshared; the file for the next of them is being created.
    Creating,
    /// The file is there; the namespace is being mounted on it.
    Mounting,
    /// Every namespace is bound.
    Complete,
    /// A namespace could not be bound.
    PartiallyBound,
    /// The run failed before any namespace was bound.
    Failed,
}

/// The state of a run: the configuration, what is known of the directories, the phase, and
/// the files that namespaces were bound to so far.
pub struct PinnsView {
    pub config: ConfigView,
    pub probe: Probe,
    pub phase: Phase,
    pub bound: Seq<Seq<char>>,
}

impl PinnsView {
    /// The kind whose directory is to be created next: the first kind in the registry
    /// whose directory is missing.
    pub open spec fn pending_dir(self) -> Option<NamespaceKind> {
        let missing = kinds_in_state(self.config.namespaces, self.probe, PathStatus::Missing);
        if missing.len() > 0 {
            Some(missing[0])
        } else {
            None
        }
    }

    /// The kind whose namespace is to be bound next: of the kinds in the registry, the one
    /// after those that are bound.
    pub open spec fn target(self) -> Option<NamespaceKind> {
        let kinds = enabled_kinds(self.config.namespaces);
        if self.bound.len() < kinds.len() {
            Some(kinds[self.bound.len() as int])
        } else {
            None
        }
    }

    /// The directory of `kind`.
    pub open spec fn subdir(self, kind: NamespaceKind) -> Seq<char> {
        parent_dir(self.config.dir, kind.proc_name())
    }

    /// The file that the namespace of `kind` is bound to.
    pub open spec fn bind_file(self, kind: NamespaceKind) -> Seq<char> {
        bind_target(self.config.dir, kind.proc_name(), self.config.filename)
    }

    /// The run ends in `phase` with `outcome`.
    pub open spec fn finish(self, phase: Phase, outcome: OutcomeView) -> (PinnsView, ActionView) {
        (PinnsView { phase, ..self }, ActionView::Finish(outcome))
    }

    /// The next directory is created, or, when none is missing, the namespaces are unshared.
    pub open spec fn prepare(self) -> (PinnsView, ActionView) {
        match self.pending_dir() {
            Some(kind) => (
                PinnsView { phase: Phase::Preparing, ..self },
                ActionView::CreateDir { kind, path: self.subdir(kind) },
            ),
            None => (
                PinnsView { phase: Phase::Unsharing, ..self },
                ActionView::Unshare { flags: unshare_mask(self.config.namespaces) },
            ),
        }
    }

    /// The file for the next namespace is created, or, when every namespace is bound, the
    /// run is complete.
    pub open spec fn bind_next(self) -> (PinnsView, ActionView) {
        match self.target() {
            Some(kind) => (
                PinnsView { phase: Phase::Creating, ..self },
                ActionView::CreateFile { kind, path: self.bind_file(kind) },
            ),
            None => self.finish(Phase::Complete, OutcomeView::Complete { paths: self.bound }),
        }
    }

    /// What the machine does in this state when `event` is reported: the state after it,
    /// and the action handed out.
    pub open spec fn step(self, event: Event) -> (PinnsView, ActionView) {
        match (self.phase, event) {
            (Phase::Unvalidated, Event::Start) => {
                if none_requested(self.config.selection) {
                    self.finish(
                        Phase::Failed,
                        OutcomeView::Rejected(ConfigErrorView::NoNamespace),
                    )
                } else {
                    (
                        PinnsView { phase: Phase::Probing, ..self },
                        ActionView::Probe {
                            dir: self.config.dir,
                            subdirs: subdirs_of(
                                self.config.dir,
                                enabled_kinds(self.config.selection),
                            ),
                        },
                    )
                }
            },
            (Phase::Probing, Event::Probed(probe)) => {
                let checked = PinnsView { config: self.config.validated(), probe, ..self };
                match validation(self.config.dir, self.config.selection, probe) {
                    Err(error) => checked.finish(Phase::Failed, OutcomeView::Rejected(error)),
                    Ok(_) => checked.prepare(),
                }
            },
            (Phase::Preparing, Event::Succeeded) => match self.pending_dir() {
                Some(kind) => (PinnsView {
                    probe: self.probe.with(kind, PathStatus::Directory),
                    ..self
                }).prepare(),
                None => (self, ActionView::Unexpected),
            },
            (Phase::Preparing, Event::Failed(errno)) => match self.pending_dir() {
                Some(kind) => self.finish(
                    Phase::Failed,
                    OutcomeView::DirectoryFailed { path: self.subdir(kind), errno },
                ),
                None => (self, ActionView::Unexpected),
            },
            (Phase::Unsharing, Event::Succeeded) => self.bind_next(),
            (Phase::Unsharing, Event::Failed(errno)) => self.finish(
                Phase::Failed,
                OutcomeView::UnshareFailed { flags: unshare_mask(self.config.namespaces), errno },
            ),
            (Phase::Creating, Event::Succeeded) => match self.target() {
                Some(kind) => (
                    PinnsView { phase: Phase::Mounting, ..self },
                    ActionView::BindMount {
                        kind,
                        source: proc_handle(kind.proc_name()),
                        target: self.bind_file(kind),
                    },
                ),
                None => (self, ActionView::Unexpected),
            },
            (Phase::Creating, Event::Failed(errno)) => match self.target() {
                Some(kind) => self.finish(
                    Phase::PartiallyBound,
                    OutcomeView::PartiallyBound {
                        bound: self.bound,
                        kind,
                        error: creation_error(self.bind_file(kind), errno),
                    },
                ),
                None => (self, ActionView::Unexpected),
            },
            (Phase::Mounting, Event::Succeeded) => match self.target() {
                Some(kind) => (PinnsView {
                    bound: self.bound.push(self.bind_file(kind)),
                    ..self
                }).bind_next(),
                None => (self, ActionView::Unexpected),
            },
            (Phase::Mounting, Event::Failed(errno)) => match self.target() {
                Some(kind) => self.finish(
                    Phase::PartiallyBound,
                    OutcomeView::PartiallyBound {
                        bound: self.bound,
                        kind,
                        error: BindErrorView::MountFailed {
                            source: proc_handle(kind.proc_name()),
                            target: self.bind_file(kind),
                            errno,
                        },
                    },
                ),
                None => (self, ActionView::Unexpected),
            },
            _ => (self, ActionView::Unexpected),
        }
    }
}

/// A pinning run.
#[derive(Debug)]
pub struct Pinns {
    config: Config,
    probe: Probe,
    phase: Phase,
    bound: Vec<String>,
}

impl View for Pinns {
    type V = PinnsView;

    closed spec fn view(&self) -> PinnsView {
        PinnsView {
            config: self.config@,
            probe: self.probe,
            phase: self.phase,
            bound: path_views(self.bound@),
        }
    }
}

/// A copy of `paths`.
fn copy_paths(paths: &Vec<String>) -> (copy: Vec<String>)
    ensures
        path_views(copy@) == path_views(paths@),
{
    let mut copy: Vec<String> = Vec::new();
    let mut i: usize = 0;
    while i < paths.len()
        invariant
            i <= paths.len(),
            copy@.len() == i,
            forall|j: int| 0 <= j < i ==> copy@[j]@ == paths@[j]@,
        decreases paths.len() - i,
    {
        copy.push(paths[i].clone());
        i += 1;
    }
    assert(path_views(copy@) =~= path_views(paths@));
    copy
}

impl Pinns {
    /// A run for `config`, with nothing done yet.
    pub fn new(config: Config) -> (pinns: Pinns)
        ensures
            pinns@ == PinnsView::initial(config@),
    {
        let pinns = Pinns {
            config,
            probe: Probe::new(PathStatus::Missing),
            phase: Phase::Unvalidated,
            bound: Vec::new(),
        };
        assert(path_views(pinns.bound@) =~= Seq::empty());
        pinns
    }

    /// The configuration of the run.
    pub fn config(&self) -> (config: &Config)
        ensures
            config@ == self@.config,
    {
        &self.config
    }

    /// Where the run stands.
    pub fn phase(&self) -> (phase: Phase)
        ensures
            phase == self@.phase,
    {
        self.phase
    }

    /// The files that namespaces were bound to so far, in the fixed order.
    pub fn bound(&self) -> (bound: &Vec<String>)
        ensures
            path_views(bound@) == self@.bound,
    {
        &self.bound
    }

    /// Takes the report of what came of the action handed out last, moves the run on and
    /// hands out the next action. The run begins with `Event::Start` and is over when
    /// `Action::Finish` is handed out. What is decided is what `PinnsView::step` says.
    pub fn run(&mut self, event: Event) -> (action: Action)
        ensures
            final(self)@ == old(self)@.step(event).0,
            action@ == old(self)@.step(event).1,
    {
        match self.phase {
            Phase::Unvalidated => match event {
                Event::Start => self.begin(),
                _ => Action::Unexpected,
            },
            Phase::Probing => match event {
                Event::Probed(probe) => self.validate(probe),
                _ => Action::Unexpected,
            },
            Phase::Preparing => match event {
                Event::Succeeded => self.create_next_dir(None),
                Event::Failed(errno) => self.create_next_dir(Some(errno)),
                _ => Action::Unexpected,
            },
            Phase::Unsharing => match event {
                Event::Succeeded => self.bind_namespaces(),
                Event::Failed(errno) => {
                    self.phase = Phase::Failed;
                    let flags = self.config.namespaces().unshare_flags();
                    Action::Finish(Outcome::UnshareFailed { flags, errno })
                },
                _ => Action::Unexpected,
            },
            Phase::Creating => match event {
                Event::Succeeded => self.bind_namespace(None),
                Event::Failed(errno) => self.bind_namespace(Some(errno)),
                _ => Action::Unexpected,
            },
            Phase::Mounting => match event {
                Event::Succeeded => self.bind_namespace(None),
                Event::Failed(errno) => self.bind_namespace(Some(errno)),
                _ => Action::Unexpected,
            },
            _ => Action::Unexpected,
        }
    }

    /// Begins the run: turns down a request for no kind, and otherwise asks what is at the
    /// target directory and at the directory of each kind selected.
    fn begin(&mut self) -> (action: Action)
        requires
            old(self)@.phase == Phase::Unvalidated,
        ensures
            final(self)@ == old(self)@.step(Event::Start).0,
            action@ == old(self)@.step(Event::Start).1,
    {
        let kinds = self.config.selected_kinds();
        proof {
            lemma_enabled_kinds(self@.config.selection);
            if kinds@.len() > 0 {
                assert(kinds@.contains(kinds@[0]));
            }
        }
        if kinds.len() == 0 {
            self.phase = Phase::Failed;
            Action::Finish(Outcome::Rejected(ConfigError::NoNamespace))
        } else {
            self.phase = Phase::Probing;
            let dir = String::from_str(self.config.dir());
            let subdirs = self.config.subdirs(&kinds);
            Action::Probe { dir, subdirs }
        }
    }

    /// Validates the configuration against what was found, and on success goes on to the
    /// directories.
    fn validate(&mut self, probe: Probe) -> (action: Action)
        requires
            old(self)@.phase == Phase::Probing,
        ensures
            final(self)@ == old(self)@.step(Event::Probed(probe)).0,
            action@ == old(self)@.step(Event::Probed(probe)).1,
    {
        self.probe = probe;
        match self.config.validate(&probe) {
            Err(error) => {
                self.phase = Phase::Failed;
                Action::Finish(Outcome::Rejected(error))
            },
            Ok(_) => self.prepare(),
        }
    }

    /// Takes the report on the directory that was to be created: `None` if it was created,
    /// the error number if it was not.
    fn create_next_dir(&mut self, failure: Option<i32>) -> (action: Action)
        requires
            old(self)@.phase == Phase::Preparing,
        ensures
            final(self)@ == old(self)@.step(reported(failure)).0,
            action@ == old(self)@.step(reported(failure)).1,
    {
        let missing = self.config.kinds_with(&self.probe, PathStatus::Missing);
        if missing.len() == 0 {
            return Action::Unexpected;
        }
        let kind = missing[0];
        match failure {
            None => {
                self.probe.set(kind, PathStatus::Directory);
                self.prepare()
            },
            Some(errno) => {
                self.phase = Phase::Failed;
                let path = self.config.parent_dir_for_namespace(kind.name());
                Action::Finish(Outcome::DirectoryFailed { path, errno })
            },
        }
    }

    /// Asks for the next missing directory, or, when none is missing, for the unshare call.
    fn prepare(&mut self) -> (action: Action)
        ensures
            final(self)@ == old(self)@.prepare().0,
            action@ == old(self)@.prepare().1,
    {
        let missing = self.config.kinds_with(&self.probe, PathStatus::Missing);
        if missing.len() > 0 {
            self.phase = Phase::Preparing;
            let kind = missing[0];
            let path = self.config.parent_dir_for_namespace(kind.name());
            Action::CreateDir { kind, path }
        } else {
            self.unshare()
        }
    }

    /// Asks for the one unshare call, with the flags of every kind in the registry joined.
    fn unshare(&mut self) -> (action: Action)
        ensures
            final(self)@ == (PinnsView { phase: Phase::Unsharing, ..old(self)@ }),
            action@ == (ActionView::Unshare { flags: unshare_mask(old(self)@.config.namespaces) }),
    {
        self.phase = Phase::Unsharing;
        Action::Unshare { flags: self.config.namespaces().unshare_flags() }
    }

    /// The descriptor of the namespace that is to be bound next, if one is left.
    fn next_namespace(&self) -> (next: Option<Namespace>)
        ensures
            match next {
                Some(namespace) => self@.target() == Some(namespace@.kind),
                None => self@.target().is_none(),
            },
    {
        let subset = self.config.namespaces().enabled_subset();
        let ghost kinds = subset@.map_values(|descriptor: Namespace| descriptor@.kind);
        assert(kinds.len() == subset@.len());
        assert(path_views(self.bound@).len() == self.bound@.len());
        if self.bound.len() < subset.len() {
            assert(kinds[self.bound@.len() as int] == subset@[self.bound@.len() as int]@.kind);
            Some(subset[self.bound.len()])
        } else {
            None
        }
    }

    /// Goes on to the next namespace in the fixed order: asks for its file, or, when every
    /// namespace is bound, ends the run as complete.
    fn bind_namespaces(&mut self) -> (action: Action)
        ensures
            final(self)@ == old(self)@.bind_next().0,
            action@ == old(self)@.bind_next().1,
    {
        match self.next_namespace() {
            Some(namespace) => {
                self.phase = Phase::Creating;
                let path = bind_path(self.config.dir(), namespace.name(), self.config.filename());
                Action::CreateFile { kind: namespace.kind(), path }
            },
            None => {
                self.phase = Phase::Complete;
                Action::Finish(Outcome::Complete { paths: copy_paths(&self.bound) })
            },
        }
    }

    /// Binds one namespace, step by step. Once its file is created, its handle is to be
    /// mounted on the file; once that is done, the file is recorded and the next namespace
    /// follows. A failure of either step ends the run: what was bound stays bound, and the
    /// namespaces that would follow are not tried.
    fn bind_namespace(&mut self, failure: Option<i32>) -> (action: Action)
        requires
            old(self)@.phase == Phase::Creating || old(self)@.phase == Phase::Mounting,
        ensures
            final(self)@ == old(self)@.step(reported(failure)).0,
            action@ == old(self)@.step(reported(failure)).1,
    {
        let namespace = match self.next_namespace() {
            Some(namespace) => namespace,
            None => {
                return Action::Unexpected;
            },
        };
        let kind = namespace.kind();
        let target = bind_path(self.config.dir(), namespace.name(), self.config.filename());
        match self.phase {
            Phase::Creating => match failure {
                None => {
                    self.phase = Phase::Mounting;
                    let source = proc_path(namespace.name());
                    Action::BindMount { kind, source, target }
                },
                Some(errno) => {
                    self.phase = Phase::PartiallyBound;
                    let bound = copy_paths(&self.bound);
                    let error = BindError::from_creation(target, errno);
                    Action::Finish(Outcome::PartiallyBound { bound, kind, error })
                },
            },
            _ => match failure {
                None => {
                    let ghost before = self.bound@;
                    self.bound.push(target);
                    assert(path_views(self.bound@) =~= path_views(before).push(target@));
                    self.bind_namespaces()
                },
                Some(errno) => {
                    self.phase = Phase::PartiallyBound;
                    let bound = copy_paths(&self.bound);
                    let source = proc_path(namespace.name());
                    let error = BindError::MountFailed { source, target, errno };
                    Action::Finish(Outcome::PartiallyBound { bound, kind, error })
                },
            },
        }
    }
}

/// The report that an action succeeded, or that it failed with an error number.
pub open spec fn reported(failure: Option<i32>) -> Event {
    match failure {
        None => Event::Succeeded,
        Some(errno) => Event::Failed(errno),
    }
}

impl Phase {
    /// How far the run has come: a phase with a higher rank comes later. The two phases
    /// of binding have the same rank, and so have the three in which the run is over.
    pub open spec fn rank(self) -> nat {
        match self {
            Phase::Unvalidated => 0,
            Phase::Probing => 1,
            Phase::Preparing => 2,
            Phase::Unsharing => 3,
            Phase::Creating => 4,
            Phase::Mounting => 4,
            Phase::Complete => 5,
            Phase::PartiallyBound => 5,
            Phase::Failed => 5,
        }
    }

    /// Whether the run is over.
    pub open spec fn is_final(self) -> bool {
        self.rank() == 5
    }

    /// Whether `event` is a report that the machine waits for in this phase.
    pub open spec fn awaits(self, event: Event) -> bool {
        match self {
            Phase::Unvalidated => event is Start,
            Phase::Probing => event is Probed,
            Phase::Preparing | Phase::Unsharing | Phase::Creating | Phase::Mounting => event
                is Succeeded || event is Failed,
            _ => false,
        }
    }
}

impl PinnsView {
    /// The state in which a run for `config` begins.
    pub open spec fn initial(config: ConfigView) -> PinnsView {
        PinnsView {
            config,
            probe: Probe::new(PathStatus::Missing),
            phase: Phase::Unvalidated,
            bound: Seq::empty(),
        }
    }

    /// The files of the kinds in the registry, in the fixed order.
    pub open spec fn bind_files(self) -> Seq<Seq<char>> {
        files_of(self.config.dir, self.config.filename, enabled_kinds(self.config.namespaces))
    }

    /// What holds of every state that a run can reach. From the moment the configuration
    /// is validated, the registry marks the kinds selected and the probe is acceptable;
    /// while directories are being created one is missing, and from the unshare call on
    /// none is; the files recorded as bound are
    /// those of the first kinds in the registry, in the fixed order; nothing is bound
    /// before the unshare call has succeeded; while a namespace is being bound one is left
    /// to bind, and in a complete run none is.
    pub open spec fn consistent(self) -> bool {
        &&& self.phase.rank() >= 2 && self.phase != Phase::Failed ==> {
            &&& self.config.namespaces == self.config.selection
            &&& acceptable(self.config.selection, self.probe)
        }
        &&& self.phase == Phase::Preparing ==> self.pending_dir().is_some()
        &&& self.phase.rank() >= 3 && self.phase != Phase::Failed ==> self.pending_dir().is_none()
        &&& self.bound == self.bind_files().take(self.bound.len() as int)
        &&& self.bound.len() <= self.bind_files().len()
        &&& self.phase.rank() <= 3 || self.phase == Phase::Failed ==> self.bound.len() == 0
        &&& self.phase.rank() == 4 || self.phase == Phase::PartiallyBound ==> self.bound.len()
            < self.bind_files().len()
        &&& self.phase == Phase::Complete ==> self.bound == self.bind_files()
    }
}

/// A run begins in a consistent state, and every step leads from a consistent state to a
/// consistent state.
pub proof fn lemma_run_stays_consistent(state: PinnsView, event: Event)
    ensures
        PinnsView::initial(state.config).consistent(),
        state.consistent() ==> state.step(event).0.consistent(),
{
    let first = PinnsView::initial(state.config);
    assert(first.bound =~= first.bind_files().take(0));
    if state.consistent() {
        let next = state.step(event).0;
        let missing = kinds_in_state(state.config.namespaces, state.probe, PathStatus::Missing);
        lemma_kinds_filtered(
            is_in_state(state.config.namespaces, state.probe, PathStatus::Missing),
        );
        match (state.phase, event) {
            (Phase::Probing, Event::Probed(probe)) => {
                lemma_validation_outcome(state.config.dir, state.config.selection, probe);
                assert(next.bound =~= next.bind_files().take(0));
            },
            (Phase::Preparing, Event::Succeeded) => {
                // The directory just created was missing for a kind that is asked for.
                assert(missing.contains(missing[0]));
            },
            (Phase::Unsharing, Event::Succeeded) => {
                // Nothing is bound yet; if nothing is to be bound, that is all of it.
                if next.phase == Phase::Complete {
                    assert(state.bind_files() =~= state.bound);
                }
            },
            (Phase::Mounting, Event::Succeeded) => {
                // The file recorded is the next of the files to bind.
                let kind = state.target()->Some_0;
                let pushed = state.bound.push(state.bind_file(kind));
                assert(pushed =~= state.bind_files().take(pushed.len() as int));
                assert(state.bind_files().take(state.bind_files().len() as int)
                    =~= state.bind_files());
            },
            _ => {},
        }
    }
}

/// A run never goes back, and never changes what was asked of it. The phase after a step
/// is the same or a later one; the target directory, the file name and the selection stay;
/// the registry is marked once, when the configuration is validated, and not touched again;
/// what was bound stays bound, and at most one file is added.
pub proof fn lemma_run_moves_forward(state: PinnsView, event: Event)
    ensures
        state.step(event).0.phase.rank() >= state.phase.rank(),
        state.step(event).0.config.dir == state.config.dir,
        state.step(event).0.config.filename == state.config.filename,
        state.step(event).0.config.selection == state.config.selection,
        state.phase != Phase::Probing ==> state.step(event).0.config.namespaces
            == state.config.namespaces,
        state.step(event).0.bound == state.bound || exists|path: Seq<char>|
            state.step(event).0.bound == state.bound.push(path),
{
    if let (Phase::Mounting, Event::Succeeded) = (state.phase, event) {
        if let Some(kind) = state.target() {
            assert(state.step(event).0.bound == state.bound.push(state.bind_file(kind)));
        }
    }
}

/// A run that is over stays over: whatever is reported, nothing changes and nothing is
/// asked for. So the files bound before a failure stay as they are, and no namespace is
/// tried after one that failed.
pub proof fn lemma_run_is_over(state: PinnsView, event: Event)
    requires
        state.phase.is_final(),
    ensures
        state.step(event) == (state, ActionView::Unexpected),
{
}

/// While a run is going on, a report that the machine waits for is never turned away.
pub proof fn lemma_run_goes_on(state: PinnsView, event: Event)
    requires
        state.consistent(),
        state.phase.awaits(event),
    ensures
        !(state.step(event).1 is Unexpected),
{
}

/// The namespaces are unshared at most once, and only after validation. The unshare call
/// is asked for only on the way from an earlier phase into `Unsharing`, to which no run
/// comes back; it then carries the flags of exactly the kinds selected, and every
/// directory that the binding needs is there.
pub proof fn lemma_unshare_once(state: PinnsView, event: Event)
    requires
        state.consistent(),
        state.step(event).1 is Unshare,
    ensures
        state.phase == Phase::Probing || state.phase == Phase::Preparing,
        state.step(event).0.phase == Phase::Unsharing,
        state.step(event).1 == (ActionView::Unshare {
            flags: unshare_mask(state.config.selection),
        }),
        acceptable(state.config.selection, state.step(event).0.probe),
        forall|kind: NamespaceKind|
            state.config.selection.contains(kind) ==> state.step(event).0.probe.spec_subdir(kind)
                == PathStatus::Directory,
{
    lemma_run_stays_consistent(state, event);
    let next = state.step(event).0;
    lemma_kinds_filtered(is_in_state(next.config.namespaces, next.probe, PathStatus::Missing));
    let missing = kinds_in_state(next.config.namespaces, next.probe, PathStatus::Missing);
    assert forall|kind: NamespaceKind|
        state.config.selection.contains(kind) implies next.probe.spec_subdir(kind)
        == PathStatus::Directory by {
        if next.probe.spec_subdir(kind) == PathStatus::Missing {
            assert(missing.contains(kind));
        }
    }
}

/// Nothing is asked of the kernel or of the file system before it is due. A directory is
/// created only once the configuration was found valid, and only where one is missing for
/// a kind selected; a file is created only after the
/// unshare call or the mount before it has succeeded; a handle is mounted only on a file
/// that was just created. The file is that of the namespace next in the fixed order.
pub proof fn lemma_actions_in_turn(state: PinnsView, event: Event)
    requires
        state.consistent(),
    ensures
        state.step(event).1 is Probe ==> state.phase == Phase::Unvalidated,
        state.step(event).1 matches ActionView::CreateDir { kind, path } ==> {
            &&& state.phase == Phase::Probing || state.phase == Phase::Preparing
            &&& event is Probed || event is Succeeded
            &&& acceptable(state.config.selection, state.step(event).0.probe)
            &&& state.config.selection.contains(kind)
            &&& state.step(event).0.probe.spec_subdir(kind) == PathStatus::Missing
            &&& path == parent_dir(state.config.dir, kind.proc_name())
        },
        state.step(event).1 matches ActionView::CreateFile { kind, path } ==> (state.phase
            == Phase::Unsharing || state.phase == Phase::Mounting) && event == Event::Succeeded
            && path == state.bind_files()[state.step(event).0.bound.len() as int]
            && state.step(event).0.target() == Some(kind),
        state.step(event).1 matches ActionView::BindMount { kind, source, target } ==> state.phase
            == Phase::Creating && event == Event::Succeeded && target
            == state.bind_files()[state.bound.len() as int] && source == proc_handle(
            kind.proc_name(),
        ) && state.target() == Some(kind),
{
    lemma_run_stays_consistent(state, event);
    let next = state.step(event).0;
    let missing = kinds_in_state(next.config.namespaces, next.probe, PathStatus::Missing);
    lemma_kinds_filtered(is_in_state(next.config.namespaces, next.probe, PathStatus::Missing));
    if missing.len() > 0 {
        assert(missing.contains(missing[0]));
    }
}

/// A file that is already there is never bound over. When the file for a namespace
/// cannot be created because one is there, the run ends with `AlreadyExists` for that
/// namespace and its path; what was bound before is reported and stays; no mount is asked
/// for, then or later.
pub proof fn lemma_existing_file_stops_run(state: PinnsView, kind: NamespaceKind, later: Event)
    requires
        state.phase == Phase::Creating,
        state.target() == Some(kind),
    ensures
        state.step(Event::Failed(file_exists())) == (
            PinnsView { phase: Phase::PartiallyBound, ..state },
            ActionView::Finish(
                OutcomeView::PartiallyBound {
                    bound: state.bound,
                    kind,
                    error: BindErrorView::AlreadyExists { path: state.bind_file(kind) },
                },
            ),
        ),
        state.step(Event::Failed(file_exists())).0.step(later) == (
            PinnsView { phase: Phase::PartiallyBound, ..state },
            ActionView::Unexpected,
        ),
{
}

/// A complete run has bound every kind selected, and reports the file of each in the
/// fixed order. A run that ends partially bound reports the files of the kinds before
/// the one that failed.
pub proof fn lemma_outcome_lists_bound_files(state: PinnsView, event: Event)
    requires
        state.consistent(),
    ensures
        state.step(event).1 matches ActionView::Finish(OutcomeView::Complete { paths }) ==> paths
            == files_of(
            state.config.dir,
            state.config.filename,
            enabled_kinds(state.config.selection),
        ),
        state.step(event).1 matches ActionView::Finish(
            OutcomeView::PartiallyBound { bound, kind, error },
        ) ==> {
            &&& bound.len() < enabled_kinds(state.config.selection).len()
            &&& kind == enabled_kinds(state.config.selection)[bound.len() as int]
            &&& bound == state.bind_files().take(bound.len() as int)
        },
{
    lemma_run_stays_consistent(state, event);
}

/// A configuration that validation turns down ends the run at once: the outcome is the
/// rejection, and nothing was asked for but the look at the directories.
pub proof fn lemma_rejected_run_stops(state: PinnsView, probe: Probe, later: Event)
    requires
        state.phase == Phase::Probing,
        !acceptable(state.config.selection, probe),
    ensures
        state.step(Event::Probed(probe)).1 matches ActionView::Finish(OutcomeView::Rejected(error))
            && validation(state.config.dir, state.config.selection, probe) == Err::<
            Seq<SubdirView>,
            ConfigErrorView,
        >(error),
        state.step(Event::Probed(probe)).0.phase == Phase::Failed,
        state.step(Event::Probed(probe)).0.step(later).1 is Unexpected,
{
    lemma_validation_outcome(state.config.dir, state.config.selection, probe);
}

} // verus!
