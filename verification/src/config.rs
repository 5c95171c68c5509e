//! The configuration of a pinning run, and its validation against what the file system holds.
use crate::namespace::{
    declared_kinds, enabled_kinds, is_requested, lemma_filter_next, lemma_kinds_filtered,
    NamespaceKind, Namespaces,
};
use crate::path::{namespace_dir, parent_dir};
use vstd::prelude::*;
use vstd::string::*;

verus! {

/// What was found at a path.
#[derive(Clone, Copy, Debug, PartialEq, Eq, Structural)]
pub enum PathStatus {
    /// Nothing is there.
    Missing,
    /// A directory is there.
    Directory,
    /// Something is there that is no directory.
    Other,
}

/// What was found at the target directory and at the directory of each kind under it.
#[derive(Clone, Copy, Debug, PartialEq, Eq, Structural)]
pub struct Probe {
    pub dir: PathStatus,
    pub cgroup: PathStatus,
    pub ipc: PathStatus,
    pub net: PathStatus,
    pub pid: PathStatus,
    pub user: PathStatus,
    pub uts: PathStatus,
}

impl Probe {
    /// What was found at the directory of `kind`.
    pub open spec fn spec_subdir(&self, kind: NamespaceKind) -> PathStatus {
        match kind {
            NamespaceKind::Cgroup => self.cgroup,
            NamespaceKind::Ipc => self.ipc,
            NamespaceKind::Net => self.net,
            NamespaceKind::Pid => self.pid,
            NamespaceKind::User => self.user,
            NamespaceKind::Uts => self.uts,
        }
    }

    /// The probe that differs from this one in what was found at the directory of `kind`.
    pub open spec fn with(self, kind: NamespaceKind, status: PathStatus) -> Probe {
        match kind {
            NamespaceKind::Cgroup => Probe { cgroup: status, ..self },
            NamespaceKind::Ipc => Probe { ipc: status, ..self },
            NamespaceKind::Net => Probe { net: status, ..self },
            NamespaceKind::Pid => Probe { pid: status, ..self },
            NamespaceKind::User => Probe { user: status, ..self },
            NamespaceKind::Uts => Probe { uts: status, ..self },
        }
    }

    /// The probe after each directory that was missing for a kind in `requested` has been
    /// created.
    pub open spec fn prepared(self, requested: Set<NamespaceKind>) -> Probe {
        Probe {
            dir: self.dir,
            cgroup: made(self.cgroup, requested.contains(NamespaceKind::Cgroup)),
            ipc: made(self.ipc, requested.contains(NamespaceKind::Ipc)),
            net: made(self.net, requested.contains(NamespaceKind::Net)),
            pid: made(self.pid, requested.contains(NamespaceKind::Pid)),
            user: made(self.user, requested.contains(NamespaceKind::User)),
            uts: made(self.uts, requested.contains(NamespaceKind::Uts)),
        }
    }

    /// A probe that found `dir` at the target directory and nothing under it.
    pub open spec fn spec_new(dir: PathStatus) -> Probe {
        Probe {
            dir,
            cgroup: PathStatus::Missing,
            ipc: PathStatus::Missing,
            net: PathStatus::Missing,
            pid: PathStatus::Missing,
            user: PathStatus::Missing,
            uts: PathStatus::Missing,
        }
    }

    /// A probe that found `dir` at the target directory and nothing under it.
    #[verifier::when_used_as_spec(spec_new)]
    pub fn new(dir: PathStatus) -> (probe: Probe)
        ensures
            probe == Probe::spec_new(dir),
    {
        Probe {
            dir,
            cgroup: PathStatus::Missing,
            ipc: PathStatus::Missing,
            net: PathStatus::Missing,
            pid: PathStatus::Missing,
            user: PathStatus::Missing,
            uts: PathStatus::Missing,
        }
    }

    /// What was found at the directory of `kind`.
    #[verifier::when_used_as_spec(spec_subdir)]
    pub fn subdir(&self, kind: NamespaceKind) -> (status: PathStatus)
        ensures
            status == self.spec_subdir(kind),
    {
        match kind {
            NamespaceKind::Cgroup => self.cgroup,
            NamespaceKind::Ipc => self.ipc,
            NamespaceKind::Net => self.net,
            NamespaceKind::Pid => self.pid,
            NamespaceKind::User => self.user,
            NamespaceKind::Uts => self.uts,
        }
    }

    /// Records what was found at the directory of `kind`.
    pub fn set(&mut self, kind: NamespaceKind, status: PathStatus)
        ensures
            *final(self) == old(self).with(kind, status),
    {
        match kind {
            NamespaceKind::Cgroup => { self.cgroup = status; },
            NamespaceKind::Ipc => { self.ipc = status; },
            NamespaceKind::Net => { self.net = status; },
            NamespaceKind::Pid => { self.pid = status; },
            NamespaceKind::User => { self.user = status; },
            NamespaceKind::Uts => { self.uts = status; },
        }
    }
}

/// What is at a path after a directory has been created there, if one was wanted and
/// nothing was there.
pub open spec fn made(status: PathStatus, wanted: bool) -> PathStatus {
    if wanted && status == PathStatus::Missing {
        PathStatus::Directory
    } else {
        status
    }
}

/// The directory of one kind.
#[derive(Debug, PartialEq, Eq)]
pub struct Subdir {
    pub kind: NamespaceKind,
    pub path: String,
}

/// A `Subdir` with its path as text.
pub struct SubdirView {
    pub kind: NamespaceKind,
    pub path: Seq<char>,
}

impl View for Subdir {
    type V = SubdirView;

    open spec fn view(&self) -> SubdirView {
        SubdirView { kind: self.kind, path: self.path@ }
    }
}

/// The views of `subdirs`, in their order.
pub open spec fn subdir_views(subdirs: Seq<Subdir>) -> Seq<SubdirView> {
    subdirs.map_values(|subdir: Subdir| subdir@)
}

/// Why a configuration was turned down.
#[derive(Debug, PartialEq, Eq)]
pub enum ConfigError {
    /// No namespace kind is asked for.
    NoNamespace,
    /// Nothing is at the target directory's path.
    Missing { path: String },
    /// The target directory, or the directory of a kind that is asked for, is no directory.
    NotADirectory { path: String },
}

/// A `ConfigError` with its path as text.
pub enum ConfigErrorView {
    NoNamespace,
    Missing { path: Seq<char> },
    NotADirectory { path: Seq<char> },
}

impl View for ConfigError {
    type V = ConfigErrorView;

    open spec fn view(&self) -> ConfigErrorView {
        match self {
            ConfigError::NoNamespace => ConfigErrorView::NoNamespace,
            ConfigError::Missing { path } => ConfigErrorView::Missing { path: path@ },
            ConfigError::NotADirectory { path } => ConfigErrorView::NotADirectory { path: path@ },
        }
    }
}

impl ConfigErrorView {
    /// The error in words.
    pub open spec fn message(self) -> Seq<char> {
        match self {
            ConfigErrorView::NoNamespace => "no namespace specified for pinning"@,
            ConfigErrorView::Missing { path } => "pin path "@ + path + " does not exist"@,
            ConfigErrorView::NotADirectory { path } => "pin path "@ + path
                + " is not a directory"@,
        }
    }
}

impl ConfigError {
    /// The error in words.
    pub fn message(&self) -> (text: String)
        ensures
            text@ == self@.message(),
    {
        match self {
            ConfigError::NoNamespace => String::from_str("no namespace specified for pinning"),
            ConfigError::Missing { path } => String::from_str("pin path ").concat(
                path.as_str(),
            ).concat(" does not exist"),
            ConfigError::NotADirectory { path } => String::from_str("pin path ").concat(
                path.as_str(),
            ).concat(" is not a directory"),
        }
    }
}

/// The test "is this kind asked for, and was this found at its directory?", as a predicate.
pub open spec fn is_in_state(
    requested: Set<NamespaceKind>,
    probe: Probe,
    status: PathStatus,
) -> spec_fn(NamespaceKind) -> bool {
    |kind: NamespaceKind| requested.contains(kind) && probe.spec_subdir(kind) == status
}

/// The kinds asked for at whose directory `status` was found, in the fixed order.
pub open spec fn kinds_in_state(
    requested: Set<NamespaceKind>,
    probe: Probe,
    status: PathStatus,
) -> Seq<NamespaceKind> {
    declared_kinds().filter(is_in_state(requested, probe, status))
}

/// The directories of `kinds` under `dir`, in their order.
pub open spec fn subdirs_of(dir: Seq<char>, kinds: Seq<NamespaceKind>) -> Seq<SubdirView> {
    kinds.map_values(
        |kind: NamespaceKind| SubdirView { kind, path: parent_dir(dir, kind.proc_name()) },
    )
}

/// Whether no kind is asked for.
pub open spec fn none_requested(requested: Set<NamespaceKind>) -> bool {
    forall|kind: NamespaceKind| !requested.contains(kind)
}

/// What validation decides for the target directory `dir`, the kinds `requested` and what
/// `probe` found. A request for no kind is turned down; so is a target that is missing or
/// no directory; so is a kind's directory that is no directory, the first such kind in the
/// fixed order being named. Otherwise the directories that are missing for the kinds asked
/// for are to be created, in the fixed order.
pub open spec fn validation(
    dir: Seq<char>,
    requested: Set<NamespaceKind>,
    probe: Probe,
) -> Result<Seq<SubdirView>, ConfigErrorView> {
    let blocked = kinds_in_state(requested, probe, PathStatus::Other);
    if none_requested(requested) {
        Err(ConfigErrorView::NoNamespace)
    } else if probe.dir == PathStatus::Missing {
        Err(ConfigErrorView::Missing { path: dir })
    } else if probe.dir == PathStatus::Other {
        Err(ConfigErrorView::NotADirectory { path: dir })
    } else if blocked.len() > 0 {
        Err(ConfigErrorView::NotADirectory { path: parent_dir(dir, blocked[0].proc_name()) })
    } else {
        Ok(subdirs_of(dir, kinds_in_state(requested, probe, PathStatus::Missing)))
    }
}

/// Whether validation lets the run go on: a kind is asked for, the target is a directory, and
/// no directory of a kind asked for is anything but a directory or missing.
pub open spec fn acceptable(requested: Set<NamespaceKind>, probe: Probe) -> bool {
    &&& !none_requested(requested)
    &&& probe.dir == PathStatus::Directory
    &&& forall|kind: NamespaceKind|
        requested.contains(kind) ==> probe.spec_subdir(kind) != PathStatus::Other
}

/// Validation fails when no kind is asked for, when the target is missing and when it is
/// no directory; it succeeds exactly on what is acceptable, and then names the directory
/// of each kind asked for that is missing, and of no other kind.
pub proof fn lemma_validation_outcome(dir: Seq<char>, requested: Set<NamespaceKind>, probe: Probe)
    ensures
        none_requested(requested) ==> validation(dir, requested, probe) == Err::<
            Seq<SubdirView>,
            ConfigErrorView,
        >(ConfigErrorView::NoNamespace),
        probe.dir != PathStatus::Directory ==> validation(dir, requested, probe) is Err,
        validation(dir, requested, probe) is Ok <==> acceptable(requested, probe),
        validation(dir, requested, probe) matches Ok(subdirs) ==> forall|kind: NamespaceKind|
            (exists|i: int| 0 <= i < subdirs.len() && subdirs[i].kind == kind) <==> (
            requested.contains(kind) && probe.spec_subdir(kind) == PathStatus::Missing),
{
    let blocked = kinds_in_state(requested, probe, PathStatus::Other);
    let missing = kinds_in_state(requested, probe, PathStatus::Missing);
    lemma_kinds_filtered(is_in_state(requested, probe, PathStatus::Other));
    lemma_kinds_filtered(is_in_state(requested, probe, PathStatus::Missing));
    if blocked.len() > 0 {
        assert(blocked.contains(blocked[0]));
    }
    if validation(dir, requested, probe) is Ok {
        assert forall|kind: NamespaceKind| requested.contains(kind) implies probe.spec_subdir(
            kind,
        ) != PathStatus::Other by {
            if probe.spec_subdir(kind) == PathStatus::Other {
                assert(blocked.contains(kind));
            }
        }
        let subdirs = subdirs_of(dir, missing);
        assert forall|kind: NamespaceKind|
            (exists|i: int| 0 <= i < subdirs.len() && subdirs[i].kind == kind) <==> (
            requested.contains(kind) && probe.spec_subdir(kind) == PathStatus::Missing) by {
            if requested.contains(kind) && probe.spec_subdir(kind) == PathStatus::Missing {
                assert(missing.contains(kind));
                let at = choose|at: int| 0 <= at < missing.len() && missing[at] == kind;
                assert(subdirs[at].kind == kind);
            }
            if exists|i: int| 0 <= i < subdirs.len() && subdirs[i].kind == kind {
                let at = choose|i: int| 0 <= i < subdirs.len() && subdirs[i].kind == kind;
                assert(missing.contains(missing[at]));
            }
        }
    }
}

/// Validation can be repeated. A configuration that was validated stays as it is when it
/// is validated again, and what was decided is decided again. Once the directories that a
/// successful validation named have been created, validation succeeds and names none.
pub proof fn lemma_validation_repeats(config: ConfigView, probe: Probe)
    requires
        validation(config.dir, config.selection, probe) is Ok,
    ensures
        config.validated().validated() == config.validated(),
        validation(config.validated().dir, config.validated().selection, probe) == validation(
            config.dir,
            config.selection,
            probe,
        ),
        validation(config.dir, config.selection, probe.prepared(config.selection)) == Ok::<
            Seq<SubdirView>,
            ConfigErrorView,
        >(Seq::empty()),
{
    let requested = config.selection;
    let after = probe.prepared(requested);
    lemma_validation_outcome(config.dir, requested, probe);
    assert forall|kind: NamespaceKind| requested.contains(kind) implies after.spec_subdir(kind)
        == PathStatus::Directory by {
        assert(probe.spec_subdir(kind) != PathStatus::Other);
    }
    let blocked = kinds_in_state(requested, after, PathStatus::Other);
    let missing = kinds_in_state(requested, after, PathStatus::Missing);
    lemma_kinds_filtered(is_in_state(requested, after, PathStatus::Other));
    lemma_kinds_filtered(is_in_state(requested, after, PathStatus::Missing));
    if blocked.len() > 0 {
        assert(blocked.contains(blocked[0]));
    }
    if missing.len() > 0 {
        assert(missing.contains(missing[0]));
    }
    assert(subdirs_of(config.dir, missing) =~= Seq::empty());
}

/// What a configuration holds: the target directory, the file name that each namespace is
/// pinned under, the kinds selected, and the kinds marked in its registry. Validation marks
/// in the registry the kinds selected.
pub struct ConfigView {
    pub dir: Seq<char>,
    pub filename: Seq<char>,
    pub selection: Set<NamespaceKind>,
    pub namespaces: Set<NamespaceKind>,
}

impl ConfigView {
    /// The configuration after validation has marked the kinds selected.
    pub open spec fn validated(self) -> ConfigView {
        ConfigView { namespaces: self.selection, ..self }
    }
}

/// The configuration of a pinning run.
#[derive(Debug)]
pub struct Config {
    dir: String,
    filename: String,
    cgroup: bool,
    ipc: bool,
    net: bool,
    pid: bool,
    user: bool,
    uts: bool,
    namespaces: Namespaces,
}

impl View for Config {
    type V = ConfigView;

    closed spec fn view(&self) -> ConfigView {
        ConfigView {
            dir: self.dir@,
            filename: self.filename@,
            selection: Set::new(|kind: NamespaceKind| self.flag(kind)),
            namespaces: self.namespaces@,
        }
    }
}

impl Config {
    spec fn flag(self, kind: NamespaceKind) -> bool {
        match kind {
            NamespaceKind::Cgroup => self.cgroup,
            NamespaceKind::Ipc => self.ipc,
            NamespaceKind::Net => self.net,
            NamespaceKind::Pid => self.pid,
            NamespaceKind::User => self.user,
            NamespaceKind::Uts => self.uts,
        }
    }

    /// A configuration for the target directory `dir` and the file name `filename`, with no
    /// kind selected.
    pub fn new(dir: &str, filename: &str) -> (config: Config)
        ensures
            config@ == (ConfigView {
                dir: dir@,
                filename: filename@,
                selection: Set::empty(),
                namespaces: Set::empty(),
            }),
    {
        let config = Config {
            dir: String::from_str(dir),
            filename: String::from_str(filename),
            cgroup: false,
            ipc: false,
            net: false,
            pid: false,
            user: false,
            uts: false,
            namespaces: Namespaces::default(),
        };
        assert(config@.selection =~= Set::empty());
        config
    }

    /// Selects `kind` for pinning, or takes the selection back.
    pub fn select(&mut self, kind: NamespaceKind, selected: bool)
        ensures
            final(self)@ == (ConfigView {
                selection: if selected {
                    old(self)@.selection.insert(kind)
                } else {
                    old(self)@.selection.remove(kind)
                },
                ..old(self)@
            }),
    {
        match kind {
            NamespaceKind::Cgroup => { self.cgroup = selected; },
            NamespaceKind::Ipc => { self.ipc = selected; },
            NamespaceKind::Net => { self.net = selected; },
            NamespaceKind::Pid => { self.pid = selected; },
            NamespaceKind::User => { self.user = selected; },
            NamespaceKind::Uts => { self.uts = selected; },
        }
        proof {
            assert(forall|k: NamespaceKind| k != kind ==> self.flag(k) == old(self).flag(k));
            if selected {
                assert(self@.selection =~= old(self)@.selection.insert(kind));
            } else {
                assert(self@.selection =~= old(self)@.selection.remove(kind));
            }
        }
    }

    /// Whether `kind` is selected for pinning.
    pub fn selected(&self, kind: NamespaceKind) -> (selected: bool)
        ensures
            selected == self@.selection.contains(kind),
    {
        match kind {
            NamespaceKind::Cgroup => self.cgroup,
            NamespaceKind::Ipc => self.ipc,
            NamespaceKind::Net => self.net,
            NamespaceKind::Pid => self.pid,
            NamespaceKind::User => self.user,
            NamespaceKind::Uts => self.uts,
        }
    }

    /// The target directory.
    pub fn dir(&self) -> (dir: &str)
        ensures
            dir@ == self@.dir,
    {
        self.dir.as_str()
    }

    /// The file name that each namespace is pinned under.
    pub fn filename(&self) -> (filename: &str)
        ensures
            filename@ == self@.filename,
    {
        self.filename.as_str()
    }

    /// The registry, in which validation marks the kinds selected.
    pub fn namespaces(&self) -> (registry: &Namespaces)
        ensures
            registry@ == self@.namespaces,
    {
        &self.namespaces
    }

    /// The directory of the namespace called `name`, under the target directory.
    pub fn parent_dir_for_namespace(&self, name: &str) -> (path: String)
        ensures
            path@ == parent_dir(self@.dir, name@),
    {
        namespace_dir(self.dir.as_str(), name)
    }

    /// The kinds selected, in the fixed order.
    pub fn selected_kinds(&self) -> (kinds: Vec<NamespaceKind>)
        ensures
            kinds@ == enabled_kinds(self@.selection),
    {
        let all = NamespaceKind::all();
        let ghost keep = is_requested(self@.selection);
        let mut kinds: Vec<NamespaceKind> = Vec::new();
        let mut i: usize = 0;
        assert(declared_kinds().take(0).filter(keep) =~= Seq::empty()) by {
            reveal(Seq::filter);
        }
        while i < 6
            invariant
                i <= 6,
                all@ == declared_kinds(),
                keep == is_requested(self@.selection),
                kinds@ == declared_kinds().take(i as int).filter(keep),
            decreases 6 - i,
        {
            proof {
                lemma_filter_next(declared_kinds(), keep, i as int);
            }
            let kind = all[i];
            if self.selected(kind) {
                kinds.push(kind);
            }
            i += 1;
        }
        assert(declared_kinds().take(6) =~= declared_kinds());
        kinds
    }

    /// The kinds marked in the registry at whose directory `probe` found `status`, in the
    /// fixed order.
    pub fn kinds_with(&self, probe: &Probe, status: PathStatus) -> (kinds: Vec<NamespaceKind>)
        ensures
            kinds@ == kinds_in_state(self@.namespaces, *probe, status),
    {
        let all = NamespaceKind::all();
        let ghost keep = is_in_state(self@.namespaces, *probe, status);
        let mut kinds: Vec<NamespaceKind> = Vec::new();
        let mut i: usize = 0;
        assert(declared_kinds().take(0).filter(keep) =~= Seq::empty()) by {
            reveal(Seq::filter);
        }
        while i < 6
            invariant
                i <= 6,
                all@ == declared_kinds(),
                keep == is_in_state(self@.namespaces, *probe, status),
                kinds@ == declared_kinds().take(i as int).filter(keep),
            decreases 6 - i,
        {
            proof {
                lemma_filter_next(declared_kinds(), keep, i as int);
            }
            let kind = all[i];
            if self.namespaces.get(kind).enabled() && probe.subdir(kind) == status {
                kinds.push(kind);
            }
            i += 1;
        }
        assert(declared_kinds().take(6) =~= declared_kinds());
        kinds
    }

    /// The directories of `kinds` under the target directory, in their order.
    pub fn subdirs(&self, kinds: &Vec<NamespaceKind>) -> (subdirs: Vec<Subdir>)
        ensures
            subdir_views(subdirs@) == subdirs_of(self@.dir, kinds@),
    {
        let mut subdirs: Vec<Subdir> = Vec::new();
        let mut i: usize = 0;
        while i < kinds.len()
            invariant
                i <= kinds.len(),
                subdir_views(subdirs@) =~= subdirs_of(self@.dir, kinds@.take(i as int)),
            decreases kinds.len() - i,
        {
            let kind = kinds[i];
            let path = self.parent_dir_for_namespace(kind.name());
            let ghost before = subdirs@;
            subdirs.push(Subdir { kind, path });
            proof {
                let wanted = subdirs_of(self@.dir, kinds@.take(i + 1));
                assert(subdir_views(before).len() == kinds@.take(i as int).len());
                assert(subdir_views(subdirs@).len() == wanted.len());
                assert forall|j: int| 0 <= j < wanted.len() implies subdir_views(subdirs@)[j]
                    == wanted[j] by {
                    if j < i {
                        assert(subdirs@[j] == before[j]);
                        assert(subdir_views(before)[j] == subdirs_of(
                            self@.dir,
                            kinds@.take(i as int),
                        )[j]);
                    }
                }
            }
            i += 1;
        }
        assert(kinds@.take(kinds.len() as int) =~= kinds@);
        subdirs
    }

    /// Validates the configuration against what `probe` found: marks in the registry the
    /// kinds selected, and decides as `validation` says. On success the directories to
    /// create are returned; nothing else has to be done before the namespaces are unshared.
    pub fn validate(&mut self, probe: &Probe) -> (result: Result<Vec<Subdir>, ConfigError>)
        ensures
            final(self)@ == old(self)@.validated(),
            none_requested(old(self)@.selection) ==> result matches Err(ConfigError::NoNamespace),
            probe.dir != PathStatus::Directory ==> result is Err,
            result is Ok <==> acceptable(old(self)@.selection, *probe),
            match result {
                Ok(subdirs) => validation(old(self)@.dir, old(self)@.selection, *probe) == Ok::<
                    Seq<SubdirView>,
                    ConfigErrorView,
                >(subdir_views(subdirs@)),
                Err(error) => validation(old(self)@.dir, old(self)@.selection, *probe) == Err::<
                    Seq<SubdirView>,
                    ConfigErrorView,
                >(error@),
            },
    {
        proof {
            lemma_validation_outcome(self@.dir, self@.selection, *probe);
        }
        self.namespaces.set_enabled(NamespaceKind::Cgroup, self.cgroup);
        self.namespaces.set_enabled(NamespaceKind::Ipc, self.ipc);
        self.namespaces.set_enabled(NamespaceKind::Net, self.net);
        self.namespaces.set_enabled(NamespaceKind::Pid, self.pid);
        self.namespaces.set_enabled(NamespaceKind::User, self.user);
        self.namespaces.set_enabled(NamespaceKind::Uts, self.uts);
        assert(self@.namespaces =~= old(self)@.selection);
        assert(self@.selection =~= old(self)@.selection);
        if !(self.cgroup || self.ipc || self.net || self.pid || self.user || self.uts) {
            assert(none_requested(self@.selection)) by {
                assert(forall|kind: NamespaceKind| self@.selection.contains(kind) == self.flag(kind));
            }
            return Err(ConfigError::NoNamespace);
        }
        assert(!none_requested(self@.selection)) by {
            assert(self.flag(NamespaceKind::Cgroup) || self.flag(NamespaceKind::Ipc) || self.flag(
                NamespaceKind::Net,
            ) || self.flag(NamespaceKind::Pid) || self.flag(NamespaceKind::User) || self.flag(
                NamespaceKind::Uts,
            ));
            assert(forall|kind: NamespaceKind| self@.selection.contains(kind) == self.flag(kind));
        }
        match probe.dir {
            PathStatus::Missing => {
                return Err(ConfigError::Missing { path: self.dir.clone() });
            },
            PathStatus::Other => {
                return Err(ConfigError::NotADirectory { path: self.dir.clone() });
            },
            PathStatus::Directory => {},
        }
        let blocked = self.kinds_with(probe, PathStatus::Other);
        if blocked.len() > 0 {
            let path = self.parent_dir_for_namespace(blocked[0].name());
            return Err(ConfigError::NotADirectory { path });
        }
        let missing = self.kinds_with(probe, PathStatus::Missing);
        Ok(self.subdirs(&missing))
    }
}

} // verus!
