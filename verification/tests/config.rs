use pinns::config::{Config, ConfigError, PathStatus, Probe, Subdir};
use pinns::namespace::NamespaceKind;

fn subdir(kind: NamespaceKind, path: &str) -> Subdir {
    Subdir { kind, path: path.to_string() }
}

#[test]
fn validate_success() {
    let mut c = Config::new("/tmp", "pin");
    c.select(NamespaceKind::Cgroup, true);
    let probe = Probe::new(PathStatus::Directory);
    assert_eq!(c.validate(&probe), Ok(vec![subdir(NamespaceKind::Cgroup, "/tmp/cgroupns")]));
}

#[test]
fn validate_failed_no_namespaces() {
    let mut c = Config::new("/tmp", "pin");
    let probe = Probe::new(PathStatus::Directory);
    assert!(c.validate(&probe).is_err())
}

#[test]
fn validate_failed_not_existing_path() {
    let mut c = Config::new("/not/existing/path", "pin");
    let probe = Probe::new(PathStatus::Missing);
    assert!(c.validate(&probe).is_err())
}

#[test]
fn validate_failed_path_not_dir() {
    let mut c = Config::new("/tmp/some-file", "pin");
    let probe = Probe::new(PathStatus::Other);
    assert!(c.validate(&probe).is_err());
}

#[test]
fn validate_failed_parent_dir_file() {
    let mut c = Config::new("/tmp", "pin");
    c.select(NamespaceKind::Uts, true);
    assert_eq!(c.parent_dir_for_namespace("uts"), "/tmp/utsns");
    let mut probe = Probe::new(PathStatus::Directory);
    probe.set(NamespaceKind::Uts, PathStatus::Other);
    assert!(c.validate(&probe).is_err());
}

#[test]
fn validate_names_each_error() {
    let mut none = Config::new("/tmp", "pin");
    assert_eq!(none.validate(&Probe::new(PathStatus::Directory)), Err(ConfigError::NoNamespace));
    assert_eq!(none.validate(&Probe::new(PathStatus::Missing)), Err(ConfigError::NoNamespace));

    let mut c = Config::new("/srv/pins", "pin");
    c.select(NamespaceKind::Net, true);
    assert_eq!(
        c.validate(&Probe::new(PathStatus::Missing)),
        Err(ConfigError::Missing { path: "/srv/pins".to_string() })
    );
    assert_eq!(
        c.validate(&Probe::new(PathStatus::Other)),
        Err(ConfigError::NotADirectory { path: "/srv/pins".to_string() })
    );
    let mut probe = Probe::new(PathStatus::Directory);
    probe.set(NamespaceKind::Net, PathStatus::Other);
    assert_eq!(
        c.validate(&probe),
        Err(ConfigError::NotADirectory { path: "/srv/pins/netns".to_string() })
    );
}

#[test]
fn validate_names_first_blocked_kind_in_fixed_order() {
    let mut c = Config::new("/srv/pins", "pin");
    c.select(NamespaceKind::Uts, true);
    c.select(NamespaceKind::Ipc, true);
    c.select(NamespaceKind::Pid, true);
    let mut probe = Probe::new(PathStatus::Directory);
    probe.set(NamespaceKind::Uts, PathStatus::Other);
    probe.set(NamespaceKind::Pid, PathStatus::Other);
    assert_eq!(
        c.validate(&probe),
        Err(ConfigError::NotADirectory { path: "/srv/pins/pidns".to_string() })
    );
}

#[test]
fn validate_ignores_kinds_not_selected() {
    let mut c = Config::new("/srv/pins", "pin");
    c.select(NamespaceKind::Ipc, true);
    let mut probe = Probe::new(PathStatus::Directory);
    probe.set(NamespaceKind::Ipc, PathStatus::Directory);
    probe.set(NamespaceKind::Net, PathStatus::Other);
    probe.set(NamespaceKind::User, PathStatus::Missing);
    assert_eq!(c.validate(&probe), Ok(vec![]));
}

#[test]
fn validate_lists_missing_directories_in_fixed_order() {
    let mut c = Config::new("/srv/pins", "pin");
    c.select(NamespaceKind::Uts, true);
    c.select(NamespaceKind::Cgroup, true);
    c.select(NamespaceKind::User, true);
    c.select(NamespaceKind::Net, true);
    let mut probe = Probe::new(PathStatus::Directory);
    probe.set(NamespaceKind::Net, PathStatus::Directory);
    assert_eq!(
        c.validate(&probe),
        Ok(vec![
            subdir(NamespaceKind::Cgroup, "/srv/pins/cgroupns"),
            subdir(NamespaceKind::User, "/srv/pins/userns"),
            subdir(NamespaceKind::Uts, "/srv/pins/utsns"),
        ])
    );
}

#[test]
fn validate_marks_the_selection_in_the_registry() {
    let mut c = Config::new("/srv/pins", "pin");
    c.select(NamespaceKind::Pid, true);
    c.select(NamespaceKind::Ipc, true);
    c.select(NamespaceKind::Ipc, false);
    assert!(!c.namespaces().pid().enabled());
    assert!(c.validate(&Probe::new(PathStatus::Directory)).is_ok());
    assert!(c.namespaces().pid().enabled());
    assert!(!c.namespaces().ipc().enabled());
    assert!(!c.namespaces().cgroup().enabled());
    assert!(c.selected(NamespaceKind::Pid));
    assert!(!c.selected(NamespaceKind::Ipc));
}

#[test]
fn validate_twice_creates_nothing_twice() {
    let mut c = Config::new("/srv/pins", "pin");
    c.select(NamespaceKind::Ipc, true);
    c.select(NamespaceKind::Uts, true);
    let mut probe = Probe::new(PathStatus::Directory);
    let first = c.validate(&probe).unwrap();
    assert_eq!(
        first,
        vec![subdir(NamespaceKind::Ipc, "/srv/pins/ipcns"), subdir(NamespaceKind::Uts, "/srv/pins/utsns")]
    );
    let second = c.validate(&probe).unwrap();
    assert_eq!(second, first);
    for made in &first {
        probe.set(made.kind, PathStatus::Directory);
    }
    assert_eq!(c.validate(&probe), Ok(vec![]));
    assert_eq!(c.validate(&probe), Ok(vec![]));
}

#[test]
fn config_error_messages() {
    assert_eq!(ConfigError::NoNamespace.message(), "no namespace specified for pinning");
    assert_eq!(
        ConfigError::Missing { path: "/not/existing/path".to_string() }.message(),
        "pin path /not/existing/path does not exist"
    );
    assert_eq!(
        ConfigError::NotADirectory { path: "/tmp/utsns".to_string() }.message(),
        "pin path /tmp/utsns is not a directory"
    );
}

#[test]
fn config_getters() {
    let c = Config::new("/srv/pins", "one");
    assert_eq!(c.dir(), "/srv/pins");
    assert_eq!(c.filename(), "one");
    assert_eq!(c.parent_dir_for_namespace("net"), "/srv/pins/netns");
    assert_eq!(c.selected_kinds(), vec![]);
}

#[test]
fn probe_records_what_was_found() {
    let mut probe = Probe::new(PathStatus::Directory);
    assert_eq!(probe.dir, PathStatus::Directory);
    for kind in NamespaceKind::all() {
        assert_eq!(probe.subdir(kind), PathStatus::Missing);
    }
    probe.set(NamespaceKind::User, PathStatus::Other);
    assert_eq!(probe.subdir(NamespaceKind::User), PathStatus::Other);
    assert_eq!(probe.subdir(NamespaceKind::Uts), PathStatus::Missing);
    assert_eq!(probe.dir, PathStatus::Directory);
}
