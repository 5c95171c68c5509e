use pinns::{
    Action, BindError, Config, ConfigError, Event, NamespaceKind, Outcome, PathStatus, Phase,
    Pinns, Probe, Subdir,
};

fn request() -> Config {
    let mut config = Config::new("/tmp/pins", "ns1");
    config.select(NamespaceKind::Ipc, true);
    config.select(NamespaceKind::Uts, true);
    config
}

fn subdir(kind: NamespaceKind, path: &str) -> Subdir {
    Subdir { kind, path: path.to_string() }
}

fn create_file(kind: NamespaceKind, path: &str) -> Action {
    Action::CreateFile { kind, path: path.to_string() }
}

fn bind_mount(kind: NamespaceKind, source: &str, target: &str) -> Action {
    Action::BindMount { kind, source: source.to_string(), target: target.to_string() }
}

/// A run up to the unshare call, on a target directory that is there and empty.
fn unshared() -> Pinns {
    let mut pinns = Pinns::new(request());
    pinns.run(Event::Start);
    pinns.run(Event::Probed(Probe::new(PathStatus::Directory)));
    pinns.run(Event::Succeeded);
    let action = pinns.run(Event::Succeeded);
    assert_eq!(action, Action::Unshare { flags: 0x0c00_0000 });
    pinns
}

#[test]
fn run_pins_both_namespaces() {
    let mut pinns = Pinns::new(request());
    assert_eq!(pinns.phase(), Phase::Unvalidated);
    assert_eq!(
        pinns.run(Event::Start),
        Action::Probe {
            dir: "/tmp/pins".to_string(),
            subdirs: vec![
                subdir(NamespaceKind::Ipc, "/tmp/pins/ipcns"),
                subdir(NamespaceKind::Uts, "/tmp/pins/utsns"),
            ],
        }
    );
    assert_eq!(pinns.phase(), Phase::Probing);
    assert_eq!(
        pinns.run(Event::Probed(Probe::new(PathStatus::Directory))),
        Action::CreateDir { kind: NamespaceKind::Ipc, path: "/tmp/pins/ipcns".to_string() }
    );
    assert_eq!(pinns.phase(), Phase::Preparing);
    assert_eq!(
        pinns.run(Event::Succeeded),
        Action::CreateDir { kind: NamespaceKind::Uts, path: "/tmp/pins/utsns".to_string() }
    );
    assert_eq!(pinns.run(Event::Succeeded), Action::Unshare { flags: 0x0c00_0000 });
    assert_eq!(pinns.phase(), Phase::Unsharing);
    assert_eq!(
        pinns.run(Event::Succeeded),
        create_file(NamespaceKind::Ipc, "/tmp/pins/ipcns/ns1")
    );
    assert_eq!(pinns.phase(), Phase::Creating);
    assert_eq!(
        pinns.run(Event::Succeeded),
        bind_mount(NamespaceKind::Ipc, "/proc/self/ns/ipc", "/tmp/pins/ipcns/ns1")
    );
    assert_eq!(pinns.phase(), Phase::Mounting);
    assert_eq!(
        pinns.run(Event::Succeeded),
        create_file(NamespaceKind::Uts, "/tmp/pins/utsns/ns1")
    );
    assert_eq!(pinns.bound(), &vec!["/tmp/pins/ipcns/ns1".to_string()]);
    assert_eq!(
        pinns.run(Event::Succeeded),
        bind_mount(NamespaceKind::Uts, "/proc/self/ns/uts", "/tmp/pins/utsns/ns1")
    );
    let done = pinns.run(Event::Succeeded);
    assert_eq!(
        done,
        Action::Finish(Outcome::Complete {
            paths: vec!["/tmp/pins/ipcns/ns1".to_string(), "/tmp/pins/utsns/ns1".to_string()],
        })
    );
    assert_eq!(pinns.phase(), Phase::Complete);
    assert_eq!(pinns.run(Event::Succeeded), Action::Unexpected);
    assert_eq!(pinns.phase(), Phase::Complete);
}

#[test]
fn run_stops_at_a_file_that_exists() {
    let mut pinns = unshared();
    assert_eq!(
        pinns.run(Event::Succeeded),
        create_file(NamespaceKind::Ipc, "/tmp/pins/ipcns/ns1")
    );
    pinns.run(Event::Succeeded);
    assert_eq!(
        pinns.run(Event::Succeeded),
        create_file(NamespaceKind::Uts, "/tmp/pins/utsns/ns1")
    );
    let done = pinns.run(Event::Failed(17));
    assert_eq!(
        done,
        Action::Finish(Outcome::PartiallyBound {
            bound: vec!["/tmp/pins/ipcns/ns1".to_string()],
            kind: NamespaceKind::Uts,
            error: BindError::AlreadyExists { path: "/tmp/pins/utsns/ns1".to_string() },
        })
    );
    assert_eq!(pinns.phase(), Phase::PartiallyBound);
    assert_eq!(pinns.bound(), &vec!["/tmp/pins/ipcns/ns1".to_string()]);
    assert_eq!(pinns.run(Event::Succeeded), Action::Unexpected);
    assert_eq!(pinns.run(Event::Failed(17)), Action::Unexpected);
    assert_eq!(pinns.run(Event::Start), Action::Unexpected);
    assert_eq!(pinns.phase(), Phase::PartiallyBound);
    assert_eq!(pinns.bound(), &vec!["/tmp/pins/ipcns/ns1".to_string()]);
}

#[test]
fn run_stops_at_the_first_namespace_that_exists() {
    let mut pinns = unshared();
    pinns.run(Event::Succeeded);
    assert_eq!(
        pinns.run(Event::Failed(17)),
        Action::Finish(Outcome::PartiallyBound {
            bound: vec![],
            kind: NamespaceKind::Ipc,
            error: BindError::AlreadyExists { path: "/tmp/pins/ipcns/ns1".to_string() },
        })
    );
    assert_eq!(pinns.run(Event::Succeeded), Action::Unexpected);
}

#[test]
fn run_fails_on_missing_target_directory() {
    let mut pinns = Pinns::new(request());
    pinns.run(Event::Start);
    assert_eq!(
        pinns.run(Event::Probed(Probe::new(PathStatus::Missing))),
        Action::Finish(Outcome::Rejected(ConfigError::Missing { path: "/tmp/pins".to_string() }))
    );
    assert_eq!(pinns.phase(), Phase::Failed);
    assert_eq!(pinns.run(Event::Succeeded), Action::Unexpected);
    assert_eq!(pinns.run(Event::Start), Action::Unexpected);
    assert!(pinns.bound().is_empty());
}

#[test]
fn run_fails_on_target_that_is_a_file() {
    let mut pinns = Pinns::new(request());
    pinns.run(Event::Start);
    assert_eq!(
        pinns.run(Event::Probed(Probe::new(PathStatus::Other))),
        Action::Finish(Outcome::Rejected(ConfigError::NotADirectory {
            path: "/tmp/pins".to_string()
        }))
    );
}

#[test]
fn run_without_namespaces_asks_for_nothing() {
    let mut pinns = Pinns::new(Config::new("/tmp/pins", "ns1"));
    assert_eq!(
        pinns.run(Event::Start),
        Action::Finish(Outcome::Rejected(ConfigError::NoNamespace))
    );
    assert_eq!(pinns.phase(), Phase::Failed);
    assert_eq!(pinns.run(Event::Probed(Probe::new(PathStatus::Directory))), Action::Unexpected);
}

#[test]
fn run_skips_directories_that_are_there() {
    let mut pinns = Pinns::new(request());
    pinns.run(Event::Start);
    let mut probe = Probe::new(PathStatus::Directory);
    probe.set(NamespaceKind::Ipc, PathStatus::Directory);
    assert_eq!(
        pinns.run(Event::Probed(probe)),
        Action::CreateDir { kind: NamespaceKind::Uts, path: "/tmp/pins/utsns".to_string() }
    );
    assert_eq!(pinns.run(Event::Succeeded), Action::Unshare { flags: 0x0c00_0000 });

    let mut again = Pinns::new(request());
    again.run(Event::Start);
    probe.set(NamespaceKind::Uts, PathStatus::Directory);
    assert_eq!(again.run(Event::Probed(probe)), Action::Unshare { flags: 0x0c00_0000 });
}

#[test]
fn run_fails_when_a_directory_cannot_be_created() {
    let mut pinns = Pinns::new(request());
    pinns.run(Event::Start);
    pinns.run(Event::Probed(Probe::new(PathStatus::Directory)));
    assert_eq!(
        pinns.run(Event::Failed(13)),
        Action::Finish(Outcome::DirectoryFailed { path: "/tmp/pins/ipcns".to_string(), errno: 13 })
    );
    assert_eq!(pinns.phase(), Phase::Failed);
    assert_eq!(pinns.run(Event::Succeeded), Action::Unexpected);
}

#[test]
fn run_fails_when_unshare_fails() {
    let mut pinns = unshared();
    assert_eq!(
        pinns.run(Event::Failed(1)),
        Action::Finish(Outcome::UnshareFailed { flags: 0x0c00_0000, errno: 1 })
    );
    assert_eq!(pinns.phase(), Phase::Failed);
    assert!(pinns.bound().is_empty());
    assert_eq!(pinns.run(Event::Succeeded), Action::Unexpected);
}

#[test]
fn run_reports_other_creation_failures_as_io() {
    let mut pinns = unshared();
    pinns.run(Event::Succeeded);
    assert_eq!(
        pinns.run(Event::Failed(13)),
        Action::Finish(Outcome::PartiallyBound {
            bound: vec![],
            kind: NamespaceKind::Ipc,
            error: BindError::Io { path: "/tmp/pins/ipcns/ns1".to_string(), errno: 13 },
        })
    );
}

#[test]
fn run_reports_a_failed_mount() {
    let mut pinns = unshared();
    pinns.run(Event::Succeeded);
    pinns.run(Event::Succeeded);
    pinns.run(Event::Succeeded);
    pinns.run(Event::Succeeded);
    assert_eq!(pinns.phase(), Phase::Mounting);
    assert_eq!(
        pinns.run(Event::Failed(1)),
        Action::Finish(Outcome::PartiallyBound {
            bound: vec!["/tmp/pins/ipcns/ns1".to_string()],
            kind: NamespaceKind::Uts,
            error: BindError::MountFailed {
                source: "/proc/self/ns/uts".to_string(),
                target: "/tmp/pins/utsns/ns1".to_string(),
                errno: 1,
            },
        })
    );
    assert_eq!(pinns.phase(), Phase::PartiallyBound);
    assert_eq!(pinns.run(Event::Succeeded), Action::Unexpected);
}

#[test]
fn run_turns_away_reports_out_of_turn() {
    let mut pinns = Pinns::new(request());
    assert_eq!(pinns.run(Event::Succeeded), Action::Unexpected);
    assert_eq!(pinns.run(Event::Failed(2)), Action::Unexpected);
    assert_eq!(pinns.run(Event::Probed(Probe::new(PathStatus::Directory))), Action::Unexpected);
    assert_eq!(pinns.phase(), Phase::Unvalidated);
    pinns.run(Event::Start);
    assert_eq!(pinns.run(Event::Start), Action::Unexpected);
    assert_eq!(pinns.run(Event::Succeeded), Action::Unexpected);
    assert_eq!(pinns.phase(), Phase::Probing);
    pinns.run(Event::Probed(Probe::new(PathStatus::Directory)));
    assert_eq!(pinns.run(Event::Start), Action::Unexpected);
    assert_eq!(pinns.run(Event::Probed(Probe::new(PathStatus::Directory))), Action::Unexpected);
    assert_eq!(pinns.phase(), Phase::Preparing);
}

#[test]
fn run_is_the_same_for_any_order_of_selection() {
    let mut turned = Config::new("/tmp/pins", "ns1");
    turned.select(NamespaceKind::Uts, true);
    turned.select(NamespaceKind::Ipc, true);
    let mut first = Pinns::new(request());
    let mut second = Pinns::new(turned);
    let mut event = Event::Start;
    for round in 0..9 {
        let one = first.run(event);
        let two = second.run(event);
        assert_eq!(one, two);
        event = if round == 0 { Event::Probed(Probe::new(PathStatus::Directory)) } else { Event::Succeeded };
    }
    assert_eq!(first.phase(), Phase::Complete);
    assert_eq!(second.phase(), Phase::Complete);
}

#[test]
fn bind_error_from_creation() {
    assert_eq!(
        BindError::from_creation("/tmp/pins/utsns/ns1".to_string(), 17),
        BindError::AlreadyExists { path: "/tmp/pins/utsns/ns1".to_string() }
    );
    assert_eq!(
        BindError::from_creation("/tmp/pins/utsns/ns1".to_string(), 13),
        BindError::Io { path: "/tmp/pins/utsns/ns1".to_string(), errno: 13 }
    );
    assert_eq!(
        BindError::from_creation("/tmp/pins/utsns/ns1".to_string(), 0),
        BindError::Io { path: "/tmp/pins/utsns/ns1".to_string(), errno: 0 }
    );
}

#[test]
fn outcome_messages_and_error_numbers() {
    let exists = BindError::AlreadyExists { path: "/p/utsns/f".to_string() };
    assert_eq!(exists.message(), "unable to create namespace file /p/utsns/f");
    assert_eq!(exists.errno(), 17);
    let io = BindError::Io { path: "/p/utsns/f".to_string(), errno: 28 };
    assert_eq!(io.message(), "unable to create namespace file /p/utsns/f");
    assert_eq!(io.errno(), 28);
    let mount = BindError::MountFailed {
        source: "/proc/self/ns/uts".to_string(),
        target: "/p/utsns/f".to_string(),
        errno: 1,
    };
    assert_eq!(mount.message(), "unable to bind mount namespace /proc/self/ns/uts");
    assert_eq!(mount.errno(), 1);

    let complete = Outcome::Complete { paths: vec![] };
    assert!(complete.is_complete());
    assert_eq!(complete.message(), None);
    assert_eq!(complete.errno(), None);
    let partial = Outcome::PartiallyBound { bound: vec![], kind: NamespaceKind::Uts, error: mount };
    assert!(!partial.is_complete());
    assert_eq!(partial.message(), Some("unable to bind mount namespace /proc/self/ns/uts".to_string()));
    assert_eq!(partial.errno(), Some(1));
    let rejected = Outcome::Rejected(ConfigError::NoNamespace);
    assert_eq!(rejected.message(), Some("no namespace specified for pinning".to_string()));
    assert_eq!(rejected.errno(), None);
    let directory = Outcome::DirectoryFailed { path: "/p/utsns".to_string(), errno: 13 };
    assert_eq!(directory.message(), None);
    assert_eq!(directory.errno(), Some(13));
    let unshare = Outcome::UnshareFailed { flags: 0x0400_0000, errno: 1 };
    assert_eq!(unshare.message(), Some("failed to unshare namespaces".to_string()));
    assert_eq!(unshare.errno(), Some(1));
}
