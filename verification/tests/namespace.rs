use pinns::namespace::{Namespace, NamespaceKind, Namespaces};
use pinns::path::{bind_path, namespace_dir, proc_path};

fn kinds_of(descriptors: &[Namespace]) -> Vec<NamespaceKind> {
    descriptors.iter().map(|d| d.kind()).collect()
}

#[test]
fn kinds_come_in_the_fixed_order() {
    assert_eq!(
        NamespaceKind::all(),
        vec![
            NamespaceKind::Cgroup,
            NamespaceKind::Ipc,
            NamespaceKind::Net,
            NamespaceKind::Pid,
            NamespaceKind::User,
            NamespaceKind::Uts,
        ]
    );
}

#[test]
fn kind_names() {
    assert_eq!(NamespaceKind::Cgroup.name(), "cgroup");
    assert_eq!(NamespaceKind::Ipc.name(), "ipc");
    assert_eq!(NamespaceKind::Net.name(), "net");
    assert_eq!(NamespaceKind::Pid.name(), "pid");
    assert_eq!(NamespaceKind::User.name(), "user");
    assert_eq!(NamespaceKind::Uts.name(), "uts");
}

#[test]
fn kind_flags_are_those_of_the_kernel() {
    assert_eq!(NamespaceKind::Cgroup.clone_flag(), 0x0200_0000);
    assert_eq!(NamespaceKind::Uts.clone_flag(), 0x0400_0000);
    assert_eq!(NamespaceKind::Ipc.clone_flag(), 0x0800_0000);
    assert_eq!(NamespaceKind::User.clone_flag(), 0x1000_0000);
    assert_eq!(NamespaceKind::Pid.clone_flag(), 0x2000_0000);
    assert_eq!(NamespaceKind::Net.clone_flag(), 0x4000_0000);
}

#[test]
fn describe_gives_name_and_flag_of_the_kind() {
    for kind in NamespaceKind::all() {
        let d = Namespace::describe(kind);
        assert_eq!(d.kind(), kind);
        assert_eq!(d.name(), kind.name());
        assert_eq!(d.clone_flag(), kind.clone_flag());
        assert!(!d.enabled());
    }
}

#[test]
fn default_registry_asks_for_nothing() {
    let registry = Namespaces::default();
    assert_eq!(kinds_of(&registry.all()), NamespaceKind::all());
    assert!(registry.all().iter().all(|d| !d.enabled()));
    assert!(registry.enabled_subset().is_empty());
    assert_eq!(registry.unshare_flags(), 0);
    assert_eq!(registry.cgroup().name(), "cgroup");
    assert_eq!(registry.ipc().name(), "ipc");
    assert_eq!(registry.net().name(), "net");
    assert_eq!(registry.pid().name(), "pid");
    assert_eq!(registry.user().name(), "user");
    assert_eq!(registry.uts().name(), "uts");
}

#[test]
fn set_enabled_marks_one_kind() {
    let mut registry = Namespaces::default();
    registry.set_enabled(NamespaceKind::Net, true);
    assert!(registry.net().enabled());
    assert!(registry.get(NamespaceKind::Net).enabled());
    assert!(!registry.pid().enabled());
    assert_eq!(kinds_of(&registry.enabled_subset()), vec![NamespaceKind::Net]);
    registry.set_enabled(NamespaceKind::Net, false);
    assert!(registry.enabled_subset().is_empty());
}

#[test]
fn enabled_subset_keeps_the_fixed_order() {
    let asked = vec![NamespaceKind::Uts, NamespaceKind::Ipc];
    let turned = vec![NamespaceKind::Ipc, NamespaceKind::Uts];
    let expected = vec![NamespaceKind::Ipc, NamespaceKind::Uts];
    let first = Namespaces::from_kinds(&asked);
    let second = Namespaces::from_kinds(&turned);
    assert_eq!(kinds_of(&first.enabled_subset()), expected);
    assert_eq!(kinds_of(&second.enabled_subset()), expected);
    assert_eq!(kinds_of(&first.enabled_subset()), expected);
    assert!(first.enabled_subset().iter().all(|d| d.enabled()));
}

#[test]
fn enabled_subset_of_every_kind() {
    let asked = vec![
        NamespaceKind::Uts,
        NamespaceKind::User,
        NamespaceKind::Pid,
        NamespaceKind::Net,
        NamespaceKind::Ipc,
        NamespaceKind::Cgroup,
        NamespaceKind::Pid,
    ];
    let registry = Namespaces::from_kinds(&asked);
    assert_eq!(kinds_of(&registry.enabled_subset()), NamespaceKind::all());
    assert_eq!(registry.unshare_flags(), 0x7e00_0000);
}

#[test]
fn unshare_flags_do_not_depend_on_order() {
    let first = Namespaces::from_kinds(&vec![NamespaceKind::Ipc, NamespaceKind::Uts]);
    let second = Namespaces::from_kinds(&vec![NamespaceKind::Uts, NamespaceKind::Ipc]);
    assert_eq!(first.unshare_flags(), 0x0c00_0000);
    assert_eq!(second.unshare_flags(), 0x0c00_0000);
    let third = Namespaces::from_kinds(&vec![
        NamespaceKind::Uts,
        NamespaceKind::Ipc,
        NamespaceKind::Uts,
    ]);
    assert_eq!(third.unshare_flags(), 0x0c00_0000);
}

#[test]
fn unshare_flags_of_one_kind() {
    for kind in NamespaceKind::all() {
        assert_eq!(Namespaces::from_kinds(&vec![kind]).unshare_flags(), kind.clone_flag());
    }
    let net_and_cgroup = Namespaces::from_kinds(&vec![NamespaceKind::Net, NamespaceKind::Cgroup]);
    assert_eq!(net_and_cgroup.unshare_flags(), 0x4200_0000);
}

#[test]
fn paths_of_a_namespace() {
    assert_eq!(namespace_dir("/tmp/pins", "ipc"), "/tmp/pins/ipcns");
    assert_eq!(bind_path("/tmp/pins", "ipc", "ns1"), "/tmp/pins/ipcns/ns1");
    assert_eq!(bind_path("/tmp/pins", "uts", "ns1"), "/tmp/pins/utsns/ns1");
    assert_eq!(proc_path("uts"), "/proc/self/ns/uts");
    assert_eq!(proc_path("cgroup"), "/proc/self/ns/cgroup");
}

#[test]
fn paths_are_joined_as_paths() {
    assert_eq!(namespace_dir("/tmp/pins/", "net"), "/tmp/pins/netns");
    assert_eq!(namespace_dir("", "net"), "netns");
    assert_eq!(namespace_dir("pins", "net"), "pins/netns");
    assert_eq!(bind_path("/tmp/pins", "net", "/elsewhere"), "/elsewhere");
    assert_eq!(bind_path("/tmp/pins", "net", "a/b"), "/tmp/pins/netns/a/b");
}
