//! The catalogue of namespace kinds: their names under `/proc/self/ns` and their unshare flags.
use nix::sched::CloneFlags;
use vstd::prelude::*;

verus! {

/// A kind of Linux namespace that can be pinned. The order of the variants is the order in
/// which namespaces are listed, unshared and bound.
#[derive(Clone, Copy, Debug, PartialEq, Eq, Hash, Structural)]
pub enum NamespaceKind {
    Cgroup,
    Ipc,
    Net,
    Pid,
    User,
    Uts,
}

/// `CloneFlags::CLONE_NEWCGROUP.bits()` of nix: the value of libc's `CLONE_NEWCGROUP` on Linux.
#[verifier::external_body]
fn clone_newcgroup() -> (bits: i32)
    ensures
        bits == 0x0200_0000i32,
{
    CloneFlags::CLONE_NEWCGROUP.bits()
}

/// `CloneFlags::CLONE_NEWIPC.bits()` of nix: the value of libc's `CLONE_NEWIPC` on Linux.
#[verifier::external_body]
fn clone_newipc() -> (bits: i32)
    ensures
        bits == 0x0800_0000i32,
{
    CloneFlags::CLONE_NEWIPC.bits()
}

/// `CloneFlags::CLONE_NEWNET.bits()` of nix: the value of libc's `CLONE_NEWNET` on Linux.
#[verifier::external_body]
fn clone_newnet() -> (bits: i32)
    ensures
        bits == 0x4000_0000i32,
{
    CloneFlags::CLONE_NEWNET.bits()
}

/// `CloneFlags::CLONE_NEWPID.bits()` of nix: the value of libc's `CLONE_NEWPID` on Linux.
#[verifier::external_body]
fn clone_newpid() -> (bits: i32)
    ensures
        bits == 0x2000_0000i32,
{
    CloneFlags::CLONE_NEWPID.bits()
}

/// `CloneFlags::CLONE_NEWUSER.bits()` of nix: the value of libc's `CLONE_NEWUSER` on Linux.
#[verifier::external_body]
fn clone_newuser() -> (bits: i32)
    ensures
        bits == 0x1000_0000i32,
{
    CloneFlags::CLONE_NEWUSER.bits()
}

/// `CloneFlags::CLONE_NEWUTS.bits()` of nix: the value of libc's `CLONE_NEWUTS` on Linux.
#[verifier::external_body]
fn clone_newuts() -> (bits: i32)
    ensures
        bits == 0x0400_0000i32,
{
    CloneFlags::CLONE_NEWUTS.bits()
}

impl NamespaceKind {
    /// The place of the kind in the fixed order, from 0.
    pub open spec fn position(self) -> nat {
        match self {
            NamespaceKind::Cgroup => 0,
            NamespaceKind::Ipc => 1,
            NamespaceKind::Net => 2,
            NamespaceKind::Pid => 3,
            NamespaceKind::User => 4,
            NamespaceKind::Uts => 5,
        }
    }

    /// The name of the kind's handle under `/proc/self/ns`.
    pub open spec fn proc_name(self) -> Seq<char> {
        match self {
            NamespaceKind::Cgroup => "cgroup"@,
            NamespaceKind::Ipc => "ipc"@,
            NamespaceKind::Net => "net"@,
            NamespaceKind::Pid => "pid"@,
            NamespaceKind::User => "user"@,
            NamespaceKind::Uts => "uts"@,
        }
    }

    /// The bit that asks the kernel to unshare a namespace of this kind.
    pub open spec fn flag_bits(self) -> i32 {
        match self {
            NamespaceKind::Cgroup => 0x0200_0000i32,
            NamespaceKind::Ipc => 0x0800_0000i32,
            NamespaceKind::Net => 0x4000_0000i32,
            NamespaceKind::Pid => 0x2000_0000i32,
            NamespaceKind::User => 0x1000_0000i32,
            NamespaceKind::Uts => 0x0400_0000i32,
        }
    }

    /// The name of the kind's handle under `/proc/self/ns`.
    pub fn name(self) -> (name: &'static str)
        ensures
            name@ == self.proc_name(),
    {
        match self {
            NamespaceKind::Cgroup => "cgroup",
            NamespaceKind::Ipc => "ipc",
            NamespaceKind::Net => "net",
            NamespaceKind::Pid => "pid",
            NamespaceKind::User => "user",
            NamespaceKind::Uts => "uts",
        }
    }

    /// Every kind, in the fixed order.
    pub fn all() -> (kinds: Vec<NamespaceKind>)
        ensures
            kinds@ == declared_kinds(),
    {
        let kinds = vec![
            NamespaceKind::Cgroup,
            NamespaceKind::Ipc,
            NamespaceKind::Net,
            NamespaceKind::Pid,
            NamespaceKind::User,
            NamespaceKind::Uts,
        ];
        assert(kinds@ =~= declared_kinds());
        kinds
    }

    /// The unshare flag of the kind, as the kernel takes it.
    pub fn clone_flag(self) -> (bits: i32)
        ensures
            bits == self.flag_bits(),
    {
        match self {
            NamespaceKind::Cgroup => clone_newcgroup(),
            NamespaceKind::Ipc => clone_newipc(),
            NamespaceKind::Net => clone_newnet(),
            NamespaceKind::Pid => clone_newpid(),
            NamespaceKind::User => clone_newuser(),
            NamespaceKind::Uts => clone_newuts(),
        }
    }
}

/// The kinds in their fixed order.
pub open spec fn declared_kinds() -> Seq<NamespaceKind> {
    seq![
        NamespaceKind::Cgroup,
        NamespaceKind::Ipc,
        NamespaceKind::Net,
        NamespaceKind::Pid,
        NamespaceKind::User,
        NamespaceKind::Uts,
    ]
}

/// The test "is this kind asked for?", as a predicate.
pub open spec fn is_requested(requested: Set<NamespaceKind>) -> spec_fn(NamespaceKind) -> bool {
    |kind: NamespaceKind| requested.contains(kind)
}

/// The kinds asked for, in the fixed order, each once.
pub open spec fn enabled_kinds(requested: Set<NamespaceKind>) -> Seq<NamespaceKind> {
    declared_kinds().filter(is_requested(requested))
}

/// The flags of `kinds`, joined by bitwise or from the first to the last.
pub open spec fn flags_of(kinds: Seq<NamespaceKind>) -> i32
    decreases kinds.len(),
{
    if kinds.len() == 0 {
        0i32
    } else {
        flags_of(kinds.drop_last()) | kinds.last().flag_bits()
    }
}

/// The one bitmask that unshares every kind asked for: their flags joined in the fixed order.
pub open spec fn unshare_mask(requested: Set<NamespaceKind>) -> i32 {
    flags_of(enabled_kinds(requested))
}

/// Filtering one item more either appends that item or changes nothing.
pub proof fn lemma_filter_next<A>(items: Seq<A>, keep: spec_fn(A) -> bool, n: int)
    requires
        0 <= n < items.len(),
    ensures
        items.take(n + 1).filter(keep) == if keep(items[n]) {
            items.take(n).filter(keep).push(items[n])
        } else {
            items.take(n).filter(keep)
        },
{
    reveal(Seq::filter);
    assert(items.take(n + 1).drop_last() =~= items.take(n));
}

/// What a descriptor says: its kind, and whether the kind is asked for. The name and the
/// flag of a descriptor are always those of its kind.
pub struct NamespaceView {
    pub kind: NamespaceKind,
    pub enabled: bool,
}

/// The descriptor of one namespace kind.
#[derive(Clone, Copy, Debug)]
pub struct Namespace {
    kind: NamespaceKind,
    name: &'static str,
    enabled: bool,
    clone_flag: i32,
}

impl View for Namespace {
    type V = NamespaceView;

    closed spec fn view(&self) -> NamespaceView {
        NamespaceView { kind: self.kind, enabled: self.enabled }
    }
}

impl Namespace {
    #[verifier::type_invariant]
    spec fn matches_kind(self) -> bool {
        &&& self.name@ == self.kind.proc_name()
        &&& self.clone_flag == self.kind.flag_bits()
    }

    /// The descriptor of `kind`, not asked for.
    pub fn describe(kind: NamespaceKind) -> (descriptor: Namespace)
        ensures
            descriptor@ == (NamespaceView { kind, enabled: false }),
    {
        Namespace { kind, name: kind.name(), enabled: false, clone_flag: kind.clone_flag() }
    }

    /// The kind that the descriptor is about.
    pub fn kind(&self) -> (kind: NamespaceKind)
        ensures
            kind == self@.kind,
    {
        self.kind
    }

    /// The name of the namespace's handle under `/proc/self/ns`.
    pub fn name(&self) -> (name: &'static str)
        ensures
            name@ == self@.kind.proc_name(),
    {
        proof {
            use_type_invariant(self);
        }
        self.name
    }

    /// Whether the namespace is asked for.
    pub fn enabled(&self) -> (enabled: bool)
        ensures
            enabled == self@.enabled,
    {
        self.enabled
    }

    /// The unshare flag of the namespace.
    pub fn clone_flag(&self) -> (bits: i32)
        ensures
            bits == self@.kind.flag_bits(),
    {
        proof {
            use_type_invariant(self);
        }
        self.clone_flag
    }
}

/// The registry: one descriptor for each kind, in the fixed order. Its view is the set of
/// kinds that are asked for.
#[derive(Clone, Copy, Debug)]
pub struct Namespaces {
    cgroup: Namespace,
    ipc: Namespace,
    net: Namespace,
    pid: Namespace,
    user: Namespace,
    uts: Namespace,
}

impl View for Namespaces {
    type V = Set<NamespaceKind>;

    closed spec fn view(&self) -> Set<NamespaceKind> {
        Set::new(|kind: NamespaceKind| self.slot(kind).enabled)
    }
}

impl Default for Namespaces {
    /// The registry in which no kind is asked for.
    fn default() -> (registry: Namespaces)
        ensures
            registry@ == Set::<NamespaceKind>::empty(),
    {
        let registry = Namespaces {
            cgroup: Namespace::describe(NamespaceKind::Cgroup),
            ipc: Namespace::describe(NamespaceKind::Ipc),
            net: Namespace::describe(NamespaceKind::Net),
            pid: Namespace::describe(NamespaceKind::Pid),
            user: Namespace::describe(NamespaceKind::User),
            uts: Namespace::describe(NamespaceKind::Uts),
        };
        assert(registry@ =~= Set::<NamespaceKind>::empty());
        registry
    }
}

impl Namespaces {
    #[verifier::type_invariant]
    spec fn in_order(self) -> bool {
        &&& self.cgroup.kind == NamespaceKind::Cgroup
        &&& self.ipc.kind == NamespaceKind::Ipc
        &&& self.net.kind == NamespaceKind::Net
        &&& self.pid.kind == NamespaceKind::Pid
        &&& self.user.kind == NamespaceKind::User
        &&& self.uts.kind == NamespaceKind::Uts
    }

    spec fn slot(self, kind: NamespaceKind) -> Namespace {
        match kind {
            NamespaceKind::Cgroup => self.cgroup,
            NamespaceKind::Ipc => self.ipc,
            NamespaceKind::Net => self.net,
            NamespaceKind::Pid => self.pid,
            NamespaceKind::User => self.user,
            NamespaceKind::Uts => self.uts,
        }
    }

    /// The descriptor of the cgroup namespace.
    pub fn cgroup(&self) -> (descriptor: &Namespace)
        ensures
            descriptor@ == (NamespaceView {
                kind: NamespaceKind::Cgroup,
                enabled: self@.contains(NamespaceKind::Cgroup),
            }),
    {
        self.get(NamespaceKind::Cgroup)
    }

    /// The descriptor of the IPC namespace.
    pub fn ipc(&self) -> (descriptor: &Namespace)
        ensures
            descriptor@ == (NamespaceView {
                kind: NamespaceKind::Ipc,
                enabled: self@.contains(NamespaceKind::Ipc),
            }),
    {
        self.get(NamespaceKind::Ipc)
    }

    /// The descriptor of the network namespace.
    pub fn net(&self) -> (descriptor: &Namespace)
        ensures
            descriptor@ == (NamespaceView {
                kind: NamespaceKind::Net,
                enabled: self@.contains(NamespaceKind::Net),
            }),
    {
        self.get(NamespaceKind::Net)
    }

    /// The descriptor of the PID namespace.
    pub fn pid(&self) -> (descriptor: &Namespace)
        ensures
            descriptor@ == (NamespaceView {
                kind: NamespaceKind::Pid,
                enabled: self@.contains(NamespaceKind::Pid),
            }),
    {
        self.get(NamespaceKind::Pid)
    }

    /// The descriptor of the user namespace.
    pub fn user(&self) -> (descriptor: &Namespace)
        ensures
            descriptor@ == (NamespaceView {
                kind: NamespaceKind::User,
                enabled: self@.contains(NamespaceKind::User),
            }),
    {
        self.get(NamespaceKind::User)
    }

    /// The descriptor of the UTS namespace.
    pub fn uts(&self) -> (descriptor: &Namespace)
        ensures
            descriptor@ == (NamespaceView {
                kind: NamespaceKind::Uts,
                enabled: self@.contains(NamespaceKind::Uts),
            }),
    {
        self.get(NamespaceKind::Uts)
    }

    /// The descriptor of `kind`.
    pub fn get(&self, kind: NamespaceKind) -> (descriptor: &Namespace)
        ensures
            descriptor@ == (NamespaceView { kind, enabled: self@.contains(kind) }),
    {
        proof {
            use_type_invariant(self);
        }
        match kind {
            NamespaceKind::Cgroup => &self.cgroup,
            NamespaceKind::Ipc => &self.ipc,
            NamespaceKind::Net => &self.net,
            NamespaceKind::Pid => &self.pid,
            NamespaceKind::User => &self.user,
            NamespaceKind::Uts => &self.uts,
        }
    }

    /// Marks `kind` as asked for, or as not asked for.
    pub fn set_enabled(&mut self, kind: NamespaceKind, enabled: bool)
        ensures
            final(self)@ == if enabled {
                old(self)@.insert(kind)
            } else {
                old(self)@.remove(kind)
            },
    {
        proof {
            use_type_invariant(&*self);
            use_type_invariant(&self.cgroup);
            use_type_invariant(&self.ipc);
            use_type_invariant(&self.net);
            use_type_invariant(&self.pid);
            use_type_invariant(&self.user);
            use_type_invariant(&self.uts);
        }
        match kind {
            NamespaceKind::Cgroup => { self.cgroup.enabled = enabled; },
            NamespaceKind::Ipc => { self.ipc.enabled = enabled; },
            NamespaceKind::Net => { self.net.enabled = enabled; },
            NamespaceKind::Pid => { self.pid.enabled = enabled; },
            NamespaceKind::User => { self.user.enabled = enabled; },
            NamespaceKind::Uts => { self.uts.enabled = enabled; },
        }
        proof {
            assert(forall|k: NamespaceKind| k != kind ==> self.slot(k) == old(self).slot(k));
            assert(self.slot(kind).enabled == enabled);
            if enabled {
                assert(self@ =~= old(self)@.insert(kind));
            } else {
                assert(self@ =~= old(self)@.remove(kind));
            }
        }
    }

    /// The registry in which exactly `kinds` are asked for, in whatever order and however
    /// often they are named.
    pub fn from_kinds(kinds: &Vec<NamespaceKind>) -> (registry: Namespaces)
        ensures
            registry@ == kinds@.to_set(),
    {
        let mut registry = Namespaces::default();
        let mut i: usize = 0;
        while i < kinds.len()
            invariant
                i <= kinds.len(),
                registry@ == kinds@.take(i as int).to_set(),
            decreases kinds.len() - i,
        {
            registry.set_enabled(kinds[i], true);
            proof {
                assert(kinds@.take(i + 1) =~= kinds@.take(i as int).push(kinds@[i as int]));
                kinds@.take(i as int).lemma_push_to_set_commute(kinds@[i as int]);
            }
            i += 1;
        }
        assert(kinds@.take(kinds.len() as int) =~= kinds@);
        registry
    }

    /// Every descriptor, in the fixed order.
    pub fn all(&self) -> (descriptors: Vec<Namespace>)
        ensures
            descriptors@.len() == 6,
            forall|i: int|
                0 <= i < 6 ==> (#[trigger] descriptors@[i])@ == (NamespaceView {
                    kind: declared_kinds()[i],
                    enabled: self@.contains(declared_kinds()[i]),
                }),
    {
        proof {
            use_type_invariant(self);
        }
        vec![self.cgroup, self.ipc, self.net, self.pid, self.user, self.uts]
    }

    /// The descriptors of the kinds asked for, in the fixed order.
    pub fn enabled_subset(&self) -> (subset: Vec<Namespace>)
        ensures
            subset@.map_values(|descriptor: Namespace| descriptor@.kind) == enabled_kinds(self@),
            forall|i: int| 0 <= i < subset@.len() ==> (#[trigger] subset@[i])@.enabled,
    {
        let all = self.all();
        let mut subset: Vec<Namespace> = Vec::new();
        let mut i: usize = 0;
        assert(declared_kinds().take(0).filter(is_requested(self@)) =~= Seq::empty()) by {
            reveal(Seq::filter);
        }
        while i < 6
            invariant
                i <= 6,
                all@.len() == 6,
                forall|j: int|
                    0 <= j < 6 ==> (#[trigger] all@[j])@ == (NamespaceView {
                        kind: declared_kinds()[j],
                        enabled: self@.contains(declared_kinds()[j]),
                    }),
                subset@.map_values(|descriptor: Namespace| descriptor@.kind)
                    =~= declared_kinds().take(i as int).filter(is_requested(self@)),
                forall|j: int| 0 <= j < subset@.len() ==> (#[trigger] subset@[j])@.enabled,
            decreases 6 - i,
        {
            proof {
                lemma_filter_next(declared_kinds(), is_requested(self@), i as int);
            }
            if all[i].enabled() {
                subset.push(all[i]);
            }
            i += 1;
        }
        assert(declared_kinds().take(6) =~= declared_kinds());
        subset
    }

    /// The bitmask for the one unshare call: the flags of the kinds asked for, joined.
    pub fn unshare_flags(&self) -> (flags: i32)
        ensures
            flags == unshare_mask(self@),
    {
        let subset = self.enabled_subset();
        let ghost kinds = subset@.map_values(|descriptor: Namespace| descriptor@.kind);
        let mut flags: i32 = 0;
        let mut i: usize = 0;
        while i < subset.len()
            invariant
                i <= subset.len(),
                kinds == subset@.map_values(|descriptor: Namespace| descriptor@.kind),
                flags == flags_of(kinds.take(i as int)),
            decreases subset.len() - i,
        {
            proof {
                assert(kinds.take(i + 1).drop_last() =~= kinds.take(i as int));
            }
            flags = flags | subset[i].clone_flag();
            i += 1;
        }
        assert(kinds.take(subset.len() as int) =~= kinds);
        flags
    }
}

/// Whether the flag of `kind` is set in `mask`.
pub open spec fn has_flag(mask: i32, kind: NamespaceKind) -> bool {
    mask & kind.flag_bits() == kind.flag_bits()
}

/// Whether `mask` sets no bit but flags of the kinds.
pub open spec fn only_kind_flags(mask: i32) -> bool {
    mask & !0x7e00_0000i32 == 0
}

proof fn lemma_or_sets_one_flag(mask: i32, added: i32, asked: i32)
    by (bit_vector)
    requires
        added == 0x0200_0000i32 || added == 0x0400_0000i32 || added == 0x0800_0000i32 || added
            == 0x1000_0000i32 || added == 0x2000_0000i32 || added == 0x4000_0000i32,
        asked == 0x0200_0000i32 || asked == 0x0400_0000i32 || asked == 0x0800_0000i32 || asked
            == 0x1000_0000i32 || asked == 0x2000_0000i32 || asked == 0x4000_0000i32,
    ensures
        ((mask | added) & asked == asked) == ((mask & asked == asked) || added == asked),
        mask & !0x7e00_0000i32 == 0 ==> (mask | added) & !0x7e00_0000i32 == 0,
        0i32 & asked != asked,
{
}

proof fn lemma_flags_decide_mask(a: i32, b: i32)
    by (bit_vector)
    requires
        a & !0x7e00_0000i32 == 0,
        b & !0x7e00_0000i32 == 0,
        (a & 0x0200_0000i32 == 0x0200_0000i32) == (b & 0x0200_0000i32 == 0x0200_0000i32),
        (a & 0x0400_0000i32 == 0x0400_0000i32) == (b & 0x0400_0000i32 == 0x0400_0000i32),
        (a & 0x0800_0000i32 == 0x0800_0000i32) == (b & 0x0800_0000i32 == 0x0800_0000i32),
        (a & 0x1000_0000i32 == 0x1000_0000i32) == (b & 0x1000_0000i32 == 0x1000_0000i32),
        (a & 0x2000_0000i32 == 0x2000_0000i32) == (b & 0x2000_0000i32 == 0x2000_0000i32),
        (a & 0x4000_0000i32 == 0x4000_0000i32) == (b & 0x4000_0000i32 == 0x4000_0000i32),
    ensures
        a == b,
{
}

/// Filtering the kinds keeps exactly those that pass the test, each once and in the fixed
/// order.
pub proof fn lemma_kinds_filtered(keep: spec_fn(NamespaceKind) -> bool)
    ensures
        forall|kind: NamespaceKind| declared_kinds().filter(keep).contains(kind) <==> keep(kind),
        forall|i: int, j: int|
            0 <= i < j < declared_kinds().filter(keep).len() ==> declared_kinds().filter(
                keep,
            )[i].position() < declared_kinds().filter(keep)[j].position(),
        declared_kinds().filter(keep).no_duplicates(),
        declared_kinds().filter(keep).len() <= 6,
{
    lemma_filtered_prefix(keep, 6);
    assert(declared_kinds().take(6) =~= declared_kinds());
    let listed = declared_kinds().filter(keep);
    assert forall|kind: NamespaceKind| keep(kind) implies listed.contains(kind) by {
        assert(declared_kinds()[kind.position() as int] == kind);
    }
}

proof fn lemma_filtered_prefix(keep: spec_fn(NamespaceKind) -> bool, n: int)
    requires
        0 <= n <= 6,
    ensures
        ({
            let listed = declared_kinds().take(n).filter(keep);
            &&& listed.len() <= n
            &&& forall|i: int|
                0 <= i < listed.len() ==> (#[trigger] listed[i]).position() < n && keep(listed[i])
            &&& forall|i: int, j: int|
                0 <= i < j < listed.len() ==> listed[i].position() < listed[j].position()
            &&& forall|m: int|
                0 <= m < n && keep(#[trigger] declared_kinds()[m]) ==> listed.contains(
                    declared_kinds()[m],
                )
        }),
    decreases n,
{
    if n == 0 {
        assert(declared_kinds().take(0).filter(keep) =~= Seq::empty()) by {
            reveal(Seq::filter);
        }
    } else {
        lemma_filtered_prefix(keep, n - 1);
        lemma_filter_next(declared_kinds(), keep, n - 1);
        let before = declared_kinds().take(n - 1).filter(keep);
        let listed = declared_kinds().take(n).filter(keep);
        let kind = declared_kinds()[n - 1];
        assert(kind.position() == n - 1);
        if keep(kind) {
            assert(listed == before.push(kind));
            assert(listed[before.len() as int] == kind);
            assert forall|m: int|
                0 <= m < n && keep(#[trigger] declared_kinds()[m]) implies listed.contains(
                declared_kinds()[m],
            ) by {
                if m < n - 1 {
                    let at = choose|at: int|
                        0 <= at < before.len() && before[at] == declared_kinds()[m];
                    assert(listed[at] == declared_kinds()[m]);
                }
            }
        } else {
            assert(listed == before);
        }
    }
}

/// The kinds asked for are listed each once, in the fixed order, and no other kind is.
pub proof fn lemma_enabled_kinds(requested: Set<NamespaceKind>)
    ensures
        forall|kind: NamespaceKind|
            enabled_kinds(requested).contains(kind) <==> requested.contains(kind),
        forall|i: int, j: int|
            0 <= i < j < enabled_kinds(requested).len() ==> enabled_kinds(requested)[i].position()
                < enabled_kinds(requested)[j].position(),
        enabled_kinds(requested).no_duplicates(),
        enabled_kinds(requested).len() <= 6,
        requested.finite(),
        enabled_kinds(requested).to_set() == requested,
{
    lemma_kinds_filtered(is_requested(requested));
    let listed = enabled_kinds(requested);
    assert(listed.to_set() =~= requested);
    vstd::seq_lib::seq_to_set_is_finite(listed);
}

/// A mask made by joining flags has the flag of a kind exactly if the kind was among
/// those joined, and no bit besides.
pub proof fn lemma_flags_of(kinds: Seq<NamespaceKind>)
    ensures
        forall|kind: NamespaceKind| has_flag(flags_of(kinds), kind) <==> kinds.contains(kind),
        only_kind_flags(flags_of(kinds)),
    decreases kinds.len(),
{
    if kinds.len() == 0 {
        assert forall|kind: NamespaceKind| !has_flag(flags_of(kinds), kind) by {
            lemma_or_sets_one_flag(0, kind.flag_bits(), kind.flag_bits());
        }
        assert(0i32 & !0x7e00_0000i32 == 0) by (bit_vector);
    } else {
        let before = kinds.drop_last();
        let last = kinds.last();
        lemma_flags_of(before);
        assert forall|kind: NamespaceKind|
            has_flag(flags_of(kinds), kind) <==> kinds.contains(kind) by {
            lemma_or_sets_one_flag(flags_of(before), last.flag_bits(), kind.flag_bits());
            assert(last.flag_bits() == kind.flag_bits() <==> last == kind);
            if before.contains(kind) {
                let at = choose|at: int| 0 <= at < before.len() && before[at] == kind;
                assert(kinds[at] == kind);
            }
            if last == kind {
                assert(kinds[kinds.len() - 1] == kind);
            }
            if kinds.contains(kind) {
                let at = choose|at: int| 0 <= at < kinds.len() && kinds[at] == kind;
                if at < before.len() {
                    assert(before[at] == kind);
                }
            }
        }
        lemma_or_sets_one_flag(flags_of(before), last.flag_bits(), last.flag_bits());
    }
}

/// Joining flags does not depend on order or repetition: requests that name the same
/// kinds give the same mask.
pub proof fn lemma_flags_ignore_order(first: Seq<NamespaceKind>, second: Seq<NamespaceKind>)
    requires
        first.to_set() == second.to_set(),
    ensures
        flags_of(first) == flags_of(second),
{
    lemma_flags_of(first);
    lemma_flags_of(second);
    assert forall|kind: NamespaceKind|
        has_flag(flags_of(first), kind) == has_flag(flags_of(second), kind) by {
        assert(first.contains(kind) == first.to_set().contains(kind));
        assert(second.contains(kind) == second.to_set().contains(kind));
    }
    assert(has_flag(flags_of(first), NamespaceKind::Cgroup) == has_flag(
        flags_of(second),
        NamespaceKind::Cgroup,
    ));
    assert(has_flag(flags_of(first), NamespaceKind::Ipc) == has_flag(
        flags_of(second),
        NamespaceKind::Ipc,
    ));
    assert(has_flag(flags_of(first), NamespaceKind::Net) == has_flag(
        flags_of(second),
        NamespaceKind::Net,
    ));
    assert(has_flag(flags_of(first), NamespaceKind::Pid) == has_flag(
        flags_of(second),
        NamespaceKind::Pid,
    ));
    assert(has_flag(flags_of(first), NamespaceKind::User) == has_flag(
        flags_of(second),
        NamespaceKind::User,
    ));
    assert(has_flag(flags_of(first), NamespaceKind::Uts) == has_flag(
        flags_of(second),
        NamespaceKind::Uts,
    ));
    lemma_flags_decide_mask(flags_of(first), flags_of(second));
}

/// However a request names its kinds, the descriptors listed and the mask composed are
/// those of the set of kinds named: two requests for the same kinds, in any order, lead to
/// the same list and to the same unshare call.
pub proof fn lemma_request_order_is_immaterial(
    first: Seq<NamespaceKind>,
    second: Seq<NamespaceKind>,
)
    requires
        first.to_set() == second.to_set(),
    ensures
        enabled_kinds(first.to_set()) == enabled_kinds(second.to_set()),
        unshare_mask(first.to_set()) == unshare_mask(second.to_set()),
        flags_of(first) == unshare_mask(first.to_set()),
        flags_of(second) == unshare_mask(first.to_set()),
{
    lemma_enabled_kinds(first.to_set());
    lemma_flags_ignore_order(first, enabled_kinds(first.to_set()));
    lemma_flags_ignore_order(second, enabled_kinds(first.to_set()));
}

/// The mask has the flag of a kind exactly if the kind is asked for, and no bit besides.
pub proof fn lemma_unshare_mask(requested: Set<NamespaceKind>)
    ensures
        forall|kind: NamespaceKind|
            has_flag(unshare_mask(requested), kind) <==> requested.contains(kind),
        only_kind_flags(unshare_mask(requested)),
        requested == Set::<NamespaceKind>::empty() <==> unshare_mask(requested) == 0,
{
    lemma_enabled_kinds(requested);
    let listed = enabled_kinds(requested);
    let mask = flags_of(listed);
    lemma_flags_of(listed);
    assert forall|kind: NamespaceKind| has_flag(mask, kind) <==> requested.contains(kind) by {
        assert(has_flag(flags_of(listed), kind) <==> listed.contains(kind));
    }
    if requested =~= Set::<NamespaceKind>::empty() {
        assert(!has_flag(mask, NamespaceKind::Cgroup));
        assert(!has_flag(mask, NamespaceKind::Ipc));
        assert(!has_flag(mask, NamespaceKind::Net));
        assert(!has_flag(mask, NamespaceKind::Pid));
        assert(!has_flag(mask, NamespaceKind::User));
        assert(!has_flag(mask, NamespaceKind::Uts));
        assert(0i32 & !0x7e00_0000i32 == 0) by (bit_vector);
        lemma_or_sets_one_flag(0, 0x0200_0000i32, 0x0200_0000i32);
        lemma_or_sets_one_flag(0, 0x0200_0000i32, 0x0400_0000i32);
        lemma_or_sets_one_flag(0, 0x0200_0000i32, 0x0800_0000i32);
        lemma_or_sets_one_flag(0, 0x0200_0000i32, 0x1000_0000i32);
        lemma_or_sets_one_flag(0, 0x0200_0000i32, 0x2000_0000i32);
        lemma_or_sets_one_flag(0, 0x0200_0000i32, 0x4000_0000i32);
        lemma_flags_decide_mask(mask, 0);
    }
    if mask == 0 {
        assert forall|kind: NamespaceKind| !requested.contains(kind) by {
            lemma_or_sets_one_flag(0, kind.flag_bits(), kind.flag_bits());
            assert(has_flag(mask, kind) <==> requested.contains(kind));
        }
        assert(requested =~= Set::<NamespaceKind>::empty());
    }
}

} // verus!
