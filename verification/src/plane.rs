//! A model of the remote control plane: machines and volumes held as
//! plain records, every operation an exact contract. The orchestrators
//! are verified, and the crate's guarantees stated, against this model;
//! it also records how often each kind of call was made and can be told
//! to fail a creation call, so that compensation behaviour is checkable.

use vstd::prelude::*;

use crate::numeric::{dec_rep, lemma_dec_rep_injective, u64_to_string};
use crate::types::{
    Guest, GuestView, ImageRef, ImageRefView, InitView, InstanceSpecs, Machine, MachineConfigView,
    MachineView, MountView, Port, ServiceView, Volume, VolumeView, machines_view, volumes_view,
    Init, MachineConfig, Mount, Service,
};

verus! {

broadcast use vstd::string::group_string_axioms, vstd::seq_lib::group_seq_properties, Seq::lemma_push_map_commute, Seq::lemma_map_take_succ;

/// The identifier the model assigns to the `k`-th created resource,
/// tagged with a kind character.
pub open spec fn tagged_id(c: char, k: nat) -> Seq<char> {
    seq![c] + dec_rep(k)
}

/// Identifiers with the same tag and the same number are the same;
/// conversely, equal identifiers carry equal numbers.
proof fn lemma_tagged_id_injective(c: char, a: nat, b: nat)
    requires
        tagged_id(c, a) == tagged_id(c, b),
    ensures
        a == b,
{
    assert(dec_rep(a) =~= dec_rep(b)) by {
        assert(tagged_id(c, a).len() == 1 + dec_rep(a).len());
        assert(tagged_id(c, b).len() == 1 + dec_rep(b).len());
        assert forall|j: int| 0 <= j < dec_rep(a).len() implies dec_rep(a)[j] == dec_rep(b)[j] by {
            assert(tagged_id(c, a)[j + 1] == dec_rep(a)[j]);
            assert(tagged_id(c, b)[j + 1] == dec_rep(b)[j]);
        }
    }
    lemma_dec_rep_injective(a, b);
}

/// Renders a tagged identifier.
fn make_id(tag: &str, k: u64) -> (s: String)
    requires
        tag@.len() == 1,
    ensures
        s@ == tagged_id(tag@[0], k as nat),
{
    let mut s = tag.to_owned();
    s.append(u64_to_string(k).as_str());
    proof {
        assert(s@ =~= tagged_id(tag@[0], k as nat));
    }
    s
}

/// Whether `id` was assigned, under tag `c`, before `bound` creations
/// had happened.
pub open spec fn id_tagged_below(id: Seq<char>, c: char, bound: nat) -> bool {
    exists|k: nat| k < bound && id == tagged_id(c, k)
}

proof fn lemma_id_tagged_below_weaken(id: Seq<char>, c: char, b1: nat, b2: nat)
    requires
        id_tagged_below(id, c, b1),
        b1 <= b2,
    ensures
        id_tagged_below(id, c, b2),
{
    let k0 = choose|k: nat| k < b1 && id == tagged_id(c, k);
    assert(k0 < b2 && id == tagged_id(c, k0));
}

/// An identifier assigned earlier is never the one assigned next.
proof fn lemma_id_tagged_below_fresh(id: Seq<char>, c: char, bound: nat)
    requires
        id_tagged_below(id, c, bound),
    ensures
        id != tagged_id(c, bound),
{
    let k0 = choose|k: nat| k < bound && id == tagged_id(c, k);
    if id == tagged_id(c, bound) {
        lemma_tagged_id_injective(c, k0, bound);
    }
}

/// Whether every machine in `mv` carries an identifier assigned before
/// `bound` creations had happened.
pub open spec fn machine_ids_tagged(mv: Seq<MachineView>, bound: nat) -> bool {
    forall|i: int| 0 <= i < mv.len() ==> id_tagged_below((#[trigger] mv[i]).id, 'm', bound)
}

/// Whether every volume in `vv` carries an identifier assigned before
/// `bound` creations had happened.
pub open spec fn volume_ids_tagged(vv: Seq<VolumeView>, bound: nat) -> bool {
    forall|i: int| 0 <= i < vv.len() ==> id_tagged_below((#[trigger] vv[i]).id, 'v', bound)
}

/// A tagging bound only ever grows.
pub proof fn lemma_machine_ids_tagged_weaken(mv: Seq<MachineView>, b1: nat, b2: nat)
    requires
        machine_ids_tagged(mv, b1),
        b1 <= b2,
    ensures
        machine_ids_tagged(mv, b2),
{
    assert forall|i: int| 0 <= i < mv.len() implies id_tagged_below(
        (#[trigger] mv[i]).id,
        'm',
        b2,
    ) by {
        lemma_id_tagged_below_weaken(mv[i].id, 'm', b1, b2);
    }
}

/// A tagging bound only ever grows.
pub proof fn lemma_volume_ids_tagged_weaken(vv: Seq<VolumeView>, b1: nat, b2: nat)
    requires
        volume_ids_tagged(vv, b1),
        b1 <= b2,
    ensures
        volume_ids_tagged(vv, b2),
{
    assert forall|i: int| 0 <= i < vv.len() implies id_tagged_below(
        (#[trigger] vv[i]).id,
        'v',
        b2,
    ) by {
        lemma_id_tagged_below_weaken(vv[i].id, 'v', b1, b2);
    }
}

/// Appending a record tagged with the current bound keeps the listing
/// well tagged under the next bound.
pub proof fn lemma_machine_ids_tagged_push(mv: Seq<MachineView>, b: nat, m: MachineView)
    requires
        machine_ids_tagged(mv, b),
        m.id == tagged_id('m', b),
    ensures
        machine_ids_tagged(mv.push(m), b + 1),
{
    assert forall|i: int| 0 <= i < mv.push(m).len() implies id_tagged_below(
        (#[trigger] mv.push(m)[i]).id,
        'm',
        b + 1,
    ) by {
        if i < mv.len() {
            assert(mv.push(m)[i] == mv[i]);
            lemma_id_tagged_below_weaken(mv[i].id, 'm', b, b + 1);
        } else {
            assert(mv.push(m)[i] == m);
            assert(b < b + 1 && m.id == tagged_id('m', b));
        }
    }
}

/// Appending a record tagged with the current bound keeps the listing
/// well tagged under the next bound.
pub proof fn lemma_volume_ids_tagged_push(vv: Seq<VolumeView>, b: nat, v: VolumeView)
    requires
        volume_ids_tagged(vv, b),
        v.id == tagged_id('v', b),
    ensures
        volume_ids_tagged(vv.push(v), b + 1),
{
    assert forall|i: int| 0 <= i < vv.push(v).len() implies id_tagged_below(
        (#[trigger] vv.push(v)[i]).id,
        'v',
        b + 1,
    ) by {
        if i < vv.len() {
            assert(vv.push(v)[i] == vv[i]);
            lemma_id_tagged_below_weaken(vv[i].id, 'v', b, b + 1);
        } else {
            assert(vv.push(v)[i] == v);
            assert(b < b + 1 && v.id == tagged_id('v', b));
        }
    }
}

/// A listing with some records removed stays well tagged.
pub proof fn lemma_machine_ids_tagged_filter(
    mv: Seq<MachineView>,
    b: nat,
    p: spec_fn(MachineView) -> bool,
)
    requires
        machine_ids_tagged(mv, b),
    ensures
        machine_ids_tagged(mv.filter(p), b),
{
    lemma_filter_sub(mv, p);
    assert forall|i: int| 0 <= i < mv.filter(p).len() implies id_tagged_below(
        (#[trigger] mv.filter(p)[i]).id,
        'm',
        b,
    ) by {
        let j = choose|j: int| 0 <= j < mv.len() && mv[j] == mv.filter(p)[i];
        assert(id_tagged_below(mv[j].id, 'm', b));
    }
}

/// A listing with some records removed stays well tagged.
pub proof fn lemma_volume_ids_tagged_filter(
    vv: Seq<VolumeView>,
    b: nat,
    p: spec_fn(VolumeView) -> bool,
)
    requires
        volume_ids_tagged(vv, b),
    ensures
        volume_ids_tagged(vv.filter(p), b),
{
    lemma_filter_sub(vv, p);
    assert forall|i: int| 0 <= i < vv.filter(p).len() implies id_tagged_below(
        (#[trigger] vv.filter(p)[i]).id,
        'v',
        b,
    ) by {
        let j = choose|j: int| 0 <= j < vv.len() && vv[j] == vv.filter(p)[i];
        assert(id_tagged_below(vv[j].id, 'v', b));
    }
}

/// Whether no two machines in the listing share a name: the remote API
/// enforces name uniqueness among live machines.
pub open spec fn machine_names_unique(mv: Seq<MachineView>) -> bool {
    forall|i: int, j: int|
        0 <= i < mv.len() && 0 <= j < mv.len() && i != j ==> (#[trigger] mv[i]).name != (
        #[trigger] mv[j]).name
}

/// Appending a machine under a fresh name keeps the names unique.
pub proof fn lemma_names_unique_push(mv: Seq<MachineView>, m: MachineView)
    requires
        machine_names_unique(mv),
        !spec_name_taken(mv, m.name),
    ensures
        machine_names_unique(mv.push(m)),
{
    let f = mv.push(m);
    assert forall|i: int, j: int|
        0 <= i < f.len() && 0 <= j < f.len() && i != j implies (#[trigger] f[i]).name != (
    #[trigger] f[j]).name by {
        if i < mv.len() && j < mv.len() {
            assert(f[i] == mv[i] && f[j] == mv[j]);
        } else if i < mv.len() {
            assert(f[i] == mv[i] && f[j] == m);
        } else {
            assert(f[i] == m && f[j] == mv[j]);
        }
    }
}

/// Removing machines from a listing keeps the names unique.
pub proof fn lemma_names_unique_filter(mv: Seq<MachineView>, p: spec_fn(MachineView) -> bool)
    requires
        machine_names_unique(mv),
    ensures
        machine_names_unique(mv.filter(p)),
    decreases mv.len(),
{
    reveal(Seq::filter);
    if mv.len() > 0 {
        let pre = mv.drop_last();
        let last = mv.last();
        assert(machine_names_unique(pre)) by {
            assert forall|i: int, j: int|
                0 <= i < pre.len() && 0 <= j < pre.len() && i != j implies (
            #[trigger] pre[i]).name != (#[trigger] pre[j]).name by {
                assert(pre[i] == mv[i] && pre[j] == mv[j]);
            }
        }
        lemma_names_unique_filter(pre, p);
        if p(last) {
            let fpre = pre.filter(p);
            assert(mv.filter(p) == fpre.push(last));
            lemma_filter_sub(pre, p);
            assert(!spec_name_taken(fpre, last.name)) by {
                assert forall|i: int| 0 <= i < fpre.len() implies (#[trigger] fpre[i]).name
                    != last.name by {
                    let j = choose|j: int| 0 <= j < pre.len() && pre[j] == fpre[i];
                    assert(mv[j] == pre[j]);
                    assert(mv[j].name != mv[mv.len() - 1].name);
                }
            }
            lemma_names_unique_push(fpre, last);
        }
    }
}

/// A listing whose machines keep their names keeps them unique.
pub proof fn lemma_names_unique_pointwise(a: Seq<MachineView>, b: Seq<MachineView>)
    requires
        machine_names_unique(a),
        a.len() == b.len(),
        forall|i: int| 0 <= i < a.len() ==> (#[trigger] b[i]).name == a[i].name,
    ensures
        machine_names_unique(b),
{
    assert forall|i: int, j: int|
        0 <= i < b.len() && 0 <= j < b.len() && i != j implies (#[trigger] b[i]).name != (
    #[trigger] b[j]).name by {
        assert(b[i].name == a[i].name && b[j].name == a[j].name);
    }
}

/// No machine in a well-tagged listing carries the identifier that the
/// next creation will assign.
pub proof fn lemma_machine_id_fresh(mv: Seq<MachineView>, bound: nat)
    requires
        machine_ids_tagged(mv, bound),
    ensures
        forall|i: int| 0 <= i < mv.len() ==> (#[trigger] mv[i]).id != tagged_id('m', bound),
{
    assert forall|i: int| 0 <= i < mv.len() implies (#[trigger] mv[i]).id != tagged_id(
        'm',
        bound,
    ) by {
        lemma_id_tagged_below_fresh(mv[i].id, 'm', bound);
    }
}

/// No volume in a well-tagged listing carries the identifier that the
/// next creation will assign.
pub proof fn lemma_volume_id_fresh(vv: Seq<VolumeView>, bound: nat)
    requires
        volume_ids_tagged(vv, bound),
    ensures
        forall|i: int| 0 <= i < vv.len() ==> (#[trigger] vv[i]).id != tagged_id('v', bound),
{
    assert forall|i: int| 0 <= i < vv.len() implies (#[trigger] vv[i]).id != tagged_id(
        'v',
        bound,
    ) by {
        lemma_id_tagged_below_fresh(vv[i].id, 'v', bound);
    }
}

/// Every element of a filtered sequence comes from the original.
pub proof fn lemma_filter_sub<A>(s: Seq<A>, p: spec_fn(A) -> bool)
    ensures
        forall|i: int|
            0 <= i < s.filter(p).len() ==> s.contains(#[trigger] s.filter(p)[i]),
    decreases s.len(),
{
    reveal(Seq::filter);
    if s.len() > 0 {
        lemma_filter_sub(s.drop_last(), p);
        assert forall|i: int| 0 <= i < s.filter(p).len() implies s.contains(
            #[trigger] s.filter(p)[i],
        ) by {
            let f = s.filter(p);
            let fd = s.drop_last().filter(p);
            if i < fd.len() {
                assert(fd[i] == f[i]);
                let j = choose|j: int| 0 <= j < s.drop_last().len() && s.drop_last()[j] == fd[i];
                assert(s[j] == f[i]);
            } else {
                assert(f[i] == s.last());
            }
        }
    }
}

/// Filtering past a pushed element keeps it exactly when it satisfies
/// the predicate.
pub proof fn lemma_filter_push<A>(s: Seq<A>, p: spec_fn(A) -> bool, x: A)
    ensures
        s.push(x).filter(p) == if p(x) {
            s.filter(p).push(x)
        } else {
            s.filter(p)
        },
{
    reveal(Seq::filter);
    assert(s.push(x).drop_last() =~= s);
    assert(s.push(x).last() == x);
}

/// How many remote calls of each kind were made against the model
/// control plane.
#[derive(Clone, Copy, Debug, PartialEq, Eq, Structural)]
pub struct CallCounts {
    pub lists: u64,
    pub volume_creates: u64,
    pub machine_creates: u64,
    pub machine_deletes: u64,
    pub volume_deletes: u64,
    pub starts: u64,
    pub stops: u64,
    pub waits: u64,
}

impl CallCounts {
    /// A fresh record with no calls made.
    pub fn new() -> (r: Self)
        ensures
            r == CallCounts::zero(),
    {
        CallCounts {
            lists: 0,
            volume_creates: 0,
            machine_creates: 0,
            machine_deletes: 0,
            volume_deletes: 0,
            starts: 0,
            stops: 0,
            waits: 0,
        }
    }

    /// The record with no calls made.
    pub open spec fn zero() -> Self {
        CallCounts {
            lists: 0,
            volume_creates: 0,
            machine_creates: 0,
            machine_deletes: 0,
            volume_deletes: 0,
            starts: 0,
            stops: 0,
            waits: 0,
        }
    }

    /// Whether every counter is at least `n` away from its bound.
    pub open spec fn headroom(self, n: int) -> bool {
        &&& self.lists + n <= u64::MAX
        &&& self.volume_creates + n <= u64::MAX
        &&& self.machine_creates + n <= u64::MAX
        &&& self.machine_deletes + n <= u64::MAX
        &&& self.volume_deletes + n <= u64::MAX
        &&& self.starts + n <= u64::MAX
        &&& self.stops + n <= u64::MAX
        &&& self.waits + n <= u64::MAX
    }
}

/// The model control plane.
#[derive(Debug)]
pub struct ControlPlane {
    pub machines: Vec<Machine>,
    pub volumes: Vec<Volume>,
    pub next_id: u64,
    pub fail_next_volume_create: bool,
    pub fail_next_machine_create: bool,
    pub calls: CallCounts,
}

impl ControlPlane {
    /// The machine listing, as views.
    pub open spec fn mv(self) -> Seq<MachineView> {
        machines_view(self.machines@)
    }

    /// The volume listing, as views.
    pub open spec fn vv(self) -> Seq<VolumeView> {
        volumes_view(self.volumes@)
    }

    /// Well-formedness: every identifier was assigned by the plane's own
    /// counter.
    pub open spec fn wf(self) -> bool {
        &&& machine_ids_tagged(self.mv(), self.next_id as nat)
        &&& volume_ids_tagged(self.vv(), self.next_id as nat)
        &&& machine_names_unique(self.mv())
    }

    /// Whether the identifier counter and the call counters are at
    /// least `n` away from their bounds: room for `n` further calls.
    pub open spec fn headroom(self, n: int) -> bool {
        &&& self.next_id + n <= u64::MAX
        &&& self.calls.headroom(n)
    }

    /// A fresh control plane with no resources.
    pub fn new() -> (r: Self)
        ensures
            r.wf(),
            r.mv() == Seq::<MachineView>::empty(),
            r.vv() == Seq::<VolumeView>::empty(),
            r.next_id == 0,
            !r.fail_next_volume_create,
            !r.fail_next_machine_create,
            r.calls == CallCounts::zero(),
    {
        let r = ControlPlane {
            machines: Vec::new(),
            volumes: Vec::new(),
            next_id: 0,
            fail_next_volume_create: false,
            fail_next_machine_create: false,
            calls: CallCounts::new(),
        };
        proof {
            assert(r.mv() =~= Seq::<MachineView>::empty());
            assert(r.vv() =~= Seq::<VolumeView>::empty());
        }
        r
    }

    /// Lists all machines. The model listing always succeeds.
    pub fn list_machines(&mut self) -> (r: Vec<Machine>)
        requires
            old(self).calls.lists < u64::MAX,
        ensures
            machines_view(r@) == old(self).mv(),
            final(self).machines@ == old(self).machines@,
            final(self).volumes@ == old(self).volumes@,
            final(self).next_id == old(self).next_id,
            final(self).fail_next_volume_create == old(self).fail_next_volume_create,
            final(self).fail_next_machine_create == old(self).fail_next_machine_create,
            final(self).calls == (CallCounts {
                lists: (old(self).calls.lists + 1) as u64,
                ..old(self).calls
            }),
    {
        self.calls.lists = self.calls.lists + 1;
        let mut r: Vec<Machine> = Vec::new();
        let mut i: usize = 0;
        while i < self.machines.len()
            invariant
                0 <= i <= self.machines.len(),
                machines_view(r@) =~= machines_view(self.machines@.take(i as int)),
            decreases self.machines.len() - i,
        {
            r.push(self.machines[i].clone());
            proof {
                assert(machines_view(r@) =~= machines_view(self.machines@.take(i + 1)));
            }
            i = i + 1;
        }
        proof {
            assert(self.machines@.take(self.machines@.len() as int) =~= self.machines@);
        }
        r
    }

    /// The volume record the model creates on the `k`-th creation.
    pub open spec fn spec_new_volume(
        k: nat,
        name: Seq<char>,
        volume_gb: u32,
        region: Seq<char>,
    ) -> VolumeView {
        VolumeView {
            id: tagged_id('v', k),
            name: name,
            state: "created"@,
            size_gb: volume_gb,
            region: region,
            zone: ""@,
            encrypted: true,
            attached_machine_id: None,
            attached_alloc_id: None,
            created_at: ""@,
            blocks: 0,
            block_size: 0,
            blocks_free: 0,
            blocks_avail: 0,
            fstype: ""@,
            snapshot_retention: 0,
            host_dedication_key: ""@,
        }
    }

    /// Creates a volume with the requested name, size and region. Fails
    /// exactly when failure injection asked for it; the failure consumes
    /// the injection flag and leaves the resources untouched.
    pub fn create_volume(&mut self, name: &str, volume_gb: u32, region: &str) -> (r: Result<
        Volume,
        String,
    >)
        requires
            old(self).wf(),
            old(self).calls.volume_creates < u64::MAX,
            old(self).next_id < u64::MAX,
        ensures
            final(self).wf(),
            final(self).machines@ == old(self).machines@,
            final(self).fail_next_machine_create == old(self).fail_next_machine_create,
            final(self).fail_next_volume_create == false,
            final(self).calls == (CallCounts {
                volume_creates: (old(self).calls.volume_creates + 1) as u64,
                ..old(self).calls
            }),
            match r {
                Ok(v) => {
                    &&& !old(self).fail_next_volume_create
                    &&& v@ == Self::spec_new_volume(
                        old(self).next_id as nat,
                        name@,
                        volume_gb,
                        region@,
                    )
                    &&& final(self).vv() == old(self).vv().push(v@)
                    &&& final(self).next_id == old(self).next_id + 1
                },
                Err(e) => {
                    &&& old(self).fail_next_volume_create
                    &&& e@ == "volume creation failed"@
                    &&& final(self).volumes@ == old(self).volumes@
                    &&& final(self).next_id == old(self).next_id
                },
            },
    {
        self.calls.volume_creates = self.calls.volume_creates + 1;
        if self.fail_next_volume_create {
            self.fail_next_volume_create = false;
            return Err("volume creation failed".to_owned());
        }
        proof {
            reveal_strlit("v");
            reveal_strlit("");
        }
        let v = Volume {
            id: make_id("v", self.next_id),
            name: name.to_owned(),
            state: "created".to_owned(),
            size_gb: volume_gb,
            region: region.to_owned(),
            zone: String::new(),
            encrypted: true,
            attached_machine_id: None,
            attached_alloc_id: None,
            created_at: String::new(),
            blocks: 0,
            block_size: 0,
            blocks_free: 0,
            blocks_avail: 0,
            fstype: String::new(),
            snapshot_retention: 0,
            host_dedication_key: String::new(),
        };
        let ghost pre = *self;
        self.volumes.push(v.clone());
        self.next_id = self.next_id + 1;
        proof {
            assert(""@ =~= Seq::<char>::empty());
            assert("v"@[0] == 'v');
            assert(v@ =~~= Self::spec_new_volume(pre.next_id as nat, name@, volume_gb, region@));
            assert(self.vv() =~= pre.vv().push(v@));
            assert(self.mv() == pre.mv());
            lemma_volume_ids_tagged_push(pre.vv(), pre.next_id as nat, v@);
            lemma_machine_ids_tagged_weaken(
                pre.mv(),
                pre.next_id as nat,
                self.next_id as nat,
            );
        }
        Ok(v)
    }

    /// Whether some machine in the listing bears this name.
    pub fn name_taken(&self, name: &str) -> (r: bool)
        ensures
            r == spec_name_taken(self.mv(), name@),
    {
        let mut i: usize = 0;
        while i < self.machines.len()
            invariant
                0 <= i <= self.machines.len(),
                forall|j: int| 0 <= j < i ==> (#[trigger] self.mv()[j]).name != name@,
            decreases self.machines.len() - i,
        {
            if crate::numeric::str_eq(self.machines[i].name.as_str(), name) {
                proof {
                    assert(self.mv()[i as int].name == name@);
                }
                return true;
            }
            i = i + 1;
        }
        false
    }

    /// Whether a volume with this identifier exists.
    pub fn has_volume(&self, volume_id: &str) -> (r: bool)
        ensures
            r == spec_volume_exists(self.vv(), volume_id@),
    {
        let mut i: usize = 0;
        while i < self.volumes.len()
            invariant
                0 <= i <= self.volumes.len(),
                forall|j: int| 0 <= j < i ==> (#[trigger] self.vv()[j]).id != volume_id@,
            decreases self.volumes.len() - i,
        {
            if crate::numeric::str_eq(self.volumes[i].id.as_str(), volume_id) {
                proof {
                    assert(self.vv()[i as int].id == volume_id@);
                }
                return true;
            }
            i = i + 1;
        }
        false
    }

    /// Whether a machine with this identifier exists.
    pub fn has_machine(&self, machine_id: &str) -> (r: bool)
        ensures
            r == spec_machine_exists(self.mv(), machine_id@),
    {
        let mut i: usize = 0;
        while i < self.machines.len()
            invariant
                0 <= i <= self.machines.len(),
                forall|j: int| 0 <= j < i ==> (#[trigger] self.mv()[j]).id != machine_id@,
            decreases self.machines.len() - i,
        {
            if crate::numeric::str_eq(self.machines[i].id.as_str(), machine_id) {
                proof {
                    assert(self.mv()[i as int].id == machine_id@);
                }
                return true;
            }
            i = i + 1;
        }
        false
    }

    /// The machine record the model creates on the `k`-th creation: the
    /// requested name, image, guest shape and region, the mount for the
    /// given volume if one is attached, one TCP service when a port is
    /// requested, and the fresh lifecycle state `"created"`.
    pub open spec fn spec_new_machine(
        k: nat,
        name: Seq<char>,
        image: Seq<char>,
        specs: InstanceSpecs,
        region: Seq<char>,
        volume_id: Option<Seq<char>>,
        port: Option<u16>,
    ) -> MachineView {
        MachineView {
            id: tagged_id('m', k),
            name: name,
            state: "created"@,
            region: region,
            instance_id: ""@,
            private_ip: ""@,
            config: MachineConfigView {
                env: None,
                init: InitView {
                    exec_args: Some(seq!["/bin/sleep"@, "inf"@]),
                    entrypoint: None,
                    cmd: None,
                    tty: None,
                },
                image: image,
                services: match port {
                    Some(p) => Some(
                        seq![
                            ServiceView {
                                internal_port: p,
                                ports: seq![Port { port: p }],
                                protocol: "tcp"@,
                            },
                        ],
                    ),
                    None => None,
                },
                metadata: None,
                mounts: match volume_id {
                    Some(v) => seq![
                        MountView {
                            encrypted: true,
                            path: "/data"@,
                            size_gb: specs.volume_gb,
                            volume: v,
                            name: name,
                            size_gb_limit: 500,
                        },
                    ],
                    None => Seq::empty(),
                },
                restart: None,
                guest: Some(
                    GuestView {
                        cpu_kind: "shared"@,
                        cpus: specs.cpu_count,
                        memory_mb: specs.memory_mb,
                    },
                ),
            },
            image_ref: ImageRefView {
                registry: ""@,
                repository: ""@,
                tag: None,
                digest: None,
                labels: None,
            },
            created_at: ""@,
        }
    }

    /// Creates a machine. The call fails exactly when failure injection
    /// asked for it, when the name is already taken — the remote API
    /// enforces name uniqueness — or when the referenced volume does not
    /// exist; any failure leaves the resources untouched.
    pub fn create_machine(
        &mut self,
        name: &str,
        image: &str,
        specs: InstanceSpecs,
        region: &str,
        volume_id: &Option<String>,
        port: Option<u16>,
    ) -> (r: Result<Machine, String>)
        requires
            old(self).wf(),
            old(self).calls.machine_creates < u64::MAX,
            old(self).next_id < u64::MAX,
        ensures
            final(self).wf(),
            final(self).volumes@ == old(self).volumes@,
            final(self).fail_next_volume_create == old(self).fail_next_volume_create,
            final(self).fail_next_machine_create == false,
            final(self).calls == (CallCounts {
                machine_creates: (old(self).calls.machine_creates + 1) as u64,
                ..old(self).calls
            }),
            match r {
                Ok(m) => {
                    &&& !old(self).fail_next_machine_create
                    &&& !spec_name_taken(old(self).mv(), name@)
                    &&& (volume_id matches Some(v) ==> spec_volume_exists(old(self).vv(), v@))
                    &&& m@ == Self::spec_new_machine(
                        old(self).next_id as nat,
                        name@,
                        image@,
                        specs,
                        region@,
                        crate::types::opt_str_view(*volume_id),
                        port,
                    )
                    &&& final(self).mv() == old(self).mv().push(m@)
                    &&& final(self).next_id == old(self).next_id + 1
                },
                Err(e) => {
                    &&& final(self).machines@ == old(self).machines@
                    &&& final(self).next_id == old(self).next_id
                    &&& old(self).fail_next_machine_create ==> e@ == "machine creation failed"@
                    &&& !old(self).fail_next_machine_create && spec_name_taken(
                        old(self).mv(),
                        name@,
                    ) ==> e@ == "machine name already taken"@
                    &&& {
                        &&& !old(self).fail_next_machine_create
                        &&& !spec_name_taken(old(self).mv(), name@)
                    } ==> (volume_id matches Some(v) && !spec_volume_exists(old(self).vv(), v@)
                        && e@ == "volume not found"@)
                },
            },
    {
        self.calls.machine_creates = self.calls.machine_creates + 1;
        if self.fail_next_machine_create {
            self.fail_next_machine_create = false;
            return Err("machine creation failed".to_owned());
        }
        if self.name_taken(name) {
            return Err("machine name already taken".to_owned());
        }
        let missing_volume: bool = match volume_id {
            Some(v) => !self.has_volume(v.as_str()),
            None => false,
        };
        if missing_volume {
            return Err("volume not found".to_owned());
        }
        proof {
            reveal_strlit("m");
            reveal_strlit("");
        }
        let mounts: Vec<Mount> = match volume_id {
            Some(v) => vec![
                Mount {
                    encrypted: true,
                    path: "/data".to_owned(),
                    size_gb: specs.volume_gb,
                    volume: v.clone(),
                    name: name.to_owned(),
                    size_gb_limit: 500,
                },
            ],
            None => Vec::new(),
        };
        let services: Option<Vec<Service>> = match port {
            Some(p) => Some(
                vec![
                    Service {
                        internal_port: p,
                        ports: vec![Port { port: p }],
                        protocol: "tcp".to_owned(),
                    },
                ],
            ),
            None => None,
        };
        let m = Machine {
            id: make_id("m", self.next_id),
            name: name.to_owned(),
            state: "created".to_owned(),
            region: region.to_owned(),
            instance_id: String::new(),
            private_ip: String::new(),
            config: MachineConfig {
                env: None,
                init: Init {
                    exec_args: Some(vec!["/bin/sleep".to_owned(), "inf".to_owned()]),
                    entrypoint: None,
                    cmd: None,
                    tty: None,
                },
                image: image.to_owned(),
                services,
                metadata: None,
                mounts,
                restart: None,
                guest: Some(
                    Guest {
                        cpu_kind: "shared".to_owned(),
                        cpus: specs.cpu_count,
                        memory_mb: specs.memory_mb,
                    },
                ),
            },
            image_ref: ImageRef {
                registry: String::new(),
                repository: String::new(),
                tag: None,
                digest: None,
                labels: None,
            },
            created_at: String::new(),
        };
        let ghost pre = *self;
        let ghost target = Self::spec_new_machine(
            pre.next_id as nat,
            name@,
            image@,
            specs,
            region@,
            crate::types::opt_str_view(*volume_id),
            port,
        );
        proof {
            assert(""@ =~= Seq::<char>::empty());
            assert("m"@[0] == 'm');
            match &m.config.init.exec_args {
                Some(v) => {
                    assert(crate::types::str_seq_view(v@) =~= seq!["/bin/sleep"@, "inf"@]);
                },
                None => {},
            }
            match (&m.config.services, port) {
                (Some(ss), Some(p)) => {
                    assert(ss@[0].ports@ =~= seq![Port { port: p }]);
                    assert(crate::types::services_view(ss@) =~= seq![
                        ServiceView {
                            internal_port: p,
                            ports: seq![Port { port: p }],
                            protocol: "tcp"@,
                        },
                    ]);
                },
                _ => {},
            }
            if m.config.mounts.len() > 0 {
                assert(crate::types::mounts_view(m.config.mounts@) =~= seq![m.config.mounts@[0]@]);
            } else {
                assert(crate::types::mounts_view(m.config.mounts@) =~= Seq::<MountView>::empty());
            }
            assert(m@ =~~= target);
        }
        self.machines.push(m.clone());
        self.next_id = self.next_id + 1;
        proof {
            assert(self.mv() =~= pre.mv().push(m@));
            lemma_machine_ids_tagged_push(pre.mv(), pre.next_id as nat, m@);
            lemma_volume_ids_tagged_weaken(pre.vv(), pre.next_id as nat, self.next_id as nat);
            lemma_names_unique_push(pre.mv(), m@);
        }
        Ok(m)
    }
}

/// Whether some machine in the listing bears this name.
pub open spec fn spec_name_taken(mv: Seq<MachineView>, name: Seq<char>) -> bool {
    exists|i: int| 0 <= i < mv.len() && (#[trigger] mv[i]).name == name
}

/// Whether a machine with this identifier is listed.
pub open spec fn spec_machine_exists(mv: Seq<MachineView>, id: Seq<char>) -> bool {
    exists|i: int| 0 <= i < mv.len() && (#[trigger] mv[i]).id == id
}

/// Whether a volume with this identifier is listed.
pub open spec fn spec_volume_exists(vv: Seq<VolumeView>, id: Seq<char>) -> bool {
    exists|i: int| 0 <= i < vv.len() && (#[trigger] vv[i]).id == id
}


/// The predicate that keeps every machine but the one with this
/// identifier.
pub open spec fn keep_machine(id: Seq<char>) -> spec_fn(MachineView) -> bool {
    |m: MachineView| m.id != id
}

/// The predicate that keeps every volume but the one with this
/// identifier.
pub open spec fn keep_volume(id: Seq<char>) -> spec_fn(VolumeView) -> bool {
    |v: VolumeView| v.id != id
}

/// A machine record with its lifecycle state replaced.
pub open spec fn set_state(m: MachineView, s: Seq<char>) -> MachineView {
    MachineView { state: s, ..m }
}

/// The listing after the machine with this identifier moves to state `s`.
pub open spec fn set_state_all(mv: Seq<MachineView>, id: Seq<char>, s: Seq<char>) -> Seq<
    MachineView,
> {
    mv.map_values(
        |m: MachineView|
            if m.id == id {
                set_state(m, s)
            } else {
                m
            },
    )
}

/// A machine record with its guest shape replaced.
pub open spec fn set_guest(m: MachineView, cpus: u32, memory_mb: u32) -> MachineView {
    MachineView {
        config: MachineConfigView {
            guest: Some(GuestView { cpu_kind: "shared"@, cpus, memory_mb }),
            ..m.config
        },
        ..m
    }
}

/// The listing after the machine with this identifier gets a new guest
/// shape.
pub open spec fn set_guest_all(mv: Seq<MachineView>, id: Seq<char>, cpus: u32, memory_mb: u32) -> Seq<
    MachineView,
> {
    mv.map_values(
        |m: MachineView|
            if m.id == id {
                set_guest(m, cpus, memory_mb)
            } else {
                m
            },
    )
}

impl ControlPlane {
    /// Deletes the machine with this identifier; unknown identifiers are
    /// an error and change nothing.
    pub fn delete_machine(&mut self, machine_id: &str) -> (r: Result<(), String>)
        requires
            old(self).wf(),
            old(self).calls.machine_deletes < u64::MAX,
        ensures
            final(self).wf(),
            final(self).volumes@ == old(self).volumes@,
            final(self).next_id == old(self).next_id,
            final(self).fail_next_volume_create == old(self).fail_next_volume_create,
            final(self).fail_next_machine_create == old(self).fail_next_machine_create,
            final(self).calls == (CallCounts {
                machine_deletes: (old(self).calls.machine_deletes + 1) as u64,
                ..old(self).calls
            }),
            match r {
                Ok(()) => {
                    &&& spec_machine_exists(old(self).mv(), machine_id@)
                    &&& final(self).mv() == old(self).mv().filter(keep_machine(machine_id@))
                },
                Err(e) => {
                    &&& !spec_machine_exists(old(self).mv(), machine_id@)
                    &&& e@ == "machine not found"@
                    &&& final(self).machines@ == old(self).machines@
                },
            },
    {
        self.calls.machine_deletes = self.calls.machine_deletes + 1;
        if !self.has_machine(machine_id) {
            return Err("machine not found".to_owned());
        }
        let ghost pre = *self;
        let ghost p = keep_machine(machine_id@);
        let mut kept: Vec<Machine> = Vec::new();
        let mut i: usize = 0;
        while i < self.machines.len()
            invariant
                0 <= i <= self.machines.len(),
                self.machines@ == pre.machines@,
                machines_view(kept@) =~= machines_view(pre.machines@.take(i as int)).filter(p),
                p == keep_machine(machine_id@),
            decreases self.machines.len() - i,
        {
            let keep = !crate::numeric::str_eq(self.machines[i].id.as_str(), machine_id);
            proof {
                lemma_filter_push(
                    machines_view(pre.machines@.take(i as int)),
                    p,
                    pre.machines@[i as int]@,
                );
                assert(machines_view(pre.machines@.take(i + 1)) =~= machines_view(
                    pre.machines@.take(i as int),
                ).push(pre.machines@[i as int]@));
            }
            if keep {
                kept.push(self.machines[i].clone());
            }
            proof {
                assert(machines_view(kept@) =~= machines_view(pre.machines@.take(i + 1)).filter(
                    p,
                ));
            }
            i = i + 1;
        }
        self.machines = kept;
        proof {
            assert(pre.machines@.take(pre.machines@.len() as int) =~= pre.machines@);
            lemma_machine_ids_tagged_filter(pre.mv(), pre.next_id as nat, p);
            lemma_names_unique_filter(pre.mv(), p);
        }
        Ok(())
    }

    /// Deletes the volume with this identifier; unknown identifiers are
    /// an error and change nothing.
    pub fn delete_volume(&mut self, volume_id: &str) -> (r: Result<(), String>)
        requires
            old(self).wf(),
            old(self).calls.volume_deletes < u64::MAX,
        ensures
            final(self).wf(),
            final(self).machines@ == old(self).machines@,
            final(self).next_id == old(self).next_id,
            final(self).fail_next_volume_create == old(self).fail_next_volume_create,
            final(self).fail_next_machine_create == old(self).fail_next_machine_create,
            final(self).calls == (CallCounts {
                volume_deletes: (old(self).calls.volume_deletes + 1) as u64,
                ..old(self).calls
            }),
            match r {
                Ok(()) => {
                    &&& spec_volume_exists(old(self).vv(), volume_id@)
                    &&& final(self).vv() == old(self).vv().filter(keep_volume(volume_id@))
                },
                Err(e) => {
                    &&& !spec_volume_exists(old(self).vv(), volume_id@)
                    &&& e@ == "volume not found"@
                    &&& final(self).volumes@ == old(self).volumes@
                },
            },
    {
        self.calls.volume_deletes = self.calls.volume_deletes + 1;
        if !self.has_volume(volume_id) {
            return Err("volume not found".to_owned());
        }
        let ghost pre = *self;
        let ghost p = keep_volume(volume_id@);
        let mut kept: Vec<Volume> = Vec::new();
        let mut i: usize = 0;
        while i < self.volumes.len()
            invariant
                0 <= i <= self.volumes.len(),
                self.volumes@ == pre.volumes@,
                volumes_view(kept@) =~= volumes_view(pre.volumes@.take(i as int)).filter(p),
                p == keep_volume(volume_id@),
            decreases self.volumes.len() - i,
        {
            let keep = !crate::numeric::str_eq(self.volumes[i].id.as_str(), volume_id);
            proof {
                lemma_filter_push(
                    volumes_view(pre.volumes@.take(i as int)),
                    p,
                    pre.volumes@[i as int]@,
                );
                assert(volumes_view(pre.volumes@.take(i + 1)) =~= volumes_view(
                    pre.volumes@.take(i as int),
                ).push(pre.volumes@[i as int]@));
            }
            if keep {
                kept.push(self.volumes[i].clone());
            }
            proof {
                assert(volumes_view(kept@) =~= volumes_view(pre.volumes@.take(i + 1)).filter(p));
            }
            i = i + 1;
        }
        self.volumes = kept;
        proof {
            assert(pre.volumes@.take(pre.volumes@.len() as int) =~= pre.volumes@);
            lemma_volume_ids_tagged_filter(pre.vv(), pre.next_id as nat, p);
        }
        Ok(())
    }

    /// Moves the machine with this identifier into a new lifecycle
    /// state; unknown identifiers are an error and change nothing.
    fn transition(&mut self, machine_id: &str, new_state: &str) -> (r: Result<(), String>)
        requires
            old(self).wf(),
        ensures
            final(self).wf(),
            final(self).volumes@ == old(self).volumes@,
            final(self).next_id == old(self).next_id,
            final(self).fail_next_volume_create == old(self).fail_next_volume_create,
            final(self).fail_next_machine_create == old(self).fail_next_machine_create,
            final(self).calls == old(self).calls,
            match r {
                Ok(()) => {
                    &&& spec_machine_exists(old(self).mv(), machine_id@)
                    &&& final(self).mv() == set_state_all(
                        old(self).mv(),
                        machine_id@,
                        new_state@,
                    )
                },
                Err(e) => {
                    &&& !spec_machine_exists(old(self).mv(), machine_id@)
                    &&& e@ == "machine not found"@
                    &&& final(self).machines@ == old(self).machines@
                },
            },
    {
        if !self.has_machine(machine_id) {
            return Err("machine not found".to_owned());
        }
        let ghost pre = *self;
        let ghost target = set_state_all(pre.mv(), machine_id@, new_state@);
        let mut i: usize = 0;
        while i < self.machines.len()
            invariant
                0 <= i <= self.machines.len(),
                self.machines@.len() == pre.machines@.len(),
                target == set_state_all(pre.mv(), machine_id@, new_state@),
                forall|j: int| 0 <= j < i ==> (#[trigger] self.machines@[j])@ == target[j],
                forall|j: int|
                    i <= j < pre.machines@.len() ==> (#[trigger] self.machines@[j])@
                        == pre.mv()[j],
                self.volumes@ == pre.volumes@,
                self.next_id == pre.next_id,
                self.fail_next_volume_create == pre.fail_next_volume_create,
                self.fail_next_machine_create == pre.fail_next_machine_create,
                self.calls == pre.calls,
            decreases self.machines.len() - i,
        {
            if crate::numeric::str_eq(self.machines[i].id.as_str(), machine_id) {
                let mut m = self.machines[i].clone();
                m.state = new_state.to_owned();
                proof {
                    assert(m@ =~~= set_state(pre.mv()[i as int], new_state@));
                }
                self.machines.set(i, m);
            }
            i = i + 1;
        }
        proof {
            assert(self.mv() =~= target);
            assert forall|j: int| 0 <= j < self.mv().len() implies id_tagged_below(
                (#[trigger] self.mv()[j]).id,
                'm',
                self.next_id as nat,
            ) by {
                assert(self.mv()[j].id == pre.mv()[j].id);
                assert(id_tagged_below(pre.mv()[j].id, 'm', pre.next_id as nat));
            }
            assert forall|j: int| 0 <= j < pre.mv().len() implies (
            #[trigger] self.mv()[j]).name == pre.mv()[j].name by {}
            lemma_names_unique_pointwise(pre.mv(), self.mv());
        }
        Ok(())
    }

    /// Issues a start call: the machine begins starting. Unknown
    /// identifiers are an error.
    pub fn start(&mut self, machine_id: &str) -> (r: Result<(), String>)
        requires
            old(self).wf(),
            old(self).calls.starts < u64::MAX,
        ensures
            final(self).wf(),
            final(self).volumes@ == old(self).volumes@,
            final(self).next_id == old(self).next_id,
            final(self).fail_next_volume_create == old(self).fail_next_volume_create,
            final(self).fail_next_machine_create == old(self).fail_next_machine_create,
            final(self).calls == (CallCounts {
                starts: (old(self).calls.starts + 1) as u64,
                ..old(self).calls
            }),
            match r {
                Ok(()) => {
                    &&& spec_machine_exists(old(self).mv(), machine_id@)
                    &&& final(self).mv() == set_state_all(
                        old(self).mv(),
                        machine_id@,
                        "starting"@,
                    )
                },
                Err(e) => {
                    &&& !spec_machine_exists(old(self).mv(), machine_id@)
                    &&& e@ == "machine not found"@
                    &&& final(self).machines@ == old(self).machines@
                },
            },
    {
        self.calls.starts = self.calls.starts + 1;
        self.transition(machine_id, "starting")
    }

    /// Issues a stop call: the machine is stopped at once. Unknown
    /// identifiers are an error.
    pub fn stop(&mut self, machine_id: &str) -> (r: Result<(), String>)
        requires
            old(self).wf(),
            old(self).calls.stops < u64::MAX,
        ensures
            final(self).wf(),
            final(self).volumes@ == old(self).volumes@,
            final(self).next_id == old(self).next_id,
            final(self).fail_next_volume_create == old(self).fail_next_volume_create,
            final(self).fail_next_machine_create == old(self).fail_next_machine_create,
            final(self).calls == (CallCounts {
                stops: (old(self).calls.stops + 1) as u64,
                ..old(self).calls
            }),
            match r {
                Ok(()) => {
                    &&& spec_machine_exists(old(self).mv(), machine_id@)
                    &&& final(self).mv() == set_state_all(
                        old(self).mv(),
                        machine_id@,
                        "stopped"@,
                    )
                },
                Err(e) => {
                    &&& !spec_machine_exists(old(self).mv(), machine_id@)
                    &&& e@ == "machine not found"@
                    &&& final(self).machines@ == old(self).machines@
                },
            },
    {
        self.calls.stops = self.calls.stops + 1;
        self.transition(machine_id, "stopped")
    }

    /// The blocking wait call: it returns once the machine has reached
    /// the started state, which is when the transition becomes visible
    /// in the listing. Unknown identifiers are an error.
    pub fn wait_started(&mut self, machine_id: &str) -> (r: Result<(), String>)
        requires
            old(self).wf(),
            old(self).calls.waits < u64::MAX,
        ensures
            final(self).wf(),
            final(self).volumes@ == old(self).volumes@,
            final(self).next_id == old(self).next_id,
            final(self).fail_next_volume_create == old(self).fail_next_volume_create,
            final(self).fail_next_machine_create == old(self).fail_next_machine_create,
            final(self).calls == (CallCounts {
                waits: (old(self).calls.waits + 1) as u64,
                ..old(self).calls
            }),
            match r {
                Ok(()) => {
                    &&& spec_machine_exists(old(self).mv(), machine_id@)
                    &&& final(self).mv() == set_state_all(
                        old(self).mv(),
                        machine_id@,
                        "started"@,
                    )
                },
                Err(e) => {
                    &&& !spec_machine_exists(old(self).mv(), machine_id@)
                    &&& e@ == "machine not found"@
                    &&& final(self).machines@ == old(self).machines@
                },
            },
    {
        self.calls.waits = self.calls.waits + 1;
        self.transition(machine_id, "started")
    }

    /// Replaces the guest shape of the machine with this identifier;
    /// unknown identifiers are an error and change nothing.
    pub fn update_guest(&mut self, machine_id: &str, cpus: u32, memory_mb: u32) -> (r: Result<
        (),
        String,
    >)
        requires
            old(self).wf(),
        ensures
            final(self).wf(),
            final(self).volumes@ == old(self).volumes@,
            final(self).next_id == old(self).next_id,
            final(self).fail_next_volume_create == old(self).fail_next_volume_create,
            final(self).fail_next_machine_create == old(self).fail_next_machine_create,
            final(self).calls == old(self).calls,
            match r {
                Ok(()) => {
                    &&& spec_machine_exists(old(self).mv(), machine_id@)
                    &&& final(self).mv() == set_guest_all(
                        old(self).mv(),
                        machine_id@,
                        cpus,
                        memory_mb,
                    )
                },
                Err(e) => {
                    &&& !spec_machine_exists(old(self).mv(), machine_id@)
                    &&& e@ == "machine not found"@
                    &&& final(self).machines@ == old(self).machines@
                },
            },
    {
        if !self.has_machine(machine_id) {
            return Err("machine not found".to_owned());
        }
        let ghost pre = *self;
        let ghost target = set_guest_all(pre.mv(), machine_id@, cpus, memory_mb);
        let mut i: usize = 0;
        while i < self.machines.len()
            invariant
                0 <= i <= self.machines.len(),
                self.machines@.len() == pre.machines@.len(),
                target == set_guest_all(pre.mv(), machine_id@, cpus, memory_mb),
                forall|j: int| 0 <= j < i ==> (#[trigger] self.machines@[j])@ == target[j],
                forall|j: int|
                    i <= j < pre.machines@.len() ==> (#[trigger] self.machines@[j])@
                        == pre.mv()[j],
                self.volumes@ == pre.volumes@,
                self.next_id == pre.next_id,
                self.fail_next_volume_create == pre.fail_next_volume_create,
                self.fail_next_machine_create == pre.fail_next_machine_create,
                self.calls == pre.calls,
            decreases self.machines.len() - i,
        {
            if crate::numeric::str_eq(self.machines[i].id.as_str(), machine_id) {
                let mut m = self.machines[i].clone();
                m.config.guest = Some(
                    Guest { cpu_kind: "shared".to_owned(), cpus, memory_mb },
                );
                proof {
                    assert(m@ =~~= set_guest(pre.mv()[i as int], cpus, memory_mb));
                }
                self.machines.set(i, m);
            }
            i = i + 1;
        }
        proof {
            assert(self.mv() =~= target);
            assert forall|j: int| 0 <= j < self.mv().len() implies id_tagged_below(
                (#[trigger] self.mv()[j]).id,
                'm',
                self.next_id as nat,
            ) by {
                assert(self.mv()[j].id == pre.mv()[j].id);
                assert(id_tagged_below(pre.mv()[j].id, 'm', pre.next_id as nat));
            }
            assert forall|j: int| 0 <= j < pre.mv().len() implies (
            #[trigger] self.mv()[j]).name == pre.mv()[j].name by {}
            lemma_names_unique_pointwise(pre.mv(), self.mv());
        }
        Ok(())
    }
}

/// The identifier counter and every call counter grew by at most `d`
/// between two control-plane states.
pub open spec fn grows_within(pre: ControlPlane, post: ControlPlane, d: int) -> bool {
    &&& pre.next_id <= post.next_id <= pre.next_id + d
    &&& pre.calls.lists <= post.calls.lists <= pre.calls.lists + d
    &&& pre.calls.volume_creates <= post.calls.volume_creates <= pre.calls.volume_creates + d
    &&& pre.calls.machine_creates <= post.calls.machine_creates <= pre.calls.machine_creates + d
    &&& pre.calls.machine_deletes <= post.calls.machine_deletes <= pre.calls.machine_deletes + d
    &&& pre.calls.volume_deletes <= post.calls.volume_deletes <= pre.calls.volume_deletes + d
    &&& pre.calls.starts <= post.calls.starts <= pre.calls.starts + d
    &&& pre.calls.stops <= post.calls.stops <= pre.calls.stops + d
    &&& pre.calls.waits <= post.calls.waits <= pre.calls.waits + d
}

} // verus!
