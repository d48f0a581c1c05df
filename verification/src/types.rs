//! The entity model: the user-facing `Instance`, its specs and two-valued
//! state, the profile configuration, and the plain records in which the
//! remote control plane describes machines and volumes.
//!
//! Every record type has a mathematical view (`@`) over character
//! sequences; all contracts in this crate are stated over those views.

use vstd::prelude::*;

use crate::numeric::str_eq;

verus! {

broadcast use vstd::seq_lib::group_seq_properties, Seq::lemma_push_map_commute, Seq::lemma_map_take_succ;

/// The two-valued instance state presented to the user.
#[derive(Clone, Copy, Debug, PartialEq, Eq, Structural)]
pub enum InstanceState {
    Running,
    Stopped,
}

/// The state mapper: `"starting"` and `"started"` collapse to `Running`;
/// every other string, including unknown future values, collapses to
/// `Stopped`. Total over all strings.
pub open spec fn spec_state_of(raw: Seq<char>) -> InstanceState {
    if raw == "starting"@ || raw == "started"@ {
        InstanceState::Running
    } else {
        InstanceState::Stopped
    }
}

/// Maps the remote API's free-text lifecycle state onto the closed
/// two-valued model.
pub fn parse_state(state: &str) -> (r: InstanceState)
    ensures
        r == spec_state_of(state@),
{
    if str_eq(state, "starting") || str_eq(state, "started") {
        InstanceState::Running
    } else {
        InstanceState::Stopped
    }
}

/// Guest resource configuration of an instance: a value type with no
/// identity.
#[derive(Clone, Copy, Debug, PartialEq, Eq, Structural)]
pub struct InstanceSpecs {
    pub cpu_count: u32,
    pub memory_mb: u32,
    pub volume_gb: u32,
}

impl InstanceSpecs {
    /// The sentinel value for a machine that reports no guest resource
    /// configuration.
    pub fn phony() -> (r: Self)
        ensures
            r == (InstanceSpecs { cpu_count: 0, memory_mb: 0, volume_gb: 0 }),
    {
        Self { cpu_count: 0, memory_mb: 0, volume_gb: 0 }
    }
}

/// The view of an optional string.
pub open spec fn opt_str_view(o: Option<String>) -> Option<Seq<char>> {
    match o {
        Some(s) => Some(s@),
        None => None,
    }
}

/// The view of a list of strings.
pub open spec fn str_seq_view(v: Seq<String>) -> Seq<Seq<char>> {
    v.map_values(|s: String| s@)
}

/// The view of a list of key/value string pairs.
pub open spec fn pairs_view(v: Seq<(String, String)>) -> Seq<(Seq<char>, Seq<char>)> {
    v.map_values(|p: (String, String)| (p.0@, p.1@))
}

/// The user-facing entity: one machine plus its attached volume.
#[derive(Debug)]
pub struct Instance {
    pub machine_id: String,
    pub volume_id: String,
    pub name: String,
    pub image: String,
    pub specs: InstanceSpecs,
    pub region: String,
    pub port: Option<u16>,
    pub state: InstanceState,
}

/// Mathematical view of an [`Instance`].
#[verifier::ext_equal]
pub struct InstanceView {
    pub machine_id: Seq<char>,
    pub volume_id: Seq<char>,
    pub name: Seq<char>,
    pub image: Seq<char>,
    pub specs: InstanceSpecs,
    pub region: Seq<char>,
    pub port: Option<u16>,
    pub state: InstanceState,
}

impl View for Instance {
    type V = InstanceView;

    open spec fn view(&self) -> InstanceView {
        InstanceView {
            machine_id: self.machine_id@,
            volume_id: self.volume_id@,
            name: self.name@,
            image: self.image@,
            specs: self.specs,
            region: self.region@,
            port: self.port,
            state: self.state,
        }
    }
}

impl Clone for Instance {
    fn clone(&self) -> (res: Self)
        ensures
            res@ == self@,
    {
        Instance {
            machine_id: self.machine_id.clone(),
            volume_id: self.volume_id.clone(),
            name: self.name.clone(),
            image: self.image.clone(),
            specs: self.specs,
            region: self.region.clone(),
            port: self.port,
            state: self.state,
        }
    }
}

/// Raw creation input as collected from the command line, before every
/// field is known to be present.
#[derive(Debug)]
pub struct InstanceInput {
    pub name: Option<String>,
    pub image: Option<String>,
    pub cpus: Option<u32>,
    pub memory: Option<u32>,
    pub volume: Option<u32>,
    pub region: Option<String>,
    pub port: Option<u16>,
}

/// The stored profile: credential and application name for the remote API.
#[derive(Debug)]
pub struct Config {
    pub fly_api_key: Option<String>,
    pub fly_app_name: Option<String>,
}

impl Config {
    pub fn new() -> (r: Self)
        ensures
            r.fly_api_key is None,
            r.fly_app_name is None,
    {
        Config { fly_api_key: None, fly_app_name: None }
    }
}

/// Clones a vector of strings.
pub fn clone_string_vec(v: &Vec<String>) -> (r: Vec<String>)
    ensures
        str_seq_view(r@) == str_seq_view(v@),
        r@.len() == v@.len(),
{
    let mut r: Vec<String> = Vec::new();
    let mut i: usize = 0;
    while i < v.len()
        invariant
            0 <= i <= v.len(),
            r@.len() == i,
            str_seq_view(r@) =~= str_seq_view(v@.take(i as int)),
        decreases v.len() - i,
    {
        r.push(v[i].clone());
        proof {
            assert(str_seq_view(r@) =~= str_seq_view(v@.take(i + 1)));
        }
        i = i + 1;
    }
    proof {
        assert(v@.take(v@.len() as int) =~= v@);
    }
    r
}

/// Clones a vector of key/value string pairs.
pub fn clone_pairs(v: &Vec<(String, String)>) -> (r: Vec<(String, String)>)
    ensures
        pairs_view(r@) == pairs_view(v@),
        r@.len() == v@.len(),
{
    let mut r: Vec<(String, String)> = Vec::new();
    let mut i: usize = 0;
    while i < v.len()
        invariant
            0 <= i <= v.len(),
            r@.len() == i,
            pairs_view(r@) =~= pairs_view(v@.take(i as int)),
        decreases v.len() - i,
    {
        let p = (v[i].0.clone(), v[i].1.clone());
        r.push(p);
        proof {
            assert(pairs_view(r@) =~= pairs_view(v@.take(i + 1)));
        }
        i = i + 1;
    }
    proof {
        assert(v@.take(v@.len() as int) =~= v@);
    }
    r
}

/// Clones an optional string.
pub fn clone_opt_string(o: &Option<String>) -> (r: Option<String>)
    ensures
        opt_str_view(r) == opt_str_view(*o),
{
    match o {
        Some(s) => Some(s.clone()),
        None => None,
    }
}

/// View of an optional list of key/value string pairs.
pub open spec fn opt_pairs_view(o: Option<Vec<(String, String)>>) -> Option<
    Seq<(Seq<char>, Seq<char>)>,
> {
    match o {
        Some(v) => Some(pairs_view(v@)),
        None => None,
    }
}

/// Clones an optional list of key/value string pairs.
pub fn clone_opt_pairs(o: &Option<Vec<(String, String)>>) -> (r: Option<Vec<(String, String)>>)
    ensures
        opt_pairs_view(r) == opt_pairs_view(*o),
{
    match o {
        Some(v) => Some(clone_pairs(v)),
        None => None,
    }
}

/// Image reference reported by the remote API for a machine.
#[derive(Debug)]
pub struct ImageRef {
    pub registry: String,
    pub repository: String,
    pub tag: Option<String>,
    pub digest: Option<String>,
    pub labels: Option<Vec<(String, String)>>,
}

/// Mathematical view of an [`ImageRef`].
#[verifier::ext_equal]
pub struct ImageRefView {
    pub registry: Seq<char>,
    pub repository: Seq<char>,
    pub tag: Option<Seq<char>>,
    pub digest: Option<Seq<char>>,
    pub labels: Option<Seq<(Seq<char>, Seq<char>)>>,
}

impl View for ImageRef {
    type V = ImageRefView;

    open spec fn view(&self) -> ImageRefView {
        ImageRefView {
            registry: self.registry@,
            repository: self.repository@,
            tag: opt_str_view(self.tag),
            digest: opt_str_view(self.digest),
            labels: opt_pairs_view(self.labels),
        }
    }
}

impl Clone for ImageRef {
    fn clone(&self) -> (res: Self)
        ensures
            res@ == self@,
    {
        ImageRef {
            registry: self.registry.clone(),
            repository: self.repository.clone(),
            tag: clone_opt_string(&self.tag),
            digest: clone_opt_string(&self.digest),
            labels: clone_opt_pairs(&self.labels),
        }
    }
}

/// A single exposed port of a service.
#[derive(Clone, Copy, Debug, PartialEq, Eq, Structural)]
pub struct Port {
    pub port: u16,
}

/// A network service exposed by a machine.
#[derive(Debug)]
pub struct Service {
    pub internal_port: u16,
    pub ports: Vec<Port>,
    pub protocol: String,
}

/// Mathematical view of a [`Service`].
#[verifier::ext_equal]
pub struct ServiceView {
    pub internal_port: u16,
    pub ports: Seq<Port>,
    pub protocol: Seq<char>,
}

impl View for Service {
    type V = ServiceView;

    open spec fn view(&self) -> ServiceView {
        ServiceView { internal_port: self.internal_port, ports: self.ports@, protocol: self.protocol@ }
    }
}

impl Clone for Service {
    fn clone(&self) -> (res: Self)
        ensures
            res@ == self@,
    {
        let mut ports: Vec<Port> = Vec::new();
        let mut i: usize = 0;
        while i < self.ports.len()
            invariant
                0 <= i <= self.ports.len(),
                ports@ =~= self.ports@.take(i as int),
            decreases self.ports.len() - i,
        {
            ports.push(self.ports[i]);
            i = i + 1;
        }
        proof {
            assert(ports@ =~= self.ports@);
        }
        Service { internal_port: self.internal_port, ports, protocol: self.protocol.clone() }
    }
}

/// Guest resource shape of a machine.
#[derive(Debug)]
pub struct Guest {
    pub cpu_kind: String,
    pub cpus: u32,
    pub memory_mb: u32,
}

/// Mathematical view of a [`Guest`].
#[verifier::ext_equal]
pub struct GuestView {
    pub cpu_kind: Seq<char>,
    pub cpus: u32,
    pub memory_mb: u32,
}

impl View for Guest {
    type V = GuestView;

    open spec fn view(&self) -> GuestView {
        GuestView { cpu_kind: self.cpu_kind@, cpus: self.cpus, memory_mb: self.memory_mb }
    }
}

impl Clone for Guest {
    fn clone(&self) -> (res: Self)
        ensures
            res@ == self@,
    {
        Guest { cpu_kind: self.cpu_kind.clone(), cpus: self.cpus, memory_mb: self.memory_mb }
    }
}

/// View of an optional list of strings.
pub open spec fn opt_str_seq_view(o: Option<Vec<String>>) -> Option<Seq<Seq<char>>> {
    match o {
        Some(v) => Some(str_seq_view(v@)),
        None => None,
    }
}

/// Clones an optional list of strings.
pub fn clone_opt_string_vec(o: &Option<Vec<String>>) -> (r: Option<Vec<String>>)
    ensures
        opt_str_seq_view(r) == opt_str_seq_view(*o),
{
    match o {
        Some(v) => Some(clone_string_vec(v)),
        None => None,
    }
}

/// Init process configuration of a machine. The `exec_args` field carries
/// the remote API's `exec` array.
#[derive(Debug)]
pub struct Init {
    pub exec_args: Option<Vec<String>>,
    pub entrypoint: Option<Vec<String>>,
    pub cmd: Option<Vec<String>>,
    pub tty: Option<bool>,
}

/// Mathematical view of an [`Init`].
#[verifier::ext_equal]
pub struct InitView {
    pub exec_args: Option<Seq<Seq<char>>>,
    pub entrypoint: Option<Seq<Seq<char>>>,
    pub cmd: Option<Seq<Seq<char>>>,
    pub tty: Option<bool>,
}

impl View for Init {
    type V = InitView;

    open spec fn view(&self) -> InitView {
        InitView {
            exec_args: opt_str_seq_view(self.exec_args),
            entrypoint: opt_str_seq_view(self.entrypoint),
            cmd: opt_str_seq_view(self.cmd),
            tty: self.tty,
        }
    }
}

impl Clone for Init {
    fn clone(&self) -> (res: Self)
        ensures
            res@ == self@,
    {
        Init {
            exec_args: clone_opt_string_vec(&self.exec_args),
            entrypoint: clone_opt_string_vec(&self.entrypoint),
            cmd: clone_opt_string_vec(&self.cmd),
            tty: self.tty,
        }
    }
}

/// Restart policy of a machine.
#[derive(Debug)]
pub struct Restart {
    pub policy: Option<String>,
}

/// Mathematical view of a [`Restart`].
#[verifier::ext_equal]
pub struct RestartView {
    pub policy: Option<Seq<char>>,
}

impl View for Restart {
    type V = RestartView;

    open spec fn view(&self) -> RestartView {
        RestartView { policy: opt_str_view(self.policy) }
    }
}

impl Clone for Restart {
    fn clone(&self) -> (res: Self)
        ensures
            res@ == self@,
    {
        Restart { policy: clone_opt_string(&self.policy) }
    }
}

/// A volume mounted into a machine.
#[derive(Debug)]
pub struct Mount {
    pub encrypted: bool,
    pub path: String,
    pub size_gb: u32,
    pub volume: String,
    pub name: String,
    pub size_gb_limit: u32,
}

/// Mathematical view of a [`Mount`].
#[verifier::ext_equal]
pub struct MountView {
    pub encrypted: bool,
    pub path: Seq<char>,
    pub size_gb: u32,
    pub volume: Seq<char>,
    pub name: Seq<char>,
    pub size_gb_limit: u32,
}

impl View for Mount {
    type V = MountView;

    open spec fn view(&self) -> MountView {
        MountView {
            encrypted: self.encrypted,
            path: self.path@,
            size_gb: self.size_gb,
            volume: self.volume@,
            name: self.name@,
            size_gb_limit: self.size_gb_limit,
        }
    }
}

impl Clone for Mount {
    fn clone(&self) -> (res: Self)
        ensures
            res@ == self@,
    {
        Mount {
            encrypted: self.encrypted,
            path: self.path.clone(),
            size_gb: self.size_gb,
            volume: self.volume.clone(),
            name: self.name.clone(),
            size_gb_limit: self.size_gb_limit,
        }
    }
}

/// View of a list of services.
pub open spec fn services_view(v: Seq<Service>) -> Seq<ServiceView> {
    v.map_values(|s: Service| s@)
}

/// View of a list of mounts.
pub open spec fn mounts_view(v: Seq<Mount>) -> Seq<MountView> {
    v.map_values(|m: Mount| m@)
}

/// Full configuration of a machine as reported by the remote API.
#[derive(Debug)]
pub struct MachineConfig {
    pub env: Option<Vec<(String, String)>>,
    pub init: Init,
    pub image: String,
    pub services: Option<Vec<Service>>,
    pub metadata: Option<Vec<(String, String)>>,
    pub mounts: Vec<Mount>,
    pub restart: Option<Restart>,
    pub guest: Option<Guest>,
}

/// Mathematical view of a [`MachineConfig`].
#[verifier::ext_equal]
pub struct MachineConfigView {
    pub env: Option<Seq<(Seq<char>, Seq<char>)>>,
    pub init: InitView,
    pub image: Seq<char>,
    pub services: Option<Seq<ServiceView>>,
    pub metadata: Option<Seq<(Seq<char>, Seq<char>)>>,
    pub mounts: Seq<MountView>,
    pub restart: Option<RestartView>,
    pub guest: Option<GuestView>,
}

impl View for MachineConfig {
    type V = MachineConfigView;

    open spec fn view(&self) -> MachineConfigView {
        MachineConfigView {
            env: opt_pairs_view(self.env),
            init: self.init@,
            image: self.image@,
            services: match self.services {
                Some(ss) => Some(services_view(ss@)),
                None => None,
            },
            metadata: opt_pairs_view(self.metadata),
            mounts: mounts_view(self.mounts@),
            restart: match self.restart {
                Some(r) => Some(r@),
                None => None,
            },
            guest: match self.guest {
                Some(g) => Some(g@),
                None => None,
            },
        }
    }
}

impl Clone for MachineConfig {
    fn clone(&self) -> (res: Self)
        ensures
            res@ == self@,
    {
        let services: Option<Vec<Service>> = match &self.services {
            Some(ss) => {
                let mut v: Vec<Service> = Vec::new();
                let mut i: usize = 0;
                while i < ss.len()
                    invariant
                        0 <= i <= ss.len(),
                        services_view(v@) =~= services_view(ss@.take(i as int)),
                    decreases ss.len() - i,
                {
                    v.push(ss[i].clone());
                    proof {
                        assert(services_view(v@) =~= services_view(ss@.take(i + 1)));
                    }
                    i = i + 1;
                }
                proof {
                    assert(ss@.take(ss@.len() as int) =~= ss@);
                }
                Some(v)
            },
            None => None,
        };
        let mut mounts: Vec<Mount> = Vec::new();
        let mut i: usize = 0;
        while i < self.mounts.len()
            invariant
                0 <= i <= self.mounts.len(),
                mounts_view(mounts@) =~= mounts_view(self.mounts@.take(i as int)),
            decreases self.mounts.len() - i,
        {
            mounts.push(self.mounts[i].clone());
            proof {
                assert(mounts_view(mounts@) =~= mounts_view(self.mounts@.take(i + 1)));
            }
            i = i + 1;
        }
        proof {
            assert(self.mounts@.take(self.mounts@.len() as int) =~= self.mounts@);
        }
        MachineConfig {
            env: clone_opt_pairs(&self.env),
            init: self.init.clone(),
            image: self.image.clone(),
            services,
            metadata: clone_opt_pairs(&self.metadata),
            mounts,
            restart: match &self.restart {
                Some(r) => Some(r.clone()),
                None => None,
            },
            guest: match &self.guest {
                Some(g) => Some(g.clone()),
                None => None,
            },
        }
    }
}

/// A machine record as reported by the remote API.
#[derive(Debug)]
pub struct Machine {
    pub id: String,
    pub name: String,
    pub state: String,
    pub region: String,
    pub instance_id: String,
    pub private_ip: String,
    pub config: MachineConfig,
    pub image_ref: ImageRef,
    pub created_at: String,
}

/// Mathematical view of a [`Machine`].
#[verifier::ext_equal]
pub struct MachineView {
    pub id: Seq<char>,
    pub name: Seq<char>,
    pub state: Seq<char>,
    pub region: Seq<char>,
    pub instance_id: Seq<char>,
    pub private_ip: Seq<char>,
    pub config: MachineConfigView,
    pub image_ref: ImageRefView,
    pub created_at: Seq<char>,
}

impl View for Machine {
    type V = MachineView;

    open spec fn view(&self) -> MachineView {
        MachineView {
            id: self.id@,
            name: self.name@,
            state: self.state@,
            region: self.region@,
            instance_id: self.instance_id@,
            private_ip: self.private_ip@,
            config: self.config@,
            image_ref: self.image_ref@,
            created_at: self.created_at@,
        }
    }
}

impl Clone for Machine {
    fn clone(&self) -> (res: Self)
        ensures
            res@ == self@,
    {
        Machine {
            id: self.id.clone(),
            name: self.name.clone(),
            state: self.state.clone(),
            region: self.region.clone(),
            instance_id: self.instance_id.clone(),
            private_ip: self.private_ip.clone(),
            config: self.config.clone(),
            image_ref: self.image_ref.clone(),
            created_at: self.created_at.clone(),
        }
    }
}

/// A volume record as reported by the remote API.
#[derive(Debug)]
pub struct Volume {
    pub id: String,
    pub name: String,
    pub state: String,
    pub size_gb: u32,
    pub region: String,
    pub zone: String,
    pub encrypted: bool,
    pub attached_machine_id: Option<String>,
    pub attached_alloc_id: Option<String>,
    pub created_at: String,
    pub blocks: u32,
    pub block_size: u32,
    pub blocks_free: u32,
    pub blocks_avail: u32,
    pub fstype: String,
    pub snapshot_retention: u32,
    pub host_dedication_key: String,
}

/// Mathematical view of a [`Volume`].
#[verifier::ext_equal]
pub struct VolumeView {
    pub id: Seq<char>,
    pub name: Seq<char>,
    pub state: Seq<char>,
    pub size_gb: u32,
    pub region: Seq<char>,
    pub zone: Seq<char>,
    pub encrypted: bool,
    pub attached_machine_id: Option<Seq<char>>,
    pub attached_alloc_id: Option<Seq<char>>,
    pub created_at: Seq<char>,
    pub blocks: u32,
    pub block_size: u32,
    pub blocks_free: u32,
    pub blocks_avail: u32,
    pub fstype: Seq<char>,
    pub snapshot_retention: u32,
    pub host_dedication_key: Seq<char>,
}

impl View for Volume {
    type V = VolumeView;

    open spec fn view(&self) -> VolumeView {
        VolumeView {
            id: self.id@,
            name: self.name@,
            state: self.state@,
            size_gb: self.size_gb,
            region: self.region@,
            zone: self.zone@,
            encrypted: self.encrypted,
            attached_machine_id: opt_str_view(self.attached_machine_id),
            attached_alloc_id: opt_str_view(self.attached_alloc_id),
            created_at: self.created_at@,
            blocks: self.blocks,
            block_size: self.block_size,
            blocks_free: self.blocks_free,
            blocks_avail: self.blocks_avail,
            fstype: self.fstype@,
            snapshot_retention: self.snapshot_retention,
            host_dedication_key: self.host_dedication_key@,
        }
    }
}

impl Clone for Volume {
    fn clone(&self) -> (res: Self)
        ensures
            res@ == self@,
    {
        Volume {
            id: self.id.clone(),
            name: self.name.clone(),
            state: self.state.clone(),
            size_gb: self.size_gb,
            region: self.region.clone(),
            zone: self.zone.clone(),
            encrypted: self.encrypted,
            attached_machine_id: clone_opt_string(&self.attached_machine_id),
            attached_alloc_id: clone_opt_string(&self.attached_alloc_id),
            created_at: self.created_at.clone(),
            blocks: self.blocks,
            block_size: self.block_size,
            blocks_free: self.blocks_free,
            blocks_avail: self.blocks_avail,
            fstype: self.fstype.clone(),
            snapshot_retention: self.snapshot_retention,
            host_dedication_key: self.host_dedication_key.clone(),
        }
    }
}

/// View of a list of machines.
pub open spec fn machines_view(v: Seq<Machine>) -> Seq<MachineView> {
    v.map_values(|m: Machine| m@)
}

/// View of a list of volumes.
pub open spec fn volumes_view(v: Seq<Volume>) -> Seq<VolumeView> {
    v.map_values(|v: Volume| v@)
}

/// View of a list of instances.
pub open spec fn instances_view(v: Seq<Instance>) -> Seq<InstanceView> {
    v.map_values(|i: Instance| i@)
}

} // verus!
