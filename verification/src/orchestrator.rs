//! The orchestration state machines. Every multi-step operation against
//! the remote control plane — provisioning, teardown, start, stop — is a
//! sequence of decisions between remote calls. Each decision is a pure
//! step function here, from the operation's state and the outcome of the
//! last call to the next state and the next action; whoever drives the
//! operation performs each [`Action`] against the control plane and
//! feeds the outcome back in.

use vstd::prelude::*;

use crate::numeric::str_eq;
use crate::request::{machine_to_instance, spec_instance_of, spec_port_of};
use crate::types::{Instance, InstanceSpecs, Machine, MachineView, Volume, machines_view};

verus! {

broadcast use vstd::seq_lib::group_seq_properties;

/// The inputs of one instance-creation request.
#[derive(Debug)]
pub struct CreateRequest {
    pub name: String,
    pub image: String,
    pub cpu_count: u32,
    pub memory_mb: u32,
    pub volume_gb: u32,
    pub region: String,
    pub port: Option<u16>,
}

impl CreateRequest {
    /// The guest resource shape this request asks for.
    pub open spec fn specs(self) -> InstanceSpecs {
        InstanceSpecs {
            cpu_count: self.cpu_count,
            memory_mb: self.memory_mb,
            volume_gb: self.volume_gb,
        }
    }
}

/// How an orchestration fails: a pre-flight validation failure, a name
/// that resolves to no instance, or a remote call whose raw response
/// body is carried along.
#[derive(Debug)]
pub enum OrchError {
    PortInUse,
    NotFound,
    Remote(String),
}

impl OrchError {
    /// The message shown to the caller.
    pub fn message(&self) -> (r: String)
        ensures
            match self {
                OrchError::PortInUse => r@ == "Port is already in use by another instance"@,
                OrchError::NotFound => r@ == "Instance not found"@,
                OrchError::Remote(e) => r@ == e@,
            },
    {
        match self {
            OrchError::PortInUse => "Port is already in use by another instance".to_owned(),
            OrchError::NotFound => "Instance not found".to_owned(),
            OrchError::Remote(e) => e.clone(),
        }
    }
}

/// One remote call for the driver to perform.
#[derive(Debug)]
pub enum Action {
    ListMachines,
    CreateVolume { name: String, volume_gb: u32, region: String },
    CreateMachine {
        name: String,
        image: String,
        specs: InstanceSpecs,
        region: String,
        volume_id: Option<String>,
        port: Option<u16>,
    },
    WaitStarted { machine_id: String },
    StartMachine { machine_id: String },
    StopMachine { machine_id: String },
    DeleteMachine { machine_id: String },
    DeleteVolume { volume_id: String },
}

/// Whether some machine in the listing already exposes this port.
pub open spec fn spec_port_taken(mv: Seq<MachineView>, p: u16) -> bool {
    exists|i: int| 0 <= i < mv.len() && spec_port_of(#[trigger] mv[i]) == Some(p)
}

/// Whether some machine in the listing already exposes this port.
pub fn port_in_use(machines: &Vec<Machine>, p: u16) -> (r: bool)
    ensures
        r == spec_port_taken(machines_view(machines@), p),
{
    let ghost mv = machines_view(machines@);
    let mut i: usize = 0;
    while i < machines.len()
        invariant
            0 <= i <= machines.len(),
            mv == machines_view(machines@),
            forall|j: int| 0 <= j < i ==> spec_port_of(#[trigger] mv[j]) != Some(p),
        decreases machines.len() - i,
    {
        let hit: bool = match &machines[i].config.services {
            Some(ss) => if ss.len() > 0 {
                ss[0].internal_port == p
            } else {
                false
            },
            None => false,
        };
        if hit {
            proof {
                assert(spec_port_of(mv[i as int]) == Some(p));
            }
            return true;
        }
        i = i + 1;
    }
    false
}

/// The first machine in the listing bearing this name, if any: the
/// directory's only name resolution mechanism.
pub open spec fn spec_find_named(mv: Seq<MachineView>, name: Seq<char>) -> Option<MachineView>
    decreases mv.len(),
{
    if mv.len() == 0 {
        None
    } else if mv[0].name == name {
        Some(mv[0])
    } else {
        spec_find_named(mv.skip(1), name)
    }
}

/// A resolved machine is in the listing under that name; a failed
/// resolution means no machine bears the name.
pub proof fn lemma_find_named(mv: Seq<MachineView>, name: Seq<char>)
    ensures
        match spec_find_named(mv, name) {
            Some(m) => m.name == name && exists|i: int|
                0 <= i < mv.len() && #[trigger] mv[i] == m,
            None => forall|i: int| 0 <= i < mv.len() ==> (#[trigger] mv[i]).name != name,
        },
    decreases mv.len(),
{
    if mv.len() > 0 {
        lemma_find_named(mv.skip(1), name);
        match spec_find_named(mv, name) {
            Some(m) => {
                if mv[0].name == name {
                    assert(mv[0] == m);
                } else {
                    let i = choose|i: int| 0 <= i < mv.skip(1).len() && mv.skip(1)[i] == m;
                    assert(mv[i + 1] == m);
                }
            },
            None => {},
        }
    }
}

/// Resolves a name against a machine listing, scanning in order.
pub fn find_by_name(machines: &Vec<Machine>, name: &str) -> (r: Option<Machine>)
    ensures
        match r {
            Some(m) => spec_find_named(machines_view(machines@), name@) == Some(m@),
            None => spec_find_named(machines_view(machines@), name@) is None,
        },
{
    let ghost mv = machines_view(machines@);
    let mut i: usize = 0;
    while i < machines.len()
        invariant
            0 <= i <= machines.len(),
            mv == machines_view(machines@),
            spec_find_named(mv, name@) == spec_find_named(mv.skip(i as int), name@),
        decreases machines.len() - i,
    {
        if str_eq(machines[i].name.as_str(), name) {
            proof {
                assert(mv.skip(i as int)[0] == mv[i as int]);
            }
            return Some(machines[i].clone());
        }
        proof {
            assert(mv.skip(i as int)[0] == mv[i as int]);
            assert(mv.skip(i as int).skip(1) =~= mv.skip(i + 1));
        }
        i = i + 1;
    }
    proof {
        assert(mv.skip(i as int).len() == 0);
    }
    None
}

/// Where a provisioning run stands: which call is outstanding, and what
/// has been created so far.
#[derive(Debug)]
pub enum ProvisionPhase {
    /// The directory listing for the port-uniqueness check is outstanding.
    PortCheck,
    /// The volume-creation call is outstanding.
    VolumeCreate,
    /// The machine-creation call is outstanding; the volume exists.
    MachineCreate { volume_id: String },
    /// Machine creation failed; the compensating volume deletion is
    /// outstanding and `failure` is the error to propagate.
    Rollback { failure: String },
    /// The readiness wait is outstanding.
    StartWait { instance: Instance },
    /// The quiescing stop is outstanding.
    Quiesce { instance: Instance },
}

/// A provisioning run.
#[derive(Debug)]
pub struct Provision {
    pub req: CreateRequest,
    pub phase: ProvisionPhase,
}

/// What a provisioning step decided: continue with another remote call,
/// or finish with a result.
#[derive(Debug)]
pub enum ProvisionStep {
    Continue(Provision, Action),
    Done(Result<Instance, OrchError>),
}

/// Begins a provisioning run: with a port requested, the directory is
/// consulted first; otherwise the volume is created right away.
pub fn provision_start(req: CreateRequest) -> (r: (Provision, Action))
    ensures
        r.0.req == req,
        match req.port {
            Some(_) => r.0.phase is PortCheck && r.1 is ListMachines,
            None => r.0.phase is VolumeCreate && (r.1 matches Action::CreateVolume {
                name,
                volume_gb,
                region,
            } && name@ == req.name@ && volume_gb == req.volume_gb && region@ == req.region@),
        },
{
    if req.port.is_some() {
        let p = Provision { req, phase: ProvisionPhase::PortCheck };
        (p, Action::ListMachines)
    } else {
        let act = Action::CreateVolume {
            name: req.name.clone(),
            volume_gb: req.volume_gb,
            region: req.region.clone(),
        };
        let p = Provision { req, phase: ProvisionPhase::VolumeCreate };
        (p, act)
    }
}

/// Applies the directory listing to the port-uniqueness check: a taken
/// port fails the run before anything was created; otherwise the volume
/// is created next.
pub fn provision_on_machines(p: Provision, listing: Result<Vec<Machine>, String>) -> (r:
    ProvisionStep)
    requires
        p.phase is PortCheck,
        p.req.port is Some,
    ensures
        match listing {
            Ok(ms) => {
                if spec_port_taken(machines_view(ms@), p.req.port->0) {
                    r matches ProvisionStep::Done(Err(OrchError::PortInUse))
                } else {
                    r matches ProvisionStep::Continue(p2, act) && p2.req == p.req && p2.phase
                        is VolumeCreate && (act matches Action::CreateVolume {
                        name,
                        volume_gb,
                        region,
                    } && name@ == p.req.name@ && volume_gb == p.req.volume_gb && region@
                        == p.req.region@)
                }
            },
            Err(e) => r matches ProvisionStep::Done(Err(OrchError::Remote(e2))) && e2@ == e@,
        },
{
    match listing {
        Err(e) => ProvisionStep::Done(Err(OrchError::Remote(e))),
        Ok(ms) => {
            let port: u16 = match p.req.port {
                Some(q) => q,
                None => 0,
            };
            if port_in_use(&ms, port) {
                ProvisionStep::Done(Err(OrchError::PortInUse))
            } else {
                let act = Action::CreateVolume {
                    name: p.req.name.clone(),
                    volume_gb: p.req.volume_gb,
                    region: p.req.region.clone(),
                };
                ProvisionStep::Continue(
                    Provision { req: p.req, phase: ProvisionPhase::VolumeCreate },
                    act,
                )
            }
        },
    }
}

/// Applies the volume-creation outcome: on success the machine is
/// created next, mounting the new volume; on failure the run aborts with
/// nothing to compensate.
pub fn provision_on_volume(p: Provision, created: Result<Volume, String>) -> (r: ProvisionStep)
    requires
        p.phase is VolumeCreate,
    ensures
        match created {
            Ok(v) => r matches ProvisionStep::Continue(p2, act) && p2.req == p.req
                && (p2.phase matches ProvisionPhase::MachineCreate { volume_id } && volume_id@
                == v@.id) && (act matches Action::CreateMachine {
                name,
                image,
                specs,
                region,
                volume_id,
                port,
            } && name@ == p.req.name@ && image@ == p.req.image@ && specs == p.req.specs()
                && region@ == p.req.region@ && (volume_id matches Some(vid) && vid@ == v@.id)
                && port == p.req.port),
            Err(e) => r matches ProvisionStep::Done(Err(OrchError::Remote(e2))) && e2@ == e@,
        },
{
    match created {
        Err(e) => ProvisionStep::Done(Err(OrchError::Remote(e))),
        Ok(v) => {
            let act = Action::CreateMachine {
                name: p.req.name.clone(),
                image: p.req.image.clone(),
                specs: InstanceSpecs {
                    cpu_count: p.req.cpu_count,
                    memory_mb: p.req.memory_mb,
                    volume_gb: p.req.volume_gb,
                },
                region: p.req.region.clone(),
                volume_id: Some(v.id.clone()),
                port: p.req.port,
            };
            ProvisionStep::Continue(
                Provision { req: p.req, phase: ProvisionPhase::MachineCreate { volume_id: v.id } },
                act,
            )
        },
    }
}

/// Applies the machine-creation outcome: on success the response is
/// parsed into the instance and the readiness wait begins; on failure
/// the just-created volume is deleted — the one compensating action —
/// before the original error is propagated.
pub fn provision_on_machine(p: Provision, created: Result<Machine, String>) -> (r: ProvisionStep)
    requires
        p.phase matches ProvisionPhase::MachineCreate { .. },
    ensures
        match created {
            Ok(m) => r matches ProvisionStep::Continue(p2, act) && p2.req == p.req
                && (p2.phase matches ProvisionPhase::StartWait { instance } && instance@
                == spec_instance_of(m@)) && (act matches Action::WaitStarted { machine_id }
                && machine_id@ == m@.id),
            Err(e) => r matches ProvisionStep::Continue(p2, act) && p2.req == p.req
                && (p2.phase matches ProvisionPhase::Rollback { failure } && failure@ == e@) && (
            act matches Action::DeleteVolume { volume_id } && (p.phase
                matches ProvisionPhase::MachineCreate { volume_id: vid } && volume_id@ == vid@)),
        },
{
    let volume_id: String = match p.phase {
        ProvisionPhase::MachineCreate { volume_id } => volume_id,
        _ => String::new(),
    };
    match created {
        Err(e) => {
            let act = Action::DeleteVolume { volume_id };
            ProvisionStep::Continue(
                Provision { req: p.req, phase: ProvisionPhase::Rollback { failure: e } },
                act,
            )
        },
        Ok(m) => {
            let instance = machine_to_instance(&m);
            let act = Action::WaitStarted { machine_id: m.id };
            ProvisionStep::Continue(
                Provision { req: p.req, phase: ProvisionPhase::StartWait { instance } },
                act,
            )
        },
    }
}

/// Applies the compensating deletion's outcome: the original
/// machine-creation error is propagated either way, so a failed rollback
/// is reported as the failure that caused it.
pub fn provision_on_rollback(p: Provision, deleted: Result<(), String>) -> (r: ProvisionStep)
    requires
        p.phase matches ProvisionPhase::Rollback { .. },
    ensures
        r matches ProvisionStep::Done(Err(OrchError::Remote(f))) && (p.phase
            matches ProvisionPhase::Rollback { failure } && f@ == failure@),
{
    let failure: String = match p.phase {
        ProvisionPhase::Rollback { failure } => failure,
        _ => String::new(),
    };
    let _ = deleted;
    ProvisionStep::Done(Err(OrchError::Remote(failure)))
}

/// Applies the readiness wait's outcome: a machine that did not report
/// started fails the run — both resources exist at this point and are
/// not compensated — and a started machine is quiesced next.
pub fn provision_on_wait(p: Provision, waited: Result<(), String>) -> (r: ProvisionStep)
    requires
        p.phase matches ProvisionPhase::StartWait { .. },
    ensures
        match waited {
            Ok(()) => r matches ProvisionStep::Continue(p2, act) && p2.req == p.req && (p.phase
                matches ProvisionPhase::StartWait { instance } && (p2.phase
                matches ProvisionPhase::Quiesce { instance: i2 } && i2 == instance) && (
            act matches Action::StopMachine { machine_id } && machine_id@
                == instance.machine_id@)),
            Err(_) => r matches ProvisionStep::Done(Err(OrchError::Remote(f))) && f@
                == "Instance was not started"@,
        },
{
    let instance: Instance = match p.phase {
        ProvisionPhase::StartWait { instance } => instance,
        _ => unreached(),
    };
    match waited {
        Err(_) => ProvisionStep::Done(Err(OrchError::Remote("Instance was not started".to_owned()))),
        Ok(()) => {
            let act = Action::StopMachine { machine_id: instance.machine_id.clone() };
            ProvisionStep::Continue(
                Provision { req: p.req, phase: ProvisionPhase::Quiesce { instance } },
                act,
            )
        },
    }
}

/// Applies the quiescing stop's outcome: on success the instance —
/// parsed from the creation response, so reported as stopped — is
/// returned; on failure the run fails even though both resources exist.
pub fn provision_on_stop(p: Provision, stopped: Result<(), String>) -> (r: ProvisionStep)
    requires
        p.phase matches ProvisionPhase::Quiesce { .. },
    ensures
        match stopped {
            Ok(()) => r matches ProvisionStep::Done(Ok(inst)) && (p.phase
                matches ProvisionPhase::Quiesce { instance } && inst == instance),
            Err(e) => r matches ProvisionStep::Done(Err(OrchError::Remote(e2))) && e2@ == e@,
        },
{
    let instance: Instance = match p.phase {
        ProvisionPhase::Quiesce { instance } => instance,
        _ => unreached(),
    };
    match stopped {
        Err(e) => ProvisionStep::Done(Err(OrchError::Remote(e))),
        Ok(()) => ProvisionStep::Done(Ok(instance)),
    }
}

/// Where a teardown run stands.
#[derive(Debug)]
pub enum TeardownPhase {
    /// The directory listing for name resolution is outstanding.
    Resolve,
    /// The machine deletion is outstanding.
    MachineDelete { instance: Instance },
    /// The machine is gone; the volume deletion is outstanding.
    VolumeDelete { instance: Instance },
}

/// A teardown run.
#[derive(Debug)]
pub struct Teardown {
    pub name: String,
    pub phase: TeardownPhase,
}

/// What a teardown step decided.
#[derive(Debug)]
pub enum TeardownStep {
    Continue(Teardown, Action),
    Done(Result<String, OrchError>),
}

/// Begins a teardown run by resolving the name against the directory.
pub fn teardown_start(name: String) -> (r: (Teardown, Action))
    ensures
        r.0.name == name,
        r.0.phase is Resolve,
        r.1 is ListMachines,
{
    (Teardown { name, phase: TeardownPhase::Resolve }, Action::ListMachines)
}

/// Applies the directory listing to name resolution: an unknown name is
/// a terminal not-found failure with nothing deleted; otherwise the
/// machine is deleted first.
pub fn teardown_on_machines(t: Teardown, listing: Result<Vec<Machine>, String>) -> (r:
    TeardownStep)
    requires
        t.phase is Resolve,
    ensures
        match listing {
            Ok(ms) => {
                match spec_find_named(machines_view(ms@), t.name@) {
                    Some(m) => r matches TeardownStep::Continue(t2, act) && t2.name == t.name && (
                    t2.phase matches TeardownPhase::MachineDelete { instance } && instance@
                        == spec_instance_of(m)) && (act matches Action::DeleteMachine {
                        machine_id,
                    } && machine_id@ == m.id),
                    None => r matches TeardownStep::Done(Err(OrchError::NotFound)),
                }
            },
            Err(e) => r matches TeardownStep::Done(Err(OrchError::Remote(e2))) && e2@ == e@,
        },
{
    match listing {
        Err(e) => TeardownStep::Done(Err(OrchError::Remote(e))),
        Ok(ms) => {
            match find_by_name(&ms, t.name.as_str()) {
                None => TeardownStep::Done(Err(OrchError::NotFound)),
                Some(m) => {
                    let instance = machine_to_instance(&m);
                    let act = Action::DeleteMachine { machine_id: m.id };
                    TeardownStep::Continue(
                        Teardown {
                            name: t.name,
                            phase: TeardownPhase::MachineDelete { instance },
                        },
                        act,
                    )
                },
            }
        },
    }
}

/// Applies the machine deletion's outcome: only a deleted machine lets
/// the attached volume be deleted in turn.
pub fn teardown_on_machine_deleted(t: Teardown, deleted: Result<(), String>) -> (r: TeardownStep)
    requires
        t.phase matches TeardownPhase::MachineDelete { .. },
    ensures
        match deleted {
            Ok(()) => r matches TeardownStep::Continue(t2, act) && t2.name == t.name && (t.phase
                matches TeardownPhase::MachineDelete { instance } && (t2.phase
                matches TeardownPhase::VolumeDelete { instance: i2 } && i2 == instance) && (
            act matches Action::DeleteVolume { volume_id } && volume_id@
                == instance.volume_id@)),
            Err(e) => r matches TeardownStep::Done(Err(OrchError::Remote(e2))) && e2@ == e@,
        },
{
    let instance: Instance = match t.phase {
        TeardownPhase::MachineDelete { instance } => instance,
        _ => unreached(),
    };
    match deleted {
        Err(e) => TeardownStep::Done(Err(OrchError::Remote(e))),
        Ok(()) => {
            let act = Action::DeleteVolume { volume_id: instance.volume_id.clone() };
            TeardownStep::Continue(
                Teardown { name: t.name, phase: TeardownPhase::VolumeDelete { instance } },
                act,
            )
        },
    }
}

/// Applies the volume deletion's outcome: a failure here means the
/// machine is gone but the volume leaked, and is reported as a failure
/// of the whole teardown.
pub fn teardown_on_volume_deleted(t: Teardown, deleted: Result<(), String>) -> (r: TeardownStep)
    requires
        t.phase matches TeardownPhase::VolumeDelete { .. },
    ensures
        match deleted {
            Ok(()) => r matches TeardownStep::Done(Ok(msg)) && msg@ == "Deleted"@,
            Err(e) => r matches TeardownStep::Done(Err(OrchError::Remote(e2))) && e2@ == e@,
        },
{
    match deleted {
        Err(e) => TeardownStep::Done(Err(OrchError::Remote(e))),
        Ok(()) => TeardownStep::Done(Ok("Deleted".to_owned())),
    }
}

/// Where a start run stands.
#[derive(Debug)]
pub enum StartPhase {
    /// The directory listing for name resolution is outstanding.
    Resolve,
    /// The start call is outstanding.
    Starting { machine_id: String },
    /// The readiness wait is outstanding.
    Awaiting { machine_id: String },
}

/// A start run.
#[derive(Debug)]
pub struct StartOp {
    pub name: String,
    pub phase: StartPhase,
}

/// What a start step decided; success carries the machine identifier
/// for the caller to attach a session to.
#[derive(Debug)]
pub enum StartStep {
    Continue(StartOp, Action),
    Done(Result<String, OrchError>),
}

/// Begins a start run by resolving the name against the directory.
pub fn start_start(name: String) -> (r: (StartOp, Action))
    ensures
        r.0.name == name,
        r.0.phase is Resolve,
        r.1 is ListMachines,
{
    (StartOp { name, phase: StartPhase::Resolve }, Action::ListMachines)
}

/// Applies the directory listing to name resolution for a start run.
pub fn start_on_machines(t: StartOp, listing: Result<Vec<Machine>, String>) -> (r: StartStep)
    requires
        t.phase is Resolve,
    ensures
        match listing {
            Ok(ms) => {
                match spec_find_named(machines_view(ms@), t.name@) {
                    Some(m) => r matches StartStep::Continue(t2, act) && t2.name == t.name && (
                    t2.phase matches StartPhase::Starting { machine_id } && machine_id@ == m.id)
                        && (act matches Action::StartMachine { machine_id } && machine_id@
                        == m.id),
                    None => r matches StartStep::Done(Err(OrchError::NotFound)),
                }
            },
            Err(e) => r matches StartStep::Done(Err(OrchError::Remote(e2))) && e2@ == e@,
        },
{
    match listing {
        Err(e) => StartStep::Done(Err(OrchError::Remote(e))),
        Ok(ms) => {
            match find_by_name(&ms, t.name.as_str()) {
                None => StartStep::Done(Err(OrchError::NotFound)),
                Some(m) => {
                    let act = Action::StartMachine { machine_id: m.id.clone() };
                    StartStep::Continue(
                        StartOp { name: t.name, phase: StartPhase::Starting { machine_id: m.id } },
                        act,
                    )
                },
            }
        },
    }
}

/// Applies the start call's outcome: a started machine is polled for
/// readiness next.
pub fn start_on_started(t: StartOp, started: Result<(), String>) -> (r: StartStep)
    requires
        t.phase matches StartPhase::Starting { .. },
    ensures
        match started {
            Ok(()) => r matches StartStep::Continue(t2, act) && t2.name == t.name && (t.phase
                matches StartPhase::Starting { machine_id } && (t2.phase
                matches StartPhase::Awaiting { machine_id: m2 } && m2@ == machine_id@) && (
            act matches Action::WaitStarted { machine_id: m3 } && m3@ == machine_id@)),
            Err(e) => r matches StartStep::Done(Err(OrchError::Remote(e2))) && e2@ == e@,
        },
{
    let machine_id: String = match t.phase {
        StartPhase::Starting { machine_id } => machine_id,
        _ => unreached(),
    };
    match started {
        Err(e) => StartStep::Done(Err(OrchError::Remote(e))),
        Ok(()) => {
            let act = Action::WaitStarted { machine_id: machine_id.clone() };
            StartStep::Continue(
                StartOp { name: t.name, phase: StartPhase::Awaiting { machine_id } },
                act,
            )
        },
    }
}

/// Applies the readiness wait's outcome: success hands the machine
/// identifier back for session attachment.
pub fn start_on_wait(t: StartOp, waited: Result<(), String>) -> (r: StartStep)
    requires
        t.phase matches StartPhase::Awaiting { .. },
    ensures
        match waited {
            Ok(()) => r matches StartStep::Done(Ok(id)) && (t.phase
                matches StartPhase::Awaiting { machine_id } && id@ == machine_id@),
            Err(_) => r matches StartStep::Done(Err(OrchError::Remote(f))) && f@
                == "Instance was not started"@,
        },
{
    let machine_id: String = match t.phase {
        StartPhase::Awaiting { machine_id } => machine_id,
        _ => unreached(),
    };
    match waited {
        Err(_) => StartStep::Done(Err(OrchError::Remote("Instance was not started".to_owned()))),
        Ok(()) => StartStep::Done(Ok(machine_id)),
    }
}

/// Where a stop run stands.
#[derive(Debug)]
pub enum StopPhase {
    /// The directory listing for name resolution is outstanding.
    Resolve,
    /// The stop call is outstanding.
    Stopping { machine_id: String },
}

/// A stop run. Stop does not wait for confirmation — asymmetric with
/// start, as the remote stop is treated as fire-and-forget.
#[derive(Debug)]
pub struct StopOp {
    pub name: String,
    pub phase: StopPhase,
}

/// What a stop step decided; success carries the machine identifier.
#[derive(Debug)]
pub enum StopStep {
    Continue(StopOp, Action),
    Done(Result<String, OrchError>),
}

/// Begins a stop run by resolving the name against the directory.
pub fn stop_start(name: String) -> (r: (StopOp, Action))
    ensures
        r.0.name == name,
        r.0.phase is Resolve,
        r.1 is ListMachines,
{
    (StopOp { name, phase: StopPhase::Resolve }, Action::ListMachines)
}

/// Applies the directory listing to name resolution for a stop run.
pub fn stop_on_machines(t: StopOp, listing: Result<Vec<Machine>, String>) -> (r: StopStep)
    requires
        t.phase is Resolve,
    ensures
        match listing {
            Ok(ms) => {
                match spec_find_named(machines_view(ms@), t.name@) {
                    Some(m) => r matches StopStep::Continue(t2, act) && t2.name == t.name && (
                    t2.phase matches StopPhase::Stopping { machine_id } && machine_id@ == m.id)
                        && (act matches Action::StopMachine { machine_id } && machine_id@
                        == m.id),
                    None => r matches StopStep::Done(Err(OrchError::NotFound)),
                }
            },
            Err(e) => r matches StopStep::Done(Err(OrchError::Remote(e2))) && e2@ == e@,
        },
{
    match listing {
        Err(e) => StopStep::Done(Err(OrchError::Remote(e))),
        Ok(ms) => {
            match find_by_name(&ms, t.name.as_str()) {
                None => StopStep::Done(Err(OrchError::NotFound)),
                Some(m) => {
                    let act = Action::StopMachine { machine_id: m.id.clone() };
                    StopStep::Continue(
                        StopOp { name: t.name, phase: StopPhase::Stopping { machine_id: m.id } },
                        act,
                    )
                },
            }
        },
    }
}

/// Applies the stop call's outcome.
pub fn stop_on_stopped(t: StopOp, stopped: Result<(), String>) -> (r: StopStep)
    requires
        t.phase matches StopPhase::Stopping { .. },
    ensures
        match stopped {
            Ok(()) => r matches StopStep::Done(Ok(id)) && (t.phase matches StopPhase::Stopping {
                machine_id,
            } && id@ == machine_id@),
            Err(e) => r matches StopStep::Done(Err(OrchError::Remote(e2))) && e2@ == e@,
        },
{
    let machine_id: String = match t.phase {
        StopPhase::Stopping { machine_id } => machine_id,
        _ => unreached(),
    };
    match stopped {
        Err(e) => StopStep::Done(Err(OrchError::Remote(e))),
        Ok(()) => StopStep::Done(Ok(machine_id)),
    }
}

} // verus!
