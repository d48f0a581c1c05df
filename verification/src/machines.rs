//! The machine-level operations: each one drives an orchestration state
//! machine from [`crate::orchestrator`] against the control plane,
//! performing the actions it asks for and feeding the outcomes back.
//! Their contracts state the crate's guarantees: what each operation
//! creates, removes or leaves untouched, for every input and failure
//! injection.

use vstd::prelude::*;

use crate::orchestrator::{
    Action, CreateRequest, OrchError, ProvisionStep, StartStep, StopStep, TeardownStep,
    lemma_find_named, provision_on_machine, provision_on_machines, provision_on_rollback,
    provision_on_stop, provision_on_volume, provision_on_wait, provision_start, spec_find_named,
    spec_port_taken, start_on_machines, start_on_started, start_on_wait, start_start,
    stop_on_machines, stop_on_stopped, stop_start, teardown_on_machine_deleted,
    teardown_on_machines, teardown_on_volume_deleted, teardown_start,
};
use crate::plane::{
    CallCounts, ControlPlane, grows_within, keep_machine, keep_volume, lemma_machine_id_fresh,
    lemma_machine_ids_tagged_weaken, lemma_volume_id_fresh, machine_names_unique,
    set_state, set_state_all, spec_machine_exists, spec_name_taken, spec_volume_exists, tagged_id,
};
use crate::request::{parse_response_body, spec_instance_of};
use crate::types::{Instance, InstanceSpecs, InstanceState, MachineView, spec_state_of};

verus! {

broadcast use vstd::seq_lib::group_seq_properties;

/// The lifecycle words the model control plane writes, read through the
/// state mapper.
pub proof fn lemma_state_words()
    ensures
        spec_state_of("created"@) == InstanceState::Stopped,
        spec_state_of("stopped"@) == InstanceState::Stopped,
        spec_state_of("starting"@) == InstanceState::Running,
        spec_state_of("started"@) == InstanceState::Running,
{
    reveal_strlit("created");
    reveal_strlit("stopped");
    reveal_strlit("starting");
    reveal_strlit("started");
    assert("created"@.len() == 7);
    assert("started"@.len() == 7);
    assert("starting"@.len() == 8);
    assert("stopped"@.len() == 7);
    assert("created"@[0] == 'c' && "started"@[0] == 's');
    assert("stopped"@[2] == 'o' && "started"@[2] == 'a');
}

/// A filter that keeps every element keeps the sequence.
pub proof fn lemma_filter_keep_all<A>(s: Seq<A>, p: spec_fn(A) -> bool)
    requires
        forall|i: int| 0 <= i < s.len() ==> p(#[trigger] s[i]),
    ensures
        s.filter(p) == s,
    decreases s.len(),
{
    reveal(Seq::filter);
    if s.len() > 0 {
        lemma_filter_keep_all(s.drop_last(), p);
        assert(s.drop_last().push(s.last()) =~= s);
    }
}

/// Setting a state twice keeps only the last word.
pub proof fn lemma_set_state_all_twice(
    mv: Seq<MachineView>,
    id: Seq<char>,
    s1: Seq<char>,
    s2: Seq<char>,
)
    ensures
        set_state_all(set_state_all(mv, id, s1), id, s2) == set_state_all(mv, id, s2),
{
    assert(set_state_all(set_state_all(mv, id, s1), id, s2) =~= set_state_all(mv, id, s2));
}

/// In a listing with unique names, removing the machine a name resolves
/// to leaves no machine of that name behind.
pub proof fn lemma_deleted_name_gone(mv: Seq<MachineView>, name: Seq<char>)
    requires
        machine_names_unique(mv),
        spec_find_named(mv, name) is Some,
    ensures
        !spec_name_taken(mv.filter(keep_machine(spec_find_named(mv, name)->Some_0.id)), name),
{
    let m = spec_find_named(mv, name)->Some_0;
    lemma_find_named(mv, name);
    let i0 = choose|i: int| 0 <= i < mv.len() && mv[i] == m;
    let f = mv.filter(keep_machine(m.id));
    crate::plane::lemma_filter_sub(mv, keep_machine(m.id));
    assert forall|i: int| 0 <= i < f.len() implies (#[trigger] f[i]).name != name by {
        mv.lemma_filter_pred(keep_machine(m.id), i);
        let j = choose|j: int| 0 <= j < mv.len() && mv[j] == f[i];
        if f[i].name == name {
            assert(j != i0 ==> mv[j].name != mv[i0].name);
            assert(j == i0);
        }
    }
}

/// Lists all instances: queries the machine collection and materialises
/// every record. In the model the listing always succeeds, and changes
/// nothing but the call count.
pub fn get_instances(plane: &mut ControlPlane) -> (r: Result<Vec<Instance>, OrchError>)
    requires
        old(plane).calls.lists < u64::MAX,
    ensures
        final(plane).machines@ == old(plane).machines@,
        final(plane).volumes@ == old(plane).volumes@,
        final(plane).next_id == old(plane).next_id,
        final(plane).fail_next_volume_create == old(plane).fail_next_volume_create,
        final(plane).fail_next_machine_create == old(plane).fail_next_machine_create,
        final(plane).calls == (CallCounts {
            lists: (old(plane).calls.lists + 1) as u64,
            ..old(plane).calls
        }),
        r matches Ok(list) && list@.len() == old(plane).mv().len(),
        r matches Ok(list) ==> forall|i: int|
            0 <= i < old(plane).mv().len() ==> (#[trigger] list@[i])@ == spec_instance_of(
                old(plane).mv()[i],
            ),
{
    let ms = plane.list_machines();
    match parse_response_body(ms) {
        Ok(list) => Ok(list),
        Err(e) => Err(OrchError::Remote(e)),
    }
}

/// Resolves an instance by name: fetches the full listing and scans it,
/// the directory's only name resolution mechanism.
pub fn get_instance_from_name(plane: &mut ControlPlane, name: &str) -> (r: Result<
    Instance,
    OrchError,
>)
    requires
        old(plane).calls.lists < u64::MAX,
    ensures
        final(plane).machines@ == old(plane).machines@,
        final(plane).volumes@ == old(plane).volumes@,
        final(plane).next_id == old(plane).next_id,
        final(plane).fail_next_volume_create == old(plane).fail_next_volume_create,
        final(plane).fail_next_machine_create == old(plane).fail_next_machine_create,
        final(plane).calls == (CallCounts {
            lists: (old(plane).calls.lists + 1) as u64,
            ..old(plane).calls
        }),
        match spec_find_named(old(plane).mv(), name@) {
            Some(m) => r matches Ok(inst) && inst@ == spec_instance_of(m),
            None => r matches Err(OrchError::NotFound),
        },
{
    let ms = plane.list_machines();
    match crate::orchestrator::find_by_name(&ms, name) {
        Some(m) => Ok(crate::request::machine_to_instance(&m)),
        None => Err(OrchError::NotFound),
    }
}

/// Creates a volume and returns its identifier.
pub fn create_volume(plane: &mut ControlPlane, name: &str, volume_gb: u32, region: &str) -> (r:
    Result<String, OrchError>)
    requires
        old(plane).wf(),
        old(plane).calls.volume_creates < u64::MAX,
        old(plane).next_id < u64::MAX,
    ensures
        final(plane).wf(),
        final(plane).machines@ == old(plane).machines@,
        final(plane).calls == (CallCounts {
            volume_creates: (old(plane).calls.volume_creates + 1) as u64,
            ..old(plane).calls
        }),
        match r {
            Ok(id) => {
                &&& !old(plane).fail_next_volume_create
                &&& id@ == tagged_id('v', old(plane).next_id as nat)
                &&& final(plane).vv() == old(plane).vv().push(
                    ControlPlane::spec_new_volume(
                        old(plane).next_id as nat,
                        name@,
                        volume_gb,
                        region@,
                    ),
                )
            },
            Err(e) => {
                &&& old(plane).fail_next_volume_create
                &&& e matches OrchError::Remote(b) && b@ == "volume creation failed"@
                &&& final(plane).volumes@ == old(plane).volumes@
            },
        },
{
    match plane.create_volume(name, volume_gb, region) {
        Ok(v) => Ok(v.id),
        Err(e) => Err(OrchError::Remote(e)),
    }
}

/// Deletes a volume by identifier.
pub fn delete_volume(plane: &mut ControlPlane, volume_id: &str) -> (r: Result<String, OrchError>)
    requires
        old(plane).wf(),
        old(plane).calls.volume_deletes < u64::MAX,
    ensures
        final(plane).wf(),
        final(plane).machines@ == old(plane).machines@,
        final(plane).calls == (CallCounts {
            volume_deletes: (old(plane).calls.volume_deletes + 1) as u64,
            ..old(plane).calls
        }),
        match r {
            Ok(msg) => {
                &&& spec_volume_exists(old(plane).vv(), volume_id@)
                &&& msg@ == "Volume deleted"@
                &&& final(plane).vv() == old(plane).vv().filter(keep_volume(volume_id@))
            },
            Err(e) => {
                &&& !spec_volume_exists(old(plane).vv(), volume_id@)
                &&& e matches OrchError::Remote(b) && b@ == "volume not found"@
                &&& final(plane).volumes@ == old(plane).volumes@
            },
        },
{
    match plane.delete_volume(volume_id) {
        Ok(()) => Ok("Volume deleted".to_owned()),
        Err(e) => Err(OrchError::Remote(e)),
    }
}

/// Blocks until a machine reports started, delegating the blocking to
/// the remote wait call; failure is reported as the instance not having
/// started.
pub fn poll(plane: &mut ControlPlane, instance_id: &str) -> (r: Result<String, OrchError>)
    requires
        old(plane).wf(),
        old(plane).calls.waits < u64::MAX,
    ensures
        final(plane).wf(),
        final(plane).volumes@ == old(plane).volumes@,
        final(plane).next_id == old(plane).next_id,
        final(plane).calls == (CallCounts {
            waits: (old(plane).calls.waits + 1) as u64,
            ..old(plane).calls
        }),
        match r {
            Ok(msg) => {
                &&& spec_machine_exists(old(plane).mv(), instance_id@)
                &&& msg@ == "Instance started"@
                &&& final(plane).mv() == set_state_all(old(plane).mv(), instance_id@, "started"@)
            },
            Err(e) => {
                &&& !spec_machine_exists(old(plane).mv(), instance_id@)
                &&& e matches OrchError::Remote(b) && b@ == "Instance was not started"@
                &&& final(plane).machines@ == old(plane).machines@
            },
        },
{
    match plane.wait_started(instance_id) {
        Ok(()) => Ok("Instance started".to_owned()),
        Err(_) => Err(OrchError::Remote("Instance was not started".to_owned())),
    }
}

/// Provisions an instance: checks port uniqueness against the directory
/// when a port is requested, creates the volume, creates the machine
/// mounting it, waits for the machine to report started, and quiesces it
/// with an immediate stop. If machine creation fails after the volume
/// was created, the volume is deleted again — the one compensating
/// action — and the original error is propagated: a failed two-resource
/// provision leaks no volume.
pub fn create_machine(
    plane: &mut ControlPlane,
    name: &str,
    image: &str,
    cpu_count: u32,
    memory_mb: u32,
    volume_gb: u32,
    region: &str,
    port: Option<u16>,
) -> (r: Result<Instance, OrchError>)
    requires
        old(plane).wf(),
        old(plane).headroom(8),
    ensures
        final(plane).wf(),
        grows_within(*old(plane), *final(plane), 4),
        // a port already in use fails the validation before any remote
        // mutation: nothing is created, nothing is deleted
        (port matches Some(p) && spec_port_taken(old(plane).mv(), p)) ==> {
            &&& r matches Err(OrchError::PortInUse)
            &&& final(plane).mv() == old(plane).mv()
            &&& final(plane).vv() == old(plane).vv()
            &&& final(plane).calls.volume_creates == old(plane).calls.volume_creates
            &&& final(plane).calls.machine_creates == old(plane).calls.machine_creates
            &&& final(plane).calls.machine_deletes == old(plane).calls.machine_deletes
            &&& final(plane).calls.volume_deletes == old(plane).calls.volume_deletes
        },
        // a failed volume creation aborts with nothing to compensate
        (!(port matches Some(p) && spec_port_taken(old(plane).mv(), p)) && old(
            plane,
        ).fail_next_volume_create) ==> {
            &&& r matches Err(OrchError::Remote(b)) && b@ == "volume creation failed"@
            &&& final(plane).mv() == old(plane).mv()
            &&& final(plane).vv() == old(plane).vv()
            &&& final(plane).calls.machine_creates == old(plane).calls.machine_creates
        },
        // a failed machine creation deletes the just-created volume
        // again and propagates the original error: no volume leaks
        (!(port matches Some(p) && spec_port_taken(old(plane).mv(), p)) && !old(
            plane,
        ).fail_next_volume_create && (old(plane).fail_next_machine_create || spec_name_taken(
            old(plane).mv(),
            name@,
        ))) ==> {
            &&& r matches Err(OrchError::Remote(b)) && (if old(plane).fail_next_machine_create {
                b@ == "machine creation failed"@
            } else {
                b@ == "machine name already taken"@
            })
            &&& final(plane).mv() == old(plane).mv()
            &&& final(plane).vv() == old(plane).vv()
        },
        // otherwise the provision succeeds and returns the instance as
        // requested, quiesced: volume and machine both exist afterwards,
        // the machine stopped
        (!(port matches Some(p) && spec_port_taken(old(plane).mv(), p)) && !old(
            plane,
        ).fail_next_volume_create && !old(plane).fail_next_machine_create && !spec_name_taken(
            old(plane).mv(),
            name@,
        )) ==> {
            &&& r matches Ok(inst)
            &&& r matches Ok(inst) ==> {
                &&& inst@.name == name@
                &&& inst@.image == image@
                &&& inst@.specs == (InstanceSpecs { cpu_count, memory_mb, volume_gb })
                &&& inst@.region == region@
                &&& inst@.port == port
                &&& inst@.state == InstanceState::Stopped
                &&& inst@.machine_id == tagged_id('m', (old(plane).next_id + 1) as nat)
                &&& inst@.volume_id == tagged_id('v', old(plane).next_id as nat)
            }
            &&& final(plane).vv() == old(plane).vv().push(
                ControlPlane::spec_new_volume(
                    old(plane).next_id as nat,
                    name@,
                    volume_gb,
                    region@,
                ),
            )
            &&& final(plane).mv() == old(plane).mv().push(
                set_state(
                    ControlPlane::spec_new_machine(
                        (old(plane).next_id + 1) as nat,
                        name@,
                        image@,
                        InstanceSpecs { cpu_count, memory_mb, volume_gb },
                        region@,
                        Some(tagged_id('v', old(plane).next_id as nat)),
                        port,
                    ),
                    "stopped"@,
                ),
            )
        },
{
    let ghost p0 = *plane;
    let req = CreateRequest {
        name: name.to_owned(),
        image: image.to_owned(),
        cpu_count,
        memory_mb,
        volume_gb,
        region: region.to_owned(),
        port,
    };
    let (sm, act) = provision_start(req);
    let (sm, act) = match act {
        Action::ListMachines => {
            let ms = plane.list_machines();
            match provision_on_machines(sm, Ok(ms)) {
                ProvisionStep::Continue(sm2, act2) => (sm2, act2),
                ProvisionStep::Done(res) => {
                    return res;
                },
            }
        },
        _ => (sm, act),
    };
    let created: Result<crate::types::Volume, String> = match act {
        Action::CreateVolume { name: vn, volume_gb: vg, region: vr } => plane.create_volume(
            vn.as_str(),
            vg,
            vr.as_str(),
        ),
        _ => unreached(),
    };
    let ghost volume_view = ControlPlane::spec_new_volume(
        p0.next_id as nat,
        name@,
        volume_gb,
        region@,
    );
    let (sm, act) = match provision_on_volume(sm, created) {
        ProvisionStep::Continue(sm2, act2) => (sm2, act2),
        ProvisionStep::Done(res) => {
            return res;
        },
    };
    let mcreated: Result<crate::types::Machine, String> = match act {
        Action::CreateMachine { name: cn, image: ci, specs, region: cr, volume_id, port: cp } => {
            plane.create_machine(cn.as_str(), ci.as_str(), specs, cr.as_str(), &volume_id, cp)
        },
        _ => unreached(),
    };
    let ghost machine_view = ControlPlane::spec_new_machine(
        (p0.next_id + 1) as nat,
        name@,
        image@,
        InstanceSpecs { cpu_count, memory_mb, volume_gb },
        region@,
        Some(tagged_id('v', p0.next_id as nat)),
        port,
    );
    match provision_on_machine(sm, mcreated) {
        ProvisionStep::Continue(sm, act) => {
            match act {
                Action::WaitStarted { machine_id } => {
                    proof {
                        assert(plane.mv() == p0.mv().push(machine_view));
                        assert(plane.mv()[p0.mv().len() as int].id == machine_id@);
                    }
                    let waited = plane.wait_started(machine_id.as_str());
                    match provision_on_wait(sm, waited) {
                        ProvisionStep::Continue(sm, act) => {
                            match act {
                                Action::StopMachine { machine_id: mid2 } => {
                                    proof {
                                        lemma_machine_ids_tagged_weaken(
                                            p0.mv(),
                                            p0.next_id as nat,
                                            (p0.next_id + 1) as nat,
                                        );
                                        lemma_machine_id_fresh(
                                            p0.mv(),
                                            (p0.next_id + 1) as nat,
                                        );
                                        assert(plane.mv() =~= p0.mv().push(
                                            set_state(machine_view, "started"@),
                                        ));
                                        assert(plane.mv()[p0.mv().len() as int].id == mid2@);
                                    }
                                    let stopped = plane.stop(mid2.as_str());
                                    match provision_on_stop(sm, stopped) {
                                        ProvisionStep::Done(res) => {
                                            proof {
                                                assert(plane.mv() =~= p0.mv().push(
                                                    set_state(machine_view, "stopped"@),
                                                ));
                                                lemma_state_words();
                                                assert(res matches Ok(inst) && inst@
                                                    == spec_instance_of(machine_view));
                                            }
                                            return res;
                                        },
                                        _ => unreached(),
                                    }
                                },
                                _ => unreached(),
                            }
                        },
                        _ => unreached(),
                    }
                },
                Action::DeleteVolume { volume_id } => {
                    proof {
                        assert(plane.vv() == p0.vv().push(volume_view));
                        assert(volume_id@ == volume_view.id);
                        assert(plane.vv()[p0.vv().len() as int].id == volume_id@);
                    }
                    let deleted = plane.delete_volume(volume_id.as_str());
                    proof {
                        crate::plane::lemma_filter_push(
                            p0.vv(),
                            keep_volume(volume_view.id),
                            volume_view,
                        );
                        lemma_volume_id_fresh(p0.vv(), p0.next_id as nat);
                        lemma_filter_keep_all(p0.vv(), keep_volume(volume_view.id));
                        assert(plane.vv() == p0.vv());
                    }
                    match provision_on_rollback(sm, deleted) {
                        ProvisionStep::Done(res) => {
                            return res;
                        },
                        _ => unreached(),
                    }
                },
                _ => unreached(),
            }
        },
        ProvisionStep::Done(_) => unreached(),
    }
}

/// Tears an instance down: resolves it by name, deletes the machine,
/// and only after a successful machine deletion deletes the attached
/// volume. A name that resolves to nothing is a not-found failure with
/// no deletion issued; a failed volume deletion is reported as a failure
/// even though the machine is already gone.
pub fn delete_machine(plane: &mut ControlPlane, name: &str) -> (r: Result<String, OrchError>)
    requires
        old(plane).wf(),
        old(plane).headroom(8),
    ensures
        final(plane).wf(),
        grows_within(*old(plane), *final(plane), 4),
        match spec_find_named(old(plane).mv(), name@) {
            None => {
                &&& r matches Err(OrchError::NotFound)
                &&& final(plane).mv() == old(plane).mv()
                &&& final(plane).vv() == old(plane).vv()
                &&& final(plane).calls.machine_deletes == old(plane).calls.machine_deletes
                &&& final(plane).calls.volume_deletes == old(plane).calls.volume_deletes
            },
            Some(m) => {
                &&& final(plane).mv() == old(plane).mv().filter(keep_machine(m.id))
                &&& !spec_name_taken(final(plane).mv(), name@)
                &&& if spec_volume_exists(old(plane).vv(), spec_instance_of(m).volume_id) {
                    &&& r matches Ok(msg) && msg@ == "Deleted"@
                    &&& final(plane).vv() == old(plane).vv().filter(
                        keep_volume(spec_instance_of(m).volume_id),
                    )
                } else {
                    &&& r matches Err(OrchError::Remote(b)) && b@ == "volume not found"@
                    &&& final(plane).vv() == old(plane).vv()
                }
            },
        },
{
    let ghost p0 = *plane;
    let (t, act) = teardown_start(name.to_owned());
    let ms = match act {
        Action::ListMachines => plane.list_machines(),
        _ => unreached(),
    };
    let (t, act) = match teardown_on_machines(t, Ok(ms)) {
        TeardownStep::Continue(t2, act2) => (t2, act2),
        TeardownStep::Done(res) => {
            return res;
        },
    };
    let ghost m = spec_find_named(p0.mv(), name@)->Some_0;
    let deleted = match act {
        Action::DeleteMachine { machine_id } => {
            proof {
                lemma_find_named(p0.mv(), name@);
                let i = choose|i: int| 0 <= i < p0.mv().len() && p0.mv()[i] == m;
                assert(p0.mv()[i].id == machine_id@);
                lemma_deleted_name_gone(p0.mv(), name@);
            }
            plane.delete_machine(machine_id.as_str())
        },
        _ => unreached(),
    };
    let (t, act) = match teardown_on_machine_deleted(t, deleted) {
        TeardownStep::Continue(t2, act2) => (t2, act2),
        TeardownStep::Done(_) => unreached(),
    };
    let vdeleted = match act {
        Action::DeleteVolume { volume_id } => plane.delete_volume(volume_id.as_str()),
        _ => unreached(),
    };
    match teardown_on_volume_deleted(t, vdeleted) {
        TeardownStep::Done(res) => res,
        _ => unreached(),
    }
}

/// Starts an instance: resolves it by name, issues the start call, and
/// waits until the machine reports started; the machine identifier is
/// returned for the caller to attach an interactive session to.
pub fn start_machine(plane: &mut ControlPlane, name: &str) -> (r: Result<String, OrchError>)
    requires
        old(plane).wf(),
        old(plane).headroom(8),
    ensures
        final(plane).wf(),
        grows_within(*old(plane), *final(plane), 4),
        final(plane).volumes@ == old(plane).volumes@,
        match spec_find_named(old(plane).mv(), name@) {
            None => {
                &&& r matches Err(OrchError::NotFound)
                &&& final(plane).mv() == old(plane).mv()
                &&& final(plane).calls == (CallCounts {
                    lists: (old(plane).calls.lists + 1) as u64,
                    ..old(plane).calls
                })
            },
            Some(m) => {
                &&& r matches Ok(id) && id@ == m.id
                &&& final(plane).mv() == set_state_all(old(plane).mv(), m.id, "started"@)
                &&& final(plane).calls == (CallCounts {
                    lists: (old(plane).calls.lists + 1) as u64,
                    starts: (old(plane).calls.starts + 1) as u64,
                    waits: (old(plane).calls.waits + 1) as u64,
                    ..old(plane).calls
                })
            },
        },
{
    let ghost p0 = *plane;
    let (t, act) = start_start(name.to_owned());
    let ms = match act {
        Action::ListMachines => plane.list_machines(),
        _ => unreached(),
    };
    let (t, act) = match start_on_machines(t, Ok(ms)) {
        StartStep::Continue(t2, act2) => (t2, act2),
        StartStep::Done(res) => {
            return res;
        },
    };
    let ghost m = spec_find_named(p0.mv(), name@)->Some_0;
    let started = match act {
        Action::StartMachine { machine_id } => {
            proof {
                lemma_find_named(p0.mv(), name@);
                let i = choose|i: int| 0 <= i < p0.mv().len() && p0.mv()[i] == m;
                assert(p0.mv()[i].id == machine_id@);
            }
            plane.start(machine_id.as_str())
        },
        _ => unreached(),
    };
    let (t, act) = match start_on_started(t, started) {
        StartStep::Continue(t2, act2) => (t2, act2),
        StartStep::Done(_) => unreached(),
    };
    let waited = match act {
        Action::WaitStarted { machine_id } => {
            proof {
                lemma_find_named(p0.mv(), name@);
                let i = choose|i: int| 0 <= i < p0.mv().len() && p0.mv()[i] == m;
                assert(plane.mv()[i].id == m.id);
            }
            plane.wait_started(machine_id.as_str())
        },
        _ => unreached(),
    };
    proof {
        lemma_set_state_all_twice(p0.mv(), m.id, "starting"@, "started"@);
    }
    match start_on_wait(t, waited) {
        StartStep::Done(res) => res,
        _ => unreached(),
    }
}

/// Stops an instance: resolves it by name and issues the stop call. No
/// wait for confirmation follows — asymmetric with start.
pub fn stop_machine(plane: &mut ControlPlane, name: &str) -> (r: Result<String, OrchError>)
    requires
        old(plane).wf(),
        old(plane).headroom(8),
    ensures
        final(plane).wf(),
        grows_within(*old(plane), *final(plane), 4),
        final(plane).volumes@ == old(plane).volumes@,
        match spec_find_named(old(plane).mv(), name@) {
            None => {
                &&& r matches Err(OrchError::NotFound)
                &&& final(plane).mv() == old(plane).mv()
                &&& final(plane).calls == (CallCounts {
                    lists: (old(plane).calls.lists + 1) as u64,
                    ..old(plane).calls
                })
            },
            Some(m) => {
                &&& r matches Ok(id) && id@ == m.id
                &&& final(plane).mv() == set_state_all(old(plane).mv(), m.id, "stopped"@)
                &&& final(plane).calls == (CallCounts {
                    lists: (old(plane).calls.lists + 1) as u64,
                    stops: (old(plane).calls.stops + 1) as u64,
                    ..old(plane).calls
                })
            },
        },
{
    let ghost p0 = *plane;
    let (t, act) = stop_start(name.to_owned());
    let ms = match act {
        Action::ListMachines => plane.list_machines(),
        _ => unreached(),
    };
    let (t, act) = match stop_on_machines(t, Ok(ms)) {
        StopStep::Continue(t2, act2) => (t2, act2),
        StopStep::Done(res) => {
            return res;
        },
    };
    let ghost m = spec_find_named(p0.mv(), name@)->Some_0;
    let stopped = match act {
        Action::StopMachine { machine_id } => {
            proof {
                lemma_find_named(p0.mv(), name@);
                let i = choose|i: int| 0 <= i < p0.mv().len() && p0.mv()[i] == m;
                assert(p0.mv()[i].id == machine_id@);
            }
            plane.stop(machine_id.as_str())
        },
        _ => unreached(),
    };
    match stop_on_stopped(t, stopped) {
        StopStep::Done(res) => res,
        _ => unreached(),
    }
}

} // verus!
