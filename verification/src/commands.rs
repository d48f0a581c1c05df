//! The command layer: thin wrappers around the machine operations that
//! turn their outcomes into user-facing messages, and the ephemeral-run
//! command that chains a start and a stop.

use vstd::prelude::*;

use crate::machines::{create_machine, delete_machine, lemma_set_state_all_twice, start_machine, stop_machine};
use crate::orchestrator::{OrchError, spec_find_named, spec_port_taken};
use crate::plane::{
    ControlPlane, keep_machine, keep_volume, set_state, set_state_all,
    spec_name_taken, spec_volume_exists,
};
use crate::request::spec_instance_of;
use crate::types::MachineView;

verus! {

broadcast use vstd::seq_lib::group_seq_properties;

/// Name resolution sees through a state transition: the listing after a
/// state change resolves a name to the same machine, with only its
/// lifecycle state changed.
pub proof fn lemma_find_named_after_set_state_all(
    mv: Seq<MachineView>,
    id: Seq<char>,
    s: Seq<char>,
    name: Seq<char>,
)
    ensures
        match spec_find_named(mv, name) {
            None => spec_find_named(set_state_all(mv, id, s), name) is None,
            Some(m) => spec_find_named(set_state_all(mv, id, s), name) == Some(
                if m.id == id {
                    set_state(m, s)
                } else {
                    m
                },
            ),
        },
    decreases mv.len(),
{
    let mapped = set_state_all(mv, id, s);
    if mv.len() == 0 {
        assert(mapped.len() == 0);
    } else {
        assert(mapped[0] == if mv[0].id == id {
            set_state(mv[0], s)
        } else {
            mv[0]
        });
        assert(mapped[0].name == mv[0].name);
        if mv[0].name == name {
            assert(spec_find_named(mapped, name) == Some(mapped[0]));
        } else {
            lemma_find_named_after_set_state_all(mv.skip(1), id, s, name);
            assert(mapped.skip(1) =~= set_state_all(mv.skip(1), id, s));
        }
    }
}

/// Creates a new instance and reports it by name. The provisioning
/// guarantees of [`create_machine`] hold unchanged: a taken port fails
/// the validation before any remote mutation, a failed machine creation
/// deletes the just-created volume again, and on success both resources
/// exist with the machine quiesced.
pub fn create_new_instance(
    plane: &mut ControlPlane,
    name: &str,
    image: &str,
    cpus: u32,
    memory: u32,
    volume: u32,
    region: &str,
    port: Option<u16>,
) -> (r: Result<String, OrchError>)
    requires
        old(plane).wf(),
        old(plane).headroom(8),
    ensures
        final(plane).wf(),
        r matches Ok(msg) ==> msg@ == "Created instance "@ + name@,
        (port matches Some(p) && spec_port_taken(old(plane).mv(), p)) ==> {
            &&& r matches Err(OrchError::PortInUse)
            &&& final(plane).mv() == old(plane).mv()
            &&& final(plane).vv() == old(plane).vv()
            &&& final(plane).calls.volume_creates == old(plane).calls.volume_creates
            &&& final(plane).calls.machine_creates == old(plane).calls.machine_creates
        },
        (!(port matches Some(p) && spec_port_taken(old(plane).mv(), p)) && old(
            plane,
        ).fail_next_volume_create) ==> {
            &&& r matches Err(OrchError::Remote(b)) && b@ == "volume creation failed"@
            &&& final(plane).mv() == old(plane).mv()
            &&& final(plane).vv() == old(plane).vv()
            &&& final(plane).calls.machine_creates == old(plane).calls.machine_creates
        },
        (!(port matches Some(p) && spec_port_taken(old(plane).mv(), p)) && !old(
            plane,
        ).fail_next_volume_create && (old(plane).fail_next_machine_create || spec_name_taken(
            old(plane).mv(),
            name@,
        ))) ==> {
            &&& r matches Err(OrchError::Remote(b)) && (if old(plane).fail_next_machine_create {
                b@ == "machine creation failed"@
            } else {
                b@ == "machine name already taken"@
            })
            &&& final(plane).mv() == old(plane).mv()
            &&& final(plane).vv() == old(plane).vv()
        },
        (!(port matches Some(p) && spec_port_taken(old(plane).mv(), p)) && !old(
            plane,
        ).fail_next_volume_create && !old(plane).fail_next_machine_create && !spec_name_taken(
            old(plane).mv(),
            name@,
        )) ==> {
            &&& r is Ok
            &&& final(plane).vv() == old(plane).vv().push(
                ControlPlane::spec_new_volume(
                    old(plane).next_id as nat,
                    name@,
                    volume,
                    region@,
                ),
            )
            &&& final(plane).mv() == old(plane).mv().push(
                set_state(
                    ControlPlane::spec_new_machine(
                        (old(plane).next_id + 1) as nat,
                        name@,
                        image@,
                        crate::types::InstanceSpecs {
                            cpu_count: cpus,
                            memory_mb: memory,
                            volume_gb: volume,
                        },
                        region@,
                        Some(crate::plane::tagged_id('v', old(plane).next_id as nat)),
                        port,
                    ),
                    "stopped"@,
                ),
            )
        },
{
    match create_machine(plane, name, image, cpus, memory, volume, region, port) {
        Ok(_) => Ok("Created instance ".to_owned().concat(name)),
        Err(e) => Err(e),
    }
}

/// Destroys an instance by name and reports it: machine first, then its
/// volume, exactly as [`delete_machine`] guarantees.
pub fn destroy_instance(plane: &mut ControlPlane, name: &str) -> (r: Result<String, OrchError>)
    requires
        old(plane).wf(),
        old(plane).headroom(8),
    ensures
        final(plane).wf(),
        match spec_find_named(old(plane).mv(), name@) {
            None => {
                &&& r matches Err(OrchError::NotFound)
                &&& final(plane).mv() == old(plane).mv()
                &&& final(plane).vv() == old(plane).vv()
                &&& final(plane).calls.machine_deletes == old(plane).calls.machine_deletes
                &&& final(plane).calls.volume_deletes == old(plane).calls.volume_deletes
            },
            Some(m) => {
                &&& final(plane).mv() == old(plane).mv().filter(keep_machine(m.id))
                &&& !spec_name_taken(final(plane).mv(), name@)
                &&& if spec_volume_exists(old(plane).vv(), spec_instance_of(m).volume_id) {
                    &&& r matches Ok(msg) && msg@ == "Destroyed instance "@ + name@
                    &&& final(plane).vv() == old(plane).vv().filter(
                        keep_volume(spec_instance_of(m).volume_id),
                    )
                } else {
                    &&& r matches Err(OrchError::Remote(b)) && b@ == "volume not found"@
                    &&& final(plane).vv() == old(plane).vv()
                }
            },
        },
{
    match delete_machine(plane, name) {
        Ok(_) => Ok("Destroyed instance ".to_owned().concat(name)),
        Err(e) => Err(e),
    }
}

/// Stops an instance by name and reports it.
pub fn stop_instance(plane: &mut ControlPlane, name: &str) -> (r: Result<String, OrchError>)
    requires
        old(plane).wf(),
        old(plane).headroom(8),
    ensures
        final(plane).wf(),
        final(plane).volumes@ == old(plane).volumes@,
        match spec_find_named(old(plane).mv(), name@) {
            None => {
                &&& r matches Err(OrchError::NotFound)
                &&& final(plane).mv() == old(plane).mv()
            },
            Some(m) => {
                &&& r matches Ok(msg) && msg@ == "Stopped instance "@ + name@
                &&& final(plane).mv() == set_state_all(old(plane).mv(), m.id, "stopped"@)
            },
        },
{
    match stop_machine(plane, name) {
        Ok(_) => Ok("Stopped instance ".to_owned().concat(name)),
        Err(e) => Err(e),
    }
}

/// Runs an instance ephemerally: starts it, and — once the interactive
/// session the caller drives in between is over — stops it again. The
/// elapsed wall time is the caller's to measure.
pub fn serverless(plane: &mut ControlPlane, name: &str) -> (r: Result<String, OrchError>)
    requires
        old(plane).wf(),
        old(plane).headroom(16),
    ensures
        final(plane).wf(),
        final(plane).volumes@ == old(plane).volumes@,
        match spec_find_named(old(plane).mv(), name@) {
            None => {
                &&& r matches Err(OrchError::NotFound)
                &&& final(plane).mv() == old(plane).mv()
            },
            Some(m) => {
                &&& r matches Ok(msg) && msg@.len() == 0
                &&& final(plane).mv() == set_state_all(old(plane).mv(), m.id, "stopped"@)
            },
        },
{
    let ghost p0 = *plane;
    match start_machine(plane, name) {
        Err(e) => Err(e),
        Ok(_) => {
            proof {
                let m = spec_find_named(p0.mv(), name@)->Some_0;
                lemma_find_named_after_set_state_all(p0.mv(), m.id, "started"@, name@);
                lemma_set_state_all_twice(p0.mv(), m.id, "started"@, "stopped"@);
            }
            match stop_machine(plane, name) {
                Err(e) => Err(e),
                Ok(_) => Ok(String::new()),
            }
        },
    }
}

} // verus!
