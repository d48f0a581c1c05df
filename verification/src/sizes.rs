//! The size-class interface: an earlier generation of the machine
//! operations in which a guest shape is named by a size class rather
//! than by explicit CPU and memory numbers, and machines carry no
//! volume. Kept alongside the full interface in [`crate::machines`].

use vstd::prelude::*;

use crate::orchestrator::{lemma_find_named, spec_find_named};
use crate::plane::{
    CallCounts, ControlPlane, grows_within, keep_machine, set_guest_all, spec_machine_exists,
    spec_name_taken, tagged_id,
};
use crate::types::InstanceSpecs;

verus! {

/// Numeric shape associated with a size class: size ordinal and disk
/// allocation.
#[derive(Clone, Copy, Debug, PartialEq, Eq, Structural)]
pub struct InstanceData {
    pub size: i32,
    pub disk: i32,
}

/// The size-class view of an instance: one machine, no volume.
#[derive(Debug)]
pub struct Instance {
    pub machine_id: String,
    pub name: String,
    pub size: String,
    pub region: String,
}

/// Mathematical view of a size-class [`Instance`].
#[verifier::ext_equal]
pub struct InstanceView {
    pub machine_id: Seq<char>,
    pub name: Seq<char>,
    pub size: Seq<char>,
    pub region: Seq<char>,
}

impl View for Instance {
    type V = InstanceView;

    open spec fn view(&self) -> InstanceView {
        InstanceView {
            machine_id: self.machine_id@,
            name: self.name@,
            size: self.size@,
            region: self.region@,
        }
    }
}

/// The size class a CPU count belongs to, if any.
pub open spec fn spec_size_of_cpus(cpus: u32) -> Option<Seq<char>> {
    if cpus == 1 {
        Some("micro"@)
    } else if cpus == 2 {
        Some("small"@)
    } else if cpus == 4 {
        Some("med"@)
    } else if cpus == 8 {
        Some("large"@)
    } else if cpus == 16 {
        Some("xl"@)
    } else {
        None
    }
}

/// The guest shape a size class stands for, if the class is known.
/// Size classes carry no volume.
pub open spec fn spec_specs_of_size(size: Seq<char>) -> Option<InstanceSpecs> {
    if size == "micro"@ {
        Some(InstanceSpecs { cpu_count: 1, memory_mb: 512, volume_gb: 0 })
    } else if size == "small"@ {
        Some(InstanceSpecs { cpu_count: 2, memory_mb: 512, volume_gb: 0 })
    } else if size == "med"@ {
        Some(InstanceSpecs { cpu_count: 4, memory_mb: 1024, volume_gb: 0 })
    } else if size == "large"@ {
        Some(InstanceSpecs { cpu_count: 8, memory_mb: 2048, volume_gb: 0 })
    } else if size == "xl"@ {
        Some(InstanceSpecs { cpu_count: 16, memory_mb: 4096, volume_gb: 0 })
    } else {
        None
    }
}

/// Names the size class of a CPU count.
pub fn get_size_from_cpu_count(cpus: u32) -> (r: Result<String, String>)
    ensures
        match spec_size_of_cpus(cpus) {
            Some(s) => r matches Ok(size) && size@ == s,
            None => r matches Err(e) && e@ == "unknown"@,
        },
{
    match cpus {
        1 => Ok("micro".to_owned()),
        2 => Ok("small".to_owned()),
        4 => Ok("med".to_owned()),
        8 => Ok("large".to_owned()),
        16 => Ok("xl".to_owned()),
        _ => Err("unknown".to_owned()),
    }
}

/// The guest shape of a size class.
pub fn get_specs_from_size(size: &str) -> (r: Result<InstanceSpecs, String>)
    ensures
        match spec_specs_of_size(size@) {
            Some(sp) => r matches Ok(specs) && specs == sp,
            None => r matches Err(e) && e@ == "unknown size"@,
        },
{
    if crate::numeric::str_eq(size, "micro") {
        Ok(InstanceSpecs { cpu_count: 1, memory_mb: 512, volume_gb: 0 })
    } else if crate::numeric::str_eq(size, "small") {
        Ok(InstanceSpecs { cpu_count: 2, memory_mb: 512, volume_gb: 0 })
    } else if crate::numeric::str_eq(size, "med") {
        Ok(InstanceSpecs { cpu_count: 4, memory_mb: 1024, volume_gb: 0 })
    } else if crate::numeric::str_eq(size, "large") {
        Ok(InstanceSpecs { cpu_count: 8, memory_mb: 2048, volume_gb: 0 })
    } else if crate::numeric::str_eq(size, "xl") {
        Ok(InstanceSpecs { cpu_count: 16, memory_mb: 4096, volume_gb: 0 })
    } else {
        Err("unknown size".to_owned())
    }
}

/// The endpoint of one application's machine collection.
pub fn get_hostname(app_name: &str) -> (r: String)
    ensures
        r@ == crate::request::spec_hostname(app_name@) + "/machines"@,
{
    let mut s = crate::request::get_hostname(app_name);
    s.append("/machines");
    s
}

/// Resolves a name to its machine identifier through the directory.
pub fn get_instance_id_from_name(plane: &mut ControlPlane, name: &str) -> (r: Result<
    String,
    crate::orchestrator::OrchError,
>)
    requires
        old(plane).calls.lists < u64::MAX,
    ensures
        final(plane).machines@ == old(plane).machines@,
        final(plane).volumes@ == old(plane).volumes@,
        final(plane).next_id == old(plane).next_id,
        final(plane).fail_next_volume_create == old(plane).fail_next_volume_create,
        final(plane).fail_next_machine_create == old(plane).fail_next_machine_create,
        final(plane).calls == (CallCounts {
            lists: (old(plane).calls.lists + 1) as u64,
            ..old(plane).calls
        }),
        match spec_find_named(old(plane).mv(), name@) {
            Some(m) => r matches Ok(id) && id@ == m.id,
            None => r matches Err(crate::orchestrator::OrchError::NotFound),
        },
{
    let ms = plane.list_machines();
    match crate::orchestrator::find_by_name(&ms, name) {
        Some(m) => Ok(m.id),
        None => Err(crate::orchestrator::OrchError::NotFound),
    }
}

/// Creates a size-class machine: no volume, no port, the stock image.
pub fn create_instance(plane: &mut ControlPlane, name: &str, size: &str, region: &str) -> (r:
    Result<Instance, crate::orchestrator::OrchError>)
    requires
        old(plane).wf(),
        old(plane).headroom(8),
    ensures
        final(plane).wf(),
        final(plane).volumes@ == old(plane).volumes@,
        grows_within(*old(plane), *final(plane), 2),
        final(plane).fail_next_volume_create == old(plane).fail_next_volume_create,
        match spec_specs_of_size(size@) {
            None => {
                &&& r matches Err(crate::orchestrator::OrchError::Remote(e)) && e@
                    == "unknown size"@
                &&& final(plane).mv() == old(plane).mv()
            },
            Some(sp) => {
                if old(plane).fail_next_machine_create || spec_name_taken(
                    old(plane).mv(),
                    name@,
                ) {
                    &&& r matches Err(crate::orchestrator::OrchError::Remote(_))
                    &&& final(plane).mv() == old(plane).mv()
                } else {
                    &&& r matches Ok(inst)
                    &&& r matches Ok(inst) ==> {
                        &&& inst@.machine_id == tagged_id('m', old(plane).next_id as nat)
                        &&& inst@.name == name@
                        &&& inst@.size == size@
                        &&& inst@.region == region@
                    }
                    &&& final(plane).mv() == old(plane).mv().push(
                        ControlPlane::spec_new_machine(
                            old(plane).next_id as nat,
                            name@,
                            "registry-1.docker.io/library/ubuntu:latest"@,
                            sp,
                            region@,
                            None,
                            None,
                        ),
                    )
                }
            },
        },
{
    let specs = match get_specs_from_size(size) {
        Ok(sp) => sp,
        Err(e) => {
            return Err(crate::orchestrator::OrchError::Remote(e));
        },
    };
    let created = plane.create_machine(
        name,
        "registry-1.docker.io/library/ubuntu:latest",
        specs,
        region,
        &None,
        None,
    );
    match created {
        Err(e) => Err(crate::orchestrator::OrchError::Remote(e)),
        Ok(m) => {
            let size_name: String = match &m.config.guest {
                Some(g) => match get_size_from_cpu_count(g.cpus) {
                    Ok(s) => s,
                    Err(_) => "none".to_owned(),
                },
                None => "none".to_owned(),
            };
            Ok(
                Instance {
                    machine_id: m.id,
                    name: m.name,
                    size: size_name,
                    region: m.region,
                },
            )
        },
    }
}

/// Replaces the guest shape of the machine behind a name with the shape
/// of a size class.
pub fn update_instance(plane: &mut ControlPlane, name: &str, size: &str, region: &str) -> (r:
    Result<Instance, crate::orchestrator::OrchError>)
    requires
        old(plane).wf(),
        old(plane).headroom(8),
    ensures
        final(plane).wf(),
        final(plane).volumes@ == old(plane).volumes@,
        grows_within(*old(plane), *final(plane), 2),
        match spec_find_named(old(plane).mv(), name@) {
            None => {
                &&& r matches Err(crate::orchestrator::OrchError::NotFound)
                &&& final(plane).mv() == old(plane).mv()
            },
            Some(m) => {
                match spec_specs_of_size(size@) {
                    None => {
                        &&& r matches Err(crate::orchestrator::OrchError::Remote(e)) && e@
                            == "unknown size"@
                        &&& final(plane).mv() == old(plane).mv()
                    },
                    Some(sp) => {
                        &&& r matches Ok(inst)
                        &&& r matches Ok(inst) ==> {
                            &&& inst@.machine_id == m.id
                            &&& inst@.name == name@
                            &&& inst@.size == size@
                            &&& inst@.region == region@
                        }
                        &&& final(plane).mv() == set_guest_all(
                            old(plane).mv(),
                            m.id,
                            sp.cpu_count,
                            sp.memory_mb,
                        )
                    },
                }
            },
        },
{
    let ghost p0 = *plane;
    let machine_id = match get_instance_id_from_name(plane, name) {
        Ok(id) => id,
        Err(e) => {
            return Err(e);
        },
    };
    let specs = match get_specs_from_size(size) {
        Ok(sp) => sp,
        Err(e) => {
            return Err(crate::orchestrator::OrchError::Remote(e));
        },
    };
    proof {
        let m = spec_find_named(p0.mv(), name@)->Some_0;
        lemma_find_named(p0.mv(), name@);
        let i = choose|i: int| 0 <= i < p0.mv().len() && p0.mv()[i] == m;
        assert(p0.mv()[i].id == machine_id@);
    }
    match plane.update_guest(machine_id.as_str(), specs.cpu_count, specs.memory_mb) {
        Ok(()) => Ok(
            Instance {
                machine_id,
                name: name.to_owned(),
                size: size.to_owned(),
                region: region.to_owned(),
            },
        ),
        Err(e) => Err(crate::orchestrator::OrchError::Remote(e)),
    }
}

/// Deletes the machine behind a name. Size-class machines carry no
/// volume, so nothing else is deleted.
pub fn delete_instance(plane: &mut ControlPlane, name: &str) -> (r: Result<
    String,
    crate::orchestrator::OrchError,
>)
    requires
        old(plane).wf(),
        old(plane).headroom(8),
    ensures
        final(plane).wf(),
        final(plane).volumes@ == old(plane).volumes@,
        final(plane).next_id == old(plane).next_id,
        final(plane).fail_next_volume_create == old(plane).fail_next_volume_create,
        final(plane).fail_next_machine_create == old(plane).fail_next_machine_create,
        grows_within(*old(plane), *final(plane), 2),
        match spec_find_named(old(plane).mv(), name@) {
            None => {
                &&& r matches Err(crate::orchestrator::OrchError::NotFound)
                &&& final(plane).mv() == old(plane).mv()
                &&& final(plane).calls == (CallCounts {
                    lists: (old(plane).calls.lists + 1) as u64,
                    ..old(plane).calls
                })
            },
            Some(m) => {
                &&& r matches Ok(msg) && msg@ == "Instance "@ + name@
                    + " deleted successfully"@
                &&& final(plane).mv() == old(plane).mv().filter(keep_machine(m.id))
                &&& !spec_name_taken(final(plane).mv(), name@)
                &&& final(plane).calls == (CallCounts {
                    lists: (old(plane).calls.lists + 1) as u64,
                    machine_deletes: (old(plane).calls.machine_deletes + 1) as u64,
                    ..old(plane).calls
                })
            },
        },
{
    let ghost p0 = *plane;
    let machine_id = match get_instance_id_from_name(plane, name) {
        Ok(id) => id,
        Err(e) => {
            return Err(e);
        },
    };
    proof {
        let m = spec_find_named(p0.mv(), name@)->Some_0;
        lemma_find_named(p0.mv(), name@);
        let i = choose|i: int| 0 <= i < p0.mv().len() && p0.mv()[i] == m;
        assert(p0.mv()[i].id == machine_id@);
        crate::machines::lemma_deleted_name_gone(p0.mv(), name@);
    }
    match plane.delete_machine(machine_id.as_str()) {
        Ok(()) => {
            let msg = "Instance ".to_owned().concat(name).concat(" deleted successfully");
            Ok(msg)
        },
        Err(e) => Err(crate::orchestrator::OrchError::Remote(e)),
    }
}

/// Replaces a machine's shape by deleting it and recreating it under
/// the same name with a new size class; nothing happens when the name
/// does not resolve.
pub fn modify_instance(plane: &mut ControlPlane, name: &str, size: &str, region: &str)
    requires
        old(plane).wf(),
        old(plane).headroom(16),
    ensures
        final(plane).wf(),
        final(plane).volumes@ == old(plane).volumes@,
        match spec_find_named(old(plane).mv(), name@) {
            None => final(plane).mv() == old(plane).mv(),
            Some(m) => {
                match spec_specs_of_size(size@) {
                    None => final(plane).mv() == old(plane).mv().filter(keep_machine(m.id)),
                    Some(sp) => {
                        if old(plane).fail_next_machine_create || spec_name_taken(
                            old(plane).mv().filter(keep_machine(m.id)),
                            name@,
                        ) {
                            final(plane).mv() == old(plane).mv().filter(keep_machine(m.id))
                        } else {
                            final(plane).mv() == old(plane).mv().filter(
                                keep_machine(m.id),
                            ).push(
                                ControlPlane::spec_new_machine(
                                    old(plane).next_id as nat,
                                    name@,
                                    "registry-1.docker.io/library/ubuntu:latest"@,
                                    sp,
                                    region@,
                                    None,
                                    None,
                                ),
                            )
                        }
                    },
                }
            },
        },
{
    match delete_instance(plane, name) {
        Ok(_) => {
            let _ = create_instance(plane, name, size, region);
        },
        Err(_) => {},
    }
}

} // verus!
