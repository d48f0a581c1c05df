use spsd::commands::{create_new_instance, destroy_instance, serverless, stop_instance};
use spsd::machines::{
    create_machine, create_volume, delete_machine, delete_volume, get_instance_from_name,
    get_instances, poll, start_machine, stop_machine,
};
use spsd::orchestrator::{
    provision_on_machine, provision_on_volume, provision_on_wait, provision_start, Action,
    CreateRequest, OrchError, ProvisionStep,
};
use spsd::plane::ControlPlane;
use spsd::sizes;
use spsd::types::{InstanceSpecs, InstanceState};

#[test]
fn create_returns_the_requested_instance_quiesced() {
    let mut plane = ControlPlane::new();
    let inst = create_machine(&mut plane, "box1", "img", 2, 512, 10, "iad", Some(8080)).unwrap();
    assert_eq!(inst.name, "box1");
    assert_eq!(inst.image, "img");
    assert_eq!(inst.specs, InstanceSpecs { cpu_count: 2, memory_mb: 512, volume_gb: 10 });
    assert_eq!(inst.region, "iad");
    assert_eq!(inst.port, Some(8080));
    assert_eq!(inst.state, InstanceState::Stopped);
    assert_eq!(inst.machine_id, "m1");
    assert_eq!(inst.volume_id, "v0");
    assert_eq!(plane.machines.len(), 1);
    assert_eq!(plane.volumes.len(), 1);
    assert_eq!(plane.machines[0].state, "stopped");
}

#[test]
fn end_to_end_lifecycle() {
    let mut plane = ControlPlane::new();
    let msg = create_new_instance(&mut plane, "box1", "img", 2, 512, 10, "iad", Some(8080));
    assert_eq!(msg.unwrap(), "Created instance box1");

    let list = get_instances(&mut plane).unwrap();
    assert_eq!(list.len(), 1);
    assert_eq!(list[0].name, "box1");
    assert_eq!(list[0].state, InstanceState::Stopped);

    let id = start_machine(&mut plane, "box1").unwrap();
    assert!(!id.is_empty());
    assert_eq!(id, "m1");
    let list = get_instances(&mut plane).unwrap();
    assert_eq!(list[0].state, InstanceState::Running);

    let msg = stop_instance(&mut plane, "box1").unwrap();
    assert_eq!(msg, "Stopped instance box1");
    let list = get_instances(&mut plane).unwrap();
    assert_eq!(list[0].state, InstanceState::Stopped);

    let msg = destroy_instance(&mut plane, "box1").unwrap();
    assert_eq!(msg, "Destroyed instance box1");
    let list = get_instances(&mut plane).unwrap();
    assert!(list.is_empty());
    assert!(plane.volumes.is_empty());
}

#[test]
fn duplicate_port_is_refused_without_remote_calls() {
    let mut plane = ControlPlane::new();
    create_new_instance(&mut plane, "box1", "img", 2, 512, 10, "iad", Some(8080)).unwrap();
    let volume_creates = plane.calls.volume_creates;
    let machine_creates = plane.calls.machine_creates;

    let r = create_new_instance(&mut plane, "box2", "img", 1, 256, 1, "iad", Some(8080));
    assert!(matches!(r, Err(OrchError::PortInUse)));
    assert_eq!(plane.calls.volume_creates, volume_creates);
    assert_eq!(plane.calls.machine_creates, machine_creates);
    let list = get_instances(&mut plane).unwrap();
    assert_eq!(list.len(), 1);
    assert_eq!(list[0].name, "box1");
    assert_eq!(plane.volumes.len(), 1);
}

#[test]
fn a_different_port_is_allowed() {
    let mut plane = ControlPlane::new();
    create_new_instance(&mut plane, "box1", "img", 2, 512, 10, "iad", Some(8080)).unwrap();
    create_new_instance(&mut plane, "box2", "img", 1, 256, 1, "iad", Some(8081)).unwrap();
    assert_eq!(get_instances(&mut plane).unwrap().len(), 2);
}

#[test]
fn failed_machine_creation_deletes_the_volume_again() {
    let mut plane = ControlPlane::new();
    plane.fail_next_machine_create = true;
    let r = create_machine(&mut plane, "box1", "img", 2, 512, 10, "iad", None);
    match r {
        Err(OrchError::Remote(body)) => assert_eq!(body, "machine creation failed"),
        other => panic!("expected a remote failure, got {:?}", other.is_ok()),
    }
    assert_eq!(plane.calls.volume_creates, 1);
    assert_eq!(plane.calls.machine_creates, 1);
    assert_eq!(plane.calls.volume_deletes, 1);
    assert!(plane.volumes.is_empty());
    assert!(plane.machines.is_empty());
}

#[test]
fn taken_name_is_compensated_too() {
    let mut plane = ControlPlane::new();
    create_machine(&mut plane, "box1", "img", 2, 512, 10, "iad", None).unwrap();
    let r = create_machine(&mut plane, "box1", "img", 1, 256, 1, "iad", None);
    match r {
        Err(OrchError::Remote(body)) => assert_eq!(body, "machine name already taken"),
        other => panic!("expected a remote failure, got {:?}", other.is_ok()),
    }
    assert_eq!(plane.machines.len(), 1);
    assert_eq!(plane.volumes.len(), 1);
    assert_eq!(plane.calls.volume_deletes, 1);
}

#[test]
fn failed_volume_creation_aborts_before_the_machine() {
    let mut plane = ControlPlane::new();
    plane.fail_next_volume_create = true;
    let r = create_machine(&mut plane, "box1", "img", 2, 512, 10, "iad", None);
    match r {
        Err(OrchError::Remote(body)) => assert_eq!(body, "volume creation failed"),
        other => panic!("expected a remote failure, got {:?}", other.is_ok()),
    }
    assert_eq!(plane.calls.volume_creates, 1);
    assert_eq!(plane.calls.machine_creates, 0);
    assert!(plane.volumes.is_empty());
    assert!(plane.machines.is_empty());
}

#[test]
fn destroying_an_unknown_name_deletes_nothing() {
    let mut plane = ControlPlane::new();
    let r = destroy_instance(&mut plane, "ghost");
    assert!(matches!(r, Err(OrchError::NotFound)));
    assert_eq!(plane.calls.machine_deletes, 0);
    assert_eq!(plane.calls.volume_deletes, 0);
}

#[test]
fn destroy_removes_machine_and_volume() {
    let mut plane = ControlPlane::new();
    create_new_instance(&mut plane, "box1", "img", 2, 512, 10, "iad", None).unwrap();
    create_new_instance(&mut plane, "box2", "img", 1, 256, 1, "fra", None).unwrap();
    let msg = delete_machine(&mut plane, "box1").unwrap();
    assert_eq!(msg, "Deleted");
    let list = get_instances(&mut plane).unwrap();
    assert_eq!(list.len(), 1);
    assert_eq!(list[0].name, "box2");
    assert_eq!(plane.volumes.len(), 1);
    assert_eq!(plane.volumes[0].id, "v2");
}

#[test]
fn starting_and_stopping_unknown_names_fail() {
    let mut plane = ControlPlane::new();
    assert!(matches!(start_machine(&mut plane, "ghost"), Err(OrchError::NotFound)));
    assert!(matches!(stop_machine(&mut plane, "ghost"), Err(OrchError::NotFound)));
    assert!(matches!(serverless(&mut plane, "ghost"), Err(OrchError::NotFound)));
    // a failed resolution issues no state-changing remote call
    assert_eq!(plane.calls.starts, 0);
    assert_eq!(plane.calls.waits, 0);
    assert_eq!(plane.calls.stops, 0);
}

#[test]
fn serverless_run_leaves_the_machine_stopped() {
    let mut plane = ControlPlane::new();
    create_new_instance(&mut plane, "box1", "img", 2, 512, 10, "iad", None).unwrap();
    let msg = serverless(&mut plane, "box1").unwrap();
    assert_eq!(msg, "");
    let list = get_instances(&mut plane).unwrap();
    assert_eq!(list[0].state, InstanceState::Stopped);
    assert_eq!(plane.calls.starts, 1);
    assert_eq!(plane.calls.stops, 2);
}

#[test]
fn resolution_goes_through_the_directory() {
    let mut plane = ControlPlane::new();
    create_new_instance(&mut plane, "box1", "img", 2, 512, 10, "iad", None).unwrap();
    let inst = get_instance_from_name(&mut plane, "box1").unwrap();
    assert_eq!(inst.machine_id, "m1");
    assert!(matches!(get_instance_from_name(&mut plane, "nope"), Err(OrchError::NotFound)));
}

#[test]
fn poll_reports_readiness() {
    let mut plane = ControlPlane::new();
    sizes::create_instance(&mut plane, "box", "micro", "ams").unwrap();
    let msg = poll(&mut plane, "m0").unwrap();
    assert_eq!(msg, "Instance started");
    let list = get_instances(&mut plane).unwrap();
    assert_eq!(list[0].state, InstanceState::Running);
    match poll(&mut plane, "m99") {
        Err(OrchError::Remote(body)) => assert_eq!(body, "Instance was not started"),
        other => panic!("expected a remote failure, got {:?}", other.is_ok()),
    }
}

#[test]
fn volumes_can_be_managed_directly() {
    let mut plane = ControlPlane::new();
    let id = create_volume(&mut plane, "data", 5, "ams").unwrap();
    assert_eq!(id, "v0");
    assert_eq!(plane.volumes.len(), 1);
    let msg = delete_volume(&mut plane, "v0").unwrap();
    assert_eq!(msg, "Volume deleted");
    assert!(plane.volumes.is_empty());
    match delete_volume(&mut plane, "v0") {
        Err(OrchError::Remote(body)) => assert_eq!(body, "volume not found"),
        other => panic!("expected a remote failure, got {:?}", other.is_ok()),
    }
}

#[test]
fn size_classes_map_both_ways() {
    assert_eq!(sizes::get_size_from_cpu_count(1), Ok("micro".to_string()));
    assert_eq!(sizes::get_size_from_cpu_count(4), Ok("med".to_string()));
    assert_eq!(sizes::get_size_from_cpu_count(16), Ok("xl".to_string()));
    assert_eq!(sizes::get_size_from_cpu_count(3), Err("unknown".to_string()));
    assert_eq!(
        sizes::get_specs_from_size("small"),
        Ok(InstanceSpecs { cpu_count: 2, memory_mb: 512, volume_gb: 0 })
    );
    assert_eq!(
        sizes::get_specs_from_size("xl"),
        Ok(InstanceSpecs { cpu_count: 16, memory_mb: 4096, volume_gb: 0 })
    );
    assert_eq!(sizes::get_specs_from_size("huge"), Err("unknown size".to_string()));
}

#[test]
fn size_class_machines_round_trip() {
    let mut plane = ControlPlane::new();
    let inst = sizes::create_instance(&mut plane, "legacy", "med", "fra").unwrap();
    assert_eq!(inst.machine_id, "m0");
    assert_eq!(inst.name, "legacy");
    assert_eq!(inst.size, "med");
    assert_eq!(inst.region, "fra");

    let id = sizes::get_instance_id_from_name(&mut plane, "legacy").unwrap();
    assert_eq!(id, "m0");

    let inst = sizes::update_instance(&mut plane, "legacy", "xl", "fra").unwrap();
    assert_eq!(inst.size, "xl");
    let list = get_instances(&mut plane).unwrap();
    assert_eq!(list[0].specs.cpu_count, 16);
    assert_eq!(list[0].specs.memory_mb, 4096);

    let msg = sizes::delete_instance(&mut plane, "legacy").unwrap();
    assert_eq!(msg, "Instance legacy deleted successfully");
    assert_eq!(plane.calls.machine_deletes, 1);
    assert!(get_instances(&mut plane).unwrap().is_empty());

    // a name that no longer resolves issues no deletion call
    assert!(matches!(
        sizes::delete_instance(&mut plane, "legacy"),
        Err(OrchError::NotFound)
    ));
    assert_eq!(plane.calls.machine_deletes, 1);
}

#[test]
fn modify_recreates_under_the_same_name() {
    let mut plane = ControlPlane::new();
    sizes::create_instance(&mut plane, "legacy", "micro", "ams").unwrap();
    sizes::modify_instance(&mut plane, "legacy", "large", "ams");
    let list = get_instances(&mut plane).unwrap();
    assert_eq!(list.len(), 1);
    assert_eq!(list[0].name, "legacy");
    assert_eq!(list[0].specs.cpu_count, 8);
    sizes::modify_instance(&mut plane, "ghost", "large", "ams");
    assert_eq!(get_instances(&mut plane).unwrap().len(), 1);
}

#[test]
fn error_messages_are_fixed() {
    assert_eq!(
        OrchError::PortInUse.message(),
        "Port is already in use by another instance"
    );
    assert_eq!(OrchError::NotFound.message(), "Instance not found");
    assert_eq!(OrchError::Remote("raw body".to_string()).message(), "raw body");
}

#[test]
fn failed_readiness_poll_is_propagated_without_compensation() {
    // drive the provisioning state machine by hand up to the readiness
    // wait, then feed it a failing wait outcome
    let mut plane = ControlPlane::new();
    let req = CreateRequest {
        name: "box1".to_string(),
        image: "img".to_string(),
        cpu_count: 2,
        memory_mb: 512,
        volume_gb: 10,
        region: "iad".to_string(),
        port: None,
    };
    let (sm, act) = provision_start(req);
    assert!(matches!(act, Action::CreateVolume { .. }));
    let volume = plane.create_volume("box1", 10, "iad").unwrap();
    let (sm, act) = match provision_on_volume(sm, Ok(volume)) {
        ProvisionStep::Continue(sm, act) => (sm, act),
        _ => panic!("expected the machine creation to follow"),
    };
    assert!(matches!(act, Action::CreateMachine { .. }));
    let machine = plane
        .create_machine(
            "box1",
            "img",
            InstanceSpecs { cpu_count: 2, memory_mb: 512, volume_gb: 10 },
            "iad",
            &Some("v0".to_string()),
            None,
        )
        .unwrap();
    let (sm, act) = match provision_on_machine(sm, Ok(machine)) {
        ProvisionStep::Continue(sm, act) => (sm, act),
        _ => panic!("expected the readiness wait to follow"),
    };
    assert!(matches!(act, Action::WaitStarted { .. }));
    match provision_on_wait(sm, Err("deadline elapsed".to_string())) {
        ProvisionStep::Done(Err(OrchError::Remote(body))) => {
            assert_eq!(body, "Instance was not started")
        }
        _ => panic!("expected the failed wait to end the run"),
    }
    // both resources still exist: the failure is not compensated
    assert_eq!(plane.machines.len(), 1);
    assert_eq!(plane.volumes.len(), 1);
}

#[test]
fn failed_volume_deletion_is_reported_with_the_machine_gone() {
    let mut plane = ControlPlane::new();
    // a size-class machine carries no volume, so teardown's volume
    // deletion fails after the machine deletion succeeded
    sizes::create_instance(&mut plane, "legacy", "micro", "ams").unwrap();
    match delete_machine(&mut plane, "legacy") {
        Err(OrchError::Remote(body)) => assert_eq!(body, "volume not found"),
        other => panic!("expected the leak to be reported, got {:?}", other.is_ok()),
    }
    assert!(plane.machines.is_empty());
}
