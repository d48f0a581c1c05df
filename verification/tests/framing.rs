use spsd::config::{bearer_header_value, find_created_app_name, get_api_key, get_app_name, last_word, str_contains};
use spsd::request::{create_body_from_specs, escape_json, get_hostname, machine_to_instance, parse_response_body};
use spsd::types::{
    Config, ImageRef, Init, Instance, InstanceSpecs, InstanceState, Machine, MachineConfig, Mount,
    Port, Service, parse_state,
};

fn bare_machine(name: &str, state: &str) -> Machine {
    Machine {
        id: "m9".to_string(),
        name: name.to_string(),
        state: state.to_string(),
        region: "fra".to_string(),
        instance_id: String::new(),
        private_ip: String::new(),
        config: MachineConfig {
            env: None,
            init: Init { exec_args: None, entrypoint: None, cmd: None, tty: None },
            image: "img".to_string(),
            services: None,
            metadata: None,
            mounts: Vec::new(),
            restart: None,
            guest: None,
        },
        image_ref: ImageRef {
            registry: String::new(),
            repository: String::new(),
            tag: None,
            digest: None,
            labels: None,
        },
        created_at: String::new(),
    }
}

#[test]
fn state_mapper_is_total_with_fixed_values() {
    assert_eq!(parse_state("started"), InstanceState::Running);
    assert_eq!(parse_state("starting"), InstanceState::Running);
    assert_eq!(parse_state("stopped"), InstanceState::Stopped);
    assert_eq!(parse_state(""), InstanceState::Stopped);
    assert_eq!(parse_state("anything-unrecognized"), InstanceState::Stopped);
    assert_eq!(parse_state("created"), InstanceState::Stopped);
    assert_eq!(parse_state("destroyed"), InstanceState::Stopped);
}

#[test]
fn phony_specs_are_all_zero() {
    let p = InstanceSpecs::phony();
    assert_eq!(p, InstanceSpecs { cpu_count: 0, memory_mb: 0, volume_gb: 0 });
}

#[test]
fn fresh_config_is_empty() {
    let c = Config::new();
    assert!(c.fly_api_key.is_none());
    assert!(c.fly_app_name.is_none());
}

#[test]
fn config_accessors_demand_the_fields() {
    let mut c = Config::new();
    assert_eq!(get_api_key(&c), Err("FLY_API_KEY not set in config file".to_string()));
    assert_eq!(get_app_name(&c), Err("FLY_APP_NAME not set in config file".to_string()));
    c.fly_api_key = Some("SECRET-REDACTED".to_string());
    c.fly_app_name = Some("myapp".to_string());
    assert_eq!(get_api_key(&c), Ok("SECRET-REDACTED".to_string()));
    assert_eq!(get_app_name(&c), Ok("myapp".to_string()));
}

#[test]
fn bearer_value_prefixes_the_key() {
    assert_eq!(bearer_header_value("tok123"), "Bearer tok123");
}

#[test]
fn hostname_embeds_the_app_name() {
    assert_eq!(get_hostname("myapp"), "https://api.machines.dev/v1/apps/myapp");
    assert_eq!(
        spsd::sizes::get_hostname("myapp"),
        "https://api.machines.dev/v1/apps/myapp/machines"
    );
}

#[test]
fn escaping_rewrites_quotes_and_controls() {
    assert_eq!(escape_json("plain"), "plain");
    assert_eq!(escape_json("a\"b"), "a\\\"b");
    assert_eq!(escape_json("a\\b"), "a\\\\b");
    assert_eq!(escape_json("line\nbreak"), "line\\nbreak");
    assert_eq!(escape_json("tab\there"), "tab\\there");
    assert_eq!(escape_json("cr\rhere"), "cr\\rhere");
    assert_eq!(escape_json("\u{1}"), "\\u0001");
    assert_eq!(escape_json("\u{1f}"), "\\u001f");
}

#[test]
fn machine_body_with_port_is_framed_in_sorted_key_order() {
    let body = create_body_from_specs(
        "box1",
        "img",
        InstanceSpecs { cpu_count: 2, memory_mb: 512, volume_gb: 10 },
        "iad",
        "vol1",
        Some(8080),
    )
    .unwrap();
    assert_eq!(
        body,
        "{\"config\":{\"guest\":{\"cpu_kind\":\"shared\",\"cpus\":2,\"memory_mb\":512},\
         \"image\":\"img\",\"init\":{\"exec\":[\"/bin/sleep\",\"inf\"]},\
         \"mounts\":[{\"encrypted\":true,\"name\":\"box1\",\"path\":\"/data\",\"size_gb\":10,\
         \"size_gb_limit\":500,\"volume\":\"vol1\"}],\
         \"services\":[{\"internal_port\":8080,\"ports\":[{\"handlers\":[\"http\"],\"port\":8080}],\
         \"protocol\":\"tcp\"}]},\"name\":\"box1\",\"region\":\"iad\"}"
    );
}

#[test]
fn machine_body_without_port_has_no_services() {
    let body = create_body_from_specs(
        "a\"b",
        "registry-1.docker.io/library/ubuntu:latest",
        InstanceSpecs { cpu_count: 1, memory_mb: 256, volume_gb: 1 },
        "ams",
        "v0",
        None,
    )
    .unwrap();
    assert_eq!(
        body,
        "{\"config\":{\"guest\":{\"cpu_kind\":\"shared\",\"cpus\":1,\"memory_mb\":256},\
         \"image\":\"registry-1.docker.io/library/ubuntu:latest\",\
         \"init\":{\"exec\":[\"/bin/sleep\",\"inf\"]},\
         \"mounts\":[{\"encrypted\":true,\"name\":\"a\\\"b\",\"path\":\"/data\",\"size_gb\":1,\
         \"size_gb_limit\":500,\"volume\":\"v0\"}]},\"name\":\"a\\\"b\",\"region\":\"ams\"}"
    );
}

#[test]
fn materialisation_defaults_absent_sub_objects() {
    let m = bare_machine("plain", "weird-state");
    let inst: Instance = machine_to_instance(&m);
    assert_eq!(inst.machine_id, "m9");
    assert_eq!(inst.volume_id, "");
    assert_eq!(inst.name, "plain");
    assert_eq!(inst.image, "img");
    assert_eq!(inst.specs, InstanceSpecs { cpu_count: 0, memory_mb: 0, volume_gb: 0 });
    assert_eq!(inst.region, "fra");
    assert_eq!(inst.port, None);
    assert_eq!(inst.state, InstanceState::Stopped);
}

#[test]
fn materialisation_reads_guest_mounts_and_services() {
    let mut m = bare_machine("full", "started");
    m.config.guest = Some(spsd::types::Guest {
        cpu_kind: "shared".to_string(),
        cpus: 4,
        memory_mb: 1024,
    });
    m.config.mounts = vec![Mount {
        encrypted: true,
        path: "/data".to_string(),
        size_gb: 20,
        volume: "v7".to_string(),
        name: "full".to_string(),
        size_gb_limit: 500,
    }];
    m.config.services = Some(vec![Service {
        internal_port: 9000,
        ports: vec![Port { port: 9000 }],
        protocol: "tcp".to_string(),
    }]);
    let inst = machine_to_instance(&m);
    assert_eq!(inst.volume_id, "v7");
    assert_eq!(inst.specs, InstanceSpecs { cpu_count: 4, memory_mb: 1024, volume_gb: 20 });
    assert_eq!(inst.port, Some(9000));
    assert_eq!(inst.state, InstanceState::Running);
}

#[test]
fn empty_services_expose_no_port() {
    let mut m = bare_machine("svcless", "stopped");
    m.config.services = Some(Vec::new());
    let inst = machine_to_instance(&m);
    assert_eq!(inst.port, None);
}

#[test]
fn listing_materialises_every_record() {
    let ms = vec![bare_machine("a", "started"), bare_machine("b", "stopped")];
    let list = parse_response_body(ms).unwrap();
    assert_eq!(list.len(), 2);
    assert_eq!(list[0].name, "a");
    assert_eq!(list[0].state, InstanceState::Running);
    assert_eq!(list[1].name, "b");
    assert_eq!(list[1].state, InstanceState::Stopped);
}

#[test]
fn substring_search_finds_needles() {
    assert!(str_contains("New app created: foo", "New app created:"));
    assert!(str_contains("abc", ""));
    assert!(str_contains("abc", "abc"));
    assert!(!str_contains("abc", "abcd"));
    assert!(!str_contains("nothing here", "New app created:"));
}

#[test]
fn last_word_takes_the_trailing_run() {
    assert_eq!(last_word("New app created: shiny-app"), Some("shiny-app".to_string()));
    assert_eq!(last_word("word"), Some("word".to_string()));
    assert_eq!(last_word("trailing spaces   "), Some("spaces".to_string()));
    assert_eq!(last_word("   "), None);
    assert_eq!(last_word(""), None);
}

#[test]
fn created_app_name_is_read_from_the_marked_line() {
    let out = "Building...\nNew app created: shiny-app-123\nDone.\n";
    assert_eq!(find_created_app_name(out), Some("shiny-app-123".to_string()));
    assert_eq!(find_created_app_name("no marker anywhere\n"), None);
    assert_eq!(
        find_created_app_name("x\nNew app created: one\nNew app created: two\n"),
        Some("one".to_string())
    );
    assert_eq!(
        find_created_app_name("New app created:   \n"),
        Some("created:".to_string())
    );
    assert_eq!(find_created_app_name("   \nNew app created:x\n"), Some("created:x".to_string()));
    assert_eq!(
        find_created_app_name("New app created: app-9\r\nrest"),
        Some("app-9".to_string())
    );
}
