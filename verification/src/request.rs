//! Request framing and response materialisation for the remote
//! control-plane API: the JSON machine-creation body, the endpoint base,
//! and the mapping from raw machine records onto user-facing instances.

use vstd::prelude::*;

use crate::numeric::{dec_rep, u64_to_string};
use crate::types::{
    Instance, InstanceSpecs, InstanceView, Machine, MachineView, spec_state_of, parse_state,
};

verus! {

broadcast use vstd::string::group_string_axioms;

/// The hexadecimal digit character for a value below sixteen.
pub open spec fn hex_digit(d: nat) -> char {
    if d < 10 {
        crate::numeric::dec_digit(d)
    } else if d == 10 {
        'a'
    } else if d == 11 {
        'b'
    } else if d == 12 {
        'c'
    } else if d == 13 {
        'd'
    } else if d == 14 {
        'e'
    } else {
        'f'
    }
}

/// How one character is written inside a JSON string literal: quote and
/// backslash get a backslash escape, the common control characters get
/// their short escapes, any other control character a `\u00..` escape,
/// and everything else stands for itself.
pub open spec fn esc_char(c: char) -> Seq<char> {
    if c == '"' {
        seq!['\\', '"']
    } else if c == '\\' {
        seq!['\\', '\\']
    } else if c == '\u{8}' {
        seq!['\\', 'b']
    } else if c == '\u{c}' {
        seq!['\\', 'f']
    } else if c == '\n' {
        seq!['\\', 'n']
    } else if c == '\r' {
        seq!['\\', 'r']
    } else if c == '\t' {
        seq!['\\', 't']
    } else if (c as nat) < 32 {
        seq!['\\', 'u', '0', '0', hex_digit((c as nat) / 16), hex_digit((c as nat) % 16)]
    } else {
        seq![c]
    }
}

/// The body of a JSON string literal holding `s`.
pub open spec fn json_escaped(s: Seq<char>) -> Seq<char>
    decreases s.len(),
{
    if s.len() == 0 {
        Seq::empty()
    } else {
        json_escaped(s.drop_last()) + esc_char(s.last())
    }
}

/// The hexadecimal digit character of a value below sixteen.
fn hex_digit_char(d: u32) -> (r: char)
    requires
        d < 16,
    ensures
        r == hex_digit(d as nat),
{
    if d == 0 {
        '0'
    } else if d == 1 {
        '1'
    } else if d == 2 {
        '2'
    } else if d == 3 {
        '3'
    } else if d == 4 {
        '4'
    } else if d == 5 {
        '5'
    } else if d == 6 {
        '6'
    } else if d == 7 {
        '7'
    } else if d == 8 {
        '8'
    } else if d == 9 {
        '9'
    } else if d == 10 {
        'a'
    } else if d == 11 {
        'b'
    } else if d == 12 {
        'c'
    } else if d == 13 {
        'd'
    } else if d == 14 {
        'e'
    } else {
        'f'
    }
}

/// Relies on `String::push` of std: appends the given character to the
/// end of the string.
#[verifier::external_body]
fn push_char(s: &mut String, c: char)
    ensures
        final(s)@ == old(s)@ + seq![c],
{
    s.push(c)
}

/// Escapes `s` for use inside a JSON string literal.
pub fn escape_json(s: &str) -> (r: String)
    ensures
        r@ == json_escaped(s@),
{
    let n = s.unicode_len();
    let mut out = String::new();
    let mut i: usize = 0;
    while i < n
        invariant
            0 <= i <= n,
            n == s@.len(),
            out@ == json_escaped(s@.take(i as int)),
        decreases n - i,
    {
        let c = s.get_char(i);
        proof {
            assert(s@.take(i + 1).drop_last() =~= s@.take(i as int));
            assert(s@.take(i + 1).last() == s@[i as int]);
        }
        if c == '"' {
            out.append("\\\"");
            proof {
                reveal_strlit("\\\"");
                assert(out@ =~= json_escaped(s@.take(i + 1)));
            }
        } else if c == '\\' {
            out.append("\\\\");
            proof {
                reveal_strlit("\\\\");
                assert(out@ =~= json_escaped(s@.take(i + 1)));
            }
        } else if c == '\u{8}' {
            out.append("\\b");
            proof {
                reveal_strlit("\\b");
                assert(out@ =~= json_escaped(s@.take(i + 1)));
            }
        } else if c == '\u{c}' {
            out.append("\\f");
            proof {
                reveal_strlit("\\f");
                assert(out@ =~= json_escaped(s@.take(i + 1)));
            }
        } else if c == '\n' {
            out.append("\\n");
            proof {
                reveal_strlit("\\n");
                assert(out@ =~= json_escaped(s@.take(i + 1)));
            }
        } else if c == '\r' {
            out.append("\\r");
            proof {
                reveal_strlit("\\r");
                assert(out@ =~= json_escaped(s@.take(i + 1)));
            }
        } else if c == '\t' {
            out.append("\\t");
            proof {
                reveal_strlit("\\t");
                assert(out@ =~= json_escaped(s@.take(i + 1)));
            }
        } else if (c as u32) < 32 {
            out.append("\\u00");
            push_char(&mut out, hex_digit_char((c as u32) / 16));
            push_char(&mut out, hex_digit_char((c as u32) % 16));
            proof {
                reveal_strlit("\\u00");
                assert("\\u00"@ =~= seq!['\\', 'u', '0', '0']);
                assert(out@ =~= json_escaped(s@.take(i + 1)));
            }
        } else {
            push_char(&mut out, c);
            proof {
                assert(out@ =~= json_escaped(s@.take(i + 1)));
            }
        }
        i = i + 1;
    }
    proof {
        assert(s@.take(n as int) =~= s@);
    }
    out
}

/// The endpoint base for one application on the remote control plane.
pub open spec fn spec_hostname(app_name: Seq<char>) -> Seq<char> {
    "https://api.machines.dev/v1/apps/"@ + app_name
}

/// Builds the endpoint base under which one application's machines and
/// volumes live.
pub fn get_hostname(app_name: &str) -> (r: String)
    ensures
        r@ == spec_hostname(app_name@),
{
    let mut s = "https://api.machines.dev/v1/apps/".to_owned();
    s.append(app_name);
    s
}

/// The machine-creation request body: guest shape, image, an init
/// command that keeps the container alive indefinitely, the mount for
/// the attached volume, and — when a port is requested — one TCP
/// service exposing it over HTTP. Members are written in sorted key
/// order with no whitespace.
pub open spec fn spec_machine_body(
    name: Seq<char>,
    image: Seq<char>,
    specs: InstanceSpecs,
    region: Seq<char>,
    volume_id: Seq<char>,
    port: Option<u16>,
) -> Seq<char> {
    "{\"config\":{\"guest\":{\"cpu_kind\":\"shared\",\"cpus\":"@ + dec_rep(specs.cpu_count as nat)
        + ",\"memory_mb\":"@ + dec_rep(specs.memory_mb as nat) + "},\"image\":\""@ + json_escaped(
        image,
    ) + "\",\"init\":{\"exec\":[\"/bin/sleep\",\"inf\"]},\"mounts\":[{\"encrypted\":true,\"name\":\""@
        + json_escaped(name) + "\",\"path\":\"/data\",\"size_gb\":"@ + dec_rep(
        specs.volume_gb as nat,
    ) + ",\"size_gb_limit\":500,\"volume\":\""@ + json_escaped(volume_id) + "\"}]"@ + (match port {
        Some(p) => ",\"services\":[{\"internal_port\":"@ + dec_rep(p as nat)
            + ",\"ports\":[{\"handlers\":[\"http\"],\"port\":"@ + dec_rep(p as nat)
            + "}],\"protocol\":\"tcp\"}]"@,
        None => Seq::<char>::empty(),
    }) + "},\"name\":\""@ + json_escaped(name) + "\",\"region\":\""@ + json_escaped(region)
        + "\"}"@
}

/// Frames the JSON body of a machine-creation request.
pub fn create_body_from_specs(
    name: &str,
    image: &str,
    specs: InstanceSpecs,
    region: &str,
    volume_id: &str,
    port: Option<u16>,
) -> (r: Result<String, String>)
    ensures
        r matches Ok(b) && b@ == spec_machine_body(name@, image@, specs, region@, volume_id@, port),
{
    let mut b = "{\"config\":{\"guest\":{\"cpu_kind\":\"shared\",\"cpus\":".to_owned();
    b.append(u64_to_string(specs.cpu_count as u64).as_str());
    b.append(",\"memory_mb\":");
    b.append(u64_to_string(specs.memory_mb as u64).as_str());
    b.append("},\"image\":\"");
    b.append(escape_json(image).as_str());
    b.append("\",\"init\":{\"exec\":[\"/bin/sleep\",\"inf\"]},\"mounts\":[{\"encrypted\":true,\"name\":\"");
    b.append(escape_json(name).as_str());
    b.append("\",\"path\":\"/data\",\"size_gb\":");
    b.append(u64_to_string(specs.volume_gb as u64).as_str());
    b.append(",\"size_gb_limit\":500,\"volume\":\"");
    b.append(escape_json(volume_id).as_str());
    b.append("\"}]");
    if let Some(p) = port {
        b.append(",\"services\":[{\"internal_port\":");
        b.append(u64_to_string(p as u64).as_str());
        b.append(",\"ports\":[{\"handlers\":[\"http\"],\"port\":");
        b.append(u64_to_string(p as u64).as_str());
        b.append("}],\"protocol\":\"tcp\"}]");
    }
    b.append("},\"name\":\"");
    b.append(escape_json(name).as_str());
    b.append("\",\"region\":\"");
    b.append(escape_json(region).as_str());
    b.append("\"}");
    proof {
        assert(b@ =~= spec_machine_body(name@, image@, specs, region@, volume_id@, port));
    }
    Ok(b)
}

/// The port an instance exposes, read from the machine record's first
/// service; a machine without services exposes none.
pub open spec fn spec_port_of(m: MachineView) -> Option<u16> {
    match m.config.services {
        Some(ss) => if ss.len() > 0 {
            Some(ss[0].internal_port)
        } else {
            None
        },
        None => None,
    }
}

/// The instance a machine record materialises into: identifiers and
/// attributes are copied, the volume and its size come from the first
/// mount, the specs default to the sentinel when no guest shape is
/// reported, and the raw state string is collapsed by the state mapper.
pub open spec fn spec_instance_of(m: MachineView) -> InstanceView {
    InstanceView {
        machine_id: m.id,
        volume_id: if m.config.mounts.len() > 0 {
            m.config.mounts[0].volume
        } else {
            Seq::empty()
        },
        name: m.name,
        image: m.config.image,
        specs: match m.config.guest {
            Some(g) => InstanceSpecs {
                cpu_count: g.cpus,
                memory_mb: g.memory_mb,
                volume_gb: if m.config.mounts.len() > 0 {
                    m.config.mounts[0].size_gb
                } else {
                    0
                },
            },
            None => InstanceSpecs { cpu_count: 0, memory_mb: 0, volume_gb: 0 },
        },
        region: m.region,
        port: spec_port_of(m),
        state: spec_state_of(m.state),
    }
}

/// Materialises one machine record into an instance.
pub fn machine_to_instance(m: &Machine) -> (inst: Instance)
    ensures
        inst@ == spec_instance_of(m@),
{
    let volume_id: String = if m.config.mounts.len() > 0 {
        m.config.mounts[0].volume.clone()
    } else {
        String::new()
    };
    let specs: InstanceSpecs = match &m.config.guest {
        Some(g) => InstanceSpecs {
            cpu_count: g.cpus,
            memory_mb: g.memory_mb,
            volume_gb: if m.config.mounts.len() > 0 {
                m.config.mounts[0].size_gb
            } else {
                0
            },
        },
        None => InstanceSpecs::phony(),
    };
    let port: Option<u16> = match &m.config.services {
        Some(ss) => if ss.len() > 0 {
            Some(ss[0].internal_port)
        } else {
            None
        },
        None => None,
    };
    Instance {
        machine_id: m.id.clone(),
        volume_id,
        name: m.name.clone(),
        image: m.config.image.clone(),
        specs,
        region: m.region.clone(),
        port,
        state: parse_state(m.state.as_str()),
    }
}

/// Materialises a machine listing into the instance directory entries,
/// entry by entry; absent sub-objects default to empty values, so the
/// whole list never fails.
pub fn parse_response_body(machines: Vec<Machine>) -> (r: Result<Vec<Instance>, String>)
    ensures
        r matches Ok(list) && list@.len() == machines@.len(),
        r matches Ok(list) ==> forall|i: int|
            0 <= i < machines@.len() ==> (#[trigger] list@[i])@ == spec_instance_of(machines@[i]@),
{
    let mut list: Vec<Instance> = Vec::new();
    let mut i: usize = 0;
    while i < machines.len()
        invariant
            0 <= i <= machines.len(),
            list@.len() == i,
            forall|j: int| 0 <= j < i ==> (#[trigger] list@[j])@ == spec_instance_of(machines@[j]@),
        decreases machines.len() - i,
    {
        list.push(machine_to_instance(&machines[i]));
        i = i + 1;
    }
    Ok(list)
}

} // verus!
