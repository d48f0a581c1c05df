//! Validating parsers for creation inputs: an earlier generation of the
//! command-line validators, kept alongside [`crate::value_parsers`].

use vstd::prelude::*;

use crate::numeric::{dec_val, parse_u32, parses_to_u32, str_eq, unsigned_digits};

verus! {

/// The numeric value a decimal parse of `s` yields.
pub open spec fn parsed_val(s: Seq<char>) -> nat {
    dec_val(unsigned_digits(s))
}

/// Parses a CPU count, accepting one through sixteen.
pub fn parse_cpu(count: &str) -> (r: Result<u32, String>)
    ensures
        match r {
            Ok(v) => parses_to_u32(count@) && v == parsed_val(count@) && 1 <= v <= 16,
            Err(e) => {
                &&& !(parses_to_u32(count@) && 1 <= parsed_val(count@) <= 16)
                &&& !parses_to_u32(count@) ==> e@ == "Invalid number of CPUs"@
                &&& parses_to_u32(count@) ==> e@ == "Number of CPUs must be between 1 and 16"@
            },
        },
{
    match parse_u32(count) {
        None => Err("Invalid number of CPUs".to_owned()),
        Some(value) => {
            if value >= 1 && value <= 16 {
                Ok(value)
            } else {
                Err("Number of CPUs must be between 1 and 16".to_owned())
            }
        },
    }
}

/// Resolves an image alias: `"base"` stands for the Python image in this
/// generation; any other string is taken verbatim.
pub fn parse_image(image: &str) -> (r: Result<String, String>)
    ensures
        r matches Ok(s) && (if image@ == "base"@ {
            s@ == "registry-1.docker.io/library/python:latest"@
        } else {
            s@ == image@
        }),
{
    if str_eq(image, "base") {
        Ok("registry-1.docker.io/library/python:latest".to_owned())
    } else {
        Ok(image.to_owned())
    }
}

/// The requested memory amount rounded to the nearest step of 256 MB.
pub open spec fn rounded_memory(v: nat) -> nat {
    (v + 128) / 256 * 256
}

/// Parses a memory amount in megabytes, rounding to 256 MB steps and
/// accepting results between 256 and 32768.
pub fn parse_memory(amount: &str) -> (r: Result<u32, String>)
    ensures
        match r {
            Ok(v) => parses_to_u32(amount@) && v == rounded_memory(parsed_val(amount@)) && 256 <= v
                <= 32768,
            Err(e) => {
                &&& !(parses_to_u32(amount@) && 256 <= rounded_memory(parsed_val(amount@))
                    <= 32768)
                &&& !parses_to_u32(amount@) ==> e@ == "Invalid amount of memory"@
                &&& parses_to_u32(amount@) ==> e@ == "Memory must be between 256 and 32768"@
            },
        },
{
    match parse_u32(amount) {
        None => Err("Invalid amount of memory".to_owned()),
        Some(value) => {
            let rounded: u64 = (value as u64 + 128) / 256 * 256;
            proof {
                assert(rounded == rounded_memory(value as nat));
            }
            if rounded >= 256 && rounded <= 32768 {
                Ok(rounded as u32)
            } else {
                Err("Memory must be between 256 and 32768".to_owned())
            }
        },
    }
}

/// Parses a volume size in gigabytes, accepting one through five
/// hundred.
pub fn parse_volume(size: &str) -> (r: Result<u32, String>)
    ensures
        match r {
            Ok(v) => parses_to_u32(size@) && v == parsed_val(size@) && 1 <= v <= 500,
            Err(e) => {
                &&& !(parses_to_u32(size@) && 1 <= parsed_val(size@) <= 500)
                &&& !parses_to_u32(size@) ==> e@ == "Invalid volume size"@
                &&& parses_to_u32(size@) ==> e@ == "Size of volume must be between 1 and 500 gb"@
            },
        },
{
    match parse_u32(size) {
        None => Err("Invalid volume size".to_owned()),
        Some(value) => {
            if value >= 1 && value <= 500 {
                Ok(value)
            } else {
                Err("Size of volume must be between 1 and 500 gb".to_owned())
            }
        },
    }
}

/// Parses a service port, accepting 1024 through 65535.
pub fn parse_port(port: &str) -> (r: Result<u16, String>)
    ensures
        match r {
            Ok(v) => parses_to_u32(port@) && v == parsed_val(port@) && 1024 <= v,
            Err(e) => {
                &&& !(parses_to_u32(port@) && 1024 <= parsed_val(port@) <= u16::MAX)
                &&& !(parses_to_u32(port@) && parsed_val(port@) <= u16::MAX) ==> e@
                    == "Invalid port"@
                &&& parses_to_u32(port@) && parsed_val(port@) <= u16::MAX && parsed_val(port@)
                    < 1024 ==> e@ == "Port must be between 1024 and 65535"@
            },
        },
{
    match parse_u32(port) {
        None => Err("Invalid port".to_owned()),
        Some(value) => {
            if value > 65535 {
                Err("Invalid port".to_owned())
            } else if value >= 1024 {
                Ok(value as u16)
            } else {
                Err("Port must be between 1024 and 65535".to_owned())
            }
        },
    }
}

} // verus!
