use spsd::numeric::{parse_u32, str_eq, u64_to_string};
use spsd::parsers;
use spsd::value_parsers;

#[test]
fn parse_u32_reads_decimal_numerals() {
    assert_eq!(parse_u32("0"), Some(0));
    assert_eq!(parse_u32("42"), Some(42));
    assert_eq!(parse_u32("007"), Some(7));
    assert_eq!(parse_u32("+7"), Some(7));
    assert_eq!(parse_u32("4294967295"), Some(u32::MAX));
}

#[test]
fn parse_u32_rejects_junk_and_overflow() {
    assert_eq!(parse_u32(""), None);
    assert_eq!(parse_u32("+"), None);
    assert_eq!(parse_u32("-1"), None);
    assert_eq!(parse_u32("12a"), None);
    assert_eq!(parse_u32("4294967296"), None);
    assert_eq!(parse_u32("99999999999999999999"), None);
}

#[test]
fn u64_to_string_renders_decimal() {
    assert_eq!(u64_to_string(0), "0");
    assert_eq!(u64_to_string(7), "7");
    assert_eq!(u64_to_string(12345), "12345");
    assert_eq!(u64_to_string(u64::MAX), "18446744073709551615");
}

#[test]
fn str_eq_compares_characterwise() {
    assert!(str_eq("abc", "abc"));
    assert!(!str_eq("abc", "abd"));
    assert!(!str_eq("abc", "ab"));
    assert!(str_eq("", ""));
}

#[test]
fn parse_cpu_accepts_one_through_sixteen() {
    assert_eq!(parsers::parse_cpu("1"), Ok(1));
    assert_eq!(parsers::parse_cpu("16"), Ok(16));
    assert_eq!(
        parsers::parse_cpu("0"),
        Err("Number of CPUs must be between 1 and 16".to_string())
    );
    assert_eq!(
        parsers::parse_cpu("17"),
        Err("Number of CPUs must be between 1 and 16".to_string())
    );
    assert_eq!(parsers::parse_cpu("abc"), Err("Invalid number of CPUs".to_string()));
}

#[test]
fn parse_memory_rounds_to_256_steps() {
    assert_eq!(parsers::parse_memory("512"), Ok(512));
    assert_eq!(parsers::parse_memory("1000"), Ok(1024));
    assert_eq!(parsers::parse_memory("300"), Ok(256));
    assert_eq!(
        parsers::parse_memory("100"),
        Err("Memory must be between 256 and 32768".to_string())
    );
    assert_eq!(
        parsers::parse_memory("40000"),
        Err("Memory must be between 256 and 32768".to_string())
    );
    assert_eq!(parsers::parse_memory("x"), Err("Invalid amount of memory".to_string()));
}

#[test]
fn parse_volume_accepts_one_through_five_hundred() {
    assert_eq!(parsers::parse_volume("1"), Ok(1));
    assert_eq!(parsers::parse_volume("50"), Ok(50));
    assert_eq!(parsers::parse_volume("500"), Ok(500));
    assert_eq!(
        parsers::parse_volume("501"),
        Err("Size of volume must be between 1 and 500 gb".to_string())
    );
    assert_eq!(
        parsers::parse_volume("0"),
        Err("Size of volume must be between 1 and 500 gb".to_string())
    );
    assert_eq!(parsers::parse_volume("ten"), Err("Invalid volume size".to_string()));
}

#[test]
fn parse_port_accepts_high_ports() {
    assert_eq!(parsers::parse_port("1024"), Ok(1024));
    assert_eq!(parsers::parse_port("8080"), Ok(8080));
    assert_eq!(parsers::parse_port("65535"), Ok(65535));
    assert_eq!(
        parsers::parse_port("80"),
        Err("Port must be between 1024 and 65535".to_string())
    );
    assert_eq!(parsers::parse_port("70000"), Err("Invalid port".to_string()));
    assert_eq!(parsers::parse_port("http"), Err("Invalid port".to_string()));
}

#[test]
fn parse_image_aliases_differ_by_generation() {
    assert_eq!(
        parsers::parse_image("base"),
        Ok("registry-1.docker.io/library/python:latest".to_string())
    );
    assert_eq!(
        value_parsers::parse_image("base"),
        Ok("registry-1.docker.io/library/ubuntu:latest".to_string())
    );
    assert_eq!(
        value_parsers::parse_image("rust"),
        Ok("registry-1.docker.io/library/rust:latest".to_string())
    );
    assert_eq!(
        value_parsers::parse_image("node"),
        Ok("registry-1.docker.io/library/node:latest".to_string())
    );
    assert_eq!(
        value_parsers::parse_image("ghcr.io/me/mine:v1"),
        Ok("ghcr.io/me/mine:v1".to_string())
    );
}

#[test]
fn value_parsers_match_the_first_generation_on_numbers() {
    assert_eq!(value_parsers::parse_cpu("8"), Ok(8));
    assert_eq!(value_parsers::parse_memory("768"), Ok(768));
    assert_eq!(value_parsers::parse_volume("25"), Ok(25));
    assert_eq!(value_parsers::parse_volume("500"), Ok(500));
    assert_eq!(
        value_parsers::parse_volume("501"),
        Err("Size of volume must be between 1 and 500 gb".to_string())
    );
    assert_eq!(value_parsers::parse_port("2048"), Ok(2048));
}

#[test]
fn parse_region_knows_the_fixed_set() {
    assert_eq!(value_parsers::parse_region("iad"), Ok("iad".to_string()));
    assert_eq!(value_parsers::parse_region("ams"), Ok("ams".to_string()));
    assert_eq!(value_parsers::parse_region("yyz"), Ok("yyz".to_string()));
    assert_eq!(value_parsers::parse_region("xyz"), Err("Invalid region".to_string()));
    assert_eq!(value_parsers::parse_region(""), Err("Invalid region".to_string()));
}
