use rocker::cgroup::{
    build_properties, cgroup_procs_paths, fetch_cgourp_v1_resource_paths,
    fetch_cgroup_v2_scope_path, parse_memory_limit, scope_unit_name, PropertyValue,
};
use rocker::errors::Error;

#[test]
fn mem_limit_plain_bytes() {
    assert_eq!(parse_memory_limit("123"), Ok(123));
}

#[test]
fn mem_limit_zero_is_accepted() {
    assert_eq!(parse_memory_limit("0"), Ok(0));
}

#[test]
fn mem_limit_512m() {
    assert_eq!(parse_memory_limit("512M"), Ok(512_000_000));
}

#[test]
fn mem_limit_2gb() {
    assert_eq!(parse_memory_limit("2GB"), Ok(2_000_000_000));
}

#[test]
fn mem_limit_all_si_units() {
    assert_eq!(parse_memory_limit("1K"), Ok(1_000));
    assert_eq!(parse_memory_limit("1KB"), Ok(1_000));
    assert_eq!(parse_memory_limit("1k"), Ok(1_000));
    assert_eq!(parse_memory_limit("1kb"), Ok(1_000));
    assert_eq!(parse_memory_limit("3m"), Ok(3_000_000));
    assert_eq!(parse_memory_limit("3MB"), Ok(3_000_000));
    assert_eq!(parse_memory_limit("7G"), Ok(7_000_000_000));
    assert_eq!(parse_memory_limit("7gb"), Ok(7_000_000_000));
    assert_eq!(parse_memory_limit("2T"), Ok(2_000_000_000_000));
    assert_eq!(parse_memory_limit("2tb"), Ok(2_000_000_000_000));
}

#[test]
fn mem_limit_empty_is_invalid() {
    assert_eq!(parse_memory_limit(""), Err(Error::InvalidMemoryLimit));
}

#[test]
fn mem_limit_letters_only_is_invalid() {
    assert_eq!(parse_memory_limit("abc"), Err(Error::InvalidMemoryLimit));
}

#[test]
fn mem_limit_unknown_unit_is_invalid() {
    assert_eq!(parse_memory_limit("10x"), Err(Error::InvalidMemoryLimit));
    assert_eq!(parse_memory_limit("10KiB"), Err(Error::InvalidMemoryLimit));
}

#[test]
fn mem_limit_mixed_case_unit_is_invalid() {
    assert_eq!(parse_memory_limit("1Kb"), Err(Error::InvalidMemoryLimit));
    assert_eq!(parse_memory_limit("1kB"), Err(Error::InvalidMemoryLimit));
}

#[test]
fn mem_limit_overflow_is_invalid() {
    assert_eq!(
        parse_memory_limit("99999999999999999999"),
        Err(Error::InvalidMemoryLimit)
    );
    assert_eq!(parse_memory_limit("99999999T"), Err(Error::InvalidMemoryLimit));
}

#[test]
fn properties_full_set() {
    let quota = (0.5f32 * 1_000_000.0).round() as u64;
    let props = build_properties(4242, Some("1M".to_string()), Some(quota), Some(100), "abc")
        .expect("limits are valid");
    assert_eq!(props.len(), 8);
    assert_eq!(props[0].name, "PIDs");
    match &props[0].value {
        PropertyValue::U32s(v) => assert_eq!(v, &vec![4242]),
        _ => panic!("PIDs must be a u32 array"),
    }
    assert_eq!(props[1].name, "Description");
    match &props[1].value {
        PropertyValue::Str(d) => assert_eq!(d, "rocker container: abc"),
        _ => panic!("Description must be a string"),
    }
    assert_eq!(props[2].name, "MemoryAccounting");
    assert!(matches!(props[2].value, PropertyValue::Bool(true)));
    assert_eq!(props[3].name, "MemoryMax");
    assert!(matches!(props[3].value, PropertyValue::U64(1_000_000)));
    assert_eq!(props[4].name, "CPUAccounting");
    assert!(matches!(props[4].value, PropertyValue::Bool(true)));
    assert_eq!(props[5].name, "CPUQuotaPerSecUSec");
    assert!(matches!(props[5].value, PropertyValue::U64(500_000)));
    assert_eq!(props[6].name, "TasksAccounting");
    assert!(matches!(props[6].value, PropertyValue::Bool(true)));
    assert_eq!(props[7].name, "TasksMax");
    assert!(matches!(props[7].value, PropertyValue::U64(100)));
}

#[test]
fn properties_without_limits() {
    let props = build_properties(7, None, None, None, "cafe00112233").expect("no limits to parse");
    assert_eq!(props.len(), 2);
    assert_eq!(props[0].name, "PIDs");
    assert_eq!(props[1].name, "Description");
    match &props[1].value {
        PropertyValue::Str(d) => assert_eq!(d, "rocker container: cafe00112233"),
        _ => panic!("Description must be a string"),
    }
}

#[test]
fn properties_bad_mem_limit_fails() {
    let r = build_properties(7, Some("lots".to_string()), None, None, "abc");
    assert_eq!(r.err(), Some(Error::InvalidMemoryLimit));
}

#[test]
fn scope_name_and_paths() {
    assert_eq!(scope_unit_name("abc"), "rocker-abc.scope");
    assert_eq!(
        fetch_cgroup_v2_scope_path("abc"),
        "/sys/fs/cgroup/system.slice/rocker-abc.scope"
    );
    let v1 = fetch_cgourp_v1_resource_paths("abc");
    assert_eq!(
        v1,
        vec![
            "/sys/fs/cgroup/cpu/system.slice/rocker-abc.scope".to_string(),
            "/sys/fs/cgroup/memory/system.slice/rocker-abc.scope".to_string(),
            "/sys/fs/cgroup/pids/system.slice/rocker-abc.scope".to_string(),
        ]
    );
}

#[test]
fn procs_paths_v2_and_v1() {
    let v2 = cgroup_procs_paths(true, "abc");
    assert_eq!(
        v2,
        vec!["/sys/fs/cgroup/system.slice/rocker-abc.scope/cgroup.procs".to_string()]
    );
    let v1 = cgroup_procs_paths(false, "abc");
    assert_eq!(
        v1,
        vec![
            "/sys/fs/cgroup/cpu/system.slice/rocker-abc.scope/cgroup.procs".to_string(),
            "/sys/fs/cgroup/memory/system.slice/rocker-abc.scope/cgroup.procs".to_string(),
            "/sys/fs/cgroup/pids/system.slice/rocker-abc.scope/cgroup.procs".to_string(),
        ]
    );
}
