//! Resource limits: the memory-limit grammar, the property vector for the
//! systemd transient scope, and the cgroup filesystem paths.

use vstd::prelude::*;

use crate::errors::Error;
use crate::strutil::{digits_val, is_dec_digit, parse_decimal};

verus! {

/// Multiplier for a one-letter unit. SI multipliers, not binary.
pub open spec fn letter_multiplier(c: char) -> Option<u64> {
    if c == 'K' || c == 'k' {
        Some(1000)
    } else if c == 'M' || c == 'm' {
        Some(1000000)
    } else if c == 'G' || c == 'g' {
        Some(1000000000)
    } else if c == 'T' || c == 't' {
        Some(1000000000000)
    } else {
        None
    }
}

/// Multiplier for a memory-limit unit suffix: empty (bytes), one letter
/// (`K`/`M`/`G`/`T`, either case), or the letter followed by a `B` of the
/// same case. Mixed-case spellings such as `Kb` are not recognized.
pub open spec fn unit_multiplier(u: Seq<char>) -> Option<u64> {
    if u.len() == 0 {
        Some(1)
    } else if u.len() == 1 {
        letter_multiplier(u[0])
    } else if u.len() == 2 && ((u[1] == 'B' && (u[0] == 'K' || u[0] == 'M' || u[0] == 'G' || u[0]
        == 'T')) || (u[1] == 'b' && (u[0] == 'k' || u[0] == 'm' || u[0] == 'g' || u[0] == 't'))) {
        letter_multiplier(u[0])
    } else {
        None
    }
}

/// Is `k` the length of the leading run of decimal digits of `s`?
pub open spec fn is_digit_prefix_len(s: Seq<char>, k: int) -> bool {
    &&& 0 <= k <= s.len()
    &&& forall|i: int| 0 <= i < k ==> is_dec_digit(#[trigger] s[i])
    &&& (k == s.len() || !is_dec_digit(s[k]))
}

/// Length of the leading run of decimal digits of `s`.
pub open spec fn digit_prefix_len(s: Seq<char>) -> int {
    choose|k: int| is_digit_prefix_len(s, k)
}

/// The digit prefix length is unique, so `digit_prefix_len` returns exactly
/// the witness.
pub proof fn lemma_digit_prefix_len_is(s: Seq<char>, k: int)
    requires
        is_digit_prefix_len(s, k),
    ensures
        digit_prefix_len(s) == k,
{
    let k2 = digit_prefix_len(s);
    assert(is_digit_prefix_len(s, k2));
    if k2 < k {
        assert(is_dec_digit(s[k2]));
        assert(false);
    }
    if k < k2 {
        assert(is_dec_digit(s[k]));
        assert(false);
    }
}

/// What a memory-limit string means: `<digits><unit>` yields
/// `digits * multiplier`; anything else (no digits, unrecognized unit,
/// or a value over `u64::MAX`) is rejected.
pub open spec fn mem_limit_spec(s: Seq<char>) -> Option<u64> {
    let k = digit_prefix_len(s);
    if k == 0 {
        None
    } else {
        let v = digits_val(s.subrange(0, k));
        match unit_multiplier(s.subrange(k, s.len() as int)) {
            Some(m) => {
                if v * m <= u64::MAX {
                    Some((v * m) as u64)
                } else {
                    None
                }
            },
            None => None,
        }
    }
}

fn letter_mult(c: char) -> (r: Option<u64>)
    ensures
        r == letter_multiplier(c),
{
    if c == 'K' || c == 'k' {
        Some(1000)
    } else if c == 'M' || c == 'm' {
        Some(1000000)
    } else if c == 'G' || c == 'g' {
        Some(1000000000)
    } else if c == 'T' || c == 't' {
        Some(1000000000000)
    } else {
        None
    }
}

fn digit_at(s: &str, i: usize) -> (r: bool)
    requires
        i < s@.len(),
    ensures
        r == is_dec_digit(s@[i as int]),
{
    let c = s.get_char(i);
    '0' <= c && c <= '9'
}

/// Parse a memory limit such as `512M` or `2GB` into a byte count.
pub fn parse_memory_limit(mem: &str) -> (r: Result<u64, Error>)
    ensures
        match r {
            Ok(v) => mem_limit_spec(mem@) == Some(v),
            Err(e) => e == Error::InvalidMemoryLimit && mem_limit_spec(mem@) is None,
        },
{
    let n = mem.unicode_len();
    let mut k: usize = 0;
    while k < n && digit_at(mem, k)
        invariant
            k <= n,
            n == mem@.len(),
            forall|i: int| 0 <= i < k ==> is_dec_digit(#[trigger] mem@[i]),
        decreases n - k,
    {
        k = k + 1;
    }
    proof {
        lemma_digit_prefix_len_is(mem@, k as int);
    }
    if k == 0 {
        return Err(Error::InvalidMemoryLimit);
    }
    let v = match parse_decimal(mem, 0, k) {
        Some(v) => v,
        None => {
            proof {
                let u_all = mem@.subrange(k as int, n as int);
                let v_big = digits_val(mem@.subrange(0, k as int));
                if unit_multiplier(u_all) is Some {
                    let m0 = unit_multiplier(u_all).unwrap();
                    assert(v_big * m0 >= v_big) by (nonlinear_arith)
                        requires
                            m0 >= 1,
                            v_big >= 0,
                    ;
                }
            }
            return Err(Error::InvalidMemoryLimit);
        },
    };
    let ghost u = mem@.subrange(k as int, n as int);
    let m: u64 = if k == n {
        1
    } else if k + 1 == n {
        let c = mem.get_char(k);
        proof {
            assert(u.len() == 1);
            assert(u[0] == c);
        }
        match letter_mult(c) {
            Some(m) => m,
            None => {
                return Err(Error::InvalidMemoryLimit);
            },
        }
    } else if k + 2 == n {
        let c0 = mem.get_char(k);
        let c1 = mem.get_char(k + 1);
        proof {
            assert(u.len() == 2);
            assert(u[0] == c0);
            assert(u[1] == c1);
        }
        let well_cased = (c1 == 'B' && (c0 == 'K' || c0 == 'M' || c0 == 'G' || c0 == 'T')) || (c1
            == 'b' && (c0 == 'k' || c0 == 'm' || c0 == 'g' || c0 == 't'));
        if well_cased {
            match letter_mult(c0) {
                Some(m) => m,
                None => {
                    proof {
                        assert(false);
                    }
                    return Err(Error::InvalidMemoryLimit);
                },
            }
        } else {
            return Err(Error::InvalidMemoryLimit);
        }
    } else {
        proof {
            assert(u.len() > 2);
        }
        return Err(Error::InvalidMemoryLimit);
    };
    match v.checked_mul(m) {
        Some(bytes) => Ok(bytes),
        None => Err(Error::InvalidMemoryLimit),
    }
}

/// A value in the property vector handed to the transient-scope call.
pub enum PropertyValue {
    U32s(Vec<u32>),
    Str(String),
    Bool(bool),
    U64(u64),
}

/// One named property of the transient scope unit.
pub struct Property {
    pub name: String,
    pub value: PropertyValue,
}

/// Build the property vector for `StartTransientUnit`: always the target PID
/// and a description; memory, CPU and task limits only when supplied. The
/// CPU quota arrives already rounded to microseconds per second.
pub fn build_properties(
    target_pid: u32,
    mem: Option<String>,
    cpu_quota_per_sec_usec: Option<u64>,
    pids: Option<i32>,
    container_id: &str,
) -> (r: Result<Vec<Property>, Error>)
    ensures
        match r {
            Ok(props) => ({
                let n_mem: int = if mem is Some {
                    2
                } else {
                    0
                };
                let n_cpu: int = if cpu_quota_per_sec_usec is Some {
                    2
                } else {
                    0
                };
                let n_pid: int = if pids is Some {
                    2
                } else {
                    0
                };
                &&& props@.len() == 2 + n_mem + n_cpu + n_pid
                &&& props@[0].name@ == "PIDs"@
                &&& props@[0].value matches PropertyValue::U32s(v) && v@ == seq![target_pid]
                &&& props@[1].name@ == "Description"@
                &&& props@[1].value matches PropertyValue::Str(d) && d@ == "rocker container: "@
                    + container_id@
                &&& mem matches Some(ms) ==> {
                    &&& mem_limit_spec(ms@) is Some
                    &&& props@[2].name@ == "MemoryAccounting"@
                    &&& props@[2].value matches PropertyValue::Bool(b) && b == true
                    &&& props@[3].name@ == "MemoryMax"@
                    &&& props@[3].value matches PropertyValue::U64(v) && v == mem_limit_spec(
                        ms@,
                    ).unwrap()
                }
                &&& cpu_quota_per_sec_usec matches Some(q) ==> {
                    &&& props@[2 + n_mem].name@ == "CPUAccounting"@
                    &&& props@[2 + n_mem].value matches PropertyValue::Bool(b) && b == true
                    &&& props@[3 + n_mem].name@ == "CPUQuotaPerSecUSec"@
                    &&& props@[3 + n_mem].value matches PropertyValue::U64(v) && v == q
                }
                &&& pids matches Some(p) ==> {
                    &&& props@[2 + n_mem + n_cpu].name@ == "TasksAccounting"@
                    &&& props@[2 + n_mem + n_cpu].value matches PropertyValue::Bool(b) && b == true
                    &&& props@[3 + n_mem + n_cpu].name@ == "TasksMax"@
                    &&& props@[3 + n_mem + n_cpu].value matches PropertyValue::U64(v) && v == p
                        as u64
                }
            }),
            Err(e) => {
                &&& e == Error::InvalidMemoryLimit
                &&& mem matches Some(ms) && mem_limit_spec(ms@) is None
            },
        },
{
    let mut props: Vec<Property> = Vec::new();
    let mut pid_vec: Vec<u32> = Vec::new();
    pid_vec.push(target_pid);
    props.push(
        Property { name: String::from_str("PIDs"), value: PropertyValue::U32s(pid_vec) },
    );
    props.push(
        Property {
            name: String::from_str("Description"),
            value: PropertyValue::Str(
                String::from_str("rocker container: ").concat(container_id),
            ),
        },
    );
    match mem {
        Some(ms) => {
            let mem_bytes = match parse_memory_limit(ms.as_str()) {
                Ok(v) => v,
                Err(e) => {
                    return Err(e);
                },
            };
            props.push(
                Property {
                    name: String::from_str("MemoryAccounting"),
                    value: PropertyValue::Bool(true),
                },
            );
            props.push(
                Property {
                    name: String::from_str("MemoryMax"),
                    value: PropertyValue::U64(mem_bytes),
                },
            );
        },
        None => {},
    }
    match cpu_quota_per_sec_usec {
        Some(q) => {
            props.push(
                Property {
                    name: String::from_str("CPUAccounting"),
                    value: PropertyValue::Bool(true),
                },
            );
            props.push(
                Property {
                    name: String::from_str("CPUQuotaPerSecUSec"),
                    value: PropertyValue::U64(q),
                },
            );
        },
        None => {},
    }
    match pids {
        Some(p) => {
            props.push(
                Property {
                    name: String::from_str("TasksAccounting"),
                    value: PropertyValue::Bool(true),
                },
            );
            props.push(
                Property { name: String::from_str("TasksMax"), value: PropertyValue::U64(p as u64) },
            );
        },
        None => {},
    }
    Ok(props)
}

/// Unit name of the transient scope that owns the container's processes.
pub fn scope_unit_name(container_id: &str) -> (r: String)
    ensures
        r@ == "rocker-"@ + container_id@ + ".scope"@,
{
    String::from_str("rocker-").concat(container_id).concat(".scope")
}

/// Path of the container's scope directory under the unified (v2) hierarchy.
pub fn fetch_cgroup_v2_scope_path(container_id: &str) -> (r: String)
    ensures
        r@ == "/sys/fs/cgroup/system.slice/rocker-"@ + container_id@ + ".scope"@,
{
    String::from_str("/sys/fs/cgroup/system.slice/rocker-").concat(container_id).concat(".scope")
}

fn cgroup_v1_path(controller: &str, container_id: &str) -> (r: String)
    ensures
        r@ == "/sys/fs/cgroup/"@ + controller@ + "/system.slice/rocker-"@ + container_id@
            + ".scope"@,
{
    String::from_str("/sys/fs/cgroup/").concat(controller).concat(
        "/system.slice/rocker-",
    ).concat(container_id).concat(".scope")
}

/// Paths of the container's scope directories under the legacy (v1)
/// hierarchy, one per supported controller: cpu, memory, pids.
pub fn fetch_cgourp_v1_resource_paths(container_id: &str) -> (r: Vec<String>)
    ensures
        r@.len() == 3,
        r@[0]@ == "/sys/fs/cgroup/"@ + "cpu"@ + "/system.slice/rocker-"@ + container_id@
            + ".scope"@,
        r@[1]@ == "/sys/fs/cgroup/"@ + "memory"@ + "/system.slice/rocker-"@ + container_id@
            + ".scope"@,
        r@[2]@ == "/sys/fs/cgroup/"@ + "pids"@ + "/system.slice/rocker-"@ + container_id@
            + ".scope"@,
{
    let mut paths: Vec<String> = Vec::new();
    paths.push(cgroup_v1_path("cpu", container_id));
    paths.push(cgroup_v1_path("memory", container_id));
    paths.push(cgroup_v1_path("pids", container_id));
    paths
}

/// The `cgroup.procs` files a joining PID must be appended to: one file under
/// the unified hierarchy, or one per controller under the legacy hierarchy.
pub fn cgroup_procs_paths(cgroup_v2: bool, container_id: &str) -> (r: Vec<String>)
    ensures
        cgroup_v2 ==> r@.len() == 1 && r@[0]@ == ("/sys/fs/cgroup/system.slice/rocker-"@
            + container_id@ + ".scope"@) + "/cgroup.procs"@,
        !cgroup_v2 ==> r@.len() == 3 && (forall|i: int|
            0 <= i < 3 ==> #[trigger] r@[i]@ == ("/sys/fs/cgroup/"@ + controller_name(i)
                + "/system.slice/rocker-"@ + container_id@ + ".scope"@) + "/cgroup.procs"@),
{
    let mut out: Vec<String> = Vec::new();
    if cgroup_v2 {
        out.push(fetch_cgroup_v2_scope_path(container_id).concat("/cgroup.procs"));
    } else {
        let paths = fetch_cgourp_v1_resource_paths(container_id);
        out.push(paths[0].clone().concat("/cgroup.procs"));
        out.push(paths[1].clone().concat("/cgroup.procs"));
        out.push(paths[2].clone().concat("/cgroup.procs"));
    }
    out
}

/// The controller that the `i`-th legacy-hierarchy path belongs to.
pub open spec fn controller_name(i: int) -> Seq<char> {
    if i == 0 {
        "cpu"@
    } else if i == 1 {
        "memory"@
    } else {
        "pids"@
    }
}

} // verus!
