//! Facts about the host machine and their presentation.
use vstd::prelude::*;
use vstd::string::StringExecFns;
use crate::text::{char_text, chars_of};

verus! {

/// Why a host fact could not be collected.
#[derive(Debug, Clone, PartialEq, Eq)]
pub enum SysInfoError {
    System(String),
    Nvml(String),
}

/// Operating system facts.
#[derive(Debug, Clone, PartialEq, Eq)]
pub struct OperatingSystemInfo {
    pub name: String,
    pub version: String,
    pub kernel_version: String,
    pub hostname: String,
    pub uptime: u64,
}

/// Processor facts; the frequency is in MHz.
#[derive(Debug, Clone, PartialEq, Eq)]
pub struct CpuInfo {
    pub brand: String,
    pub frequency: u64,
    pub physical_cores: usize,
    pub logical_cores: usize,
}

pub open spec fn sys_info_error_text(e: SysInfoError) -> Seq<char> {
    match e {
        SysInfoError::System(d) => "System info error: "@ + d@,
        SysInfoError::Nvml(d) => "NVML error: "@ + d@,
    }
}

impl SysInfoError {
    /// The error's text.
    pub fn message(&self) -> (r: String)
        ensures
            r@ == sys_info_error_text(*self),
    {
        match self {
            SysInfoError::System(d) => String::from_str("System info error: ").concat(d.as_str()),
            SysInfoError::Nvml(d) => String::from_str("NVML error: ").concat(d.as_str()),
        }
    }
}

/// The text of one decimal digit.
pub open spec fn digit_text(d: nat) -> Seq<char> {
    if d == 0 {
        "0"@
    } else if d == 1 {
        "1"@
    } else if d == 2 {
        "2"@
    } else if d == 3 {
        "3"@
    } else if d == 4 {
        "4"@
    } else if d == 5 {
        "5"@
    } else if d == 6 {
        "6"@
    } else if d == 7 {
        "7"@
    } else if d == 8 {
        "8"@
    } else {
        "9"@
    }
}

/// `n` written in decimal, without leading zeros.
pub open spec fn decimal(n: nat) -> Seq<char>
    decreases n,
{
    if n < 10 {
        digit_text(n)
    } else {
        decimal(n / 10) + digit_text(n % 10)
    }
}

/// An uptime in seconds as whole days, hours and minutes, leaving out the
/// leading units that are zero: `2d 3h 4m`, `3h 4m`, `4m`.
pub open spec fn uptime_text(seconds: nat) -> Seq<char> {
    let days = seconds / 86400;
    let hours = (seconds % 86400) / 3600;
    let minutes = (seconds % 3600) / 60;
    if days > 0 {
        decimal(days) + "d "@ + decimal(hours) + "h "@ + decimal(minutes) + "m"@
    } else if hours > 0 {
        decimal(hours) + "h "@ + decimal(minutes) + "m"@
    } else {
        decimal(minutes) + "m"@
    }
}

/// The name under which a storage device is shown: its mount point, reduced
/// to the first character and a colon when it ends in a path separator;
/// the raw device name when there is no mount point.
pub open spec fn display_name(raw_name: Seq<char>, mount_point: Seq<char>) -> Seq<char> {
    if mount_point.len() > 0 {
        if mount_point.last() == '\\' || mount_point.last() == '/' {
            seq![mount_point[0]] + ":"@
        } else {
            mount_point
        }
    } else {
        raw_name
    }
}

fn digit_string(d: u64) -> (r: String)
    requires
        d < 10,
    ensures
        r@ == digit_text(d as nat),
{
    if d == 0 {
        String::from_str("0")
    } else if d == 1 {
        String::from_str("1")
    } else if d == 2 {
        String::from_str("2")
    } else if d == 3 {
        String::from_str("3")
    } else if d == 4 {
        String::from_str("4")
    } else if d == 5 {
        String::from_str("5")
    } else if d == 6 {
        String::from_str("6")
    } else if d == 7 {
        String::from_str("7")
    } else if d == 8 {
        String::from_str("8")
    } else {
        String::from_str("9")
    }
}

/// `n` in decimal.
pub fn decimal_string(n: u64) -> (r: String)
    ensures
        r@ == decimal(n as nat),
{
    let mut rest: u64 = n;
    let mut tail = String::new();
    while rest >= 10
        invariant
            decimal(n as nat) == decimal(rest as nat) + tail@,
        decreases rest,
    {
        let d = digit_string(rest % 10);
        let ghost old_tail = tail@;
        tail = d.concat(tail.as_str());
        assert(decimal(rest as nat) == decimal((rest / 10) as nat) + digit_text((rest % 10) as nat));
        assert(decimal(rest as nat) + old_tail =~= decimal((rest / 10) as nat) + tail@);
        rest = rest / 10;
    }
    let head = digit_string(rest);
    head.concat(tail.as_str())
}

/// An uptime in seconds as a short human-readable text.
pub fn format_uptime(seconds: u64) -> (r: String)
    ensures
        r@ == uptime_text(seconds as nat),
{
    let days = seconds / 86400;
    let hours = (seconds % 86400) / 3600;
    let minutes = (seconds % 3600) / 60;
    if days > 0 {
        decimal_string(days).concat("d ").concat(decimal_string(hours).as_str()).concat(
            "h ",
        ).concat(decimal_string(minutes).as_str()).concat("m")
    } else if hours > 0 {
        decimal_string(hours).concat("h ").concat(decimal_string(minutes).as_str()).concat("m")
    } else {
        decimal_string(minutes).concat("m")
    }
}

/// A user-friendly name for a storage device.
pub fn create_display_name(raw_name: &str, mount_point: &str) -> (r: String)
    ensures
        r@ == display_name(raw_name@, mount_point@),
{
    let m = chars_of(mount_point);
    if m.len() > 0 {
        let last = m[m.len() - 1];
        if last == '\\' || last == '/' {
            char_text(m[0]).concat(":")
        } else {
            mount_point.to_owned()
        }
    } else {
        raw_name.to_owned()
    }
}

/// Whether `r` is a system error with the text `text`.
pub open spec fn is_system_error<T>(r: Result<T, SysInfoError>, text: Seq<char>) -> bool {
    match r {
        Err(SysInfoError::System(d)) => d@ == text,
        _ => false,
    }
}

/// The processor summary, from the first processor's brand and frequency,
/// the number of logical processors and the physical core count when it is
/// known; an error when no processor was found.
pub fn summarize_cpus(
    first: Option<(String, u64)>,
    logical_cores: usize,
    physical_cores: Option<usize>,
) -> (r: Result<CpuInfo, SysInfoError>)
    ensures
        first is None ==> is_system_error(r, "No CPUs found"@),
        first is Some <==> r is Ok,
        r matches Ok(c) ==> ({
            &&& c.brand@ == (first->0).0@
            &&& c.frequency == (first->0).1
            &&& c.logical_cores == logical_cores
            &&& c.physical_cores == (match physical_cores {
                Some(p) => p,
                None => 0,
            })
        }),
{
    match first {
        None => Err(SysInfoError::System(String::from_str("No CPUs found"))),
        Some((brand, frequency)) => {
            let physical = match physical_cores {
                Some(p) => p,
                None => 0,
            };
            Ok(CpuInfo { brand, frequency, physical_cores: physical, logical_cores })
        },
    }
}

/// The operating system summary; the first fact that is missing gives the
/// error, in the order name, version, kernel version, host name.
pub fn summarize_os(
    name: Option<String>,
    version: Option<String>,
    kernel_version: Option<String>,
    uptime: u64,
    hostname: Result<String, SysInfoError>,
) -> (r: Result<OperatingSystemInfo, SysInfoError>)
    ensures
        name is None ==> is_system_error(r, "Could not determine OS name"@),
        name is Some && version is None ==> is_system_error(r, "Could not determine OS version"@),
        name is Some && version is Some && kernel_version is None ==> is_system_error(
            r,
            "Could not determine kernel version"@,
        ),
        name is Some && version is Some && kernel_version is Some && hostname is Err ==> r
            == Err::<OperatingSystemInfo, SysInfoError>(hostname->Err_0),
        r is Ok <==> (name is Some && version is Some && kernel_version is Some && hostname is Ok),
        r matches Ok(o) ==> ({
            &&& o.name@ == name->0@
            &&& o.version@ == version->0@
            &&& o.kernel_version@ == kernel_version->0@
            &&& o.hostname@ == hostname->Ok_0@
            &&& o.uptime == uptime
        }),
{
    let name = match name {
        Some(n) => n,
        None => {
            return Err(SysInfoError::System(String::from_str("Could not determine OS name")));
        },
    };
    let version = match version {
        Some(v) => v,
        None => {
            return Err(SysInfoError::System(String::from_str("Could not determine OS version")));
        },
    };
    let kernel_version = match kernel_version {
        Some(k) => k,
        None => {
            return Err(
                SysInfoError::System(String::from_str("Could not determine kernel version")),
            );
        },
    };
    match hostname {
        Ok(hostname) => Ok(OperatingSystemInfo { name, version, kernel_version, hostname, uptime }),
        Err(e) => Err(e),
    }
}

} // verus!
