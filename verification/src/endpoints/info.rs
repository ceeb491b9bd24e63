//! The description of the host that the gateway reports about itself.

use vstd::prelude::*;

verus! {

/// What the gateway reports about the machine it runs on.
#[derive(Debug)]
pub struct ServerInfoResponse {
    pub cpu: CpuInfo,
    pub memory: MemoryInfo,
    pub os: OsInfo,
    pub architecture: String,
    pub gpu: String,
}

#[derive(Debug)]
pub struct CpuInfo {
    pub model: String,
    pub cores: usize,
    pub frequency: u64,
    pub vendor: String,
}

#[derive(Debug)]
pub struct MemoryInfo {
    pub total: String,
    pub available: String,
    pub used: String,
}

#[derive(Debug)]
pub struct OsInfo {
    pub name: String,
    pub version: String,
    pub kernel: String,
}

/// The text reported for a property of the operating system that the host
/// does not disclose.
pub open spec fn unknown() -> Seq<char> {
    "Unknown"@
}

/// The text reported when the host has no graphics adapter.
pub open spec fn no_gpu() -> Seq<char> {
    "No GPU detected"@
}

/// The text that separates the names of several graphics adapters: a middle
/// dot between two spaces.
pub open spec fn gpu_separator() -> Seq<char> {
    " \u{b7} "@
}

/// The names `names[0..count]`, each but the first preceded by `separator`.
pub open spec fn joined(names: Seq<String>, separator: Seq<char>, count: nat) -> Seq<char>
    decreases count,
{
    if count == 0 {
        Seq::<char>::empty()
    } else if count == 1 {
        names[0]@
    } else {
        joined(names, separator, (count - 1) as nat) + separator + names[count - 1]@
    }
}

/// The one line that describes the graphics adapters with the given names.
pub open spec fn gpu_description(names: Seq<String>) -> Seq<char> {
    if names.len() == 0 {
        no_gpu()
    } else {
        joined(names, gpu_separator(), names.len())
    }
}

/// The given text, or `Unknown` where the host did not disclose it.
pub open spec fn or_unknown(text: Option<String>) -> Seq<char> {
    match text {
        Some(t) => t@,
        None => unknown(),
    }
}

fn text_or_unknown(text: Option<String>) -> (res: String)
    ensures
        res@ == or_unknown(text),
{
    match text {
        Some(t) => t,
        None => "Unknown".to_string(),
    }
}

impl CpuInfo {
    /// Describes the processor from what the host disclosed; a host that
    /// does not disclose its number of physical cores is reported with none.
    pub fn new(model: String, cores: Option<usize>, frequency: u64, vendor: String) -> (res: Self)
        ensures
            res.model@ == model@,
            res.cores == (match cores {
                Some(n) => n,
                None => 0,
            }),
            res.frequency == frequency,
            res.vendor@ == vendor@,
    {
        let cores = match cores {
            Some(n) => n,
            None => 0,
        };
        CpuInfo { model, cores, frequency, vendor }
    }
}

impl OsInfo {
    /// Describes the operating system from what the host disclosed.
    pub fn new(name: Option<String>, version: Option<String>, kernel: Option<String>) -> (res: Self)
        ensures
            res.name@ == or_unknown(name),
            res.version@ == or_unknown(version),
            res.kernel@ == or_unknown(kernel),
    {
        OsInfo {
            name: text_or_unknown(name),
            version: text_or_unknown(version),
            kernel: text_or_unknown(kernel),
        }
    }
}

/// The memory in use, in bytes: what is not available of the total. A host
/// that reports more available than total memory is reported with none in use.
pub fn used_memory(total: u64, available: u64) -> (res: u64)
    ensures
        res == if available <= total {
            total - available
        } else {
            0
        },
{
    if available <= total {
        total - available
    } else {
        0
    }
}

/// Describes the host's graphics adapters in one line: the only adapter's
/// name, several names separated by middle dots, or a note that there is none.
pub fn describe_gpus(names: &Vec<String>) -> (res: String)
    ensures
        res@ == gpu_description(names@),
{
    if names.len() == 0 {
        return "No GPU detected".to_string();
    }
    let mut line = names[0].clone();
    let mut i: usize = 1;
    while i < names.len()
        invariant
            1 <= i <= names.len(),
            line@ == joined(names@, gpu_separator(), i as nat),
        decreases names.len() - i,
    {
        line.append(" \u{b7} ");
        line.append(names[i].as_str());
        i += 1;
    }
    line
}

} // verus!
