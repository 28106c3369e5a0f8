//! Best-effort discovery of helper processes that this core did not spawn
//! directly.
//!
//! A discovery pass scans a snapshot of the OS process table for an
//! executable name in a known tool set whose command line contains the target
//! asset path or URL as a substring, and records the first match. The
//! snapshot itself is taken by the surrounding program; the matching rule is
//! verified here. The mechanism is inherently approximate and is a fallback
//! for indirectly-owned processes, not an authoritative control channel.

use vstd::prelude::*;

use crate::text::{contains_substr, spec_contains, str_eq};

verus! {

/// One row of a process-table snapshot.
#[derive(Debug, Clone)]
pub struct ProcessRecord {
    /// The process id.
    pub pid: u32,
    /// The executable name.
    pub name: String,
    /// The full command line.
    pub cmdline: String,
}

/// Whether a name is one of the given tool names.
pub open spec fn spec_name_in(name: Seq<char>, tools: Seq<String>) -> bool {
    exists|t: int| 0 <= t < tools.len() && tools[t]@ == name
}

/// Whether a process-table row matches a discovery pass: its executable is
/// one of the known tools and its command line contains the needle.
pub open spec fn spec_record_matches(
    rec: ProcessRecord,
    tools: Seq<String>,
    needle: Seq<char>,
) -> bool {
    spec_name_in(rec.name@, tools) && spec_contains(rec.cmdline@, needle)
}

/// Whether a name equals one of the given tool names.
fn name_in(name: &str, tools: &Vec<String>) -> (r: bool)
    ensures
        r == spec_name_in(name@, tools@),
{
    let n = tools.len();
    let mut i: usize = 0;
    while i < n
        invariant
            i <= n,
            n == tools@.len(),
            forall|j: int| 0 <= j < i ==> tools@[j]@ != name@,
        decreases n - i,
    {
        if str_eq(tools[i].as_str(), name) {
            return true;
        }
        i = i + 1;
    }
    false
}

/// One discovery pass: the pid of the first process-table row whose
/// executable is a known tool and whose command line contains the needle.
pub fn find_process(procs: &Vec<ProcessRecord>, tools: &Vec<String>, needle: &str) -> (r: Option<
    u32,
>)
    ensures
        match r {
            Some(p) => exists|k: int|
                0 <= k < procs@.len() && (#[trigger] spec_record_matches(
                    procs@[k],
                    tools@,
                    needle@,
                )) && procs@[k].pid == p && (forall|j: int|
                    0 <= j < k ==> !spec_record_matches(procs@[j], tools@, needle@)),
            None => forall|k: int|
                0 <= k < procs@.len() ==> !spec_record_matches(procs@[k], tools@, needle@),
        },
{
    let n = procs.len();
    let mut i: usize = 0;
    while i < n
        invariant
            i <= n,
            n == procs@.len(),
            forall|j: int| 0 <= j < i ==> !spec_record_matches(procs@[j], tools@, needle@),
        decreases n - i,
    {
        if name_in(procs[i].name.as_str(), tools) && contains_substr(
            procs[i].cmdline.as_str(),
            needle,
        ) {
            assert(spec_record_matches(procs@[i as int], tools@, needle@));
            return Some(procs[i].pid);
        }
        i = i + 1;
    }
    None
}

/// The tool names a shader-wallpaper discovery pass scans for, in order.
pub fn shader_tool_names() -> (r: Vec<String>)
    ensures
        r@.len() == 2,
        r@[0]@ == "shadertoy"@,
        r@[1]@ == "glslviewer"@,
{
    let mut v: Vec<String> = Vec::new();
    v.push("shadertoy".to_owned());
    v.push("glslviewer".to_owned());
    v
}

/// The tool names an audio-wallpaper discovery pass scans for, in order.
pub fn audio_tool_names() -> (r: Vec<String>)
    ensures
        r@.len() == 4,
        r@[0]@ == "shadertoy"@,
        r@[1]@ == "vlc"@,
        r@[2]@ == "audacious"@,
        r@[3]@ == "cava"@,
{
    let mut v: Vec<String> = Vec::new();
    v.push("shadertoy".to_owned());
    v.push("vlc".to_owned());
    v.push("audacious".to_owned());
    v.push("cava".to_owned());
    v
}

/// The browser names a web-wallpaper discovery pass scans for, in order.
pub fn browser_tool_names() -> (r: Vec<String>)
    ensures
        r@.len() == 3,
        r@[0]@ == "firefox"@,
        r@[1]@ == "chrome"@,
        r@[2]@ == "chromium"@,
{
    let mut v: Vec<String> = Vec::new();
    v.push("firefox".to_owned());
    v.push("chrome".to_owned());
    v.push("chromium".to_owned());
    v
}

/// The fixed settle delay, in milliseconds, between spawning a helper and
/// the discovery pass that looks for it.
pub const SETTLE_DELAY_MILLIS: u64 = 500;

} // verus!
