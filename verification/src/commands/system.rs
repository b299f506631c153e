//! `/sysinfo`: what the host reports about itself.

use vstd::prelude::*;
use crate::commands::embed::{Embed, field, field_is};
use crate::sysinfo::{format_uptime, uptime_text};
use crate::text::{join, join_all, views};

verus! {

/// The colour of `/sysinfo` replies.
pub const SYSINFO_COLOR: u32 = 0x00FF00;

/// The figures of a `/sysinfo` reply; the CPU, memory, swap, disk and
/// network texts hold sizes and shares computed in floating point and come
/// rendered.
pub struct SysInfoTexts {
    pub hostname: String,
    pub os: String,
    pub kernel: String,
    pub uptime_secs: u64,
    pub cpu: String,
    pub memory: String,
    pub swap: String,
    pub disk_lines: Vec<String>,
    pub network_lines: Vec<String>,
}

/// The reply to `/sysinfo`: host name, system, kernel and uptime, then CPU,
/// memory, swap, one line per disk and one per network interface.
pub fn sysinfo_embed(t: &SysInfoTexts) -> (e: Embed)
    ensures
        e.title@ == "🖥️ System Information"@,
        e.url is None,
        e.thumbnail is None,
        e.color == SYSINFO_COLOR,
        e.fields.len() == 9,
        field_is(e.fields@[0], "Hostname"@, t.hostname@, true),
        field_is(e.fields@[1], "OS"@, t.os@, true),
        field_is(e.fields@[2], "Kernel"@, t.kernel@, true),
        field_is(e.fields@[3], "Uptime"@, uptime_text(t.uptime_secs as nat), true),
        field_is(e.fields@[4], "CPU"@, t.cpu@, false),
        field_is(e.fields@[5], "Memory"@, t.memory@, true),
        field_is(e.fields@[6], "Swap"@, t.swap@, true),
        field_is(e.fields@[7], "Disks"@, join(views(t.disk_lines@), seq!['\n']), false),
        field_is(e.fields@[8], "Network"@, join(views(t.network_lines@), seq!['\n']), false),
{
    let uptime = format_uptime(t.uptime_secs);
    let disks = join_all(&t.disk_lines, "\n");
    let networks = join_all(&t.network_lines, "\n");
    proof {
        reveal_strlit("\n");
        assert("\n"@ =~= seq!['\n']);
    }
    let fields = vec![
        field("Hostname", t.hostname.as_str(), true),
        field("OS", t.os.as_str(), true),
        field("Kernel", t.kernel.as_str(), true),
        field("Uptime", uptime.as_str(), true),
        field("CPU", t.cpu.as_str(), false),
        field("Memory", t.memory.as_str(), true),
        field("Swap", t.swap.as_str(), true),
        field("Disks", disks.as_str(), false),
        field("Network", networks.as_str(), false),
    ];
    Embed {
        title: "🖥️ System Information".to_owned(),
        url: None,
        color: SYSINFO_COLOR,
        fields,
        thumbnail: None,
    }
}

} // verus!
