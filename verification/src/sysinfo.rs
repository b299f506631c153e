//! What the host reports about itself: disks, network interfaces, uptime.

use vstd::prelude::*;
use crate::text::{append_nat, dec_nat};

verus! {

/// Space on a mounted disk, in bytes.
#[derive(Debug, Clone)]
pub struct DiskInfo {
    pub mount: String,
    pub total: u64,
    pub used: u64,
}

/// Traffic through a network interface, in bytes.
#[derive(Debug, Clone)]
pub struct NetworkInfo {
    pub name: String,
    pub received: u64,
    pub transmitted: u64,
}

impl DiskInfo {
    /// A disk's usage from its total and available space. Available space
    /// above the total is left out: the subtraction would overflow there.
    pub fn from_space(mount: String, total: u64, available: u64) -> (d: DiskInfo)
        requires
            available <= total,
        ensures
            d.mount == mount,
            d.total == total,
            d.used == total - available,
    {
        DiskInfo { mount, total, used: total - available }
    }
}

/// Whole days, hours past the days, and minutes past the hours of an uptime.
pub open spec fn uptime_parts(secs: nat) -> (nat, nat, nat) {
    (secs / 86400, (secs % 86400) / 3600, (secs % 3600) / 60)
}

/// `{d}d {h}h {m}m` of an uptime in seconds.
pub open spec fn uptime_text(secs: nat) -> Seq<char> {
    let (d, h, m) = uptime_parts(secs);
    dec_nat(d) + "d "@ + dec_nat(h) + "h "@ + dec_nat(m) + "m"@
}

/// Renders an uptime in seconds as days, hours and minutes.
pub fn format_uptime(secs: u64) -> (r: String)
    ensures
        r@ == uptime_text(secs as nat),
{
    let days: u64 = secs / 86400;
    let hours: u64 = (secs % 86400) / 3600;
    let minutes: u64 = (secs % 3600) / 60;
    let mut r = String::new();
    append_nat(&mut r, days as u128);
    r.append("d ");
    append_nat(&mut r, hours as u128);
    r.append("h ");
    append_nat(&mut r, minutes as u128);
    r.append("m");
    r
}

/// The days, hours and minutes shown account for the whole uptime but for
/// less than a minute, and the hours and minutes stay in their ranges.
pub proof fn lemma_uptime_parts(secs: nat)
    ensures
        uptime_parts(secs).1 < 24,
        uptime_parts(secs).2 < 60,
        0 <= secs - (uptime_parts(secs).0 * 86400 + uptime_parts(secs).1 * 3600 + uptime_parts(secs).2 * 60) < 60,
{
    let d = secs / 86400;
    let r = secs % 86400;
    assert(secs == (secs / 86400) * 86400 + secs % 86400) by (nonlinear_arith);
    let h = r / 3600;
    let q = r % 3600;
    assert(r == (r / 3600) * 3600 + r % 3600) by (nonlinear_arith);
    assert(secs % 3600 == q) by (nonlinear_arith)
        requires
            secs == d * 86400 + r,
            r == h * 3600 + q,
            0 <= q < 3600,
    {
        assert(secs == (d * 24 + h) * 3600 + q);
    }
    let m = q / 60;
    assert(q == (q / 60) * 60 + q % 60) by (nonlinear_arith);
}

} // verus!
