//! `/ping`, `/portscan` and `/ipintel`.

use vstd::prelude::*;
use crate::commands::embed::{Embed, field, field_is};
use crate::ip_intel::{AbuseIPDBReport, IpInfo};
use crate::text::{append_int, append_nat, dec_int, dec_nat};

verus! {

/// The colour of a reply about a reachable host.
pub const REACHABLE_COLOR: u32 = 0x00FF00;

/// The colour of a reply about an unreachable host.
pub const UNREACHABLE_COLOR: u32 = 0xFF0000;

/// The colour of `/ipintel` replies.
pub const IP_INTEL_COLOR: u32 = 0x9B59B6;

/// The reply when a host name does not resolve; `error` says why.
pub fn dns_failure_reply(error: &str) -> (m: String)
    ensures
        m@ == "❌ DNS resolution failed: "@ + error@,
{
    let mut m = String::new();
    m.append("❌ DNS resolution failed: ");
    m.append(error);
    m
}

/// The TCP field of a ping reply.
pub open spec fn ping_status_of(reachable: bool, elapsed_ms: u128) -> Seq<char> {
    if reachable {
        "✅ **Reachable** — "@ + dec_nat(elapsed_ms as nat) + " ms"@
    } else {
        "❌ **Unreachable** (connection timed out)"@
    }
}

/// The reply to `/ping`: the address the host resolved to, how long the
/// resolution took, and whether port 80 answered (and how fast).
pub fn ping_embed(host: &str, ip: &str, resolve_ms: u128, reachable: bool, elapsed_ms: u128) -> (e: Embed)
    ensures
        e.title@ == "🌐 Ping — "@ + host@,
        e.url is None,
        e.thumbnail is None,
        e.color == (if reachable { REACHABLE_COLOR } else { UNREACHABLE_COLOR }),
        e.fields.len() == 3,
        field_is(e.fields@[0], "IP Address"@, ip@, true),
        field_is(e.fields@[1], "DNS Resolution"@, dec_nat(resolve_ms as nat) + " ms"@, true),
        field_is(e.fields@[2], "TCP Port 80"@, ping_status_of(reachable, elapsed_ms), false),
{
    let mut title = String::new();
    title.append("🌐 Ping — ");
    title.append(host);
    let mut resolution = String::new();
    append_nat(&mut resolution, resolve_ms);
    resolution.append(" ms");
    let mut status = String::new();
    if reachable {
        status.append("✅ **Reachable** — ");
        append_nat(&mut status, elapsed_ms);
        status.append(" ms");
    } else {
        status.append("❌ **Unreachable** (connection timed out)");
    }
    let fields = vec![
        field("IP Address", ip, true),
        field("DNS Resolution", resolution.as_str(), true),
        field("TCP Port 80", status.as_str(), false),
    ];
    Embed {
        title,
        url: None,
        color: if reachable { REACHABLE_COLOR } else { UNREACHABLE_COLOR },
        fields,
        thumbnail: None,
    }
}

/// The reply when the `/ipintel` argument is not an IP address.
pub fn invalid_ip_reply() -> (m: String)
    ensures
        m@ == "❌ Invalid IP address."@,
{
    "❌ Invalid IP address.".to_owned()
}

/// A value, or `N/A` when it is missing.
pub open spec fn or_na(v: Option<String>) -> Seq<char> {
    match v {
        Some(s) => s@,
        None => "N/A"@,
    }
}

fn text_or_na(v: &Option<String>) -> (s: String)
    ensures
        s@ == or_na(*v),
{
    match v {
        Some(s) => s.clone(),
        None => "N/A".to_owned(),
    }
}

/// The reply to `/ipintel`: where the address is and who runs it, `N/A`
/// for what ipinfo.io does not know.
pub fn ip_intel_embed(info: &IpInfo) -> (e: Embed)
    ensures
        e.title@ == "🌍 IP Intel — "@ + info.ip@,
        e.url is None,
        e.thumbnail is None,
        e.color == IP_INTEL_COLOR,
        e.fields.len() == 6,
        field_is(e.fields@[0], "City"@, or_na(info.city), true),
        field_is(e.fields@[1], "Region"@, or_na(info.region), true),
        field_is(e.fields@[2], "Country"@, or_na(info.country), true),
        field_is(e.fields@[3], "Location"@, or_na(info.loc), true),
        field_is(e.fields@[4], "ISP"@, or_na(info.org), true),
        field_is(e.fields@[5], "Timezone"@, or_na(info.timezone), true),
{
    let mut title = String::new();
    title.append("🌍 IP Intel — ");
    title.append(info.ip.as_str());
    let city = text_or_na(&info.city);
    let region = text_or_na(&info.region);
    let country = text_or_na(&info.country);
    let loc = text_or_na(&info.loc);
    let org = text_or_na(&info.org);
    let zone = text_or_na(&info.timezone);
    let fields = vec![
        field("City", city.as_str(), true),
        field("Region", region.as_str(), true),
        field("Country", country.as_str(), true),
        field("Location", loc.as_str(), true),
        field("ISP", org.as_str(), true),
        field("Timezone", zone.as_str(), true),
    ];
    Embed { title, url: None, color: IP_INTEL_COLOR, fields, thumbnail: None }
}

/// Adds what AbuseIPDB reports to an `/ipintel` reply: the abuse
/// confidence in percent, the number of reports and the provider.
pub fn add_abuse_fields(e: &mut Embed, report: &AbuseIPDBReport)
    ensures
        final(e).title == old(e).title,
        final(e).url == old(e).url,
        final(e).color == old(e).color,
        final(e).thumbnail == old(e).thumbnail,
        final(e).fields.len() == old(e).fields.len() + 3,
        forall|i: int| 0 <= i < old(e).fields.len() ==> final(e).fields@[i] == old(e).fields@[i],
        field_is(final(e).fields@[old(e).fields.len() as int], "Abuse Confidence"@, dec_int(report.abuse_confidence_score as int) + "%"@, true),
        field_is(final(e).fields@[old(e).fields.len() + 1], "Total Reports"@, dec_int(report.total_reports as int), true),
        field_is(final(e).fields@[old(e).fields.len() + 2], "ISP (AbuseIPDB)"@, report.isp@, true),
{
    let mut confidence = String::new();
    append_int(&mut confidence, report.abuse_confidence_score);
    confidence.append("%");
    let mut total = String::new();
    append_int(&mut total, report.total_reports);
    e.fields.push(field("Abuse Confidence", confidence.as_str(), true));
    e.fields.push(field("Total Reports", total.as_str(), true));
    e.fields.push(field("ISP (AbuseIPDB)", report.isp.as_str(), true));
}

} // verus!

verus! {

/// The reply to `/ipintel` once ipinfo.io has answered: what ipinfo.io
/// reports, followed by AbuseIPDB's fields when AbuseIPDB gave a report;
/// `None` stands for no report (no AbuseIPDB token is configured, or the
/// lookup failed), and then the reply holds ipinfo.io's fields alone.
pub fn ipintel_reply(info: &IpInfo, abuse: Option<AbuseIPDBReport>) -> (e: Embed)
    ensures
        e.title@ == "🌍 IP Intel — "@ + info.ip@,
        e.url is None,
        e.thumbnail is None,
        e.color == IP_INTEL_COLOR,
        field_is(e.fields@[0], "City"@, or_na(info.city), true),
        field_is(e.fields@[1], "Region"@, or_na(info.region), true),
        field_is(e.fields@[2], "Country"@, or_na(info.country), true),
        field_is(e.fields@[3], "Location"@, or_na(info.loc), true),
        field_is(e.fields@[4], "ISP"@, or_na(info.org), true),
        field_is(e.fields@[5], "Timezone"@, or_na(info.timezone), true),
        abuse is None ==> e.fields.len() == 6,
        abuse matches Some(report) ==> {
            &&& e.fields.len() == 9
            &&& field_is(e.fields@[6], "Abuse Confidence"@, dec_int(report.abuse_confidence_score as int) + "%"@, true)
            &&& field_is(e.fields@[7], "Total Reports"@, dec_int(report.total_reports as int), true)
            &&& field_is(e.fields@[8], "ISP (AbuseIPDB)"@, report.isp@, true)
        },
{
    let mut e = ip_intel_embed(info);
    match abuse {
        Some(report) => add_abuse_fields(&mut e, &report),
        None => {},
    }
    e
}

} // verus!
