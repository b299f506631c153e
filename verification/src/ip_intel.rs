//! IP address intelligence: geolocation from ipinfo.io and abuse reports
//! from AbuseIPDB.

use vstd::prelude::*;

verus! {

/// Where an IP address is and who runs it, as ipinfo.io reports it.
#[derive(Debug, Clone)]
pub struct IpInfo {
    pub ip: String,
    pub city: Option<String>,
    pub region: Option<String>,
    pub country: Option<String>,
    pub loc: Option<String>,
    pub org: Option<String>,
    pub postal: Option<String>,
    pub timezone: Option<String>,
}

/// What AbuseIPDB knows of an IP address.
#[derive(Debug, Clone)]
pub struct AbuseIPDBReport {
    pub ip_address: String,
    pub abuse_confidence_score: i64,
    pub country_code: String,
    pub usage_type: String,
    pub isp: String,
    pub domain: String,
    pub total_reports: i64,
    pub last_reported_at: String,
}

/// Why an IP lookup failed.
#[derive(Debug, Clone, Copy, PartialEq, Eq)]
pub enum IpIntelError {
    /// ipinfo.io answered with this non-success status.
    IpInfoStatus(u16),
    /// AbuseIPDB answered with this non-success status.
    AbuseStatus(u16),
    /// No AbuseIPDB token is configured.
    MissingAbuseToken,
}

/// The ipinfo.io address for an IP address (written as text): the
/// token-authenticated one when a token is configured.
pub open spec fn ipinfo_address(ip: Seq<char>, token: Option<Seq<char>>) -> Seq<char> {
    match token {
        Some(t) => "https://ipinfo.io/"@ + ip + "?token="@ + t,
        None => "https://ipinfo.io/"@ + ip + "/json"@,
    }
}

/// The ipinfo.io address to ask about `ip`.
pub fn ipinfo_url(ip: &str, token: Option<&str>) -> (u: String)
    ensures
        u@ == ipinfo_address(ip@, match token { Some(t) => Some(t@), None => None }),
{
    let mut u = String::new();
    u.append("https://ipinfo.io/");
    u.append(ip);
    match token {
        Some(t) => {
            u.append("?token=");
            u.append(t);
        },
        None => u.append("/json"),
    }
    u
}

/// The AbuseIPDB address that checks an IP address.
pub open spec fn abuse_check_url() -> Seq<char> {
    "https://api.abuseipdb.com/api/v2/check"@
}

/// A check request to AbuseIPDB: its address, query and headers.
#[derive(Debug, Clone)]
pub struct AbuseQuery {
    pub url: String,
    /// Query pairs, in order.
    pub query: Vec<(String, String)>,
    /// Header pairs, in order.
    pub headers: Vec<(String, String)>,
}

/// The check request for `ip`: it needs the AbuseIPDB token, sent as the
/// `Key` header, and asks for reports of the last 90 days as JSON.
pub fn abuseipdb_query(ip: &str, token: Option<&str>) -> (r: Result<AbuseQuery, IpIntelError>)
    ensures
        token is None <==> r == Err::<AbuseQuery, IpIntelError>(IpIntelError::MissingAbuseToken),
        token is Some <==> r is Ok,
        r matches Ok(q) ==> {
            &&& q.url@ == abuse_check_url()
            &&& q.query@.len() == 2
            &&& q.query@[0].0@ == "ipAddress"@ && q.query@[0].1@ == ip@
            &&& q.query@[1].0@ == "maxAgeInDays"@ && q.query@[1].1@ == "90"@
            &&& q.headers@.len() == 2
            &&& q.headers@[0].0@ == "Key"@ && q.headers@[0].1@ == token.unwrap()@
            &&& q.headers@[1].0@ == "Accept"@ && q.headers@[1].1@ == "application/json"@
        },
{
    match token {
        None => Err(IpIntelError::MissingAbuseToken),
        Some(t) => {
            let url = "https://api.abuseipdb.com/api/v2/check".to_owned();
            let query = vec![
                ("ipAddress".to_owned(), ip.to_owned()),
                ("maxAgeInDays".to_owned(), "90".to_owned()),
            ];
            let headers = vec![
                ("Key".to_owned(), t.to_owned()),
                ("Accept".to_owned(), "application/json".to_owned()),
            ];
            Ok(AbuseQuery { url, query, headers })
        },
    }
}

impl IpIntelError {
    /// The error's message; `status_text` renders the status of a failed
    /// answer (such as `429 Too Many Requests`).
    pub fn message(&self, status_text: &str) -> (m: String)
        ensures
            m@ == (match self {
                IpIntelError::IpInfoStatus(_) => "IP info lookup failed: "@ + status_text@,
                IpIntelError::AbuseStatus(_) => "AbuseIPDB lookup failed: "@ + status_text@,
                IpIntelError::MissingAbuseToken => "ABUSEIPDB_TOKEN not configured"@,
            }),
    {
        let mut m = String::new();
        match self {
            IpIntelError::IpInfoStatus(_) => {
                m.append("IP info lookup failed: ");
                m.append(status_text);
            },
            IpIntelError::AbuseStatus(_) => {
                m.append("AbuseIPDB lookup failed: ");
                m.append(status_text);
            },
            IpIntelError::MissingAbuseToken => m.append("ABUSEIPDB_TOKEN not configured"),
        }
        m
    }
}

} // verus!
