//! Port scanning: which ports a scan probes, which services they are known
//! for, what a request asks to scan, and how the findings are reported.

use vstd::prelude::*;
use crate::text::{
    append_nat, append_nat_right, chunk_replies, dec_nat, lemma_chunk_replies_send_all, pad_left, same_text, sent_in_pieces,
    views,
};

verus! {

/// A port that accepted a connection, with the service it is known for.
#[derive(Debug, Clone, Copy)]
pub struct OpenPort {
    pub port: u16,
    pub service: &'static str,
}

/// The service a well-known port is scanned for.
pub open spec fn known_service(port: u16) -> Option<Seq<char>> {
    match port {
        21 => Some("FTP"@),
        22 => Some("SSH"@),
        23 => Some("Telnet"@),
        25 => Some("SMTP"@),
        53 => Some("DNS"@),
        80 => Some("HTTP"@),
        110 => Some("POP3"@),
        143 => Some("IMAP"@),
        443 => Some("HTTPS"@),
        445 => Some("SMB"@),
        993 => Some("IMAPS"@),
        995 => Some("POP3S"@),
        1433 => Some("MSSQL"@),
        1521 => Some("Oracle"@),
        2049 => Some("NFS"@),
        3306 => Some("MySQL"@),
        3389 => Some("RDP"@),
        5432 => Some("PostgreSQL"@),
        5900 => Some("VNC"@),
        6379 => Some("Redis"@),
        8080 => Some("HTTP-Alt"@),
        8443 => Some("HTTPS-Alt"@),
        27017 => Some("MongoDB"@),
        _ => None,
    }
}

/// The service name reported for a port: the known one, else `Unknown`.
pub open spec fn service_name(port: u16) -> Seq<char> {
    match known_service(port) {
        Some(name) => name,
        None => "Unknown"@,
    }
}

/// The ports of a common-ports scan, in the order they are probed.
pub open spec fn common_port_list() -> Seq<u16> {
    seq![
        21u16, 22, 23, 25, 53, 80, 110, 143, 443, 445, 993, 995, 1433, 1521, 2049, 3306, 3389,
        5432, 5900, 6379, 8080, 8443, 27017,
    ]
}

/// The service a port is known for, or `Unknown`.
pub fn guess_service(port: u16) -> (s: &'static str)
    ensures
        s@ == service_name(port),
{
    match port {
        21 => "FTP",
        22 => "SSH",
        23 => "Telnet",
        25 => "SMTP",
        53 => "DNS",
        80 => "HTTP",
        110 => "POP3",
        143 => "IMAP",
        443 => "HTTPS",
        445 => "SMB",
        993 => "IMAPS",
        995 => "POP3S",
        1433 => "MSSQL",
        1521 => "Oracle",
        2049 => "NFS",
        3306 => "MySQL",
        3389 => "RDP",
        5432 => "PostgreSQL",
        5900 => "VNC",
        6379 => "Redis",
        8080 => "HTTP-Alt",
        8443 => "HTTPS-Alt",
        27017 => "MongoDB",
        _ => "Unknown",
    }
}

/// The ports a common-ports scan probes.
pub fn common_ports() -> (v: Vec<u16>)
    ensures
        v@ == common_port_list(),
{
    let v: Vec<u16> = vec![
        21u16, 22, 23, 25, 53, 80, 110, 143, 443, 445, 993, 995, 1433, 1521, 2049, 3306, 3389,
        5432, 5900, 6379, 8080, 8443, 27017,
    ];
    assert(v@ =~= common_port_list());
    v
}

/// The common ports are exactly the ports with a known service.
pub proof fn lemma_common_ports_are_known(port: u16)
    ensures
        common_port_list().contains(port) <==> known_service(port) is Some,
{
    let l = common_port_list();
    if known_service(port) is Some {
        assert(port == 21 ==> l[0] == port);
        assert(port == 22 ==> l[1] == port);
        assert(port == 23 ==> l[2] == port);
        assert(port == 25 ==> l[3] == port);
        assert(port == 53 ==> l[4] == port);
        assert(port == 80 ==> l[5] == port);
        assert(port == 110 ==> l[6] == port);
        assert(port == 143 ==> l[7] == port);
        assert(port == 443 ==> l[8] == port);
        assert(port == 445 ==> l[9] == port);
        assert(port == 993 ==> l[10] == port);
        assert(port == 995 ==> l[11] == port);
        assert(port == 1433 ==> l[12] == port);
        assert(port == 1521 ==> l[13] == port);
        assert(port == 2049 ==> l[14] == port);
        assert(port == 3306 ==> l[15] == port);
        assert(port == 3389 ==> l[16] == port);
        assert(port == 5432 ==> l[17] == port);
        assert(port == 5900 ==> l[18] == port);
        assert(port == 6379 ==> l[19] == port);
        assert(port == 8080 ==> l[20] == port);
        assert(port == 8443 ==> l[21] == port);
        assert(port == 27017 ==> l[22] == port);
    }
    if l.contains(port) {
        let i = choose|i: int| 0 <= i < l.len() && l[i] == port;
        assert(0 <= i < 23);
    }
}

} // verus!

verus! {

/// The ports from `start` to `end`, both included, in increasing order.
pub open spec fn port_range_list(start: u16, end: u16) -> Seq<u16> {
    Seq::new((end - start + 1) as nat, |i: int| (start + i) as u16)
}

/// The ports a range scan probes.
pub fn port_range(start: u16, end: u16) -> (v: Vec<u16>)
    requires
        start <= end,
    ensures
        v@ == port_range_list(start, end),
{
    let mut v: Vec<u16> = Vec::new();
    let mut p: u16 = start;
    loop
        invariant
            start <= p <= end,
            v@ == port_range_list(start, p).take(p - start),
        decreases end - p,
    {
        v.push(p);
        assert(v@ =~= port_range_list(start, p).take(p - start + 1));
        if p == end {
            assert(port_range_list(start, p).take(p - start + 1) =~= port_range_list(start, end));
            return v;
        }
        assert(port_range_list(start, p).take(p - start + 1) =~= port_range_list(start, (p + 1) as u16).take(
            p + 1 - start,
        ));
        p = p + 1;
    }
}

/// The probed ports that accepted a connection, in probing order.
pub open spec fn reachable_ports(ports: Seq<u16>, reachable: Seq<bool>) -> Seq<u16>
    decreases ports.len(),
{
    if ports.len() == 0 {
        seq![]
    } else {
        let before = reachable_ports(ports.drop_last(), reachable.take(ports.len() - 1));
        if reachable[ports.len() - 1] {
            before.push(ports.last())
        } else {
            before
        }
    }
}

/// The ports of a list of findings.
pub open spec fn ports_of(found: Seq<OpenPort>) -> Seq<u16> {
    found.map_values(|o: OpenPort| o.port)
}

/// The findings of a scan: each probed port that accepted a connection
/// (`reachable[i]` for `ports[i]`), with the service it is known for.
pub fn open_ports(ports: &Vec<u16>, reachable: &Vec<bool>) -> (r: Vec<OpenPort>)
    requires
        ports.len() == reachable.len(),
    ensures
        ports_of(r@) == reachable_ports(ports@, reachable@),
        forall|i: int| 0 <= i < r.len() ==> (#[trigger] r@[i]).service@ == service_name(r@[i].port),
{
    let mut r: Vec<OpenPort> = Vec::new();
    let mut k: usize = 0;
    while k < ports.len()
        invariant
            k <= ports.len() == reachable.len(),
            ports_of(r@) == reachable_ports(ports@.take(k as int), reachable@.take(k as int)),
            forall|i: int| 0 <= i < r.len() ==> (#[trigger] r@[i]).service@ == service_name(r@[i].port),
        decreases ports.len() - k,
    {
        let ghost pk = ports@.take(k + 1);
        let ghost rk = reachable@.take(k + 1);
        assert(pk.drop_last() =~= ports@.take(k as int));
        assert(rk.take(pk.len() - 1) =~= reachable@.take(k as int));
        if reachable[k] {
            let port = ports[k];
            r.push(OpenPort { port, service: guess_service(port) });
            assert(ports_of(r@) =~= reachable_ports(pk, rk));
        } else {
            assert(ports_of(r@) =~= reachable_ports(pk, rk));
        }
        k = k + 1;
    }
    assert(ports@.take(ports.len() as int) =~= ports@);
    assert(reachable@.take(ports.len() as int) =~= reachable@);
    r
}

/// Whether `port` is one of the probed ports that accepted a connection.
pub open spec fn probed_and_reachable(ports: Seq<u16>, reachable: Seq<bool>, port: u16) -> bool {
    exists|j: int| 0 <= j < ports.len() && reachable[j] && ports[j] == port
}

/// Every reported port was probed and accepted the connection.
pub proof fn lemma_reported_ports_were_reachable(ports: Seq<u16>, reachable: Seq<bool>)
    requires
        ports.len() == reachable.len(),
    ensures
        forall|i: int| 0 <= i < reachable_ports(ports, reachable).len() ==> probed_and_reachable(
            ports,
            reachable,
            #[trigger] reachable_ports(ports, reachable)[i],
        ),
        reachable_ports(ports, reachable).len() <= ports.len(),
    decreases ports.len(),
{
    if ports.len() > 0 {
        let n = ports.len() - 1;
        let before_ports = ports.drop_last();
        let before_reach = reachable.take(n);
        lemma_reported_ports_were_reachable(before_ports, before_reach);
        let before = reachable_ports(before_ports, before_reach);
        let all = reachable_ports(ports, reachable);
        if reachable[n] {
            assert(all == before.push(ports[n]));
        } else {
            assert(all == before);
        }
        assert forall|i: int| 0 <= i < all.len() implies probed_and_reachable(ports, reachable, #[trigger] all[i]) by {
            if i < before.len() {
                assert(all[i] == before[i]);
                assert(probed_and_reachable(before_ports, before_reach, before[i]));
                let j = choose|j: int| 0 <= j < before_ports.len() && before_reach[j] && before_ports[j] == before[i];
                assert(reachable[j] && ports[j] == all[i]);
            } else {
                assert(reachable[n] && ports[n] == all[i]);
            }
        }
    }
}

} // verus!

verus! {

/// The widest span (`end - start`) a range scan may cover.
pub const MAX_RANGE_SPAN: u16 = 5000;

/// The first port of a range scan when none is given.
pub const DEFAULT_RANGE_START: u16 = 1;

/// The last port of a range scan when none is given.
pub const DEFAULT_RANGE_END: u16 = 1024;

/// What a scan request asks for.
#[derive(Debug, Clone, Copy, PartialEq, Eq)]
pub enum ScanPlan {
    /// The well-known ports.
    Common,
    /// Every port from `start` to `end`, both included.
    Range { start: u16, end: u16 },
}

/// Why a scan request is refused.
#[derive(Debug, Clone, Copy, PartialEq, Eq)]
pub enum ScanError {
    /// The range is reversed or spans more than [`MAX_RANGE_SPAN`] ports.
    RangeTooLarge,
}

/// Whether a scan mode asks for a range scan.
pub open spec fn wants_range(mode: Option<&str>) -> bool {
    mode matches Some(m) && m@ == "range"@
}

/// The plan for a request: a range scan when the mode is `range` and the
/// range (defaulting to 1..=1024) is ordered and spans at most 5000 ports,
/// refused when it is not; a common-ports scan for any other mode.
pub open spec fn planned(mode: Option<&str>, start_port: Option<u16>, end_port: Option<u16>) -> Result<ScanPlan, ScanError> {
    if wants_range(mode) {
        let start = match start_port { Some(s) => s, None => DEFAULT_RANGE_START };
        let end = match end_port { Some(e) => e, None => DEFAULT_RANGE_END };
        if end < start || end - start > MAX_RANGE_SPAN {
            Err(ScanError::RangeTooLarge)
        } else {
            Ok(ScanPlan::Range { start, end })
        }
    } else {
        Ok(ScanPlan::Common)
    }
}

/// A scan request is refused exactly when it asks for a range (mode
/// `range`) whose end, by default 1024, comes before its start, by default
/// 1, or lies more than 5000 ports past it; an accepted range scan covers
/// exactly the range asked for, and any other mode scans the common ports.
pub proof fn lemma_planned_caps_ranges(mode: Option<&str>, start_port: Option<u16>, end_port: Option<u16>)
    ensures
        ({
            let start: int = match start_port { Some(s) => s as int, None => 1 };
            let end: int = match end_port { Some(e) => e as int, None => 1024 };
            &&& planned(mode, start_port, end_port) is Err <==> (mode matches Some(m) && m@ == "range"@) && (end
                < start || end - start > 5000)
            &&& planned(mode, start_port, end_port) matches Ok(ScanPlan::Range { start: s, end: e }) ==> s == start
                && e == end && start <= end <= start + 5000
            &&& !(mode matches Some(m) && m@ == "range"@) ==> planned(mode, start_port, end_port) == Ok::<
                ScanPlan,
                ScanError,
            >(ScanPlan::Common)
        }),
{
}

/// Decides what a scan request asks for.
pub fn plan_scan(mode: Option<&str>, start_port: Option<u16>, end_port: Option<u16>) -> (r: Result<ScanPlan, ScanError>)
    ensures
        r == planned(mode, start_port, end_port),
        r matches Ok(ScanPlan::Range { start, end }) ==> start <= end && end - start <= MAX_RANGE_SPAN,
{
    let is_range = match mode {
        Some(m) => same_text(m, "range"),
        None => false,
    };
    if is_range {
        let start = match start_port { Some(s) => s, None => DEFAULT_RANGE_START };
        let end = match end_port { Some(e) => e, None => DEFAULT_RANGE_END };
        if end < start || end - start > MAX_RANGE_SPAN {
            Err(ScanError::RangeTooLarge)
        } else {
            Ok(ScanPlan::Range { start, end })
        }
    } else {
        Ok(ScanPlan::Common)
    }
}

impl ScanPlan {
    /// How long a probe waits for a connection, in milliseconds.
    pub fn timeout_ms(&self) -> (t: u64)
        ensures
            t == 500,
    {
        500
    }

    /// How many probes run at once.
    pub fn concurrency(&self) -> (n: usize)
        ensures
            n == (match self {
                ScanPlan::Common => 50usize,
                ScanPlan::Range { .. } => 200usize,
            }),
    {
        match self {
            ScanPlan::Common => 50,
            ScanPlan::Range { .. } => 200,
        }
    }

    /// The ports the plan probes, in order.
    pub fn ports(&self) -> (v: Vec<u16>)
        requires
            *self matches ScanPlan::Range { start, end } ==> start <= end,
        ensures
            v@ == (match self {
                ScanPlan::Common => common_port_list(),
                ScanPlan::Range { start, end } => port_range_list(*start, *end),
            }),
    {
        match self {
            ScanPlan::Common => common_ports(),
            ScanPlan::Range { start, end } => port_range(*start, *end),
        }
    }
}

impl ScanError {
    /// The reply that refuses the request.
    pub fn message(&self) -> (m: String)
        ensures
            m@ == "❌ Port range too large (max 5000)."@,
    {
        let mut m = String::new();
        m.append("❌ Port range too large (max 5000).");
        m
    }
}

/// The line that reports one open port: the port right-aligned in five
/// characters, then its service.
pub open spec fn port_line(p: OpenPort) -> Seq<char> {
    "`"@ + pad_left(dec_nat(p.port as nat), 5) + "` — "@ + p.service@
}

/// The lines that report a list of open ports.
pub open spec fn port_lines(found: Seq<OpenPort>) -> Seq<Seq<char>> {
    found.map_values(|o: OpenPort| port_line(o))
}

/// The first line of each reply of a scan that found `count` open ports.
pub open spec fn scan_header(ip: Seq<char>, count: nat) -> Seq<char> {
    "🔍 **Port Scan — "@ + ip + "** ("@ + dec_nat(count) + " open)\n"@
}

/// The replies to a scan of `ip`: a note when nothing was found, else the
/// port lines in groups of twenty, each group under the header.
pub open spec fn scan_replies(ip: Seq<char>, found: Seq<OpenPort>) -> Seq<Seq<char>> {
    if found.len() == 0 {
        seq!["🔍 **"@ + ip + "** — No open ports found."@]
    } else {
        chunk_replies(
            scan_header(ip, found.len()) + "\n"@,
            port_lines(found),
            20,
        )
    }
}

/// What a scan reports: the note that nothing is open exactly when nothing
/// was found; otherwise at least one reply, every reply under the header
/// that names the scanned address and the number of open ports, and the
/// replies' lines, in order, are one line per open port (the port
/// right-aligned in five characters, then its service), twenty at most to
/// a reply.
pub proof fn lemma_scan_replies_report_every_port(ip: Seq<char>, found: Seq<OpenPort>)
    ensures
        found.len() == 0 ==> scan_replies(ip, found) == seq!["🔍 **"@ + ip + "** — No open ports found."@],
        found.len() > 0 ==> scan_replies(ip, found).len() > 0 && sent_in_pieces(
            scan_replies(ip, found),
            "🔍 **Port Scan — "@ + ip + "** ("@ + dec_nat(found.len()) + " open)\n"@ + "\n"@,
            Seq::new(
                found.len(),
                |i: int| "`"@ + pad_left(dec_nat(found[i].port as nat), 5) + "` — "@ + found[i].service@,
            ),
            20,
        ),
{
    if found.len() > 0 {
        let prefix = scan_header(ip, found.len()) + "\n"@;
        lemma_chunk_replies_send_all(prefix, port_lines(found), 20);
        assert(port_lines(found) =~= Seq::new(
            found.len(),
            |i: int| "`"@ + pad_left(dec_nat(found[i].port as nat), 5) + "` — "@ + found[i].service@,
        ));
    }
}

/// The replies that report the findings of a scan of `ip`.
pub fn port_scan_replies(ip: &str, found: &Vec<OpenPort>) -> (r: Vec<String>)
    ensures
        views(r@) == scan_replies(ip@, found@),
{
    if found.len() == 0 {
        let mut m = String::new();
        m.append("🔍 **");
        m.append(ip);
        m.append("** — No open ports found.");
        let r = vec![m];
        assert(views(r@) =~= scan_replies(ip@, found@));
        return r;
    }
    let mut lines: Vec<String> = Vec::new();
    let mut k: usize = 0;
    while k < found.len()
        invariant
            k <= found.len(),
            lines.len() == k,
            views(lines@) == port_lines(found@.take(k as int)),
        decreases found.len() - k,
    {
        let p = found[k];
        let mut line = String::new();
        line.append("`");
        append_nat_right(&mut line, p.port as u128, 5);
        line.append("` — ");
        line.append(p.service);
        assert(line@ =~= port_line(p));
        let ghost old_lines = lines@;
        lines.push(line);
        assert(lines@ == old_lines.push(line));
        k = k + 1;
        assert forall|i: int| 0 <= i < k implies #[trigger] views(lines@)[i] == port_lines(found@.take(k as int))[i] by {
            if i < k - 1 {
                assert(lines@[i] == old_lines[i]);
                assert(views(lines@)[i] == lines@[i]@);
                assert(views(old_lines)[i] == old_lines[i]@);
                assert(views(old_lines)[i] == port_lines(found@.take(k - 1))[i]);
                assert(found@.take(k as int)[i] == found@.take(k - 1)[i]);
            } else {
                assert(found@.take(k as int)[i] == p);
            }
        }
        assert(views(lines@) =~= port_lines(found@.take(k as int)));
    }
    assert(found@.take(found.len() as int) =~= found@);
    let mut prefix = String::new();
    prefix.append("🔍 **Port Scan — ");
    prefix.append(ip);
    prefix.append("** (");
    append_nat(&mut prefix, found.len() as u128);
    prefix.append(" open)\n");
    prefix.append("\n");
    crate::text::joined_chunks(prefix.as_str(), &lines, 20)
}

} // verus!
