//! The computing halves of the network-facing operations: probe
//! targets, scan summaries, reputation queries and the static
//! vulnerability and canister checks. The probes and lookups
//! themselves are the host boundary's work; the engine only decides
//! what to ask and what the outcomes amount to.

use vstd::prelude::*;

use crate::dec::spec_digits;
use crate::dec::dec_u64;

verus! {

/// The outcome of probing one port.
pub struct ScanResult {
    pub port: u16,
    pub open: bool,
}

/// One known vulnerability of a software/version pair.
pub struct VulnerabilityResult {
    pub cve_id: String,
    pub severity: String,
    pub description: String,
    pub remediation: String,
}

/// The static security assessment of one canister.
pub struct CanisterSecurityCheck {
    pub canister_id: String,
    pub issues: Vec<String>,
    pub risk_level: String,
}

/// The summary of a network scan.
pub struct NetworkScan {
    pub target: String,
    pub open_ports: Vec<u16>,
    pub services: Vec<String>,
}

impl ScanResult {
    /// Reads one probe outcome: a port whose probe completed is open,
    /// one whose probe failed is not. This holds whatever the probe
    /// returned; the probe itself is the host boundary's work.
    pub fn from_probe(port: u16, reachable: bool) -> (r: ScanResult)
        ensures
            r.port == port,
            r.open == reachable,
    {
        ScanResult { port, open: reachable }
    }
}

/// The URL probed for one port of one host.
pub fn probe_url(ip: &str, port: u16) -> (r: String)
    ensures
        r@ == "http://"@ + ip@ + ":"@ + spec_digits(port as nat) + "/"@,
{
    let mut u = "http://".to_owned();
    u.append(ip);
    u.append(":");
    let p = dec_u64(port as u64);
    u.append(p.as_str());
    u.append("/");
    u
}

/// The reputation service's query URL for one address.
pub fn reputation_query_url(ip: &str) -> (r: String)
    ensures
        r@ == "https://api.abuseipdb.com/api/v2/check?ipAddress="@ + ip@,
{
    let mut u = "https://api.abuseipdb.com/api/v2/check?ipAddress=".to_owned();
    u.append(ip);
    u
}

/// Reads a reputation lookup's outcome: the decoded body when the
/// lookup succeeded, an error line carrying the rejection code and
/// message when it failed. Holds of every outcome; the lookup itself
/// is the host boundary's work.
pub fn reputation_report(outcome: Result<String, (u32, String)>) -> (r: String)
    ensures
        outcome is Ok ==> r@ == outcome->Ok_0@,
        outcome is Err ==> r@ == "Error fetching threat data: "@ + spec_digits(
            outcome->Err_0.0 as nat,
        ) + " - "@ + outcome->Err_0.1@,
{
    match outcome {
        Ok(body) => body,
        Err((code, message)) => {
            let mut r = "Error fetching threat data: ".to_owned();
            let c = dec_u64(code as u64);
            r.append(c.as_str());
            r.append(" - ");
            r.append(message.as_str());
            r
        },
    }
}

/// The port ports of `probes` that were found open, among the first
/// `k`, in probe order.
pub open spec fn spec_open_ports(probes: Seq<ScanResult>, k: int) -> Seq<u16>
    decreases k,
{
    if k <= 0 {
        Seq::empty()
    } else {
        spec_open_ports(probes, k - 1) + if probes[k - 1].open {
            seq![probes[k - 1].port]
        } else {
            Seq::empty()
        }
    }
}

/// The service lines reported for the open ports among the first `k`
/// probes.
pub open spec fn spec_service_lines(probes: Seq<ScanResult>, k: int) -> Seq<Seq<char>>
    decreases k,
{
    if k <= 0 {
        Seq::empty()
    } else {
        spec_service_lines(probes, k - 1) + if probes[k - 1].open {
            seq!["Unknown service on port "@ + spec_digits(probes[k - 1].port as nat)]
        } else {
            Seq::empty()
        }
    }
}

/// Summarizes a finished scan: the open ports in probe order, each
/// with a service line.
pub fn summarize_scan(target: String, probes: &Vec<ScanResult>) -> (r: NetworkScan)
    ensures
        r.target == target,
        r.open_ports@ == spec_open_ports(probes@, probes@.len() as int),
        r.services@.map_values(|s: String| s@) == spec_service_lines(
            probes@,
            probes@.len() as int,
        ),
{
    let n = probes.len();
    let mut open_ports: Vec<u16> = Vec::new();
    let mut services: Vec<String> = Vec::new();
    let mut i: usize = 0;
    while i < n
        invariant
            n == probes@.len(),
            i <= n,
            open_ports@ == spec_open_ports(probes@, i as int),
            services@.map_values(|s: String| s@) == spec_service_lines(probes@, i as int),
        decreases n - i,
    {
        if probes[i].open {
            open_ports.push(probes[i].port);
            let mut line = "Unknown service on port ".to_owned();
            let p = dec_u64(probes[i].port as u64);
            line.append(p.as_str());
            services.push(line);
        }
        i = i + 1;
        proof {
            assert(open_ports@ =~= spec_open_ports(probes@, i as int));
            assert(services@.map_values(|s: String| s@) =~= spec_service_lines(
                probes@,
                i as int,
            ));
        }
    }
    NetworkScan { target, open_ports, services }
}

/// The known vulnerabilities of one software/version pair: a static
/// advisory table with a single entry.
pub fn check_vulnerabilities(software: &str, version: &str) -> (r: Vec<VulnerabilityResult>)
    ensures
        r@.len() == 1,
        r@[0].cve_id@ == "CVE-2023-1234"@,
        r@[0].severity@ == "High"@,
        r@[0].description@ == "Buffer overflow in "@ + software@ + " version "@ + version@,
        r@[0].remediation@ == "Update to latest version"@,
{
    let mut description = "Buffer overflow in ".to_owned();
    description.append(software);
    description.append(" version ");
    description.append(version);
    let mut r: Vec<VulnerabilityResult> = Vec::new();
    r.push(
        VulnerabilityResult {
            cve_id: "CVE-2023-1234".to_owned(),
            severity: "High".to_owned(),
            description,
            remediation: "Update to latest version".to_owned(),
        },
    );
    r
}

/// The static security assessment of one canister, identified by its
/// textual principal.
pub fn analyze_canister_security(canister_id: String) -> (r: CanisterSecurityCheck)
    ensures
        r.canister_id == canister_id,
        r.issues@.len() == 2,
        r.issues@[0]@ == "Unrestricted update calls"@,
        r.issues@[1]@ == "No caller validation"@,
        r.risk_level@ == "Medium"@,
{
    let mut issues: Vec<String> = Vec::new();
    issues.push("Unrestricted update calls".to_owned());
    issues.push("No caller validation".to_owned());
    CanisterSecurityCheck { canister_id, issues, risk_level: "Medium".to_owned() }
}

} // verus!
