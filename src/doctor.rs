pub mod checks;
pub mod report;

use vstd::prelude::*;
use vstd::string::StringExecFns;

use crate::config::schema::AargalConfig;
use checks::{check_fail2ban, check_ingest, check_logging, fail2ban_finding, ingest_finding, logging_findings};
use report::{DoctorReport, DoctorStatus};

verus! {

/// The self-check report for a loaded configuration: that it loaded, then the
/// findings on ingest, the ban integration and logging. `ingest_path_exists` and
/// `socket_exists` tell whether the ingest file and the ban socket exist.
pub fn run_doctor(config: &AargalConfig, ingest_path_exists: bool, socket_exists: bool) -> (r: DoctorReport)
    ensures
        r@ == seq![
            (DoctorStatus::Pass, "Config file loaded successfully"@),
            ingest_finding(*config, ingest_path_exists),
            fail2ban_finding(*config, socket_exists),
        ] + logging_findings(*config),
{
    let mut report = DoctorReport::new();
    report.ok(String::from_str("Config file loaded successfully"));
    check_ingest(config, ingest_path_exists, &mut report);
    check_fail2ban(config, socket_exists, &mut report);
    check_logging(config, &mut report);
    assert(report@ =~= seq![
        (DoctorStatus::Pass, "Config file loaded successfully"@),
        ingest_finding(*config, ingest_path_exists),
        fail2ban_finding(*config, socket_exists),
    ] + logging_findings(*config));
    report
}

} // verus!
