use vstd::prelude::*;
use vstd::string::StringExecFns;

use crate::config::schema::{AargalConfig, IngestSource};
use crate::doctor::report::{DoctorReport, DoctorStatus};

verus! {

/// `prefix`, then `body`, then `suffix`.
fn message(prefix: &str, body: &str, suffix: &str) -> (r: String)
    ensures
        r@ == prefix@ + body@ + suffix@,
{
    let mut r = String::from_str(prefix);
    r.append(body);
    r.append(suffix);
    r
}

/// The finding on the ingest source, given whether the ingest file exists.
pub open spec fn ingest_finding(config: AargalConfig, path_exists: bool) -> (DoctorStatus, Seq<char>) {
    match config.ingest.source {
        IngestSource::File => if path_exists {
            (DoctorStatus::Pass, "Ingest file exists: "@ + config.ingest.path@ + ""@)
        } else {
            (DoctorStatus::Error, "Ingest file does not exist: "@ + config.ingest.path@ + ""@)
        },
        IngestSource::Stdin => (DoctorStatus::Warn, "Ingest source is STDIN (intended for piping / testing)"@),
    }
}

/// The finding on the ban integration, given whether its socket exists.
pub open spec fn fail2ban_finding(config: AargalConfig, socket_exists: bool) -> (DoctorStatus, Seq<char>) {
    if !config.fail2ban.enabled {
        (DoctorStatus::Warn, "Fail2Ban integration is disabled"@)
    } else if socket_exists {
        (DoctorStatus::Pass, "Fail2Ban socket found (jail="@ + config.fail2ban.jail@ + ")"@)
    } else {
        (DoctorStatus::Error, "Fail2Ban socket not found: "@ + config.fail2ban.socket@ + ""@)
    }
}

/// The two findings on logging: the level, then the output format.
pub open spec fn logging_findings(config: AargalConfig) -> Seq<(DoctorStatus, Seq<char>)> {
    seq![
        (DoctorStatus::Pass, "Logging level set to '"@ + config.logging.level@ + "'"@),
        if config.logging.json {
            (DoctorStatus::Pass, "JSON logging enabled"@)
        } else {
            (DoctorStatus::Pass, "Plain-text logging enabled"@)
        },
    ]
}

/// Reports on the ingest source; `path_exists` tells whether the ingest file exists.
pub fn check_ingest(config: &AargalConfig, path_exists: bool, report: &mut DoctorReport)
    ensures
        final(report)@ == old(report)@.push(ingest_finding(*config, path_exists)),
{
    match config.ingest.source {
        IngestSource::File => {
            if path_exists {
                report.ok(message("Ingest file exists: ", config.ingest.path.as_str(), ""));
            } else {
                report.error(message("Ingest file does not exist: ", config.ingest.path.as_str(), ""));
            }
        },
        IngestSource::Stdin => {
            report.warn(String::from_str("Ingest source is STDIN (intended for piping / testing)"));
        },
    }
}

/// Reports on the ban integration; `socket_exists` tells whether its socket exists.
pub fn check_fail2ban(config: &AargalConfig, socket_exists: bool, report: &mut DoctorReport)
    ensures
        final(report)@ == old(report)@.push(fail2ban_finding(*config, socket_exists)),
{
    if !config.fail2ban.enabled {
        report.warn(String::from_str("Fail2Ban integration is disabled"));
        return;
    }
    if socket_exists {
        report.ok(message("Fail2Ban socket found (jail=", config.fail2ban.jail.as_str(), ")"));
    } else {
        report.error(message("Fail2Ban socket not found: ", config.fail2ban.socket.as_str(), ""));
    }
}

/// Reports the logging level and output format.
pub fn check_logging(config: &AargalConfig, report: &mut DoctorReport)
    ensures
        final(report)@ == old(report)@ + logging_findings(*config),
{
    report.ok(message("Logging level set to '", config.logging.level.as_str(), "'"));
    if config.logging.json {
        report.ok(String::from_str("JSON logging enabled"));
    } else {
        report.ok(String::from_str("Plain-text logging enabled"));
    }
    assert(report@ =~= old(report)@ + logging_findings(*config));
}

} // verus!
