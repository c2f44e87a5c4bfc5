//! The one-line timing summary the scanner prints on standard error after a scan.

use std::time::Duration;

use vstd::prelude::*;

use crate::render::noun_for;
use crate::text::{decimal, push_decimal};

verus! {

/// Wall-clock and interface context attached to a completed scan for operator-facing
/// summaries.
#[derive(Debug, Clone, PartialEq, Eq)]
pub struct ScanTimingSummary {
    /// Resolved operating system network interface name used for the scan.
    pub network_interface_name: String,
    /// Wall-clock time spent inside the scan implementation for this invocation.
    pub elapsed_wall_time: Duration,
    /// Number of scan rounds that ran (at least one).
    pub scan_round_count: u64,
    /// Number of discovered hosts after merging duplicate replies.
    pub discovered_host_count: usize,
}

/// `scan complete: interface <NAME>, <N> host(s), <R> round(s), <MS> ms`.
pub open spec fn timing_line(
    interface_name: Seq<char>,
    hosts: nat,
    rounds: nat,
    milliseconds: nat,
) -> Seq<char> {
    "scan complete: interface "@ + interface_name + ", "@ + decimal(hosts) + " "@ + noun_for(
        hosts,
        "host"@,
        "hosts"@,
    ) + ", "@ + decimal(rounds) + " "@ + noun_for(rounds, "round"@, "rounds"@) + ", "@ + decimal(
        milliseconds,
    ) + " ms"@
}

/// What `Duration::as_millis` returns for a duration: its whole milliseconds.
pub uninterp spec fn duration_millis(duration: Duration) -> u128;

/// Whole milliseconds of a duration, from `Duration::as_millis`.
///
/// The contract claims that the result is the duration's whole number of milliseconds, which
/// std documents and which depends on the duration alone; the count itself is left to the name
/// `duration_millis`, since a `Duration` has no plain-value model here.
#[verifier::external_body]
fn duration_whole_milliseconds(duration: &Duration) -> (milliseconds: u128)
    ensures
        milliseconds == duration_millis(*duration),
{
    duration.as_millis()
}

/// `Duration` is `Copy`, and std documents its `clone` as returning the same duration; this
/// lets derived `Clone` impls of the library's types hold a `Duration` field.
pub assume_specification[<Duration as Clone>::clone](duration: &Duration) -> (copy: Duration)
    ensures
        copy == *duration,
;

/// The whole milliseconds a timing summary shows: the elapsed wall time in whole
/// milliseconds, saturated at `u64::MAX`.
pub open spec fn summary_milliseconds(summary: ScanTimingSummary) -> nat {
    let milliseconds = duration_millis(summary.elapsed_wall_time);
    if milliseconds > u64::MAX as u128 {
        u64::MAX as nat
    } else {
        milliseconds as nat
    }
}

/// A count of milliseconds, saturated at `u64::MAX`.
pub fn elapsed_milliseconds_saturating_u64(milliseconds: u128) -> (saturated: u64)
    ensures
        saturated == if milliseconds > u64::MAX as u128 {
            u64::MAX as int
        } else {
            milliseconds as int
        },
{
    if milliseconds > u64::MAX as u128 {
        u64::MAX
    } else {
        milliseconds as u64
    }
}

/// The timing summary line for the given interface, host count, round count, and whole
/// milliseconds.
pub fn timing_summary_line(
    network_interface_name: &str,
    discovered_host_count: usize,
    scan_round_count: u64,
    elapsed_milliseconds: u64,
) -> (line: String)
    ensures
        line@ == timing_line(
            network_interface_name@,
            discovered_host_count as nat,
            scan_round_count as nat,
            elapsed_milliseconds as nat,
        ),
{
    let mut line = String::new();
    line.append("scan complete: interface ");
    line.append(network_interface_name);
    line.append(", ");
    push_decimal(&mut line, discovered_host_count as u64);
    line.append(" ");
    line.append(if discovered_host_count == 1 { "host" } else { "hosts" });
    line.append(", ");
    push_decimal(&mut line, scan_round_count);
    line.append(" ");
    line.append(if scan_round_count == 1 { "round" } else { "rounds" });
    line.append(", ");
    push_decimal(&mut line, elapsed_milliseconds);
    line.append(" ms");
    line
}

impl ScanTimingSummary {
    /// Formats the single-line standard-error timing summary:
    /// `scan complete: interface <NAME>, <N> host(s), <R> round(s), <MS> ms`, with the
    /// elapsed wall time in whole milliseconds saturated at `u64::MAX`.
    pub fn format_stderr_timing_summary_line(&self) -> (line: String)
        ensures
            line@ == timing_line(
                self.network_interface_name@,
                self.discovered_host_count as nat,
                self.scan_round_count as nat,
                summary_milliseconds(*self),
            ),
    {
        let milliseconds = elapsed_milliseconds_saturating_u64(
            duration_whole_milliseconds(&self.elapsed_wall_time),
        );
        timing_summary_line(
            self.network_interface_name.as_str(),
            self.discovered_host_count,
            self.scan_round_count,
            milliseconds,
        )
    }
}

} // verus!
