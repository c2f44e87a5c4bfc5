//! Successful outcomes of a scan or an interface listing, and the operator-visible lines they
//! produce on standard output and standard error.

use vstd::prelude::*;

use crate::text::{decimal, push_char, push_decimal};
use crate::timing::{ScanTimingSummary, summary_milliseconds, timing_line};

verus! {

/// An IPv4 address as its four octets in network order.
#[derive(Debug, Clone, Copy, PartialEq, Eq, PartialOrd, Ord, Hash)]
pub struct Ipv4Address {
    /// The octets, most significant first.
    pub octets: [u8; 4],
}

/// An Ethernet media access control address as its six octets.
#[derive(Debug, Clone, Copy, PartialEq, Eq, PartialOrd, Ord, Hash)]
pub struct MacAddress {
    /// The octets, in transmission order.
    pub octets: [u8; 6],
}

/// The lower-case hexadecimal digit of a nibble.
pub open spec fn lower_hex_char(nibble: nat) -> char {
    if nibble < 10 {
        (48 + nibble) as char
    } else {
        (87 + nibble) as char
    }
}

/// Two lower-case hexadecimal digits of an octet.
pub open spec fn octet_hex(octet: u8) -> Seq<char> {
    seq![lower_hex_char((octet / 16) as nat), lower_hex_char((octet % 16) as nat)]
}

/// Colon-separated lower-case hexadecimal, as operators see a MAC address.
pub open spec fn mac_text(octets: Seq<u8>) -> Seq<char> {
    octet_hex(octets[0]) + ":"@ + octet_hex(octets[1]) + ":"@ + octet_hex(octets[2]) + ":"@
        + octet_hex(octets[3]) + ":"@ + octet_hex(octets[4]) + ":"@ + octet_hex(octets[5])
}

/// Dotted decimal, as operators see an IPv4 address.
pub open spec fn ipv4_text(octets: Seq<u8>) -> Seq<char> {
    decimal(octets[0] as nat) + "."@ + decimal(octets[1] as nat) + "."@ + decimal(
        octets[2] as nat,
    ) + "."@ + decimal(octets[3] as nat)
}

/// `count` spaces.
pub open spec fn spaces(count: nat) -> Seq<char> {
    Seq::new(count, |i: int| ' ')
}

/// `text` left-aligned in a field of `width` characters.
pub open spec fn pad_right(text: Seq<char>, width: nat) -> Seq<char> {
    if text.len() < width {
        text + spaces((width - text.len()) as nat)
    } else {
        text
    }
}

/// `text` right-aligned in a field of `width` characters.
pub open spec fn pad_left(text: Seq<char>, width: nat) -> Seq<char> {
    if text.len() < width {
        spaces((width - text.len()) as nat) + text
    } else {
        text
    }
}

fn push_hex_nibble(text: &mut String, nibble: u8)
    requires
        nibble < 16,
    ensures
        final(text)@ == old(text)@.push(lower_hex_char(nibble as nat)),
{
    if nibble < 10 {
        push_char(text, (48u8 + nibble) as char);
    } else {
        push_char(text, (87u8 + nibble) as char);
    }
}

fn push_octet_hex(text: &mut String, octet: u8)
    ensures
        final(text)@ == old(text)@ + octet_hex(octet),
{
    push_hex_nibble(text, octet / 16);
    push_hex_nibble(text, octet % 16);
    assert(final(text)@ =~= old(text)@ + octet_hex(octet));
}

fn push_spaces(text: &mut String, count: usize)
    ensures
        final(text)@ == old(text)@ + spaces(count as nat),
{
    let ghost start = text@;
    let mut i: usize = 0;
    while i < count
        invariant
            i <= count,
            text@ == start + spaces(i as nat),
        decreases count - i,
    {
        push_char(text, ' ');
        i = i + 1;
        assert(text@ =~= start + spaces(i as nat));
    }
}

fn char_count(text: &str) -> (count: usize)
    ensures
        count == text@.len(),
{
    text.unicode_len()
}

fn push_padded_right(text: &mut String, piece: &str, width: usize)
    ensures
        final(text)@ == old(text)@ + pad_right(piece@, width as nat),
{
    let length = char_count(piece);
    text.append(piece);
    if length < width {
        push_spaces(text, width - length);
    }
    assert(final(text)@ =~= old(text)@ + pad_right(piece@, width as nat));
}

fn push_padded_left(text: &mut String, piece: &str, width: usize)
    ensures
        final(text)@ == old(text)@ + pad_left(piece@, width as nat),
{
    let length = char_count(piece);
    if length < width {
        push_spaces(text, width - length);
    }
    text.append(piece);
    assert(final(text)@ =~= old(text)@ + pad_left(piece@, width as nat));
}

impl MacAddress {
    /// The address with the given octets.
    pub fn from_octets(octets: [u8; 6]) -> (address: MacAddress)
        ensures
            address.octets == octets,
    {
        MacAddress { octets }
    }

    /// Colon-separated lower-case hexadecimal, for example `aa:bb:cc:dd:ee:ff`.
    pub fn to_display_string(&self) -> (text: String)
        ensures
            text@ == mac_text(self.octets@),
    {
        let mut text = String::new();
        let mut i: usize = 0;
        while i < 6
            invariant
                i <= 6,
                i == 0 ==> text@ == Seq::<char>::empty(),
                i >= 1 ==> text@ == mac_prefix_text(self.octets@, i as nat),
            decreases 6 - i,
        {
            if i > 0 {
                text.append(":");
            }
            push_octet_hex(&mut text, self.octets[i]);
            i = i + 1;
        }
        proof {
            reveal_with_fuel(mac_prefix_text, 6);
        }
        assert(text@ =~= mac_text(self.octets@));
        text
    }
}

/// The first `count` octets of a MAC address as colon-separated hexadecimal.
pub open spec fn mac_prefix_text(octets: Seq<u8>, count: nat) -> Seq<char>
    decreases count,
{
    if count <= 1 {
        octet_hex(octets[0])
    } else {
        mac_prefix_text(octets, (count - 1) as nat) + ":"@ + octet_hex(octets[count - 1])
    }
}

impl Ipv4Address {
    /// The address `a.b.c.d`.
    pub fn new(a: u8, b: u8, c: u8, d: u8) -> (address: Ipv4Address)
        ensures
            address.octets@ == seq![a, b, c, d],
    {
        let address = Ipv4Address { octets: [a, b, c, d] };
        assert(address.octets@ =~= seq![a, b, c, d]);
        address
    }

    /// Dotted decimal, for example `192.168.1.10`.
    pub fn to_display_string(&self) -> (text: String)
        ensures
            text@ == ipv4_text(self.octets@),
    {
        let mut text = String::new();
        push_decimal(&mut text, self.octets[0] as u64);
        text.append(".");
        push_decimal(&mut text, self.octets[1] as u64);
        text.append(".");
        push_decimal(&mut text, self.octets[2] as u64);
        text.append(".");
        push_decimal(&mut text, self.octets[3] as u64);
        text
    }
}

/// A host observed on the local data-link segment during an address resolution scan.
#[derive(Debug, Clone, Copy, PartialEq, Eq, PartialOrd, Ord)]
pub struct DiscoveredHost {
    /// IPv4 address reported in the address resolution reply.
    pub ipv4_address: Ipv4Address,
    /// Ethernet media access control address reported in the address resolution reply.
    pub media_access_control_address: MacAddress,
}

/// Outcome of an address resolution scan (discovered hosts and non-fatal warnings).
#[derive(Debug, Clone, PartialEq, Eq)]
pub struct ScanOutcome {
    /// Hosts discovered during scanning, sorted by IPv4 ascending.
    pub discovered_hosts: Vec<DiscoveredHost>,
    /// Non-fatal warnings.
    pub warnings: Vec<String>,
    /// Optional wall-clock timing summary attached after a successful scan.
    pub timing_summary: Option<ScanTimingSummary>,
}

impl ScanOutcome {
    /// Attaches a [`ScanTimingSummary`] after a successful scan, using the current host list
    /// length as the discovered host count. At least one scan round ran, so the round count is
    /// never zero.
    pub fn with_scan_timing_summary(
        self,
        network_interface_name: String,
        elapsed_wall_time: std::time::Duration,
        scan_round_count: u64,
    ) -> (outcome: Self)
        requires
            scan_round_count >= 1,
        ensures
            outcome.discovered_hosts == self.discovered_hosts,
            outcome.warnings == self.warnings,
            outcome.timing_summary == Some(
                ScanTimingSummary {
                    network_interface_name,
                    elapsed_wall_time,
                    scan_round_count,
                    discovered_host_count: self.discovered_hosts.len(),
                },
            ),
    {
        let discovered_host_count = self.discovered_hosts.len();
        ScanOutcome {
            discovered_hosts: self.discovered_hosts,
            warnings: self.warnings,
            timing_summary: Some(
                ScanTimingSummary {
                    network_interface_name,
                    elapsed_wall_time,
                    scan_round_count,
                    discovered_host_count,
                },
            ),
        }
    }
}

/// One row in the usable-interface listing table.
#[derive(Debug, Clone, PartialEq, Eq)]
pub struct UsableInterfaceListingRow {
    /// Operating system interface name.
    pub interface_name: String,
    /// Interface index.
    pub interface_index: u32,
    /// Primary IPv4 address.
    pub ipv4_address: Ipv4Address,
    /// IPv4 netmask.
    pub ipv4_netmask: Ipv4Address,
    /// Ethernet hardware address.
    pub media_access_control_address: MacAddress,
}

/// Outcome of listing interfaces that are usable for ARP scanning.
#[derive(Debug, Clone, PartialEq, Eq)]
pub struct UsableInterfacesListOutcome {
    /// Usable interfaces, sorted by interface index then name.
    pub entries: Vec<UsableInterfaceListingRow>,
}

/// Column widths of the interface table.
pub const USABLE_INTERFACE_TABLE_NAME_WIDTH: usize = 16;
pub const USABLE_INTERFACE_TABLE_INDEX_WIDTH: usize = 6;
pub const USABLE_INTERFACE_TABLE_IPV4_WIDTH: usize = 15;
pub const USABLE_INTERFACE_TABLE_NETMASK_WIDTH: usize = 15;

/// The header line of the interface table.
pub open spec fn table_header_line() -> Seq<char> {
    pad_right("NAME"@, 16) + " "@ + pad_left("INDEX"@, 6) + " "@ + pad_right("IPV4"@, 15) + " "@
        + pad_right("NETMASK"@, 15) + " MAC\n"@
}

/// The table line of one usable interface.
pub open spec fn table_row_line(row: UsableInterfaceListingRow) -> Seq<char> {
    pad_right(row.interface_name@, 16) + " "@ + pad_left(decimal(row.interface_index as nat), 6)
        + " "@ + pad_right(ipv4_text(row.ipv4_address.octets@), 15) + " "@ + pad_right(
        ipv4_text(row.ipv4_netmask.octets@),
        15,
    ) + " "@ + mac_text(row.media_access_control_address.octets@) + "\n"@
}

/// The table lines of the rows, in order.
pub open spec fn table_row_lines(rows: Seq<UsableInterfaceListingRow>) -> Seq<char>
    decreases rows.len(),
{
    if rows.len() == 0 {
        Seq::empty()
    } else {
        table_row_lines(rows.drop_last()) + table_row_line(rows.last())
    }
}

/// The interface listing as operators see it.
pub open spec fn table_text(rows: Seq<UsableInterfaceListingRow>) -> Seq<char> {
    if rows.len() == 0 {
        "no usable interfaces found\n"@
    } else {
        table_header_line() + table_row_lines(rows) + "\n"@
    }
}

fn push_table_row(text: &mut String, row: &UsableInterfaceListingRow)
    ensures
        final(text)@ == old(text)@ + table_row_line(*row),
{
    push_padded_right(text, row.interface_name.as_str(), USABLE_INTERFACE_TABLE_NAME_WIDTH);
    text.append(" ");
    let mut index = String::new();
    push_decimal(&mut index, row.interface_index as u64);
    push_padded_left(text, index.as_str(), USABLE_INTERFACE_TABLE_INDEX_WIDTH);
    text.append(" ");
    let address = row.ipv4_address.to_display_string();
    push_padded_right(text, address.as_str(), USABLE_INTERFACE_TABLE_IPV4_WIDTH);
    text.append(" ");
    let netmask = row.ipv4_netmask.to_display_string();
    push_padded_right(text, netmask.as_str(), USABLE_INTERFACE_TABLE_NETMASK_WIDTH);
    text.append(" ");
    let mac = row.media_access_control_address.to_display_string();
    text.append(mac.as_str());
    text.append("\n");
}

impl UsableInterfacesListOutcome {
    /// Formats a plain-text table with aligned columns, or a single message when there are no
    /// entries.
    pub fn format_plain_columns_table(&self) -> (table: String)
        ensures
            table@ == table_text(self.entries@),
    {
        let mut lines = String::new();
        if self.entries.len() == 0 {
            lines.append("no usable interfaces found\n");
            return lines;
        }
        push_padded_right(&mut lines, "NAME", USABLE_INTERFACE_TABLE_NAME_WIDTH);
        lines.append(" ");
        push_padded_left(&mut lines, "INDEX", USABLE_INTERFACE_TABLE_INDEX_WIDTH);
        lines.append(" ");
        push_padded_right(&mut lines, "IPV4", USABLE_INTERFACE_TABLE_IPV4_WIDTH);
        lines.append(" ");
        push_padded_right(&mut lines, "NETMASK", USABLE_INTERFACE_TABLE_NETMASK_WIDTH);
        lines.append(" MAC\n");
        let ghost head = lines@;
        let ghost all = self.entries@;
        let mut i: usize = 0;
        assert(all.take(0) =~= Seq::<UsableInterfaceListingRow>::empty());
        while i < self.entries.len()
            invariant
                i <= self.entries.len(),
                all == self.entries@,
                lines@ == head + table_row_lines(all.take(i as int)),
            decreases self.entries.len() - i,
        {
            assert(all.take(i + 1).drop_last() =~= all.take(i as int));
            push_table_row(&mut lines, &self.entries[i]);
            i = i + 1;
        }
        assert(all.take(self.entries.len() as int) =~= all);
        lines.append("\n");
        assert(lines@ =~= table_text(self.entries@));
        lines
    }
}

/// Successful outcome of a scan or interface listing.
#[derive(Debug, Clone, PartialEq, Eq)]
pub enum ApplicationOutcome {
    /// Completed scan.
    Scan(ScanOutcome),
    /// Listed interfaces usable for ARP scanning.
    UsableInterfacesList(UsableInterfacesListOutcome),
}

/// The stream an operator-visible write goes to.
#[derive(Debug, Clone, Copy, PartialEq, Eq, Structural)]
pub enum OperatorStream {
    /// Standard output.
    StandardOutput,
    /// Standard error.
    StandardError,
}

/// `<IPv4> <MAC>` of a discovered host.
pub open spec fn host_text(host: DiscoveredHost) -> Seq<char> {
    ipv4_text(host.ipv4_address.octets@) + " "@ + mac_text(host.media_access_control_address.octets@)
}

/// The line written for a discovered host: `<IPv4> <MAC>`.
pub open spec fn host_line(host: DiscoveredHost) -> Seq<char> {
    host_text(host) + "\n"@
}

/// The writes of the warnings, in order.
pub open spec fn warning_writes(warnings: Seq<Seq<char>>) -> Seq<(OperatorStream, Seq<char>)>
    decreases warnings.len(),
{
    if warnings.len() == 0 {
        Seq::empty()
    } else {
        warning_writes(warnings.drop_last()).push(
            (OperatorStream::StandardError, "warning: "@ + warnings.last() + "\n"@),
        )
    }
}

/// The writes of the hosts, in order.
pub open spec fn host_writes(hosts: Seq<DiscoveredHost>) -> Seq<(OperatorStream, Seq<char>)>
    decreases hosts.len(),
{
    if hosts.len() == 0 {
        Seq::empty()
    } else {
        host_writes(hosts.drop_last()).push((OperatorStream::StandardOutput, host_line(hosts.last())))
    }
}

/// Label of a host whose vendor is not known.
pub const UNKNOWN_MAC_VENDOR_NAME: &'static str = "(Unknown)";

/// The vendor shown for the host at `index`: the name found for it, or `(Unknown)` when none
/// was found or the list has no entry at that position.
pub open spec fn vendor_label(vendor_names: Seq<Option<String>>, index: int) -> Seq<char> {
    if 0 <= index < vendor_names.len() && vendor_names[index] is Some {
        vendor_names[index]->0@
    } else {
        "(Unknown)"@
    }
}

/// The line written for a discovered host with its vendor: `<IPv4> <MAC> <vendor>`.
pub open spec fn vendor_host_line(host: DiscoveredHost, vendor: Seq<char>) -> Seq<char> {
    host_text(host) + " "@ + vendor + "\n"@
}

/// The writes of the hosts with their vendors, in order; the host at position `i` takes the
/// vendor at position `i`.
pub open spec fn vendor_host_writes(
    hosts: Seq<DiscoveredHost>,
    vendor_names: Seq<Option<String>>,
) -> Seq<(OperatorStream, Seq<char>)>
    decreases hosts.len(),
{
    if hosts.len() == 0 {
        Seq::empty()
    } else {
        vendor_host_writes(hosts.drop_last(), vendor_names).push(
            (
                OperatorStream::StandardOutput,
                vendor_host_line(hosts.last(), vendor_label(vendor_names, hosts.len() - 1)),
            ),
        )
    }
}

/// The writes a scan outcome produces, given the writes of its host lines: warnings on
/// standard error, then the host lines (or `no hosts found`) on standard output, then the
/// timing summary, if any, on standard error.
pub open spec fn scan_writes_with_hosts(
    scan: ScanOutcome,
    hosts: Seq<(OperatorStream, Seq<char>)>,
) -> Seq<(OperatorStream, Seq<char>)> {
    let warnings = warning_writes(scan.warnings.deep_view());
    let host_section = if scan.discovered_hosts.len() == 0 {
        seq![(OperatorStream::StandardOutput, "no hosts found\n"@)]
    } else {
        hosts
    };
    let timing = match scan.timing_summary {
        Some(summary) => seq![
            (
                OperatorStream::StandardError,
                timing_line(
                    summary.network_interface_name@,
                    summary.discovered_host_count as nat,
                    summary.scan_round_count as nat,
                    summary_milliseconds(summary),
                ) + "\n"@,
            ),
        ],
        None => Seq::empty(),
    };
    warnings + host_section + timing
}

/// The writes of a scan outcome with host lines `<IPv4> <MAC>`.
pub open spec fn scan_writes(scan: ScanOutcome) -> Seq<(OperatorStream, Seq<char>)> {
    scan_writes_with_hosts(scan, host_writes(scan.discovered_hosts@))
}

/// The writes of a scan outcome with host lines `<IPv4> <MAC> <vendor>`.
pub open spec fn vendor_scan_writes(
    scan: ScanOutcome,
    vendor_names: Seq<Option<String>>,
) -> Seq<(OperatorStream, Seq<char>)> {
    scan_writes_with_hosts(scan, vendor_host_writes(scan.discovered_hosts@, vendor_names))
}

/// The writes of an outcome: for a scan, with vendor-annotated host lines when vendor names
/// are given; for an interface listing, the table on standard output.
pub open spec fn outcome_writes(
    outcome: ApplicationOutcome,
    vendor_names: Option<Seq<Option<String>>>,
) -> Seq<(OperatorStream, Seq<char>)> {
    match outcome {
        ApplicationOutcome::Scan(scan) => match vendor_names {
            None => scan_writes(scan),
            Some(names) => vendor_scan_writes(scan, names),
        },
        ApplicationOutcome::UsableInterfacesList(listing) => seq![
            (OperatorStream::StandardOutput, table_text(listing.entries@)),
        ],
    }
}

/// The writes as stream and text.
pub open spec fn writes_view(writes: Seq<(OperatorStream, String)>) -> Seq<(OperatorStream, Seq<char>)> {
    writes.map_values(|write: (OperatorStream, String)| (write.0, write.1@))
}

/// `<IPv4> <MAC>` of a discovered host.
pub fn format_discovered_host_line(host: &DiscoveredHost) -> (line: String)
    ensures
        line@ == host_text(*host),
{
    let mut line = host.ipv4_address.to_display_string();
    line.append(" ");
    let mac = host.media_access_control_address.to_display_string();
    line.append(mac.as_str());
    line
}

fn push_write(writes: &mut Vec<(OperatorStream, String)>, stream: OperatorStream, text: String)
    ensures
        writes_view(final(writes)@) == writes_view(old(writes)@).push((stream, text@)),
{
    writes.push((stream, text));
    assert(writes_view(final(writes)@) =~= writes_view(old(writes)@).push((stream, text@)));
}

/// `<IPv4> <MAC> <vendor>` of a discovered host.
fn format_vendor_host_line(host: &DiscoveredHost, vendor: &str) -> (line: String)
    ensures
        line@ == vendor_host_line(*host, vendor@),
{
    let mut line = format_discovered_host_line(host);
    line.append(" ");
    line.append(vendor);
    line.append("\n");
    line
}

/// The vendor label of the host at `index`.
fn vendor_label_at(vendor_names: &[Option<String>], index: usize) -> (label: &str)
    ensures
        label@ == vendor_label(vendor_names@, index as int),
{
    if index < vendor_names.len() {
        match &vendor_names[index] {
            Some(name) => name.as_str(),
            None => UNKNOWN_MAC_VENDOR_NAME,
        }
    } else {
        UNKNOWN_MAC_VENDOR_NAME
    }
}

/// The writes of a scan outcome, with vendor-annotated host lines when vendor names are given.
fn scan_operator_writes(scan: &ScanOutcome, vendor_names: Option<&[Option<String>]>) -> (writes:
    Vec<(OperatorStream, String)>)
    ensures
        writes_view(writes@) == match vendor_names {
            None => scan_writes(*scan),
            Some(names) => vendor_scan_writes(*scan, names@),
        },
{
    let mut writes: Vec<(OperatorStream, String)> = Vec::new();
    let ghost all_warnings = scan.warnings.deep_view();
    let mut i: usize = 0;
    assert(all_warnings.take(0) =~= Seq::<Seq<char>>::empty());
    assert(writes_view(writes@) =~= Seq::<(OperatorStream, Seq<char>)>::empty());
    while i < scan.warnings.len()
        invariant
            i <= scan.warnings.len(),
            all_warnings == scan.warnings.deep_view(),
            writes_view(writes@) == warning_writes(all_warnings.take(i as int)),
        decreases scan.warnings.len() - i,
    {
        assert(all_warnings.take(i + 1).drop_last() =~= all_warnings.take(i as int));
        assert(all_warnings[i as int] == scan.warnings@[i as int]@);
        let mut line = String::new();
        line.append("warning: ");
        line.append(scan.warnings[i].as_str());
        line.append("\n");
        push_write(&mut writes, OperatorStream::StandardError, line);
        i = i + 1;
    }
    assert(all_warnings.take(scan.warnings.len() as int) =~= all_warnings);
    let ghost after_warnings = writes_view(writes@);
    let ghost hosts = scan.discovered_hosts@;
    let ghost host_section = match vendor_names {
        None => host_writes(hosts),
        Some(names) => vendor_host_writes(hosts, names@),
    };
    if scan.discovered_hosts.len() == 0 {
        let mut line = String::new();
        line.append("no hosts found\n");
        push_write(&mut writes, OperatorStream::StandardOutput, line);
    } else {
        let mut j: usize = 0;
        assert(hosts.take(0) =~= Seq::<DiscoveredHost>::empty());
        assert(after_warnings + host_writes(hosts.take(0)) =~= after_warnings);
        assert(vendor_names is Some ==> after_warnings + vendor_host_writes(
            hosts.take(0),
            vendor_names->0@,
        ) =~= after_warnings);
        while j < scan.discovered_hosts.len()
            invariant
                j <= scan.discovered_hosts.len(),
                hosts == scan.discovered_hosts@,
                writes_view(writes@) == after_warnings + match vendor_names {
                    None => host_writes(hosts.take(j as int)),
                    Some(names) => vendor_host_writes(hosts.take(j as int), names@),
                },
            decreases scan.discovered_hosts.len() - j,
        {
            assert(hosts.take(j + 1).drop_last() =~= hosts.take(j as int));
            assert(hosts.take(j + 1).last() == hosts[j as int]);
            let line = match vendor_names {
                None => {
                    let mut line = format_discovered_host_line(&scan.discovered_hosts[j]);
                    line.append("\n");
                    line
                },
                Some(names) => {
                    let vendor = vendor_label_at(names, j);
                    format_vendor_host_line(&scan.discovered_hosts[j], vendor)
                },
            };
            push_write(&mut writes, OperatorStream::StandardOutput, line);
            j = j + 1;
            assert(writes_view(writes@) =~= after_warnings + match vendor_names {
                None => host_writes(hosts.take(j as int)),
                Some(names) => vendor_host_writes(hosts.take(j as int), names@),
            });
        }
        assert(hosts.take(scan.discovered_hosts.len() as int) =~= hosts);
    }
    match &scan.timing_summary {
        Some(summary) => {
            let mut line = summary.format_stderr_timing_summary_line();
            line.append("\n");
            push_write(&mut writes, OperatorStream::StandardError, line);
            assert(writes_view(writes@) =~= scan_writes_with_hosts(*scan, host_section));
        },
        None => {
            assert(writes_view(writes@) =~= scan_writes_with_hosts(*scan, host_section));
        },
    }
    writes
}

impl ApplicationOutcome {
    /// The writes the binary performs for this outcome, in order, each with its stream:
    /// for a scan, warnings on standard error, then host lines `<IPv4> <MAC>` (or
    /// `no hosts found`) on standard output, then the optional timing summary on standard
    /// error; for an interface listing, the formatted table on standard output.
    pub fn operator_writes(&self) -> (writes: Vec<(OperatorStream, String)>)
        ensures
            writes_view(writes@) == outcome_writes(*self, None),
    {
        self.operator_writes_with_mac_vendor_names(None)
    }

    /// The writes of [`ApplicationOutcome::operator_writes`], with host lines annotated by
    /// vendor when `vendor_names` is given: the host at position `i` is written
    /// `<IPv4> <MAC> <vendor>`, with the name at position `i`, or `(Unknown)` when that entry is
    /// `None` or missing. Without vendor names, host lines stay `<IPv4> <MAC>`.
    pub fn operator_writes_with_mac_vendor_names(
        &self,
        vendor_names: Option<&[Option<String>]>,
    ) -> (writes: Vec<(OperatorStream, String)>)
        ensures
            writes_view(writes@) == outcome_writes(
                *self,
                match vendor_names {
                    None => None,
                    Some(names) => Some(names@),
                },
            ),
    {
        match self {
            ApplicationOutcome::Scan(scan) => scan_operator_writes(scan, vendor_names),
            ApplicationOutcome::UsableInterfacesList(listing) => {
                let mut writes: Vec<(OperatorStream, String)> = Vec::new();
                let table = listing.format_plain_columns_table();
                push_write(&mut writes, OperatorStream::StandardOutput, table);
                assert(writes_view(writes@) =~= seq![
                    (OperatorStream::StandardOutput, table_text(listing.entries@)),
                ]);
                writes
            },
        }
    }
}

} // verus!
