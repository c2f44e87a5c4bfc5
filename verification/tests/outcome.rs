use new_arp_scan::outcome::{
    ApplicationOutcome, DiscoveredHost, Ipv4Address, MacAddress, OperatorStream, ScanOutcome,
    UsableInterfaceListingRow, UsableInterfacesListOutcome,
};
use new_arp_scan::timing::ScanTimingSummary;
use std::num::NonZeroU64;
use std::time::Duration;

fn streams(outcome: &ApplicationOutcome) -> (String, String) {
    let mut standard_output = String::new();
    let mut standard_error = String::new();
    for (stream, text) in outcome.operator_writes() {
        match stream {
            OperatorStream::StandardOutput => standard_output.push_str(&text),
            OperatorStream::StandardError => standard_error.push_str(&text),
        }
    }
    (standard_output, standard_error)
}

#[test]
fn format_plain_columns_table_returns_message_when_entries_empty() {
    let outcome = UsableInterfacesListOutcome { entries: vec![] };

    let formatted = outcome.format_plain_columns_table();

    assert_eq!(
        formatted, "no usable interfaces found\n",
        "empty listing should print the agreed operator message"
    );
}

#[test]
fn format_plain_columns_table_includes_header_and_rows() {
    let outcome = UsableInterfacesListOutcome {
        entries: vec![UsableInterfaceListingRow {
            interface_name: "eth0".to_string(),
            interface_index: 2,
            ipv4_address: Ipv4Address::new(192, 168, 1, 10),
            ipv4_netmask: Ipv4Address::new(255, 255, 255, 0),
            media_access_control_address: MacAddress::from_octets([
                0x02, 0x00, 0x00, 0x00, 0x00, 0x01,
            ]),
        }],
    };

    let formatted = outcome.format_plain_columns_table();

    assert!(
        formatted.contains("NAME") && formatted.contains("INDEX"),
        "table should include column headers, got:\n{formatted}"
    );
    assert!(
        formatted.contains("eth0") && formatted.contains("192.168.1.10"),
        "table should include fixture row content, got:\n{formatted}"
    );
    assert_eq!(
        formatted,
        "NAME              INDEX IPV4            NETMASK         MAC\n\
         eth0                  2 192.168.1.10    255.255.255.0   02:00:00:00:00:01\n\n"
    );
}

#[test]
fn format_plain_columns_table_preserves_row_order_from_entries_vector() {
    let outcome = UsableInterfacesListOutcome {
        entries: vec![
            UsableInterfaceListingRow {
                interface_name: "z_second_row".to_string(),
                interface_index: 99,
                ipv4_address: Ipv4Address::new(10, 0, 0, 2),
                ipv4_netmask: Ipv4Address::new(255, 255, 255, 0),
                media_access_control_address: MacAddress::from_octets([
                    0x02, 0x00, 0x00, 0x00, 0x00, 0x02,
                ]),
            },
            UsableInterfaceListingRow {
                interface_name: "a_first_row".to_string(),
                interface_index: 5,
                ipv4_address: Ipv4Address::new(10, 0, 0, 1),
                ipv4_netmask: Ipv4Address::new(255, 255, 255, 0),
                media_access_control_address: MacAddress::from_octets([
                    0x02, 0x00, 0x00, 0x00, 0x00, 0x01,
                ]),
            },
        ],
    };

    let formatted = outcome.format_plain_columns_table();

    let first_position = formatted
        .find("z_second_row")
        .expect("first fixture row should appear in output");
    let second_position = formatted
        .find("a_first_row")
        .expect("second fixture row should appear in output");
    assert!(
        first_position < second_position,
        "table rows should follow `entries` order (not lexical sort), got:\n{formatted}"
    );
}

#[test]
fn long_interface_names_are_not_truncated() {
    let outcome = UsableInterfacesListOutcome {
        entries: vec![UsableInterfaceListingRow {
            interface_name: "a_very_long_interface_name".to_string(),
            interface_index: 1234567,
            ipv4_address: Ipv4Address::new(10, 0, 0, 1),
            ipv4_netmask: Ipv4Address::new(255, 0, 0, 0),
            media_access_control_address: MacAddress::from_octets([0xff; 6]),
        }],
    };
    let formatted = outcome.format_plain_columns_table();
    assert!(formatted.contains(
        "a_very_long_interface_name 1234567 10.0.0.1        255.0.0.0       ff:ff:ff:ff:ff:ff\n"
    ));
}

#[test]
fn write_operator_streams_writes_no_hosts_then_timing_on_separate_streams() {
    let timing = ScanTimingSummary {
        network_interface_name: "eth0".to_string(),
        elapsed_wall_time: Duration::from_millis(9),
        scan_round_count: NonZeroU64::MIN.get(),
        discovered_host_count: 0,
    };
    let outcome = ApplicationOutcome::Scan(ScanOutcome {
        discovered_hosts: vec![],
        warnings: vec![],
        timing_summary: Some(timing),
    });

    let (standard_output, standard_error) = streams(&outcome);

    assert_eq!(standard_output, "no hosts found\n");
    assert_eq!(
        standard_error,
        "scan complete: interface eth0, 0 hosts, 1 round, 9 ms\n"
    );
}

#[test]
fn write_operator_streams_emits_warnings_before_hosts_then_timing_on_standard_error() {
    let host = DiscoveredHost {
        ipv4_address: Ipv4Address::new(10, 0, 0, 2),
        media_access_control_address: MacAddress::from_octets([
            0xaa, 0xbb, 0xcc, 0xdd, 0xee, 0xff,
        ]),
    };
    let timing = ScanTimingSummary {
        network_interface_name: "eth1".to_string(),
        elapsed_wall_time: Duration::from_millis(2),
        scan_round_count: NonZeroU64::new(2).expect("two is non-zero").get(),
        discovered_host_count: 1,
    };
    let outcome = ApplicationOutcome::Scan(ScanOutcome {
        discovered_hosts: vec![host],
        warnings: vec!["first warning".to_string(), "second warning".to_string()],
        timing_summary: Some(timing),
    });

    let writes = outcome.operator_writes();
    let (standard_output, standard_error) = streams(&outcome);

    assert_eq!(standard_output, "10.0.0.2 aa:bb:cc:dd:ee:ff\n");
    assert_eq!(
        standard_error,
        "warning: first warning\nwarning: second warning\nscan complete: interface eth1, 1 host, 2 rounds, 2 ms\n"
    );
    let order: Vec<OperatorStream> = writes.iter().map(|(stream, _)| *stream).collect();
    assert_eq!(
        order,
        [
            OperatorStream::StandardError,
            OperatorStream::StandardError,
            OperatorStream::StandardOutput,
            OperatorStream::StandardError,
        ]
    );
}

#[test]
fn write_operator_streams_omits_timing_line_when_timing_summary_is_none() {
    let outcome = ApplicationOutcome::Scan(ScanOutcome {
        discovered_hosts: vec![],
        warnings: vec![],
        timing_summary: None,
    });

    let (standard_output, standard_error) = streams(&outcome);

    assert_eq!(standard_output, "no hosts found\n");
    assert!(standard_error.is_empty());
}

#[test]
fn write_operator_streams_writes_usable_interfaces_table_only_to_standard_output() {
    let outcome = ApplicationOutcome::UsableInterfacesList(UsableInterfacesListOutcome {
        entries: vec![],
    });

    let (standard_output, standard_error) = streams(&outcome);

    assert_eq!(standard_output, "no usable interfaces found\n");
    assert!(standard_error.is_empty());
}

#[test]
fn with_scan_timing_summary_sets_discovered_host_count_from_current_host_vector_length() {
    let hosts = vec![
        DiscoveredHost {
            ipv4_address: Ipv4Address::new(192, 168, 0, 1),
            media_access_control_address: MacAddress::from_octets([1, 1, 1, 1, 1, 1]),
        },
        DiscoveredHost {
            ipv4_address: Ipv4Address::new(192, 168, 0, 2),
            media_access_control_address: MacAddress::from_octets([2, 2, 2, 2, 2, 2]),
        },
    ];
    let scan = ScanOutcome {
        discovered_hosts: hosts,
        warnings: vec![],
        timing_summary: None,
    };

    let scan_with_timing = scan.with_scan_timing_summary(
        "br0".to_string(),
        Duration::ZERO,
        NonZeroU64::new(5).expect("five is non-zero").get(),
    );

    let summary = scan_with_timing
        .timing_summary
        .as_ref()
        .expect("timing summary should attach");
    assert_eq!(summary.discovered_host_count, 2);
    assert_eq!(summary.network_interface_name, "br0");
    assert_eq!(summary.scan_round_count, 5);
}

#[test]
fn write_operator_streams_preserves_discovered_host_vector_order_on_standard_output() {
    let first = DiscoveredHost {
        ipv4_address: Ipv4Address::new(10, 0, 0, 9),
        media_access_control_address: MacAddress::from_octets([9, 9, 9, 9, 9, 9]),
    };
    let second = DiscoveredHost {
        ipv4_address: Ipv4Address::new(10, 0, 0, 1),
        media_access_control_address: MacAddress::from_octets([1, 1, 1, 1, 1, 1]),
    };
    let outcome = ApplicationOutcome::Scan(ScanOutcome {
        discovered_hosts: vec![first, second],
        warnings: vec![],
        timing_summary: None,
    });

    let (standard_output, _) = streams(&outcome);

    assert_eq!(
        standard_output,
        "10.0.0.9 09:09:09:09:09:09\n10.0.0.1 01:01:01:01:01:01\n"
    );
}

#[test]
fn write_operator_streams_without_registry_keeps_two_column_host_lines() {
    let host = DiscoveredHost {
        ipv4_address: Ipv4Address::new(10, 0, 0, 1),
        media_access_control_address: MacAddress::from_octets([
            0x00, 0x11, 0x22, 0x33, 0x44, 0x55,
        ]),
    };
    let outcome = ApplicationOutcome::Scan(ScanOutcome {
        discovered_hosts: vec![host],
        warnings: vec![],
        timing_summary: None,
    });

    let (standard_output, _) = streams(&outcome);

    assert_eq!(standard_output, "10.0.0.1 00:11:22:33:44:55\n");
}

#[test]
fn mac_address_display_matches_lowercase_colon_format() {
    let address = MacAddress::from_octets([0x00u8, 0x1A, 0x2B, 0x3C, 0x4D, 0x5E]);
    assert_eq!(address.to_display_string(), "00:1a:2b:3c:4d:5e");
}

#[test]
fn ipv4_display_is_dotted_decimal() {
    assert_eq!(Ipv4Address::new(0, 0, 0, 0).to_display_string(), "0.0.0.0");
    assert_eq!(
        Ipv4Address::new(255, 255, 255, 255).to_display_string(),
        "255.255.255.255"
    );
}

fn vendor_streams(outcome: &ApplicationOutcome, vendor_names: &[Option<String>]) -> (String, String) {
    let mut standard_output = String::new();
    let mut standard_error = String::new();
    for (stream, text) in outcome.operator_writes_with_mac_vendor_names(Some(vendor_names)) {
        match stream {
            OperatorStream::StandardOutput => standard_output.push_str(&text),
            OperatorStream::StandardError => standard_error.push_str(&text),
        }
    }
    (standard_output, standard_error)
}

fn two_host_scan() -> ApplicationOutcome {
    ApplicationOutcome::Scan(ScanOutcome {
        discovered_hosts: vec![
            DiscoveredHost {
                ipv4_address: Ipv4Address::new(10, 0, 0, 1),
                media_access_control_address: MacAddress::from_octets([
                    0x00, 0x11, 0x22, 0x33, 0x44, 0x55,
                ]),
            },
            DiscoveredHost {
                ipv4_address: Ipv4Address::new(10, 0, 0, 2),
                media_access_control_address: MacAddress::from_octets([
                    0xff, 0xee, 0xdd, 0xcc, 0xbb, 0xaa,
                ]),
            },
        ],
        warnings: vec!["late reply".to_string()],
        timing_summary: Some(ScanTimingSummary {
            network_interface_name: "eth0".to_string(),
            elapsed_wall_time: Duration::from_millis(42),
            scan_round_count: 1,
            discovered_host_count: 2,
        }),
    })
}

#[test]
fn vendor_names_annotate_host_lines_and_unknown_vendors() {
    let outcome = two_host_scan();

    let (standard_output, standard_error) =
        vendor_streams(&outcome, &[Some("Example Corp".to_string()), None]);

    assert_eq!(
        standard_output,
        "10.0.0.1 00:11:22:33:44:55 Example Corp\n10.0.0.2 ff:ee:dd:cc:bb:aa (Unknown)\n"
    );
    assert_eq!(
        standard_error,
        "warning: late reply\nscan complete: interface eth0, 2 hosts, 1 round, 42 ms\n"
    );
}

#[test]
fn vendor_names_missing_for_a_host_show_unknown() {
    let outcome = two_host_scan();

    let (standard_output, _) = vendor_streams(&outcome, &[Some("Example Corp".to_string())]);

    assert_eq!(
        standard_output,
        "10.0.0.1 00:11:22:33:44:55 Example Corp\n10.0.0.2 ff:ee:dd:cc:bb:aa (Unknown)\n"
    );
}

#[test]
fn vendor_names_do_not_change_an_empty_scan_or_a_listing() {
    let empty = ApplicationOutcome::Scan(ScanOutcome {
        discovered_hosts: vec![],
        warnings: vec![],
        timing_summary: None,
    });
    let (standard_output, standard_error) = vendor_streams(&empty, &[]);
    assert_eq!(standard_output, "no hosts found\n");
    assert!(standard_error.is_empty());

    let listing = ApplicationOutcome::UsableInterfacesList(UsableInterfacesListOutcome {
        entries: vec![],
    });
    let (standard_output, standard_error) = vendor_streams(&listing, &[]);
    assert_eq!(standard_output, "no usable interfaces found\n");
    assert!(standard_error.is_empty());
}

#[test]
fn without_vendor_names_host_lines_match_operator_writes() {
    let outcome = two_host_scan();

    assert_eq!(
        outcome.operator_writes_with_mac_vendor_names(None),
        outcome.operator_writes()
    );
    let (standard_output, _) = streams(&outcome);
    assert_eq!(
        standard_output,
        "10.0.0.1 00:11:22:33:44:55\n10.0.0.2 ff:ee:dd:cc:bb:aa\n"
    );
}

#[test]
fn outcomes_clone_to_equal_values() {
    let outcome = two_host_scan();
    let copy = outcome.clone();
    assert_eq!(copy, outcome);
    assert_eq!(copy.operator_writes(), outcome.operator_writes());
}

#[test]
fn vendor_names_only_extend_host_lines() {
    let outcome = two_host_scan();
    let names = [Some("Example Corp".to_string()), None];

    let plain = outcome.operator_writes();
    let annotated = outcome.operator_writes_with_mac_vendor_names(Some(&names));

    assert_eq!(plain.len(), annotated.len());
    assert_eq!(annotated[0], plain[0]);
    assert_eq!(annotated[3], plain[3]);
    assert_eq!(annotated[1].1, plain[1].1.replace('\n', " Example Corp\n"));
    assert_eq!(annotated[2].1, plain[2].1.replace('\n', " (Unknown)\n"));
    for (plain_write, annotated_write) in plain.iter().zip(annotated.iter()) {
        assert_eq!(plain_write.0, annotated_write.0);
    }
}
