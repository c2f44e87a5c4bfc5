use new_arp_scan::error::ConvertError;
use new_arp_scan::registry::IeeeMacRegistry;
use new_arp_scan::updater::UpdaterError;

#[test]
fn convert_error_display_names_registry_and_line() {
    let error = ConvertError::InvalidAssignment {
        registry: IeeeMacRegistry::MaL,
        assignment: "GGHHII".to_string(),
        line_number: 4,
    };

    let displayed = error.to_display_string();

    assert!(
        displayed.contains("MA-L") && displayed.contains('4') && displayed.contains("GGHHII"),
        "display should name registry, line, and assignment, got: {displayed}"
    );
    assert_eq!(
        displayed,
        "MA-L CSV line 4 has invalid assignment `GGHHII` (expected 6 hexadecimal digits after stripping separators)"
    );
}

#[test]
fn updater_error_display_includes_curl_url() {
    let error = UpdaterError::CurlFailed {
        url: "https://standards-oui.ieee.org/oui/oui.csv".to_string(),
        status: Some(22),
        stderr: "HTTP 403".to_string(),
    };

    let displayed = error.to_display_string();

    assert!(
        displayed.contains("standards-oui.ieee.org") && displayed.contains("22"),
        "curl failure should name the URL and exit status, got: {displayed}"
    );
    assert_eq!(
        displayed,
        "curl failed for https://standards-oui.ieee.org/oui/oui.csv (exit 22): HTTP 403"
    );
}

#[test]
fn convert_error_display_covers_header_vendor_and_csv_variants() {
    let header = ConvertError::InvalidHeader {
        found: "A,B".to_string(),
    };
    let empty = ConvertError::EmptyRegistry {
        registry: IeeeMacRegistry::MaS,
    };
    let csv = ConvertError::Csv {
        registry: Some(IeeeMacRegistry::Iab),
        line_number: Some(3),
        message: "quote".to_string(),
    };

    assert!(header.to_display_string().contains("IEEE CSV header is invalid"));
    assert!(empty.to_display_string().contains("MA-S"));
    let csv_display = csv.to_display_string();
    assert!(
        csv_display.contains("IAB") && csv_display.contains('3'),
        "CSV errors should name registry and line, got: {csv_display}"
    );
    assert_eq!(csv_display, "IAB CSV line 3: quote");
}

#[test]
fn curl_missing_and_usage_display_are_operator_facing() {
    let missing = UpdaterError::CurlMissing;
    let usage = UpdaterError::Usage {
        message: "--output requires a value".to_string(),
    };

    assert!(missing.to_display_string().contains("curl was not found"));
    assert_eq!(usage.to_display_string(), "--output requires a value");
}

#[test]
fn remaining_updater_error_displays_name_paths_and_causes() {
    let convert = UpdaterError::Convert(ConvertError::EmptyVendor {
        registry: IeeeMacRegistry::MaM,
        assignment: "F4A4750".to_string(),
        line_number: 9,
    });
    let read = UpdaterError::ReadCsv {
        path: "iab.csv".to_string(),
        message: "No such file or directory".to_string(),
    };
    let timestamp = UpdaterError::RetrievedAtTimestampUnavailable {
        message: "date printed an empty timestamp".to_string(),
    };
    let write = UpdaterError::Write {
        path: "ieee-oui.txt".to_string(),
        message: "disk full".to_string(),
    };
    let curl_no_status = UpdaterError::CurlFailed {
        url: "https://standards-oui.ieee.org/iab/iab.csv".to_string(),
        status: None,
        stderr: "spawn failed".to_string(),
    };
    let csv_no_line = ConvertError::Csv {
        registry: Some(IeeeMacRegistry::MaL),
        line_number: None,
        message: "utf-8".to_string(),
    };
    let csv_bare = ConvertError::Csv {
        registry: None,
        line_number: None,
        message: "empty".to_string(),
    };
    let csv_line_only = ConvertError::Csv {
        registry: None,
        line_number: Some(8),
        message: "quote".to_string(),
    };
    let fields = ConvertError::WrongFieldCount {
        registry: IeeeMacRegistry::Iab,
        line_number: 3,
        field_count: 2,
    };

    assert!(convert.to_display_string().contains("MA-M"));
    assert!(read.to_display_string().contains("iab.csv"));
    assert!(timestamp.to_display_string().contains("UTC retrieval timestamp"));
    assert!(write.to_display_string().contains("ieee-oui.txt"));
    assert!(curl_no_status.to_display_string().contains("iab.csv"));
    assert!(csv_no_line.to_display_string().contains("MA-L CSV:"));
    assert!(csv_bare.to_display_string().contains("IEEE CSV:"));
    assert!(csv_line_only.to_display_string().contains("line 8"));
    assert!(
        fields.to_display_string().contains("IAB")
            && fields.to_display_string().contains("2 fields")
    );
    let mismatch = ConvertError::RegistryMismatch {
        expected: IeeeMacRegistry::MaL,
        found: "MA-M".to_string(),
        line_number: 2,
    };
    let mismatch_display = mismatch.to_display_string();
    assert!(
        mismatch_display.contains("MA-L")
            && mismatch_display.contains("MA-M")
            && mismatch_display.contains("line 2"),
        "registry mismatch should name expected, found, and line, got: {mismatch_display}"
    );
}

#[test]
fn curl_failure_with_negative_status_and_padded_stderr() {
    let error = UpdaterError::CurlFailed {
        url: "u".to_string(),
        status: Some(-1),
        stderr: "  boom \n".to_string(),
    };
    assert_eq!(error.to_display_string(), "curl failed for u (exit -1): boom");
    let wrapped: UpdaterError = ConvertError::EmptyRegistry {
        registry: IeeeMacRegistry::Iab,
    }
    .into();
    assert_eq!(wrapped.to_display_string(), "IAB CSV contains no assignment rows");
}
