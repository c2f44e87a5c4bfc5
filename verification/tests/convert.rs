use new_arp_scan::assignment::normalize_assignment;
use new_arp_scan::convert::{convert_ieee_registry_csvs, RegistryCsvInput};
use new_arp_scan::error::ConvertError;
use new_arp_scan::registry::IeeeMacRegistry;
use new_arp_scan::render::render_ieee_oui_text;

const RETRIEVED_AT: &str = "2026-09-17T12:00:00Z";

fn input(registry: IeeeMacRegistry, csv_text: &str) -> RegistryCsvInput<'_> {
    RegistryCsvInput { registry, csv_text }
}

fn four_registry_inputs<'a>(
    mal: &'a str,
    mam: &'a str,
    mas: &'a str,
    iab: &'a str,
) -> [RegistryCsvInput<'a>; 4] {
    [
        input(IeeeMacRegistry::MaL, mal),
        input(IeeeMacRegistry::MaM, mam),
        input(IeeeMacRegistry::MaS, mas),
        input(IeeeMacRegistry::Iab, iab),
    ]
}

fn standard_companion_csvs() -> (String, String, String) {
    let mam = "Registry,Assignment,Organization Name,Organization Address\r\nMA-M,F4A4750,Fixture MA-M,Addr\r\n".to_string();
    let mas = "Registry,Assignment,Organization Name,Organization Address\r\nMA-S,F4A475000,Fixture MA-S,Addr\r\n".to_string();
    let iab = "Registry,Assignment,Organization Name,Organization Address\r\nIAB,40D8550D7,Avant Technologies,Addr\r\n".to_string();
    (mam, mas, iab)
}

#[test]
fn converts_quoted_utf8_whitespace_private_and_duplicate_rows() {
    let mal = "\
Registry,Assignment,Organization Name,Organization Address\r
MA-L,F4A475,Intel Corporate,Santa Clara\r
MA-L,AA:BB:CC,Separated Prefix,Addr\r
MA-L,AA.BB.00,Dotted Prefix,Addr\r
MA-L,aa-bb-11,Lowercase Separated,Addr\r
MA-L,001122,First,Addr\r
MA-L,001122,Second,Addr\r
MA-L,00FFEE,\"Vendor, with comma\",Addr\r
MA-L,00DDEE,Private,\r
MA-L,00CCDD,IEEE Registration Authority,Piscataway\r
MA-L,00BBAA,\"Shenzhen YOUHUA Technology Co., Ltd\t\",Addr\r
MA-L,00AA99,\"He said \"\"Hello\"\"\",Addr\r
MA-L,00AA88,Møller Elektronik,Århus\r
";
    let (mam, mas, iab) = standard_companion_csvs();
    let inputs = four_registry_inputs(mal, &mam, &mas, &iab);

    let converted =
        convert_ieee_registry_csvs(&inputs, RETRIEVED_AT).expect("fixture CSVs should convert");

    assert!(
        converted.text.contains("Retrieved (UTC): 2026-09-17T12:00:00Z")
            && converted.text.contains(IeeeMacRegistry::Iab.csv_url()),
        "provenance header should include timestamp and IAB URL, got:\n{}",
        converted.text
    );
    assert_eq!(converted.counts[0].source_rows, 12);
    assert_eq!(converted.counts[0].emitted, 11);
    assert_eq!(converted.counts[0].duplicates_removed, 1);
    for line in [
        "001122\tSecond\n",
        "00FFEE\tVendor, with comma\n",
        "00DDEE\tPrivate\n",
        "00CCDD\tIEEE Registration Authority\n",
        "00BBAA\tShenzhen YOUHUA Technology Co., Ltd\n",
        "AABBCC\tSeparated Prefix\n",
        "AABB00\tDotted Prefix\n",
        "AABB11\tLowercase Separated\n",
        "00AA99\tHe said \"Hello\"\n",
        "00AA88\tMøller Elektronik\n",
        "F4A475000\tFixture MA-S\n",
    ] {
        assert!(converted.text.contains(line), "missing {line:?} in:\n{}", converted.text);
    }
    assert!(
        converted.text.contains("001122\tSecond\n") && !converted.text.contains("001122\tFirst\n"),
        "deduped output should emit the last vendor once, got:\n{}",
        converted.text
    );
    let intel_offset = converted
        .text
        .find("F4A475\tIntel Corporate\n")
        .expect("MA-L Intel row");
    let duplicate_offset = converted
        .text
        .find("001122\tSecond\n")
        .expect("deduped MA-L row");
    assert!(
        intel_offset < duplicate_offset,
        "duplicate prefixes must keep first-seen emit order, got:\n{}",
        converted.text
    );
    assert!(
        converted
            .text
            .contains("#   MA-L: 11 emitted (12 source rows, 1 duplicate removed)"),
        "singular 'duplicate' for a count of one, got:\n{}",
        converted.text
    );
}

#[test]
fn conversion_is_byte_stable_for_fixed_inputs_and_timestamp() {
    let mal = "Registry,Assignment,Organization Name,Organization Address\r\nMA-L,AABBCC,Example,Addr\r\n";
    let (mam, mas, iab) = standard_companion_csvs();
    let inputs = four_registry_inputs(mal, &mam, &mas, &iab);

    let first = convert_ieee_registry_csvs(&inputs, RETRIEVED_AT).expect("first convert");
    let second = convert_ieee_registry_csvs(&inputs, RETRIEVED_AT).expect("second convert");

    assert_eq!(first.text, second.text);
    assert!(first.text.contains("AABBCC\tExample\n"));
    assert!(first
        .text
        .contains("#   MA-L: 1 emitted (1 source row, 0 duplicates removed)"));
}

#[test]
fn overlapping_ma_s_and_iab_keep_the_later_source_row() {
    let mal = "Registry,Assignment,Organization Name,Organization Address\r\nMA-L,AABBCC,Example,Addr\r\n";
    let mam = "Registry,Assignment,Organization Name,Organization Address\r\nMA-M,F4A4750,Fixture MA-M,Addr\r\n";
    let mas = "Registry,Assignment,Organization Name,Organization Address\r\nMA-S,40D8550D7,From MA-S,Addr\r\n";
    let iab = "Registry,Assignment,Organization Name,Organization Address\r\nIAB,40D8550D7,From IAB,Addr\r\n";

    let converted =
        convert_ieee_registry_csvs(&four_registry_inputs(mal, mam, mas, iab), RETRIEVED_AT)
            .expect("overlapping 36-bit prefixes should convert");

    let mas_offset = converted.text.find("40D8550D7\tFrom MA-S\n").expect("MA-S row");
    let iab_offset = converted.text.find("40D8550D7\tFrom IAB\n").expect("IAB row");
    assert!(
        mas_offset < iab_offset,
        "IAB is emitted last, so a last-row-wins reader keeps IAB, got:\n{}",
        converted.text
    );
}

#[test]
fn rejects_wrong_header() {
    let mal = "Registry,Assignment,Name,Address\r\nMA-L,AABBCC,Example,Addr\r\n";
    let (mam, mas, iab) = standard_companion_csvs();
    let inputs = four_registry_inputs(mal, &mam, &mas, &iab);

    let outcome = convert_ieee_registry_csvs(&inputs, RETRIEVED_AT);

    assert!(
        matches!(outcome, Err(ConvertError::InvalidHeader { .. })),
        "wrong header should fail loudly, got: {outcome:?}"
    );
}

#[test]
fn rejects_wrong_registry_label() {
    let mal = "Registry,Assignment,Organization Name,Organization Address\r\nMA-M,AABBCC,Example,Addr\r\n";
    let (mam, mas, iab) = standard_companion_csvs();
    let inputs = four_registry_inputs(mal, &mam, &mas, &iab);

    let outcome = convert_ieee_registry_csvs(&inputs, RETRIEVED_AT);

    assert!(
        matches!(
            outcome,
            Err(ConvertError::RegistryMismatch {
                expected: IeeeMacRegistry::MaL,
                line_number: 2,
                ..
            })
        ),
        "MA-M row in the MA-L file should fail, got: {outcome:?}"
    );
}

#[test]
fn rejects_assignment_that_would_require_truncation() {
    let mal = "Registry,Assignment,Organization Name,Organization Address\r\nMA-L,AABBCCDD,TooLong,Addr\r\n";
    let (mam, mas, iab) = standard_companion_csvs();
    let inputs = four_registry_inputs(mal, &mam, &mas, &iab);

    let outcome = convert_ieee_registry_csvs(&inputs, RETRIEVED_AT);

    assert!(
        matches!(
            outcome,
            Err(ConvertError::InvalidAssignment {
                registry: IeeeMacRegistry::MaL,
                line_number: 2,
                ..
            })
        ),
        "over-long assignments must not be truncated, got: {outcome:?}"
    );
}

#[test]
fn rejects_short_and_non_hex_assignments() {
    let short = "Registry,Assignment,Organization Name,Organization Address\r\nMA-L,AABB,Short,Addr\r\n";
    let not_hex = "Registry,Assignment,Organization Name,Organization Address\r\nMA-L,GGHHII,Bad,Addr\r\n";
    let (mam, mas, iab) = standard_companion_csvs();

    let short_outcome =
        convert_ieee_registry_csvs(&four_registry_inputs(short, &mam, &mas, &iab), RETRIEVED_AT);
    let not_hex_outcome = convert_ieee_registry_csvs(
        &four_registry_inputs(not_hex, &mam, &mas, &iab),
        RETRIEVED_AT,
    );

    assert!(
        matches!(short_outcome, Err(ConvertError::InvalidAssignment { .. })),
        "short assignment should fail, got: {short_outcome:?}"
    );
    assert!(
        matches!(not_hex_outcome, Err(ConvertError::InvalidAssignment { .. })),
        "non-hex assignment should fail, got: {not_hex_outcome:?}"
    );
}

#[test]
fn rejects_empty_vendor_and_empty_registry() {
    let empty_vendor = "Registry,Assignment,Organization Name,Organization Address\r\nMA-L,AABBCC,   ,Addr\r\n";
    let header_only = "Registry,Assignment,Organization Name,Organization Address\r\n";
    let (mam, mas, iab) = standard_companion_csvs();

    let empty_vendor_outcome = convert_ieee_registry_csvs(
        &four_registry_inputs(empty_vendor, &mam, &mas, &iab),
        RETRIEVED_AT,
    );
    let empty_registry_outcome = convert_ieee_registry_csvs(
        &four_registry_inputs(header_only, &mam, &mas, &iab),
        RETRIEVED_AT,
    );

    assert!(
        matches!(
            empty_vendor_outcome,
            Err(ConvertError::EmptyVendor {
                registry: IeeeMacRegistry::MaL,
                ..
            })
        ),
        "blank vendor should fail, got: {empty_vendor_outcome:?}"
    );
    assert!(
        matches!(
            empty_registry_outcome,
            Err(ConvertError::EmptyRegistry {
                registry: IeeeMacRegistry::MaL
            })
        ),
        "header-only CSV should fail, got: {empty_registry_outcome:?}"
    );
}

#[test]
fn rejects_wrong_field_count() {
    let short = "Registry,Assignment,Organization Name,Organization Address\r\nMA-L,AABBCC,OnlyThree\r\n";
    let extra = "Registry,Assignment,Organization Name,Organization Address\r\nMA-L,AABBCC,Five,Addr,Extra\r\n";
    let (mam, mas, iab) = standard_companion_csvs();

    let short_outcome =
        convert_ieee_registry_csvs(&four_registry_inputs(short, &mam, &mas, &iab), RETRIEVED_AT);
    let extra_outcome =
        convert_ieee_registry_csvs(&four_registry_inputs(extra, &mam, &mas, &iab), RETRIEVED_AT);

    assert!(
        matches!(
            short_outcome,
            Err(ConvertError::WrongFieldCount {
                registry: IeeeMacRegistry::MaL,
                field_count: 3,
                ..
            })
        ),
        "short records should fail, got: {short_outcome:?}"
    );
    assert!(
        matches!(
            extra_outcome,
            Err(ConvertError::WrongFieldCount {
                registry: IeeeMacRegistry::MaL,
                field_count: 5,
                ..
            })
        ),
        "extra columns should fail, got: {extra_outcome:?}"
    );
}

#[test]
fn strips_utf8_bom_and_accepts_lf_only_newlines() {
    let mal = "\u{feff}Registry,Assignment,Organization Name,Organization Address\nMA-L,AABBCC,Bom Vendor,Addr\n";
    let (mam, mas, iab) = standard_companion_csvs();

    let converted =
        convert_ieee_registry_csvs(&four_registry_inputs(mal, &mam, &mas, &iab), RETRIEVED_AT)
            .expect("BOM + LF CSV should convert");

    assert!(converted.text.contains("AABBCC\tBom Vendor\n"));
}

#[test]
fn scale_fixture_preserves_every_unique_prefix() {
    let mut mal = String::from("Registry,Assignment,Organization Name,Organization Address\r\n");
    for index in 0..300_u16 {
        let prefix = format!("{index:06X}");
        mal.push_str(&format!("MA-L,{prefix},Vendor {index},Addr\r\n"));
    }
    let (mam, mas, iab) = standard_companion_csvs();

    let converted =
        convert_ieee_registry_csvs(&four_registry_inputs(&mal, &mam, &mas, &iab), RETRIEVED_AT)
            .expect("300-row MA-L fixture should convert");

    assert_eq!(converted.counts[0].emitted, 300);
    assert_eq!(converted.counts[0].duplicates_removed, 0);
    assert!(converted.text.contains("000000\tVendor 0\n"));
    assert!(converted.text.contains("00012B\tVendor 299\n"));
}

#[test]
fn normalize_assignment_does_not_drop_trailing_hex_to_fit_width() {
    let too_long = normalize_assignment("AABBCCDD", IeeeMacRegistry::MaL);
    let separated = normalize_assignment("AA-BB-CC", IeeeMacRegistry::MaL);

    assert_eq!(too_long, None);
    assert_eq!(separated.as_deref(), Some("AABBCC"));
}

#[test]
fn missing_registry_input_is_empty_registry() {
    let mal = "Registry,Assignment,Organization Name,Organization Address\r\nMA-L,AABBCC,Example,Addr\r\n";
    let mam = "Registry,Assignment,Organization Name,Organization Address\r\nMA-M,F4A4750,Fixture MA-M,Addr\r\n";
    let mas = "Registry,Assignment,Organization Name,Organization Address\r\nMA-S,F4A475000,Fixture MA-S,Addr\r\n";

    let outcome = convert_ieee_registry_csvs(
        &[
            input(IeeeMacRegistry::MaL, mal),
            input(IeeeMacRegistry::MaM, mam),
            input(IeeeMacRegistry::MaS, mas),
        ],
        RETRIEVED_AT,
    );

    assert!(
        matches!(
            outcome,
            Err(ConvertError::EmptyRegistry {
                registry: IeeeMacRegistry::Iab
            })
        ),
        "omitting IAB should fail rather than skip, got: {outcome:?}"
    );
}

#[test]
fn render_includes_sources_even_without_sections() {
    let text = render_ieee_oui_text(RETRIEVED_AT, &[]);

    assert!(text.contains("Sources:") && text.contains(RETRIEVED_AT));
    assert!(text.contains(IeeeMacRegistry::MaL.csv_url()));
}

#[test]
fn later_malformed_row_fails_the_whole_conversion() {
    let mal = "\
Registry,Assignment,Organization Name,Organization Address\r
MA-L,AABBCC,Good,Addr\r
MA-L,NOTHEX,Bad,Addr\r
";
    let (mam, mas, iab) = standard_companion_csvs();

    let outcome =
        convert_ieee_registry_csvs(&four_registry_inputs(mal, &mam, &mas, &iab), RETRIEVED_AT);

    assert!(
        matches!(
            outcome,
            Err(ConvertError::InvalidAssignment {
                registry: IeeeMacRegistry::MaL,
                ..
            })
        ),
        "a later bad row must fail the run, not skip, got: {outcome:?}"
    );
}

#[test]
fn rejects_unclosed_quotes_as_a_short_record() {
    let mal = "Registry,Assignment,Organization Name,Organization Address\r\nMA-L,AABBCC,\"unclosed,Addr\r\n";
    let (mam, mas, iab) = standard_companion_csvs();

    let outcome =
        convert_ieee_registry_csvs(&four_registry_inputs(mal, &mam, &mas, &iab), RETRIEVED_AT);

    assert!(
        matches!(
            outcome,
            Err(ConvertError::WrongFieldCount {
                registry: IeeeMacRegistry::MaL,
                field_count: 3,
                ..
            })
        ),
        "an unclosed quote must fail closed; csv+flexible yields a 3-field record, got: {outcome:?}"
    );
}

#[test]
fn quote_in_assignment_is_not_treated_as_a_separator() {
    let mal = "Registry,Assignment,Organization Name,Organization Address\r\nMA-L,AA\"BBCC,Name,Addr\r\n";
    let (mam, mas, iab) = standard_companion_csvs();

    let outcome =
        convert_ieee_registry_csvs(&four_registry_inputs(mal, &mam, &mas, &iab), RETRIEVED_AT);

    assert!(
        matches!(
            outcome,
            Err(ConvertError::InvalidAssignment {
                registry: IeeeMacRegistry::MaL,
                ref assignment,
                ..
            }) if assignment == "AA\"BBCC"
        ),
        "quotes are not IEEE assignment separators, got: {outcome:?}"
    );
}

#[test]
fn rejects_empty_file_and_header_with_wrong_column_count() {
    let empty = "";
    let extra_header = "Registry,Assignment,Organization Name,Organization Address,Extra\r\nMA-L,AABBCC,Example,Addr,X\r\n";
    let (mam, mas, iab) = standard_companion_csvs();

    let empty_outcome =
        convert_ieee_registry_csvs(&four_registry_inputs(empty, &mam, &mas, &iab), RETRIEVED_AT);
    let extra_outcome = convert_ieee_registry_csvs(
        &four_registry_inputs(extra_header, &mam, &mas, &iab),
        RETRIEVED_AT,
    );

    assert!(
        matches!(empty_outcome, Err(ConvertError::InvalidHeader { .. })),
        "empty CSV must fail the header check, got: {empty_outcome:?}"
    );
    assert!(
        matches!(extra_outcome, Err(ConvertError::InvalidHeader { .. })),
        "extra header columns must fail, got: {extra_outcome:?}"
    );
}

#[test]
fn preserves_inner_vendor_whitespace_and_rejects_empty_assignment() {
    let inner = "Registry,Assignment,Organization Name,Organization Address\r\nMA-L,AABBCC,  Foo  Bar  ,Addr\r\n";
    let empty_assignment =
        "Registry,Assignment,Organization Name,Organization Address\r\nMA-L,,NoAssign,Addr\r\n";
    let (mam, mas, iab) = standard_companion_csvs();

    let converted =
        convert_ieee_registry_csvs(&four_registry_inputs(inner, &mam, &mas, &iab), RETRIEVED_AT)
            .expect("inner whitespace vendor should convert");
    let empty_assignment_outcome = convert_ieee_registry_csvs(
        &four_registry_inputs(empty_assignment, &mam, &mas, &iab),
        RETRIEVED_AT,
    );

    assert!(converted.text.contains("AABBCC\tFoo  Bar\n"));
    assert!(
        matches!(
            empty_assignment_outcome,
            Err(ConvertError::InvalidAssignment {
                registry: IeeeMacRegistry::MaL,
                ref assignment,
                ..
            }) if assignment.is_empty()
        ),
        "empty Assignment must fail, got: {empty_assignment_outcome:?}"
    );
}

#[test]
fn assignment_widths_are_exact_for_ma_m_ma_s_and_iab() {
    let mal = "Registry,Assignment,Organization Name,Organization Address\r\nMA-L,AABBCC,Example,Addr\r\n";
    let mam_short = "Registry,Assignment,Organization Name,Organization Address\r\nMA-M,F4A475,TooShort,Addr\r\n";
    let mam_ok = "Registry,Assignment,Organization Name,Organization Address\r\nMA-M,F4A4750,Medium,Addr\r\n";
    let mas = "Registry,Assignment,Organization Name,Organization Address\r\nMA-S,F4A475000,Small,Addr\r\n";
    let iab_long = "Registry,Assignment,Organization Name,Organization Address\r\nIAB,40D8550D70,TooLong,Addr\r\n";
    let iab_ok = "Registry,Assignment,Organization Name,Organization Address\r\nIAB,40D8550D7,IabVendor,Addr\r\n";

    let short_mam =
        convert_ieee_registry_csvs(&four_registry_inputs(mal, mam_short, mas, iab_ok), RETRIEVED_AT);
    let long_iab =
        convert_ieee_registry_csvs(&four_registry_inputs(mal, mam_ok, mas, iab_long), RETRIEVED_AT);
    let ok = convert_ieee_registry_csvs(&four_registry_inputs(mal, mam_ok, mas, iab_ok), RETRIEVED_AT)
        .expect("exact widths should convert");

    assert!(
        matches!(
            short_mam,
            Err(ConvertError::InvalidAssignment {
                registry: IeeeMacRegistry::MaM,
                ..
            })
        ),
        "MA-M must not accept a 6-digit assignment, got: {short_mam:?}"
    );
    assert!(
        matches!(
            long_iab,
            Err(ConvertError::InvalidAssignment {
                registry: IeeeMacRegistry::Iab,
                ..
            })
        ),
        "IAB must not accept a 10-digit assignment, got: {long_iab:?}"
    );
    assert!(ok.text.contains("F4A4750\tMedium\n"));
    assert!(ok.text.contains("40D8550D7\tIabVendor\n"));
}

#[test]
fn invalid_assignment_error_keeps_the_raw_field_not_a_truncated_prefix() {
    let mal = "Registry,Assignment,Organization Name,Organization Address\r\nMA-L,AA-BB-CC-DD,TooLong,Addr\r\n";
    let (mam, mas, iab) = standard_companion_csvs();

    let outcome =
        convert_ieee_registry_csvs(&four_registry_inputs(mal, &mam, &mas, &iab), RETRIEVED_AT);

    assert!(
        matches!(
            outcome,
            Err(ConvertError::InvalidAssignment {
                registry: IeeeMacRegistry::MaL,
                ref assignment,
                ..
            }) if assignment == "AA-BB-CC-DD"
        ),
        "operators should see the raw assignment, not a silently truncated AABBCC, got: {outcome:?}"
    );
}

#[test]
fn assignment_that_is_only_separators_is_invalid() {
    let mal = "Registry,Assignment,Organization Name,Organization Address\r\nMA-L,:-.,EmptyHex,Addr\r\n";
    let (mam, mas, iab) = standard_companion_csvs();

    let outcome =
        convert_ieee_registry_csvs(&four_registry_inputs(mal, &mam, &mas, &iab), RETRIEVED_AT);

    assert!(
        matches!(
            outcome,
            Err(ConvertError::InvalidAssignment {
                registry: IeeeMacRegistry::MaL,
                ref assignment,
                ..
            }) if assignment == ":-."
        ),
        "separator-only Assignment must fail with the raw field, got: {outcome:?}"
    );
}

#[test]
fn header_with_too_few_columns_is_invalid() {
    let mal = "Registry,Assignment,Organization Name\r\nMA-L,AABBCC,Example\r\n";
    let (mam, mas, iab) = standard_companion_csvs();

    let outcome =
        convert_ieee_registry_csvs(&four_registry_inputs(mal, &mam, &mas, &iab), RETRIEVED_AT);

    assert!(
        matches!(outcome, Err(ConvertError::InvalidHeader { .. })),
        "a three-column header must fail, got: {outcome:?}"
    );
}
