//! Deterministic conversion of the official IEEE CSV listings into `ieee-oui.txt` text.

use std::collections::HashMap;

use vstd::prelude::*;

use crate::assignment::{
    all_upper_hex, hex_value, lemma_hex_value_injective, lemma_normalized_assignment_shape,
    normalize_assignment_keyed, normalized_assignment,
};
use crate::csv_source::{
    CsvFailure, CsvFailureView, CsvRecord, CsvRecordView, csv_data_records, csv_header_record,
    read_csv_header, read_csv_records, record_view, records_view,
};
use crate::dedup::{
    dedup_last_wins, keys_of, lemma_dedup_keys, lemma_dedup_push_new, lemma_dedup_push_seen,
    lemma_first_seen_contains,
};
use crate::error::{ConvertError, ConvertErrorModel};
use crate::registry::{IeeeMacRegistry, registry_order};
use crate::render::{ieee_oui_text, render_ieee_oui_text, sections_view};
use crate::text::{str_eq, trim, trim_str};

verus! {

/// Official IEEE CSV text for one registry.
#[derive(Debug, Clone, Copy, PartialEq, Eq)]
pub struct RegistryCsvInput<'a> {
    /// Registry this CSV is supposed to describe.
    pub registry: IeeeMacRegistry,
    /// Entire CSV document, including the header row.
    pub csv_text: &'a str,
}

/// How many rows a registry contributed after conversion.
#[derive(Debug, Clone, Copy, PartialEq, Eq, Structural)]
pub struct RegistryCounts {
    /// Registry these counts describe.
    pub registry: IeeeMacRegistry,
    /// Unique prefixes emitted (last duplicate assignment wins).
    pub emitted: usize,
    /// Data rows accepted from the CSV before deduplication.
    pub source_rows: usize,
    /// Duplicate assignments dropped because a later row reused the prefix.
    pub duplicates_removed: usize,
}

/// The converted rows of one registry: its counts and its `(prefix, vendor)` mappings in
/// emission order.
#[derive(Debug, Clone, PartialEq, Eq)]
pub struct RegistrySection {
    /// Counts of the registry.
    pub counts: RegistryCounts,
    /// `(prefix, vendor)` pairs, one per distinct prefix, in first-seen order.
    pub mappings: Vec<(String, String)>,
}

/// Converted `ieee-oui.txt` text plus per-registry counts.
#[derive(Debug, Clone, PartialEq, Eq)]
pub struct ConvertedIeeeOui {
    /// Mapping file text.
    pub text: String,
    /// Counts in [`IeeeMacRegistry::ALL`] order.
    pub counts: Vec<RegistryCounts>,
}

/// A [`ConvertedIeeeOui`] with its text as a character sequence.
pub struct ConvertedModel {
    pub text: Seq<char>,
    pub counts: Seq<RegistryCounts>,
}

impl View for ConvertedIeeeOui {
    type V = ConvertedModel;

    open spec fn view(&self) -> ConvertedModel {
        ConvertedModel { text: self.text@, counts: self.counts@ }
    }
}

/// A [`RegistrySection`] with its texts as character sequences.
pub struct SectionModel {
    pub counts: RegistryCounts,
    pub mappings: Seq<(Seq<char>, Seq<char>)>,
}

/// The `(prefix, vendor)` pairs as character sequences.
pub open spec fn mappings_view(mappings: Seq<(String, String)>) -> Seq<(Seq<char>, Seq<char>)> {
    mappings.map_values(|pair: (String, String)| (pair.0@, pair.1@))
}

impl View for RegistrySection {
    type V = SectionModel;

    open spec fn view(&self) -> SectionModel {
        SectionModel { counts: self.counts, mappings: mappings_view(self.mappings@) }
    }
}

/// The view of a section result.
pub open spec fn section_result_view(result: Result<RegistrySection, ConvertError>) -> Result<
    SectionModel,
    ConvertErrorModel,
> {
    match result {
        Ok(section) => Ok(section@),
        Err(error) => Err(error@),
    }
}

/// The header row of an official IEEE listing.
pub open spec fn expected_headers() -> Seq<Seq<char>> {
    seq!["Registry"@, "Assignment"@, "Organization Name"@, "Organization Address"@]
}

/// Fields joined by commas.
pub open spec fn join_fields(fields: Seq<Seq<char>>) -> Seq<char>
    decreases fields.len(),
{
    if fields.len() == 0 {
        Seq::empty()
    } else if fields.len() == 1 {
        fields[0]
    } else {
        join_fields(fields.drop_last()) + ","@ + fields.last()
    }
}

/// `text` without a leading UTF-8 byte order mark.
pub open spec fn strip_bom(text: Seq<char>) -> Seq<char> {
    if text.len() > 0 && text[0] == '\u{feff}' {
        text.drop_first()
    } else {
        text
    }
}

/// The 1-based line number reported for a record starting at reader position line `line`
/// (0 when the reader reported no position).
pub open spec fn row_line_number(line: Option<u64>) -> u64 {
    match line {
        Some(l) => if l == u64::MAX {
            u64::MAX
        } else {
            (l + 1) as u64
        },
        None => 0,
    }
}

/// What one data row of a registry's listing contributes: its `(prefix, vendor)` mapping, or
/// the error that rejects it.
pub open spec fn row_mapping(
    registry: IeeeMacRegistry,
    row: Result<CsvRecordView, CsvFailureView>,
) -> Result<(Seq<char>, Seq<char>), ConvertErrorModel> {
    match row {
        Err((line, message)) => Err(
            ConvertErrorModel::Csv { registry: Some(registry), line_number: line, message },
        ),
        Ok((fields, position)) => {
            let line_number = row_line_number(position);
            if fields.len() != 4 {
                Err(
                    ConvertErrorModel::WrongFieldCount {
                        registry,
                        line_number,
                        field_count: fields.len(),
                    },
                )
            } else if fields[0] != registry.label() {
                Err(
                    ConvertErrorModel::RegistryMismatch {
                        expected: registry,
                        found: fields[0],
                        line_number,
                    },
                )
            } else {
                match normalized_assignment(fields[1], registry.hex_width()) {
                    None => Err(
                        ConvertErrorModel::InvalidAssignment {
                            registry,
                            assignment: trim(fields[1]),
                            line_number,
                        },
                    ),
                    Some(prefix) => if trim(fields[2]).len() == 0 {
                        Err(
                            ConvertErrorModel::EmptyVendor {
                                registry,
                                assignment: prefix,
                                line_number,
                            },
                        )
                    } else {
                        Ok((prefix, trim(fields[2])))
                    },
                }
            }
        },
    }
}

/// The mappings of all rows, in order, or the error of the first rejected row.
pub open spec fn rows_outcome(
    registry: IeeeMacRegistry,
    rows: Seq<Result<CsvRecordView, CsvFailureView>>,
) -> Result<Seq<(Seq<char>, Seq<char>)>, ConvertErrorModel>
    decreases rows.len(),
{
    if rows.len() == 0 {
        Ok(Seq::empty())
    } else {
        match rows_outcome(registry, rows.drop_last()) {
            Err(error) => Err(error),
            Ok(entries) => match row_mapping(registry, rows.last()) {
                Err(error) => Err(error),
                Ok(mapping) => Ok(entries.push(mapping)),
            },
        }
    }
}

/// The section a registry's data rows convert to.
pub open spec fn section_from_rows(
    registry: IeeeMacRegistry,
    rows: Seq<Result<CsvRecordView, CsvFailureView>>,
) -> Result<SectionModel, ConvertErrorModel> {
    match rows_outcome(registry, rows) {
        Err(error) => Err(error),
        Ok(entries) => if entries.len() == 0 {
            Err(ConvertErrorModel::EmptyRegistry { registry })
        } else {
            let mappings = dedup_last_wins(entries);
            Ok(
                SectionModel {
                    counts: RegistryCounts {
                        registry,
                        emitted: mappings.len() as usize,
                        source_rows: entries.len() as usize,
                        duplicates_removed: (entries.len() - mappings.len()) as usize,
                    },
                    mappings,
                },
            )
        },
    }
}

/// The section a registry's whole CSV text converts to.
pub open spec fn section_from_text(registry: IeeeMacRegistry, csv_text: Seq<char>) -> Result<
    SectionModel,
    ConvertErrorModel,
> {
    let body = strip_bom(csv_text);
    match csv_header_record(body) {
        Err((line, message)) => Err(
            ConvertErrorModel::Csv { registry: Some(registry), line_number: line, message },
        ),
        Ok(header) => if header != expected_headers() {
            Err(ConvertErrorModel::InvalidHeader { found: join_fields(header) })
        } else {
            section_from_rows(registry, csv_data_records(body))
        },
    }
}

/// The text of the first input that describes `registry`.
pub open spec fn find_input<'a>(inputs: Seq<RegistryCsvInput<'a>>, registry: IeeeMacRegistry) -> Option<
    Seq<char>,
>
    decreases inputs.len(),
{
    if inputs.len() == 0 {
        None
    } else if inputs[0].registry == registry {
        Some(inputs[0].csv_text@)
    } else {
        find_input(inputs.drop_first(), registry)
    }
}

/// The section of `registry`, or the error that rejects its listing (a missing listing is an
/// empty registry).
pub open spec fn section_for<'a>(inputs: Seq<RegistryCsvInput<'a>>, registry: IeeeMacRegistry) -> Result<
    SectionModel,
    ConvertErrorModel,
> {
    match find_input(inputs, registry) {
        None => Err(ConvertErrorModel::EmptyRegistry { registry }),
        Some(csv_text) => section_from_text(registry, csv_text),
    }
}

/// The sections of `registries`, in order, or the error of the first one that fails.
pub open spec fn sections_for<'a>(
    inputs: Seq<RegistryCsvInput<'a>>,
    registries: Seq<IeeeMacRegistry>,
) -> Result<Seq<SectionModel>, ConvertErrorModel>
    decreases registries.len(),
{
    if registries.len() == 0 {
        Ok(Seq::empty())
    } else {
        match sections_for(inputs, registries.drop_last()) {
            Err(error) => Err(error),
            Ok(sections) => match section_for(inputs, registries.last()) {
                Err(error) => Err(error),
                Ok(section) => Ok(sections.push(section)),
            },
        }
    }
}

/// What the four listings convert to: the `ieee-oui.txt` text and the counts of each
/// registry in file order, or the error of the first registry that fails.
pub open spec fn conversion<'a>(inputs: Seq<RegistryCsvInput<'a>>, retrieved_at_utc: Seq<char>) -> Result<
    ConvertedModel,
    ConvertErrorModel,
> {
    match sections_for(inputs, registry_order()) {
        Err(error) => Err(error),
        Ok(sections) => Ok(
            ConvertedModel {
                text: ieee_oui_text(retrieved_at_utc, sections),
                counts: sections.map_values(|section: SectionModel| section.counts),
            },
        ),
    }
}

/// The view of a conversion result.
pub open spec fn converted_result_view(result: Result<ConvertedIeeeOui, ConvertError>) -> Result<
    ConvertedModel,
    ConvertErrorModel,
> {
    match result {
        Ok(converted) => Ok(converted@),
        Err(error) => Err(error@),
    }
}

/// Converts one data row of a registry's listing into its `(prefix, vendor)` mapping and the
/// number the prefix writes.
pub fn convert_record(registry: IeeeMacRegistry, row: &Result<CsvRecord, CsvFailure>) -> (mapping:
    Result<(String, String, u64), ConvertError>)
    ensures
        match mapping {
            Ok((prefix, vendor, key)) => row_mapping(registry, record_view(*row)) == Ok::<
                _,
                ConvertErrorModel,
            >((prefix@, vendor@)) && key == hex_value(prefix@),
            Err(error) => row_mapping(registry, record_view(*row)) == Err::<
                (Seq<char>, Seq<char>),
                _,
            >(error@),
        },
{
    match row {
        Err(failure) => Err(csv_error(Some(registry), failure)),
        Ok(record) => {
            let line_number: u64 = match record.line {
                Some(line) => line.saturating_add(1),
                None => 0,
            };
            if record.fields.len() != 4 {
                return Err(
                    ConvertError::WrongFieldCount {
                        registry,
                        line_number,
                        field_count: record.fields.len(),
                    },
                );
            }
            let registry_field = record_field(record, 0, registry, line_number)?;
            if !str_eq(registry_field, registry.csv_registry_label()) {
                let mut found = String::new();
                found.append(registry_field);
                return Err(
                    ConvertError::RegistryMismatch { expected: registry, found, line_number },
                );
            }
            let assignment_field = record_field(record, 1, registry, line_number)?;
            match normalize_assignment_keyed(assignment_field, registry) {
                None => Err(
                    ConvertError::InvalidAssignment {
                        registry,
                        assignment: trim_str(assignment_field),
                        line_number,
                    },
                ),
                Some((prefix, key)) => {
                    let vendor_field = record_field(record, 2, registry, line_number)?;
                    let vendor = trim_str(vendor_field);
                    if vendor.as_str().is_empty() {
                        Err(ConvertError::EmptyVendor { registry, assignment: prefix, line_number })
                    } else {
                        Ok((prefix, vendor, key))
                    }
                },
            }
        },
    }
}

/// The field at `index` of a record, or a field-count failure when the record is shorter.
pub fn record_field<'r>(
    record: &'r CsvRecord,
    index: usize,
    registry: IeeeMacRegistry,
    line_number: u64,
) -> (field: Result<&'r str, ConvertError>)
    ensures
        match field {
            Ok(field) => index < record.fields.len() && field@ == record.fields@[index as int]@,
            Err(error) => index >= record.fields.len() && error@ == (
            ConvertErrorModel::WrongFieldCount {
                registry,
                line_number,
                field_count: record.fields.len() as nat,
            }),
        },
{
    if index < record.fields.len() {
        Ok(record.fields[index].as_str())
    } else {
        Err(ConvertError::WrongFieldCount { registry, line_number, field_count: record.fields.len() })
    }
}

/// The conversion failure for a failure of the `csv` reader.
pub fn csv_error(registry: Option<IeeeMacRegistry>, failure: &CsvFailure) -> (error: ConvertError)
    ensures
        error@ == (ConvertErrorModel::Csv {
            registry,
            line_number: failure.line,
            message: failure.message@,
        }),
{
    ConvertError::Csv { registry, line_number: failure.line, message: failure.message.clone() }
}

/// Every prefix of the entries has the registry's width and is upper-case hexadecimal.
pub open spec fn prefixes_well_formed(entries: Seq<(Seq<char>, Seq<char>)>, width: nat) -> bool {
    forall|i: int|
        0 <= i < entries.len() ==> (#[trigger] entries[i]).0.len() == width && all_upper_hex(
            entries[i].0,
        )
}

proof fn lemma_rows_outcome_push(
    registry: IeeeMacRegistry,
    rows: Seq<Result<CsvRecordView, CsvFailureView>>,
    i: int,
)
    requires
        0 <= i < rows.len(),
    ensures
        rows_outcome(registry, rows.take(i + 1)) == match rows_outcome(registry, rows.take(i)) {
            Err(error) => Err(error),
            Ok(entries) => match row_mapping(registry, rows[i]) {
                Err(error) => Err(error),
                Ok(mapping) => Ok(entries.push(mapping)),
            },
        },
{
    assert(rows.take(i + 1).drop_last() =~= rows.take(i));
}

proof fn lemma_rows_outcome_error_persists(
    registry: IeeeMacRegistry,
    rows: Seq<Result<CsvRecordView, CsvFailureView>>,
    i: int,
)
    requires
        0 <= i <= rows.len(),
        rows_outcome(registry, rows.take(i)) is Err,
    ensures
        rows_outcome(registry, rows) == rows_outcome(registry, rows.take(i)),
    decreases rows.len() - i,
{
    if i < rows.len() {
        lemma_rows_outcome_push(registry, rows, i);
        lemma_rows_outcome_error_persists(registry, rows, i + 1);
    } else {
        assert(rows.take(i) =~= rows);
    }
}

proof fn lemma_row_mapping_prefix_shape(
    registry: IeeeMacRegistry,
    row: Result<CsvRecordView, CsvFailureView>,
)
    ensures
        row_mapping(registry, row) matches Ok((prefix, _)) ==> prefix.len() == registry.hex_width()
            && all_upper_hex(prefix),
{
    if let Ok((fields, _)) = row {
        if fields.len() == 4 {
            lemma_normalized_assignment_shape(fields[1], registry.hex_width());
        }
    }
}

/// Converts the data rows of one registry's listing: rejects the first malformed row, then
/// keeps one mapping per prefix in first-seen order with the vendor of the prefix's last row.
pub fn convert_registry_records(
    registry: IeeeMacRegistry,
    rows: &Vec<Result<CsvRecord, CsvFailure>>,
) -> (section: Result<RegistrySection, ConvertError>)
    ensures
        section_result_view(section) == section_from_rows(registry, records_view(rows@)),
{
    let ghost rows_model = records_view(rows@);
    let ghost width = registry.hex_width();
    let ghost mut entries: Seq<(Seq<char>, Seq<char>)> = Seq::empty();
    let mut mappings: Vec<(String, String)> = Vec::new();
    let mut index_by_key: HashMap<u64, usize> = HashMap::new();
    let mut source_rows: usize = 0;
    assert(rows_model.take(0) =~= Seq::<Result<CsvRecordView, CsvFailureView>>::empty());
    assert(mappings_view(mappings@) =~= dedup_last_wins(entries));
    while source_rows < rows.len()
        invariant
            source_rows <= rows.len(),
            rows_model == records_view(rows@),
            width == registry.hex_width(),
            rows_outcome(registry, rows_model.take(source_rows as int)) == Ok::<
                _,
                ConvertErrorModel,
            >(entries),
            entries.len() == source_rows,
            prefixes_well_formed(entries, width),
            mappings_view(mappings@) == dedup_last_wins(entries),
            mappings.len() <= source_rows,
            forall|k: u64|
                #[trigger] index_by_key@.contains_key(k) ==> index_by_key@[k] < mappings.len()
                    && hex_value(mappings@[index_by_key@[k] as int].0@) == k,
            forall|j: int|
                0 <= j < mappings.len() ==> index_by_key@.contains_key(
                    hex_value((#[trigger] mappings@[j]).0@) as u64,
                ),
            forall|j: int|
                0 <= j < mappings.len() ==> hex_value((#[trigger] mappings@[j]).0@) <= u64::MAX,
        decreases rows.len() - source_rows,
    {
        proof {
            lemma_rows_outcome_push(registry, rows_model, source_rows as int);
            lemma_row_mapping_prefix_shape(registry, rows_model[source_rows as int]);
        }
        let converted = convert_record(registry, &rows[source_rows]);
        match converted {
            Err(error) => {
                proof {
                    lemma_rows_outcome_error_persists(registry, rows_model, source_rows + 1);
                }
                return Err(error);
            },
            Ok((prefix, vendor, key)) => {
                let ghost mapping = (prefix@, vendor@);
                proof {
                    lemma_dedup_keys(entries);
                    lemma_first_seen_contains(keys_of(entries), prefix@);
                }
                match index_by_key.get(&key) {
                    Some(index) => {
                        let index = *index;
                        proof {
                            let existing = mappings@[index as int].0@;
                            assert(mappings_view(mappings@)[index as int].0 == existing);
                            assert(dedup_last_wins(entries)[index as int].0 == existing);
                            assert(keys_of(dedup_last_wins(entries))[index as int] == existing);
                            lemma_first_seen_contains(keys_of(entries), existing);
                            assert(keys_of(dedup_last_wins(entries)).contains(existing));
                            assert(keys_of(entries).contains(existing));
                            let e = choose|e: int|
                                0 <= e < keys_of(entries).len() && keys_of(entries)[e] == existing;
                            assert(entries[e].0 == existing);
                            lemma_hex_value_injective(existing, prefix@);
                            lemma_dedup_push_seen(entries, prefix@, vendor@, index as int);
                        }
                        mappings.set(index, (prefix, vendor));
                    },
                    None => {
                        proof {
                            if keys_of(entries).contains(prefix@) {
                                let fs_index = choose|j: int|
                                    0 <= j < keys_of(dedup_last_wins(entries)).len() && keys_of(
                                        dedup_last_wins(entries),
                                    )[j] == prefix@;
                                assert(mappings_view(mappings@)[fs_index].0 == prefix@);
                                assert(mappings@[fs_index].0@ == prefix@);
                                assert(index_by_key@.contains_key(
                                    hex_value(mappings@[fs_index].0@) as u64,
                                ));
                                assert(false);
                            }
                            lemma_dedup_push_new(entries, prefix@, vendor@);
                        }
                        index_by_key.insert(key, mappings.len());
                        mappings.push((prefix, vendor));
                    },
                }
                proof {
                    entries = entries.push(mapping);
                }
                assert(mappings_view(mappings@) =~= dedup_last_wins(entries));
                source_rows = source_rows + 1;
            },
        }
    }
    assert(rows_model.take(rows.len() as int) =~= rows_model);
    if source_rows == 0 {
        return Err(ConvertError::EmptyRegistry { registry });
    }
    let emitted = mappings.len();
    let duplicates_removed = source_rows - emitted;
    Ok(
        RegistrySection {
            counts: RegistryCounts { registry, emitted, source_rows, duplicates_removed },
            mappings,
        },
    )
}

/// The fields joined by commas.
pub fn join_with_commas(fields: &Vec<String>) -> (joined: String)
    ensures
        joined@ == join_fields(fields.deep_view()),
{
    let ghost all = fields.deep_view();
    let mut joined = String::new();
    let mut i: usize = 0;
    assert(all.take(0) =~= Seq::<Seq<char>>::empty());
    while i < fields.len()
        invariant
            i <= fields.len(),
            all == fields.deep_view(),
            joined@ == join_fields(all.take(i as int)),
        decreases fields.len() - i,
    {
        assert(all.take(i + 1).drop_last() =~= all.take(i as int));
        assert(all[i as int] == fields@[i as int]@);
        if i > 0 {
            joined.append(",");
        }
        joined.append(fields[i].as_str());
        i = i + 1;
        if i == 1 {
            assert(all.take(1) =~= seq![all[0]]);
        }
    }
    assert(all.take(fields.len() as int) =~= all);
    joined
}

fn expected_header(index: usize) -> (name: &'static str)
    requires
        index < 4,
    ensures
        name@ == expected_headers()[index as int],
{
    match index {
        0 => "Registry",
        1 => "Assignment",
        2 => "Organization Name",
        _ => "Organization Address",
    }
}

/// Accepts the official four-column header and rejects any other.
pub fn validate_headers(headers: &Vec<String>) -> (checked: Result<(), ConvertError>)
    ensures
        match checked {
            Ok(()) => headers.deep_view() == expected_headers(),
            Err(error) => headers.deep_view() != expected_headers() && error@
                == ConvertErrorModel::InvalidHeader { found: join_fields(headers.deep_view()) },
        },
{
    let ghost view = headers.deep_view();
    if headers.len() != 4 {
        return Err(ConvertError::InvalidHeader { found: join_with_commas(headers) });
    }
    let mut i: usize = 0;
    while i < 4
        invariant
            i <= 4,
            headers.len() == 4,
            view == headers.deep_view(),
            forall|j: int| 0 <= j < i ==> view[j] == expected_headers()[j],
        decreases 4 - i,
    {
        assert(view[i as int] == headers@[i as int]@);
        if !str_eq(headers[i].as_str(), expected_header(i)) {
            return Err(ConvertError::InvalidHeader { found: join_with_commas(headers) });
        }
        i = i + 1;
    }
    assert(view =~= expected_headers());
    Ok(())
}

/// `text` without a leading UTF-8 byte order mark.
pub fn strip_utf8_bom(text: &str) -> (body: &str)
    ensures
        body@ == strip_bom(text@),
{
    let length = text.unicode_len();
    if length > 0 && text.get_char(0) == '\u{feff}' {
        text.substring_char(1, length)
    } else {
        text
    }
}

/// Converts one registry's whole CSV listing into its section.
pub fn convert_one_registry(input: RegistryCsvInput<'_>) -> (section: Result<
    RegistrySection,
    ConvertError,
>)
    ensures
        section_result_view(section) == section_from_text(input.registry, input.csv_text@),
{
    let body = strip_utf8_bom(input.csv_text);
    let headers = match read_csv_header(body) {
        Ok(fields) => fields,
        Err(failure) => {
            return Err(csv_error(Some(input.registry), &failure));
        },
    };
    validate_headers(&headers)?;
    let rows = read_csv_records(body);
    convert_registry_records(input.registry, &rows)
}

fn registry_at(index: usize) -> (registry: IeeeMacRegistry)
    requires
        index < 4,
    ensures
        registry == registry_order()[index as int],
{
    match index {
        0 => IeeeMacRegistry::MaL,
        1 => IeeeMacRegistry::MaM,
        2 => IeeeMacRegistry::MaS,
        _ => IeeeMacRegistry::Iab,
    }
}

fn find_registry_input<'a>(inputs: &[RegistryCsvInput<'a>], registry: IeeeMacRegistry) -> (found:
    Option<RegistryCsvInput<'a>>)
    ensures
        match found {
            Some(input) => input.registry == registry && find_input(inputs@, registry) == Some(
                input.csv_text@,
            ),
            None => find_input(inputs@, registry) is None,
        },
{
    let mut i: usize = 0;
    assert(inputs@.skip(0) =~= inputs@);
    while i < inputs.len()
        invariant
            i <= inputs.len(),
            find_input(inputs@, registry) == find_input(inputs@.skip(i as int), registry),
        decreases inputs.len() - i,
    {
        assert(inputs@.skip(i as int)[0] == inputs@[i as int]);
        if inputs[i].registry == registry {
            return Some(inputs[i]);
        }
        assert(inputs@.skip(i as int).drop_first() =~= inputs@.skip(i + 1));
        i = i + 1;
    }
    None
}

/// Converts official MA-L, MA-M, MA-S, and IAB CSVs into `ieee-oui.txt` text.
///
/// Each registry uses the first input that names it; a registry without an input is an empty
/// registry. Duplicate assignments keep the last source row; prefixes are emitted in
/// first-seen order with that last vendor name. Malformed rows are never skipped.
pub fn convert_ieee_registry_csvs(inputs: &[RegistryCsvInput<'_>], retrieved_at_utc: &str) -> (converted:
    Result<ConvertedIeeeOui, ConvertError>)
    ensures
        converted_result_view(converted) == conversion(inputs@, retrieved_at_utc@),
{
    let mut sections: Vec<RegistrySection> = Vec::new();
    let mut k: usize = 0;
    assert(registry_order().take(0) =~= Seq::<IeeeMacRegistry>::empty());
    assert(sections_view(sections@) =~= Seq::<SectionModel>::empty());
    while k < 4
        invariant
            k <= 4,
            sections_for(inputs@, registry_order().take(k as int)) == Ok::<_, ConvertErrorModel>(
                sections_view(sections@),
            ),
        decreases 4 - k,
    {
        let expected = registry_at(k);
        assert(registry_order().take(k + 1).drop_last() =~= registry_order().take(k as int));
        let section = match find_registry_input(inputs, expected) {
            None => {
                proof {
                    lemma_sections_error_persists(inputs@, k as int + 1);
                }
                return Err(ConvertError::EmptyRegistry { registry: expected });
            },
            Some(input) => match convert_one_registry(input) {
                Err(error) => {
                    proof {
                        lemma_sections_error_persists(inputs@, k as int + 1);
                    }
                    return Err(error);
                },
                Ok(section) => section,
            },
        };
        assert(registry_order().take(k + 1).last() == expected);
        assert(section_for(inputs@, expected) == Ok::<_, ConvertErrorModel>(section@));
        let ghost before = sections_view(sections@);
        sections.push(section);
        assert(sections_view(sections@) =~= before.push(section@));
        k = k + 1;
    }
    assert(registry_order().take(4) =~= registry_order());
    let text = render_ieee_oui_text(retrieved_at_utc, sections.as_slice());
    let mut counts: Vec<RegistryCounts> = Vec::new();
    let mut i: usize = 0;
    while i < sections.len()
        invariant
            i <= sections.len(),
            counts@ == sections_view(sections@).take(i as int).map_values(
                |section: SectionModel| section.counts,
            ),
        decreases sections.len() - i,
    {
        counts.push(sections[i].counts);
        i = i + 1;
        assert(counts@ =~= sections_view(sections@).take(i as int).map_values(
            |section: SectionModel| section.counts,
        ));
    }
    assert(sections_view(sections@).take(sections.len() as int) =~= sections_view(sections@));
    Ok(ConvertedIeeeOui { text, counts })
}

proof fn lemma_sections_error_persists<'a>(inputs: Seq<RegistryCsvInput<'a>>, k: int)
    requires
        1 <= k <= 4,
        sections_for(inputs, registry_order().take(k)) is Err,
    ensures
        sections_for(inputs, registry_order()) == sections_for(inputs, registry_order().take(k)),
    decreases 4 - k,
{
    if k < 4 {
        assert(registry_order().take(k + 1).drop_last() =~= registry_order().take(k));
        lemma_sections_error_persists(inputs, k + 1);
    } else {
        assert(registry_order().take(4) =~= registry_order());
    }
}

} // verus!
