//! Properties of the library that hold for every input.

use vstd::prelude::*;

use crate::assignment::{all_upper_hex, normalized_assignment};
use crate::convert::{
    ConvertedModel, RegistryCsvInput, SectionModel, conversion, find_input, prefixes_well_formed,
    row_mapping, rows_outcome, section_for, section_from_rows, sections_for,
};
use crate::csv_source::{CsvFailureView, CsvRecordView};
use crate::dedup::{
    dedup_last_wins, first_seen_keys, keys_of, last_wins, lemma_dedup_keys,
    lemma_first_seen_contains, lemma_first_seen_distinct,
};
use crate::error::ConvertErrorModel;
use crate::outcome::{
    ApplicationOutcome, DiscoveredHost, MacAddress, OperatorStream, ScanOutcome, host_text,
    Ipv4Address, ipv4_text, lower_hex_char, mac_text, host_writes, outcome_writes, vendor_host_writes,
    warning_writes,
};
use crate::registry::{IeeeMacRegistry, registry_order};
use crate::text::{decimal, trim};
use crate::timing::{summary_milliseconds, timing_line};
use crate::updater::{RequestModel, parse_arguments, parse_arguments_from};
use crate::render::{
    count_lines, ieee_oui_text, legend_text, mapping_lines, preamble_text, section_text,
    section_texts, source_line, sources_text,
};

verus! {

/// A successful `rows_outcome` holds exactly one mapping per row, each the row's own.
proof fn lemma_rows_outcome_rowwise(
    registry: IeeeMacRegistry,
    rows: Seq<Result<CsvRecordView, CsvFailureView>>,
)
    ensures
        rows_outcome(registry, rows) matches Ok(entries) ==> entries.len() == rows.len() && forall|
            i: int,
        |
            0 <= i < rows.len() ==> row_mapping(registry, #[trigger] rows[i]) == Ok::<
                _,
                ConvertErrorModel,
            >(entries[i]),
    decreases rows.len(),
{
    if rows.len() > 0 {
        let init = rows.drop_last();
        lemma_rows_outcome_rowwise(registry, init);
        if let Ok(entries) = rows_outcome(registry, rows) {
            assert forall|i: int| 0 <= i < rows.len() implies row_mapping(
                registry,
                #[trigger] rows[i],
            ) == Ok::<_, ConvertErrorModel>(entries[i]) by {
                if i < init.len() {
                    assert(init[i] == rows[i]);
                }
            }
        }
    }
}

/// A row rejected anywhere makes the whole `rows_outcome` an error.
proof fn lemma_rows_outcome_rejects(
    registry: IeeeMacRegistry,
    rows: Seq<Result<CsvRecordView, CsvFailureView>>,
    i: int,
)
    requires
        0 <= i < rows.len(),
        row_mapping(registry, rows[i]) is Err,
    ensures
        rows_outcome(registry, rows) is Err,
    decreases rows.len(),
{
    let init = rows.drop_last();
    if i < rows.len() - 1 {
        assert(init[i] == rows[i]);
        lemma_rows_outcome_rejects(registry, init, i);
    }
}

/// The value `last_wins` keeps for a key is the value of the key's last occurrence.
proof fn lemma_last_wins_value<K, V>(entries: Seq<(K, V)>, i: int)
    requires
        0 <= i < entries.len(),
        forall|later: int| i < later < entries.len() ==> (#[trigger] entries[later]).0 != entries[i].0,
    ensures
        last_wins(entries).dom().contains(entries[i].0),
        last_wins(entries)[entries[i].0] == entries[i].1,
    decreases entries.len(),
{
    if i < entries.len() - 1 {
        let init = entries.drop_last();
        assert(entries[entries.len() - 1].0 != entries[i].0);
        assert forall|later: int| i < later < init.len() implies (#[trigger] init[later]).0
            != init[i].0 by {
            assert(init[later] == entries[later]);
        }
        lemma_last_wins_value(init, i);
    }
}

/// The mappings a successful registry conversion emits.
pub open spec fn emitted_mappings(
    registry: IeeeMacRegistry,
    rows: Seq<Result<CsvRecordView, CsvFailureView>>,
) -> Seq<(Seq<char>, Seq<char>)> {
    section_from_rows(registry, rows)->Ok_0.mappings
}

/// The converter never skips a malformed row: when any data row of a registry is rejected,
/// the registry's conversion fails.
pub proof fn law_malformed_row_fails_registry(
    registry: IeeeMacRegistry,
    rows: Seq<Result<CsvRecordView, CsvFailureView>>,
    i: int,
)
    requires
        0 <= i < rows.len(),
        row_mapping(registry, rows[i]) is Err,
    ensures
        section_from_rows(registry, rows) is Err,
{
    lemma_rows_outcome_rejects(registry, rows, i);
}

/// A successful registry conversion accepted every row, emits each prefix once and in the
/// order of its first row, emits every accepted prefix, and for each prefix emits exactly the
/// last row that carries it. Every
/// emitted prefix has the registry's width in upper-case hexadecimal, and the counts add up:
/// emitted plus duplicates removed equals the source rows.
pub proof fn law_section_keeps_last_row_per_prefix(
    registry: IeeeMacRegistry,
    rows: Seq<Result<CsvRecordView, CsvFailureView>>,
)
    requires
        section_from_rows(registry, rows) is Ok,
        rows.len() <= usize::MAX,
    ensures
        rows.len() > 0,
        forall|i: int| 0 <= i < rows.len() ==> (#[trigger] row_mapping(registry, rows[i])) is Ok,
        keys_of(emitted_mappings(registry, rows)).no_duplicates(),
        keys_of(emitted_mappings(registry, rows)) == first_seen_keys(
            Seq::new(rows.len(), |i: int| row_mapping(registry, rows[i])->Ok_0.0),
        ),
        forall|i: int|
            0 <= i < rows.len() ==> exists|j: int|
                0 <= j < emitted_mappings(registry, rows).len() && emitted_mappings(
                    registry,
                    rows,
                )[j].0 == (#[trigger] row_mapping(registry, rows[i]))->Ok_0.0,
        forall|i: int|
            #![trigger row_mapping(registry, rows[i])]
            0 <= i < rows.len() && (forall|later: int|
                i < later < rows.len() ==> (#[trigger] row_mapping(registry, rows[later]))->Ok_0.0
                    != row_mapping(registry, rows[i])->Ok_0.0) ==> exists|j: int|
                0 <= j < emitted_mappings(registry, rows).len() && emitted_mappings(
                    registry,
                    rows,
                )[j] == row_mapping(registry, rows[i])->Ok_0,
        forall|j: int|
            0 <= j < emitted_mappings(registry, rows).len() ==> (#[trigger] emitted_mappings(
                registry,
                rows,
            )[j]).0.len() == registry.hex_width() && all_upper_hex(
                emitted_mappings(registry, rows)[j].0,
            ),
        section_from_rows(registry, rows)->Ok_0.counts.registry == registry,
        section_from_rows(registry, rows)->Ok_0.counts.source_rows == rows.len(),
        section_from_rows(registry, rows)->Ok_0.counts.emitted == emitted_mappings(
            registry,
            rows,
        ).len(),
        section_from_rows(registry, rows)->Ok_0.counts.emitted + section_from_rows(
            registry,
            rows,
        )->Ok_0.counts.duplicates_removed == section_from_rows(registry, rows)->Ok_0.counts.source_rows,
{
    let entries = rows_outcome(registry, rows)->Ok_0;
    lemma_rows_outcome_rowwise(registry, rows);
    let mappings = dedup_last_wins(entries);
    assert(emitted_mappings(registry, rows) == mappings);
    let keys = keys_of(entries);
    lemma_dedup_keys(entries);
    lemma_first_seen_distinct(keys);
    assert(keys_of(mappings) == first_seen_keys(keys));
    assert(keys =~= Seq::new(rows.len(), |i: int| row_mapping(registry, rows[i])->Ok_0.0));
    assert forall|i: int| 0 <= i < rows.len() implies exists|j: int|
        0 <= j < mappings.len() && mappings[j].0 == (#[trigger] row_mapping(
            registry,
            rows[i],
        ))->Ok_0.0 by {
        assert(keys[i] == entries[i].0);
        lemma_first_seen_contains(keys, entries[i].0);
        let j = choose|j: int| 0 <= j < first_seen_keys(keys).len() && first_seen_keys(keys)[j] == entries[i].0;
        assert(keys_of(mappings)[j] == mappings[j].0);
    }
    assert forall|i: int|
        #![trigger row_mapping(registry, rows[i])]
        0 <= i < rows.len() && (forall|later: int|
            i < later < rows.len() ==> (#[trigger] row_mapping(registry, rows[later]))->Ok_0.0
                != row_mapping(registry, rows[i])->Ok_0.0) implies exists|j: int|
        0 <= j < mappings.len() && mappings[j] == row_mapping(registry, rows[i])->Ok_0 by {
        assert forall|later: int| i < later < entries.len() implies (#[trigger] entries[later]).0
            != entries[i].0 by {
            assert(row_mapping(registry, rows[later])->Ok_0 == entries[later]);
        }
        lemma_last_wins_value(entries, i);
        assert(keys[i] == entries[i].0);
        lemma_first_seen_contains(keys, entries[i].0);
        let j = choose|j: int| 0 <= j < first_seen_keys(keys).len() && first_seen_keys(keys)[j] == entries[i].0;
        assert(mappings[j] == (entries[i].0, last_wins(entries)[entries[i].0]));
    }
    assert(prefixes_well_formed(entries, registry.hex_width())) by {
        assert forall|i: int| 0 <= i < entries.len() implies (#[trigger] entries[i]).0.len()
            == registry.hex_width() && all_upper_hex(entries[i].0) by {
            crate::assignment::lemma_normalized_assignment_shape(
                rows[i]->Ok_0.0[1],
                registry.hex_width(),
            );
        }
    }
    assert forall|j: int| 0 <= j < mappings.len() implies (#[trigger] mappings[j]).0.len()
        == registry.hex_width() && all_upper_hex(mappings[j].0) by {
        assert(first_seen_keys(keys).contains(mappings[j].0)) by {
            assert(keys_of(mappings)[j] == mappings[j].0);
        }
        lemma_first_seen_contains(keys, mappings[j].0);
        let i = choose|i: int| 0 <= i < keys.len() && keys[i] == mappings[j].0;
        assert(entries[i].0 == keys[i]);
    }
    lemma_first_seen_len(keys);
}

proof fn lemma_sections_for_rowwise<'a>(
    inputs: Seq<RegistryCsvInput<'a>>,
    registries: Seq<IeeeMacRegistry>,
)
    ensures
        sections_for(inputs, registries) matches Ok(sections) ==> sections.len()
            == registries.len() && forall|k: int|
            0 <= k < registries.len() ==> section_for(inputs, #[trigger] registries[k]) == Ok::<
                _,
                ConvertErrorModel,
            >(sections[k]),
    decreases registries.len(),
{
    if registries.len() > 0 {
        let init = registries.drop_last();
        lemma_sections_for_rowwise(inputs, init);
        if let Ok(sections) = sections_for(inputs, registries) {
            assert forall|k: int| 0 <= k < registries.len() implies section_for(
                inputs,
                #[trigger] registries[k],
            ) == Ok::<_, ConvertErrorModel>(sections[k]) by {
                if k < init.len() {
                    assert(init[k] == registries[k]);
                }
            }
        }
    }
}

proof fn lemma_sections_for_rejects<'a>(
    inputs: Seq<RegistryCsvInput<'a>>,
    registries: Seq<IeeeMacRegistry>,
    k: int,
)
    requires
        0 <= k < registries.len(),
        section_for(inputs, registries[k]) is Err,
    ensures
        sections_for(inputs, registries) is Err,
    decreases registries.len(),
{
    let init = registries.drop_last();
    if k < registries.len() - 1 {
        assert(init[k] == registries[k]);
        lemma_sections_for_rejects(inputs, init, k);
    }
}

proof fn lemma_section_registry(registry: IeeeMacRegistry, csv_text: Seq<char>)
    ensures
        crate::convert::section_from_text(registry, csv_text) matches Ok(section)
            ==> section.counts.registry == registry,
{
}

/// A successful conversion reports the counts of MA-L, MA-M, MA-S, and IAB, in that order.
pub proof fn law_counts_follow_registry_order<'a>(
    inputs: Seq<RegistryCsvInput<'a>>,
    retrieved_at_utc: Seq<char>,
)
    requires
        conversion(inputs, retrieved_at_utc) is Ok,
    ensures
        conversion(inputs, retrieved_at_utc)->Ok_0.counts.len() == 4,
        forall|k: int|
            0 <= k < 4 ==> (#[trigger] conversion(inputs, retrieved_at_utc)->Ok_0.counts[k]).registry
                == registry_order()[k],
{
    lemma_sections_for_rowwise(inputs, registry_order());
    let sections = sections_for(inputs, registry_order())->Ok_0;
    assert forall|k: int| 0 <= k < 4 implies (#[trigger] conversion(
        inputs,
        retrieved_at_utc,
    )->Ok_0.counts[k]).registry == registry_order()[k] by {
        assert(section_for(inputs, registry_order()[k]) == Ok::<_, ConvertErrorModel>(
            sections[k],
        ));
        let registry = registry_order()[k];
        if let Some(csv_text) = find_input(inputs, registry) {
            lemma_section_registry(registry, csv_text);
        }
    }
}

/// A registry whose listing is missing or rejected fails the whole conversion: no registry is
/// ever skipped.
pub proof fn law_rejected_registry_fails_conversion<'a>(
    inputs: Seq<RegistryCsvInput<'a>>,
    retrieved_at_utc: Seq<char>,
    registry: IeeeMacRegistry,
)
    requires
        section_for(inputs, registry) is Err,
    ensures
        conversion(inputs, retrieved_at_utc) is Err,
{
    let k: int = match registry {
        IeeeMacRegistry::MaL => 0,
        IeeeMacRegistry::MaM => 1,
        IeeeMacRegistry::MaS => 2,
        IeeeMacRegistry::Iab => 3,
    };
    assert(registry_order()[k] == registry);
    lemma_sections_for_rejects(inputs, registry_order(), k);
}

/// A registry without any input listing fails the conversion as an empty registry.
pub proof fn law_missing_registry_is_empty_registry<'a>(
    inputs: Seq<RegistryCsvInput<'a>>,
    registry: IeeeMacRegistry,
)
    requires
        find_input(inputs, registry) is None,
    ensures
        section_for(inputs, registry) == Err::<SectionModel, _>(
            ConvertErrorModel::EmptyRegistry { registry },
        ),
{
}

/// `part` occurs as a contiguous piece of `text`.
pub open spec fn occurs_in(text: Seq<char>, part: Seq<char>) -> bool {
    exists|start: int|
        0 <= start && start + part.len() <= text.len() && #[trigger] text.subrange(
            start,
            start + part.len(),
        ) == part
}

/// The `ieee-oui.txt` line of one mapping.
pub open spec fn mapping_line(mapping: (Seq<char>, Seq<char>)) -> Seq<char> {
    mapping.0 + "\t"@ + mapping.1 + "\n"@
}

proof fn lemma_occurs_in_whole(part: Seq<char>)
    ensures
        occurs_in(part, part),
{
    let start: int = 0;
    assert(part.subrange(start, start + part.len()) =~= part);
}

proof fn lemma_occurs_in_concat(a: Seq<char>, b: Seq<char>, c: Seq<char>, part: Seq<char>)
    requires
        occurs_in(b, part),
    ensures
        occurs_in(a + b + c, part),
{
    let start = choose|start: int|
        0 <= start && start + part.len() <= b.len() && #[trigger] b.subrange(
            start,
            start + part.len(),
        ) == part;
    let whole = a + b + c;
    assert(whole.subrange(a.len() + start, a.len() + start + part.len()) =~= b.subrange(
        start,
        start + part.len(),
    ));
}

proof fn lemma_mapping_line_occurs(mappings: Seq<(Seq<char>, Seq<char>)>, j: int)
    requires
        0 <= j < mappings.len(),
    ensures
        occurs_in(mapping_lines(mappings), mapping_line(mappings[j])),
    decreases mappings.len(),
{
    let init = mappings.drop_last();
    let last_line = mappings.last().0 + "\t"@ + mappings.last().1 + "\n"@;
    assert(mapping_lines(mappings) =~= mapping_lines(init) + last_line);
    if j == mappings.len() - 1 {
        lemma_occurs_in_whole(last_line);
        assert(last_line =~= mapping_line(mappings[j]));
        lemma_occurs_in_concat(mapping_lines(init), last_line, Seq::empty(), mapping_line(mappings[j]));
        assert(mapping_lines(init) + last_line + Seq::<char>::empty() =~= mapping_lines(mappings));
    } else {
        assert(init[j] == mappings[j]);
        lemma_mapping_line_occurs(init, j);
        lemma_occurs_in_concat(Seq::empty(), mapping_lines(init), last_line, mapping_line(mappings[j]));
        assert(Seq::<char>::empty() + mapping_lines(init) + last_line =~= mapping_lines(mappings));
    }
}

proof fn lemma_section_text_occurs(sections: Seq<SectionModel>, k: int)
    requires
        0 <= k < sections.len(),
    ensures
        occurs_in(section_texts(sections), section_text(sections[k])),
    decreases sections.len(),
{
    let init = sections.drop_last();
    let last = section_text(sections.last());
    if k == sections.len() - 1 {
        lemma_occurs_in_whole(last);
        lemma_occurs_in_concat(section_texts(init), last, Seq::empty(), last);
        assert(section_texts(init) + last + Seq::<char>::empty() =~= section_texts(sections));
    } else {
        assert(init[k] == sections[k]);
        lemma_section_text_occurs(init, k);
        lemma_occurs_in_concat(Seq::empty(), section_texts(init), last, section_text(sections[k]));
        assert(Seq::<char>::empty() + section_texts(init) + last =~= section_texts(sections));
    }
}

proof fn lemma_occurs_transitive(text: Seq<char>, middle: Seq<char>, part: Seq<char>)
    requires
        occurs_in(text, middle),
        occurs_in(middle, part),
    ensures
        occurs_in(text, part),
{
    let outer = choose|start: int|
        0 <= start && start + middle.len() <= text.len() && #[trigger] text.subrange(
            start,
            start + middle.len(),
        ) == middle;
    let inner = choose|start: int|
        0 <= start && start + part.len() <= middle.len() && #[trigger] middle.subrange(
            start,
            start + part.len(),
        ) == part;
    assert(text.subrange(outer + inner, outer + inner + part.len()) =~= middle.subrange(
        inner,
        inner + part.len(),
    ));
}

/// Every mapping of every section is a `<prefix>TAB<vendor>` line of the `ieee-oui.txt` text.
pub proof fn law_every_mapping_is_a_line(
    retrieved_at_utc: Seq<char>,
    sections: Seq<SectionModel>,
    k: int,
    j: int,
)
    requires
        0 <= k < sections.len(),
        0 <= j < sections[k].mappings.len(),
    ensures
        occurs_in(ieee_oui_text(retrieved_at_utc, sections), mapping_line(sections[k].mappings[j])),
{
    let section = sections[k];
    let counts = section.counts;
    let head = "#\n# Start of IEEE "@ + counts.registry.label() + " registry data\n#\n"@;
    let tail = section_text(section).subrange(
        (head.len() + mapping_lines(section.mappings).len()) as int,
        section_text(section).len() as int,
    );
    assert(section_text(section) =~= head + mapping_lines(section.mappings) + tail);
    lemma_mapping_line_occurs(section.mappings, j);
    lemma_occurs_in_concat(head, mapping_lines(section.mappings), tail, mapping_line(section.mappings[j]));
    lemma_section_text_occurs(sections, k);
    lemma_occurs_transitive(section_texts(sections), section_text(section), mapping_line(section.mappings[j]));
    let before = preamble_text(retrieved_at_utc) + sources_text() + legend_text() + count_lines(
        sections,
    ) + "\n"@;
    lemma_occurs_in_concat(before, section_texts(sections), Seq::empty(), mapping_line(section.mappings[j]));
    assert(before + section_texts(sections) + Seq::<char>::empty() =~= ieee_oui_text(
        retrieved_at_utc,
        sections,
    ));
}

proof fn lemma_text_starts_with_preamble(retrieved_at_utc: Seq<char>, sections: Seq<SectionModel>)
    ensures
        ieee_oui_text(retrieved_at_utc, sections) == preamble_text(retrieved_at_utc) + (
        sources_text() + legend_text() + count_lines(sections) + "\n"@ + section_texts(sections)),
{
    let p = preamble_text(retrieved_at_utc);
    let a = sources_text();
    let b = legend_text();
    let c = count_lines(sections);
    let d = "\n"@;
    let e = section_texts(sections);
    assert(p + a + b + c + d + e =~= p + (a + b + c + d + e));
}

proof fn lemma_timestamp_occurs(retrieved_at_utc: Seq<char>, rest: Seq<char>)
    ensures
        occurs_in(preamble_text(retrieved_at_utc) + rest, "# Retrieved (UTC): "@ + retrieved_at_utc),
{
    let opening = "# ieee-oui.txt -- IEEE Ethernet OUI-Vendor mapping file for new-arp-scan\n#\n"@
        + "# Generated by mac-vendor-updater. Do not edit this file.\n"@
        + "# Extra local mappings belong in a separate file passed to --mac-vendor-file.\n#\n"@;
    let stamp = "# Retrieved (UTC): "@ + retrieved_at_utc;
    let closing = "\n#\n# Sources:\n"@;
    assert(preamble_text(retrieved_at_utc) =~= opening + stamp + closing);
    assert(preamble_text(retrieved_at_utc) + rest =~= opening + stamp + (closing + rest));
    lemma_occurs_in_whole(stamp);
    lemma_occurs_in_concat(opening, stamp, closing + rest, stamp);
}

proof fn lemma_source_line_occurs(registry: IeeeMacRegistry, before: Seq<char>, rest: Seq<char>)
    ensures
        occurs_in(before + (sources_text() + rest), source_line(registry)),
{
    let mal = source_line(IeeeMacRegistry::MaL);
    let mam = source_line(IeeeMacRegistry::MaM);
    let mas = source_line(IeeeMacRegistry::MaS);
    let iab = source_line(IeeeMacRegistry::Iab);
    let line = source_line(registry);
    let (x, y) = match registry {
        IeeeMacRegistry::MaL => (Seq::<char>::empty(), mam + mas + iab),
        IeeeMacRegistry::MaM => (mal, mas + iab),
        IeeeMacRegistry::MaS => (mal + mam, iab),
        IeeeMacRegistry::Iab => (mal + mam + mas, Seq::<char>::empty()),
    };
    assert(sources_text() =~= x + line + y);
    assert(before + (sources_text() + rest) =~= (before + x) + line + (y + rest));
    lemma_occurs_in_whole(line);
    lemma_occurs_in_concat(before + x, line, y + rest, line);
}

/// The `ieee-oui.txt` text names its retrieval timestamp and the source URL of every
/// registry, whatever the sections.
pub proof fn law_text_names_timestamp_and_sources(
    retrieved_at_utc: Seq<char>,
    sections: Seq<SectionModel>,
    registry: IeeeMacRegistry,
)
    ensures
        occurs_in(ieee_oui_text(retrieved_at_utc, sections), "# Retrieved (UTC): "@ + retrieved_at_utc),
        occurs_in(ieee_oui_text(retrieved_at_utc, sections), source_line(registry)),
{
    lemma_text_starts_with_preamble(retrieved_at_utc, sections);
    let rest = legend_text() + count_lines(sections) + "\n"@ + section_texts(sections);
    assert(sources_text() + legend_text() + count_lines(sections) + "\n"@ + section_texts(sections)
        =~= sources_text() + rest);
    lemma_timestamp_occurs(retrieved_at_utc, sources_text() + rest);
    lemma_source_line_occurs(registry, preamble_text(retrieved_at_utc), rest);
}

proof fn lemma_first_seen_len<K>(keys: Seq<K>)
    ensures
        first_seen_keys(keys).len() <= keys.len(),
    decreases keys.len(),
{
    if keys.len() > 0 {
        lemma_first_seen_len(keys.drop_last());
    }
}


/// There is one warning write per warning, each on standard error.
proof fn lemma_warning_writes_shape(warnings: Seq<Seq<char>>)
    ensures
        warning_writes(warnings).len() == warnings.len(),
        forall|i: int|
            0 <= i < warnings.len() ==> #[trigger] warning_writes(warnings)[i] == (
                OperatorStream::StandardError,
                "warning: "@ + warnings[i] + "\n"@,
            ),
    decreases warnings.len(),
{
    if warnings.len() > 0 {
        lemma_warning_writes_shape(warnings.drop_last());
        assert forall|i: int| 0 <= i < warnings.len() - 1 implies warnings.drop_last()[i]
            == warnings[i] by {}
    }
}

/// Every host gets one line on standard output, in the order of the hosts: `<IPv4> <MAC>`
/// without vendor names, and `<IPv4> <MAC> <vendor>` with them, where the vendor is the name at
/// the host's position or `(Unknown)`.
pub proof fn law_one_line_per_host(hosts: Seq<DiscoveredHost>, vendor_names: Seq<Option<String>>)
    ensures
        host_writes(hosts).len() == hosts.len(),
        vendor_host_writes(hosts, vendor_names).len() == hosts.len(),
        forall|i: int|
            0 <= i < hosts.len() ==> #[trigger] host_writes(hosts)[i] == (
                OperatorStream::StandardOutput,
                host_text(hosts[i]) + "\n"@,
            ),
        forall|i: int|
            0 <= i < hosts.len() ==> #[trigger] vendor_host_writes(hosts, vendor_names)[i] == (
                OperatorStream::StandardOutput,
                host_text(hosts[i]) + " "@ + (if i < vendor_names.len() && vendor_names[i] is Some {
                    vendor_names[i]->0@
                } else {
                    "(Unknown)"@
                }) + "\n"@,
            ),
    decreases hosts.len(),
{
    if hosts.len() > 0 {
        law_one_line_per_host(hosts.drop_last(), vendor_names);
        assert forall|i: int| 0 <= i < hosts.len() - 1 implies hosts.drop_last()[i] == hosts[i] by {}
    }
}

/// Whether write `index` of an outcome is a host line: the host lines of a scan follow its
/// warnings.
pub open spec fn is_host_line_write(outcome: ApplicationOutcome, index: int) -> bool {
    match outcome {
        ApplicationOutcome::Scan(scan) => scan.warnings.len() <= index < scan.warnings.len()
            + scan.discovered_hosts.len(),
        ApplicationOutcome::UsableInterfacesList(_) => false,
    }
}

/// Vendor names change nothing but the host lines: with them the writes are as many, go to the
/// same streams, and are the same everywhere else (standard error among them, and
/// `no hosts found` or the interface table); the line of host `j`, `<IPv4> <MAC>` without
/// vendor names, becomes that line followed by a space and the host's vendor, or `(Unknown)`.
pub proof fn law_vendor_names_extend_host_lines(
    outcome: ApplicationOutcome,
    vendor_names: Seq<Option<String>>,
)
    ensures
        outcome_writes(outcome, Some(vendor_names)).len() == outcome_writes(outcome, None).len(),
        forall|i: int|
            0 <= i < outcome_writes(outcome, None).len() ==> (#[trigger] outcome_writes(
                outcome,
                Some(vendor_names),
            )[i]).0 == outcome_writes(outcome, None)[i].0,
        forall|i: int|
            0 <= i < outcome_writes(outcome, None).len() && !is_host_line_write(outcome, i)
                ==> #[trigger] outcome_writes(outcome, Some(vendor_names))[i] == outcome_writes(
                outcome,
                None,
            )[i],
        forall|i: int|
            0 <= i < outcome_writes(outcome, None).len() && (#[trigger] outcome_writes(
                outcome,
                None,
            )[i]).0 == OperatorStream::StandardError ==> outcome_writes(
                outcome,
                Some(vendor_names),
            )[i] == outcome_writes(outcome, None)[i],
        outcome matches ApplicationOutcome::Scan(scan) ==> forall|j: int|
            0 <= j < scan.discovered_hosts.len() ==> {
                &&& outcome_writes(outcome, None)[scan.warnings.len() + j] == (
                    OperatorStream::StandardOutput,
                    host_text(#[trigger] scan.discovered_hosts@[j]) + "\n"@,
                )
                &&& outcome_writes(outcome, Some(vendor_names))[scan.warnings.len() + j] == (
                    OperatorStream::StandardOutput,
                    host_text(scan.discovered_hosts@[j]) + " "@ + (if j < vendor_names.len() && vendor_names[j] is Some {
                    vendor_names[j]->0@
                } else {
                    "(Unknown)"@
                })
                        + "\n"@,
                )
            },
{
    match outcome {
        ApplicationOutcome::Scan(scan) => {
            let plain = outcome_writes(outcome, None);
            let annotated = outcome_writes(outcome, Some(vendor_names));
            let warnings = warning_writes(scan.warnings.deep_view());
            let hosts = scan.discovered_hosts@;
            lemma_warning_writes_shape(scan.warnings.deep_view());
            law_one_line_per_host(hosts, vendor_names);
            assert(scan.warnings.deep_view().len() == scan.warnings.len());
            let w: int = warnings.len() as int;
            let n: int = hosts.len() as int;
            if n == 0 {
                assert(annotated =~= plain);
            } else {
                let timing = plain.subrange(w + n, plain.len() as int);
                assert(plain =~= warnings + host_writes(hosts) + timing);
                assert(annotated =~= warnings + vendor_host_writes(hosts, vendor_names) + timing);
                assert forall|i: int| 0 <= i < plain.len() implies (#[trigger] annotated[i]).0
                    == plain[i].0 by {
                    if w <= i < w + n {
                        assert(plain[i] == host_writes(hosts)[i - w]);
                        assert(annotated[i] == vendor_host_writes(hosts, vendor_names)[i - w]);
                    }
                }
                assert forall|i: int|
                    0 <= i < plain.len() && !is_host_line_write(outcome, i) implies #[trigger] annotated[i]
                        == plain[i] by {
                    if i < w {
                        assert(plain[i] == warnings[i]);
                        assert(annotated[i] == warnings[i]);
                    } else {
                        assert(plain[i] == timing[i - w - n]);
                        assert(annotated[i] == timing[i - w - n]);
                    }
                }
                assert forall|i: int|
                    0 <= i < plain.len() && (#[trigger] plain[i]).0 == OperatorStream::StandardError
                        implies annotated[i] == plain[i] by {
                    if w <= i < w + n {
                        assert(plain[i] == host_writes(hosts)[i - w]);
                    } else if i < w {
                        assert(plain[i] == warnings[i]);
                        assert(annotated[i] == warnings[i]);
                    } else {
                        assert(plain[i] == timing[i - w - n]);
                        assert(annotated[i] == timing[i - w - n]);
                    }
                }
                assert forall|j: int| 0 <= j < n implies {
                    &&& plain[w + j] == (
                        OperatorStream::StandardOutput,
                        host_text(#[trigger] hosts[j]) + "\n"@,
                    )
                    &&& annotated[w + j] == (
                        OperatorStream::StandardOutput,
                        host_text(hosts[j]) + " "@ + (if j < vendor_names.len() && vendor_names[j] is Some {
                    vendor_names[j]->0@
                } else {
                    "(Unknown)"@
                }) + "\n"@,
                    )
                } by {
                    assert(plain[w + j] == host_writes(hosts)[j]);
                    assert(annotated[w + j] == vendor_host_writes(hosts, vendor_names)[j]);
                }
            }
        },
        ApplicationOutcome::UsableInterfacesList(_) => {},
    }
}


/// A data row is accepted exactly when it has four fields, names the registry, carries a valid
/// assignment and a non-blank organization name. The mapping it then contributes is the
/// normalized assignment and the whole organization name with its surrounding whitespace
/// removed, whatever its length. A row the reader failed on is never accepted.
pub proof fn law_row_vendor_is_trimmed_organization_name(
    registry: IeeeMacRegistry,
    fields: Seq<Seq<char>>,
    position: Option<u64>,
    failure: CsvFailureView,
)
    ensures
        row_mapping(registry, Ok::<CsvRecordView, CsvFailureView>((fields, position))) is Ok <==> (
        fields.len() == 4 && fields[0] == registry.label() && normalized_assignment(
            fields[1],
            registry.hex_width(),
        ) is Some && trim(fields[2]).len() > 0),
        row_mapping(registry, Ok::<CsvRecordView, CsvFailureView>((fields, position))) is Ok
            ==> row_mapping(registry, Ok::<CsvRecordView, CsvFailureView>((fields, position)))->Ok_0
            == (normalized_assignment(fields[1], registry.hex_width())->Some_0, trim(fields[2])),
        row_mapping(registry, Err::<CsvRecordView, CsvFailureView>(failure)) is Err,
{
}

/// Whether `c` is a hexadecimal digit in lower case, and its value: `0`–`9` and `a`–`f`
/// count 0 to 15, anything else counts -1.
pub open spec fn lower_hex_digit_value(c: char) -> int {
    if 48 <= c as int <= 57 {
        c as int - 48
    } else if 97 <= c as int <= 102 {
        c as int - 87
    } else {
        -1
    }
}

proof fn lemma_lower_hex_char_value(nibble: nat)
    requires
        nibble < 16,
    ensures
        lower_hex_digit_value(lower_hex_char(nibble)) == nibble,
{
}

/// A MAC address is shown as six lower-case hexadecimal pairs separated by colons: characters
/// `3k` and `3k + 1` are the digits of octet `k`, high nibble first, and character `3k + 2` is
/// `:` between pairs.
pub proof fn law_mac_text_is_lower_hex_pairs(address: MacAddress)
    ensures
        mac_text(address.octets@).len() == 17,
        forall|k: int|
            0 <= k < 6 ==> lower_hex_digit_value(#[trigger] mac_text(address.octets@)[3 * k]) == address.octets@[k]
                / 16 && lower_hex_digit_value(mac_text(address.octets@)[3 * k + 1])
                == address.octets@[k] % 16,
        forall|k: int| 0 <= k < 5 ==> #[trigger] mac_text(address.octets@)[3 * k + 2] == ':',
{
    reveal_strlit(":");
    let o = address.octets@;
    let t = mac_text(o);
    let hi = |k: int| lower_hex_char((o[k] / 16) as nat);
    let lo = |k: int| lower_hex_char((o[k] % 16) as nat);
    assert(t =~= seq![
        hi(0), lo(0), ':', hi(1), lo(1), ':', hi(2), lo(2), ':', hi(3), lo(3), ':', hi(4), lo(4),
        ':', hi(5), lo(5),
    ]);
    assert forall|k: int| 0 <= k < 6 implies lower_hex_digit_value(#[trigger] t[3 * k]) == o[k] / 16
        && lower_hex_digit_value(t[3 * k + 1]) == o[k] % 16 by {
        lemma_lower_hex_char_value((o[k] / 16) as nat);
        lemma_lower_hex_char_value((o[k] % 16) as nat);
        assert(t[3 * k] == hi(k) && t[3 * k + 1] == lo(k));
    }
    assert forall|k: int| 0 <= k < 5 implies #[trigger] t[3 * k + 2] == ':' by {}
}

/// The writes of a scan come in a fixed order whatever the hosts: first one
/// `warning: <w>` line on standard error per warning, in order (also when no host was
/// found); then, on standard output, `no hosts found` when there is no host, else one line per
/// host; then, when the scan carries a timing summary, its line on standard error.
pub proof fn law_scan_writes_in_order(scan: ScanOutcome, vendor_names: Option<Seq<Option<String>>>)
    ensures
        outcome_writes(ApplicationOutcome::Scan(scan), vendor_names).len() == scan.warnings.len()
            + (if scan.discovered_hosts.len() == 0 {
            1int
        } else {
            scan.discovered_hosts.len() as int
        }) + (if scan.timing_summary is Some {
            1int
        } else {
            0int
        }),
        forall|i: int|
            0 <= i < scan.warnings.len() ==> #[trigger] outcome_writes(
                ApplicationOutcome::Scan(scan),
                vendor_names,
            )[i] == (OperatorStream::StandardError, "warning: "@ + scan.warnings@[i]@ + "\n"@),
        scan.discovered_hosts.len() == 0 ==> outcome_writes(
            ApplicationOutcome::Scan(scan),
            vendor_names,
        )[scan.warnings.len() as int] == (OperatorStream::StandardOutput, "no hosts found\n"@),
        forall|j: int|
            0 <= j < scan.discovered_hosts.len() ==> (#[trigger] outcome_writes(
                ApplicationOutcome::Scan(scan),
                vendor_names,
            )[scan.warnings.len() + j]).0 == OperatorStream::StandardOutput,
        scan.timing_summary matches Some(summary) ==> outcome_writes(
            ApplicationOutcome::Scan(scan),
            vendor_names,
        ).last() == (
            OperatorStream::StandardError,
            timing_line(
                summary.network_interface_name@,
                summary.discovered_host_count as nat,
                summary.scan_round_count as nat,
                summary_milliseconds(summary),
            ) + "\n"@,
        ),
{
    let writes = outcome_writes(ApplicationOutcome::Scan(scan), vendor_names);
    let warnings = warning_writes(scan.warnings.deep_view());
    let hosts = scan.discovered_hosts@;
    let names = match vendor_names {
        Some(names) => names,
        None => Seq::empty(),
    };
    lemma_warning_writes_shape(scan.warnings.deep_view());
    law_one_line_per_host(hosts, names);
    assert(scan.warnings.deep_view().len() == scan.warnings.len());
    assert forall|i: int| 0 <= i < scan.warnings.len() implies scan.warnings.deep_view()[i]
        == scan.warnings@[i]@ by {}
    let w: int = warnings.len() as int;
    let host_section = if hosts.len() == 0 {
        seq![(OperatorStream::StandardOutput, "no hosts found\n"@)]
    } else {
        match vendor_names {
            None => host_writes(hosts),
            Some(names) => vendor_host_writes(hosts, names),
        }
    };
    let timing = writes.subrange(w + host_section.len(), writes.len() as int);
    assert(writes =~= warnings + host_section + timing);
    assert forall|i: int| 0 <= i < scan.warnings.len() implies #[trigger] writes[i] == (
        OperatorStream::StandardError,
        "warning: "@ + scan.warnings@[i]@ + "\n"@,
    ) by {
        assert(writes[i] == warnings[i]);
    }
    assert forall|j: int| 0 <= j < hosts.len() implies (#[trigger] writes[w + j]).0
        == OperatorStream::StandardOutput by {
        assert(writes[w + j] == host_section[j]);
    }
}

/// Walking an accepted prefix of the arguments and then the rest gives what walking all of
/// them from the end of that prefix gives.
proof fn lemma_parse_continues(
    args: Seq<Seq<char>>,
    tail: Seq<Seq<char>>,
    index: nat,
    request: RequestModel,
)
    requires
        index <= args.len(),
        parse_arguments_from(args, index, request) is Ok,
    ensures
        parse_arguments_from(args + tail, index, request) == parse_arguments_from(
            args + tail,
            args.len(),
            parse_arguments_from(args, index, request)->Ok_0,
        ),
    decreases args.len() - index,
{
    if index < args.len() {
        let flag = args[index as int];
        assert((args + tail)[index as int] == flag);
        assert(index + 1 < args.len());
        let value = args[index + 1 as int];
        assert((args + tail)[index + 1 as int] == value);
        let next = if flag == "--output"@ {
            RequestModel { output_path: value, ..request }
        } else if flag == "--from-dir"@ {
            RequestModel { from_dir: Some(value), ..request }
        } else {
            RequestModel { retrieved_at_utc: Some(value), ..request }
        };
        lemma_parse_continues(args, tail, index + 2, next);
    }
}

/// The updater's arguments are consumed left to right, every one of them. No arguments give
/// the default request (output `ieee-oui.txt`, no directory, no timestamp). Appending
/// `--output`, `--from-dir` or `--retrieved-at` and a value to accepted arguments sets that
/// field to the value and keeps the others, whatever flags came before; appending any other
/// argument, or one of those flags with nothing after it, rejects the arguments, whatever
/// follows.
pub proof fn law_arguments_are_all_consumed(
    args: Seq<Seq<char>>,
    value: Seq<char>,
    other: Seq<char>,
    rest: Seq<Seq<char>>,
)
    ensures
        parse_arguments(Seq::empty()) == Ok::<RequestModel, Seq<char>>(
            RequestModel { output_path: "ieee-oui.txt"@, from_dir: None, retrieved_at_utc: None },
        ),
        parse_arguments(args) is Ok ==> parse_arguments(args + seq!["--output"@, value]) == Ok::<
            RequestModel,
            Seq<char>,
        >(RequestModel { output_path: value, ..parse_arguments(args)->Ok_0 }),
        parse_arguments(args) is Ok ==> parse_arguments(args + seq!["--from-dir"@, value]) == Ok::<
            RequestModel,
            Seq<char>,
        >(RequestModel { from_dir: Some(value), ..parse_arguments(args)->Ok_0 }),
        parse_arguments(args) is Ok ==> parse_arguments(args + seq!["--retrieved-at"@, value])
            == Ok::<RequestModel, Seq<char>>(
            RequestModel { retrieved_at_utc: Some(value), ..parse_arguments(args)->Ok_0 },
        ),
        parse_arguments(args) is Ok && other != "--output"@ && other != "--from-dir"@ && other
            != "--retrieved-at"@ ==> parse_arguments(args + seq![other] + rest) is Err,
        parse_arguments(args) is Ok && (other == "--output"@ || other == "--from-dir"@ || other
            == "--retrieved-at"@) ==> parse_arguments(args + seq![other]) is Err,
{
    reveal_strlit("--output");
    reveal_strlit("--from-dir");
    reveal_strlit("--retrieved-at");
    if parse_arguments(args) is Ok {
        let start = RequestModel {
            output_path: "ieee-oui.txt"@,
            from_dir: None,
            retrieved_at_utc: None,
        };
        let r = parse_arguments(args)->Ok_0;
        let n = args.len();
        let with_output = args + seq!["--output"@, value];
        lemma_parse_continues(args, seq!["--output"@, value], 0, start);
        assert(with_output[n as int] == "--output"@ && with_output[n + 1int] == value);
        assert(parse_arguments_from(with_output, n + 2, RequestModel { output_path: value, ..r })
            == Ok::<RequestModel, Seq<char>>(RequestModel { output_path: value, ..r }));
        let with_dir = args + seq!["--from-dir"@, value];
        lemma_parse_continues(args, seq!["--from-dir"@, value], 0, start);
        assert(with_dir[n as int] == "--from-dir"@ && with_dir[n + 1int] == value);
        assert("--from-dir"@ != "--output"@) by {
            assert("--from-dir"@.len() != "--output"@.len());
        }
        assert(parse_arguments_from(with_dir, n, r) == parse_arguments_from(
            with_dir,
            n + 2,
            RequestModel { from_dir: Some(value), ..r },
        ));
        assert(parse_arguments_from(with_dir, n + 2, RequestModel { from_dir: Some(value), ..r })
            == Ok::<RequestModel, Seq<char>>(RequestModel { from_dir: Some(value), ..r }));
        let with_stamp = args + seq!["--retrieved-at"@, value];
        lemma_parse_continues(args, seq!["--retrieved-at"@, value], 0, start);
        assert(with_stamp[n as int] == "--retrieved-at"@ && with_stamp[n + 1int] == value);
        assert("--retrieved-at"@ != "--output"@ && "--retrieved-at"@ != "--from-dir"@) by {
            assert("--retrieved-at"@.len() != "--output"@.len());
            assert("--retrieved-at"@.len() != "--from-dir"@.len());
        }
        assert(parse_arguments_from(with_stamp, n, r) == parse_arguments_from(
            with_stamp,
            n + 2,
            RequestModel { retrieved_at_utc: Some(value), ..r },
        ));
        assert(parse_arguments_from(
            with_stamp,
            n + 2,
            RequestModel { retrieved_at_utc: Some(value), ..r },
        ) == Ok::<RequestModel, Seq<char>>(RequestModel { retrieved_at_utc: Some(value), ..r }));
        let with_other = args + seq![other] + rest;
        assert(with_other =~= args + (seq![other] + rest));
        lemma_parse_continues(args, seq![other] + rest, 0, start);
        assert(with_other[n as int] == other);
        let lone = args + seq![other];
        lemma_parse_continues(args, seq![other], 0, start);
        assert(lone[n as int] == other);
    }
}


/// The number a string of decimal digits reads as, most significant digit first.
pub open spec fn numeral_value(digits: Seq<char>) -> int
    decreases digits.len(),
{
    if digits.len() == 0 {
        0
    } else {
        numeral_value(digits.drop_last()) * 10 + (digits.last() as int - 48)
    }
}

/// The decimal numeral of `n` (every count, octet, index and millisecond figure the library
/// prints) is made of the digits `0`–`9` only, reads back as `n`, and starts with `0` only
/// when it is `0` itself.
pub proof fn law_decimal_reads_back(n: nat)
    ensures
        decimal(n).len() > 0,
        forall|i: int| 0 <= i < decimal(n).len() ==> 48 <= #[trigger] decimal(n)[i] as int <= 57,
        numeral_value(decimal(n)) == n,
        decimal(n)[0] == '0' ==> n == 0 && decimal(n).len() == 1,
    decreases n,
{
    if n >= 10 {
        law_decimal_reads_back(n / 10);
        let head = decimal(n / 10);
        assert(decimal(n) == head.push(crate::text::digit_char(n % 10)));
        assert(decimal(n).drop_last() =~= head);
        assert forall|i: int| 0 <= i < decimal(n).len() implies 48 <= #[trigger] decimal(n)[i] as int
            <= 57 by {
            if i < head.len() {
                assert(decimal(n)[i] == head[i]);
            }
        }
        assert(crate::text::digit_char(n % 10) as int == 48 + n % 10);
        assert(numeral_value(decimal(n)) == numeral_value(head) * 10 + (n % 10) as int);
        assert(numeral_value(head) == n / 10);
        assert(n == (n / 10) * 10 + n % 10);
    } else {
        assert(crate::text::digit_char(n) as int == 48 + n);
        assert(decimal(n).drop_last() =~= Seq::<char>::empty());
        assert(numeral_value(Seq::<char>::empty()) == 0);
        assert(numeral_value(decimal(n)) == numeral_value(decimal(n).drop_last()) * 10 + (
        decimal(n).last() as int - 48));
    }
}


/// Whether `digits` is the plain decimal numeral of `value`: digits `0`–`9` only, reading as
/// `value`, with no leading zero.
pub open spec fn is_numeral_of(digits: Seq<char>, value: nat) -> bool {
    &&& digits.len() > 0
    &&& forall|i: int| 0 <= i < digits.len() ==> 48 <= #[trigger] digits[i] as int <= 57
    &&& numeral_value(digits) == value
    &&& (digits[0] == '0' ==> value == 0 && digits.len() == 1)
}

/// An IPv4 address is shown as the plain decimal numerals of its four octets, in order,
/// separated by dots.
pub proof fn law_ipv4_text_is_dotted_decimal(address: Ipv4Address)
    ensures
        exists|a: Seq<char>, b: Seq<char>, c: Seq<char>, d: Seq<char>|
            is_numeral_of(a, address.octets@[0] as nat) && is_numeral_of(b, address.octets@[1] as nat)
                && is_numeral_of(c, address.octets@[2] as nat) && is_numeral_of(
                d,
                address.octets@[3] as nat,
            ) && #[trigger] ipv4_text(address.octets@) == a + "."@ + b + "."@ + c + "."@ + d,
{
    let o = address.octets@;
    law_decimal_reads_back(o[0] as nat);
    law_decimal_reads_back(o[1] as nat);
    law_decimal_reads_back(o[2] as nat);
    law_decimal_reads_back(o[3] as nat);
    let a = decimal(o[0] as nat);
    let b = decimal(o[1] as nat);
    let c = decimal(o[2] as nat);
    let d = decimal(o[3] as nat);
    assert(is_numeral_of(a, o[0] as nat) && is_numeral_of(b, o[1] as nat) && is_numeral_of(
        c,
        o[2] as nat,
    ) && is_numeral_of(d, o[3] as nat) && ipv4_text(o) == a + "."@ + b + "."@ + c + "."@ + d);
}

} // verus!
