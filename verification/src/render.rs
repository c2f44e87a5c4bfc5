//! The text of `ieee-oui.txt`: a provenance header, per-registry counts, and one
//! `<prefix>TAB<vendor>` line per mapping inside per-registry sections.

use vstd::prelude::*;

use crate::convert::{RegistryCounts, RegistrySection, SectionModel};
use crate::registry::IeeeMacRegistry;
use crate::text::{decimal, push_decimal};

verus! {

/// `singular` for a count of one and `plural` otherwise.
pub open spec fn noun_for(count: nat, singular: Seq<char>, plural: Seq<char>) -> Seq<char> {
    if count == 1 {
        singular
    } else {
        plural
    }
}

/// Provenance lines up to and including `# Sources:`.
pub open spec fn preamble_text(retrieved_at_utc: Seq<char>) -> Seq<char> {
    "# ieee-oui.txt -- IEEE Ethernet OUI-Vendor mapping file for new-arp-scan\n#\n"@
        + "# Generated by mac-vendor-updater. Do not edit this file.\n"@
        + "# Extra local mappings belong in a separate file passed to --mac-vendor-file.\n#\n"@
        + "# Retrieved (UTC): "@ + retrieved_at_utc + "\n#\n# Sources:\n"@
}

/// The `Sources` line of one registry.
pub open spec fn source_line(registry: IeeeMacRegistry) -> Seq<char> {
    "#   "@ + registry.label() + ": "@ + registry.url() + "\n"@
}

/// The `Sources` lines of every registry, in file order.
pub open spec fn sources_text() -> Seq<char> {
    source_line(IeeeMacRegistry::MaL) + source_line(IeeeMacRegistry::MaM) + source_line(
        IeeeMacRegistry::MaS,
    ) + source_line(IeeeMacRegistry::Iab)
}

/// The lines that explain the format and introduce the counts.
pub open spec fn legend_text() -> Seq<char> {
    "#\n# Each line is <hex-prefix><TAB><vendor>. Blank lines and # comments are ignored.\n"@
        + "# Duplicate assignments keep the last source row.\n#\n"@
        + "# Entry counts (emitted unique prefixes; last duplicate assignment wins):\n"@
}

/// `<rows> source row(s), <duplicates> duplicate(s) removed` of some counts.
pub open spec fn tally_text(counts: RegistryCounts) -> Seq<char> {
    decimal(counts.source_rows as nat) + " "@ + noun_for(
        counts.source_rows as nat,
        "source row"@,
        "source rows"@,
    ) + ", "@ + decimal(counts.duplicates_removed as nat) + " "@ + noun_for(
        counts.duplicates_removed as nat,
        "duplicate"@,
        "duplicates"@,
    ) + " removed"@
}

/// The header count line of one registry.
pub open spec fn count_line(counts: RegistryCounts) -> Seq<char> {
    "#   "@ + counts.registry.label() + ": "@ + decimal(counts.emitted as nat) + " emitted ("@
        + tally_text(counts) + ")\n"@
}

/// The header count lines of the sections, in order.
pub open spec fn count_lines(sections: Seq<SectionModel>) -> Seq<char>
    decreases sections.len(),
{
    if sections.len() == 0 {
        Seq::empty()
    } else {
        count_lines(sections.drop_last()) + count_line(sections.last().counts)
    }
}

/// One `<prefix>TAB<vendor>` line per mapping, in order.
pub open spec fn mapping_lines(mappings: Seq<(Seq<char>, Seq<char>)>) -> Seq<char>
    decreases mappings.len(),
{
    if mappings.len() == 0 {
        Seq::empty()
    } else {
        mapping_lines(mappings.drop_last()) + mappings.last().0 + "\t"@ + mappings.last().1
            + "\n"@
    }
}

/// The data block of one registry.
pub open spec fn section_text(section: SectionModel) -> Seq<char> {
    let counts = section.counts;
    "#\n# Start of IEEE "@ + counts.registry.label() + " registry data\n#\n"@ + mapping_lines(
        section.mappings,
    ) + "#\n# End of IEEE "@ + counts.registry.label() + " registry data. "@ + decimal(
        counts.emitted as nat,
    ) + " emitted, "@ + tally_text(counts) + ".\n#\n"@
}

/// The data blocks of the sections, in order.
pub open spec fn section_texts(sections: Seq<SectionModel>) -> Seq<char>
    decreases sections.len(),
{
    if sections.len() == 0 {
        Seq::empty()
    } else {
        section_texts(sections.drop_last()) + section_text(sections.last())
    }
}

/// The whole `ieee-oui.txt` text for the sections.
pub open spec fn ieee_oui_text(retrieved_at_utc: Seq<char>, sections: Seq<SectionModel>) -> Seq<
    char,
> {
    preamble_text(retrieved_at_utc) + sources_text() + legend_text() + count_lines(sections)
        + "\n"@ + section_texts(sections)
}

/// The sections as models.
pub open spec fn sections_view(sections: Seq<RegistrySection>) -> Seq<SectionModel> {
    sections.map_values(|section: RegistrySection| section@)
}

/// `singular` when `count` is one, `plural` otherwise.
pub fn count_noun(count: usize, singular: &'static str, plural: &'static str) -> (noun:
    &'static str)
    ensures
        noun@ == noun_for(count as nat, singular@, plural@),
{
    if count == 1 {
        singular
    } else {
        plural
    }
}

/// Appends `line` and a newline.
pub fn write_line(text: &mut String, line: &str)
    ensures
        final(text)@ == old(text)@ + line@ + "\n"@,
{
    text.append(line);
    text.append("\n");
}

fn push_tally(text: &mut String, counts: RegistryCounts)
    ensures
        final(text)@ == old(text)@ + tally_text(counts),
{
    push_decimal(text, counts.source_rows as u64);
    text.append(" ");
    text.append(count_noun(counts.source_rows, "source row", "source rows"));
    text.append(", ");
    push_decimal(text, counts.duplicates_removed as u64);
    text.append(" ");
    text.append(count_noun(counts.duplicates_removed, "duplicate", "duplicates"));
    text.append(" removed");
}

fn push_source_line(text: &mut String, registry: IeeeMacRegistry)
    ensures
        final(text)@ == old(text)@ + source_line(registry),
{
    text.append("#   ");
    text.append(registry.csv_registry_label());
    text.append(": ");
    text.append(registry.csv_url());
    text.append("\n");
}

fn push_count_line(text: &mut String, counts: RegistryCounts)
    ensures
        final(text)@ == old(text)@ + count_line(counts),
{
    text.append("#   ");
    text.append(counts.registry.csv_registry_label());
    text.append(": ");
    push_decimal(text, counts.emitted as u64);
    text.append(" emitted (");
    push_tally(text, counts);
    text.append(")\n");
}

fn push_section(text: &mut String, section: &RegistrySection)
    ensures
        final(text)@ == old(text)@ + section_text(section@),
{
    let counts = section.counts;
    let ghost start = text@;
    text.append("#\n# Start of IEEE ");
    text.append(counts.registry.csv_registry_label());
    text.append(" registry data\n#\n");
    let ghost head = text@;
    let ghost all = section@.mappings;
    let mut i: usize = 0;
    assert(all.take(0) =~= Seq::<(Seq<char>, Seq<char>)>::empty());
    while i < section.mappings.len()
        invariant
            i <= section.mappings.len(),
            all == section@.mappings,
            text@ == head + mapping_lines(all.take(i as int)),
        decreases section.mappings.len() - i,
    {
        assert(all.take(i + 1).drop_last() =~= all.take(i as int));
        assert(all[i as int] == (section.mappings@[i as int].0@, section.mappings@[i as int].1@));
        text.append(section.mappings[i].0.as_str());
        text.append("\t");
        text.append(section.mappings[i].1.as_str());
        text.append("\n");
        i = i + 1;
    }
    assert(all.take(section.mappings.len() as int) =~= all);
    text.append("#\n# End of IEEE ");
    text.append(counts.registry.csv_registry_label());
    text.append(" registry data. ");
    push_decimal(text, counts.emitted as u64);
    text.append(" emitted, ");
    push_tally(text, counts);
    text.append(".\n#\n");
}

/// Renders the `ieee-oui.txt` text: provenance header with the retrieval timestamp and the
/// source URLs, per-registry counts, then each section's mappings.
pub fn render_ieee_oui_text(retrieved_at_utc: &str, sections: &[RegistrySection]) -> (text: String)
    ensures
        text@ == ieee_oui_text(retrieved_at_utc@, sections_view(sections@)),
{
    let ghost model = sections_view(sections@);
    let mut text = String::new();
    text.append("# ieee-oui.txt -- IEEE Ethernet OUI-Vendor mapping file for new-arp-scan\n#\n");
    text.append("# Generated by mac-vendor-updater. Do not edit this file.\n");
    text.append("# Extra local mappings belong in a separate file passed to --mac-vendor-file.\n#\n");
    text.append("# Retrieved (UTC): ");
    text.append(retrieved_at_utc);
    text.append("\n#\n# Sources:\n");
    push_source_line(&mut text, IeeeMacRegistry::MaL);
    push_source_line(&mut text, IeeeMacRegistry::MaM);
    push_source_line(&mut text, IeeeMacRegistry::MaS);
    push_source_line(&mut text, IeeeMacRegistry::Iab);
    text.append("#\n# Each line is <hex-prefix><TAB><vendor>. Blank lines and # comments are ignored.\n");
    text.append("# Duplicate assignments keep the last source row.\n#\n");
    text.append("# Entry counts (emitted unique prefixes; last duplicate assignment wins):\n");
    let ghost head = text@;
    assert(head =~= preamble_text(retrieved_at_utc@) + sources_text() + legend_text());
    let mut i: usize = 0;
    assert(model.take(0) =~= Seq::<SectionModel>::empty());
    while i < sections.len()
        invariant
            i <= sections.len(),
            model == sections_view(sections@),
            text@ == head + count_lines(model.take(i as int)),
        decreases sections.len() - i,
    {
        assert(model.take(i + 1).drop_last() =~= model.take(i as int));
        push_count_line(&mut text, sections[i].counts);
        i = i + 1;
    }
    assert(model.take(sections.len() as int) =~= model);
    text.append("\n");
    let ghost middle = text@;
    let mut j: usize = 0;
    while j < sections.len()
        invariant
            j <= sections.len(),
            model == sections_view(sections@),
            text@ == middle + section_texts(model.take(j as int)),
        decreases sections.len() - j,
    {
        assert(model.take(j + 1).drop_last() =~= model.take(j as int));
        push_section(&mut text, &sections[j]);
        j = j + 1;
    }
    assert(model.take(sections.len() as int) =~= model);
    text
}

} // verus!
