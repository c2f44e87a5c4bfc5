# new_arp_scan (verified library)

Verified core of the ARP scanner's IEEE MAC registry updater and of the operator-facing text
the scanner prints, written in Verus.

- `src/` — the library. Every function is verified except a few trusted wrappers around
  calls that Verus cannot read, each with a contract stated over plain values:
  - `csv_source`: `read_csv_header` and `read_csv_records`, the `csv` crate's reader;
  - `text`: `push_char`, std's `String::push`;
  - `command`: `decode_utf8_bytes`, std's `String::from_utf8`;
  - `updater`: `format_debug_str`, std's `Debug` quoting of a string;
  - `timing`: `duration_whole_milliseconds`, std's `Duration::as_millis`, and the contract of
    `Duration`'s `clone`.

  The modules:
  - `registry`: the four IEEE registries (MA-L, MA-M, MA-S, IAB), their URLs, labels, widths.
  - `csv_source`: the `csv` crate's reading of a listing, held as plain values.
  - `assignment`, `dedup`, `convert`: assignment normalization, last-row-wins deduplication in
    first-seen order, and the conversion of the four listings.
  - `render`: the exact text of `ieee-oui.txt`.
  - `error`, `updater`, `command`: failures and their messages, argument parsing, the summary,
    and the decisions around `curl` and `date`.
  - `timing`, `outcome`: the scan timing summary, the interface table, and the ordered writes of
    a scan or listing outcome, with or without vendor names on the host lines.
  - `laws`: properties proved for every input.
- `tests/` — unit tests run against the compiled library.
- `app/` — the `mac-vendor-updater` command: argument handling, running `curl` and `date`,
  reading the listings, and the atomic file replacement.

Two parts of the scanner depend on its network crate (packet capture, the registry parser and
the MAC vendor lookup), which is not a dependency here:
- the scanner command, which performs the writes of `operator_writes` on its standard streams
  and stops at the first failing write; the library gives those writes, in order, with their
  streams, and takes the vendor names found per host as plain values;
- re-reading the generated `ieee-oui.txt` with the registry parser before the file is replaced;
  the updater writes the text as generated, whose every mapping line `laws` proves well formed.
