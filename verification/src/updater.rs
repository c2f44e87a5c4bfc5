//! The registry updater's requests, failures, command-line parsing, and summary text.

use vstd::prelude::*;

use crate::convert::{ConvertedIeeeOui, ConvertedModel, RegistryCounts};
use crate::error::{ConvertError, convert_error_text};
use crate::text::{decimal, push_decimal, push_signed_decimal, signed_decimal, str_eq, trim, trim_str};
use vstd::utf8::encode_utf8;

verus! {

/// Failures of the updater: fetch, conversion, reading, or writing.
#[derive(Debug, Clone, PartialEq, Eq)]
pub enum UpdaterError {
    /// CSV conversion failed; the previous output file must stay untouched.
    Convert(ConvertError),
    /// Reading a `--from-dir` CSV failed.
    ReadCsv {
        /// Path that could not be read as UTF-8 text.
        path: String,
        /// Underlying I/O or UTF-8 error display.
        message: String,
    },
    /// `curl` was not found on `PATH`.
    CurlMissing,
    /// `curl` ran but did not download the listing.
    CurlFailed {
        /// URL that was requested.
        url: String,
        /// Process exit status, when known.
        status: Option<i32>,
        /// Standard error from `curl`.
        stderr: String,
    },
    /// The `date -u` command used for the provenance timestamp failed.
    RetrievedAtTimestampUnavailable {
        /// Explanation for operators.
        message: String,
    },
    /// Writing or renaming the output file failed. The previous file is left in place when
    /// rename never ran.
    Write {
        /// Intended destination path.
        path: String,
        /// Display of the underlying I/O error.
        message: String,
    },
    /// A command-line argument was missing or unknown.
    Usage {
        /// Operator-facing usage explanation.
        message: String,
    },
}

/// The operator-facing text of an updater failure.
pub open spec fn updater_error_text(error: UpdaterError) -> Seq<char> {
    match error {
        UpdaterError::Convert(inner) => convert_error_text(inner@),
        UpdaterError::ReadCsv { path, message } => "failed to read IEEE CSV "@ + path@ + ": "@
            + message@,
        UpdaterError::CurlMissing => "curl was not found on PATH; install curl to fetch IEEE listings"@,
        UpdaterError::CurlFailed { url, status, stderr } => match status {
            Some(code) => "curl failed for "@ + url@ + " (exit "@ + signed_decimal(code as int)
                + "): "@ + trim(stderr@),
            None => "curl failed for "@ + url@ + ": "@ + trim(stderr@),
        },
        UpdaterError::RetrievedAtTimestampUnavailable { message } =>
            "could not determine UTC retrieval timestamp: "@ + message@,
        UpdaterError::Write { path, message } => "failed to write "@ + path@ + ": "@ + message@,
        UpdaterError::Usage { message } => message@,
    }
}

impl UpdaterError {
    /// The operator-facing description of the failure.
    pub fn to_display_string(&self) -> (text: String)
        ensures
            text@ == updater_error_text(*self),
    {
        let mut text = String::new();
        match self {
            UpdaterError::Convert(inner) => {
                text = inner.to_display_string();
            },
            UpdaterError::ReadCsv { path, message } => {
                text.append("failed to read IEEE CSV ");
                text.append(path.as_str());
                text.append(": ");
                text.append(message.as_str());
            },
            UpdaterError::CurlMissing => {
                text.append("curl was not found on PATH; install curl to fetch IEEE listings");
            },
            UpdaterError::CurlFailed { url, status, stderr } => {
                text.append("curl failed for ");
                text.append(url.as_str());
                match status {
                    Some(code) => {
                        text.append(" (exit ");
                        push_signed_decimal(&mut text, *code);
                        text.append("): ");
                    },
                    None => {
                        text.append(": ");
                    },
                }
                let trimmed = trim_str(stderr.as_str());
                text.append(trimmed.as_str());
            },
            UpdaterError::RetrievedAtTimestampUnavailable { message } => {
                text.append("could not determine UTC retrieval timestamp: ");
                text.append(message.as_str());
            },
            UpdaterError::Write { path, message } => {
                text.append("failed to write ");
                text.append(path.as_str());
                text.append(": ");
                text.append(message.as_str());
            },
            UpdaterError::Usage { message } => {
                text.append(message.as_str());
            },
        }
        text
    }
}

impl From<ConvertError> for UpdaterError {
    fn from(error: ConvertError) -> (wrapped: Self) {
        UpdaterError::Convert(error)
    }
}

impl vstd::std_specs::convert::FromSpecImpl<ConvertError> for UpdaterError {
    open spec fn obeys_from_spec() -> bool {
        true
    }

    open spec fn from_spec(error: ConvertError) -> Self {
        UpdaterError::Convert(error)
    }
}

/// Inputs for one updater run.
#[derive(Debug, Clone, PartialEq, Eq)]
pub struct UpdateRequest {
    /// Destination `ieee-oui.txt` path.
    pub output_path: String,
    /// When present, read the four official CSV file names from this directory instead of
    /// fetching them.
    pub from_dir: Option<String>,
    /// Injected UTC timestamp. When absent, `date -u` is invoked.
    pub retrieved_at_utc: Option<String>,
}

/// An [`UpdateRequest`] with its texts as character sequences.
pub struct RequestModel {
    pub output_path: Seq<char>,
    pub from_dir: Option<Seq<char>>,
    pub retrieved_at_utc: Option<Seq<char>>,
}

/// The view of an optional text.
pub open spec fn optional_text(text: Option<String>) -> Option<Seq<char>> {
    match text {
        Some(text) => Some(text@),
        None => None,
    }
}

impl View for UpdateRequest {
    type V = RequestModel;

    open spec fn view(&self) -> RequestModel {
        RequestModel {
            output_path: self.output_path@,
            from_dir: optional_text(self.from_dir),
            retrieved_at_utc: optional_text(self.retrieved_at_utc),
        }
    }
}

/// The help text of the updater.
pub open spec fn help_message() -> Seq<char> {
    "Usage: mac-vendor-updater [--output PATH] [--from-dir DIR] [--retrieved-at TIMESTAMP]\n\nDownloads IEEE MA-L, MA-M, MA-S, and IAB CSVs with curl, converts them to ieee-oui.txt,\nand atomically replaces PATH (default: ./ieee-oui.txt). Scans never fetch these listings.\n\n  --output PATH          Destination mapping file\n  --from-dir DIR         Read oui.csv, mam.csv, oui36.csv, and iab.csv from DIR (no network)\n  --retrieved-at STAMP   Inject this UTC timestamp into the provenance header\n  -h, --help             Show this help"@
}

/// Usage text of the updater, printed for `--help` and after an unknown argument.
pub fn help_text() -> (help: &'static str)
    ensures
        help@ == help_message(),
{
    "Usage: mac-vendor-updater [--output PATH] [--from-dir DIR] [--retrieved-at TIMESTAMP]\n\nDownloads IEEE MA-L, MA-M, MA-S, and IAB CSVs with curl, converts them to ieee-oui.txt,\nand atomically replaces PATH (default: ./ieee-oui.txt). Scans never fetch these listings.\n\n  --output PATH          Destination mapping file\n  --from-dir DIR         Read oui.csv, mam.csv, oui36.csv, and iab.csv from DIR (no network)\n  --retrieved-at STAMP   Inject this UTC timestamp into the provenance header\n  -h, --help             Show this help"
}

/// What `{:?}` writes for a string slice: the text quoted, with characters escaped as
/// `str`'s `Debug` escapes them.
pub uninterp spec fn debug_quoted(text: Seq<char>) -> Seq<char>;

/// The `Debug` rendering of a string slice (`<str as Debug>::fmt`).
///
/// Claims that the result is [`debug_quoted`] of the text: it depends on the text alone.
#[verifier::external_body]
fn format_debug_str(text: &str) -> (quoted: String)
    ensures
        quoted@ == debug_quoted(text@),
{
    format!("{text:?}")
}

/// The request the arguments parse into from position `index` on, starting from `request`,
/// or the usage message that rejects them.
pub open spec fn parse_arguments_from(
    args: Seq<Seq<char>>,
    index: nat,
    request: RequestModel,
) -> Result<RequestModel, Seq<char>>
    decreases args.len() - index,
{
    if index >= args.len() {
        Ok(request)
    } else {
        let flag = args[index as int];
        if flag == "--output"@ || flag == "--from-dir"@ || flag == "--retrieved-at"@ {
            if index + 1 >= args.len() {
                Err(flag + " requires a value"@)
            } else {
                let value = args[index + 1 as int];
                let next = if flag == "--output"@ {
                    RequestModel { output_path: value, ..request }
                } else if flag == "--from-dir"@ {
                    RequestModel { from_dir: Some(value), ..request }
                } else {
                    RequestModel { retrieved_at_utc: Some(value), ..request }
                };
                parse_arguments_from(args, index + 2, next)
            }
        } else {
            Err("unknown argument "@ + debug_quoted(flag) + "\n"@ + help_message())
        }
    }
}

/// What the updater's arguments parse into: `--output` (default `ieee-oui.txt`),
/// `--from-dir`, and `--retrieved-at`, each taking the next argument as its value and a later
/// occurrence overriding an earlier one.
pub open spec fn parse_arguments(args: Seq<Seq<char>>) -> Result<RequestModel, Seq<char>> {
    parse_arguments_from(
        args,
        0,
        RequestModel { output_path: "ieee-oui.txt"@, from_dir: None, retrieved_at_utc: None },
    )
}

/// The argument after `index`, or a usage failure naming `flag` when there is none.
pub fn require_value<'a>(args: &'a [String], index: usize, flag: &str) -> (value: Result<
    &'a str,
    UpdaterError,
>)
    ensures
        match value {
            Ok(value) => index + 1 < args@.len() && value@ == args@[index + 1]@,
            Err(error) => index + 1 >= args@.len() && error is Usage && error->Usage_message@
                == flag@ + " requires a value"@,
        },
{
    if index < args.len() && index + 1 < args.len() {
        Ok(args[index + 1].as_str())
    } else {
        let mut message = String::new();
        message.append(flag);
        message.append(" requires a value");
        Err(UpdaterError::Usage { message })
    }
}

/// Parses the updater's arguments (program name excluded).
pub fn parse_args(args: &[String]) -> (request: Result<UpdateRequest, UpdaterError>)
    ensures
        match request {
            Ok(request) => parse_arguments(args@.map_values(|a: String| a@)) == Ok::<
                _,
                Seq<char>,
            >(request@),
            Err(error) => error is Usage && parse_arguments(args@.map_values(|a: String| a@))
                == Err::<RequestModel, _>(error->Usage_message@),
        },
{
    let ghost model = args@.map_values(|a: String| a@);
    let mut output_path = String::new();
    output_path.append("ieee-oui.txt");
    let mut from_dir: Option<String> = None;
    let mut retrieved_at_utc: Option<String> = None;
    let mut index: usize = 0;
    while index < args.len()
        invariant
            index <= args.len(),
            model == args@.map_values(|a: String| a@),
            parse_arguments(model) == parse_arguments_from(
                model,
                index as nat,
                RequestModel {
                    output_path: output_path@,
                    from_dir: optional_text(from_dir),
                    retrieved_at_utc: optional_text(retrieved_at_utc),
                },
            ),
        decreases args.len() - index,
    {
        let flag = args[index].as_str();
        assert(model[index as int] == flag@);
        if str_eq(flag, "--output") {
            let value = require_value(args, index, "--output")?;
            output_path = String::new();
            output_path.append(value);
            index = index + 2;
        } else if str_eq(flag, "--from-dir") {
            let value = require_value(args, index, "--from-dir")?;
            let mut directory = String::new();
            directory.append(value);
            from_dir = Some(directory);
            index = index + 2;
        } else if str_eq(flag, "--retrieved-at") {
            let value = require_value(args, index, "--retrieved-at")?;
            let mut stamp = String::new();
            stamp.append(value);
            retrieved_at_utc = Some(stamp);
            index = index + 2;
        } else {
            let mut message = String::new();
            message.append("unknown argument ");
            let quoted = format_debug_str(flag);
            message.append(quoted.as_str());
            message.append("\n");
            message.append(help_text());
            return Err(UpdaterError::Usage { message });
        }
    }
    Ok(UpdateRequest { output_path, from_dir, retrieved_at_utc })
}

/// The length in bytes of the UTF-8 encoding of a text held in memory.
pub open spec fn utf8_byte_length(text: Seq<char>) -> usize {
    encode_utf8(text).len() as usize
}

/// The summary of a conversion printed after a successful update.
pub open spec fn summary_text(converted: ConvertedModel) -> Seq<char> {
    "mac-vendor-updater: wrote "@ + decimal(utf8_byte_length(converted.text) as nat) + " bytes\n"@
        + summary_count_lines(converted.counts)
}

/// One summary line per registry.
pub open spec fn summary_count_lines(counts: Seq<RegistryCounts>) -> Seq<char>
    decreases counts.len(),
{
    if counts.len() == 0 {
        Seq::empty()
    } else {
        summary_count_lines(counts.drop_last()) + summary_count_line(counts.last())
    }
}

/// `  <label>: <emitted> emitted (<rows> source rows, <duplicates> duplicates removed)`.
pub open spec fn summary_count_line(counts: RegistryCounts) -> Seq<char> {
    "  "@ + counts.registry.label() + ": "@ + decimal(counts.emitted as nat) + " emitted ("@
        + decimal(counts.source_rows as nat) + " source rows, "@ + decimal(
        counts.duplicates_removed as nat,
    ) + " duplicates removed)\n"@
}

/// Writes a human-readable conversion summary to `out`: the byte size of the generated text
/// and each registry's counts.
pub fn write_summary(converted: &ConvertedIeeeOui, out: &mut String)
    ensures
        final(out)@ == old(out)@ + summary_text(converted@),
{
    out.append("mac-vendor-updater: wrote ");
    let bytes = converted.text.as_str().len();
    push_decimal(out, bytes as u64);
    out.append(" bytes\n");
    let ghost head = out@;
    let ghost all = converted.counts@;
    let mut i: usize = 0;
    assert(all.take(0) =~= Seq::<RegistryCounts>::empty());
    while i < converted.counts.len()
        invariant
            i <= converted.counts.len(),
            all == converted.counts@,
            out@ == head + summary_count_lines(all.take(i as int)),
        decreases converted.counts.len() - i,
    {
        assert(all.take(i + 1).drop_last() =~= all.take(i as int));
        let counts = converted.counts[i];
        out.append("  ");
        out.append(counts.registry.csv_registry_label());
        out.append(": ");
        push_decimal(out, counts.emitted as u64);
        out.append(" emitted (");
        push_decimal(out, counts.source_rows as u64);
        out.append(" source rows, ");
        push_decimal(out, counts.duplicates_removed as u64);
        out.append(" duplicates removed)\n");
        i = i + 1;
    }
    assert(all.take(converted.counts.len() as int) =~= all);
    assert(out@ =~= old(out)@ + summary_text(converted@));
}

} // verus!
