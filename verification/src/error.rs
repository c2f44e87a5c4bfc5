//! Typed failures of the IEEE CSV conversion and of the registry updater.

use vstd::prelude::*;

use crate::registry::IeeeMacRegistry;
use crate::text::{decimal, push_decimal, push_signed_decimal, signed_decimal, trim, trim_str};

verus! {

/// Why IEEE registry CSVs could not be converted into `ieee-oui.txt`.
#[derive(Debug, Clone, PartialEq, Eq)]
pub enum ConvertError {
    /// The CSV header row was missing or did not match the official four columns.
    InvalidHeader {
        /// Header fields joined by commas.
        found: String,
    },
    /// A data row did not have exactly four fields.
    WrongFieldCount {
        /// Registry being converted.
        registry: IeeeMacRegistry,
        /// 1-based CSV line number.
        line_number: u64,
        /// Number of fields observed.
        field_count: usize,
    },
    /// The `Registry` column did not match the file being converted.
    RegistryMismatch {
        /// Registry being converted.
        expected: IeeeMacRegistry,
        /// Value from the `Registry` column.
        found: String,
        /// 1-based CSV line number.
        line_number: u64,
    },
    /// `Assignment` was not exactly the registry's hex width after stripping separators.
    InvalidAssignment {
        /// Registry being converted.
        registry: IeeeMacRegistry,
        /// Trimmed `Assignment` field as it appeared in the CSV (separators not stripped).
        assignment: String,
        /// 1-based CSV line number.
        line_number: u64,
    },
    /// Organization name was empty after trimming outer whitespace.
    EmptyVendor {
        /// Registry being converted.
        registry: IeeeMacRegistry,
        /// Normalized assignment that had no vendor name.
        assignment: String,
        /// 1-based CSV line number.
        line_number: u64,
    },
    /// A registry CSV contained a header but no assignment rows.
    EmptyRegistry {
        /// Registry that had no data rows.
        registry: IeeeMacRegistry,
    },
    /// The `csv` reader rejected the input.
    Csv {
        /// Registry being converted, when known.
        registry: Option<IeeeMacRegistry>,
        /// Line of the reader's position when it reported one.
        line_number: Option<u64>,
        /// Display of the reader's error.
        message: String,
    },
}

/// A [`ConvertError`] with its texts as character sequences.
pub enum ConvertErrorModel {
    InvalidHeader { found: Seq<char> },
    WrongFieldCount { registry: IeeeMacRegistry, line_number: u64, field_count: nat },
    RegistryMismatch { expected: IeeeMacRegistry, found: Seq<char>, line_number: u64 },
    InvalidAssignment { registry: IeeeMacRegistry, assignment: Seq<char>, line_number: u64 },
    EmptyVendor { registry: IeeeMacRegistry, assignment: Seq<char>, line_number: u64 },
    EmptyRegistry { registry: IeeeMacRegistry },
    Csv { registry: Option<IeeeMacRegistry>, line_number: Option<u64>, message: Seq<char> },
}

impl View for ConvertError {
    type V = ConvertErrorModel;

    open spec fn view(&self) -> ConvertErrorModel {
        match self {
            ConvertError::InvalidHeader { found } => ConvertErrorModel::InvalidHeader {
                found: found@,
            },
            ConvertError::WrongFieldCount { registry, line_number, field_count } =>
                ConvertErrorModel::WrongFieldCount {
                registry: *registry,
                line_number: *line_number,
                field_count: *field_count as nat,
            },
            ConvertError::RegistryMismatch { expected, found, line_number } =>
                ConvertErrorModel::RegistryMismatch {
                expected: *expected,
                found: found@,
                line_number: *line_number,
            },
            ConvertError::InvalidAssignment { registry, assignment, line_number } =>
                ConvertErrorModel::InvalidAssignment {
                registry: *registry,
                assignment: assignment@,
                line_number: *line_number,
            },
            ConvertError::EmptyVendor { registry, assignment, line_number } =>
                ConvertErrorModel::EmptyVendor {
                registry: *registry,
                assignment: assignment@,
                line_number: *line_number,
            },
            ConvertError::EmptyRegistry { registry } => ConvertErrorModel::EmptyRegistry {
                registry: *registry,
            },
            ConvertError::Csv { registry, line_number, message } => ConvertErrorModel::Csv {
                registry: *registry,
                line_number: *line_number,
                message: message@,
            },
        }
    }
}

/// The operator-facing text of a conversion failure.
pub open spec fn convert_error_text(error: ConvertErrorModel) -> Seq<char> {
    match error {
        ConvertErrorModel::InvalidHeader { found } =>
            "IEEE CSV header is invalid (expected Registry,Assignment,Organization Name,Organization Address); found "@
                + found,
        ConvertErrorModel::WrongFieldCount { registry, line_number, field_count } =>
            registry.label() + " CSV line "@ + decimal(line_number as nat) + " has "@ + decimal(
            field_count,
        ) + " fields; expected 4"@,
        ConvertErrorModel::RegistryMismatch { expected, found, line_number } => expected.label()
            + " CSV line "@ + decimal(line_number as nat) + " has Registry `"@ + found + "`"@,
        ConvertErrorModel::InvalidAssignment { registry, assignment, line_number } =>
            registry.label() + " CSV line "@ + decimal(line_number as nat)
            + " has invalid assignment `"@ + assignment + "` (expected "@ + decimal(
            registry.hex_width(),
        ) + " hexadecimal digits after stripping separators)"@,
        ConvertErrorModel::EmptyVendor { registry, assignment, line_number } => registry.label()
            + " CSV line "@ + decimal(line_number as nat)
            + " has empty organization name for assignment `"@ + assignment + "`"@,
        ConvertErrorModel::EmptyRegistry { registry } => registry.label()
            + " CSV contains no assignment rows"@,
        ConvertErrorModel::Csv { registry, line_number, message } => match (registry, line_number) {
            (Some(registry), Some(line)) => registry.label() + " CSV line "@ + decimal(line as nat)
                + ": "@ + message,
            (Some(registry), None) => registry.label() + " CSV: "@ + message,
            (None, Some(line)) => "IEEE CSV line "@ + decimal(line as nat) + ": "@ + message,
            (None, None) => "IEEE CSV: "@ + message,
        },
    }
}

fn push_line_prefix(text: &mut String, registry: IeeeMacRegistry, line_number: u64)
    ensures
        final(text)@ == old(text)@ + registry.label() + " CSV line "@ + decimal(line_number as nat),
{
    text.append(registry.csv_registry_label());
    text.append(" CSV line ");
    push_decimal(text, line_number);
}

impl ConvertError {
    /// The operator-facing description of the failure.
    pub fn to_display_string(&self) -> (text: String)
        ensures
            text@ == convert_error_text(self@),
    {
        let mut text = String::new();
        match self {
            ConvertError::InvalidHeader { found } => {
                text.append(
                    "IEEE CSV header is invalid (expected Registry,Assignment,Organization Name,Organization Address); found ",
                );
                text.append(found.as_str());
            },
            ConvertError::WrongFieldCount { registry, line_number, field_count } => {
                push_line_prefix(&mut text, *registry, *line_number);
                text.append(" has ");
                push_decimal(&mut text, *field_count as u64);
                text.append(" fields; expected 4");
            },
            ConvertError::RegistryMismatch { expected, found, line_number } => {
                push_line_prefix(&mut text, *expected, *line_number);
                text.append(" has Registry `");
                text.append(found.as_str());
                text.append("`");
            },
            ConvertError::InvalidAssignment { registry, assignment, line_number } => {
                push_line_prefix(&mut text, *registry, *line_number);
                text.append(" has invalid assignment `");
                text.append(assignment.as_str());
                text.append("` (expected ");
                push_decimal(&mut text, registry.assignment_hex_digit_count() as u64);
                text.append(" hexadecimal digits after stripping separators)");
            },
            ConvertError::EmptyVendor { registry, assignment, line_number } => {
                push_line_prefix(&mut text, *registry, *line_number);
                text.append(" has empty organization name for assignment `");
                text.append(assignment.as_str());
                text.append("`");
            },
            ConvertError::EmptyRegistry { registry } => {
                text.append(registry.csv_registry_label());
                text.append(" CSV contains no assignment rows");
            },
            ConvertError::Csv { registry, line_number, message } => {
                match registry {
                    Some(registry) => text.append(registry.csv_registry_label()),
                    None => text.append("IEEE"),
                }
                text.append(" CSV");
                match line_number {
                    Some(line) => {
                        text.append(" line ");
                        push_decimal(&mut text, *line);
                    },
                    None => {},
                }
                text.append(": ");
                text.append(message.as_str());
            },
        }
        proof {
            reveal_strlit("IEEE");
            reveal_strlit(" CSV");
            reveal_strlit(" CSV line ");
            reveal_strlit(" line ");
            reveal_strlit(": ");
            reveal_strlit(" CSV: ");
            reveal_strlit("IEEE CSV line ");
            reveal_strlit("IEEE CSV: ");
        }
        assert(text@ =~= convert_error_text(self@));
        text
    }
}

} // verus!
