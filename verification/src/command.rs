//! Decisions around the external `curl` and `date` programs: the arguments handed to `curl`,
//! how a failed or unusable program is reported, and how `date` output becomes a timestamp.

use vstd::prelude::*;
use vstd::utf8::{decode_utf8, valid_utf8};

use crate::text::{trim, trim_str};
use crate::updater::UpdaterError;

verus! {

/// User agent `curl` presents to the IEEE listing servers.
pub const CURL_USER_AGENT: &'static str =
    "new-arp-scan-mac-vendor-updater/0.2 (+https://github.com/Bizjak-Tech-OU/new-arp-scan)";

/// The external program a command runs.
#[derive(Debug, Clone, PartialEq, Eq)]
pub enum CommandKind {
    /// `curl` downloading one listing.
    Curl {
        /// URL being downloaded.
        url: String,
    },
    /// `date -u` printing the retrieval timestamp.
    Date,
}

/// The arguments `curl` is run with to download `url` into `output_path` over HTTPS only.
pub open spec fn curl_argument_list(url: Seq<char>, output_path: Seq<char>) -> Seq<Seq<char>> {
    seq![
        "--fail"@,
        "--location"@,
        "--silent"@,
        "--show-error"@,
        "--proto"@,
        "=https"@,
        "--tlsv1.2"@,
        "--user-agent"@,
        CURL_USER_AGENT@,
        "--output"@,
        output_path,
        url,
    ]
}

fn owned(text: &str) -> (copy: String)
    ensures
        copy@ == text@,
{
    let mut copy = String::new();
    copy.append(text);
    copy
}

/// The arguments `curl` is run with to download `url` into `output_path`.
pub fn curl_arguments(url: &str, output_path: &str) -> (arguments: Vec<String>)
    ensures
        arguments.deep_view() == curl_argument_list(url@, output_path@),
{
    let mut arguments: Vec<String> = Vec::new();
    arguments.push(owned("--fail"));
    arguments.push(owned("--location"));
    arguments.push(owned("--silent"));
    arguments.push(owned("--show-error"));
    arguments.push(owned("--proto"));
    arguments.push(owned("=https"));
    arguments.push(owned("--tlsv1.2"));
    arguments.push(owned("--user-agent"));
    arguments.push(owned(CURL_USER_AGENT));
    arguments.push(owned("--output"));
    arguments.push(owned(output_path));
    arguments.push(owned(url));
    assert(arguments.deep_view() =~= curl_argument_list(url@, output_path@));
    arguments
}

/// The failure reported when a program could not be started: a `curl` that is not found is
/// missing, any other `curl` start failure is a failed download without exit status, and any
/// `date` start failure leaves the timestamp unavailable.
pub fn spawn_failure(kind: &CommandKind, program_not_found: bool, message: String) -> (failure:
    UpdaterError)
    ensures
        match kind {
            CommandKind::Curl { url } => if program_not_found {
                failure == UpdaterError::CurlMissing
            } else {
                failure is CurlFailed && failure->CurlFailed_url@ == url@
                    && failure->CurlFailed_status is None && failure->CurlFailed_stderr@ == message@
            },
            CommandKind::Date => failure is RetrievedAtTimestampUnavailable
                && failure->RetrievedAtTimestampUnavailable_message@ == message@,
        },
{
    match kind {
        CommandKind::Curl { url } => if program_not_found {
            UpdaterError::CurlMissing
        } else {
            UpdaterError::CurlFailed { url: url.clone(), status: None, stderr: message }
        },
        CommandKind::Date => UpdaterError::RetrievedAtTimestampUnavailable { message },
    }
}

/// The failure reported when a program exited unsuccessfully, given its exit code, the
/// display of its exit status, and its standard error.
pub fn exit_failure(kind: &CommandKind, exit_code: Option<i32>, status_text: &str, stderr: &str) -> (failure:
    UpdaterError)
    ensures
        match kind {
            CommandKind::Curl { url } => failure is CurlFailed && failure->CurlFailed_url@ == url@
                && failure->CurlFailed_status == exit_code && failure->CurlFailed_stderr@
                == stderr@,
            CommandKind::Date => failure is RetrievedAtTimestampUnavailable
                && failure->RetrievedAtTimestampUnavailable_message@ == "exit status "@
                + status_text@ + "; stderr: "@ + trim(stderr@),
        },
{
    match kind {
        CommandKind::Curl { url } => UpdaterError::CurlFailed {
            url: url.clone(),
            status: exit_code,
            stderr: owned(stderr),
        },
        CommandKind::Date => {
            let mut message = String::new();
            message.append("exit status ");
            message.append(status_text);
            message.append("; stderr: ");
            let trimmed = trim_str(stderr);
            message.append(trimmed.as_str());
            UpdaterError::RetrievedAtTimestampUnavailable { message }
        },
    }
}

/// What the display of `String::from_utf8`'s error says for `bytes`.
pub uninterp spec fn utf8_error_text(bytes: Seq<u8>) -> Seq<char>;

/// Decodes UTF-8 bytes into a `String` (`String::from_utf8`).
///
/// Claims that valid UTF-8 decodes to its characters and that invalid UTF-8 is refused with
/// the error's display, which depends on the bytes alone.
#[verifier::external_body]
fn decode_utf8_bytes(bytes: Vec<u8>) -> (text: Result<String, String>)
    ensures
        match text {
            Ok(text) => valid_utf8(bytes@) && text@ == decode_utf8(bytes@),
            Err(message) => !valid_utf8(bytes@) && message@ == utf8_error_text(bytes@),
        },
{
    String::from_utf8(bytes).map_err(|error| error.to_string())
}

/// The retrieval timestamp `date` printed: its standard output decoded as UTF-8 and trimmed,
/// or the reason there is none.
pub open spec fn timestamp_from_output(stdout: Seq<u8>) -> Result<Seq<char>, Seq<char>> {
    if !valid_utf8(stdout) {
        Err(utf8_error_text(stdout))
    } else if trim(decode_utf8(stdout)).len() == 0 {
        Err("date printed an empty timestamp"@)
    } else {
        Ok(trim(decode_utf8(stdout)))
    }
}

/// Turns the standard output of `date -u +%Y-%m-%dT%H:%M:%SZ` into the retrieval timestamp.
pub fn timestamp_from_date_output(stdout: Vec<u8>) -> (timestamp: Result<String, UpdaterError>)
    ensures
        match timestamp {
            Ok(stamp) => timestamp_from_output(stdout@) == Ok::<_, Seq<char>>(stamp@),
            Err(failure) => failure is RetrievedAtTimestampUnavailable && timestamp_from_output(
                stdout@,
            ) == Err::<Seq<char>, _>(failure->RetrievedAtTimestampUnavailable_message@),
        },
{
    let ghost bytes = stdout@;
    let decoded = match decode_utf8_bytes(stdout) {
        Ok(text) => text,
        Err(message) => {
            return Err(UpdaterError::RetrievedAtTimestampUnavailable { message });
        },
    };
    let trimmed = trim_str(decoded.as_str());
    if trimmed.as_str().is_empty() {
        return Err(
            UpdaterError::RetrievedAtTimestampUnavailable {
                message: owned("date printed an empty timestamp"),
            },
        );
    }
    Ok(trimmed)
}

} // verus!
