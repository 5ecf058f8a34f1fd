//! File naming for voice messages exchanged through Signal.

use vstd::prelude::*;

use crate::error::ApplicationError;
use crate::media;
use crate::text;

verus! {

/// The file extension for an audio MIME type, as Signal attachments are named.
pub open spec fn signal_extension(essence: Seq<char>) -> Seq<char> {
    if essence == "audio/ogg"@ || essence == "audio/opus"@ {
        "ogg"@
    } else if essence == "audio/mpeg"@ || essence == "audio/mp3"@ {
        "mp3"@
    } else if essence == "audio/wav"@ || essence == "audio/x-wav"@ {
        "wav"@
    } else if essence == "audio/mp4"@ || essence == "audio/m4a"@ || essence == "audio/aac"@ {
        "m4a"@
    } else {
        "bin"@
    }
}

/// The MIME type for a file extension (compared case-insensitively).
pub open spec fn mime_for_extension(lower: Seq<char>) -> Seq<char> {
    if lower == "ogg"@ || lower == "opus"@ {
        "audio/ogg"@
    } else if lower == "mp3"@ {
        "audio/mpeg"@
    } else if lower == "wav"@ {
        "audio/wav"@
    } else if lower == "m4a"@ || lower == "aac"@ {
        "audio/mp4"@
    } else {
        "application/octet-stream"@
    }
}

fn eq_text(v: &Vec<char>, s: &str) -> (r: bool)
    ensures
        r == (v@ == s@),
{
    let t = text::string_from_chars(v.as_slice());
    text::str_eq(t.as_str(), s)
}

/// The file extension for a MIME type; parameters after `;` are ignored and
/// unknown types give `bin`.
pub fn mime_to_extension(mime_type: &str) -> (r: &'static str)
    ensures
        r@ == signal_extension(media::mime_essence(mime_type@)),
{
    let base = media::essence(mime_type);
    if eq_text(&base, "audio/ogg") || eq_text(&base, "audio/opus") {
        "ogg"
    } else if eq_text(&base, "audio/mpeg") || eq_text(&base, "audio/mp3") {
        "mp3"
    } else if eq_text(&base, "audio/wav") || eq_text(&base, "audio/x-wav") {
        "wav"
    } else if eq_text(&base, "audio/mp4") || eq_text(&base, "audio/m4a") || eq_text(&base, "audio/aac") {
        "m4a"
    } else {
        "bin"
    }
}

/// The MIME type for a file extension, ignoring case; unknown extensions give
/// `application/octet-stream`.
pub fn extension_to_mime(ext: &str) -> (r: &'static str)
    ensures
        r@ == mime_for_extension(text::unicode_lowercase(ext@)),
        text::all_ascii(ext@) ==> r@ == mime_for_extension(
            ext@.map_values(|c: char| text::ascii_lower_char(c)),
        ),
{
    let lower = text::to_lowercase(ext);
    let l = lower.as_str();
    if text::str_eq(l, "ogg") || text::str_eq(l, "opus") {
        "audio/ogg"
    } else if text::str_eq(l, "mp3") {
        "audio/mpeg"
    } else if text::str_eq(l, "wav") {
        "audio/wav"
    } else if text::str_eq(l, "m4a") || text::str_eq(l, "aac") {
        "audio/mp4"
    } else {
        "application/octet-stream"
    }
}

/// The MIME types Signal attachments are given.
pub open spec fn attachment_mime_type(m: Seq<char>) -> bool {
    ||| m == "audio/ogg"@
    ||| m == "audio/mpeg"@
    ||| m == "audio/wav"@
    ||| m == "audio/mp4"@
    ||| m == "application/octet-stream"@
}

/// Naming a file by the MIME type's extension and reading the type back from
/// the extension gives the type again: the extension is ASCII, so
/// `extension_to_mime` lowercases it as ASCII.
pub proof fn lemma_mime_extension_round_trip(m: Seq<char>)
    requires
        attachment_mime_type(m),
    ensures
        text::all_ascii(signal_extension(media::mime_essence(m))),
        mime_for_extension(
            signal_extension(media::mime_essence(m)).map_values(|c: char| text::ascii_lower_char(c)),
        ) == m,
{
    reveal_strlit("audio/ogg");
    reveal_strlit("audio/opus");
    reveal_strlit("audio/mpeg");
    reveal_strlit("audio/mp3");
    reveal_strlit("audio/wav");
    reveal_strlit("audio/x-wav");
    reveal_strlit("audio/mp4");
    reveal_strlit("audio/m4a");
    reveal_strlit("audio/aac");
    reveal_strlit("application/octet-stream");
    reveal_strlit("ogg");
    reveal_strlit("opus");
    reveal_strlit("mp3");
    reveal_strlit("wav");
    reveal_strlit("m4a");
    reveal_strlit("aac");
    reveal_strlit("bin");
    assert forall|j: int| 0 <= j < m.len() implies #[trigger] m[j] != ';' && !text::is_whitespace(
        m[j],
    ) by {}
    media::lemma_plain_essence(m);
    let e = signal_extension(m);
    let l = e.map_values(|c: char| text::ascii_lower_char(c));
    assert(l =~= e);
    // Characters that tell the literals apart.
    assert("audio/ogg"@[6] == 'o' && "audio/opus"@[7] == 'p' && "audio/ogg"@[7] == 'g');
    assert("audio/mpeg"@[7] == 'p' && "audio/mp3"@[8] == '3' && "audio/mpeg"@[8] == 'e');
    assert("audio/wav"@[6] == 'w' && "audio/x-wav"@[6] == 'x');
    assert("audio/mp4"@[8] == '4' && "audio/m4a"@[7] == '4' && "audio/aac"@[6] == 'a');
    assert("application/octet-stream"@[1] == 'p' && "audio/ogg"@[1] == 'u');
    assert("ogg"@[0] == 'o' && "opus"@[1] == 'p' && "ogg"@[1] == 'g' && "mp3"@[0] == 'm');
    assert("wav"@[0] == 'w' && "m4a"@[1] == '4' && "aac"@[0] == 'a' && "bin"@[0] == 'b');
    if m == "audio/ogg"@ {
        assert(e == "ogg"@);
    } else if m == "audio/mpeg"@ {
        assert(m[6] == 'm');
        assert(e == "mp3"@);
    } else if m == "audio/wav"@ {
        assert(m[6] == 'w');
        assert(e == "wav"@);
    } else if m == "audio/mp4"@ {
        assert(m[6] == 'm' && m[8] == '4' && m[7] == 'p');
        assert(e == "m4a"@);
    } else {
        assert(m[1] == 'p');
        assert(e == "bin"@);
    }
}

// ------------------------------------------------------------------
// Sending
// ------------------------------------------------------------------

/// What `str::parse::<i64>` gives for a text, if it is a number.
pub uninterp spec fn parsed_i64(s: Seq<char>) -> Option<i64>;

/// Parses a decimal integer with `str::parse::<i64>`.
///
/// Claimed: the result depends on the characters of the text alone.
#[verifier::external_body]
fn parse_i64(s: &str) -> (r: Option<i64>)
    ensures
        r == parsed_i64(s@),
{
    s.parse::<i64>().ok()
}

/// The message a reply refers to: Signal names messages by their timestamps,
/// so a reply target that is no number is ignored and the text is sent as a
/// plain message.
pub fn reply_timestamp(reply_to: Option<&str>) -> (r: Option<i64>)
    ensures
        r == match reply_to {
            Some(t) => parsed_i64(t@),
            None => None,
        },
{
    match reply_to {
        Some(t) => parse_i64(t),
        None => None,
    }
}

/// The id of a sent message: the decimal text of its timestamp.
pub fn sent_message_id(timestamp: i64) -> (id: String)
    ensures
        id@ == text::signed_decimal(timestamp as int),
{
    text::signed_decimal_text(timestamp)
}

/// Failures of the Signal client.
#[derive(Debug, Clone, PartialEq, Eq)]
pub enum SignalError {
    /// The account is not registered with Signal.
    NotRegistered(String),
    /// Sending failed.
    SendFailed(String),
    /// The daemon could not be reached.
    Connection(String),
    /// Any other failure, with its message.
    Other(String),
}

/// The error reported to the application for a failed send.
pub fn map_send_error(e: SignalError) -> (r: ApplicationError)
    ensures
        match e {
            SignalError::NotRegistered(a) => r matches ApplicationError::Configuration(x) && x@
                == "Signal account not registered: "@ + a@,
            SignalError::SendFailed(m) => r matches ApplicationError::ExternalService(x) && x@
                == "Signal send failed: "@ + m@,
            SignalError::Connection(m) => r matches ApplicationError::ExternalService(x) && x@
                == "Signal connection failed: "@ + m@,
            SignalError::Other(m) => r matches ApplicationError::ExternalService(x) && x@
                == "Signal error: "@ + m@,
        },
{
    match e {
        SignalError::NotRegistered(a) => ApplicationError::Configuration(
            text::owned("Signal account not registered: ").concat(a.as_str()),
        ),
        SignalError::SendFailed(m) => ApplicationError::ExternalService(
            text::owned("Signal send failed: ").concat(m.as_str()),
        ),
        SignalError::Connection(m) => ApplicationError::ExternalService(
            text::owned("Signal connection failed: ").concat(m.as_str()),
        ),
        SignalError::Other(m) => ApplicationError::ExternalService(
            text::owned("Signal error: ").concat(m.as_str()),
        ),
    }
}

/// The timestamp a read receipt refers to: the message id read as a decimal
/// integer, or an error naming the id when it is not one.
pub fn read_receipt_timestamp(message_id: &str) -> (r: Result<i64, ApplicationError>)
    ensures
        match parsed_i64(message_id@) {
            Some(t) => r == Ok::<i64, ApplicationError>(t),
            None => r matches Err(ApplicationError::InvalidOperation(m)) && m@
                == "Invalid Signal message ID: "@ + message_id@,
        },
{
    match parse_i64(message_id) {
        Some(t) => Ok(t),
        None => Err(
            ApplicationError::InvalidOperation(
                text::owned("Invalid Signal message ID: ").concat(message_id),
            ),
        ),
    }
}

/// The error for an attachment that is not stored.
pub fn attachment_not_found(media_id: &str) -> (e: ApplicationError)
    ensures
        e matches ApplicationError::NotFound(m) && m@ == "Signal attachment not found: "@ + media_id@,
{
    ApplicationError::NotFound(text::owned("Signal attachment not found: ").concat(media_id))
}

/// The MIME type of a stored attachment by its file extension, if it has one
/// (see `extension_to_mime`).
pub fn attachment_mime(extension: Option<&str>) -> (r: &'static str)
    ensures
        r@ == match extension {
            Some(e) => mime_for_extension(text::unicode_lowercase(e@)),
            None => "application/octet-stream"@,
        },
{
    match extension {
        Some(e) => extension_to_mime(e),
        None => "application/octet-stream",
    }
}

} // verus!
