//! Voice and text messages through WhatsApp: how uploaded audio is named,
//! which id a sent message gets, and how failures are reported.

use vstd::prelude::*;

use crate::error::ApplicationError;
use crate::media;
use crate::text;

verus! {

/// The file extension for an audio MIME type, as WhatsApp media are named.
pub open spec fn whatsapp_extension(essence: Seq<char>) -> Seq<char> {
    if essence == "audio/ogg"@ || essence == "audio/opus"@ {
        "ogg"@
    } else if essence == "audio/mpeg"@ || essence == "audio/mp3"@ {
        "mp3"@
    } else if essence == "audio/wav"@ || essence == "audio/x-wav"@ {
        "wav"@
    } else if essence == "audio/mp4"@ || essence == "audio/m4a"@ {
        "m4a"@
    } else {
        "bin"@
    }
}

fn eq_text(v: &Vec<char>, s: &str) -> (r: bool)
    ensures
        r == (v@ == s@),
{
    let t = text::string_from_chars(v.as_slice());
    text::str_eq(t.as_str(), s)
}

/// The file extension for a MIME type; parameters after `;` are ignored and
/// unknown types give `bin`.
pub fn mime_to_extension(mime_type: &str) -> (r: &'static str)
    ensures
        r@ == whatsapp_extension(media::mime_essence(mime_type@)),
{
    let base = media::essence(mime_type);
    if eq_text(&base, "audio/ogg") || eq_text(&base, "audio/opus") {
        "ogg"
    } else if eq_text(&base, "audio/mpeg") || eq_text(&base, "audio/mp3") {
        "mp3"
    } else if eq_text(&base, "audio/wav") || eq_text(&base, "audio/x-wav") {
        "wav"
    } else if eq_text(&base, "audio/mp4") || eq_text(&base, "audio/m4a") {
        "m4a"
    } else {
        "bin"
    }
}

/// The file name an audio upload gets: `audio.` and the extension of its
/// MIME type (see `mime_to_extension`).
pub fn audio_filename(mime_type: &str) -> (r: String)
    ensures
        r@ == "audio."@ + whatsapp_extension(media::mime_essence(mime_type@)),
{
    text::owned("audio.").concat(mime_to_extension(mime_type))
}

/// The id of a sent message: the first id in the reply, or an error when the
/// reply has none.
pub fn first_message_id(ids: &Vec<String>) -> (r: Result<String, ApplicationError>)
    ensures
        ids@.len() > 0 ==> r == Ok::<String, ApplicationError>(ids@[0]),
        ids@.len() == 0 ==> (r matches Err(ApplicationError::ExternalService(m)) && m@
            == "No message ID in response"@),
{
    if ids.len() > 0 {
        Ok(ids[0].clone())
    } else {
        Err(ApplicationError::ExternalService(text::owned("No message ID in response")))
    }
}

/// Failures of a media download.
#[derive(Debug, Clone, PartialEq, Eq)]
pub enum WhatsAppError {
    /// No media has this id.
    MediaNotFound(String),
    /// Any other failure, with its message.
    Other(String),
}

/// The error reported for a failed media download.
pub fn map_download_error(e: WhatsAppError) -> (r: ApplicationError)
    ensures
        match e {
            WhatsAppError::MediaNotFound(id) => r matches ApplicationError::NotFound(x) && x@
                == "Media not found: "@ + id@,
            WhatsAppError::Other(m) => r matches ApplicationError::ExternalService(x) && x@
                == "WhatsApp download failed: "@ + m@,
        },
{
    match e {
        WhatsAppError::MediaNotFound(id) => ApplicationError::NotFound(
            text::owned("Media not found: ").concat(id.as_str()),
        ),
        WhatsAppError::Other(m) => ApplicationError::ExternalService(
            text::owned("WhatsApp download failed: ").concat(m.as_str()),
        ),
    }
}

} // verus!
