//! Player skins: the skin service's endpoints, how its answers are read, and
//! which skin models a player may choose.

use vstd::prelude::*;

use crate::json::{bool_member, json_body_bool_members, json_bool_members, json_error_text, parse_json};
use crate::text::joined;
use crate::web::{law_success_statuses, decode_error_message, decode_error_text, is_success_status, status_is_success};

verus! {

/// The skin service used where none is configured.
pub const DEFAULT_SKIN_API_URL: &'static str = "http://localhost:3228";

/// Seconds allowed for a skin upload.
pub const UPLOAD_TIMEOUT_SECS: u64 = 30;

/// Seconds allowed for the other requests to the skin service.
pub const QUERY_TIMEOUT_SECS: u64 = 10;

/// The multipart field that carries an uploaded skin.
pub const SKIN_FORM_FIELD: &'static str = "skin";

/// The file name under which a skin is uploaded.
pub const SKIN_FILE_NAME: &'static str = "skin.png";

/// The media type of an uploaded skin.
pub const SKIN_MEDIA_TYPE: &'static str = "image/png";

/// The member of the service's answer that tells whether a custom skin is set.
pub const HAS_CUSTOM_SKIN_KEY: &'static str = "hasCustomSkin";

/// The error given when the service's answer lacks a boolean `hasCustomSkin`.
pub const INVALID_RESPONSE_FORMAT: &'static str = "Invalid response format";

/// The error given for a skin model other than `default` and `slim`.
pub const INVALID_SKIN_MODEL: &'static str = "Modèle invalide. Utilisez 'default' ou 'slim'";

/// The skin service to talk to: the configured one, or the default.
pub fn skin_api_base(configured: Option<String>) -> (base: String)
    ensures
        base@ == match configured {
            Some(c) => c@,
            None => DEFAULT_SKIN_API_URL@,
        },
{
    match configured {
        Some(c) => c,
        None => DEFAULT_SKIN_API_URL.to_owned(),
    }
}

/// The endpoint to which a user's skin is uploaded:
/// `{base}/api/upload-skin/{discord_id}`.
pub fn upload_skin_url(base: &str, discord_id: &str) -> (url: String)
    ensures
        url@ == base@ + "/api/upload-skin/"@ + discord_id@,
{
    let mut url = joined(base, "/api/upload-skin/");
    url.append(discord_id);
    url
}

/// The endpoint that describes, or removes, a user's skin:
/// `{base}/api/skin/{discord_id}`.
pub fn skin_url(base: &str, discord_id: &str) -> (url: String)
    ensures
        url@ == base@ + "/api/skin/"@ + discord_id@,
{
    let mut url = joined(base, "/api/skin/");
    url.append(discord_id);
    url
}

/// Decides on the status of an answer of the skin service: a success status
/// is accepted; any other status is the error `API Error: {detail}`, where
/// the caller gives as detail the answer's text or its status.
pub fn check_api_status(status: u16, detail: &str) -> (r: Result<(), String>)
    ensures
        r is Ok <==> is_success_status(status),
        r matches Err(m) ==> m@ == "API Error: "@ + detail@,
{
    if status_is_success(status) {
        Ok(())
    } else {
        Err(joined("API Error: ", detail))
    }
}

/// Reads whether a user has a custom skin from the service's parsed answer:
/// its boolean member `hasCustomSkin`, or the error that the answer is not
/// in the expected format.
fn custom_skin_flag(answer: &serde_json::Value) -> (r: Result<bool, String>)
    ensures
        r is Ok <==> json_bool_members(*answer).contains_key(HAS_CUSTOM_SKIN_KEY@),
        r matches Ok(b) ==> b == json_bool_members(*answer)[HAS_CUSTOM_SKIN_KEY@],
        r matches Err(m) ==> m@ == INVALID_RESPONSE_FORMAT@,
{
    match bool_member(answer, HAS_CUSTOM_SKIN_KEY) {
        Some(b) => Ok(b),
        None => Err(INVALID_RESPONSE_FORMAT.to_owned()),
    }
}

/// What the skin service's answer to "has this user a custom skin?" means,
/// from its status code, the status in text and its body: an error for a
/// failure status; for a success, the error in decoding a body that is not
/// JSON, else the boolean member `hasCustomSkin`, else the error that the
/// answer is not in the expected format.
pub open spec fn custom_skin_answer(status: u16, status_text: Seq<char>, body: Seq<u8>) -> Result<bool, Seq<char>> {
    if !is_success_status(status) {
        Err("API Error: "@ + status_text)
    } else {
        match json_body_bool_members(body) {
            None => Err(decode_error_text(json_error_text(body))),
            Some(members) => if members.contains_key(HAS_CUSTOM_SKIN_KEY@) {
                Ok(members[HAS_CUSTOM_SKIN_KEY@])
            } else {
                Err(INVALID_RESPONSE_FORMAT@)
            },
        }
    }
}

/// Reads the skin service's answer to "has this user a custom skin?" from
/// its status code, the status in text and its body.
pub fn has_custom_skin_answer(status: u16, status_text: &str, body: &[u8]) -> (r: Result<bool, String>)
    ensures
        match r {
            Ok(b) => custom_skin_answer(status, status_text@, body@) == Ok::<bool, Seq<char>>(b),
            Err(m) => custom_skin_answer(status, status_text@, body@) == Err::<bool, Seq<char>>(m@),
        },
{
    check_api_status(status, status_text)?;
    match parse_json(body) {
        Ok(answer) => custom_skin_flag(&answer),
        Err(cause) => Err(decode_error_message(cause.as_str())),
    }
}

/// The skin models that a player may choose.
pub open spec fn is_skin_model(model: Seq<char>) -> bool {
    model == "default"@ || model == "slim"@
}

/// Accepts the skin models `default` and `slim`, and refuses any other with
/// the error that the model is invalid.
pub fn validate_skin_model(model: &str) -> (r: Result<(), String>)
    ensures
        r is Ok <==> is_skin_model(model@),
        r matches Err(m) ==> m@ == INVALID_SKIN_MODEL@,
{
    let given = model.to_owned();
    if given == "default".to_owned() || given == "slim".to_owned() {
        Ok(())
    } else {
        Err(INVALID_SKIN_MODEL.to_owned())
    }
}

/// What the answer to "has this user a custom skin?" means: a failure status
/// is `API Error: ` and the status text; a success whose body is not JSON is
/// reqwest's decoding error; otherwise the boolean `hasCustomSkin` where the
/// document has one, else `Invalid response format`.
pub proof fn law_custom_skin_answer(status: u16, status_text: Seq<char>, body: Seq<u8>)
    ensures
        !(200 <= status && status < 300) ==> custom_skin_answer(status, status_text, body)
            == Err::<bool, Seq<char>>("API Error: "@ + status_text),
        (200 <= status && status < 300) && json_body_bool_members(body) is None
            ==> custom_skin_answer(status, status_text, body)
            == Err::<bool, Seq<char>>("error decoding response body: "@ + json_error_text(body)),
        (200 <= status && status < 300) ==> (json_body_bool_members(body) matches Some(m)
            ==> custom_skin_answer(status, status_text, body) == (if m.contains_key("hasCustomSkin"@) {
                Ok::<bool, Seq<char>>(m["hasCustomSkin"@])
            } else {
                Err::<bool, Seq<char>>("Invalid response format"@)
            })),
{
    law_success_statuses(status, json_error_text(body));
}

/// The only skin models are `default` and `slim`.
pub proof fn law_skin_models(model: Seq<char>)
    ensures
        is_skin_model(model) <==> (model == "default"@ || model == "slim"@),
        INVALID_SKIN_MODEL@ == "Modèle invalide. Utilisez 'default' ou 'slim'"@,
{
}

/// The skin service's default address, its endpoints' shape and its limits.
pub proof fn law_skin_service_constants()
    ensures
        DEFAULT_SKIN_API_URL@ == "http://localhost:3228"@,
        UPLOAD_TIMEOUT_SECS == 30,
        QUERY_TIMEOUT_SECS == 10,
        SKIN_FORM_FIELD@ == "skin"@,
        SKIN_FILE_NAME@ == "skin.png"@,
        SKIN_MEDIA_TYPE@ == "image/png"@,
        HAS_CUSTOM_SKIN_KEY@ == "hasCustomSkin"@,
        INVALID_RESPONSE_FORMAT@ == "Invalid response format"@,
{
}

} // verus!
