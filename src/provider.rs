//! Selection of a generation back-end by its string identifier.
use vstd::prelude::*;
use crate::text::{contains_seq, is_blank, is_blank_str, lowercase_of, owned, push_str, str_contains, str_eq, to_lowercase};

verus! {

/// A back-end that generates text (and, for some, reads images).
#[derive(Debug, Clone, Copy, PartialEq, Eq, Structural)]
pub enum TextProvider {
    OpenAi,
    Anthropic,
    Google,
}

/// A back-end that renders images.
#[derive(Debug, Clone, Copy, PartialEq, Eq, Structural)]
pub enum ImageProvider {
    OpenAi,
    Google,
}

/// The text provider for an identifier: `anthropic` and `google` name
/// theirs; anything else, or none, selects OpenAI.
pub open spec fn text_provider_for(id: Option<Seq<char>>) -> TextProvider {
    match id {
        Some(s) => if s == "anthropic"@ {
            TextProvider::Anthropic
        } else if s == "google"@ {
            TextProvider::Google
        } else {
            TextProvider::OpenAi
        },
        None => TextProvider::OpenAi,
    }
}

/// The image provider for an identifier: `openai` selects OpenAI; anything
/// else, or none, selects Google.
pub open spec fn image_provider_for(id: Option<Seq<char>>) -> ImageProvider {
    match id {
        Some(s) => if s == "openai"@ {
            ImageProvider::OpenAi
        } else {
            ImageProvider::Google
        },
        None => ImageProvider::Google,
    }
}

/// The provider that reads an image: `openai` and `anthropic` name theirs;
/// anything else selects Google.
pub open spec fn vision_provider_for(id: Seq<char>) -> TextProvider {
    if id == "openai"@ {
        TextProvider::OpenAi
    } else if id == "anthropic"@ {
        TextProvider::Anthropic
    } else {
        TextProvider::Google
    }
}

/// The view of an optional identifier.
pub open spec fn opt_view(id: Option<String>) -> Option<Seq<char>> {
    match id {
        Some(s) => Some(s@),
        None => None,
    }
}

/// Selects the text provider named by `id`.
pub fn text_provider(id: &Option<String>) -> (r: TextProvider)
    ensures
        r == text_provider_for(opt_view(*id)),
{
    match id {
        Some(s) => if str_eq(s.as_str(), "anthropic") {
            TextProvider::Anthropic
        } else if str_eq(s.as_str(), "google") {
            TextProvider::Google
        } else {
            TextProvider::OpenAi
        },
        None => TextProvider::OpenAi,
    }
}

/// Selects the image provider named by `id`.
pub fn image_provider(id: &Option<String>) -> (r: ImageProvider)
    ensures
        r == image_provider_for(opt_view(*id)),
{
    match id {
        Some(s) => if str_eq(s.as_str(), "openai") {
            ImageProvider::OpenAi
        } else {
            ImageProvider::Google
        },
        None => ImageProvider::Google,
    }
}

/// Selects the provider that reads an image.
pub fn vision_provider(id: &str) -> (r: TextProvider)
    ensures
        r == vision_provider_for(id@),
{
    if str_eq(id, "openai") {
        TextProvider::OpenAi
    } else if str_eq(id, "anthropic") {
        TextProvider::Anthropic
    } else {
        TextProvider::Google
    }
}

// ---------------------------------------------------------------------------
// Credential checks
// ---------------------------------------------------------------------------

/// The message for a blank credential.
pub const EMPTY_KEY: &'static str = "API 키가 비어있습니다.";

/// The prompt sent to check a credential.
pub const KEY_CHECK_PROMPT: &'static str = "Say 'ok' if you can hear me.";

/// Checks that a credential to be validated is not blank.
pub fn check_key_present(api_key: &str) -> (r: Result<(), String>)
    ensures
        r is Err <==> is_blank(api_key@),
        r matches Err(m) ==> m@ == EMPTY_KEY@,
{
    if is_blank_str(api_key) {
        Err(owned(EMPTY_KEY))
    } else {
        Ok(())
    }
}

/// The advice for an OpenAI failure, given its lower-cased text `low`.
pub open spec fn openai_key_advice(low: Seq<char>, error: Seq<char>) -> Seq<char> {
    if contains_seq(low, "invalid_api_key"@) || contains_seq(low, "401"@) {
        "API 키가 올바르지 않습니다. OpenAI 대시보드에서 키를 확인해주세요."@
    } else if contains_seq(low, "insufficient_quota"@) || contains_seq(low, "429"@) {
        "API 사용량 한도를 초과했거나 크레딧이 부족합니다. OpenAI 결제 설정을 확인해주세요."@
    } else if contains_seq(low, "rate_limit"@) {
        "요청 속도 제한에 걸렸습니다. 잠시 후 다시 시도해주세요."@
    } else if contains_seq(low, "model_not_found"@) {
        "모델을 찾을 수 없습니다. API 키의 접근 권한을 확인해주세요."@
    } else {
        "OpenAI API 검증 실패: "@ + error
    }
}

/// The advice for an Anthropic failure, given its lower-cased text `low`.
pub open spec fn anthropic_key_advice(low: Seq<char>, error: Seq<char>) -> Seq<char> {
    if contains_seq(low, "authentication"@) || contains_seq(low, "401"@) || contains_seq(
        low,
        "invalid"@,
    ) {
        "API 키가 올바르지 않습니다. Anthropic Console에서 키를 확인해주세요."@
    } else if contains_seq(low, "rate_limit"@) || contains_seq(low, "429"@) {
        "요청 속도 제한에 걸렸습니다. 잠시 후 다시 시도해주세요."@
    } else if contains_seq(low, "overloaded"@) || contains_seq(low, "529"@) {
        "Anthropic 서버가 과부하 상태입니다. 잠시 후 다시 시도해주세요."@
    } else if contains_seq(low, "credit"@) || contains_seq(low, "billing"@) {
        "크레딧이 부족합니다. Anthropic Console에서 결제 설정을 확인해주세요."@
    } else {
        "Anthropic API 검증 실패: "@ + error
    }
}

/// The advice for a Google failure, given its lower-cased text `low`.
pub open spec fn google_key_advice(low: Seq<char>, error: Seq<char>) -> Seq<char> {
    if contains_seq(low, "api_key_invalid"@) || contains_seq(low, "invalid api key"@)
        || contains_seq(low, "api key not valid"@) {
        "API 키가 올바르지 않습니다. Google AI Studio(aistudio.google.com)에서 키를 생성해주세요."@
    } else if contains_seq(low, "permission_denied"@) || contains_seq(low, "403"@) {
        "API 키 권한 오류입니다. Google AI Studio(aistudio.google.com)에서 새 API 키를 생성해주세요.\n\n상세: "@
            + error
    } else if contains_seq(low, "quota"@) || contains_seq(low, "rate"@) || contains_seq(
        low,
        "429"@,
    ) {
        "API 사용량 한도를 초과했습니다. 잠시 후 다시 시도해주세요."@
    } else if contains_seq(low, "not found"@) || contains_seq(low, "404"@) {
        "Gemini API를 찾을 수 없습니다. API가 활성화되어 있는지 확인해주세요."@
    } else if contains_seq(low, "billing"@) {
        "결제 설정이 필요합니다. Google Cloud Console에서 결제를 활성화해주세요."@
    } else {
        "Google API 검증 실패: "@ + error
    }
}

/// The advice for a failed credential check of `provider`.
pub open spec fn key_advice(provider: TextProvider, low: Seq<char>, error: Seq<char>) -> Seq<char> {
    match provider {
        TextProvider::OpenAi => openai_key_advice(low, error),
        TextProvider::Anthropic => anthropic_key_advice(low, error),
        TextProvider::Google => google_key_advice(low, error),
    }
}

fn with_detail(head: &str, error: &str) -> (r: String)
    ensures
        r@ == head@ + error@,
{
    let mut r = owned(head);
    push_str(&mut r, error);
    r
}

/// Chooses the advice for a failed credential check from the lower-cased
/// failure text `low` and the failure text `error`.
pub fn classify_key_error(provider: TextProvider, low: &str, error: &str) -> (r: String)
    ensures
        r@ == key_advice(provider, low@, error@),
{
    match provider {
        TextProvider::OpenAi => if str_contains(low, "invalid_api_key") || str_contains(low, "401") {
            owned("API 키가 올바르지 않습니다. OpenAI 대시보드에서 키를 확인해주세요.")
        } else if str_contains(low, "insufficient_quota") || str_contains(low, "429") {
            owned("API 사용량 한도를 초과했거나 크레딧이 부족합니다. OpenAI 결제 설정을 확인해주세요.")
        } else if str_contains(low, "rate_limit") {
            owned("요청 속도 제한에 걸렸습니다. 잠시 후 다시 시도해주세요.")
        } else if str_contains(low, "model_not_found") {
            owned("모델을 찾을 수 없습니다. API 키의 접근 권한을 확인해주세요.")
        } else {
            with_detail("OpenAI API 검증 실패: ", error)
        },
        TextProvider::Anthropic => if str_contains(low, "authentication") || str_contains(low, "401")
            || str_contains(low, "invalid") {
            owned("API 키가 올바르지 않습니다. Anthropic Console에서 키를 확인해주세요.")
        } else if str_contains(low, "rate_limit") || str_contains(low, "429") {
            owned("요청 속도 제한에 걸렸습니다. 잠시 후 다시 시도해주세요.")
        } else if str_contains(low, "overloaded") || str_contains(low, "529") {
            owned("Anthropic 서버가 과부하 상태입니다. 잠시 후 다시 시도해주세요.")
        } else if str_contains(low, "credit") || str_contains(low, "billing") {
            owned("크레딧이 부족합니다. Anthropic Console에서 결제 설정을 확인해주세요.")
        } else {
            with_detail("Anthropic API 검증 실패: ", error)
        },
        TextProvider::Google => if str_contains(low, "api_key_invalid") || str_contains(
            low,
            "invalid api key",
        ) || str_contains(low, "api key not valid") {
            owned("API 키가 올바르지 않습니다. Google AI Studio(aistudio.google.com)에서 키를 생성해주세요.")
        } else if str_contains(low, "permission_denied") || str_contains(low, "403") {
            with_detail(
                "API 키 권한 오류입니다. Google AI Studio(aistudio.google.com)에서 새 API 키를 생성해주세요.\n\n상세: ",
                error,
            )
        } else if str_contains(low, "quota") || str_contains(low, "rate") || str_contains(low, "429") {
            owned("API 사용량 한도를 초과했습니다. 잠시 후 다시 시도해주세요.")
        } else if str_contains(low, "not found") || str_contains(low, "404") {
            owned("Gemini API를 찾을 수 없습니다. API가 활성화되어 있는지 확인해주세요.")
        } else if str_contains(low, "billing") {
            owned("결제 설정이 필요합니다. Google Cloud Console에서 결제를 활성화해주세요.")
        } else {
            with_detail("Google API 검증 실패: ", error)
        },
    }
}

/// The advice for a failed credential check of `provider`, from the text of
/// the failure.
pub fn key_error_message(provider: TextProvider, error: &str) -> (r: String)
    ensures
        r@ == key_advice(provider, lowercase_of(error@), error@),
{
    let low = to_lowercase(error);
    classify_key_error(provider, low.as_str(), error)
}

// ---------------------------------------------------------------------------
// Google image models
// ---------------------------------------------------------------------------

/// How a Google image model is reached.
#[derive(Debug, Clone, PartialEq)]
pub enum GoogleImageRoute {
    /// The Imagen prediction endpoint of the named model.
    Imagen(String),
    /// The legacy native image output of Gemini 2.0 Flash.
    GeminiNative,
}

/// The Imagen models that are called by their own name.
pub open spec fn is_imagen_model(model: Seq<char>) -> bool {
    model == "imagen-4.0-generate-001"@ || model == "imagen-4.0-ultra-generate-001"@ || model
        == "imagen-4.0-fast-generate-001"@ || model == "imagen-3.0-generate-002"@
}

/// Routes a Google image model: named Imagen models are called as they
/// are, `gemini-2.0-flash-exp` uses native output, and every other name
/// falls back to Imagen 4.
pub fn google_image_route(model: &str) -> (r: GoogleImageRoute)
    ensures
        is_imagen_model(model@) ==> (r matches GoogleImageRoute::Imagen(m) && m@ == model@),
        model@ == "gemini-2.0-flash-exp"@ ==> r is GeminiNative,
        !is_imagen_model(model@) && model@ != "gemini-2.0-flash-exp"@ ==> (r matches GoogleImageRoute::Imagen(
            m,
        ) && m@ == "imagen-4.0-generate-001"@),
{
    proof {
        reveal_strlit("gemini-2.0-flash-exp");
        reveal_strlit("imagen-4.0-generate-001");
        reveal_strlit("imagen-4.0-ultra-generate-001");
        reveal_strlit("imagen-4.0-fast-generate-001");
        reveal_strlit("imagen-3.0-generate-002");
        assert("gemini-2.0-flash-exp"@[0] != "imagen-4.0-generate-001"@[0]);
    }
    if str_eq(model, "imagen-4.0-generate-001") || str_eq(model, "imagen-4.0-ultra-generate-001")
        || str_eq(model, "imagen-4.0-fast-generate-001") || str_eq(model, "imagen-3.0-generate-002") {
        GoogleImageRoute::Imagen(owned(model))
    } else if str_eq(model, "gemini-2.0-flash-exp") {
        GoogleImageRoute::GeminiNative
    } else {
        GoogleImageRoute::Imagen(owned("imagen-4.0-generate-001"))
    }
}

/// The message for a failed Imagen call, from the response body.
pub open spec fn imagen_failure_text(
    body: Seq<char>,
    status: Seq<char>,
    model: Seq<char>,
    ratio: Seq<char>,
) -> Seq<char> {
    if contains_seq(body, "not found"@) || contains_seq(body, "NOT_FOUND"@) {
        model + " 모델을 사용할 수 없습니다. Google AI Studio에서 Imagen API 액세스가 활성화되어 있는지 확인해주세요."@
    } else if contains_seq(body, "PERMISSION_DENIED"@) || contains_seq(body, "permission"@) {
        model + " 권한이 없습니다. API 키에 Imagen API 권한이 있는지 확인해주세요."@
    } else if contains_seq(body, "INVALID_ARGUMENT"@) {
        "잘못된 요청입니다. aspectRatio("@ + ratio
            + ")가 지원되는 값인지 확인해주세요. 지원 값: 1:1, 3:4, 4:3, 9:16, 16:9"@
    } else {
        "Imagen API 오류 ("@ + status + "): "@ + body
    }
}

/// Explains a failed Imagen call.
pub fn imagen_error_message(body: &str, status: &str, model: &str, ratio: &str) -> (r: String)
    ensures
        r@ == imagen_failure_text(body@, status@, model@, ratio@),
{
    if str_contains(body, "not found") || str_contains(body, "NOT_FOUND") {
        with_detail(model, " 모델을 사용할 수 없습니다. Google AI Studio에서 Imagen API 액세스가 활성화되어 있는지 확인해주세요.")
    } else if str_contains(body, "PERMISSION_DENIED") || str_contains(body, "permission") {
        with_detail(model, " 권한이 없습니다. API 키에 Imagen API 권한이 있는지 확인해주세요.")
    } else if str_contains(body, "INVALID_ARGUMENT") {
        let mut r = owned("잘못된 요청입니다. aspectRatio(");
        push_str(&mut r, ratio);
        push_str(&mut r, ")가 지원되는 값인지 확인해주세요. 지원 값: 1:1, 3:4, 4:3, 9:16, 16:9");
        r
    } else {
        let mut r = owned("Imagen API 오류 (");
        push_str(&mut r, status);
        push_str(&mut r, "): ");
        push_str(&mut r, body);
        r
    }
}

/// A data URI of base64 data with its media type.
pub fn data_uri(mime_type: &str, data: &str) -> (r: String)
    ensures
        r@ == "data:"@ + mime_type@ + ";base64,"@ + data@,
{
    let mut r = owned("data:");
    push_str(&mut r, mime_type);
    push_str(&mut r, ";base64,");
    push_str(&mut r, data);
    r
}

} // verus!

