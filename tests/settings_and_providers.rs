use moms_insta::error::AppError;
use moms_insta::keyword::suggest_keywords;
use moms_insta::models::{ApiKeys, ApiSelection, ImagePrompt, ImageSizePreset};
use moms_insta::provider::{
    check_key_present, classify_key_error, data_uri, google_image_route, image_provider,
    imagen_error_message, key_error_message, text_provider, vision_provider, GoogleImageRoute,
    ImageProvider, TextProvider,
};
use moms_insta::settings::{delete_image_prompt, extract_family_name, gcd, save_image_prompt};
use moms_insta::text::trim_str;

fn prompt(id: &str, name: &str, default: bool) -> ImagePrompt {
    ImagePrompt {
        id: id.to_string(),
        name: name.to_string(),
        prompt: "p".to_string(),
        style_image_path: None,
        preview_image_path: None,
        is_default: default,
    }
}

#[test]
fn defaults() {
    let preset = ImageSizePreset::default();
    assert_eq!((preset.id.as_str(), preset.width, preset.height), ("instagram", 1080, 1350));
    assert_eq!(preset.name, "인스타그램 게시물");
    let sel = ApiSelection::default();
    assert_eq!(sel.content_generation, "anthropic");
    assert_eq!(sel.image_generation, "google");
    let keys = ApiKeys::default();
    assert!(keys.google.is_none() && keys.openai.is_none() && keys.anthropic.is_none());
}

#[test]
fn gcd_values() {
    assert_eq!(gcd(1080, 1350), 270);
    assert_eq!(gcd(7, 0), 7);
    assert_eq!(gcd(0, 9), 9);
}

#[test]
fn saving_a_prompt_updates_or_appends() {
    let mut prompts = vec![prompt("a", "A", true), prompt("b", "B", false)];
    let mut changed = prompt("a", "A2", false);
    changed.preview_image_path = Some("prev.png".into());
    save_image_prompt(&mut prompts, changed);
    assert_eq!(prompts.len(), 2);
    assert_eq!(prompts[0].name, "A2");
    assert!(prompts[0].is_default);
    assert_eq!(prompts[0].preview_image_path, Some("prev.png".to_string()));
    save_image_prompt(&mut prompts, prompt("c", "C", false));
    assert_eq!(prompts.len(), 3);
    assert_eq!(prompts[2].id, "c");
}

#[test]
fn deleting_prompts() {
    let mut prompts = vec![prompt("a", "A", true), prompt("b", "B", false), prompt("b", "B2", false)];
    assert_eq!(delete_image_prompt(&mut prompts, "a").unwrap_err(), "기본 프롬프트는 삭제할 수 없습니다.");
    assert_eq!(prompts.len(), 3);
    assert!(delete_image_prompt(&mut prompts, "b").is_ok());
    assert_eq!(prompts.len(), 1);
    assert!(delete_image_prompt(&mut prompts, "zzz").is_ok());
    assert_eq!(prompts.len(), 1);
}

#[test]
fn keyword_suggestions() {
    assert!(suggest_keywords("  ").is_empty());
    let s = suggest_keywords("레티놀");
    let words: Vec<&str> = s.iter().map(|k| k.keyword.as_str()).collect();
    assert_eq!(words, vec!["레티놀 효능", "레티놀 부작용", "레티놀 화장품", "레티놀 아기 피부", "레티놀 임산부"]);
    let trends: Vec<&str> = s.iter().map(|k| k.trend.as_str()).collect();
    assert_eq!(trends, vec!["hot", "rising", "stable", "rising", "hot"]);
    assert!(s.iter().all(|k| k.source == "google" && k.id.len() == 36));
}

#[test]
fn provider_selection() {
    assert_eq!(text_provider(&None), TextProvider::OpenAi);
    assert_eq!(text_provider(&Some("anthropic".into())), TextProvider::Anthropic);
    assert_eq!(text_provider(&Some("Anthropic".into())), TextProvider::OpenAi);
    assert_eq!(image_provider(&None), ImageProvider::Google);
    assert_eq!(image_provider(&Some("gemini".into())), ImageProvider::Google);
    assert_eq!(image_provider(&Some("openai".into())), ImageProvider::OpenAi);
    assert_eq!(vision_provider("openai"), TextProvider::OpenAi);
    assert_eq!(vision_provider("x"), TextProvider::Google);
}

#[test]
fn credential_checks() {
    assert_eq!(check_key_present(" ").unwrap_err(), "API 키가 비어있습니다.");
    assert!(check_key_present("sk").is_ok());
    assert_eq!(
        key_error_message(TextProvider::OpenAi, "OpenAI API 오류: {\"code\":\"INVALID_API_KEY\"}"),
        "API 키가 올바르지 않습니다. OpenAI 대시보드에서 키를 확인해주세요."
    );
    assert_eq!(
        key_error_message(TextProvider::OpenAi, "boom"),
        "OpenAI API 검증 실패: boom"
    );
    assert_eq!(
        key_error_message(TextProvider::Anthropic, "Overloaded"),
        "Anthropic 서버가 과부하 상태입니다. 잠시 후 다시 시도해주세요."
    );
    assert_eq!(
        key_error_message(TextProvider::Google, "PERMISSION_DENIED x"),
        "API 키 권한 오류입니다. Google AI Studio(aistudio.google.com)에서 새 API 키를 생성해주세요.\n\n상세: PERMISSION_DENIED x"
    );
    assert_eq!(
        classify_key_error(TextProvider::Google, "billing", "Billing"),
        "결제 설정이 필요합니다. Google Cloud Console에서 결제를 활성화해주세요."
    );
}

#[test]
fn google_model_routes() {
    assert_eq!(
        google_image_route("imagen-3.0-generate-002"),
        GoogleImageRoute::Imagen("imagen-3.0-generate-002".to_string())
    );
    assert_eq!(google_image_route("gemini-2.0-flash-exp"), GoogleImageRoute::GeminiNative);
    assert_eq!(
        google_image_route("gemini-3-pro-image-preview"),
        GoogleImageRoute::Imagen("imagen-4.0-generate-001".to_string())
    );
}

#[test]
fn imagen_failure_messages() {
    assert_eq!(
        imagen_error_message("{\"status\":\"INVALID_ARGUMENT\"}", "400 Bad Request", "m", "5:4"),
        "잘못된 요청입니다. aspectRatio(5:4)가 지원되는 값인지 확인해주세요. 지원 값: 1:1, 3:4, 4:3, 9:16, 16:9"
    );
    assert_eq!(
        imagen_error_message("NOT_FOUND", "404", "imagen-x", "1:1"),
        "imagen-x 모델을 사용할 수 없습니다. Google AI Studio에서 Imagen API 액세스가 활성화되어 있는지 확인해주세요."
    );
    assert_eq!(imagen_error_message("oops", "500", "m", "1:1"), "Imagen API 오류 (500): oops");
    assert_eq!(data_uri("image/png", "QQ=="), "data:image/png;base64,QQ==");
}

#[test]
fn error_messages() {
    assert_eq!(AppError::ApiError("x".into()).message(), "API 요청 실패: x");
    assert_eq!(AppError::SettingsNotFound.message(), "설정을 찾을 수 없습니다");
    assert_eq!(AppError::FileWriteError("y".into()).message(), "파일 쓰기 오류: y");
}

#[test]
fn trimming() {
    assert_eq!(trim_str("  안녕 \n"), "안녕");
    assert_eq!(trim_str("\u{3000}x\u{3000}"), "x");
}

fn font_name(name_id: u16, language_id: u16, text: Option<&str>) -> moms_insta::settings::FontName {
    moms_insta::settings::FontName { name_id, language_id, text: text.map(|t| t.to_string()) }
}

#[test]
fn font_family_prefers_korean_then_last_english_then_first() {
    let korean = vec![
        font_name(1, 1033, Some("Nanum Gothic")),
        font_name(16, 1042, Some("나눔고딕")),
        font_name(1, 1042, Some("나눔")),
    ];
    assert_eq!(extract_family_name(&korean), Some("나눔고딕".to_string()));
    let english = vec![
        font_name(1, 1031, Some("Schrift")),
        font_name(1, 1033, Some("Font A")),
        font_name(16, 1033, Some("Font B")),
        font_name(1, 1036, Some("Police")),
    ];
    assert_eq!(extract_family_name(&english), Some("Font B".to_string()));
    let other = vec![
        font_name(4, 1033, Some("Full Name")),
        font_name(1, 1031, Some("Schrift")),
        font_name(1, 1036, Some("Police")),
        font_name(16, 1042, None),
    ];
    assert_eq!(extract_family_name(&other), Some("Schrift".to_string()));
    assert_eq!(extract_family_name(&vec![font_name(2, 1042, Some("Bold"))]), None);
}
