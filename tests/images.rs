use moms_insta::image::{
    aspect_dimensions, carousel_file_path, check_download_batch, check_image_analysis,
    generated_image, image_analysis_job, image_prompt_text, mime_type_for_path, openai_size,
    plan_download, prepare_image_generation, prepare_preview_image, preview_source, BatchRun,
    DownloadSource, ALL_RENDERS_FAILED,
};
use moms_insta::models::ImageGenerationRequest;
use moms_insta::provider::{ImageProvider, TextProvider};

fn req(concept: &str, style: &str) -> ImageGenerationRequest {
    ImageGenerationRequest {
        content_id: "c1".to_string(),
        image_concept: concept.to_string(),
        style_prompt: style.to_string(),
        style_image_path: None,
    }
}

#[test]
fn aspect_ratio_table() {
    assert_eq!(aspect_dimensions("9:16"), (576, 1024));
    assert_eq!(aspect_dimensions("16:9"), (1024, 576));
    assert_eq!(aspect_dimensions("4:3"), (1024, 768));
    assert_eq!(aspect_dimensions("3:4"), (768, 1024));
    assert_eq!(aspect_dimensions("1:1"), (1024, 1024));
    assert_eq!(aspect_dimensions("2:1"), (1024, 1024));
}

#[test]
fn openai_sizes() {
    assert_eq!(openai_size("16:9"), "1792x1024");
    assert_eq!(openai_size("3:4"), "1024x1792");
    assert_eq!(openai_size("odd"), "1024x1024");
}

#[test]
fn style_is_appended_when_given() {
    assert_eq!(image_prompt_text("cat", ""), "cat");
    assert_eq!(image_prompt_text("cat", "pastel"), "cat\n\nStyle: pastel");
}

#[test]
fn image_request_checks_and_defaults() {
    assert_eq!(
        prepare_image_generation(&req(" ", ""), Some("k".into()), None, None, None, None).unwrap_err(),
        "이미지 컨셉을 입력해주세요."
    );
    assert_eq!(
        prepare_image_generation(&req("cat", ""), None, None, None, None, None).unwrap_err(),
        "API 키가 설정되지 않았습니다."
    );
    let job = prepare_image_generation(&req("cat", "ink"), Some("k".into()), None, None, None, None).unwrap();
    assert_eq!(job.provider, ImageProvider::Google);
    assert_eq!(job.model, "imagen-4.0-generate-001");
    assert_eq!(job.aspect_ratio, "1:1");
    assert_eq!(job.prompt, "cat\n\nStyle: ink");
    assert_eq!((job.width, job.height), (1024, 1024));
    let tall = prepare_image_generation(
        &req("cat", ""),
        Some("k".into()),
        Some("openai".into()),
        Some("m".into()),
        Some("9:16".into()),
        Some("blur".into()),
    )
    .unwrap();
    assert_eq!(tall.provider, ImageProvider::OpenAi);
    assert_eq!(tall.openai_size, "1024x1792");
    assert_eq!((tall.width, tall.height), (576, 1024));
    assert_eq!(tall.negative_prompt, Some("blur".to_string()));
    let unknown = prepare_image_generation(&req("cat", ""), Some("k".into()), Some("other".into()), None, None, None).unwrap();
    assert_eq!(unknown.provider, ImageProvider::Google);
    let img = generated_image(&tall, "https://x/y.png".to_string());
    assert_eq!(img.content_id, "c1");
    assert_eq!((img.width, img.height), (576, 1024));
    assert_eq!(img.id.len(), 36);
    assert!(img.local_path.is_none());
}

fn run(outcomes: Vec<Option<u32>>) -> (Vec<bool>, Result<Vec<u32>, String>) {
    let mut b = BatchRun::new(outcomes.len());
    let pauses = outcomes.into_iter().map(|o| b.record(o)).collect();
    (pauses, b.finish(ALL_RENDERS_FAILED))
}

#[test]
fn batch_with_some_failures_returns_successes_in_order() {
    let (pauses, r) = run(vec![Some(1), None, Some(3), None]);
    assert_eq!(pauses, vec![true, true, true, false]);
    assert_eq!(r.unwrap(), vec![1, 3]);
}

#[test]
fn batch_with_no_success_fails() {
    let (_, r) = run(vec![None, None]);
    assert_eq!(r.unwrap_err(), "모든 이미지 생성에 실패했습니다.");
    let (_, empty) = run(vec![]);
    assert!(empty.is_err());
}

#[test]
fn batch_with_all_successes_keeps_input_order() {
    let (_, r) = run(vec![Some(5), Some(4), Some(6)]);
    assert_eq!(r.unwrap(), vec![5, 4, 6]);
}

#[test]
fn carousel_names() {
    assert_eq!(carousel_file_path("out", 0), "out/carousel_01.png");
    assert_eq!(carousel_file_path("out", 8), "out/carousel_09.png");
    assert_eq!(carousel_file_path("out", 9), "out/carousel_10.png");
    assert_eq!(carousel_file_path("/a/b", 119), "/a/b/carousel_120.png");
}

#[test]
fn download_batch_needs_images() {
    assert_eq!(check_download_batch(0).unwrap_err(), "다운로드할 이미지가 없습니다.");
    assert!(check_download_batch(2).is_ok());
}

#[test]
fn download_of_data_uri_is_decoded() {
    let r = plan_download("data:image/png;base64,aGVsbG8=", "/tmp/x.png").unwrap();
    assert_eq!(r, DownloadSource::Embedded(b"hello".to_vec()));
}

#[test]
fn download_failures() {
    assert_eq!(plan_download(" ", "/tmp/x").unwrap_err(), "이미지 URL을 입력해주세요.");
    assert_eq!(plan_download("https://a", "").unwrap_err(), "저장 경로를 설정해주세요.");
    assert_eq!(plan_download("data:image/png;base64", "/tmp/x").unwrap_err(), "잘못된 base64 이미지 형식");
    assert!(plan_download("data:image/png;base64,@@@", "/tmp/x")
        .unwrap_err()
        .starts_with("Base64 디코딩 실패: "));
}

#[test]
fn download_of_url_is_fetched() {
    assert_eq!(
        plan_download("https://img/x.png", "/tmp/x.png").unwrap(),
        DownloadSource::Remote("https://img/x.png".to_string())
    );
}

#[test]
fn preview_checks_and_sources() {
    assert_eq!(
        prepare_preview_image("p", " ", "k", "google", None, None, None).unwrap_err(),
        "프롬프트가 비어있습니다."
    );
    assert_eq!(
        prepare_preview_image("p", "x", "", "google", None, None, None).unwrap_err(),
        "API 키가 설정되지 않았습니다."
    );
    let job = prepare_preview_image("style-a", "x", "k", "openai", None, None, None).unwrap();
    assert_eq!(job.provider, ImageProvider::OpenAi);
    assert_eq!(job.aspect_ratio, "3:4");
    assert_eq!(job.openai_size, "1024x1792");
    assert_eq!(job.file_name, "style-a.png");
    assert_eq!(preview_source("data:image/png;base64,aGk=").unwrap(), DownloadSource::Embedded(b"hi".to_vec()));
    assert_eq!(preview_source("data:imagex").unwrap_err(), "잘못된 이미지 데이터 형식입니다.");
    assert_eq!(preview_source("http://u").unwrap(), DownloadSource::Remote("http://u".into()));
}

#[test]
fn image_analysis_request() {
    assert_eq!(check_image_analysis("", "k").unwrap_err(), "이미지 경로가 비어있습니다.");
    assert_eq!(check_image_analysis("a.png", " ").unwrap_err(), "API 키가 설정되지 않았습니다.");
    assert_eq!(mime_type_for_path("Photo.JPG"), "image/jpeg");
    assert_eq!(mime_type_for_path("a.jpeg"), "image/jpeg");
    assert_eq!(mime_type_for_path("a.WebP"), "image/webp");
    assert_eq!(mime_type_for_path("a.gif"), "image/png");
    let job = image_analysis_job("style.PNG", b"hi", "anthropic");
    assert_eq!(job.base64_image, "aGk=");
    assert_eq!(job.mime_type, "image/png");
    assert_eq!(job.provider, TextProvider::Anthropic);
    assert_eq!(image_analysis_job("a", b"", "").provider, TextProvider::Google);
}
