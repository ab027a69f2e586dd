//! Illustration requests: sizes, prompts, batches that tolerate partial
//! failure, and where downloaded bytes come from.
use vstd::prelude::*;
use crate::content::API_KEY_REQUIRED;
use crate::models::{GeneratedImage, ImageGenerationRequest};
use crate::provider::{ImageProvider, TextProvider, image_provider, image_provider_for, opt_view, vision_provider, vision_provider_for};
use crate::text::{
    chars_of, decimal_two, find_char, is_blank, is_blank_str, is_first_index, occurs_at, owned,
    push_char, push_decimal, push_str, str_eq, str_starts_with, string_of_range,
};
use crate::text::{lowercase_of, to_lowercase, str_ends_with};
use crate::thirdparty::{
    base64_decode, base64_decoded, base64_encode, base64_encoded, decode_error_text,
    is_hyphenated_uuid, new_uuid,
};

verus! {

// ---------------------------------------------------------------------------
// Aspect ratios
// ---------------------------------------------------------------------------

/// Pixel width and height for an aspect ratio; an unknown ratio is square.
pub open spec fn dimensions_for(ratio: Seq<char>) -> (u32, u32) {
    if ratio == "1:1"@ {
        (1024, 1024)
    } else if ratio == "4:3"@ {
        (1024, 768)
    } else if ratio == "3:4"@ {
        (768, 1024)
    } else if ratio == "16:9"@ {
        (1024, 576)
    } else if ratio == "9:16"@ {
        (576, 1024)
    } else {
        (1024, 1024)
    }
}

/// The size string the OpenAI renderer is asked for, for an aspect ratio.
pub open spec fn openai_size_for(ratio: Seq<char>) -> Seq<char> {
    if ratio == "4:3"@ || ratio == "16:9"@ {
        "1792x1024"@
    } else if ratio == "3:4"@ || ratio == "9:16"@ {
        "1024x1792"@
    } else {
        "1024x1024"@
    }
}

/// The pixel dimensions of an aspect ratio.
pub fn aspect_dimensions(ratio: &str) -> (r: (u32, u32))
    ensures
        r == dimensions_for(ratio@),
{
    if str_eq(ratio, "1:1") {
        (1024, 1024)
    } else if str_eq(ratio, "4:3") {
        (1024, 768)
    } else if str_eq(ratio, "3:4") {
        (768, 1024)
    } else if str_eq(ratio, "16:9") {
        (1024, 576)
    } else if str_eq(ratio, "9:16") {
        (576, 1024)
    } else {
        (1024, 1024)
    }
}

/// The OpenAI size string of an aspect ratio.
pub fn openai_size(ratio: &str) -> (r: &'static str)
    ensures
        r@ == openai_size_for(ratio@),
{
    if str_eq(ratio, "4:3") || str_eq(ratio, "16:9") {
        "1792x1024"
    } else if str_eq(ratio, "3:4") || str_eq(ratio, "9:16") {
        "1024x1792"
    } else {
        "1024x1024"
    }
}

// ---------------------------------------------------------------------------
// Single images
// ---------------------------------------------------------------------------

/// The default Google image model.
pub const DEFAULT_IMAGE_MODEL: &'static str = "imagen-4.0-generate-001";

/// The message for a blank image concept.
pub const CONCEPT_REQUIRED: &'static str = "이미지 컨셉을 입력해주세요.";

/// The prompt sent to the renderer: the concept, then the style where one
/// is given.
pub open spec fn render_prompt(concept: Seq<char>, style: Seq<char>) -> Seq<char> {
    if style.len() == 0 {
        concept
    } else {
        concept + "\n\nStyle: "@ + style
    }
}

/// Composes the renderer prompt from a concept and a style.
pub fn image_prompt_text(concept: &str, style: &str) -> (r: String)
    ensures
        r@ == render_prompt(concept@, style@),
{
    let mut r = owned(concept);
    if chars_of(style).len() > 0 {
        push_str(&mut r, "\n\nStyle: ");
        push_str(&mut r, style);
    }
    r
}

/// What a renderer is asked for one illustration.
#[derive(Debug, Clone, PartialEq)]
pub struct ImageJob {
    pub provider: ImageProvider,
    pub api_key: String,
    pub model: String,
    pub aspect_ratio: String,
    pub negative_prompt: Option<String>,
    pub prompt: String,
    pub openai_size: String,
    pub content_id: String,
    pub width: u32,
    pub height: u32,
}

/// The value of an option, or a default.
pub open spec fn or_default(o: Option<String>, d: Seq<char>) -> Seq<char> {
    match o {
        Some(s) => s@,
        None => d,
    }
}

fn value_or(o: Option<String>, d: &str) -> (r: String)
    ensures
        r@ == or_default(o, d@),
{
    match o {
        Some(s) => s,
        None => owned(d),
    }
}

/// Checks one illustration request and prepares the renderer call. A blank
/// concept, then a missing credential, are refused.
pub fn prepare_image_generation(
    request: &ImageGenerationRequest,
    api_key: Option<String>,
    provider: Option<String>,
    model: Option<String>,
    aspect_ratio: Option<String>,
    negative_prompt: Option<String>,
) -> (r: Result<ImageJob, String>)
    ensures
        r is Err <==> (is_blank(request.image_concept@) || api_key is None),
        r matches Err(m) ==> m@ == if is_blank(request.image_concept@) {
            CONCEPT_REQUIRED@
        } else {
            API_KEY_REQUIRED@
        },
        r matches Ok(job) ==> {
            let ratio = or_default(aspect_ratio, "1:1"@);
            &&& job.provider == image_provider_for(opt_view(provider))
            &&& job.api_key@ == api_key->0@
            &&& job.model@ == or_default(model, DEFAULT_IMAGE_MODEL@)
            &&& job.aspect_ratio@ == ratio
            &&& job.negative_prompt == negative_prompt
            &&& job.prompt@ == render_prompt(request.image_concept@, request.style_prompt@)
            &&& job.openai_size@ == openai_size_for(ratio)
            &&& job.content_id@ == request.content_id@
            &&& (job.width, job.height) == dimensions_for(ratio)
        },
{
    if is_blank_str(request.image_concept.as_str()) {
        return Err(owned(CONCEPT_REQUIRED));
    }
    let api_key = match api_key {
        Some(k) => k,
        None => {
            return Err(owned(API_KEY_REQUIRED));
        },
    };
    let chosen = image_provider(&provider);
    let model = value_or(model, DEFAULT_IMAGE_MODEL);
    let ratio = value_or(aspect_ratio, "1:1");
    let prompt = image_prompt_text(request.image_concept.as_str(), request.style_prompt.as_str());
    let size = owned(openai_size(ratio.as_str()));
    let (width, height) = aspect_dimensions(ratio.as_str());
    Ok(ImageJob {
        provider: chosen,
        api_key,
        model,
        aspect_ratio: ratio,
        negative_prompt,
        prompt,
        openai_size: size,
        content_id: request.content_id.clone(),
        width,
        height,
    })
}

/// The record of a rendered illustration, under a fresh id.
pub fn generated_image(job: &ImageJob, url: String) -> (r: GeneratedImage)
    ensures
        is_hyphenated_uuid(r.id@),
        r.content_id@ == job.content_id@,
        r.url == url,
        r.local_path is None,
        r.width == job.width,
        r.height == job.height,
{
    GeneratedImage {
        id: new_uuid(),
        content_id: job.content_id.clone(),
        url,
        local_path: None,
        width: job.width,
        height: job.height,
    }
}

// ---------------------------------------------------------------------------
// Batches
// ---------------------------------------------------------------------------

/// The successful results among per-item outcomes, in input order.
pub open spec fn successes<T>(outcomes: Seq<Option<T>>) -> Seq<T>
    decreases outcomes.len(),
{
    if outcomes.len() == 0 {
        Seq::empty()
    } else {
        match outcomes.last() {
            Some(x) => successes(outcomes.drop_last()).push(x),
            None => successes(outcomes.drop_last()),
        }
    }
}

/// The number of items that succeeded.
pub open spec fn success_count<T>(outcomes: Seq<Option<T>>) -> nat
    decreases outcomes.len(),
{
    if outcomes.len() == 0 {
        0
    } else {
        success_count(outcomes.drop_last()) + if outcomes.last() is Some {
            1nat
        } else {
            0nat
        }
    }
}

/// The outcome of a whole batch: the successes, or failure when there are
/// none.
pub open spec fn batch_result<T>(outcomes: Seq<Option<T>>) -> Option<Seq<T>> {
    if successes(outcomes).len() == 0 {
        None
    } else {
        Some(successes(outcomes))
    }
}

/// A batch of `K` items of which `M` succeed yields exactly those `M`
/// results, in input order; it fails exactly when `M` is 0; and when all `K`
/// succeed it yields all `K` results in input order.
pub proof fn lemma_batch_result<T>(outcomes: Seq<Option<T>>)
    ensures
        batch_result(outcomes) is None <==> success_count(outcomes) == 0,
        batch_result(outcomes) matches Some(v) ==> v.len() == success_count(outcomes),
        success_count(outcomes) == outcomes.len() ==> {
            &&& successes(outcomes).len() == outcomes.len()
            &&& forall|i: int|
                0 <= i < outcomes.len() ==> outcomes[i] == Some(#[trigger] successes(outcomes)[i])
        },
    decreases outcomes.len(),
{
    if outcomes.len() > 0 {
        lemma_batch_result(outcomes.drop_last());
        lemma_success_count_bound(outcomes.drop_last());
    }
}

proof fn lemma_success_count_bound<T>(outcomes: Seq<Option<T>>)
    ensures
        success_count(outcomes) <= outcomes.len(),
        successes(outcomes).len() == success_count(outcomes),
    decreases outcomes.len(),
{
    if outcomes.len() > 0 {
        lemma_success_count_bound(outcomes.drop_last());
    }
}

/// The state of a batch that runs its items one at a time, in input order.
pub struct BatchRun<T> {
    total: usize,
    done: usize,
    results: Vec<T>,
    outcomes: Ghost<Seq<Option<T>>>,
}

impl<T> BatchRun<T> {
    /// The number of items in the batch.
    pub closed spec fn total(&self) -> nat {
        self.total as nat
    }

    /// The outcomes recorded so far, in input order.
    pub closed spec fn outcomes(&self) -> Seq<Option<T>> {
        self.outcomes@
    }

    /// The results kept are the successes recorded so far.
    pub closed spec fn wf(&self) -> bool {
        &&& self.results@ == successes(self.outcomes@)
        &&& self.done == self.outcomes@.len()
        &&& self.done <= self.total
    }

    /// A batch of `total` items with nothing recorded yet.
    pub fn new(total: usize) -> (r: Self)
        ensures
            r.wf(),
            r.total() == total,
            r.outcomes() == Seq::<Option<T>>::empty(),
    {
        BatchRun { total, done: 0, results: Vec::new(), outcomes: Ghost(Seq::empty()) }
    }

    /// Records the outcome of the next item (`None` for a failure, which is
    /// passed over). Returns whether items remain, in which case the caller
    /// pauses before the next one.
    pub fn record(&mut self, outcome: Option<T>) -> (pause: bool)
        requires
            old(self).wf(),
            old(self).outcomes().len() < old(self).total(),
        ensures
            final(self).wf(),
            final(self).total() == old(self).total(),
            final(self).outcomes() == old(self).outcomes().push(outcome),
            pause == (final(self).outcomes().len() < final(self).total()),
    {
        let ghost before = self.outcomes@;
        self.outcomes = Ghost(before.push(outcome));
        assert(self.outcomes@.drop_last() =~= before);
        match outcome {
            Some(x) => self.results.push(x),
            None => {},
        }
        self.done = self.done + 1;
        self.done < self.total
    }

    /// The outcome of the batch: the successful results in input order, or
    /// the failure message when no item succeeded.
    pub fn finish(self, failure: &str) -> (r: Result<Vec<T>, String>)
        requires
            self.wf(),
        ensures
            r is Err <==> batch_result(self.outcomes()) is None,
            r matches Err(m) ==> m@ == failure@,
            r matches Ok(v) ==> batch_result(self.outcomes()) == Some(v@),
    {
        if self.results.len() == 0 {
            Err(owned(failure))
        } else {
            Ok(self.results)
        }
    }
}

/// The message when every illustration of a batch failed.
pub const ALL_RENDERS_FAILED: &'static str = "모든 이미지 생성에 실패했습니다.";

/// The message when every download of a batch failed.
pub const ALL_DOWNLOADS_FAILED: &'static str = "모든 이미지 다운로드에 실패했습니다.";

/// The message when a batch download is given no image.
pub const NOTHING_TO_DOWNLOAD: &'static str = "다운로드할 이미지가 없습니다.";

/// The path of the `index`-th (0-based) image of a batch download:
/// `carousel_NN.png` under `base`, numbered from 1 on at least two digits.
pub open spec fn carousel_path(base: Seq<char>, index: nat) -> Seq<char> {
    base + "/carousel_"@ + decimal_two(index + 1) + ".png"@
}

/// Names the file of the `index`-th image of a batch download.
pub fn carousel_file_path(base: &str, index: usize) -> (r: String)
    requires
        index < usize::MAX,
    ensures
        r@ == carousel_path(base@, index as nat),
{
    let mut r = owned(base);
    push_str(&mut r, "/carousel_");
    let n = (index as u64) + 1;
    if n < 10 {
        push_char(&mut r, '0');
    }
    push_decimal(&mut r, n);
    push_str(&mut r, ".png");
    proof {
        if n < 10 {
            assert(crate::text::decimal(n as nat) == seq![crate::text::digit(n as nat)]);
        }
    }
    r
}

// ---------------------------------------------------------------------------
// Data URIs and downloads
// ---------------------------------------------------------------------------

/// The payload of a data URI: what follows its first comma.
pub open spec fn data_uri_payload(uri: Seq<char>) -> Option<Seq<char>> {
    if uri.contains(',') {
        let i = choose|i: int| is_first_index(uri, ',', i);
        Some(uri.subrange(i + 1, uri.len() as int))
    } else {
        None
    }
}

/// Why the bytes of a data URI could not be had.
#[derive(Debug, Clone, PartialEq)]
pub enum DataUriError {
    /// The URI has no comma before its payload.
    MissingPayload,
    /// The payload is not valid base64; the description says why.
    InvalidBase64(String),
}

/// Decodes the base64 payload of a data URI.
pub fn data_uri_bytes(uri: &str) -> (r: Result<Vec<u8>, DataUriError>)
    ensures
        data_uri_payload(uri@) is None ==> r == Err::<Vec<u8>, DataUriError>(
            DataUriError::MissingPayload,
        ),
        data_uri_payload(uri@) matches Some(p) ==> {
            &&& r is Ok <==> base64_decoded(p) is Some
            &&& r matches Ok(b) ==> base64_decoded(p) == Some(b@)
            &&& r is Err ==> r->Err_0 is InvalidBase64
        },
{
    let cs = chars_of(uri);
    let n = cs.len();
    match find_char(cs.as_slice(), ',') {
        None => Err(DataUriError::MissingPayload),
        Some(i) => {
            assert(i < n);
            let payload = string_of_range(cs.as_slice(), i + 1, cs.len());
            proof {
                assert(uri@.contains(',')) by {
                    assert(uri@[i as int] == ',');
                }
                let j = choose|j: int| is_first_index(uri@, ',', j);
                assert(j == i) by {
                    if j < i {
                        assert(uri@[j] != ',');
                    } else if i < j {
                        assert(uri@[i as int] != ',');
                    }
                }
            }
            match base64_decode(payload.as_str()) {
                Ok(bytes) => Ok(bytes),
                Err(e) => Err(DataUriError::InvalidBase64(decode_error_text(&e))),
            }
        },
    }
}

/// Where the bytes of a download come from.
#[derive(Debug, Clone, PartialEq)]
pub enum DownloadSource {
    /// Bytes decoded from an embedded data URI, written as they are.
    Embedded(Vec<u8>),
    /// A URL to fetch.
    Remote(String),
}

/// The message for a blank image URL.
pub const URL_REQUIRED: &'static str = "이미지 URL을 입력해주세요.";

/// The message for a blank target path.
pub const PATH_REQUIRED: &'static str = "저장 경로를 설정해주세요.";

/// The message for a data URI without a payload.
pub const MALFORMED_DATA_URI: &'static str = "잘못된 base64 이미지 형식";

/// Starts the message for a payload that is not valid base64.
pub const BASE64_FAILED: &'static str = "Base64 디코딩 실패: ";

/// Checks a download and finds where its bytes come from: a URL or target
/// path that is blank is refused; a `data:image/` URI is decoded here, and
/// one without payload or with invalid base64 fails; any other text is a URL
/// to fetch.
pub fn plan_download(image_url: &str, save_path: &str) -> (r: Result<DownloadSource, String>)
    ensures
        is_blank(image_url@) ==> (r matches Err(m) && m@ == URL_REQUIRED@),
        !is_blank(image_url@) && is_blank(save_path@) ==> (r matches Err(m) && m@ == PATH_REQUIRED@),
        !is_blank(image_url@) && !is_blank(save_path@) ==> {
            if occurs_at(image_url@, "data:image/"@, 0) {
                match data_uri_payload(image_url@) {
                    None => (r matches Err(m) && m@ == MALFORMED_DATA_URI@),
                    Some(p) => match base64_decoded(p) {
                        Some(b) => (r matches Ok(DownloadSource::Embedded(v)) && v@ == b),
                        None => (r matches Err(m) && occurs_at(m@, BASE64_FAILED@, 0)),
                    },
                }
            } else {
                (r matches Ok(DownloadSource::Remote(u)) && u@ == image_url@)
            }
        },
{
    if is_blank_str(image_url) {
        return Err(owned(URL_REQUIRED));
    }
    if is_blank_str(save_path) {
        return Err(owned(PATH_REQUIRED));
    }
    if !str_starts_with(image_url, "data:image/") {
        return Ok(DownloadSource::Remote(owned(image_url)));
    }
    match data_uri_bytes(image_url) {
        Ok(bytes) => Ok(DownloadSource::Embedded(bytes)),
        Err(DataUriError::MissingPayload) => Err(owned(MALFORMED_DATA_URI)),
        Err(DataUriError::InvalidBase64(why)) => {
            let mut m = owned(BASE64_FAILED);
            let ghost head = m@;
            push_str(&mut m, why.as_str());
            assert(m@.subrange(0, BASE64_FAILED@.len() as int) =~= BASE64_FAILED@);
            Err(m)
        },
    }
}

/// Checks that a batch download has images to fetch.
pub fn check_download_batch(count: usize) -> (r: Result<(), String>)
    ensures
        r is Err <==> count == 0,
        r matches Err(m) ==> m@ == NOTHING_TO_DOWNLOAD@,
{
    if count == 0 {
        Err(owned(NOTHING_TO_DOWNLOAD))
    } else {
        Ok(())
    }
}

// ---------------------------------------------------------------------------
// Style previews
// ---------------------------------------------------------------------------

/// The message for a blank preview prompt.
pub const PROMPT_REQUIRED: &'static str = "프롬프트가 비어있습니다.";

/// What a renderer is asked for a style preview, and the file it goes to.
#[derive(Debug, Clone, PartialEq)]
pub struct PreviewJob {
    pub provider: ImageProvider,
    pub model: String,
    pub aspect_ratio: String,
    pub negative_prompt: Option<String>,
    pub openai_size: String,
    pub file_name: String,
}

/// Checks a preview request and prepares the renderer call: a blank prompt,
/// then a blank credential, are refused. The ratio defaults to `3:4`; the
/// file is named after the prompt id.
pub fn prepare_preview_image(
    prompt_id: &str,
    prompt: &str,
    api_key: &str,
    provider: &str,
    model: Option<String>,
    aspect_ratio: Option<String>,
    negative_prompt: Option<String>,
) -> (r: Result<PreviewJob, String>)
    ensures
        r is Err <==> (is_blank(prompt@) || is_blank(api_key@)),
        r matches Err(m) ==> m@ == if is_blank(prompt@) {
            PROMPT_REQUIRED@
        } else {
            API_KEY_REQUIRED@
        },
        r matches Ok(job) ==> {
            let ratio = or_default(aspect_ratio, "3:4"@);
            &&& job.provider == image_provider_for(Some(provider@))
            &&& job.model@ == or_default(model, DEFAULT_IMAGE_MODEL@)
            &&& job.aspect_ratio@ == ratio
            &&& job.negative_prompt == negative_prompt
            &&& job.openai_size@ == openai_size_for(ratio)
            &&& job.file_name@ == prompt_id@ + ".png"@
        },
{
    if is_blank_str(prompt) {
        return Err(owned(PROMPT_REQUIRED));
    }
    if is_blank_str(api_key) {
        return Err(owned(API_KEY_REQUIRED));
    }
    let chosen = if str_eq(provider, "openai") {
        ImageProvider::OpenAi
    } else {
        ImageProvider::Google
    };
    let ratio = value_or(aspect_ratio, "3:4");
    let size = owned(openai_size(ratio.as_str()));
    let mut file_name = owned(prompt_id);
    push_str(&mut file_name, ".png");
    Ok(PreviewJob {
        provider: chosen,
        model: value_or(model, DEFAULT_IMAGE_MODEL),
        aspect_ratio: ratio,
        negative_prompt,
        openai_size: size,
        file_name,
    })
}

/// The message for preview data that is a data URI without payload.
pub const MALFORMED_PREVIEW: &'static str = "잘못된 이미지 데이터 형식입니다.";

/// Starts the message for preview data that is not valid base64.
pub const PREVIEW_DECODE_FAILED: &'static str = "이미지 디코딩 실패: ";

/// Where the bytes of a rendered preview come from: text starting with
/// `data:image` is decoded here; anything else is a URL to fetch.
pub fn preview_source(image_data: &str) -> (r: Result<DownloadSource, String>)
    ensures
        occurs_at(image_data@, "data:image"@, 0) ==> match data_uri_payload(image_data@) {
            None => (r matches Err(m) && m@ == MALFORMED_PREVIEW@),
            Some(p) => match base64_decoded(p) {
                Some(b) => (r matches Ok(DownloadSource::Embedded(v)) && v@ == b),
                None => (r matches Err(m) && occurs_at(m@, PREVIEW_DECODE_FAILED@, 0)),
            },
        },
        !occurs_at(image_data@, "data:image"@, 0) ==> (r matches Ok(DownloadSource::Remote(u))
            && u@ == image_data@),
{
    if !str_starts_with(image_data, "data:image") {
        return Ok(DownloadSource::Remote(owned(image_data)));
    }
    match data_uri_bytes(image_data) {
        Ok(bytes) => Ok(DownloadSource::Embedded(bytes)),
        Err(DataUriError::MissingPayload) => Err(owned(MALFORMED_PREVIEW)),
        Err(DataUriError::InvalidBase64(why)) => {
            let mut m = owned(PREVIEW_DECODE_FAILED);
            push_str(&mut m, why.as_str());
            assert(m@.subrange(0, PREVIEW_DECODE_FAILED@.len() as int) =~= PREVIEW_DECODE_FAILED@);
            Err(m)
        },
    }
}

// ---------------------------------------------------------------------------
// Reading a style from an image
// ---------------------------------------------------------------------------

/// The message for a blank image path.
pub const IMAGE_PATH_REQUIRED: &'static str = "이미지 경로가 비어있습니다.";

/// Checks a request to read a style from an image: a blank path, then a
/// blank credential, are refused before the file is read.
pub fn check_image_analysis(image_path: &str, api_key: &str) -> (r: Result<(), String>)
    ensures
        r is Err <==> (is_blank(image_path@) || is_blank(api_key@)),
        r matches Err(m) ==> m@ == if is_blank(image_path@) {
            IMAGE_PATH_REQUIRED@
        } else {
            API_KEY_REQUIRED@
        },
{
    if is_blank_str(image_path) {
        return Err(owned(IMAGE_PATH_REQUIRED));
    }
    if is_blank_str(api_key) {
        return Err(owned(API_KEY_REQUIRED));
    }
    Ok(())
}

/// `s` ends with `suffix`.
pub open spec fn ends_with(s: Seq<char>, suffix: Seq<char>) -> bool {
    suffix.len() <= s.len() && occurs_at(s, suffix, s.len() - suffix.len())
}

/// The media type of an image file, from its lower-cased path.
pub open spec fn mime_for(low: Seq<char>) -> Seq<char> {
    if ends_with(low, ".png"@) {
        "image/png"@
    } else if ends_with(low, ".jpg"@) || ends_with(low, ".jpeg"@) {
        "image/jpeg"@
    } else if ends_with(low, ".webp"@) {
        "image/webp"@
    } else {
        "image/png"@
    }
}

/// The media type of an image file, from its extension in any case; PNG
/// where the extension is not known.
pub fn mime_type_for_path(path: &str) -> (r: &'static str)
    ensures
        r@ == mime_for(lowercase_of(path@)),
{
    let low = to_lowercase(path);
    if str_ends_with(low.as_str(), ".png") {
        "image/png"
    } else if str_ends_with(low.as_str(), ".jpg") || str_ends_with(low.as_str(), ".jpeg") {
        "image/jpeg"
    } else if str_ends_with(low.as_str(), ".webp") {
        "image/webp"
    } else {
        "image/png"
    }
}

/// The system prompt for reading a style from an image.
pub const STYLE_SYSTEM_PROMPT: &'static str = "당신은 이미지 스타일 분석 전문가입니다. 주어진 이미지를 분석하여 이 이미지를 AI 이미지 생성 모델로 재현하기 위한 상세한 프롬프트를 작성해주세요.

다음 요소들을 포함하여 분석해주세요:
1. 전체적인 스타일 (일러스트, 사진, 3D 렌더링, 수채화 등)
2. 색상 팔레트와 톤 (밝은/어두운, 따뜻한/차가운, 파스텔/비비드 등)
3. 캐릭터/인물 특징 (있는 경우)
4. 배경 스타일과 구성
5. 조명과 그림자 처리
6. 텍스처와 질감
7. 전체적인 분위기와 감성

결과는 영어로 된 이미지 생성 프롬프트 형태로 작성해주세요. 프롬프트만 출력하고 다른 설명은 포함하지 마세요.";

/// The user prompt for reading a style from an image.
pub const STYLE_USER_PROMPT: &'static str = "이 이미지의 스타일을 분석하여 AI 이미지 생성을 위한 상세한 프롬프트를 작성해주세요.";

/// What a vision provider is asked to read a style from an image.
#[derive(Debug, Clone, PartialEq)]
pub struct ImageAnalysisJob {
    pub provider: TextProvider,
    pub base64_image: String,
    pub mime_type: String,
    pub system_prompt: String,
    pub user_prompt: String,
}

/// Prepares the request that reads a style from the image at `image_path`
/// whose bytes are `image_data`.
pub fn image_analysis_job(image_path: &str, image_data: &[u8], provider: &str) -> (r: ImageAnalysisJob)
    ensures
        r.provider == vision_provider_for(provider@),
        r.base64_image@ == base64_encoded(image_data@),
        r.mime_type@ == mime_for(lowercase_of(image_path@)),
        r.system_prompt@ == STYLE_SYSTEM_PROMPT@,
        r.user_prompt@ == STYLE_USER_PROMPT@,
{
    ImageAnalysisJob {
        provider: vision_provider(provider),
        base64_image: base64_encode(image_data),
        mime_type: owned(mime_type_for_path(image_path)),
        system_prompt: owned(STYLE_SYSTEM_PROMPT),
        user_prompt: owned(STYLE_USER_PROMPT),
    }
}

} // verus!
