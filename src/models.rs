//! Data carried between the generation pipeline, the research lookups and
//! the project store.
use vstd::prelude::*;

verus! {

// ---------------------------------------------------------------------------
// Content generation
// ---------------------------------------------------------------------------

/// A suggested follow-up keyword.
#[derive(Debug, Clone, PartialEq)]
pub struct KeywordSuggestion {
    pub id: String,
    pub keyword: String,
    /// One of `rising`, `stable`, `hot`.
    pub trend: String,
    pub source: String,
}

/// A literature reference as presented to the user.
#[derive(Debug, Clone, PartialEq)]
pub struct PaperResult {
    pub id: String,
    pub title: String,
    pub authors: Vec<String>,
    pub abstract_text: String,
    pub publication_date: String,
    pub source: String,
    pub citation_count: Option<u32>,
    pub doi: Option<String>,
}

/// The analysis of one cosmetic ingredient.
#[derive(Debug, Clone, PartialEq)]
pub struct IngredientAnalysis {
    pub ingredient_name: String,
    pub korean_name: String,
    pub ewg_score: Option<u8>,
    pub benefits: Vec<String>,
    pub cautions: Vec<String>,
    pub recommended_concentration: Option<String>,
    pub related_papers: Vec<PaperResult>,
}

/// One drafted post of a content plan.
#[derive(Debug, Clone, PartialEq)]
pub struct ContentPlanItem {
    pub id: String,
    pub title: String,
    pub character_name: String,
    /// 1-based position within its generation batch.
    pub journal_number: u32,
    pub content: String,
    pub image_concept: String,
    /// One of `pending`, `generating`, `completed`, `error`.
    pub status: String,
}

/// The character that narrates a content plan.
#[derive(Debug, Clone, PartialEq)]
pub struct CharacterPersona {
    pub name: String,
    pub description: String,
    pub personality_traits: Vec<String>,
}

/// A rendered illustration: an embedded data URI or a remote URL.
#[derive(Debug, Clone, PartialEq)]
pub struct GeneratedImage {
    pub id: String,
    pub content_id: String,
    pub url: String,
    pub local_path: Option<String>,
    pub width: u32,
    pub height: u32,
}

/// A request for a content plan.
#[derive(Debug, Clone, PartialEq)]
pub struct ContentGenerationRequest {
    pub keyword: String,
    pub prompt_id: String,
    pub count: u32,
    pub api_key: Option<String>,
    pub llm_provider: Option<String>,
    pub research_data: Option<String>,
}

/// A request for one illustration.
#[derive(Debug, Clone, PartialEq)]
pub struct ImageGenerationRequest {
    pub content_id: String,
    pub image_concept: String,
    pub style_prompt: String,
    pub style_image_path: Option<String>,
}

// ---------------------------------------------------------------------------
// Projects
// ---------------------------------------------------------------------------

/// The persisted unit of work.
#[derive(Debug, Clone, PartialEq)]
pub struct Project {
    pub id: String,
    pub name: String,
    pub created_at: String,
    pub updated_at: String,
    pub research_items: Vec<ProjectResearchItem>,
    pub content_groups: Vec<ProjectContentGroup>,
    pub generated_images: Vec<ProjectGeneratedImageRecord>,
}

/// The index entry that summarises one project.
#[derive(Debug, Clone, PartialEq)]
pub struct ProjectMeta {
    pub id: String,
    pub name: String,
    pub created_at: String,
    pub updated_at: String,
    pub research_count: usize,
    pub content_count: usize,
    pub image_count: usize,
}

/// A research result kept in a project.
#[derive(Debug, Clone, PartialEq)]
pub struct ProjectResearchItem {
    pub id: String,
    pub prompt: String,
    pub title: String,
    pub summary: String,
    pub full_report: ProjectResearchReport,
    pub created_at: String,
    pub updated_at: String,
}

/// The full body of a research item.
#[derive(Debug, Clone, PartialEq)]
pub struct ProjectResearchReport {
    pub ingredient_analysis: Option<ProjectIngredientAnalysis>,
    pub papers: Vec<ProjectPaperResult>,
    pub sources: Vec<ProjectSourceReference>,
}

/// An ingredient analysis as stored in a project.
#[derive(Debug, Clone, PartialEq)]
pub struct ProjectIngredientAnalysis {
    pub ingredient_name: String,
    pub korean_name: String,
    pub ewg_score: Option<i32>,
    pub benefits: Vec<String>,
    pub cautions: Vec<String>,
    pub recommended_concentration: Option<String>,
}

/// A paper reference as stored in a project.
#[derive(Debug, Clone, PartialEq)]
pub struct ProjectPaperResult {
    pub id: String,
    pub title: String,
    pub authors: Vec<String>,
    pub abstract_text: String,
    pub publication_date: String,
    pub source: String,
    pub citation_count: Option<i32>,
    pub doi: Option<String>,
    pub url: Option<String>,
}

/// A generic source reference; `cited_in` names the citing item.
#[derive(Debug, Clone, PartialEq)]
pub struct ProjectSourceReference {
    pub id: String,
    pub title: String,
    pub url: String,
    pub source_type: String,
    pub cited_in: String,
}

/// A named group of drafted posts.
#[derive(Debug, Clone, PartialEq)]
pub struct ProjectContentGroup {
    pub id: String,
    pub name: String,
    pub research_item_ids: Vec<String>,
    pub contents: Vec<ProjectContentItem>,
    pub created_at: String,
}

/// A drafted post as stored in a project.
#[derive(Debug, Clone, PartialEq)]
pub struct ProjectContentItem {
    pub id: String,
    pub title: String,
    pub character_name: String,
    pub journal_number: i32,
    pub content: String,
    pub image_concept: String,
    pub status: String,
    pub generated_image_id: Option<String>,
}

/// A rendered image accepted into a project.
#[derive(Debug, Clone, PartialEq)]
pub struct ProjectGeneratedImageRecord {
    pub id: String,
    pub content_id: String,
    pub content_group_id: String,
    pub image_url: String,
    pub local_path: String,
    pub created_at: String,
}

// ---------------------------------------------------------------------------
// Settings
// ---------------------------------------------------------------------------

/// A named output size.
#[derive(Debug, Clone, PartialEq)]
pub struct ImageSizePreset {
    pub id: String,
    pub name: String,
    pub width: u32,
    pub height: u32,
}

/// Credentials per provider.
#[derive(Debug, Clone, PartialEq)]
pub struct ApiKeys {
    pub google: Option<String>,
    pub openai: Option<String>,
    pub anthropic: Option<String>,
}

/// The providers chosen for text and for images.
#[derive(Debug, Clone, PartialEq)]
pub struct ApiSelection {
    /// `openai`, `anthropic` or `google`.
    pub content_generation: String,
    /// `openai` or `google`.
    pub image_generation: String,
}

/// A saved image style prompt.
#[derive(Debug, Clone, PartialEq)]
pub struct ImagePrompt {
    pub id: String,
    pub name: String,
    pub prompt: String,
    pub style_image_path: Option<String>,
    pub preview_image_path: Option<String>,
    pub is_default: bool,
}

/// A saved content prompt.
#[derive(Debug, Clone, PartialEq)]
pub struct ContentPrompt {
    pub id: String,
    pub name: String,
    pub prompt: String,
    pub is_default: bool,
}

// ---------------------------------------------------------------------------
// Research lookups
// ---------------------------------------------------------------------------

/// A paper as read from a PubMed record.
#[derive(Debug, Clone, PartialEq)]
pub struct PaperInfo {
    pub pmid: String,
    pub title: String,
    pub authors: Vec<String>,
    pub abstract_text: String,
    pub year: String,
}

/// A work found through CrossRef.
#[derive(Debug, Clone, PartialEq)]
pub struct ConferenceResult {
    pub id: String,
    pub title: String,
    pub authors: Vec<String>,
    pub published_date: String,
    pub source: String,
    pub doi: Option<String>,
    pub url: Option<String>,
}

/// A news item that mentions the keyword.
#[derive(Debug, Clone, PartialEq)]
pub struct NewsResult {
    pub title: String,
    pub description: String,
    pub link: String,
    pub pub_date: String,
    pub source: String,
}

/// The body of a web search response.
#[derive(Debug, Clone, PartialEq)]
pub struct SearchResponse {
    pub items: Option<Vec<SearchResult>>,
}

/// One web search hit.
#[derive(Debug, Clone, PartialEq)]
pub struct SearchResult {
    pub title: String,
    pub link: String,
    pub snippet: Option<String>,
}

/// A web search hit as presented to the user.
#[derive(Debug, Clone, PartialEq)]
pub struct WebSearchResult {
    pub title: String,
    pub link: String,
    pub snippet: String,
}

/// A CrossRef work as presented to the user.
#[derive(Debug, Clone, PartialEq)]
pub struct ConferenceSearchResult {
    pub id: String,
    pub title: String,
    pub authors: Vec<String>,
    pub published_date: String,
    pub source: String,
    pub doi: Option<String>,
    pub url: Option<String>,
}

/// A news item as presented to the user.
#[derive(Debug, Clone, PartialEq)]
pub struct NewsSearchResult {
    pub title: String,
    pub description: String,
    pub link: String,
    pub pub_date: String,
    pub source: String,
}

} // verus!
