//! Research: turning literature, web and news lookups into the records the
//! application shows, and the ingredient analysis built on them.
use vstd::prelude::*;
use crate::content::API_KEY_REQUIRED;
use crate::models::{
    ConferenceResult, ConferenceSearchResult, IngredientAnalysis, NewsResult, NewsSearchResult,
    PaperInfo, PaperResult, SearchResult, WebSearchResult,
};
use crate::provider::{TextProvider, opt_view, text_provider, text_provider_for};
use crate::text::{decimal, is_blank, is_blank_str, owned, push_decimal, push_str};
use crate::thirdparty::{is_hyphenated_uuid, new_uuid, url_encode, url_encoded};

verus! {

// ---------------------------------------------------------------------------
// Papers
// ---------------------------------------------------------------------------

/// The PubMed page of an article.
pub open spec fn pubmed_link(pmid: Seq<char>) -> Seq<char> {
    "https://pubmed.ncbi.nlm.nih.gov/"@ + pmid + "/"@
}

/// The user-facing record of a PubMed paper.
pub open spec fn is_paper_result(r: PaperResult, p: PaperInfo) -> bool {
    &&& is_hyphenated_uuid(r.id@)
    &&& r.title == p.title
    &&& r.authors@ == p.authors@
    &&& r.abstract_text == p.abstract_text
    &&& r.publication_date == p.year
    &&& r.source@ == "PubMed"@
    &&& r.citation_count is None
    &&& r.doi matches Some(d) && d@ == pubmed_link(p.pmid@)
}

fn copy_strings(v: &Vec<String>) -> (r: Vec<String>)
    ensures
        r@ == v@,
{
    let mut out: Vec<String> = Vec::new();
    let mut i: usize = 0;
    while i < v.len()
        invariant
            i <= v@.len(),
            out@ == v@.take(i as int),
        decreases v@.len() - i,
    {
        out.push(v[i].clone());
        assert(v@.take(i + 1) =~= v@.take(i as int).push(v@[i as int]));
        i = i + 1;
    }
    assert(v@.take(i as int) =~= v@);
    out
}

/// The record of a PubMed paper, under a fresh id.
pub fn paper_result(p: &PaperInfo) -> (r: PaperResult)
    ensures
        is_paper_result(r, *p),
{
    let mut doi = owned("https://pubmed.ncbi.nlm.nih.gov/");
    push_str(&mut doi, p.pmid.as_str());
    push_str(&mut doi, "/");
    PaperResult {
        id: new_uuid(),
        title: p.title.clone(),
        authors: copy_strings(&p.authors),
        abstract_text: p.abstract_text.clone(),
        publication_date: p.year.clone(),
        source: owned("PubMed"),
        citation_count: None,
        doi: Some(doi),
    }
}

/// The records of the first `limit` papers, in order.
pub fn paper_results(papers: &Vec<PaperInfo>, limit: usize) -> (r: Vec<PaperResult>)
    ensures
        r@.len() == if papers@.len() < limit {
            papers@.len()
        } else {
            limit as nat
        },
        forall|i: int| 0 <= i < r@.len() ==> is_paper_result(#[trigger] r@[i], papers@[i]),
{
    let n = if papers.len() < limit {
        papers.len()
    } else {
        limit
    };
    let mut out: Vec<PaperResult> = Vec::new();
    let mut i: usize = 0;
    while i < n
        invariant
            n <= papers@.len(),
            i <= n,
            out@.len() == i,
            forall|k: int| 0 <= k < i ==> is_paper_result(#[trigger] out@[k], papers@[k]),
        decreases n - i,
    {
        out.push(paper_result(&papers[i]));
        i = i + 1;
    }
    out
}

/// The PubMed query for papers on a cosmetic ingredient.
pub open spec fn ingredient_query(ingredient: Seq<char>) -> Seq<char> {
    "("@ + ingredient + " OR "@ + ingredient + " cosmetic OR "@ + ingredient + " skin OR "@
        + ingredient + " skincare) AND (safety OR efficacy OR benefit)"@
}

/// Builds the PubMed query for papers on a cosmetic ingredient.
pub fn search_ingredient_query(ingredient: &str) -> (r: String)
    ensures
        r@ == ingredient_query(ingredient@),
{
    let mut q = owned("(");
    push_str(&mut q, ingredient);
    push_str(&mut q, " OR ");
    push_str(&mut q, ingredient);
    push_str(&mut q, " cosmetic OR ");
    push_str(&mut q, ingredient);
    push_str(&mut q, " skin OR ");
    push_str(&mut q, ingredient);
    push_str(&mut q, " skincare) AND (safety OR efficacy OR benefit)");
    q
}

/// The base of the PubMed E-utilities.
pub const PUBMED_BASE: &'static str = "https://eutils.ncbi.nlm.nih.gov/entrez/eutils";

/// The PubMed search request for `query`, at most `limit` ids by relevance.
pub open spec fn pubmed_search_url_for(query: Seq<char>, limit: nat) -> Seq<char> {
    PUBMED_BASE@ + "/esearch.fcgi?db=pubmed&term="@ + url_encoded(query) + "&retmax="@ + decimal(
        limit,
    ) + "&retmode=json&sort=relevance"@
}

/// Builds the PubMed search request.
pub fn pubmed_search_url(query: &str, limit: u32) -> (r: String)
    ensures
        r@ == pubmed_search_url_for(query@, limit as nat),
{
    let mut u = owned(PUBMED_BASE);
    push_str(&mut u, "/esearch.fcgi?db=pubmed&term=");
    let q = url_encode(query);
    push_str(&mut u, q.as_str());
    push_str(&mut u, "&retmax=");
    push_decimal(&mut u, limit as u64);
    push_str(&mut u, "&retmode=json&sort=relevance");
    u
}

/// `ids` joined with `sep` between neighbours.
pub open spec fn joined_with(ids: Seq<String>, sep: Seq<char>) -> Seq<char>
    decreases ids.len(),
{
    if ids.len() == 0 {
        Seq::empty()
    } else if ids.len() == 1 {
        ids[0]@
    } else {
        joined_with(ids.drop_last(), sep) + sep + ids.last()@
    }
}

/// Joins strings with a separator between neighbours.
pub fn join_strings(ids: &Vec<String>, sep: &str) -> (r: String)
    ensures
        r@ == joined_with(ids@, sep@),
{
    let mut r = String::new();
    let mut i: usize = 0;
    while i < ids.len()
        invariant
            i <= ids@.len(),
            r@ == joined_with(ids@.take(i as int), sep@),
        decreases ids@.len() - i,
    {
        assert(ids@.take(i + 1).drop_last() =~= ids@.take(i as int));
        if i > 0 {
            push_str(&mut r, sep);
        }
        push_str(&mut r, ids[i].as_str());
        i = i + 1;
    }
    assert(ids@.take(i as int) =~= ids@);
    r
}

/// The PubMed fetch request for the articles `ids`.
pub fn pubmed_fetch_url(ids: &Vec<String>) -> (r: String)
    ensures
        r@ == PUBMED_BASE@ + "/efetch.fcgi?db=pubmed&id="@ + joined_with(ids@, ","@)
            + "&retmode=xml"@,
{
    let mut u = owned(PUBMED_BASE);
    push_str(&mut u, "/efetch.fcgi?db=pubmed&id=");
    let joined = join_strings(ids, ",");
    push_str(&mut u, joined.as_str());
    push_str(&mut u, "&retmode=xml");
    u
}

// ---------------------------------------------------------------------------
// Ingredient analysis
// ---------------------------------------------------------------------------

/// The message for a blank ingredient name.
pub const INGREDIENT_REQUIRED: &'static str = "성분명을 입력해주세요.";

/// The number of papers looked up for an analysis.
pub const ANALYSIS_PAPER_LIMIT: u32 = 5;

/// The number of papers attached to an analysis.
pub const ATTACHED_PAPERS: usize = 3;

/// Checks an analysis request and selects the text provider. A blank name,
/// then a missing credential, are refused before any lookup.
pub fn prepare_ingredient_analysis(
    ingredient_name: &str,
    api_key: Option<String>,
    llm_provider: Option<String>,
) -> (r: Result<(TextProvider, String), String>)
    ensures
        r is Err <==> (is_blank(ingredient_name@) || api_key is None),
        r matches Err(m) ==> m@ == if is_blank(ingredient_name@) {
            INGREDIENT_REQUIRED@
        } else {
            API_KEY_REQUIRED@
        },
        r matches Ok((p, k)) ==> p == text_provider_for(opt_view(llm_provider)) && k
            == api_key->0,
{
    if is_blank_str(ingredient_name) {
        return Err(owned(INGREDIENT_REQUIRED));
    }
    match api_key {
        Some(k) => Ok((text_provider(&llm_provider), k)),
        None => Err(owned(API_KEY_REQUIRED)),
    }
}

/// The context line for papers when none were found.
pub const NO_PAPERS_FOUND: &'static str = "관련 논문을 찾지 못했습니다.";

/// Separates paper summaries in the context.
pub const SUMMARY_SEPARATOR: &'static str = "\n\n---\n\n";

/// The summary of one paper: its title and abstract.
pub open spec fn paper_summary(p: PaperInfo) -> Seq<char> {
    "제목: "@ + p.title@ + "\n초록: "@ + p.abstract_text@
}

/// The summaries of papers joined by the separator.
pub open spec fn joined_summaries(papers: Seq<PaperInfo>) -> Seq<char>
    decreases papers.len(),
{
    if papers.len() == 0 {
        Seq::empty()
    } else if papers.len() == 1 {
        paper_summary(papers[0])
    } else {
        joined_summaries(papers.drop_last()) + SUMMARY_SEPARATOR@ + paper_summary(papers.last())
    }
}

/// The paper context of an analysis prompt.
pub open spec fn papers_context_for(papers: Seq<PaperInfo>) -> Seq<char> {
    if papers.len() == 0 {
        NO_PAPERS_FOUND@
    } else {
        joined_summaries(papers)
    }
}

/// Builds the paper context of an analysis prompt.
pub fn papers_context(papers: &Vec<PaperInfo>) -> (r: String)
    ensures
        r@ == papers_context_for(papers@),
{
    if papers.len() == 0 {
        return owned(NO_PAPERS_FOUND);
    }
    let mut r = String::new();
    let mut i: usize = 0;
    while i < papers.len()
        invariant
            i <= papers@.len(),
            r@ == joined_summaries(papers@.take(i as int)),
        decreases papers@.len() - i,
    {
        assert(papers@.take(i + 1).drop_last() =~= papers@.take(i as int));
        if i > 0 {
            push_str(&mut r, SUMMARY_SEPARATOR);
        }
        push_str(&mut r, "제목: ");
        push_str(&mut r, papers[i].title.as_str());
        push_str(&mut r, "\n초록: ");
        push_str(&mut r, papers[i].abstract_text.as_str());
        i = i + 1;
    }
    assert(papers@.take(i as int) =~= papers@);
    r
}

/// The system prompt of an ingredient analysis.
pub const ANALYSIS_SYSTEM_PROMPT: &'static str = "당신은 화장품 성분 전문가입니다. 주어진 성분과 관련 논문 정보를 바탕으로 상세한 분석을 제공해주세요.
응답은 반드시 다음 JSON 형식으로만 작성하세요:
{
  \"ewg_score\": 1-10 사이 숫자 또는 null,
  \"benefits\": [\"효능1\", \"효능2\", ...],
  \"cautions\": [\"주의사항1\", \"주의사항2\", ...],
  \"recommended_concentration\": \"권장 농도 (예: 1-5%)\" 또는 null
}
다른 설명 없이 JSON만 응답해주세요.";

/// The user prompt of an ingredient analysis.
pub open spec fn analysis_prompt_for(name: Seq<char>, context: Seq<char>) -> Seq<char> {
    "성분명: "@ + name + "\n\n관련 논문 정보:\n"@ + context + "\n\n위 정보를 바탕으로 이 성분을 분석해주세요."@
}

/// Builds the user prompt of an ingredient analysis.
pub fn ingredient_prompt(name: &str, context: &str) -> (r: String)
    ensures
        r@ == analysis_prompt_for(name@, context@),
{
    let mut r = owned("성분명: ");
    push_str(&mut r, name);
    push_str(&mut r, "\n\n관련 논문 정보:\n");
    push_str(&mut r, context);
    push_str(&mut r, "\n\n위 정보를 바탕으로 이 성분을 분석해주세요.");
    r
}

/// The fields of an analysis as the model returned them; each may be absent.
#[derive(Debug, Clone, PartialEq)]
pub struct IngredientDraft {
    pub ewg_score: Option<u8>,
    pub benefits: Option<Vec<String>>,
    pub cautions: Option<Vec<String>>,
    pub recommended_concentration: Option<String>,
}

/// The benefit listed when the model's answer does not decode.
pub const FALLBACK_BENEFIT: &'static str = "피부 보습 효과";

/// The caution listed when the model's answer does not decode.
pub const FALLBACK_CAUTION: &'static str = "특별한 주의사항 없음";

/// A list that is absent counts as empty.
pub open spec fn list_or_empty(l: Option<Vec<String>>) -> Seq<String> {
    match l {
        Some(v) => v@,
        None => Seq::empty(),
    }
}

fn single(s: &str) -> (r: Vec<String>)
    ensures
        r@.len() == 1,
        r@[0]@ == s@,
{
    let mut v: Vec<String> = Vec::new();
    v.push(owned(s));
    v
}

/// Assembles the analysis of `ingredient_name`. `decoded` is `None` when the
/// model's answer did not decode; a fixed default stands in then (one benefit,
/// one caution, no score, no concentration). The first three papers found are
/// attached either way.
pub fn parse_ingredient_analysis(
    ingredient_name: &str,
    decoded: Option<IngredientDraft>,
    papers: &Vec<PaperInfo>,
) -> (r: IngredientAnalysis)
    ensures
        r.ingredient_name@ == ingredient_name@,
        r.korean_name@ == ingredient_name@,
        decoded matches Some(d) ==> {
            &&& r.ewg_score == d.ewg_score
            &&& r.benefits@ == list_or_empty(d.benefits)
            &&& r.cautions@ == list_or_empty(d.cautions)
            &&& r.recommended_concentration == d.recommended_concentration
        },
        decoded is None ==> {
            &&& r.ewg_score is None
            &&& r.benefits@.len() == 1 && r.benefits@[0]@ == FALLBACK_BENEFIT@
            &&& r.cautions@.len() == 1 && r.cautions@[0]@ == FALLBACK_CAUTION@
            &&& r.recommended_concentration is None
        },
        r.related_papers@.len() == if papers@.len() < ATTACHED_PAPERS {
            papers@.len()
        } else {
            ATTACHED_PAPERS as nat
        },
        forall|i: int|
            0 <= i < r.related_papers@.len() ==> is_paper_result(
                #[trigger] r.related_papers@[i],
                papers@[i],
            ),
{
    let (ewg_score, benefits, cautions, recommended_concentration) = match decoded {
        Some(d) => (
            d.ewg_score,
            match d.benefits {
                Some(b) => b,
                None => Vec::new(),
            },
            match d.cautions {
                Some(c) => c,
                None => Vec::new(),
            },
            d.recommended_concentration,
        ),
        None => (None, single(FALLBACK_BENEFIT), single(FALLBACK_CAUTION), None),
    };
    IngredientAnalysis {
        ingredient_name: owned(ingredient_name),
        korean_name: owned(ingredient_name),
        ewg_score,
        benefits,
        cautions,
        recommended_concentration,
        related_papers: paper_results(papers, ATTACHED_PAPERS),
    }
}

// ---------------------------------------------------------------------------
// Web, conference and news results
// ---------------------------------------------------------------------------

/// The Google Custom Search request for `query`, ten results.
pub open spec fn web_search_url_for(key: Seq<char>, cx: Seq<char>, query: Seq<char>) -> Seq<char> {
    "https://www.googleapis.com/customsearch/v1?key="@ + key + "&cx="@ + cx + "&q="@
        + url_encoded(query) + "&num=10"@
}

/// Builds the Google Custom Search request.
pub fn web_search_url(key: &str, cx: &str, query: &str) -> (r: String)
    ensures
        r@ == web_search_url_for(key@, cx@, query@),
{
    let mut u = owned("https://www.googleapis.com/customsearch/v1?key=");
    push_str(&mut u, key);
    push_str(&mut u, "&cx=");
    push_str(&mut u, cx);
    push_str(&mut u, "&q=");
    let q = url_encode(query);
    push_str(&mut u, q.as_str());
    push_str(&mut u, "&num=10");
    u
}

/// A web hit as shown: a missing snippet is empty.
pub open spec fn is_web_result_of(w: WebSearchResult, r: SearchResult) -> bool {
    &&& w.title == r.title
    &&& w.link == r.link
    &&& w.snippet@ == match r.snippet {
        Some(s) => s@,
        None => Seq::empty(),
    }
}

/// A web hit as shown.
pub fn web_search_result(r: SearchResult) -> (w: WebSearchResult)
    ensures
        is_web_result_of(w, r),
{
    WebSearchResult {
        title: r.title,
        link: r.link,
        snippet: match r.snippet {
            Some(s) => s,
            None => String::new(),
        },
    }
}

/// The web hits of a search as shown, in order.
pub fn web_search_results(hits: Vec<SearchResult>) -> (r: Vec<WebSearchResult>)
    ensures
        r@.len() == hits@.len(),
        forall|i: int| 0 <= i < r@.len() ==> is_web_result_of(#[trigger] r@[i], hits@[i]),
{
    let ghost all = hits@;
    let mut rest = hits;
    let mut out: Vec<WebSearchResult> = Vec::new();
    while rest.len() > 0
        invariant
            out@.len() + rest@.len() == all.len(),
            rest@ == all.subrange(out@.len() as int, all.len() as int),
            forall|i: int| 0 <= i < out@.len() ==> is_web_result_of(#[trigger] out@[i], all[i]),
        decreases rest@.len(),
    {
        let h = rest.remove(0);
        out.push(web_search_result(h));
        assert(rest@ =~= all.subrange(out@.len() as int, all.len() as int));
    }
    out
}

/// A CrossRef work as shown.
pub fn conference_search_result(r: ConferenceResult) -> (c: ConferenceSearchResult)
    ensures
        c.id == r.id && c.title == r.title && c.authors == r.authors && c.published_date
            == r.published_date && c.source == r.source && c.doi == r.doi && c.url == r.url,
{
    ConferenceSearchResult {
        id: r.id,
        title: r.title,
        authors: r.authors,
        published_date: r.published_date,
        source: r.source,
        doi: r.doi,
        url: r.url,
    }
}

/// A news item as shown.
pub fn news_search_result(r: NewsResult) -> (n: NewsSearchResult)
    ensures
        n.title == r.title && n.description == r.description && n.link == r.link && n.pub_date
            == r.pub_date && n.source == r.source,
{
    NewsSearchResult {
        title: r.title,
        description: r.description,
        link: r.link,
        pub_date: r.pub_date,
        source: r.source,
    }
}

} // verus!
