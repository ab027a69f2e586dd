use moms_insta::crossref::{conference_result, crossref_search_url, CrossRefAuthor, CrossRefDate, CrossRefItem};
use moms_insta::models::{NewsResult, PaperInfo, SearchResult};
use moms_insta::news::{clean_html, dedup_by_title, news_from_feed, RssItem};
use moms_insta::pubmed::{extract_tag_content, parse_pubmed_xml};
use moms_insta::research::{
    ingredient_prompt, paper_result, papers_context, parse_ingredient_analysis,
    prepare_ingredient_analysis, pubmed_fetch_url, pubmed_search_url, search_ingredient_query,
    web_search_result, web_search_url, IngredientDraft,
};
use moms_insta::provider::TextProvider;

fn paper(pmid: &str, title: &str) -> PaperInfo {
    PaperInfo {
        pmid: pmid.to_string(),
        title: title.to_string(),
        authors: vec!["Kim J".to_string()],
        abstract_text: format!("{} abstract", title),
        year: "2021".to_string(),
    }
}

#[test]
fn tag_content_strips_inner_markup_and_trims() {
    let xml = "<A><ArticleTitle lang=\"en\"> Niacinamide <i>in</i> skin </ArticleTitle></A>";
    assert_eq!(extract_tag_content(xml, "ArticleTitle"), Some("Niacinamide in skin".to_string()));
    assert_eq!(extract_tag_content(xml, "Year"), None);
    assert_eq!(extract_tag_content("<Year>2020", "Year"), None);
}

#[test]
fn pubmed_articles_are_read_in_order() {
    let xml = "<PubmedArticleSet>\
        <PubmedArticle><PMID Version=\"1\">111</PMID><ArticleTitle>First</ArticleTitle>\
        <AbstractText>Abs one</AbstractText><PubDate><Year>2020</Year></PubDate>\
        <AuthorList><Author><LastName>Lee</LastName><Initials>SH</Initials></Author>\
        <Author><ForeName>X</ForeName></Author>\
        <Author><LastName>Park</LastName></Author></AuthorList></PubmedArticle>\
        <PubmedArticle><PMID>222</PMID></PubmedArticle></PubmedArticleSet>";
    let papers = parse_pubmed_xml(xml);
    assert_eq!(papers.len(), 2);
    assert_eq!(papers[0].pmid, "111");
    assert_eq!(papers[0].title, "First");
    assert_eq!(papers[0].abstract_text, "Abs one");
    assert_eq!(papers[0].year, "2020");
    assert_eq!(papers[0].authors, vec!["Lee SH".to_string(), "Park ".to_string()]);
    assert_eq!(papers[1].pmid, "222");
    assert_eq!(papers[1].title, "제목 없음");
    assert_eq!(papers[1].abstract_text, "초록 없음");
    assert_eq!(papers[1].year, "연도 미상");
    assert!(papers[1].authors.is_empty());
    assert!(parse_pubmed_xml("<nothing/>").is_empty());
}

#[test]
fn paper_record_links_to_pubmed() {
    let r = paper_result(&paper("42", "T"));
    assert_eq!(r.doi, Some("https://pubmed.ncbi.nlm.nih.gov/42/".to_string()));
    assert_eq!(r.source, "PubMed");
    assert_eq!(r.publication_date, "2021");
    assert_eq!(r.citation_count, None);
    assert_eq!(r.id.len(), 36);
}

#[test]
fn ingredient_query_and_urls() {
    assert_eq!(
        search_ingredient_query("retinol"),
        "(retinol OR retinol cosmetic OR retinol skin OR retinol skincare) AND (safety OR efficacy OR benefit)"
    );
    assert_eq!(
        pubmed_search_url("a b&c", 5),
        "https://eutils.ncbi.nlm.nih.gov/entrez/eutils/esearch.fcgi?db=pubmed&term=a%20b%26c&retmax=5&retmode=json&sort=relevance"
    );
    assert_eq!(
        pubmed_fetch_url(&vec!["1".to_string(), "22".to_string()]),
        "https://eutils.ncbi.nlm.nih.gov/entrez/eutils/efetch.fcgi?db=pubmed&id=1,22&retmode=xml"
    );
    assert_eq!(
        web_search_url("K", "CX", "비타민"),
        "https://www.googleapis.com/customsearch/v1?key=K&cx=CX&q=%EB%B9%84%ED%83%80%EB%AF%BC&num=10"
    );
    assert_eq!(
        crossref_search_url("skin care", 10),
        "https://api.crossref.org/works?query=skin%20care&rows=10&select=DOI,title,author,container-title,published,URL"
    );
}

#[test]
fn ingredient_analysis_checks() {
    assert_eq!(
        prepare_ingredient_analysis(" ", Some("k".into()), None).unwrap_err(),
        "성분명을 입력해주세요."
    );
    assert_eq!(
        prepare_ingredient_analysis("레티놀", None, None).unwrap_err(),
        "API 키가 설정되지 않았습니다."
    );
    let (p, k) = prepare_ingredient_analysis("레티놀", Some("k".into()), Some("google".into())).unwrap();
    assert_eq!(p, TextProvider::Google);
    assert_eq!(k, "k");
}

#[test]
fn papers_context_joins_summaries() {
    assert_eq!(papers_context(&vec![]), "관련 논문을 찾지 못했습니다.");
    assert_eq!(
        papers_context(&vec![paper("1", "A"), paper("2", "B")]),
        "제목: A\n초록: A abstract\n\n---\n\n제목: B\n초록: B abstract"
    );
    assert_eq!(
        ingredient_prompt("레티놀", "ctx"),
        "성분명: 레티놀\n\n관련 논문 정보:\nctx\n\n위 정보를 바탕으로 이 성분을 분석해주세요."
    );
}

#[test]
fn undecodable_analysis_uses_default_and_attaches_three_papers() {
    let papers: Vec<PaperInfo> = (0..5).map(|i| paper(&i.to_string(), "P")).collect();
    let a = parse_ingredient_analysis("레티놀", None, &papers);
    assert_eq!(a.ingredient_name, "레티놀");
    assert_eq!(a.korean_name, "레티놀");
    assert_eq!(a.ewg_score, None);
    assert_eq!(a.benefits, vec!["피부 보습 효과".to_string()]);
    assert_eq!(a.cautions, vec!["특별한 주의사항 없음".to_string()]);
    assert_eq!(a.recommended_concentration, None);
    assert_eq!(a.related_papers.len(), 3);
    assert_eq!(a.related_papers[2].doi, Some("https://pubmed.ncbi.nlm.nih.gov/2/".to_string()));
}

#[test]
fn decoded_analysis_is_kept() {
    let d = IngredientDraft {
        ewg_score: Some(2),
        benefits: Some(vec!["a".into(), "b".into()]),
        cautions: None,
        recommended_concentration: Some("1-5%".into()),
    };
    let a = parse_ingredient_analysis("x", Some(d), &vec![paper("9", "Q")]);
    assert_eq!(a.ewg_score, Some(2));
    assert_eq!(a.benefits, vec!["a".to_string(), "b".to_string()]);
    assert!(a.cautions.is_empty());
    assert_eq!(a.recommended_concentration, Some("1-5%".to_string()));
    assert_eq!(a.related_papers.len(), 1);
}

#[test]
fn web_hit_without_snippet() {
    let w = web_search_result(SearchResult { title: "t".into(), link: "l".into(), snippet: None });
    assert_eq!(w.snippet, "");
}

#[test]
fn clean_html_removes_tags_and_entities() {
    assert_eq!(clean_html("<p>A &amp; B&nbsp;</p>"), "A & B");
    assert_eq!(clean_html(" &lt;b&gt; &quot;q&quot; &#39;s "), "<b> \"q\" 's");
    assert_eq!(clean_html("&amp;lt;"), "<");
    assert_eq!(clean_html(""), "");
}

fn rss(title: Option<&str>, desc: Option<&str>) -> RssItem {
    RssItem {
        title: title.map(|t| t.to_string()),
        description: desc.map(|d| d.to_string()),
        link: Some("http://l".to_string()),
        pub_date: None,
    }
}

#[test]
fn feed_items_are_filtered_by_keyword() {
    let items = vec![
        rss(Some("Retinol news"), None),
        rss(Some("Other"), Some("<b>about RETINOL</b>")),
        rss(None, Some("nothing")),
        rss(None, Some("retinol again")),
    ];
    let found = news_from_feed(&items, "ReTiNoL", "CNN");
    assert_eq!(found.len(), 3);
    assert_eq!(found[0].title, "Retinol news");
    assert_eq!(found[1].description, "about RETINOL");
    assert_eq!(found[2].title, "제목 없음");
    assert_eq!(found[2].pub_date, "Unknown");
    assert_eq!(found[2].source, "CNN");
}

#[test]
fn feed_keeps_at_most_ten_items() {
    let items: Vec<RssItem> = (0..15).map(|i| rss(Some(&format!("skin {}", i)), None)).collect();
    let found = news_from_feed(&items, "skin", "s");
    assert_eq!(found.len(), 10);
    assert_eq!(found[9].title, "skin 9");
}

fn news(title: &str, source: &str) -> NewsResult {
    NewsResult {
        title: title.to_string(),
        description: String::new(),
        link: String::new(),
        pub_date: String::new(),
        source: source.to_string(),
    }
}

#[test]
fn news_sorted_by_title_without_repeats() {
    let merged = dedup_by_title(vec![news("b", "1"), news("a", "1"), news("b", "2"), news("c", "1")]);
    let titles: Vec<&str> = merged.iter().map(|n| n.title.as_str()).collect();
    assert_eq!(titles, vec!["a", "b", "c"]);
    assert_eq!(merged[1].source, "1");
    assert!(dedup_by_title(vec![]).is_empty());
}

#[test]
fn crossref_work_becomes_conference_record() {
    let item = CrossRefItem {
        doi: Some("10.1/x".into()),
        title: Some(vec!["Skin study".into(), "alt".into()]),
        author: Some(vec![
            CrossRefAuthor { given: Some("Ann".into()), family: Some("Lee".into()) },
            CrossRefAuthor { given: Some("".into()), family: Some("Kim".into()) },
            CrossRefAuthor { given: None, family: None },
        ]),
        container_title: None,
        published: Some(CrossRefDate { date_parts: Some(vec![vec![2023, 5, 1]]) }),
        url: None,
    };
    let c = conference_result(item);
    assert_eq!(c.id, "10.1/x");
    assert_eq!(c.title, "Skin study");
    assert_eq!(c.authors, vec!["Ann Lee".to_string(), "Kim".to_string(), "".to_string()]);
    assert_eq!(c.source, "Unknown");
    assert_eq!(c.published_date, "2023-5-1");
    assert_eq!(c.url, Some("https://doi.org/10.1/x".to_string()));
}

#[test]
fn crossref_work_with_nothing() {
    let c = conference_result(CrossRefItem {
        doi: None,
        title: None,
        author: None,
        container_title: Some(vec!["Conf".into()]),
        published: Some(CrossRefDate { date_parts: Some(vec![vec![-44]]) }),
        url: Some("http://u".into()),
    });
    assert_eq!(c.title, "제목 없음");
    assert_eq!(c.source, "Conf");
    assert_eq!(c.published_date, "-44");
    assert_eq!(c.url, Some("http://u".to_string()));
    assert_eq!(c.id.len(), 36);
    assert!(c.authors.is_empty());
}
