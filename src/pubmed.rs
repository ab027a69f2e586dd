//! Reading paper records out of PubMed's XML answer. The reading is textual:
//! it looks for tags by name and takes the text between them.
use vstd::prelude::*;
use crate::models::PaperInfo;
use crate::text::{
    chars_of, find_from, first_from, lemma_first_from, owned, push_str, strip_tags,
    strip_tags_range, trim, trim_chars,
};

verus! {

/// The text of the first `tag` element of `xml`: from the first `<tag`, past
/// the next `>`, up to the next `</tag>`; inner tags removed and the result
/// trimmed.
pub open spec fn tag_content(xml: Seq<char>, tag: Seq<char>) -> Option<Seq<char>> {
    match first_from(xml, "<"@ + tag, 0) {
        None => None,
        Some(start) => match first_from(xml, ">"@, start) {
            None => None,
            Some(gt) => match first_from(xml, "</"@ + tag + ">"@, gt + 1) {
                None => None,
                Some(end) => Some(trim(strip_tags(xml.subrange(gt + 1, end)))),
            },
        },
    }
}

/// The text of an element, or a default where it is missing.
pub open spec fn or_text(o: Option<Seq<char>>, d: Seq<char>) -> Seq<char> {
    match o {
        Some(t) => t,
        None => d,
    }
}

fn tag_content_in(xml: &[char], tag: &str) -> (r: Option<String>)
    ensures
        r matches Some(t) ==> tag_content(xml@, tag@) == Some(t@),
        r is None ==> tag_content(xml@, tag@) is None,
{
    let mut open = owned("<");
    push_str(&mut open, tag);
    let mut close = owned("</");
    push_str(&mut close, tag);
    push_str(&mut close, ">");
    let oc = chars_of(open.as_str());
    let cc = chars_of(close.as_str());
    let gc = chars_of(">");
    let n = xml.len();
    match find_from(xml, oc.as_slice(), 0) {
        None => None,
        Some(start) => match find_from(xml, gc.as_slice(), start) {
            None => None,
            Some(gt) => {
                proof {
                    lemma_first_from(xml@, ">"@, start as int);
                }
                assert(gt < n) by {
                    reveal_strlit(">");
                }
                match find_from(xml, cc.as_slice(), gt + 1) {
                    None => None,
                    Some(end) => {
                        proof {
                            lemma_first_from(xml@, close@, gt + 1);
                        }
                        let stripped = strip_tags_range(xml, gt + 1, end);
                        Some(trim_chars(stripped.as_slice()))
                    },
                }
            },
        },
    }
}

/// The text of the first `tag` element of `xml`.
pub fn extract_tag_content(xml: &str, tag: &str) -> (r: Option<String>)
    ensures
        r matches Some(t) ==> tag_content(xml@, tag@) == Some(t@),
        r is None ==> tag_content(xml@, tag@) is None,
{
    let cs = chars_of(xml);
    tag_content_in(cs.as_slice(), tag)
}

/// The pieces of `s` that follow each occurrence of `sep` at or after
/// `from`, each up to the next occurrence or the end: what
/// `s.split(sep).skip(1)` yields for `from` 0.
pub open spec fn pieces_after(s: Seq<char>, sep: Seq<char>, from: int) -> Seq<Seq<char>>
    decreases s.len() + 1 - from,
{
    if from < 0 || sep.len() == 0 {
        Seq::empty()
    } else {
        match first_from(s, sep, from) {
            Some(i) => if i < from || i + sep.len() > s.len() {
                Seq::empty()
            } else {
                let start = i + sep.len();
                let end = match first_from(s, sep, start) {
                    Some(j) => j,
                    None => s.len() as int,
                };
                seq![s.subrange(start, end)] + pieces_after(s, sep, start)
            },
            None => Seq::empty(),
        }
    }
}

/// Cuts `s` into the pieces that follow each occurrence of `sep`.
pub fn split_after(s: &[char], sep: &str) -> (r: Vec<Vec<char>>)
    requires
        sep@.len() > 0,
    ensures
        r@.len() == pieces_after(s@, sep@, 0).len(),
        forall|k: int| 0 <= k < r@.len() ==> #[trigger] r@[k]@ == pieces_after(s@, sep@, 0)[k],
{
    let sc = chars_of(sep);
    let n = s.len();
    let mut out: Vec<Vec<char>> = Vec::new();
    let mut pos: usize = 0;
    let ghost whole = pieces_after(s@, sep@, 0);
    loop
        invariant
            sc@ == sep@,
            sep@.len() > 0,
            n == s@.len(),
            pos <= s@.len(),
            out@.len() + pieces_after(s@, sep@, pos as int).len() == whole.len(),
            forall|k: int| 0 <= k < out@.len() ==> #[trigger] out@[k]@ == whole[k],
            forall|k: int|
                0 <= k < pieces_after(s@, sep@, pos as int).len() ==> whole[out@.len() + k]
                    == pieces_after(s@, sep@, pos as int)[k],
        ensures
            out@.len() == whole.len(),
            forall|k: int| 0 <= k < out@.len() ==> #[trigger] out@[k]@ == whole[k],
        decreases s@.len() + 1 - pos,
    {
        proof {
            lemma_first_from(s@, sep@, pos as int);
        }
        match find_from(s, sc.as_slice(), pos) {
            None => {
                assert(pieces_after(s@, sep@, pos as int).len() == 0);
                break ;
            },
            Some(i) => {
                let start = i + sc.len();
                proof {
                    lemma_first_from(s@, sep@, start as int);
                }
                let end = match find_from(s, sc.as_slice(), start) {
                    Some(j) => j,
                    None => s.len(),
                };
                let mut piece: Vec<char> = Vec::new();
                let mut k = start;
                while k < end
                    invariant
                        start <= k <= end <= s@.len(),
                        piece@ == s@.subrange(start as int, k as int),
                    decreases end - k,
                {
                    piece.push(s[k]);
                    assert(s@.subrange(start as int, k + 1) =~= s@.subrange(
                        start as int,
                        k as int,
                    ).push(s@[k as int]));
                    k = k + 1;
                }
                let ghost here = pieces_after(s@, sep@, pos as int);
                let ghost next = pieces_after(s@, sep@, start as int);
                assert(here =~= seq![s@.subrange(start as int, end as int)] + next);
                let ghost before = out@.len();
                out.push(piece);
                assert forall|k2: int| 0 <= k2 < next.len() implies whole[out@.len() + k2]
                    == next[k2] by {
                    assert(here[k2 + 1] == next[k2]);
                }
                assert(out@[before as int]@ == whole[before as int]) by {
                    assert(here[0] == s@.subrange(start as int, end as int));
                }
                pos = start;
            },
        }
    }
    out
}

/// The author named in one `<Author` piece: last name, a space and the
/// initials, when the piece closes with `</Author>` and has a last name.
pub open spec fn author_entry(piece: Seq<char>) -> Option<Seq<char>> {
    match first_from(piece, "</Author>"@, 0) {
        None => None,
        Some(e) => {
            let author = piece.subrange(0, e);
            let last = or_text(tag_content(author, "LastName"@), Seq::empty());
            if last.len() == 0 {
                None
            } else {
                Some(last + " "@ + or_text(tag_content(author, "Initials"@), Seq::empty()))
            }
        },
    }
}

/// The authors named in a run of `<Author` pieces, in order.
pub open spec fn authors_from(pieces: Seq<Seq<char>>) -> Seq<Seq<char>>
    decreases pieces.len(),
{
    if pieces.len() == 0 {
        Seq::empty()
    } else {
        let rest = authors_from(pieces.drop_last());
        match author_entry(pieces.last()) {
            Some(a) => rest.push(a),
            None => rest,
        }
    }
}

/// The authors of an article's XML.
pub open spec fn authors_of(article: Seq<char>) -> Seq<Seq<char>> {
    authors_from(pieces_after(article, "<Author"@, 0))
}

fn tag_or(xml: &[char], tag: &str, default: &str) -> (r: String)
    ensures
        r@ == or_text(tag_content(xml@, tag@), default@),
{
    match tag_content_in(xml, tag) {
        Some(t) => t,
        None => owned(default),
    }
}

/// The authors named in an article's XML, as `Last Initials`.
pub fn extract_authors(xml: &[char]) -> (r: Vec<String>)
    ensures
        r@.len() == authors_of(xml@).len(),
        forall|k: int| 0 <= k < r@.len() ==> #[trigger] r@[k]@ == authors_of(xml@)[k],
{
    proof {
        reveal_strlit("<Author");
    }
    let pieces = split_after(xml, "<Author");
    let ghost ps = pieces_after(xml@, "<Author"@, 0);
    let closing = chars_of("</Author>");
    let mut out: Vec<String> = Vec::new();
    let mut i: usize = 0;
    while i < pieces.len()
        invariant
            pieces@.len() == ps.len(),
            forall|k: int| 0 <= k < pieces@.len() ==> #[trigger] pieces@[k]@ == ps[k],
            closing@ == "</Author>"@,
            i <= ps.len(),
            out@.len() == authors_from(ps.take(i as int)).len(),
            forall|k: int|
                0 <= k < out@.len() ==> #[trigger] out@[k]@ == authors_from(ps.take(i as int))[k],
        decreases ps.len() - i,
    {
        let piece = &pieces[i];
        assert(ps.take(i + 1).drop_last() =~= ps.take(i as int));
        assert(ps.take(i + 1).last() == piece@);
        match find_from(piece.as_slice(), closing.as_slice(), 0) {
            Some(e) => {
                proof {
                    lemma_first_from(piece@, "</Author>"@, 0);
                }
                let mut author: Vec<char> = Vec::new();
                let mut k: usize = 0;
                while k < e
                    invariant
                        e <= piece@.len(),
                        k <= e,
                        author@ == piece@.subrange(0, k as int),
                    decreases e - k,
                {
                    author.push(piece[k]);
                    assert(piece@.subrange(0, k + 1) =~= piece@.subrange(0, k as int).push(
                        piece@[k as int],
                    ));
                    k = k + 1;
                }
                let last = tag_or(author.as_slice(), "LastName", "");
                proof {
                    reveal_strlit("");
                }
                if chars_of(last.as_str()).len() > 0 {
                    let initials = tag_or(author.as_slice(), "Initials", "");
                    let mut name = last;
                    push_str(&mut name, " ");
                    push_str(&mut name, initials.as_str());
                    let ghost prev = out@;
                    out.push(name);
                    assert forall|k2: int| 0 <= k2 < out@.len() implies #[trigger] out@[k2]@
                        == authors_from(ps.take(i + 1))[k2] by {
                        if k2 < prev.len() {
                            assert(out@[k2] == prev[k2]);
                        }
                    }
                }
            },
            None => {
                proof {
                    lemma_first_from(piece@, "</Author>"@, 0);
                }
            },
        }
        i = i + 1;
    }
    assert(ps.take(i as int) =~= ps);
    out
}

/// The paper read from one article's XML; missing fields get their
/// defaults (an empty id, `제목 없음`, `초록 없음`, `연도 미상`).
pub open spec fn is_paper_of(p: PaperInfo, article: Seq<char>) -> bool {
    &&& p.pmid@ == or_text(tag_content(article, "PMID"@), Seq::empty())
    &&& p.title@ == or_text(tag_content(article, "ArticleTitle"@), "제목 없음"@)
    &&& p.abstract_text@ == or_text(tag_content(article, "AbstractText"@), "초록 없음"@)
    &&& p.year@ == or_text(tag_content(article, "Year"@), "연도 미상"@)
    &&& p.authors@.len() == authors_of(article).len()
    &&& forall|k: int| 0 <= k < p.authors@.len() ==> #[trigger] p.authors@[k]@ == authors_of(article)[k]
}

/// Reads the papers of a PubMed `efetch` answer: one per `<PubmedArticle>`,
/// in order.
pub fn parse_pubmed_xml(xml: &str) -> (r: Vec<PaperInfo>)
    ensures
        r@.len() == pieces_after(xml@, "<PubmedArticle>"@, 0).len(),
        forall|i: int|
            0 <= i < r@.len() ==> is_paper_of(
                #[trigger] r@[i],
                pieces_after(xml@, "<PubmedArticle>"@, 0)[i],
            ),
{
    proof {
        reveal_strlit("<PubmedArticle>");
    }
    let cs = chars_of(xml);
    let articles = split_after(cs.as_slice(), "<PubmedArticle>");
    let ghost arts = pieces_after(xml@, "<PubmedArticle>"@, 0);
    let mut papers: Vec<PaperInfo> = Vec::new();
    let mut i: usize = 0;
    while i < articles.len()
        invariant
            articles@.len() == arts.len(),
            forall|k: int| 0 <= k < articles@.len() ==> #[trigger] articles@[k]@ == arts[k],
            i <= arts.len(),
            papers@.len() == i,
            forall|k: int| 0 <= k < i ==> is_paper_of(#[trigger] papers@[k], arts[k]),
        decreases arts.len() - i,
    {
        let a = articles[i].as_slice();
        let paper = PaperInfo {
            pmid: tag_or(a, "PMID", ""),
            title: tag_or(a, "ArticleTitle", "제목 없음"),
            authors: extract_authors(a),
            abstract_text: tag_or(a, "AbstractText", "초록 없음"),
            year: tag_or(a, "Year", "연도 미상"),
        };
        proof {
            reveal_strlit("");
            assert(""@ =~= Seq::<char>::empty());
        }
        assert(is_paper_of(paper, arts[i as int]));
        papers.push(paper);
        i = i + 1;
    }
    papers
}

} // verus!
