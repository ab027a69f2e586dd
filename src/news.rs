//! News items from RSS feeds: markup removal, the keyword filter, and the
//! merge of several feeds into one list without repeated titles.
use vstd::prelude::*;
use crate::models::NewsResult;
use crate::order::{TextKeyed, in_order, lemma_first_with_key, sort_by_text_key, sorted_by_key, with_key};
use crate::text::{
    chars_of, contains_seq, lemma_lex_lt_total, lex_lt, lowercase_of, owned, replace_all,
    replace_chars, str_contains, str_eq, strip_tags, strip_tags_range, to_lowercase, trim,
    trim_chars,
};

verus! {

broadcast use vstd::seq_lib::group_to_multiset_ensures;

/// Text with its tags removed, the common entities decoded (`&amp;` first,
/// then `&lt;`, `&gt;`, `&quot;`, `&#39;`, `&nbsp;`), and trimmed.
pub open spec fn cleaned_html(s: Seq<char>) -> Seq<char> {
    let t0 = strip_tags(s);
    let t1 = replace_all(t0, "&amp;"@, "&"@);
    let t2 = replace_all(t1, "&lt;"@, "<"@);
    let t3 = replace_all(t2, "&gt;"@, ">"@);
    let t4 = replace_all(t3, "&quot;"@, "\""@);
    let t5 = replace_all(t4, "&#39;"@, "'"@);
    let t6 = replace_all(t5, "&nbsp;"@, " "@);
    trim(t6)
}

/// Removes markup from a feed's description.
pub fn clean_html(text: &str) -> (r: String)
    ensures
        r@ == cleaned_html(text@),
{
    proof {
        reveal_strlit("&amp;");
        reveal_strlit("&lt;");
        reveal_strlit("&gt;");
        reveal_strlit("&quot;");
        reveal_strlit("&#39;");
        reveal_strlit("&nbsp;");
    }
    let cs = chars_of(text);
    let t0 = strip_tags_range(cs.as_slice(), 0, cs.len());
    assert(cs@.subrange(0, cs@.len() as int) =~= cs@);
    let t1 = replace_chars(t0.as_slice(), "&amp;", "&");
    let t2 = replace_chars(t1.as_slice(), "&lt;", "<");
    let t3 = replace_chars(t2.as_slice(), "&gt;", ">");
    let t4 = replace_chars(t3.as_slice(), "&quot;", "\"");
    let t5 = replace_chars(t4.as_slice(), "&#39;", "'");
    let t6 = replace_chars(t5.as_slice(), "&nbsp;", " ");
    trim_chars(t6.as_slice())
}

/// One entry of an RSS channel; every field may be missing.
#[derive(Debug, Clone, PartialEq)]
pub struct RssItem {
    pub title: Option<String>,
    pub description: Option<String>,
    pub link: Option<String>,
    pub pub_date: Option<String>,
}

/// A text that may be missing, as characters (missing is empty).
pub open spec fn text_or_empty(o: Option<String>) -> Seq<char> {
    match o {
        Some(s) => s@,
        None => Seq::empty(),
    }
}

/// An entry mentions the keyword when its lower-cased title or description
/// contains the lower-cased keyword.
pub open spec fn mentions(item: RssItem, keyword: Seq<char>) -> bool {
    contains_seq(lowercase_of(text_or_empty(item.title)), lowercase_of(keyword)) || contains_seq(
        lowercase_of(text_or_empty(item.description)),
        lowercase_of(keyword),
    )
}

/// The entries that mention the keyword, in feed order.
pub open spec fn mentioning(items: Seq<RssItem>, keyword: Seq<char>) -> Seq<RssItem>
    decreases items.len(),
{
    if items.len() == 0 {
        Seq::empty()
    } else if mentions(items.last(), keyword) {
        mentioning(items.drop_last(), keyword).push(items.last())
    } else {
        mentioning(items.drop_last(), keyword)
    }
}

/// The news record of an entry: missing title `제목 없음`, description
/// cleaned of markup, missing date `Unknown`.
pub open spec fn is_news_of(n: NewsResult, item: RssItem, source: Seq<char>) -> bool {
    &&& n.title@ == match item.title {
        Some(t) => t@,
        None => "제목 없음"@,
    }
    &&& n.description@ == cleaned_html(text_or_empty(item.description))
    &&& n.link@ == text_or_empty(item.link)
    &&& n.pub_date@ == match item.pub_date {
        Some(d) => d@,
        None => "Unknown"@,
    }
    &&& n.source@ == source
}

/// The most news items taken from one feed.
pub const PER_FEED_LIMIT: usize = 10;

fn opt_text(o: &Option<String>) -> (r: String)
    ensures
        r@ == text_or_empty(*o),
{
    match o {
        Some(s) => s.clone(),
        None => String::new(),
    }
}

fn mentions_keyword(item: &RssItem, keyword_lower: &str, keyword: Ghost<Seq<char>>) -> (r: bool)
    requires
        keyword_lower@ == lowercase_of(keyword@),
    ensures
        r == mentions(*item, keyword@),
{
    let title = opt_text(&item.title);
    let desc = opt_text(&item.description);
    let tl = to_lowercase(title.as_str());
    let dl = to_lowercase(desc.as_str());
    str_contains(tl.as_str(), keyword_lower) || str_contains(dl.as_str(), keyword_lower)
}

/// The news items of one feed that mention `keyword`, at most ten, in feed
/// order, credited to `source`.
pub fn news_from_feed(items: &Vec<RssItem>, keyword: &str, source: &str) -> (r: Vec<NewsResult>)
    ensures
        r@.len() == if mentioning(items@, keyword@).len() < PER_FEED_LIMIT {
            mentioning(items@, keyword@).len()
        } else {
            PER_FEED_LIMIT as nat
        },
        forall|i: int|
            0 <= i < r@.len() ==> is_news_of(
                #[trigger] r@[i],
                mentioning(items@, keyword@)[i],
                source@,
            ),
{
    let keyword_lower = to_lowercase(keyword);
    let ghost kw = keyword@;
    let mut out: Vec<NewsResult> = Vec::new();
    let mut i: usize = 0;
    while i < items.len() && out.len() < PER_FEED_LIMIT
        invariant
            keyword_lower@ == lowercase_of(kw),
            kw == keyword@,
            i <= items@.len(),
            out@.len() <= PER_FEED_LIMIT,
            out@.len() == if mentioning(items@.take(i as int), kw).len() < PER_FEED_LIMIT {
                mentioning(items@.take(i as int), kw).len()
            } else {
                PER_FEED_LIMIT as nat
            },
            forall|k: int|
                0 <= k < out@.len() ==> is_news_of(
                    #[trigger] out@[k],
                    mentioning(items@.take(i as int), kw)[k],
                    source@,
                ),
        decreases items@.len() - i,
    {
        assert(items@.take(i + 1).drop_last() =~= items@.take(i as int));
        let item = &items[i];
        if mentions_keyword(item, keyword_lower.as_str(), Ghost(kw)) {
            let title = match &item.title {
                Some(t) => t.clone(),
                None => owned("제목 없음"),
            };
            let desc = opt_text(&item.description);
            let n = NewsResult {
                title,
                description: clean_html(desc.as_str()),
                link: opt_text(&item.link),
                pub_date: match &item.pub_date {
                    Some(d) => d.clone(),
                    None => owned("Unknown"),
                },
                source: owned(source),
            };
            let ghost prev = out@;
            out.push(n);
            assert forall|k: int| 0 <= k < out@.len() implies is_news_of(
                #[trigger] out@[k],
                mentioning(items@.take(i + 1), kw)[k],
                source@,
            ) by {
                if k < prev.len() {
                    assert(out@[k] == prev[k]);
                }
            }
        }
        i = i + 1;
    }
    proof {
        if i < items@.len() {
            lemma_mentioning_prefix(items@, kw, i as int);
        } else {
            assert(items@.take(i as int) =~= items@);
        }
    }
    out
}

proof fn lemma_mentioning_prefix(items: Seq<RssItem>, keyword: Seq<char>, i: int)
    requires
        0 <= i <= items.len(),
    ensures
        mentioning(items.take(i), keyword).len() <= mentioning(items, keyword).len(),
        forall|k: int|
            0 <= k < mentioning(items.take(i), keyword).len() ==> #[trigger] mentioning(
                items.take(i),
                keyword,
            )[k] == mentioning(items, keyword)[k],
    decreases items.len() - i,
{
    if i < items.len() {
        lemma_mentioning_prefix(items, keyword, i + 1);
        assert(items.take(i + 1).drop_last() =~= items.take(i));
        let short = mentioning(items.take(i), keyword);
        let long = mentioning(items.take(i + 1), keyword);
        assert forall|k: int| 0 <= k < short.len() implies #[trigger] short[k] == long[k] by {}
    } else {
        assert(items.take(i) =~= items);
    }
}

impl TextKeyed for NewsResult {
    open spec fn text_key(&self) -> Seq<char> {
        self.title@
    }

    fn key_chars(&self) -> (r: Vec<char>) {
        chars_of(self.title.as_str())
    }
}

/// Orders news items by title and keeps one item per title: the result has
/// strictly increasing titles, has an item for every title given, and each
/// item kept is the first given with its title.
pub fn dedup_by_title(items: Vec<NewsResult>) -> (r: Vec<NewsResult>)
    ensures
        forall|i: int, j: int| 0 <= i < j < r@.len() ==> lex_lt(r@[i].title@, r@[j].title@),
        forall|i: int|
            0 <= i < r@.len() ==> with_key(items@, (#[trigger] r@[i]).title@).len() > 0 && r@[i]
                == with_key(items@, r@[i].title@)[0],
        forall|i: int| 0 <= i < r@.len() ==> items@.contains(#[trigger] r@[i]),
        forall|k: int|
            0 <= k < items@.len() ==> exists|i: int|
                0 <= i < r@.len() && (#[trigger] r@[i]).title@ == (#[trigger] items@[k]).title@,
{
    let ghost given = items@;
    let sorted = sort_by_text_key(items, false);
    let mut out: Vec<NewsResult> = Vec::new();
    let mut i: usize = 0;
    while i < sorted.len()
        invariant
            sorted@.to_multiset() == given.to_multiset(),
            sorted_by_key(sorted@, false),
            i <= sorted@.len(),
            i > 0 ==> out@.len() > 0 && out@.last().title@ == sorted@[i - 1].title@,
            i == 0 ==> out@.len() == 0,
            forall|a: int, b: int| 0 <= a < b < out@.len() ==> lex_lt(out@[a].title@, out@[b].title@),
            forall|a: int| 0 <= a < out@.len() ==> sorted@.contains(#[trigger] out@[a]),
            forall|k: Seq<char>| #[trigger] with_key(sorted@, k) == with_key(given, k),
            forall|a: int|
                0 <= a < out@.len() ==> with_key(sorted@, (#[trigger] out@[a]).title@).len() > 0
                    && out@[a] == with_key(sorted@, out@[a].title@)[0],
            forall|k: int|
                0 <= k < i ==> exists|a: int|
                    0 <= a < out@.len() && (#[trigger] out@[a]).title@ == (
                    #[trigger] sorted@[k]).title@,
        decreases sorted@.len() - i,
    {
        let keep = if out.len() == 0 {
            true
        } else {
            let last = out.len() - 1;
            !str_eq(out[last].title.as_str(), sorted[i].title.as_str())
        };
        if keep {
            let ghost prev = out@;
            proof {
                if i > 0 {
                    let t_last = prev.last().title@;
                    let t_new = sorted@[i as int].title@;
                    assert(in_order(sorted@[i - 1], sorted@[i as int], false));
                    lemma_lex_lt_total(t_last, t_new);
                    assert forall|a: int| 0 <= a < prev.len() implies lex_lt(
                        prev[a].title@,
                        t_new,
                    ) by {
                        if a < prev.len() - 1 {
                            crate::text::lemma_lex_lt_transitive(prev[a].title@, t_last, t_new);
                        }
                    }
                }
            }
            proof {
                assert forall|j: int| 0 <= j < i implies sorted@[j].title@ != sorted@[i as int].title@ by {
                    let t_new = sorted@[i as int].title@;
                    let t_prev = sorted@[i - 1].title@;
                    assert(in_order(sorted@[i - 1], sorted@[i as int], false));
                    lemma_lex_lt_total(t_prev, t_new);
                    if j < i - 1 {
                        assert(in_order(sorted@[j], sorted@[i - 1], false));
                    }
                }
                lemma_first_with_key(sorted@, i as int);
            }
            out.push(copy_news(&sorted[i]));
            proof {
                assert(sorted@.contains(sorted@[i as int]));
                assert forall|k: int| 0 <= k < i + 1 implies exists|a: int|
                    0 <= a < out@.len() && (#[trigger] out@[a]).title@ == (
                    #[trigger] sorted@[k]).title@ by {
                    if k < i {
                        let a = choose|a: int|
                            0 <= a < prev.len() && (#[trigger] prev[a]).title@ == sorted@[k].title@;
                        assert(out@[a] == prev[a]);
                    } else {
                        assert(out@[out@.len() - 1] == sorted@[i as int]);
                    }
                }
            }
        } else {
            proof {
                assert forall|k: int| 0 <= k < i + 1 implies exists|a: int|
                    0 <= a < out@.len() && (#[trigger] out@[a]).title@ == (
                    #[trigger] sorted@[k]).title@ by {
                    if k == i {
                        assert(out@[out@.len() - 1].title@ == sorted@[k].title@);
                    }
                }
            }
        }
        i = i + 1;
    }
    proof {
        assert forall|a: int| 0 <= a < out@.len() implies given.contains(#[trigger] out@[a]) by {
            assert(sorted@.to_multiset().count(out@[a]) > 0);
        }
        assert forall|k: int| 0 <= k < given.len() implies exists|i2: int|
            0 <= i2 < out@.len() && (#[trigger] out@[i2]).title@ == (#[trigger] given[k]).title@ by {
            assert(given.contains(given[k]));
            assert(given.to_multiset().count(given[k]) > 0);
            assert(sorted@.contains(given[k]));
            let m = choose|m: int| 0 <= m < sorted@.len() && sorted@[m] == given[k];
            assert(exists|a: int| 0 <= a < out@.len() && (#[trigger] out@[a]).title@ == (
            #[trigger] sorted@[m]).title@);
        }
        assert forall|a: int| 0 <= a < out@.len() implies with_key(
            given,
            (#[trigger] out@[a]).title@,
        ).len() > 0 && out@[a] == with_key(given, out@[a].title@)[0] by {
            assert(with_key(sorted@, out@[a].title@) == with_key(given, out@[a].title@));
        }
    }
    out
}

/// A field-by-field copy of a news item.
pub fn copy_news(n: &NewsResult) -> (r: NewsResult)
    ensures
        r == *n,
{
    NewsResult {
        title: n.title.clone(),
        description: n.description.clone(),
        link: n.link.clone(),
        pub_date: n.pub_date.clone(),
        source: n.source.clone(),
    }
}

} // verus!
