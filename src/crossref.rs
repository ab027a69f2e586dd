//! Works found through CrossRef, turned into conference records.
use vstd::prelude::*;
use crate::models::ConferenceResult;
use crate::text::{decimal, owned, push_decimal, push_signed_decimal, push_str, signed_decimal};
use crate::thirdparty::{is_hyphenated_uuid, new_uuid, url_encode, url_encoded};

verus! {

/// A contributor of a CrossRef work.
#[derive(Debug, Clone, PartialEq)]
pub struct CrossRefAuthor {
    pub given: Option<String>,
    pub family: Option<String>,
}

/// The publication date of a CrossRef work, as lists of year, month, day.
#[derive(Debug, Clone, PartialEq)]
pub struct CrossRefDate {
    pub date_parts: Option<Vec<Vec<i32>>>,
}

/// A CrossRef work; every field may be missing.
#[derive(Debug, Clone, PartialEq)]
pub struct CrossRefItem {
    pub doi: Option<String>,
    pub title: Option<Vec<String>>,
    pub author: Option<Vec<CrossRefAuthor>>,
    pub container_title: Option<Vec<String>>,
    pub published: Option<CrossRefDate>,
    pub url: Option<String>,
}

/// The CrossRef query for `query`, at most `limit` works.
pub open spec fn crossref_search_url_for(query: Seq<char>, limit: nat) -> Seq<char> {
    "https://api.crossref.org/works?query="@ + url_encoded(query) + "&rows="@ + decimal(limit)
        + "&select=DOI,title,author,container-title,published,URL"@
}

/// Builds the CrossRef query.
pub fn crossref_search_url(query: &str, limit: usize) -> (r: String)
    ensures
        r@ == crossref_search_url_for(query@, limit as nat),
{
    let mut u = owned("https://api.crossref.org/works?query=");
    let q = url_encode(query);
    push_str(&mut u, q.as_str());
    push_str(&mut u, "&rows=");
    push_decimal(&mut u, limit as u64);
    push_str(&mut u, "&select=DOI,title,author,container-title,published,URL");
    u
}

/// The first string of an optional list, or a default.
pub open spec fn first_or(l: Option<Vec<String>>, d: Seq<char>) -> Seq<char> {
    match l {
        Some(v) => if v@.len() > 0 {
            v@[0]@
        } else {
            d
        },
        None => d,
    }
}

fn first_string_or(l: &Option<Vec<String>>, d: &str) -> (r: String)
    ensures
        r@ == first_or(*l, d@),
{
    match l {
        Some(v) => if v.len() > 0 {
            v[0].clone()
        } else {
            owned(d)
        },
        None => owned(d),
    }
}

/// A contributor's name: the given name and the family name with a space,
/// or the family name alone when the given name is missing or empty.
pub open spec fn author_name(a: CrossRefAuthor) -> Seq<char> {
    let given = match a.given {
        Some(g) => g@,
        None => Seq::empty(),
    };
    let family = match a.family {
        Some(f) => f@,
        None => Seq::empty(),
    };
    if given.len() == 0 {
        family
    } else {
        given + " "@ + family
    }
}

fn author_text(a: &CrossRefAuthor) -> (r: String)
    ensures
        r@ == author_name(*a),
{
    let family = match &a.family {
        Some(f) => f.clone(),
        None => String::new(),
    };
    match &a.given {
        Some(g) => {
            if crate::text::chars_of(g.as_str()).len() == 0 {
                family
            } else {
                let mut r = g.clone();
                push_str(&mut r, " ");
                push_str(&mut r, family.as_str());
                r
            }
        },
        None => family,
    }
}

/// Date parts joined by `-`.
pub open spec fn joined_parts(parts: Seq<i32>) -> Seq<char>
    decreases parts.len(),
{
    if parts.len() == 0 {
        Seq::empty()
    } else if parts.len() == 1 {
        signed_decimal(parts[0] as int)
    } else {
        joined_parts(parts.drop_last()) + "-"@ + signed_decimal(parts.last() as int)
    }
}

/// The publication date of a work: its first list of date parts joined by
/// `-`, or `Unknown`.
pub open spec fn published_text(p: Option<CrossRefDate>) -> Seq<char> {
    match p {
        Some(d) => match d.date_parts {
            Some(dp) => if dp@.len() > 0 {
                joined_parts(dp@[0]@)
            } else {
                "Unknown"@
            },
            None => "Unknown"@,
        },
        None => "Unknown"@,
    }
}

fn join_parts(parts: &Vec<i32>) -> (r: String)
    ensures
        r@ == joined_parts(parts@),
{
    let mut r = String::new();
    let mut i: usize = 0;
    while i < parts.len()
        invariant
            i <= parts@.len(),
            r@ == joined_parts(parts@.take(i as int)),
        decreases parts@.len() - i,
    {
        assert(parts@.take(i + 1).drop_last() =~= parts@.take(i as int));
        if i > 0 {
            push_str(&mut r, "-");
        }
        push_signed_decimal(&mut r, parts[i]);
        i = i + 1;
    }
    assert(parts@.take(i as int) =~= parts@);
    r
}

fn published_date_text(p: &Option<CrossRefDate>) -> (r: String)
    ensures
        r@ == published_text(*p),
{
    match p {
        Some(d) => match &d.date_parts {
            Some(dp) => if dp.len() > 0 {
                join_parts(&dp[0])
            } else {
                owned("Unknown")
            },
            None => owned("Unknown"),
        },
        None => owned("Unknown"),
    }
}

/// The conference record of a CrossRef work: the first title (or `제목
/// 없음`), the contributors' names, the first container title (or
/// `Unknown`), the publication date, the DOI, the URL (or the DOI's link),
/// and the DOI as id (or a fresh one).
pub open spec fn is_conference_of(c: ConferenceResult, item: CrossRefItem) -> bool {
    &&& c.title@ == first_or(item.title, "제목 없음"@)
    &&& c.authors@.len() == match item.author {
        Some(v) => v@.len(),
        None => 0,
    }
    &&& forall|k: int|
        0 <= k < c.authors@.len() ==> #[trigger] c.authors@[k]@ == author_name(item.author->0@[k])
    &&& c.source@ == first_or(item.container_title, "Unknown"@)
    &&& c.published_date@ == published_text(item.published)
    &&& c.doi == item.doi
    &&& match item.url {
        Some(u) => c.url == Some(u),
        None => match item.doi {
            Some(d) => (c.url matches Some(u) && u@ == "https://doi.org/"@ + d@),
            None => c.url is None,
        },
    }
    &&& match item.doi {
        Some(d) => c.id == d,
        None => is_hyphenated_uuid(c.id@),
    }
}

/// Turns a CrossRef work into a conference record.
pub fn conference_result(item: CrossRefItem) -> (c: ConferenceResult)
    ensures
        is_conference_of(c, item),
{
    let title = first_string_or(&item.title, "제목 없음");
    let mut authors: Vec<String> = Vec::new();
    match &item.author {
        Some(list) => {
            let mut i: usize = 0;
            while i < list.len()
                invariant
                    item.author == Some(*list),
                    i <= list@.len(),
                    authors@.len() == i,
                    forall|k: int|
                        0 <= k < i ==> #[trigger] authors@[k]@ == author_name(list@[k]),
                decreases list@.len() - i,
            {
                authors.push(author_text(&list[i]));
                i = i + 1;
            }
        },
        None => {},
    }
    let source = first_string_or(&item.container_title, "Unknown");
    let published_date = published_date_text(&item.published);
    let url = match item.url {
        Some(u) => Some(u),
        None => match &item.doi {
            Some(d) => {
                let mut l = owned("https://doi.org/");
                push_str(&mut l, d.as_str());
                Some(l)
            },
            None => None,
        },
    };
    let id = match &item.doi {
        Some(d) => d.clone(),
        None => new_uuid(),
    };
    ConferenceResult { id, title, authors, published_date, source, doi: item.doi, url }
}

} // verus!
