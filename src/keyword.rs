//! Follow-up keyword suggestions.
use vstd::prelude::*;
use crate::models::KeywordSuggestion;
use crate::text::{is_blank, is_blank_str, owned, push_str};
use crate::thirdparty::{is_hyphenated_uuid, new_uuid};

verus! {

/// The suffix of the `i`-th suggestion.
pub open spec fn suggestion_suffix(i: int) -> Seq<char> {
    if i == 0 {
        " 효능"@
    } else if i == 1 {
        " 부작용"@
    } else if i == 2 {
        " 화장품"@
    } else if i == 3 {
        " 아기 피부"@
    } else {
        " 임산부"@
    }
}

/// The trend of the `i`-th suggestion.
pub open spec fn suggestion_trend(i: int) -> Seq<char> {
    if i == 0 || i == 4 {
        "hot"@
    } else if i == 1 || i == 3 {
        "rising"@
    } else {
        "stable"@
    }
}

fn suggestion(keyword: &str, suffix: &str, trend: &str) -> (r: KeywordSuggestion)
    ensures
        is_hyphenated_uuid(r.id@),
        r.keyword@ == keyword@ + suffix@,
        r.trend@ == trend@,
        r.source@ == "google"@,
{
    let mut k = owned(keyword);
    push_str(&mut k, suffix);
    KeywordSuggestion { id: new_uuid(), keyword: k, trend: owned(trend), source: owned("google") }
}

/// Five follow-up keywords built from `keyword` (none for a blank keyword):
/// efficacy, side effects, cosmetics, baby skin and pregnancy.
pub fn suggest_keywords(keyword: &str) -> (r: Vec<KeywordSuggestion>)
    ensures
        is_blank(keyword@) ==> r@.len() == 0,
        !is_blank(keyword@) ==> r@.len() == 5,
        forall|i: int|
            0 <= i < r@.len() ==> {
                &&& is_hyphenated_uuid((#[trigger] r@[i]).id@)
                &&& r@[i].keyword@ == keyword@ + suggestion_suffix(i)
                &&& r@[i].trend@ == suggestion_trend(i)
                &&& r@[i].source@ == "google"@
            },
{
    let mut out: Vec<KeywordSuggestion> = Vec::new();
    if is_blank_str(keyword) {
        return out;
    }
    out.push(suggestion(keyword, " 효능", "hot"));
    out.push(suggestion(keyword, " 부작용", "rising"));
    out.push(suggestion(keyword, " 화장품", "stable"));
    out.push(suggestion(keyword, " 아기 피부", "rising"));
    out.push(suggestion(keyword, " 임산부", "hot"));
    out
}

} // verus!
