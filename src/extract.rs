//! Recovery of a JSON array or object embedded in free-form model output.
//!
//! The search is textual: it takes the span from the first opening delimiter
//! to the last closing one, without checking that the brackets balance.
use vstd::prelude::*;
use crate::text::{chars_of, find_char, rfind_char, is_first_index, is_last_index, owned, string_of_range};

verus! {

/// The span of `s` from the first `open` to the last `close`, both included,
/// when both occur and the closing one does not come first.
pub open spec fn delimited_span(s: Seq<char>, open: char, close: char) -> Option<Seq<char>> {
    if exists|i: int, j: int|
        is_first_index(s, open, i) && is_last_index(s, close, j) && i <= j {
        let (i, j) = choose|i: int, j: int|
            is_first_index(s, open, i) && is_last_index(s, close, j) && i <= j;
        Some(s.subrange(i, j + 1))
    } else {
        None
    }
}

/// What `extract_json_array` returns for `s`: the bracketed span, or `[]`.
pub open spec fn json_array_text(s: Seq<char>) -> Seq<char> {
    match delimited_span(s, '[', ']') {
        Some(t) => t,
        None => "[]"@,
    }
}

/// What `extract_json` returns for `s`: the braced span, or `s` itself.
pub open spec fn json_object_text(s: Seq<char>) -> Seq<char> {
    match delimited_span(s, '{', '}') {
        Some(t) => t,
        None => s,
    }
}

fn span_of(text: &str, open: char, close: char) -> (r: Option<String>)
    ensures
        r matches Some(t) ==> delimited_span(text@, open, close) == Some(t@),
        r is None ==> delimited_span(text@, open, close) is None,
{
    let cs = chars_of(text);
    let n = cs.len();
    let first = find_char(cs.as_slice(), open);
    let last = rfind_char(cs.as_slice(), close);
    match (first, last) {
        (Some(i), Some(j)) => {
            if i <= j {
                assert(j < n);
                let t = string_of_range(cs.as_slice(), i, j + 1);
                proof {
                    let (i2, j2) = choose|i2: int, j2: int|
                        is_first_index(text@, open, i2) && is_last_index(text@, close, j2) && i2
                            <= j2;
                    assert(i2 == i) by {
                        if i2 < i {
                            assert(text@[i2] != open);
                        } else if i < i2 {
                            assert(text@[i as int] != open);
                        }
                    }
                    assert(j2 == j) by {
                        if j2 < j {
                            assert(text@[j as int] != close);
                        } else if j < j2 {
                            assert(text@[j2] != close);
                        }
                    }
                }
                Some(t)
            } else {
                proof {
                    assert forall|i2: int, j2: int|
                        is_first_index(text@, open, i2) && is_last_index(text@, close, j2) implies i2
                            > j2 by {
                        if i2 < i {
                            assert(text@[i2] != open);
                        } else if i < i2 {
                            assert(text@[i as int] != open);
                        }
                        if j2 < j {
                            assert(text@[j as int] != close);
                        } else if j < j2 {
                            assert(text@[j2] != close);
                        }
                    }
                }
                None
            }
        },
        _ => {
            proof {
                assert forall|i2: int, j2: int|
                    is_first_index(text@, open, i2) && is_last_index(text@, close, j2) implies false by {
                    assert(text@.contains(open) && text@.contains(close)) by {
                        assert(text@[i2] == open);
                        assert(text@[j2] == close);
                    }
                }
            }
            None
        },
    }
}

/// The JSON array embedded in `text`: from the first `[` to the last `]`,
/// inclusive. Without such a span (no `[`, no `]`, or the last `]` before the
/// first `[`) the result is the empty array `[]`.
pub fn extract_json_array(text: &str) -> (r: String)
    ensures
        r@ == json_array_text(text@),
{
    match span_of(text, '[', ']') {
        Some(t) => t,
        None => owned("[]"),
    }
}

/// The JSON object embedded in `text`: from the first `{` to the last `}`,
/// inclusive. Without such a span the text is returned unchanged.
pub fn extract_json(text: &str) -> (r: String)
    ensures
        r@ == json_object_text(text@),
{
    match span_of(text, '{', '}') {
        Some(t) => t,
        None => owned(text),
    }
}

} // verus!
