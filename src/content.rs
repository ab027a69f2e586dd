//! Content plans: the narrating character, the prompts sent to the text
//! provider, and the turn of its answer (or of the canned fallback) into
//! numbered plan items.
use vstd::prelude::*;
use crate::models::{CharacterPersona, ContentGenerationRequest, ContentPlanItem};
use crate::provider::{TextProvider, opt_view, text_provider, text_provider_for};
use crate::text::{
    alphabetic, chars_of, decimal, is_alphabetic, is_blank, is_blank_str, owned, push_decimal,
    push_str, string_of_range,
};
use crate::thirdparty::{is_hyphenated_uuid, new_uuid};

verus! {

// ---------------------------------------------------------------------------
// The character name
// ---------------------------------------------------------------------------

/// A precomposed Hangul syllable (U+AC00 to U+D7A3).
pub open spec fn is_hangul_syllable(c: char) -> bool {
    '\u{AC00}' <= c && c <= '\u{D7A3}'
}

/// A character kept in the character name's source: a letter or a Hangul
/// syllable.
pub open spec fn is_name_char(c: char) -> bool {
    alphabetic(c) || is_hangul_syllable(c)
}

/// The letters and Hangul syllables of `s`, in order.
pub open spec fn name_chars(s: Seq<char>) -> Seq<char>
    decreases s.len(),
{
    if s.len() == 0 {
        Seq::empty()
    } else if is_name_char(s.last()) {
        name_chars(s.drop_last()).push(s.last())
    } else {
        name_chars(s.drop_last())
    }
}

/// `s` holds a Hangul syllable.
pub open spec fn has_hangul(s: Seq<char>) -> bool {
    exists|i: int| 0 <= i < s.len() && is_hangul_syllable(s[i])
}

/// The number of Hangul syllables in `s`.
pub open spec fn hangul_count(s: Seq<char>) -> nat
    decreases s.len(),
{
    if s.len() == 0 {
        0
    } else {
        hangul_count(s.drop_last()) + if is_hangul_syllable(s.last()) {
            1nat
        } else {
            0nat
        }
    }
}

/// The first `n` characters of `s`, or all of them when there are fewer.
pub open spec fn prefix(s: Seq<char>, n: nat) -> Seq<char> {
    if s.len() <= n {
        s
    } else {
        s.take(n as int)
    }
}

/// The character name for a keyword: its first two kept characters when a
/// Hangul syllable is among them, else its first four.
pub open spec fn character_name(keyword: Seq<char>) -> Seq<char> {
    let cleaned = name_chars(keyword);
    if has_hangul(cleaned) {
        prefix(cleaned, 2)
    } else {
        prefix(cleaned, 4)
    }
}

fn is_hangul(c: char) -> (r: bool)
    ensures
        r == is_hangul_syllable(c),
{
    c >= '\u{AC00}' && c <= '\u{D7A3}'
}

/// Derives the character name from a keyword.
pub fn extract_character_name(keyword: &str) -> (r: String)
    ensures
        r@ == character_name(keyword@),
{
    let cs = chars_of(keyword);
    let n = cs.len();
    let mut cleaned: Vec<char> = Vec::new();
    let mut any_hangul = false;
    let mut i: usize = 0;
    while i < n
        invariant
            n == cs@.len(),
            cs@ == keyword@,
            i <= n,
            cleaned@ == name_chars(cs@.take(i as int)),
            any_hangul == has_hangul(cleaned@),
        decreases n - i,
    {
        let c = cs[i];
        assert(cs@.take(i + 1).drop_last() =~= cs@.take(i as int));
        if is_alphabetic(c) || is_hangul(c) {
            let ghost before = cleaned@;
            cleaned.push(c);
            let h = is_hangul(c);
            proof {
                if has_hangul(before) {
                    let k = choose|k: int| 0 <= k < before.len() && is_hangul_syllable(before[k]);
                    assert(cleaned@[k] == before[k]);
                }
                if has_hangul(cleaned@) && !h {
                    let k = choose|k: int|
                        0 <= k < cleaned@.len() && is_hangul_syllable(cleaned@[k]);
                    assert(before[k] == cleaned@[k]);
                }
                if h {
                    assert(cleaned@[before.len() as int] == c);
                }
            }
            any_hangul = any_hangul || h;
        }
        i = i + 1;
    }
    assert(cs@.take(n as int) =~= cs@);
    let limit: usize = if any_hangul {
        2
    } else {
        4
    };
    let end = if cleaned.len() < limit {
        cleaned.len()
    } else {
        limit
    };
    let r = string_of_range(cleaned.as_slice(), 0, end);
    assert(cleaned@.subrange(0, end as int) =~= prefix(cleaned@, limit as nat));
    r
}

proof fn lemma_hangul_count(s: Seq<char>)
    ensures
        hangul_count(s) <= s.len(),
        has_hangul(s) <==> hangul_count(s) > 0,
    decreases s.len(),
{
    if s.len() > 0 {
        let t = s.drop_last();
        lemma_hangul_count(t);
        if has_hangul(t) {
            let k = choose|k: int| 0 <= k < t.len() && is_hangul_syllable(t[k]);
            assert(s[k] == t[k]);
        }
        if has_hangul(s) && !is_hangul_syllable(s.last()) {
            let k = choose|k: int| 0 <= k < s.len() && is_hangul_syllable(s[k]);
            assert(t[k] == s[k]);
        }
        if is_hangul_syllable(s.last()) {
            assert(is_hangul_syllable(s[s.len() - 1]));
        }
    }
}

proof fn lemma_name_chars_keep_hangul(s: Seq<char>)
    ensures
        has_hangul(name_chars(s)) == has_hangul(s),
    decreases s.len(),
{
    if s.len() > 0 {
        let t = s.drop_last();
        lemma_name_chars_keep_hangul(t);
        let nt = name_chars(t);
        let ns = name_chars(s);
        if has_hangul(t) {
            let k = choose|k: int| 0 <= k < t.len() && is_hangul_syllable(t[k]);
            assert(s[k] == t[k]);
            let m = choose|m: int| 0 <= m < nt.len() && is_hangul_syllable(nt[m]);
            assert(ns[m] == nt[m]);
        }
        if is_hangul_syllable(s.last()) {
            assert(is_hangul_syllable(s[s.len() - 1]));
            assert(ns[nt.len() as int] == s.last());
        }
        if has_hangul(s) && !is_hangul_syllable(s.last()) {
            let k = choose|k: int| 0 <= k < s.len() && is_hangul_syllable(s[k]);
            assert(t[k] == s[k]);
        }
        if has_hangul(ns) && !(is_name_char(s.last()) && is_hangul_syllable(s.last())) {
            let m = choose|m: int| 0 <= m < ns.len() && is_hangul_syllable(ns[m]);
            if is_name_char(s.last()) {
                assert(m < nt.len());
                assert(nt[m] == ns[m]);
            } else {
                assert(nt[m] == ns[m]);
            }
        }
    }
}

/// For a keyword that holds a Hangul syllable, the character name has
/// `min(2, h)` characters, `h` being the number of Hangul syllables among the
/// kept characters. This needs `h >= 2` or a single kept character: with one
/// Hangul syllable and other letters beside it, two characters are taken.
pub proof fn lemma_hangul_name_length(keyword: Seq<char>)
    requires
        has_hangul(keyword),
        hangul_count(name_chars(keyword)) >= 2 || name_chars(keyword).len() == 1,
    ensures
        character_name(keyword).len() == if hangul_count(name_chars(keyword)) < 2 {
            hangul_count(name_chars(keyword))
        } else {
            2
        },
{
    lemma_name_chars_keep_hangul(keyword);
    lemma_hangul_count(name_chars(keyword));
}

/// For a keyword without Hangul syllables, the character name has
/// `min(4, n)` characters, `n` being the number of letters kept.
pub proof fn lemma_latin_name_length(keyword: Seq<char>)
    requires
        !has_hangul(keyword),
    ensures
        character_name(keyword).len() == if name_chars(keyword).len() < 4 {
            name_chars(keyword).len()
        } else {
            4
        },
{
    lemma_name_chars_keep_hangul(keyword);
}

// ---------------------------------------------------------------------------
// Persona
// ---------------------------------------------------------------------------

/// The message for a missing keyword.
pub const KEYWORD_REQUIRED: &'static str = "키워드를 입력해주세요.";

/// The message for a missing credential.
pub const API_KEY_REQUIRED: &'static str = "API 키가 설정되지 않았습니다.";

/// The description that follows the keyword in a persona.
pub const PERSONA_DESCRIPTION_TAIL: &'static str = "의 비밀을 연구하는 귀여운 캐릭터";

/// The persona's personality traits, in order.
pub open spec fn persona_trait(i: int) -> Seq<char> {
    if i == 0 {
        "호기심 많은"@
    } else if i == 1 {
        "친근한"@
    } else if i == 2 {
        "전문적인"@
    } else {
        "따뜻한"@
    }
}

/// Creates the narrating character for a keyword; a blank keyword is refused.
pub fn create_persona(keyword: &str) -> (r: Result<CharacterPersona, String>)
    ensures
        r is Err <==> is_blank(keyword@),
        r matches Err(m) ==> m@ == KEYWORD_REQUIRED@,
        r matches Ok(p) ==> {
            &&& p.name@ == character_name(keyword@)
            &&& p.description@ == keyword@ + PERSONA_DESCRIPTION_TAIL@
            &&& p.personality_traits@.len() == 4
            &&& forall|i: int| 0 <= i < 4 ==> #[trigger] p.personality_traits@[i]@ == persona_trait(i)
        },
{
    if is_blank_str(keyword) {
        return Err(owned(KEYWORD_REQUIRED));
    }
    let name = extract_character_name(keyword);
    let mut description = owned(keyword);
    push_str(&mut description, PERSONA_DESCRIPTION_TAIL);
    let mut traits: Vec<String> = Vec::new();
    traits.push(owned("호기심 많은"));
    traits.push(owned("친근한"));
    traits.push(owned("전문적인"));
    traits.push(owned("따뜻한"));
    Ok(CharacterPersona { name, description, personality_traits: traits })
}

// ---------------------------------------------------------------------------
// Drafts and the canned fallback
// ---------------------------------------------------------------------------

/// One post as drafted by the text provider: title, short copy and the
/// concept for its illustration.
#[derive(Debug, Clone, PartialEq)]
pub struct PlanDraft {
    pub title: String,
    pub content: String,
    pub image_concept: String,
}

/// The number of canned fallback topics.
pub const FALLBACK_TOPICS: usize = 10;

/// The topic of the `i`-th canned fallback post.
pub open spec fn topic_title(i: int) -> Seq<char> {
    if i == 0 {
        "기초 효능"@
    } else if i == 1 {
        "보습 메커니즘"@
    } else if i == 2 {
        "장벽 강화"@
    } else if i == 3 {
        "진정 효과"@
    } else if i == 4 {
        "아기 피부"@
    } else if i == 5 {
        "임산부 안전성"@
    } else if i == 6 {
        "EWG 등급"@
    } else if i == 7 {
        "적정 농도"@
    } else if i == 8 {
        "함께 쓰면 좋은 성분"@
    } else {
        "제형별 특징"@
    }
}

/// The copy of the `i`-th canned fallback post.
pub open spec fn topic_copy(i: int) -> Seq<char> {
    if i == 0 {
        "피부에 미치는 기본적인 효과를 알아봐요 ✨"@
    } else if i == 1 {
        "피부 속 수분을 어떻게 지켜줄까요? 💧"@
    } else if i == 2 {
        "피부 장벽을 튼튼하게 만드는 비결 🛡️"@
    } else if i == 3 {
        "민감해진 피부를 달래주는 방법 🌿"@
    } else if i == 4 {
        "연약한 아기 피부에도 안전해요 👶"@
    } else if i == 5 {
        "임산부도 안심하고 사용할 수 있어요 🤰"@
    } else if i == 6 {
        "안전성 등급이 의미하는 것 📊"@
    } else if i == 7 {
        "얼마나 들어있으면 효과적일까요? 🧪"@
    } else if i == 8 {
        "시너지를 내는 조합 💪"@
    } else {
        "크림, 세럼, 에센스의 차이 🧴"@
    }
}

fn fallback_topic(i: usize) -> (r: (&'static str, &'static str))
    requires
        i < FALLBACK_TOPICS,
    ensures
        r.0@ == topic_title(i as int),
        r.1@ == topic_copy(i as int),
{
    if i == 0 {
        ("기초 효능", "피부에 미치는 기본적인 효과를 알아봐요 ✨")
    } else if i == 1 {
        ("보습 메커니즘", "피부 속 수분을 어떻게 지켜줄까요? 💧")
    } else if i == 2 {
        ("장벽 강화", "피부 장벽을 튼튼하게 만드는 비결 🛡️")
    } else if i == 3 {
        ("진정 효과", "민감해진 피부를 달래주는 방법 🌿")
    } else if i == 4 {
        ("아기 피부", "연약한 아기 피부에도 안전해요 👶")
    } else if i == 5 {
        ("임산부 안전성", "임산부도 안심하고 사용할 수 있어요 🤰")
    } else if i == 6 {
        ("EWG 등급", "안전성 등급이 의미하는 것 📊")
    } else if i == 7 {
        ("적정 농도", "얼마나 들어있으면 효과적일까요? 🧪")
    } else if i == 8 {
        ("함께 쓰면 좋은 성분", "시너지를 내는 조합 💪")
    } else {
        ("제형별 특징", "크림, 세럼, 에센스의 차이 🧴")
    }
}

/// The illustration concept of a fallback post, around keyword and topic.
pub const CONCEPT_HEAD: &'static str = "귀여운 캐릭터가 연구실에서 ";

/// Follows the keyword in a fallback concept.
pub const CONCEPT_MIDDLE: &'static str = "을(를) 분석하며 ";

/// Ends a fallback concept.
pub const CONCEPT_TAIL: &'static str = " 포인트를 설명하는 일러스트";

/// The `i`-th canned fallback post for a keyword.
pub open spec fn is_fallback_draft(d: PlanDraft, keyword: Seq<char>, i: int) -> bool {
    &&& d.title@ == keyword + " - "@ + topic_title(i)
    &&& d.content@ == topic_copy(i)
    &&& d.image_concept@ == CONCEPT_HEAD@ + keyword + CONCEPT_MIDDLE@ + topic_title(i)
        + CONCEPT_TAIL@
}

/// The first `count` canned posts (at most ten), composed with the keyword.
pub fn generate_fallback_content(keyword: &str, count: usize) -> (r: Vec<PlanDraft>)
    ensures
        r@.len() == if count < FALLBACK_TOPICS {
            count
        } else {
            FALLBACK_TOPICS
        },
        forall|i: int| 0 <= i < r@.len() ==> is_fallback_draft(#[trigger] r@[i], keyword@, i),
{
    let n = if count < FALLBACK_TOPICS {
        count
    } else {
        FALLBACK_TOPICS
    };
    let mut out: Vec<PlanDraft> = Vec::new();
    let mut i: usize = 0;
    while i < n
        invariant
            n <= FALLBACK_TOPICS,
            i <= n,
            out@.len() == i,
            forall|k: int| 0 <= k < i ==> is_fallback_draft(#[trigger] out@[k], keyword@, k),
        decreases n - i,
    {
        let (topic, copy) = fallback_topic(i);
        let mut title = owned(keyword);
        push_str(&mut title, " - ");
        push_str(&mut title, topic);
        let mut concept = owned(CONCEPT_HEAD);
        push_str(&mut concept, keyword);
        push_str(&mut concept, CONCEPT_MIDDLE);
        push_str(&mut concept, topic);
        push_str(&mut concept, CONCEPT_TAIL);
        out.push(PlanDraft { title, content: owned(copy), image_concept: concept });
        i = i + 1;
    }
    out
}

// ---------------------------------------------------------------------------
// Plan items
// ---------------------------------------------------------------------------

/// The plan item built from draft `d` at 1-based position `n`.
pub open spec fn is_plan_item(item: ContentPlanItem, d: PlanDraft, name: Seq<char>, n: int) -> bool {
    &&& item.title@ == d.title@
    &&& item.content@ == d.content@
    &&& item.image_concept@ == d.image_concept@
    &&& item.character_name@ == name
    &&& item.journal_number == n
    &&& item.status@ == "pending"@
    &&& is_hyphenated_uuid(item.id@)
}

/// The `i`-th canned post for a keyword, as plan item at position `i + 1`.
pub open spec fn is_fallback_item(item: ContentPlanItem, keyword: Seq<char>, name: Seq<char>, i: int) -> bool {
    &&& item.title@ == keyword + " - "@ + topic_title(i)
    &&& item.content@ == topic_copy(i)
    &&& item.image_concept@ == CONCEPT_HEAD@ + keyword + CONCEPT_MIDDLE@ + topic_title(i)
        + CONCEPT_TAIL@
    &&& item.character_name@ == name
    &&& item.journal_number == i + 1
    &&& item.status@ == "pending"@
    &&& is_hyphenated_uuid(item.id@)
}

/// Numbers the drafts from 1 and gives each a fresh id and `pending` status.
pub fn build_content_plan(drafts: &Vec<PlanDraft>, character_name: &str) -> (r: Vec<
    ContentPlanItem,
>)
    requires
        drafts@.len() < u32::MAX,
    ensures
        r@.len() == drafts@.len(),
        forall|i: int|
            0 <= i < r@.len() ==> is_plan_item(#[trigger] r@[i], drafts@[i], character_name@, i + 1),
{
    let mut out: Vec<ContentPlanItem> = Vec::new();
    let mut i: usize = 0;
    while i < drafts.len()
        invariant
            drafts@.len() < u32::MAX,
            i <= drafts@.len(),
            out@.len() == i,
            forall|k: int|
                0 <= k < i ==> is_plan_item(
                    #[trigger] out@[k],
                    drafts@[k],
                    character_name@,
                    k + 1,
                ),
        decreases drafts@.len() - i,
    {
        let d = &drafts[i];
        let item = ContentPlanItem {
            id: new_uuid(),
            title: d.title.clone(),
            character_name: owned(character_name),
            journal_number: (i + 1) as u32,
            content: d.content.clone(),
            image_concept: d.image_concept.clone(),
            status: owned("pending"),
        };
        out.push(item);
        i = i + 1;
    }
    out
}

/// Turns the decoded model answer into plan items. `drafts` is `None` when
/// the answer did not decode into drafts; the ten canned posts stand in then,
/// whatever count was asked for.
pub fn parse_content_plan(drafts: Option<Vec<PlanDraft>>, character_name: &str, keyword: &str) -> (r:
    Vec<ContentPlanItem>)
    requires
        drafts matches Some(d) ==> d@.len() < u32::MAX,
    ensures
        drafts matches Some(d) ==> r@.len() == d@.len() && forall|i: int|
            0 <= i < r@.len() ==> is_plan_item(#[trigger] r@[i], d@[i], character_name@, i + 1),
        drafts is None ==> r@.len() == FALLBACK_TOPICS && forall|i: int|
            0 <= i < r@.len() ==> is_fallback_item(#[trigger] r@[i], keyword@, character_name@, i),
{
    match drafts {
        Some(decoded) => build_content_plan(&decoded, character_name),
        None => {
            let fallback = generate_fallback_content(keyword, FALLBACK_TOPICS);
            let r = build_content_plan(&fallback, character_name);
            assert(r@.len() == FALLBACK_TOPICS);
            assert forall|i: int| 0 <= i < r@.len() implies is_fallback_item(
                #[trigger] r@[i],
                keyword@,
                character_name@,
                i,
            ) by {
                assert(is_fallback_draft(fallback@[i], keyword@, i));
                assert(is_plan_item(r@[i], fallback@[i], character_name@, i + 1));
            }
            r
        },
    }
}

// ---------------------------------------------------------------------------
// Prompts and the request checks
// ---------------------------------------------------------------------------

/// The system prompt up to the first mention of the character.
pub const PLAN_SYSTEM_HEAD: &'static str = "당신은 인스타그램 뷰티 콘텐츠 기획 전문가입니다.
화장품 성분에 대한 교육적인 캐러셀 콘텐츠를 기획합니다.

타겟: 육아맘, 예비맘 (성분에 민감한 사용자)
캐릭터: ";

/// The system prompt between the two mentions of the character.
pub const PLAN_SYSTEM_MIDDLE: &'static str = " (성분을 의인화한 귀여운 캐릭터)
형식: ";

/// The system prompt after the second mention of the character.
pub const PLAN_SYSTEM_TAIL: &'static str = "의 연구일지

각 콘텐츠는 다음 JSON 배열 형식으로 작성하세요:
[
  {
    \"title\": \"매력적인 제목\",
    \"content\": \"50자 내외의 핵심 내용 (이모지 사용 가능)\",
    \"image_concept\": \"이미지 생성을 위한 상세한 컨셉 설명\"
  },
  ...
]

주의사항:
- 과학적 근거에 기반하되 쉽게 설명
- 임산부/아기에게 안전한 정보 중심
- 긍정적이고 따뜻한 톤
- JSON 배열만 출력하세요";

/// The system prompt for a content plan narrated by `name`.
pub open spec fn plan_system_prompt(name: Seq<char>) -> Seq<char> {
    PLAN_SYSTEM_HEAD@ + name + PLAN_SYSTEM_MIDDLE@ + name + PLAN_SYSTEM_TAIL@
}

/// The user prompt for `count` posts on `keyword`, with research notes.
pub open spec fn plan_user_prompt(keyword: Seq<char>, count: nat, research: Seq<char>) -> Seq<
    char,
> {
    "'"@ + keyword + "'에 대한 "@ + decimal(count) + "개의 인스타그램 캐러셀 콘텐츠를 기획해주세요.\n\n추가 정보:\n"@
        + research
}

/// The number of posts actually requested: `count` clamped to `[1, 20]`.
pub open spec fn clamped_count(count: u32) -> u32 {
    if count > 20 {
        20
    } else if count < 1 {
        1
    } else {
        count
    }
}

/// What the text provider is asked for a content plan.
#[derive(Debug, Clone, PartialEq)]
pub struct ContentPlanJob {
    pub provider: TextProvider,
    pub api_key: String,
    pub character_name: String,
    pub count: u32,
    pub system_prompt: String,
    pub prompt: String,
}

/// Builds the system prompt for a plan narrated by `name`.
pub fn content_system_prompt(name: &str) -> (r: String)
    ensures
        r@ == plan_system_prompt(name@),
{
    let mut s = owned(PLAN_SYSTEM_HEAD);
    push_str(&mut s, name);
    push_str(&mut s, PLAN_SYSTEM_MIDDLE);
    push_str(&mut s, name);
    push_str(&mut s, PLAN_SYSTEM_TAIL);
    s
}

/// Builds the user prompt for `count` posts on `keyword`.
pub fn content_user_prompt(keyword: &str, count: u32, research: &Option<String>) -> (r: String)
    ensures
        r@ == plan_user_prompt(
            keyword@,
            count as nat,
            match research {
                Some(t) => t@,
                None => Seq::empty(),
            },
        ),
{
    let mut s = owned("'");
    push_str(&mut s, keyword);
    push_str(&mut s, "'에 대한 ");
    push_decimal(&mut s, count as u64);
    push_str(&mut s, "개의 인스타그램 캐러셀 콘텐츠를 기획해주세요.\n\n추가 정보:\n");
    match research {
        Some(t) => push_str(&mut s, t.as_str()),
        None => {},
    }
    s
}

/// Checks a content-plan request and prepares what the text provider is
/// asked. A blank keyword, then a missing credential, are refused before any
/// call is made.
pub fn prepare_content_plan(request: &ContentGenerationRequest) -> (r: Result<ContentPlanJob, String>)
    ensures
        r is Err <==> (is_blank(request.keyword@) || request.api_key is None),
        r matches Err(m) ==> m@ == if is_blank(request.keyword@) {
            KEYWORD_REQUIRED@
        } else {
            API_KEY_REQUIRED@
        },
        r matches Ok(job) ==> {
            let name = character_name(request.keyword@);
            &&& job.provider == text_provider_for(opt_view(request.llm_provider))
            &&& job.api_key@ == request.api_key->0@
            &&& job.character_name@ == name
            &&& job.count == clamped_count(request.count)
            &&& job.system_prompt@ == plan_system_prompt(name)
            &&& job.prompt@ == plan_user_prompt(
                request.keyword@,
                clamped_count(request.count) as nat,
                match request.research_data {
                    Some(t) => t@,
                    None => Seq::empty(),
                },
            )
        },
{
    if is_blank_str(request.keyword.as_str()) {
        return Err(owned(KEYWORD_REQUIRED));
    }
    let api_key = match &request.api_key {
        Some(k) => k.clone(),
        None => {
            return Err(owned(API_KEY_REQUIRED));
        },
    };
    let provider = text_provider(&request.llm_provider);
    let character_name = extract_character_name(request.keyword.as_str());
    let count = if request.count > 20 {
        20
    } else if request.count < 1 {
        1
    } else {
        request.count
    };
    let system_prompt = content_system_prompt(character_name.as_str());
    let prompt = content_user_prompt(request.keyword.as_str(), count, &request.research_data);
    Ok(ContentPlanJob { provider, api_key, character_name, count, system_prompt, prompt })
}

/// The system prompt for translating into Korean.
pub const TRANSLATION_SYSTEM_PROMPT: &'static str = "You are a professional translator. Translate the given English text to Korean. Only output the translated text, nothing else. Keep the translation natural and accurate.";

/// The user prompt that asks to translate `text` into Korean.
pub fn translation_prompt(text: &str) -> (r: String)
    ensures
        r@ == "Translate the following text to Korean:\n\n"@ + text@,
{
    let mut s = owned("Translate the following text to Korean:\n\n");
    push_str(&mut s, text);
    s
}

} // verus!
