use moms_insta::content::{
    build_content_plan, content_system_prompt, content_user_prompt, create_persona,
    extract_character_name, generate_fallback_content, parse_content_plan, prepare_content_plan,
    translation_prompt, PlanDraft,
};
use moms_insta::models::ContentGenerationRequest;
use moms_insta::provider::TextProvider;

fn request(keyword: &str, count: u32, key: Option<&str>, provider: Option<&str>) -> ContentGenerationRequest {
    ContentGenerationRequest {
        keyword: keyword.to_string(),
        prompt_id: "plan-a".to_string(),
        count,
        api_key: key.map(|k| k.to_string()),
        llm_provider: provider.map(|p| p.to_string()),
        research_data: None,
    }
}

#[test]
fn hangul_keyword_name_takes_two_syllables() {
    assert_eq!(extract_character_name("세라마이드"), "세라");
    assert_eq!(extract_character_name("가"), "가");
}

#[test]
fn latin_keyword_name_takes_four_letters() {
    assert_eq!(extract_character_name("hyaluronic acid"), "hyal");
    assert_eq!(extract_character_name("a-b"), "ab");
    assert_eq!(extract_character_name("123"), "");
}

#[test]
fn mixed_keyword_name_counts_letters_after_a_syllable() {
    assert_eq!(extract_character_name("비타민C"), "비타");
    assert_eq!(extract_character_name("C비타민"), "C비");
    assert_eq!(extract_character_name("가abc"), "가a");
}

#[test]
fn name_drops_digits_spaces_and_symbols() {
    assert_eq!(extract_character_name(" 1 판테놀! "), "판테");
}

#[test]
fn persona_for_keyword() {
    let p = create_persona("레티놀").unwrap();
    assert_eq!(p.name, "레티");
    assert_eq!(p.description, "레티놀의 비밀을 연구하는 귀여운 캐릭터");
    assert_eq!(p.personality_traits, vec!["호기심 많은", "친근한", "전문적인", "따뜻한"]);
}

#[test]
fn persona_refuses_blank_keyword() {
    assert_eq!(create_persona("  \t").unwrap_err(), "키워드를 입력해주세요.");
    assert_eq!(create_persona("").unwrap_err(), "키워드를 입력해주세요.");
}

#[test]
fn fallback_topics_are_composed_with_keyword() {
    let f = generate_fallback_content("나이아신", 3);
    assert_eq!(f.len(), 3);
    assert_eq!(f[0].title, "나이아신 - 기초 효능");
    assert_eq!(f[0].content, "피부에 미치는 기본적인 효과를 알아봐요 ✨");
    assert_eq!(
        f[2].image_concept,
        "귀여운 캐릭터가 연구실에서 나이아신을(를) 분석하며 장벽 강화 포인트를 설명하는 일러스트"
    );
}

#[test]
fn fallback_has_at_most_ten_topics() {
    assert_eq!(generate_fallback_content("x", 15).len(), 10);
    assert_eq!(generate_fallback_content("x", 0).len(), 0);
    assert_eq!(generate_fallback_content("x", 10)[9].title, "x - 제형별 특징");
}

#[test]
fn unparsable_answer_for_fifteen_yields_ten_fallback_items() {
    let job = prepare_content_plan(&request("세라마이드", 15, Some("k"), None)).unwrap();
    assert_eq!(job.count, 15);
    let items = parse_content_plan(None, &job.character_name, "세라마이드");
    assert_eq!(items.len(), 10);
    for (i, item) in items.iter().enumerate() {
        assert_eq!(item.journal_number, (i + 1) as u32);
        assert_eq!(item.status, "pending");
        assert_eq!(item.character_name, "세라");
        assert_eq!(item.id.len(), 36);
    }
    assert_eq!(items[0].title, "세라마이드 - 기초 효능");
    assert_eq!(items[9].title, "세라마이드 - 제형별 특징");
}

#[test]
fn decoded_drafts_become_numbered_items() {
    let drafts = vec![
        PlanDraft { title: "A".into(), content: "a".into(), image_concept: "ia".into() },
        PlanDraft { title: "B".into(), content: "b".into(), image_concept: "ib".into() },
    ];
    let items = parse_content_plan(Some(drafts), "세라", "세라마이드");
    assert_eq!(items.len(), 2);
    assert_eq!(items[1].title, "B");
    assert_eq!(items[1].image_concept, "ib");
    assert_eq!(items[1].journal_number, 2);
    assert_ne!(items[0].id, items[1].id);
}

#[test]
fn empty_draft_list_gives_empty_plan() {
    assert!(build_content_plan(&Vec::new(), "x").is_empty());
}

#[test]
fn content_plan_refuses_blank_keyword_then_missing_key() {
    assert_eq!(
        prepare_content_plan(&request(" ", 3, None, None)).unwrap_err(),
        "키워드를 입력해주세요."
    );
    assert_eq!(
        prepare_content_plan(&request("레티놀", 3, None, None)).unwrap_err(),
        "API 키가 설정되지 않았습니다."
    );
}

#[test]
fn content_plan_clamps_count_and_picks_provider() {
    let low = prepare_content_plan(&request("레티놀", 0, Some("k"), Some("anthropic"))).unwrap();
    assert_eq!(low.count, 1);
    assert_eq!(low.provider, TextProvider::Anthropic);
    let high = prepare_content_plan(&request("레티놀", 99, Some("k"), Some("mystery"))).unwrap();
    assert_eq!(high.count, 20);
    assert_eq!(high.provider, TextProvider::OpenAi);
    let google = prepare_content_plan(&request("레티놀", 5, Some("k"), Some("google"))).unwrap();
    assert_eq!(google.provider, TextProvider::Google);
    assert_eq!(google.prompt, content_user_prompt("레티놀", 5, &None));
    assert_eq!(google.system_prompt, content_system_prompt("레티"));
}

#[test]
fn user_prompt_text() {
    assert_eq!(
        content_user_prompt("레티놀", 12, &Some("메모".to_string())),
        "'레티놀'에 대한 12개의 인스타그램 캐러셀 콘텐츠를 기획해주세요.\n\n추가 정보:\n메모"
    );
}

#[test]
fn system_prompt_names_the_character_twice() {
    let p = content_system_prompt("세라");
    assert!(p.contains("캐릭터: 세라 (성분을 의인화한 귀여운 캐릭터)\n형식: 세라의 연구일지"));
    assert!(p.ends_with("- JSON 배열만 출력하세요"));
    assert!(p.contains("    \"title\": \"매력적인 제목\","));
}

#[test]
fn translation_prompt_text() {
    assert_eq!(
        translation_prompt("hello"),
        "Translate the following text to Korean:\n\nhello"
    );
}
