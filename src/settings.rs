//! Settings values and the edits made to the saved image prompts.
use vstd::prelude::*;
use crate::models::{ApiKeys, ApiSelection, ImagePrompt, ImageSizePreset};
use crate::text::{owned, str_eq};

verus! {

impl Default for ImageSizePreset {
    /// The Instagram post size, 1080 by 1350.
    fn default() -> (r: Self)
        ensures
            r.id@ == "instagram"@,
            r.name@ == "인스타그램 게시물"@,
            r.width == 1080,
            r.height == 1350,
    {
        ImageSizePreset {
            id: owned("instagram"),
            name: owned("인스타그램 게시물"),
            width: 1080,
            height: 1350,
        }
    }
}

impl Default for ApiSelection {
    /// Anthropic for text, Google for images.
    fn default() -> (r: Self)
        ensures
            r.content_generation@ == "anthropic"@,
            r.image_generation@ == "google"@,
    {
        ApiSelection { content_generation: owned("anthropic"), image_generation: owned("google") }
    }
}

impl Default for ApiKeys {
    /// No credential for any provider.
    fn default() -> (r: Self)
        ensures
            r.google is None,
            r.openai is None,
            r.anthropic is None,
    {
        ApiKeys { google: None, openai: None, anthropic: None }
    }
}

/// The greatest common divisor, by Euclid's algorithm.
pub open spec fn gcd_of(a: nat, b: nat) -> nat
    decreases b,
{
    if b == 0 {
        a
    } else {
        gcd_of(b, a % b)
    }
}

/// The greatest common divisor of two numbers.
pub fn gcd(a: u32, b: u32) -> (r: u32)
    ensures
        r == gcd_of(a as nat, b as nat),
    decreases b,
{
    if b == 0 {
        a
    } else {
        gcd(b, a % b)
    }
}

/// The position of the first prompt with id `id`.
pub open spec fn is_first_with_id(prompts: Seq<ImagePrompt>, id: Seq<char>, i: int) -> bool {
    &&& 0 <= i < prompts.len()
    &&& prompts[i].id@ == id
    &&& forall|k: int| 0 <= k < i ==> prompts[k].id@ != id
}

/// No prompt has id `id`.
pub open spec fn no_prompt_with_id(prompts: Seq<ImagePrompt>, id: Seq<char>) -> bool {
    forall|k: int| 0 <= k < prompts.len() ==> prompts[k].id@ != id
}

fn position_of(prompts: &Vec<ImagePrompt>, id: &str) -> (r: Option<usize>)
    ensures
        r matches Some(i) ==> is_first_with_id(prompts@, id@, i as int),
        r is None ==> no_prompt_with_id(prompts@, id@),
{
    let mut i: usize = 0;
    while i < prompts.len()
        invariant
            i <= prompts@.len(),
            forall|k: int| 0 <= k < i ==> prompts@[k].id@ != id@,
        decreases prompts@.len() - i,
    {
        if str_eq(prompts[i].id.as_str(), id) {
            return Some(i);
        }
        i = i + 1;
    }
    None
}

/// Saves an image prompt: the first prompt with the same id takes its name,
/// text, style image and preview (keeping its id and default flag); without
/// one, the prompt is appended.
pub fn save_image_prompt(prompts: &mut Vec<ImagePrompt>, prompt: ImagePrompt)
    ensures
        no_prompt_with_id(old(prompts)@, prompt.id@) ==> final(prompts)@ == old(prompts)@.push(
            prompt,
        ),
        forall|i: int|
            is_first_with_id(old(prompts)@, prompt.id@, i) ==> final(prompts)@ == old(
                prompts,
            )@.update(
                i,
                ImagePrompt {
                    name: prompt.name,
                    prompt: prompt.prompt,
                    style_image_path: prompt.style_image_path,
                    preview_image_path: prompt.preview_image_path,
                    ..old(prompts)@[i]
                },
            ),
{
    match position_of(prompts, prompt.id.as_str()) {
        Some(i) => {
            let old_entry = prompts.remove(i);
            let updated = ImagePrompt {
                id: old_entry.id,
                name: prompt.name,
                prompt: prompt.prompt,
                style_image_path: prompt.style_image_path,
                preview_image_path: prompt.preview_image_path,
                is_default: old_entry.is_default,
            };
            prompts.insert(i, updated);
            proof {
                assert forall|j: int| is_first_with_id(old(prompts)@, prompt.id@, j) implies j
                    == i by {
                    if j < i {
                        assert(old(prompts)@[j].id@ != prompt.id@);
                    } else if i < j {
                        assert(old(prompts)@[i as int].id@ != prompt.id@);
                    }
                }
                assert(prompts@ =~= old(prompts)@.update(i as int, updated));
            }
        },
        None => {
            prompts.push(prompt);
        },
    }
}

/// The prompts other than those with id `id`, in order.
pub open spec fn without_prompt(prompts: Seq<ImagePrompt>, id: Seq<char>) -> Seq<ImagePrompt>
    decreases prompts.len(),
{
    if prompts.len() == 0 {
        prompts
    } else if prompts.last().id@ == id {
        without_prompt(prompts.drop_last(), id)
    } else {
        without_prompt(prompts.drop_last(), id).push(prompts.last())
    }
}

/// The message when a default prompt would be deleted.
pub const DEFAULT_PROMPT_KEPT: &'static str = "기본 프롬프트는 삭제할 수 없습니다.";

/// Deletes the image prompts with id `prompt_id`, unless the first of them
/// is a default prompt: then nothing changes and the deletion is refused.
pub fn delete_image_prompt(prompts: &mut Vec<ImagePrompt>, prompt_id: &str) -> (r: Result<(), String>)
    ensures
        (exists|i: int| is_first_with_id(old(prompts)@, prompt_id@, i) && old(prompts)@[i].is_default)
            ==> (r matches Err(m) && m@ == DEFAULT_PROMPT_KEPT@ && final(prompts)@ == old(
            prompts,
        )@),
        !(exists|i: int| is_first_with_id(old(prompts)@, prompt_id@, i) && old(prompts)@[i].is_default)
            ==> (r is Ok && final(prompts)@ == without_prompt(old(prompts)@, prompt_id@)),
{
    match position_of(prompts, prompt_id) {
        Some(i) => {
            if prompts[i].is_default {
                return Err(owned(DEFAULT_PROMPT_KEPT));
            }
            proof {
                assert forall|j: int|
                    is_first_with_id(old(prompts)@, prompt_id@, j) implies j == i by {
                    if j < i {
                        assert(old(prompts)@[j].id@ != prompt_id@);
                    } else if i < j {
                        assert(old(prompts)@[i as int].id@ != prompt_id@);
                    }
                }
            }
        },
        None => {},
    }
    let mut kept: Vec<ImagePrompt> = Vec::new();
    let mut i: usize = 0;
    while i < prompts.len()
        invariant
            prompts@ == old(prompts)@,
            i <= prompts@.len(),
            kept@ == without_prompt(prompts@.take(i as int), prompt_id@),
        decreases prompts@.len() - i,
    {
        assert(prompts@.take(i + 1).drop_last() =~= prompts@.take(i as int));
        if !str_eq(prompts[i].id.as_str(), prompt_id) {
            kept.push(copy_prompt(&prompts[i]));
        }
        i = i + 1;
    }
    assert(prompts@.take(i as int) =~= prompts@);
    *prompts = kept;
    Ok(())
}

fn copy_text(o: &Option<String>) -> (r: Option<String>)
    ensures
        r == *o,
{
    match o {
        Some(s) => Some(s.clone()),
        None => None,
    }
}

/// A field-by-field copy of an image prompt.
pub fn copy_prompt(p: &ImagePrompt) -> (r: ImagePrompt)
    ensures
        r == *p,
{
    ImagePrompt {
        id: p.id.clone(),
        name: p.name.clone(),
        prompt: p.prompt.clone(),
        style_image_path: copy_text(&p.style_image_path),
        preview_image_path: copy_text(&p.preview_image_path),
        is_default: p.is_default,
    }
}

// ---------------------------------------------------------------------------
// Font family names
// ---------------------------------------------------------------------------

/// The `name` table id of the font family name.
pub const FAMILY_NAME_ID: u16 = 1;

/// The `name` table id of the typographic family name.
pub const TYPOGRAPHIC_FAMILY_NAME_ID: u16 = 16;

/// The Windows language id of Korean.
pub const KOREAN_LANGUAGE_ID: u16 = 1042;

/// The Windows language id of US English.
pub const ENGLISH_LANGUAGE_ID: u16 = 1033;

/// One record of a font's `name` table, with its text where it decodes.
#[derive(Debug, Clone, PartialEq)]
pub struct FontName {
    pub name_id: u16,
    pub language_id: u16,
    pub text: Option<String>,
}

/// A record that names the family and whose text decodes.
pub open spec fn is_family_record(n: FontName) -> bool {
    (n.name_id == FAMILY_NAME_ID || n.name_id == TYPOGRAPHIC_FAMILY_NAME_ID) && n.text is Some
}

/// The family name of a font: the first Korean family record; failing that,
/// the last English one; failing that, the first family record.
pub open spec fn family_name_of(names: Seq<FontName>) -> Option<Seq<char>> {
    if exists|i: int| 0 <= i < names.len() && is_family_record(names[i]) && names[i].language_id
        == KOREAN_LANGUAGE_ID {
        let i = choose|i: int|
            0 <= i < names.len() && is_family_record(names[i]) && names[i].language_id
                == KOREAN_LANGUAGE_ID && forall|k: int|
                0 <= k < i ==> !(is_family_record(names[k]) && names[k].language_id
                    == KOREAN_LANGUAGE_ID);
        Some(names[i].text->0@)
    } else if exists|i: int|
        0 <= i < names.len() && is_family_record(names[i]) && names[i].language_id
            == ENGLISH_LANGUAGE_ID {
        let i = choose|i: int|
            0 <= i < names.len() && is_family_record(names[i]) && names[i].language_id
                == ENGLISH_LANGUAGE_ID && forall|k: int|
                i < k < names.len() ==> !(is_family_record(names[k]) && names[k].language_id
                    == ENGLISH_LANGUAGE_ID);
        Some(names[i].text->0@)
    } else if exists|i: int| 0 <= i < names.len() && is_family_record(names[i]) {
        let i = choose|i: int|
            0 <= i < names.len() && is_family_record(names[i]) && forall|k: int|
                0 <= k < i ==> !is_family_record(names[k]);
        Some(names[i].text->0@)
    } else {
        None
    }
}

/// Chooses the family name of a font from its `name` records.
pub fn extract_family_name(names: &Vec<FontName>) -> (r: Option<String>)
    ensures
        r matches Some(t) ==> family_name_of(names@) == Some(t@),
        r is None ==> family_name_of(names@) is None,
{
    let mut family: Option<String> = None;
    let ghost mut first: int = -1;
    let ghost mut english: int = -1;
    let mut i: usize = 0;
    while i < names.len()
        invariant
            i <= names@.len(),
            forall|k: int|
                0 <= k < i ==> !(is_family_record(names@[k]) && names@[k].language_id
                    == KOREAN_LANGUAGE_ID),
            -1 <= first < i,
            first == -1 <==> forall|k: int| 0 <= k < i ==> !is_family_record(names@[k]),
            first >= 0 ==> is_family_record(names@[first]) && forall|k: int|
                0 <= k < first ==> !is_family_record(names@[k]),
            -1 <= english < i,
            english == -1 <==> forall|k: int|
                0 <= k < i ==> !(is_family_record(names@[k]) && names@[k].language_id
                    == ENGLISH_LANGUAGE_ID),
            english >= 0 ==> is_family_record(names@[english]) && names@[english].language_id
                == ENGLISH_LANGUAGE_ID && forall|k: int|
                english < k < i ==> !(is_family_record(names@[k]) && names@[k].language_id
                    == ENGLISH_LANGUAGE_ID),
            family is None <==> first == -1,
            family matches Some(t) ==> t@ == if english >= 0 {
                names@[english].text->0@
            } else {
                names@[first].text->0@
            },
        decreases names@.len() - i,
    {
        let n = &names[i];
        if n.name_id == TYPOGRAPHIC_FAMILY_NAME_ID || n.name_id == FAMILY_NAME_ID {
            match &n.text {
                Some(t) => {
                    if n.language_id == KOREAN_LANGUAGE_ID {
                        proof {
                            let j = choose|j: int|
                                0 <= j < names@.len() && is_family_record(names@[j])
                                    && names@[j].language_id == KOREAN_LANGUAGE_ID && forall|k: int|
                                    0 <= k < j ==> !(is_family_record(names@[k])
                                        && names@[k].language_id == KOREAN_LANGUAGE_ID);
                            assert(j == i) by {
                                if j < i {
                                } else if i < j {
                                    assert(!(is_family_record(names@[i as int])
                                        && names@[i as int].language_id == KOREAN_LANGUAGE_ID));
                                }
                            }
                        }
                        return Some(t.clone());
                    }
                    if family.is_none() || n.language_id == ENGLISH_LANGUAGE_ID {
                        family = Some(t.clone());
                    }
                    proof {
                        if first == -1 {
                            first = i as int;
                        }
                        if n.language_id == ENGLISH_LANGUAGE_ID {
                            english = i as int;
                        }
                    }
                },
                None => {},
            }
        }
        i = i + 1;
    }
    proof {
        if english >= 0 {
            let j = choose|j: int|
                0 <= j < names@.len() && is_family_record(names@[j]) && names@[j].language_id
                    == ENGLISH_LANGUAGE_ID && forall|k: int|
                    j < k < names@.len() ==> !(is_family_record(names@[k])
                        && names@[k].language_id == ENGLISH_LANGUAGE_ID);
            assert(j == english) by {
                if j < english {
                } else if english < j {
                    assert(!(is_family_record(names@[j]) && names@[j].language_id
                        == ENGLISH_LANGUAGE_ID));
                }
            }
        } else if first >= 0 {
            let j = choose|j: int|
                0 <= j < names@.len() && is_family_record(names@[j]) && forall|k: int|
                    0 <= k < j ==> !is_family_record(names@[k]);
            assert(j == first) by {
                if j < first {
                } else if first < j {
                }
            }
        }
    }
    family
}

} // verus!
