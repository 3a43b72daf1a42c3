//! The chat-completion prompts of the polish and fusion stages, with the
//! personal-dictionary block appended whenever the dictionary is non-empty.

use vstd::prelude::*;
use crate::dictionary::DictionaryEntry;
use crate::ensemble::{ProviderResult, ProviderResultSpec, results_view, result_view};
use crate::text::dec_str_spec;

verus! {

/// The fixed system instruction of the polish stage.
pub const POLISH_SYSTEM_PROMPT: &'static str = "Clean up this voice transcription. Output the COMPLETE cleaned text.\n\nRULES:\n1. Keep ALL content - do NOT remove or shorten anything\n2. NEVER translate - keep original language(s) exactly (French stays French, English stays English, mixed stays mixed)\n3. Remove only filler words: um, uh, like (as filler), you know, basically\n4. Fix grammar but keep casual tone\n5. Add punctuation\n6. Self-corrections only: \"Tuesday no wait Wednesday\" -> \"Wednesday\"\n\nOutput the FULL cleaned transcription, nothing else.";

/// The fixed system instruction of the fusion stage.
pub const FUSION_SYSTEM_PROMPT: &'static str = "You are a transcription expert. You will receive multiple transcriptions of the same audio from different speech recognition systems.\n\nYour task:\n1. ANALYZE all transcriptions to identify the most accurate version\n2. RESOLVE disagreements by choosing the most likely correct words based on:\n   - Agreement across multiple systems (consensus is usually correct)\n   - Acoustic plausibility (words that sound similar in speech)\n   - Grammatical correctness and natural language flow\n   - Context and semantic coherence\n3. CLEAN UP the result: remove filler words (um, uh, like), fix grammar, add punctuation\n4. PRESERVE the speaker's intent and any language mixing (French/English stays mixed)\n\nOutput ONLY the final, cleaned transcription. No explanations.";

/// The heading of the personal-dictionary block.
pub const DICTIONARY_HEADER: &'static str = "\n\nPERSONAL DICTIONARY (use these exact spellings):\n";

/// One line of the personal-dictionary block.
pub open spec fn dict_line(e: DictionaryEntry) -> Seq<char> {
    "- "@ + e.original@ + " -> "@ + e.correction@ + "\n"@
}

/// The lines of the personal-dictionary block, in dictionary order.
pub open spec fn dict_lines(s: Seq<DictionaryEntry>) -> Seq<char>
    decreases s.len(),
{
    if s.len() == 0 {
        Seq::empty()
    } else {
        dict_lines(s.drop_last()) + dict_line(s.last())
    }
}

/// Appends the personal-dictionary block to a prompt.
fn append_dictionary(prompt: &mut String, dictionary: &[DictionaryEntry])
    ensures
        final(prompt)@ == old(prompt)@ + DICTIONARY_HEADER@ + dict_lines(dictionary@),
{
    let ghost base = prompt@;
    prompt.append(DICTIONARY_HEADER);
    let mut i: usize = 0;
    proof {
        assert(dictionary@.subrange(0, 0) =~= Seq::<DictionaryEntry>::empty());
        assert(prompt@ + dict_lines(dictionary@.subrange(0, 0)) =~= prompt@);
    }
    while i < dictionary.len()
        invariant
            i <= dictionary@.len(),
            prompt@ == base + DICTIONARY_HEADER@ + dict_lines(dictionary@.subrange(0, i as int)),
        decreases dictionary@.len() - i,
    {
        prompt.append("- ");
        prompt.append(dictionary[i].original.as_str());
        prompt.append(" -> ");
        prompt.append(dictionary[i].correction.as_str());
        prompt.append("\n");
        proof {
            let next = dictionary@.subrange(0, i + 1);
            assert(next.drop_last() =~= dictionary@.subrange(0, i as int));
            assert(next.last() == dictionary@[i as int]);
            assert(prompt@ =~= base + DICTIONARY_HEADER@ + dict_lines(next));
        }
        i = i + 1;
    }
    proof {
        assert(dictionary@.subrange(0, dictionary@.len() as int) =~= dictionary@);
    }
}

/// The polish system prompt: the fixed instruction, plus the
/// personal-dictionary block when the dictionary is non-empty.
pub open spec fn polish_prompt_spec(dictionary: Seq<DictionaryEntry>) -> Seq<char> {
    if dictionary.len() == 0 {
        POLISH_SYSTEM_PROMPT@
    } else {
        POLISH_SYSTEM_PROMPT@ + DICTIONARY_HEADER@ + dict_lines(dictionary)
    }
}

/// Builds the polish system prompt, instructing the model to use the
/// dictionary's exact spellings when any are stored.
pub fn build_polish_prompt(dictionary: &[DictionaryEntry]) -> (r: String)
    ensures
        r@ == polish_prompt_spec(dictionary@),
{
    let mut prompt = String::from_str(POLISH_SYSTEM_PROMPT);
    if dictionary.len() == 0 {
        return prompt;
    }
    append_dictionary(&mut prompt, dictionary);
    prompt
}

/// One labelled transcription block of the fusion user prompt.
pub open spec fn fusion_block(r: ProviderResultSpec) -> Seq<char> {
    "=== "@ + r.0 + " ("@ + dec_str_spec(r.2 as int) + "ms) ===\n"@ + r.1 + "\n\n"@
}

/// The labelled transcription blocks, in result order.
pub open spec fn fusion_blocks(rs: Seq<ProviderResultSpec>) -> Seq<char>
    decreases rs.len(),
{
    if rs.len() == 0 {
        Seq::empty()
    } else {
        fusion_blocks(rs.drop_last()) + fusion_block(rs.last())
    }
}

/// The opening line of the fusion user prompt.
pub const FUSION_PROMPT_INTRO: &'static str =
    "Here are the transcriptions from different speech recognition systems:\n\n";

/// The closing instruction of the fusion user prompt.
pub const FUSION_PROMPT_CLOSE: &'static str =
    "Please fuse these into the most accurate single transcription.";

/// The fusion user prompt: the intro, one labelled block per result, the
/// closing instruction, and the personal-dictionary block when the
/// dictionary is non-empty.
pub open spec fn fusion_prompt_spec(
    rs: Seq<ProviderResultSpec>,
    dictionary: Seq<DictionaryEntry>,
) -> Seq<char> {
    let body = FUSION_PROMPT_INTRO@ + fusion_blocks(rs) + FUSION_PROMPT_CLOSE@;
    if dictionary.len() == 0 {
        body
    } else {
        body + DICTIONARY_HEADER@ + dict_lines(dictionary)
    }
}

/// Builds the fusion user prompt from the provider results and the
/// dictionary.
pub fn build_fusion_prompt(results: &[ProviderResult], dictionary: &[DictionaryEntry]) -> (r:
    String)
    ensures
        r@ == fusion_prompt_spec(results_view(results@), dictionary@),
{
    let ghost rv = results_view(results@);
    let mut prompt = String::from_str(FUSION_PROMPT_INTRO);
    let mut i: usize = 0;
    proof {
        assert(rv.subrange(0, 0) =~= Seq::<ProviderResultSpec>::empty());
        assert(prompt@ + fusion_blocks(rv.subrange(0, 0)) =~= prompt@);
        assert(rv.len() == results@.len());
    }
    while i < results.len()
        invariant
            i <= results@.len(),
            rv == results_view(results@),
            rv.len() == results@.len(),
            prompt@ == FUSION_PROMPT_INTRO@ + fusion_blocks(rv.subrange(0, i as int)),
        decreases results@.len() - i,
    {
        proof {
            assert(rv[i as int] == result_view(results@[i as int]));
        }
        prompt.append("=== ");
        prompt.append(results[i].provider.as_str());
        prompt.append(" (");
        let latency = crate::text::u64_to_string(results[i].latency_ms);
        prompt.append(latency.as_str());
        prompt.append("ms) ===\n");
        prompt.append(results[i].text.as_str());
        prompt.append("\n\n");
        proof {
            let next = rv.subrange(0, i + 1);
            assert(next.drop_last() =~= rv.subrange(0, i as int));
            assert(next.last() == rv[i as int]);
            assert(prompt@ =~= FUSION_PROMPT_INTRO@ + fusion_blocks(next));
        }
        i = i + 1;
    }
    proof {
        assert(rv.subrange(0, rv.len() as int) =~= rv);
    }
    prompt.append(FUSION_PROMPT_CLOSE);
    if dictionary.len() > 0 {
        append_dictionary(&mut prompt, dictionary);
    }
    prompt
}

} // verus!
