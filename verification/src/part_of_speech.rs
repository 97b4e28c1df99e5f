//! Part-of-speech data for dictionary words: the analyser's context ids,
//! category labels and cost tables, one row per word type.

use vstd::prelude::*;
use vstd::string::StringExecFns;

use crate::word::{UserDictWordType, MAX_PRIORITY};

verus! {

/// The analyser's context id for one word type.
pub open spec fn spec_context_id(word_type: UserDictWordType) -> i32 {
    match word_type {
        UserDictWordType::ProperNoun => 1348,
        UserDictWordType::CommonNoun => 1345,
        UserDictWordType::Verb => 642,
        UserDictWordType::Adjective => 19,
        UserDictWordType::Suffix => 1358,
    }
}

/// The word type carrying one context id, if any does.
pub open spec fn spec_word_type_of_context_id(context_id: i32) -> Option<UserDictWordType> {
    if context_id == 1348 {
        Some(UserDictWordType::ProperNoun)
    } else if context_id == 1345 {
        Some(UserDictWordType::CommonNoun)
    } else if context_id == 642 {
        Some(UserDictWordType::Verb)
    } else if context_id == 19 {
        Some(UserDictWordType::Adjective)
    } else if context_id == 1358 {
        Some(UserDictWordType::Suffix)
    } else {
        None
    }
}

/// The four part-of-speech labels for one word type, most general first.
pub open spec fn spec_pos_labels(word_type: UserDictWordType) -> (Seq<char>, Seq<char>, Seq<
    char,
>, Seq<char>) {
    match word_type {
        UserDictWordType::ProperNoun => ("名詞"@, "固有名詞"@, "一般"@, "*"@),
        UserDictWordType::CommonNoun => ("名詞"@, "一般"@, "*"@, "*"@),
        UserDictWordType::Verb => ("動詞"@, "自立"@, "*"@, "*"@),
        UserDictWordType::Adjective => ("形容詞"@, "自立"@, "*"@, "*"@),
        UserDictWordType::Suffix => ("名詞"@, "接尾"@, "一般"@, "*"@),
    }
}

/// The eleven cost candidates for one word type: the cost at index `k`
/// belongs to priority `MAX_PRIORITY - k`.
pub open spec fn spec_cost_candidates(word_type: UserDictWordType) -> Seq<i32> {
    match word_type {
        UserDictWordType::ProperNoun => seq![
            -988i32,
            3488,
            4768,
            6048,
            7328,
            8609,
            8734,
            8859,
            8984,
            9110,
            14176,
        ],
        UserDictWordType::CommonNoun => seq![
            -4445i32,
            49,
            1473,
            2897,
            4321,
            5746,
            6554,
            7362,
            8170,
            8979,
            15001,
        ],
        UserDictWordType::Verb => seq![
            3100i32,
            6160,
            6360,
            6561,
            6761,
            6962,
            7414,
            7866,
            8318,
            8771,
            13433,
        ],
        UserDictWordType::Adjective => seq![
            1527i32,
            3266,
            3561,
            3857,
            4153,
            4449,
            5149,
            5849,
            6549,
            7250,
            10001,
        ],
        UserDictWordType::Suffix => seq![
            4399i32,
            5373,
            6041,
            6710,
            7378,
            8047,
            9440,
            10834,
            12228,
            13622,
            15847,
        ],
    }
}

/// The cost a word of this type gets at one priority: a higher priority
/// picks a lower cost from the type's candidate table.
pub open spec fn spec_priority_cost(word_type: UserDictWordType, priority: u32) -> i32 {
    spec_cost_candidates(word_type)[MAX_PRIORITY - priority]
}

/// One word type's dictionary row: its labels and its context id.
pub struct PartOfSpeechDetail {
    pub part_of_speech: String,
    pub part_of_speech_detail_1: String,
    pub part_of_speech_detail_2: String,
    pub part_of_speech_detail_3: String,
    pub context_id: i32,
}

/// The dictionary row of one word type.
pub fn part_of_speech_detail(word_type: UserDictWordType) -> (r: PartOfSpeechDetail)
    ensures
        r.context_id == spec_context_id(word_type),
        r.part_of_speech@ == spec_pos_labels(word_type).0,
        r.part_of_speech_detail_1@ == spec_pos_labels(word_type).1,
        r.part_of_speech_detail_2@ == spec_pos_labels(word_type).2,
        r.part_of_speech_detail_3@ == spec_pos_labels(word_type).3,
{
    match word_type {
        UserDictWordType::ProperNoun => PartOfSpeechDetail {
            part_of_speech: "名詞".to_owned(),
            part_of_speech_detail_1: "固有名詞".to_owned(),
            part_of_speech_detail_2: "一般".to_owned(),
            part_of_speech_detail_3: "*".to_owned(),
            context_id: 1348,
        },
        UserDictWordType::CommonNoun => PartOfSpeechDetail {
            part_of_speech: "名詞".to_owned(),
            part_of_speech_detail_1: "一般".to_owned(),
            part_of_speech_detail_2: "*".to_owned(),
            part_of_speech_detail_3: "*".to_owned(),
            context_id: 1345,
        },
        UserDictWordType::Verb => PartOfSpeechDetail {
            part_of_speech: "動詞".to_owned(),
            part_of_speech_detail_1: "自立".to_owned(),
            part_of_speech_detail_2: "*".to_owned(),
            part_of_speech_detail_3: "*".to_owned(),
            context_id: 642,
        },
        UserDictWordType::Adjective => PartOfSpeechDetail {
            part_of_speech: "形容詞".to_owned(),
            part_of_speech_detail_1: "自立".to_owned(),
            part_of_speech_detail_2: "*".to_owned(),
            part_of_speech_detail_3: "*".to_owned(),
            context_id: 19,
        },
        UserDictWordType::Suffix => PartOfSpeechDetail {
            part_of_speech: "名詞".to_owned(),
            part_of_speech_detail_1: "接尾".to_owned(),
            part_of_speech_detail_2: "一般".to_owned(),
            part_of_speech_detail_3: "*".to_owned(),
            context_id: 1358,
        },
    }
}

/// The cost for a context id and priority, from the candidate table of the
/// word type that owns the id.
pub fn priority2cost(context_id: i32, priority: u32) -> (r: i32)
    requires
        spec_word_type_of_context_id(context_id) is Some,
        priority <= MAX_PRIORITY,
    ensures
        r == spec_priority_cost(spec_word_type_of_context_id(context_id)->0, priority),
{
    let k = (MAX_PRIORITY - priority) as usize;
    let mut candidates: Vec<i32> = Vec::new();
    if context_id == 1348 {
        candidates.push(-988);
        candidates.push(3488);
        candidates.push(4768);
        candidates.push(6048);
        candidates.push(7328);
        candidates.push(8609);
        candidates.push(8734);
        candidates.push(8859);
        candidates.push(8984);
        candidates.push(9110);
        candidates.push(14176);
    } else if context_id == 1345 {
        candidates.push(-4445);
        candidates.push(49);
        candidates.push(1473);
        candidates.push(2897);
        candidates.push(4321);
        candidates.push(5746);
        candidates.push(6554);
        candidates.push(7362);
        candidates.push(8170);
        candidates.push(8979);
        candidates.push(15001);
    } else if context_id == 642 {
        candidates.push(3100);
        candidates.push(6160);
        candidates.push(6360);
        candidates.push(6561);
        candidates.push(6761);
        candidates.push(6962);
        candidates.push(7414);
        candidates.push(7866);
        candidates.push(8318);
        candidates.push(8771);
        candidates.push(13433);
    } else if context_id == 19 {
        candidates.push(1527);
        candidates.push(3266);
        candidates.push(3561);
        candidates.push(3857);
        candidates.push(4153);
        candidates.push(4449);
        candidates.push(5149);
        candidates.push(5849);
        candidates.push(6549);
        candidates.push(7250);
        candidates.push(10001);
    } else {
        candidates.push(4399);
        candidates.push(5373);
        candidates.push(6041);
        candidates.push(6710);
        candidates.push(7378);
        candidates.push(8047);
        candidates.push(9440);
        candidates.push(10834);
        candidates.push(12228);
        candidates.push(13622);
        candidates.push(15847);
    }
    proof {
        let wt = spec_word_type_of_context_id(context_id)->0;
        assert(candidates@ =~= spec_cost_candidates(wt));
    }
    candidates[k]
}

} // verus!
