//! User-dictionary words.
//!
//! A word carries a written form, a katakana pronunciation, an accent type,
//! a word type and a priority.  Construction validates the pronunciation and
//! the accent type, counts the pronunciation's morae, and widens the written
//! form's ASCII characters to their full-width forms; a valid word can be
//! rendered as one dictionary line in the analyser's comma-separated format.

use vstd::prelude::*;
use vstd::string::{StrSliceExecFns, StringExecFns};

use crate::part_of_speech::{
    part_of_speech_detail, priority2cost, spec_context_id, spec_pos_labels, spec_priority_cost,
};
use crate::text::{i32_to_string, spec_int_dec, spec_nat_dec, usize_to_string};

verus! {

/// The lowest accepted word priority.
pub const MIN_PRIORITY: u32 = 0;

/// The highest accepted word priority.
pub const MAX_PRIORITY: u32 = 10;

/// Why a word was rejected at construction.
#[derive(Clone, Copy, Debug, PartialEq, Eq, Structural)]
pub enum InvalidWordError {
    /// The priority lies outside the accepted range.
    PriorityOutOfRange,
    /// The pronunciation is empty or holds a character that is not katakana.
    PronunciationNotKatakana,
    /// Two small kana follow each other where that is not a valid mora.
    SmallKanaSequence,
    /// A small `wa` appears after a character other than `ku` or `gu`.
    SmallWaUsage,
    /// The accent type exceeds the pronunciation's mora count.
    AccentTypeOutOfRange { accent_type: usize, mora_count: usize },
}

/// The kind of a dictionary word.
#[derive(Clone, Copy, Debug, PartialEq, Eq, Hash, Structural)]
pub enum UserDictWordType {
    ProperNoun,
    CommonNoun,
    Verb,
    Adjective,
    Suffix,
}

/// One word of a user dictionary.
#[derive(Clone, Debug)]
pub struct UserDictWord {
    /// The written form, full-width where it was ASCII.
    pub surface: String,
    /// The katakana pronunciation.
    pub pronunciation: String,
    /// The accent type: the mora after which the pitch falls.
    pub accent_type: usize,
    /// The kind of the word.
    pub word_type: UserDictWordType,
    /// The priority, between `MIN_PRIORITY` and `MAX_PRIORITY`.
    pub priority: u32,
    /// The number of morae in the pronunciation; computed at construction.
    pub mora_count: usize,
}

/// A katakana character: the block from small `a` to `vu`, or the long-vowel
/// mark.
pub open spec fn spec_is_katakana(c: char) -> bool {
    (0x30A1 <= c as u32 && c as u32 <= 0x30F4) || c as u32 == 0x30FC
}

/// A small kana (sutegana).
pub open spec fn spec_is_sutegana(c: char) -> bool {
    c == 'ァ' || c == 'ィ' || c == 'ゥ' || c == 'ェ' || c == 'ォ' || c == 'ャ' || c == 'ュ'
        || c == 'ョ' || c == 'ヮ' || c == 'ッ'
}

/// A small kana other than the sokuon `ッ`.
pub open spec fn spec_is_small_vowel(c: char) -> bool {
    spec_is_sutegana(c) && c != 'ッ'
}

/// An invalid run of small kana starting at `i`: a small kana followed by a
/// small vowel, or a sokuon followed by any small kana.
pub open spec fn spec_bad_sutegana_at(s: Seq<char>, i: int) -> bool {
    &&& 0 <= i
    &&& i + 1 < s.len()
    &&& spec_is_sutegana(s[i])
    &&& (spec_is_small_vowel(s[i + 1]) || (s[i] == 'ッ' && spec_is_sutegana(s[i + 1])))
}

/// An invalid small `wa` at `i`: anywhere but after `ク` or `グ`, except at
/// the start.
pub open spec fn spec_bad_small_wa_at(s: Seq<char>, i: int) -> bool {
    &&& 0 < i < s.len()
    &&& s[i] == 'ヮ'
    &&& s[i - 1] != 'ク'
    &&& s[i - 1] != 'グ'
}

/// Every character is katakana and there is at least one.
pub open spec fn spec_all_katakana(s: Seq<char>) -> bool {
    s.len() > 0 && forall|i: int| 0 <= i < s.len() ==> spec_is_katakana(#[trigger] s[i])
}

/// A valid pronunciation: katakana throughout, with no invalid small-kana
/// run and no misplaced small `wa`.
pub open spec fn spec_valid_pronunciation(s: Seq<char>) -> bool {
    &&& spec_all_katakana(s)
    &&& forall|i: int| !spec_bad_sutegana_at(s, i)
    &&& forall|i: int| !spec_bad_small_wa_at(s, i)
}

/// The scan that validation performs from position `i` on: the first
/// violation decides the error, small-kana runs checked before small `wa`.
pub open spec fn spec_pron_scan(s: Seq<char>, i: int) -> Result<(), InvalidWordError>
    decreases s.len() - i,
{
    if i < 0 || i >= s.len() {
        Ok(())
    } else if spec_bad_sutegana_at(s, i) {
        Err(InvalidWordError::SmallKanaSequence)
    } else if spec_bad_small_wa_at(s, i) {
        Err(InvalidWordError::SmallWaUsage)
    } else {
        spec_pron_scan(s, i + 1)
    }
}

/// What pronunciation validation returns: the katakana check first, then the
/// positional scan.
pub open spec fn spec_pron_check(s: Seq<char>) -> Result<(), InvalidWordError> {
    if !spec_all_katakana(s) {
        Err(InvalidWordError::PronunciationNotKatakana)
    } else {
        spec_pron_scan(s, 0)
    }
}

/// A clean prefix does not change the scan's outcome.
proof fn lemma_scan_advance(s: Seq<char>, i: int)
    requires
        0 <= i <= s.len(),
        forall|j: int| 0 <= j < i ==> !spec_bad_sutegana_at(s, j) && !spec_bad_small_wa_at(s, j),
    ensures
        spec_pron_scan(s, 0) == spec_pron_scan(s, i),
    decreases i,
{
    if i > 0 {
        lemma_scan_advance(s, i - 1);
        assert(spec_pron_scan(s, i - 1) == spec_pron_scan(s, i));
    }
}

/// The scan succeeds exactly when no violation exists anywhere at or after
/// its start.
proof fn lemma_scan_ok(s: Seq<char>, i: int)
    requires
        0 <= i <= s.len(),
    ensures
        spec_pron_scan(s, i) is Ok <==> forall|j: int|
            i <= j < s.len() ==> !spec_bad_sutegana_at(s, j) && !spec_bad_small_wa_at(s, j),
    decreases s.len() - i,
{
    if i < s.len() {
        lemma_scan_ok(s, i + 1);
    }
}

/// Validation succeeds exactly on valid pronunciations.
pub proof fn lemma_pron_check_iff(s: Seq<char>)
    ensures
        spec_pron_check(s) is Ok <==> spec_valid_pronunciation(s),
{
    if spec_all_katakana(s) {
        lemma_scan_ok(s, 0);
        if spec_pron_scan(s, 0) is Ok {
            assert forall|i: int| !spec_bad_sutegana_at(s, i) by {
                if 0 <= i && i + 1 < s.len() {
                    assert(!spec_bad_sutegana_at(s, i));
                }
            }
            assert forall|i: int| !spec_bad_small_wa_at(s, i) by {
                if 0 < i < s.len() {
                    assert(!spec_bad_small_wa_at(s, i));
                }
            }
        }
    }
}

/// Two characters that form a single mora: a palatalized or otherwise
/// combined pair, as the analyser's mora grammar has them.
pub open spec fn spec_two_char_mora(c1: char, c2: char) -> bool {
    ||| (c1 == 'イ' && c2 == 'ェ')
    ||| (c1 == 'ヴ' && (c2 == 'ャ' || c2 == 'ュ' || c2 == 'ョ'))
    ||| ((c1 == 'ト' || c1 == 'ド') && c2 == 'ゥ')
    ||| ((c1 == 'テ' || c1 == 'デ') && (c2 == 'ィ' || c2 == 'ャ' || c2 == 'ュ' || c2 == 'ョ'))
    ||| (c1 == 'デ' && c2 == 'ェ')
    ||| ((c1 == 'ク' || c1 == 'グ') && c2 == 'ヮ')
    ||| ((c1 == 'キ' || c1 == 'シ' || c1 == 'チ' || c1 == 'ニ' || c1 == 'ヒ' || c1 == 'ミ'
        || c1 == 'リ' || c1 == 'ギ' || c1 == 'ジ' || c1 == 'ビ' || c1 == 'ピ') && (c2 == 'ェ'
        || c2 == 'ャ' || c2 == 'ュ' || c2 == 'ョ'))
    ||| ((c1 == 'ツ' || c1 == 'フ' || c1 == 'ヴ') && c2 == 'ァ')
    ||| ((c1 == 'ウ' || c1 == 'ス' || c1 == 'ツ' || c1 == 'フ' || c1 == 'ヴ' || c1 == 'ズ')
        && c2 == 'ィ')
    ||| ((c1 == 'ウ' || c1 == 'ツ' || c1 == 'フ' || c1 == 'ヴ') && (c2 == 'ェ' || c2 == 'ォ'))
}

/// The number of morae in a pronunciation: a left-to-right scan that prefers
/// a two-character mora, then a single katakana, and passes over anything
/// else.
pub open spec fn spec_mora_count(s: Seq<char>) -> nat
    decreases s.len(),
{
    if s.len() == 0 {
        0
    } else if s.len() >= 2 && spec_two_char_mora(s[0], s[1]) {
        1 + spec_mora_count(s.skip(2))
    } else if spec_is_katakana(s[0]) {
        1 + spec_mora_count(s.skip(1))
    } else {
        spec_mora_count(s.skip(1))
    }
}

fn is_katakana(c: char) -> (r: bool)
    ensures
        r == spec_is_katakana(c),
{
    let u = c as u32;
    (0x30A1 <= u && u <= 0x30F4) || u == 0x30FC
}

fn is_sutegana(c: char) -> (r: bool)
    ensures
        r == spec_is_sutegana(c),
{
    c == 'ァ' || c == 'ィ' || c == 'ゥ' || c == 'ェ' || c == 'ォ' || c == 'ャ' || c == 'ュ'
        || c == 'ョ' || c == 'ヮ' || c == 'ッ'
}

fn is_two_char_mora(c1: char, c2: char) -> (r: bool)
    ensures
        r == spec_two_char_mora(c1, c2),
{
    (c1 == 'イ' && c2 == 'ェ') || (c1 == 'ヴ' && (c2 == 'ャ' || c2 == 'ュ' || c2 == 'ョ')) || ((c1
        == 'ト' || c1 == 'ド') && c2 == 'ゥ') || ((c1 == 'テ' || c1 == 'デ') && (c2 == 'ィ' || c2
        == 'ャ' || c2 == 'ュ' || c2 == 'ョ')) || (c1 == 'デ' && c2 == 'ェ') || ((c1 == 'ク' || c1
        == 'グ') && c2 == 'ヮ') || ((c1 == 'キ' || c1 == 'シ' || c1 == 'チ' || c1 == 'ニ' || c1
        == 'ヒ' || c1 == 'ミ' || c1 == 'リ' || c1 == 'ギ' || c1 == 'ジ' || c1 == 'ビ' || c1
        == 'ピ') && (c2 == 'ェ' || c2 == 'ャ' || c2 == 'ュ' || c2 == 'ョ')) || ((c1 == 'ツ' || c1
        == 'フ' || c1 == 'ヴ') && c2 == 'ァ') || ((c1 == 'ウ' || c1 == 'ス' || c1 == 'ツ' || c1
        == 'フ' || c1 == 'ヴ' || c1 == 'ズ') && c2 == 'ィ') || ((c1 == 'ウ' || c1 == 'ツ' || c1
        == 'フ' || c1 == 'ヴ') && (c2 == 'ェ' || c2 == 'ォ'))
}

/// A full-width counterpart for one character: printable ASCII is moved up
/// into the full-width block, anything else is kept.
pub open spec fn spec_to_zenkaku_char(c: char) -> char {
    if 0x21 <= c as u32 && c as u32 <= 0x7E {
        (c as u32 + 0xFEE0) as char
    } else {
        c
    }
}

/// The full-width form of a whole string.
pub open spec fn spec_to_zenkaku(s: Seq<char>) -> Seq<char>
    decreases s.len(),
{
    if s.len() == 0 {
        Seq::<char>::empty()
    } else {
        spec_to_zenkaku(s.drop_last()).push(spec_to_zenkaku_char(s.last()))
    }
}

impl UserDictWord {
    /// Builds a validated word.
    ///
    /// The priority must lie in the accepted range, the pronunciation must
    /// be valid katakana, and the accent type must not exceed the
    /// pronunciation's mora count; the first violated rule, in that order,
    /// is the error returned.  On success the surface is stored in its
    /// full-width form and the mora count is stored alongside the inputs.
    pub fn new(
        surface: String,
        pronunciation: String,
        accent_type: usize,
        word_type: UserDictWordType,
        priority: u32,
    ) -> (r: Result<UserDictWord, InvalidWordError>)
        ensures
            r is Ok <==> (priority <= MAX_PRIORITY && spec_valid_pronunciation(pronunciation@)
                && accent_type <= spec_mora_count(pronunciation@)),
            priority > MAX_PRIORITY ==> r == Err::<UserDictWord, _>(
                InvalidWordError::PriorityOutOfRange,
            ),
            priority <= MAX_PRIORITY ==> (spec_pron_check(pronunciation@) matches Err(e) ==> r
                == Err::<UserDictWord, _>(e)),
            (priority <= MAX_PRIORITY && spec_valid_pronunciation(pronunciation@) && accent_type
                > spec_mora_count(pronunciation@)) ==> r == Err::<UserDictWord, _>(
                InvalidWordError::AccentTypeOutOfRange {
                    accent_type,
                    mora_count: spec_mora_count(pronunciation@) as usize,
                },
            ),
            r matches Ok(w) ==> w.surface@ == spec_to_zenkaku(surface@) && w.pronunciation@
                == pronunciation@ && w.accent_type == accent_type && w.word_type == word_type
                && w.priority == priority && w.mora_count == spec_mora_count(pronunciation@),
    {
        if priority > MAX_PRIORITY {
            return Err(InvalidWordError::PriorityOutOfRange);
        }
        match Self::validate_pronunciation(pronunciation.as_str()) {
            Err(e) => {
                return Err(e);
            },
            Ok(()) => {},
        }
        proof {
            lemma_pron_check_iff(pronunciation@);
        }
        let mora_count = match Self::calculate_mora_count(pronunciation.as_str(), accent_type) {
            Err(e) => {
                return Err(e);
            },
            Ok(m) => m,
        };
        Ok(UserDictWord {
            surface: Self::to_zenkaku(surface.as_str()),
            pronunciation,
            accent_type,
            word_type,
            priority,
            mora_count,
        })
    }

    /// Checks that a pronunciation is valid katakana: only katakana
    /// characters, at least one, no invalid small-kana run and no misplaced
    /// small `wa`.
    pub fn validate_pronunciation(pronunciation: &str) -> (r: Result<(), InvalidWordError>)
        ensures
            r == spec_pron_check(pronunciation@),
            r is Ok <==> spec_valid_pronunciation(pronunciation@),
    {
        proof {
            lemma_pron_check_iff(pronunciation@);
        }
        let n = pronunciation.unicode_len();
        if n == 0 {
            return Err(InvalidWordError::PronunciationNotKatakana);
        }
        let mut i: usize = 0;
        while i < n
            invariant
                n == pronunciation@.len(),
                i <= n,
                forall|j: int|
                    0 <= j < i ==> spec_is_katakana(#[trigger] pronunciation@[j]),
            decreases n - i,
        {
            if !is_katakana(pronunciation.get_char(i)) {
                return Err(InvalidWordError::PronunciationNotKatakana);
            }
            i += 1;
        }
        let mut i: usize = 0;
        while i < n
            invariant
                n == pronunciation@.len(),
                i <= n,
                spec_all_katakana(pronunciation@),
                forall|j: int|
                    0 <= j < i ==> !spec_bad_sutegana_at(pronunciation@, j)
                        && !spec_bad_small_wa_at(pronunciation@, j),
            decreases n - i,
        {
            let c = pronunciation.get_char(i);
            if is_sutegana(c) && i + 1 < n {
                let c2 = pronunciation.get_char(i + 1);
                if (is_sutegana(c2) && c2 != 'ッ') || (c == 'ッ' && is_sutegana(c2)) {
                    proof {
                        lemma_scan_advance(pronunciation@, i as int);
                    }
                    return Err(InvalidWordError::SmallKanaSequence);
                }
            }
            if c == 'ヮ' && i != 0 {
                let prev = pronunciation.get_char(i - 1);
                if prev != 'ク' && prev != 'グ' {
                    proof {
                        lemma_scan_advance(pronunciation@, i as int);
                    }
                    return Err(InvalidWordError::SmallWaUsage);
                }
            }
            i += 1;
        }
        proof {
            lemma_scan_advance(pronunciation@, n as int);
        }
        Ok(())
    }

    /// Counts the morae of a pronunciation and checks the accent type
    /// against the count.
    pub fn calculate_mora_count(pronunciation: &str, accent_type: usize) -> (r: Result<
        usize,
        InvalidWordError,
    >)
        ensures
            r is Ok <==> accent_type <= spec_mora_count(pronunciation@),
            r matches Ok(m) ==> m == spec_mora_count(pronunciation@),
            accent_type > spec_mora_count(pronunciation@) ==> r == Err::<usize, _>(
                InvalidWordError::AccentTypeOutOfRange {
                    accent_type,
                    mora_count: spec_mora_count(pronunciation@) as usize,
                },
            ),
    {
        let n = pronunciation.unicode_len();
        let mut count: usize = 0;
        let mut i: usize = 0;
        proof {
            assert(pronunciation@.skip(0) =~= pronunciation@);
        }
        while i < n
            invariant
                n == pronunciation@.len(),
                i <= n,
                count <= i,
                spec_mora_count(pronunciation@) == count + spec_mora_count(
                    pronunciation@.skip(i as int),
                ),
            decreases n - i,
        {
            let ghost s = pronunciation@;
            let ghost i0 = i as int;
            let c = pronunciation.get_char(i);
            if i + 1 < n && is_two_char_mora(c, pronunciation.get_char(i + 1)) {
                proof {
                    assert(s.skip(i0)[0] == s[i0]);
                    assert(s.skip(i0)[1] == s[i0 + 1]);
                    assert(s.skip(i0).skip(2) =~= s.skip(i0 + 2));
                }
                count += 1;
                i += 2;
            } else {
                proof {
                    assert(s.skip(i0)[0] == s[i0]);
                    assert(s.skip(i0).skip(1) =~= s.skip(i0 + 1));
                    if i0 + 1 < s.len() {
                        assert(s.skip(i0)[1] == s[i0 + 1]);
                    }
                }
                if is_katakana(c) {
                    count += 1;
                }
                i += 1;
            }
        }
        proof {
            assert(pronunciation@.skip(n as int) =~= Seq::<char>::empty());
        }
        if accent_type > count {
            return Err(InvalidWordError::AccentTypeOutOfRange {
                accent_type,
                mora_count: count,
            });
        }
        Ok(count)
    }

    /// Widens printable ASCII characters to their full-width forms, keeping
    /// everything else.
    pub fn to_zenkaku(surface: &str) -> (r: String)
        ensures
            r@ == spec_to_zenkaku(surface@),
    {
        let n = surface.unicode_len();
        let mut result = String::new();
        let mut i: usize = 0;
        proof {
            assert(surface@.take(0) =~= Seq::<char>::empty());
        }
        while i < n
            invariant
                n == surface@.len(),
                i <= n,
                result@ == spec_to_zenkaku(surface@.take(i as int)),
            decreases n - i,
        {
            let c = surface.get_char(i);
            let u = c as u32;
            if 0x21 <= u && u <= 0x7E {
                match char::from_u32(0xFEE0 + u) {
                    Some(w) => result.push(w),
                    None => result.push(c),
                }
            } else {
                result.push(c);
            }
            proof {
                let s = surface@;
                assert(s.take(i as int + 1).drop_last() =~= s.take(i as int));
                assert(s.take(i as int + 1).last() == s[i as int]);
            }
            i += 1;
        }
        proof {
            assert(surface@.take(n as int) =~= surface@);
        }
        result
    }
}

/// One dictionary line in the analyser's comma-separated format: surface,
/// context ids, cost, the four part-of-speech labels, placeholder columns,
/// the pronunciation twice, `accent_type/mora_count`, and a final
/// placeholder.
pub open spec fn spec_mecab_line(w: UserDictWord) -> Seq<char> {
    w.surface@ + ","@ + spec_int_dec(spec_context_id(w.word_type) as int) + ","@ + spec_int_dec(
        spec_context_id(w.word_type) as int,
    ) + ","@ + spec_int_dec(spec_priority_cost(w.word_type, w.priority) as int) + ","@
        + spec_pos_labels(w.word_type).0 + ","@ + spec_pos_labels(w.word_type).1 + ","@
        + spec_pos_labels(w.word_type).2 + ","@ + spec_pos_labels(w.word_type).3 + ",*,*,*,"@
        + w.pronunciation@ + ","@ + w.pronunciation@ + ","@ + spec_nat_dec(w.accent_type as nat)
        + "/"@ + spec_nat_dec(w.mora_count as nat) + ",*\n"@
}

impl UserDictWord {
    /// Renders the word as one dictionary line for the analyser.
    pub fn to_mecab_format(&self) -> (r: String)
        requires
            self.priority <= MAX_PRIORITY,
        ensures
            r@ == spec_mecab_line(*self),
    {
        let pos = part_of_speech_detail(self.word_type);
        let cost = priority2cost(pos.context_id, self.priority);
        let mut line = String::new();
        line.append(self.surface.as_str());
        line.append(",");
        let ctx = i32_to_string(pos.context_id);
        line.append(ctx.as_str());
        line.append(",");
        line.append(ctx.as_str());
        line.append(",");
        let cost_text = i32_to_string(cost);
        line.append(cost_text.as_str());
        line.append(",");
        line.append(pos.part_of_speech.as_str());
        line.append(",");
        line.append(pos.part_of_speech_detail_1.as_str());
        line.append(",");
        line.append(pos.part_of_speech_detail_2.as_str());
        line.append(",");
        line.append(pos.part_of_speech_detail_3.as_str());
        line.append(",*,*,*,");
        line.append(self.pronunciation.as_str());
        line.append(",");
        line.append(self.pronunciation.as_str());
        line.append(",");
        let accent = usize_to_string(self.accent_type);
        line.append(accent.as_str());
        line.append("/");
        let mora = usize_to_string(self.mora_count);
        line.append(mora.as_str());
        line.append(",*\n");
        proof {
            assert(line@ =~= spec_mecab_line(*self));
        }
        line
    }
}

impl Default for UserDictWord {
    /// An empty common noun of priority zero.
    fn default() -> (r: Self)
        ensures
            r.surface@ == Seq::<char>::empty(),
            r.pronunciation@ == Seq::<char>::empty(),
            r.accent_type == 0,
            r.word_type == UserDictWordType::CommonNoun,
            r.priority == 0,
            r.mora_count == 0,
    {
        UserDictWord {
            surface: String::new(),
            pronunciation: String::new(),
            accent_type: 0,
            word_type: UserDictWordType::CommonNoun,
            priority: 0,
            mora_count: 0,
        }
    }
}

} // verus!
