//! Personal dictionary of learned proper-noun corrections: the keyed store
//! operations, and the detector that compares pasted text with a later
//! clipboard reading to learn a single-word correction.

use vstd::prelude::*;
use crate::text::{
    lower_char, lower_seq, trim_punct_spec, split_ws_spec, lower_chars, trim_punct_chars,
    split_ws, chars_eq, str_eq, str_to_chars, chars_to_string,
};

verus! {

/// A learned correction, keyed by the original (misheard) word.
#[derive(Clone, Debug)]
pub struct DictionaryEntry {
    /// The original (incorrect) transcription.
    pub original: String,
    /// The user's correction.
    pub correction: String,
    /// Unix timestamp of the entry's creation.
    pub created_at: i64,
}

/// The first index whose entry is keyed by `key`, or -1.
pub open spec fn find_original(s: Seq<DictionaryEntry>, key: Seq<char>) -> int
    decreases s.len(),
{
    if s.len() == 0 {
        -1
    } else if s[0].original@ == key {
        0
    } else {
        let r = find_original(s.drop_first(), key);
        if r == -1 {
            -1
        } else {
            r + 1
        }
    }
}

/// Inserts or updates the entry for `original`: when an entry with that key
/// exists the first one is replaced in place, otherwise a new entry is
/// appended (last write wins).
pub fn upsert_entry(entries: &mut Vec<DictionaryEntry>, original: &str, correction: &str, created_at: i64)
    ensures
        ({
            let idx = find_original(old(entries)@, original@);
            let at = if idx >= 0 {
                idx
            } else {
                old(entries)@.len() as int
            };
            &&& final(entries)@.len() == if idx >= 0 {
                old(entries)@.len() as int
            } else {
                old(entries)@.len() + 1int
            }
            &&& forall|j: int|
                0 <= j < old(entries)@.len() && j != at ==> final(entries)@[j] == old(entries)@[j]
            &&& final(entries)@[at].original@ == original@
            &&& final(entries)@[at].correction@ == correction@
            &&& final(entries)@[at].created_at == created_at
        }),
{
    let ghost s = entries@;
    let key = str_to_chars(original);
    let entry = DictionaryEntry {
        original: original.to_owned(),
        correction: correction.to_owned(),
        created_at,
    };
    let mut i: usize = 0;
    while i < entries.len()
        invariant
            i <= s.len(),
            s == entries@,
            s == old(entries)@,
            entry.original@ == original@,
            entry.correction@ == correction@,
            entry.created_at == created_at,
            key@ == original@,
            forall|j: int| 0 <= j < i ==> s[j].original@ != original@,
        decreases s.len() - i,
    {
        let ec = str_to_chars(entries[i].original.as_str());
        if chars_eq(&ec, &key) {
            proof {
                lemma_find_first(s, original@, i as int);
            }
            let ghost ev = entry;
            entries[i] = entry;
            proof {
                assert(entries@ =~= s.update(i as int, ev));
            }
            return ;
        }
        i = i + 1;
    }
    proof {
        lemma_find_none(s, original@);
    }
    entries.push(entry);
}

proof fn lemma_find_first(s: Seq<DictionaryEntry>, key: Seq<char>, i: int)
    requires
        0 <= i < s.len(),
        s[i].original@ == key,
        forall|j: int| 0 <= j < i ==> s[j].original@ != key,
    ensures
        find_original(s, key) == i,
    decreases s.len(),
{
    if i > 0 {
        let t = s.drop_first();
        assert(forall|j: int| 0 <= j < t.len() ==> t[j] == s[j + 1]);
        lemma_find_first(t, key, i - 1);
    }
}

proof fn lemma_find_none(s: Seq<DictionaryEntry>, key: Seq<char>)
    requires
        forall|j: int| 0 <= j < s.len() ==> s[j].original@ != key,
    ensures
        find_original(s, key) == -1,
    decreases s.len(),
{
    if s.len() > 0 {
        let t = s.drop_first();
        assert(forall|j: int| 0 <= j < t.len() ==> t[j] == s[j + 1]);
        lemma_find_none(t, key);
    }
}

/// The entries of `s` that are not keyed by `key`, in order.
pub open spec fn without_key(s: Seq<DictionaryEntry>, key: Seq<char>) -> Seq<DictionaryEntry>
    decreases s.len(),
{
    if s.len() == 0 {
        s
    } else if s[0].original@ == key {
        without_key(s.drop_first(), key)
    } else {
        seq![s[0]] + without_key(s.drop_first(), key)
    }
}

/// Removes every entry keyed by `original`. Returns whether anything was
/// removed; the caller surfaces "not found" as an error.
pub fn remove_entry(entries: &mut Vec<DictionaryEntry>, original: &str) -> (found: bool)
    ensures
        final(entries)@ == without_key(old(entries)@, original@),
        found == (final(entries)@.len() != old(entries)@.len()),
{
    let ghost s = entries@;
    let key = str_to_chars(original);
    let n0 = entries.len();
    let mut out: Vec<DictionaryEntry> = Vec::new();
    while entries.len() > 0
        invariant
            s == old(entries)@,
            n0 == s.len(),
            entries@.len() <= s.len(),
            key@ == original@,
            without_key(s, original@) == out@ + without_key(entries@, original@),
        decreases entries@.len(),
    {
        let ghost rem = entries@;
        let e = entries.remove(0);
        proof {
            assert(e == rem[0]);
            assert(entries@ =~= rem.drop_first());
        }
        let ec = str_to_chars(e.original.as_str());
        if !chars_eq(&ec, &key) {
            let ghost prev = out@;
            out.push(e);
            proof {
                assert(without_key(rem, original@) == seq![e] + without_key(entries@, original@));
                assert(prev + (seq![e] + without_key(entries@, original@)) =~= out@ + without_key(
                    entries@,
                    original@,
                ));
            }
        } else {
            proof {
                assert(without_key(rem, original@) == without_key(entries@, original@));
            }
        }
    }
    proof {
        assert(without_key(Seq::<DictionaryEntry>::empty(), original@)
            =~= Seq::<DictionaryEntry>::empty());
        assert(entries@ =~= Seq::<DictionaryEntry>::empty());
        assert(out@ + Seq::<DictionaryEntry>::empty() =~= out@);
    }
    let found = out.len() != n0;
    *entries = out;
    found
}

/// Whether a word begins with an upper-case letter (ASCII or Latin-1).
pub open spec fn starts_upper(w: Seq<char>) -> bool {
    w.len() > 0 && crate::text::is_upper_char(w[0])
}

/// Whether a word begins with a lower-case letter (ASCII or Latin-1).
pub open spec fn starts_lower(w: Seq<char>) -> bool {
    w.len() > 0 && crate::text::is_lower_char(w[0])
}

/// How many positions hold the same character in both words, compared
/// case-insensitively.
pub open spec fn match_count(a: Seq<char>, b: Seq<char>) -> int
    decreases a.len(),
{
    if a.len() == 0 || b.len() == 0 {
        0
    } else {
        (if lower_char(a[0]) == lower_char(b[0]) {
            1int
        } else {
            0int
        }) + match_count(a.drop_first(), b.drop_first())
    }
}

/// The positional similarity test of the correction detector: matching
/// positions divided by the longer word's length must exceed one half, or
/// three tenths when the original word started lower-case (the stronger
/// misheard-proper-noun signal). Stated over integers: the ratio r of a
/// word pair exceeds a threshold n/d exactly when d * matches > n * longer.
pub open spec fn similar_enough(o: Seq<char>, c: Seq<char>) -> bool {
    let num = match_count(o, c);
    let den = if o.len() >= c.len() {
        o.len() as int
    } else {
        c.len() as int
    };
    (starts_lower(o) && 10 * num > 3 * den) || 2 * num > den
}

/// Whether replacing `original` by `corrected` looks like a proper-noun
/// correction: both non-empty after stripping punctuation, the corrected
/// word capitalised, not a mere sentence-initial case fix, and the two
/// words positionally similar.
pub open spec fn is_proper_noun_correction_spec(
    original: Seq<char>,
    corrected: Seq<char>,
    is_sentence_start: bool,
) -> bool {
    let oc = trim_punct_spec(original);
    let cc = trim_punct_spec(corrected);
    &&& oc.len() > 0
    &&& cc.len() > 0
    &&& starts_upper(cc)
    &&& !(is_sentence_start && lower_seq(oc) == lower_seq(cc))
    &&& similar_enough(oc, cc)
}

/// Counts the case-insensitive positional matches of two words.
fn match_count_exec(a: &Vec<char>, b: &Vec<char>) -> (n: usize)
    ensures
        n == match_count(a@, b@),
{
    let min = if a.len() <= b.len() {
        a.len()
    } else {
        b.len()
    };
    let mut n: usize = 0;
    let mut i: usize = 0;
    proof {
        assert(a@.subrange(0, a@.len() as int) =~= a@);
        assert(b@.subrange(0, b@.len() as int) =~= b@);
    }
    while i < min
        invariant
            i <= min,
            min == if a@.len() <= b@.len() {
                a@.len()
            } else {
                b@.len()
            },
            n <= i,
            match_count(a@, b@) == n + match_count(
                a@.subrange(i as int, a@.len() as int),
                b@.subrange(i as int, b@.len() as int),
            ),
        decreases min - i,
    {
        proof {
            lemma_match_count_step(a@, b@, i as int);
        }
        let la = crate::text::lower_char_exec(a[i]);
        let lb = crate::text::lower_char_exec(b[i]);
        if la == lb {
            n = n + 1;
        }
        i = i + 1;
    }
    proof {
        lemma_match_count_empty(
            a@.subrange(i as int, a@.len() as int),
            b@.subrange(i as int, b@.len() as int),
        );
    }
    n
}

proof fn lemma_match_count_step(a: Seq<char>, b: Seq<char>, i: int)
    requires
        0 <= i < a.len(),
        0 <= i < b.len(),
    ensures
        match_count(a.subrange(i, a.len() as int), b.subrange(i, b.len() as int)) == (if lower_char(
            a[i],
        ) == lower_char(b[i]) {
            1int
        } else {
            0int
        }) + match_count(a.subrange(i + 1, a.len() as int), b.subrange(i + 1, b.len() as int)),
{
    let sa = a.subrange(i, a.len() as int);
    let sb = b.subrange(i, b.len() as int);
    assert(sa[0] == a[i]);
    assert(sb[0] == b[i]);
    assert(sa.drop_first() =~= a.subrange(i + 1, a.len() as int));
    assert(sb.drop_first() =~= b.subrange(i + 1, b.len() as int));
}

proof fn lemma_match_count_empty(a: Seq<char>, b: Seq<char>)
    requires
        a.len() == 0 || b.len() == 0,
    ensures
        match_count(a, b) == 0,
{
}

/// The positional-similarity decision on trimmed words.
fn similar_enough_exec(o: &Vec<char>, c: &Vec<char>) -> (r: bool)
    ensures
        r == similar_enough(o@, c@),
{
    let num = match_count_exec(o, c);
    let den = if o.len() >= c.len() {
        o.len()
    } else {
        c.len()
    };
    proof {
        lemma_match_count_le(o@, c@);
    }
    let lower_start = o.len() > 0 && crate::text::is_lower_char_exec(o[0]);
    (lower_start && 10 * (num as u128) > 3 * (den as u128)) || 2 * (num as u128) > den as u128
}

proof fn lemma_match_count_le(a: Seq<char>, b: Seq<char>)
    ensures
        0 <= match_count(a, b),
        match_count(a, b) <= a.len(),
        match_count(a, b) <= b.len(),
    decreases a.len(),
{
    if a.len() > 0 && b.len() > 0 {
        lemma_match_count_le(a.drop_first(), b.drop_first());
    }
}

/// Decides whether one word change is a learnable proper-noun correction.
pub fn is_proper_noun_correction(original: &str, corrected: &str, is_sentence_start: bool) -> (r:
    bool)
    ensures
        r == is_proper_noun_correction_spec(original@, corrected@, is_sentence_start),
{
    let ov = str_to_chars(original);
    let cv = str_to_chars(corrected);
    is_proper_noun_correction_chars(&ov, &cv, is_sentence_start)
}

fn is_proper_noun_correction_chars(original: &Vec<char>, corrected: &Vec<char>, is_sentence_start:
    bool) -> (r: bool)
    ensures
        r == is_proper_noun_correction_spec(original@, corrected@, is_sentence_start),
{
    let oc = trim_punct_chars(original);
    let cc = trim_punct_chars(corrected);
    if oc.len() == 0 || cc.len() == 0 {
        return false;
    }
    if !crate::text::is_upper_char_exec(cc[0]) {
        return false;
    }
    if is_sentence_start {
        let ol = lower_chars(&oc);
        let cl = lower_chars(&cc);
        if chars_eq(&ol, &cl) {
            return false;
        }
    }
    similar_enough_exec(&oc, &cc)
}

/// Whether position `i` of two equally long word lists holds a learnable
/// correction.
pub open spec fn candidate_at(ow: Seq<Seq<char>>, cw: Seq<Seq<char>>, i: int) -> bool {
    ow[i] != cw[i] && is_proper_noun_correction_spec(ow[i], cw[i], i == 0)
}

/// How many candidate corrections the first `upto` positions hold.
pub open spec fn candidate_count(ow: Seq<Seq<char>>, cw: Seq<Seq<char>>, upto: int) -> int
    decreases upto,
{
    if upto <= 0 {
        0
    } else {
        candidate_count(ow, cw, upto - 1) + (if candidate_at(ow, cw, upto - 1) {
            1int
        } else {
            0int
        })
    }
}

/// The first candidate position below `upto`, or -1.
pub open spec fn first_candidate(ow: Seq<Seq<char>>, cw: Seq<Seq<char>>, upto: int) -> int
    decreases upto,
{
    if upto <= 0 {
        -1
    } else {
        let p = first_candidate(ow, cw, upto - 1);
        if p >= 0 {
            p
        } else if candidate_at(ow, cw, upto - 1) {
            upto - 1
        } else {
            -1
        }
    }
}

/// The absolute difference of two lengths.
pub open spec fn len_gap(a: int, b: int) -> int {
    if a >= b {
        a - b
    } else {
        b - a
    }
}

/// What comparing the pasted text with a later clipboard reading yields:
/// the pair (original word, corrected word) when the texts differ in
/// exactly one learnable position, and nothing otherwise. Word counts that
/// differ by more than two mean unrelated texts, not a correction.
pub open spec fn detect_correction_spec(original: Seq<char>, corrected: Seq<char>) -> Option<
    (Seq<char>, Seq<char>),
> {
    if original == corrected {
        Option::None
    } else {
        let ow = split_ws_spec(original);
        let cw = split_ws_spec(corrected);
        if len_gap(ow.len() as int, cw.len() as int) > 2 {
            Option::None
        } else if ow.len() == cw.len() && candidate_count(ow, cw, ow.len() as int) == 1 {
            let i = first_candidate(ow, cw, ow.len() as int);
            Option::Some((ow[i], cw[i]))
        } else {
            Option::None
        }
    }
}

/// The view of an optional word pair.
pub open spec fn opt_pair_view(r: Option<(String, String)>) -> Option<(Seq<char>, Seq<char>)> {
    match r {
        Option::Some((a, b)) => Option::Some((a@, b@)),
        Option::None => Option::None,
    }
}

proof fn lemma_first_candidate_in_range(ow: Seq<Seq<char>>, cw: Seq<Seq<char>>, upto: int)
    ensures
        candidate_count(ow, cw, upto) >= 0,
        first_candidate(ow, cw, upto) >= 0 ==> first_candidate(ow, cw, upto) < upto,
        (candidate_count(ow, cw, upto) > 0) == (first_candidate(ow, cw, upto) >= 0),
    decreases upto,
{
    if upto > 0 {
        lemma_first_candidate_in_range(ow, cw, upto - 1);
    }
}

/// Compares the pasted text word-for-word with the clipboard text and
/// returns the single learnable correction, when there is exactly one.
pub fn detect_proper_noun_correction(original: &str, corrected: &str) -> (r: Option<
    (String, String)>)
    ensures
        opt_pair_view(r) == detect_correction_spec(original@, corrected@),
{
    if str_eq(original, corrected) {
        return Option::None;
    }
    let ov = str_to_chars(original);
    let cv = str_to_chars(corrected);
    let ow = split_ws(&ov);
    let cw = split_ws(&cv);
    let ghost ows = split_ws_spec(original@);
    let ghost cws = split_ws_spec(corrected@);
    proof {
        assert(ow.deep_view() == ows);
        assert(cw.deep_view() == cws);
    }
    let gap = if ow.len() >= cw.len() {
        ow.len() - cw.len()
    } else {
        cw.len() - ow.len()
    };
    if gap > 2 {
        return Option::None;
    }
    if ow.len() != cw.len() {
        return Option::None;
    }
    let n = ow.len();
    let mut count: usize = 0;
    let mut found: Option<(String, String)> = Option::None;
    let mut i: usize = 0;
    while i < n
        invariant
            i <= n,
            n == ows.len(),
            ows.len() == cws.len(),
            ow.deep_view() == ows,
            cw.deep_view() == cws,
            ow@.len() == n,
            cw@.len() == n,
            count <= i,
            count == candidate_count(ows, cws, i as int),
            first_candidate(ows, cws, i as int) >= 0 ==> opt_pair_view(found) == Option::Some(
                (
                    ows[first_candidate(ows, cws, i as int)],
                    cws[first_candidate(ows, cws, i as int)],
                ),
            ),
        decreases n - i,
    {
        proof {
            assert(ow@[i as int].deep_view() == ows[i as int]);
            assert(cw@[i as int].deep_view() == cws[i as int]);
            assert(ow@[i as int].deep_view() =~= ow@[i as int]@);
            assert(cw@[i as int].deep_view() =~= cw@[i as int]@);
        }
        let differs = !chars_eq(&ow[i], &cw[i]);
        let is_cand = differs && is_proper_noun_correction_chars(&ow[i], &cw[i], i == 0);
        proof {
            assert(is_cand == candidate_at(ows, cws, i as int));
            lemma_first_candidate_in_range(ows, cws, i as int);
        }
        if is_cand {
            if count == 0 {
                found = Option::Some((chars_to_string(&ow[i]), chars_to_string(&cw[i])));
            }
            count = count + 1;
        }
        i = i + 1;
    }
    proof {
        lemma_first_candidate_in_range(ows, cws, n as int);
    }
    if count == 1 {
        found
    } else {
        Option::None
    }
}

} // verus!
