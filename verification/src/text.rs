//! Character-level text utilities shared by the transcription pipeline and
//! the correction detector: case folding over the ASCII and Latin-1
//! letters, whitespace trimming and substring search, each specified over
//! `Seq<char>`.

use vstd::prelude::*;

verus! {

/// The whitespace characters recognised when trimming and splitting.
pub open spec fn is_space(c: char) -> bool {
    c == ' ' || c == '\t' || c == '\n' || c == '\r'
}

/// The upper-case ASCII and Latin-1 letters: A-Z, and the accented ranges
/// of Latin-1 (multiplication sign excluded). Letters beyond Latin-1 are
/// not classified.
pub open spec fn is_upper_char(c: char) -> bool {
    ||| (65 <= c as u32 && c as u32 <= 90)
    ||| (192 <= c as u32 && c as u32 <= 214)
    ||| (216 <= c as u32 && c as u32 <= 222)
}

/// The lower-case ASCII and Latin-1 letters: a-z, and the accented ranges
/// of Latin-1 (division sign excluded).
pub open spec fn is_lower_char(c: char) -> bool {
    ||| (97 <= c as u32 && c as u32 <= 122)
    ||| (223 <= c as u32 && c as u32 <= 246)
    ||| (248 <= c as u32 && c as u32 <= 255)
}

/// Case folding of one character: each upper-case ASCII or Latin-1 letter
/// maps 32 code points down to its lower-case form; every other character
/// is kept.
pub open spec fn lower_char(c: char) -> char {
    if is_upper_char(c) {
        (((c as u32 + 32) as u8) as char)
    } else {
        c
    }
}

/// Case folding of a character sequence.
pub open spec fn lower_seq(s: Seq<char>) -> Seq<char> {
    s.map_values(|c: char| lower_char(c))
}

/// The sequence with leading whitespace removed.
pub open spec fn trim_start_spec(s: Seq<char>) -> Seq<char>
    decreases s.len(),
{
    if s.len() > 0 && is_space(s[0]) {
        trim_start_spec(s.drop_first())
    } else {
        s
    }
}

/// The sequence with trailing whitespace removed.
pub open spec fn trim_end_spec(s: Seq<char>) -> Seq<char>
    decreases s.len(),
{
    if s.len() > 0 && is_space(s.last()) {
        trim_end_spec(s.drop_last())
    } else {
        s
    }
}

/// The sequence with whitespace removed from both ends.
pub open spec fn trim_spec(s: Seq<char>) -> Seq<char> {
    trim_end_spec(trim_start_spec(s))
}

/// Relies on str::chars / Iterator::collect: yields exactly the characters
/// of the string, in order.
#[verifier::external_body]
pub fn str_to_chars(s: &str) -> (r: Vec<char>)
    ensures
        r@ == s@,
{
    s.chars().collect()
}

/// Relies on String's FromIterator over char: the collected string holds
/// exactly the given characters, in order.
#[verifier::external_body]
pub fn chars_to_string(v: &Vec<char>) -> (r: String)
    ensures
        r@ == v@,
{
    v.iter().collect()
}

/// Executable test for an upper-case ASCII or Latin-1 letter.
pub fn is_upper_char_exec(c: char) -> (r: bool)
    ensures
        r == is_upper_char(c),
{
    let u = c as u32;
    (65 <= u && u <= 90) || (192 <= u && u <= 214) || (216 <= u && u <= 222)
}

/// Executable test for a lower-case ASCII or Latin-1 letter.
pub fn is_lower_char_exec(c: char) -> (r: bool)
    ensures
        r == is_lower_char(c),
{
    let u = c as u32;
    (97 <= u && u <= 122) || (223 <= u && u <= 246) || (248 <= u && u <= 255)
}

/// Executable case folding of one character.
pub fn lower_char_exec(c: char) -> (r: char)
    ensures
        r == lower_char(c),
{
    if is_upper_char_exec(c) {
        ((c as u32 + 32) as u8) as char
    } else {
        c
    }
}

/// Executable case folding of a character vector.
pub fn lower_chars(v: &Vec<char>) -> (r: Vec<char>)
    ensures
        r@ == lower_seq(v@),
{
    let mut out: Vec<char> = Vec::new();
    let mut i: usize = 0;
    while i < v.len()
        invariant
            i <= v@.len(),
            out@ == lower_seq(v@.subrange(0, i as int)),
        decreases v@.len() - i,
    {
        out.push(lower_char_exec(v[i]));
        i = i + 1;
        assert(v@.subrange(0, i as int) == v@.subrange(0, i - 1).push(v@[i - 1]));
    }
    assert(v@.subrange(0, v@.len() as int) == v@);
    out
}

/// Executable test for a whitespace character.
pub fn is_space_exec(c: char) -> (r: bool)
    ensures
        r == is_space(c),
{
    c == ' ' || c == '\t' || c == '\n' || c == '\r'
}

proof fn lemma_trim_start_skip(s: Seq<char>, i: int)
    requires
        0 <= i < s.len(),
        forall|j: int| 0 <= j <= i ==> is_space(s[j]),
    ensures
        trim_start_spec(s.subrange(i, s.len() as int)) == trim_start_spec(
            s.subrange(i + 1, s.len() as int),
        ),
{
    let sub = s.subrange(i, s.len() as int);
    assert(sub[0] == s[i]);
    assert(sub.drop_first() == s.subrange(i + 1, s.len() as int));
}

proof fn lemma_trim_start_all(s: Seq<char>, i: int)
    requires
        0 <= i <= s.len(),
        forall|j: int| 0 <= j < i ==> is_space(s[j]),
    ensures
        trim_start_spec(s) == trim_start_spec(s.subrange(i, s.len() as int)),
    decreases i,
{
    if i == 0 {
        assert(s.subrange(0, s.len() as int) == s);
    } else {
        lemma_trim_start_all(s, i - 1);
        lemma_trim_start_skip(s, i - 1);
    }
}

proof fn lemma_trim_end_skip(s: Seq<char>, j: int)
    requires
        0 < j <= s.len(),
        forall|k: int| j - 1 <= k < s.len() ==> is_space(s[k]),
    ensures
        trim_end_spec(s.subrange(0, j)) == trim_end_spec(s.subrange(0, j - 1)),
{
    let sub = s.subrange(0, j);
    assert(sub.last() == s[j - 1]);
    assert(sub.drop_last() == s.subrange(0, j - 1));
}

proof fn lemma_trim_end_all(s: Seq<char>, j: int)
    requires
        0 <= j <= s.len(),
        forall|k: int| j <= k < s.len() ==> is_space(s[k]),
    ensures
        trim_end_spec(s) == trim_end_spec(s.subrange(0, j)),
    decreases s.len() - j,
{
    if j == s.len() {
        assert(s.subrange(0, s.len() as int) == s);
    } else {
        lemma_trim_end_all(s, j + 1);
        lemma_trim_end_skip(s, j + 1);
    }
}

/// The trimmed copy of a character vector.
pub fn trim_chars(v: &Vec<char>) -> (r: Vec<char>)
    ensures
        r@ == trim_spec(v@),
{
    let ghost s = v@;
    let mut i: usize = 0;
    while i < v.len() && is_space_exec(v[i])
        invariant
            i <= s.len(),
            s == v@,
            forall|j: int| 0 <= j < i ==> is_space(s[j]),
        decreases s.len() - i,
    {
        i = i + 1;
    }
    proof {
        lemma_trim_start_all(s, i as int);
    }
    let ghost started = s.subrange(i as int, s.len() as int);
    assert(trim_start_spec(s) == started) by {
        if i < s.len() {
            assert(started[0] == s[i as int]);
            assert(!is_space(started[0]));
        }
    }
    let mut j: usize = v.len();
    while j > i && is_space_exec(v[j - 1])
        invariant
            i <= j <= s.len(),
            s == v@,
            forall|k: int| j <= k < s.len() ==> is_space(s[k]),
            forall|k: int| 0 <= k < i ==> is_space(s[k]),
        decreases j,
    {
        j = j - 1;
    }
    let ghost trimmed = s.subrange(i as int, j as int);
    assert(trim_end_spec(started) == trimmed) by {
        lemma_trim_end_shift(s, i as int, j as int);
    }
    let mut out: Vec<char> = Vec::new();
    let mut k: usize = i;
    while k < j
        invariant
            i <= k <= j <= s.len(),
            s == v@,
            out@ == s.subrange(i as int, k as int),
        decreases j - k,
    {
        out.push(v[k]);
        k = k + 1;
        assert(s.subrange(i as int, k as int) == s.subrange(i as int, k - 1).push(s[k - 1]));
    }
    out
}

proof fn lemma_trim_end_shift(s: Seq<char>, i: int, j: int)
    requires
        0 <= i <= j <= s.len(),
        forall|k: int| j <= k < s.len() ==> is_space(s[k]),
        j > i ==> !is_space(s[j - 1]),
    ensures
        trim_end_spec(s.subrange(i, s.len() as int)) == s.subrange(i, j),
{
    let started = s.subrange(i, s.len() as int);
    lemma_trim_end_all(started, j - i);
    let cut = started.subrange(0, j - i);
    assert(cut == s.subrange(i, j));
    if j > i {
        assert(cut.last() == s[j - 1]);
        assert(!is_space(cut.last()));
    }
}

/// The maximal non-whitespace prefix of a sequence.
pub open spec fn take_word(s: Seq<char>) -> Seq<char>
    decreases s.len(),
{
    if s.len() > 0 && !is_space(s[0]) {
        seq![s[0]] + take_word(s.drop_first())
    } else {
        Seq::empty()
    }
}

/// What remains after the maximal non-whitespace prefix.
pub open spec fn skip_word(s: Seq<char>) -> Seq<char>
    decreases s.len(),
{
    if s.len() > 0 && !is_space(s[0]) {
        skip_word(s.drop_first())
    } else {
        s
    }
}

pub proof fn lemma_skip_word_le(s: Seq<char>)
    ensures
        skip_word(s).len() <= s.len(),
    decreases s.len(),
{
    if s.len() > 0 && !is_space(s[0]) {
        lemma_skip_word_le(s.drop_first());
    }
}

/// The whitespace-separated words of a sequence, in order.
pub open spec fn split_ws_spec(s: Seq<char>) -> Seq<Seq<char>>
    decreases s.len(),
    via split_ws_spec_decreases
{
    if s.len() == 0 {
        Seq::empty()
    } else if is_space(s[0]) {
        split_ws_spec(s.drop_first())
    } else {
        seq![take_word(s)] + split_ws_spec(skip_word(s))
    }
}

#[via_fn]
proof fn split_ws_spec_decreases(s: Seq<char>) {
    if s.len() > 0 && !is_space(s[0]) {
        lemma_skip_word_le(s.drop_first());
    }
}

/// Characterises `take_word` and `skip_word` by the index where the first
/// word ends.
proof fn lemma_word_at(s: Seq<char>, w: int)
    requires
        0 <= w <= s.len(),
        forall|k: int| 0 <= k < w ==> !is_space(s[k]),
        w < s.len() ==> is_space(s[w]),
    ensures
        take_word(s) == s.subrange(0, w),
        skip_word(s) == s.subrange(w, s.len() as int),
    decreases w,
{
    if w == 0 {
        assert(s.subrange(0, 0) == Seq::<char>::empty());
        assert(s.subrange(0, s.len() as int) == s);
    } else {
        let t = s.drop_first();
        assert forall|k: int| 0 <= k < w - 1 implies !is_space(t[k]) by {
            assert(t[k] == s[k + 1]);
        }
        assert(w - 1 < t.len() ==> is_space(t[w - 1]));
        lemma_word_at(t, w - 1);
        assert(take_word(s) == seq![s[0]] + t.subrange(0, w - 1));
        assert(seq![s[0]] + t.subrange(0, w - 1) == s.subrange(0, w));
        assert(t.subrange(w - 1, t.len() as int) == s.subrange(w, s.len() as int));
    }
}

proof fn lemma_split_skip_space(s: Seq<char>, i: int)
    requires
        0 <= i < s.len(),
        is_space(s[i]),
    ensures
        split_ws_spec(s.subrange(i, s.len() as int)) == split_ws_spec(
            s.subrange(i + 1, s.len() as int),
        ),
{
    let sub = s.subrange(i, s.len() as int);
    assert(sub[0] == s[i]);
    assert(sub.drop_first() == s.subrange(i + 1, s.len() as int));
}

proof fn lemma_split_take_word(s: Seq<char>, i: int, j: int)
    requires
        0 <= i < j <= s.len(),
        forall|k: int| i <= k < j ==> !is_space(s[k]),
        j < s.len() ==> is_space(s[j]),
    ensures
        split_ws_spec(s.subrange(i, s.len() as int)) == seq![s.subrange(i, j)] + split_ws_spec(
            s.subrange(j, s.len() as int),
        ),
{
    let sub = s.subrange(i, s.len() as int);
    assert(!is_space(sub[0]));
    assert forall|k: int| 0 <= k < j - i implies !is_space(sub[k]) by {
        assert(sub[k] == s[i + k]);
    }
    assert(j - i < sub.len() ==> is_space(sub[j - i]));
    lemma_word_at(sub, j - i);
    assert(sub.subrange(0, j - i) == s.subrange(i, j));
    assert(sub.subrange(j - i, sub.len() as int) == s.subrange(j, s.len() as int));
}

/// Splits a character vector into its whitespace-separated words.
pub fn split_ws(v: &Vec<char>) -> (r: Vec<Vec<char>>)
    ensures
        r.deep_view() == split_ws_spec(v@),
{
    let ghost s = v@;
    let n = v.len();
    let mut out: Vec<Vec<char>> = Vec::new();
    proof {
        assert(s.subrange(0, n as int) == s);
        assert(out.deep_view() =~= Seq::<Seq<char>>::empty());
        assert(out.deep_view() + split_ws_spec(s) == split_ws_spec(s));
    }
    let mut i: usize = 0;
    while i < n
        invariant
            i <= n,
            n == s.len(),
            s == v@,
            split_ws_spec(s) == out.deep_view() + split_ws_spec(s.subrange(i as int, n as int)),
        decreases n - i,
    {
        if is_space_exec(v[i]) {
            proof {
                lemma_split_skip_space(s, i as int);
            }
            i = i + 1;
        } else {
            let start = i;
            let mut word: Vec<char> = Vec::new();
            while i < n && !is_space_exec(v[i])
                invariant
                    start <= i <= n,
                    n == s.len(),
                    s == v@,
                    forall|k: int| start <= k < i ==> !is_space(s[k]),
                    word@ == s.subrange(start as int, i as int),
                decreases n - i,
            {
                word.push(v[i]);
                i = i + 1;
                assert(s.subrange(start as int, i as int) == s.subrange(
                    start as int,
                    i - 1,
                ).push(s[i - 1]));
            }
            proof {
                lemma_split_take_word(s, start as int, i as int);
            }
            let ghost prev = out.deep_view();
            let ghost prevv = out@;
            out.push(word);
            proof {
                assert(out@ == prevv.push(word));
                assert forall|k: int| 0 <= k < out.deep_view().len() implies out.deep_view()[k]
                    == (prev + seq![word@])[k] by {
                    if k < prevv.len() {
                        assert(out@[k] == prevv[k]);
                    } else {
                        assert(out@[k] == word);
                    }
                }
                assert(out.deep_view() =~= prev + seq![word@]);
            }
        }
    }
    proof {
        assert(s.subrange(i as int, n as int).len() == 0);
        assert(out.deep_view() + Seq::<Seq<char>>::empty() == out.deep_view());
    }
    out
}

/// The ASCII punctuation characters, as Rust's `char::is_ascii_punctuation`
/// classifies them.
pub open spec fn is_punct(c: char) -> bool {
    ||| ('!' <= c && c <= '/')
    ||| (':' <= c && c <= '@')
    ||| ('[' <= c && c <= '`')
    ||| ('{' <= c && c <= '~')
}

/// Executable test for an ASCII punctuation character.
pub fn is_punct_exec(c: char) -> (r: bool)
    ensures
        r == is_punct(c),
{
    ('!' <= c && c <= '/') || (':' <= c && c <= '@') || ('[' <= c && c <= '`') || ('{' <= c && c
        <= '~')
}

/// The sequence with leading ASCII punctuation removed.
pub open spec fn trim_start_punct(s: Seq<char>) -> Seq<char>
    decreases s.len(),
{
    if s.len() > 0 && is_punct(s[0]) {
        trim_start_punct(s.drop_first())
    } else {
        s
    }
}

/// The sequence with trailing ASCII punctuation removed.
pub open spec fn trim_end_punct(s: Seq<char>) -> Seq<char>
    decreases s.len(),
{
    if s.len() > 0 && is_punct(s.last()) {
        trim_end_punct(s.drop_last())
    } else {
        s
    }
}

/// The sequence with ASCII punctuation removed from both ends.
pub open spec fn trim_punct_spec(s: Seq<char>) -> Seq<char> {
    trim_end_punct(trim_start_punct(s))
}

proof fn lemma_trim_start_punct_all(s: Seq<char>, i: int)
    requires
        0 <= i <= s.len(),
        forall|j: int| 0 <= j < i ==> is_punct(s[j]),
    ensures
        trim_start_punct(s) == trim_start_punct(s.subrange(i, s.len() as int)),
    decreases i,
{
    if i == 0 {
        assert(s.subrange(0, s.len() as int) == s);
    } else {
        lemma_trim_start_punct_all(s, i - 1);
        let sub = s.subrange(i - 1, s.len() as int);
        assert(sub[0] == s[i - 1]);
        assert(sub.drop_first() == s.subrange(i, s.len() as int));
    }
}

proof fn lemma_trim_end_punct_skip(s: Seq<char>, j: int)
    requires
        0 < j <= s.len(),
        forall|k: int| j - 1 <= k < s.len() ==> is_punct(s[k]),
    ensures
        trim_end_punct(s.subrange(0, j)) == trim_end_punct(s.subrange(0, j - 1)),
{
    let sub = s.subrange(0, j);
    assert(sub.last() == s[j - 1]);
    assert(sub.drop_last() == s.subrange(0, j - 1));
}

proof fn lemma_trim_end_punct_all(s: Seq<char>, j: int)
    requires
        0 <= j <= s.len(),
        forall|k: int| j <= k < s.len() ==> is_punct(s[k]),
    ensures
        trim_end_punct(s) == trim_end_punct(s.subrange(0, j)),
    decreases s.len() - j,
{
    if j == s.len() {
        assert(s.subrange(0, s.len() as int) == s);
    } else {
        lemma_trim_end_punct_all(s, j + 1);
        lemma_trim_end_punct_skip(s, j + 1);
    }
}

proof fn lemma_trim_end_punct_shift(s: Seq<char>, i: int, j: int)
    requires
        0 <= i <= j <= s.len(),
        forall|k: int| j <= k < s.len() ==> is_punct(s[k]),
        j > i ==> !is_punct(s[j - 1]),
    ensures
        trim_end_punct(s.subrange(i, s.len() as int)) == s.subrange(i, j),
{
    let started = s.subrange(i, s.len() as int);
    lemma_trim_end_punct_all(started, j - i);
    let cut = started.subrange(0, j - i);
    assert(cut == s.subrange(i, j));
    if j > i {
        assert(cut.last() == s[j - 1]);
        assert(!is_punct(cut.last()));
    }
}

/// The copy of a word with ASCII punctuation stripped from both ends.
pub fn trim_punct_chars(v: &Vec<char>) -> (r: Vec<char>)
    ensures
        r@ == trim_punct_spec(v@),
{
    let ghost s = v@;
    let mut i: usize = 0;
    while i < v.len() && is_punct_exec(v[i])
        invariant
            i <= s.len(),
            s == v@,
            forall|j: int| 0 <= j < i ==> is_punct(s[j]),
        decreases s.len() - i,
    {
        i = i + 1;
    }
    proof {
        lemma_trim_start_punct_all(s, i as int);
    }
    let ghost started = s.subrange(i as int, s.len() as int);
    assert(trim_start_punct(s) == started) by {
        if i < s.len() {
            assert(started[0] == s[i as int]);
        }
    }
    let mut j: usize = v.len();
    while j > i && is_punct_exec(v[j - 1])
        invariant
            i <= j <= s.len(),
            s == v@,
            forall|k: int| j <= k < s.len() ==> is_punct(s[k]),
        decreases j,
    {
        j = j - 1;
    }
    proof {
        lemma_trim_end_punct_shift(s, i as int, j as int);
    }
    let mut out: Vec<char> = Vec::new();
    let mut k: usize = i;
    while k < j
        invariant
            i <= k <= j <= s.len(),
            s == v@,
            out@ == s.subrange(i as int, k as int),
        decreases j - k,
    {
        out.push(v[k]);
        k = k + 1;
        assert(s.subrange(i as int, k as int) == s.subrange(i as int, k - 1).push(s[k - 1]));
    }
    out
}

/// The sequence with every trailing '.' removed.
pub open spec fn trim_end_dots(s: Seq<char>) -> Seq<char>
    decreases s.len(),
{
    if s.len() > 0 && s.last() == '.' {
        trim_end_dots(s.drop_last())
    } else {
        s
    }
}

proof fn lemma_trim_end_dots_skip(s: Seq<char>, j: int)
    requires
        0 < j <= s.len(),
        forall|k: int| j - 1 <= k < s.len() ==> s[k] == '.',
    ensures
        trim_end_dots(s.subrange(0, j)) == trim_end_dots(s.subrange(0, j - 1)),
{
    let sub = s.subrange(0, j);
    assert(sub.last() == s[j - 1]);
    assert(sub.drop_last() == s.subrange(0, j - 1));
}

proof fn lemma_trim_end_dots_all(s: Seq<char>, j: int)
    requires
        0 <= j <= s.len(),
        forall|k: int| j <= k < s.len() ==> s[k] == '.',
    ensures
        trim_end_dots(s) == trim_end_dots(s.subrange(0, j)),
    decreases s.len() - j,
{
    if j == s.len() {
        assert(s.subrange(0, s.len() as int) == s);
    } else {
        lemma_trim_end_dots_all(s, j + 1);
        lemma_trim_end_dots_skip(s, j + 1);
    }
}

proof fn lemma_trim_end_dots_at(s: Seq<char>, j: int)
    requires
        0 <= j <= s.len(),
        forall|k: int| j <= k < s.len() ==> s[k] == '.',
        j > 0 ==> s[j - 1] != '.',
    ensures
        trim_end_dots(s) == s.subrange(0, j),
{
    lemma_trim_end_dots_all(s, j);
    let cut = s.subrange(0, j);
    if j > 0 {
        assert(cut.last() == s[j - 1]);
        assert(cut.last() != '.');
    }
}

/// The copy of a sequence with every trailing '.' removed.
pub fn trim_end_dots_chars(v: &Vec<char>) -> (r: Vec<char>)
    ensures
        r@ == trim_end_dots(v@),
{
    let ghost s = v@;
    let mut j: usize = v.len();
    while j > 0 && v[j - 1] == '.'
        invariant
            j <= s.len(),
            s == v@,
            forall|k: int| j <= k < s.len() ==> s[k] == '.',
        decreases j,
    {
        j = j - 1;
    }
    proof {
        lemma_trim_end_dots_at(s, j as int);
    }
    let mut out: Vec<char> = Vec::new();
    let mut k: usize = 0;
    while k < j
        invariant
            k <= j <= s.len(),
            s == v@,
            out@ == s.subrange(0, k as int),
        decreases j - k,
    {
        out.push(v[k]);
        k = k + 1;
        assert(s.subrange(0, k as int) == s.subrange(0, k - 1).push(s[k - 1]));
    }
    out
}

/// Whether `needle` occurs in `hay` starting at position `i`.
pub open spec fn matches_at(hay: Seq<char>, needle: Seq<char>, i: int) -> bool {
    &&& 0 <= i
    &&& i + needle.len() <= hay.len()
    &&& forall|j: int| 0 <= j < needle.len() ==> hay[i + j] == needle[j]
}

/// Whether `needle` occurs anywhere in `hay`.
pub open spec fn contains_seq(hay: Seq<char>, needle: Seq<char>) -> bool {
    exists|i: int| matches_at(hay, needle, i)
}

fn matches_at_exec(hay: &Vec<char>, needle: &Vec<char>, i: usize) -> (r: bool)
    requires
        i + needle@.len() <= hay@.len(),
    ensures
        r == matches_at(hay@, needle@, i as int),
{
    let hlen = hay.len();
    let mut j: usize = 0;
    while j < needle.len()
        invariant
            j <= needle@.len(),
            i + needle@.len() <= hay@.len(),
            hlen == hay@.len(),
            forall|k: int| 0 <= k < j ==> hay@[i + k] == needle@[k],
        decreases needle@.len() - j,
    {
        assert(i + j < hlen);
        if hay[i + j] != needle[j] {
            return false;
        }
        j = j + 1;
    }
    true
}

/// Substring search over character vectors.
pub fn contains_chars(hay: &Vec<char>, needle: &Vec<char>) -> (r: bool)
    ensures
        r == contains_seq(hay@, needle@),
{
    if needle.len() > hay.len() {
        assert(!contains_seq(hay@, needle@));
        return false;
    }
    let mut i: usize = 0;
    let last = hay.len() - needle.len();
    loop
        invariant
            needle@.len() <= hay@.len(),
            last == hay@.len() - needle@.len(),
            i <= last,
            forall|k: int| 0 <= k < i ==> !matches_at(hay@, needle@, k),
        decreases last - i,
    {
        if matches_at_exec(hay, needle, i) {
            return true;
        }
        if i == last {
            assert forall|k: int| !matches_at(hay@, needle@, k) by {
                if 0 <= k < i as int {
                } else if k == i as int {
                }
            }
            return false;
        }
        i = i + 1;
    }
}

/// The view of an optional string.
pub open spec fn opt_str_view(k: Option<String>) -> Option<Seq<char>> {
    match k {
        Option::Some(s) => Option::Some(s@),
        Option::None => Option::None,
    }
}

/// Element-wise equality of character vectors.
pub fn chars_eq(a: &Vec<char>, b: &Vec<char>) -> (r: bool)
    ensures
        r == (a@ == b@),
{
    if a.len() != b.len() {
        assert(a@ != b@);
        return false;
    }
    let mut i: usize = 0;
    while i < a.len()
        invariant
            i <= a@.len(),
            a@.len() == b@.len(),
            forall|j: int| 0 <= j < i ==> a@[j] == b@[j],
        decreases a@.len() - i,
    {
        if a[i] != b[i] {
            return false;
        }
        i = i + 1;
    }
    proof {
        assert(a@ =~= b@);
    }
    true
}

/// Equality of string contents, specified over the character views.
pub fn str_eq(a: &str, b: &str) -> (r: bool)
    ensures
        r == (a@ == b@),
{
    let va = str_to_chars(a);
    let vb = str_to_chars(b);
    chars_eq(&va, &vb)
}

/// The decimal digit character for a value below ten.
pub open spec fn dec_digit(d: int) -> char {
    (((48 + d) as u8) as char)
}

/// The decimal rendering of a non-negative integer, most significant digit
/// first, with no leading zeros (a single '0' for zero).
pub open spec fn dec_str_spec(n: int) -> Seq<char>
    decreases n,
{
    if n < 10 {
        seq![dec_digit(n)]
    } else {
        dec_str_spec(n / 10) + seq![dec_digit(n % 10)]
    }
}

/// Renders an unsigned integer in decimal.
pub fn u64_to_dec_chars(n: u64) -> (r: Vec<char>)
    ensures
        r@ == dec_str_spec(n as int),
{
    let d0 = ((48 + (n % 10)) as u8) as char;
    let mut out: Vec<char> = Vec::new();
    out.push(d0);
    assert(out@ =~= seq![dec_digit(n as int % 10)]);
    let mut m = n / 10;
    proof {
        if m == 0 {
            assert(n < 10);
            assert(n as int % 10 == n as int);
        }
    }
    while m > 0
        invariant
            dec_str_spec(n as int) == if m > 0 {
                dec_str_spec(m as int) + out@
            } else {
                out@
            },
        decreases m,
    {
        let d = ((48 + (m % 10)) as u8) as char;
        let ghost prev = out@;
        out.insert(0, d);
        proof {
            assert(out@ =~= seq![dec_digit(m as int % 10)] + prev);
        }
        let next = m / 10;
        proof {
            if next > 0 {
                assert(dec_str_spec(m as int) == dec_str_spec(m as int / 10) + seq![
                    dec_digit(m as int % 10),
                ]);
                assert(dec_str_spec(m as int / 10) + (seq![dec_digit(m as int % 10)] + prev)
                    =~= (dec_str_spec(m as int / 10) + seq![dec_digit(m as int % 10)]) + prev);
            } else {
                assert(m < 10);
                assert(m as int % 10 == m as int);
                assert(dec_str_spec(m as int) == seq![dec_digit(m as int)]);
            }
        }
        m = next;
    }
    out
}

/// Renders an unsigned integer as a decimal string.
pub fn u64_to_string(n: u64) -> (r: String)
    ensures
        r@ == dec_str_spec(n as int),
{
    let chars = u64_to_dec_chars(n);
    chars_to_string(&chars)
}

} // verus!
