//! Text as the parser reads it: sequences of characters, cut at white space,
//! at a given character, or at the end of a line. Letters are compared
//! without regard to case where the language says so; only the letters A to
//! Z have another case here.
use vstd::prelude::*;

verus! {

/// The characters that count as white space: those with the Unicode property
/// `White_Space`.
pub open spec fn is_space(c: char) -> bool {
    let code = c as u32;
    ||| 0x09 <= code <= 0x0D
    ||| code == 0x20
    ||| code == 0x85
    ||| code == 0xA0
    ||| code == 0x1680
    ||| 0x2000 <= code <= 0x200A
    ||| code == 0x2028
    ||| code == 0x2029
    ||| code == 0x202F
    ||| code == 0x205F
    ||| code == 0x3000
}

/// The code of a character, with that of the small letter for a capital
/// letter from A to Z.
pub open spec fn fold_case(c: char) -> u32 {
    let code = c as u32;
    if 0x41 <= code <= 0x5A {
        (code + 0x20) as u32
    } else {
        code
    }
}

/// `word` is `keyword` but for the case of its letters. The keywords of the
/// language are written in small letters.
pub open spec fn is_word(word: Seq<char>, keyword: Seq<char>) -> bool {
    &&& word.len() == keyword.len()
    &&& forall|i: int| 0 <= i < word.len() ==> fold_case(#[trigger] word[i]) == keyword[i] as u32
}

/// The first place at or after `from` that holds no white space; the length
/// of the text where there is none.
pub open spec fn skip_spaces(s: Seq<char>, from: int) -> int
    decreases s.len() - from,
{
    if 0 <= from < s.len() && is_space(s[from]) {
        skip_spaces(s, from + 1)
    } else {
        from
    }
}

/// The end of the text once the white space before `upto` is taken off.
pub open spec fn back_spaces(s: Seq<char>, upto: int) -> int
    decreases upto,
{
    if 0 < upto <= s.len() && is_space(s[upto - 1]) {
        back_spaces(s, upto - 1)
    } else {
        upto
    }
}

/// The text without the white space at its beginning and at its end.
pub open spec fn trim(s: Seq<char>) -> Seq<char> {
    let from = skip_spaces(s, 0);
    let upto = back_spaces(s, s.len() as int);
    if from < upto {
        s.subrange(from, upto)
    } else {
        Seq::empty()
    }
}

/// The first place at or after `from` that holds `c`; the length of the text
/// where there is none.
pub open spec fn find(s: Seq<char>, c: char, from: int) -> int
    decreases s.len() - from,
{
    if 0 <= from < s.len() && s[from] != c {
        find(s, c, from + 1)
    } else {
        from
    }
}

/// The first place at or after `from` where two slashes begin; the length of
/// the text where there is none.
pub open spec fn find_slashes(s: Seq<char>, from: int) -> int
    decreases s.len() - from,
{
    if 0 <= from < s.len() && !(s[from] == '/' && from + 1 < s.len() && s[from + 1] == '/') {
        find_slashes(s, from + 1)
    } else {
        from
    }
}

/// The first place at or after `from` that holds white space; the length of
/// the text where there is none.
pub open spec fn word_end(s: Seq<char>, from: int) -> int
    decreases s.len() - from,
{
    if 0 <= from < s.len() && !is_space(s[from]) {
        word_end(s, from + 1)
    } else {
        from
    }
}

/// The words of the text from `from` on: its runs of characters other than
/// white space.
pub open spec fn words_from(s: Seq<char>, from: int) -> Seq<Seq<char>>
    decreases s.len() - from,
{
    let start = skip_spaces(s, from);
    if from < 0 || start >= s.len() {
        Seq::empty()
    } else {
        let end = word_end(s, start + 1);
        proof {
            lemma_skip_spaces_bounds(s, from);
            lemma_word_end_bounds(s, start + 1);
        }
        seq![s.subrange(start, end)] + words_from(s, end)
    }
}

/// The words of the text.
pub open spec fn words(s: Seq<char>) -> Seq<Seq<char>> {
    words_from(s, 0)
}

/// What each of the texts holds.
pub open spec fn texts(v: Seq<Vec<char>>) -> Seq<Seq<char>> {
    Seq::new(v.len(), |i: int| v[i]@)
}

pub proof fn lemma_skip_spaces_bounds(s: Seq<char>, from: int)
    requires
        0 <= from <= s.len(),
    ensures
        from <= skip_spaces(s, from) <= s.len(),
        skip_spaces(s, from) < s.len() ==> !is_space(s[skip_spaces(s, from)]),
    decreases s.len() - from,
{
    if from < s.len() && is_space(s[from]) {
        lemma_skip_spaces_bounds(s, from + 1);
    }
}

pub proof fn lemma_word_end_bounds(s: Seq<char>, from: int)
    requires
        0 <= from <= s.len(),
    ensures
        from <= word_end(s, from) <= s.len(),
    decreases s.len() - from,
{
    if from < s.len() && !is_space(s[from]) {
        lemma_word_end_bounds(s, from + 1);
    }
}

pub proof fn lemma_find_bounds(s: Seq<char>, c: char, from: int)
    requires
        0 <= from <= s.len(),
    ensures
        from <= find(s, c, from) <= s.len(),
        find(s, c, from) < s.len() ==> s[find(s, c, from)] == c,
    decreases s.len() - from,
{
    if from < s.len() && s[from] != c {
        lemma_find_bounds(s, c, from + 1);
    }
}

/// Whether a character is white space.
pub fn is_whitespace(c: char) -> (r: bool)
    ensures
        r == is_space(c),
{
    let code = c as u32;
    (0x09 <= code && code <= 0x0D) || code == 0x20 || code == 0x85 || code == 0xA0 || code
        == 0x1680 || (0x2000 <= code && code <= 0x200A) || code == 0x2028 || code == 0x2029
        || code == 0x202F || code == 0x205F || code == 0x3000
}

/// The characters of a string.
pub fn chars_of(s: &str) -> (v: Vec<char>)
    ensures
        v@ == s@,
{
    let n = s.unicode_len();
    let mut v: Vec<char> = Vec::new();
    let mut i: usize = 0;
    while i < n
        invariant
            n == s@.len(),
            i <= n,
            v@ == s@.subrange(0, i as int),
        decreases n - i,
    {
        v.push(s.get_char(i));
        i += 1;
        assert(v@ =~= s@.subrange(0, i as int));
    }
    assert(v@ =~= s@);
    v
}

/// A copy of a part of a text.
pub fn slice(s: &Vec<char>, from: usize, upto: usize) -> (v: Vec<char>)
    requires
        from <= upto <= s.len(),
    ensures
        v@ == s@.subrange(from as int, upto as int),
{
    let mut v: Vec<char> = Vec::new();
    let mut i: usize = from;
    while i < upto
        invariant
            from <= i <= upto <= s.len(),
            v@ == s@.subrange(from as int, i as int),
        decreases upto - i,
    {
        v.push(s[i]);
        i += 1;
        assert(v@ =~= s@.subrange(from as int, i as int));
    }
    v
}

/// Whether two texts hold the same characters.
pub fn same(a: &Vec<char>, b: &Vec<char>) -> (r: bool)
    ensures
        r == (a@ == b@),
{
    if a.len() != b.len() {
        return false;
    }
    let mut i: usize = 0;
    while i < a.len()
        invariant
            a.len() == b.len(),
            i <= a.len(),
            forall|j: int| 0 <= j < i ==> a@[j] == b@[j],
        decreases a.len() - i,
    {
        if a[i] != b[i] {
            return false;
        }
        i += 1;
    }
    assert(a@ =~= b@);
    true
}

/// Whether a word is a keyword but for the case of its letters.
pub fn matches_word(word: &Vec<char>, keyword: &str) -> (r: bool)
    ensures
        r == is_word(word@, keyword@),
{
    let n = keyword.unicode_len();
    if word.len() != n {
        return false;
    }
    let mut i: usize = 0;
    while i < n
        invariant
            n == keyword@.len(),
            word.len() == n,
            i <= n,
            forall|j: int| 0 <= j < i ==> fold_case(#[trigger] word@[j]) == keyword@[j] as u32,
        decreases n - i,
    {
        let c = word[i];
        let code = c as u32;
        let folded = if 0x41 <= code && code <= 0x5A {
            code + 0x20
        } else {
            code
        };
        if folded != keyword.get_char(i) as u32 {
            return false;
        }
        i += 1;
    }
    true
}

/// Whether a text begins with a given one.
pub fn starts_with(s: &Vec<char>, prefix: &str) -> (r: bool)
    ensures
        r == prefix@.is_prefix_of(s@),
{
    let n = prefix.unicode_len();
    if s.len() < n {
        return false;
    }
    let mut i: usize = 0;
    while i < n
        invariant
            n == prefix@.len(),
            n <= s.len(),
            i <= n,
            forall|j: int| 0 <= j < i ==> s@[j] == prefix@[j],
        decreases n - i,
    {
        if s[i] != prefix.get_char(i) {
            assert(s@.subrange(0, n as int)[i as int] != prefix@[i as int]);
            return false;
        }
        i += 1;
    }
    assert(s@.subrange(0, n as int) =~= prefix@);
    true
}

/// The first place at or after `from` that holds no white space.
pub fn after_spaces(s: &Vec<char>, from: usize) -> (at: usize)
    requires
        from <= s.len(),
    ensures
        at == skip_spaces(s@, from as int),
        from <= at <= s.len(),
{
    let mut i: usize = from;
    while i < s.len() && is_whitespace(s[i])
        invariant
            from <= i <= s.len(),
            skip_spaces(s@, i as int) == skip_spaces(s@, from as int),
        decreases s.len() - i,
    {
        i += 1;
    }
    i
}

/// The first place at or after `from` that holds white space.
pub fn end_of_word(s: &Vec<char>, from: usize) -> (at: usize)
    requires
        from <= s.len(),
    ensures
        at == word_end(s@, from as int),
        from <= at <= s.len(),
{
    let mut i: usize = from;
    while i < s.len() && !is_whitespace(s[i])
        invariant
            from <= i <= s.len(),
            word_end(s@, i as int) == word_end(s@, from as int),
        decreases s.len() - i,
    {
        i += 1;
    }
    i
}

/// The first place at or after `from` that holds `c`.
pub fn position(s: &Vec<char>, c: char, from: usize) -> (at: usize)
    requires
        from <= s.len(),
    ensures
        at == find(s@, c, from as int),
        from <= at <= s.len(),
{
    let mut i: usize = from;
    while i < s.len() && s[i] != c
        invariant
            from <= i <= s.len(),
            find(s@, c, i as int) == find(s@, c, from as int),
        decreases s.len() - i,
    {
        i += 1;
    }
    i
}

/// The first place where two slashes begin.
pub fn position_of_slashes(s: &Vec<char>) -> (at: usize)
    ensures
        at == find_slashes(s@, 0),
        at <= s.len(),
{
    let mut i: usize = 0;
    while i < s.len() && !(s[i] == '/' && i + 1 < s.len() && s[i + 1] == '/')
        invariant
            i <= s.len(),
            find_slashes(s@, i as int) == find_slashes(s@, 0),
        decreases s.len() - i,
    {
        i += 1;
    }
    i
}

/// The text without the white space at its beginning and at its end.
pub fn trimmed(s: &Vec<char>) -> (v: Vec<char>)
    ensures
        v@ == trim(s@),
{
    let from = after_spaces(s, 0);
    let mut upto: usize = s.len();
    while upto > 0 && is_whitespace(s[upto - 1])
        invariant
            upto <= s.len(),
            back_spaces(s@, upto as int) == back_spaces(s@, s@.len() as int),
        decreases upto,
    {
        upto -= 1;
    }
    if from < upto {
        slice(s, from, upto)
    } else {
        Vec::new()
    }
}

/// The words of a text.
pub fn split_words(s: &Vec<char>) -> (parts: Vec<Vec<char>>)
    ensures
        texts(parts@) == words(s@),
{
    let mut parts: Vec<Vec<char>> = Vec::new();
    let mut at: usize = 0;
    loop
        invariant
            at <= s.len(),
            texts(parts@) + words_from(s@, at as int) == words(s@),
        decreases s.len() - at,
    {
        let start = after_spaces(s, at);
        if start >= s.len() {
            assert(words_from(s@, at as int) == Seq::<Seq<char>>::empty());
            assert(texts(parts@) + Seq::<Seq<char>>::empty() =~= texts(parts@));
            return parts;
        }
        let end = end_of_word(s, start + 1);
        let word = slice(s, start, end);
        let ghost before = texts(parts@);
        parts.push(word);
        proof {
            assert(texts(parts@) =~= before + seq![s@.subrange(start as int, end as int)]);
            assert(words_from(s@, at as int) == seq![s@.subrange(start as int, end as int)]
                + words_from(s@, end as int));
            assert(texts(parts@) + words_from(s@, end as int) =~= before + words_from(
                s@,
                at as int,
            ));
        }
        at = end;
    }
}

} // verus!
