//! Text as sequences of characters.
//!
//! Strings are taken apart and put together as `Vec<char>`, and every
//! function here is specified over `Seq<char>`: what white space is, how a
//! text falls into lines and fields, and how numbers are read and written.
use vstd::prelude::*;

verus! {

/// `String::push` of the standard library appends the one character `ch` to
/// the end of the string and changes nothing else.
pub assume_specification[ String::push ](s: &mut String, ch: char)
    ensures
        final(s)@ == old(s)@.push(ch),
;

/// The characters of `s`, in order.
pub fn chars_of(s: &str) -> (r: Vec<char>)
    ensures
        r@ == s@,
{
    let mut v: Vec<char> = Vec::new();
    for c in it: s.chars()
        invariant
            v@ == it.seq().take(it.index()),
    {
        v.push(c);
    }
    v
}

/// The string made of the characters of `v`, in order.
pub fn string_of(v: &Vec<char>) -> (r: String)
    ensures
        r@ == v@,
{
    let mut s = String::new();
    let mut i: usize = 0;
    while i < v.len()
        invariant
            i <= v.len(),
            s@ == v@.take(i as int),
        decreases v.len() - i,
    {
        s.push(v[i]);
        i += 1;
    }
    s
}

/// Appends the characters of `s` to `out`.
pub fn push_str(out: &mut Vec<char>, s: &str)
    ensures
        final(out)@ == old(out)@ + s@,
{
    let ghost before = out@;
    for c in it: s.chars()
        invariant
            it.seq() == s@,
            out@ == before + s@.take(it.index()),
    {
        out.push(c);
        assert(out@ =~= before + s@.take(it.index() + 1));
    }
    assert(s@.take(s@.len() as int) =~= s@);
}

/// Appends the characters of `v` to `out`.
pub fn push_all(out: &mut Vec<char>, v: &Vec<char>)
    ensures
        final(out)@ == old(out)@ + v@,
{
    let ghost before = out@;
    let mut i: usize = 0;
    while i < v.len()
        invariant
            i <= v.len(),
            out@ == before + v@.take(i as int),
        decreases v.len() - i,
    {
        out.push(v[i]);
        i += 1;
        assert(out@ =~= before + v@.take(i as int));
    }
    assert(v@.take(v@.len() as int) =~= v@);
}

/// Whether `v` holds exactly the characters of `s`.
pub fn is_str(v: &Vec<char>, s: &str) -> (b: bool)
    ensures
        b == (v@ == s@),
{
    let mut i: usize = 0;
    for c in it: s.chars()
        invariant
            it.seq() == s@,
            i == it.index(),
            i <= v.len(),
            v@.take(i as int) == s@.take(i as int),
    {
        if i >= v.len() || v[i] != c {
            assert(v@ != s@) by {
                if v@ == s@ {
                    assert(v@[i as int] == s@[i as int]);
                }
            }
            return false;
        }
        i += 1;
        assert(v@.take(i as int) =~= v@.take(i - 1).push(v@[i - 1]));
        assert(s@.take(i as int) =~= s@.take(i - 1).push(s@[i - 1]));
    }
    assert(s@.take(s@.len() as int) =~= s@);
    if i == v.len() {
        assert(v@.take(v@.len() as int) =~= v@);
        true
    } else {
        false
    }
}

/// The characters of `v` from index `from` up to, not including, `to`.
pub fn slice_of(v: &Vec<char>, from: usize, to: usize) -> (r: Vec<char>)
    requires
        from <= to <= v.len(),
    ensures
        r@ == v@.subrange(from as int, to as int),
{
    let mut r: Vec<char> = Vec::new();
    let mut i: usize = from;
    while i < to
        invariant
            from <= i <= to <= v.len(),
            r@ == v@.subrange(from as int, i as int),
        decreases to - i,
    {
        r.push(v[i]);
        i += 1;
        assert(r@ =~= v@.subrange(from as int, i as int));
    }
    r
}

/// `s` with every occurrence of the character `from` replaced by `to`.
pub open spec fn replace_char(s: Seq<char>, from: char, to: char) -> Seq<char> {
    Seq::new(s.len(), |i: int| if s[i] == from { to } else { s[i] })
}

/// Replaces every `from` in `s` by `to`.
pub fn replace_in(s: &str, from: char, to: char) -> (r: String)
    ensures
        r@ == replace_char(s@, from, to),
{
    let mut out = String::new();
    for c in it: s.chars()
        invariant
            it.seq() == s@,
            out@ == replace_char(s@, from, to).take(it.index()),
    {
        if c == from {
            out.push(to);
        } else {
            out.push(c);
        }
    }
    out
}

/// White space: the characters with the Unicode property `White_Space`.
pub open spec fn is_space(c: char) -> bool {
    let n = c as u32;
    ||| 0x09 <= n <= 0x0d
    ||| n == 0x20
    ||| n == 0x85
    ||| n == 0xa0
    ||| n == 0x1680
    ||| 0x2000 <= n <= 0x200a
    ||| n == 0x2028
    ||| n == 0x2029
    ||| n == 0x202f
    ||| n == 0x205f
    ||| n == 0x3000
}

/// Whether `c` is white space.
pub fn is_whitespace(c: char) -> (b: bool)
    ensures
        b == is_space(c),
{
    let n = c as u32;
    (0x09 <= n && n <= 0x0d) || n == 0x20 || n == 0x85 || n == 0xa0 || n == 0x1680 || (0x2000 <= n
        && n <= 0x200a) || n == 0x2028 || n == 0x2029 || n == 0x202f || n == 0x205f || n == 0x3000
}

/// A set of characters: white space, or one character.
#[derive(Debug, Clone, Copy, PartialEq, Eq, Structural)]
pub enum CharClass {
    Space,
    Is(char),
}

impl CharClass {
    /// Whether `c` belongs to the class.
    pub open spec fn has(self, c: char) -> bool {
        match self {
            CharClass::Space => is_space(c),
            CharClass::Is(x) => c == x,
        }
    }

    /// Whether `c` belongs to the class.
    pub fn contains(&self, c: char) -> (b: bool)
        ensures
            b == self.has(c),
    {
        match self {
            CharClass::Space => is_whitespace(c),
            CharClass::Is(x) => c == *x,
        }
    }
}

/// The index of the first character of `s` that is in `class`, or the length
/// of `s` if none is.
pub open spec fn first_index(s: Seq<char>, class: CharClass) -> nat
    decreases s.len(),
{
    if s.len() == 0 || class.has(s[0]) {
        0
    } else {
        1 + first_index(s.drop_first(), class)
    }
}

/// [`first_index`] is the one index before which nothing is in `class` and
/// at which `s` ends or a character of `class` stands.
pub proof fn lemma_first_index(s: Seq<char>, class: CharClass, i: int)
    requires
        0 <= i <= s.len(),
        forall|j: int| 0 <= j < i ==> !class.has(#[trigger] s[j]),
        i == s.len() || class.has(s[i]),
    ensures
        first_index(s, class) == i,
    decreases i,
{
    if i > 0 {
        let t = s.drop_first();
        assert forall|j: int| 0 <= j < i - 1 implies !class.has(#[trigger] t[j]) by {
            assert(t[j] == s[j + 1]);
        }
        lemma_first_index(t, class, i - 1);
    }
}

/// [`first_index`] lies within `s`, nothing before it is in `class`, and
/// where it is an index of `s` the character there is.
pub proof fn lemma_first_index_is_first(s: Seq<char>, class: CharClass)
    ensures
        first_index(s, class) <= s.len(),
        forall|j: int| 0 <= j < first_index(s, class) ==> !class.has(#[trigger] s[j]),
        first_index(s, class) < s.len() ==> class.has(s[first_index(s, class) as int]),
    decreases s.len(),
{
    if s.len() == 0 || class.has(s[0]) {
    } else {
        let t = s.drop_first();
        lemma_first_index_is_first(t, class);
        assert forall|j: int| 0 <= j < first_index(s, class) implies !class.has(
            #[trigger] s[j],
        ) by {
            if j > 0 {
                assert(s[j] == t[j - 1]);
            }
        }
        if first_index(s, class) < s.len() {
            assert(s[first_index(s, class) as int] == t[first_index(t, class) as int]);
        }
    }
}

/// The index of the first `c` in `s`, or the length of `s` if there is none.
pub open spec fn index_of(s: Seq<char>, c: char) -> nat {
    first_index(s, CharClass::Is(c))
}

/// The index of the first white space in `s`, or the length of `s`.
pub open spec fn index_of_space(s: Seq<char>) -> nat {
    first_index(s, CharClass::Space)
}

/// The index of the first character of `class` in `v` at or after `from`,
/// or the length of `v`.
pub fn find_from(v: &Vec<char>, class: CharClass, from: usize) -> (i: usize)
    requires
        from <= v.len(),
    ensures
        i == from + first_index(v@.skip(from as int), class),
        from <= i <= v.len(),
{
    let mut i: usize = from;
    while i < v.len() && !class.contains(v[i])
        invariant
            from <= i <= v.len(),
            forall|j: int| from <= j < i ==> !class.has(v@[j]),
        decreases v.len() - i,
    {
        i += 1;
    }
    proof {
        let t = v@.skip(from as int);
        assert forall|j: int| 0 <= j < i - from implies !class.has(#[trigger] t[j]) by {
            assert(t[j] == v@[from + j]);
        }
        if i < v.len() {
            assert(t[i - from] == v@[i as int]);
        }
        lemma_first_index(t, class, i - from);
    }
    i
}

/// The index of the first `c` in `v`, or the length of `v`.
pub fn find_char(v: &Vec<char>, c: char) -> (i: usize)
    ensures
        i == index_of(v@, c),
        i <= v.len(),
{
    assert(v@.skip(0) =~= v@);
    find_from(v, CharClass::Is(c), 0)
}

/// Whether `c` occurs in `v`.
pub fn has_char(v: &Vec<char>, c: char) -> (b: bool)
    ensures
        b == v@.contains(c),
        b == (index_of(v@, c) < v@.len()),
{
    let i = find_char(v, c);
    proof {
        lemma_first_index_is_first(v@, CharClass::Is(c));
        if i < v.len() {
            assert(v@[i as int] == c);
        }
    }
    i < v.len()
}

/// `s` without the characters of `class` at its start.
pub open spec fn drop_leading(s: Seq<char>, class: CharClass) -> Seq<char>
    decreases s.len(),
{
    if s.len() > 0 && class.has(s[0]) {
        drop_leading(s.drop_first(), class)
    } else {
        s
    }
}

/// [`drop_leading`] keeps what follows the first character that is not in
/// `class`, and that character.
pub proof fn lemma_drop_leading(s: Seq<char>, class: CharClass, k: int)
    requires
        0 <= k <= s.len(),
        forall|j: int| 0 <= j < k ==> class.has(#[trigger] s[j]),
        k == s.len() || !class.has(s[k]),
    ensures
        drop_leading(s, class) == s.skip(k),
    decreases k,
{
    if k == 0 {
        assert(s.skip(0) =~= s);
    } else {
        let t = s.drop_first();
        assert(class.has(s[0]));
        assert forall|j: int| 0 <= j < k - 1 implies class.has(#[trigger] t[j]) by {
            assert(t[j] == s[j + 1]);
        }
        lemma_drop_leading(t, class, k - 1);
        assert(t.skip(k - 1) =~= s.skip(k));
    }
}

/// `s` without the characters of `class` at its end.
pub open spec fn drop_trailing(s: Seq<char>, class: CharClass) -> Seq<char>
    decreases s.len(),
{
    if s.len() > 0 && class.has(s.last()) {
        drop_trailing(s.drop_last(), class)
    } else {
        s
    }
}

/// [`drop_trailing`] keeps what comes before the last character that is not
/// in `class`, and that character.
pub proof fn lemma_drop_trailing(s: Seq<char>, class: CharClass, k: int)
    requires
        0 <= k <= s.len(),
        forall|j: int| k <= j < s.len() ==> class.has(#[trigger] s[j]),
        k == 0 || !class.has(s[k - 1]),
    ensures
        drop_trailing(s, class) == s.take(k),
    decreases s.len() - k,
{
    if k == s.len() {
        assert(s.take(k) =~= s);
    } else {
        let t = s.drop_last();
        assert(class.has(s[s.len() - 1]));
        lemma_drop_trailing(t, class, k);
        assert(t.take(k) =~= s.take(k));
    }
}

/// `s` without the white space at its start.
pub open spec fn trim_start(s: Seq<char>) -> Seq<char> {
    drop_leading(s, CharClass::Space)
}

/// `s` without the white space at its end.
pub open spec fn trim_end(s: Seq<char>) -> Seq<char> {
    drop_trailing(s, CharClass::Space)
}

/// `s` without the white space at its start and at its end.
pub open spec fn trim(s: Seq<char>) -> Seq<char> {
    trim_end(trim_start(s))
}

/// `v` without the characters of `class` at its start.
pub fn drop_leading_of(v: &Vec<char>, class: CharClass) -> (r: Vec<char>)
    ensures
        r@ == drop_leading(v@, class),
{
    let mut i: usize = 0;
    while i < v.len() && class.contains(v[i])
        invariant
            i <= v.len(),
            forall|j: int| 0 <= j < i ==> class.has(v@[j]),
        decreases v.len() - i,
    {
        i += 1;
    }
    proof {
        lemma_drop_leading(v@, class, i as int);
    }
    slice_of(v, i, v.len())
}

/// `v` without the characters of `class` at its end.
pub fn drop_trailing_of(v: &Vec<char>, class: CharClass) -> (r: Vec<char>)
    ensures
        r@ == drop_trailing(v@, class),
{
    let mut k: usize = v.len();
    while k > 0 && class.contains(v[k - 1])
        invariant
            k <= v.len(),
            forall|j: int| k <= j < v.len() ==> class.has(v@[j]),
        decreases k,
    {
        k -= 1;
    }
    proof {
        lemma_drop_trailing(v@, class, k as int);
    }
    slice_of(v, 0, k)
}

/// `v` without the white space at its start and at its end.
pub fn trim_of(v: &Vec<char>) -> (r: Vec<char>)
    ensures
        r@ == trim(v@),
{
    let start = drop_leading_of(v, CharClass::Space);
    drop_trailing_of(&start, CharClass::Space)
}

/// The first run of characters of `s` that are not white space; empty where
/// `s` is empty or all white space.
pub open spec fn first_word(s: Seq<char>) -> Seq<char> {
    let t = trim_start(s);
    t.take(index_of_space(t) as int)
}

/// What follows the first word of `s`, without the white space at its start.
pub open spec fn after_first_word(s: Seq<char>) -> Seq<char> {
    let t = trim_start(s);
    trim_start(t.skip(index_of_space(t) as int))
}

/// Splits `v` into its first word and what follows it.
pub fn split_first_word(v: &Vec<char>) -> (r: (Vec<char>, Vec<char>))
    ensures
        r.0@ == first_word(v@),
        r.1@ == after_first_word(v@),
{
    let t = drop_leading_of(v, CharClass::Space);
    assert(t@.skip(0) =~= t@);
    let i = find_from(&t, CharClass::Space, 0);
    let word = slice_of(&t, 0, i);
    let rest = slice_of(&t, i, t.len());
    (word, drop_leading_of(&rest, CharClass::Space))
}

/// The views of the texts in `v`.
pub open spec fn texts(v: Seq<Vec<char>>) -> Seq<Seq<char>> {
    Seq::new(v.len(), |i: int| v[i]@)
}

/// The fields of `s`: the pieces between the occurrences of `sep`. There is
/// always one field more than there are separators.
pub open spec fn split_on(s: Seq<char>, sep: char) -> Seq<Seq<char>>
    decreases s.len(),
{
    let i = index_of(s, sep) as int;
    if i >= s.len() {
        seq![s]
    } else {
        seq![s.take(i)] + split_on(s.skip(i + 1), sep)
    }
}

/// Splits `v` at every `sep`.
pub fn split_fields(v: &Vec<char>, sep: char) -> (r: Vec<Vec<char>>)
    ensures
        texts(r@) == split_on(v@, sep),
{
    let mut parts: Vec<Vec<char>> = Vec::new();
    let mut start: usize = 0;
    assert(v@.skip(0) =~= v@);
    assert(texts(parts@) =~= Seq::<Seq<char>>::empty());
    loop
        invariant_except_break
            start <= v.len(),
            split_on(v@, sep) == texts(parts@) + split_on(v@.skip(start as int), sep),
        ensures
            texts(parts@) == split_on(v@, sep),
        decreases v.len() - start,
    {
        let ghost rest = v@.skip(start as int);
        let ghost before = texts(parts@);
        let i = find_from(v, CharClass::Is(sep), start);
        let piece = slice_of(v, start, i);
        assert(piece@ =~= rest.take(i - start));
        parts.push(piece);
        assert(texts(parts@) =~= before + seq![rest.take(i - start)]);
        if i >= v.len() {
            assert(rest.take(i - start) =~= rest);
            break ;
        }
        assert(rest.skip(i - start + 1) =~= v@.skip(i + 1));
        assert(before + (seq![rest.take(i - start)] + split_on(v@.skip(i + 1), sep)) =~= (before
            + seq![rest.take(i - start)]) + split_on(v@.skip(i + 1), sep));
        start = i + 1;
    }
    parts
}

/// `s` without one carriage return at its end.
pub open spec fn strip_cr(s: Seq<char>) -> Seq<char> {
    if s.len() > 0 && s.last() == '\r' {
        s.drop_last()
    } else {
        s
    }
}

/// The lines of `s`. A line ends at a line feed, or at the end of the text
/// where the text does not end in a line feed; a carriage return before the
/// line feed belongs to the line ending. The empty text has no line.
pub open spec fn lines_of(s: Seq<char>) -> Seq<Seq<char>>
    decreases s.len(),
{
    let i = index_of(s, '\n') as int;
    if s.len() == 0 {
        seq![]
    } else if i >= s.len() {
        seq![s]
    } else {
        seq![strip_cr(s.take(i))] + lines_of(s.skip(i + 1))
    }
}

/// Splits `v` into its lines.
pub fn split_lines(v: &Vec<char>) -> (r: Vec<Vec<char>>)
    ensures
        texts(r@) == lines_of(v@),
{
    let mut lines: Vec<Vec<char>> = Vec::new();
    let mut start: usize = 0;
    assert(v@.skip(0) =~= v@);
    assert(texts(lines@) =~= Seq::<Seq<char>>::empty());
    while start < v.len()
        invariant
            start <= v.len(),
            lines_of(v@) == texts(lines@) + lines_of(v@.skip(start as int)),
        decreases v.len() - start,
    {
        let ghost rest = v@.skip(start as int);
        let ghost before = texts(lines@);
        let i = find_from(v, CharClass::Is('\n'), start);
        if i >= v.len() {
            let piece = slice_of(v, start, i);
            assert(piece@ =~= rest);
            lines.push(piece);
            assert(texts(lines@) =~= before + seq![rest]);
            start = i;
            assert(lines_of(v@.skip(start as int)) =~= Seq::<Seq<char>>::empty());
            assert(before + seq![rest] =~= before + seq![rest] + Seq::<Seq<char>>::empty());
        } else {
            let end = if i > start && v[i - 1] == '\r' {
                i - 1
            } else {
                i
            };
            let piece = slice_of(v, start, end);
            assert(rest.take(i - start) =~= v@.subrange(start as int, i as int));
            assert(piece@ =~= strip_cr(rest.take(i - start)));
            lines.push(piece);
            assert(texts(lines@) =~= before + seq![strip_cr(rest.take(i - start))]);
            assert(rest.skip(i - start + 1) =~= v@.skip(i + 1));
            assert(before + (seq![strip_cr(rest.take(i - start))] + lines_of(v@.skip(i + 1)))
                =~= (before + seq![strip_cr(rest.take(i - start))]) + lines_of(v@.skip(i + 1)));
            start = i + 1;
        }
    }
    assert(lines_of(v@.skip(start as int)) =~= Seq::<Seq<char>>::empty());
    assert(texts(lines@) + Seq::<Seq<char>>::empty() =~= texts(lines@));
    lines
}

/// Whether `pat` occurs in `s` as a run of consecutive characters.
pub open spec fn has_infix(s: Seq<char>, pat: Seq<char>) -> bool {
    exists|i: int| occurs_at(s, pat, i)
}

/// Whether `pat` occurs in `s` at index `i`.
pub open spec fn occurs_at(s: Seq<char>, pat: Seq<char>, i: int) -> bool {
    0 <= i && i + pat.len() <= s.len() && s.subrange(i, i + pat.len()) == pat
}

fn matches_at(v: &Vec<char>, pat: &Vec<char>, i: usize) -> (b: bool)
    requires
        i + pat.len() <= v.len(),
    ensures
        b == occurs_at(v@, pat@, i as int),
{
    let mut k: usize = 0;
    while k < pat.len()
        invariant
            k <= pat.len(),
            i + pat.len() <= v.len(),
            forall|j: int| 0 <= j < k ==> v@[i + j] == pat@[j],
        decreases pat.len() - k,
    {
        if v[i + k] != pat[k] {
            assert(!occurs_at(v@, pat@, i as int)) by {
                if occurs_at(v@, pat@, i as int) {
                    assert(v@.subrange(i as int, i + pat@.len())[k as int] == pat@[k as int]);
                }
            }
            return false;
        }
        k += 1;
    }
    assert(v@.subrange(i as int, i + pat@.len()) =~= pat@);
    true
}

/// Whether the characters of `pat` occur in `v` as a run.
pub fn contains_str(v: &Vec<char>, pat: &str) -> (b: bool)
    ensures
        b == has_infix(v@, pat@),
{
    let p = chars_of(pat);
    if p.len() > v.len() {
        return false;
    }
    let last: usize = v.len() - p.len();
    let mut i: usize = 0;
    loop
        invariant
            i <= last,
            last == v.len() - p.len(),
            p@ == pat@,
            forall|j: int| 0 <= j < i ==> !occurs_at(v@, p@, j),
        decreases last - i,
    {
        if matches_at(v, &p, i) {
            return true;
        }
        if i == last {
            return false;
        }
        i += 1;
    }
}

/// Whether `v` starts with the characters of `prefix`.
pub fn starts_with_str(v: &Vec<char>, prefix: &str) -> (b: bool)
    ensures
        b == prefix@.is_prefix_of(v@),
{
    let p = chars_of(prefix);
    if p.len() > v.len() {
        return false;
    }
    let b = matches_at(v, &p, 0);
    proof {
        if b {
            assert(v@.subrange(0, p@.len() as int) =~= p@);
            assert(p@ =~= v@.subrange(0, p@.len() as int));
        }
        if p@.is_prefix_of(v@) {
            assert(v@.subrange(0, p@.len() as int) =~= p@);
        }
    }
    b
}

/// The view of a text that may be absent.
pub open spec fn opt_text(o: Option<String>) -> Option<Seq<char>> {
    match o {
        Some(s) => Some(s@),
        None => None,
    }
}

} // verus!
