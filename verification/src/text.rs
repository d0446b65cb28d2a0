//! Character-level text primitives: character classes, splitting, lines,
//! words, trimming and substring search, each with a mathematical model over
//! `Seq<char>` and an executable counterpart over `Vec<char>`.

use vstd::prelude::*;

verus! {

/// A set of characters used as a separator or as trimmable padding.
#[derive(Clone, Copy, Debug)]
pub enum CharClass {
    /// Exactly the given character.
    Char(char),
    /// Every character with the Unicode `White_Space` property.
    Whitespace,
    /// The percent sign and the ASCII letters: what a unit is made of that is
    /// written directly behind a number, as in `85%` or `45.0C`.
    Unit,
}

/// Whether `c` is a percent sign or an ASCII letter.
pub open spec fn is_unit_char(c: char) -> bool {
    c == '%' || 'a' <= c <= 'z' || 'A' <= c <= 'Z'
}

/// The Unicode `White_Space` property.
pub open spec fn is_whitespace(c: char) -> bool {
    let u = c as u32;
    ||| 0x09 <= u <= 0x0d
    ||| u == 0x20
    ||| u == 0x85
    ||| u == 0xa0
    ||| u == 0x1680
    ||| 0x2000 <= u <= 0x200a
    ||| u == 0x2028
    ||| u == 0x2029
    ||| u == 0x202f
    ||| u == 0x205f
    ||| u == 0x3000
}

/// Decides whether `c` is Unicode white space.
pub fn char_is_whitespace(c: char) -> (b: bool)
    ensures
        b == is_whitespace(c),
{
    let u: u32 = c as u32;
    (0x09 <= u && u <= 0x0d) || u == 0x20 || u == 0x85 || u == 0xa0 || u == 0x1680 || (0x2000 <= u
        && u <= 0x200a) || u == 0x2028 || u == 0x2029 || u == 0x202f || u == 0x205f || u == 0x3000
}

impl CharClass {
    /// Membership of `c` in the class.
    pub open spec fn matches(self, c: char) -> bool {
        match self {
            CharClass::Char(d) => c == d,
            CharClass::Whitespace => is_whitespace(c),
            CharClass::Unit => is_unit_char(c),
        }
    }

    /// Decides membership of `c` in the class.
    pub fn contains_char(&self, c: char) -> (b: bool)
        ensures
            b == self.matches(c),
    {
        match self {
            CharClass::Char(d) => c == *d,
            CharClass::Whitespace => char_is_whitespace(c),
            CharClass::Unit => c == '%' || ('a' <= c && c <= 'z') || ('A' <= c && c <= 'Z'),
        }
    }
}

/// Index of the first character of `s` that belongs to `class`, or `s.len()`
/// when there is none.
pub open spec fn first_match(s: Seq<char>, class: CharClass) -> int
    decreases s.len(),
{
    if s.len() == 0 || class.matches(s[0]) {
        0
    } else {
        1 + first_match(s.drop_first(), class)
    }
}

/// `first_match` is the least index holding a character of the class.
pub proof fn lemma_first_match(s: Seq<char>, class: CharClass)
    ensures
        0 <= first_match(s, class) <= s.len(),
        forall|j: int| 0 <= j < first_match(s, class) ==> !class.matches(#[trigger] s[j]),
        first_match(s, class) < s.len() ==> class.matches(s[first_match(s, class)]),
    decreases s.len(),
{
    if s.len() == 0 || class.matches(s[0]) {
    } else {
        let t = s.drop_first();
        lemma_first_match(t, class);
        assert forall|j: int| 0 <= j < first_match(s, class) implies !class.matches(
            #[trigger] s[j],
        ) by {
            if j > 0 {
                assert(s[j] == t[j - 1]);
            }
        }
    }
}

/// Any index that is preceded by no character of the class, and that either
/// ends `s` or holds a character of the class, is `first_match`.
pub proof fn lemma_first_match_is(s: Seq<char>, class: CharClass, i: int)
    requires
        0 <= i <= s.len(),
        forall|j: int| 0 <= j < i ==> !class.matches(#[trigger] s[j]),
        i < s.len() ==> class.matches(s[i]),
    ensures
        first_match(s, class) == i,
{
    lemma_first_match(s, class);
    let f = first_match(s, class);
    if f < i {
        assert(!class.matches(s[f]));
    } else if i < f {
        assert(!class.matches(s[i]));
    }
}

/// The pieces of `s` between the characters of `class`. A sequence with `n`
/// separators has `n + 1` pieces, some of which may be empty.
pub open spec fn split(s: Seq<char>, class: CharClass) -> Seq<Seq<char>>
    decreases s.len(),
{
    let i = first_match(s, class);
    if 0 <= i < s.len() {
        seq![s.subrange(0, i)] + split(s.subrange(i + 1, s.len() as int), class)
    } else {
        seq![s]
    }
}

/// Finds the first character of `class` in `s` at or after `from`.
pub(crate) fn find_from(s: &Vec<char>, from: usize, class: CharClass) -> (i: usize)
    requires
        from <= s.len(),
    ensures
        from <= i <= s.len(),
        i - from == first_match(s@.subrange(from as int, s.len() as int), class),
{
    let mut i: usize = from;
    while i < s.len() && !class.contains_char(s[i])
        invariant
            from <= i <= s.len(),
            forall|j: int| from <= j < i ==> !class.matches(#[trigger] s@[j]),
        decreases s.len() - i,
    {
        i += 1;
    }
    proof {
        let rest = s@.subrange(from as int, s.len() as int);
        assert forall|j: int| 0 <= j < i - from implies !class.matches(#[trigger] rest[j]) by {
            assert(rest[j] == s@[from + j]);
        }
        lemma_first_match_is(rest, class, i - from);
    }
    i
}

/// Copies the characters of `s` from `from` up to `to`.
pub(crate) fn slice(s: &Vec<char>, from: usize, to: usize) -> (out: Vec<char>)
    requires
        from <= to <= s.len(),
    ensures
        out@ == s@.subrange(from as int, to as int),
{
    let mut out: Vec<char> = Vec::new();
    let mut i: usize = from;
    while i < to
        invariant
            from <= i <= to <= s.len(),
            out@ == s@.subrange(from as int, i as int),
        decreases to - i,
    {
        out.push(s[i]);
        i += 1;
    }
    out
}

/// The views of the elements of a vector of character vectors.
pub open spec fn views(v: Seq<Vec<char>>) -> Seq<Seq<char>> {
    v.map_values(|p: Vec<char>| p@)
}

/// A stretch of a text: the characters from `start` up to `end`.
#[derive(Clone, Copy, Debug, PartialEq, Eq, Structural)]
pub struct Span {
    pub start: usize,
    pub end: usize,
}

impl Span {
    /// Whether the span lies within a text of `len` characters.
    pub open spec fn within(self, len: nat) -> bool {
        self.start <= self.end <= len
    }

    /// The characters of `s` that the span covers.
    pub open spec fn of(self, s: Seq<char>) -> Seq<char> {
        s.subrange(self.start as int, self.end as int)
    }
}

/// Whether every one of `spans` lies within a text of `len` characters.
pub open spec fn spans_within(spans: Seq<Span>, len: nat) -> bool {
    forall|i: int| 0 <= i < spans.len() ==> (#[trigger] spans[i]).within(len)
}

/// The stretches of `s` that `spans` cover, in order.
pub open spec fn span_texts(s: Seq<char>, spans: Seq<Span>) -> Seq<Seq<char>> {
    spans.map_values(|span: Span| span.of(s))
}

/// Finds the pieces of `s` between the characters of `class`.
pub fn split_spans(s: &Vec<char>, class: CharClass) -> (spans: Vec<Span>)
    ensures
        spans_within(spans@, s@.len()),
        span_texts(s@, spans@) == split(s@, class),
{
    let mut spans: Vec<Span> = Vec::new();
    let mut start: usize = 0;
    proof {
        assert(s@.subrange(0, s.len() as int) == s@);
        assert(span_texts(s@, spans@) == Seq::<Seq<char>>::empty());
    }
    loop
        invariant_except_break
            start <= s.len(),
            split(s@, class) == span_texts(s@, spans@) + split(
                s@.subrange(start as int, s.len() as int),
                class,
            ),
        invariant
            spans_within(spans@, s@.len()),
        ensures
            span_texts(s@, spans@) == split(s@, class),
        decreases s.len() - start,
    {
        let end = find_from(s, start, class);
        let span = Span { start, end };
        let ghost rest = s@.subrange(start as int, s.len() as int);
        let ghost before = span_texts(s@, spans@);
        proof {
            lemma_first_match(rest, class);
            assert(rest.subrange(0, end - start) == span.of(s@));
        }
        spans.push(span);
        assert(span_texts(s@, spans@) == before.push(span.of(s@)));
        if end == s.len() {
            assert(rest.subrange(0, rest.len() as int) == rest);
            break ;
        }
        proof {
            assert(rest.subrange(end - start + 1, rest.len() as int) == s@.subrange(
                end + 1,
                s.len() as int,
            ));
        }
        start = end + 1;
    }
    spans
}

/// Copies the stretches of `s` that `spans` cover.
pub(crate) fn extract(s: &Vec<char>, spans: &Vec<Span>) -> (pieces: Vec<Vec<char>>)
    requires
        spans_within(spans@, s@.len()),
    ensures
        views(pieces@) == span_texts(s@, spans@),
{
    let mut pieces: Vec<Vec<char>> = Vec::new();
    let mut i: usize = 0;
    while i < spans.len()
        invariant
            i <= spans.len(),
            spans_within(spans@, s@.len()),
            pieces.len() == i,
            forall|k: int| 0 <= k < i ==> (#[trigger] pieces@[k])@ == spans@[k].of(s@),
        decreases spans.len() - i,
    {
        let span = spans[i];
        assert(spans@[i as int].within(s@.len()));
        pieces.push(slice(s, span.start, span.end));
        i += 1;
    }
    assert(views(pieces@) =~= span_texts(s@, spans@));
    pieces
}

/// Splits `s` at every character of `class`.
pub fn split_chars(s: &Vec<char>, class: CharClass) -> (pieces: Vec<Vec<char>>)
    ensures
        views(pieces@) == split(s@, class),
{
    let spans = split_spans(s, class);
    extract(s, &spans)
}

/// A split always yields at least one piece.
pub proof fn lemma_split_nonempty(s: Seq<char>, class: CharClass)
    ensures
        split(s, class).len() >= 1,
{
}

/// `s` without one trailing carriage return, if it has one.
pub open spec fn strip_carriage_return(s: Seq<char>) -> Seq<char> {
    if s.len() > 0 && s.last() == '\r' {
        s.drop_last()
    } else {
        s
    }
}

/// The lines of `s`. A line ends at a line feed, or at a carriage return
/// directly followed by a line feed; the terminator is not part of the line.
/// The last line needs no terminator, and a carriage return that no line feed
/// follows belongs to its line.
pub open spec fn lines(s: Seq<char>) -> Seq<Seq<char>> {
    let pieces = split(s, CharClass::Char('\n'));
    let n = pieces.len() as int;
    let count = if pieces.last().len() == 0 {
        n - 1
    } else {
        n
    };
    Seq::new(
        count as nat,
        |i: int|
            if i < n - 1 {
                strip_carriage_return(pieces[i])
            } else {
                pieces[i]
            },
    )
}

/// Finds the lines of `s`.
pub fn line_spans(s: &Vec<char>) -> (out: Vec<Span>)
    ensures
        spans_within(out@, s@.len()),
        span_texts(s@, out@) == lines(s@),
{
    let pieces = split_spans(s, CharClass::Char('\n'));
    proof {
        lemma_split_nonempty(s@, CharClass::Char('\n'));
        assert(span_texts(s@, pieces@).len() == pieces@.len());
    }
    let n = pieces.len();
    let last = pieces[n - 1];
    let count = if last.end == last.start {
        n - 1
    } else {
        n
    };
    assert(span_texts(s@, pieces@).last() == pieces@[n - 1].of(s@));
    let mut out: Vec<Span> = Vec::new();
    let mut i: usize = 0;
    while i < count
        invariant
            i <= count <= n,
            n == pieces.len(),
            spans_within(pieces@, s@.len()),
            spans_within(out@, s@.len()),
            span_texts(s@, pieces@) == split(s@, CharClass::Char('\n')),
            out.len() == i,
            forall|k: int| 0 <= k < i ==> (#[trigger] out@[k]).of(s@) == lines(s@)[k],
            count == lines(s@).len(),
        decreases count - i,
    {
        let piece = pieces[i];
        assert(pieces@[i as int].within(s@.len()));
        assert(span_texts(s@, pieces@)[i as int] == piece.of(s@));
        let end = if i + 1 < n && piece.end > piece.start && s[piece.end - 1] == '\r' {
            piece.end - 1
        } else {
            piece.end
        };
        let line = Span { start: piece.start, end };
        proof {
            let text = piece.of(s@);
            if text.len() > 0 {
                assert(text.last() == s@[piece.end - 1]);
                assert(text.drop_last() == s@.subrange(piece.start as int, piece.end - 1));
            }
        }
        out.push(line);
        i += 1;
    }
    assert(span_texts(s@, out@) =~= lines(s@));
    out
}

/// Splits `s` into its lines.
pub fn split_lines(s: &Vec<char>) -> (out: Vec<Vec<char>>)
    ensures
        views(out@) == lines(s@),
{
    let spans = line_spans(s);
    extract(s, &spans)
}

/// The pieces that hold at least one character, in order.
pub open spec fn non_empty_pieces(pieces: Seq<Seq<char>>) -> Seq<Seq<char>> {
    pieces.filter(|p: Seq<char>| p.len() > 0)
}

/// Appending a piece appends it to the non-empty pieces exactly when it holds a
/// character.
pub proof fn lemma_non_empty_pieces_push(pieces: Seq<Seq<char>>, p: Seq<char>)
    ensures
        non_empty_pieces(pieces.push(p)) == if p.len() > 0 {
            non_empty_pieces(pieces).push(p)
        } else {
            non_empty_pieces(pieces)
        },
{
    pieces.lemma_filter_push(p, |p: Seq<char>| p.len() > 0);
}

/// The maximal runs of characters of `s` that are not white space, in order.
pub open spec fn words(s: Seq<char>) -> Seq<Seq<char>> {
    non_empty_pieces(split(s, CharClass::Whitespace))
}

/// Splits `s` into its words.
pub fn split_words(s: &Vec<char>) -> (out: Vec<Vec<char>>)
    ensures
        views(out@) == words(s@),
{
    let pieces = split_chars(s, CharClass::Whitespace);
    let mut out: Vec<Vec<char>> = Vec::new();
    let mut i: usize = 0;
    assert(views(pieces@).take(0) == Seq::<Seq<char>>::empty());
    assert(views(out@) == Seq::<Seq<char>>::empty());
    while i < pieces.len()
        invariant
            i <= pieces.len(),
            views(out@) == non_empty_pieces(views(pieces@).take(i as int)),
        decreases pieces.len() - i,
    {
        let piece = &pieces[i];
        let ghost before = views(out@);
        proof {
            let all = views(pieces@);
            assert(all.take(i + 1) == all.take(i as int).push(piece@));
            lemma_non_empty_pieces_push(all.take(i as int), piece@);
        }
        if piece.len() > 0 {
            let word = slice(piece, 0, piece.len());
            assert(piece@.subrange(0, piece.len() as int) == piece@);
            out.push(word);
            assert(views(out@) == before.push(piece@));
        }
        i += 1;
    }
    assert(views(pieces@).take(pieces.len() as int) == views(pieces@));
    out
}

/// `s` without its longest prefix of characters of `class`.
pub open spec fn trim_start_of(s: Seq<char>, class: CharClass) -> Seq<char>
    decreases s.len(),
{
    if s.len() > 0 && class.matches(s[0]) {
        trim_start_of(s.drop_first(), class)
    } else {
        s
    }
}

/// `s` without its longest suffix of characters of `class`.
pub open spec fn trim_end_of(s: Seq<char>, class: CharClass) -> Seq<char>
    decreases s.len(),
{
    if s.len() > 0 && class.matches(s.last()) {
        trim_end_of(s.drop_last(), class)
    } else {
        s
    }
}

/// `s` without leading and trailing white space.
pub open spec fn trim(s: Seq<char>) -> Seq<char> {
    trim_end_of(trim_start_of(s, CharClass::Whitespace), CharClass::Whitespace)
}

/// Start of what is left of `s[from..to]` once its leading characters of
/// `class` are removed.
pub(crate) fn skip_leading(s: &Vec<char>, from: usize, to: usize, class: CharClass) -> (i: usize)
    requires
        from <= to <= s.len(),
    ensures
        from <= i <= to,
        s@.subrange(i as int, to as int) == trim_start_of(
            s@.subrange(from as int, to as int),
            class,
        ),
{
    let mut i: usize = from;
    while i < to && class.contains_char(s[i])
        invariant
            from <= i <= to <= s.len(),
            trim_start_of(s@.subrange(i as int, to as int), class) == trim_start_of(
                s@.subrange(from as int, to as int),
                class,
            ),
        decreases to - i,
    {
        assert(s@.subrange(i as int, to as int).drop_first() == s@.subrange(i + 1, to as int));
        i += 1;
    }
    i
}

/// End of what is left of `s[from..to]` once its trailing characters of
/// `class` are removed.
pub(crate) fn skip_trailing(s: &Vec<char>, from: usize, to: usize, class: CharClass) -> (j: usize)
    requires
        from <= to <= s.len(),
    ensures
        from <= j <= to,
        s@.subrange(from as int, j as int) == trim_end_of(
            s@.subrange(from as int, to as int),
            class,
        ),
{
    let mut j: usize = to;
    while j > from && class.contains_char(s[j - 1])
        invariant
            from <= j <= to <= s.len(),
            trim_end_of(s@.subrange(from as int, j as int), class) == trim_end_of(
                s@.subrange(from as int, to as int),
                class,
            ),
        decreases j - from,
    {
        assert(s@.subrange(from as int, j as int).drop_last() == s@.subrange(
            from as int,
            j - 1,
        ));
        j -= 1;
    }
    j
}

/// The bounds of `s` without leading and trailing white space.
pub fn trim_bounds(s: &Vec<char>) -> (bounds: (usize, usize))
    ensures
        bounds.0 <= bounds.1 <= s.len(),
        s@.subrange(bounds.0 as int, bounds.1 as int) == trim(s@),
{
    let n = s.len();
    let start = skip_leading(s, 0, n, CharClass::Whitespace);
    let end = skip_trailing(s, start, n, CharClass::Whitespace);
    assert(s@.subrange(0, n as int) == s@);
    (start, end)
}

/// Whether `needle` stands in `hay` at index `i`.
pub open spec fn occurs_at(hay: Seq<char>, needle: Seq<char>, i: int) -> bool {
    &&& 0 <= i
    &&& i + needle.len() <= hay.len()
    &&& hay.subrange(i, i + needle.len()) == needle
}

/// Whether `needle` is a contiguous part of `hay`.
pub open spec fn contains(hay: Seq<char>, needle: Seq<char>) -> bool {
    exists|i: int| occurs_at(hay, needle, i)
}

/// Whether `hay` begins with `needle`.
pub open spec fn starts_with(hay: Seq<char>, needle: Seq<char>) -> bool {
    occurs_at(hay, needle, 0)
}

/// Decides whether `needle` stands in `hay` at index `i`.
pub fn occurs_at_index(hay: &Vec<char>, needle: &Vec<char>, i: usize) -> (b: bool)
    ensures
        b == occurs_at(hay@, needle@, i as int),
{
    if needle.len() > hay.len() || i > hay.len() - needle.len() {
        return false;
    }
    let mut k: usize = 0;
    while k < needle.len()
        invariant
            k <= needle.len(),
            i + needle.len() <= hay.len(),
            forall|j: int| 0 <= j < k ==> hay@[i + j] == needle@[j],
        decreases needle.len() - k,
    {
        if hay[i + k] != needle[k] {
            assert(hay@.subrange(i as int, i + needle.len())[k as int] != needle@[k as int]);
            return false;
        }
        k += 1;
    }
    assert(hay@.subrange(i as int, i + needle.len()) =~= needle@);
    true
}

/// Decides whether `needle` is a contiguous part of `hay`.
pub fn contains_chars(hay: &Vec<char>, needle: &Vec<char>) -> (b: bool)
    ensures
        b == contains(hay@, needle@),
{
    if needle.len() > hay.len() {
        return false;
    }
    let last = hay.len() - needle.len();
    let mut i: usize = 0;
    loop
        invariant
            i <= last,
            last == hay.len() - needle.len(),
            forall|j: int| 0 <= j < i ==> !occurs_at(hay@, needle@, j),
        decreases last - i,
    {
        if occurs_at_index(hay, needle, i) {
            return true;
        }
        if i == last {
            return false;
        }
        i += 1;
    }
}

/// Decides whether two character vectors hold the same characters.
pub fn chars_equal(a: &Vec<char>, b: &Vec<char>) -> (same: bool)
    ensures
        same == (a@ == b@),
{
    if a.len() != b.len() {
        return false;
    }
    let same = occurs_at_index(a, b, 0);
    assert(a@.subrange(0, a.len() as int) == a@);
    same
}

/// The characters of a string slice.
pub fn to_chars(s: &str) -> (out: Vec<char>)
    ensures
        out@ == s@,
{
    let mut out: Vec<char> = Vec::new();
    for c in it: s.chars()
        invariant
            out@ == it.seq().take(it.index() as int),
            it.seq() == s@,
    {
        out.push(c);
    }
    out
}

/// Whether `hay` ends with `needle`.
pub open spec fn ends_with(hay: Seq<char>, needle: Seq<char>) -> bool {
    occurs_at(hay, needle, hay.len() - needle.len())
}

/// Decides whether `hay` ends with `needle`.
pub fn ends_with_chars(hay: &Vec<char>, needle: &Vec<char>) -> (b: bool)
    ensures
        b == ends_with(hay@, needle@),
{
    if needle.len() > hay.len() {
        return false;
    }
    occurs_at_index(hay, needle, hay.len() - needle.len())
}

/// The lower-case form of an ASCII capital letter; any other character
/// unchanged.
pub open spec fn ascii_lower(c: char) -> char {
    if 'A' <= c <= 'Z' {
        ((c as u32) + 32) as char
    } else {
        c
    }
}

/// `s` with every ASCII capital letter in lower case.
pub open spec fn ascii_lowercase(s: Seq<char>) -> Seq<char> {
    s.map_values(|c: char| ascii_lower(c))
}

/// Turns an ASCII capital letter into lower case.
pub fn to_ascii_lower(c: char) -> (l: char)
    ensures
        l == ascii_lower(c),
{
    if 'A' <= c && c <= 'Z' {
        ((c as u8) + 32) as char
    } else {
        c
    }
}

/// Turns every ASCII capital letter of `s` into lower case.
pub fn to_ascii_lowercase(s: &Vec<char>) -> (out: Vec<char>)
    ensures
        out@ == ascii_lowercase(s@),
{
    let mut out: Vec<char> = Vec::new();
    let mut i: usize = 0;
    while i < s.len()
        invariant
            i <= s.len(),
            out@ == ascii_lowercase(s@.take(i as int)),
        decreases s.len() - i,
    {
        out.push(to_ascii_lower(s[i]));
        assert(s@.take(i + 1) == s@.take(i as int).push(s@[i as int]));
        assert(out@ =~= ascii_lowercase(s@.take(i + 1)));
        i += 1;
    }
    assert(s@.take(s.len() as int) == s@);
    out
}

/// Whether `word` is one of `ws`.
pub fn has_word(ws: &Vec<Vec<char>>, word: &Vec<char>) -> (b: bool)
    ensures
        b == views(ws@).contains(word@),
{
    let mut i: usize = 0;
    while i < ws.len()
        invariant
            i <= ws.len(),
            forall|k: int| 0 <= k < i ==> views(ws@)[k] != word@,
        decreases ws.len() - i,
    {
        assert(views(ws@)[i as int] == ws@[i as int]@);
        if chars_equal(&ws[i], word) {
            return true;
        }
        i += 1;
    }
    false
}

/// Copies `s` without its leading and trailing white space.
pub fn trimmed(s: &str) -> (out: String)
    ensures
        out@ == trim(s@),
{
    let chars = to_chars(s);
    let (start, end) = trim_bounds(&chars);
    s.substring_char(start, end).to_owned()
}

/// The non-empty pieces of two sequences of pieces, one after the other.
pub proof fn lemma_non_empty_pieces_add(a: Seq<Seq<char>>, b: Seq<Seq<char>>)
    ensures
        non_empty_pieces(a + b) == non_empty_pieces(a) + non_empty_pieces(b),
{
    Seq::filter_distributes_over_add(a, b, |p: Seq<char>| p.len() > 0);
}

/// The non-empty pieces of a single piece.
pub proof fn lemma_non_empty_pieces_single(p: Seq<char>)
    ensures
        non_empty_pieces(seq![p]) == if p.len() > 0 {
            seq![p]
        } else {
            Seq::<Seq<char>>::empty()
        },
{
    let none = Seq::<Seq<char>>::empty();
    lemma_non_empty_pieces_push(none, p);
    assert(none.push(p) == seq![p]);
    assert(non_empty_pieces(none) == none);
}

/// White space in front of a text adds no word.
pub proof fn lemma_words_skip_whitespace(s: Seq<char>)
    requires
        s.len() > 0,
        is_whitespace(s[0]),
    ensures
        words(s) == words(s.drop_first()),
{
    let class = CharClass::Whitespace;
    let head = s.subrange(0, 0);
    assert(s.subrange(1, s.len() as int) == s.drop_first());
    assert(split(s, class) == seq![head] + split(s.drop_first(), class));
    lemma_non_empty_pieces_add(seq![head], split(s.drop_first(), class));
    lemma_non_empty_pieces_single(head);
    assert(Seq::<Seq<char>>::empty() + words(s.drop_first()) == words(s.drop_first()));
}

/// A stretch of white space in front of a text adds no word.
pub proof fn lemma_words_skip_gap(gap: Seq<char>, rest: Seq<char>)
    requires
        forall|i: int| 0 <= i < gap.len() ==> is_whitespace(#[trigger] gap[i]),
    ensures
        words(gap + rest) == words(rest),
    decreases gap.len(),
{
    if gap.len() == 0 {
        assert(gap + rest == rest);
    } else {
        let s = gap + rest;
        assert(s[0] == gap[0]);
        lemma_words_skip_whitespace(s);
        assert(s.drop_first() == gap.drop_first() + rest);
        assert forall|i: int| 0 <= i < gap.drop_first().len() implies is_whitespace(
            #[trigger] gap.drop_first()[i],
        ) by {
            assert(gap.drop_first()[i] == gap[i + 1]);
        }
        lemma_words_skip_gap(gap.drop_first(), rest);
    }
}

/// A text without white space is one word, or none if it is empty.
pub proof fn lemma_word_alone(w: Seq<char>)
    requires
        forall|i: int| 0 <= i < w.len() ==> !is_whitespace(#[trigger] w[i]),
    ensures
        words(w) == if w.len() > 0 {
            seq![w]
        } else {
            Seq::<Seq<char>>::empty()
        },
{
    lemma_first_match_is(w, CharClass::Whitespace, w.len() as int);
    lemma_non_empty_pieces_single(w);
}

/// The words of two texts that meet at white space are the words of the one
/// followed by the words of the other.
pub proof fn lemma_words_concat(a: Seq<char>, b: Seq<char>)
    requires
        b.len() > 0 ==> is_whitespace(b[0]),
    ensures
        words(a + b) == words(a) + words(b),
    decreases a.len(),
{
    let class = CharClass::Whitespace;
    let none = Seq::<Seq<char>>::empty();
    if b.len() == 0 {
        assert(a + b == a);
        lemma_word_alone(b);
        assert(words(a) + none == words(a));
    } else {
        lemma_first_match(a, class);
        let i = first_match(a, class);
        let s = a + b;
        if i < a.len() {
            assert forall|j: int| 0 <= j < i implies !class.matches(#[trigger] s[j]) by {
                assert(s[j] == a[j]);
            }
            assert(s[i] == a[i]);
            lemma_first_match_is(s, class, i);
            let head = a.subrange(0, i);
            let rest = a.subrange(i + 1, a.len() as int);
            assert(s.subrange(i + 1, s.len() as int) == rest + b);
            assert(s.subrange(0, i) == head);
            lemma_words_concat(rest, b);
            assert(split(s, class) == seq![head] + split(rest + b, class));
            assert(split(a, class) == seq![head] + split(rest, class));
            lemma_non_empty_pieces_add(seq![head], split(rest + b, class));
            lemma_non_empty_pieces_add(seq![head], split(rest, class));
            assert(non_empty_pieces(seq![head]) + (words(rest) + words(b)) == (non_empty_pieces(
                seq![head],
            ) + words(rest)) + words(b));
        } else {
            let n = a.len() as int;
            assert forall|j: int| 0 <= j < n implies !class.matches(#[trigger] s[j]) by {
                assert(s[j] == a[j]);
            }
            assert(s[n] == b[0]);
            lemma_first_match_is(s, class, n);
            assert(s.subrange(0, n) == a);
            assert(s.subrange(n + 1, s.len() as int) == b.drop_first());
            assert(split(s, class) == seq![a] + split(b.drop_first(), class));
            assert(split(a, class) == seq![a]);
            lemma_words_skip_whitespace(b);
            lemma_non_empty_pieces_add(seq![a], split(b.drop_first(), class));
        }
    }
}

} // verus!
