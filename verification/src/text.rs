//! Text handling on sequences of characters: whitespace, trimming, quotes and
//! the `name = value` shape of a property query's answer.

use vstd::prelude::*;

verus! {

/// Whether `c` carries the Unicode property `White_Space`.
pub open spec fn is_whitespace(c: char) -> bool {
    let n = c as u32;
    ||| 0x09 <= n <= 0x0D
    ||| n == 0x20
    ||| n == 0x85
    ||| n == 0xA0
    ||| n == 0x1680
    ||| 0x2000 <= n <= 0x200A
    ||| n == 0x2028
    ||| n == 0x2029
    ||| n == 0x202F
    ||| n == 0x205F
    ||| n == 0x3000
}

/// Length of the longest prefix of `s` made of whitespace only.
pub open spec fn leading_whitespace(s: Seq<char>) -> nat
    decreases s.len(),
{
    if s.len() > 0 && is_whitespace(s[0]) {
        1 + leading_whitespace(s.drop_first())
    } else {
        0
    }
}

/// Length of the longest suffix of `s` made of whitespace only.
pub open spec fn trailing_whitespace(s: Seq<char>) -> nat
    decreases s.len(),
{
    if s.len() > 0 && is_whitespace(s.last()) {
        1 + trailing_whitespace(s.drop_last())
    } else {
        0
    }
}

/// `s` without its leading whitespace.
pub open spec fn trim_start(s: Seq<char>) -> Seq<char> {
    s.skip(leading_whitespace(s) as int)
}

/// `s` without its trailing whitespace.
pub open spec fn trim_end(s: Seq<char>) -> Seq<char> {
    s.take(s.len() - trailing_whitespace(s))
}

/// `s` without its leading and trailing whitespace.
pub open spec fn trim(s: Seq<char>) -> Seq<char> {
    trim_end(trim_start(s))
}

/// `s` without one double quote at its start and one at its end, as far as
/// they are there.
pub open spec fn strip_quotes(s: Seq<char>) -> Seq<char> {
    let opened = if s.len() > 0 && s[0] == '"' {
        s.drop_first()
    } else {
        s
    };
    if opened.len() > 0 && opened.last() == '"' {
        opened.drop_last()
    } else {
        opened
    }
}

/// Index of the first `c` in `s`, or the length of `s` where it holds none.
pub open spec fn first_index(s: Seq<char>, c: char) -> nat
    decreases s.len(),
{
    if s.len() == 0 || s[0] == c {
        0
    } else {
        1 + first_index(s.drop_first(), c)
    }
}

/// The first line of `s`: what precedes its first line feed, or all of it.
pub open spec fn first_line(s: Seq<char>) -> Seq<char> {
    s.take(first_index(s, '\n') as int)
}

/// What follows the first `=` of `s`, if there is one.
pub open spec fn value_part(s: Seq<char>) -> Option<Seq<char>> {
    if first_index(s, '=') < s.len() {
        Some(s.skip(first_index(s, '=') as int + 1))
    } else {
        None
    }
}

/// The title that a property query's answer `name = value` carries: the value
/// without surrounding whitespace and without one layer of double quotes.
/// An answer without `=` carries none.
pub open spec fn title_of(answer: Seq<char>) -> Option<Seq<char>> {
    match value_part(answer) {
        Some(value) => Some(strip_quotes(trim(value))),
        None => None,
    }
}

/// The characters of an optional string.
pub open spec fn text_of(s: Option<String>) -> Option<Seq<char>> {
    match s {
        Some(t) => Some(t@),
        None => None,
    }
}

/// Decides whether a character is whitespace.
pub fn char_is_whitespace(c: char) -> (r: bool)
    ensures
        r == is_whitespace(c),
{
    let n: u32 = c as u32;
    (0x09 <= n && n <= 0x0D) || n == 0x20 || n == 0x85 || n == 0xA0 || n == 0x1680 || (0x2000 <= n
        && n <= 0x200A) || n == 0x2028 || n == 0x2029 || n == 0x202F || n == 0x205F || n == 0x3000
}

/// The characters of `s`, in order.
pub fn chars_of(s: &str) -> (v: Vec<char>)
    ensures
        v@ == s@,
{
    let mut v: Vec<char> = Vec::new();
    for c in it: s.chars()
        invariant
            it.seq() == s@,
            v@ == it.seq().take(it.index() as int),
    {
        v.push(c);
    }
    v
}

/// The leading whitespace of `s` is whitespace, and what follows it is not.
pub proof fn law_leading_whitespace(s: Seq<char>)
    ensures
        leading_whitespace(s) <= s.len(),
        forall|i: int| 0 <= i < leading_whitespace(s) ==> is_whitespace(#[trigger] s[i]),
        leading_whitespace(s) < s.len() ==> !is_whitespace(s[leading_whitespace(s) as int]),
    decreases s.len(),
{
    if s.len() > 0 && is_whitespace(s[0]) {
        let rest = s.drop_first();
        law_leading_whitespace(rest);
        assert forall|i: int| 0 <= i < leading_whitespace(s) implies is_whitespace(
            #[trigger] s[i],
        ) by {
            if i > 0 {
                assert(s[i] == rest[i - 1]);
            }
        }
        if leading_whitespace(s) < s.len() {
            assert(s[leading_whitespace(s) as int] == rest[leading_whitespace(rest) as int]);
        }
    }
}

/// The trailing whitespace of `s` is whitespace, and what precedes it is not.
pub proof fn law_trailing_whitespace(s: Seq<char>)
    ensures
        trailing_whitespace(s) <= s.len(),
        forall|i: int|
            s.len() - trailing_whitespace(s) <= i < s.len() ==> is_whitespace(#[trigger] s[i]),
        trailing_whitespace(s) < s.len() ==> !is_whitespace(
            s[s.len() - trailing_whitespace(s) - 1],
        ),
    decreases s.len(),
{
    if s.len() > 0 && is_whitespace(s.last()) {
        let rest = s.drop_last();
        law_trailing_whitespace(rest);
        assert forall|i: int|
            s.len() - trailing_whitespace(s) <= i < s.len() implies is_whitespace(
            #[trigger] s[i],
        ) by {
            if i < s.len() - 1 {
                assert(s[i] == rest[i]);
            }
        }
        if trailing_whitespace(s) < s.len() {
            assert(s[s.len() - trailing_whitespace(s) - 1] == rest[rest.len()
                - trailing_whitespace(rest) - 1]);
        }
    }
}

/// Trimming keeps one stretch of `s`: what it leaves out before and after is
/// whitespace, and what it keeps neither begins nor ends with whitespace.
pub proof fn law_trim_keeps_the_core(s: Seq<char>)
    ensures
        ({
            let from = leading_whitespace(s) as int;
            let to = s.len() - trailing_whitespace(trim_start(s));
            &&& 0 <= from <= to <= s.len()
            &&& trim(s) == s.subrange(from, to)
            &&& forall|i: int| 0 <= i < from ==> is_whitespace(#[trigger] s[i])
            &&& forall|i: int| to <= i < s.len() ==> is_whitespace(#[trigger] s[i])
            &&& from < to ==> !is_whitespace(s[from]) && !is_whitespace(s[to - 1])
        }),
{
    let from = leading_whitespace(s) as int;
    let rest = trim_start(s);
    let to = s.len() - trailing_whitespace(rest);
    law_leading_whitespace(s);
    law_trailing_whitespace(rest);
    assert(trim(s) == s.subrange(from, to));
    assert forall|i: int| to <= i < s.len() implies is_whitespace(#[trigger] s[i]) by {
        assert(s[i] == rest[i - from]);
    }
    if from < to {
        assert(rest[0] == s[from]);
        assert(s[to - 1] == rest[rest.len() - trailing_whitespace(rest) - 1]);
        if trailing_whitespace(rest) == rest.len() {
            assert(is_whitespace(rest[0]));
        }
    }
}

/// `first_index` points at a `c` that no `c` precedes, or past the end of a
/// text that holds none.
pub proof fn law_first_index(s: Seq<char>, c: char)
    ensures
        first_index(s, c) <= s.len(),
        forall|i: int| 0 <= i < first_index(s, c) ==> #[trigger] s[i] != c,
        first_index(s, c) < s.len() ==> s[first_index(s, c) as int] == c,
    decreases s.len(),
{
    if s.len() > 0 && s[0] != c {
        let rest = s.drop_first();
        law_first_index(rest, c);
        assert forall|i: int| 0 <= i < first_index(s, c) implies #[trigger] s[i] != c by {
            if i > 0 {
                assert(s[i] == rest[i - 1]);
            }
        }
        if first_index(s, c) < s.len() {
            assert(s[first_index(s, c) as int] == rest[first_index(rest, c) as int]);
        }
    }
}

/// Counting leading whitespace may start one character further on.
proof fn lemma_leading_step(s: Seq<char>, a: int, b: int)
    requires
        0 <= a < b <= s.len(),
    ensures
        leading_whitespace(s.subrange(a, b)) == if is_whitespace(s[a]) {
            1 + leading_whitespace(s.subrange(a + 1, b))
        } else {
            0
        },
{
    assert(s.subrange(a, b).drop_first() == s.subrange(a + 1, b));
}

/// Counting trailing whitespace may end one character earlier.
proof fn lemma_trailing_step(s: Seq<char>, a: int, b: int)
    requires
        0 <= a < b <= s.len(),
    ensures
        trailing_whitespace(s.subrange(a, b)) == if is_whitespace(s[b - 1]) {
            1 + trailing_whitespace(s.subrange(a, b - 1))
        } else {
            0
        },
{
    assert(s.subrange(a, b).drop_last() == s.subrange(a, b - 1));
}

/// The search for `c` may start one character further on.
proof fn lemma_first_index_step(s: Seq<char>, c: char, a: int)
    requires
        0 <= a < s.len(),
    ensures
        first_index(s.skip(a), c) == if s[a] == c {
            0
        } else {
            1 + first_index(s.skip(a + 1), c)
        },
{
    assert(s.skip(a).drop_first() == s.skip(a + 1));
}

/// The part of `v[from..to]` that trimming keeps, as a pair of indices.
fn trim_range(v: &Vec<char>, from: usize, to: usize) -> (r: (usize, usize))
    requires
        from <= to <= v.len(),
    ensures
        from <= r.0 <= r.1 <= to,
        v@.subrange(r.0 as int, r.1 as int) == trim(v@.subrange(from as int, to as int)),
{
    let ghost whole = v@.subrange(from as int, to as int);
    let mut a: usize = from;
    while a < to && char_is_whitespace(v[a])
        invariant
            from <= a <= to <= v.len(),
            leading_whitespace(whole) == (a - from) + leading_whitespace(
                v@.subrange(a as int, to as int),
            ),
            whole == v@.subrange(from as int, to as int),
        decreases to - a,
    {
        proof {
            lemma_leading_step(v@, a as int, to as int);
        }
        a += 1;
    }
    proof {
        if a < to {
            lemma_leading_step(v@, a as int, to as int);
        }
        assert(trim_start(whole) == v@.subrange(a as int, to as int));
    }
    let ghost rest = v@.subrange(a as int, to as int);
    let mut b: usize = to;
    while a < b && char_is_whitespace(v[b - 1])
        invariant
            a <= b <= to <= v.len(),
            trailing_whitespace(rest) == (to - b) + trailing_whitespace(
                v@.subrange(a as int, b as int),
            ),
            rest == v@.subrange(a as int, to as int),
        decreases b - a,
    {
        proof {
            lemma_trailing_step(v@, a as int, b as int);
        }
        b -= 1;
    }
    proof {
        if a < b {
            lemma_trailing_step(v@, a as int, b as int);
        }
        assert(trim_end(rest) == v@.subrange(a as int, b as int));
    }
    (a, b)
}

/// The part of `v[from..to]` that stripping one layer of quotes keeps.
fn strip_quotes_range(v: &Vec<char>, from: usize, to: usize) -> (r: (usize, usize))
    requires
        from <= to <= v.len(),
    ensures
        from <= r.0 <= r.1 <= to,
        v@.subrange(r.0 as int, r.1 as int) == strip_quotes(v@.subrange(from as int, to as int)),
{
    let ghost whole = v@.subrange(from as int, to as int);
    let a: usize = if from < to && v[from] == '"' {
        from + 1
    } else {
        from
    };
    let ghost opened = v@.subrange(a as int, to as int);
    assert(opened == if whole.len() > 0 && whole[0] == '"' {
        whole.drop_first()
    } else {
        whole
    });
    let b: usize = if a < to && v[to - 1] == '"' {
        to - 1
    } else {
        to
    };
    assert(v@.subrange(a as int, b as int) == if opened.len() > 0 && opened.last() == '"' {
        opened.drop_last()
    } else {
        opened
    });
    (a, b)
}

/// Position of the first `c` in `v`, or its length where it holds none.
fn find_char(v: &Vec<char>, c: char) -> (i: usize)
    ensures
        i == first_index(v@, c),
        i <= v.len(),
{
    let mut i: usize = 0;
    assert(v@.skip(0) == v@);
    while i < v.len() && v[i] != c
        invariant
            i <= v.len(),
            first_index(v@, c) == i + first_index(v@.skip(i as int), c),
        decreases v.len() - i,
    {
        proof {
            lemma_first_index_step(v@, c, i as int);
        }
        i += 1;
    }
    proof {
        if i < v.len() {
            lemma_first_index_step(v@, c, i as int);
        }
    }
    i
}

/// The first line of `text`, without the line feed that ends it.
pub fn first_line_of(text: &str) -> (r: String)
    ensures
        r@ == first_line(text@),
{
    let v = chars_of(text);
    let end = find_char(&v, '\n');
    text.substring_char(0, end).to_owned()
}

/// `text` without its leading and trailing whitespace.
pub fn trimmed(text: &str) -> (r: String)
    ensures
        r@ == trim(text@),
{
    let v = chars_of(text);
    let (a, b) = trim_range(&v, 0, v.len());
    assert(v@.subrange(0, v.len() as int) == v@);
    text.substring_char(a, b).to_owned()
}

/// Reads the title out of a property query's answer.
///
/// The answer has the shape `name = value`. The title is what follows the
/// first `=`, without surrounding whitespace and without one layer of
/// surrounding double quotes. An answer that holds no `=` gives `None`.
pub fn parse_title(answer: &str) -> (title: Option<String>)
    ensures
        text_of(title) == title_of(answer@),
{
    let v = chars_of(answer);
    let eq = find_char(&v, '=');
    if eq < v.len() {
        let (a, b) = trim_range(&v, eq + 1, v.len());
        let (c, d) = strip_quotes_range(&v, a, b);
        assert(v@.subrange(eq + 1, v.len() as int) == v@.skip(eq + 1));
        Some(answer.substring_char(c, d).to_owned())
    } else {
        None
    }
}

} // verus!
