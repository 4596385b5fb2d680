//! Character-level text transformations used by the query builder and the
//! value formatter, each with an exact sequence-level specification.

use vstd::prelude::*;

verus! {

/// How one character of a path is rendered inside a quoted SQL literal:
/// a single quote is doubled, every other character stands as it is.
pub open spec fn escaped_unit(c: char) -> Seq<char> {
    if c == '\'' {
        seq![c, c]
    } else {
        seq![c]
    }
}

/// A path with every single quote doubled, so that interpolating it between
/// quotes cannot end the SQL string literal early.
pub open spec fn escaped(s: Seq<char>) -> Seq<char>
    decreases s.len(),
{
    if s.len() == 0 {
        Seq::empty()
    } else {
        escaped(s.drop_last()) + escaped_unit(s.last())
    }
}

/// How one character survives the whitespace strip of nested-value dumps:
/// spaces and newlines vanish, everything else stays.
pub open spec fn kept_unit(c: char) -> Seq<char> {
    if c == ' ' || c == '\n' {
        Seq::empty()
    } else {
        seq![c]
    }
}

/// The text with every space and newline removed.
pub open spec fn stripped(s: Seq<char>) -> Seq<char>
    decreases s.len(),
{
    if s.len() == 0 {
        Seq::empty()
    } else {
        stripped(s.drop_last()) + kept_unit(s.last())
    }
}

/// The index of the first opening parenthesis, or the length when there is
/// none.
pub open spec fn paren_cut(s: Seq<char>) -> int
    decreases s.len(),
{
    if s.len() == 0 {
        0
    } else if s[0] == '(' {
        0
    } else {
        1 + paren_cut(s.skip(1))
    }
}

/// The text up to (and not including) its first opening parenthesis.
pub open spec fn before_paren(s: Seq<char>) -> Seq<char> {
    s.take(paren_cut(s))
}

/// The whitespace characters that trimming removes.
pub open spec fn is_blank(c: char) -> bool {
    c == ' ' || c == '\t' || c == '\n' || c == '\r'
}

/// The text without its leading whitespace.
pub open spec fn trim_front(s: Seq<char>) -> Seq<char>
    decreases s.len(),
{
    if s.len() > 0 && is_blank(s[0]) {
        trim_front(s.skip(1))
    } else {
        s
    }
}

/// The text without its trailing whitespace.
pub open spec fn trim_back(s: Seq<char>) -> Seq<char>
    decreases s.len(),
{
    if s.len() > 0 && is_blank(s.last()) {
        trim_back(s.drop_last())
    } else {
        s
    }
}

/// The text without leading or trailing whitespace.
pub open spec fn trimmed(s: Seq<char>) -> Seq<char> {
    trim_back(trim_front(s))
}

/// A copy of the string with every single quote doubled.
pub fn escape_quotes(s: &str) -> (r: String)
    ensures
        r@ == escaped(s@),
{
    let n = s.unicode_len();
    let mut out = String::new();
    let mut i: usize = 0;
    while i < n
        invariant
            i <= n,
            n == s@.len(),
            out@ == escaped(s@.take(i as int)),
        decreases n - i,
    {
        let piece = s.substring_char(i, i + 1);
        out.append(piece);
        if s.get_char(i) == '\'' {
            out.append(piece);
        }
        proof {
            assert(s@.take(i + 1).drop_last() =~= s@.take(i as int));
            assert(piece@ =~= seq![s@[i as int]]);
            assert(out@ =~= escaped(s@.take(i + 1)));
        }
        i = i + 1;
    }
    proof {
        assert(s@.take(n as int) =~= s@);
    }
    out
}

/// A copy of the string with every space and newline removed.
pub fn strip_spacing(s: &str) -> (r: String)
    ensures
        r@ == stripped(s@),
{
    let n = s.unicode_len();
    let mut out = String::new();
    let mut i: usize = 0;
    while i < n
        invariant
            i <= n,
            n == s@.len(),
            out@ == stripped(s@.take(i as int)),
        decreases n - i,
    {
        let c = s.get_char(i);
        if c != ' ' && c != '\n' {
            let piece = s.substring_char(i, i + 1);
            out.append(piece);
            proof {
                assert(piece@ =~= seq![s@[i as int]]);
            }
        }
        proof {
            assert(s@.take(i + 1).drop_last() =~= s@.take(i as int));
            assert(out@ =~= stripped(s@.take(i + 1)));
        }
        i = i + 1;
    }
    proof {
        assert(s@.take(n as int) =~= s@);
    }
    out
}

proof fn lemma_paren_cut_at(s: Seq<char>, j: int)
    requires
        0 <= j <= s.len(),
        forall|k: int| 0 <= k < j ==> s[k] != '(',
        j < s.len() ==> s[j] == '(',
    ensures
        paren_cut(s) == j,
    decreases s.len(),
{
    if s.len() != 0 && s[0] != '(' {
        lemma_paren_cut_at(s.skip(1), j - 1);
    }
}

proof fn lemma_trim_front_at(s: Seq<char>, a: int)
    requires
        0 <= a <= s.len(),
        forall|k: int| 0 <= k < a ==> is_blank(s[k]),
        a < s.len() ==> !is_blank(s[a]),
    ensures
        trim_front(s) == s.skip(a),
    decreases s.len(),
{
    if s.len() > 0 && is_blank(s[0]) {
        lemma_trim_front_at(s.skip(1), a - 1);
        assert(s.skip(1).skip(a - 1) =~= s.skip(a));
    } else {
        assert(s.skip(0) =~= s);
    }
}

proof fn lemma_trim_back_at(s: Seq<char>, b: int)
    requires
        0 <= b <= s.len(),
        forall|k: int| b <= k < s.len() ==> is_blank(s[k]),
        b > 0 ==> !is_blank(s[b - 1]),
    ensures
        trim_back(s) == s.take(b),
    decreases s.len(),
{
    if s.len() > 0 && is_blank(s.last()) {
        lemma_trim_back_at(s.drop_last(), b);
        assert(s.drop_last().take(b) =~= s.take(b));
    } else {
        assert(s.take(s.len() as int) =~= s);
    }
}

/// The engine's type name cut at its first parenthesis and trimmed of
/// surrounding whitespace, as shown in a column header.
pub fn type_prefix(s: &str) -> (r: String)
    ensures
        r@ == trimmed(before_paren(s@)),
{
    let n = s.unicode_len();
    let mut j: usize = 0;
    while j < n && s.get_char(j) != '('
        invariant
            j <= n,
            n == s@.len(),
            forall|k: int| 0 <= k < j ==> s@[k] != '(',
        decreases n - j,
    {
        j = j + 1;
    }
    proof {
        lemma_paren_cut_at(s@, j as int);
    }
    let mut a: usize = 0;
    while a < j && is_blank_char(s.get_char(a))
        invariant
            a <= j <= n,
            n == s@.len(),
            forall|k: int| 0 <= k < a ==> is_blank(s@[k]),
        decreases j - a,
    {
        a = a + 1;
    }
    let mut b: usize = j;
    while b > a && is_blank_char(s.get_char(b - 1))
        invariant
            a <= b <= j <= n,
            n == s@.len(),
            forall|k: int| b <= k < j ==> is_blank(s@[k]),
        decreases b,
    {
        b = b - 1;
    }
    let r = s.substring_char(a, b).to_owned();
    proof {
        let cut = s@.take(j as int);
        lemma_trim_front_at(cut, a as int);
        lemma_trim_back_at(cut.skip(a as int), (b - a) as int);
        assert(cut.skip(a as int).take(b - a) =~= s@.subrange(a as int, b as int));
    }
    r
}

/// Whether one character counts as trimmable whitespace.
pub fn is_blank_char(c: char) -> (r: bool)
    ensures
        r == is_blank(c),
{
    c == ' ' || c == '\t' || c == '\n' || c == '\r'
}

} // verus!
