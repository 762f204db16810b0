//! The lexical layer of the assembly parser: a source text becomes logical
//! lines (comments, which run from `;` to the end of the line, are dropped),
//! and lines are cut into trimmed tokens.

use vstd::prelude::*;
use vstd::string::{StrSliceExecFns, StringExecFns};

verus! {

/// Whether a character is line-internal whitespace.
pub open spec fn is_ws(c: char) -> bool {
    c == ' ' || c == '\t' || c == '\r'
}

/// One step per character: collect the current line, drop comment text,
/// start a new line at every newline. The fold keeps the characters already
/// collected for the current line and the finished lines.
pub open spec fn lines_acc(
    s: Seq<char>,
    i: int,
    cur: Seq<char>,
    skipping: bool,
    acc: Seq<Seq<char>>,
) -> Seq<Seq<char>>
    decreases s.len() - i,
{
    if i < 0 || i >= s.len() {
        acc.push(cur)
    } else if s[i] == '\n' {
        lines_acc(s, i + 1, Seq::empty(), false, acc.push(cur))
    } else if skipping || s[i] == ';' {
        lines_acc(s, i + 1, cur, true, acc)
    } else {
        lines_acc(s, i + 1, cur.push(s[i]), skipping, acc)
    }
}

/// The logical lines of a source text, comments already dropped.
pub open spec fn spec_raw_lines(s: Seq<char>) -> Seq<Seq<char>> {
    lines_acc(s, 0, Seq::empty(), false, Seq::empty())
}

/// Splits a text into its logical lines.
pub fn split_lines(s: &str) -> (r: Vec<String>)
    ensures
        r.deep_view() == spec_raw_lines(s@),
{
    let n = s.unicode_len();
    let mut acc: Vec<String> = Vec::new();
    let mut cur = String::new();
    let mut skipping = false;
    let mut i: usize = 0;
    proof {
        assert(acc.deep_view() =~= Seq::<Seq<char>>::empty());
    }
    while i < n
        invariant
            n == s@.len(),
            i <= n,
            spec_raw_lines(s@) == lines_acc(s@, i as int, cur@, skipping, acc.deep_view()),
        decreases n - i,
    {
        let ghost pre_acc = acc.deep_view();
        let ghost pre_cur = cur@;
        let c = s.get_char(i);
        if c == '\n' {
            acc.push(cur);
            cur = String::new();
            skipping = false;
            proof {
                assert(acc.deep_view() =~= pre_acc.push(pre_cur));
            }
        } else if skipping || c == ';' {
            skipping = true;
        } else {
            cur.append(s.substring_char(i, i + 1));
            proof {
                assert(cur@ =~= pre_cur.push(s@[i as int]));
            }
        }
        i += 1;
    }
    let ghost pre_acc = acc.deep_view();
    let ghost pre_cur = cur@;
    acc.push(cur);
    proof {
        assert(acc.deep_view() =~= pre_acc.push(pre_cur));
    }
    acc
}

/// The sequence without its leading whitespace.
pub open spec fn trim_front(s: Seq<char>) -> Seq<char>
    decreases s.len(),
{
    if s.len() > 0 && is_ws(s[0]) {
        trim_front(s.subrange(1, s.len() as int))
    } else {
        s
    }
}

/// The sequence without its trailing whitespace.
pub open spec fn trim_back(s: Seq<char>) -> Seq<char>
    decreases s.len(),
{
    if s.len() > 0 && is_ws(s.last()) {
        trim_back(s.drop_last())
    } else {
        s
    }
}

/// The sequence without surrounding whitespace.
pub open spec fn spec_trim(s: Seq<char>) -> Seq<char> {
    trim_back(trim_front(s))
}

/// `trim_front` keeps exactly the part after the leading whitespace.
proof fn lemma_trim_front_idx(s: Seq<char>, a: int)
    requires
        0 <= a <= s.len(),
        forall|j: int| 0 <= j < a ==> is_ws(s[j]),
        a == s.len() || !is_ws(s[a]),
    ensures
        trim_front(s) == s.subrange(a, s.len() as int),
    decreases a,
{
    if a == 0 {
        assert(s.subrange(0, s.len() as int) =~= s);
    } else {
        let t = s.subrange(1, s.len() as int);
        lemma_trim_front_idx(t, a - 1);
        assert(t.subrange(a - 1, t.len() as int) =~= s.subrange(a, s.len() as int));
    }
}

/// `trim_back` keeps exactly the part before the trailing whitespace.
proof fn lemma_trim_back_idx(s: Seq<char>, b: int)
    requires
        0 <= b <= s.len(),
        forall|j: int| b <= j < s.len() ==> is_ws(s[j]),
        b == 0 || !is_ws(s[b - 1]),
    ensures
        trim_back(s) == s.subrange(0, b),
    decreases s.len() - b,
{
    if b == s.len() {
        assert(s.subrange(0, b) =~= s);
    } else {
        let t = s.drop_last();
        lemma_trim_back_idx(t, b);
        assert(t.subrange(0, b) =~= s.subrange(0, b));
    }
}

/// Trims surrounding whitespace from a token.
pub fn trim_str(s: &str) -> (r: String)
    ensures
        r@ == spec_trim(s@),
{
    let n = s.unicode_len();
    let mut a: usize = 0;
    while a < n && is_ws_char(s.get_char(a))
        invariant
            n == s@.len(),
            a <= n,
            forall|j: int| 0 <= j < a ==> is_ws(s@[j]),
        decreases n - a,
    {
        a += 1;
    }
    let mut b: usize = n;
    while b > a && is_ws_char(s.get_char(b - 1))
        invariant
            n == s@.len(),
            a <= b <= n,
            forall|j: int| 0 <= j < a ==> is_ws(s@[j]),
            a == n || !is_ws(s@[a as int]),
            forall|j: int| b <= j < n ==> is_ws(s@[j]),
        decreases b,
    {
        b -= 1;
    }
    proof {
        lemma_trim_front_idx(s@, a as int);
        let t = s@.subrange(a as int, n as int);
        lemma_trim_back_idx(t, b - a);
        assert(t.subrange(0, b - a) =~= s@.subrange(a as int, b as int));
    }
    String::from_str(s.substring_char(a, b))
}

/// Decides line-internal whitespace.
fn is_ws_char(c: char) -> (r: bool)
    ensures
        r == is_ws(c),
{
    c == ' ' || c == '\t' || c == '\r'
}

/// Character-wise string equality.
pub fn str_eq(a: &str, b: &str) -> (r: bool)
    ensures
        r == (a@ == b@),
{
    let n = a.unicode_len();
    if n != b.unicode_len() {
        return false;
    }
    let mut i: usize = 0;
    while i < n
        invariant
            n == a@.len() == b@.len(),
            i <= n,
            forall|j: int| 0 <= j < i ==> a@[j] == b@[j],
        decreases n - i,
    {
        if a.get_char(i) != b.get_char(i) {
            return false;
        }
        i += 1;
    }
    proof {
        assert(a@ =~= b@);
    }
    true
}

/// The position of the first whitespace character, or the length when there
/// is none.
pub open spec fn first_ws(s: Seq<char>) -> int
    decreases s.len(),
{
    if s.len() == 0 {
        0
    } else if is_ws(s[0]) {
        0
    } else {
        1 + first_ws(s.subrange(1, s.len() as int))
    }
}

/// `first_ws` names the first whitespace position.
proof fn lemma_first_ws_idx(s: Seq<char>, k: int)
    requires
        0 <= k <= s.len(),
        forall|j: int| 0 <= j < k ==> !is_ws(s[j]),
        k == s.len() || is_ws(s[k]),
    ensures
        first_ws(s) == k,
    decreases k,
{
    if k == 0 {
    } else {
        let t = s.subrange(1, s.len() as int);
        lemma_first_ws_idx(t, k - 1);
    }
}

/// Finds the first whitespace position in a token.
pub fn find_first_ws(s: &str) -> (k: usize)
    ensures
        k == first_ws(s@),
        k <= s@.len(),
{
    let n = s.unicode_len();
    let mut k: usize = 0;
    while k < n && !is_ws_char(s.get_char(k))
        invariant
            n == s@.len(),
            k <= n,
            forall|j: int| 0 <= j < k ==> !is_ws(s@[j]),
        decreases n - k,
    {
        k += 1;
    }
    proof {
        lemma_first_ws_idx(s@, k as int);
    }
    k
}

/// One step per character: cut a text at every comma, trimming each piece.
pub open spec fn split_acc(
    s: Seq<char>,
    i: int,
    start: int,
    acc: Seq<Seq<char>>,
) -> Seq<Seq<char>>
    decreases s.len() - i,
{
    if i < 0 || start < 0 || start > i || i >= s.len() {
        acc.push(spec_trim(s.subrange(start, s.len() as int)))
    } else if s[i] == ',' {
        split_acc(s, i + 1, i + 1, acc.push(spec_trim(s.subrange(start, i))))
    } else {
        split_acc(s, i + 1, start, acc)
    }
}

/// The comma-separated, trimmed pieces of a token.
pub open spec fn spec_split_commas(s: Seq<char>) -> Seq<Seq<char>> {
    split_acc(s, 0, 0, Seq::empty())
}

/// Splits a token at its commas, trimming each piece.
pub fn split_commas(s: &str) -> (r: Vec<String>)
    ensures
        r.deep_view() == spec_split_commas(s@),
{
    let n = s.unicode_len();
    let mut acc: Vec<String> = Vec::new();
    let mut start: usize = 0;
    let mut i: usize = 0;
    proof {
        assert(acc.deep_view() =~= Seq::<Seq<char>>::empty());
    }
    while i < n
        invariant
            n == s@.len(),
            start <= i <= n,
            spec_split_commas(s@) == split_acc(s@, i as int, start as int, acc.deep_view()),
        decreases n - i,
    {
        if s.get_char(i) == ',' {
            let ghost pre_acc = acc.deep_view();
            let part = trim_str(s.substring_char(start, i));
            acc.push(part);
            proof {
                assert(acc.deep_view() =~= pre_acc.push(
                    spec_trim(s@.subrange(start as int, i as int)),
                ));
            }
            start = i + 1;
        }
        i += 1;
    }
    let ghost pre_acc = acc.deep_view();
    let part = trim_str(s.substring_char(start, n));
    acc.push(part);
    proof {
        assert(acc.deep_view() =~= pre_acc.push(spec_trim(s@.subrange(start as int, n as int))));
    }
    acc
}

} // verus!
