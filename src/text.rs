//! Text building blocks shared by the statement renderers: separator-joined
//! lists, optional keywords, decimal numbers and brace escaping.
use vstd::prelude::*;

verus! {

/// Joins `parts`, placing `sep` between neighbours; no parts give no text.
pub open spec fn join(parts: Seq<Seq<char>>, sep: Seq<char>) -> Seq<char>
    decreases parts.len(),
{
    if parts.len() == 0 {
        seq![]
    } else if parts.len() == 1 {
        parts[0]
    } else {
        join(parts.drop_last(), sep) + sep + parts.last()
    }
}

/// `word` when `b` holds, else nothing.
pub open spec fn flag(b: bool, word: Seq<char>) -> Seq<char> {
    if b {
        word
    } else {
        seq![]
    }
}

/// The text of one decimal digit.
pub open spec fn digit_text(d: nat) -> Seq<char> {
    if d == 0 {
        "0"@
    } else if d == 1 {
        "1"@
    } else if d == 2 {
        "2"@
    } else if d == 3 {
        "3"@
    } else if d == 4 {
        "4"@
    } else if d == 5 {
        "5"@
    } else if d == 6 {
        "6"@
    } else if d == 7 {
        "7"@
    } else if d == 8 {
        "8"@
    } else {
        "9"@
    }
}

/// The decimal notation of `n`, without leading zeros.
pub open spec fn decimal(n: nat) -> Seq<char>
    decreases n,
{
    if n < 10 {
        digit_text(n)
    } else {
        decimal(n / 10) + digit_text(n % 10)
    }
}

/// How one character of a cluster name is written: `{` becomes `'{` and
/// `}` becomes `}'`; any other character stands as it is.
pub open spec fn escape_char(c: char) -> Seq<char> {
    if c == '{' {
        "'{"@
    } else if c == '}' {
        "}'"@
    } else {
        seq![c]
    }
}

/// A cluster name with its macro braces escaped, character by character.
pub open spec fn escape_braces(s: Seq<char>) -> Seq<char>
    decreases s.len(),
{
    if s.len() == 0 {
        seq![]
    } else {
        escape_braces(s.drop_last()) + escape_char(s.last())
    }
}

/// The texts in `parts`, one after another.
pub open spec fn concat(parts: Seq<Seq<char>>) -> Seq<char>
    decreases parts.len(),
{
    if parts.len() == 0 {
        seq![]
    } else {
        concat(parts.drop_last()) + parts.last()
    }
}

/// Writing one more part extends the text written so far by that part.
pub proof fn lemma_concat_step(parts: Seq<Seq<char>>, k: int)
    requires
        0 <= k < parts.len(),
    ensures
        concat(parts.take(k + 1)) == concat(parts.take(k)) + parts[k],
{
    assert(parts.take(k + 1).drop_last() =~= parts.take(k));
}

/// The text of two lists of parts is the text of the first, then that of the second.
pub proof fn lemma_concat_append(a: Seq<Seq<char>>, b: Seq<Seq<char>>)
    ensures
        concat(a + b) == concat(a) + concat(b),
    decreases b.len(),
{
    if b.len() == 0 {
        assert(a + b =~= a);
        assert(concat(a) + concat(b) =~= concat(a));
    } else {
        lemma_concat_append(a, b.drop_last());
        assert((a + b).drop_last() =~= a + b.drop_last());
        assert(concat(a) + concat(b) =~= concat(a) + concat(b.drop_last()) + b.last());
    }
}

/// Where part `k` starts in the text of `parts`.
pub open spec fn offset(parts: Seq<Seq<char>>, k: int) -> int {
    concat(parts.take(k)).len() as int
}

/// The text of `parts` splits at any part boundary.
pub proof fn lemma_concat_split(parts: Seq<Seq<char>>, k: int)
    requires
        0 <= k <= parts.len(),
    ensures
        concat(parts) == concat(parts.take(k)) + concat(parts.skip(k)),
{
    lemma_concat_append(parts.take(k), parts.skip(k));
    assert(parts.take(k) + parts.skip(k) =~= parts);
}

/// Part `k` stands in the text at its offset, between the parts before it and
/// the parts after it.
pub proof fn lemma_part_at_offset(parts: Seq<Seq<char>>, k: int)
    requires
        0 <= k < parts.len(),
    ensures
        concat(parts) == concat(parts.take(k)) + parts[k] + concat(parts.skip(k + 1)),
        concat(parts).subrange(offset(parts, k), offset(parts, k) + parts[k].len()) == parts[k],
{
    lemma_concat_split(parts, k + 1);
    lemma_concat_step(parts, k);
    let whole = concat(parts);
    assert(whole.subrange(offset(parts, k), offset(parts, k) + parts[k].len()) =~= parts[k]);
}

/// Parts are written in their order: every part ends before any later part starts.
pub proof fn lemma_parts_in_order(parts: Seq<Seq<char>>, i: int, j: int)
    requires
        0 <= i < j < parts.len(),
    ensures
        offset(parts, i) + parts[i].len() <= offset(parts, j),
        concat(parts).subrange(offset(parts, i), offset(parts, i) + parts[i].len()) == parts[i],
        concat(parts).subrange(offset(parts, j), offset(parts, j) + parts[j].len()) == parts[j],
{
    lemma_part_at_offset(parts, i);
    lemma_part_at_offset(parts, j);
    let before_j = parts.take(j);
    lemma_concat_split(before_j, i + 1);
    assert(before_j.take(i + 1) =~= parts.take(i + 1));
    lemma_concat_step(parts, i);
}

/// Two lists of parts that differ only in part `k`, which is empty in the
/// second, give the same text but for that part.
pub proof fn lemma_drop_part(a: Seq<Seq<char>>, b: Seq<Seq<char>>, k: int)
    requires
        a.len() == b.len(),
        0 <= k < a.len(),
        b[k] == Seq::<char>::empty(),
        forall|i: int| 0 <= i < a.len() && i != k ==> a[i] == b[i],
    ensures
        concat(a) == concat(a.take(k)) + a[k] + concat(a.skip(k + 1)),
        concat(b) == concat(a.take(k)) + concat(a.skip(k + 1)),
{
    lemma_part_at_offset(a, k);
    lemma_part_at_offset(b, k);
    assert(b.take(k) =~= a.take(k));
    assert(b.skip(k + 1) =~= a.skip(k + 1));
    assert(concat(a.take(k)) + b[k] =~= concat(a.take(k)));
}

/// What escaping does to a cluster name: a name without braces is unchanged,
/// every `{` of the result has a quote just before it, and every `}` a quote
/// just after it.
pub proof fn lemma_escape_braces(s: Seq<char>)
    ensures
        (forall|i: int| 0 <= i < s.len() ==> s[i] != '{' && s[i] != '}') ==> escape_braces(s)
            == s,
        forall|j: int|
            0 <= j < escape_braces(s).len() && #[trigger] escape_braces(s)[j] == '{' ==> j > 0
                && escape_braces(s)[j - 1] == '\'',
        forall|j: int|
            0 <= j < escape_braces(s).len() && #[trigger] escape_braces(s)[j] == '}' ==> j + 1
                < escape_braces(s).len() && escape_braces(s)[j + 1] == '\'',
    decreases s.len(),
{
    reveal_strlit("'{");
    reveal_strlit("}'");
    if s.len() > 0 {
        let init = s.drop_last();
        lemma_escape_braces(init);
        let r = escape_braces(s);
        let p = escape_braces(init);
        let e = escape_char(s.last());
        assert(r == p + e);
        if forall|i: int| 0 <= i < s.len() ==> s[i] != '{' && s[i] != '}' {
            assert forall|i: int| 0 <= i < init.len() implies init[i] != '{' && init[i] != '}' by {
                assert(init[i] == s[i]);
            }
            assert(s.last() == s[s.len() - 1]);
            assert(r =~= s);
        }
        assert forall|j: int| 0 <= j < r.len() && #[trigger] r[j] == '{' implies j > 0 && r[j
            - 1] == '\'' by {
            if j < p.len() {
                assert(r[j] == p[j]);
                assert(r[j - 1] == p[j - 1]);
            } else {
                assert(r[j] == e[j - p.len()]);
                assert(r[j - 1] == p[j - 1] || r[j - 1] == e[j - 1 - p.len()]);
            }
        }
        assert forall|j: int| 0 <= j < r.len() && #[trigger] r[j] == '}' implies j + 1 < r.len()
            && r[j + 1] == '\'' by {
            if j < p.len() {
                assert(r[j] == p[j]);
                assert(r[j + 1] == p[j + 1]);
            } else {
                assert(r[j] == e[j - p.len()]);
            }
        }
    }
}

/// Appends `word` when `b` holds.
pub fn push_flag(out: &mut String, b: bool, word: &str)
    ensures
        final(out)@ == old(out)@ + flag(b, word@),
{
    if b {
        out.append(word);
    } else {
        assert(out@ + flag(b, word@) =~= out@);
    }
}

/// Appends `pre` followed by `body`.
pub fn push_prefixed(out: &mut String, pre: &str, body: &str)
    ensures
        final(out)@ == old(out)@ + (pre@ + body@),
{
    let ghost start = out@;
    out.append(pre);
    out.append(body);
    assert(out@ =~= start + (pre@ + body@));
}

/// Appends `pre`, `body` and `post`, in that order.
pub fn push_wrapped(out: &mut String, pre: &str, body: &str, post: &str)
    ensures
        final(out)@ == old(out)@ + (pre@ + body@ + post@),
{
    let ghost start = out@;
    out.append(pre);
    out.append(body);
    out.append(post);
    assert(out@ =~= start + (pre@ + body@ + post@));
}

fn digit_str(d: u32) -> (r: &'static str)
    requires
        d < 10,
    ensures
        r@ == digit_text(d as nat),
{
    match d {
        0 => "0",
        1 => "1",
        2 => "2",
        3 => "3",
        4 => "4",
        5 => "5",
        6 => "6",
        7 => "7",
        8 => "8",
        _ => "9",
    }
}

/// The decimal notation of `n`.
pub fn decimal_text(n: u32) -> (r: String)
    ensures
        r@ == decimal(n as nat),
    decreases n,
{
    if n < 10 {
        String::from_str(digit_str(n))
    } else {
        let mut s = decimal_text(n / 10);
        s.append(digit_str(n % 10));
        s
    }
}

/// The cluster name `name` with `{` written as `'{` and `}` as `}'`.
pub fn escape_cluster_name(name: &str) -> (r: String)
    ensures
        r@ == escape_braces(name@),
{
    let n = name.unicode_len();
    let mut out = String::new();
    let mut i: usize = 0;
    while i < n
        invariant
            i <= n,
            n == name@.len(),
            out@ == escape_braces(name@.take(i as int)),
        decreases n - i,
    {
        let c = name.get_char(i);
        if c == '{' {
            out.append("'{");
        } else if c == '}' {
            out.append("}'");
        } else {
            let one = name.substring_char(i, i + 1);
            assert(one@ =~= seq![c]);
            out.append(one);
        }
        assert(name@.take(i + 1).drop_last() =~= name@.take(i as int));
        i += 1;
    }
    assert(name@.take(n as int) =~= name@);
    out
}

} // verus!
