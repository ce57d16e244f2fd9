//! Text helpers shared by the prompt, resource and tool modules.

use vstd::prelude::*;

verus! {

/// What `str::to_lowercase` gives for a string: the Unicode lowercase mapping
/// of each character, which can grow a character into several.
pub uninterp spec fn lowercase_of(s: Seq<char>) -> Seq<char>;

/// The text holds only ASCII characters.
pub open spec fn is_ascii_text(s: Seq<char>) -> bool {
    forall|i: int| 0 <= i < s.len() ==> (#[trigger] s[i] as int) < 128
}

/// The lowercase of an ASCII character: `A`-`Z` become `a`-`z`, every other
/// character stays.
pub open spec fn ascii_lower(c: char) -> char {
    if 65 <= (c as int) <= 90 {
        ((c as int) + 32) as char
    } else {
        c
    }
}

/// Calls `str::to_lowercase`. The contract names the result: it is
/// `lowercase_of` of the input's characters (a deterministic function of the
/// input). Of the Unicode tables behind it, it states only the ASCII part:
/// an all-ASCII text has its letters `A`-`Z` lowered and every other
/// character kept.
#[verifier::external_body]
pub fn to_lowercase(s: &str) -> (r: String)
    ensures
        r@ == lowercase_of(s@),
        is_ascii_text(s@) ==> r@ == s@.map_values(|c: char| ascii_lower(c)),
{
    s.to_lowercase()
}

/// A text of ASCII characters without capital letters is its own lowercase.
pub proof fn lemma_ascii_lower_keeps(s: Seq<char>)
    requires
        forall|i: int| 0 <= i < s.len() ==> (#[trigger] s[i] as int) < 65 || 90 < (s[i] as int) < 128,
    ensures
        is_ascii_text(s),
        s.map_values(|c: char| ascii_lower(c)) == s,
{
    assert(s.map_values(|c: char| ascii_lower(c)) =~= s);
}

/// Equality of two string slices, by their characters.
pub fn str_eq(a: &str, b: &str) -> (r: bool)
    ensures
        r == (a@ == b@),
{
    let x = String::from_str(a);
    let y = String::from_str(b);
    x == y
}

/// An owned copy of a string slice.
pub fn owned(s: &str) -> (r: String)
    ensures
        r@ == s@,
{
    String::from_str(s)
}


/// The text of one decimal digit.
pub open spec fn digit_text(d: nat) -> Seq<char> {
    if d == 0 {
        "0"@
    } else if d == 1 {
        "1"@
    } else if d == 2 {
        "2"@
    } else if d == 3 {
        "3"@
    } else if d == 4 {
        "4"@
    } else if d == 5 {
        "5"@
    } else if d == 6 {
        "6"@
    } else if d == 7 {
        "7"@
    } else if d == 8 {
        "8"@
    } else {
        "9"@
    }
}

/// The decimal rendering of a natural number, as `{}` formats an unsigned
/// integer: most significant digit first, no leading zeros, "0" for zero.
pub open spec fn decimal(n: nat) -> Seq<char>
    decreases n,
{
    if n < 10 {
        digit_text(n)
    } else {
        decimal(n / 10) + digit_text(n % 10)
    }
}

fn digit_str(d: u64) -> (r: &'static str)
    requires
        d < 10,
    ensures
        r@ == digit_text(d as nat),
{
    if d == 0 {
        "0"
    } else if d == 1 {
        "1"
    } else if d == 2 {
        "2"
    } else if d == 3 {
        "3"
    } else if d == 4 {
        "4"
    } else if d == 5 {
        "5"
    } else if d == 6 {
        "6"
    } else if d == 7 {
        "7"
    } else if d == 8 {
        "8"
    } else {
        "9"
    }
}

/// Appends the decimal rendering of `n` to `out`.
pub fn push_decimal(out: &mut String, n: u64)
    ensures
        final(out)@ == old(out)@ + decimal(n as nat),
    decreases n,
{
    if n < 10 {
        out.append(digit_str(n));
    } else {
        push_decimal(out, n / 10);
        out.append(digit_str(n % 10));
        assert(old(out)@ + decimal((n / 10) as nat) + digit_text((n % 10) as nat) =~= old(out)@
            + decimal(n as nat));
    }
}

/// The decimal rendering of `n`.
pub fn decimal_string(n: u64) -> (r: String)
    ensures
        r@ == decimal(n as nat),
{
    let mut out = String::new();
    push_decimal(&mut out, n);
    assert(Seq::<char>::empty() + decimal(n as nat) =~= decimal(n as nat));
    out
}

/// The items of `list` joined by `sep`, as `Vec::join` joins strings.
pub open spec fn joined(list: Seq<Seq<char>>, sep: Seq<char>) -> Seq<char>
    decreases list.len(),
{
    if list.len() == 0 {
        Seq::empty()
    } else if list.len() == 1 {
        list[0]
    } else {
        joined(list.drop_last(), sep) + sep + list.last()
    }
}

/// The strings of `list` joined by `sep`.
pub fn join(list: &Vec<String>, sep: &str) -> (r: String)
    ensures
        r@ == joined(list@.map_values(|s: String| s@), sep@),
{
    let ghost items = list@.map_values(|s: String| s@);
    let n = list.len();
    let mut out = String::new();
    let mut i: usize = 0;
    while i < n
        invariant
            n == list@.len(),
            items == list@.map_values(|s: String| s@),
            i <= n,
            out@ == joined(items.take(i as int), sep@),
        decreases n - i,
    {
        if i > 0 {
            out.append(sep);
        }
        out.append(list[i].as_str());
        proof {
            let t = items.take(i + 1);
            assert(t.drop_last() =~= items.take(i as int));
            assert(t.last() == items[i as int]);
            if i == 0 {
                assert(items.take(0) =~= Seq::<Seq<char>>::empty());
                assert(out@ =~= items[0]);
            } else {
                assert(out@ =~= joined(items.take(i as int), sep@) + sep@ + items[i as int]);
            }
        }
        i = i + 1;
    }
    assert(items.take(n as int) =~= items);
    out
}

/// The pieces of `s` between occurrences of `c`, as `str::split` with a
/// character yields them: one more piece than there are occurrences, empty
/// pieces included.
pub open spec fn split_on(s: Seq<char>, c: char) -> Seq<Seq<char>>
    decreases s.len(),
{
    if s.len() == 0 {
        seq![Seq::empty()]
    } else {
        let rest = split_on(s.drop_last(), c);
        if s.last() == c {
            rest.push(Seq::empty())
        } else {
            rest.update(rest.len() - 1, rest.last().push(s.last()))
        }
    }
}

/// Splitting always gives at least one piece.
pub proof fn lemma_split_on_len(s: Seq<char>, c: char)
    ensures
        split_on(s, c).len() >= 1,
    decreases s.len(),
{
    if s.len() > 0 {
        lemma_split_on_len(s.drop_last(), c);
    }
}

/// A text without the separator is a single piece.
pub proof fn lemma_split_on_without_separator(s: Seq<char>, c: char)
    requires
        !s.contains(c),
    ensures
        split_on(s, c) == seq![s],
    decreases s.len(),
{
    if s.len() > 0 {
        let t = s.drop_last();
        assert(!t.contains(c)) by {
            if t.contains(c) {
                let i = choose|i: int| 0 <= i < t.len() && t[i] == c;
                assert(s[i] == c);
            }
        }
        lemma_split_on_without_separator(t, c);
        assert(s.last() != c) by {
            assert(s[s.len() - 1] == s.last());
        }
        assert(t.push(s.last()) =~= s);
        assert(split_on(s, c) =~= seq![s]);
    } else {
        assert(s =~= Seq::<char>::empty());
    }
}

/// Splitting at a separator splits the two sides apart.
pub proof fn lemma_split_on_concat(x: Seq<char>, y: Seq<char>, c: char)
    ensures
        split_on(x + seq![c] + y, c) == split_on(x, c) + split_on(y, c),
    decreases y.len(),
{
    let s = x + seq![c] + y;
    lemma_split_on_len(x, c);
    if y.len() == 0 {
        assert(s.drop_last() =~= x);
        assert(s.last() == c);
        assert(split_on(y, c) == seq![Seq::<char>::empty()]);
        assert(split_on(s, c) =~= split_on(x, c) + split_on(y, c));
    } else {
        let y2 = y.drop_last();
        lemma_split_on_concat(x, y2, c);
        lemma_split_on_len(y2, c);
        assert(s.drop_last() =~= x + seq![c] + y2);
        assert(s.last() == y.last());
        let a = split_on(x, c);
        let b = split_on(y2, c);
        if y.last() == c {
            assert(split_on(s, c) =~= a + split_on(y, c));
        } else {
            assert((a + b).update((a + b).len() - 1, (a + b).last().push(y.last())) =~= a + b.update(
                b.len() - 1,
                b.last().push(y.last()),
            ));
            assert(split_on(s, c) =~= a + split_on(y, c));
        }
    }
}

/// The pieces of `s` between occurrences of `c`.
pub fn split(s: &str, c: char) -> (r: Vec<String>)
    ensures
        r@.map_values(|p: String| p@) == split_on(s@, c),
{
    let n = s.unicode_len();
    let mut pieces: Vec<String> = Vec::new();
    let mut cur = String::new();
    let mut i: usize = 0;
    assert(s@.take(0) =~= Seq::<char>::empty());
    assert(pieces@.map_values(|p: String| p@).push(cur@) =~= split_on(s@.take(0), c));
    while i < n
        invariant
            n == s@.len(),
            i <= n,
            pieces@.map_values(|p: String| p@).push(cur@) == split_on(s@.take(i as int), c),
        decreases n - i,
    {
        let ch = s.get_char(i);
        let ghost t = s@.take(i + 1);
        let ghost before = pieces@.map_values(|p: String| p@);
        proof {
            assert(t.drop_last() =~= s@.take(i as int));
            assert(t.last() == ch);
            lemma_split_on_len(s@.take(i as int), c);
        }
        if ch == c {
            let done = cur;
            let ghost dv = done@;
            pieces.push(done);
            cur = String::new();
            assert(pieces@.map_values(|p: String| p@) =~= before.push(dv));
            assert(pieces@.map_values(|p: String| p@).push(cur@) =~= split_on(t, c));
        } else {
            let one = s.substring_char(i, i + 1);
            assert(one@ =~= seq![ch]);
            let ghost old_cur = cur@;
            cur.append(one);
            assert(cur@ =~= old_cur.push(ch));
            assert(pieces@.map_values(|p: String| p@).push(cur@) =~= split_on(t, c));
        }
        i = i + 1;
    }
    assert(s@.take(n as int) =~= s@);
    let ghost before = pieces@.map_values(|p: String| p@);
    let ghost cv = cur@;
    pieces.push(cur);
    assert(pieces@.map_values(|p: String| p@) =~= before.push(cv));
    pieces
}

/// Every non-overlapping occurrence of `pat` in `s`, taken from the left,
/// replaced by `rep`: what `str::replace` computes for a non-empty pattern.
pub open spec fn replaced(s: Seq<char>, pat: Seq<char>, rep: Seq<char>) -> Seq<char>
    decreases s.len(),
{
    if s.len() == 0 {
        s
    } else if 0 < pat.len() <= s.len() && s.take(pat.len() as int) == pat {
        rep + replaced(s.skip(pat.len() as int), pat, rep)
    } else {
        seq![s[0]] + replaced(s.skip(1), pat, rep)
    }
}

/// `s` with each occurrence of the non-empty `pat` replaced by `rep`, scanning
/// from the left.
pub fn replace_all(s: &str, pat: &str, rep: &str) -> (r: String)
    requires
        pat@.len() > 0,
    ensures
        r@ == replaced(s@, pat@, rep@),
{
    let n = s.unicode_len();
    let m = pat.unicode_len();
    let mut out = String::new();
    let mut i: usize = 0;
    assert(s@.skip(0) =~= s@);
    while i < n
        invariant
            n == s@.len(),
            m == pat@.len(),
            m > 0,
            i <= n,
            out@ + replaced(s@.skip(i as int), pat@, rep@) == replaced(s@, pat@, rep@),
        decreases n - i,
    {
        let ghost rest = s@.skip(i as int);
        if m <= n - i {
            let window = s.substring_char(i, i + m);
            assert(window@ =~= rest.take(m as int));
            if str_eq(window, pat) {
                out.append(rep);
                assert(rest.skip(m as int) =~= s@.skip((i + m) as int));
                i = i + m;
                continue;
            }
        }
        let one = s.substring_char(i, i + 1);
        assert(one@ =~= seq![rest[0]]);
        assert(rest.skip(1) =~= s@.skip((i + 1) as int));
        out.append(one);
        i = i + 1;
    }
    assert(s@.skip(n as int) =~= Seq::<char>::empty());
    assert(out@ + Seq::<char>::empty() =~= out@);
    out
}

} // verus!
