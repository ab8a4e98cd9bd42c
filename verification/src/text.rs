//! Text building blocks: decimal rendering of integers, booleans, joining
//! lists with a separator, and trimming prefixes and suffixes.
use vstd::prelude::*;
use vstd::string::*;

verus! {

/// The character of a decimal digit `d` (`0 <= d < 10`).
pub open spec fn digit_char(d: nat) -> char {
    if d == 0 {
        '0'
    } else if d == 1 {
        '1'
    } else if d == 2 {
        '2'
    } else if d == 3 {
        '3'
    } else if d == 4 {
        '4'
    } else if d == 5 {
        '5'
    } else if d == 6 {
        '6'
    } else if d == 7 {
        '7'
    } else if d == 8 {
        '8'
    } else {
        '9'
    }
}

/// The decimal text of a natural number, without leading zeros.
pub open spec fn nat_text(n: nat) -> Seq<char>
    decreases n,
{
    if n < 10 {
        seq![digit_char(n)]
    } else {
        nat_text(n / 10).push(digit_char(n % 10))
    }
}

/// The decimal text of an integer, as `Display` writes it: a minus sign
/// before the digits of a negative number.
pub open spec fn int_text(n: int) -> Seq<char> {
    if n < 0 {
        seq!['-'] + nat_text((-n) as nat)
    } else {
        nat_text(n as nat)
    }
}

/// The text `Display` writes for a boolean.
pub open spec fn bool_text(b: bool) -> Seq<char> {
    if b {
        "true"@
    } else {
        "false"@
    }
}

/// The views of a sequence of strings.
pub open spec fn views(v: Seq<String>) -> Seq<Seq<char>> {
    v.map_values(|s: String| s@)
}

/// The view of an optional string.
pub open spec fn opt_text(o: Option<String>) -> Option<Seq<char>> {
    match o {
        Some(s) => Some(s@),
        None => None,
    }
}

/// The pieces of `list` with `sep` between each two neighbours.
pub open spec fn join(list: Seq<Seq<char>>, sep: Seq<char>) -> Seq<char>
    decreases list.len(),
{
    if list.len() == 0 {
        Seq::empty()
    } else if list.len() == 1 {
        list[0]
    } else {
        join(list.drop_last(), sep) + sep + list.last()
    }
}

proof fn lemma_digit_char_injective(a: nat, b: nat)
    requires
        0 <= a < 10,
        0 <= b < 10,
        digit_char(a) == digit_char(b),
    ensures
        a == b,
{
}

proof fn lemma_nat_text_nonempty(n: nat)
    ensures
        nat_text(n).len() >= 1,
        n >= 10 ==> nat_text(n).len() >= 2,
    decreases n,
{
    if n >= 10 {
        lemma_nat_text_nonempty(n / 10);
    }
}

/// Distinct natural numbers have distinct decimal texts.
pub proof fn lemma_nat_text_injective(a: nat, b: nat)
    requires
        nat_text(a) == nat_text(b),
    ensures
        a == b,
    decreases a,
{
    lemma_nat_text_nonempty(a);
    lemma_nat_text_nonempty(b);
    if a < 10 && b < 10 {
        assert(nat_text(a)[0] == digit_char(a));
        assert(nat_text(b)[0] == digit_char(b));
        lemma_digit_char_injective(a, b);
    } else if a >= 10 && b >= 10 {
        let ta = nat_text(a);
        let tb = nat_text(b);
        assert(ta.last() == digit_char(a % 10));
        assert(tb.last() == digit_char(b % 10));
        lemma_digit_char_injective(a % 10, b % 10);
        assert(ta.drop_last() =~= nat_text(a / 10));
        assert(tb.drop_last() =~= nat_text(b / 10));
        lemma_nat_text_injective(a / 10, b / 10);
    } else {
        assert(nat_text(a).len() != nat_text(b).len());
    }
}

/// Joining a concatenation of two non-empty lists gives the joins of the
/// two lists with one separator between them.
pub proof fn lemma_join_concat(a: Seq<Seq<char>>, b: Seq<Seq<char>>, sep: Seq<char>)
    requires
        a.len() > 0,
        b.len() > 0,
    ensures
        join(a + b, sep) == join(a, sep) + sep + join(b, sep),
    decreases b.len(),
{
    let ab = a + b;
    if b.len() == 1 {
        assert(ab.drop_last() =~= a);
        assert(ab.last() == b[0]);
    } else {
        lemma_join_concat(a, b.drop_last(), sep);
        assert(ab.drop_last() =~= a + b.drop_last());
        assert(ab.last() == b.last());
        assert(join(ab, sep) == join(a + b.drop_last(), sep) + sep + b.last());
        assert(join(ab, sep) =~= join(a, sep) + sep + (join(b.drop_last(), sep) + sep + b.last()));
    }
}

/// A sequence starts with any sequence it is made by extending.
pub proof fn lemma_starts_with_concat(a: Seq<char>, b: Seq<char>)
    ensures
        starts_with(a + b, a),
{
    assert((a + b).subrange(0, a.len() as int) =~= a);
}

/// Starting with is transitive.
pub proof fn lemma_starts_with_trans(s: Seq<char>, t: Seq<char>, u: Seq<char>)
    requires
        starts_with(s, t),
        starts_with(t, u),
    ensures
        starts_with(s, u),
{
    assert(s.subrange(0, u.len() as int) =~= t.subrange(0, u.len() as int)) by {
        assert forall|i: int| 0 <= i < u.len() implies s[i] == t[i] by {
            assert(s.subrange(0, t.len() as int)[i] == t[i]);
        }
    }
}

/// A join of a non-empty list starts with the list's first piece.
pub proof fn lemma_join_starts_with_first(list: Seq<Seq<char>>, sep: Seq<char>)
    requires
        list.len() > 0,
    ensures
        starts_with(join(list, sep), list[0]),
    decreases list.len(),
{
    if list.len() == 1 {
        assert(join(list, sep).subrange(0, list[0].len() as int) =~= list[0]);
    } else {
        let init = list.drop_last();
        lemma_join_starts_with_first(init, sep);
        let j = join(init, sep);
        assert(init[0] == list[0]);
        assert(join(list, sep) == j + sep + list.last());
        lemma_starts_with_concat(j, sep + list.last());
        assert(j + sep + list.last() =~= j + (sep + list.last()));
        lemma_starts_with_trans(join(list, sep), j, list[0]);
    }
}

/// After trimming, `s` no longer ends with `suffix`.
pub proof fn lemma_trim_end_leaves_no_suffix(s: Seq<char>, suffix: Seq<char>)
    requires
        suffix.len() > 0,
    ensures
        !ends_with(trim_end(s, suffix), suffix),
    decreases s.len(),
{
    if ends_with(s, suffix) {
        lemma_trim_end_leaves_no_suffix(s.subrange(0, s.len() - suffix.len()), suffix);
    }
}

/// The pieces of `s` between the occurrences of `c`, as `split(c)` gives
/// them: one more piece than `s` holds copies of `c`.
pub open spec fn split_at_char(s: Seq<char>, c: char) -> Seq<Seq<char>>
    decreases s.len(),
{
    if s.len() == 0 {
        seq![Seq::empty()]
    } else {
        let init = split_at_char(s.drop_last(), c);
        if s.last() == c {
            init.push(Seq::empty())
        } else {
            init.update(init.len() - 1, init.last().push(s.last()))
        }
    }
}

proof fn lemma_split_nonempty(s: Seq<char>, c: char)
    ensures
        split_at_char(s, c).len() >= 1,
    decreases s.len(),
{
    if s.len() > 0 {
        lemma_split_nonempty(s.drop_last(), c);
    }
}

/// Appending text without `c` extends the last piece of the split.
proof fn lemma_split_plain_suffix(a: Seq<char>, b: Seq<char>, c: char)
    requires
        !b.contains(c),
    ensures
        split_at_char(a + b, c) == split_at_char(a, c).update(
            split_at_char(a, c).len() - 1,
            split_at_char(a, c).last() + b,
        ),
    decreases b.len(),
{
    lemma_split_nonempty(a, c);
    let sa = split_at_char(a, c);
    if b.len() == 0 {
        assert(a + b =~= a);
        assert(sa.last() + b =~= sa.last());
        assert(sa.update(sa.len() - 1, sa.last() + b) =~= sa);
    } else {
        let b0 = b.drop_last();
        assert(!b0.contains(c)) by {
            if b0.contains(c) {
                let k = choose|k: int| 0 <= k < b0.len() && b0[k] == c;
                assert(b[k] == c);
            }
        }
        lemma_split_plain_suffix(a, b0, c);
        assert((a + b).drop_last() =~= a + b0);
        assert((a + b).last() == b.last());
        assert(b.last() != c) by {
            assert(b[b.len() - 1] == b.last());
        }
        let s0 = split_at_char(a + b0, c);
        assert(s0.last() == sa.last() + b0);
        assert((sa.last() + b0).push(b.last()) =~= sa.last() + b);
        assert(split_at_char(a + b, c) == s0.update(s0.len() - 1, s0.last().push(b.last())));
        assert(split_at_char(a + b, c) =~= sa.update(sa.len() - 1, sa.last() + b));
    }
}

/// Splitting a join at its one-character separator gives back the pieces,
/// where no piece holds the separator.
pub proof fn lemma_split_join(list: Seq<Seq<char>>, c: char)
    requires
        list.len() > 0,
        forall|i: int| 0 <= i < list.len() ==> !(#[trigger] list[i]).contains(c),
    ensures
        split_at_char(join(list, seq![c]), c) == list,
    decreases list.len(),
{
    let e = Seq::<char>::empty();
    if list.len() == 1 {
        lemma_split_plain_suffix(e, list[0], c);
        assert(e + list[0] =~= list[0]);
        assert(split_at_char(e, c) =~= seq![e]);
        assert(e + list[0] =~= list[0]);
        assert(seq![e].update(0, e + list[0]) =~= list);
    } else {
        let init = list.drop_last();
        lemma_split_join(init, c);
        let j = join(init, seq![c]);
        assert((j + seq![c]).drop_last() =~= j);
        assert((j + seq![c]).last() == c);
        assert(split_at_char(j + seq![c], c) == list.drop_last().push(e));
        assert(!list.last().contains(c)) by {
            assert(list[list.len() - 1] == list.last());
        }
        lemma_split_plain_suffix(j + seq![c], list.last(), c);
        assert(e + list.last() =~= list.last());
        assert(list.drop_last().push(e).update(list.len() - 1, e + list.last()) =~= list);
    }
}

/// Appends `line` to `lines`.
pub fn push_line(lines: &mut Vec<String>, line: String)
    ensures
        views(final(lines)@) == views(old(lines)@).push(line@),
{
    lines.push(line);
    assert(views(lines@) =~= views(old(lines)@).push(line@));
}

/// The text of one decimal digit.
fn digit_str(d: u128) -> (s: &'static str)
    requires
        d < 10,
    ensures
        s@ == seq![digit_char(d as nat)],
{
    if d == 0 {
        proof { reveal_strlit("0"); }
        "0"
    } else if d == 1 {
        proof { reveal_strlit("1"); }
        "1"
    } else if d == 2 {
        proof { reveal_strlit("2"); }
        "2"
    } else if d == 3 {
        proof { reveal_strlit("3"); }
        "3"
    } else if d == 4 {
        proof { reveal_strlit("4"); }
        "4"
    } else if d == 5 {
        proof { reveal_strlit("5"); }
        "5"
    } else if d == 6 {
        proof { reveal_strlit("6"); }
        "6"
    } else if d == 7 {
        proof { reveal_strlit("7"); }
        "7"
    } else if d == 8 {
        proof { reveal_strlit("8"); }
        "8"
    } else {
        proof { reveal_strlit("9"); }
        "9"
    }
}

/// Renders a natural number in decimal.
pub fn nat_to_text(n: u128) -> (s: String)
    ensures
        s@ == nat_text(n as nat),
    decreases n,
{
    if n < 10 {
        String::from_str(digit_str(n))
    } else {
        let mut s = nat_to_text(n / 10);
        s.append(digit_str(n % 10));
        s
    }
}

/// Renders an integer in decimal, as `to_string` does.
pub fn int_to_text(n: i128) -> (s: String)
    ensures
        s@ == int_text(n as int),
{
    if n < 0 {
        let magnitude: u128 = if n == i128::MIN {
            (i128::MAX as u128) + 1
        } else {
            (-n) as u128
        };
        proof { reveal_strlit("-"); }
        let digits = nat_to_text(magnitude);
        let s = String::from_str("-");
        s.concat(digits.as_str())
    } else {
        nat_to_text(n as u128)
    }
}

/// Renders a boolean, as `to_string` does.
pub fn bool_to_text(b: bool) -> (s: String)
    ensures
        s@ == bool_text(b),
{
    if b {
        String::from_str("true")
    } else {
        String::from_str("false")
    }
}

/// Joins the strings of `list` with `sep` between each two neighbours, as
/// `join` on a slice of strings does.
pub fn join_strings(list: &Vec<String>, sep: &str) -> (s: String)
    ensures
        s@ == join(views(list@), sep@),
{
    let mut s = String::new();
    let ghost vs = views(list@);
    let mut i: usize = 0;
    while i < list.len()
        invariant
            0 <= i <= list.len(),
            vs == views(list@),
            s@ == join(vs.take(i as int), sep@),
        decreases list.len() - i,
    {
        proof {
            assert(vs.take(i + 1).drop_last() =~= vs.take(i as int));
            assert(vs.take(i + 1).last() == list@[i as int]@);
        }
        if i == 0 {
            s.append(list[i].as_str());
            assert(vs.take(1) =~= seq![list@[0]@]);
        } else {
            s.append(sep);
            s.append(list[i].as_str());
        }
        i = i + 1;
    }
    assert(vs.take(list.len() as int) =~= vs);
    s
}

/// Whether `s` ends with `suffix`.
pub open spec fn ends_with(s: Seq<char>, suffix: Seq<char>) -> bool {
    suffix.len() <= s.len() && s.subrange(s.len() - suffix.len(), s.len() as int) == suffix
}

/// Whether `s` starts with `prefix`.
pub open spec fn starts_with(s: Seq<char>, prefix: Seq<char>) -> bool {
    prefix.len() <= s.len() && s.subrange(0, prefix.len() as int) == prefix
}

/// `s` with every trailing copy of a non-empty `suffix` removed, as
/// `trim_end_matches` does.
pub open spec fn trim_end(s: Seq<char>, suffix: Seq<char>) -> Seq<char>
    decreases s.len(),
{
    if suffix.len() > 0 && ends_with(s, suffix) {
        trim_end(s.subrange(0, s.len() - suffix.len()), suffix)
    } else {
        s
    }
}

/// `s` without `prefix` where it starts with it, else `s` unchanged, as
/// `strip_prefix(..).unwrap_or(s)` does.
pub open spec fn strip_prefix_or_keep(s: Seq<char>, prefix: Seq<char>) -> Seq<char> {
    if starts_with(s, prefix) {
        s.subrange(prefix.len() as int, s.len() as int)
    } else {
        s
    }
}

/// Whether `s` ends with `suffix`, compared character by character.
pub fn text_ends_with(s: &str, suffix: &str) -> (b: bool)
    ensures
        b == ends_with(s@, suffix@),
{
    let n = s.unicode_len();
    let m = suffix.unicode_len();
    if m > n {
        return false;
    }
    let mut i: usize = 0;
    while i < m
        invariant
            n == s@.len(),
            m == suffix@.len(),
            m <= n,
            i <= m,
            forall|j: int| 0 <= j < i ==> s@[n - m + j] == suffix@[j],
        decreases m - i,
    {
        if s.get_char(n - m + i) != suffix.get_char(i) {
            assert(s@.subrange(n - m, n as int)[i as int] != suffix@[i as int]);
            return false;
        }
        i = i + 1;
    }
    assert(s@.subrange(n - m, n as int) =~= suffix@);
    true
}

/// Whether `s` starts with `prefix`, compared character by character.
pub fn text_starts_with(s: &str, prefix: &str) -> (b: bool)
    ensures
        b == starts_with(s@, prefix@),
{
    let n = s.unicode_len();
    let m = prefix.unicode_len();
    if m > n {
        return false;
    }
    let mut i: usize = 0;
    while i < m
        invariant
            n == s@.len(),
            m == prefix@.len(),
            m <= n,
            i <= m,
            forall|j: int| 0 <= j < i ==> s@[j] == prefix@[j],
        decreases m - i,
    {
        if s.get_char(i) != prefix.get_char(i) {
            assert(s@.subrange(0, m as int)[i as int] != prefix@[i as int]);
            return false;
        }
        i = i + 1;
    }
    assert(s@.subrange(0, m as int) =~= prefix@);
    true
}

/// Removes every trailing copy of `suffix` from `s`, as `trim_end_matches`
/// does with a string pattern.
pub fn trim_end_text(s: &str, suffix: &str) -> (r: String)
    ensures
        r@ == trim_end(s@, suffix@),
{
    let m = suffix.unicode_len();
    let mut cur: &str = s;
    if m == 0 {
        return String::from_str(s);
    }
    while text_ends_with(cur, suffix)
        invariant
            m == suffix@.len(),
            m > 0,
            trim_end(s@, suffix@) == trim_end(cur@, suffix@),
        decreases cur@.len(),
    {
        let n = cur.unicode_len();
        cur = cur.substring_char(0, n - m);
    }
    String::from_str(cur)
}

/// Removes `prefix` from the front of `s` where it stands there.
pub fn strip_prefix_text(s: &str, prefix: &str) -> (r: String)
    ensures
        r@ == strip_prefix_or_keep(s@, prefix@),
{
    if text_starts_with(s, prefix) {
        let n = s.unicode_len();
        let m = prefix.unicode_len();
        String::from_str(s.substring_char(m, n))
    } else {
        String::from_str(s)
    }
}

} // verus!
