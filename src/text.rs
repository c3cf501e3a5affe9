//! Trimming and line splitting of command output.

use vstd::prelude::*;

verus! {

/// The whitespace that is trimmed from a line.
pub open spec fn is_space(c: char) -> bool {
    c == ' ' || c == '\t' || c == '\r' || c == '\n'
}

/// `s` without its leading whitespace.
pub open spec fn trim_start(s: Seq<char>) -> Seq<char>
    decreases s.len(),
{
    if s.len() > 0 && is_space(s[0]) {
        trim_start(s.drop_first())
    } else {
        s
    }
}

/// `s` without its trailing whitespace.
pub open spec fn trim_end(s: Seq<char>) -> Seq<char>
    decreases s.len(),
{
    if s.len() > 0 && is_space(s.last()) {
        trim_end(s.drop_last())
    } else {
        s
    }
}

/// `s` without leading and trailing whitespace.
pub open spec fn trim(s: Seq<char>) -> Seq<char> {
    trim_end(trim_start(s))
}

/// The pieces of `s` between newlines; a text without any has one line.
pub open spec fn split_lines(s: Seq<char>) -> Seq<Seq<char>>
    decreases s.len(),
{
    if s.len() == 0 {
        seq![Seq::empty()]
    } else {
        let ls = split_lines(s.drop_last());
        if s.last() == '\n' {
            ls.push(Seq::empty())
        } else {
            ls.update(ls.len() - 1, ls.last().push(s.last()))
        }
    }
}

/// The trimmed lines that are not blank, in order.
pub open spec fn nonblank_trimmed(ls: Seq<Seq<char>>) -> Seq<Seq<char>>
    decreases ls.len(),
{
    if ls.len() == 0 {
        Seq::empty()
    } else {
        let before = nonblank_trimmed(ls.drop_last());
        if trim(ls.last()).len() == 0 {
            before
        } else {
            before.push(trim(ls.last()))
        }
    }
}

/// The entries of a one-name-per-line listing.
pub open spec fn listed_names(s: Seq<char>) -> Seq<Seq<char>> {
    nonblank_trimmed(split_lines(s))
}

/// The entries of a listing whose first non-blank line is a column header.
pub open spec fn table_names(s: Seq<char>) -> Seq<Seq<char>> {
    if listed_names(s).len() == 0 {
        Seq::empty()
    } else {
        listed_names(s).drop_first()
    }
}

/// The views of a sequence of strings.
pub open spec fn views(v: Seq<String>) -> Seq<Seq<char>> {
    v.map_values(|s: String| s@)
}

/// The bounds, within `from..to`, of that range trimmed.
fn trim_bounds(s: &str, from: usize, to: usize) -> (r: (usize, usize))
    requires
        from <= to <= s@.len(),
    ensures
        from <= r.0 <= r.1 <= to,
        s@.subrange(r.0 as int, r.1 as int) == trim(s@.subrange(from as int, to as int)),
{
    let mut a = from;
    while a < to && is_space_char(s.get_char(a))
        invariant
            from <= a <= to <= s@.len(),
            trim_start(s@.subrange(from as int, to as int)) == trim_start(
                s@.subrange(a as int, to as int),
            ),
        decreases to - a,
    {
        assert(s@.subrange(a as int, to as int).drop_first() =~= s@.subrange(
            a as int + 1,
            to as int,
        ));
        a = a + 1;
    }
    let mut b = to;
    while b > a && is_space_char(s.get_char(b - 1))
        invariant
            from <= a <= b <= to <= s@.len(),
            trim_end(s@.subrange(a as int, to as int)) == trim_end(
                s@.subrange(a as int, b as int),
            ),
        decreases b - a,
    {
        assert(s@.subrange(a as int, b as int).drop_last() =~= s@.subrange(
            a as int,
            b as int - 1,
        ));
        b = b - 1;
    }
    (a, b)
}

fn is_space_char(c: char) -> (r: bool)
    ensures
        r == is_space(c),
{
    c == ' ' || c == '\t' || c == '\r' || c == '\n'
}

/// `s` without leading and trailing whitespace.
pub fn trim_text(s: &str) -> (r: String)
    ensures
        r@ == trim(s@),
{
    let n = s.unicode_len();
    let (a, b) = trim_bounds(s, 0, n);
    assert(s@.subrange(0, n as int) =~= s@);
    String::from_str(s.substring_char(a, b))
}

/// The trimmed, non-blank lines of `s`, one name each.
pub fn parse_listing(s: &str) -> (r: Vec<String>)
    ensures
        views(r@) == listed_names(s@),
{
    let n = s.unicode_len();
    let mut out: Vec<String> = Vec::new();
    let mut start: usize = 0;
    let mut i: usize = 0;
    let ghost mut done: Seq<Seq<char>> = Seq::empty();
    proof {
        assert(s@.take(0) =~= Seq::<char>::empty());
        assert(split_lines(Seq::<char>::empty()) =~= done.push(s@.subrange(0, 0)));
    }
    while i < n
        invariant
            n == s@.len(),
            start <= i <= n,
            split_lines(s@.take(i as int)) == done.push(s@.subrange(start as int, i as int)),
            views(out@) == nonblank_trimmed(done),
        decreases n - i,
    {
        let c = s.get_char(i);
        let ghost cur = s@.subrange(start as int, i as int);
        proof {
            assert(s@.take(i as int + 1).drop_last() =~= s@.take(i as int));
            assert(s@.take(i as int + 1).last() == c);
        }
        if c == '\n' {
            let ghost lines = done.push(cur);
            let (a, b) = trim_bounds(s, start, i);
            if a < b {
                out.push(String::from_str(s.substring_char(a, b)));
            }
            proof {
                assert(lines.drop_last() =~= done);
                assert(views(out@) =~= nonblank_trimmed(lines));
                done = lines;
                assert(s@.subrange(i as int + 1, i as int + 1) =~= Seq::<char>::empty());
            }
            start = i + 1;
        } else {
            proof {
                let ls = done.push(cur);
                assert(cur.push(c) =~= s@.subrange(start as int, i as int + 1));
                assert(ls.last() == cur);
                assert(ls.update(ls.len() - 1, ls.last().push(c)) =~= done.push(
                    s@.subrange(start as int, i as int + 1),
                ));
            }
        }
        i = i + 1;
    }
    let ghost cur = s@.subrange(start as int, n as int);
    let (a, b) = trim_bounds(s, start, n);
    if a < b {
        out.push(String::from_str(s.substring_char(a, b)));
    }
    proof {
        assert(s@.take(n as int) =~= s@);
        let lines = done.push(cur);
        assert(lines.drop_last() =~= done);
        assert(views(out@) =~= nonblank_trimmed(lines));
    }
    out
}

/// The entries of a listing under a one-line column header.
pub fn parse_table(s: &str) -> (r: Vec<String>)
    ensures
        views(r@) == table_names(s@),
{
    let mut names = parse_listing(s);
    if names.len() > 0 {
        names.remove(0);
        assert(views(names@) =~= listed_names(s@).drop_first());
    }
    names
}

proof fn lemma_trim_end_shape(t: Seq<char>)
    ensures
        trim_end(t).len() <= t.len(),
        trim_end(t) =~= t.subrange(0, trim_end(t).len() as int),
        trim_end(t).len() > 0 ==> !is_space(trim_end(t).last()),
    decreases t.len(),
{
    if t.len() > 0 && is_space(t.last()) {
        lemma_trim_end_shape(t.drop_last());
    }
}

proof fn lemma_trim_shape(s: Seq<char>)
    ensures
        trim(s).len() > 0 ==> !is_space(trim(s)[0]) && !is_space(trim(s).last()),
    decreases s.len(),
{
    if s.len() > 0 && is_space(s[0]) {
        lemma_trim_shape(s.drop_first());
    } else {
        lemma_trim_end_shape(s);
        if trim(s).len() > 0 {
            assert(trim(s)[0] == s[0]);
        }
    }
}

proof fn lemma_nonblank_shape(ls: Seq<Seq<char>>)
    ensures
        forall|k: int|
            0 <= k < nonblank_trimmed(ls).len() ==> #[trigger] nonblank_trimmed(ls)[k].len() > 0
                && !is_space(nonblank_trimmed(ls)[k][0]) && !is_space(
                nonblank_trimmed(ls)[k].last(),
            ),
    decreases ls.len(),
{
    if ls.len() > 0 {
        let before = nonblank_trimmed(ls.drop_last());
        let all = nonblank_trimmed(ls);
        lemma_nonblank_shape(ls.drop_last());
        lemma_trim_shape(ls.last());
        assert forall|k: int| 0 <= k < all.len() implies #[trigger] all[k].len() > 0 && !is_space(
            all[k][0],
        ) && !is_space(all[k].last()) by {
            if k < before.len() {
                assert(all[k] == before[k]);
            }
        }
    }
}

/// Every name read from a listing is non-blank and trimmed; under a header
/// the names are those of the listing after its first, the header.
pub proof fn listing_names_are_trimmed(s: Seq<char>)
    ensures
        forall|k: int|
            0 <= k < listed_names(s).len() ==> #[trigger] listed_names(s)[k].len() > 0
                && !is_space(listed_names(s)[k][0]) && !is_space(listed_names(s)[k].last()),
        forall|k: int|
            0 <= k < table_names(s).len() ==> #[trigger] table_names(s)[k].len() > 0
                && !is_space(table_names(s)[k][0]) && !is_space(table_names(s)[k].last()),
        listed_names(s).len() > 0 ==> table_names(s) == listed_names(s).subrange(
            1,
            listed_names(s).len() as int,
        ),
{
    lemma_nonblank_shape(split_lines(s));
    assert forall|k: int| 0 <= k < table_names(s).len() implies #[trigger] table_names(s)[k].len()
        > 0 && !is_space(table_names(s)[k][0]) && !is_space(table_names(s)[k].last()) by {
        assert(table_names(s)[k] == listed_names(s)[k + 1]);
    }
}

} // verus!
