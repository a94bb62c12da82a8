//! Character-level helpers on strings: splitting on a separator and joining
//! with a separator.

use vstd::prelude::*;

verus! {

/// The pieces of `s` between occurrences of `sep`, as `str::split` yields
/// them: one more piece than there are separators.
pub open spec fn split_on(s: Seq<char>, sep: char) -> Seq<Seq<char>>
    decreases s.len(),
{
    if s.len() == 0 {
        seq![Seq::<char>::empty()]
    } else {
        let rest = split_on(s.drop_first(), sep);
        if s[0] == sep {
            seq![Seq::<char>::empty()] + rest
        } else {
            rest.update(0, seq![s[0]] + rest[0])
        }
    }
}

/// `split_on` never yields an empty list of pieces.
pub proof fn lemma_split_nonempty(s: Seq<char>, sep: char)
    ensures
        split_on(s, sep).len() >= 1,
    decreases s.len(),
{
    if s.len() > 0 {
        lemma_split_nonempty(s.drop_first(), sep);
    }
}

/// When `s` has no separator before position `j`, and `j` is the end or a
/// separator, the first piece is `s[..j]`; after a separator at `j` the
/// remaining pieces are those of `s[j + 1..]`.
pub proof fn lemma_split_first(s: Seq<char>, sep: char, j: int)
    requires
        0 <= j <= s.len(),
        forall|k: int| 0 <= k < j ==> s[k] != sep,
        j < s.len() ==> s[j] == sep,
    ensures
        split_on(s, sep)[0] == s.take(j),
        j < s.len() ==> split_on(s, sep).drop_first() == split_on(s.skip(j + 1), sep),
        j == s.len() ==> split_on(s, sep).len() == 1,
    decreases s.len(),
{
    if s.len() == 0 {
        assert(s.take(j) =~= Seq::<char>::empty());
    } else if j == 0 {
        assert(s.take(0) =~= Seq::<char>::empty());
        assert(s.skip(1) =~= s.drop_first());
        assert((seq![Seq::<char>::empty()] + split_on(s.drop_first(), sep)).drop_first()
            =~= split_on(s.drop_first(), sep));
    } else {
        let t = s.drop_first();
        assert forall|k: int| 0 <= k < j - 1 implies t[k] != sep by {
            assert(t[k] == s[k + 1]);
        }
        lemma_split_first(t, sep, j - 1);
        lemma_split_nonempty(t, sep);
        let rest = split_on(t, sep);
        assert(seq![s[0]] + t.take(j - 1) =~= s.take(j));
        if j < s.len() {
            assert(t.skip(j) =~= s.skip(j + 1));
            assert(rest.update(0, seq![s[0]] + rest[0]).drop_first() =~= rest.drop_first());
        }
    }
}

/// Whether `s` contains the character `c`.
pub open spec fn has_char(s: Seq<char>, c: char) -> bool {
    exists|i: int| 0 <= i < s.len() && s[i] == c
}

/// `s` splits into at least two pieces exactly when it holds a separator.
pub proof fn lemma_split_len(s: Seq<char>, sep: char)
    ensures
        split_on(s, sep).len() >= 2 <==> has_char(s, sep),
    decreases s.len(),
{
    if s.len() > 0 {
        let t = s.drop_first();
        lemma_split_len(t, sep);
        lemma_split_nonempty(t, sep);
        if has_char(t, sep) {
            let i = choose|i: int| 0 <= i < t.len() && t[i] == sep;
            assert(s[i + 1] == sep);
        }
        if has_char(s, sep) && s[0] != sep {
            let i = choose|i: int| 0 <= i < s.len() && s[i] == sep;
            assert(t[i - 1] == sep);
        }
    }
}

/// Index of the first `sep` in `s` at or after `from`, or the length of `s`.
fn find_char_from(s: &str, n: usize, sep: char, from: usize) -> (r: usize)
    requires
        n == s@.len(),
        from <= n,
    ensures
        from <= r <= n,
        forall|k: int| from <= k < r ==> s@[k] != sep,
        r < n ==> s@[r as int] == sep,
{
    let mut i = from;
    while i < n
        invariant
            n == s@.len(),
            from <= i <= n,
            forall|k: int| from <= k < i ==> s@[k] != sep,
        decreases n - i,
    {
        if s.get_char(i) == sep {
            return i;
        }
        i = i + 1;
    }
    i
}

/// Whether `s` holds the character `c`; `s` then splits on `c` into two or
/// more pieces.
pub fn contains_char(s: &str, c: char) -> (r: bool)
    ensures
        r == has_char(s@, c),
        r == (split_on(s@, c).len() >= 2),
{
    proof {
        lemma_split_len(s@, c);
    }
    let n = s.unicode_len();
    let i = find_char_from(s, n, c, 0);
    i < n
}

/// The second piece of `s` split on `sep`, as `s.split(sep).nth(1)` gives it.
pub fn second_piece(s: &str, sep: char) -> (r: String)
    requires
        split_on(s@, sep).len() >= 2,
    ensures
        r@ == split_on(s@, sep)[1],
{
    proof {
        lemma_split_len(s@, sep);
    }
    let n = s.unicode_len();
    let first = find_char_from(s, n, sep, 0);
    proof {
        if first == n {
            lemma_split_first(s@, sep, n as int);
        }
    }
    let start = first + 1;
    let end = find_char_from(s, n, sep, start);
    let piece = s.substring_char(start, end);
    proof {
        lemma_split_first(s@, sep, first as int);
        let t = s@.skip(start as int);
        assert forall|k: int| 0 <= k < end - start implies t[k] != sep by {
            assert(t[k] == s@[k + start]);
        }
        lemma_split_first(t, sep, (end - start) as int);
        assert(t.take((end - start) as int) =~= s@.subrange(start as int, end as int));
        assert(split_on(s@, sep)[1] == split_on(s@, sep).drop_first()[0]);
    }
    piece.to_string()
}

/// The pieces joined with `sep` between each two neighbours, as
/// `[String]::join` builds them.
pub open spec fn join_with(pieces: Seq<Seq<char>>, sep: Seq<char>) -> Seq<char>
    decreases pieces.len(),
{
    if pieces.len() == 0 {
        Seq::<char>::empty()
    } else if pieces.len() == 1 {
        pieces[0]
    } else {
        join_with(pieces.drop_last(), sep) + sep + pieces.last()
    }
}

/// The views of a list of strings.
pub open spec fn string_views(v: Seq<String>) -> Seq<Seq<char>> {
    v.map_values(|s: String| s@)
}

/// `pieces` joined with `sep` between each two neighbours.
pub fn join_strings(pieces: &Vec<String>, sep: &str) -> (r: String)
    ensures
        r@ == join_with(string_views(pieces@), sep@),
{
    let mut out = String::new();
    let n = pieces.len();
    let ghost views = string_views(pieces@);
    let mut i: usize = 0;
    while i < n
        invariant
            n == pieces@.len(),
            views == string_views(pieces@),
            i <= n,
            out@ == join_with(views.take(i as int), sep@),
        decreases n - i,
    {
        if i != 0 {
            out.append(sep);
        }
        out.append(pieces[i].as_str());
        proof {
            assert(views.take(i + 1).drop_last() =~= views.take(i as int));
            if i == 0 {
                assert(out@ =~= views.take(1)[0]);
            }
        }
        i = i + 1;
    }
    proof {
        assert(views.take(n as int) =~= views);
    }
    out
}


/// Splitting text made of two parts around a separator gives the pieces of
/// the first part followed by the pieces of the second.
pub proof fn lemma_split_concat(x: Seq<char>, y: Seq<char>, sep: char)
    ensures
        split_on(x + seq![sep] + y, sep) == split_on(x, sep) + split_on(y, sep),
    decreases x.len(),
{
    let whole = x + seq![sep] + y;
    if x.len() == 0 {
        assert(whole.drop_first() =~= y);
        assert(split_on(whole, sep) =~= split_on(x, sep) + split_on(y, sep));
    } else {
        let t = x.drop_first();
        assert(whole.drop_first() =~= t + seq![sep] + y);
        lemma_split_concat(t, y, sep);
        lemma_split_nonempty(t, sep);
        let rest = split_on(t, sep) + split_on(y, sep);
        if x[0] == sep {
            assert(split_on(whole, sep) =~= seq![Seq::<char>::empty()] + rest);
            assert(split_on(whole, sep) =~= split_on(x, sep) + split_on(y, sep));
        } else {
            assert(rest[0] == split_on(t, sep)[0]);
            assert(rest.update(0, seq![x[0]] + rest[0]) =~= split_on(t, sep).update(
                0,
                seq![x[0]] + split_on(t, sep)[0],
            ) + split_on(y, sep));
        }
    }
}

/// Text without the separator splits into itself alone.
pub proof fn lemma_split_no_sep(s: Seq<char>, sep: char)
    requires
        !has_char(s, sep),
    ensures
        split_on(s, sep) == seq![s],
{
    lemma_split_first(s, sep, s.len() as int);
    lemma_split_nonempty(s, sep);
    assert(s.take(s.len() as int) =~= s);
    assert(split_on(s, sep) =~= seq![s]);
}

/// Joining one or more pieces, none holding the separator, with that
/// separator and splitting the result on it gives back every piece, in
/// order: no piece is lost, added, merged or cut.
pub proof fn law_split_undoes_join(pieces: Seq<Seq<char>>, sep: char)
    requires
        pieces.len() >= 1,
        forall|i: int| 0 <= i < pieces.len() ==> !has_char(#[trigger] pieces[i], sep),
    ensures
        split_on(join_with(pieces, seq![sep]), sep) == pieces,
    decreases pieces.len(),
{
    if pieces.len() == 1 {
        lemma_split_no_sep(pieces[0], sep);
        assert(seq![pieces[0]] =~= pieces);
    } else {
        let init = pieces.drop_last();
        assert forall|i: int| 0 <= i < init.len() implies !has_char(#[trigger] init[i], sep) by {
            assert(init[i] == pieces[i]);
        }
        law_split_undoes_join(init, sep);
        lemma_split_concat(join_with(init, seq![sep]), pieces.last(), sep);
        assert(!has_char(pieces[pieces.len() - 1], sep));
        lemma_split_no_sep(pieces.last(), sep);
        assert(init + seq![pieces.last()] =~= pieces);
    }
}

/// Joining no pieces gives the empty text.
pub proof fn law_join_of_nothing_is_empty(sep: Seq<char>)
    ensures
        join_with(Seq::<Seq<char>>::empty(), sep) == Seq::<char>::empty(),
{
}

} // verus!
