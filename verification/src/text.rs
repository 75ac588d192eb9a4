use vstd::prelude::*;

verus! {

/// Whether two string slices hold the same characters.
pub fn str_eq(a: &str, b: &str) -> (r: bool)
    ensures
        r == (a@ == b@),
{
    let x: String = a.to_owned();
    let y: String = b.to_owned();
    x == y
}

/// The characters of each string of a sequence.
pub open spec fn strings_view(v: Seq<String>) -> Seq<Seq<char>> {
    v.map_values(|s: String| s@)
}

/// `items` joined with single spaces between them (an empty list gives the
/// empty string).
pub open spec fn join_space_delimited(items: Seq<Seq<char>>) -> Seq<char>
    decreases items.len(),
{
    if items.len() == 0 {
        Seq::empty()
    } else if items.len() == 1 {
        items[0]
    } else {
        join_space_delimited(items.drop_last()) + seq![' '] + items.last()
    }
}

/// `s` cut at every space, as `str::split(' ')` cuts it: `n` spaces give
/// `n + 1` pieces, and empty pieces are kept.
pub open spec fn split_space_delimited(s: Seq<char>) -> Seq<Seq<char>>
    decreases s.len(),
{
    if s.len() == 0 {
        seq![Seq::<char>::empty()]
    } else {
        let prev = split_space_delimited(s.drop_last());
        if s.last() == ' ' {
            prev.push(Seq::<char>::empty())
        } else {
            prev.update(prev.len() - 1, prev.last().push(s.last()))
        }
    }
}

/// Whether no character of `s` is a space.
pub open spec fn has_no_space(s: Seq<char>) -> bool {
    forall|i: int| 0 <= i < s.len() ==> s[i] != ' '
}

proof fn lemma_split_nonempty(s: Seq<char>)
    ensures
        split_space_delimited(s).len() >= 1,
    decreases s.len(),
{
    if s.len() > 0 {
        lemma_split_nonempty(s.drop_last());
    }
}

/// Splitting a string with no space gives that string alone.
pub proof fn law_split_no_space(s: Seq<char>)
    requires
        has_no_space(s),
    ensures
        split_space_delimited(s) == seq![s],
    decreases s.len(),
{
    if s.len() > 0 {
        law_split_no_space(s.drop_last());
        assert(s.drop_last().push(s.last()) =~= s);
        assert(s.last() == s[s.len() - 1]);
    } else {
        assert(s =~= Seq::<char>::empty());
    }
}

/// A string, a space, and a string with no space split as the split of the
/// first with the last added as one more piece.
pub proof fn law_split_after_space(a: Seq<char>, b: Seq<char>)
    requires
        has_no_space(b),
    ensures
        split_space_delimited(a.push(' ') + b) == split_space_delimited(a).push(b),
    decreases b.len(),
{
    let ab = a.push(' ') + b;
    if b.len() == 0 {
        assert(b =~= Seq::<char>::empty());
        assert(ab =~= a.push(' '));
        assert(a.push(' ').drop_last() =~= a);
        assert(split_space_delimited(a).push(b) =~= split_space_delimited(a).push(Seq::<char>::empty()));
    } else {
        let b0 = b.drop_last();
        assert(has_no_space(b0));
        law_split_after_space(a, b0);
        assert(ab.drop_last() =~= a.push(' ') + b0);
        assert(ab.last() == b.last());
        assert(b[b.len() - 1] != ' ');
        let prev = split_space_delimited(a).push(b0);
        assert(prev.update(prev.len() - 1, b0.push(b.last())) =~= split_space_delimited(a).push(b))
            by {
            assert(b0.push(b.last()) =~= b);
        }
    }
}

proof fn lemma_join_last(ps: Seq<Seq<char>>)
    requires
        ps.len() >= 1,
    ensures
        join_space_delimited(ps) == (if ps.len() == 1 {
            Seq::<char>::empty()
        } else {
            join_space_delimited(ps.drop_last()) + seq![' ']
        }) + ps.last(),
{
    if ps.len() == 1 {
        assert(Seq::<char>::empty() + ps.last() =~= ps[0]);
    }
}

/// Joining one more piece adds a space (unless it is the first piece) and
/// the piece.
pub proof fn law_join_push(items: Seq<Seq<char>>, x: Seq<char>)
    ensures
        join_space_delimited(items.push(x)) == if items.len() == 0 {
            x
        } else {
            join_space_delimited(items) + seq![' '] + x
        },
{
    assert(items.push(x).drop_last() =~= items);
}

/// Joining the pieces of a split gives back the string that was split.
pub proof fn law_join_split(s: Seq<char>)
    ensures
        join_space_delimited(split_space_delimited(s)) == s,
    decreases s.len(),
{
    if s.len() == 0 {
        assert(join_space_delimited(seq![Seq::<char>::empty()]) =~= s);
    } else {
        let init = s.drop_last();
        let prev = split_space_delimited(init);
        assert(s =~= init.push(s.last()));
        law_join_split(init);
        lemma_split_nonempty(init);
        lemma_join_last(prev);
        if s.last() == ' ' {
            let next = prev.push(Seq::<char>::empty());
            lemma_join_last(next);
            assert(next.drop_last() =~= prev);
            assert(join_space_delimited(next) =~= s);
        } else {
            let next = prev.update(prev.len() - 1, prev.last().push(s.last()));
            lemma_join_last(next);
            assert(next.drop_last() =~= prev.drop_last());
            assert(join_space_delimited(next) =~= s);
        }
    }
}

/// Splitting a non-empty list of space-free strings joined with spaces gives
/// the list back.
pub proof fn law_split_join(items: Seq<Seq<char>>)
    requires
        items.len() >= 1,
        forall|i: int| 0 <= i < items.len() ==> has_no_space(#[trigger] items[i]),
    ensures
        split_space_delimited(join_space_delimited(items)) == items,
    decreases items.len(),
{
    if items.len() == 1 {
        law_split_no_space(items[0]);
        assert(seq![items[0]] =~= items);
    } else {
        let init = items.drop_last();
        law_split_join(init);
        assert(has_no_space(items[items.len() - 1]));
        law_split_after_space(join_space_delimited(init), items.last());
        assert(join_space_delimited(init) + seq![' '] + items.last() =~= join_space_delimited(
            init,
        ).push(' ') + items.last());
        assert(init.push(items.last()) =~= items);
    }
}

/// Joins `items` with single spaces between them.
pub fn join_with_spaces(items: &Vec<String>) -> (r: String)
    ensures
        r@ == join_space_delimited(strings_view(items@)),
{
    let mut r: String = String::new();
    let n = items.len();
    let mut i: usize = 0;
    while i < n
        invariant
            n == items@.len(),
            i <= n,
            r@ == join_space_delimited(strings_view(items@).take(i as int)),
        decreases n - i,
    {
        let ghost vs = strings_view(items@);
        assert(vs.take(i + 1).drop_last() =~= vs.take(i as int));
        assert(vs.take(i + 1).last() == items@[i as int]@);
        if i > 0 {
            r.append(" ");
            proof {
                reveal_strlit(" ");
            }
        }
        r.append(items[i].as_str());
        proof {
            if i == 0 {
                assert(r@ =~= vs.take(1)[0]);
            } else {
                assert(r@ =~= join_space_delimited(vs.take(i as int)) + seq![' '] + vs.take(
                    i + 1,
                ).last());
            }
        }
        i = i + 1;
    }
    assert(strings_view(items@).take(n as int) =~= strings_view(items@));
    r
}

/// Cuts `s` at every space, keeping empty pieces, as `str::split(' ')` does.
pub fn split_at_spaces(s: &str) -> (r: Vec<String>)
    ensures
        strings_view(r@) == split_space_delimited(s@),
{
    let n = s.unicode_len();
    let mut pieces: Vec<String> = Vec::new();
    let mut start: usize = 0;
    let mut i: usize = 0;
    assert(s@.take(0) =~= Seq::<char>::empty());
    assert(s@.subrange(0, 0) =~= Seq::<char>::empty());
    assert(strings_view(pieces@) =~= Seq::<Seq<char>>::empty());
    while i < n
        invariant
            n == s@.len(),
            start <= i <= n,
            strings_view(pieces@).push(s@.subrange(start as int, i as int))
                == split_space_delimited(s@.take(i as int)),
        decreases n - i,
    {
        let c = s.get_char(i);
        let ghost prev = split_space_delimited(s@.take(i as int));
        assert(s@.take(i + 1).drop_last() =~= s@.take(i as int));
        assert(s@.take(i + 1).last() == c);
        if c == ' ' {
            let piece = s.substring_char(start, i).to_owned();
            pieces.push(piece);
            start = i + 1;
            assert(strings_view(pieces@) =~= prev.drop_last().push(prev.last()));
            assert(s@.subrange(start as int, start as int) =~= Seq::<char>::empty());
            assert(strings_view(pieces@).push(s@.subrange(start as int, i + 1)) =~= prev.push(
                Seq::<char>::empty(),
            ));
        } else {
            assert(s@.subrange(start as int, i + 1) =~= s@.subrange(start as int, i as int).push(
                c,
            ));
            assert(strings_view(pieces@).push(s@.subrange(start as int, i + 1)) =~= prev.update(
                prev.len() - 1,
                prev.last().push(c),
            ));
        }
        i = i + 1;
    }
    let last = s.substring_char(start, n).to_owned();
    pieces.push(last);
    assert(s@.take(n as int) =~= s@);
    assert(strings_view(pieces@) =~= split_space_delimited(s@));
    pieces
}

} // verus!
