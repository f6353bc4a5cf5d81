//! Comma-separated list fields: how the menu tables store a list in one text
//! column, and how it is read back.
use vstd::prelude::*;
use vstd::string::*;

verus! {

/// The pieces of `s` between commas, in order: what `str::split(",")`
/// yields. There is always at least one piece; the empty text gives one
/// empty piece.
pub open spec fn comma_pieces(s: Seq<char>) -> Seq<Seq<char>>
    decreases s.len(),
{
    if s.len() == 0 {
        seq![Seq::<char>::empty()]
    } else {
        let p = comma_pieces(s.drop_last());
        if s.last() == ',' {
            p.push(Seq::<char>::empty())
        } else {
            p.update(p.len() - 1, p.last().push(s.last()))
        }
    }
}

/// The pieces joined with `,` between each two of them.
pub open spec fn join_commas(pieces: Seq<Seq<char>>) -> Seq<char>
    decreases pieces.len(),
{
    if pieces.len() == 0 {
        Seq::<char>::empty()
    } else if pieces.len() == 1 {
        pieces[0]
    } else {
        join_commas(pieces.drop_last()) + seq![','] + pieces.last()
    }
}

/// The text of an optional field: the field itself, or the empty text.
pub open spec fn option_text(o: Option<String>) -> Seq<char> {
    match o {
        Some(s) => s@,
        None => Seq::<char>::empty(),
    }
}

/// Splitting a text at its commas gives at least one piece, no piece holds
/// a comma, and joining the pieces with commas gives the text back.
pub proof fn lemma_comma_pieces_rejoin(s: Seq<char>)
    ensures
        comma_pieces(s).len() >= 1,
        join_commas(comma_pieces(s)) == s,
        forall|i: int| 0 <= i < comma_pieces(s).len() ==> !(#[trigger] comma_pieces(s)[i]).contains(','),
    decreases s.len(),
{
    if s.len() == 0 {
        assert(comma_pieces(s) =~= seq![Seq::<char>::empty()]);
        assert(join_commas(comma_pieces(s)) =~= s);
        assert forall|i: int| 0 <= i < comma_pieces(s).len() implies !(#[trigger] comma_pieces(s)[i]).contains(',') by {
            assert(comma_pieces(s)[i] =~= Seq::<char>::empty());
        }
    } else {
        let d = s.drop_last();
        let c = s.last();
        lemma_comma_pieces_rejoin(d);
        let p = comma_pieces(d);
        let q = comma_pieces(s);
        if c == ',' {
            assert(q == p.push(Seq::<char>::empty()));
            assert(q.drop_last() =~= p);
            assert(join_commas(q) == join_commas(p) + seq![','] + Seq::<char>::empty());
            assert(join_commas(q) =~= s);
            assert forall|i: int| 0 <= i < q.len() implies !(#[trigger] q[i]).contains(',') by {
                if i < p.len() {
                    assert(q[i] == p[i]);
                } else {
                    assert(q[i] =~= Seq::<char>::empty());
                }
            }
        } else {
            let last = p.last().push(c);
            assert(q == p.update(p.len() - 1, last));
            if p.len() == 1 {
                assert(join_commas(p) == p[0]);
                assert(join_commas(q) == q[0]);
                assert(q[0] == last);
                assert(p.last() == p[0]);
                assert(p[0] == d);
                assert(d.push(c) =~= s);
                assert(join_commas(q) =~= s);
            } else {
                assert(q.drop_last() =~= p.drop_last());
                assert(join_commas(p) == join_commas(p.drop_last()) + seq![','] + p.last());
                assert(join_commas(q) == join_commas(q.drop_last()) + seq![','] + q.last());
                assert(q.last() == last);
                assert(join_commas(q) =~= join_commas(p).push(c));
                assert(d.push(c) =~= s);
                assert(join_commas(q) =~= s);
            }
            assert forall|i: int| 0 <= i < q.len() implies !(#[trigger] q[i]).contains(',') by {
                if i < p.len() - 1 {
                    assert(q[i] == p[i]);
                } else {
                    assert(q[i] == last);
                    if last.contains(',') {
                        let k = choose|k: int| 0 <= k < last.len() && last[k] == ',';
                        if k < p.last().len() {
                            assert(p[p.len() - 1][k] == ',');
                        }
                    }
                }
            }
        }
    }
}

/// A text without commas splits into one piece: the text itself.
pub proof fn lemma_comma_pieces_single(s: Seq<char>)
    requires
        !s.contains(','),
    ensures
        comma_pieces(s) == seq![s],
    decreases s.len(),
{
    if s.len() == 0 {
        assert(s =~= Seq::<char>::empty());
        assert(comma_pieces(s) =~= seq![s]);
    } else {
        let d = s.drop_last();
        assert(!d.contains(',')) by {
            if d.contains(',') {
                let k = choose|k: int| 0 <= k < d.len() && d[k] == ',';
                assert(s[k] == ',');
            }
        }
        lemma_comma_pieces_single(d);
        assert(s.last() != ',') by {
            assert(s[s.len() - 1] == s.last());
        }
        let p = comma_pieces(d);
        assert(p.len() == 1 && p.last() == d);
        assert(d.push(s.last()) =~= s);
        assert(comma_pieces(s) == p.update(0, d.push(s.last())));
        assert(comma_pieces(s) =~= seq![s]);
    }
}

/// Splits a text at its commas, as `str::split(",")` does.
pub fn split_commas(s: &str) -> (pieces: Vec<String>)
    ensures
        pieces.deep_view() == comma_pieces(s@),
{
    let n = s.unicode_len();
    let mut pieces: Vec<String> = Vec::new();
    let mut start: usize = 0;
    let mut i: usize = 0;
    assert(s@.take(0) =~= Seq::<char>::empty());
    assert(pieces.deep_view().push(s@.subrange(0, 0)) =~= comma_pieces(s@.take(0)));
    while i < n
        invariant
            n == s@.len(),
            start <= i <= n,
            pieces.deep_view().push(s@.subrange(start as int, i as int)) == comma_pieces(
                s@.take(i as int),
            ),
        decreases n - i,
    {
        let c = s.get_char(i);
        let ghost t = s@.take(i as int + 1);
        assert(t.drop_last() =~= s@.take(i as int));
        assert(t.last() == c);
        let ghost before = pieces.deep_view();
        if c == ',' {
            let piece = s.substring_char(start, i);
            pieces.push(String::from_str(piece));
            assert(pieces.deep_view() =~= before.push(s@.subrange(start as int, i as int)));
            start = i + 1;
            assert(comma_pieces(t) == comma_pieces(s@.take(i as int)).push(Seq::<char>::empty()));
            assert(s@.subrange(start as int, i as int + 1) =~= Seq::<char>::empty());
            assert(pieces.deep_view().push(s@.subrange(start as int, i as int + 1)) =~= comma_pieces(t));
        } else {
            let ghost pp = comma_pieces(s@.take(i as int));
            assert(pp == before.push(s@.subrange(start as int, i as int)));
            assert(comma_pieces(t) == pp.update(pp.len() - 1, pp.last().push(c)));
            assert(pp.last() == s@.subrange(start as int, i as int));
            assert(s@.subrange(start as int, i as int).push(c) =~= s@.subrange(start as int, i as int + 1));
            assert(pieces.deep_view() == before);
            assert(pp.update(pp.len() - 1, pp.last().push(c)) =~= before.push(s@.subrange(start as int, i as int + 1)));
            assert(pieces.deep_view().push(s@.subrange(start as int, i as int + 1)) =~= comma_pieces(t));
        }
        i = i + 1;
    }
    let last = s.substring_char(start, n);
    let ghost before = pieces.deep_view();
    pieces.push(String::from_str(last));
    assert(s@.take(n as int) =~= s@);
    assert(pieces.deep_view() =~= before.push(s@.subrange(start as int, n as int)));
    pieces
}

/// The text stored for an optional field: the field, or the empty text when
/// it is absent.
pub fn field_text(o: &Option<String>) -> (s: String)
    ensures
        s@ == option_text(*o),
{
    match o {
        Some(t) => t.clone(),
        None => String::new(),
    }
}

} // verus!
