//! The list of files a run is given, as one comma-separated argument.

use vstd::prelude::*;

verus! {

/// The pieces of `s` that its commas separate, in order. There is always at
/// least one piece, and a piece may be empty.
pub open spec fn split_commas(s: Seq<char>) -> Seq<Seq<char>>
    decreases s.len(),
{
    if s.len() == 0 {
        seq![Seq::<char>::empty()]
    } else {
        let before = split_commas(s.drop_last());
        if s.last() == ',' {
            before.push(Seq::<char>::empty())
        } else {
            before.drop_last().push(before.last().push(s.last()))
        }
    }
}

/// The pieces written out one after another with a comma between neighbours.
pub open spec fn join_commas(pieces: Seq<Seq<char>>) -> Seq<char>
    decreases pieces.len(),
{
    if pieces.len() == 0 {
        Seq::<char>::empty()
    } else if pieces.len() == 1 {
        pieces[0]
    } else {
        join_commas(pieces.drop_last()) + seq![','] + pieces.last()
    }
}

/// Splitting loses nothing and leaves no comma behind: the pieces of `s`,
/// joined by commas, are `s` again, and no piece holds a comma.
pub proof fn split_commas_rejoins(s: Seq<char>)
    ensures
        split_commas(s).len() >= 1,
        join_commas(split_commas(s)) == s,
        forall|i: int, j: int|
            0 <= i < split_commas(s).len() && 0 <= j < split_commas(s)[i].len()
                ==> split_commas(s)[i][j] != ',',
    decreases s.len(),
{
    if s.len() > 0 {
        let shorter = s.drop_last();
        let before = split_commas(shorter);
        split_commas_rejoins(shorter);
        assert(s =~= shorter.push(s.last()));
        if s.last() == ',' {
            let pieces = before.push(Seq::<char>::empty());
            assert(pieces.drop_last() =~= before);
            assert(join_commas(pieces) =~= s);
        } else {
            let grown = before.last().push(s.last());
            let pieces = before.drop_last().push(grown);
            assert(pieces.drop_last() =~= before.drop_last());
            assert(join_commas(pieces) =~= s);
        }
    }
}

/// The paths named by the argument `files`: its pieces between commas.
pub fn split_paths(files: &str) -> (paths: Vec<String>)
    ensures
        paths.deep_view() == split_commas(files@),
{
    let n = files.unicode_len();
    let mut paths: Vec<String> = Vec::new();
    let mut start: usize = 0;
    let mut i: usize = 0;
    assert(files@.take(0) =~= Seq::<char>::empty());
    for c in it: files.chars()
        invariant
            n == files@.len(),
            it.seq() == files@,
            i == it.index(),
            start <= i <= n,
            split_commas(files@.take(i as int)) == paths.deep_view().push(
                files@.subrange(start as int, i as int),
            ),
    {
        proof {
            let upto = files@.take(i + 1);
            assert(upto.drop_last() =~= files@.take(i as int));
            assert(upto.last() == c);
            let before = split_commas(files@.take(i as int));
            assert(before.drop_last() =~= paths.deep_view());
            assert(before.last().push(c) =~= files@.subrange(start as int, i + 1));
        }
        if c == ',' {
            let ghost earlier = paths.deep_view();
            let ghost from = start;
            paths.push(files.substring_char(start, i).to_owned());
            start = i + 1;
            proof {
                assert(paths.deep_view() =~= earlier.push(files@.subrange(from as int, i as int)));
                assert(files@.subrange(start as int, i + 1) =~= Seq::<char>::empty());
            }
        }
        i = i + 1;
    }
    let ghost earlier = paths.deep_view();
    paths.push(files.substring_char(start, n).to_owned());
    proof {
        assert(files@.take(n as int) =~= files@);
        assert(paths.deep_view() =~= earlier.push(files@.subrange(start as int, n as int)));
    }
    paths
}

} // verus!
