//! Splitting the schema script into the statements that are run one by one.
use vstd::prelude::*;
use crate::text::{split, split_on, string_from_chars, trim, trim_chars};

verus! {

/// The statements of a script: the pieces between `;`, trimmed, the empty
/// ones left out, in order.
pub open spec fn statements_of_pieces(pieces: Seq<Seq<char>>) -> Seq<Seq<char>>
    decreases pieces.len(),
{
    if pieces.len() == 0 {
        Seq::empty()
    } else {
        let rest = statements_of_pieces(pieces.drop_last());
        let t = trim(pieces.last());
        if t.len() == 0 { rest } else { rest.push(t) }
    }
}

/// The statements of a schema script, as they are run.
pub open spec fn statements_of(sql: Seq<char>) -> Seq<Seq<char>> {
    statements_of_pieces(split_on(sql, ';'))
}

/// The statements of a schema script: split at `;`, trimmed, empty ones
/// skipped.
pub fn migration_statements(sql: &str) -> (res: Vec<String>)
    ensures
        res@.map_values(|s: String| s@) == statements_of(sql@),
{
    let pieces = split(sql, ';');
    let ghost ps = split_on(sql@, ';');
    let mut res: Vec<String> = Vec::new();
    let mut i: usize = 0;
    assert(ps.subrange(0, 0) =~= Seq::<Seq<char>>::empty());
    assert(res@.map_values(|s: String| s@) =~= Seq::<Seq<char>>::empty());
    while i < pieces.len()
        invariant
            pieces@.len() == ps.len(),
            forall|k: int| 0 <= k < pieces@.len() ==> #[trigger] pieces@[k]@ == ps[k],
            i <= pieces@.len(),
            res@.map_values(|s: String| s@) == statements_of_pieces(ps.subrange(0, i as int)),
        decreases pieces@.len() - i,
    {
        assert(ps.subrange(0, i + 1).drop_last() =~= ps.subrange(0, i as int));
        assert(ps.subrange(0, i + 1).last() == pieces@[i as int]@);
        let t = trim_chars(pieces[i].as_slice());
        if t.len() > 0 {
            let ghost before = res@.map_values(|s: String| s@);
            res.push(string_from_chars(t.as_slice()));
            assert(res@.map_values(|s: String| s@) =~= before.push(t@));
        }
        i = i + 1;
    }
    assert(ps.subrange(0, pieces@.len() as int) =~= ps);
    res
}

} // verus!
