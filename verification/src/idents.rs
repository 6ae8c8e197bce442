//! Lists of identifiers of the input, compared by their text.

use crate::token::{Tok, ident_string, ident_text};
use vstd::prelude::*;

verus! {

/// One of the identifiers at the positions `ps` reads `name`.
pub open spec fn has_name(toks: Seq<Tok>, ps: Seq<usize>, name: Seq<char>) -> bool {
    exists|k: int| 0 <= k < ps.len() && #[trigger] ident_text(toks, ps[k] as int) == name
}

pub fn has_name_exec(toks: &Vec<Tok>, ps: &Vec<usize>, name: &str) -> (r: bool)
    ensures
        r == has_name(toks@, ps@, name@),
{
    let n = String::from_str(name);
    let mut k: usize = 0;
    while k < ps.len()
        invariant
            k <= ps@.len(),
            n@ == name@,
            forall|m: int| 0 <= m < k ==> #[trigger] ident_text(toks@, ps@[m] as int) != name@,
        decreases ps@.len() - k,
    {
        if ident_string(toks, ps[k]) == n {
            assert(ident_text(toks@, ps@[k as int] as int) == name@);
            return true;
        }
        k = k + 1;
    }
    false
}

/// `acc` with `p` added, unless an identifier of the same text is in it.
pub open spec fn add_name(toks: Seq<Tok>, acc: Seq<usize>, p: usize) -> Seq<usize> {
    if has_name(toks, acc, ident_text(toks, p as int)) {
        acc
    } else {
        acc.push(p)
    }
}

/// `acc` with the identifiers `ps` added one by one, each unless its text is
/// already there.
pub open spec fn add_names(toks: Seq<Tok>, acc: Seq<usize>, ps: Seq<usize>) -> Seq<usize>
    decreases ps.len(),
{
    if ps.len() == 0 {
        acc
    } else {
        add_names(toks, add_name(toks, acc, ps[0]), ps.drop_first())
    }
}

pub fn add_names_exec(toks: &Vec<Tok>, acc: &mut Vec<usize>, ps: &Vec<usize>)
    ensures
        final(acc)@ == add_names(toks@, old(acc)@, ps@),
{
    let mut k: usize = 0;
    assert(ps@.skip(0) =~= ps@);
    while k < ps.len()
        invariant
            k <= ps@.len(),
            add_names(toks@, old(acc)@, ps@) == add_names(toks@, acc@, ps@.skip(k as int)),
        decreases ps@.len() - k,
    {
        let p = ps[k];
        let text = ident_string(toks, p);
        let present = has_name_exec(toks, acc, text.as_str());
        if !present {
            acc.push(p);
        }
        assert(ps@.skip(k as int).drop_first() =~= ps@.skip(k + 1));
        k = k + 1;
    }
}

/// No two identifiers at the positions `ps` read the same.
pub open spec fn distinct_names(toks: Seq<Tok>, ps: Seq<usize>) -> bool {
    forall|a: int, b: int|
        0 <= a < b < ps.len() ==> ident_text(toks, #[trigger] ps[a] as int) != ident_text(
            toks,
            #[trigger] ps[b] as int,
        )
}

/// Adding names keeps them distinct, and every name added is among them.
pub proof fn lemma_add_names(toks: Seq<Tok>, acc: Seq<usize>, ps: Seq<usize>)
    requires
        distinct_names(toks, acc),
    ensures
        distinct_names(toks, add_names(toks, acc, ps)),
        forall|k: int|
            0 <= k < acc.len() + ps.len() ==> has_name(
                toks,
                add_names(toks, acc, ps),
                ident_text(toks, (#[trigger] (acc + ps)[k]) as int),
            ),
    decreases ps.len(),
{
    if ps.len() == 0 {
        assert forall|k: int| 0 <= k < acc.len() + ps.len() implies has_name(
            toks,
            add_names(toks, acc, ps),
            ident_text(toks, (#[trigger] (acc + ps)[k]) as int),
        ) by {
            assert((acc + ps)[k] == acc[k]);
        }
    } else {
        let acc2 = add_name(toks, acc, ps[0]);
        if !has_name(toks, acc, ident_text(toks, ps[0] as int)) {
            assert forall|a: int, b: int| 0 <= a < b < acc2.len() implies ident_text(
                toks,
                #[trigger] acc2[a] as int,
            ) != ident_text(toks, #[trigger] acc2[b] as int) by {
                if b == acc.len() {
                    assert(acc2[a] == acc[a]);
                }
            }
        }
        lemma_add_names(toks, acc2, ps.drop_first());
        let res = add_names(toks, acc, ps);
        assert forall|k: int| 0 <= k < acc.len() + ps.len() implies has_name(
            toks,
            res,
            ident_text(toks, (#[trigger] (acc + ps)[k]) as int),
        ) by {
            if k < acc.len() {
                assert((acc + ps)[k] == acc[k]);
                assert(acc2[k] == acc[k]);
                assert((acc2 + ps.drop_first())[k] == acc2[k]);
            } else if k == acc.len() {
                assert((acc + ps)[k] == ps[0]);
                if has_name(toks, acc, ident_text(toks, ps[0] as int)) {
                    let w = choose|m: int|
                        0 <= m < acc.len() && #[trigger] ident_text(toks, acc[m] as int)
                            == ident_text(toks, ps[0] as int);
                    assert((acc2 + ps.drop_first())[w] == acc[w]);
                } else {
                    assert(acc2[acc.len() as int] == ps[0]);
                    assert((acc2 + ps.drop_first())[acc.len() as int] == ps[0]);
                }
            } else {
                assert((acc + ps)[k] == ps[k - acc.len()]);
                let k2 = acc2.len() + (k - acc.len() - 1);
                assert((acc2 + ps.drop_first())[k2] == ps.drop_first()[k - acc.len() - 1]);
            }
        }
    }
}

} // verus!
