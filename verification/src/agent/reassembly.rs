//! What the table of tool calls holds, said without reference to how it is
//! built: for every fragment index that occurred, one call, made of the
//! first id and the first name supplied for that index and of the argument
//! pieces for that index in arrival order; and the calls in ascending order
//! of index.

use crate::agent::aggregator::{
    absorb_piece, absorb_pieces, ascending, entry, lemma_slot, lemma_slot_is, slot, FragmentView,
};
use crate::api::deepseek::StreamToolCallView;
use vstd::prelude::*;

verus! {

/// Whether some fragment among `pieces` belongs to the call at `index`.
pub open spec fn mentions(pieces: Seq<StreamToolCallView>, index: int) -> bool {
    exists|i: int| 0 <= i < pieces.len() && (#[trigger] pieces[i]).index == index
}

/// The id of the first fragment for `index` that supplies one.
pub open spec fn first_id(pieces: Seq<StreamToolCallView>, index: int) -> Option<Seq<char>>
    decreases pieces.len(),
{
    if pieces.len() == 0 {
        None
    } else {
        let earlier = first_id(pieces.drop_last(), index);
        if earlier is Some {
            earlier
        } else if pieces.last().index == index {
            pieces.last().id
        } else {
            None
        }
    }
}

/// The name of the first fragment for `index` that supplies one.
pub open spec fn first_name(pieces: Seq<StreamToolCallView>, index: int) -> Option<Seq<char>>
    decreases pieces.len(),
{
    if pieces.len() == 0 {
        None
    } else {
        let earlier = first_name(pieces.drop_last(), index);
        if earlier is Some {
            earlier
        } else if pieces.last().index == index {
            pieces.last().name()
        } else {
            None
        }
    }
}

/// The argument pieces of the fragments for `index`, joined in arrival order.
pub open spec fn joined_arguments(pieces: Seq<StreamToolCallView>, index: int) -> Seq<char>
    decreases pieces.len(),
{
    if pieces.len() == 0 {
        Seq::empty()
    } else {
        let earlier = joined_arguments(pieces.drop_last(), index);
        if pieces.last().index == index && pieces.last().arguments() is Some {
            earlier + pieces.last().arguments().unwrap()
        } else {
            earlier
        }
    }
}

/// The call at `index` as the fragments `pieces` describe it.
pub open spec fn reassembled(pieces: Seq<StreamToolCallView>, index: int) -> FragmentView {
    FragmentView {
        index,
        id: first_id(pieces, index),
        name: first_name(pieces, index),
        arguments: joined_arguments(pieces, index),
    }
}

/// Fragments that do not mention an index say nothing of its call.
pub proof fn lemma_unmentioned(pieces: Seq<StreamToolCallView>, index: int)
    requires
        !mentions(pieces, index),
    ensures
        reassembled(pieces, index) == FragmentView::fresh(index),
    decreases pieces.len(),
{
    if pieces.len() > 0 {
        let earlier = pieces.drop_last();
        assert(pieces.last() == pieces[pieces.len() - 1]);
        assert forall|i: int| 0 <= i < earlier.len() implies (#[trigger] earlier[i]).index
            != index by {
            assert(earlier[i] == pieces[i]);
        }
        lemma_unmentioned(earlier, index);
    }
}

/// Absorbing a fragment keeps the table in ascending order of index.
pub proof fn lemma_absorb_keeps_order(table: Seq<FragmentView>, piece: StreamToolCallView)
    requires
        ascending(table),
    ensures
        ascending(absorb_piece(table, piece)),
{
    let at = slot(table, piece.index);
    lemma_slot(table, piece.index);
    let after = absorb_piece(table, piece);
    if at < table.len() && table[at].index == piece.index {
        assert forall|i: int, j: int| 0 <= i < j < after.len() implies (#[trigger] after[i]).index
            < (#[trigger] after[j]).index by {
            assert(after[i].index == table[i].index);
            assert(after[j].index == table[j].index);
        }
    } else {
        let created = FragmentView::fresh(piece.index).absorb(piece);
        table.insert_ensures(at, created);
        assert forall|i: int, j: int| 0 <= i < j < after.len() implies (#[trigger] after[i]).index
            < (#[trigger] after[j]).index by {
            lemma_inserted_index(table, at, created, i);
            lemma_inserted_index(table, at, created, j);
            if i < at && j > at {
                assert(table[i].index < piece.index);
                assert(table[at].index >= piece.index);
                if j - 1 > at {
                    assert(table[at].index < table[j - 1].index);
                }
            } else if i == at {
                assert(table[at].index >= piece.index);
                if j - 1 > at {
                    assert(table[at].index < table[j - 1].index);
                }
            } else if j == at {
                assert(table[i].index < piece.index);
            } else if i < at {
                assert(table[i].index < table[j].index);
            } else {
                assert(table[i - 1].index < table[j - 1].index);
            }
        }
    }
}

/// Where the entries of a table stand after an insertion.
proof fn lemma_inserted_index(
    table: Seq<FragmentView>,
    at: int,
    created: FragmentView,
    i: int,
)
    requires
        0 <= at <= table.len(),
        0 <= i <= table.len(),
    ensures
        table.insert(at, created)[i] == if i < at {
            table[i]
        } else if i == at {
            created
        } else {
            table[i - 1]
        },
{
    table.insert_ensures(at, created);
    if i > at {
        assert(table.insert(at, created)[(i - 1) + 1] == table[i - 1]);
    }
}

/// Absorbing any number of fragments keeps the table in ascending order.
pub proof fn lemma_order_is_kept(table: Seq<FragmentView>, pieces: Seq<StreamToolCallView>)
    requires
        ascending(table),
    ensures
        ascending(absorb_pieces(table, pieces)),
    decreases pieces.len(),
{
    if pieces.len() > 0 {
        lemma_order_is_kept(table, pieces.drop_last());
        lemma_absorb_keeps_order(absorb_pieces(table, pieces.drop_last()), pieces.last());
    }
}

/// In a table in ascending order, each entry is the entry of its index.
pub proof fn lemma_entry_of_member(table: Seq<FragmentView>, k: int)
    requires
        ascending(table),
        0 <= k < table.len(),
    ensures
        slot(table, table[k].index) == k,
        entry(table, table[k].index) == Some(table[k]),
{
    assert forall|i: int| 0 <= i < k implies (#[trigger] table[i]).index < table[k].index by {}
    lemma_slot_is(table, table[k].index, k);
}

/// What absorbing one fragment does to the entry of each index: the entry of
/// the fragment's own index takes the fragment in, being created if it was
/// missing; every other entry stays as it was.
pub proof fn lemma_entry_after_piece(
    table: Seq<FragmentView>,
    piece: StreamToolCallView,
    index: int,
)
    requires
        ascending(table),
    ensures
        entry(absorb_piece(table, piece), index) == if index == piece.index {
            Some(
                match entry(table, index) {
                    Some(fragment) => fragment.absorb(piece),
                    None => FragmentView::fresh(index).absorb(piece),
                },
            )
        } else {
            entry(table, index)
        },
{
    let at = slot(table, piece.index);
    let after = absorb_piece(table, piece);
    lemma_slot(table, piece.index);
    lemma_slot(table, index);
    lemma_absorb_keeps_order(table, piece);
    let here = slot(table, index);
    if at < table.len() && table[at].index == piece.index {
        // The table keeps its indices, so every slot stays where it was.
        assert forall|k: int| 0 <= k < here implies (#[trigger] after[k]).index < index by {
            assert(after[k].index == table[k].index);
        }
        if here < table.len() {
            assert(after[here].index == table[here].index);
        }
        lemma_slot_is(after, index, here);
    } else {
        let created = FragmentView::fresh(piece.index).absorb(piece);
        table.insert_ensures(at, created);
        if index == piece.index {
            assert forall|k: int| 0 <= k < at implies (#[trigger] after[k]).index < index by {
                lemma_inserted_index(table, at, created, k);
            }
            lemma_inserted_index(table, at, created, at);
            lemma_slot_is(after, index, at);
        } else if index < piece.index {
            // The entry of `index`, if any, stands before the new one.
            assert(here <= at) by {
                if here > at {
                    assert(table[at].index < index);
                }
            }
            assert forall|k: int| 0 <= k < here implies (#[trigger] after[k]).index < index by {
                lemma_inserted_index(table, at, created, k);
            }
            lemma_inserted_index(table, at, created, here);
            lemma_slot_is(after, index, here);
        } else {
            // The entry of `index`, if any, stands after the new one.
            assert(here >= at) by {
                if here < at {
                    assert(table[here].index < piece.index);
                }
            }
            assert forall|k: int| 0 <= k < here + 1 implies (#[trigger] after[k]).index
                < index by {
                lemma_inserted_index(table, at, created, k);
                if k > at {
                    assert(table[k - 1].index < index);
                }
            }
            if here < table.len() {
                lemma_inserted_index(table, at, created, here + 1);
            }
            lemma_slot_is(after, index, here + 1);
        }
    }
}

/// The table built from the fragments `pieces` holds, for an index that they
/// mention, the call that they describe, and no entry for any other index.
pub proof fn lemma_entry_is_reassembled(pieces: Seq<StreamToolCallView>, index: int)
    ensures
        entry(absorb_pieces(Seq::empty(), pieces), index) == if mentions(pieces, index) {
            Some(reassembled(pieces, index))
        } else {
            None
        },
    decreases pieces.len(),
{
    if pieces.len() > 0 {
        let earlier = pieces.drop_last();
        let last = pieces.last();
        let table = absorb_pieces(Seq::empty(), earlier);
        lemma_entry_is_reassembled(earlier, index);
        lemma_order_is_kept(Seq::empty(), earlier);
        lemma_entry_after_piece(table, last, index);
        assert(last == pieces[pieces.len() - 1]);
        if mentions(earlier, index) {
            let i = choose|i: int| 0 <= i < earlier.len() && (#[trigger] earlier[i]).index == index;
            assert(pieces[i] == earlier[i]);
        } else {
            lemma_unmentioned(earlier, index);
            if last.index != index {
                assert forall|i: int| 0 <= i < pieces.len() implies (#[trigger] pieces[i]).index
                    != index by {
                    if i < earlier.len() {
                        assert(pieces[i] == earlier[i]);
                    }
                }
            }
        }
        if last.index == index {
            assert(reassembled(pieces, index).arguments =~= match entry(table, index) {
                Some(fragment) => fragment.absorb(last),
                None => FragmentView::fresh(index).absorb(last),
            }.arguments);
        }
    }
}

/// Reassembly does not depend on how the fragments of different calls
/// interleave: the table built from `pieces` is in ascending order of index,
/// holds an entry for exactly the indices that `pieces` mention, and each
/// entry is the call that the fragments for its index describe, with their
/// argument pieces joined in arrival order.
pub proof fn lemma_reassembly(pieces: Seq<StreamToolCallView>)
    ensures
        ascending(absorb_pieces(Seq::empty(), pieces)),
        forall|k: int|
            #![trigger absorb_pieces(Seq::empty(), pieces)[k]]
            0 <= k < absorb_pieces(Seq::empty(), pieces).len() ==> {
                let found = absorb_pieces(Seq::empty(), pieces)[k];
                mentions(pieces, found.index) && found == reassembled(pieces, found.index)
            },
        forall|i: int|
            #![trigger pieces[i]]
            0 <= i < pieces.len() ==> entry(absorb_pieces(Seq::empty(), pieces), pieces[i].index)
                == Some(reassembled(pieces, pieces[i].index)),
{
    let table = absorb_pieces(Seq::empty(), pieces);
    lemma_order_is_kept(Seq::empty(), pieces);
    assert forall|k: int| #![trigger table[k]] 0 <= k < table.len() implies {
        let found = table[k];
        mentions(pieces, found.index) && found == reassembled(pieces, found.index)
    } by {
        lemma_entry_of_member(table, k);
        lemma_entry_is_reassembled(pieces, table[k].index);
    }
    assert forall|i: int| #![trigger pieces[i]] 0 <= i < pieces.len() implies entry(
        table,
        pieces[i].index,
    ) == Some(reassembled(pieces, pieces[i].index)) by {
        lemma_entry_is_reassembled(pieces, pieces[i].index);
    }
}

} // verus!
