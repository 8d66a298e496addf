//! The binding table as a mathematical object: an ordered list of bindings
//! folded into a map from (mode, key) to command, where a later binding of a
//! pair replaces an earlier one.

use crate::action::{Action, Mode};
use crate::key::Key;
use vstd::prelude::*;

verus! {

/// One association of the table: in `mode`, `key` stands for `action`.
#[derive(Debug, Copy, Clone, Hash, PartialEq, Eq, Structural)]
pub struct Binding {
    pub mode: Mode,
    pub key: Key,
    pub action: Action,
}

impl Binding {
    /// Whether this binding is the one for `key` in `mode`.
    pub open spec fn binds(self, mode: Mode, key: Key) -> bool {
        self.mode == mode && self.key == key
    }
}

/// The table that results from applying `bindings` in order to an empty
/// table: where two bindings name the same (mode, key), the later one wins.
pub open spec fn table_of(bindings: Seq<Binding>) -> Map<(Mode, Key), Action>
    decreases bindings.len(),
{
    if bindings.len() == 0 {
        Map::empty()
    } else {
        let last = bindings.last();
        table_of(bindings.drop_last()).insert((last.mode, last.key), last.action)
    }
}

/// No (mode, key) pair is bound twice in `bindings`.
pub open spec fn distinct_keys(bindings: Seq<Binding>) -> bool {
    forall|i: int, j: int|
        #![trigger bindings[i], bindings[j]]
        0 <= i < j < bindings.len() ==> !bindings[i].binds(bindings[j].mode, bindings[j].key)
}

/// What `table` holds for `key` in `mode`, if anything.
pub open spec fn bound(table: Map<(Mode, Key), Action>, mode: Mode, key: Key) -> Option<Action> {
    if table.contains_key((mode, key)) {
        Some(table[(mode, key)])
    } else {
        None
    }
}

/// The last binding of a pair in the list is the one the table holds.
pub proof fn lemma_last_binding_wins(bindings: Seq<Binding>, i: int)
    requires
        0 <= i < bindings.len(),
        forall|j: int|
            i < j < bindings.len() ==> !(#[trigger] bindings[j]).binds(
                bindings[i].mode,
                bindings[i].key,
            ),
    ensures
        bound(table_of(bindings), bindings[i].mode, bindings[i].key) == Some(bindings[i].action),
    decreases bindings.len(),
{
    if i < bindings.len() - 1 {
        let rest = bindings.drop_last();
        lemma_last_binding_wins(rest, i);
    }
}

/// A pair that no binding of the list names is absent from the table.
pub proof fn lemma_unbound_is_absent(bindings: Seq<Binding>, mode: Mode, key: Key)
    requires
        forall|j: int| 0 <= j < bindings.len() ==> !(#[trigger] bindings[j]).binds(mode, key),
    ensures
        bound(table_of(bindings), mode, key) == None::<Action>,
    decreases bindings.len(),
{
    if bindings.len() > 0 {
        let rest = bindings.drop_last();
        lemma_unbound_is_absent(rest, mode, key);
    }
}

/// Replacing the command of the last binding of a pair changes the table
/// exactly as binding that pair anew does.
pub proof fn lemma_rebind_in_place(bindings: Seq<Binding>, i: int, action: Action)
    requires
        0 <= i < bindings.len(),
        forall|j: int|
            i < j < bindings.len() ==> !(#[trigger] bindings[j]).binds(
                bindings[i].mode,
                bindings[i].key,
            ),
    ensures
        table_of(
            bindings.update(
                i,
                (Binding { mode: bindings[i].mode, key: bindings[i].key, action }),
            ),
        ) == table_of(bindings).insert((bindings[i].mode, bindings[i].key), action),
    decreases bindings.len(),
{
    let entry = Binding { mode: bindings[i].mode, key: bindings[i].key, action };
    let changed = bindings.update(i, entry);
    let rest = bindings.drop_last();
    if i == bindings.len() - 1 {
        assert(changed.drop_last() =~= rest);
    } else {
        lemma_rebind_in_place(rest, i, action);
        assert(changed.drop_last() =~= rest.update(i, entry));
    }
}

/// A list without repeated pairs has as many bindings as its table has pairs.
pub proof fn lemma_table_size(bindings: Seq<Binding>)
    requires
        distinct_keys(bindings),
    ensures
        table_of(bindings).dom().finite(),
        table_of(bindings).dom().len() == bindings.len(),
    decreases bindings.len(),
{
    if bindings.len() > 0 {
        let rest = bindings.drop_last();
        let last = bindings.last();
        lemma_table_size(rest);
        lemma_unbound_is_absent(rest, last.mode, last.key);
    }
}

} // verus!
