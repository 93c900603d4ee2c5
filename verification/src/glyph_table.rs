use std::collections::BTreeMap;
use vstd::prelude::*;

verus! {

/// Records `index` for the code point `code`, over whatever stood there.
pub(crate) fn register(table: &mut BTreeMap<u32, u32>, code: u32, index: u32)
    ensures
        final(table)@ == old(table)@.insert(code, index),
{
    broadcast use vstd::laws_cmp::group_laws_cmp;

    table.insert(code, index);
}

/// The index recorded for the code point `code`, if there is one.
pub(crate) fn find(table: &BTreeMap<u32, u32>, code: u32) -> (index: Option<u32>)
    ensures
        index == if table@.contains_key(code) {
            Some(table@[code])
        } else {
            None::<u32>
        },
{
    broadcast use vstd::laws_cmp::group_laws_cmp;

    match table.get(&code) {
        Some(index) => Some(*index),
        None => None,
    }
}

} // verus!
