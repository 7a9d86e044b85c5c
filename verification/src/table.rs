//! The table from register codes to addresses in the register file, kept in
//! a hash map.

use vstd::prelude::*;

verus! {

/// A hash map from one-byte register codes to byte addresses.
#[verifier::external_body]
pub struct RegisterTable {
    inner: hashbrown::HashMap<u8, u64>,
}

/// The entries of a table: which codes it holds, and the address of each.
pub uninterp spec fn table_entries(table: RegisterTable) -> Map<u8, u64>;

/// The entries of a table that holds nothing.
pub open spec fn no_entries() -> Map<u8, u64> {
    Map::empty()
}

/// Calls `hashbrown::HashMap::new`: the new map holds no entry.
#[verifier::external_body]
pub(crate) fn table_new() -> (made: RegisterTable)
    ensures
        table_entries(made) == no_entries(),
{
    RegisterTable { inner: hashbrown::HashMap::new() }
}

/// Calls `hashbrown::HashMap::insert`: afterwards the map holds `value` under
/// `code` and every other entry as before; the value held under `code`
/// before, if any, is returned.
#[verifier::external_body]
pub(crate) fn table_insert(table: &mut RegisterTable, code: u8, value: u64) -> (previous: Option<u64>)
    ensures
        table_entries(*final(table)) == table_entries(*old(table)).insert(code, value),
        previous == if table_entries(*old(table)).dom().contains(code) {
            Some(table_entries(*old(table))[code])
        } else {
            None
        },
{
    table.inner.insert(code, value)
}

/// Calls `hashbrown::HashMap::get`: the value held under `code`, if the map
/// holds one.
#[verifier::external_body]
pub(crate) fn table_get(table: &RegisterTable, code: u8) -> (value: Option<u64>)
    ensures
        value == if table_entries(*table).dom().contains(code) {
            Some(table_entries(*table)[code])
        } else {
            None
        },
{
    table.inner.get(&code).copied()
}

} // verus!
