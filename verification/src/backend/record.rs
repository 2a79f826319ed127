//! Record identifiers of the database, as plain values.

use vstd::prelude::*;
use vstd::string::*;

verus! {

/// A record identifier: the table a record lives in and its key within it.
#[derive(Debug)]
pub struct RecordId {
    pub table: String,
    pub key: String,
}

impl View for RecordId {
    type V = (Seq<char>, Seq<char>);

    open spec fn view(&self) -> (Seq<char>, Seq<char>) {
        (self.table@, self.key@)
    }
}

impl Clone for RecordId {
    fn clone(&self) -> (r: Self)
        ensures
            r@ == self@,
    {
        RecordId { table: self.table.clone(), key: self.key.clone() }
    }
}

impl RecordId {
    /// The identifier of the record with key `key` in table `table`.
    pub fn from_table_key(table: &str, key: String) -> (r: RecordId)
        ensures
            r@ == (table@, key@),
    {
        RecordId { table: String::from_str(table), key }
    }

    /// Whether two identifiers name the same record.
    pub fn same_as(&self, other: &RecordId) -> (b: bool)
        ensures
            b == (self@ == other@),
    {
        self.table == other.table && self.key == other.key
    }
}

} // verus!
