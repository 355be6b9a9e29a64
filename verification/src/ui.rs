//! Table descriptions shared by the terminal views: what a table lists,
//! which columns it shows, and the rows it renders.

use vstd::prelude::*;

verus! {

/// What a table lists.
pub enum TableType {
    Album,
    Artist,
    Podcast,
    Playlist,
    Song,
}

/// The role of one column.
#[derive(Clone, Copy, Debug, PartialEq, Eq, Structural)]
pub enum ColumnType {
    Unset,
    Title,
}

impl Default for ColumnType {
    /// A column starts without a role.
    fn default() -> (r: Self)
        ensures
            r == ColumnType::Unset,
    {
        ColumnType::Unset
    }
}

/// One column of a table header.
pub struct TableHeaderItem {
    /// The column's role.
    pub id: ColumnType,
    /// The column's caption.
    pub text: String,
    /// The column's width in cells.
    pub width: u16,
}

/// A table header: the table's kind and its columns in display order.
pub struct TableHeader {
    /// What the table lists.
    pub id: TableType,
    /// The columns, in display order.
    pub items: Vec<TableHeaderItem>,
}

impl TableHeader {
    /// Builds a header from its kind and columns.
    pub fn new(id: TableType, items: Vec<TableHeaderItem>) -> (r: TableHeader)
        ensures
            r.id == id,
            r.items@ == items@,
    {
        TableHeader { id, items }
    }

    /// The position of the first column with the given role, if any.
    pub fn get_index(&self, id: ColumnType) -> (r: Option<usize>)
        ensures
            r matches Some(i) ==> {
                &&& i < self.items@.len()
                &&& self.items@[i as int].id == id
                &&& forall|j: int| 0 <= j < i ==> self.items@[j].id != id
            },
            r is None ==> forall|j: int| 0 <= j < self.items@.len() ==> self.items@[j].id != id,
    {
        let mut i: usize = 0;
        while i < self.items.len()
            invariant
                i <= self.items@.len(),
                forall|j: int| 0 <= j < i ==> self.items@[j].id != id,
            decreases self.items@.len() - i,
        {
            if self.items[i].id == id {
                return Some(i);
            }
            i = i + 1;
        }
        None
    }
}

/// One row of a table.
pub struct TableItem {
    /// The row's resource identifier.
    pub id: String,
    /// The cells, one formatted value per column.
    pub format: Vec<String>,
}

} // verus!
