//! Tables: a header row of sortable, resizable columns over a list of rows. Column
//! widths are in whole logical pixels; column keys and row ids are numbers.

use vstd::prelude::*;
use crate::ui::{Class, Context, Handle, NodeView, Role, Tag};
use crate::label::{label_node, Label};
use crate::list::{list_item_node, list_node, List, Selectable};
use crate::resizable_stack::{stack_node, ResizableStack, ResizeStackDirection};

verus! {

/// How a column is sorted.
#[derive(Clone, Copy, PartialEq, Eq, Structural, Debug)]
pub enum TableSortDirection {
    Unsorted,
    Ascending,
    Descending,
}

/// Which directions pressing a column header cycles through.
#[derive(Clone, Copy, PartialEq, Eq, Structural, Debug)]
pub enum TableSortCycle {
    /// Ascending and descending.
    BiState,
    /// Unsorted, ascending and descending.
    TriState,
}

/// The column a table is sorted by, and how.
#[derive(Clone, Copy, PartialEq, Eq, Structural, Debug)]
pub struct TableSortState {
    pub key: u64,
    pub direction: TableSortDirection,
}

/// How the column with key `key` is sorted: as the sort state says for the sorted
/// column, unsorted for every other.
pub open spec fn direction_of(state: Option<TableSortState>, key: u64) -> TableSortDirection {
    match state {
        Some(s) => if s.key == key { s.direction } else { TableSortDirection::Unsorted },
        None => TableSortDirection::Unsorted,
    }
}

/// The direction after the next press on a header.
pub open spec fn next_direction(cycle: TableSortCycle, current: TableSortDirection) -> TableSortDirection {
    match (cycle, current) {
        (TableSortCycle::BiState, TableSortDirection::Ascending) => TableSortDirection::Descending,
        (TableSortCycle::BiState, _) => TableSortDirection::Ascending,
        (TableSortCycle::TriState, TableSortDirection::Unsorted) => TableSortDirection::Ascending,
        (TableSortCycle::TriState, TableSortDirection::Ascending) => TableSortDirection::Descending,
        (TableSortCycle::TriState, TableSortDirection::Descending) => TableSortDirection::Unsorted,
    }
}

/// How the column with key `key` is sorted.
pub fn sort_direction_for_column(state: Option<TableSortState>, key: u64) -> (d: TableSortDirection)
    ensures
        d == direction_of(state, key),
{
    match state {
        Some(s) => if s.key == key { s.direction } else { TableSortDirection::Unsorted },
        None => TableSortDirection::Unsorted,
    }
}

/// The direction after the next press on a header.
pub fn next_sort_direction(cycle: TableSortCycle, current: TableSortDirection) -> (d: TableSortDirection)
    ensures
        d == next_direction(cycle, current),
{
    match (cycle, current) {
        (TableSortCycle::BiState, TableSortDirection::Ascending) => TableSortDirection::Descending,
        (TableSortCycle::BiState, _) => TableSortDirection::Ascending,
        (TableSortCycle::TriState, TableSortDirection::Unsorted) => TableSortDirection::Ascending,
        (TableSortCycle::TriState, TableSortDirection::Ascending) => TableSortDirection::Descending,
        (TableSortCycle::TriState, TableSortDirection::Descending) => TableSortDirection::Unsorted,
    }
}

/// The indicator shown for a sort direction: a caret up, a v down, a dot unsorted.
pub open spec fn indicator(d: TableSortDirection) -> Seq<char> {
    match d {
        TableSortDirection::Ascending => seq!['^'],
        TableSortDirection::Descending => seq!['v'],
        TableSortDirection::Unsorted => seq!['\u{b7}'],
    }
}

/// The indicator shown for a sort direction, computed.
pub fn sort_indicator(d: TableSortDirection) -> (s: String)
    ensures
        s@ == indicator(d),
{
    match d {
        TableSortDirection::Ascending => {
            let s = String::from_str("^");
            proof {
                reveal_strlit("^");
            }
            s
        }
        TableSortDirection::Descending => {
            let s = String::from_str("v");
            proof {
                reveal_strlit("v");
            }
            s
        }
        TableSortDirection::Unsorted => {
            let s = String::from_str("\u{b7}");
            proof {
                reveal_strlit("\u{b7}");
            }
            s
        }
    }
}

/// The header of a column: its title and its sort indicator.
pub struct TableHeader {}

impl TableHeader {
    /// Builds a column header showing `title` and the indicator for `direction`.
    pub fn new(cx: &mut Context, title: String, direction: TableSortDirection) -> (h: Handle<TableHeader>)
        requires
            old(cx)@.len() + 2 < usize::MAX,
        ensures
            h.entity == old(cx)@.len(),
            final(cx).cur() == old(cx).cur(),
            final(cx)@ == old(cx)@.push(NodeView::fresh(Tag::TableHeader, old(cx).cur() as nat))
                .push(label_node(h.entity as nat, title@).class(Class::TableHeaderTitle))
                .push(label_node(h.entity as nat, indicator(direction)).class(Class::TableSortIndicator)),
    {
        let here = cx.current();
        let e = cx.add(Tag::TableHeader);
        cx.set_current(e);
        let t = Label::new(cx, title);
        let i = Label::new(cx, sort_indicator(direction));
        cx.set_current(here);
        cx.add_class(t.entity, Class::TableHeaderTitle);
        cx.add_class(i.entity, Class::TableSortIndicator);
        assert(cx@ =~= old(cx)@.push(NodeView::fresh(Tag::TableHeader, old(cx).cur() as nat))
            .push(label_node(e as nat, title@).class(Class::TableHeaderTitle))
            .push(label_node(e as nat, indicator(direction)).class(Class::TableSortIndicator)));
        Handle { entity: e, view: TableHeader {} }
    }
}

/// One column of a table.
pub struct TableColumn {
    pub key: u64,
    /// The title its header shows.
    pub title: String,
    pub width: u32,
    pub min_width: u32,
    pub sortable: bool,
    pub resizable: bool,
    pub hidden: bool,
}

impl TableColumn {
    /// A column 180 pixels wide, at least 80, sortable, not resizable, shown.
    pub fn new(key: u64, title: String) -> (c: TableColumn)
        ensures
            c.key == key,
            c.title@ == title@,
            c.width == 180,
            c.min_width == 80,
            c.width >= c.min_width,
            c.sortable,
            !c.resizable,
            !c.hidden,
    {
        TableColumn { key, title, width: 180, min_width: 80, sortable: true, resizable: false, hidden: false }
    }

    /// Sets the width, kept at least the minimum width.
    pub fn width(self, width: u32) -> (c: TableColumn)
        ensures
            c.width == if width >= self.min_width { width } else { self.min_width },
            c.width >= c.min_width,
            c.key == self.key,
            c.title@ == self.title@,
            c.min_width == self.min_width,
            c.sortable == self.sortable,
            c.resizable == self.resizable,
            c.hidden == self.hidden,
    {
        let w = if width >= self.min_width { width } else { self.min_width };
        TableColumn { width: w, ..self }
    }

    /// Sets the minimum width, widening the column to it when narrower.
    pub fn min_width(self, min_width: u32) -> (c: TableColumn)
        ensures
            c.min_width == min_width,
            c.width == if self.width >= min_width { self.width } else { min_width },
            c.width >= c.min_width,
            c.key == self.key,
            c.title@ == self.title@,
            c.sortable == self.sortable,
            c.resizable == self.resizable,
            c.hidden == self.hidden,
    {
        let w = if self.width >= min_width { self.width } else { min_width };
        TableColumn { width: w, min_width, ..self }
    }

    /// Sets whether pressing the header sorts by the column.
    pub fn sortable(self, sortable: bool) -> (c: TableColumn)
        ensures
            c.sortable == sortable,
            c.key == self.key,
            c.title@ == self.title@,
            c.width == self.width,
            c.min_width == self.min_width,
            c.resizable == self.resizable,
            c.hidden == self.hidden,
    {
        TableColumn { sortable, ..self }
    }

    /// Sets whether the column can be resized.
    pub fn resizable(self, resizable: bool) -> (c: TableColumn)
        ensures
            c.resizable == resizable,
            c.key == self.key,
            c.title@ == self.title@,
            c.width == self.width,
            c.min_width == self.min_width,
            c.sortable == self.sortable,
            c.hidden == self.hidden,
    {
        TableColumn { resizable, ..self }
    }

    /// Sets whether the column is hidden.
    pub fn hidden(self, hidden: bool) -> (c: TableColumn)
        ensures
            c.hidden == hidden,
            c.key == self.key,
            c.title@ == self.title@,
            c.width == self.width,
            c.min_width == self.min_width,
            c.sortable == self.sortable,
            c.resizable == self.resizable,
    {
        TableColumn { hidden, ..self }
    }

    /// Sets whether the column is hidden, from a value that may change later.
    pub fn hidden_res(self, hidden: bool) -> (c: TableColumn)
        ensures
            c.hidden == hidden,
            c.key == self.key,
            c.title@ == self.title@,
            c.width == self.width,
            c.min_width == self.min_width,
            c.sortable == self.sortable,
            c.resizable == self.resizable,
    {
        self.hidden(hidden)
    }
}

/// The indices of the shown columns among the first `k`, in order.
pub open spec fn visible(cols: Seq<TableColumn>, k: nat) -> Seq<usize>
    decreases k,
{
    if k == 0 {
        Seq::empty()
    } else {
        let v = visible(cols, (k - 1) as nat);
        if !cols[k - 1].hidden { v.push((k - 1) as usize) } else { v }
    }
}

/// Events a table sends itself.
#[derive(Clone, Copy, PartialEq, Eq, Structural, Debug)]
pub enum TableEvent {
    RequestSort(u64, TableSortDirection),
    SelectRow(usize),
}

/// What a table asks for after an event.
#[derive(Clone, Copy, PartialEq, Eq, Structural, Debug)]
pub struct TableResponse {
    /// The key and direction to hand to the sort callback.
    pub on_sort: Option<TableSortState>,
    /// The row id to hand to the row selection callback.
    pub on_row_select: Option<u64>,
}

/// A header row of columns over a list of rows.
pub struct Table {
    /// The id of each row.
    pub rows: Vec<u64>,
    pub columns: Vec<TableColumn>,
    pub sort_state: Option<TableSortState>,
    pub sort_cycle: TableSortCycle,
    pub resizable_columns: bool,
    pub selectable: Selectable,
    pub selection_follows_focus: bool,
    pub selected_row_ids: Vec<u64>,
    pub has_on_sort: bool,
    pub has_on_row_select: bool,
    /// The header cell of each shown column, in order.
    pub header_cells: Vec<usize>,
    /// The column shown in each header cell.
    pub header_columns: Vec<usize>,
    /// The list holding the rows.
    pub body: usize,
    /// The row node of each row.
    pub row_nodes: Vec<usize>,
}

/// The node of a header cell while columns are not resizable: the last shown
/// column's is a plain row, the others' are stacks resized from their right edge.
pub open spec fn header_cell_node(parent: nat, last: bool, sortable: bool) -> NodeView {
    (if last {
        NodeView::fresh(Tag::HStack, parent).with_role(Role::GenericContainer)
    } else {
        stack_node(parent, ResizeStackDirection::Right)
    }).class(Class::TableHeaderCell).toggled(Class::Sortable, sortable).toggled(Class::Resizable, false)
}

/// The node of row `i` of the body.
pub open spec fn row_node(parent: nat, i: int) -> NodeView {
    NodeView::fresh(Tag::HStack, parent).with_role(Role::GenericContainer).class(Class::TableRow)
        .toggled(Class::Odd, i % 2 == 1).toggled(Class::Even, i % 2 == 0)
}

/// The node of a cell of the row at `row`.
pub open spec fn table_cell_node(row: nat) -> NodeView {
    NodeView::fresh(Tag::VStack, row).with_role(Role::GenericContainer).class(Class::TableCell)
}

/// The `n` nodes after the row at `r` are its cells.
pub open spec fn row_cells(s: Seq<NodeView>, r: int, n: nat) -> bool {
    &&& 0 <= r && r + n < s.len()
    &&& forall|m: int| 0 <= m < n ==> #[trigger] s[r + 1 + m] == table_cell_node(r as nat)
}

/// Nodes appended after a row and its cells leave them as they were.
proof fn lemma_row_cells_prefix(s: Seq<NodeView>, t: Seq<NodeView>, r: int, n: nat)
    requires
        row_cells(s, r, n),
        s.len() <= t.len(),
        t.subrange(0, s.len() as int) == s,
    ensures
        row_cells(t, r, n),
{
    assert forall|m: int| 0 <= m < n implies #[trigger] t[r + 1 + m] == table_cell_node(r as nat) by {
        assert(t.subrange(0, s.len() as int)[r + 1 + m] == t[r + 1 + m]);
        assert(s[r + 1 + m] == table_cell_node(r as nat));
    }
}

/// The nodes after header cell `j` of `nv` was built in the header row at `row` for
/// a column titled `title`: the cell (with its resize handle unless it is the last),
/// and inside it the header with its title and an unsorted indicator.
pub open spec fn header_cell_built(s: Seq<NodeView>, row: nat, j: int, nv: int, title: Seq<char>, sortable: bool) -> Seq<NodeView> {
    let c = s.len();
    let last = j == nv - 1;
    let t = if last {
        s.push(header_cell_node(row, true, sortable))
    } else {
        s.push(header_cell_node(row, false, sortable)).push(NodeView::fresh(Tag::ResizeHandle, c))
    };
    let hd = t.len();
    t.push(NodeView::fresh(Tag::TableHeader, c))
        .push(label_node(hd, title).class(Class::TableHeaderTitle))
        .push(label_node(hd, indicator(TableSortDirection::Unsorted)).class(Class::TableSortIndicator))
}

/// The nodes after the first `k` header cells were built.
pub open spec fn header_cells_built(s: Seq<NodeView>, row: nat, cols: Seq<TableColumn>, vis: Seq<usize>, k: nat) -> Seq<NodeView>
    decreases k,
{
    if k == 0 || k > vis.len() {
        s
    } else {
        let c = cols[vis[k - 1] as int];
        header_cell_built(header_cells_built(s, row, cols, vis, (k - 1) as nat), row, k - 1, vis.len() as int, c.title@, c.sortable)
    }
}

/// The nodes after row `i` with `nv` cells was built in list slot `item`.
pub open spec fn row_built(s: Seq<NodeView>, item: nat, i: int, nv: nat) -> Seq<NodeView> {
    let r = s.len();
    s.push(row_node(item, i)) + Seq::new(nv, |k: int| table_cell_node(r))
}

/// The nodes after the first `k` rows were built in the list whose slots start at
/// `first`.
pub open spec fn rows_built(s: Seq<NodeView>, first: nat, nv: nat, k: nat) -> Seq<NodeView>
    decreases k,
{
    if k == 0 { s } else { row_built(rows_built(s, first, nv, (k - 1) as nat), first + (k - 1) as nat, k - 1, nv) }
}

/// The whole tree after a table was built under `parent` after `s`.
pub open spec fn table_nodes(s: Seq<NodeView>, parent: nat, cols: Seq<TableColumn>, n: nat) -> Seq<NodeView> {
    let e = s.len();
    let start = s.push(NodeView::fresh(Tag::Table, parent))
        .push(NodeView::fresh(Tag::HStack, e).with_role(Role::GenericContainer).class(Class::TableHeaderRow));
    let vis = visible(cols, cols.len());
    let headers = header_cells_built(start, e + 1, cols, vis, vis.len());
    let b = headers.len();
    let listed = headers.push(list_node(e).class(Class::TableBody))
        .push(NodeView::fresh(Tag::ScrollView, b))
        + Seq::new(n, |i: int| list_item_node(b + 1, i as usize, None, Set::empty()));
    rows_built(listed, b + 2, vis.len(), n)
}

/// There are no more shown columns than columns.
pub proof fn lemma_visible_len(cols: Seq<TableColumn>, k: nat)
    ensures
        visible(cols, k).len() <= k,
    decreases k,
{
    if k > 0 {
        lemma_visible_len(cols, (k - 1) as nat);
    }
}

/// The shown columns, computed.
fn visible_columns(cols: &Vec<TableColumn>) -> (v: Vec<usize>)
    ensures
        v@ == visible(cols@, cols@.len()),
        forall|j: int| 0 <= j < v@.len() ==> (#[trigger] v@[j]) < cols@.len(),
{
    let mut v: Vec<usize> = Vec::new();
    let mut k: usize = 0;
    while k < cols.len()
        invariant
            0 <= k <= cols@.len(),
            v@ == visible(cols@, k as nat),
            forall|j: int| 0 <= j < v@.len() ==> (#[trigger] v@[j]) < k,
        decreases cols@.len() - k,
    {
        if !cols[k].hidden {
            v.push(k);
        }
        k = k + 1;
    }
    v
}

impl Table {
    /// Builds a table over rows with the given ids and the given columns, unsorted,
    /// bi-state, with nothing selectable: a header row with a cell and a header for
    /// each shown column, and a list of rows, each with one cell per shown column.
    pub fn new(cx: &mut Context, rows: Vec<u64>, columns: Vec<TableColumn>) -> (h: Handle<Table>)
        requires
            old(cx)@.len() + 5 * columns@.len() + (columns@.len() + 2) * rows@.len() + 10 < usize::MAX,
        ensures
            h.entity == old(cx)@.len(),
            h.view.rows@ == rows@,
            h.view.columns@ == columns@,
            h.view.sort_state is None,
            h.view.sort_cycle == TableSortCycle::BiState,
            !h.view.resizable_columns,
            h.view.selectable == Selectable::Disabled,
            !h.view.selection_follows_focus,
            h.view.selected_row_ids@.len() == 0,
            !h.view.has_on_sort,
            !h.view.has_on_row_select,
            h.view.header_columns@ == visible(columns@, columns@.len()),
            h.view.header_cells@.len() == h.view.header_columns@.len(),
            h.view.row_nodes@.len() == rows@.len(),
            final(cx).cur() == old(cx).cur(),
            final(cx)@.subrange(0, old(cx)@.len() as int) == old(cx)@,
            final(cx)@[h.entity as int] == NodeView::fresh(Tag::Table, old(cx).cur() as nat),
            final(cx)@[h.entity + 1] == NodeView::fresh(Tag::HStack, h.entity as nat).with_role(Role::GenericContainer)
                .class(Class::TableHeaderRow),
            forall|j: int| 0 <= j < h.view.header_cells@.len() ==> {
                let c = #[trigger] h.view.header_cells@[j] as int;
                &&& h.entity < c < final(cx)@.len()
                &&& final(cx)@[c] == header_cell_node((h.entity + 1) as nat, j == h.view.header_cells@.len() - 1,
                    columns@[h.view.header_columns@[j] as int].sortable)
            },
            h.entity < h.view.body < final(cx)@.len(),
            final(cx)@[h.view.body as int].classes.contains(Class::TableBody),
            forall|i: int| 0 <= i < rows@.len() ==> {
                let r = #[trigger] h.view.row_nodes@[i] as int;
                &&& h.view.body < r < final(cx)@.len()
                &&& final(cx)@[r] == row_node((h.view.body + 2 + i) as nat, i)
                &&& row_cells(final(cx)@, r, h.view.header_columns@.len())
            },
            final(cx)@ == table_nodes(old(cx)@, old(cx).cur() as nat, columns@, rows@.len()),
    {
        let here = cx.current();
        let e = cx.add(Tag::Table);
        let header_row = cx.add_child(e, Tag::HStack);
        cx.set_role(header_row, Role::GenericContainer);
        cx.add_class(header_row, Class::TableHeaderRow);
        let vis = visible_columns(&columns);
        let nv = vis.len();
        proof {
            lemma_visible_len(columns@, columns@.len());
            assert((columns@.len() + 2) * rows@.len() >= 2 * rows@.len()) by (nonlinear_arith);
        }
        let mut cells: Vec<usize> = Vec::new();
        let mut j: usize = 0;
        let ghost start = cx@;
        assert(start.subrange(0, old(cx)@.len() as int) =~= old(cx)@);
        assert(start[e as int] == NodeView::fresh(Tag::Table, old(cx).cur() as nat));
        assert(start[e + 1] == NodeView::fresh(Tag::HStack, e as nat).with_role(Role::GenericContainer).class(Class::TableHeaderRow));
        assert(start =~= old(cx)@.push(NodeView::fresh(Tag::Table, old(cx).cur() as nat))
            .push(NodeView::fresh(Tag::HStack, e as nat).with_role(Role::GenericContainer).class(Class::TableHeaderRow)));
        while j < nv
            invariant
                0 <= j <= nv,
                nv == vis@.len(),
                vis@ == visible(columns@, columns@.len()),
                forall|k: int| 0 <= k < vis@.len() ==> (#[trigger] vis@[k]) < columns@.len(),
                vis@.len() <= columns@.len(),
                e == old(cx)@.len(),
                header_row == e + 1,
                cx.cur() == here,
                here == old(cx).cur(),
                (here as int) < old(cx)@.len(),
                (columns@.len() + 2) * rows@.len() >= 2 * rows@.len(),
                start.len() <= cx@.len() <= start.len() + 5 * j,
                start.len() == e + 2,
                old(cx)@.len() + 5 * columns@.len() + (columns@.len() + 2) * rows@.len() + 10 < usize::MAX,
                cx@.subrange(0, start.len() as int) == start,
                cells@.len() == j,
                cx@ == header_cells_built(start, header_row as nat, columns@, vis@, j as nat),
                forall|k: int| 0 <= k < j ==> {
                    let c = #[trigger] cells@[k] as int;
                    &&& header_row < c < cx@.len()
                    &&& cx@[c] == header_cell_node(header_row as nat, k == nv - 1, columns@[vis@[k] as int].sortable)
                },
            decreases nv - j,
        {
            let col = vis[j];
            let last = j + 1 == nv;
            let ghost before = cx@;
            cx.set_current(header_row);
            let cell = if last {
                let c = cx.add_with_role(Tag::HStack, Role::GenericContainer);
                c
            } else {
                let c = ResizableStack::new(cx, ResizeStackDirection::Right);
                c.entity
            };
            cx.add_class(cell, Class::TableHeaderCell);
            cx.toggle_class(cell, Class::Sortable, columns[col].sortable);
            cx.toggle_class(cell, Class::Resizable, false);
            cx.set_current(cell);
            let _header = TableHeader::new(cx, columns[col].title.clone(), TableSortDirection::Unsorted);
            cx.set_current(here);
            proof {
                assert(cx@ =~= header_cell_built(before, header_row as nat, j as int, nv as int,
                    columns@[vis@[j as int] as int].title@, columns@[vis@[j as int] as int].sortable));
                assert(cx@[cell as int] == header_cell_node(header_row as nat, last, columns@[vis@[j as int] as int].sortable));
                assert forall|k: int| 0 <= k < j implies #[trigger] cx@[cells@[k] as int] == before[cells@[k] as int] by {}
                assert(cx@.subrange(0, start.len() as int) =~= before.subrange(0, start.len() as int));
            }
            cells.push(cell);
            j = j + 1;
        }
        let n = rows.len();
        let ghost headers_done = cx@;
        cx.set_current(e);
        let list = List::new(cx, n);
        cx.set_current(here);
        cx.add_class(list.entity, Class::TableBody);
        let body = list.entity;
        let ghost after_list = cx@;
        proof {
            assert(headers_done.subrange(0, start.len() as int)[e as int] == headers_done[e as int]);
            assert(headers_done.subrange(0, start.len() as int)[e + 1] == headers_done[e + 1]);
            assert(after_list[e as int] == headers_done[e as int]);
            assert(after_list[e + 1] == headers_done[e + 1]);
            assert(after_list[e as int] == NodeView::fresh(Tag::Table, old(cx).cur() as nat));
            assert(headers_done == header_cells_built(start, (e + 1) as nat, columns@, vis@, nv as nat));
            assert(after_list =~= headers_done.push(list_node(e as nat).class(Class::TableBody))
                .push(NodeView::fresh(Tag::ScrollView, body as nat))
                + Seq::new(n as nat, |x: int| list_item_node((body + 1) as nat, x as usize, None, Set::empty())));
        }
        proof {
            assert((nv + 1) * n + n <= (columns@.len() + 2) * rows@.len()) by (nonlinear_arith)
                requires nv <= columns@.len(), n == rows@.len();
        }
        let mut row_nodes: Vec<usize> = Vec::new();
        let mut i: usize = 0;
        while i < n
            invariant
                0 <= i <= n,
                n == rows@.len(),
                nv == vis@.len(),
                nv <= columns@.len(),
                e == old(cx)@.len(),
                e < body,
                body + 2 + n <= after_list.len(),
                old(cx)@.len() + 5 * columns@.len() + (columns@.len() + 2) * rows@.len() + 10 < usize::MAX,
                after_list.len() <= e + 2 + 5 * nv + n + 3,
                after_list.len() <= cx@.len() <= after_list.len() + (nv + 1) * i,
                (nv + 1) * n + n <= (columns@.len() + 2) * rows@.len(),
                cx.cur() == here,
                here == old(cx).cur(),
                (here as int) < old(cx)@.len(),
                cx@.subrange(0, after_list.len() as int) == after_list,
                cx@ == rows_built(after_list, (body + 2) as nat, nv as nat, i as nat),
                row_nodes@.len() == i,
                forall|k: int| 0 <= k < i ==> {
                    let r = #[trigger] row_nodes@[k] as int;
                    &&& body < r < cx@.len()
                    &&& cx@[r] == row_node((body + 2 + k) as nat, k)
                    &&& row_cells(cx@, r, nv as nat)
                },
            decreases n - i,
        {
            let ghost before = cx@;
            proof {
                assert((nv + 1) * i + (nv + 1) <= (nv + 1) * n) by (nonlinear_arith)
                    requires i < n;
                assert(cx@.len() + nv + 1 <= after_list.len() + (nv + 1) * n);
                assert(body + 2 + i < after_list.len());
                assert(cx@.len() + nv + 1 < usize::MAX);
            }
            let item = body + 2 + i;
            let row = cx.add_child(item, Tag::HStack);
            cx.set_role(row, Role::GenericContainer);
            cx.add_class(row, Class::TableRow);
            cx.toggle_class(row, Class::Odd, i % 2 == 1);
            cx.toggle_class(row, Class::Even, i % 2 == 0);
            let mut k: usize = 0;
            assert(cx@ =~= before.push(row_node(item as nat, i as int)) + Seq::new(0, |x: int| table_cell_node(row as nat)));
            while k < nv
                invariant
                    0 <= k <= nv,
                    nv <= columns@.len(),
                    (row as int) < cx@.len(),
                    before.len() < row + 1,
                    row == before.len(),
                    cx@.len() == row + 1 + k,
                    cx@.len() + (nv - k) < usize::MAX,
                    cx.cur() == here,
                    cx@.subrange(0, row + 1) == before.push(row_node(item as nat, i as int)),
                    forall|m: int| 0 <= m < k ==> #[trigger] cx@[row + 1 + m] == table_cell_node(row as nat),
                    cx@ == before.push(row_node(item as nat, i as int)) + Seq::new(k as nat, |x: int| table_cell_node(row as nat)),
                decreases nv - k,
            {
                let cell = cx.add_child(row, Tag::VStack);
                cx.set_role(cell, Role::GenericContainer);
                cx.add_class(cell, Class::TableCell);
                assert(cx@ =~= before.push(row_node(item as nat, i as int)) + Seq::new((k + 1) as nat, |x: int| table_cell_node(row as nat)));
                k = k + 1;
            }
            assert(cx@ == row_built(before, item as nat, i as int, nv as nat));
            proof {
                assert((nv + 1) * (i + 1) == (nv + 1) * i + nv + 1) by (nonlinear_arith);
                assert forall|k: int| 0 <= k < i implies #[trigger] cx@[row_nodes@[k] as int] == before[row_nodes@[k] as int] by {
                    assert(cx@.subrange(0, row + 1)[row_nodes@[k] as int] == cx@[row_nodes@[k] as int]);
                }
                assert(cx@.subrange(0, before.len() as int) =~= before) by {
                    assert forall|x: int| 0 <= x < before.len() implies cx@.subrange(0, before.len() as int)[x] == before[x] by {
                        assert(cx@.subrange(0, row + 1)[x] == cx@[x]);
                    }
                }
                assert forall|k: int| 0 <= k < i implies row_cells(cx@, #[trigger] row_nodes@[k] as int, nv as nat) by {
                    lemma_row_cells_prefix(before, cx@, row_nodes@[k] as int, nv as nat);
                }
                assert(row_cells(cx@, row as int, nv as nat));
                assert(cx@.subrange(0, row + 1)[row as int] == cx@[row as int]);
                assert(cx@[row as int] == row_node(item as nat, i as int));
                assert(cx@.subrange(0, after_list.len() as int) =~= before.subrange(0, after_list.len() as int));
            }
            row_nodes.push(row);
            i = i + 1;
        }
        proof {
            assert forall|j: int| 0 <= j < cells@.len() implies {
                let c = #[trigger] cells@[j] as int;
                &&& e < c < cx@.len()
                &&& cx@[c] == header_cell_node((e + 1) as nat, j == cells@.len() - 1, columns@[vis@[j] as int].sortable)
            } by {
                let c = cells@[j] as int;
                assert(headers_done.subrange(0, start.len() as int) == start);
                assert(c < headers_done.len());
                assert(after_list[c] == headers_done[c]);
                assert(cx@.subrange(0, after_list.len() as int)[c] == cx@[c]);
            }
            assert(cx@.subrange(0, after_list.len() as int)[e as int] == cx@[e as int]);
            assert(cx@.subrange(0, after_list.len() as int)[e + 1] == cx@[e + 1]);
            assert(cx@.subrange(0, after_list.len() as int)[body as int] == cx@[body as int]);
            assert(cx@.subrange(0, old(cx)@.len() as int) =~= after_list.subrange(0, old(cx)@.len() as int));
        }
        Handle {
            entity: e,
            view: Table {
                rows,
                columns,
                sort_state: None,
                sort_cycle: TableSortCycle::BiState,
                resizable_columns: false,
                selectable: Selectable::Disabled,
                selection_follows_focus: false,
                selected_row_ids: Vec::new(),
                has_on_sort: false,
                has_on_row_select: false,
                header_cells: cells,
                header_columns: vis,
                body,
                row_nodes,
            },
        }
    }

    /// The indices of the rows whose ids are selected, in order.
    pub open spec fn selected_indices_spec(self) -> Seq<usize> {
        selected_upto(self.rows@, self.selected_row_ids@, self.rows@.len())
    }

    /// The indices of the rows whose ids are selected.
    pub fn selected_indices(&self) -> (r: Vec<usize>)
        ensures
            r@ == self.selected_indices_spec(),
    {
        let mut r: Vec<usize> = Vec::new();
        let mut i: usize = 0;
        while i < self.rows.len()
            invariant
                0 <= i <= self.rows@.len(),
                r@ == selected_upto(self.rows@, self.selected_row_ids@, i as nat),
            decreases self.rows@.len() - i,
        {
            let id = self.rows[i];
            let found = contains_id(&self.selected_row_ids, id);
            if found {
                r.push(i);
            }
            i = i + 1;
        }
        r
    }

    /// What pressing the header of column `c` asks for: a sort by that column in the
    /// next direction of the cycle, when the column is sortable.
    pub fn header_press(&self, c: usize) -> (r: Option<TableEvent>)
        requires
            c < self.columns@.len(),
        ensures
            r == if self.columns@[c as int].sortable {
                Some(TableEvent::RequestSort(self.columns@[c as int].key,
                    next_direction(self.sort_cycle, direction_of(self.sort_state, self.columns@[c as int].key))))
            } else {
                None
            },
    {
        if self.columns[c].sortable {
            let key = self.columns[c].key;
            let current = sort_direction_for_column(self.sort_state, key);
            Some(TableEvent::RequestSort(key, next_sort_direction(self.sort_cycle, current)))
        } else {
            None
        }
    }

    /// Resizes column `c` after its header was dragged to `new_size`: only when columns
    /// and that column are resizable, and never below its minimum width.
    pub fn resize_column(&mut self, c: usize, new_size: u32)
        requires
            c < old(self).columns@.len(),
        ensures
            final(self).columns@.len() == old(self).columns@.len(),
            forall|j: int| 0 <= j < old(self).columns@.len() && j != c ==> #[trigger] final(self).columns@[j] == old(self).columns@[j],
            ({
                let col = old(self).columns@[c as int];
                let now = final(self).columns@[c as int];
                &&& now.key == col.key
                &&& now.title == col.title
                &&& now.min_width == col.min_width
                &&& now.sortable == col.sortable
                &&& now.resizable == col.resizable
                &&& now.hidden == col.hidden
                &&& now.width == if old(self).resizable_columns && col.resizable {
                    if new_size >= col.min_width { new_size } else { col.min_width }
                } else {
                    col.width
                }
            }),
            final(self).rows@ == old(self).rows@,
            final(self).sort_state == old(self).sort_state,
            final(self).resizable_columns == old(self).resizable_columns,
            final(self).header_cells@ == old(self).header_cells@,
    {
        if self.resizable_columns && self.columns[c].resizable {
            let min = self.columns[c].min_width;
            let w = if new_size >= min { new_size } else { min };
            let mut cols: Vec<TableColumn> = Vec::new();
            std::mem::swap(&mut cols, &mut self.columns);
            let mut col = cols.remove(c);
            col.width = w;
            cols.insert(c, col);
            self.columns = cols;
        }
    }

    /// Handles an event: a sort request goes to the sort callback; selecting a row
    /// that exists hands its id to the row selection callback.
    pub fn event(&self, event: TableEvent) -> (r: TableResponse)
        ensures
            r == match event {
                TableEvent::RequestSort(key, d) => TableResponse {
                    on_sort: if self.has_on_sort { Some(TableSortState { key, direction: d }) } else { None },
                    on_row_select: None,
                },
                TableEvent::SelectRow(i) => TableResponse {
                    on_sort: None,
                    on_row_select: if i < self.rows@.len() && self.has_on_row_select { Some(self.rows@[i as int]) } else { None },
                },
            },
    {
        match event {
            TableEvent::RequestSort(key, d) => TableResponse {
                on_sort: if self.has_on_sort { Some(TableSortState { key, direction: d }) } else { None },
                on_row_select: None,
            },
            TableEvent::SelectRow(i) => TableResponse {
                on_sort: None,
                on_row_select: if i < self.rows.len() && self.has_on_row_select { Some(self.rows[i]) } else { None },
            },
        }
    }
}

/// Whether `id` is among `ids`.
fn contains_id(ids: &Vec<u64>, id: u64) -> (r: bool)
    ensures
        r == ids@.contains(id),
{
    let mut k: usize = 0;
    while k < ids.len()
        invariant
            0 <= k <= ids@.len(),
            forall|j: int| 0 <= j < k ==> ids@[j] != id,
        decreases ids@.len() - k,
    {
        if ids[k] == id {
            assert(ids@[k as int] == id);
            return true;
        }
        k = k + 1;
    }
    false
}

/// The indices of the first `k` rows whose ids are selected.
pub open spec fn selected_upto(rows: Seq<u64>, ids: Seq<u64>, k: nat) -> Seq<usize>
    decreases k,
{
    if k == 0 {
        Seq::empty()
    } else {
        let s = selected_upto(rows, ids, (k - 1) as nat);
        if ids.contains(rows[k - 1]) { s.push((k - 1) as usize) } else { s }
    }
}

/// Setters of a table's state.
pub trait TableModifiers: Sized {
    /// Sets the column the table is sorted by, and how.
    fn sort_state(self, sort_state: Option<TableSortState>) -> Self;

    /// Sets whether columns can be resized.
    fn resizable_columns(self, flag: bool) -> Self;

    /// Sets which directions pressing a header cycles through.
    fn sort_cycle(self, cycle: TableSortCycle) -> Self;

    /// Sets how many rows can be selected.
    fn selectable(self, selectable: Selectable) -> Self;

    /// Sets whether the selection follows keyboard focus.
    fn selection_follows_focus(self, flag: bool) -> Self;

    /// Sets the ids of the selected rows.
    fn selected_row_ids(self, ids: Vec<u64>) -> Self;

    /// Attaches the callback that receives sort requests.
    fn on_sort(self) -> Self;

    /// Attaches the callback that receives the id of a selected row.
    fn on_row_select(self) -> Self;
}

/// The parts of two tables that a setter leaves alone, apart from the one it sets.
pub open spec fn same_layout(a: Table, b: Table) -> bool {
    &&& a.rows@ == b.rows@
    &&& a.columns@ == b.columns@
    &&& a.header_cells@ == b.header_cells@
    &&& a.header_columns@ == b.header_columns@
    &&& a.body == b.body
    &&& a.row_nodes@ == b.row_nodes@
}

impl TableModifiers for Handle<Table> {
    fn sort_state(self, sort_state: Option<TableSortState>) -> (h: Self)
        ensures
            h.entity == self.entity,
            same_layout(h.view, self.view),
            h.view.sort_state == sort_state,
            h.view.sort_cycle == self.view.sort_cycle,
            h.view.resizable_columns == self.view.resizable_columns,
    {
        let mut h = self;
        h.view.sort_state = sort_state;
        h
    }

    fn resizable_columns(self, flag: bool) -> (h: Self)
        ensures
            h.entity == self.entity,
            same_layout(h.view, self.view),
            h.view.resizable_columns == flag,
            h.view.sort_state == self.view.sort_state,
            h.view.sort_cycle == self.view.sort_cycle,
    {
        let mut h = self;
        h.view.resizable_columns = flag;
        h
    }

    fn sort_cycle(self, cycle: TableSortCycle) -> (h: Self)
        ensures
            h.entity == self.entity,
            same_layout(h.view, self.view),
            h.view.sort_cycle == cycle,
            h.view.sort_state == self.view.sort_state,
            h.view.resizable_columns == self.view.resizable_columns,
    {
        let mut h = self;
        h.view.sort_cycle = cycle;
        h
    }

    fn selectable(self, selectable: Selectable) -> (h: Self)
        ensures
            h.entity == self.entity,
            same_layout(h.view, self.view),
            h.view.selectable == selectable,
            h.view.sort_state == self.view.sort_state,
    {
        let mut h = self;
        h.view.selectable = selectable;
        h
    }

    fn selection_follows_focus(self, flag: bool) -> (h: Self)
        ensures
            h.entity == self.entity,
            same_layout(h.view, self.view),
            h.view.selection_follows_focus == flag,
            h.view.selectable == self.view.selectable,
    {
        let mut h = self;
        h.view.selection_follows_focus = flag;
        h
    }

    fn selected_row_ids(self, ids: Vec<u64>) -> (h: Self)
        ensures
            h.entity == self.entity,
            same_layout(h.view, self.view),
            h.view.selected_row_ids@ == ids@,
            h.view.selectable == self.view.selectable,
    {
        let mut h = self;
        h.view.selected_row_ids = ids;
        h
    }

    fn on_sort(self) -> (h: Self)
        ensures
            h.entity == self.entity,
            same_layout(h.view, self.view),
            h.view.has_on_sort,
            h.view.has_on_row_select == self.view.has_on_row_select,
    {
        let mut h = self;
        h.view.has_on_sort = true;
        h
    }

    fn on_row_select(self) -> (h: Self)
        ensures
            h.entity == self.entity,
            same_layout(h.view, self.view),
            h.view.has_on_row_select,
            h.view.has_on_sort == self.view.has_on_sort,
    {
        let mut h = self;
        h.view.has_on_row_select = true;
        h
    }
}

impl Handle<Table> {
    /// Brings the header cells' resizable class in line with the table: a cell shows
    /// as resizable when columns are resizable, its column is, and it is not the last.
    pub fn refresh_header_classes(&self, cx: &mut Context)
        requires
            self.view.header_cells@.len() == self.view.header_columns@.len(),
            forall|j: int| 0 <= j < self.view.header_cells@.len() ==> (#[trigger] self.view.header_cells@[j] as int) < old(cx)@.len(),
            forall|j: int| 0 <= j < self.view.header_columns@.len() ==> (#[trigger] self.view.header_columns@[j] as int) < self.view.columns@.len(),
            forall|a: int, b: int| 0 <= a < b < self.view.header_cells@.len() ==> self.view.header_cells@[a] != self.view.header_cells@[b],
        ensures
            final(cx).cur() == old(cx).cur(),
            final(cx)@.len() == old(cx)@.len(),
            forall|j: int| 0 <= j < self.view.header_cells@.len() ==> {
                let c = #[trigger] self.view.header_cells@[j] as int;
                final(cx)@[c] == old(cx)@[c].toggled(Class::Resizable,
                    self.view.resizable_columns && self.view.columns@[self.view.header_columns@[j] as int].resizable
                        && j != self.view.header_cells@.len() - 1)
            },
            forall|k: int| 0 <= k < old(cx)@.len() && !self.view.header_cells@.contains(k as usize) ==> #[trigger] final(cx)@[k] == old(cx)@[k],
    {
        let n = self.view.header_cells.len();
        let mut j: usize = 0;
        while j < n
            invariant
                0 <= j <= n,
                n == self.view.header_cells@.len(),
                n == self.view.header_columns@.len(),
                forall|k: int| 0 <= k < n ==> (#[trigger] self.view.header_cells@[k] as int) < old(cx)@.len(),
                forall|k: int| 0 <= k < n ==> (#[trigger] self.view.header_columns@[k] as int) < self.view.columns@.len(),
                forall|a: int, b: int| 0 <= a < b < n ==> self.view.header_cells@[a] != self.view.header_cells@[b],
                cx.cur() == old(cx).cur(),
                cx@.len() == old(cx)@.len(),
                forall|k: int| 0 <= k < j ==> {
                    let c = #[trigger] self.view.header_cells@[k] as int;
                    cx@[c] == old(cx)@[c].toggled(Class::Resizable,
                        self.view.resizable_columns && self.view.columns@[self.view.header_columns@[k] as int].resizable
                            && k != n - 1)
                },
                forall|k: int| j <= k < n ==> #[trigger] cx@[self.view.header_cells@[k] as int] == old(cx)@[self.view.header_cells@[k] as int],
                forall|k: int| 0 <= k < old(cx)@.len() && !self.view.header_cells@.contains(k as usize) ==> #[trigger] cx@[k] == old(cx)@[k],
            decreases n - j,
        {
            let c = self.view.header_cells[j];
            let col = self.view.header_columns[j];
            let on = self.view.resizable_columns && self.view.columns[col].resizable && j + 1 != n;
            cx.toggle_class(c, Class::Resizable, on);
            proof {
                assert forall|k: int| 0 <= k < old(cx)@.len() && !self.view.header_cells@.contains(k as usize) implies #[trigger] cx@[k] == old(cx)@[k] by {
                    if k == c as int {
                        assert(self.view.header_cells@[j as int] == c);
                        assert(self.view.header_cells@.contains(k as usize));
                    }
                }
            }
            j = j + 1;
        }
    }
}

/// Pressing a header cycles through the directions: three presses give back any
/// direction with three states, two presses give back a sorted direction with two.
pub proof fn law_sort_cycles(d: TableSortDirection)
    ensures
        next_direction(TableSortCycle::TriState, next_direction(TableSortCycle::TriState,
            next_direction(TableSortCycle::TriState, d))) == d,
        d != TableSortDirection::Unsorted ==> next_direction(TableSortCycle::BiState,
            next_direction(TableSortCycle::BiState, d)) == d,
{
}

} // verus!
