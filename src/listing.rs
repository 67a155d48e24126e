//! From the entries of a directory to the text that the listing prints.

use vstd::prelude::*;
use vstd::string::*;
use crate::entry::{EntryView, FileEntry};
use crate::table::{cells_view, render_rounded, rounded_table};

verus! {

/// A name that starts with a dot.
pub open spec fn is_hidden(name: Seq<char>) -> bool {
    name.len() > 0 && name[0] == '.'
}

pub open spec fn views(entries: Seq<FileEntry>) -> Seq<EntryView> {
    entries.map_values(|e: FileEntry| e@)
}

/// The rows that are shown: all of them with `show_all`, else those whose name
/// is not hidden, in their order.
pub open spec fn visible(rows: Seq<EntryView>, show_all: bool) -> Seq<EntryView> {
    if show_all {
        rows
    } else {
        rows.filter(|e: EntryView| !is_hidden(e.name))
    }
}

/// The header row.
pub open spec fn header_cells() -> Seq<Seq<char>> {
    seq![
        seq!['N', 'a', 'm', 'e'],
        seq!['T', 'y', 'p', 'e'],
        seq!['S', 'i', 'z', 'e'],
        seq!['L', 'a', 's', 't', ' ', 'M', 'o', 'd', 'i', 'f', 'i', 'e', 'd'],
        seq!['P', 'e', 'r', 'm', 'i', 's', 's', 'i', 'o', 'n', 's'],
    ]
}

/// The cells of one row, in column order.
pub open spec fn row_cells(e: EntryView) -> Seq<Seq<char>> {
    seq![e.name, e.file_type.label(), e.size, e.modified_at, e.permissions]
}

/// The header followed by one row per entry.
pub open spec fn table_cells(rows: Seq<EntryView>) -> Seq<Seq<Seq<char>>> {
    seq![header_cells()] + rows.map_values(|e: EntryView| row_cells(e))
}

/// Whether a directory's path could be checked, and whether it exists.
#[derive(Clone, Copy, Debug, PartialEq, Eq, Structural)]
pub enum PathState {
    Exists,
    Missing,
    Unreadable,
}

pub open spec fn missing_message() -> Seq<char> {
    seq!['P', 'a', 't', 'h', ' ', 'd', 'o', 'e', 's', ' ', 'n', 'o', 't', ' ', 'e', 'x', 'i', 's', 't', 's']
}

pub open spec fn unreadable_message() -> Seq<char> {
    seq!['F', 'a', 'i', 'l', 'e', 'd', ' ', 't', 'o', ' ', 'r', 'e', 'a', 'd', ' ', 'p', 'a', 't', 'h']
}

/// What the listing prints for a path in `state` whose entries are `rows`.
pub open spec fn listing_text(state: PathState, rows: Seq<EntryView>, show_all: bool) -> Seq<char> {
    match state {
        PathState::Exists => rounded_table(table_cells(visible(rows, show_all))),
        PathState::Missing => missing_message(),
        PathState::Unreadable => unreadable_message(),
    }
}

pub fn is_hidden_name(name: &String) -> (r: bool)
    ensures
        r == is_hidden(name@),
{
    let s = name.as_str();
    s.unicode_len() > 0 && s.get_char(0) == '.'
}

/// The entries that are shown, in their order: all of them with `show_all`,
/// else those whose name does not start with a dot.
pub fn filter_entries(entries: &Vec<FileEntry>, show_all: bool) -> (r: Vec<FileEntry>)
    ensures
        views(r@) == visible(views(entries@), show_all),
{
    let ghost keep = |e: EntryView| !is_hidden(e.name);
    let mut out: Vec<FileEntry> = Vec::new();
    let mut i: usize = 0;
    while i < entries.len()
        invariant
            i <= entries@.len(),
            views(out@) == visible(views(entries@.subrange(0, i as int)), show_all),
        decreases entries@.len() - i,
    {
        let e = &entries[i];
        let ghost before = views(entries@.subrange(0, i as int));
        let ghost after = views(entries@.subrange(0, i as int + 1));
        assert(after =~= before.push(e@));
        assert(after.drop_last() =~= before);
        assert(after.last() == e@);
        let shown = show_all || !is_hidden_name(&e.name);
        proof {
            reveal(Seq::filter);
        }
        if shown {
            let ghost prev = out@;
            out.push(e.duplicate());
            assert(views(out@) =~= views(prev).push(e@));
        }
        i += 1;
    }
    assert(entries@.subrange(0, entries@.len() as int) =~= entries@);
    out
}

/// Appends the cell `text` to `row`.
fn push_cell(row: &mut Vec<String>, text: &str)
    ensures
        final(row)@.map_values(|c: String| c@) == old(row)@.map_values(|c: String| c@).push(text@),
{
    let ghost prev = row@;
    row.push(String::from_str(text));
    assert(row@.map_values(|c: String| c@) =~= prev.map_values(|c: String| c@).push(text@));
}

fn header_row() -> (r: Vec<String>)
    ensures
        r@.map_values(|c: String| c@) == header_cells(),
{
    proof {
        reveal_strlit("Name");
        reveal_strlit("Type");
        reveal_strlit("Size");
        reveal_strlit("Last Modified");
        reveal_strlit("Permissions");
    }
    let mut row: Vec<String> = Vec::new();
    assert(row@.map_values(|c: String| c@) =~= Seq::<Seq<char>>::empty());
    push_cell(&mut row, "Name");
    push_cell(&mut row, "Type");
    push_cell(&mut row, "Size");
    push_cell(&mut row, "Last Modified");
    push_cell(&mut row, "Permissions");
    assert("Name"@ =~= header_cells()[0]);
    assert("Type"@ =~= header_cells()[1]);
    assert("Size"@ =~= header_cells()[2]);
    assert("Last Modified"@ =~= header_cells()[3]);
    assert("Permissions"@ =~= header_cells()[4]);
    assert(row@.map_values(|c: String| c@) =~= header_cells());
    row
}

/// The cells of the table for `entries`: a header row, then one row per entry
/// in the given order.
pub fn table_rows(entries: &Vec<FileEntry>) -> (r: Vec<Vec<String>>)
    ensures
        cells_view(r@) == table_cells(views(entries@)),
{
    let header = header_row();
    let mut rows: Vec<Vec<String>> = vec![header];
    assert(cells_view(rows@) =~= seq![header_cells()]);
    let mut i: usize = 0;
    while i < entries.len()
        invariant
            i <= entries@.len(),
            cells_view(rows@) == table_cells(views(entries@.subrange(0, i as int))),
        decreases entries@.len() - i,
    {
        let e = &entries[i];
        let row = vec![
            e.name.clone(),
            e.file_type.to_string(),
            e.size.clone(),
            e.modified_at.clone(),
            e.permissions.clone(),
        ];
        let ghost prev = rows@;
        rows.push(row);
        proof {
            assert(row@.map_values(|c: String| c@) =~= row_cells(e@));
            assert(cells_view(rows@) =~= cells_view(prev).push(row_cells(e@)));
            assert(views(entries@.subrange(0, i as int + 1)) =~= views(
                entries@.subrange(0, i as int),
            ).push(e@));
            assert(table_cells(views(entries@.subrange(0, i as int + 1))) =~= table_cells(
                views(entries@.subrange(0, i as int)),
            ).push(row_cells(e@)));
        }
        i += 1;
    }
    assert(entries@.subrange(0, entries@.len() as int) =~= entries@);
    rows
}

/// The table text for `entries`, which are shown as given, under a header row.
pub fn render_table(entries: &Vec<FileEntry>) -> (r: String)
    ensures
        r@ == rounded_table(table_cells(views(entries@))),
{
    render_rounded(table_rows(entries))
}

/// The text that the listing prints: the table of the shown entries where the
/// path exists, else the message for a missing or unreadable path.
pub fn listing_output(state: PathState, entries: &Vec<FileEntry>, show_all: bool) -> (r: String)
    ensures
        r@ == listing_text(state, views(entries@), show_all),
{
    match state {
        PathState::Exists => {
            let shown = filter_entries(entries, show_all);
            render_table(&shown)
        },
        PathState::Missing => {
            proof { reveal_strlit("Path does not exists"); }
            String::from_str("Path does not exists")
        },
        PathState::Unreadable => {
            proof { reveal_strlit("Failed to read path"); }
            String::from_str("Failed to read path")
        },
    }
}

/// The listing depends on the directory's entries alone: two listings of the
/// same path state, the same entries and the same option print the same text.
pub proof fn lemma_listing_repeatable(
    state: PathState,
    first: Seq<EntryView>,
    second: Seq<EntryView>,
    show_all: bool,
)
    requires
        first == second,
    ensures
        listing_text(state, first, show_all) == listing_text(state, second, show_all),
{
}

} // verus!
