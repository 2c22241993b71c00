//! Terminal tables: the cells of each table the tool prints, drawn by
//! comfy-table, with long messages wrapped by textwrap.
use vstd::prelude::*;
use crate::text::views;
use comfy_table::presets::{ASCII_FULL, UTF8_FULL};
use comfy_table::{Cell, Color, Table};

verus! {

/// The frame a table is drawn with.
#[derive(Clone, Copy, Debug, PartialEq, Eq, Structural)]
pub enum TableFrame {
    /// comfy-table's default ASCII frame.
    Ascii,
    /// The UTF-8 frame with rounded outer corners.
    Rounded,
}

/// The foreground colour of a cell.
#[derive(Clone, Copy, Debug, PartialEq, Eq, Structural)]
pub enum CellColor {
    Plain,
    Red,
    Yellow,
    Blue,
    Green,
}

/// What comfy-table draws, without styling, for a header and rows in a frame.
pub uninterp spec fn table_text(frame: TableFrame, header: Seq<Seq<char>>, rows: Seq<Seq<Seq<char>>>) -> Seq<char>;

/// The lines textwrap breaks a text into at a width.
pub uninterp spec fn wrapped_lines(text: Seq<char>, width: usize) -> Seq<Seq<char>>;

pub open spec fn rows_view(rows: Seq<Vec<String>>) -> Seq<Seq<Seq<char>>> {
    rows.map_values(|row: Vec<String>| views(row@))
}

/// The colours give one per cell of each row.
pub open spec fn colors_fit(rows: Seq<Vec<String>>, colors: Seq<Vec<CellColor>>) -> bool {
    rows.len() == colors.len() && forall|i: int| 0 <= i < rows.len() ==> #[trigger] colors[i]@.len() == rows[i]@.len()
}

/// Draws a table with `comfy_table::Table` (header, rows, frame, a colour per
/// cell) and renders it with its `Display` impl, in comfy-table's
/// no-terminal mode, so no terminal width enters it. Unstyled, comfy-table
/// applies no cell style, and the text is claimed to depend on the frame, the
/// header and the rows alone (named `table_text`). Styled, coloured cells are
/// written through crossterm, which leaves colour codes out when the
/// `NO_COLOR` environment variable is set; nothing is stated of that text.
#[verifier::external_body]
pub(crate) fn draw_table(
    frame: TableFrame,
    header: &Vec<String>,
    rows: &Vec<Vec<String>>,
    colors: &Vec<Vec<CellColor>>,
    styled: bool,
) -> (r: String)
    requires
        colors_fit(rows@, colors@),
    ensures
        !styled ==> r@ == table_text(frame, views(header@), rows_view(rows@)),
{
    let mut t = Table::new();
    t.force_no_tty();
    if styled { t.enforce_styling(); }
    t.load_style(match frame { TableFrame::Ascii => ASCII_FULL, TableFrame::Rounded => UTF8_FULL.with_rounded_corners() });
    t.set_header(header.clone());
    t.add_rows(rows.iter().zip(colors).map(|(row, cs)| row.iter().zip(cs).map(|(s, c)| { let x = Cell::new(s); match c {
        CellColor::Plain => x,
        CellColor::Red => x.fg(Color::Red),
        CellColor::Yellow => x.fg(Color::Yellow),
        CellColor::Blue => x.fg(Color::Blue),
        CellColor::Green => x.fg(Color::Green),
    } }).collect::<Vec<_>>()));
    t.to_string()
}

/// Draws a table whose cells have no colour.
pub(crate) fn draw_plain_table(frame: TableFrame, header: &Vec<String>, rows: &Vec<Vec<String>>) -> (r: String)
    ensures
        r@ == table_text(frame, views(header@), rows_view(rows@)),
{
    let mut colors: Vec<Vec<CellColor>> = Vec::new();
    let mut i: usize = 0;
    while i < rows.len()
        invariant
            0 <= i <= rows@.len(),
            colors_fit(rows@.take(i as int), colors@),
        decreases rows@.len() - i,
    {
        let mut row: Vec<CellColor> = Vec::new();
        let mut j: usize = 0;
        while j < rows[i].len()
            invariant
                i < rows@.len(),
                0 <= j <= rows@[i as int]@.len(),
                row@ == Seq::new(j as nat, |k: int| CellColor::Plain),
            decreases rows@[i as int]@.len() - j,
        {
            row.push(CellColor::Plain);
            assert(row@ =~= Seq::new((j + 1) as nat, |k: int| CellColor::Plain));
            j = j + 1;
        }
        let ghost pre = colors@;
        colors.push(row);
        assert forall|k: int| 0 <= k < i + 1 implies #[trigger] colors@[k]@.len() == rows@.take(i + 1)[k]@.len() by {
            if k < i {
                assert(colors@[k] == pre[k]);
                assert(rows@.take(i + 1)[k] == rows@.take(i as int)[k]);
            }
        }
        i = i + 1;
    }
    assert(rows@.take(rows@.len() as int) =~= rows@);
    draw_table(frame, header, rows, &colors, false)
}

/// Breaks a text into lines of at most `width` columns with
/// `textwrap::wrap`. Which lines come out is not stated, only that they are
/// a function of the text and the width.
#[verifier::external_body]
pub(crate) fn wrap_text(text: &str, width: usize) -> (r: Vec<String>)
    ensures
        views(r@) == wrapped_lines(text@, width),
{
    textwrap::wrap(text, width).into_iter().map(|line| line.into_owned()).collect()
}

} // verus!
