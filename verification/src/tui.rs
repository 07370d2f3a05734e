//! The screen that shows a `Diff`: a header above three tables, each described by what it shows
//! and where.

use crate::differ::Diff;
use crate::kv_map::{ChangedEntry, ChangedMap, Entry, KeyValueMap};
use crate::layout::{spans_across, Constraint, Direction, Layout, Rect};
use crate::text::{count_title, titled_count};
use vstd::prelude::*;

verus! {

/// The colors that the screen uses.
#[derive(Clone, Copy, Debug, PartialEq, Eq, Structural)]
pub enum Color {
    Yellow,
    Green,
    White,
    Cyan,
    Magenta,
    Red,
}

/// How a piece of text is shown: in a color of its own or in the terminal's, bold or not.
#[derive(Clone, Copy, Debug, PartialEq, Eq)]
pub struct Style {
    pub color: Option<Color>,
    pub bold: bool,
}

/// A piece of text with its style.
#[derive(Clone, Debug, PartialEq, Eq)]
pub struct Span {
    pub content: String,
    pub style: Style,
}

/// The frame around a panel: its title, and whether borders are drawn on all four sides.
#[derive(Clone, Debug, PartialEq, Eq)]
pub struct Block {
    pub title: Span,
    pub bordered: bool,
}

/// The panel at the top of the screen: one line of text in a frame.
#[derive(Clone, Debug, PartialEq, Eq)]
pub struct Header {
    pub area: Rect,
    pub block: Block,
    pub line: Vec<Span>,
}

/// One row of a table: a cell for each column.
#[derive(Clone, Debug, PartialEq, Eq)]
pub struct Row {
    pub cells: Vec<Span>,
}

/// A table in a frame: the heading of each column, the rows, and the share of the width that
/// each column gets.
#[derive(Clone, Debug, PartialEq, Eq)]
pub struct Table {
    pub area: Rect,
    pub block: Block,
    pub header: Row,
    pub rows: Vec<Row>,
    pub widths: Vec<Constraint>,
    pub column_spacing: u16,
}

/// The three tables below the header.
#[derive(Clone, Debug, PartialEq, Eq)]
pub struct Body {
    pub unique_a: Table,
    pub unique_b: Table,
    pub modified: Table,
}

/// The whole screen.
#[derive(Clone, Debug, PartialEq, Eq)]
pub struct Screen {
    pub header: Header,
    pub body: Body,
}

/// A `Span` as a specification sees it.
pub struct SpanView {
    pub content: Seq<char>,
    pub style: Style,
}

/// A `Block` as a specification sees it.
pub struct BlockView {
    pub title: SpanView,
    pub bordered: bool,
}

/// A `Header` as a specification sees it.
pub struct HeaderView {
    pub area: Rect,
    pub block: BlockView,
    pub line: Seq<SpanView>,
}

/// A `Table` as a specification sees it.
pub struct TableView {
    pub area: Rect,
    pub block: BlockView,
    pub header: Seq<SpanView>,
    pub rows: Seq<Seq<SpanView>>,
    pub widths: Seq<Constraint>,
    pub column_spacing: u16,
}

/// A `Body` as a specification sees it.
pub struct BodyView {
    pub unique_a: TableView,
    pub unique_b: TableView,
    pub modified: TableView,
}

/// A `Screen` as a specification sees it.
pub struct ScreenView {
    pub header: HeaderView,
    pub body: BodyView,
}

impl View for Span {
    type V = SpanView;

    open spec fn view(&self) -> SpanView {
        SpanView { content: self.content@, style: self.style }
    }
}

impl View for Block {
    type V = BlockView;

    open spec fn view(&self) -> BlockView {
        BlockView { title: self.title@, bordered: self.bordered }
    }
}

impl View for Row {
    type V = Seq<SpanView>;

    open spec fn view(&self) -> Seq<SpanView> {
        self.cells@.map_values(|cell: Span| cell@)
    }
}

impl View for Header {
    type V = HeaderView;

    open spec fn view(&self) -> HeaderView {
        HeaderView {
            area: self.area,
            block: self.block@,
            line: self.line@.map_values(|span: Span| span@),
        }
    }
}

impl View for Table {
    type V = TableView;

    open spec fn view(&self) -> TableView {
        TableView {
            area: self.area,
            block: self.block@,
            header: self.header@,
            rows: self.rows@.map_values(|row: Row| row@),
            widths: self.widths@,
            column_spacing: self.column_spacing,
        }
    }
}

impl View for Body {
    type V = BodyView;

    open spec fn view(&self) -> BodyView {
        BodyView { unique_a: self.unique_a@, unique_b: self.unique_b@, modified: self.modified@ }
    }
}

impl View for Screen {
    type V = ScreenView;

    open spec fn view(&self) -> ScreenView {
        ScreenView { header: self.header@, body: self.body@ }
    }
}

/// The terminal's own color, not bold.
pub open spec fn plain() -> Style {
    Style { color: None, bold: false }
}

/// `color`, not bold.
pub open spec fn colored(color: Color) -> Style {
    Style { color: Some(color), bold: false }
}

/// `color`, bold.
pub open spec fn bold(color: Color) -> Style {
    Style { color: Some(color), bold: true }
}

/// A frame with borders whose title is `title` in `style`.
pub open spec fn framed(title: Seq<char>, style: Style) -> BlockView {
    BlockView { title: SpanView { content: title, style }, bordered: true }
}

/// The heading of a column.
pub open spec fn heading(name: Seq<char>) -> SpanView {
    SpanView { content: name, style: bold(Color::White) }
}

/// The header in `area`: the name of the program as the title, and the keys that leave it.
pub open spec fn header_view(area: Rect) -> HeaderView {
    HeaderView {
        area,
        block: framed(" riff - environment diff viewer "@, bold(Color::Yellow)),
        line: seq![
            SpanView { content: "Press "@, style: plain() },
            SpanView { content: "q"@, style: bold(Color::Green) },
            SpanView { content: " or "@, style: plain() },
            SpanView { content: "Esc"@, style: bold(Color::Green) },
            SpanView { content: " to exit."@, style: plain() },
        ],
    }
}

/// The row that shows one entry of a key-value map.
pub open spec fn unique_row(entry: Entry) -> Seq<SpanView> {
    seq![
        SpanView { content: entry.0, style: plain() },
        SpanView { content: entry.1, style: plain() },
    ]
}

/// The table in `area` that shows `entries` under the name `name`: the name and the number of
/// entries as the title, in `style`; a row for each entry, in their order.
pub open spec fn unique_table(area: Rect, name: Seq<char>, entries: Seq<Entry>, style: Style) -> TableView {
    TableView {
        area,
        block: framed(titled_count(name, entries.len()), style),
        header: seq![heading("Key"@), heading("Value"@)],
        rows: entries.map_values(|entry: Entry| unique_row(entry)),
        widths: seq![Constraint::Percentage(40), Constraint::Percentage(60)],
        column_spacing: 1,
    }
}

/// The style of the two values of a changed key: red where they differ.
pub open spec fn value_style(left: Seq<char>, right: Seq<char>) -> Style {
    if left != right {
        colored(Color::Red)
    } else {
        plain()
    }
}

/// The row that shows one changed key: the key, the first side's value and the second side's.
pub open spec fn changed_row(entry: ChangedEntry) -> Seq<SpanView> {
    seq![
        SpanView { content: entry.0, style: plain() },
        SpanView { content: entry.1.0, style: value_style(entry.1.0, entry.1.1) },
        SpanView { content: entry.1.1, style: value_style(entry.1.0, entry.1.1) },
    ]
}

/// The table in `area` that shows the changed keys: their number in the title, a row for each,
/// in their order.
pub open spec fn diff_table(area: Rect, entries: Seq<ChangedEntry>) -> TableView {
    TableView {
        area,
        block: framed(titled_count("Modified"@, entries.len()), colored(Color::Yellow)),
        header: seq![heading("Key"@), heading("Left Value"@), heading("Right Value"@)],
        rows: entries.map_values(|entry: ChangedEntry| changed_row(entry)),
        widths: seq![
            Constraint::Percentage(30),
            Constraint::Percentage(35),
            Constraint::Percentage(35),
        ],
        column_spacing: 1,
    }
}

/// The table of the first side's unique entries, in `area`.
pub open spec fn unique_a_table(area: Rect, entries: Seq<Entry>) -> TableView {
    unique_table(area, "Unique A"@, entries, colored(Color::Cyan))
}

/// The table of the second side's unique entries, in `area`.
pub open spec fn unique_b_table(area: Rect, entries: Seq<Entry>) -> TableView {
    unique_table(area, "Unique B"@, entries, colored(Color::Magenta))
}

/// Whether `left` and `right` lie side by side: in the same rows.
pub open spec fn side_by_side(left: Rect, right: Rect) -> bool {
    left.y == right.y && left.height == right.height
}

/// Whether `body` shows `diff`, wherever its tables begin and end.
pub open spec fn body_shows(body: BodyView, diff: &Diff) -> bool {
    &&& body.unique_a == unique_a_table(body.unique_a.area, diff.unique_a.entries())
    &&& body.unique_b == unique_b_table(body.unique_b.area, diff.unique_b.entries())
    &&& body.modified == diff_table(body.modified.area, diff.changed.entries())
}

/// Whether the tables of `body` are laid out in `area` as far as the splits are known: the two
/// tables of unique entries side by side, the table of changed keys across the whole width.
pub open spec fn body_fits(body: BodyView, area: Rect) -> bool {
    &&& side_by_side(body.unique_a.area, body.unique_b.area)
    &&& spans_across(Direction::Vertical, area, body.modified.area)
}

/// Whether `screen` shows the header and `diff`, wherever its panels begin and end.
pub open spec fn screen_shows(screen: ScreenView, diff: &Diff) -> bool {
    &&& screen.header == header_view(screen.header.area)
    &&& body_shows(screen.body, diff)
}

/// Whether the panels of `screen` are laid out in `area` as far as the splits are known: the
/// header and the table of changed keys across the whole width, the two tables of unique entries
/// side by side.
pub open spec fn screen_fits(screen: ScreenView, area: Rect) -> bool {
    &&& spans_across(Direction::Vertical, area, screen.header.area)
    &&& body_fits(screen.body, area)
}

/// The split of the screen: three rows for the header, the rest for the body.
pub fn ui_layout() -> (layout: Layout)
    ensures
        layout@ == (Direction::Vertical, seq![Constraint::Length(3), Constraint::Min(0)]),
{
    Layout::of_two(Direction::Vertical, Constraint::Length(3), Constraint::Min(0))
}

/// The split of the body: the upper half for the unique entries, the lower half for the changed
/// keys.
pub fn body_layout() -> (layout: Layout)
    ensures
        layout@ == (Direction::Vertical, seq![Constraint::Percentage(50), Constraint::Percentage(50)]),
{
    Layout::of_two(Direction::Vertical, Constraint::Percentage(50), Constraint::Percentage(50))
}

/// The split of the upper half: the first side on the left, the second side on the right.
pub fn unique_section_layout() -> (layout: Layout)
    ensures
        layout@ == (
            Direction::Horizontal,
            seq![Constraint::Percentage(50), Constraint::Percentage(50)],
        ),
{
    Layout::of_two(Direction::Horizontal, Constraint::Percentage(50), Constraint::Percentage(50))
}

/// A piece of text in a style.
fn span(content: &str, style: Style) -> (span: Span)
    ensures
        span@ == (SpanView { content: content@, style }),
{
    Span { content: content.to_owned(), style }
}

/// A frame with borders.
fn block(title: String, style: Style) -> (block: Block)
    ensures
        block@ == framed(title@, style),
{
    Block { title: Span { content: title, style }, bordered: true }
}

/// The header with the name of the program and the keys that leave it.
pub fn draw_header(area: Rect) -> (header: Header)
    ensures
        header@ == header_view(area),
{
    let yellow = Style { color: Some(Color::Yellow), bold: true };
    let green = Style { color: Some(Color::Green), bold: true };
    let unstyled = Style { color: None, bold: false };
    let line = vec![
        span("Press ", unstyled),
        span("q", green),
        span(" or ", unstyled),
        span("Esc", green),
        span(" to exit.", unstyled),
    ];
    let header = Header {
        area,
        block: block(" riff - environment diff viewer ".to_owned(), yellow),
        line,
    };
    assert(header@.line =~= header_view(area).line);
    header
}

/// The table that shows a key-value map under the name `title`, with the number of its entries.
pub fn draw_unique_table(area: Rect, title: &str, map: &KeyValueMap, color: Style) -> (table: Table)
    ensures
        table@ == unique_table(area, title@, map.entries(), color),
{
    let unstyled = Style { color: None, bold: false };
    let white = Style { color: Some(Color::White), bold: true };
    let header = Row { cells: vec![span("Key", white), span("Value", white)] };
    let count = map.len();
    let mut rows: Vec<Row> = Vec::new();
    let mut at: usize = 0;
    while at < count
        invariant
            at <= count == map.entries().len(),
            unstyled == plain(),
            rows.len() == at,
            forall|i: int| 0 <= i < at ==> (#[trigger] rows@[i])@ == unique_row(map.entries()[i]),
        decreases count - at,
    {
        match map.entry_at(at) {
            Some((key, value)) => {
                let row = Row {
                    cells: vec![
                        Span { content: key.clone(), style: unstyled },
                        Span { content: value.clone(), style: unstyled },
                    ],
                };
                assert(row@ =~= unique_row(map.entries()[at as int]));
                rows.push(row);
            },
            None => {},
        }
        at += 1;
    }
    let table = Table {
        area,
        block: block(count_title(title, count), color),
        header,
        rows,
        widths: vec![Constraint::Percentage(40), Constraint::Percentage(60)],
        column_spacing: 1,
    };
    assert(table@.rows =~= unique_table(area, title@, map.entries(), color).rows);
    assert(table@.header =~= unique_table(area, title@, map.entries(), color).header);
    assert(table@.widths =~= unique_table(area, title@, map.entries(), color).widths);
    table
}

/// The table that shows the changed keys with the values of both sides. The values of a row
/// are red where they differ.
pub fn draw_diff_table(area: Rect, diff_map: &ChangedMap) -> (table: Table)
    ensures
        table@ == diff_table(area, diff_map.entries()),
{
    let unstyled = Style { color: None, bold: false };
    let white = Style { color: Some(Color::White), bold: true };
    let header = Row {
        cells: vec![span("Key", white), span("Left Value", white), span("Right Value", white)],
    };
    let count = diff_map.len();
    let mut rows: Vec<Row> = Vec::new();
    let mut at: usize = 0;
    while at < count
        invariant
            at <= count == diff_map.entries().len(),
            unstyled == plain(),
            rows.len() == at,
            forall|i: int| 0 <= i < at ==> (#[trigger] rows@[i])@ == changed_row(diff_map.entries()[i]),
        decreases count - at,
    {
        match diff_map.entry_at(at) {
            Some((key, values)) => {
                let value_style = if !(values.0 == values.1) {
                    Style { color: Some(Color::Red), bold: false }
                } else {
                    unstyled
                };
                let row = Row {
                    cells: vec![
                        Span { content: key.clone(), style: unstyled },
                        Span { content: values.0.clone(), style: value_style },
                        Span { content: values.1.clone(), style: value_style },
                    ],
                };
                assert(row@ =~= changed_row(diff_map.entries()[at as int]));
                rows.push(row);
            },
            None => {},
        }
        at += 1;
    }
    let table = Table {
        area,
        block: block(count_title("Modified", count), Style { color: Some(Color::Yellow), bold: false }),
        header,
        rows,
        widths: vec![
            Constraint::Percentage(30),
            Constraint::Percentage(35),
            Constraint::Percentage(35),
        ],
        column_spacing: 1,
    };
    assert(table@.rows =~= diff_table(area, diff_map.entries()).rows);
    assert(table@.header =~= diff_table(area, diff_map.entries()).header);
    assert(table@.widths =~= diff_table(area, diff_map.entries()).widths);
    table
}

/// The two tables of unique entries, side by side in `area`: the first side on the left.
pub fn draw_unique_section(area: Rect, diff: &Diff) -> (tables: (Table, Table))
    ensures
        tables.0@ == unique_a_table(tables.0.area, diff.unique_a.entries()),
        tables.1@ == unique_b_table(tables.1.area, diff.unique_b.entries()),
        spans_across(Direction::Horizontal, area, tables.0.area),
        spans_across(Direction::Horizontal, area, tables.1.area),
{
    let columns = unique_section_layout().split(area);
    let left = draw_unique_table(
        columns[0],
        "Unique A",
        &diff.unique_a,
        Style { color: Some(Color::Cyan), bold: false },
    );
    let right = draw_unique_table(
        columns[1],
        "Unique B",
        &diff.unique_b,
        Style { color: Some(Color::Magenta), bold: false },
    );
    (left, right)
}

/// The three tables in `area`: the unique entries in the upper half, the changed keys in the
/// lower half.
pub fn draw_body(area: Rect, diff: &Diff) -> (body: Body)
    ensures
        body_shows(body@, diff),
        body_fits(body@, area),
{
    let rows = body_layout().split(area);
    let (unique_a, unique_b) = draw_unique_section(rows[0], diff);
    let modified = draw_diff_table(rows[1], &diff.changed);
    Body { unique_a, unique_b, modified }
}

/// The whole screen for a terminal of the size of `area`: the header in the top three rows,
/// the tables below.
pub fn draw_ui(area: Rect, diff: &Diff) -> (screen: Screen)
    ensures
        screen_shows(screen@, diff),
        screen_fits(screen@, area),
{
    let chunks = ui_layout().split(area);
    let header = draw_header(chunks[0]);
    let body = draw_body(chunks[1], diff);
    Screen { header, body }
}

} // verus!
