//! The menu's table: one line for each profile, under a line of headings.

use comfy_table::{Cell, CellAlignment, Table};
use vstd::prelude::*;

use crate::profile::{summary_views, Summary, SummaryView};
use crate::text::{decimal, decimal_text};

verus! {

/// One line of the menu's table: three cells of text.
#[derive(Debug, Clone, PartialEq, Eq)]
pub struct MenuRow {
    /// The profile's id, in decimal digits.
    pub id: String,
    /// The profile's name.
    pub name: String,
    /// Whom to connect to, and where: user, host and port.
    pub address: String,
}

/// The mathematical value of a `MenuRow`.
pub struct MenuRowView {
    pub id: Seq<char>,
    pub name: Seq<char>,
    pub address: Seq<char>,
}

impl View for MenuRow {
    type V = MenuRowView;

    open spec fn view(&self) -> MenuRowView {
        MenuRowView { id: self.id@, name: self.name@, address: self.address@ }
    }
}

/// The values of a list of lines.
pub open spec fn row_views(rows: Seq<MenuRow>) -> Seq<MenuRowView> {
    rows.map_values(|r: MenuRow| r@)
}

/// Whom a profile connects to, and where: `user@host:port`.
pub open spec fn address_of(user: Seq<char>, host: Seq<char>, port: int) -> Seq<char> {
    user + "@"@ + host + ":"@ + decimal_text(port)
}

/// The line that the menu shows for a profile.
pub open spec fn row_of(profile: SummaryView) -> MenuRowView {
    MenuRowView {
        id: decimal_text(profile.id),
        name: profile.name,
        address: address_of(profile.username, profile.host, profile.port),
    }
}

/// The line of headings above the profiles.
pub open spec fn headings() -> MenuRowView {
    MenuRowView { id: "服务器编号"@, name: "服务器别名"@, address: "服务器信息"@ }
}

/// Writes `user@host:port`.
pub fn address(user: &str, host: &str, port: i32) -> (text: String)
    ensures
        text@ == address_of(user@, host@, port as int),
{
    let mut text = user.to_owned();
    text.append("@");
    text.append(host);
    text.append(":");
    text.append(decimal(port).as_str());
    text
}

/// Makes the menu's line for a profile.
pub fn menu_row(profile: &Summary) -> (row: MenuRow)
    ensures
        row@ == row_of(profile@),
{
    MenuRow {
        id: decimal(profile.id),
        name: profile.name.clone(),
        address: address(profile.username.as_str(), profile.host.as_str(), profile.port),
    }
}

/// Makes the menu's lines: one for each profile, in the order given. No
/// profiles give no lines.
pub fn menu_rows(profiles: &Vec<Summary>) -> (rows: Vec<MenuRow>)
    ensures
        rows.len() == profiles.len(),
        forall|i: int| 0 <= i < rows.len() ==> (#[trigger] rows[i])@ == row_of(profiles[i]@),
{
    let mut rows: Vec<MenuRow> = Vec::new();
    let mut i: usize = 0;
    while i < profiles.len()
        invariant
            i <= profiles.len(),
            rows.len() == i,
            forall|k: int| 0 <= k < i ==> (#[trigger] rows[k])@ == row_of(profiles[k]@),
        decreases profiles.len() - i,
    {
        rows.push(menu_row(&profiles[i]));
        i += 1;
    }
    rows
}

/// Makes the line of headings.
pub fn menu_headings() -> (row: MenuRow)
    ensures
        row@ == headings(),
{
    MenuRow {
        id: String::from_str("服务器编号"),
        name: String::from_str("服务器别名"),
        address: String::from_str("服务器信息"),
    }
}

/// The lines that the menu shows for a list of profiles.
pub open spec fn rows_of(profiles: Seq<SummaryView>) -> Seq<MenuRowView> {
    profiles.map_values(|p: SummaryView| row_of(p))
}

/// The text that the crate `comfy_table` draws of a table with these cells,
/// every cell centred, when it is told that it does not write to a terminal:
/// the cells in their columns, between borders, the headings set off from the
/// rows.
pub uninterp spec fn table_text(headings: MenuRowView, rows: Seq<MenuRowView>) -> Seq<char>;

/// `comfy_table::Table`: a new table is told with `force_no_tty` that it does
/// not write to a terminal, gets `headings` as its header and one row for each
/// of `rows`, every cell centred, and is written out with `to_string`. Told
/// so, the table asks nothing of the terminal and writes no colour codes: the
/// text is drawn from the cells alone, and has the name `table_text`.
#[verifier::external_body]
fn draw_table(headings: &MenuRow, rows: &Vec<MenuRow>) -> (text: String)
    ensures
        text@ == table_text(headings@, row_views(rows@)),
{
    let cell = |s: &String| Cell::new(s).set_alignment(CellAlignment::Center);
    let line = |r: &MenuRow| vec![cell(&r.id), cell(&r.name), cell(&r.address)];
    let mut table = Table::new();
    table.force_no_tty().set_header(line(headings));
    for row in rows {
        table.add_row(line(row));
    }
    table.to_string()
}

/// Draws the menu's table for the profiles: under the headings one line for
/// each profile, in the order given, with its id, its name and whom it
/// connects to. No profiles give the headings alone. The text depends on
/// nothing but the profiles.
pub fn render(profiles: &Vec<Summary>) -> (text: String)
    ensures
        text@ == table_text(headings(), rows_of(summary_views(profiles@))),
{
    let headings = menu_headings();
    let rows = menu_rows(profiles);
    assert(row_views(rows@) =~= rows_of(summary_views(profiles@)));
    draw_table(&headings, &rows)
}

} // verus!
