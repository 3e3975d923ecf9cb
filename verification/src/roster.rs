//! Parsing the web-admin roster page.
//!
//! The page is an HTML document holding a table of connected players.
//! Picking the table's rows and cells out of the document is the work of
//! the `scraper` crate, behind one trusted extraction call; everything
//! after that — which columns make a player, and when a row is malformed
//! — is verified here.

use vstd::prelude::*;

use crate::models::{Player, RosterError};

verus! {

/// The CSS selector picking the player rows out of the document.
pub const ROW_SELECTOR: &'static str = "table#players tbody tr";

/// The CSS selector picking the cells out of one row.
pub const CELL_SELECTOR: &'static str = "td";

/// The trimmed visible text of every cell of every row that the two CSS
/// selectors pick out of an HTML document; a function of the three
/// strings alone.
pub uninterp spec fn table_cells_of(
    html: Seq<char>,
    row_selector: Seq<char>,
    cell_selector: Seq<char>,
) -> Seq<Seq<Seq<char>>>;

/// Whether a string is a valid CSS selector.
pub uninterp spec fn selector_ok(selector: Seq<char>) -> bool;

/// Relies on scraper — `Html::parse_document`, `Selector::parse`,
/// `Html::select`, `ElementRef::select`, `ElementRef::text` — and on
/// `str::trim`: parses the document, picks out the rows the first
/// selector matches, and returns each row's cells' trimmed text;
/// `None` exactly when a selector string is not valid CSS.
#[verifier::external_body]
fn extract_cells(html: &str, row_selector: &str, cell_selector: &str) -> (r: Option<
    Vec<Vec<String>>,
>)
    ensures
        (r is Some) == (selector_ok(row_selector@) && selector_ok(cell_selector@)),
        r matches Some(rows) ==> rows.deep_view() == table_cells_of(
            html@,
            row_selector@,
            cell_selector@,
        ),
{
    let document = scraper::Html::parse_document(html);
    let row_sel = scraper::Selector::parse(row_selector).ok()?;
    let cell_sel = scraper::Selector::parse(cell_selector).ok()?;
    Some(
        document.select(&row_sel).map(
            |row|
                row.select(&cell_sel).map(
                    |td| td.text().collect::<String>().trim().to_string(),
                ).collect(),
        ).collect(),
    )
}

/// A row parses when it has at least the six columns the page lays out.
pub open spec fn row_ok(row: Seq<Seq<char>>) -> bool {
    row.len() >= 6
}

/// Every row of the table parses.
pub open spec fn rows_ok(rows: Seq<Seq<Seq<char>>>) -> bool {
    forall|i: int| 0 <= i < rows.len() ==> row_ok(#[trigger] rows[i])
}

/// The player a well-formed row describes: column 1 is the name, column
/// 3 the IP address, column 5 the platform identifier.
pub open spec fn player_of_row(row: Seq<Seq<char>>) -> crate::models::PlayerView {
    crate::models::PlayerView { name: row[1], ip: row[3], steam_id: row[5] }
}

/// One roster row, already split into its columns' text.
pub fn parse_row(columns: &Vec<String>) -> (r: Result<Player, RosterError>)
    ensures
        columns.deep_view().len() >= 6 ==> (r matches Ok(p) && p@ == player_of_row(
            columns.deep_view(),
        )),
        columns.deep_view().len() < 6 ==> r == Err::<Player, RosterError>(
            RosterError::MalformedRow,
        ),
{
    if columns.len() < 6 {
        return Err(RosterError::MalformedRow);
    }
    Ok(
        Player {
            name: columns[1].clone(),
            ip: columns[3].clone(),
            steam_id: columns[5].clone(),
        },
    )
}

/// The whole table, row by row. One malformed row fails the whole
/// roster, as the page's current consumers expect.
pub fn parse_rows(rows: &Vec<Vec<String>>) -> (r: Result<Vec<Player>, RosterError>)
    ensures
        rows_ok(rows.deep_view()) <==> r is Ok,
        r matches Ok(ps) ==> ps@.len() == rows.deep_view().len() && forall|i: int|
            0 <= i < ps@.len() ==> (#[trigger] ps@[i])@ == player_of_row(rows.deep_view()[i]),
        r matches Err(e) ==> e == RosterError::MalformedRow,
{
    let mut players: Vec<Player> = Vec::new();
    let n = rows.len();
    let mut i: usize = 0;
    while i < n
        invariant
            n == rows@.len(),
            i <= n,
            players@.len() == i,
            forall|p: int| 0 <= p < i ==> row_ok(#[trigger] rows.deep_view()[p]),
            forall|p: int|
                0 <= p < i ==> (#[trigger] players@[p])@ == player_of_row(rows.deep_view()[p]),
        decreases n - i,
    {
        assert(rows.deep_view()[i as int] == rows@[i as int].deep_view());
        match parse_row(&rows[i]) {
            Ok(p) => players.push(p),
            Err(e) => {
                return Err(e);
            },
        }
        i += 1;
    }
    Ok(players)
}

/// Fetches nothing itself: turns the already-downloaded roster page into
/// players.
pub struct HtmlParser;

impl HtmlParser {
    /// The full roster parse: pick the player rows out of the HTML
    /// document and read a player off each one.
    pub fn parse_players(html: &str) -> (r: Result<Vec<Player>, RosterError>)
        ensures
            !(selector_ok(ROW_SELECTOR@) && selector_ok(CELL_SELECTOR@)) ==> r == Err::<
                Vec<Player>,
                RosterError,
            >(RosterError::Selector),
            selector_ok(ROW_SELECTOR@) && selector_ok(CELL_SELECTOR@) ==> ({
                let cells = table_cells_of(html@, ROW_SELECTOR@, CELL_SELECTOR@);
                &&& (rows_ok(cells) <==> r is Ok)
                &&& (r matches Ok(ps) ==> ps@.len() == cells.len() && forall|i: int|
                    0 <= i < ps@.len() ==> (#[trigger] ps@[i])@ == player_of_row(cells[i]))
                &&& (r matches Err(e) ==> e == RosterError::MalformedRow)
            }),
    {
        match extract_cells(html, ROW_SELECTOR, CELL_SELECTOR) {
            None => Err(RosterError::Selector),
            Some(rows) => parse_rows(&rows),
        }
    }
}

} // verus!
