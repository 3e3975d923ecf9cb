use proxy_watch::models::RosterError;
use proxy_watch::roster::{parse_row, parse_rows, HtmlParser};

fn columns(texts: &[&str]) -> Vec<String> {
    texts.iter().map(|s| s.to_string()).collect()
}

#[test]
fn row_with_six_columns_parses() {
    let row = columns(&["#", "Alice", "x", "10.0.0.5", "y", "STEAM_1"]);
    let p = parse_row(&row).unwrap();
    assert_eq!(p.name, "Alice");
    assert_eq!(p.ip, "10.0.0.5");
    assert_eq!(p.steam_id, "STEAM_1");
}

#[test]
fn row_with_four_columns_fails() {
    let row = columns(&["#", "Alice", "x", "10.0.0.5"]);
    assert_eq!(parse_row(&row), Err(RosterError::MalformedRow));
}

#[test]
fn one_malformed_row_fails_the_whole_roster() {
    let rows = vec![
        columns(&["#", "Alice", "x", "10.0.0.5", "y", "STEAM_1"]),
        columns(&["#", "Bob", "x", "10.0.0.6"]),
    ];
    assert_eq!(parse_rows(&rows), Err(RosterError::MalformedRow));
}

#[test]
fn empty_roster_parses_to_no_players() {
    let rows: Vec<Vec<String>> = Vec::new();
    assert_eq!(parse_rows(&rows), Ok(Vec::new()));
}

#[test]
fn roster_page_parses_players() {
    let html = "<html><body><table id=\"players\"><tbody>\
        <tr><td>1</td><td> Alice </td><td>x</td><td>10.0.0.5</td><td>y</td><td>STEAM_1</td></tr>\
        <tr><td>2</td><td>Bob</td><td>x</td><td>192.168.0.9</td><td>y</td><td>STEAM_2</td></tr>\
        </tbody></table></body></html>";
    let players = HtmlParser::parse_players(html).unwrap();
    assert_eq!(players.len(), 2);
    assert_eq!(players[0].name, "Alice");
    assert_eq!(players[0].ip, "10.0.0.5");
    assert_eq!(players[0].steam_id, "STEAM_1");
    assert_eq!(players[1].name, "Bob");
    assert_eq!(players[1].ip, "192.168.0.9");
    assert_eq!(players[1].steam_id, "STEAM_2");
}

#[test]
fn roster_page_with_short_row_fails() {
    let html = "<table id=\"players\"><tbody>\
        <tr><td>1</td><td>Alice</td><td>x</td><td>10.0.0.5</td></tr>\
        </tbody></table>";
    assert_eq!(
        HtmlParser::parse_players(html),
        Err(RosterError::MalformedRow)
    );
}

#[test]
fn page_without_players_table_parses_to_no_players() {
    let html = "<html><body><p>nothing here</p></body></html>";
    let players = HtmlParser::parse_players(html).unwrap();
    assert!(players.is_empty());
}
