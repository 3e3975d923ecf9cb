use proxy_watch::checker::{IpChecker, LookupStep};
use proxy_watch::models::{IpQualityApiResponse, LookupError, Player};
use proxy_watch::report::scan_report;
use proxy_watch::roster::HtmlParser;

fn player(name: &str, ip: &str) -> Player {
    Player {
        name: name.to_string(),
        ip: ip.to_string(),
        steam_id: "STEAM_0".to_string(),
    }
}

fn verdict(proxy: bool, vpn: bool) -> IpQualityApiResponse {
    IpQualityApiResponse {
        country_code: "US".to_string(),
        proxy,
        vpn,
    }
}

#[test]
fn proxy_player_is_reported_exactly_once() {
    let results = vec![
        (player("Alice", "1.2.3.4"), Ok(verdict(true, false))),
        (player("Bob", "5.6.7.8"), Ok(verdict(false, false))),
    ];
    let report = scan_report(&results);
    assert_eq!(report.flagged.len(), 1);
    assert_eq!(report.flagged[0].0.name, "Alice");
    assert!(report.flagged[0].1.proxy);
    assert!(report.failed.is_empty());
}

#[test]
fn vpn_flag_alone_is_reported() {
    let results = vec![(player("Carol", "4.4.4.4"), Ok(verdict(false, true)))];
    let report = scan_report(&results);
    assert_eq!(report.flagged.len(), 1);
    assert_eq!(report.flagged[0].0.name, "Carol");
}

#[test]
fn clean_players_are_not_reported() {
    let results = vec![
        (player("Bob", "5.6.7.8"), Ok(verdict(false, false))),
        (player("Dan", "5.6.7.9"), Ok(verdict(false, false))),
    ];
    let report = scan_report(&results);
    assert!(report.flagged.is_empty());
    assert!(report.failed.is_empty());
}

#[test]
fn one_failed_lookup_does_not_drop_the_others() {
    let results = vec![
        (
            player("Eve", "6.6.6.6"),
            Err(LookupError::Transport("timeout".to_string())),
        ),
        (player("Alice", "1.2.3.4"), Ok(verdict(true, true))),
    ];
    let report = scan_report(&results);
    assert_eq!(report.failed.len(), 1);
    assert_eq!(report.failed[0].0.name, "Eve");
    assert_eq!(
        report.failed[0].1,
        LookupError::Transport("timeout".to_string())
    );
    assert_eq!(report.flagged.len(), 1);
    assert_eq!(report.flagged[0].0.name, "Alice");
}

#[test]
fn roster_failure_does_not_stop_the_next_scan() {
    let mut checker = IpChecker::new("key".to_string());
    let mut calls: usize = 0;

    // first scan: the page is malformed, the whole roster fetch fails
    let bad_page = "<table id=\"players\"><tbody>\
        <tr><td>1</td><td>Alice</td><td>x</td><td>1.2.3.4</td></tr>\
        </tbody></table>";
    assert!(HtmlParser::parse_players(bad_page).is_err());

    // next scan: a well-formed page goes through the full pipeline
    let good_page = "<table id=\"players\"><tbody>\
        <tr><td>1</td><td>Alice</td><td>x</td><td>1.2.3.4</td><td>y</td><td>STEAM_1</td></tr>\
        </tbody></table>";
    let players = HtmlParser::parse_players(good_page).unwrap();
    let mut results = Vec::new();
    for p in players {
        let outcome = match checker.get(&p.ip) {
            LookupStep::Hit(v) => Ok(v),
            LookupStep::Miss(_) => {
                calls += 1;
                checker.settle(&p.ip, Ok(verdict(true, false)))
            }
        };
        results.push((p, outcome));
    }
    let report = scan_report(&results);
    assert_eq!(calls, 1);
    assert_eq!(report.flagged.len(), 1);
    assert_eq!(report.flagged[0].0.name, "Alice");
}
