use gameday::boxscore::{parse_attendance, parse_weather, split_boxscore_xml, BoxscoreError};
use gameday::links::{create_inning_links, game_day_links, game_day_url, year_level_from_url};
use gameday::numbers::{parse_u32, parse_u8};
use gameday::players::{height_in_inches, people_json_slice};
use gameday::split::{find_first, split_str, trim_end_matches_char, trim_str};
use gameday::umpires::{game_umpires_from, Umpire};

#[test]
fn split_on_literal_separator() {
    let parts = split_str("a<b>bb<b>", "<b>");
    assert_eq!(parts, vec!["a", "bb", ""]);
    let parts = split_str("no separator here", "<b>");
    assert_eq!(parts, vec!["no separator here"]);
    let parts = split_str("", ",");
    assert_eq!(parts, vec![""]);
    let parts = split_str("aaa", "aa");
    assert_eq!(parts, vec!["", "a"]);
}

#[test]
fn find_first_returns_leftmost_match() {
    assert_eq!(find_first("abcabc", "bc"), Some(1));
    assert_eq!(find_first("abcabc", "zz"), None);
    assert_eq!(find_first("abc", "abc"), Some(0));
}

#[test]
fn trimming_whitespace_and_trailing_characters() {
    assert_eq!(trim_str("  cloudy.  "), "cloudy.");
    assert_eq!(trim_str("\t\n x \r"), "x");
    assert_eq!(trim_str("   "), "");
    assert_eq!(trim_str(""), "");
    assert_eq!(trim_end_matches_char("cloudy..", '.'), "cloudy");
    assert_eq!(trim_end_matches_char("cloudy", '.'), "cloudy");
    assert_eq!(trim_end_matches_char("...", '.'), "");
}

#[test]
fn decimal_parsing_is_exact() {
    assert_eq!(parse_u32("0"), Some(0));
    assert_eq!(parse_u32("41234"), Some(41234));
    assert_eq!(parse_u32("4294967295"), Some(4294967295));
    assert_eq!(parse_u32("4294967296"), None);
    assert_eq!(parse_u32(""), None);
    assert_eq!(parse_u32("12a"), None);
    assert_eq!(parse_u32("-3"), None);
    assert_eq!(parse_u32("+3"), None);
    assert_eq!(parse_u8("72"), Some(72));
    assert_eq!(parse_u8("255"), Some(255));
    assert_eq!(parse_u8("256"), None);
}

const BOXSCORE: &str = "intro<b>Weather: 72 degrees, clear.<br/></b><b>Wind: 8 mph, Out to CF.<br/></b><b>Att: 41,234.<br/></b>";

#[test]
fn boxscore_items_are_extracted() {
    let items = split_boxscore_xml(BOXSCORE).unwrap();
    assert_eq!(items.len(), 3);
    assert_eq!(items[0], "72 degrees, clear.<br/></b>");
    assert_eq!(items[1], "8 mph, Out to CF.<br/></b>");
    assert_eq!(items[2], "41,234.<br/></b>");
}

#[test]
fn boxscore_errors_name_the_failing_expectation() {
    assert_eq!(split_boxscore_xml("nothing here"), Err(BoxscoreError::MissingItems));
    let no_degrees = "<b>Weather: hot.<br/></b><b>Wind: 8 mph, Out.<br/></b>";
    assert_eq!(split_boxscore_xml(no_degrees), Err(BoxscoreError::WeatherFormat));
    let no_mph = "<b>Weather: 72 degrees, clear.<br/></b><b>Wind: calm.<br/></b>";
    assert_eq!(split_boxscore_xml(no_mph), Err(BoxscoreError::WindFormat));
}

#[test]
fn weather_item_parses_to_number_and_condition() {
    assert_eq!(parse_weather("72 degrees, clear.<br/>"), Some((72, "clear".to_string())));
    assert_eq!(parse_weather("8 mph, Out to CF.<br/>"), Some((8, "Out to CF".to_string())));
    assert_eq!(parse_weather("hot, clear.<br/>"), None);
    assert_eq!(parse_weather("72 degrees and clear"), None);
}

#[test]
fn attendance_parses_through_separators() {
    assert_eq!(parse_attendance("41,234.<br/>"), Some(41234));
    assert_eq!(parse_attendance(" 7 "), Some(7));
    assert_eq!(parse_attendance("unknown"), None);
}

#[test]
fn day_url_is_assembled() {
    let url = game_day_url("mlb", "2008", "06", "10");
    assert_eq!(url, "http://gd2.mlb.com/components/game/mlb/year_2008/month_06/day_10");
}

#[test]
fn inning_links_are_assembled() {
    let links = create_inning_links(
        "http://example.invalid/game/",
        &vec!["1".to_string(), "2".to_string()],
    );
    assert_eq!(
        links,
        vec![
            "http://example.invalid/game/inning/inning_1.xml",
            "http://example.invalid/game/inning/inning_2.xml",
        ]
    );
}

#[test]
fn game_links_are_harvested_from_the_day_page() {
    let page = "<html><li><a href=\"x\"> gid_2008_06_10_a/</a></li><li>other</li><li><a href=\"y\"> gid_2008_06_10_b/</a></li>";
    let links = game_day_links("http://root", page).unwrap();
    assert_eq!(
        links,
        vec!["http://root/gid_2008_06_10_a/", "http://root/gid_2008_06_10_b/"]
    );
}

#[test]
fn malformed_game_line_refuses_the_page() {
    assert_eq!(game_day_links("http://root", "<li>gid_broken"), None);
}

#[test]
fn year_and_level_come_from_the_url() {
    let url = "http://gd2.mlb.com/components/game/mlb/year_2008/month_06/day_10/gid_x/";
    let (year, level) = year_level_from_url(url).unwrap();
    assert_eq!(year, "2008");
    assert_eq!(level, "mlb");
    assert_eq!(year_level_from_url("http://short"), None);
}

fn umpire(position: &str, name: &str, id: Option<u32>) -> Umpire {
    Umpire { position: position.to_string(), name: name.to_string(), id }
}

#[test]
fn umpire_list_pivots_to_positions() {
    let umps = vec![
        umpire("home", "Alice Example", Some(11)),
        umpire("first", "Bob Example", Some(22)),
        umpire("third", "Carol Example", None),
    ];
    let game = game_umpires_from(&umps);
    assert_eq!(game.ump_HP_id, Some(11));
    assert_eq!(game.ump_HP_name, "Alice Example");
    assert_eq!(game.ump_1B_id, Some(22));
    assert_eq!(game.ump_1B_name, "Bob Example");
    assert_eq!(game.ump_3B_id, None);
    assert_eq!(game.ump_3B_name, "Carol Example");
    // unfilled positions stay empty
    assert_eq!(game.ump_2B_id, None);
    assert_eq!(game.ump_2B_name, "");
    assert_eq!(game.ump_LF_name, "");
    assert_eq!(game.ump_RF_name, "");
}

#[test]
fn repeated_position_keeps_the_later_entry() {
    let umps = vec![
        umpire("home", "Early Example", Some(1)),
        umpire("home", "Late Example", Some(2)),
    ];
    let game = game_umpires_from(&umps);
    assert_eq!(game.ump_HP_id, Some(2));
    assert_eq!(game.ump_HP_name, "Late Example");
}

#[test]
fn heights_read_as_inches() {
    assert_eq!(height_in_inches("6' 2"), Some(74));
    assert_eq!(height_in_inches("5' 11"), Some(71));
    // a segment that does not parse cleanly is dropped, not guessed at
    assert_eq!(height_in_inches("6' 2\""), Some(72));
    assert_eq!(height_in_inches("6'"), Some(72));
    assert_eq!(height_in_inches(""), Some(0));
    assert_eq!(height_in_inches("1' 2' 3"), None);
}

#[test]
fn people_array_is_cut_from_the_envelope() {
    let raw = "{ \"copyright\" : \"x\", \"people\" : [ { \"id\" : 1 } ] }";
    assert_eq!(people_json_slice(raw), "{ \"id\" : 1 }");
    assert_eq!(people_json_slice("{ \"nothing\" : 1 }"), "");
}
