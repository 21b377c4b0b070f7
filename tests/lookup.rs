use serde_json::Value;
use steam_lookup::catalog::{match_apps, AppRecord};
use steam_lookup::lookup::{
    choose_match, details_from_text, index_accepted, lookup_matches, select_match, Field,
    LookupError,
};
use steam_lookup::records::find_appid_by_name;
use steam_lookup::render::{cover_image_url, render_details, store_page_url};

const CATALOG: &str = r#"{"applist":{"apps":[
    {"appid":1,"name":"Half-Life"},
    {"appid":2,"name":"Portal"},
    {"appid":220,"name":"half-life 2"}]}}"#;

fn entries(pairs: &[(i64, &str)]) -> Vec<(i64, String)> {
    pairs.iter().map(|(id, n)| (*id, n.to_string())).collect()
}

fn app(id: i64, name: &str) -> AppRecord {
    AppRecord { appid: Some(id), name: Some(name.to_string()) }
}

#[test]
fn match_is_case_insensitive_and_keeps_order() {
    let r = lookup_matches(CATALOG, "half").unwrap();
    assert_eq!(r, entries(&[(1, "Half-Life"), (220, "half-life 2")]));
}

#[test]
fn match_upper_case_query() {
    let r = lookup_matches(CATALOG, "HALF-LIFE").unwrap();
    assert_eq!(r, entries(&[(1, "Half-Life"), (220, "half-life 2")]));
}

#[test]
fn match_apps_on_records() {
    let recs = vec![app(1, "Half-Life"), app(2, "Portal"), app(220, "half-life 2")];
    assert_eq!(match_apps(&recs, "half"), Some(entries(&[(1, "Half-Life"), (220, "half-life 2")])));
    assert_eq!(match_apps(&recs, "portal"), Some(entries(&[(2, "Portal")])));
}

#[test]
fn match_apps_skips_incomplete_records() {
    let recs = vec![
        AppRecord { appid: None, name: Some("Half-Life".to_string()) },
        AppRecord { appid: Some(3), name: None },
        app(4, "Half-Life: Source"),
    ];
    assert_eq!(match_apps(&recs, "half"), Some(entries(&[(4, "Half-Life: Source")])));
}

#[test]
fn empty_query_matches_everything() {
    let recs = vec![app(1, "Half-Life"), app(2, "Portal")];
    assert_eq!(match_apps(&recs, ""), Some(entries(&[(1, "Half-Life"), (2, "Portal")])));
}

#[test]
fn no_match_is_signalled() {
    assert_eq!(lookup_matches(CATALOG, "zzz-no-such-title"), Err(LookupError::NoMatch));
    let recs = vec![app(1, "Half-Life"), app(2, "Portal"), app(220, "half-life 2")];
    assert_eq!(match_apps(&recs, "zzz-no-such-title"), None);
}

#[test]
fn empty_catalog_gives_no_match() {
    assert_eq!(match_apps(&Vec::new(), "a"), None);
    assert_eq!(lookup_matches(r#"{"applist":{"apps":[]}}"#, "a"), Err(LookupError::NoMatch));
}

#[test]
fn find_appid_by_name_reads_values() {
    let games: Vec<Value> = serde_json::from_str(
        r#"[{"appid":10,"name":"Counter-Strike"},{"appid":"x","name":"Strike"},{"appid":11}]"#,
    )
    .unwrap();
    assert_eq!(find_appid_by_name(&games, "strike"), Some(entries(&[(10, "Counter-Strike")])));
}

#[test]
fn catalog_errors() {
    assert_eq!(lookup_matches("not json", "a"), Err(LookupError::JsonParse));
    assert_eq!(lookup_matches("{}", "a"), Err(LookupError::MissingField(Field::Apps)));
}

#[test]
fn index_equal_to_count_passes_bounds_check_but_is_invalid() {
    let matches = entries(&[(70, "Half-Life")]);
    assert!(index_accepted(1, 1));
    assert!(!index_accepted(2, 1));
    assert_eq!(
        select_match(&matches, 1),
        Err(LookupError::IndexPastEnd { index: 1, count: 1 })
    );
    assert_eq!(
        choose_match(&matches, "1"),
        Err(LookupError::IndexPastEnd { index: 1, count: 1 })
    );
}

#[test]
fn index_past_count_is_out_of_range() {
    let matches = entries(&[(70, "Half-Life"), (1, "Half-Life 2")]);
    assert_eq!(
        select_match(&matches, 5),
        Err(LookupError::IndexOutOfRange { index: 5, count: 2 })
    );
}

#[test]
fn valid_index_selects_entry() {
    let matches = entries(&[(70, "Half-Life"), (220, "Half-Life 2")]);
    assert_eq!(select_match(&matches, 1), Ok((220, "Half-Life 2".to_string())));
    assert_eq!(choose_match(&matches, "0"), Ok((70, "Half-Life".to_string())));
    assert_eq!(choose_match(&matches, "+1"), Ok((220, "Half-Life 2".to_string())));
}

#[test]
fn non_numeric_index_is_a_parse_error() {
    let matches = entries(&[(70, "Half-Life")]);
    assert_eq!(choose_match(&matches, "one"), Err(LookupError::IndexParse));
    assert_eq!(choose_match(&matches, ""), Err(LookupError::IndexParse));
    assert_eq!(choose_match(&matches, "-1"), Err(LookupError::IndexParse));
}

const DETAIL: &str = r#"{"70":{"success":true,"data":{
    "short_description":"A classic FPS.",
    "categories":[{"description":"Single-player","id":2}],
    "genres":[{"description":"Action","id":"1"}],
    "package_groups":[{"title":"Buy Half-Life","description":"","display_type":0,
        "is_recurring_subscription":"false","name":"default","save_text":"",
        "selection_text":"Select a purchase option",
        "subs":[{"can_get_free_license":"0","is_free_license":false,
            "option_description":"","option_text":"Half-Life - 9,75€","packageid":7,
            "percent_savings":0,"percent_savings_text":" ",
            "price_in_cents_with_discount":975}]}]}}}"#;

#[test]
fn end_to_end_lookup_and_render() {
    let catalog = r#"{"applist":{"apps":[{"appid":400,"name":"Portal"},{"appid":70,"name":"Half-Life"}]}}"#;
    let matches = lookup_matches(catalog, "life").unwrap();
    assert_eq!(matches, entries(&[(70, "Half-Life")]));
    let game = choose_match(&matches, "0").unwrap();
    assert_eq!(game, (70, "Half-Life".to_string()));
    let details = details_from_text(DETAIL, game.0).unwrap();
    assert_eq!(details.description, "\"A classic FPS.\"");
    assert_eq!(details.categories, vec![("Single-player".to_string(), 2)]);
    assert_eq!(details.genres, vec![("Action".to_string(), "1".to_string())]);
    assert_eq!(details.packages.len(), 1);
    assert_eq!(details.packages[0].len(), 1);
    assert_eq!(details.package_groups[0].7.len(), 1);
    let text = render_details(&game, &details);
    assert!(text.starts_with("\u{1b}[2J\u{1b}[1;1H"));
    assert!(text.contains("Game found: Half-Life | 70\n"));
    assert!(text.contains("Categories:\nSingle-player, "));
    assert!(text.contains("Genres:\nAction, "));
    assert!(text.contains("Game description: \"A classic FPS.\"\n"));
    assert!(text.contains("Package Groups:\nPackages:\n"));
    assert!(text.contains("Name: Half-Life - 9,75€ | Desc:  | Free: false | Can: 0\n"));
    assert!(text.contains(
        "Savings/Price: %Savings: 0 | %Savings Text:   | Price in cents with discounts: 975\n"
    ));
    assert!(text.contains("Image: https://cdn.cloudflare.steamstatic.com/steam/apps/70/header.jpg\n"));
    assert!(text.contains("Steam Link: https://store.steampowered.com/app/70/\n"));
}

#[test]
fn detail_errors() {
    assert_eq!(details_from_text("{", 70).err(), Some(LookupError::JsonParse));
    let no_categories = DETAIL.replace("\"categories\"", "\"cats\"");
    assert_eq!(
        details_from_text(&no_categories, 70).err(),
        Some(LookupError::MissingField(Field::Categories))
    );
    let no_genres = DETAIL.replace("\"genres\"", "\"g\"");
    assert_eq!(
        details_from_text(&no_genres, 70).err(),
        Some(LookupError::MissingField(Field::Genres))
    );
    let no_groups = DETAIL.replace("\"title\"", "\"t\"");
    assert_eq!(
        details_from_text(&no_groups, 70).err(),
        Some(LookupError::MissingField(Field::PackageGroups))
    );
    let no_complete_package = DETAIL.replace("\"percent_savings\"", "\"p\"");
    assert_eq!(
        details_from_text(&no_complete_package, 70).err(),
        Some(LookupError::MissingField(Field::Packages))
    );
    assert_eq!(
        details_from_text(DETAIL, 71).err(),
        Some(LookupError::MissingField(Field::Categories))
    );
}

#[test]
fn urls_carry_the_id() {
    assert_eq!(cover_image_url(70), "https://cdn.cloudflare.steamstatic.com/steam/apps/70/header.jpg");
    assert_eq!(store_page_url(220), "https://store.steampowered.com/app/220/");
}

#[test]
fn parsed_catalog_matches() {
    let doc = steam_lookup::lookup::parse_json(CATALOG).unwrap();
    let r = steam_lookup::lookup::catalog_matches(&doc, "PORTAL").unwrap();
    assert_eq!(r, entries(&[(2, "Portal")]));
    assert_eq!(steam_lookup::lookup::parse_json("[").err(), Some(LookupError::JsonParse));
}
