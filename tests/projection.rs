use serde_json::Value;
use steam_lookup::detail::{
    categories_from, genres_from, package_groups_from, packages_from, CategoryRecord,
    PackageGroupRecord, PackageRecord,
};
use steam_lookup::records::{
    category_value_to_vec, genre_value_to_vec, package_value_to_vec, packet_value_to_vec,
};

fn values(text: &str) -> Vec<Value> {
    serde_json::from_str(text).unwrap()
}

const PACKAGES: &str = r#"[
    {"can_get_free_license":"0","is_free_license":false,"option_description":"d1",
     "option_text":"t1","packageid":7,"percent_savings":10,"percent_savings_text":"-10%",
     "price_in_cents_with_discount":900},
    {"can_get_free_license":"1","is_free_license":true,"option_description":"d2",
     "option_text":"t2","packageid":8,"percent_savings_text":"","price_in_cents_with_discount":0}]"#;

#[test]
fn category_missing_description_fails_whole_list() {
    let v = values(r#"[{"description":"Single-player","id":2},{"id":3}]"#);
    assert_eq!(category_value_to_vec(&v), None);
    let v = values(r#"[{"id":3}]"#);
    assert_eq!(category_value_to_vec(&v), None);
}

#[test]
fn category_list_keeps_order() {
    let v = values(r#"[{"description":"Single-player","id":2},{"description":"Steam Cloud","id":23},{"description":"Co-op","id":9}]"#);
    assert_eq!(
        category_value_to_vec(&v),
        Some(vec![
            ("Single-player".to_string(), 2),
            ("Steam Cloud".to_string(), 23),
            ("Co-op".to_string(), 9)
        ])
    );
}

#[test]
fn category_id_must_be_numeric() {
    let v = values(r#"[{"description":"Single-player","id":"2"}]"#);
    assert_eq!(category_value_to_vec(&v), None);
}

#[test]
fn empty_category_list_fails() {
    assert_eq!(category_value_to_vec(&Vec::new()), None);
    assert_eq!(categories_from(&Vec::new()), None);
}

#[test]
fn categories_from_records() {
    let recs = vec![
        CategoryRecord { description: Some("A".to_string()), id: Some(1) },
        CategoryRecord { description: Some("B".to_string()), id: Some(2) },
    ];
    assert_eq!(categories_from(&recs), Some(vec![("A".to_string(), 1), ("B".to_string(), 2)]));
    let recs = vec![
        CategoryRecord { description: Some("A".to_string()), id: Some(1) },
        CategoryRecord { description: None, id: Some(2) },
    ];
    assert_eq!(categories_from(&recs), None);
}

#[test]
fn genre_id_is_textual() {
    let v = values(r#"[{"description":"Action","id":"1"},{"description":"Indie","id":"23"}]"#);
    assert_eq!(
        genre_value_to_vec(&v),
        Some(vec![
            ("Action".to_string(), "1".to_string()),
            ("Indie".to_string(), "23".to_string())
        ])
    );
    let v = values(r#"[{"description":"Action","id":1}]"#);
    assert_eq!(genre_value_to_vec(&v), None);
    assert_eq!(genres_from(&Vec::new()), None);
}

#[test]
fn package_missing_percent_savings_is_dropped() {
    let v = values(PACKAGES);
    assert_eq!(
        package_value_to_vec(&v),
        Some(vec![(
            "0".to_string(),
            false,
            "d1".to_string(),
            "t1".to_string(),
            7,
            10,
            "-10%".to_string(),
            900
        )])
    );
}

#[test]
fn packages_all_incomplete_gives_none() {
    let v = values(r#"[{"packageid":1}]"#);
    assert_eq!(package_value_to_vec(&v), None);
    assert_eq!(packages_from(&Vec::new()), None);
}

fn package(id: i64, complete: bool) -> PackageRecord {
    PackageRecord {
        can_get_free_license: Some("0".to_string()),
        is_free_license: Some(false),
        option_description: Some(String::new()),
        option_text: Some(format!("p{}", id)),
        package_id: Some(id),
        percent_savings: if complete { Some(0) } else { None },
        percent_savings_text: Some(String::new()),
        price_in_cents_with_discount: Some(100),
    }
}

fn group(title: Option<&str>, subs: Vec<PackageRecord>) -> PackageGroupRecord {
    PackageGroupRecord {
        title: title.map(|t| t.to_string()),
        description: Some(String::new()),
        display_type: Some(0),
        is_recurring_subscription: Some("false".to_string()),
        name: Some("default".to_string()),
        save_text: Some(String::new()),
        selection_text: Some("Select".to_string()),
        subs: Some(subs),
    }
}

#[test]
fn package_groups_keep_every_package_record() {
    let recs = vec![group(Some("Buy"), vec![package(1, false), package(2, true)])];
    let r = package_groups_from(&recs).unwrap();
    assert_eq!(r.len(), 1);
    assert_eq!(r[0].0, "Buy");
    assert_eq!(r[0].7.len(), 2);
    assert_eq!(r[0].7[0].package_id, Some(1));
    assert_eq!(r[0].7[0].percent_savings, None);
    assert_eq!(r[0].7[1].package_id, Some(2));
    let packages = packages_from(&r[0].7).unwrap();
    assert_eq!(packages.len(), 1);
    assert_eq!(packages[0].4, 2);
}

#[test]
fn package_group_missing_member_fails_whole_list() {
    let recs = vec![group(Some("Buy"), vec![package(1, true)]), group(None, vec![package(2, true)])];
    assert!(package_groups_from(&recs).is_none());
    assert!(package_groups_from(&Vec::new()).is_none());
}

#[test]
fn package_group_without_complete_package_is_kept() {
    let recs = vec![group(Some("Buy"), vec![package(1, false)]), group(Some("Gift"), vec![])];
    let r = package_groups_from(&recs).unwrap();
    assert_eq!(r.len(), 2);
    assert_eq!(r[0].0, "Buy");
    assert_eq!(r[0].7.len(), 1);
    assert_eq!(packages_from(&r[0].7), None);
    assert_eq!(r[1].0, "Gift");
    assert!(r[1].7.is_empty());
}

#[test]
fn packet_value_to_vec_keeps_group_with_empty_subs() {
    let v = values(
        r#"[{"title":"Buy","description":"","display_type":0,"is_recurring_subscription":"false",
        "name":"default","save_text":"","selection_text":"Pick","subs":[]}]"#,
    );
    let r = packet_value_to_vec(&v).unwrap();
    assert_eq!(r.len(), 1);
    assert_eq!(r[0].0, "Buy");
    assert_eq!(r[0].6, "Pick");
    assert!(r[0].7.is_empty());
}

#[test]
fn packet_value_to_vec_reads_subs() {
    let text = format!(
        r#"[{{"title":"Buy","description":"","display_type":1,"is_recurring_subscription":"false",
        "name":"default","save_text":"","selection_text":"Select","subs":{}}}]"#,
        PACKAGES
    );
    let r = packet_value_to_vec(&values(&text)).unwrap();
    assert_eq!(r[0].2, 1);
    assert_eq!(r[0].7.len(), 2);
    assert_eq!(r[0].7[1].percent_savings, None);
    assert_eq!(packages_from(&r[0].7).unwrap().len(), 1);
    let missing_subs = values(
        r#"[{"title":"Buy","description":"","display_type":1,"is_recurring_subscription":"false",
        "name":"default","save_text":"","selection_text":"Select"}]"#,
    );
    assert!(packet_value_to_vec(&missing_subs).is_none());
}
