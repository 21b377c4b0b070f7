//! Reading the records of the JSON documents into the library's plain types,
//! and projecting them.

use vstd::prelude::*;
use vstd::string::StringExecFns;
use crate::catalog::{app_view, app_views, match_apps, match_result, AppRecord, AppView};
use crate::detail::{
    categories_from, categories_result, category_view, genre_view, genres_from, genres_result,
    group_view, groups_result, package_groups_from, package_view, package_views, packages_from,
    packages_result, CategoryRecord, CategoryView, GenreRecord, GenreView, GroupView, PackageDetail,
    PackageGroup, PackageGroupRecord, PackageRecord, PackageView,
};
use crate::json::{json_array_of, json_bool_of, json_i64_of, json_member_of, json_str_of, member};

verus! {

/// The integer member named `key`.
pub open spec fn i64_at(v: serde_json::Value, key: Seq<char>) -> Option<i64> {
    json_i64_of(json_member_of(v, key))
}

/// The boolean member named `key`.
pub open spec fn bool_at(v: serde_json::Value, key: Seq<char>) -> Option<bool> {
    json_bool_of(json_member_of(v, key))
}

/// The string member named `key`.
pub open spec fn str_at(v: serde_json::Value, key: Seq<char>) -> Option<Seq<char>> {
    json_str_of(json_member_of(v, key))
}

/// The array member named `key`.
pub open spec fn array_at(v: serde_json::Value, key: Seq<char>) -> Option<Seq<serde_json::Value>> {
    json_array_of(json_member_of(v, key))
}

/// What a catalog record holds.
pub open spec fn app_value_view(v: serde_json::Value) -> AppView {
    (i64_at(v, "appid"@), str_at(v, "name"@))
}

/// What a category record holds.
pub open spec fn category_value_view(v: serde_json::Value) -> CategoryView {
    (str_at(v, "description"@), i64_at(v, "id"@))
}

/// What a genre record holds.
pub open spec fn genre_value_view(v: serde_json::Value) -> GenreView {
    (str_at(v, "description"@), str_at(v, "id"@))
}

/// What a package record holds.
pub open spec fn package_value_view(v: serde_json::Value) -> PackageView {
    (
        str_at(v, "can_get_free_license"@),
        bool_at(v, "is_free_license"@),
        str_at(v, "option_description"@),
        str_at(v, "option_text"@),
        i64_at(v, "packageid"@),
        i64_at(v, "percent_savings"@),
        str_at(v, "percent_savings_text"@),
        i64_at(v, "price_in_cents_with_discount"@),
    )
}

/// What a package group record holds; its packages are under `subs`.
pub open spec fn group_value_view(v: serde_json::Value) -> GroupView {
    (
        str_at(v, "title"@),
        str_at(v, "description"@),
        i64_at(v, "display_type"@),
        str_at(v, "is_recurring_subscription"@),
        str_at(v, "name"@),
        str_at(v, "save_text"@),
        str_at(v, "selection_text"@),
        match array_at(v, "subs"@) {
            Some(a) => Some(a.map_values(|p: serde_json::Value| package_value_view(p))),
            None => None,
        },
    )
}

fn read_i64(v: &serde_json::Value, key: &str) -> (r: Option<i64>)
    ensures
        r == i64_at(*v, key@),
{
    member(v, key).as_i64()
}

fn read_bool(v: &serde_json::Value, key: &str) -> (r: Option<bool>)
    ensures
        r == bool_at(*v, key@),
{
    member(v, key).as_bool()
}

fn read_string(v: &serde_json::Value, key: &str) -> (r: Option<String>)
    ensures
        crate::catalog::str_opt(r) == str_at(*v, key@),
{
    match member(v, key).as_str() {
        Some(s) => Some(String::from_str(s)),
        None => None,
    }
}

/// The array member named `key`, where there is one.
pub fn read_array<'a>(v: &'a serde_json::Value, key: &str) -> (r: Option<&'a Vec<serde_json::Value>>)
    ensures
        r.is_some() == array_at(*v, key@).is_some(),
        r matches Some(a) ==> a@ == array_at(*v, key@).unwrap(),
{
    member(v, key).as_array()
}

/// Reads `appid` and `name` of a catalog record.
pub fn app_record(v: &serde_json::Value) -> (r: AppRecord)
    ensures
        app_view(r) == app_value_view(*v),
{
    AppRecord { appid: read_i64(v, "appid"), name: read_string(v, "name") }
}

/// Reads `description` and `id` of a category record.
pub fn category_record(v: &serde_json::Value) -> (r: CategoryRecord)
    ensures
        category_view(r) == category_value_view(*v),
{
    CategoryRecord { description: read_string(v, "description"), id: read_i64(v, "id") }
}

/// Reads `description` and `id` of a genre record.
pub fn genre_record(v: &serde_json::Value) -> (r: GenreRecord)
    ensures
        genre_view(r) == genre_value_view(*v),
{
    GenreRecord { description: read_string(v, "description"), id: read_string(v, "id") }
}

/// Reads the members of a package record.
pub fn package_record(v: &serde_json::Value) -> (r: PackageRecord)
    ensures
        package_view(r) == package_value_view(*v),
{
    PackageRecord {
        can_get_free_license: read_string(v, "can_get_free_license"),
        is_free_license: read_bool(v, "is_free_license"),
        option_description: read_string(v, "option_description"),
        option_text: read_string(v, "option_text"),
        package_id: read_i64(v, "packageid"),
        percent_savings: read_i64(v, "percent_savings"),
        percent_savings_text: read_string(v, "percent_savings_text"),
        price_in_cents_with_discount: read_i64(v, "price_in_cents_with_discount"),
    }
}

/// Reads each record of a list with `package_record`.
pub fn package_records(values: &Vec<serde_json::Value>) -> (r: Vec<PackageRecord>)
    ensures
        package_views(r@) == values@.map_values(|p: serde_json::Value| package_value_view(p)),
{
    let mut out: Vec<PackageRecord> = Vec::new();
    let mut k: usize = 0;
    while k < values.len()
        invariant
            k <= values.len(),
            out.len() == k,
            forall|i: int|
                0 <= i < k ==> package_view(#[trigger] out@[i]) == package_value_view(values@[i]),
        decreases values.len() - k,
    {
        out.push(package_record(&values[k]));
        k = k + 1;
    }
    assert(package_views(out@) =~= values@.map_values(|p: serde_json::Value| package_value_view(p)));
    out
}

/// Reads the members of a package group record; its packages are under `subs`.
pub fn package_group_record(v: &serde_json::Value) -> (r: PackageGroupRecord)
    ensures
        group_view(r) == group_value_view(*v),
{
    let subs = match read_array(v, "subs") {
        Some(values) => Some(package_records(values)),
        None => None,
    };
    PackageGroupRecord {
        title: read_string(v, "title"),
        description: read_string(v, "description"),
        display_type: read_i64(v, "display_type"),
        is_recurring_subscription: read_string(v, "is_recurring_subscription"),
        name: read_string(v, "name"),
        save_text: read_string(v, "save_text"),
        selection_text: read_string(v, "selection_text"),
        subs,
    }
}

/// The catalog entries whose name contains `target_name`, ignoring case, in
/// catalog order; `None` where there is none. Records without an integer
/// `appid` or a string `name` are passed over.
pub fn find_appid_by_name(all_games: &Vec<serde_json::Value>, target_name: &str) -> (r: Option<
    Vec<(i64, String)>,
>)
    ensures
        match_result(
            all_games@.map_values(|v: serde_json::Value| app_value_view(v)),
            target_name@,
            r,
        ),
{
    let mut recs: Vec<AppRecord> = Vec::new();
    let mut k: usize = 0;
    while k < all_games.len()
        invariant
            k <= all_games.len(),
            recs.len() == k,
            forall|i: int| 0 <= i < k ==> app_view(#[trigger] recs@[i]) == app_value_view(all_games@[i]),
        decreases all_games.len() - k,
    {
        recs.push(app_record(&all_games[k]));
        k = k + 1;
    }
    assert(app_views(recs@) =~= all_games@.map_values(|v: serde_json::Value| app_value_view(v)));
    match_apps(&recs, target_name)
}

/// The categories as `(name, id)` pairs in input order; `None` where the list
/// is empty or any record lacks a string `description` or an integer `id`.
pub fn category_value_to_vec(categories: &Vec<serde_json::Value>) -> (r: Option<Vec<(String, i64)>>)
    ensures
        categories_result(
            categories@.map_values(|v: serde_json::Value| category_value_view(v)),
            r,
        ),
{
    let mut recs: Vec<CategoryRecord> = Vec::new();
    let mut k: usize = 0;
    while k < categories.len()
        invariant
            k <= categories.len(),
            recs.len() == k,
            forall|i: int|
                0 <= i < k ==> category_view(#[trigger] recs@[i]) == category_value_view(categories@[i]),
        decreases categories.len() - k,
    {
        recs.push(category_record(&categories[k]));
        k = k + 1;
    }
    assert(recs@.map_values(|c: CategoryRecord| category_view(c)) =~= categories@.map_values(
        |v: serde_json::Value| category_value_view(v),
    ));
    categories_from(&recs)
}

/// The genres as `(name, id)` pairs in input order; `None` where the list is
/// empty or any record lacks a string `description` or a string `id`.
pub fn genre_value_to_vec(genres: &Vec<serde_json::Value>) -> (r: Option<Vec<(String, String)>>)
    ensures
        genres_result(genres@.map_values(|v: serde_json::Value| genre_value_view(v)), r),
{
    let mut recs: Vec<GenreRecord> = Vec::new();
    let mut k: usize = 0;
    while k < genres.len()
        invariant
            k <= genres.len(),
            recs.len() == k,
            forall|i: int|
                0 <= i < k ==> genre_view(#[trigger] recs@[i]) == genre_value_view(genres@[i]),
        decreases genres.len() - k,
    {
        recs.push(genre_record(&genres[k]));
        k = k + 1;
    }
    assert(recs@.map_values(|g: GenreRecord| genre_view(g)) =~= genres@.map_values(
        |v: serde_json::Value| genre_value_view(v),
    ));
    genres_from(&recs)
}

/// The complete package records as tuples in input order, the incomplete ones
/// left out; `None` where none is complete.
pub fn package_value_to_vec(packages: &Vec<serde_json::Value>) -> (r: Option<Vec<PackageDetail>>)
    ensures
        packages_result(packages@.map_values(|v: serde_json::Value| package_value_view(v)), r),
{
    let recs = package_records(packages);
    packages_from(&recs)
}

/// The package groups as tuples in input order, each with its complete
/// packages; `None` where the list is empty or a group lacks a member.
pub fn packet_value_to_vec(packets: &Vec<serde_json::Value>) -> (r: Option<Vec<PackageGroup>>)
    ensures
        groups_result(packets@.map_values(|v: serde_json::Value| group_value_view(v)), r),
{
    let mut recs: Vec<PackageGroupRecord> = Vec::new();
    let mut k: usize = 0;
    while k < packets.len()
        invariant
            k <= packets.len(),
            recs.len() == k,
            forall|i: int|
                0 <= i < k ==> group_view(#[trigger] recs@[i]) == group_value_view(packets@[i]),
        decreases packets.len() - k,
    {
        recs.push(package_group_record(&packets[k]));
        k = k + 1;
    }
    assert(recs@.map_values(|g: PackageGroupRecord| group_view(g)) =~= packets@.map_values(
        |v: serde_json::Value| group_value_view(v),
    ));
    package_groups_from(&recs)
}

} // verus!
