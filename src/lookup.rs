//! One lookup: matching the catalog, choosing a match, and projecting the
//! chosen title's detail document.

use vstd::prelude::*;
use crate::catalog::{match_result, selected_apps, AppView};
use crate::detail::{
    categories_accepted, categories_result, genres_accepted, genres_result, groups_accepted,
    group_of, groups_result, complete_packages, package_views, packages_from, packages_of, CategoryView,
    GenreView, GroupView, PackageDetail, PackageGroup,
};
use crate::format::{decimal, decimal_of, digits_value, is_unsigned_decimal, parse_unsigned, unsigned_body};
use crate::json::{json_member_of, json_parse_of, json_text, json_text_of, member, parse_document};
use crate::records::{
    app_value_view, array_at, category_value_to_vec, category_value_view, find_appid_by_name,
    genre_value_to_vec, genre_value_view, group_value_view, packet_value_to_vec, read_array,
};

verus! {

/// A member of a document that could not be read.
#[derive(Debug, Clone, Copy, PartialEq, Eq, Structural)]
pub enum Field {
    Apps,
    ShortDescription,
    Categories,
    Genres,
    PackageGroups,
    /// A package group in which no package record is complete.
    Packages,
}

/// Why a lookup stopped.
#[derive(Debug, Clone, Copy, PartialEq, Eq, Structural)]
pub enum LookupError {
    /// A document is not JSON.
    JsonParse,
    /// A member is absent, of the wrong type, or has incomplete records.
    MissingField(Field),
    /// No catalog entry matches the query.
    NoMatch,
    /// The chosen index is not an unsigned decimal number.
    IndexParse,
    /// The chosen index is past the number of matches.
    IndexOutOfRange { index: usize, count: usize },
    /// The chosen index equals the number of matches: the bounds check lets
    /// it through, yet there is no entry there.
    IndexPastEnd { index: usize, count: usize },
}

/// What the detail document gives of one title.
pub struct GameDetails {
    /// The `short_description` member as JSON text, quotes included.
    pub description: String,
    pub categories: Vec<(String, i64)>,
    pub genres: Vec<(String, String)>,
    pub package_groups: Vec<PackageGroup>,
    /// The complete packages of each group, in the order of the groups.
    pub packages: Vec<Vec<PackageDetail>>,
}

/// Parses a JSON document.
pub fn parse_json(text: &str) -> (r: Result<serde_json::Value, LookupError>)
    ensures
        r is Err <==> json_parse_of(text@).is_none(),
        r matches Err(e) ==> e == LookupError::JsonParse,
        r matches Ok(v) ==> json_parse_of(text@) == Some(v),
{
    match parse_document(text) {
        Ok(v) => Ok(v),
        Err(_) => Err(LookupError::JsonParse),
    }
}

/// The catalog records of a parsed catalog document, under `applist.apps`.
pub open spec fn catalog_apps(doc: serde_json::Value) -> Option<Seq<AppView>> {
    match array_at(json_member_of(doc, "applist"@), "apps"@) {
        Some(a) => Some(a.map_values(|v: serde_json::Value| app_value_view(v))),
        None => None,
    }
}

/// The entries of a parsed catalog document that match `target_name`,
/// ignoring case, in catalog order.
pub fn catalog_matches(doc: &serde_json::Value, target_name: &str) -> (r: Result<
    Vec<(i64, String)>,
    LookupError,
>)
    ensures
        catalog_apps(*doc).is_none() ==> r == Err::<Vec<(i64, String)>, LookupError>(
            LookupError::MissingField(Field::Apps),
        ),
        catalog_apps(*doc) matches Some(apps) ==> {
            &&& r is Ok || r == Err::<Vec<(i64, String)>, LookupError>(LookupError::NoMatch)
            &&& r is Err <==> selected_apps(apps, target_name@).len() == 0
            &&& r matches Ok(v) ==> match_result(apps, target_name@, Some(v))
        },
{
    let list = member(doc, "applist");
    match read_array(list, "apps") {
        Some(apps) => match find_appid_by_name(apps, target_name) {
            Some(v) => Ok(v),
            None => Err(LookupError::NoMatch),
        },
        None => Err(LookupError::MissingField(Field::Apps)),
    }
}

/// Parses the catalog document and returns its entries that match
/// `target_name`, ignoring case, in catalog order.
pub fn lookup_matches(catalog_text: &str, target_name: &str) -> (r: Result<
    Vec<(i64, String)>,
    LookupError,
>)
    ensures
        json_parse_of(catalog_text@).is_none() ==> r == Err::<Vec<(i64, String)>, LookupError>(
            LookupError::JsonParse,
        ),
        json_parse_of(catalog_text@) matches Some(doc) ==> {
            &&& catalog_apps(doc).is_none() ==> r == Err::<Vec<(i64, String)>, LookupError>(
                LookupError::MissingField(Field::Apps),
            )
            &&& catalog_apps(doc) matches Some(apps) ==> {
                &&& r is Ok || r == Err::<Vec<(i64, String)>, LookupError>(LookupError::NoMatch)
                &&& r is Err <==> selected_apps(apps, target_name@).len() == 0
                &&& r matches Ok(v) ==> match_result(apps, target_name@, Some(v))
            }
        },
{
    let doc = parse_json(catalog_text)?;
    catalog_matches(&doc, target_name)
}

/// The bounds check on a chosen index: it lets through every index up to and
/// including the number of matches.
pub fn index_accepted(index: usize, count: usize) -> (r: bool)
    ensures
        r == (index <= count),
{
    index <= count
}

/// The match at `index`. An index equal to the number of matches passes the
/// bounds check but names no entry, and is reported apart.
pub fn select_match(matches: &Vec<(i64, String)>, index: usize) -> (r: Result<
    (i64, String),
    LookupError,
>)
    ensures
        index < matches.len() ==> (r matches Ok(e) && e.0 == matches[index as int].0 && e.1@
            == matches[index as int].1@),
        index == matches.len() ==> r == Err::<(i64, String), LookupError>(
            LookupError::IndexPastEnd { index, count: matches.len() },
        ),
        index > matches.len() ==> r == Err::<(i64, String), LookupError>(
            LookupError::IndexOutOfRange { index, count: matches.len() },
        ),
{
    if !index_accepted(index, matches.len()) {
        return Err(LookupError::IndexOutOfRange { index, count: matches.len() });
    }
    if index == matches.len() {
        return Err(LookupError::IndexPastEnd { index, count: matches.len() });
    }
    let e = &matches[index];
    Ok((e.0, e.1.clone()))
}

/// Reads the chosen index from the text typed, then takes that match.
pub fn choose_match(matches: &Vec<(i64, String)>, input: &str) -> (r: Result<
    (i64, String),
    LookupError,
>)
    ensures
        !is_unsigned_decimal(input@) ==> r == Err::<(i64, String), LookupError>(
            LookupError::IndexParse,
        ),
        is_unsigned_decimal(input@) ==> {
            let index = digits_value(unsigned_body(input@)) as int;
            &&& index < matches.len() ==> (r matches Ok(e) && e.0 == matches[index].0 && e.1@
                == matches[index].1@)
            &&& index == matches.len() ==> r == Err::<(i64, String), LookupError>(
                LookupError::IndexPastEnd { index: index as usize, count: matches.len() },
            )
            &&& index > matches.len() ==> r == Err::<(i64, String), LookupError>(
                LookupError::IndexOutOfRange { index: index as usize, count: matches.len() },
            )
        },
{
    match parse_unsigned(input) {
        Some(index) => select_match(matches, index),
        None => Err(LookupError::IndexParse),
    }
}

fn array_of<'a>(data: &'a serde_json::Value, key: &str, field: Field) -> (r: Result<
    &'a Vec<serde_json::Value>,
    LookupError,
>)
    ensures
        r is Err <==> array_at(*data, key@).is_none(),
        r matches Err(e) ==> e == LookupError::MissingField(field),
        r matches Ok(a) ==> a@ == array_at(*data, key@).unwrap(),
{
    match read_array(data, key) {
        Some(a) => Ok(a),
        None => Err(LookupError::MissingField(field)),
    }
}

/// The record of title `appid` in a parsed detail document: `data` under
/// `"<appid>"`.
pub open spec fn detail_data(doc: serde_json::Value, appid: i64) -> serde_json::Value {
    json_member_of(json_member_of(doc, decimal_of(appid as int)), "data"@)
}

/// The `short_description` member of a detail record, as JSON text.
pub open spec fn description_of(data: serde_json::Value) -> Option<Seq<char>> {
    json_text_of(json_member_of(data, "short_description"@))
}

/// The category records of a detail record.
pub open spec fn category_list(data: serde_json::Value) -> Option<Seq<CategoryView>> {
    match array_at(data, "categories"@) {
        Some(a) => Some(a.map_values(|v: serde_json::Value| category_value_view(v))),
        None => None,
    }
}

/// The genre records of a detail record.
pub open spec fn genre_list(data: serde_json::Value) -> Option<Seq<GenreView>> {
    match array_at(data, "genres"@) {
        Some(a) => Some(a.map_values(|v: serde_json::Value| genre_value_view(v))),
        None => None,
    }
}

/// The package group records of a detail record.
pub open spec fn group_list(data: serde_json::Value) -> Option<Seq<GroupView>> {
    match array_at(data, "package_groups"@) {
        Some(a) => Some(a.map_values(|v: serde_json::Value| group_value_view(v))),
        None => None,
    }
}

pub open spec fn categories_ok(data: serde_json::Value) -> bool {
    category_list(data) matches Some(c) && categories_accepted(c)
}

pub open spec fn genres_ok(data: serde_json::Value) -> bool {
    genre_list(data) matches Some(g) && genres_accepted(g)
}

pub open spec fn groups_ok(data: serde_json::Value) -> bool {
    group_list(data) matches Some(g) && groups_accepted(g)
}

/// Every package group of a detail record has a complete package.
pub open spec fn packages_ok(data: serde_json::Value) -> bool {
    forall|i: int|
        0 <= i < group_list(data).unwrap().len() ==> complete_packages(
            (#[trigger] group_list(data).unwrap()[i]).7.unwrap(),
        ).len() > 0
}

/// The complete packages of each group, in the order of the groups; `None`
/// where some group has no complete package.
pub fn group_packages(groups: &Vec<PackageGroup>) -> (r: Option<Vec<Vec<PackageDetail>>>)
    ensures
        r.is_some() <==> forall|i: int|
            0 <= i < groups.len() ==> complete_packages(package_views((#[trigger] groups[i]).7@)).len()
                > 0,
        r matches Some(v) ==> {
            &&& v.len() == groups.len()
            &&& forall|i: int|
                0 <= i < v.len() ==> packages_of((#[trigger] v[i])@, package_views(groups[i].7@))
        },
{
    let mut out: Vec<Vec<PackageDetail>> = Vec::new();
    let mut k: usize = 0;
    while k < groups.len()
        invariant
            k <= groups.len(),
            out.len() == k,
            forall|i: int|
                0 <= i < k ==> complete_packages(package_views((#[trigger] groups[i]).7@)).len()
                    > 0,
            forall|i: int| 0 <= i < k ==> packages_of((#[trigger] out[i])@, package_views(groups[i].7@)),
        decreases groups.len() - k,
    {
        match packages_from(&groups[k].7) {
            Some(p) => {
                out.push(p);
            },
            None => {
                return None;
            },
        }
        k = k + 1;
    }
    Some(out)
}

/// Parses the detail document of the title `appid` and projects the record
/// under `"<appid>"` then `data`. Categories, genres and package groups each
/// come out whole and non-empty, or the lookup fails naming the first member,
/// in that order, that does not. Each group's complete packages are then
/// projected, and a group with none fails the lookup.
pub fn details_from_text(detail_text: &str, appid: i64) -> (r: Result<GameDetails, LookupError>)
    ensures
        json_parse_of(detail_text@).is_none() ==> r == Err::<GameDetails, LookupError>(
            LookupError::JsonParse,
        ),
        json_parse_of(detail_text@) matches Some(doc) ==> {
            let data = detail_data(doc, appid);
            &&& description_of(data).is_none() ==> r == Err::<GameDetails, LookupError>(
                LookupError::MissingField(Field::ShortDescription),
            )
            &&& description_of(data).is_some() && !categories_ok(data) ==> r == Err::<
                GameDetails,
                LookupError,
            >(LookupError::MissingField(Field::Categories))
            &&& description_of(data).is_some() && categories_ok(data) && !genres_ok(data) ==> r
                == Err::<GameDetails, LookupError>(LookupError::MissingField(Field::Genres))
            &&& description_of(data).is_some() && categories_ok(data) && genres_ok(data)
                && !groups_ok(data) ==> r == Err::<GameDetails, LookupError>(
                LookupError::MissingField(Field::PackageGroups),
            )
            &&& description_of(data).is_some() && categories_ok(data) && genres_ok(data)
                && groups_ok(data) && !packages_ok(data) ==> r == Err::<GameDetails, LookupError>(
                LookupError::MissingField(Field::Packages),
            )
            &&& description_of(data).is_some() && categories_ok(data) && genres_ok(data)
                && groups_ok(data) && packages_ok(data) ==> (r matches Ok(d) && {
                &&& d.description@ == description_of(data).unwrap()
                &&& categories_result(category_list(data).unwrap(), Some(d.categories))
                &&& genres_result(genre_list(data).unwrap(), Some(d.genres))
                &&& groups_result(group_list(data).unwrap(), Some(d.package_groups))
                &&& d.packages.len() == d.package_groups.len()
                &&& forall|i: int|
                    0 <= i < d.packages.len() ==> packages_of(
                        (#[trigger] d.packages[i])@,
                        group_list(data).unwrap()[i].7.unwrap(),
                    )
            })
        },
{
    let doc = parse_json(detail_text)?;
    let key = decimal(appid);
    let data = member(member(&doc, key.as_str()), "data");
    let description = match json_text(member(data, "short_description")) {
        Ok(t) => t,
        Err(_) => {
            return Err(LookupError::MissingField(Field::ShortDescription));
        },
    };
    let categories = match category_value_to_vec(array_of(data, "categories", Field::Categories)?) {
        Some(c) => c,
        None => {
            return Err(LookupError::MissingField(Field::Categories));
        },
    };
    let genres = match genre_value_to_vec(array_of(data, "genres", Field::Genres)?) {
        Some(g) => g,
        None => {
            return Err(LookupError::MissingField(Field::Genres));
        },
    };
    let package_groups = match packet_value_to_vec(
        array_of(data, "package_groups", Field::PackageGroups)?,
    ) {
        Some(p) => p,
        None => {
            return Err(LookupError::MissingField(Field::PackageGroups));
        },
    };
    proof {
        let gl = group_list(*data).unwrap();
        assert forall|i: int| 0 <= i < package_groups.len() implies package_views(
            (#[trigger] package_groups[i]).7@,
        ) == gl[i].7.unwrap() by {
            assert(group_of(package_groups[i], gl[i]));
        }
        assert(package_groups.len() == gl.len());
        assert(packages_ok(*data) <==> forall|i: int|
            0 <= i < package_groups.len() ==> complete_packages(
                package_views((#[trigger] package_groups[i]).7@),
            ).len() > 0) by {
            if packages_ok(*data) {
                assert forall|i: int| 0 <= i < package_groups.len() implies complete_packages(
                    package_views((#[trigger] package_groups[i]).7@),
                ).len() > 0 by {
                    assert(complete_packages(gl[i].7.unwrap()).len() > 0);
                }
            }
            if forall|i: int|
                0 <= i < package_groups.len() ==> complete_packages(
                    package_views((#[trigger] package_groups[i]).7@),
                ).len() > 0 {
                assert forall|i: int| 0 <= i < gl.len() implies complete_packages(
                    (#[trigger] gl[i]).7.unwrap(),
                ).len() > 0 by {
                    assert(complete_packages(package_views(package_groups[i].7@)).len() > 0);
                }
            }
        }
    }
    let packages = match group_packages(&package_groups) {
        Some(p) => p,
        None => {
            return Err(LookupError::MissingField(Field::Packages));
        },
    };
    Ok(GameDetails { description, categories, genres, package_groups, packages })
}

} // verus!
