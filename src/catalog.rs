//! Catalog records and matching them against a query by name.

use vstd::prelude::*;
use crate::text::{has_infix, lower_of, name_matches};

verus! {

/// One catalog record as read from the catalog document: each member is
/// present only where it was there with the right type.
pub struct AppRecord {
    pub appid: Option<i64>,
    pub name: Option<String>,
}

/// What a catalog record holds: its `appid` and the characters of its `name`.
pub type AppView = (Option<i64>, Option<Seq<char>>);

pub open spec fn str_opt(o: Option<String>) -> Option<Seq<char>> {
    match o {
        Some(s) => Some(s@),
        None => None,
    }
}

pub open spec fn app_view(r: AppRecord) -> AppView {
    (r.appid, str_opt(r.name))
}

pub open spec fn app_views(recs: Seq<AppRecord>) -> Seq<AppView> {
    recs.map_values(|r: AppRecord| app_view(r))
}

/// The record has both members and its lowercased name contains the
/// lowercased query.
pub open spec fn app_selected(r: AppView, query: Seq<char>) -> bool {
    &&& r.0.is_some()
    &&& r.1.is_some()
    &&& has_infix(lower_of(r.1.unwrap()), lower_of(query))
}

/// The records that a query selects, in catalog order.
pub open spec fn selected_apps(recs: Seq<AppView>, query: Seq<char>) -> Seq<AppView> {
    recs.filter(|r: AppView| app_selected(r, query))
}

/// A catalog entry `(id, name)` carries the members of a record.
pub open spec fn entry_of(e: (i64, String), r: AppView) -> bool {
    e.0 == r.0.unwrap() && e.1@ == r.1.unwrap()
}

/// `r` is the result of matching `query` against records `recs`: `None` where
/// no record is selected, else the selected ones as entries, in order.
pub open spec fn match_result(recs: Seq<AppView>, query: Seq<char>, r: Option<Vec<(i64, String)>>) -> bool {
    &&& r.is_none() <==> selected_apps(recs, query).len() == 0
    &&& r matches Some(v) ==> {
        &&& v.len() == selected_apps(recs, query).len()
        &&& forall|i: int|
            0 <= i < v.len() ==> entry_of(#[trigger] v[i], selected_apps(recs, query)[i])
    }
}

/// The case of the query does not change which entries match: two queries
/// with the same lowercase form select the same records.
pub proof fn lemma_match_depends_on_lowercase(recs: Seq<AppView>, q1: Seq<char>, q2: Seq<char>)
    requires
        lower_of(q1) == lower_of(q2),
    ensures
        selected_apps(recs, q1) == selected_apps(recs, q2),
{
    assert((|r: AppView| app_selected(r, q1)) =~= (|r: AppView| app_selected(r, q2)));
}

/// Every entry that matching returns has a name that contains the query,
/// both taken in lowercase.
pub proof fn lemma_match_names_contain_query(
    recs: Seq<AppView>,
    query: Seq<char>,
    r: Option<Vec<(i64, String)>>,
)
    requires
        match_result(recs, query, r),
    ensures
        r matches Some(v) ==> forall|i: int|
            0 <= i < v.len() ==> has_infix(lower_of((#[trigger] v[i]).1@), lower_of(query)),
{
    let sel = selected_apps(recs, query);
    broadcast use vstd::seq_lib::group_filter_ensures;

    if r.is_some() {
        let v = r.unwrap();
        assert forall|i: int| 0 <= i < v.len() implies has_infix(
            lower_of((#[trigger] v[i]).1@),
            lower_of(query),
        ) by {
            assert(entry_of(v[i], sel[i]));
            assert(app_selected(sel[i], query));
        }
    }
}

/// The entries of `recs` whose name contains `target_name`, ignoring case, in
/// catalog order; `None` where there is no such entry.
pub fn match_apps(recs: &Vec<AppRecord>, target_name: &str) -> (r: Option<Vec<(i64, String)>>)
    ensures
        match_result(app_views(recs@), target_name@, r),
{
    let ghost views = app_views(recs@);
    let ghost pred = |x: AppView| app_selected(x, target_name@);
    let mut found: Vec<(i64, String)> = Vec::new();
    let mut k: usize = 0;
    while k < recs.len()
        invariant
            k <= recs.len(),
            views == app_views(recs@),
            pred == (|x: AppView| app_selected(x, target_name@)),
            found.len() == views.subrange(0, k as int).filter(pred).len(),
            forall|i: int|
                0 <= i < found.len() ==> entry_of(
                    #[trigger] found[i],
                    views.subrange(0, k as int).filter(pred)[i],
                ),
        decreases recs.len() - k,
    {
        let ghost after = views.subrange(0, k + 1);
        assert(after.drop_last() =~= views.subrange(0, k as int));
        assert(after.last() == app_view(recs@[k as int]));
        reveal(Seq::filter);
        let rec = &recs[k];
        match (&rec.appid, &rec.name) {
            (Some(id), Some(name)) => {
                if name_matches(name.as_str(), target_name) {
                    found.push((*id, name.clone()));
                }
            },
            _ => {},
        }
        k = k + 1;
    }
    assert(views.subrange(0, recs.len() as int) =~= views);
    if found.len() == 0 {
        None
    } else {
        Some(found)
    }
}

} // verus!
