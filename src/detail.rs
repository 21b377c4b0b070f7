//! Detail-page records and their projection into plain tuples.
//!
//! Categories, genres and package groups are all-or-nothing: one incomplete
//! record fails the whole list. Packages are permissive: an incomplete package
//! record is left out when a group's packages are projected.

use vstd::prelude::*;
use crate::catalog::str_opt;

verus! {

/// A category record: its name and numeric id, where present.
pub struct CategoryRecord {
    pub description: Option<String>,
    pub id: Option<i64>,
}

/// A genre record: its name and textual id, where present.
pub struct GenreRecord {
    pub description: Option<String>,
    pub id: Option<String>,
}

/// A package record, each member present only where it had the right type.
pub struct PackageRecord {
    pub can_get_free_license: Option<String>,
    pub is_free_license: Option<bool>,
    pub option_description: Option<String>,
    pub option_text: Option<String>,
    pub package_id: Option<i64>,
    pub percent_savings: Option<i64>,
    pub percent_savings_text: Option<String>,
    pub price_in_cents_with_discount: Option<i64>,
}

/// A package group record with its nested package records.
pub struct PackageGroupRecord {
    pub title: Option<String>,
    pub description: Option<String>,
    pub display_type: Option<i64>,
    pub is_recurring_subscription: Option<String>,
    pub name: Option<String>,
    pub save_text: Option<String>,
    pub selection_text: Option<String>,
    pub subs: Option<Vec<PackageRecord>>,
}

/// `(can_get_free_license, is_free_license, option_description, option_text,
/// package_id, percent_savings, percent_savings_text,
/// price_in_cents_with_discount)`
pub type PackageDetail = (String, bool, String, String, i64, i64, String, i64);

/// `(title, description, display_type, is_recurring_subscription, name,
/// save_text, selection_text, packages)`
pub type PackageGroup = (String, String, i64, String, String, String, String, Vec<PackageRecord>);

pub type CategoryView = (Option<Seq<char>>, Option<i64>);

pub type GenreView = (Option<Seq<char>>, Option<Seq<char>>);

/// The members of a package record, in the order of `PackageDetail`.
pub type PackageView = (
    Option<Seq<char>>,
    Option<bool>,
    Option<Seq<char>>,
    Option<Seq<char>>,
    Option<i64>,
    Option<i64>,
    Option<Seq<char>>,
    Option<i64>,
);

/// The members of a package group record, in the order of `PackageGroup`.
pub type GroupView = (
    Option<Seq<char>>,
    Option<Seq<char>>,
    Option<i64>,
    Option<Seq<char>>,
    Option<Seq<char>>,
    Option<Seq<char>>,
    Option<Seq<char>>,
    Option<Seq<PackageView>>,
);

pub open spec fn category_view(r: CategoryRecord) -> CategoryView {
    (str_opt(r.description), r.id)
}

pub open spec fn genre_view(r: GenreRecord) -> GenreView {
    (str_opt(r.description), str_opt(r.id))
}

pub open spec fn package_view(r: PackageRecord) -> PackageView {
    (
        str_opt(r.can_get_free_license),
        r.is_free_license,
        str_opt(r.option_description),
        str_opt(r.option_text),
        r.package_id,
        r.percent_savings,
        str_opt(r.percent_savings_text),
        r.price_in_cents_with_discount,
    )
}

pub open spec fn package_views(recs: Seq<PackageRecord>) -> Seq<PackageView> {
    recs.map_values(|r: PackageRecord| package_view(r))
}

pub open spec fn group_view(r: PackageGroupRecord) -> GroupView {
    (
        str_opt(r.title),
        str_opt(r.description),
        r.display_type,
        str_opt(r.is_recurring_subscription),
        str_opt(r.name),
        str_opt(r.save_text),
        str_opt(r.selection_text),
        match r.subs {
            Some(subs) => Some(package_views(subs@)),
            None => None,
        },
    )
}

pub open spec fn category_complete(r: CategoryView) -> bool {
    r.0.is_some() && r.1.is_some()
}

pub open spec fn category_of(e: (String, i64), r: CategoryView) -> bool {
    e.0@ == r.0.unwrap() && e.1 == r.1.unwrap()
}

/// A category list is taken only whole: non-empty and every record complete.
pub open spec fn categories_accepted(recs: Seq<CategoryView>) -> bool {
    recs.len() > 0 && forall|i: int| 0 <= i < recs.len() ==> category_complete(#[trigger] recs[i])
}

/// `r` is the projection of the category records `recs`.
pub open spec fn categories_result(recs: Seq<CategoryView>, r: Option<Vec<(String, i64)>>) -> bool {
    &&& r.is_some() <==> categories_accepted(recs)
    &&& r matches Some(v) ==> {
        &&& v.len() == recs.len()
        &&& forall|i: int| 0 <= i < v.len() ==> category_of(#[trigger] v[i], recs[i])
    }
}

pub open spec fn genre_complete(r: GenreView) -> bool {
    r.0.is_some() && r.1.is_some()
}

pub open spec fn genre_of(e: (String, String), r: GenreView) -> bool {
    e.0@ == r.0.unwrap() && e.1@ == r.1.unwrap()
}

/// A genre list is taken only whole: non-empty and every record complete.
pub open spec fn genres_accepted(recs: Seq<GenreView>) -> bool {
    recs.len() > 0 && forall|i: int| 0 <= i < recs.len() ==> genre_complete(#[trigger] recs[i])
}

/// `r` is the projection of the genre records `recs`.
pub open spec fn genres_result(recs: Seq<GenreView>, r: Option<Vec<(String, String)>>) -> bool {
    &&& r.is_some() <==> genres_accepted(recs)
    &&& r matches Some(v) ==> {
        &&& v.len() == recs.len()
        &&& forall|i: int| 0 <= i < v.len() ==> genre_of(#[trigger] v[i], recs[i])
    }
}

pub open spec fn package_complete(r: PackageView) -> bool {
    &&& r.0.is_some()
    &&& r.1.is_some()
    &&& r.2.is_some()
    &&& r.3.is_some()
    &&& r.4.is_some()
    &&& r.5.is_some()
    &&& r.6.is_some()
    &&& r.7.is_some()
}

pub open spec fn package_of(e: PackageDetail, r: PackageView) -> bool {
    &&& e.0@ == r.0.unwrap()
    &&& e.1 == r.1.unwrap()
    &&& e.2@ == r.2.unwrap()
    &&& e.3@ == r.3.unwrap()
    &&& e.4 == r.4.unwrap()
    &&& e.5 == r.5.unwrap()
    &&& e.6@ == r.6.unwrap()
    &&& e.7 == r.7.unwrap()
}

/// The complete package records, in their order.
pub open spec fn complete_packages(recs: Seq<PackageView>) -> Seq<PackageView> {
    recs.filter(|r: PackageView| package_complete(r))
}

/// `ps` are the packages projected from `recs`.
pub open spec fn packages_of(ps: Seq<PackageDetail>, recs: Seq<PackageView>) -> bool {
    &&& ps.len() == complete_packages(recs).len()
    &&& forall|i: int|
        0 <= i < ps.len() ==> package_of(#[trigger] ps[i], complete_packages(recs)[i])
}

/// `r` is the permissive projection of the package records `recs`: `None`
/// where none is complete.
pub open spec fn packages_result(recs: Seq<PackageView>, r: Option<Vec<PackageDetail>>) -> bool {
    &&& r.is_none() <==> complete_packages(recs).len() == 0
    &&& r matches Some(v) ==> packages_of(v@, recs)
}

/// All scalar members of the group are there, and its package list too.
pub open spec fn group_complete(r: GroupView) -> bool {
    &&& r.0.is_some()
    &&& r.1.is_some()
    &&& r.2.is_some()
    &&& r.3.is_some()
    &&& r.4.is_some()
    &&& r.5.is_some()
    &&& r.6.is_some()
    &&& r.7.is_some()
}

pub open spec fn group_of(e: PackageGroup, r: GroupView) -> bool {
    &&& e.0@ == r.0.unwrap()
    &&& e.1@ == r.1.unwrap()
    &&& e.2 == r.2.unwrap()
    &&& e.3@ == r.3.unwrap()
    &&& e.4@ == r.4.unwrap()
    &&& e.5@ == r.5.unwrap()
    &&& e.6@ == r.6.unwrap()
    &&& package_views(e.7@) == r.7.unwrap()
}

/// A group list is taken only whole: non-empty and every group complete.
pub open spec fn groups_accepted(recs: Seq<GroupView>) -> bool {
    recs.len() > 0 && forall|i: int| 0 <= i < recs.len() ==> group_complete(#[trigger] recs[i])
}

/// `r` is the projection of the package group records `recs`.
pub open spec fn groups_result(recs: Seq<GroupView>, r: Option<Vec<PackageGroup>>) -> bool {
    &&& r.is_some() <==> groups_accepted(recs)
    &&& r matches Some(v) ==> {
        &&& v.len() == recs.len()
        &&& forall|i: int| 0 <= i < v.len() ==> group_of(#[trigger] v[i], recs[i])
    }
}

/// The categories as `(name, id)` pairs in input order; `None` where the list
/// is empty or any record lacks a member.
pub fn categories_from(recs: &Vec<CategoryRecord>) -> (r: Option<Vec<(String, i64)>>)
    ensures
        categories_result(recs@.map_values(|c: CategoryRecord| category_view(c)), r),
{
    let ghost views = recs@.map_values(|c: CategoryRecord| category_view(c));
    if recs.len() == 0 {
        return None;
    }
    let mut out: Vec<(String, i64)> = Vec::new();
    let mut k: usize = 0;
    while k < recs.len()
        invariant
            k <= recs.len(),
            views == recs@.map_values(|c: CategoryRecord| category_view(c)),
            out.len() == k,
            forall|i: int| 0 <= i < k ==> category_complete(#[trigger] views[i]),
            forall|i: int| 0 <= i < k ==> category_of(#[trigger] out[i], views[i]),
        decreases recs.len() - k,
    {
        assert(views[k as int] == category_view(recs@[k as int]));
        match (&recs[k].description, &recs[k].id) {
            (Some(name), Some(id)) => {
                out.push((name.clone(), *id));
            },
            _ => {
                assert(!category_complete(views[k as int]));
                return None;
            },
        }
        k = k + 1;
    }
    Some(out)
}

/// The genres as `(name, id)` pairs in input order; `None` where the list is
/// empty or any record lacks a member.
pub fn genres_from(recs: &Vec<GenreRecord>) -> (r: Option<Vec<(String, String)>>)
    ensures
        genres_result(recs@.map_values(|g: GenreRecord| genre_view(g)), r),
{
    let ghost views = recs@.map_values(|g: GenreRecord| genre_view(g));
    if recs.len() == 0 {
        return None;
    }
    let mut out: Vec<(String, String)> = Vec::new();
    let mut k: usize = 0;
    while k < recs.len()
        invariant
            k <= recs.len(),
            views == recs@.map_values(|g: GenreRecord| genre_view(g)),
            out.len() == k,
            forall|i: int| 0 <= i < k ==> genre_complete(#[trigger] views[i]),
            forall|i: int| 0 <= i < k ==> genre_of(#[trigger] out[i], views[i]),
        decreases recs.len() - k,
    {
        assert(views[k as int] == genre_view(recs@[k as int]));
        match (&recs[k].description, &recs[k].id) {
            (Some(name), Some(id)) => {
                out.push((name.clone(), id.clone()));
            },
            _ => {
                assert(!genre_complete(views[k as int]));
                return None;
            },
        }
        k = k + 1;
    }
    Some(out)
}

impl PackageRecord {
    /// A copy of the record.
    pub fn copy(&self) -> (r: PackageRecord)
        ensures
            package_view(r) == package_view(*self),
    {
        PackageRecord {
            can_get_free_license: copy_text(&self.can_get_free_license),
            is_free_license: self.is_free_license,
            option_description: copy_text(&self.option_description),
            option_text: copy_text(&self.option_text),
            package_id: self.package_id,
            percent_savings: self.percent_savings,
            percent_savings_text: copy_text(&self.percent_savings_text),
            price_in_cents_with_discount: self.price_in_cents_with_discount,
        }
    }
}

fn copy_text(o: &Option<String>) -> (r: Option<String>)
    ensures
        str_opt(r) == str_opt(*o),
{
    match o {
        Some(s) => Some(s.clone()),
        None => None,
    }
}

/// A copy of each record of a list, in order.
pub fn copy_package_records(recs: &Vec<PackageRecord>) -> (r: Vec<PackageRecord>)
    ensures
        package_views(r@) == package_views(recs@),
{
    let mut out: Vec<PackageRecord> = Vec::new();
    let mut k: usize = 0;
    while k < recs.len()
        invariant
            k <= recs.len(),
            out.len() == k,
            forall|i: int| 0 <= i < k ==> package_view(#[trigger] out@[i]) == package_view(recs@[i]),
        decreases recs.len() - k,
    {
        out.push(recs[k].copy());
        k = k + 1;
    }
    assert(package_views(out@) =~= package_views(recs@));
    out
}

/// The complete package records as tuples, in input order, the others left
/// out.
pub fn complete_package_details(recs: &Vec<PackageRecord>) -> (r: Vec<PackageDetail>)
    ensures
        packages_of(r@, package_views(recs@)),
{
    let ghost views = package_views(recs@);
    let ghost pred = |x: PackageView| package_complete(x);
    let mut out: Vec<PackageDetail> = Vec::new();
    let mut k: usize = 0;
    while k < recs.len()
        invariant
            k <= recs.len(),
            views == package_views(recs@),
            pred == (|x: PackageView| package_complete(x)),
            out.len() == views.subrange(0, k as int).filter(pred).len(),
            forall|i: int|
                0 <= i < out.len() ==> package_of(
                    #[trigger] out[i],
                    views.subrange(0, k as int).filter(pred)[i],
                ),
        decreases recs.len() - k,
    {
        let ghost after = views.subrange(0, k + 1);
        assert(after.drop_last() =~= views.subrange(0, k as int));
        assert(after.last() == package_view(recs@[k as int]));
        reveal(Seq::filter);
        let p = &recs[k];
        match (
            &p.can_get_free_license,
            &p.is_free_license,
            &p.option_description,
            &p.option_text,
            &p.package_id,
            &p.percent_savings,
            &p.percent_savings_text,
            &p.price_in_cents_with_discount,
        ) {
            (Some(a), Some(b), Some(c), Some(d), Some(e), Some(f), Some(g), Some(h)) => {
                out.push((a.clone(), *b, c.clone(), d.clone(), *e, *f, g.clone(), *h));
            },
            _ => {},
        }
        k = k + 1;
    }
    assert(views.subrange(0, recs.len() as int) =~= views);
    out
}

/// The complete package records as tuples, in input order; `None` where none
/// is complete.
pub fn packages_from(recs: &Vec<PackageRecord>) -> (r: Option<Vec<PackageDetail>>)
    ensures
        packages_result(package_views(recs@), r),
{
    let out = complete_package_details(recs);
    if out.len() == 0 {
        None
    } else {
        Some(out)
    }
}

/// The package groups as tuples in input order, each with every package
/// record of its `subs`; `None` where the list is empty or any group lacks a
/// member.
pub fn package_groups_from(recs: &Vec<PackageGroupRecord>) -> (r: Option<Vec<PackageGroup>>)
    ensures
        groups_result(recs@.map_values(|g: PackageGroupRecord| group_view(g)), r),
{
    let ghost views = recs@.map_values(|g: PackageGroupRecord| group_view(g));
    if recs.len() == 0 {
        return None;
    }
    let mut out: Vec<PackageGroup> = Vec::new();
    let mut k: usize = 0;
    while k < recs.len()
        invariant
            k <= recs.len(),
            views == recs@.map_values(|g: PackageGroupRecord| group_view(g)),
            out.len() == k,
            forall|i: int| 0 <= i < k ==> group_complete(#[trigger] views[i]),
            forall|i: int| 0 <= i < k ==> group_of(#[trigger] out[i], views[i]),
        decreases recs.len() - k,
    {
        assert(views[k as int] == group_view(recs@[k as int]));
        let g = &recs[k];
        match (
            &g.title,
            &g.description,
            &g.display_type,
            &g.is_recurring_subscription,
            &g.name,
            &g.save_text,
            &g.selection_text,
            &g.subs,
        ) {
            (Some(a), Some(b), Some(c), Some(d), Some(e), Some(f), Some(h), Some(subs)) => {
                let packages = copy_package_records(subs);
                out.push((a.clone(), b.clone(), *c, d.clone(), e.clone(), f.clone(), h.clone(), packages));
            },
            _ => {
                assert(!group_complete(views[k as int]));
                return None;
            },
        }
        k = k + 1;
    }
    Some(out)
}

} // verus!
