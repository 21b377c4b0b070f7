//! The text shown for a chosen title.

use vstd::prelude::*;
use vstd::string::StringExecFns;
use crate::detail::PackageDetail;
use crate::format::{decimal, decimal_of};
use crate::lookup::GameDetails;

verus! {

/// `true` or `false`, as `bool`'s `Display` writes it.
pub open spec fn bool_text(b: bool) -> Seq<char> {
    if b {
        "true"@
    } else {
        "false"@
    }
}

/// Each category name followed by `", "`.
pub open spec fn category_names(cs: Seq<(String, i64)>) -> Seq<char>
    decreases cs.len(),
{
    if cs.len() == 0 {
        Seq::empty()
    } else {
        category_names(cs.drop_last()) + cs.last().0@ + ", "@
    }
}

/// Each genre name followed by `", "`.
pub open spec fn genre_names(gs: Seq<(String, String)>) -> Seq<char>
    decreases gs.len(),
{
    if gs.len() == 0 {
        Seq::empty()
    } else {
        genre_names(gs.drop_last()) + gs.last().0@ + ", "@
    }
}

/// The two lines shown for a package.
pub open spec fn package_text(p: PackageDetail) -> Seq<char> {
    "Name: "@ + p.3@ + " | Desc: "@ + p.2@ + " | Free: "@ + bool_text(p.1) + " | Can: "@ + p.0@
        + "\n"@ + "Savings/Price: %Savings: "@ + decimal_of(p.5 as int) + " | %Savings Text: "@
        + p.6@ + " | Price in cents with discounts: "@ + decimal_of(p.7 as int) + "\n"@
}

pub open spec fn packages_text(ps: Seq<PackageDetail>) -> Seq<char>
    decreases ps.len(),
{
    if ps.len() == 0 {
        Seq::empty()
    } else {
        packages_text(ps.drop_last()) + package_text(ps.last())
    }
}

/// Each group as a `Packages:` line and its packages.
pub open spec fn groups_text(gs: Seq<Vec<PackageDetail>>) -> Seq<char>
    decreases gs.len(),
{
    if gs.len() == 0 {
        Seq::empty()
    } else {
        groups_text(gs.drop_last()) + "Packages:\n"@ + packages_text(gs.last()@)
    }
}

/// The cover image address of a title.
pub open spec fn cover_image_url_of(appid: i64) -> Seq<char> {
    "https://cdn.cloudflare.steamstatic.com/steam/apps/"@ + decimal_of(appid as int)
        + "/header.jpg"@
}

/// The storefront page address of a title.
pub open spec fn store_page_url_of(appid: i64) -> Seq<char> {
    "https://store.steampowered.com/app/"@ + decimal_of(appid as int) + "/"@
}

/// The first lines shown for a title: the screen cleared, then the title.
pub open spec fn heading_text(game: (i64, String)) -> Seq<char> {
    "\x1b[2J\x1b[1;1H"@ + "Game found: "@ + game.1@ + " | "@ + decimal_of(game.0 as int) + "\n"@
}

/// The rest of the text shown for a title: categories, genres, description,
/// package groups and the two addresses.
pub open spec fn body_text(appid: i64, d: GameDetails) -> Seq<char> {
    "Categories:\n"@ + category_names(d.categories@) + "Genres:\n"@ + genre_names(d.genres@)
        + "Game description: "@ + d.description@ + "\n"@ + "Package Groups:\n"@ + groups_text(
        d.packages@,
    ) + "Image: "@ + cover_image_url_of(appid) + "\n"@ + "Steam Link: "@ + store_page_url_of(
        appid,
    ) + "\n"@
}

/// The whole text shown for a title.
pub open spec fn rendered(game: (i64, String), d: GameDetails) -> Seq<char> {
    heading_text(game) + body_text(game.0, d)
}

/// The cover image address of a title.
pub fn cover_image_url(appid: i64) -> (r: String)
    ensures
        r@ == cover_image_url_of(appid),
{
    let mut s = String::from_str("https://cdn.cloudflare.steamstatic.com/steam/apps/");
    s.append(decimal(appid).as_str());
    s.append("/header.jpg");
    s
}

/// The storefront page address of a title.
pub fn store_page_url(appid: i64) -> (r: String)
    ensures
        r@ == store_page_url_of(appid),
{
    let mut s = String::from_str("https://store.steampowered.com/app/");
    s.append(decimal(appid).as_str());
    s.append("/");
    s
}

fn bool_str(b: bool) -> (r: &'static str)
    ensures
        r@ == bool_text(b),
{
    if b {
        "true"
    } else {
        "false"
    }
}

fn append_package(s: &mut String, p: &PackageDetail)
    ensures
        final(s)@ == old(s)@ + package_text(*p),
{
    s.append("Name: ");
    s.append(p.3.as_str());
    s.append(" | Desc: ");
    s.append(p.2.as_str());
    s.append(" | Free: ");
    s.append(bool_str(p.1));
    s.append(" | Can: ");
    s.append(p.0.as_str());
    s.append("\n");
    s.append("Savings/Price: %Savings: ");
    s.append(decimal(p.5).as_str());
    s.append(" | %Savings Text: ");
    s.append(p.6.as_str());
    s.append(" | Price in cents with discounts: ");
    s.append(decimal(p.7).as_str());
    s.append("\n");
    assert(s@ =~= old(s)@ + package_text(*p));
}

fn append_packages(s: &mut String, ps: &Vec<PackageDetail>)
    ensures
        final(s)@ == old(s)@ + packages_text(ps@),
{
    let ghost start = s@;
    let mut k: usize = 0;
    while k < ps.len()
        invariant
            k <= ps.len(),
            s@ == start + packages_text(ps@.subrange(0, k as int)),
        decreases ps.len() - k,
    {
        let ghost after = ps@.subrange(0, k + 1);
        assert(after.drop_last() =~= ps@.subrange(0, k as int));
        append_package(s, &ps[k]);
        assert(s@ =~= start + packages_text(after));
        k = k + 1;
    }
    assert(ps@.subrange(0, ps.len() as int) =~= ps@);
}

fn append_groups(s: &mut String, gs: &Vec<Vec<PackageDetail>>)
    ensures
        final(s)@ == old(s)@ + groups_text(gs@),
{
    let ghost start = s@;
    let mut k: usize = 0;
    while k < gs.len()
        invariant
            k <= gs.len(),
            s@ == start + groups_text(gs@.subrange(0, k as int)),
        decreases gs.len() - k,
    {
        let ghost after = gs@.subrange(0, k + 1);
        assert(after.drop_last() =~= gs@.subrange(0, k as int));
        s.append("Packages:\n");
        append_packages(s, &gs[k]);
        assert(s@ =~= start + groups_text(after));
        k = k + 1;
    }
    assert(gs@.subrange(0, gs.len() as int) =~= gs@);
}

fn append_categories(s: &mut String, cs: &Vec<(String, i64)>)
    ensures
        final(s)@ == old(s)@ + category_names(cs@),
{
    let ghost start = s@;
    let mut k: usize = 0;
    while k < cs.len()
        invariant
            k <= cs.len(),
            s@ == start + category_names(cs@.subrange(0, k as int)),
        decreases cs.len() - k,
    {
        let ghost after = cs@.subrange(0, k + 1);
        assert(after.drop_last() =~= cs@.subrange(0, k as int));
        s.append(cs[k].0.as_str());
        s.append(", ");
        assert(s@ =~= start + category_names(after));
        k = k + 1;
    }
    assert(cs@.subrange(0, cs.len() as int) =~= cs@);
}

fn append_genres(s: &mut String, gs: &Vec<(String, String)>)
    ensures
        final(s)@ == old(s)@ + genre_names(gs@),
{
    let ghost start = s@;
    let mut k: usize = 0;
    while k < gs.len()
        invariant
            k <= gs.len(),
            s@ == start + genre_names(gs@.subrange(0, k as int)),
        decreases gs.len() - k,
    {
        let ghost after = gs@.subrange(0, k + 1);
        assert(after.drop_last() =~= gs@.subrange(0, k as int));
        s.append(gs[k].0.as_str());
        s.append(", ");
        assert(s@ =~= start + genre_names(after));
        k = k + 1;
    }
    assert(gs@.subrange(0, gs.len() as int) =~= gs@);
}

/// The first lines shown for the chosen title `game`.
pub fn render_heading(game: &(i64, String)) -> (r: String)
    ensures
        r@ == heading_text(*game),
{
    let mut s = String::from_str("\x1b[2J\x1b[1;1H");
    s.append("Game found: ");
    s.append(game.1.as_str());
    s.append(" | ");
    s.append(decimal(game.0).as_str());
    s.append("\n");
    assert(s@ =~= heading_text(*game));
    s
}

/// The text shown for title `appid` after its heading.
pub fn render_body(appid: i64, d: &GameDetails) -> (r: String)
    ensures
        r@ == body_text(appid, *d),
{
    let mut s = String::from_str("Categories:\n");
    append_categories(&mut s, &d.categories);
    s.append("Genres:\n");
    append_genres(&mut s, &d.genres);
    s.append("Game description: ");
    s.append(d.description.as_str());
    s.append("\n");
    s.append("Package Groups:\n");
    append_groups(&mut s, &d.packages);
    s.append("Image: ");
    s.append(cover_image_url(appid).as_str());
    s.append("\n");
    s.append("Steam Link: ");
    s.append(store_page_url(appid).as_str());
    s.append("\n");
    assert(s@ =~= body_text(appid, *d));
    s
}

/// The whole text shown for the chosen title `game` with its details.
pub fn render_details(game: &(i64, String), d: &GameDetails) -> (r: String)
    ensures
        r@ == rendered(*game, *d),
{
    let mut s = render_heading(game);
    let body = render_body(game.0, d);
    s.append(body.as_str());
    s
}

} // verus!
