//! The layout of the requirements document: a title, then each
//! requirement as a header line and the lines of its description, going
//! down the page in millimetres and starting a new page near the bottom.
//! The PDF itself is drawn by the caller.
use vstd::prelude::*;
use crate::lines::{lines, lines_of};
use crate::text::{concat3, push_str};

verus! {

/// A requirement: its identifier, title, kind and description.
#[derive(Debug, Clone)]
pub struct Requirement {
    pub id: String,
    pub title: String,
    pub kind: String,
    pub description: String,
}

/// A line of text placed on the document: on page `page` (0 is the
/// first), `x_mm` millimetres from the left, `y_mm` from the bottom, in a
/// font of `font_size` points.
#[derive(Debug, Clone)]
pub struct Placement {
    pub page: usize,
    pub x_mm: u32,
    pub y_mm: i128,
    pub font_size: u32,
    pub text: String,
}

/// A placement as specifications see it.
pub type PlacementView = (nat, nat, int, nat, Seq<char>);

/// The views of a list of placements.
pub open spec fn placement_views(v: Seq<Placement>) -> Seq<PlacementView> {
    v.map_values(|p: Placement| (p.page as nat, p.x_mm as nat, p.y_mm as int, p.font_size as nat, p.text@))
}

/// The header line of a requirement.
pub open spec fn header_text(id: Seq<char>, title: Seq<char>, kind: Seq<char>) -> Seq<char> {
    "["@ + id + "] "@ + title + " ("@ + kind + ")"@
}

/// The lines of a description, five millimetres apart from `y` down.
pub open spec fn line_placements(ls: Seq<Seq<char>>, page: nat, y: int) -> Seq<PlacementView> {
    Seq::new(ls.len(), |k: int| (page, 25nat, y - 5 * k, 10nat, ls[k]))
}

/// The placements of requirement `r` when the cursor is at `y` on page
/// `page`, with the page and cursor after it: a new page is started when
/// the cursor is below 30 mm; the header goes at the cursor, the lines of
/// the description 7 mm below it and 5 mm apart, and 5 mm of space follow.
pub open spec fn place_requirement(r: Requirement, page: nat, y: int) -> (Seq<PlacementView>, nat, int) {
    let pg = if y < 30 {
        page + 1
    } else {
        page
    };
    let y0 = if y < 30 {
        280
    } else {
        y
    };
    let ls = lines(r.description@);
    (
        seq![(pg, 20nat, y0, 12nat, header_text(r.id@, r.title@, r.kind@))] + line_placements(
            ls,
            pg,
            y0 - 7,
        ),
        pg,
        y0 - 7 - 5 * ls.len() - 5,
    )
}

/// The placements of the requirements `rs` after the title, with the page
/// and cursor they end at: the title in 24 points at 280 mm on the first
/// page, the requirements from 265 mm on.
pub open spec fn layout(rs: Seq<Requirement>) -> (Seq<PlacementView>, nat, int)
    decreases rs.len(),
{
    if rs.len() == 0 {
        (seq![(0nat, 20nat, 280int, 24nat, "Project Requirements"@)], 0, 265)
    } else {
        let before = layout(rs.drop_last());
        let here = place_requirement(rs.last(), before.1, before.2);
        (before.0 + here.0, here.1, here.2)
    }
}

/// The header line of a requirement.
pub fn requirement_header(r: &Requirement) -> (s: String)
    ensures
        s@ == header_text(r.id@, r.title@, r.kind@),
{
    let mut s = concat3("[", r.id.as_str(), "] ");
    push_str(&mut s, r.title.as_str());
    push_str(&mut s, " (");
    push_str(&mut s, r.kind.as_str());
    push_str(&mut s, ")");
    s
}

/// Lays the requirements out, after the title.
pub fn layout_requirements(reqs: &Vec<Requirement>) -> (out: Vec<Placement>)
    ensures
        placement_views(out@) == layout(reqs@).0,
{
    let mut out: Vec<Placement> = Vec::new();
    out.push(
        Placement { page: 0, x_mm: 20, y_mm: 280, font_size: 24, text: "Project Requirements".to_owned() },
    );
    assert(placement_views(out@) =~= layout(reqs@.take(0)).0);
    let mut page: usize = 0;
    let mut y: i128 = 265;
    let mut i: usize = 0;
    while i < reqs.len()
        invariant
            i <= reqs@.len(),
            placement_views(out@) == layout(reqs@.take(i as int)).0,
            page == layout(reqs@.take(i as int)).1,
            y == layout(reqs@.take(i as int)).2,
            page <= i,
            -0x5_0000_0000_0000_0000int <= y <= 280,
        decreases reqs.len() - i,
    {
        proof {
            assert(reqs@.take(i + 1).drop_last() =~= reqs@.take(i as int));
            assert(reqs@.take(i + 1).last() == reqs@[i as int]);
        }
        let r = &reqs[i];
        if y < 30 {
            page = page + 1;
            y = 280;
        }
        let ghost y0 = y;
        let ghost before = placement_views(out@);
        out.push(Placement { page, x_mm: 20, y_mm: y, font_size: 12, text: requirement_header(r) });
        assert(placement_views(out@) =~= before.push(
            (page as nat, 20nat, y as int, 12nat, header_text(r.id@, r.title@, r.kind@)),
        ));
        y = y - 7;
        let ls = lines_of(r.description.as_str());
        let ghost head = placement_views(out@);
        let mut k: usize = 0;
        while k < ls.len()
            invariant
                k <= ls@.len(),
                30 <= y0 <= 280,
                y == y0 - 7 - 5 * k,
                placement_views(out@) == head + line_placements(
                    ls@.map_values(|l: String| l@).take(k as int),
                    page as nat,
                    y0 - 7,
                ),
            decreases ls.len() - k,
        {
            let ghost prev = placement_views(out@);
            out.push(
                Placement { page, x_mm: 25, y_mm: y, font_size: 10, text: ls[k].clone() },
            );
            proof {
                let lv = ls@.map_values(|l: String| l@);
                assert(placement_views(out@) =~= prev.push(
                    (page as nat, 25nat, y as int, 10nat, ls@[k as int]@),
                ));
                assert(line_placements(lv.take(k + 1), page as nat, y0 - 7) =~= line_placements(
                    lv.take(k as int),
                    page as nat,
                    y0 - 7,
                ).push((page as nat, 25nat, y0 - 7 - 5 * k, 10nat, lv[k as int])));
            }
            y = y - 5;
            k += 1;
        }
        y = y - 5;
        proof {
            let lv = ls@.map_values(|l: String| l@);
            assert(lv.take(ls@.len() as int) =~= lv);
            assert(lv == lines(r.description@));
        }
        i += 1;
    }
    assert(reqs@.take(reqs@.len() as int) =~= reqs@);
    out
}

} // verus!
