use vstd::prelude::*;
use crate::models::{
    FamilyCompetitionView, FamilyRec, FamilyShoot, FamilyShootView, FamilyView, SkaterRec,
    SkaterView, Shoot, ShootView,
};
use crate::responses::{PendingRow, PendingView};
use crate::seqtools::first_where;
use crate::store::{family_index, shoot_index};
use crate::text::{chars_le, ci_contains, ci_contains_exec, lex_le, str_eq, to_chars};

verus! {

// ---------------------------------------------------------------------------
// Orderings. Listings come back sorted; these relations say how.
// ---------------------------------------------------------------------------
/// Order on optional strings, a missing value before every present one.
pub open spec fn opt_lex_le(a: Option<Seq<char>>, b: Option<Seq<char>>) -> bool {
    match (a, b) {
        (Option::None, _) => true,
        (Option::Some(_), Option::None) => false,
        (Option::Some(x), Option::Some(y)) => lex_le(x, y),
    }
}

pub proof fn lemma_opt_lex_le_connected(a: Option<Seq<char>>, b: Option<Seq<char>>)
    ensures
        opt_lex_le(a, b) || opt_lex_le(b, a),
{
    if a is Some && b is Some {
        crate::text::lemma_lex_le_connected(a.unwrap(), b.unwrap());
    }
}

pub proof fn lemma_opt_lex_le_refl(a: Option<Seq<char>>)
    ensures
        opt_lex_le(a, a),
{
    if a is Some {
        crate::text::lemma_lex_le_refl(a.unwrap());
    }
}

pub proof fn lemma_opt_lex_le_trans(
    a: Option<Seq<char>>,
    b: Option<Seq<char>>,
    c: Option<Seq<char>>,
)
    requires
        opt_lex_le(a, b),
        opt_lex_le(b, c),
    ensures
        opt_lex_le(a, c),
{
    if a is Some && b is Some && c is Some {
        crate::text::lemma_lex_le_trans(a.unwrap(), b.unwrap(), c.unwrap());
    }
}

fn opt_str_le_exec(a: &Option<String>, b: &Option<String>) -> (r: bool)
    ensures
        r == opt_lex_le(a.deep_view(), b.deep_view()),
{
    match (a, b) {
        (Option::None, _) => true,
        (Option::Some(_), Option::None) => false,
        (Option::Some(x), Option::Some(y)) => {
            let xv = to_chars(x.as_str());
            let yv = to_chars(y.as_str());
            chars_le(&xv, &yv)
        },
    }
}

/// The open delivery states: work not yet sent out.
pub open spec fn open_status(s: Seq<char>) -> bool {
    s == "pending"@ || s == "culling"@ || s == "processing"@
}

pub fn is_open_status(s: &str) -> (r: bool)
    ensures
        r == open_status(s@),
{
    str_eq(s, "pending") || str_eq(s, "culling") || str_eq(s, "processing")
}

/// The name of the shoot an edge points at; a dangling link reads as the
/// empty string.
pub open spec fn shoot_name_of(sh: Seq<ShootView>, tid: Seq<char>) -> Seq<char> {
    let i = shoot_index(sh, tid);
    if i == -1 {
        Seq::<char>::empty()
    } else {
        sh[i].name
    }
}

/// Index of the competition with the given record id, or -1.
pub open spec fn competition_index(
    cs: Seq<crate::models::CompetitionView>,
    id: Seq<char>,
) -> int {
    first_where(cs, |c: crate::models::CompetitionView| c.id == id)
}

/// The name of the competition an edge points at; a dangling link reads as
/// the empty string.
pub open spec fn competition_name_of(
    cs: Seq<crate::models::CompetitionView>,
    tid: Seq<char>,
) -> Seq<char> {
    let i = competition_index(cs, tid);
    if i == -1 {
        Seq::<char>::empty()
    } else {
        cs[i].name
    }
}

// ---------------------------------------------------------------------------
// Filters: which rows each listing keeps, in table order.
// ---------------------------------------------------------------------------
pub open spec fn skater_matches(s: SkaterView, frag: Seq<char>) -> bool {
    ci_contains(s.first_name, frag) || ci_contains(s.last_name, frag)
}

pub open spec fn matching_skaters(sk: Seq<SkaterView>, frag: Seq<char>) -> Seq<SkaterView>
    decreases sk.len(),
{
    if sk.len() == 0 {
        Seq::<SkaterView>::empty()
    } else {
        let rest = matching_skaters(sk.drop_last(), frag);
        if skater_matches(sk.last(), frag) {
            rest.push(sk.last())
        } else {
            rest
        }
    }
}

pub open spec fn opt_or_empty(s: Option<Seq<char>>) -> Seq<char> {
    match s {
        Some(x) => x,
        None => Seq::<char>::empty(),
    }
}

pub open spec fn family_matches(f: FamilyView, search: Option<Seq<char>>) -> bool {
    match search {
        None => true,
        Some(s) => ci_contains(opt_or_empty(f.last_name), s) || ci_contains(
            opt_or_empty(f.name),
            s,
        ),
    }
}

pub open spec fn matching_families(
    fams: Seq<FamilyView>,
    search: Option<Seq<char>>,
) -> Seq<FamilyView>
    decreases fams.len(),
{
    if fams.len() == 0 {
        Seq::<FamilyView>::empty()
    } else {
        let rest = matching_families(fams.drop_last(), search);
        if family_matches(fams.last(), search) {
            rest.push(fams.last())
        } else {
            rest
        }
    }
}

/// The pending row an edge projects to: the family's last name and delivery
/// email read through the edge, both missing when the family row is gone.
pub open spec fn pending_row_of(e_status: Seq<char>, fams: Seq<FamilyView>, fid: Seq<char>) -> PendingView {
    let fi = family_index(fams, fid);
    if fi == -1 {
        PendingView { family: None, email: None, gallery_status: e_status }
    } else {
        PendingView {
            family: fams[fi].last_name,
            email: fams[fi].delivery_email,
            gallery_status: e_status,
        }
    }
}

/// Rows of the pending listing for a shoot: edges whose shoot name matches
/// and whose status is open, in table order.
pub open spec fn pending_fs_rows(
    es: Seq<FamilyShootView>,
    sh: Seq<ShootView>,
    fams: Seq<FamilyView>,
    frag: Seq<char>,
) -> Seq<PendingView>
    decreases es.len(),
{
    if es.len() == 0 {
        Seq::<PendingView>::empty()
    } else {
        let rest = pending_fs_rows(es.drop_last(), sh, fams, frag);
        let e = es.last();
        if ci_contains(shoot_name_of(sh, e.out), frag) && open_status(e.gallery_status) {
            rest.push(pending_row_of(e.gallery_status, fams, e.family))
        } else {
            rest
        }
    }
}

/// Rows of the pending listing for a competition; an edge without a status
/// has no open status and is left out.
pub open spec fn pending_fc_rows(
    es: Seq<FamilyCompetitionView>,
    cs: Seq<crate::models::CompetitionView>,
    fams: Seq<FamilyView>,
    frag: Seq<char>,
) -> Seq<PendingView>
    decreases es.len(),
{
    if es.len() == 0 {
        Seq::<PendingView>::empty()
    } else {
        let rest = pending_fc_rows(es.drop_last(), cs, fams, frag);
        let e = es.last();
        if ci_contains(competition_name_of(cs, e.out), frag) && (e.gallery_status matches Some(st)
            && open_status(st)) {
            rest.push(pending_row_of(e.gallery_status.unwrap(), fams, e.family))
        } else {
            rest
        }
    }
}

// ---------------------------------------------------------------------------
// Row orders and sortedness.
// ---------------------------------------------------------------------------
/// Skaters list by last name, then first name.
pub open spec fn skater_le(a: SkaterView, b: SkaterView) -> bool {
    (lex_le(a.last_name, b.last_name) && a.last_name != b.last_name) || (a.last_name == b.last_name
        && lex_le(a.first_name, b.first_name))
}

pub open spec fn skaters_sorted(s: Seq<SkaterView>) -> bool {
    forall|i: int, j: int| 0 <= i < j < s.len() ==> skater_le(#[trigger] s[i], #[trigger] s[j])
}

pub proof fn lemma_skater_le_connected(a: SkaterView, b: SkaterView)
    ensures
        skater_le(a, b) || skater_le(b, a),
{
    crate::text::lemma_lex_le_connected(a.last_name, b.last_name);
    if a.last_name == b.last_name {
        crate::text::lemma_lex_le_connected(a.first_name, b.first_name);
    }
}

pub proof fn lemma_skater_le_trans(a: SkaterView, b: SkaterView, c: SkaterView)
    requires
        skater_le(a, b),
        skater_le(b, c),
    ensures
        skater_le(a, c),
{
    crate::text::lemma_lex_le_refl(a.last_name);
    crate::text::lemma_lex_le_refl(b.last_name);
    crate::text::lemma_lex_le_trans(a.last_name, b.last_name, c.last_name);
    if a.last_name == b.last_name && b.last_name == c.last_name {
        crate::text::lemma_lex_le_trans(a.first_name, b.first_name, c.first_name);
    } else if a.last_name == c.last_name {
        crate::text::lemma_lex_le_antisymmetric(b.last_name, c.last_name);
    }
}

fn skater_le_exec(a: &SkaterRec, b: &SkaterRec) -> (r: bool)
    ensures
        r == skater_le(a@, b@),
{
    let la = to_chars(a.last_name.as_str());
    let lb = to_chars(b.last_name.as_str());
    if str_eq(a.last_name.as_str(), b.last_name.as_str()) {
        let fa = to_chars(a.first_name.as_str());
        let fb = to_chars(b.first_name.as_str());
        chars_le(&fa, &fb)
    } else {
        chars_le(&la, &lb)
    }
}

/// Pending rows list by the family name, missing names first.
pub open spec fn pending_le(a: PendingView, b: PendingView) -> bool {
    opt_lex_le(a.family, b.family)
}

pub open spec fn pending_sorted(s: Seq<PendingView>) -> bool {
    forall|i: int, j: int| 0 <= i < j < s.len() ==> pending_le(#[trigger] s[i], #[trigger] s[j])
}

fn pending_le_exec(a: &PendingRow, b: &PendingRow) -> (r: bool)
    ensures
        r == pending_le(a@, b@),
{
    opt_str_le_exec(&a.family, &b.family)
}

/// Families list by last name, missing names first.
pub open spec fn family_row_le(a: FamilyView, b: FamilyView) -> bool {
    opt_lex_le(a.last_name, b.last_name)
}

pub open spec fn families_sorted(s: Seq<FamilyView>) -> bool {
    forall|i: int, j: int| 0 <= i < j < s.len() ==> family_row_le(#[trigger] s[i], #[trigger] s[j])
}

fn family_row_le_exec(a: &FamilyRec, b: &FamilyRec) -> (r: bool)
    ensures
        r == family_row_le(a@, b@),
{
    opt_str_le_exec(&a.last_name, &b.last_name)
}

/// Shoots list by date, newest first, then by name; a missing date sorts
/// after every present one.
pub open spec fn shoot_le(a: ShootView, b: ShootView) -> bool {
    (opt_lex_le(b.shoot_date, a.shoot_date) && a.shoot_date != b.shoot_date) || (a.shoot_date
        == b.shoot_date && lex_le(a.name, b.name))
}

pub open spec fn shoots_sorted(s: Seq<ShootView>) -> bool {
    forall|i: int, j: int| 0 <= i < j < s.len() ==> shoot_le(#[trigger] s[i], #[trigger] s[j])
}

pub proof fn lemma_shoot_le_connected(a: ShootView, b: ShootView)
    ensures
        shoot_le(a, b) || shoot_le(b, a),
{
    lemma_opt_lex_le_connected(a.shoot_date, b.shoot_date);
    if a.shoot_date == b.shoot_date {
        crate::text::lemma_lex_le_connected(a.name, b.name);
    }
}

pub proof fn lemma_opt_lex_le_antisymmetric(a: Option<Seq<char>>, b: Option<Seq<char>>)
    requires
        opt_lex_le(a, b),
        opt_lex_le(b, a),
    ensures
        a == b,
{
    if a is Some && b is Some {
        crate::text::lemma_lex_le_antisymmetric(a.unwrap(), b.unwrap());
    }
}

pub proof fn lemma_shoot_le_trans(a: ShootView, b: ShootView, c: ShootView)
    requires
        shoot_le(a, b),
        shoot_le(b, c),
    ensures
        shoot_le(a, c),
{
    lemma_opt_lex_le_refl(a.shoot_date);
    lemma_opt_lex_le_refl(b.shoot_date);
    lemma_opt_lex_le_trans(c.shoot_date, b.shoot_date, a.shoot_date);
    if a.shoot_date == b.shoot_date && b.shoot_date == c.shoot_date {
        crate::text::lemma_lex_le_trans(a.name, b.name, c.name);
    } else if a.shoot_date == c.shoot_date {
        lemma_opt_lex_le_antisymmetric(b.shoot_date, c.shoot_date);
    }
}

fn shoot_le_exec(a: &Shoot, b: &Shoot) -> (r: bool)
    ensures
        r == shoot_le(a@, b@),
{
    let date_eq = match (&a.shoot_date, &b.shoot_date) {
        (Option::None, Option::None) => true,
        (Option::Some(x), Option::Some(y)) => str_eq(x.as_str(), y.as_str()),
        _ => false,
    };
    if date_eq {
        let na = to_chars(a.name.as_str());
        let nb = to_chars(b.name.as_str());
        chars_le(&na, &nb)
    } else {
        opt_str_le_exec(&b.shoot_date, &a.shoot_date)
    }
}

/// The cap listings apply after sorting.
pub open spec fn capped<T>(s: Seq<T>, n: int) -> Seq<T> {
    if s.len() <= n {
        s
    } else {
        s.take(n)
    }
}

// ---------------------------------------------------------------------------
// Filter passes, each keeping table order.
// ---------------------------------------------------------------------------
/// Copies the skaters whose first or last name matches the fragment.
pub fn filter_skaters(sk: &Vec<SkaterRec>, frag: &str) -> (r: Vec<SkaterRec>)
    ensures
        r.deep_view() == matching_skaters(sk.deep_view(), frag@),
{
    let mut out: Vec<SkaterRec> = Vec::new();
    let mut i: usize = 0;
    proof {
        assert(sk.deep_view().take(0) =~= Seq::<SkaterView>::empty());
        assert(out.deep_view() =~= matching_skaters(sk.deep_view().take(0), frag@));
    }
    while i < sk.len()
        invariant
            i <= sk@.len(),
            out.deep_view() == matching_skaters(sk.deep_view().take(i as int), frag@),
        decreases sk@.len() - i,
    {
        let ghost pre = out.deep_view();
        proof {
            assert(sk.deep_view().take(i + 1 as int).drop_last() =~= sk.deep_view().take(i as int));
            assert(sk.deep_view().take(i + 1 as int).last() == sk.deep_view()[i as int]);
            assert(sk.deep_view()[i as int] == sk@[i as int]@);
        }
        let s = &sk[i];
        if ci_contains_exec(s.first_name.as_str(), frag) || ci_contains_exec(
            s.last_name.as_str(),
            frag,
        ) {
            out.push(s.duplicate());
            proof {
                assert(out.deep_view() =~= pre.push(sk.deep_view()[i as int]));
            }
        }
        i = i + 1;
    }
    proof {
        assert(sk.deep_view().take(sk@.len() as int) =~= sk.deep_view());
    }
    out
}

fn opt_str_or_empty<'a>(s: &'a Option<String>) -> (r: &'a str)
    ensures
        r@ == opt_or_empty(s.deep_view()),
{
    proof {
        reveal_strlit("");
    }
    match s {
        Some(x) => x.as_str(),
        None => "",
    }
}

/// Copies the families the optional search keeps.
pub fn filter_families(fams: &Vec<FamilyRec>, search: &Option<String>) -> (r: Vec<FamilyRec>)
    ensures
        r.deep_view() == matching_families(fams.deep_view(), search.deep_view()),
{
    let mut out: Vec<FamilyRec> = Vec::new();
    let mut i: usize = 0;
    proof {
        assert(fams.deep_view().take(0) =~= Seq::<FamilyView>::empty());
        assert(out.deep_view() =~= matching_families(fams.deep_view().take(0), search.deep_view()));
    }
    while i < fams.len()
        invariant
            i <= fams@.len(),
            out.deep_view() == matching_families(
                fams.deep_view().take(i as int),
                search.deep_view(),
            ),
        decreases fams@.len() - i,
    {
        let ghost pre = out.deep_view();
        proof {
            assert(fams.deep_view().take(i + 1 as int).drop_last() =~= fams.deep_view().take(
                i as int,
            ));
            assert(fams.deep_view().take(i + 1 as int).last() == fams.deep_view()[i as int]);
            assert(fams.deep_view()[i as int] == fams@[i as int]@);
        }
        let f = &fams[i];
        let keep = match search {
            None => true,
            Some(s) => {
                ci_contains_exec(opt_str_or_empty(&f.last_name), s.as_str()) || ci_contains_exec(
                    opt_str_or_empty(&f.name),
                    s.as_str(),
                )
            },
        };
        if keep {
            out.push(f.duplicate());
            proof {
                assert(out.deep_view() =~= pre.push(fams.deep_view()[i as int]));
            }
        }
        i = i + 1;
    }
    proof {
        assert(fams.deep_view().take(fams@.len() as int) =~= fams.deep_view());
    }
    out
}

/// Builds the pending rows for a shoot listing, in edge-table order.
pub fn collect_pending_fs(
    es: &Vec<FamilyShoot>,
    sh: &Vec<Shoot>,
    fams: &Vec<FamilyRec>,
    frag: &str,
) -> (r: Vec<PendingRow>)
    ensures
        r.deep_view() == pending_fs_rows(
            es.deep_view(),
            sh.deep_view(),
            fams.deep_view(),
            frag@,
        ),
{
    let mut out: Vec<PendingRow> = Vec::new();
    let mut i: usize = 0;
    proof {
        assert(es.deep_view().take(0) =~= Seq::<FamilyShootView>::empty());
        assert(out.deep_view() =~= pending_fs_rows(
            es.deep_view().take(0),
            sh.deep_view(),
            fams.deep_view(),
            frag@,
        ));
    }
    while i < es.len()
        invariant
            i <= es@.len(),
            out.deep_view() == pending_fs_rows(
                es.deep_view().take(i as int),
                sh.deep_view(),
                fams.deep_view(),
                frag@,
            ),
        decreases es@.len() - i,
    {
        let ghost pre = out.deep_view();
        proof {
            assert(es.deep_view().take(i + 1 as int).drop_last() =~= es.deep_view().take(i as int));
            assert(es.deep_view().take(i + 1 as int).last() == es.deep_view()[i as int]);
            assert(es.deep_view()[i as int] == es@[i as int]@);
        }
        let e = &es[i];
        proof {
            reveal_strlit("");
        }
        let name_matches = match crate::store::find_shoot_by_id(sh, e.out.as_str()) {
            Some(si) => {
                proof {
                    crate::seqtools::lemma_first_where_props(
                        sh.deep_view(),
                        |s: ShootView| s.id == e.out@,
                    );
                    assert(sh.deep_view()[si as int] == sh@[si as int]@);
                }
                ci_contains_exec(sh[si].name.as_str(), frag)
            },
            None => {
                proof {
                    assert(shoot_name_of(sh.deep_view(), e.out@) =~= ""@);
                }
                ci_contains_exec("", frag)
            },
        };
        if name_matches && is_open_status(e.gallery_status.as_str()) {
            let row = match crate::store::find_family(fams, e.family.as_str()) {
                Some(fi) => {
                    proof {
                        crate::seqtools::lemma_first_where_props(
                            fams.deep_view(),
                            |f: FamilyView| f.id == e.family@,
                        );
                        assert(fams.deep_view()[fi as int] == fams@[fi as int]@);
                    }
                    PendingRow {
                        family: crate::models::clone_opt_string(&fams[fi].last_name),
                        email: crate::models::clone_opt_string(&fams[fi].delivery_email),
                        gallery_status: e.gallery_status.clone(),
                    }
                },
                None => PendingRow {
                    family: None,
                    email: None,
                    gallery_status: e.gallery_status.clone(),
                },
            };
            out.push(row);
            proof {
                assert(out.deep_view() =~= pre.push(
                    pending_row_of(
                        es.deep_view()[i as int].gallery_status,
                        fams.deep_view(),
                        es.deep_view()[i as int].family,
                    ),
                ));
            }
        }
        i = i + 1;
    }
    proof {
        assert(es.deep_view().take(es@.len() as int) =~= es.deep_view());
    }
    out
}

/// Builds the pending rows for a competition listing, in edge-table order.
pub fn collect_pending_fc(
    es: &Vec<crate::models::FamilyCompetition>,
    cs: &Vec<crate::models::CompetitionRec>,
    fams: &Vec<FamilyRec>,
    frag: &str,
) -> (r: Vec<PendingRow>)
    ensures
        r.deep_view() == pending_fc_rows(
            es.deep_view(),
            cs.deep_view(),
            fams.deep_view(),
            frag@,
        ),
{
    let mut out: Vec<PendingRow> = Vec::new();
    let mut i: usize = 0;
    proof {
        assert(es.deep_view().take(0) =~= Seq::<FamilyCompetitionView>::empty());
        assert(out.deep_view() =~= pending_fc_rows(
            es.deep_view().take(0),
            cs.deep_view(),
            fams.deep_view(),
            frag@,
        ));
    }
    while i < es.len()
        invariant
            i <= es@.len(),
            out.deep_view() == pending_fc_rows(
                es.deep_view().take(i as int),
                cs.deep_view(),
                fams.deep_view(),
                frag@,
            ),
        decreases es@.len() - i,
    {
        let ghost pre = out.deep_view();
        proof {
            assert(es.deep_view().take(i + 1 as int).drop_last() =~= es.deep_view().take(i as int));
            assert(es.deep_view().take(i + 1 as int).last() == es.deep_view()[i as int]);
            assert(es.deep_view()[i as int] == es@[i as int]@);
        }
        let e = &es[i];
        proof {
            reveal_strlit("");
        }
        let name_matches = match find_competition_by_id(cs, e.out.as_str()) {
            Some(ci) => {
                proof {
                    crate::seqtools::lemma_first_where_props(
                        cs.deep_view(),
                        |c: crate::models::CompetitionView| c.id == e.out@,
                    );
                    assert(cs.deep_view()[ci as int] == cs@[ci as int]@);
                }
                ci_contains_exec(cs[ci].name.as_str(), frag)
            },
            None => {
                proof {
                    assert(competition_name_of(cs.deep_view(), e.out@) =~= ""@);
                }
                ci_contains_exec("", frag)
            },
        };
        let status_open = match &e.gallery_status {
            Some(st) => is_open_status(st.as_str()),
            None => false,
        };
        if name_matches && status_open {
            let row = match crate::store::find_family(fams, e.family.as_str()) {
                Some(fi) => {
                    proof {
                        crate::seqtools::lemma_first_where_props(
                            fams.deep_view(),
                            |f: FamilyView| f.id == e.family@,
                        );
                        assert(fams.deep_view()[fi as int] == fams@[fi as int]@);
                    }
                    PendingRow {
                        family: crate::models::clone_opt_string(&fams[fi].last_name),
                        email: crate::models::clone_opt_string(&fams[fi].delivery_email),
                        gallery_status: match &e.gallery_status {
                            Some(st) => st.clone(),
                            None => String::new(),
                        },
                    }
                },
                None => PendingRow {
                    family: None,
                    email: None,
                    gallery_status: match &e.gallery_status {
                        Some(st) => st.clone(),
                        None => String::new(),
                    },
                },
            };
            out.push(row);
            proof {
                assert(out.deep_view() =~= pre.push(
                    pending_row_of(
                        es.deep_view()[i as int].gallery_status.unwrap(),
                        fams.deep_view(),
                        es.deep_view()[i as int].family,
                    ),
                ));
            }
        }
        i = i + 1;
    }
    proof {
        assert(es.deep_view().take(es@.len() as int) =~= es.deep_view());
    }
    out
}

/// Finds a competition by record id.
pub fn find_competition_by_id(cs: &Vec<crate::models::CompetitionRec>, id: &str) -> (r: Option<
    usize,
>)
    ensures
        ({
            let ix = competition_index(cs.deep_view(), id@);
            match r {
                Some(i) => ix == i as int,
                None => ix == -1,
            }
        }),
{
    let ghost p = |c: crate::models::CompetitionView| c.id == id@;
    let mut i: usize = 0;
    while i < cs.len()
        invariant
            i <= cs@.len(),
            forall|j: int| 0 <= j < i ==> !p(#[trigger] cs.deep_view()[j]),
            p == (|c: crate::models::CompetitionView| c.id == id@),
        decreases cs@.len() - i,
    {
        if str_eq(cs[i].id.as_str(), id) {
            proof {
                crate::seqtools::lemma_first_where_at(cs.deep_view(), p, i as int);
            }
            return Some(i);
        }
        i = i + 1;
    }
    proof {
        crate::seqtools::lemma_first_where_none(cs.deep_view(), p);
    }
    None
}

// ---------------------------------------------------------------------------
// Sorting. Each listing sorts by its order above; insertion keeps the
// result a permutation, stated as multiset equality on the views.
// ---------------------------------------------------------------------------
pub fn sort_pending_rows(v: Vec<PendingRow>) -> (r: Vec<PendingRow>)
    ensures
        r.deep_view().to_multiset() == v.deep_view().to_multiset(),
        pending_sorted(r.deep_view()),
{
    broadcast use vstd::seq_lib::group_to_multiset_ensures;

    let mut rest = v;
    let mut out: Vec<PendingRow> = Vec::new();
    proof {
        assert(out.deep_view().to_multiset().add(rest.deep_view().to_multiset())
            =~= v.deep_view().to_multiset());
    }
    while rest.len() > 0
        invariant
            out.deep_view().to_multiset().add(rest.deep_view().to_multiset())
                =~= v.deep_view().to_multiset(),
            pending_sorted(out.deep_view()),
        decreases rest@.len(),
    {
        let ghost rest_pre = rest.deep_view();
        let x = match rest.pop() {
            Some(x) => x,
            None => {
                proof {
                    assert(false);
                }
                unreached()
            },
        };
        proof {
            assert(rest.deep_view() =~= rest_pre.drop_last());
            assert(x@ == rest_pre.last());
            crate::seqtools::lemma_drop_last_to_multiset(rest_pre);
        }
        let mut j: usize = 0;
        while j < out.len() && pending_le_exec(&out[j], &x)
            invariant
                j <= out@.len(),
                forall|k: int| 0 <= k < j ==> pending_le(#[trigger] out.deep_view()[k], x@),
                pending_sorted(out.deep_view()),
            decreases out@.len() - j,
        {
            proof {
                assert(out.deep_view()[j as int] == out@[j as int]@);
            }
            j = j + 1;
        }
        proof {
            assert forall|k: int| j <= k < out@.len() implies pending_le(
                x@,
                #[trigger] out.deep_view()[k],
            ) by {
                assert(out.deep_view()[j as int] == out@[j as int]@);
                assert(!pending_le(out.deep_view()[j as int], x@));
                lemma_opt_lex_le_connected(out.deep_view()[j as int].family, x@.family);
                if k > j {
                    lemma_opt_lex_le_trans(
                        x@.family,
                        out.deep_view()[j as int].family,
                        out.deep_view()[k].family,
                    );
                }
            }
        }
        let ghost out_pre = out.deep_view();
        let ghost xv = x@;
        out.insert(j, x);
        proof {
            assert(out.deep_view() =~= out_pre.insert(j as int, xv));
            out_pre.insert_ensures(j as int, xv);
            crate::seqtools::lemma_insert_to_multiset(out_pre, j as int, xv);
            assert forall|p: int, q: int| 0 <= p < q < out.deep_view().len() implies pending_le(
                #[trigger] out.deep_view()[p],
                #[trigger] out.deep_view()[q],
            ) by {
                if p == j as int {
                    assert(out.deep_view()[q] == out_pre[q - 1]);
                } else if q == j as int {
                    assert(out.deep_view()[p] == out_pre[p]);
                } else if p < j as int && q > j as int {
                    assert(out.deep_view()[p] == out_pre[p]);
                    assert(out.deep_view()[q] == out_pre[q - 1]);
                    if p < q - 1 {
                    } else {
                        assert(pending_le(out_pre[p], xv));
                        assert(pending_le(xv, out_pre[q - 1]));
                        lemma_opt_lex_le_trans(
                            out_pre[p].family,
                            xv.family,
                            out_pre[q - 1].family,
                        );
                    }
                }
            }
        }
    }
    proof {
        assert(rest.deep_view().to_multiset() =~= Seq::<PendingView>::empty().to_multiset());
        vstd::seq_lib::lemma_multiset_commutative(
            Seq::<PendingView>::empty(),
            out.deep_view(),
        );
        assert(out.deep_view().to_multiset() =~= v.deep_view().to_multiset());
    }
    out
}

pub fn sort_skater_recs(v: Vec<SkaterRec>) -> (r: Vec<SkaterRec>)
    ensures
        r.deep_view().to_multiset() == v.deep_view().to_multiset(),
        skaters_sorted(r.deep_view()),
{
    broadcast use vstd::seq_lib::group_to_multiset_ensures;

    let mut rest = v;
    let mut out: Vec<SkaterRec> = Vec::new();
    proof {
        assert(out.deep_view().to_multiset().add(rest.deep_view().to_multiset())
            =~= v.deep_view().to_multiset());
    }
    while rest.len() > 0
        invariant
            out.deep_view().to_multiset().add(rest.deep_view().to_multiset())
                =~= v.deep_view().to_multiset(),
            skaters_sorted(out.deep_view()),
        decreases rest@.len(),
    {
        let ghost rest_pre = rest.deep_view();
        let x = match rest.pop() {
            Some(x) => x,
            None => {
                proof {
                    assert(false);
                }
                unreached()
            },
        };
        proof {
            assert(rest.deep_view() =~= rest_pre.drop_last());
            assert(x@ == rest_pre.last());
            crate::seqtools::lemma_drop_last_to_multiset(rest_pre);
        }
        let mut j: usize = 0;
        while j < out.len() && skater_le_exec(&out[j], &x)
            invariant
                j <= out@.len(),
                forall|k: int| 0 <= k < j ==> skater_le(#[trigger] out.deep_view()[k], x@),
                skaters_sorted(out.deep_view()),
            decreases out@.len() - j,
        {
            proof {
                assert(out.deep_view()[j as int] == out@[j as int]@);
            }
            j = j + 1;
        }
        proof {
            assert forall|k: int| j <= k < out@.len() implies skater_le(
                x@,
                #[trigger] out.deep_view()[k],
            ) by {
                assert(out.deep_view()[j as int] == out@[j as int]@);
                assert(!skater_le(out.deep_view()[j as int], x@));
                lemma_skater_le_connected(out.deep_view()[j as int], x@);
                if k > j {
                    lemma_skater_le_trans(x@, out.deep_view()[j as int], out.deep_view()[k]);
                }
            }
        }
        let ghost out_pre = out.deep_view();
        let ghost xv = x@;
        out.insert(j, x);
        proof {
            assert(out.deep_view() =~= out_pre.insert(j as int, xv));
            out_pre.insert_ensures(j as int, xv);
            crate::seqtools::lemma_insert_to_multiset(out_pre, j as int, xv);
            assert forall|p: int, q: int| 0 <= p < q < out.deep_view().len() implies skater_le(
                #[trigger] out.deep_view()[p],
                #[trigger] out.deep_view()[q],
            ) by {
                if p == j as int {
                    assert(out.deep_view()[q] == out_pre[q - 1]);
                } else if q == j as int {
                    assert(out.deep_view()[p] == out_pre[p]);
                } else if p < j as int && q > j as int {
                    assert(out.deep_view()[p] == out_pre[p]);
                    assert(out.deep_view()[q] == out_pre[q - 1]);
                    if p < q - 1 {
                    } else {
                        assert(skater_le(out_pre[p], xv));
                        assert(skater_le(xv, out_pre[q - 1]));
                        lemma_skater_le_trans(out_pre[p], xv, out_pre[q - 1]);
                    }
                }
            }
        }
    }
    proof {
        assert(rest.deep_view().to_multiset() =~= Seq::<SkaterView>::empty().to_multiset());
        vstd::seq_lib::lemma_multiset_commutative(
            Seq::<SkaterView>::empty(),
            out.deep_view(),
        );
        assert(out.deep_view().to_multiset() =~= v.deep_view().to_multiset());
    }
    out
}


pub fn sort_family_recs(v: Vec<FamilyRec>) -> (r: Vec<FamilyRec>)
    ensures
        r.deep_view().to_multiset() == v.deep_view().to_multiset(),
        families_sorted(r.deep_view()),
{
    broadcast use vstd::seq_lib::group_to_multiset_ensures;

    let mut rest = v;
    let mut out: Vec<FamilyRec> = Vec::new();
    proof {
        assert(out.deep_view().to_multiset().add(rest.deep_view().to_multiset())
            =~= v.deep_view().to_multiset());
    }
    while rest.len() > 0
        invariant
            out.deep_view().to_multiset().add(rest.deep_view().to_multiset())
                =~= v.deep_view().to_multiset(),
            families_sorted(out.deep_view()),
        decreases rest@.len(),
    {
        let ghost rest_pre = rest.deep_view();
        let x = match rest.pop() {
            Some(x) => x,
            None => {
                proof {
                    assert(false);
                }
                unreached()
            },
        };
        proof {
            assert(rest.deep_view() =~= rest_pre.drop_last());
            assert(x@ == rest_pre.last());
            crate::seqtools::lemma_drop_last_to_multiset(rest_pre);
        }
        let mut j: usize = 0;
        while j < out.len() && family_row_le_exec(&out[j], &x)
            invariant
                j <= out@.len(),
                forall|k: int| 0 <= k < j ==> family_row_le(#[trigger] out.deep_view()[k], x@),
                families_sorted(out.deep_view()),
            decreases out@.len() - j,
        {
            proof {
                assert(out.deep_view()[j as int] == out@[j as int]@);
            }
            j = j + 1;
        }
        proof {
            assert forall|k: int| j <= k < out@.len() implies family_row_le(
                x@,
                #[trigger] out.deep_view()[k],
            ) by {
                assert(out.deep_view()[j as int] == out@[j as int]@);
                assert(!family_row_le(out.deep_view()[j as int], x@));
                lemma_opt_lex_le_connected(out.deep_view()[j as int].last_name, x@.last_name);
                if k > j {
                    lemma_opt_lex_le_trans(
                        x@.last_name,
                        out.deep_view()[j as int].last_name,
                        out.deep_view()[k].last_name,
                    );
                }
            }
        }
        let ghost out_pre = out.deep_view();
        let ghost xv = x@;
        out.insert(j, x);
        proof {
            assert(out.deep_view() =~= out_pre.insert(j as int, xv));
            out_pre.insert_ensures(j as int, xv);
            crate::seqtools::lemma_insert_to_multiset(out_pre, j as int, xv);
            assert forall|p: int, q: int| 0 <= p < q < out.deep_view().len() implies family_row_le(
                #[trigger] out.deep_view()[p],
                #[trigger] out.deep_view()[q],
            ) by {
                if p == j as int {
                    assert(out.deep_view()[q] == out_pre[q - 1]);
                } else if q == j as int {
                    assert(out.deep_view()[p] == out_pre[p]);
                } else if p < j as int && q > j as int {
                    assert(out.deep_view()[p] == out_pre[p]);
                    assert(out.deep_view()[q] == out_pre[q - 1]);
                    if p < q - 1 {
                    } else {
                        assert(family_row_le(out_pre[p], xv));
                        assert(family_row_le(xv, out_pre[q - 1]));
                        lemma_opt_lex_le_trans(
                            out_pre[p].last_name,
                            xv.last_name,
                            out_pre[q - 1].last_name,
                        );
                    }
                }
            }
        }
    }
    proof {
        assert(rest.deep_view().to_multiset() =~= Seq::<FamilyView>::empty().to_multiset());
        vstd::seq_lib::lemma_multiset_commutative(
            Seq::<FamilyView>::empty(),
            out.deep_view(),
        );
        assert(out.deep_view().to_multiset() =~= v.deep_view().to_multiset());
    }
    out
}


pub fn sort_shoot_recs(v: Vec<Shoot>) -> (r: Vec<Shoot>)
    ensures
        r.deep_view().to_multiset() == v.deep_view().to_multiset(),
        shoots_sorted(r.deep_view()),
{
    broadcast use vstd::seq_lib::group_to_multiset_ensures;

    let mut rest = v;
    let mut out: Vec<Shoot> = Vec::new();
    proof {
        assert(out.deep_view().to_multiset().add(rest.deep_view().to_multiset())
            =~= v.deep_view().to_multiset());
    }
    while rest.len() > 0
        invariant
            out.deep_view().to_multiset().add(rest.deep_view().to_multiset())
                =~= v.deep_view().to_multiset(),
            shoots_sorted(out.deep_view()),
        decreases rest@.len(),
    {
        let ghost rest_pre = rest.deep_view();
        let x = match rest.pop() {
            Some(x) => x,
            None => {
                proof {
                    assert(false);
                }
                unreached()
            },
        };
        proof {
            assert(rest.deep_view() =~= rest_pre.drop_last());
            assert(x@ == rest_pre.last());
            crate::seqtools::lemma_drop_last_to_multiset(rest_pre);
        }
        let mut j: usize = 0;
        while j < out.len() && shoot_le_exec(&out[j], &x)
            invariant
                j <= out@.len(),
                forall|k: int| 0 <= k < j ==> shoot_le(#[trigger] out.deep_view()[k], x@),
                shoots_sorted(out.deep_view()),
            decreases out@.len() - j,
        {
            proof {
                assert(out.deep_view()[j as int] == out@[j as int]@);
            }
            j = j + 1;
        }
        proof {
            assert forall|k: int| j <= k < out@.len() implies shoot_le(
                x@,
                #[trigger] out.deep_view()[k],
            ) by {
                assert(out.deep_view()[j as int] == out@[j as int]@);
                assert(!shoot_le(out.deep_view()[j as int], x@));
                lemma_shoot_le_connected(out.deep_view()[j as int], x@);
                if k > j {
                    lemma_shoot_le_trans(x@, out.deep_view()[j as int], out.deep_view()[k]);
                }
            }
        }
        let ghost out_pre = out.deep_view();
        let ghost xv = x@;
        out.insert(j, x);
        proof {
            assert(out.deep_view() =~= out_pre.insert(j as int, xv));
            out_pre.insert_ensures(j as int, xv);
            crate::seqtools::lemma_insert_to_multiset(out_pre, j as int, xv);
            assert forall|p: int, q: int| 0 <= p < q < out.deep_view().len() implies shoot_le(
                #[trigger] out.deep_view()[p],
                #[trigger] out.deep_view()[q],
            ) by {
                if p == j as int {
                    assert(out.deep_view()[q] == out_pre[q - 1]);
                } else if q == j as int {
                    assert(out.deep_view()[p] == out_pre[p]);
                } else if p < j as int && q > j as int {
                    assert(out.deep_view()[p] == out_pre[p]);
                    assert(out.deep_view()[q] == out_pre[q - 1]);
                    if p < q - 1 {
                    } else {
                        assert(shoot_le(out_pre[p], xv));
                        assert(shoot_le(xv, out_pre[q - 1]));
                        lemma_shoot_le_trans(out_pre[p], xv, out_pre[q - 1]);
                    }
                }
            }
        }
    }
    proof {
        assert(rest.deep_view().to_multiset() =~= Seq::<ShootView>::empty().to_multiset());
        vstd::seq_lib::lemma_multiset_commutative(
            Seq::<ShootView>::empty(),
            out.deep_view(),
        );
        assert(out.deep_view().to_multiset() =~= v.deep_view().to_multiset());
    }
    out
}


} // verus!
