use vstd::prelude::*;
use crate::models::{FamilyShootView, FamilyView};
use crate::seqtools::{first_where, lemma_first_where_at, lemma_first_where_props};
use crate::server::{
    family_created_view, family_updated_view, fs_edge_created, upsert_family_views,
};
use crate::store::{family_index, fs_edge_index};
use crate::text::{family_id_spec, last_token, lower_of, under_of};

verus! {

/// Deterministic id: every last name maps to `family:` followed by its
/// lowercased form with spaces turned to underscores, and to nothing else.
pub proof fn lemma_deterministic_family_id(last: Seq<char>)
    ensures
        family_id_spec(last) == "family:"@ + under_of(lower_of(last)),
{
}

/// Round trip, one direction: right after a create, the deterministic id
/// finds a family row, so a lookup by the same last name reports it found.
pub proof fn lemma_create_family_found(
    fams: Seq<FamilyView>,
    ln: Seq<char>,
    email: Seq<char>,
    notes: Option<Seq<char>>,
    now: u64,
)
    ensures
        family_index(upsert_family_views(fams, ln, email, notes, now), family_id_spec(ln)) != -1,
{
    let fid = family_id_spec(ln);
    let p = |f: FamilyView| f.id == fid;
    let i = family_index(fams, fid);
    lemma_first_where_props(fams, p);
    if i == -1 {
        let after = fams.push(family_created_view(ln, email, notes, now));
        assert(p(after[fams.len() as int]));
        assert(forall|j: int| 0 <= j < fams.len() ==> !p(#[trigger] after[j]));
        lemma_first_where_at(after, p, fams.len() as int);
    } else {
        let after = fams.update(i, family_updated_view(fams[i], email, notes));
        assert(p(after[i]));
        assert(forall|j: int| 0 <= j < i ==> !p(#[trigger] after[j]));
        lemma_first_where_at(after, p, i);
    }
}

/// Idempotence: two consecutive creates of the same last name leave the
/// same family table as one create carrying the second call's email and
/// notes; only those two fields track the later call.
pub proof fn lemma_create_family_idempotent(
    fams: Seq<FamilyView>,
    ln: Seq<char>,
    e1: Seq<char>,
    n1: Option<Seq<char>>,
    e2: Seq<char>,
    n2: Option<Seq<char>>,
    t1: u64,
    t2: u64,
)
    ensures
        upsert_family_views(upsert_family_views(fams, ln, e1, n1, t1), ln, e2, n2, t2)
            == upsert_family_views(fams, ln, e2, n2, t1),
{
    let fid = family_id_spec(ln);
    let p = |f: FamilyView| f.id == fid;
    let i = family_index(fams, fid);
    lemma_first_where_props(fams, p);
    if i == -1 {
        let mid = fams.push(family_created_view(ln, e1, n1, t1));
        assert(p(mid[fams.len() as int]));
        assert(forall|j: int| 0 <= j < fams.len() ==> !p(#[trigger] mid[j]));
        lemma_first_where_at(mid, p, fams.len() as int);
        assert(upsert_family_views(mid, ln, e2, n2, t2) =~= fams.push(
            family_created_view(ln, e2, n2, t1),
        ));
    } else {
        let mid = fams.update(i, family_updated_view(fams[i], e1, n1));
        assert(p(mid[i]));
        assert(forall|j: int| 0 <= j < i ==> !p(#[trigger] mid[j]));
        lemma_first_where_at(mid, p, i);
        assert(upsert_family_views(mid, ln, e2, n2, t2) =~= fams.update(
            i,
            family_updated_view(fams[i], e2, n2),
        ));
    }
}

/// Link refusal: once an edge joins a family and a shoot, the same pair
/// probes as linked, so a repeated link reports the existing edge and the
/// edge table gains nothing.
pub proof fn lemma_link_probe_after_link(
    es: Seq<FamilyShootView>,
    eid: Seq<char>,
    fid: Seq<char>,
    tid: Seq<char>,
    now: u64,
)
    ensures
        fs_edge_index(es.push(fs_edge_created(eid, fid, tid, now)), fid, tid) != -1,
{
    let after = es.push(fs_edge_created(eid, fid, tid, now));
    let p = |e: FamilyShootView| e.family == fid && e.out == tid;
    lemma_first_where_props(after, p);
    if first_where(after, p) == -1 {
        assert(!p(after[es.len() as int]));
        assert(false);
    }
}

/// The id a sync entry is matched under agrees with the id a create of the
/// entry's last name token would write: the two derivations meet.
pub proof fn lemma_sync_id_agrees(name: Seq<char>)
    ensures
        crate::sync::sync_family_id(name) == family_id_spec(last_token(name)),
{
}

} // verus!
