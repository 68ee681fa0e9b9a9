use vstd::prelude::*;
use vstd::pervasive::VecAdditionalExecFns;
use crate::listings::{competition_name_of, shoot_name_of};
use crate::models::{
    CompetitionRec, CompetitionView, FamilyCompetition, FamilyCompetitionView, FamilyShoot,
    FamilyShootView, Shoot, ShootView,
};
use crate::responses::StatusBucket;
use crate::text::{ci_contains, ci_contains_exec, lex_le, lex_lt, str_eq, to_chars, chars_le};
use vstd::string::StringExecFns;

verus! {

// ---------------------------------------------------------------------------
// Status aggregation. A status query groups the edges whose target matches
// a name fragment by their gallery status; the breakdown lists each status
// seen, in ascending order, with its count.
// ---------------------------------------------------------------------------
/// The statuses of the family-shoot edges in scope, in table order.
pub open spec fn fs_scope_statuses(
    es: Seq<FamilyShootView>,
    sh: Seq<ShootView>,
    frag: Seq<char>,
) -> Seq<Seq<char>>
    decreases es.len(),
{
    if es.len() == 0 {
        Seq::<Seq<char>>::empty()
    } else {
        let rest = fs_scope_statuses(es.drop_last(), sh, frag);
        let e = es.last();
        if ci_contains(shoot_name_of(sh, e.out), frag) {
            rest.push(e.gallery_status)
        } else {
            rest
        }
    }
}

/// The statuses of the family-competition edges in scope, a missing status
/// reading as "unknown".
pub open spec fn fc_scope_statuses(
    es: Seq<FamilyCompetitionView>,
    cs: Seq<CompetitionView>,
    frag: Seq<char>,
) -> Seq<Seq<char>>
    decreases es.len(),
{
    if es.len() == 0 {
        Seq::<Seq<char>>::empty()
    } else {
        let rest = fc_scope_statuses(es.drop_last(), cs, frag);
        let e = es.last();
        if ci_contains(competition_name_of(cs, e.out), frag) {
            rest.push(
                match e.gallery_status {
                    Some(st) => st,
                    None => "unknown"@,
                },
            )
        } else {
            rest
        }
    }
}

/// Total purchase cents over the family-shoot edges in scope that carry an
/// amount.
pub open spec fn fs_scope_revenue(
    es: Seq<FamilyShootView>,
    sh: Seq<ShootView>,
    frag: Seq<char>,
) -> int
    decreases es.len(),
{
    if es.len() == 0 {
        0
    } else {
        let rest = fs_scope_revenue(es.drop_last(), sh, frag);
        let e = es.last();
        if ci_contains(shoot_name_of(sh, e.out), frag) && e.purchase_amount is Some {
            rest + e.purchase_amount.unwrap()
        } else {
            rest
        }
    }
}

pub proof fn lemma_fs_scope_revenue_bounds(
    es: Seq<FamilyShootView>,
    sh: Seq<ShootView>,
    frag: Seq<char>,
)
    ensures
        es.len() * (i64::MIN as int) <= fs_scope_revenue(es, sh, frag) <= es.len() * (
        i64::MAX as int),
    decreases es.len(),
{
    if es.len() > 0 {
        lemma_fs_scope_revenue_bounds(es.drop_last(), sh, frag);
        assert(es.len() * (i64::MIN as int) == (es.len() - 1) * (i64::MIN as int) + (
        i64::MIN as int)) by (nonlinear_arith);
        assert(es.len() * (i64::MAX as int) == (es.len() - 1) * (i64::MAX as int) + (
        i64::MAX as int)) by (nonlinear_arith);
    }
}

/// Occurrences of one status among the scoped statuses.
pub open spec fn count_eq(ss: Seq<Seq<char>>, st: Seq<char>) -> int
    decreases ss.len(),
{
    if ss.len() == 0 {
        0
    } else {
        count_eq(ss.drop_last(), st) + if ss.last() == st {
            1int
        } else {
            0int
        }
    }
}

/// What a correct breakdown of `ss` looks like: one bucket per status seen,
/// in strictly ascending status order, carrying its exact count.
pub open spec fn buckets_describe(bs: Seq<StatusBucket>, ss: Seq<Seq<char>>) -> bool {
    &&& forall|b: int|
        0 <= b < bs.len() ==> (#[trigger] bs[b]).count == count_eq(ss, bs[b].status@)
            && bs[b].count > 0
    &&& forall|i: int, j: int|
        0 <= i < j < bs.len() ==> lex_lt((#[trigger] bs[i]).status@, (#[trigger] bs[j]).status@)
    &&& forall|k: int|
        0 <= k < ss.len() ==> exists|b: int|
            0 <= b < bs.len() && (#[trigger] bs[b]).status@ == #[trigger] ss[k]
}

/// Whether a bucket's status comes strictly before `s` in the order.
fn bucket_before(b: &StatusBucket, s: &str) -> (r: bool)
    ensures
        r == (lex_le(b.status@, s@) && b.status@ != s@),
{
    let bv = to_chars(b.status.as_str());
    let sv = to_chars(s);
    chars_le(&bv, &sv) && !str_eq(b.status.as_str(), s)
}

/// Groups the statuses into the breakdown buckets.
pub fn tally(statuses: &Vec<String>) -> (r: Vec<StatusBucket>)
    ensures
        buckets_describe(r@, statuses.deep_view()),
{
    let mut out: Vec<StatusBucket> = Vec::new();
    let mut i: usize = 0;
    proof {
        assert(statuses.deep_view().take(0) =~= Seq::<Seq<char>>::empty());
    }
    while i < statuses.len()
        invariant
            i <= statuses@.len(),
            buckets_describe(out@, statuses.deep_view().take(i as int)),
            forall|b: int| 0 <= b < out@.len() ==> (#[trigger] out@[b]).count <= i,
        decreases statuses@.len() - i,
    {
        let ghost pre = out@;
        let ghost ssp = statuses.deep_view().take(i as int);
        let ghost ssn = statuses.deep_view().take(i + 1 as int);
        let ghost sv = statuses.deep_view()[i as int];
        proof {
            assert(ssn.drop_last() =~= ssp);
            assert(ssn.last() == sv);
            assert(sv == statuses@[i as int]@);
            assert forall|st: Seq<char>| #[trigger] count_eq(ssn, st) == count_eq(ssp, st) + (
            if st == sv {
                1int
            } else {
                0int
            }) by {}
        }
        let s = &statuses[i];
        let mut p: usize = 0;
        while p < out.len() && bucket_before(&out[p], s.as_str())
            invariant
                p <= out@.len(),
                i < statuses@.len(),
                s@ == sv,
                forall|b: int| 0 <= b < p ==> lex_lt((#[trigger] out@[b]).status@, sv),
                out@ == pre,
            decreases out@.len() - p,
        {
            p = p + 1;
        }
        if p < out.len() && str_eq(out[p].status.as_str(), s.as_str()) {
            // the status has a bucket: count one more
            let cur = out[p].count;
            let st = out[p].status.clone();
            out.set(p, StatusBucket { status: st, count: cur + 1 });
            proof {
                assert forall|b: int| 0 <= b < out@.len() implies (#[trigger] out@[b]).count
                    == count_eq(ssn, out@[b].status@) && out@[b].count > 0 by {
                    if b != p {
                        assert(out@[b] == pre[b]);
                        assert(out@[b].status@ != sv) by {
                            if b < p {
                                assert(lex_lt(pre[b].status@, pre[p as int].status@));
                            } else {
                                assert(lex_lt(pre[p as int].status@, pre[b].status@));
                            }
                        }
                    }
                }
                assert forall|k: int| 0 <= k < ssn.len() implies exists|b: int|
                    0 <= b < out@.len() && (#[trigger] out@[b]).status@ == #[trigger] ssn[k] by {
                    if k < i {
                        let b0 = choose|b0: int|
                            0 <= b0 < pre.len() && (#[trigger] pre[b0]).status@ == ssp[k];
                        if b0 == p {
                            assert(out@[p as int].status@ == ssn[k]);
                        } else {
                            assert(out@[b0].status@ == ssn[k]);
                        }
                    } else {
                        assert(out@[p as int].status@ == ssn[k]);
                    }
                }
            }
        } else {
            // a new status: open a bucket at its place in the order
            proof {
                if p < out@.len() {
                    crate::text::lemma_lex_le_connected(pre[p as int].status@, sv);
                    crate::text::lemma_lex_le_refl(sv);
                }
                crate::text::lemma_lex_le_refl(sv);
                assert forall|b: int| p <= b < out@.len() implies lex_lt(
                    sv,
                    (#[trigger] out@[b]).status@,
                ) by {
                    assert(!(lex_le(pre[p as int].status@, sv) && pre[p as int].status@ != sv));
                    if !lex_le(pre[p as int].status@, sv) {
                        crate::text::lemma_lex_le_connected(pre[p as int].status@, sv);
                    }
                    if b > p {
                        crate::text::lemma_lex_le_trans(
                            sv,
                            pre[p as int].status@,
                            pre[b].status@,
                        );
                    }
                }
                assert forall|k: int| 0 <= k < ssp.len() implies #[trigger] ssp[k] != sv by {
                    let b0 = choose|b0: int|
                        0 <= b0 < pre.len() && (#[trigger] pre[b0]).status@ == ssp[k];
                    if b0 < p as int {
                        assert(lex_lt(pre[b0].status@, sv));
                    } else {
                        assert(lex_lt(sv, pre[b0].status@));
                    }
                }
                lemma_count_eq_zero(ssp, sv);
            }
            let ghost pv = p as int;
            out.insert(p, StatusBucket { status: s.clone(), count: 1 });
            proof {
                pre.insert_ensures(pv, StatusBucket { status: out@[pv].status, count: 1 });
                assert(out@ =~= pre.insert(pv, out@[pv]));
                assert(out@[pv].status@ == sv);
                assert forall|k: int| 0 <= k < ssn.len() implies exists|b: int|
                    0 <= b < out@.len() && (#[trigger] out@[b]).status@ == #[trigger] ssn[k] by {
                    if k < i {
                        let b0 = choose|b0: int|
                            0 <= b0 < pre.len() && (#[trigger] pre[b0]).status@ == ssp[k];
                        if b0 < pv {
                            assert(out@[b0].status@ == ssn[k]);
                        } else {
                            assert(out@[b0 + 1].status@ == ssn[k]);
                        }
                    } else {
                        assert(out@[pv].status@ == ssn[k]);
                    }
                }
                assert forall|b: int| 0 <= b < out@.len() implies (#[trigger] out@[b]).count
                    == count_eq(ssn, out@[b].status@) && out@[b].count > 0 by {
                    if b < pv {
                        assert(out@[b] == pre[b]);
                        assert(out@[b].status@ != sv);
                    } else if b == pv {
                    } else {
                        assert(out@[b] == pre[b - 1]);
                        assert(out@[b].status@ != sv);
                    }
                }
                assert forall|a: int, b: int| 0 <= a < b < out@.len() implies lex_lt(
                    (#[trigger] out@[a]).status@,
                    (#[trigger] out@[b]).status@,
                ) by {
                    if a < pv && b == pv {
                        assert(out@[a] == pre[a]);
                    } else if a == pv && b > pv {
                        assert(out@[b] == pre[b - 1]);
                    } else if a < pv && b > pv {
                        assert(out@[a] == pre[a]);
                        assert(out@[b] == pre[b - 1]);
                        if a == b - 1 {
                            assert(lex_lt(pre[a].status@, sv));
                            assert(lex_lt(sv, pre[b - 1].status@));
                            crate::text::lemma_lex_le_trans(
                                pre[a].status@,
                                sv,
                                pre[b - 1].status@,
                            );
                        }
                    } else if a > pv {
                        assert(out@[a] == pre[a - 1]);
                        assert(out@[b] == pre[b - 1]);
                    } else if b < pv {
                        assert(out@[a] == pre[a]);
                        assert(out@[b] == pre[b]);
                    }
                }
            }
        }
        i = i + 1;
    }
    proof {
        assert(statuses.deep_view().take(statuses@.len() as int) =~= statuses.deep_view());
    }
    out
}

/// Collects the statuses of the family-shoot edges in scope.
pub fn collect_fs_statuses(es: &Vec<FamilyShoot>, sh: &Vec<Shoot>, frag: &str) -> (r: Vec<String>)
    ensures
        r.deep_view() == fs_scope_statuses(es.deep_view(), sh.deep_view(), frag@),
{
    let mut out: Vec<String> = Vec::new();
    let mut i: usize = 0;
    proof {
        assert(es.deep_view().take(0) =~= Seq::<FamilyShootView>::empty());
        assert(out.deep_view() =~= fs_scope_statuses(
            es.deep_view().take(0),
            sh.deep_view(),
            frag@,
        ));
    }
    while i < es.len()
        invariant
            i <= es@.len(),
            out.deep_view() == fs_scope_statuses(
                es.deep_view().take(i as int),
                sh.deep_view(),
                frag@,
            ),
        decreases es@.len() - i,
    {
        let ghost pre = out.deep_view();
        proof {
            assert(es.deep_view().take(i + 1 as int).drop_last() =~= es.deep_view().take(i as int));
            assert(es.deep_view().take(i + 1 as int).last() == es.deep_view()[i as int]);
            assert(es.deep_view()[i as int] == es@[i as int]@);
            reveal_strlit("");
        }
        let e = &es[i];
        let name_matches = match crate::store::find_shoot_by_id(sh, e.out.as_str()) {
            Some(si) => {
                proof {
                    crate::seqtools::lemma_first_where_props(
                        sh.deep_view(),
                        |s: ShootView| s.id == e.out@,
                    );
                    assert(sh.deep_view()[si as int] == sh@[si as int]@);
                }
                ci_contains_exec(sh[si].name.as_str(), frag)
            },
            None => {
                proof {
                    assert(shoot_name_of(sh.deep_view(), e.out@) =~= ""@);
                }
                ci_contains_exec("", frag)
            },
        };
        if name_matches {
            out.push(e.gallery_status.clone());
            proof {
                assert(out.deep_view() =~= pre.push(es.deep_view()[i as int].gallery_status));
            }
        }
        i = i + 1;
    }
    proof {
        assert(es.deep_view().take(es@.len() as int) =~= es.deep_view());
    }
    out
}

/// Collects the statuses of the family-competition edges in scope, a
/// missing status reading as "unknown".
pub fn collect_fc_statuses(
    es: &Vec<FamilyCompetition>,
    cs: &Vec<CompetitionRec>,
    frag: &str,
) -> (r: Vec<String>)
    ensures
        r.deep_view() == fc_scope_statuses(es.deep_view(), cs.deep_view(), frag@),
{
    let mut out: Vec<String> = Vec::new();
    let mut i: usize = 0;
    proof {
        assert(es.deep_view().take(0) =~= Seq::<FamilyCompetitionView>::empty());
        assert(out.deep_view() =~= fc_scope_statuses(
            es.deep_view().take(0),
            cs.deep_view(),
            frag@,
        ));
    }
    while i < es.len()
        invariant
            i <= es@.len(),
            out.deep_view() == fc_scope_statuses(
                es.deep_view().take(i as int),
                cs.deep_view(),
                frag@,
            ),
        decreases es@.len() - i,
    {
        let ghost pre = out.deep_view();
        proof {
            assert(es.deep_view().take(i + 1 as int).drop_last() =~= es.deep_view().take(i as int));
            assert(es.deep_view().take(i + 1 as int).last() == es.deep_view()[i as int]);
            assert(es.deep_view()[i as int] == es@[i as int]@);
            reveal_strlit("");
        }
        let e = &es[i];
        let name_matches = match crate::listings::find_competition_by_id(cs, e.out.as_str()) {
            Some(ci) => {
                proof {
                    crate::seqtools::lemma_first_where_props(
                        cs.deep_view(),
                        |c: CompetitionView| c.id == e.out@,
                    );
                    assert(cs.deep_view()[ci as int] == cs@[ci as int]@);
                }
                ci_contains_exec(cs[ci].name.as_str(), frag)
            },
            None => {
                proof {
                    assert(competition_name_of(cs.deep_view(), e.out@) =~= ""@);
                }
                ci_contains_exec("", frag)
            },
        };
        if name_matches {
            let st = match &e.gallery_status {
                Some(st) => st.clone(),
                None => String::from_str("unknown"),
            };
            out.push(st);
            proof {
                assert(out.deep_view() =~= pre.push(
                    match es.deep_view()[i as int].gallery_status {
                        Some(x) => x,
                        None => "unknown"@,
                    },
                ));
            }
        }
        i = i + 1;
    }
    proof {
        assert(es.deep_view().take(es@.len() as int) =~= es.deep_view());
    }
    out
}

/// Sums the recorded purchases over the family-shoot edges in scope.
pub fn sum_fs_revenue(es: &Vec<FamilyShoot>, sh: &Vec<Shoot>, frag: &str) -> (r: i128)
    ensures
        r as int == fs_scope_revenue(es.deep_view(), sh.deep_view(), frag@),
{
    let mut acc: i128 = 0;
    let mut i: usize = 0;
    proof {
        assert(es.deep_view().take(0) =~= Seq::<FamilyShootView>::empty());
    }
    while i < es.len()
        invariant
            i <= es@.len(),
            acc as int == fs_scope_revenue(
                es.deep_view().take(i as int),
                sh.deep_view(),
                frag@,
            ),
        decreases es@.len() - i,
    {
        proof {
            assert(es.deep_view().take(i + 1 as int).drop_last() =~= es.deep_view().take(i as int));
            assert(es.deep_view().take(i + 1 as int).last() == es.deep_view()[i as int]);
            assert(es.deep_view()[i as int] == es@[i as int]@);
            reveal_strlit("");
        }
        let e = &es[i];
        let name_matches = match crate::store::find_shoot_by_id(sh, e.out.as_str()) {
            Some(si) => {
                proof {
                    crate::seqtools::lemma_first_where_props(
                        sh.deep_view(),
                        |s: ShootView| s.id == e.out@,
                    );
                    assert(sh.deep_view()[si as int] == sh@[si as int]@);
                }
                ci_contains_exec(sh[si].name.as_str(), frag)
            },
            None => {
                proof {
                    assert(shoot_name_of(sh.deep_view(), e.out@) =~= ""@);
                }
                ci_contains_exec("", frag)
            },
        };
        if name_matches {
            match e.purchase_amount {
                Some(amt) => {
                    proof {
                        lemma_fs_scope_revenue_bounds(
                            es.deep_view().take(i as int),
                            sh.deep_view(),
                            frag@,
                        );
                        assert((i as int) * (i64::MIN as int) >= (0x10000000000000000int) * (
                        i64::MIN as int)) by (nonlinear_arith)
                            requires
                                0 <= i as int <= 0x10000000000000000int,
                        ;
                        assert((i as int) * (i64::MAX as int) <= (0x10000000000000000int) * (
                        i64::MAX as int)) by (nonlinear_arith)
                            requires
                                0 <= i as int <= 0x10000000000000000int,
                        ;
                    }
                    acc = acc + amt as i128;
                },
                None => {},
            }
        }
        i = i + 1;
    }
    proof {
        assert(es.deep_view().take(es@.len() as int) =~= es.deep_view());
    }
    acc
}

/// A status that never occurs is never counted.
proof fn lemma_count_eq_zero(ss: Seq<Seq<char>>, st: Seq<char>)
    requires
        forall|k: int| 0 <= k < ss.len() ==> #[trigger] ss[k] != st,
    ensures
        count_eq(ss, st) == 0,
    decreases ss.len(),
{
    if ss.len() > 0 {
        assert(forall|k: int| 0 <= k < ss.len() - 1 ==> #[trigger] ss.drop_last()[k] == ss[k]);
        lemma_count_eq_zero(ss.drop_last(), st);
        assert(ss.last() == ss[ss.len() - 1]);
    }
}

} // verus!
