use vstd::prelude::*;
use vstd::pervasive::VecAdditionalExecFns;
use vstd::string::StringExecFns;
use crate::args::{arg_str, ArgValue, Args};
use crate::config::Config;
use crate::models::{
    clone_opt_string, BelongsRec, BelongsView, FamilyCompetition, FamilyCompetitionView,
    FamilyRec, FamilyShoot, FamilyShootView, FamilyView, SkaterRec, SkaterView, Shoot, ShootView,
};
use crate::responses::{
    ContactResponse, CreateFamilyResponse, CreateShootResponse, FamilyListRow, FamilySummary,
    FindSkaterResponse, GetFamilyResponse, GetShootResponse, HealthResponse, LinkResponse,
    ListFamiliesResponse, ListShootsResponse, MarkSentResponse, PendingListResponse,
    RecordPurchaseResponse, ShootOut, SkaterOut, StatusResponse, ToolError,
};
use crate::responses::{CompetitionStatusResponse, ShootStatusResponse};
use crate::stats::{
    buckets_describe, collect_fc_statuses, collect_fs_statuses, fc_scope_statuses,
    fs_scope_revenue, fs_scope_statuses, sum_fs_revenue, tally,
};
use crate::listings::{
    capped, collect_pending_fc, collect_pending_fs, families_sorted,
    filter_families, filter_skaters, matching_families, matching_skaters, pending_fc_rows,
    pending_fs_rows, pending_sorted, shoots_sorted, sort_family_recs, sort_pending_rows,
    sort_shoot_recs, sort_skater_recs, skaters_sorted,
};
use crate::store::{
    family_index, fc_edge_index, find_competition_match, find_family, find_fc_edge, find_fs_edge,
    find_shoot_match, find_skater_by_id, fs_edge_index, competition_match_index, skater_index,
    shoot_match_index, Store,
};
use crate::text::{
    concat2, concat3, concat4, concat5, concat6, dec_str, family_id, family_id_spec, format_cents,
    money_str, str_eq, u64_to_string,
};

verus! {

/// The tool server: the domain state it operates on and the configuration
/// surface it reports.
pub struct PhotoMindServer {
    pub db: Store,
    pub cfg: Config,
}

// ---------------------------------------------------------------------------
// The messages that responses carry, pinned character for character.
// ---------------------------------------------------------------------------
pub open spec fn missing_param_spec(name: Seq<char>) -> Seq<char> {
    "Missing required parameter: "@ + name
}

pub fn missing_param(name: &str) -> (r: String)
    ensures
        r@ == missing_param_spec(name@),
{
    concat2("Missing required parameter: ", name)
}

pub open spec fn no_family_msg_spec(ln: Seq<char>, fid: Seq<char>) -> Seq<char> {
    "No family found with last name: "@ + ln + " (ID: "@ + fid + ")"@
}

pub fn no_family_msg(ln: &str, fid: &str) -> (r: String)
    ensures
        r@ == no_family_msg_spec(ln@, fid@),
{
    concat5("No family found with last name: ", ln, " (ID: ", fid, ")")
}

/// The invalid-params failure for one missing argument.
pub open spec fn is_missing_param<T>(r: Result<T, ToolError>, name: Seq<char>) -> bool {
    r matches Err(ToolError::InvalidParams(m)) && m@ == missing_param_spec(name)
}

// ---------------------------------------------------------------------------
// View-level transitions of the family table.
// ---------------------------------------------------------------------------
/// The row a create writes under the deterministic id.
pub open spec fn family_created_view(
    ln: Seq<char>,
    email: Seq<char>,
    notes: Option<Seq<char>>,
    now: u64,
) -> FamilyView {
    FamilyView {
        id: family_id_spec(ln),
        name: Some("Family "@ + ln),
        first_name: Some("Family"@),
        last_name: Some(ln),
        delivery_email: Some(email),
        notes: notes,
        shootproof_gallery_id: None,
        shootproof_url: None,
        created_at: now,
    }
}

/// A duplicate-key create touches the delivery email and notes only.
pub open spec fn family_updated_view(
    f: FamilyView,
    email: Seq<char>,
    notes: Option<Seq<char>>,
) -> FamilyView {
    FamilyView { delivery_email: Some(email), notes: notes, ..f }
}

/// The family table after an idempotent create.
pub open spec fn upsert_family_views(
    fams: Seq<FamilyView>,
    ln: Seq<char>,
    email: Seq<char>,
    notes: Option<Seq<char>>,
    now: u64,
) -> Seq<FamilyView> {
    let i = family_index(fams, family_id_spec(ln));
    if i == -1 {
        fams.push(family_created_view(ln, email, notes, now))
    } else {
        fams.update(i, family_updated_view(fams[i], email, notes))
    }
}

/// The shoot row a create writes: the given date, or the creation instant
/// rendered by the abstract clock.
pub open spec fn shoot_created_view(
    name: Seq<char>,
    shoot_type: Seq<char>,
    date: Option<Seq<char>>,
    location: Option<Seq<char>>,
    notes: Option<Seq<char>>,
    sid: Seq<char>,
    now: u64,
) -> ShootView {
    ShootView {
        id: sid,
        name: name,
        shoot_type: shoot_type,
        shoot_date: Some(
            match date {
                Some(d) => d,
                None => dec_str(now as int),
            },
        ),
        location: location,
        notes: notes,
    }
}

// ---------------------------------------------------------------------------
// What each operation promises, one named predicate per tool; the
// dispatcher's contract points at these, arm by arm.
// ---------------------------------------------------------------------------
/// Everything `handle_health` promises of its result.
pub open spec fn health_post(
    srv: PhotoMindServer,
    db_ok: bool,
    r: HealthResponse,
) -> bool {
    &&& (r.db == db_ok)
    &&& (r.namespace@ == srv.cfg.db_namespace@)
    &&& (r.database@ == srv.cfg.db_name@)
}

/// Everything `handle_status` promises of its result.
pub open spec fn status_post(
    srv: PhotoMindServer,
    r: StatusResponse,
) -> bool {
    &&& (r.family == srv.db.families@.len())
    &&& (r.skater == srv.db.skaters@.len())
    &&& (r.competition == srv.db.competitions@.len())
    &&& (r.event == srv.db.event_count)
    &&& (r.family_competition == srv.db.family_competitions@.len())
    &&& (r.shoot == srv.db.shoots@.len())
    &&& (r.family_shoot == srv.db.family_shoots@.len())
}

/// Everything `handle_create_family` promises of its result and the state change.
pub open spec fn create_family_post(
    pre: PhotoMindServer,
    post: PhotoMindServer,
    req: Seq<(String, ArgValue)>,
    r: Result<CreateFamilyResponse, ToolError>,
) -> bool {
    ({
                let ln = arg_str(req, "last_name"@);
                let em = arg_str(req, "delivery_email"@);
                if ln is None {
                    is_missing_param(r, "last_name"@) && post == pre
                } else if em is None {
                    is_missing_param(r, "delivery_email"@) && post == pre
                } else {
                    let lnv = ln.unwrap();
                    let emv = em.unwrap();
                    let notes = arg_str(req, "notes"@);
                    &&& post.db.families.deep_view() == upsert_family_views(
                        pre.db.families.deep_view(),
                        lnv,
                        emv,
                        notes,
                        pre.db.clock,
                    )
                    &&& post.db == (Store {
                        families: post.db.families,
                        clock: post.db.clock,
                        ..pre.db
                    })
                    &&& post.db.clock == pre.db.clock + 1
                    &&& (r matches Ok(resp) && {
                        &&& resp.family_id@ == family_id_spec(lnv)
                        &&& resp.name@ == "Family "@ + lnv
                        &&& resp.last_name@ == lnv
                        &&& resp.email@ == emv
                    })
                }
            })
}

/// Everything `handle_get_contact` promises of its result.
pub open spec fn get_contact_post(
    srv: PhotoMindServer,
    req: Seq<(String, ArgValue)>,
    r: Result<ContactResponse, ToolError>,
) -> bool {
    ({
                let ln = arg_str(req, "last_name"@);
                if ln is None {
                    is_missing_param(r, "last_name"@)
                } else {
                    let lnv = ln.unwrap();
                    let fid = family_id_spec(lnv);
                    let i = family_index(srv.db.families.deep_view(), fid);
                    if i == -1 {
                        r matches Ok(ContactResponse::NotFound { message }) && message@
                            == no_family_msg_spec(lnv, fid)
                    } else {
                        let f = srv.db.families.deep_view()[i];
                        r matches Ok(ContactResponse::Found { family_id, family, email }) && {
                            &&& family_id@ == f.id
                            &&& family@ == display_name_spec(f, lnv)
                            &&& email.deep_view() == f.delivery_email
                        }
                    }
                }
            })
}

/// Everything `handle_get_family` promises of its result.
pub open spec fn get_family_post(
    srv: PhotoMindServer,
    req: Seq<(String, ArgValue)>,
    r: Result<GetFamilyResponse, ToolError>,
) -> bool {
    ({
                let ln = arg_str(req, "last_name"@);
                if ln is None {
                    is_missing_param(r, "last_name"@)
                } else {
                    let lnv = ln.unwrap();
                    let fid = family_id_spec(lnv);
                    let i = family_index(srv.db.families.deep_view(), fid);
                    if i == -1 {
                        r matches Ok(GetFamilyResponse::NotFound { message }) && message@
                            == no_family_msg_spec(lnv, fid)
                    } else {
                        let f = srv.db.families.deep_view()[i];
                        let ms = members_of(
                            srv.db.belongs_to.deep_view(),
                            srv.db.skaters.deep_view(),
                            f.id,
                        );
                        r matches Ok(
                            GetFamilyResponse::Found { family, skaters, skater_count },
                        ) && {
                            &&& family.id@ == f.id
                            &&& family.name@ == display_name_spec(f, lnv)
                            &&& family.email.deep_view() == f.delivery_email
                            &&& skater_count == ms.len()
                            &&& skaters@.len() == ms.len()
                            &&& forall|k: int|
                                0 <= k < ms.len() ==> {
                                    &&& (#[trigger] skaters@[k]).id@ == ms[k].id
                                    &&& skaters@[k].first_name@ == ms[k].first_name
                                    &&& skaters@[k].last_name@ == ms[k].last_name
                                    &&& skaters@[k].name@ == ms[k].first_name + " "@
                                        + ms[k].last_name
                                }
                        }
                    }
                }
            })
}

/// Everything `handle_create_shoot` promises of its result and the state change.
pub open spec fn create_shoot_post(
    pre: PhotoMindServer,
    post: PhotoMindServer,
    req: Seq<(String, ArgValue)>,
    r: Result<CreateShootResponse, ToolError>,
) -> bool {
    ({
                let nm = arg_str(req, "name"@);
                let ty = arg_str(req, "shoot_type"@);
                if nm is None {
                    is_missing_param(r, "name"@) && post == pre
                } else if ty is None {
                    is_missing_param(r, "shoot_type"@) && post == pre
                } else {
                    let nmv = nm.unwrap();
                    let tyv = ty.unwrap();
                    let date = arg_str(req, "date"@);
                    let location = arg_str(req, "location"@);
                    let notes = arg_str(req, "notes"@);
                    let sid = "shoot:"@ + dec_str(pre.db.next_id as int);
                    &&& post.db.shoots.deep_view() == pre.db.shoots.deep_view().push(
                        shoot_created_view(
                            nmv,
                            tyv,
                            date,
                            location,
                            notes,
                            sid,
                            pre.db.clock,
                        ),
                    )
                    &&& post.db == (Store {
                        shoots: post.db.shoots,
                        clock: post.db.clock,
                        next_id: post.db.next_id,
                        ..pre.db
                    })
                    &&& post.db.clock == pre.db.clock + 1
                    &&& post.db.next_id == pre.db.next_id + 1
                    &&& (r matches Ok(resp) && resp.shoot_id@ == sid && resp.name@ == nmv
                        && resp.shoot_type@ == tyv)
                }
            })
}

/// Everything `handle_get_shoot` promises of its result.
pub open spec fn get_shoot_post(
    srv: PhotoMindServer,
    req: Seq<(String, ArgValue)>,
    r: Result<GetShootResponse, ToolError>,
) -> bool {
    ({
                let sn = arg_str(req, "shoot_name"@);
                if sn is None {
                    is_missing_param(r, "shoot_name"@)
                } else {
                    let snv = sn.unwrap();
                    let si = shoot_match_index(srv.db.shoots.deep_view(), snv);
                    if si == -1 {
                        r matches Ok(GetShootResponse::NotFound { message }) && message@
                            == no_shoot_msg_spec(snv)
                    } else {
                        let s = srv.db.shoots.deep_view()[si];
                        r matches Ok(GetShootResponse::Found { shoot, family_count }) && {
                            &&& shoot@ == s
                            &&& family_count == count_edges_to(
                                srv.db.family_shoots.deep_view(),
                                s.id,
                            )
                        }
                    }
                }
            })
}

/// Everything `handle_find_skater` promises of its result.
pub open spec fn find_skater_post(
    srv: PhotoMindServer,
    req: Seq<(String, ArgValue)>,
    r: Result<FindSkaterResponse, ToolError>,
) -> bool {
    ({
                let nm = arg_str(req, "name"@);
                if nm is None {
                    is_missing_param(r, "name"@)
                } else {
                    let ms = matching_skaters(srv.db.skaters.deep_view(), nm.unwrap());
                    if ms.len() == 0 {
                        r matches Ok(FindSkaterResponse::NotFound { message }) && message@
                            == "No skaters found matching: "@ + nm.unwrap()
                    } else {
                        r matches Ok(FindSkaterResponse::Found { count, skaters }) && {
                            &&& count == skaters@.len()
                            &&& exists|sorted: Seq<SkaterView>|
                                {
                                    &&& #[trigger] sorted.to_multiset() == ms.to_multiset()
                                    &&& skaters_sorted(sorted)
                                    &&& skater_rows_match(skaters@, capped(sorted, 50))
                                }
                        }
                    }
                }
            })
}

/// Everything `handle_list_families` promises of its result.
pub open spec fn list_families_post(
    srv: PhotoMindServer,
    req: Seq<(String, ArgValue)>,
    r: Result<ListFamiliesResponse, ToolError>,
) -> bool {
    ({
                let search = arg_str(req, "search"@);
                let mf = matching_families(srv.db.families.deep_view(), search);
                let cap: int = if search is Some {
                    50
                } else {
                    100
                };
                r matches Ok(resp) && {
                    &&& resp.search.deep_view() == search
                    &&& resp.count == resp.families@.len()
                    &&& exists|sorted: Seq<FamilyView>|
                        {
                            &&& #[trigger] sorted.to_multiset() == mf.to_multiset()
                            &&& families_sorted(sorted)
                            &&& family_rows_match(resp.families@, capped(sorted, cap))
                        }
                }
            })
}

/// Everything `handle_list_pending_shoot_galleries` promises of its result.
pub open spec fn list_pending_shoot_galleries_post(
    srv: PhotoMindServer,
    req: Seq<(String, ArgValue)>,
    r: Result<PendingListResponse, ToolError>,
) -> bool {
    ({
                let sn = arg_str(req, "shoot_name"@);
                if sn is None {
                    is_missing_param(r, "shoot_name"@)
                } else {
                    let rows = pending_fs_rows(
                        srv.db.family_shoots.deep_view(),
                        srv.db.shoots.deep_view(),
                        srv.db.families.deep_view(),
                        sn.unwrap(),
                    );
                    r matches Ok(resp) && {
                        &&& resp.subject@ == sn.unwrap()
                        &&& resp.pending_count == resp.families@.len()
                        &&& resp.families.deep_view().to_multiset() == rows.to_multiset()
                        &&& pending_sorted(resp.families.deep_view())
                    }
                }
            })
}

/// Everything `handle_list_pending_galleries` promises of its result.
pub open spec fn list_pending_galleries_post(
    srv: PhotoMindServer,
    req: Seq<(String, ArgValue)>,
    r: Result<PendingListResponse, ToolError>,
) -> bool {
    ({
                let cn = arg_str(req, "competition_name"@);
                if cn is None {
                    is_missing_param(r, "competition_name"@)
                } else {
                    let rows = pending_fc_rows(
                        srv.db.family_competitions.deep_view(),
                        srv.db.competitions.deep_view(),
                        srv.db.families.deep_view(),
                        cn.unwrap(),
                    );
                    r matches Ok(resp) && {
                        &&& resp.subject@ == cn.unwrap()
                        &&& resp.pending_count == resp.families@.len()
                        &&& resp.families.deep_view().to_multiset() == rows.to_multiset()
                        &&& pending_sorted(resp.families.deep_view())
                    }
                }
            })
}

/// Everything `handle_list_shoots` promises of its result.
pub open spec fn list_shoots_post(
    srv: PhotoMindServer,
    r: ListShootsResponse,
) -> bool {
    &&& (r.count == r.shoots@.len())
    &&& (exists|sorted: Seq<ShootView>|
                {
                    &&& #[trigger] sorted.to_multiset() == srv.db.shoots.deep_view().to_multiset()
                    &&& shoots_sorted(sorted)
                    &&& shoot_rows_match(r.shoots@, sorted)
                })
}

/// Everything `handle_competition_status` promises of its result.
pub open spec fn competition_status_post(
    srv: PhotoMindServer,
    req: Seq<(String, ArgValue)>,
    r: Result<CompetitionStatusResponse, ToolError>,
) -> bool {
    ({
                let cn = arg_str(req, "competition_name"@);
                if cn is None {
                    is_missing_param(r, "competition_name"@)
                } else {
                    let ss = fc_scope_statuses(
                        srv.db.family_competitions.deep_view(),
                        srv.db.competitions.deep_view(),
                        cn.unwrap(),
                    );
                    r matches Ok(resp) && {
                        &&& resp.competition@ == cn.unwrap()
                        &&& resp.total_families == ss.len()
                        &&& buckets_describe(resp.status_breakdown@, ss)
                    }
                }
            })
}

/// Everything `handle_shoot_status` promises of its result.
pub open spec fn shoot_status_post(
    srv: PhotoMindServer,
    req: Seq<(String, ArgValue)>,
    r: Result<ShootStatusResponse, ToolError>,
) -> bool {
    ({
                let sn = arg_str(req, "shoot_name"@);
                if sn is None {
                    is_missing_param(r, "shoot_name"@)
                } else {
                    let ss = fs_scope_statuses(
                        srv.db.family_shoots.deep_view(),
                        srv.db.shoots.deep_view(),
                        sn.unwrap(),
                    );
                    r matches Ok(resp) && {
                        &&& resp.shoot@ == sn.unwrap()
                        &&& resp.total_families == ss.len()
                        &&& buckets_describe(resp.status_breakdown@, ss)
                        &&& resp.total_revenue_cents as int == fs_scope_revenue(
                            srv.db.family_shoots.deep_view(),
                            srv.db.shoots.deep_view(),
                            sn.unwrap(),
                        )
                    }
                }
            })
}

/// Everything `handle_mark_shoot_sent` promises of its result and the state change.
pub open spec fn mark_shoot_sent_post(
    pre: PhotoMindServer,
    post: PhotoMindServer,
    req: Seq<(String, ArgValue)>,
    r: Result<MarkSentResponse, ToolError>,
) -> bool {
    ({
                let ln = arg_str(req, "last_name"@);
                let sn = arg_str(req, "shoot_name"@);
                if ln is None {
                    is_missing_param(r, "last_name"@) && post == pre
                } else if sn is None {
                    is_missing_param(r, "shoot_name"@) && post == pre
                } else {
                    let lnv = ln.unwrap();
                    let snv = sn.unwrap();
                    let fid = family_id_spec(lnv);
                    let fi = family_index(pre.db.families.deep_view(), fid);
                    let si = shoot_match_index(pre.db.shoots.deep_view(), snv);
                    if fi == -1 {
                        post == pre && (r matches Ok(
                            MarkSentResponse::NoFamily { message },
                        ) && message@ == no_family_msg_spec(lnv, fid))
                    } else if si == -1 {
                        post == pre && (r matches Ok(
                            MarkSentResponse::NoTarget { message },
                        ) && message@ == no_shoot_msg_spec(snv))
                    } else {
                        let tid = pre.db.shoots.deep_view()[si].id;
                        let ei = fs_edge_index(pre.db.family_shoots.deep_view(), fid, tid);
                        if ei == -1 {
                            post == pre && (r matches Ok(
                                MarkSentResponse::NoEdge { message, family_id, target_id },
                            ) && message@ == no_fs_edge_msg_spec(lnv, snv) && family_id@ == fid
                                && target_id@ == tid)
                        } else {
                            &&& post.db.family_shoots.deep_view() == mark_fs_views(
                                pre.db.family_shoots.deep_view(),
                                fid,
                                tid,
                                pre.db.clock,
                            )
                            &&& post.db == (Store {
                                family_shoots: post.db.family_shoots,
                                clock: post.db.clock,
                                ..pre.db
                            })
                            &&& post.db.clock == pre.db.clock + 1
                            &&& (r matches Ok(
                                MarkSentResponse::Sent { message, family_id, target_id },
                            ) && message@ == marked_shoot_msg_spec(lnv, snv) && family_id@ == fid
                                && target_id@ == tid)
                        }
                    }
                }
            })
}

/// Everything `handle_mark_gallery_sent` promises of its result and the state change.
pub open spec fn mark_gallery_sent_post(
    pre: PhotoMindServer,
    post: PhotoMindServer,
    req: Seq<(String, ArgValue)>,
    r: Result<MarkSentResponse, ToolError>,
) -> bool {
    ({
                let ln = arg_str(req, "last_name"@);
                let cn = arg_str(req, "competition_name"@);
                if ln is None {
                    is_missing_param(r, "last_name"@) && post == pre
                } else if cn is None {
                    is_missing_param(r, "competition_name"@) && post == pre
                } else {
                    let lnv = ln.unwrap();
                    let cnv = cn.unwrap();
                    let fid = family_id_spec(lnv);
                    let fi = family_index(pre.db.families.deep_view(), fid);
                    let ci = competition_match_index(pre.db.competitions.deep_view(), cnv);
                    if fi == -1 {
                        post == pre && (r matches Ok(
                            MarkSentResponse::NoFamily { message },
                        ) && message@ == no_family_msg_spec(lnv, fid))
                    } else if ci == -1 {
                        post == pre && (r matches Ok(
                            MarkSentResponse::NoTarget { message },
                        ) && message@ == no_comp_msg_spec(cnv))
                    } else {
                        let tid = pre.db.competitions.deep_view()[ci].id;
                        let ei = fc_edge_index(
                            pre.db.family_competitions.deep_view(),
                            fid,
                            tid,
                        );
                        if ei == -1 {
                            post == pre && (r matches Ok(
                                MarkSentResponse::NoEdge { message, family_id, target_id },
                            ) && message@ == no_fc_edge_msg_spec(lnv, cnv) && family_id@ == fid
                                && target_id@ == tid)
                        } else {
                            &&& post.db.family_competitions.deep_view() == mark_fc_views(
                                pre.db.family_competitions.deep_view(),
                                fid,
                                tid,
                                pre.db.clock,
                            )
                            &&& post.db == (Store {
                                family_competitions: post.db.family_competitions,
                                clock: post.db.clock,
                                ..pre.db
                            })
                            &&& post.db.clock == pre.db.clock + 1
                            &&& (r matches Ok(
                                MarkSentResponse::Sent { message, family_id, target_id },
                            ) && message@ == marked_gallery_msg_spec(lnv, cnv) && family_id@ == fid
                                && target_id@ == tid)
                        }
                    }
                }
            })
}

/// Everything `handle_link_family_shoot` promises of its result and the state change.
pub open spec fn link_family_shoot_post(
    pre: PhotoMindServer,
    post: PhotoMindServer,
    req: Seq<(String, ArgValue)>,
    r: Result<LinkResponse, ToolError>,
) -> bool {
    ({
                let ln = arg_str(req, "last_name"@);
                let sn = arg_str(req, "shoot_name"@);
                if ln is None {
                    is_missing_param(r, "last_name"@) && post == pre
                } else if sn is None {
                    is_missing_param(r, "shoot_name"@) && post == pre
                } else {
                    let lnv = ln.unwrap();
                    let snv = sn.unwrap();
                    let fid = family_id_spec(lnv);
                    let fi = family_index(pre.db.families.deep_view(), fid);
                    let si = shoot_match_index(pre.db.shoots.deep_view(), snv);
                    if fi == -1 {
                        post == pre && (r matches Ok(
                            LinkResponse::NoFamily { message },
                        ) && message@ == no_family_msg_spec(lnv, fid))
                    } else if si == -1 {
                        post == pre && (r matches Ok(
                            LinkResponse::NoShoot { message },
                        ) && message@ == no_shoot_msg_spec(snv))
                    } else {
                        let tid = pre.db.shoots.deep_view()[si].id;
                        let ei = fs_edge_index(pre.db.family_shoots.deep_view(), fid, tid);
                        if ei != -1 {
                            post == pre && (r matches Ok(
                                LinkResponse::AlreadyLinked {
                                    message,
                                    family_id,
                                    shoot_id,
                                    existing_edge_id,
                                },
                            ) && message@ == already_linked_msg_spec(lnv, snv) && family_id@ == fid
                                && shoot_id@ == tid && existing_edge_id@ == pre.db.family_shoots.deep_view()[ei].id)
                        } else {
                            &&& post.db.family_shoots.deep_view() == pre.db.family_shoots.deep_view().push(
                                fs_edge_created(
                                    "family_shoot:"@ + dec_str(pre.db.next_id as int),
                                    fid,
                                    tid,
                                    pre.db.clock,
                                ),
                            )
                            &&& post.db == (Store {
                                family_shoots: post.db.family_shoots,
                                clock: post.db.clock,
                                next_id: post.db.next_id,
                                ..pre.db
                            })
                            &&& post.db.clock == pre.db.clock + 1
                            &&& post.db.next_id == pre.db.next_id + 1
                            &&& (r matches Ok(
                                LinkResponse::Linked { message, family_id, shoot_id },
                            ) && message@ == linked_msg_spec(lnv, snv) && family_id@ == fid
                                && shoot_id@ == tid)
                        }
                    }
                }
            })
}

/// Everything `handle_record_purchase` promises of its result and the state change.
pub open spec fn record_purchase_post(
    pre: PhotoMindServer,
    post: PhotoMindServer,
    req: Seq<(String, ArgValue)>,
    r: Result<RecordPurchaseResponse, ToolError>,
) -> bool {
    ({
                let ln = arg_str(req, "last_name"@);
                let sn = arg_str(req, "shoot_name"@);
                let am = crate::args::arg_cents(req, "amount"@);
                if ln is None {
                    is_missing_param(r, "last_name"@) && post == pre
                } else if sn is None {
                    is_missing_param(r, "shoot_name"@) && post == pre
                } else if am is None {
                    is_missing_param(r, "amount"@) && post == pre
                } else {
                    let lnv = ln.unwrap();
                    let snv = sn.unwrap();
                    let amv = am.unwrap();
                    let fid = family_id_spec(lnv);
                    let fi = family_index(pre.db.families.deep_view(), fid);
                    let si = shoot_match_index(pre.db.shoots.deep_view(), snv);
                    if fi == -1 {
                        post == pre && (r matches Ok(
                            RecordPurchaseResponse::NoFamily { message },
                        ) && message@ == no_family_msg_spec(lnv, fid))
                    } else if si == -1 {
                        post == pre && (r matches Ok(
                            RecordPurchaseResponse::NoShoot { message },
                        ) && message@ == no_shoot_msg_spec(snv))
                    } else {
                        let tid = pre.db.shoots.deep_view()[si].id;
                        &&& post.db.family_shoots.deep_view() == purchase_fs_views(
                            pre.db.family_shoots.deep_view(),
                            fid,
                            tid,
                            amv,
                            pre.db.clock,
                        )
                        &&& post.db == (Store {
                            family_shoots: post.db.family_shoots,
                            clock: post.db.clock,
                            ..pre.db
                        })
                        &&& post.db.clock == pre.db.clock + 1
                        &&& (r matches Ok(RecordPurchaseResponse::Recorded { message }) && message@
                            == recorded_msg_spec(amv, lnv, snv))
                    }
                }
            })
}

impl PhotoMindServer {
    pub fn new(cfg: Config, db: Store) -> (r: Self)
        ensures
            r.cfg == cfg,
            r.db == db,
    {
        PhotoMindServer { db, cfg }
    }

    /// The liveness report: database connectivity as probed by the caller,
    /// plus the configured namespace and database names.
    pub fn handle_health(&self, db_ok: bool) -> (r: HealthResponse)
        ensures
            health_post(*self, db_ok, r),
    {
        HealthResponse {
            db: db_ok,
            namespace: self.cfg.db_namespace.clone(),
            database: self.cfg.db_name.clone(),
        }
    }

    /// Counts the seven key tables.
    pub fn handle_status(&self) -> (r: StatusResponse)
        ensures
            status_post(*self, r),
    {
        StatusResponse {
            family: self.db.families.len() as u64,
            skater: self.db.skaters.len() as u64,
            competition: self.db.competitions.len() as u64,
            event: self.db.event_count,
            family_competition: self.db.family_competitions.len() as u64,
            shoot: self.db.shoots.len() as u64,
            family_shoot: self.db.family_shoots.len() as u64,
        }
    }

    /// Creates a family, idempotently: the deterministic id addresses the
    /// row, and re-creating updates only the delivery email and notes.
    pub fn handle_create_family(&mut self, args: &Args) -> (r: Result<
        CreateFamilyResponse,
        ToolError,
    >)
        requires
            old(self).db.wf(),
            old(self).db.clock < u64::MAX,
        ensures
            final(self).db.wf(),
            final(self).cfg == old(self).cfg,
            create_family_post(*old(self), *final(self), args.entries@, r),
    {
        let ln = match args.get_str("last_name") {
            Some(s) => s.clone(),
            None => {
                return Err(ToolError::InvalidParams(missing_param("last_name")));
            },
        };
        let em = match args.get_str("delivery_email") {
            Some(s) => s.clone(),
            None => {
                return Err(ToolError::InvalidParams(missing_param("delivery_email")));
            },
        };
        let notes: Option<String> = match args.get_str("notes") {
            Some(s) => Some(s.clone()),
            None => None,
        };
        let fid = family_id(ln.as_str());
        let fam_name = concat2("Family ", ln.as_str());
        let now = self.db.clock;
        let ghost old_views = self.db.families.deep_view();
        match find_family(&self.db.families, fid.as_str()) {
            None => {
                proof {
                    crate::seqtools::lemma_first_where_props(
                        self.db.families.deep_view(),
                        |f: FamilyView| f.id == fid@,
                    );
                    assert forall|j: int| 0 <= j < self.db.families@.len() implies #[trigger] self
                        .db.families@[j].id@ != fid@ by {
                        assert(self.db.families.deep_view()[j] == self.db.families@[j]@);
                    }
                }
                let rec = FamilyRec {
                    id: fid.clone(),
                    name: Some(fam_name.clone()),
                    first_name: Some(String::from_str("Family")),
                    last_name: Some(ln.clone()),
                    delivery_email: Some(em.clone()),
                    notes: clone_opt_string(&notes),
                    shootproof_gallery_id: None,
                    shootproof_url: None,
                    created_at: now,
                };
                self.db.families.push(rec);
                self.db.clock = now + 1;
                proof {
                    assert(self.db.families.deep_view() =~= old_views.push(
                        family_created_view(ln@, em@, notes.deep_view(), now),
                    ));
                }
                Ok(CreateFamilyResponse { family_id: fid, name: fam_name, last_name: ln, email: em })
            },
            Some(i) => {
                proof {
                    crate::seqtools::lemma_first_where_props(
                        self.db.families.deep_view(),
                        |f: FamilyView| f.id == fid@,
                    );
                }
                let dup = self.db.families[i].duplicate();
                let updated = FamilyRec {
                    id: dup.id,
                    name: dup.name,
                    first_name: dup.first_name,
                    last_name: dup.last_name,
                    delivery_email: Some(em.clone()),
                    notes: clone_opt_string(&notes),
                    shootproof_gallery_id: dup.shootproof_gallery_id,
                    shootproof_url: dup.shootproof_url,
                    created_at: dup.created_at,
                };
                self.db.families.set(i, updated);
                self.db.clock = now + 1;
                proof {
                    assert(self.db.families.deep_view() =~= old_views.update(
                        i as int,
                        family_updated_view(old_views[i as int], em@, notes.deep_view()),
                    ));
                    assert forall|a: int, b: int|
                        #![trigger self.db.families@[a], self.db.families@[b]]
                        0 <= a < b < self.db.families@.len() implies self.db.families@[a].id@
                        != self.db.families@[b].id@ by {
                        assert(self.db.families@[a].id@ == old(self).db.families@[a].id@);
                        assert(self.db.families@[b].id@ == old(self).db.families@[b].id@);
                    }
                }
                Ok(CreateFamilyResponse { family_id: fid, name: fam_name, last_name: ln, email: em })
            },
        }
    }

    /// Looks a family's contact information up by last name, through the
    /// deterministic id.
    pub fn handle_get_contact(&self, args: &Args) -> (r: Result<ContactResponse, ToolError>)
        ensures
            get_contact_post(*self, args.entries@, r),
    {
        let ln = match args.get_str("last_name") {
            Some(s) => s.clone(),
            None => {
                return Err(ToolError::InvalidParams(missing_param("last_name")));
            },
        };
        let fid = family_id(ln.as_str());
        match find_family(&self.db.families, fid.as_str()) {
            None => Ok(ContactResponse::NotFound {
                message: no_family_msg(ln.as_str(), fid.as_str()),
            }),
            Some(i) => {
                proof {
                    crate::seqtools::lemma_first_where_props(
                        self.db.families.deep_view(),
                        |f: FamilyView| f.id == fid@,
                    );
                    assert(self.db.families.deep_view()[i as int] == self.db.families@[i as int]@);
                }
                let f = &self.db.families[i];
                let display = display_name(f, &ln);
                Ok(ContactResponse::Found {
                    family_id: f.id.clone(),
                    family: display,
                    email: clone_opt_string(&f.delivery_email),
                })
            },
        }
    }
    /// Looks a family up by last name and lists its skaters through the
    /// membership edges.
    pub fn handle_get_family(&self, args: &Args) -> (r: Result<GetFamilyResponse, ToolError>)
        ensures
            get_family_post(*self, args.entries@, r),
    {
        let ln = match args.get_str("last_name") {
            Some(s) => s.clone(),
            None => {
                return Err(ToolError::InvalidParams(missing_param("last_name")));
            },
        };
        let fid = family_id(ln.as_str());
        match find_family(&self.db.families, fid.as_str()) {
            None => Ok(GetFamilyResponse::NotFound {
                message: no_family_msg(ln.as_str(), fid.as_str()),
            }),
            Some(i) => {
                proof {
                    crate::seqtools::lemma_first_where_props(
                        self.db.families.deep_view(),
                        |f: FamilyView| f.id == fid@,
                    );
                    assert(self.db.families.deep_view()[i as int] == self.db.families@[i as int]@);
                }
                let f = &self.db.families[i];
                let display = display_name(f, &ln);
                let skaters = collect_members(&self.db.belongs_to, &self.db.skaters, f.id.as_str());
                let count = skaters.len();
                Ok(
                    GetFamilyResponse::Found {
                        family: FamilySummary {
                            id: f.id.clone(),
                            name: display,
                            email: clone_opt_string(&f.delivery_email),
                        },
                        skaters,
                        skater_count: count,
                    },
                )
            },
        }
    }

    /// Creates a shoot under a database-assigned id. The date argument, when
    /// given, becomes the shoot date; otherwise the creation instant does.
    pub fn handle_create_shoot(&mut self, args: &Args) -> (r: Result<CreateShootResponse, ToolError>)
        requires
            old(self).db.wf(),
            old(self).db.clock < u64::MAX,
            old(self).db.next_id < u64::MAX,
        ensures
            final(self).db.wf(),
            final(self).cfg == old(self).cfg,
            create_shoot_post(*old(self), *final(self), args.entries@, r),
    {
        let nm = match args.get_str("name") {
            Some(s) => s.clone(),
            None => {
                return Err(ToolError::InvalidParams(missing_param("name")));
            },
        };
        let ty = match args.get_str("shoot_type") {
            Some(s) => s.clone(),
            None => {
                return Err(ToolError::InvalidParams(missing_param("shoot_type")));
            },
        };
        let date: Option<String> = match args.get_str("date") {
            Some(s) => Some(s.clone()),
            None => None,
        };
        let location: Option<String> = match args.get_str("location") {
            Some(s) => Some(s.clone()),
            None => None,
        };
        let notes: Option<String> = match args.get_str("notes") {
            Some(s) => Some(s.clone()),
            None => None,
        };
        let now = self.db.clock;
        let serial = self.db.next_id;
        let sid = {
            let digits = u64_to_string(serial);
            concat2("shoot:", digits.as_str())
        };
        let shoot_date = match date {
            Some(d) => Some(d),
            None => Some(u64_to_string(now)),
        };
        let rec = Shoot {
            id: sid.clone(),
            name: nm.clone(),
            shoot_type: ty.clone(),
            shoot_date,
            location,
            notes,
        };
        let ghost old_shoots = self.db.shoots.deep_view();
        self.db.shoots.push(rec);
        self.db.clock = now + 1;
        self.db.next_id = serial + 1;
        proof {
            assert(self.db.shoots.deep_view() =~= old_shoots.push(
                shoot_created_view(
                    nm@,
                    ty@,
                    arg_str(args.entries@, "date"@),
                    arg_str(args.entries@, "location"@),
                    arg_str(args.entries@, "notes"@),
                    "shoot:"@ + dec_str(serial as int),
                    now,
                ),
            ));
        }
        Ok(CreateShootResponse { shoot_id: sid, name: nm, shoot_type: ty })
    }

    /// Shows one shoot — the first whose name matches — and how many
    /// families are linked to it.
    pub fn handle_get_shoot(&self, args: &Args) -> (r: Result<GetShootResponse, ToolError>)
        ensures
            get_shoot_post(*self, args.entries@, r),
    {
        let sn = match args.get_str("shoot_name") {
            Some(s) => s.clone(),
            None => {
                return Err(ToolError::InvalidParams(missing_param("shoot_name")));
            },
        };
        match find_shoot_match(&self.db.shoots, sn.as_str()) {
            None => Ok(GetShootResponse::NotFound {
                message: concat2("No shoot found matching: ", sn.as_str()),
            }),
            Some(si) => {
                proof {
                    crate::seqtools::lemma_first_where_props(
                        self.db.shoots.deep_view(),
                        |s: ShootView| crate::text::ci_contains(s.name, sn@),
                    );
                    assert(self.db.shoots.deep_view()[si as int] == self.db.shoots@[si as int]@);
                }
                let s = &self.db.shoots[si];
                let family_count = count_edges_to_exec(&self.db.family_shoots, s.id.as_str());
                Ok(GetShootResponse::Found { shoot: s.duplicate(), family_count })
            },
        }
    }

    /// Searches skaters by a case-insensitive fragment of either name.
    /// Matches come back ordered by last then first name, at most fifty.
    pub fn handle_find_skater(&self, args: &Args) -> (r: Result<FindSkaterResponse, ToolError>)
        ensures
            find_skater_post(*self, args.entries@, r),
    {
        let nm = match args.get_str("name") {
            Some(s) => s.clone(),
            None => {
                return Err(ToolError::InvalidParams(missing_param("name")));
            },
        };
        let found = filter_skaters(&self.db.skaters, nm.as_str());
        if found.len() == 0 {
            return Ok(
                FindSkaterResponse::NotFound {
                    message: concat2("No skaters found matching: ", nm.as_str()),
                },
            );
        }
        let mut sorted = sort_skater_recs(found);
        let ghost sorted_full = sorted.deep_view();
        sorted.truncate(50);
        proof {
            assert(sorted.deep_view() =~= capped(sorted_full, 50));
        }
        let mut rows: Vec<SkaterOut> = Vec::new();
        let mut i: usize = 0;
        while i < sorted.len()
            invariant
                i <= sorted@.len(),
                rows@.len() == i,
                forall|k: int|
                    0 <= k < i ==> {
                        &&& (#[trigger] rows@[k]).id@ == sorted.deep_view()[k].id
                        &&& rows@[k].first_name@ == sorted.deep_view()[k].first_name
                        &&& rows@[k].last_name@ == sorted.deep_view()[k].last_name
                        &&& rows@[k].name@ == sorted.deep_view()[k].first_name + " "@
                            + sorted.deep_view()[k].last_name
                    },
            decreases sorted@.len() - i,
        {
            proof {
                assert(sorted.deep_view()[i as int] == sorted@[i as int]@);
            }
            let s = &sorted[i];
            rows.push(
                SkaterOut {
                    id: s.id.clone(),
                    name: concat3(s.first_name.as_str(), " ", s.last_name.as_str()),
                    first_name: s.first_name.clone(),
                    last_name: s.last_name.clone(),
                },
            );
            i = i + 1;
        }
        let count = rows.len();
        proof {
            let ghost ms = matching_skaters(self.db.skaters.deep_view(), nm@);
            assert(skater_rows_match(rows@, capped(sorted_full, 50)));
            assert(sorted_full.to_multiset() == ms.to_multiset() && skaters_sorted(sorted_full)
                && skater_rows_match(rows@, capped(sorted_full, 50)));
        }
        Ok(FindSkaterResponse::Found { count, skaters: rows })
    }

    /// Lists families, optionally filtered by a search fragment; ordered by
    /// last name, capped at fifty with a search and a hundred without.
    pub fn handle_list_families(&self, args: &Args) -> (r: Result<ListFamiliesResponse, ToolError>)
        ensures
            list_families_post(*self, args.entries@, r),
    {
        let search: Option<String> = match args.get_str("search") {
            Some(s) => Some(s.clone()),
            None => None,
        };
        let cap: usize = match &search {
            Some(_) => 50,
            None => 100,
        };
        let found = filter_families(&self.db.families, &search);
        let mut sorted = sort_family_recs(found);
        let ghost sorted_full = sorted.deep_view();
        sorted.truncate(cap);
        proof {
            assert(sorted.deep_view() =~= capped(sorted_full, cap as int));
        }
        let mut rows: Vec<FamilyListRow> = Vec::new();
        let mut i: usize = 0;
        while i < sorted.len()
            invariant
                i <= sorted@.len(),
                rows@.len() == i,
                forall|k: int|
                    0 <= k < i ==> {
                        &&& (#[trigger] rows@[k]).id@ == sorted.deep_view()[k].id
                        &&& rows@[k].name@ == family_list_name(sorted.deep_view()[k])
                        &&& rows@[k].email.deep_view() == sorted.deep_view()[k].delivery_email
                    },
            decreases sorted@.len() - i,
        {
            proof {
                assert(sorted.deep_view()[i as int] == sorted@[i as int]@);
            }
            let f = &sorted[i];
            let display = match &f.last_name {
                Some(s) => s.clone(),
                None => match &f.name {
                    Some(s) => s.clone(),
                    None => String::from_str("Unknown"),
                },
            };
            rows.push(
                FamilyListRow {
                    id: f.id.clone(),
                    name: display,
                    email: clone_opt_string(&f.delivery_email),
                },
            );
            i = i + 1;
        }
        let count = rows.len();
        proof {
            let ghost mf = matching_families(
                self.db.families.deep_view(),
                arg_str(args.entries@, "search"@),
            );
            assert(sorted_full.to_multiset() == mf.to_multiset() && families_sorted(sorted_full)
                && family_rows_match(rows@, capped(sorted_full, cap as int)));
        }
        Ok(ListFamiliesResponse { count, search, families: rows })
    }

    /// Lists the families whose gallery for a matching shoot is still open,
    /// ordered by family name.
    pub fn handle_list_pending_shoot_galleries(&self, args: &Args) -> (r: Result<
        PendingListResponse,
        ToolError,
    >)
        ensures
            list_pending_shoot_galleries_post(*self, args.entries@, r),
    {
        let sn = match args.get_str("shoot_name") {
            Some(s) => s.clone(),
            None => {
                return Err(ToolError::InvalidParams(missing_param("shoot_name")));
            },
        };
        let rows = collect_pending_fs(
            &self.db.family_shoots,
            &self.db.shoots,
            &self.db.families,
            sn.as_str(),
        );
        let sorted = sort_pending_rows(rows);
        let count = sorted.len();
        Ok(PendingListResponse { subject: sn, pending_count: count, families: sorted })
    }

    /// Lists the families whose gallery for a matching competition is still
    /// open, ordered by family name.
    pub fn handle_list_pending_galleries(&self, args: &Args) -> (r: Result<
        PendingListResponse,
        ToolError,
    >)
        ensures
            list_pending_galleries_post(*self, args.entries@, r),
    {
        let cn = match args.get_str("competition_name") {
            Some(s) => s.clone(),
            None => {
                return Err(ToolError::InvalidParams(missing_param("competition_name")));
            },
        };
        let rows = collect_pending_fc(
            &self.db.family_competitions,
            &self.db.competitions,
            &self.db.families,
            cn.as_str(),
        );
        let sorted = sort_pending_rows(rows);
        let count = sorted.len();
        Ok(PendingListResponse { subject: cn, pending_count: count, families: sorted })
    }

    /// Lists every shoot, newest first, ties by name.
    pub fn handle_list_shoots(&self) -> (r: ListShootsResponse)
        ensures
            list_shoots_post(*self, r),
    {
        let mut copy: Vec<Shoot> = Vec::new();
        let mut i: usize = 0;
        while i < self.db.shoots.len()
            invariant
                i <= self.db.shoots@.len(),
                copy.deep_view() == self.db.shoots.deep_view().take(i as int),
            decreases self.db.shoots@.len() - i,
        {
            let ghost pre = copy.deep_view();
            copy.push(self.db.shoots[i].duplicate());
            proof {
                assert(copy.deep_view() =~= pre.push(self.db.shoots.deep_view()[i as int]));
                assert(self.db.shoots.deep_view().take(i as int).push(
                    self.db.shoots.deep_view()[i as int],
                ) =~= self.db.shoots.deep_view().take(i + 1 as int));
            }
            i = i + 1;
        }
        proof {
            assert(self.db.shoots.deep_view().take(self.db.shoots@.len() as int)
                =~= self.db.shoots.deep_view());
        }
        let sorted = sort_shoot_recs(copy);
        let ghost sorted_views = sorted.deep_view();
        let mut rows: Vec<ShootOut> = Vec::new();
        let mut j: usize = 0;
        while j < sorted.len()
            invariant
                j <= sorted@.len(),
                rows@.len() == j,
                forall|k: int|
                    0 <= k < j ==> {
                        &&& (#[trigger] rows@[k]).id@ == sorted.deep_view()[k].id
                        &&& rows@[k].name@ == sorted.deep_view()[k].name
                        &&& rows@[k].shoot_type@ == sorted.deep_view()[k].shoot_type
                        &&& rows@[k].shoot_date.deep_view() == sorted.deep_view()[k].shoot_date
                        &&& rows@[k].location.deep_view() == sorted.deep_view()[k].location
                    },
            decreases sorted@.len() - j,
        {
            proof {
                assert(sorted.deep_view()[j as int] == sorted@[j as int]@);
            }
            let s = &sorted[j];
            rows.push(
                ShootOut {
                    id: s.id.clone(),
                    name: s.name.clone(),
                    shoot_type: s.shoot_type.clone(),
                    shoot_date: clone_opt_string(&s.shoot_date),
                    location: clone_opt_string(&s.location),
                },
            );
            j = j + 1;
        }
        let count = rows.len();
        proof {
            assert(sorted_views.to_multiset() == self.db.shoots.deep_view().to_multiset()
                && shoots_sorted(sorted_views) && shoot_rows_match(rows@, sorted_views));
        }
        ListShootsResponse { count, shoots: rows }
    }

    /// The per-status breakdown for a competition, with the total number of
    /// family edges in scope. An edge without a status counts as "unknown".
    pub fn handle_competition_status(&self, args: &Args) -> (r: Result<
        CompetitionStatusResponse,
        ToolError,
    >)
        ensures
            competition_status_post(*self, args.entries@, r),
    {
        let cn = match args.get_str("competition_name") {
            Some(s) => s.clone(),
            None => {
                return Err(ToolError::InvalidParams(missing_param("competition_name")));
            },
        };
        let statuses = collect_fc_statuses(
            &self.db.family_competitions,
            &self.db.competitions,
            cn.as_str(),
        );
        let breakdown = tally(&statuses);
        let total = statuses.len() as u64;
        Ok(
            CompetitionStatusResponse {
                competition: cn,
                total_families: total,
                status_breakdown: breakdown,
            },
        )
    }

    /// The per-status breakdown for a shoot, with the total number of
    /// family edges in scope and the summed purchase revenue in cents.
    pub fn handle_shoot_status(&self, args: &Args) -> (r: Result<ShootStatusResponse, ToolError>)
        ensures
            shoot_status_post(*self, args.entries@, r),
    {
        let sn = match args.get_str("shoot_name") {
            Some(s) => s.clone(),
            None => {
                return Err(ToolError::InvalidParams(missing_param("shoot_name")));
            },
        };
        let statuses = collect_fs_statuses(&self.db.family_shoots, &self.db.shoots, sn.as_str());
        let breakdown = tally(&statuses);
        let total = statuses.len() as u64;
        let revenue = sum_fs_revenue(&self.db.family_shoots, &self.db.shoots, sn.as_str());
        Ok(
            ShootStatusResponse {
                shoot: sn,
                total_families: total,
                status_breakdown: breakdown,
                total_revenue_cents: revenue,
            },
        )
    }

    /// Marks a family's shoot gallery sent. The edge must already exist;
    /// no edge is ever created here.
    pub fn handle_mark_shoot_sent(&mut self, args: &Args) -> (r: Result<
        MarkSentResponse,
        ToolError,
    >)
        requires
            old(self).db.wf(),
            old(self).db.clock < u64::MAX,
        ensures
            final(self).db.wf(),
            final(self).cfg == old(self).cfg,
            mark_shoot_sent_post(*old(self), *final(self), args.entries@, r),
    {
        let ln = match args.get_str("last_name") {
            Some(s) => s.clone(),
            None => {
                return Err(ToolError::InvalidParams(missing_param("last_name")));
            },
        };
        let sn = match args.get_str("shoot_name") {
            Some(s) => s.clone(),
            None => {
                return Err(ToolError::InvalidParams(missing_param("shoot_name")));
            },
        };
        let fid = family_id(ln.as_str());
        if find_family(&self.db.families, fid.as_str()).is_none() {
            return Ok(
                MarkSentResponse::NoFamily { message: no_family_msg(ln.as_str(), fid.as_str()) },
            );
        }
        let si = match find_shoot_match(&self.db.shoots, sn.as_str()) {
            None => {
                return Ok(
                    MarkSentResponse::NoTarget {
                        message: concat2("No shoot found matching: ", sn.as_str()),
                    },
                );
            },
            Some(i) => i,
        };
        proof {
            crate::seqtools::lemma_first_where_props(
                self.db.shoots.deep_view(),
                |s: ShootView| crate::text::ci_contains(s.name, sn@),
            );
            assert(self.db.shoots.deep_view()[si as int] == self.db.shoots@[si as int]@);
        }
        let tid = self.db.shoots[si].id.clone();
        match find_fs_edge(&self.db.family_shoots, fid.as_str(), tid.as_str()) {
            None => Ok(
                MarkSentResponse::NoEdge {
                    message: concat5(
                        "No family_shoot edge exists for ",
                        ln.as_str(),
                        " at ",
                        sn.as_str(),
                        ". Family may not be linked to this shoot.",
                    ),
                    family_id: fid,
                    target_id: tid,
                },
            ),
            Some(_found) => {
                let now = self.db.clock;
                let updated = fs_edges_marked(
                    &self.db.family_shoots,
                    fid.as_str(),
                    tid.as_str(),
                    now,
                );
                self.db.family_shoots = updated;
                self.db.clock = now + 1;
                Ok(
                    MarkSentResponse::Sent {
                        message: concat4(
                            "Marked shoot gallery as sent for ",
                            ln.as_str(),
                            " at ",
                            sn.as_str(),
                        ),
                        family_id: fid,
                        target_id: tid,
                    },
                )
            },
        }
    }

    /// Marks a family's competition gallery sent. The edge must already
    /// exist; no edge is ever created here.
    pub fn handle_mark_gallery_sent(&mut self, args: &Args) -> (r: Result<
        MarkSentResponse,
        ToolError,
    >)
        requires
            old(self).db.wf(),
            old(self).db.clock < u64::MAX,
        ensures
            final(self).db.wf(),
            final(self).cfg == old(self).cfg,
            mark_gallery_sent_post(*old(self), *final(self), args.entries@, r),
    {
        let ln = match args.get_str("last_name") {
            Some(s) => s.clone(),
            None => {
                return Err(ToolError::InvalidParams(missing_param("last_name")));
            },
        };
        let cn = match args.get_str("competition_name") {
            Some(s) => s.clone(),
            None => {
                return Err(ToolError::InvalidParams(missing_param("competition_name")));
            },
        };
        let fid = family_id(ln.as_str());
        if find_family(&self.db.families, fid.as_str()).is_none() {
            return Ok(
                MarkSentResponse::NoFamily { message: no_family_msg(ln.as_str(), fid.as_str()) },
            );
        }
        let ci = match find_competition_match(&self.db.competitions, cn.as_str()) {
            None => {
                return Ok(
                    MarkSentResponse::NoTarget {
                        message: concat2("No competition found matching: ", cn.as_str()),
                    },
                );
            },
            Some(i) => i,
        };
        proof {
            crate::seqtools::lemma_first_where_props(
                self.db.competitions.deep_view(),
                |c: crate::models::CompetitionView| crate::text::ci_contains(c.name, cn@),
            );
            assert(self.db.competitions.deep_view()[ci as int] == self.db.competitions@[
                ci as int]@);
        }
        let tid = self.db.competitions[ci].id.clone();
        match find_fc_edge(&self.db.family_competitions, fid.as_str(), tid.as_str()) {
            None => Ok(
                MarkSentResponse::NoEdge {
                    message: concat5(
                        "No family_competition edge exists for ",
                        ln.as_str(),
                        " at ",
                        cn.as_str(),
                        ". Family may not be linked to this competition.",
                    ),
                    family_id: fid,
                    target_id: tid,
                },
            ),
            Some(_found) => {
                let now = self.db.clock;
                let updated = fc_edges_marked(
                    &self.db.family_competitions,
                    fid.as_str(),
                    tid.as_str(),
                    now,
                );
                self.db.family_competitions = updated;
                self.db.clock = now + 1;
                Ok(
                    MarkSentResponse::Sent {
                        message: concat4(
                            "Marked gallery as sent for ",
                            ln.as_str(),
                            " at ",
                            cn.as_str(),
                        ),
                        family_id: fid,
                        target_id: tid,
                    },
                )
            },
        }
    }

    /// Links a family to a shoot. A duplicate edge is refused and the
    /// existing edge named instead.
    pub fn handle_link_family_shoot(&mut self, args: &Args) -> (r: Result<LinkResponse, ToolError>)
        requires
            old(self).db.wf(),
            old(self).db.clock < u64::MAX,
            old(self).db.next_id < u64::MAX,
        ensures
            final(self).db.wf(),
            final(self).cfg == old(self).cfg,
            link_family_shoot_post(*old(self), *final(self), args.entries@, r),
    {
        let ln = match args.get_str("last_name") {
            Some(s) => s.clone(),
            None => {
                return Err(ToolError::InvalidParams(missing_param("last_name")));
            },
        };
        let sn = match args.get_str("shoot_name") {
            Some(s) => s.clone(),
            None => {
                return Err(ToolError::InvalidParams(missing_param("shoot_name")));
            },
        };
        let fid = family_id(ln.as_str());
        if find_family(&self.db.families, fid.as_str()).is_none() {
            return Ok(LinkResponse::NoFamily { message: no_family_msg(ln.as_str(), fid.as_str()) });
        }
        let si = match find_shoot_match(&self.db.shoots, sn.as_str()) {
            None => {
                return Ok(
                    LinkResponse::NoShoot {
                        message: concat2("No shoot found matching: ", sn.as_str()),
                    },
                );
            },
            Some(i) => i,
        };
        proof {
            crate::seqtools::lemma_first_where_props(
                self.db.shoots.deep_view(),
                |s: ShootView| crate::text::ci_contains(s.name, sn@),
            );
            assert(self.db.shoots.deep_view()[si as int] == self.db.shoots@[si as int]@);
        }
        let tid = self.db.shoots[si].id.clone();
        match find_fs_edge(&self.db.family_shoots, fid.as_str(), tid.as_str()) {
            Some(e) => {
                proof {
                    crate::seqtools::lemma_first_where_props(
                        self.db.family_shoots.deep_view(),
                        |x: FamilyShootView| x.family == fid@ && x.out == tid@,
                    );
                    assert(self.db.family_shoots.deep_view()[e as int] == self.db.family_shoots@[
                        e as int]@);
                }
                Ok(
                    LinkResponse::AlreadyLinked {
                        message: concat3(ln.as_str(), " is already linked to shoot ", sn.as_str()),
                        family_id: fid,
                        shoot_id: tid,
                        existing_edge_id: self.db.family_shoots[e].id.clone(),
                    },
                )
            },
            None => {
                let now = self.db.clock;
                let serial = self.db.next_id;
                let eid = {
                    let digits = u64_to_string(serial);
                    concat2("family_shoot:", digits.as_str())
                };
                let edge = FamilyShoot {
                    id: eid,
                    family: fid.clone(),
                    out: tid.clone(),
                    gallery_status: String::from_str("pending"),
                    sent_date: None,
                    purchase_amount: None,
                    purchase_date: None,
                    created_at: now,
                };
                let ghost old_edges = self.db.family_shoots.deep_view();
                self.db.family_shoots.push(edge);
                self.db.clock = now + 1;
                self.db.next_id = serial + 1;
                proof {
                    assert(self.db.family_shoots.deep_view() =~= old_edges.push(
                        fs_edge_created(
                            "family_shoot:"@ + dec_str(serial as int),
                            fid@,
                            tid@,
                            now,
                        ),
                    ));
                }
                Ok(
                    LinkResponse::Linked {
                        message: concat4("Linked ", ln.as_str(), " to shoot ", sn.as_str()),
                        family_id: fid,
                        shoot_id: tid,
                    },
                )
            },
        }
    }

    /// Records a purchase on a family's shoot edge. Unlike the mark
    /// operations this does not probe for the edge first: when none joins
    /// the two records the update touches nothing, and success is still
    /// reported.
    pub fn handle_record_purchase(&mut self, args: &Args) -> (r: Result<
        RecordPurchaseResponse,
        ToolError,
    >)
        requires
            old(self).db.wf(),
            old(self).db.clock < u64::MAX,
        ensures
            final(self).db.wf(),
            final(self).cfg == old(self).cfg,
            record_purchase_post(*old(self), *final(self), args.entries@, r),
    {
        let ln = match args.get_str("last_name") {
            Some(s) => s.clone(),
            None => {
                return Err(ToolError::InvalidParams(missing_param("last_name")));
            },
        };
        let sn = match args.get_str("shoot_name") {
            Some(s) => s.clone(),
            None => {
                return Err(ToolError::InvalidParams(missing_param("shoot_name")));
            },
        };
        let amount = match args.get_cents("amount") {
            Some(c) => c,
            None => {
                return Err(ToolError::InvalidParams(missing_param("amount")));
            },
        };
        let fid = family_id(ln.as_str());
        if find_family(&self.db.families, fid.as_str()).is_none() {
            return Ok(
                RecordPurchaseResponse::NoFamily {
                    message: no_family_msg(ln.as_str(), fid.as_str()),
                },
            );
        }
        let si = match find_shoot_match(&self.db.shoots, sn.as_str()) {
            None => {
                return Ok(
                    RecordPurchaseResponse::NoShoot {
                        message: concat2("No shoot found matching: ", sn.as_str()),
                    },
                );
            },
            Some(i) => i,
        };
        proof {
            crate::seqtools::lemma_first_where_props(
                self.db.shoots.deep_view(),
                |s: ShootView| crate::text::ci_contains(s.name, sn@),
            );
            assert(self.db.shoots.deep_view()[si as int] == self.db.shoots@[si as int]@);
        }
        let tid = self.db.shoots[si].id.clone();
        let now = self.db.clock;
        let updated = fs_edges_purchased(
            &self.db.family_shoots,
            fid.as_str(),
            tid.as_str(),
            amount,
            now,
        );
        self.db.family_shoots = updated;
        self.db.clock = now + 1;
        let amt = format_cents(amount);
        Ok(
            RecordPurchaseResponse::Recorded {
                message: concat6(
                    "Recorded $",
                    amt.as_str(),
                    " purchase for ",
                    ln.as_str(),
                    " at ",
                    sn.as_str(),
                ),
            },
        )
    }
}

// ---------------------------------------------------------------------------
// Listing rows and the views they correspond to.
// ---------------------------------------------------------------------------
pub open spec fn skater_rows_match(rows: Seq<SkaterOut>, vs: Seq<SkaterView>) -> bool {
    rows.len() == vs.len() && forall|i: int|
        0 <= i < vs.len() ==> {
            &&& (#[trigger] rows[i]).id@ == vs[i].id
            &&& rows[i].first_name@ == vs[i].first_name
            &&& rows[i].last_name@ == vs[i].last_name
            &&& rows[i].name@ == vs[i].first_name + " "@ + vs[i].last_name
        }
}

/// The display name a family listing shows.
pub open spec fn family_list_name(f: FamilyView) -> Seq<char> {
    match f.last_name {
        Some(s) => s,
        None => match f.name {
            Some(s) => s,
            None => "Unknown"@,
        },
    }
}

pub open spec fn family_rows_match(rows: Seq<FamilyListRow>, vs: Seq<FamilyView>) -> bool {
    rows.len() == vs.len() && forall|i: int|
        0 <= i < vs.len() ==> {
            &&& (#[trigger] rows[i]).id@ == vs[i].id
            &&& rows[i].name@ == family_list_name(vs[i])
            &&& rows[i].email.deep_view() == vs[i].delivery_email
        }
}

pub open spec fn shoot_rows_match(rows: Seq<ShootOut>, vs: Seq<ShootView>) -> bool {
    rows.len() == vs.len() && forall|i: int|
        0 <= i < vs.len() ==> {
            &&& (#[trigger] rows[i]).id@ == vs[i].id
            &&& rows[i].name@ == vs[i].name
            &&& rows[i].shoot_type@ == vs[i].shoot_type
            &&& rows[i].shoot_date.deep_view() == vs[i].shoot_date
            &&& rows[i].location.deep_view() == vs[i].location
        }
}

// ---------------------------------------------------------------------------
// Family membership and shoot lookups.
// ---------------------------------------------------------------------------
/// The skaters belonging to a family: for each membership edge pointing at
/// the family, the skater row it names, in edge-table order. An edge whose
/// skater row is gone contributes nothing.
pub open spec fn members_of(
    belongs: Seq<BelongsView>,
    skaters: Seq<SkaterView>,
    fid: Seq<char>,
) -> Seq<SkaterView>
    decreases belongs.len(),
{
    if belongs.len() == 0 {
        Seq::<SkaterView>::empty()
    } else {
        let rest = members_of(belongs.drop_last(), skaters, fid);
        let b = belongs.last();
        if b.family_id == fid {
            let si = skater_index(skaters, b.skater_id);
            if si == -1 {
                rest
            } else {
                rest.push(skaters[si])
            }
        } else {
            rest
        }
    }
}

/// Collects a family's skaters as listing rows.
fn collect_members(belongs: &Vec<BelongsRec>, skaters: &Vec<SkaterRec>, fid: &str) -> (r: Vec<
    SkaterOut,
>)
    ensures
        ({
            let ms = members_of(belongs.deep_view(), skaters.deep_view(), fid@);
            &&& r@.len() == ms.len()
            &&& forall|i: int|
                0 <= i < ms.len() ==> {
                    &&& (#[trigger] r@[i]).id@ == ms[i].id
                    &&& r@[i].first_name@ == ms[i].first_name
                    &&& r@[i].last_name@ == ms[i].last_name
                    &&& r@[i].name@ == ms[i].first_name + " "@ + ms[i].last_name
                }
        }),
{
    let mut out: Vec<SkaterOut> = Vec::new();
    let mut i: usize = 0;
    proof {
        assert(belongs.deep_view().take(0) =~= Seq::<BelongsView>::empty());
    }
    while i < belongs.len()
        invariant
            i <= belongs@.len(),
            ({
                let ms = members_of(
                    belongs.deep_view().take(i as int),
                    skaters.deep_view(),
                    fid@,
                );
                &&& out@.len() == ms.len()
                &&& forall|k: int|
                    0 <= k < ms.len() ==> {
                        &&& (#[trigger] out@[k]).id@ == ms[k].id
                        &&& out@[k].first_name@ == ms[k].first_name
                        &&& out@[k].last_name@ == ms[k].last_name
                        &&& out@[k].name@ == ms[k].first_name + " "@ + ms[k].last_name
                    }
            }),
        decreases belongs@.len() - i,
    {
        proof {
            assert(belongs.deep_view().take(i + 1 as int).drop_last() =~= belongs.deep_view().take(
                i as int,
            ));
            assert(belongs.deep_view().take(i + 1 as int).last() == belongs.deep_view()[i as int]);
            assert(belongs.deep_view()[i as int] == belongs@[i as int]@);
        }
        let b = &belongs[i];
        if str_eq(b.family_id.as_str(), fid) {
            match find_skater_by_id(skaters, b.skater_id.as_str()) {
                Some(si) => {
                    proof {
                        crate::seqtools::lemma_first_where_props(
                            skaters.deep_view(),
                            |s: SkaterView| s.id == b.skater_id@,
                        );
                        assert(skaters.deep_view()[si as int] == skaters@[si as int]@);
                    }
                    let sk = &skaters[si];
                    out.push(
                        SkaterOut {
                            id: sk.id.clone(),
                            name: concat3(sk.first_name.as_str(), " ", sk.last_name.as_str()),
                            first_name: sk.first_name.clone(),
                            last_name: sk.last_name.clone(),
                        },
                    );
                },
                None => {},
            }
        }
        i = i + 1;
    }
    proof {
        assert(belongs.deep_view().take(belongs@.len() as int) =~= belongs.deep_view());
    }
    out
}

/// How many family edges point at a shoot.
pub open spec fn count_edges_to(es: Seq<FamilyShootView>, tid: Seq<char>) -> int
    decreases es.len(),
{
    if es.len() == 0 {
        0
    } else {
        count_edges_to(es.drop_last(), tid) + if es.last().out == tid {
            1int
        } else {
            0int
        }
    }
}

fn count_edges_to_exec(es: &Vec<FamilyShoot>, tid: &str) -> (r: u64)
    ensures
        r == count_edges_to(es.deep_view(), tid@),
{
    let mut cnt: u64 = 0;
    let mut i: usize = 0;
    proof {
        assert(es.deep_view().take(0) =~= Seq::<FamilyShootView>::empty());
    }
    while i < es.len()
        invariant
            i <= es@.len(),
            cnt == count_edges_to(es.deep_view().take(i as int), tid@),
            cnt <= i,
        decreases es@.len() - i,
    {
        proof {
            assert(es.deep_view().take(i + 1 as int).drop_last() =~= es.deep_view().take(i as int));
            assert(es.deep_view().take(i + 1 as int).last() == es.deep_view()[i as int]);
            assert(es.deep_view()[i as int] == es@[i as int]@);
        }
        if str_eq(es[i].out.as_str(), tid) {
            cnt = cnt + 1;
        }
        i = i + 1;
    }
    proof {
        assert(es.deep_view().take(es@.len() as int) =~= es.deep_view());
    }
    cnt
}

// ---------------------------------------------------------------------------
// View-level transitions of the edge tables.
// ---------------------------------------------------------------------------
/// A family-to-shoot edge after its gallery is marked sent.
pub open spec fn fs_edge_marked_sent(e: FamilyShootView, now: u64) -> FamilyShootView {
    FamilyShootView { gallery_status: "sent"@, sent_date: Some(now), ..e }
}

/// Marking touches every edge joining the family to the shoot.
pub open spec fn mark_fs_views(
    es: Seq<FamilyShootView>,
    fid: Seq<char>,
    tid: Seq<char>,
    now: u64,
) -> Seq<FamilyShootView> {
    es.map_values(
        |e: FamilyShootView|
            if e.family == fid && e.out == tid {
                fs_edge_marked_sent(e, now)
            } else {
                e
            },
    )
}

/// A family-to-competition edge after its gallery is marked sent.
pub open spec fn fc_edge_marked_sent(e: FamilyCompetitionView, now: u64) -> FamilyCompetitionView {
    FamilyCompetitionView { gallery_status: Some("sent"@), sent_date: Some(now), ..e }
}

pub open spec fn mark_fc_views(
    es: Seq<FamilyCompetitionView>,
    fid: Seq<char>,
    tid: Seq<char>,
    now: u64,
) -> Seq<FamilyCompetitionView> {
    es.map_values(
        |e: FamilyCompetitionView|
            if e.family == fid && e.out == tid {
                fc_edge_marked_sent(e, now)
            } else {
                e
            },
    )
}

/// A family-to-shoot edge after a purchase is recorded against it; the
/// amount is in cents.
pub open spec fn fs_edge_purchased(e: FamilyShootView, amount: i64, now: u64) -> FamilyShootView {
    FamilyShootView {
        gallery_status: "purchased"@,
        purchase_amount: Some(amount),
        purchase_date: Some(now),
        ..e
    }
}

pub open spec fn purchase_fs_views(
    es: Seq<FamilyShootView>,
    fid: Seq<char>,
    tid: Seq<char>,
    amount: i64,
    now: u64,
) -> Seq<FamilyShootView> {
    es.map_values(
        |e: FamilyShootView|
            if e.family == fid && e.out == tid {
                fs_edge_purchased(e, amount, now)
            } else {
                e
            },
    )
}

/// The edge a link creates: pending, stamped with the creation time.
pub open spec fn fs_edge_created(
    eid: Seq<char>,
    fid: Seq<char>,
    tid: Seq<char>,
    now: u64,
) -> FamilyShootView {
    FamilyShootView {
        id: eid,
        family: fid,
        out: tid,
        gallery_status: "pending"@,
        sent_date: None,
        purchase_amount: None,
        purchase_date: None,
        created_at: now,
    }
}

pub open spec fn no_shoot_msg_spec(sn: Seq<char>) -> Seq<char> {
    "No shoot found matching: "@ + sn
}

pub open spec fn no_comp_msg_spec(cn: Seq<char>) -> Seq<char> {
    "No competition found matching: "@ + cn
}

pub open spec fn no_fs_edge_msg_spec(ln: Seq<char>, sn: Seq<char>) -> Seq<char> {
    "No family_shoot edge exists for "@ + ln + " at "@ + sn
        + ". Family may not be linked to this shoot."@
}

pub open spec fn no_fc_edge_msg_spec(ln: Seq<char>, cn: Seq<char>) -> Seq<char> {
    "No family_competition edge exists for "@ + ln + " at "@ + cn
        + ". Family may not be linked to this competition."@
}

pub open spec fn marked_shoot_msg_spec(ln: Seq<char>, sn: Seq<char>) -> Seq<char> {
    "Marked shoot gallery as sent for "@ + ln + " at "@ + sn
}

pub open spec fn marked_gallery_msg_spec(ln: Seq<char>, cn: Seq<char>) -> Seq<char> {
    "Marked gallery as sent for "@ + ln + " at "@ + cn
}

pub open spec fn already_linked_msg_spec(ln: Seq<char>, sn: Seq<char>) -> Seq<char> {
    ln + " is already linked to shoot "@ + sn
}

pub open spec fn linked_msg_spec(ln: Seq<char>, sn: Seq<char>) -> Seq<char> {
    "Linked "@ + ln + " to shoot "@ + sn
}

pub open spec fn recorded_msg_spec(amount: i64, ln: Seq<char>, sn: Seq<char>) -> Seq<char> {
    "Recorded $"@ + money_str(amount as int) + " purchase for "@ + ln + " at "@ + sn
}

/// Rebuilds the family-to-shoot table with every edge joining the two ids
/// marked sent.
fn fs_edges_marked(es: &Vec<FamilyShoot>, fid: &str, tid: &str, now: u64) -> (r: Vec<FamilyShoot>)
    ensures
        r.deep_view() == mark_fs_views(es.deep_view(), fid@, tid@, now),
{
    let mut out: Vec<FamilyShoot> = Vec::new();
    let mut i: usize = 0;
    while i < es.len()
        invariant
            i <= es@.len(),
            out@.len() == i,
            forall|j: int|
                0 <= j < i ==> #[trigger] out.deep_view()[j] == (
                if es.deep_view()[j].family == fid@ && es.deep_view()[j].out == tid@ {
                    fs_edge_marked_sent(es.deep_view()[j], now)
                } else {
                    es.deep_view()[j]
                }),
        decreases es@.len() - i,
    {
        let ghost pre = out.deep_view();
        let e = &es[i];
        if str_eq(e.family.as_str(), fid) && str_eq(e.out.as_str(), tid) {
            let d = e.duplicate();
            out.push(
                FamilyShoot {
                    gallery_status: String::from_str("sent"),
                    sent_date: Some(now),
                    id: d.id,
                    family: d.family,
                    out: d.out,
                    purchase_amount: d.purchase_amount,
                    purchase_date: d.purchase_date,
                    created_at: d.created_at,
                },
            );
        } else {
            out.push(e.duplicate());
        }
        proof {
            assert forall|j: int| 0 <= j < i + 1 implies #[trigger] out.deep_view()[j] == (
            if es.deep_view()[j].family == fid@ && es.deep_view()[j].out == tid@ {
                fs_edge_marked_sent(es.deep_view()[j], now)
            } else {
                es.deep_view()[j]
            }) by {
                assert(out.deep_view()[j] == out@[j]@);
                assert(es.deep_view()[j] == es@[j]@);
                if j < i {
                    assert(out@[j]@ == pre[j]);
                }
            }
        }
        i = i + 1;
    }
    proof {
        assert(out.deep_view() =~= mark_fs_views(es.deep_view(), fid@, tid@, now));
    }
    out
}

/// Rebuilds the family-to-competition table with every edge joining the two
/// ids marked sent.
fn fc_edges_marked(es: &Vec<FamilyCompetition>, fid: &str, tid: &str, now: u64) -> (r: Vec<
    FamilyCompetition,
>)
    ensures
        r.deep_view() == mark_fc_views(es.deep_view(), fid@, tid@, now),
{
    let mut out: Vec<FamilyCompetition> = Vec::new();
    let mut i: usize = 0;
    while i < es.len()
        invariant
            i <= es@.len(),
            out@.len() == i,
            forall|j: int|
                0 <= j < i ==> #[trigger] out.deep_view()[j] == (
                if es.deep_view()[j].family == fid@ && es.deep_view()[j].out == tid@ {
                    fc_edge_marked_sent(es.deep_view()[j], now)
                } else {
                    es.deep_view()[j]
                }),
        decreases es@.len() - i,
    {
        let ghost pre = out.deep_view();
        let e = &es[i];
        if str_eq(e.family.as_str(), fid) && str_eq(e.out.as_str(), tid) {
            let d = e.duplicate();
            out.push(
                FamilyCompetition {
                    gallery_status: Some(String::from_str("sent")),
                    sent_date: Some(now),
                    id: d.id,
                    family: d.family,
                    out: d.out,
                },
            );
        } else {
            out.push(e.duplicate());
        }
        proof {
            assert forall|j: int| 0 <= j < i + 1 implies #[trigger] out.deep_view()[j] == (
            if es.deep_view()[j].family == fid@ && es.deep_view()[j].out == tid@ {
                fc_edge_marked_sent(es.deep_view()[j], now)
            } else {
                es.deep_view()[j]
            }) by {
                assert(out.deep_view()[j] == out@[j]@);
                assert(es.deep_view()[j] == es@[j]@);
                if j < i {
                    assert(out@[j]@ == pre[j]);
                }
            }
        }
        i = i + 1;
    }
    proof {
        assert(out.deep_view() =~= mark_fc_views(es.deep_view(), fid@, tid@, now));
    }
    out
}

/// Rebuilds the family-to-shoot table with a purchase recorded on every
/// edge joining the two ids.
fn fs_edges_purchased(es: &Vec<FamilyShoot>, fid: &str, tid: &str, amount: i64, now: u64) -> (r:
    Vec<FamilyShoot>)
    ensures
        r.deep_view() == purchase_fs_views(es.deep_view(), fid@, tid@, amount, now),
{
    let mut out: Vec<FamilyShoot> = Vec::new();
    let mut i: usize = 0;
    while i < es.len()
        invariant
            i <= es@.len(),
            out@.len() == i,
            forall|j: int|
                0 <= j < i ==> #[trigger] out.deep_view()[j] == (
                if es.deep_view()[j].family == fid@ && es.deep_view()[j].out == tid@ {
                    fs_edge_purchased(es.deep_view()[j], amount, now)
                } else {
                    es.deep_view()[j]
                }),
        decreases es@.len() - i,
    {
        let ghost pre = out.deep_view();
        let e = &es[i];
        if str_eq(e.family.as_str(), fid) && str_eq(e.out.as_str(), tid) {
            let d = e.duplicate();
            out.push(
                FamilyShoot {
                    gallery_status: String::from_str("purchased"),
                    purchase_amount: Some(amount),
                    purchase_date: Some(now),
                    id: d.id,
                    family: d.family,
                    out: d.out,
                    sent_date: d.sent_date,
                    created_at: d.created_at,
                },
            );
        } else {
            out.push(e.duplicate());
        }
        proof {
            assert forall|j: int| 0 <= j < i + 1 implies #[trigger] out.deep_view()[j] == (
            if es.deep_view()[j].family == fid@ && es.deep_view()[j].out == tid@ {
                fs_edge_purchased(es.deep_view()[j], amount, now)
            } else {
                es.deep_view()[j]
            }) by {
                assert(out.deep_view()[j] == out@[j]@);
                assert(es.deep_view()[j] == es@[j]@);
                if j < i {
                    assert(out@[j]@ == pre[j]);
                }
            }
        }
        i = i + 1;
    }
    proof {
        assert(out.deep_view() =~= purchase_fs_views(es.deep_view(), fid@, tid@, amount, now));
    }
    out
}

/// The display name of a family row: its last name, else its display name
/// field, else the caller's own words.
pub open spec fn display_name_spec(f: FamilyView, fallback: Seq<char>) -> Seq<char> {
    match f.last_name {
        Some(s) => s,
        None => match f.name {
            Some(s) => s,
            None => fallback,
        },
    }
}

fn display_name(f: &FamilyRec, fallback: &String) -> (r: String)
    ensures
        r@ == display_name_spec(f@, fallback@),
{
    match &f.last_name {
        Some(s) => s.clone(),
        None => match &f.name {
            Some(s) => s.clone(),
            None => fallback.clone(),
        },
    }
}

} // verus!
