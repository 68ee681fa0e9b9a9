use vstd::prelude::*;
use vstd::pervasive::VecAdditionalExecFns;
use vstd::string::StrSliceExecFns;
use vstd::string::StringExecFns;
use crate::args::{arg_flag, arg_str, ArgValue, Args};
use crate::models::{FamilyRec, FamilyView};
use crate::responses::{
    GalleryMatch, GalleryMatchView, GalleryMiss, GalleryMissView, OrderMatch, OrderMatchView,
    OrderMiss, OrderMissView, SyncGalleriesReport, SyncOrdersReport, ToolError,
};
use crate::server::{is_missing_param, missing_param, PhotoMindServer};
use crate::store::{family_index, find_family, Store};
use crate::text::{
    concat2, concat4, family_id, from_chars, last_token, last_token_exec, lower_of, to_chars,
    under_of,
};

verus! {

/// How the caller's attempt to read the named file went: these operations
/// take the file's contents, not its path; reading is the caller's part.
#[derive(Clone, Debug, PartialEq)]
pub enum FileLoad {
    Loaded(String),
    Failed(String),
}

/// One gallery taken from the export file. A missing or wrongly typed
/// field reads as zero or empty, as member extraction does.
#[derive(Clone, Debug, PartialEq)]
pub struct GalleryRec {
    pub id: i64,
    pub name: String,
    pub url: String,
}

pub struct GalleryRecView {
    pub id: i64,
    pub name: Seq<char>,
    pub url: Seq<char>,
}

impl View for GalleryRec {
    type V = GalleryRecView;

    open spec fn view(&self) -> GalleryRecView {
        GalleryRecView { id: self.id, name: self.name@, url: self.url@ }
    }
}

impl DeepView for GalleryRec {
    type V = GalleryRecView;

    open spec fn deep_view(&self) -> GalleryRecView {
        self.view()
    }
}

/// The family id a sync entry is matched under: the last
/// whitespace-separated token of the name, lowercased, spaces to
/// underscores.
pub open spec fn sync_family_id(name: Seq<char>) -> Seq<char> {
    "family:"@ + under_of(lower_of(last_token(name)))
}

/// Derives the candidate family id from a gallery or event name.
pub fn derive_family_id(name: &str) -> (r: String)
    ensures
        r@ == sync_family_id(name@),
{
    let chars = to_chars(name);
    let token = last_token_exec(&chars);
    let token_str = from_chars(&token);
    family_id(token_str.as_str())
}

// ---------------------------------------------------------------------------
// Reading the export files. Parsing is serde_json's work, and what it and
// the member readers yield is a pure function of the text, so the outcomes
// carry names: the syntax-error message, and the entries of the expected
// top-level array. The verified logic takes the entries from there.
// ---------------------------------------------------------------------------
/// The message `serde_json::from_str` fails with on this text, or `None`
/// when the text is well-formed JSON; a function of the text alone.
pub uninterp spec fn json_syntax_error(s: Seq<char>) -> Option<Seq<char>>;

/// The entries of the text's top-level "galleries" array, or `None` when
/// the text is not JSON or holds no such array; a function of the text
/// alone. A missing or wrongly typed member of an entry reads as zero or
/// empty.
pub uninterp spec fn galleries_of(s: Seq<char>) -> Option<Seq<GalleryRecView>>;

/// The entries of the text's top-level "orders" array, under the same
/// reading rules; the amount is the number's own text, "0" when absent.
pub uninterp spec fn orders_of(s: Seq<char>) -> Option<Seq<OrderRecView>>;

/// What reading a gallery export yields: its entries, a shape refusal, or
/// the parser's own message.
pub enum GalleriesDoc {
    Entries(Vec<GalleryRec>),
    NoArray,
    Syntax(String),
}

/// Relies on `serde_json::from_str` and the `Value` readers — member
/// indexing, `as_array`, `as_i64`, `as_str`: parses the text and projects
/// the "galleries" entries, every outcome a function of the text alone.
#[verifier::external_body]
fn parse_galleries(s: &str) -> (r: GalleriesDoc)
    ensures
        (r is Syntax) == (json_syntax_error(s@) is Some),
        (r is Entries) == (galleries_of(s@) is Some),
        r matches GalleriesDoc::Syntax(m) ==> m@ == json_syntax_error(s@).unwrap(),
        r matches GalleriesDoc::Entries(v) ==> v.deep_view() == galleries_of(s@).unwrap(),
{
    let v: serde_json::Value = match serde_json::from_str(s) { Ok(v) => v, Err(e) => return GalleriesDoc::Syntax(e.to_string()) };
    let a = match v["galleries"].as_array() { Some(x) => x, None => return GalleriesDoc::NoArray };
    GalleriesDoc::Entries(a.iter().map(|g| GalleryRec {
        id: g["id"].as_i64().unwrap_or(0),
        name: g["name"].as_str().unwrap_or("").to_owned(),
        url: g["url"].as_str().unwrap_or("").to_owned(),
    }).collect())
}

/// What reading an order export yields.
pub enum OrdersDoc {
    Entries(Vec<OrderRec>),
    NoArray,
    Syntax(String),
}

/// Relies on `serde_json::from_str` and the `Value` readers — member
/// indexing, `as_array`, `as_i64`, `as_str`, `as_number` with the
/// `Display` of `serde_json::Number`: parses the text and projects the
/// "orders" entries, every outcome a function of the text alone.
#[verifier::external_body]
fn parse_orders(s: &str) -> (r: OrdersDoc)
    ensures
        (r is Syntax) == (json_syntax_error(s@) is Some),
        (r is Entries) == (orders_of(s@) is Some),
        r matches OrdersDoc::Syntax(m) ==> m@ == json_syntax_error(s@).unwrap(),
        r matches OrdersDoc::Entries(v) ==> v.deep_view() == orders_of(s@).unwrap(),
{
    let v: serde_json::Value = match serde_json::from_str(s) { Ok(v) => v, Err(e) => return OrdersDoc::Syntax(e.to_string()) };
    let a = match v["orders"].as_array() { Some(x) => x, None => return OrdersDoc::NoArray };
    let t = |o: &serde_json::Value, k: &str| o[k].as_str().unwrap_or("").to_owned();
    OrdersDoc::Entries(a.iter().map(|o| OrderRec {
        customer_email: t(o, "customer_email"),
        customer_name: t(o, "customer_name"),
        event_name: t(o, "event_name"),
        event_id: o["event_id"].as_i64().unwrap_or(0),
        amount_text: o["grand_total"].as_number().map_or("0".to_owned(), |n| n.to_string()),
    }).collect())
}

// ---------------------------------------------------------------------------
// The gallery sync, as a fold over the export's entries.
// ---------------------------------------------------------------------------
pub struct GallerySyncState {
    pub fams: Seq<FamilyView>,
    pub matched: Seq<GalleryMatchView>,
    pub unmatched: Seq<GalleryMissView>,
    pub updated: int,
}

pub open spec fn gallery_sync_init(fams: Seq<FamilyView>) -> GallerySyncState {
    GallerySyncState {
        fams: fams,
        matched: Seq::<GalleryMatchView>::empty(),
        unmatched: Seq::<GalleryMissView>::empty(),
        updated: 0,
    }
}

/// One entry: match by the derived id; record the match or the miss; when
/// live and the family has no gallery id yet, write the id and url.
pub open spec fn gallery_step(
    st: GallerySyncState,
    rec: GalleryRecView,
    dry: bool,
) -> GallerySyncState {
    let key = sync_family_id(rec.name);
    let fi = family_index(st.fams, key);
    if fi == -1 {
        GallerySyncState {
            unmatched: st.unmatched.push(
                GalleryMissView {
                    gallery_name: rec.name,
                    gallery_id: rec.id,
                    attempted_family_id: key,
                },
            ),
            ..st
        }
    } else {
        let f = st.fams[fi];
        let m = GalleryMatchView {
            gallery_name: rec.name,
            gallery_id: rec.id,
            family_id: f.id,
            family_name: f.name,
            existing_sp_id: f.shootproof_gallery_id,
            url: rec.url,
        };
        if !dry && f.shootproof_gallery_id is None {
            GallerySyncState {
                fams: st.fams.update(
                    fi,
                    FamilyView {
                        shootproof_gallery_id: Some(rec.id),
                        shootproof_url: Some(rec.url),
                        ..f
                    },
                ),
                matched: st.matched.push(m),
                updated: st.updated + 1,
                ..st
            }
        } else {
            GallerySyncState { matched: st.matched.push(m), ..st }
        }
    }
}

pub open spec fn gallery_fold(
    st: GallerySyncState,
    recs: Seq<GalleryRecView>,
    dry: bool,
) -> GallerySyncState
    decreases recs.len(),
{
    if recs.len() == 0 {
        st
    } else {
        gallery_fold(gallery_step(st, recs.first(), dry), recs.drop_first(), dry)
    }
}

/// A dry run leaves the family table alone.
pub proof fn lemma_gallery_fold_dry(st: GallerySyncState, recs: Seq<GalleryRecView>)
    ensures
        gallery_fold(st, recs, true).fams == st.fams,
    decreases recs.len(),
{
    if recs.len() > 0 {
        lemma_gallery_fold_dry(gallery_step(st, recs.first(), true), recs.drop_first());
    }
}

impl PhotoMindServer {
    /// Runs the gallery sync over already-extracted entries.
    pub fn sync_galleries_core(&mut self, records: &Vec<GalleryRec>, dry_run: bool) -> (r:
        SyncGalleriesReport)
        requires
            old(self).db.wf(),
        ensures
            final(self).db.wf(),
            final(self).cfg == old(self).cfg,
            final(self).db == (Store { families: final(self).db.families, ..old(self).db }),
            dry_run ==> *final(self) == *old(self),
            ({
                let end = gallery_fold(
                    gallery_sync_init(old(self).db.families.deep_view()),
                    records.deep_view(),
                    dry_run,
                );
                &&& final(self).db.families.deep_view() == end.fams
                &&& r.matched.deep_view() == end.matched
                &&& r.unmatched.deep_view() == end.unmatched
                &&& r.updated == end.updated
                &&& r.dry_run == dry_run
                &&& r.total_galleries == records@.len()
            }),
    {
        let ghost recs = records.deep_view();
        let ghost st0 = gallery_sync_init(old(self).db.families.deep_view());
        let mut matched: Vec<GalleryMatch> = Vec::new();
        let mut unmatched: Vec<GalleryMiss> = Vec::new();
        let mut updated: u64 = 0;
        let mut k: usize = 0;
        proof {
            assert(recs.skip(0) =~= recs);
            assert(matched.deep_view() =~= st0.matched);
            assert(unmatched.deep_view() =~= st0.unmatched);
        }
        while k < records.len()
            invariant
                k <= records@.len(),
                recs == records.deep_view(),
                st0 == gallery_sync_init(old(self).db.families.deep_view()),
                self.cfg == old(self).cfg,
                self.db == (Store { families: self.db.families, ..old(self).db }),
                dry_run ==> self.db.families == old(self).db.families,
                updated <= k,
                self.db.families.deep_view().len() == old(self).db.families.deep_view().len(),
                forall|i: int|
                    0 <= i < old(self).db.families.deep_view().len() ==> (
                    #[trigger] self.db.families.deep_view()[i]).id == old(
                        self,
                    ).db.families.deep_view()[i].id,
                gallery_fold(st0, recs, dry_run) == gallery_fold(
                    GallerySyncState {
                        fams: self.db.families.deep_view(),
                        matched: matched.deep_view(),
                        unmatched: unmatched.deep_view(),
                        updated: updated as int,
                    },
                    recs.skip(k as int),
                    dry_run,
                ),
            decreases records@.len() - k,
        {
            let ghost cur = GallerySyncState {
                fams: self.db.families.deep_view(),
                matched: matched.deep_view(),
                unmatched: unmatched.deep_view(),
                updated: updated as int,
            };
            proof {
                assert(recs.skip(k as int).first() == recs[k as int]);
                assert(recs.skip(k as int).drop_first() =~= recs.skip(k as int + 1));
                assert(recs[k as int] == records@[k as int]@);
            }
            let rec = &records[k];
            let key = derive_family_id(rec.name.as_str());
            match find_family(&self.db.families, key.as_str()) {
                None => {
                    unmatched.push(
                        GalleryMiss {
                            gallery_name: rec.name.clone(),
                            gallery_id: rec.id,
                            attempted_family_id: key,
                        },
                    );
                    proof {
                        assert(unmatched.deep_view() =~= cur.unmatched.push(
                            GalleryMissView {
                                gallery_name: recs[k as int].name,
                                gallery_id: recs[k as int].id,
                                attempted_family_id: sync_family_id(recs[k as int].name),
                            },
                        ));
                        assert(GallerySyncState {
                            fams: self.db.families.deep_view(),
                            matched: matched.deep_view(),
                            unmatched: unmatched.deep_view(),
                            updated: updated as int,
                        } == gallery_step(cur, recs[k as int], dry_run));
                    }
                },
                Some(fi) => {
                    proof {
                        crate::seqtools::lemma_first_where_props(
                            self.db.families.deep_view(),
                            |f: FamilyView| f.id == key@,
                        );
                        assert(self.db.families.deep_view()[fi as int] == self.db.families@[
                            fi as int]@);
                    }
                    let f = &self.db.families[fi];
                    let m = GalleryMatch {
                        gallery_name: rec.name.clone(),
                        gallery_id: rec.id,
                        family_id: f.id.clone(),
                        family_name: crate::models::clone_opt_string(&f.name),
                        existing_sp_id: f.shootproof_gallery_id,
                        url: rec.url.clone(),
                    };
                    let needs_update = !dry_run && f.shootproof_gallery_id.is_none();
                    matched.push(m);
                    proof {
                        assert(matched.deep_view() =~= cur.matched.push(
                            GalleryMatchView {
                                gallery_name: recs[k as int].name,
                                gallery_id: recs[k as int].id,
                                family_id: cur.fams[fi as int].id,
                                family_name: cur.fams[fi as int].name,
                                existing_sp_id: cur.fams[fi as int].shootproof_gallery_id,
                                url: recs[k as int].url,
                            },
                        ));
                    }
                    if needs_update {
                        let dup = self.db.families[fi].duplicate();
                        let updated_row = FamilyRec {
                            shootproof_gallery_id: Some(rec.id),
                            shootproof_url: Some(rec.url.clone()),
                            id: dup.id,
                            name: dup.name,
                            first_name: dup.first_name,
                            last_name: dup.last_name,
                            delivery_email: dup.delivery_email,
                            notes: dup.notes,
                            created_at: dup.created_at,
                        };
                        self.db.families.set(fi, updated_row);
                        updated = updated + 1;
                        proof {
                            assert(self.db.families.deep_view() =~= cur.fams.update(
                                fi as int,
                                FamilyView {
                                    shootproof_gallery_id: Some(recs[k as int].id),
                                    shootproof_url: Some(recs[k as int].url),
                                    ..cur.fams[fi as int]
                                },
                            ));
                        }
                    }
                    proof {
                        assert(GallerySyncState {
                            fams: self.db.families.deep_view(),
                            matched: matched.deep_view(),
                            unmatched: unmatched.deep_view(),
                            updated: updated as int,
                        } == gallery_step(cur, recs[k as int], dry_run));
                    }
                },
            }
            k = k + 1;
        }
        proof {
            assert(recs.skip(records@.len() as int).len() == 0);
            assert forall|a: int, b: int|
                #![trigger self.db.families@[a], self.db.families@[b]]
                0 <= a < b < self.db.families@.len() implies self.db.families@[a].id@ != self
                .db.families@[b].id@ by {
                assert(self.db.families.deep_view()[a] == self.db.families@[a]@);
                assert(self.db.families.deep_view()[b] == self.db.families@[b]@);
                assert(old(self).db.families.deep_view()[a] == old(self).db.families@[a]@);
                assert(old(self).db.families.deep_view()[b] == old(self).db.families@[b]@);
            }
        }
        let total = records.len();
        SyncGalleriesReport {
            dry_run,
            total_galleries: total,
            matched,
            unmatched,
            updated,
        }
    }
}

// ---------------------------------------------------------------------------
// The order sync, as a fold over the export's entries.
// ---------------------------------------------------------------------------
/// One order taken from the export file; the amount is the number's own
/// text.
#[derive(Clone, Debug, PartialEq)]
pub struct OrderRec {
    pub customer_email: String,
    pub customer_name: String,
    pub event_name: String,
    pub event_id: i64,
    pub amount_text: String,
}

pub struct OrderRecView {
    pub customer_email: Seq<char>,
    pub customer_name: Seq<char>,
    pub event_name: Seq<char>,
    pub event_id: i64,
    pub amount_text: Seq<char>,
}

impl View for OrderRec {
    type V = OrderRecView;

    open spec fn view(&self) -> OrderRecView {
        OrderRecView {
            customer_email: self.customer_email@,
            customer_name: self.customer_name@,
            event_name: self.event_name@,
            event_id: self.event_id,
            amount_text: self.amount_text@,
        }
    }
}

impl DeepView for OrderRec {
    type V = OrderRecView;

    open spec fn deep_view(&self) -> OrderRecView {
        self.view()
    }
}

pub struct OrderSyncState {
    pub fams: Seq<FamilyView>,
    pub matched: Seq<OrderMatchView>,
    pub unmatched: Seq<OrderMissView>,
    pub emails_updated: int,
}

pub open spec fn order_sync_init(fams: Seq<FamilyView>) -> OrderSyncState {
    OrderSyncState {
        fams: fams,
        matched: Seq::<OrderMatchView>::empty(),
        unmatched: Seq::<OrderMissView>::empty(),
        emails_updated: 0,
    }
}

/// One entry: match by the id derived from the event name; a matched
/// family with no delivery email takes the order's non-empty customer
/// email when the run is live. A present email is never overwritten.
pub open spec fn order_step(st: OrderSyncState, rec: OrderRecView, dry: bool) -> OrderSyncState {
    let key = sync_family_id(rec.event_name);
    let fi = family_index(st.fams, key);
    if fi == -1 {
        OrderSyncState {
            unmatched: st.unmatched.push(
                OrderMissView {
                    event_name: rec.event_name,
                    customer_name: rec.customer_name,
                    customer_email: rec.customer_email,
                    amount_text: rec.amount_text,
                    attempted_family_id: key,
                },
            ),
            ..st
        }
    } else {
        let f = st.fams[fi];
        let needs = f.delivery_email is None && rec.customer_email.len() > 0;
        let m = OrderMatchView {
            event_name: rec.event_name,
            event_id: rec.event_id,
            customer_name: rec.customer_name,
            customer_email: rec.customer_email,
            amount_text: rec.amount_text,
            family_id: f.id,
            existing_email: f.delivery_email,
            will_update_email: needs,
        };
        if !dry && needs {
            OrderSyncState {
                fams: st.fams.update(
                    fi,
                    FamilyView { delivery_email: Some(rec.customer_email), ..f },
                ),
                matched: st.matched.push(m),
                emails_updated: st.emails_updated + 1,
                ..st
            }
        } else {
            OrderSyncState { matched: st.matched.push(m), ..st }
        }
    }
}

pub open spec fn order_fold(st: OrderSyncState, recs: Seq<OrderRecView>, dry: bool) -> OrderSyncState
    decreases recs.len(),
{
    if recs.len() == 0 {
        st
    } else {
        order_fold(order_step(st, recs.first(), dry), recs.drop_first(), dry)
    }
}

/// The fold writes an email only where none was: a present delivery email
/// comes through every run untouched.
pub proof fn lemma_order_fold_preserves_emails(
    st: OrderSyncState,
    recs: Seq<OrderRecView>,
    dry: bool,
)
    ensures
        order_fold(st, recs, dry).fams.len() == st.fams.len(),
        forall|i: int|
            0 <= i < st.fams.len() ==> (#[trigger] order_fold(st, recs, dry).fams[i]).id
                == st.fams[i].id,
        forall|i: int|
            0 <= i < st.fams.len() && st.fams[i].delivery_email is Some ==> (
            #[trigger] order_fold(st, recs, dry).fams[i]).delivery_email
                == st.fams[i].delivery_email,
    decreases recs.len(),
{
    if recs.len() > 0 {
        let st1 = order_step(st, recs.first(), dry);
        crate::seqtools::lemma_first_where_props(
            st.fams,
            |f: FamilyView| f.id == sync_family_id(recs.first().event_name),
        );
        lemma_order_fold_preserves_emails(st1, recs.drop_first(), dry);
    }
}

impl PhotoMindServer {
    /// Runs the order sync over already-extracted entries.
    pub fn sync_orders_core(&mut self, records: &Vec<OrderRec>, dry_run: bool) -> (r:
        SyncOrdersReport)
        requires
            old(self).db.wf(),
        ensures
            final(self).db.wf(),
            final(self).cfg == old(self).cfg,
            final(self).db == (Store { families: final(self).db.families, ..old(self).db }),
            dry_run ==> *final(self) == *old(self),
            ({
                let before = old(self).db.families.deep_view();
                let after = final(self).db.families.deep_view();
                forall|i: int|
                    0 <= i < before.len() && before[i].delivery_email is Some ==> (
                    #[trigger] after[i]).delivery_email == before[i].delivery_email
            }),
            ({
                let end = order_fold(
                    order_sync_init(old(self).db.families.deep_view()),
                    records.deep_view(),
                    dry_run,
                );
                &&& final(self).db.families.deep_view() == end.fams
                &&& r.matched.deep_view() == end.matched
                &&& r.unmatched.deep_view() == end.unmatched
                &&& r.emails_updated == end.emails_updated
                &&& r.dry_run == dry_run
                &&& r.total_orders == records@.len()
            }),
    {
        let ghost recs = records.deep_view();
        let ghost st0 = order_sync_init(old(self).db.families.deep_view());
        let mut matched: Vec<OrderMatch> = Vec::new();
        let mut unmatched: Vec<OrderMiss> = Vec::new();
        let mut emails_updated: u64 = 0;
        let mut k: usize = 0;
        proof {
            assert(recs.skip(0) =~= recs);
            assert(matched.deep_view() =~= st0.matched);
            assert(unmatched.deep_view() =~= st0.unmatched);
        }
        while k < records.len()
            invariant
                k <= records@.len(),
                recs == records.deep_view(),
                st0 == order_sync_init(old(self).db.families.deep_view()),
                self.cfg == old(self).cfg,
                self.db == (Store { families: self.db.families, ..old(self).db }),
                dry_run ==> self.db.families == old(self).db.families,
                emails_updated <= k,
                self.db.families.deep_view().len() == old(self).db.families.deep_view().len(),
                forall|i: int|
                    0 <= i < old(self).db.families.deep_view().len() ==> (
                    #[trigger] self.db.families.deep_view()[i]).id == old(
                        self,
                    ).db.families.deep_view()[i].id,
                forall|i: int|
                    0 <= i < old(self).db.families.deep_view().len() && old(
                        self,
                    ).db.families.deep_view()[i].delivery_email is Some ==> (
                    #[trigger] self.db.families.deep_view()[i]).delivery_email == old(
                        self,
                    ).db.families.deep_view()[i].delivery_email,
                order_fold(st0, recs, dry_run) == order_fold(
                    OrderSyncState {
                        fams: self.db.families.deep_view(),
                        matched: matched.deep_view(),
                        unmatched: unmatched.deep_view(),
                        emails_updated: emails_updated as int,
                    },
                    recs.skip(k as int),
                    dry_run,
                ),
            decreases records@.len() - k,
        {
            let ghost cur = OrderSyncState {
                fams: self.db.families.deep_view(),
                matched: matched.deep_view(),
                unmatched: unmatched.deep_view(),
                emails_updated: emails_updated as int,
            };
            proof {
                assert(recs.skip(k as int).first() == recs[k as int]);
                assert(recs.skip(k as int).drop_first() =~= recs.skip(k as int + 1));
                assert(recs[k as int] == records@[k as int]@);
            }
            let rec = &records[k];
            let key = derive_family_id(rec.event_name.as_str());
            match find_family(&self.db.families, key.as_str()) {
                None => {
                    unmatched.push(
                        OrderMiss {
                            event_name: rec.event_name.clone(),
                            customer_name: rec.customer_name.clone(),
                            customer_email: rec.customer_email.clone(),
                            amount_text: rec.amount_text.clone(),
                            attempted_family_id: key,
                        },
                    );
                    proof {
                        assert(unmatched.deep_view() =~= cur.unmatched.push(
                            OrderMissView {
                                event_name: recs[k as int].event_name,
                                customer_name: recs[k as int].customer_name,
                                customer_email: recs[k as int].customer_email,
                                amount_text: recs[k as int].amount_text,
                                attempted_family_id: sync_family_id(recs[k as int].event_name),
                            },
                        ));
                        assert(OrderSyncState {
                            fams: self.db.families.deep_view(),
                            matched: matched.deep_view(),
                            unmatched: unmatched.deep_view(),
                            emails_updated: emails_updated as int,
                        } == order_step(cur, recs[k as int], dry_run));
                    }
                },
                Some(fi) => {
                    proof {
                        crate::seqtools::lemma_first_where_props(
                            self.db.families.deep_view(),
                            |f: FamilyView| f.id == key@,
                        );
                        assert(self.db.families.deep_view()[fi as int] == self.db.families@[
                            fi as int]@);
                    }
                    let f = &self.db.families[fi];
                    let email_missing = f.delivery_email.is_none();
                    let email_nonempty = rec.customer_email.as_str().unicode_len() > 0;
                    let needs = email_missing && email_nonempty;
                    let m = OrderMatch {
                        event_name: rec.event_name.clone(),
                        event_id: rec.event_id,
                        customer_name: rec.customer_name.clone(),
                        customer_email: rec.customer_email.clone(),
                        amount_text: rec.amount_text.clone(),
                        family_id: f.id.clone(),
                        existing_email: crate::models::clone_opt_string(&f.delivery_email),
                        will_update_email: needs,
                    };
                    matched.push(m);
                    proof {
                        assert(matched.deep_view() =~= cur.matched.push(
                            OrderMatchView {
                                event_name: recs[k as int].event_name,
                                event_id: recs[k as int].event_id,
                                customer_name: recs[k as int].customer_name,
                                customer_email: recs[k as int].customer_email,
                                amount_text: recs[k as int].amount_text,
                                family_id: cur.fams[fi as int].id,
                                existing_email: cur.fams[fi as int].delivery_email,
                                will_update_email: cur.fams[fi as int].delivery_email is None
                                    && recs[k as int].customer_email.len() > 0,
                            },
                        ));
                    }
                    if !dry_run && needs {
                        let dup = self.db.families[fi].duplicate();
                        let updated_row = FamilyRec {
                            delivery_email: Some(rec.customer_email.clone()),
                            id: dup.id,
                            name: dup.name,
                            first_name: dup.first_name,
                            last_name: dup.last_name,
                            notes: dup.notes,
                            shootproof_gallery_id: dup.shootproof_gallery_id,
                            shootproof_url: dup.shootproof_url,
                            created_at: dup.created_at,
                        };
                        self.db.families.set(fi, updated_row);
                        emails_updated = emails_updated + 1;
                        proof {
                            assert(self.db.families.deep_view() =~= cur.fams.update(
                                fi as int,
                                FamilyView {
                                    delivery_email: Some(recs[k as int].customer_email),
                                    ..cur.fams[fi as int]
                                },
                            ));
                        }
                    }
                    proof {
                        assert(OrderSyncState {
                            fams: self.db.families.deep_view(),
                            matched: matched.deep_view(),
                            unmatched: unmatched.deep_view(),
                            emails_updated: emails_updated as int,
                        } == order_step(cur, recs[k as int], dry_run));
                    }
                },
            }
            k = k + 1;
        }
        proof {
            assert(recs.skip(records@.len() as int).len() == 0);
            assert forall|a: int, b: int|
                #![trigger self.db.families@[a], self.db.families@[b]]
                0 <= a < b < self.db.families@.len() implies self.db.families@[a].id@ != self
                .db.families@[b].id@ by {
                assert(self.db.families.deep_view()[a] == self.db.families@[a]@);
                assert(self.db.families.deep_view()[b] == self.db.families@[b]@);
                assert(old(self).db.families.deep_view()[a] == old(self).db.families@[a]@);
                assert(old(self).db.families.deep_view()[b] == old(self).db.families@[b]@);
            }
        }
        let total = records.len();
        SyncOrdersReport {
            dry_run,
            total_orders: total,
            matched,
            unmatched,
            emails_updated,
        }
    }
}

/// Everything the gallery sync promises, branch by branch: the missing
/// parameter, the unreadable file, the two parse refusals — each leaving
/// the state untouched — and otherwise the fold over the text's entries.
pub open spec fn sync_galleries_post(
    pre: PhotoMindServer,
    post: PhotoMindServer,
    req: Seq<(String, ArgValue)>,
    file: FileLoad,
    r: Result<SyncGalleriesReport, ToolError>,
) -> bool {
    let jp = arg_str(req, "json_path"@);
    let dry = match arg_flag(req, "dry_run"@) {
        Some(b) => b,
        None => false,
    };
    &&& post.db == (Store { families: post.db.families, ..pre.db })
    &&& if jp is None {
        is_missing_param(r, "json_path"@) && post == pre
    } else {
        match file {
            FileLoad::Failed(msg) => (r matches Err(ToolError::Internal(m)) && m@
                == "Failed to read file "@ + jp.unwrap() + ": "@ + msg@) && post == pre,
            FileLoad::Loaded(content) => {
                if json_syntax_error(content@) is Some {
                    (r matches Err(ToolError::InvalidParams(m)) && m@
                        == "Failed to parse JSON: "@ + json_syntax_error(content@).unwrap())
                        && post == pre
                } else if galleries_of(content@) is None {
                    (r matches Err(ToolError::InvalidParams(m)) && m@
                        == "Expected 'galleries' array in JSON"@) && post == pre
                } else {
                    let gs = galleries_of(content@).unwrap();
                    let end = gallery_fold(
                        gallery_sync_init(pre.db.families.deep_view()),
                        gs,
                        dry,
                    );
                    r matches Ok(rep) && {
                        &&& post.db.families.deep_view() == end.fams
                        &&& rep.matched.deep_view() == end.matched
                        &&& rep.unmatched.deep_view() == end.unmatched
                        &&& rep.updated == end.updated
                        &&& rep.dry_run == dry
                        &&& rep.total_galleries == gs.len()
                        &&& (dry ==> post == pre)
                    }
                }
            },
        }
    }
}

/// Everything the order sync promises, in the same shape.
pub open spec fn sync_orders_post(
    pre: PhotoMindServer,
    post: PhotoMindServer,
    req: Seq<(String, ArgValue)>,
    file: FileLoad,
    r: Result<SyncOrdersReport, ToolError>,
) -> bool {
    let jp = arg_str(req, "json_path"@);
    let dry = match arg_flag(req, "dry_run"@) {
        Some(b) => b,
        None => false,
    };
    &&& post.db == (Store { families: post.db.families, ..pre.db })
    &&& if jp is None {
        is_missing_param(r, "json_path"@) && post == pre
    } else {
        match file {
            FileLoad::Failed(msg) => (r matches Err(ToolError::Internal(m)) && m@
                == "Failed to read file "@ + jp.unwrap() + ": "@ + msg@) && post == pre,
            FileLoad::Loaded(content) => {
                if json_syntax_error(content@) is Some {
                    (r matches Err(ToolError::InvalidParams(m)) && m@
                        == "Failed to parse JSON: "@ + json_syntax_error(content@).unwrap())
                        && post == pre
                } else if orders_of(content@) is None {
                    (r matches Err(ToolError::InvalidParams(m)) && m@
                        == "Expected 'orders' array in JSON"@) && post == pre
                } else {
                    let os = orders_of(content@).unwrap();
                    let end = order_fold(order_sync_init(pre.db.families.deep_view()), os, dry);
                    r matches Ok(rep) && {
                        &&& post.db.families.deep_view() == end.fams
                        &&& rep.matched.deep_view() == end.matched
                        &&& rep.unmatched.deep_view() == end.unmatched
                        &&& rep.emails_updated == end.emails_updated
                        &&& rep.dry_run == dry
                        &&& rep.total_orders == os.len()
                        &&& (dry ==> post == pre)
                    }
                }
            },
        }
    }
}

impl PhotoMindServer {
    /// Imports a gallery export: every entry of the file is matched to a
    /// family by the last token of its name, and — outside a dry run — a
    /// family without a gallery id takes the entry's id and url.
    pub fn handle_sync_shootproof_galleries(&mut self, args: &Args, file: &FileLoad) -> (r: Result<
        SyncGalleriesReport,
        ToolError,
    >)
        requires
            old(self).db.wf(),
        ensures
            final(self).db.wf(),
            final(self).cfg == old(self).cfg,
            sync_galleries_post(*old(self), *final(self), args.entries@, *file, r),
    {
        let jp = match args.get_str("json_path") {
            Some(s) => s.clone(),
            None => {
                return Err(ToolError::InvalidParams(missing_param("json_path")));
            },
        };
        let dry = match args.get_flag("dry_run") {
            Some(b) => b,
            None => false,
        };
        let content = match file {
            FileLoad::Loaded(c) => c,
            FileLoad::Failed(msg) => {
                return Err(
                    ToolError::Internal(
                        concat4("Failed to read file ", jp.as_str(), ": ", msg.as_str()),
                    ),
                );
            },
        };
        match parse_galleries(content.as_str()) {
            GalleriesDoc::Syntax(m) => Err(
                ToolError::InvalidParams(concat2("Failed to parse JSON: ", m.as_str())),
            ),
            GalleriesDoc::NoArray => Err(
                ToolError::InvalidParams(String::from_str("Expected 'galleries' array in JSON")),
            ),
            GalleriesDoc::Entries(entries) => {
                proof {
                    assert(galleries_of(content@).unwrap() == entries.deep_view());
                }
                let report = self.sync_galleries_core(&entries, dry);
                Ok(report)
            },
        }
    }

    /// Imports an order export: every order of the file is matched to a
    /// family by the last token of its event name, and — outside a dry run
    /// — a family without a delivery email takes the order's non-empty
    /// customer email.
    pub fn handle_sync_shootproof_orders(&mut self, args: &Args, file: &FileLoad) -> (r: Result<
        SyncOrdersReport,
        ToolError,
    >)
        requires
            old(self).db.wf(),
        ensures
            final(self).db.wf(),
            final(self).cfg == old(self).cfg,
            ({
                let before = old(self).db.families.deep_view();
                let after = final(self).db.families.deep_view();
                forall|i: int|
                    0 <= i < before.len() && before[i].delivery_email is Some ==> (
                    #[trigger] after[i]).delivery_email == before[i].delivery_email
            }),
            sync_orders_post(*old(self), *final(self), args.entries@, *file, r),
    {
        let jp = match args.get_str("json_path") {
            Some(s) => s.clone(),
            None => {
                return Err(ToolError::InvalidParams(missing_param("json_path")));
            },
        };
        let dry = match args.get_flag("dry_run") {
            Some(b) => b,
            None => false,
        };
        let content = match file {
            FileLoad::Loaded(c) => c,
            FileLoad::Failed(msg) => {
                return Err(
                    ToolError::Internal(
                        concat4("Failed to read file ", jp.as_str(), ": ", msg.as_str()),
                    ),
                );
            },
        };
        match parse_orders(content.as_str()) {
            OrdersDoc::Syntax(m) => Err(
                ToolError::InvalidParams(concat2("Failed to parse JSON: ", m.as_str())),
            ),
            OrdersDoc::NoArray => Err(
                ToolError::InvalidParams(String::from_str("Expected 'orders' array in JSON")),
            ),
            OrdersDoc::Entries(entries) => {
                proof {
                    assert(orders_of(content@).unwrap() == entries.deep_view());
                }
                let report = self.sync_orders_core(&entries, dry);
                Ok(report)
            },
        }
    }
}

} // verus!
