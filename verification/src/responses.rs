use vstd::prelude::*;
use crate::models::Shoot;

verus! {

/// A protocol-level failure of one tool invocation. Domain refusals are not
/// errors: they come back as ordinary responses with their `success` or
/// `found` flag cleared.
#[derive(Clone, Debug, PartialEq)]
pub enum ToolError {
    /// An argument was missing or of the wrong type, or a supplied file did
    /// not parse.
    InvalidParams(String),
    /// Infrastructure failed underneath the handler.
    Internal(String),
}

/// The liveness report.
#[derive(Clone, Debug, PartialEq)]
pub struct HealthResponse {
    pub db: bool,
    pub namespace: String,
    pub database: String,
}

/// Row counts of the seven key tables.
#[derive(Clone, Debug, PartialEq)]
pub struct StatusResponse {
    pub family: u64,
    pub skater: u64,
    pub competition: u64,
    pub event: u64,
    pub family_competition: u64,
    pub shoot: u64,
    pub family_shoot: u64,
}

/// One skater in a search or membership listing.
#[derive(Clone, Debug, PartialEq)]
pub struct SkaterOut {
    pub id: String,
    pub name: String,
    pub first_name: String,
    pub last_name: String,
}

#[derive(Clone, Debug, PartialEq)]
pub enum FindSkaterResponse {
    NotFound { message: String },
    Found { count: usize, skaters: Vec<SkaterOut> },
}

/// The family block of a family lookup.
#[derive(Clone, Debug, PartialEq)]
pub struct FamilySummary {
    pub id: String,
    pub name: String,
    pub email: Option<String>,
}

#[derive(Clone, Debug, PartialEq)]
pub enum GetFamilyResponse {
    NotFound { message: String },
    Found { family: FamilySummary, skaters: Vec<SkaterOut>, skater_count: usize },
}

#[derive(Clone, Debug, PartialEq)]
pub enum ContactResponse {
    NotFound { message: String },
    Found { family_id: String, family: String, email: Option<String> },
}

/// Outcome of marking a gallery sent, for either target kind.
#[derive(Clone, Debug, PartialEq)]
pub enum MarkSentResponse {
    NoFamily { message: String },
    NoTarget { message: String },
    NoEdge { message: String, family_id: String, target_id: String },
    Sent { message: String, family_id: String, target_id: String },
}

/// One row of a pending-galleries listing.
#[derive(Clone, Debug, PartialEq)]
pub struct PendingRow {
    pub family: Option<String>,
    pub email: Option<String>,
    pub gallery_status: String,
}

/// The abstract shape of a pending-galleries row.
pub struct PendingView {
    pub family: Option<Seq<char>>,
    pub email: Option<Seq<char>>,
    pub gallery_status: Seq<char>,
}

impl View for PendingRow {
    type V = PendingView;

    open spec fn view(&self) -> PendingView {
        PendingView {
            family: self.family.deep_view(),
            email: self.email.deep_view(),
            gallery_status: self.gallery_status@,
        }
    }
}

impl DeepView for PendingRow {
    type V = PendingView;

    open spec fn deep_view(&self) -> PendingView {
        self.view()
    }
}

#[derive(Clone, Debug, PartialEq)]
pub struct PendingListResponse {
    pub subject: String,
    pub pending_count: usize,
    pub families: Vec<PendingRow>,
}

/// A status-breakdown bucket: a gallery status and how many edges hold it.
#[derive(Clone, Debug, PartialEq)]
pub struct StatusBucket {
    pub status: String,
    pub count: u64,
}

#[derive(Clone, Debug, PartialEq)]
pub struct CompetitionStatusResponse {
    pub competition: String,
    pub total_families: u64,
    pub status_breakdown: Vec<StatusBucket>,
}

#[derive(Clone, Debug, PartialEq)]
pub struct ShootStatusResponse {
    pub shoot: String,
    pub total_families: u64,
    pub status_breakdown: Vec<StatusBucket>,
    pub total_revenue_cents: i128,
}

#[derive(Clone, Debug, PartialEq)]
pub struct CreateShootResponse {
    pub shoot_id: String,
    pub name: String,
    pub shoot_type: String,
}

/// One row of the shoot listing.
#[derive(Clone, Debug, PartialEq)]
pub struct ShootOut {
    pub id: String,
    pub name: String,
    pub shoot_type: String,
    pub shoot_date: Option<String>,
    pub location: Option<String>,
}

#[derive(Clone, Debug, PartialEq)]
pub struct ListShootsResponse {
    pub count: usize,
    pub shoots: Vec<ShootOut>,
}

#[derive(Clone, Debug, PartialEq)]
pub enum GetShootResponse {
    NotFound { message: String },
    Found { shoot: Shoot, family_count: u64 },
}

/// One row of the family listing.
#[derive(Clone, Debug, PartialEq)]
pub struct FamilyListRow {
    pub id: String,
    pub name: String,
    pub email: Option<String>,
}

#[derive(Clone, Debug, PartialEq)]
pub struct ListFamiliesResponse {
    pub count: usize,
    pub search: Option<String>,
    pub families: Vec<FamilyListRow>,
}

#[derive(Clone, Debug, PartialEq)]
pub struct CreateFamilyResponse {
    pub family_id: String,
    pub name: String,
    pub last_name: String,
    pub email: String,
}

#[derive(Clone, Debug, PartialEq)]
pub enum LinkResponse {
    NoFamily { message: String },
    NoShoot { message: String },
    AlreadyLinked { message: String, family_id: String, shoot_id: String, existing_edge_id: String },
    Linked { message: String, family_id: String, shoot_id: String },
}

#[derive(Clone, Debug, PartialEq)]
pub enum RecordPurchaseResponse {
    NoFamily { message: String },
    NoShoot { message: String },
    Recorded { message: String },
}

/// One matched gallery of a gallery sync run.
#[derive(Clone, Debug, PartialEq)]
pub struct GalleryMatch {
    pub gallery_name: String,
    pub gallery_id: i64,
    pub family_id: String,
    pub family_name: Option<String>,
    pub existing_sp_id: Option<i64>,
    pub url: String,
}

pub struct GalleryMatchView {
    pub gallery_name: Seq<char>,
    pub gallery_id: i64,
    pub family_id: Seq<char>,
    pub family_name: Option<Seq<char>>,
    pub existing_sp_id: Option<i64>,
    pub url: Seq<char>,
}

impl View for GalleryMatch {
    type V = GalleryMatchView;

    open spec fn view(&self) -> GalleryMatchView {
        GalleryMatchView {
            gallery_name: self.gallery_name@,
            gallery_id: self.gallery_id,
            family_id: self.family_id@,
            family_name: self.family_name.deep_view(),
            existing_sp_id: self.existing_sp_id,
            url: self.url@,
        }
    }
}

impl DeepView for GalleryMatch {
    type V = GalleryMatchView;

    open spec fn deep_view(&self) -> GalleryMatchView {
        self.view()
    }
}

/// One gallery that matched no family.
#[derive(Clone, Debug, PartialEq)]
pub struct GalleryMiss {
    pub gallery_name: String,
    pub gallery_id: i64,
    pub attempted_family_id: String,
}

pub struct GalleryMissView {
    pub gallery_name: Seq<char>,
    pub gallery_id: i64,
    pub attempted_family_id: Seq<char>,
}

impl View for GalleryMiss {
    type V = GalleryMissView;

    open spec fn view(&self) -> GalleryMissView {
        GalleryMissView {
            gallery_name: self.gallery_name@,
            gallery_id: self.gallery_id,
            attempted_family_id: self.attempted_family_id@,
        }
    }
}

impl DeepView for GalleryMiss {
    type V = GalleryMissView;

    open spec fn deep_view(&self) -> GalleryMissView {
        self.view()
    }
}

#[derive(Clone, Debug, PartialEq)]
pub struct SyncGalleriesReport {
    pub dry_run: bool,
    pub total_galleries: usize,
    pub matched: Vec<GalleryMatch>,
    pub unmatched: Vec<GalleryMiss>,
    pub updated: u64,
}

/// One matched order of an order sync run; the amount is carried as the
/// number's own text.
#[derive(Clone, Debug, PartialEq)]
pub struct OrderMatch {
    pub event_name: String,
    pub event_id: i64,
    pub customer_name: String,
    pub customer_email: String,
    pub amount_text: String,
    pub family_id: String,
    pub existing_email: Option<String>,
    pub will_update_email: bool,
}

pub struct OrderMatchView {
    pub event_name: Seq<char>,
    pub event_id: i64,
    pub customer_name: Seq<char>,
    pub customer_email: Seq<char>,
    pub amount_text: Seq<char>,
    pub family_id: Seq<char>,
    pub existing_email: Option<Seq<char>>,
    pub will_update_email: bool,
}

impl View for OrderMatch {
    type V = OrderMatchView;

    open spec fn view(&self) -> OrderMatchView {
        OrderMatchView {
            event_name: self.event_name@,
            event_id: self.event_id,
            customer_name: self.customer_name@,
            customer_email: self.customer_email@,
            amount_text: self.amount_text@,
            family_id: self.family_id@,
            existing_email: self.existing_email.deep_view(),
            will_update_email: self.will_update_email,
        }
    }
}

impl DeepView for OrderMatch {
    type V = OrderMatchView;

    open spec fn deep_view(&self) -> OrderMatchView {
        self.view()
    }
}

/// One order that matched no family.
#[derive(Clone, Debug, PartialEq)]
pub struct OrderMiss {
    pub event_name: String,
    pub customer_name: String,
    pub customer_email: String,
    pub amount_text: String,
    pub attempted_family_id: String,
}

pub struct OrderMissView {
    pub event_name: Seq<char>,
    pub customer_name: Seq<char>,
    pub customer_email: Seq<char>,
    pub amount_text: Seq<char>,
    pub attempted_family_id: Seq<char>,
}

impl View for OrderMiss {
    type V = OrderMissView;

    open spec fn view(&self) -> OrderMissView {
        OrderMissView {
            event_name: self.event_name@,
            customer_name: self.customer_name@,
            customer_email: self.customer_email@,
            amount_text: self.amount_text@,
            attempted_family_id: self.attempted_family_id@,
        }
    }
}

impl DeepView for OrderMiss {
    type V = OrderMissView;

    open spec fn deep_view(&self) -> OrderMissView {
        self.view()
    }
}

#[derive(Clone, Debug, PartialEq)]
pub struct SyncOrdersReport {
    pub dry_run: bool,
    pub total_orders: usize,
    pub matched: Vec<OrderMatch>,
    pub unmatched: Vec<OrderMiss>,
    pub emails_updated: u64,
}

} // verus!
