use vstd::prelude::*;

verus! {

// ---------------------------------------------------------------------------
// Store records. The server's state lives in an external database; these
// records model the row shapes the operations read and write. Record ids are
// plain strings ("family:knox", "shoot:3"); timestamps are ticks of an
// abstract clock that stands in for the database's wall clock.
// ---------------------------------------------------------------------------
/// A family: the client record addressed by its deterministic id.
#[derive(Clone, Debug, PartialEq)]
pub struct FamilyRec {
    pub id: String,
    pub name: Option<String>,
    pub first_name: Option<String>,
    pub last_name: Option<String>,
    pub delivery_email: Option<String>,
    pub notes: Option<String>,
    pub shootproof_gallery_id: Option<i64>,
    pub shootproof_url: Option<String>,
    pub created_at: u64,
}

pub struct FamilyView {
    pub id: Seq<char>,
    pub name: Option<Seq<char>>,
    pub first_name: Option<Seq<char>>,
    pub last_name: Option<Seq<char>>,
    pub delivery_email: Option<Seq<char>>,
    pub notes: Option<Seq<char>>,
    pub shootproof_gallery_id: Option<i64>,
    pub shootproof_url: Option<Seq<char>>,
    pub created_at: u64,
}

impl View for FamilyRec {
    type V = FamilyView;

    open spec fn view(&self) -> FamilyView {
        FamilyView {
            id: self.id@,
            name: self.name.deep_view(),
            first_name: self.first_name.deep_view(),
            last_name: self.last_name.deep_view(),
            delivery_email: self.delivery_email.deep_view(),
            notes: self.notes.deep_view(),
            shootproof_gallery_id: self.shootproof_gallery_id,
            shootproof_url: self.shootproof_url.deep_view(),
            created_at: self.created_at,
        }
    }
}

impl DeepView for FamilyRec {
    type V = FamilyView;

    open spec fn deep_view(&self) -> FamilyView {
        self.view()
    }
}

/// A skater row, as read by the search and family-membership queries.
#[derive(Clone, Debug, PartialEq)]
pub struct SkaterRec {
    pub id: String,
    pub first_name: String,
    pub last_name: String,
}

pub struct SkaterView {
    pub id: Seq<char>,
    pub first_name: Seq<char>,
    pub last_name: Seq<char>,
}

impl View for SkaterRec {
    type V = SkaterView;

    open spec fn view(&self) -> SkaterView {
        SkaterView { id: self.id@, first_name: self.first_name@, last_name: self.last_name@ }
    }
}

impl DeepView for SkaterRec {
    type V = SkaterView;

    open spec fn deep_view(&self) -> SkaterView {
        self.view()
    }
}

/// A competition.
#[derive(Clone, Debug, PartialEq)]
pub struct CompetitionRec {
    pub id: String,
    pub name: String,
}

pub struct CompetitionView {
    pub id: Seq<char>,
    pub name: Seq<char>,
}

impl View for CompetitionRec {
    type V = CompetitionView;

    open spec fn view(&self) -> CompetitionView {
        CompetitionView { id: self.id@, name: self.name@ }
    }
}

impl DeepView for CompetitionRec {
    type V = CompetitionView;

    open spec fn deep_view(&self) -> CompetitionView {
        self.view()
    }
}

/// A shoot.
#[derive(Clone, Debug, PartialEq)]
pub struct Shoot {
    pub id: String,
    pub name: String,
    pub shoot_type: String,
    pub shoot_date: Option<String>,
    pub location: Option<String>,
    pub notes: Option<String>,
}

pub struct ShootView {
    pub id: Seq<char>,
    pub name: Seq<char>,
    pub shoot_type: Seq<char>,
    pub shoot_date: Option<Seq<char>>,
    pub location: Option<Seq<char>>,
    pub notes: Option<Seq<char>>,
}

impl View for Shoot {
    type V = ShootView;

    open spec fn view(&self) -> ShootView {
        ShootView {
            id: self.id@,
            name: self.name@,
            shoot_type: self.shoot_type@,
            shoot_date: self.shoot_date.deep_view(),
            location: self.location.deep_view(),
            notes: self.notes.deep_view(),
        }
    }
}

impl DeepView for Shoot {
    type V = ShootView;

    open spec fn deep_view(&self) -> ShootView {
        self.view()
    }
}

/// A family-to-shoot edge, carrying the gallery-delivery state and any
/// recorded purchase (an amount in cents).
#[derive(Clone, Debug, PartialEq)]
pub struct FamilyShoot {
    pub id: String,
    pub family: String,
    pub out: String,
    pub gallery_status: String,
    pub sent_date: Option<u64>,
    pub purchase_amount: Option<i64>,
    pub purchase_date: Option<u64>,
    pub created_at: u64,
}

pub struct FamilyShootView {
    pub id: Seq<char>,
    pub family: Seq<char>,
    pub out: Seq<char>,
    pub gallery_status: Seq<char>,
    pub sent_date: Option<u64>,
    pub purchase_amount: Option<i64>,
    pub purchase_date: Option<u64>,
    pub created_at: u64,
}

impl View for FamilyShoot {
    type V = FamilyShootView;

    open spec fn view(&self) -> FamilyShootView {
        FamilyShootView {
            id: self.id@,
            family: self.family@,
            out: self.out@,
            gallery_status: self.gallery_status@,
            sent_date: self.sent_date,
            purchase_amount: self.purchase_amount,
            purchase_date: self.purchase_date,
            created_at: self.created_at,
        }
    }
}

impl DeepView for FamilyShoot {
    type V = FamilyShootView;

    open spec fn deep_view(&self) -> FamilyShootView {
        self.view()
    }
}

/// A family-to-competition edge.
#[derive(Clone, Debug, PartialEq)]
pub struct FamilyCompetition {
    pub id: String,
    pub family: String,
    pub out: String,
    pub gallery_status: Option<String>,
    pub sent_date: Option<u64>,
}

pub struct FamilyCompetitionView {
    pub id: Seq<char>,
    pub family: Seq<char>,
    pub out: Seq<char>,
    pub gallery_status: Option<Seq<char>>,
    pub sent_date: Option<u64>,
}

impl View for FamilyCompetition {
    type V = FamilyCompetitionView;

    open spec fn view(&self) -> FamilyCompetitionView {
        FamilyCompetitionView {
            id: self.id@,
            family: self.family@,
            out: self.out@,
            gallery_status: self.gallery_status.deep_view(),
            sent_date: self.sent_date,
        }
    }
}

impl DeepView for FamilyCompetition {
    type V = FamilyCompetitionView;

    open spec fn deep_view(&self) -> FamilyCompetitionView {
        self.view()
    }
}

/// A skater-to-family membership edge.
#[derive(Clone, Debug, PartialEq)]
pub struct BelongsRec {
    pub skater_id: String,
    pub family_id: String,
}

pub struct BelongsView {
    pub skater_id: Seq<char>,
    pub family_id: Seq<char>,
}

impl View for BelongsRec {
    type V = BelongsView;

    open spec fn view(&self) -> BelongsView {
        BelongsView { skater_id: self.skater_id@, family_id: self.family_id@ }
    }
}

impl DeepView for BelongsRec {
    type V = BelongsView;

    open spec fn deep_view(&self) -> BelongsView {
        self.view()
    }
}

/// Copies an optional string, value for value.
pub fn clone_opt_string(o: &Option<String>) -> (r: Option<String>)
    ensures
        r == *o,
{
    match o {
        Some(s) => Some(s.clone()),
        None => None,
    }
}

impl FamilyRec {
    pub fn duplicate(&self) -> (r: FamilyRec)
        ensures
            r == *self,
    {
        FamilyRec {
            id: self.id.clone(),
            name: clone_opt_string(&self.name),
            first_name: clone_opt_string(&self.first_name),
            last_name: clone_opt_string(&self.last_name),
            delivery_email: clone_opt_string(&self.delivery_email),
            notes: clone_opt_string(&self.notes),
            shootproof_gallery_id: self.shootproof_gallery_id,
            shootproof_url: clone_opt_string(&self.shootproof_url),
            created_at: self.created_at,
        }
    }
}

impl SkaterRec {
    pub fn duplicate(&self) -> (r: SkaterRec)
        ensures
            r == *self,
    {
        SkaterRec {
            id: self.id.clone(),
            first_name: self.first_name.clone(),
            last_name: self.last_name.clone(),
        }
    }
}

impl Shoot {
    pub fn duplicate(&self) -> (r: Shoot)
        ensures
            r == *self,
    {
        Shoot {
            id: self.id.clone(),
            name: self.name.clone(),
            shoot_type: self.shoot_type.clone(),
            shoot_date: clone_opt_string(&self.shoot_date),
            location: clone_opt_string(&self.location),
            notes: clone_opt_string(&self.notes),
        }
    }
}

impl FamilyShoot {
    pub fn duplicate(&self) -> (r: FamilyShoot)
        ensures
            r == *self,
    {
        FamilyShoot {
            id: self.id.clone(),
            family: self.family.clone(),
            out: self.out.clone(),
            gallery_status: self.gallery_status.clone(),
            sent_date: self.sent_date,
            purchase_amount: self.purchase_amount,
            purchase_date: self.purchase_date,
            created_at: self.created_at,
        }
    }
}

impl FamilyCompetition {
    pub fn duplicate(&self) -> (r: FamilyCompetition)
        ensures
            r == *self,
    {
        FamilyCompetition {
            id: self.id.clone(),
            family: self.family.clone(),
            out: self.out.clone(),
            gallery_status: clone_opt_string(&self.gallery_status),
            sent_date: self.sent_date,
        }
    }
}

// ---------------------------------------------------------------------------
// Row shapes shared with other front ends of the same data set.
// ---------------------------------------------------------------------------
/// A skater-to-competition edge with its delivery state.
#[derive(Clone, Debug, PartialEq)]
pub struct ShotIn {
    pub id: String,
    pub skater: String,
    pub out: String,
    pub gallery_status: String,
    pub gallery_url: Option<String>,
}

/// A flattened per-skater report row; the purchase amount is in cents.
#[derive(Clone, Debug, PartialEq)]
pub struct SkaterRow {
    pub first_name: String,
    pub last_name: String,
    pub comp_name: Option<String>,
    pub event_num: Option<i32>,
    pub split_ice: Option<String>,
    pub time_slot: Option<String>,
    pub req_status: Option<String>,
    pub gal_status: Option<String>,
    pub sent_date: Option<String>,
    pub purchase_amount: Option<i64>,
}

/// A per-family delivery report row.
#[derive(Clone, Debug, PartialEq)]
pub struct StatusRow {
    pub family_name: String,
    pub email: Option<String>,
    pub request_status: Option<String>,
    pub gallery_status: Option<String>,
    pub sent_date: Option<String>,
    pub ty_requested: Option<bool>,
    pub ty_sent: Option<bool>,
    pub ty_sent_date: Option<String>,
}

/// A family as listed by search endpoints.
#[derive(Clone, Debug, PartialEq)]
pub struct Family {
    pub id: String,
    pub last_name: String,
    pub email: Option<String>,
}

/// One line of an imported competition roster.
#[derive(Clone, Debug, PartialEq)]
pub struct RosterRow {
    pub time: Option<String>,
    pub event: u32,
    pub split_ice: Option<String>,
    pub skate_order: Option<u32>,
    pub skater_name: String,
    pub signup: Option<String>,
    pub email: Option<String>,
}

/// A skater parsed out of a roster name cell.
#[derive(Clone, Debug, PartialEq)]
pub struct ParsedSkater {
    pub first_name: String,
    pub last_name: String,
    pub family_email: Option<String>,
}

/// The skaters named by one roster cell, with its shape flags.
#[derive(Clone, Debug, PartialEq)]
pub struct ParsedName {
    pub skaters: Vec<ParsedSkater>,
    pub is_family: bool,
    pub is_synchro: bool,
}

} // verus!
