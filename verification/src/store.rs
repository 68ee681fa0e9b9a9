use vstd::prelude::*;
use crate::models::{
    BelongsRec, CompetitionRec, CompetitionView, FamilyCompetition, FamilyCompetitionView,
    FamilyRec, FamilyShoot, FamilyShootView, FamilyView, SkaterRec, SkaterView, Shoot, ShootView,
};
use crate::seqtools::{first_where, lemma_first_where_at, lemma_first_where_none};
use crate::text::{ci_contains, ci_contains_exec, str_eq};

verus! {

// ---------------------------------------------------------------------------
// The store models the contents of the external database: one vector per
// table, an abstract clock standing in for the database's wall clock, and a
// counter from which database-assigned record ids are drawn. Contracts are
// stated over the tables' views (`deep_view()`), sequences of abstract
// records.
// ---------------------------------------------------------------------------
pub struct Store {
    pub families: Vec<FamilyRec>,
    pub skaters: Vec<SkaterRec>,
    pub competitions: Vec<CompetitionRec>,
    pub shoots: Vec<Shoot>,
    pub family_competitions: Vec<FamilyCompetition>,
    pub family_shoots: Vec<FamilyShoot>,
    pub belongs_to: Vec<BelongsRec>,
    pub event_count: u64,
    pub clock: u64,
    pub next_id: u64,
}

/// Index of the family with the given deterministic id, or -1. Family ids
/// are unique, so the first match is the only one.
pub open spec fn family_index(fams: Seq<FamilyView>, id: Seq<char>) -> int {
    first_where(fams, |f: FamilyView| f.id == id)
}

/// Index of the skater with the given record id, or -1.
pub open spec fn skater_index(sk: Seq<SkaterView>, id: Seq<char>) -> int {
    first_where(sk, |s: SkaterView| s.id == id)
}

/// Index of the shoot with the given record id, or -1.
pub open spec fn shoot_index(sh: Seq<ShootView>, id: Seq<char>) -> int {
    first_where(sh, |s: ShootView| s.id == id)
}

/// Index of the first shoot whose name contains the fragment
/// case-insensitively, or -1; ties go to table order.
pub open spec fn shoot_match_index(sh: Seq<ShootView>, frag: Seq<char>) -> int {
    first_where(sh, |s: ShootView| ci_contains(s.name, frag))
}

/// Index of the first competition whose name contains the fragment
/// case-insensitively, or -1.
pub open spec fn competition_match_index(cs: Seq<CompetitionView>, frag: Seq<char>) -> int {
    first_where(cs, |c: CompetitionView| ci_contains(c.name, frag))
}

/// Index of the first family-to-shoot edge joining the two records, or -1.
pub open spec fn fs_edge_index(es: Seq<FamilyShootView>, fid: Seq<char>, tid: Seq<char>) -> int {
    first_where(es, |e: FamilyShootView| e.family == fid && e.out == tid)
}

/// Index of the first family-to-competition edge joining the two records,
/// or -1.
pub open spec fn fc_edge_index(
    es: Seq<FamilyCompetitionView>,
    fid: Seq<char>,
    tid: Seq<char>,
) -> int {
    first_where(es, |e: FamilyCompetitionView| e.family == fid && e.out == tid)
}

impl Store {
    /// Well-formedness: the deterministic-id rule keeps family ids unique.
    pub open spec fn wf(self) -> bool {
        forall|i: int, j: int|
            #![trigger self.families@[i], self.families@[j]]
            0 <= i < j < self.families@.len() ==> self.families@[i].id@ != self.families@[j].id@
    }

    pub fn new() -> (r: Store)
        ensures
            r.wf(),
            r.families@.len() == 0,
            r.skaters@.len() == 0,
            r.competitions@.len() == 0,
            r.shoots@.len() == 0,
            r.family_competitions@.len() == 0,
            r.family_shoots@.len() == 0,
            r.belongs_to@.len() == 0,
            r.event_count == 0,
            r.clock == 0,
            r.next_id == 1,
    {
        Store {
            families: Vec::new(),
            skaters: Vec::new(),
            competitions: Vec::new(),
            shoots: Vec::new(),
            family_competitions: Vec::new(),
            family_shoots: Vec::new(),
            belongs_to: Vec::new(),
            event_count: 0,
            clock: 0,
            next_id: 1,
        }
    }

    /// Seeds a family row, as records created outside these operations are.
    pub fn add_family(&mut self, rec: FamilyRec)
        requires
            old(self).wf(),
            family_index(old(self).families.deep_view(), rec.id@) == -1,
        ensures
            final(self).wf(),
            *final(self) == (Store { families: final(self).families, ..*old(self) }),
            final(self).families@ == old(self).families@.push(rec),
    {
        proof {
            crate::seqtools::lemma_first_where_props(
                self.families.deep_view(),
                |f: FamilyView| f.id == rec.id@,
            );
            assert forall|j: int| 0 <= j < self.families@.len() implies #[trigger] self
                .families@[j].id@ != rec.id@ by {
                assert(self.families.deep_view()[j] == self.families@[j]@);
            }
        }
        self.families.push(rec);
    }

    pub fn add_skater(&mut self, rec: SkaterRec)
        ensures
            *final(self) == (Store { skaters: final(self).skaters, ..*old(self) }),
            final(self).skaters@ == old(self).skaters@.push(rec),
    {
        self.skaters.push(rec);
    }

    pub fn add_competition(&mut self, rec: CompetitionRec)
        ensures
            *final(self) == (Store { competitions: final(self).competitions, ..*old(self) }),
            final(self).competitions@ == old(self).competitions@.push(rec),
    {
        self.competitions.push(rec);
    }

    pub fn add_shoot(&mut self, rec: Shoot)
        ensures
            *final(self) == (Store { shoots: final(self).shoots, ..*old(self) }),
            final(self).shoots@ == old(self).shoots@.push(rec),
    {
        self.shoots.push(rec);
    }

    pub fn add_family_competition(&mut self, rec: FamilyCompetition)
        ensures
            *final(self) == (Store { family_competitions: final(self).family_competitions, ..*old(self) }),
            final(self).family_competitions@ == old(self).family_competitions@.push(rec),
    {
        self.family_competitions.push(rec);
    }

    pub fn add_family_shoot(&mut self, rec: FamilyShoot)
        ensures
            *final(self) == (Store { family_shoots: final(self).family_shoots, ..*old(self) }),
            final(self).family_shoots@ == old(self).family_shoots@.push(rec),
    {
        self.family_shoots.push(rec);
    }

    pub fn add_belongs_to(&mut self, rec: BelongsRec)
        ensures
            *final(self) == (Store { belongs_to: final(self).belongs_to, ..*old(self) }),
            final(self).belongs_to@ == old(self).belongs_to@.push(rec),
    {
        self.belongs_to.push(rec);
    }

    pub fn set_event_count(&mut self, n: u64)
        ensures
            *final(self) == (Store { event_count: n, ..*old(self) }),
    {
        self.event_count = n;
    }
}

/// Finds a family by deterministic id.
pub fn find_family(fams: &Vec<FamilyRec>, id: &str) -> (r: Option<usize>)
    ensures
        ({
            let ix = family_index(fams.deep_view(), id@);
            match r {
                Some(i) => ix == i as int,
                None => ix == -1,
            }
        }),
{
    let ghost p = |f: FamilyView| f.id == id@;
    let mut i: usize = 0;
    while i < fams.len()
        invariant
            i <= fams@.len(),
            forall|j: int| 0 <= j < i ==> !p(#[trigger] fams.deep_view()[j]),
            p == (|f: FamilyView| f.id == id@),
        decreases fams@.len() - i,
    {
        if str_eq(fams[i].id.as_str(), id) {
            proof {
                lemma_first_where_at(fams.deep_view(), p, i as int);
            }
            return Some(i);
        }
        i = i + 1;
    }
    proof {
        lemma_first_where_none(fams.deep_view(), p);
    }
    None
}

/// Finds the first shoot whose name matches the fragment.
pub fn find_shoot_match(shoots: &Vec<Shoot>, frag: &str) -> (r: Option<usize>)
    ensures
        ({
            let ix = shoot_match_index(shoots.deep_view(), frag@);
            match r {
                Some(i) => ix == i as int,
                None => ix == -1,
            }
        }),
{
    let ghost p = |s: ShootView| ci_contains(s.name, frag@);
    let mut i: usize = 0;
    while i < shoots.len()
        invariant
            i <= shoots@.len(),
            forall|j: int| 0 <= j < i ==> !p(#[trigger] shoots.deep_view()[j]),
            p == (|s: ShootView| ci_contains(s.name, frag@)),
        decreases shoots@.len() - i,
    {
        if ci_contains_exec(shoots[i].name.as_str(), frag) {
            proof {
                lemma_first_where_at(shoots.deep_view(), p, i as int);
            }
            return Some(i);
        }
        i = i + 1;
    }
    proof {
        lemma_first_where_none(shoots.deep_view(), p);
    }
    None
}

/// Finds the first competition whose name matches the fragment.
pub fn find_competition_match(cs: &Vec<CompetitionRec>, frag: &str) -> (r: Option<usize>)
    ensures
        ({
            let ix = competition_match_index(cs.deep_view(), frag@);
            match r {
                Some(i) => ix == i as int,
                None => ix == -1,
            }
        }),
{
    let ghost p = |c: CompetitionView| ci_contains(c.name, frag@);
    let mut i: usize = 0;
    while i < cs.len()
        invariant
            i <= cs@.len(),
            forall|j: int| 0 <= j < i ==> !p(#[trigger] cs.deep_view()[j]),
            p == (|c: CompetitionView| ci_contains(c.name, frag@)),
        decreases cs@.len() - i,
    {
        if ci_contains_exec(cs[i].name.as_str(), frag) {
            proof {
                lemma_first_where_at(cs.deep_view(), p, i as int);
            }
            return Some(i);
        }
        i = i + 1;
    }
    proof {
        lemma_first_where_none(cs.deep_view(), p);
    }
    None
}

/// Finds the first family-to-shoot edge joining the two ids.
pub fn find_fs_edge(es: &Vec<FamilyShoot>, fid: &str, tid: &str) -> (r: Option<usize>)
    ensures
        ({
            let ix = fs_edge_index(es.deep_view(), fid@, tid@);
            match r {
                Some(i) => ix == i as int,
                None => ix == -1,
            }
        }),
{
    let ghost p = |e: FamilyShootView| e.family == fid@ && e.out == tid@;
    let mut i: usize = 0;
    while i < es.len()
        invariant
            i <= es@.len(),
            forall|j: int| 0 <= j < i ==> !p(#[trigger] es.deep_view()[j]),
            p == (|e: FamilyShootView| e.family == fid@ && e.out == tid@),
        decreases es@.len() - i,
    {
        if str_eq(es[i].family.as_str(), fid) && str_eq(es[i].out.as_str(), tid) {
            proof {
                lemma_first_where_at(es.deep_view(), p, i as int);
            }
            return Some(i);
        }
        i = i + 1;
    }
    proof {
        lemma_first_where_none(es.deep_view(), p);
    }
    None
}

/// Finds the first family-to-competition edge joining the two ids.
pub fn find_fc_edge(es: &Vec<FamilyCompetition>, fid: &str, tid: &str) -> (r: Option<usize>)
    ensures
        ({
            let ix = fc_edge_index(es.deep_view(), fid@, tid@);
            match r {
                Some(i) => ix == i as int,
                None => ix == -1,
            }
        }),
{
    let ghost p = |e: FamilyCompetitionView| e.family == fid@ && e.out == tid@;
    let mut i: usize = 0;
    while i < es.len()
        invariant
            i <= es@.len(),
            forall|j: int| 0 <= j < i ==> !p(#[trigger] es.deep_view()[j]),
            p == (|e: FamilyCompetitionView| e.family == fid@ && e.out == tid@),
        decreases es@.len() - i,
    {
        if str_eq(es[i].family.as_str(), fid) && str_eq(es[i].out.as_str(), tid) {
            proof {
                lemma_first_where_at(es.deep_view(), p, i as int);
            }
            return Some(i);
        }
        i = i + 1;
    }
    proof {
        lemma_first_where_none(es.deep_view(), p);
    }
    None
}

/// Finds a skater by record id.
pub fn find_skater_by_id(sk: &Vec<SkaterRec>, id: &str) -> (r: Option<usize>)
    ensures
        ({
            let ix = skater_index(sk.deep_view(), id@);
            match r {
                Some(i) => ix == i as int,
                None => ix == -1,
            }
        }),
{
    let ghost p = |s: SkaterView| s.id == id@;
    let mut i: usize = 0;
    while i < sk.len()
        invariant
            i <= sk@.len(),
            forall|j: int| 0 <= j < i ==> !p(#[trigger] sk.deep_view()[j]),
            p == (|s: SkaterView| s.id == id@),
        decreases sk@.len() - i,
    {
        if str_eq(sk[i].id.as_str(), id) {
            proof {
                lemma_first_where_at(sk.deep_view(), p, i as int);
            }
            return Some(i);
        }
        i = i + 1;
    }
    proof {
        lemma_first_where_none(sk.deep_view(), p);
    }
    None
}

/// Finds a shoot by record id.
pub fn find_shoot_by_id(sh: &Vec<Shoot>, id: &str) -> (r: Option<usize>)
    ensures
        ({
            let ix = shoot_index(sh.deep_view(), id@);
            match r {
                Some(i) => ix == i as int,
                None => ix == -1,
            }
        }),
{
    let ghost p = |s: ShootView| s.id == id@;
    let mut i: usize = 0;
    while i < sh.len()
        invariant
            i <= sh@.len(),
            forall|j: int| 0 <= j < i ==> !p(#[trigger] sh.deep_view()[j]),
            p == (|s: ShootView| s.id == id@),
        decreases sh@.len() - i,
    {
        if str_eq(sh[i].id.as_str(), id) {
            proof {
                lemma_first_where_at(sh.deep_view(), p, i as int);
            }
            return Some(i);
        }
        i = i + 1;
    }
    proof {
        lemma_first_where_none(sh.deep_view(), p);
    }
    None
}

} // verus!
