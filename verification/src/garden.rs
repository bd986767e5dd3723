//! The garden: planter slots, seed inventory, seasonal advancement with
//! pest attrition, and the win/lose rules.

use vstd::prelude::*;
use crate::name::{combined_name_ok, PlantName};
use crate::plant::{
    gene_for, spec_intelligence, spec_pest_resistance, FruitColor, FruitStyle, Gene, GeneCategory,
    Plant, Seed, StemColor, StemStyle,
};
use crate::rng::{RandomSource, UNIT_DRAW_SCALE};

verus! {

/// A plant whose phenotype reaches this intelligence wins the game.
pub const GOAL_INTELLIGENCE: i32 = 10;

/// Plants whose pest resistance falls below this threshold risk destruction.
pub const PEST_DESTRUCTION_THRESHOLD: i32 = 5;

/// The seed inventory holds at most this many seeds; callers discard a
/// splice result when the inventory is full.
pub const NUM_SEED_SPACES: usize = 4;

/// One planter slot of the garden.
pub enum Planter {
    Plant(Plant),
    DeadPlant(Plant),
    Seed(Seed),
    Empty,
}

/// The fixed, index-addressed collection of planter slots.
pub struct Planters(pub Vec<Planter>);

/// The ordered, bounded inventory of harvested seeds.
pub struct Seeds(pub Vec<Seed>);

/// The season counter.
pub struct Season(pub u32);

/// Whether two plants hold the same name and genes.
pub open spec fn plant_like(a: Plant, b: Plant) -> bool {
    a.name@ == b.name@ && a.genes@ == b.genes@
}

/// Whether a plant could have grown from a seed: the genes are inherited
/// unchanged and the name is a recombination of the parents' names.
pub open spec fn grown_from(p: Plant, s: Seed) -> bool {
    p.genes@ == s.genes@ && combined_name_ok(p.name@, s.parent_name_1@, s.parent_name_2@)
}

/// Whether a pest draw destroys a plant: only plants under the resistance
/// threshold are at risk, and each point of deficit adds a tenth to the
/// destruction chance (unclamped), with a draw equal to the chance still
/// destroying the plant.
pub open spec fn pest_destroyed(resistance: int, draw: int) -> bool {
    &&& resistance < PEST_DESTRUCTION_THRESHOLD as int
    &&& 10 * draw <= (PEST_DESTRUCTION_THRESHOLD as int - resistance) * UNIT_DRAW_SCALE as int
}

/// What one season does to one slot: seeds grow into plants, plants whose
/// resistance is below the threshold may die to pests (newly grown plants
/// included), and dead or empty slots stay as they are. A slot never moves
/// backward.
pub open spec fn season_step_ok(before: Planter, after: Planter) -> bool {
    match before {
        Planter::Empty => after is Empty,
        Planter::DeadPlant(p) => after matches Planter::DeadPlant(q) && plant_like(q, p),
        Planter::Plant(p) => {
            ||| (after matches Planter::Plant(q) && plant_like(q, p))
            ||| (after matches Planter::DeadPlant(q) && plant_like(q, p) && spec_pest_resistance(
                p.genes@,
            ) < PEST_DESTRUCTION_THRESHOLD as int)
        },
        Planter::Seed(s) => {
            ||| (after matches Planter::Plant(q) && grown_from(q, s))
            ||| (after matches Planter::DeadPlant(q) && grown_from(q, s) && spec_pest_resistance(
                s.genes@,
            ) < PEST_DESTRUCTION_THRESHOLD as int)
        },
    }
}

/// What one season does to one slot under a fixed draw: the pest outcome
/// is then fully determined by the resolved pest resistance.
pub open spec fn season_step_fixed(before: Planter, after: Planter, v: u64) -> bool {
    match before {
        Planter::Empty => after is Empty,
        Planter::DeadPlant(p) => after matches Planter::DeadPlant(q) && plant_like(q, p),
        Planter::Plant(p) => if pest_destroyed(spec_pest_resistance(p.genes@), v as int) {
            after matches Planter::DeadPlant(q) && plant_like(q, p)
        } else {
            after matches Planter::Plant(q) && plant_like(q, p)
        },
        Planter::Seed(s) => if pest_destroyed(spec_pest_resistance(s.genes@), v as int) {
            after matches Planter::DeadPlant(q) && grown_from(q, s)
        } else {
            after matches Planter::Plant(q) && grown_from(q, s)
        },
    }
}

/// What the growth pass alone does to one slot.
spec fn grow_step_ok(before: Planter, after: Planter) -> bool {
    match before {
        Planter::Seed(s) => after matches Planter::Plant(q) && grown_from(q, s),
        _ => after == before,
    }
}

/// Decides one pest draw: a plant is destroyed exactly when its resistance
/// is under the threshold and the draw does not exceed the deficit's
/// destruction chance of a tenth per point.
pub fn pest_destruction_roll(pest_resistance: i32, draw: u64) -> (destroyed: bool)
    ensures
        destroyed == pest_destroyed(pest_resistance as int, draw as int),
{
    if pest_resistance < PEST_DESTRUCTION_THRESHOLD {
        let difference: i64 = (PEST_DESTRUCTION_THRESHOLD as i64) - (pest_resistance as i64);
        let diff_wide: u128 = difference as u128;
        proof {
            assert(1 <= diff_wide <= 0x8000_0005u128);
            assert(diff_wide * (UNIT_DRAW_SCALE as u128) <= 0x8000_0005u128 * 1_000_000u128)
                by (nonlinear_arith)
                requires
                    diff_wide <= 0x8000_0005u128,
            ;
        }
        let lhs: u128 = (draw as u128) * 10;
        let rhs: u128 = diff_wide * (UNIT_DRAW_SCALE as u128);
        lhs <= rhs
    } else {
        false
    }
}

/// Law: the pest boundary is inclusive — a draw exactly equal to the
/// destruction chance destroys the plant, and one subdivision more spares
/// it.
pub proof fn lemma_pest_boundary(resistance: int)
    requires
        resistance < PEST_DESTRUCTION_THRESHOLD as int,
    ensures
        pest_destroyed(
            resistance,
            (PEST_DESTRUCTION_THRESHOLD as int - resistance) * (UNIT_DRAW_SCALE as int) / 10,
        ),
        !pest_destroyed(
            resistance,
            (PEST_DESTRUCTION_THRESHOLD as int - resistance) * (UNIT_DRAW_SCALE as int) / 10 + 1,
        ),
{
    let difference = PEST_DESTRUCTION_THRESHOLD as int - resistance;
    assert(difference * (UNIT_DRAW_SCALE as int) == difference * 100_000 * 10) by (nonlinear_arith);
    assert(10 * (difference * (UNIT_DRAW_SCALE as int) / 10) == difference * (UNIT_DRAW_SCALE as int));
}

impl Planters {
    /// Gets the planter with the provided ID, if there is one.
    pub fn with_id(&self, id: usize) -> (r: Option<&Planter>)
        ensures
            match r {
                Some(p) => id < self.0@.len() && *p == self.0@[id as int],
                None => id >= self.0@.len(),
            },
    {
        if id < self.0.len() {
            Some(&self.0[id])
        } else {
            None
        }
    }

    /// Updates the planters for the next season: first every seed grows
    /// into a plant, then every plant — newly grown ones included — faces
    /// the pests.
    pub fn next_season(&mut self, rng: &mut RandomSource)
        ensures
            final(self).0@.len() == old(self).0@.len(),
            forall|i: int|
                0 <= i < old(self).0@.len() ==> season_step_ok(
                    old(self).0@[i],
                    #[trigger] final(self).0@[i],
                ),
            *old(rng) matches RandomSource::Fixed(v) ==> forall|i: int|
                0 <= i < old(self).0@.len() ==> season_step_fixed(
                    old(self).0@[i],
                    #[trigger] final(self).0@[i],
                    v,
                ),
            *final(rng) == *old(rng),
    {
        // grow seeds
        let mut idx: usize = 0;
        while idx < self.0.len()
            invariant
                idx <= self.0.len(),
                self.0@.len() == old(self).0@.len(),
                forall|i: int|
                    0 <= i < idx ==> grow_step_ok(old(self).0@[i], #[trigger] self.0@[i]),
                forall|i: int| idx <= i < self.0@.len() ==> self.0@[i] == old(self).0@[i],
                *rng == *old(rng),
            decreases self.0.len() - idx,
        {
            let grown: Option<Plant> = match &self.0[idx] {
                Planter::Seed(seed) => Some(seed.grow(rng)),
                _ => None,
            };
            if let Some(plant) = grown {
                self.0.set(idx, Planter::Plant(plant));
            }
            idx += 1;
        }

        // unleash the pests
        let ghost mid = self.0@;
        let mut idx2: usize = 0;
        while idx2 < self.0.len()
            invariant
                idx2 <= self.0.len(),
                self.0@.len() == mid.len(),
                mid.len() == old(self).0@.len(),
                forall|i: int| 0 <= i < mid.len() ==> grow_step_ok(old(self).0@[i], #[trigger] mid[i]),
                forall|i: int|
                    0 <= i < idx2 ==> season_step_ok(old(self).0@[i], #[trigger] self.0@[i]),
                forall|i: int| idx2 <= i < self.0@.len() ==> self.0@[i] == mid[i],
                *old(rng) matches RandomSource::Fixed(v) ==> forall|i: int|
                    0 <= i < idx2 ==> season_step_fixed(old(self).0@[i], #[trigger] self.0@[i], v),
                *rng == *old(rng),
            decreases self.0.len() - idx2,
        {
            let ghost before_iter = self.0@;
            let dead: Option<Plant> = match &self.0[idx2] {
                Planter::Plant(plant) => {
                    let phenotype = plant.get_phenotype();
                    if phenotype.pest_resistance < PEST_DESTRUCTION_THRESHOLD {
                        let draw = rng.unit_draw();
                        if pest_destruction_roll(phenotype.pest_resistance, draw) {
                            Some(plant.clone())
                        } else {
                            None
                        }
                    } else {
                        None
                    }
                },
                _ => None,
            };
            if let Some(plant) = dead {
                self.0.set(idx2, Planter::DeadPlant(plant));
            }
            proof {
                assert(before_iter[idx2 as int] == mid[idx2 as int]);
                assert(grow_step_ok(old(self).0@[idx2 as int], mid[idx2 as int]));
                assert forall|i: int| 0 <= i < idx2 + 1 implies season_step_ok(
                    old(self).0@[i],
                    #[trigger] self.0@[i],
                ) by {
                    if i < idx2 {
                        assert(self.0@[i] == before_iter[i]);
                    } else {
                        assert(self.0@[i] == if dead is Some {
                            Planter::DeadPlant(dead->Some_0)
                        } else {
                            before_iter[i]
                        });
                    }
                }
                if *old(rng) is Fixed {
                    let v = (*old(rng))->Fixed_0;
                    assert forall|i: int| 0 <= i < idx2 + 1 implies season_step_fixed(
                        old(self).0@[i],
                        #[trigger] self.0@[i],
                        v,
                    ) by {
                        if i < idx2 {
                            assert(self.0@[i] == before_iter[i]);
                        } else {
                            assert(self.0@[i] == if dead is Some {
                                Planter::DeadPlant(dead->Some_0)
                            } else {
                                before_iter[i]
                            });
                        }
                    }
                }
            }
            idx2 += 1;
        }
    }

    /// Finds a plant smart enough to win: the first planter, in slot
    /// order, holding a plant whose intelligence reaches the goal.
    pub fn find_smart_plant(&self) -> (r: Option<Plant>)
        ensures
            match r {
                Some(p) => exists|i: int|
                    0 <= i < self.0@.len() && #[trigger] is_winning_slot(self.0@[i]) && (self.0@[i]
                        matches Planter::Plant(q) && plant_like(p, q)) && (forall|j: int|
                        0 <= j < i ==> !is_winning_slot(#[trigger] self.0@[j])),
                None => forall|i: int| 0 <= i < self.0@.len() ==> !is_winning_slot(
                    #[trigger] self.0@[i],
                ),
            },
    {
        let mut idx: usize = 0;
        while idx < self.0.len()
            invariant
                idx <= self.0.len(),
                forall|j: int| 0 <= j < idx ==> !is_winning_slot(#[trigger] self.0@[j]),
            decreases self.0.len() - idx,
        {
            let winner: Option<Plant> = match &self.0[idx] {
                Planter::Plant(plant) => {
                    let phenotype = plant.get_phenotype();
                    if phenotype.intelligence >= GOAL_INTELLIGENCE {
                        Some(plant.clone())
                    } else {
                        None
                    }
                },
                _ => None,
            };
            if let Some(plant) = winner {
                proof {
                    assert(is_winning_slot(self.0@[idx as int]));
                }
                return Some(plant);
            }
            idx += 1;
        }
        None
    }
}

/// Whether a planter holds a plant smart enough to win.
pub open spec fn is_winning_slot(p: Planter) -> bool {
    p matches Planter::Plant(plant) && spec_intelligence(plant.genes@) >= GOAL_INTELLIGENCE as int
}

/// Whether a planter still holds growth potential: a live plant or a seed.
pub open spec fn has_growth_potential(p: Planter) -> bool {
    p is Plant || p is Seed
}

/// Whether the game is lost: no planter holds a live plant or a planted
/// seed, and the seed inventory is empty.
pub open spec fn spec_game_lost(planters: Seq<Planter>, seeds: Seq<Seed>) -> bool {
    &&& seeds.len() == 0
    &&& forall|i: int| 0 <= i < planters.len() ==> !has_growth_potential(#[trigger] planters[i])
}

/// Decides whether the game is lost: all growth potential exhausted.
pub fn is_game_lost(planters: &Planters, seeds: &Seeds) -> (r: bool)
    ensures
        r == spec_game_lost(planters.0@, seeds.0@),
{
    if seeds.0.len() > 0 {
        return false;
    }
    let mut idx: usize = 0;
    while idx < planters.0.len()
        invariant
            idx <= planters.0.len(),
            forall|i: int| 0 <= i < idx ==> !has_growth_potential(#[trigger] planters.0@[i]),
        decreases planters.0.len() - idx,
    {
        let alive: bool = match &planters.0[idx] {
            Planter::Plant(_) => true,
            Planter::Seed(_) => true,
            _ => false,
        };
        if alive {
            return false;
        }
        idx += 1;
    }
    true
}

/// Decides whether a winning plant takes the credit for itself: each point
/// of intelligence beyond the goal adds a tenth to the chance, and a draw
/// equal to the chance still counts.
pub fn plant_takes_credit(intelligence: i32, draw: u64) -> (takes_credit: bool)
    ensures
        takes_credit == spec_takes_credit(intelligence as int, draw as int),
{
    if intelligence < GOAL_INTELLIGENCE {
        return false;
    }
    let extra: i64 = (intelligence as i64) - (GOAL_INTELLIGENCE as i64);
    let extra_wide: u128 = extra as u128;
    proof {
        assert(extra_wide <= 0x8000_0000u128);
        assert(extra_wide * (UNIT_DRAW_SCALE as u128) <= 0x8000_0000u128 * 1_000_000u128)
            by (nonlinear_arith)
            requires
                extra_wide <= 0x8000_0000u128,
        ;
    }
    let lhs: u128 = (draw as u128) * 10;
    let rhs: u128 = extra_wide * (UNIT_DRAW_SCALE as u128);
    lhs <= rhs
}

/// Whether a draw falls within the "too smart" chance of a tenth per
/// point of intelligence beyond the goal.
pub open spec fn spec_takes_credit(intelligence: int, draw: int) -> bool {
    &&& intelligence >= GOAL_INTELLIGENCE as int
    &&& 10 * draw <= (intelligence - GOAL_INTELLIGENCE as int) * UNIT_DRAW_SCALE as int
}

impl Seeds {
    /// Gets the seed with the provided ID, if there is one.
    pub fn with_id(&self, id: usize) -> (r: Option<&Seed>)
        ensures
            match r {
                Some(s) => id < self.0@.len() && *s == self.0@[id as int],
                None => id >= self.0@.len(),
            },
    {
        if id < self.0.len() {
            Some(&self.0[id])
        } else {
            None
        }
    }

    /// Removes and returns the seed with the provided ID, if there is one.
    pub fn take_with_id(&mut self, id: usize) -> (r: Option<Seed>)
        ensures
            id >= old(self).0@.len() ==> r is None && final(self).0@ == old(self).0@,
            id < old(self).0@.len() ==> (r matches Some(s) && s == old(self).0@[id as int])
                && final(self).0@ == old(self).0@.remove(id as int),
    {
        if id < self.0.len() {
            Some(self.0.remove(id))
        } else {
            None
        }
    }
}

impl Season {
    /// Advances the season counter by one.
    pub fn advance(&mut self)
        requires
            old(self).0 < u32::MAX,
        ensures
            final(self).0 == old(self).0 + 1,
    {
        self.0 = self.0 + 1;
    }
}

/// The outcome of evaluating a garden after a season.
pub enum GameOutcome {
    Ongoing,
    Won(Plant),
    Lost,
}

/// Law: a lost garden holds no winning plant — a winner is a live plant,
/// and a lost garden has none — so a win can never coincide with a loss.
pub proof fn lemma_lost_garden_has_no_winner(planters: Seq<Planter>, seeds: Seq<Seed>)
    requires
        spec_game_lost(planters, seeds),
    ensures
        forall|i: int| 0 <= i < planters.len() ==> !is_winning_slot(#[trigger] planters[i]),
{
}

/// Evaluates the win and lose conditions: a smart enough plant wins (the
/// first one in slot order is captured), exhausted growth potential loses,
/// and a win always takes precedence over a loss.
pub fn evaluate_outcome(planters: &Planters, seeds: &Seeds) -> (r: GameOutcome)
    ensures
        match r {
            GameOutcome::Won(p) => exists|i: int|
                0 <= i < planters.0@.len() && #[trigger] is_winning_slot(planters.0@[i])
                    && (planters.0@[i] matches Planter::Plant(q) && plant_like(p, q)) && (
                forall|j: int| 0 <= j < i ==> !is_winning_slot(#[trigger] planters.0@[j])),
            GameOutcome::Lost => spec_game_lost(planters.0@, seeds.0@) && forall|i: int|
                0 <= i < planters.0@.len() ==> !is_winning_slot(#[trigger] planters.0@[i]),
            GameOutcome::Ongoing => !spec_game_lost(planters.0@, seeds.0@) && forall|i: int|
                0 <= i < planters.0@.len() ==> !is_winning_slot(#[trigger] planters.0@[i]),
        },
{
    let lost = is_game_lost(planters, seeds);
    match planters.find_smart_plant() {
        Some(plant) => GameOutcome::Won(plant),
        None => if lost {
            GameOutcome::Lost
        } else {
            GameOutcome::Ongoing
        },
    }
}

/// The whole game state: the garden, the seed inventory and the season
/// counter, owned by the presentation layer and passed into the core.
pub struct GameState {
    pub planters: Planters,
    pub seeds: Seeds,
    pub season: Season,
}

impl GameState {
    /// A fresh game: the fixed starting garden, no seeds, season one.
    pub fn new() -> (r: GameState)
        ensures
            r.planters.0@.len() == 4,
            r.planters.0@[0] matches Planter::Plant(p) && p.name@ == starting_name_1()
                && p.genes@ == starting_genes_1(),
            r.planters.0@[1] matches Planter::Plant(p) && p.name@ == starting_name_2()
                && p.genes@ == starting_genes_2(),
            r.planters.0@[2] matches Planter::Plant(p) && p.name@ == starting_name_3()
                && p.genes@ == starting_genes_3(),
            r.planters.0@[3] is Empty,
            r.seeds.0@.len() == 0,
            r.season.0 == 1,
    {
        GameState { planters: generate_starting_plants(), seeds: Seeds(Vec::new()), season: Season(1) }
    }

    /// Advances one season: the counter ticks and every planter slot takes
    /// its season step; the seed inventory is untouched.
    pub fn advance_season(&mut self, rng: &mut RandomSource)
        requires
            old(self).season.0 < u32::MAX,
        ensures
            final(self).season.0 == old(self).season.0 + 1,
            final(self).seeds.0@ == old(self).seeds.0@,
            final(self).planters.0@.len() == old(self).planters.0@.len(),
            forall|i: int|
                0 <= i < old(self).planters.0@.len() ==> season_step_ok(
                    old(self).planters.0@[i],
                    #[trigger] final(self).planters.0@[i],
                ),
            *final(rng) == *old(rng),
    {
        self.season.advance();
        self.planters.next_season(rng);
    }
}

/// The name of the first starting plant.
pub open spec fn starting_name_1() -> Seq<Seq<char>> {
    seq!["ro"@, "ber"@, "to"@]
}

/// The name of the second starting plant.
pub open spec fn starting_name_2() -> Seq<Seq<char>> {
    seq!["jes"@, "si"@, "ca"@]
}

/// The name of the third starting plant.
pub open spec fn starting_name_3() -> Seq<Seq<char>> {
    seq!["mal"@, "lo"@, "ry"@]
}

/// The gene list of the first starting plant.
pub open spec fn starting_genes_1() -> Seq<Gene> {
    seq![
        gene_for(GeneCategory::StemColor(StemColor::Green)),
        gene_for(GeneCategory::StemColor(StemColor::Brown)),
        gene_for(GeneCategory::StemStyle(StemStyle::Curvy)),
        gene_for(GeneCategory::StemStyle(StemStyle::Loopy)),
        gene_for(GeneCategory::FruitStyle(FruitStyle::Circle)),
        gene_for(GeneCategory::FruitStyle(FruitStyle::Square)),
        gene_for(GeneCategory::FruitColor(FruitColor::Red)),
        gene_for(GeneCategory::FruitColor(FruitColor::Purple)),
    ]
}

/// The gene list of the second starting plant.
pub open spec fn starting_genes_2() -> Seq<Gene> {
    seq![
        gene_for(GeneCategory::StemColor(StemColor::Brown)),
        gene_for(GeneCategory::StemColor(StemColor::Blue)),
        gene_for(GeneCategory::StemStyle(StemStyle::Wiggly)),
        gene_for(GeneCategory::StemStyle(StemStyle::Loopy)),
        gene_for(GeneCategory::FruitStyle(FruitStyle::Square)),
        gene_for(GeneCategory::FruitStyle(FruitStyle::Triangle)),
        gene_for(GeneCategory::FruitColor(FruitColor::Red)),
        gene_for(GeneCategory::FruitColor(FruitColor::Yellow)),
    ]
}

/// The gene list of the third starting plant.
pub open spec fn starting_genes_3() -> Seq<Gene> {
    seq![
        gene_for(GeneCategory::StemColor(StemColor::Green)),
        gene_for(GeneCategory::StemColor(StemColor::Blue)),
        gene_for(GeneCategory::StemStyle(StemStyle::Wiggly)),
        gene_for(GeneCategory::StemStyle(StemStyle::Angular)),
        gene_for(GeneCategory::FruitStyle(FruitStyle::Circle)),
        gene_for(GeneCategory::FruitStyle(FruitStyle::Triangle)),
        gene_for(GeneCategory::FruitColor(FruitColor::Purple)),
        gene_for(GeneCategory::FruitColor(FruitColor::Yellow)),
    ]
}

/// Builds one starting plant from its name syllables and gene categories.
fn starting_plant(syllables: Vec<String>, categories: Vec<GeneCategory>) -> (p: Plant)
    ensures
        p.name@ == syllables.deep_view(),
        p.genes@.len() == categories@.len(),
        forall|i: int| 0 <= i < categories@.len() ==> p.genes@[i] == gene_for(#[trigger] categories@[i]),
{
    let mut genes: Vec<Gene> = Vec::new();
    let mut idx: usize = 0;
    while idx < categories.len()
        invariant
            idx <= categories.len(),
            genes@.len() == idx as int,
            forall|i: int| 0 <= i < idx ==> genes@[i] == gene_for(#[trigger] categories@[i]),
        decreases categories.len() - idx,
    {
        genes.push(Gene::new_with_category(categories[idx]));
        idx += 1;
    }
    Plant { name: PlantName::new(syllables), genes }
}

/// The fixed starting garden: three plants and one empty slot.
pub fn generate_starting_plants() -> (r: Planters)
    ensures
        r.0@.len() == 4,
        r.0@[0] matches Planter::Plant(p) && p.name@ == starting_name_1() && p.genes@
            == starting_genes_1(),
        r.0@[1] matches Planter::Plant(p) && p.name@ == starting_name_2() && p.genes@
            == starting_genes_2(),
        r.0@[2] matches Planter::Plant(p) && p.name@ == starting_name_3() && p.genes@
            == starting_genes_3(),
        r.0@[3] is Empty,
{
    let name_1: Vec<String> = vec!["ro".to_owned(), "ber".to_owned(), "to".to_owned()];
    let categories_1: Vec<GeneCategory> = vec![
        GeneCategory::StemColor(StemColor::Green),
        GeneCategory::StemColor(StemColor::Brown),
        GeneCategory::StemStyle(StemStyle::Curvy),
        GeneCategory::StemStyle(StemStyle::Loopy),
        GeneCategory::FruitStyle(FruitStyle::Circle),
        GeneCategory::FruitStyle(FruitStyle::Square),
        GeneCategory::FruitColor(FruitColor::Red),
        GeneCategory::FruitColor(FruitColor::Purple),
    ];
    let plant_1 = starting_plant(name_1, categories_1);
    proof {
        assert(plant_1.name@ =~= starting_name_1());
        assert(plant_1.genes@ =~= starting_genes_1());
    }

    let name_2: Vec<String> = vec!["jes".to_owned(), "si".to_owned(), "ca".to_owned()];
    let categories_2: Vec<GeneCategory> = vec![
        GeneCategory::StemColor(StemColor::Brown),
        GeneCategory::StemColor(StemColor::Blue),
        GeneCategory::StemStyle(StemStyle::Wiggly),
        GeneCategory::StemStyle(StemStyle::Loopy),
        GeneCategory::FruitStyle(FruitStyle::Square),
        GeneCategory::FruitStyle(FruitStyle::Triangle),
        GeneCategory::FruitColor(FruitColor::Red),
        GeneCategory::FruitColor(FruitColor::Yellow),
    ];
    let plant_2 = starting_plant(name_2, categories_2);
    proof {
        assert(plant_2.name@ =~= starting_name_2());
        assert(plant_2.genes@ =~= starting_genes_2());
    }

    let name_3: Vec<String> = vec!["mal".to_owned(), "lo".to_owned(), "ry".to_owned()];
    let categories_3: Vec<GeneCategory> = vec![
        GeneCategory::StemColor(StemColor::Green),
        GeneCategory::StemColor(StemColor::Blue),
        GeneCategory::StemStyle(StemStyle::Wiggly),
        GeneCategory::StemStyle(StemStyle::Angular),
        GeneCategory::FruitStyle(FruitStyle::Circle),
        GeneCategory::FruitStyle(FruitStyle::Triangle),
        GeneCategory::FruitColor(FruitColor::Purple),
        GeneCategory::FruitColor(FruitColor::Yellow),
    ];
    let plant_3 = starting_plant(name_3, categories_3);
    proof {
        assert(plant_3.name@ =~= starting_name_3());
        assert(plant_3.genes@ =~= starting_genes_3());
    }

    let mut slots: Vec<Planter> = Vec::new();
    slots.push(Planter::Plant(plant_1));
    slots.push(Planter::Plant(plant_2));
    slots.push(Planter::Plant(plant_3));
    slots.push(Planter::Empty);
    Planters(slots)
}

} // verus!
