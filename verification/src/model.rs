use vstd::prelude::*;

verus! {

/// Which game release a character file targets.
#[derive(Debug, Clone, Copy, PartialEq, Eq, Structural)]
pub enum GameVersion {
    /// 1.10 - 1.14d
    Legacy,
    /// Resurrected 2.5+
    Resurrected,
    /// Reign of the Warlock 3.0+
    Warlock,
}

impl Default for GameVersion {
    fn default() -> (v: Self)
        ensures
            v == GameVersion::Legacy,
    {
        GameVersion::Legacy
    }
}

impl GameVersion {
    /// The name shown for this version.
    pub fn label(&self) -> (s: &'static str)
        ensures
            *self == GameVersion::Legacy ==> s@ == "1.10 - 1.14d"@,
            *self == GameVersion::Resurrected ==> s@ == "Resurrected 2.5+"@,
            *self == GameVersion::Warlock ==> s@ == "Reign of the Warlock 3.0+"@,
    {
        match self {
            GameVersion::Legacy => "1.10 - 1.14d",
            GameVersion::Resurrected => "Resurrected 2.5+",
            GameVersion::Warlock => "Reign of the Warlock 3.0+",
        }
    }
}

/// The playable classes.
#[derive(Debug, Clone, Copy, PartialEq, Eq, Structural)]
pub enum CharacterClass {
    Amazon,
    Sorceress,
    Necromancer,
    Paladin,
    Barbarian,
    Druid,
    Assassin,
    Warlock,
}

/// The character statistics that a save file stores, in the order of their
/// identifiers.
#[derive(Debug, Clone, Copy, PartialEq, Eq, Structural)]
pub enum CharacterStat {
    Strength,
    Energy,
    Dexterity,
    Vitality,
    StatPoints,
    SkillPoints,
    HitPoints,
    MaxHitPoints,
    Mana,
    MaxMana,
    Stamina,
    MaxStamina,
    Level,
    Experience,
    Gold,
    StashedGold,
}

/// The starting attributes and vitals of a class.
#[derive(Debug, Clone, Copy, PartialEq, Eq, Structural)]
pub struct BaseStats {
    pub strength: u32,
    pub dexterity: u32,
    pub vitality: u32,
    pub energy: u32,
    pub hp: u32,
    pub mana: u32,
    pub stamina: u32,
}

/// The attribute and skill points that the rules grant at a character's
/// level and for its completed quests.
#[derive(Debug, Clone, Copy, PartialEq, Eq, Structural)]
pub struct PointBudget {
    pub stat_points_from_level: u32,
    pub stat_points_from_quests: u32,
    pub skill_points_from_level: u32,
    pub skill_points_from_quests: u32,
}

/// The most gold a character may carry and store at its level.
#[derive(Debug, Clone, Copy, PartialEq, Eq, Structural)]
pub struct GoldCaps {
    pub max_inventory_gold: u32,
    pub max_stash_gold: u32,
}

/// What the rules give at one character level: its experience breakpoint,
/// gold caps and point budget (the latter for the current quest log).
#[derive(Debug, Clone, Copy, PartialEq, Eq, Structural)]
pub struct LevelRules {
    pub experience: u32,
    pub caps: GoldCaps,
    pub budget: PointBudget,
}

/// The class growth bonuses for the character's current level, vitality and
/// energy, and which difficulties have the Golden Bird quest completed.
#[derive(Debug, Clone, Copy)]
pub struct VitalGrowth {
    pub life_for_level: u32,
    pub life_for_vitality: u32,
    pub mana_for_level: u32,
    pub mana_for_energy: u32,
    pub stamina_for_level: u32,
    pub stamina_for_vitality: u32,
    pub golden_bird_completed: [bool; 3],
}

/// What an edit leaves for the caller to do.
#[derive(Debug, Clone, Copy, PartialEq, Eq, Structural)]
pub enum FollowUp {
    /// The character is consistent as it stands.
    Nothing,
    /// Level, attributes or quests changed: the maximum vitals must be
    /// recomputed with `Savegame::recalculate_vitals`, from the growth
    /// values of the new state.
    RecalculateVitals,
}

/// The outcome of flipping one quest, as the quest rules compute it for the
/// quest's current word.
#[derive(Debug, Clone, PartialEq, Eq)]
pub struct QuestToggle {
    /// Whether the quest was completed before the flip.
    pub was_completed: bool,
    /// The difficulty's quest words after the flip and the progression sync.
    pub words_after: Vec<u16>,
    /// The skill points that completing the quest rewards.
    pub skill_reward: u32,
    /// The attribute points that completing the quest rewards.
    pub stat_reward: u32,
}

/// The central application state model representing a loaded `.d2s` savegame.
#[derive(Debug, Clone)]
pub struct Savegame {
    pub name: String,
    pub class: CharacterClass,
    /// The class's starting attributes and vitals.
    pub base: BaseStats,
    pub level: u32,
    pub experience: u32,
    pub gold: u32,
    pub stashed_gold: u32,
    pub strength: u32,
    pub dexterity: u32,
    pub vitality: u32,
    pub energy: u32,
    pub stat_points_remaining: u32,
    pub skill_points_remaining: u32,
    pub current_hp: u32,
    pub max_hp: u32,
    pub current_mana: u32,
    pub max_mana: u32,
    pub current_stamina: u32,
    pub max_stamina: u32,
    /// Hard points in each of the class's 30 skill slots.
    pub skills: [u8; 30],
    /// Quest words for Normal, Nightmare, Hell.
    pub quests: [Vec<u16>; 3],
    pub hardcore: bool,
    pub died: bool,
    /// Waypoints for Normal, Nightmare, Hell.
    pub waypoints: [Vec<bool>; 3],
    pub game_version: GameVersion,
}

/// `a - b`, or 0 where `b` exceeds `a`.
pub open spec fn sat_sub(a: u32, b: u32) -> u32 {
    if a >= b {
        (a - b) as u32
    } else {
        0
    }
}

/// The smaller of `a` and `b`.
pub open spec fn min_u32(a: u32, b: u32) -> u32 {
    if a <= b {
        a
    } else {
        b
    }
}

/// The sum of a sequence of skill levels.
pub open spec fn level_sum(s: Seq<u8>) -> int
    decreases s.len(),
{
    if s.len() == 0 {
        0
    } else {
        level_sum(s.drop_last()) + s.last()
    }
}

/// A sum of skill levels is between 0 and 255 per slot.
pub proof fn lemma_level_sum_bound(s: Seq<u8>)
    ensures
        0 <= level_sum(s) <= 255 * s.len(),
    decreases s.len(),
{
    if s.len() > 0 {
        lemma_level_sum_bound(s.drop_last());
    }
}

/// The quest word index of the Golden Bird quest (Act III, quest 1), whose
/// completion in a difficulty adds 20 life.
pub const GOLDEN_BIRD_QUEST: usize = 20;

/// The number of difficulties flagged in `flags`.
pub open spec fn difficulties_flagged(flags: [bool; 3]) -> int {
    (if flags[0] { 1int } else { 0int }) + (if flags[1] { 1int } else { 0int }) + (if flags[2] {
        1int
    } else {
        0int
    })
}

/// Thirty empty skill slots.
pub open spec fn no_skills() -> [u8; 30] {
    vstd::array::spec_array_fill_for_copy_type::<u8, 30>(0u8)
}

/// `v` clamped to `lo..=hi`.
pub open spec fn clamp_u32(v: u32, lo: u32, hi: u32) -> u32 {
    if v < lo {
        lo
    } else if v > hi {
        hi
    } else {
        v
    }
}

impl PointBudget {
    pub open spec fn allowed_stat_points(&self) -> int {
        self.stat_points_from_level + self.stat_points_from_quests
    }

    pub open spec fn allowed_skill_points(&self) -> int {
        self.skill_points_from_level + self.skill_points_from_quests
    }

    /// Both totals fit in a `u32`.
    pub open spec fn fits(&self) -> bool {
        &&& self.allowed_stat_points() <= u32::MAX
        &&& self.allowed_skill_points() <= u32::MAX
    }
}

impl Savegame {
    /// Attribute points spent above the class's base attributes.
    pub open spec fn spent_stat_points_spec(&self) -> int {
        sat_sub(self.strength, self.base.strength) + sat_sub(self.dexterity, self.base.dexterity)
            + sat_sub(self.vitality, self.base.vitality) + sat_sub(self.energy, self.base.energy)
    }

    /// Skill points spent: the sum of all hard points.
    pub open spec fn spent_skill_points_spec(&self) -> int {
        level_sum(self.skills@)
    }

    /// The value of an attribute, for the four attributes that points can be
    /// spent on.
    pub open spec fn attribute(&self, stat: CharacterStat) -> Option<u32> {
        match stat {
            CharacterStat::Strength => Some(self.strength),
            CharacterStat::Dexterity => Some(self.dexterity),
            CharacterStat::Vitality => Some(self.vitality),
            CharacterStat::Energy => Some(self.energy),
            _ => None,
        }
    }

    /// The base value of an attribute.
    pub open spec fn base_attribute(&self, stat: CharacterStat) -> u32 {
        match stat {
            CharacterStat::Strength => self.base.strength,
            CharacterStat::Dexterity => self.base.dexterity,
            CharacterStat::Vitality => self.base.vitality,
            CharacterStat::Energy => self.base.energy,
            _ => 0,
        }
    }

    /// `self` with one attribute set to `v` (unchanged for other statistics).
    pub open spec fn with_attribute(self, stat: CharacterStat, v: u32) -> Savegame {
        match stat {
            CharacterStat::Strength => Savegame { strength: v, ..self },
            CharacterStat::Dexterity => Savegame { dexterity: v, ..self },
            CharacterStat::Vitality => Savegame { vitality: v, ..self },
            CharacterStat::Energy => Savegame { energy: v, ..self },
            _ => self,
        }
    }

    /// Life before item bonuses: class base, level and vitality growth, and
    /// 20 for each difficulty whose Golden Bird quest is completed.
    pub open spec fn base_life_spec(&self, growth: &VitalGrowth) -> int {
        self.base.hp + growth.life_for_level + growth.life_for_vitality + 20 * difficulties_flagged(
            growth.golden_bird_completed,
        )
    }

    pub open spec fn base_mana_spec(&self, growth: &VitalGrowth) -> int {
        self.base.mana + growth.mana_for_level + growth.mana_for_energy
    }

    pub open spec fn base_stamina_spec(&self, growth: &VitalGrowth) -> int {
        self.base.stamina + growth.stamina_for_level + growth.stamina_for_vitality
    }

    /// The three base vitals fit in a `u32`.
    pub open spec fn vitals_fit(&self, growth: &VitalGrowth) -> bool {
        &&& self.base_life_spec(growth) <= u32::MAX
        &&& self.base_mana_spec(growth) <= u32::MAX
        &&& self.base_stamina_spec(growth) <= u32::MAX
    }

    /// The pools set to what the budget allows beyond the points spent, or
    /// to zero where more is spent than allowed; allocations are kept.
    pub open spec fn pools_recalculated(self, budget: PointBudget) -> Savegame {
        Savegame {
            stat_points_remaining: sat_sub(
                budget.allowed_stat_points() as u32,
                self.spent_stat_points_spec() as u32,
            ),
            skill_points_remaining: sat_sub(
                budget.allowed_skill_points() as u32,
                self.spent_skill_points_spec() as u32,
            ),
            ..self
        }
    }

    /// Attributes and vitals back at the class base, with every allowed
    /// attribute point in the pool.
    pub open spec fn stats_reset(self, budget: PointBudget) -> Savegame {
        Savegame {
            strength: self.base.strength,
            dexterity: self.base.dexterity,
            vitality: self.base.vitality,
            energy: self.base.energy,
            stat_points_remaining: budget.allowed_stat_points() as u32,
            current_hp: self.base.hp,
            max_hp: self.base.hp,
            current_mana: self.base.mana,
            max_mana: self.base.mana,
            current_stamina: self.base.stamina,
            max_stamina: self.base.stamina,
            ..self
        }
    }

    /// No skill points spent, with every allowed skill point in the pool.
    pub open spec fn skills_reset(self, budget: PointBudget) -> Savegame {
        Savegame {
            skills: no_skills(),
            skill_points_remaining: budget.allowed_skill_points() as u32,
            ..self
        }
    }

    /// The attribute pool refilled to what the budget leaves after the spent
    /// points, or, where more is spent than allowed, the attributes reset.
    pub open spec fn stats_normalized(self, budget: PointBudget) -> Savegame {
        if self.spent_stat_points_spec() <= budget.allowed_stat_points() {
            Savegame {
                stat_points_remaining: (budget.allowed_stat_points()
                    - self.spent_stat_points_spec()) as u32,
                ..self
            }
        } else {
            self.stats_reset(budget)
        }
    }

    /// The skill pool refilled to what the budget leaves after the spent
    /// points, or, where more is spent than allowed, the skills reset.
    pub open spec fn skills_normalized(self, budget: PointBudget) -> Savegame {
        if self.spent_skill_points_spec() <= budget.allowed_skill_points() {
            Savegame {
                skill_points_remaining: (budget.allowed_skill_points()
                    - self.spent_skill_points_spec()) as u32,
                ..self
            }
        } else {
            self.skills_reset(budget)
        }
    }

    /// Both pools brought in line with the budget.
    pub open spec fn normalized(self, budget: PointBudget) -> Savegame {
        self.stats_normalized(budget).skills_normalized(budget)
    }

    /// Total attribute points the rules allow.
    pub fn total_allowed_stat_points(&self, budget: &PointBudget) -> (total: u32)
        requires
            budget.allowed_stat_points() <= u32::MAX,
        ensures
            total == budget.allowed_stat_points(),
    {
        budget.stat_points_from_level + budget.stat_points_from_quests
    }

    /// Total skill points the rules allow.
    pub fn total_allowed_skill_points(&self, budget: &PointBudget) -> (total: u32)
        requires
            budget.allowed_skill_points() <= u32::MAX,
        ensures
            total == budget.allowed_skill_points(),
    {
        budget.skill_points_from_level + budget.skill_points_from_quests
    }

    fn spent_stat_points(&self) -> (spent: u32)
        requires
            self.spent_stat_points_spec() <= u32::MAX,
        ensures
            spent == self.spent_stat_points_spec(),
    {
        self.strength.saturating_sub(self.base.strength) + self.dexterity.saturating_sub(
            self.base.dexterity,
        ) + self.vitality.saturating_sub(self.base.vitality) + self.energy.saturating_sub(
            self.base.energy,
        )
    }

    fn spent_skill_points(&self) -> (spent: u32)
        ensures
            spent == self.spent_skill_points_spec(),
            spent <= 255 * 30,
    {
        let mut total: u32 = 0;
        let mut i: usize = 0;
        assert(self.skills@.take(0) =~= Seq::<u8>::empty());
        while i < 30
            invariant
                i <= 30,
                self.skills@.len() == 30,
                total == level_sum(self.skills@.take(i as int)),
                total <= 255 * i,
            decreases 30 - i,
        {
            assert(self.skills@.take(i + 1).drop_last() =~= self.skills@.take(i as int));
            total = total + self.skills[i] as u32;
            i = i + 1;
        }
        assert(self.skills@.take(30) =~= self.skills@);
        total
    }

    /// Sets the remaining attribute and skill points to what the budget allows
    /// beyond the points already spent, or to zero where more is spent than
    /// allowed; allocations are kept as they are.
    pub fn recalculate_remaining_points_from_allocations(&mut self, budget: &PointBudget)
        requires
            budget.fits(),
            old(self).spent_stat_points_spec() <= u32::MAX,
        ensures
            *final(self) == old(self).pools_recalculated(*budget),
    {
        let allowed_stats = self.total_allowed_stat_points(budget);
        let spent_stats = self.spent_stat_points();
        self.stat_points_remaining = allowed_stats.saturating_sub(spent_stats);
        let allowed_skills = self.total_allowed_skill_points(budget);
        let spent_skills = self.spent_skill_points();
        self.skill_points_remaining = allowed_skills.saturating_sub(spent_skills);
    }

    /// Puts the attributes and vitals back to the class base and returns every
    /// allowed attribute point to the pool.
    pub fn reset_stats(&mut self, budget: &PointBudget)
        requires
            budget.allowed_stat_points() <= u32::MAX,
        ensures
            *final(self) == old(self).stats_reset(*budget),
    {
        self.strength = self.base.strength;
        self.dexterity = self.base.dexterity;
        self.vitality = self.base.vitality;
        self.energy = self.base.energy;
        self.stat_points_remaining = self.total_allowed_stat_points(budget);
        self.current_hp = self.base.hp;
        self.max_hp = self.base.hp;
        self.current_mana = self.base.mana;
        self.max_mana = self.base.mana;
        self.current_stamina = self.base.stamina;
        self.max_stamina = self.base.stamina;
    }

    /// Clears every skill and returns all allowed skill points to the pool.
    pub fn reset_skills(&mut self, budget: &PointBudget)
        requires
            budget.allowed_skill_points() <= u32::MAX,
        ensures
            *final(self) == old(self).skills_reset(*budget),
    {
        self.skills = [0u8; 30];
        self.skill_points_remaining = self.total_allowed_skill_points(budget);
    }
}

impl Savegame {
    /// Makes the point pools agree with the budget: where the spent points fit
    /// in it, the pool gets what is left; where they do not, the attributes
    /// (or skills) are reset and the pool gets the whole budget.
    pub fn normalize_point_totals(&mut self, budget: &PointBudget)
        requires
            budget.fits(),
            old(self).spent_stat_points_spec() <= u32::MAX,
        ensures
            *final(self) == old(self).normalized(*budget),
    {
        let allowed_stats = self.total_allowed_stat_points(budget);
        let spent_stats = self.spent_stat_points();
        if spent_stats <= allowed_stats {
            self.stat_points_remaining = allowed_stats - spent_stats;
        } else {
            self.reset_stats(budget);
        }
        let allowed_skills = self.total_allowed_skill_points(budget);
        let spent_skills = self.spent_skill_points();
        if spent_skills <= allowed_skills {
            self.skill_points_remaining = allowed_skills - spent_skills;
        } else {
            self.reset_skills(budget);
        }
    }
}

impl Savegame {
    /// Gold and stashed gold cut down to the caps.
    pub open spec fn gold_clamped(self, caps: GoldCaps) -> Savegame {
        Savegame {
            gold: min_u32(self.gold, caps.max_inventory_gold),
            stashed_gold: min_u32(self.stashed_gold, caps.max_stash_gold),
            ..self
        }
    }

    /// The character at `clamp(new_level, 1, 99)`, with the level's
    /// experience breakpoint, gold cut to its caps and, if the level changed,
    /// the point pools brought in line with its budget.
    pub open spec fn leveled(self, new_level: u32, rules: LevelRules) -> Savegame {
        let staged = Savegame {
            level: clamp_u32(new_level, 1, 99),
            experience: rules.experience,
            ..self.gold_clamped(rules.caps)
        };
        if clamp_u32(new_level, 1, 99) != self.level {
            staged.normalized(rules.budget)
        } else {
            staged
        }
    }

    /// Limits the carried and stashed gold to the caps.
    pub fn clamp_gold(&mut self, caps: &GoldCaps)
        ensures
            *final(self) == old(self).gold_clamped(*caps),
    {
        if self.gold > caps.max_inventory_gold {
            self.gold = caps.max_inventory_gold;
        }
        if self.stashed_gold > caps.max_stash_gold {
            self.stashed_gold = caps.max_stash_gold;
        }
    }

    /// Sets the carried gold, cut down to the cap.
    pub fn set_gold(&mut self, gold: u32, caps: &GoldCaps)
        ensures
            *final(self) == (Savegame { gold: min_u32(gold, caps.max_inventory_gold), ..*old(self) }),
    {
        self.gold = if gold <= caps.max_inventory_gold {
            gold
        } else {
            caps.max_inventory_gold
        };
    }

    /// Sets the stashed gold, cut down to the cap.
    pub fn set_stashed_gold(&mut self, stashed_gold: u32, caps: &GoldCaps)
        ensures
            *final(self) == (Savegame {
                stashed_gold: min_u32(stashed_gold, caps.max_stash_gold),
                ..*old(self)
            }),
    {
        self.stashed_gold = if stashed_gold <= caps.max_stash_gold {
            stashed_gold
        } else {
            caps.max_stash_gold
        };
    }

    /// The level that `set_level(new_level, ..)` lands on; the rules handed to
    /// `set_level` are those of this level.
    pub fn clamped_level(new_level: u32) -> (level: u32)
        ensures
            level == clamp_u32(new_level, 1, 99),
    {
        if new_level < 1 {
            1
        } else if new_level > 99 {
            99
        } else {
            new_level
        }
    }

    /// Moves the character to `new_level` clamped to 1..=99. `rules` are the
    /// rules at that clamped level. When the level changes the point pools are
    /// brought in line and the vitals must be recomputed.
    pub fn set_level(&mut self, new_level: u32, rules: &LevelRules) -> (follow_up: FollowUp)
        requires
            clamp_u32(new_level, 1, 99) != old(self).level ==> {
                &&& rules.budget.fits()
                &&& old(self).spent_stat_points_spec() <= u32::MAX
            },
        ensures
            *final(self) == old(self).leveled(new_level, *rules),
            follow_up == (if clamp_u32(new_level, 1, 99) != old(self).level {
                FollowUp::RecalculateVitals
            } else {
                FollowUp::Nothing
            }),
    {
        let old_level = self.level;
        self.level = Self::clamped_level(new_level);
        self.clamp_gold(&rules.caps);
        self.experience = rules.experience;
        if self.level != old_level {
            self.normalize_point_totals(&rules.budget);
            FollowUp::RecalculateVitals
        } else {
            FollowUp::Nothing
        }
    }

    /// Spends up to `amount` pool points on an attribute; other statistics
    /// are left alone.
    pub open spec fn increased(self, stat: CharacterStat, amount: u32) -> Savegame {
        let actual = min_u32(amount, self.stat_points_remaining);
        match self.attribute(stat) {
            Some(v) if actual != 0 => Savegame {
                stat_points_remaining: (self.stat_points_remaining - actual) as u32,
                ..self.with_attribute(stat, (v + actual) as u32)
            },
            _ => self,
        }
    }

    /// Returns up to `amount` points of an attribute above its base to the
    /// pool; other statistics are left alone.
    pub open spec fn decreased(self, stat: CharacterStat, amount: u32) -> Savegame {
        match self.attribute(stat) {
            Some(v) => {
                let diff = min_u32(sat_sub(v, self.base_attribute(stat)), amount);
                Savegame {
                    stat_points_remaining: (self.stat_points_remaining + diff) as u32,
                    ..self.with_attribute(stat, (v - diff) as u32)
                }
            },
            None => self,
        }
    }

    /// Moves `min(amount, stat_points_remaining)` points from the pool into
    /// the attribute `stat`. Statistics other than the four attributes, and a
    /// move of zero points, change nothing.
    pub fn increase_stat(&mut self, stat: CharacterStat, amount: u32) -> (follow_up: FollowUp)
        requires
            old(self).attribute(stat) matches Some(v) ==> v + min_u32(
                amount,
                old(self).stat_points_remaining,
            ) <= u32::MAX,
        ensures
            *final(self) == old(self).increased(stat, amount),
            follow_up == (if old(self).attribute(stat) is Some && min_u32(
                amount,
                old(self).stat_points_remaining,
            ) != 0 {
                FollowUp::RecalculateVitals
            } else {
                FollowUp::Nothing
            }),
    {
        let actual_amount = if amount <= self.stat_points_remaining {
            amount
        } else {
            self.stat_points_remaining
        };
        if actual_amount == 0 {
            return FollowUp::Nothing;
        }
        match stat {
            CharacterStat::Strength => self.strength = self.strength + actual_amount,
            CharacterStat::Dexterity => self.dexterity = self.dexterity + actual_amount,
            CharacterStat::Vitality => self.vitality = self.vitality + actual_amount,
            CharacterStat::Energy => self.energy = self.energy + actual_amount,
            _ => return FollowUp::Nothing,
        }
        self.stat_points_remaining = self.stat_points_remaining - actual_amount;
        FollowUp::RecalculateVitals
    }

    /// Moves up to `amount` points of the attribute `stat` above its class
    /// base back into the pool. The vitals are always to be recomputed.
    pub fn decrease_stat(&mut self, stat: CharacterStat, amount: u32) -> (follow_up: FollowUp)
        requires
            old(self).attribute(stat) matches Some(v) ==> old(self).stat_points_remaining
                + min_u32(sat_sub(v, old(self).base_attribute(stat)), amount) <= u32::MAX,
        ensures
            *final(self) == old(self).decreased(stat, amount),
            follow_up == FollowUp::RecalculateVitals,
    {
        match stat {
            CharacterStat::Strength => {
                let diff = self.strength.saturating_sub(self.base.strength);
                let diff = if diff <= amount { diff } else { amount };
                self.strength = self.strength - diff;
                self.stat_points_remaining = self.stat_points_remaining + diff;
            },
            CharacterStat::Dexterity => {
                let diff = self.dexterity.saturating_sub(self.base.dexterity);
                let diff = if diff <= amount { diff } else { amount };
                self.dexterity = self.dexterity - diff;
                self.stat_points_remaining = self.stat_points_remaining + diff;
            },
            CharacterStat::Vitality => {
                let diff = self.vitality.saturating_sub(self.base.vitality);
                let diff = if diff <= amount { diff } else { amount };
                self.vitality = self.vitality - diff;
                self.stat_points_remaining = self.stat_points_remaining + diff;
            },
            CharacterStat::Energy => {
                let diff = self.energy.saturating_sub(self.base.energy);
                let diff = if diff <= amount { diff } else { amount };
                self.energy = self.energy - diff;
                self.stat_points_remaining = self.stat_points_remaining + diff;
            },
            _ => {},
        }
        FollowUp::RecalculateVitals
    }

    /// Returns every point of `stat` above its class base to the pool.
    pub fn minimize_stat(&mut self, stat: CharacterStat) -> (follow_up: FollowUp)
        requires
            old(self).attribute(stat) matches Some(v) ==> old(self).stat_points_remaining
                + sat_sub(v, old(self).base_attribute(stat)) <= u32::MAX,
        ensures
            *final(self) == old(self).decreased(stat, u32::MAX),
            follow_up == FollowUp::RecalculateVitals,
    {
        self.decrease_stat(stat, u32::MAX)
    }

    /// Spends the whole pool on `stat`.
    pub fn maximize_stat(&mut self, stat: CharacterStat) -> (follow_up: FollowUp)
        requires
            old(self).attribute(stat) matches Some(v) ==> v + old(self).stat_points_remaining
                <= u32::MAX,
        ensures
            *final(self) == old(self).increased(stat, old(self).stat_points_remaining),
            follow_up == (if old(self).attribute(stat) is Some && old(self).stat_points_remaining
                != 0 {
                FollowUp::RecalculateVitals
            } else {
                FollowUp::Nothing
            }),
    {
        let amount = self.stat_points_remaining;
        self.increase_stat(stat, amount)
    }
}

impl Savegame {
    /// Life before items: class base, level and vitality growth, plus 20 for
    /// every difficulty with the Golden Bird quest completed.
    pub fn base_life(&self, growth: &VitalGrowth) -> (life: u32)
        requires
            self.base_life_spec(growth) <= u32::MAX,
        ensures
            life == self.base_life_spec(growth),
    {
        let mut golden_bird_bonus: u32 = 0;
        if growth.golden_bird_completed[0] {
            golden_bird_bonus = golden_bird_bonus + 20;
        }
        if growth.golden_bird_completed[1] {
            golden_bird_bonus = golden_bird_bonus + 20;
        }
        if growth.golden_bird_completed[2] {
            golden_bird_bonus = golden_bird_bonus + 20;
        }
        self.base.hp + growth.life_for_level + growth.life_for_vitality + golden_bird_bonus
    }

    /// Mana before items: class base plus level and energy growth.
    pub fn base_mana(&self, growth: &VitalGrowth) -> (mana: u32)
        requires
            self.base_mana_spec(growth) <= u32::MAX,
        ensures
            mana == self.base_mana_spec(growth),
    {
        self.base.mana + growth.mana_for_level + growth.mana_for_energy
    }

    /// Stamina before items: class base plus level and vitality growth.
    pub fn base_stamina(&self, growth: &VitalGrowth) -> (stamina: u32)
        requires
            self.base_stamina_spec(growth) <= u32::MAX,
        ensures
            stamina == self.base_stamina_spec(growth),
    {
        self.base.stamina + growth.stamina_for_level + growth.stamina_for_vitality
    }

    /// New maximum vitals from `growth`, each current value keeping the same
    /// shortfall from its maximum (but not below zero).
    pub open spec fn vitals_recalculated(self, growth: VitalGrowth) -> Savegame {
        let life = self.base_life_spec(&growth) as u32;
        let mana = self.base_mana_spec(&growth) as u32;
        let stamina = self.base_stamina_spec(&growth) as u32;
        Savegame {
            max_hp: life,
            current_hp: sat_sub(life, sat_sub(self.max_hp, self.current_hp)),
            max_mana: mana,
            current_mana: sat_sub(mana, sat_sub(self.max_mana, self.current_mana)),
            max_stamina: stamina,
            current_stamina: sat_sub(stamina, sat_sub(self.max_stamina, self.current_stamina)),
            ..self
        }
    }

    /// Recomputes the maximum vitals from `growth` (the growth values of the
    /// character as it stands) and keeps how far each current value is below
    /// its maximum.
    pub fn recalculate_vitals(&mut self, growth: &VitalGrowth)
        requires
            old(self).vitals_fit(growth),
        ensures
            *final(self) == old(self).vitals_recalculated(*growth),
    {
        let hp_diff = self.max_hp.saturating_sub(self.current_hp);
        let mana_diff = self.max_mana.saturating_sub(self.current_mana);
        let stamina_diff = self.max_stamina.saturating_sub(self.current_stamina);
        self.max_hp = self.base_life(growth);
        self.max_mana = self.base_mana(growth);
        self.max_stamina = self.base_stamina(growth);
        self.current_hp = self.max_hp.saturating_sub(hp_diff);
        self.current_mana = self.max_mana.saturating_sub(mana_diff);
        self.current_stamina = self.max_stamina.saturating_sub(stamina_diff);
    }

    /// Renames the character to the first 15 characters of `new_name`.
    pub fn set_name(&mut self, new_name: String)
        ensures
            final(self).name@ == new_name@.take(
                if new_name@.len() < 15 {
                    new_name@.len() as int
                } else {
                    15
                },
            ),
            *final(self) == (Savegame { name: final(self).name, ..*old(self) }),
    {
        let chars = new_name.as_str();
        let n = chars.unicode_len();
        let keep = if n < 15 {
            n
        } else {
            15
        };
        let prefix = chars.substring_char(0, keep);
        self.name = String::from_str(prefix);
        assert(new_name@.subrange(0, keep as int) =~= new_name@.take(keep as int));
    }

    /// Marks the character as dead or alive again; only hardcore characters
    /// can be toggled.
    pub fn toggle_dead(&mut self)
        ensures
            *final(self) == (Savegame {
                died: if old(self).hardcore {
                    !old(self).died
                } else {
                    old(self).died
                },
                ..*old(self)
            }),
    {
        if self.hardcore {
            self.died = !self.died;
        }
    }
}

impl Savegame {
    /// Every quest row and every waypoint row has the same length in `self`
    /// as in `other`: the shape of the quest and waypoint tables.
    pub open spec fn same_row_lengths(self, other: Savegame) -> bool {
        forall|d: int|
            0 <= d < 3 ==> {
                &&& (#[trigger] self.quests@[d])@.len() == other.quests@[d]@.len()
                &&& self.waypoints@[d]@.len() == other.waypoints@[d]@.len()
            }
    }
}

/// Whether `d` is one of the difficulties that `difficulty` selects: the one
/// given (when it is below 3), or all three for `None`.
pub open spec fn selects_difficulty(difficulty: Option<usize>, d: int) -> bool {
    match difficulty {
        Some(x) => x < 3 && d == x,
        None => 0 <= d < 3,
    }
}

fn filled_row(len: usize, state: bool) -> (row: Vec<bool>)
    ensures
        row@ == Seq::new(len as nat, |i: int| state),
{
    let mut row: Vec<bool> = Vec::new();
    let mut i: usize = 0;
    while i < len
        invariant
            i <= len,
            row@ == Seq::new(i as nat, |k: int| state),
        decreases len - i,
    {
        row.push(state);
        i = i + 1;
        assert(row@ =~= Seq::new(i as nat, |k: int| state));
    }
    row
}

impl Savegame {
    /// Sets every waypoint of one difficulty (`Some(d)` with `d < 3`) or of
    /// all three (`None`) to `state`. Any other difficulty changes nothing.
    pub fn toggle_all_waypoints(&mut self, difficulty: Option<usize>, state: bool)
        ensures
            forall|d: int|
                0 <= d < 3 ==> #[trigger] final(self).waypoints@[d]@ == if selects_difficulty(
                    difficulty,
                    d,
                ) {
                    Seq::new(old(self).waypoints@[d]@.len(), |i: int| state)
                } else {
                    old(self).waypoints@[d]@
                },
            *final(self) == (Savegame { waypoints: final(self).waypoints, ..*old(self) }),
            final(self).same_row_lengths(*old(self)),
    {
        match difficulty {
            Some(diff) if diff < 3 => {
                let row = filled_row(self.waypoints[diff].len(), state);
                self.waypoints[diff] = row;
            },
            None => {
                let mut diff: usize = 0;
                while diff < 3
                    invariant
                        diff <= 3,
                        difficulty is None,
                        forall|d: int|
                            0 <= d < 3 ==> #[trigger] self.waypoints@[d]@ == if d < diff {
                                Seq::new(old(self).waypoints@[d]@.len(), |i: int| state)
                            } else {
                                old(self).waypoints@[d]@
                            },
                        *self == (Savegame { waypoints: self.waypoints, ..*old(self) }),
                    decreases 3 - diff,
                {
                    let row = filled_row(self.waypoints[diff].len(), state);
                    self.waypoints[diff] = row;
                    diff = diff + 1;
                }
            },
            _ => {},
        }
    }

    /// Flips one waypoint; indices outside the waypoint table change nothing.
    pub fn toggle_waypoint(&mut self, difficulty: usize, index: usize)
        ensures
            forall|d: int|
                0 <= d < 3 ==> #[trigger] final(self).waypoints@[d]@ == if d == difficulty && index
                    < old(self).waypoints@[d]@.len() {
                    old(self).waypoints@[d]@.update(index as int, !old(self).waypoints@[d]@[index as int])
                } else {
                    old(self).waypoints@[d]@
                },
            *final(self) == (Savegame { waypoints: final(self).waypoints, ..*old(self) }),
            final(self).same_row_lengths(*old(self)),
    {
        if difficulty < 3 && index < self.waypoints[difficulty].len() {
            let mut row = self.waypoints[difficulty].clone();
            let flipped = !row[index];
            row.set(index, flipped);
            self.waypoints[difficulty] = row;
        }
    }
}

impl Savegame {
    /// Whether `quest_idx` names a quest word of difficulty `difficulty`.
    pub open spec fn quest_in_range(self, difficulty: usize, quest_idx: usize) -> bool {
        difficulty < 3 && quest_idx < self.quests@[difficulty as int]@.len()
    }

    /// The character after flipping one quest: the difficulty's words replaced
    /// by those the quest rules give, and the quest's rewards added to the
    /// pools when it becomes completed, or taken back (not below zero) when it
    /// stops being completed. Out-of-range quests change nothing.
    pub open spec fn quest_toggled(self, difficulty: usize, quest_idx: usize, step: QuestToggle) -> Savegame {
        if self.quest_in_range(difficulty, quest_idx) {
            Savegame {
                quests: vstd::array::spec_array_update(self.quests, difficulty as int, step.words_after),
                skill_points_remaining: if step.was_completed {
                    sat_sub(self.skill_points_remaining, step.skill_reward)
                } else {
                    (self.skill_points_remaining + step.skill_reward) as u32
                },
                stat_points_remaining: if step.was_completed {
                    sat_sub(self.stat_points_remaining, step.stat_reward)
                } else {
                    (self.stat_points_remaining + step.stat_reward) as u32
                },
                ..self
            }
        } else {
            self
        }
    }

    /// The quest word at `quest_idx` of difficulty `difficulty`, if there is one.
    pub fn quest_word(&self, difficulty: usize, quest_idx: usize) -> (word: Option<u16>)
        ensures
            word == (if self.quest_in_range(difficulty, quest_idx) {
                Some(self.quests@[difficulty as int]@[quest_idx as int])
            } else {
                None::<u16>
            }),
    {
        if difficulty < 3 && quest_idx < self.quests[difficulty].len() {
            Some(self.quests[difficulty][quest_idx])
        } else {
            None
        }
    }

    /// Flips the completion of one quest, as `step` describes it, and moves
    /// its rewards into or out of the pools. The vitals are then to be
    /// recomputed (the Golden Bird quest adds life).
    pub fn toggle_quest(&mut self, difficulty: usize, quest_idx: usize, step: QuestToggle) -> (follow_up: FollowUp)
        requires
            old(self).quest_in_range(difficulty, quest_idx) ==> step.words_after@.len()
                == old(self).quests@[difficulty as int]@.len(),
            old(self).quest_in_range(difficulty, quest_idx) && !step.was_completed ==> {
                &&& old(self).skill_points_remaining + step.skill_reward <= u32::MAX
                &&& old(self).stat_points_remaining + step.stat_reward <= u32::MAX
            },
        ensures
            *final(self) == old(self).quest_toggled(difficulty, quest_idx, step),
            final(self).same_row_lengths(*old(self)),
            follow_up == (if old(self).quest_in_range(difficulty, quest_idx) {
                FollowUp::RecalculateVitals
            } else {
                FollowUp::Nothing
            }),
    {
        if difficulty < 3 && quest_idx < self.quests[difficulty].len() {
            let was_completed = step.was_completed;
            let skill_reward = step.skill_reward;
            let stat_reward = step.stat_reward;
            self.quests[difficulty] = step.words_after;
            if was_completed {
                self.skill_points_remaining = self.skill_points_remaining.saturating_sub(
                    skill_reward,
                );
                self.stat_points_remaining = self.stat_points_remaining.saturating_sub(stat_reward);
            } else {
                self.skill_points_remaining = self.skill_points_remaining + skill_reward;
                self.stat_points_remaining = self.stat_points_remaining + stat_reward;
            }
            FollowUp::RecalculateVitals
        } else {
            FollowUp::Nothing
        }
    }

    /// Flips a quest only when its completion differs from `state`.
    pub fn toggle_quest_to(
        &mut self,
        difficulty: usize,
        quest_idx: usize,
        state: bool,
        step: QuestToggle,
    ) -> (follow_up: FollowUp)
        requires
            step.was_completed != state && old(self).quest_in_range(difficulty, quest_idx)
                ==> step.words_after@.len() == old(self).quests@[difficulty as int]@.len(),
            step.was_completed != state && old(self).quest_in_range(difficulty, quest_idx)
                && !step.was_completed ==> {
                &&& old(self).skill_points_remaining + step.skill_reward <= u32::MAX
                &&& old(self).stat_points_remaining + step.stat_reward <= u32::MAX
            },
        ensures
            final(self).same_row_lengths(*old(self)),
            *final(self) == if step.was_completed != state {
                old(self).quest_toggled(difficulty, quest_idx, step)
            } else {
                *old(self)
            },
            follow_up == (if step.was_completed != state && old(self).quest_in_range(
                difficulty,
                quest_idx,
            ) {
                FollowUp::RecalculateVitals
            } else {
                FollowUp::Nothing
            }),
    {
        if step.was_completed != state {
            self.toggle_quest(difficulty, quest_idx, step)
        } else {
            FollowUp::Nothing
        }
    }
}

/// The (difficulty, quest index) pairs that setting every visible quest
/// visits, in order: the visible quests of one difficulty (`Some(d)` with
/// `d < 3`), of all three in turn (`None`), or none.
pub open spec fn sweep_spec(difficulty: Option<usize>, visible: Seq<usize>) -> Seq<(usize, usize)> {
    match difficulty {
        Some(d) => if d < 3 {
            visible.map_values(|q: usize| (d, q))
        } else {
            Seq::empty()
        },
        None => visible.map_values(|q: usize| (0usize, q)) + visible.map_values(
            |q: usize| (1usize, q),
        ) + visible.map_values(|q: usize| (2usize, q)),
    }
}

fn push_row_targets(targets: &mut Vec<(usize, usize)>, d: usize, visible: &[usize])
    ensures
        final(targets)@ == old(targets)@ + visible@.map_values(|q: usize| (d, q)),
{
    let mut i: usize = 0;
    while i < visible.len()
        invariant
            i <= visible@.len(),
            targets@ == old(targets)@ + visible@.take(i as int).map_values(|q: usize| (d, q)),
        decreases visible@.len() - i,
    {
        targets.push((d, visible[i]));
        assert(visible@.take(i + 1).map_values(|q: usize| (d, q)) =~= visible@.take(
            i as int,
        ).map_values(|q: usize| (d, q)).push((d, visible@[i as int])));
        i = i + 1;
    }
    assert(visible@.take(i as int) =~= visible@);
}

impl Savegame {
    /// The quests, in order, that setting all visible quests of `difficulty`
    /// to one state goes through; each is then flipped with
    /// `toggle_quest_to` where its completion differs.
    pub fn quest_sweep(difficulty: Option<usize>, visible: &[usize]) -> (targets: Vec<(usize, usize)>)
        ensures
            targets@ == sweep_spec(difficulty, visible@),
    {
        let mut targets: Vec<(usize, usize)> = Vec::new();
        match difficulty {
            Some(d) => {
                if d < 3 {
                    push_row_targets(&mut targets, d, visible);
                }
            },
            None => {
                push_row_targets(&mut targets, 0, visible);
                push_row_targets(&mut targets, 1, visible);
                push_row_targets(&mut targets, 2, visible);
            },
        }
        assert(targets@ =~= sweep_spec(difficulty, visible@));
        targets
    }
}

/// The statistics of a character file as read, before defaults are filled
/// in: `None` marks a statistic that the file does not hold.
#[derive(Debug, Clone)]
pub struct LoadedCharacter {
    pub name: String,
    pub class: CharacterClass,
    pub base: BaseStats,
    /// The raw version number in the file header.
    pub version_raw: u32,
    /// Whether the header's expansion mode is Reign of the Warlock.
    pub rotw_mode: bool,
    pub level: Option<u32>,
    pub experience: Option<u32>,
    pub gold: Option<u32>,
    pub stashed_gold: Option<u32>,
    pub strength: Option<u32>,
    pub dexterity: Option<u32>,
    pub vitality: Option<u32>,
    pub energy: Option<u32>,
    pub stat_points: Option<u32>,
    pub skill_points: Option<u32>,
    /// Vitals as stored: in 1/256 units.
    pub hit_points: Option<u32>,
    pub max_hit_points: Option<u32>,
    pub mana: Option<u32>,
    pub max_mana: Option<u32>,
    pub stamina: Option<u32>,
    pub max_stamina: Option<u32>,
    pub skills: [u8; 30],
    pub quests: [Vec<u16>; 3],
    pub waypoints: [Vec<bool>; 3],
    pub hardcore: bool,
    pub died: bool,
}

/// The game release that a header describes: versions from 0x61 on are
/// Resurrected, or Reign of the Warlock when the expansion mode says so or
/// the class is the Warlock; older ones are Legacy.
pub open spec fn game_version_spec(version_raw: u32, rotw_mode: bool, class: CharacterClass) -> GameVersion {
    if version_raw >= 0x61 {
        if rotw_mode || class == CharacterClass::Warlock {
            GameVersion::Warlock
        } else {
            GameVersion::Resurrected
        }
    } else {
        GameVersion::Legacy
    }
}

/// Works out the game release from a header's version and mode.
pub fn detect_game_version(version_raw: u32, rotw_mode: bool, class: CharacterClass) -> (v: GameVersion)
    ensures
        v == game_version_spec(version_raw, rotw_mode, class),
{
    if version_raw >= 0x61 {
        if rotw_mode || class == CharacterClass::Warlock {
            GameVersion::Warlock
        } else {
            GameVersion::Resurrected
        }
    } else {
        GameVersion::Legacy
    }
}

/// A stored vital (in 1/256 units) in whole points, with the class base
/// standing in for a missing value.
pub open spec fn vital_points(stored: Option<u32>, base: u32) -> u32 {
    match stored {
        Some(v) => v >> 8u32,
        None => (base << 8u32) >> 8u32,
    }
}

/// The value of a stored statistic, or `default` where the file has none.
pub open spec fn or_default(stored: Option<u32>, default: u32) -> u32 {
    match stored {
        Some(v) => v,
        None => default,
    }
}

fn vital_from_stored(stored: Option<u32>, base: u32) -> (v: u32)
    ensures
        v == vital_points(stored, base),
{
    match stored {
        Some(v) => v >> 8u32,
        None => (base << 8u32) >> 8u32,
    }
}

fn stored_or(stored: Option<u32>, default: u32) -> (v: u32)
    ensures
        v == or_default(stored, default),
{
    match stored {
        Some(v) => v,
        None => default,
    }
}

impl LoadedCharacter {
    /// The character that the loaded statistics describe, with missing ones
    /// defaulted: level 1, no experience, gold or points, base attributes and
    /// base vitals.
    pub open spec fn character(self) -> Savegame {
        Savegame {
            name: self.name,
            class: self.class,
            base: self.base,
            level: or_default(self.level, 1),
            experience: or_default(self.experience, 0),
            gold: or_default(self.gold, 0),
            stashed_gold: or_default(self.stashed_gold, 0),
            strength: or_default(self.strength, self.base.strength),
            dexterity: or_default(self.dexterity, self.base.dexterity),
            vitality: or_default(self.vitality, self.base.vitality),
            energy: or_default(self.energy, self.base.energy),
            stat_points_remaining: or_default(self.stat_points, 0),
            skill_points_remaining: or_default(self.skill_points, 0),
            current_hp: vital_points(self.hit_points, self.base.hp),
            max_hp: vital_points(self.max_hit_points, self.base.hp),
            current_mana: vital_points(self.mana, self.base.mana),
            max_mana: vital_points(self.max_mana, self.base.mana),
            current_stamina: vital_points(self.stamina, self.base.stamina),
            max_stamina: vital_points(self.max_stamina, self.base.stamina),
            skills: self.skills,
            quests: self.quests,
            hardcore: self.hardcore,
            died: self.died,
            waypoints: self.waypoints,
            game_version: game_version_spec(self.version_raw, self.rotw_mode, self.class),
        }
    }

    /// The level the loaded character has: the stored one, or 1.
    pub fn effective_level(&self) -> (level: u32)
        ensures
            level == or_default(self.level, 1),
    {
        stored_or(self.level, 1)
    }
}

impl Savegame {
    /// A fresh level 1 character of `class` for Reign of the Warlock: base
    /// attributes and vitals, no gold, no points, no skills, no waypoints.
    pub fn generate_blank_template(
        class: CharacterClass,
        name: String,
        base: BaseStats,
        quests: [Vec<u16>; 3],
        waypoint_count: usize,
    ) -> (save: Savegame)
        ensures
            save.name@ == name@,
            save.class == class,
            save.base == base,
            save.level == 1,
            save.experience == 0,
            save.gold == 0,
            save.stashed_gold == 0,
            save.strength == base.strength,
            save.dexterity == base.dexterity,
            save.vitality == base.vitality,
            save.energy == base.energy,
            save.stat_points_remaining == 0,
            save.skill_points_remaining == 0,
            save.current_hp == base.hp,
            save.max_hp == base.hp,
            save.current_mana == base.mana,
            save.max_mana == base.mana,
            save.current_stamina == base.stamina,
            save.max_stamina == base.stamina,
            save.skills == no_skills(),
            save.quests == quests,
            !save.hardcore,
            !save.died,
            forall|d: int| 0 <= d < 3 ==> #[trigger] save.waypoints@[d]@ == Seq::new(waypoint_count as nat, |i: int| false),
            save.game_version == GameVersion::Warlock,
    {
        let w0 = filled_row(waypoint_count, false);
        let w1 = filled_row(waypoint_count, false);
        let w2 = filled_row(waypoint_count, false);
        Savegame {
            name,
            class,
            base,
            level: 1,
            experience: 0,
            gold: 0,
            stashed_gold: 0,
            strength: base.strength,
            dexterity: base.dexterity,
            vitality: base.vitality,
            energy: base.energy,
            stat_points_remaining: 0,
            skill_points_remaining: 0,
            current_hp: base.hp,
            max_hp: base.hp,
            current_mana: base.mana,
            max_mana: base.mana,
            current_stamina: base.stamina,
            max_stamina: base.stamina,
            skills: [0u8; 30],
            quests,
            hardcore: false,
            died: false,
            waypoints: [w0, w1, w2],
            game_version: GameVersion::Warlock,
        }
    }

    /// The character that a loaded file describes, with missing statistics
    /// defaulted: level 1, no experience, gold or points, base attributes and
    /// base vitals. Vitals are stored in 1/256 units and read in whole
    /// points. Gold is not yet clamped and the pools not yet recomputed.
    pub fn from_loaded(loaded: LoadedCharacter) -> (save: Savegame)
        ensures
            save == loaded.character(),
            save.name@ == loaded.name@,
            save.class == loaded.class,
            save.base == loaded.base,
            save.level == or_default(loaded.level, 1),
            save.experience == or_default(loaded.experience, 0),
            save.gold == or_default(loaded.gold, 0),
            save.stashed_gold == or_default(loaded.stashed_gold, 0),
            save.strength == or_default(loaded.strength, loaded.base.strength),
            save.dexterity == or_default(loaded.dexterity, loaded.base.dexterity),
            save.vitality == or_default(loaded.vitality, loaded.base.vitality),
            save.energy == or_default(loaded.energy, loaded.base.energy),
            save.stat_points_remaining == or_default(loaded.stat_points, 0),
            save.skill_points_remaining == or_default(loaded.skill_points, 0),
            save.current_hp == vital_points(loaded.hit_points, loaded.base.hp),
            save.max_hp == vital_points(loaded.max_hit_points, loaded.base.hp),
            save.current_mana == vital_points(loaded.mana, loaded.base.mana),
            save.max_mana == vital_points(loaded.max_mana, loaded.base.mana),
            save.current_stamina == vital_points(loaded.stamina, loaded.base.stamina),
            save.max_stamina == vital_points(loaded.max_stamina, loaded.base.stamina),
            save.skills == loaded.skills,
            save.quests == loaded.quests,
            save.waypoints == loaded.waypoints,
            save.hardcore == loaded.hardcore,
            save.died == loaded.died,
            save.game_version == game_version_spec(loaded.version_raw, loaded.rotw_mode, loaded.class),
    {
        let base = loaded.base;
        let game_version = detect_game_version(loaded.version_raw, loaded.rotw_mode, loaded.class);
        Savegame {
            level: stored_or(loaded.level, 1),
            experience: stored_or(loaded.experience, 0),
            gold: stored_or(loaded.gold, 0),
            stashed_gold: stored_or(loaded.stashed_gold, 0),
            strength: stored_or(loaded.strength, base.strength),
            dexterity: stored_or(loaded.dexterity, base.dexterity),
            vitality: stored_or(loaded.vitality, base.vitality),
            energy: stored_or(loaded.energy, base.energy),
            stat_points_remaining: stored_or(loaded.stat_points, 0),
            skill_points_remaining: stored_or(loaded.skill_points, 0),
            current_hp: vital_from_stored(loaded.hit_points, base.hp),
            max_hp: vital_from_stored(loaded.max_hit_points, base.hp),
            current_mana: vital_from_stored(loaded.mana, base.mana),
            max_mana: vital_from_stored(loaded.max_mana, base.mana),
            current_stamina: vital_from_stored(loaded.stamina, base.stamina),
            max_stamina: vital_from_stored(loaded.max_stamina, base.stamina),
            name: loaded.name,
            class: loaded.class,
            base,
            skills: loaded.skills,
            quests: loaded.quests,
            hardcore: loaded.hardcore,
            died: loaded.died,
            waypoints: loaded.waypoints,
            game_version,
        }
    }
}

impl Savegame {
    /// A loaded character made ready for editing: missing statistics
    /// defaulted, gold cut to the caps, and both point pools recomputed from
    /// the allocations (the stored pools are not kept). `caps` and `budget`
    /// are the rules at `loaded.effective_level()` for its quests.
    pub fn load(loaded: LoadedCharacter, caps: &GoldCaps, budget: &PointBudget) -> (save: Savegame)
        requires
            budget.fits(),
            loaded.character().spent_stat_points_spec() <= u32::MAX,
        ensures
            save == loaded.character().gold_clamped(*caps).pools_recalculated(*budget),
    {
        let mut save = Savegame::from_loaded(loaded);
        save.clamp_gold(caps);
        save.recalculate_remaining_points_from_allocations(budget);
        save
    }
}

} // verus!
