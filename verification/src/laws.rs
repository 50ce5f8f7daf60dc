use vstd::prelude::*;
use crate::model::{
    LoadedCharacter, GoldCaps,
    lemma_level_sum_bound, level_sum, min_u32, no_skills, sat_sub, CharacterStat, LevelRules, PointBudget, QuestToggle,
    Savegame, VitalGrowth,
};
use crate::save::{bit_at, bits_of, checksum_step, packs, spec_checksum, u8_bit};

verus! {

proof fn lemma_no_skills_sum()
    ensures
        level_sum(no_skills()@) == 0,
{
    broadcast use vstd::array::group_array_axioms;

    let z = no_skills()@;
    assert forall|n: int| 0 <= n <= 30 implies #[trigger] level_sum(z.take(n)) == 0 by {
        lemma_zero_prefix_sum(z, n);
    }
    assert(z.take(30) =~= z);
}

proof fn lemma_zero_prefix_sum(z: Seq<u8>, n: int)
    requires
        0 <= n <= z.len(),
        forall|i: int| 0 <= i < z.len() ==> z[i] == 0,
    ensures
        level_sum(z.take(n)) == 0,
    decreases n,
{
    if n > 0 {
        assert(z.take(n).drop_last() =~= z.take(n - 1));
        lemma_zero_prefix_sum(z, n - 1);
    }
}

/// A loaded character is ready for editing: its gold is within the caps and
/// its pools are what the budget leaves beyond the loaded allocations.
pub proof fn lemma_loaded_character_ready(loaded: LoadedCharacter, caps: GoldCaps, budget: PointBudget)
    requires
        budget.fits(),
    ensures
        loaded.character().gold_clamped(caps).pools_recalculated(budget).gold <= caps.max_inventory_gold,
        loaded.character().gold_clamped(caps).pools_recalculated(budget).stashed_gold
            <= caps.max_stash_gold,
        loaded.character().gold_clamped(caps).pools_recalculated(budget).stat_points_remaining
            == sat_sub(
            budget.allowed_stat_points() as u32,
            loaded.character().spent_stat_points_spec() as u32,
        ),
        loaded.character().gold_clamped(caps).pools_recalculated(budget).skill_points_remaining
            == sat_sub(
            budget.allowed_skill_points() as u32,
            loaded.character().spent_skill_points_spec() as u32,
        ),
{
}

/// Moving points between the pool and an attribute keeps their sum: what an
/// attribute gains the pool loses, and the other way round.
pub proof fn lemma_stat_edits_conserve_points(s: Savegame, stat: CharacterStat, amount: u32)
    requires
        s.attribute(stat) is Some,
        s.attribute(stat)->0 + min_u32(amount, s.stat_points_remaining) <= u32::MAX,
        s.stat_points_remaining + min_u32(sat_sub(s.attribute(stat)->0, s.base_attribute(stat)), amount)
            <= u32::MAX,
    ensures
        s.increased(stat, amount).attribute(stat)->0 + s.increased(stat, amount).stat_points_remaining
            == s.attribute(stat)->0 + s.stat_points_remaining,
        s.decreased(stat, amount).attribute(stat)->0 + s.decreased(stat, amount).stat_points_remaining
            == s.attribute(stat)->0 + s.stat_points_remaining,
{
}

/// Attribute edits keep the point budget balanced: where the points spent
/// above the class base plus the pool make up the budget, they still do after
/// raising or lowering an attribute that is at or above its base.
pub proof fn lemma_stat_edits_keep_budget_balanced(
    s: Savegame,
    stat: CharacterStat,
    amount: u32,
    budget: PointBudget,
)
    requires
        s.attribute(stat) is Some,
        s.attribute(stat)->0 >= s.base_attribute(stat),
        s.attribute(stat)->0 + min_u32(amount, s.stat_points_remaining) <= u32::MAX,
        s.stat_points_remaining + min_u32(sat_sub(s.attribute(stat)->0, s.base_attribute(stat)), amount)
            <= u32::MAX,
        s.spent_stat_points_spec() + s.stat_points_remaining == budget.allowed_stat_points(),
    ensures
        s.increased(stat, amount).spent_stat_points_spec() + s.increased(stat, amount).stat_points_remaining
            == budget.allowed_stat_points(),
        s.decreased(stat, amount).spent_stat_points_spec() + s.decreased(stat, amount).stat_points_remaining
            == budget.allowed_stat_points(),
{
}

/// Lowering an attribute never takes it below its class base: an attribute
/// at or below its base is left as it is, one above it stays at or above it.
pub proof fn lemma_decrease_stops_at_base(s: Savegame, stat: CharacterStat, amount: u32)
    requires
        s.attribute(stat) is Some,
        s.stat_points_remaining + min_u32(sat_sub(s.attribute(stat)->0, s.base_attribute(stat)), amount)
            <= u32::MAX,
    ensures
        s.attribute(stat)->0 <= s.base_attribute(stat) ==> s.decreased(stat, amount) == s,
        s.attribute(stat)->0 > s.base_attribute(stat) ==> s.decreased(stat, amount).attribute(stat)->0
            >= s.base_attribute(stat),
{
}

/// Raising an attribute by some points and then lowering it by the points
/// actually moved gives back the same character, for an attribute at or
/// above its base.
pub proof fn lemma_increase_then_decrease_restores(s: Savegame, stat: CharacterStat, amount: u32)
    requires
        s.attribute(stat) is Some,
        s.attribute(stat)->0 >= s.base_attribute(stat),
        s.attribute(stat)->0 + min_u32(amount, s.stat_points_remaining) <= u32::MAX,
    ensures
        s.increased(stat, amount).decreased(stat, min_u32(amount, s.stat_points_remaining)) == s,
{
}

/// Spending the whole pool on an attribute and then taking that attribute
/// down to its minimum leaves the attribute at its base with every point above
/// the base in the pool; for an attribute that started at its base this is
/// the character it started as.
pub proof fn lemma_maximize_then_minimize(s: Savegame, stat: CharacterStat)
    requires
        s.attribute(stat) is Some,
        s.attribute(stat)->0 >= s.base_attribute(stat),
        s.attribute(stat)->0 + s.stat_points_remaining <= u32::MAX,
    ensures
        s.increased(stat, s.stat_points_remaining).decreased(stat, u32::MAX) == (Savegame {
            stat_points_remaining: (s.stat_points_remaining + s.attribute(stat)->0
                - s.base_attribute(stat)) as u32,
            ..s.with_attribute(stat, s.base_attribute(stat))
        }),
        s.attribute(stat)->0 == s.base_attribute(stat) ==> s.increased(
            stat,
            s.stat_points_remaining,
        ).decreased(stat, u32::MAX) == s,
{
}

/// After the pools are brought in line with a budget, the points spent plus
/// the points left make up exactly what the budget allows, for attributes and
/// for skills.
pub proof fn lemma_normalized_balances_budget(s: Savegame, budget: PointBudget)
    requires
        budget.fits(),
    ensures
        s.normalized(budget).spent_stat_points_spec() + s.normalized(budget).stat_points_remaining
            == budget.allowed_stat_points(),
        s.normalized(budget).spent_skill_points_spec() + s.normalized(budget).skill_points_remaining
            == budget.allowed_skill_points(),
{
    lemma_no_skills_sum();
    lemma_level_sum_bound(s.skills@);
    let m = s.stats_normalized(budget);
    assert(m.skills == s.skills);
    assert(m.spent_skill_points_spec() == s.spent_skill_points_spec());
    let n = m.skills_normalized(budget);
    if m.spent_skill_points_spec() > budget.allowed_skill_points() {
        assert(n.skills == no_skills());
        assert(n.spent_skill_points_spec() == 0);
    }
}

/// Allocations that the budget can pay for survive normalization untouched.
pub proof fn lemma_normalize_keeps_affordable_allocations(s: Savegame, budget: PointBudget)
    requires
        budget.fits(),
    ensures
        s.spent_stat_points_spec() <= budget.allowed_stat_points() ==> {
            &&& s.normalized(budget).strength == s.strength
            &&& s.normalized(budget).dexterity == s.dexterity
            &&& s.normalized(budget).vitality == s.vitality
            &&& s.normalized(budget).energy == s.energy
        },
        s.spent_skill_points_spec() <= budget.allowed_skill_points() ==> s.normalized(budget).skills
            == s.skills,
{
}

/// Changing the level always lands on a level in 1..=99 with that level's
/// experience breakpoint, and leaves the gold within the level's caps.
pub proof fn lemma_leveled_within_bounds(s: Savegame, new_level: u32, rules: LevelRules)
    requires
        rules.budget.fits(),
    ensures
        1 <= s.leveled(new_level, rules).level <= 99,
        s.leveled(new_level, rules).experience == rules.experience,
        s.leveled(new_level, rules).gold <= rules.caps.max_inventory_gold,
        s.leveled(new_level, rules).stashed_gold <= rules.caps.max_stash_gold,
{
}

/// Completing a quest and then undoing it, with the same rewards, leaves
/// both point pools where they were.
pub proof fn lemma_quest_toggle_round_trip(
    s: Savegame,
    difficulty: usize,
    quest_idx: usize,
    complete: QuestToggle,
    undo: QuestToggle,
)
    requires
        s.quest_in_range(difficulty, quest_idx),
        !complete.was_completed,
        undo.was_completed,
        undo.skill_reward == complete.skill_reward,
        undo.stat_reward == complete.stat_reward,
        complete.words_after@.len() == s.quests@[difficulty as int]@.len(),
        s.skill_points_remaining + complete.skill_reward <= u32::MAX,
        s.stat_points_remaining + complete.stat_reward <= u32::MAX,
    ensures
        s.quest_toggled(difficulty, quest_idx, complete).quest_toggled(
            difficulty,
            quest_idx,
            undo,
        ).skill_points_remaining == s.skill_points_remaining,
        s.quest_toggled(difficulty, quest_idx, complete).quest_toggled(
            difficulty,
            quest_idx,
            undo,
        ).stat_points_remaining == s.stat_points_remaining,
{
    broadcast use vstd::array::group_array_axioms;

    let s1 = s.quest_toggled(difficulty, quest_idx, complete);
    assert(s1.quests@[difficulty as int] == complete.words_after);
    assert(s1.quest_in_range(difficulty, quest_idx));
}

/// Recomputing the vitals never leaves a current value above its maximum,
/// and keeps each shortfall (maximum minus current) where the new maximum can
/// hold it.
pub proof fn lemma_vitals_keep_shortfall(s: Savegame, growth: VitalGrowth)
    requires
        s.vitals_fit(&growth),
    ensures
        s.vitals_recalculated(growth).current_hp <= s.vitals_recalculated(growth).max_hp,
        s.vitals_recalculated(growth).current_mana <= s.vitals_recalculated(growth).max_mana,
        s.vitals_recalculated(growth).current_stamina <= s.vitals_recalculated(growth).max_stamina,
        s.current_hp <= s.max_hp && s.max_hp - s.current_hp <= s.base_life_spec(&growth)
            ==> s.vitals_recalculated(growth).max_hp - s.vitals_recalculated(growth).current_hp
            == s.max_hp - s.current_hp,
        s.current_mana <= s.max_mana && s.max_mana - s.current_mana <= s.base_mana_spec(&growth)
            ==> s.vitals_recalculated(growth).max_mana - s.vitals_recalculated(growth).current_mana
            == s.max_mana - s.current_mana,
        s.current_stamina <= s.max_stamina && s.max_stamina - s.current_stamina
            <= s.base_stamina_spec(&growth) ==> s.vitals_recalculated(growth).max_stamina
            - s.vitals_recalculated(growth).current_stamina == s.max_stamina - s.current_stamina,
{
}

/// A value written into a packed bit stream reads back bit for bit: bit `i`
/// of the value sits at bit `prefix.len() + i` of the bytes.
pub proof fn lemma_written_value_reads_back(
    bytes: Seq<u8>,
    prefix: Seq<bool>,
    value: u32,
    count: nat,
    suffix: Seq<bool>,
)
    requires
        packs(bytes, prefix + bits_of(value, count) + suffix),
    ensures
        forall|i: int|
            0 <= i < count ==> #[trigger] bit_at(bytes, prefix.len() + i) == ((value >> (i as u32))
                & 1u32 == 1u32),
{
    let all = prefix + bits_of(value, count) + suffix;
    assert forall|i: int| 0 <= i < count implies #[trigger] bit_at(bytes, prefix.len() + i) == ((
    value >> (i as u32)) & 1u32 == 1u32) by {
        let j = prefix.len() + i;
        assert(all[j] == bits_of(value, count)[i]);
        assert(j < bytes.len() * 8);
    }
}


proof fn lemma_shift_compose(v: u32, a: u32, j: u32)
    by (bit_vector)
    requires
        a + j < 32,
    ensures
        (v >> a) >> j == v >> (a + j),
{
}

/// Writing the low `a` bits of a value and then the next `b` bits (the value
/// shifted right by `a`) appends the same bits as writing its low `a + b`
/// bits at once.
pub proof fn lemma_split_write(v: u32, a: nat, b: nat)
    requires
        a < 32,
        a + b <= 32,
    ensures
        bits_of(v, a) + bits_of(v >> (a as u32), b) == bits_of(v, a + b),
{
    assert forall|i: int| a <= i < a + b implies #[trigger] bits_of(v, a + b)[i] == bits_of(
        v >> (a as u32),
        b,
    )[i - a] by {
        lemma_shift_compose(v, a as u32, (i - a) as u32);
    }
    assert(bits_of(v, a) + bits_of(v >> (a as u32), b) =~= bits_of(v, a + b));
}

proof fn lemma_byte_from_bits(x: u8, y: u8)
    by (bit_vector)
    requires
        (x >> 0u8) & 1 == (y >> 0u8) & 1,
        (x >> 1u8) & 1 == (y >> 1u8) & 1,
        (x >> 2u8) & 1 == (y >> 2u8) & 1,
        (x >> 3u8) & 1 == (y >> 3u8) & 1,
        (x >> 4u8) & 1 == (y >> 4u8) & 1,
        (x >> 5u8) & 1 == (y >> 5u8) & 1,
        (x >> 6u8) & 1 == (y >> 6u8) & 1,
        (x >> 7u8) & 1 == (y >> 7u8) & 1,
    ensures
        x == y,
{
}

proof fn lemma_bit_of_byte(x: u8, y: u8, k: u8)
    by (bit_vector)
    requires
        k < 8,
        ((x >> k) & 1u8 == 1u8) == ((y >> k) & 1u8 == 1u8),
    ensures
        (x >> k) & 1 == (y >> k) & 1,
{
}

/// Packed bytes are determined by their bits: two byte sequences that both
/// pack the same bits are equal.
pub proof fn lemma_packing_is_unique(b1: Seq<u8>, b2: Seq<u8>, bits: Seq<bool>)
    requires
        packs(b1, bits),
        packs(b2, bits),
    ensures
        b1 == b2,
{
    assert forall|i: int| 0 <= i < b1.len() implies b1[i] == b2[i] by {
        assert forall|k: int| 0 <= k < 8 implies #[trigger] u8_bit(b1[i], k) == u8_bit(b2[i], k) by {
            let p = 8 * i + k;
            assert(p / 8 == i && p % 8 == k) by (nonlinear_arith)
                requires
                    p == 8 * i + k,
                    0 <= k < 8,
            ;
            assert(p < b1.len() * 8) by (nonlinear_arith)
                requires
                    p == 8 * i + k,
                    0 <= k < 8,
                    0 <= i < b1.len(),
            ;
            assert(bit_at(b1, p) == bit_at(b2, p));
        }
        assert(u8_bit(b1[i], 0) == u8_bit(b2[i], 0));
        assert(u8_bit(b1[i], 1) == u8_bit(b2[i], 1));
        assert(u8_bit(b1[i], 2) == u8_bit(b2[i], 2));
        assert(u8_bit(b1[i], 3) == u8_bit(b2[i], 3));
        assert(u8_bit(b1[i], 4) == u8_bit(b2[i], 4));
        assert(u8_bit(b1[i], 5) == u8_bit(b2[i], 5));
        assert(u8_bit(b1[i], 6) == u8_bit(b2[i], 6));
        assert(u8_bit(b1[i], 7) == u8_bit(b2[i], 7));
        lemma_bit_of_byte(b1[i], b2[i], 0);
        lemma_bit_of_byte(b1[i], b2[i], 1);
        lemma_bit_of_byte(b1[i], b2[i], 2);
        lemma_bit_of_byte(b1[i], b2[i], 3);
        lemma_bit_of_byte(b1[i], b2[i], 4);
        lemma_bit_of_byte(b1[i], b2[i], 5);
        lemma_bit_of_byte(b1[i], b2[i], 6);
        lemma_bit_of_byte(b1[i], b2[i], 7);
        lemma_byte_from_bits(b1[i], b2[i]);
    }
    assert(b1 =~= b2);
}

/// The bytes that a field written in two pieces, low part first, packs to
/// are the bytes of the field written at once.
pub proof fn lemma_split_write_packs_same(
    before: Seq<bool>,
    v: u32,
    a: nat,
    b: nat,
    after: Seq<bool>,
    split_bytes: Seq<u8>,
    whole_bytes: Seq<u8>,
)
    requires
        a < 32,
        a + b <= 32,
        packs(split_bytes, before + bits_of(v, a) + bits_of(v >> (a as u32), b) + after),
        packs(whole_bytes, before + bits_of(v, a + b) + after),
    ensures
        split_bytes == whole_bytes,
{
    lemma_split_write(v, a, b);
    assert(before + bits_of(v, a) + bits_of(v >> (a as u32), b) + after =~= before + bits_of(
        v,
        a + b,
    ) + after);
    lemma_packing_is_unique(split_bytes, whole_bytes, before + bits_of(v, a + b) + after);
}

/// The bits of a sequence of fields, each a value and a bit count, written
/// one after the other.
pub open spec fn fields_bits(fields: Seq<(u32, nat)>) -> Seq<bool>
    decreases fields.len(),
{
    if fields.len() == 0 {
        Seq::empty()
    } else {
        fields_bits(fields.drop_last()) + bits_of(fields.last().0, fields.last().1)
    }
}

/// The total bit count of a sequence of fields.
pub open spec fn fields_width(fields: Seq<(u32, nat)>) -> nat
    decreases fields.len(),
{
    if fields.len() == 0 {
        0
    } else {
        fields_width(fields.drop_last()) + fields.last().1
    }
}

proof fn lemma_fields_bits_len(fields: Seq<(u32, nat)>)
    ensures
        fields_bits(fields).len() == fields_width(fields),
    decreases fields.len(),
{
    if fields.len() > 0 {
        lemma_fields_bits_len(fields.drop_last());
    }
}

proof fn lemma_fields_bits_prefix(fields: Seq<(u32, nat)>, n: int)
    requires
        0 <= n <= fields.len(),
    ensures
        fields_bits(fields.take(n)).len() <= fields_bits(fields).len(),
        fields_bits(fields).take(fields_bits(fields.take(n)).len() as int) == fields_bits(fields.take(n)),
    decreases fields.len(),
{
    if n == fields.len() {
        assert(fields.take(n) =~= fields);
        assert(fields_bits(fields).take(fields_bits(fields).len() as int) =~= fields_bits(fields));
    } else {
        let f = fields.drop_last();
        assert(fields.take(n) =~= f.take(n));
        lemma_fields_bits_prefix(f, n);
        let p = fields_bits(f.take(n));
        let whole = fields_bits(f) + bits_of(fields.last().0, fields.last().1);
        assert(whole.take(p.len() as int) =~= fields_bits(f).take(p.len() as int));
    }
}

/// Every field of a packed sequence of fields reads back bit for bit at its
/// offset (the widths of the fields before it); the bytes hold exactly enough
/// room for all bits, and the bits after the last field are zero.
pub proof fn lemma_fields_read_back(bytes: Seq<u8>, fields: Seq<(u32, nat)>, j: int)
    requires
        packs(bytes, fields_bits(fields)),
        0 <= j < fields.len(),
    ensures
        bytes.len() == (fields_width(fields) + 7) / 8,
        forall|k: int|
            0 <= k < fields[j].1 ==> #[trigger] bit_at(bytes, fields_width(fields.take(j)) + k) == ((
            fields[j].0 >> (k as u32)) & 1u32 == 1u32),
        forall|i: int| fields_width(fields) <= i < bytes.len() * 8 ==> !#[trigger] bit_at(bytes, i),
{
    lemma_fields_bits_len(fields);
    lemma_fields_bits_len(fields.take(j));
    lemma_fields_bits_prefix(fields, j + 1);
    let all = fields_bits(fields);
    let p = fields_bits(fields.take(j));
    let q = fields_bits(fields.take(j + 1));
    assert(fields.take(j + 1).drop_last() =~= fields.take(j));
    assert(q == p + bits_of(fields[j].0, fields[j].1));
    let suffix = all.skip(q.len() as int);
    assert(all =~= p + bits_of(fields[j].0, fields[j].1) + suffix);
    lemma_written_value_reads_back(bytes, p, fields[j].0, fields[j].1, suffix);
}

proof fn lemma_rotate_step(x: u32)
    by (bit_vector)
    ensures
        (x << 1u32) + (if x >= 0x8000_0000 { 1u32 } else { 0u32 }) <= 0xFFFF_FFFFu32,
        (x << 1u32) + (if x >= 0x8000_0000 { 1u32 } else { 0u32 }) == ((x << 1u32) | (x >> 31u32)),
{
}

proof fn lemma_zero_step_rotates(x: u32)
    ensures
        checksum_step(x, 0) == ((x << 1u32) | (x >> 31u32)),
{
    lemma_rotate_step(x);
}

/// The running checksum after `n` zero bytes.
pub open spec fn zero_steps(c: u32, n: nat) -> u32
    decreases n,
{
    if n == 0 {
        c
    } else {
        checksum_step(zero_steps(c, (n - 1) as nat), 0)
    }
}

proof fn lemma_rotation_advance(c: u32, n: u32)
    by (bit_vector)
    requires
        1 <= n < 31,
    ensures
        ((((c << n) | (c >> ((32u32 - n) as u32))) << 1u32) | (((c << n) | (c >> ((32u32 - n) as u32))) >> 31u32)) == (
        (c << ((n + 1u32) as u32)) | (c >> ((31u32 - n) as u32))),
{
}

proof fn lemma_rotation_close(c: u32)
    by (bit_vector)
    ensures
        ((((c << 31u32) | (c >> 1u32)) << 1u32) | (((c << 31u32) | (c >> 1u32)) >> 31u32)) == c,
{
}

proof fn lemma_zero_steps_rotate(c: u32, n: nat)
    requires
        1 <= n <= 31,
    ensures
        zero_steps(c, n) == ((c << (n as u32)) | (c >> ((32 - n) as u32))),
    decreases n,
{
    if n == 1 {
        assert(zero_steps(c, 0) == c);
        lemma_zero_step_rotates(c);
    } else {
        lemma_zero_steps_rotate(c, (n - 1) as nat);
        lemma_zero_step_rotates(zero_steps(c, (n - 1) as nat));
        lemma_rotation_advance(c, (n - 1) as u32);
    }
}

proof fn lemma_checksum_of_zeros(s: Seq<u8>, n: nat)
    ensures
        spec_checksum(s + Seq::new(n, |i: int| 0u8)) == zero_steps(spec_checksum(s), n),
    decreases n,
{
    if n == 0 {
        assert(s + Seq::new(0, |i: int| 0u8) =~= s);
    } else {
        lemma_checksum_of_zeros(s, (n - 1) as nat);
        let t = s + Seq::new(n, |i: int| 0u8);
        assert(t.drop_last() =~= s + Seq::new((n - 1) as nat, |i: int| 0u8));
    }
}

/// Thirty-two zero bytes at the end leave the checksum unchanged: each zero
/// byte rotates the running value left by one bit.
pub proof fn lemma_checksum_ignores_32_trailing_zeros(s: Seq<u8>)
    ensures
        spec_checksum(s + Seq::new(32, |i: int| 0u8)) == spec_checksum(s),
{
    let c = spec_checksum(s);
    lemma_checksum_of_zeros(s, 32);
    lemma_zero_steps_rotate(c, 31);
    lemma_zero_step_rotates(zero_steps(c, 31));
    lemma_rotation_close(c);
}

} // verus!
