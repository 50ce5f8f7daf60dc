use vstd::prelude::*;
use crate::laws::{fields_bits, fields_width, lemma_fields_read_back};
use crate::model::{
    game_version_spec, min_u32, sweep_spec, CharacterClass, GameVersion, GoldCaps, PointBudget,
    Savegame, VitalGrowth,
};
use crate::save::{bit_at, bits_of, packs};
use crate::serialize::{stat_records, StatField, StatLayout};

verus! {

/// Each statistic's record holds that statistic of the character, in the
/// order of the identifiers: strength, energy, dexterity, vitality, the two
/// pools, the six vitals in 1/256 units, level, experience, and the gold
/// amounts cut to their caps.
pub proof fn lemma_stat_values_follow_stat_order(s: Savegame, caps: GoldCaps)
    ensures
        s.stat_values(caps).len() == 16,
        s.stat_values(caps)[0] == s.strength,
        s.stat_values(caps)[1] == s.energy,
        s.stat_values(caps)[2] == s.dexterity,
        s.stat_values(caps)[3] == s.vitality,
        s.stat_values(caps)[4] == s.stat_points_remaining,
        s.stat_values(caps)[5] == s.skill_points_remaining,
        s.stat_values(caps)[6] == s.current_hp << 8u32,
        s.stat_values(caps)[7] == s.max_hp << 8u32,
        s.stat_values(caps)[8] == s.current_mana << 8u32,
        s.stat_values(caps)[9] == s.max_mana << 8u32,
        s.stat_values(caps)[10] == s.current_stamina << 8u32,
        s.stat_values(caps)[11] == s.max_stamina << 8u32,
        s.stat_values(caps)[12] == s.level,
        s.stat_values(caps)[13] == s.experience,
        s.stat_values(caps)[14] <= caps.max_inventory_gold,
        s.stat_values(caps)[14] <= s.gold,
        s.stat_values(caps)[14] == s.gold || s.stat_values(caps)[14] == caps.max_inventory_gold,
        s.stat_values(caps)[15] <= caps.max_stash_gold,
        s.stat_values(caps)[15] <= s.stashed_gold,
        s.stat_values(caps)[15] == s.stashed_gold || s.stat_values(caps)[15]
            == caps.max_stash_gold,
{
}

/// The stats section as a sequence of fields: for each statistic its
/// identifier in 9 bits, then its value in its width.
pub open spec fn record_fields(fields: Seq<StatField>, values: Seq<u32>, n: nat) -> Seq<(u32, nat)>
    decreases n,
{
    if n == 0 {
        Seq::empty()
    } else {
        record_fields(fields, values, (n - 1) as nat).push((fields[n - 1].id, 9nat)).push(
            (values[n - 1], fields[n - 1].width as nat),
        )
    }
}

proof fn lemma_record_fields_shape(fields: Seq<StatField>, values: Seq<u32>, n: nat)
    ensures
        record_fields(fields, values, n).len() == 2 * n,
        fields_bits(record_fields(fields, values, n)) == stat_records(fields, values, n),
        forall|i: int|
            0 <= i < n ==> record_fields(fields, values, n)[2 * i] == (fields[i].id, 9nat),
        forall|i: int|
            0 <= i < n ==> record_fields(fields, values, n)[2 * i + 1] == (
                values[i],
                fields[i].width as nat,
            ),
    decreases n,
{
    if n > 0 {
        let m = (n - 1) as nat;
        lemma_record_fields_shape(fields, values, m);
        let a = record_fields(fields, values, m);
        let b = a.push((fields[m as int].id, 9nat));
        let c = b.push((values[m as int], fields[m as int].width as nat));
        assert(b.drop_last() =~= a);
        assert(c.drop_last() =~= b);
        assert(fields_bits(b) == fields_bits(a) + bits_of(fields[m as int].id, 9));
        assert(fields_bits(c) == fields_bits(b) + bits_of(
            values[m as int],
            fields[m as int].width as nat,
        ));
    }
}

/// Every record of an encoded stats section reads back bit for bit: the
/// record of statistic `i` holds the identifier the layout gives it, followed
/// by that statistic's value (`stat_values`, pinned field by field above);
/// the 0x1FF terminator follows the last record.
pub proof fn lemma_encoded_stats_read_back(
    bytes: Seq<u8>,
    s: Savegame,
    layout: StatLayout,
    caps: GoldCaps,
    i: int,
)
    requires
        packs(bytes, s.encoded_stats(layout, caps)),
        0 <= i < 16,
    ensures
        ({
            let all = record_fields(layout.fields@, s.stat_values(caps), 16).push((0x1FFu32, 9nat));
            &&& forall|k: int|
                0 <= k < 9 ==> #[trigger] bit_at(bytes, fields_width(all.take(2 * i)) + k) == ((
                layout.fields@[i].id >> (k as u32)) & 1u32 == 1u32)
            &&& forall|k: int|
                0 <= k < layout.fields@[i].width ==> #[trigger] bit_at(
                    bytes,
                    fields_width(all.take(2 * i + 1)) + k,
                ) == ((s.stat_values(caps)[i] >> (k as u32)) & 1u32 == 1u32)
            &&& forall|k: int|
                0 <= k < 9 ==> #[trigger] bit_at(bytes, fields_width(all.take(32)) + k) == ((
                0x1FFu32 >> (k as u32)) & 1u32 == 1u32)
        }),
{
    let values = s.stat_values(caps);
    let r = record_fields(layout.fields@, values, 16);
    lemma_record_fields_shape(layout.fields@, values, 16);
    let all = r.push((0x1FFu32, 9nat));
    assert(all.drop_last() =~= r);
    assert(fields_bits(all) == fields_bits(r) + bits_of(0x1FFu32, 9));
    assert(fields_bits(all) == s.encoded_stats(layout, caps));
    lemma_fields_read_back(bytes, all, 2 * i);
    lemma_fields_read_back(bytes, all, 2 * i + 1);
    lemma_fields_read_back(bytes, all, 32);
    assert(all[2 * i] == r[2 * i]);
    assert(all[2 * i + 1] == r[2 * i + 1]);
}

/// Versions before 0x61 are Legacy. From 0x61 on, the release is Reign of the
/// Warlock exactly when the expansion mode says so or the class is the
/// Warlock, and Resurrected otherwise, however high the version number.
pub proof fn lemma_game_version_detection(version_raw: u32, rotw_mode: bool, class: CharacterClass)
    ensures
        version_raw < 0x61 ==> game_version_spec(version_raw, rotw_mode, class)
            == GameVersion::Legacy,
        version_raw >= 0x61 && !rotw_mode && class != CharacterClass::Warlock ==> game_version_spec(
            version_raw,
            rotw_mode,
            class,
        ) == GameVersion::Resurrected,
        game_version_spec(version_raw, rotw_mode, class) == GameVersion::Warlock <==> (version_raw
            >= 0x61 && (rotw_mode || class == CharacterClass::Warlock)),
        forall|other: u32|
            version_raw >= 0x61 && other >= 0x61 ==> game_version_spec(version_raw, rotw_mode, class)
                == #[trigger] game_version_spec(other, rotw_mode, class),
{
}

/// A stats reset puts every attribute back to its class base, spends no
/// point, fills the pool with the whole budget, and leaves each vital at its
/// class base, current and maximum alike. Nothing else changes.
pub proof fn lemma_stats_reset_restores_base(s: Savegame, budget: PointBudget)
    requires
        budget.allowed_stat_points() <= u32::MAX,
    ensures
        s.stats_reset(budget).strength == s.base.strength,
        s.stats_reset(budget).dexterity == s.base.dexterity,
        s.stats_reset(budget).vitality == s.base.vitality,
        s.stats_reset(budget).energy == s.base.energy,
        s.stats_reset(budget).spent_stat_points_spec() == 0,
        s.stats_reset(budget).stat_points_remaining == budget.allowed_stat_points(),
        s.stats_reset(budget).current_hp == s.base.hp,
        s.stats_reset(budget).max_hp == s.base.hp,
        s.stats_reset(budget).current_mana == s.base.mana,
        s.stats_reset(budget).max_mana == s.base.mana,
        s.stats_reset(budget).current_stamina == s.base.stamina,
        s.stats_reset(budget).max_stamina == s.base.stamina,
        s.stats_reset(budget).skills == s.skills,
        s.stats_reset(budget).skill_points_remaining == s.skill_points_remaining,
        s.stats_reset(budget).level == s.level,
        s.stats_reset(budget).gold == s.gold,
{
}

/// Sweeping one difficulty `d < 3` visits every visible quest of `d`, in
/// order; sweeping all visits difficulties 0, 1 and 2 in turn, each with
/// every visible quest; any other difficulty visits nothing.
pub proof fn lemma_quest_sweep_covers(difficulty: Option<usize>, visible: Seq<usize>)
    ensures
        difficulty matches Some(d) && d < 3 ==> {
            &&& sweep_spec(difficulty, visible).len() == visible.len()
            &&& forall|k: int|
                0 <= k < visible.len() ==> #[trigger] sweep_spec(difficulty, visible)[k] == (
                    difficulty->0,
                    visible[k],
                )
        },
        difficulty matches Some(d) && d >= 3 ==> sweep_spec(difficulty, visible).len() == 0,
        difficulty is None ==> {
            &&& sweep_spec(difficulty, visible).len() == 3 * visible.len()
            &&& forall|r: int, k: int|
                0 <= r < 3 && 0 <= k < visible.len() ==> #[trigger] sweep_spec(difficulty, visible)[r
                    * visible.len() + k] == (r as usize, visible[k])
        },
{
    if difficulty is None {
        let n = visible.len() as int;
        let s = sweep_spec(difficulty, visible);
        assert forall|r: int, k: int| 0 <= r < 3 && 0 <= k < n implies #[trigger] s[r * n + k] == (
            r as usize,
            visible[k],
        ) by {
            if r == 0 {
                assert(r * n + k == k);
            } else if r == 1 {
                assert(r * n + k == n + k);
            } else {
                assert(r * n + k == 2 * n + k);
            }
        }
    }
}

/// `growth` with the Golden Bird flag of difficulty `d` set.
pub open spec fn with_golden_bird(growth: VitalGrowth, d: int) -> VitalGrowth {
    VitalGrowth {
        golden_bird_completed: vstd::array::spec_array_update(growth.golden_bird_completed, d, true),
        ..growth
    }
}

/// With no Golden Bird completed, base life is the class base plus level and
/// vitality growth; completing the quest in one more difficulty, any of the
/// three, adds exactly 20.
pub proof fn lemma_golden_bird_adds_twenty(s: Savegame, growth: VitalGrowth, d: int)
    requires
        0 <= d < 3,
        !growth.golden_bird_completed[d],
    ensures
        s.base_life_spec(&with_golden_bird(growth, d)) == s.base_life_spec(&growth) + 20,
        !growth.golden_bird_completed[0] && !growth.golden_bird_completed[1]
            && !growth.golden_bird_completed[2] ==> s.base_life_spec(&growth) == s.base.hp
            + growth.life_for_level + growth.life_for_vitality,
{
    broadcast use vstd::array::group_array_axioms;

    let f = with_golden_bird(growth, d).golden_bird_completed;
    assert(f@ == growth.golden_bird_completed@.update(d, true));
    assert(f[0] == f@[0] && f[1] == f@[1] && f[2] == f@[2]);
    assert(growth.golden_bird_completed[0] == growth.golden_bird_completed@[0]);
    assert(growth.golden_bird_completed[1] == growth.golden_bird_completed@[1]);
    assert(growth.golden_bird_completed[2] == growth.golden_bird_completed@[2]);
}

} // verus!
