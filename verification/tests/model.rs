use d2sed::model::{
    detect_game_version, BaseStats, CharacterClass, CharacterStat, FollowUp, GameVersion,
    GoldCaps, LevelRules, LoadedCharacter, PointBudget, QuestToggle, Savegame, VitalGrowth,
};

const QUEST_WORDS: usize = 48;
const WAYPOINTS: usize = 39;

fn amazon() -> BaseStats {
    BaseStats { strength: 20, dexterity: 25, vitality: 20, energy: 15, hp: 50, mana: 15, stamina: 84 }
}

fn paladin() -> BaseStats {
    BaseStats { strength: 25, dexterity: 20, vitality: 25, energy: 15, hp: 55, mana: 15, stamina: 89 }
}

fn sorceress() -> BaseStats {
    BaseStats { strength: 10, dexterity: 25, vitality: 10, energy: 35, hp: 40, mana: 35, stamina: 74 }
}

fn necromancer() -> BaseStats {
    BaseStats { strength: 15, dexterity: 25, vitality: 15, energy: 25, hp: 45, mana: 25, stamina: 79 }
}

fn blank(class: CharacterClass, base: BaseStats) -> Savegame {
    Savegame::generate_blank_template(
        class,
        "Hero".to_string(),
        base,
        [vec![0u16; QUEST_WORDS], vec![0u16; QUEST_WORDS], vec![0u16; QUEST_WORDS]],
        WAYPOINTS,
    )
}

fn budget(stat: u32, skill: u32) -> PointBudget {
    PointBudget {
        stat_points_from_level: stat,
        stat_points_from_quests: 0,
        skill_points_from_level: skill,
        skill_points_from_quests: 0,
    }
}

fn level_1() -> LevelRules {
    LevelRules {
        experience: 0,
        caps: GoldCaps { max_inventory_gold: 10_000, max_stash_gold: 50_000 },
        budget: budget(0, 0),
    }
}

fn level_99() -> LevelRules {
    LevelRules {
        experience: 3_520_485_254,
        caps: GoldCaps { max_inventory_gold: 990_000, max_stash_gold: 2_500_000 },
        budget: budget(490, 98),
    }
}

fn no_growth() -> VitalGrowth {
    VitalGrowth {
        life_for_level: 0,
        life_for_vitality: 0,
        mana_for_level: 0,
        mana_for_energy: 0,
        stamina_for_level: 0,
        stamina_for_vitality: 0,
        golden_bird_completed: [false; 3],
    }
}

#[test]
fn gold_setters_clamp_to_legacy_caps() {
    let mut save = blank(CharacterClass::Necromancer, necromancer());
    save.set_level(99, &level_99());

    save.set_gold(9_999_990, &level_99().caps);
    save.set_stashed_gold(9_999_999, &level_99().caps);

    assert_eq!(save.gold, 990_000);
    assert_eq!(save.stashed_gold, 2_500_000);

    save.set_level(1, &level_1());

    assert_eq!(save.gold, 10_000);
    assert_eq!(save.stashed_gold, 50_000);
}

#[test]
fn level_min_and_max_recompute_remaining_points() {
    let mut save = blank(CharacterClass::Amazon, amazon());
    save.game_version = GameVersion::Legacy;
    assert_eq!(save.set_level(99, &level_99()), FollowUp::RecalculateVitals);
    save.increase_stat(CharacterStat::Strength, 10);
    // one hard point in slot 0, which needs no prerequisite
    save.skills[0] += 1;
    save.skill_points_remaining -= 1;

    save.set_level(1, &level_1());

    assert_eq!(save.level, 1);
    assert_eq!(save.experience, 0);
    assert_eq!(save.strength, amazon().strength);
    assert_eq!(save.stat_points_remaining, 0);
    assert_eq!(save.skills.iter().copied().sum::<u8>(), 0);
    assert_eq!(save.skill_points_remaining, 0);

    save.set_level(99, &level_99());

    assert_eq!(save.level, 99);
    assert_eq!(save.experience, 3_520_485_254);
    assert_eq!(save.stat_points_remaining, 490);
    assert_eq!(save.skill_points_remaining, 98);
}

#[test]
fn stat_min_and_max_move_points_between_stat_and_pool() {
    let mut save = blank(CharacterClass::Sorceress, sorceress());
    let at_99 = VitalGrowth { mana_for_level: 196, ..no_growth() };
    assert_eq!(save.set_level(99, &level_99()), FollowUp::RecalculateVitals);
    save.recalculate_vitals(&at_99);
    let base_mana = save.base_mana(&at_99);
    save.stat_points_remaining = 20;

    assert_eq!(save.maximize_stat(CharacterStat::Energy), FollowUp::RecalculateVitals);
    save.recalculate_vitals(&VitalGrowth { mana_for_energy: 40, ..at_99 });

    assert_eq!(save.current_mana, base_mana + 40);
    assert_eq!(save.max_mana, base_mana + 40);
    assert_eq!(save.stat_points_remaining, 0);

    assert_eq!(save.minimize_stat(CharacterStat::Energy), FollowUp::RecalculateVitals);
    save.recalculate_vitals(&at_99);

    assert_eq!(save.current_mana, base_mana);
    assert_eq!(save.max_mana, base_mana);
    assert_eq!(save.stat_points_remaining, 20);
}

#[test]
fn point_normalization_preserves_loaded_allocations() {
    let mut save = blank(CharacterClass::Paladin, paladin());
    save.set_level(99, &level_99());
    save.strength += 25;
    save.dexterity += 10;
    save.skills[0] = 1;
    save.skills[1] = 3;
    save.stat_points_remaining = 999;
    save.skill_points_remaining = 999;

    let b = level_99().budget;
    save.normalize_point_totals(&b);

    assert_eq!(save.stat_points_remaining, save.total_allowed_stat_points(&b) - 35);
    assert_eq!(save.skill_points_remaining, save.total_allowed_skill_points(&b) - 4);
    assert_eq!(save.strength, paladin().strength + 25);
    assert_eq!(save.skills[1], 3);
}

#[test]
fn loaded_over_budget_allocations_are_preserved_with_zero_remaining_points() {
    let mut save = blank(CharacterClass::Amazon, amazon());
    save.game_version = GameVersion::Legacy;
    save.set_level(1, &level_1());
    save.strength += 25;
    save.skills[0] = 1;

    save.recalculate_remaining_points_from_allocations(&level_1().budget);

    assert_eq!(save.strength, amazon().strength + 25);
    assert_eq!(save.skills[0], 1);
    assert_eq!(save.stat_points_remaining, 0);
    assert_eq!(save.skill_points_remaining, 0);
}

#[test]
fn blank_template_is_level_one_warlock_save() {
    let save = blank(CharacterClass::Sorceress, sorceress());
    assert_eq!(save.name, "Hero");
    assert_eq!(save.level, 1);
    assert_eq!(save.strength, 10);
    assert_eq!(save.max_hp, 40);
    assert_eq!(save.current_stamina, 74);
    assert_eq!(save.game_version, GameVersion::Warlock);
    assert!(save.skills.iter().all(|&s| s == 0));
    for d in 0..3 {
        assert_eq!(save.waypoints[d].len(), WAYPOINTS);
        assert!(save.waypoints[d].iter().all(|&w| !w));
        assert_eq!(save.quests[d].len(), QUEST_WORDS);
    }
}

#[test]
fn set_level_clamps_and_reports_changes() {
    assert_eq!(Savegame::clamped_level(0), 1);
    assert_eq!(Savegame::clamped_level(42), 42);
    assert_eq!(Savegame::clamped_level(u32::MAX), 99);
    let mut save = blank(CharacterClass::Amazon, amazon());
    assert_eq!(save.set_level(0, &level_1()), FollowUp::Nothing);
    assert_eq!(save.level, 1);
    assert_eq!(save.set_level(500, &level_99()), FollowUp::RecalculateVitals);
    assert_eq!(save.level, 99);
    assert_eq!(save.experience, 3_520_485_254);
    assert_eq!(save.set_level(99, &level_99()), FollowUp::Nothing);
}

#[test]
fn stat_edits_ignore_other_statistics_and_empty_pools() {
    let mut save = blank(CharacterClass::Amazon, amazon());
    save.stat_points_remaining = 5;
    assert_eq!(save.increase_stat(CharacterStat::Gold, 3), FollowUp::Nothing);
    assert_eq!(save.stat_points_remaining, 5);
    assert_eq!(save.increase_stat(CharacterStat::Vitality, 0), FollowUp::Nothing);
    assert_eq!(save.increase_stat(CharacterStat::Vitality, 9), FollowUp::RecalculateVitals);
    assert_eq!(save.vitality, amazon().vitality + 5);
    assert_eq!(save.stat_points_remaining, 0);
    assert_eq!(save.increase_stat(CharacterStat::Vitality, 9), FollowUp::Nothing);

    assert_eq!(save.decrease_stat(CharacterStat::Vitality, 2), FollowUp::RecalculateVitals);
    assert_eq!(save.vitality, amazon().vitality + 3);
    assert_eq!(save.stat_points_remaining, 2);
    // never below the class base
    save.decrease_stat(CharacterStat::Vitality, 100);
    assert_eq!(save.vitality, amazon().vitality);
    assert_eq!(save.stat_points_remaining, 5);
    save.decrease_stat(CharacterStat::Vitality, 100);
    assert_eq!(save.vitality, amazon().vitality);
    assert_eq!(save.stat_points_remaining, 5);
    assert_eq!(save.decrease_stat(CharacterStat::Level, 1), FollowUp::RecalculateVitals);
    assert_eq!(save.level, 1);
}

#[test]
fn reset_stats_and_skills_refill_pools() {
    let mut save = blank(CharacterClass::Paladin, paladin());
    save.strength = 100;
    save.max_hp = 400;
    save.current_hp = 10;
    save.skills[4] = 7;
    save.reset_stats(&budget(30, 0));
    assert_eq!(save.strength, 25);
    assert_eq!(save.max_hp, 55);
    assert_eq!(save.current_hp, 55);
    assert_eq!(save.stat_points_remaining, 30);
    save.reset_skills(&budget(0, 12));
    assert_eq!(save.skills, [0u8; 30]);
    assert_eq!(save.skill_points_remaining, 12);
}

#[test]
fn vitals_keep_shortfall_and_count_golden_bird() {
    let mut save = blank(CharacterClass::Amazon, amazon());
    save.max_hp = 100;
    save.current_hp = 70;
    save.max_mana = 30;
    save.current_mana = 35;
    let growth = VitalGrowth {
        life_for_level: 196,
        life_for_vitality: 30,
        mana_for_level: 147,
        mana_for_energy: 0,
        stamina_for_level: 98,
        stamina_for_vitality: 10,
        golden_bird_completed: [true, false, true],
    };
    assert_eq!(save.base_life(&growth), 50 + 196 + 30 + 40);
    assert_eq!(save.base_mana(&growth), 15 + 147);
    assert_eq!(save.base_stamina(&growth), 84 + 98 + 10);
    save.recalculate_vitals(&growth);
    assert_eq!(save.max_hp, 316);
    assert_eq!(save.current_hp, 286);
    assert_eq!(save.max_mana, 162);
    assert_eq!(save.current_mana, 162);
    assert_eq!(save.current_stamina, 192);

    save.current_hp = 0;
    save.recalculate_vitals(&no_growth());
    assert_eq!(save.max_hp, 50);
    assert_eq!(save.current_hp, 0);
}

#[test]
fn set_name_keeps_fifteen_characters() {
    let mut save = blank(CharacterClass::Amazon, amazon());
    save.set_name("Short".to_string());
    assert_eq!(save.name, "Short");
    save.set_name("ÄbcdefghijklmnopqrstÜ".to_string());
    assert_eq!(save.name, "Äbcdefghijklmno");
    assert_eq!(save.name.chars().count(), 15);
}

#[test]
fn waypoints_toggle_per_difficulty_or_all() {
    let mut save = blank(CharacterClass::Amazon, amazon());
    save.toggle_all_waypoints(Some(1), true);
    assert!(save.waypoints[1].iter().all(|&w| w));
    assert!(save.waypoints[0].iter().all(|&w| !w));
    save.toggle_all_waypoints(Some(3), true);
    assert!(save.waypoints[2].iter().all(|&w| !w));
    save.toggle_all_waypoints(None, true);
    assert!(save.waypoints.iter().all(|row| row.len() == WAYPOINTS && row.iter().all(|&w| w)));
    save.toggle_all_waypoints(None, false);
    assert!(save.waypoints.iter().all(|row| row.iter().all(|&w| !w)));

    save.toggle_waypoint(2, 5);
    assert!(save.waypoints[2][5]);
    save.toggle_waypoint(2, 5);
    assert!(!save.waypoints[2][5]);
    save.toggle_waypoint(3, 0);
    save.toggle_waypoint(0, WAYPOINTS);
    assert!(save.waypoints.iter().all(|row| row.iter().all(|&w| !w)));
}

#[test]
fn only_hardcore_characters_toggle_death() {
    let mut save = blank(CharacterClass::Amazon, amazon());
    save.toggle_dead();
    assert!(!save.died);
    save.hardcore = true;
    save.toggle_dead();
    assert!(save.died);
    save.toggle_dead();
    assert!(!save.died);
}

fn toggle(was_completed: bool, word: u16, skill_reward: u32, stat_reward: u32) -> QuestToggle {
    let mut words = vec![0u16; QUEST_WORDS];
    words[25] = word;
    QuestToggle { was_completed, words_after: words, skill_reward, stat_reward }
}

#[test]
fn quest_toggle_moves_rewards_and_back() {
    let mut save = blank(CharacterClass::Amazon, amazon());
    save.set_level(99, &level_99());
    assert_eq!(save.quest_word(0, 25), Some(0));
    assert_eq!(save.toggle_quest(0, 25, toggle(false, 0x1001, 2, 0)), FollowUp::RecalculateVitals);
    assert_eq!(save.skill_points_remaining, 100);
    assert_eq!(save.quests[0][25], 0x1001);
    assert_eq!(save.quest_word(0, 25), Some(0x1001));
    save.toggle_quest(0, 25, toggle(true, 0, 2, 0));
    assert_eq!(save.skill_points_remaining, 98);
    assert_eq!(save.quests[0][25], 0);

    // taking a reward back never goes below zero
    save.skill_points_remaining = 1;
    save.stat_points_remaining = 3;
    save.toggle_quest(1, 25, toggle(true, 0, 2, 5));
    assert_eq!(save.skill_points_remaining, 0);
    assert_eq!(save.stat_points_remaining, 0);

    assert_eq!(save.toggle_quest(3, 25, toggle(false, 1, 2, 0)), FollowUp::Nothing);
    assert_eq!(save.toggle_quest(0, QUEST_WORDS, toggle(false, 1, 2, 0)), FollowUp::Nothing);
    assert_eq!(save.quest_word(0, QUEST_WORDS), None);
    assert_eq!(save.skill_points_remaining, 0);
}

#[test]
fn quest_toggle_to_skips_quests_already_in_state() {
    let mut save = blank(CharacterClass::Amazon, amazon());
    assert_eq!(save.toggle_quest_to(0, 25, true, toggle(true, 7, 2, 0)), FollowUp::Nothing);
    assert_eq!(save.quests[0][25], 0);
    assert_eq!(save.toggle_quest_to(0, 25, true, toggle(false, 7, 2, 0)), FollowUp::RecalculateVitals);
    assert_eq!(save.quests[0][25], 7);
    assert_eq!(save.skill_points_remaining, 2);
}

#[test]
fn quest_sweep_visits_visible_quests_in_order() {
    let visible = [1usize, 2, 9];
    assert_eq!(Savegame::quest_sweep(Some(1), &visible), vec![(1, 1), (1, 2), (1, 9)]);
    assert_eq!(Savegame::quest_sweep(Some(3), &visible), vec![]);
    assert_eq!(
        Savegame::quest_sweep(None, &visible),
        vec![(0, 1), (0, 2), (0, 9), (1, 1), (1, 2), (1, 9), (2, 1), (2, 2), (2, 9)]
    );
}

#[test]
fn game_version_detection_and_labels() {
    assert_eq!(detect_game_version(0x60, true, CharacterClass::Warlock), GameVersion::Legacy);
    assert_eq!(detect_game_version(0x61, false, CharacterClass::Amazon), GameVersion::Resurrected);
    assert_eq!(detect_game_version(0x69, true, CharacterClass::Amazon), GameVersion::Warlock);
    assert_eq!(detect_game_version(0x62, false, CharacterClass::Warlock), GameVersion::Warlock);
    assert_eq!(GameVersion::Legacy.label(), "1.10 - 1.14d");
    assert_eq!(GameVersion::Resurrected.label(), "Resurrected 2.5+");
    assert_eq!(GameVersion::Warlock.label(), "Reign of the Warlock 3.0+");
    assert_eq!(GameVersion::default(), GameVersion::Legacy);
}

#[test]
fn loaded_character_defaults_missing_statistics() {
    let loaded = LoadedCharacter {
        name: "Loaded".to_string(),
        class: CharacterClass::Paladin,
        base: paladin(),
        version_raw: 0x60,
        rotw_mode: false,
        level: None,
        experience: Some(1234),
        gold: Some(5_000_000),
        stashed_gold: None,
        strength: None,
        dexterity: Some(40),
        vitality: None,
        energy: None,
        stat_points: Some(3),
        skill_points: None,
        hit_points: Some(300 << 8),
        max_hit_points: None,
        mana: Some((20 << 8) + 255),
        max_mana: None,
        stamina: None,
        max_stamina: Some(100 << 8),
        skills: [1; 30],
        quests: [vec![0u16; QUEST_WORDS], vec![0u16; QUEST_WORDS], vec![0u16; QUEST_WORDS]],
        waypoints: [vec![true; WAYPOINTS], vec![false; WAYPOINTS], vec![false; WAYPOINTS]],
        hardcore: true,
        died: false,
    };
    let mut ready = Savegame::load(loaded.clone(), &level_1().caps, &budget(30, 10));
    assert_eq!(loaded.effective_level(), 1);
    assert_eq!(ready.gold, 10_000);
    assert_eq!(ready.stat_points_remaining, 30 - 20);
    assert_eq!(ready.skill_points_remaining, 0);
    assert_eq!(ready.dexterity, 40);
    ready.gold = 5_000_000;
    let mut save = Savegame::from_loaded(loaded);
    assert_eq!(save.gold, ready.gold);
    assert_eq!(save.level, 1);
    assert_eq!(save.experience, 1234);
    assert_eq!(save.gold, 5_000_000);
    assert_eq!(save.stashed_gold, 0);
    assert_eq!(save.strength, 25);
    assert_eq!(save.dexterity, 40);
    assert_eq!(save.stat_points_remaining, 3);
    assert_eq!(save.current_hp, 300);
    assert_eq!(save.max_hp, 55);
    assert_eq!(save.current_mana, 20);
    assert_eq!(save.max_stamina, 100);
    assert_eq!(save.current_stamina, 89);
    assert_eq!(save.game_version, GameVersion::Legacy);
    assert!(save.hardcore);

    save.clamp_gold(&level_1().caps);
    assert_eq!(save.gold, 10_000);
    save.recalculate_remaining_points_from_allocations(&budget(30, 10));
    assert_eq!(save.stat_points_remaining, 30 - 20);
    assert_eq!(save.skill_points_remaining, 0);
}

fn spent_stats(save: &Savegame) -> u32 {
    let b = save.base;
    save.strength.saturating_sub(b.strength)
        + save.dexterity.saturating_sub(b.dexterity)
        + save.vitality.saturating_sub(b.vitality)
        + save.energy.saturating_sub(b.energy)
}

#[test]
fn budget_stays_balanced_through_attribute_edits() {
    let mut save = blank(CharacterClass::Paladin, paladin());
    save.set_level(99, &level_99());
    save.strength += 7;
    save.normalize_point_totals(&level_99().budget);
    assert_eq!(spent_stats(&save) + save.stat_points_remaining, 490);
    let skills_spent: u32 = save.skills.iter().map(|&s| s as u32).sum();
    assert_eq!(skills_spent + save.skill_points_remaining, 98);

    save.increase_stat(CharacterStat::Energy, 100);
    assert_eq!(spent_stats(&save) + save.stat_points_remaining, 490);
    save.decrease_stat(CharacterStat::Strength, 3);
    assert_eq!(spent_stats(&save) + save.stat_points_remaining, 490);
    save.maximize_stat(CharacterStat::Vitality);
    assert_eq!(save.stat_points_remaining, 0);
    assert_eq!(spent_stats(&save), 490);
    save.minimize_stat(CharacterStat::Vitality);
    assert_eq!(spent_stats(&save) + save.stat_points_remaining, 490);
    assert_eq!(save.vitality, paladin().vitality);
}

#[test]
fn over_budget_allocations_are_reset_by_normalization() {
    let mut save = blank(CharacterClass::Paladin, paladin());
    save.strength += 50;
    save.skills[3] = 9;
    save.max_hp = 999;
    save.normalize_point_totals(&budget(20, 5));
    assert_eq!(save.strength, paladin().strength);
    assert_eq!(save.max_hp, paladin().hp);
    assert_eq!(save.stat_points_remaining, 20);
    assert_eq!(save.skills, [0u8; 30]);
    assert_eq!(save.skill_points_remaining, 5);
}
