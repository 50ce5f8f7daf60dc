use d2sed::model::{BaseStats, CharacterClass, GameVersion, GoldCaps, Savegame};
use d2sed::serialize::{CharacterStatus, ExpansionChoice, StatField, StatLayout};

const WIDTHS: [u32; 16] = [10, 10, 10, 10, 10, 8, 21, 21, 21, 21, 21, 21, 7, 32, 25, 25];

fn layout() -> StatLayout {
    let mut fields = [StatField { id: 0, width: 0 }; 16];
    for (i, f) in fields.iter_mut().enumerate() {
        *f = StatField { id: i as u32, width: WIDTHS[i] };
    }
    StatLayout { fields }
}

fn read_bits(bytes: &[u8], bit_offset: usize, count: usize) -> Option<u32> {
    if bit_offset + count > bytes.len() * 8 {
        return None;
    }
    let mut value = 0u32;
    for index in 0..count {
        let absolute_bit = bit_offset + index;
        if bytes[absolute_bit / 8] & (1 << (absolute_bit % 8)) != 0 {
            value |= 1 << index;
        }
    }
    Some(value)
}

fn stat_value(bytes: &[u8], target: u32) -> Option<u32> {
    let mut bit_offset = 0;
    for _ in 0..64 {
        let id = read_bits(bytes, bit_offset, 9)?;
        bit_offset += 9;
        if id == 0x1ff {
            return None;
        }
        let width = WIDTHS[id as usize] as usize;
        let value = read_bits(bytes, bit_offset, width)?;
        bit_offset += width;
        if id == target {
            return Some(value);
        }
    }
    None
}

fn necromancer() -> Savegame {
    Savegame::generate_blank_template(
        CharacterClass::Necromancer,
        "Necro".to_string(),
        BaseStats { strength: 15, dexterity: 25, vitality: 15, energy: 25, hp: 45, mana: 25, stamina: 79 },
        [vec![0; 48], vec![0; 48], vec![0; 48]],
        39,
    )
}

#[test]
fn encoded_stats_serialize_clamped_gold_values() {
    let mut save = necromancer();
    save.level = 99;
    save.gold = 9_999_990;
    save.stashed_gold = 9_999_999;
    let caps = GoldCaps { max_inventory_gold: 990_000, max_stash_gold: 2_500_000 };
    let bytes = save.encode_stats(&layout(), &caps);
    assert_eq!(stat_value(&bytes, 14), Some(990_000));
    assert_eq!(stat_value(&bytes, 15), Some(2_500_000));
}

#[test]
fn encoded_stats_hold_every_statistic_in_order() {
    let mut save = necromancer();
    save.experience = 0xFFFF_FFFF;
    save.stat_points_remaining = 7;
    let caps = GoldCaps { max_inventory_gold: 10, max_stash_gold: 10 };
    let bytes = save.encode_stats(&layout(), &caps);
    let total_bits: usize = WIDTHS.iter().map(|&w| 9 + w as usize).sum::<usize>() + 9;
    assert_eq!(bytes.len(), (total_bits + 7) / 8);
    assert_eq!(stat_value(&bytes, 0), Some(15));
    assert_eq!(stat_value(&bytes, 1), Some(25));
    assert_eq!(stat_value(&bytes, 4), Some(7));
    assert_eq!(stat_value(&bytes, 6), Some(45 << 8));
    assert_eq!(stat_value(&bytes, 11), Some(79 << 8));
    assert_eq!(stat_value(&bytes, 12), Some(1));
    assert_eq!(stat_value(&bytes, 13), Some(0xFFFF_FFFF));
    assert_eq!(read_bits(&bytes, total_bits - 9, 9), Some(0x1FF));
}

#[test]
fn version_and_mode_follow_game_version() {
    let mut save = necromancer();
    save.game_version = GameVersion::Legacy;
    assert_eq!(save.target_version_raw(0x69), 0x60);
    assert_eq!(save.expansion_choice(), ExpansionChoice::Unchanged);
    save.game_version = GameVersion::Resurrected;
    assert_eq!(save.target_version_raw(0x60), 0x62);
    assert_eq!(save.target_version_raw(0x63), 0x63);
    assert_eq!(save.expansion_choice(), ExpansionChoice::Expansion);
    save.game_version = GameVersion::Warlock;
    assert_eq!(save.target_version_raw(0x62), 0x69);
    assert_eq!(save.target_version_raw(0x70), 0x70);
    assert_eq!(save.expansion_choice(), ExpansionChoice::RotW);
}

#[test]
fn status_takes_character_flags_and_header_ladder() {
    let mut save = necromancer();
    save.hardcore = true;
    save.died = true;
    let current = CharacterStatus { hardcore: false, died: false, expansion: true, ladder: true };
    assert_eq!(
        save.character_status(true, &current),
        CharacterStatus { hardcore: true, died: true, expansion: false, ladder: true }
    );
    assert_eq!(
        save.character_status(false, &current),
        CharacterStatus { hardcore: true, died: true, expansion: true, ladder: true }
    );
}
