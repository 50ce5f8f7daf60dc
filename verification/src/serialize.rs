use vstd::prelude::*;
use crate::model::{min_u32, GameVersion, GoldCaps, Savegame};
use crate::save::{bits_of, packs, BitWriter};

verus! {

/// Where a statistic goes in the stats section: its identifier (written in
/// 9 bits) and the bit width of its value.
#[derive(Debug, Clone, Copy, PartialEq, Eq, Structural)]
pub struct StatField {
    pub id: u32,
    pub width: u32,
}

/// The identifier and width of each of the sixteen statistics, in the order
/// of `CharacterStat` (strength first, stashed gold last).
#[derive(Debug, Clone, Copy)]
pub struct StatLayout {
    pub fields: [StatField; 16],
}

impl StatLayout {
    /// Every value fits the bit writer.
    pub open spec fn well_formed(&self) -> bool {
        forall|i: int| 0 <= i < 16 ==> (#[trigger] self.fields@[i]).width <= 32
    }
}

/// The stat records for the first `n` statistics: each is the identifier in
/// 9 bits followed by the value in the statistic's width.
pub open spec fn stat_records(fields: Seq<StatField>, values: Seq<u32>, n: nat) -> Seq<bool>
    decreases n,
{
    if n == 0 {
        Seq::empty()
    } else {
        stat_records(fields, values, (n - 1) as nat) + bits_of(fields[n - 1].id, 9) + bits_of(
            values[n - 1],
            fields[n - 1].width as nat,
        )
    }
}

/// How the header's expansion mode is to be set.
#[derive(Debug, Clone, Copy, PartialEq, Eq, Structural)]
pub enum ExpansionChoice {
    /// Reign of the Warlock.
    RotW,
    /// Lord of Destruction.
    Expansion,
    /// Keep the mode that the header has.
    Unchanged,
}

/// The status flags of a character header.
#[derive(Debug, Clone, Copy, PartialEq, Eq, Structural)]
pub struct CharacterStatus {
    pub hardcore: bool,
    pub died: bool,
    pub expansion: bool,
    pub ladder: bool,
}

impl Savegame {
    /// The values written for the sixteen statistics, in order. Vitals are
    /// stored in 1/256 units and gold is cut down to the caps.
    pub open spec fn stat_values(self, caps: GoldCaps) -> Seq<u32> {
        seq![
            self.strength,
            self.energy,
            self.dexterity,
            self.vitality,
            self.stat_points_remaining,
            self.skill_points_remaining,
            self.current_hp << 8u32,
            self.max_hp << 8u32,
            self.current_mana << 8u32,
            self.max_mana << 8u32,
            self.current_stamina << 8u32,
            self.max_stamina << 8u32,
            self.level,
            self.experience,
            min_u32(self.gold, caps.max_inventory_gold),
            min_u32(self.stashed_gold, caps.max_stash_gold),
        ]
    }

    /// The bits of the stats section: the sixteen records and the 0x1FF
    /// terminator.
    pub open spec fn encoded_stats(self, layout: StatLayout, caps: GoldCaps) -> Seq<bool> {
        stat_records(layout.fields@, self.stat_values(caps), 16) + bits_of(0x1FF, 9)
    }

    /// Encodes the stats section of the character file.
    pub fn encode_stats(&self, layout: &StatLayout, caps: &GoldCaps) -> (bytes: Vec<u8>)
        requires
            layout.well_formed(),
        ensures
            packs(bytes@, self.encoded_stats(*layout, *caps)),
    {
        let gold = if self.gold <= caps.max_inventory_gold {
            self.gold
        } else {
            caps.max_inventory_gold
        };
        let stashed_gold = if self.stashed_gold <= caps.max_stash_gold {
            self.stashed_gold
        } else {
            caps.max_stash_gold
        };
        let values: [u32; 16] = [
            self.strength,
            self.energy,
            self.dexterity,
            self.vitality,
            self.stat_points_remaining,
            self.skill_points_remaining,
            self.current_hp << 8u32,
            self.max_hp << 8u32,
            self.current_mana << 8u32,
            self.max_mana << 8u32,
            self.current_stamina << 8u32,
            self.max_stamina << 8u32,
            self.level,
            self.experience,
            gold,
            stashed_gold,
        ];
        assert(values@ =~= self.stat_values(*caps));
        let mut writer = BitWriter::new();
        let mut i: usize = 0;
        while i < 16
            invariant
                i <= 16,
                writer.wf(),
                layout.well_formed(),
                writer@ == stat_records(layout.fields@, values@, i as nat),
                writer@.len() <= 41 * i,
            decreases 16 - i,
        {
            let field = layout.fields[i];
            assert(field.width <= 32);
            writer.write_bits(field.id, 9);
            writer.write_bits(values[i], field.width as usize);
            i = i + 1;
        }
        writer.write_bits(0x1FF, 9);
        writer.finish()
    }

    /// The raw version number to store: Legacy files are written as 0x60,
    /// Resurrected ones keep a version from 0x61 on (or become 0x62), and
    /// Reign of the Warlock ones keep a version from 0x69 on (or become 0x69).
    pub fn target_version_raw(&self, current_version_raw: u32) -> (v: u32)
        ensures
            v == match self.game_version {
                GameVersion::Legacy => 0x60u32,
                GameVersion::Resurrected => if current_version_raw >= 0x61 {
                    current_version_raw
                } else {
                    0x62u32
                },
                GameVersion::Warlock => if current_version_raw >= 0x69 {
                    current_version_raw
                } else {
                    0x69u32
                },
            },
    {
        match self.game_version {
            GameVersion::Legacy => 0x60,
            GameVersion::Resurrected => {
                if current_version_raw >= 0x61 {
                    current_version_raw
                } else {
                    0x62
                }
            },
            GameVersion::Warlock => {
                if current_version_raw >= 0x69 {
                    current_version_raw
                } else {
                    0x69
                }
            },
        }
    }

    /// The expansion mode a header with a mode marker gets: Reign of the
    /// Warlock for Warlock saves, the expansion for Resurrected saves, and
    /// the header's own mode for Legacy saves.
    pub fn expansion_choice(&self) -> (c: ExpansionChoice)
        ensures
            c == match self.game_version {
                GameVersion::Warlock => ExpansionChoice::RotW,
                GameVersion::Resurrected => ExpansionChoice::Expansion,
                GameVersion::Legacy => ExpansionChoice::Unchanged,
            },
    {
        match self.game_version {
            GameVersion::Warlock => ExpansionChoice::RotW,
            GameVersion::Resurrected => ExpansionChoice::Expansion,
            GameVersion::Legacy => ExpansionChoice::Unchanged,
        }
    }

    /// The header status to write: the character's hardcore and death flags,
    /// the header's ladder flag, and its expansion flag unless the header
    /// layout carries a mode marker (then the flag is cleared).
    pub fn character_status(&self, uses_mode_marker: bool, current: &CharacterStatus) -> (status: CharacterStatus)
        ensures
            status == (CharacterStatus {
                hardcore: self.hardcore,
                died: self.died,
                expansion: if uses_mode_marker {
                    false
                } else {
                    current.expansion
                },
                ladder: current.ladder,
            }),
    {
        CharacterStatus {
            hardcore: self.hardcore,
            died: self.died,
            expansion: if uses_mode_marker {
                false
            } else {
                current.expansion
            },
            ladder: current.ladder,
        }
    }
}

} // verus!
