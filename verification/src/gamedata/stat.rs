//! Stat entries: a one-byte stat type followed by an integer or a
//! length-prefixed string value, depending on the type.

use crate::adapters::rle::{lemma_rle_string_canon, RLE};
use crate::adapters::{Error, Invalid, NetworkAdapter, Reader};
use vstd::prelude::*;

verus! {

/// The type of a stat carried in a `StatData` entry.
#[derive(Debug, PartialEq, Eq, Structural, PartialOrd, Ord, Clone, Copy)]
#[allow(non_camel_case_types)]
pub enum StatType {
    MAX_HP_STAT,
    HP_STAT,
    SIZE_STAT,
    MAX_MP_STAT,
    MP_STAT,
    NEXT_LEVEL_EXP_STAT,
    EXP_STAT,
    LEVEL_STAT,
    ATTACK_STAT,
    DEFENSE_STAT,
    SPEED_STAT,
    INVENTORY_0_STAT,
    INVENTORY_1_STAT,
    INVENTORY_2_STAT,
    INVENTORY_3_STAT,
    INVENTORY_4_STAT,
    INVENTORY_5_STAT,
    INVENTORY_6_STAT,
    INVENTORY_7_STAT,
    INVENTORY_8_STAT,
    INVENTORY_9_STAT,
    INVENTORY_10_STAT,
    INVENTORY_11_STAT,
    VITALITY_STAT,
    WISDOM_STAT,
    DEXTERITY_STAT,
    CONDITION_STAT,
    NUM_STARS_STAT,
    NAME_STAT,
    TEX1_STAT,
    TEX2_STAT,
    MERCHANDISE_TYPE_STAT,
    CREDITS_STAT,
    MERCHANDISE_PRICE_STAT,
    ACTIVE_STAT,
    ACCOUNT_ID_STAT,
    FAME_STAT,
    MERCHANDISE_CURRENCY_STAT,
    CONNECT_STAT,
    MERCHANDISE_COUNT_STAT,
    MERCHANDISE_MINS_LEFT_STAT,
    MERCHANDISE_DISCOUNT_STAT,
    MERCHANDISE_RANK_REQ_STAT,
    MAX_HP_BOOST_STAT,
    MAX_MP_BOOST_STAT,
    ATTACK_BOOST_STAT,
    DEFENSE_BOOST_STAT,
    SPEED_BOOST_STAT,
    VITALITY_BOOST_STAT,
    WISDOM_BOOST_STAT,
    DEXTERITY_BOOST_STAT,
    OWNER_ACCOUNT_ID_STAT,
    RANK_REQUIRED_STAT,
    NAME_CHOSEN_STAT,
    CURR_FAME_STAT,
    NEXT_CLASS_QUEST_FAME_STAT,
    LEGENDARY_RANK_STAT,
    SINK_LEVEL_STAT,
    ALT_TEXTURE_STAT,
    GUILD_NAME_STAT,
    GUILD_RANK_STAT,
    BREATH_STAT,
    XP_BOOSTED_STAT,
    XP_TIMER_STAT,
    LD_TIMER_STAT,
    LT_TIMER_STAT,
    HEALTH_POTION_STACK_STAT,
    MAGIC_POTION_STACK_STAT,
    BACKPACK_0_STAT,
    BACKPACK_1_STAT,
    BACKPACK_2_STAT,
    BACKPACK_3_STAT,
    BACKPACK_4_STAT,
    BACKPACK_5_STAT,
    BACKPACK_6_STAT,
    BACKPACK_7_STAT,
    HASBACKPACK_STAT,
    TEXTURE_STAT,
    PET_INSTANCEID_STAT,
    PET_NAME_STAT,
    PET_TYPE_STAT,
    PET_RARITY_STAT,
    PET_MAXABILITYPOWER_STAT,
    PET_FAMILY_STAT,
    PET_FIRSTABILITY_POINT_STAT,
    PET_SECONDABILITY_POINT_STAT,
    PET_THIRDABILITY_POINT_STAT,
    PET_FIRSTABILITY_POWER_STAT,
    PET_SECONDABILITY_POWER_STAT,
    PET_THIRDABILITY_POWER_STAT,
    PET_FIRSTABILITY_TYPE_STAT,
    PET_SECONDABILITY_TYPE_STAT,
    PET_THIRDABILITY_TYPE_STAT,
    NEW_CON_STAT,
    FORTUNE_TOKEN_STAT,
    SUPPORTER_POINTS_STAT,
    SUPPORTER_STAT,
}

/// The wire byte for each stat type.
pub open spec fn stat_to_byte(t: StatType) -> u8 {
    match t {
        StatType::MAX_HP_STAT => 0,
        StatType::HP_STAT => 1,
        StatType::SIZE_STAT => 2,
        StatType::MAX_MP_STAT => 3,
        StatType::MP_STAT => 4,
        StatType::NEXT_LEVEL_EXP_STAT => 5,
        StatType::EXP_STAT => 6,
        StatType::LEVEL_STAT => 7,
        StatType::ATTACK_STAT => 20,
        StatType::DEFENSE_STAT => 21,
        StatType::SPEED_STAT => 22,
        StatType::INVENTORY_0_STAT => 8,
        StatType::INVENTORY_1_STAT => 9,
        StatType::INVENTORY_2_STAT => 10,
        StatType::INVENTORY_3_STAT => 11,
        StatType::INVENTORY_4_STAT => 12,
        StatType::INVENTORY_5_STAT => 13,
        StatType::INVENTORY_6_STAT => 14,
        StatType::INVENTORY_7_STAT => 15,
        StatType::INVENTORY_8_STAT => 16,
        StatType::INVENTORY_9_STAT => 17,
        StatType::INVENTORY_10_STAT => 18,
        StatType::INVENTORY_11_STAT => 19,
        StatType::VITALITY_STAT => 26,
        StatType::WISDOM_STAT => 27,
        StatType::DEXTERITY_STAT => 28,
        StatType::CONDITION_STAT => 29,
        StatType::NUM_STARS_STAT => 30,
        StatType::NAME_STAT => 31,
        StatType::TEX1_STAT => 32,
        StatType::TEX2_STAT => 33,
        StatType::MERCHANDISE_TYPE_STAT => 34,
        StatType::CREDITS_STAT => 35,
        StatType::MERCHANDISE_PRICE_STAT => 36,
        StatType::ACTIVE_STAT => 37,
        StatType::ACCOUNT_ID_STAT => 38,
        StatType::FAME_STAT => 39,
        StatType::MERCHANDISE_CURRENCY_STAT => 40,
        StatType::CONNECT_STAT => 41,
        StatType::MERCHANDISE_COUNT_STAT => 42,
        StatType::MERCHANDISE_MINS_LEFT_STAT => 43,
        StatType::MERCHANDISE_DISCOUNT_STAT => 44,
        StatType::MERCHANDISE_RANK_REQ_STAT => 45,
        StatType::MAX_HP_BOOST_STAT => 46,
        StatType::MAX_MP_BOOST_STAT => 47,
        StatType::ATTACK_BOOST_STAT => 48,
        StatType::DEFENSE_BOOST_STAT => 49,
        StatType::SPEED_BOOST_STAT => 50,
        StatType::VITALITY_BOOST_STAT => 51,
        StatType::WISDOM_BOOST_STAT => 52,
        StatType::DEXTERITY_BOOST_STAT => 53,
        StatType::OWNER_ACCOUNT_ID_STAT => 54,
        StatType::RANK_REQUIRED_STAT => 55,
        StatType::NAME_CHOSEN_STAT => 56,
        StatType::CURR_FAME_STAT => 57,
        StatType::NEXT_CLASS_QUEST_FAME_STAT => 58,
        StatType::LEGENDARY_RANK_STAT => 59,
        StatType::SINK_LEVEL_STAT => 60,
        StatType::ALT_TEXTURE_STAT => 61,
        StatType::GUILD_NAME_STAT => 62,
        StatType::GUILD_RANK_STAT => 63,
        StatType::BREATH_STAT => 64,
        StatType::XP_BOOSTED_STAT => 65,
        StatType::XP_TIMER_STAT => 66,
        StatType::LD_TIMER_STAT => 67,
        StatType::LT_TIMER_STAT => 68,
        StatType::HEALTH_POTION_STACK_STAT => 69,
        StatType::MAGIC_POTION_STACK_STAT => 70,
        StatType::BACKPACK_0_STAT => 71,
        StatType::BACKPACK_1_STAT => 72,
        StatType::BACKPACK_2_STAT => 73,
        StatType::BACKPACK_3_STAT => 74,
        StatType::BACKPACK_4_STAT => 75,
        StatType::BACKPACK_5_STAT => 76,
        StatType::BACKPACK_6_STAT => 77,
        StatType::BACKPACK_7_STAT => 78,
        StatType::HASBACKPACK_STAT => 79,
        StatType::TEXTURE_STAT => 80,
        StatType::PET_INSTANCEID_STAT => 81,
        StatType::PET_NAME_STAT => 82,
        StatType::PET_TYPE_STAT => 83,
        StatType::PET_RARITY_STAT => 84,
        StatType::PET_MAXABILITYPOWER_STAT => 85,
        StatType::PET_FAMILY_STAT => 86,
        StatType::PET_FIRSTABILITY_POINT_STAT => 87,
        StatType::PET_SECONDABILITY_POINT_STAT => 88,
        StatType::PET_THIRDABILITY_POINT_STAT => 89,
        StatType::PET_FIRSTABILITY_POWER_STAT => 90,
        StatType::PET_SECONDABILITY_POWER_STAT => 91,
        StatType::PET_THIRDABILITY_POWER_STAT => 92,
        StatType::PET_FIRSTABILITY_TYPE_STAT => 93,
        StatType::PET_SECONDABILITY_TYPE_STAT => 94,
        StatType::PET_THIRDABILITY_TYPE_STAT => 95,
        StatType::NEW_CON_STAT => 96,
        StatType::FORTUNE_TOKEN_STAT => 97,
        StatType::SUPPORTER_POINTS_STAT => 98,
        StatType::SUPPORTER_STAT => 99,
    }
}

/// The stat type a wire byte denotes, if any.
pub open spec fn stat_from_byte(x: u8) -> Option<StatType> {
    if x == 0 {
        Some(StatType::MAX_HP_STAT)
    } else if x == 1 {
        Some(StatType::HP_STAT)
    } else if x == 2 {
        Some(StatType::SIZE_STAT)
    } else if x == 3 {
        Some(StatType::MAX_MP_STAT)
    } else if x == 4 {
        Some(StatType::MP_STAT)
    } else if x == 5 {
        Some(StatType::NEXT_LEVEL_EXP_STAT)
    } else if x == 6 {
        Some(StatType::EXP_STAT)
    } else if x == 7 {
        Some(StatType::LEVEL_STAT)
    } else if x == 20 {
        Some(StatType::ATTACK_STAT)
    } else if x == 21 {
        Some(StatType::DEFENSE_STAT)
    } else if x == 22 {
        Some(StatType::SPEED_STAT)
    } else if x == 8 {
        Some(StatType::INVENTORY_0_STAT)
    } else if x == 9 {
        Some(StatType::INVENTORY_1_STAT)
    } else if x == 10 {
        Some(StatType::INVENTORY_2_STAT)
    } else if x == 11 {
        Some(StatType::INVENTORY_3_STAT)
    } else if x == 12 {
        Some(StatType::INVENTORY_4_STAT)
    } else if x == 13 {
        Some(StatType::INVENTORY_5_STAT)
    } else if x == 14 {
        Some(StatType::INVENTORY_6_STAT)
    } else if x == 15 {
        Some(StatType::INVENTORY_7_STAT)
    } else if x == 16 {
        Some(StatType::INVENTORY_8_STAT)
    } else if x == 17 {
        Some(StatType::INVENTORY_9_STAT)
    } else if x == 18 {
        Some(StatType::INVENTORY_10_STAT)
    } else if x == 19 {
        Some(StatType::INVENTORY_11_STAT)
    } else if x == 26 {
        Some(StatType::VITALITY_STAT)
    } else if x == 27 {
        Some(StatType::WISDOM_STAT)
    } else if x == 28 {
        Some(StatType::DEXTERITY_STAT)
    } else if x == 29 {
        Some(StatType::CONDITION_STAT)
    } else if x == 30 {
        Some(StatType::NUM_STARS_STAT)
    } else if x == 31 {
        Some(StatType::NAME_STAT)
    } else if x == 32 {
        Some(StatType::TEX1_STAT)
    } else if x == 33 {
        Some(StatType::TEX2_STAT)
    } else if x == 34 {
        Some(StatType::MERCHANDISE_TYPE_STAT)
    } else if x == 35 {
        Some(StatType::CREDITS_STAT)
    } else if x == 36 {
        Some(StatType::MERCHANDISE_PRICE_STAT)
    } else if x == 37 {
        Some(StatType::ACTIVE_STAT)
    } else if x == 38 {
        Some(StatType::ACCOUNT_ID_STAT)
    } else if x == 39 {
        Some(StatType::FAME_STAT)
    } else if x == 40 {
        Some(StatType::MERCHANDISE_CURRENCY_STAT)
    } else if x == 41 {
        Some(StatType::CONNECT_STAT)
    } else if x == 42 {
        Some(StatType::MERCHANDISE_COUNT_STAT)
    } else if x == 43 {
        Some(StatType::MERCHANDISE_MINS_LEFT_STAT)
    } else if x == 44 {
        Some(StatType::MERCHANDISE_DISCOUNT_STAT)
    } else if x == 45 {
        Some(StatType::MERCHANDISE_RANK_REQ_STAT)
    } else if x == 46 {
        Some(StatType::MAX_HP_BOOST_STAT)
    } else if x == 47 {
        Some(StatType::MAX_MP_BOOST_STAT)
    } else if x == 48 {
        Some(StatType::ATTACK_BOOST_STAT)
    } else if x == 49 {
        Some(StatType::DEFENSE_BOOST_STAT)
    } else if x == 50 {
        Some(StatType::SPEED_BOOST_STAT)
    } else if x == 51 {
        Some(StatType::VITALITY_BOOST_STAT)
    } else if x == 52 {
        Some(StatType::WISDOM_BOOST_STAT)
    } else if x == 53 {
        Some(StatType::DEXTERITY_BOOST_STAT)
    } else if x == 54 {
        Some(StatType::OWNER_ACCOUNT_ID_STAT)
    } else if x == 55 {
        Some(StatType::RANK_REQUIRED_STAT)
    } else if x == 56 {
        Some(StatType::NAME_CHOSEN_STAT)
    } else if x == 57 {
        Some(StatType::CURR_FAME_STAT)
    } else if x == 58 {
        Some(StatType::NEXT_CLASS_QUEST_FAME_STAT)
    } else if x == 59 {
        Some(StatType::LEGENDARY_RANK_STAT)
    } else if x == 60 {
        Some(StatType::SINK_LEVEL_STAT)
    } else if x == 61 {
        Some(StatType::ALT_TEXTURE_STAT)
    } else if x == 62 {
        Some(StatType::GUILD_NAME_STAT)
    } else if x == 63 {
        Some(StatType::GUILD_RANK_STAT)
    } else if x == 64 {
        Some(StatType::BREATH_STAT)
    } else if x == 65 {
        Some(StatType::XP_BOOSTED_STAT)
    } else if x == 66 {
        Some(StatType::XP_TIMER_STAT)
    } else if x == 67 {
        Some(StatType::LD_TIMER_STAT)
    } else if x == 68 {
        Some(StatType::LT_TIMER_STAT)
    } else if x == 69 {
        Some(StatType::HEALTH_POTION_STACK_STAT)
    } else if x == 70 {
        Some(StatType::MAGIC_POTION_STACK_STAT)
    } else if x == 71 {
        Some(StatType::BACKPACK_0_STAT)
    } else if x == 72 {
        Some(StatType::BACKPACK_1_STAT)
    } else if x == 73 {
        Some(StatType::BACKPACK_2_STAT)
    } else if x == 74 {
        Some(StatType::BACKPACK_3_STAT)
    } else if x == 75 {
        Some(StatType::BACKPACK_4_STAT)
    } else if x == 76 {
        Some(StatType::BACKPACK_5_STAT)
    } else if x == 77 {
        Some(StatType::BACKPACK_6_STAT)
    } else if x == 78 {
        Some(StatType::BACKPACK_7_STAT)
    } else if x == 79 {
        Some(StatType::HASBACKPACK_STAT)
    } else if x == 80 {
        Some(StatType::TEXTURE_STAT)
    } else if x == 81 {
        Some(StatType::PET_INSTANCEID_STAT)
    } else if x == 82 {
        Some(StatType::PET_NAME_STAT)
    } else if x == 83 {
        Some(StatType::PET_TYPE_STAT)
    } else if x == 84 {
        Some(StatType::PET_RARITY_STAT)
    } else if x == 85 {
        Some(StatType::PET_MAXABILITYPOWER_STAT)
    } else if x == 86 {
        Some(StatType::PET_FAMILY_STAT)
    } else if x == 87 {
        Some(StatType::PET_FIRSTABILITY_POINT_STAT)
    } else if x == 88 {
        Some(StatType::PET_SECONDABILITY_POINT_STAT)
    } else if x == 89 {
        Some(StatType::PET_THIRDABILITY_POINT_STAT)
    } else if x == 90 {
        Some(StatType::PET_FIRSTABILITY_POWER_STAT)
    } else if x == 91 {
        Some(StatType::PET_SECONDABILITY_POWER_STAT)
    } else if x == 92 {
        Some(StatType::PET_THIRDABILITY_POWER_STAT)
    } else if x == 93 {
        Some(StatType::PET_FIRSTABILITY_TYPE_STAT)
    } else if x == 94 {
        Some(StatType::PET_SECONDABILITY_TYPE_STAT)
    } else if x == 95 {
        Some(StatType::PET_THIRDABILITY_TYPE_STAT)
    } else if x == 96 {
        Some(StatType::NEW_CON_STAT)
    } else if x == 97 {
        Some(StatType::FORTUNE_TOKEN_STAT)
    } else if x == 98 {
        Some(StatType::SUPPORTER_POINTS_STAT)
    } else if x == 99 {
        Some(StatType::SUPPORTER_STAT)
    } else {
        None
    }
}

/// Whether this stat type carries a string value rather than an integer.
pub open spec fn stat_is_string(t: StatType) -> bool {
    match t {
        StatType::NAME_STAT | StatType::GUILD_NAME_STAT | StatType::PET_NAME_STAT | StatType::ACCOUNT_ID_STAT | StatType::OWNER_ACCOUNT_ID_STAT => true,
        _ => false,
    }
}

impl StatType {
    /// Convert a wire byte to the matching stat type, or `None` when the
    /// byte denotes no known stat type.
    pub fn from_byte(byte: u8) -> (res: Option<Self>)
        ensures
            res == stat_from_byte(byte),
    {
        if byte == 0 {
            Some(StatType::MAX_HP_STAT)
        } else if byte == 1 {
            Some(StatType::HP_STAT)
        } else if byte == 2 {
            Some(StatType::SIZE_STAT)
        } else if byte == 3 {
            Some(StatType::MAX_MP_STAT)
        } else if byte == 4 {
            Some(StatType::MP_STAT)
        } else if byte == 5 {
            Some(StatType::NEXT_LEVEL_EXP_STAT)
        } else if byte == 6 {
            Some(StatType::EXP_STAT)
        } else if byte == 7 {
            Some(StatType::LEVEL_STAT)
        } else if byte == 20 {
            Some(StatType::ATTACK_STAT)
        } else if byte == 21 {
            Some(StatType::DEFENSE_STAT)
        } else if byte == 22 {
            Some(StatType::SPEED_STAT)
        } else if byte == 8 {
            Some(StatType::INVENTORY_0_STAT)
        } else if byte == 9 {
            Some(StatType::INVENTORY_1_STAT)
        } else if byte == 10 {
            Some(StatType::INVENTORY_2_STAT)
        } else if byte == 11 {
            Some(StatType::INVENTORY_3_STAT)
        } else if byte == 12 {
            Some(StatType::INVENTORY_4_STAT)
        } else if byte == 13 {
            Some(StatType::INVENTORY_5_STAT)
        } else if byte == 14 {
            Some(StatType::INVENTORY_6_STAT)
        } else if byte == 15 {
            Some(StatType::INVENTORY_7_STAT)
        } else if byte == 16 {
            Some(StatType::INVENTORY_8_STAT)
        } else if byte == 17 {
            Some(StatType::INVENTORY_9_STAT)
        } else if byte == 18 {
            Some(StatType::INVENTORY_10_STAT)
        } else if byte == 19 {
            Some(StatType::INVENTORY_11_STAT)
        } else if byte == 26 {
            Some(StatType::VITALITY_STAT)
        } else if byte == 27 {
            Some(StatType::WISDOM_STAT)
        } else if byte == 28 {
            Some(StatType::DEXTERITY_STAT)
        } else if byte == 29 {
            Some(StatType::CONDITION_STAT)
        } else if byte == 30 {
            Some(StatType::NUM_STARS_STAT)
        } else if byte == 31 {
            Some(StatType::NAME_STAT)
        } else if byte == 32 {
            Some(StatType::TEX1_STAT)
        } else if byte == 33 {
            Some(StatType::TEX2_STAT)
        } else if byte == 34 {
            Some(StatType::MERCHANDISE_TYPE_STAT)
        } else if byte == 35 {
            Some(StatType::CREDITS_STAT)
        } else if byte == 36 {
            Some(StatType::MERCHANDISE_PRICE_STAT)
        } else if byte == 37 {
            Some(StatType::ACTIVE_STAT)
        } else if byte == 38 {
            Some(StatType::ACCOUNT_ID_STAT)
        } else if byte == 39 {
            Some(StatType::FAME_STAT)
        } else if byte == 40 {
            Some(StatType::MERCHANDISE_CURRENCY_STAT)
        } else if byte == 41 {
            Some(StatType::CONNECT_STAT)
        } else if byte == 42 {
            Some(StatType::MERCHANDISE_COUNT_STAT)
        } else if byte == 43 {
            Some(StatType::MERCHANDISE_MINS_LEFT_STAT)
        } else if byte == 44 {
            Some(StatType::MERCHANDISE_DISCOUNT_STAT)
        } else if byte == 45 {
            Some(StatType::MERCHANDISE_RANK_REQ_STAT)
        } else if byte == 46 {
            Some(StatType::MAX_HP_BOOST_STAT)
        } else if byte == 47 {
            Some(StatType::MAX_MP_BOOST_STAT)
        } else if byte == 48 {
            Some(StatType::ATTACK_BOOST_STAT)
        } else if byte == 49 {
            Some(StatType::DEFENSE_BOOST_STAT)
        } else if byte == 50 {
            Some(StatType::SPEED_BOOST_STAT)
        } else if byte == 51 {
            Some(StatType::VITALITY_BOOST_STAT)
        } else if byte == 52 {
            Some(StatType::WISDOM_BOOST_STAT)
        } else if byte == 53 {
            Some(StatType::DEXTERITY_BOOST_STAT)
        } else if byte == 54 {
            Some(StatType::OWNER_ACCOUNT_ID_STAT)
        } else if byte == 55 {
            Some(StatType::RANK_REQUIRED_STAT)
        } else if byte == 56 {
            Some(StatType::NAME_CHOSEN_STAT)
        } else if byte == 57 {
            Some(StatType::CURR_FAME_STAT)
        } else if byte == 58 {
            Some(StatType::NEXT_CLASS_QUEST_FAME_STAT)
        } else if byte == 59 {
            Some(StatType::LEGENDARY_RANK_STAT)
        } else if byte == 60 {
            Some(StatType::SINK_LEVEL_STAT)
        } else if byte == 61 {
            Some(StatType::ALT_TEXTURE_STAT)
        } else if byte == 62 {
            Some(StatType::GUILD_NAME_STAT)
        } else if byte == 63 {
            Some(StatType::GUILD_RANK_STAT)
        } else if byte == 64 {
            Some(StatType::BREATH_STAT)
        } else if byte == 65 {
            Some(StatType::XP_BOOSTED_STAT)
        } else if byte == 66 {
            Some(StatType::XP_TIMER_STAT)
        } else if byte == 67 {
            Some(StatType::LD_TIMER_STAT)
        } else if byte == 68 {
            Some(StatType::LT_TIMER_STAT)
        } else if byte == 69 {
            Some(StatType::HEALTH_POTION_STACK_STAT)
        } else if byte == 70 {
            Some(StatType::MAGIC_POTION_STACK_STAT)
        } else if byte == 71 {
            Some(StatType::BACKPACK_0_STAT)
        } else if byte == 72 {
            Some(StatType::BACKPACK_1_STAT)
        } else if byte == 73 {
            Some(StatType::BACKPACK_2_STAT)
        } else if byte == 74 {
            Some(StatType::BACKPACK_3_STAT)
        } else if byte == 75 {
            Some(StatType::BACKPACK_4_STAT)
        } else if byte == 76 {
            Some(StatType::BACKPACK_5_STAT)
        } else if byte == 77 {
            Some(StatType::BACKPACK_6_STAT)
        } else if byte == 78 {
            Some(StatType::BACKPACK_7_STAT)
        } else if byte == 79 {
            Some(StatType::HASBACKPACK_STAT)
        } else if byte == 80 {
            Some(StatType::TEXTURE_STAT)
        } else if byte == 81 {
            Some(StatType::PET_INSTANCEID_STAT)
        } else if byte == 82 {
            Some(StatType::PET_NAME_STAT)
        } else if byte == 83 {
            Some(StatType::PET_TYPE_STAT)
        } else if byte == 84 {
            Some(StatType::PET_RARITY_STAT)
        } else if byte == 85 {
            Some(StatType::PET_MAXABILITYPOWER_STAT)
        } else if byte == 86 {
            Some(StatType::PET_FAMILY_STAT)
        } else if byte == 87 {
            Some(StatType::PET_FIRSTABILITY_POINT_STAT)
        } else if byte == 88 {
            Some(StatType::PET_SECONDABILITY_POINT_STAT)
        } else if byte == 89 {
            Some(StatType::PET_THIRDABILITY_POINT_STAT)
        } else if byte == 90 {
            Some(StatType::PET_FIRSTABILITY_POWER_STAT)
        } else if byte == 91 {
            Some(StatType::PET_SECONDABILITY_POWER_STAT)
        } else if byte == 92 {
            Some(StatType::PET_THIRDABILITY_POWER_STAT)
        } else if byte == 93 {
            Some(StatType::PET_FIRSTABILITY_TYPE_STAT)
        } else if byte == 94 {
            Some(StatType::PET_SECONDABILITY_TYPE_STAT)
        } else if byte == 95 {
            Some(StatType::PET_THIRDABILITY_TYPE_STAT)
        } else if byte == 96 {
            Some(StatType::NEW_CON_STAT)
        } else if byte == 97 {
            Some(StatType::FORTUNE_TOKEN_STAT)
        } else if byte == 98 {
            Some(StatType::SUPPORTER_POINTS_STAT)
        } else if byte == 99 {
            Some(StatType::SUPPORTER_STAT)
        } else {
            None
        }
    }

    /// The wire byte for this stat type.
    pub fn to_byte(self) -> (res: u8)
        ensures
            res == stat_to_byte(self),
    {
        match self {
            StatType::MAX_HP_STAT => 0,
            StatType::HP_STAT => 1,
            StatType::SIZE_STAT => 2,
            StatType::MAX_MP_STAT => 3,
            StatType::MP_STAT => 4,
            StatType::NEXT_LEVEL_EXP_STAT => 5,
            StatType::EXP_STAT => 6,
            StatType::LEVEL_STAT => 7,
            StatType::ATTACK_STAT => 20,
            StatType::DEFENSE_STAT => 21,
            StatType::SPEED_STAT => 22,
            StatType::INVENTORY_0_STAT => 8,
            StatType::INVENTORY_1_STAT => 9,
            StatType::INVENTORY_2_STAT => 10,
            StatType::INVENTORY_3_STAT => 11,
            StatType::INVENTORY_4_STAT => 12,
            StatType::INVENTORY_5_STAT => 13,
            StatType::INVENTORY_6_STAT => 14,
            StatType::INVENTORY_7_STAT => 15,
            StatType::INVENTORY_8_STAT => 16,
            StatType::INVENTORY_9_STAT => 17,
            StatType::INVENTORY_10_STAT => 18,
            StatType::INVENTORY_11_STAT => 19,
            StatType::VITALITY_STAT => 26,
            StatType::WISDOM_STAT => 27,
            StatType::DEXTERITY_STAT => 28,
            StatType::CONDITION_STAT => 29,
            StatType::NUM_STARS_STAT => 30,
            StatType::NAME_STAT => 31,
            StatType::TEX1_STAT => 32,
            StatType::TEX2_STAT => 33,
            StatType::MERCHANDISE_TYPE_STAT => 34,
            StatType::CREDITS_STAT => 35,
            StatType::MERCHANDISE_PRICE_STAT => 36,
            StatType::ACTIVE_STAT => 37,
            StatType::ACCOUNT_ID_STAT => 38,
            StatType::FAME_STAT => 39,
            StatType::MERCHANDISE_CURRENCY_STAT => 40,
            StatType::CONNECT_STAT => 41,
            StatType::MERCHANDISE_COUNT_STAT => 42,
            StatType::MERCHANDISE_MINS_LEFT_STAT => 43,
            StatType::MERCHANDISE_DISCOUNT_STAT => 44,
            StatType::MERCHANDISE_RANK_REQ_STAT => 45,
            StatType::MAX_HP_BOOST_STAT => 46,
            StatType::MAX_MP_BOOST_STAT => 47,
            StatType::ATTACK_BOOST_STAT => 48,
            StatType::DEFENSE_BOOST_STAT => 49,
            StatType::SPEED_BOOST_STAT => 50,
            StatType::VITALITY_BOOST_STAT => 51,
            StatType::WISDOM_BOOST_STAT => 52,
            StatType::DEXTERITY_BOOST_STAT => 53,
            StatType::OWNER_ACCOUNT_ID_STAT => 54,
            StatType::RANK_REQUIRED_STAT => 55,
            StatType::NAME_CHOSEN_STAT => 56,
            StatType::CURR_FAME_STAT => 57,
            StatType::NEXT_CLASS_QUEST_FAME_STAT => 58,
            StatType::LEGENDARY_RANK_STAT => 59,
            StatType::SINK_LEVEL_STAT => 60,
            StatType::ALT_TEXTURE_STAT => 61,
            StatType::GUILD_NAME_STAT => 62,
            StatType::GUILD_RANK_STAT => 63,
            StatType::BREATH_STAT => 64,
            StatType::XP_BOOSTED_STAT => 65,
            StatType::XP_TIMER_STAT => 66,
            StatType::LD_TIMER_STAT => 67,
            StatType::LT_TIMER_STAT => 68,
            StatType::HEALTH_POTION_STACK_STAT => 69,
            StatType::MAGIC_POTION_STACK_STAT => 70,
            StatType::BACKPACK_0_STAT => 71,
            StatType::BACKPACK_1_STAT => 72,
            StatType::BACKPACK_2_STAT => 73,
            StatType::BACKPACK_3_STAT => 74,
            StatType::BACKPACK_4_STAT => 75,
            StatType::BACKPACK_5_STAT => 76,
            StatType::BACKPACK_6_STAT => 77,
            StatType::BACKPACK_7_STAT => 78,
            StatType::HASBACKPACK_STAT => 79,
            StatType::TEXTURE_STAT => 80,
            StatType::PET_INSTANCEID_STAT => 81,
            StatType::PET_NAME_STAT => 82,
            StatType::PET_TYPE_STAT => 83,
            StatType::PET_RARITY_STAT => 84,
            StatType::PET_MAXABILITYPOWER_STAT => 85,
            StatType::PET_FAMILY_STAT => 86,
            StatType::PET_FIRSTABILITY_POINT_STAT => 87,
            StatType::PET_SECONDABILITY_POINT_STAT => 88,
            StatType::PET_THIRDABILITY_POINT_STAT => 89,
            StatType::PET_FIRSTABILITY_POWER_STAT => 90,
            StatType::PET_SECONDABILITY_POWER_STAT => 91,
            StatType::PET_THIRDABILITY_POWER_STAT => 92,
            StatType::PET_FIRSTABILITY_TYPE_STAT => 93,
            StatType::PET_SECONDABILITY_TYPE_STAT => 94,
            StatType::PET_THIRDABILITY_TYPE_STAT => 95,
            StatType::NEW_CON_STAT => 96,
            StatType::FORTUNE_TOKEN_STAT => 97,
            StatType::SUPPORTER_POINTS_STAT => 98,
            StatType::SUPPORTER_STAT => 99,
        }
    }

    /// Whether this stat type carries a string value rather than an
    /// integer value.
    pub fn is_string_stat(self) -> (res: bool)
        ensures
            res == stat_is_string(self),
    {
        match self {
            StatType::NAME_STAT | StatType::GUILD_NAME_STAT | StatType::PET_NAME_STAT | StatType::ACCOUNT_ID_STAT | StatType::OWNER_ACCOUNT_ID_STAT => true,
            _ => false,
        }
    }
}

/// Reading a stat type's wire byte back gives the same stat type.
pub proof fn lemma_stat_byte_round(t: StatType)
    ensures
        stat_from_byte(stat_to_byte(t)) == Some(t),
{
}

/// A known wire byte is the byte of the stat type it denotes.
pub proof fn lemma_stat_byte_inverse(x: u8)
    requires
        stat_from_byte(x) matches Some(_),
    ensures
        stat_to_byte(stat_from_byte(x)->Some_0) == x,
{
}

/// One stat entry: an integer-valued or string-valued stat.
#[verifier::ext_equal]
#[derive(Debug, PartialEq, Clone)]
pub enum StatData {
    /// An integer-valued stat.
    Integer(StatType, u32),
    /// A string-valued stat.
    String(StatType, String),
}

/// The mathematical model of a decoded `StatData`.
#[verifier::ext_equal]
pub enum StatDataModel {
    /// An integer-valued stat.
    Integer(StatType, u32),
    /// A string-valued stat.
    Text(StatType, Seq<char>),
}

impl NetworkAdapter for StatData {
    type Model = StatDataModel;

    open spec fn model(self) -> StatDataModel {
        match self {
            StatData::Integer(t, v) => StatDataModel::Integer(t, v),
            StatData::String(t, s) => StatDataModel::Text(t, s@),
        }
    }

    open spec fn enc_model(m: StatDataModel) -> Seq<u8> {
        match m {
            StatDataModel::Integer(t, v) => seq![stat_to_byte(t)] + <u32 as NetworkAdapter>::enc_model(v),
            StatDataModel::Text(t, s) => seq![stat_to_byte(t)] + <RLE<String, u16> as NetworkAdapter>::enc_model(s),
        }
    }

    open spec fn valid_model(m: StatDataModel) -> bool {
        match m {
            StatDataModel::Integer(t, v) => !stat_is_string(t),
            StatDataModel::Text(t, s) => stat_is_string(t) && <RLE<String, u16> as NetworkAdapter>::valid_model(s),
        }
    }

    open spec fn dec(b: Seq<u8>) -> Result<(StatDataModel, int), Error> {
        if b.len() < 1 {
            Err(Error::InsufficientData { remaining: b.len() as usize, needed: 1 })
        } else {
            match stat_from_byte(b[0]) {
                None => Err(Error::InvalidData(Invalid::UnknownStat(b[0]))),
                Some(t) => if stat_is_string(t) {
                    match <RLE<String, u16> as NetworkAdapter>::dec(b.skip(1)) {
                        Ok((s, u)) => Ok((StatDataModel::Text(t, s), 1 + u)),
                        Err(e) => Err(e),
                    }
                } else {
                    match <u32 as NetworkAdapter>::dec(b.skip(1)) {
                        Ok((v, u)) => Ok((StatDataModel::Integer(t, v), 1 + u)),
                        Err(e) => Err(e),
                    }
                },
            }
        }
    }

    open spec fn canon(b: Seq<u8>) -> bool {
        true
    }

    fn get_be(r: &mut Reader) -> (res: Result<StatData, Error>) {
        let ghost b = old(r).remaining_bytes();
        let save = r.position();
        let rem = r.remaining();
        if rem < 1 {
            return Err(Error::InsufficientData { remaining: rem, needed: 1 });
        }
        let byte = r.read_byte();
        match StatType::from_byte(byte) {
            None => {
                r.seek(save);
                Err(Error::InvalidData(Invalid::UnknownStat(byte)))
            },
            Some(t) => {
                if t.is_string_stat() {
                    match <RLE<String, u16> as NetworkAdapter>::get_be(r) {
                        Ok(s) => Ok(StatData::String(t, s.unwrap())),
                        Err(e) => {
                            r.seek(save);
                            Err(e)
                        },
                    }
                } else {
                    match <u32 as NetworkAdapter>::get_be(r) {
                        Ok(v) => Ok(StatData::Integer(t, v)),
                        Err(e) => {
                            r.seek(save);
                            Err(e)
                        },
                    }
                }
            },
        }
    }

    fn put_be(self, out: &mut Vec<u8>) -> (res: Result<(), Error>) {
        let ghost m = self.model();
        match self {
            StatData::Integer(t, v) => {
                if t.is_string_stat() {
                    return Err(Error::InvalidData(Invalid::StatMismatch));
                }
                out.push(t.to_byte());
                let r2 = v.put_be(out);
                proof {
                    assert(out@ =~= old(out)@ + Self::enc_model(m));
                }
                Ok(())
            },
            StatData::String(t, s) => {
                if !t.is_string_stat() {
                    return Err(Error::InvalidData(Invalid::StatMismatch));
                }
                let mut tmp: Vec<u8> = Vec::new();
                tmp.push(t.to_byte());
                match RLE::<String, u16>::new(s).put_be(&mut tmp) {
                    Ok(()) => {
                        out.append(&mut tmp);
                        proof {
                            assert(out@ =~= old(out)@ + Self::enc_model(m));
                        }
                        Ok(())
                    },
                    Err(e) => Err(e),
                }
            },
        }
    }

    proof fn lemma_dec_enc(m: StatDataModel, rest: Seq<u8>) {
        let b = Self::enc_model(m) + rest;
        match m {
            StatDataModel::Integer(t, v) => {
                lemma_stat_byte_round(t);
                assert(b[0] == stat_to_byte(t));
                assert(b.skip(1) =~= <u32 as NetworkAdapter>::enc_model(v) + rest);
                <u32 as NetworkAdapter>::lemma_dec_enc(v, rest);
            },
            StatDataModel::Text(t, s) => {
                lemma_stat_byte_round(t);
                assert(b[0] == stat_to_byte(t));
                assert(b.skip(1) =~= <RLE<String, u16> as NetworkAdapter>::enc_model(s) + rest);
                <RLE<String, u16> as NetworkAdapter>::lemma_dec_enc(s, rest);
            },
        }
    }

    proof fn lemma_enc_dec(b: Seq<u8>, m: StatDataModel, n: int) {
        lemma_stat_byte_inverse(b[0]);
        let t = stat_from_byte(b[0])->Some_0;
        if stat_is_string(t) {
            let (s, u) = <RLE<String, u16> as NetworkAdapter>::dec(b.skip(1))->Ok_0;
            <RLE<String, u16> as NetworkAdapter>::lemma_enc_dec(b.skip(1), s, u);
            lemma_rle_string_canon::<u16>(b.skip(1));
            assert(Self::enc_model(m) =~= b.take(n));
        } else {
            let (v, u) = <u32 as NetworkAdapter>::dec(b.skip(1))->Ok_0;
            <u32 as NetworkAdapter>::lemma_enc_dec(b.skip(1), v, u);
            assert(Self::enc_model(m) =~= b.take(n));
        }
    }
}

} // verus!
