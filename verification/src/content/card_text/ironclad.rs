//! The text of the Ironclad cards (and of Giant Rock).
use vstd::prelude::*;

use super::{
    CardTextCtx, CardTextLine, apply_power_line, block, block_amount, block_times, card_damage_increase,
    cards_exhausted_this_turn, count_all_tag, count_hand_type, damage, damage_all, damage_all_exact, damage_exact,
    damage_random_times, damage_times, draw_line, exhaust_count, gain_energy_line, gain_power_line, hand_len,
    heal_line, hp_loss_events_by_player, hp_lost_by_player_this_turn, l, ln, lose_hp_line, player_block,
    previous_attacks_played, preview_damage, target_has, target_vulnerable, upgraded, val, s_apply_power_line,
    s_block, s_block_amount, s_block_times, s_card_damage_increase, s_cards_exhausted_this_turn, s_count_all_tag,
    s_count_hand_type, s_damage, s_damage_all, s_damage_all_exact, s_damage_exact, s_damage_random_times,
    s_damage_times, s_draw_line, s_exhaust_count, s_gain_energy_line, s_gain_power_line, s_hand_len, s_heal_line,
    s_hp_loss_events_by_player, s_hp_lost_by_player_this_turn, s_l, s_ln, s_lose_hp_line, s_player_block,
    s_previous_attacks_played, s_preview_damage, s_target_has, s_target_vulnerable, s_upgraded, s_val,
    fits_i64, preview_fits,
};
use crate::state::fits_i32;
use crate::content::cards::ironclad::ironclad_table;
use crate::content::cards::{CardPoolId, CardTag, CardType};
use crate::ids::{CardId, CardInstanceId, VULNERABLE};

verus! {

/// The lines of an Ironclad card of the given definition; none for another card.
pub open spec fn ironclad_lines(ctx: &CardTextCtx, def: CardId, card: CardInstanceId) -> Seq<(Seq<char>, Seq<char>)> {
    match def {
        CardId::Aggression => seq![s_l("At the start of your turn, put a random Attack from your discard pile into your hand and upgrade it.", "在你的回合开始时，将弃牌堆中的1张随机攻击牌置入手牌并升级。")],
        CardId::Anger => seq![s_damage(ctx, card, 6, 2), s_l("Add a copy of this card into your discard pile.", "将此牌的一张复制加入弃牌堆。")],
        CardId::Armaments => seq![s_block(ctx, card, 5, 0), if s_upgraded(ctx, card) { s_l("Upgrade ALL cards in your hand.", "升级你手牌中的所有牌。") } else { s_l("Upgrade a card in your hand.", "升级你手牌中的1张牌。") }],
        CardId::AshenStrike => seq![s_damage_exact(s_preview_damage(ctx, card, 6 + s_exhaust_count(ctx) * if s_upgraded(ctx, card) { 4int } else { 3int })), s_ln("Deals ", if s_upgraded(ctx, card) { 4 } else { 3 }, " additional damage for each card in your exhaust pile.", "你的消耗牌堆中每有1张牌，额外造成", "点伤害。")],
        CardId::Barricade => seq![s_l("Block is not removed at the start of your turn.", "你的回合开始时不再失去格挡。")],
        CardId::Bash => seq![s_damage(ctx, card, 8, 2), s_apply_power_line("Vulnerable", "易伤", s_val(ctx, card, 2, 1))],
        CardId::BattleTrance => seq![s_draw_line(s_val(ctx, card, 3, 1)), s_l("You cannot draw additional cards this turn.", "本回合你不能再抽牌。")],
        CardId::BloodWall => seq![s_lose_hp_line(2), s_block(ctx, card, 16, 4)],
        CardId::Bloodletting => seq![s_lose_hp_line(3), s_gain_energy_line(s_val(ctx, card, 2, 1))],
        CardId::Bludgeon => seq![s_damage(ctx, card, 32, 10)],
        CardId::BodySlam => seq![s_ln("Deal damage equal to your Block. (Deals ", s_preview_damage(ctx, card, s_player_block(ctx)), " damage.)", "造成等同于你格挡的伤害。（造成", "点伤害。）")],
        CardId::Brand => seq![s_lose_hp_line(1), s_l("Exhaust 1 random card in your hand.", "随机消耗你手牌中的1张牌。"), s_gain_power_line("Strength", "力量", s_val(ctx, card, 1, 1))],
        CardId::Break => seq![s_damage(ctx, card, 20, 10), s_apply_power_line("Vulnerable", "易伤", if s_upgraded(ctx, card) { 7 } else { 5 })],
        CardId::Breakthrough => seq![s_lose_hp_line(1), s_damage_all(ctx, card, 9, 4)],
        CardId::Bully => seq![s_damage_exact(s_preview_damage(ctx, card, 4 + (if s_upgraded(ctx, card) { 3int } else { 2int }) * s_target_vulnerable(ctx))), s_ln("Deals ", if s_upgraded(ctx, card) { 3 } else { 2 }, " additional damage for each Vulnerable on the enemy.", "敌人每有1层易伤，额外造成", "点伤害。")],
        CardId::BurningPact => seq![s_l("Exhaust 1 random card in your hand.", "随机消耗你手牌中的1张牌。"), s_draw_line(s_val(ctx, card, 2, 1))],
        CardId::Cascade => seq![if s_upgraded(ctx, card) { s_l("Play the top X+1 cards of your draw pile.", "打出你抽牌堆顶的X+1张牌。") } else { s_l("Play the top X cards of your draw pile.", "打出你抽牌堆顶的X张牌。") }],
        CardId::Cinder => seq![s_damage(ctx, card, 18, 6), s_l("Exhaust the top card of your draw pile.", "消耗你抽牌堆顶的1张牌。")],
        CardId::Colossus => seq![s_block(ctx, card, 5, 3), s_l("You receive 50% less damage from Vulnerable enemies this turn.", "本回合中，你从易伤敌人处受到的伤害减少50%。")],
        CardId::Conflagration => seq![s_damage_all_exact(s_preview_damage(ctx, card, 8 + s_previous_attacks_played(ctx) * if s_upgraded(ctx, card) { 3int } else { 2int })), s_ln("Deals ", if s_upgraded(ctx, card) { 3 } else { 2 }, " additional damage for each other Attack you've played this turn.", "本回合你每打出过1张其他攻击牌，额外造成", "点伤害。")],
        CardId::Corruption => seq![s_l("Skills cost 0 Energy. Whenever you play a Skill, Exhaust it.", "技能牌耗能变为0。每当你打出一张技能牌，将其消耗。")],
        CardId::CrimsonMantle => seq![s_ln("At the start of your turn, lose 1 HP and gain ", s_val(ctx, card, 8, 2), " Block.", "在你的回合开始时，失去1点生命并获得", "点格挡。")],
        CardId::Cruelty => seq![s_ln("Vulnerable enemies take an additional ", if s_upgraded(ctx, card) { 50 } else { 25 }, "% damage.", "易伤敌人受到的伤害额外增加", "%。")],
        CardId::DarkEmbrace => seq![s_l("Whenever a card is Exhausted, draw 1 card.", "每当有牌被消耗时，抽1张牌。")],
        CardId::DefendIronclad => seq![s_block(ctx, card, 5, 3)],
        CardId::DemonForm => seq![s_ln("At the start of your turn, gain ", s_val(ctx, card, 2, 1), " Strength.", "在你的回合开始时，获得", "点力量。")],
        CardId::DemonicShield => seq![s_lose_hp_line(1), s_ln("An ally gains Block equal to your current Block. (", s_player_block(ctx), " Block.)", "一名友方获得等同于你当前格挡的格挡。（", "点格挡。）")],
        CardId::Dismantle => seq![s_damage_times(ctx, card, 8, 2, if s_target_has(ctx, VULNERABLE) { 2 } else { 1 }), s_l("Hits twice if the enemy is Vulnerable.", "如果敌人拥有易伤，攻击2次。")],
        CardId::Dominate => seq![s_apply_power_line("Vulnerable", "易伤", if s_upgraded(ctx, card) { 2 } else { 1 }), s_gain_power_line("Strength", "力量", s_target_vulnerable(ctx) + if s_upgraded(ctx, card) { 2int } else { 1int })],
        CardId::DrumOfBattle => seq![s_draw_line(s_val(ctx, card, 2, 1)), s_l("Whenever you play an Attack, draw 1 card.", "每当你打出一张攻击牌，抽1张牌。")],
        CardId::EvilEye => seq![s_block_times(ctx, card, 8, 3, if s_cards_exhausted_this_turn(ctx) > 0 { 2 } else { 1 })],
        CardId::ExpectAFight => seq![s_ln("Gain Energy equal to the number of Attacks in your hand. (", s_count_hand_type(ctx, CardType::Attack), " Energy.)", "获得等同于你手牌中攻击牌数量的能量。（", "点能量。）"), s_l("You cannot gain additional Energy this turn.", "本回合你不能再获得能量。")],
        CardId::Feed => seq![s_damage(ctx, card, 10, 2), s_ln("If this kills an enemy, gain ", s_val(ctx, card, 3, 1), " Max HP.", "如果此牌杀死敌人，获得", "点最大生命。")],
        CardId::FeelNoPain => seq![s_ln("Whenever a card is Exhausted, gain ", s_val(ctx, card, 3, 1), " Block.", "每当有牌被消耗时，获得", "点格挡。")],
        CardId::FiendFire => seq![s_l("Exhaust your hand.", "消耗你的所有手牌。"), s_damage_times(ctx, card, 7, 3, s_hand_len(ctx) as u8 as int)],
        CardId::FightMe => seq![s_damage_times(ctx, card, 5, 1, 2), s_gain_power_line("Strength", "力量", if s_upgraded(ctx, card) { 3 } else { 2 }), s_l("The enemy gains 1 Strength.", "敌人获得1点力量。")],
        CardId::FlameBarrier => seq![s_block(ctx, card, 12, 4), s_ln("Whenever you are attacked this turn, deal ", s_val(ctx, card, 4, 2), " damage back.", "本回合每当你受到攻击时，反击造成", "点伤害。")],
        CardId::ForgottenRitual => seq![s_ln("If a card was Exhausted this turn, gain ", s_val(ctx, card, 3, 1), " Energy.", "如果本回合有牌被消耗，获得", "点能量。")],
        CardId::Havoc => seq![s_l("Play the top card of your draw pile and Exhaust it.", "打出你抽牌堆顶的1张牌，并将其消耗。")],
        CardId::Headbutt => seq![s_damage(ctx, card, 9, 3), s_l("Put the top card of your discard pile on top of your draw pile.", "将你弃牌堆顶的1张牌置于抽牌堆顶。")],
        CardId::Hellraiser => seq![s_l("At the start of your turn, add a random Attack into your hand.", "在你的回合开始时，将1张随机攻击牌加入手牌。")],
        CardId::Hemokinesis => seq![s_lose_hp_line(2), s_damage(ctx, card, 14, 5)],
        CardId::HowlFromBeyond => seq![s_damage_all(ctx, card, 16, 5)],
        CardId::Impervious => seq![s_block(ctx, card, 30, 10)],
        CardId::InfernalBlade => seq![s_l("Add a random Attack into your hand. It costs 0 this turn.", "将1张随机攻击牌加入手牌。它在本回合耗能为0。")],
        CardId::Inferno => seq![s_ln("At the end of your turn, deal ", s_val(ctx, card, 6, 3), " damage to ALL enemies.", "在你的回合结束时，对所有敌人造成", "点伤害。")],
        CardId::Inflame => seq![s_gain_power_line("Strength", "力量", s_val(ctx, card, 2, 1))],
        CardId::IronWave => seq![s_block(ctx, card, 5, 2), s_damage(ctx, card, 5, 2)],
        CardId::Juggernaut => seq![s_ln("Whenever you gain Block, deal ", s_val(ctx, card, 5, 2), " damage to a random enemy.", "每当你获得格挡时，对随机敌人造成", "点伤害。")],
        CardId::Juggling => seq![s_l("At the start of your turn, draw 1 card.", "在你的回合开始时，抽1张牌。")],
        CardId::Mangle => seq![s_damage(ctx, card, 15, 5), s_ln("Enemy loses ", s_val(ctx, card, 10, 5), " Strength this turn.", "敌人本回合失去", "点力量。")],
        CardId::MoltenFist => seq![s_damage(ctx, card, 10, 4), s_l("Double the enemy's Vulnerable.", "使敌人的易伤翻倍。")],
        CardId::NotYet => seq![s_heal_line(s_val(ctx, card, 10, 3))],
        CardId::Offering => seq![s_lose_hp_line(6), s_gain_energy_line(2), s_draw_line(s_val(ctx, card, 3, 2))],
        CardId::OneTwoPunch => seq![s_ln("This turn, your next ", s_val(ctx, card, 1, 1), if s_val(ctx, card, 1, 1) == 1 { " Attack is played an extra time." } else { " Attacks are played an extra time." }, "本回合，你接下来", "张攻击牌额外打出1次。")],
        CardId::PactsEnd => seq![s_l("Can only be played if you have 3 or more cards in your exhaust pile.", "只能在你的消耗牌堆中有3张或更多牌时打出。"), s_damage_all(ctx, card, 17, 6)],
        CardId::PerfectedStrike => seq![s_damage_exact(s_preview_damage(ctx, card, 6 + s_count_all_tag(ctx, CardTag::Strike) * if s_upgraded(ctx, card) { 3int } else { 2int })), s_ln("Deals ", if s_upgraded(ctx, card) { 3 } else { 2 }, " additional damage for ALL your cards containing \"Strike\".", "你的所有含“打击”的牌每有1张，额外造成", "点伤害。")],
        CardId::Pillage => seq![s_damage(ctx, card, 6, 3), s_l("Draw cards until you draw a non-Attack card.", "抽牌，直到抽到1张非攻击牌。")],
        CardId::PommelStrike => seq![s_damage(ctx, card, 9, 1), s_draw_line(s_val(ctx, card, 1, 1))],
        CardId::PrimalForce => seq![if s_upgraded(ctx, card) { s_l("Transform all Attacks in your hand into Giant Rock+.", "将你手牌中的所有攻击牌变为巨石+。") } else { s_l("Transform all Attacks in your hand into Giant Rock.", "将你手牌中的所有攻击牌变为巨石。") }],
        CardId::Pyre => seq![s_l("Gain 1 Energy at the start of each turn.", "每回合开始时获得1点能量。")],
        CardId::Rage => seq![s_ln("Whenever you play an Attack this turn, gain ", s_val(ctx, card, 3, 2), " Block.", "本回合每当你打出一张攻击牌，获得", "点格挡。")],
        CardId::Rampage => seq![s_damage_exact(s_preview_damage(ctx, card, 9 + s_card_damage_increase(ctx, card))), s_ln("Increase this card's damage by ", if s_upgraded(ctx, card) { 9 } else { 5 }, " this combat.", "本场战斗中，此牌伤害提高", "点。")],
        CardId::Rupture => seq![s_ln("Whenever you lose HP on your turn, gain ", s_val(ctx, card, 1, 1), " Strength.", "每当你在自己的回合失去生命，获得", "点力量。")],
        CardId::SecondWind => seq![s_l("Exhaust all non-Attack cards in your hand.", "消耗你手牌中的所有非攻击牌。"), s_ln("Gain ", s_block_amount(ctx, card, 5, 2), " Block for each card Exhausted.", "每消耗1张牌，获得", "点格挡。")],
        CardId::SetupStrike => seq![s_damage(ctx, card, 7, 2), s_gain_power_line("Strength", "力量", 2), s_l("At end of turn, lose 2 Strength.", "回合结束时失去2点力量。")],
        CardId::ShrugItOff => seq![s_block(ctx, card, 8, 3), s_draw_line(1)],
        CardId::Spite => seq![s_damage_times(ctx, card, 5, 0, if s_hp_lost_by_player_this_turn(ctx) > 0 { s_val(ctx, card, 2, 1) as u8 as int } else { 1 }), s_l("Hits more times if you lost HP this turn.", "如果你本回合失去过生命，攻击更多次。")],
        CardId::Stampede => seq![s_l("Whenever you play an Attack, gain 1 Block for each Attack played this turn.", "每当你打出一张攻击牌，根据本回合已打出的攻击牌数量获得格挡。")],
        CardId::Stoke => seq![s_ln("Exhaust your hand, then draw that many cards. (", s_hand_len(ctx) as i32 as int, " cards.)", "消耗你的手牌，然后抽等量的牌。（", "张。）")],
        CardId::Stomp => seq![s_damage_all(ctx, card, 12, 3)],
        CardId::StoneArmor => seq![s_gain_power_line("Plating", "护甲", s_val(ctx, card, 4, 2))],
        CardId::StrikeIronclad => seq![s_damage(ctx, card, 6, 3)],
        CardId::SwordBoomerang => seq![s_damage_random_times(ctx, card, 3, s_val(ctx, card, 3, 1) as u8 as int)],
        CardId::Tank => seq![s_l("The first time you gain Block each turn, double it.", "每回合你第一次获得格挡时，使其翻倍。")],
        CardId::Taunt => seq![s_block(ctx, card, 7, 1), s_apply_power_line("Vulnerable", "易伤", if s_upgraded(ctx, card) { 2 } else { 1 })],
        CardId::TearAsunder => seq![s_damage_times(ctx, card, 5, 2, 1 + s_hp_loss_events_by_player(ctx) as u8 as int), s_l("Hits an additional time for each time you have lost HP this combat.", "本场战斗中你每次失去生命，额外攻击1次。")],
        CardId::Thrash => seq![s_damage_times(ctx, card, 4, 2, 2), s_l("Exhaust a random Attack in your hand.", "随机消耗你手牌中的1张攻击牌。")],
        CardId::Thunderclap => seq![s_damage_all(ctx, card, 4, 3), s_l("Apply 1 Vulnerable to ALL enemies.", "给予所有敌人1层易伤。")],
        CardId::Tremble => seq![s_apply_power_line("Vulnerable", "易伤", s_val(ctx, card, 3, 1))],
        CardId::TrueGrit => seq![s_block(ctx, card, 7, 2), s_l("Exhaust 1 random card in your hand.", "随机消耗你手牌中的1张牌。")],
        CardId::TwinStrike => seq![s_damage_times(ctx, card, 5, 2, 2)],
        CardId::Unmovable => seq![s_l("Block gained from cards is doubled.", "从卡牌获得的格挡翻倍。")],
        CardId::Unrelenting => seq![s_damage(ctx, card, 12, 6), s_l("Your Attacks cost 0 this turn.", "本回合你的攻击牌耗能为0。")],
        CardId::Uppercut => seq![s_damage_exact(s_preview_damage(ctx, card, 13)), s_apply_power_line("Weak", "虚弱", if s_upgraded(ctx, card) { 2 } else { 1 }), s_apply_power_line("Vulnerable", "易伤", if s_upgraded(ctx, card) { 2 } else { 1 })],
        CardId::Vicious => seq![s_ln("Whenever you apply Vulnerable, gain ", s_val(ctx, card, 1, 1), " Strength.", "每当你给予易伤时，获得", "点力量。")],
        CardId::Whirlwind => seq![s_ln("Deal ", s_preview_damage(ctx, card, s_val(ctx, card, 5, 3)), " damage to ALL enemies X times.", "对所有敌人造成", "点伤害X次。")],
        CardId::GiantRock => seq![s_damage(ctx, card, 16, 4)],
        _ => Seq::empty(),
    }
}

/// The sums and products an Ironclad card's lines work out fit an `i32`,
/// and its hit count a `u8`.
pub open spec fn ironclad_text_fits(ctx: &CardTextCtx, def: CardId, card: CardInstanceId) -> bool {
    let up = s_upgraded(ctx, card);
    match def {
        CardId::AshenStrike => {
            let p = s_exhaust_count(ctx) * if up { 4int } else { 3int };
            fits_i32(p) && fits_i32(6 + p)
        },
        CardId::Bully => {
            let p = (if up { 3int } else { 2int }) * s_target_vulnerable(ctx);
            fits_i32(p) && fits_i32(4 + p)
        },
        CardId::Conflagration => {
            let p = s_previous_attacks_played(ctx) * if up { 3int } else { 2int };
            fits_i32(p) && fits_i32(8 + p)
        },
        CardId::Dominate => fits_i32(s_target_vulnerable(ctx) + if up { 2int } else { 1int }),
        CardId::PerfectedStrike => {
            let p = s_count_all_tag(ctx, CardTag::Strike) * if up { 3int } else { 2int };
            fits_i32(p) && fits_i32(6 + p)
        },
        CardId::Rampage => fits_i32(9 + s_card_damage_increase(ctx, card)),
        CardId::TearAsunder => 1 + (s_hp_loss_events_by_player(ctx) as u8) <= 255,
        _ => true,
    }
}

/// Whether an Ironclad card's text arithmetic stays in range.
pub fn text_fits(ctx: &CardTextCtx<'_>, def: CardId, card: CardInstanceId) -> (r: bool)
    ensures
        r == ironclad_text_fits(ctx, def, card),
{
    let up = upgraded(ctx, card);
    match def {
        CardId::AshenStrike => {
            let p = exhaust_count(ctx) as i64 * if up { 4 } else { 3 };
            fits_i64(p) && fits_i64(6 + p)
        },
        CardId::Bully => {
            let p = (if up { 3 } else { 2 }) * target_vulnerable(ctx) as i64;
            fits_i64(p) && fits_i64(4 + p)
        },
        CardId::Conflagration => {
            let p = previous_attacks_played(ctx) as i64 * if up { 3 } else { 2 };
            fits_i64(p) && fits_i64(8 + p)
        },
        CardId::Dominate => fits_i64(target_vulnerable(ctx) as i64 + if up { 2 } else { 1 }),
        CardId::PerfectedStrike => {
            let p = count_all_tag(ctx, CardTag::Strike) as i64 * if up { 3 } else { 2 };
            fits_i64(p) && fits_i64(6 + p)
        },
        CardId::Rampage => fits_i64(9 + card_damage_increase(ctx, card) as i64),
        CardId::TearAsunder => (hp_loss_events_by_player(ctx) as u8) < 255,
        _ => true,
    }
}

/// The cards `ironclad_lines` has text for.
pub open spec fn has_ironclad_text(def: CardId) -> bool {
    match def {
        CardId::Aggression | CardId::Anger | CardId::Armaments | CardId::AshenStrike | CardId::Barricade | CardId::Bash | CardId::BattleTrance | CardId::BloodWall | CardId::Bloodletting | CardId::Bludgeon | CardId::BodySlam | CardId::Brand | CardId::Break | CardId::Breakthrough | CardId::Bully | CardId::BurningPact | CardId::Cascade | CardId::Cinder | CardId::Colossus | CardId::Conflagration | CardId::Corruption | CardId::CrimsonMantle | CardId::Cruelty | CardId::DarkEmbrace | CardId::DefendIronclad | CardId::DemonForm | CardId::DemonicShield | CardId::Dismantle | CardId::Dominate | CardId::DrumOfBattle | CardId::EvilEye | CardId::ExpectAFight | CardId::Feed | CardId::FeelNoPain | CardId::FiendFire | CardId::FightMe | CardId::FlameBarrier | CardId::ForgottenRitual | CardId::Havoc | CardId::Headbutt | CardId::Hellraiser | CardId::Hemokinesis | CardId::HowlFromBeyond | CardId::Impervious | CardId::InfernalBlade | CardId::Inferno | CardId::Inflame | CardId::IronWave | CardId::Juggernaut | CardId::Juggling | CardId::Mangle | CardId::MoltenFist | CardId::NotYet | CardId::Offering | CardId::OneTwoPunch | CardId::PactsEnd | CardId::PerfectedStrike | CardId::Pillage | CardId::PommelStrike | CardId::PrimalForce | CardId::Pyre | CardId::Rage | CardId::Rampage | CardId::Rupture | CardId::SecondWind | CardId::SetupStrike | CardId::ShrugItOff | CardId::Spite | CardId::Stampede | CardId::Stoke | CardId::Stomp | CardId::StoneArmor | CardId::StrikeIronclad | CardId::SwordBoomerang | CardId::Tank | CardId::Taunt | CardId::TearAsunder | CardId::Thrash | CardId::Thunderclap | CardId::Tremble | CardId::TrueGrit | CardId::TwinStrike | CardId::Unmovable | CardId::Unrelenting | CardId::Uppercut | CardId::Vicious | CardId::Whirlwind | CardId::GiantRock => true,
        _ => false,
    }
}

/// A card `ironclad_lines` has text for shows at least one line.
#[verifier::rlimit(50)]
pub proof fn lemma_ironclad_text_nonempty(ctx: &CardTextCtx, def: CardId, card: CardInstanceId)
    requires
        has_ironclad_text(def),
    ensures
        ironclad_lines(ctx, def, card).len() > 0,
{
}

/// Every line of the Ironclad catalogue has text, and its pool is the Ironclad's.
#[verifier::rlimit(50)]
pub proof fn lemma_ironclad_lines_nonempty(ctx: &CardTextCtx, card: CardInstanceId, i: int)
    requires
        0 <= i < ironclad_table().len(),
    ensures
        ironclad_table()[i].pool == CardPoolId::Ironclad,
        ironclad_lines(ctx, ironclad_table()[i].id, card).len() > 0,
{
    assert(has_ironclad_text(ironclad_table()[i].id));
    lemma_ironclad_text_nonempty(ctx, ironclad_table()[i].id, card);
}

/// Works out the lines of an Ironclad card.
pub fn describe_lines(ctx: &CardTextCtx<'_>, def: CardId, card: CardInstanceId) -> (r: Vec<CardTextLine>)
    requires
        preview_fits(ctx),
        ironclad_text_fits(ctx, def, card),
    ensures
        r@.map_values(|line: CardTextLine| line@) == ironclad_lines(ctx, def, card),
{
    let lines = match def {
        CardId::Aggression => vec![l("At the start of your turn, put a random Attack from your discard pile into your hand and upgrade it.", "在你的回合开始时，将弃牌堆中的1张随机攻击牌置入手牌并升级。")],
        CardId::Anger => vec![damage(ctx, card, 6, 2), l("Add a copy of this card into your discard pile.", "将此牌的一张复制加入弃牌堆。")],
        CardId::Armaments => vec![block(ctx, card, 5, 0), if upgraded(ctx, card) { l("Upgrade ALL cards in your hand.", "升级你手牌中的所有牌。") } else { l("Upgrade a card in your hand.", "升级你手牌中的1张牌。") }],
        CardId::AshenStrike => vec![damage_exact(preview_damage(ctx, card, 6 + exhaust_count(ctx) * if upgraded(ctx, card) { 4 } else { 3 })), ln("Deals ", if upgraded(ctx, card) { 4 } else { 3 }, " additional damage for each card in your exhaust pile.", "你的消耗牌堆中每有1张牌，额外造成", "点伤害。")],
        CardId::Barricade => vec![l("Block is not removed at the start of your turn.", "你的回合开始时不再失去格挡。")],
        CardId::Bash => vec![damage(ctx, card, 8, 2), apply_power_line("Vulnerable", "易伤", val(ctx, card, 2, 1))],
        CardId::BattleTrance => vec![draw_line(val(ctx, card, 3, 1)), l("You cannot draw additional cards this turn.", "本回合你不能再抽牌。")],
        CardId::BloodWall => vec![lose_hp_line(2), block(ctx, card, 16, 4)],
        CardId::Bloodletting => vec![lose_hp_line(3), gain_energy_line(val(ctx, card, 2, 1))],
        CardId::Bludgeon => vec![damage(ctx, card, 32, 10)],
        CardId::BodySlam => vec![ln("Deal damage equal to your Block. (Deals ", preview_damage(ctx, card, player_block(ctx)), " damage.)", "造成等同于你格挡的伤害。（造成", "点伤害。）")],
        CardId::Brand => vec![lose_hp_line(1), l("Exhaust 1 random card in your hand.", "随机消耗你手牌中的1张牌。"), gain_power_line("Strength", "力量", val(ctx, card, 1, 1))],
        CardId::Break => vec![damage(ctx, card, 20, 10), apply_power_line("Vulnerable", "易伤", if upgraded(ctx, card) { 7 } else { 5 })],
        CardId::Breakthrough => vec![lose_hp_line(1), damage_all(ctx, card, 9, 4)],
        CardId::Bully => vec![damage_exact(preview_damage(ctx, card, 4 + (if upgraded(ctx, card) { 3 } else { 2 }) * target_vulnerable(ctx))), ln("Deals ", if upgraded(ctx, card) { 3 } else { 2 }, " additional damage for each Vulnerable on the enemy.", "敌人每有1层易伤，额外造成", "点伤害。")],
        CardId::BurningPact => vec![l("Exhaust 1 random card in your hand.", "随机消耗你手牌中的1张牌。"), draw_line(val(ctx, card, 2, 1))],
        CardId::Cascade => vec![if upgraded(ctx, card) { l("Play the top X+1 cards of your draw pile.", "打出你抽牌堆顶的X+1张牌。") } else { l("Play the top X cards of your draw pile.", "打出你抽牌堆顶的X张牌。") }],
        CardId::Cinder => vec![damage(ctx, card, 18, 6), l("Exhaust the top card of your draw pile.", "消耗你抽牌堆顶的1张牌。")],
        CardId::Colossus => vec![block(ctx, card, 5, 3), l("You receive 50% less damage from Vulnerable enemies this turn.", "本回合中，你从易伤敌人处受到的伤害减少50%。")],
        CardId::Conflagration => vec![damage_all_exact(preview_damage(ctx, card, 8 + previous_attacks_played(ctx) * if upgraded(ctx, card) { 3 } else { 2 })), ln("Deals ", if upgraded(ctx, card) { 3 } else { 2 }, " additional damage for each other Attack you've played this turn.", "本回合你每打出过1张其他攻击牌，额外造成", "点伤害。")],
        CardId::Corruption => vec![l("Skills cost 0 Energy. Whenever you play a Skill, Exhaust it.", "技能牌耗能变为0。每当你打出一张技能牌，将其消耗。")],
        CardId::CrimsonMantle => vec![ln("At the start of your turn, lose 1 HP and gain ", val(ctx, card, 8, 2), " Block.", "在你的回合开始时，失去1点生命并获得", "点格挡。")],
        CardId::Cruelty => vec![ln("Vulnerable enemies take an additional ", if upgraded(ctx, card) { 50 } else { 25 }, "% damage.", "易伤敌人受到的伤害额外增加", "%。")],
        CardId::DarkEmbrace => vec![l("Whenever a card is Exhausted, draw 1 card.", "每当有牌被消耗时，抽1张牌。")],
        CardId::DefendIronclad => vec![block(ctx, card, 5, 3)],
        CardId::DemonForm => vec![ln("At the start of your turn, gain ", val(ctx, card, 2, 1), " Strength.", "在你的回合开始时，获得", "点力量。")],
        CardId::DemonicShield => vec![lose_hp_line(1), ln("An ally gains Block equal to your current Block. (", player_block(ctx), " Block.)", "一名友方获得等同于你当前格挡的格挡。（", "点格挡。）")],
        CardId::Dismantle => vec![damage_times(ctx, card, 8, 2, if target_has(ctx, VULNERABLE) { 2 } else { 1 }), l("Hits twice if the enemy is Vulnerable.", "如果敌人拥有易伤，攻击2次。")],
        CardId::Dominate => vec![apply_power_line("Vulnerable", "易伤", if upgraded(ctx, card) { 2 } else { 1 }), gain_power_line("Strength", "力量", target_vulnerable(ctx) + if upgraded(ctx, card) { 2 } else { 1 })],
        CardId::DrumOfBattle => vec![draw_line(val(ctx, card, 2, 1)), l("Whenever you play an Attack, draw 1 card.", "每当你打出一张攻击牌，抽1张牌。")],
        CardId::EvilEye => vec![block_times(ctx, card, 8, 3, if cards_exhausted_this_turn(ctx) > 0 { 2 } else { 1 })],
        CardId::ExpectAFight => vec![ln("Gain Energy equal to the number of Attacks in your hand. (", count_hand_type(ctx, CardType::Attack), " Energy.)", "获得等同于你手牌中攻击牌数量的能量。（", "点能量。）"), l("You cannot gain additional Energy this turn.", "本回合你不能再获得能量。")],
        CardId::Feed => vec![damage(ctx, card, 10, 2), ln("If this kills an enemy, gain ", val(ctx, card, 3, 1), " Max HP.", "如果此牌杀死敌人，获得", "点最大生命。")],
        CardId::FeelNoPain => vec![ln("Whenever a card is Exhausted, gain ", val(ctx, card, 3, 1), " Block.", "每当有牌被消耗时，获得", "点格挡。")],
        CardId::FiendFire => vec![l("Exhaust your hand.", "消耗你的所有手牌。"), damage_times(ctx, card, 7, 3, hand_len(ctx) as u8)],
        CardId::FightMe => vec![damage_times(ctx, card, 5, 1, 2), gain_power_line("Strength", "力量", if upgraded(ctx, card) { 3 } else { 2 }), l("The enemy gains 1 Strength.", "敌人获得1点力量。")],
        CardId::FlameBarrier => vec![block(ctx, card, 12, 4), ln("Whenever you are attacked this turn, deal ", val(ctx, card, 4, 2), " damage back.", "本回合每当你受到攻击时，反击造成", "点伤害。")],
        CardId::ForgottenRitual => vec![ln("If a card was Exhausted this turn, gain ", val(ctx, card, 3, 1), " Energy.", "如果本回合有牌被消耗，获得", "点能量。")],
        CardId::Havoc => vec![l("Play the top card of your draw pile and Exhaust it.", "打出你抽牌堆顶的1张牌，并将其消耗。")],
        CardId::Headbutt => vec![damage(ctx, card, 9, 3), l("Put the top card of your discard pile on top of your draw pile.", "将你弃牌堆顶的1张牌置于抽牌堆顶。")],
        CardId::Hellraiser => vec![l("At the start of your turn, add a random Attack into your hand.", "在你的回合开始时，将1张随机攻击牌加入手牌。")],
        CardId::Hemokinesis => vec![lose_hp_line(2), damage(ctx, card, 14, 5)],
        CardId::HowlFromBeyond => vec![damage_all(ctx, card, 16, 5)],
        CardId::Impervious => vec![block(ctx, card, 30, 10)],
        CardId::InfernalBlade => vec![l("Add a random Attack into your hand. It costs 0 this turn.", "将1张随机攻击牌加入手牌。它在本回合耗能为0。")],
        CardId::Inferno => vec![ln("At the end of your turn, deal ", val(ctx, card, 6, 3), " damage to ALL enemies.", "在你的回合结束时，对所有敌人造成", "点伤害。")],
        CardId::Inflame => vec![gain_power_line("Strength", "力量", val(ctx, card, 2, 1))],
        CardId::IronWave => vec![block(ctx, card, 5, 2), damage(ctx, card, 5, 2)],
        CardId::Juggernaut => vec![ln("Whenever you gain Block, deal ", val(ctx, card, 5, 2), " damage to a random enemy.", "每当你获得格挡时，对随机敌人造成", "点伤害。")],
        CardId::Juggling => vec![l("At the start of your turn, draw 1 card.", "在你的回合开始时，抽1张牌。")],
        CardId::Mangle => vec![damage(ctx, card, 15, 5), ln("Enemy loses ", val(ctx, card, 10, 5), " Strength this turn.", "敌人本回合失去", "点力量。")],
        CardId::MoltenFist => vec![damage(ctx, card, 10, 4), l("Double the enemy's Vulnerable.", "使敌人的易伤翻倍。")],
        CardId::NotYet => vec![heal_line(val(ctx, card, 10, 3))],
        CardId::Offering => vec![lose_hp_line(6), gain_energy_line(2), draw_line(val(ctx, card, 3, 2))],
        CardId::OneTwoPunch => vec![ln("This turn, your next ", val(ctx, card, 1, 1), if val(ctx, card, 1, 1) == 1 { " Attack is played an extra time." } else { " Attacks are played an extra time." }, "本回合，你接下来", "张攻击牌额外打出1次。")],
        CardId::PactsEnd => vec![l("Can only be played if you have 3 or more cards in your exhaust pile.", "只能在你的消耗牌堆中有3张或更多牌时打出。"), damage_all(ctx, card, 17, 6)],
        CardId::PerfectedStrike => vec![damage_exact(preview_damage(ctx, card, 6 + count_all_tag(ctx, CardTag::Strike) * if upgraded(ctx, card) { 3 } else { 2 })), ln("Deals ", if upgraded(ctx, card) { 3 } else { 2 }, " additional damage for ALL your cards containing \"Strike\".", "你的所有含“打击”的牌每有1张，额外造成", "点伤害。")],
        CardId::Pillage => vec![damage(ctx, card, 6, 3), l("Draw cards until you draw a non-Attack card.", "抽牌，直到抽到1张非攻击牌。")],
        CardId::PommelStrike => vec![damage(ctx, card, 9, 1), draw_line(val(ctx, card, 1, 1))],
        CardId::PrimalForce => vec![if upgraded(ctx, card) { l("Transform all Attacks in your hand into Giant Rock+.", "将你手牌中的所有攻击牌变为巨石+。") } else { l("Transform all Attacks in your hand into Giant Rock.", "将你手牌中的所有攻击牌变为巨石。") }],
        CardId::Pyre => vec![l("Gain 1 Energy at the start of each turn.", "每回合开始时获得1点能量。")],
        CardId::Rage => vec![ln("Whenever you play an Attack this turn, gain ", val(ctx, card, 3, 2), " Block.", "本回合每当你打出一张攻击牌，获得", "点格挡。")],
        CardId::Rampage => vec![damage_exact(preview_damage(ctx, card, 9 + card_damage_increase(ctx, card))), ln("Increase this card's damage by ", if upgraded(ctx, card) { 9 } else { 5 }, " this combat.", "本场战斗中，此牌伤害提高", "点。")],
        CardId::Rupture => vec![ln("Whenever you lose HP on your turn, gain ", val(ctx, card, 1, 1), " Strength.", "每当你在自己的回合失去生命，获得", "点力量。")],
        CardId::SecondWind => vec![l("Exhaust all non-Attack cards in your hand.", "消耗你手牌中的所有非攻击牌。"), ln("Gain ", block_amount(ctx, card, 5, 2), " Block for each card Exhausted.", "每消耗1张牌，获得", "点格挡。")],
        CardId::SetupStrike => vec![damage(ctx, card, 7, 2), gain_power_line("Strength", "力量", 2), l("At end of turn, lose 2 Strength.", "回合结束时失去2点力量。")],
        CardId::ShrugItOff => vec![block(ctx, card, 8, 3), draw_line(1)],
        CardId::Spite => vec![damage_times(ctx, card, 5, 0, if hp_lost_by_player_this_turn(ctx) > 0 { val(ctx, card, 2, 1) as u8 } else { 1 }), l("Hits more times if you lost HP this turn.", "如果你本回合失去过生命，攻击更多次。")],
        CardId::Stampede => vec![l("Whenever you play an Attack, gain 1 Block for each Attack played this turn.", "每当你打出一张攻击牌，根据本回合已打出的攻击牌数量获得格挡。")],
        CardId::Stoke => vec![ln("Exhaust your hand, then draw that many cards. (", hand_len(ctx) as i32, " cards.)", "消耗你的手牌，然后抽等量的牌。（", "张。）")],
        CardId::Stomp => vec![damage_all(ctx, card, 12, 3)],
        CardId::StoneArmor => vec![gain_power_line("Plating", "护甲", val(ctx, card, 4, 2))],
        CardId::StrikeIronclad => vec![damage(ctx, card, 6, 3)],
        CardId::SwordBoomerang => vec![damage_random_times(ctx, card, 3, val(ctx, card, 3, 1) as u8)],
        CardId::Tank => vec![l("The first time you gain Block each turn, double it.", "每回合你第一次获得格挡时，使其翻倍。")],
        CardId::Taunt => vec![block(ctx, card, 7, 1), apply_power_line("Vulnerable", "易伤", if upgraded(ctx, card) { 2 } else { 1 })],
        CardId::TearAsunder => vec![damage_times(ctx, card, 5, 2, 1 + hp_loss_events_by_player(ctx) as u8), l("Hits an additional time for each time you have lost HP this combat.", "本场战斗中你每次失去生命，额外攻击1次。")],
        CardId::Thrash => vec![damage_times(ctx, card, 4, 2, 2), l("Exhaust a random Attack in your hand.", "随机消耗你手牌中的1张攻击牌。")],
        CardId::Thunderclap => vec![damage_all(ctx, card, 4, 3), l("Apply 1 Vulnerable to ALL enemies.", "给予所有敌人1层易伤。")],
        CardId::Tremble => vec![apply_power_line("Vulnerable", "易伤", val(ctx, card, 3, 1))],
        CardId::TrueGrit => vec![block(ctx, card, 7, 2), l("Exhaust 1 random card in your hand.", "随机消耗你手牌中的1张牌。")],
        CardId::TwinStrike => vec![damage_times(ctx, card, 5, 2, 2)],
        CardId::Unmovable => vec![l("Block gained from cards is doubled.", "从卡牌获得的格挡翻倍。")],
        CardId::Unrelenting => vec![damage(ctx, card, 12, 6), l("Your Attacks cost 0 this turn.", "本回合你的攻击牌耗能为0。")],
        CardId::Uppercut => vec![damage_exact(preview_damage(ctx, card, 13)), apply_power_line("Weak", "虚弱", if upgraded(ctx, card) { 2 } else { 1 }), apply_power_line("Vulnerable", "易伤", if upgraded(ctx, card) { 2 } else { 1 })],
        CardId::Vicious => vec![ln("Whenever you apply Vulnerable, gain ", val(ctx, card, 1, 1), " Strength.", "每当你给予易伤时，获得", "点力量。")],
        CardId::Whirlwind => vec![ln("Deal ", preview_damage(ctx, card, val(ctx, card, 5, 3)), " damage to ALL enemies X times.", "对所有敌人造成", "点伤害X次。")],
        CardId::GiantRock => vec![damage(ctx, card, 16, 4)],
        _ => Vec::new(),
    };
    proof {
        assert(lines@.map_values(|line: CardTextLine| line@) =~= ironclad_lines(ctx, def, card));
    }
    lines
}

} // verus!
