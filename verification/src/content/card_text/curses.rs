//! The text of the Curse cards.
use vstd::prelude::*;

use super::{CardTextLine, l, s_l};
use crate::content::cards::curses::curse_table;
use crate::content::cards::CardPoolId;
use crate::ids::CardId;

verus! {

/// Every line of the Curse catalogue has text, and its pool is the Curse pool.
pub proof fn lemma_curse_lines_nonempty(i: int)
    requires
        0 <= i < curse_table().len(),
    ensures
        curse_table()[i].pool == CardPoolId::Curse,
        curse_lines(curse_table()[i].id).len() > 0,
{
}

/// The lines of a Curse card of the given definition; none for another card.
/// A curse with no rules text shows one empty line.
pub open spec fn curse_lines(def: CardId) -> Seq<(Seq<char>, Seq<char>)> {
    match def {
        CardId::AscendersBane | CardId::Clumsy | CardId::CurseOfTheBell | CardId::Folly | CardId::Greed
        | CardId::Injury | CardId::PoorSleep | CardId::SporeMind | CardId::Writhe => seq![s_l("", "")],
        CardId::Debt => seq![s_l("At the end of your turn, if this is in your [gold]Hand[/gold], lose 10 [gold]Gold[/gold].", "在你的回合结束时，如果这张牌在你的[gold]手牌[/gold]中，则失去10[gold]金币[/gold]。")],
        CardId::BadLuck => seq![s_l("At the end of your turn, if this is in your Hand, lose 13 HP.", "在你的回合结束时，如果这张牌在你的手牌中，则失去13点生命。")],
        CardId::Decay => seq![s_l("At the end of your turn, if this is in your [gold]Hand[/gold], take 2 damage.", "在你的回合结束时，如果这张牌在你的[gold]手牌[/gold]中, 你受到2点伤害。")],
        CardId::Doubt => seq![s_l("At the end of your turn, if this is in your [gold]Hand[/gold], gain 1 [gold]Weak[/gold].", "在你的回合结束时，如果这张牌在你的[gold]手牌[/gold]中，获得1层[gold]虚弱[/gold]。")],
        CardId::Shame => seq![s_l("At the end of your turn, if this is in your [gold]Hand[/gold], gain 1 [gold]Frail[/gold].", "在你的回合结束时，如果这张牌在你的[gold]手牌[/gold]中，则获得1层[gold]脆弱[/gold]。")],
        CardId::Regret => seq![s_l("At the end of your turn, if this is in your [gold]Hand[/gold], lose 1 HP for each card in your [gold]Hand[/gold].", "在你的回合结束时，如果这张牌在你的[gold]手牌[/gold]中，失去相当于[gold]手牌[/gold]数量的生命。")],
        CardId::Guilty => seq![s_l("Removed from your [gold]Deck[/gold] after 5 combats.", "在5场战斗后从你的[gold]牌组[/gold]中移除。")],
        CardId::Normality => seq![s_l("You cannot play more than 3 cards this turn.", "你在本回合不能打出超过3张牌。")],
        CardId::Enthralled => seq![s_l("If this is in your [gold]Hand[/gold], it must be played before other cards.", "如果这张牌在你的[gold]手牌[/gold]中，你必须优先打出这张牌。")],
        _ => Seq::empty(),
    }
}

/// Works out the lines of a Curse card.
pub fn describe_lines(def: CardId) -> (r: Vec<CardTextLine>)
    ensures
        r@.map_values(|line: CardTextLine| line@) == curse_lines(def),
{
    let lines = match def {
        CardId::AscendersBane | CardId::Clumsy | CardId::CurseOfTheBell | CardId::Folly | CardId::Greed
        | CardId::Injury | CardId::PoorSleep | CardId::SporeMind | CardId::Writhe => vec![l("", "")],
        CardId::Debt => vec![l("At the end of your turn, if this is in your [gold]Hand[/gold], lose 10 [gold]Gold[/gold].", "在你的回合结束时，如果这张牌在你的[gold]手牌[/gold]中，则失去10[gold]金币[/gold]。")],
        CardId::BadLuck => vec![l("At the end of your turn, if this is in your Hand, lose 13 HP.", "在你的回合结束时，如果这张牌在你的手牌中，则失去13点生命。")],
        CardId::Decay => vec![l("At the end of your turn, if this is in your [gold]Hand[/gold], take 2 damage.", "在你的回合结束时，如果这张牌在你的[gold]手牌[/gold]中, 你受到2点伤害。")],
        CardId::Doubt => vec![l("At the end of your turn, if this is in your [gold]Hand[/gold], gain 1 [gold]Weak[/gold].", "在你的回合结束时，如果这张牌在你的[gold]手牌[/gold]中，获得1层[gold]虚弱[/gold]。")],
        CardId::Shame => vec![l("At the end of your turn, if this is in your [gold]Hand[/gold], gain 1 [gold]Frail[/gold].", "在你的回合结束时，如果这张牌在你的[gold]手牌[/gold]中，则获得1层[gold]脆弱[/gold]。")],
        CardId::Regret => vec![l("At the end of your turn, if this is in your [gold]Hand[/gold], lose 1 HP for each card in your [gold]Hand[/gold].", "在你的回合结束时，如果这张牌在你的[gold]手牌[/gold]中，失去相当于[gold]手牌[/gold]数量的生命。")],
        CardId::Guilty => vec![l("Removed from your [gold]Deck[/gold] after 5 combats.", "在5场战斗后从你的[gold]牌组[/gold]中移除。")],
        CardId::Normality => vec![l("You cannot play more than 3 cards this turn.", "你在本回合不能打出超过3张牌。")],
        CardId::Enthralled => vec![l("If this is in your [gold]Hand[/gold], it must be played before other cards.", "如果这张牌在你的[gold]手牌[/gold]中，你必须优先打出这张牌。")],
        _ => Vec::new(),
    };
    proof {
        assert(lines@.map_values(|line: CardTextLine| line@) =~= curse_lines(def));
    }
    lines
}

} // verus!
