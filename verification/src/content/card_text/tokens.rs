//! The text of the Token cards, Giant Rock among them.
use vstd::prelude::*;

use super::{CardTextLine, l, ln, s_l, s_ln};
use crate::content::cards::tokens::token_table;
use crate::content::cards::CardPoolId;
use crate::ids::CardId;

verus! {

/// Every line of the Token catalogue has text, upgraded or not, and its pool
/// is the Token pool.
pub proof fn lemma_token_lines_nonempty(i: int, upgraded: bool)
    requires
        0 <= i < token_table().len(),
    ensures
        token_table()[i].pool == CardPoolId::Token,
        token_lines(token_table()[i].id, upgraded).len() > 0,
{
}

/// The lines of a Token card of the given definition, upgraded or not; none for another card.
pub open spec fn token_lines(def: CardId, upgraded: bool) -> Seq<(Seq<char>, Seq<char>)> {
    match def {
        CardId::GiantRock => seq![s_ln("Deal ", if upgraded { 20 } else { 16 }, " damage.", "造成", "点伤害。")],
        CardId::Fuel => seq![
            s_l("Gain [energy:1].", "获得[energy:1]。"),
            if upgraded { s_l("Draw 2 cards.", "抽2张牌。") } else { s_l("Draw 1 card.", "抽1张牌。") },
        ],
        CardId::Luminesce => seq![s_ln("Gain [energy:", if upgraded { 3 } else { 2 }, "].", "获得[energy:", "]。")],
        CardId::MinionDiveBomb => seq![s_ln("Deal ", if upgraded { 16 } else { 13 }, " damage.", "造成", "点伤害。")],
        CardId::MinionSacrifice => seq![s_ln("Gain ", if upgraded { 12 } else { 9 }, " [gold]Block[/gold].", "获得", "点[gold]格挡[/gold]。")],
        CardId::MinionStrike => seq![
            s_ln("Deal ", if upgraded { 9 } else { 6 }, " damage.", "造成", "点伤害。"),
            s_l("Draw 1 card.", "抽1张牌。"),
        ],
        CardId::Shiv => seq![s_ln("Deal ", if upgraded { 6 } else { 4 }, " damage.", "造成", "点伤害。")],
        CardId::Soul => seq![s_ln("Draw ", if upgraded { 3 } else { 2 }, " cards.", "抽", "张牌。")],
        CardId::SovereignBlade => seq![s_l("Deal 10 damage.", "造成10点伤害。")],
        CardId::SweepingGaze => seq![s_ln("[gold]Osty[/gold] deals ", if upgraded { 15 } else { 10 }, " damage to a random enemy.", "[gold]奥斯提[/gold]对随机一名敌人造成", "点伤害。")],
        CardId::Disintegration => seq![s_l("At the end of your turn, take 6 damage.", "在你的回合结束时，受到6点伤害。")],
        CardId::MindRot => seq![s_l("Draw 1 fewer card each turn.", "每回合少抽1张牌。")],
        CardId::Sloth => seq![s_l("You cannot play more than 3 cards each turn.", "你在每个回合不能打出超过3张牌。")],
        CardId::WasteAway => seq![s_l("Gain 1 less [energy:1] per turn.", "每回合失去1点[energy:1]。")],
        _ => Seq::empty(),
    }
}

/// Works out the lines of a Token card.
pub fn describe_lines(def: CardId, upgraded: bool) -> (r: Vec<CardTextLine>)
    ensures
        r@.map_values(|line: CardTextLine| line@) == token_lines(def, upgraded),
{
    let lines = match def {
        CardId::GiantRock => vec![ln("Deal ", if upgraded { 20 } else { 16 }, " damage.", "造成", "点伤害。")],
        CardId::Fuel => vec![
            l("Gain [energy:1].", "获得[energy:1]。"),
            if upgraded { l("Draw 2 cards.", "抽2张牌。") } else { l("Draw 1 card.", "抽1张牌。") },
        ],
        CardId::Luminesce => vec![ln("Gain [energy:", if upgraded { 3 } else { 2 }, "].", "获得[energy:", "]。")],
        CardId::MinionDiveBomb => vec![ln("Deal ", if upgraded { 16 } else { 13 }, " damage.", "造成", "点伤害。")],
        CardId::MinionSacrifice => vec![ln("Gain ", if upgraded { 12 } else { 9 }, " [gold]Block[/gold].", "获得", "点[gold]格挡[/gold]。")],
        CardId::MinionStrike => vec![
            ln("Deal ", if upgraded { 9 } else { 6 }, " damage.", "造成", "点伤害。"),
            l("Draw 1 card.", "抽1张牌。"),
        ],
        CardId::Shiv => vec![ln("Deal ", if upgraded { 6 } else { 4 }, " damage.", "造成", "点伤害。")],
        CardId::Soul => vec![ln("Draw ", if upgraded { 3 } else { 2 }, " cards.", "抽", "张牌。")],
        CardId::SovereignBlade => vec![l("Deal 10 damage.", "造成10点伤害。")],
        CardId::SweepingGaze => vec![ln("[gold]Osty[/gold] deals ", if upgraded { 15 } else { 10 }, " damage to a random enemy.", "[gold]奥斯提[/gold]对随机一名敌人造成", "点伤害。")],
        CardId::Disintegration => vec![l("At the end of your turn, take 6 damage.", "在你的回合结束时，受到6点伤害。")],
        CardId::MindRot => vec![l("Draw 1 fewer card each turn.", "每回合少抽1张牌。")],
        CardId::Sloth => vec![l("You cannot play more than 3 cards each turn.", "你在每个回合不能打出超过3张牌。")],
        CardId::WasteAway => vec![l("Gain 1 less [energy:1] per turn.", "每回合失去1点[energy:1]。")],
        _ => Vec::new(),
    };
    proof {
        assert(lines@.map_values(|line: CardTextLine| line@) =~= token_lines(def, upgraded));
    }
    lines
}

} // verus!
