//! Identifiers of the catalogue's definitions and of the objects of one combat.
use vstd::prelude::*;

verus! {

/// A card definition. Every card of the shipped pools has a variant of its
/// own; `Custom` numbers a definition supplied by a caller.
#[derive(Clone, Copy, Debug, PartialEq, Eq, Structural)]
pub enum CardId {
    Aggression,
    Anger,
    Armaments,
    AshenStrike,
    Barricade,
    Bash,
    BattleTrance,
    BloodWall,
    Bloodletting,
    Bludgeon,
    BodySlam,
    Brand,
    Break,
    Breakthrough,
    Bully,
    BurningPact,
    Cascade,
    Cinder,
    Colossus,
    Conflagration,
    Corruption,
    CrimsonMantle,
    Cruelty,
    DarkEmbrace,
    DefendIronclad,
    DemonForm,
    DemonicShield,
    Dismantle,
    Dominate,
    DrumOfBattle,
    EvilEye,
    ExpectAFight,
    Feed,
    FeelNoPain,
    FiendFire,
    FightMe,
    FlameBarrier,
    ForgottenRitual,
    Havoc,
    Headbutt,
    Hellraiser,
    Hemokinesis,
    HowlFromBeyond,
    Impervious,
    InfernalBlade,
    Inferno,
    Inflame,
    IronWave,
    Juggernaut,
    Juggling,
    Mangle,
    MoltenFist,
    NotYet,
    Offering,
    OneTwoPunch,
    PactsEnd,
    PerfectedStrike,
    Pillage,
    PommelStrike,
    PrimalForce,
    Pyre,
    Rage,
    Rampage,
    Rupture,
    SecondWind,
    SetupStrike,
    ShrugItOff,
    Spite,
    Stampede,
    Stoke,
    Stomp,
    StoneArmor,
    StrikeIronclad,
    SwordBoomerang,
    Tank,
    Taunt,
    TearAsunder,
    Thrash,
    Thunderclap,
    Tremble,
    TrueGrit,
    TwinStrike,
    Unmovable,
    Unrelenting,
    Uppercut,
    Vicious,
    Whirlwind,
    GiantRock,
    AscendersBane,
    BadLuck,
    Clumsy,
    CurseOfTheBell,
    Debt,
    Decay,
    Doubt,
    Enthralled,
    Folly,
    Greed,
    Guilty,
    Injury,
    Normality,
    PoorSleep,
    Regret,
    Shame,
    SporeMind,
    Writhe,
    Disintegration,
    Fuel,
    Luminesce,
    MindRot,
    MinionDiveBomb,
    MinionSacrifice,
    MinionStrike,
    Shiv,
    Sloth,
    Soul,
    SovereignBlade,
    SweepingGaze,
    WasteAway,
    Custom(u32),
}

pub const AGGRESSION: CardId = CardId::Aggression;
pub const ANGER: CardId = CardId::Anger;
pub const ARMAMENTS: CardId = CardId::Armaments;
pub const ASHEN_STRIKE: CardId = CardId::AshenStrike;
pub const BARRICADE: CardId = CardId::Barricade;
pub const BASH: CardId = CardId::Bash;
pub const BATTLE_TRANCE: CardId = CardId::BattleTrance;
pub const BLOOD_WALL: CardId = CardId::BloodWall;
pub const BLOODLETTING: CardId = CardId::Bloodletting;
pub const BLUDGEON: CardId = CardId::Bludgeon;
pub const BODY_SLAM: CardId = CardId::BodySlam;
pub const BRAND: CardId = CardId::Brand;
pub const BREAK: CardId = CardId::Break;
pub const BREAKTHROUGH: CardId = CardId::Breakthrough;
pub const BULLY: CardId = CardId::Bully;
pub const BURNING_PACT: CardId = CardId::BurningPact;
pub const CASCADE: CardId = CardId::Cascade;
pub const CINDER: CardId = CardId::Cinder;
pub const COLOSSUS: CardId = CardId::Colossus;
pub const CONFLAGRATION: CardId = CardId::Conflagration;
pub const CORRUPTION: CardId = CardId::Corruption;
pub const CRIMSON_MANTLE: CardId = CardId::CrimsonMantle;
pub const CRUELTY: CardId = CardId::Cruelty;
pub const DARK_EMBRACE: CardId = CardId::DarkEmbrace;
pub const DEFEND_IRONCLAD: CardId = CardId::DefendIronclad;
pub const DEMON_FORM: CardId = CardId::DemonForm;
pub const DEMONIC_SHIELD: CardId = CardId::DemonicShield;
pub const DISMANTLE: CardId = CardId::Dismantle;
pub const DOMINATE: CardId = CardId::Dominate;
pub const DRUM_OF_BATTLE: CardId = CardId::DrumOfBattle;
pub const EVIL_EYE: CardId = CardId::EvilEye;
pub const EXPECT_A_FIGHT: CardId = CardId::ExpectAFight;
pub const FEED: CardId = CardId::Feed;
pub const FEEL_NO_PAIN: CardId = CardId::FeelNoPain;
pub const FIEND_FIRE: CardId = CardId::FiendFire;
pub const FIGHT_ME: CardId = CardId::FightMe;
pub const FLAME_BARRIER: CardId = CardId::FlameBarrier;
pub const FORGOTTEN_RITUAL: CardId = CardId::ForgottenRitual;
pub const HAVOC: CardId = CardId::Havoc;
pub const HEADBUTT: CardId = CardId::Headbutt;
pub const HELLRAISER: CardId = CardId::Hellraiser;
pub const HEMOKINESIS: CardId = CardId::Hemokinesis;
pub const HOWL_FROM_BEYOND: CardId = CardId::HowlFromBeyond;
pub const IMPERVIOUS: CardId = CardId::Impervious;
pub const INFERNAL_BLADE: CardId = CardId::InfernalBlade;
pub const INFERNO: CardId = CardId::Inferno;
pub const INFLAME: CardId = CardId::Inflame;
pub const IRON_WAVE: CardId = CardId::IronWave;
pub const JUGGERNAUT: CardId = CardId::Juggernaut;
pub const JUGGLING: CardId = CardId::Juggling;
pub const MANGLE: CardId = CardId::Mangle;
pub const MOLTEN_FIST: CardId = CardId::MoltenFist;
pub const NOT_YET: CardId = CardId::NotYet;
pub const OFFERING: CardId = CardId::Offering;
pub const ONE_TWO_PUNCH: CardId = CardId::OneTwoPunch;
pub const PACTS_END: CardId = CardId::PactsEnd;
pub const PERFECTED_STRIKE: CardId = CardId::PerfectedStrike;
pub const PILLAGE: CardId = CardId::Pillage;
pub const POMMEL_STRIKE: CardId = CardId::PommelStrike;
pub const PRIMAL_FORCE: CardId = CardId::PrimalForce;
pub const PYRE: CardId = CardId::Pyre;
pub const RAGE: CardId = CardId::Rage;
pub const RAMPAGE: CardId = CardId::Rampage;
pub const RUPTURE: CardId = CardId::Rupture;
pub const SECOND_WIND: CardId = CardId::SecondWind;
pub const SETUP_STRIKE: CardId = CardId::SetupStrike;
pub const SHRUG_IT_OFF: CardId = CardId::ShrugItOff;
pub const SPITE: CardId = CardId::Spite;
pub const STAMPEDE: CardId = CardId::Stampede;
pub const STOKE: CardId = CardId::Stoke;
pub const STOMP: CardId = CardId::Stomp;
pub const STONE_ARMOR: CardId = CardId::StoneArmor;
pub const STRIKE_IRONCLAD: CardId = CardId::StrikeIronclad;
pub const SWORD_BOOMERANG: CardId = CardId::SwordBoomerang;
pub const TANK: CardId = CardId::Tank;
pub const TAUNT: CardId = CardId::Taunt;
pub const TEAR_ASUNDER: CardId = CardId::TearAsunder;
pub const THRASH: CardId = CardId::Thrash;
pub const THUNDERCLAP: CardId = CardId::Thunderclap;
pub const TREMBLE: CardId = CardId::Tremble;
pub const TRUE_GRIT: CardId = CardId::TrueGrit;
pub const TWIN_STRIKE: CardId = CardId::TwinStrike;
pub const UNMOVABLE: CardId = CardId::Unmovable;
pub const UNRELENTING: CardId = CardId::Unrelenting;
pub const UPPERCUT: CardId = CardId::Uppercut;
pub const VICIOUS: CardId = CardId::Vicious;
pub const WHIRLWIND: CardId = CardId::Whirlwind;
pub const GIANT_ROCK: CardId = CardId::GiantRock;
pub const ASCENDERS_BANE: CardId = CardId::AscendersBane;
pub const BAD_LUCK: CardId = CardId::BadLuck;
pub const CLUMSY: CardId = CardId::Clumsy;
pub const CURSE_OF_THE_BELL: CardId = CardId::CurseOfTheBell;
pub const DEBT: CardId = CardId::Debt;
pub const DECAY: CardId = CardId::Decay;
pub const DOUBT: CardId = CardId::Doubt;
pub const ENTHRALLED: CardId = CardId::Enthralled;
pub const FOLLY: CardId = CardId::Folly;
pub const GREED: CardId = CardId::Greed;
pub const GUILTY: CardId = CardId::Guilty;
pub const INJURY: CardId = CardId::Injury;
pub const NORMALITY: CardId = CardId::Normality;
pub const POOR_SLEEP: CardId = CardId::PoorSleep;
pub const REGRET: CardId = CardId::Regret;
pub const SHAME: CardId = CardId::Shame;
pub const SPORE_MIND: CardId = CardId::SporeMind;
pub const WRITHE: CardId = CardId::Writhe;
pub const DISINTEGRATION: CardId = CardId::Disintegration;
pub const FUEL: CardId = CardId::Fuel;
pub const LUMINESCE: CardId = CardId::Luminesce;
pub const MIND_ROT: CardId = CardId::MindRot;
pub const MINION_DIVE_BOMB: CardId = CardId::MinionDiveBomb;
pub const MINION_SACRIFICE: CardId = CardId::MinionSacrifice;
pub const MINION_STRIKE: CardId = CardId::MinionStrike;
pub const SHIV: CardId = CardId::Shiv;
pub const SLOTH: CardId = CardId::Sloth;
pub const SOUL: CardId = CardId::Soul;
pub const SOVEREIGN_BLADE: CardId = CardId::SovereignBlade;
pub const SWEEPING_GAZE: CardId = CardId::SweepingGaze;
pub const WASTE_AWAY: CardId = CardId::WasteAway;

impl CardId {
    /// The identifier's text.
    pub open spec fn spec_as_str(self) -> &'static str {
        match self {
            CardId::Aggression => "AGGRESSION",
            CardId::Anger => "ANGER",
            CardId::Armaments => "ARMAMENTS",
            CardId::AshenStrike => "ASHEN_STRIKE",
            CardId::Barricade => "BARRICADE",
            CardId::Bash => "BASH",
            CardId::BattleTrance => "BATTLE_TRANCE",
            CardId::BloodWall => "BLOOD_WALL",
            CardId::Bloodletting => "BLOODLETTING",
            CardId::Bludgeon => "BLUDGEON",
            CardId::BodySlam => "BODY_SLAM",
            CardId::Brand => "BRAND",
            CardId::Break => "BREAK",
            CardId::Breakthrough => "BREAKTHROUGH",
            CardId::Bully => "BULLY",
            CardId::BurningPact => "BURNING_PACT",
            CardId::Cascade => "CASCADE",
            CardId::Cinder => "CINDER",
            CardId::Colossus => "COLOSSUS",
            CardId::Conflagration => "CONFLAGRATION",
            CardId::Corruption => "CORRUPTION",
            CardId::CrimsonMantle => "CRIMSON_MANTLE",
            CardId::Cruelty => "CRUELTY",
            CardId::DarkEmbrace => "DARK_EMBRACE",
            CardId::DefendIronclad => "DEFEND_IRONCLAD",
            CardId::DemonForm => "DEMON_FORM",
            CardId::DemonicShield => "DEMONIC_SHIELD",
            CardId::Dismantle => "DISMANTLE",
            CardId::Dominate => "DOMINATE",
            CardId::DrumOfBattle => "DRUM_OF_BATTLE",
            CardId::EvilEye => "EVIL_EYE",
            CardId::ExpectAFight => "EXPECT_A_FIGHT",
            CardId::Feed => "FEED",
            CardId::FeelNoPain => "FEEL_NO_PAIN",
            CardId::FiendFire => "FIEND_FIRE",
            CardId::FightMe => "FIGHT_ME",
            CardId::FlameBarrier => "FLAME_BARRIER",
            CardId::ForgottenRitual => "FORGOTTEN_RITUAL",
            CardId::Havoc => "HAVOC",
            CardId::Headbutt => "HEADBUTT",
            CardId::Hellraiser => "HELLRAISER",
            CardId::Hemokinesis => "HEMOKINESIS",
            CardId::HowlFromBeyond => "HOWL_FROM_BEYOND",
            CardId::Impervious => "IMPERVIOUS",
            CardId::InfernalBlade => "INFERNAL_BLADE",
            CardId::Inferno => "INFERNO",
            CardId::Inflame => "INFLAME",
            CardId::IronWave => "IRON_WAVE",
            CardId::Juggernaut => "JUGGERNAUT",
            CardId::Juggling => "JUGGLING",
            CardId::Mangle => "MANGLE",
            CardId::MoltenFist => "MOLTEN_FIST",
            CardId::NotYet => "NOT_YET",
            CardId::Offering => "OFFERING",
            CardId::OneTwoPunch => "ONE_TWO_PUNCH",
            CardId::PactsEnd => "PACTS_END",
            CardId::PerfectedStrike => "PERFECTED_STRIKE",
            CardId::Pillage => "PILLAGE",
            CardId::PommelStrike => "POMMEL_STRIKE",
            CardId::PrimalForce => "PRIMAL_FORCE",
            CardId::Pyre => "PYRE",
            CardId::Rage => "RAGE",
            CardId::Rampage => "RAMPAGE",
            CardId::Rupture => "RUPTURE",
            CardId::SecondWind => "SECOND_WIND",
            CardId::SetupStrike => "SETUP_STRIKE",
            CardId::ShrugItOff => "SHRUG_IT_OFF",
            CardId::Spite => "SPITE",
            CardId::Stampede => "STAMPEDE",
            CardId::Stoke => "STOKE",
            CardId::Stomp => "STOMP",
            CardId::StoneArmor => "STONE_ARMOR",
            CardId::StrikeIronclad => "STRIKE_IRONCLAD",
            CardId::SwordBoomerang => "SWORD_BOOMERANG",
            CardId::Tank => "TANK",
            CardId::Taunt => "TAUNT",
            CardId::TearAsunder => "TEAR_ASUNDER",
            CardId::Thrash => "THRASH",
            CardId::Thunderclap => "THUNDERCLAP",
            CardId::Tremble => "TREMBLE",
            CardId::TrueGrit => "TRUE_GRIT",
            CardId::TwinStrike => "TWIN_STRIKE",
            CardId::Unmovable => "UNMOVABLE",
            CardId::Unrelenting => "UNRELENTING",
            CardId::Uppercut => "UPPERCUT",
            CardId::Vicious => "VICIOUS",
            CardId::Whirlwind => "WHIRLWIND",
            CardId::GiantRock => "GIANT_ROCK",
            CardId::AscendersBane => "ASCENDERS_BANE",
            CardId::BadLuck => "BAD_LUCK",
            CardId::Clumsy => "CLUMSY",
            CardId::CurseOfTheBell => "CURSE_OF_THE_BELL",
            CardId::Debt => "DEBT",
            CardId::Decay => "DECAY",
            CardId::Doubt => "DOUBT",
            CardId::Enthralled => "ENTHRALLED",
            CardId::Folly => "FOLLY",
            CardId::Greed => "GREED",
            CardId::Guilty => "GUILTY",
            CardId::Injury => "INJURY",
            CardId::Normality => "NORMALITY",
            CardId::PoorSleep => "POOR_SLEEP",
            CardId::Regret => "REGRET",
            CardId::Shame => "SHAME",
            CardId::SporeMind => "SPORE_MIND",
            CardId::Writhe => "WRITHE",
            CardId::Disintegration => "DISINTEGRATION",
            CardId::Fuel => "FUEL",
            CardId::Luminesce => "LUMINESCE",
            CardId::MindRot => "MIND_ROT",
            CardId::MinionDiveBomb => "MINION_DIVE_BOMB",
            CardId::MinionSacrifice => "MINION_SACRIFICE",
            CardId::MinionStrike => "MINION_STRIKE",
            CardId::Shiv => "SHIV",
            CardId::Sloth => "SLOTH",
            CardId::Soul => "SOUL",
            CardId::SovereignBlade => "SOVEREIGN_BLADE",
            CardId::SweepingGaze => "SWEEPING_GAZE",
            CardId::WasteAway => "WASTE_AWAY",
            CardId::Custom(_) => "CUSTOM_CARD",
        }
    }

    pub fn as_str(&self) -> (r: &'static str)
        ensures
            r == self.spec_as_str(),
    {
        match self {
            CardId::Aggression => "AGGRESSION",
            CardId::Anger => "ANGER",
            CardId::Armaments => "ARMAMENTS",
            CardId::AshenStrike => "ASHEN_STRIKE",
            CardId::Barricade => "BARRICADE",
            CardId::Bash => "BASH",
            CardId::BattleTrance => "BATTLE_TRANCE",
            CardId::BloodWall => "BLOOD_WALL",
            CardId::Bloodletting => "BLOODLETTING",
            CardId::Bludgeon => "BLUDGEON",
            CardId::BodySlam => "BODY_SLAM",
            CardId::Brand => "BRAND",
            CardId::Break => "BREAK",
            CardId::Breakthrough => "BREAKTHROUGH",
            CardId::Bully => "BULLY",
            CardId::BurningPact => "BURNING_PACT",
            CardId::Cascade => "CASCADE",
            CardId::Cinder => "CINDER",
            CardId::Colossus => "COLOSSUS",
            CardId::Conflagration => "CONFLAGRATION",
            CardId::Corruption => "CORRUPTION",
            CardId::CrimsonMantle => "CRIMSON_MANTLE",
            CardId::Cruelty => "CRUELTY",
            CardId::DarkEmbrace => "DARK_EMBRACE",
            CardId::DefendIronclad => "DEFEND_IRONCLAD",
            CardId::DemonForm => "DEMON_FORM",
            CardId::DemonicShield => "DEMONIC_SHIELD",
            CardId::Dismantle => "DISMANTLE",
            CardId::Dominate => "DOMINATE",
            CardId::DrumOfBattle => "DRUM_OF_BATTLE",
            CardId::EvilEye => "EVIL_EYE",
            CardId::ExpectAFight => "EXPECT_A_FIGHT",
            CardId::Feed => "FEED",
            CardId::FeelNoPain => "FEEL_NO_PAIN",
            CardId::FiendFire => "FIEND_FIRE",
            CardId::FightMe => "FIGHT_ME",
            CardId::FlameBarrier => "FLAME_BARRIER",
            CardId::ForgottenRitual => "FORGOTTEN_RITUAL",
            CardId::Havoc => "HAVOC",
            CardId::Headbutt => "HEADBUTT",
            CardId::Hellraiser => "HELLRAISER",
            CardId::Hemokinesis => "HEMOKINESIS",
            CardId::HowlFromBeyond => "HOWL_FROM_BEYOND",
            CardId::Impervious => "IMPERVIOUS",
            CardId::InfernalBlade => "INFERNAL_BLADE",
            CardId::Inferno => "INFERNO",
            CardId::Inflame => "INFLAME",
            CardId::IronWave => "IRON_WAVE",
            CardId::Juggernaut => "JUGGERNAUT",
            CardId::Juggling => "JUGGLING",
            CardId::Mangle => "MANGLE",
            CardId::MoltenFist => "MOLTEN_FIST",
            CardId::NotYet => "NOT_YET",
            CardId::Offering => "OFFERING",
            CardId::OneTwoPunch => "ONE_TWO_PUNCH",
            CardId::PactsEnd => "PACTS_END",
            CardId::PerfectedStrike => "PERFECTED_STRIKE",
            CardId::Pillage => "PILLAGE",
            CardId::PommelStrike => "POMMEL_STRIKE",
            CardId::PrimalForce => "PRIMAL_FORCE",
            CardId::Pyre => "PYRE",
            CardId::Rage => "RAGE",
            CardId::Rampage => "RAMPAGE",
            CardId::Rupture => "RUPTURE",
            CardId::SecondWind => "SECOND_WIND",
            CardId::SetupStrike => "SETUP_STRIKE",
            CardId::ShrugItOff => "SHRUG_IT_OFF",
            CardId::Spite => "SPITE",
            CardId::Stampede => "STAMPEDE",
            CardId::Stoke => "STOKE",
            CardId::Stomp => "STOMP",
            CardId::StoneArmor => "STONE_ARMOR",
            CardId::StrikeIronclad => "STRIKE_IRONCLAD",
            CardId::SwordBoomerang => "SWORD_BOOMERANG",
            CardId::Tank => "TANK",
            CardId::Taunt => "TAUNT",
            CardId::TearAsunder => "TEAR_ASUNDER",
            CardId::Thrash => "THRASH",
            CardId::Thunderclap => "THUNDERCLAP",
            CardId::Tremble => "TREMBLE",
            CardId::TrueGrit => "TRUE_GRIT",
            CardId::TwinStrike => "TWIN_STRIKE",
            CardId::Unmovable => "UNMOVABLE",
            CardId::Unrelenting => "UNRELENTING",
            CardId::Uppercut => "UPPERCUT",
            CardId::Vicious => "VICIOUS",
            CardId::Whirlwind => "WHIRLWIND",
            CardId::GiantRock => "GIANT_ROCK",
            CardId::AscendersBane => "ASCENDERS_BANE",
            CardId::BadLuck => "BAD_LUCK",
            CardId::Clumsy => "CLUMSY",
            CardId::CurseOfTheBell => "CURSE_OF_THE_BELL",
            CardId::Debt => "DEBT",
            CardId::Decay => "DECAY",
            CardId::Doubt => "DOUBT",
            CardId::Enthralled => "ENTHRALLED",
            CardId::Folly => "FOLLY",
            CardId::Greed => "GREED",
            CardId::Guilty => "GUILTY",
            CardId::Injury => "INJURY",
            CardId::Normality => "NORMALITY",
            CardId::PoorSleep => "POOR_SLEEP",
            CardId::Regret => "REGRET",
            CardId::Shame => "SHAME",
            CardId::SporeMind => "SPORE_MIND",
            CardId::Writhe => "WRITHE",
            CardId::Disintegration => "DISINTEGRATION",
            CardId::Fuel => "FUEL",
            CardId::Luminesce => "LUMINESCE",
            CardId::MindRot => "MIND_ROT",
            CardId::MinionDiveBomb => "MINION_DIVE_BOMB",
            CardId::MinionSacrifice => "MINION_SACRIFICE",
            CardId::MinionStrike => "MINION_STRIKE",
            CardId::Shiv => "SHIV",
            CardId::Sloth => "SLOTH",
            CardId::Soul => "SOUL",
            CardId::SovereignBlade => "SOVEREIGN_BLADE",
            CardId::SweepingGaze => "SWEEPING_GAZE",
            CardId::WasteAway => "WASTE_AWAY",
            CardId::Custom(_) => "CUSTOM_CARD",
        }
    }
}

/// A power definition; `Custom` numbers one supplied by a caller.
#[derive(Clone, Copy, Debug, PartialEq, Eq, Structural)]
pub enum PowerId {
    Strength,
    Vulnerable,
    Weak,
    PlatingPower,
    AggressionPower,
    BarricadePower,
    ColossusPower,
    CorruptionPower,
    CrimsonMantlePower,
    CrueltyPower,
    DarkEmbracePower,
    DemonFormPower,
    DrumOfBattlePower,
    FeelNoPainPower,
    FlameBarrierPower,
    FreeAttackPower,
    HellraiserPower,
    InfernoPower,
    JuggernautPower,
    JugglingPower,
    ManglePower,
    NoDrawPower,
    NoEnergyGainPower,
    OneTwoPunchPower,
    PyrePower,
    RagePower,
    RupturePower,
    SetupStrikePower,
    StampedePower,
    TankPower,
    UnmovablePower,
    ViciousPower,
    FrailPower,
    Custom(u32),
}

pub const STRENGTH: PowerId = PowerId::Strength;
pub const VULNERABLE: PowerId = PowerId::Vulnerable;
pub const WEAK: PowerId = PowerId::Weak;
pub const PLATING_POWER: PowerId = PowerId::PlatingPower;
pub const AGGRESSION_POWER: PowerId = PowerId::AggressionPower;
pub const BARRICADE_POWER: PowerId = PowerId::BarricadePower;
pub const COLOSSUS_POWER: PowerId = PowerId::ColossusPower;
pub const CORRUPTION_POWER: PowerId = PowerId::CorruptionPower;
pub const CRIMSON_MANTLE_POWER: PowerId = PowerId::CrimsonMantlePower;
pub const CRUELTY_POWER: PowerId = PowerId::CrueltyPower;
pub const DARK_EMBRACE_POWER: PowerId = PowerId::DarkEmbracePower;
pub const DEMON_FORM_POWER: PowerId = PowerId::DemonFormPower;
pub const DRUM_OF_BATTLE_POWER: PowerId = PowerId::DrumOfBattlePower;
pub const FEEL_NO_PAIN_POWER: PowerId = PowerId::FeelNoPainPower;
pub const FLAME_BARRIER_POWER: PowerId = PowerId::FlameBarrierPower;
pub const FREE_ATTACK_POWER: PowerId = PowerId::FreeAttackPower;
pub const HELLRAISER_POWER: PowerId = PowerId::HellraiserPower;
pub const INFERNO_POWER: PowerId = PowerId::InfernoPower;
pub const JUGGERNAUT_POWER: PowerId = PowerId::JuggernautPower;
pub const JUGGLING_POWER: PowerId = PowerId::JugglingPower;
pub const MANGLE_POWER: PowerId = PowerId::ManglePower;
pub const NO_DRAW_POWER: PowerId = PowerId::NoDrawPower;
pub const NO_ENERGY_GAIN_POWER: PowerId = PowerId::NoEnergyGainPower;
pub const ONE_TWO_PUNCH_POWER: PowerId = PowerId::OneTwoPunchPower;
pub const PYRE_POWER: PowerId = PowerId::PyrePower;
pub const RAGE_POWER: PowerId = PowerId::RagePower;
pub const RUPTURE_POWER: PowerId = PowerId::RupturePower;
pub const SETUP_STRIKE_POWER: PowerId = PowerId::SetupStrikePower;
pub const STAMPEDE_POWER: PowerId = PowerId::StampedePower;
pub const TANK_POWER: PowerId = PowerId::TankPower;
pub const UNMOVABLE_POWER: PowerId = PowerId::UnmovablePower;
pub const VICIOUS_POWER: PowerId = PowerId::ViciousPower;
pub const FRAIL_POWER: PowerId = PowerId::FrailPower;

impl PowerId {
    /// The identifier's text.
    pub open spec fn spec_as_str(self) -> &'static str {
        match self {
            PowerId::Strength => "STRENGTH",
            PowerId::Vulnerable => "VULNERABLE",
            PowerId::Weak => "WEAK",
            PowerId::PlatingPower => "PLATING",
            PowerId::AggressionPower => "AGGRESSION_POWER",
            PowerId::BarricadePower => "BARRICADE_POWER",
            PowerId::ColossusPower => "COLOSSUS_POWER",
            PowerId::CorruptionPower => "CORRUPTION_POWER",
            PowerId::CrimsonMantlePower => "CRIMSON_MANTLE_POWER",
            PowerId::CrueltyPower => "CRUELTY_POWER",
            PowerId::DarkEmbracePower => "DARK_EMBRACE_POWER",
            PowerId::DemonFormPower => "DEMON_FORM_POWER",
            PowerId::DrumOfBattlePower => "DRUM_OF_BATTLE_POWER",
            PowerId::FeelNoPainPower => "FEEL_NO_PAIN_POWER",
            PowerId::FlameBarrierPower => "FLAME_BARRIER_POWER",
            PowerId::FreeAttackPower => "FREE_ATTACK_POWER",
            PowerId::HellraiserPower => "HELLRAISER_POWER",
            PowerId::InfernoPower => "INFERNO_POWER",
            PowerId::JuggernautPower => "JUGGERNAUT_POWER",
            PowerId::JugglingPower => "JUGGLING_POWER",
            PowerId::ManglePower => "MANGLE_POWER",
            PowerId::NoDrawPower => "NO_DRAW_POWER",
            PowerId::NoEnergyGainPower => "NO_ENERGY_GAIN_POWER",
            PowerId::OneTwoPunchPower => "ONE_TWO_PUNCH_POWER",
            PowerId::PyrePower => "PYRE_POWER",
            PowerId::RagePower => "RAGE_POWER",
            PowerId::RupturePower => "RUPTURE_POWER",
            PowerId::SetupStrikePower => "SETUP_STRIKE_POWER",
            PowerId::StampedePower => "STAMPEDE_POWER",
            PowerId::TankPower => "TANK_POWER",
            PowerId::UnmovablePower => "UNMOVABLE_POWER",
            PowerId::ViciousPower => "VICIOUS_POWER",
            PowerId::FrailPower => "FRAIL_POWER",
            PowerId::Custom(_) => "CUSTOM_POWER",
        }
    }

    pub fn as_str(&self) -> (r: &'static str)
        ensures
            r == self.spec_as_str(),
    {
        match self {
            PowerId::Strength => "STRENGTH",
            PowerId::Vulnerable => "VULNERABLE",
            PowerId::Weak => "WEAK",
            PowerId::PlatingPower => "PLATING",
            PowerId::AggressionPower => "AGGRESSION_POWER",
            PowerId::BarricadePower => "BARRICADE_POWER",
            PowerId::ColossusPower => "COLOSSUS_POWER",
            PowerId::CorruptionPower => "CORRUPTION_POWER",
            PowerId::CrimsonMantlePower => "CRIMSON_MANTLE_POWER",
            PowerId::CrueltyPower => "CRUELTY_POWER",
            PowerId::DarkEmbracePower => "DARK_EMBRACE_POWER",
            PowerId::DemonFormPower => "DEMON_FORM_POWER",
            PowerId::DrumOfBattlePower => "DRUM_OF_BATTLE_POWER",
            PowerId::FeelNoPainPower => "FEEL_NO_PAIN_POWER",
            PowerId::FlameBarrierPower => "FLAME_BARRIER_POWER",
            PowerId::FreeAttackPower => "FREE_ATTACK_POWER",
            PowerId::HellraiserPower => "HELLRAISER_POWER",
            PowerId::InfernoPower => "INFERNO_POWER",
            PowerId::JuggernautPower => "JUGGERNAUT_POWER",
            PowerId::JugglingPower => "JUGGLING_POWER",
            PowerId::ManglePower => "MANGLE_POWER",
            PowerId::NoDrawPower => "NO_DRAW_POWER",
            PowerId::NoEnergyGainPower => "NO_ENERGY_GAIN_POWER",
            PowerId::OneTwoPunchPower => "ONE_TWO_PUNCH_POWER",
            PowerId::PyrePower => "PYRE_POWER",
            PowerId::RagePower => "RAGE_POWER",
            PowerId::RupturePower => "RUPTURE_POWER",
            PowerId::SetupStrikePower => "SETUP_STRIKE_POWER",
            PowerId::StampedePower => "STAMPEDE_POWER",
            PowerId::TankPower => "TANK_POWER",
            PowerId::UnmovablePower => "UNMOVABLE_POWER",
            PowerId::ViciousPower => "VICIOUS_POWER",
            PowerId::FrailPower => "FRAIL_POWER",
            PowerId::Custom(_) => "CUSTOM_POWER",
        }
    }
}
/// A monster definition.
#[derive(Clone, Copy, Debug, PartialEq, Eq, Structural)]
pub enum MonsterId {
    Nibbit,
    Custom(u32),
}

pub const NIBBIT: MonsterId = MonsterId::Nibbit;

/// An orb definition.
#[derive(Clone, Copy, Debug, PartialEq, Eq, Structural)]
pub enum OrbId {
    LightningOrb,
    FrostOrb,
    DarkOrb,
    PlasmaOrb,
}

pub const LIGHTNING_ORB: OrbId = OrbId::LightningOrb;
pub const FROST_ORB: OrbId = OrbId::FrostOrb;
pub const DARK_ORB: OrbId = OrbId::DarkOrb;
pub const PLASMA_ORB: OrbId = OrbId::PlasmaOrb;

/// Key of a localized text.
#[derive(Clone, Copy, Debug)]
pub struct LocKey {
    pub key: &'static str,
}

impl LocKey {
    pub fn new(key: &'static str) -> (r: LocKey)
        ensures
            r.key == key,
    {
        LocKey { key }
    }

    pub fn as_str(&self) -> (r: &'static str)
        ensures
            r == self.key,
    {
        self.key
    }
}

/// A card of the current combat: its index among the combat's cards.
#[derive(Clone, Copy, Debug, PartialEq, Eq, Structural)]
pub struct CardInstanceId(pub u32);

/// A creature of the current combat: its index among the combat's creatures.
#[derive(Clone, Copy, Debug, PartialEq, Eq, Structural)]
pub struct CreatureId(pub u32);

/// A player of the run.
#[derive(Clone, Copy, Debug, PartialEq, Eq, Structural)]
pub struct PlayerId(pub u32);

/// A power of the current combat: its index among the combat's powers.
#[derive(Clone, Copy, Debug, PartialEq, Eq, Structural)]
pub struct PowerInstanceId(pub u32);

/// An orb of the current combat: its index among the combat's orbs.
#[derive(Clone, Copy, Debug, PartialEq, Eq, Structural)]
pub struct OrbInstanceId(pub u32);


/// A potion definition.
#[derive(Clone, Copy, Debug, PartialEq, Eq, Structural)]
pub struct PotionId(pub u32);

/// A relic definition.
#[derive(Clone, Copy, Debug, PartialEq, Eq, Structural)]
pub struct RelicId(pub u32);

} // verus!
