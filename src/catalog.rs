use vstd::prelude::*;

use crate::pipeline::{SplitTable, GAME_STATE_PLAYING};
use crate::scenes::{
    is_debug_save_state_scene, is_menu, is_opening_scene, menu_like, DEMO_START, MENU_TITLE,
    OPENING_SEQUENCE,
};
use crate::store::{Pair, Snapshot, Store};
use crate::text::same_text;
use crate::timer::{should_split, SplitterAction};

verus! {

pub const CINEMATIC_STAG_TRAVEL: &'static str = "Cinematic_Stag_travel";

pub const DEATH_RESPAWN_MARKER_INIT: &'static str = "Death Respawn Marker Init";

/// Field paths under which a snapshot holds the values that the store tracks.
pub const AT_BENCH: &'static str = "playerData.atBench";

pub const HEALTH: &'static str = "playerData.health";

pub const GAME_STATE: &'static str = "GameManager.gameState";

pub const RESPAWN_SCENE: &'static str = "playerData.respawnScene";

/// Masks that a new save starts with.
pub const START_MASKS: i32 = 5;

/// Silk spools that a new save starts with.
pub const START_SPOOLS: i32 = 9;

/// The milestones that a run can be split on.
#[derive(Clone, Copy, Debug, PartialEq, Eq, Structural)]
pub enum Split {
    ManualSplit,
    StartNewGame,
    Act1Start,
    EndingSplit,
    EndingA,
    Menu,
    BenchAny,
    PlayerDeath,
    AnyTransition,
    TransitionExcludingDiscontinuities,
    MossMother,
    MossMotherTrans,
    EnterBoneBottom,
    EnterMosshome,
    SilkSpear,
    SilkSpearTrans,
    BoneBottomSimpleKey,
    EnterWeavenestAtla,
    BellBeast,
    BellBeastTrans,
    MarrowBell,
    SwiftStep,
    SwiftStepTrans,
    Lace1,
    Lace1Trans,
    DeepDocksBell,
    EnterWormways,
    EnterUpperWormways,
    Sharpdart,
    SharpdartTrans,
    EnterHuntersMarch,
    HuntersMarchPostMiddleArenaTransition,
    EnterFarFields,
    DriftersCloak,
    DriftersCloakTrans,
    FourthChorus,
    GurrTheOutcastEncountered,
    GurrTheOutcast,
    EnterGreymoor,
    GreymoorBell,
    Moorwing,
    MoorwingTrans,
    ThreadStorm,
    ThreadStormTrans,
    EnterHalfwayHomeBasement,
    EnterWispThicket,
    EnterFatherOfTheFlame,
    FatherOfTheFlame,
    EnterShellwood,
    ClingGrip,
    ClingGripTrans,
    ShellwoodBell,
    EnterBellhart,
    Widow,
    MenuNeedolinMemory,
    BellhartBell,
    EnterBlastedSteps,
    GreatConchflies,
    GreatConchfliesTrans,
    NeedleStrike,
    NeedleStrikeTrans,
    EnterLastJudge,
    LastJudgeEncountered,
    LastJudge,
    EnterCitadelFrontGate,
    EnterSinnersRoad,
    Lugoli,
    EnterMist,
    MistCrossing,
    LeaveMist,
    EnterBilewater,
    EnterExhaustOrgan,
    Phantom,
    PhantomTrans,
    CrossStitch,
    CrossStitchTrans,
    TrailsEndTrans,
    EnterTheSlab,
    WardenflyCaptureTrans,
    SlabKeyIndolent,
    SlabKeyHeretic,
    SlabKeyApostate,
    Broodmother,
    EnterFirstSinner,
    FirstSinnerEncountered,
    FirstSinner,
    RuneRage,
    RuneRageTrans,
    EnterMountFay,
    EnterBrightvein,
    UpperMountFayTrans,
    FaydownCloak,
    EnterSandsOfKarak,
    EnterVoltnest,
    Voltvyrm,
    RagingConchfly,
    RagingConchflyTrans,
    WatcherAtTheEdge,
    Act2Started,
    EnterCogworkDancers,
    CogworkDancersEncountered,
    CogworkDancers,
    EnterCogworkCore,
    SecondSentinelAwoken,
    EnterWhisperingVaults,
    WhisperingVaultsArena,
    EnterSongclave,
    Trobbio,
    TrobbioTrans,
    MetMergwin,
    DeliveredCouriersRasher,
    GreatTasteReward,
    Clawline,
    PostClawlineArenaTrans,
    EnterHighHalls,
    EnterHighHallsArena,
    HighHallsArena,
    EnterSecondSentinel,
    SecondSentinelBossEncountered,
    SecondSentinel,
    EnterWhiteward,
    PostWhitewardElevatorTrans,
    CollectedWhitewardKey,
    CollectedSurgeonsKey,
    TheUnravelledEncountered,
    TheUnravelled,
    EnterMemorium,
    EnterPutrifiedDucts,
    FleaFestivalBegin,
    FleaFestivalEnd,
    Lace2,
    PostLace2ArenaTrans,
    EnterTheCradle,
    PaleNails,
    PaleNailsTrans,
    VaultkeepersMelody,
    VaultkeepersMelodyTrans,
    ArchitectsMelody,
    ArchitectsMelodyTrans,
    ConductorsMelody,
    ConductorsMelodyTrans,
    UnlockedMelodyLift,
    NeedleUpgrade1,
    NeedleUpgrade2,
    NeedleUpgrade3,
    NeedleUpgrade4,
    MaskShard1,
    MaskShard2,
    MaskShard3,
    Mask1,
    MaskShard5,
    MaskShard6,
    MaskShard7,
    Mask2,
    MaskShard9,
    MaskShard10,
    MaskShard11,
    Mask3,
    MaskShard13,
    MaskShard14,
    MaskShard15,
    Mask4,
    MaskShard17,
    MaskShard18,
    MaskShard19,
    Mask5,
    SpoolFragment1,
    Spool1,
    SpoolFragment3,
    Spool2,
    SpoolFragment5,
    Spool3,
    SpoolFragment7,
    Spool4,
    SpoolFragment9,
    Spool5,
    SpoolFragment11,
    Spool6,
    SpoolFragment13,
    Spool7,
    SpoolFragment15,
    Spool8,
    SpoolFragment17,
    Spool9,
    ToolPouch1,
    ToolPouch2,
    ToolPouch3,
    ToolPouch4,
    CraftingKit1,
    CraftingKit2,
    CraftingKit3,
    CraftingKit4,
    ReaperCrest,
    ReaperCrestTrans,
    WandererCrest,
    WandererCrestTrans,
    BeastCrest,
    BeastCrestTrans,
    ArchitectCrest,
    ArchitectCrestTrans,
    CurseCrest,
    GainedCurse,
    WitchCrest,
    WitchCrestTrans,
    ShamanCrest,
    ShamanCrestTrans,
    HunterCrestEvo1,
    VesticrestYellowSlot,
    VesticrestBlueSlot,
    HunterCrestEvo2,
    Sylphsong,
    SylphsongTrans,
    SavedFleaHuntersMarch,
    SavedFleaBellhart,
    SavedFleaMarrow,
    SavedFleaDeepDocksSprint,
    SavedFleaFarFieldsPilgrimsRest,
    SavedFleaFarFieldsTrap,
    SavedFleaSandsOfKarak,
    SavedFleaBlastedSteps,
    SavedFleaWormways,
    SavedFleaDeepDocksArena,
    SavedFleaDeepDocksBellway,
    SavedFleaBilewaterOrgan,
    SavedFleaSinnersRoad,
    SavedFleaGreymoorRoof,
    SavedFleaGreymoorLake,
    SavedFleaWhisperingVaults,
    SavedFleaSongclave,
    SavedFleaMountFay,
    SavedFleaBilewaterTrap,
    SavedFleaBilewaterThieves,
    SavedFleaShellwood,
    SavedFleaSlabBellway,
    SavedFleaSlabCage,
    SavedFleaChoralChambersWind,
    SavedFleaChoralChambersCage,
    SavedFleaUnderworksCauldron,
    SavedFleaUnderworksWispThicket,
    SavedFleaGiantFlea,
    SavedFleaVog,
    SavedFleaKratt,
    PutrifiedDuctsStation,
    BellhartStation,
    FarFieldsStation,
    GrandBellwayStation,
    BlastedStepsStation,
    DeepDocksStation,
    GreymoorStation,
    SlabStation,
    BilewaterStation,
    ShellwoodStation,
    BellwayTrans,
    ChoralChambersTube,
    UnderworksTube,
    GrandBellwayTube,
    HighHallsTube,
    SongclaveTube,
    MemoriumTube,
    VentricaTrans,
    SeenShakraBonebottom,
    SeenShakraMarrow,
    SeenShakraDeepDocks,
    SeenShakraFarFields,
    SeenShakraWormways,
    SeenShakraGreymoor,
    SeenShakraBellhart,
    SeenShakraShellwood,
    SeenShakraHuntersMarch,
    SeenShakraBlastedSteps,
    SeenShakraSinnersRoad,
    SeenShakraMountFay,
    SeenShakraBilewater,
    SeenShakraSandsOfKarak,
    ShakraMapBuyout,
    MetJubilanaEnclave,
    MetShermaEnclave,
    UnlockedPrinceCage,
    GreenPrinceInVerdania,
    SeenFleatopiaEmpty,
    EnterBellEater,
    BeastlingCall,
    SilkSoar,
    ElegyOfTheDeep,
    EnterNylethMemory,
    NylethEncountered,
    Nyleth,
    HeartNyleth,
    EnterKhannMemory,
    KhannEncountered,
    CrustKingKhann,
    HeartKhann,
    EnterKarmelitaMemory,
    SkarrsingerKarmelita,
    HeartKarmelita,
    EnterVerdaniaMemory,
    EnterVerdaniaCastle,
    Palestag,
    CloverDancersEncountered,
    CloverDancers,
    HeartClover,
    EnterRedMemory,
    RedMemory,
    BellhouseKeyConversation,
    VerdaniaLakeFountainOrbs,
    VerdaniaOrbsCollected,
    Forebrothers,
    Groal,
    SavageBeastfly1,
    SavageBeastfly2,
    CaravanTroupeGreymoor,
    CaravanTroupeBlastedSteps,
    CaravanTroupeFleatopia,
    SoldRelic,
    PavoTimePassed,
    SongclaveBell,
    SkullTyrant1,
    ShermaReturned,
    JubilanaRescuedMemorium,
    JubilanaRescuedChoralChambers,
    SilkAndSoulOffered,
    SoulSnareReady,
    EnterDestroyedCogworks,
    DestroyedCogworksVoidArena,
    EnterSeth,
    Seth,
    BallowMoved,
    Act3Started,
    DivingBellAbyssTrans,
    EnterAbyss,
    AbyssEscape,
    LastDiveTrans,
    LostLaceEncountered,
    AscendantsGrip,
    BarbedBracelet,
    ClawMirror,
    ClawMirrors,
    Cogfly,
    CogworkWheel,
    Compass,
    Conchcutter,
    Curveclaw,
    Curvesickle,
    DeadBugsPurse,
    DelversDrill,
    DruidsEye,
    DruidsEyes,
    EggofFlealia,
    FleaBrew,
    Flintslate,
    FracturedMask,
    InjectorBand,
    Longclaw,
    Longpin,
    MagmaBell,
    MagnetiteBrooch,
    MagnetiteDice,
    MemoryCrystal,
    Multibinder,
    NeedlePhial,
    Pimpillo,
    PinBadge,
    PlasmiumPhial,
    PollipPouch,
    QuickSling,
    ReserveBind,
    RosaryCannon,
    SawtoothCirclet,
    Scuttlebrace,
    ShardPendant,
    ShellSatchel,
    SilkshotArchitect,
    SilkshotForge,
    SilkshotWeaver,
    SilkspeedAnklets,
    SnareSetter,
    SnitchPick,
    SpiderStrings,
    SpoolExtender,
    StingShard,
    StraightPin,
    Tacks,
    ThiefsMark,
    ThreefoldPin,
    ThrowingRing,
    VoltFilament,
    Voltvessels,
    WardingBell,
    Weavelight,
    WeightedBelt,
    WispfireLantern,
    WreathofPurity,
}

/// The player-data flags that milestones read.
#[derive(Clone, Copy, Debug, PartialEq, Eq, Structural)]
pub enum Flag {
    Act2Started,
    BallowMovedToDivingBell,
    BellShrineBellhart,
    BellShrineBoneForest,
    BellShrineEnclave,
    BellShrineGreymoor,
    BellShrineShellwood,
    BellShrineWilds,
    BelltownDoctorCuredCurse,
    BelltownGreeterHouseFullDlg,
    BelltownGreeterMetTimePassed,
    BelltownRelicDealerGaveRelic,
    BlackThreadWorld,
    CaravanLechSaved,
    CaretakerOfferedSnareQuest,
    CityMerchantSaved,
    CollectedHeartClover,
    CollectedHeartCoral,
    CollectedHeartFlower,
    CollectedHeartHunter,
    CollectedWardBossKey,
    CollectedWardKey,
    CompletedAbyssAscent,
    CompletedCog10AbyssBattle,
    CompletedLibraryEntryBattle,
    CompletedMemoryBeast,
    CompletedMemoryReaper,
    CompletedMemoryShaman,
    CompletedMemoryToolmaster,
    CompletedMemoryWanderer,
    CompletedMemoryWitch,
    CompletedRedMemory,
    DefeatedAntQueen,
    DefeatedAntTrapper,
    DefeatedBellBeast,
    DefeatedBoneFlyerGiant,
    DefeatedBoneFlyerGiantGolemScene,
    DefeatedBroodMother,
    DefeatedCloverDancers,
    DefeatedCogworkDancers,
    DefeatedCoralDrillerSolo,
    DefeatedCoralDrillers,
    DefeatedCoralKing,
    DefeatedDockForemen,
    DefeatedFirstWeaver,
    DefeatedFlowerQueen,
    DefeatedGreyWarrior,
    DefeatedLace1,
    DefeatedLaceTower,
    DefeatedLastJudge,
    DefeatedMossMother,
    DefeatedPhantom,
    DefeatedRoachKeeperChef,
    DefeatedSeth,
    DefeatedSongChevalierBoss,
    DefeatedSongGolem,
    DefeatedSwampShaman,
    DefeatedTrobbio,
    DefeatedVampireGnatBoss,
    DefeatedWhiteCloverstag,
    DefeatedWispPyreEffigy,
    DefeatedZapCoreEnemy,
    DisablePause,
    EnclaveMerchantSaved,
    EncounteredAntTrapper,
    EncounteredCloverDancers,
    EncounteredCogworkDancers,
    EncounteredCoralKing,
    EncounteredFirstWeaver,
    EncounteredFlowerQueen,
    EncounteredLastJudge,
    EncounteredLostLace,
    EncounteredSongChevalierBoss,
    FleaGamesEnded,
    FleaGamesStarted,
    GainedCurse,
    GotGourmandReward,
    GourmandGivenMeat,
    Hang04Battle,
    HasBellhartMap,
    HasBonebottomSimpleKey,
    HasBoneforestMap,
    HasBoundCrestUpgrader,
    HasBrolly,
    HasChargeSlash,
    HasCoralMap,
    HasCrawlMap,
    HasDash,
    HasDocksMap,
    HasDoubleJump,
    HasDustpensMap,
    HasFastTravelTeleport,
    HasGreymoorMap,
    HasHarpoonDash,
    HasHuntersNestMap,
    HasJudgeStepsMap,
    HasMelodyArchitect,
    HasMelodyConductor,
    HasMelodyLibrarian,
    HasMossGrottoMap,
    HasNeedleThrow,
    HasNeedolinMemoryPowerup,
    HasParry,
    HasPeakMap,
    HasShellwoodMap,
    HasSilkBomb,
    HasSilkBossNeedle,
    HasSilkCharge,
    HasSlabKeyA,
    HasSlabKeyB,
    HasSlabKeyC,
    HasSuperJump,
    HasSwampMap,
    HasThreadSphere,
    HasWallJump,
    HasWildsMap,
    MetCityMerchantEnclave,
    MetGourmandServant,
    MetShermaEnclave,
    MetTroupeHunterWild,
    Orbs02c,
    Orbs03,
    Orbs06,
    Orbs11,
    Orbs16B,
    Orbs16C,
    Orbs21,
    SavedfleaAnt03,
    SavedfleaBelltown04,
    SavedfleaBone06,
    SavedfleaBoneEast05,
    SavedfleaBoneEast10Church,
    SavedfleaBoneEast17b,
    SavedfleaCoral24,
    SavedfleaCoral35,
    SavedfleaCrawl06,
    SavedfleaDock03d,
    SavedfleaDock16,
    SavedfleaDust09,
    SavedfleaDust12,
    SavedfleaGreymoor06,
    SavedfleaGreymoor15b,
    SavedfleaLibrary01,
    SavedfleaLibrary09,
    SavedfleaPeak05c,
    SavedfleaShadow10,
    SavedfleaShadow28,
    SavedfleaShellwood03,
    SavedfleaSlab06,
    SavedfleaSlabCell,
    SavedfleaSong11,
    SavedfleaSong14,
    SavedfleaUnder21,
    SavedfleaUnder23,
    SeenFleatopiaEmpty,
    SeenMapperBellhart,
    SeenMapperBoneForest,
    SeenMapperBonetown,
    SeenMapperCoralCaverns,
    SeenMapperCrawl,
    SeenMapperDocks,
    SeenMapperDustpens,
    SeenMapperGreymoor,
    SeenMapperHuntersNest,
    SeenMapperJudgeSteps,
    SeenMapperPeak,
    SeenMapperShadow,
    SeenMapperShellwood,
    SeenMapperWilds,
    ShermaHealerActive,
    SkullKingDefeated,
    SoulSnareReady,
    SpinnerDefeated,
    SummonedLakeOrbs,
    TamedGiantFlea,
    UnlockedAqueductStation,
    UnlockedArboriumTube,
    UnlockedBelltownStation,
    UnlockedBoneforestEastStation,
    UnlockedCityBellwayTube,
    UnlockedCityStation,
    UnlockedCoralTowerStation,
    UnlockedDocksStation,
    UnlockedDustCage,
    UnlockedEnclaveTube,
    UnlockedExtraBlueSlot,
    UnlockedExtraYellowSlot,
    UnlockedGreymoorStation,
    UnlockedHangTube,
    UnlockedMelodyLift,
    UnlockedPeakStation,
    UnlockedShadowStation,
    UnlockedShellwoodStation,
    UnlockedSongTube,
    UnlockedUnderTube,
    WardBossDefeated,
    WardBossEncountered,
    WokeSongChevalier,
}

/// The player-data counts that milestones read.
#[derive(Clone, Copy, Debug, PartialEq, Eq, Structural)]
pub enum Number {
    CaravanTroupeLocation,
    GreenPrinceLocation,
    Health,
    HeartPieces,
    MaxHealthBase,
    NailUpgrades,
    SilkMax,
    SilkSpoolParts,
    ToolKitUpgrades,
    ToolPouchUpgrades,
}

/// The player-data bit sets that milestones read: one bit per item found.
#[derive(Clone, Copy, Debug, PartialEq, Eq, Structural)]
pub enum Bits {
    Orbs18A,
    Orbs18B,
    Orbs18C,
    Orbs18D,
    Orbs18E,
    Orbs19,
}

/// The texts that milestones read.
#[derive(Clone, Copy, Debug, PartialEq, Eq, Structural)]
pub enum Text {
    /// Name of the door the hero came in by.
    EntryGateName,
    /// The crest that the hero wears.
    CurrentCrestId,
}

/// Access to the attached game's state, as the milestones read it. A value
/// that cannot be read is `None`, or an empty text.
pub trait GameMemory {
    fn flag(&self, f: Flag) -> Option<bool>;

    fn number(&self, n: Number) -> Option<i32>;

    fn bits(&self, b: Bits) -> Option<u64>;

    fn text(&self, t: Text) -> String;

    fn game_state(&self) -> Option<i32>;

    /// Whether the hero's inventory holds the tool of this name, looked up
    /// through the store's tool cache.
    fn has_tool(&self, store: &mut Store, tool: &str) -> bool;

    /// This tick's readings, for the entries that the store registers.
    fn snapshot(&self) -> &Snapshot;
}

/// The flag is readable and set.
fn flag_set<M: GameMemory>(m: &M, f: Flag) -> bool {
    match m.flag(f) {
        Some(b) => b,
        None => false,
    }
}

/// Every flag of the list is readable and set.
fn all_set<M: GameMemory>(m: &M, fs: &[Flag]) -> bool {
    let mut i: usize = 0;
    while i < fs.len()
        invariant
            i <= fs@.len(),
        decreases fs@.len() - i,
    {
        if !flag_set(m, fs[i]) {
            return false;
        }
        i = i + 1;
    }
    true
}

/// How many flags of the list are readable and set.
fn count_set<M: GameMemory>(m: &M, fs: &[Flag]) -> (r: usize)
    ensures
        r <= fs@.len(),
{
    let mut c: usize = 0;
    let mut i: usize = 0;
    while i < fs.len()
        invariant
            c <= i <= fs@.len(),
        decreases fs@.len() - i,
    {
        if flag_set(m, fs[i]) {
            c = c + 1;
        }
        i = i + 1;
    }
    c
}

/// The number of ones among the lowest `k` binary digits of `x`.
pub open spec fn ones_in(x: nat, k: nat) -> nat
    decreases k,
{
    if k == 0 {
        0
    } else {
        (x % 2) + ones_in(x / 2, (k - 1) as nat)
    }
}

/// The number of bits set in `x`.
pub fn ones(x: u64) -> (r: usize)
    ensures
        r == ones_in(x as nat, 64),
        r <= 64,
{
    let mut y = x;
    let mut c: usize = 0;
    let mut k: usize = 0;
    proof {
        lemma_ones_in_bound(x as nat, 64);
    }
    while k < 64
        invariant
            k <= 64,
            c <= k,
            c + ones_in(y as nat, (64 - k) as nat) == ones_in(x as nat, 64),
            ones_in(y as nat, (64 - k) as nat) <= 64 - k,
        decreases 64 - k,
    {
        proof {
            lemma_ones_in_bound((y / 2) as nat, (63 - k) as nat);
        }
        if y % 2 == 1 {
            c = c + 1;
        }
        y = y / 2;
        k = k + 1;
    }
    c
}

proof fn lemma_ones_in_bound(x: nat, k: nat)
    ensures
        ones_in(x, k) <= k,
    decreases k,
{
    if k > 0 {
        lemma_ones_in_bound(x / 2, (k - 1) as nat);
    }
}

/// The bits set over the readable bit sets of the list.
fn count_bits<M: GameMemory>(m: &M, bs: &[Bits]) -> (r: usize)
    requires
        bs@.len() <= 64,
    ensures
        r <= 64 * bs@.len(),
{
    let mut c: usize = 0;
    let mut i: usize = 0;
    while i < bs.len()
        invariant
            c <= 64 * i,
            i <= bs@.len(),
            bs@.len() <= 64,
        decreases bs@.len() - i,
    {
        match m.bits(bs[i]) {
            Some(x) => {
                c = c + ones(x);
            },
            None => {},
        }
        i = i + 1;
    }
    c
}

/// `s` starts with `p`.
pub open spec fn starts_with(s: Seq<char>, p: Seq<char>) -> bool {
    p.len() <= s.len() && s.subrange(0, p.len() as int) == p
}

/// `s` starts with `p`.
pub fn has_prefix(s: &str, p: &str) -> (r: bool)
    ensures
        r == starts_with(s@, p@),
{
    let n = p.unicode_len();
    if n > s.unicode_len() {
        return false;
    }
    let mut i: usize = 0;
    while i < n
        invariant
            n == p@.len(),
            n <= s@.len(),
            i <= n,
            forall|j: int| 0 <= j < i ==> s@[j] == p@[j],
        decreases n - i,
    {
        if s.get_char(i) != p.get_char(i) {
            assert(s@.subrange(0, n as int)[i as int] != p@[i as int]);
            return false;
        }
        i = i + 1;
    }
    assert(s@.subrange(0, n as int) =~= p@);
    true
}

/// A location whose transitions are no ordinary progress: a menu, a debug
/// save state, or bellway travel.
pub fn is_discontinuity_scene(s: &str) -> (r: bool)
    ensures
        r == (menu_like(s@) || s@ == DEMO_START@ || s@ == CINEMATIC_STAG_TRAVEL@),
{
    is_menu(s) || is_debug_save_state_scene(s) || same_text(s, CINEMATIC_STAG_TRAVEL)
}

pub fn menu_splits<M: GameMemory>(
    split: &Split,
    scenes: &Pair<&str>,
    _m: &M,
    store: &mut Store,
) -> (r: SplitterAction)
    ensures
        r == SplitterAction::Split || r == SplitterAction::Pass,
        *split == Split::Menu ==> (r == SplitterAction::Split <==> scenes.current@ == MENU_TITLE@),
{
    match split {
        // region: Start, End, and Menu
        Split::Menu => should_split(same_text(scenes.current, MENU_TITLE)),
        // endregion: Start, End, and Menu

        // region: Bellhart
        Split::MenuNeedolinMemory => should_split(
            same_text(scenes.current, MENU_TITLE)
                && match store.get_string("respawn_scene") { Some(r) => same_text(r.as_str(), "Belltown_Shrine"), None => false },
        ),
        // endregion: Bellhart

        // else
        _ => should_split(false),
    }
}

pub fn transition_splits<M: GameMemory>(split: &Split, scenes: &Pair<&str>, m: &M) -> (r: SplitterAction)
    ensures
        r == SplitterAction::Split || r == SplitterAction::Pass,
        *split == Split::StartNewGame ==> (r == SplitterAction::Split <==> (scenes.old@
            == OPENING_SEQUENCE@ && scenes.current@ == "Tut_01"@)),
        *split == Split::AnyTransition ==> r == SplitterAction::Split,
        *split == Split::EndingSplit ==> (r == SplitterAction::Split <==> starts_with(
            scenes.current@,
            "Cinematic_Ending"@,
        )),
{
    match split {
        // region: Start, End, and Menu
        Split::StartNewGame => {
            should_split(is_opening_scene(scenes.old) && same_text(scenes.current, "Tut_01"))
        }
        Split::EndingSplit => should_split(has_prefix(scenes.current, "Cinematic_Ending")),
        Split::EndingA => should_split(same_text(scenes.current, "Cinematic_Ending_A")),
        Split::AnyTransition => should_split(true),
        Split::TransitionExcludingDiscontinuities => should_split(
            !(is_discontinuity_scene(scenes.old)
                || is_discontinuity_scene(scenes.current)
                || match m.number(Number::Health) { Some(h) => h == 0, None => false }),
        ),
        // endregion: Start, End, and Menu

        // region: MossLands
        Split::MossMotherTrans => {
            should_split(flag_set(m, Flag::DefeatedMossMother))
        }
        Split::SilkSpearTrans => should_split(flag_set(m, Flag::HasNeedleThrow)),
        Split::EnterBoneBottom => {
            should_split(!same_text(scenes.old, "Bonetown") && same_text(scenes.current, "Bonetown"))
        }
        Split::EnterMosshome => {
            should_split(same_text(scenes.old, "Bone_05") && same_text(scenes.current, "Mosstown_01"))
        }
        Split::EnterWeavenestAtla => {
            should_split(same_text(scenes.old, "Tut_01b") && same_text(scenes.current, "Weave_04"))
        }
        // endregion: MossLands

        // region: Marrow
        Split::BellBeastTrans => {
            should_split(flag_set(m, Flag::DefeatedBellBeast))
        }
        // endregion: Marrow

        // region: DeepDocks
        Split::SwiftStepTrans => should_split(flag_set(m, Flag::HasDash)),
        Split::Lace1Trans => should_split(flag_set(m, Flag::DefeatedLace1)),
        // endregion: DeepDocks

        // region: Wormways
        Split::EnterWormways => should_split(
            (same_text(scenes.old, "Crawl_02") && same_text(scenes.current, "Crawl_03b"))
                || (same_text(scenes.old, "Aspid_01") && same_text(scenes.current, "Crawl_01")),
        ),
        Split::EnterUpperWormways => {
            should_split(same_text(scenes.old, "Crawl_03b") && same_text(scenes.current, "Crawl_03"))
        }
        Split::SharpdartTrans => should_split(flag_set(m, Flag::HasSilkCharge)),
        // endregion: Wormways

        // region: HuntersMarch
        Split::EnterHuntersMarch => should_split(
            (same_text(scenes.old, "Ant_02") && same_text(scenes.current, "Ant_03"))
                || (same_text(scenes.old, "Ant_05b") && same_text(scenes.current, "Ant_14")),
        ),
        Split::HuntersMarchPostMiddleArenaTransition => {
            should_split(same_text(scenes.old, "Ant_04_mid") && same_text(scenes.current, "Ant_04"))
        }
        // endregion: HuntersMarch

        // region: FarFields
        Split::EnterFarFields => should_split(
            !has_prefix(scenes.old, "Bone_East") && has_prefix(scenes.current, "Bone_East"),
        ),
        Split::DriftersCloakTrans => should_split(flag_set(m, Flag::HasBrolly)),
        // endregion: FarFields

        // region: Greymoor
        Split::EnterGreymoor => should_split(
            !has_prefix(scenes.old, "Greymoor") && has_prefix(scenes.current, "Greymoor"),
        ),
        Split::MoorwingTrans => should_split(
            flag_set(m, Flag::DefeatedVampireGnatBoss),
        ),
        Split::ThreadStormTrans => {
            should_split(flag_set(m, Flag::HasThreadSphere))
        }
        Split::EnterHalfwayHomeBasement => {
            should_split(same_text(scenes.old, "Halfway_01") && same_text(scenes.current, "Ant_08"))
        }
        // endregion: Greymoor

        // region: WispThicket
        Split::EnterWispThicket => {
            should_split(same_text(scenes.old, "Greymoor_06") && same_text(scenes.current, "Wisp_04"))
        }
        Split::EnterFatherOfTheFlame => {
            should_split(same_text(scenes.old, "Wisp_02") && same_text(scenes.current, "Belltown_08"))
        }
        // endregion: WispThicket

        // region: Bellhart
        Split::EnterBellhart => should_split(
            (same_text(scenes.old, "Belltown_06")
                || same_text(scenes.old, "Belltown_07")
                || same_text(scenes.old, "Belltown_basement"))
                && same_text(scenes.current, "Belltown"),
        ),
        // endregion: Bellhart

        // region: Shellwood
        Split::ClingGripTrans => should_split(flag_set(m, Flag::HasWallJump)),
        Split::EnterShellwood => should_split(
            !has_prefix(scenes.old, "Shellwood") && has_prefix(scenes.current, "Shellwood"),
        ),
        // endregion: Shellwood

        // region: BlastedSteps
        Split::EnterBlastedSteps => {
            should_split(same_text(scenes.old, "Coral_19") && same_text(scenes.current, "Coral_02"))
        }
        Split::GreatConchfliesTrans => {
            should_split(flag_set(m, Flag::DefeatedCoralDrillers))
        }
        Split::NeedleStrikeTrans => {
            should_split(flag_set(m, Flag::HasChargeSlash))
        }
        Split::EnterLastJudge => {
            should_split(same_text(scenes.old, "Coral_32") && same_text(scenes.current, "Coral_Judge_Arena"))
        }
        Split::EnterCitadelFrontGate => {
            should_split(same_text(scenes.old, "Coral_Judge_Arena") && same_text(scenes.current, "Coral_10"))
        }
        // endregion: BlastedSteps

        // region: SinnersRoad
        Split::EnterSinnersRoad => should_split(
            (same_text(scenes.old, "Greymoor_03") && same_text(scenes.current, "Dust_01"))
                || (same_text(scenes.old, "Dust_Maze_08_completed") && same_text(scenes.current, "Dust_05"))
                || (same_text(scenes.old, "Shadow_05") && same_text(scenes.current, "Dust_06")),
        ),
        // endregion: SinnersRoad

        // region: TheMist
        Split::EnterMist => should_split(
            (same_text(scenes.old, "Dust_05") || same_text(scenes.old, "Shadow_04"))
                && same_text(scenes.current, "Dust_Maze_09_entrance"),
        ),
        Split::MistCrossing => should_split(
            has_prefix(scenes.old, "Dust_Maze_0") && same_text(scenes.current, "Dust_Maze_crossing"),
        ),
        Split::LeaveMist => {
            should_split(same_text(scenes.old, "Dust_Maze_Last_Hall") && same_text(scenes.current, "Dust_09"))
        }
        // endregion: TheMist

        // region: Bilewater
        Split::EnterBilewater => should_split(
            (same_text(scenes.old, "Dust_06") && same_text(scenes.current, "Shadow_05"))
                || (same_text(scenes.old, "Library_07") && same_text(scenes.current, "Shadow_22"))
                || (same_text(scenes.old, "Dust_09") && same_text(scenes.current, "Shadow_04"))
                || (same_text(scenes.old, "Aqueduct_04") && same_text(scenes.current, "Shadow_01")),
        ),
        Split::EnterExhaustOrgan => {
            should_split(same_text(scenes.old, "Dust_09") && same_text(scenes.current, "Organ_01"))
        }
        Split::PhantomTrans => should_split(flag_set(m, Flag::DefeatedPhantom)),
        Split::CrossStitchTrans => should_split(flag_set(m, Flag::HasParry)),
        Split::TrailsEndTrans => {
            should_split(same_text(scenes.old, "Shadow_24") && same_text(scenes.current, "Shadow_19"))
        }
        // endregion: Bilewater

        // region: TheSlab
        Split::EnterTheSlab => should_split(same_text(scenes.old, "Slab_01") && same_text(scenes.current, "Slab_02")),
        Split::WardenflyCaptureTrans => {
            let gate = m.text(Text::EntryGateName);
            should_split(same_text(scenes.current, "Slab_03") && same_text(gate.as_str(), "door_slabCaged"))
        }
        Split::EnterFirstSinner => {
            should_split(same_text(scenes.old, "Slab_10c") && same_text(scenes.current, "Slab_10b"))
        }
        Split::RuneRageTrans => should_split(flag_set(m, Flag::HasSilkBomb)),
        // endregion: TheSlab

        // region: MountFay
        Split::EnterMountFay => {
            should_split(same_text(scenes.old, "Slab_06") && same_text(scenes.current, "Peak_01"))
        }
        Split::EnterBrightvein => {
            should_split(same_text(scenes.old, "Peak_06b") && same_text(scenes.current, "Peak_06"))
        }
        Split::UpperMountFayTrans => {
            should_split(same_text(scenes.old, "Peak_01") && same_text(scenes.current, "Peak_07"))
        }
        // endregion: MountFay

        // region: SandsOfKarak
        Split::EnterSandsOfKarak => should_split(
            (same_text(scenes.old, "Coral_25") && same_text(scenes.current, "Coral_23"))
                || (same_text(scenes.old, "Coral_35") && same_text(scenes.current, "Coral_35b"))
                || (same_text(scenes.old, "Coral_38") && same_text(scenes.current, "Coral_26")),
        ),
        Split::EnterVoltnest => {
            should_split(same_text(scenes.old, "Coral_35b") && same_text(scenes.current, "Coral_29"))
        }
        Split::RagingConchflyTrans => should_split(
            flag_set(m, Flag::DefeatedCoralDrillerSolo),
        ),
        // endregion: SandsOfKarak

        // region: ChoralChambers
        Split::EnterSongclave => should_split(
            (same_text(scenes.old, "Song_Enclave_Tube")
                || same_text(scenes.old, "Song_25")
                || same_text(scenes.old, "Library_02")
                || same_text(scenes.old, "Library_04"))
                && same_text(scenes.current, "Song_Enclave"),
        ),
        Split::TrobbioTrans => should_split(flag_set(m, Flag::DefeatedTrobbio)),
        // endregion: ChoralChambers

        // region: Underworks
        Split::PostClawlineArenaTrans => {
            let gate = m.text(Text::EntryGateName);
            should_split(
                same_text(gate.as_str(), "bot2") && (same_text(scenes.old, "Under_18") && same_text(scenes.current, "Under_17")),
            )
        }
        // endregion: Underworks

        // region: CogworkCore
        Split::EnterCogworkDancers => should_split(
            (same_text(scenes.old, "Hang_07") || same_text(scenes.old, "Song_25")) && same_text(scenes.current, "Cog_Dancers"),
        ),
        Split::EnterCogworkCore => should_split(
            // main transition from dancers arena to either above or below
            (same_text(scenes.old, "Cog_Dancers")
                && (same_text(scenes.current, "Cog_04") || same_text(scenes.current, "Cog_08")))
                // other transitions into lower core
                || ((same_text(scenes.old, "Cog_05") || same_text(scenes.old, "Cog_06") || same_text(scenes.old, "Cog_07"))
                && same_text(scenes.current, "Cog_04")),
        ),
        // endregion: CogworkCore

        // region: WhisperingVaults
        Split::EnterWhisperingVaults => should_split(
            (same_text(scenes.old, "Library_02") && same_text(scenes.current, "Library_01"))
                || (same_text(scenes.old, "Song_Enclave") && same_text(scenes.current, "Library_04")),
        ),
        // endregion: WhisperingVaults

        // region: HighHalls
        Split::EnterHighHalls => should_split(
            (same_text(scenes.old, "Hang_01") && same_text(scenes.current, "Hang_02"))
                || (same_text(scenes.old, "Hang_07") && same_text(scenes.current, "Hang_06")),
        ),
        Split::EnterHighHallsArena => {
            should_split(same_text(scenes.old, "Hang_06") && same_text(scenes.current, "Hang_04"))
        }
        Split::EnterSecondSentinel => {
            should_split(same_text(scenes.old, "Hang_08") && same_text(scenes.current, "Hang_17b"))
        }
        // endregion: HighHalls

        // region: Whiteward
        Split::EnterWhiteward => {
            should_split(same_text(scenes.old, "Song_05") && same_text(scenes.current, "Ward_01"))
        }
        Split::PostWhitewardElevatorTrans => should_split(
            (same_text(scenes.old, "Ward_01"))
                && (same_text(scenes.current, "Ward_02")
                    || same_text(scenes.current, "Ward_02b")
                    || same_text(scenes.current, "Ward_05")
                    || same_text(scenes.current, "Ward_04")
                    || same_text(scenes.current, "Ward_03")),
        ),
        // endregion: Whiteward

        // region: Memorium
        Split::EnterMemorium => {
            should_split(same_text(scenes.old, "Song_25") && same_text(scenes.current, "Arborium_01"))
        }
        // endregion: Memorium

        // region: PutrifiedDucts
        Split::EnterPutrifiedDucts => should_split(
            (same_text(scenes.old, "Arborium_11") && same_text(scenes.current, "Aqueduct_01"))
                || (same_text(scenes.old, "Aqueduct_04") && same_text(scenes.current, "Aqueduct_02")),
        ),
        // endregion: PutrifiedDucts

        // region: TheCradle
        Split::PostLace2ArenaTrans => {
            should_split(same_text(scenes.old, "Song_Tower_01") && same_text(scenes.current, "Tube_Hub"))
        }
        Split::EnterTheCradle => {
            should_split(same_text(scenes.old, "Tube_Hub") && same_text(scenes.current, "Cradle_01"))
        }
        Split::PaleNailsTrans => {
            should_split(flag_set(m, Flag::HasSilkBossNeedle))
        }
        // endregion: TheCradle

        // region: ThreefoldMelody
        Split::VaultkeepersMelodyTrans => {
            should_split(flag_set(m, Flag::HasMelodyLibrarian))
        }
        Split::ArchitectsMelodyTrans => {
            should_split(flag_set(m, Flag::HasMelodyArchitect))
        }
        Split::ConductorsMelodyTrans => {
            should_split(flag_set(m, Flag::HasMelodyConductor))
        }
        // endregion: ThreefoldMelody

        // region: Crests
        Split::ReaperCrestTrans => {
            should_split(flag_set(m, Flag::CompletedMemoryReaper))
        }
        Split::WandererCrestTrans => {
            should_split(flag_set(m, Flag::CompletedMemoryWanderer))
        }
        Split::BeastCrestTrans => {
            should_split(flag_set(m, Flag::CompletedMemoryBeast))
        }
        Split::ArchitectCrestTrans => should_split(
            flag_set(m, Flag::CompletedMemoryToolmaster),
        ),
        Split::WitchCrestTrans => should_split(
            flag_set(m, Flag::BelltownDoctorCuredCurse),
        ),
        Split::ShamanCrestTrans => {
            should_split(flag_set(m, Flag::CompletedMemoryShaman))
        }
        Split::SylphsongTrans => {
            should_split(flag_set(m, Flag::HasBoundCrestUpgrader))
        }
        // endregion: Crests

        // region: Bellways
        Split::BellwayTrans => should_split(
            same_text(scenes.old, CINEMATIC_STAG_TRAVEL) && !same_text(scenes.current, CINEMATIC_STAG_TRAVEL),
        ),
        // endregion: Bellway

        // region: Ventrica
        Split::VentricaTrans => {
            let gate = m.text(Text::EntryGateName);
            should_split(same_text(gate.as_str(), "door_tubeEnter") && (!same_text(scenes.current, scenes.old)))
        }
        // endregion: Ventrica

        // region: MiscTE
        Split::EnterBellEater => should_split(
            !same_text(scenes.old, "Bellway_Centipede_Arena") && same_text(scenes.current, "Bellway_Centipede_Arena"),
        ),
        Split::EnterDestroyedCogworks => should_split(
            (same_text(scenes.old, "Song_Tower_Destroyed") && same_text(scenes.current, "Cog_09_Destroyed"))
                || (same_text(scenes.old, "Song_25") && same_text(scenes.current, "Cog_10_Destroyed")),
        ),
        Split::EnterSeth => {
            should_split(same_text(scenes.old, "Under_27") && same_text(scenes.current, "Shellwood_22"))
        }
        Split::EnterNylethMemory => {
            should_split(same_text(scenes.old, "Shellwood_11b") && same_text(scenes.current, "Shellwood_11b_Memory"))
        }
        Split::EnterKarmelitaMemory => {
            should_split(same_text(scenes.old, "Ant_Queen") && same_text(scenes.current, "Memory_Ant_Queen"))
        }
        Split::EnterVerdaniaMemory => {
            should_split(same_text(scenes.old, "Clover_01") && same_text(scenes.current, "Clover_01b"))
        }
        Split::EnterVerdaniaCastle => {
            should_split(same_text(scenes.old, "Clover_04b") && same_text(scenes.current, "Clover_10"))
        }
        Split::EnterKhannMemory => {
            should_split(same_text(scenes.old, "Coral_Tower_01") && same_text(scenes.current, "Memory_Coral_Tower"))
        }
        Split::EnterRedMemory => {
            should_split(same_text(scenes.old, "Tut_04") && same_text(scenes.current, "Memory_Red"))
        }
        // endregion: MiscTE

        // region: Abyss
        Split::DivingBellAbyssTrans => should_split(
            same_text(scenes.old, "Room_Diving_Bell")
                && has_prefix(scenes.current, "Room_Diving_Bell_Abyss"),
        ),
        Split::EnterAbyss => should_split(
            (same_text(scenes.old, "Abyss_03") && same_text(scenes.current, "Abyss_02"))
                || (same_text(scenes.old, "Abyss_11") && same_text(scenes.current, "Abyss_02b")),
        ),
        Split::LastDiveTrans => {
            should_split(same_text(scenes.old, "Abyss_05") && same_text(scenes.current, "Last_Dive"))
        }
        // endregion: Abyss

        // else
        _ => should_split(false),
    }
}

pub fn transition_once_splits<M: GameMemory>(split: &Split, scenes: &Pair<&str>, m: &M) -> (r: SplitterAction)
    ensures
        r == SplitterAction::Split || r == SplitterAction::Pass,
        *split != Split::Act1Start ==> r == SplitterAction::Pass,
{
    match split {
        // region: Start, End, and Menu
        Split::Act1Start => should_split(
            same_text(scenes.current, "Tut_01")
                && (is_opening_scene(scenes.old)
                    || (same_text(scenes.old, MENU_TITLE)
                        && same_text(m.text(Text::EntryGateName).as_str(), DEATH_RESPAWN_MARKER_INIT)))
                && match m.flag(Flag::DisablePause) { Some(d) => !d, None => false }
                && match m.game_state() { Some(s) => s == GAME_STATE_PLAYING, None => false },
        ),

        // else
        _ => should_split(false),
    }
}

fn mask_shard_split<M: GameMemory>(m: &M, shard: i32) -> bool
    requires
        0 <= shard <= 64,
{
    let current_shards = shard % 4;
    let additional_masks = shard / 4;

    (match m.number(Number::MaxHealthBase) {
        Some(n) => START_MASKS + additional_masks == n,
        None => false,
    }) && (match m.number(Number::HeartPieces) {
        Some(n) => n == current_shards,
        None => false,
    })
}

fn spool_shard_split<M: GameMemory>(m: &M, shard: i32) -> bool
    requires
        0 <= shard <= 64,
{
    let current_shards = shard % 2;
    let additional_spools = shard / 2;

    (match m.number(Number::SilkMax) {
        Some(n) => START_SPOOLS + additional_spools == n,
        None => false,
    }) && (match m.number(Number::SilkSpoolParts) {
        Some(n) => n == current_shards,
        None => false,
    })
}

pub fn continuous_splits<M: GameMemory>(split: &Split, m: &M, store: &mut Store) -> (r: SplitterAction)
    ensures
        *split == Split::ManualSplit ==> r == SplitterAction::ManualSplit,
        *split != Split::ManualSplit ==> r == SplitterAction::Split || r == SplitterAction::Pass,
{
    match split {
        // region: Start, End, and Menu
        Split::ManualSplit => SplitterAction::ManualSplit,
        Split::BenchAny => should_split(
            match store.get_bool_pair_bang("at_bench", AT_BENCH, m.snapshot()) { Some(p) => p.changed_to(&true), None => false },
        ),
        Split::PlayerDeath => should_split(
            match store.get_i32_pair_bang("health", HEALTH, m.snapshot()) { Some(p) => p.changed_to(&0), None => false },
        ),
        // endregion: Start, End, and Menu

        // region: MossLands
        Split::MossMother => should_split(flag_set(m, Flag::DefeatedMossMother)),
        Split::SilkSpear => should_split(flag_set(m, Flag::HasNeedleThrow)),
        Split::BoneBottomSimpleKey => {
            should_split(flag_set(m, Flag::HasBonebottomSimpleKey))
        }
        // endregion: MossLands

        // region: Marrow
        Split::BellBeast => should_split(flag_set(m, Flag::DefeatedBellBeast)),
        Split::MarrowBell => {
            should_split(flag_set(m, Flag::BellShrineBoneForest))
        }
        // endregion: Marrow

        // region: DeepDocks
        Split::SwiftStep => should_split(flag_set(m, Flag::HasDash)),
        Split::Lace1 => should_split(flag_set(m, Flag::DefeatedLace1)),
        Split::DeepDocksBell => should_split(flag_set(m, Flag::BellShrineWilds)),
        // endregion: DeepDocks

        // region: Wormways
        Split::Sharpdart => should_split(flag_set(m, Flag::HasSilkCharge)),
        // endregion: Wormways

        // region: FarFields
        Split::DriftersCloak => should_split(flag_set(m, Flag::HasBrolly)),
        Split::FourthChorus => should_split(flag_set(m, Flag::DefeatedSongGolem)),
        Split::GurrTheOutcastEncountered => {
            should_split(flag_set(m, Flag::EncounteredAntTrapper))
        }
        Split::GurrTheOutcast => {
            should_split(flag_set(m, Flag::DefeatedAntTrapper))
        }
        // endregion: FarFields

        // region: Greymoor
        Split::GreymoorBell => {
            should_split(flag_set(m, Flag::BellShrineGreymoor))
        }
        Split::Moorwing => should_split(
            flag_set(m, Flag::DefeatedVampireGnatBoss),
        ),
        Split::ThreadStorm => should_split(flag_set(m, Flag::HasThreadSphere)),
        // endregion: Greymoor

        // region: WispThicket
        Split::FatherOfTheFlame => {
            should_split(flag_set(m, Flag::DefeatedWispPyreEffigy))
        }
        // endregion: WispThicket

        // region: Shellwood
        Split::ClingGrip => should_split(flag_set(m, Flag::HasWallJump)),
        Split::ShellwoodBell => {
            should_split(flag_set(m, Flag::BellShrineShellwood))
        }
        // endregion: Shellwood

        // region: Bellhart
        Split::Widow => should_split(flag_set(m, Flag::SpinnerDefeated)),
        Split::MenuNeedolinMemory => {
            store.get_string_bang("respawn_scene", RESPAWN_SCENE, m.snapshot());
            should_split(false)
        }
        Split::BellhartBell => {
            should_split(flag_set(m, Flag::BellShrineBellhart))
        }
        // endregion: Bellhart

        // region: BlastedSteps
        Split::NeedleStrike => should_split(flag_set(m, Flag::HasChargeSlash)),
        Split::GreatConchflies => {
            should_split(flag_set(m, Flag::DefeatedCoralDrillers))
        }
        Split::LastJudgeEncountered => {
            should_split(flag_set(m, Flag::EncounteredLastJudge))
        }
        Split::LastJudge => should_split(flag_set(m, Flag::DefeatedLastJudge)),
        // endregion: BlastedSteps

        // region: SinnersRoad
        Split::Lugoli => should_split(
            flag_set(m, Flag::DefeatedRoachKeeperChef),
        ),
        // endregion: SinnersRoad

        // region: Bilewater
        Split::Phantom => should_split(flag_set(m, Flag::DefeatedPhantom)),
        Split::CrossStitch => should_split(flag_set(m, Flag::HasParry)),
        // endregion: Bilewater

        // region: TheSlab
        Split::SlabKeyIndolent => should_split(flag_set(m, Flag::HasSlabKeyA)),
        Split::SlabKeyHeretic => should_split(flag_set(m, Flag::HasSlabKeyB)),
        Split::SlabKeyApostate => should_split(flag_set(m, Flag::HasSlabKeyC)),
        Split::Broodmother => {
            should_split(flag_set(m, Flag::DefeatedBroodMother))
        }
        Split::FirstSinnerEncountered => {
            should_split(flag_set(m, Flag::EncounteredFirstWeaver))
        }
        Split::FirstSinner => {
            should_split(flag_set(m, Flag::DefeatedFirstWeaver))
        }
        Split::RuneRage => should_split(flag_set(m, Flag::HasSilkBomb)),
        // endregion: TheSlab

        // region: MountFay
        Split::FaydownCloak => should_split(flag_set(m, Flag::HasDoubleJump)),
        // endregion: MountFay

        // region: SandsOfKarak
        Split::RagingConchfly => should_split(
            flag_set(m, Flag::DefeatedCoralDrillerSolo),
        ),
        Split::Voltvyrm => should_split(flag_set(m, Flag::DefeatedZapCoreEnemy)),
        Split::WatcherAtTheEdge => {
            should_split(flag_set(m, Flag::DefeatedGreyWarrior))
        }
        // endregion: SandsOfKarak

        // region: Acts
        Split::Act2Started => should_split(flag_set(m, Flag::Act2Started)),
        // endregion: Acts

        // region: CogworkCore
        Split::CogworkDancersEncountered => should_split(
            flag_set(m, Flag::EncounteredCogworkDancers),
        ),
        Split::CogworkDancers => {
            should_split(flag_set(m, Flag::DefeatedCogworkDancers))
        }
        Split::SecondSentinelAwoken => {
            should_split(flag_set(m, Flag::WokeSongChevalier))
        }
        // endregion: CogworkCore

        // region: WhisperingVaults
        Split::WhisperingVaultsArena => should_split(
            flag_set(m, Flag::CompletedLibraryEntryBattle),
        ),
        // endregion: WhisperingVaults

        // region: ChoralChambers
        Split::MetMergwin => should_split(flag_set(m, Flag::MetGourmandServant)),
        Split::DeliveredCouriersRasher => {
            should_split(flag_set(m, Flag::GourmandGivenMeat))
        }
        Split::GreatTasteReward => {
            should_split(flag_set(m, Flag::GotGourmandReward))
        }
        Split::Trobbio => should_split(flag_set(m, Flag::DefeatedTrobbio)),
        //endregion: ChoralChambers

        // region: Underworks
        Split::Clawline => should_split(flag_set(m, Flag::HasHarpoonDash)),
        //endregion: Underworks

        // region: HighHalls
        Split::HighHallsArena => should_split(flag_set(m, Flag::Hang04Battle)),
        Split::SecondSentinelBossEncountered => should_split(
            flag_set(m, Flag::EncounteredSongChevalierBoss),
        ),
        Split::SecondSentinel => should_split(
            flag_set(m, Flag::DefeatedSongChevalierBoss),
        ),
        //endregion: HighHalls

        // region: Whiteward
        Split::CollectedWhitewardKey => {
            should_split(flag_set(m, Flag::CollectedWardKey))
        }
        Split::CollectedSurgeonsKey => {
            should_split(flag_set(m, Flag::CollectedWardBossKey))
        }
        Split::TheUnravelledEncountered => {
            should_split(flag_set(m, Flag::WardBossEncountered))
        }
        Split::TheUnravelled => should_split(flag_set(m, Flag::WardBossDefeated)),
        // endregion: Whiteward

        // region: PutrifiedDucts
        Split::FleaFestivalBegin => {
            should_split(flag_set(m, Flag::FleaGamesStarted))
        }
        Split::FleaFestivalEnd => should_split(flag_set(m, Flag::FleaGamesEnded)),
        // endregion: PutrifiedDucts

        // region: TheCradle
        Split::Lace2 => should_split(flag_set(m, Flag::DefeatedLaceTower)),
        Split::PaleNails => should_split(flag_set(m, Flag::HasSilkBossNeedle)),
        // endregion: TheCradle

        // region: ThreefoldMelody
        Split::VaultkeepersMelody => {
            should_split(flag_set(m, Flag::HasMelodyLibrarian))
        }
        Split::ArchitectsMelody => {
            should_split(flag_set(m, Flag::HasMelodyArchitect))
        }
        Split::ConductorsMelody => {
            should_split(flag_set(m, Flag::HasMelodyConductor))
        }
        Split::UnlockedMelodyLift => {
            should_split(flag_set(m, Flag::UnlockedMelodyLift))
        }
        // endregion: ThreefoldMelody

        // region: NeedleUpgrade
        Split::NeedleUpgrade1 => {
            should_split(match m.number(Number::NailUpgrades) { Some(n) => n >= 1, None => false })
        }
        Split::NeedleUpgrade2 => {
            should_split(match m.number(Number::NailUpgrades) { Some(n) => n >= 2, None => false })
        }
        Split::NeedleUpgrade3 => {
            should_split(match m.number(Number::NailUpgrades) { Some(n) => n >= 3, None => false })
        }
        Split::NeedleUpgrade4 => {
            should_split(match m.number(Number::NailUpgrades) { Some(n) => n >= 4, None => false })
        }
        // endregion: NeedleUpgrade

        // region: MaskShards
        Split::MaskShard1 => should_split(mask_shard_split(m, 1)),
        Split::MaskShard2 => should_split(mask_shard_split(m, 2)),
        Split::MaskShard3 => should_split(mask_shard_split(m, 3)),
        Split::Mask1 => should_split(mask_shard_split(m, 4)),
        Split::MaskShard5 => should_split(mask_shard_split(m, 5)),
        Split::MaskShard6 => should_split(mask_shard_split(m, 6)),
        Split::MaskShard7 => should_split(mask_shard_split(m, 7)),
        Split::Mask2 => should_split(mask_shard_split(m, 8)),
        Split::MaskShard9 => should_split(mask_shard_split(m, 9)),
        Split::MaskShard10 => should_split(mask_shard_split(m, 10)),
        Split::MaskShard11 => should_split(mask_shard_split(m, 11)),
        Split::Mask3 => should_split(mask_shard_split(m, 12)),
        Split::MaskShard13 => should_split(mask_shard_split(m, 13)),
        Split::MaskShard14 => should_split(mask_shard_split(m, 14)),
        Split::MaskShard15 => should_split(mask_shard_split(m, 15)),
        Split::Mask4 => should_split(mask_shard_split(m, 16)),
        Split::MaskShard17 => should_split(mask_shard_split(m, 17)),
        Split::MaskShard18 => should_split(mask_shard_split(m, 18)),
        Split::MaskShard19 => should_split(mask_shard_split(m, 19)),
        Split::Mask5 => should_split(mask_shard_split(m, 20)),
        // endregion: MaskShards

        // region: SpoolFragments
        Split::SpoolFragment1 => should_split(spool_shard_split(m, 1)),
        Split::Spool1 => should_split(spool_shard_split(m, 2)),
        Split::SpoolFragment3 => should_split(spool_shard_split(m, 3)),
        Split::Spool2 => should_split(spool_shard_split(m, 4)),
        Split::SpoolFragment5 => should_split(spool_shard_split(m, 5)),
        Split::Spool3 => should_split(spool_shard_split(m, 6)),
        Split::SpoolFragment7 => should_split(spool_shard_split(m, 7)),
        Split::Spool4 => should_split(spool_shard_split(m, 8)),
        Split::SpoolFragment9 => should_split(spool_shard_split(m, 9)),
        Split::Spool5 => should_split(spool_shard_split(m, 10)),
        Split::SpoolFragment11 => should_split(spool_shard_split(m, 11)),
        Split::Spool6 => should_split(spool_shard_split(m, 12)),
        Split::SpoolFragment13 => should_split(spool_shard_split(m, 13)),
        Split::Spool7 => should_split(spool_shard_split(m, 14)),
        Split::SpoolFragment15 => should_split(spool_shard_split(m, 15)),
        Split::Spool8 => should_split(spool_shard_split(m, 16)),
        Split::SpoolFragment17 => should_split(spool_shard_split(m, 17)),
        Split::Spool9 => should_split(spool_shard_split(m, 18)),
        // endregion SpoolFragments

        // region: ToolPouchLevels
        Split::ToolPouch1 => should_split(
            match m.number(Number::ToolPouchUpgrades) { Some(n) => n == 1, None => false },
        ),
        Split::ToolPouch2 => should_split(
            match m.number(Number::ToolPouchUpgrades) { Some(n) => n == 2, None => false },
        ),
        Split::ToolPouch3 => should_split(
            match m.number(Number::ToolPouchUpgrades) { Some(n) => n == 3, None => false },
        ),
        Split::ToolPouch4 => should_split(
            match m.number(Number::ToolPouchUpgrades) { Some(n) => n == 4, None => false },
        ),
        // endregion: ToolPouchLevels

        // region: CraftingKitLevels
        Split::CraftingKit1 => {
            should_split(match m.number(Number::ToolKitUpgrades) { Some(n) => n == 1, None => false })
        }
        Split::CraftingKit2 => {
            should_split(match m.number(Number::ToolKitUpgrades) { Some(n) => n == 2, None => false })
        }
        Split::CraftingKit3 => {
            should_split(match m.number(Number::ToolKitUpgrades) { Some(n) => n == 3, None => false })
        }
        Split::CraftingKit4 => {
            should_split(match m.number(Number::ToolKitUpgrades) { Some(n) => n == 4, None => false })
        }
        // endregion: CraftingKitLevels

        // region: Crests
        Split::ReaperCrest => {
            should_split(flag_set(m, Flag::CompletedMemoryReaper))
        }
        Split::WandererCrest => {
            should_split(flag_set(m, Flag::CompletedMemoryWanderer))
        }
        Split::BeastCrest => {
            should_split(flag_set(m, Flag::CompletedMemoryBeast))
        }
        Split::ArchitectCrest => should_split(
            flag_set(m, Flag::CompletedMemoryToolmaster),
        ),
        Split::CurseCrest => {
            should_split(flag_set(m, Flag::CompletedMemoryWitch))
        }
        Split::GainedCurse => should_split(flag_set(m, Flag::GainedCurse)),
        Split::WitchCrest => should_split(
            flag_set(m, Flag::BelltownDoctorCuredCurse),
        ),
        Split::ShamanCrest => {
            should_split(flag_set(m, Flag::CompletedMemoryShaman))
        }
        Split::HunterCrestEvo1 => {
            let crest = m.text(Text::CurrentCrestId);
            should_split(same_text(crest.as_str(), "Hunter_v2"))
        }
        Split::HunterCrestEvo2 => {
            let crest = m.text(Text::CurrentCrestId);
            should_split(same_text(crest.as_str(), "Hunter_v3"))
        }
        Split::VesticrestYellowSlot => should_split(
            flag_set(m, Flag::UnlockedExtraYellowSlot),
        ),
        Split::VesticrestBlueSlot => {
            should_split(flag_set(m, Flag::UnlockedExtraBlueSlot))
        }
        Split::Sylphsong => {
            should_split(flag_set(m, Flag::HasBoundCrestUpgrader))
        }
        // endregion: Crests

        // region: FleaSpecific
        Split::SavedFleaHuntersMarch => {
            should_split(flag_set(m, Flag::SavedfleaAnt03))
        }
        Split::SavedFleaBellhart => {
            should_split(flag_set(m, Flag::SavedfleaBelltown04))
        }
        Split::SavedFleaMarrow => {
            should_split(flag_set(m, Flag::SavedfleaBone06))
        }
        Split::SavedFleaDeepDocksSprint => {
            should_split(flag_set(m, Flag::SavedfleaBoneEast05))
        }
        Split::SavedFleaFarFieldsPilgrimsRest => should_split(
            flag_set(m, Flag::SavedfleaBoneEast10Church),
        ),
        Split::SavedFleaFarFieldsTrap => {
            should_split(flag_set(m, Flag::SavedfleaBoneEast17b))
        }
        Split::SavedFleaSandsOfKarak => {
            should_split(flag_set(m, Flag::SavedfleaCoral24))
        }
        Split::SavedFleaBlastedSteps => {
            should_split(flag_set(m, Flag::SavedfleaCoral35))
        }
        Split::SavedFleaWormways => {
            should_split(flag_set(m, Flag::SavedfleaCrawl06))
        }
        Split::SavedFleaDeepDocksArena => {
            should_split(flag_set(m, Flag::SavedfleaDock03d))
        }
        Split::SavedFleaDeepDocksBellway => {
            should_split(flag_set(m, Flag::SavedfleaDock16))
        }
        Split::SavedFleaBilewaterOrgan => {
            should_split(flag_set(m, Flag::SavedfleaDust09))
        }
        Split::SavedFleaSinnersRoad => {
            should_split(flag_set(m, Flag::SavedfleaDust12))
        }
        Split::SavedFleaGreymoorRoof => {
            should_split(flag_set(m, Flag::SavedfleaGreymoor06))
        }
        Split::SavedFleaGreymoorLake => {
            should_split(flag_set(m, Flag::SavedfleaGreymoor15b))
        }
        Split::SavedFleaWhisperingVaults => {
            should_split(flag_set(m, Flag::SavedfleaLibrary01))
        }
        Split::SavedFleaSongclave => {
            should_split(flag_set(m, Flag::SavedfleaLibrary09))
        }
        Split::SavedFleaMountFay => {
            should_split(flag_set(m, Flag::SavedfleaPeak05c))
        }
        Split::SavedFleaBilewaterTrap => {
            should_split(flag_set(m, Flag::SavedfleaShadow10))
        }
        Split::SavedFleaBilewaterThieves => {
            should_split(flag_set(m, Flag::SavedfleaShadow28))
        }
        Split::SavedFleaShellwood => {
            should_split(flag_set(m, Flag::SavedfleaShellwood03))
        }
        Split::SavedFleaSlabBellway => {
            should_split(flag_set(m, Flag::SavedfleaSlab06))
        }
        Split::SavedFleaSlabCage => {
            should_split(flag_set(m, Flag::SavedfleaSlabCell))
        }
        Split::SavedFleaChoralChambersWind => {
            should_split(flag_set(m, Flag::SavedfleaSong11))
        }
        Split::SavedFleaChoralChambersCage => {
            should_split(flag_set(m, Flag::SavedfleaSong14))
        }
        Split::SavedFleaUnderworksCauldron => {
            should_split(flag_set(m, Flag::SavedfleaUnder21))
        }
        Split::SavedFleaUnderworksWispThicket => {
            should_split(flag_set(m, Flag::SavedfleaUnder23))
        }
        Split::SavedFleaGiantFlea => {
            should_split(flag_set(m, Flag::TamedGiantFlea))
        }
        Split::SavedFleaVog => {
            should_split(flag_set(m, Flag::MetTroupeHunterWild))
        }
        Split::SavedFleaKratt => {
            should_split(flag_set(m, Flag::CaravanLechSaved))
        }
        // endregion: FleaSpecific

        // region: Stations (Bellway)
        Split::PutrifiedDuctsStation => {
            should_split(flag_set(m, Flag::UnlockedAqueductStation))
        }
        Split::BellhartStation => {
            should_split(flag_set(m, Flag::UnlockedBelltownStation))
        }
        Split::FarFieldsStation => should_split(
            flag_set(m, Flag::UnlockedBoneforestEastStation),
        ),
        Split::GrandBellwayStation => {
            should_split(flag_set(m, Flag::UnlockedCityStation))
        }
        Split::BlastedStepsStation => should_split(
            flag_set(m, Flag::UnlockedCoralTowerStation),
        ),
        Split::DeepDocksStation => {
            should_split(flag_set(m, Flag::UnlockedDocksStation))
        }
        Split::GreymoorStation => {
            should_split(flag_set(m, Flag::UnlockedGreymoorStation))
        }
        Split::SlabStation => {
            should_split(flag_set(m, Flag::UnlockedPeakStation))
        }
        Split::BilewaterStation => {
            should_split(flag_set(m, Flag::UnlockedShadowStation))
        }
        Split::ShellwoodStation => should_split(
            flag_set(m, Flag::UnlockedShellwoodStation),
        ),
        // endregion: Stations (Bellway)

        // region: Ventricas
        Split::ChoralChambersTube => {
            should_split(flag_set(m, Flag::UnlockedSongTube))
        }
        Split::UnderworksTube => {
            should_split(flag_set(m, Flag::UnlockedUnderTube))
        }
        Split::GrandBellwayTube => should_split(
            flag_set(m, Flag::UnlockedCityBellwayTube),
        ),
        Split::HighHallsTube => should_split(flag_set(m, Flag::UnlockedHangTube)),
        Split::SongclaveTube => {
            should_split(flag_set(m, Flag::UnlockedEnclaveTube))
        }
        Split::MemoriumTube => {
            should_split(flag_set(m, Flag::UnlockedArboriumTube))
        }
        // endregion: Ventricas

        // region: ShakraEncounters
        Split::SeenShakraBonebottom => {
            should_split(flag_set(m, Flag::SeenMapperBonetown))
        }
        Split::SeenShakraMarrow => {
            should_split(flag_set(m, Flag::SeenMapperBoneForest))
        }
        Split::SeenShakraDeepDocks => {
            should_split(flag_set(m, Flag::SeenMapperDocks))
        }
        Split::SeenShakraFarFields => {
            should_split(flag_set(m, Flag::SeenMapperWilds))
        }
        Split::SeenShakraWormways => {
            should_split(flag_set(m, Flag::SeenMapperCrawl))
        }
        Split::SeenShakraGreymoor => {
            should_split(flag_set(m, Flag::SeenMapperGreymoor))
        }
        Split::SeenShakraBellhart => {
            should_split(flag_set(m, Flag::SeenMapperBellhart))
        }
        Split::SeenShakraShellwood => {
            should_split(flag_set(m, Flag::SeenMapperShellwood))
        }
        Split::SeenShakraHuntersMarch => {
            should_split(flag_set(m, Flag::SeenMapperHuntersNest))
        }
        Split::SeenShakraBlastedSteps => {
            should_split(flag_set(m, Flag::SeenMapperJudgeSteps))
        }
        Split::SeenShakraSinnersRoad => {
            should_split(flag_set(m, Flag::SeenMapperDustpens))
        }
        Split::SeenShakraMountFay => {
            should_split(flag_set(m, Flag::SeenMapperPeak))
        }
        Split::SeenShakraBilewater => {
            should_split(flag_set(m, Flag::SeenMapperShadow))
        }
        Split::SeenShakraSandsOfKarak => {
            should_split(flag_set(m, Flag::SeenMapperCoralCaverns))
        }
        Split::ShakraMapBuyout => {
            // iterate over maps in reverse shop order to fail out as quickly as possible
            let maps = [
                Flag::HasSwampMap,
                Flag::HasCoralMap,
                Flag::HasPeakMap,
                Flag::HasDustpensMap,
                Flag::HasJudgeStepsMap,
                Flag::HasShellwoodMap,
                Flag::HasBellhartMap,
                Flag::HasGreymoorMap,
                Flag::HasHuntersNestMap,
                Flag::HasCrawlMap,
                Flag::HasWildsMap,
                Flag::HasDocksMap,
                Flag::HasBoneforestMap,
                Flag::HasMossGrottoMap,
            ];
            should_split(all_set(m, &maps))
        }
        // endregion: ShakraEncounters

        // region: MiscTE
        Split::MetJubilanaEnclave => {
            should_split(flag_set(m, Flag::MetCityMerchantEnclave))
        }
        Split::MetShermaEnclave => {
            should_split(flag_set(m, Flag::MetShermaEnclave))
        }
        Split::UnlockedPrinceCage => {
            should_split(flag_set(m, Flag::UnlockedDustCage))
        }
        Split::GreenPrinceInVerdania => should_split(
            match m.number(Number::GreenPrinceLocation) { Some(n) => n == 3, None => false },
        ),
        Split::SeenFleatopiaEmpty => {
            should_split(flag_set(m, Flag::SeenFleatopiaEmpty))
        }
        Split::BeastlingCall => {
            should_split(flag_set(m, Flag::HasFastTravelTeleport))
        }
        Split::SilkSoar => should_split(flag_set(m, Flag::HasSuperJump)),
        Split::ElegyOfTheDeep => should_split(
            flag_set(m, Flag::HasNeedolinMemoryPowerup),
        ),
        Split::NylethEncountered => {
            should_split(flag_set(m, Flag::EncounteredFlowerQueen))
        }
        Split::Nyleth => should_split(flag_set(m, Flag::DefeatedFlowerQueen)),
        Split::HeartNyleth => {
            should_split(flag_set(m, Flag::CollectedHeartFlower))
        }
        Split::KhannEncountered => {
            should_split(flag_set(m, Flag::EncounteredCoralKing))
        }
        Split::CrustKingKhann => {
            should_split(flag_set(m, Flag::DefeatedCoralKing))
        }
        Split::HeartKhann => should_split(flag_set(m, Flag::CollectedHeartCoral)),
        Split::SkarrsingerKarmelita => {
            should_split(flag_set(m, Flag::DefeatedAntQueen))
        }
        Split::HeartKarmelita => {
            should_split(flag_set(m, Flag::CollectedHeartHunter))
        }
        Split::Palestag => {
            should_split(flag_set(m, Flag::DefeatedWhiteCloverstag))
        }
        Split::CloverDancersEncountered => should_split(
            flag_set(m, Flag::EncounteredCloverDancers),
        ),
        Split::CloverDancers => {
            should_split(flag_set(m, Flag::DefeatedCloverDancers))
        }
        Split::HeartClover => {
            should_split(flag_set(m, Flag::CollectedHeartClover))
        }
        Split::RedMemory => should_split(flag_set(m, Flag::CompletedRedMemory)),
        Split::BellhouseKeyConversation => should_split(
            flag_set(m, Flag::BelltownGreeterHouseFullDlg),
        ),
        Split::VerdaniaLakeFountainOrbs => {
            should_split(flag_set(m, Flag::SummonedLakeOrbs))
        }
        Split::VerdaniaOrbsCollected => {
            let singles = [
                Flag::Orbs02c,
                Flag::Orbs03,
                Flag::Orbs06,
                Flag::Orbs11,
                Flag::Orbs16B,
                Flag::Orbs16C,
                Flag::Orbs21,
            ];
            let multis = [
                Bits::Orbs18A,
                Bits::Orbs18B,
                Bits::Orbs18C,
                Bits::Orbs18D,
                Bits::Orbs18E,
                Bits::Orbs19,
            ];
            should_split(count_set(m, &singles) + count_bits(m, &multis) >= 12)
        }
        Split::Forebrothers => {
            should_split(flag_set(m, Flag::DefeatedDockForemen))
        }
        Split::Groal => should_split(flag_set(m, Flag::DefeatedSwampShaman)),
        Split::SavageBeastfly1 => {
            should_split(flag_set(m, Flag::DefeatedBoneFlyerGiant))
        }
        Split::SavageBeastfly2 => should_split(
            flag_set(m, Flag::DefeatedBoneFlyerGiantGolemScene),
        ),
        Split::CaravanTroupeGreymoor => should_split(
            match m.number(Number::CaravanTroupeLocation) { Some(n) => n >= 1, None => false },
        ),
        Split::CaravanTroupeBlastedSteps => should_split(
            match m.number(Number::CaravanTroupeLocation) { Some(n) => n >= 2, None => false },
        ),
        Split::CaravanTroupeFleatopia => should_split(
            match m.number(Number::CaravanTroupeLocation) { Some(n) => n >= 3, None => false },
        ),
        Split::SoldRelic => should_split(
            flag_set(m, Flag::BelltownRelicDealerGaveRelic),
        ),
        Split::PavoTimePassed => should_split(
            flag_set(m, Flag::BelltownGreeterMetTimePassed),
        ),
        Split::SongclaveBell => {
            should_split(flag_set(m, Flag::BellShrineEnclave))
        }
        Split::SkullTyrant1 => should_split(flag_set(m, Flag::SkullKingDefeated)),
        Split::ShermaReturned => {
            should_split(flag_set(m, Flag::ShermaHealerActive))
        }
        Split::JubilanaRescuedMemorium => {
            should_split(flag_set(m, Flag::EnclaveMerchantSaved))
        }
        Split::JubilanaRescuedChoralChambers => {
            should_split(flag_set(m, Flag::CityMerchantSaved))
        }
        Split::SilkAndSoulOffered => should_split(
            flag_set(m, Flag::CaretakerOfferedSnareQuest),
        ),
        Split::SoulSnareReady => should_split(flag_set(m, Flag::SoulSnareReady)),
        Split::DestroyedCogworksVoidArena => should_split(
            flag_set(m, Flag::CompletedCog10AbyssBattle),
        ),
        Split::Seth => should_split(flag_set(m, Flag::DefeatedSeth)),
        Split::BallowMoved => should_split(
            flag_set(m, Flag::BallowMovedToDivingBell),
        ),
        Split::Act3Started => should_split(flag_set(m, Flag::BlackThreadWorld)),
        // endregion: MiscTE

        // region: Abyss
        Split::AbyssEscape => {
            should_split(flag_set(m, Flag::CompletedAbyssAscent))
        }
        Split::LostLaceEncountered => {
            should_split(flag_set(m, Flag::EncounteredLostLace))
        }
        // endregion: Abyss

        // region Tools
        Split::StraightPin => should_split(m.has_tool(store, "Straight Pin")),
        Split::ThreefoldPin => should_split(m.has_tool(store, "Tri Pin")),
        Split::StingShard => should_split(m.has_tool(store, "Sting Shard")),
        Split::Tacks => should_split(m.has_tool(store, "Tack")),
        Split::Longpin => should_split(m.has_tool(store, "Harpoon")),
        Split::Curveclaw => should_split(m.has_tool(store, "Curve Claws")),
        Split::Curvesickle => should_split(m.has_tool(store, "Curve Claws Upgraded")),
        Split::ThrowingRing => should_split(m.has_tool(store, "Shakra Ring")),
        Split::Pimpillo => should_split(m.has_tool(store, "Pimpilo")),
        Split::Conchcutter => should_split(m.has_tool(store, "Conch Drill")),
        Split::SilkshotForge => should_split(m.has_tool(store, "WebShot Forge")),
        Split::SilkshotArchitect => should_split(m.has_tool(store, "WebShot Architect")),
        Split::SilkshotWeaver => should_split(m.has_tool(store, "WebShot Weaver")),
        Split::DelversDrill => should_split(m.has_tool(store, "Screw Attack")),
        Split::CogworkWheel => should_split(m.has_tool(store, "Cogwork Saw")),
        Split::Cogfly => should_split(m.has_tool(store, "Cogwork Flier")),
        Split::RosaryCannon => should_split(m.has_tool(store, "Rosary Cannon")),
        Split::Voltvessels => should_split(m.has_tool(store, "Lightning Rod")),
        Split::Flintslate => should_split(m.has_tool(store, "Flintstone")),
        Split::SnareSetter => should_split(m.has_tool(store, "Silk Snare")),
        Split::FleaBrew => should_split(m.has_tool(store, "Flea Brew")),
        Split::PlasmiumPhial => should_split(m.has_tool(store, "Lifeblood Syringe")),
        Split::NeedlePhial => should_split(m.has_tool(store, "Extractor")),
        Split::DruidsEye => should_split(m.has_tool(store, "Mosscreep Tool 1")),
        Split::DruidsEyes => should_split(m.has_tool(store, "Mosscreep Tool 2")),
        Split::MagmaBell => should_split(m.has_tool(store, "Lava Charm")),
        Split::WardingBell => should_split(m.has_tool(store, "Bell Bind")),
        Split::PollipPouch => should_split(m.has_tool(store, "Poison Pouch")),
        Split::FracturedMask => should_split(m.has_tool(store, "Fractured Mask")),
        Split::Multibinder => should_split(m.has_tool(store, "Multibind")),
        Split::Weavelight => should_split(m.has_tool(store, "White Ring")),
        Split::SawtoothCirclet => should_split(m.has_tool(store, "Brolly Spike")),
        Split::InjectorBand => should_split(m.has_tool(store, "Quickbind")),
        Split::SpoolExtender => should_split(m.has_tool(store, "Spool Extender")),
        Split::ReserveBind => should_split(m.has_tool(store, "Reserve Bind")),
        Split::ClawMirror => should_split(m.has_tool(store, "Dazzle Bind")),
        Split::ClawMirrors => should_split(m.has_tool(store, "Dazzle Bind Upgraded")),
        Split::MemoryCrystal => should_split(m.has_tool(store, "Revenge Crystal")),
        Split::SnitchPick => should_split(m.has_tool(store, "Thief Claw")),
        Split::VoltFilament => should_split(m.has_tool(store, "Zap Imbuement")),
        Split::QuickSling => should_split(m.has_tool(store, "Quick Sling")),
        Split::WreathofPurity => should_split(m.has_tool(store, "Maggot Charm")),
        Split::Longclaw => should_split(m.has_tool(store, "Longneedle")),
        Split::WispfireLantern => should_split(m.has_tool(store, "Wisp Lantern")),
        Split::EggofFlealia => should_split(m.has_tool(store, "Flea Charm")),
        Split::PinBadge => should_split(m.has_tool(store, "Pinstress Tool")),
        Split::Compass => should_split(m.has_tool(store, "Compass")),
        Split::ShardPendant => should_split(m.has_tool(store, "Bone Necklace")),
        Split::MagnetiteBrooch => should_split(m.has_tool(store, "Rosary Magnet")),
        Split::WeightedBelt => should_split(m.has_tool(store, "Weighted Anklet")),
        Split::BarbedBracelet => should_split(m.has_tool(store, "Barbed Wire")),
        Split::DeadBugsPurse => should_split(m.has_tool(store, "Dead Mans Purse")),
        Split::ShellSatchel => should_split(m.has_tool(store, "Shell Satchel")),
        Split::MagnetiteDice => should_split(m.has_tool(store, "Magnetite Dice")),
        Split::Scuttlebrace => should_split(m.has_tool(store, "Scuttlebrace")),
        Split::AscendantsGrip => should_split(m.has_tool(store, "Wallcling")),
        Split::SpiderStrings => should_split(m.has_tool(store, "Musician Charm")),
        Split::SilkspeedAnklets => should_split(m.has_tool(store, "Sprintmaster")),
        Split::ThiefsMark => should_split(m.has_tool(store, "Thief Charm")),
        // endregion Tools

        // else
        _ => should_split(false),
    }
}

/// The configured list of milestones, read against the game.
pub struct Catalog<'a, M> {
    pub splits: &'a [Split],
    pub memory: &'a M,
}

impl<'a, M> Catalog<'a, M> {
    /// The milestone at `index`, if configured.
    pub fn get(&self, index: u64) -> (r: Option<Split>)
        ensures
            (index as int) < self.splits@.len() ==> r == Some(self.splits@[index as int]),
            (index as int) >= self.splits@.len() ==> r is None,
    {
        if index < self.splits.len() as u64 {
            Some(self.splits[index as usize])
        } else {
            None
        }
    }
}

impl<'a, M: GameMemory> SplitTable for Catalog<'a, M> {
    fn continuous(&mut self, index: u64, store: &mut Store) -> SplitterAction {
        match self.get(index) {
            Some(s) => continuous_splits(&s, self.memory, store),
            None => SplitterAction::Pass,
        }
    }

    fn transition_once(&mut self, index: u64, scenes: &Pair<&str>) -> SplitterAction {
        match self.get(index) {
            Some(s) => transition_once_splits(&s, scenes, self.memory),
            None => SplitterAction::Pass,
        }
    }

    fn menu(&mut self, index: u64, scenes: &Pair<&str>, store: &mut Store) -> SplitterAction {
        match self.get(index) {
            Some(s) => menu_splits(&s, scenes, self.memory, store),
            None => SplitterAction::Pass,
        }
    }

    fn transition(&mut self, index: u64, scenes: &Pair<&str>) -> SplitterAction {
        match self.get(index) {
            Some(s) => transition_splits(&s, scenes, self.memory),
            None => SplitterAction::Pass,
        }
    }
}

} // verus!
