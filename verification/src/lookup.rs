//! The closed vocabularies of the target language: which set names and
//! icon names exist, and what each resolves to. A name outside a vocabulary
//! is an error, never a default.

use vstd::prelude::*;
use vstd::string::*;
use crate::text::str_eq;

verus! {

/// The vocabulary that a name was looked up in.
#[derive(Clone, Copy, Debug, PartialEq, Eq, Structural)]
pub enum Vocabulary {
    Sets,
    Icons,
}

impl Vocabulary {
    /// The field of a card that holds names of this vocabulary.
    pub open spec fn field_text(self) -> Seq<char> {
        match self {
            Vocabulary::Sets => "set"@,
            Vocabulary::Icons => "icons"@,
        }
    }

    /// The field of a card that holds names of this vocabulary.
    pub fn field(self) -> (name: &'static str)
        ensures
            name@ == self.field_text(),
    {
        match self {
            Vocabulary::Sets => "set",
            Vocabulary::Icons => "icons",
        }
    }
}

/// A name that its vocabulary does not hold.
#[derive(Clone, Debug, PartialEq, Eq)]
pub struct LookupMiss {
    pub vocabulary: Vocabulary,
    pub name: String,
}

/// What a [`LookupMiss`] stands for.
pub struct LookupMissModel {
    pub vocabulary: Vocabulary,
    pub name: Seq<char>,
}

impl View for LookupMiss {
    type V = LookupMissModel;

    open spec fn view(&self) -> LookupMissModel {
        LookupMissModel { vocabulary: self.vocabulary, name: self.name@ }
    }
}

/// The table of sets: the symbol that a set's display name resolves to, or
/// `None` for a name that is not a set's.
pub open spec fn set_symbol(name: Seq<char>) -> Option<Seq<char>> {
    if name == "Core"@ {
        Some("Set_Core"@)
    } else if name == "Kings of the Sea"@ {
        Some("Set_KingsOfTheSea"@)
    } else if name == "Princes of the Sun"@ {
        Some("Set_PrincesOfTheSun"@)
    } else if name == "Lords of Winter"@ {
        Some("Set_LordsOfWinter"@)
    } else if name == "Kings of the Storm"@ {
        Some("Set_KingsOfTheStorm"@)
    } else if name == "Queen of Dragons"@ {
        Some("Set_QueenOfDragons"@)
    } else if name == "Lions of the Rock"@ {
        Some("Set_LionsOfTheRock"@)
    } else if name == "The War of Five Kings"@ {
        Some("Set_TheWarOfTheFiveKings"@)
    } else if name == "Ancient Enemies"@ {
        Some("Set_AncientEnemies"@)
    } else if name == "Sacred Bonds"@ {
        Some("Set_SacredBonds"@)
    } else if name == "Epic Battles"@ {
        Some("Set_EpicBattles"@)
    } else if name == "Battle of Ruby Ford"@ {
        Some("Set_BattleOfRubyFord"@)
    } else if name == "Calling the Banners"@ {
        Some("Set_CallingTheBanners"@)
    } else if name == "A Song of Summer"@ {
        Some("Set_ASongOfSummer"@)
    } else if name == "The Winds of Winter"@ {
        Some("Set_TheWindsOfWinter"@)
    } else if name == "A Change of Seasons"@ {
        Some("Set_AChangeOfSeasons"@)
    } else if name == "The Raven's Song"@ {
        Some("Set_TheRavensSong"@)
    } else if name == "Refugees of War"@ {
        Some("Set_RefugeesOfWar"@)
    } else if name == "Scattered Armies"@ {
        Some("Set_ScatteredArmies"@)
    } else if name == "City of Secrets"@ {
        Some("Set_CityOfSecrets"@)
    } else if name == "A Time of Trials"@ {
        Some("Set_ATimeOfTrials"@)
    } else if name == "The Tower of the Hand"@ {
        Some("Set_TheTowerOfTheHand"@)
    } else if name == "Tales from the Red Keep"@ {
        Some("Set_TalesFromTheRedKeep"@)
    } else if name == "Secrets and Spies"@ {
        Some("Set_SecretsAndSpies"@)
    } else if name == "The Battle of Blackwater Bay"@ {
        Some("Set_TheBattleOfBlackwaterBay"@)
    } else if name == "Wolves of the North"@ {
        Some("Set_WolvesOfTheNorth"@)
    } else if name == "Beyond the Wall"@ {
        Some("Set_BeyondTheWall"@)
    } else if name == "A Sword in the Darkness"@ {
        Some("Set_ASwordInTheDarkness"@)
    } else if name == "The Wildling Horde"@ {
        Some("Set_TheWildlingHorde"@)
    } else if name == "A King in the North"@ {
        Some("Set_AKingInTheNorth"@)
    } else if name == "Return of the Others"@ {
        Some("Set_ReturnOfTheOthers"@)
    } else if name == "Illyrio's Gift"@ {
        Some("Set_IllyriosGift"@)
    } else if name == "Rituals of R'hllor"@ {
        Some("Set_RitualsOfRhllor"@)
    } else if name == "Mountains of the Moon"@ {
        Some("Set_MountainsOfTheMoon"@)
    } else if name == "A Song of Silence"@ {
        Some("Set_ASongOfSilence"@)
    } else if name == "Of Snakes and Sand"@ {
        Some("Set_OfSnakesAndSand"@)
    } else if name == "Dreadfort Betrayal"@ {
        Some("Set_DreadfortBetrayal"@)
    } else if name == "Gates of the Citadel"@ {
        Some("Set_GatesOfTheCitadel"@)
    } else if name == "Forging the Chain"@ {
        Some("Set_ForgingTheChain"@)
    } else if name == "Called by the Conclave"@ {
        Some("Set_CalledByTheConclave"@)
    } else if name == "The Isle of Ravens"@ {
        Some("Set_TheIlseOfRavens"@)
    } else if name == "Mask of the Archmaester"@ {
        Some("Set_MaskOfTheArchmaester"@)
    } else if name == "Here to Serve"@ {
        Some("Set_HereToServe"@)
    } else if name == "The Tourney for the Hand"@ {
        Some("Set_TourneyForTheHand"@)
    } else if name == "The Grand Melee"@ {
        Some("Set_TheGrandMelee"@)
    } else if name == "On Dangerous Grounds"@ {
        Some("Set_OnDangerousGrounds"@)
    } else if name == "Where Loyalty Lies"@ {
        Some("Set_WhereLoyaltyLies"@)
    } else if name == "Trial By Combat"@ {
        Some("Set_TrialByCombat"@)
    } else if name == "A Poisoned Spear"@ {
        Some("Set_APoisonedSpear"@)
    } else if name == "Valar Morghulis"@ {
        Some("Set_ValarMorghulis"@)
    } else if name == "Valar Dohaeris"@ {
        Some("Set_ValarDohaeris"@)
    } else if name == "Chasing Dragons"@ {
        Some("Set_ChasingDragons"@)
    } else if name == "A Harsh Mistress"@ {
        Some("Set_AHarshMistress"@)
    } else if name == "The House of Black and White"@ {
        Some("Set_TheHouseOfBlackAndWhite"@)
    } else if name == "A Roll of the Dice"@ {
        Some("Set_ARollOfTheDice"@)
    } else if name == "Reach of the Kraken"@ {
        Some("Set_ReachOfTheKraken"@)
    } else if name == "The Grand Fleet"@ {
        Some("Set_TheGrandFleet"@)
    } else if name == "The Pirates of Lys"@ {
        Some("Set_ThePiratesOfLys"@)
    } else if name == "A Turn of the Tide"@ {
        Some("Set_ATurnOfTheTide"@)
    } else if name == "The Captain's Command"@ {
        Some("Set_TheCaptainsCommand"@)
    } else if name == "A Journey's End"@ {
        Some("Set_AJourneysEnd"@)
    } else if name == "The Banners Gather"@ {
        Some("Set_TheBannersGather"@)
    } else if name == "Fire and Ice"@ {
        Some("Set_FireAndIce"@)
    } else if name == "The Kingsguard"@ {
        Some("Set_TheKingsguard"@)
    } else if name == "The Horn that Wakes"@ {
        Some("Set_TheHornThatWakes"@)
    } else if name == "Forgotten Fellowship"@ {
        Some("Set_ForgottenFellowship"@)
    } else if name == "A Hidden Agenda"@ {
        Some("Set_AHiddenAgenda"@)
    } else if name == "Spoils of War"@ {
        Some("Set_SpoilsOfWar"@)
    } else if name == "The Champion's Purse"@ {
        Some("Set_TheChampionsPurse"@)
    } else if name == "Fire Made Flesh"@ {
        Some("Set_FireMadeFlesh"@)
    } else if name == "Ancestral Home"@ {
        Some("Set_AncestralHome"@)
    } else if name == "The Prize of the North"@ {
        Some("Set_ThePrizeOfTheNorth"@)
    } else if name == "A Dire Message"@ {
        Some("Set_ADireMessage"@)
    } else if name == "Secrets and Schemes"@ {
        Some("Set_SecretsAndSchemes"@)
    } else if name == "A Deadly Game"@ {
        Some("Set_ADeadlyGame"@)
    } else if name == "The Valemen"@ {
        Some("Set_TheValemen"@)
    } else if name == "A Time for Wolves"@ {
        Some("Set_ATimeForWolves"@)
    } else if name == "House of Talons"@ {
        Some("Set_HouseOfTalons"@)
    } else if name == "The Blue is Calling"@ {
        Some("Set_TheBlueIsCalling"@)
    } else {
        None
    }
}

/// Resolves a set's display name to its symbol.
pub fn resolve_set(name: &str) -> (symbol: Result<&'static str, LookupMiss>)
    ensures
        match set_symbol(name@) {
            Some(s) => symbol matches Ok(found) && found@ == s,
            None => symbol matches Err(miss) && miss@ == (LookupMissModel {
                vocabulary: Vocabulary::Sets,
                name: name@,
            }),
        },
{
    if str_eq(name, "Core") {
        Ok("Set_Core")
    } else if str_eq(name, "Kings of the Sea") {
        Ok("Set_KingsOfTheSea")
    } else if str_eq(name, "Princes of the Sun") {
        Ok("Set_PrincesOfTheSun")
    } else if str_eq(name, "Lords of Winter") {
        Ok("Set_LordsOfWinter")
    } else if str_eq(name, "Kings of the Storm") {
        Ok("Set_KingsOfTheStorm")
    } else if str_eq(name, "Queen of Dragons") {
        Ok("Set_QueenOfDragons")
    } else if str_eq(name, "Lions of the Rock") {
        Ok("Set_LionsOfTheRock")
    } else if str_eq(name, "The War of Five Kings") {
        Ok("Set_TheWarOfTheFiveKings")
    } else if str_eq(name, "Ancient Enemies") {
        Ok("Set_AncientEnemies")
    } else if str_eq(name, "Sacred Bonds") {
        Ok("Set_SacredBonds")
    } else if str_eq(name, "Epic Battles") {
        Ok("Set_EpicBattles")
    } else if str_eq(name, "Battle of Ruby Ford") {
        Ok("Set_BattleOfRubyFord")
    } else if str_eq(name, "Calling the Banners") {
        Ok("Set_CallingTheBanners")
    } else if str_eq(name, "A Song of Summer") {
        Ok("Set_ASongOfSummer")
    } else if str_eq(name, "The Winds of Winter") {
        Ok("Set_TheWindsOfWinter")
    } else if str_eq(name, "A Change of Seasons") {
        Ok("Set_AChangeOfSeasons")
    } else if str_eq(name, "The Raven's Song") {
        Ok("Set_TheRavensSong")
    } else if str_eq(name, "Refugees of War") {
        Ok("Set_RefugeesOfWar")
    } else if str_eq(name, "Scattered Armies") {
        Ok("Set_ScatteredArmies")
    } else if str_eq(name, "City of Secrets") {
        Ok("Set_CityOfSecrets")
    } else if str_eq(name, "A Time of Trials") {
        Ok("Set_ATimeOfTrials")
    } else if str_eq(name, "The Tower of the Hand") {
        Ok("Set_TheTowerOfTheHand")
    } else if str_eq(name, "Tales from the Red Keep") {
        Ok("Set_TalesFromTheRedKeep")
    } else if str_eq(name, "Secrets and Spies") {
        Ok("Set_SecretsAndSpies")
    } else if str_eq(name, "The Battle of Blackwater Bay") {
        Ok("Set_TheBattleOfBlackwaterBay")
    } else if str_eq(name, "Wolves of the North") {
        Ok("Set_WolvesOfTheNorth")
    } else if str_eq(name, "Beyond the Wall") {
        Ok("Set_BeyondTheWall")
    } else if str_eq(name, "A Sword in the Darkness") {
        Ok("Set_ASwordInTheDarkness")
    } else if str_eq(name, "The Wildling Horde") {
        Ok("Set_TheWildlingHorde")
    } else if str_eq(name, "A King in the North") {
        Ok("Set_AKingInTheNorth")
    } else if str_eq(name, "Return of the Others") {
        Ok("Set_ReturnOfTheOthers")
    } else if str_eq(name, "Illyrio's Gift") {
        Ok("Set_IllyriosGift")
    } else if str_eq(name, "Rituals of R'hllor") {
        Ok("Set_RitualsOfRhllor")
    } else if str_eq(name, "Mountains of the Moon") {
        Ok("Set_MountainsOfTheMoon")
    } else if str_eq(name, "A Song of Silence") {
        Ok("Set_ASongOfSilence")
    } else if str_eq(name, "Of Snakes and Sand") {
        Ok("Set_OfSnakesAndSand")
    } else if str_eq(name, "Dreadfort Betrayal") {
        Ok("Set_DreadfortBetrayal")
    } else if str_eq(name, "Gates of the Citadel") {
        Ok("Set_GatesOfTheCitadel")
    } else if str_eq(name, "Forging the Chain") {
        Ok("Set_ForgingTheChain")
    } else if str_eq(name, "Called by the Conclave") {
        Ok("Set_CalledByTheConclave")
    } else if str_eq(name, "The Isle of Ravens") {
        Ok("Set_TheIlseOfRavens")
    } else if str_eq(name, "Mask of the Archmaester") {
        Ok("Set_MaskOfTheArchmaester")
    } else if str_eq(name, "Here to Serve") {
        Ok("Set_HereToServe")
    } else if str_eq(name, "The Tourney for the Hand") {
        Ok("Set_TourneyForTheHand")
    } else if str_eq(name, "The Grand Melee") {
        Ok("Set_TheGrandMelee")
    } else if str_eq(name, "On Dangerous Grounds") {
        Ok("Set_OnDangerousGrounds")
    } else if str_eq(name, "Where Loyalty Lies") {
        Ok("Set_WhereLoyaltyLies")
    } else if str_eq(name, "Trial By Combat") {
        Ok("Set_TrialByCombat")
    } else if str_eq(name, "A Poisoned Spear") {
        Ok("Set_APoisonedSpear")
    } else if str_eq(name, "Valar Morghulis") {
        Ok("Set_ValarMorghulis")
    } else if str_eq(name, "Valar Dohaeris") {
        Ok("Set_ValarDohaeris")
    } else if str_eq(name, "Chasing Dragons") {
        Ok("Set_ChasingDragons")
    } else if str_eq(name, "A Harsh Mistress") {
        Ok("Set_AHarshMistress")
    } else if str_eq(name, "The House of Black and White") {
        Ok("Set_TheHouseOfBlackAndWhite")
    } else if str_eq(name, "A Roll of the Dice") {
        Ok("Set_ARollOfTheDice")
    } else if str_eq(name, "Reach of the Kraken") {
        Ok("Set_ReachOfTheKraken")
    } else if str_eq(name, "The Grand Fleet") {
        Ok("Set_TheGrandFleet")
    } else if str_eq(name, "The Pirates of Lys") {
        Ok("Set_ThePiratesOfLys")
    } else if str_eq(name, "A Turn of the Tide") {
        Ok("Set_ATurnOfTheTide")
    } else if str_eq(name, "The Captain's Command") {
        Ok("Set_TheCaptainsCommand")
    } else if str_eq(name, "A Journey's End") {
        Ok("Set_AJourneysEnd")
    } else if str_eq(name, "The Banners Gather") {
        Ok("Set_TheBannersGather")
    } else if str_eq(name, "Fire and Ice") {
        Ok("Set_FireAndIce")
    } else if str_eq(name, "The Kingsguard") {
        Ok("Set_TheKingsguard")
    } else if str_eq(name, "The Horn that Wakes") {
        Ok("Set_TheHornThatWakes")
    } else if str_eq(name, "Forgotten Fellowship") {
        Ok("Set_ForgottenFellowship")
    } else if str_eq(name, "A Hidden Agenda") {
        Ok("Set_AHiddenAgenda")
    } else if str_eq(name, "Spoils of War") {
        Ok("Set_SpoilsOfWar")
    } else if str_eq(name, "The Champion's Purse") {
        Ok("Set_TheChampionsPurse")
    } else if str_eq(name, "Fire Made Flesh") {
        Ok("Set_FireMadeFlesh")
    } else if str_eq(name, "Ancestral Home") {
        Ok("Set_AncestralHome")
    } else if str_eq(name, "The Prize of the North") {
        Ok("Set_ThePrizeOfTheNorth")
    } else if str_eq(name, "A Dire Message") {
        Ok("Set_ADireMessage")
    } else if str_eq(name, "Secrets and Schemes") {
        Ok("Set_SecretsAndSchemes")
    } else if str_eq(name, "A Deadly Game") {
        Ok("Set_ADeadlyGame")
    } else if str_eq(name, "The Valemen") {
        Ok("Set_TheValemen")
    } else if str_eq(name, "A Time for Wolves") {
        Ok("Set_ATimeForWolves")
    } else if str_eq(name, "House of Talons") {
        Ok("Set_HouseOfTalons")
    } else if str_eq(name, "The Blue is Calling") {
        Ok("Set_TheBlueIsCalling")
    } else {
        Err(LookupMiss { vocabulary: Vocabulary::Sets, name: String::from_str(name) })
    }
}

/// The three challenge icons.
#[derive(Clone, Copy, Debug, PartialEq, Eq, Structural)]
pub enum IconKind {
    Military,
    Intrigue,
    Power,
}

/// An icon as the target language writes it: its kind and whether it is the
/// naval variant.
#[derive(Clone, Copy, Debug, PartialEq, Eq, Structural)]
pub struct IconExpr {
    pub kind: IconKind,
    pub naval: bool,
}

/// The table of icons: the expression that an icon's display name resolves
/// to, or `None` for a name that is not an icon's. The naval variant of an
/// icon carries the suffix ` (Naval)`.
pub open spec fn icon_expr(name: Seq<char>) -> Option<IconExpr> {
    if name == "Military"@ {
        Some(IconExpr { kind: IconKind::Military, naval: false })
    } else if name == "Military (Naval)"@ {
        Some(IconExpr { kind: IconKind::Military, naval: true })
    } else if name == "Intrigue"@ {
        Some(IconExpr { kind: IconKind::Intrigue, naval: false })
    } else if name == "Intrigue (Naval)"@ {
        Some(IconExpr { kind: IconKind::Intrigue, naval: true })
    } else if name == "Power"@ {
        Some(IconExpr { kind: IconKind::Power, naval: false })
    } else if name == "Power (Naval)"@ {
        Some(IconExpr { kind: IconKind::Power, naval: true })
    } else {
        None
    }
}

/// Resolves an icon's display name to its expression.
pub fn resolve_icon(name: &str) -> (icon: Result<IconExpr, LookupMiss>)
    ensures
        match icon_expr(name@) {
            Some(e) => icon == Ok::<IconExpr, LookupMiss>(e),
            None => icon matches Err(miss) && miss@ == (LookupMissModel {
                vocabulary: Vocabulary::Icons,
                name: name@,
            }),
        },
{
    if str_eq(name, "Military") {
        Ok(IconExpr { kind: IconKind::Military, naval: false })
    } else if str_eq(name, "Military (Naval)") {
        Ok(IconExpr { kind: IconKind::Military, naval: true })
    } else if str_eq(name, "Intrigue") {
        Ok(IconExpr { kind: IconKind::Intrigue, naval: false })
    } else if str_eq(name, "Intrigue (Naval)") {
        Ok(IconExpr { kind: IconKind::Intrigue, naval: true })
    } else if str_eq(name, "Power") {
        Ok(IconExpr { kind: IconKind::Power, naval: false })
    } else if str_eq(name, "Power (Naval)") {
        Ok(IconExpr { kind: IconKind::Power, naval: true })
    } else {
        Err(LookupMiss { vocabulary: Vocabulary::Icons, name: String::from_str(name) })
    }
}

} // verus!
