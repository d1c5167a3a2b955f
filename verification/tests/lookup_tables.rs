use card_literals::lookup::{resolve_icon, resolve_set, IconExpr, IconKind, LookupMiss, Vocabulary};

fn set_table() -> Vec<(&'static str, &'static str)> {
    vec![
        ("Core", "Set_Core"),
        ("Kings of the Sea", "Set_KingsOfTheSea"),
        ("Princes of the Sun", "Set_PrincesOfTheSun"),
        ("Lords of Winter", "Set_LordsOfWinter"),
        ("Kings of the Storm", "Set_KingsOfTheStorm"),
        ("Queen of Dragons", "Set_QueenOfDragons"),
        ("Lions of the Rock", "Set_LionsOfTheRock"),
        ("The War of Five Kings", "Set_TheWarOfTheFiveKings"),
        ("Ancient Enemies", "Set_AncientEnemies"),
        ("Sacred Bonds", "Set_SacredBonds"),
        ("Epic Battles", "Set_EpicBattles"),
        ("Battle of Ruby Ford", "Set_BattleOfRubyFord"),
        ("Calling the Banners", "Set_CallingTheBanners"),
        ("A Song of Summer", "Set_ASongOfSummer"),
        ("The Winds of Winter", "Set_TheWindsOfWinter"),
        ("A Change of Seasons", "Set_AChangeOfSeasons"),
        ("The Raven's Song", "Set_TheRavensSong"),
        ("Refugees of War", "Set_RefugeesOfWar"),
        ("Scattered Armies", "Set_ScatteredArmies"),
        ("City of Secrets", "Set_CityOfSecrets"),
        ("A Time of Trials", "Set_ATimeOfTrials"),
        ("The Tower of the Hand", "Set_TheTowerOfTheHand"),
        ("Tales from the Red Keep", "Set_TalesFromTheRedKeep"),
        ("Secrets and Spies", "Set_SecretsAndSpies"),
        ("The Battle of Blackwater Bay", "Set_TheBattleOfBlackwaterBay"),
        ("Wolves of the North", "Set_WolvesOfTheNorth"),
        ("Beyond the Wall", "Set_BeyondTheWall"),
        ("A Sword in the Darkness", "Set_ASwordInTheDarkness"),
        ("The Wildling Horde", "Set_TheWildlingHorde"),
        ("A King in the North", "Set_AKingInTheNorth"),
        ("Return of the Others", "Set_ReturnOfTheOthers"),
        ("Illyrio's Gift", "Set_IllyriosGift"),
        ("Rituals of R'hllor", "Set_RitualsOfRhllor"),
        ("Mountains of the Moon", "Set_MountainsOfTheMoon"),
        ("A Song of Silence", "Set_ASongOfSilence"),
        ("Of Snakes and Sand", "Set_OfSnakesAndSand"),
        ("Dreadfort Betrayal", "Set_DreadfortBetrayal"),
        ("Gates of the Citadel", "Set_GatesOfTheCitadel"),
        ("Forging the Chain", "Set_ForgingTheChain"),
        ("Called by the Conclave", "Set_CalledByTheConclave"),
        ("The Isle of Ravens", "Set_TheIlseOfRavens"),
        ("Mask of the Archmaester", "Set_MaskOfTheArchmaester"),
        ("Here to Serve", "Set_HereToServe"),
        ("The Tourney for the Hand", "Set_TourneyForTheHand"),
        ("The Grand Melee", "Set_TheGrandMelee"),
        ("On Dangerous Grounds", "Set_OnDangerousGrounds"),
        ("Where Loyalty Lies", "Set_WhereLoyaltyLies"),
        ("Trial By Combat", "Set_TrialByCombat"),
        ("A Poisoned Spear", "Set_APoisonedSpear"),
        ("Valar Morghulis", "Set_ValarMorghulis"),
        ("Valar Dohaeris", "Set_ValarDohaeris"),
        ("Chasing Dragons", "Set_ChasingDragons"),
        ("A Harsh Mistress", "Set_AHarshMistress"),
        ("The House of Black and White", "Set_TheHouseOfBlackAndWhite"),
        ("A Roll of the Dice", "Set_ARollOfTheDice"),
        ("Reach of the Kraken", "Set_ReachOfTheKraken"),
        ("The Grand Fleet", "Set_TheGrandFleet"),
        ("The Pirates of Lys", "Set_ThePiratesOfLys"),
        ("A Turn of the Tide", "Set_ATurnOfTheTide"),
        ("The Captain's Command", "Set_TheCaptainsCommand"),
        ("A Journey's End", "Set_AJourneysEnd"),
        ("The Banners Gather", "Set_TheBannersGather"),
        ("Fire and Ice", "Set_FireAndIce"),
        ("The Kingsguard", "Set_TheKingsguard"),
        ("The Horn that Wakes", "Set_TheHornThatWakes"),
        ("Forgotten Fellowship", "Set_ForgottenFellowship"),
        ("A Hidden Agenda", "Set_AHiddenAgenda"),
        ("Spoils of War", "Set_SpoilsOfWar"),
        ("The Champion's Purse", "Set_TheChampionsPurse"),
        ("Fire Made Flesh", "Set_FireMadeFlesh"),
        ("Ancestral Home", "Set_AncestralHome"),
        ("The Prize of the North", "Set_ThePrizeOfTheNorth"),
        ("A Dire Message", "Set_ADireMessage"),
        ("Secrets and Schemes", "Set_SecretsAndSchemes"),
        ("A Deadly Game", "Set_ADeadlyGame"),
        ("The Valemen", "Set_TheValemen"),
        ("A Time for Wolves", "Set_ATimeForWolves"),
        ("House of Talons", "Set_HouseOfTalons"),
        ("The Blue is Calling", "Set_TheBlueIsCalling"),
    ]
}

#[test]
fn every_set_resolves_to_its_symbol() {
    let table = set_table();
    assert_eq!(table.len(), 79);
    for (name, symbol) in table {
        assert_eq!(resolve_set(name), Ok(symbol), "set {:?}", name);
    }
}

#[test]
fn set_symbols_are_distinct() {
    let table = set_table();
    for (i, (_, a)) in table.iter().enumerate() {
        for (_, b) in table.iter().skip(i + 1) {
            assert_ne!(a, b);
        }
    }
}

#[test]
fn set_names_are_matched_exactly() {
    for name in ["core", "Core ", " Core", "", "Set_Core", "The Raven\u{2019}s Song", "Kings of the sea"] {
        assert_eq!(
            resolve_set(name),
            Err(LookupMiss { vocabulary: Vocabulary::Sets, name: name.to_string() })
        );
    }
}

#[test]
fn set_symbols_keep_the_spelling_of_the_target_type() {
    assert_eq!(resolve_set("The War of Five Kings"), Ok("Set_TheWarOfTheFiveKings"));
    assert_eq!(resolve_set("The Isle of Ravens"), Ok("Set_TheIlseOfRavens"));
    assert_eq!(resolve_set("The Tourney for the Hand"), Ok("Set_TourneyForTheHand"));
    assert_eq!(resolve_set("Rituals of R'hllor"), Ok("Set_RitualsOfRhllor"));
}

#[test]
fn every_icon_resolves_to_its_expression() {
    let table = [
        ("Military", IconKind::Military, false),
        ("Military (Naval)", IconKind::Military, true),
        ("Intrigue", IconKind::Intrigue, false),
        ("Intrigue (Naval)", IconKind::Intrigue, true),
        ("Power", IconKind::Power, false),
        ("Power (Naval)", IconKind::Power, true),
    ];
    for (name, kind, naval) in table {
        assert_eq!(resolve_icon(name), Ok(IconExpr { kind, naval }));
    }
}

#[test]
fn icon_names_are_matched_exactly() {
    for name in ["military", "Naval", "Power(Naval)", "Power (naval)", "", "Icon_Power"] {
        assert_eq!(
            resolve_icon(name),
            Err(LookupMiss { vocabulary: Vocabulary::Icons, name: name.to_string() })
        );
    }
}
