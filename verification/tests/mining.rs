use mining_core::address::Address;
use mining_core::error::ContractError;
use mining_core::metal::{MetalTotals, MetalType};
use mining_core::mine::{Mine, MinedResource};
use mining_core::mining::MiningContract;

fn addr(name: &str) -> Address {
    Address::new(name.to_string())
}

const ALL_METALS: [MetalType; 5] = [
    MetalType::Gold,
    MetalType::Silver,
    MetalType::Copper,
    MetalType::Iron,
    MetalType::Platinum,
];

#[test]
fn base_efficiency_of_each_metal() {
    assert_eq!(MiningContract::calculate_base_efficiency(&MetalType::Iron), 80);
    assert_eq!(MiningContract::calculate_base_efficiency(&MetalType::Copper), 75);
    assert_eq!(MiningContract::calculate_base_efficiency(&MetalType::Silver), 60);
    assert_eq!(MiningContract::calculate_base_efficiency(&MetalType::Gold), 45);
    assert_eq!(MiningContract::calculate_base_efficiency(&MetalType::Platinum), 30);
}

#[test]
fn base_capacity_of_each_metal() {
    assert_eq!(MiningContract::calculate_base_capacity(&MetalType::Iron), 1000);
    assert_eq!(MiningContract::calculate_base_capacity(&MetalType::Copper), 800);
    assert_eq!(MiningContract::calculate_base_capacity(&MetalType::Silver), 500);
    assert_eq!(MiningContract::calculate_base_capacity(&MetalType::Gold), 200);
    assert_eq!(MiningContract::calculate_base_capacity(&MetalType::Platinum), 100);
}

#[test]
fn production_rate_is_base_rate_times_level() {
    assert_eq!(MiningContract::calculate_production_rate(&MetalType::Iron, 1), 50);
    assert_eq!(MiningContract::calculate_production_rate(&MetalType::Copper, 1), 40);
    assert_eq!(MiningContract::calculate_production_rate(&MetalType::Silver, 1), 25);
    assert_eq!(MiningContract::calculate_production_rate(&MetalType::Gold, 1), 10);
    assert_eq!(MiningContract::calculate_production_rate(&MetalType::Platinum, 1), 5);
    assert_eq!(MiningContract::calculate_production_rate(&MetalType::Iron, 10), 500);
    assert_eq!(MiningContract::calculate_production_rate(&MetalType::Gold, 7), 70);
    assert_eq!(MiningContract::calculate_production_rate(&MetalType::Platinum, 0), 0);
    assert_eq!(
        MiningContract::calculate_production_rate(&MetalType::Iron, u32::MAX),
        50 * (u32::MAX as u64)
    );
}

#[test]
fn new_contract_is_empty() {
    let contract = MiningContract::new();
    assert_eq!(contract.mine_count(), 0);
    assert_eq!(contract.get_mine(0), None);
    assert_eq!(contract.get_mine(1), None);
    assert_eq!(contract.get_player_mines(addr("alice")), Vec::<u32>::new());
    for metal in ALL_METALS {
        assert_eq!(contract.get_global_production(metal), 0);
    }
}

#[test]
fn created_ids_count_up_from_one() {
    let mut contract = MiningContract::new();
    let alice = addr("alice");
    let bob = addr("bob");
    assert_eq!(contract.create_mine(addr("alice"), MetalType::Iron, &alice, 10), Ok(1));
    assert_eq!(contract.create_mine(addr("bob"), MetalType::Gold, &bob, 20), Ok(2));
    assert_eq!(contract.create_mine(addr("alice"), MetalType::Silver, &alice, 30), Ok(3));
    assert_eq!(contract.create_mine(addr("alice"), MetalType::Copper, &alice, 30), Ok(4));
    assert_eq!(contract.create_mine(addr("bob"), MetalType::Platinum, &bob, 40), Ok(5));
    assert_eq!(contract.mine_count(), 5);
}

#[test]
fn refused_creation_uses_no_id() {
    let mut contract = MiningContract::new();
    let alice = addr("alice");
    let bob = addr("bob");
    assert_eq!(contract.create_mine(addr("alice"), MetalType::Iron, &alice, 10), Ok(1));
    assert_eq!(
        contract.create_mine(addr("alice"), MetalType::Iron, &bob, 11),
        Err(ContractError::Unauthorized)
    );
    assert_eq!(contract.mine_count(), 1);
    assert_eq!(contract.get_mine(2), None);
    assert_eq!(contract.get_player_mines(addr("alice")), vec![1]);
    assert_eq!(contract.get_player_mines(addr("bob")), Vec::<u32>::new());
    assert_eq!(contract.create_mine(addr("bob"), MetalType::Gold, &bob, 12), Ok(2));
}

#[test]
fn get_mine_returns_the_mine_as_created() {
    let mut contract = MiningContract::new();
    let alice = addr("alice");
    for (i, metal) in ALL_METALS.iter().enumerate() {
        let now = 1000 + i as u64;
        let id = contract.create_mine(addr("alice"), *metal, &alice, now).unwrap();
        assert_eq!(id, i as u32 + 1);
        let mine = contract.get_mine(id).unwrap();
        assert_eq!(
            mine,
            Mine {
                id,
                owner: addr("alice"),
                metal_type: *metal,
                efficiency: MiningContract::calculate_base_efficiency(metal),
                capacity: MiningContract::calculate_base_capacity(metal),
                current_production: 0,
                start_time: now,
                last_harvest: now,
                upgrade_level: 1,
            }
        );
    }
    let gold = contract.get_mine(1).unwrap();
    assert_eq!((gold.efficiency, gold.capacity), (45, 200));
    let iron = contract.get_mine(4).unwrap();
    assert_eq!((iron.efficiency, iron.capacity), (80, 1000));
    assert_eq!(contract.get_mine(0), None);
    assert_eq!(contract.get_mine(6), None);
    assert_eq!(contract.get_mine(u32::MAX), None);
}

#[test]
fn player_mines_are_listed_in_order_of_creation() {
    let mut contract = MiningContract::new();
    let alice = addr("alice");
    let bob = addr("bob");
    contract.create_mine(addr("alice"), MetalType::Iron, &alice, 1).unwrap();
    contract.create_mine(addr("bob"), MetalType::Iron, &bob, 2).unwrap();
    contract.create_mine(addr("bob"), MetalType::Gold, &bob, 3).unwrap();
    contract.create_mine(addr("alice"), MetalType::Gold, &alice, 4).unwrap();
    contract.create_mine(addr("alice"), MetalType::Gold, &alice, 5).unwrap();
    assert_eq!(contract.get_player_mines(addr("alice")), vec![1, 4, 5]);
    assert_eq!(contract.get_player_mines(addr("bob")), vec![2, 3]);
    assert_eq!(contract.get_player_mines(addr("carol")), Vec::<u32>::new());
    assert_eq!(contract.get_player_mines(addr("")), Vec::<u32>::new());
    assert_eq!(contract.get_player_mines(addr("alic")), Vec::<u32>::new());
}

#[test]
fn iron_mine_harvested_after_exactly_one_hour() {
    let mut contract = MiningContract::new();
    let alice = addr("alice");
    let id = contract.create_mine(addr("alice"), MetalType::Iron, &alice, 5000).unwrap();
    let receipt = contract.harvest_mine(id, &alice, 5000 + 3600).unwrap();
    assert_eq!(
        receipt,
        MinedResource {
            metal_type: MetalType::Iron,
            amount: 40,
            mined_at: 8600,
            efficiency_bonus: 80,
        }
    );
    let mine = contract.get_mine(id).unwrap();
    assert_eq!(mine.current_production, 40);
    assert_eq!(mine.last_harvest, 8600);
    assert_eq!(mine.start_time, 5000);
    assert_eq!(contract.get_global_production(MetalType::Iron), 40);
    assert_eq!(contract.get_global_production(MetalType::Gold), 0);
}

#[test]
fn harvest_before_an_hour_is_too_early_and_changes_nothing() {
    let mut contract = MiningContract::new();
    let alice = addr("alice");
    let id = contract.create_mine(addr("alice"), MetalType::Iron, &alice, 5000).unwrap();
    let before = contract.get_mine(id).unwrap();
    for now in [5000, 5001, 8599, 4999, 0] {
        assert_eq!(contract.harvest_mine(id, &alice, now), Err(ContractError::TooEarly));
        assert_eq!(contract.get_mine(id).unwrap(), before);
        for metal in ALL_METALS {
            assert_eq!(contract.get_global_production(metal), 0);
        }
    }
    assert!(contract.harvest_mine(id, &alice, 8600).is_ok());
    let after = contract.get_mine(id).unwrap();
    assert_eq!(contract.harvest_mine(id, &alice, 8600 + 3599), Err(ContractError::TooEarly));
    assert_eq!(contract.get_mine(id).unwrap(), after);
    assert_eq!(contract.get_global_production(MetalType::Iron), 40);
}

#[test]
fn harvest_of_a_missing_mine_is_not_found() {
    let mut contract = MiningContract::new();
    let alice = addr("alice");
    assert_eq!(contract.harvest_mine(1, &alice, 10_000), Err(ContractError::NotFound));
    assert_eq!(contract.harvest_mine(0, &alice, 10_000), Err(ContractError::NotFound));
    contract.create_mine(addr("alice"), MetalType::Iron, &alice, 0).unwrap();
    assert_eq!(contract.harvest_mine(2, &alice, 10_000), Err(ContractError::NotFound));
    assert_eq!(contract.harvest_mine(0, &alice, 10_000), Err(ContractError::NotFound));
    assert_eq!(contract.get_global_production(MetalType::Iron), 0);
}

#[test]
fn harvest_by_another_account_is_unauthorized() {
    let mut contract = MiningContract::new();
    let alice = addr("alice");
    let bob = addr("bob");
    let id = contract.create_mine(addr("alice"), MetalType::Iron, &alice, 0).unwrap();
    let before = contract.get_mine(id).unwrap();
    assert_eq!(contract.harvest_mine(id, &bob, 7200), Err(ContractError::Unauthorized));
    // The caller is checked before the time.
    assert_eq!(contract.harvest_mine(id, &bob, 10), Err(ContractError::Unauthorized));
    assert_eq!(contract.get_mine(id).unwrap(), before);
    assert_eq!(contract.get_global_production(MetalType::Iron), 0);
}

#[test]
fn harvest_counts_full_hours_and_drops_the_rest() {
    let mut contract = MiningContract::new();
    let alice = addr("alice");
    let id = contract.create_mine(addr("alice"), MetalType::Copper, &alice, 100).unwrap();
    // 2 h 59 min 59 s: two full hours. 40 * 2 * 75 / 100 = 60.
    let receipt = contract.harvest_mine(id, &alice, 100 + 3 * 3600 - 1).unwrap();
    assert_eq!(receipt.amount, 60);
    assert_eq!(receipt.mined_at, 100 + 3 * 3600 - 1);
    // The started third hour is lost: a second later it is too early.
    assert_eq!(
        contract.harvest_mine(id, &alice, 100 + 3 * 3600),
        Err(ContractError::TooEarly)
    );
    let receipt = contract.harvest_mine(id, &alice, 100 + 4 * 3600 - 1).unwrap();
    assert_eq!(receipt.amount, 30);
    assert_eq!(contract.get_mine(id).unwrap().current_production, 90);
    assert_eq!(contract.get_global_production(MetalType::Copper), 90);
}

#[test]
fn harvest_truncates_the_division() {
    let mut contract = MiningContract::new();
    let alice = addr("alice");
    // Platinum: 5 * 1 * 30 / 100 = 1 (1.5 truncated) after one hour.
    let platinum = contract.create_mine(addr("alice"), MetalType::Platinum, &alice, 0).unwrap();
    assert_eq!(contract.harvest_mine(platinum, &alice, 3600).unwrap().amount, 1);
    // Gold: 10 * 1 * 45 / 100 = 4 (4.5 truncated); 10 * 3 * 45 / 100 = 13.
    let gold = contract.create_mine(addr("alice"), MetalType::Gold, &alice, 0).unwrap();
    assert_eq!(contract.harvest_mine(gold, &alice, 3600).unwrap().amount, 4);
    assert_eq!(contract.harvest_mine(gold, &alice, 3600 + 3 * 3600).unwrap().amount, 13);
    // Silver: 25 * 1 * 60 / 100 = 15.
    let silver = contract.create_mine(addr("alice"), MetalType::Silver, &alice, 0).unwrap();
    assert_eq!(contract.harvest_mine(silver, &alice, 3600).unwrap().amount, 15);
}

#[test]
fn harvest_is_capped_by_the_capacity_of_one_harvest() {
    let mut contract = MiningContract::new();
    let alice = addr("alice");
    let id = contract.create_mine(addr("alice"), MetalType::Iron, &alice, 0).unwrap();
    // 25 hours give exactly 1000, 26 hours would give 1040.
    assert_eq!(contract.harvest_mine(id, &alice, 25 * 3600).unwrap().amount, 1000);
    assert_eq!(contract.harvest_mine(id, &alice, 51 * 3600).unwrap().amount, 1000);
    assert_eq!(contract.harvest_mine(id, &alice, 151 * 3600).unwrap().amount, 1000);
    // The capacity bounds one harvest, not what the mine has produced in all.
    let mine = contract.get_mine(id).unwrap();
    assert_eq!(mine.capacity, 1000);
    assert_eq!(mine.current_production, 3000);
    assert_eq!(contract.get_global_production(MetalType::Iron), 3000);
}

#[test]
fn harvest_after_a_very_long_time_yields_the_capacity() {
    let mut contract = MiningContract::new();
    let alice = addr("alice");
    let id = contract.create_mine(addr("alice"), MetalType::Iron, &alice, 0).unwrap();
    for _ in 0..9 {
        contract.upgrade_mine(id, &alice).unwrap();
    }
    let receipt = contract.harvest_mine(id, &alice, u64::MAX).unwrap();
    assert_eq!(receipt.amount, 1900);
    assert_eq!(receipt.efficiency_bonus, 125);
    assert_eq!(receipt.mined_at, u64::MAX);
}

#[test]
fn harvest_uses_level_and_efficiency_after_upgrades() {
    let mut contract = MiningContract::new();
    let alice = addr("alice");
    let id = contract.create_mine(addr("alice"), MetalType::Gold, &alice, 0).unwrap();
    contract.upgrade_mine(id, &alice).unwrap();
    contract.upgrade_mine(id, &alice).unwrap();
    // Level 3, efficiency 55: 10 * 3 * 2 * 55 / 100 = 33.
    let receipt = contract.harvest_mine(id, &alice, 7200).unwrap();
    assert_eq!(receipt.amount, 33);
    assert_eq!(receipt.efficiency_bonus, 55);
    assert_eq!(receipt.metal_type, MetalType::Gold);
}

#[test]
fn global_production_adds_up_per_metal() {
    let mut contract = MiningContract::new();
    let alice = addr("alice");
    let bob = addr("bob");
    let a = contract.create_mine(addr("alice"), MetalType::Iron, &alice, 0).unwrap();
    let b = contract.create_mine(addr("bob"), MetalType::Iron, &bob, 0).unwrap();
    let c = contract.create_mine(addr("bob"), MetalType::Silver, &bob, 0).unwrap();
    assert_eq!(contract.harvest_mine(a, &alice, 3600).unwrap().amount, 40);
    assert_eq!(contract.harvest_mine(b, &bob, 7200).unwrap().amount, 80);
    assert_eq!(contract.harvest_mine(c, &bob, 7200).unwrap().amount, 30);
    assert_eq!(contract.harvest_mine(a, &alice, 7200).unwrap().amount, 40);
    assert_eq!(contract.get_global_production(MetalType::Iron), 160);
    assert_eq!(contract.get_global_production(MetalType::Silver), 30);
    assert_eq!(contract.get_global_production(MetalType::Gold), 0);
    assert_eq!(contract.get_global_production(MetalType::Copper), 0);
    assert_eq!(contract.get_global_production(MetalType::Platinum), 0);
    assert_eq!(contract.get_mine(a).unwrap().current_production, 80);
    assert_eq!(contract.get_mine(b).unwrap().current_production, 80);
    assert_eq!(contract.get_mine(c).unwrap().current_production, 30);
}

#[test]
fn nine_upgrades_reach_level_ten_and_a_tenth_is_refused() {
    let mut contract = MiningContract::new();
    let alice = addr("alice");
    let id = contract.create_mine(addr("alice"), MetalType::Iron, &alice, 77).unwrap();
    for step in 1..=9u32 {
        assert_eq!(contract.upgrade_mine(id, &alice), Ok(()));
        let mine = contract.get_mine(id).unwrap();
        assert_eq!(mine.upgrade_level, 1 + step);
        assert_eq!(mine.efficiency, 80 + 5 * step);
        assert_eq!(mine.capacity, 1000 + 100 * step as u64);
    }
    let top = contract.get_mine(id).unwrap();
    assert_eq!(top.upgrade_level, 10);
    assert_eq!(top.efficiency, 125);
    assert_eq!(top.capacity, 1900);
    assert_eq!(contract.upgrade_mine(id, &alice), Err(ContractError::MaxLevelReached));
    assert_eq!(contract.get_mine(id).unwrap(), top);
    assert_eq!(contract.upgrade_mine(id, &alice), Err(ContractError::MaxLevelReached));
    assert_eq!(
        contract.get_mine(id).unwrap(),
        Mine {
            id,
            owner: addr("alice"),
            metal_type: MetalType::Iron,
            efficiency: 125,
            capacity: 1900,
            current_production: 0,
            start_time: 77,
            last_harvest: 77,
            upgrade_level: 10,
        }
    );
}

#[test]
fn upgrade_adds_a_tenth_of_the_base_capacity() {
    let expected: [(MetalType, u32, u64); 5] = [
        (MetalType::Iron, 85, 1100),
        (MetalType::Copper, 80, 880),
        (MetalType::Silver, 65, 550),
        (MetalType::Gold, 50, 220),
        (MetalType::Platinum, 35, 110),
    ];
    let alice = addr("alice");
    for (metal, efficiency, capacity) in expected {
        let mut contract = MiningContract::new();
        let id = contract.create_mine(addr("alice"), metal, &alice, 0).unwrap();
        contract.upgrade_mine(id, &alice).unwrap();
        let mine = contract.get_mine(id).unwrap();
        assert_eq!(mine.upgrade_level, 2);
        assert_eq!(mine.efficiency, efficiency);
        assert_eq!(mine.capacity, capacity);
        contract.upgrade_mine(id, &alice).unwrap();
        let mine = contract.get_mine(id).unwrap();
        // Growth is linear: the same step again, not a tenth of the new capacity.
        assert_eq!(mine.capacity, capacity + (capacity - MiningContract::calculate_base_capacity(&metal)));
    }
}

#[test]
fn upgrade_is_refused_for_missing_mines_and_other_callers() {
    let mut contract = MiningContract::new();
    let alice = addr("alice");
    let bob = addr("bob");
    assert_eq!(contract.upgrade_mine(1, &alice), Err(ContractError::NotFound));
    let id = contract.create_mine(addr("alice"), MetalType::Silver, &alice, 0).unwrap();
    let before = contract.get_mine(id).unwrap();
    assert_eq!(contract.upgrade_mine(id, &bob), Err(ContractError::Unauthorized));
    assert_eq!(contract.upgrade_mine(0, &alice), Err(ContractError::NotFound));
    assert_eq!(contract.upgrade_mine(id + 1, &alice), Err(ContractError::NotFound));
    assert_eq!(contract.get_mine(id).unwrap(), before);
    for _ in 0..9 {
        contract.upgrade_mine(id, &alice).unwrap();
    }
    // The caller is checked before the level.
    assert_eq!(contract.upgrade_mine(id, &bob), Err(ContractError::Unauthorized));
}

#[test]
fn upgrade_leaves_production_and_times_alone() {
    let mut contract = MiningContract::new();
    let alice = addr("alice");
    let id = contract.create_mine(addr("alice"), MetalType::Iron, &alice, 10).unwrap();
    contract.harvest_mine(id, &alice, 3610).unwrap();
    contract.upgrade_mine(id, &alice).unwrap();
    let mine = contract.get_mine(id).unwrap();
    assert_eq!(mine.current_production, 40);
    assert_eq!(mine.last_harvest, 3610);
    assert_eq!(mine.start_time, 10);
    assert_eq!(mine.owner, addr("alice"));
    assert_eq!(mine.metal_type, MetalType::Iron);
    assert_eq!(contract.get_global_production(MetalType::Iron), 40);
    assert_eq!(contract.get_player_mines(addr("alice")), vec![1]);
}

#[test]
fn mining_reads_repeat() {
    let mut contract = MiningContract::new();
    let alice = addr("alice");
    let id = contract.create_mine(addr("alice"), MetalType::Iron, &alice, 0).unwrap();
    contract.harvest_mine(id, &alice, 3600).unwrap();
    assert_eq!(contract.get_mine(id), contract.get_mine(id));
    assert_eq!(contract.get_mine(9), contract.get_mine(9));
    assert_eq!(
        contract.get_global_production(MetalType::Iron),
        contract.get_global_production(MetalType::Iron)
    );
    assert_eq!(
        contract.get_player_mines(addr("alice")),
        contract.get_player_mines(addr("alice"))
    );
    assert_eq!(contract.get_mine(id).unwrap().current_production, 40);
    assert_eq!(contract.get_global_production(MetalType::Iron), 40);
}

#[test]
fn a_mine_on_its_own_follows_the_same_rules() {
    let alice = addr("alice");
    let bob = addr("bob");
    let mut mine = Mine::new(7, addr("alice"), MetalType::Copper, 1_000);
    assert!(mine.is_well_formed());
    assert_eq!(mine.id, 7);
    assert_eq!((mine.efficiency, mine.capacity, mine.upgrade_level), (75, 800, 1));
    assert_eq!(mine.pending_yield(1_000), 0);
    assert_eq!(mine.pending_yield(999), 0);
    assert_eq!(mine.pending_yield(1_000 + 3600), 30);
    assert_eq!(mine.pending_yield(1_000 + 1000 * 3600), 800);
    assert_eq!(mine.harvest(&bob, 10_000), Err(ContractError::Unauthorized));
    assert_eq!(mine.harvest(&alice, 4_599), Err(ContractError::TooEarly));
    assert_eq!(
        mine.harvest(&alice, 4_600),
        Ok(MinedResource {
            metal_type: MetalType::Copper,
            amount: 30,
            mined_at: 4_600,
            efficiency_bonus: 75,
        })
    );
    assert_eq!(mine.current_production, 30);
    assert_eq!(mine.last_harvest, 4_600);
    assert_eq!(mine.upgrade(&bob), Err(ContractError::Unauthorized));
    assert_eq!(mine.upgrade(&alice), Ok(()));
    assert_eq!((mine.efficiency, mine.capacity, mine.upgrade_level), (80, 880, 2));
    assert!(mine.is_well_formed());
    let copy = mine.clone();
    assert_eq!(copy, mine);
}

#[test]
fn well_formedness_is_told_from_the_fields() {
    let mut mine = Mine::new(1, addr("alice"), MetalType::Gold, 50);
    assert!(mine.is_well_formed());
    mine.efficiency = 46;
    assert!(!mine.is_well_formed());
    mine.efficiency = 45;
    mine.capacity = 201;
    assert!(!mine.is_well_formed());
    mine.capacity = 200;
    mine.upgrade_level = 0;
    assert!(!mine.is_well_formed());
    mine.upgrade_level = 11;
    assert!(!mine.is_well_formed());
    mine.upgrade_level = 10;
    mine.efficiency = 90;
    mine.capacity = 380;
    assert!(mine.is_well_formed());
    mine.last_harvest = 49;
    assert!(!mine.is_well_formed());
}

#[test]
fn addresses_are_compared_by_their_text() {
    let alice = addr("alice");
    assert!(alice.same(&addr("alice")));
    assert!(!alice.same(&addr("Alice")));
    assert!(!alice.same(&addr("")));
    assert_eq!(alice.as_str(), "alice");
    assert_eq!(alice.clone(), alice);
}

#[test]
fn totals_are_kept_per_metal() {
    let mut totals = MetalTotals::new();
    for metal in ALL_METALS {
        assert_eq!(totals.get(metal), 0);
    }
    totals.add(MetalType::Gold, 5);
    totals.add(MetalType::Silver, 7);
    totals.add(MetalType::Gold, 11);
    totals.add(MetalType::Platinum, u64::MAX);
    assert_eq!(
        totals,
        MetalTotals { gold: 16, silver: 7, copper: 0, iron: 0, platinum: u64::MAX }
    );
    assert_eq!(totals.get(MetalType::Gold), 16);
    assert_eq!(totals.get(MetalType::Silver), 7);
    assert_eq!(totals.get(MetalType::Copper), 0);
    assert_eq!(totals.get(MetalType::Iron), 0);
    assert_eq!(totals.get(MetalType::Platinum), u64::MAX);
}

#[test]
fn opening_a_mine_takes_the_next_number() {
    let alice = addr("alice");
    let bob = addr("bob");
    let mine = Mine::open(0, addr("alice"), MetalType::Silver, &alice, 9).unwrap();
    assert_eq!(mine, Mine::new(1, addr("alice"), MetalType::Silver, 9));
    let mine = Mine::open(41, addr("alice"), MetalType::Gold, &alice, 9).unwrap();
    assert_eq!(mine.id, 42);
    assert_eq!(
        Mine::open(41, addr("alice"), MetalType::Gold, &bob, 9),
        Err(ContractError::Unauthorized)
    );
    let mine = Mine::open(u32::MAX - 1, addr("bob"), MetalType::Iron, &bob, 0).unwrap();
    assert_eq!(mine.id, u32::MAX);
}
