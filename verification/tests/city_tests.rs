use ephemeral_state::simcity::{
    bulldoze, initialize_city, place_building, step_simulation, CityError, InitializeCity,
    UpdateCity,
};
use ephemeral_state::Pubkey;

fn key(b: u8) -> Pubkey {
    Pubkey { bytes: [b; 32] }
}

fn owner_ctx(authority: Pubkey, now: i64) -> UpdateCity {
    UpdateCity { signer: authority, session_token: None, program: key(9), now }
}

fn fresh_city(authority: Pubkey) -> ephemeral_state::lifecycle::StateAccount<
    ephemeral_state::simcity::City,
> {
    initialize_city(&InitializeCity { address: key(7), authority, now: 100 })
}

#[test]
fn initialize_city_starts_empty() {
    let a = fresh_city(key(1));
    for y in 0..16 {
        for x in 0..16 {
            assert_eq!(a.payload.tiles[y][x], 0);
        }
    }
    assert_eq!(a.payload.population, 0);
    assert_eq!(a.payload.money, 10000);
    assert_eq!(a.payload.last_updated, 100);
}

#[test]
fn place_building_writes_tile_and_charges() {
    let authority = key(1);
    let ctx = owner_ctx(authority, 101);
    let mut a = fresh_city(authority);
    assert!(place_building(&mut a, &ctx, 3, 5, 4).is_ok());
    assert_eq!(a.payload.tiles[5][3], 4);
    assert_eq!(a.payload.money, 9900);
}

#[test]
fn out_of_bounds_coordinates_are_rejected() {
    let authority = key(1);
    let ctx = owner_ctx(authority, 101);
    let mut a = fresh_city(authority);
    for (x, y) in [(16u8, 0u8), (0, 16), (16, 16), (255, 3), (3, 255)] {
        let before = a.payload;
        assert!(matches!(place_building(&mut a, &ctx, x, y, 2), Err(CityError::OutOfBounds)));
        assert_eq!(a.payload.tiles, before.tiles);
        assert_eq!(a.payload.money, before.money);
        assert!(matches!(bulldoze(&mut a, &ctx, x, y), Err(CityError::OutOfBounds)));
        assert_eq!(a.payload.tiles, before.tiles);
    }
}

#[test]
fn building_type_zero_is_rejected() {
    let authority = key(1);
    let ctx = owner_ctx(authority, 101);
    let mut a = fresh_city(authority);
    assert!(matches!(place_building(&mut a, &ctx, 1, 1, 0), Err(CityError::InvalidBuildingType)));
    assert_eq!(a.payload.tiles[1][1], 0);
    assert_eq!(a.payload.money, 10000);
}

#[test]
fn not_enough_money_changes_nothing() {
    let authority = key(1);
    let ctx = owner_ctx(authority, 101);
    let mut a = fresh_city(authority);
    // 10000 money pays for exactly 100 placements
    let mut placed = 0;
    'outer: for y in 0..16u8 {
        for x in 0..16u8 {
            if placed == 100 {
                break 'outer;
            }
            assert!(place_building(&mut a, &ctx, x, y, 3).is_ok());
            placed += 1;
        }
    }
    assert_eq!(a.payload.money, 0);
    let before = a.payload;
    let r = place_building(&mut a, &ctx, 15, 15, 3);
    assert!(matches!(r, Err(CityError::NotEnoughMoney)));
    assert_eq!(a.payload.tiles[15][15], before.tiles[15][15]);
    assert_eq!(a.payload.tiles, before.tiles);
    assert_eq!(a.payload.money, 0);
}

#[test]
fn bulldoze_clears_tile_for_free() {
    let authority = key(1);
    let ctx = owner_ctx(authority, 101);
    let mut a = fresh_city(authority);
    assert!(place_building(&mut a, &ctx, 2, 2, 3).is_ok());
    assert!(bulldoze(&mut a, &ctx, 2, 2).is_ok());
    assert_eq!(a.payload.tiles[2][2], 0);
    assert_eq!(a.payload.money, 9900);
}

#[test]
fn step_simulation_grows_population_per_residential_tile() {
    let authority = key(1);
    let ctx = owner_ctx(authority, 200);
    let mut a = fresh_city(authority);
    assert!(place_building(&mut a, &ctx, 0, 0, 2).is_ok());
    assert!(place_building(&mut a, &ctx, 4, 9, 2).is_ok());
    assert!(place_building(&mut a, &ctx, 5, 9, 3).is_ok());
    assert!(step_simulation(&mut a, &ctx).is_ok());
    assert_eq!(a.payload.population, 20);
    assert_eq!(a.payload.last_updated, 200);
    // same grid, same delta again
    let later = owner_ctx(authority, 300);
    assert!(step_simulation(&mut a, &later).is_ok());
    assert_eq!(a.payload.population, 40);
    assert_eq!(a.payload.last_updated, 300);
}

#[test]
fn step_simulation_with_no_residential_keeps_population() {
    let authority = key(1);
    let ctx = owner_ctx(authority, 200);
    let mut a = fresh_city(authority);
    assert!(place_building(&mut a, &ctx, 0, 0, 3).is_ok());
    assert!(step_simulation(&mut a, &ctx).is_ok());
    assert_eq!(a.payload.population, 0);
    assert_eq!(a.payload.last_updated, 200);
}

#[test]
fn city_mutation_without_authority_is_denied() {
    let authority = key(1);
    let intruder = UpdateCity { signer: key(2), session_token: None, program: key(9), now: 101 };
    let mut a = fresh_city(authority);
    assert!(matches!(place_building(&mut a, &intruder, 0, 0, 2), Err(CityError::InvalidAuth)));
    assert!(matches!(bulldoze(&mut a, &intruder, 0, 0), Err(CityError::InvalidAuth)));
    assert!(matches!(step_simulation(&mut a, &intruder), Err(CityError::InvalidAuth)));
    assert_eq!(a.payload.money, 10000);
    assert_eq!(a.payload.population, 0);
}

#[test]
fn city_end_to_end() {
    let authority = key(1);
    let ctx = owner_ctx(authority, 50);
    let mut a = fresh_city(authority);
    assert_eq!(a.payload.money, 10000);
    assert!(place_building(&mut a, &ctx, 0, 0, 2).is_ok());
    assert_eq!(a.payload.money, 9900);
    assert_eq!(a.payload.tiles[0][0], 2);
    assert!(step_simulation(&mut a, &ctx).is_ok());
    assert_eq!(a.payload.population, 10);
}
