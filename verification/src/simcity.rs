//! The city entity: a 16x16 grid of tile codes with a population counter and
//! a money balance, owned by an authority and delegable to an execution
//! layer.

use vstd::prelude::*;
use crate::Pubkey;
use crate::auth::{authorize, authorized, SessionCredential};
use crate::lifecycle::{
    spec_commit, spec_commit_and_undelegate, spec_delegate, spec_store, LifecycleError,
    StateAccount,
};

verus! {

/// Tile code for an empty tile.
pub const TILE_EMPTY: u8 = 0;

/// Tile code for a residential building.
pub const TILE_RESIDENTIAL: u8 = 2;

/// Cost in money units of placing any building.
pub const BUILDING_COST: u64 = 100;

/// Money balance a fresh city starts with.
pub const STARTING_MONEY: u64 = 10000;

/// The city account's payload.
#[derive(Clone, Copy, Debug)]
pub struct City {
    /// The tile grid, row by row: 0 empty, 1 reserved, 2 residential,
    /// 3 commercial, 4 industrial.
    pub tiles: [[u8; 16]; 16],
    /// The current population.
    pub population: u32,
    /// The current money balance.
    pub money: u64,
    /// Unix timestamp of the last simulation step.
    pub last_updated: i64,
    /// The authority who can update the city.
    pub authority: Pubkey,
}

/// Errors of the city's own mutation rules.
#[derive(Clone, Copy, Debug, PartialEq, Eq, Structural)]
pub enum CityError {
    /// A coordinate lies outside the 16x16 grid.
    OutOfBounds,
    /// Building type zero is not a building.
    InvalidBuildingType,
    /// The signer is not the authority and holds no valid session credential.
    InvalidAuth,
    /// The balance cannot cover the building cost.
    NotEnoughMoney,
}

/// Inputs for creating a city account.
pub struct InitializeCity {
    /// The derived address the account will live at.
    pub address: Pubkey,
    /// The authority who will own the account.
    pub authority: Pubkey,
    /// The current unix timestamp, recorded as the creation time.
    pub now: i64,
}

/// Per-call context of a mutation request.
pub struct UpdateCity {
    /// The key that signed this request.
    pub signer: Pubkey,
    /// An optional session credential presented with the request.
    pub session_token: Option<SessionCredential>,
    /// The program the request targets; session credentials are scoped to it.
    pub program: Pubkey,
    /// The current unix timestamp, for credential expiry and step times.
    pub now: i64,
}

/// Inputs for delegating the city account.
pub struct DelegateInput {
    /// The authority requesting the delegation.
    pub payer: Pubkey,
    /// An optional specific execution-layer validator to pin.
    pub validator: Option<Pubkey>,
}

/// Inputs for commit and undelegate operations.
pub struct CommitInput {
    /// The authority requesting the commit.
    pub payer: Pubkey,
}

/// Whether the request context authorizes mutating this city account.
pub open spec fn update_authorized(a: StateAccount<City>, ctx: UpdateCity) -> bool {
    authorized(a.payload.authority, ctx.signer, ctx.session_token, ctx.program, ctx.now)
}

/// Number of residential tiles among the first `n` tiles of one row.
pub open spec fn row_residential(row: [u8; 16], n: int) -> int
    decreases n,
{
    if n <= 0 {
        0
    } else {
        row_residential(row, n - 1) + if row[n - 1] == TILE_RESIDENTIAL {
            1int
        } else {
            0int
        }
    }
}

/// Number of residential tiles in the first `rows` rows of the grid.
pub open spec fn residential_up_to(tiles: [[u8; 16]; 16], rows: int) -> int
    decreases rows,
{
    if rows <= 0 {
        0
    } else {
        residential_up_to(tiles, rows - 1) + row_residential(tiles[rows - 1], 16)
    }
}

/// Number of residential tiles in the whole grid.
pub open spec fn residential_count(tiles: [[u8; 16]; 16]) -> int {
    residential_up_to(tiles, 16)
}

pub proof fn lemma_row_residential_bounds(row: [u8; 16], n: int)
    requires
        0 <= n <= 16,
    ensures
        0 <= row_residential(row, n) <= n,
    decreases n,
{
    if n > 0 {
        lemma_row_residential_bounds(row, n - 1);
    }
}

pub proof fn lemma_residential_bounds(tiles: [[u8; 16]; 16], rows: int)
    requires
        0 <= rows <= 16,
    ensures
        0 <= residential_up_to(tiles, rows) <= 16 * rows,
    decreases rows,
{
    if rows > 0 {
        lemma_residential_bounds(tiles, rows - 1);
        lemma_row_residential_bounds(tiles[rows - 1], 16);
    }
}

/// Effect of one simulation step: the population grows by ten per
/// residential tile and the step time is recorded; nothing else moves.
pub open spec fn stepped(c: City, now: i64) -> City {
    City {
        tiles: c.tiles,
        population: (c.population + 10 * residential_count(c.tiles)) as u32,
        money: c.money,
        last_updated: now,
        authority: c.authority,
    }
}

/// Create a city account with an empty grid, no population and the starting
/// money balance.
pub fn initialize_city(ctx: &InitializeCity) -> (a: StateAccount<City>)
    ensures
        a.address == ctx.address,
        forall|y: int, x: int|
            0 <= y < 16 && 0 <= x < 16 ==> a.payload.tiles[y][x] == TILE_EMPTY,
        a.payload.population == 0,
        a.payload.money == STARTING_MONEY,
        a.payload.last_updated == ctx.now,
        a.payload.authority == ctx.authority,
        a.base_snapshot == a.payload,
        a.delegation_state is Local,
        a.validator is None,
        a.wf(),
{
    let tiles: [[u8; 16]; 16] = [[0u8; 16]; 16];
    let city = City {
        tiles,
        population: 0,
        money: STARTING_MONEY,
        last_updated: ctx.now,
        authority: ctx.authority,
    };
    StateAccount::new(ctx.address, city)
}

/// Place a building on the grid, paying the fixed cost. The bounds, type and
/// balance checks and the tile write are one atomic unit: on any error
/// neither the grid nor the balance moves.
pub fn place_building(
    account: &mut StateAccount<City>,
    ctx: &UpdateCity,
    x: u8,
    y: u8,
    building_type: u8,
) -> (r: Result<(), CityError>)
    ensures
        ({
            let a0 = *old(account);
            if !update_authorized(a0, *ctx) {
                &&& r == Err::<(), CityError>(CityError::InvalidAuth)
                &&& *final(account) == a0
            } else if !(x < 16 && y < 16) {
                &&& r == Err::<(), CityError>(CityError::OutOfBounds)
                &&& *final(account) == a0
            } else if building_type == 0 {
                &&& r == Err::<(), CityError>(CityError::InvalidBuildingType)
                &&& *final(account) == a0
            } else if a0.payload.money < BUILDING_COST {
                &&& r == Err::<(), CityError>(CityError::NotEnoughMoney)
                &&& *final(account) == a0
            } else {
                &&& r is Ok
                &&& *final(account) == spec_store(a0, final(account).payload)
                &&& final(account).payload.tiles[y as int][x as int] == building_type
                &&& forall|i: int, j: int|
                    0 <= i < 16 && 0 <= j < 16 && !(i == y as int && j == x as int)
                        ==> final(account).payload.tiles[i][j] == a0.payload.tiles[i][j]
                &&& final(account).payload.money == a0.payload.money - BUILDING_COST
                &&& final(account).payload.population == a0.payload.population
                &&& final(account).payload.last_updated == a0.payload.last_updated
                &&& final(account).payload.authority == a0.payload.authority
            }
        }),
        old(account).wf() ==> final(account).wf(),
{
    if !authorize(&account.payload.authority, &ctx.signer, &ctx.session_token, &ctx.program, ctx.now) {
        return Err(CityError::InvalidAuth);
    }
    if !(x < 16 && y < 16) {
        return Err(CityError::OutOfBounds);
    }
    if building_type == 0 {
        return Err(CityError::InvalidBuildingType);
    }
    if account.payload.money < BUILDING_COST {
        return Err(CityError::NotEnoughMoney);
    }
    let mut c = account.payload;
    let mut row = c.tiles[y as usize];
    row[x as usize] = building_type;
    c.tiles[y as usize] = row;
    c.money = c.money - BUILDING_COST;
    account.store(c);
    Ok(())
}

/// Clear a tile back to empty, free of charge.
pub fn bulldoze(account: &mut StateAccount<City>, ctx: &UpdateCity, x: u8, y: u8) -> (r: Result<
    (),
    CityError,
>)
    ensures
        ({
            let a0 = *old(account);
            if !update_authorized(a0, *ctx) {
                &&& r == Err::<(), CityError>(CityError::InvalidAuth)
                &&& *final(account) == a0
            } else if !(x < 16 && y < 16) {
                &&& r == Err::<(), CityError>(CityError::OutOfBounds)
                &&& *final(account) == a0
            } else {
                &&& r is Ok
                &&& *final(account) == spec_store(a0, final(account).payload)
                &&& final(account).payload.tiles[y as int][x as int] == TILE_EMPTY
                &&& forall|i: int, j: int|
                    0 <= i < 16 && 0 <= j < 16 && !(i == y as int && j == x as int)
                        ==> final(account).payload.tiles[i][j] == a0.payload.tiles[i][j]
                &&& final(account).payload.money == a0.payload.money
                &&& final(account).payload.population == a0.payload.population
                &&& final(account).payload.last_updated == a0.payload.last_updated
                &&& final(account).payload.authority == a0.payload.authority
            }
        }),
        old(account).wf() ==> final(account).wf(),
{
    if !authorize(&account.payload.authority, &ctx.signer, &ctx.session_token, &ctx.program, ctx.now) {
        return Err(CityError::InvalidAuth);
    }
    if !(x < 16 && y < 16) {
        return Err(CityError::OutOfBounds);
    }
    let mut c = account.payload;
    let mut row = c.tiles[y as usize];
    row[x as usize] = TILE_EMPTY;
    c.tiles[y as usize] = row;
    account.store(c);
    Ok(())
}

/// Run one simulation step: scan the grid, grow the population by ten per
/// residential tile, and record the step time.
pub fn step_simulation(account: &mut StateAccount<City>, ctx: &UpdateCity) -> (r: Result<
    (),
    CityError,
>)
    requires
        old(account).payload.population + 10 * residential_count(old(account).payload.tiles)
            <= u32::MAX,
    ensures
        ({
            let a0 = *old(account);
            if update_authorized(a0, *ctx) {
                &&& r is Ok
                &&& *final(account) == spec_store(a0, stepped(a0.payload, ctx.now))
            } else {
                &&& r == Err::<(), CityError>(CityError::InvalidAuth)
                &&& *final(account) == a0
            }
        }),
        old(account).wf() ==> final(account).wf(),
{
    if !authorize(&account.payload.authority, &ctx.signer, &ctx.session_token, &ctx.program, ctx.now) {
        return Err(CityError::InvalidAuth);
    }
    let tiles = account.payload.tiles;
    let mut count: u32 = 0;
    let mut yi: usize = 0;
    while yi < 16
        invariant
            yi <= 16,
            count == residential_up_to(tiles, yi as int),
            count <= 16 * yi,
        decreases 16 - yi,
    {
        let row = tiles[yi];
        let mut xi: usize = 0;
        while xi < 16
            invariant
                yi < 16,
                xi <= 16,
                row == tiles[yi as int],
                count == residential_up_to(tiles, yi as int) + row_residential(row, xi as int),
                count <= 16 * yi + xi,
            decreases 16 - xi,
        {
            proof {
                lemma_residential_bounds(tiles, yi as int);
                lemma_row_residential_bounds(row, xi as int);
            }
            if row[xi] == TILE_RESIDENTIAL {
                count = count + 1;
            }
            xi += 1;
        }
        yi += 1;
    }
    proof {
        lemma_residential_bounds(tiles, 16);
    }
    let c0 = account.payload;
    let mut c = c0;
    c.population = c0.population + count * 10;
    c.last_updated = ctx.now;
    account.store(c);
    proof {
        assert(c =~= stepped(c0, ctx.now));
    }
    Ok(())
}

/// Two simulation steps over an unchanged grid raise the population by the
/// same amount each time: ten per residential tile, with no hidden
/// saturation.
pub proof fn lemma_step_delta_repeats(c: City, t1: i64, t2: i64)
    requires
        c.population + 20 * residential_count(c.tiles) <= u32::MAX,
    ensures
        ({
            let c1 = stepped(c, t1);
            let c2 = stepped(c1, t2);
            &&& c1.population - c.population == 10 * residential_count(c.tiles)
            &&& c2.population - c1.population == c1.population - c.population
        }),
{
    lemma_residential_bounds(c.tiles, 16);
}

/// Delegate the city account to an execution layer.
pub fn delegate(account: &mut StateAccount<City>, ctx: &DelegateInput) -> (r: Result<
    (),
    LifecycleError,
>)
    requires
        ctx.payer == old(account).payload.authority,
    ensures
        (*final(account), r) == spec_delegate(*old(account), ctx.validator),
        old(account).wf() ==> final(account).wf(),
{
    account.delegate(ctx.validator)
}

/// Publish the city's working copy to the base layer, staying delegated.
pub fn commit(account: &mut StateAccount<City>, ctx: &CommitInput) -> (r: Result<
    (),
    LifecycleError,
>)
    requires
        ctx.payer == old(account).payload.authority,
    ensures
        (*final(account), r) == spec_commit(*old(account)),
        old(account).wf() ==> final(account).wf(),
{
    account.commit()
}

/// Publish the city's working copy and return it to the base layer.
pub fn undelegate(account: &mut StateAccount<City>, ctx: &CommitInput) -> (r: Result<
    (),
    LifecycleError,
>)
    requires
        ctx.payer == old(account).payload.authority,
    ensures
        (*final(account), r) == spec_commit_and_undelegate(*old(account)),
        old(account).wf() ==> final(account).wf(),
{
    account.commit_and_undelegate()
}

} // verus!
