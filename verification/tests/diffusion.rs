use spectaculife::cells::air_cell::AirCell;
use spectaculife::cells::life_cell::LifeCell;
use spectaculife::cells::soil_cell::SoilCell;
use spectaculife::cells::WorldCell;
use spectaculife::grid::Area;
use spectaculife::update::air::update_air;
use spectaculife::update::soil::update_soil;
use spectaculife::utils::all_foreach_left;

fn cell(organics: u8, energy: u64, pollution: u8) -> WorldCell {
    WorldCell {
        life: LifeCell::Dead,
        soil: SoilCell { organics, energy },
        air: AirCell { pollution },
    }
}

fn area_of(cells: [WorldCell; 9]) -> Area<WorldCell> {
    Area {
        up_left: cells[0],
        up: cells[1],
        up_right: cells[2],
        left: cells[3],
        center: cells[4],
        right: cells[5],
        down_left: cells[6],
        down: cells[7],
        down_right: cells[8],
        x: 1,
        y: 1,
        columns: 3,
        rows: 3,
    }
}

fn cells_of(area: &Area<WorldCell>) -> [WorldCell; 9] {
    [
        area.up_left,
        area.up,
        area.up_right,
        area.left,
        area.center,
        area.right,
        area.down_left,
        area.down,
        area.down_right,
    ]
}

fn soil_sum(area: &Area<WorldCell>) -> u128 {
    cells_of(area).iter().map(|c| c.soil.energy as u128).sum()
}

fn pollution_sum(area: &Area<WorldCell>) -> u32 {
    cells_of(area).iter().map(|c| c.air.pollution as u32).sum()
}

#[test]
fn soil_energy_is_averaged_over_nine_cells() {
    let mut area = area_of([
        cell(0, 9_000_000, 0),
        cell(0, 0, 0),
        cell(0, 0, 0),
        cell(0, 0, 0),
        cell(0, 0, 0),
        cell(0, 0, 0),
        cell(0, 0, 0),
        cell(0, 0, 0),
        cell(0, 0, 0),
    ]);
    update_soil(&mut area);
    for c in cells_of(&area) {
        assert_eq!(c.soil.energy, 1_000_000);
    }
    assert_eq!(soil_sum(&area), 9_000_000);
}

#[test]
fn soil_diffusion_loses_less_than_nine_parts() {
    let mut area = area_of([
        cell(3, 1, 7),
        cell(0, 2, 0),
        cell(0, 3, 0),
        cell(0, 4, 0),
        cell(5, 5_000_000, 9),
        cell(0, 6, 0),
        cell(0, 7, 0),
        cell(0, 8, 0),
        cell(0, 9, 0),
    ]);
    let before = soil_sum(&area);
    update_soil(&mut area);
    let after = soil_sum(&area);
    assert_eq!(before, 5_000_040);
    assert_eq!(area.center.soil.energy, 555_560);
    assert_eq!(after, 5_000_040);
    assert_eq!(area.center.soil.organics, 5);
    assert_eq!(area.center.air.pollution, 9);
    assert_eq!(area.up_left.soil.organics, 3);
}

#[test]
fn soil_diffusion_holds_the_largest_energies() {
    let mut area = area_of([cell(0, u64::MAX, 0); 9]);
    update_soil(&mut area);
    assert_eq!(area.center.soil.energy, u64::MAX);
    let mut uneven = area_of([cell(0, u64::MAX, 0); 9]);
    uneven.center.soil.energy = 0;
    update_soil(&mut uneven);
    assert_eq!(uneven.up.soil.energy, ((u64::MAX as u128 * 8) / 9) as u64);
}

#[test]
fn pollution_spreads_only_without_remainder() {
    let mut area = area_of([cell(0, 0, 0); 9]);
    area.center.air.pollution = 9;
    update_air(&mut area);
    assert_eq!(
        cells_of(&area).map(|c| c.air.pollution),
        [0, 0, 1, 0, 1, 2, 1, 2, 2]
    );
    assert_eq!(pollution_sum(&area), 9);

    let mut stuck = area_of([cell(0, 0, 0); 9]);
    stuck.center.air.pollution = 10;
    let before = stuck;
    update_air(&mut stuck);
    assert_eq!(stuck, before);
}

#[test]
fn pollution_stays_where_the_share_is_zero_or_full() {
    let mut clean = area_of([cell(0, 0, 0); 9]);
    let before = clean;
    update_air(&mut clean);
    assert_eq!(clean, before);

    let mut full = area_of([cell(0, 0, 255); 9]);
    let before = full;
    update_air(&mut full);
    assert_eq!(full, before);

    let mut nearly = area_of([cell(0, 0, 254); 9]);
    update_air(&mut nearly);
    assert_eq!(
        cells_of(&nearly).map(|c| c.air.pollution),
        [253, 253, 254, 253, 254, 255, 254, 255, 255]
    );
    assert_eq!(pollution_sum(&nearly), 9 * 254);
}

#[test]
fn shares_and_remainder_of_nine_amounts() {
    assert_eq!(all_foreach_left(1, 2, 3, 4, 5, 6, 7, 8, 9), (5, 0));
    assert_eq!(all_foreach_left(255, 255, 255, 255, 255, 255, 255, 255, 255), (255, 0));
    assert_eq!(all_foreach_left(0, 0, 0, 0, 0, 0, 0, 0, 8), (0, 8));
    assert_eq!(all_foreach_left(10, 0, 0, 0, 0, 0, 0, 0, 0), (1, 1));
}

#[test]
fn on_a_single_cell_the_last_write_of_the_pollution_stays() {
    // all nine places are the one cell: the nine shares are written to it one after the
    // other, and the last of them is one more than the even share
    let mut area = area_of([cell(0, 0, 9); 9]);
    area.columns = 1;
    area.rows = 1;
    update_air(&mut area);
    assert_eq!(cells_of(&area).map(|c| c.air.pollution), [10; 9]);

    // on two columns the cells to the left and to the right are one cell
    let mut area = area_of([cell(0, 0, 9); 9]);
    area.columns = 2;
    area.rows = 3;
    update_air(&mut area);
    assert_eq!(
        cells_of(&area).map(|c| c.air.pollution),
        [9, 8, 9, 10, 9, 10, 10, 10, 10]
    );
}

#[test]
fn soil_energy_spreads_evenly_on_narrow_grids_too() {
    let mut area = area_of([cell(0, 18, 0); 9]);
    area.columns = 1;
    area.rows = 2;
    update_soil(&mut area);
    assert_eq!(cells_of(&area).map(|c| c.soil.energy), [18; 9]);
}
