//! Coordinate wrapping and small helpers shared by the update passes.

use crate::cells::life_cell::{EnergyDirections, LifeCell};
use crate::cells::WorldCell;
use crate::grid::Area;
use crate::types::CellDir;
use vstd::prelude::*;
use vstd::arithmetic::div_mod::{lemma_fundamental_div_mod, lemma_fundamental_div_mod_converse};

verus! {

/// Folds a signed coordinate onto `0..max`: the grid has no edge, leaving it on one side
/// means entering on the other.
pub fn get_continual_coord(n: i64, max: u32) -> (wrapped: u32)
    requires
        max > 0,
    ensures
        wrapped == (n as int) % (max as int),
        wrapped < max,
{
    let m: i64 = max as i64;
    if n >= 0 {
        (n % m) as u32
    } else {
        // -(n + 1) is never negative and fits, even for the smallest `n`
        let below: i64 = -(n + 1);
        let k: i64 = below % m;
        proof {
            let q: int = (below as int) / (m as int);
            lemma_fundamental_div_mod(below as int, m as int);
            assert(n as int == (-q - 1) * (m as int) + (m - 1 - k)) by (nonlinear_arith)
                requires
                    below as int == (m as int) * q + (k as int),
                    below as int == -(n as int + 1),
            ;
            lemma_fundamental_div_mod_converse(n as int, m as int, -q - 1, (m - 1 - k) as int);
        }
        (m - 1 - k) as u32
    }
}

/// Whether the organism `life` forwards energy in the direction `dir`.
pub open spec fn forwards_to(life: LifeCell, dir: CellDir) -> bool {
    life matches LifeCell::Alive(alive_cell) && alive_cell.energy_to.spec_get(dir)
}

/// Every direction through which energy flows at the centre of `area`: the directions
/// `directions`, and every direction from which a neighbour forwards energy to the centre.
pub open spec fn spec_merge_energy(area: &Area<WorldCell>, directions: EnergyDirections)
    -> EnergyDirections {
    EnergyDirections {
        up: directions.up || forwards_to(area.up.life, CellDir::Down),
        down: directions.down || forwards_to(area.down.life, CellDir::Up),
        left: directions.left || forwards_to(area.left.life, CellDir::Right),
        right: directions.right || forwards_to(area.right.life, CellDir::Left),
    }
}

#[verifier::when_used_as_spec(spec_merge_energy)]
pub fn merge_energy(area: &Area<WorldCell>, directions: EnergyDirections) -> (merged:
    EnergyDirections)
    ensures
        merged == spec_merge_energy(area, directions),
{
    let mut directions = directions;
    if let LifeCell::Alive(life) = area.up.life {
        if life.energy_to.down {
            directions.up = true
        }
    }
    if let LifeCell::Alive(life) = area.down.life {
        if life.energy_to.up {
            directions.down = true
        }
    }
    if let LifeCell::Alive(life) = area.left.life {
        if life.energy_to.right {
            directions.left = true
        }
    }
    if let LifeCell::Alive(life) = area.right.life {
        if life.energy_to.left {
            directions.right = true
        }
    }
    directions
}

/// Shares the sum of nine amounts out in nine equal parts: returns the part and what is
/// left over.
pub fn all_foreach_left(
    a: u8,
    b: u8,
    c: u8,
    d: u8,
    e: u8,
    f: u8,
    g: u8,
    h: u8,
    i: u8,
) -> (share: (u8, u8))
    ensures
        share.0 == (a + b + c + d + e + f + g + h + i) / 9,
        share.1 == (a + b + c + d + e + f + g + h + i) % 9,
{
    let mut total: u16 = 0;
    total += a as u16;
    total += b as u16;
    total += c as u16;
    total += d as u16;
    total += e as u16;
    total += f as u16;
    total += g as u16;
    total += h as u16;
    total += i as u16;
    let foreach: u8 = (total / 9) as u8;
    let left: u8 = (total - (foreach as u16 * 9)) as u8;
    (foreach, left)
}

} // verus!
