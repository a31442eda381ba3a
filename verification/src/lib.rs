//! A cellular artificial-life world on a toroidal grid.
//!
//! Every cell of the world carries three layers: an organism (or nothing), the soil under it
//! and the air above it. Once per tick every cell is visited together with its eight
//! neighbours; soil energy and air pollution diffuse, the organism pays its upkeep, produces
//! and forwards energy, and stem cells execute the active gene of their genome.
//!
//! Energy is an integer count of millionths of an energy unit (see
//! [`cells::soil_cell::ENERGY_UNIT`]), so every rule of the world is exact integer arithmetic.

pub mod cells;
pub mod grid;
pub mod random;
pub mod types;
pub mod update;
pub mod utils;
pub mod world;
