//! Key resolution, report generation and split-link logic for a layered,
//! split keyboard, with the contracts of each part proved.

use vstd::prelude::*;

pub mod code_set;
pub mod codes;
pub mod com;
pub mod descriptor;
pub mod indicator;
pub mod key_config;
pub mod keys;
pub mod matrix;
pub mod position;
pub mod radio;
pub mod report;
pub mod scan_codes;
pub mod sensors;
pub mod slave_com;
pub mod storage;

verus! {

/// Number of independently stored key maps.
pub const NUM_CONFIGS: usize = 3;

/// Number of key switches over both halves.
pub const NUM_KEYS: usize = 36;

/// Number of layers in each key map.
pub const NUM_LAYERS: usize = 6;

/// 1 when the keyboard is made of two halves, 0 otherwise.
pub const IS_SPLIT: usize = 1;

/// Number of cells in a key map: one for each key on each layer.
pub const NUM_CELLS: usize = 216;

/// The number of cells is the number of keys times the number of layers,
/// and each half has half of the keys.
pub proof fn lemma_sizes()
    ensures
        NUM_CELLS == NUM_KEYS * NUM_LAYERS,
        2 * sensors::HALF_KEYS == NUM_KEYS,
{
}

} // verus!
