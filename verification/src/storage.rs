use crate::codes::ScanCodeLayerStorage;
use crate::{NUM_CONFIGS, NUM_KEYS, NUM_LAYERS};
use vstd::prelude::*;

verus! {

/// The number under which the store keeps a record.
pub type InternalStorageKey = u16;

/// First number of the records that hold key map layers.
pub const SCAN_CODE_OFFSET: InternalStorageKey = 100;

/// Number of the record that marks the store as initialized.
pub const STORAGE_CHECK_KEY: InternalStorageKey = 0;

/// What the check record holds once the store is initialized.
pub const STORAGE_CHECK_VALUE: u32 = 0x69;

/// Names a record of the store.
#[derive(Debug, Clone, Copy, PartialEq, Eq, Structural)]
pub enum StorageKey {
    /// The record that tells an initialized store from erased flash.
    StorageCheck,
    /// The cells of all keys on one layer of one profile.
    KeyScanCode { config_num: usize, layer: usize },
}

/// What a record of the store holds.
#[derive(Debug, Clone, Copy)]
pub enum StorageItem {
    Key(ScanCodeLayerStorage<NUM_KEYS>),
}

impl StorageKey {
    /// The number of the record: 0 for the check, and for a layer 100 plus
    /// its place when the layers of all profiles are counted through.
    pub open spec fn spec_to_key(&self) -> int {
        match *self {
            StorageKey::StorageCheck => 0,
            StorageKey::KeyScanCode { config_num, layer } => SCAN_CODE_OFFSET + NUM_LAYERS
                * config_num + layer,
        }
    }

    /// Whether the key names a record that exists: the check, or a layer of
    /// a profile of the keyboard.
    pub open spec fn in_range(&self) -> bool {
        match *self {
            StorageKey::StorageCheck => true,
            StorageKey::KeyScanCode { config_num, layer } => config_num < NUM_CONFIGS && layer
                < NUM_LAYERS,
        }
    }

    pub fn to_key(&self) -> (key: InternalStorageKey)
        requires
            self.spec_to_key() <= u16::MAX,
        ensures
            key == self.spec_to_key(),
    {
        match *self {
            StorageKey::StorageCheck => 0,
            StorageKey::KeyScanCode { config_num, layer } => {
                SCAN_CODE_OFFSET + ((NUM_LAYERS * config_num) as InternalStorageKey)
                    + layer as InternalStorageKey
            },
        }
    }
}

impl StorageKey {
    /// The number of the record, unless it does not fit the numbers of the
    /// store.
    pub fn checked_to_key(&self) -> (key: Option<InternalStorageKey>)
        ensures
            key is Some <==> self.spec_to_key() <= u16::MAX,
            key matches Some(number) ==> number == self.spec_to_key(),
    {
        match *self {
            StorageKey::StorageCheck => Some(0),
            StorageKey::KeyScanCode { config_num, layer } => {
                if layer > 65435 || config_num > (65435 - layer) / NUM_LAYERS {
                    None
                } else {
                    Some(self.to_key())
                }
            },
        }
    }
}

/// The records of the layers of all profiles have numbers of their own: no
/// two of them share one, none is the number of the check record, and all fit
/// the number type of the store.
pub proof fn lemma_storage_keys_distinct(a: StorageKey, b: StorageKey)
    requires
        a.in_range(),
        b.in_range(),
    ensures
        a.spec_to_key() <= u16::MAX,
        a.spec_to_key() == b.spec_to_key() ==> a == b,
        a is KeyScanCode ==> SCAN_CODE_OFFSET <= a.spec_to_key() < SCAN_CODE_OFFSET + NUM_LAYERS
            * NUM_CONFIGS,
{
}

/// What the store is found to be when the keyboard starts.
#[derive(Debug, Clone, Copy, PartialEq, Eq, Structural)]
pub enum StorageCheck {
    /// The check record could not be read.
    Unreadable,
    /// There is no check record: the flash was never initialized.
    Missing,
    /// The check record holds this value.
    Found(u32),
}

/// What has to be done to the store before it is used.
#[derive(Debug, Clone, Copy, PartialEq, Eq, Structural)]
pub enum StorageInit {
    /// The store is initialized, or cannot be told from one: use it as it is.
    Keep,
    /// Erase everything, then write the check record with its value.
    EraseAndMark,
}

/// Decides from the check record whether the store has to be erased and
/// marked: whenever the record is missing or holds another value than the
/// mark. A store that cannot be read is left alone.
pub fn storage_init_action(check: StorageCheck) -> (action: StorageInit)
    ensures
        action == match check {
            StorageCheck::Unreadable => StorageInit::Keep,
            StorageCheck::Missing => StorageInit::EraseAndMark,
            StorageCheck::Found(value) => if value == STORAGE_CHECK_VALUE {
                StorageInit::Keep
            } else {
                StorageInit::EraseAndMark
            },
        },
{
    match check {
        StorageCheck::Unreadable => StorageInit::Keep,
        StorageCheck::Missing => StorageInit::EraseAndMark,
        StorageCheck::Found(value) => {
            if value != STORAGE_CHECK_VALUE {
                StorageInit::EraseAndMark
            } else {
                StorageInit::Keep
            }
        },
    }
}

} // verus!
