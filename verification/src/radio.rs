//! The reliable two-way link between the halves of the keyboard, over a
//! packet radio: packets, the mailboxes between the link and the
//! application, and the state machines of both ends.

use vstd::prelude::*;

pub mod central;
pub mod mailbox;
pub mod packet;
pub mod peripheral;
pub mod reliable;
pub mod simple;

verus! {

pub const DONGLE_ADDRESS: u32 = 0x0A55_0A55;

pub const DONGLE_PREFIX: u8 = 0x42;

pub const KEYBOARD_ADDRESS: u32 = 0x0727_0727;

pub const LEFT_PREFIX: u8 = 0x21;

pub const RIGHT_PREFIX: u8 = 0x25;

/// The two base addresses of the radio and the prefixes that, joined to a
/// base address, make its logical addresses.
#[derive(Clone, Copy, Debug)]
pub struct Addresses {
    pub base: [u32; 2],
    pub prefix: [[u8; 4]; 2],
}

impl Addresses {
    /// The addresses of the dongle and of the two halves; every other prefix
    /// is 0.
    pub fn default() -> (addresses: Self)
        ensures
            addresses.base@ == seq![DONGLE_ADDRESS, KEYBOARD_ADDRESS],
            addresses.prefix[0]@ == seq![DONGLE_PREFIX, LEFT_PREFIX, RIGHT_PREFIX, 0u8],
            addresses.prefix[1]@ == seq![0u8, 0u8, 0u8, 0u8],
    {
        let addresses = Addresses {
            base: [DONGLE_ADDRESS, KEYBOARD_ADDRESS],
            prefix: [[DONGLE_PREFIX, LEFT_PREFIX, RIGHT_PREFIX, 0], [0, 0, 0, 0]],
        };
        assert(addresses.base@ =~= seq![DONGLE_ADDRESS, KEYBOARD_ADDRESS]);
        assert(addresses.prefix[0]@ =~= seq![DONGLE_PREFIX, LEFT_PREFIX, RIGHT_PREFIX, 0u8]);
        assert(addresses.prefix[1]@ =~= seq![0u8, 0u8, 0u8, 0u8]);
        addresses
    }
}

} // verus!
