//! Characteristics as service discovery reports them.

use vstd::prelude::*;

verus! {

/// UUID of the Current Time characteristic,
/// `00002a2b-0000-1000-8000-00805f9b34fb`, as a 128-bit number.
pub const TIME_CHARACTERISTIC_UUID: u128 = 0x00002a2b_0000_1000_8000_00805f9b34fb;

/// UUID of the characteristic on which the device sends notifications,
/// `6e400002-b534-f393-67a9-e50e24dcca9e`. No run subscribes to it.
pub const NOTIFY_CHARACTERISTIC_UUID: u128 = 0x6e400002_b534_f393_67a9_e50e24dcca9e;

/// Property bit: the value may be broadcast.
pub const PROPERTY_BROADCAST: u8 = 0x01;

/// Property bit: the value may be read.
pub const PROPERTY_READ: u8 = 0x02;

/// Property bit: the value may be written without a response.
pub const PROPERTY_WRITE_WITHOUT_RESPONSE: u8 = 0x04;

/// Property bit: the value may be written, with a response.
pub const PROPERTY_WRITE: u8 = 0x08;

/// Property bit: the value may be notified.
pub const PROPERTY_NOTIFY: u8 = 0x10;

/// Property bit: the value may be indicated.
pub const PROPERTY_INDICATE: u8 = 0x20;

/// Property bit: signed writes are accepted.
pub const PROPERTY_AUTHENTICATED_SIGNED_WRITES: u8 = 0x40;

/// Property bit: extended properties are present.
pub const PROPERTY_EXTENDED_PROPERTIES: u8 = 0x80;

/// A characteristic of a connected peripheral. Its place in the discovered
/// list is the handle by which the driver knows it.
#[derive(Clone, Copy, Debug, PartialEq, Eq, Structural)]
pub struct CharacteristicDescriptor {
    /// The characteristic's UUID as a 128-bit number.
    pub uuid: u128,
    /// The characteristic's property bits.
    pub properties: u8,
}

impl CharacteristicDescriptor {
    /// The property bits include every bit of `flags`.
    pub open spec fn has(&self, flags: u8) -> bool {
        self.properties & flags == flags
    }

    /// The characteristic may be read.
    pub open spec fn readable(&self) -> bool {
        self.has(PROPERTY_READ)
    }

    /// The characteristic is the Current Time characteristic.
    pub open spec fn keeps_time(&self) -> bool {
        self.uuid == TIME_CHARACTERISTIC_UUID
    }

    /// Tells whether the property bits include every bit of `flags`.
    pub fn supports(&self, flags: u8) -> (yes: bool)
        ensures
            yes == self.has(flags),
    {
        self.properties & flags == flags
    }

    /// Tells whether the characteristic may be read.
    pub fn is_readable(&self) -> (yes: bool)
        ensures
            yes == self.readable(),
    {
        self.supports(PROPERTY_READ)
    }

    /// Tells whether the characteristic is the Current Time characteristic.
    pub fn is_time_characteristic(&self) -> (yes: bool)
        ensures
            yes == self.keeps_time(),
    {
        self.uuid == TIME_CHARACTERISTIC_UUID
    }
}

/// Index of the first time characteristic at or after `from`, or `None` where
/// none is left.
pub open spec fn first_time_characteristic(
    characteristics: Seq<CharacteristicDescriptor>,
    from: nat,
) -> Option<nat>
    decreases characteristics.len() - from,
{
    if from >= characteristics.len() {
        None
    } else if characteristics[from as int].keeps_time() {
        Some(from)
    } else {
        first_time_characteristic(characteristics, from + 1)
    }
}

/// `first_time_characteristic` finds the least index from `from` on that
/// holds a time characteristic, and none only where there is none.
pub proof fn lemma_first_time_characteristic_is_least(
    characteristics: Seq<CharacteristicDescriptor>,
    from: nat,
)
    ensures
        match first_time_characteristic(characteristics, from) {
            Some(found) => {
                &&& from <= found < characteristics.len()
                &&& characteristics[found as int].keeps_time()
                &&& forall|i: int| from <= i < found ==> !(#[trigger] characteristics[i]).keeps_time()
            },
            None => forall|i: int|
                from <= i < characteristics.len() ==> !(#[trigger] characteristics[i]).keeps_time(),
        },
    decreases characteristics.len() - from,
{
    if from < characteristics.len() && !characteristics[from as int].keeps_time() {
        lemma_first_time_characteristic_is_least(characteristics, from + 1);
    }
}

/// Finds the first time characteristic at or after `from`.
pub fn find_time_characteristic(characteristics: &Vec<CharacteristicDescriptor>, from: usize) -> (found:
    Option<usize>)
    ensures
        match found {
            Some(i) => first_time_characteristic(characteristics@, from as nat) == Some(i as nat),
            None => first_time_characteristic(characteristics@, from as nat) is None,
        },
{
    let mut i: usize = from;
    while i < characteristics.len()
        invariant
            from <= i,
            first_time_characteristic(characteristics@, from as nat) == first_time_characteristic(
                characteristics@,
                i as nat,
            ),
        decreases characteristics.len() - i,
    {
        if characteristics[i].is_time_characteristic() {
            return Some(i);
        }
        i += 1;
    }
    None
}

} // verus!
