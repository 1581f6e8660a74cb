//! The bus transport the driver runs on, as a trait the caller implements.
//!
//! The driver does not implement the electrical layer of the bus. It is
//! handed an implementation of [`OneWire`] (the bus primitives: reset,
//! device selection, byte and bit transfers) and of [`Delay`] (a blocking
//! microsecond wait), and its contracts speak of both through ghost
//! transcripts: [`OneWire::log`] is the sequence of bus operations performed
//! so far, [`Delay::delays`] the sequence of waits issued so far. Every
//! driver operation states exactly which entries it appends.
//!
//! The transcript records completed operations only: a primitive that fails
//! appends nothing. The driver aborts an operation on the first failure, so
//! a failed operation leaves behind exactly the prefix of its bus sequence
//! that had completed, and nothing after the failure.

use vstd::prelude::*;
use crate::error::ErrorKind;

verus! {

/// The bus address of one device.
///
/// The 64-bit ROM code of the device; its least-significant byte is the
/// family code that identifies the sensor model.
#[derive(Clone, Copy, Debug, PartialEq, Eq, Structural)]
pub struct Address(pub u64);

impl Address {
    /// The family-code byte of this address.
    pub open spec fn spec_family_code(self) -> u8 {
        (self.0 % 256) as u8
    }

    /// Returns the family-code byte of this address.
    pub fn family_code(&self) -> (r: u8)
        ensures
            r == self.spec_family_code(),
    {
        (self.0 % 256) as u8
    }
}

/// One entry of a bus transcript: a single completed bus operation.
pub enum BusOp {
    /// A bus reset pulse.
    Reset,
    /// A broadcast selection: every device on the bus is addressed.
    SkipAddress,
    /// A unicast selection: only the device with this address is addressed.
    MatchAddress(Address),
    /// One byte written to the selected device(s).
    WriteByte(u8),
    /// One bit read from the bus, with the level that was read.
    ReadBit(bool),
    /// A block of bytes read from the bus, with the data that was read.
    ReadBytes(Seq<u8>),
}

/// The transcript entry that selects the target of a command: a unicast
/// match of one address, or a broadcast skip.
pub open spec fn select_event(address: Option<Address>) -> BusOp {
    match address {
        Some(a) => BusOp::MatchAddress(a),
        None => BusOp::SkipAddress,
    }
}

/// The transcript of sending one command byte to a target: a reset, the
/// target selection, then the command byte.
pub open spec fn command_events(command: u8, address: Option<Address>) -> Seq<BusOp> {
    seq![BusOp::Reset, select_event(address), BusOp::WriteByte(command)]
}

/// The value of an optional borrowed address.
pub open spec fn addr_of(address: Option<&Address>) -> Option<Address> {
    match address {
        Some(a) => Some(*a),
        None => None,
    }
}

/// Holds when `exit` extends `entry` by a prefix of `events` and nothing
/// else: the operations that had completed before the first failure.
pub open spec fn partial_events(entry: Seq<BusOp>, events: Seq<BusOp>, exit: Seq<BusOp>) -> bool {
    exists|k: int|
        #![auto]
        0 <= k <= events.len() && exit == entry + events.take(k)
}

/// The bus primitives the driver is built on.
///
/// Implementations drive the physical bus (including its per-bit timing,
/// which is the transport's own business) and report failures with an
/// [`ErrorKind`]. The ghost transcript `log` records every completed
/// operation; each primitive's contract says what a successful call appends,
/// and that a failed call appends nothing.
pub trait OneWire: Sized {
    /// The bus operations this transport has completed so far.
    ///
    /// The default is only a placeholder so that implementations outside
    /// the verified library need not spell out a ghost transcript.
    open spec fn log(&self) -> Seq<BusOp> {
        Seq::empty()
    }

    /// Issues a reset pulse on the bus.
    fn reset(&mut self) -> (r: Result<(), ErrorKind>)
        ensures
            r is Ok ==> final(self).log() == old(self).log().push(BusOp::Reset),
            r is Err ==> final(self).log() == old(self).log(),
    ;

    /// Selects every device on the bus at once.
    fn skip_address(&mut self) -> (r: Result<(), ErrorKind>)
        ensures
            r is Ok ==> final(self).log() == old(self).log().push(BusOp::SkipAddress),
            r is Err ==> final(self).log() == old(self).log(),
    ;

    /// Selects the one device with the given address.
    fn match_address(&mut self, address: &Address) -> (r: Result<(), ErrorKind>)
        ensures
            r is Ok ==> final(self).log() == old(self).log().push(BusOp::MatchAddress(*address)),
            r is Err ==> final(self).log() == old(self).log(),
    ;

    /// Writes one byte to the selected device(s).
    fn write_byte(&mut self, byte: u8) -> (r: Result<(), ErrorKind>)
        ensures
            r is Ok ==> final(self).log() == old(self).log().push(BusOp::WriteByte(byte)),
            r is Err ==> final(self).log() == old(self).log(),
    ;

    /// Reads `count` bytes from the bus.
    fn read_bytes(&mut self, count: usize) -> (r: Result<Vec<u8>, ErrorKind>)
        ensures
            r matches Ok(bytes) ==> bytes@.len() == count && final(self).log() == old(
                self,
            ).log().push(BusOp::ReadBytes(bytes@)),
            r is Err ==> final(self).log() == old(self).log(),
    ;

    /// Reads one bit from the bus.
    fn read_bit(&mut self) -> (r: Result<bool, ErrorKind>)
        ensures
            r matches Ok(bit) ==> final(self).log() == old(self).log().push(BusOp::ReadBit(bit)),
            r is Err ==> final(self).log() == old(self).log(),
    ;

    /// Sends one command byte to one device (`Some` address) or to every
    /// device on the bus (`None`): a reset, the target selection, then the
    /// command byte.
    fn send_command(&mut self, command: u8, address: Option<&Address>) -> (r: Result<
        (),
        ErrorKind,
    >)
        ensures
            r is Ok ==> final(self).log() == old(self).log() + command_events(
                command,
                addr_of(address),
            ),
            r is Err ==> partial_events(
                old(self).log(),
                command_events(command, addr_of(address)),
                final(self).log(),
            ),
    {
        let ghost entry_log = self.log();
        let ghost events = command_events(command, addr_of(address));
        match self.reset() {
            Ok(()) => {},
            Err(kind) => {
                proof {
                    assert(self.log() =~= entry_log + events.take(0));
                    assert(partial_events(entry_log, events, self.log())) by {
                        assert(0 <= 0 <= events.len() && self.log() == entry_log + events.take(0));
                    }
                }
                return Err(kind);
            },
        }
        let selected = match address {
            Some(a) => self.match_address(a),
            None => self.skip_address(),
        };
        match selected {
            Ok(()) => {},
            Err(kind) => {
                proof {
                    assert(self.log() =~= entry_log + events.take(1));
                    assert(partial_events(entry_log, events, self.log())) by {
                        assert(0 <= 1 <= events.len() && self.log() == entry_log + events.take(1));
                    }
                }
                return Err(kind);
            },
        }
        match self.write_byte(command) {
            Ok(()) => {},
            Err(kind) => {
                proof {
                    assert(self.log() =~= entry_log + events.take(2));
                    assert(partial_events(entry_log, events, self.log())) by {
                        assert(0 <= 2 <= events.len() && self.log() == entry_log + events.take(2));
                    }
                }
                return Err(kind);
            },
        }
        proof {
            assert(self.log() =~= entry_log + events);
        }
        Ok(())
    }
}

/// Law: a broadcast command (no address) selects its targets with a skip
/// and never matches any address, while an addressed command matches exactly
/// the given address and never skips.
pub proof fn lemma_command_target_selection(command: u8, address: Option<Address>)
    ensures
        address is None ==> command_events(command, address).contains(BusOp::SkipAddress) && (forall|
            a: Address,
        | !command_events(command, address).contains(BusOp::MatchAddress(a))),
        address matches Some(a) ==> command_events(command, address).contains(BusOp::MatchAddress(a))
            && !command_events(command, address).contains(BusOp::SkipAddress),
{
    let events = command_events(command, address);
    assert(events[1] == select_event(address));
    match address {
        None => {
            assert(events.contains(BusOp::SkipAddress));
            assert forall|a: Address| !events.contains(BusOp::MatchAddress(a)) by {
                assert(forall|i: int|
                    0 <= i < events.len() ==> events[i] != BusOp::MatchAddress(a));
            }
        },
        Some(a) => {
            assert(events.contains(BusOp::MatchAddress(a)));
            assert(forall|i: int| 0 <= i < events.len() ==> events[i] != BusOp::SkipAddress);
        },
    }
}

/// A blocking wait provider.
///
/// The ghost transcript `delays` records every wait issued so far, so that a
/// driver operation's contract can state which waits it performs.
pub trait Delay: Sized {
    /// The waits this provider has performed so far, in microseconds each.
    ///
    /// The default is only a placeholder so that implementations outside
    /// the verified library need not spell out a ghost transcript.
    open spec fn delays(&self) -> Seq<u32> {
        Seq::empty()
    }

    /// Blocks for `us` microseconds.
    fn delay_us(&mut self, us: u32)
        ensures
            final(self).delays() == old(self).delays().push(us),
    ;
}

} // verus!
