//! A protocol driver for the DS18B20 family of one-wire digital temperature
//! sensors.
//!
//! The driver turns high-level operations (start a measurement, read the
//! sensor's data, configure alarms, save or recall the configuration in
//! EEPROM) into the exact sequences of bus commands and data bytes the
//! device understands, and decodes the device's raw 9-byte scratchpad into
//! typed sensor data.
//!
//! The bus itself is supplied by the caller as an implementation of the
//! [`transport::OneWire`] trait; blocking waits come from an implementation
//! of [`transport::Delay`]. Every operation's contract states, over the
//! transport's ghost transcript, exactly which bus operations it performs.

use vstd::prelude::*;

pub mod commands;
pub mod error;
pub mod resolution;
pub mod transport;

use crate::error::Error;
pub use crate::resolution::Resolution;
use crate::transport::{addr_of, command_events, partial_events, Address, BusOp, Delay, OneWire};

verus! {

/// The family code carried in the bus address of every sensor of this
/// family.
pub const FAMILY_CODE: u8 = 0x28;

/// How long the transport's single-bit read slot lasts, in microseconds.
/// The iteration ceiling of the EEPROM recall poll is derived from it, so it
/// must be revisited if the transport's bit-read timing changes.
pub const READ_SLOT_DURATION_MICROS: u32 = 15;

/// How long an EEPROM operation can take at most, in microseconds: the
/// recall poll's time budget, and the unconditional wait after a save.
pub const EEPROM_OPERATION_MICROS: u32 = 10000;

/// The raw temperature register value as an unsigned 16-bit integer, read
/// little-endian from the first two scratchpad bytes.
pub open spec fn spec_raw_temperature(lo: u8, hi: u8) -> int {
    hi * 256 + lo
}

/// The value of a 16-bit two's-complement bit pattern.
pub open spec fn spec_signed_16(raw: int) -> int
    recommends
        0 <= raw < 65536,
{
    if raw >= 32768 {
        raw - 65536
    } else {
        raw
    }
}

/// The value of an 8-bit two's-complement bit pattern.
pub open spec fn spec_signed_8(b: u8) -> int {
    if b >= 128 {
        b - 256
    } else {
        b as int
    }
}

/// The 8-bit two's-complement bit pattern of a signed byte value.
pub open spec fn spec_unsigned_8(v: i8) -> u8 {
    if v >= 0 {
        v as u8
    } else {
        (v + 256) as u8
    }
}

/// The decoded temperature in sixteenths of a degree Celsius: the raw
/// register value, interpreted as a signed 16-bit fixed-point number, scaled
/// by the resolution's LSB weight.
pub open spec fn spec_temperature_sixteenths(lo: u8, hi: u8, resolution: Resolution) -> int {
    spec_signed_16(spec_raw_temperature(lo, hi)) * resolution.spec_scale_sixteenths()
}

/// Law: the raw temperature is interpreted as a signed value before
/// scaling, so a bit pattern with the sign bit set decodes to a negative
/// temperature at every resolution, and one without it to a non-negative
/// temperature — never to a large positive misreading.
pub proof fn lemma_temperature_sign_preserved(lo: u8, hi: u8, resolution: Resolution)
    ensures
        spec_raw_temperature(lo, hi) >= 32768 ==> spec_temperature_sixteenths(lo, hi, resolution)
            < 0,
        spec_raw_temperature(lo, hi) < 32768 ==> spec_temperature_sixteenths(lo, hi, resolution)
            >= 0,
{
    let signed = spec_signed_16(spec_raw_temperature(lo, hi));
    let scale = resolution.spec_scale_sixteenths();
    assert(signed < 0 ==> signed * scale < 0) by (nonlinear_arith)
        requires
            scale >= 1,
    ;
    assert(signed >= 0 ==> signed * scale >= 0) by (nonlinear_arith)
        requires
            scale >= 1,
    ;
}

/// Law: an alarm threshold written by the configuration path reads back as
/// the same value through the decoding path (the two's-complement encoding
/// and decoding of a signed byte are mutually inverse).
pub proof fn lemma_alarm_byte_round_trip(v: i8)
    ensures
        spec_signed_8(spec_unsigned_8(v)) == v as int,
{
}

/// The full bus sequence of a configuration write: the `WRITE_SCRATCHPAD`
/// command addressed to the device, then exactly three data bytes in the
/// protocol-mandated order alarm high, alarm low, resolution configuration
/// byte.
pub open spec fn config_events(
    address: Address,
    alarm_temp_low: i8,
    alarm_temp_high: i8,
    resolution: Resolution,
) -> Seq<BusOp> {
    command_events(commands::WRITE_SCRATCHPAD, Some(address)) + seq![
        BusOp::WriteByte(spec_unsigned_8(alarm_temp_high)),
        BusOp::WriteByte(spec_unsigned_8(alarm_temp_low)),
        BusOp::WriteByte(resolution.spec_to_config_register()),
    ]
}

/// All of the data that can be read from the sensor.
#[derive(Clone, Copy, Debug, PartialEq, Eq, Structural)]
pub struct SensorData {
    /// Temperature in sixteenths of a degree Celsius (the device's full-
    /// resolution fixed-point unit: divide by 16 for degrees). Holds
    /// 85 °C, a power-on sentinel and not a measurement, before the first
    /// conversion.
    pub temperature_sixteenths: i32,
    /// The resolution configured in the device.
    pub resolution: Resolution,
    /// If the last recorded temperature is lower than this, the device
    /// enters an alarm state. Whole degrees Celsius.
    pub alarm_temp_low: i8,
    /// If the last recorded temperature is higher than this, the device
    /// enters an alarm state. Whole degrees Celsius.
    pub alarm_temp_high: i8,
}

/// What a 9-byte scratchpad block decodes to: the sensor data it carries,
/// or a `CrcMismatch` failure when its configuration byte is not a valid
/// resolution encoding (the driver's integrity check on the block).
pub open spec fn spec_decode_scratchpad(scratchpad: Seq<u8>) -> Result<SensorData, Error>
    recommends
        scratchpad.len() == 9,
{
    match Resolution::spec_from_config_register(scratchpad[4]) {
        Some(resolution) => Ok(
            SensorData {
                temperature_sixteenths: spec_temperature_sixteenths(
                    scratchpad[0],
                    scratchpad[1],
                    resolution,
                ) as i32,
                resolution,
                alarm_temp_high: spec_signed_8(scratchpad[2]) as i8,
                alarm_temp_low: spec_signed_8(scratchpad[3]) as i8,
            },
        ),
        None => Err(Error::CrcMismatch),
    }
}

/// Decodes a byte holding an 8-bit two's-complement value.
fn decode_i8(b: u8) -> (r: i8)
    ensures
        r as int == spec_signed_8(b),
{
    if b >= 128 {
        ((b as i16) - 256) as i8
    } else {
        b as i8
    }
}

/// Encodes a signed byte value as its 8-bit two's-complement bit pattern.
fn encode_i8(v: i8) -> (r: u8)
    ensures
        r == spec_unsigned_8(v),
{
    if v >= 0 {
        v as u8
    } else {
        ((v as i16) + 256) as u8
    }
}

/// Decodes a 9-byte scratchpad block into sensor data.
///
/// Fails with [`Error::CrcMismatch`] exactly when the configuration byte
/// (index 4) is not one of the four valid resolution encodings; the
/// temperature bytes are interpreted as a signed little-endian 16-bit value
/// before scaling, so negative readings decode as negative.
pub fn decode_scratchpad(scratchpad: &Vec<u8>) -> (r: Result<SensorData, Error>)
    requires
        scratchpad@.len() == 9,
    ensures
        r == spec_decode_scratchpad(scratchpad@),
{
    let resolution = match Resolution::from_config_register(scratchpad[4]) {
        Some(resolution) => resolution,
        None => {
            return Err(Error::CrcMismatch);
        },
    };
    let raw: u16 = (scratchpad[0] as u16) + (scratchpad[1] as u16) * 256;
    let signed: i32 = if raw >= 32768 {
        (raw as i32) - 65536
    } else {
        raw as i32
    };
    let scale = resolution.scale_sixteenths();
    proof {
        assert(-32768 <= signed <= 32767);
        assert(1 <= scale <= 8);
        assert(-262144 <= signed * scale <= 262136) by (nonlinear_arith)
            requires
                -32768 <= signed <= 32767,
                1 <= scale <= 8,
        ;
    }
    let temperature_sixteenths: i32 = signed * scale;
    Ok(
        SensorData {
            temperature_sixteenths,
            resolution,
            alarm_temp_high: decode_i8(scratchpad[2]),
            alarm_temp_low: decode_i8(scratchpad[3]),
        },
    )
}

/// One sensor on the bus: a validated address together with the transport
/// used for the operations that address the device through `self`.
pub struct Ds18b20<W> {
    one_wire: W,
    address: Address,
}

impl<W> Ds18b20<W> {
    /// The transport this device handle owns.
    pub closed spec fn spec_one_wire(self) -> W {
        self.one_wire
    }

    /// The bus address this device handle is bound to.
    pub closed spec fn spec_address(self) -> Address {
        self.address
    }
}

impl<W: OneWire> Ds18b20<W> {
    /// Checks that the given address carries this sensor family's code and
    /// binds it, with the transport, into a device handle.
    ///
    /// Fails with [`Error::FamilyCodeMismatch`] exactly when the family code
    /// is wrong, and performs no bus operation either way.
    pub fn new(one_wire: W, address: Address) -> (r: Result<Ds18b20<W>, Error>)
        ensures
            address.spec_family_code() == FAMILY_CODE ==> (r matches Ok(device)
                && device.spec_one_wire() == one_wire && device.spec_address() == address),
            address.spec_family_code() != FAMILY_CODE ==> r == Err::<Ds18b20<W>, Error>(
                Error::FamilyCodeMismatch,
            ),
    {
        if address.family_code() == FAMILY_CODE {
            Ok(Ds18b20 { one_wire, address })
        } else {
            Err(Error::FamilyCodeMismatch)
        }
    }

    /// Returns the device address.
    pub fn address(&self) -> (r: &Address)
        ensures
            *r == self.spec_address(),
    {
        &self.address
    }

    /// Starts a temperature measurement for just this device.
    ///
    /// Does not wait for the conversion to finish; the caller must wait for
    /// a duration determined by the configured resolution before reading the
    /// measurement.
    pub fn start_temp_measurement(&mut self) -> (r: Result<(), Error>)
        ensures
            final(self).spec_address() == old(self).spec_address(),
            r is Ok ==> final(self).spec_one_wire().log() == old(self).spec_one_wire().log()
                + command_events(commands::CONVERT_TEMP, Some(old(self).spec_address())),
            r matches Err(e) ==> e.is_transport_error() && partial_events(
                old(self).spec_one_wire().log(),
                command_events(commands::CONVERT_TEMP, Some(old(self).spec_address())),
                final(self).spec_one_wire().log(),
            ),
    {
        match self.one_wire.send_command(commands::CONVERT_TEMP, Some(&self.address)) {
            Ok(()) => Ok(()),
            Err(kind) => Err(Error::from(kind)),
        }
    }

    /// Reads and decodes this device's scratchpad through the given
    /// transport.
    ///
    /// On success the transcript shows exactly one addressed
    /// `READ_SCRATCHPAD` command followed by one 9-byte read, and the result
    /// is that block's decoding.
    pub fn read_data(&self, one_wire: &mut impl OneWire) -> (r: Result<SensorData, Error>)
        ensures
            r matches Ok(data) ==> exists|bytes: Seq<u8>|
                #![auto]
                {
                    &&& bytes.len() == 9
                    &&& final(one_wire).log() == old(one_wire).log() + command_events(
                        commands::READ_SCRATCHPAD,
                        Some(self.spec_address()),
                    ) + seq![BusOp::ReadBytes(bytes)]
                    &&& spec_decode_scratchpad(bytes) == Ok::<SensorData, Error>(data)
                },
            r matches Err(e) ==> (e.is_transport_error() || e == Error::CrcMismatch)
                && (partial_events(
                old(one_wire).log(),
                command_events(commands::READ_SCRATCHPAD, Some(self.spec_address())),
                final(one_wire).log(),
            ) || exists|bytes: Seq<u8>|
                #![auto]
                {
                    &&& bytes.len() == 9
                    &&& final(one_wire).log() == old(one_wire).log() + command_events(
                        commands::READ_SCRATCHPAD,
                        Some(self.spec_address()),
                    ) + seq![BusOp::ReadBytes(bytes)]
                    &&& spec_decode_scratchpad(bytes) == Err::<SensorData, Error>(e)
                }),
    {
        let scratchpad = match read_scratchpad(&self.address, one_wire) {
            Ok(scratchpad) => scratchpad,
            Err(e) => {
                return Err(e);
            },
        };
        match decode_scratchpad(&scratchpad) {
            Ok(data) => {
                proof {
                    assert(scratchpad@.len() == 9 && final(one_wire).log() == old(one_wire).log()
                        + command_events(commands::READ_SCRATCHPAD, Some(self.spec_address()))
                        + seq![BusOp::ReadBytes(scratchpad@)] && spec_decode_scratchpad(scratchpad@)
                        == Ok::<SensorData, Error>(data));
                }
                Ok(data)
            },
            Err(e) => {
                proof {
                    assert(scratchpad@.len() == 9 && final(one_wire).log() == old(one_wire).log()
                        + command_events(commands::READ_SCRATCHPAD, Some(self.spec_address()))
                        + seq![BusOp::ReadBytes(scratchpad@)] && spec_decode_scratchpad(scratchpad@)
                        == Err::<SensorData, Error>(e));
                }
                Err(e)
            },
        }
    }

    /// Writes this device's configuration: the `WRITE_SCRATCHPAD` command
    /// addressed to it, followed by exactly three data bytes in the
    /// protocol-mandated order alarm high, alarm low, resolution
    /// configuration byte.
    pub fn set_config(
        &mut self,
        alarm_temp_low: i8,
        alarm_temp_high: i8,
        resolution: Resolution,
    ) -> (r: Result<(), Error>)
        ensures
            final(self).spec_address() == old(self).spec_address(),
            r is Ok ==> final(self).spec_one_wire().log() == old(self).spec_one_wire().log()
                + config_events(old(self).spec_address(), alarm_temp_low, alarm_temp_high, resolution),
            r matches Err(e) ==> e.is_transport_error() && partial_events(
                old(self).spec_one_wire().log(),
                config_events(old(self).spec_address(), alarm_temp_low, alarm_temp_high, resolution),
                final(self).spec_one_wire().log(),
            ),
    {
        let ghost entry_log = self.one_wire.log();
        let ghost full = config_events(self.address, alarm_temp_low, alarm_temp_high, resolution);
        let ghost cmd = command_events(commands::WRITE_SCRATCHPAD, Some(self.address));
        match self.one_wire.send_command(commands::WRITE_SCRATCHPAD, Some(&self.address)) {
            Ok(()) => {},
            Err(kind) => {
                proof {
                    let k = choose|k: int|
                        0 <= k <= cmd.len() && self.one_wire.log() == entry_log + cmd.take(k);
                    assert(full.take(k) =~= cmd.take(k));
                    assert(partial_events(entry_log, full, self.one_wire.log())) by {
                        assert(0 <= k <= full.len() && self.one_wire.log() == entry_log + full.take(
                            k,
                        ));
                    }
                }
                return Err(Error::from(kind));
            },
        }
        proof {
            assert(self.one_wire.log() =~= entry_log + full.take(3));
        }
        match self.one_wire.write_byte(encode_i8(alarm_temp_high)) {
            Ok(()) => {},
            Err(kind) => {
                proof {
                    assert(partial_events(entry_log, full, self.one_wire.log())) by {
                        assert(0 <= 3 <= full.len() && self.one_wire.log() == entry_log + full.take(
                            3,
                        ));
                    }
                }
                return Err(Error::from(kind));
            },
        }
        proof {
            assert(self.one_wire.log() =~= entry_log + full.take(4));
        }
        match self.one_wire.write_byte(encode_i8(alarm_temp_low)) {
            Ok(()) => {},
            Err(kind) => {
                proof {
                    assert(partial_events(entry_log, full, self.one_wire.log())) by {
                        assert(0 <= 4 <= full.len() && self.one_wire.log() == entry_log + full.take(
                            4,
                        ));
                    }
                }
                return Err(Error::from(kind));
            },
        }
        proof {
            assert(self.one_wire.log() =~= entry_log + full.take(5));
        }
        match self.one_wire.write_byte(resolution.to_config_register()) {
            Ok(()) => {},
            Err(kind) => {
                proof {
                    assert(partial_events(entry_log, full, self.one_wire.log())) by {
                        assert(0 <= 5 <= full.len() && self.one_wire.log() == entry_log + full.take(
                            5,
                        ));
                    }
                }
                return Err(Error::from(kind));
            },
        }
        proof {
            assert(self.one_wire.log() =~= entry_log + full);
        }
        Ok(())
    }

    /// Saves this device's scratchpad configuration to its EEPROM, then
    /// waits out the fixed write time (the device gives no completion
    /// signal for this operation).
    pub fn save_to_eeprom(&self, one_wire: &mut impl OneWire, delay: &mut impl Delay) -> (r: Result<
        (),
        Error,
    >)
        ensures
            r is Ok ==> final(one_wire).log() == old(one_wire).log() + command_events(
                commands::COPY_SCRATCHPAD,
                Some(self.spec_address()),
            ) && final(delay).delays() == old(delay).delays().push(EEPROM_OPERATION_MICROS),
            r matches Err(e) ==> e.is_transport_error() && partial_events(
                old(one_wire).log(),
                command_events(commands::COPY_SCRATCHPAD, Some(self.spec_address())),
                final(one_wire).log(),
            ) && final(delay).delays() == old(delay).delays(),
    {
        save_to_eeprom(Some(&self.address), one_wire, delay)
    }

    /// Restores this device's configuration from its EEPROM into the
    /// scratchpad, polling the bus bit by bit until the device signals
    /// completion or the iteration ceiling is reached.
    pub fn recall_from_eeprom(&self, one_wire: &mut impl OneWire) -> (r: Result<(), Error>)
        ensures
            r is Ok ==> recall_success_log(
                old(one_wire).log(),
                Some(self.spec_address()),
                final(one_wire).log(),
            ),
            r == Err::<(), Error>(Error::Timeout) ==> final(one_wire).log() == old(one_wire).log()
                + command_events(commands::RECALL_EEPROM, Some(self.spec_address())) + failed_polls(
                recall_poll_limit(),
            ),
            r matches Err(e) ==> (e == Error::Timeout || (e.is_transport_error()
                && recall_abort_log(
                old(one_wire).log(),
                Some(self.spec_address()),
                final(one_wire).log(),
            ))),
    {
        recall_from_eeprom(Some(&self.address), one_wire)
    }
}

/// Starts a temperature measurement on every device on the bus at once:
/// a reset, a broadcast skip selection, then the `CONVERT_TEMP` command.
pub fn start_simultaneous_temp_measurement(one_wire: &mut impl OneWire) -> (r: Result<(), Error>)
    ensures
        r is Ok ==> final(one_wire).log() == old(one_wire).log() + command_events(
            commands::CONVERT_TEMP,
            None,
        ),
        r matches Err(e) ==> e.is_transport_error() && partial_events(
            old(one_wire).log(),
            command_events(commands::CONVERT_TEMP, None),
            final(one_wire).log(),
        ),
{
    let ghost entry_log = one_wire.log();
    let ghost events = command_events(commands::CONVERT_TEMP, None);
    match one_wire.reset() {
        Ok(()) => {},
        Err(kind) => {
            proof {
                assert(one_wire.log() =~= entry_log + events.take(0));
                assert(partial_events(entry_log, events, one_wire.log())) by {
                    assert(0 <= 0 <= events.len() && one_wire.log() == entry_log + events.take(0));
                }
            }
            return Err(Error::from(kind));
        },
    }
    match one_wire.skip_address() {
        Ok(()) => {},
        Err(kind) => {
            proof {
                assert(one_wire.log() =~= entry_log + events.take(1));
                assert(partial_events(entry_log, events, one_wire.log())) by {
                    assert(0 <= 1 <= events.len() && one_wire.log() == entry_log + events.take(1));
                }
            }
            return Err(Error::from(kind));
        },
    }
    match one_wire.write_byte(commands::CONVERT_TEMP) {
        Ok(()) => {},
        Err(kind) => {
            proof {
                assert(one_wire.log() =~= entry_log + events.take(2));
                assert(partial_events(entry_log, events, one_wire.log())) by {
                    assert(0 <= 2 <= events.len() && one_wire.log() == entry_log + events.take(2));
                }
            }
            return Err(Error::from(kind));
        },
    }
    proof {
        assert(one_wire.log() =~= entry_log + command_events(commands::CONVERT_TEMP, None));
    }
    Ok(())
}

/// Restores the configuration from EEPROM into the scratchpad on every
/// device on the bus at once, polling for completion as
/// [`Ds18b20::recall_from_eeprom`] does.
pub fn simultaneous_recall_from_eeprom(one_wire: &mut impl OneWire) -> (r: Result<(), Error>)
    ensures
        r is Ok ==> recall_success_log(old(one_wire).log(), None, final(one_wire).log()),
        r == Err::<(), Error>(Error::Timeout) ==> final(one_wire).log() == old(one_wire).log()
            + command_events(commands::RECALL_EEPROM, None) + failed_polls(recall_poll_limit()),
        r matches Err(e) ==> (e == Error::Timeout || (e.is_transport_error() && recall_abort_log(
            old(one_wire).log(),
            None,
            final(one_wire).log(),
        ))),
{
    recall_from_eeprom(None, one_wire)
}

/// Saves the scratchpad configuration to EEPROM on every device on the bus
/// at once, then waits out the fixed write time.
pub fn simultaneous_save_to_eeprom(one_wire: &mut impl OneWire, delay: &mut impl Delay) -> (r:
    Result<(), Error>)
    ensures
        r is Ok ==> final(one_wire).log() == old(one_wire).log() + command_events(
            commands::COPY_SCRATCHPAD,
            None,
        ) && final(delay).delays() == old(delay).delays().push(EEPROM_OPERATION_MICROS),
        r matches Err(e) ==> e.is_transport_error() && partial_events(
            old(one_wire).log(),
            command_events(commands::COPY_SCRATCHPAD, None),
            final(one_wire).log(),
        ) && final(delay).delays() == old(delay).delays(),
{
    save_to_eeprom(None, one_wire, delay)
}

/// Reads the raw 9-byte scratchpad of one device: the `READ_SCRATCHPAD`
/// command addressed to it, followed by one 9-byte read. No integrity check
/// is performed here; decoding checks the configuration byte.
pub fn read_scratchpad(address: &Address, one_wire: &mut impl OneWire) -> (r: Result<Vec<u8>, Error>)
    ensures
        r matches Ok(scratchpad) ==> scratchpad@.len() == 9 && final(one_wire).log() == old(
            one_wire,
        ).log() + command_events(commands::READ_SCRATCHPAD, Some(*address)) + seq![
            BusOp::ReadBytes(scratchpad@),
        ],
        r matches Err(e) ==> e.is_transport_error() && partial_events(
            old(one_wire).log(),
            command_events(commands::READ_SCRATCHPAD, Some(*address)),
            final(one_wire).log(),
        ),
{
    let ghost entry_log = one_wire.log();
    let ghost events = command_events(commands::READ_SCRATCHPAD, Some(*address));
    match one_wire.send_command(commands::READ_SCRATCHPAD, Some(address)) {
        Ok(()) => {},
        Err(kind) => {
            return Err(Error::from(kind));
        },
    }
    proof {
        assert(one_wire.log() =~= entry_log + events.take(3));
    }
    match one_wire.read_bytes(9) {
        Ok(scratchpad) => {
            proof {
                assert(one_wire.log() =~= entry_log + command_events(
                    commands::READ_SCRATCHPAD,
                    Some(*address),
                ) + seq![BusOp::ReadBytes(scratchpad@)]);
            }
            Ok(scratchpad)
        },
        Err(kind) => {
            proof {
                assert(partial_events(entry_log, events, one_wire.log())) by {
                    assert(0 <= 3 <= events.len() && one_wire.log() == entry_log + events.take(3));
                }
            }
            Err(Error::from(kind))
        },
    }
}

/// The iteration ceiling of the EEPROM recall poll: the worst-case recall
/// duration divided by the transport's per-bit read cost, rounded up, plus
/// one.
pub open spec fn recall_poll_limit() -> int {
    (EEPROM_OPERATION_MICROS + READ_SLOT_DURATION_MICROS - 1) as int
        / READ_SLOT_DURATION_MICROS as int + 1
}

/// The transcript of `count` polls that each read a zero bit.
pub open spec fn failed_polls(count: int) -> Seq<BusOp> {
    Seq::new(count as nat, |i: int| BusOp::ReadBit(false))
}

/// Holds when `exit` extends `entry` with a successful EEPROM recall
/// addressed to `address`: the `RECALL_EEPROM` command, fewer zero-bit polls
/// than the iteration ceiling, and the one-bit completion signal, after
/// which no further bit is read.
pub open spec fn recall_success_log(
    entry: Seq<BusOp>,
    address: Option<Address>,
    exit: Seq<BusOp>,
) -> bool {
    exists|polls: int|
        #![auto]
        0 <= polls < recall_poll_limit() && exit == entry + command_events(
            commands::RECALL_EEPROM,
            address,
        ) + failed_polls(polls).push(BusOp::ReadBit(true))
}

/// Holds when `exit` shows an EEPROM recall addressed to `address` that
/// aborted on a transport failure: a prefix of the `RECALL_EEPROM` command
/// itself, or the full command followed by the zero-bit polls that had
/// completed before the failing bit read — and nothing after the failure.
pub open spec fn recall_abort_log(
    entry: Seq<BusOp>,
    address: Option<Address>,
    exit: Seq<BusOp>,
) -> bool {
    ||| partial_events(entry, command_events(commands::RECALL_EEPROM, address), exit)
    ||| exists|polls: int|
        #![auto]
        0 <= polls < recall_poll_limit() && exit == entry + command_events(
            commands::RECALL_EEPROM,
            address,
        ) + failed_polls(polls)
}

/// Sends `RECALL_EEPROM` to one device or to all, then polls the bus one
/// bit at a time: the device holds the read level low until the recall
/// finishes, so the poll succeeds on the first `true` bit and times out
/// after `recall_poll_limit` zero bits.
fn recall_from_eeprom(address: Option<&Address>, one_wire: &mut impl OneWire) -> (r: Result<
    (),
    Error,
>)
    ensures
        r is Ok ==> recall_success_log(old(one_wire).log(), addr_of(address), final(one_wire).log()),
        r == Err::<(), Error>(Error::Timeout) ==> final(one_wire).log() == old(one_wire).log()
            + command_events(commands::RECALL_EEPROM, addr_of(address)) + failed_polls(
            recall_poll_limit(),
        ),
        r matches Err(e) ==> (e == Error::Timeout || (e.is_transport_error() && recall_abort_log(
            old(one_wire).log(),
            addr_of(address),
            final(one_wire).log(),
        ))),
{
    let ghost entry_log = one_wire.log();
    match one_wire.send_command(commands::RECALL_EEPROM, address) {
        Ok(()) => {},
        Err(kind) => {
            proof {
                assert(recall_abort_log(entry_log, addr_of(address), one_wire.log()));
            }
            return Err(Error::from(kind));
        },
    }

    // wait for the recall to finish (up to the worst-case duration, rounded
    // up to whole read slots)
    let max_retries: u32 = (EEPROM_OPERATION_MICROS + READ_SLOT_DURATION_MICROS - 1)
        / READ_SLOT_DURATION_MICROS + 1;
    let mut polls: u32 = 0;
    while polls < max_retries
        invariant
            polls <= max_retries,
            max_retries == recall_poll_limit(),
            entry_log == old(one_wire).log(),
            one_wire.log() == entry_log + command_events(commands::RECALL_EEPROM, addr_of(address))
                + failed_polls(polls as int),
        decreases max_retries - polls,
    {
        match one_wire.read_bit() {
            Ok(true) => {
                proof {
                    let k = polls as int;
                    assert(one_wire.log() =~= entry_log + command_events(
                        commands::RECALL_EEPROM,
                        addr_of(address),
                    ) + failed_polls(k).push(BusOp::ReadBit(true)));
                    assert(recall_success_log(entry_log, addr_of(address), one_wire.log())) by {
                        assert(0 <= k < recall_poll_limit() && one_wire.log() == entry_log
                            + command_events(commands::RECALL_EEPROM, addr_of(address))
                            + failed_polls(k).push(BusOp::ReadBit(true)));
                    }
                }
                return Ok(());
            },
            Ok(false) => {
                proof {
                    assert(one_wire.log() =~= entry_log + command_events(
                        commands::RECALL_EEPROM,
                        addr_of(address),
                    ) + failed_polls(polls as int + 1));
                }
            },
            Err(kind) => {
                proof {
                    let p = polls as int;
                    assert(recall_abort_log(entry_log, addr_of(address), one_wire.log())) by {
                        assert(0 <= p < recall_poll_limit() && one_wire.log() == entry_log
                            + command_events(commands::RECALL_EEPROM, addr_of(address))
                            + failed_polls(p));
                    }
                }
                return Err(Error::from(kind));
            },
        }
        polls = polls + 1;
    }
    Err(Error::Timeout)
}

/// Sends `COPY_SCRATCHPAD` to one device or to all, then waits out the
/// fixed EEPROM write time: the device gives no completion signal for this
/// operation.
fn save_to_eeprom(
    address: Option<&Address>,
    one_wire: &mut impl OneWire,
    delay: &mut impl Delay,
) -> (r: Result<(), Error>)
    ensures
        r is Ok ==> final(one_wire).log() == old(one_wire).log() + command_events(
            commands::COPY_SCRATCHPAD,
            addr_of(address),
        ) && final(delay).delays() == old(delay).delays().push(EEPROM_OPERATION_MICROS),
        r matches Err(e) ==> e.is_transport_error() && partial_events(
            old(one_wire).log(),
            command_events(commands::COPY_SCRATCHPAD, addr_of(address)),
            final(one_wire).log(),
        ) && final(delay).delays() == old(delay).delays(),
{
    match one_wire.send_command(commands::COPY_SCRATCHPAD, address) {
        Ok(()) => {},
        Err(kind) => {
            return Err(Error::from(kind));
        },
    }
    delay.delay_us(EEPROM_OPERATION_MICROS);
    Ok(())
}

} // verus!
