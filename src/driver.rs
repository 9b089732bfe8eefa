use vstd::prelude::*;

use crate::command::{accepts, encode, valid_value, Command, MAX_VALUE};
use crate::error::{reported, Error};

verus! {

/// The chip's bus address unless it was wired otherwise.
pub const DEFAULT_ADDRESS: u8 = 0x38;

/// The largest seven-bit bus address.
pub const MAX_ADDRESS: u8 = 0x7f;

/// One write transaction handed to the bus: where it went, what it carried, and what
/// the bus reported back.
pub struct Transfer<E> {
    pub address: u8,
    pub bytes: Seq<u8>,
    pub outcome: Result<(), E>,
}

/// The one capability the driver needs from the bus it is handed: a write of some
/// bytes to a seven-bit address, which succeeds or fails with the bus's own error.
///
/// An implementation keeps, as a model, the record of the writes it has carried out,
/// and each `write` adds exactly one entry to it: the address and the bytes it was
/// handed, and the result it returns. The driver never reads from the bus.
pub trait I2cWrite {
    type Error;

    /// Every write this bus has carried out, oldest first.
    ///
    /// The default keeps no record, so an implementation that is verified against
    /// `write`'s contract must define its own; the driver, which works on any bus,
    /// never relies on the default.
    closed spec fn bus_log(&self) -> Seq<Transfer<Self::Error>> {
        Seq::empty()
    }

    fn write(&mut self, address: u8, bytes: &[u8]) -> (r: Result<(), Self::Error>)
        ensures
            final(self).bus_log() == old(self).bus_log().push(
                (Transfer { address, bytes: bytes@, outcome: r }),
            ),
    ;
}

/// A borrowed bus is a bus, so a handle can work on one it does not own.
impl<T: I2cWrite> I2cWrite for &mut T {
    type Error = T::Error;

    open spec fn bus_log(&self) -> Seq<Transfer<T::Error>> {
        (**self).bus_log()
    }

    fn write(&mut self, address: u8, bytes: &[u8]) -> (r: Result<(), T::Error>) {
        (**self).write(address, bytes)
    }
}

/// A handle on one NCP5623: it owns the bus and remembers the chip's address.
///
/// Every command parameter except shutdown's must fit in five bits (0 to 31);
/// an operation handed a larger one fails with [`Error::InvalidValue`] and
/// touches the bus not at all.
pub struct NCP5623<I2C: I2cWrite> {
    i2c: I2C,
    address: u8,
}

impl<I2C: I2cWrite> NCP5623<I2C> {
    /// The bus address the handle talks to.
    pub closed spec fn bus_address(self) -> u8 {
        self.address
    }

    /// Every write the handle's bus has carried out, oldest first.
    pub closed spec fn transfers(self) -> Seq<Transfer<I2C::Error>> {
        self.i2c.bus_log()
    }

    /// The address is a seven-bit one.
    pub open spec fn wf(self) -> bool {
        self.bus_address() <= MAX_ADDRESS
    }

    /// `post` is `self` after writing `bytes` to the bus one byte per transaction,
    /// in order, to the handle's address, stopping at the first write that the bus
    /// failed; `r` is what the last write reported.
    pub open spec fn sends(self, post: Self, bytes: Seq<u8>, r: Result<(), Error<I2C::Error>>) -> bool {
        let before = self.transfers();
        let after = post.transfers();
        &&& post.bus_address() == self.bus_address()
        &&& before.len() < after.len() <= before.len() + bytes.len()
        &&& after.subrange(0, before.len() as int) == before
        &&& forall|j: int|
            before.len() <= j < after.len() ==> {
                &&& (#[trigger] after[j]).address == self.bus_address()
                &&& after[j].bytes == seq![bytes[j - before.len()]]
            }
        &&& forall|j: int| before.len() <= j < after.len() - 1 ==> (#[trigger] after[j]).outcome is Ok
        &&& after.len() < before.len() + bytes.len() ==> after.last().outcome is Err
        &&& r == reported(after.last().outcome)
    }

    /// `post` and `r` are what checking `value` and then sending `cmd` carrying it
    /// leaves: a value the command cannot carry is reported and nothing else happens;
    /// otherwise the command goes out as one byte.
    pub open spec fn sends_if_valid(self, post: Self, cmd: Command, value: u8, r: Result<(), Error<I2C::Error>>) -> bool {
        if accepts(cmd, value) {
            self.sends(post, seq![encode(cmd, value)], r)
        } else {
            r == Err::<(), Error<I2C::Error>>(Error::InvalidValue) && post == self
        }
    }

    /// Two sends in a row, the first of which succeeded, are one send of both byte runs.
    proof fn lemma_sends_append(
        self,
        mid: Self,
        post: Self,
        first: Seq<u8>,
        rest: Seq<u8>,
        r1: Result<(), Error<I2C::Error>>,
        r2: Result<(), Error<I2C::Error>>,
    )
        requires
            self.sends(mid, first, r1),
            r1 is Ok,
            mid.sends(post, rest, r2),
        ensures
            self.sends(post, first + rest, r2),
    {
        let b0 = self.transfers();
        let b1 = mid.transfers();
        let b2 = post.transfers();
        assert(b1.len() == b0.len() + first.len());
        assert(b2.subrange(0, b0.len() as int) =~= b0) by {
            assert(b2.subrange(0, b1.len() as int) == b1);
            assert forall|j: int| 0 <= j < b0.len() implies b2.subrange(0, b0.len() as int)[j] == b0[j] by {
                assert(b2[j] == b2.subrange(0, b1.len() as int)[j]);
                assert(b1[j] == b1.subrange(0, b0.len() as int)[j]);
            }
        }
        assert forall|j: int| b0.len() <= j < b2.len() implies {
            &&& (#[trigger] b2[j]).address == self.bus_address()
            &&& b2[j].bytes == seq![(first + rest)[j - b0.len()]]
        } by {
            if j < b1.len() {
                assert(b2[j] == b2.subrange(0, b1.len() as int)[j]);
                assert(b1[j].bytes == seq![first[j - b0.len()]]);
            } else {
                assert(b2[j].bytes == seq![rest[j - b1.len()]]);
            }
        }
        assert forall|j: int| b0.len() <= j < b2.len() - 1 implies (#[trigger] b2[j]).outcome is Ok by {
            if j < b1.len() {
                assert(b2[j] == b2.subrange(0, b1.len() as int)[j]);
                if j == b1.len() - 1 {
                    assert(b1[j] == b1.last());
                }
            }
        }
    }

    /// A send that failed also stands for a longer run of bytes: the rest was never attempted.
    proof fn lemma_sends_stops(self, post: Self, first: Seq<u8>, rest: Seq<u8>, r: Result<(), Error<I2C::Error>>)
        requires
            self.sends(post, first, r),
            r is Err,
        ensures
            self.sends(post, first + rest, r),
    {
        let b0 = self.transfers();
        let b1 = post.transfers();
        assert forall|j: int| b0.len() <= j < b1.len() implies {
            &&& (#[trigger] b1[j]).address == self.bus_address()
            &&& b1[j].bytes == seq![(first + rest)[j - b0.len()]]
        } by {
            assert((first + rest)[j - b0.len()] == first[j - b0.len()]);
        }
    }

    /// A handle on the chip at its default address.
    pub fn new_default_address(i2c: I2C) -> (r: Self)
        ensures
            r.wf(),
            r.bus_address() == DEFAULT_ADDRESS,
            r.transfers() == i2c.bus_log(),
    {
        Self::new_unchecked(i2c, DEFAULT_ADDRESS)
    }

    /// A handle on the chip at `address`, which the caller has already checked.
    pub fn new_unchecked(i2c: I2C, address: u8) -> (r: Self)
        requires
            address <= MAX_ADDRESS,
        ensures
            r.wf(),
            r.bus_address() == address,
            r.transfers() == i2c.bus_log(),
    {
        NCP5623 { i2c, address }
    }

    /// A handle on the chip at `address`, refused when the address needs more than seven bits.
    pub fn new(i2c: I2C, address: u8) -> (r: Result<Self, Error<I2C::Error>>)
        ensures
            address <= MAX_ADDRESS <==> r is Ok,
            r is Ok ==> r->Ok_0.wf() && r->Ok_0.bus_address() == address
                && r->Ok_0.transfers() == i2c.bus_log(),
            address > MAX_ADDRESS ==> r == Err::<Self, Error<I2C::Error>>(Error::InvalidAddress(address)),
    {
        if address > MAX_ADDRESS {
            return Err(Error::InvalidAddress(address));
        }
        Ok(Self::new_unchecked(i2c, address))
    }

    /// The bus address the handle talks to.
    pub fn address(&self) -> (r: u8)
        ensures
            r == self.bus_address(),
    {
        self.address
    }

    /// Turns every channel off by sending the zero byte.
    pub fn shutdown(&mut self) -> (r: Result<(), Error<I2C::Error>>)
        requires
            old(self).wf(),
        ensures
            final(self).wf(),
            old(self).sends(*final(self), seq![0u8], r),
    {
        self.send_command(Command::Shutdown, 0)
    }

    /// Sets the red channel's brightness.
    pub fn set_red(&mut self, pwm_value: u8) -> (r: Result<(), Error<I2C::Error>>)
        requires
            old(self).wf(),
        ensures
            final(self).wf(),
            old(self).sends_if_valid(*final(self), Command::SetRed, pwm_value, r),
    {
        if let Err(e) = Self::validate_value(&pwm_value) {
            return Err(e);
        }
        self.send_command(Command::SetRed, pwm_value)
    }

    /// Sets the green channel's brightness.
    pub fn set_green(&mut self, pwm_value: u8) -> (r: Result<(), Error<I2C::Error>>)
        requires
            old(self).wf(),
        ensures
            final(self).wf(),
            old(self).sends_if_valid(*final(self), Command::SetGreen, pwm_value, r),
    {
        if let Err(e) = Self::validate_value(&pwm_value) {
            return Err(e);
        }
        self.send_command(Command::SetGreen, pwm_value)
    }

    /// Sets the blue channel's brightness.
    pub fn set_blue(&mut self, pwm_value: u8) -> (r: Result<(), Error<I2C::Error>>)
        requires
            old(self).wf(),
        ensures
            final(self).wf(),
            old(self).sends_if_valid(*final(self), Command::SetBlue, pwm_value, r),
    {
        if let Err(e) = Self::validate_value(&pwm_value) {
            return Err(e);
        }
        self.send_command(Command::SetBlue, pwm_value)
    }

    /// Sets all three channels, red first, then green, then blue.
    ///
    /// All three values are checked before anything is sent. The writes are
    /// separate bus transactions: when one fails, the ones before it have already
    /// reached the chip, and the ones after it are not attempted.
    pub fn set_rgb(&mut self, red_pwm_value: u8, green_pwm_value: u8, blue_pwm_value: u8) -> (r: Result<(), Error<I2C::Error>>)
        requires
            old(self).wf(),
        ensures
            final(self).wf(),
            !(valid_value(red_pwm_value) && valid_value(green_pwm_value) && valid_value(blue_pwm_value))
                ==> r == Err::<(), Error<I2C::Error>>(Error::InvalidValue) && *final(self) == *old(self),
            valid_value(red_pwm_value) && valid_value(green_pwm_value) && valid_value(blue_pwm_value)
                ==> old(self).sends(
                *final(self),
                seq![
                    encode(Command::SetRed, red_pwm_value),
                    encode(Command::SetGreen, green_pwm_value),
                    encode(Command::SetBlue, blue_pwm_value),
                ],
                r,
            ),
    {
        if let Err(e) = Self::validate_value(&red_pwm_value) {
            return Err(e);
        }
        if let Err(e) = Self::validate_value(&green_pwm_value) {
            return Err(e);
        }
        if let Err(e) = Self::validate_value(&blue_pwm_value) {
            return Err(e);
        }
        let ghost s0 = *self;
        let ghost red = seq![encode(Command::SetRed, red_pwm_value)];
        let ghost green = seq![encode(Command::SetGreen, green_pwm_value)];
        let ghost blue = seq![encode(Command::SetBlue, blue_pwm_value)];
        assert(red + green + blue =~= seq![
            encode(Command::SetRed, red_pwm_value),
            encode(Command::SetGreen, green_pwm_value),
            encode(Command::SetBlue, blue_pwm_value),
        ]);
        let r1 = self.send_command(Command::SetRed, red_pwm_value);
        if r1.is_err() {
            proof {
                s0.lemma_sends_stops(*self, red, green + blue, r1);
                assert(red + (green + blue) =~= red + green + blue);
            }
            return r1;
        }
        let ghost s1 = *self;
        let r2 = self.send_command(Command::SetGreen, green_pwm_value);
        proof {
            s0.lemma_sends_append(s1, *self, red, green, r1, r2);
        }
        if r2.is_err() {
            proof {
                s0.lemma_sends_stops(*self, red + green, blue, r2);
            }
            return r2;
        }
        let ghost s2 = *self;
        let r3 = self.send_command(Command::SetBlue, blue_pwm_value);
        proof {
            s0.lemma_sends_append(s2, *self, red + green, blue, r2, r3);
        }
        r3
    }

    /// Sets the ceiling on the current through each channel.
    pub fn set_max_current(&mut self, max_current: u8) -> (r: Result<(), Error<I2C::Error>>)
        requires
            old(self).wf(),
        ensures
            final(self).wf(),
            old(self).sends_if_valid(*final(self), Command::SetMaxCurrent, max_current, r),
    {
        if let Err(e) = Self::validate_value(&max_current) {
            return Err(e);
        }
        self.send_command(Command::SetMaxCurrent, max_current)
    }

    /// Sets the level a dimming ramp upward stops at.
    pub fn set_upward_target(&mut self, target: u8) -> (r: Result<(), Error<I2C::Error>>)
        requires
            old(self).wf(),
        ensures
            final(self).wf(),
            old(self).sends_if_valid(*final(self), Command::UpwardTarget, target, r),
    {
        if let Err(e) = Self::validate_value(&target) {
            return Err(e);
        }
        self.send_command(Command::UpwardTarget, target)
    }

    /// Sets the level a dimming ramp downward stops at.
    pub fn set_downward_target(&mut self, target: u8) -> (r: Result<(), Error<I2C::Error>>)
        requires
            old(self).wf(),
        ensures
            final(self).wf(),
            old(self).sends_if_valid(*final(self), Command::DownwardTarget, target, r),
    {
        if let Err(e) = Self::validate_value(&target) {
            return Err(e);
        }
        self.send_command(Command::DownwardTarget, target)
    }

    /// Starts a dimming ramp with the given step period.
    pub fn start_dimming(&mut self, period: u8) -> (r: Result<(), Error<I2C::Error>>)
        requires
            old(self).wf(),
        ensures
            final(self).wf(),
            old(self).sends_if_valid(*final(self), Command::DimmingStart, period, r),
    {
        if let Err(e) = Self::validate_value(&period) {
            return Err(e);
        }
        self.send_command(Command::DimmingStart, period)
    }

    /// Sends `cmd` carrying `value` as one byte to the chip.
    ///
    /// Shutdown ignores `value`; any other command refuses a value over five bits
    /// before the bus is touched.
    pub fn send_command(&mut self, cmd: Command, value: u8) -> (r: Result<(), Error<I2C::Error>>)
        requires
            old(self).wf(),
        ensures
            final(self).wf(),
            old(self).sends_if_valid(*final(self), cmd, value, r),
    {
        if !matches!(cmd, Command::Shutdown) {
            if let Err(e) = Self::validate_value(&value) {
                return Err(e);
            }
        }
        let byte = Self::build_command(cmd, value);
        let buf: [u8; 1] = [byte];
        let ghost before = self.i2c.bus_log();
        let outcome = self.i2c.write(self.address, &buf);
        proof {
            let after = self.i2c.bus_log();
            assert(after.subrange(0, before.len() as int) =~= before);
            assert(buf@ =~= seq![byte]);
        }
        match outcome {
            Ok(()) => Ok(()),
            Err(e) => Err(Error::from(e)),
        }
    }

    /// Succeeds exactly when `value` fits in five bits.
    pub fn validate_value(value: &u8) -> (r: Result<(), Error<I2C::Error>>)
        ensures
            valid_value(*value) ==> r is Ok,
            !valid_value(*value) ==> r == Err::<(), Error<I2C::Error>>(Error::InvalidValue),
    {
        if *value > MAX_VALUE {
            Err(Error::InvalidValue)
        } else {
            Ok(())
        }
    }

    /// The wire byte for `cmd` carrying the already validated `value`; shutdown's is
    /// zero whatever the value.
    pub fn build_command(cmd: Command, value: u8) -> (r: u8)
        requires
            accepts(cmd, value),
        ensures
            r == encode(cmd, value),
    {
        match cmd {
            Command::Shutdown => 0x00,
            Command::SetMaxCurrent => 0x20 | value,
            Command::SetRed => 0x40 | value,
            Command::SetGreen => 0x60 | value,
            Command::SetBlue => 0x80 | value,
            Command::UpwardTarget => 0xa0 | value,
            Command::DownwardTarget => 0xc0 | value,
            Command::DimmingStart => 0xe0 | value,
        }
    }
}

} // verus!
