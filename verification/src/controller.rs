use vstd::prelude::*;
use crate::packets::{mode_command, mode_packet, power_command, power_packet, rgb_command, rgb_packet};

verus! {

/// How a command is written to the strip's characteristic.
#[derive(Clone, Copy, Debug, PartialEq, Eq, Structural)]
pub enum WriteType {
    WithResponse,
    WithoutResponse,
}

/// A write that the caller performs: `data` goes to `characteristic` of
/// `peripheral`, in the given `write_type`.
pub struct Write<'a, P, C> {
    pub peripheral: &'a P,
    pub characteristic: &'a C,
    pub data: Vec<u8>,
    pub write_type: WriteType,
}

/// The controller of one strip: the peripheral it talks to and the
/// characteristic it writes commands to, each set once known.
///
/// `P` is the type of a Bluetooth peripheral and `C` that of a GATT
/// characteristic; the controller only holds them and hands them back with
/// every write.
pub struct Controller<P, C> {
    peripheral: Option<P>,
    char: Option<C>,
}

impl<P, C> View for Controller<P, C> {
    type V = (Option<P>, Option<C>);

    closed spec fn view(&self) -> (Option<P>, Option<C>) {
        (self.peripheral, self.char)
    }
}

impl<P, C> Controller<P, C> {
    /// Whether both the peripheral and the characteristic are known, so that
    /// commands can be written.
    pub open spec fn ready(&self) -> bool {
        &&& self@.0 is Some
        &&& self@.1 is Some
    }

    /// The write of `data` that a command with these bytes becomes.
    pub open spec fn writes(&self, w: Write<P, C>, data: Seq<u8>) -> bool {
        &&& *w.peripheral == self@.0.unwrap()
        &&& *w.characteristic == self@.1.unwrap()
        &&& w.data@ == data
        &&& w.write_type == WriteType::WithoutResponse
    }

    /// Whether commands can be written: both the peripheral and the
    /// characteristic are known.
    pub fn is_ready(&self) -> (r: bool)
        ensures
            r == self.ready(),
    {
        self.peripheral.is_some() && self.char.is_some()
    }

    /// Whether the peripheral is known.
    pub fn has_peripheral(&self) -> (r: bool)
        ensures
            r == self@.0 is Some,
    {
        self.peripheral.is_some()
    }

    /// A controller that knows neither peripheral nor characteristic yet.
    pub fn new() -> (c: Self)
        ensures
            c@ == (None::<P>, None::<C>),
    {
        Controller { peripheral: None, char: None }
    }

    /// Sets the peripheral that commands go to.
    pub fn set_peripheral(&mut self, p: P)
        ensures
            final(self)@ == (Some(p), old(self)@.1),
    {
        self.peripheral = Some(p);
    }

    /// Sets the characteristic that commands are written to.
    pub fn set_char(&mut self, c: C)
        ensures
            final(self)@ == (old(self)@.0, Some(c)),
    {
        self.char = Some(c);
    }

    /// The peripheral to disconnect from.
    pub fn disconnect(&self) -> (p: &P)
        requires
            self@.0 is Some,
        ensures
            *p == self@.0.unwrap(),
    {
        self.peripheral.as_ref().unwrap()
    }

    fn write(&self, data: Vec<u8>) -> (w: Write<P, C>)
        requires
            self.ready(),
        ensures
            self.writes(w, data@),
    {
        Write {
            peripheral: self.peripheral.as_ref().unwrap(),
            characteristic: self.char.as_ref().unwrap(),
            data,
            write_type: WriteType::WithoutResponse,
        }
    }

    /// The write that switches the strip on or off.
    pub fn set_power(&self, state: bool) -> (w: Write<P, C>)
        requires
            self.ready(),
        ensures
            self.writes(w, power_packet(state)),
    {
        self.write(power_command(state))
    }

    /// The write that sets the colour `(r, g, b)` with the fourth channel `q`.
    pub fn set_rgb(&self, r: u8, g: u8, b: u8, q: u8) -> (w: Write<P, C>)
        requires
            self.ready(),
        ensures
            self.writes(w, rgb_packet(r, g, b, q)),
    {
        self.write(rgb_command(r, g, b, q))
    }

    /// The write that selects a built-in mode at the given speed.
    pub fn set_mode(&self, mode: u8, speed: u8) -> (w: Write<P, C>)
        requires
            self.ready(),
        ensures
            self.writes(w, mode_packet(mode, speed)),
    {
        self.write(mode_command(mode, speed))
    }
}

} // verus!
