//! Control of Happylight-compatible RGB LED strips over Bluetooth LE.
//!
//! The library holds the part of the controller that decides what is sent:
//! the byte commands the strip understands, the table of its built-in modes,
//! the connection state of a controller, the choice of device and
//! characteristic after a scan, and the colour that screen synchronisation
//! derives from a captured frame.

pub mod controller;
pub mod modes;
pub mod packets;
pub mod scanner;
pub mod screen_sync;
