//! Driver of the LN8000 charge pump.
//!
//! The chip halves the input voltage of a quick-charge adapter at twice its
//! current. The driver classifies the adapter behind the PMIC, raises the bus
//! into the narrow band above twice the cell voltage, engages the pump, keeps
//! the bus in that band while the cell rises, obeys the protection, and reports
//! all of it: as a battery of the operating system, through control codes and
//! through published values.
//!
//! Nothing here performs input or output. A procedure names its requests
//! ([`exchange`]) and is run again with the replies ([`session`]); its contract
//! says, for every sequence of replies, what it asks, what it publishes, what it
//! remembers and what it returns.
//!
//! - Negotiation: [`hvdcp`] and [`band`] hold the numbers, [`usbin`] the register
//!   work, [`qc35`] the pulse trains, [`negotiate`] the whole, [`correction`] the
//!   steps afterwards.
//! - Service: [`tick`] is one turn of the timer, made of [`observe`], [`guard`],
//!   [`steer`], [`charge`], [`landing`], [`gauge`] and [`fcc`].
//! - Reports: [`battery`], [`ioctl`], [`requests`].
//! - Life of the device: [`device_add`], [`prepare`], [`params`],
//!   [`connections`], [`sddl`], [`sysreq`], [`state`].
//! - Reading a log: [`trace`], over which the laws of the procedures are stated.
//! - What reaches the registers of the PMIC: [`writes`] for a tick, [`off_tick`] for the
//!   other callbacks.
//! - Buses: [`spb`] and [`spb_abi`] for lines, [`superuser`] and [`pmic`] for the
//!   PMIC, [`wdf`] for the framework calls below both.
pub mod arith;
pub mod band;
pub mod battery;
pub mod charge;
pub mod connections;
pub mod correction;
pub mod crash;
pub mod device_add;
pub mod exchange;
pub mod fcc;
pub mod gauge;
pub mod guard;
pub mod hub;
pub mod hvdcp;
pub mod ioctl;
pub mod landing;
pub mod names;
pub mod negotiate;
pub mod observe;
pub mod off_tick;
pub mod params;
pub mod pmic;
pub mod prepare;
pub mod pump;
pub mod qc35;
pub mod requests;
pub mod sddl;
pub mod session;
pub mod spb;
pub mod spb_abi;
pub mod state;
pub mod status;
pub mod steer;
pub mod superuser;
pub mod sysreq;
pub mod tick;
pub mod trace;
pub mod usbin;
pub mod wdf;
pub mod wire;
pub mod writes;
