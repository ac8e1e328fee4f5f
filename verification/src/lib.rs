//! Core logic of a desktop inspector for a small virtual machine: a
//! single-outstanding-operation mailbox between a polling control loop and
//! background tasks, an edge-triggered dirty flag, a variable-width
//! instruction decoder, and a periodic sync scheduler that keeps a remote
//! snapshot of the machine state approximately current.

pub mod client;
pub mod emulator;
pub mod login;
pub mod panels;
pub mod repr;
pub mod utils;
pub mod widgets;

pub use client::Error;
pub use emulator::decoder::{Decoder, InstructionRecord};
pub use emulator::emu::{settle_outcome, EmulatorPanel, Memory, Panel, State, Tick, Xregs};
pub use emulator::{SessionPanel, Sessions};
pub use panels::hxd::{bytes_to_hex, DataFormatType, DataPreviewOptions, Endianness};
pub use login::{Account, Login, Token};
pub use repr::login::Tokens;
pub use repr::session::{Bus, CpuRepr, SessionInfo, SessionRepr};
pub use utils::{Arx, ArxSender, Poll};
pub use widgets::error::ErrorHeader;
pub use widgets::hex::HexEdit;
