//! Host side of the HF2 protocol (HID Flashing Format): how commands are encoded and
//! cut into HID packets, how response packets are put together, and how the answer of
//! each command is read.
pub mod bininfo;
pub mod codec;
pub mod commands;
pub mod error;
pub mod protocol;

pub use bininfo::{BinInfo, BinInfoMode, BinInfoResult, FamilyId};
pub use codec::Endian;
pub use commands::{
    ChksumPages, ChksumPagesResult, CommanderResult, Dmesg, DmesgResult, Info, InfoResult,
    NoResult, ReadWords, ReadWordsResult, ResetIntoApp, ResetIntoBootloader, StartFlash,
    WriteFlashPage, WriteWords,
};
pub use error::Error;
pub use protocol::{
    xmit_packets, Command, CommandResponse, CommandResponseStatus, PacketType, Receiver,
};
