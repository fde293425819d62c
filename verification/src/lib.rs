//! A decoder for Goldsource demo files (Half-Life and its mods).
//!
//! A demo is a header, a directory of recording segments, and for each
//! segment a stream of frames that ends with a next-section frame. The
//! decoders work on a byte buffer that is resident in memory; every decoded
//! byte region borrows from that buffer.
pub mod errors;
pub mod parse;
mod types;

pub use types::{
    ClientDataData, ConsoleCommandData, Demo, DemoBufferData, Directory, DirectoryEntry,
    EventArgs, EventData, Frame, FrameData, Header, MoveVars, NetMsgData, NetMsgInfo, RefParams,
    SoundData, UserCmd, WeaponAnimData,
};
