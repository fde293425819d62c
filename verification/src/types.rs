//! The objects that a demo consists of.
//!
//! Every byte region in these types borrows from the buffer that was decoded.
//! A field that the file stores as an IEEE-754 single-precision number is held
//! as the 32 bits of that number, exactly as they stand in the file.
use vstd::prelude::*;
use crate::errors::Error;
use crate::parse;
use crate::parse::demo::{spec_demo, spec_demo_without_frames};

verus! {

/// A Goldsource demo.
#[derive(Debug, PartialEq)]
pub struct Demo<'a> {
    pub header: Header<'a>,
    pub directory: Directory<'a>,
}

impl<'a> Demo<'a> {
    /// Parses a demo.
    pub fn parse(input: &'a [u8]) -> (r: Result<Demo<'a>, Error>)
        ensures
            match r {
                Ok(v) => {
                    &&& spec_demo(input@) is Ok
                    &&& v.encoded_in(input@)
                    &&& v.directory.spec_with_frames(input@)
                },
                Err(e) => spec_demo(input@) === Err(e),
            },
    {
        parse::demo(input)
    }

    /// Parses a demo's header and directory, without parsing frame data.
    ///
    /// Parsing frames usually takes a long time, so this function can be used
    /// when the frame data isn't needed.
    pub fn parse_without_frames(input: &'a [u8]) -> (r: Result<Demo<'a>, Error>)
        ensures
            match r {
                Ok(v) => {
                    &&& spec_demo_without_frames(input@) is Ok
                    &&& v.encoded_in(input@)
                    &&& v.directory.spec_without_frames()
                },
                Err(e) => spec_demo_without_frames(input@) === Err(e),
            },
    {
        parse::demo_without_frames(input)
    }
}

#[derive(Debug, PartialEq, Eq)]
pub struct Header<'a> {
    pub demo_protocol: i32,
    pub net_protocol: i32,
    pub map_name: &'a [u8],
    pub game_dir: &'a [u8],
    pub map_crc: i32,
    pub directory_offset: i32,
}

#[derive(Debug, PartialEq)]
pub struct Directory<'a> {
    pub entries: Vec<DirectoryEntry<'a>>,
}

#[derive(Debug, PartialEq)]
pub struct DirectoryEntry<'a> {
    pub entry_type: i32,
    pub description: &'a [u8],
    pub flags: i32,
    pub cd_track: i32,
    /// Seconds, as single-precision bits.
    pub track_time: u32,
    pub frame_count: i32,
    pub offset: i32,
    pub file_length: i32,
    pub frames: Vec<Frame<'a>>,
}

#[derive(Debug, PartialEq)]
pub struct Frame<'a> {
    /// Seconds since the start of the stream, as single-precision bits.
    pub time: u32,
    pub frame: i32,
    pub data: FrameData<'a>,
}

#[derive(Debug, PartialEq)]
pub enum FrameData<'a> {
    NetMsgStart(NetMsgData<'a>),
    NetMsg(NetMsgData<'a>),
    DemoStart,
    ConsoleCommand(ConsoleCommandData<'a>),
    ClientData(ClientDataData),
    NextSection,
    Event(EventData),
    WeaponAnim(WeaponAnimData),
    Sound(SoundData<'a>),
    DemoBuffer(DemoBufferData<'a>),
}

#[derive(Debug, PartialEq, Eq)]
pub struct ConsoleCommandData<'a> {
    pub command: &'a [u8],
}

/// All but `weapon_bits` are single-precision bits.
#[derive(Debug, PartialEq)]
pub struct ClientDataData {
    pub origin: [u32; 3],
    pub viewangles: [u32; 3],
    pub weapon_bits: i32,
    pub fov: u32,
}

#[derive(Debug, PartialEq)]
pub struct EventData {
    pub flags: i32,
    pub index: i32,
    /// Single-precision bits.
    pub delay: u32,
    pub args: EventArgs,
}

/// The vectors and the two `fparam` fields are single-precision bits.
#[derive(Debug, PartialEq)]
pub struct EventArgs {
    pub flags: i32,
    pub entity_index: i32,
    pub origin: [u32; 3],
    pub angles: [u32; 3],
    pub velocity: [u32; 3],
    pub ducking: i32,
    pub fparam1: u32,
    pub fparam2: u32,
    pub iparam1: i32,
    pub iparam2: i32,
    pub bparam1: i32,
    pub bparam2: i32,
}

#[derive(Debug, PartialEq, Eq)]
pub struct WeaponAnimData {
    pub anim: i32,
    pub body: i32,
}

#[derive(Debug, PartialEq)]
pub struct SoundData<'a> {
    pub channel: i32,
    pub sample: &'a [u8],
    /// Single-precision bits.
    pub attenuation: u32,
    /// Single-precision bits.
    pub volume: u32,
    pub flags: i32,
    pub pitch: i32,
}

#[derive(Debug, PartialEq, Eq)]
pub struct DemoBufferData<'a> {
    pub buffer: &'a [u8],
}

#[derive(Debug, PartialEq)]
pub struct NetMsgData<'a> {
    pub info: NetMsgInfo<'a>,
    pub incoming_sequence: i32,
    pub incoming_acknowledged: i32,
    pub incoming_reliable_acknowledged: i32,
    pub incoming_reliable_sequence: i32,
    pub outgoing_sequence: i32,
    pub reliable_sequence: i32,
    pub last_reliable_sequence: i32,
    pub msg: &'a [u8],
}

#[derive(Debug, PartialEq)]
pub struct NetMsgInfo<'a> {
    /// Single-precision bits.
    pub timestamp: u32,
    pub ref_params: RefParams,
    pub usercmd: UserCmd,
    pub movevars: MoveVars<'a>,
    /// Single-precision bits.
    pub view: [u32; 3],
    pub viewmodel: i32,
}

/// The vectors and the fields typed `u32` are single-precision bits.
#[derive(Debug, PartialEq)]
pub struct RefParams {
    pub vieworg: [u32; 3],
    pub viewangles: [u32; 3],
    pub forward: [u32; 3],
    pub right: [u32; 3],
    pub up: [u32; 3],
    pub frametime: u32,
    pub time: u32,
    pub intermission: i32,
    pub paused: i32,
    pub spectator: i32,
    pub onground: i32,
    pub waterlevel: i32,
    pub simvel: [u32; 3],
    pub simorg: [u32; 3],
    pub viewheight: [u32; 3],
    pub idealpitch: u32,
    pub cl_viewangles: [u32; 3],
    pub health: i32,
    pub crosshairangle: [u32; 3],
    pub viewsize: u32,
    pub punchangle: [u32; 3],
    pub maxclients: i32,
    pub viewentity: i32,
    pub playernum: i32,
    pub max_entities: i32,
    pub demoplayback: i32,
    pub hardware: i32,
    pub smoothing: i32,
    pub ptr_cmd: i32,
    pub ptr_movevars: i32,
    pub viewport: [i32; 4],
    pub next_view: i32,
    pub only_client_draw: i32,
}

/// The vectors and the three `move` fields are single-precision bits.
#[derive(Debug, PartialEq)]
pub struct UserCmd {
    pub lerp_msec: i16,
    pub msec: u8,
    pub viewangles: [u32; 3],
    pub forwardmove: u32,
    pub sidemove: u32,
    pub upmove: u32,
    pub lightlevel: i8,
    pub buttons: u16,
    pub impulse: i8,
    pub weaponselect: i8,
    pub impact_index: i32,
    pub impact_position: [u32; 3],
}

/// All but `footsteps` and `sky_name` are single-precision bits.
#[derive(Debug, PartialEq)]
pub struct MoveVars<'a> {
    pub gravity: u32,
    pub stopspeed: u32,
    pub maxspeed: u32,
    pub spectatormaxspeed: u32,
    pub accelerate: u32,
    pub airaccelerate: u32,
    pub wateraccelerate: u32,
    pub friction: u32,
    pub edgefriction: u32,
    pub waterfriction: u32,
    pub entgravity: u32,
    pub bounce: u32,
    pub stepsize: u32,
    pub maxvelocity: u32,
    pub zmax: u32,
    pub wave_height: u32,
    pub footsteps: i32,
    pub sky_name: &'a [u8],
    pub rollangle: u32,
    pub rollspeed: u32,
    pub skycolor_r: u32,
    pub skycolor_g: u32,
    pub skycolor_b: u32,
    pub skyvec_x: u32,
    pub skyvec_y: u32,
    pub skyvec_z: u32,
}

} // verus!
