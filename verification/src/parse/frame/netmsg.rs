//! The network message: a snapshot of the client's state and a message buffer.
use vstd::prelude::*;
use crate::errors;
use crate::parse::{
    be_i8, be_u8, decoded, i32_4, invalid, le_i16, le_i32, le_u16, le_u32, need, spec_fields,
    spec_i32_4, spec_i8, spec_le_i16, spec_le_i32, spec_le_u16, spec_le_u32, spec_read, spec_xyz,
    take, xyz, Error,
};
use crate::types::{FrameData, MoveVars, NetMsgData, NetMsgInfo, RefParams, UserCmd};

verus! {

pub const MIN_MESSAGE_LENGTH: i32 = 0;

pub const MAX_MESSAGE_LENGTH: i32 = 65536;

impl RefParams {
    /// The record of 232 bytes at `at` holds these fields.
    pub open spec fn encoded_at(self, bytes: Seq<u8>, at: int) -> bool {
        &&& spec_xyz(self.vieworg, bytes, at)
        &&& spec_xyz(self.viewangles, bytes, at + 12)
        &&& spec_xyz(self.forward, bytes, at + 24)
        &&& spec_xyz(self.right, bytes, at + 36)
        &&& spec_xyz(self.up, bytes, at + 48)
        &&& self.frametime == spec_le_u32(bytes, at + 60)
        &&& self.time == spec_le_u32(bytes, at + 64)
        &&& self.intermission == spec_le_i32(bytes, at + 68)
        &&& self.paused == spec_le_i32(bytes, at + 72)
        &&& self.spectator == spec_le_i32(bytes, at + 76)
        &&& self.onground == spec_le_i32(bytes, at + 80)
        &&& self.waterlevel == spec_le_i32(bytes, at + 84)
        &&& spec_xyz(self.simvel, bytes, at + 88)
        &&& spec_xyz(self.simorg, bytes, at + 100)
        &&& spec_xyz(self.viewheight, bytes, at + 112)
        &&& self.idealpitch == spec_le_u32(bytes, at + 124)
        &&& spec_xyz(self.cl_viewangles, bytes, at + 128)
        &&& self.health == spec_le_i32(bytes, at + 140)
        &&& spec_xyz(self.crosshairangle, bytes, at + 144)
        &&& self.viewsize == spec_le_u32(bytes, at + 156)
        &&& spec_xyz(self.punchangle, bytes, at + 160)
        &&& self.maxclients == spec_le_i32(bytes, at + 172)
        &&& self.viewentity == spec_le_i32(bytes, at + 176)
        &&& self.playernum == spec_le_i32(bytes, at + 180)
        &&& self.max_entities == spec_le_i32(bytes, at + 184)
        &&& self.demoplayback == spec_le_i32(bytes, at + 188)
        &&& self.hardware == spec_le_i32(bytes, at + 192)
        &&& self.smoothing == spec_le_i32(bytes, at + 196)
        &&& self.ptr_cmd == spec_le_i32(bytes, at + 200)
        &&& self.ptr_movevars == spec_le_i32(bytes, at + 204)
        &&& spec_i32_4(self.viewport, bytes, at + 208)
        &&& self.next_view == spec_le_i32(bytes, at + 224)
        &&& self.only_client_draw == spec_le_i32(bytes, at + 228)
    }
}

impl UserCmd {
    /// The record of 52 bytes at `at` holds these fields. The bytes at 3, at
    /// 29 and at 34 and 35 of the record are padding.
    pub open spec fn encoded_at(self, bytes: Seq<u8>, at: int) -> bool {
        &&& self.lerp_msec == spec_le_i16(bytes, at)
        &&& self.msec == bytes[at + 2]
        &&& spec_xyz(self.viewangles, bytes, at + 4)
        &&& self.forwardmove == spec_le_u32(bytes, at + 16)
        &&& self.sidemove == spec_le_u32(bytes, at + 20)
        &&& self.upmove == spec_le_u32(bytes, at + 24)
        &&& self.lightlevel == spec_i8(bytes, at + 28)
        &&& self.buttons == spec_le_u16(bytes, at + 30)
        &&& self.impulse == spec_i8(bytes, at + 32)
        &&& self.weaponselect == spec_i8(bytes, at + 33)
        &&& self.impact_index == spec_le_i32(bytes, at + 36)
        &&& spec_xyz(self.impact_position, bytes, at + 40)
    }
}

impl MoveVars<'_> {
    /// The record of 132 bytes at `at` holds these fields.
    pub open spec fn encoded_at(self, bytes: Seq<u8>, at: int) -> bool {
        &&& self.gravity == spec_le_u32(bytes, at)
        &&& self.stopspeed == spec_le_u32(bytes, at + 4)
        &&& self.maxspeed == spec_le_u32(bytes, at + 8)
        &&& self.spectatormaxspeed == spec_le_u32(bytes, at + 12)
        &&& self.accelerate == spec_le_u32(bytes, at + 16)
        &&& self.airaccelerate == spec_le_u32(bytes, at + 20)
        &&& self.wateraccelerate == spec_le_u32(bytes, at + 24)
        &&& self.friction == spec_le_u32(bytes, at + 28)
        &&& self.edgefriction == spec_le_u32(bytes, at + 32)
        &&& self.waterfriction == spec_le_u32(bytes, at + 36)
        &&& self.entgravity == spec_le_u32(bytes, at + 40)
        &&& self.bounce == spec_le_u32(bytes, at + 44)
        &&& self.stepsize == spec_le_u32(bytes, at + 48)
        &&& self.maxvelocity == spec_le_u32(bytes, at + 52)
        &&& self.zmax == spec_le_u32(bytes, at + 56)
        &&& self.wave_height == spec_le_u32(bytes, at + 60)
        &&& self.footsteps == spec_le_i32(bytes, at + 64)
        &&& self.sky_name@ == bytes.subrange(at + 68, at + 100)
        &&& self.rollangle == spec_le_u32(bytes, at + 100)
        &&& self.rollspeed == spec_le_u32(bytes, at + 104)
        &&& self.skycolor_r == spec_le_u32(bytes, at + 108)
        &&& self.skycolor_g == spec_le_u32(bytes, at + 112)
        &&& self.skycolor_b == spec_le_u32(bytes, at + 116)
        &&& self.skyvec_x == spec_le_u32(bytes, at + 120)
        &&& self.skyvec_y == spec_le_u32(bytes, at + 124)
        &&& self.skyvec_z == spec_le_u32(bytes, at + 128)
    }
}

impl NetMsgInfo<'_> {
    /// The record of 436 bytes at `at` holds these fields.
    pub open spec fn encoded_at(self, bytes: Seq<u8>, at: int) -> bool {
        &&& self.timestamp == spec_le_u32(bytes, at)
        &&& self.ref_params.encoded_at(bytes, at + 4)
        &&& self.usercmd.encoded_at(bytes, at + 236)
        &&& self.movevars.encoded_at(bytes, at + 288)
        &&& spec_xyz(self.view, bytes, at + 420)
        &&& self.viewmodel == spec_le_i32(bytes, at + 432)
    }
}

impl NetMsgData<'_> {
    /// The bytes at `at` hold these fields, the message's length at 464 and
    /// the message behind it.
    pub open spec fn encoded_at(self, bytes: Seq<u8>, at: int) -> bool {
        &&& self.info.encoded_at(bytes, at)
        &&& self.incoming_sequence == spec_le_i32(bytes, at + 436)
        &&& self.incoming_acknowledged == spec_le_i32(bytes, at + 440)
        &&& self.incoming_reliable_acknowledged == spec_le_i32(bytes, at + 444)
        &&& self.incoming_reliable_sequence == spec_le_i32(bytes, at + 448)
        &&& self.outgoing_sequence == spec_le_i32(bytes, at + 452)
        &&& self.reliable_sequence == spec_le_i32(bytes, at + 456)
        &&& self.last_reliable_sequence == spec_le_i32(bytes, at + 460)
        &&& self.msg@.len() == spec_le_i32(bytes, at + 464)
        &&& self.msg@ == bytes.subrange(at + 468, at + 468 + spec_le_i32(bytes, at + 464))
    }
}

/// The outcome of `ref_params`: every field has four bytes.
pub open spec fn spec_ref_params(bytes: Seq<u8>, at: int) -> Result<int, errors::Error> {
    spec_fields(bytes, at, 232, 4)
}

/// The outcome of `usercmd`. The error names the size of the first field
/// that the input is too short for.
pub open spec fn spec_usercmd(bytes: Seq<u8>, at: int) -> Result<int, errors::Error> {
    let left = bytes.len() - at;
    if left < 2 {
        Err(need(2))
    } else if left < 4 {
        Err(need(1))
    } else if left < 28 {
        Err(need(4))
    } else if left < 30 {
        Err(need(1))
    } else if left < 32 {
        Err(need(2))
    } else if left < 34 {
        Err(need(1))
    } else if left < 36 {
        Err(need(2))
    } else if left < 52 {
        Err(need(4))
    } else {
        Ok(at + 52)
    }
}

/// The outcome of `movevars`. The sky's name, 32 bytes, stands at 68.
pub open spec fn spec_movevars(bytes: Seq<u8>, at: int) -> Result<int, errors::Error> {
    let left = bytes.len() - at;
    if left < 68 {
        Err(need(4))
    } else if left < 100 {
        Err(need(32))
    } else if left < 132 {
        Err(need(4))
    } else {
        Ok(at + 132)
    }
}

/// The outcome of `net_msg_info`: a timestamp, the three records, a vector
/// and a number.
pub open spec fn spec_net_msg_info(bytes: Seq<u8>, at: int) -> Result<int, errors::Error> {
    match spec_read(bytes, at, 4) {
        Err(e) => Err(e),
        Ok(a) => match spec_ref_params(bytes, a) {
            Err(e) => Err(e),
            Ok(b) => match spec_usercmd(bytes, b) {
                Err(e) => Err(e),
                Ok(c) => match spec_movevars(bytes, c) {
                    Err(e) => Err(e),
                    Ok(d) => spec_fields(bytes, d, 16, 4),
                },
            },
        },
    }
}

/// The outcome of `net_msg_data_inner`: the info, seven numbers, and the
/// message with its length before it. A length outside
/// `MIN_MESSAGE_LENGTH..=MAX_MESSAGE_LENGTH` is rejected before the message
/// is taken.
pub open spec fn spec_net_msg_data(bytes: Seq<u8>, at: int) -> Result<int, errors::Error> {
    match spec_net_msg_info(bytes, at) {
        Err(e) => Err(e),
        Ok(a) => match spec_fields(bytes, a, 32, 4) {
            Err(e) => Err(e),
            Ok(b) => {
                let length = spec_le_i32(bytes, b - 4);
                if length < MIN_MESSAGE_LENGTH || length > MAX_MESSAGE_LENGTH {
                    Err(invalid(Error::InvalidNetMsgLength(length as i32)))
                } else {
                    spec_read(bytes, b, length as usize)
                }
            },
        },
    }
}

pub fn ref_params(input: &[u8], pos: usize) -> (r: Result<(usize, RefParams), errors::Error>)
    ensures
        decoded(r, spec_ref_params(input@, pos as int)),
        r matches Ok((_, v)) ==> v.encoded_at(input@, pos as int),
{
    let (pos, vieworg) = xyz(input, pos)?;
    let (pos, viewangles) = xyz(input, pos)?;
    let (pos, forward) = xyz(input, pos)?;
    let (pos, right) = xyz(input, pos)?;
    let (pos, up) = xyz(input, pos)?;
    let (pos, frametime) = le_u32(input, pos)?;
    let (pos, time) = le_u32(input, pos)?;
    let (pos, intermission) = le_i32(input, pos)?;
    let (pos, paused) = le_i32(input, pos)?;
    let (pos, spectator) = le_i32(input, pos)?;
    let (pos, onground) = le_i32(input, pos)?;
    let (pos, waterlevel) = le_i32(input, pos)?;
    let (pos, simvel) = xyz(input, pos)?;
    let (pos, simorg) = xyz(input, pos)?;
    let (pos, viewheight) = xyz(input, pos)?;
    let (pos, idealpitch) = le_u32(input, pos)?;
    let (pos, cl_viewangles) = xyz(input, pos)?;
    let (pos, health) = le_i32(input, pos)?;
    let (pos, crosshairangle) = xyz(input, pos)?;
    let (pos, viewsize) = le_u32(input, pos)?;
    let (pos, punchangle) = xyz(input, pos)?;
    let (pos, maxclients) = le_i32(input, pos)?;
    let (pos, viewentity) = le_i32(input, pos)?;
    let (pos, playernum) = le_i32(input, pos)?;
    let (pos, max_entities) = le_i32(input, pos)?;
    let (pos, demoplayback) = le_i32(input, pos)?;
    let (pos, hardware) = le_i32(input, pos)?;
    let (pos, smoothing) = le_i32(input, pos)?;
    let (pos, ptr_cmd) = le_i32(input, pos)?;
    let (pos, ptr_movevars) = le_i32(input, pos)?;
    let (pos, viewport) = i32_4(input, pos)?;
    let (pos, next_view) = le_i32(input, pos)?;
    let (pos, only_client_draw) = le_i32(input, pos)?;
    Ok((pos, RefParams {
        vieworg,
        viewangles,
        forward,
        right,
        up,
        frametime,
        time,
        intermission,
        paused,
        spectator,
        onground,
        waterlevel,
        simvel,
        simorg,
        viewheight,
        idealpitch,
        cl_viewangles,
        health,
        crosshairangle,
        viewsize,
        punchangle,
        maxclients,
        viewentity,
        playernum,
        max_entities,
        demoplayback,
        hardware,
        smoothing,
        ptr_cmd,
        ptr_movevars,
        viewport,
        next_view,
        only_client_draw,
    }))
}

pub fn usercmd(input: &[u8], pos: usize) -> (r: Result<(usize, UserCmd), errors::Error>)
    ensures
        decoded(r, spec_usercmd(input@, pos as int)),
        r matches Ok((_, v)) ==> v.encoded_at(input@, pos as int),
{
    let (pos, lerp_msec) = le_i16(input, pos)?;
    let (pos, msec) = be_u8(input, pos)?;
    let (pos, _) = take(input, pos, 1)?;
    let (pos, viewangles) = xyz(input, pos)?;
    let (pos, forwardmove) = le_u32(input, pos)?;
    let (pos, sidemove) = le_u32(input, pos)?;
    let (pos, upmove) = le_u32(input, pos)?;
    let (pos, lightlevel) = be_i8(input, pos)?;
    let (pos, _) = take(input, pos, 1)?;
    let (pos, buttons) = le_u16(input, pos)?;
    let (pos, impulse) = be_i8(input, pos)?;
    let (pos, weaponselect) = be_i8(input, pos)?;
    let (pos, _) = take(input, pos, 2)?;
    let (pos, impact_index) = le_i32(input, pos)?;
    let (pos, impact_position) = xyz(input, pos)?;
    Ok((pos, UserCmd {
        lerp_msec,
        msec,
        viewangles,
        forwardmove,
        sidemove,
        upmove,
        lightlevel,
        buttons,
        impulse,
        weaponselect,
        impact_index,
        impact_position,
    }))
}

pub fn movevars<'a>(input: &'a [u8], pos: usize) -> (r: Result<(usize, MoveVars<'a>), errors::Error>)
    ensures
        decoded(r, spec_movevars(input@, pos as int)),
        r matches Ok((_, v)) ==> v.encoded_at(input@, pos as int),
{
    let (pos, gravity) = le_u32(input, pos)?;
    let (pos, stopspeed) = le_u32(input, pos)?;
    let (pos, maxspeed) = le_u32(input, pos)?;
    let (pos, spectatormaxspeed) = le_u32(input, pos)?;
    let (pos, accelerate) = le_u32(input, pos)?;
    let (pos, airaccelerate) = le_u32(input, pos)?;
    let (pos, wateraccelerate) = le_u32(input, pos)?;
    let (pos, friction) = le_u32(input, pos)?;
    let (pos, edgefriction) = le_u32(input, pos)?;
    let (pos, waterfriction) = le_u32(input, pos)?;
    let (pos, entgravity) = le_u32(input, pos)?;
    let (pos, bounce) = le_u32(input, pos)?;
    let (pos, stepsize) = le_u32(input, pos)?;
    let (pos, maxvelocity) = le_u32(input, pos)?;
    let (pos, zmax) = le_u32(input, pos)?;
    let (pos, wave_height) = le_u32(input, pos)?;
    let (pos, footsteps) = le_i32(input, pos)?;
    let (pos, sky_name) = take(input, pos, 32)?;
    let (pos, rollangle) = le_u32(input, pos)?;
    let (pos, rollspeed) = le_u32(input, pos)?;
    let (pos, skycolor_r) = le_u32(input, pos)?;
    let (pos, skycolor_g) = le_u32(input, pos)?;
    let (pos, skycolor_b) = le_u32(input, pos)?;
    let (pos, skyvec_x) = le_u32(input, pos)?;
    let (pos, skyvec_y) = le_u32(input, pos)?;
    let (pos, skyvec_z) = le_u32(input, pos)?;
    Ok((pos, MoveVars {
        gravity,
        stopspeed,
        maxspeed,
        spectatormaxspeed,
        accelerate,
        airaccelerate,
        wateraccelerate,
        friction,
        edgefriction,
        waterfriction,
        entgravity,
        bounce,
        stepsize,
        maxvelocity,
        zmax,
        wave_height,
        footsteps,
        sky_name,
        rollangle,
        rollspeed,
        skycolor_r,
        skycolor_g,
        skycolor_b,
        skyvec_x,
        skyvec_y,
        skyvec_z,
    }))
}

pub fn net_msg_info<'a>(input: &'a [u8], pos: usize) -> (r: Result<
    (usize, NetMsgInfo<'a>),
    errors::Error,
>)
    ensures
        decoded(r, spec_net_msg_info(input@, pos as int)),
        r matches Ok((_, v)) ==> v.encoded_at(input@, pos as int),
{
    let (pos, timestamp) = le_u32(input, pos)?;
    let (pos, ref_params) = ref_params(input, pos)?;
    let (pos, usercmd) = usercmd(input, pos)?;
    let (pos, movevars) = movevars(input, pos)?;
    let (pos, view) = xyz(input, pos)?;
    let (pos, viewmodel) = le_i32(input, pos)?;
    Ok((pos, NetMsgInfo {
        timestamp,
        ref_params,
        usercmd,
        movevars,
        view,
        viewmodel,
    }))
}

/// Accepts a message length from `MIN_MESSAGE_LENGTH` to `MAX_MESSAGE_LENGTH`.
pub fn check_msg_length(length: i32) -> (r: Result<i32, Error>)
    ensures
        MIN_MESSAGE_LENGTH <= length <= MAX_MESSAGE_LENGTH ==> r === Ok(length),
        !(MIN_MESSAGE_LENGTH <= length <= MAX_MESSAGE_LENGTH) ==> r === Err(
            Error::InvalidNetMsgLength(length),
        ),
{
    if length < MIN_MESSAGE_LENGTH || length > MAX_MESSAGE_LENGTH {
        Err(Error::InvalidNetMsgLength(length))
    } else {
        Ok(length)
    }
}

pub fn net_msg_data_inner<'a>(input: &'a [u8], pos: usize) -> (r: Result<
    (usize, NetMsgData<'a>),
    errors::Error,
>)
    ensures
        decoded(r, spec_net_msg_data(input@, pos as int)),
        r matches Ok((_, v)) ==> v.encoded_at(input@, pos as int),
{
    let (pos, info) = net_msg_info(input, pos)?;
    let (pos, incoming_sequence) = le_i32(input, pos)?;
    let (pos, incoming_acknowledged) = le_i32(input, pos)?;
    let (pos, incoming_reliable_acknowledged) = le_i32(input, pos)?;
    let (pos, incoming_reliable_sequence) = le_i32(input, pos)?;
    let (pos, outgoing_sequence) = le_i32(input, pos)?;
    let (pos, reliable_sequence) = le_i32(input, pos)?;
    let (pos, last_reliable_sequence) = le_i32(input, pos)?;
    let (pos, msg_length) = le_i32(input, pos)?;
    let msg_length = match check_msg_length(msg_length) {
        Ok(length) => length,
        Err(code) => {
            return Err(errors::Error::from(code));
        },
    };
    let (pos, msg) = take(input, pos, msg_length as usize)?;
    Ok((pos, NetMsgData {
        info,
        incoming_sequence,
        incoming_acknowledged,
        incoming_reliable_acknowledged,
        incoming_reliable_sequence,
        outgoing_sequence,
        reliable_sequence,
        last_reliable_sequence,
        msg,
    }))
}

/// A network message of the ordinary kind.
pub fn net_msg_data<'a>(input: &'a [u8], pos: usize) -> (r: Result<
    (usize, FrameData<'a>),
    errors::Error,
>)
    ensures
        decoded(r, spec_net_msg_data(input@, pos as int)),
        r matches Ok((_, v)) ==> v matches FrameData::NetMsg(data) && data.encoded_at(
            input@,
            pos as int,
        ),
{
    let (pos, data) = net_msg_data_inner(input, pos)?;
    Ok((pos, FrameData::NetMsg(data)))
}

/// A network message of the kind that opens a recording.
pub fn net_msg_start_data<'a>(input: &'a [u8], pos: usize) -> (r: Result<
    (usize, FrameData<'a>),
    errors::Error,
>)
    ensures
        decoded(r, spec_net_msg_data(input@, pos as int)),
        r matches Ok((_, v)) ==> v matches FrameData::NetMsgStart(data) && data.encoded_at(
            input@,
            pos as int,
        ),
{
    let (pos, data) = net_msg_data_inner(input, pos)?;
    Ok((pos, FrameData::NetMsgStart(data)))
}

/// The message's length decides: with the 468 bytes before the message in
/// the input, a length between `MIN_MESSAGE_LENGTH` and
/// `MAX_MESSAGE_LENGTH`, the two included, is accepted, and the message is
/// decoded where it fits; a length outside is rejected, and the error holds
/// the length that was read.
pub proof fn lemma_msg_length_decides(bytes: Seq<u8>, at: int)
    requires
        0 <= at,
        at + 468 <= bytes.len(),
    ensures
        ({
            let length = spec_le_i32(bytes, at + 464);
            if MIN_MESSAGE_LENGTH <= length <= MAX_MESSAGE_LENGTH {
                spec_net_msg_data(bytes, at) === spec_read(bytes, at + 468, length as usize)
            } else {
                spec_net_msg_data(bytes, at) === Err(
                    invalid(Error::InvalidNetMsgLength(length as i32)),
                )
            }
        }),
{
}

} // verus!
