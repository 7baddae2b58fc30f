//! USB Audio Class 2 (UAC2) function configuration.
//!
//! The driver is configured through key/value property files; the list of
//! properties a configuration produces is computed here, and the
//! surrounding program writes them during registration.

use vstd::prelude::*;

use crate::props::{
    push_prop_bool, push_prop_i16, push_prop_string, push_prop_u32, push_prop_u8, spec_props_view,
    spec_with_bool, spec_with_i16, spec_with_str, spec_with_u32, spec_with_u8, Prop,
};

verus! {

/// Audio channel configuration.
#[derive(Debug, Clone, PartialEq, Eq)]
pub struct Channel {
    /// Audio channel mask; 0 disables the audio endpoint.
    pub channel_mask: Option<u32>,
    /// Audio sample rate in Hz.
    pub sample_rate: Option<u32>,
    /// Audio sample size in bytes.
    pub sample_size: Option<u32>,
}

impl Channel {
    /// Creates a new audio channel with the specified channel mask,
    /// sample rate in Hz and sample size in bytes.
    pub fn new(channel_mask: u32, sample_rate: u32, sample_size: u32) -> (r: Self)
        ensures
            r == (Channel {
                channel_mask: Some(channel_mask),
                sample_rate: Some(sample_rate),
                sample_size: Some(sample_size),
            }),
    {
        Self {
            channel_mask: Some(channel_mask),
            sample_rate: Some(sample_rate),
            sample_size: Some(sample_size),
        }
    }
}

impl Default for Channel {
    /// No values set: the driver defaults apply.
    fn default() -> (r: Self)
        ensures
            r == (Channel { channel_mask: None, sample_rate: None, sample_size: None }),
    {
        Channel { channel_mask: None, sample_rate: None, sample_size: None }
    }
}

/// Audio device configuration.
///
/// Unset fields are left at the driver's default values.
#[derive(Debug, Clone, PartialEq, Eq)]
pub struct Uac2Config {
    /// Audio channel configuration.
    pub channel: Channel,
    /// Audio sync type; capture only.
    pub sync_type: Option<u32>,
    /// Capture `bInterval` for high and super speed: 1 to 4 fixed, 0
    /// automatic.
    pub hs_interval: Option<u8>,
    /// Whether the channel has mute.
    pub mute_present: Option<bool>,
    /// Terminal type.
    pub terminal_type: Option<u8>,
    /// Whether the channel has volume.
    pub volume_present: Option<bool>,
    /// Minimum volume, in 1/256 dB.
    pub volume_min: Option<i16>,
    /// Maximum volume, in 1/256 dB.
    pub volume_max: Option<i16>,
    /// Resolution of the volume control, in 1/256 dB.
    pub volume_resolution: Option<i16>,
    /// Name of the volume control function.
    pub volume_name: Option<String>,
    /// Name of the input terminal.
    pub input_terminal_name: Option<String>,
    /// Name of the input terminal channel.
    pub input_terminal_channel_name: Option<String>,
    /// Name of the output terminal.
    pub output_terminal_name: Option<String>,
}

impl Default for Uac2Config {
    /// No values set: the driver defaults apply.
    fn default() -> (r: Self)
        ensures
            r.channel == (Channel { channel_mask: None, sample_rate: None, sample_size: None }),
            r.sync_type is None,
            r.hs_interval is None,
            r.mute_present is None,
            r.terminal_type is None,
            r.volume_present is None,
            r.volume_min is None,
            r.volume_max is None,
            r.volume_resolution is None,
            r.volume_name is None,
            r.input_terminal_name is None,
            r.input_terminal_channel_name is None,
            r.output_terminal_name is None,
    {
        Uac2Config {
            channel: Channel { channel_mask: None, sample_rate: None, sample_size: None },
            sync_type: None,
            hs_interval: None,
            mute_present: None,
            terminal_type: None,
            volume_present: None,
            volume_min: None,
            volume_max: None,
            volume_resolution: None,
            volume_name: None,
            input_terminal_name: None,
            input_terminal_channel_name: None,
            output_terminal_name: None,
        }
    }
}

/// View of an optional string field.
pub open spec fn spec_opt_str(v: Option<String>) -> Option<Seq<char>> {
    match v {
        Some(s) => Some(s@),
        None => None,
    }
}

/// The capture properties of a configuration, in registration order.
pub open spec fn spec_uac2_capture_props(
    ps0: Seq<(Seq<char>, Seq<u8>)>,
    c: Uac2Config,
) -> Seq<(Seq<char>, Seq<u8>)> {
    let ps = spec_with_u32(ps0, ("c_chmask")@, c.channel.channel_mask);
    let ps = spec_with_u32(ps, ("c_srate")@, c.channel.sample_rate);
    let ps = spec_with_u32(ps, ("c_ssize")@, c.channel.sample_size);
    let ps = spec_with_u32(ps, ("c_sync")@, c.sync_type);
    let ps = spec_with_u8(ps, ("c_hs_bint")@, c.hs_interval);
    let ps = spec_with_bool(ps, ("c_mute_present")@, c.mute_present);
    let ps = spec_with_bool(ps, ("c_volume_present")@, c.volume_present);
    let ps = spec_with_i16(ps, ("c_volume_min")@, c.volume_min);
    let ps = spec_with_i16(ps, ("c_volume_max")@, c.volume_max);
    let ps = spec_with_i16(ps, ("c_volume_res")@, c.volume_resolution);
    let ps = spec_with_str(ps, ("c_fu_vol_name")@, spec_opt_str(c.volume_name));
    let ps = spec_with_u8(ps, ("c_terminal_type")@, c.terminal_type);
    let ps = spec_with_str(ps, ("c_it_name")@, spec_opt_str(c.input_terminal_name));
    let ps = spec_with_str(ps, ("c_it_ch_name")@, spec_opt_str(c.input_terminal_channel_name));
    let ps = spec_with_str(ps, ("c_ot_name")@, spec_opt_str(c.output_terminal_name));
    ps
}

/// The playback properties of a configuration, in registration order.
pub open spec fn spec_uac2_playback_props(
    ps0: Seq<(Seq<char>, Seq<u8>)>,
    c: Uac2Config,
) -> Seq<(Seq<char>, Seq<u8>)> {
    let ps = spec_with_u32(ps0, ("p_chmask")@, c.channel.channel_mask);
    let ps = spec_with_u32(ps, ("p_srate")@, c.channel.sample_rate);
    let ps = spec_with_u32(ps, ("p_ssize")@, c.channel.sample_size);
    let ps = spec_with_u8(ps, ("p_hs_bint")@, c.hs_interval);
    let ps = spec_with_bool(ps, ("p_mute_present")@, c.mute_present);
    let ps = spec_with_bool(ps, ("p_volume_present")@, c.volume_present);
    let ps = spec_with_i16(ps, ("p_volume_min")@, c.volume_min);
    let ps = spec_with_i16(ps, ("p_volume_max")@, c.volume_max);
    let ps = spec_with_i16(ps, ("p_volume_res")@, c.volume_resolution);
    let ps = spec_with_str(ps, ("p_fu_vol_name")@, spec_opt_str(c.volume_name));
    let ps = spec_with_u8(ps, ("p_terminal_type")@, c.terminal_type);
    let ps = spec_with_str(ps, ("p_it_name")@, spec_opt_str(c.input_terminal_name));
    let ps = spec_with_str(ps, ("p_it_ch_name")@, spec_opt_str(c.input_terminal_channel_name));
    let ps = spec_with_str(ps, ("p_ot_name")@, spec_opt_str(c.output_terminal_name));
    ps
}

/// Every property a builder writes during registration, in order:
/// capture, playback, then the general settings.
pub open spec fn spec_uac2_props(b: Uac2Builder) -> Seq<(Seq<char>, Seq<u8>)> {
    let ps = spec_uac2_capture_props(Seq::empty(), b.capture);
    let ps = spec_uac2_playback_props(ps, b.playback);
    let ps = spec_with_u32(ps, ("fb_max")@, b.fb_max);
    let ps = spec_with_u32(ps, ("req_number")@, b.request_number);
    let ps = spec_with_str(ps, ("function_name")@, spec_opt_str(b.function_name));
    let ps = spec_with_str(ps, ("if_ctrl_name")@, spec_opt_str(b.control_name));
    let ps = spec_with_str(ps, ("clksrc_in_name")@, spec_opt_str(b.clock_source_in_name));
    let ps = spec_with_str(ps, ("clksrc_out_name")@, spec_opt_str(b.clock_source_out_name));
    ps
}

/// Builder for a USB Audio Class 2 function.
///
/// Set the capture or playback channel mask to 0 to disable that audio
/// endpoint.
#[derive(Debug, Clone, PartialEq, Eq)]
pub struct Uac2Builder {
    /// Audio capture configuration.
    pub capture: Uac2Config,
    /// Audio playback configuration.
    pub playback: Uac2Config,
    /// Maximum extra bandwidth in async mode.
    pub fb_max: Option<u32>,
    /// Number of pre-allocated requests for both capture and playback.
    pub request_number: Option<u32>,
    /// Name of the interface.
    pub function_name: Option<String>,
    /// Topology control name.
    pub control_name: Option<String>,
    /// Name of the input clock source.
    pub clock_source_in_name: Option<String>,
    /// Name of the output clock source.
    pub clock_source_out_name: Option<String>,
}

/// Appends the capture properties of a configuration.
fn push_capture_props(ps: &mut Vec<Prop>, c: &Uac2Config)
    ensures
        spec_props_view(final(ps)@) == spec_uac2_capture_props(spec_props_view(old(ps)@), *c),
{
    push_prop_u32(ps, "c_chmask", c.channel.channel_mask);
    push_prop_u32(ps, "c_srate", c.channel.sample_rate);
    push_prop_u32(ps, "c_ssize", c.channel.sample_size);
    push_prop_u32(ps, "c_sync", c.sync_type);
    push_prop_u8(ps, "c_hs_bint", c.hs_interval);
    push_prop_bool(ps, "c_mute_present", c.mute_present);
    push_prop_bool(ps, "c_volume_present", c.volume_present);
    push_prop_i16(ps, "c_volume_min", c.volume_min);
    push_prop_i16(ps, "c_volume_max", c.volume_max);
    push_prop_i16(ps, "c_volume_res", c.volume_resolution);
    push_prop_string(ps, "c_fu_vol_name", &c.volume_name);
    push_prop_u8(ps, "c_terminal_type", c.terminal_type);
    push_prop_string(ps, "c_it_name", &c.input_terminal_name);
    push_prop_string(ps, "c_it_ch_name", &c.input_terminal_channel_name);
    push_prop_string(ps, "c_ot_name", &c.output_terminal_name);
}

/// Appends the playback properties of a configuration.
fn push_playback_props(ps: &mut Vec<Prop>, c: &Uac2Config)
    ensures
        spec_props_view(final(ps)@) == spec_uac2_playback_props(spec_props_view(old(ps)@), *c),
{
    push_prop_u32(ps, "p_chmask", c.channel.channel_mask);
    push_prop_u32(ps, "p_srate", c.channel.sample_rate);
    push_prop_u32(ps, "p_ssize", c.channel.sample_size);
    push_prop_u8(ps, "p_hs_bint", c.hs_interval);
    push_prop_bool(ps, "p_mute_present", c.mute_present);
    push_prop_bool(ps, "p_volume_present", c.volume_present);
    push_prop_i16(ps, "p_volume_min", c.volume_min);
    push_prop_i16(ps, "p_volume_max", c.volume_max);
    push_prop_i16(ps, "p_volume_res", c.volume_resolution);
    push_prop_string(ps, "p_fu_vol_name", &c.volume_name);
    push_prop_u8(ps, "p_terminal_type", c.terminal_type);
    push_prop_string(ps, "p_it_name", &c.input_terminal_name);
    push_prop_string(ps, "p_it_ch_name", &c.input_terminal_channel_name);
    push_prop_string(ps, "p_ot_name", &c.output_terminal_name);
}

impl Uac2Builder {
    /// A builder with no values set: the driver defaults apply
    /// throughout.
    pub fn new() -> (r: Uac2Builder)
        ensures
            r.capture.channel.channel_mask is None,
            r.playback.channel.channel_mask is None,
            r.fb_max is None,
            r.request_number is None,
            r.function_name is None,
            r.control_name is None,
            r.clock_source_in_name is None,
            r.clock_source_out_name is None,
    {
        Uac2Builder {
            capture: Uac2Config::default(),
            playback: Uac2Config::default(),
            fb_max: None,
            request_number: None,
            function_name: None,
            control_name: None,
            clock_source_in_name: None,
            clock_source_out_name: None,
        }
    }

    /// Set audio capture configuration.
    #[must_use]
    pub fn with_capture_config(self, capture: Uac2Config) -> (r: Self)
        ensures
            r == (Uac2Builder { capture, ..self }),
    {
        let mut this = self;
        this.capture = capture;
        this
    }

    /// Set audio playback configuration.
    #[must_use]
    pub fn with_playback_config(self, playback: Uac2Config) -> (r: Self)
        ensures
            r == (Uac2Builder { playback, ..self }),
    {
        let mut this = self;
        this.playback = playback;
        this
    }

    /// Every property this builder writes during registration, in order.
    pub fn properties(&self) -> (r: Vec<Prop>)
        ensures
            spec_props_view(r@) == spec_uac2_props(*self),
    {
        let mut ps: Vec<Prop> = Vec::new();
        proof {
            assert(spec_props_view(ps@) =~= Seq::<(Seq<char>, Seq<u8>)>::empty());
        }
        push_capture_props(&mut ps, &self.capture);
        push_playback_props(&mut ps, &self.playback);
        push_prop_u32(&mut ps, "fb_max", self.fb_max);
        push_prop_u32(&mut ps, "req_number", self.request_number);
        push_prop_string(&mut ps, "function_name", &self.function_name);
        push_prop_string(&mut ps, "if_ctrl_name", &self.control_name);
        push_prop_string(&mut ps, "clksrc_in_name", &self.clock_source_in_name);
        push_prop_string(&mut ps, "clksrc_out_name", &self.clock_source_out_name);
        ps
    }
}

} // verus!
