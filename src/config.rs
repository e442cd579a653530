use vstd::prelude::*;

verus! {

/// Parameter id: audio object type.
pub const PARAM_AOT: u32 = 256;
/// Parameter id: bit rate in bits per second.
pub const PARAM_BITRATE: u32 = 257;
/// Parameter id: bit-rate mode, 0 for constant rate, 1 to 5 for the
/// variable-rate tiers.
pub const PARAM_BITRATEMODE: u32 = 258;
/// Parameter id: sample rate in Hz.
pub const PARAM_SAMPLERATE: u32 = 259;
/// Parameter id: bandwidth-extension mode.
pub const PARAM_SBR_MODE: u32 = 260;
/// Parameter id: channel mode.
pub const PARAM_CHANNELMODE: u32 = 262;
/// Parameter id: transport (framing) type.
pub const PARAM_TRANSMUX: u32 = 768;

/// Audio object type of MPEG-4 AAC Low Complexity, the one profile used.
pub const AOT_AAC_LC: u32 = 2;
/// Transport type of self-delimited ADTS frames.
pub const TRANSMUX_ADTS: u32 = 2;
/// Transport type of raw access units.
pub const TRANSMUX_RAW: u32 = 0;
/// Bandwidth extension switched off.
pub const SBR_OFF: u32 = 0;
/// Channel mode of two channels.
pub const CHANNEL_MODE_STEREO: u32 = 2;
/// Module count handed to the engine at open: 0 lets it pick all it needs.
pub const MAX_MODULES: u32 = 0;
/// Channel count that the engine instance is opened for.
pub const MAX_CHANNELS: u32 = 2;

/// Bit-rate policy: a constant rate in bits per second, or one of five
/// variable-rate quality tiers.
#[derive(Debug, Clone, Copy, PartialEq, Eq, Structural)]
pub enum BitRate {
    Cbr(u32),
    VbrVeryLow,
    VbrLow,
    VbrMedium,
    VbrHigh,
    VbrVeryHigh,
}

/// Bitstream framing mode.
#[derive(Debug, Clone, Copy, PartialEq, Eq, Structural)]
pub enum Transport {
    Adts,
    Raw,
}

/// The options of an encode session, fixed at construction.
#[derive(Debug, Clone, Copy, PartialEq, Eq, Structural)]
pub struct EncoderParams {
    pub bit_rate: BitRate,
    pub sample_rate: u32,
    pub transport: Transport,
}

/// One parameter-set call: the parameter id and its value.
#[derive(Debug, Clone, Copy, PartialEq, Eq, Structural)]
pub struct ParamSetting {
    pub param: u32,
    pub value: u32,
}

impl BitRate {
    pub open spec fn mode_spec(self) -> u32 {
        match self {
            BitRate::Cbr(_) => 0,
            BitRate::VbrVeryLow => 1,
            BitRate::VbrLow => 2,
            BitRate::VbrMedium => 3,
            BitRate::VbrHigh => 4,
            BitRate::VbrVeryHigh => 5,
        }
    }

    /// The engine's bit-rate mode code of this policy.
    pub fn mode(&self) -> (r: u32)
        ensures
            r == self.mode_spec(),
    {
        match self {
            BitRate::Cbr(_) => 0,
            BitRate::VbrVeryLow => 1,
            BitRate::VbrLow => 2,
            BitRate::VbrMedium => 3,
            BitRate::VbrHigh => 4,
            BitRate::VbrVeryHigh => 5,
        }
    }
}

impl Transport {
    pub open spec fn transmux_spec(self) -> u32 {
        match self {
            Transport::Adts => TRANSMUX_ADTS,
            Transport::Raw => TRANSMUX_RAW,
        }
    }

    /// The engine's transport type code of this framing mode.
    pub fn transmux(&self) -> (r: u32)
        ensures
            r == self.transmux_spec(),
    {
        match self {
            Transport::Adts => TRANSMUX_ADTS,
            Transport::Raw => TRANSMUX_RAW,
        }
    }
}

/// The bit-rate settings: for a constant rate the rate and then mode 0, for
/// a variable-rate tier only the mode.
pub open spec fn rate_settings(b: BitRate) -> Seq<ParamSetting> {
    match b {
        BitRate::Cbr(rate) => seq![
            ParamSetting { param: PARAM_BITRATE, value: rate },
            ParamSetting { param: PARAM_BITRATEMODE, value: 0 },
        ],
        _ => seq![ParamSetting { param: PARAM_BITRATEMODE, value: b.mode_spec() }],
    }
}

/// The parameter-set calls of a session, in order: profile, bit rate, sample
/// rate, framing, bandwidth extension off, two channels.
pub open spec fn plan_of(p: EncoderParams) -> Seq<ParamSetting> {
    seq![ParamSetting { param: PARAM_AOT, value: AOT_AAC_LC }] + rate_settings(p.bit_rate) + seq![
        ParamSetting { param: PARAM_SAMPLERATE, value: p.sample_rate },
        ParamSetting { param: PARAM_TRANSMUX, value: p.transport.transmux_spec() },
        ParamSetting { param: PARAM_SBR_MODE, value: SBR_OFF },
        ParamSetting { param: PARAM_CHANNELMODE, value: CHANNEL_MODE_STEREO },
    ]
}

/// The parameter-set calls that configure a session for `params`.
pub fn parameter_plan(params: &EncoderParams) -> (r: Vec<ParamSetting>)
    ensures
        r@ == plan_of(*params),
{
    let mut r: Vec<ParamSetting> = Vec::new();
    r.push(ParamSetting { param: PARAM_AOT, value: AOT_AAC_LC });
    match params.bit_rate {
        BitRate::Cbr(rate) => {
            r.push(ParamSetting { param: PARAM_BITRATE, value: rate });
        },
        _ => {},
    }
    r.push(ParamSetting { param: PARAM_BITRATEMODE, value: params.bit_rate.mode() });
    r.push(ParamSetting { param: PARAM_SAMPLERATE, value: params.sample_rate });
    r.push(ParamSetting { param: PARAM_TRANSMUX, value: params.transport.transmux() });
    r.push(ParamSetting { param: PARAM_SBR_MODE, value: SBR_OFF });
    r.push(ParamSetting { param: PARAM_CHANNELMODE, value: CHANNEL_MODE_STEREO });
    assert(r@ =~= plan_of(*params));
    r
}

} // verus!
