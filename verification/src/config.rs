//! The fully-resolved configuration record a route is constructed from.
//! Loading and persisting it is the owning application's business; the core
//! only consumes the resolved values.

use vstd::prelude::*;

verus! {

/// Device names and stream parameters for both legs of the duplex path.
#[derive(Clone, Debug)]
pub struct AudioConfig {
    /// Physical capture device (the operator's microphone).
    pub input_device_name: String,
    /// Virtual render device fed by the processed microphone signal.
    pub vbcable_input_name: String,
    /// Virtual capture device carrying the remote party's signal.
    pub vbcable_output_name: String,
    /// Physical render device (the operator's speaker or headphones).
    pub output_device_name: String,
    /// Requested sample rate in Hz for both legs.
    pub sample_rate: u32,
    /// Advisory buffer size in frames for both legs.
    pub buffer_size: u32,
}

impl Default for AudioConfig {
    /// The out-of-the-box configuration: common loopback-cable names and
    /// conservative stream parameters.
    fn default() -> (c: Self)
        ensures
            c.input_device_name@ == "麦克风"@,
            c.vbcable_input_name@ == "CABLE-A Input"@,
            c.vbcable_output_name@ == "CABLE Output"@,
            c.output_device_name@ == "扬声器"@,
            c.sample_rate == 48000,
            c.buffer_size == 512,
    {
        AudioConfig {
            input_device_name: "麦克风".to_owned(),
            vbcable_input_name: "CABLE-A Input".to_owned(),
            vbcable_output_name: "CABLE Output".to_owned(),
            output_device_name: "扬声器".to_owned(),
            sample_rate: 48000,
            buffer_size: 512,
        }
    }
}

} // verus!
