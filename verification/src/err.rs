use vstd::prelude::*;
use vstd::string::*;

verus! {

/// What can go wrong around a capture or playback session.
#[derive(Debug)]
pub enum RError {
    /// No device, or no stream configuration the session can work with.
    DeviceError(String),
    /// The data handed in does not fit the stream configuration.
    CofigError(String),
    /// The hardware stream refused to start, pause or resume.
    StreamError(String),
    /// The codec could not be set up, or failed on a frame or a packet.
    CodecError(String),
    /// The other end of a handoff has gone away.
    ChannelClosed,
}

impl RError {
    /// The text a device error carries when it is made from what the device
    /// layer reported.
    pub open spec fn device_text(detail: Seq<char>) -> Seq<char> {
        "DeviceError:"@ + detail
    }

    /// A device error made from what the device layer reported.
    pub fn from_device_report(detail: &str) -> (e: RError)
        ensures
            e matches RError::DeviceError(text) && text@ == RError::device_text(detail@),
    {
        RError::DeviceError(String::from_str("DeviceError:").concat(detail))
    }

    /// The text the error carries; empty for a closed channel.
    pub open spec fn spec_message(&self) -> Seq<char> {
        match self {
            RError::DeviceError(text) => text@,
            RError::CofigError(text) => text@,
            RError::StreamError(text) => text@,
            RError::CodecError(text) => text@,
            RError::ChannelClosed => Seq::empty(),
        }
    }

    /// The text the error carries; empty for a closed channel.
    pub fn message(&self) -> (text: String)
        ensures
            text@ == self.spec_message(),
    {
        match self {
            RError::DeviceError(text) => text.clone(),
            RError::CofigError(text) => text.clone(),
            RError::StreamError(text) => text.clone(),
            RError::CodecError(text) => text.clone(),
            RError::ChannelClosed => String::new(),
        }
    }
}

} // verus!
