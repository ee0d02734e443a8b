//! The value objects handed to the user interface.
use vstd::prelude::*;

verus! {

/// The raw volume that stands for 100%. A [`Sink`]'s volume is counted in
/// units of `1 / VOLUME_NORMAL`, so this many units make the ratio 1.
pub const VOLUME_NORMAL: u32 = 0x10000;

/// The kind of output path a port leads to.
#[derive(Debug, Clone, Copy, PartialEq, Eq, Structural)]
pub enum DeviceType {
    Headphones,
    Speakers,
    Headset,
}

/// A physical or logical output path of a sink.
#[derive(Debug, Clone, PartialEq, Eq)]
pub struct Port {
    pub name: String,
    pub description: String,
    pub device_type: DeviceType,
    /// Set only on the port that the hardware has selected on the sink that
    /// is the default device.
    pub active: bool,
}

/// One audio output device.
#[derive(Debug, Clone, PartialEq, Eq)]
pub struct Sink {
    pub name: String,
    pub description: String,
    /// Average channel volume in units of `1 / VOLUME_NORMAL`; not clamped,
    /// so an amplified device reads above `VOLUME_NORMAL`.
    pub volume: u32,
    pub is_mute: bool,
    pub ports: Vec<Port>,
}

/// What the bridge sends to the user interface.
#[derive(Debug, Clone, PartialEq, Eq)]
pub enum AudioMessage {
    /// The complete device listing; it replaces any earlier one.
    SinkChanges(Vec<Sink>),
}

/// Mathematical model of a [`Port`].
pub struct PortView {
    pub name: Seq<char>,
    pub description: Seq<char>,
    pub device_type: DeviceType,
    pub active: bool,
}

/// Mathematical model of a [`Sink`].
pub struct SinkView {
    pub name: Seq<char>,
    pub description: Seq<char>,
    pub volume: u32,
    pub is_mute: bool,
    pub ports: Seq<PortView>,
}

/// Mathematical model of an [`AudioMessage`].
pub enum AudioMessageView {
    SinkChanges(Seq<SinkView>),
}

impl View for Port {
    type V = PortView;

    open spec fn view(&self) -> PortView {
        PortView {
            name: self.name@,
            description: self.description@,
            device_type: self.device_type,
            active: self.active,
        }
    }
}

impl DeepView for Port {
    type V = PortView;

    open spec fn deep_view(&self) -> PortView {
        self@
    }
}

impl View for Sink {
    type V = SinkView;

    open spec fn view(&self) -> SinkView {
        SinkView {
            name: self.name@,
            description: self.description@,
            volume: self.volume,
            is_mute: self.is_mute,
            ports: self.ports.deep_view(),
        }
    }
}

impl DeepView for Sink {
    type V = SinkView;

    open spec fn deep_view(&self) -> SinkView {
        self@
    }
}

impl View for AudioMessage {
    type V = AudioMessageView;

    open spec fn view(&self) -> AudioMessageView {
        match self {
            AudioMessage::SinkChanges(sinks) => AudioMessageView::SinkChanges(sinks.deep_view()),
        }
    }
}

impl DeepView for AudioMessage {
    type V = AudioMessageView;

    open spec fn deep_view(&self) -> AudioMessageView {
        self@
    }
}

} // verus!
