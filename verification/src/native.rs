//! What the audio server's client reports, as plain values.
//!
//! The client hands out borrowed records that live only for the length of
//! one callback. The types here hold the parts of those records that the
//! snapshot rules read.
use vstd::prelude::*;

verus! {

/// The category that the server assigns to a port.
#[derive(Debug, Clone, Copy, PartialEq, Eq, Structural)]
pub enum RawPortType {
    Unknown,
    Aux,
    Speaker,
    Headphones,
    Line,
    Mic,
    Headset,
    Handset,
    Earpiece,
    SPDIF,
    HDMI,
    TV,
    Radio,
    Video,
    USB,
    Bluetooth,
    Portable,
    Handsfree,
    Car,
    HiFi,
    Phone,
    Network,
    Analog,
}

/// One port record of a sink.
#[derive(Debug, Clone, PartialEq, Eq)]
pub struct RawPort {
    pub name: Option<String>,
    pub description: Option<String>,
    pub port_type: RawPortType,
}

/// One sink record of a device enumeration.
#[derive(Debug, Clone, PartialEq, Eq)]
pub struct RawSink {
    pub name: Option<String>,
    /// The `device.description` property.
    pub description: Option<String>,
    /// Average of the channel volumes, on the server's scale.
    pub volume_avg: u32,
    pub mute: bool,
    pub ports: Vec<RawPort>,
    /// The port that the hardware has selected, if any.
    pub active_port: Option<RawPort>,
}

/// What the server reports of itself.
#[derive(Debug, Clone, PartialEq, Eq)]
pub struct ServerInfo {
    /// Name of the default sink, if there is one.
    pub default_sink_name: Option<String>,
}

/// One callback of an enumeration: zero or more items, then one end marker
/// or one error.
#[derive(Debug, Clone, PartialEq, Eq)]
pub enum ListResult<T> {
    Item(T),
    End,
    Error,
}

/// How one blocking iteration of the event loop ended.
#[derive(Debug, Clone, Copy, PartialEq, Eq, Structural)]
pub enum IterateResult {
    /// Events were dispatched.
    Success,
    /// The loop was asked to quit.
    Quit,
    /// The iteration failed.
    Failed,
}

/// The state of the connection to the server.
#[derive(Debug, Clone, Copy, PartialEq, Eq, Structural)]
pub enum ContextState {
    /// Not connected yet.
    Unconnected,
    /// The connection is being established.
    Connecting,
    /// The client is authorizing itself.
    Authorizing,
    /// The client is passing on its name.
    SettingName,
    /// The connection is established: requests can be made.
    Ready,
    /// The connection failed or was lost.
    Failed,
    /// The connection was closed cleanly.
    Terminated,
}

/// The state of a request.
#[derive(Debug, Clone, Copy, PartialEq, Eq, Structural)]
pub enum OperationState {
    /// Still under way.
    Running,
    /// Completed.
    Done,
    /// Cancelled, by the client or because the connection was lost.
    Cancelled,
}

/// Mathematical model of a [`RawPort`].
pub struct RawPortView {
    pub name: Option<Seq<char>>,
    pub description: Option<Seq<char>>,
    pub port_type: RawPortType,
}

/// Mathematical model of a [`RawSink`].
pub struct RawSinkView {
    pub name: Option<Seq<char>>,
    pub description: Option<Seq<char>>,
    pub volume_avg: u32,
    pub mute: bool,
    pub ports: Seq<RawPortView>,
    pub active_port: Option<RawPortView>,
}

impl RawSinkView {
    /// Every port carries a description. Records without one are not
    /// accepted by the snapshot builder.
    pub open spec fn ports_described(self) -> bool {
        forall|i: int| 0 <= i < self.ports.len() ==> (#[trigger] self.ports[i]).description is Some
    }
}

impl View for RawPort {
    type V = RawPortView;

    open spec fn view(&self) -> RawPortView {
        RawPortView {
            name: self.name.deep_view(),
            description: self.description.deep_view(),
            port_type: self.port_type,
        }
    }
}

impl DeepView for RawPort {
    type V = RawPortView;

    open spec fn deep_view(&self) -> RawPortView {
        self@
    }
}

impl View for RawSink {
    type V = RawSinkView;

    open spec fn view(&self) -> RawSinkView {
        RawSinkView {
            name: self.name.deep_view(),
            description: self.description.deep_view(),
            volume_avg: self.volume_avg,
            mute: self.mute,
            ports: self.ports.deep_view(),
            active_port: self.active_port.deep_view(),
        }
    }
}

impl DeepView for RawSink {
    type V = RawSinkView;

    open spec fn deep_view(&self) -> RawSinkView {
        self@
    }
}

impl<T: DeepView> DeepView for ListResult<T> {
    type V = ListResult<T::V>;

    open spec fn deep_view(&self) -> ListResult<T::V> {
        match self {
            ListResult::Item(item) => ListResult::Item(item.deep_view()),
            ListResult::End => ListResult::End,
            ListResult::Error => ListResult::Error,
        }
    }
}

impl View for ServerInfo {
    type V = Option<Seq<char>>;

    /// A server report is modelled by the default sink's name.
    open spec fn view(&self) -> Option<Seq<char>> {
        self.default_sink_name.deep_view()
    }
}

impl DeepView for ServerInfo {
    type V = Option<Seq<char>>;

    open spec fn deep_view(&self) -> Option<Seq<char>> {
        self@
    }
}

impl<T: DeepView> ListResult<T> {
    /// The same callback, with the item borrowed.
    pub fn as_ref(&self) -> (borrowed: ListResult<&T>)
        ensures
            borrowed.deep_view() == self.deep_view(),
    {
        match self {
            ListResult::Item(item) => ListResult::Item(item),
            ListResult::End => ListResult::End,
            ListResult::Error => ListResult::Error,
        }
    }
}

impl RawSink {
    /// Tells whether every port of the record carries a description.
    pub fn ports_described(&self) -> (described: bool)
        ensures
            described == self@.ports_described(),
    {
        let mut i: usize = 0;
        while i < self.ports.len()
            invariant
                i <= self.ports.len(),
                forall|j: int| 0 <= j < i ==> (#[trigger] self@.ports[j]).description is Some,
            decreases self.ports.len() - i,
        {
            if self.ports[i].description.is_none() {
                assert(self@.ports[i as int].description is None);
                return false;
            }
            i += 1;
        }
        true
    }
}

} // verus!
