//! Building one [`Sink`] from one device record.
use vstd::prelude::*;
use crate::device::{DeviceType, Port, PortView, Sink, SinkView, VOLUME_NORMAL};
use crate::native::{RawPort, RawPortType, RawPortView, RawSink, RawSinkView};

verus! {

impl DeviceType {
    /// The kind shown for a raw port category: headphones and headsets keep
    /// theirs, every other category counts as speakers.
    pub open spec fn of(raw: RawPortType) -> DeviceType {
        match raw {
            RawPortType::Headphones => DeviceType::Headphones,
            RawPortType::Headset => DeviceType::Headset,
            _ => DeviceType::Speakers,
        }
    }

    /// Maps a raw port category to the kind shown for it.
    pub fn from_raw(raw: RawPortType) -> (kind: DeviceType)
        ensures
            kind == DeviceType::of(raw),
            raw == RawPortType::Headphones ==> kind == DeviceType::Headphones,
            raw == RawPortType::Speaker ==> kind == DeviceType::Speakers,
            raw == RawPortType::Headset ==> kind == DeviceType::Headset,
            raw != RawPortType::Headphones && raw != RawPortType::Headset ==> kind
                == DeviceType::Speakers,
    {
        match raw {
            RawPortType::Headphones => DeviceType::Headphones,
            RawPortType::Speaker => DeviceType::Speakers,
            RawPortType::Headset => DeviceType::Headset,
            _ => DeviceType::Speakers,
        }
    }
}

/// An absent text reads as the empty text.
pub open spec fn text_or_empty(text: Option<Seq<char>>) -> Seq<char> {
    match text {
        Some(t) => t,
        None => Seq::empty(),
    }
}

/// The port is the one that the hardware has selected on its sink: the
/// sink has a selected port, and that port bears the name of this one.
/// Ports are told apart by name, so a selected port without a name is any
/// port without a name. Where the hardware has selected no port, no port
/// is the selected one.
pub open spec fn hardware_active(sink: RawSinkView, port: RawPortView) -> bool {
    sink.active_port matches Some(selected) && selected.name == port.name
}

/// The sink is the tracked default device. With no default tracked, a sink
/// without a name is the default.
pub open spec fn is_default(sink: RawSinkView, default_sink: Option<Seq<char>>) -> bool {
    sink.name == default_sink
}

/// The port built from one port record of `sink`.
pub open spec fn port_of(
    sink: RawSinkView,
    port: RawPortView,
    default_sink: Option<Seq<char>>,
) -> PortView
    recommends
        port.description is Some,
{
    PortView {
        name: text_or_empty(port.name),
        description: port.description->0,
        device_type: DeviceType::of(port.port_type),
        active: hardware_active(sink, port) && is_default(sink, default_sink),
    }
}

/// The sink built from one device record: texts with the empty text for an
/// absent one, the average volume as it came, the mute switch, and the
/// ports in the order of the record.
pub open spec fn sink_of(sink: RawSinkView, default_sink: Option<Seq<char>>) -> SinkView
    recommends
        sink.ports_described(),
{
    SinkView {
        name: text_or_empty(sink.name),
        description: text_or_empty(sink.description),
        volume: sink.volume_avg,
        is_mute: sink.mute,
        ports: Seq::new(sink.ports.len(), |i: int| port_of(sink, sink.ports[i], default_sink)),
    }
}

/// Compares two optional texts by their characters.
pub fn same_text(a: &Option<String>, b: &Option<String>) -> (same: bool)
    ensures
        same == (a.deep_view() == b.deep_view()),
{
    match (a, b) {
        (Some(x), Some(y)) => *x == *y,
        (None, None) => true,
        _ => false,
    }
}

/// Copies a text, giving the empty text for an absent one.
pub fn owned_or_empty(text: &Option<String>) -> (owned: String)
    ensures
        owned@ == text_or_empty(text.deep_view()),
{
    match text {
        Some(t) => t.clone(),
        None => String::new(),
    }
}

/// Tells whether `port` is the port that the hardware has selected on `sink`.
pub fn is_hardware_active(sink: &RawSink, port: &RawPort) -> (selected: bool)
    ensures
        selected == hardware_active(sink@, port@),
{
    match &sink.active_port {
        Some(selected) => same_text(&selected.name, &port.name),
        None => false,
    }
}

/// Builds the sink shown for one device record, given the name of the
/// default device as last reported.
///
/// A port without a description is not accepted: see
/// [`RawSink::ports_described`].
pub fn create_sink(data: &RawSink, default_sink: &Option<String>) -> (sink: Sink)
    requires
        data@.ports_described(),
    ensures
        sink@ == sink_of(data@, default_sink.deep_view()),
{
    let on_default = same_text(&data.name, default_sink);
    let mut ports: Vec<Port> = Vec::new();
    let mut i: usize = 0;
    while i < data.ports.len()
        invariant
            i <= data.ports.len(),
            ports.len() == i,
            data@.ports_described(),
            on_default == is_default(data@, default_sink.deep_view()),
            forall|j: int|
                0 <= j < i ==> (#[trigger] ports@[j])@ == port_of(
                    data@,
                    data@.ports[j],
                    default_sink.deep_view(),
                ),
        decreases data.ports.len() - i,
    {
        let port = &data.ports[i];
        assert(port@ == data@.ports[i as int]);
        let built = Port {
            name: owned_or_empty(&port.name),
            description: port.description.as_ref().unwrap().clone(),
            device_type: DeviceType::from_raw(port.port_type),
            active: is_hardware_active(data, port) && on_default,
        };
        ports.push(built);
        i += 1;
    }
    let sink = Sink {
        name: owned_or_empty(&data.name),
        description: owned_or_empty(&data.description),
        volume: data.volume_avg,
        is_mute: data.mute,
        ports,
    };
    assert(sink@.ports =~= sink_of(data@, default_sink.deep_view()).ports);
    sink
}

/// A built sink keeps the average volume of its record on the record's own
/// scale, on which [`VOLUME_NORMAL`] stands for the ratio 1: the reference
/// level stays the reference level, silence stays silence, and a volume
/// above the reference level stays above it: nothing is cut down.
pub proof fn lemma_volume_is_not_clamped(sink: RawSinkView, default_sink: Option<Seq<char>>)
    ensures
        sink_of(sink, default_sink).volume == sink.volume_avg,
        sink.volume_avg == VOLUME_NORMAL ==> sink_of(sink, default_sink).volume == VOLUME_NORMAL,
        sink.volume_avg == 0 ==> sink_of(sink, default_sink).volume == 0,
        sink.volume_avg > VOLUME_NORMAL ==> sink_of(sink, default_sink).volume > VOLUME_NORMAL,
{
}

/// A port is marked active exactly when the hardware has selected a port
/// on its sink, that port bears its name, and the sink is the tracked
/// default device.
pub proof fn lemma_active_iff_selected_on_default(
    sink: RawSinkView,
    default_sink: Option<Seq<char>>,
    i: int,
)
    requires
        0 <= i < sink.ports.len(),
    ensures
        sink_of(sink, default_sink).ports[i].active <==> (sink.active_port is Some
            && sink.active_port->0.name == sink.ports[i].name && sink.name == default_sink),
{
}

/// On a sink where the hardware has selected no port, no port is marked
/// active, whichever device is the default and whatever the ports are
/// named.
pub proof fn lemma_no_selection_no_active_port(
    sink: RawSinkView,
    default_sink: Option<Seq<char>>,
    i: int,
)
    requires
        sink.active_port is None,
        0 <= i < sink.ports.len(),
    ensures
        !sink_of(sink, default_sink).ports[i].active,
{
}

/// Which device is the default decides nothing but the active flags: two
/// sinks built from one record under two defaults agree in every field and,
/// port by port, in name, description and kind. The flag of a port is its
/// hardware selection when the record's sink is the default, and unset
/// when it is not.
pub proof fn lemma_default_moves_only_active_flags(
    sink: RawSinkView,
    first: Option<Seq<char>>,
    second: Option<Seq<char>>,
)
    ensures
        sink_of(sink, first).name == sink_of(sink, second).name,
        sink_of(sink, first).description == sink_of(sink, second).description,
        sink_of(sink, first).volume == sink_of(sink, second).volume,
        sink_of(sink, first).is_mute == sink_of(sink, second).is_mute,
        sink_of(sink, first).ports.len() == sink_of(sink, second).ports.len(),
        forall|i: int|
            #![trigger sink_of(sink, first).ports[i]]
            #![trigger sink_of(sink, second).ports[i]]
            0 <= i < sink.ports.len() ==> {
                let a = sink_of(sink, first).ports[i];
                let b = sink_of(sink, second).ports[i];
                &&& a.name == b.name
                &&& a.description == b.description
                &&& a.device_type == b.device_type
                &&& a.active == (hardware_active(sink, sink.ports[i]) && sink.name == first)
                &&& b.active == (hardware_active(sink, sink.ports[i]) && sink.name == second)
            },
{
}

} // verus!
