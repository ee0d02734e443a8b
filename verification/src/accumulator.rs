//! Gathering the records of one enumeration into one snapshot.
//!
//! The server answers a request for the device list with zero or more item
//! callbacks followed by one end marker or one error. Items are built and
//! buffered as they arrive; only the end marker releases the buffer, so a
//! snapshot is always complete.
use vstd::prelude::*;
use tokio::sync::mpsc::UnboundedSender;
use crate::channel::send_message;
use crate::device::{AudioMessage, AudioMessageView, Sink, SinkView};
use crate::native::{ListResult, RawSink, RawSinkView, ServerInfo};
use crate::snapshot::{create_sink, sink_of};

verus! {

/// The buffer after one callback: an item is built and appended, the end
/// marker empties the buffer, an error leaves it as it is.
pub open spec fn buffer_after(
    buffer: Seq<SinkView>,
    info: ListResult<RawSinkView>,
    default_sink: Option<Seq<char>>,
) -> Seq<SinkView> {
    match info {
        ListResult::Item(data) => buffer.push(sink_of(data, default_sink)),
        ListResult::End => Seq::empty(),
        ListResult::Error => buffer,
    }
}

/// The message that one callback releases: the whole buffer on the end
/// marker, nothing otherwise.
pub open spec fn released_by(buffer: Seq<SinkView>, info: ListResult<RawSinkView>) -> Option<
    AudioMessageView,
> {
    match info {
        ListResult::End => Some(AudioMessageView::SinkChanges(buffer)),
        _ => None,
    }
}

/// The callback can be handled: an item's ports all carry a description.
pub open spec fn acceptable(info: ListResult<RawSinkView>) -> bool {
    info matches ListResult::Item(data) ==> data.ports_described()
}

/// Records the default device that the server reports, or that it reports
/// none.
pub fn set_default_sink(info: &ServerInfo, default_sink: &mut Option<String>)
    ensures
        final(default_sink).deep_view() == info@,
{
    match &info.default_sink_name {
        Some(name) => {
            *default_sink = Some(name.clone());
        },
        None => {
            *default_sink = None;
        },
    }
}

/// Handles one callback of an enumeration and returns the message to send,
/// if the callback releases one.
///
/// An error does not clear the buffer. What an enumeration had buffered
/// before its error therefore goes out with the next end marker: see
/// [`lemma_error_leaves_items_for_the_next_snapshot`].
pub fn accumulate(
    info: ListResult<&RawSink>,
    sinks: &mut Vec<Sink>,
    default_sink: &Option<String>,
) -> (message: Option<AudioMessage>)
    requires
        acceptable(info.deep_view()),
    ensures
        final(sinks).deep_view() == buffer_after(
            old(sinks).deep_view(),
            info.deep_view(),
            default_sink.deep_view(),
        ),
        message.deep_view() == released_by(old(sinks).deep_view(), info.deep_view()),
{
    match info {
        ListResult::Item(data) => {
            let sink = create_sink(data, default_sink);
            sinks.push(sink);
            None
        },
        ListResult::End => {
            let mut batch: Vec<Sink> = Vec::new();
            core::mem::swap(sinks, &mut batch);
            Some(AudioMessage::SinkChanges(batch))
        },
        ListResult::Error => None,
    }
}

/// Handles one callback of an enumeration: buffers an item, or on the end
/// marker sends the buffered sinks as one message on `tx` and empties the
/// buffer. An error is passed over and leaves the buffer as it is.
///
/// The message handed to the channel is the one that [`accumulate`]
/// returns. Whether the channel still takes it is not this function's to
/// decide; the buffer is emptied either way.
pub fn populate_and_send_sinks(
    info: ListResult<&RawSink>,
    tx: &UnboundedSender<AudioMessage>,
    sinks: &mut Vec<Sink>,
    default_sink: &Option<String>,
)
    requires
        acceptable(info.deep_view()),
    ensures
        final(sinks).deep_view() == buffer_after(
            old(sinks).deep_view(),
            info.deep_view(),
            default_sink.deep_view(),
        ),
{
    match accumulate(info, sinks, default_sink) {
        Some(message) => {
            let _ = send_message(tx, message);
        },
        None => {},
    }
}

/// What a run of callbacks leaves behind.
pub struct Gathered {
    /// The buffer after the last callback.
    pub buffer: Seq<SinkView>,
    /// The messages released, oldest first.
    pub released: Seq<AudioMessageView>,
}

/// Handles a run of callbacks one after the other, starting from `buffer`.
pub open spec fn gather(
    buffer: Seq<SinkView>,
    infos: Seq<ListResult<RawSinkView>>,
    default_sink: Option<Seq<char>>,
) -> Gathered
    decreases infos.len(),
{
    if infos.len() == 0 {
        Gathered { buffer, released: Seq::empty() }
    } else {
        let before = gather(buffer, infos.drop_last(), default_sink);
        Gathered {
            buffer: buffer_after(before.buffer, infos.last(), default_sink),
            released: match released_by(before.buffer, infos.last()) {
                Some(message) => before.released.push(message),
                None => before.released,
            },
        }
    }
}

/// The item callbacks that report `records`, in order.
pub open spec fn items(records: Seq<RawSinkView>) -> Seq<ListResult<RawSinkView>> {
    records.map_values(|data: RawSinkView| ListResult::Item(data))
}

/// The sinks built from `records`, in order.
pub open spec fn sinks_of(records: Seq<RawSinkView>, default_sink: Option<Seq<char>>) -> Seq<
    SinkView,
> {
    records.map_values(|data: RawSinkView| sink_of(data, default_sink))
}

/// Item callbacks release nothing; they append their sinks to the buffer
/// in the order of arrival.
pub proof fn lemma_items_are_buffered(
    buffer: Seq<SinkView>,
    records: Seq<RawSinkView>,
    default_sink: Option<Seq<char>>,
)
    ensures
        gather(buffer, items(records), default_sink) == (Gathered {
            buffer: buffer + sinks_of(records, default_sink),
            released: Seq::empty(),
        }),
    decreases records.len(),
{
    if records.len() > 0 {
        let earlier = records.drop_last();
        lemma_items_are_buffered(buffer, earlier, default_sink);
        assert(items(records).drop_last() =~= items(earlier));
        assert((buffer + sinks_of(earlier, default_sink)).push(
            sink_of(records.last(), default_sink),
        ) =~= buffer + sinks_of(records, default_sink));
    }
}

/// Any run of items followed by one end marker, met with an empty buffer,
/// releases exactly one message: the sinks built from the items, in the
/// order of arrival. The buffer is empty afterwards.
pub proof fn lemma_enumeration_releases_one_snapshot(
    records: Seq<RawSinkView>,
    default_sink: Option<Seq<char>>,
)
    ensures
        gather(Seq::empty(), items(records).push(ListResult::End), default_sink) == (Gathered {
            buffer: Seq::empty(),
            released: seq![AudioMessageView::SinkChanges(sinks_of(records, default_sink))],
        }),
{
    let infos = items(records).push(ListResult::End);
    lemma_items_are_buffered(Seq::empty(), records, default_sink);
    assert(infos.drop_last() =~= items(records));
}

/// A run of callbacks can be cut anywhere: the second part starts from the
/// buffer that the first part left, and what the first part released stands
/// whatever comes after it.
pub proof fn lemma_gather_in_two_parts(
    buffer: Seq<SinkView>,
    first: Seq<ListResult<RawSinkView>>,
    second: Seq<ListResult<RawSinkView>>,
    default_sink: Option<Seq<char>>,
)
    ensures
        gather(buffer, first + second, default_sink) == ({
            let left = gather(buffer, first, default_sink);
            let right = gather(left.buffer, second, default_sink);
            Gathered { buffer: right.buffer, released: left.released + right.released }
        }),
    decreases second.len(),
{
    if second.len() > 0 {
        lemma_gather_in_two_parts(buffer, first, second.drop_last(), default_sink);
        assert((first + second).drop_last() =~= first + second.drop_last());
    }
}

/// An enumeration that ends in an error leaves its items in the buffer, and
/// the next enumeration's end marker releases them ahead of its own: the
/// one message then holds the sinks of both, in the order of arrival.
pub proof fn lemma_error_leaves_items_for_the_next_snapshot(
    failed: Seq<RawSinkView>,
    complete: Seq<RawSinkView>,
    default_sink: Option<Seq<char>>,
)
    ensures
        gather(
            Seq::empty(),
            items(failed).push(ListResult::Error) + items(complete).push(ListResult::End),
            default_sink,
        ) == (Gathered {
            buffer: Seq::empty(),
            released: seq![
                AudioMessageView::SinkChanges(
                    sinks_of(failed, default_sink) + sinks_of(complete, default_sink),
                ),
            ],
        }),
{
    let first = items(failed).push(ListResult::Error);
    let second = items(complete).push(ListResult::End);
    lemma_items_are_buffered(Seq::empty(), failed, default_sink);
    assert(first.drop_last() =~= items(failed));
    lemma_items_are_buffered(sinks_of(failed, default_sink), complete, default_sink);
    assert(second.drop_last() =~= items(complete));
    lemma_gather_in_two_parts(Seq::empty(), first, second, default_sink);
}

/// An error releases nothing and leaves the buffer as it is; met with an
/// empty buffer, it leaves the buffer empty.
pub proof fn lemma_error_changes_nothing(buffer: Seq<SinkView>, default_sink: Option<Seq<char>>)
    ensures
        buffer_after(buffer, ListResult::Error, default_sink) == buffer,
        released_by(buffer, ListResult::Error) is None,
        gather(Seq::empty(), seq![ListResult::Error], default_sink) == (Gathered {
            buffer: Seq::empty(),
            released: Seq::empty(),
        }),
{
    let infos = seq![ListResult::<RawSinkView>::Error];
    assert(gather(Seq::empty(), infos.drop_last(), default_sink) == (Gathered {
        buffer: Seq::empty(),
        released: Seq::empty(),
    }));
}

} // verus!
