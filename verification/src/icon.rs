//! The speaker icon that a device listing calls for.
use vstd::prelude::*;
use crate::device::{Sink, SinkView, VOLUME_NORMAL};

verus! {

/// Speaker icons, from silent to loud.
#[derive(Debug, Clone, Copy, PartialEq, Eq, Structural)]
pub enum Icons {
    Speaker0,
    Speaker1,
    Speaker2,
    Speaker3,
}

/// A listing of sinks that can be summed up in one icon.
pub trait Sinks {
    fn get_icon(&self) -> Icons;
}

/// The sink has a port that is marked active.
pub open spec fn has_active_port(sink: SinkView) -> bool {
    exists|k: int| 0 <= k < sink.ports.len() && (#[trigger] sink.ports[k]).active
}

/// `shown` is the position of the first sink with an active port: the sink
/// whose state the icon shows.
pub open spec fn is_shown(sinks: Seq<SinkView>, shown: int) -> bool {
    &&& 0 <= shown < sinks.len()
    &&& has_active_port(sinks[shown])
    &&& forall|j: int| 0 <= j < shown ==> !has_active_port(#[trigger] sinks[j])
}

/// The volume is above `percent` hundredths of the reference level.
pub open spec fn above_percent(volume: u32, percent: int) -> bool {
    volume * 100 > percent * VOLUME_NORMAL
}

/// The icon for a mute switch and a volume: silent when muted or at most a
/// millionth of the reference level, then one step up to 33%, one more up
/// to 66%, and the loudest above.
pub open spec fn speaker_icon(is_mute: bool, volume: u32) -> Icons {
    if is_mute {
        Icons::Speaker0
    } else if above_percent(volume, 66) {
        Icons::Speaker3
    } else if above_percent(volume, 33) {
        Icons::Speaker2
    } else if volume * 1_000_000 > VOLUME_NORMAL {
        Icons::Speaker1
    } else {
        Icons::Speaker0
    }
}

impl Icons {
    /// The icon for a mute switch and a volume.
    pub fn for_volume(is_mute: bool, volume: u32) -> (icon: Icons)
        ensures
            icon == speaker_icon(is_mute, volume),
    {
        let scaled: u64 = volume as u64 * 100;
        let normal: u64 = VOLUME_NORMAL as u64;
        if is_mute {
            Icons::Speaker0
        } else if scaled > 66 * normal {
            Icons::Speaker3
        } else if scaled > 33 * normal {
            Icons::Speaker2
        } else if volume as u64 * 1_000_000 > normal {
            Icons::Speaker1
        } else {
            Icons::Speaker0
        }
    }
}

impl Sink {
    /// Tells whether one of the sink's ports is marked active.
    pub fn has_active_port(&self) -> (found: bool)
        ensures
            found == has_active_port(self@),
    {
        let mut k: usize = 0;
        while k < self.ports.len()
            invariant
                k <= self.ports.len(),
                forall|j: int| 0 <= j < k ==> !(#[trigger] self@.ports[j]).active,
            decreases self.ports.len() - k,
        {
            if self.ports[k].active {
                assert(self@.ports[k as int].active);
                return true;
            }
            k += 1;
        }
        false
    }
}

impl Sinks for Vec<Sink> {
    /// The icon of the first sink that has an active port, by its mute
    /// switch and volume; the silent icon when no sink has one.
    fn get_icon(&self) -> (icon: Icons)
        ensures
            forall|shown: int|
                is_shown(self.deep_view(), shown) ==> icon == speaker_icon(
                    self.deep_view()[shown].is_mute,
                    self.deep_view()[shown].volume,
                ),
            (forall|i: int|
                0 <= i < self.len() ==> !has_active_port(#[trigger] self.deep_view()[i])) ==> icon
                == Icons::Speaker0,
    {
        let mut i: usize = 0;
        while i < self.len()
            invariant
                i <= self.len(),
                forall|j: int| 0 <= j < i ==> !has_active_port(#[trigger] self.deep_view()[j]),
            decreases self.len() - i,
        {
            let sink = &self[i];
            assert(sink@ == self.deep_view()[i as int]);
            if sink.has_active_port() {
                return Icons::for_volume(sink.is_mute, sink.volume);
            }
            i += 1;
        }
        Icons::Speaker0
    }
}

} // verus!
