//! The kinds of event the studio emits, and their names on the wire.

use vstd::prelude::*;

verus! {

#[derive(Clone, Copy, Debug, PartialEq, Eq, Structural)]
pub enum StudioEventKind {
    AppReady,
    MediaEngineReady,
    RecordingStarted,
    RecordingStopped,
    StreamStarted,
    StreamStopped,
    MarkerCreated,
    Error,
}

impl StudioEventKind {
    /// The event's `type` on the wire.
    pub open spec fn wire_name(self) -> Seq<char> {
        match self {
            StudioEventKind::AppReady => "app.ready"@,
            StudioEventKind::MediaEngineReady => "media.engine.ready"@,
            StudioEventKind::RecordingStarted => "recording.started"@,
            StudioEventKind::RecordingStopped => "recording.stopped"@,
            StudioEventKind::StreamStarted => "stream.started"@,
            StudioEventKind::StreamStopped => "stream.stopped"@,
            StudioEventKind::MarkerCreated => "marker.created"@,
            StudioEventKind::Error => "error"@,
        }
    }

    /// The event's `type` on the wire.
    pub fn as_str(&self) -> (r: &'static str)
        ensures
            r@ == self.wire_name(),
    {
        match self {
            StudioEventKind::AppReady => "app.ready",
            StudioEventKind::MediaEngineReady => "media.engine.ready",
            StudioEventKind::RecordingStarted => "recording.started",
            StudioEventKind::RecordingStopped => "recording.stopped",
            StudioEventKind::StreamStarted => "stream.started",
            StudioEventKind::StreamStopped => "stream.stopped",
            StudioEventKind::MarkerCreated => "marker.created",
            StudioEventKind::Error => "error",
        }
    }
}

} // verus!
