//! The session controller: the Idle / Recording state machine that
//! owns the capture buffer, admits events while a listener forwards
//! them, and hands a finished export to its surroundings on stop.

use vstd::prelude::*;
use crate::buffer::{models_of, CaptureBuffer};
use crate::event::{spec_normalize, RawNotification, Timestamp};
use crate::export::{export, spec_export, spec_export_filename, ExportArtifact};

verus! {

/// One recorder: the task name chosen by the operator, the recording
/// state, and the capture buffer for the current session.
pub struct TaskRecorderApp {
    pub task_name: String,
    pub is_recording: bool,
    pub events: CaptureBuffer,
}

impl TaskRecorderApp {
    /// The controller's invariant: everything buffered carries a
    /// well-formed timestamp.
    pub open spec fn wf(&self) -> bool {
        self.events.wf()
    }

    /// Starts a session: empties the buffer and moves to Recording.
    /// Refused — with the whole state left untouched — when the task
    /// name is empty or a session is already running; the caller
    /// spawns a listener only when `true` comes back.
    pub fn start_recording(&mut self) -> (started: bool)
        ensures
            started == (old(self).task_name@.len() > 0 && !old(self).is_recording),
            !started ==> *final(self) == *old(self),
            started ==> final(self).is_recording && final(self).task_name == old(
                self,
            ).task_name && final(self).events@ == Seq::<crate::event::EventModel>::empty(),
            started ==> final(self).wf(),
            old(self).wf() ==> final(self).wf(),
    {
        if self.task_name.as_str().is_empty() || self.is_recording {
            return false;
        }
        self.events.clear();
        self.is_recording = true;
        true
    }

    /// Stops a session: moves to Idle and serializes the buffer under
    /// the current task name. While Idle this is a no-op: nothing is
    /// produced and nothing changes.
    pub fn stop_recording(&mut self) -> (r: Option<ExportArtifact>)
        requires
            old(self).wf(),
        ensures
            final(self).task_name == old(self).task_name,
            final(self).events == old(self).events,
            !final(self).is_recording,
            final(self).wf(),
            !old(self).is_recording ==> r is None && *final(self) == *old(self),
            old(self).is_recording ==> match r {
                Some(a) => a.filename@ == spec_export_filename(old(self).task_name@)
                    && a.content@ == spec_export(old(self).events@),
                None => false,
            },
    {
        if !self.is_recording {
            return None;
        }
        self.is_recording = false;
        let records = self.events.snapshot_iterate();
        proof {
            assert forall|i: int| 0 <= i < records@.len() implies (
            #[trigger] records@[i])@.timestamp.wf() by {
                assert(models_of(records@)[i] == records@[i]@);
            }
        }
        let artifact = export(self.task_name.as_str(), records);
        Some(artifact)
    }

    /// Appends the normalization of `raw` at moment `ts` to the
    /// buffer, or nothing when the notification kind is not of
    /// interest. The state machine itself is untouched.
    pub fn record_at(&mut self, raw: RawNotification, ts: Timestamp)
        requires
            ts.wf(),
        ensures
            final(self).task_name == old(self).task_name,
            final(self).is_recording == old(self).is_recording,
            old(self).wf() ==> final(self).wf(),
            final(self).events@ == match spec_normalize(raw, ts) {
                Some(m) => old(self).events@.push(m),
                None => old(self).events@,
            },
    {
        match crate::event::normalize(raw, ts) {
            Some(e) => self.events.append(e),
            None => (),
        }
    }

    /// What the listener calls for every raw notification it
    /// receives: normalizes at the present moment and appends the
    /// result, whatever moment the clock reports.
    pub fn handle_notification(&mut self, raw: RawNotification)
        ensures
            final(self).task_name == old(self).task_name,
            final(self).is_recording == old(self).is_recording,
            old(self).wf() ==> final(self).wf(),
            exists|ts: Timestamp|
                #[trigger] ts.wf() && final(self).events@ == match spec_normalize(raw, ts) {
                    Some(m) => old(self).events@.push(m),
                    None => old(self).events@,
                },
    {
        let (year, month, day, hour, minute, second) = crate::clock::now_parts();
        let ts = Timestamp::clamped(year, month, day, hour, minute, second);
        self.record_at(raw, ts);
        proof {
            assert(ts.wf() && final(self).events@ == match spec_normalize(raw, ts) {
                Some(m) => old(self).events@.push(m),
                None => old(self).events@,
            });
        }
    }
}

impl Default for TaskRecorderApp {
    /// A fresh recorder: no task name, Idle, empty buffer.
    fn default() -> (r: TaskRecorderApp)
        ensures
            r.task_name@.len() == 0,
            !r.is_recording,
            r.events@ == Seq::<crate::event::EventModel>::empty(),
            r.wf(),
    {
        TaskRecorderApp {
            task_name: String::new(),
            is_recording: false,
            events: CaptureBuffer::new(),
        }
    }
}

} // verus!
