//! A handler that keeps the reports for whoever asks for them later.

use vstd::prelude::*;
use crate::buttons::config::Id;
use crate::buttons::engine::Handler;
use crate::buttons::event::Event;
use crate::buttons::model::Reports;
use crate::time::Ms;

verus! {

/// Keeps every report in the order it came in, and shows the time it was
/// last told.
///
/// This is the handler for an owner that cannot be called from inside the
/// engine: it sets the time, updates the engine, and then takes the reports
/// out and deals with them.
pub struct Recorder {
    now: Ms,
    reports: Vec<(Id, Event)>,
}

impl Recorder {
    /// The time the recorder shows.
    pub closed spec fn spec_now(&self) -> Ms {
        self.now
    }

    /// A recorder that holds no report and shows the time `now`.
    pub fn new(now: Ms) -> (recorder: Self)
        ensures
            recorder.received() == Reports::empty(),
            recorder.spec_now() == now,
    {
        Recorder { now, reports: Vec::new() }
    }

    /// Sets the time that the recorder shows from now on.
    pub fn set_time(&mut self, now: Ms)
        ensures
            final(self).spec_now() == now,
            final(self).received() == old(self).received(),
    {
        self.now = now;
    }

    /// The reports that have come in and have not been taken out.
    pub fn reports(&self) -> (reports: &Vec<(Id, Event)>)
        ensures
            reports@ == self.received(),
    {
        &self.reports
    }

    /// Takes the reports out, oldest first, and leaves none.
    pub fn take(&mut self) -> (reports: Vec<(Id, Event)>)
        ensures
            reports@ == old(self).received(),
            final(self).received() == Reports::empty(),
            final(self).spec_now() == old(self).spec_now(),
    {
        let mut reports: Vec<(Id, Event)> = Vec::new();
        std::mem::swap(&mut self.reports, &mut reports);
        reports
    }
}

impl Handler for Recorder {
    closed spec fn received(&self) -> Reports {
        self.reports@
    }

    fn on_event(&mut self, button: Id, event: Event) {
        self.reports.push((button, event));
    }

    fn get_current_timestamp(&self) -> (now: Ms)
        ensures
            now == self.spec_now(),
    {
        self.now
    }
}

} // verus!
