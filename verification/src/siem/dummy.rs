use vstd::prelude::*;

use super::event::SiemEvent;
use super::buffer::event_views;
use super::sink::{validate_batch_size, ForwardReceipt, SiemExporterKind, SiemSinkError, SIEM_MAX_BATCH_SIZE};

verus! {

/// SIEM sink that keeps every received event in memory, in arrival order.
/// For tests only: nothing is persisted.
pub struct InMemorySiemSink {
    events: Vec<SiemEvent>,
}

impl InMemorySiemSink {
    /// The events received so far.
    pub closed spec fn received(&self) -> Seq<crate::siem::event::SiemEventView> {
        event_views(self.events@)
    }

    /// A sink that has received nothing.
    pub fn new() -> (sink: Self)
        ensures
            sink.received() == Seq::<crate::siem::event::SiemEventView>::empty(),
    {
        let sink = InMemorySiemSink { events: Vec::new() };
        assert(sink.received() =~= Seq::<crate::siem::event::SiemEventView>::empty());
        sink
    }

    /// Number of events received.
    pub fn event_count(&self) -> (count: usize)
        ensures
            count == self.received().len(),
    {
        self.events.len()
    }

    /// Copies of the events received, in arrival order.
    pub fn events(&self) -> (events: Vec<SiemEvent>)
        ensures
            event_views(events@) == self.received(),
    {
        let mut out: Vec<SiemEvent> = Vec::new();
        let mut i: usize = 0;
        while i < self.events.len()
            invariant
                i <= self.events@.len(),
                event_views(out@) == event_views(self.events@.subrange(0, i as int)),
            decreases self.events@.len() - i,
        {
            let ghost prev = out@;
            let copy = self.events[i].copy();
            out.push(copy);
            assert(out@ =~= prev.push(copy));
            assert(event_views(out@) =~= event_views(prev).push(self.events@[i as int]@));
            assert(self.events@.subrange(0, i + 1) =~= self.events@.subrange(0, i as int).push(self.events@[i as int]));
            assert(event_views(self.events@.subrange(0, i + 1)) =~= event_views(self.events@.subrange(0, i as int)).push(self.events@[i as int]@));
            i = i + 1;
        }
        assert(self.events@.subrange(0, self.events@.len() as int) =~= self.events@);
        out
    }

    /// The exporter kind of this sink.
    pub fn exporter_kind(&self) -> (kind: SiemExporterKind)
        ensures
            kind == SiemExporterKind::InMemory,
    {
        SiemExporterKind::InMemory
    }

    /// Receives a batch: refused when larger than the batch limit, otherwise
    /// appended in order.
    pub fn send_batch(&mut self, batch: &[SiemEvent]) -> (receipt: Result<ForwardReceipt, SiemSinkError>)
        ensures
            batch@.len() > SIEM_MAX_BATCH_SIZE ==> {
                &&& receipt is Err
                &&& final(self).received() == old(self).received()
            },
            batch@.len() <= SIEM_MAX_BATCH_SIZE ==> {
                &&& receipt matches Ok(r) && r.spec_exporter_kind() == SiemExporterKind::InMemory
                    && r.spec_batch_size() == batch@.len()
                &&& final(self).received() == old(self).received() + event_views(batch@)
            },
    {
        if let Err(error) = validate_batch_size(batch.len()) {
            return Err(error);
        }
        let ghost before = self.events@;
        let mut i: usize = 0;
        while i < batch.len()
            invariant
                i <= batch@.len(),
                event_views(self.events@) == event_views(before) + event_views(batch@.subrange(0, i as int)),
            decreases batch@.len() - i,
        {
            let ghost prev = self.events@;
            let copy = batch[i].copy();
            self.events.push(copy);
            assert(self.events@ =~= prev.push(copy));
            assert(event_views(self.events@) =~= event_views(prev).push(batch@[i as int]@));
            assert(batch@.subrange(0, i + 1) =~= batch@.subrange(0, i as int).push(batch@[i as int]));
            assert(event_views(batch@.subrange(0, i + 1)) =~= event_views(batch@.subrange(0, i as int)).push(batch@[i as int]@));
            i = i + 1;
        }
        assert(batch@.subrange(0, batch@.len() as int) =~= batch@);
        Ok(ForwardReceipt::new(SiemExporterKind::InMemory, batch.len()))
    }
}

/// SIEM sink that fails every send with a fixed code. For tests only.
pub struct FailingSiemSink {
    code: String,
}

impl FailingSiemSink {
    pub closed spec fn spec_code(&self) -> Seq<char> {
        self.code@
    }

    /// A sink that always fails with `code`.
    pub fn new(code: String) -> (sink: Self)
        ensures
            sink.spec_code() == code@,
    {
        FailingSiemSink { code }
    }

    /// The exporter kind of this sink.
    pub fn exporter_kind(&self) -> (kind: SiemExporterKind)
        ensures
            kind == SiemExporterKind::InMemory,
    {
        SiemExporterKind::InMemory
    }

    /// Fails with the sink's code.
    pub fn send_batch(&self, batch: &[SiemEvent]) -> (receipt: Result<ForwardReceipt, SiemSinkError>)
        ensures
            receipt matches Err(SiemSinkError::BackendFailed { code }) && code@ == self.spec_code(),
    {
        Err(SiemSinkError::BackendFailed { code: self.code.clone() })
    }
}

} // verus!
