use vstd::prelude::*;
use crate::engine::EngineCall;

verus! {

/// How pages are pulled from the logical stream.
#[derive(PartialEq, Eq, Structural, Copy, Clone, Debug)]
pub enum PageMode {
    /// Force out the current page even if underfull, until none remain.
    Flush,
    /// Take the pages the engine deems ready; with a minimum, only once at
    /// least that many payload bytes are buffered.
    Pending { minimum_page_data_size: Option<u16> },
}

/// Where the page pump stands.
#[derive(PartialEq, Eq, Structural, Copy, Clone, Debug)]
pub enum PagePump {
    /// No drain in progress.
    Idle,
    /// Waiting for the engine's answer to a page request.
    Pulling { mode: PageMode },
    /// Waiting for the page just produced to be written to the sink.
    Writing { mode: PageMode },
}

/// The page request for a mode.
pub open spec fn pull_call(mode: PageMode) -> EngineCall {
    match mode {
        PageMode::Flush => EngineCall::StreamFlush,
        PageMode::Pending { minimum_page_data_size } => match minimum_page_data_size {
            Some(n) => EngineCall::StreamPageOutFill { min_bytes: n as i32 },
            None => EngineCall::StreamPageOut,
        },
    }
}

/// A logical stream of the container engine, seen from the side that drains
/// its pages: the units submitted to it come out in pages, in submission
/// order, and each page goes to the sink header first, then body.
#[derive(Debug)]
pub struct OggStream {
    serial: i32,
    pump: PagePump,
}

impl OggStream {
    /// The stream's serial number.
    pub closed spec fn serial_spec(&self) -> i32 {
        self.serial
    }

    /// Where the page pump stands.
    pub closed spec fn pump(&self) -> PagePump {
        self.pump
    }

    /// The call the pump waits on, if a drain is in progress.
    pub open spec fn pending_spec(&self) -> Option<EngineCall> {
        match self.pump() {
            PagePump::Idle => None,
            PagePump::Pulling { mode } => Some(pull_call(mode)),
            PagePump::Writing { .. } => Some(EngineCall::WritePage),
        }
    }

    /// A stream with the given serial, with no drain in progress. Opening it
    /// in the engine is the `StreamInit` call.
    pub fn new(serial: i32) -> (r: Self)
        ensures
            r.serial_spec() == serial,
            r.pump() == PagePump::Idle,
    {
        OggStream { serial, pump: PagePump::Idle }
    }

    /// The stream's serial number.
    pub fn serial(&self) -> (r: i32)
        ensures
            r == self.serial_spec(),
    {
        self.serial
    }

    /// The call to open this stream in the container engine.
    pub fn init_call(&self) -> (r: EngineCall)
        ensures
            r == (EngineCall::StreamInit { serial: self.serial_spec() }),
    {
        EngineCall::StreamInit { serial: self.serial }
    }

    /// The call the pump waits on, if a drain is in progress.
    pub fn pending(&self) -> (r: Option<EngineCall>)
        ensures
            r == self.pending_spec(),
    {
        match self.pump {
            PagePump::Idle => None,
            PagePump::Pulling { mode } => Some(Self::pull(mode)),
            PagePump::Writing { .. } => Some(EngineCall::WritePage),
        }
    }

    fn pull(mode: PageMode) -> (r: EngineCall)
        ensures
            r == pull_call(mode),
    {
        match mode {
            PageMode::Flush => EngineCall::StreamFlush,
            PageMode::Pending { minimum_page_data_size } => match minimum_page_data_size {
                Some(n) => EngineCall::StreamPageOutFill { min_bytes: n as i32 },
                None => EngineCall::StreamPageOut,
            },
        }
    }

    /// Starts writing out the pages that are ready.
    pub fn write_pending_pages(&mut self, minimum_page_data_size: Option<u16>)
        requires
            old(self).pump() == PagePump::Idle,
        ensures
            final(self).serial_spec() == old(self).serial_spec(),
            final(self).pump() == (PagePump::Pulling {
                mode: PageMode::Pending { minimum_page_data_size },
            }),
    {
        self.pump = PagePump::Pulling { mode: PageMode::Pending { minimum_page_data_size } };
    }

    /// Starts forcing out every buffered unit, ending the current page.
    pub fn flush(&mut self)
        requires
            old(self).pump() == PagePump::Idle,
        ensures
            final(self).serial_spec() == old(self).serial_spec(),
            final(self).pump() == (PagePump::Pulling { mode: PageMode::Flush }),
    {
        self.pump = PagePump::Pulling { mode: PageMode::Flush };
    }

    /// Takes the status of the call the pump waited on: after a page request,
    /// zero means no page and ends the drain, anything else means a page to
    /// write; after a write, the next page is requested.
    pub fn resume(&mut self, code: i32)
        requires
            old(self).pump() != PagePump::Idle,
        ensures
            final(self).serial_spec() == old(self).serial_spec(),
            final(self).pump() == match old(self).pump() {
                PagePump::Pulling { mode } => if code == 0 {
                    PagePump::Idle
                } else {
                    PagePump::Writing { mode }
                },
                PagePump::Writing { mode } => PagePump::Pulling { mode },
                PagePump::Idle => PagePump::Idle,
            },
    {
        self.pump = match self.pump {
            PagePump::Pulling { mode } => if code == 0 {
                PagePump::Idle
            } else {
                PagePump::Writing { mode }
            },
            PagePump::Writing { mode } => PagePump::Pulling { mode },
            PagePump::Idle => PagePump::Idle,
        };
    }

    /// Whether the pump waits on a page request.
    pub fn is_pulling(&self) -> (r: bool)
        ensures
            r == (self.pump() is Pulling),
    {
        matches!(self.pump, PagePump::Pulling { .. })
    }

    /// Abandons the drain in progress.
    pub fn abort(&mut self)
        ensures
            final(self).serial_spec() == old(self).serial_spec(),
            final(self).pump() == PagePump::Idle,
    {
        self.pump = PagePump::Idle;
    }
}

} // verus!
