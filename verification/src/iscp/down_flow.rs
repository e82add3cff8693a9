//! The decisions of a downstream: what a received message, an acknowledgement tick or a
//! close does to it, and what its driver is to do next.

use vstd::prelude::*;

use std::collections::HashMap;

use crate::autogen;
use crate::data_id::DataId;
use crate::error::Error;
use crate::iscp::down_order::DownReorderer;
use crate::iscp::down_state::{DownstreamState, State};
use crate::iscp::downstream::{
    ack_complete_reached, check_chunk_ack_complete, chunk_read, close_request,
    convert_downstream_chunk, omits_empty_chunks,
};
use crate::iscp::misc::be_value;
use crate::iscp::types::DownstreamChunk;

verus! {

/// How far a downstream has come in closing.
#[derive(Clone, Copy, Debug, PartialEq, Eq, Structural)]
pub enum DownPhase {
    /// Open: chunks are read and acknowledged.
    Open,
    /// Closing: the completion of the last acknowledgement is awaited.
    Closing,
    /// Closed, or stopped: nothing more is done.
    Closed,
}

/// What happens to a downstream.
pub enum DownstreamEvent {
    /// The broker sent a chunk.
    Chunk(autogen::DownstreamChunk),
    /// The broker completed acknowledgements.
    AckComplete(autogen::DownstreamChunkAckComplete),
    /// The acknowledgement interval elapsed.
    AckIntervalElapsed,
    /// The user asked to close the downstream.
    CloseRequested,
    /// The close timeout elapsed while completions were awaited.
    CloseTimedOut,
}

/// What a downstream asks its driver to do, in order.
pub enum DownstreamAction {
    /// Hand these chunks, in this order, to the reader.
    Deliver(Vec<DownstreamChunk>),
    /// A received chunk could not be read and was dropped, for this reason.
    Dropped(Error),
    /// The chunks could not be put in order; the downstream stops with this error.
    Failed(Error),
    /// Send this acknowledgement.
    SendAck(autogen::DownstreamChunkAck),
    /// Wait, up to the close timeout, for the last acknowledgement to complete.
    AwaitAckComplete,
    /// Send this close request; the downstream is then closed.
    SendClose(autogen::DownstreamCloseRequest),
}

/// The actions that taking an acknowledgement gives: sending it, when there is one.
pub open spec fn ack_actions(ack: Option<autogen::DownstreamChunkAck>) -> Seq<DownstreamAction> {
    match ack {
        Some(a) => seq![DownstreamAction::SendAck(a)],
        None => Seq::empty(),
    }
}

/// What a downstream keeps while it reads: what it knows of the upstreams, the chunks waiting
/// to be put in order, and the largest completed acknowledgement id.
pub struct DownstreamFlow {
    state: State,
    reorderer: DownReorderer,
    ack_id_complete: u32,
    stream_id: u128,
    stream_id_alias: u32,
    omit_empty_chunk: bool,
    phase: DownPhase,
}

impl DownstreamFlow {
    /// What the downstream knows of the upstreams and what it has yet to acknowledge.
    pub closed spec fn state(&self) -> State {
        self.state
    }

    /// The chunks waiting to be put in order.
    pub closed spec fn reorderer(&self) -> DownReorderer {
        self.reorderer
    }

    /// The largest completed acknowledgement id.
    pub closed spec fn ack_complete(&self) -> u32 {
        self.ack_id_complete
    }

    /// The stream id of the downstream.
    pub closed spec fn stream(&self) -> u128 {
        self.stream_id
    }

    /// The stream id alias in use.
    pub closed spec fn alias(&self) -> u32 {
        self.stream_id_alias
    }

    /// Whether empty chunks are dropped.
    pub closed spec fn omits(&self) -> bool {
        self.omit_empty_chunk
    }

    /// How far the downstream has come in closing.
    pub closed spec fn phase(&self) -> DownPhase {
        self.phase
    }

    /// The well-formedness of a downstream: of its state and of its reorderer.
    pub open spec fn wf(&self) -> bool {
        self.state().wf() && self.reorderer().wf()
    }

    /// Whether closing may stop waiting: no acknowledgement was issued, or the last one issued
    /// has completed.
    pub open spec fn acks_completed(&self) -> bool {
        match self.state().last_ack_id() {
            Some(l) => l <= self.ack_complete(),
            None => true,
        }
    }

    /// Whether `req` is the request that closes this downstream.
    pub open spec fn closes_with(&self, req: autogen::DownstreamCloseRequest) -> bool {
        req.request_id == 0 && req.stream_id@.len() == 16 && be_value(req.stream_id@)
            == self.stream()
    }

    /// Whether `b` is `a` with at most its phase changed.
    pub open spec fn same_but_phase(a: Self, b: Self) -> bool {
        &&& b.state() == a.state()
        &&& b.reorderer() == a.reorderer()
        &&& b.ack_complete() == a.ack_complete()
        &&& b.stream() == a.stream()
        &&& b.alias() == a.alias()
        &&& b.omits() == a.omits()
    }

    /// Whether reading chunk `c` while open took `a` to `b` with actions `r`: the chunk is read
    /// as `chunk_read` says; one that cannot be read is dropped; one that was read is put in
    /// order as `DownReorderer::reordered` says, and the chunks that come out are delivered,
    /// or, when it is refused, the downstream stops.
    pub open spec fn chunk_taken(a: Self, b: Self, c: autogen::DownstreamChunk, r: Seq<DownstreamAction>) -> bool {
        exists|read: Result<Option<DownstreamChunk>, Error>|
            #[trigger] chunk_read(c, a.state(), b.state(), a.omits(), read)
            && match read {
                Ok(None) => r.len() == 0 && b.reorderer() == a.reorderer()
                    && b.phase() == DownPhase::Open,
                Err(e) => r == seq![DownstreamAction::Dropped(e)] && b.reorderer()
                    == a.reorderer() && b.phase() == DownPhase::Open,
                Ok(Some(ch)) => exists|res: Result<Vec<DownstreamChunk>, Error>|
                    #[trigger] DownReorderer::reordered(a.reorderer(), b.reorderer(), ch, res)
                    && match res {
                        Ok(v) => r == seq![DownstreamAction::Deliver(v)] && b.phase()
                            == DownPhase::Open,
                        Err(e) => r == seq![DownstreamAction::Failed(e)] && b.phase()
                            == DownPhase::Closed,
                    },
            }
    }

    /// Whether `act` is what ending the wait does in `self`, and `self`'s phase follows it:
    /// once the acknowledgements have completed the close request goes out, else they are
    /// awaited.
    pub open spec fn close_begun(&self, act: DownstreamAction) -> bool {
        if self.acks_completed() {
            (act matches DownstreamAction::SendClose(req) && self.closes_with(req))
                && self.phase() == DownPhase::Closed
        } else {
            act == DownstreamAction::AwaitAckComplete && self.phase() == DownPhase::Closing
        }
    }

    /// A downstream that the broker opened under `stream_id` and `stream_id_alias`, with the
    /// data id aliases it asked for and its reorderer; empty chunks are dropped when asked to
    /// and the reorderer is off.
    pub fn new(
        stream_id: u128,
        stream_id_alias: u32,
        data_id_aliases: HashMap<u32, DataId>,
        reorderer: DownReorderer,
        omit_empty_chunk: bool,
    ) -> (r: DownstreamFlow)
        requires
            reorderer.wf(),
        ensures
            r.wf(),
            r.stream() == stream_id,
            r.alias() == stream_id_alias,
            r.state().data_id_aliases() == data_id_aliases@,
            r.state().infos().len() == 0,
            r.state().pending_results().len() == 0,
            r.state().pending_aliases().is_empty(),
            r.state().last_ack_id() is None,
            r.state().last_upstream_alias() is None,
            r.reorderer() == reorderer,
            r.omits() == (omit_empty_chunk && !reorderer.is_enabled()),
            r.ack_complete() == 0,
            r.phase() == DownPhase::Open,
    {
        let omit = omits_empty_chunks(omit_empty_chunk, reorderer.enabled());
        DownstreamFlow {
            state: State::new(data_id_aliases),
            reorderer,
            ack_id_complete: 0,
            stream_id,
            stream_id_alias,
            omit_empty_chunk: omit,
            phase: DownPhase::Open,
        }
    }

    /// The stream id of the downstream.
    pub fn stream_id(&self) -> (r: u128)
        ensures
            r == self.stream(),
    {
        self.stream_id
    }

    /// The stream id alias in use.
    pub fn stream_id_alias(&self) -> (r: u32)
        ensures
            r == self.alias(),
    {
        self.stream_id_alias
    }

    /// Takes the stream id alias that a resume assigned.
    pub fn set_stream_id_alias(&mut self, alias: u32)
        ensures
            final(self).alias() == alias,
            final(self).state() == old(self).state(),
            final(self).reorderer() == old(self).reorderer(),
            final(self).ack_complete() == old(self).ack_complete(),
            final(self).stream() == old(self).stream(),
            final(self).omits() == old(self).omits(),
            final(self).phase() == old(self).phase(),
    {
        self.stream_id_alias = alias;
    }

    /// How far the downstream has come in closing.
    pub fn close_phase(&self) -> (r: DownPhase)
        ensures
            r == self.phase(),
    {
        self.phase
    }

    /// Whether a chunk can be taken in: one that brings upstream information needs an alias
    /// left for it.
    pub fn can_take(&self, chunk: &autogen::DownstreamChunk) -> (r: bool)
        requires
            self.wf(),
        ensures
            r == (chunk.upstream_or_alias matches Some(autogen::UpstreamOrAlias::UpstreamInfo(info))
                ==> self.state().can_add(info)),
    {
        match &chunk.upstream_or_alias {
            Some(autogen::UpstreamOrAlias::UpstreamInfo(info)) => self.state.can_add_upstream_info(info),
            _ => true,
        }
    }

    /// A picture of what the downstream knows.
    pub fn downstream_state(&self) -> (r: DownstreamState)
        requires
            self.wf(),
        ensures
            r.data_id_aliases@ == self.state().data_id_aliases(),
    {
        self.state.state()
    }

    /// Decides what an event does to the downstream and what its driver is to do, in order.
    /// While open, a chunk is read and put in order (nothing is acknowledged yet): the chunks
    /// that can now be given in order are delivered, a chunk that cannot be read is dropped,
    /// and one that cannot be put in order stops the downstream. The acknowledgement interval
    /// sends what is pending, if anything. A close sends what is pending, then gives the
    /// close request once the last acknowledgement has completed, else awaits that; while
    /// closing, the completion that reaches it, or the close timeout, gives the close request.
    /// Completions are taken in until the downstream is closed. Once closed, nothing happens.
    pub fn step(&mut self, event: DownstreamEvent) -> (r: Vec<DownstreamAction>)
        requires
            old(self).wf(),
            old(self).phase() == DownPhase::Open ==> (event matches DownstreamEvent::Chunk(c) ==> (
            c.upstream_or_alias matches Some(autogen::UpstreamOrAlias::UpstreamInfo(info))
                ==> old(self).state().can_add(info))),
        ensures
            final(self).wf(),
            final(self).stream() == old(self).stream(),
            final(self).alias() == old(self).alias(),
            final(self).omits() == old(self).omits(),
            old(self).phase() == DownPhase::Closed ==> r@.len() == 0 && *final(self) == *old(self),
            match event {
                DownstreamEvent::Chunk(c) => if old(self).phase() == DownPhase::Open {
                    &&& final(self).ack_complete() == old(self).ack_complete()
                    &&& Self::chunk_taken(*old(self), *final(self), c, r@)
                } else {
                    r@.len() == 0 && *final(self) == *old(self)
                },
                DownstreamEvent::AckComplete(c) => old(self).phase() != DownPhase::Closed ==> {
                    &&& final(self).ack_complete() == if old(self).ack_complete() < c.ack_id {
                        c.ack_id
                    } else {
                        old(self).ack_complete()
                    }
                    &&& final(self).state() == old(self).state()
                    &&& final(self).reorderer() == old(self).reorderer()
                    &&& if old(self).phase() == DownPhase::Closing && final(self).acks_completed() {
                        &&& r@.len() == 1
                        &&& r@[0] matches DownstreamAction::SendClose(req) && final(self).closes_with(req)
                        &&& final(self).phase() == DownPhase::Closed
                    } else {
                        r@.len() == 0 && final(self).phase() == old(self).phase()
                    }
                },
                DownstreamEvent::AckIntervalElapsed => if old(self).phase() == DownPhase::Open {
                    &&& exists|ack: Option<autogen::DownstreamChunkAck>|
                        #[trigger] State::ack_taken(old(self).state(), final(self).state(), old(self).alias(), ack)
                        && r@ == ack_actions(ack)
                    &&& final(self).reorderer() == old(self).reorderer()
                    &&& final(self).ack_complete() == old(self).ack_complete()
                    &&& final(self).phase() == DownPhase::Open
                } else {
                    r@.len() == 0 && *final(self) == *old(self)
                },
                DownstreamEvent::CloseRequested => if old(self).phase() == DownPhase::Open {
                    &&& exists|ack: Option<autogen::DownstreamChunkAck>|
                        #[trigger] State::ack_taken(old(self).state(), final(self).state(), old(self).alias(), ack)
                        && r@.len() == ack_actions(ack).len() + 1
                        && r@.take(ack_actions(ack).len() as int) == ack_actions(ack)
                        && final(self).close_begun(r@.last())
                    &&& final(self).reorderer() == old(self).reorderer()
                    &&& final(self).ack_complete() == old(self).ack_complete()
                } else {
                    r@.len() == 0 && *final(self) == *old(self)
                },
                DownstreamEvent::CloseTimedOut => if old(self).phase() == DownPhase::Closing {
                    &&& Self::same_but_phase(*old(self), *final(self))
                    &&& r@.len() == 1
                    &&& r@[0] matches DownstreamAction::SendClose(req) && final(self).closes_with(req)
                    &&& final(self).phase() == DownPhase::Closed
                } else {
                    r@.len() == 0 && *final(self) == *old(self)
                },
            },
    {
        let mut actions: Vec<DownstreamAction> = Vec::new();
        if self.phase == DownPhase::Closed {
            return actions;
        }
        match event {
            DownstreamEvent::Chunk(c) => {
                if self.phase != DownPhase::Open {
                    return actions;
                }
                self.read_chunk(c)
            },
            DownstreamEvent::AckComplete(c) => {
                let _ = check_chunk_ack_complete(&c, &mut self.ack_id_complete);
                if self.phase == DownPhase::Closing {
                    if ack_complete_reached(self.state.last_issued_chunk_ack_id(), self.ack_id_complete) {
                        self.phase = DownPhase::Closed;
                        actions.push(DownstreamAction::SendClose(close_request(self.stream_id)));
                    }
                }
                actions
            },
            DownstreamEvent::AckIntervalElapsed => {
                if self.phase != DownPhase::Open {
                    return actions;
                }
                let ack = self.state.take_ack(self.stream_id_alias);
                assert(State::ack_taken(old(self).state(), self.state(), old(self).alias(), ack));
                match ack {
                    Some(a) => {
                        actions.push(DownstreamAction::SendAck(a));
                    },
                    None => {},
                }
                proof {
                    assert(actions@ =~= ack_actions(ack));
                }
                actions
            },
            DownstreamEvent::CloseRequested => {
                if self.phase != DownPhase::Open {
                    return actions;
                }
                let ack = self.state.take_ack(self.stream_id_alias);
                assert(State::ack_taken(old(self).state(), self.state(), old(self).alias(), ack));
                match ack {
                    Some(a) => {
                        actions.push(DownstreamAction::SendAck(a));
                    },
                    None => {},
                }
                let ghost taken = actions@;
                assert(taken =~= ack_actions(ack));
                let act = self.begin_close();
                actions.push(act);
                assert(actions@.take(taken.len() as int) =~= taken);
                actions
            },
            DownstreamEvent::CloseTimedOut => {
                if self.phase != DownPhase::Closing {
                    return actions;
                }
                self.phase = DownPhase::Closed;
                actions.push(DownstreamAction::SendClose(close_request(self.stream_id)));
                actions
            },
        }
    }

    /// Reads a chunk while open and puts it in order.
    fn read_chunk(&mut self, c: autogen::DownstreamChunk) -> (r: Vec<DownstreamAction>)
        requires
            old(self).wf(),
            old(self).phase() == DownPhase::Open,
            c.upstream_or_alias matches Some(autogen::UpstreamOrAlias::UpstreamInfo(info))
                ==> old(self).state().can_add(info),
        ensures
            final(self).wf(),
            final(self).stream() == old(self).stream(),
            final(self).alias() == old(self).alias(),
            final(self).omits() == old(self).omits(),
            final(self).ack_complete() == old(self).ack_complete(),
            Self::chunk_taken(*old(self), *final(self), c, r@),
    {
        let mut actions: Vec<DownstreamAction> = Vec::new();
        let read = convert_downstream_chunk(c, &mut self.state, self.omit_empty_chunk);
        let ghost read0 = read;
        match read {
            Ok(None) => {},
            Err(e) => {
                actions.push(DownstreamAction::Dropped(e));
                assert(actions@ =~= seq![DownstreamAction::Dropped(e)]);
            },
            Ok(Some(ch)) => {
                let ghost ch0 = ch;
                let res = self.reorderer.iter(ch);
                let ghost res0 = res;
                match res {
                    Ok(v) => {
                        actions.push(DownstreamAction::Deliver(v));
                        assert(actions@ =~= seq![DownstreamAction::Deliver(v)]);
                    },
                    Err(e) => {
                        self.phase = DownPhase::Closed;
                        actions.push(DownstreamAction::Failed(e));
                        assert(actions@ =~= seq![DownstreamAction::Failed(e)]);
                    },
                }
                assert(DownReorderer::reordered(old(self).reorderer(), self.reorderer(), ch0, res0));
            },
        }
        assert(chunk_read(c, old(self).state(), self.state(), old(self).omits(), read0));
        actions
    }

    /// Ends the wait if it may end: gives the close request once the acknowledgements have
    /// completed, else asks to await them.
    fn begin_close(&mut self) -> (act: DownstreamAction)
        requires
            old(self).wf(),
        ensures
            final(self).wf(),
            Self::same_but_phase(*old(self), *final(self)),
            final(self).close_begun(act),
    {
        if ack_complete_reached(self.state.last_issued_chunk_ack_id(), self.ack_id_complete) {
            self.phase = DownPhase::Closed;
            DownstreamAction::SendClose(close_request(self.stream_id))
        } else {
            self.phase = DownPhase::Closing;
            DownstreamAction::AwaitAckComplete
        }
    }
}

} // verus!
