//! The abstract two-wire bus the driver talks through, and a scripted
//! in-memory transport for exercising the driver without hardware.

use vstd::prelude::*;
use vstd::slice::slice_to_vec;

verus! {

/// One transaction on the two-wire bus, as seen by the specification.
pub enum BusOp {
    /// A plain write of `data` to the device at `address`.
    Write { address: u8, data: Seq<u8> },
    /// A write of `request` followed by a read that returned `response`.
    Read { address: u8, request: Seq<u8>, response: Seq<u8> },
}

/// A two-wire bus transport. The specification models the transport as the
/// sequence of transactions completed on it so far: each call either appends
/// exactly one transaction (on success) or leaves the history unchanged (on
/// failure).
pub trait I2cBus: Sized {
    /// The transport's own error type.
    type BusError;

    /// The transactions completed on this bus so far.
    ///
    /// A transport implemented outside the verifier may leave the default,
    /// which models no recorded history; the transaction-log guarantees of
    /// the driver are meaningful only for transports that track their
    /// history and meet the method contracts below.
    open spec fn ops(&self) -> Seq<BusOp> {
        Seq::empty()
    }

    /// Write `data` to the device at `address` in one transaction.
    fn write(&mut self, address: u8, data: &[u8]) -> (result: Result<(), Self::BusError>)
        ensures
            match result {
                Ok(()) => final(self).ops() == old(self).ops().push(
                    BusOp::Write { address, data: data@ },
                ),
                Err(_) => final(self).ops() == old(self).ops(),
            },
    ;

    /// Write `request`, then read `response.len()` bytes, in one transaction.
    /// The bytes read replace the contents of `response`; after a failed
    /// transaction the contents of `response` are unspecified.
    fn write_read(&mut self, address: u8, request: &[u8], response: &mut Vec<u8>) -> (result:
        Result<(), Self::BusError>)
        ensures
            final(response)@.len() == old(response)@.len(),
            match result {
                Ok(()) => final(self).ops() == old(self).ops().push(
                    BusOp::Read { address, request: request@, response: final(response)@ },
                ),
                Err(_) => final(self).ops() == old(self).ops(),
            },
    ;
}

/// One transaction recorded by [`MockBus`], in executable form.
pub struct RecordedOp {
    /// The device address the transaction was sent to.
    pub address: u8,
    /// Whether the transaction was a write-then-read (`true`) or a plain
    /// write (`false`).
    pub is_read: bool,
    /// The bytes written (for a read: the request bytes).
    pub request: Vec<u8>,
    /// The bytes returned (empty for a plain write).
    pub response: Vec<u8>,
}

/// The specification-level transaction a [`RecordedOp`] stands for.
pub open spec fn recorded_op_view(op: RecordedOp) -> BusOp {
    if op.is_read {
        BusOp::Read { address: op.address, request: op.request@, response: op.response@ }
    } else {
        BusOp::Write { address: op.address, data: op.request@ }
    }
}

/// Error of the scripted transport: a read was attempted with no scripted
/// response of the right length left.
#[derive(Debug)]
pub struct MockBusError;

/// A scripted in-memory transport: writes always succeed, and each
/// write-then-read consumes the next scripted response. Every transaction
/// performed is recorded in `log`.
pub struct MockBus {
    /// The transactions performed so far, oldest first.
    pub log: Vec<RecordedOp>,
    /// The scripted responses not yet consumed, next first.
    pub responses: Vec<Vec<u8>>,
}

impl MockBus {
    /// The scripted responses not yet consumed.
    pub open spec fn pending_responses(&self) -> Seq<Seq<u8>> {
        self.responses@.map_values(|response: Vec<u8>| response@)
    }

    /// Create a transport with no scripted responses.
    pub fn new() -> (bus: MockBus)
        ensures
            bus.ops() == Seq::<BusOp>::empty(),
            bus.pending_responses() == Seq::<Seq<u8>>::empty(),
    {
        let bus = MockBus { log: Vec::new(), responses: Vec::new() };
        proof {
            assert(bus.ops() =~= Seq::<BusOp>::empty());
            assert(bus.pending_responses() =~= Seq::<Seq<u8>>::empty());
        }
        bus
    }

    /// Script the response for the next write-then-read transaction.
    pub fn push_response(&mut self, response: Vec<u8>)
        ensures
            final(self).ops() == old(self).ops(),
            final(self).pending_responses() == old(self).pending_responses().push(response@),
    {
        let ghost pre = self.pending_responses();
        self.responses.push(response);
        proof {
            assert(self.ops() =~= old(self).ops());
            assert(self.pending_responses() =~= pre.push(response@));
        }
    }

    /// The transactions recorded so far.
    pub fn recorded(&self) -> (log: &Vec<RecordedOp>)
        ensures
            log@.map_values(|op: RecordedOp| recorded_op_view(op)) == self.ops(),
    {
        &self.log
    }

    /// Whether every scripted response has been consumed.
    pub fn done(&self) -> (finished: bool)
        ensures
            finished <==> self.pending_responses().len() == 0,
    {
        self.responses.len() == 0
    }
}

impl I2cBus for MockBus {
    type BusError = MockBusError;

    open spec fn ops(&self) -> Seq<BusOp> {
        self.log@.map_values(|op: RecordedOp| recorded_op_view(op))
    }

    fn write(&mut self, address: u8, data: &[u8]) -> (result: Result<(), MockBusError>)
        ensures
            result is Ok,
            final(self).pending_responses() == old(self).pending_responses(),
    {
        let entry = RecordedOp {
            address,
            is_read: false,
            request: slice_to_vec(data),
            response: Vec::new(),
        };
        self.log.push(entry);
        proof {
            assert(self.ops() =~= old(self).ops().push(BusOp::Write { address, data: data@ }));
        }
        Ok(())
    }

    fn write_read(&mut self, address: u8, request: &[u8], response: &mut Vec<u8>) -> (result:
        Result<(), MockBusError>)
        ensures
            ({
                let pending = old(self).pending_responses();
                match result {
                    Ok(()) => {
                        &&& pending.len() > 0
                        &&& pending[0].len() == old(response)@.len()
                        &&& final(response)@ == pending[0]
                        &&& final(self).pending_responses() == pending.subrange(
                            1,
                            pending.len() as int,
                        )
                    },
                    Err(_) => {
                        &&& pending.len() == 0 || pending[0].len() != old(response)@.len()
                        &&& final(self).pending_responses() == pending
                        &&& final(response)@ == old(response)@
                    },
                }
            }),
    {
        if self.responses.len() == 0 {
            return Err(MockBusError);
        }
        if self.responses[0].len() != response.len() {
            return Err(MockBusError);
        }
        let ghost pending = self.pending_responses();
        let canned = self.responses.remove(0);
        proof {
            assert(self.pending_responses() =~= pending.subrange(1, pending.len() as int));
        }
        let mut i: usize = 0;
        while i < canned.len()
            invariant
                i <= canned@.len(),
                canned@.len() == response@.len(),
                forall|j: int| 0 <= j < i ==> response@[j] == canned@[j],
            decreases canned@.len() - i,
        {
            response[i] = canned[i];
            i += 1;
        }
        proof {
            assert(response@ =~= canned@);
        }
        let entry = RecordedOp {
            address,
            is_read: true,
            request: slice_to_vec(request),
            response: canned,
        };
        self.log.push(entry);
        proof {
            assert(self.ops() =~= old(self).ops().push(
                BusOp::Read { address, request: request@, response: response@ },
            ));
        }
        Ok(())
    }
}

} // verus!
