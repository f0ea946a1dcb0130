use vstd::prelude::*;

use crate::codec::{decode, decode_spec, reply_tag_ok, reply_tag_valid, MAX_PAYLOAD};

verus! {

/// The most bytes that one bulk read hands over.
pub const MAX_TRANSFER: usize = 4096;

/// The most bulk reads that one reply may take before it is given up.
pub const MAX_READS: usize = 16;

/// A received reply is complete once it ends in a zero byte.
pub open spec fn terminated(buffer: Seq<u8>) -> bool {
    buffer.len() > 0 && buffer.last() == 0
}

/// A decoded reply, with whether its tag was the reply tag. A wrong tag is
/// a warning only: the payload is decoded all the same.
#[derive(Debug)]
pub struct Reply {
    pub payload: Vec<u8>,
    pub tag_ok: bool,
}

/// What to do after a bulk read.
#[derive(Debug)]
pub enum ReadStep {
    /// The reply is not terminated yet: read once more.
    More,
    /// The reply is terminated and decoded.
    Complete(Reply),
    /// The reply was still not terminated after the last allowed read.
    Overrun,
}

/// The reply that the reads gathered in `buffer` make up.
pub open spec fn completes_with(step: ReadStep, buffer: Seq<u8>) -> bool {
    match step {
        ReadStep::Complete(reply) => reply.payload@ == decode_spec(buffer) && reply.tag_ok
            == reply_tag_ok(buffer),
        _ => false,
    }
}

/// A read that does not end in zero, followed by one that does, makes one
/// reply: the first leaves the reply open (another read is asked for), the
/// second closes it, and the reply is decoded from the two reads joined.
pub proof fn lemma_continuation(first: Seq<u8>, second: Seq<u8>)
    requires
        first.len() > 0,
        first.last() != 0,
        second.len() > 0,
        second.last() == 0,
    ensures
        !terminated(Seq::<u8>::empty() + first),
        terminated(Seq::<u8>::empty() + first + second),
{
    assert(Seq::<u8>::empty() + first =~= first);
    assert((first + second).last() == second.last());
}

/// Gathers the bulk reads that make up one reply.
pub struct ReplyAssembly {
    buffer: Vec<u8>,
    reads: usize,
}

impl ReplyAssembly {
    /// The bytes read so far, in order.
    pub closed spec fn received(&self) -> Seq<u8> {
        self.buffer@
    }

    /// The number of reads so far.
    pub closed spec fn read_count(&self) -> nat {
        self.reads as nat
    }

    /// More reads are wanted: no terminator yet and reads left.
    pub open spec fn waiting(&self) -> bool {
        self.read_count() < MAX_READS && !terminated(self.received()) && self.received().len()
            <= self.read_count() * MAX_TRANSFER
    }

    /// An assembly that has read nothing.
    pub fn new() -> (r: ReplyAssembly)
        ensures
            r.received() == Seq::<u8>::empty(),
            r.read_count() == 0,
            r.waiting(),
    {
        ReplyAssembly { buffer: Vec::new(), reads: 0 }
    }

    /// Appends one bulk read. The reply is complete, and decoded, once the
    /// bytes gathered end in zero; while they do not, another read is asked
    /// for, up to the last allowed read.
    pub fn push(&mut self, chunk: &[u8]) -> (r: ReadStep)
        requires
            old(self).waiting(),
            chunk@.len() <= MAX_TRANSFER,
        ensures
            final(self).received() == old(self).received() + chunk@,
            final(self).read_count() == old(self).read_count() + 1,
            terminated(final(self).received()) ==> completes_with(r, final(self).received()),
            !terminated(final(self).received()) && final(self).read_count() < MAX_READS ==> (r is More
                && final(self).waiting()),
            !terminated(final(self).received()) && final(self).read_count() == MAX_READS ==> r is Overrun,
    {
        let ghost before = self.buffer@;
        let ghost reads_before = self.reads;
        let mut i: usize = 0;
        while i < chunk.len()
            invariant
                self.buffer@ == before + chunk@.subrange(0, i as int),
                i <= chunk@.len(),
                before.len() <= self.reads * MAX_TRANSFER,
                self.reads == reads_before,
                self.reads < MAX_READS,
                chunk@.len() <= MAX_TRANSFER,
            decreases chunk@.len() - i,
        {
            self.buffer.push(chunk[i]);
            i = i + 1;
            assert(self.buffer@ =~= before + chunk@.subrange(0, i as int));
        }
        assert(chunk@.subrange(0, chunk@.len() as int) =~= chunk@);
        self.reads = self.reads + 1;
        let n = self.buffer.len();
        if n > 0 && self.buffer[n - 1] == 0 {
            let payload = decode(self.buffer.as_slice());
            let tag_ok = reply_tag_valid(self.buffer.as_slice());
            ReadStep::Complete(Reply { payload, tag_ok })
        } else if self.reads < MAX_READS {
            ReadStep::More
        } else {
            ReadStep::Overrun
        }
    }
}

/// The acknowledgement that a request is answered with.
#[derive(Clone, Copy, Debug, PartialEq, Eq, Structural)]
pub enum AckCheck {
    /// A single zero byte.
    Zero,
    /// Two bytes, the first of them zero.
    ZeroFirst,
}

/// How a reply measured up to the acknowledgement it was checked against.
#[derive(Clone, Copy, Debug, PartialEq, Eq, Structural)]
pub enum AckStatus {
    Accepted,
    /// The reply had this many bytes, not the number expected.
    WrongLength(usize),
    /// The reply had the expected length and this non-zero first byte.
    ErrorReported(u8),
}

/// The number of bytes that an acknowledgement has.
pub open spec fn ack_length(check: AckCheck) -> nat {
    match check {
        AckCheck::Zero => 1,
        AckCheck::ZeroFirst => 2,
    }
}

/// How `reply` measures up to `check`.
pub open spec fn ack_status_of(check: AckCheck, reply: Seq<u8>) -> AckStatus {
    if reply.len() != ack_length(check) {
        AckStatus::WrongLength(reply.len() as usize)
    } else if reply[0] != 0 {
        AckStatus::ErrorReported(reply[0])
    } else {
        AckStatus::Accepted
    }
}

/// Checks a reply against the acknowledgement it should be.
pub fn check_ack(check: AckCheck, reply: &[u8]) -> (r: AckStatus)
    ensures
        r == ack_status_of(check, reply@),
{
    let want: usize = match check {
        AckCheck::Zero => 1,
        AckCheck::ZeroFirst => 2,
    };
    if reply.len() != want {
        AckStatus::WrongLength(reply.len())
    } else if reply[0] != 0 {
        AckStatus::ErrorReported(reply[0])
    } else {
        AckStatus::Accepted
    }
}

/// An acknowledgement that did not come as expected, and the step of the
/// transaction that it answered.
#[derive(Clone, Copy, Debug, PartialEq, Eq, Structural)]
pub struct AckWarning {
    pub step: usize,
    pub status: AckStatus,
}

/// The requests that read `length` bytes of the register at `address`: the
/// header, the fetch, and the read whose reply is the register's value.
pub open spec fn read_requests(length: u8, address: u8) -> Seq<Seq<u8>> {
    seq![
        seq![0x13u8, 0x03u8, 0x06u8, 0x01u8, 0x07u8, length, address],
        seq![0x12u8],
        seq![0x08u8, 0x07u8, length],
    ]
}

/// The acknowledgements that the replies to a register read but the last
/// must be.
pub open spec fn read_checks() -> Seq<AckCheck> {
    seq![AckCheck::Zero, AckCheck::ZeroFirst]
}

/// The requests that write `data` to the register at `address`: the header
/// with the data, then the fetch whose reply is returned.
pub open spec fn write_requests(address: u8, data: Seq<u8>) -> Seq<Seq<u8>> {
    seq![seq![0x13u8, 0x01u8, 0x04u8, data.len() as u8, address] + data, seq![0x12u8]]
}

/// The acknowledgements that the replies to a register write but the last
/// must be.
pub open spec fn write_checks() -> Seq<AckCheck> {
    seq![AckCheck::Zero]
}

/// The warnings after a reply to step `step` measured `status`: unchanged
/// when it was accepted, else one more at the end.
pub open spec fn noted(warnings: Seq<AckWarning>, step: nat, status: AckStatus) -> Seq<AckWarning> {
    if status == AckStatus::Accepted {
        warnings
    } else {
        warnings.push(AckWarning { step: step as usize, status })
    }
}

/// The largest data that one register write carries in a frame.
pub const MAX_WRITE_DATA: usize = 2042;

/// The exchanges of one register read or write, run one after the other.
/// Each request is sent, its reply is handed back, and a reply that is not
/// the acknowledgement expected is noted and passed over. The reply to the
/// last request is the result.
pub struct RegisterTransaction {
    reading: bool,
    length: u8,
    address: u8,
    data: Vec<u8>,
    stage: usize,
    warnings: Vec<AckWarning>,
}

impl RegisterTransaction {
    /// The payloads to send, in order.
    pub closed spec fn requests(&self) -> Seq<Seq<u8>> {
        if self.reading {
            read_requests(self.length, self.address)
        } else {
            write_requests(self.address, self.data@)
        }
    }

    /// The acknowledgement that each reply but the last must be.
    pub closed spec fn checks(&self) -> Seq<AckCheck> {
        if self.reading {
            read_checks()
        } else {
            write_checks()
        }
    }

    /// The number of replies handed back so far.
    pub closed spec fn stage(&self) -> nat {
        self.stage as nat
    }

    /// The acknowledgements that did not come as expected, in order.
    pub closed spec fn warnings(&self) -> Seq<AckWarning> {
        self.warnings@
    }

    /// The stage is within the requests, there is one check for each request
    /// but the last, and every request fits a frame.
    pub closed spec fn wf(&self) -> bool {
        &&& self.reading || self.data@.len() <= MAX_WRITE_DATA
        &&& self.stage <= self.requests().len()
        &&& self.checks().len() + 1 == self.requests().len()
        &&& forall|i: int| 0 <= i < self.requests().len() ==> #[trigger] self.requests()[i].len() <= MAX_PAYLOAD
    }

    /// A read of `length` bytes of the register at `address`.
    pub fn read(length: u8, address: u8) -> (r: RegisterTransaction)
        ensures
            r.wf(),
            r.requests() == read_requests(length, address),
            r.checks() == read_checks(),
            r.stage() == 0,
            r.warnings() == Seq::<AckWarning>::empty(),
    {
        RegisterTransaction {
            reading: true,
            length,
            address,
            data: Vec::new(),
            stage: 0,
            warnings: Vec::new(),
        }
    }

    /// A write of `data` to the register at `address`.
    pub fn write(address: u8, data: &[u8]) -> (r: RegisterTransaction)
        requires
            data@.len() <= MAX_WRITE_DATA,
        ensures
            r.wf(),
            r.requests() == write_requests(address, data@),
            r.checks() == write_checks(),
            r.stage() == 0,
            r.warnings() == Seq::<AckWarning>::empty(),
    {
        let mut copy: Vec<u8> = Vec::new();
        let mut i: usize = 0;
        while i < data.len()
            invariant
                copy@ == data@.subrange(0, i as int),
                i <= data@.len(),
            decreases data@.len() - i,
        {
            copy.push(data[i]);
            i = i + 1;
            assert(copy@ =~= data@.subrange(0, i as int));
        }
        assert(data@.subrange(0, data@.len() as int) =~= data@);
        RegisterTransaction {
            reading: false,
            length: 0,
            address,
            data: copy,
            stage: 0,
            warnings: Vec::new(),
        }
    }

    /// Tells whether every request has had its reply.
    pub fn is_finished(&self) -> (r: bool)
        requires
            self.wf(),
        ensures
            r == (self.stage() == self.requests().len()),
    {
        if self.reading {
            self.stage == 3
        } else {
            self.stage == 2
        }
    }

    /// The payload of the request to send next.
    pub fn request(&self) -> (r: Vec<u8>)
        requires
            self.wf(),
            self.stage() < self.requests().len(),
        ensures
            r@ == self.requests()[self.stage() as int],
            r@.len() <= MAX_PAYLOAD,
    {
        let mut out: Vec<u8> = Vec::new();
        if self.reading {
            if self.stage == 0 {
                out.push(0x13);
                out.push(0x03);
                out.push(0x06);
                out.push(0x01);
                out.push(0x07);
                out.push(self.length);
                out.push(self.address);
            } else if self.stage == 1 {
                out.push(0x12);
            } else {
                out.push(0x08);
                out.push(0x07);
                out.push(self.length);
            }
        } else {
            if self.stage == 0 {
                out.push(0x13);
                out.push(0x01);
                out.push(0x04);
                out.push(self.data.len() as u8);
                out.push(self.address);
                let ghost head = out@;
                let mut i: usize = 0;
                while i < self.data.len()
                    invariant
                        out@ == head + self.data@.subrange(0, i as int),
                        i <= self.data@.len(),
                    decreases self.data@.len() - i,
                {
                    out.push(self.data[i]);
                    i = i + 1;
                    assert(out@ =~= head + self.data@.subrange(0, i as int));
                }
                assert(self.data@.subrange(0, self.data@.len() as int) =~= self.data@);
            } else {
                out.push(0x12);
            }
        }
        proof {
            let want = self.requests()[self.stage() as int];
            assert(out@ =~= want);
        }
        out
    }

    /// Hands back the decoded reply to the request last sent. The reply to the
    /// last request is returned; one to an earlier request is checked against
    /// its acknowledgement, and noted when it falls short, and the transaction
    /// goes on regardless.
    pub fn on_reply(&mut self, reply: &[u8]) -> (r: Option<Vec<u8>>)
        requires
            old(self).wf(),
            old(self).stage() < old(self).requests().len(),
        ensures
            final(self).wf(),
            final(self).requests() == old(self).requests(),
            final(self).checks() == old(self).checks(),
            final(self).stage() == old(self).stage() + 1,
            old(self).stage() + 1 == old(self).requests().len() ==> (r matches Some(v) && v@
                == reply@ && final(self).warnings() == old(self).warnings()),
            old(self).stage() + 1 < old(self).requests().len() ==> r is None
                && final(self).warnings() == noted(
                old(self).warnings(),
                old(self).stage(),
                ack_status_of(old(self).checks()[old(self).stage() as int], reply@),
            ),
    {
        let last: usize = if self.reading {
            2
        } else {
            1
        };
        let step = self.stage;
        self.stage = self.stage + 1;
        if step == last {
            let mut out: Vec<u8> = Vec::new();
            let mut i: usize = 0;
            while i < reply.len()
                invariant
                    out@ == reply@.subrange(0, i as int),
                    i <= reply@.len(),
                decreases reply@.len() - i,
            {
                out.push(reply[i]);
                i = i + 1;
                assert(out@ =~= reply@.subrange(0, i as int));
            }
            assert(reply@.subrange(0, reply@.len() as int) =~= reply@);
            return Some(out);
        }
        let check = if step == 0 {
            AckCheck::Zero
        } else {
            AckCheck::ZeroFirst
        };
        let status = check_ack(check, reply);
        match status {
            AckStatus::Accepted => {},
            _ => {
                self.warnings.push(AckWarning { step, status });
            },
        }
        None
    }

    /// The acknowledgements that did not come as expected so far.
    pub fn warning_list(&self) -> (r: Vec<AckWarning>)
        ensures
            r@ == self.warnings(),
    {
        let mut out: Vec<AckWarning> = Vec::new();
        let mut i: usize = 0;
        while i < self.warnings.len()
            invariant
                out@ == self.warnings@.subrange(0, i as int),
                i <= self.warnings@.len(),
            decreases self.warnings@.len() - i,
        {
            out.push(self.warnings[i]);
            i = i + 1;
            assert(out@ =~= self.warnings@.subrange(0, i as int));
        }
        assert(self.warnings@.subrange(0, self.warnings@.len() as int) =~= self.warnings@);
        out
    }
}

/// The value that a register read back after a selection holds: its first
/// byte, or zero when the reply is empty.
pub fn readback_value(reply: &[u8]) -> (r: u8)
    ensures
        reply@.len() >= 1 ==> r == reply@[0],
        reply@.len() == 0 ==> r == 0,
{
    if reply.len() >= 1 {
        reply[0]
    } else {
        0
    }
}

} // verus!
