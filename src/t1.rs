use vstd::prelude::*;
use crate::atr::{AnswerToReset, atr_layout_ok, atr_matches};
use crate::block::{
    decode_frame, encode_frame, frame_bytes, lemma_frame_round_trip, spec_decode_frame, T1Error,
    T1PCB, T1SCode, MAX_IFSC,
};

verus! {

/// IFSC in force until the card's ATR says otherwise.
pub const DEFAULT_IFSC: u8 = 254;

/// Retransmissions of one block that the link asks for or makes before it
/// gives up.
pub const T1_RETRY_LIMIT: u8 = 3;

/// An R-block as the host sends it.
pub open spec fn r_block(nad: u8, seq: u8, err: u8) -> Seq<u8> {
    frame_bytes(nad, T1PCB::R(seq, err).spec_into(), seq![])
}

/// An S-block as the host sends it.
pub open spec fn s_block(nad: u8, code: T1SCode, response: bool, inf: Seq<u8>) -> Seq<u8> {
    frame_bytes(nad, T1PCB::S(code, response).spec_into(), inf)
}

/// The error code that an R-block carries for a block that could not be read.
pub open spec fn r_error_code(e: T1Error) -> u8 {
    if e == T1Error::ChecksumError {
        1
    } else {
        2
    }
}

/// Where the fragment that starts at `off` ends.
pub open spec fn chunk_end(off: int, len: int, ifsc: u8) -> int {
    if len - off <= ifsc as int {
        len
    } else {
        off + ifsc as int
    }
}

/// S-block requests of the card that the host answers: WTX and IFS, each
/// with a non-zero one-byte value. Any other block is a protocol error.
pub open spec fn s_request_ok(code: T1SCode, inf: Seq<u8>) -> bool {
    (code == T1SCode::WTX || code == T1SCode::IFS) && inf.len() == 1 && inf[0] > 0
}

/// A block that could not be read: the host asks for it again with an
/// R-block, or gives up with that error once the attempts are used up.
pub open spec fn bad_block_outcome(old: T1State, new: T1State, r: T1Step, e: T1Error) -> bool {
    if old.retries >= T1_RETRY_LIMIT {
        r == T1Step::Fail(e) && new == old
    } else {
        (r matches T1Step::Send(v) && v@ == r_block(old.nad, old.cseq, r_error_code(e))) && new
            == old.after_retry()
    }
}

/// The card asked for the host's last I-block again.
pub open spec fn retransmit_outcome(old: T1State, new: T1State, r: T1Step, err: u8) -> bool {
    if old.retries >= T1_RETRY_LIMIT {
        r == T1Step::Fail(T1Error::RCodeReceived(err)) && new == old
    } else {
        r == T1Step::Resend && new == old.after_retry()
    }
}

/// The card sent an S-block request: answered when the host knows it,
/// otherwise a protocol error.
pub open spec fn s_request_outcome(
    old: T1State,
    new: T1State,
    r: T1Step,
    code: T1SCode,
    inf: Seq<u8>,
) -> bool {
    if s_request_ok(code, inf) {
        (r matches T1Step::Send(v) && v@ == s_block(old.nad, code, true, inf)) && new
            == old.after_s_request(code, inf)
    } else {
        r == T1Step::Fail(T1Error::ProtocolError) && new == old
    }
}

/// The state after an I-block of the card was taken in.
pub open spec fn after_card_block(old: T1State) -> T1State {
    let s = if old.pending_ack {
        old.after_ack()
    } else {
        old
    };
    T1State { cseq: (1 - old.cseq) as u8, retries: 0, ..s }
}

/// What the host does next in an exchange.
#[derive(Debug)]
pub enum T1Step {
    /// A non-final I-block was acknowledged: send the next fragment.
    Acked,
    /// Write this block, then read the next one.
    Send(Vec<u8>),
    /// Write the last I-block again, then read the next one.
    Resend,
    /// The first `n` bytes of the buffer hold the response so far: write this
    /// R-block, then read the next block.
    Chained(usize, Vec<u8>),
    /// The first `n` bytes of the buffer hold the whole response.
    Complete(usize),
    /// The exchange failed; the link needs a soft reset.
    Fail(T1Error),
}

/// State of the T=1 link on the host side.
pub struct T1State {
    /// Node address byte of every block that the host sends.
    pub nad: u8,
    /// Send-sequence bit of the next I-block of the host.
    pub iseq: u8,
    /// Send-sequence bit that the next I-block of the card must carry.
    pub cseq: u8,
    /// Largest information field that the card accepts.
    pub ifsc: u8,
    /// Block waiting time from the ATR, in ms.
    pub bwt_ms: u16,
    /// Multiplier of the waiting time for the next read only.
    pub wtx: u8,
    /// The last I-block of a command went out and awaits the card's answer.
    pub pending_ack: bool,
    /// Failed attempts at the current exchange.
    pub retries: u8,
    /// I-blocks of the host acknowledged since the last reset.
    pub sent: Ghost<nat>,
}

impl T1State {
    pub open spec fn wf(&self) -> bool {
        &&& self.iseq < 2
        &&& self.cseq < 2
        &&& self.ifsc >= 1
        &&& self.wtx >= 1
        &&& self.retries <= T1_RETRY_LIMIT
        &&& self.iseq as nat == self.sent@ % 2
    }

    /// The state after answering an S-block request.
    pub open spec fn after_s_request(self, code: T1SCode, inf: Seq<u8>) -> T1State {
        if code == T1SCode::WTX {
            T1State { wtx: inf[0], ..self }
        } else {
            T1State { ifsc: inf[0], ..self }
        }
    }

    /// The state after a failed attempt.
    pub open spec fn after_retry(self) -> T1State {
        T1State { retries: (self.retries + 1) as u8, ..self }
    }

    /// The state after the host's pending I-block was acknowledged.
    pub open spec fn after_ack(self) -> T1State {
        T1State {
            iseq: (1 - self.iseq) as u8,
            retries: 0,
            pending_ack: false,
            sent: Ghost(self.sent@ + 1),
            ..self
        }
    }

    pub fn new(nad: u8) -> (r: T1State)
        ensures
            r.wf(),
            r.nad == nad && r.iseq == 0 && r.cseq == 0 && r.ifsc == DEFAULT_IFSC,
            r.bwt_ms == 0 && r.wtx == 1 && !r.pending_ack && r.retries == 0 && r.sent@ == 0,
    {
        T1State {
            nad,
            iseq: 0,
            cseq: 0,
            ifsc: DEFAULT_IFSC,
            bwt_ms: 0,
            wtx: 1,
            pending_ack: false,
            retries: 0,
            sent: Ghost(0),
        }
    }

    /// The S(InterfaceSoftReset, request) block that starts a soft reset.
    pub fn soft_reset_request(&self) -> (r: Vec<u8>)
        ensures
            r@ == s_block(self.nad, T1SCode::InterfaceSoftReset, false, seq![]),
    {
        let empty: [u8; 0] = [];
        let r = encode_frame(self.nad, T1PCB::S(T1SCode::InterfaceSoftReset, false), &empty);
        assert(empty@ =~= Seq::<u8>::empty());
        r
    }

    /// Takes the card's answer to a soft reset: an S(InterfaceSoftReset,
    /// response) block whose field is the ATR. On success both sequence
    /// counters restart at 0 and the ATR's IFSC and BWT take effect.
    pub fn on_soft_reset_response(&mut self, frame: &[u8]) -> (r: Result<AnswerToReset, T1Error>)
        requires
            old(self).wf(),
        ensures
            final(self).wf(),
            match spec_decode_frame(frame@) {
                Err(e) => r == Err::<AnswerToReset, T1Error>(e) && *final(self) == *old(self),
                Ok((_, pcb, inf)) => if pcb == T1PCB::S(T1SCode::InterfaceSoftReset, true)
                    && atr_layout_ok(inf) && (inf[9] > 0 || inf[10] > 0) {
                    &&& r matches Ok(a) && atr_matches(a, inf)
                    &&& final(self).nad == old(self).nad
                    &&& final(self).iseq == 0 && final(self).cseq == 0
                    &&& final(self).ifsc as int == if inf[9] > 0 { 255 } else { inf[10] as int }
                    &&& final(self).bwt_ms == (r->Ok_0).dllp.bwt_ms
                    &&& final(self).wtx == 1 && !final(self).pending_ack
                    &&& final(self).retries == 0 && final(self).sent@ == 0
                } else {
                    r == Err::<AnswerToReset, T1Error>(T1Error::ProtocolError) && *final(self)
                        == *old(self)
                },
            },
    {
        let (h, inf) = decode_frame(frame)?;
        if h.pcb != T1PCB::S(T1SCode::InterfaceSoftReset, true) {
            return Err(T1Error::ProtocolError);
        }
        let atr = match AnswerToReset::parse(inf) {
            Ok(a) => a,
            Err(_) => {
                return Err(T1Error::ProtocolError);
            },
        };
        if atr.dllp.ifsc == 0 {
            return Err(T1Error::ProtocolError);
        }
        self.ifsc = if atr.dllp.ifsc > 255 {
            255
        } else {
            atr.dllp.ifsc as u8
        };
        self.iseq = 0;
        self.cseq = 0;
        self.bwt_ms = atr.dllp.bwt_ms;
        self.wtx = 1;
        self.pending_ack = false;
        self.retries = 0;
        self.sent = Ghost(0);
        Ok(atr)
    }

    /// How long to wait for the next block, in ms: the BWT, stretched by a
    /// pending WTX multiplier, which this read uses up.
    pub fn next_read_timeout_ms(&mut self) -> (r: u32)
        requires
            old(self).wf(),
        ensures
            r == old(self).bwt_ms as int * old(self).wtx as int,
            *final(self) == (T1State { wtx: 1, ..*old(self) }),
            final(self).wf(),
    {
        let b = self.bwt_ms as u32;
        let w = self.wtx as u32;
        assert(b * w <= 65535 * 255) by (nonlinear_arith)
            requires
                b <= 65535,
                w <= 255,
        ;
        let r = b * w;
        self.wtx = 1;
        r
    }

    /// The I-block that carries the fragment of `apdu` that starts at `off`,
    /// and where that fragment ends.
    pub fn i_block(&self, apdu: &[u8], off: usize) -> (r: (Vec<u8>, usize))
        requires
            self.wf(),
            off <= apdu@.len(),
        ensures
            r.1 as int == chunk_end(off as int, apdu@.len() as int, self.ifsc),
            r.0@ == frame_bytes(
                self.nad,
                T1PCB::I(self.iseq, r.1 < apdu@.len()).spec_into(),
                apdu@.subrange(off as int, r.1 as int),
            ),
    {
        let n = apdu.len();
        let end = if n - off <= self.ifsc as usize {
            n
        } else {
            off + self.ifsc as usize
        };
        let chunk = vstd::slice::slice_subrange(apdu, off, end);
        (encode_frame(self.nad, T1PCB::I(self.iseq, end < n), chunk), end)
    }

    /// Records that the last I-block of a command went out.
    pub fn on_last_chunk_written(&mut self)
        requires
            old(self).wf(),
        ensures
            final(self).wf(),
            *final(self) == (T1State { pending_ack: true, retries: 0, ..*old(self) }),
    {
        self.pending_ack = true;
        self.retries = 0;
    }

    /// A block that could not be read: ask for it again, or give up once the
    /// attempts are used up.
    fn on_bad_block(&mut self, e: T1Error) -> (r: T1Step)
        requires
            old(self).wf(),
        ensures
            final(self).wf(),
            old(self).retries >= T1_RETRY_LIMIT ==> r == T1Step::Fail(e) && *final(self)
                == *old(self),
            old(self).retries < T1_RETRY_LIMIT ==> (r matches T1Step::Send(v) && v@ == r_block(
                old(self).nad,
                old(self).cseq,
                r_error_code(e),
            )) && *final(self) == old(self).after_retry(),
    {
        if self.retries >= T1_RETRY_LIMIT {
            return T1Step::Fail(e);
        }
        self.retries = self.retries + 1;
        let code: u8 = if e == T1Error::ChecksumError {
            1
        } else {
            2
        };
        let empty: [u8; 0] = [];
        assert(empty@ =~= Seq::<u8>::empty());
        T1Step::Send(encode_frame(self.nad, T1PCB::R(self.cseq, code), &empty))
    }

    /// The peer asked for the last I-block again.
    fn on_retransmit_request(&mut self, err: u8) -> (r: T1Step)
        requires
            old(self).wf(),
        ensures
            final(self).wf(),
            old(self).retries >= T1_RETRY_LIMIT ==> r == T1Step::Fail(
                T1Error::RCodeReceived(err),
            ) && *final(self) == *old(self),
            old(self).retries < T1_RETRY_LIMIT ==> r == T1Step::Resend && *final(self)
                == old(self).after_retry(),
    {
        if self.retries >= T1_RETRY_LIMIT {
            return T1Step::Fail(T1Error::RCodeReceived(err));
        }
        self.retries = self.retries + 1;
        T1Step::Resend
    }

    /// Answers an S-block request of the card.
    fn on_s_request(&mut self, code: T1SCode, inf: &[u8]) -> (r: T1Step)
        requires
            old(self).wf(),
            s_request_ok(code, inf@),
        ensures
            final(self).wf(),
            r matches T1Step::Send(v) && v@ == s_block(old(self).nad, code, true, inf@),
            *final(self) == old(self).after_s_request(code, inf@),
    {
        if code == T1SCode::WTX {
            self.wtx = inf[0];
        } else {
            self.ifsc = inf[0];
        }
        T1Step::Send(encode_frame(self.nad, T1PCB::S(code, true), inf))
    }
    /// The S(Resync, request) block with which the host resets both
    /// sequence counters.
    pub fn resync_request(&self) -> (r: Vec<u8>)
        ensures
            r@ == s_block(self.nad, T1SCode::Resync, false, seq![]),
    {
        let empty: [u8; 0] = [];
        assert(empty@ =~= Seq::<u8>::empty());
        encode_frame(self.nad, T1PCB::S(T1SCode::Resync, false), &empty)
    }

    /// Takes the card's answer to a resync request: an S(Resync, response)
    /// block restarts both sequence counters at 0.
    pub fn on_resync_response(&mut self, frame: &[u8]) -> (r: Result<(), T1Error>)
        requires
            old(self).wf(),
        ensures
            final(self).wf(),
            match spec_decode_frame(frame@) {
                Err(e) => r == Err::<(), T1Error>(e) && *final(self) == *old(self),
                Ok((_, pcb, _)) => if pcb == T1PCB::S(T1SCode::Resync, true) {
                    r is Ok && *final(self) == (T1State {
                        iseq: 0,
                        cseq: 0,
                        pending_ack: false,
                        retries: 0,
                        sent: Ghost(0),
                        ..*old(self)
                    })
                } else {
                    r == Err::<(), T1Error>(T1Error::ProtocolError) && *final(self) == *old(self)
                },
            },
    {
        let (h, _) = decode_frame(frame)?;
        if h.pcb != T1PCB::S(T1SCode::Resync, true) {
            return Err(T1Error::ProtocolError);
        }
        self.iseq = 0;
        self.cseq = 0;
        self.pending_ack = false;
        self.retries = 0;
        self.sent = Ghost(0);
        Ok(())
    }

    /// No block came within the waiting time: ask the card for it again with
    /// an R-block, or give up once the retransmissions are used up.
    pub fn on_read_timeout(&mut self) -> (r: T1Step)
        requires
            old(self).wf(),
        ensures
            final(self).wf(),
            bad_block_outcome(*old(self), *final(self), r, T1Error::ReceiveError),
    {
        self.on_bad_block(T1Error::ReceiveError)
    }

    /// Takes the card's answer to a non-final I-block of the host.
    pub fn on_chunk_reply(&mut self, frame: &[u8]) -> (r: T1Step)
        requires
            old(self).wf(),
        ensures
            final(self).wf(),
            match spec_decode_frame(frame@) {
                Err(e) => bad_block_outcome(*old(self), *final(self), r, e),
                Ok((_, pcb, inf)) => match pcb {
                    T1PCB::R(seq, err) => if err == 0 && seq != old(self).iseq {
                        r == T1Step::Acked && *final(self) == old(self).after_ack()
                    } else {
                        retransmit_outcome(*old(self), *final(self), r, err)
                    },
                    T1PCB::S(code, false) => s_request_outcome(
                        *old(self),
                        *final(self),
                        r,
                        code,
                        inf,
                    ),
                    _ => r == T1Step::Fail(T1Error::ProtocolError) && *final(self) == *old(self),
                },
            },
    {
        let (h, inf) = match decode_frame(frame) {
            Ok(x) => x,
            Err(e) => {
                return self.on_bad_block(e);
            },
        };
        match h.pcb {
            T1PCB::R(seq, err) => {
                if err == 0 && seq != self.iseq {
                    self.iseq = 1 - self.iseq;
                    self.retries = 0;
                    self.pending_ack = false;
                    self.sent = Ghost(self.sent@ + 1);
                    T1Step::Acked
                } else {
                    self.on_retransmit_request(err)
                }
            },
            T1PCB::S(code, false) => self.answer_s_request(code, inf),
            _ => T1Step::Fail(T1Error::ProtocolError),
        }
    }

    fn answer_s_request(&mut self, code: T1SCode, inf: &[u8]) -> (r: T1Step)
        requires
            old(self).wf(),
        ensures
            final(self).wf(),
            s_request_outcome(*old(self), *final(self), r, code, inf@),
    {
        let known = (code == T1SCode::WTX || code == T1SCode::IFS) && inf.len() == 1 && inf[0]
            > 0;
        if known {
            self.on_s_request(code, inf)
        } else {
            T1Step::Fail(T1Error::ProtocolError)
        }
    }

    /// Takes a block of the card while the host awaits its response, and
    /// appends the payload of an I-block to `buf` after the first `filled`
    /// bytes. Nothing is written past the end of `buf`: a payload that does
    /// not fit fails with the number of bytes that are missing.
    pub fn on_response_block(&mut self, frame: &[u8], buf: &mut [u8], filled: usize) -> (r: T1Step)
        requires
            old(self).wf(),
            filled <= old(buf)@.len(),
        ensures
            final(self).wf(),
            final(buf)@.len() == old(buf)@.len(),
            match spec_decode_frame(frame@) {
                Err(e) => bad_block_outcome(*old(self), *final(self), r, e) && final(buf)@ == old(
                    buf,
                )@,
                Ok((_, pcb, inf)) => match pcb {
                    T1PCB::I(seq, more) => if seq != old(self).cseq {
                        r == T1Step::Fail(T1Error::ProtocolError) && *final(self) == *old(self)
                            && final(buf)@ == old(buf)@
                    } else if filled + inf.len() > old(buf)@.len() {
                        r == T1Step::Fail(
                            T1Error::BufferOverrunError(
                                (filled + inf.len() - old(buf)@.len()) as usize,
                            ),
                        ) && *final(self) == *old(self) && final(buf)@ == old(buf)@
                    } else {
                        &&& final(buf)@ == old(buf)@.subrange(0, filled as int) + inf + old(
                            buf,
                        )@.subrange(filled + inf.len(), old(buf)@.len() as int)
                        &&& *final(self) == after_card_block(*old(self))
                        &&& if more {
                            r matches T1Step::Chained(m, v) && m == filled + inf.len() && v@
                                == r_block(old(self).nad, (1 - old(self).cseq) as u8, 0)
                        } else {
                            r == T1Step::Complete((filled + inf.len()) as usize)
                        }
                    },
                    T1PCB::R(_, err) => final(buf)@ == old(buf)@ && if old(self).pending_ack {
                        retransmit_outcome(*old(self), *final(self), r, err)
                    } else {
                        r == T1Step::Fail(T1Error::ProtocolError) && *final(self) == *old(self)
                    },
                    T1PCB::S(code, false) => final(buf)@ == old(buf)@ && s_request_outcome(
                        *old(self),
                        *final(self),
                        r,
                        code,
                        inf,
                    ),
                    _ => r == T1Step::Fail(T1Error::ProtocolError) && *final(self) == *old(self)
                        && final(buf)@ == old(buf)@,
                },
            },
    {
        let (h, inf) = match decode_frame(frame) {
            Ok(x) => x,
            Err(e) => {
                return self.on_bad_block(e);
            },
        };
        match h.pcb {
            T1PCB::I(seq, more) => {
                if seq != self.cseq {
                    return T1Step::Fail(T1Error::ProtocolError);
                }
                let n = inf.len();
                let cap = buf.len();
                if n > cap - filled {
                    return T1Step::Fail(T1Error::BufferOverrunError(n - (cap - filled)));
                }
                let ghost before = buf@;
                let mut j: usize = 0;
                while j < n
                    invariant
                        n == inf@.len(),
                        cap == buf@.len(),
                        filled + n <= cap,
                        buf@.len() == before.len(),
                        j <= n,
                        forall|k: int|
                            0 <= k < buf@.len() ==> #[trigger] buf@[k] == if filled <= k < filled
                                + j {
                                inf@[k - filled]
                            } else {
                                before[k]
                            },
                    decreases n - j,
                {
                    buf[filled + j] = inf[j];
                    j += 1;
                }
                assert(buf@ =~= before.subrange(0, filled as int) + inf@ + before.subrange(
                    filled + n,
                    before.len() as int,
                ));
                if self.pending_ack {
                    self.iseq = 1 - self.iseq;
                    self.pending_ack = false;
                    self.sent = Ghost(self.sent@ + 1);
                }
                self.cseq = 1 - self.cseq;
                self.retries = 0;
                if more {
                    let empty: [u8; 0] = [];
                    assert(empty@ =~= Seq::<u8>::empty());
                    T1Step::Chained(filled + n, encode_frame(self.nad, T1PCB::R(self.cseq, 0), &empty))
                } else {
                    T1Step::Complete(filled + n)
                }
            },
            T1PCB::R(_, err) => {
                if self.pending_ack {
                    self.on_retransmit_request(err)
                } else {
                    T1Step::Fail(T1Error::ProtocolError)
                }
            },
            T1PCB::S(code, false) => self.answer_s_request(code, inf),
            _ => T1Step::Fail(T1Error::ProtocolError),
        }
    }
}

/// The host's send-sequence bit counts its acknowledged I-blocks since the
/// last reset modulo 2, and each acknowledgement adds one to that count.
pub proof fn lemma_sequence_counts_acks(s: T1State)
    requires
        s.wf(),
    ensures
        s.iseq as nat == s.sent@ % 2,
        s.after_ack().wf(),
        s.after_ack().sent@ == s.sent@ + 1,
        s.after_ack().iseq as nat == (s.sent@ + 1) % 2,
{
}

/// What a receiver reads out of the chain of I-blocks that carries `b` from
/// offset `off` on, the first of them with sequence bit `seq`: the
/// information fields of the decoded blocks, one after the other.
pub open spec fn chain_payload(nad: u8, b: Seq<u8>, off: int, ifsc: u8, seq: u8) -> Seq<u8>
    decreases b.len() - off,
{
    if off < 0 || off >= b.len() || ifsc == 0 {
        seq![]
    } else {
        let end = chunk_end(off, b.len() as int, ifsc);
        let block = frame_bytes(nad, T1PCB::I(seq, end < b.len()).spec_into(), b.subrange(off, end));
        match spec_decode_frame(block) {
            Ok((_, _, inf)) => inf + chain_payload(nad, b, end, ifsc, (1 - seq) as u8),
            Err(_) => seq![],
        }
    }
}

/// Splitting an APDU into I-blocks of at most IFSC bytes and reading the
/// blocks back gives the APDU again.
pub proof fn lemma_chain_round_trip(nad: u8, b: Seq<u8>, ifsc: u8, seq: u8)
    requires
        ifsc >= 1,
        seq < 2,
    ensures
        chain_payload(nad, b, 0, ifsc, seq) == b,
{
    lemma_chain_from(nad, b, 0, ifsc, seq);
    assert(b.subrange(0, b.len() as int) =~= b);
}

proof fn lemma_chain_from(nad: u8, b: Seq<u8>, off: int, ifsc: u8, seq: u8)
    requires
        ifsc >= 1,
        seq < 2,
        0 <= off <= b.len(),
    ensures
        chain_payload(nad, b, off, ifsc, seq) == b.subrange(off, b.len() as int),
    decreases b.len() - off,
{
    if off == b.len() {
        assert(b.subrange(off, b.len() as int) =~= Seq::<u8>::empty());
    } else {
        let end = chunk_end(off, b.len() as int, ifsc);
        let pcb = T1PCB::I(seq, end < b.len());
        lemma_frame_round_trip(nad, pcb, b.subrange(off, end));
        lemma_chain_from(nad, b, end, ifsc, (1 - seq) as u8);
        assert(b.subrange(off, end) + b.subrange(end, b.len() as int) =~= b.subrange(
            off,
            b.len() as int,
        ));
    }
}

} // verus!
