use vstd::prelude::*;
use crate::error::RescueError;
use crate::uart::{pop_front, ReplyV, Uart};

verus! {

/// One scripted outcome for a pattern wait on the simulated transport.
#[derive(Debug)]
pub enum SimReply {
    /// The wait matches, with these captured groups. For acknowledgement
    /// patterns the convention is group 0 the diagnostic text, group 1 the
    /// status word.
    Matched(Vec<String>),
    /// The wait reaches its deadline without a match.
    TimedOut,
    /// The underlying read fails.
    Failed,
}

impl View for SimReply {
    type V = ReplyV;

    open spec fn view(&self) -> ReplyV {
        match self {
            SimReply::Matched(groups) => ReplyV::Matched(groups.deep_view()),
            SimReply::TimedOut => ReplyV::TimedOut,
            SimReply::Failed => ReplyV::Failed,
        }
    }
}

/// An in-memory transport standing in for the device side of the link: it
/// logs every byte written, tracks break and baud state, answers pattern
/// waits from a prepared script, and loops bulk-transfer payloads back — its
/// send and receive queues are one, so what the codec is handed is what it
/// later delivers.
pub struct SimUart {
    log: Vec<u8>,
    brk: bool,
    rate: u32,
    script: Vec<SimReply>,
    payloads: Vec<Vec<u8>>,
    reset_count: Ghost<nat>,
}

impl SimUart {
    /// A simulated transport at `rate` with nothing written, break clear, the
    /// given wait script, and an empty payload queue.
    pub fn new(rate: u32, script: Vec<SimReply>) -> (r: SimUart)
        ensures
            r.written() == Seq::<u8>::empty(),
            !r.break_on(),
            r.baud() == rate,
            r.pending() == Seq::new(script@.len(), |i: int| script@[i]@),
            r.resets() == 0,
            r.tx_queue() == Seq::<Seq<u8>>::empty(),
            r.rx_queue() == Seq::<Seq<u8>>::empty(),
    {
        let r = SimUart {
            log: Vec::new(),
            brk: false,
            rate,
            script,
            payloads: Vec::new(),
            reset_count: Ghost(0),
        };
        proof {
            assert(r.tx_queue() =~= Seq::<Seq<u8>>::empty());
        }
        r
    }

    /// Puts one payload in the queue ahead of time, as if the device had
    /// already been handed it for delivery.
    pub fn preload_payload(&mut self, data: Vec<u8>)
        ensures
            final(self).written() == old(self).written(),
            final(self).break_on() == old(self).break_on(),
            final(self).baud() == old(self).baud(),
            final(self).pending() == old(self).pending(),
            final(self).resets() == old(self).resets(),
            final(self).rx_queue() == old(self).rx_queue().push(data@),
            final(self).tx_queue() == old(self).tx_queue().push(data@),
    {
        self.payloads.push(data);
        proof {
            assert(self.rx_queue() =~~= old(self).rx_queue().push(self.payloads@.last()@));
        }
    }

    /// The bytes written so far, for inspection.
    pub fn bytes_written(&self) -> (r: &Vec<u8>)
        ensures
            r@ == self.written(),
    {
        &self.log
    }

    /// Whether the break condition is currently asserted, for inspection.
    pub fn break_is_on(&self) -> (r: bool)
        ensures
            r == self.break_on(),
    {
        self.brk
    }

    /// The host-side baud rate, for inspection.
    pub fn current_baud(&self) -> (r: u32)
        ensures
            r == self.baud(),
    {
        self.rate
    }

    /// How many scripted replies have not been consumed yet, for inspection.
    pub fn replies_left(&self) -> (r: usize)
        ensures
            r == self.pending().len(),
    {
        self.script.len()
    }

    /// How many payloads sit in the loopback queue, for inspection.
    pub fn payloads_left(&self) -> (r: usize)
        ensures
            r == self.rx_queue().len(),
    {
        self.payloads.len()
    }
}

impl Uart for SimUart {
    closed spec fn written(&self) -> Seq<u8> {
        self.log@
    }

    closed spec fn break_on(&self) -> bool {
        self.brk
    }

    closed spec fn baud(&self) -> u32 {
        self.rate
    }

    closed spec fn pending(&self) -> Seq<ReplyV> {
        Seq::new(self.script@.len(), |i: int| self.script@[i]@)
    }

    closed spec fn resets(&self) -> nat {
        self.reset_count@
    }

    closed spec fn tx_queue(&self) -> Seq<Seq<u8>> {
        self.payloads.deep_view()
    }

    closed spec fn rx_queue(&self) -> Seq<Seq<u8>> {
        self.payloads.deep_view()
    }

    fn write(&mut self, data: &[u8]) {
        self.log.extend_from_slice(data);
        proof {
            assert(self.log@ =~= old(self).log@ + data@);
        }
    }

    fn set_break(&mut self, on: bool) {
        self.brk = on;
    }

    fn set_baudrate(&mut self, baud: u32) {
        self.rate = baud;
    }

    fn reset_target(&mut self, _delay_ms: u64, _clear_rx: bool) {
        self.reset_count = Ghost(self.reset_count@ + 1);
    }

    fn wait_for(&mut self, _pattern: &[u8], _timeout_ms: u64) -> (r: Result<
        Vec<String>,
        RescueError,
    >) {
        if self.script.len() == 0 {
            Err(RescueError::Timeout)
        } else {
            let reply = self.script.remove(0);
            proof {
                assert(self.pending() =~= pop_front(old(self).pending()));
                assert(old(self).pending()[0] == reply@);
            }
            match reply {
                SimReply::Matched(groups) => Ok(groups),
                SimReply::TimedOut => Err(RescueError::Timeout),
                SimReply::Failed => Err(RescueError::Io),
            }
        }
    }

    fn codec_send(&mut self, data: &[u8]) -> (r: Result<(), RescueError>) {
        let mut owned: Vec<u8> = Vec::new();
        owned.extend_from_slice(data);
        proof {
            assert(owned@ =~= data@);
        }
        self.payloads.push(owned);
        proof {
            assert(self.tx_queue() =~~= old(self).tx_queue().push(data@));
        }
        Ok(())
    }

    fn codec_recv(&mut self) -> (r: Result<Vec<u8>, RescueError>) {
        if self.payloads.len() == 0 {
            Err(RescueError::Io)
        } else {
            let payload = self.payloads.remove(0);
            proof {
                assert(self.rx_queue() =~= old(self).rx_queue().skip(1));
                assert(payload@ == old(self).rx_queue()[0]);
            }
            Ok(payload)
        }
    }
}

/// Law: over a loopback transport, the bulk channel returns what was sent.
/// The hypotheses are what the session's `send` and `recv` contracts give for
/// two consecutive calls on a transport whose payload queue started empty:
/// the payload `send` pushed is exactly the payload `recv` then yields.
pub proof fn lemma_loopback_round_trip(
    before: SimUart,
    after_send: SimUart,
    data: Seq<u8>,
    received: Seq<u8>,
)
    requires
        before.tx_queue().len() == 0,
        after_send.tx_queue() == before.tx_queue().push(data),
        after_send.rx_queue().len() > 0 ==> received == after_send.rx_queue()[0],
    ensures
        received == data,
{
    assert(after_send.rx_queue() == after_send.tx_queue());
}

} // verus!
