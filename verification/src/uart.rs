use vstd::prelude::*;
use crate::error::RescueError;

verus! {

/// What one pattern wait yields, as the model sees it: the captured groups of
/// a match, a deadline that passed without one, or a failed transport read.
///
/// For the acknowledgement patterns of this protocol the convention of the
/// waiter is that group 0 carries the device's diagnostic text and group 1
/// the status word, `ok` or `error`.
pub enum ReplyV {
    Matched(Seq<Seq<char>>),
    TimedOut,
    Failed,
}

/// A sequence without its first element; the empty sequence stays empty.
pub open spec fn pop_front<A>(s: Seq<A>) -> Seq<A> {
    if s.len() == 0 {
        s
    } else {
        s.skip(1)
    }
}

/// Captured groups whose status word reads `error`.
pub open spec fn ack_is_error(gs: Seq<Seq<char>>) -> bool {
    gs.len() >= 2 && gs[1] == "error"@
}

/// The `Result` a raw pattern wait must hand back for a given reply: the
/// groups of a match, `Timeout` for a missed deadline, `Io` for a failed
/// read.
pub open spec fn wait_outcome_matches(rep: ReplyV, r: Result<Vec<String>, RescueError>) -> bool {
    match rep {
        ReplyV::Matched(gs) => r matches Ok(v) && v.deep_view() == gs,
        ReplyV::TimedOut => r matches Err(e) && e is Timeout,
        ReplyV::Failed => r matches Err(e) && e is Io,
    }
}

/// The `Result` a mode or baud command must produce for a given device
/// reply: success on an `ok` acknowledgement, `BadMode` carrying the
/// device's diagnostic text verbatim on an `error` one, and the wait's own
/// failure otherwise.
pub open spec fn cmd_result_matches(rep: ReplyV, r: Result<(), RescueError>) -> bool {
    match rep {
        ReplyV::Matched(gs) => if ack_is_error(gs) {
            r matches Err(RescueError::BadMode(m)) && m@ == gs[0]
        } else {
            r is Ok
        },
        ReplyV::TimedOut => r matches Err(e) && e is Timeout,
        ReplyV::Failed => r matches Err(e) && e is Io,
    }
}

/// The `Result` the rescue-entry banner wait must produce for a given reply:
/// any match means the banner arrived.
pub open spec fn entry_result_matches(rep: ReplyV, r: Result<(), RescueError>) -> bool {
    match rep {
        ReplyV::Matched(_) => r is Ok,
        ReplyV::TimedOut => r matches Err(e) && e is Timeout,
        ReplyV::Failed => r matches Err(e) && e is Io,
    }
}

/// An acknowledgement's captured groups turned into a command result:
/// `BadMode` carrying the diagnostic text (group 0) verbatim when the status
/// word (group 1) reads `error`, success otherwise.
pub fn ack_to_result(groups: Vec<String>) -> (r: Result<(), RescueError>)
    ensures
        cmd_result_matches(ReplyV::Matched(groups.deep_view()), r),
{
    if groups.len() >= 2 {
        let err_word: String = String::from_str("error");
        if groups[1] == err_word {
            proof {
                assert(groups.deep_view()[1] == groups@[1]@);
                assert(groups.deep_view()[0] == groups@[0]@);
            }
            let msg = groups[0].clone();
            return Err(RescueError::BadMode(msg));
        }
        proof {
            assert(groups.deep_view()[1] == groups@[1]@);
        }
    }
    Ok(())
}

/// The byte-serial transport together with the collaborators this protocol
/// consumes over it: the line-oriented pattern waiter, the target reset side
/// channel, and the bulk-transfer codec. Implementations drive the real link;
/// the contracts describe each call's effect on a ghost model of it.
pub trait Uart: Sized {
    /// Every byte handed to [`Uart::write`], oldest first.
    spec fn written(&self) -> Seq<u8>;

    /// Whether the break condition is asserted on the line.
    spec fn break_on(&self) -> bool;

    /// The host side's current baud rate.
    spec fn baud(&self) -> u32;

    /// The outcome of each future pattern wait, next one first.
    spec fn pending(&self) -> Seq<ReplyV>;

    /// How many times the target reset side channel was invoked.
    spec fn resets(&self) -> nat;

    /// The payloads handed to the bulk-transfer codec for sending, oldest
    /// first.
    spec fn tx_queue(&self) -> Seq<Seq<u8>>;

    /// The payloads the bulk-transfer codec will deliver, next one first.
    spec fn rx_queue(&self) -> Seq<Seq<u8>>;

    /// Writes raw bytes on the line.
    fn write(&mut self, data: &[u8])
        ensures
            final(self).written() == old(self).written() + data@,
            final(self).break_on() == old(self).break_on(),
            final(self).baud() == old(self).baud(),
            final(self).pending() == old(self).pending(),
            final(self).resets() == old(self).resets(),
            final(self).tx_queue() == old(self).tx_queue(),
            final(self).rx_queue() == old(self).rx_queue(),
    ;

    /// Asserts or deasserts the break condition.
    fn set_break(&mut self, on: bool)
        ensures
            final(self).written() == old(self).written(),
            final(self).break_on() == on,
            final(self).baud() == old(self).baud(),
            final(self).pending() == old(self).pending(),
            final(self).resets() == old(self).resets(),
            final(self).tx_queue() == old(self).tx_queue(),
            final(self).rx_queue() == old(self).rx_queue(),
    ;

    /// Switches the host side of the link to a new baud rate.
    fn set_baudrate(&mut self, baud: u32)
        ensures
            final(self).written() == old(self).written(),
            final(self).break_on() == old(self).break_on(),
            final(self).baud() == baud,
            final(self).pending() == old(self).pending(),
            final(self).resets() == old(self).resets(),
            final(self).tx_queue() == old(self).tx_queue(),
            final(self).rx_queue() == old(self).rx_queue(),
    ;

    /// Resets the target device, settling for `delay_ms` and clearing any
    /// buffered input when `clear_rx` is set.
    fn reset_target(&mut self, delay_ms: u64, clear_rx: bool)
        ensures
            final(self).written() == old(self).written(),
            final(self).break_on() == old(self).break_on(),
            final(self).baud() == old(self).baud(),
            final(self).pending() == old(self).pending(),
            final(self).resets() == old(self).resets() + 1,
            final(self).tx_queue() == old(self).tx_queue(),
            final(self).rx_queue() == old(self).rx_queue(),
    ;

    /// Blocks until device output matches the regular expression `pattern` or
    /// `timeout_ms` elapses; consumes the next pending reply and returns the
    /// captured groups of a match, `Timeout` past the deadline, `Io` on a
    /// failed read. With nothing pending the deadline passes unmet.
    fn wait_for(&mut self, pattern: &[u8], timeout_ms: u64) -> (r: Result<
        Vec<String>,
        RescueError,
    >)
        ensures
            final(self).written() == old(self).written(),
            final(self).break_on() == old(self).break_on(),
            final(self).baud() == old(self).baud(),
            final(self).pending() == pop_front(old(self).pending()),
            final(self).resets() == old(self).resets(),
            final(self).tx_queue() == old(self).tx_queue(),
            final(self).rx_queue() == old(self).rx_queue(),
            old(self).pending().len() == 0 ==> (r matches Err(e) && e is Timeout),
            old(self).pending().len() > 0 ==> wait_outcome_matches(old(self).pending()[0], r),
    ;

    /// Hands one payload to the bulk-transfer codec for sending over the
    /// link; the codec's framing, retries and checksums are its own business.
    fn codec_send(&mut self, data: &[u8]) -> (r: Result<(), RescueError>)
        ensures
            final(self).written() == old(self).written(),
            final(self).break_on() == old(self).break_on(),
            final(self).baud() == old(self).baud(),
            final(self).pending() == old(self).pending(),
            final(self).resets() == old(self).resets(),
            r is Ok ==> final(self).tx_queue() == old(self).tx_queue().push(data@),
            r is Err ==> final(self).tx_queue() == old(self).tx_queue(),
    ;

    /// Receives one payload through the bulk-transfer codec: the next one the
    /// link will deliver, or an error when there is none to be had.
    fn codec_recv(&mut self) -> (r: Result<Vec<u8>, RescueError>)
        ensures
            final(self).written() == old(self).written(),
            final(self).break_on() == old(self).break_on(),
            final(self).baud() == old(self).baud(),
            final(self).pending() == old(self).pending(),
            final(self).resets() == old(self).resets(),
            old(self).rx_queue().len() > 0 ==> (r matches Ok(d) && d@ == old(self).rx_queue()[0]
                && final(self).rx_queue() == old(self).rx_queue().skip(1)),
            old(self).rx_queue().len() == 0 ==> r is Err && final(self).rx_queue() == old(
                self,
            ).rx_queue(),
    ;
}

} // verus!
