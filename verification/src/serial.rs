use vstd::prelude::*;
use crate::baud::{baud_symbol, spec_baud_symbol, spec_supported_baud};
use crate::error::RescueError;
use crate::mode::{spec_tag_bytes, tag_bytes, RescueMode, BAUD_WORD, REBOOT_WORD, WAIT_WORD};
use crate::uart::{
    ack_is_error, ack_to_result, cmd_result_matches, entry_result_matches, pop_front, ReplyV, Uart,
};

verus! {

/// The five command bytes that select a mode: the four tag bytes and the
/// single carriage-return terminator.
pub open spec fn spec_mode_cmd(w: u32) -> Seq<u8> {
    spec_tag_bytes(w) + seq![13u8]
}

/// A reply acknowledging a command with `ok`.
pub open spec fn reply_is_ok_ack(rep: ReplyV) -> bool {
    rep matches ReplyV::Matched(gs) && !ack_is_error(gs)
}

/// A rescue session over one exclusively-owned transport: the handshake that
/// drops the device into rescue mode, the mode-command framing every
/// operation shares, baud-rate negotiation, and delegation of bulk payload
/// transfer.
///
/// The protocol is strictly request/response: at most one exchange is ever in
/// flight, and after any failure the device's protocol state is unspecified
/// until the session is entered again.
pub struct RescueSerial<U: Uart> {
    /// The transport and its collaborators, exclusively owned.
    pub uart: U,
    /// How long a target reset is allowed to settle, in milliseconds.
    pub reset_delay_ms: u64,
    /// The window within which the rescue banner must arrive, in
    /// milliseconds.
    pub enter_delay_ms: u64,
}

impl<U: Uart> RescueSerial<U> {
    /// A fresh session over `uart`, with the default 50 ms reset-settle delay
    /// and 5 s rescue-entry window.
    pub fn new(uart: U) -> (r: RescueSerial<U>)
        ensures
            r.uart == uart,
            r.reset_delay_ms == 50,
            r.enter_delay_ms == 5000,
    {
        RescueSerial { uart, reset_delay_ms: 50, enter_delay_ms: 5000 }
    }

    /// Selects a device mode: writes the tag's four raw bytes and a single
    /// carriage return as one logical command, then waits up to a second for
    /// the matching `mode:` acknowledgement. An `error` status fails with
    /// `BadMode` carrying the device's diagnostic text; a missed deadline is
    /// the distinct `Timeout` failure.
    pub fn set_mode(&mut self, mode: RescueMode) -> (r: Result<(), RescueError>)
        ensures
            final(self).reset_delay_ms == old(self).reset_delay_ms,
            final(self).enter_delay_ms == old(self).enter_delay_ms,
            final(self).uart.written() == old(self).uart.written() + spec_mode_cmd(mode.0),
            final(self).uart.break_on() == old(self).uart.break_on(),
            final(self).uart.baud() == old(self).uart.baud(),
            final(self).uart.resets() == old(self).uart.resets(),
            final(self).uart.tx_queue() == old(self).uart.tx_queue(),
            final(self).uart.rx_queue() == old(self).uart.rx_queue(),
            final(self).uart.pending() == pop_front(old(self).uart.pending()),
            old(self).uart.pending().len() == 0 ==> (r matches Err(e) && e is Timeout),
            old(self).uart.pending().len() > 0 ==> cmd_result_matches(
                old(self).uart.pending()[0],
                r,
            ),
    {
        let tag: [u8; 4] = tag_bytes(mode);
        self.uart.write(tag.as_slice());
        let terminator: [u8; 1] = [13u8];
        self.uart.write(terminator.as_slice());
        proof {
            assert(self.uart.written() =~= old(self).uart.written() + spec_mode_cmd(mode.0));
        }
        let mut pattern: Vec<u8> = Vec::new();
        pattern.extend_from_slice("mode: ".as_bytes());
        pattern.extend_from_slice(tag.as_slice());
        pattern.extend_from_slice("\r\n(ok|error):.*\r\n".as_bytes());
        match self.uart.wait_for(pattern.as_slice(), 1000) {
            Ok(groups) => ack_to_result(groups),
            Err(e) => Err(e),
        }
    }

    /// Negotiates a new baud rate. A rate outside the supported set fails
    /// with `BadMode` before any byte is sent. Otherwise the reserved `BAUD`
    /// mode is selected, the four-byte baud symbol is written with no
    /// terminator, and only after the device acknowledges `ok` does the host
    /// switch its own side of the link to the new rate — the device is
    /// assumed to have switched upon sending that acknowledgement.
    pub fn set_speed(&mut self, baud: u32) -> (r: Result<(), RescueError>)
        ensures
            final(self).reset_delay_ms == old(self).reset_delay_ms,
            final(self).enter_delay_ms == old(self).enter_delay_ms,
            final(self).uart.break_on() == old(self).uart.break_on(),
            final(self).uart.resets() == old(self).uart.resets(),
            final(self).uart.tx_queue() == old(self).uart.tx_queue(),
            final(self).uart.rx_queue() == old(self).uart.rx_queue(),
            !spec_supported_baud(baud) ==> ({
                &&& (r matches Err(RescueError::BadMode(m)) && m@ == "unsupported baud rate"@)
                &&& final(self).uart == old(self).uart
            }),
            spec_baud_symbol(baud) matches Some(sym) ==> ({
                let p = old(self).uart.pending();
                let w = old(self).uart.written();
                &&& (p.len() == 0 ==> {
                    &&& (r matches Err(e) && e is Timeout)
                    &&& final(self).uart.written() == w + spec_mode_cmd(BAUD_WORD)
                    &&& final(self).uart.pending() == p
                    &&& final(self).uart.baud() == old(self).uart.baud()
                })
                &&& ((p.len() > 0 && !reply_is_ok_ack(p[0])) ==> {
                    &&& cmd_result_matches(p[0], r)
                    &&& final(self).uart.written() == w + spec_mode_cmd(BAUD_WORD)
                    &&& final(self).uart.pending() == p.skip(1)
                    &&& final(self).uart.baud() == old(self).uart.baud()
                })
                &&& ((p.len() > 0 && reply_is_ok_ack(p[0])) ==> {
                    &&& final(self).uart.written() == w + spec_mode_cmd(BAUD_WORD) + sym
                    &&& final(self).uart.pending() == pop_front(p.skip(1))
                    &&& (p.len() == 1 ==> {
                        &&& (r matches Err(e) && e is Timeout)
                        &&& final(self).uart.baud() == old(self).uart.baud()
                    })
                    &&& (p.len() >= 2 ==> {
                        &&& cmd_result_matches(p[1], r)
                        &&& (reply_is_ok_ack(p[1]) ==> final(self).uart.baud() == baud)
                        &&& (!reply_is_ok_ack(p[1]) ==> final(self).uart.baud()
                            == old(self).uart.baud())
                    })
                })
            }),
    {
        let symbol: [u8; 4] = match baud_symbol(baud) {
            Some(s) => s,
            None => {
                return Err(RescueError::BadMode(String::from_str("unsupported baud rate")));
            },
        };
        match self.set_mode(RescueMode::baud()) {
            Ok(()) => {},
            Err(e) => {
                return Err(e);
            },
        }
        self.uart.write(symbol.as_slice());
        let groups = match self.uart.wait_for("(ok|error):.*\\r\\n".as_bytes(), 1000) {
            Ok(groups) => groups,
            Err(e) => {
                return Err(e);
            },
        };
        match ack_to_result(groups) {
            Ok(()) => {},
            Err(e) => {
                return Err(e);
            },
        }
        self.uart.set_baudrate(baud);
        Ok(())
    }

    /// Enters rescue mode: asserts a break condition, optionally resets the
    /// target with the session's settle delay (clearing buffered input), and
    /// waits for the `rescue:` banner within the entry window. The break
    /// condition is deasserted again on every outcome, missed banner
    /// included. One optional `(ok|error):` line is then consumed best-effort
    /// within a second and discarded; its absence is no error.
    pub fn enter(&mut self, reset_target: bool) -> (r: Result<(), RescueError>)
        ensures
            final(self).reset_delay_ms == old(self).reset_delay_ms,
            final(self).enter_delay_ms == old(self).enter_delay_ms,
            final(self).uart.written() == old(self).uart.written(),
            final(self).uart.baud() == old(self).uart.baud(),
            final(self).uart.tx_queue() == old(self).uart.tx_queue(),
            final(self).uart.rx_queue() == old(self).uart.rx_queue(),
            !final(self).uart.break_on(),
            final(self).uart.resets() == old(self).uart.resets() + (if reset_target {
                1nat
            } else {
                0nat
            }),
            old(self).uart.pending().len() == 0 ==> ({
                &&& (r matches Err(e) && e is Timeout)
                &&& final(self).uart.pending() == old(self).uart.pending()
            }),
            old(self).uart.pending().len() > 0 ==> ({
                let p = old(self).uart.pending();
                &&& entry_result_matches(p[0], r)
                &&& (p[0] is Matched ==> final(self).uart.pending() == pop_front(p.skip(1)))
                &&& (!(p[0] is Matched) ==> final(self).uart.pending() == p.skip(1))
            }),
    {
        self.uart.set_break(true);
        if reset_target {
            self.uart.reset_target(self.reset_delay_ms, true);
        }
        match self.uart.wait_for("rescue:.*\\r\\n".as_bytes(), self.enter_delay_ms) {
            Ok(_groups) => {},
            Err(e) => {
                self.uart.set_break(false);
                return Err(e);
            },
        }
        self.uart.set_break(false);
        let _ = self.uart.wait_for("(ok|error):.*\\r\\n".as_bytes(), 1000);
        Ok(())
    }

    /// Selects the reserved idle/hold mode, with the error semantics of
    /// [`RescueSerial::set_mode`].
    pub fn wait(&mut self) -> (r: Result<(), RescueError>)
        ensures
            final(self).reset_delay_ms == old(self).reset_delay_ms,
            final(self).enter_delay_ms == old(self).enter_delay_ms,
            final(self).uart.written() == old(self).uart.written() + spec_mode_cmd(WAIT_WORD),
            final(self).uart.break_on() == old(self).uart.break_on(),
            final(self).uart.baud() == old(self).uart.baud(),
            final(self).uart.resets() == old(self).uart.resets(),
            final(self).uart.tx_queue() == old(self).uart.tx_queue(),
            final(self).uart.rx_queue() == old(self).uart.rx_queue(),
            final(self).uart.pending() == pop_front(old(self).uart.pending()),
            old(self).uart.pending().len() == 0 ==> (r matches Err(e) && e is Timeout),
            old(self).uart.pending().len() > 0 ==> cmd_result_matches(
                old(self).uart.pending()[0],
                r,
            ),
    {
        self.set_mode(RescueMode::wait())
    }

    /// Selects the reserved reboot mode: the device resets and leaves rescue.
    /// Error semantics are those of [`RescueSerial::set_mode`].
    pub fn reboot(&mut self) -> (r: Result<(), RescueError>)
        ensures
            final(self).reset_delay_ms == old(self).reset_delay_ms,
            final(self).enter_delay_ms == old(self).enter_delay_ms,
            final(self).uart.written() == old(self).uart.written() + spec_mode_cmd(REBOOT_WORD),
            final(self).uart.break_on() == old(self).uart.break_on(),
            final(self).uart.baud() == old(self).uart.baud(),
            final(self).uart.resets() == old(self).uart.resets(),
            final(self).uart.tx_queue() == old(self).uart.tx_queue(),
            final(self).uart.rx_queue() == old(self).uart.rx_queue(),
            final(self).uart.pending() == pop_front(old(self).uart.pending()),
            old(self).uart.pending().len() == 0 ==> (r matches Err(e) && e is Timeout),
            old(self).uart.pending().len() > 0 ==> cmd_result_matches(
                old(self).uart.pending()[0],
                r,
            ),
    {
        self.set_mode(RescueMode::reboot())
    }

    /// Sends one payload through the bulk-transfer codec. The caller is
    /// expected to have selected a destination mode first; the codec's
    /// reliability mechanism is entirely its own.
    pub fn send(&mut self, data: &[u8]) -> (r: Result<(), RescueError>)
        ensures
            final(self).reset_delay_ms == old(self).reset_delay_ms,
            final(self).enter_delay_ms == old(self).enter_delay_ms,
            final(self).uart.written() == old(self).uart.written(),
            final(self).uart.break_on() == old(self).uart.break_on(),
            final(self).uart.baud() == old(self).uart.baud(),
            final(self).uart.pending() == old(self).uart.pending(),
            final(self).uart.resets() == old(self).uart.resets(),
            r is Ok ==> final(self).uart.tx_queue() == old(self).uart.tx_queue().push(data@),
            r is Err ==> final(self).uart.tx_queue() == old(self).uart.tx_queue(),
    {
        self.uart.codec_send(data)
    }

    /// Receives one payload through the bulk-transfer codec: the next one the
    /// link will deliver, unchanged.
    pub fn recv(&mut self) -> (r: Result<Vec<u8>, RescueError>)
        ensures
            final(self).reset_delay_ms == old(self).reset_delay_ms,
            final(self).enter_delay_ms == old(self).enter_delay_ms,
            final(self).uart.written() == old(self).uart.written(),
            final(self).uart.break_on() == old(self).uart.break_on(),
            final(self).uart.baud() == old(self).uart.baud(),
            final(self).uart.pending() == old(self).uart.pending(),
            final(self).uart.resets() == old(self).uart.resets(),
            old(self).uart.rx_queue().len() > 0 ==> ({
                &&& (r matches Ok(d) && d@ == old(self).uart.rx_queue()[0])
                &&& final(self).uart.rx_queue() == old(self).uart.rx_queue().skip(1)
            }),
            old(self).uart.rx_queue().len() == 0 ==> ({
                &&& r is Err
                &&& final(self).uart.rx_queue() == old(self).uart.rx_queue()
            }),
    {
        self.uart.codec_recv()
    }
}

} // verus!
