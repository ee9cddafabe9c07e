use vstd::prelude::*;

use crate::ydlidar::ydlidar_cmd::{
    address_from_byte, byte_sum, checksum, frame, is_address_byte, lemma_address_byte_roundtrip,
    lemma_checksum_push, lemma_frame_layout, YdlidarAddress, YdlidarCmd,
};

verus! {

/// The state of a GS2 lidar link: the address that outgoing commands carry.
/// The serial port and the clock stay with the caller, which writes the bytes
/// that these methods compute and hands back what it reads.
pub struct Ydlidar {
    address: YdlidarAddress,
}

/// What can go wrong on the link: an error of the serial port, a read that
/// waited too long, or a reply whose check code does not match.
#[derive(Debug, PartialEq, Eq)]
pub enum YdlidarError<E> {
    Uart(E),
    Timeout,
    ChecksumError,
}

/// How far a fixed-size read has got: `filled` of `len` bytes, begun at
/// `start_ms`, to give up once more than `timeout_ms` pass without data.
#[derive(Clone, Copy, Debug, PartialEq, Eq)]
pub struct ReadProgress {
    pub filled: usize,
    pub len: usize,
    pub start_ms: u64,
    pub timeout_ms: u64,
}

/// What one read of the serial port gave: some bytes, nothing (with the clock
/// reading at that moment), or a port error.
#[derive(Debug, PartialEq, Eq)]
pub enum ReadOutcome<E> {
    Data(usize),
    Nothing(u64),
    Failed(E),
}

/// The bytes of a raw command on the serial line: the command, the payload, and
/// the low byte of the sum of both.
pub open spec fn uart_frame(cmd: u8, payload: Seq<u8>) -> Seq<u8> {
    seq![cmd] + payload + seq![checksum(seq![cmd] + payload)]
}

/// Whether a nine-byte reply carries the right check code: the low byte of the
/// sum of bytes 4 to 7 equals byte 8.
pub open spec fn reply_checksum_ok(reply: Seq<u8>) -> bool {
    checksum(reply.subrange(4, 8)) == reply[8]
}

/// Whether a read has filled its whole buffer, at which point it is done.
pub open spec fn read_complete(progress: ReadProgress) -> bool {
    progress.filled >= progress.len
}

impl ReadProgress {
    /// Whether the read is done: every byte of the buffer has arrived. A read
    /// loop stops here with success, and takes another step otherwise.
    pub fn is_complete(&self) -> (done: bool)
        ensures
            done == read_complete(*self),
            done == (self.filled >= self.len),
    {
        self.filled >= self.len
    }
}

/// Time elapsed since `start_ms`, floored at zero.
pub open spec fn elapsed_ms(start_ms: u64, now_ms: u64) -> int {
    if now_ms >= start_ms {
        now_ms - start_ms
    } else {
        0
    }
}

/// The check code of a raw command is the low byte of the sum of every byte
/// before it.
pub proof fn lemma_uart_frame_check_code(cmd: u8, payload: Seq<u8>)
    ensures
        ({
            let f = uart_frame(cmd, payload);
            &&& f.len() == payload.len() + 2
            &&& f[0] == cmd
            &&& f.subrange(1, f.len() - 1) == payload
            &&& f[f.len() - 1] == checksum(f.subrange(0, f.len() - 1))
        }),
{
    let f = uart_frame(cmd, payload);
    assert(f.subrange(1, f.len() - 1) =~= payload);
    assert(f.subrange(0, f.len() - 1) =~= seq![cmd] + payload);
}

/// A frame without payload, as this library builds it, passes the reply check
/// and yields the address it was built for.
pub proof fn lemma_own_frame_is_valid_reply(address: YdlidarAddress, cmd: YdlidarCmd)
    ensures
        ({
            let f = frame(address.byte(), cmd.code(), 0, Seq::empty());
            &&& f.len() == 9
            &&& reply_checksum_ok(f)
            &&& address_from_byte(f[4]) == Ok::<YdlidarAddress, ()>(address)
        }),
{
    lemma_frame_layout(address.byte(), cmd.code(), 0, Seq::empty());
    lemma_address_byte_roundtrip(address, 0);
}

proof fn lemma_byte_sum_four(s: Seq<u8>)
    requires
        s.len() == 4,
    ensures
        byte_sum(s) == s[0] + s[1] + s[2] + s[3],
{
    let s3 = s.drop_last();
    let s2 = s3.drop_last();
    let s1 = s2.drop_last();
    let s0 = s1.drop_last();
    assert(s0.len() == 0);
    assert(byte_sum(s0) == 0);
    assert(s1.last() == s[0] && s2.last() == s[1] && s3.last() == s[2] && s.last() == s[3]);
    assert(byte_sum(s1) == s[0]);
    assert(byte_sum(s2) == s[0] + s[1]);
    assert(byte_sum(s3) == s[0] + s[1] + s[2]);
}

/// The reply check, spelled out: the low byte of the sum of bytes 4 to 7 must
/// equal byte 8.
pub proof fn lemma_reply_check_is_byte_sum(reply: Seq<u8>)
    requires
        reply.len() == 9,
    ensures
        reply_checksum_ok(reply) <==> (reply[4] + reply[5] + reply[6] + reply[7]) % 256 == reply[8],
{
    let a = reply.subrange(4, 8);
    lemma_byte_sum_four(a);
}

/// A valid reply in which any one byte of the checked part (bytes 4 to 8)
/// is changed no longer passes the reply check.
pub proof fn lemma_reply_detects_one_byte_change(reply: Seq<u8>, i: int, value: u8)
    requires
        reply.len() == 9,
        reply_checksum_ok(reply),
        4 <= i < 9,
        value != reply[i],
    ensures
        !reply_checksum_ok(reply.update(i, value)),
{
    let changed = reply.update(i, value);
    let a = reply.subrange(4, 8);
    let b = changed.subrange(4, 8);
    lemma_byte_sum_four(a);
    lemma_byte_sum_four(b);
    if i < 8 {
        assert(b =~= a.update(i - 4, value));
        assert(byte_sum(b) == byte_sum(a) - reply[i] + value);
    } else {
        assert(b =~= a);
    }
}

/// The elapsed time is the plain difference of the two clock readings when
/// the clock has not gone back, and zero when it has.
pub proof fn lemma_elapsed_is_clock_difference(start_ms: u64, now_ms: u64)
    ensures
        now_ms >= start_ms ==> start_ms + elapsed_ms(start_ms, now_ms) == now_ms,
        now_ms < start_ms ==> elapsed_ms(start_ms, now_ms) == 0,
{
}

impl Ydlidar {
    /// The address that outgoing commands carry.
    pub closed spec fn address(&self) -> YdlidarAddress {
        self.address
    }

    /// A link that addresses every device on the bus.
    pub fn new() -> (lidar: Self)
        ensures
            lidar.address() == YdlidarAddress::Broadcast,
    {
        Ydlidar { address: YdlidarAddress::Broadcast }
    }

    /// Addresses later commands to `address`.
    pub fn config_address(&mut self, address: YdlidarAddress)
        ensures
            final(self).address() == address,
    {
        self.address = address;
    }

    /// The bytes of a raw command: `cmd`, then `payload`, then their check code.
    pub fn send_uart(&self, cmd: u8, payload: &[u8]) -> (bytes: Vec<u8>)
        ensures
            bytes@ == uart_frame(cmd, payload@),
    {
        let mut bytes: Vec<u8> = Vec::new();
        let mut checksum_acc: u8 = cmd;
        bytes.push(cmd);
        proof {
            lemma_checksum_push(Seq::empty(), cmd);
            assert(Seq::<u8>::empty().push(cmd) =~= seq![cmd]);
        }
        let n: usize = payload.len();
        let mut i: usize = 0;
        while i < n
            invariant
                i <= n,
                n == payload@.len(),
                bytes@ == seq![cmd] + payload@.subrange(0, i as int),
                checksum_acc == checksum(bytes@),
            decreases n - i,
        {
            let b: u8 = payload[i];
            proof {
                lemma_checksum_push(bytes@, b);
            }
            checksum_acc = checksum_acc.wrapping_add(b);
            bytes.push(b);
            i = i + 1;
            assert(bytes@ =~= seq![cmd] + payload@.subrange(0, i as int));
        }
        assert(payload@.subrange(0, n as int) =~= payload@);
        bytes.push(checksum_acc);
        bytes
    }

    /// The frame for `cmd` to the configured address, with no payload.
    pub fn send_command(&self, cmd: YdlidarCmd) -> (bytes: Vec<u8>)
        ensures
            bytes@ == frame(self.address().byte(), cmd.code(), 0, Seq::empty()),
    {
        let protocol = cmd.to_protocol(self.address, None);
        protocol.to_bytes()
    }

    /// The frame for `cmd` to the configured address, carrying `packet`, whose
    /// length must fit the frame's two-byte length field.
    pub fn send_command_packet(&self, cmd: YdlidarCmd, packet: &[u8]) -> (bytes: Vec<u8>)
        requires
            packet@.len() <= 0xFFFF,
        ensures
            bytes@ == frame(self.address().byte(), cmd.code(), packet@.len() as u16, packet@),
    {
        let protocol = cmd.to_protocol(self.address, Some(packet));
        protocol.to_bytes()
    }

    /// The first half of an address query: falls back to the broadcast address
    /// and gives the query frame to send.
    pub fn prepare_get_address(&mut self) -> (bytes: Vec<u8>)
        ensures
            final(self).address() == YdlidarAddress::Broadcast,
            bytes@ == frame(0x00, 0x60, 0, Seq::empty()),
    {
        self.address = YdlidarAddress::Broadcast;
        self.send_command(YdlidarCmd::GetAddress)
    }

    /// Whether a nine-byte reply carries the right check code in byte 8.
    pub fn reply_checksum_matches(reply: &[u8; 9]) -> (ok: bool)
        ensures
            ok == reply_checksum_ok(reply@),
    {
        let mut checksum_acc: u8 = 0;
        let mut i: usize = 4;
        while i < 8
            invariant
                4 <= i <= 8,
                reply@.len() == 9,
                checksum_acc == checksum(reply@.subrange(4, i as int)),
            decreases 8 - i,
        {
            proof {
                lemma_checksum_push(reply@.subrange(4, i as int), reply@[i as int]);
                assert(reply@.subrange(4, i as int).push(reply@[i as int]) =~= reply@.subrange(4, i + 1));
            }
            checksum_acc = checksum_acc.wrapping_add(reply[i]);
            i = i + 1;
        }
        checksum_acc == reply[8]
    }

    /// The second half of an address query: checks the nine-byte reply and, when
    /// its check code matches, adopts the address in byte 4 and returns it.
    pub fn get_address<E>(&mut self, reply: &[u8; 9]) -> (r: Result<YdlidarAddress, YdlidarError<E>>)
        requires
            reply_checksum_ok(reply@) ==> is_address_byte(reply@[4]),
        ensures
            !reply_checksum_ok(reply@) ==> r == Err::<YdlidarAddress, YdlidarError<E>>(
                YdlidarError::ChecksumError,
            ) && final(self).address() == old(self).address(),
            reply_checksum_ok(reply@) ==> address_from_byte(reply@[4]) == Ok::<YdlidarAddress, ()>(
                r->Ok_0,
            ) && r is Ok && final(self).address() == r->Ok_0,
    {
        if !Self::reply_checksum_matches(reply) {
            return Err(YdlidarError::ChecksumError);
        }
        match YdlidarAddress::try_from(reply[4]) {
            Ok(address) => {
                self.address = address;
                Ok(address)
            },
            // the precondition rules out a matching reply without an address byte
            Err(()) => vstd::pervasive::unreached(),
        }
    }

    /// One step of a fixed-size read with a timeout: `Data(n)` adds `n` bytes,
    /// `Nothing(now)` fails with `Timeout` once more than `timeout_ms` have
    /// passed since `start_ms` and otherwise leaves the progress as it was, and
    /// `Failed(e)` fails with `Uart(e)`.
    pub fn read_exact_with_timeout<E>(progress: ReadProgress, outcome: ReadOutcome<E>) -> (r: Result<
        ReadProgress,
        YdlidarError<E>,
    >)
        requires
            progress.filled <= progress.len,
            outcome matches ReadOutcome::Data(n) ==> n <= progress.len - progress.filled,
        ensures
            match outcome {
                ReadOutcome::Data(n) => r == Ok::<ReadProgress, YdlidarError<E>>(
                    (ReadProgress { filled: (progress.filled + n) as usize, ..progress }),
                ),
                ReadOutcome::Nothing(now_ms) => if (now_ms >= progress.start_ms && now_ms - progress.start_ms
                    > progress.timeout_ms) {
                    r == Err::<ReadProgress, YdlidarError<E>>(YdlidarError::Timeout)
                } else {
                    r == Ok::<ReadProgress, YdlidarError<E>>(progress)
                },
                ReadOutcome::Failed(e) => r == Err::<ReadProgress, YdlidarError<E>>(
                    YdlidarError::Uart(e),
                ),
            },
            outcome matches ReadOutcome::Nothing(now_ms) ==> (r is Err <==> elapsed_ms(
                progress.start_ms,
                now_ms,
            ) > progress.timeout_ms),
            r matches Ok(p) ==> p.len == progress.len && p.start_ms == progress.start_ms
                && p.timeout_ms == progress.timeout_ms && progress.filled <= p.filled <= p.len
                && (read_complete(p) <==> p.filled == p.len),
    {
        match outcome {
            ReadOutcome::Nothing(now_ms) => {
                // nothing arrived: check the timeout
                if now_ms.saturating_sub(progress.start_ms) > progress.timeout_ms {
                    Err(YdlidarError::Timeout)
                } else {
                    Ok(progress)
                }
            },
            ReadOutcome::Data(n) => Ok(ReadProgress { filled: progress.filled + n, ..progress }),
            ReadOutcome::Failed(e) => Err(YdlidarError::Uart(e)),
        }
    }
}

} // verus!
