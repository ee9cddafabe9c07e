use vstd::arithmetic::div_mod::lemma_add_mod_noop;
use vstd::prelude::*;

verus! {

/// A command understood by the GS2 lidar; each one is sent as a single byte.
pub enum YdlidarCmd {
    SyncByte,
    GetAddress,
    GetParameter,
    GetVersion,
    Scan,
    Stop,
    Reset,
    SetBias,
    SetDebugMode,
}

impl YdlidarCmd {
    /// The byte that encodes this command on the wire.
    pub open spec fn code(self) -> u8 {
        match self {
            YdlidarCmd::SyncByte => 0xA5,
            YdlidarCmd::GetAddress => 0x60,
            YdlidarCmd::GetParameter => 0x61,
            YdlidarCmd::GetVersion => 0x62,
            YdlidarCmd::Scan => 0x63,
            YdlidarCmd::Stop => 0x64,
            YdlidarCmd::Reset => 0x67,
            YdlidarCmd::SetBias => 0xD9,
            YdlidarCmd::SetDebugMode => 0xF0,
        }
    }

    /// The wire encoding of the command: one byte.
    pub fn as_bytes(&self) -> (bytes: &'static [u8])
        ensures
            bytes@ == seq![self.code()],
    {
        match self {
            YdlidarCmd::SyncByte => &[0xA5],
            YdlidarCmd::GetAddress => &[0x60],
            YdlidarCmd::GetParameter => &[0x61],
            YdlidarCmd::GetVersion => &[0x62],
            YdlidarCmd::Scan => &[0x63],
            YdlidarCmd::Stop => &[0x64],
            YdlidarCmd::Reset => &[0x67],
            YdlidarCmd::SetBias => &[0xD9],
            YdlidarCmd::SetDebugMode => &[0xF0],
        }
    }

    /// Wraps the command into a frame for `address`, carrying `packet` as payload
    /// (an empty payload when there is none).
    pub fn to_protocol(self, address: YdlidarAddress, packet: Option<&[u8]>) -> (p: YdlidarProtocol<'_>)
        requires
            payload_fits(packet),
        ensures
            p.address() == address,
            p.cmd() == self,
            p.packet() == payload_of(packet),
            p.size() == payload_of(packet).len(),
    {
        YdlidarProtocol::new(address, self, packet)
    }
}

/// The address of a lidar on a shared serial bus.
#[derive(Clone, Copy, Debug, PartialEq, Eq, Structural)]
pub enum YdlidarAddress {
    Broadcast,
    Device1,
    Device2,
    Device3,
}

impl YdlidarAddress {
    /// The byte that carries this address on the wire.
    pub open spec fn byte(self) -> u8 {
        match self {
            YdlidarAddress::Broadcast => 0x00,
            YdlidarAddress::Device1 => 0x01,
            YdlidarAddress::Device2 => 0x02,
            YdlidarAddress::Device3 => 0x04,
        }
    }

    /// The wire byte of this address.
    pub fn as_u8(self) -> (b: u8)
        ensures
            b == self.byte(),
    {
        match self {
            YdlidarAddress::Broadcast => 0x00,
            YdlidarAddress::Device1 => 0x01,
            YdlidarAddress::Device2 => 0x02,
            YdlidarAddress::Device3 => 0x04,
        }
    }
}

/// The address that a wire byte names, if any: only 0x00, 0x01, 0x02 and 0x04 do.
pub open spec fn address_from_byte(value: u8) -> Result<YdlidarAddress, ()> {
    if value == 0x00 {
        Ok(YdlidarAddress::Broadcast)
    } else if value == 0x01 {
        Ok(YdlidarAddress::Device1)
    } else if value == 0x02 {
        Ok(YdlidarAddress::Device2)
    } else if value == 0x04 {
        Ok(YdlidarAddress::Device3)
    } else {
        Err(())
    }
}

/// Whether a wire byte names an address.
pub open spec fn is_address_byte(value: u8) -> bool {
    address_from_byte(value) is Ok
}

impl TryFrom<u8> for YdlidarAddress {
    type Error = ();

    fn try_from(value: u8) -> (r: Result<Self, Self::Error>)
        ensures
            r == address_from_byte(value),
    {
        match value {
            0x00 => Ok(YdlidarAddress::Broadcast),
            0x01 => Ok(YdlidarAddress::Device1),
            0x02 => Ok(YdlidarAddress::Device2),
            0x04 => Ok(YdlidarAddress::Device3),
            _ => Err(()),
        }
    }
}

impl vstd::std_specs::convert::TryFromSpecImpl<u8> for YdlidarAddress {
    open spec fn obeys_try_from_spec() -> bool {
        true
    }

    open spec fn try_from_spec(value: u8) -> Result<Self, Self::Error> {
        address_from_byte(value)
    }
}

/* Protocol Format:
+-------------+---------+-------------+-------------------+--------------+--------------------+
|   HEADER    | ADDRESS | PACKET TYPE |   PACKET LENGTH   |    PACKET    |     CHECK CODE     |
+-------------+---------+-------------+-------------------+--------------+--------------------+
| A5 A5 A5 A5 |   0x0*  |     0x**    |(LSB)0x** (MSB)0x**|(Length)*0x** |   sum of the body  |
+-------------+---------+-------------+-------------------+--------------+--------------------+
*/

/// The sum of a sequence of bytes, as an unbounded integer.
pub open spec fn byte_sum(bytes: Seq<u8>) -> int
    decreases bytes.len(),
{
    if bytes.len() == 0 {
        0
    } else {
        byte_sum(bytes.drop_last()) + bytes.last()
    }
}

/// The check code of a frame body: the low byte of the sum of its bytes.
pub open spec fn checksum(bytes: Seq<u8>) -> u8 {
    (byte_sum(bytes) % 256) as u8
}

/// The four sync bytes that open every frame.
pub open spec fn sync_header() -> Seq<u8> {
    seq![0xA5u8, 0xA5u8, 0xA5u8, 0xA5u8]
}

/// The part of a frame that the check code covers: address, command,
/// payload length (low byte first) and payload.
pub open spec fn frame_body(address: u8, cmd: u8, size: u16, packet: Seq<u8>) -> Seq<u8> {
    seq![address, cmd, (size % 256) as u8, (size / 256) as u8] + packet
}

/// A whole frame: header, body, check code.
pub open spec fn frame(address: u8, cmd: u8, size: u16, packet: Seq<u8>) -> Seq<u8> {
    sync_header() + frame_body(address, cmd, size, packet) + seq![checksum(frame_body(address, cmd, size, packet))]
}

/// The payload that an optional packet stands for.
pub open spec fn payload_of(packet: Option<&[u8]>) -> Seq<u8> {
    match packet {
        Some(p) => p@,
        None => Seq::empty(),
    }
}

/// Whether an optional packet fits the two-byte length field.
pub open spec fn payload_fits(packet: Option<&[u8]>) -> bool {
    payload_of(packet).len() <= 0xFFFF
}

/// Adding one byte to a running check code.
pub proof fn lemma_checksum_push(bytes: Seq<u8>, b: u8)
    ensures
        checksum(Seq::<u8>::empty()) == 0,
        checksum(bytes.push(b)) == vstd::wrapping::u8_specs::wrapping_add(checksum(bytes), b),
        checksum(bytes.push(b)) == (checksum(bytes) + b) % 256,
{
    assert(bytes.push(b).drop_last() =~= bytes);
    lemma_add_mod_noop(byte_sum(bytes), b as int, 256);
}

/// Every address survives the trip through its wire byte, and a byte that
/// decodes to an address is that address's byte.
pub proof fn lemma_address_byte_roundtrip(address: YdlidarAddress, value: u8)
    ensures
        address_from_byte(address.byte()) == Ok::<YdlidarAddress, ()>(address),
        address_from_byte(value) == Ok::<YdlidarAddress, ()>(address) ==> address.byte() == value,
{
}

/// No two commands share a wire byte.
pub proof fn lemma_cmd_code_injective(a: YdlidarCmd, b: YdlidarCmd)
    ensures
        a.code() == b.code() ==> a == b,
{
}

/// A frame is nine bytes longer than its payload, opens with the sync bytes,
/// carries address, command and length in bytes 4 to 7, and ends with the
/// check code of everything between the sync bytes and itself.
pub proof fn lemma_frame_layout(address: u8, cmd: u8, size: u16, packet: Seq<u8>)
    ensures
        ({
            let f = frame(address, cmd, size, packet);
            &&& f.len() == packet.len() + 9
            &&& f.subrange(0, 4) == sync_header()
            &&& f[4] == address
            &&& f[5] == cmd
            &&& f[6] as int + 256 * f[7] as int == size
            &&& f.subrange(8, f.len() - 1) == packet
            &&& f[f.len() - 1] == checksum(f.subrange(4, f.len() - 1))
        }),
{
    let f = frame(address, cmd, size, packet);
    let body = frame_body(address, cmd, size, packet);
    assert(f.subrange(0, 4) =~= sync_header());
    assert(f.subrange(4, f.len() - 1) =~= body);
    assert(f.subrange(8, f.len() - 1) =~= packet);
}

/// A command frame addressed to one lidar.
pub struct YdlidarProtocol<'a> {
    address: YdlidarAddress,
    cmd: YdlidarCmd,
    size: u16,
    packet: &'a [u8],
}

impl<'a> YdlidarProtocol<'a> {
    /// The destination address.
    pub closed spec fn address(&self) -> YdlidarAddress {
        self.address
    }

    /// The command carried.
    pub closed spec fn cmd(&self) -> YdlidarCmd {
        self.cmd
    }

    /// The length field written into the frame.
    pub closed spec fn size(&self) -> u16 {
        self.size
    }

    /// The payload bytes.
    pub closed spec fn packet(&self) -> Seq<u8> {
        self.packet@
    }

    /// A frame for `cmd` to `address`; with no payload, the payload is empty and
    /// the length field 0; otherwise the length field is the payload length,
    /// which must fit in the field's two bytes.
    pub fn new(address: YdlidarAddress, cmd: YdlidarCmd, payload: Option<&'a [u8]>) -> (p: Self)
        requires
            payload_fits(payload),
        ensures
            p.address() == address,
            p.cmd() == cmd,
            p.packet() == payload_of(payload),
            p.size() == payload_of(payload).len(),
    {
        let (size, packet): (u16, &'a [u8]) = match payload {
            Some(a) => {
                let len: usize = a.len();
                (len as u16, a)
            },
            None => (0, &[]),
        };
        YdlidarProtocol { address, cmd, size, packet }
    }

    /// The bytes of the frame, ready to be written to the serial line.
    pub fn to_bytes(self) -> (buf: Vec<u8>)
        ensures
            buf@ == frame(self.address().byte(), self.cmd().code(), self.size(), self.packet()),
    {
        let mut buf: Vec<u8> = Vec::with_capacity(45);
        // sync bytes
        buf.push(0xA5);
        buf.push(0xA5);
        buf.push(0xA5);
        buf.push(0xA5);
        // address
        buf.push(self.address.as_u8());
        // command
        buf.extend_from_slice(self.cmd.as_bytes());
        // size, low byte first
        let size: u16 = self.size;
        let lo: u8 = (size & 0xFF) as u8;
        let hi: u8 = (size >> 8) as u8;
        assert(lo == size % 256 && hi == size / 256) by (bit_vector)
            requires
                lo == (size & 0xFF) as u8,
                hi == (size >> 8) as u8,
        ;
        buf.push(lo);
        buf.push(hi);
        // payload
        buf.extend_from_slice(self.packet);
        let ghost body = frame_body(self.address().byte(), self.cmd().code(), self.size(), self.packet());
        assert(buf@ =~= sync_header() + body);
        // check code over everything after the sync bytes
        let mut checksum_acc: u8 = 0;
        let mut i: usize = 4;
        let n: usize = buf.len();
        while i < n
            invariant
                4 <= i <= n,
                n == buf@.len(),
                buf@ == sync_header() + body,
                checksum_acc == checksum(buf@.subrange(4, i as int)),
            decreases n - i,
        {
            proof {
                lemma_checksum_push(buf@.subrange(4, i as int), buf@[i as int]);
                assert(buf@.subrange(4, i as int).push(buf@[i as int]) =~= buf@.subrange(4, i + 1));
            }
            checksum_acc = checksum_acc.wrapping_add(buf[i]);
            i = i + 1;
        }
        assert(buf@.subrange(4, n as int) =~= body);
        buf.push(checksum_acc);
        buf
    }
}

} // verus!
