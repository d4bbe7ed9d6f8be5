//! The HF2 transport: commands, responses, and how a message is cut into
//! HID packets of at most 64 bytes and put together again.
use crate::codec::{
    gread_u16, gread_u8, gwrite_u16, gwrite_u32, gwrite_u8, splice, u16_at, u16_bytes, u32_bytes,
    Endian,
};
use crate::error::Error;
use vstd::prelude::*;

verus! {

/// The status a device puts in the header of a response.
#[derive(Debug, PartialEq, Eq, Structural)]
pub enum CommandResponseStatus {
    /// command understood and executed correctly
    Success,
    /// command not understood
    ParseError,
    /// command execution error
    ExecutionError,
}

/// The status that a status byte stands for.
pub open spec fn spec_status(val: u8) -> Result<CommandResponseStatus, Error> {
    if val == 0 {
        Ok(CommandResponseStatus::Success)
    } else if val == 1 {
        Ok(CommandResponseStatus::ParseError)
    } else if val == 2 {
        Ok(CommandResponseStatus::ExecutionError)
    } else {
        Err(Error::Parse)
    }
}

impl TryFrom<u8> for CommandResponseStatus {
    type Error = Error;

    fn try_from(val: u8) -> (r: Result<Self, Self::Error>) {
        match val {
            0 => Ok(CommandResponseStatus::Success),
            1 => Ok(CommandResponseStatus::ParseError),
            2 => Ok(CommandResponseStatus::ExecutionError),
            _ => Err(Error::Parse),
        }
    }
}

impl vstd::std_specs::convert::TryFromSpecImpl<u8> for CommandResponseStatus {
    open spec fn obeys_try_from_spec() -> bool {
        true
    }

    open spec fn try_from_spec(val: u8) -> Result<Self, Error> {
        spec_status(val)
    }
}

/// The kind of a HID packet, in the two high bits of its first byte.
#[derive(Debug, PartialEq, Eq, Structural)]
pub enum PacketType {
    /// Inner packet of a command message
    Inner,
    /// Final packet of a command message
    Final,
    /// Serial stdout
    StdOut,
    /// Serial stderr
    Stderr,
}

/// The number that stands for a packet type.
pub open spec fn packet_code(t: PacketType) -> int {
    match t {
        PacketType::Inner => 0,
        PacketType::Final => 1,
        PacketType::StdOut => 2,
        PacketType::Stderr => 3,
    }
}

/// The packet type that a number stands for.
pub open spec fn spec_packet_type(val: u8) -> Result<PacketType, Error> {
    if val == 0 {
        Ok(PacketType::Inner)
    } else if val == 1 {
        Ok(PacketType::Final)
    } else if val == 2 {
        Ok(PacketType::StdOut)
    } else if val == 3 {
        Ok(PacketType::Stderr)
    } else {
        Err(Error::Parse)
    }
}

impl TryFrom<u8> for PacketType {
    type Error = Error;

    fn try_from(val: u8) -> (r: Result<Self, Self::Error>) {
        match val {
            0 => Ok(PacketType::Inner),
            1 => Ok(PacketType::Final),
            2 => Ok(PacketType::StdOut),
            3 => Ok(PacketType::Stderr),
            _ => Err(Error::Parse),
        }
    }
}

impl vstd::std_specs::convert::TryFromSpecImpl<u8> for PacketType {
    open spec fn obeys_try_from_spec() -> bool {
        true
    }

    open spec fn try_from_spec(val: u8) -> Result<Self, Error> {
        spec_packet_type(val)
    }
}

/// The status bytes 0, 1 and 2 stand for success, a parse error and an execution error;
/// every other byte is refused with `Parse`.
pub proof fn lemma_status_values(v: u8)
    ensures
        spec_status(v) == Ok::<CommandResponseStatus, Error>(CommandResponseStatus::Success)
            <==> v == 0,
        spec_status(v) == Ok::<CommandResponseStatus, Error>(CommandResponseStatus::ParseError)
            <==> v == 1,
        spec_status(v) == Ok::<CommandResponseStatus, Error>(
            CommandResponseStatus::ExecutionError,
        ) <==> v == 2,
        v > 2 ==> spec_status(v) == Err::<CommandResponseStatus, Error>(Error::Parse),
{
}

/// The packet type numbers 0 to 3 stand for inner, final, stdout and stderr packets,
/// each type has its own number, and every other number is refused with `Parse`.
pub proof fn lemma_packet_type_values(v: u8)
    ensures
        spec_packet_type(v) == Ok::<PacketType, Error>(PacketType::Inner) <==> v == 0,
        spec_packet_type(v) == Ok::<PacketType, Error>(PacketType::Final) <==> v == 1,
        spec_packet_type(v) == Ok::<PacketType, Error>(PacketType::StdOut) <==> v == 2,
        spec_packet_type(v) == Ok::<PacketType, Error>(PacketType::Stderr) <==> v == 3,
        v > 3 ==> spec_packet_type(v) == Err::<PacketType, Error>(Error::Parse),
        packet_code(PacketType::Inner) == 0,
        packet_code(PacketType::Final) == 1,
        packet_code(PacketType::StdOut) == 2,
        packet_code(PacketType::Stderr) == 3,
{
}

/// The first byte of a packet of type `t` that carries `len` bytes.
pub open spec fn packet_header(t: PacketType, len: int) -> u8 {
    (packet_code(t) * 64 + len) as u8
}

impl PacketType {
    /// The number that stands for this packet type.
    pub fn code(&self) -> (r: u8)
        ensures
            r == packet_code(*self),
    {
        match self {
            PacketType::Inner => 0,
            PacketType::Final => 1,
            PacketType::StdOut => 2,
            PacketType::Stderr => 3,
        }
    }
}

/// The first byte of a packet of type `t` that carries `len` bytes: the type in the two
/// high bits, the length in the six low ones.
fn header_byte(t: PacketType, len: u8) -> (r: u8)
    requires
        len < 64,
    ensures
        r == packet_header(t, len as int),
{
    let c = t.code();
    let r = c << 6 | len;
    assert(c < 4 && len < 64 ==> (c << 6 | len) == c * 64 + len) by (bit_vector);
    r
}

/// A response of the device, whose data has not been interpreted yet.
#[derive(Debug, PartialEq)]
pub struct CommandResponse {
    /// arbitrary number set by the host, for example as sequence number. The response should repeat the tag.
    pub tag: u16,
    pub status: CommandResponseStatus,
    /// additional information In case of non-zero status
    pub status_info: u8,
    /// LE bytes
    pub data: Vec<u8>,
}

/// `rsp` is what the response bytes `s` say, in byte order `e`.
pub open spec fn parses_response(s: Seq<u8>, e: Endian, rsp: CommandResponse) -> bool {
    &&& 4 <= s.len()
    &&& rsp.tag == u16_at(s, 0, e)
    &&& spec_status(s[2]) == Ok::<CommandResponseStatus, Error>(rsp.status)
    &&& rsp.status_info == s[3]
    &&& rsp.data@ == s.skip(4)
}

/// Response bytes that can be read: a header of four bytes with a known status.
pub open spec fn response_readable(s: Seq<u8>) -> bool {
    4 <= s.len() && s[2] <= 2
}

impl CommandResponse {
    /// Reads a response from its bytes: the tag, status and status info, and the rest as
    /// data. Returns the response and the length of its header.
    pub fn try_from_ctx(this: &[u8], le: Endian) -> (r: Result<(CommandResponse, usize), Error>)
        ensures
            r is Ok <==> response_readable(this@),
            r matches Ok((rsp, n)) ==> n == 4 && parses_response(this@, le, rsp),
            r matches Err(e) ==> e == Error::Parse,
    {
        if this.len() < 4 {
            return Err(Error::Parse);
        }
        let mut offset: usize = 0;
        let tag = match gread_u16(this, &mut offset, le) {
            Ok(v) => v,
            Err(e) => return Err(Error::from(e)),
        };
        let status: u8 = match gread_u8(this, &mut offset, le) {
            Ok(v) => v,
            Err(e) => return Err(Error::from(e)),
        };
        let status = match CommandResponseStatus::try_from(status) {
            Ok(s) => s,
            Err(e) => return Err(e),
        };
        let status_info = match gread_u8(this, &mut offset, le) {
            Ok(v) => v,
            Err(e) => return Err(Error::from(e)),
        };
        let data = vstd::slice::slice_to_vec(vstd::slice::slice_subrange(this, offset, this.len()));
        Ok((CommandResponse { tag, status, status_info, data }, offset))
    }
}

/// The data of a response in which the device reports success; any other status is
/// answered with `MalformedRequest`.
pub fn success_data(rsp: &CommandResponse) -> (r: Result<&[u8], Error>)
    ensures
        r is Ok <==> rsp.status == CommandResponseStatus::Success,
        r matches Ok(d) ==> d@ == rsp.data@,
        r matches Err(e) ==> e == Error::MalformedRequest,
{
    match rsp.status {
        CommandResponseStatus::Success => Ok(rsp.data.as_slice()),
        _ => Err(Error::MalformedRequest),
    }
}

/// A command to the device, before it is cut into packets.
pub struct Command {
    /// Command ID
    id: u32,
    /// arbitrary number set by the host, for example as sequence number. The response should repeat the tag.
    tag: u16,
    /// reserved bytes in the command should be sent as zero and ignored by the device
    _reserved0: u8,
    /// reserved bytes in the command should be sent as zero and ignored by the device
    _reserved1: u8,
    /// LE bytes
    data: Vec<u8>,
}

impl View for Command {
    /// The id, tag, the two reserved bytes and the data.
    type V = (u32, u16, u8, u8, Seq<u8>);

    closed spec fn view(&self) -> Self::V {
        (self.id, self.tag, self._reserved0, self._reserved1, self.data@)
    }
}

/// The bytes of a command as it travels: id and tag in little endian, the two reserved
/// bytes, then the data.
pub open spec fn message_bytes(c: (u32, u16, u8, u8, Seq<u8>)) -> Seq<u8> {
    u32_bytes(c.0, Endian::Little) + u16_bytes(c.1, Endian::Little) + seq![c.2, c.3] + c.4
}

impl Command {
    /// A command with the given id, tag and data, and zero reserved bytes.
    pub fn new(id: u32, tag: u16, data: Vec<u8>) -> (r: Self)
        ensures
            r@ == (id, tag, 0u8, 0u8, data@),
    {
        Self { id, tag, _reserved0: 0, _reserved1: 0, data }
    }
}

/// The number of packets that carry a message of `len` bytes: 63 bytes in each.
pub open spec fn frame_count(len: int) -> int {
    (len + 62) / 63
}

/// Packet `k` of a message `m`: a header byte, then bytes `63 * k` onwards of `m`, 63 of
/// them or what is left. Only the packet with the last byte is `Final`.
pub open spec fn frame(m: Seq<u8>, k: int) -> Seq<u8> {
    let start = 63 * k;
    let size = if m.len() - start < 63 {
        m.len() - start
    } else {
        63
    };
    let t = if start + size == m.len() {
        PacketType::Final
    } else {
        PacketType::Inner
    };
    seq![packet_header(t, size)] + m.subrange(start, start + size)
}

/// The packets that carry `m`, the first one filled up with zeros to 64 bytes.
pub open spec fn frames(m: Seq<u8>) -> Seq<Seq<u8>> {
    Seq::new(
        frame_count(m.len() as int) as nat,
        |k: int|
            if k == 0 {
                frame(m, 0) + Seq::new((64 - frame(m, 0).len()) as nat, |i: int| 0u8)
            } else {
                frame(m, k)
            },
    )
}

/// Cuts a command into the packets that carry it to the device, in the order in which
/// they are sent.
pub fn xmit_packets(cmd: &Command) -> (packets: Vec<Vec<u8>>)
    ensures
        packets@.len() == frames(message_bytes(cmd@)).len(),
        forall|k: int|
            0 <= k < packets@.len() ==> #[trigger] packets@[k]@ == frames(message_bytes(cmd@))[k],
{
    let ghost m = message_bytes(cmd@);
    let n = cmd.data.len();
    let mut buffer: Vec<u8> = vec![0u8; 64];
    let mut offset: usize = 1;
    match gwrite_u32(&mut buffer, cmd.id, &mut offset, Endian::Little) {
        Ok(_) => {},
        Err(_) => {
            assert(false);
        },
    }
    match gwrite_u16(&mut buffer, cmd.tag, &mut offset, Endian::Little) {
        Ok(_) => {},
        Err(_) => {
            assert(false);
        },
    }
    match gwrite_u8(&mut buffer, cmd._reserved0, &mut offset, Endian::Little) {
        Ok(_) => {},
        Err(_) => {
            assert(false);
        },
    }
    match gwrite_u8(&mut buffer, cmd._reserved1, &mut offset, Endian::Little) {
        Ok(_) => {},
        Err(_) => {
            assert(false);
        },
    }
    assert(offset == 9);
    assert(buffer@.subrange(1, 9) == m.subrange(0, 8));
    let mut count: usize = if n > 55 {
        55
    } else {
        n
    };
    let mut i: usize = 0;
    while i < count
        invariant
            count <= n,
            count <= 55,
            n == cmd.data@.len(),
            m == message_bytes(cmd@),
            buffer@.len() == 64,
            i <= count,
            buffer@.subrange(1, 9 + i as int) == m.subrange(0, 8 + i as int),
            forall|j: int| 9 + count <= j < 64 ==> buffer@[j] == 0u8,
        decreases count - i,
    {
        buffer.set(i + 9, cmd.data[i]);
        i = i + 1;
        assert(buffer@.subrange(1, 9 + i as int) =~= m.subrange(0, 8 + i as int));
    }
    let mut packets: Vec<Vec<u8>> = Vec::new();
    let first = (8 + count) as u8;
    if count == n {
        buffer.set(0, header_byte(PacketType::Final, first));
        assert(buffer@ =~= frames(m)[0]);
        packets.push(buffer);
        return packets;
    }
    buffer.set(0, header_byte(PacketType::Inner, first));
    assert(buffer@ =~= frames(m)[0]);
    packets.push(buffer);
    while count < n
        invariant
            55 <= count <= n,
            n == cmd.data@.len(),
            m == message_bytes(cmd@),
            m.len() == n + 8,
            1 <= packets@.len(),
            count < n ==> count + 8 == 63 * packets@.len(),
            count == n ==> 63 * (packets@.len() - 1) < n + 8 <= 63 * packets@.len(),
            forall|k: int|
                0 <= k < packets@.len() ==> #[trigger] packets@[k]@ == frames(m)[k],
        decreases n - count,
    {
        let chunk = if n - count > 63 {
            63
        } else {
            n - count
        };
        let t = if count + chunk == n {
            PacketType::Final
        } else {
            PacketType::Inner
        };
        let mut packet: Vec<u8> = Vec::new();
        packet.push(header_byte(t, chunk as u8));
        let mut j: usize = 0;
        while j < chunk
            invariant
                j <= chunk,
                count + chunk <= n,
                n == cmd.data@.len(),
                m == message_bytes(cmd@),
                m.len() == n + 8,
                packet@.len() == 1 + j,
                packet@[0] == packet_header(t, chunk as int),
                packet@.subrange(1, 1 + j as int) == m.subrange(
                    count + 8,
                    count + 8 + j,
                ),
            decreases chunk - j,
        {
            packet.push(cmd.data[count + j]);
            j = j + 1;
            assert(packet@.subrange(1, 1 + j as int) =~= m.subrange(
                count + 8,
                count + 8 + j,
            ));
        }
        let ghost k = packets@.len() as int;
        assert(63 * k == count + 8);
        assert(packet@[0] == frame(m, k)[0]);
        assert(packet@.subrange(1, 1 + chunk as int) == m.subrange(63 * k, 63 * k + chunk));
        assert(packet@ =~= frame(m, k));
        packets.push(packet);
        count = count + chunk;
    }
    packets
}

/// The bytes that a packet carries: as many as the six low bits of its first byte say,
/// after that byte.
pub open spec fn packet_payload(p: Seq<u8>) -> Seq<u8> {
    p.subrange(1, 1 + p[0] % 64)
}

/// A packet that holds the bytes its first byte announces.
pub open spec fn packet_readable(p: Seq<u8>) -> bool {
    1 <= p.len() && 1 + p[0] % 64 <= p.len()
}

/// A packet after which more packets of the same message follow: any but a `Final`
/// one. Serial `StdOut` and `Stderr` packets may come in between the packets of a
/// message, so they do not end it.
pub open spec fn packet_more(p: Seq<u8>) -> bool {
    p[0] / 64 != 1
}

/// The bytes of the message that a packet carries: the payload of an `Inner` or `Final`
/// packet; nothing of a serial `StdOut` or `Stderr` packet.
pub open spec fn packet_message_bytes(p: Seq<u8>) -> Seq<u8> {
    if p[0] / 64 < 2 {
        packet_payload(p)
    } else {
        Seq::empty()
    }
}

/// The message bytes that the packets `ps` carry, in order.
pub open spec fn reassemble(ps: Seq<Seq<u8>>) -> Seq<u8>
    decreases ps.len(),
{
    if ps.len() == 0 {
        Seq::empty()
    } else {
        reassemble(ps.drop_last()) + packet_message_bytes(ps.last())
    }
}

/// Packet `k` of a message is `Inner` or `Final`, carries the bytes from `63 * k` on, at
/// least one and at most 63, and is `Final` exactly when it is the last one.
proof fn lemma_frame(m: Seq<u8>, k: int)
    requires
        1 <= m.len(),
        0 <= k < frame_count(m.len() as int),
    ensures
        63 * k < m.len(),
        frames(m)[k].len() <= 64,
        packet_readable(frames(m)[k]),
        frames(m)[k][0] / 64 < 2,
        packet_message_bytes(frames(m)[k]) == m.subrange(
            63 * k,
            if m.len() < 63 * k + 63 {
                m.len() as int
            } else {
                63 * k + 63
            },
        ),
        packet_more(frames(m)[k]) <==> k + 1 < frame_count(m.len() as int),
{
    let len = m.len() as int;
    assert(63 * frame_count(len) <= len + 62);
    assert(len <= 63 * frame_count(len));
    let f = frame(m, k);
    let p = frames(m)[k];
    assert(p.subrange(0, f.len() as int) =~= f);
    assert(p[0] == f[0]);
    assert(packet_payload(p) =~= f.subrange(1, f.len() as int));
}

/// The first `j` packets of a message carry its first `63 * j` bytes, or all of it.
proof fn lemma_reassemble_prefix(m: Seq<u8>, j: int)
    requires
        1 <= m.len(),
        0 <= j <= frame_count(m.len() as int),
    ensures
        reassemble(frames(m).take(j)) == m.take(
            if m.len() < 63 * j {
                m.len() as int
            } else {
                63 * j
            },
        ),
    decreases j,
{
    let fs = frames(m);
    if j == 0 {
        assert(fs.take(0) =~= Seq::<Seq<u8>>::empty());
        assert(m.take(0) =~= Seq::<u8>::empty());
    } else {
        lemma_reassemble_prefix(m, j - 1);
        lemma_frame(m, j - 1);
        assert(fs.take(j).drop_last() =~= fs.take(j - 1));
        assert(fs.take(j).last() == fs[j - 1]);
        assert(reassemble(fs.take(j)) =~= m.take(
            if m.len() < 63 * j {
                m.len() as int
            } else {
                63 * j
            },
        ));
    }
}

/// The packets that carry a message, taken in by a receiver one after the other, give
/// the message back: each of them can be read, each but the last says that more follow,
/// the last one says that none do, and together they carry exactly the message.
pub proof fn lemma_frames_reassemble(m: Seq<u8>)
    requires
        1 <= m.len(),
    ensures
        1 <= frames(m).len(),
        forall|k: int|
            0 <= k < frames(m).len() ==> #[trigger] frames(m)[k].len() <= 64 && packet_readable(
                frames(m)[k],
            ),
        forall|k: int| 0 <= k < frames(m).len() - 1 ==> packet_more(#[trigger] frames(m)[k]),
        !packet_more(frames(m).last()),
        reassemble(frames(m)) == m,
{
    let fs = frames(m);
    let n = fs.len() as int;
    assert forall|k: int| 0 <= k < n implies #[trigger] fs[k].len() <= 64 && packet_readable(
        fs[k],
    ) by {
        lemma_frame(m, k);
    }
    assert forall|k: int| 0 <= k < n - 1 implies packet_more(#[trigger] fs[k]) by {
        lemma_frame(m, k);
    }
    lemma_frame(m, n - 1);
    lemma_reassemble_prefix(m, n);
    assert(fs.take(n) =~= fs);
    assert(63 * frame_count(m.len() as int) >= m.len());
    assert(m.take(m.len() as int) =~= m);
}

/// Bytes beyond the length that a packet's first byte announces never matter: two runs of
/// packets that agree, packet by packet, on the first byte and on the bytes it announces
/// say the same about whether more packets follow, and carry the same message.
pub proof fn lemma_excess_bytes_ignored(ps1: Seq<Seq<u8>>, ps2: Seq<Seq<u8>>)
    requires
        ps1.len() == ps2.len(),
        forall|k: int| 0 <= k < ps1.len() ==> packet_readable(#[trigger] ps1[k]),
        forall|k: int| 0 <= k < ps2.len() ==> packet_readable(#[trigger] ps2[k]),
        forall|k: int| 0 <= k < ps1.len() ==> (#[trigger] ps1[k])[0] == ps2[k][0],
        forall|k: int|
            0 <= k < ps1.len() ==> packet_payload(#[trigger] ps1[k]) == packet_payload(ps2[k]),
    ensures
        forall|k: int|
            0 <= k < ps1.len() ==> packet_more(#[trigger] ps1[k]) == packet_more(ps2[k]),
        reassemble(ps1) == reassemble(ps2),
    decreases ps1.len(),
{
    if ps1.len() > 0 {
        let n = ps1.len() - 1;
        let q1 = ps1.drop_last();
        let q2 = ps2.drop_last();
        assert forall|k: int| 0 <= k < q1.len() implies (#[trigger] q1[k])[0] == q2[k][0]
            && packet_payload(q1[k]) == packet_payload(q2[k]) && packet_readable(q1[k])
            && packet_readable(q2[k]) by {
            assert(q1[k] == ps1[k] && q2[k] == ps2[k]);
        }
        lemma_excess_bytes_ignored(q1, q2);
        assert(ps1[n][0] == ps2[n][0]);
        assert(packet_message_bytes(ps1[n]) == packet_message_bytes(ps2[n]));
    }
}

/// Puts the packets of a response together.
pub struct Receiver {
    bytes: Vec<u8>,
}

impl View for Receiver {
    /// The bytes received so far.
    type V = Seq<u8>;

    closed spec fn view(&self) -> Seq<u8> {
        self.bytes@
    }
}

impl Receiver {
    /// A receiver that has received nothing.
    pub fn new() -> (r: Self)
        ensures
            r@ == Seq::<u8>::empty(),
    {
        Receiver { bytes: Vec::new() }
    }

    /// Takes one packet: keeps the message bytes it carries, and says whether more
    /// packets of the message follow, which is so for any packet but a `Final` one. A
    /// serial `StdOut` or `Stderr` packet is passed over: its bytes are not part of the
    /// message.
    pub fn push_packet(&mut self, packet: &[u8]) -> (more: bool)
        requires
            packet_readable(packet@),
        ensures
            final(self)@ == old(self)@ + packet_message_bytes(packet@),
            more == packet_more(packet@),
    {
        let head = packet[0];
        let ptype = match PacketType::try_from(head >> 6) {
            Ok(t) => t,
            Err(_) => {
                assert(head >> 6 < 4) by (bit_vector);
                assert(false);
                PacketType::Final
            },
        };
        assert(head >> 6 == head / 64 && head & 0x3F == head % 64) by (bit_vector);
        match ptype {
            PacketType::StdOut | PacketType::Stderr => {
                return true;
            },
            _ => {},
        }
        let len: usize = (head & 0x3F) as usize;
        let mut i: usize = 1;
        let ghost start = self.bytes@;
        while i <= len
            invariant
                1 <= i <= len + 1,
                len == packet@[0] % 64,
                1 + len <= packet@.len(),
                self.bytes@ == start + packet@.subrange(1, i as int),
            decreases len + 1 - i,
        {
            self.bytes.push(packet[i]);
            i = i + 1;
            assert(self.bytes@ =~= start + packet@.subrange(1, i as int));
        }
        match ptype {
            PacketType::Final => false,
            _ => true,
        }
    }

    /// The response in the bytes received, read in little endian.
    pub fn finish(&self) -> (r: Result<CommandResponse, Error>)
        ensures
            r is Ok <==> response_readable(self@),
            r matches Ok(rsp) ==> parses_response(self@, Endian::Little, rsp),
            r matches Err(e) ==> e == Error::Parse,
    {
        match CommandResponse::try_from_ctx(self.bytes.as_slice(), Endian::Little) {
            Ok((rsp, _)) => Ok(rsp),
            Err(e) => Err(e),
        }
    }
}

} // verus!
