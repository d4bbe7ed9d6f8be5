//! The HF2 commands other than BININFO: what each sends, and how its answer is read.
use crate::codec::{
    from_utf8, gread_inout_u16, gread_inout_u32, gread_inout_u8, gwrite_u32, gwrite_u8, u16_at,
    u32_at, u32_bytes, Endian,
};
use crate::error::Error;
use crate::protocol::{success_data, Command, CommandResponse, CommandResponseStatus};
use vstd::prelude::*;
use vstd::utf8::{decode_utf8, encode_utf8, valid_utf8};

verus! {

/// A value that a command gives back.
pub trait CommanderResult {

}

/// The value of a command that gives nothing back.
pub struct NoResult {}

impl CommanderResult for NoResult {

}

/// Bytes that can be read as text: well-formed UTF-8.
pub open spec fn text_readable(s: Seq<u8>) -> bool {
    valid_utf8(s)
}

/// The values of the consecutive pairs of bytes of `s`; an odd last byte is left out.
pub open spec fn u16_values(s: Seq<u8>, e: Endian) -> Seq<int> {
    Seq::new(s.len() / 2, |i: int| u16_at(s, 2 * i, e))
}

/// The values of the consecutive groups of four bytes of `s`; up to three bytes at the
/// end are left out.
pub open spec fn u32_values(s: Seq<u8>, e: Endian) -> Seq<int> {
    Seq::new(s.len() / 4, |i: int| u32_at(s, 4 * i, e))
}

/// The bytes of the words `ws`, four for each, one after the other.
pub open spec fn words_bytes(ws: Seq<u32>, e: Endian) -> Seq<u8> {
    Seq::new(4 * ws.len(), |j: int| u32_bytes(ws[j / 4], e)[j % 4])
}

/// `n` zero bytes.
pub open spec fn zero_bytes(n: int) -> Seq<u8> {
    Seq::new(n as nat, |i: int| 0u8)
}

/// Various device information. The result is a character array. See INFO_UF2.TXT in UF2 format for details.
pub struct Info {}

/// What INFO reports.
#[derive(Debug, PartialEq)]
pub struct InfoResult {
    pub info: String,
}

impl CommanderResult for InfoResult {

}

impl InfoResult {
    /// Reads INFO data: all of it, as UTF-8 text. Returns the text and the number of
    /// bytes read.
    pub fn try_from_ctx(this: &[u8], le: Endian) -> (r: Result<(InfoResult, usize), Error>)
        ensures
            r is Ok <==> text_readable(this@),
            r matches Ok((v, n)) ==> n == this@.len() && v.info@ == decode_utf8(this@) && encode_utf8(
                v.info@,
            ) == this@,
            r matches Err(e) ==> e == Error::Parse,
    {
        let mut bytes: Vec<u8> = vec![0u8; this.len()];
        let mut offset: usize = 0;
        match gread_inout_u8(this, &mut offset, &mut bytes, le) {
            Ok(()) => {},
            Err(e) => return Err(Error::from(e)),
        }
        assert(bytes@ =~= this@);
        let info = match from_utf8(bytes.as_slice()) {
            Ok(s) => s,
            Err(e) => return Err(Error::from(e)),
        };
        proof {
            vstd::utf8::decode_utf8_encode_utf8(this@);
        }
        Ok((InfoResult { info: info.to_owned() }, offset))
    }
}

impl Info {
    /// The INFO command, id 0x0002, without data.
    pub fn command(&self) -> (r: Command)
        ensures
            r@ == (0x0002u32, 0u16, 0u8, 0u8, Seq::<u8>::empty()),
    {
        Command::new(0x0002, 0, Vec::new())
    }

    /// The answer to INFO in a response: refused unless the device reports success,
    /// else the response data as text.
    pub fn response(rsp: &CommandResponse) -> (r: Result<InfoResult, Error>)
        ensures
            rsp.status != CommandResponseStatus::Success ==> r == Err::<InfoResult, Error>(
                Error::MalformedRequest,
            ),
            rsp.status == CommandResponseStatus::Success ==> {
                &&& r is Ok <==> text_readable(rsp.data@)
                &&& r matches Ok(v) ==> v.info@ == decode_utf8(rsp.data@) && encode_utf8(v.info@) == rsp.data@
                &&& r matches Err(e) ==> e == Error::Parse
            },
    {
        let data = match success_data(rsp) {
            Ok(d) => d,
            Err(e) => return Err(e),
        };
        match InfoResult::try_from_ctx(data, Endian::Little) {
            Ok((res, _)) => Ok(res),
            Err(e) => Err(e),
        }
    }
}

/// Write a single page of flash memory. No Result.
pub struct WriteFlashPage {
    pub target_address: u32,
    pub data: Vec<u8>,
}

impl WriteFlashPage {
    /// The WRITE FLASH PAGE command, id 0x0006: the target address in little endian,
    /// then the page.
    pub fn command(&self) -> (r: Command)
        requires
            self.data@.len() + 4 <= usize::MAX,
        ensures
            r@ == (0x0006u32, 0u16, 0u8, 0u8, u32_bytes(self.target_address, Endian::Little)
                + self.data@),
    {
        let mut data: Vec<u8> = vec![0u8; self.data.len() + 4];
        let ghost target = u32_bytes(self.target_address, Endian::Little) + self.data@;
        let mut offset: usize = 0;
        match gwrite_u32(&mut data, self.target_address, &mut offset, Endian::Little) {
            Ok(_) => {},
            Err(_) => {
                assert(false);
            },
        }
        let mut i: usize = 0;
        while i < self.data.len()
            invariant
                i <= self.data@.len(),
                offset == 4 + i,
                target == u32_bytes(self.target_address, Endian::Little) + self.data@,
                data@.len() == target.len(),
                data@.subrange(0, offset as int) == target.subrange(0, offset as int),
            decreases self.data@.len() - i,
        {
            let ghost before = data@;
            match gwrite_u8(&mut data, self.data[i], &mut offset, Endian::Little) {
                Ok(_) => {},
                Err(_) => {
                    assert(false);
                },
            }
            i = i + 1;
            assert(data@.subrange(0, offset as int) =~= target.subrange(0, offset as int));
        }
        assert(data@.subrange(0, offset as int) =~= data@);
        assert(target.subrange(0, offset as int) =~= target);
        Command::new(0x0006, 0, data)
    }
}

///Compute checksum of a number of pages. Maximum value for num_pages is max_message_size / 2 - 2. The checksum algorithm used is CRC-16-CCITT.
pub struct ChksumPages {
    pub target_address: u32,
    pub num_pages: u32,
}

///Maximum value for num_pages is max_message_size / 2 - 2. The checksum algorithm used is CRC-16-CCITT.
#[derive(Debug, PartialEq)]
pub struct ChksumPagesResult {
    pub chksums: Vec<u16>,
}

impl CommanderResult for ChksumPagesResult {

}

impl ChksumPagesResult {
    /// Reads CHKSUM PAGES data: one checksum for each two bytes. Returns the checksums
    /// and the number of bytes read.
    pub fn try_from_ctx(this: &[u8], le: Endian) -> (r: Result<(ChksumPagesResult, usize), Error>)
        ensures
            r matches Ok((v, n)) && n == 2 * (this@.len() / 2) && v.chksums@.map_values(
                |c: u16| c as int,
            ) == u16_values(this@, le),
    {
        let mut chksums: Vec<u16> = vec![0u16; this.len() / 2];
        let mut offset: usize = 0;
        match gread_inout_u16(this, &mut offset, &mut chksums, le) {
            Ok(()) => {},
            Err(e) => {
                assert(false);
                return Err(Error::from(e));
            },
        }
        assert(chksums@.map_values(|c: u16| c as int) =~= u16_values(this@, le));
        Ok((ChksumPagesResult { chksums }, offset))
    }
}

impl ChksumPages {
    /// The CHKSUM PAGES command, id 0x0007: the target address and the number of pages,
    /// in little endian.
    pub fn command(&self) -> (r: Command)
        ensures
            r@ == (0x0007u32, 0u16, 0u8, 0u8, u32_bytes(self.target_address, Endian::Little)
                + u32_bytes(self.num_pages, Endian::Little)),
    {
        let mut data: Vec<u8> = vec![0u8; 8];
        let mut offset: usize = 0;
        match gwrite_u32(&mut data, self.target_address, &mut offset, Endian::Little) {
            Ok(_) => {},
            Err(_) => {
                assert(false);
            },
        }
        match gwrite_u32(&mut data, self.num_pages, &mut offset, Endian::Little) {
            Ok(_) => {},
            Err(_) => {
                assert(false);
            },
        }
        assert(data@ =~= u32_bytes(self.target_address, Endian::Little) + u32_bytes(
            self.num_pages,
            Endian::Little,
        ));
        Command::new(0x0007, 0, data)
    }

    /// The answer to CHKSUM PAGES in a response: refused unless the device reports
    /// success, else the checksums in the response data, in little endian.
    pub fn response(rsp: &CommandResponse) -> (r: Result<ChksumPagesResult, Error>)
        ensures
            rsp.status != CommandResponseStatus::Success ==> r == Err::<ChksumPagesResult, Error>(
                Error::MalformedRequest,
            ),
            rsp.status == CommandResponseStatus::Success ==> (r matches Ok(v)
                && v.chksums@.map_values(|c: u16| c as int) == u16_values(
                rsp.data@,
                Endian::Little,
            )),
    {
        let data = match success_data(rsp) {
            Ok(d) => d,
            Err(e) => return Err(e),
        };
        match ChksumPagesResult::try_from_ctx(data, Endian::Little) {
            Ok((res, _)) => Ok(res),
            Err(e) => Err(e),
        }
    }
}

///Reset the device into user-space app. Usually, no response at all will arrive for this command.
pub struct ResetIntoApp {}

impl ResetIntoApp {
    /// The RESET INTO APP command, id 0x0003, without data.
    pub fn command(&self) -> (r: Command)
        ensures
            r@ == (0x0003u32, 0u16, 0u8, 0u8, Seq::<u8>::empty()),
    {
        Command::new(0x0003, 0, Vec::new())
    }
}

///Reset the device into bootloader, usually for flashing. Usually, no response at all will arrive for this command.
pub struct ResetIntoBootloader {}

impl ResetIntoBootloader {
    /// The RESET INTO BOOTLOADER command, id 0x0004, without data.
    pub fn command(&self) -> (r: Command)
        ensures
            r@ == (0x0004u32, 0u16, 0u8, 0u8, Seq::<u8>::empty()),
    {
        Command::new(0x0004, 0, Vec::new())
    }
}

/// When issued in bootloader mode, it has no effect. In user-space mode it causes handover to bootloader. A BININFO command can be issued to verify that.
pub struct StartFlash {}

impl StartFlash {
    /// The START FLASH command, id 0x0005, without data.
    pub fn command(&self) -> (r: Command)
        ensures
            r@ == (0x0005u32, 0u16, 0u8, 0u8, Seq::<u8>::empty()),
    {
        Command::new(0x0005, 0, Vec::new())
    }
}

///Read a number of words from memory. Memory is read word by word (and not byte by byte), and target_addr must be suitably aligned. This is to support reading of special IO regions.
pub struct ReadWords {
    target_address: u32,
    num_words: u32,
}

impl View for ReadWords {
    /// The target address and the number of words.
    type V = (u32, u32);

    closed spec fn view(&self) -> (u32, u32) {
        (self.target_address, self.num_words)
    }
}

/// What READ WORDS reports.
#[derive(Debug, PartialEq)]
pub struct ReadWordsResult {
    pub words: Vec<u32>,
}

impl CommanderResult for ReadWordsResult {

}

impl ReadWordsResult {
    /// Reads READ WORDS data: one word for each four bytes. Returns the words and the
    /// number of bytes read.
    pub fn try_from_ctx(this: &[u8], le: Endian) -> (r: Result<(ReadWordsResult, usize), Error>)
        ensures
            r matches Ok((v, n)) && n == 4 * (this@.len() / 4) && v.words@.map_values(
                |w: u32| w as int,
            ) == u32_values(this@, le),
    {
        let mut words: Vec<u32> = vec![0u32; this.len() / 4];
        let mut offset: usize = 0;
        match gread_inout_u32(this, &mut offset, &mut words, le) {
            Ok(()) => {},
            Err(e) => {
                assert(false);
                return Err(Error::from(e));
            },
        }
        assert(words@.map_values(|w: u32| w as int) =~= u32_values(this@, le));
        Ok((ReadWordsResult { words }, offset))
    }
}

impl ReadWords {
    /// The READ WORDS command, id 0x0008: the target address and the number of words,
    /// in little endian.
    pub fn command(&self) -> (r: Command)
        ensures
            r@ == (0x0008u32, 0u16, 0u8, 0u8, u32_bytes(self@.0, Endian::Little) + u32_bytes(
                self@.1,
                Endian::Little,
            )),
    {
        let mut data: Vec<u8> = vec![0u8; 8];
        let mut offset: usize = 0;
        match gwrite_u32(&mut data, self.target_address, &mut offset, Endian::Little) {
            Ok(_) => {},
            Err(_) => {
                assert(false);
            },
        }
        match gwrite_u32(&mut data, self.num_words, &mut offset, Endian::Little) {
            Ok(_) => {},
            Err(_) => {
                assert(false);
            },
        }
        assert(data@ =~= u32_bytes(self.target_address, Endian::Little) + u32_bytes(
            self.num_words,
            Endian::Little,
        ));
        Command::new(0x0008, 0, data)
    }

    /// The answer to READ WORDS in a response: refused unless the device reports
    /// success, else the words in the response data, in little endian.
    pub fn response(rsp: &CommandResponse) -> (r: Result<ReadWordsResult, Error>)
        ensures
            rsp.status != CommandResponseStatus::Success ==> r == Err::<ReadWordsResult, Error>(
                Error::MalformedRequest,
            ),
            rsp.status == CommandResponseStatus::Success ==> (r matches Ok(v)
                && v.words@.map_values(|w: u32| w as int) == u32_values(
                rsp.data@,
                Endian::Little,
            )),
    {
        let data = match success_data(rsp) {
            Ok(d) => d,
            Err(e) => return Err(e),
        };
        match ReadWordsResult::try_from_ctx(data, Endian::Little) {
            Ok((res, _)) => Ok(res),
            Err(e) => Err(e),
        }
    }
}

///Dual of READ WORDS, with the same constraints. No Result.
pub struct WriteWords {
    pub target_address: u32,
    pub num_words: u32,
    pub words: Vec<u32>,
}

/// The data of WRITE WORDS: the target address, the number of words and the words, in
/// little endian, filled up with zeros to 64 bytes.
pub open spec fn write_words_data(target_address: u32, num_words: u32, ws: Seq<u32>) -> Seq<u8> {
    u32_bytes(target_address, Endian::Little) + u32_bytes(num_words, Endian::Little) + words_bytes(
        ws,
        Endian::Little,
    ) + zero_bytes(56 - 4 * ws.len())
}

impl WriteWords {
    /// The WRITE WORDS command, id 0x0009, with 64 bytes of data. At most 14 words fit
    /// there; with more, the command cannot be made and `Parse` is returned.
    pub fn command(&self) -> (r: Result<Command, Error>)
        ensures
            r is Ok <==> self.words@.len() <= 14,
            r matches Ok(c) ==> c@ == (0x0009u32, 0u16, 0u8, 0u8, write_words_data(
                self.target_address,
                self.num_words,
                self.words@,
            )),
            r matches Err(e) ==> e == Error::Parse,
    {
        let mut data: Vec<u8> = vec![0u8; 64];
        let mut offset: usize = 0;
        match gwrite_u32(&mut data, self.target_address, &mut offset, Endian::Little) {
            Ok(_) => {},
            Err(_) => {
                assert(false);
            },
        }
        match gwrite_u32(&mut data, self.num_words, &mut offset, Endian::Little) {
            Ok(_) => {},
            Err(_) => {
                assert(false);
            },
        }
        let ghost head = u32_bytes(self.target_address, Endian::Little) + u32_bytes(
            self.num_words,
            Endian::Little,
        );
        assert(data@.subrange(0, 8) =~= head);
        let mut i: usize = 0;
        while i < self.words.len()
            invariant
                i <= self.words@.len(),
                offset == 8 + 4 * i,
                offset <= 64,
                data@.len() == 64,
                head == u32_bytes(self.target_address, Endian::Little) + u32_bytes(
                    self.num_words,
                    Endian::Little,
                ),
                head.len() == 8,
                forall|j: int| 0 <= j < 8 ==> #[trigger] data@[j] == head[j],
                forall|j: int|
                    8 <= j < offset ==> #[trigger] data@[j] == words_bytes(
                        self.words@,
                        Endian::Little,
                    )[j - 8],
                forall|j: int| offset <= j < 64 ==> #[trigger] data@[j] == 0u8,
            decreases self.words@.len() - i,
        {
            match gwrite_u32(&mut data, self.words[i], &mut offset, Endian::Little) {
                Ok(_) => {},
                Err(e) => {
                    assert(8 + 4 * self.words@.len() > 64);
                    return Err(Error::from(e));
                },
            }
            i = i + 1;
        }
        assert(data@ =~= write_words_data(self.target_address, self.num_words, self.words@));
        Ok(Command::new(0x0009, 0, data))
    }
}

/// The words that WRITE WORDS carries are the words that READ WORDS data in the same
/// place gives back: a write of words is read back as the same words.
pub proof fn lemma_write_words_read_back(target_address: u32, num_words: u32, ws: Seq<u32>)
    requires
        ws.len() <= 14,
    ensures
        u32_values(
            write_words_data(target_address, num_words, ws).subrange(8, 8 + 4 * ws.len() as int),
            Endian::Little,
        ) == ws.map_values(|w: u32| w as int),
{
    let d = write_words_data(target_address, num_words, ws);
    let b = d.subrange(8, 8 + 4 * ws.len() as int);
    assert(b =~= words_bytes(ws, Endian::Little));
    assert forall|i: int| 0 <= i < ws.len() implies u32_at(b, 4 * i, Endian::Little) == ws[i] by {
        crate::codec::lemma_u32_roundtrip(ws[i], Endian::Little);
        let w = u32_bytes(ws[i], Endian::Little);
        assert((4 * i) / 4 == i);
        assert((4 * i + 1) / 4 == i && (4 * i + 1) % 4 == 1);
        assert((4 * i + 2) / 4 == i && (4 * i + 2) % 4 == 2);
        assert((4 * i + 3) / 4 == i && (4 * i + 3) % 4 == 3);
        assert(b[4 * i] == w[0] && b[4 * i + 1] == w[1] && b[4 * i + 2] == w[2] && b[4 * i + 3]
            == w[3]);
    }
    assert(u32_values(b, Endian::Little) =~= ws.map_values(|w: u32| w as int));
}

///Return internal log buffer if any. The result is a character array.
pub struct Dmesg {}

/// What DMESG reports.
#[derive(Debug, PartialEq)]
pub struct DmesgResult {
    pub logs: String,
}

impl CommanderResult for DmesgResult {

}

impl DmesgResult {
    /// Reads DMESG data: all of it, as UTF-8 text. Returns the text and the number of
    /// bytes read.
    pub fn try_from_ctx(this: &[u8], le: Endian) -> (r: Result<(DmesgResult, usize), Error>)
        ensures
            r is Ok <==> text_readable(this@),
            r matches Ok((v, n)) ==> n == this@.len() && v.logs@ == decode_utf8(this@) && encode_utf8(
                v.logs@,
            ) == this@,
            r matches Err(e) ==> e == Error::Parse,
    {
        let mut bytes: Vec<u8> = vec![0u8; this.len()];
        let mut offset: usize = 0;
        match gread_inout_u8(this, &mut offset, &mut bytes, le) {
            Ok(()) => {},
            Err(e) => return Err(Error::from(e)),
        }
        assert(bytes@ =~= this@);
        let logs = match from_utf8(bytes.as_slice()) {
            Ok(s) => s,
            Err(e) => return Err(Error::from(e)),
        };
        proof {
            vstd::utf8::decode_utf8_encode_utf8(this@);
        }
        Ok((DmesgResult { logs: logs.to_owned() }, offset))
    }
}

impl Dmesg {
    /// The DMESG command, id 0x0010, without data.
    pub fn command(&self) -> (r: Command)
        ensures
            r@ == (0x0010u32, 0u16, 0u8, 0u8, Seq::<u8>::empty()),
    {
        Command::new(0x0010, 0, Vec::new())
    }

    /// The answer to DMESG in a response: refused unless the device reports success,
    /// else the response data as text.
    pub fn response(rsp: &CommandResponse) -> (r: Result<DmesgResult, Error>)
        ensures
            rsp.status != CommandResponseStatus::Success ==> r == Err::<DmesgResult, Error>(
                Error::MalformedRequest,
            ),
            rsp.status == CommandResponseStatus::Success ==> {
                &&& r is Ok <==> text_readable(rsp.data@)
                &&& r matches Ok(v) ==> v.logs@ == decode_utf8(rsp.data@) && encode_utf8(v.logs@) == rsp.data@
                &&& r matches Err(e) ==> e == Error::Parse
            },
    {
        let data = match success_data(rsp) {
            Ok(d) => d,
            Err(e) => return Err(e),
        };
        match DmesgResult::try_from_ctx(data, Endian::Little) {
            Ok((res, _)) => Ok(res),
            Err(e) => Err(e),
        }
    }
}

} // verus!
