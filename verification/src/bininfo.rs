//! BININFO: the mode of the device, its flash geometry and its chip family.
use crate::codec::{gread_u32, u32_at, Endian};
use crate::error::Error;
use crate::protocol::{success_data, Command, CommandResponse, CommandResponseStatus};
use vstd::prelude::*;

verus! {

/// The mode the device is in.
#[derive(Debug, PartialEq, Eq, Structural)]
pub enum BinInfoMode {
    /// bootloader, and thus flashing of user-space programs is allowed
    Bootloader,
    /// user-space mode. It also returns the size of flash page size (flashing needs to be done on page-by-page basis), and the maximum size of message. It is always the case that max_message_size >= flash_page_size + 64.
    User,
}

/// The mode that a mode word stands for: 1 the bootloader, 2 the user program.
pub open spec fn bin_info_mode_of(value: int) -> Result<BinInfoMode, Error> {
    if value == 1 {
        Ok(BinInfoMode::Bootloader)
    } else if value == 2 {
        Ok(BinInfoMode::User)
    } else {
        Err(Error::Parse)
    }
}

/// The mode word that stands for a mode.
pub open spec fn bin_info_mode_word(mode: BinInfoMode) -> u32 {
    match mode {
        BinInfoMode::Bootloader => 1,
        BinInfoMode::User => 2,
    }
}

impl BinInfoMode {
    /// The mode word that stands for this mode: 1 for the bootloader, 2 for the user
    /// program.
    pub fn wire_value(&self) -> (r: u32)
        ensures
            r == bin_info_mode_word(*self),
    {
        match self {
            BinInfoMode::Bootloader => 1,
            BinInfoMode::User => 2,
        }
    }
}

/// The word of a mode is read back as that mode, and a word that is read as a mode is
/// the word of that mode.
pub proof fn lemma_bin_info_mode_word(mode: BinInfoMode, value: u32)
    ensures
        bin_info_mode_of(bin_info_mode_word(mode) as int) == Ok::<BinInfoMode, Error>(mode),
        bin_info_mode_of(value as int) == Ok::<BinInfoMode, Error>(mode) ==> value
            == bin_info_mode_word(mode),
{
}

/// The mode word 1 is the bootloader and 2 the user program; every other word is refused
/// with `Parse`.
pub proof fn lemma_bin_info_mode_values(v: u32)
    ensures
        bin_info_mode_of(v as int) == Ok::<BinInfoMode, Error>(BinInfoMode::Bootloader) <==> v == 1,
        bin_info_mode_of(v as int) == Ok::<BinInfoMode, Error>(BinInfoMode::User) <==> v == 2,
        v != 1 && v != 2 ==> bin_info_mode_of(v as int) == Err::<BinInfoMode, Error>(Error::Parse),
        bin_info_mode_word(BinInfoMode::Bootloader) == 1,
        bin_info_mode_word(BinInfoMode::User) == 2,
{
}

impl TryFrom<u32> for BinInfoMode {
    type Error = Error;

    fn try_from(value: u32) -> (r: Result<Self, Self::Error>) {
        match value {
            1 => Ok(BinInfoMode::Bootloader),
            2 => Ok(BinInfoMode::User),
            _ => Err(Error::Parse),
        }
    }
}

impl vstd::std_specs::convert::TryFromSpecImpl<u32> for BinInfoMode {
    open spec fn obeys_try_from_spec() -> bool {
        true
    }

    open spec fn try_from_spec(value: u32) -> Result<Self, Error> {
        bin_info_mode_of(value as int)
    }
}

/// The chip family of a device, by its UF2 family id.
#[allow(non_camel_case_types)]
#[derive(Debug, Copy, Clone, PartialEq, Eq, Structural)]
pub enum FamilyId {
    ATSAMD21,
    ATSAMD51,
    NRF52840,
    STM32F103,
    STM32F401,
    ATMEGA32,
    CYPRESS_FX2,
    UNKNOWN(u32),
}

/// The family that a family id stands for; an id of no known family is kept as it is.
pub open spec fn family_id_of(val: u32) -> FamilyId {
    if val == 0x68ed_2b88 {
        FamilyId::ATSAMD21
    } else if val == 0x5511_4460 {
        FamilyId::ATSAMD51
    } else if val == 0x1b57_745f {
        FamilyId::NRF52840
    } else if val == 0x5ee2_1072 {
        FamilyId::STM32F103
    } else if val == 0x5775_5a57 {
        FamilyId::STM32F401
    } else if val == 0x1657_3617 {
        FamilyId::ATMEGA32
    } else if val == 0x5a18_069b {
        FamilyId::CYPRESS_FX2
    } else {
        FamilyId::UNKNOWN(val)
    }
}

impl From<u32> for FamilyId {
    fn from(val: u32) -> (r: Self)
        ensures
            r == family_id_of(val),
    {
        match val {
            0x68ed_2b88 => Self::ATSAMD21,
            0x5511_4460 => Self::ATSAMD51,
            0x1b57_745f => Self::NRF52840,
            0x5ee2_1072 => Self::STM32F103,
            0x5775_5a57 => Self::STM32F401,
            0x1657_3617 => Self::ATMEGA32,
            0x5a18_069b => Self::CYPRESS_FX2,
            _ => Self::UNKNOWN(val),
        }
    }
}

impl vstd::std_specs::convert::FromSpecImpl<u32> for FamilyId {
    open spec fn obeys_from_spec() -> bool {
        true
    }

    open spec fn from_spec(val: u32) -> Self {
        family_id_of(val)
    }
}

/// Each of the seven known family ids names its family, and no other word does; every
/// other word is read as an unknown family that keeps that very word.
pub proof fn lemma_family_id_words(v: u32)
    ensures
        family_id_of(v) == FamilyId::ATSAMD21 <==> v == 0x68ed_2b88,
        family_id_of(v) == FamilyId::ATSAMD51 <==> v == 0x5511_4460,
        family_id_of(v) == FamilyId::NRF52840 <==> v == 0x1b57_745f,
        family_id_of(v) == FamilyId::STM32F103 <==> v == 0x5ee2_1072,
        family_id_of(v) == FamilyId::STM32F401 <==> v == 0x5775_5a57,
        family_id_of(v) == FamilyId::ATMEGA32 <==> v == 0x1657_3617,
        family_id_of(v) == FamilyId::CYPRESS_FX2 <==> v == 0x5a18_069b,
        v != 0x68ed_2b88 && v != 0x5511_4460 && v != 0x1b57_745f && v != 0x5ee2_1072 && v
            != 0x5775_5a57 && v != 0x1657_3617 && v != 0x5a18_069b ==> family_id_of(v)
            == FamilyId::UNKNOWN(v),
        forall|w: u32| family_id_of(v) == FamilyId::UNKNOWN(w) ==> w == v,
{
}

/// Different family ids stand for different families: no two ids give the same one.
pub proof fn lemma_family_id_injective(a: u32, b: u32)
    requires
        family_id_of(a) == family_id_of(b),
    ensures
        a == b,
{
}

/// This command states the current mode of the device:
pub struct BinInfo {}

/// What BININFO reports.
#[derive(Debug, PartialEq)]
pub struct BinInfoResult {
    pub mode: BinInfoMode,
    pub flash_page_size: u32,
    pub flash_num_pages: u32,
    pub max_message_size: u32,
    pub family_id: FamilyId,
}

impl crate::commands::CommanderResult for BinInfoResult {

}

/// BININFO data that can be read: five words, the first a known mode.
pub open spec fn bin_info_readable(s: Seq<u8>, e: Endian) -> bool {
    20 <= s.len() && bin_info_mode_of(u32_at(s, 0, e)) is Ok
}

/// `v` is what the BININFO data `s` says, in byte order `e`: the mode word, the page
/// size, the page count, the largest message and the family id, one word each.
pub open spec fn parses_bin_info(s: Seq<u8>, e: Endian, v: BinInfoResult) -> bool {
    &&& 20 <= s.len()
    &&& bin_info_mode_of(u32_at(s, 0, e)) == Ok::<BinInfoMode, Error>(v.mode)
    &&& v.flash_page_size == u32_at(s, 4, e)
    &&& v.flash_num_pages == u32_at(s, 8, e)
    &&& v.max_message_size == u32_at(s, 12, e)
    &&& v.family_id == family_id_of(u32_at(s, 16, e) as u32)
}

impl BinInfoResult {
    /// Reads BININFO data; returns the result and the number of bytes read.
    pub fn try_from_ctx(this: &[u8], le: Endian) -> (r: Result<(BinInfoResult, usize), Error>)
        ensures
            r is Ok <==> bin_info_readable(this@, le),
            r matches Ok((v, n)) ==> n == 20 && parses_bin_info(this@, le, v),
            r matches Err(e) ==> e == Error::Parse,
    {
        if this.len() < 16 {
            return Err(Error::Parse);
        }
        let mut offset: usize = 0;
        let mode: u32 = match gread_u32(this, &mut offset, le) {
            Ok(v) => v,
            Err(e) => return Err(Error::from(e)),
        };
        let mode: Result<BinInfoMode, Error> = BinInfoMode::try_from(mode);
        let mode: BinInfoMode = match mode {
            Ok(m) => m,
            Err(e) => return Err(e),
        };
        let flash_page_size = match gread_u32(this, &mut offset, le) {
            Ok(v) => v,
            Err(e) => return Err(Error::from(e)),
        };
        let flash_num_pages = match gread_u32(this, &mut offset, le) {
            Ok(v) => v,
            Err(e) => return Err(Error::from(e)),
        };
        let max_message_size = match gread_u32(this, &mut offset, le) {
            Ok(v) => v,
            Err(e) => return Err(Error::from(e)),
        };
        let family_word = match gread_u32(this, &mut offset, le) {
            Ok(v) => v,
            Err(e) => return Err(Error::from(e)),
        };
        let family_id: FamilyId = FamilyId::from(family_word);
        Ok(
            (
                BinInfoResult {
                    mode,
                    flash_page_size,
                    flash_num_pages,
                    max_message_size,
                    family_id,
                },
                offset,
            ),
        )
    }
}

impl BinInfo {
    /// The BININFO command, id 0x0001, without data.
    pub fn command(&self) -> (r: Command)
        ensures
            r@ == (0x0001u32, 0u16, 0u8, 0u8, Seq::<u8>::empty()),
    {
        Command::new(0x0001, 0, Vec::new())
    }

    /// The answer to BININFO in a response: refused unless the device reports success,
    /// else read from the response data in little endian.
    pub fn response(rsp: &CommandResponse) -> (r: Result<BinInfoResult, Error>)
        ensures
            rsp.status != CommandResponseStatus::Success ==> r == Err::<BinInfoResult, Error>(
                Error::MalformedRequest,
            ),
            rsp.status == CommandResponseStatus::Success ==> {
                &&& r is Ok <==> bin_info_readable(rsp.data@, Endian::Little)
                &&& r matches Ok(v) ==> parses_bin_info(rsp.data@, Endian::Little, v)
                &&& r matches Err(e) ==> e == Error::Parse
            },
    {
        let data = match success_data(rsp) {
            Ok(d) => d,
            Err(e) => return Err(e),
        };
        match BinInfoResult::try_from_ctx(data, Endian::Little) {
            Ok((res, _)) => Ok(res),
            Err(e) => Err(e),
        }
    }
}

} // verus!
