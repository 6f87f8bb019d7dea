//! The cartridge header: title, controller type and memory sizes.
use vstd::prelude::*;
use vstd::arithmetic::power2::{lemma2_to64, lemma_pow2_unfold, pow2};
use vstd::utf8::{decode_utf8, valid_utf8};

verus! {

/// Offset of the first title byte.
pub const TITLE_START: usize = 0x0134;

/// Offset just past the last title byte.
pub const TITLE_END: usize = 0x0144;

/// Offset of the cartridge type.
pub const CART_TYPE_OFFSET: usize = 0x0147;

/// Offset of the ROM size code.
pub const ROM_SIZE_OFFSET: usize = 0x0148;

/// Offset of the RAM size code.
pub const RAM_SIZE_OFFSET: usize = 0x0149;

/// Length of the shortest image that holds a whole header.
pub const HEADER_END: usize = 0x014A;

/// What the header of a program image says.
pub struct Cartridge {
    pub title: String,
    pub rom_path: String,
    pub cart_type: u8,
    pub rom_size: usize,
    pub ram_size: usize,
}

/// The model of a `Cartridge`.
pub struct CartridgeView {
    pub title: Seq<char>,
    pub rom_path: Seq<char>,
    pub cart_type: u8,
    pub rom_size: usize,
    pub ram_size: usize,
}

impl View for Cartridge {
    type V = CartridgeView;

    open spec fn view(&self) -> CartridgeView {
        CartridgeView {
            title: self.title@,
            rom_path: self.rom_path@,
            cart_type: self.cart_type,
            rom_size: self.rom_size,
            ram_size: self.ram_size,
        }
    }
}

/// Why a program image cannot be loaded.
#[derive(Clone, Copy, PartialEq, Eq, Structural, Debug)]
pub enum LoadError {
    /// The image ends before the header does.
    HeaderTooShort,
    /// The title is not valid UTF-8.
    TitleNotUtf8,
    /// The ROM size that the header gives does not fit the machine word.
    RomSizeTooLarge,
    /// The RAM size code is not one of the six known codes.
    UnknownRamSize,
    /// The cartridge type asks for a controller that is not supported.
    UnsupportedController,
    /// The cartridge has more than one bank of RAM behind its controller.
    BankedRam,
}

/// The offset at which the title that starts at `from` ends: the first zero
/// byte from there on, or the end of the title field.
pub open spec fn spec_title_end(buffer: Seq<u8>, from: int) -> int
    decreases TITLE_END - from,
{
    if from >= TITLE_END || buffer[from] == 0 {
        from
    } else {
        spec_title_end(buffer, from + 1)
    }
}

/// The bytes of the title: the title field up to its first zero byte.
pub open spec fn spec_title_bytes(buffer: Seq<u8>) -> Seq<u8> {
    buffer.subrange(TITLE_START as int, spec_title_end(buffer, TITLE_START as int))
}

/// The RAM size in bytes that a size code stands for.
pub open spec fn spec_ram_size(code: u8) -> Option<usize> {
    if code == 0 {
        Some(0usize)
    } else if code == 1 {
        Some(2048usize)
    } else if code == 2 {
        Some(8192usize)
    } else if code == 3 {
        Some(32768usize)
    } else if code == 4 {
        Some(131072usize)
    } else if code == 5 {
        Some(65536usize)
    } else {
        None
    }
}

/// The ROM size in bytes that a size code stands for: 32 KiB doubled `code`
/// times.
pub open spec fn spec_rom_size(code: u8) -> nat {
    32768 * pow2(code as nat)
}

/// What parsing the header of `buffer` gives.
pub open spec fn spec_parse(buffer: Seq<u8>, rom_path: Seq<char>) -> Result<CartridgeView, LoadError> {
    if buffer.len() < HEADER_END {
        Err(LoadError::HeaderTooShort)
    } else if !valid_utf8(spec_title_bytes(buffer)) {
        Err(LoadError::TitleNotUtf8)
    } else if spec_rom_size(buffer[ROM_SIZE_OFFSET as int]) > usize::MAX {
        Err(LoadError::RomSizeTooLarge)
    } else if spec_ram_size(buffer[RAM_SIZE_OFFSET as int]).is_none() {
        Err(LoadError::UnknownRamSize)
    } else {
        Ok(
            CartridgeView {
                title: decode_utf8(spec_title_bytes(buffer)),
                rom_path,
                cart_type: buffer[CART_TYPE_OFFSET as int],
                rom_size: spec_rom_size(buffer[ROM_SIZE_OFFSET as int]) as usize,
                ram_size: spec_ram_size(buffer[RAM_SIZE_OFFSET as int]).unwrap(),
            },
        )
    }
}

/// The title ends inside the title field, every byte before its end is not
/// zero, and it ends at the first zero byte if there is one.
pub proof fn lemma_title_end(buffer: Seq<u8>, from: int)
    requires
        TITLE_START <= from <= TITLE_END,
    ensures
        from <= spec_title_end(buffer, from) <= TITLE_END,
        forall|i: int| from <= i < spec_title_end(buffer, from) ==> buffer[i] != 0,
        spec_title_end(buffer, from) < TITLE_END ==> buffer[spec_title_end(buffer, from)] == 0,
    decreases TITLE_END - from,
{
    if from < TITLE_END && buffer[from] != 0 {
        lemma_title_end(buffer, from + 1);
    }
}

/// `String::from_utf8`: the string that `bytes` encode, if they are valid
/// UTF-8, and nothing otherwise.
#[verifier::external_body]
fn string_from_utf8(bytes: Vec<u8>) -> (r: Option<String>)
    ensures
        r.is_some() == valid_utf8(bytes@),
        r.is_some() ==> r.unwrap()@ == decode_utf8(bytes@),
{
    String::from_utf8(bytes).ok()
}

/// The RAM size in bytes that a size code stands for.
pub fn ram_size_of_code(code: u8) -> (r: Option<usize>)
    ensures
        r == spec_ram_size(code),
{
    match code {
        0 => Some(0),
        1 => Some(2048),
        2 => Some(8192),
        3 => Some(32768),
        4 => Some(131072),
        5 => Some(65536),
        _ => None,
    }
}

/// The ROM size in bytes that a size code stands for, if it fits the machine
/// word.
pub fn rom_size_of_code(code: u8) -> (r: Option<usize>)
    ensures
        match r {
            Some(size) => size == spec_rom_size(code),
            None => spec_rom_size(code) > usize::MAX,
        },
{
    let mut size: usize = 32768;
    let mut i: u8 = 0;
    proof {
        lemma2_to64();
    }
    while i < code
        invariant
            i <= code,
            size == spec_rom_size(i),
        decreases code - i,
    {
        proof {
            lemma_pow2_unfold((i + 1) as nat);
        }
        if size > usize::MAX / 2 {
            proof {
                lemma_rom_size_monotonic(i + 1, code);
            }
            return None;
        }
        size = size * 2;
        i = i + 1;
    }
    Some(size)
}

/// A larger size code stands for a ROM size that is at least as large.
pub proof fn lemma_rom_size_monotonic(low: int, high: u8)
    requires
        0 <= low <= high,
    ensures
        32768 * pow2(low as nat) <= spec_rom_size(high),
    decreases high - low,
{
    if low < high {
        lemma_pow2_unfold((low + 1) as nat);
        lemma_rom_size_monotonic(low + 1, high);
    }
}

/// The bytes of the title of `buffer`.
pub fn get_title_bytes(buffer: &Vec<u8>) -> (r: Vec<u8>)
    requires
        buffer@.len() >= HEADER_END,
    ensures
        r@ == spec_title_bytes(buffer@),
{
    let mut out_buff: Vec<u8> = Vec::new();
    let mut i: usize = TITLE_START;
    while i < TITLE_END && buffer[i] != 0
        invariant
            TITLE_START <= i <= TITLE_END,
            buffer@.len() >= HEADER_END,
            spec_title_end(buffer@, i as int) == spec_title_end(buffer@, TITLE_START as int),
            out_buff@ == buffer@.subrange(TITLE_START as int, i as int),
        decreases TITLE_END - i,
    {
        out_buff.push(buffer[i]);
        assert(out_buff@ =~= buffer@.subrange(TITLE_START as int, i + 1));
        i = i + 1;
    }
    out_buff
}

/// The title of `buffer`, if it is valid UTF-8.
pub fn get_title(buffer: &Vec<u8>) -> (r: Option<String>)
    requires
        buffer@.len() >= HEADER_END,
    ensures
        r.is_some() == valid_utf8(spec_title_bytes(buffer@)),
        r.is_some() ==> r.unwrap()@ == decode_utf8(spec_title_bytes(buffer@)),
{
    string_from_utf8(get_title_bytes(buffer))
}

impl Clone for Cartridge {
    fn clone(&self) -> (r: Cartridge)
        ensures
            r@ == self@,
    {
        Cartridge {
            title: self.title.clone(),
            rom_path: self.rom_path.clone(),
            cart_type: self.cart_type,
            rom_size: self.rom_size,
            ram_size: self.ram_size,
        }
    }
}

impl Cartridge {
    /// Reads the header of the program image `buffer`, or says why it cannot
    /// be read.
    pub fn try_parse(buffer: &Vec<u8>, rom_path: String) -> (r: Result<Cartridge, LoadError>)
        ensures
            match r {
                Ok(cartridge) => spec_parse(buffer@, rom_path@) == Ok::<CartridgeView, LoadError>(cartridge@),
                Err(error) => spec_parse(buffer@, rom_path@) == Err::<CartridgeView, LoadError>(error),
            },
    {
        if buffer.len() < HEADER_END {
            return Err(LoadError::HeaderTooShort);
        }
        let title: String = match get_title(buffer) {
            Some(title) => title,
            None => {
                return Err(LoadError::TitleNotUtf8);
            },
        };
        let cart_type: u8 = buffer[CART_TYPE_OFFSET];
        let rom_size: usize = match rom_size_of_code(buffer[ROM_SIZE_OFFSET]) {
            Some(size) => size,
            None => {
                return Err(LoadError::RomSizeTooLarge);
            },
        };
        let ram_size: usize = match ram_size_of_code(buffer[RAM_SIZE_OFFSET]) {
            Some(size) => size,
            None => {
                return Err(LoadError::UnknownRamSize);
            },
        };
        Ok(Cartridge { title, rom_path, cart_type, rom_size, ram_size })
    }

    /// Reads the header of a program image whose header is well formed.
    pub fn parse(buffer: &Vec<u8>, rom_path: String) -> (r: Cartridge)
        requires
            spec_parse(buffer@, rom_path@).is_ok(),
        ensures
            spec_parse(buffer@, rom_path@) == Ok::<CartridgeView, LoadError>(r@),
    {
        match Cartridge::try_parse(buffer, rom_path) {
            Ok(cartridge) => cartridge,
            Err(_) => unreached(),
        }
    }

    /// The header of a test cartridge without a controller or RAM.
    pub fn playdate_bodge_noop() -> (r: Cartridge)
        ensures
            r@ == (CartridgeView {
                title: "PLAYBOYTEST"@,
                rom_path: Seq::<char>::empty(),
                cart_type: 0,
                rom_size: 100,
                ram_size: 0,
            }),
    {
        Cartridge {
            title: "PLAYBOYTEST".to_owned(),
            rom_path: String::new(),
            cart_type: 0,
            rom_size: 100,
            ram_size: 0,
        }
    }
}

} // verus!
