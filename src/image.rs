//! Download images: the declared file format, its resolution into an image
//! descriptor, and the region that a raw binary image fills.

use vstd::prelude::*;
use vstd::string::StrSliceExecFns;

verus! {

/// The file formats an image can be downloaded in.
#[derive(Clone, Copy, Debug, PartialEq, Eq, Structural)]
pub enum DownloadFileType {
    Elf,
    Hex,
    Bin,
}

/// Placement of a raw binary image.
#[derive(Clone, Copy, Debug, PartialEq, Eq, Structural)]
pub struct BinOptions {
    /// Where the first loaded byte goes; the start of memory if absent.
    pub base_address: Option<u32>,
    /// How many bytes at the start of the file are left out.
    pub skip: u32,
}

/// A resolved image descriptor.
#[derive(Clone, Copy, Debug, PartialEq, Eq, Structural)]
pub enum ImageFormat {
    Elf,
    Hex,
    Bin(BinOptions),
}

/// A block of bytes to be placed at an address.
#[derive(Debug)]
pub struct Region {
    pub address: u64,
    pub data: Vec<u8>,
}

/// Whether `c` is the letter whose lower and upper case forms are given.
pub open spec fn same_letter(c: char, lower: char, upper: char) -> bool {
    c == lower || c == upper
}

/// Whether `s` spells the three-letter word `w` (lower case), in any case.
pub open spec fn spells(s: Seq<char>, w: Seq<char>, upper: Seq<char>) -> bool {
    s.len() == 3 && same_letter(s[0], w[0], upper[0]) && same_letter(s[1], w[1], upper[1])
        && same_letter(s[2], w[2], upper[2])
}

/// The format that a token names: `elf`, `hex` or `bin` in any case.
pub open spec fn token_format(s: Seq<char>) -> Option<DownloadFileType> {
    if spells(s, seq!['e', 'l', 'f'], seq!['E', 'L', 'F']) {
        Some(DownloadFileType::Elf)
    } else if spells(s, seq!['h', 'e', 'x'], seq!['H', 'E', 'X']) {
        Some(DownloadFileType::Hex)
    } else if spells(s, seq!['b', 'i', 'n'], seq!['B', 'I', 'N']) {
        Some(DownloadFileType::Bin)
    } else {
        None
    }
}

/// The descriptor for a declared format and the raw-binary overrides: the
/// overrides count for `Bin` only, with no skip meaning zero.
pub open spec fn resolve_spec(
    kind: DownloadFileType,
    base_address: Option<u32>,
    skip: Option<u32>,
) -> ImageFormat {
    match kind {
        DownloadFileType::Elf => ImageFormat::Elf,
        DownloadFileType::Hex => ImageFormat::Hex,
        DownloadFileType::Bin => ImageFormat::Bin(
            BinOptions {
                base_address,
                skip: match skip {
                    Some(n) => n,
                    None => 0,
                },
            },
        ),
    }
}

/// The address at which a raw binary image starts.
pub open spec fn bin_address(options: BinOptions) -> u64 {
    match options.base_address {
        Some(a) => a as u64,
        None => 0,
    }
}

/// The bytes of a raw binary file that are loaded: all after the skipped
/// prefix, nothing where the prefix covers the whole file.
pub open spec fn bin_payload(options: BinOptions, file: Seq<u8>) -> Seq<u8> {
    if (options.skip as int) < file.len() {
        file.skip(options.skip as int)
    } else {
        Seq::empty()
    }
}

fn spells_word(s: &str, w: [char; 3], upper: [char; 3]) -> (r: bool)
    ensures
        r == spells(s@, w@, upper@),
{
    if s.unicode_len() != 3 {
        return false;
    }
    let c0 = s.get_char(0);
    let c1 = s.get_char(1);
    let c2 = s.get_char(2);
    (c0 == w[0] || c0 == upper[0]) && (c1 == w[1] || c1 == upper[1]) && (c2 == w[2] || c2
        == upper[2])
}

impl DownloadFileType {
    /// The format named by a token, `elf`, `hex` or `bin`, in any case.
    pub fn from_token(token: &str) -> (r: Option<DownloadFileType>)
        ensures
            r == token_format(token@),
    {
        if spells_word(token, ['e', 'l', 'f'], ['E', 'L', 'F']) {
            Some(DownloadFileType::Elf)
        } else if spells_word(token, ['h', 'e', 'x'], ['H', 'E', 'X']) {
            Some(DownloadFileType::Hex)
        } else if spells_word(token, ['b', 'i', 'n'], ['B', 'I', 'N']) {
            Some(DownloadFileType::Bin)
        } else {
            None
        }
    }

    /// Resolves the declared format and the raw-binary overrides into an image
    /// descriptor. ELF and Intel-HEX ignore the overrides without complaint.
    pub fn into(self, base_address: Option<u32>, skip: Option<u32>) -> (r: ImageFormat)
        ensures
            r == resolve_spec(self, base_address, skip),
    {
        match self {
            DownloadFileType::Elf => ImageFormat::Elf,
            DownloadFileType::Hex => ImageFormat::Hex,
            DownloadFileType::Bin => ImageFormat::Bin(
                BinOptions {
                    base_address,
                    skip: match skip {
                        Some(n) => n,
                        None => 0,
                    },
                },
            ),
        }
    }
}

/// The region that a raw binary file fills: its bytes after the skipped
/// prefix, placed at the base address.
pub fn bin_region(options: BinOptions, file: &Vec<u8>) -> (r: Region)
    ensures
        r.address == bin_address(options),
        r.data@ == bin_payload(options, file@),
{
    let address: u64 = match options.base_address {
        Some(a) => a as u64,
        None => 0,
    };
    let mut data: Vec<u8> = Vec::new();
    let start = options.skip as usize;
    let mut i: usize = start;
    while i < file.len()
        invariant
            start == options.skip as usize,
            start <= i || file@.len() <= start,
            i >= start,
            (start as int) < file@.len() ==> i <= file@.len(),
            (start as int) < file@.len() ==> data@ =~= file@.subrange(start as int, i as int),
            (start as int) >= file@.len() ==> data@.len() == 0,
        decreases file@.len() - i,
    {
        data.push(file[i]);
        i = i + 1;
    }
    proof {
        if (start as int) < file@.len() {
            assert(i as int == file@.len());
            assert(file@.skip(start as int) =~= file@.subrange(start as int, file@.len() as int));
        } else {
            assert(data@ =~= Seq::<u8>::empty());
        }
    }
    Region { address, data }
}

/// With no overrides a raw binary starts at the start of memory with nothing
/// skipped, and ELF and Intel-HEX resolve the same whatever overrides come.
pub proof fn lemma_format_resolution(base_address: Option<u32>, skip: Option<u32>)
    ensures
        resolve_spec(DownloadFileType::Bin, None, None) == ImageFormat::Bin(
            BinOptions { base_address: None, skip: 0 },
        ),
        resolve_spec(DownloadFileType::Elf, base_address, skip) == ImageFormat::Elf,
        resolve_spec(DownloadFileType::Hex, base_address, skip) == ImageFormat::Hex,
{
}

/// Loading a raw binary depends on nothing but the descriptor and the file's
/// bytes: the same image loaded twice fills the same region.
pub proof fn lemma_bin_load_repeats(
    first: BinOptions,
    second: BinOptions,
    file_a: Seq<u8>,
    file_b: Seq<u8>,
)
    requires
        first == second,
        file_a == file_b,
    ensures
        bin_address(first) == bin_address(second),
        bin_payload(first, file_a) == bin_payload(second, file_b),
{
}

} // verus!
