//! The shader code the graphics pipeline is built from.

use vstd::prelude::*;

verus! {

/// `std::io::Error`, the error `ash::util::read_spv` reports; opaque here.
#[verifier::external_type_specification]
#[verifier::external_body]
pub struct ExIoError(std::io::Error);

/// The first word of every SPIR-V module.
pub const SPIRV_MAGIC: u32 = 0x0723_0203;

/// Word `i` of `bytes`, read little-endian.
pub open spec fn word_le(bytes: Seq<u8>, i: int) -> u32 {
    (bytes[4 * i] as int + bytes[4 * i + 1] as int * 0x100 + bytes[4 * i + 2] as int * 0x1_0000
        + bytes[4 * i + 3] as int * 0x100_0000) as u32
}

/// Word `i` of `bytes`, read big-endian.
pub open spec fn word_be(bytes: Seq<u8>, i: int) -> u32 {
    (bytes[4 * i + 3] as int + bytes[4 * i + 2] as int * 0x100 + bytes[4 * i + 1] as int * 0x1_0000
        + bytes[4 * i] as int * 0x100_0000) as u32
}

/// The bytes start with the SPIR-V magic number written little-endian.
pub open spec fn magic_little_endian(bytes: Seq<u8>) -> bool {
    bytes.len() >= 4 && bytes[0] == 0x03 && bytes[1] == 0x02 && bytes[2] == 0x23 && bytes[3] == 0x07
}

/// The bytes start with the SPIR-V magic number written big-endian.
pub open spec fn magic_big_endian(bytes: Seq<u8>) -> bool {
    bytes.len() >= 4 && bytes[0] == 0x07 && bytes[1] == 0x23 && bytes[2] == 0x02 && bytes[3] == 0x03
}

/// The bytes are whole 32-bit words that start with the magic number, in
/// either byte order.
pub open spec fn is_spirv(bytes: Seq<u8>) -> bool {
    bytes.len() % 4 == 0 && (magic_little_endian(bytes) || magic_big_endian(bytes))
}

/// The words of SPIR-V bytes, each read in the byte order of the magic number.
pub open spec fn spirv_words(bytes: Seq<u8>) -> Seq<u32> {
    Seq::new(
        bytes.len() / 4,
        |i: int|
            if magic_little_endian(bytes) {
                word_le(bytes, i)
            } else {
                word_be(bytes, i)
            },
    )
}

/// What counts as SPIR-V and how its words are read: a non-empty whole
/// number of 4-byte words whose first four bytes are `03 02 23 07` (words
/// little-endian) or `07 23 02 03` (words big-endian); word `i` is made of
/// bytes `4i .. 4i + 4` in that order, so the first word is the magic number.
pub proof fn lemma_spirv_meaning(bytes: Seq<u8>)
    ensures
        is_spirv(bytes) <==> bytes.len() % 4 == 0 && bytes.len() >= 4 && ((bytes[0] == 3 && bytes[1]
            == 2 && bytes[2] == 0x23 && bytes[3] == 7) || (bytes[0] == 7 && bytes[1] == 0x23
            && bytes[2] == 2 && bytes[3] == 3)),
        spirv_words(bytes).len() == bytes.len() / 4,
        is_spirv(bytes) ==> spirv_words(bytes)[0] == 0x0723_0203,
        forall|i: int|
            0 <= i < bytes.len() / 4 && bytes.len() >= 4 && bytes[0] == 3 && bytes[1] == 2
                && bytes[2] == 0x23 && bytes[3] == 7 ==> #[trigger] spirv_words(bytes)[i] == (bytes[4 * i]
                + 0x100 * bytes[4 * i + 1] + 0x1_0000 * bytes[4 * i + 2] + 0x100_0000 * bytes[4 * i
                + 3]) as u32,
        forall|i: int|
            0 <= i < bytes.len() / 4 && bytes.len() >= 4 && bytes[0] == 7 && bytes[1] == 0x23
                && bytes[2] == 2 && bytes[3] == 3 ==> #[trigger] spirv_words(bytes)[i] == (bytes[4 * i
                + 3] + 0x100 * bytes[4 * i + 2] + 0x1_0000 * bytes[4 * i + 1] + 0x100_0000
                * bytes[4 * i]) as u32,
{
}

/// `ash::util::read_spv` on a cursor over `bytes`. Its contract claims what
/// ash's body shows: the bytes are read as native-endian words, all swapped
/// when the first is the byte-swapped magic number, and the result is an
/// error unless the length is a multiple of four and the first word is then
/// the magic number. So it succeeds exactly on SPIR-V in either byte order,
/// with the words read in the magic number's order.
#[verifier::external_body]
fn read_spv(bytes: &[u8]) -> (r: Result<Vec<u32>, std::io::Error>)
    ensures
        r is Ok <==> is_spirv(bytes@),
        r matches Ok(words) ==> words@ == spirv_words(bytes@),
{
    ash::util::read_spv(&mut std::io::Cursor::new(bytes))
}

/// Why shader code cannot be loaded.
#[derive(Clone, Copy, Debug, PartialEq, Eq, Structural)]
pub enum ShaderError {
    /// The bytes are not a SPIR-V module.
    InvalidSpirv,
}

/// The words of a compiled shader, ready for `vkCreateShaderModule`.
pub fn read_shader_code(bytes: &[u8]) -> (r: Result<Vec<u32>, ShaderError>)
    ensures
        r is Ok <==> is_spirv(bytes@),
        r matches Ok(words) ==> {
            &&& words@ == spirv_words(bytes@)
            &&& words@.len() == bytes@.len() / 4
            &&& words@[0] == SPIRV_MAGIC
        },
        r matches Err(e) ==> e == ShaderError::InvalidSpirv,
{
    match read_spv(bytes) {
        Ok(words) => {
            assert(words@[0] == SPIRV_MAGIC);
            Ok(words)
        },
        Err(_) => Err(ShaderError::InvalidSpirv),
    }
}

} // verus!
