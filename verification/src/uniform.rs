//! The camera record as the shader reads it: sixteen 32-bit words, in which
//! each three-component vector starts on a 16-byte boundary.
//!
//! The words are the bit patterns of the numbers that the shader expects.
//! They are placed, never interpreted.

use vstd::prelude::*;

verus! {

/// Words in the record.
pub const UNIFORM_WORDS: usize = 16;

/// Bytes in the record.
pub const UNIFORM_BYTES: usize = 64;

/// Word index at which the position starts.
pub const POSITION_AT: usize = 0;

/// Word index at which the view direction starts.
pub const DIRECTION_AT: usize = 4;

/// Word index at which the up vector starts.
pub const UP_AT: usize = 8;

/// Word index of the field of view.
pub const FOV_AT: usize = 12;

/// Word index of the aspect.
pub const ASPECT_AT: usize = 13;

/// Word index at which the resolution starts.
pub const RESOLUTION_AT: usize = 14;

/// Three words: the components of a vector.
#[derive(Clone, Copy, Debug, PartialEq, Eq, Structural)]
pub struct Words3 {
    pub x: u32,
    pub y: u32,
    pub z: u32,
}

/// Two words: a width and a height.
#[derive(Clone, Copy, Debug, PartialEq, Eq, Structural)]
pub struct Words2 {
    pub x: u32,
    pub y: u32,
}

/// The values that go into the record, each as its 32-bit pattern.
#[derive(Clone, Copy, Debug, PartialEq, Eq, Structural)]
pub struct CameraWords {
    pub position: Words3,
    pub direction: Words3,
    pub up: Words3,
    pub fov: u32,
    pub aspect: u32,
    pub resolution: Words2,
}

/// Where the fields of a record lie: the byte offset of each, and the size
/// of the whole in bytes.
#[derive(Clone, Copy, Debug, PartialEq, Eq, Structural)]
pub struct BlockLayout {
    pub position: usize,
    pub direction: usize,
    pub up: usize,
    pub fov: usize,
    pub aspect: usize,
    pub resolution: usize,
    pub size: usize,
}

/// The shader declares its record otherwise than this library lays it out.
#[derive(Clone, Copy, Debug, PartialEq, Eq, Structural)]
pub struct LayoutMismatch {
    pub expected: BlockLayout,
    pub declared: BlockLayout,
}

/// The layout of the record that `pack` produces.
pub open spec fn record_layout() -> BlockLayout {
    BlockLayout {
        position: (4 * POSITION_AT) as usize,
        direction: (4 * DIRECTION_AT) as usize,
        up: (4 * UP_AT) as usize,
        fov: (4 * FOV_AT) as usize,
        aspect: (4 * ASPECT_AT) as usize,
        resolution: (4 * RESOLUTION_AT) as usize,
        size: UNIFORM_BYTES,
    }
}

/// The record for `c`: position, direction and up, each followed by one word
/// of padding, then field of view, aspect and resolution.
pub open spec fn packed(c: CameraWords) -> Seq<u32> {
    seq![
        c.position.x, c.position.y, c.position.z, 0u32,
        c.direction.x, c.direction.y, c.direction.z, 0u32,
        c.up.x, c.up.y, c.up.z, 0u32,
        c.fov, c.aspect, c.resolution.x, c.resolution.y,
    ]
}

/// Byte `k` of `word`, counted from the least significant.
pub open spec fn byte_of(word: u32, k: int) -> u8 {
    ((word as int / pow256(k)) % 256) as u8
}

/// 256 to the power `k`, for the four bytes of a word.
pub open spec fn pow256(k: int) -> int {
    if k <= 0 {
        1
    } else if k == 1 {
        0x100
    } else if k == 2 {
        0x1_0000
    } else {
        0x100_0000
    }
}

/// Byte `j` of `word` as it lies in memory.
pub open spec fn memory_byte(word: u32, j: int, little: bool) -> u8 {
    byte_of(word, if little { j } else { 3 - j })
}

/// The bytes of `words` in memory, four to a word, with the least
/// significant byte of each word first if `little` and last if not.
pub open spec fn bytes_of(words: Seq<u32>, little: bool) -> Seq<u8> {
    Seq::new(4 * words.len(), |i: int| memory_byte(words[i / 4], i % 4, little))
}

/// Lays `c` out as the record.
pub fn pack(c: &CameraWords) -> (block: [u32; 16])
    ensures
        block@ == packed(*c),
{
    let block: [u32; 16] = [
        c.position.x, c.position.y, c.position.z, 0,
        c.direction.x, c.direction.y, c.direction.z, 0,
        c.up.x, c.up.y, c.up.z, 0,
        c.fov, c.aspect, c.resolution.x, c.resolution.y,
    ];
    assert(block@ =~= packed(*c));
    block
}

/// Gives the layout of the record that `pack` produces.
pub fn expected_layout() -> (layout: BlockLayout)
    ensures
        layout == record_layout(),
        layout == (BlockLayout {
            position: 0,
            direction: 16,
            up: 32,
            fov: 48,
            aspect: 52,
            resolution: 56,
            size: 64,
        }),
{
    BlockLayout {
        position: 4 * POSITION_AT,
        direction: 4 * DIRECTION_AT,
        up: 4 * UP_AT,
        fov: 4 * FOV_AT,
        aspect: 4 * ASPECT_AT,
        resolution: 4 * RESOLUTION_AT,
        size: UNIFORM_BYTES,
    }
}

/// Holds the layout that the shader declares for its record against the one
/// that `pack` produces: every offset and the size must agree.
pub fn check_layout(declared: &BlockLayout) -> (checked: Result<(), LayoutMismatch>)
    ensures
        checked.is_ok() == (*declared == record_layout()),
        checked.is_err() ==> checked.unwrap_err() == (LayoutMismatch {
            expected: record_layout(),
            declared: *declared,
        }),
{
    let expected = expected_layout();
    if *declared == expected {
        Ok(())
    } else {
        Err(LayoutMismatch { expected, declared: *declared })
    }
}

/// Calls `bytemuck::cast_slice` to view the sixteen words as bytes, and
/// copies them out. Trusted: the bytes are those of the words as they lie in
/// memory, so 64 of them, each word's four either least significant first or
/// most significant first, as the machine has it. A cast from words to bytes
/// never fails, since bytes need no alignment and four of them fill a word.
#[verifier::external_body]
fn memory_bytes(block: &[u32; 16]) -> (bytes: Vec<u8>)
    ensures
        bytes@ == bytes_of(block@, true) || bytes@ == bytes_of(block@, false),
{
    bytemuck::cast_slice::<u32, u8>(block).to_vec()
}

/// The bytes of the record for `c`, as they are handed to the GPU.
pub fn record_bytes(c: &CameraWords) -> (bytes: Vec<u8>)
    ensures
        bytes@.len() == UNIFORM_BYTES,
        bytes@ == bytes_of(packed(*c), true) || bytes@ == bytes_of(packed(*c), false),
{
    let block = pack(c);
    memory_bytes(&block)
}

/// Each value stands in the record at the index named for it.
pub proof fn lemma_pack_keeps_values(c: CameraWords)
    ensures
        packed(c).len() == UNIFORM_WORDS,
        packed(c)[POSITION_AT as int] == c.position.x,
        packed(c)[POSITION_AT + 1] == c.position.y,
        packed(c)[POSITION_AT + 2] == c.position.z,
        packed(c)[DIRECTION_AT as int] == c.direction.x,
        packed(c)[DIRECTION_AT + 1] == c.direction.y,
        packed(c)[DIRECTION_AT + 2] == c.direction.z,
        packed(c)[UP_AT as int] == c.up.x,
        packed(c)[UP_AT + 1] == c.up.y,
        packed(c)[UP_AT + 2] == c.up.z,
        packed(c)[FOV_AT as int] == c.fov,
        packed(c)[ASPECT_AT as int] == c.aspect,
        packed(c)[RESOLUTION_AT as int] == c.resolution.x,
        packed(c)[RESOLUTION_AT + 1] == c.resolution.y,
{
}

/// The bytes of each value lie in the record's bytes at the offset that the
/// layout gives for its field, the components of a vector one after another.
pub proof fn lemma_layout_locates_fields(c: CameraWords, little: bool, j: int)
    requires
        0 <= j < 4,
    ensures
        ({
            let bytes = bytes_of(packed(c), little);
            let at = record_layout();
            &&& bytes[at.position + j] == memory_byte(c.position.x, j, little)
            &&& bytes[at.position + 4 + j] == memory_byte(c.position.y, j, little)
            &&& bytes[at.position + 8 + j] == memory_byte(c.position.z, j, little)
            &&& bytes[at.direction + j] == memory_byte(c.direction.x, j, little)
            &&& bytes[at.direction + 4 + j] == memory_byte(c.direction.y, j, little)
            &&& bytes[at.direction + 8 + j] == memory_byte(c.direction.z, j, little)
            &&& bytes[at.up + j] == memory_byte(c.up.x, j, little)
            &&& bytes[at.up + 4 + j] == memory_byte(c.up.y, j, little)
            &&& bytes[at.up + 8 + j] == memory_byte(c.up.z, j, little)
            &&& bytes[at.fov + j] == memory_byte(c.fov, j, little)
            &&& bytes[at.aspect + j] == memory_byte(c.aspect, j, little)
            &&& bytes[at.resolution + j] == memory_byte(c.resolution.x, j, little)
            &&& bytes[at.resolution + 4 + j] == memory_byte(c.resolution.y, j, little)
            &&& bytes.len() == at.size
        }),
{
}

/// The padding after each vector is zero in the record's bytes, whichever
/// way the machine orders the bytes of a word.
pub proof fn lemma_padding_is_zero(c: CameraWords, little: bool, k: int)
    requires
        0 <= k < 4,
    ensures
        bytes_of(packed(c), little).len() == UNIFORM_BYTES,
        bytes_of(packed(c), little)[4 * (POSITION_AT + 3) + k] == 0,
        bytes_of(packed(c), little)[4 * (DIRECTION_AT + 3) + k] == 0,
        bytes_of(packed(c), little)[4 * (UP_AT + 3) + k] == 0,
{
}

/// Each vector of the record starts on a 16-byte boundary, and the record
/// is as long as its fields and their padding together.
pub proof fn lemma_vectors_aligned()
    ensures
        (4 * POSITION_AT) % 16 == 0,
        (4 * DIRECTION_AT) % 16 == 0,
        (4 * UP_AT) % 16 == 0,
        4 * UNIFORM_WORDS == UNIFORM_BYTES,
        RESOLUTION_AT + 2 == UNIFORM_WORDS,
{
}

} // verus!
