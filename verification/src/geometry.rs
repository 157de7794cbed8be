//! The index data of the pentagon that the renderer draws, and its bytes.

use vstd::prelude::*;

verus! {

/// The number of corners of the pentagon.
pub const NUM_VERTICES: u32 = 5;

/// The corner that all triangles share.
pub const HUB: u16 = 4;

/// The number of triangles that the pentagon is cut into.
pub const NUM_TRIANGLES: u32 = 3;

/// The corners of the triangles, three per triangle.
pub const INDICES: [u16; 9] = [0, 1, 4, 1, 2, 4, 2, 3, 4];

/// The indices as a list.
pub fn indices() -> (list: Vec<u16>)
    ensures
        list@ == INDICES@,
        list@ == seq![0u16, 1u16, 4u16, 1u16, 2u16, 4u16, 2u16, 3u16, 4u16],
{
    let mut list: Vec<u16> = Vec::new();
    let mut i: usize = 0;
    while i < 9
        invariant
            i <= 9,
            list@ == INDICES@.take(i as int),
        decreases 9 - i,
    {
        list.push(INDICES[i]);
        assert(INDICES@.take(i + 1) =~= INDICES@.take(i as int).push(INDICES@[i as int]));
        i += 1;
    }
    assert(INDICES@.take(9) =~= INDICES@);
    assert(list@ =~= seq![0u16, 1u16, 4u16, 1u16, 2u16, 4u16, 2u16, 3u16, 4u16]);
    list
}

/// The low half of `value`.
pub open spec fn low_byte(value: u16) -> u8 {
    (value % 256) as u8
}

/// The high half of `value`.
pub open spec fn high_byte(value: u16) -> u8 {
    (value / 256) as u8
}

/// The bytes of `values`, two for each, the low half first.
pub open spec fn little_endian(values: Seq<u16>) -> Seq<u8> {
    Seq::new(
        2 * values.len(),
        |i: int|
            if i % 2 == 0 {
                low_byte(values[i / 2])
            } else {
                high_byte(values[i / 2])
            },
    )
}

/// The bytes of `values`, two for each, the high half first.
pub open spec fn big_endian(values: Seq<u16>) -> Seq<u8> {
    Seq::new(
        2 * values.len(),
        |i: int|
            if i % 2 == 0 {
                high_byte(values[i / 2])
            } else {
                low_byte(values[i / 2])
            },
    )
}

/// Whether `bytes` are the bytes of `values` as a machine may lay them out.
pub open spec fn is_layout_of(bytes: Seq<u8>, values: Seq<u16>) -> bool {
    bytes == little_endian(values) || bytes == big_endian(values)
}

/// `bytemuck::cast_slice` from `u16` to `u8`. Its source shows that it
/// reinterprets the memory of the slice, which for a target of alignment 1
/// and size 1 cannot fail. Taken on trust: the result holds the two bytes of
/// each value in turn, in the byte order of the machine, which is one and the
/// same for all values.
#[verifier::external_body]
fn cast_to_bytes(values: &[u16]) -> (bytes: &[u8])
    ensures
        is_layout_of(bytes@, values@),
{
    bytemuck::cast_slice(values)
}

/// The contents of the index buffer: the bytes of [`INDICES`] in the byte
/// order of the machine.
pub fn index_data() -> (bytes: Vec<u8>)
    ensures
        is_layout_of(bytes@, INDICES@),
        bytes@.len() == 2 * INDICES@.len(),
{
    let list = indices();
    let bytes = cast_to_bytes(list.as_slice());
    vstd::slice::slice_to_vec(bytes)
}

/// The three corners of triangle `k`.
pub open spec fn triangle(k: int) -> (int, int, int) {
    (INDICES@[3 * k] as int, INDICES@[3 * k + 1] as int, INDICES@[3 * k + 2] as int)
}

/// The triangles form a fan: triangle `k` joins the corners `k`, `k + 1` and
/// the hub. So every index names one of the corners.
pub proof fn lemma_indices_form_fan()
    ensures
        INDICES@.len() == 3 * NUM_TRIANGLES,
        forall|k: int| 0 <= k < NUM_TRIANGLES ==> #[trigger] triangle(k) == (k, k + 1, HUB as int),
        forall|i: int| 0 <= i < INDICES@.len() ==> INDICES@[i] < NUM_VERTICES,
{
}

} // verus!
