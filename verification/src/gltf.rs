use vstd::prelude::*;

verus! {

/// The little-endian `u16` made of the bytes at `i` and `i + 1`.
pub open spec fn u16_at(bytes: Seq<u8>, i: int) -> u16 {
    (bytes[i] as int + 256 * bytes[i + 1] as int) as u16
}

/// The vertex indices that a buffer view holds: a little-endian `u16` at every second byte
/// from `byte_offset`, for each position below `byte_offset + byte_length`.
pub fn read_u16_indices(binary_data: &[u8], byte_offset: usize, byte_length: usize) -> (indices: Vec<u16>)
    requires
        byte_offset + byte_length <= usize::MAX,
        byte_length > 0 ==> byte_offset + 2 * ((byte_length - 1) as int / 2) + 1 < binary_data@.len(),
    ensures
        indices@.len() == (byte_length + 1) / 2,
        forall|k: int| 0 <= k < indices@.len() ==> #[trigger] indices@[k] == u16_at(binary_data@, byte_offset + 2 * k),
{
    let count = byte_length / 2 + byte_length % 2;
    assert(count == (byte_length + 1) / 2) by (nonlinear_arith)
        requires
            count == byte_length / 2 + byte_length % 2,
    ;
    let mut indices: Vec<u16> = Vec::new();
    let mut k: usize = 0;
    while k < count
        invariant
            count == (byte_length + 1) / 2,
            k <= count,
            indices@.len() == k,
            byte_offset + byte_length <= usize::MAX,
            byte_length > 0 ==> byte_offset + 2 * ((byte_length - 1) as int / 2) + 1 < binary_data@.len(),
            forall|i: int| 0 <= i < indices@.len() ==> #[trigger] indices@[i] == u16_at(binary_data@, byte_offset + 2 * i),
        decreases count - k,
    {
        assert(2 * k <= 2 * ((byte_length - 1) as int / 2)) by (nonlinear_arith)
            requires
                k < count,
                count == (byte_length + 1) / 2,
                byte_length > 0,
        ;
        let byte_index = byte_offset + 2 * k;
        let low = binary_data[byte_index] as u16;
        let high = binary_data[byte_index + 1] as u16;
        indices.push(low + high * 256);
        k = k + 1;
    }
    indices
}

} // verus!
