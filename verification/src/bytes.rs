use vstd::prelude::*;

verus! {

broadcast use vstd::array::group_array_axioms;

/// The 32-byte array whose first `n` bytes are those of `s` and whose other
/// bytes are zero.
pub open spec fn array32_prefix(s: Seq<u8>, n: nat) -> [u8; 32]
    decreases n,
{
    if n == 0 {
        vstd::array::spec_array_fill_for_copy_type::<u8, 32>(0u8)
    } else {
        vstd::array::spec_array_update(array32_prefix(s, (n - 1) as nat), n - 1, s[n - 1])
    }
}

/// The 32-byte array holding the bytes of `s`.
pub open spec fn array32(s: Seq<u8>) -> [u8; 32] {
    array32_prefix(s, 32)
}

proof fn lemma_array32_prefix(s: Seq<u8>, n: nat)
    requires
        n <= 32,
    ensures
        array32_prefix(s, n)@.len() == 32,
        forall|i: int| 0 <= i < n ==> #[trigger] array32_prefix(s, n)@[i] == s[i],
    decreases n,
{
    if n > 0 {
        lemma_array32_prefix(s, (n - 1) as nat);
    }
}

/// `array32` holds exactly the bytes it is given.
pub proof fn lemma_array32(s: Seq<u8>)
    requires
        s.len() == 32,
    ensures
        array32(s)@ == s,
{
    lemma_array32_prefix(s, 32);
    assert(array32(s)@ =~= s);
}

/// An array is the `array32` of its own bytes.
pub proof fn lemma_array32_of_view(a: [u8; 32])
    ensures
        array32(a@) == a,
{
    lemma_array32(a@);
    assert(array32(a@) =~= a);
}

/// `data` with `bytes` written over it from `offset` on.
pub open spec fn spliced(data: Seq<u8>, offset: int, bytes: Seq<u8>) -> Seq<u8> {
    data.take(offset) + bytes + data.skip(offset + bytes.len())
}

/// Writes `bytes` into `data` from `offset` on, leaving every other byte as it was.
pub fn write_bytes(data: &mut [u8], offset: usize, bytes: &[u8])
    requires
        offset + bytes@.len() <= old(data)@.len(),
    ensures
        final(data)@ == spliced(old(data)@, offset as int, bytes@),
{
    let n = bytes.len();
    let len = data.len();
    let ghost start = data@;
    let mut i: usize = 0;
    while i < n
        invariant
            n == bytes@.len(),
            len == start.len(),
            offset + n <= start.len(),
            data@.len() == start.len(),
            0 <= i <= n,
            forall|k: int| 0 <= k < offset ==> data@[k] == start[k],
            forall|k: int| 0 <= k < i ==> data@[offset + k] == bytes@[k],
            forall|k: int| offset + i <= k < start.len() ==> data@[k] == start[k],
        decreases n - i,
    {
        data[offset + i] = bytes[i];
        i = i + 1;
    }
    assert(data@ =~= spliced(start, offset as int, bytes@));
}

/// Copies the 32 bytes of `data` that start at `offset`.
pub fn read_array32(data: &[u8], offset: usize) -> (r: [u8; 32])
    requires
        offset + 32 <= data@.len(),
    ensures
        r@ == data@.subrange(offset as int, offset + 32),
{
    let len = data.len();
    let mut r: [u8; 32] = [0u8; 32];
    let mut i: usize = 0;
    while i < 32
        invariant
            offset + 32 <= data@.len(),
            len == data@.len(),
            0 <= i <= 32,
            r@.len() == 32,
            forall|k: int| 0 <= k < i ==> r@[k] == data@[offset + k],
        decreases 32 - i,
    {
        r[i] = data[offset + i];
        i = i + 1;
    }
    assert(r@ =~= data@.subrange(offset as int, offset + 32));
    r
}

/// Whether two 32-byte values are the same.
pub fn same32(a: &[u8; 32], b: &[u8; 32]) -> (r: bool)
    ensures
        r == (a@ == b@),
{
    let mut i: usize = 0;
    while i < 32
        invariant
            a@.len() == 32,
            b@.len() == 32,
            0 <= i <= 32,
            forall|k: int| 0 <= k < i ==> a@[k] == b@[k],
        decreases 32 - i,
    {
        if a[i] != b[i] {
            return false;
        }
        i = i + 1;
    }
    assert(a@ =~= b@);
    true
}

} // verus!
