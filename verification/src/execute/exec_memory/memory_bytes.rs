use vstd::prelude::*;

verus! {

pub fn get_u8_bytes(data: &[u8], offset: usize) -> (r: [u8; 1])
    requires
        offset + 1 <= data@.len(),
    ensures
        r@ == data@.subrange(offset as int, offset + 1),
{
    let r = [data[offset]];
    assert(r@ =~= data@.subrange(offset as int, offset + 1));
    r
}

pub fn get_u16_bytes(data: &[u8], offset: usize) -> (r: [u8; 2])
    requires
        offset + 2 <= data@.len(),
    ensures
        r@ == data@.subrange(offset as int, offset + 2),
{
    let r = [data[offset], data[offset + 1]];
    assert(r@ =~= data@.subrange(offset as int, offset + 2));
    r
}

pub fn get_u32_bytes(data: &[u8], offset: usize) -> (r: [u8; 4])
    requires
        offset + 4 <= data@.len(),
    ensures
        r@ == data@.subrange(offset as int, offset + 4),
{
    let r = [data[offset], data[offset + 1], data[offset + 2], data[offset + 3]];
    assert(r@ =~= data@.subrange(offset as int, offset + 4));
    r
}

pub fn get_u64_bytes(data: &[u8], offset: usize) -> (r: [u8; 8])
    requires
        offset + 8 <= data@.len(),
    ensures
        r@ == data@.subrange(offset as int, offset + 8),
{
    let r = [
        data[offset],
        data[offset + 1],
        data[offset + 2],
        data[offset + 3],
        data[offset + 4],
        data[offset + 5],
        data[offset + 6],
        data[offset + 7],
    ];
    assert(r@ =~= data@.subrange(offset as int, offset + 8));
    r
}

/// Reads a fixed number of bytes of memory into a value of type `B`.
pub trait BytesGetter<B> {
    /// How many bytes a value of type `B` holds.
    spec fn width() -> nat;

    /// The bytes that `b` holds, in order.
    spec fn bytes_of(b: B) -> Seq<u8>;

    /// The `width()` bytes of `data` from `offset` on.
    fn get_bytes(data: &Vec<u8>, offset: usize) -> (r: B)
        requires
            offset + Self::width() <= data@.len(),
        ensures
            Self::bytes_of(r) == data@.subrange(offset as int, offset + Self::width()),
    ;
}

/// The reader of memory bytes.
pub struct MemoryBytesGetter;

impl BytesGetter<[u8; 1]> for MemoryBytesGetter {
    open spec fn width() -> nat {
        1
    }

    open spec fn bytes_of(b: [u8; 1]) -> Seq<u8> {
        b@
    }

    fn get_bytes(data: &Vec<u8>, offset: usize) -> (r: [u8; 1]) {
        get_u8_bytes(data.as_slice(), offset)
    }
}

impl BytesGetter<[u8; 2]> for MemoryBytesGetter {
    open spec fn width() -> nat {
        2
    }

    open spec fn bytes_of(b: [u8; 2]) -> Seq<u8> {
        b@
    }

    fn get_bytes(data: &Vec<u8>, offset: usize) -> (r: [u8; 2]) {
        get_u16_bytes(data.as_slice(), offset)
    }
}

impl BytesGetter<[u8; 4]> for MemoryBytesGetter {
    open spec fn width() -> nat {
        4
    }

    open spec fn bytes_of(b: [u8; 4]) -> Seq<u8> {
        b@
    }

    fn get_bytes(data: &Vec<u8>, offset: usize) -> (r: [u8; 4]) {
        get_u32_bytes(data.as_slice(), offset)
    }
}

impl BytesGetter<[u8; 8]> for MemoryBytesGetter {
    open spec fn width() -> nat {
        8
    }

    open spec fn bytes_of(b: [u8; 8]) -> Seq<u8> {
        b@
    }

    fn get_bytes(data: &Vec<u8>, offset: usize) -> (r: [u8; 8]) {
        get_u64_bytes(data.as_slice(), offset)
    }
}

impl BytesGetter<[u8; 16]> for MemoryBytesGetter {
    open spec fn width() -> nat {
        16
    }

    open spec fn bytes_of(b: [u8; 16]) -> Seq<u8> {
        b@
    }

    fn get_bytes(data: &Vec<u8>, offset: usize) -> (r: [u8; 16]) {
        let mut arr = [0u8; 16];
        let len = data.len();
        let mut b: usize = 0;
        while b < 16
            invariant
                b <= 16,
                len == data@.len(),
                offset + 16 <= data@.len(),
                forall|j: int| 0 <= j < b ==> arr@[j] == data@[offset + j],
            decreases 16 - b,
        {
            arr.set(b, data[b + offset]);
            b = b + 1;
        }
        assert(arr@ =~= data@.subrange(offset as int, offset + 16));
        arr
    }
}

impl BytesGetter<Vec<u8>> for MemoryBytesGetter {
    open spec fn width() -> nat {
        16
    }

    open spec fn bytes_of(b: Vec<u8>) -> Seq<u8> {
        b@
    }

    fn get_bytes(data: &Vec<u8>, offset: usize) -> (r: Vec<u8>) {
        let arr: [u8; 16] = <MemoryBytesGetter as BytesGetter<[u8; 16]>>::get_bytes(data, offset);
        let mut v: Vec<u8> = Vec::new();
        let mut b: usize = 0;
        while b < 16
            invariant
                b <= 16,
                v@ == arr@.subrange(0, b as int),
            decreases 16 - b,
        {
            v.push(arr[b]);
            b = b + 1;
            assert(v@ =~= arr@.subrange(0, b as int));
        }
        assert(arr@.subrange(0, 16) =~= arr@);
        v
    }
}

/// Writes `bytes` into `data` from `ea` on.
pub fn set_bytes(data: &mut Vec<u8>, ea: usize, bytes: &[u8])
    requires
        ea + bytes@.len() <= old(data)@.len(),
    ensures
        final(data)@ == old(data)@.subrange(0, ea as int) + bytes@ + old(data)@.subrange(
            ea + bytes@.len(),
            old(data)@.len() as int,
        ),
{
    let ghost d = data@;
    let len = data.len();
    let mut i: usize = 0;
    while i < bytes.len()
        invariant
            i <= bytes@.len(),
            ea + bytes@.len() <= d.len(),
            d.len() == data@.len(),
            len == data@.len(),
            data@ == d.subrange(0, ea as int) + bytes@.subrange(0, i as int) + d.subrange(ea + i, d.len() as int),
        decreases bytes@.len() - i,
    {
        data.set(ea + i, bytes[i]);
        i = i + 1;
        proof {
            assert(data@ =~= d.subrange(0, ea as int) + bytes@.subrange(0, i as int) + d.subrange(ea + i, d.len() as int));
        }
    }
    proof {
        assert(bytes@.subrange(0, i as int) =~= bytes@);
    }
}

} // verus!
