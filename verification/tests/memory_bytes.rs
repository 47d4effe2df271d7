use rasmus::execute::exec_memory::memory_bytes::{get_u16_bytes, BytesGetter, MemoryBytesGetter};

#[test]
fn reads_fixed_numbers_of_bytes() {
    let data: Vec<u8> = (0u8..32).collect();
    let four: [u8; 4] = MemoryBytesGetter::get_bytes(&data, 3);
    assert_eq!(four, [3, 4, 5, 6]);
    let one: [u8; 1] = MemoryBytesGetter::get_bytes(&data, 31);
    assert_eq!(one, [31]);
    let sixteen: Vec<u8> = MemoryBytesGetter::get_bytes(&data, 16);
    assert_eq!(sixteen, (16u8..32).collect::<Vec<u8>>());
    assert_eq!(get_u16_bytes(&data, 30), [30, 31]);
}
