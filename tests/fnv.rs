use lz_fnv::{Fnv0, Fnv1, Fnv1a, FnvHasher, FnvWord};

const BASIS_STRING: &[u8] = b"chongo <Landon Curt Noll> /\\../\\";

fn fnv1_of<T: FnvWord>(bytes: &[u8]) -> T {
    let mut h = Fnv1::<T>::new();
    h.write(bytes);
    h.finish()
}

fn fnv1a_of<T: FnvWord>(bytes: &[u8]) -> T {
    let mut h = Fnv1a::<T>::new();
    h.write(bytes);
    h.finish()
}

#[test]
fn fnv0_offset_calculation_32_bit() {
    let mut fnv0 = Fnv0::<u32>::new();
    fnv0.write(BASIS_STRING);
    assert_eq!(fnv0.finish(), 0x811c_9dc5);
}

#[test]
fn fnv0_offset_calculation_64_bit() {
    let mut fnv0 = Fnv0::<u64>::new();
    fnv0.write(BASIS_STRING);
    assert_eq!(fnv0.finish(), 0xcbf2_9ce4_8422_2325);
}

#[test]
fn fnv0_offset_calculation_128_bit() {
    let mut fnv0 = Fnv0::<u128>::new();
    fnv0.write(b"chongo <Landon Curt Noll> /\\../\\");
    assert_eq!(fnv0.finish(), 0x6C62_272E_07BB_0142_62B8_2175_6295_C58D);
}

#[test]
fn offset_basis_matches_fnv1_default() {
    let mut fnv0 = Fnv0::<u128>::with_key(0);
    fnv0.write(BASIS_STRING);
    assert_eq!(fnv0.finish(), Fnv1::<u128>::new().finish());
    assert_eq!(fnv0.finish(), Fnv1a::<u128>::new().finish());
}

#[test]
fn empty_input_keeps_initial_value() {
    let mut a = Fnv0::<u32>::with_key(872);
    a.write(b"");
    assert_eq!(a.finish(), 872);
    assert_eq!(fnv1_of::<u32>(b""), 0x811c_9dc5);
    assert_eq!(fnv1a_of::<u32>(b""), 0x811c_9dc5);
    assert_eq!(fnv1_of::<u64>(b""), 0xcbf2_9ce4_8422_2325);
    assert_eq!(fnv1a_of::<u64>(b""), 0xcbf2_9ce4_8422_2325);
    assert_eq!(fnv1_of::<u128>(b""), 0x6c62_272e_07bb_0142_62b8_2175_6295_c58d);
    assert_eq!(fnv1a_of::<u128>(b""), 0x6c62_272e_07bb_0142_62b8_2175_6295_c58d);
    assert_eq!(Fnv0::<u64>::new().finish(), 0);
}

#[test]
fn fnv0_single_byte_from_zero() {
    let mut h = Fnv0::<u64>::new();
    h.write(b"a");
    assert_eq!(h.finish(), 0x61);
}

#[test]
fn fnv0_32_bit_foobar() {
    let mut h = Fnv0::<u32>::new();
    h.write(b"foobar");
    assert_eq!(h.finish(), 0xb74b_b5ef);
}

#[test]
fn fnv1_32_bit_vectors() {
    assert_eq!(fnv1_of::<u32>(b"a"), 0x050c_5d7e);
    assert_eq!(fnv1_of::<u32>(b"foobar"), 0x31f0_b262);
}

#[test]
fn fnv1a_32_bit_vectors() {
    assert_eq!(fnv1a_of::<u32>(b"a"), 0xe40c_292c);
    assert_eq!(fnv1a_of::<u32>(b"foobar"), 0xbf9c_f968);
}

#[test]
fn fnv1_64_bit_vectors() {
    assert_eq!(fnv1_of::<u64>(b"a"), 0xaf63_bd4c_8601_b7be);
    assert_eq!(fnv1_of::<u64>(b"foobar"), 0x340d_8765_a4dd_a9c2);
}

#[test]
fn fnv1a_64_bit_vectors() {
    assert_eq!(fnv1a_of::<u64>(b"a"), 0xaf63_dc4c_8601_ec8c);
    assert_eq!(fnv1a_of::<u64>(b"foobar"), 0x8594_4171_f739_67e8);
}

#[test]
fn fnv1_128_bit_vectors() {
    assert_eq!(fnv1_of::<u128>(b"a"), 0xd228_cb69_101a_8caf_7891_2b70_4e4a_141e);
    assert_eq!(fnv1_of::<u128>(b"foobar"), 0x7896_bfea_9c3c_64bf_6dc5_8353_d2c2_93aa);
}

#[test]
fn fnv1a_128_bit_vectors() {
    assert_eq!(fnv1a_of::<u128>(b"a"), 0xd228_cb69_6f1a_8caf_7891_2b70_4e4a_8964);
    assert_eq!(fnv1a_of::<u128>(b"foobar"), 0x343e_1662_793c_64bf_6f0d_3597_ba44_6f18);
}

#[test]
fn fnv1_and_fnv1a_differ_on_foobar() {
    assert_ne!(fnv1_of::<u32>(b"foobar"), fnv1a_of::<u32>(b"foobar"));
    assert_ne!(fnv1_of::<u64>(b"foobar"), fnv1a_of::<u64>(b"foobar"));
    assert_ne!(fnv1_of::<u128>(b"foobar"), fnv1a_of::<u128>(b"foobar"));
}

#[test]
fn split_writes_equal_one_write() {
    let mut split = Fnv1a::<u64>::new();
    split.write(b"foo");
    split.write(b"");
    split.write(b"bar");
    assert_eq!(split.finish(), 0x8594_4171_f739_67e8);

    let mut split1 = Fnv1::<u128>::new();
    split1.write(b"fo");
    split1.write(b"obar");
    assert_eq!(split1.finish(), fnv1_of::<u128>(b"foobar"));

    let mut split0 = Fnv0::<u32>::with_key(7);
    split0.write(b"f");
    split0.write(b"oobar");
    let mut whole0 = Fnv0::<u32>::with_key(7);
    whole0.write(b"foobar");
    assert_eq!(split0.finish(), whole0.finish());
}

#[test]
fn finish_is_repeatable() {
    let mut h = Fnv1a::<u32>::new();
    h.write(b"foo");
    let first = h.finish();
    assert_eq!(h.finish(), first);
    h.write(b"bar");
    assert_eq!(h.finish(), 0xbf9c_f968);
    assert_eq!(h.finish(), 0xbf9c_f968);
}

#[test]
fn with_key_sets_accumulator() {
    assert_eq!(Fnv0::with_key(872u32).finish(), 872);
    assert_eq!(Fnv1::with_key(872u32).finish(), 872);
    assert_eq!(Fnv1a::with_key(872u32).finish(), 872);
    let mut keyed = Fnv1::with_key(0x811c_9dc5u32);
    keyed.write(b"a");
    assert_eq!(keyed.finish(), 0x050c_5d7e);
}

#[test]
fn default_matches_new() {
    assert_eq!(Fnv0::<u32>::default().finish(), 0);
    assert_eq!(Fnv1::<u64>::default().finish(), 0xcbf2_9ce4_8422_2325);
    assert_eq!(Fnv1a::<u128>::default().finish(), 0x6c62_272e_07bb_0142_62b8_2175_6295_c58d);
}

#[test]
fn std_hasher_on_64_bit() {
    let mut h = Fnv1a::<u64>::new();
    std::hash::Hasher::write(&mut h, b"foobar");
    assert_eq!(std::hash::Hasher::finish(&h), 0x8594_4171_f739_67e8);
    let mut h1 = Fnv1::<u64>::new();
    std::hash::Hasher::write(&mut h1, b"foobar");
    assert_eq!(std::hash::Hasher::finish(&h1), 0x340d_8765_a4dd_a9c2);
    let mut h0 = Fnv0::<u64>::new();
    std::hash::Hasher::write(&mut h0, b"a");
    assert_eq!(std::hash::Hasher::finish(&h0), 0x61);
}

#[test]
fn word_operations_wrap() {
    assert_eq!(0xffff_ffffu32.wrapping_mul_by(2), 0xffff_fffe);
    assert_eq!(u64::MAX.wrapping_mul_by(u64::MAX), 1);
    assert_eq!(u128::MAX.wrapping_mul_by(3), u128::MAX - 2);
    assert_eq!(0xf0u32.xor_with(0xff), 0x0f);
    assert_eq!(<u128 as FnvWord>::from_byte(0xff), 0xff);
    assert_eq!(<u64 as FnvWord>::from_byte(0x80), 0x80);
    assert_eq!(<u32 as FnvWord>::prime(), 0x0100_0193);
    assert_eq!(<u64 as FnvWord>::prime(), 0x0100_0000_01b3);
    assert_eq!(<u128 as FnvWord>::prime(), 0x0000_0000_0100_0000_0000_0000_0000_013b);
    assert_eq!(<u32 as FnvWord>::zero(), 0);
}

#[test]
fn long_input_all_bytes() {
    let bytes: Vec<u8> = (0..=255u8).collect();
    let mut whole = Fnv1a::<u64>::new();
    whole.write(&bytes);
    let mut parts = Fnv1a::<u64>::new();
    for chunk in bytes.chunks(17) {
        parts.write(chunk);
    }
    assert_eq!(whole.finish(), parts.finish());
}
