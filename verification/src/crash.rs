//! What a crash dump carries of a panic.
use vstd::prelude::*;
use vstd::string::StringSliceAdditionalSpecFns;

verus! {

/// Marks a crash as one of this driver.
pub const PANIC_MAGIC: usize = 0x4C4E_3830;

/// One round of the 32-bit FNV-1a hash.
pub open spec fn fnv_round(hash: u32, byte: u8) -> u32 {
    (((hash ^ (byte as u32)) * 0x0100_0193) % 0x1_0000_0000) as u32
}

/// The 32-bit FNV-1a hash of some bytes.
pub open spec fn fnv1a(bytes: Seq<u8>) -> u32
    decreases bytes.len(),
{
    if bytes.len() == 0 {
        0x811C_9DC5
    } else {
        fnv_round(fnv1a(bytes.drop_last()), bytes.last())
    }
}

/// Hashes the path of a source file, so that a crash dump can carry it.
pub fn file_hash(path: &str) -> (hash: usize)
    ensures
        hash == fnv1a(path.spec_bytes()),
{
    let bytes = path.as_bytes();
    let mut hash: u32 = 0x811C_9DC5;
    let mut index: usize = 0;
    while index < bytes.len()
        invariant
            bytes@ == path.spec_bytes(),
            index <= bytes@.len(),
            hash == fnv1a(bytes@.take(index as int)),
        decreases bytes@.len() - index,
    {
        proof {
            let next = bytes@.take(index + 1);
            assert(next.drop_last() =~= bytes@.take(index as int));
            assert(next.last() == bytes@[index as int]);
        }
        hash = (hash ^ (bytes[index] as u32)).wrapping_mul(0x0100_0193);
        index = index + 1;
    }
    proof {
        assert(bytes@.take(index as int) =~= bytes@);
    }
    hash as usize
}

/// The four words of a crash: the driver's mark, line, column and the hash of
/// the file; zeros where the place is not known.
pub fn crash_words(location: Option<(u32, u32, &str)>) -> (words: [usize; 4])
    ensures
        words@ == match location {
            Some((line, column, file)) => seq![
                PANIC_MAGIC,
                line as usize,
                column as usize,
                fnv1a(file.spec_bytes()) as usize,
            ],
            None => seq![PANIC_MAGIC, 0usize, 0usize, 0usize],
        },
{
    match location {
        Some((line, column, file)) => {
            let hash: usize = file_hash(file);
            let words: [usize; 4] = [PANIC_MAGIC, line as usize, column as usize, hash];
            assert(words@ =~= seq![
                PANIC_MAGIC,
                line as usize,
                column as usize,
                fnv1a(file.spec_bytes()) as usize,
            ]);
            words
        },
        None => {
            let words: [usize; 4] = [PANIC_MAGIC, 0, 0, 0];
            assert(words@ =~= seq![PANIC_MAGIC, 0usize, 0usize, 0usize]);
            words
        },
    }
}

/// The hash starts at its basis and takes the bytes in order: each is mixed in and the
/// mixture multiplied by the prime, modulo the size of a word.
pub proof fn law_hash_takes_the_bytes_in_order(bytes: Seq<u8>, byte: u8)
    ensures
        fnv1a(Seq::empty()) == 2_166_136_261,
        fnv1a(bytes.push(byte)) == ((fnv1a(bytes) ^ byte as u32) * 16_777_619) % 4_294_967_296,
        PANIC_MAGIC == 0x4C4E_3830,
{
    assert(bytes.push(byte).drop_last() =~= bytes);
}

} // verus!
