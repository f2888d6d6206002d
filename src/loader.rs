use vstd::prelude::*;
use crate::machine::{VM, MEMORY_SIZE};

verus! {

/// Word `i` of an image: bytes `2i` and `2i + 1`, big-endian.
pub open spec fn be_word(b: Seq<u8>, i: int) -> u16 {
    (b[2 * i] as int * 256 + b[2 * i + 1] as int) as u16
}

/// How many words after the origin an image places: those it holds whole,
/// cut off at the top of memory.
pub open spec fn loaded_len(b: Seq<u8>) -> int {
    let held = b.len() as int / 2 - 1;
    let room = MEMORY_SIZE as int - be_word(b, 0) as int;
    if held < room { held } else { room }
}

/// Copies an object image into memory. The image is a stream of big-endian
/// words: the first is the origin, the others go to origin, origin + 1, ...
/// up to the top of memory; a trailing odd byte is ignored. Returns the
/// origin, or `None`, with memory untouched, when the image holds no origin.
pub fn load_image(vm: &mut VM, image: &Vec<u8>) -> (r: Option<u16>)
    requires
        old(vm).wf(),
    ensures
        final(vm).wf(),
        final(vm).registers == old(vm).registers,
        image@.len() < 2 ==> r is None && final(vm).memory@ == old(vm).memory@,
        image@.len() >= 2 ==> r == Some(be_word(image@, 0)) && forall|a: int|
            0 <= a < MEMORY_SIZE ==> #[trigger] final(vm).memory@[a] == if be_word(image@, 0) <= a
                < be_word(image@, 0) + loaded_len(image@) {
                be_word(image@, a - be_word(image@, 0) + 1)
            } else {
                old(vm).memory@[a]
            },
{
    if image.len() < 2 {
        return None;
    }
    let origin: u16 = ((image[0] as u32) * 256 + image[1] as u32) as u16;
    let held: usize = image.len() / 2 - 1;
    let room: usize = MEMORY_SIZE - origin as usize;
    let n: usize = if held < room { held } else { room };
    let mut k: usize = 0;
    while k < n
        invariant
            vm.wf(),
            vm.registers == old(vm).registers,
            origin == be_word(image@, 0),
            n == loaded_len(image@),
            k <= n,
            2 * (n + 1) <= image@.len(),
            origin + n <= MEMORY_SIZE,
            forall|a: int|
                0 <= a < MEMORY_SIZE ==> #[trigger] vm.memory@[a] == if origin <= a < origin + k {
                    be_word(image@, a - origin + 1)
                } else {
                    old(vm).memory@[a]
                },
        decreases n - k,
    {
        let i: usize = 2 * (k + 1);
        let word: u16 = ((image[i] as u32) * 256 + image[i + 1] as u32) as u16;
        vm.memory.set(origin as usize + k, word);
        k = k + 1;
    }
    Some(origin)
}

} // verus!
