//! The 64KB byte-addressable memory: zero-initialized, bounds-safe by
//! construction (the address space exactly covers the 16-bit range), with
//! little-endian word access that wraps at the top of the address space, and
//! a load-image operation that rejects images exceeding the address space.

use vstd::prelude::*;

verus! {

/// The number of addressable bytes: the full 16-bit address space.
pub const MEM_SIZE: usize = 65536;

/// The error of a load whose image does not fit in the address space.
#[derive(Clone, Copy, PartialEq, Eq, Structural, Debug)]
pub enum LoadError {
    /// `origin + image length` exceeds the 64KB address space.
    LoadOverflow,
}

/// A 16-bit word assembled from a low and a high byte, little-endian.
pub open spec fn word_from(lo: u8, hi: u8) -> u16 {
    (hi * 256 + lo) as u16
}

/// The address one past `addr`, wrapping at the top of the address space.
pub open spec fn succ_addr(addr: u16) -> u16 {
    ((addr + 1) % 65536) as u16
}

/// The little-endian word stored at `addr`: low byte at `addr`, high byte at
/// the following address, which wraps from 0xFFFF to 0.
pub open spec fn word_at(m: Seq<u8>, addr: u16) -> u16 {
    word_from(m[addr as int], m[succ_addr(addr) as int])
}

/// `m` with the little-endian word `w` stored at `addr`; the high byte wraps
/// from 0xFFFF to 0.
pub open spec fn word_write(m: Seq<u8>, addr: u16, w: u16) -> Seq<u8> {
    m.update(addr as int, (w % 256) as u8).update(succ_addr(addr) as int, (w / 256) as u8)
}

/// `m` with `image` overlaid starting at `origin`; all other bytes kept.
pub open spec fn overlay(m: Seq<u8>, origin: u16, image: Seq<u8>) -> Seq<u8> {
    Seq::new(
        m.len(),
        |i: int|
            if origin <= i < origin + image.len() {
                image[i - origin]
            } else {
                m[i]
            },
    )
}

/// Reading back the word just written yields the same word, wherever the
/// two byte addresses do not collide (they never do: they differ modulo
/// 65536).
pub proof fn lemma_word_write_read(m: Seq<u8>, addr: u16, w: u16)
    requires
        m.len() == 65536,
    ensures
        word_at(word_write(m, addr, w), addr) == w,
{
    let m2 = word_write(m, addr, w);
    assert(succ_addr(addr) != addr);
    assert(m2[addr as int] == (w % 256) as u8);
    assert(m2[succ_addr(addr) as int] == (w / 256) as u8);
    assert(word_from((w % 256) as u8, (w / 256) as u8) == w);
}

/// The fixed 64KB memory of one emulator instance.
pub struct Memory {
    bytes: Vec<u8>,
}

impl View for Memory {
    type V = Seq<u8>;

    closed spec fn view(&self) -> Seq<u8> {
        self.bytes@
    }
}

impl Memory {
    /// The memory always covers the whole 16-bit address space.
    pub open spec fn wf(&self) -> bool {
        self@.len() == 65536
    }

    /// A fresh memory: 65536 bytes, all zero.
    pub fn new() -> (m: Memory)
        ensures
            m.wf(),
            m@ == Seq::new(65536, |i: int| 0u8),
    {
        let mut bytes: Vec<u8> = Vec::new();
        let mut i: usize = 0;
        while i < MEM_SIZE
            invariant
                i <= 65536,
                bytes@.len() == i,
                bytes@ == Seq::new(i as nat, |j: int| 0u8),
            decreases 65536 - i,
        {
            bytes.push(0u8);
            proof {
                assert(bytes@ =~= Seq::new((i + 1) as nat, |j: int| 0u8));
            }
            i = i + 1;
        }
        let m = Memory { bytes };
        proof {
            assert(m@ =~= Seq::new(65536, |i: int| 0u8));
        }
        m
    }

    /// The byte stored at `addr`; always in bounds by construction.
    pub fn read_byte(&self, addr: u16) -> (b: u8)
        requires
            self.wf(),
        ensures
            b == self@[addr as int],
    {
        self.bytes[addr as usize]
    }

    /// Stores `value` at `addr`; always in bounds by construction.
    pub fn write_byte(&mut self, addr: u16, value: u8)
        requires
            old(self).wf(),
        ensures
            final(self).wf(),
            final(self)@ == old(self)@.update(addr as int, value),
    {
        self.bytes[addr as usize] = value;
    }

    /// The little-endian word at `addr`; the high byte wraps from 0xFFFF to 0,
    /// matching real hardware.
    pub fn read_word(&self, addr: u16) -> (w: u16)
        requires
            self.wf(),
        ensures
            w == word_at(self@, addr),
    {
        let lo = self.bytes[addr as usize];
        let hi = self.bytes[((addr as u32 + 1) % 65536) as usize];
        hi as u16 * 256 + lo as u16
    }

    /// Stores the little-endian word `w` at `addr`; the high byte wraps from
    /// 0xFFFF to 0, matching real hardware.
    pub fn write_word(&mut self, addr: u16, w: u16)
        requires
            old(self).wf(),
        ensures
            final(self).wf(),
            final(self)@ == word_write(old(self)@, addr, w),
    {
        self.bytes[addr as usize] = (w % 256) as u8;
        let next = ((addr as u32 + 1) % 65536) as usize;
        self.bytes[next] = (w / 256) as u8;
    }

    /// Copies `image` into memory starting at `origin`.  Succeeds exactly when
    /// the image fits in the remaining address space; on failure the memory is
    /// unchanged.
    pub fn load_image(&mut self, origin: u16, image: &[u8]) -> (r: Result<(), LoadError>)
        requires
            old(self).wf(),
        ensures
            final(self).wf(),
            r is Ok <==> origin + image@.len() <= 65536,
            r is Ok ==> final(self)@ == overlay(old(self)@, origin, image@),
            r is Err ==> final(self)@ == old(self)@ && r == Err::<(), LoadError>(
                LoadError::LoadOverflow,
            ),
    {
        if image.len() > MEM_SIZE - origin as usize {
            return Err(LoadError::LoadOverflow);
        }
        let mut i: usize = 0;
        while i < image.len()
            invariant
                self.wf(),
                i <= image@.len(),
                origin + image@.len() <= 65536,
                self@ == overlay(old(self)@, origin, image@.take(i as int)),
            decreases image@.len() - i,
        {
            self.bytes[origin as usize + i] = image[i];
            proof {
                assert(self@ =~= overlay(old(self)@, origin, image@.take(i + 1)));
            }
            i = i + 1;
        }
        proof {
            assert(image@.take(image@.len() as int) =~= image@);
        }
        Ok(())
    }
}

} // verus!
