use vstd::prelude::*;

use crate::error::CpuError;

verus! {

/// Sums of 16-bit addresses wrap at 0xFFFF.
pub open spec fn wrap16(x: int) -> u16 {
    (x % 0x10000) as u16
}

/// Sums of 8-bit values, zero-page pointers among them, wrap at 0xFF.
pub open spec fn wrap8(x: int) -> u8 {
    (x % 0x100) as u8
}

/// The 16-bit value whose low byte is `lo` and high byte is `hi`.
pub open spec fn le_u16(lo: u8, hi: u8) -> u16 {
    (lo as int + 0x100 * hi as int) as u16
}

/// The byte at `address` of a memory image, or a bus failure where the
/// image does not reach that far.
pub open spec fn byte_spec(mem: Seq<u8>, address: u16) -> Result<u8, CpuError> {
    if (address as int) < mem.len() {
        Ok(mem[address as int])
    } else {
        Err(CpuError::Bus { address })
    }
}

/// A little-endian word whose bytes are at `lo_at` and `hi_at`, the low one
/// read first.
pub open spec fn pair_spec(mem: Seq<u8>, lo_at: u16, hi_at: u16) -> Result<u16, CpuError> {
    match byte_spec(mem, lo_at) {
        Err(e) => Err(e),
        Ok(lo) => match byte_spec(mem, hi_at) {
            Err(e) => Err(e),
            Ok(hi) => Ok(le_u16(lo, hi)),
        },
    }
}

/// The little-endian word at `address`; the high byte's address wraps.
pub open spec fn word_spec(mem: Seq<u8>, address: u16) -> Result<u16, CpuError> {
    pair_spec(mem, address, wrap16(address + 1))
}

/// The little-endian word at a zero-page pointer; the high byte's address
/// wraps within page zero.
pub open spec fn zp_word_spec(mem: Seq<u8>, pointer: u8) -> Result<u16, CpuError> {
    pair_spec(mem, pointer as u16, wrap8(pointer + 1) as u16)
}

/// Whether each of the `count` bytes from `address` on (wrapping) is in
/// the image.
pub open spec fn all_readable(mem: Seq<u8>, address: u16, count: nat) -> bool {
    forall|k: int| 0 <= k < count ==> (#[trigger] wrap16(address + k) as int) < mem.len()
}

/// The least offset below `count` whose byte is not in the image.
pub open spec fn first_unreadable(mem: Seq<u8>, address: u16, count: nat) -> int {
    choose|k: int|
        0 <= k < count && (#[trigger] wrap16(address + k) as int) >= mem.len() && all_readable(
            mem,
            address,
            k as nat,
        )
}

/// The `count` bytes from `address` on, the address wrapping at 0xFFFF; a
/// failure names the first address that could not be read.
#[verifier::opaque]
pub open spec fn bytes_spec(mem: Seq<u8>, address: u16, count: nat) -> Result<
    Seq<u8>,
    CpuError,
> {
    if all_readable(mem, address, count) {
        Ok(Seq::new(count, |k: int| mem[wrap16(address + k) as int]))
    } else {
        Err(CpuError::Bus { address: wrap16(address + first_unreadable(mem, address, count)) })
    }
}

/// `a + b` wrapping at 0xFF.
pub fn add8(a: u8, b: u8) -> (r: u8)
    ensures
        r == wrap8(a + b),
{
    a.wrapping_add(b)
}

/// `a + b` wrapping at 0xFFFF.
pub fn add16(a: u16, b: u16) -> (r: u16)
    ensures
        r == wrap16(a + b),
{
    a.wrapping_add(b)
}

/// The 16-bit value whose low byte is `lo` and high byte is `hi`.
pub fn le_word(lo: u8, hi: u8) -> (r: u16)
    ensures
        r == le_u16(lo, hi),
{
    lo as u16 + 0x100 * hi as u16
}

/// A flat memory image seen from the processor: address `a` holds byte `a`
/// of the image. Accesses beyond the image fail.
pub struct Bus {
    memory: Vec<u8>,
}

impl View for Bus {
    type V = Seq<u8>;

    closed spec fn view(&self) -> Seq<u8> {
        self.memory@
    }
}

impl Bus {
    pub fn new(memory: Vec<u8>) -> (r: Bus)
        ensures
            r@ == memory@,
    {
        Bus { memory }
    }

    pub fn read(&self, address: u16) -> (r: Result<u8, CpuError>)
        ensures
            r == byte_spec(self@, address),
    {
        if (address as usize) < self.memory.len() {
            Ok(self.memory[address as usize])
        } else {
            Err(CpuError::Bus { address })
        }
    }

    fn read_pair(&self, lo_at: u16, hi_at: u16) -> (r: Result<u16, CpuError>)
        ensures
            r == pair_spec(self@, lo_at, hi_at),
    {
        let lo = self.read(lo_at)?;
        let hi = self.read(hi_at)?;
        Ok(le_word(lo, hi))
    }

    /// The little-endian word at `address`.
    pub fn read_u16(&self, address: u16) -> (r: Result<u16, CpuError>)
        ensures
            r == word_spec(self@, address),
    {
        self.read_pair(address, add16(address, 1))
    }

    /// The little-endian word at a zero-page pointer, wrapping within page zero.
    pub fn read_zp_u16(&self, pointer: u8) -> (r: Result<u16, CpuError>)
        ensures
            r == zp_word_spec(self@, pointer),
    {
        self.read_pair(pointer as u16, add8(pointer, 1) as u16)
    }

    /// The `count` consecutive bytes from `address` on.
    pub fn read_n(&self, address: u16, count: u16) -> (r: Result<Vec<u8>, CpuError>)
        ensures
            match (r, bytes_spec(self@, address, count as nat)) {
                (Ok(v), Ok(s)) => v@ == s,
                (Err(e), Err(f)) => e == f,
                _ => false,
            },
            r is Ok ==> r->Ok_0@.len() == count,
    {
        let mut out: Vec<u8> = Vec::new();
        let mut k: u16 = 0;
        while k < count
            invariant
                k <= count,
                all_readable(self@, address, k as nat),
                out@ == Seq::new(k as nat, |j: int| self@[wrap16(address + j) as int]),
            decreases count - k,
        {
            let at = add16(address, k);
            if (at as usize) < self.memory.len() {
                let ghost prev = out@;
                out.push(self.memory[at as usize]);
                k = k + 1;
                assert(out@ =~= Seq::new(k as nat, |j: int| self@[wrap16(address + j) as int])) by {
                    assert forall|j: int| 0 <= j < k implies out@[j] == self@[wrap16(address + j) as int] by {
                        if j < k - 1 {
                            assert(out@[j] == prev[j]);
                        }
                    };
                };
                assert(all_readable(self@, address, k as nat)) by {
                    assert forall|j: int| 0 <= j < k implies (#[trigger] wrap16(address + j) as int) < self@.len() by {
                        if j < k - 1 {
                            assert(all_readable(self@, address, (k - 1) as nat));
                        }
                    };
                };
            } else {
                proof {
                    reveal(bytes_spec);
                }
                assert(!all_readable(self@, address, count as nat)) by {
                    assert((wrap16(address + k) as int) >= self@.len());
                };
                let ghost w = first_unreadable(self@, address, count as nat);
                assert(0 <= w < count && (wrap16(address + w) as int) >= self@.len()
                    && all_readable(self@, address, w as nat)) by {
                    assert(0 <= k < count && (wrap16(address + k) as int) >= self@.len()
                        && all_readable(self@, address, k as nat));
                };
                assert(w == k as int) by {
                    if w < k {
                        assert(all_readable(self@, address, k as nat));
                        assert((wrap16(address + w) as int) < self@.len());
                    } else if w > k {
                        assert(all_readable(self@, address, w as nat));
                        assert((wrap16(address + k) as int) < self@.len());
                    }
                };
                return Err(CpuError::Bus { address: at });
            }
        }
        proof {
            reveal(bytes_spec);
        }
        Ok(out)
    }

    /// Stores `value` at `address`.
    pub fn write(&mut self, address: u16, value: u8) -> (r: Result<(), CpuError>)
        ensures
            match byte_spec(old(self)@, address) {
                Ok(_) => r is Ok && final(self)@ == old(self)@.update(address as int, value),
                Err(e) => r == Err::<(), CpuError>(e) && final(self)@ == old(self)@,
            },
    {
        if (address as usize) < self.memory.len() {
            self.memory.set(address as usize, value);
            Ok(())
        } else {
            Err(CpuError::Bus { address })
        }
    }
}

} // verus!
