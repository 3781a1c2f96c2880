use vstd::prelude::*;

verus! {

/// Number of addressable bytes: the whole 16-bit address space.
pub const MEMORY_SIZE: usize = 0x10000;

/// A flat, byte-addressed memory covering every 16-bit address.
pub struct Memory {
    bytes: Vec<u8>,
}

/// The address `n` bytes past `addr`, wrapping round the 16-bit space.
pub open spec fn addr_plus(addr: u16, n: int) -> u16 {
    ((addr as int + n) % 0x10000) as u16
}

/// The little-endian word made of a low and a high byte.
pub open spec fn word_of(lo: u8, hi: u8) -> u16 {
    (lo as int + hi as int * 256) as u16
}

/// Low byte of a word.
pub open spec fn lo_byte(w: u16) -> u8 {
    (w as int % 256) as u8
}

/// High byte of a word.
pub open spec fn hi_byte(w: u16) -> u8 {
    (w as int / 256) as u8
}

/// The memory after `bytes` are written one after another from `addr` on.
pub open spec fn write_seq(m: Seq<u8>, addr: u16, bytes: Seq<u8>) -> Seq<u8>
    decreases bytes.len(),
{
    if bytes.len() == 0 {
        m
    } else {
        write_seq(m.update(addr as int, bytes[0]), addr_plus(addr, 1), bytes.drop_first())
    }
}

/// The `n` bytes read from `addr` on.
pub open spec fn read_seq(m: Seq<u8>, addr: u16, n: nat) -> Seq<u8> {
    Seq::new(n, |i: int| m[addr_plus(addr, i) as int])
}

impl View for Memory {
    type V = Seq<u8>;

    closed spec fn view(&self) -> Seq<u8> {
        self.bytes@
    }
}

impl Memory {
    pub closed spec fn wf(&self) -> bool {
        self.bytes@.len() == MEMORY_SIZE
    }

    /// A memory whose every byte is zero.
    pub fn new() -> (r: Memory)
        ensures
            r.wf(),
            r@ == Seq::new(MEMORY_SIZE as nat, |i: int| 0u8),
    {
        let mut bytes: Vec<u8> = Vec::new();
        while bytes.len() < MEMORY_SIZE
            invariant
                bytes.len() <= MEMORY_SIZE,
                forall|i: int| 0 <= i < bytes@.len() ==> bytes@[i] == 0u8,
            decreases MEMORY_SIZE - bytes.len(),
        {
            bytes.push(0u8);
        }
        let r = Memory { bytes };
        assert(r@ =~= Seq::new(MEMORY_SIZE as nat, |i: int| 0u8));
        r
    }

    /// The byte at `addr`.
    pub fn rb(&self, addr: u16) -> (r: u8)
        requires
            self.wf(),
        ensures
            r == self@[addr as int],
    {
        self.bytes[addr as usize]
    }

    /// The little-endian word at `addr`; its high byte comes from the next
    /// address, wrapping round the address space.
    pub fn rw(&self, addr: u16) -> (r: u16)
        requires
            self.wf(),
        ensures
            r == word_of(self@[addr as int], self@[addr_plus(addr, 1) as int]),
    {
        let lo = self.bytes[addr as usize];
        let hi = self.bytes[addr.wrapping_add(1) as usize];
        lo as u16 + (hi as u16) * 256
    }

    /// Stores `val` at `addr`.
    pub fn wb(&mut self, addr: u16, val: u8)
        requires
            old(self).wf(),
        ensures
            final(self).wf(),
            final(self)@ == old(self)@.update(addr as int, val),
    {
        self.bytes.set(addr as usize, val);
    }

    /// Stores `val` little-endian at `addr` and the next address.
    pub fn ww(&mut self, addr: u16, val: u16)
        requires
            old(self).wf(),
        ensures
            final(self).wf(),
            final(self)@ == old(self)@.update(addr as int, lo_byte(val)).update(
                addr_plus(addr, 1) as int,
                hi_byte(val),
            ),
    {
        self.wb(addr, (val % 256) as u8);
        self.wb(addr.wrapping_add(1), (val / 256) as u8);
    }

    /// The `N` bytes from `addr` on, wrapping round the address space.
    pub fn read<const N: usize>(&self, addr: u16) -> (r: [u8; N])
        requires
            self.wf(),
        ensures
            r@ == read_seq(self@, addr, N as nat),
    {
        let mut out: [u8; N] = [0u8; N];
        let mut i: usize = 0;
        let mut a: u16 = addr;
        while i < N
            invariant
                self.wf(),
                i <= N,
                a == addr_plus(addr, i as int),
                out@.len() == N,
                forall|j: int| 0 <= j < i ==> out@[j] == self@[addr_plus(addr, j) as int],
            decreases N - i,
        {
            out[i] = self.bytes[a as usize];
            a = a.wrapping_add(1);
            i = i + 1;
        }
        assert(out@ =~= read_seq(self@, addr, N as nat));
        out
    }

    /// Writes the bytes of `val` one after another from `addr` on, wrapping
    /// round the address space.
    pub fn write<const N: usize>(&mut self, addr: u16, val: [u8; N])
        requires
            old(self).wf(),
        ensures
            final(self).wf(),
            final(self)@ == write_seq(old(self)@, addr, val@),
    {
        let mut i: usize = 0;
        let mut a: u16 = addr;
        assert(val@.subrange(0, N as int) =~= val@);
        while i < N
            invariant
                self.wf(),
                i <= N,
                a == addr_plus(addr, i as int),
                val@.len() == N,
                write_seq(old(self)@, addr, val@) == write_seq(
                    self@,
                    addr_plus(addr, i as int),
                    val@.subrange(i as int, N as int),
                ),
            decreases N - i,
        {
            let ghost rest = val@.subrange(i as int, N as int);
            self.bytes.set(a as usize, val[i]);
            a = a.wrapping_add(1);
            i = i + 1;
            proof {
                assert(rest.drop_first() =~= val@.subrange(i as int, N as int));
            }
        }
        assert(val@.subrange(N as int, N as int) =~= Seq::<u8>::empty());
    }

    /// Installs a program image from address zero on; bytes past the end of
    /// the address space are left out.
    pub fn load_program(&mut self, program: &Vec<u8>)
        requires
            old(self).wf(),
        ensures
            final(self).wf(),
            forall|i: int|
                0 <= i < MEMORY_SIZE ==> #[trigger] final(self)@[i] == if i < program@.len() {
                    program@[i]
                } else {
                    old(self)@[i]
                },
    {
        let mut i: usize = 0;
        while i < program.len() && i < MEMORY_SIZE
            invariant
                self.wf(),
                old(self).wf(),
                i <= MEMORY_SIZE,
                i <= program@.len(),
                forall|j: int|
                    0 <= j < MEMORY_SIZE ==> #[trigger] self@[j] == if j < i {
                        program@[j]
                    } else {
                        old(self)@[j]
                    },
            decreases MEMORY_SIZE - i,
        {
            let ghost prev = self@;
            self.bytes.set(i, program[i]);
            assert(self@ == prev.update(i as int, program@[i as int]));
            i = i + 1;
        }
    }
}

} // verus!
