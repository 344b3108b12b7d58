use vstd::prelude::*;
use crate::cpu::CPU;

verus! {

/// Bytes per line of a memory dump.
pub const DUMP_WIDTH: u32 = 16;

/// The ASCII lower-case hexadecimal digit of `n`.
pub open spec fn hex_digit(n: int) -> u8 {
    if n < 10 {
        (0x30 + n) as u8
    } else {
        (0x61 + n - 10) as u8
    }
}

/// The text that a dump holds for the byte at `addr`: the address as
/// `0xXXXX ` at the start of each line, then ` .. ` for a zero byte or the
/// byte as ` bb `, and a newline after every sixteenth address.
pub open spec fn dump_entry(mem: Seq<u8>, addr: int) -> Seq<u8> {
    let b = mem[addr] as int;
    let prefix = if addr % 16 == 0 {
        seq![
            0x30u8,
            0x78u8,
            hex_digit((addr / 4096) % 16),
            hex_digit((addr / 256) % 16),
            hex_digit((addr / 16) % 16),
            hex_digit(addr % 16),
            0x20u8,
        ]
    } else {
        Seq::<u8>::empty()
    };
    let cell = if b == 0 {
        seq![0x20u8, 0x2Eu8, 0x2Eu8, 0x20u8]
    } else {
        seq![0x20u8, hex_digit(b / 16), hex_digit(b % 16), 0x20u8]
    };
    let newline = if (addr + 1) % 16 == 0 {
        seq![0x0Au8]
    } else {
        Seq::<u8>::empty()
    };
    prefix + cell + newline
}

/// The dump of the addresses `start..end`, as ASCII text.
pub open spec fn memory_dump(mem: Seq<u8>, start: int, end: int) -> Seq<u8>
    decreases end - start,
{
    if end <= start {
        Seq::empty()
    } else {
        memory_dump(mem, start, end - 1) + dump_entry(mem, end - 1)
    }
}

fn hex(n: u32) -> (r: u8)
    requires
        n < 16,
    ensures
        r == hex_digit(n as int),
{
    if n < 10 {
        (0x30 + n) as u8
    } else {
        (0x61 + n - 10) as u8
    }
}

/// Appends the text of the byte at `addr` to `out`.
fn push_entry(out: &mut Vec<u8>, mem: &Vec<u8>, addr: u32)
    requires
        addr < mem@.len(),
        mem@.len() <= 0x10000,
    ensures
        final(out)@ == old(out)@ + dump_entry(mem@, addr as int),
{
    let ghost a = addr as int;
    let byte = mem[addr as usize];
    let mut prefix: Vec<u8> = Vec::new();
    if addr % DUMP_WIDTH == 0 {
        prefix.push(0x30);
        prefix.push(0x78);
        prefix.push(hex((addr / 4096) % 16));
        prefix.push(hex((addr / 256) % 16));
        prefix.push(hex((addr / 16) % 16));
        prefix.push(hex(addr % 16));
        prefix.push(0x20);
    }
    let mut cell: Vec<u8> = Vec::new();
    if byte == 0 {
        cell.push(0x20);
        cell.push(0x2E);
        cell.push(0x2E);
        cell.push(0x20);
    } else {
        cell.push(0x20);
        cell.push(hex(byte as u32 / 16));
        cell.push(hex(byte as u32 % 16));
        cell.push(0x20);
    }
    if (addr + 1) % DUMP_WIDTH == 0 {
        cell.push(0x0A);
    }
    let ghost b = byte as int;
    proof {
        let p = if a % 16 == 0 {
            seq![
                0x30u8,
                0x78u8,
                hex_digit((a / 4096) % 16),
                hex_digit((a / 256) % 16),
                hex_digit((a / 16) % 16),
                hex_digit(a % 16),
                0x20u8,
            ]
        } else {
            Seq::<u8>::empty()
        };
        let c = if b == 0 {
            seq![0x20u8, 0x2Eu8, 0x2Eu8, 0x20u8]
        } else {
            seq![0x20u8, hex_digit(b / 16), hex_digit(b % 16), 0x20u8]
        };
        let n = if (a + 1) % 16 == 0 {
            seq![0x0Au8]
        } else {
            Seq::<u8>::empty()
        };
        assert(prefix@ =~= p);
        assert(cell@ =~= c + n);
        assert(dump_entry(mem@, a) == p + c + n);
        assert(p + c + n =~= p + (c + n));
    }
    out.append(&mut prefix);
    out.append(&mut cell);
    proof {
        assert(out@ =~= old(out)@ + dump_entry(mem@, a));
    }
}

impl CPU {
    /// The addresses `start..end` as text, sixteen bytes to a line, each line
    /// led by its address: `0xXXXX  bb  ..  bb ...`, with `..` for a zero byte.
    pub fn format_memory_dump(&self, start: u16, end: u16) -> (r: Vec<u8>)
        requires
            self.wf(),
        ensures
            r@ == memory_dump(self@.mem, start as int, end as int),
    {
        let mut out: Vec<u8> = Vec::new();
        if end <= start {
            return out;
        }
        let mut line: u32 = start as u32;
        while line < end as u32
            invariant
                self.wf(),
                start <= line <= end,
                out@ == memory_dump(self@.mem, start as int, line as int),
            decreases end - line,
        {
            push_entry(&mut out, &self.memory, line);
            line = line + 1;
        }
        out
    }
}

} // verus!
