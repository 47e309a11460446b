use vstd::prelude::*;

verus! {

pub open spec fn pow128(k: nat) -> nat
    decreases k,
{
    if k == 0 {
        1
    } else {
        128 * pow128((k - 1) as nat)
    }
}

/// An unsigned 32-bit LEB128 number at `pos` of which `k` bytes, worth `acc`,
/// were read: its value and the position after it.
pub open spec fn leb_u32_from(s: Seq<u8>, pos: int, k: nat, acc: nat) -> Option<(nat, int)>
    decreases 5 - k,
{
    if k >= 5 || pos < 0 || pos + k >= s.len() {
        None
    } else {
        let b = s[pos + k];
        let sum = acc + (b % 128) as nat * pow128(k);
        if b < 128 {
            if k == 4 && b >= 16 {
                None
            } else {
                Some((sum, pos + k + 1))
            }
        } else {
            leb_u32_from(s, pos, k + 1, sum)
        }
    }
}

/// The unsigned 32-bit LEB128 number at `pos`, at most five bytes long: its
/// value and the position after it.
pub open spec fn leb_u32(s: Seq<u8>, pos: int) -> Option<(nat, int)> {
    leb_u32_from(s, pos, 0, 0)
}

/// The function index held by the start section, searching the sections from
/// `pos` on. Each section is an id byte, a LEB128 size and that many bytes.
pub open spec fn start_in_sections(s: Seq<u8>, pos: int) -> Option<nat>
    decreases s.len() - pos,
{
    if pos < 0 || pos >= s.len() {
        None
    } else {
        match leb_u32(s, pos + 1) {
            None => None,
            Some((size, body)) => {
                if body <= pos || body + size > s.len() {
                    None
                } else if s[pos] == 8 {
                    match leb_u32(s, body) {
                        Some((idx, end)) => if end <= body + size {
                            Some(idx)
                        } else {
                            None
                        },
                        None => None,
                    }
                } else {
                    start_in_sections(s, body + size)
                }
            },
        }
    }
}

pub open spec fn wasm_header() -> Seq<u8> {
    seq![0x00u8, 0x61u8, 0x73u8, 0x6du8, 0x01u8, 0x00u8, 0x00u8, 0x00u8]
}

/// The index of the start function of a WebAssembly binary, if it has one.
pub open spec fn spec_start_function(s: Seq<u8>) -> Option<nat> {
    if s.len() >= 8 && s.take(8) == wasm_header() {
        start_in_sections(s, 8)
    } else {
        None
    }
}

fn read_leb_u32(s: &[u8], pos: usize) -> (r: Option<(u32, usize)>)
    ensures
        match leb_u32(s@, pos as int) {
            Some((v, e)) => v < 0x1_0000_0000 && pos < e <= s@.len() && r == Some((v as u32, e as usize)),
            None => r is None,
        },
{
    let mut k: usize = 0;
    let mut acc: u32 = 0;
    let mut mult: u32 = 1;
    while k < 5
        invariant
            k < 5,
            mult as nat == pow128(k as nat),
            (acc as nat) < pow128(k as nat),
            leb_u32_from(s@, pos as int, k as nat, acc as nat) == leb_u32(s@, pos as int),
        decreases 5 - k,
    {
        proof {
            reveal_with_fuel(pow128, 5);
        }
        assert(mult <= 0x1000_0000) by {
            assert(k <= 4);
        }
        if k >= s.len() || pos >= s.len() - k {
            return None;
        }
        let b = s[pos + k];
        let low = (b % 128) as u32;
        assert(low * mult <= 127 * mult) by (nonlinear_arith)
            requires
                low <= 127,
        ;
        if b < 128 {
            if k == 4 && b >= 16 {
                return None;
            }
            if k == 4 {
                assert(low * mult <= 15 * mult) by (nonlinear_arith)
                    requires
                        low <= 15,
                ;
            }
            let v = acc + low * mult;
            return Some((v, pos + k + 1));
        }
        if k == 4 {
            proof {
                reveal_with_fuel(leb_u32_from, 2);
            }
            return None;
        }
        acc = acc + low * mult;
        k = k + 1;
        mult = mult * 128;
    }
    None
}

/// The index of the start function that a WebAssembly binary names in its
/// start section, or `None` if it has no start section or is malformed before
/// reaching one.
pub fn start_function_index(wasm: &[u8]) -> (r: Option<u32>)
    ensures
        match spec_start_function(wasm@) {
            Some(i) => i < 0x1_0000_0000 && r == Some(i as u32),
            None => r is None,
        },
{
    if wasm.len() < 8 {
        return None;
    }
    let mut h: usize = 0;
    while h < 8
        invariant
            h <= 8 <= wasm@.len(),
            forall|j: int| 0 <= j < h ==> wasm@[j] == wasm_header()[j],
        decreases 8 - h,
    {
        let want: u8 = if h == 0 {
            0x00
        } else if h == 1 {
            0x61
        } else if h == 2 {
            0x73
        } else if h == 3 {
            0x6d
        } else if h == 4 {
            0x01
        } else {
            0x00
        };
        if wasm[h] != want {
            assert(wasm@.take(8)[h as int] != wasm_header()[h as int]);
            return None;
        }
        h = h + 1;
    }
    assert(wasm@.take(8) =~= wasm_header());
    let mut pos: usize = 8;
    while pos < wasm.len()
        invariant
            8 <= pos,
            spec_start_function(wasm@) == start_in_sections(wasm@, pos as int),
        decreases wasm@.len() - pos,
    {
        let (size, body) = match read_leb_u32(wasm, pos + 1) {
            Some(p) => p,
            None => return None,
        };
        if body <= pos || size as usize > wasm.len() - body {
            return None;
        }
        if wasm[pos] == 8 {
            return match read_leb_u32(wasm, body) {
                Some((idx, end)) => if end <= body + size as usize {
                    Some(idx)
                } else {
                    None
                },
                None => None,
            };
        }
        pos = body + size as usize;
    }
    None
}

} // verus!
