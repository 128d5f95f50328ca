//! Instruction decoding and execution.
//!
//! An instruction word holds an opcode in bits 12..=14, a quarter code in
//! bits 10..=11, and an operand: a ten-bit erasable address or a twelve-bit
//! address. Each handler below is proved against a function of the machine
//! state that says what the instruction does; on an error the cycle stops
//! and the state is of no further interest.
use vstd::prelude::*;
use crate::arith::{
    NEG_ONE, NEG_ZERO, add_modified, as_i32, bit16, correct, corrected, extended, has_overflow,
    modified_sum, ones16, sign_bit, ones32, ones_complement16, ones_complement32, sign_extend, sign_of,
    tag_of, value_of,
};
use crate::memory::{
    ACC, Address, AgcError, ERASABLE_END, ERASABLE_START, ErasableAddress, FixedAddress, L, MemView,
    Memory, Q, Word, Z, applied,
    is_16bit, wide,
};

verus! {

/// The address below `k`, wrapping within twelve bits.
pub open spec fn lower(k: u16) -> u16 {
    ((k as int + 0x0FFF) % 0x1000) as u16
}

/// Address `k` read in accumulator form: the accumulator and the return
/// register as they are, any other location sign-extended.
pub open spec fn read16(m: MemView, k: u16) -> Result<u16, AgcError> {
    match m.read(k) {
        Ok(v) => Ok(if wide(k) { v } else { extended(v) }),
        Err(e) => Err(e),
    }
}

/// What a store reports: 0 without overflow, 1 for a positive and -1 for a
/// negative overflow.
pub open spec fn overflow_indicator(n: u16) -> u16 {
    if !has_overflow(n) {
        0
    } else if tag_of(n) == 1 {
        NEG_ONE
    } else {
        1
    }
}

/// Storing an accumulator-form value at `k`: corrected unless `k` keeps the
/// sixteen-bit form, together with the overflow indicator.
pub open spec fn store_corrected(m: MemView, n: u16, k: u16) -> Result<(MemView, u16), AgcError> {
    match m.write(k, if wide(k) { n } else { corrected(n) }) {
        Ok(m2) => Ok((m2, overflow_indicator(n))),
        Err(e) => Err(e),
    }
}

/// Reads `k` in accumulator form.
pub fn read_16(mem: &Memory, k: Address) -> (r: Result<u16, AgcError>)
    requires
        mem.wf(),
    ensures
        r == read16(mem@, k),
{
    match mem.read(k) {
        Ok(v) => {
            if is_16bit(k) {
                Ok(v)
            } else {
                Ok(sign_extend(v))
            }
        },
        Err(e) => Err(e),
    }
}

/// Stores `n` at `k`, overflow-corrected unless `k` is the accumulator or
/// the return register, and returns the overflow indicator.
pub fn save_corrected(mem: &mut Memory, n: u16, k: ErasableAddress) -> (r: Result<Word, AgcError>)
    requires
        old(mem).wf(),
    ensures
        final(mem).wf(),
        match store_corrected(old(mem)@, n, k) {
            Ok(p) => r == Ok::<Word, AgcError>(p.1) && final(mem)@ == p.0,
            Err(e) => r == Err::<Word, AgcError>(e),
        },
{
    let sign_bits = n >> 14;
    if sign_bits == 0 || sign_bits == 3 {
        assert(!has_overflow(n) && corrected(n) == n) by (bit_vector)
            requires
                sign_bits == n >> 14,
                sign_bits == 0 || sign_bits == 3,
        ;
        match mem.write(k, n) {
            Ok(()) => Ok(0),
            Err(e) => Err(e),
        }
    } else {
        let stored = if is_16bit(k) {
            n
        } else {
            n ^ 0x4000
        };
        assert(has_overflow(n) && corrected(n) == n ^ 0x4000) by (bit_vector)
            requires
                sign_bits == n >> 14,
                sign_bits != 0 && sign_bits != 3,
        ;
        match mem.write(k, stored) {
            Ok(()) => {
                if sign_bits == 2 {
                    assert(tag_of(n) == 1) by (bit_vector)
                        requires
                            sign_bits == n >> 14,
                            sign_bits == 2,
                    ;
                    Ok(NEG_ONE)
                } else {
                    assert(tag_of(n) == 0) by (bit_vector)
                        requires
                            sign_bits == n >> 14,
                            sign_bits != 0 && sign_bits != 3 && sign_bits != 2,
                    ;
                    Ok(1)
                }
            },
            Err(e) => Err(e),
        }
    }
}

/// AD: the accumulator plus the operand.
pub open spec fn spec_ad(m: MemView, k: u16) -> Result<MemView, AgcError> {
    match read16(m, k) {
        Ok(b) => Ok(m.with_reg(ACC, modified_sum(m.regs.acc, b))),
        Err(e) => Err(e),
    }
}

/// ADS: the sum goes to the accumulator and, overflow-corrected, to `k`.
pub open spec fn spec_ads(m: MemView, k: u16) -> Result<MemView, AgcError> {
    match read16(m, k) {
        Ok(b) => {
            let sum = modified_sum(m.regs.acc, b);
            match store_corrected(m.with_reg(ACC, sum), sum, k) {
                Ok(p) => Ok(p.0),
                Err(e) => Err(e),
            }
        },
        Err(e) => Err(e),
    }
}

/// AUG: one added away from zero, in the direction of the operand's sign.
pub open spec fn spec_aug(m: MemView, k: u16) -> Result<MemView, AgcError> {
    match read16(m, k) {
        Ok(n) => m.write(k, if tag_of(n) == 0 { modified_sum(n, 1) } else { modified_sum(n, NEG_ONE) }),
        Err(e) => Err(e),
    }
}

/// DIM: one taken toward zero, against the operand's sign.
pub open spec fn spec_dim(m: MemView, k: u16) -> Result<MemView, AgcError> {
    match read16(m, k) {
        Ok(n) => m.write(k, if tag_of(n) == 0 { modified_sum(n, NEG_ONE) } else { modified_sum(n, 1) }),
        Err(e) => Err(e),
    }
}

/// INCR: one added to the operand.
pub open spec fn spec_incr(m: MemView, k: u16) -> Result<MemView, AgcError> {
    match read16(m, k) {
        Ok(n) => m.write(k, modified_sum(n, 1)),
        Err(e) => Err(e),
    }
}

/// BZF: jump to `k` when the accumulator is either zero.
pub open spec fn spec_bzf(m: MemView, k: u16) -> Result<MemView, AgcError> {
    if m.regs.acc == 0 || m.regs.acc == NEG_ZERO {
        Ok(m.with_reg(Z, k))
    } else {
        Ok(m)
    }
}

/// BZMF: jump to `k` when the accumulator is positive zero or negative.
pub open spec fn spec_bzmf(m: MemView, k: u16) -> Result<MemView, AgcError> {
    if m.regs.acc == 0 || tag_of(m.regs.acc) == 1 {
        Ok(m.with_reg(Z, k))
    } else {
        Ok(m)
    }
}

/// CA: the operand, in accumulator form, into the accumulator.
pub open spec fn spec_ca(m: MemView, k: u16) -> Result<MemView, AgcError> {
    match read16(m, k) {
        Ok(n) => Ok(m.with_reg(ACC, n)),
        Err(e) => Err(e),
    }
}

/// CS: the complement of the operand into the accumulator.
pub open spec fn spec_cs(m: MemView, k: u16) -> Result<MemView, AgcError> {
    match read16(m, k) {
        Ok(n) => Ok(m.with_reg(ACC, !n)),
        Err(e) => Err(e),
    }
}

/// SU: the accumulator minus the operand.
pub open spec fn spec_su(m: MemView, k: u16) -> Result<MemView, AgcError> {
    match read16(m, k) {
        Ok(n) => Ok(m.with_reg(ACC, modified_sum(m.regs.acc, !n))),
        Err(e) => Err(e),
    }
}

/// TC: jump to `k`, keeping the return address in Q.
pub open spec fn spec_tc(m: MemView, k: u16) -> Result<MemView, AgcError> {
    Ok(m.with_reg(Z, k).with_reg(Q, m.regs.z))
}

/// TCF: jump to `k`.
pub open spec fn spec_tcf(m: MemView, k: u16) -> Result<MemView, AgcError> {
    Ok(m.with_reg(Z, k))
}

/// Add.
pub fn ad(mem: &mut Memory, k: Address) -> (r: Result<(), AgcError>)
    requires
        old(mem).wf(),
    ensures
        final(mem).wf(),
        applied(r, final(mem)@, spec_ad(old(mem)@, k)),
{
    let a = mem.register(ACC);
    match read_16(mem, k) {
        Ok(b) => {
            mem.set_register(ACC, add_modified(a, b));
            Ok(())
        },
        Err(e) => Err(e),
    }
}

/// Add to storage.
pub fn ads(mem: &mut Memory, k: ErasableAddress) -> (r: Result<(), AgcError>)
    requires
        old(mem).wf(),
    ensures
        final(mem).wf(),
        applied(r, final(mem)@, spec_ads(old(mem)@, k)),
{
    let a = mem.register(ACC);
    match read_16(mem, k) {
        Ok(b) => {
            let sum = add_modified(a, b);
            mem.set_register(ACC, sum);
            match save_corrected(mem, sum, k) {
                Ok(_) => Ok(()),
                Err(e) => Err(e),
            }
        },
        Err(e) => Err(e),
    }
}

/// Augment.
pub fn aug(mem: &mut Memory, k: ErasableAddress) -> (r: Result<(), AgcError>)
    requires
        old(mem).wf(),
    ensures
        final(mem).wf(),
        applied(r, final(mem)@, spec_aug(old(mem)@, k)),
{
    match read_16(mem, k) {
        Ok(n) => {
            if bit16(n) == 0 {
                mem.write(k, add_modified(n, 1))
            } else {
                mem.write(k, add_modified(n, NEG_ONE))
            }
        },
        Err(e) => Err(e),
    }
}

/// Diminish.
pub fn dim(mem: &mut Memory, k: ErasableAddress) -> (r: Result<(), AgcError>)
    requires
        old(mem).wf(),
    ensures
        final(mem).wf(),
        applied(r, final(mem)@, spec_dim(old(mem)@, k)),
{
    match read_16(mem, k) {
        Ok(n) => {
            if bit16(n) == 0 {
                mem.write(k, add_modified(n, NEG_ONE))
            } else {
                mem.write(k, add_modified(n, 1))
            }
        },
        Err(e) => Err(e),
    }
}

/// Increment.
pub fn incr(mem: &mut Memory, k: ErasableAddress) -> (r: Result<(), AgcError>)
    requires
        old(mem).wf(),
    ensures
        final(mem).wf(),
        applied(r, final(mem)@, spec_incr(old(mem)@, k)),
{
    match read_16(mem, k) {
        Ok(n) => mem.write(k, add_modified(n, 1)),
        Err(e) => Err(e),
    }
}

/// Branch on zero to fixed.
pub fn bzf(mem: &mut Memory, k: FixedAddress) -> (r: Result<(), AgcError>)
    requires
        old(mem).wf(),
    ensures
        final(mem).wf(),
        applied(r, final(mem)@, spec_bzf(old(mem)@, k)),
{
    let acc = mem.register(ACC);
    if acc == 0 || acc == NEG_ZERO {
        mem.set_register(Z, k);
    }
    Ok(())
}

/// Branch on zero or minus to fixed.
pub fn bzmf(mem: &mut Memory, k: FixedAddress) -> (r: Result<(), AgcError>)
    requires
        old(mem).wf(),
    ensures
        final(mem).wf(),
        applied(r, final(mem)@, spec_bzmf(old(mem)@, k)),
{
    let acc = mem.register(ACC);
    if acc == 0 || bit16(acc) == 1 {
        mem.set_register(Z, k);
    }
    Ok(())
}

/// Clear and add.
pub fn ca(mem: &mut Memory, k: Address) -> (r: Result<(), AgcError>)
    requires
        old(mem).wf(),
    ensures
        final(mem).wf(),
        applied(r, final(mem)@, spec_ca(old(mem)@, k)),
{
    match read_16(mem, k) {
        Ok(n) => {
            mem.set_register(ACC, n);
            Ok(())
        },
        Err(e) => Err(e),
    }
}

/// Clear and subtract.
pub fn cs(mem: &mut Memory, k: Address) -> (r: Result<(), AgcError>)
    requires
        old(mem).wf(),
    ensures
        final(mem).wf(),
        applied(r, final(mem)@, spec_cs(old(mem)@, k)),
{
    match read_16(mem, k) {
        Ok(n) => {
            mem.set_register(ACC, !n);
            Ok(())
        },
        Err(e) => Err(e),
    }
}

/// Subtract.
pub fn su(mem: &mut Memory, k: ErasableAddress) -> (r: Result<(), AgcError>)
    requires
        old(mem).wf(),
    ensures
        final(mem).wf(),
        applied(r, final(mem)@, spec_su(old(mem)@, k)),
{
    let acc = mem.register(ACC);
    match read_16(mem, k) {
        Ok(n) => {
            mem.set_register(ACC, add_modified(acc, !n));
            Ok(())
        },
        Err(e) => Err(e),
    }
}

/// Transfer control, keeping the return address in Q.
pub fn tc(mem: &mut Memory, k: Address) -> (r: Result<(), AgcError>)
    requires
        old(mem).wf(),
    ensures
        final(mem).wf(),
        applied(r, final(mem)@, spec_tc(old(mem)@, k)),
{
    let z = mem.register(Z);
    mem.set_register(Z, k);
    mem.set_register(Q, z);
    Ok(())
}

/// Transfer control to fixed, without a return address.
pub fn tcf(mem: &mut Memory, k: FixedAddress) -> (r: Result<(), AgcError>)
    requires
        old(mem).wf(),
    ensures
        final(mem).wf(),
        applied(r, final(mem)@, spec_tcf(old(mem)@, k)),
{
    mem.set_register(Z, k);
    Ok(())
}

/// The address below `k`, wrapping within twelve bits.
pub fn lower_address(k: Address) -> (r: Address)
    ensures
        r == lower(k),
{
    ((k as u32 + 0x0FFF) % 0x1000) as u16
}

/// Whether CCS treats its operand as negative: by the overflow tag for the
/// sixteen-bit registers, by bit 14 elsewhere.
pub open spec fn ccs_negative(n: u16, w: bool) -> bool {
    if w {
        n & 0x8000 != 0
    } else {
        n & 0x4000 != 0
    }
}

/// How many instructions CCS skips beyond the next one: one for zero, two
/// for a negative value, three for negative zero, none for a positive one.
pub open spec fn ccs_skip(n: u16, w: bool) -> u16 {
    let v = if w { n } else { extended(n) };
    if n == 0 {
        1
    } else if v == NEG_ZERO {
        3
    } else if ccs_negative(n, w) {
        2
    } else {
        0
    }
}

/// The diminished absolute value that CCS leaves in the accumulator.
pub open spec fn ccs_dabs(n: u16, w: bool) -> u16 {
    let v = if w { n } else { extended(n) };
    let magnitude = if ccs_negative(n, w) { !v } else { v };
    if magnitude >= 1 {
        (magnitude - 1) as u16
    } else {
        0
    }
}

/// CCS: the diminished absolute value of the operand into the accumulator,
/// and a skip chosen by the operand's class.
pub open spec fn spec_ccs(m: MemView, k: u16) -> Result<MemView, AgcError> {
    match m.read(k) {
        Ok(n) => {
            let m1 = m.with_reg(ACC, ccs_dabs(n, wide(k)));
            Ok(m1.with_reg(Z, (m1.regs.z + ccs_skip(n, wide(k))) as u16))
        },
        Err(e) => Err(e),
    }
}

/// DAS: the double word in A and L added to the one at `k - 1` and `k`, low
/// words first; each half is stored corrected, the low overflow is carried
/// into the high sum, and A gets the high overflow and L zero.
pub open spec fn spec_das(m: MemView, k: u16) -> Result<MemView, AgcError> {
    match read16(m, L) {
        Ok(a_low) => match read16(m, lower(k)) {
            Ok(b) => match read16(m, k) {
                Ok(b_low) => match store_corrected(m, modified_sum(a_low, b_low), k) {
                    Ok(p) => match store_corrected(
                        p.0,
                        modified_sum(modified_sum(m.regs.acc, b), p.1),
                        lower(k),
                    ) {
                        Ok(q) => Ok(q.0.with_reg(ACC, q.1).with_reg(L, 0)),
                        Err(e) => Err(e),
                    },
                    Err(e) => Err(e),
                },
                Err(e) => Err(e),
            },
            Err(e) => Err(e),
        },
        Err(e) => Err(e),
    }
}

/// DCA: the low word at `k` into L first, then the high word at `k - 1`
/// into A.
pub open spec fn spec_dca(m: MemView, k: u16) -> Result<MemView, AgcError> {
    match m.read(k) {
        Ok(low) => {
            let m1 = m.with_reg(L, low);
            match read16(m1, lower(k)) {
                Ok(high) => Ok(m1.with_reg(ACC, high)),
                Err(e) => Err(e),
            }
        },
        Err(e) => Err(e),
    }
}

/// DCS: as DCA, with both words complemented.
pub open spec fn spec_dcs(m: MemView, k: u16) -> Result<MemView, AgcError> {
    match m.read(k) {
        Ok(low) => {
            let m1 = m.with_reg(L, !low);
            match read16(m1, lower(k)) {
                Ok(high) => Ok(m1.with_reg(ACC, !high)),
                Err(e) => Err(e),
            }
        },
        Err(e) => Err(e),
    }
}

/// DXCH: the double word at `k - 1` and `k` into A and L.
pub open spec fn spec_dxch(m: MemView, k: u16) -> Result<MemView, AgcError> {
    match read16(m, lower(k)) {
        Ok(high) => match read16(m, k) {
            Ok(low) => Ok(m.with_reg(ACC, high).with_reg(L, low)),
            Err(e) => Err(e),
        },
        Err(e) => Err(e),
    }
}

/// LXCH: L and the operand exchanged.
pub open spec fn spec_lxch(m: MemView, k: u16) -> Result<MemView, AgcError> {
    match m.read(k) {
        Ok(n) => match m.write(k, m.regs.l) {
            Ok(m1) => Ok(m1.with_reg(L, n)),
            Err(e) => Err(e),
        },
        Err(e) => Err(e),
    }
}

/// XCH: the accumulator and the operand exchanged; a fifteen-bit operand is
/// sign-extended on the way in and the accumulator corrected on the way out.
pub open spec fn spec_xch(m: MemView, k: u16) -> Result<MemView, AgcError> {
    match m.read(k) {
        Ok(v) => {
            let m1 = m.with_reg(ACC, if wide(k) { v } else { extended(v) });
            m1.write(k, if wide(k) { m.regs.acc } else { corrected(m.regs.acc) })
        },
        Err(e) => Err(e),
    }
}

/// QXCH: as XCH, with the return register Q.
pub open spec fn spec_qxch(m: MemView, k: u16) -> Result<MemView, AgcError> {
    match m.read(k) {
        Ok(v) => {
            let m1 = m.with_reg(Q, if wide(k) { v } else { extended(v) });
            m1.write(k, if wide(k) { m.regs.q } else { corrected(m.regs.q) })
        },
        Err(e) => Err(e),
    }
}

/// MASK: the accumulator ANDed with the operand; with a fifteen-bit operand
/// the accumulator is corrected first and the result sign-extended.
pub open spec fn spec_mask(m: MemView, k: u16) -> Result<MemView, AgcError> {
    match m.read(k) {
        Ok(v) => Ok(
            m.with_reg(
                ACC,
                if wide(k) {
                    m.regs.acc & v
                } else {
                    extended(corrected(m.regs.acc) & v)
                },
            ),
        ),
        Err(e) => Err(e),
    }
}

/// TS: the accumulator stored corrected at `k`. On overflow the next
/// instruction is skipped and, unless `k` is the accumulator itself, the
/// accumulator gets the overflow indicator.
pub open spec fn spec_ts(m: MemView, k: u16) -> Result<MemView, AgcError> {
    match store_corrected(m, m.regs.acc, k) {
        Ok(p) => if p.1 == 0 {
            Ok(p.0)
        } else {
            let m2 = if k != ACC { p.0.with_reg(ACC, p.1) } else { p.0 };
            Ok(m2.with_reg(Z, (m2.regs.z + 1) as u16))
        },
        Err(e) => Err(e),
    }
}

/// Count, compare and skip.
pub fn ccs(mem: &mut Memory, k: ErasableAddress) -> (r: Result<(), AgcError>)
    requires
        old(mem).wf(),
    ensures
        final(mem).wf(),
        applied(r, final(mem)@, spec_ccs(old(mem)@, k)),
{
    let n = match mem.read(k) {
        Ok(n) => n,
        Err(e) => return Err(e),
    };
    let w = is_16bit(k);
    let negative = if w {
        n & 0x8000 != 0
    } else {
        n & 0x4000 != 0
    };
    let v = if w {
        n
    } else {
        sign_extend(n)
    };
    let magnitude = if negative {
        !v
    } else {
        v
    };
    let dabs = if magnitude >= 1 {
        magnitude - 1
    } else {
        0
    };
    mem.set_register(ACC, dabs);
    let skip: u16 = if n == 0 {
        1
    } else if v == NEG_ZERO {
        3
    } else if negative {
        2
    } else {
        0
    };
    let z = mem.register(Z);
    mem.set_register(Z, z + skip);
    Ok(())
}

/// Double add to storage.
pub fn das(mem: &mut Memory, k: ErasableAddress) -> (r: Result<(), AgcError>)
    requires
        old(mem).wf(),
    ensures
        final(mem).wf(),
        applied(r, final(mem)@, spec_das(old(mem)@, k)),
{
    let a = mem.register(ACC);
    let a_low = match read_16(mem, L) {
        Ok(v) => v,
        Err(e) => return Err(e),
    };
    let high_k = lower_address(k);
    let b = match read_16(mem, high_k) {
        Ok(v) => v,
        Err(e) => return Err(e),
    };
    let b_low = match read_16(mem, k) {
        Ok(v) => v,
        Err(e) => return Err(e),
    };
    let sum_low = add_modified(a_low, b_low);
    let overflow_low = match save_corrected(mem, sum_low, k) {
        Ok(o) => o,
        Err(e) => return Err(e),
    };
    let sum = add_modified(add_modified(a, b), overflow_low);
    let overflow = match save_corrected(mem, sum, high_k) {
        Ok(o) => o,
        Err(e) => return Err(e),
    };
    mem.set_register(ACC, overflow);
    mem.set_register(L, 0);
    Ok(())
}

/// Double clear and add.
pub fn dca(mem: &mut Memory, k: Address) -> (r: Result<(), AgcError>)
    requires
        old(mem).wf(),
    ensures
        final(mem).wf(),
        applied(r, final(mem)@, spec_dca(old(mem)@, k)),
{
    let low = match mem.read(k) {
        Ok(v) => v,
        Err(e) => return Err(e),
    };
    mem.set_register(L, low);
    match read_16(mem, lower_address(k)) {
        Ok(high) => {
            mem.set_register(ACC, high);
            Ok(())
        },
        Err(e) => Err(e),
    }
}

/// Double clear and subtract.
pub fn dcs(mem: &mut Memory, k: Address) -> (r: Result<(), AgcError>)
    requires
        old(mem).wf(),
    ensures
        final(mem).wf(),
        applied(r, final(mem)@, spec_dcs(old(mem)@, k)),
{
    let low = match mem.read(k) {
        Ok(v) => v,
        Err(e) => return Err(e),
    };
    mem.set_register(L, !low);
    match read_16(mem, lower_address(k)) {
        Ok(high) => {
            mem.set_register(ACC, !high);
            Ok(())
        },
        Err(e) => Err(e),
    }
}

/// Double exchange: loads the double word at `k - 1` and `k` into A and L.
pub fn dxch(mem: &mut Memory, k: ErasableAddress) -> (r: Result<(), AgcError>)
    requires
        old(mem).wf(),
    ensures
        final(mem).wf(),
        applied(r, final(mem)@, spec_dxch(old(mem)@, k)),
{
    let high = match read_16(mem, lower_address(k)) {
        Ok(v) => v,
        Err(e) => return Err(e),
    };
    let low = match read_16(mem, k) {
        Ok(v) => v,
        Err(e) => return Err(e),
    };
    mem.set_register(ACC, high);
    mem.set_register(L, low);
    Ok(())
}

/// Exchange L and `k`.
pub fn lxch(mem: &mut Memory, k: ErasableAddress) -> (r: Result<(), AgcError>)
    requires
        old(mem).wf(),
    ensures
        final(mem).wf(),
        applied(r, final(mem)@, spec_lxch(old(mem)@, k)),
{
    let n = match mem.read(k) {
        Ok(v) => v,
        Err(e) => return Err(e),
    };
    let l = mem.register(L);
    match mem.write(k, l) {
        Ok(()) => {
            mem.set_register(L, n);
            Ok(())
        },
        Err(e) => Err(e),
    }
}

/// Exchange the accumulator and `k`.
pub fn xch(mem: &mut Memory, k: ErasableAddress) -> (r: Result<(), AgcError>)
    requires
        old(mem).wf(),
    ensures
        final(mem).wf(),
        applied(r, final(mem)@, spec_xch(old(mem)@, k)),
{
    let acc = mem.register(ACC);
    let val = match mem.read(k) {
        Ok(v) => v,
        Err(e) => return Err(e),
    };
    if is_16bit(k) {
        mem.set_register(ACC, val);
        mem.write(k, acc)
    } else {
        mem.set_register(ACC, sign_extend(val));
        mem.write(k, correct(acc))
    }
}

/// Exchange Q and `k`.
pub fn qxch(mem: &mut Memory, k: ErasableAddress) -> (r: Result<(), AgcError>)
    requires
        old(mem).wf(),
    ensures
        final(mem).wf(),
        applied(r, final(mem)@, spec_qxch(old(mem)@, k)),
{
    let q = mem.register(Q);
    let val = match mem.read(k) {
        Ok(v) => v,
        Err(e) => return Err(e),
    };
    if is_16bit(k) {
        mem.set_register(Q, val);
        mem.write(k, q)
    } else {
        mem.set_register(Q, sign_extend(val));
        mem.write(k, correct(q))
    }
}

/// AND the accumulator with `k`.
pub fn mask(mem: &mut Memory, k: Address) -> (r: Result<(), AgcError>)
    requires
        old(mem).wf(),
    ensures
        final(mem).wf(),
        applied(r, final(mem)@, spec_mask(old(mem)@, k)),
{
    let acc = mem.register(ACC);
    let v = match mem.read(k) {
        Ok(v) => v,
        Err(e) => return Err(e),
    };
    if is_16bit(k) {
        mem.set_register(ACC, acc & v);
    } else {
        mem.set_register(ACC, sign_extend(correct(acc) & v));
    }
    Ok(())
}

/// Transfer to storage.
pub fn ts(mem: &mut Memory, k: ErasableAddress) -> (r: Result<(), AgcError>)
    requires
        old(mem).wf(),
    ensures
        final(mem).wf(),
        applied(r, final(mem)@, spec_ts(old(mem)@, k)),
{
    let acc = mem.register(ACC);
    let overflow = match save_corrected(mem, acc, k) {
        Ok(o) => o,
        Err(e) => return Err(e),
    };
    if overflow != 0 {
        if k != ACC {
            mem.set_register(ACC, overflow);
        }
        let z = mem.register(Z);
        mem.set_register(Z, z + 1);
    }
    Ok(())
}

/// A fifteen-bit word read as two's complement.
pub open spec fn twos15(x: u16) -> int {
    if x & 0x4000 == 0 {
        (x & 0x3FFF) as int
    } else {
        (x & 0x3FFF) as int - 0x4000
    }
}

/// A difference of two fifteen-bit two's-complement values, wrapped into
/// that range.
pub open spec fn wrap15(d: int) -> int {
    if d >= 0x4000 {
        d - 0x8000
    } else if d < -0x4000 {
        d + 0x8000
    } else {
        d
    }
}

/// The accumulator after MSU: the difference of two two's-complement values,
/// taken modulo the word size and given back in one's complement.
pub open spec fn msu_difference(acc: u16, n: u16, w: bool) -> u16 {
    if w {
        ones16(((acc as i16) as int - (n as i16) as int) as i16)
    } else {
        extended(ones16(wrap15(twos15(acc) - twos15(n)) as i16))
    }
}

/// MSU: the modular difference of the accumulator and the operand.
pub open spec fn spec_msu(m: MemView, k: u16) -> Result<MemView, AgcError> {
    match m.read(k) {
        Ok(n) => Ok(m.with_reg(ACC, msu_difference(m.regs.acc, n, wide(k)))),
        Err(e) => Err(e),
    }
}

/// The sign that MP attaches to both halves of a non-zero product, in
/// bit 15.
pub open spec fn product_sign(p: int) -> u16 {
    if p < 0 {
        0x8000
    } else {
        0
    }
}

/// The upper fourteen bits of a product's one's-complement pattern.
pub open spec fn product_high(p: int) -> u16 {
    ((ones32(p as i32) >> 14u32) % 0x4000) as u16
}

/// The lower fourteen bits of a product's one's-complement pattern.
pub open spec fn product_low(p: int) -> u16 {
    (ones32(p as i32) % 0x4000) as u16
}

/// MP: the corrected accumulator times the operand. A zero product is
/// negative zero in both registers when the accumulator was a zero and the
/// signs differ, positive zero otherwise; any other product is split into
/// fourteen-bit halves, L the low and A the high, each given the product's
/// sign in bit 15. A keeps that bit, without sign extension; L keeps fifteen
/// bits, so its sign bit is dropped.
pub open spec fn spec_mp(m: MemView, k: u16) -> Result<MemView, AgcError> {
    let a = corrected(m.regs.acc);
    match read16(m, k) {
        Ok(n) => {
            let p = value_of(a) * value_of(n);
            if p == 0 {
                let zero: u16 = if (a == 0 || a == NEG_ZERO) && sign_of(a) != sign_of(n) {
                    NEG_ZERO
                } else {
                    0
                };
                Ok(m.with_reg(L, zero).with_reg(ACC, zero))
            } else {
                Ok(
                    m.with_reg(L, (product_low(p) + product_sign(p)) as u16).with_reg(
                        ACC,
                        (product_high(p) + product_sign(p)) as u16,
                    ),
                )
            }
        },
        Err(e) => Err(e),
    }
}

/// The value of a word lies within the fifteen-bit one's-complement range.
pub proof fn lemma_value_range(n: u16)
    ensures
        -0x3FFF <= value_of(n) <= 0x3FFF,
{
    assert(-0x3FFF <= value_of(n) <= 0x3FFF) by (bit_vector);
}

/// Modular subtract; the accumulator and the operand hold two's-complement
/// values.
pub fn msu(mem: &mut Memory, k: ErasableAddress) -> (r: Result<(), AgcError>)
    requires
        old(mem).wf(),
    ensures
        final(mem).wf(),
        applied(r, final(mem)@, spec_msu(old(mem)@, k)),
{
    let n = match mem.read(k) {
        Ok(v) => v,
        Err(e) => return Err(e),
    };
    let acc = mem.register(ACC);
    if is_16bit(k) {
        let diff: i32 = (acc as i16) as i32 - (n as i16) as i32;
        mem.set_register(ACC, ones_complement16(diff as i16));
    } else {
        let a: i32 = if acc & 0x4000 == 0 {
            (acc & 0x3FFF) as i32
        } else {
            (acc & 0x3FFF) as i32 - 0x4000
        };
        let b: i32 = if n & 0x4000 == 0 {
            (n & 0x3FFF) as i32
        } else {
            (n & 0x3FFF) as i32 - 0x4000
        };
        assert((acc & 0x3FFF) <= 0x3FFF && (n & 0x3FFF) <= 0x3FFF) by (bit_vector);
        let mut diff: i32 = a - b;
        if diff >= 0x4000 {
            diff = diff - 0x8000;
        } else if diff < -0x4000 {
            diff = diff + 0x8000;
        }
        mem.set_register(ACC, sign_extend(ones_complement16(diff as i16)));
    }
    Ok(())
}

/// Multiply.
pub fn mp(mem: &mut Memory, k: Address) -> (r: Result<(), AgcError>)
    requires
        old(mem).wf(),
    ensures
        final(mem).wf(),
        applied(r, final(mem)@, spec_mp(old(mem)@, k)),
{
    let acc = correct(mem.register(ACC));
    let n = match read_16(mem, k) {
        Ok(v) => v,
        Err(e) => return Err(e),
    };
    let x = as_i32(acc);
    let y = as_i32(n);
    proof {
        lemma_value_range(acc);
        lemma_value_range(n);
        assert(-0x3FFF * 0x3FFF <= x * y <= 0x3FFF * 0x3FFF) by (nonlinear_arith)
            requires
                -0x3FFF <= x <= 0x3FFF,
                -0x3FFF <= y <= 0x3FFF,
        ;
    }
    let product: i32 = x * y;
    if product == 0 {
        let zero: u16 = if (acc == 0 || acc == NEG_ZERO) && sign_bit(acc) != sign_bit(n) {
            NEG_ZERO
        } else {
            0
        };
        mem.set_register(L, zero);
        mem.set_register(ACC, zero);
        return Ok(());
    }
    let pattern = ones_complement32(product);
    let sign: u16 = if product < 0 {
        0x8000
    } else {
        0
    };
    let low = (pattern % 0x4000) as u16;
    let high = ((pattern >> 14) % 0x4000) as u16;
    mem.set_register(L, low + sign);
    mem.set_register(ACC, high + sign);
    Ok(())
}

/// The instructions this machine carries out.
#[derive(Debug, Clone, Copy, PartialEq, Eq, Structural)]
pub enum Op {
    Tc,
    Ccs,
    Tcf,
    Das,
    Lxch,
    Incr,
    Ads,
    Ca,
    Cs,
    Com,
    Index,
    Dxch,
    Ts,
    Xch,
    Ad,
    Mask,
    Return,
    Relint,
    Inhint,
    Extend,
    Bzf,
    Msu,
    Qxch,
    Aug,
    Dim,
    Dca,
    Dcs,
    Su,
    Bzmf,
    Mp,
}

/// A decoded instruction: what it does and its operand address, if it takes
/// one.
#[derive(Debug, Clone, Copy, PartialEq, Eq, Structural)]
pub struct Instruction(pub Op, pub Option<Address>);

/// Bits 12..=14 of an instruction word.
pub open spec fn opcode_of(w: u16) -> u16 {
    (w & 0x7000) >> 12u16
}

/// Bits 10..=11 of an instruction word.
pub open spec fn quarter_of(w: u16) -> u16 {
    (w & 0x0C00) >> 10u16
}

/// The meaning of an instruction word in the basic or the extended set.
pub open spec fn decoded(w: u16, extended: bool) -> Result<Instruction, AgcError> {
    let op = opcode_of(w);
    let qc = quarter_of(w);
    let er: u16 = w & 0x03FF;
    let a: u16 = w & 0x0FFF;
    if !extended {
        if op == 0 {
            if a == 2 {
                Ok(Instruction(Op::Return, None))
            } else if a == 3 {
                Ok(Instruction(Op::Relint, None))
            } else if a == 4 {
                Ok(Instruction(Op::Inhint, None))
            } else if a == 6 {
                Ok(Instruction(Op::Extend, None))
            } else {
                Ok(Instruction(Op::Tc, Some(a)))
            }
        } else if op == 1 {
            if qc == 0 {
                Ok(Instruction(Op::Ccs, Some(er)))
            } else {
                Ok(Instruction(Op::Tcf, Some(a)))
            }
        } else if op == 2 {
            if qc == 0 {
                Ok(Instruction(Op::Das, Some(er)))
            } else if qc == 1 {
                Ok(Instruction(Op::Lxch, Some(er)))
            } else if qc == 2 {
                Ok(Instruction(Op::Incr, Some(er)))
            } else {
                Ok(Instruction(Op::Ads, Some(er)))
            }
        } else if op == 3 {
            Ok(Instruction(Op::Ca, Some(a)))
        } else if op == 4 {
            if a == 0 {
                Ok(Instruction(Op::Com, None))
            } else {
                Ok(Instruction(Op::Cs, Some(a)))
            }
        } else if op == 5 {
            if qc == 0 {
                if a == 15 {
                    Err(AgcError::UnimplementedInstruction(w))
                } else {
                    Ok(Instruction(Op::Index, Some(a)))
                }
            } else if qc == 1 {
                Ok(Instruction(Op::Dxch, Some(er)))
            } else if qc == 2 {
                Ok(Instruction(Op::Ts, Some(er)))
            } else {
                Ok(Instruction(Op::Xch, Some(er)))
            }
        } else if op == 6 {
            Ok(Instruction(Op::Ad, Some(a)))
        } else {
            Ok(Instruction(Op::Mask, Some(a)))
        }
    } else {
        if op == 0 {
            Err(AgcError::UndefinedInstruction(w))
        } else if op == 1 {
            if qc == 0 {
                Err(AgcError::UnimplementedInstruction(w))
            } else {
                Ok(Instruction(Op::Bzf, Some(a)))
            }
        } else if op == 2 {
            if qc == 0 {
                Ok(Instruction(Op::Msu, Some(er)))
            } else if qc == 1 {
                Ok(Instruction(Op::Qxch, Some(er)))
            } else if qc == 2 {
                Ok(Instruction(Op::Aug, Some(er)))
            } else {
                Ok(Instruction(Op::Dim, Some(er)))
            }
        } else if op == 3 {
            Ok(Instruction(Op::Dca, Some(a)))
        } else if op == 4 {
            Ok(Instruction(Op::Dcs, Some(a)))
        } else if op == 5 {
            Ok(Instruction(Op::Index, Some(a)))
        } else if op == 6 {
            if qc == 0 {
                Ok(Instruction(Op::Su, Some(er)))
            } else {
                Ok(Instruction(Op::Bzmf, Some(a)))
            }
        } else {
            Ok(Instruction(Op::Mp, Some(a)))
        }
    }
}

/// The operand address of an instruction; 0 (the accumulator) for one that
/// takes none.
pub open spec fn operand_of(i: Instruction) -> u16 {
    match i.1 {
        Some(k) => k,
        None => 0,
    }
}

/// What carrying out a decoded instruction does. `was_extended` tells
/// whether it was read from the extended set.
pub open spec fn performed(m: MemView, i: Instruction, was_extended: bool) -> Result<MemView, AgcError> {
    let k = operand_of(i);
    match i.0 {
        Op::Tc => spec_tc(m, k),
        Op::Ccs => spec_ccs(m, k),
        Op::Tcf => spec_tcf(m, k),
        Op::Das => spec_das(m, k),
        Op::Lxch => spec_lxch(m, k),
        Op::Incr => spec_incr(m, k),
        Op::Ads => spec_ads(m, k),
        Op::Ca => spec_ca(m, k),
        Op::Cs => spec_cs(m, k),
        Op::Com => spec_cs(m, k),
        Op::Index => match m.read(k) {
            Ok(v) => Ok(MemView { index: v, extended: m.extended || was_extended, ..m }),
            Err(e) => Err(e),
        },
        Op::Dxch => spec_dxch(m, k),
        Op::Ts => spec_ts(m, k),
        Op::Xch => spec_xch(m, k),
        Op::Ad => spec_ad(m, k),
        Op::Mask => spec_mask(m, k),
        Op::Return => Ok(m.with_reg(Z, m.regs.q)),
        Op::Relint => Ok(MemView { interrupts: true, ..m }),
        Op::Inhint => Ok(MemView { interrupts: false, ..m }),
        Op::Extend => Ok(MemView { extended: true, ..m }),
        Op::Bzf => spec_bzf(m, k),
        Op::Msu => spec_msu(m, k),
        Op::Qxch => spec_qxch(m, k),
        Op::Aug => spec_aug(m, k),
        Op::Dim => spec_dim(m, k),
        Op::Dca => spec_dca(m, k),
        Op::Dcs => spec_dcs(m, k),
        Op::Su => spec_su(m, k),
        Op::Bzmf => spec_bzmf(m, k),
        Op::Mp => spec_mp(m, k),
    }
}

/// One instruction word executed: the pending bias is added to it, it is
/// decoded in the current set, the program counter is advanced, the bias
/// and the extended flag are cleared, and the instruction is carried out.
pub open spec fn executed(m: MemView, ins: u16) -> Result<MemView, AgcError> {
    match decoded(modified_sum(ins, m.index), m.extended) {
        Ok(i) => performed(
            MemView { index: 0, extended: false, ..m.with_reg(Z, (m.regs.z + 1) as u16) },
            i,
            m.extended,
        ),
        Err(e) => Err(e),
    }
}

/// One machine cycle: the word at the program counter, executed.
pub open spec fn stepped(m: MemView) -> Result<MemView, AgcError> {
    match m.read(m.regs.z) {
        Ok(ins) => executed(m, ins),
        Err(e) => Err(e),
    }
}

/// Whether a biased word names an instruction that this machine does not
/// carry out: DV, RESUME, or an extended word with opcode 0.
pub open spec fn refused(w: u16, extended: bool) -> bool {
    ||| extended && opcode_of(w) == 0
    ||| extended && opcode_of(w) == 1 && quarter_of(w) == 0
    ||| !extended && opcode_of(w) == 5 && quarter_of(w) == 0 && (w & 0x0FFF) == 15
}

/// The error for a refused word: undefined for extended opcode 0,
/// unimplemented for DV and RESUME.
pub open spec fn refusal(w: u16, extended: bool) -> AgcError {
    if extended && opcode_of(w) == 0 {
        AgcError::UndefinedInstruction(w)
    } else {
        AgcError::UnimplementedInstruction(w)
    }
}

/// Decodes an instruction word, already biased, in the basic or the
/// extended set.
pub fn decode_word(w: Word, extended: bool) -> (r: Result<Instruction, AgcError>)
    ensures
        r == decoded(w, extended),
        r is Err <==> refused(w, extended),
        refused(w, extended) ==> r == Err::<Instruction, AgcError>(refusal(w, extended)),
{
    let op: u16 = (w & 0x7000) >> 12u16;
    let qc: u16 = (w & 0x0C00) >> 10u16;
    let er: ErasableAddress = w & 0x03FF;
    let a: Address = w & 0x0FFF;
    if !extended {
        if op == 0 {
            if a == 2 {
                Ok(Instruction(Op::Return, None))
            } else if a == 3 {
                Ok(Instruction(Op::Relint, None))
            } else if a == 4 {
                Ok(Instruction(Op::Inhint, None))
            } else if a == 6 {
                Ok(Instruction(Op::Extend, None))
            } else {
                Ok(Instruction(Op::Tc, Some(a)))
            }
        } else if op == 1 {
            if qc == 0 {
                Ok(Instruction(Op::Ccs, Some(er)))
            } else {
                Ok(Instruction(Op::Tcf, Some(a)))
            }
        } else if op == 2 {
            if qc == 0 {
                Ok(Instruction(Op::Das, Some(er)))
            } else if qc == 1 {
                Ok(Instruction(Op::Lxch, Some(er)))
            } else if qc == 2 {
                Ok(Instruction(Op::Incr, Some(er)))
            } else {
                Ok(Instruction(Op::Ads, Some(er)))
            }
        } else if op == 3 {
            Ok(Instruction(Op::Ca, Some(a)))
        } else if op == 4 {
            if a == 0 {
                Ok(Instruction(Op::Com, None))
            } else {
                Ok(Instruction(Op::Cs, Some(a)))
            }
        } else if op == 5 {
            if qc == 0 {
                if a == 15 {
                    Err(AgcError::UnimplementedInstruction(w))
                } else {
                    Ok(Instruction(Op::Index, Some(a)))
                }
            } else if qc == 1 {
                Ok(Instruction(Op::Dxch, Some(er)))
            } else if qc == 2 {
                Ok(Instruction(Op::Ts, Some(er)))
            } else {
                Ok(Instruction(Op::Xch, Some(er)))
            }
        } else if op == 6 {
            Ok(Instruction(Op::Ad, Some(a)))
        } else {
            Ok(Instruction(Op::Mask, Some(a)))
        }
    } else {
        if op == 0 {
            Err(AgcError::UndefinedInstruction(w))
        } else if op == 1 {
            if qc == 0 {
                Err(AgcError::UnimplementedInstruction(w))
            } else {
                Ok(Instruction(Op::Bzf, Some(a)))
            }
        } else if op == 2 {
            if qc == 0 {
                Ok(Instruction(Op::Msu, Some(er)))
            } else if qc == 1 {
                Ok(Instruction(Op::Qxch, Some(er)))
            } else if qc == 2 {
                Ok(Instruction(Op::Aug, Some(er)))
            } else {
                Ok(Instruction(Op::Dim, Some(er)))
            }
        } else if op == 3 {
            Ok(Instruction(Op::Dca, Some(a)))
        } else if op == 4 {
            Ok(Instruction(Op::Dcs, Some(a)))
        } else if op == 5 {
            Ok(Instruction(Op::Index, Some(a)))
        } else if op == 6 {
            if qc == 0 {
                Ok(Instruction(Op::Su, Some(er)))
            } else {
                Ok(Instruction(Op::Bzmf, Some(a)))
            }
        } else {
            Ok(Instruction(Op::Mp, Some(a)))
        }
    }
}

/// Decodes an instruction word as the machine would execute it now: with
/// the pending bias added and in the current instruction set. Nothing
/// changes; the bias stays armed.
pub fn decode(mem: &Memory, ins: Word) -> (r: Result<Instruction, AgcError>)
    ensures
        r == decoded(modified_sum(ins, mem@.index), mem@.extended),
        r is Err <==> refused(modified_sum(ins, mem@.index), mem@.extended),
        refused(modified_sum(ins, mem@.index), mem@.extended) ==> r == Err::<Instruction, AgcError>(
            refusal(modified_sum(ins, mem@.index), mem@.extended),
        ),
{
    decode_word(add_modified(ins, mem.get_index()), mem.extracode())
}

/// Carries out a decoded instruction.
pub fn perform(mem: &mut Memory, i: Instruction, was_extended: bool) -> (r: Result<(), AgcError>)
    requires
        old(mem).wf(),
    ensures
        final(mem).wf(),
        applied(r, final(mem)@, performed(old(mem)@, i, was_extended)),
{
    let k: Address = match i.1 {
        Some(k) => k,
        None => 0,
    };
    match i.0 {
        Op::Tc => tc(mem, k),
        Op::Ccs => ccs(mem, k),
        Op::Tcf => tcf(mem, k),
        Op::Das => das(mem, k),
        Op::Lxch => lxch(mem, k),
        Op::Incr => incr(mem, k),
        Op::Ads => ads(mem, k),
        Op::Ca => ca(mem, k),
        Op::Cs => cs(mem, k),
        Op::Com => cs(mem, k),
        Op::Index => match mem.read(k) {
            Ok(v) => {
                mem.set_index(v);
                if was_extended {
                    mem.set_extracode();
                }
                Ok(())
            },
            Err(e) => Err(e),
        },
        Op::Dxch => dxch(mem, k),
        Op::Ts => ts(mem, k),
        Op::Xch => xch(mem, k),
        Op::Ad => ad(mem, k),
        Op::Mask => mask(mem, k),
        Op::Return => {
            let q = mem.register(Q);
            mem.set_register(Z, q);
            Ok(())
        },
        Op::Relint => {
            mem.relint();
            Ok(())
        },
        Op::Inhint => {
            mem.inhint();
            Ok(())
        },
        Op::Extend => {
            mem.set_extracode();
            Ok(())
        },
        Op::Bzf => bzf(mem, k),
        Op::Msu => msu(mem, k),
        Op::Qxch => qxch(mem, k),
        Op::Aug => aug(mem, k),
        Op::Dim => dim(mem, k),
        Op::Dca => dca(mem, k),
        Op::Dcs => dcs(mem, k),
        Op::Su => su(mem, k),
        Op::Bzmf => bzmf(mem, k),
        Op::Mp => mp(mem, k),
    }
}

/// Executes one instruction word.
pub fn execute(mem: &mut Memory, ins: Word) -> (r: Result<(), AgcError>)
    requires
        old(mem).wf(),
    ensures
        final(mem).wf(),
        applied(r, final(mem)@, executed(old(mem)@, ins)),
        refused(modified_sum(ins, old(mem)@.index), old(mem)@.extended) ==> r == Err::<(), AgcError>(
            refusal(modified_sum(ins, old(mem)@.index), old(mem)@.extended),
        ) && final(mem)@ == old(mem)@,
{
    let was_extended = mem.extracode();
    let i = match decode(mem, ins) {
        Ok(i) => i,
        Err(e) => return Err(e),
    };
    let z = mem.register(Z);
    mem.set_register(Z, z + 1);
    mem.clear_index();
    mem.clear_extracode();
    perform(mem, i, was_extended)
}

/// Runs one machine cycle: fetches the word at the program counter and
/// executes it.
pub fn step(mem: &mut Memory) -> (r: Result<(), AgcError>)
    requires
        old(mem).wf(),
    ensures
        final(mem).wf(),
        applied(r, final(mem)@, stepped(old(mem)@)),
        match old(mem)@.read(old(mem)@.regs.z) {
            Ok(ins) => refused(modified_sum(ins, old(mem)@.index), old(mem)@.extended)
                ==> final(mem)@ == old(mem)@,
            Err(_) => final(mem)@ == old(mem)@,
        },
{
    let z = mem.register(Z);
    match mem.read(z) {
        Ok(ins) => execute(mem, ins),
        Err(e) => Err(e),
    }
}

/// Storing a value at a register or an erasable cell and reading it back
/// in accumulator form: a value without overflow comes back as it was and
/// the indicator is 0; an overflowing value comes back corrected (as it was,
/// where the location keeps the sixteen-bit form), and the indicator is +1
/// for a positive and -1 for a negative overflow.
pub proof fn lemma_store_then_read(m: MemView, n: u16, k: u16)
    requires
        m.wf(),
        k == ACC || k == L || k == Q || ERASABLE_START <= k < ERASABLE_END,
    ensures
        match store_corrected(m, n, k) {
            Ok(p) => {
                &&& !has_overflow(n) ==> read16(p.0, k) == Ok::<u16, AgcError>(n) && p.1 == 0
                &&& has_overflow(n) ==> read16(p.0, k) == Ok::<u16, AgcError>(
                    if wide(k) { n } else { corrected(n) },
                )
                &&& has_overflow(n) && tag_of(n) == 0 ==> p.1 == 1
                &&& has_overflow(n) && tag_of(n) == 1 ==> p.1 == NEG_ONE
            },
            Err(_) => false,
        },
{
    assert((k & 0x0FFF) == k) by (bit_vector)
        requires
            k < 0x1000,
    ;
    assert(!has_overflow(n) ==> corrected(n) == n && extended(n & 0x7FFF) == n) by (bit_vector);
    assert(has_overflow(n) ==> extended(corrected(n) & 0x7FFF) == corrected(n)) by (bit_vector);
    if k == L {
        assert(0x7FFF & 0x0FFF == 0x0FFF) by (bit_vector);
    }
}

/// Bits of the word that encodes CCS at erasable address `k`.
proof fn lemma_ccs_word(k: u16)
    requires
        k < 0x0400,
    ensures
        modified_sum((0x1000 + k) as u16, 0) == (0x1000 + k) as u16,
        opcode_of((0x1000 + k) as u16) == 1,
        quarter_of((0x1000 + k) as u16) == 0,
        ((0x1000 + k) as u16) & 0x03FF == k,
{
    assert(modified_sum((0x1000 + k) as u16, 0) == (0x1000 + k) as u16) by (bit_vector)
        requires
            k < 0x0400,
    ;
    assert(opcode_of((0x1000 + k) as u16) == 1 && quarter_of((0x1000 + k) as u16) == 0 && ((0x1000
        + k) as u16) & 0x03FF == k) by (bit_vector)
        requires
            k < 0x0400,
    ;
}

/// A twelve-bit address other than A and Q reads as a fifteen-bit value.
pub proof fn lemma_narrow_read_bound(m: MemView, k: u16)
    requires
        m.wf(),
        k < 0x1000,
        !wide(k),
    ensures
        match m.read(k) {
            Ok(n) => n <= 0x7FFF,
            Err(_) => true,
        },
{
    let a = k & 0x0FFF;
    let bb = m.regs.bb;
    assert(((bb & 0x0007) << 8u16) <= 0x7FFF && (bb & 0x7C00) <= 0x7FFF) by (bit_vector);
    assert(a == k) by (bit_vector)
        requires
            a == k & 0x0FFF,
            k < 0x1000,
    ;
}

/// CCS on a fifteen-bit operand (any ten-bit address but A, Q and the
/// program counter) sorts it four ways. Counting the step past CCS itself,
/// the program counter moves two places for zero, three for a negative
/// value, four for negative zero and one for a positive value. The
/// accumulator gets the magnitude less one (zero for either zero), and the
/// operand stays as it was.
pub proof fn lemma_ccs_branch(m: MemView, k: u16, n: u16)
    requires
        m.wf(),
        !m.extended,
        m.index == 0,
        k < 0x0400,
        k != ACC && k != Q && k != Z,
        m.read(k) == Ok::<u16, AgcError>(n),
    ensures
        match executed(m, (0x1000 + k) as u16) {
            Ok(m2) => {
                &&& m2.read(k) == m.read(k)
                &&& n == 0 ==> m2.regs.acc == 0 && m2.regs.z == (m.regs.z + 2) % 0x1000
                &&& sign_of(n) == 1 && n != 0x7FFF ==> m2.regs.acc == 0x7FFF - n - 1
                    && m2.regs.z == (m.regs.z + 3) % 0x1000
                &&& n == 0x7FFF ==> m2.regs.acc == 0 && m2.regs.z == (m.regs.z + 4) % 0x1000
                &&& sign_of(n) == 0 && n != 0 ==> m2.regs.acc == n - 1 && m2.regs.z == (m.regs.z
                    + 1) % 0x1000
            },
            Err(_) => false,
        },
{
    lemma_ccs_word(k);
    lemma_narrow_read_bound(m, k);
    let z = m.regs.z;
    let m1 = MemView { index: 0, extended: false, ..m.with_reg(Z, (z + 1) as u16) };
    assert((k & 0x0FFF) == k) by (bit_vector)
        requires
            k < 0x0400,
    ;
    assert(m1.read(k) == m.read(k));
    let s = ccs_skip(n, false);
    let z1 = ((z + 1) as u16) & 0x0FFF;
    assert(ccs_skip(n, false) <= 3) by (bit_vector);
    assert((((z1 + s) as u16) & 0x0FFF) as int == (z + 1 + s) % 0x1000) by (bit_vector)
        requires
            z <= 0x0FFF,
            s <= 3,
            z1 == ((z + 1) as u16) & 0x0FFF,
    ;
    assert(n == 0 ==> ccs_dabs(n, false) == 0 && ccs_skip(n, false) == 1) by (bit_vector);
    assert(n <= 0x7FFF && sign_of(n) == 1 && n != 0x7FFF ==> ccs_skip(n, false) == 2
        && ccs_dabs(n, false) == 0x7FFF - n - 1) by (bit_vector);
    assert(n == 0x7FFF ==> ccs_skip(n, false) == 3 && ccs_dabs(n, false) == 0) by (bit_vector);
    assert(n <= 0x7FFF && sign_of(n) == 0 && n != 0 ==> ccs_skip(n, false) == 0 && ccs_dabs(
        n,
        false,
    ) == n - 1) by (bit_vector);
    let m2 = m1.with_reg(ACC, ccs_dabs(n, false));
    assert(m2.with_reg(Z, (m2.regs.z + s) as u16).read(k) == m.read(k));
}

/// Adding zero leaves a word as it is.
proof fn lemma_add_zero(w: u16)
    ensures
        modified_sum(w, 0) == w,
{
    assert(modified_sum(w, 0) == w) by (bit_vector);
}

/// Carrying out any instruction but INDEX leaves the bias as it was.
proof fn lemma_performed_keeps_bias(m: MemView, i: Instruction, e: bool)
    ensures
        match performed(m, i, e) {
            Ok(m2) => i.0 != Op::Index ==> m2.index == m.index,
            Err(_) => true,
        },
{
    let k = operand_of(i);
    match i.0 {
        Op::Tc => {},
        Op::Ccs => {},
        Op::Tcf => {},
        Op::Das => {},
        Op::Lxch => {},
        Op::Incr => {},
        Op::Ads => {},
        Op::Ca => {},
        Op::Cs => {},
        Op::Com => {},
        Op::Index => {},
        Op::Dxch => {},
        Op::Ts => {},
        Op::Xch => {},
        Op::Ad => {},
        Op::Mask => {},
        Op::Return => {},
        Op::Relint => {},
        Op::Inhint => {},
        Op::Extend => {},
        Op::Bzf => {},
        Op::Msu => {},
        Op::Qxch => {},
        Op::Aug => {},
        Op::Dim => {},
        Op::Dca => {},
        Op::Dcs => {},
        Op::Su => {},
        Op::Bzmf => {},
        Op::Mp => {},
    }
}

/// Every instruction but INDEX leaves the bias clear.
pub proof fn lemma_bias_cleared(m: MemView, ins: u16)
    requires
        m.wf(),
    ensures
        match (decoded(modified_sum(ins, m.index), m.extended), executed(m, ins)) {
            (Ok(i), Ok(m2)) => i.0 != Op::Index ==> m2.index == 0,
            _ => true,
        },
{
    match decoded(modified_sum(ins, m.index), m.extended) {
        Ok(i) => {
            let m0 = MemView { index: 0, extended: false, ..m.with_reg(Z, (m.regs.z + 1) as u16) };
            lemma_performed_keeps_bias(m0, i, m.extended);
        },
        Err(_) => {},
    }
}

/// A pending bias acts as if it had been added to the instruction word:
/// executing a word under a bias is executing the biased word without one.
pub proof fn lemma_bias_applied(m: MemView, ins: u16)
    ensures
        executed(m, ins) == executed(MemView { index: 0, ..m }, modified_sum(ins, m.index)),
{
    let w = modified_sum(ins, m.index);
    lemma_add_zero(w);
    let mz = MemView { index: 0, ..m };
    let m0 = MemView { index: 0, extended: false, ..m.with_reg(Z, (m.regs.z + 1) as u16) };
    assert(m0 == MemView { index: 0, extended: false, ..mz.with_reg(Z, (mz.regs.z + 1) as u16) });
    assert(decoded(modified_sum(w, mz.index), mz.extended) == decoded(w, m.extended));
}

/// Executing INDEX on a ten-bit address `a` other than the program counter
/// arms the bias with the value there and changes nothing else but the
/// program counter.
proof fn lemma_index_arms(m: MemView, a: u16, v: u16)
    requires
        m.wf(),
        !m.extended,
        m.index == 0,
        a < 0x0400,
        a != 15 && a != Z,
        m.read(a) == Ok::<u16, AgcError>(v),
    ensures
        match executed(m, (0x5000 + a) as u16) {
            Ok(m1) => m1 == MemView { index: v, ..m.with_reg(Z, (m.regs.z + 1) as u16) } && m1.wf(),
            Err(_) => false,
        },
{
    let w = (0x5000 + a) as u16;
    assert(modified_sum(w, 0) == w && opcode_of(w) == 5 && quarter_of(w) == 0 && (w & 0x0FFF) == a)
        by (bit_vector)
        requires
            w == (0x5000 + a) as u16,
            a < 0x0400,
    ;
    let m0 = MemView { index: 0, extended: false, ..m.with_reg(Z, (m.regs.z + 1) as u16) };
    assert(a & 0x0FFF == a) by (bit_vector)
        requires
            a < 0x0400,
    ;
    assert(m0.read(a) == m.read(a));
    assert(decoded(w, false) == Ok::<Instruction, AgcError>(Instruction(Op::Index, Some(a))));
    let m1 = MemView { index: v, ..m0 };
    assert(performed(m0, Instruction(Op::Index, Some(a)), false) == Ok::<MemView, AgcError>(m1));
    assert(executed(m, w) == Ok::<MemView, AgcError>(m1));
    let z1 = (m.regs.z + 1) as u16;
    assert(z1 & 0x0FFF <= 0x0FFF) by (bit_vector);
}

/// INDEX takes effect exactly once. Executing it on a ten-bit address other
/// than the program counter arms the bias with the value there and changes
/// nothing else but the program counter; the next word then executes just as that word with
/// the value added would without a bias; and unless that word is itself an
/// INDEX, the bias is clear after it.
pub proof fn lemma_index_single_use(m: MemView, a: u16, v: u16, next: u16)
    requires
        m.wf(),
        !m.extended,
        m.index == 0,
        a < 0x0400,
        a != 15 && a != Z,
        m.read(a) == Ok::<u16, AgcError>(v),
    ensures
        match executed(m, (0x5000 + a) as u16) {
            Ok(m1) => {
                &&& m1 == MemView { index: v, ..m.with_reg(Z, (m.regs.z + 1) as u16) }
                &&& executed(m1, next) == executed(MemView { index: 0, ..m1 }, modified_sum(next, v))
                &&& match (decoded(modified_sum(next, v), false), executed(m1, next)) {
                    (Ok(i), Ok(m2)) => i.0 != Op::Index ==> m2.index == 0,
                    _ => true,
                }
            },
            Err(_) => false,
        },
{
    lemma_index_arms(m, a, v);
    match executed(m, (0x5000 + a) as u16) {
        Ok(m1) => {
            lemma_bias_applied(m1, next);
            lemma_bias_cleared(m1, next);
        },
        Err(_) => {},
    }
}

} // verus!
