//! Memory-layout arithmetic.
//!
//! Every source type is lowered together with an authoritative layout: a byte
//! size and a power-of-two alignment.  The functions here are the only place
//! where layout arithmetic happens; the type builder and the calling
//! convention are proved against their contracts.

use vstd::prelude::*;

verus! {

/// A memory layout: a size in bytes and an alignment in bytes.
///
/// The alignment of every layout the crate produces is one of
/// 1, 2, 4, 8 or 16, and the size is a multiple of the alignment.
#[derive(Clone, Copy, Debug, PartialEq, Eq, Structural)]
pub struct Layout {
    pub size: usize,
    pub align: usize,
}

/// Error for layout arithmetic that would overflow the address space.
#[derive(Clone, Copy, Debug, PartialEq, Eq, Structural)]
pub struct LayoutError;

/// The alignments this code generator ever produces.
pub open spec fn wf_align(align: nat) -> bool {
    align == 1 || align == 2 || align == 4 || align == 8 || align == 16
}

/// A well-formed layout: supported power-of-two alignment, size a multiple of
/// the alignment, and the size fits the address space with room for padding.
pub open spec fn wf_layout(l: Layout) -> bool {
    &&& wf_align(l.align as nat)
    &&& l.size as int % l.align as int == 0
    &&& l.size + l.align <= usize::MAX
}

/// Padding needed after `size` bytes to reach an `align`-aligned offset.
pub open spec fn spec_padding(size: int, align: int) -> int
    recommends
        align > 0,
{
    if size % align == 0 {
        0
    } else {
        align - size % align
    }
}

/// Smallest multiple of `rhs` that is at least `lhs`.
pub open spec fn spec_next_multiple_of(lhs: int, rhs: int) -> int
    recommends
        rhs > 0,
{
    lhs + spec_padding(lhs, rhs)
}

impl Layout {
    /// Builds a layout after checking the size and alignment against the
    /// address-space limits; mirrors the checks of the standard allocator
    /// interface (size, rounded up to the alignment, must not exceed
    /// `isize::MAX`).
    pub fn from_size_align(size: usize, align: usize) -> (r: Result<Layout, LayoutError>)
        ensures
            match r {
                Ok(l) => {
                    &&& l.size == size
                    &&& l.align == align
                    &&& align > 0
                    &&& spec_next_multiple_of(size as int, align as int) <= isize::MAX
                },
                Err(_) => align == 0 || spec_next_multiple_of(size as int, align as int)
                    > isize::MAX,
            },
    {
        if align == 0 {
            return Err(LayoutError);
        }
        let rem: usize = size % align;
        let pad: usize = if rem == 0 {
            0
        } else {
            align - rem
        };
        if size > (isize::MAX as usize) || pad > (isize::MAX as usize) - size {
            Err(LayoutError)
        } else {
            Ok(Layout { size, align })
        }
    }

    /// The size in bytes.
    pub fn size(&self) -> (r: usize)
        ensures
            r == self.size,
    {
        self.size
    }

    /// The alignment in bytes.
    pub fn align(&self) -> (r: usize)
        ensures
            r == self.align,
    {
        self.align
    }
}

/// Smallest multiple of `rhs` no smaller than `lhs`.
pub fn next_multiple_of_usize(lhs: usize, rhs: usize) -> (r: usize)
    requires
        rhs > 0,
        spec_next_multiple_of(lhs as int, rhs as int) <= usize::MAX,
    ensures
        r == spec_next_multiple_of(lhs as int, rhs as int),
        r % rhs == 0,
        lhs <= r < lhs + rhs,
{
    proof {
        lemma_next_multiple_of(lhs as int, rhs as int);
    }
    match lhs % rhs {
        0 => lhs,
        r => lhs + (rhs - r),
    }
}

/// Smallest multiple of `rhs` no smaller than `lhs`.
pub fn next_multiple_of_u32(lhs: u32, rhs: u32) -> (r: u32)
    requires
        rhs > 0,
        spec_next_multiple_of(lhs as int, rhs as int) <= u32::MAX,
    ensures
        r == spec_next_multiple_of(lhs as int, rhs as int),
        r % rhs == 0,
        lhs <= r < lhs + rhs,
{
    proof {
        lemma_next_multiple_of(lhs as int, rhs as int);
    }
    match lhs % rhs {
        0 => lhs,
        r => lhs + (rhs - r),
    }
}

/// The next multiple is a multiple, and lies within one `rhs` of `lhs`.
pub proof fn lemma_next_multiple_of(lhs: int, rhs: int)
    requires
        rhs > 0,
        lhs >= 0,
    ensures
        spec_next_multiple_of(lhs, rhs) % rhs == 0,
        lhs <= spec_next_multiple_of(lhs, rhs) < lhs + rhs,
{
    let r = lhs % rhs;
    if r != 0 {
        assert((lhs + (rhs - r)) % rhs == 0) by (nonlinear_arith)
            requires
                rhs > 0,
                lhs >= 0,
                r == lhs % rhs,
                0 < r < rhs,
        ;
    }
}

/// Bytes of padding to insert after a value with layout `layout` so that the
/// next offset is aligned to `align` (meaningful for power-of-two `align`).
pub fn padding_needed_for(layout: &Layout, align: usize) -> (r: usize)
    requires
        align > 0,
    ensures
        r == spec_padding(layout.size as int, align as int),
        r < align,
        (layout.size + r) % align as int == 0,
{
    proof {
        lemma_next_multiple_of(layout.size as int, align as int);
    }
    let rem: usize = layout.size % align;
    if rem == 0 {
        0
    } else {
        align - rem
    }
}

/// Layout of `n` consecutive instances of `layout`, each padded to its own
/// alignment; also returns the stride between instances.
pub fn layout_repeat(layout: &Layout, n: usize) -> (r: Result<(Layout, usize), LayoutError>)
    requires
        layout.align > 0,
        layout.size + layout.align <= usize::MAX,
    ensures
        match r {
            Ok(p) => {
                &&& p.1 == spec_next_multiple_of(layout.size as int, layout.align as int)
                &&& p.0.size == p.1 * n
                &&& p.0.align == layout.align
                &&& p.0.size + p.0.align <= usize::MAX
                &&& p.0.size as int % p.0.align as int == 0
            },
            Err(_) => spec_next_multiple_of(layout.size as int, layout.align as int) * n
                + layout.align > usize::MAX || spec_next_multiple_of(
                spec_next_multiple_of(layout.size as int, layout.align as int) * n as int,
                layout.align as int,
            ) > isize::MAX,
        },
{
    let pad = padding_needed_for(layout, layout.align);
    let padded_size = layout.size + pad;
    proof {
        lemma_next_multiple_of(layout.size as int, layout.align as int);
    }
    let alloc_size = match padded_size.checked_mul(n) {
        Some(x) => x,
        None => {
            proof {
                assert(padded_size * n > usize::MAX) by (nonlinear_arith)
                    requires
                        padded_size * n > usize::MAX,
                ;
            }
            return Err(LayoutError);
        },
    };
    if alloc_size > usize::MAX - layout.align {
        return Err(LayoutError);
    }
    let l = match Layout::from_size_align(alloc_size, layout.align) {
        Ok(l) => l,
        Err(e) => {
            return Err(e);
        },
    };
    proof {
        lemma_mul_mod_zero(padded_size as int, n as int, layout.align as int);
    }
    Ok((l, padded_size))
}

/// A product of a multiple of `m` stays a multiple of `m`.
proof fn lemma_mul_mod_zero(a: int, b: int, m: int)
    requires
        m > 0,
        a % m == 0,
    ensures
        (a * b) % m == 0,
{
    vstd::arithmetic::div_mod::lemma_fundamental_div_mod(a, m);
    let k = a / m;
    assert(a * b == (k * b) * m) by (nonlinear_arith)
        requires
            a == m * k,
    ;
    vstd::arithmetic::div_mod::lemma_mod_multiples_basic(k * b, m);
}

/// Layout of a value of `layout` followed by a value of `next`, as in a
/// C-style struct; also returns the field offset of `next`.  The combined
/// size is not yet rounded to the combined alignment.
pub fn layout_extend(layout: &Layout, next: &Layout) -> (r: Result<
    (Layout, usize),
    LayoutError,
>)
    requires
        layout.align > 0,
        next.align > 0,
    ensures
        match r {
            Ok(p) => {
                &&& p.1 == spec_next_multiple_of(layout.size as int, next.align as int)
                &&& p.0.size == p.1 + next.size
                &&& p.0.size + p.0.align <= usize::MAX
                &&& p.0.align == if layout.align >= next.align {
                    layout.align as int
                } else {
                    next.align as int
                }
            },
            Err(_) => spec_next_multiple_of(layout.size as int, next.align as int) + next.size
                + if layout.align >= next.align {
                layout.align as int
            } else {
                next.align as int
            } > usize::MAX,
        },
{
    let align = if layout.align >= next.align {
        layout.align
    } else {
        next.align
    };
    let pad = padding_needed_for(layout, next.align);
    proof {
        lemma_next_multiple_of(layout.size as int, next.align as int);
    }
    if layout.size > usize::MAX - pad {
        return Err(LayoutError);
    }
    let offset = layout.size + pad;
    if next.size > usize::MAX - offset {
        return Err(LayoutError);
    }
    let new_size = offset + next.size;
    if new_size > usize::MAX - align {
        return Err(LayoutError);
    }
    Ok((Layout { size: new_size, align }, offset))
}

/// Rounds a layout's size up to a multiple of its alignment.
pub fn layout_pad_to_align(layout: &Layout) -> (r: Layout)
    requires
        layout.align > 0,
        layout.size + layout.align <= usize::MAX,
    ensures
        r.size == spec_next_multiple_of(layout.size as int, layout.align as int),
        r.align == layout.align,
        r.size as int % r.align as int == 0,
        layout.size <= r.size,
        r.size <= layout.size + layout.align,
{
    let pad = padding_needed_for(layout, layout.align);
    proof {
        lemma_next_multiple_of(layout.size as int, layout.align as int);
    }
    Layout { size: layout.size + pad, align: layout.align }
}

/// Layout for an integer of `width` bits.
///
/// Widths up to 64 bits use the natural power-of-two size and alignment; a
/// 128-bit integer is stored in 16 bytes with 8-byte alignment, matching the
/// backend's convention on 64-bit targets; wider integers (including the
/// 252-bit field element, padded to 32 bytes) are arrays of 64-bit limbs.
pub open spec fn spec_get_integer_layout(width: u32) -> Layout {
    if width == 0 {
        Layout { size: 0, align: 1 }
    } else if width <= 8 {
        Layout { size: 1, align: 1 }
    } else if width <= 16 {
        Layout { size: 2, align: 2 }
    } else if width <= 32 {
        Layout { size: 4, align: 4 }
    } else if width <= 64 {
        Layout { size: 8, align: 8 }
    } else if width <= 128 {
        Layout { size: 16, align: 8 }
    } else {
        Layout {
            size: (spec_next_multiple_of(width as int, 64) / 64 * 8) as usize,
            align: 8,
        }
    }
}

/// Layout for an integer of arbitrary width; see [`spec_get_integer_layout`].
pub fn get_integer_layout(width: u32) -> (r: Layout)
    requires
        width as int <= u32::MAX - 63,
    ensures
        r == spec_get_integer_layout(width),
        wf_layout(r),
{
    if width == 252 {
        proof {
            assert(spec_next_multiple_of(252, 64) == 256);
        }
        Layout { size: 32, align: 8 }
    } else if width == 0 {
        Layout { size: 0, align: 1 }
    } else if width <= 8 {
        Layout { size: 1, align: 1 }
    } else if width <= 16 {
        Layout { size: 2, align: 2 }
    } else if width <= 32 {
        Layout { size: 4, align: 4 }
    } else if width <= 64 {
        Layout { size: 8, align: 8 }
    } else if width <= 128 {
        Layout { size: 16, align: 8 }
    } else {
        proof {
            lemma_next_multiple_of(width as int, 64);
        }
        let rounded = next_multiple_of_u32(width, 64);
        let limbs = rounded >> 6u32;
        proof {
            assert(rounded >> 6u32 == rounded / 64) by (bit_vector);
            assert(rounded as int / 64 * 8 % 8 == 0) by (nonlinear_arith);
        }
        Layout { size: (limbs as usize) * 8, align: 8 }
    }
}

/// Every integer layout is well formed: its alignment is a supported power
/// of two no greater than 16 and its size is a multiple of its alignment.
pub proof fn lemma_integer_layout_well_formed(width: u32)
    requires
        width as int <= u32::MAX - 63,
    ensures
        wf_layout(spec_get_integer_layout(width)),
        spec_get_integer_layout(width).align <= 16,
{
    let l = spec_get_integer_layout(width);
    // The fixed layouts' divisibility facts, spelled out per case.
    assert(0int % 1int == 0 && 1int % 1int == 0 && 2int % 2int == 0 && 4int % 4int == 0 && 8int
        % 8int == 0 && 16int % 8int == 0 && 32int % 8int == 0);
    if width > 128 {
        lemma_next_multiple_of(width as int, 64);
        let m = spec_next_multiple_of(width as int, 64);
        assert(0 <= m / 64 * 8 <= m && m / 64 * 8 % 8 == 0) by (nonlinear_arith)
            requires
                m >= 0,
        ;
        assert(usize::MAX >= u32::MAX);
        assert((m / 64 * 8) as usize == m / 64 * 8);
    }
}

/// Every supported alignment is a power of two.
pub proof fn lemma_align_is_power_of_two(align: nat)
    requires
        wf_align(align),
    ensures
        exists|k: nat| align == vstd::arithmetic::power2::pow2(k),
{
    vstd::arithmetic::power2::lemma2_to64();
    if align == 1 {
        assert(align == vstd::arithmetic::power2::pow2(0));
    } else if align == 2 {
        assert(align == vstd::arithmetic::power2::pow2(1));
    } else if align == 4 {
        assert(align == vstd::arithmetic::power2::pow2(2));
    } else if align == 8 {
        assert(align == vstd::arithmetic::power2::pow2(3));
    } else {
        assert(align == vstd::arithmetic::power2::pow2(4));
    }
}

} // verus!
