//! Quarter-turn rotation of a tile orientation.
//!
//! An orientation is three independent flags: mirrored horizontally (`x`),
//! mirrored vertically (`y`) and transposed along the diagonal (`d`). The
//! eight orientations fall into two rings of four under rotation, one holding
//! the orientations with an even number of flags set and one those with an
//! odd number. Packed as the bits `x d y 0`, a quarter turn is a cyclic shift
//! within the odd ring; the even ring is the bitwise complement of the odd
//! one, so it is complemented before the shift and again after it.

use bevy_ecs_tilemap::tiles::TileFlip;
use vstd::prelude::*;

verus! {

/// The orientation after a quarter turn in the positive direction.
pub open spec fn rotated_plus_90(flip: TileFlip) -> TileFlip {
    TileFlip { x: flip.y, y: !flip.x, d: !flip.d }
}

/// The orientation after a quarter turn in the negative direction.
pub open spec fn rotated_minus_90(flip: TileFlip) -> TileFlip {
    TileFlip { x: !flip.y, y: flip.x, d: !flip.d }
}

/// The packed form of an orientation: `x` is worth 8, `d` 4 and `y` 2.
pub open spec fn packed(flip: TileFlip) -> int {
    (if flip.x { 8int } else { 0 }) + (if flip.d { 4int } else { 0 }) + (if flip.y { 2int } else { 0 })
}

/// Whether `code` is the packed form of some orientation.
pub open spec fn is_packed(code: u8) -> bool {
    code <= 14 && code % 2 == 0
}

/// The orientation that `code` packs.
pub open spec fn unpacked(code: u8) -> TileFlip {
    TileFlip { x: (code / 8) % 2 == 1, d: (code / 4) % 2 == 1, y: (code / 2) % 2 == 1 }
}

/// How many bits of `code` are set.
pub open spec fn ones(code: u8) -> int {
    code % 2 + (code / 2) % 2 + (code / 4) % 2 + (code / 8) % 2 + (code / 16) % 2 + (code / 32) % 2
        + (code / 64) % 2 + (code / 128) % 2
}

/// Packs the three flags into the bits `x d y 0`.
pub fn flip_to_internal(flip: TileFlip) -> (code: u8)
    ensures
        code == packed(flip),
        is_packed(code),
        unpacked(code) == flip,
{
    let x: u8 = if flip.x { 8 } else { 0 };
    let d: u8 = if flip.d { 4 } else { 0 };
    let y: u8 = if flip.y { 2 } else { 0 };
    assert(x | d | y == x + d + y) by (bit_vector)
        requires
            x == 8 || x == 0,
            d == 4 || d == 0,
            y == 2 || y == 0,
    ;
    x | d | y
}

/// Reads the three flags back out of the bits `x d y 0`.
pub fn internal_to_flip(code: u8, flip: &mut TileFlip)
    ensures
        *final(flip) == unpacked(code),
        is_packed(code) ==> packed(*final(flip)) == code,
{
    assert((code & 8 == 8) == ((code / 8) % 2 == 1)) by (bit_vector);
    assert((code & 4 == 4) == ((code / 4) % 2 == 1)) by (bit_vector);
    assert((code & 2 == 2) == ((code / 2) % 2 == 1)) by (bit_vector);
    flip.x = (code & 8) == 8;
    flip.d = (code & 4) == 4;
    flip.y = (code & 2) == 2;
}

/// The mask that carries a code into the odd ring and back: every flag bit
/// for a code with an even number of bits set, nothing for the others.
pub fn flip_mask(code: u8) -> (mask: u8)
    ensures
        mask == if ones(code) % 2 == 0 { 14u8 } else { 0u8 },
{
    let halves: u8 = code ^ (code >> 4);
    let quarters: u8 = halves ^ (halves >> 2);
    let parity: u8 = (quarters ^ (quarters >> 1)) & 1;
    assert(parity == (code % 2 + (code / 2) % 2 + (code / 4) % 2 + (code / 8) % 2 + (code / 16) % 2
        + (code / 32) % 2 + (code / 64) % 2 + (code / 128) % 2) % 2) by (bit_vector)
        requires
            halves == code ^ (code >> 4),
            quarters == halves ^ (halves >> 2),
            parity == (quarters ^ (quarters >> 1)) & 1,
    ;
    if parity == 0 {
        14
    } else {
        0
    }
}

/// Whether `code` lies in the odd ring: 14, 8, 4 or 2.
pub open spec fn in_odd_ring(code: u8) -> bool {
    code == 14 || code == 8 || code == 4 || code == 2
}

/// A shift to the left that goes round in the odd ring: 2, 4, 8, 14 and 2
/// again.
pub open spec fn ring_left(code: u8) -> u8 {
    if code == 14 {
        2
    } else if ((2 * code) / 16) % 2 == 1 {
        14
    } else {
        ((2 * code) % 256) as u8
    }
}

/// A shift to the right that goes round in the odd ring: 14, 8, 4, 2 and
/// 14 again.
pub open spec fn ring_right(code: u8) -> u8 {
    if code == 14 {
        8
    } else if (code / 2) % 2 == 1 {
        14
    } else {
        code / 2
    }
}

/// Cyclic shift to the left within the odd ring.
pub fn seq_lshift(code: u8) -> (shifted: u8)
    ensures
        shifted == ring_left(code),
        in_odd_ring(code) ==> in_odd_ring(shifted),
{
    let shifted: u8 = code << 1;
    assert(shifted == (2 * code) % 256 && (shifted & 16 == 16) == (((2 * code) / 16) % 2 == 1))
        by (bit_vector)
        requires
            shifted == code << 1,
    ;
    if code == 14 {
        2
    } else if shifted & 16 == 16 {
        14
    } else {
        shifted
    }
}

/// Cyclic shift to the right within the odd ring.
pub fn seq_rshift(code: u8) -> (shifted: u8)
    ensures
        shifted == ring_right(code),
        in_odd_ring(code) ==> in_odd_ring(shifted),
{
    let shifted: u8 = code >> 1;
    assert(shifted == code / 2 && (shifted & 1 == 1) == ((code / 2) % 2 == 1)) by (bit_vector)
        requires
            shifted == code >> 1,
    ;
    if code == 14 {
        8
    } else if shifted & 1 == 1 {
        14
    } else {
        shifted
    }
}

/// Masking a packed code with all flag bits complements its flags, and
/// masking it with nothing leaves it as it is.
proof fn lemma_masking(code: u8)
    requires
        is_packed(code),
    ensures
        code ^ 0 == code,
        code ^ 14 == 14 - code,
{
    assert(code ^ 0 == code && code ^ 14 == 14 - code) by (bit_vector)
        requires
            code <= 14 && code % 2 == 0,
    ;
}

/// Turns the orientation by a quarter turn in the positive direction.
pub fn rotate_plus_90(flip: &mut TileFlip)
    ensures
        *final(flip) == rotated_plus_90(*old(flip)),
{
    let code = flip_to_internal(*flip);
    let mask = flip_mask(code);
    proof {
        lemma_masking(code);
    }
    let turned = seq_rshift(code ^ mask);
    proof {
        lemma_masking(turned);
    }
    internal_to_flip(turned ^ mask, flip);
}

/// Turns the orientation by a quarter turn in the negative direction.
pub fn rotate_minus_90(flip: &mut TileFlip)
    ensures
        *final(flip) == rotated_minus_90(*old(flip)),
{
    let code = flip_to_internal(*flip);
    let mask = flip_mask(code);
    proof {
        lemma_masking(code);
    }
    let turned = seq_lshift(code ^ mask);
    proof {
        lemma_masking(turned);
    }
    internal_to_flip(turned ^ mask, flip);
}

/// A positive quarter turn followed by a negative one restores every
/// orientation, and so does a negative one followed by a positive one.
pub proof fn lemma_quarter_turns_cancel(flip: TileFlip)
    ensures
        rotated_minus_90(rotated_plus_90(flip)) == flip,
        rotated_plus_90(rotated_minus_90(flip)) == flip,
{
}

/// Four quarter turns in the same direction restore every orientation.
pub proof fn lemma_four_quarter_turns(flip: TileFlip)
    ensures
        rotated_plus_90(rotated_plus_90(rotated_plus_90(rotated_plus_90(flip)))) == flip,
        rotated_minus_90(rotated_minus_90(rotated_minus_90(rotated_minus_90(flip)))) == flip,
{
}

/// Two positive quarter turns followed by two negative ones restore every
/// orientation.
pub proof fn lemma_two_forth_two_back(flip: TileFlip)
    ensures
        rotated_minus_90(rotated_minus_90(rotated_plus_90(rotated_plus_90(flip)))) == flip,
{
}

/// A quarter turn is a bijection on orientations: two orientations that turn
/// into the same one are the same, and every orientation is the turn of one.
pub proof fn lemma_quarter_turn_is_bijection(a: TileFlip, b: TileFlip)
    ensures
        rotated_plus_90(a) == rotated_plus_90(b) ==> a == b,
        rotated_minus_90(a) == rotated_minus_90(b) ==> a == b,
        rotated_plus_90(rotated_minus_90(a)) == a,
{
}

} // verus!
