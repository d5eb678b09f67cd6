use vstd::prelude::*;

verus! {

/// One entry of the per-draw metadata table, as the device program sees it:
/// the four bounding-box sides followed by the offset of the draw's op-code
/// segment within the stream — 20 bytes at natural alignment. The sides hold
/// single-precision bit patterns; the offset is an exact integer.
#[derive(Clone, Copy, PartialEq, Eq, Structural, Debug)]
pub struct Draw {
    pub left: u32,
    pub top: u32,
    pub right: u32,
    pub bottom: u32,
    pub op_code_index: u32,
}

/// The per-surface globals record: the target's width and height, as
/// single-precision bit patterns — 8 bytes.
#[derive(Clone, Copy, PartialEq, Eq, Structural, Debug)]
pub struct Globals {
    pub view_width: u32,
    pub view_height: u32,
}

/// A word as the device reads it: four bytes, least significant first.
pub open spec fn word_bytes(x: u32) -> Seq<u8> {
    seq![
        (x & 0xff) as u8,
        ((x >> 8) & 0xff) as u8,
        ((x >> 16) & 0xff) as u8,
        ((x >> 24) & 0xff) as u8,
    ]
}

/// A draw record as the device reads it: the four sides then the offset,
/// twenty bytes at natural alignment.
pub open spec fn draw_bytes(d: Draw) -> Seq<u8> {
    word_bytes(d.left) + word_bytes(d.top) + word_bytes(d.right) + word_bytes(d.bottom)
        + word_bytes(d.op_code_index)
}

/// The draw table as the device reads it: each record's twenty bytes, in
/// table order.
pub open spec fn spec_draw_table_bytes(s: Seq<Draw>) -> Seq<u8>
    decreases s.len(),
{
    if s.len() == 0 {
        Seq::empty()
    } else {
        spec_draw_table_bytes(s.drop_last()) + draw_bytes(s.last())
    }
}

/// The op-code stream as the device reads it: each word's four bytes, in
/// stream order.
pub open spec fn spec_op_code_bytes(s: Seq<u32>) -> Seq<u8>
    decreases s.len(),
{
    if s.len() == 0 {
        Seq::empty()
    } else {
        spec_op_code_bytes(s.drop_last()) + word_bytes(s.last())
    }
}

/// Appends a word's four bytes, least significant first.
fn push_word(out: &mut Vec<u8>, x: u32)
    ensures
        final(out)@ == old(out)@ + word_bytes(x),
{
    proof {
        assert((x & 0xff) < 256 && ((x >> 8) & 0xff) < 256 && ((x >> 16) & 0xff) < 256 && ((x
            >> 24) & 0xff) < 256) by (bit_vector);
    }
    out.push((x & 0xff) as u8);
    out.push(((x >> 8) & 0xff) as u8);
    out.push(((x >> 16) & 0xff) as u8);
    out.push(((x >> 24) & 0xff) as u8);
    proof {
        assert(out@ =~= old(out)@ + word_bytes(x));
    }
}

/// Serializes the draw table into the exact byte layout of the device's
/// metadata binding: twenty bytes per record, in table order.
pub fn draw_table_bytes(draws: &Vec<Draw>) -> (bytes: Vec<u8>)
    ensures
        bytes@ == spec_draw_table_bytes(draws@),
        bytes@.len() == 20 * draws@.len(),
{
    let mut bytes: Vec<u8> = Vec::new();
    let n = draws.len();
    for i in 0..n
        invariant
            n == draws@.len(),
            bytes@ == spec_draw_table_bytes(draws@.take(i as int)),
            bytes@.len() == 20 * i,
    {
        let d = draws[i];
        push_word(&mut bytes, d.left);
        push_word(&mut bytes, d.top);
        push_word(&mut bytes, d.right);
        push_word(&mut bytes, d.bottom);
        push_word(&mut bytes, d.op_code_index);
        proof {
            assert(draws@.take(i + 1).drop_last() =~= draws@.take(i as int));
            assert(draws@.take(i + 1).last() == draws@[i as int]);
            assert(bytes@ =~= spec_draw_table_bytes(draws@.take(i + 1)));
        }
    }
    proof {
        assert(draws@.take(n as int) =~= draws@);
    }
    bytes
}

/// Serializes the op-code stream into the exact byte layout of the device's
/// stream binding: four bytes per word, in stream order.
pub fn op_code_bytes(words: &Vec<u32>) -> (bytes: Vec<u8>)
    ensures
        bytes@ == spec_op_code_bytes(words@),
        bytes@.len() == 4 * words@.len(),
{
    let mut bytes: Vec<u8> = Vec::new();
    let n = words.len();
    for i in 0..n
        invariant
            n == words@.len(),
            bytes@ == spec_op_code_bytes(words@.take(i as int)),
            bytes@.len() == 4 * i,
    {
        push_word(&mut bytes, words[i]);
        proof {
            assert(words@.take(i + 1).drop_last() =~= words@.take(i as int));
            assert(words@.take(i + 1).last() == words@[i as int]);
            assert(bytes@ =~= spec_op_code_bytes(words@.take(i + 1)));
        }
    }
    proof {
        assert(words@.take(n as int) =~= words@);
    }
    bytes
}

/// Serializes the globals record: the width's then the height's four bytes.
pub fn globals_bytes(g: &Globals) -> (bytes: Vec<u8>)
    ensures
        bytes@ == word_bytes(g.view_width) + word_bytes(g.view_height),
        bytes@.len() == 8,
{
    let mut bytes: Vec<u8> = Vec::new();
    push_word(&mut bytes, g.view_width);
    push_word(&mut bytes, g.view_height);
    proof {
        assert(bytes@ =~= word_bytes(g.view_width) + word_bytes(g.view_height));
    }
    bytes
}

} // verus!
