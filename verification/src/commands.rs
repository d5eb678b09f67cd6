use vstd::prelude::*;

use crate::fill::Fill;
use crate::gpu::Draw;
use crate::math::BoundingBox;
use crate::stroke::Stroke;

verus! {

/// A shape kind that can serialize itself into the op-code stream. Each kind
/// has a stable integer identifier, unique across the kinds registered with
/// the system, and contributes a fixed number of words; a new kind is added by
/// implementing this trait with an unused identifier, with no change to
/// [`CommandList`] or the renderer.
pub trait ShapeEncoder {
    /// The kind's stable identifier.
    spec fn spec_id() -> u32;

    /// The words this value contributes after the tag word.
    spec fn encoded(&self) -> Seq<u32>;

    /// The number of parameter words of this kind: encodings are fixed-arity,
    /// so a kind never produces a variable-length segment.
    spec fn spec_word_count() -> nat;

    /// Every value of the kind encodes to exactly the kind's word count.
    proof fn lemma_fixed_arity(&self)
        ensures
            self.encoded().len() == Self::spec_word_count(),
    ;

    /// The kind's identifier, placed bit-exactly in the segment's tag word.
    fn id() -> (r: u32)
        ensures
            r == Self::spec_id(),
    ;

    /// Appends the shape's parameter words to the op-code stream.
    fn encode(&self, out: &mut Vec<u32>)
        ensures
            final(out)@ == old(out)@ + self.encoded(),
    ;
}

/// A shape with a tight axis-aligned bound around its geometric support,
/// independent of fill and stroke.
pub trait IsBoundingBox {
    /// The bound as a value.
    spec fn spec_bounding_box(&self) -> BoundingBox;

    /// Computes the bound.
    fn bounding_box(&self) -> (r: BoundingBox)
        ensures
            r == self.spec_bounding_box(),
    ;
}

/// The metadata-table entry for a draw whose bound is `bbox` and whose op-code
/// segment starts at word `offset` of the stream.
pub open spec fn draw_record(bbox: BoundingBox, offset: u32) -> Draw {
    Draw {
        left: bbox.min.x,
        top: bbox.min.y,
        right: bbox.max.x,
        bottom: bbox.max.y,
        op_code_index: offset,
    }
}

/// One frame's command stream: the flat op-code word sequence and the parallel
/// draw table, one record per submitted shape, in submission order. Built
/// fresh each frame, consumed once by the renderer, then discarded.
pub struct CommandList {
    pub draws: Vec<Draw>,
    pub op_codes: Vec<u32>,
}

impl CommandList {
    /// The draw table and the stream are in step: each record's offset lies
    /// inside the stream, offsets rise strictly with submission order, the
    /// first segment starts at word zero, and an empty table means an empty
    /// stream.
    pub open spec fn well_formed(self) -> bool {
        &&& forall|i: int|
            0 <= i < self.draws@.len() ==> (#[trigger] self.draws@[i]).op_code_index
                < self.op_codes@.len()
        &&& forall|i: int, j: int|
            0 <= i < j < self.draws@.len() ==> self.draws@[i].op_code_index
                < self.draws@[j].op_code_index
        &&& (self.draws@.len() > 0 ==> self.draws@[0].op_code_index == 0)
        &&& (self.draws@.len() == 0 ==> self.op_codes@.len() == 0)
    }

    /// The number of stream words record `i`'s segment occupies: its offset up
    /// to the next record's offset, or to the end of the stream for the last
    /// record.
    pub open spec fn segment_word_count(self, i: int) -> int {
        if i + 1 < self.draws@.len() {
            self.draws@[i + 1].op_code_index - self.draws@[i].op_code_index
        } else {
            self.op_codes@.len() - self.draws@[i].op_code_index
        }
    }

    /// The total word count of the segments of records `0 .. i`.
    pub open spec fn prefix_word_count(self, i: int) -> int
        decreases i,
    {
        if i <= 0 {
            0
        } else {
            self.prefix_word_count(i - 1) + self.segment_word_count(i - 1)
        }
    }

    /// In a well-formed stream, record `i`'s offset is exactly the sum of the
    /// encoded word counts of records `0 .. i`: the table and the stream are
    /// in 1:1 correspondence by submission order.
    pub proof fn lemma_offsets_are_prefix_sums(self, i: int)
        requires
            self.well_formed(),
            0 <= i < self.draws@.len(),
        ensures
            self.draws@[i].op_code_index == self.prefix_word_count(i),
        decreases i,
    {
        if i > 0 {
            self.lemma_offsets_are_prefix_sums(i - 1);
        }
    }

    /// Appending a draw keeps the draw table and the stream in step: the new
    /// record's segment is the non-empty word span appended at the old end of
    /// the stream.
    pub proof fn lemma_draw_preserves_well_formed(
        pre: CommandList,
        post: CommandList,
        bbox: BoundingBox,
        segment: Seq<u32>,
    )
        requires
            pre.well_formed(),
            segment.len() > 0,
            pre.op_codes@.len() <= u32::MAX,
            post.draws@ == pre.draws@.push(draw_record(bbox, pre.op_codes@.len() as u32)),
            post.op_codes@ == pre.op_codes@ + segment,
        ensures
            post.well_formed(),
    {
        assert(forall|i: int|
            0 <= i < pre.draws@.len() ==> post.draws@[i] == pre.draws@[i]);
    }

    /// Submits one shape: appends its record (bounding box and the offset at
    /// which its words begin) to the draw table, then appends its tag word,
    /// its parameter words, the fill's words and the stroke's words,
    /// contiguously, to the op-code stream. Encoding order is exactly
    /// submission order.
    pub fn draw<S: ShapeEncoder + IsBoundingBox>(
        &mut self,
        shape: S,
        fill: Fill,
        stroke: Stroke,
    )
        requires
            old(self).op_codes@.len() <= u32::MAX,
        ensures
            final(self).draws@ == old(self).draws@.push(
                draw_record(shape.spec_bounding_box(), old(self).op_codes@.len() as u32),
            ),
            final(self).op_codes@ == old(self).op_codes@ + seq![S::spec_id()] + shape.encoded()
                + fill.encoded() + stroke.encoded(),
    {
        let bounding_box = shape.bounding_box();

        let record = Draw {
            left: bounding_box.min.x,
            top: bounding_box.min.y,
            right: bounding_box.max.x,
            bottom: bounding_box.max.y,
            op_code_index: self.op_codes.len() as u32,
        };
        self.draws.push(record);

        self.op_codes.push(S::id());
        shape.encode(&mut self.op_codes);
        fill.encode(&mut self.op_codes);
        stroke.encode(&mut self.op_codes);

        proof {
            assert(self.op_codes@ =~= old(self).op_codes@ + seq![S::spec_id()] + shape.encoded()
                + fill.encoded() + stroke.encoded());
        }
    }
}

impl Default for CommandList {
    /// An empty command stream: no records, no words.
    fn default() -> (r: Self)
        ensures
            r.draws@ == Seq::<Draw>::empty(),
            r.op_codes@ == Seq::<u32>::empty(),
    {
        CommandList { draws: Vec::new(), op_codes: Vec::new() }
    }
}

} // verus!
