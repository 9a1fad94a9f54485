//! EXIF orientation tags and the transforms that undo them.
use vstd::prelude::*;
use crate::raster::{Op, Picture, Raster, apply_op, transformed};

verus! {

/// The operations that correct orientation `tag`, in the order they apply.
/// Tag 1 and every tag outside 1 to 8 need none.
pub open spec fn orientation_ops(tag: u32) -> Seq<Op> {
    if tag == 2 {
        seq![Op::FlipHorizontal]
    } else if tag == 3 {
        seq![Op::Rotate180]
    } else if tag == 4 {
        seq![Op::FlipVertical]
    } else if tag == 5 {
        seq![Op::FlipHorizontal, Op::Rotate270]
    } else if tag == 6 {
        seq![Op::Rotate90]
    } else if tag == 7 {
        seq![Op::Rotate270, Op::FlipHorizontal]
    } else if tag == 8 {
        seq![Op::Rotate270]
    } else {
        seq![]
    }
}

/// Applies `ops` to `p`, first to last.
pub open spec fn apply_ops(ops: Seq<Op>, p: Picture) -> Picture
    decreases ops.len(),
{
    if ops.len() == 0 {
        p
    } else {
        transformed(ops.last(), apply_ops(ops.drop_last(), p))
    }
}

/// The picture `p` once orientation `tag` is corrected.
pub open spec fn oriented(tag: u32, p: Picture) -> Picture {
    apply_ops(orientation_ops(tag), p)
}

/// The operations that correct orientation `tag`, in the order they apply.
pub fn orientation_steps(tag: u32) -> (r: Vec<Op>)
    ensures
        r@ == orientation_ops(tag),
{
    let r = if tag == 2 {
        vec![Op::FlipHorizontal]
    } else if tag == 3 {
        vec![Op::Rotate180]
    } else if tag == 4 {
        vec![Op::FlipVertical]
    } else if tag == 5 {
        vec![Op::FlipHorizontal, Op::Rotate270]
    } else if tag == 6 {
        vec![Op::Rotate90]
    } else if tag == 7 {
        vec![Op::Rotate270, Op::FlipHorizontal]
    } else if tag == 8 {
        vec![Op::Rotate270]
    } else {
        Vec::new()
    };
    assert(r@ =~= orientation_ops(tag));
    r
}

/// Corrects the orientation that EXIF tag `orientation` records.
pub fn rotate_image(img: Raster, orientation: u32) -> (r: Raster)
    requires
        img.wf(),
    ensures
        r.wf(),
        r@ == oriented(orientation, img@),
{
    let steps = orientation_steps(orientation);
    let ghost start = img@;
    let mut cur = img;
    let mut k: usize = 0;
    while k < steps.len()
        invariant
            cur.wf(),
            k <= steps.len(),
            steps@ == orientation_ops(orientation),
            cur@ == apply_ops(steps@.take(k as int), start),
        decreases steps.len() - k,
    {
        proof {
            assert(steps@.take(k + 1).drop_last() =~= steps@.take(k as int));
        }
        cur = apply_op(&cur, steps[k]);
        k += 1;
    }
    proof {
        assert(steps@.take(k as int) =~= steps@);
    }
    cur
}

/// Each orientation tag corrects by the documented composition, flips and
/// rotations applied in the stated order; tag 1 and unknown tags leave the
/// picture as it is.
pub proof fn lemma_orientation_table(p: Picture, tag: u32)
    ensures
        tag < 2 || tag > 8 ==> oriented(tag, p) == p,
        oriented(2, p) == transformed(Op::FlipHorizontal, p),
        oriented(3, p) == transformed(Op::Rotate180, p),
        oriented(4, p) == transformed(Op::FlipVertical, p),
        oriented(5, p) == transformed(Op::Rotate270, transformed(Op::FlipHorizontal, p)),
        oriented(6, p) == transformed(Op::Rotate90, p),
        oriented(7, p) == transformed(Op::FlipHorizontal, transformed(Op::Rotate270, p)),
        oriented(8, p) == transformed(Op::Rotate270, p),
{
    reveal_with_fuel(apply_ops, 3);
    assert(seq![Op::FlipHorizontal, Op::Rotate270].drop_last() =~= seq![Op::FlipHorizontal]);
    assert(seq![Op::Rotate270, Op::FlipHorizontal].drop_last() =~= seq![Op::Rotate270]);
    assert(seq![Op::FlipHorizontal].drop_last() =~= Seq::<Op>::empty());
    assert(seq![Op::Rotate180].drop_last() =~= Seq::<Op>::empty());
    assert(seq![Op::FlipVertical].drop_last() =~= Seq::<Op>::empty());
    assert(seq![Op::Rotate90].drop_last() =~= Seq::<Op>::empty());
    assert(seq![Op::Rotate270].drop_last() =~= Seq::<Op>::empty());
}

/// Tags 5 to 8 involve one quarter turn and swap width and height; every
/// other tag keeps them.
pub proof fn lemma_oriented_dimensions(p: Picture, tag: u32)
    ensures
        5 <= tag <= 8 ==> oriented(tag, p).width == p.height && oriented(tag, p).height
            == p.width,
        !(5 <= tag <= 8) ==> oriented(tag, p).width == p.width && oriented(tag, p).height
            == p.height,
{
    lemma_orientation_table(p, tag);
}

} // verus!
