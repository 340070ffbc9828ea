use vstd::prelude::*;

use crate::error::Error;

verus! {

/// Bit `i` of a compatibility mask is set; a mask has 32 bits.
pub open spec fn mask_has(mask: u32, i: int) -> bool {
    0 <= i < 32 && (mask >> (i as u32)) & 1 == 1
}

/// The items of `s` whose position in `s` is set in `mask`, in order.
pub open spec fn select_masked(mask: u32, s: Seq<u32>) -> Seq<u32>
    decreases s.len(),
{
    if s.len() == 0 {
        seq![]
    } else {
        let prev = select_masked(mask, s.drop_last());
        if mask_has(mask, s.len() - 1) {
            prev.push(s.last())
        } else {
            prev
        }
    }
}

/// Some position of `ids` that is set in `mask` holds `id`.
pub open spec fn mask_selects(mask: u32, ids: Seq<u32>, id: u32) -> bool {
    exists|i: int| 0 <= i < ids.len() && mask_has(mask, i) && #[trigger] ids[i] == id
}

/// Whether bit `i` of `mask` is set.
pub fn mask_bit(mask: u32, i: usize) -> (r: bool)
    ensures
        r == mask_has(mask, i as int),
{
    i < 32 && (mask >> (i as u32)) & 1 == 1
}

/// The ids whose enumeration index is set in `mask`, in enumeration order.
pub fn select_by_mask(mask: u32, ids: &Vec<u32>) -> (r: Vec<u32>)
    ensures
        r@ == select_masked(mask, ids@),
{
    let mut out: Vec<u32> = Vec::new();
    let mut i: usize = 0;
    while i < ids.len()
        invariant
            i <= ids@.len(),
            out@ == select_masked(mask, ids@.take(i as int)),
        decreases ids.len() - i,
    {
        assert(ids@.take(i as int + 1).drop_last() =~= ids@.take(i as int));
        if mask_bit(mask, i) {
            out.push(ids[i]);
        }
        i = i + 1;
    }
    assert(ids@.take(ids@.len() as int) =~= ids@);
    out
}

/// Whether `mask`, read over the enumeration `ids`, selects the id `id`.
pub fn mask_contains(mask: u32, ids: &Vec<u32>, id: u32) -> (r: bool)
    ensures
        r == mask_selects(mask, ids@, id),
{
    let mut i: usize = 0;
    while i < ids.len()
        invariant
            i <= ids@.len(),
            forall|k: int| 0 <= k < i ==> !(mask_has(mask, k) && ids@[k] == id),
        decreases ids.len() - i,
    {
        if mask_bit(mask, i) && ids[i] == id {
            return true;
        }
        i = i + 1;
    }
    false
}

/// The ids among `ids` whose mask, at the same position of `masks`, selects
/// the CRTC `crtc_id` over the CRTC enumeration `crtcs`, in order.
pub open spec fn selecting(ids: Seq<u32>, masks: Seq<u32>, crtcs: Seq<u32>, crtc_id: u32) -> Seq<u32>
    decreases ids.len(),
{
    if ids.len() == 0 {
        seq![]
    } else {
        let prev = selecting(ids.drop_last(), masks, crtcs, crtc_id);
        if mask_selects(masks[ids.len() - 1], crtcs, crtc_id) {
            prev.push(ids.last())
        } else {
            prev
        }
    }
}

/// The ids of the planes that can be shown on CRTC `crtc_id`: those whose
/// mask (same position in `masks`) selects it over the enumeration `crtcs`.
pub fn filter_by_crtc(ids: &Vec<u32>, masks: &Vec<u32>, crtcs: &Vec<u32>, crtc_id: u32) -> (r: Vec<u32>)
    requires
        masks@.len() == ids@.len(),
    ensures
        r@ == selecting(ids@, masks@, crtcs@, crtc_id),
{
    let mut out: Vec<u32> = Vec::new();
    let mut i: usize = 0;
    while i < ids.len()
        invariant
            i <= ids@.len() == masks@.len(),
            out@ == selecting(ids@.take(i as int), masks@, crtcs@, crtc_id),
        decreases ids.len() - i,
    {
        assert(ids@.take(i as int + 1).drop_last() =~= ids@.take(i as int));
        if mask_contains(masks[i], crtcs, crtc_id) {
            out.push(ids[i]);
        }
        i = i + 1;
    }
    assert(ids@.take(ids@.len() as int) =~= ids@);
    out
}

/// The outcome of a first-fit walk: the first encoder, the first CRTC of that
/// encoder and the first plane of that CRTC; `NoneError` at the first empty
/// list, without trying a later candidate.
pub open spec fn first_fit(encoders: Seq<u32>, crtcs: Seq<u32>, planes: Seq<u32>) -> Result<(u32, u32, u32), Error> {
    if encoders.len() == 0 {
        Err(Error::NoneError)
    } else if crtcs.len() == 0 {
        Err(Error::NoneError)
    } else if planes.len() == 0 {
        Err(Error::NoneError)
    } else {
        Ok((encoders[0], crtcs[0], planes[0]))
    }
}

/// The first-fit walk never backtracks: when the first encoder drives no CRTC
/// the walk fails with `NoneError`, whatever the later encoders could drive.
pub proof fn lemma_first_fit_no_backtrack(encoders: Seq<u32>, planes: Seq<u32>)
    requires
        encoders.len() > 0,
    ensures
        first_fit(encoders, seq![], planes) == Err::<(u32, u32, u32), Error>(Error::NoneError),
{
}

/// The first item of a candidate list; `NoneError` when there is none.
pub fn first_of(ids: &Vec<u32>) -> (r: Result<u32, Error>)
    ensures
        ids@.len() > 0 ==> r == Ok::<u32, Error>(ids@[0]),
        ids@.len() == 0 ==> r == Err::<u32, Error>(Error::NoneError),
{
    if ids.len() == 0 {
        Err(Error::NoneError)
    } else {
        Ok(ids[0])
    }
}

} // verus!
