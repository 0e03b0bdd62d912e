//! Progressive accumulation: blending each raw traced frame into a
//! running average of every frame since the last camera move.
//!
//! The accumulated image is held as exact per-channel sums together with
//! the frame count, so the displayed image is the unweighted per-pixel
//! mean of the accumulated raw frames — the same value the running-average
//! blend with weight 1/(frameIndex+1) converges to, kept exact here. A
//! ghost history of the accumulated frames ties the sums to their
//! definition.

use vstd::prelude::*;
use vstd::arithmetic::div_mod::{lemma_div_is_ordered, lemma_div_by_multiple,
    lemma_div_multiples_vanish};
use vstd::seq_lib::group_to_multiset_ensures;
use crate::sync::CompletionToken;

verus! {

/// One display pixel: four 8-bit channels.
#[derive(Clone, Copy, Debug, PartialEq, Eq, Structural)]
pub struct Pixel {
    pub r: u8,
    pub g: u8,
    pub b: u8,
    pub a: u8,
}

/// One raw traced frame, row-major.
#[derive(Clone, Debug)]
pub struct RawImage {
    pub width: u32,
    pub height: u32,
    pub pixels: Vec<Pixel>,
}

impl RawImage {
    pub open spec fn valid(&self) -> bool {
        self.pixels@.len() == self.width as int * self.height as int
    }
}

/// Exact running per-channel sums of one pixel position.
#[derive(Clone, Copy, Debug, PartialEq, Eq, Structural)]
pub struct PixelSum {
    pub r: u64,
    pub g: u64,
    pub b: u64,
    pub a: u64,
}

/// Channel `ch` of a pixel (red, green, blue, alpha in that order).
pub open spec fn channel(px: Pixel, ch: int) -> int {
    if ch == 0 {
        px.r as int
    } else if ch == 1 {
        px.g as int
    } else if ch == 2 {
        px.b as int
    } else {
        px.a as int
    }
}

/// Channel `ch` of a pixel's running sums.
pub open spec fn sum_field(s: PixelSum, ch: int) -> int {
    if ch == 0 {
        s.r as int
    } else if ch == 1 {
        s.g as int
    } else if ch == 2 {
        s.b as int
    } else {
        s.a as int
    }
}

/// Sum of channel `ch` of pixel `p` over a sequence of frames.
pub open spec fn channel_sum(frames: Seq<Seq<Pixel>>, p: int, ch: int) -> int
    decreases frames.len(),
{
    if frames.len() == 0 {
        0
    } else {
        channel_sum(frames.drop_last(), p, ch) + channel(frames.last()[p], ch)
    }
}

pub proof fn lemma_channel_sum_bound(frames: Seq<Seq<Pixel>>, p: int, ch: int)
    ensures
        0 <= channel_sum(frames, p, ch) <= frames.len() * 255,
    decreases frames.len(),
{
    if frames.len() > 0 {
        lemma_channel_sum_bound(frames.drop_last(), p, ch);
    }
}

/// Appending one frame adds its pixel's channel to the sum.
pub proof fn lemma_channel_sum_push(frames: Seq<Seq<Pixel>>, fr: Seq<Pixel>, p: int, ch: int)
    ensures
        channel_sum(frames.push(fr), p, ch) == channel_sum(frames, p, ch) + channel(fr[p], ch),
{
    assert(frames.push(fr).drop_last() =~= frames);
    assert(frames.push(fr).last() == fr);
}

/// Accumulates raw traced frames into one persistent image and issues the
/// blend-kernel dispatch for each; the GPU-side blend it mirrors keeps the
/// running average with weight 1/(frameIndex+1).
pub struct ImageCombiner {
    pub width: u32,
    pub height: u32,
    pub image_count: u32,
    pub sums: Vec<PixelSum>,
    pub history: Ghost<Seq<Seq<Pixel>>>,
}

/// The blend-kernel dispatch record of one accumulated frame: its push
/// constants and its one-dimensional workgroup grid.
#[derive(Clone, Copy, Debug, PartialEq, Eq, Structural)]
pub struct BlendDispatch {
    pub frame: u32,
    pub image_width: u32,
    pub image_height: u32,
    pub group_x: u32,
    pub group_y: u32,
    pub group_z: u32,
}

impl ImageCombiner {
    /// The accumulated state is well formed: one sum record per pixel,
    /// the counter counts the accumulated frames, every accumulated frame
    /// covers the image, and the sums are exactly the per-channel sums of
    /// the accumulated frames.
    pub open spec fn wf(&self) -> bool {
        &&& self.sums@.len() == self.width as int * self.height as int
        &&& 1 <= self.width as int * self.height as int <= u32::MAX
        &&& self.image_count == self.history@.len()
        &&& forall|f: int|
            0 <= f < self.history@.len() ==> (#[trigger] self.history@[f]).len()
                == self.sums@.len()
        &&& forall|p: int|
            0 <= p < self.sums@.len() ==> {
                &&& (#[trigger] self.sums@[p]).r == channel_sum(self.history@, p, 0)
                &&& self.sums@[p].g == channel_sum(self.history@, p, 1)
                &&& self.sums@[p].b == channel_sum(self.history@, p, 2)
                &&& self.sums@[p].a == channel_sum(self.history@, p, 3)
            }
    }

    /// The image the accumulation displays: black before the first frame,
    /// afterwards the per-pixel unweighted mean of the accumulated frames.
    pub open spec fn spec_display(&self) -> Seq<Pixel> {
        if self.image_count == 0 {
            Seq::new(self.sums@.len(), |p: int| Pixel { r: 0, g: 0, b: 0, a: 0 })
        } else {
            Seq::new(
                self.sums@.len(),
                |p: int| Pixel {
                    r: (self.sums@[p].r as int / self.image_count as int) as u8,
                    g: (self.sums@[p].g as int / self.image_count as int) as u8,
                    b: (self.sums@[p].b as int / self.image_count as int) as u8,
                    a: (self.sums@[p].a as int / self.image_count as int) as u8,
                },
            )
        }
    }

    /// A fresh accumulation target: black, with no accumulated frames.
    pub fn new(image_size: [u32; 2]) -> (r: ImageCombiner)
        requires
            1 <= image_size[0] as int * image_size[1] as int <= u32::MAX,
        ensures
            r.wf(),
            r.width == image_size[0],
            r.height == image_size[1],
            r.image_count == 0,
            r.history@ == Seq::<Seq<Pixel>>::empty(),
    {
        let width = image_size[0];
        let height = image_size[1];
        let total: usize = (width as usize) * (height as usize);
        let mut sums: Vec<PixelSum> = Vec::new();
        let mut p: usize = 0;
        while p < total
            invariant
                p <= total,
                sums@.len() == p,
                forall|pp: int|
                    0 <= pp < p ==> #[trigger] sums@[pp] == (PixelSum { r: 0, g: 0, b: 0, a: 0 }),
            decreases total - p,
        {
            sums.push(PixelSum { r: 0, g: 0, b: 0, a: 0 });
            p = p + 1;
        }
        let r = ImageCombiner {
            width,
            height,
            image_count: 0,
            sums,
            history: Ghost(Seq::empty()),
        };
        r
    }

    /// Forgets all accumulated frames, so the next frame fully overwrites
    /// the image; called when the camera moves.
    pub fn reset(&mut self)
        requires
            old(self).wf(),
        ensures
            final(self).wf(),
            final(self).width == old(self).width,
            final(self).height == old(self).height,
            final(self).image_count == 0,
            final(self).history@ == Seq::<Seq<Pixel>>::empty(),
    {
        let total: usize = self.sums.len();
        let mut p: usize = 0;
        while p < total
            invariant
                p <= total,
                self.sums@.len() == total,
                self.width == old(self).width,
                self.height == old(self).height,
                forall|pp: int|
                    0 <= pp < p ==> #[trigger] self.sums@[pp] == (PixelSum {
                        r: 0,
                        g: 0,
                        b: 0,
                        a: 0,
                    }),
            decreases total - p,
        {
            self.sums.set(p, PixelSum { r: 0, g: 0, b: 0, a: 0 });
            p = p + 1;
        }
        self.image_count = 0;
        self.history = Ghost(Seq::empty());
    }

    /// The blend-kernel dispatch record for one accumulated frame.
    pub fn dispatch(&self, frame_num: u32, group_number: u32) -> (d: BlendDispatch)
        ensures
            d == (BlendDispatch {
                frame: frame_num,
                image_width: self.width,
                image_height: self.height,
                group_x: group_number,
                group_y: 1,
                group_z: 1,
            }),
    {
        BlendDispatch {
            frame: frame_num,
            image_width: self.width,
            image_height: self.height,
            group_x: group_number,
            group_y: 1,
            group_z: 1,
        }
    }

    /// Blends one raw frame into the accumulated image (exactly: adds it
    /// to the running sums) and returns the completion token the blend
    /// signals together with its dispatch record, whose workgroup count
    /// covers every pixel in groups of 256.
    pub fn next_frame(&mut self, next_image: &RawImage, before: CompletionToken) -> (r: (
        CompletionToken,
        BlendDispatch,
    ))
        requires
            old(self).wf(),
            next_image.valid(),
            next_image.width == old(self).width,
            next_image.height == old(self).height,
            old(self).image_count < u32::MAX,
            before.id < u64::MAX,
        ensures
            final(self).wf(),
            final(self).width == old(self).width,
            final(self).height == old(self).height,
            final(self).image_count == old(self).image_count + 1,
            final(self).history@ == old(self).history@.push(next_image.pixels@),
            r.0.id == before.id + 1,
            r.1 == (BlendDispatch {
                frame: old(self).image_count,
                image_width: old(self).width,
                image_height: old(self).height,
                group_x: (((old(self).width as int * old(self).height as int - 1) / 256)
                    + 1) as u32,
                group_y: 1,
                group_z: 1,
            }),
    {
        let ghost prior = self.history@;
        let total: usize = self.sums.len();
        let mut p: usize = 0;
        while p < total
            invariant
                old(self).wf(),
                p <= total,
                total == self.sums@.len(),
                self.sums@.len() == old(self).sums@.len(),
                self.width == old(self).width,
                self.height == old(self).height,
                self.image_count == old(self).image_count,
                self.history@ == prior,
                prior == old(self).history@,
                next_image.pixels@.len() == total,
                forall|pp: int|
                    p <= pp < total ==> #[trigger] self.sums@[pp] == old(self).sums@[pp],
                forall|pp: int|
                    0 <= pp < p ==> {
                        &&& (#[trigger] self.sums@[pp]).r == channel_sum(prior, pp, 0) + channel(
                            next_image.pixels@[pp],
                            0,
                        )
                        &&& self.sums@[pp].g == channel_sum(prior, pp, 1) + channel(
                            next_image.pixels@[pp],
                            1,
                        )
                        &&& self.sums@[pp].b == channel_sum(prior, pp, 2) + channel(
                            next_image.pixels@[pp],
                            2,
                        )
                        &&& self.sums@[pp].a == channel_sum(prior, pp, 3) + channel(
                            next_image.pixels@[pp],
                            3,
                        )
                    },
            decreases total - p,
        {
            let s = self.sums[p];
            let px = next_image.pixels[p];
            proof {
                lemma_channel_sum_bound(prior, p as int, 0);
                lemma_channel_sum_bound(prior, p as int, 1);
                lemma_channel_sum_bound(prior, p as int, 2);
                lemma_channel_sum_bound(prior, p as int, 3);
            }
            self.sums.set(
                p,
                PixelSum {
                    r: s.r + px.r as u64,
                    g: s.g + px.g as u64,
                    b: s.b + px.b as u64,
                    a: s.a + px.a as u64,
                },
            );
            p = p + 1;
        }
        let frame_num = self.image_count;
        let pixels_total: u32 = self.width * self.height;
        let group_number: u32 = (pixels_total - 1) / 256 + 1;
        let d = self.dispatch(frame_num, group_number);
        self.image_count = self.image_count + 1;
        self.history = Ghost(prior.push(next_image.pixels@));
        proof {
            assert forall|pp: int| 0 <= pp < total implies {
                &&& (#[trigger] self.sums@[pp]).r == channel_sum(self.history@, pp, 0)
                &&& self.sums@[pp].g == channel_sum(self.history@, pp, 1)
                &&& self.sums@[pp].b == channel_sum(self.history@, pp, 2)
                &&& self.sums@[pp].a == channel_sum(self.history@, pp, 3)
            } by {
                lemma_channel_sum_push(prior, next_image.pixels@, pp, 0);
                lemma_channel_sum_push(prior, next_image.pixels@, pp, 1);
                lemma_channel_sum_push(prior, next_image.pixels@, pp, 2);
                lemma_channel_sum_push(prior, next_image.pixels@, pp, 3);
            }
        }
        (before.next(), d)
    }

    /// The displayed accumulated image: black before the first frame,
    /// afterwards the per-pixel mean of the accumulated frames.
    pub fn image(&self) -> (img: RawImage)
        requires
            self.wf(),
        ensures
            img.width == self.width,
            img.height == self.height,
            img.valid(),
            img.pixels@ == self.spec_display(),
    {
        let total: usize = self.sums.len();
        let mut pixels: Vec<Pixel> = Vec::new();
        let count = self.image_count;
        let mut p: usize = 0;
        while p < total
            invariant
                self.wf(),
                count == self.image_count,
                p <= total,
                total == self.sums@.len(),
                pixels@.len() == p,
                forall|pp: int| 0 <= pp < p ==> #[trigger] pixels@[pp] == self.spec_display()[pp],
            decreases total - p,
        {
            if count == 0 {
                pixels.push(Pixel { r: 0, g: 0, b: 0, a: 0 });
            } else {
                let s = self.sums[p];
                proof {
                    lemma_channel_sum_bound(self.history@, p as int, 0);
                    lemma_channel_sum_bound(self.history@, p as int, 1);
                    lemma_channel_sum_bound(self.history@, p as int, 2);
                    lemma_channel_sum_bound(self.history@, p as int, 3);
                    lemma_div_by_multiple(255, count as int);
                    lemma_div_is_ordered(s.r as int, count as int * 255, count as int);
                    lemma_div_is_ordered(s.g as int, count as int * 255, count as int);
                    lemma_div_is_ordered(s.b as int, count as int * 255, count as int);
                    lemma_div_is_ordered(s.a as int, count as int * 255, count as int);
                    assert((255 * count as int) / count as int == 255);
                }
                pixels.push(
                    Pixel {
                        r: (s.r / count as u64) as u8,
                        g: (s.g / count as u64) as u8,
                        b: (s.b / count as u64) as u8,
                        a: (s.a / count as u64) as u8,
                    },
                );
            }
            p = p + 1;
        }
        proof {
            assert(pixels@ =~= self.spec_display());
        }
        RawImage { width: self.width, height: self.height, pixels }
    }
}

/// Sum of a constant sequence of frames: each channel sum is the frame
/// count times that pixel's channel.
pub proof fn lemma_channel_sum_constant(frames: Seq<Seq<Pixel>>, raw: Seq<Pixel>, p: int, ch: int)
    requires
        forall|f: int| 0 <= f < frames.len() ==> frames[f] == raw,
    ensures
        channel_sum(frames, p, ch) == frames.len() * channel(raw[p], ch),
    decreases frames.len(),
{
    if frames.len() > 0 {
        lemma_channel_sum_constant(frames.drop_last(), raw, p, ch);
        assert(frames.last() == raw);
        assert((frames.len() - 1) * channel(raw[p], ch) + channel(raw[p], ch) == frames.len()
            * channel(raw[p], ch)) by (nonlinear_arith);
    }
}

/// Removing one frame takes its pixel's channel out of the sum.
pub proof fn lemma_channel_sum_remove(s: Seq<Seq<Pixel>>, j: int, p: int, ch: int)
    requires
        0 <= j < s.len(),
    ensures
        channel_sum(s.remove(j), p, ch) == channel_sum(s, p, ch) - channel(s[j][p], ch),
    decreases s.len(),
{
    if j == s.len() - 1 {
        assert(s.remove(j) =~= s.drop_last());
    } else {
        assert(s.remove(j).drop_last() =~= s.drop_last().remove(j));
        assert(s.remove(j).last() == s.last());
        lemma_channel_sum_remove(s.drop_last(), j, p, ch);
    }
}

/// Two sequences of frames holding the same frames (as a multiset) have
/// the same channel sums.
pub proof fn lemma_channel_sum_permutation(
    s1: Seq<Seq<Pixel>>,
    s2: Seq<Seq<Pixel>>,
    p: int,
    ch: int,
)
    requires
        s1.to_multiset() == s2.to_multiset(),
    ensures
        channel_sum(s1, p, ch) == channel_sum(s2, p, ch),
    decreases s1.len(),
{
    broadcast use group_to_multiset_ensures;

    assert(s1.to_multiset().len() == s1.len());
    assert(s2.to_multiset().len() == s2.len());
    if s1.len() == 0 {
        assert(s2.len() == 0);
    } else {
        let x = s1.last();
        assert(s1.contains(x)) by {
            assert(s1[s1.len() - 1] == x);
        }
        assert(s2.to_multiset().count(x) > 0);
        assert(s2.contains(x));
        let j = choose|j: int| 0 <= j < s2.len() && s2[j] == x;
        assert(s1.drop_last() =~= s1.remove(s1.len() - 1));
        assert(s1.drop_last().to_multiset() =~= s2.remove(j).to_multiset()) by {
            assert(s1.remove(s1.len() - 1).to_multiset() =~= s1.to_multiset().remove(x));
            assert(s2.remove(j).to_multiset() =~= s2.to_multiset().remove(x));
        }
        lemma_channel_sum_permutation(s1.drop_last(), s2.remove(j), p, ch);
        lemma_channel_sum_remove(s2, j, p, ch);
    }
}

/// The per-pixel unweighted mean of a batch of frames.
pub open spec fn spec_mean(history: Seq<Seq<Pixel>>, npixels: nat) -> Seq<Pixel>
    recommends
        history.len() > 0,
{
    Seq::new(
        npixels,
        |p: int| Pixel {
            r: (channel_sum(history, p, 0) / history.len() as int) as u8,
            g: (channel_sum(history, p, 1) / history.len() as int) as u8,
            b: (channel_sum(history, p, 2) / history.len() as int) as u8,
            a: (channel_sum(history, p, 3) / history.len() as int) as u8,
        },
    )
}

/// Law: after any number of frames, the progressively accumulated display
/// equals the one-pass unweighted mean of exactly those frames — the
/// running average with weight 1/(frameIndex+1) and the batch combiner
/// agree.
pub proof fn lemma_display_is_mean(c: ImageCombiner)
    requires
        c.wf(),
        c.image_count > 0,
    ensures
        c.spec_display() == spec_mean(c.history@, c.sums@.len()),
{
    assert(c.spec_display() =~= spec_mean(c.history@, c.sums@.len()));
}

/// Law: the mean of a batch of frames does not depend on the order the
/// frames were submitted in, only on which frames they are.
pub proof fn lemma_mean_order_independent(
    h1: Seq<Seq<Pixel>>,
    h2: Seq<Seq<Pixel>>,
    npixels: nat,
)
    requires
        h1.to_multiset() == h2.to_multiset(),
    ensures
        spec_mean(h1, npixels) == spec_mean(h2, npixels),
{
    broadcast use group_to_multiset_ensures;

    assert(h1.to_multiset().len() == h1.len());
    assert(h2.to_multiset().len() == h2.len());
    assert(h1.len() == h2.len());
    assert forall|p: int| 0 <= p < npixels implies spec_mean(h1, npixels)[p] == spec_mean(
        h2,
        npixels,
    )[p] by {
        lemma_channel_sum_permutation(h1, h2, p, 0);
        lemma_channel_sum_permutation(h1, h2, p, 1);
        lemma_channel_sum_permutation(h1, h2, p, 2);
        lemma_channel_sum_permutation(h1, h2, p, 3);
    }
    assert(spec_mean(h1, npixels) =~= spec_mean(h2, npixels));
}

/// Combines a fixed batch of frames into their per-pixel mean in one pass,
/// for non-interactive, high-sample offline rendering; the result does not
/// depend on the batch's order.
pub fn combine_images(frames: &Vec<RawImage>) -> (img: RawImage)
    requires
        1 <= frames@.len() <= u32::MAX,
        forall|f: int| 0 <= f < frames@.len() ==> (#[trigger] frames@[f]).valid(),
        forall|f: int|
            0 <= f < frames@.len() ==> (#[trigger] frames@[f]).width == frames@[0].width
                && frames@[f].height == frames@[0].height,
        1 <= frames@[0].width as int * frames@[0].height as int <= u32::MAX,
    ensures
        img.width == frames@[0].width,
        img.height == frames@[0].height,
        img.pixels@ == spec_mean(
            frames@.map_values(|f: RawImage| f.pixels@),
            (frames@[0].width as int * frames@[0].height as int) as nat,
        ),
{
    let width = frames[0].width;
    let height = frames[0].height;
    let mut combiner = ImageCombiner::new([width, height]);
    let mut f: usize = 0;
    while f < frames.len()
        invariant
            combiner.wf(),
            combiner.width == width,
            combiner.height == height,
            width == frames@[0].width,
            height == frames@[0].height,
            1 <= frames@.len() <= u32::MAX,
            forall|ff: int| 0 <= ff < frames@.len() ==> (#[trigger] frames@[ff]).valid(),
            forall|ff: int|
                0 <= ff < frames@.len() ==> (#[trigger] frames@[ff]).width == frames@[0].width
                    && frames@[ff].height == frames@[0].height,
            f <= frames@.len(),
            combiner.image_count == f,
            combiner.history@ =~= Seq::new(f as nat, |k: int| frames@[k].pixels@),
        decreases frames@.len() - f,
    {
        let (_token, _blend) = combiner.next_frame(&frames[f], CompletionToken::initial());
        proof {
            assert(combiner.history@ =~= Seq::new((f + 1) as nat, |k: int| frames@[k].pixels@));
        }
        f = f + 1;
    }
    let img = combiner.image();
    proof {
        let history = frames@.map_values(|fr: RawImage| fr.pixels@);
        assert(combiner.history@ =~= history);
        assert(img.pixels@ =~= spec_mean(history, (width as int * height as int) as nat));
    }
    img
}

/// Law: after accumulating any positive number of frames all equal to one
/// raw frame, the displayed image is that raw frame exactly. In
/// particular, right after a reset the first accumulated frame is
/// displayed unchanged, with no blend against pre-reset history.
pub proof fn lemma_identical_frames_display(c: ImageCombiner, raw: Seq<Pixel>)
    requires
        c.wf(),
        c.image_count > 0,
        forall|f: int| 0 <= f < c.history@.len() ==> c.history@[f] == raw,
    ensures
        c.spec_display() == raw,
{
    assert(c.history@[0] == raw);
    assert(raw.len() == c.sums@.len());
    let n = c.image_count as int;
    assert forall|p: int| 0 <= p < c.sums@.len() implies c.spec_display()[p] == raw[p] by {
        lemma_channel_sum_constant(c.history@, raw, p, 0);
        lemma_channel_sum_constant(c.history@, raw, p, 1);
        lemma_channel_sum_constant(c.history@, raw, p, 2);
        lemma_channel_sum_constant(c.history@, raw, p, 3);
        lemma_div_multiples_vanish(channel(raw[p], 0), n);
        lemma_div_multiples_vanish(channel(raw[p], 1), n);
        lemma_div_multiples_vanish(channel(raw[p], 2), n);
        lemma_div_multiples_vanish(channel(raw[p], 3), n);
    }
    assert(c.spec_display() =~= raw);
}

} // verus!
