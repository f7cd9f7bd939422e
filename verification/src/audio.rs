//! Audio framing: fixed-duration frames are cut from a continuous PCM
//! stream, in capture order, and the capture sample rate is chosen from a
//! whitelist of rates the codec accepts.

use vstd::prelude::*;

verus! {

/// The sample rates the voice codec accepts.
pub open spec fn is_supported_rate(rate: u32) -> bool {
    rate == 8000 || rate == 12000 || rate == 16000 || rate == 24000 || rate == 48000
}

/// Whether `rate` is one of the whitelisted codec sample rates.
pub fn supported_rate(rate: u32) -> (r: bool)
    ensures
        r == is_supported_rate(rate),
{
    rate == 8000 || rate == 12000 || rate == 16000 || rate == 24000 || rate == 48000
}

/// Samples per frame at `rate`: one frame covers 20 ms, so a fiftieth of a
/// second of audio.
pub fn frame_size_for(rate: u32) -> (r: usize)
    ensures
        r == rate as int / 50,
{
    (rate / 50) as usize
}

/// The stream cut into consecutive whole chunks of `k` samples; a final
/// partial chunk is not included.
pub open spec fn chunked(s: Seq<i16>, k: nat) -> Seq<Seq<i16>>
    decreases s.len(),
{
    if k == 0 || s.len() < k {
        Seq::empty()
    } else {
        seq![s.take(k as int)] + chunked(s.skip(k as int), k)
    }
}

/// The trailing partial chunk left over after cutting whole chunks of `k`.
pub open spec fn frame_rem(s: Seq<i16>, k: nat) -> Seq<i16> {
    s.skip((chunked(s, k).len() * k) as int)
}

/// No more samples are cut into chunks than the stream holds.
pub proof fn lemma_chunked_len_bound(s: Seq<i16>, k: nat)
    requires
        k >= 1,
    ensures
        chunked(s, k).len() * k <= s.len(),
    decreases s.len(),
{
    if s.len() < k {
    } else {
        lemma_chunked_len_bound(s.skip(k as int), k);
        assert(chunked(s, k).len() == 1 + chunked(s.skip(k as int), k).len());
        assert((1 + chunked(s.skip(k as int), k).len()) * k == k + chunked(
            s.skip(k as int),
            k,
        ).len() * k) by (nonlinear_arith);
    }
}

/// The sample sequences held by a vector of frames.
pub open spec fn frames_views(fs: Seq<Vec<i16>>) -> Seq<Seq<i16>> {
    fs.map_values(|f: Vec<i16>| f@)
}

/// Buffers raw PCM and cuts it into frames of exactly `frame_size` samples,
/// preserving sample order across calls.
pub struct FrameBuffer {
    pub buf: Vec<i16>,
    pub frame_size: usize,
}

impl FrameBuffer {
    pub open spec fn wf(&self) -> bool {
        self.frame_size >= 1
    }

    pub fn new(frame_size: usize) -> (r: FrameBuffer)
        requires
            frame_size >= 1,
        ensures
            r.wf(),
            r.frame_size == frame_size,
            r.buf@ == Seq::<i16>::empty(),
    {
        FrameBuffer { buf: Vec::new(), frame_size }
    }

    /// Append `pcm` to the buffered samples and return every whole frame now
    /// available, oldest first. The returned frames, in order, followed by
    /// what stays buffered, are exactly the buffered-plus-new samples: no
    /// sample is reordered, duplicated or dropped.
    pub fn push(&mut self, pcm: &Vec<i16>) -> (frames: Vec<Vec<i16>>)
        requires
            old(self).wf(),
        ensures
            final(self).wf(),
            final(self).frame_size == old(self).frame_size,
            frames_views(frames@) == chunked(
                old(self).buf@ + pcm@,
                old(self).frame_size as nat,
            ),
            frames_views(frames@).flatten() + final(self).buf@ == old(self).buf@ + pcm@,
            final(self).buf@ == frame_rem(old(self).buf@ + pcm@, old(self).frame_size as nat),
            final(self).buf@.len() < old(self).frame_size,
            forall|i: int|
                0 <= i < frames@.len() ==> (#[trigger] frames@[i])@.len() == old(
                    self,
                ).frame_size,
    {
        self.buf.extend_from_slice(pcm.as_slice());
        let ghost total: Seq<i16> = self.buf@;
        let ghost k: nat = self.frame_size as nat;
        let mut frames: Vec<Vec<i16>> = Vec::new();
        proof {
            assert(frames_views(frames@) =~= Seq::<Seq<i16>>::empty());
            assert(frames_views(frames@).flatten() + self.buf@ =~= total);
        }
        while self.buf.len() >= self.frame_size
            invariant
                self.frame_size == old(self).frame_size,
                self.frame_size >= 1,
                k == self.frame_size as nat,
                frames_views(frames@) + chunked(self.buf@, k) == chunked(total, k),
                frames_views(frames@).flatten() + self.buf@ == total,
                forall|i: int|
                    0 <= i < frames@.len() ==> (#[trigger] frames@[i])@.len() == k,
            decreases self.buf@.len(),
        {
            let ghost before: Seq<i16> = self.buf@;
            let ghost fv_before: Seq<Seq<i16>> = frames_views(frames@);
            let mut rest = self.buf.split_off(self.frame_size);
            core::mem::swap(&mut self.buf, &mut rest);
            frames.push(rest);
            proof {
                assert(rest@ =~= before.take(k as int));
                assert(self.buf@ =~= before.skip(k as int));
                assert(frames_views(frames@) =~= fv_before.push(before.take(k as int)));
                assert(chunked(before, k) == seq![before.take(k as int)] + chunked(
                    before.skip(k as int),
                    k,
                ));
                assert(frames_views(frames@) + chunked(self.buf@, k) =~= fv_before + chunked(
                    before,
                    k,
                ));
                fv_before.lemma_flatten_push(before.take(k as int));
                assert(before.take(k as int) + before.skip(k as int) =~= before);
                assert(frames_views(frames@).flatten() + self.buf@ =~= fv_before.flatten()
                    + before);
            }
        }
        proof {
            assert(chunked(self.buf@, k) =~= Seq::<Seq<i16>>::empty());
            assert(frames_views(frames@) =~= frames_views(frames@) + Seq::<Seq<i16>>::empty());
            assert(total == old(self).buf@ + pcm@);
            assert(frames_views(frames@) =~= chunked(old(self).buf@ + pcm@, k));
            lemma_flatten_uniform(frames_views(frames@), k);
            assert(self.buf@ =~= total.skip((frames_views(frames@).len() * k) as int));
            assert(self.buf@ =~= frame_rem(total, k));
        }
        frames
    }
}

/// A vector of frames that all hold `k` samples flattens to `k` samples per
/// frame.
pub proof fn lemma_flatten_uniform(fs: Seq<Seq<i16>>, k: nat)
    requires
        forall|i: int| 0 <= i < fs.len() ==> (#[trigger] fs[i]).len() == k,
    ensures
        fs.flatten().len() == fs.len() * k,
    decreases fs.len(),
{
    if fs.len() == 0 {
        assert(fs.flatten().len() == 0);
    } else {
        lemma_flatten_uniform(fs.drop_first(), k);
        assert(fs.flatten() == fs.first() + fs.drop_first().flatten());
        assert((fs.len() - 1) * k + k == fs.len() * k) by (nonlinear_arith);
    }
}

/// Frames are cut from the stream in order: cutting the stream delivered as
/// one piece `s + t` gives first the frames of `s`, then the frames of the
/// leftover of `s` followed by `t`. So feeding audio piecewise emits the
/// frames of the whole stream, in order, with no reordering, duplication or
/// loss.
pub proof fn lemma_chunked_stream(s: Seq<i16>, t: Seq<i16>, k: nat)
    requires
        k >= 1,
    ensures
        chunked(s + t, k) == chunked(s, k) + chunked(frame_rem(s, k) + t, k),
    decreases s.len(),
{
    if s.len() < k {
        assert(frame_rem(s, k) =~= s);
        assert(chunked(s, k) + chunked(s + t, k) =~= chunked(s + t, k));
    } else {
        lemma_chunked_stream(s.skip(k as int), t, k);
        assert((s + t).take(k as int) =~= s.take(k as int));
        assert((s + t).skip(k as int) =~= s.skip(k as int) + t);
        let rest_count: nat = chunked(s.skip(k as int), k).len();
        lemma_chunked_len_bound(s.skip(k as int), k);
        assert(chunked(s, k).len() == 1 + rest_count);
        assert((1 + rest_count) * k == k + rest_count * k) by (nonlinear_arith);
        vstd::seq_lib::lemma_seq_skip_of_skip(s, k as int, (rest_count * k) as int);
        assert(frame_rem(s.skip(k as int), k) =~= frame_rem(s, k));
        assert(chunked(s + t, k) == seq![s.take(k as int)] + chunked(s.skip(k as int) + t, k));
        assert(chunked(s, k) == seq![s.take(k as int)] + chunked(s.skip(k as int), k));
        assert(chunked(s, k) + chunked(frame_rem(s, k) + t, k) =~= seq![s.take(k as int)] + (
        chunked(s.skip(k as int), k) + chunked(frame_rem(s.skip(k as int), k) + t, k)));
    }
}

/// Feeding audio piecewise is framing the one concatenated stream: with a
/// buffer holding the leftover of what came before, the frames cut from
/// the first piece followed by the frames cut after the second are exactly
/// the frames of both pieces as one stream, in order.
pub proof fn lemma_piecewise_framing(b0: Seq<i16>, p1: Seq<i16>, p2: Seq<i16>, k: nat)
    requires
        k >= 1,
    ensures
        chunked(b0 + p1, k) + chunked(frame_rem(b0 + p1, k) + p2, k) == chunked(
            b0 + p1 + p2,
            k,
        ),
{
    lemma_chunked_stream(b0 + p1, p2, k);
    assert(b0 + p1 + p2 =~= (b0 + p1) + p2);
}

/// The number of frames grows in proportion to the input: cutting `s` into
/// frames of `k` samples yields exactly `s.len() / k` frames.
pub proof fn lemma_chunked_count(s: Seq<i16>, k: nat)
    requires
        k >= 1,
    ensures
        chunked(s, k).len() == s.len() as int / k as int,
    decreases s.len(),
{
    if s.len() < k {
        vstd::arithmetic::div_mod::lemma_basic_div(s.len() as int, k as int);
    } else {
        lemma_chunked_count(s.skip(k as int), k);
        vstd::arithmetic::div_mod::lemma_div_plus_one(s.len() as int - k as int, k as int);
    }
}

/// An inclusive range of sample rates a capture device supports.
#[derive(Clone, Copy, PartialEq, Eq, Structural, Debug)]
pub struct RateRange {
    pub min_rate: u32,
    pub max_rate: u32,
}

pub open spec fn range_admits(r: RateRange, rate: u32) -> bool {
    r.min_rate <= rate <= r.max_rate
}

pub open spec fn some_range_admits(ranges: Seq<RateRange>, rate: u32) -> bool {
    exists|i: int| 0 <= i < ranges.len() && range_admits(ranges[i], rate)
}

/// The rate the session uses: the first whitelisted rate, in preference
/// order, that some device range admits; failing that, the device's default
/// rate if and only if it is itself whitelisted.
pub open spec fn spec_pick_rate(ranges: Seq<RateRange>, default_rate: u32) -> Option<u32> {
    if some_range_admits(ranges, 48000) {
        Some(48000u32)
    } else if some_range_admits(ranges, 16000) {
        Some(16000u32)
    } else if some_range_admits(ranges, 24000) {
        Some(24000u32)
    } else if some_range_admits(ranges, 12000) {
        Some(12000u32)
    } else if some_range_admits(ranges, 8000) {
        Some(8000u32)
    } else if is_supported_rate(default_rate) {
        Some(default_rate)
    } else {
        None
    }
}

/// Whether any of the device's supported ranges admits `rate`.
pub fn ranges_admit(ranges: &Vec<RateRange>, rate: u32) -> (r: bool)
    ensures
        r == some_range_admits(ranges@, rate),
{
    let mut i: usize = 0;
    while i < ranges.len()
        invariant
            0 <= i <= ranges@.len(),
            forall|j: int| 0 <= j < i ==> !range_admits(ranges@[j], rate),
        decreases ranges@.len() - i,
    {
        if ranges[i].min_rate <= rate && rate <= ranges[i].max_rate {
            return true;
        }
        i += 1;
    }
    false
}

/// Choose the session sample rate from the device's supported ranges and its
/// default rate, in the codec's preference order.
pub fn pick_sample_rate(ranges: &Vec<RateRange>, default_rate: u32) -> (r: Option<u32>)
    ensures
        r == spec_pick_rate(ranges@, default_rate),
        r is Some ==> is_supported_rate(r->0),
{
    if ranges_admit(ranges, 48000) {
        Some(48000)
    } else if ranges_admit(ranges, 16000) {
        Some(16000)
    } else if ranges_admit(ranges, 24000) {
        Some(24000)
    } else if ranges_admit(ranges, 12000) {
        Some(12000)
    } else if ranges_admit(ranges, 8000) {
        Some(8000)
    } else if supported_rate(default_rate) {
        Some(default_rate)
    } else {
        None
    }
}

/// A capture device as shown to the user: its name, and whether it is the
/// host's default input device.
#[derive(Debug, Clone)]
pub struct InputDeviceInfo {
    pub name: String,
    pub is_default: bool,
}

/// Label the enumerated device names with whether each is the default
/// device; when enumeration found nothing but a default device exists, list
/// just the default.
pub fn list_input_devices(names: &Vec<String>, default_name: &String) -> (r: Vec<
    InputDeviceInfo,
>)
    ensures
        names@.len() > 0 || default_name@.len() == 0 ==> r@.len() == names@.len(),
        names@.len() == 0 && default_name@.len() > 0 ==> r@.len() == 1 && r@[0].name@
            == default_name@ && r@[0].is_default,
        forall|i: int|
            0 <= i < names@.len() ==> (#[trigger] r@[i]).name@ == names@[i]@ && r@[i].is_default
                == (default_name@.len() > 0 && names@[i]@ == default_name@),
{
    let mut out: Vec<InputDeviceInfo> = Vec::new();
    let mut i: usize = 0;
    while i < names.len()
        invariant
            0 <= i <= names@.len(),
            out@.len() == i,
            forall|j: int|
                0 <= j < i ==> (#[trigger] out@[j]).name@ == names@[j]@ && out@[j].is_default == (
                default_name@.len() > 0 && names@[j]@ == default_name@),
        decreases names@.len() - i,
    {
        let is_default = !default_name.as_str().is_empty() && names[i] == *default_name;
        out.push(InputDeviceInfo { name: names[i].clone(), is_default });
        i += 1;
    }
    if out.len() == 0 && !default_name.as_str().is_empty() {
        out.push(InputDeviceInfo { name: default_name.clone(), is_default: true });
    }
    out
}

/// The index of the capture device the user asked for: the first device
/// whose name equals the requested name, trimmed. A blank or absent
/// request, or a name no device carries, selects no index and the caller
/// falls back to the default device.
pub open spec fn spec_selected_device(names: Seq<Seq<char>>, requested: Option<Seq<char>>) -> Option<int> {
    match requested {
        None => None,
        Some(want) => if crate::text::trim_of(want).len() == 0 {
            None
        } else if exists|i: int| 0 <= i < names.len() && names[i] == crate::text::trim_of(want) {
            Some(choose|i: int| 0 <= i < names.len() && names[i] == crate::text::trim_of(want))
        } else {
            None
        },
    }
}

/// Find the requested capture device among the enumerated names.
pub fn select_input_device_index(names: &Vec<String>, requested: &Option<String>) -> (r: Option<
    usize,
>)
    ensures
        match r {
            Some(ix) => {
                &&& ix < names@.len()
                &&& crate::protocol::opt_string_view(requested) matches Some(want)
                    && names@[ix as int]@ == crate::text::trim_of(want) && (forall|j: int|
                    0 <= j < ix ==> (#[trigger] names@[j])@ != crate::text::trim_of(want))
            },
            None => spec_selected_device(
                names@.map_values(|n: String| n@),
                crate::protocol::opt_string_view(requested),
            ) is None,
        },
{
    let Some(want) = requested else { return None };
    let want = crate::text::trim_str(want.as_str());
    if want.as_str().is_empty() {
        return None;
    }
    let mut i: usize = 0;
    while i < names.len()
        invariant
            0 <= i <= names@.len(),
            crate::protocol::opt_string_view(requested) matches Some(w) && want@
                == crate::text::trim_of(w),
            want@.len() > 0,
            forall|j: int| 0 <= j < i ==> (#[trigger] names@[j])@ != want@,
        decreases names@.len() - i,
    {
        if names[i] == want {
            return Some(i);
        }
        i += 1;
    }
    proof {
        let ghost seqs = names@.map_values(|n: String| n@);
        assert(forall|j: int| 0 <= j < seqs.len() ==> seqs[j] == (#[trigger] names@[j])@);
    }
    None
}

} // verus!
