use vstd::prelude::*;
use vstd::arithmetic::div_mod::lemma_fundamental_div_mod_converse;

verus! {

/// The largest entry of `s`, or 0 when `s` is empty.
pub open spec fn seq_max(s: Seq<u64>) -> u64
    decreases s.len(),
{
    if s.len() == 0 {
        0
    } else {
        let m = seq_max(s.drop_last());
        if s.last() > m {
            s.last()
        } else {
            m
        }
    }
}

/// Position in the flat histogram of the pixel in column `x` and row `y`
/// of a frame that is `width` pixels wide.
pub open spec fn flat_index(width: int, x: int, y: int) -> int {
    x + y * width
}

/// Hit counts of an iterated function system over a `frame[0]` by `frame[1]`
/// pixel frame, stored row by row, together with the largest count.
#[derive(Clone)]
pub struct IfsHistogram {
    pub frame: [usize; 2],
    pub max: u64,
    pub histogram: Vec<u64>,
}

impl IfsHistogram {
    /// Number of pixels of the frame.
    pub open spec fn pixel_count(&self) -> int {
        self.frame[0] * self.frame[1]
    }

    /// One counter per pixel.
    pub open spec fn wf(&self) -> bool {
        self.histogram@.len() == self.pixel_count()
    }

    /// The count of the pixel in column `x` and row `y`.
    pub open spec fn count(&self, x: int, y: int) -> u64 {
        self.histogram@[flat_index(self.frame[0] as int, x, y)]
    }

    /// An empty histogram: every counter and the maximum are zero.
    pub fn new(frame: [usize; 2]) -> (r: Self)
        requires
            frame[0] * frame[1] <= usize::MAX,
        ensures
            r.wf(),
            r.frame == frame,
            r.max == 0,
            forall|i: int| 0 <= i < r.histogram@.len() ==> r.histogram@[i] == 0,
    {
        let n: usize = frame[0] * frame[1];
        let mut histogram: Vec<u64> = Vec::new();
        let mut i: usize = 0;
        while i < n
            invariant
                i <= n,
                histogram@.len() == i,
                forall|j: int| 0 <= j < i ==> histogram@[j] == 0,
            decreases n - i,
        {
            histogram.push(0);
            i = i + 1;
        }
        IfsHistogram { frame, max: 0, histogram }
    }

    /// Row-by-row position of the pixel `index = (column, row)`.
    pub fn index2d_to_index1d(&self, index: (usize, usize)) -> (r: usize)
        requires
            index.0 + index.1 * self.frame[0] <= usize::MAX,
        ensures
            r == flat_index(self.frame[0] as int, index.0 as int, index.1 as int),
    {
        proof {
            assert(0 <= index.1 * self.frame[0]) by (nonlinear_arith);
        }
        index.0 + index.1 * self.frame[0]
    }

    /// The count of the pixel in column `x` and row `y`.
    pub fn count_at(&self, x: usize, y: usize) -> (r: u64)
        requires
            self.wf(),
            x < self.frame[0],
            y < self.frame[1],
        ensures
            r == self.count(x as int, y as int),
    {
        proof {
            lemma_pixel_in_histogram(self.frame[0] as int, self.frame[1] as int, x as int, y as int);
            assert(self.histogram.len() <= usize::MAX);
        }
        let i = self.index2d_to_index1d((x, y));
        self.histogram[i]
    }

    /// Zeroes every counter. The maximum is zeroed along with the counters, so a
    /// frame without pixels keeps its former maximum.
    pub fn reset(&mut self)
        requires
            old(self).wf(),
        ensures
            final(self).wf(),
            final(self).frame == old(self).frame,
            final(self).histogram@.len() == old(self).histogram@.len(),
            forall|i: int| 0 <= i < final(self).histogram@.len() ==> final(self).histogram@[i] == 0,
            final(self).max == if old(self).pixel_count() > 0 { 0 } else { old(self).max },
    {
        assert(self.histogram.len() <= usize::MAX);
        let n: usize = self.frame[0] * self.frame[1];
        let mut i: usize = 0;
        while i < n
            invariant
                i <= n,
                n == self.pixel_count(),
                self.wf(),
                self.frame == old(self).frame,
                forall|j: int| 0 <= j < i ==> self.histogram@[j] == 0,
                self.max == if i > 0 { 0 } else { old(self).max },
            decreases n - i,
        {
            self.histogram.set(i, 0);
            self.max = 0;
            i = i + 1;
        }
    }

    /// Takes over the counters gathered by a run, and their largest value as
    /// the maximum.
    pub fn load_counts(&mut self, counts: &[u64])
        requires
            old(self).wf(),
            counts@.len() == old(self).histogram@.len(),
        ensures
            final(self).wf(),
            final(self).frame == old(self).frame,
            final(self).histogram@ == counts@,
            final(self).max == seq_max(counts@),
    {
        let n: usize = counts.len();
        let mut m: u64 = 0;
        let mut i: usize = 0;
        while i < n
            invariant
                i <= n,
                n == counts@.len(),
                self.histogram@.len() == n,
                self.frame == old(self).frame,
                self.wf(),
                forall|j: int| 0 <= j < i ==> self.histogram@[j] == counts@[j],
                m == seq_max(counts@.take(i as int)),
            decreases n - i,
        {
            let c = counts[i];
            assert(counts@.take(i + 1).drop_last() =~= counts@.take(i as int));
            if c > m {
                m = c;
            }
            self.histogram.set(i, c);
            i = i + 1;
        }
        assert(counts@.take(n as int) =~= counts@);
        assert(self.histogram@ =~= counts@);
        self.max = m;
    }
}

/// The pixel in column `x` and row `y` of a `width` by `height` frame has its
/// counter inside the histogram.
pub proof fn lemma_pixel_in_histogram(width: int, height: int, x: int, y: int)
    requires
        0 <= x < width,
        0 <= y < height,
    ensures
        0 <= flat_index(width, x, y) < width * height,
{
    assert(0 <= y * width) by (nonlinear_arith)
        requires
            0 <= y,
            0 <= width,
    ;
    assert(y * width + width <= height * width) by (nonlinear_arith)
        requires
            0 <= y < height,
            0 <= width,
    ;
    assert(height * width == width * height) by (nonlinear_arith);
}

/// Counter `i` is the counter of the pixel in column `i % width` and row
/// `i / width`, which lies inside the frame.
pub open spec fn pixel_of_counter(width: int, height: int, i: int) -> bool {
    &&& 0 <= i % width < width
    &&& 0 <= i / width < height
    &&& flat_index(width, i % width, i / width) == i
}

/// Distinct pixels of a frame have distinct counters, and every counter
/// belongs to a pixel of the frame.
pub proof fn lemma_pixels_and_counters_correspond(width: int, height: int)
    requires
        0 < width,
        0 <= height,
    ensures
        forall|x1: int, y1: int, x2: int, y2: int|
            0 <= x1 < width && 0 <= y1 < height && 0 <= x2 < width && 0 <= y2 < height
                && #[trigger] flat_index(width, x1, y1) == #[trigger] flat_index(width, x2, y2)
                ==> x1 == x2 && y1 == y2,
        forall|i: int| 0 <= i < width * height ==> #[trigger] pixel_of_counter(width, height, i),
{
    assert forall|x1: int, y1: int, x2: int, y2: int|
        0 <= x1 < width && 0 <= y1 < height && 0 <= x2 < width && 0 <= y2 < height
            && #[trigger] flat_index(width, x1, y1) == #[trigger] flat_index(width, x2, y2)
        implies x1 == x2 && y1 == y2 by {
        let v = flat_index(width, x1, y1);
        assert(v == y1 * width + x1);
        assert(v == y2 * width + x2);
        lemma_fundamental_div_mod_converse(v, width, y1, x1);
        lemma_fundamental_div_mod_converse(v, width, y2, x2);
    }
    assert forall|i: int| 0 <= i < width * height implies #[trigger] pixel_of_counter(width, height, i) by {
        assert(i == width * (i / width) + i % width) by (nonlinear_arith)
            requires
                0 < width,
        ;
        assert(0 <= i % width < width) by (nonlinear_arith)
            requires
                0 < width,
        ;
        assert(0 <= i / width < height) by (nonlinear_arith)
            requires
                0 < width,
                0 <= i < width * height,
        ;
        assert(width * (i / width) == (i / width) * width) by (nonlinear_arith);
    }
}

/// The maximum of a sequence is at least each of its entries, and it is one
/// of them when the sequence is not empty.
pub proof fn lemma_seq_max_is_largest(s: Seq<u64>)
    ensures
        forall|i: int| 0 <= i < s.len() ==> s[i] <= seq_max(s),
        s.len() > 0 ==> exists|i: int| 0 <= i < s.len() && s[i] == seq_max(s),
    decreases s.len(),
{
    if s.len() > 0 {
        let t = s.drop_last();
        lemma_seq_max_is_largest(t);
        assert forall|i: int| 0 <= i < s.len() implies s[i] <= seq_max(s) by {
            if i < s.len() - 1 {
                assert(s[i] == t[i]);
            }
        }
        if s.last() > seq_max(t) {
            assert(s[s.len() - 1] == seq_max(s));
        } else if t.len() > 0 {
            let j = choose|j: int| 0 <= j < t.len() && t[j] == seq_max(t);
            assert(s[j] == seq_max(s));
        } else {
            assert(s[0] == seq_max(s));
        }
    }
}

/// After a run has been loaded, the maximum is the largest count of the
/// histogram, and some pixel reaches it when the frame has pixels.
pub proof fn lemma_loaded_max_is_largest_count(h: IfsHistogram)
    requires
        h.wf(),
        h.max == seq_max(h.histogram@),
    ensures
        forall|x: int, y: int|
            0 <= x < h.frame[0] && 0 <= y < h.frame[1] ==> #[trigger] h.count(x, y) <= h.max,
        h.pixel_count() > 0 ==> exists|x: int, y: int|
            0 <= x < h.frame[0] && 0 <= y < h.frame[1] && #[trigger] h.count(x, y) == h.max,
{
    let w = h.frame[0] as int;
    let ht = h.frame[1] as int;
    lemma_seq_max_is_largest(h.histogram@);
    assert forall|x: int, y: int| 0 <= x < w && 0 <= y < ht implies #[trigger] h.count(x, y) <= h.max by {
        lemma_pixel_in_histogram(w, ht, x, y);
    }
    if h.pixel_count() > 0 {
        assert(w > 0) by (nonlinear_arith)
            requires
                w * ht > 0,
                0 <= w,
                0 <= ht,
        ;
        lemma_pixels_and_counters_correspond(w, ht);
        let i = choose|i: int| 0 <= i < h.histogram@.len() && h.histogram@[i] == seq_max(h.histogram@);
        assert(pixel_of_counter(w, ht, i));
        assert(h.count(i % w, i / w) == h.max);
    }
}

/// Pixels are stored row by row: the counter of the pixel in column `x` and
/// row `y` is at position `x + y * width`, and the count shown for a pixel of
/// the frame is that counter, whatever the frame's shape.
pub proof fn lemma_count_is_own_counter(h: IfsHistogram, x: int, y: int)
    requires
        0 <= x < h.frame[0],
        0 <= y < h.frame[1],
    ensures
        flat_index(h.frame[0] as int, x, y) == x + y * h.frame[0],
        h.count(x, y) == h.histogram@[x + y * h.frame[0]],
{
}

} // verus!
