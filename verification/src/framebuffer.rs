use vstd::prelude::*;

verus! {

/// The sentinel depth a cleared pixel holds: farther than any depth a
/// rasterized fragment can carry, so the first write to a pixel after a
/// clear always passes the depth test.
pub const DEPTH_FAR: i64 = i64::MAX;

/// The mathematical state of a framebuffer: three parallel row-major
/// buffers plus the background and current draw colors.
#[verifier::ext_equal]
pub ghost struct FbView {
    pub width: nat,
    pub height: nat,
    pub color: Seq<u32>,
    pub emissive: Seq<u32>,
    pub depth: Seq<i64>,
    pub background: u32,
    pub draw: u32,
}

impl FbView {
    /// The three buffers cover exactly `width * height` pixels.
    pub open spec fn wf(self) -> bool {
        &&& self.color.len() == self.width * self.height
        &&& self.emissive.len() == self.width * self.height
        &&& self.depth.len() == self.width * self.height
    }

    /// Row-major index of the pixel at `(x, y)`.
    pub open spec fn idx(self, x: int, y: int) -> int {
        y * self.width + x
    }

    /// A depth-tested write lands only in bounds and strictly nearer than
    /// the stored depth (nearest wins).
    pub open spec fn accepts(self, x: int, y: int, depth: i64) -> bool {
        &&& 0 <= x < self.width
        &&& 0 <= y < self.height
        &&& depth < self.depth[self.idx(x, y)]
    }

    /// The state after a depth-tested point write of color `c` and emission
    /// `e` at `(x, y)`: all three buffers updated on acceptance, untouched
    /// on a rejected (out-of-bounds or occluded) write.
    pub open spec fn write_px(self, x: int, y: int, depth: i64, e: u32, c: u32) -> FbView {
        if self.accepts(x, y, depth) {
            FbView {
                color: self.color.update(self.idx(x, y), c),
                emissive: self.emissive.update(self.idx(x, y), e),
                depth: self.depth.update(self.idx(x, y), depth),
                ..self
            }
        } else {
            self
        }
    }
}

/// A color buffer, a parallel emissive buffer and a parallel depth buffer,
/// written through a single depth-tested point operation.
pub struct Framebuffer {
    width: usize,
    height: usize,
    buffer: Vec<u32>,
    emissive_buffer: Vec<u32>,
    zbuffer: Vec<i64>,
    background_color: u32,
    current_color: u32,
}

impl View for Framebuffer {
    type V = FbView;

    closed spec fn view(&self) -> FbView {
        FbView {
            width: self.width as nat,
            height: self.height as nat,
            color: self.buffer@,
            emissive: self.emissive_buffer@,
            depth: self.zbuffer@,
            background: self.background_color,
            draw: self.current_color,
        }
    }
}

impl Framebuffer {
    /// A fresh framebuffer: black background, all pixels cleared.
    pub fn new(width: usize, height: usize) -> (fb: Framebuffer)
        requires
            width * height <= usize::MAX,
        ensures
            fb@.wf(),
            fb@.width == width,
            fb@.height == height,
            fb@.background == 0,
            fb@.draw == 0,
            fb@.color =~= Seq::new((width * height) as nat, |i: int| 0u32),
            fb@.emissive =~= Seq::new((width * height) as nat, |i: int| 0u32),
            fb@.depth =~= Seq::new((width * height) as nat, |i: int| DEPTH_FAR),
    {
        let n = width * height;
        let mut buffer: Vec<u32> = Vec::new();
        let mut emissive_buffer: Vec<u32> = Vec::new();
        let mut zbuffer: Vec<i64> = Vec::new();
        let mut i: usize = 0;
        while i < n
            invariant
                i <= n,
                buffer@ =~= Seq::new(i as nat, |j: int| 0u32),
                emissive_buffer@ =~= Seq::new(i as nat, |j: int| 0u32),
                zbuffer@ =~= Seq::new(i as nat, |j: int| DEPTH_FAR),
            decreases n - i,
        {
            buffer.push(0);
            emissive_buffer.push(0);
            zbuffer.push(DEPTH_FAR);
            i = i + 1;
        }
        Framebuffer {
            width,
            height,
            buffer,
            emissive_buffer,
            zbuffer,
            background_color: 0,
            current_color: 0,
        }
    }

    pub fn width(&self) -> (w: usize)
        ensures
            w == self@.width,
    {
        self.width
    }

    pub fn height(&self) -> (h: usize)
        ensures
            h == self@.height,
    {
        self.height
    }

    /// Set the color that `clear` paints the color buffer with.
    pub fn set_background_color(&mut self, color: u32)
        ensures
            final(self)@ =~= (FbView { background: color, ..old(self)@ }),
    {
        self.background_color = color;
    }

    /// Set the color used by the following `point` calls.
    pub fn set_current_color(&mut self, color: u32)
        ensures
            final(self)@ =~= (FbView { draw: color, ..old(self)@ }),
    {
        self.current_color = color;
    }

    /// Reset every pixel: background color, zero emission, far depth.
    pub fn clear(&mut self)
        requires
            old(self)@.wf(),
        ensures
            final(self)@.wf(),
            final(self)@.width == old(self)@.width,
            final(self)@.height == old(self)@.height,
            final(self)@.background == old(self)@.background,
            final(self)@.draw == old(self)@.draw,
            forall|i: int|
                0 <= i < final(self)@.color.len() ==> final(self)@.color[i] == final(self)@.background,
            forall|i: int| 0 <= i < final(self)@.emissive.len() ==> final(self)@.emissive[i] == 0u32,
            forall|i: int| 0 <= i < final(self)@.depth.len() ==> final(self)@.depth[i] == DEPTH_FAR,
    {
        let n = self.buffer.len();
        let mut i: usize = 0;
        while i < n
            invariant
                i <= n,
                n == self.buffer.len(),
                n == self.emissive_buffer.len(),
                n == self.zbuffer.len(),
                self.width == old(self).width,
                self.height == old(self).height,
                self.background_color == old(self).background_color,
                self.current_color == old(self).current_color,
                forall|j: int| 0 <= j < i ==> self.buffer@[j] == self.background_color,
                forall|j: int| 0 <= j < i ==> self.emissive_buffer@[j] == 0u32,
                forall|j: int| 0 <= j < i ==> self.zbuffer@[j] == DEPTH_FAR,
            decreases n - i,
        {
            let bg = self.background_color;
            self.buffer.set(i, bg);
            self.emissive_buffer.set(i, 0);
            self.zbuffer.set(i, DEPTH_FAR);
            i = i + 1;
        }
    }

    /// Depth-tested point write: stores the current draw color and the given
    /// emission at `(x, y)` iff the pixel is in bounds and `depth` is
    /// strictly nearer than the stored depth. A rejected write is a no-op.
    pub fn point(&mut self, x: usize, y: usize, depth: i64, emission: u32)
        requires
            old(self)@.wf(),
        ensures
            final(self)@.wf(),
            final(self)@ =~= old(self)@.write_px(x as int, y as int, depth, emission, old(self)@.draw),
    {
        if x < self.width && y < self.height {
            let n = self.zbuffer.len();
            proof {
                lemma_pixel_index_in_range(self@, x as int, y as int);
            }
            let i = y * self.width + x;
            if depth < self.zbuffer[i] {
                let c = self.current_color;
                self.buffer.set(i, c);
                self.emissive_buffer.set(i, emission);
                self.zbuffer.set(i, depth);
            }
        }
    }

    /// The packed color stored at `(x, y)`.
    pub fn get_color(&self, x: usize, y: usize) -> (c: u32)
        requires
            self@.wf(),
            x < self@.width,
            y < self@.height,
        ensures
            c == self@.color[self@.idx(x as int, y as int)],
    {
        let n = self.buffer.len();
        proof {
            lemma_pixel_index_in_range(self@, x as int, y as int);
        }
        self.buffer[y * self.width + x]
    }

    /// The emission stored at `(x, y)`.
    pub fn get_emission(&self, x: usize, y: usize) -> (e: u32)
        requires
            self@.wf(),
            x < self@.width,
            y < self@.height,
        ensures
            e == self@.emissive[self@.idx(x as int, y as int)],
    {
        let n = self.emissive_buffer.len();
        proof {
            lemma_pixel_index_in_range(self@, x as int, y as int);
        }
        self.emissive_buffer[y * self.width + x]
    }

    /// The depth stored at `(x, y)`.
    pub fn get_depth(&self, x: usize, y: usize) -> (d: i64)
        requires
            self@.wf(),
            x < self@.width,
            y < self@.height,
        ensures
            d == self@.depth[self@.idx(x as int, y as int)],
    {
        let n = self.zbuffer.len();
        proof {
            lemma_pixel_index_in_range(self@, x as int, y as int);
        }
        self.zbuffer[y * self.width + x]
    }

    /// The whole packed color buffer, row-major, for presentation.
    pub fn data(&self) -> (d: &Vec<u32>)
        ensures
            d@ == self@.color,
    {
        &self.buffer
    }

    /// The whole emissive buffer, row-major.
    pub fn emissive_data(&self) -> (d: &Vec<u32>)
        ensures
            d@ == self@.emissive,
    {
        &self.emissive_buffer
    }

    /// Replace the emissive buffer, keeping its length; the bloom pass
    /// blurs the buffer outside and hands it back.
    pub fn set_emissive_data(&mut self, data: Vec<u32>)
        requires
            old(self)@.wf(),
            data@.len() == old(self)@.emissive.len(),
        ensures
            final(self)@.wf(),
            final(self)@ =~= (FbView { emissive: data@, ..old(self)@ }),
    {
        self.emissive_buffer = data;
    }

    /// Replace the color buffer, keeping its length; the bloom blend maps
    /// the buffer outside and hands it back.
    pub fn set_color_data(&mut self, data: Vec<u32>)
        requires
            old(self)@.wf(),
            data@.len() == old(self)@.color.len(),
        ensures
            final(self)@.wf(),
            final(self)@ =~= (FbView { color: data@, ..old(self)@ }),
    {
        self.buffer = data;
    }
}

/// A pixel in bounds has its row-major index inside the buffers.
pub proof fn lemma_pixel_index_in_range(v: FbView, x: int, y: int)
    requires
        v.wf(),
        0 <= x < v.width,
        0 <= y < v.height,
    ensures
        0 <= v.idx(x, y) < v.width * v.height,
{
    assert(0 <= y * v.width + x < v.width * v.height) by (nonlinear_arith)
        requires
            0 <= x < v.width,
            0 <= y < v.height,
    ;
}

/// Writing the same `(x, y, depth)` twice with the same color and emission
/// leaves the framebuffer exactly as the first write left it: the second
/// write always fails the strict depth test or is rejected like the first.
pub proof fn lemma_point_idempotent(v: FbView, x: int, y: int, depth: i64, e: u32, c: u32)
    requires
        v.wf(),
    ensures
        v.write_px(x, y, depth, e, c).write_px(x, y, depth, e, c) =~= v.write_px(x, y, depth, e, c),
{
    let w = v.write_px(x, y, depth, e, c);
    if v.accepts(x, y, depth) {
        lemma_pixel_index_in_range(v, x, y);
        assert(w.depth[w.idx(x, y)] == depth);
        assert(!w.accepts(x, y, depth));
    }
}

/// Nearest wins regardless of order: two writes to the same pixel with
/// depths `d1 < d2` end, in either order, in the state the `d1` write alone
/// produces. In particular, if `d1` passes the depth test the stored color
/// and depth are `c1` and `d1`.
pub proof fn lemma_depth_test_order_independent(
    v: FbView,
    x: int,
    y: int,
    d1: i64,
    d2: i64,
    e1: u32,
    e2: u32,
    c1: u32,
    c2: u32,
)
    requires
        v.wf(),
        d1 < d2,
    ensures
        v.write_px(x, y, d1, e1, c1).write_px(x, y, d2, e2, c2) =~= v.write_px(x, y, d1, e1, c1),
        v.write_px(x, y, d2, e2, c2).write_px(x, y, d1, e1, c1) =~= v.write_px(x, y, d1, e1, c1),
{
    if v.accepts(x, y, d1) {
        lemma_pixel_index_in_range(v, x, y);
        let w1 = v.write_px(x, y, d1, e1, c1);
        assert(w1.depth[w1.idx(x, y)] == d1);
        assert(!w1.accepts(x, y, d2));
        if v.accepts(x, y, d2) {
            let w2 = v.write_px(x, y, d2, e2, c2);
            assert(w2.depth[w2.idx(x, y)] == d2);
            assert(w2.accepts(x, y, d1));
            assert(w2.write_px(x, y, d1, e1, c1) =~= w1);
        }
    }
}

} // verus!
