use vstd::prelude::*;

use crate::mmu::{MMU, MmuView, REG_INTERRUPTS};
use vstd::arithmetic::div_mod::{lemma_hoist_over_denominator, lemma_mod_multiples_vanish};

verus! {

pub const REG_LCD_GPU_CONTROL: u16 = 0xFF40;
pub const REG_SCROLL_Y: u16 = 0xFF42;
pub const REG_SCROLL_X: u16 = 0xFF43;
pub const REG_CURR_SCAN_LINE: u16 = 0xFF44;
pub const REG_BG_PALETTE: u16 = 0xFF47;
pub const REG_SPR_PALETTE_0: u16 = 0xFF48;
pub const REG_SPR_PALETTE_1: u16 = 0xFF49;

pub const FLAG_CONT_BG_ON: u8 = 0x01;
pub const FLAG_CONT_SPR_ON: u8 = 0x02;
pub const FLAG_CONT_BG_MAP: u8 = 0x08;
pub const FLAG_CONT_BG_SET: u8 = 0x10;

pub const FLAG_SPR_IN_BACKGROUND: u8 = 0x80;
pub const FLAG_SPR_Y_FLIP: u8 = 0x40;
pub const FLAG_SPR_X_FLIP: u8 = 0x20;
pub const FLAG_SPR_PALETTE: u8 = 0x10;

/// Width and height of the screen in pixels.
pub const SCREEN_W: usize = 160;
pub const SCREEN_H: usize = 144;
/// Bytes of one RGB frame.
pub const FB_SIZE: usize = 69120;
/// T-cycles of one scanline, and of one whole frame of 154 lines.
pub const LINE_CYCLES: u32 = 456;
pub const FRAME_CYCLES: u32 = 70224;
/// Position within the frame at which VBlank starts and the frame is complete.
pub const VBLANK_START: u32 = 65664;

/// The four states of the scanline machine.
#[derive(Clone, Copy, Debug, PartialEq, Eq, Structural)]
pub enum Mode {
    HBlank,
    VBlank,
    ScOam,
    ScVram,
}

/// The picture processor: the scanline state machine and the framebuffer it draws into.
pub struct GPU {
    pub mode: Mode,
    /// T-cycles spent in the current mode.
    pub mode_clock: u32,
    /// The current scanline, 0..=153.
    pub line: u8,
    /// 160 x 144 RGB pixels, row-major.
    pub fb: Vec<u8>,
}

/// How long each mode lasts, in T-cycles.
pub open spec fn duration(m: Mode) -> int {
    match m {
        Mode::ScOam => 80,
        Mode::ScVram => 172,
        Mode::HBlank => 204,
        Mode::VBlank => 456,
    }
}

/// Whether a step of `d` T-cycles from frame position `p` completes a frame:
/// the start of VBlank lies in `(p, p + d]`.
pub open spec fn frame_due(p: int, d: int) -> bool {
    (p < VBLANK_START <= p + d) || (p < VBLANK_START + FRAME_CYCLES <= p + d)
}

/// The grey level of shade `s`: white, light, dark, black.
pub open spec fn level(s: u8) -> u8 {
    if s == 0 {
        255
    } else if s == 1 {
        192
    } else if s == 2 {
        96
    } else {
        0
    }
}

/// The shade that palette `pal` gives to colour key `key`.
pub open spec fn shade(pal: u8, key: u8) -> u8 {
    (pal >> (2 * key) as u8) & 3
}

/// The colour key of bit `n` of a tile row given by its two bytes.
pub open spec fn tile_key(b1: u8, b2: u8, n: u8) -> u8 {
    ((b1 >> n) & 1) | (((b2 >> n) & 1) << 1u8)
}

/// The colour key of background pixel `x` on scanline `line`.
pub open spec fn bg_key(m: MmuView, lcdc: u8, scy: u8, scx: u8, line: u8, x: int) -> u8 {
    let y = (line + scy) % 256;
    let sx = (x + scx) % 256;
    let map_base: int = if lcdc & FLAG_CONT_BG_MAP != 0 {
        0x9C00
    } else {
        0x9800
    };
    let id = m.read((map_base + (y / 8) * 32 + sx / 8) as u16);
    let tile: int = if lcdc & FLAG_CONT_BG_SET == 0 && id < 128 {
        id + 256
    } else {
        id as int
    };
    let addr = 0x8000 + tile * 16 + (y % 8) * 2;
    tile_key(m.read(addr as u16), m.read((addr + 1) as u16), (7 - sx % 8) as u8)
}

/// All three channels of pixel `x` of scanline `line` hold `v`.
pub open spec fn pixel_is(fb: Seq<u8>, line: int, x: int, v: u8) -> bool {
    let i = (line * 160 + x) * 3;
    fb[i] == v && fb[i + 1] == v && fb[i + 2] == v
}

/// Two framebuffers agree outside scanline `line`.
pub open spec fn same_outside_line(a: Seq<u8>, b: Seq<u8>, line: int) -> bool {
    &&& a.len() == b.len()
    &&& forall|i: int|
        0 <= i < a.len() && !(line * 480 <= i < line * 480 + 480) ==> #[trigger] a[i] == b[i]
}

/// Two framebuffers agree on pixel `x` of scanline `line`.
pub open spec fn pixel_same(a: Seq<u8>, b: Seq<u8>, line: int, x: int) -> bool {
    let i = (line * 160 + x) * 3;
    a[i] == b[i] && a[i + 1] == b[i + 1] && a[i + 2] == b[i + 2]
}

/// Byte `k` of the attribute entry of sprite `i`: Y, X, tile, flags.
pub open spec fn oam(m: MmuView, i: int, k: int) -> u8 {
    m.read((0xFE00 + 4 * i + k) as u16)
}

/// The colour key of sprite `i` at screen column `x` of scanline `line`.
pub open spec fn sprite_key(m: MmuView, i: int, line: int, x: int) -> u8 {
    let sy = oam(m, i, 0) - 16;
    let sx = oam(m, i, 1) - 8;
    let attrs = oam(m, i, 3);
    let row = if attrs & FLAG_SPR_Y_FLIP == 0 {
        line - sy
    } else {
        7 - (line - sy)
    };
    let addr = 0x8000 + oam(m, i, 2) * 16 + row * 2;
    let px = x - sx;
    let bit = if attrs & FLAG_SPR_X_FLIP == 0 {
        7 - px
    } else {
        px
    };
    tile_key(m.read(addr as u16), m.read((addr + 1) as u16), bit as u8)
}

/// Whether sprite `i` puts a pixel at column `x` of scanline `line`, over a
/// background pixel of key `bgkey`.
pub open spec fn sprite_draws(m: MmuView, i: int, line: int, x: int, bgkey: u8) -> bool {
    let sy = oam(m, i, 0) - 16;
    let sx = oam(m, i, 1) - 8;
    &&& sy <= line < sy + 8
    &&& sx <= x < sx + 8
    &&& sprite_key(m, i, line, x) != 0
    &&& (oam(m, i, 3) & FLAG_SPR_IN_BACKGROUND == 0 || bgkey == 0)
}

/// The grey level of sprite `i` at column `x`, through OBP0 or OBP1.
pub open spec fn sprite_level(m: MmuView, i: int, line: int, x: int) -> u8 {
    let pal = if oam(m, i, 3) & FLAG_SPR_PALETTE == 0 {
        m.read(REG_SPR_PALETTE_0)
    } else {
        m.read(REG_SPR_PALETTE_1)
    };
    level(shade(pal, sprite_key(m, i, line, x)))
}

/// The level of the lowest-indexed sprite from `n` on that draws at column `x`.
pub open spec fn top_sprite(m: MmuView, line: int, x: int, bgkey: u8, n: int) -> Option<u8>
    decreases 40 - n,
{
    if n >= 40 || n < 0 {
        None
    } else if sprite_draws(m, n, line, x, bgkey) {
        Some(sprite_level(m, n, line, x))
    } else {
        top_sprite(m, line, x, bgkey, n + 1)
    }
}

/// While sprite `i` is drawn column by column: pixel `x` shows the sprite if it
/// lies in the columns `lo..hi` done so far and the sprite draws there, and is
/// unchanged from `fb1` otherwise.
spec fn sprite_progress(
    fb: Seq<u8>,
    fb1: Seq<u8>,
    m: MmuView,
    i: int,
    line: int,
    x: int,
    bgkey: u8,
    lo: int,
    hi: int,
) -> bool {
    if lo <= x < hi && sprite_draws(m, i, line, x, bgkey) {
        pixel_is(fb, line, x, sprite_level(m, i, line, x))
    } else {
        pixel_same(fb, fb1, line, x)
    }
}

/// Pixel `x` shows the top sprite from `n` on, or else what `fb0` held there.
pub open spec fn sprites_shown(
    fb: Seq<u8>,
    fb0: Seq<u8>,
    m: MmuView,
    line: int,
    x: int,
    bgkey: u8,
    n: int,
) -> bool {
    match top_sprite(m, line, x, bgkey, n) {
        Some(v) => pixel_is(fb, line, x, v),
        None => pixel_same(fb, fb0, line, x),
    }
}

/// Pixel `x` of scanline `line` after rendering it over `fb0`: the top sprite
/// if one draws there, else the background when it is enabled, else unchanged.
pub open spec fn scan_pixel(fb: Seq<u8>, fb0: Seq<u8>, m: MmuView, line: u8, x: int) -> bool {
    let lcdc = m.read(REG_LCD_GPU_CONTROL);
    let bg_on = lcdc & FLAG_CONT_BG_ON != 0;
    let bk = if bg_on {
        bg_key(m, lcdc, m.read(REG_SCROLL_Y), m.read(REG_SCROLL_X), line, x)
    } else {
        0
    };
    let top = if lcdc & FLAG_CONT_SPR_ON != 0 {
        top_sprite(m, line as int, x, bk, 0)
    } else {
        None
    };
    match top {
        Some(v) => pixel_is(fb, line as int, x, v),
        None => if bg_on {
            pixel_is(fb, line as int, x, level(shade(m.read(REG_BG_PALETTE), bk)))
        } else {
            pixel_same(fb, fb0, line as int, x)
        },
    }
}

/// Where mode `m` of scanline `line` starts within the frame, in T-cycles.
pub open spec fn mode_base(m: Mode, line: int) -> int {
    match m {
        Mode::ScOam => line * 456,
        Mode::ScVram => line * 456 + 80,
        Mode::HBlank => line * 456 + 252,
        Mode::VBlank => line * 456,
    }
}

/// Drawing points are mode boundaries: none lies strictly inside a mode's
/// span, and only the end of a VRAM scan is the drawing point of its own line.
proof fn lemma_render_points(m: Mode, line: int, w: int, l: int)
    requires
        m == Mode::VBlank ==> 144 <= line <= 153,
        m != Mode::VBlank ==> 0 <= line < 144,
        0 <= w <= 1,
        0 <= l < 144,
    ensures
        ({
            let b = mode_base(m, line) + FRAME_CYCLES * w;
            let e = b + duration(m);
            &&& !(b < render_point(l) < e) && !(b < render_point(l) + FRAME_CYCLES < e)
            &&& (render_point(l) == e || render_point(l) + FRAME_CYCLES == e) ==> (m
                == Mode::ScVram && l == line)
        }),
{
    if l < line {
        assert(render_point(l) <= line * 456 - 204);
    } else if l > line {
        assert(render_point(l) >= line * 456 + 708);
    }
}

/// A rendered pixel stays rendered when the framebuffer it was drawn over
/// agrees with another one at that pixel.
proof fn lemma_scan_pixel_base(fb: Seq<u8>, a: Seq<u8>, c: Seq<u8>, m: MmuView, l: int, x: int)
    requires
        0 <= l < 144,
        scan_pixel(fb, a, m, l as u8, x),
        pixel_same(a, c, l, x),
    ensures
        scan_pixel(fb, c, m, l as u8, x),
{
}

/// Whether a pixel counts as drawn depends on that pixel of the framebuffer alone.
proof fn lemma_scan_pixel_frame(fb: Seq<u8>, a: Seq<u8>, c: Seq<u8>, m: MmuView, l: int, x: int)
    requires
        0 <= l < 144,
        pixel_same(fb, a, l, x),
    ensures
        scan_pixel(a, c, m, l as u8, x) ==> scan_pixel(fb, c, m, l as u8, x),
        pixel_same(a, c, l, x) ==> pixel_same(fb, c, l, x),
{
}

/// Frame position at which scanline `l` is drawn: the end of its VRAM scan.
pub open spec fn render_point(l: int) -> int {
    l * 456 + 252
}

/// Whether frame positions in `(p, b]` pass the drawing point of scanline `l`.
pub open spec fn render_due(p: int, b: int, l: int) -> bool {
    (p < render_point(l) <= b) || (p < render_point(l) + FRAME_CYCLES <= b)
}

/// Pixel `x` of scanline `l` after a run of the state machine over frame
/// positions `(p, b]` from framebuffer `fb0`: drawn from memory `m` if the run
/// passed the line's drawing point, unchanged otherwise.
pub open spec fn stepped_pixel(
    fb: Seq<u8>,
    fb0: Seq<u8>,
    m: MmuView,
    p: int,
    b: int,
    l: int,
    x: int,
) -> bool {
    if render_due(p, b, l) {
        scan_pixel(fb, fb0, m, l as u8, x)
    } else {
        pixel_same(fb, fb0, l, x)
    }
}

/// The state of the picture processor as values.
pub struct GpuView {
    pub mode: Mode,
    pub mode_clock: u32,
    pub line: u8,
    pub fb: Seq<u8>,
}

impl GpuView {
    pub open spec fn wf(&self) -> bool {
        &&& self.fb.len() == FB_SIZE
        &&& self.mode == Mode::VBlank ==> 144 <= self.line <= 153
        &&& self.mode != Mode::VBlank ==> self.line < 144
        &&& self.mode_clock < duration(self.mode)
    }

    /// The position within the frame, in T-cycles: 0 at the start of line 0.
    pub open spec fn phase(&self) -> int {
        mode_base(self.mode, self.line as int) + self.mode_clock
    }
}

impl View for GPU {
    type V = GpuView;

    open spec fn view(&self) -> GpuView {
        GpuView { mode: self.mode, mode_clock: self.mode_clock, line: self.line, fb: self.fb@ }
    }
}

/// The frame position at which the next frame completes, seen from position `p`.
pub open spec fn vblank_point(p: int) -> int {
    if p < VBLANK_START {
        VBLANK_START as int
    } else {
        VBLANK_START + FRAME_CYCLES
    }
}

/// A returned frame as a sequence of bytes.
pub open spec fn frame_view(f: Option<Vec<u8>>) -> Option<Seq<u8>> {
    match f {
        Some(v) => Some(v@),
        None => None,
    }
}

/// What one step of `d` T-cycles does, from state `g` over memory `m` to state
/// `g2` over memory `m2`, returning frame `f`:
/// - the frame position advances by `d`, modulo a frame;
/// - a frame comes back exactly when VBlank starts within the step, and it holds
///   every scanline as drawn up to that moment;
/// - the lines whose drawing point the step passes are drawn from `m`, the
///   others keep their pixels;
/// - memory changes only by the VBlank bit of IF, when a frame completes, and
///   by the new line in LY.
pub open spec fn step_rel(
    g: GpuView,
    m: MmuView,
    d: int,
    g2: GpuView,
    m2: MmuView,
    f: Option<Seq<u8>>,
) -> bool {
    &&& g2.wf()
    &&& g2.phase() == (g.phase() + d) % (FRAME_CYCLES as int)
    &&& f.is_some() <==> frame_due(g.phase(), d)
    &&& f.is_some() ==> f.unwrap().len() == FB_SIZE
    &&& f.is_some() ==> forall|l: int, x: int|
        0 <= l < 144 && 0 <= x < 160 ==> #[trigger] stepped_pixel(
            f.unwrap(),
            g.fb,
            m,
            g.phase(),
            vblank_point(g.phase()),
            l,
            x,
        )
    &&& m2 == (if f.is_some() {
        m.write(REG_INTERRUPTS, m.read(REG_INTERRUPTS) | 0x01)
    } else {
        m
    }).write(REG_CURR_SCAN_LINE, g2.line)
    &&& forall|l: int, x: int|
        0 <= l < 144 && 0 <= x < 160 ==> #[trigger] stepped_pixel(
            g2.fb,
            g.fb,
            m,
            g.phase(),
            g.phase() + d,
            l,
            x,
        )
}

impl GPU {
    /// A copy of the framebuffer.
    fn copy_frame(&self) -> (r: Vec<u8>)
        ensures
            r@ == self.fb@,
    {
        let mut r: Vec<u8> = Vec::with_capacity(self.fb.len());
        let mut i: usize = 0;
        while i < self.fb.len()
            invariant
                i <= self.fb@.len(),
                r@ == self.fb@.subrange(0, i as int),
            decreases self.fb@.len() - i,
        {
            r.push(self.fb[i]);
            i = i + 1;
            proof {
                assert(r@ =~= self.fb@.subrange(0, i as int));
            }
        }
        proof {
            assert(r@ =~= self.fb@);
        }
        r
    }

    /// Modes and lines agree: the visible lines scan and blank horizontally,
    /// lines 144..=153 are VBlank.
    pub open spec fn shape(&self) -> bool {
        &&& self.fb@.len() == FB_SIZE
        &&& self.mode == Mode::VBlank ==> 144 <= self.line <= 153
        &&& self.mode != Mode::VBlank ==> self.line < 144
    }

    pub open spec fn wf(&self) -> bool {
        &&& self.shape()
        &&& self.mode_clock < duration(self.mode)
    }

    /// Where the current mode starts within the frame, in T-cycles.
    pub open spec fn base(&self) -> int {
        mode_base(self.mode, self.line as int)
    }

    /// The position within the frame, in T-cycles: 0 at the start of line 0.
    pub open spec fn phase(&self) -> int {
        self.base() + self.mode_clock
    }

    fn mode_duration(&self) -> (r: u32)
        ensures
            r == duration(self.mode),
    {
        match self.mode {
            Mode::ScOam => 80,
            Mode::ScVram => 172,
            Mode::HBlank => 204,
            Mode::VBlank => LINE_CYCLES,
        }
    }

    /// Advances the state machine by `delta_t` T-cycles, rendering each scanline
    /// as its VRAM scan ends. Returns a copy of the framebuffer when VBlank starts
    /// during the step, and then also sets the VBlank bit of IF. Always leaves
    /// the current line in LY.
    pub fn step(&mut self, mmu: &mut MMU, delta_t: u32) -> (frame: Option<Vec<u8>>)
        requires
            old(self).wf(),
            old(mmu)@.wf(),
            delta_t <= FRAME_CYCLES,
        ensures
            final(self).wf(),
            final(mmu)@.wf(),
            step_rel(
                old(self)@,
                old(mmu)@,
                delta_t as int,
                final(self)@,
                final(mmu)@,
                frame_view(frame),
            ),
            final(mmu)@.read(REG_CURR_SCAN_LINE) == final(self).line,
            final(self).line <= 153,
            final(mmu)@.in_bios == old(mmu)@.in_bios,
    {
        let ghost p0 = self.phase();
        let ghost fb0 = self.fb@;
        let ghost mut b: int = self.base();
        let ghost mut wraps: int = 0;
        self.mode_clock = self.mode_clock + delta_t;
        let mut frame: Option<Vec<u8>> = None;
        while self.mode_clock >= self.mode_duration()
            invariant
                self.shape(),
                mmu@.wf(),
                mmu@ == old(mmu)@,
                fb0 == old(self).fb@,
                forall|l: int, x: int|
                    0 <= l < 144 && 0 <= x < 160 ==> #[trigger] stepped_pixel(
                        self.fb@,
                        fb0,
                        mmu@,
                        p0,
                        b,
                        l,
                        x,
                    ),
                0 <= p0 < FRAME_CYCLES,
                delta_t <= FRAME_CYCLES,
                0 <= wraps <= 1,
                b == self.base() + FRAME_CYCLES * wraps,
                b + self.mode_clock == p0 + delta_t,
                b <= p0 ==> b + duration(self.mode) > p0,
                frame.is_some() == ((p0 < VBLANK_START <= b) || (p0 < VBLANK_START + FRAME_CYCLES
                    <= b)),
                frame.is_some() ==> frame.unwrap()@.len() == FB_SIZE,
                frame.is_some() ==> forall|l: int, x: int|
                    0 <= l < 144 && 0 <= x < 160 ==> #[trigger] stepped_pixel(
                        frame.unwrap()@,
                        fb0,
                        mmu@,
                        p0,
                        vblank_point(p0),
                        l,
                        x,
                    ),
            decreases self.mode_clock,
        {
            let dur = self.mode_duration();
            self.mode_clock = self.mode_clock - dur;
            let ghost mode0 = self.mode;
            let ghost line0 = self.line as int;
            let ghost wraps0 = wraps;
            let ghost b0 = b;
            let ghost fb1 = self.fb@;
            proof {
                b = b + dur;
            }
            match self.mode {
                Mode::ScOam => {
                    self.mode = Mode::ScVram;
                },
                Mode::ScVram => {
                    self.mode = Mode::HBlank;
                    self.renderscan(mmu);
                },
                Mode::HBlank => {
                    self.line = self.line + 1;
                    if self.line == 144 {
                        self.mode = Mode::VBlank;
                        frame = Some(self.copy_frame());
                    } else {
                        self.mode = Mode::ScOam;
                    }
                },
                Mode::VBlank => {
                    self.line = self.line + 1;
                    if self.line > 153 {
                        self.mode = Mode::ScOam;
                        self.line = 0;
                        proof {
                            wraps = wraps + 1;
                        }
                    }
                },
            }
            proof {
                assert forall|l: int, x: int| 0 <= l < 144 && 0 <= x < 160 implies #[trigger] stepped_pixel(
                    self.fb@,
                    fb0,
                    mmu@,
                    p0,
                    b,
                    l,
                    x,
                ) by {
                    lemma_render_points(mode0, line0, wraps0, l);
                    assert(stepped_pixel(fb1, fb0, mmu@, p0, b0, l, x));
                    if mode0 == Mode::ScVram && l == line0 {
                        assert(scan_pixel(self.fb@, fb1, mmu@, l as u8, x));
                        lemma_scan_pixel_base(self.fb@, fb1, fb0, mmu@, l, x);
                    } else {
                        if mode0 == Mode::ScVram {
                            let i = (l * 160 + x) * 3;
                            assert(self.fb@[i] == fb1[i]);
                            assert(self.fb@[i + 1] == fb1[i + 1]);
                            assert(self.fb@[i + 2] == fb1[i + 2]);
                        }
                        lemma_scan_pixel_frame(self.fb@, fb1, fb0, mmu@, l, x);
                    }
                }
            }
        }
        proof {
            assert forall|l: int, x: int| 0 <= l < 144 && 0 <= x < 160 implies #[trigger] stepped_pixel(
                self.fb@,
                old(self).fb@,
                old(mmu)@,
                p0,
                p0 + delta_t,
                l,
                x,
            ) by {
                lemma_render_points(self.mode, self.line as int, wraps, l);
                assert(stepped_pixel(self.fb@, fb0, mmu@, p0, b, l, x));
            }
            let n = FRAME_CYCLES as int;
            let p1 = self.phase();
            assert(p1 == p0 + delta_t - n * wraps);
            assert(0 <= p1 < n);
            assert(p1 == (p0 + delta_t) % n);
        }
        if frame.is_some() {
            let iflag = mmu.rb(REG_INTERRUPTS);
            mmu.wb(REG_INTERRUPTS, iflag | 0x01);
        }
        mmu.wb(REG_CURR_SCAN_LINE, self.line);
        frame
    }

    /// Renders the current scanline into the framebuffer: background, then sprites.
    fn renderscan(&mut self, mmu: &MMU)
        requires
            old(self).fb@.len() == FB_SIZE,
            old(self).line < 144,
            mmu@.wf(),
        ensures
            final(self).mode == old(self).mode,
            final(self).mode_clock == old(self).mode_clock,
            final(self).line == old(self).line,
            same_outside_line(final(self).fb@, old(self).fb@, old(self).line as int),
            forall|x: int|
                0 <= x < 160 ==> #[trigger] scan_pixel(
                    final(self).fb@,
                    old(self).fb@,
                    mmu@,
                    old(self).line,
                    x,
                ),
    {
        let lcdc = mmu.rb(REG_LCD_GPU_CONTROL);
        let ghost fb0 = self.fb@;
        let ghost line = self.line;
        let mut keys: Vec<u8> = Vec::new();
        if lcdc & FLAG_CONT_BG_ON != 0 {
            keys = self.render_background(mmu, lcdc);
        } else {
            let mut i: usize = 0;
            while i < SCREEN_W
                invariant
                    i <= SCREEN_W,
                    keys@.len() == i,
                    forall|j: int| 0 <= j < i ==> keys@[j] == 0,
                decreases SCREEN_W - i,
            {
                keys.push(0);
                i = i + 1;
            }
        }
        let ghost fb_bg = self.fb@;
        if lcdc & FLAG_CONT_SPR_ON != 0 {
            self.render_sprites(mmu, &keys);
        }
        proof {
            assert forall|x: int| 0 <= x < 160 implies #[trigger] scan_pixel(
                self.fb@,
                fb0,
                mmu@,
                line,
                x,
            ) by {
                if lcdc & FLAG_CONT_BG_ON != 0 {
                    assert(pixel_is(
                        fb_bg,
                        line as int,
                        x,
                        level(
                            shade(
                                mmu@.read(REG_BG_PALETTE),
                                bg_key(
                                    mmu@,
                                    lcdc,
                                    mmu@.read(REG_SCROLL_Y),
                                    mmu@.read(REG_SCROLL_X),
                                    line,
                                    x,
                                ),
                            ),
                        ),
                    ));
                }
                if lcdc & FLAG_CONT_SPR_ON != 0 {
                    assert(sprites_shown(self.fb@, fb_bg, mmu@, line as int, x, keys@[x], 0));
                }
            }
        }
    }
}

impl GPU {
    /// Sets all three channels of pixel `x` on the current scanline to `v`.
    fn plot(&mut self, x: usize, v: u8)
        requires
            old(self).fb@.len() == FB_SIZE,
            old(self).line < 144,
            x < 160,
        ensures
            final(self).fb@ == old(self).fb@.update(((old(self).line * 160 + x) * 3) as int, v).update(
                ((old(self).line * 160 + x) * 3 + 1) as int,
                v,
            ).update(((old(self).line * 160 + x) * 3 + 2) as int, v),
            pixel_is(final(self).fb@, old(self).line as int, x as int, v),
            same_outside_line(final(self).fb@, old(self).fb@, old(self).line as int),
            final(self).line == old(self).line,
            final(self).mode == old(self).mode,
            final(self).mode_clock == old(self).mode_clock,
    {
        let i = (self.line as usize * 160 + x) * 3;
        self.fb.set(i, v);
        self.fb.set(i + 1, v);
        self.fb.set(i + 2, v);
    }

    /// Draws the background row of the current scanline and returns each
    /// pixel's colour key, which sprite priority needs.
    fn render_background(&mut self, mmu: &MMU, lcdc: u8) -> (keys: Vec<u8>)
        requires
            old(self).fb@.len() == FB_SIZE,
            old(self).line < 144,
            mmu@.wf(),
        ensures
            final(self).line == old(self).line,
            final(self).mode == old(self).mode,
            final(self).mode_clock == old(self).mode_clock,
            same_outside_line(final(self).fb@, old(self).fb@, old(self).line as int),
            keys@.len() == 160,
            ({
                let bgp = mmu@.read(REG_BG_PALETTE);
                let scy = mmu@.read(REG_SCROLL_Y);
                let scx = mmu@.read(REG_SCROLL_X);
                forall|x: int|
                    0 <= x < 160 ==> {
                        &&& keys@[x] == bg_key(mmu@, lcdc, scy, scx, old(self).line, x)
                        &&& #[trigger] pixel_is(
                            final(self).fb@,
                            old(self).line as int,
                            x,
                            level(shade(bgp, bg_key(mmu@, lcdc, scy, scx, old(self).line, x))),
                        )
                    }
            }),
    {
        let palette = get_palette(mmu, REG_BG_PALETTE);
        let scy = mmu.rb(REG_SCROLL_Y);
        let scx = mmu.rb(REG_SCROLL_X);
        let map_base: u16 = if lcdc & FLAG_CONT_BG_MAP != 0 {
            0x9C00
        } else {
            0x9800
        };
        let line = self.line;
        let y: u16 = (line as u16 + scy as u16) % 256;
        let ghost bgp = mmu@.read(REG_BG_PALETTE);
        let ghost fb0 = self.fb@;
        let mut keys: Vec<u8> = Vec::new();
        let mut x: usize = 0;
        while x < SCREEN_W
            invariant
                x <= SCREEN_W,
                mmu@.wf(),
                self.fb@.len() == FB_SIZE,
                self.line == line,
                line < 144,
                self.mode == old(self).mode,
                self.mode_clock == old(self).mode_clock,
                fb0 == old(self).fb@,
                same_outside_line(self.fb@, fb0, line as int),
                keys@.len() == x,
                bgp == mmu@.read(REG_BG_PALETTE),
                scy == mmu@.read(REG_SCROLL_Y),
                scx == mmu@.read(REG_SCROLL_X),
                y == (line + scy) % 256,
                map_base == (if lcdc & FLAG_CONT_BG_MAP != 0 {
                    0x9C00u16
                } else {
                    0x9800u16
                }),
                forall|k: int| 0 <= k < 4 ==> palette@[k] == level(shade(bgp, k as u8)),
                forall|j: int| 0 <= j < x ==> keys@[j] == bg_key(mmu@, lcdc, scy, scx, line, j),
                forall|j: int|
                    0 <= j < x ==> #[trigger] pixel_is(
                        self.fb@,
                        line as int,
                        j,
                        level(shade(bgp, bg_key(mmu@, lcdc, scy, scx, line, j))),
                    ),
            decreases SCREEN_W - x,
        {
            let sx: u16 = (x as u16 + scx as u16) % 256;
            let id = mmu.rb(map_base + (y / 8) * 32 + sx / 8) as u16;
            let tile: u16 = if lcdc & FLAG_CONT_BG_SET == 0 && id < 128 {
                id + 256
            } else {
                id
            };
            let addr: u16 = 0x8000 + tile * 16 + (y % 8) * 2;
            let b1 = mmu.rb(addr);
            let b2 = mmu.rb(addr + 1);
            let key = tilerow_n_to_color(b1, b2, (7 - sx % 8) as u8);
            keys.push(key);
            let ghost before = self.fb@;
            self.plot(x, palette[key as usize]);
            proof {
                assert forall|j: int| 0 <= j < x implies #[trigger] pixel_is(
                    self.fb@,
                    line as int,
                    j,
                    level(shade(bgp, bg_key(mmu@, lcdc, scy, scx, line, j))),
                ) by {
                    assert(pixel_is(
                        before,
                        line as int,
                        j,
                        level(shade(bgp, bg_key(mmu@, lcdc, scy, scx, line, j))),
                    ));
                }
                assert forall|i: int|
                    0 <= i < self.fb@.len() && !(line * 480 <= i < line * 480 + 480) implies #[trigger] self.fb@[i]
                    == fb0[i] by {
                    assert(before[i] == fb0[i]);
                }
            }
            x = x + 1;
        }
        keys
    }

    /// Draws the sprites that cross the current scanline, over the background
    /// keys `keys`. Key 0 is transparent; a sprite with the priority bit only
    /// shows where the background key is 0; a lower OAM index is drawn on top.
    fn render_sprites(&mut self, mmu: &MMU, keys: &Vec<u8>)
        requires
            old(self).fb@.len() == FB_SIZE,
            old(self).line < 144,
            mmu@.wf(),
            keys@.len() == 160,
        ensures
            final(self).line == old(self).line,
            final(self).mode == old(self).mode,
            final(self).mode_clock == old(self).mode_clock,
            same_outside_line(final(self).fb@, old(self).fb@, old(self).line as int),
            forall|x: int|
                0 <= x < 160 ==> #[trigger] sprites_shown(
                    final(self).fb@,
                    old(self).fb@,
                    mmu@,
                    old(self).line as int,
                    x,
                    keys@[x],
                    0,
                ),
    {
        let line = self.line as i32;
        let ghost fb0 = self.fb@;
        let mut n: u16 = 40;
        while n > 0
            invariant
                n <= 40,
                mmu@.wf(),
                self.fb@.len() == FB_SIZE,
                self.line == old(self).line,
                line == self.line,
                line < 144,
                self.mode == old(self).mode,
                self.mode_clock == old(self).mode_clock,
                same_outside_line(self.fb@, fb0, line as int),
                fb0 == old(self).fb@,
                keys@.len() == 160,
                forall|x: int|
                    0 <= x < 160 ==> #[trigger] sprites_shown(
                        self.fb@,
                        fb0,
                        mmu@,
                        line as int,
                        x,
                        keys@[x],
                        n as int,
                    ),
            decreases n,
        {
            n = n - 1;
            let ghost fb1 = self.fb@;
            let base: u16 = 0xFE00 + n * 4;
            let sp_y = mmu.rb(base) as i32 - 16;
            let sp_x = mmu.rb(base + 1) as i32 - 8;
            let tile = mmu.rb(base + 2) as u16;
            let attrs = mmu.rb(base + 3);
            let ghost i = n as int;
            assert(sp_y == oam(mmu@, i, 0) - 16);
            assert(sp_x == oam(mmu@, i, 1) - 8);
            if sp_y <= line && line < sp_y + 8 {
                let palette = if attrs & FLAG_SPR_PALETTE == 0 {
                    get_palette(mmu, REG_SPR_PALETTE_0)
                } else {
                    get_palette(mmu, REG_SPR_PALETTE_1)
                };
                let row: u16 = if attrs & FLAG_SPR_Y_FLIP == 0 {
                    (line - sp_y) as u16
                } else {
                    (7 - (line - sp_y)) as u16
                };
                let addr: u16 = 0x8000 + tile * 16 + row * 2;
                let b1 = mmu.rb(addr);
                let b2 = mmu.rb(addr + 1);
                let ghost pal = if attrs & FLAG_SPR_PALETTE == 0 {
                    mmu@.read(REG_SPR_PALETTE_0)
                } else {
                    mmu@.read(REG_SPR_PALETTE_1)
                };
                let mut px: i32 = 0;
                while px < 8
                    invariant
                        0 <= px <= 8,
                        -8 <= sp_x <= 247,
                        self.fb@.len() == FB_SIZE,
                        self.line == old(self).line,
                        line == self.line,
                        line < 144,
                        self.mode == old(self).mode,
                        self.mode_clock == old(self).mode_clock,
                        same_outside_line(self.fb@, fb0, line as int),
                        keys@.len() == 160,
                        mmu@.wf(),
                        i == n,
                        sp_y == oam(mmu@, i, 0) - 16,
                        sp_x == oam(mmu@, i, 1) - 8,
                        sp_y <= line < sp_y + 8,
                        attrs == oam(mmu@, i, 3),
                        tile == oam(mmu@, i, 2),
                        row == (if attrs & FLAG_SPR_Y_FLIP == 0 {
                            line - sp_y
                        } else {
                            7 - (line - sp_y)
                        }),
                        addr == 0x8000 + tile * 16 + row * 2,
                        b1 == mmu@.read(addr),
                        b2 == mmu@.read((addr + 1) as u16),
                        forall|k: int| 0 <= k < 4 ==> palette@[k] == level(shade(pal, k as u8)),
                        pal == (if attrs & FLAG_SPR_PALETTE == 0 {
                            mmu@.read(REG_SPR_PALETTE_0)
                        } else {
                            mmu@.read(REG_SPR_PALETTE_1)
                        }),
                        forall|x: int|
                            0 <= x < 160 ==> #[trigger] sprites_shown(
                                fb1,
                                fb0,
                                mmu@,
                                line as int,
                                x,
                                keys@[x],
                                n + 1,
                            ),
                        forall|x: int|
                            0 <= x < 160 ==> #[trigger] sprite_progress(
                                self.fb@,
                                fb1,
                                mmu@,
                                i,
                                line as int,
                                x,
                                keys@[x],
                                sp_x as int,
                                sp_x + px,
                            ),
                    decreases 8 - px,
                {
                    let sx = sp_x + px;
                    let ghost before = self.fb@;
                    if 0 <= sx && sx < 160 {
                        let bit: u8 = if attrs & FLAG_SPR_X_FLIP == 0 {
                            (7 - px) as u8
                        } else {
                            px as u8
                        };
                        let key = tilerow_n_to_color(b1, b2, bit);
                        assert(key == sprite_key(mmu@, i, line as int, sx as int));
                        let draw = key != 0 && (attrs & FLAG_SPR_IN_BACKGROUND == 0
                            || keys[sx as usize] == 0);
                        assert(draw == sprite_draws(mmu@, i, line as int, sx as int, keys@[sx as int]));
                        if draw {
                            self.plot(sx as usize, palette[key as usize]);
                            proof {
                                assert(palette@[key as int] == sprite_level(mmu@, i, line as int, sx as int));
                                assert forall|j: int|
                                    0 <= j < self.fb@.len() && !(line * 480 <= j < line * 480
                                        + 480) implies #[trigger] self.fb@[j] == fb0[j] by {
                                    assert(before[j] == fb0[j]);
                                }
                            }
                        }
                        proof {
                            assert forall|x: int| 0 <= x < 160 && x != sx implies #[trigger] pixel_same(
                                self.fb@,
                                before,
                                line as int,
                                x,
                            ) by {
                                assert((line * 160 + x) * 3 != (line * 160 + sx) * 3);
                            }
                        }
                    }
                    proof {
                        assert forall|x: int| 0 <= x < 160 implies #[trigger] sprite_progress(
                            self.fb@,
                            fb1,
                            mmu@,
                            i,
                            line as int,
                            x,
                            keys@[x],
                            sp_x as int,
                            sp_x + px + 1,
                        ) by {
                            assert(sprite_progress(
                                before,
                                fb1,
                                mmu@,
                                i,
                                line as int,
                                x,
                                keys@[x],
                                sp_x as int,
                                sp_x + px,
                            ));
                            if x != sx {
                                assert(pixel_same(self.fb@, before, line as int, x));
                            }
                        }
                    }
                    px = px + 1;
                }
                proof {
                    assert forall|x: int| 0 <= x < 160 implies #[trigger] sprites_shown(
                        self.fb@,
                        fb0,
                        mmu@,
                        line as int,
                        x,
                        keys@[x],
                        i,
                    ) by {
                        assert(sprites_shown(fb1, fb0, mmu@, line as int, x, keys@[x], i + 1));
                        assert(sprite_progress(
                            self.fb@,
                            fb1,
                            mmu@,
                            i,
                            line as int,
                            x,
                            keys@[x],
                            sp_x as int,
                            sp_x + 8,
                        ));
                    }
                }
            } else {
                proof {
                    assert forall|x: int| 0 <= x < 160 implies #[trigger] sprites_shown(
                        self.fb@,
                        fb0,
                        mmu@,
                        line as int,
                        x,
                        keys@[x],
                        i,
                    ) by {
                        assert(sprites_shown(fb1, fb0, mmu@, line as int, x, keys@[x], i + 1));
                        assert(!sprite_draws(mmu@, i, line as int, x, keys@[x]));
                    }
                }
            }
        }
    }
}

/// The grey levels that the palette register at `addr` gives to the four colour keys.
fn get_palette(mmu: &MMU, addr: u16) -> (p: [u8; 4])
    requires
        mmu@.wf(),
    ensures
        forall|k: int| 0 <= k < 4 ==> p@[k] == level(shade(mmu@.read(addr), k as u8)),
{
    let raw = mmu.rb(addr);
    let p = [shade_level(raw, 0), shade_level(raw, 1), shade_level(raw, 2), shade_level(raw, 3)];
    proof {
        assert forall|k: int| 0 <= k < 4 implies p@[k] == level(shade(raw, k as u8)) by {
            if k == 0 {
            } else if k == 1 {
            } else if k == 2 {
            } else {
            }
        }
    }
    p
}

/// The grey level that palette `pal` gives to colour key `key`.
fn shade_level(pal: u8, key: u8) -> (v: u8)
    requires
        key < 4,
    ensures
        v == level(shade(pal, key)),
{
    let s = (pal >> (2 * key)) & 3;
    if s == 0 {
        255
    } else if s == 1 {
        192
    } else if s == 2 {
        96
    } else {
        0
    }
}

/// The colour key of bit `n` of a tile row whose bytes are `b1` (low bits) and `b2` (high bits).
fn tilerow_n_to_color(b1: u8, b2: u8, n: u8) -> (k: u8)
    requires
        n < 8,
    ensures
        k == tile_key(b1, b2, n),
        k < 4,
{
    proof {
        lemma_tile_key_bound(b1, b2, n);
    }
    ((b1 >> n) & 1) | (((b2 >> n) & 1) << 1u8)
}

proof fn lemma_tile_key_bound(b1: u8, b2: u8, n: u8)
    by (bit_vector)
    ensures
        ((b1 >> n) & 1) | (((b2 >> n) & 1) << 1u8) < 4,
{
}

/// A processor at the start of line 0 with a blank framebuffer.
pub fn new_gpu() -> (g: GPU)
    ensures
        g.wf(),
        g.phase() == 0,
        g.line == 0,
        g.mode == Mode::ScOam,
{
    let mut fb: Vec<u8> = Vec::with_capacity(FB_SIZE);
    let mut i: usize = 0;
    while i < FB_SIZE
        invariant
            i <= FB_SIZE,
            fb@.len() == i,
        decreases FB_SIZE - i,
    {
        fb.push(0);
        i = i + 1;
    }
    GPU { mode: Mode::ScOam, mode_clock: 0, line: 0, fb }
}

/// Palette mapping: colour key `k` shows the shade held in bits `2k`, `2k + 1` of the palette.
pub proof fn lemma_palette_round_trip(pal: u8)
    by (bit_vector)
    ensures
        shade(pal, 0) == pal & 3,
        shade(pal, 1) == (pal >> 2u8) & 3,
        shade(pal, 2) == (pal >> 4u8) & 3,
        shade(pal, 3) == (pal >> 6u8) & 3,
{
}

/// Sum of a run of step lengths.
pub open spec fn total(ds: Seq<int>) -> int
    decreases ds.len(),
{
    if ds.len() == 0 {
        0
    } else {
        ds[0] + total(ds.drop_first())
    }
}

/// How many frames a run of steps of lengths `ds` emits, starting at frame position `p`.
pub open spec fn frames_over(p: int, ds: Seq<int>) -> int
    decreases ds.len(),
{
    if ds.len() == 0 {
        0
    } else {
        (if frame_due(p, ds[0]) {
            1int
        } else {
            0int
        }) + frames_over((p + ds[0]) % (FRAME_CYCLES as int), ds.drop_first())
    }
}

/// How many VBlank starts lie at frame positions in `[0, x]`, counting
/// positions from the start of a frame on.
spec fn vblanks_upto(x: int) -> int {
    (x + FRAME_CYCLES - VBLANK_START) / (FRAME_CYCLES as int)
}

proof fn lemma_total_nonneg(ds: Seq<int>)
    requires
        forall|i: int| 0 <= i < ds.len() ==> 0 <= #[trigger] ds[i],
    ensures
        total(ds) >= 0,
    decreases ds.len(),
{
    if ds.len() > 0 {
        let rest = ds.drop_first();
        assert forall|i: int| 0 <= i < rest.len() implies 0 <= #[trigger] rest[i] by {
            assert(rest[i] == ds[i + 1]);
        }
        lemma_total_nonneg(rest);
    }
}

proof fn lemma_frames_counted(p: int, ds: Seq<int>)
    requires
        0 <= p,
        forall|i: int| 0 <= i < ds.len() ==> 0 <= #[trigger] ds[i] <= FRAME_CYCLES,
    ensures
        frames_over(p % (FRAME_CYCLES as int), ds) == vblanks_upto(p + total(ds)) - vblanks_upto(p),
    decreases ds.len(),
{
    let n = FRAME_CYCLES as int;
    if ds.len() > 0 {
        let d = ds[0];
        let rest = ds.drop_first();
        assert forall|i: int| 0 <= i < rest.len() implies 0 <= #[trigger] rest[i] <= FRAME_CYCLES by {
            assert(rest[i] == ds[i + 1]);
        }
        lemma_total_nonneg(rest);
        lemma_frames_counted(p + d, rest);
        let q = p / n;
        let r = p % n;
        assert(p == q * n + r);
        lemma_mod_multiples_vanish(q, r + d, n);
        assert(q * n + (r + d) == p + d);
        assert((r + d) % n == (p + d) % n);
        lemma_hoist_over_denominator(r + n - VBLANK_START, q, n as nat);
        lemma_hoist_over_denominator(r + d + n - VBLANK_START, q, n as nat);
        assert(vblanks_upto(p) == q + (r + n - VBLANK_START) / n);
        assert(vblanks_upto(p + d) == q + (r + d + n - VBLANK_START) / n);
        if r < VBLANK_START {
            assert((r + n - VBLANK_START) / n == 0);
        } else {
            assert((r + n - VBLANK_START) / n == 1);
        }
        if r + d < VBLANK_START {
            assert((r + d + n - VBLANK_START) / n == 0);
        } else if r + d < VBLANK_START + n {
            assert((r + d + n - VBLANK_START) / n == 1);
        } else {
            assert((r + d + n - VBLANK_START) / n == 2);
        }
    }
}

/// Frame cadence: from any frame position, a run of steps of at most a frame
/// each, lasting `k` frames' worth of T-cycles in all, emits exactly `k` frames.
pub proof fn lemma_frame_cadence(p: int, ds: Seq<int>, k: nat)
    requires
        0 <= p < FRAME_CYCLES,
        forall|i: int| 0 <= i < ds.len() ==> 0 <= #[trigger] ds[i] <= FRAME_CYCLES,
        total(ds) == k * FRAME_CYCLES,
    ensures
        frames_over(p, ds) == k,
{
    let n = FRAME_CYCLES as int;
    lemma_frames_counted(p, ds);
    assert(p % n == p);
    lemma_hoist_over_denominator(p + n - VBLANK_START, k as int, n as nat);
    assert(k * n == k * FRAME_CYCLES);
}

/// Palette mapping as drawn: with the background on (LCDC 0x91: tiles at
/// 0x8000, map at 0x9800, sprites off), no scroll, map entry 0 and the first row
/// of tile 0 holding colour keys 0, 1, 2, 3 in columns 0..3 (bytes 0x50, 0x30),
/// pixel `x` of line 0 is drawn in the shade held in bits `2x`, `2x + 1` of BGP.
pub proof fn lemma_palette_drawn(fb: Seq<u8>, fb0: Seq<u8>, m: MmuView, x: int)
    requires
        m.wf(),
        0 <= x < 4,
        m.read(REG_LCD_GPU_CONTROL) == 0x91,
        m.read(REG_SCROLL_X) == 0,
        m.read(REG_SCROLL_Y) == 0,
        m.read(0x9800) == 0,
        m.read(0x8000) == 0x50,
        m.read(0x8001) == 0x30,
        scan_pixel(fb, fb0, m, 0, x),
    ensures
        pixel_is(fb, 0, x, level((m.read(REG_BG_PALETTE) >> (2 * x) as u8) & 3)),
{
    let lcdc = m.read(REG_LCD_GPU_CONTROL);
    assert(lcdc & FLAG_CONT_BG_ON != 0 && lcdc & FLAG_CONT_SPR_ON == 0 && lcdc & FLAG_CONT_BG_MAP
        == 0 && lcdc & FLAG_CONT_BG_SET != 0) by (bit_vector)
        requires
            lcdc == 0x91,
    ;
    assert(tile_key(0x50, 0x30, 7) == 0 && tile_key(0x50, 0x30, 6) == 1 && tile_key(0x50, 0x30, 5)
        == 2 && tile_key(0x50, 0x30, 4) == 3) by (bit_vector);
    assert(bg_key(m, lcdc, 0, 0, 0, x) == x);
}

} // verus!
