use vstd::prelude::*;

use crate::cpu::{CPU, exec_effect};
use crate::gpu::{
    FB_SIZE, FRAME_CYCLES, GPU, GpuView, VBLANK_START, frame_view, step_rel, total,
};
use crate::mmu::{MMU, MmuView};

verus! {

/// Round `i` of a run of the frame loop: with STOP clear and the frame's budget
/// not yet spent, `exec` takes processor and memory from `cs[i]`, `ms[i]` to
/// `cs[i + 1]`, `mids[i]` in `ts[i]` T-cycles, then the picture processor steps
/// by those cycles from `gs[i]` to `gs[i + 1]`, leaving memory `ms[i + 1]` and
/// returning `fs[i]`.
pub open spec fn engine_round(
    cs: Seq<CPU>,
    mids: Seq<MmuView>,
    ms: Seq<MmuView>,
    gs: Seq<GpuView>,
    ts: Seq<int>,
    fs: Seq<Option<Seq<u8>>>,
    i: int,
) -> bool {
    let e = exec_effect(cs[i], ms[i]);
    &&& !cs[i].stop
    &&& total(ts.take(i)) < FRAME_CYCLES
    &&& cs[i + 1] == e.0
    &&& mids[i] == e.1
    &&& ts[i] == 4 * e.2
    &&& step_rel(gs[i], mids[i], ts[i], gs[i + 1], ms[i + 1], fs[i])
}

/// A run of rounds of the frame loop: `ts.len()` rounds, each as `engine_round` says.
pub open spec fn engine_trace(
    cs: Seq<CPU>,
    mids: Seq<MmuView>,
    ms: Seq<MmuView>,
    gs: Seq<GpuView>,
    ts: Seq<int>,
    fs: Seq<Option<Seq<u8>>>,
) -> bool {
    let k = ts.len();
    &&& cs.len() == k + 1
    &&& ms.len() == k + 1
    &&& gs.len() == k + 1
    &&& mids.len() == k
    &&& fs.len() == k
    &&& forall|i: int| 0 <= i < k ==> #[trigger] engine_round(cs, mids, ms, gs, ts, fs, i)
}

/// The last frame that a run of rounds returned, if any.
pub open spec fn last_frame(fs: Seq<Option<Seq<u8>>>) -> Option<Seq<u8>>
    decreases fs.len(),
{
    if fs.len() == 0 {
        None
    } else if fs.last().is_some() {
        fs.last()
    } else {
        last_frame(fs.drop_last())
    }
}

/// A whole call of `run_frame`: rounds from the start states to the end states,
/// run until STOP is set or the T-cycles reach a frame's budget, returning the
/// last frame that a round completed.
pub open spec fn frame_run(
    c0: CPU,
    m0: MmuView,
    g0: GpuView,
    c1: CPU,
    m1: MmuView,
    g1: GpuView,
    frame: Option<Seq<u8>>,
    cs: Seq<CPU>,
    mids: Seq<MmuView>,
    ms: Seq<MmuView>,
    gs: Seq<GpuView>,
    ts: Seq<int>,
    fs: Seq<Option<Seq<u8>>>,
) -> bool {
    &&& engine_trace(cs, mids, ms, gs, ts, fs)
    &&& cs[0] == c0 && ms[0] == m0 && gs[0] == g0
    &&& cs.last() == c1 && ms.last() == m1 && gs.last() == g1
    &&& c1.stop || total(ts) >= FRAME_CYCLES
    &&& frame == last_frame(fs)
}

proof fn lemma_total_push(ts: Seq<int>, t: int)
    ensures
        total(ts.push(t)) == total(ts) + t,
    decreases ts.len(),
{
    if ts.len() > 0 {
        assert(ts.push(t).drop_first() =~= ts.drop_first().push(t));
        lemma_total_push(ts.drop_first(), t);
    } else {
        assert(ts.push(t).drop_first() =~= Seq::<int>::empty());
        assert(total(Seq::<int>::empty()) == 0);
        assert(ts.push(t)[0] == t);
    }
}

/// A trace grows by one round when the next round follows from its last states.
proof fn lemma_extend_trace(
    cs: Seq<CPU>,
    mids: Seq<MmuView>,
    ms: Seq<MmuView>,
    gs: Seq<GpuView>,
    ts: Seq<int>,
    fs: Seq<Option<Seq<u8>>>,
    c: CPU,
    mid: MmuView,
    m: MmuView,
    g: GpuView,
    t: int,
    f: Option<Seq<u8>>,
)
    requires
        engine_trace(cs, mids, ms, gs, ts, fs),
        !cs.last().stop,
        total(ts) < FRAME_CYCLES,
        exec_effect(cs.last(), ms.last()) == (c, mid, t / 4),
        t % 4 == 0,
        step_rel(gs.last(), mid, t, g, m, f),
    ensures
        engine_trace(cs.push(c), mids.push(mid), ms.push(m), gs.push(g), ts.push(t), fs.push(f)),
        total(ts.push(t)) == total(ts) + t,
        last_frame(fs.push(f)) == (if f.is_some() {
            f
        } else {
            last_frame(fs)
        }),
{
    let k = ts.len() as int;
    let cs2 = cs.push(c);
    let mids2 = mids.push(mid);
    let ms2 = ms.push(m);
    let gs2 = gs.push(g);
    let ts2 = ts.push(t);
    let fs2 = fs.push(f);
    assert(ts2.take(k) =~= ts);
    assert forall|i: int| 0 <= i < k + 1 implies #[trigger] engine_round(
        cs2,
        mids2,
        ms2,
        gs2,
        ts2,
        fs2,
        i,
    ) by {
        if i < k {
            assert(engine_round(cs, mids, ms, gs, ts, fs, i));
            assert(ts2.take(i) =~= ts.take(i));
        }
    }
    lemma_total_push(ts, t);
    assert(fs2.drop_last() =~= fs);
}

/// Executes one instruction and returns its T-cycles.
fn step_cpu(cpu: &mut CPU, mmu: &mut MMU) -> (t: u32)
    requires
        old(cpu).wf(),
        old(mmu)@.wf(),
    ensures
        final(cpu).wf(),
        final(mmu)@.wf(),
        4 <= t <= 44,
        ({
            let e = exec_effect(*old(cpu), old(mmu)@);
            *final(cpu) == e.0 && final(mmu)@ == e.1 && t == 4 * e.2
        }),
{
    let cycles = cpu.exec(mmu);
    cycles.1
}

/// Advancing frame position `(p0 + t) mod N` by `d` lands on `(p0 + t + d) mod N`.
proof fn lemma_phase_advance(p0: int, t: int, d: int)
    requires
        0 <= p0 < FRAME_CYCLES,
        0 <= t < FRAME_CYCLES,
        0 <= d <= FRAME_CYCLES,
    ensures
        ((p0 + t) % (FRAME_CYCLES as int) + d) % (FRAME_CYCLES as int) == (p0 + t + d) % (
        FRAME_CYCLES as int),
{
    let n = FRAME_CYCLES as int;
    if p0 + t < n {
        assert((p0 + t) % n == p0 + t);
    } else {
        assert((p0 + t) % n == p0 + t - n);
        if p0 + t + d < 2 * n {
            assert((p0 + t + d) % n == p0 + t + d - n);
            assert((p0 + t - n + d) % n == p0 + t + d - n);
        } else {
            assert((p0 + t + d) % n == p0 + t + d - 2 * n);
            assert((p0 + t - n + d) % n == p0 + t + d - 2 * n);
        }
    }
}

/// Runs one frame's budget of T-cycles: one instruction at a time, with the
/// picture processor advanced by the same cycles after each, until the cycles
/// reach 70224 or the STOP latch is set. Returns the last frame that was
/// completed; unless the processor stopped, the budget always completes one.
/// `frame_run` states the whole run, round by round.
pub fn run_frame(cpu: &mut CPU, mmu: &mut MMU, gpu: &mut GPU) -> (frame: Option<Vec<u8>>)
    requires
        old(cpu).wf(),
        old(mmu)@.wf(),
        old(gpu).wf(),
    ensures
        final(cpu).wf(),
        final(mmu)@.wf(),
        final(gpu).wf(),
        frame.is_some() ==> frame.unwrap()@.len() == FB_SIZE,
        !final(cpu).stop ==> frame.is_some(),
        exists|
            cs: Seq<CPU>,
            mids: Seq<MmuView>,
            ms: Seq<MmuView>,
            gs: Seq<GpuView>,
            ts: Seq<int>,
            fs: Seq<Option<Seq<u8>>>,
        |
            #[trigger] frame_run(
                *old(cpu),
                old(mmu)@,
                old(gpu)@,
                *final(cpu),
                final(mmu)@,
                final(gpu)@,
                frame_view(frame),
                cs,
                mids,
                ms,
                gs,
                ts,
                fs,
            ),
{
    let ghost p0 = gpu.phase();
    let ghost mut cs: Seq<CPU> = seq![*cpu];
    let ghost mut mids: Seq<MmuView> = Seq::empty();
    let ghost mut ms: Seq<MmuView> = seq![mmu@];
    let ghost mut gs: Seq<GpuView> = seq![gpu@];
    let ghost mut ts: Seq<int> = Seq::empty();
    let ghost mut fs: Seq<Option<Seq<u8>>> = Seq::empty();
    let mut fclk: i64 = FRAME_CYCLES as i64;
    let mut frame: Option<Vec<u8>> = None;
    while fclk > 0
        invariant
            cpu.wf(),
            mmu@.wf(),
            gpu.wf(),
            -64 < fclk <= FRAME_CYCLES,
            0 <= p0 < FRAME_CYCLES,
            gpu.phase() == (p0 + (FRAME_CYCLES - fclk)) % (FRAME_CYCLES as int),
            frame.is_some() ==> frame.unwrap()@.len() == FB_SIZE,
            frame.is_none() ==> !(p0 < VBLANK_START <= p0 + (FRAME_CYCLES - fclk)) && !(p0
                < VBLANK_START + FRAME_CYCLES <= p0 + (FRAME_CYCLES - fclk)),
            engine_trace(cs, mids, ms, gs, ts, fs),
            cs[0] == *old(cpu),
            ms[0] == old(mmu)@,
            gs[0] == old(gpu)@,
            cs.last() == *cpu,
            ms.last() == mmu@,
            gs.last() == gpu@,
            total(ts) == FRAME_CYCLES - fclk,
            frame_view(frame) == last_frame(fs),
        ensures
            fclk <= 0 || cpu.stop,
        decreases fclk + 64,
    {
        if cpu.stop {
            break;
        }
        let ghost t = FRAME_CYCLES - fclk;
        let ghost c_before = *cpu;
        let ghost m_before = mmu@;
        let delta_t = step_cpu(cpu, mmu);
        let ghost m_mid = mmu@;
        let ghost g_before = gpu@;
        let done = gpu.step(mmu, delta_t);
        proof {
            lemma_phase_advance(p0, t, delta_t as int);
            lemma_extend_trace(cs, mids, ms, gs, ts, fs, *cpu, m_mid, mmu@, gpu@, delta_t as int, frame_view(done));
            let cs2 = cs.push(*cpu);
            let mids2 = mids.push(m_mid);
            let ms2 = ms.push(mmu@);
            let gs2 = gs.push(gpu@);
            let ts2 = ts.push(delta_t as int);
            let fs2 = fs.push(frame_view(done));
            cs = cs2;
            mids = mids2;
            ms = ms2;
            gs = gs2;
            ts = ts2;
            fs = fs2;
        }
        if done.is_some() {
            frame = done;
        }
        fclk = fclk - delta_t as i64;
    }
    proof {
        assert(frame_run(
            *old(cpu),
            old(mmu)@,
            old(gpu)@,
            *cpu,
            mmu@,
            gpu@,
            frame_view(frame),
            cs,
            mids,
            ms,
            gs,
            ts,
            fs,
        ));
    }
    frame
}

} // verus!
