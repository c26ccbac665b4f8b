use vstd::prelude::*;

use crate::options::AppOptions;

verus! {

/// The compute shaders a frame runs, in the order in which their kinds first appear.
#[derive(Clone, Copy, Debug)]
pub enum ComputeStage {
    /// Traces the rays of one cascade of radiance probes.
    GenerateCascade,
    /// Merges one cascade with the (already merged) cascade above it.
    MergeCascade,
    /// Interpolates the four nearest probes of cascade 0 into the image.
    FinalGather,
    /// Post-processes the gathered image into the presentable target.
    PostProcess,
}

/// The immediate data a cascade pass hands its shader: the cascade it works on and
/// the cursor position in window pixels.
#[derive(Clone, Copy, Debug)]
pub struct Immediates {
    pub cascade_index: u32,
    pub cursor_x: u32,
    pub cursor_y: u32,
}

/// One compute pass of a frame: which shader runs, what immediate data it gets, and
/// how many workgroups are dispatched along each axis.
#[derive(Clone, Copy, Debug)]
pub struct ComputeDispatch {
    pub stage: ComputeStage,
    pub immediates: Option<Immediates>,
    pub workgroups: (u32, u32, u32),
}

/// The side of the square workgroup that every compute shader of a frame declares.
pub const WORKGROUP_SIDE: u32 = 8;

/// Workgroups that a pass over a target of `dims` pixels dispatches: one per whole
/// `WORKGROUP_SIDE` x `WORKGROUP_SIDE` tile, and a single layer.
pub open spec fn workgroups_for(dims: (u32, u32)) -> (u32, u32, u32) {
    ((dims.0 / WORKGROUP_SIDE) as u32, (dims.1 / WORKGROUP_SIDE) as u32, 1u32)
}

/// A pass of `stage` on cascade `cascade_index`, handing its shader the cursor.
pub open spec fn cascade_dispatch(
    stage: ComputeStage,
    options: AppOptions,
    cursor: (u32, u32),
    cascade_index: u32,
) -> ComputeDispatch {
    ComputeDispatch {
        stage,
        immediates: Some(
            Immediates { cascade_index, cursor_x: cursor.0, cursor_y: cursor.1 },
        ),
        workgroups: workgroups_for(options.window_dimensions),
    }
}

/// A pass of `stage` that works on the whole image and takes no immediate data.
pub open spec fn plain_dispatch(stage: ComputeStage, options: AppOptions) -> ComputeDispatch {
    ComputeDispatch {
        stage,
        immediates: None,
        workgroups: workgroups_for(options.window_dimensions),
    }
}

/// The compute passes of one frame: every cascade is generated, from cascade 0 up;
/// then every cascade but the last is merged, from the highest one down to cascade 0;
/// then the final gather and the post-process pass run.
pub open spec fn frame_dispatches_of(options: AppOptions, cursor: (u32, u32)) -> Seq<ComputeDispatch> {
    let n = options.num_cascades as int;
    Seq::new(
        n as nat,
        |k: int| cascade_dispatch(ComputeStage::GenerateCascade, options, cursor, k as u32),
    ) + Seq::new(
        (n - 1) as nat,
        |k: int| cascade_dispatch(ComputeStage::MergeCascade, options, cursor, (n - 2 - k) as u32),
    ) + seq![
        plain_dispatch(ComputeStage::FinalGather, options),
        plain_dispatch(ComputeStage::PostProcess, options),
    ]
}

fn dispatch_for(stage: ComputeStage, options: &AppOptions, immediates: Option<Immediates>) -> (d:
    ComputeDispatch)
    ensures
        d == (ComputeDispatch {
            stage,
            immediates,
            workgroups: workgroups_for(options.window_dimensions),
        }),
{
    ComputeDispatch {
        stage,
        immediates,
        workgroups: (
            options.window_dimensions.0 / WORKGROUP_SIDE,
            options.window_dimensions.1 / WORKGROUP_SIDE,
            1,
        ),
    }
}

/// The four bytes of `v`, least significant first.
pub open spec fn le_bytes(v: u32) -> Seq<u8> {
    seq![
        (v % 0x100) as u8,
        ((v / 0x100) % 0x100) as u8,
        ((v / 0x1_0000) % 0x100) as u8,
        ((v / 0x100_0000) % 0x100) as u8,
    ]
}

/// The number that four bytes, least significant first, stand for.
pub open spec fn le_value(b: Seq<u8>) -> int {
    b[0] + 0x100 * b[1] + 0x1_0000 * b[2] + 0x100_0000 * b[3]
}

/// The bytes of a cascade pass's immediate data: the cascade index, then the cursor's
/// x and y, each as four little-endian bytes.
pub open spec fn immediate_bytes(imm: Immediates) -> Seq<u8> {
    le_bytes(imm.cascade_index) + le_bytes(imm.cursor_x) + le_bytes(imm.cursor_y)
}

/// The number of bytes of immediate data that a cascade pass hands its shader.
pub const IMMEDIATES_SIZE: u32 = 12;

fn push_le_bytes(out: &mut Vec<u8>, v: u32)
    ensures
        final(out)@ == old(out)@ + le_bytes(v),
{
    out.push((v % 0x100) as u8);
    out.push(((v / 0x100) % 0x100) as u8);
    out.push(((v / 0x1_0000) % 0x100) as u8);
    out.push(((v / 0x100_0000) % 0x100) as u8);
    assert(out@ =~= old(out)@ + le_bytes(v));
}

/// Encodes the immediate data of a cascade pass as the bytes its shader reads.
pub fn encode_immediates(imm: &Immediates) -> (bytes: Vec<u8>)
    ensures
        bytes@ == immediate_bytes(*imm),
        bytes@.len() == IMMEDIATES_SIZE,
{
    let mut bytes: Vec<u8> = Vec::new();
    push_le_bytes(&mut bytes, imm.cascade_index);
    push_le_bytes(&mut bytes, imm.cursor_x);
    push_le_bytes(&mut bytes, imm.cursor_y);
    assert(bytes@ =~= immediate_bytes(*imm));
    bytes
}


/// The shader gets back what a pass encodes: the twelve bytes split into three
/// little-endian words (least significant byte first) that are the cascade index,
/// the cursor's x and its y.
pub proof fn lemma_immediates_decode(imm: Immediates)
    ensures
        immediate_bytes(imm).len() == 12,
        le_value(immediate_bytes(imm).subrange(0, 4)) == imm.cascade_index,
        le_value(immediate_bytes(imm).subrange(4, 8)) == imm.cursor_x,
        le_value(immediate_bytes(imm).subrange(8, 12)) == imm.cursor_y,
        ({
            let b = immediate_bytes(imm);
            &&& b[0] + 0x100 * b[1] + 0x1_0000 * b[2] + 0x100_0000 * b[3] == imm.cascade_index
            &&& b[4] + 0x100 * b[5] + 0x1_0000 * b[6] + 0x100_0000 * b[7] == imm.cursor_x
            &&& b[8] + 0x100 * b[9] + 0x1_0000 * b[10] + 0x100_0000 * b[11] == imm.cursor_y
        }),
{
    let b = immediate_bytes(imm);
    assert(b.subrange(0, 4) =~= le_bytes(imm.cascade_index));
    assert(b.subrange(4, 8) =~= le_bytes(imm.cursor_x));
    assert(b.subrange(8, 12) =~= le_bytes(imm.cursor_y));
    lemma_le_value_of_bytes(imm.cascade_index);
    lemma_le_value_of_bytes(imm.cursor_x);
    lemma_le_value_of_bytes(imm.cursor_y);
}

/// Four little-endian bytes of a word stand for that word.
pub proof fn lemma_le_value_of_bytes(v: u32)
    ensures
        le_value(le_bytes(v)) == v,
{
    let b0 = v % 0x100;
    let b1 = (v / 0x100) % 0x100;
    let b2 = (v / 0x1_0000) % 0x100;
    let b3 = (v / 0x100_0000) % 0x100;
    assert(b0 + 0x100 * b1 + 0x1_0000 * b2 + 0x100_0000 * b3 == v) by (nonlinear_arith)
        requires
            b0 == v % 0x100,
            b1 == (v / 0x100) % 0x100,
            b2 == (v / 0x1_0000) % 0x100,
            b3 == (v / 0x100_0000) % 0x100,
            0 <= v < 0x1_0000_0000,
    ;
}

/// The kind of shader a pass runs.
pub open spec fn is_generate(d: ComputeDispatch) -> bool {
    d.stage is GenerateCascade
}

pub open spec fn is_merge(d: ComputeDispatch) -> bool {
    d.stage is MergeCascade
}

/// The cascade a pass works on, where it works on one.
pub open spec fn cascade_of(d: ComputeDispatch) -> int {
    match d.immediates {
        Some(imm) => imm.cascade_index as int,
        None => -1,
    }
}

/// Some pass of `p` generates cascade `c`.
pub open spec fn generates(p: Seq<ComputeDispatch>, c: int) -> bool {
    exists|i: int| 0 <= i < p.len() && is_generate(#[trigger] p[i]) && cascade_of(p[i]) == c
}

/// Some pass of `p` merges cascade `c`.
pub open spec fn merges(p: Seq<ComputeDispatch>, c: int) -> bool {
    exists|i: int| 0 <= i < p.len() && is_merge(#[trigger] p[i]) && cascade_of(p[i]) == c
}

/// What a frame of radiance cascades needs of its passes. There are `2n + 1` of them
/// for `n` cascades. Every cascade is generated exactly once, and every generation
/// comes before every merge. Every cascade but the highest is merged exactly once,
/// the highest never, and a cascade's merge comes right after the merge of the
/// cascade above it, so that merging runs top-down and ends at cascade 0. Every pass
/// that names a cascade names one that exists. The frame ends with the final gather,
/// then the post-process pass, and every pass covers the target in whole tiles.
pub proof fn lemma_frame_schedule(options: AppOptions, cursor: (u32, u32))
    requires
        options.num_cascades >= 1,
    ensures
        ({
            let p = frame_dispatches_of(options, cursor);
            let n = options.num_cascades as int;
            &&& p.len() == 2 * n + 1
            &&& forall|c: int| 0 <= c < n ==> #[trigger] generates(p, c)
            &&& forall|i: int, j: int|
                0 <= i < p.len() && 0 <= j < p.len() && is_generate(#[trigger] p[i]) && is_generate(
                    #[trigger] p[j],
                ) && cascade_of(p[i]) == cascade_of(p[j]) ==> i == j
            &&& forall|i: int, j: int|
                0 <= i < p.len() && 0 <= j < p.len() && is_generate(#[trigger] p[i]) && is_merge(
                    #[trigger] p[j],
                ) ==> i < j
            &&& forall|c: int| 0 <= c < n - 1 ==> #[trigger] merges(p, c)
            &&& forall|i: int, j: int|
                0 <= i < p.len() && 0 <= j < p.len() && is_merge(#[trigger] p[i]) && is_merge(
                    #[trigger] p[j],
                ) && cascade_of(p[i]) == cascade_of(p[j]) ==> i == j
            &&& forall|i: int|
                0 <= i < p.len() && is_merge(#[trigger] p[i]) ==> cascade_of(p[i]) < n - 1
            &&& forall|i: int, j: int|
                0 <= i < p.len() && 0 <= j < p.len() && is_merge(#[trigger] p[i]) && is_merge(
                    #[trigger] p[j],
                ) && cascade_of(p[i]) == cascade_of(p[j]) + 1 ==> j == i + 1
            &&& forall|i: int|
                0 <= i < p.len() && (#[trigger] p[i]).immediates is Some ==> 0 <= cascade_of(p[i]) < n
            &&& p[2 * n - 1].stage is FinalGather
            &&& p[2 * n].stage is PostProcess
            &&& forall|i: int|
                0 <= i < p.len() ==> (#[trigger] p[i]).workgroups == workgroups_for(
                    options.window_dimensions,
                )
        }),
{
    let p = frame_dispatches_of(options, cursor);
    let n = options.num_cascades as int;
    assert forall|c: int| 0 <= c < n implies #[trigger] generates(p, c) by {
        assert(is_generate(p[c]) && cascade_of(p[c]) == c);
    }
    assert forall|c: int| 0 <= c < n - 1 implies #[trigger] merges(p, c) by {
        let i = 2 * n - 2 - c;
        assert(is_merge(p[i]) && cascade_of(p[i]) == c);
    }
}

/// A pass dispatches one workgroup per whole tile of the target along each axis:
/// the tiles lie inside the target, and less than a tile of it is left uncovered.
pub proof fn lemma_workgroups_cover(dims: (u32, u32))
    ensures
        WORKGROUP_SIDE * workgroups_for(dims).0 <= dims.0 < WORKGROUP_SIDE * (workgroups_for(dims).0 + 1),
        WORKGROUP_SIDE * workgroups_for(dims).1 <= dims.1 < WORKGROUP_SIDE * (workgroups_for(dims).1 + 1),
        workgroups_for(dims).2 == 1,
{
}

/// Plans the compute passes of a frame drawn with `options` while the cursor stands at
/// `cursor`. A frame needs at least one cascade: with none, the range of merged
/// cascades would start below zero.
pub fn frame_dispatches(options: &AppOptions, cursor: (u32, u32)) -> (passes: Vec<ComputeDispatch>)
    requires
        options.num_cascades >= 1,
    ensures
        passes@ == frame_dispatches_of(*options, cursor),
{
    let n = options.num_cascades;
    let mut passes: Vec<ComputeDispatch> = Vec::new();
    let mut k: u32 = 0;
    while k < n
        invariant
            n == options.num_cascades,
            k <= n,
            passes@.len() == k,
            forall|j: int|
                0 <= j < k ==> #[trigger] passes@[j] == cascade_dispatch(
                    ComputeStage::GenerateCascade,
                    *options,
                    cursor,
                    j as u32,
                ),
        decreases n - k,
    {
        let imm = Immediates { cascade_index: k, cursor_x: cursor.0, cursor_y: cursor.1 };
        passes.push(dispatch_for(ComputeStage::GenerateCascade, options, Some(imm)));
        k = k + 1;
    }
    // Merge from the highest merged cascade, n - 2, down to cascade 0.
    let mut remaining: u32 = n - 1;
    while remaining > 0
        invariant
            n == options.num_cascades,
            n >= 1,
            remaining <= n - 1,
            passes@.len() == n + (n - 1 - remaining),
            forall|j: int|
                0 <= j < n ==> #[trigger] passes@[j] == cascade_dispatch(
                    ComputeStage::GenerateCascade,
                    *options,
                    cursor,
                    j as u32,
                ),
            forall|j: int|
                n <= j < n + (n - 1 - remaining) ==> #[trigger] passes@[j] == cascade_dispatch(
                    ComputeStage::MergeCascade,
                    *options,
                    cursor,
                    (2 * n - 2 - j) as u32,
                ),
        decreases remaining,
    {
        let cascade_index = remaining - 1;
        let imm = Immediates { cascade_index, cursor_x: cursor.0, cursor_y: cursor.1 };
        passes.push(dispatch_for(ComputeStage::MergeCascade, options, Some(imm)));
        remaining = cascade_index;
    }
    passes.push(dispatch_for(ComputeStage::FinalGather, options, None));
    passes.push(dispatch_for(ComputeStage::PostProcess, options, None));
    assert(passes@ =~= frame_dispatches_of(*options, cursor));
    passes
}

} // verus!
