use vstd::prelude::*;
use crate::buffers::BufferRole;

verus! {

/// Number of invocations in one workgroup, as declared by the compute shader.
pub const WORKGROUP_SIZE: u64 = 64;

/// Smallest `q` with `q * d >= n`.
pub open spec fn ceil_div(n: int, d: int) -> int
    recommends
        d > 0,
{
    (n + d - 1) / d
}

/// Number of workgroups needed to cover `len` invocations, one per element.
pub open spec fn spec_workgroup_count(len: int) -> int {
    ceil_div(len, WORKGROUP_SIZE as int)
}

/// Workgroups along x for `len` elements, or `None` when that count does not fit
/// the `u32` that a dispatch takes.
pub fn workgroup_count(len: usize) -> (r: Option<u32>)
    ensures
        r == (if spec_workgroup_count(len as int) <= u32::MAX {
            Some(spec_workgroup_count(len as int) as u32)
        } else {
            None::<u32>
        }),
{
    let len64 = len as u64;
    let whole = len64 / WORKGROUP_SIZE;
    let count = if len64 % WORKGROUP_SIZE == 0 { whole } else { whole + 1 };
    assert(count == spec_workgroup_count(len as int)) by (nonlinear_arith)
        requires
            whole == len64 / 64,
            count as int == (if len64 % 64 == 0 { whole as int } else { whole + 1 }),
            len64 == len,
    ;
    if count <= u32::MAX as u64 {
        Some(count as u32)
    } else {
        None
    }
}

/// Workgroups of a dispatch along each dimension.
#[derive(Clone, Copy, Debug, PartialEq, Eq, Structural)]
pub struct DispatchSize {
    pub x: u32,
    pub y: u32,
    pub z: u32,
}

/// One step recorded into the command buffer.
#[derive(Clone, Copy, Debug, PartialEq, Eq, Structural)]
pub enum Command {
    /// Open a compute pass.
    BeginComputePass,
    /// Select the compute pipeline.
    SetPipeline,
    /// Attach the bind group at `index`, without dynamic offsets.
    SetBindGroup { index: u32 },
    /// Run the shader over a grid of workgroups.
    Dispatch(DispatchSize),
    /// Close the compute pass.
    EndComputePass,
    /// Copy `size` bytes from offset 0 of `src` to offset 0 of `dst`.
    CopyBuffer { src: BufferRole, dst: BufferRole, size: u64 },
}

/// A one-dimensional grid of `count` workgroups.
pub open spec fn line_of(count: u32) -> DispatchSize {
    DispatchSize { x: count, y: 1, z: 1 }
}

/// The commands of one dispatch: a compute pass over `groups`, then a copy of
/// the whole output buffer of `output_size` bytes into the download buffer.
pub open spec fn spec_commands(groups: DispatchSize, output_size: u64) -> Seq<Command> {
    seq![
        Command::BeginComputePass,
        Command::SetPipeline,
        Command::SetBindGroup { index: 0 },
        Command::Dispatch(groups),
        Command::EndComputePass,
        Command::CopyBuffer { src: BufferRole::Output, dst: BufferRole::Download, size: output_size },
    ]
}

/// The dispatch grid for `len` elements: the workgroup count along x, one along y
/// and z; `None` when the count does not fit a `u32`.
pub fn dispatch_size(len: usize) -> (r: Option<DispatchSize>)
    ensures
        r == (if spec_workgroup_count(len as int) <= u32::MAX {
            Some(line_of(spec_workgroup_count(len as int) as u32))
        } else {
            None::<DispatchSize>
        }),
{
    match workgroup_count(len) {
        Some(x) => Some(DispatchSize { x, y: 1, z: 1 }),
        None => None,
    }
}

/// The commands to record for one dispatch over `groups`, whose output buffer
/// has `output_size` bytes.
pub fn record_commands(groups: DispatchSize, output_size: u64) -> (r: Vec<Command>)
    ensures
        r@ == spec_commands(groups, output_size),
{
    let mut v: Vec<Command> = Vec::new();
    v.push(Command::BeginComputePass);
    v.push(Command::SetPipeline);
    v.push(Command::SetBindGroup { index: 0 });
    v.push(Command::Dispatch(groups));
    v.push(Command::EndComputePass);
    v.push(Command::CopyBuffer { src: BufferRole::Output, dst: BufferRole::Download, size: output_size });
    assert(v@ =~= spec_commands(groups, output_size));
    v
}

/// The grid covers every element with at most one workgroup to spare: one
/// invocation per element, in workgroups of `WORKGROUP_SIZE`.
pub proof fn lemma_workgroups_cover(len: nat)
    ensures
        spec_workgroup_count(len as int) * WORKGROUP_SIZE >= len,
        len > 0 ==> (spec_workgroup_count(len as int) - 1) * WORKGROUP_SIZE < len,
        len == 0 ==> spec_workgroup_count(len as int) == 0,
{
    let c = spec_workgroup_count(len as int);
    assert(c == (len + 63) / 64);
    assert(c * 64 >= len && (len > 0 ==> (c - 1) * 64 < len) && (len == 0 ==> c == 0))
        by (nonlinear_arith)
        requires
            c == (len + 63) / 64,
            len >= 0,
    ;
}

/// In the recorded commands the dispatch runs inside the compute pass with the
/// pipeline and bind group 0 set, and only after the pass ends is the whole
/// output buffer copied into the download buffer.
pub proof fn lemma_copy_follows_dispatch(groups: DispatchSize, output_size: u64)
    ensures
        ({
            let c = spec_commands(groups, output_size);
            &&& c.len() == 6
            &&& c[0] == Command::BeginComputePass
            &&& c[1] == Command::SetPipeline
            &&& c[2] == (Command::SetBindGroup { index: 0 })
            &&& c[3] == Command::Dispatch(groups)
            &&& c[4] == Command::EndComputePass
            &&& c[5] == (Command::CopyBuffer {
                src: BufferRole::Output,
                dst: BufferRole::Download,
                size: output_size,
            })
            &&& forall|i: int| 0 <= i < 5 ==> !(#[trigger] c[i] is CopyBuffer)
        }),
{
}

} // verus!
