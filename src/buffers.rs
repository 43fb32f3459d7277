use vstd::prelude::*;

verus! {

/// Byte size of one element of the data (a 32-bit float).
pub const ELEMENT_SIZE: u64 = 4;

/// The usage flags a buffer is created with.
#[derive(Clone, Copy, Debug, PartialEq, Eq, Structural)]
pub struct BufferUsage {
    pub storage: bool,
    pub map_read: bool,
    pub copy_src: bool,
    pub copy_dst: bool,
}

/// The three buffers of one dispatch.
#[derive(Clone, Copy, Debug, PartialEq, Eq, Structural)]
pub enum BufferRole {
    /// Holds the data the shader reads.
    Input,
    /// Receives what the shader writes.
    Output,
    /// Host-readable copy of the output.
    Download,
}

/// What a buffer without initial contents is created with.
#[derive(Clone, Copy, Debug, PartialEq, Eq, Structural)]
pub struct BufferSpec {
    pub size: u64,
    pub usage: BufferUsage,
    pub mapped_at_creation: bool,
}

/// The buffers of one dispatch, around an input buffer of `input_size` bytes.
#[derive(Clone, Copy, Debug, PartialEq, Eq, Structural)]
pub struct BufferPlan {
    pub input_usage: BufferUsage,
    pub output: BufferSpec,
    pub download: BufferSpec,
}

pub open spec fn spec_input_usage() -> BufferUsage {
    BufferUsage { storage: true, map_read: false, copy_src: true, copy_dst: false }
}

pub open spec fn spec_output_usage() -> BufferUsage {
    BufferUsage { storage: true, map_read: false, copy_src: true, copy_dst: false }
}

pub open spec fn spec_download_usage() -> BufferUsage {
    BufferUsage { storage: false, map_read: true, copy_src: false, copy_dst: true }
}

pub open spec fn spec_output_spec(input_size: u64) -> BufferSpec {
    BufferSpec { size: input_size, usage: spec_output_usage(), mapped_at_creation: false }
}

pub open spec fn spec_download_spec(input_size: u64) -> BufferSpec {
    BufferSpec { size: input_size, usage: spec_download_usage(), mapped_at_creation: false }
}

pub open spec fn spec_buffer_plan(input_size: u64) -> BufferPlan {
    BufferPlan {
        input_usage: spec_input_usage(),
        output: spec_output_spec(input_size),
        download: spec_download_spec(input_size),
    }
}

/// Byte size of `count` elements, or `None` when it does not fit a `u64`.
pub fn data_byte_size(count: usize) -> (r: Option<u64>)
    ensures
        r == (if count * ELEMENT_SIZE <= u64::MAX {
            Some((count * ELEMENT_SIZE) as u64)
        } else {
            None::<u64>
        }),
{
    let n = count as u64;
    if n <= u64::MAX / ELEMENT_SIZE {
        Some(n * ELEMENT_SIZE)
    } else {
        None
    }
}

/// Usage of the input buffer: read as storage by the shader, and a copy source.
pub fn input_usage() -> (r: BufferUsage)
    ensures
        r == spec_input_usage(),
{
    BufferUsage { storage: true, map_read: false, copy_src: true, copy_dst: false }
}

/// The buffer the shader writes into: as large as the input, storage and copy source.
pub fn output_buffer_spec(input_size: u64) -> (r: BufferSpec)
    ensures
        r == spec_output_spec(input_size),
{
    BufferSpec {
        size: input_size,
        usage: BufferUsage { storage: true, map_read: false, copy_src: true, copy_dst: false },
        mapped_at_creation: false,
    }
}

/// The buffer the host reads back: as large as the input, mappable for reading and a
/// copy destination.
pub fn download_buffer_spec(input_size: u64) -> (r: BufferSpec)
    ensures
        r == spec_download_spec(input_size),
{
    BufferSpec {
        size: input_size,
        usage: BufferUsage { storage: false, map_read: true, copy_src: false, copy_dst: true },
        mapped_at_creation: false,
    }
}

/// All buffer descriptions of one dispatch whose input buffer has `input_size` bytes.
pub fn plan_buffers(input_size: u64) -> (r: BufferPlan)
    ensures
        r == spec_buffer_plan(input_size),
        r.output.size == input_size,
        r.download.size == input_size,
{
    BufferPlan {
        input_usage: input_usage(),
        output: output_buffer_spec(input_size),
        download: download_buffer_spec(input_size),
    }
}

/// The output and download buffers are always exactly as large as the input buffer,
/// so the whole result fits the download buffer and the copy between them is total.
pub proof fn lemma_result_buffers_match_input(input_size: u64)
    ensures
        spec_buffer_plan(input_size).output.size == input_size,
        spec_buffer_plan(input_size).download.size == input_size,
        spec_buffer_plan(input_size).output.size == spec_buffer_plan(input_size).download.size,
{
}

} // verus!
