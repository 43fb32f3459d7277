use vstd::prelude::*;
use crate::buffers::{BufferRole, BufferUsage, spec_buffer_plan, spec_input_usage};

verus! {

/// Smallest buffer, in bytes, that a storage binding accepts: one element.
pub const MIN_BINDING_SIZE: u64 = 4;


/// How the shader may access a storage buffer.
#[derive(Clone, Copy, Debug, PartialEq, Eq, Structural)]
pub enum StorageAccess {
    ReadOnly,
    ReadWrite,
}

/// One slot of the bind group layout: a storage buffer binding.
#[derive(Clone, Copy, Debug, PartialEq, Eq, Structural)]
pub struct BindingSpec {
    pub slot: u32,
    pub compute_visible: bool,
    pub access: StorageAccess,
    pub has_dynamic_offset: bool,
    pub min_size: u64,
}

/// One entry of the bind group: which buffer occupies which slot, whole.
#[derive(Clone, Copy, Debug, PartialEq, Eq, Structural)]
pub struct BindGroupEntrySpec {
    pub slot: u32,
    pub buffer: BufferRole,
}

pub open spec fn storage_binding(slot: u32, access: StorageAccess) -> BindingSpec {
    BindingSpec {
        slot,
        compute_visible: true,
        access,
        has_dynamic_offset: false,
        min_size: MIN_BINDING_SIZE,
    }
}

/// The layout the shader expects: slot 0 read-only, slot 1 read-write.
pub open spec fn spec_layout() -> Seq<BindingSpec> {
    seq![storage_binding(0, StorageAccess::ReadOnly), storage_binding(1, StorageAccess::ReadWrite)]
}

/// The bind group: the input buffer at slot 0, the output buffer at slot 1.
pub open spec fn spec_bind_group() -> Seq<BindGroupEntrySpec> {
    seq![
        BindGroupEntrySpec { slot: 0, buffer: BufferRole::Input },
        BindGroupEntrySpec { slot: 1, buffer: BufferRole::Output },
    ]
}

/// Usage of the buffer in `role` for a dispatch whose input has `input_size` bytes.
pub open spec fn usage_of(role: BufferRole, input_size: u64) -> BufferUsage {
    match role {
        BufferRole::Input => spec_input_usage(),
        BufferRole::Output => spec_buffer_plan(input_size).output.usage,
        BufferRole::Download => spec_buffer_plan(input_size).download.usage,
    }
}

/// Byte size of the buffer in `role` for a dispatch whose input has `input_size` bytes.
pub open spec fn size_of(role: BufferRole, input_size: u64) -> u64 {
    match role {
        BufferRole::Input => input_size,
        BufferRole::Output => spec_buffer_plan(input_size).output.size,
        BufferRole::Download => spec_buffer_plan(input_size).download.size,
    }
}

/// Whether `role`'s buffer may stand in `binding`: it is a storage buffer at least
/// as large as the binding's minimum.
pub open spec fn fits_binding(binding: BindingSpec, role: BufferRole, input_size: u64) -> bool {
    &&& usage_of(role, input_size).storage
    &&& size_of(role, input_size) >= binding.min_size
}

/// Name of the compute shader's entry point that the pipeline runs.
pub fn entry_point() -> (r: &'static str)
    ensures
        r@ == "call"@,
{
    "call"
}

/// Bindings of the compute bind group layout.
pub fn bind_group_layout_entries() -> (r: Vec<BindingSpec>)
    ensures
        r@ == spec_layout(),
{
    let mut v: Vec<BindingSpec> = Vec::new();
    v.push(
        BindingSpec {
            slot: 0,
            compute_visible: true,
            access: StorageAccess::ReadOnly,
            has_dynamic_offset: false,
            min_size: MIN_BINDING_SIZE,
        },
    );
    v.push(
        BindingSpec {
            slot: 1,
            compute_visible: true,
            access: StorageAccess::ReadWrite,
            has_dynamic_offset: false,
            min_size: MIN_BINDING_SIZE,
        },
    );
    assert(v@ =~= spec_layout());
    v
}

/// Entries of the bind group that attaches the buffers to the layout's slots.
pub fn bind_group_entries() -> (r: Vec<BindGroupEntrySpec>)
    ensures
        r@ == spec_bind_group(),
{
    let mut v: Vec<BindGroupEntrySpec> = Vec::new();
    v.push(BindGroupEntrySpec { slot: 0, buffer: BufferRole::Input });
    v.push(BindGroupEntrySpec { slot: 1, buffer: BufferRole::Output });
    assert(v@ =~= spec_bind_group());
    v
}

/// The layout declares exactly two compute-visible storage bindings: slot 0
/// read-only and slot 1 read-write, each with a minimum size of four bytes.
pub proof fn lemma_layout_shape()
    ensures
        spec_layout().len() == 2,
        forall|i: int|
            0 <= i < spec_layout().len() ==> {
                &&& #[trigger] spec_layout()[i].slot == i
                &&& spec_layout()[i].compute_visible
                &&& spec_layout()[i].min_size == 4
            },
        spec_layout()[0].access == StorageAccess::ReadOnly,
        spec_layout()[1].access == StorageAccess::ReadWrite,
{
}

/// The bind group matches the layout slot for slot: each entry binds a storage
/// buffer at the layout's slot of the same position, and the buffer bound to the
/// read-write slot is the output buffer. Where the input holds at least one
/// element, every bound buffer meets its binding's minimum size.
pub proof fn lemma_bind_group_matches_layout(input_size: u64)
    ensures
        spec_bind_group().len() == spec_layout().len(),
        forall|i: int|
            0 <= i < spec_bind_group().len() ==> {
                &&& #[trigger] spec_bind_group()[i].slot == spec_layout()[i].slot
                &&& usage_of(spec_bind_group()[i].buffer, input_size).storage
            },
        forall|i: int|
            0 <= i < spec_bind_group().len() && spec_layout()[i].access
                == StorageAccess::ReadWrite ==> #[trigger] spec_bind_group()[i].buffer
                == BufferRole::Output,
        input_size >= MIN_BINDING_SIZE ==> forall|i: int|
            0 <= i < spec_bind_group().len() ==> fits_binding(
                spec_layout()[i],
                #[trigger] spec_bind_group()[i].buffer,
                input_size,
            ),
{
    assert(spec_bind_group()[0].buffer == BufferRole::Input);
    assert(spec_bind_group()[1].buffer == BufferRole::Output);
}

} // verus!
