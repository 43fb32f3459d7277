use gpu_compute::buffers::{
    data_byte_size, download_buffer_spec, input_usage, output_buffer_spec, plan_buffers,
    BufferRole, BufferSpec, BufferUsage,
};
use gpu_compute::dispatch::{dispatch_size, record_commands, workgroup_count, Command, DispatchSize};
use gpu_compute::layout::{
    bind_group_entries, bind_group_layout_entries, entry_point, BindGroupEntrySpec, BindingSpec,
    StorageAccess,
};

#[test]
fn thirty_two_elements_need_one_workgroup() {
    assert_eq!(workgroup_count(32), Some(1));
    assert_eq!(dispatch_size(32), Some(DispatchSize { x: 1, y: 1, z: 1 }));
}

#[test]
fn workgroup_count_rounds_up() {
    assert_eq!(workgroup_count(0), Some(0));
    assert_eq!(workgroup_count(1), Some(1));
    assert_eq!(workgroup_count(64), Some(1));
    assert_eq!(workgroup_count(65), Some(2));
    assert_eq!(workgroup_count(128), Some(2));
    assert_eq!(workgroup_count(1000), Some(16));
}

#[test]
fn workgroup_count_at_the_u32_limit() {
    let most = u32::MAX as usize * 64;
    assert_eq!(workgroup_count(most), Some(u32::MAX));
    assert_eq!(workgroup_count(most + 1), None);
    assert_eq!(workgroup_count(usize::MAX), None);
    assert_eq!(dispatch_size(usize::MAX), None);
}

#[test]
fn data_byte_size_is_four_per_element() {
    assert_eq!(data_byte_size(32), Some(128));
    assert_eq!(data_byte_size(0), Some(0));
    assert_eq!(data_byte_size(usize::MAX), None);
}

#[test]
fn result_buffers_match_input_size() {
    for size in [4u64, 128, 1 << 20, u64::MAX] {
        let plan = plan_buffers(size);
        assert_eq!(plan.output.size, size);
        assert_eq!(plan.download.size, size);
        assert_eq!(plan.output, output_buffer_spec(size));
        assert_eq!(plan.download, download_buffer_spec(size));
        assert_eq!(plan.input_usage, input_usage());
    }
}

#[test]
fn buffer_usages() {
    assert_eq!(
        input_usage(),
        BufferUsage { storage: true, map_read: false, copy_src: true, copy_dst: false }
    );
    assert_eq!(
        output_buffer_spec(128),
        BufferSpec {
            size: 128,
            usage: BufferUsage { storage: true, map_read: false, copy_src: true, copy_dst: false },
            mapped_at_creation: false,
        }
    );
    assert_eq!(
        download_buffer_spec(128),
        BufferSpec {
            size: 128,
            usage: BufferUsage { storage: false, map_read: true, copy_src: false, copy_dst: true },
            mapped_at_creation: false,
        }
    );
}

#[test]
fn layout_has_two_compute_storage_bindings() {
    let entries = bind_group_layout_entries();
    assert_eq!(entries.len(), 2);
    assert_eq!(
        entries[0],
        BindingSpec {
            slot: 0,
            compute_visible: true,
            access: StorageAccess::ReadOnly,
            has_dynamic_offset: false,
            min_size: 4,
        }
    );
    assert_eq!(
        entries[1],
        BindingSpec {
            slot: 1,
            compute_visible: true,
            access: StorageAccess::ReadWrite,
            has_dynamic_offset: false,
            min_size: 4,
        }
    );
}

#[test]
fn bind_group_puts_input_then_output() {
    assert_eq!(
        bind_group_entries(),
        vec![
            BindGroupEntrySpec { slot: 0, buffer: BufferRole::Input },
            BindGroupEntrySpec { slot: 1, buffer: BufferRole::Output },
        ]
    );
}

#[test]
fn pipeline_entry_point_is_call() {
    assert_eq!(entry_point(), "call");
}

#[test]
fn commands_dispatch_then_copy_whole_output() {
    let groups = dispatch_size(32).unwrap();
    let commands = record_commands(groups, 128);
    assert_eq!(
        commands,
        vec![
            Command::BeginComputePass,
            Command::SetPipeline,
            Command::SetBindGroup { index: 0 },
            Command::Dispatch(DispatchSize { x: 1, y: 1, z: 1 }),
            Command::EndComputePass,
            Command::CopyBuffer { src: BufferRole::Output, dst: BufferRole::Download, size: 128 },
        ]
    );
}
