use gpu_reduce::binding::{bind, KernelInterface, SlotDecl};
use gpu_reduce::encoder::{encode_commands, Command};
use gpu_reduce::error::PipelineError;
use gpu_reduce::pipeline::prepare_run;
use gpu_reduce::plan::{make_input, plan_dispatch, ELEMENTS_PER_WORKGROUP};
use gpu_reduce::reduce::{count_mismatches, expected_total, reduce_and_verify, sum_partials};
use gpu_reduce::report::summarize_run;
use gpu_reduce::resources::{plan_buffers, BufferRole};
use gpu_reduce::session::{confirm_acquisition, confirm_allocation, confirm_compile};

fn two_slot_kernel() -> KernelInterface {
    KernelInterface {
        slots: vec![
            SlotDecl { binding: 0, read_only: true },
            SlotDecl { binding: 1, read_only: false },
        ],
    }
}

/// Host-side chunk sums: what a correct reduction kernel writes per workgroup.
fn chunk_sums(input: &[u32], elements_per_workgroup: usize) -> Vec<u32> {
    input
        .chunks(elements_per_workgroup)
        .map(|c| c.iter().copied().sum())
        .collect()
}

#[test]
fn canonical_plan_has_256_groups() {
    let plan = plan_dispatch(16384, ELEMENTS_PER_WORKGROUP).unwrap();
    assert_eq!(plan.group_count, 256);
    assert_eq!(plan.total_elements, 16384);
    assert_eq!(plan.elements_per_workgroup, 64);
}

#[test]
fn canonical_expected_total() {
    assert_eq!(expected_total(16384), 134225920);
}

#[test]
fn first_chunk_of_consecutive_input_sums_to_2080() {
    let input = make_input(64);
    assert_eq!(sum_partials(&input), 2080);
}

#[test]
fn indivisible_count_fails_before_any_resource() {
    let r = plan_dispatch(10000, ELEMENTS_PER_WORKGROUP);
    assert_eq!(r.unwrap_err(), PipelineError::PreconditionViolation);
}

#[test]
fn zero_chunk_size_fails_precondition() {
    let r = plan_dispatch(128, 0);
    assert_eq!(r.unwrap_err(), PipelineError::PreconditionViolation);
}

#[test]
fn divisible_counts_are_planned() {
    for n in [0u32, 64, 128, 16384, 65536] {
        let plan = plan_dispatch(n, 64).unwrap();
        assert_eq!(plan.group_count, n / 64);
    }
}

#[test]
fn partial_buffer_holds_one_element_per_workgroup() {
    for n in [64u32, 4096, 16384] {
        let plan = plan_dispatch(n, 64).unwrap();
        let resources = plan_buffers(&plan);
        assert_eq!(resources.partial.size_bytes, (n as u64 / 64) * 4);
        assert_eq!(resources.staging.size_bytes, resources.partial.size_bytes);
        assert_eq!(resources.input.size_bytes, n as u64 * 4);
    }
}

#[test]
fn buffer_roles_and_flags() {
    let plan = plan_dispatch(16384, 64).unwrap();
    let resources = plan_buffers(&plan);
    assert_eq!(resources.input.role, BufferRole::Input);
    assert!(resources.input.usage.storage && resources.input.usage.copy_dst);
    assert!(!resources.input.usage.map_read);
    assert_eq!(resources.partial.role, BufferRole::Partial);
    assert!(resources.partial.usage.storage && resources.partial.usage.copy_src);
    assert_eq!(resources.staging.role, BufferRole::Staging);
    assert!(resources.staging.usage.map_read && resources.staging.usage.copy_dst);
    assert!(!resources.staging.usage.storage);
}

#[test]
fn two_slot_kernel_binds() {
    let plan = plan_dispatch(16384, 64).unwrap();
    let resources = plan_buffers(&plan);
    let unit = bind(&two_slot_kernel(), &resources.input, &resources.partial).unwrap();
    assert_eq!(unit.slot0.binding, 0);
    assert!(unit.slot0.read_only);
    assert_eq!(unit.slot1.binding, 1);
    assert!(!unit.slot1.read_only);
}

#[test]
fn one_slot_kernel_is_layout_mismatch() {
    let plan = plan_dispatch(16384, 64).unwrap();
    let resources = plan_buffers(&plan);
    let kernel = KernelInterface { slots: vec![SlotDecl { binding: 0, read_only: true }] };
    let r = bind(&kernel, &resources.input, &resources.partial);
    assert_eq!(r.unwrap_err(), PipelineError::LayoutMismatch);
}

#[test]
fn three_slot_kernel_is_layout_mismatch() {
    let plan = plan_dispatch(16384, 64).unwrap();
    let resources = plan_buffers(&plan);
    let kernel = KernelInterface {
        slots: vec![
            SlotDecl { binding: 0, read_only: true },
            SlotDecl { binding: 1, read_only: false },
            SlotDecl { binding: 2, read_only: false },
        ],
    };
    let r = bind(&kernel, &resources.input, &resources.partial);
    assert_eq!(r.unwrap_err(), PipelineError::LayoutMismatch);
}

#[test]
fn wrong_access_mode_is_layout_mismatch() {
    let plan = plan_dispatch(16384, 64).unwrap();
    let resources = plan_buffers(&plan);
    let kernel = KernelInterface {
        slots: vec![
            SlotDecl { binding: 0, read_only: false },
            SlotDecl { binding: 1, read_only: false },
        ],
    };
    let r = bind(&kernel, &resources.input, &resources.partial);
    assert_eq!(r.unwrap_err(), PipelineError::LayoutMismatch);
}

#[test]
fn encoded_sequence_is_dispatch_then_full_copy() {
    let plan = plan_dispatch(16384, 64).unwrap();
    let resources = plan_buffers(&plan);
    let commands = encode_commands(&plan, &resources);
    assert_eq!(commands.len(), 2);
    assert_eq!(commands[0], Command::Dispatch { groups: 256 });
    assert_eq!(commands[1], Command::CopyPartialToStaging { bytes: 1024 });
}

#[test]
fn make_input_is_one_through_n() {
    let input = make_input(16384);
    assert_eq!(input.len(), 16384);
    assert_eq!(input[0], 1);
    assert_eq!(input[63], 64);
    assert_eq!(input[16383], 16384);
}

#[test]
fn reported_total_matches_closed_form_for_valid_counts() {
    for n in [64u32, 128, 6400, 16384] {
        let input = make_input(n);
        assert_eq!(sum_partials(&input), expected_total(n));
    }
}

#[test]
fn reduce_and_verify_flags_agreement() {
    let partials = vec![2080u32, 6176, 10272];
    let (total, matched) = reduce_and_verify(&partials, 18528);
    assert_eq!(total, 18528);
    assert!(matched);
    let (total2, matched2) = reduce_and_verify(&partials, 18529);
    assert_eq!(total2, 18528);
    assert!(!matched2);
}

#[test]
fn canonical_run_report() {
    let plan = plan_dispatch(16384, 64).unwrap();
    let input = make_input(16384);
    let partials = chunk_sums(&input, 64);
    assert_eq!(partials.len(), plan.group_count as usize);
    let report = summarize_run(&plan, &partials);
    assert_eq!(report.group_count, 256);
    assert_eq!(report.total, 134225920);
    assert_eq!(report.expected, 134225920);
    assert!(report.matched);
    assert_eq!(report.first_partials.len(), 16);
    assert_eq!(report.first_partials[0], 2080);
    assert_eq!(
        report.first_partials,
        vec![
            2080, 6176, 10272, 14368, 18464, 22560, 26656, 30752, 34848, 38944, 43040, 47136,
            51232, 55328, 59424, 63520
        ]
    );
}

#[test]
fn short_report_shows_all_partials() {
    let plan = plan_dispatch(256, 64).unwrap();
    let partials = vec![1u32, 2, 3, 4];
    let report = summarize_run(&plan, &partials);
    assert_eq!(report.first_partials, vec![1, 2, 3, 4]);
    assert_eq!(report.total, 10);
    assert_eq!(report.expected, 256 * 257 / 2);
    assert!(!report.matched);
}

#[test]
fn identity_kernel_output_has_zero_mismatches() {
    let input: Vec<u32> = (0..10000).collect();
    let output = input.clone();
    assert_eq!(count_mismatches(&output, &input), 0);
}

#[test]
fn mismatches_are_counted_per_position() {
    let a = vec![1u32, 2, 3, 4, 5];
    let b = vec![1u32, 9, 3, 9, 5];
    assert_eq!(count_mismatches(&a, &b), 2);
}

#[test]
fn prepared_run_holds_every_host_decision() {
    let prepared = prepare_run(16384, ELEMENTS_PER_WORKGROUP, &two_slot_kernel()).unwrap();
    assert_eq!(prepared.plan.group_count, 256);
    assert_eq!(prepared.input_values.len(), 16384);
    assert_eq!(prepared.input_values[0], 1);
    assert_eq!(prepared.resources.partial.size_bytes, 1024);
    assert_eq!(prepared.commands.len(), 2);
    assert_eq!(prepared.commands[0], Command::Dispatch { groups: 256 });
    assert_eq!(prepared.commands[1], Command::CopyPartialToStaging { bytes: 1024 });
}

#[test]
fn prepare_run_rejects_indivisible_count() {
    let r = prepare_run(10000, ELEMENTS_PER_WORKGROUP, &two_slot_kernel());
    assert_eq!(r.unwrap_err(), PipelineError::PreconditionViolation);
}

#[test]
fn prepare_run_rejects_bad_kernel_layout() {
    let kernel = KernelInterface { slots: vec![SlotDecl { binding: 0, read_only: true }] };
    let r = prepare_run(16384, ELEMENTS_PER_WORKGROUP, &kernel);
    assert_eq!(r.unwrap_err(), PipelineError::LayoutMismatch);
}

#[test]
fn precondition_is_checked_before_layout() {
    let kernel = KernelInterface { slots: Vec::new() };
    let r = prepare_run(10000, ELEMENTS_PER_WORKGROUP, &kernel);
    assert_eq!(r.unwrap_err(), PipelineError::PreconditionViolation);
}

#[test]
fn session_decisions_map_to_errors() {
    assert!(confirm_acquisition(true).is_ok());
    assert_eq!(confirm_acquisition(false).unwrap_err(), PipelineError::NoCapableDevice);
    assert!(confirm_allocation(true).is_ok());
    assert_eq!(confirm_allocation(false).unwrap_err(), PipelineError::AllocationFailure);
    assert!(confirm_compile(true).is_ok());
    assert_eq!(confirm_compile(false).unwrap_err(), PipelineError::CompileError);
}
