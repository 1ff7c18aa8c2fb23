//! Disk specification validation, composite filenames and partition
//! initialization.

use virtualizationservice::disk::{assemble_disk_image, complete_disk_assembly,
    make_composite_image_filenames, zero_filler_path, DiskAssemblyPlan, DiskImage, Partition,
    ZERO_FILLER_SIZE};
use virtualizationservice::errors::ErrorKind;
use virtualizationservice::service::{CallerContext, PartitionType, VirtualizationService,
    ANDROID_VM_INSTANCE_MAGIC, ANDROID_VM_INSTANCE_VERSION, format_as_android_vm_instance};

fn partition(label: &str, image: u64) -> Partition {
    Partition { label: label.to_string(), image, writable: false }
}

#[test]
fn a_disk_with_both_image_and_partitions_is_rejected() {
    let disk = DiskImage {
        image: Some(5),
        partitions: vec![partition("sys", 6)],
        writable: false,
    };
    let mut counter: u64 = 0;
    let err = assemble_disk_image(&disk, "/tmp/vm", &mut counter).unwrap_err();
    assert_eq!(ErrorKind::ArgumentError, err.kind);
    // Rejected before anything was planned: no counter value consumed.
    assert_eq!(0, counter);
}

#[test]
fn a_disk_with_neither_image_nor_partitions_is_rejected() {
    let disk = DiskImage { image: None, partitions: vec![], writable: false };
    let mut counter: u64 = 0;
    let err = assemble_disk_image(&disk, "/tmp/vm", &mut counter).unwrap_err();
    assert_eq!(ErrorKind::ArgumentError, err.kind);
    assert_eq!(0, counter);
}

#[test]
fn a_single_image_passes_through() {
    let disk = DiskImage { image: Some(5), partitions: vec![], writable: true };
    let mut counter: u64 = 0;
    match assemble_disk_image(&disk, "/tmp/vm", &mut counter).unwrap() {
        DiskAssemblyPlan::FromImage { image, writable } => {
            assert_eq!(5, image);
            assert!(writable);
        },
        other => panic!("expected an image plan, got {:?}", other),
    }
    assert_eq!(0, counter);
}

#[test]
fn partitioned_disks_get_distinct_composite_filenames() {
    let disk = DiskImage {
        image: None,
        partitions: vec![partition("sys", 6), partition("data", 7)],
        writable: false,
    };
    let mut counter: u64 = 0;
    let first = match assemble_disk_image(&disk, "/tmp/vm", &mut counter).unwrap() {
        DiskAssemblyPlan::FromPartitions { filenames, .. } => filenames,
        other => panic!("expected a composite plan, got {:?}", other),
    };
    assert_eq!(1, counter);
    assert_eq!("/tmp/vm/composite-0.img", first.composite);
    assert_eq!("/tmp/vm/composite-0-header.img", first.header);
    assert_eq!("/tmp/vm/composite-0-footer.img", first.footer);

    let second = make_composite_image_filenames("/tmp/vm", &mut counter);
    assert_eq!(2, counter);
    assert_eq!("/tmp/vm/composite-1.img", second.composite);
    assert_ne!(first, second);
}

#[test]
fn composite_completion_records_the_indirect_files() {
    let disk = DiskImage {
        image: None,
        partitions: vec![partition("sys", 6)],
        writable: false,
    };
    let mut counter: u64 = 0;
    let plan = assemble_disk_image(&disk, "/tmp/vm", &mut counter).unwrap();

    let mut indirect: Vec<u64> = vec![99];
    let partition_files: Vec<u64> = vec![41, 42];
    let built = complete_disk_assembly(&plan, Some(40), &partition_files, &mut indirect).unwrap();
    assert_eq!(40, built.image);
    // The constituent files must stay open for the life of the VM.
    assert_eq!(vec![99, 41, 42], indirect);

    // A failed composite assembly surfaces as an I/O failure and
    // records nothing.
    let mut untouched: Vec<u64> = vec![];
    let err = complete_disk_assembly(&plan, None, &partition_files, &mut untouched).unwrap_err();
    assert_eq!(ErrorKind::IOFailure, err.kind);
    assert!(untouched.is_empty());
}

#[test]
fn zero_filler_has_its_fixed_name_and_size() {
    assert_eq!("/tmp/vm/zero.img", zero_filler_path("/tmp/vm"));
    assert_eq!(4096, ZERO_FILLER_SIZE);
}

fn manager() -> CallerContext {
    CallerContext {
        uid: 1000,
        sid: "u:r:system_server:s0".to_string(),
        debug_pid: 7,
        manage_granted: true,
        debug_granted: false,
    }
}

#[test]
fn instance_partition_header_is_magic_plus_version() {
    let mut header: Vec<u8> = vec![];
    format_as_android_vm_instance(&mut header);
    let mut expected = ANDROID_VM_INSTANCE_MAGIC.as_bytes().to_vec();
    expected.extend_from_slice(&ANDROID_VM_INSTANCE_VERSION.to_le_bytes());
    assert_eq!(expected, header);
    assert_eq!(b"Android-VM-instance\x01\x00".to_vec(), header);
}

#[test]
fn writable_partition_plans_follow_the_type() {
    let svc = VirtualizationService::new(None);
    let ctx = manager();

    let raw = svc.initialize_writable_partition(&ctx, 3, 4096, PartitionType::Raw).unwrap();
    assert_eq!(3, raw.image);
    assert_eq!(4096, raw.size);
    assert!(raw.header.is_empty());

    let inst = svc
        .initialize_writable_partition(&ctx, 3, 8192, PartitionType::AndroidVmInstance)
        .unwrap();
    assert_eq!(b"Android-VM-instance\x01\x00".to_vec(), inst.header);

    let err = svc
        .initialize_writable_partition(&ctx, 3, 4096, PartitionType::Other(7))
        .unwrap_err();
    assert_eq!(ErrorKind::ArgumentError, err.kind);

    let err = svc.initialize_writable_partition(&ctx, 3, -1, PartitionType::Raw).unwrap_err();
    assert_eq!(ErrorKind::ArgumentError, err.kind);

    let nobody = CallerContext { manage_granted: false, ..manager() };
    let err = svc
        .initialize_writable_partition(&nobody, 3, 4096, PartitionType::Raw)
        .unwrap_err();
    assert_eq!(ErrorKind::PermissionDenied, err.kind);
}

#[test]
fn create_vm_rejects_a_malformed_disk_before_any_file_work() {
    let mut svc = VirtualizationService::new(None);
    let ctx = manager();
    let config = virtualizationservice::service::VirtualMachineRawConfig {
        kernel: None,
        initrd: None,
        bootloader: Some(1),
        params: None,
        disks: vec![DiskImage {
            image: Some(5),
            partitions: vec![partition("sys", 6)],
            writable: false,
        }],
        protected_vm: false,
        memory_mib: 0,
    };
    let err = svc.create_vm_plan(&config, &ctx).unwrap_err();
    assert_eq!(ErrorKind::ArgumentError, err.kind);
    // Nothing was registered.
    assert_eq!(0, svc.state.vms.len());
}
