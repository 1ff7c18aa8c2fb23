//! Registry accounting: creations, releases and debug holds.

use virtualizationservice::errors::ErrorKind;
use virtualizationservice::service::{CallerContext, CompositeDiskHandles,
    VirtualMachineRawConfig, VirtualizationService};

fn caller(uid: u32, manage: bool, debug: bool) -> CallerContext {
    CallerContext {
        uid,
        sid: "u:r:shell:s0".to_string(),
        debug_pid: 100,
        manage_granted: manage,
        debug_granted: debug,
    }
}

fn raw_image_config(image: u64) -> VirtualMachineRawConfig {
    VirtualMachineRawConfig {
        kernel: Some(1),
        initrd: None,
        bootloader: None,
        params: None,
        disks: vec![virtualizationservice::disk::DiskImage {
            image: Some(image),
            partitions: vec![],
            writable: false,
        }],
        protected_vm: false,
        memory_mib: 0,
    }
}

fn create_vm(svc: &mut VirtualizationService, image: u64) -> u32 {
    let ctx = caller(0, false, false);
    let config = raw_image_config(image);
    let plan = svc.create_vm_plan(&config, &ctx).unwrap();
    let results: Vec<Option<CompositeDiskHandles>> =
        (0..plan.disk_plans.len()).map(|_| None).collect();
    svc.create_vm_finish(plan, &config, &ctx, None, results).unwrap()
}

#[test]
fn listing_counts_creations_minus_releases() {
    let mut svc = VirtualizationService::new(None);
    let ctx = caller(0, false, true);
    let a = create_vm(&mut svc, 1);
    let b = create_vm(&mut svc, 2);
    let c = create_vm(&mut svc, 3);
    assert_eq!(3, svc.debug_list_vms(&ctx).unwrap().len());

    svc.release_vm_handle(a).unwrap();
    svc.release_vm_handle(c).unwrap();
    let listing = svc.debug_list_vms(&ctx).unwrap();
    assert_eq!(1, listing.len());
    assert_eq!(b as i32, listing[0].cid);

    svc.release_vm_handle(b).unwrap();
    assert_eq!(0, svc.debug_list_vms(&ctx).unwrap().len());
}

#[test]
fn listing_reports_the_requester_identity() {
    let mut svc = VirtualizationService::new(None);
    let cid = create_vm(&mut svc, 1);
    let listing = svc.debug_list_vms(&caller(0, false, true)).unwrap();
    assert_eq!(cid as i32, listing[0].cid);
    assert_eq!(0, listing[0].requester_uid);
    assert_eq!("u:r:shell:s0", listing[0].requester_sid);
    assert_eq!(100, listing[0].requester_pid);
    assert!(listing[0].temporary_directory.ends_with(&cid.to_string()));
}

#[test]
fn releasing_a_running_vm_hands_back_its_child() {
    let mut svc = VirtualizationService::new(None);
    let cid = create_vm(&mut svc, 1);
    svc.vm_prepare_start(cid).unwrap();
    svc.vm_complete_start(cid, Some(321)).unwrap();
    // The last handle released kills the child, best-effort.
    assert_eq!(Some(321), svc.release_vm_handle(cid).unwrap());
    let err = svc.release_vm_handle(cid).unwrap_err();
    assert_eq!(ErrorKind::NotFound, err.kind);
}

#[test]
fn debug_holds_keep_an_instance_alive() {
    let mut svc = VirtualizationService::new(None);
    let ctx = caller(0, false, true);
    let cid = create_vm(&mut svc, 1);
    svc.vm_prepare_start(cid).unwrap();
    svc.vm_complete_start(cid, Some(444)).unwrap();

    svc.debug_hold_vm(&ctx, cid).unwrap();
    // The client's own handle goes away; the debug hold keeps the
    // instance listed, so nothing is torn down and no child comes
    // back to be killed.
    assert_eq!(None, svc.release_vm_handle(cid).unwrap());
    assert_eq!(1, svc.debug_list_vms(&ctx).unwrap().len());

    // Dropping the hold hands the handle back to the caller, who then
    // releases it like any other; the last release tears the
    // instance down and returns its child.
    assert_eq!(Some(cid), svc.debug_drop_vm(&ctx, cid).unwrap());
    assert_eq!(None, svc.debug_drop_vm(&ctx, cid).unwrap());
    assert!(!svc.state.has_debug_holds());
    assert_eq!(Some(444), svc.release_vm_handle(cid).unwrap());
    assert_eq!(0, svc.debug_list_vms(&ctx).unwrap().len());
}

#[test]
fn duplicate_debug_holds_drop_one_at_a_time() {
    let mut svc = VirtualizationService::new(None);
    let ctx = caller(0, false, true);
    let cid = create_vm(&mut svc, 1);

    svc.debug_hold_vm(&ctx, cid).unwrap();
    svc.debug_hold_vm(&ctx, cid).unwrap();
    assert_eq!(2, svc.state.debug_held_vms.len());

    assert_eq!(Some(cid), svc.debug_drop_vm(&ctx, cid).unwrap());
    assert_eq!(1, svc.state.debug_held_vms.len());
    assert_eq!(Some(cid), svc.debug_drop_vm(&ctx, cid).unwrap());
    assert_eq!(None, svc.debug_drop_vm(&ctx, cid).unwrap());
    assert!(!svc.state.has_debug_holds());
}

#[test]
fn debug_operations_require_the_debug_capability() {
    let mut svc = VirtualizationService::new(None);
    let cid = create_vm(&mut svc, 1);
    let nobody = caller(1000, true, false);
    assert_eq!(
        ErrorKind::PermissionDenied,
        svc.debug_list_vms(&nobody).unwrap_err().kind
    );
    assert_eq!(
        ErrorKind::PermissionDenied,
        svc.debug_hold_vm(&nobody, cid).unwrap_err().kind
    );
    assert_eq!(
        ErrorKind::PermissionDenied,
        svc.debug_drop_vm(&nobody, cid).unwrap_err().kind
    );
    // The granted capability suffices without root.
    let granted = caller(1000, false, true);
    assert_eq!(1, svc.debug_list_vms(&granted).unwrap().len());
}

#[test]
fn creation_requires_the_manage_capability() {
    let mut svc = VirtualizationService::new(None);
    let config = raw_image_config(1);
    let nobody = caller(1000, false, true);
    let err = svc.create_vm_plan(&config, &nobody).unwrap_err();
    assert_eq!(ErrorKind::PermissionDenied, err.kind);
    // The granted capability suffices without root.
    let granted = caller(1000, true, false);
    assert!(svc.create_vm_plan(&config, &granted).is_ok());
}
