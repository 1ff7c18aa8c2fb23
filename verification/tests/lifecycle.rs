//! The lifecycle and payload state machines, end to end.

use virtualizationservice::errors::ErrorKind;
use virtualizationservice::instance::{PayloadEventKind, PayloadState, VirtualMachineState};
use virtualizationservice::service::{CallerContext, CompositeDiskHandles, CreateVmPlan,
    VirtualMachineRawConfig, VirtualizationService};

fn root_caller() -> CallerContext {
    CallerContext {
        uid: 0,
        sid: "u:r:shell:s0".to_string(),
        debug_pid: 100,
        manage_granted: false,
        debug_granted: false,
    }
}

fn raw_image_config(image: u64) -> VirtualMachineRawConfig {
    VirtualMachineRawConfig {
        kernel: Some(1),
        initrd: None,
        bootloader: None,
        params: None,
        disks: vec![virtualizationservice::disk::DiskImage {
            image: Some(image),
            partitions: vec![],
            writable: false,
        }],
        protected_vm: false,
        memory_mib: 300,
    }
}

fn create_vm(svc: &mut VirtualizationService, image: u64) -> u32 {
    let ctx = root_caller();
    let config = raw_image_config(image);
    let plan: CreateVmPlan = svc.create_vm_plan(&config, &ctx).unwrap();
    let results: Vec<Option<CompositeDiskHandles>> =
        (0..plan.disk_plans.len()).map(|_| None).collect();
    svc.create_vm_finish(plan, &config, &ctx, None, results).unwrap()
}

#[test]
fn end_to_end_payload_flow() {
    let mut svc = VirtualizationService::new(None);
    let cid = create_vm(&mut svc, 11);

    // A fresh handle is NOT_STARTED.
    assert_eq!(VirtualMachineState::NotStarted, svc.vm_get_state(cid).unwrap());

    // Starting spawns the child and surfaces as STARTING.
    svc.vm_prepare_start(cid).unwrap();
    svc.vm_complete_start(cid, Some(500)).unwrap();
    assert_eq!(VirtualMachineState::Starting, svc.vm_get_state(cid).unwrap());

    // A listener registered on the handle sees the events.
    svc.vm_register_callback(cid, 71).unwrap();

    // The guest connects on the payload port; the bridge attaches the
    // stream to the instance with that CID.
    assert!(svc.bridge_attach(cid, 901));

    // The payload reports in: the state advances, the callbacks get
    // the started event carrying the attached stream, and the slot is
    // now empty.
    let ev = svc.notify_payload_started(cid).unwrap();
    assert_eq!(cid, ev.cid);
    assert_eq!(PayloadEventKind::Started { stream: Some(901) }, ev.kind);
    assert_eq!(vec![71], ev.listeners);
    assert_eq!(VirtualMachineState::Started, svc.vm_get_state(cid).unwrap());
    assert!(svc.state.vms[0].instance.stream.is_none());
}

#[test]
fn skipping_a_payload_state_is_rejected() {
    let mut svc = VirtualizationService::new(None);
    let cid = create_vm(&mut svc, 11);
    svc.vm_prepare_start(cid).unwrap();
    svc.vm_complete_start(cid, Some(500)).unwrap();

    // From Starting, notifyReady skips Started: rejected, unchanged.
    let err = svc.notify_payload_ready(cid).unwrap_err();
    assert_eq!(ErrorKind::IllegalState, err.kind);
    assert_eq!(PayloadState::Starting, svc.state.vms[0].instance.payload_state);

    // Repeating the current state does not advance either.
    let ev = svc.notify_payload_started(cid).unwrap();
    assert_eq!(PayloadEventKind::Started { stream: None }, ev.kind);
    let err = svc.notify_payload_started(cid).unwrap_err();
    assert_eq!(ErrorKind::IllegalState, err.kind);
    assert_eq!(PayloadState::Started, svc.state.vms[0].instance.payload_state);
}

#[test]
fn callbacks_fan_out_in_registration_order() {
    let mut svc = VirtualizationService::new(None);
    let cid = create_vm(&mut svc, 11);
    svc.vm_register_callback(cid, 1).unwrap();
    svc.vm_register_callback(cid, 2).unwrap();
    svc.vm_register_callback(cid, 3).unwrap();
    svc.vm_prepare_start(cid).unwrap();
    svc.vm_complete_start(cid, Some(500)).unwrap();
    svc.notify_payload_started(cid).unwrap();

    let ev = svc.notify_payload_ready(cid).unwrap();
    assert_eq!(PayloadEventKind::Ready, ev.kind);
    assert_eq!(vec![1, 2, 3], ev.listeners);

    let ev = svc.notify_payload_finished(cid, 0).unwrap();
    assert_eq!(PayloadEventKind::Finished { exit_code: 0 }, ev.kind);
    assert_eq!(vec![1, 2, 3], ev.listeners);
    assert_eq!(VirtualMachineState::Finished, svc.vm_get_state(cid).unwrap());
}

#[test]
fn bridge_drops_unknown_cids_and_keeps_serving() {
    let mut svc = VirtualizationService::new(None);
    let cid = create_vm(&mut svc, 11);

    // A connection with an unregistered CID is dropped...
    assert!(!svc.bridge_attach(9999, 900));
    assert!(svc.state.vms[0].instance.stream.is_none());

    // ...and the loop keeps serving subsequent connections.
    assert!(svc.bridge_attach(cid, 901));
    assert_eq!(Some(901), svc.state.vms[0].instance.stream);

    // A later connection overwrites a stale stream.
    assert!(svc.bridge_attach(cid, 902));
    assert_eq!(Some(902), svc.state.vms[0].instance.stream);
}

#[test]
fn connect_requires_a_running_vm() {
    let mut svc = VirtualizationService::new(None);
    let cid = create_vm(&mut svc, 11);

    let err = svc.vm_connect_vsock(cid, 5000).unwrap_err();
    assert_eq!(ErrorKind::IllegalState, err.kind);

    svc.vm_prepare_start(cid).unwrap();
    svc.vm_complete_start(cid, Some(500)).unwrap();
    assert_eq!((cid, 5000), svc.vm_connect_vsock(cid, 5000).unwrap());

    let err = svc.vm_connect_vsock(9999, 5000).unwrap_err();
    assert_eq!(ErrorKind::NotFound, err.kind);
}

#[test]
fn failed_launch_surfaces_and_is_terminal() {
    let mut svc = VirtualizationService::new(None);
    let cid = create_vm(&mut svc, 11);
    svc.vm_prepare_start(cid).unwrap();
    let err = svc.vm_complete_start(cid, None).unwrap_err();
    assert_eq!(ErrorKind::IOFailure, err.kind);
    assert_eq!(VirtualMachineState::Dead, svc.vm_get_state(cid).unwrap());

    // Starting again is rejected: the failure is never retried.
    let err = svc.vm_prepare_start(cid).unwrap_err();
    assert_eq!(ErrorKind::IllegalState, err.kind);
}

#[test]
fn death_notifies_every_listener() {
    let mut svc = VirtualizationService::new(None);
    let cid = create_vm(&mut svc, 11);
    svc.vm_register_callback(cid, 8).unwrap();
    svc.vm_register_callback(cid, 9).unwrap();
    svc.vm_prepare_start(cid).unwrap();
    svc.vm_complete_start(cid, Some(500)).unwrap();

    let ev = svc.on_vm_died(cid).unwrap();
    assert_eq!(PayloadEventKind::Died, ev.kind);
    assert_eq!(vec![8, 9], ev.listeners);
    assert_eq!(VirtualMachineState::Dead, svc.vm_get_state(cid).unwrap());
}

#[test]
fn notifications_for_unknown_cids_fail() {
    let mut svc = VirtualizationService::new(None);
    let err = svc.notify_payload_started(77).unwrap_err();
    assert_eq!(ErrorKind::NotFound, err.kind);
    let err = svc.notify_payload_ready(77).unwrap_err();
    assert_eq!(ErrorKind::NotFound, err.kind);
    let err = svc.notify_payload_finished(77, 1).unwrap_err();
    assert_eq!(ErrorKind::NotFound, err.kind);
}
