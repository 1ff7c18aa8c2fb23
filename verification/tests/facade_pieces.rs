//! The smaller facade decisions: app configuration, instance paths
//! and temporary directories.

use virtualizationservice::compos::{InstanceStarter, INSTANCE_IMAGE_SIZE};
use virtualizationservice::config::{apply_memory_override, validate_os_name,
    vm_config_path_for_os};
use virtualizationservice::errors::ErrorKind;
use virtualizationservice::service::{CallerContext, CompositeDiskHandles,
    VirtualMachineRawConfig, VirtualizationService};

#[test]
fn only_microdroid_is_a_supported_os() {
    assert!(validate_os_name("microdroid").is_ok());
    let err = validate_os_name("other_os").unwrap_err();
    assert_eq!(ErrorKind::ArgumentError, err.kind);
    assert!(validate_os_name("").is_err());
}

#[test]
fn os_config_path_is_derived_from_the_name() {
    assert_eq!(
        "/apex/com.android.virt/etc/microdroid.json",
        vm_config_path_for_os("microdroid")
    );
}

#[test]
fn memory_override_applies_only_when_positive() {
    assert_eq!(512, apply_memory_override(256, 512));
    assert_eq!(256, apply_memory_override(256, 0));
    assert_eq!(256, apply_memory_override(256, -5));
}

#[test]
fn instance_paths_live_under_the_data_root() {
    let starter = InstanceStarter::new("test_instance");
    let root = "/data/misc/apexdata/com.android.compos/test_instance";
    assert_eq!("test_instance", starter.instance_name);
    assert_eq!(root, starter.instance_root);
    assert_eq!(format!("{}/instance_id", root), starter.instance_id_file);
    assert_eq!(format!("{}/instance.img", root), starter.instance_image);
    assert_eq!(format!("{}/idsig", root), starter.idsig);
    assert_eq!(format!("{}/idsig_manifest_apk", root), starter.idsig_manifest_apk);
    assert_eq!(format!("{}/idsig_manifest_ext_apk", root), starter.idsig_manifest_ext_apk);
    assert_eq!(10 * 1024 * 1024, INSTANCE_IMAGE_SIZE);
}

#[test]
fn temporary_directory_is_derived_from_the_cid() {
    let mut svc = VirtualizationService::new(Some("99".to_string()));
    let ctx = CallerContext {
        uid: 0,
        sid: "u:r:shell:s0".to_string(),
        debug_pid: 1,
        manage_granted: false,
        debug_granted: false,
    };
    let config = VirtualMachineRawConfig {
        kernel: None,
        initrd: None,
        bootloader: Some(1),
        params: Some("console=ttyS0".to_string()),
        disks: vec![],
        protected_vm: true,
        memory_mib: 300,
    };
    let plan = svc.create_vm_plan(&config, &ctx).unwrap();
    assert_eq!(100, plan.cid);
    assert_eq!("/data/misc/virtualizationservice/100", plan.temporary_directory);
    assert_eq!("/data/misc/virtualizationservice/100/zero.img", plan.zero_filler);
    assert!(plan.disk_plans.is_empty());

    let cid = svc
        .create_vm_finish(plan, &config, &ctx, Some(9), Vec::<Option<CompositeDiskHandles>>::new())
        .unwrap();
    let v = &svc.state.vms[0].instance;
    assert_eq!(cid, v.cid);
    assert_eq!(Some(1), v.config.bootloader);
    assert_eq!(Some("console=ttyS0".to_string()), v.config.params);
    assert!(v.config.protected);
    assert_eq!(Some(300), v.config.memory_mib);
    assert_eq!(Some(9), v.config.log_fd);
    assert!(v.config.disks.is_empty());
    assert!(v.config.indirect_files.is_empty());
}
