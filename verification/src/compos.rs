//! Path layout of a compilation-OS instance.
//!
//! Each named instance owns a directory under the service's data
//! root, holding its identifier, its writable image and its signature
//! files. The derivation of those paths is decided here; creating,
//! deleting and opening them is the caller's file work.

use vstd::prelude::*;

verus! {

/// The data root under which every instance directory lives.
pub const COMPOS_DATA_ROOT: &'static str = "/data/misc/apexdata/com.android.compos";

/// The paths of one named instance, all inside its own directory
/// under the data root.
#[derive(Debug)]
pub struct InstanceStarter {
    /// The name of the instance.
    pub instance_name: String,
    /// The instance's directory.
    pub instance_root: String,
    /// The file holding the instance identifier.
    pub instance_id_file: String,
    /// The writable instance image.
    pub instance_image: String,
    /// The signature file of the app APK.
    pub idsig: String,
    /// The signature file of the manifest APK.
    pub idsig_manifest_apk: String,
    /// The signature file of the manifest extension APK.
    pub idsig_manifest_ext_apk: String,
}

/// The directory of a named instance.
pub open spec fn spec_instance_root(instance_name: Seq<char>) -> Seq<char> {
    COMPOS_DATA_ROOT@ + "/"@ + instance_name
}

impl InstanceStarter {
    /// The path layout for the named instance.
    pub fn new(instance_name: &str) -> (r: InstanceStarter)
        ensures
            r.instance_name@ == instance_name@,
            r.instance_root@ == spec_instance_root(instance_name@),
            r.instance_id_file@ == spec_instance_root(instance_name@) + "/instance_id"@,
            r.instance_image@ == spec_instance_root(instance_name@) + "/instance.img"@,
            r.idsig@ == spec_instance_root(instance_name@) + "/idsig"@,
            r.idsig_manifest_apk@ == spec_instance_root(instance_name@) + "/idsig_manifest_apk"@,
            r.idsig_manifest_ext_apk@ == spec_instance_root(instance_name@)
                + "/idsig_manifest_ext_apk"@,
    {
        let mut instance_root = String::from_str(COMPOS_DATA_ROOT);
        instance_root.append("/");
        instance_root.append(instance_name);

        let mut instance_id_file = instance_root.clone();
        instance_id_file.append("/instance_id");
        let mut instance_image = instance_root.clone();
        instance_image.append("/instance.img");
        let mut idsig = instance_root.clone();
        idsig.append("/idsig");
        let mut idsig_manifest_apk = instance_root.clone();
        idsig_manifest_apk.append("/idsig_manifest_apk");
        let mut idsig_manifest_ext_apk = instance_root.clone();
        idsig_manifest_ext_apk.append("/idsig_manifest_ext_apk");

        let r = InstanceStarter {
            instance_name: String::from_str(instance_name),
            instance_root,
            instance_id_file,
            instance_image,
            idsig,
            idsig_manifest_apk,
            idsig_manifest_ext_apk,
        };
        proof {
            assert(r.instance_root@ =~= spec_instance_root(instance_name@));
        }
        r
    }
}

/// The fixed size of a fresh writable instance image, in bytes.
pub const INSTANCE_IMAGE_SIZE: u64 = 10 * 1024 * 1024;

} // verus!
