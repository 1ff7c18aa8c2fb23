//! Disk image assembly.
//!
//! A declarative per-VM disk specification names either a single
//! backing image or an ordered list of partitions, never both. The
//! planning step validates the specification and derives the
//! deterministic composite filenames before any file is created or
//! opened; the caller then performs the file work (including the
//! delegation to the external composite-image library) and hands the
//! resulting handles to the completion step, which records which
//! constituent files must stay open for the life of the VM.

use crate::decimal::{dec_rep, lemma_decimal_injective, u64_to_decimal};
use crate::errors::{ErrorKind, ServiceError};
use crate::instance::DiskFile;
use crate::FileId;
use vstd::prelude::*;

verus! {

/// The size of the shared zero-filler file: gaps in composite disk
/// images are padded from one fixed-size sparse file of zero bytes,
/// created once per VM-creation call.
pub const ZERO_FILLER_SIZE: u64 = 4096;

/// One partition of a declarative disk specification.
#[derive(Debug)]
pub struct Partition {
    /// The partition label.
    pub label: String,
    /// The open backing file of the partition.
    pub image: FileId,
    /// Whether the partition is writable by the guest.
    pub writable: bool,
}

/// The declarative specification of one disk: a single backing image,
/// or an ordered list of partitions. Naming both is rejected before
/// any file work.
#[derive(Debug)]
pub struct DiskImage {
    /// The single backing image, if any.
    pub image: Option<FileId>,
    /// The ordered partitions, if the disk is composite.
    pub partitions: Vec<Partition>,
    /// Whether the disk is writable by the guest.
    pub writable: bool,
}

/// Filenames for a composite disk image, including header and footer
/// partitions.
#[derive(Clone, Debug, Eq, PartialEq)]
pub struct CompositeImageFilenames {
    /// The composite disk image itself.
    pub composite: String,
    /// The header partition image.
    pub header: String,
    /// The footer partition image.
    pub footer: String,
}

/// The name of the composite image for a counter value, under the
/// given directory.
pub open spec fn composite_name(dir: Seq<char>, id: u64) -> Seq<char> {
    dir + "/composite-"@ + dec_rep(id as nat) + ".img"@
}

/// The name of the composite header image for a counter value.
pub open spec fn header_name(dir: Seq<char>, id: u64) -> Seq<char> {
    dir + "/composite-"@ + dec_rep(id as nat) + "-header.img"@
}

/// The name of the composite footer image for a counter value.
pub open spec fn footer_name(dir: Seq<char>, id: u64) -> Seq<char> {
    dir + "/composite-"@ + dec_rep(id as nat) + "-footer.img"@
}

/// The name of the shared zero-filler file under the given directory.
pub open spec fn spec_zero_filler_name(dir: Seq<char>) -> Seq<char> {
    dir + "/zero.img"@
}

/// The path of the shared zero-filler file of one VM-creation call.
pub fn zero_filler_path(temporary_directory: &str) -> (r: String)
    ensures
        r@ == spec_zero_filler_name(temporary_directory@),
{
    let mut r = String::from_str(temporary_directory);
    r.append("/zero.img");
    r
}

/// Generate unique filenames to use for a composite disk image.
///
/// Each call consumes one value of the request-scoped counter, so
/// repeated assemblies within one VM creation never collide.
pub fn make_composite_image_filenames(
    temporary_directory: &str,
    next_temporary_image_id: &mut u64,
) -> (r: CompositeImageFilenames)
    requires
        *old(next_temporary_image_id) < u64::MAX,
    ensures
        *final(next_temporary_image_id) == *old(next_temporary_image_id) + 1,
        r.composite@ == composite_name(temporary_directory@, *old(next_temporary_image_id)),
        r.header@ == header_name(temporary_directory@, *old(next_temporary_image_id)),
        r.footer@ == footer_name(temporary_directory@, *old(next_temporary_image_id)),
{
    let id = *next_temporary_image_id;
    *next_temporary_image_id = id + 1;
    let digits = u64_to_decimal(id);

    let mut composite = String::from_str(temporary_directory);
    composite.append("/composite-");
    composite.append(digits.as_str());
    composite.append(".img");

    let mut header = String::from_str(temporary_directory);
    header.append("/composite-");
    header.append(digits.as_str());
    header.append("-header.img");

    let mut footer = String::from_str(temporary_directory);
    footer.append("/composite-");
    footer.append(digits.as_str());
    footer.append("-footer.img");

    proof {
        assert(composite@ =~= composite_name(temporary_directory@, id));
        assert(header@ =~= header_name(temporary_directory@, id));
        assert(footer@ =~= footer_name(temporary_directory@, id));
    }
    CompositeImageFilenames { composite, header, footer }
}

/// Wrapping the same sequence in the same prefix and suffix is
/// injective.
proof fn lemma_affix_injective(p: Seq<char>, s: Seq<char>, x: Seq<char>, y: Seq<char>)
    requires
        p + x + s == p + y + s,
    ensures
        x == y,
{
    assert((p + x + s).len() == p.len() + x.len() + s.len());
    assert((p + y + s).len() == p.len() + y.len() + s.len());
    assert(x.len() == y.len());
    assert forall|k: int| 0 <= k < x.len() implies x[k] == y[k] by {
        assert((p + x + s)[p.len() + k] == x[k]);
        assert((p + y + s)[p.len() + k] == y[k]);
    }
    assert(x =~= y);
}

/// Composite filenames never collide: within one directory, distinct
/// counter values give distinct composite, header and footer names.
pub proof fn lemma_composite_filenames_distinct(dir: Seq<char>, id1: u64, id2: u64)
    requires
        id1 != id2,
    ensures
        composite_name(dir, id1) != composite_name(dir, id2),
        header_name(dir, id1) != header_name(dir, id2),
        footer_name(dir, id1) != footer_name(dir, id2),
{
    if composite_name(dir, id1) == composite_name(dir, id2) {
        lemma_affix_injective(
            dir + "/composite-"@,
            ".img"@,
            dec_rep(id1 as nat),
            dec_rep(id2 as nat),
        );
        lemma_decimal_injective(id1 as nat, id2 as nat);
    }
    if header_name(dir, id1) == header_name(dir, id2) {
        lemma_affix_injective(
            dir + "/composite-"@,
            "-header.img"@,
            dec_rep(id1 as nat),
            dec_rep(id2 as nat),
        );
        lemma_decimal_injective(id1 as nat, id2 as nat);
    }
    if footer_name(dir, id1) == footer_name(dir, id2) {
        lemma_affix_injective(
            dir + "/composite-"@,
            "-footer.img"@,
            dec_rep(id1 as nat),
            dec_rep(id2 as nat),
        );
        lemma_decimal_injective(id1 as nat, id2 as nat);
    }
}

/// What the caller must do to realize one disk of the specification.
#[derive(Debug)]
pub enum DiskAssemblyPlan {
    /// Hand the single backing image to the VM as it is.
    FromImage {
        /// The backing image from the specification.
        image: FileId,
        /// Whether the disk is writable.
        writable: bool,
    },
    /// Delegate to the composite-image library: assemble the ordered
    /// partitions, padded from the shared zero filler, into the named
    /// files.
    FromPartitions {
        /// The derived, collision-free filenames.
        filenames: CompositeImageFilenames,
        /// Whether the disk is writable.
        writable: bool,
    },
}

/// Given the configuration for a disk image, plan the `DiskFile` to
/// pass to the child process.
///
/// A specification naming both an image and partitions, or neither, is
/// rejected with `ArgumentError`; planning is pure, so the rejection
/// happens before any file is created or opened. A partitioned disk
/// consumes one value of the request-scoped counter for its composite
/// filenames.
pub fn assemble_disk_image(
    disk: &DiskImage,
    temporary_directory: &str,
    next_temporary_image_id: &mut u64,
) -> (r: Result<DiskAssemblyPlan, ServiceError>)
    requires
        *old(next_temporary_image_id) < u64::MAX,
    ensures
        r is Err <==> (disk.partitions@.len() > 0) == (disk.image is Some),
        r matches Err(e) ==> e.kind == ErrorKind::ArgumentError
            && *final(next_temporary_image_id) == *old(next_temporary_image_id),
        disk.partitions@.len() > 0 && disk.image is None ==> {
            &&& r matches Ok(p)
            &&& p matches DiskAssemblyPlan::FromPartitions { filenames, writable }
            &&& filenames.composite@ == composite_name(
                temporary_directory@,
                *old(next_temporary_image_id),
            )
            &&& filenames.header@ == header_name(
                temporary_directory@,
                *old(next_temporary_image_id),
            )
            &&& filenames.footer@ == footer_name(
                temporary_directory@,
                *old(next_temporary_image_id),
            )
            &&& writable == disk.writable
            &&& *final(next_temporary_image_id) == *old(next_temporary_image_id) + 1
        },
        disk.partitions@.len() == 0 && disk.image is Some ==> {
            &&& r == Ok::<DiskAssemblyPlan, ServiceError>(DiskAssemblyPlan::FromImage {
                image: disk.image->Some_0,
                writable: disk.writable,
            })
            &&& *final(next_temporary_image_id) == *old(next_temporary_image_id)
        },
{
    if self_partitions_nonempty(disk) {
        if disk.image.is_some() {
            return Err(ServiceError::new(ErrorKind::ArgumentError,
                "DiskImage contains both image and partitions."));
        }
        let filenames = make_composite_image_filenames(
            temporary_directory,
            next_temporary_image_id,
        );
        Ok(DiskAssemblyPlan::FromPartitions { filenames, writable: disk.writable })
    } else if let Some(image) = disk.image {
        Ok(DiskAssemblyPlan::FromImage { image, writable: disk.writable })
    } else {
        Err(ServiceError::new(ErrorKind::ArgumentError,
            "DiskImage didn't contain image or partitions."))
    }
}

/// Whether the specification names any partitions.
fn self_partitions_nonempty(disk: &DiskImage) -> (r: bool)
    ensures
        r == (disk.partitions@.len() > 0),
{
    disk.partitions.len() > 0
}

/// Build the `DiskFile` for a planned disk from the handles the file
/// work produced.
///
/// For a composite plan, `composite_image` is the handle the external
/// library returned (`None` when the assembly failed), and every
/// constituent partition file it opened is appended to
/// `indirect_files`: those files are not passed to the child directly
/// but must stay open as long as it runs.
pub fn complete_disk_assembly(
    plan: &DiskAssemblyPlan,
    composite_image: Option<FileId>,
    partition_files: &Vec<FileId>,
    indirect_files: &mut Vec<FileId>,
) -> (r: Result<DiskFile, ServiceError>)
    ensures
        match *plan {
            DiskAssemblyPlan::FromImage { image, writable } => {
                &&& r == Ok::<DiskFile, ServiceError>(DiskFile { image, writable })
                &&& final(indirect_files)@ == old(indirect_files)@
            },
            DiskAssemblyPlan::FromPartitions { writable, .. } => match composite_image {
                Some(image) => {
                    &&& r == Ok::<DiskFile, ServiceError>(DiskFile { image, writable })
                    &&& final(indirect_files)@ == old(indirect_files)@ + partition_files@
                },
                None => {
                    &&& r matches Err(e) && e.kind == ErrorKind::IOFailure
                    &&& final(indirect_files)@ == old(indirect_files)@
                },
            },
        },
{
    match plan {
        DiskAssemblyPlan::FromImage { image, writable } => Ok(DiskFile {
            image: *image,
            writable: *writable,
        }),
        DiskAssemblyPlan::FromPartitions { writable, .. } => match composite_image {
            Some(image) => {
                let n = partition_files.len();
                let mut j: usize = 0;
                while j < n
                    invariant
                        n == partition_files@.len(),
                        0 <= j <= n,
                        indirect_files@ == old(indirect_files)@ + partition_files@.subrange(
                            0,
                            j as int,
                        ),
                    decreases n - j,
                {
                    indirect_files.push(partition_files[j]);
                    proof {
                        assert(indirect_files@ =~= old(indirect_files)@
                            + partition_files@.subrange(0, j + 1));
                    }
                    j = j + 1;
                }
                proof {
                    assert(partition_files@.subrange(0, n as int) =~= partition_files@);
                }
                Ok(DiskFile { image, writable: *writable })
            },
            None => Err(ServiceError::new(ErrorKind::IOFailure,
                "Failed to make composite image")),
        },
    }
}

} // verus!
