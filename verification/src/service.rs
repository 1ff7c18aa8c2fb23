//! The service facade: the remote-call surface of the orchestration
//! engine.
//!
//! Every operation takes an explicit caller context carrying the
//! verified caller identity and the answers of the external permission
//! service, validates its input, and composes the allocator, the disk
//! assembler, the registry and the per-instance state machines. File
//! work, process work and callback delivery stay with the caller: each
//! operation either decides them or records their outcome.

use crate::cid::{alloc_step, persisted_cid, CidAllocator};
use crate::decimal::{dec_rep, u32_to_decimal};
use crate::disk::{assemble_disk_image, complete_disk_assembly, composite_name, footer_name,
    header_name, spec_zero_filler_name, zero_filler_path, DiskAssemblyPlan, DiskImage};
use crate::errors::{ErrorKind, ServiceError};
use crate::instance::{memory_mib_of, payload_ord, CrosvmConfig, DiskFile, PayloadEvent, PayloadEventKind, PayloadState, VmInstance, VmState};
use crate::registry::{has_live_of, State};
use crate::{CallbackId, Cid, FileId, StreamId};
use vstd::prelude::*;
use vstd::string::StringSliceAdditionalSpecFns;

verus! {

/// Directory in which to write disk image files used while running
/// VMs.
pub const TEMPORARY_DIRECTORY: &'static str = "/data/misc/virtualizationservice";

/// The verified identity of a remote caller, together with the
/// external permission service's answers for it. The transport
/// authenticates the identity; the permission hooks are external
/// collaborators, so their verdicts arrive as values.
#[derive(Debug)]
pub struct CallerContext {
    /// The user id of the caller.
    pub uid: u32,
    /// The security context of the caller.
    pub sid: String,
    /// The process id of the caller, for debugging only.
    pub debug_pid: i32,
    /// Whether the permission service granted the caller the
    /// capability to manage VMs.
    pub manage_granted: bool,
    /// Whether the permission service granted the caller the
    /// capability to use debug operations.
    pub debug_granted: bool,
}

/// Whether the caller may manage VMs: root can do anything, everyone
/// else needs the granted capability.
pub open spec fn spec_may_manage(ctx: CallerContext) -> bool {
    ctx.uid == 0 || ctx.manage_granted
}

/// Whether the caller may use debug operations.
pub open spec fn spec_may_debug(ctx: CallerContext) -> bool {
    ctx.uid == 0 || ctx.debug_granted
}

/// Check whether the caller is allowed to manage VMs.
pub fn check_manage_access(ctx: &CallerContext) -> (r: Result<(), ServiceError>)
    ensures
        r is Ok <==> spec_may_manage(*ctx),
        r matches Err(e) ==> e.kind == ErrorKind::PermissionDenied,
{
    if ctx.uid == 0 || ctx.manage_granted {
        Ok(())
    } else {
        Err(ServiceError::new(ErrorKind::PermissionDenied,
            "does not have the MANAGE_VIRTUAL_MACHINE permission"))
    }
}

/// Check whether the caller is allowed to call debug methods.
pub fn check_debug_access(ctx: &CallerContext) -> (r: Result<(), ServiceError>)
    ensures
        r is Ok <==> spec_may_debug(*ctx),
        r matches Err(e) ==> e.kind == ErrorKind::PermissionDenied,
{
    if ctx.uid == 0 || ctx.debug_granted {
        Ok(())
    } else {
        Err(ServiceError::new(ErrorKind::PermissionDenied,
            "does not have the DEBUG_VIRTUAL_MACHINE permission"))
    }
}

/// The raw configuration of a VM to create, with every file already
/// open: the caller resolves and clones descriptors before handing
/// them in.
#[derive(Debug)]
pub struct VirtualMachineRawConfig {
    /// The kernel image, if any.
    pub kernel: Option<FileId>,
    /// The initial ramdisk, if any.
    pub initrd: Option<FileId>,
    /// The bootloader image, if any.
    pub bootloader: Option<FileId>,
    /// Extra kernel command-line parameters.
    pub params: Option<String>,
    /// The declarative disk specifications, in order.
    pub disks: Vec<DiskImage>,
    /// Whether the VM memory is protected from the host.
    pub protected_vm: bool,
    /// The requested memory size in MiB; non-positive means default.
    pub memory_mib: i32,
}

/// Whether one disk specification is well formed: an image or
/// partitions, never both and never neither.
pub open spec fn disk_spec_valid(d: DiskImage) -> bool {
    (d.partitions@.len() > 0) != (d.image is Some)
}

/// How many of the first `i` disk specifications are partition-based;
/// each of those consumes one value of the request-scoped counter.
pub open spec fn partition_disks_before(disks: Seq<DiskImage>, i: int) -> int
    decreases i,
{
    if i <= 0 {
        0
    } else {
        partition_disks_before(disks, i - 1) + (if disks[i - 1].partitions@.len() > 0 {
            1int
        } else {
            0int
        })
    }
}

/// Whether a plan is the right one for a disk specification, under
/// the given directory, with the given counter value.
pub open spec fn plan_matches(
    p: DiskAssemblyPlan,
    d: DiskImage,
    dir: Seq<char>,
    counter: int,
) -> bool {
    if d.partitions@.len() > 0 {
        &&& p matches DiskAssemblyPlan::FromPartitions { filenames, writable }
        &&& filenames.composite@ == composite_name(dir, counter as u64)
        &&& filenames.header@ == header_name(dir, counter as u64)
        &&& filenames.footer@ == footer_name(dir, counter as u64)
        &&& writable == d.writable
    } else {
        p == (DiskAssemblyPlan::FromImage { image: d.image->Some_0, writable: d.writable })
    }
}

/// The per-request temporary directory of a VM.
pub open spec fn spec_temporary_directory(cid: Cid) -> Seq<char> {
    TEMPORARY_DIRECTORY@ + "/"@ + dec_rep(cid as nat)
}

/// Everything `createVm` decided before any file work: the fresh
/// identifier, the derived paths, and one assembly plan per disk.
/// The caller performs the file work and hands the results to the
/// completion step.
#[derive(Debug)]
pub struct CreateVmPlan {
    /// The freshly allocated guest context identifier.
    pub cid: Cid,
    /// The temporary directory to create for this VM's image files.
    pub temporary_directory: String,
    /// The shared zero-filler file to create in that directory.
    pub zero_filler: String,
    /// One assembly plan per disk of the specification, in order.
    pub disk_plans: Vec<DiskAssemblyPlan>,
}

/// The orchestration service: the CID allocator together with the
/// registry of instances. The caller serializes access; every
/// operation here is one critical section.
#[derive(Debug)]
pub struct VirtualizationService {
    /// The allocator of guest context identifiers.
    pub allocator: CidAllocator,
    /// The registry of instances.
    pub state: State,
}

impl VirtualizationService {
    /// The service invariant: live instances carry pairwise distinct
    /// identifiers, and every live identifier is covered by the
    /// persisted counter, so a fresh allocation can never collide.
    pub open spec fn wf(self) -> bool {
        &&& self.state.distinct_live_cids()
        &&& forall|c: Cid|
            self.state.has_live(c) ==> (persisted_cid(self.allocator) matches Some(p) && c <= p)
    }

    /// A fresh service around the persisted counter value the caller
    /// read, with an empty registry.
    pub fn new(persisted: Option<String>) -> (r: VirtualizationService)
        ensures
            r.wf(),
            r.state.live_count() == 0,
            r.allocator.last == persisted,
            r.state.debug_held_vms@ == Seq::<Cid>::empty(),
    {
        VirtualizationService { allocator: CidAllocator::new(persisted), state: State::new() }
    }

    /// The validating half of `createVm`: check the caller's
    /// capability, allocate the next identifier, derive the temporary
    /// paths, and plan every disk.
    ///
    /// Planning is pure, so a malformed disk specification is rejected
    /// with `ArgumentError` before any file is created or opened. The
    /// identifier is allocated before the disks are examined, so a
    /// rejected request still consumes it, as a restart of the request
    /// would expect.
    pub fn create_vm_plan(&mut self, config: &VirtualMachineRawConfig, ctx: &CallerContext) -> (r:
        Result<CreateVmPlan, ServiceError>)
        requires
            old(self).wf(),
        ensures
            final(self).wf(),
            final(self).state == old(self).state,
            !spec_may_manage(*ctx) ==> {
                &&& r matches Err(e) && e.kind == ErrorKind::PermissionDenied
                &&& *final(self) == *old(self)
            },
            spec_may_manage(*ctx) ==> match r {
                Ok(plan) => {
                    &&& alloc_step(old(self).allocator, final(self).allocator, plan.cid)
                    &&& !old(self).state.has_live(plan.cid)
                    &&& (persisted_cid(final(self).allocator) matches Some(p) && plan.cid <= p)
                    &&& plan.temporary_directory@ == spec_temporary_directory(plan.cid)
                    &&& plan.zero_filler@ == spec_zero_filler_name(
                        spec_temporary_directory(plan.cid),
                    )
                    &&& plan.disk_plans@.len() == config.disks@.len()
                    &&& forall|i: int|
                        0 <= i < config.disks@.len() ==> disk_spec_valid(config.disks@[i])
                    &&& forall|i: int|
                        0 <= i < config.disks@.len() ==> plan_matches(
                            plan.disk_plans@[i],
                            config.disks@[i],
                            spec_temporary_directory(plan.cid),
                            partition_disks_before(config.disks@, i),
                        )
                },
                Err(e) => {
                    ||| (e.kind == ErrorKind::ResourceExhausted && persisted_cid(
                        old(self).allocator,
                    ) == Some(u32::MAX) && final(self).allocator == old(self).allocator)
                    ||| (e.kind == ErrorKind::ArgumentError && (exists|i: int|
                        0 <= i < config.disks@.len() && !disk_spec_valid(config.disks@[i])))
                },
            },
            spec_may_manage(*ctx) && persisted_cid(old(self).allocator) != Some(u32::MAX)
                && (forall|i: int|
                0 <= i < config.disks@.len() ==> disk_spec_valid(config.disks@[i])) ==> r is Ok,
    {
        check_manage_access(ctx)?;
        let cid = match self.allocator.next() {
            Ok(cid) => cid,
            Err(e) => {
                return Err(e);
            },
        };
        proof {
            assert(self.state == old(self).state);
            if old(self).state.has_live(cid) {
                // A live identifier is covered by the old counter, and
                // the fresh one lies strictly above it.
                assert(persisted_cid(old(self).allocator) matches Some(p) && cid <= p);
                assert(false);
            }
            assert forall|c: Cid|
                self.state.has_live(c) implies (persisted_cid(self.allocator) matches Some(p)
                && c <= p) by {
                assert(old(self).state.has_live(c));
                assert(persisted_cid(old(self).allocator) matches Some(p0) && c <= p0);
                assert(persisted_cid(self.allocator) == Some(cid));
            }
            assert(self.wf());
        }

        let cid_digits = u32_to_decimal(cid);
        let mut temporary_directory = String::from_str(TEMPORARY_DIRECTORY);
        temporary_directory.append("/");
        temporary_directory.append(cid_digits.as_str());
        proof {
            assert(temporary_directory@ =~= spec_temporary_directory(cid));
        }
        let zero_filler = zero_filler_path(temporary_directory.as_str());

        let ghost self_snap = *self;
        let mut disk_plans: Vec<DiskAssemblyPlan> = Vec::new();
        let mut next_temporary_image_id: u64 = 0;
        let n = config.disks.len();
        let mut i: usize = 0;
        while i < n
            invariant
                *self == self_snap,
                self.state == old(self).state,
                self.wf(),
                spec_may_manage(*ctx),
                n == config.disks@.len(),
                0 <= i <= n,
                disk_plans@.len() == i,
                next_temporary_image_id == partition_disks_before(config.disks@, i as int),
                0 <= next_temporary_image_id <= i,
                temporary_directory@ == spec_temporary_directory(cid),
                forall|j: int| 0 <= j < i ==> disk_spec_valid(config.disks@[j]),
                forall|j: int|
                    0 <= j < i ==> plan_matches(
                        disk_plans@[j],
                        config.disks@[j],
                        spec_temporary_directory(cid),
                        partition_disks_before(config.disks@, j),
                    ),
            decreases n - i,
        {
            let disk = &config.disks[i];
            match assemble_disk_image(disk, temporary_directory.as_str(),
                &mut next_temporary_image_id) {
                Ok(p) => {
                    proof {
                        assert(partition_disks_before(config.disks@, i + 1)
                            == partition_disks_before(config.disks@, i as int) + (
                        if config.disks@[i as int].partitions@.len() > 0 {
                            1int
                        } else {
                            0int
                        }));
                    }
                    disk_plans.push(p);
                },
                Err(e) => {
                    return Err(e);
                },
            }
            i = i + 1;
        }

        Ok(CreateVmPlan { cid, temporary_directory, zero_filler, disk_plans })
    }

    /// The registering half of `createVm`: assemble the planned disks
    /// from the handles the file work produced, build the launch
    /// configuration, and register the new instance with one owning
    /// handle.
    ///
    /// The caller passes, aligned with the disk plans, what the
    /// external composite-image library returned for each partitioned
    /// disk; a missing result means that assembly failed and the
    /// request fails with `IOFailure`, registering nothing.
    pub fn create_vm_finish(
        &mut self,
        plan: CreateVmPlan,
        config: &VirtualMachineRawConfig,
        ctx: &CallerContext,
        log_fd: Option<FileId>,
        composite_results: Vec<Option<CompositeDiskHandles>>,
    ) -> (r: Result<Cid, ServiceError>)
        requires
            old(self).wf(),
            !old(self).state.has_live(plan.cid),
            persisted_cid(old(self).allocator) matches Some(p) && plan.cid <= p,
            composite_results@.len() == plan.disk_plans@.len(),
        ensures
            final(self).wf(),
            final(self).allocator == old(self).allocator,
            final(self).state.debug_held_vms@ == old(self).state.debug_held_vms@,
            r is Ok <==> disk_results_ok(plan.disk_plans@, composite_results@),
            match r {
                Ok(cid) => {
                    let v = final(self).state.live_vms().last();
                    &&& cid == plan.cid
                    &&& final(self).state.live_vms() == old(self).state.live_vms().push(v)
                    &&& final(self).state.live_count() == old(self).state.live_count() + 1
                    &&& final(self).state.has_live(plan.cid)
                    &&& forall|c: Cid|
                        c != plan.cid ==> (final(self).state.has_live(c) <==> old(self).state.has_live(c))
                    &&& v.cid == plan.cid
                    &&& v.vm_state == VmState::NotStarted
                    &&& v.payload_state == PayloadState::Starting
                    &&& v.stream is None
                    &&& v.callbacks.callbacks@ == Seq::<CallbackId>::empty()
                    &&& v.temporary_directory == plan.temporary_directory
                    &&& v.requester_uid == ctx.uid
                    &&& v.requester_sid == ctx.sid
                    &&& v.requester_debug_pid == ctx.debug_pid
                    &&& v.config.cid == plan.cid
                    &&& v.config.kernel == config.kernel
                    &&& v.config.initrd == config.initrd
                    &&& v.config.bootloader == config.bootloader
                    &&& v.config.params == config.params
                    &&& v.config.protected == config.protected_vm
                    &&& v.config.log_fd == log_fd
                    &&& v.config.memory_mib == (if config.memory_mib > 0 {
                        Some(config.memory_mib as u32)
                    } else {
                        None
                    })
                    &&& v.config.disks@.len() == plan.disk_plans@.len()
                    &&& forall|i: int|
                        0 <= i < plan.disk_plans@.len() ==> v.config.disks@[i]
                            == spec_disk_file_of(plan.disk_plans@[i], composite_results@[i])
                    &&& v.config.indirect_files@ == spec_indirect_files(
                        plan.disk_plans@,
                        composite_results@,
                    )
                },
                Err(e) => {
                    &&& e.kind == ErrorKind::IOFailure
                    &&& *final(self) == *old(self)
                },
            },
    {
        let ghost self_snap = *self;
        let empty_files: Vec<FileId> = Vec::new();
        let mut disks: Vec<DiskFile> = Vec::new();
        let mut indirect_files: Vec<FileId> = Vec::new();
        let n = plan.disk_plans.len();
        let mut i: usize = 0;
        while i < n
            invariant
                *self == self_snap,
                self.wf(),
                empty_files@ == Seq::<FileId>::empty(),
                n == plan.disk_plans@.len(),
                composite_results@.len() == plan.disk_plans@.len(),
                0 <= i <= n,
                disks@.len() == i,
                forall|j: int|
                    0 <= j < i ==> ((plan.disk_plans@[j] is FromPartitions)
                        ==> composite_results@[j] is Some),
                forall|j: int|
                    0 <= j < i ==> disks@[j] == spec_disk_file_of(
                        plan.disk_plans@[j],
                        composite_results@[j],
                    ),
                indirect_files@ == spec_indirect_files(
                    plan.disk_plans@.subrange(0, i as int),
                    composite_results@.subrange(0, i as int),
                ),
            decreases n - i,
        {
            let plan_i = &plan.disk_plans[i];
            let outcome = match &composite_results[i] {
                Some(h) => complete_disk_assembly(plan_i, Some(h.image), &h.files,
                    &mut indirect_files),
                None => complete_disk_assembly(plan_i, None, &empty_files, &mut indirect_files),
            };
            proof {
                let ps = plan.disk_plans@.subrange(0, i + 1);
                let rs = composite_results@.subrange(0, i + 1);
                assert(ps.drop_last() =~= plan.disk_plans@.subrange(0, i as int));
                assert(rs.drop_last() =~= composite_results@.subrange(0, i as int));
                assert(ps.last() == plan.disk_plans@[i as int]);
                assert(rs.last() == composite_results@[i as int]);
            }
            match outcome {
                Ok(d) => {
                    disks.push(d);
                },
                Err(e) => {
                    proof {
                        assert(!disk_results_ok(plan.disk_plans@, composite_results@)) by {
                            assert(plan.disk_plans@[i as int] is FromPartitions);
                            assert(composite_results@[i as int] is None);
                        }
                    }
                    return Err(e);
                },
            }
            i = i + 1;
        }
        proof {
            assert(plan.disk_plans@.subrange(0, n as int) =~= plan.disk_plans@);
            assert(composite_results@.subrange(0, n as int) =~= composite_results@);
        }

        let params = match &config.params {
            Some(p) => Some(p.clone()),
            None => None,
        };
        let crosvm_config = CrosvmConfig {
            cid: plan.cid,
            bootloader: config.bootloader,
            kernel: config.kernel,
            initrd: config.initrd,
            disks,
            params,
            protected: config.protected_vm,
            memory_mib: memory_mib_of(config.memory_mib),
            log_fd,
            indirect_files,
        };
        let instance = VmInstance::new(
            crosvm_config,
            plan.temporary_directory,
            ctx.uid,
            ctx.sid.clone(),
            ctx.debug_pid,
        );
        self.state.add_vm(instance);
        proof {
            assert forall|c: Cid|
                self.state.has_live(c) implies (persisted_cid(self.allocator) matches Some(p)
                && c <= p) by {
                if c != plan.cid {
                    assert(old(self).state.has_live(c));
                }
            }
        }
        Ok(plan.cid)
    }

    /// Look the instance up by identifier and attempt the strict
    /// payload advance towards `new_state`, mutating nothing on
    /// rejection. Shared by the three payload notification handlers.
    fn advance_payload(&mut self, cid: Cid, new_state: PayloadState) -> (r: Result<
        usize,
        ServiceError,
    >)
        requires
            old(self).wf(),
        ensures
            final(self).wf(),
            final(self).allocator == old(self).allocator,
            final(self).state.debug_held_vms@ == old(self).state.debug_held_vms@,
            forall|c: Cid| final(self).state.has_live(c) <==> old(self).state.has_live(c),
            final(self).state.live_count() == old(self).state.live_count(),
            r is Ok <==> (old(self).state.has_live(cid) && payload_ord(new_state) == payload_ord(
                old(self).state.live_instance(cid).payload_state,
            ) + 1),
            match r {
                Ok(i) => {
                    &&& i < final(self).state.vms@.len()
                    &&& final(self).state.vms@[i as int].live()
                    &&& final(self).state.vms@[i as int].instance == final(self).state.live_instance(cid)
                    &&& final(self).state.live_instance(cid) == (VmInstance {
                        payload_state: new_state,
                        ..old(self).state.live_instance(cid)
                    })
                    &&& forall|c: Cid|
                        c != cid && old(self).state.has_live(c) ==> final(self).state.live_instance(c) == old(self).state.live_instance(c)
                },
                Err(e) => {
                    &&& final(self).state.vms@ == old(self).state.vms@
                    &&& (e.kind == ErrorKind::NotFound && !old(self).state.has_live(cid)) || (
                    e.kind == ErrorKind::IllegalState && old(self).state.has_live(cid))
                },
            },
    {
        let i = match self.state.get_vm(cid) {
            Some(i) => i,
            None => {
                return Err(ServiceError::new(ErrorKind::NotFound, "cannot find a VM with cid"));
            },
        };
        proof {
            old(self).state.lemma_live_index_unique(cid, i as int);
        }
        let ghost pre = self.state.vms@;
        let entry = &mut self.state.vms[i];
        match entry.instance.update_payload_state(new_state) {
            Ok(()) => {},
            Err(e) => {
                proof {
                    assert(self.state.vms@ =~= pre);
                    assert forall|c: Cid|
                        self.state.has_live(c) implies (persisted_cid(self.allocator)
                        matches Some(p) && c <= p) by {
                        assert(has_live_of(pre, c));
                        assert(old(self).state.has_live(c));
                    }
                }
                return Err(e);
            },
        }
        proof {
            let updated = self.state.vms@[i as int];
            assert(self.state.vms@ == pre.update(i as int, updated));
            crate::registry::lemma_update_entry_same_cid(pre, i as int, updated);
            self.state.lemma_live_index_unique(cid, i as int);
            assert forall|c: Cid|
                self.state.has_live(c) implies (persisted_cid(self.allocator) matches Some(p)
                && c <= p) by {
                assert(old(self).state.has_live(c));
            }
            assert forall|c: Cid|
                c != cid && old(self).state.has_live(c) implies self.state.live_instance(c)
                == old(self).state.live_instance(c) by {
                let w = old(self).state.live_index(c);
                old(self).state.lemma_live_index_unique(c, w);
                assert(w != i as int);
                assert(self.state.vms@[w] == pre[w]);
                self.state.lemma_live_index_unique(c, w);
            }
        }
        Ok(i)
    }

    /// A guest reported that its payload started.
    ///
    /// Looks the instance up by the caller's identifier, advances the
    /// payload state strictly from `Starting`, atomically takes any
    /// attached payload stream out of its slot, and fans the event
    /// (carrying the stream) out to every registered listener in
    /// registration order.
    pub fn notify_payload_started(&mut self, cid: Cid) -> (r: Result<PayloadEvent, ServiceError>)
        requires
            old(self).wf(),
        ensures
            final(self).wf(),
            final(self).allocator == old(self).allocator,
            final(self).state.debug_held_vms@ == old(self).state.debug_held_vms@,
            forall|c: Cid| final(self).state.has_live(c) <==> old(self).state.has_live(c),
            final(self).state.live_count() == old(self).state.live_count(),
            r is Ok <==> (old(self).state.has_live(cid) && old(self).state.live_instance(cid).payload_state == PayloadState::Starting),
            match r {
                Ok(ev) => {
                    let v = old(self).state.live_instance(cid);
                    &&& ev.cid == cid
                    &&& ev.kind == (PayloadEventKind::Started { stream: v.stream })
                    &&& ev.listeners@ == v.callbacks.callbacks@
                    &&& final(self).state.live_instance(cid) == (VmInstance {
                        payload_state: PayloadState::Started,
                        stream: None,
                        ..v
                    })
                    &&& forall|c: Cid|
                        c != cid && old(self).state.has_live(c) ==> final(self).state.live_instance(c) == old(self).state.live_instance(c)
                },
                Err(e) => {
                    &&& final(self).state.vms@ == old(self).state.vms@
                    &&& (e.kind == ErrorKind::NotFound && !old(self).state.has_live(cid)) || (
                    e.kind == ErrorKind::IllegalState && old(self).state.has_live(cid))
                },
            },
    {
        let i = self.advance_payload(cid, PayloadState::Started)?;
        let ghost mid = *self;
        let ghost pre = self.state.vms@;
        let entry = &mut self.state.vms[i];
        let stream = entry.instance.take_stream();
        let ev = entry.instance.callbacks.notify_payload_started(cid, stream);
        proof {
            let updated = self.state.vms@[i as int];
            assert(self.state.vms@ == pre.update(i as int, updated));
            crate::registry::lemma_update_entry_same_cid(pre, i as int, updated);
            self.state.lemma_live_index_unique(cid, i as int);
            assert forall|c: Cid|
                self.state.has_live(c) implies (persisted_cid(self.allocator) matches Some(p)
                && c <= p) by {
                assert(old(self).state.has_live(c));
            }
            assert forall|c: Cid|
                c != cid && old(self).state.has_live(c) implies self.state.live_instance(c)
                == mid.state.live_instance(c) by {
                let w = mid.state.live_index(c);
                mid.state.lemma_live_index_unique(c, w);
                assert(w != i as int);
                assert(self.state.vms@[w] == pre[w]);
                self.state.lemma_live_index_unique(c, w);
            }
        }
        Ok(ev)
    }

    /// A guest reported that its payload is ready to serve.
    ///
    /// Advances the payload state strictly from `Started` and fans the
    /// event out to every registered listener in registration order.
    pub fn notify_payload_ready(&mut self, cid: Cid) -> (r: Result<PayloadEvent, ServiceError>)
        requires
            old(self).wf(),
        ensures
            final(self).wf(),
            final(self).allocator == old(self).allocator,
            final(self).state.debug_held_vms@ == old(self).state.debug_held_vms@,
            forall|c: Cid| final(self).state.has_live(c) <==> old(self).state.has_live(c),
            final(self).state.live_count() == old(self).state.live_count(),
            r is Ok <==> (old(self).state.has_live(cid) && old(self).state.live_instance(cid).payload_state == PayloadState::Started),
            match r {
                Ok(ev) => {
                    let v = old(self).state.live_instance(cid);
                    &&& ev.cid == cid
                    &&& ev.kind == PayloadEventKind::Ready
                    &&& ev.listeners@ == v.callbacks.callbacks@
                    &&& final(self).state.live_instance(cid) == (VmInstance {
                        payload_state: PayloadState::Ready,
                        ..v
                    })
                    &&& forall|c: Cid|
                        c != cid && old(self).state.has_live(c) ==> final(self).state.live_instance(c) == old(self).state.live_instance(c)
                },
                Err(e) => {
                    &&& final(self).state.vms@ == old(self).state.vms@
                    &&& (e.kind == ErrorKind::NotFound && !old(self).state.has_live(cid)) || (
                    e.kind == ErrorKind::IllegalState && old(self).state.has_live(cid))
                },
            },
    {
        let i = self.advance_payload(cid, PayloadState::Ready)?;
        let ev = self.state.vms[i].instance.callbacks.notify_payload_ready(cid);
        Ok(ev)
    }

    /// A guest reported that its payload finished with the given exit
    /// code.
    ///
    /// Advances the payload state strictly from `Ready` and fans the
    /// event (carrying the exit code) out to every registered listener
    /// in registration order.
    pub fn notify_payload_finished(&mut self, cid: Cid, exit_code: i32) -> (r: Result<
        PayloadEvent,
        ServiceError,
    >)
        requires
            old(self).wf(),
        ensures
            final(self).wf(),
            final(self).allocator == old(self).allocator,
            final(self).state.debug_held_vms@ == old(self).state.debug_held_vms@,
            forall|c: Cid| final(self).state.has_live(c) <==> old(self).state.has_live(c),
            final(self).state.live_count() == old(self).state.live_count(),
            r is Ok <==> (old(self).state.has_live(cid) && old(self).state.live_instance(cid).payload_state == PayloadState::Ready),
            match r {
                Ok(ev) => {
                    let v = old(self).state.live_instance(cid);
                    &&& ev.cid == cid
                    &&& ev.kind == (PayloadEventKind::Finished { exit_code })
                    &&& ev.listeners@ == v.callbacks.callbacks@
                    &&& final(self).state.live_instance(cid) == (VmInstance {
                        payload_state: PayloadState::Finished,
                        ..v
                    })
                    &&& forall|c: Cid|
                        c != cid && old(self).state.has_live(c) ==> final(self).state.live_instance(c) == old(self).state.live_instance(c)
                },
                Err(e) => {
                    &&& final(self).state.vms@ == old(self).state.vms@
                    &&& (e.kind == ErrorKind::NotFound && !old(self).state.has_live(cid)) || (
                    e.kind == ErrorKind::IllegalState && old(self).state.has_live(cid))
                },
            },
    {
        let i = self.advance_payload(cid, PayloadState::Finished)?;
        let ev = self.state.vms[i].instance.callbacks.notify_payload_finished(cid, exit_code);
        Ok(ev)
    }

    /// One step of the payload channel bridge: an inbound connection
    /// presented the given peer identifier.
    ///
    /// If a live instance carries it, the connection is atomically
    /// installed into that instance's stream slot, overwriting any
    /// stale previous value. Otherwise nothing changes and the caller
    /// logs and drops the connection; the accept loop never terminates
    /// on an unmatched connection.
    pub fn bridge_attach(&mut self, peer_cid: Cid, stream: StreamId) -> (attached: bool)
        requires
            old(self).wf(),
        ensures
            final(self).wf(),
            final(self).allocator == old(self).allocator,
            final(self).state.debug_held_vms@ == old(self).state.debug_held_vms@,
            forall|c: Cid| final(self).state.has_live(c) <==> old(self).state.has_live(c),
            final(self).state.live_count() == old(self).state.live_count(),
            attached <==> old(self).state.has_live(peer_cid),
            !attached ==> final(self).state.vms@ == old(self).state.vms@,
            attached ==> {
                &&& final(self).state.live_instance(peer_cid) == (VmInstance {
                    stream: Some(stream),
                    ..old(self).state.live_instance(peer_cid)
                })
                &&& forall|c: Cid|
                    c != peer_cid && old(self).state.has_live(c) ==> final(self).state.live_instance(c) == old(self).state.live_instance(c)
            },
    {
        let i = match self.state.get_vm(peer_cid) {
            Some(i) => i,
            None => {
                return false;
            },
        };
        proof {
            old(self).state.lemma_live_index_unique(peer_cid, i as int);
        }
        let ghost pre = self.state.vms@;
        let entry = &mut self.state.vms[i];
        entry.instance.set_stream(stream);
        proof {
            let updated = self.state.vms@[i as int];
            assert(self.state.vms@ == pre.update(i as int, updated));
            crate::registry::lemma_update_entry_same_cid(pre, i as int, updated);
            self.state.lemma_live_index_unique(peer_cid, i as int);
            assert forall|c: Cid|
                self.state.has_live(c) implies (persisted_cid(self.allocator) matches Some(p)
                && c <= p) by {
                assert(old(self).state.has_live(c));
            }
            assert forall|c: Cid|
                c != peer_cid && old(self).state.has_live(c) implies self.state.live_instance(c)
                == old(self).state.live_instance(c) by {
                let w = old(self).state.live_index(c);
                old(self).state.lemma_live_index_unique(c, w);
                assert(w != i as int);
                assert(self.state.vms@[w] == pre[w]);
                self.state.lemma_live_index_unique(c, w);
            }
        }
        true
    }

    /// Validate a request to initialise an empty image as a writable
    /// partition.
    ///
    /// A manage-capable caller with a non-negative size and a known
    /// partition type gets the plan: the size to format and, for an
    /// instance partition, the header bytes to write. Anything else
    /// is rejected without touching the image.
    pub fn initialize_writable_partition(
        &self,
        ctx: &CallerContext,
        image: FileId,
        size: i64,
        partition_type: PartitionType,
    ) -> (r: Result<WritablePartitionPlan, ServiceError>)
        ensures
            r is Ok <==> (spec_may_manage(*ctx) && size >= 0 && (partition_type
                == PartitionType::Raw || partition_type == PartitionType::AndroidVmInstance)),
            r matches Ok(plan) ==> {
                &&& plan.image == image
                &&& plan.size == size as u64
                &&& plan.header@ == (if partition_type == PartitionType::AndroidVmInstance {
                    spec_android_vm_instance_header()
                } else {
                    Seq::<u8>::empty()
                })
            },
            r matches Err(e) ==> {
                ||| (e.kind == ErrorKind::PermissionDenied && !spec_may_manage(*ctx))
                ||| (e.kind == ErrorKind::ArgumentError && spec_may_manage(*ctx) && (size < 0
                    || partition_type matches PartitionType::Other(_)))
            },
    {
        check_manage_access(ctx)?;
        if size < 0 {
            return Err(ServiceError::new(ErrorKind::ArgumentError, "Invalid size"));
        }
        let header = match partition_type {
            PartitionType::Raw => Vec::new(),
            PartitionType::AndroidVmInstance => {
                let mut header: Vec<u8> = Vec::new();
                format_as_android_vm_instance(&mut header);
                header
            },
            PartitionType::Other(_) => {
                return Err(ServiceError::new(ErrorKind::ArgumentError,
                    "Unsupported partition type"));
            },
        };
        Ok(WritablePartitionPlan { image, size: size as u64, header })
    }

    /// Check that starting the VM is allowed: the identifier must be
    /// live and the VM never started. The caller then builds the
    /// child process from the launch configuration and reports the
    /// outcome to [`Self::vm_complete_start`].
    pub fn vm_prepare_start(&self, cid: Cid) -> (r: Result<(), ServiceError>)
        requires
            self.wf(),
        ensures
            r is Ok <==> (self.state.has_live(cid) && self.state.live_instance(cid).vm_state
                == VmState::NotStarted),
            r matches Err(e) ==> (e.kind == ErrorKind::NotFound && !self.state.has_live(cid)) || (
            e.kind == ErrorKind::IllegalState && self.state.has_live(cid)),
    {
        let i = match self.state.get_vm(cid) {
            Some(i) => i,
            None => {
                return Err(ServiceError::new(ErrorKind::NotFound, "cannot find a VM with cid"));
            },
        };
        proof {
            self.state.lemma_live_index_unique(cid, i as int);
        }
        self.state.vms[i].instance.prepare_start()
    }

    /// The launch configuration of the live VM with the given
    /// identifier, for the caller to spawn the child process from.
    pub fn vm_launch_config(&self, cid: Cid) -> (r: Result<&CrosvmConfig, ServiceError>)
        requires
            self.wf(),
        ensures
            r is Ok <==> self.state.has_live(cid),
            r matches Ok(c) ==> *c == self.state.live_instance(cid).config,
            r matches Err(e) ==> e.kind == ErrorKind::NotFound,
    {
        let i = match self.state.get_vm(cid) {
            Some(i) => i,
            None => {
                return Err(ServiceError::new(ErrorKind::NotFound, "cannot find a VM with cid"));
            },
        };
        proof {
            self.state.lemma_live_index_unique(cid, i as int);
        }
        Ok(&self.state.vms[i].instance.config)
    }

    /// Record the outcome of the spawn the caller attempted for the
    /// VM: a spawned child moves it to `Running`, a failed launch to
    /// `Failed`, and the failure is surfaced, never retried.
    pub fn vm_complete_start(&mut self, cid: Cid, spawned: Option<crate::ChildId>) -> (r: Result<
        (),
        ServiceError,
    >)
        requires
            old(self).wf(),
        ensures
            final(self).wf(),
            final(self).allocator == old(self).allocator,
            final(self).state.debug_held_vms@ == old(self).state.debug_held_vms@,
            forall|c: Cid| final(self).state.has_live(c) <==> old(self).state.has_live(c),
            final(self).state.live_count() == old(self).state.live_count(),
            !old(self).state.has_live(cid) ==> (r matches Err(e) && e.kind == ErrorKind::NotFound
                && final(self).state.vms@ == old(self).state.vms@),
            old(self).state.has_live(cid) ==> {
                let v = old(self).state.live_instance(cid);
                &&& (v.vm_state != VmState::NotStarted ==> (r matches Err(e) && e.kind
                    == ErrorKind::IllegalState) && final(self).state.vms@ == old(self).state.vms@)
                &&& (v.vm_state == VmState::NotStarted ==> {
                    &&& (spawned matches Some(child) ==> r is Ok && final(self).state.live_instance(cid) == (VmInstance {
                        vm_state: VmState::Running { child },
                        ..v
                    }))
                    &&& (spawned is None ==> (r matches Err(e) && e.kind == ErrorKind::IOFailure)
                        && final(self).state.live_instance(cid) == (VmInstance {
                        vm_state: VmState::Failed,
                        ..v
                    }))
                    &&& forall|c: Cid|
                        c != cid && old(self).state.has_live(c) ==> final(self).state.live_instance(c) == old(self).state.live_instance(c)
                })
            },
    {
        let i = match self.state.get_vm(cid) {
            Some(i) => i,
            None => {
                return Err(ServiceError::new(ErrorKind::NotFound, "cannot find a VM with cid"));
            },
        };
        proof {
            old(self).state.lemma_live_index_unique(cid, i as int);
        }
        let ghost pre = self.state.vms@;
        let entry = &mut self.state.vms[i];
        let outcome = entry.instance.complete_start(spawned);
        proof {
            let updated = self.state.vms@[i as int];
            assert(self.state.vms@ == pre.update(i as int, updated));
            crate::registry::lemma_update_entry_same_cid(pre, i as int, updated);
            self.state.lemma_live_index_unique(cid, i as int);
            if old(self).state.live_instance(cid).vm_state != VmState::NotStarted {
                assert(self.state.vms@ =~= pre);
            }
            assert forall|c: Cid|
                self.state.has_live(c) implies (persisted_cid(self.allocator) matches Some(p)
                && c <= p) by {
                assert(old(self).state.has_live(c));
            }
            assert forall|c: Cid|
                c != cid && old(self).state.has_live(c) implies self.state.live_instance(c)
                == old(self).state.live_instance(c) by {
                let w = old(self).state.live_index(c);
                old(self).state.lemma_live_index_unique(c, w);
                assert(w != i as int);
                assert(self.state.vms@[w] == pre[w]);
                self.state.lemma_live_index_unique(c, w);
            }
        }
        outcome
    }

    /// Register a callback listener on the VM: appended to the ordered
    /// set, valid in any state, with no check beyond what the facade
    /// already performed.
    pub fn vm_register_callback(&mut self, cid: Cid, callback: CallbackId) -> (r: Result<
        (),
        ServiceError,
    >)
        requires
            old(self).wf(),
        ensures
            final(self).wf(),
            final(self).allocator == old(self).allocator,
            final(self).state.debug_held_vms@ == old(self).state.debug_held_vms@,
            forall|c: Cid| final(self).state.has_live(c) <==> old(self).state.has_live(c),
            final(self).state.live_count() == old(self).state.live_count(),
            r is Ok <==> old(self).state.has_live(cid),
            r matches Err(e) ==> e.kind == ErrorKind::NotFound && final(self).state.vms@ == old(self).state.vms@,
            r is Ok ==> {
                let v = old(self).state.live_instance(cid);
                &&& final(self).state.live_instance(cid) == (VmInstance {
                    callbacks: crate::instance::VirtualMachineCallbacks {
                        callbacks: final(self).state.live_instance(cid).callbacks.callbacks,
                    },
                    ..v
                })
                &&& final(self).state.live_instance(cid).callbacks.callbacks@
                    == v.callbacks.callbacks@.push(callback)
                &&& forall|c: Cid|
                    c != cid && old(self).state.has_live(c) ==> final(self).state.live_instance(c) == old(self).state.live_instance(c)
            },
    {
        let i = match self.state.get_vm(cid) {
            Some(i) => i,
            None => {
                return Err(ServiceError::new(ErrorKind::NotFound, "cannot find a VM with cid"));
            },
        };
        proof {
            old(self).state.lemma_live_index_unique(cid, i as int);
        }
        let ghost pre = self.state.vms@;
        let entry = &mut self.state.vms[i];
        entry.instance.callbacks.add(callback);
        proof {
            let updated = self.state.vms@[i as int];
            assert(self.state.vms@ == pre.update(i as int, updated));
            crate::registry::lemma_update_entry_same_cid(pre, i as int, updated);
            self.state.lemma_live_index_unique(cid, i as int);
            assert forall|c: Cid|
                self.state.has_live(c) implies (persisted_cid(self.allocator) matches Some(p)
                && c <= p) by {
                assert(old(self).state.has_live(c));
            }
            assert forall|c: Cid|
                c != cid && old(self).state.has_live(c) implies self.state.live_instance(c)
                == old(self).state.live_instance(c) by {
                let w = old(self).state.live_index(c);
                old(self).state.lemma_live_index_unique(c, w);
                assert(w != i as int);
                assert(self.state.vms@[w] == pre[w]);
                self.state.lemma_live_index_unique(c, w);
            }
        }
        Ok(())
    }

    /// The externally visible state of the VM: the flattening of its
    /// lifecycle and payload states.
    pub fn vm_get_state(&self, cid: Cid) -> (r: Result<
        crate::instance::VirtualMachineState,
        ServiceError,
    >)
        requires
            self.wf(),
        ensures
            r is Ok <==> self.state.has_live(cid),
            r matches Ok(s) ==> s == crate::instance::spec_get_state(
                self.state.live_instance(cid),
            ),
            r matches Err(e) ==> e.kind == ErrorKind::NotFound,
    {
        let i = match self.state.get_vm(cid) {
            Some(i) => i,
            None => {
                return Err(ServiceError::new(ErrorKind::NotFound, "cannot find a VM with cid"));
            },
        };
        proof {
            self.state.lemma_live_index_unique(cid, i as int);
        }
        Ok(crate::instance::get_state(&self.state.vms[i].instance))
    }

    /// Check that a new transport connection to the guest may be
    /// opened on the given port: only while the VM runs. The caller
    /// opens the connection to the returned identifier and port.
    pub fn vm_connect_vsock(&self, cid: Cid, port: u32) -> (r: Result<(Cid, u32), ServiceError>)
        requires
            self.wf(),
        ensures
            r is Ok <==> (self.state.has_live(cid)
                && self.state.live_instance(cid).vm_state is Running),
            r matches Ok(target) ==> target == (cid, port),
            r matches Err(e) ==> (e.kind == ErrorKind::NotFound && !self.state.has_live(cid)) || (
            e.kind == ErrorKind::IllegalState && self.state.has_live(cid)),
    {
        let i = match self.state.get_vm(cid) {
            Some(i) => i,
            None => {
                return Err(ServiceError::new(ErrorKind::NotFound, "cannot find a VM with cid"));
            },
        };
        proof {
            self.state.lemma_live_index_unique(cid, i as int);
        }
        self.state.vms[i].instance.check_connect(port)
    }

    /// Release one owning handle on the VM, as when a client drops
    /// its handle. When the last one goes, the instance is torn down:
    /// it becomes dead to every query, its state moves to `Dead`, and
    /// the returned child handle, if any, is the process the caller
    /// should kill, best-effort, logging and swallowing errors.
    pub fn release_vm_handle(&mut self, cid: Cid) -> (r: Result<
        Option<crate::ChildId>,
        ServiceError,
    >)
        requires
            old(self).wf(),
        ensures
            final(self).wf(),
            final(self).allocator == old(self).allocator,
            final(self).state.debug_held_vms@ == old(self).state.debug_held_vms@,
            r is Ok <==> old(self).state.has_live(cid),
            match r {
                Ok(killed) => {
                    let i = old(self).state.live_index(cid);
                    let e = old(self).state.vms@[i];
                    // Exactly one handle goes. With others left, the
                    // instance survives untouched; with the last one,
                    // it is torn down and its running child, if any,
                    // is handed back to be killed.
                    &&& (e.handle_count > 1 ==> {
                        &&& killed is None
                        &&& final(self).state.has_live(cid)
                        &&& final(self).state.live_instance(cid) == e.instance
                        &&& final(self).state.live_count() == old(self).state.live_count()
                    })
                    &&& (e.handle_count == 1 ==> {
                        &&& !final(self).state.has_live(cid)
                        &&& final(self).state.live_count() == old(self).state.live_count() - 1
                        &&& killed == (match e.instance.vm_state {
                            VmState::Running { child } => Some(child),
                            _ => None,
                        })
                    })
                    &&& forall|c: Cid|
                        c != cid ==> (final(self).state.has_live(c) <==> old(self).state.has_live(c))
                },
                Err(e) => {
                    &&& e.kind == ErrorKind::NotFound
                    &&& !old(self).state.has_live(cid)
                    &&& *final(self) == *old(self)
                },
            },
    {
        let r = self.state.drop_handle(cid);
        proof {
            assert forall|c: Cid|
                self.state.has_live(c) implies (persisted_cid(self.allocator) matches Some(p)
                && c <= p) by {
                if r is Ok {
                    if c != cid {
                        assert(old(self).state.has_live(c));
                    } else {
                        assert(old(self).state.has_live(cid));
                    }
                }
            }
        }
        r
    }

    /// The caller detected that the VM's child process exited: tear
    /// the instance down to `Dead` and fan the death out to every
    /// registered listener in registration order.
    pub fn on_vm_died(&mut self, cid: Cid) -> (r: Result<PayloadEvent, ServiceError>)
        requires
            old(self).wf(),
        ensures
            final(self).wf(),
            final(self).allocator == old(self).allocator,
            final(self).state.debug_held_vms@ == old(self).state.debug_held_vms@,
            forall|c: Cid| final(self).state.has_live(c) <==> old(self).state.has_live(c),
            final(self).state.live_count() == old(self).state.live_count(),
            r is Ok <==> old(self).state.has_live(cid),
            r matches Err(e) ==> e.kind == ErrorKind::NotFound && final(self).state.vms@ == old(self).state.vms@,
            r matches Ok(ev) ==> {
                let v = old(self).state.live_instance(cid);
                &&& ev.cid == cid
                &&& ev.kind == PayloadEventKind::Died
                &&& ev.listeners@ == v.callbacks.callbacks@
                &&& final(self).state.live_instance(cid).vm_state == (if v.vm_state
                    == VmState::Failed {
                    VmState::Failed
                } else {
                    VmState::Dead
                })
                &&& final(self).state.live_instance(cid) == (VmInstance {
                    vm_state: final(self).state.live_instance(cid).vm_state,
                    ..v
                })
                &&& forall|c: Cid|
                    c != cid && old(self).state.has_live(c) ==> final(self).state.live_instance(c) == old(self).state.live_instance(c)
            },
    {
        let i = match self.state.get_vm(cid) {
            Some(i) => i,
            None => {
                return Err(ServiceError::new(ErrorKind::NotFound, "cannot find a VM with cid"));
            },
        };
        proof {
            old(self).state.lemma_live_index_unique(cid, i as int);
        }
        let ghost pre = self.state.vms@;
        let entry = &mut self.state.vms[i];
        let _child = entry.instance.kill();
        let ev = entry.instance.callbacks.callback_on_died(cid);
        proof {
            let updated = self.state.vms@[i as int];
            assert(self.state.vms@ == pre.update(i as int, updated));
            crate::registry::lemma_update_entry_same_cid(pre, i as int, updated);
            self.state.lemma_live_index_unique(cid, i as int);
            assert forall|c: Cid|
                self.state.has_live(c) implies (persisted_cid(self.allocator) matches Some(p)
                && c <= p) by {
                assert(old(self).state.has_live(c));
            }
            assert forall|c: Cid|
                c != cid && old(self).state.has_live(c) implies self.state.live_instance(c)
                == old(self).state.live_instance(c) by {
                let w = old(self).state.live_index(c);
                old(self).state.lemma_live_index_unique(c, w);
                assert(w != i as int);
                assert(self.state.vms@[w] == pre[w]);
                self.state.lemma_live_index_unique(c, w);
            }
        }
        Ok(ev)
    }

    /// A consistent snapshot of all live VMs for debugging, permitted
    /// only to a debug-capable caller. The snapshot may be stale the
    /// moment it is returned; it is never dangling.
    pub fn debug_list_vms(&self, ctx: &CallerContext) -> (r: Result<
        Vec<crate::registry::VirtualMachineDebugInfo>,
        ServiceError,
    >)
        ensures
            r is Ok <==> spec_may_debug(*ctx),
            r matches Err(e) ==> e.kind == ErrorKind::PermissionDenied,
            r matches Ok(infos) ==> infos@ == self.state.live_vms().map_values(
                |v: VmInstance| crate::registry::spec_debug_info_of(v),
            ) && infos@.len() == self.state.live_count(),
    {
        check_debug_access(ctx)?;
        Ok(self.state.vms())
    }

    /// Hold one more owning handle on the VM on behalf of a debug
    /// caller that cannot keep one itself.
    ///
    /// Succeeds for every debug-capable caller and live identifier;
    /// the one failure beyond that is a handle count at the machine
    /// limit.
    pub fn debug_hold_vm(&mut self, ctx: &CallerContext, cid: Cid) -> (r: Result<
        (),
        ServiceError,
    >)
        requires
            old(self).wf(),
        ensures
            final(self).wf(),
            final(self).allocator == old(self).allocator,
            r is Ok <==> (spec_may_debug(*ctx) && old(self).state.has_live(cid)
                && old(self).state.vms@[old(self).state.live_index(cid)].handle_count
                < u64::MAX),
            match r {
                Ok(()) => {
                    &&& final(self).state.debug_held_vms@ == old(self).state.debug_held_vms@.push(cid)
                    &&& final(self).state.live_vms() == old(self).state.live_vms()
                    &&& forall|c: Cid|
                        final(self).state.has_live(c) <==> old(self).state.has_live(c)
                },
                Err(e) => {
                    &&& *final(self) == *old(self)
                    &&& {
                        ||| (e.kind == ErrorKind::PermissionDenied && !spec_may_debug(*ctx))
                        ||| (e.kind == ErrorKind::NotFound && spec_may_debug(*ctx) && !old(self).state.has_live(cid))
                        ||| (e.kind == ErrorKind::Internal && spec_may_debug(*ctx) && old(self).state.has_live(cid)
                            && old(self).state.vms@[old(self).state.live_index(cid)].handle_count
                            == u64::MAX)
                    }
                },
            },
    {
        check_debug_access(ctx)?;
        let r = self.state.debug_hold_vm(cid);
        proof {
            if r is Ok {
                assert forall|c: Cid|
                    self.state.has_live(c) implies (persisted_cid(self.allocator) matches Some(p)
                    && c <= p) by {
                    assert(old(self).state.has_live(c));
                }
            }
        }
        r
    }

    /// Retrieve and remove a debug-held handle for the VM, handing
    /// ownership back to the caller. Returns the handle if one was
    /// held and nothing otherwise.
    pub fn debug_drop_vm(&mut self, ctx: &CallerContext, cid: Cid) -> (r: Result<
        Option<Cid>,
        ServiceError,
    >)
        requires
            old(self).wf(),
        ensures
            final(self).wf(),
            final(self).allocator == old(self).allocator,
            r is Ok <==> spec_may_debug(*ctx),
            r matches Err(e) ==> e.kind == ErrorKind::PermissionDenied && *final(self) == *old(self),
            r is Ok ==> final(self).state.vms@ == old(self).state.vms@,
            r matches Ok(found) ==> match found {
                Some(c) => {
                    &&& c == cid
                    &&& old(self).state.debug_held_vms@.contains(cid)
                    // Exactly one occurrence of the identifier leaves
                    // the held list; every other hold stays.
                    &&& final(self).state.debug_held_vms@.to_multiset() == old(self).state.debug_held_vms@.to_multiset().remove(cid)
                },
                None => !old(self).state.debug_held_vms@.contains(cid) && final(self).state.debug_held_vms@ == old(self).state.debug_held_vms@,
            },
    {
        check_debug_access(ctx)?;
        let r = self.state.debug_drop_vm(cid);
        proof {
            assert forall|c: Cid|
                self.state.has_live(c) implies (persisted_cid(self.allocator) matches Some(p)
                && c <= p) by {
                assert(old(self).state.has_live(c));
            }
        }
        Ok(r)
    }
}

/// Magic string for the instance image.
pub const ANDROID_VM_INSTANCE_MAGIC: &'static str = "Android-VM-instance";

/// Version of the instance image format.
pub const ANDROID_VM_INSTANCE_VERSION: u16 = 1;

/// The header an instance partition starts with: the magic string
/// followed by the format version as two little-endian bytes.
pub open spec fn spec_android_vm_instance_header() -> Seq<u8> {
    "Android-VM-instance".spec_bytes() + seq![
        (ANDROID_VM_INSTANCE_VERSION % 256) as u8,
        (ANDROID_VM_INSTANCE_VERSION / 256) as u8,
    ]
}

/// Append the instance-partition header: the magic string and the
/// 2-byte little-endian format version. The caller writes the bytes
/// to the start of the partition.
pub fn format_as_android_vm_instance(part: &mut Vec<u8>)
    ensures
        final(part)@ == old(part)@ + spec_android_vm_instance_header(),
{
    let magic = ANDROID_VM_INSTANCE_MAGIC.as_bytes();
    let n = magic.len();
    let mut i: usize = 0;
    while i < n
        invariant
            n == magic@.len(),
            0 <= i <= n,
            part@ == old(part)@ + magic@.subrange(0, i as int),
        decreases n - i,
    {
        part.push(magic[i]);
        proof {
            assert(part@ =~= old(part)@ + magic@.subrange(0, i + 1));
        }
        i = i + 1;
    }
    part.push((ANDROID_VM_INSTANCE_VERSION % 256) as u8);
    part.push((ANDROID_VM_INSTANCE_VERSION / 256) as u8);
    proof {
        assert(magic@.subrange(0, n as int) =~= magic@);
        assert(magic@ == "Android-VM-instance".spec_bytes());
        assert(part@ =~= old(part)@ + spec_android_vm_instance_header());
    }
}

/// The partition type of `initializeWritablePartition`, as the remote
/// surface encodes it.
#[derive(Clone, Copy, Debug, PartialEq, Eq, Structural)]
pub enum PartitionType {
    /// A raw, unformatted partition.
    Raw,
    /// An instance partition carrying the instance-image header.
    AndroidVmInstance,
    /// An unrecognized encoding.
    Other(i32),
}

/// What the caller must do to initialize a writable partition: grow
/// the image to the size and write the header bytes, if any, at its
/// start.
#[derive(Debug)]
pub struct WritablePartitionPlan {
    /// The image file to format.
    pub image: FileId,
    /// The partition size in bytes.
    pub size: u64,
    /// The bytes to write at the start; empty for a raw partition.
    pub header: Vec<u8>,
}

/// What the external composite-image library returned for one
/// partitioned disk: the composite image handle plus every constituent
/// partition file it opened, which must stay open for the life of the
/// VM.
#[derive(Debug)]
pub struct CompositeDiskHandles {
    /// The assembled composite disk image.
    pub image: FileId,
    /// The constituent files backing the composite image.
    pub files: Vec<FileId>,
}

/// Whether every partitioned disk got a composite result.
pub open spec fn disk_results_ok(
    plans: Seq<DiskAssemblyPlan>,
    results: Seq<Option<CompositeDiskHandles>>,
) -> bool {
    forall|i: int|
        0 <= i < plans.len() ==> ((plans[i] is FromPartitions) ==> results[i] is Some)
}

/// The disk handed to the child for one plan and its result.
pub open spec fn spec_disk_file_of(
    plan: DiskAssemblyPlan,
    result: Option<CompositeDiskHandles>,
) -> DiskFile {
    match plan {
        DiskAssemblyPlan::FromImage { image, writable } => DiskFile { image, writable },
        DiskAssemblyPlan::FromPartitions { writable, .. } => DiskFile {
            image: result->Some_0.image,
            writable,
        },
    }
}

/// Every constituent file of every successfully assembled composite
/// disk, in order: these are the files that must stay open as long as
/// the child process runs.
pub open spec fn spec_indirect_files(
    plans: Seq<DiskAssemblyPlan>,
    results: Seq<Option<CompositeDiskHandles>>,
) -> Seq<FileId>
    decreases plans.len(),
{
    if plans.len() == 0 || results.len() == 0 {
        Seq::empty()
    } else {
        spec_indirect_files(plans.drop_last(), results.drop_last()) + (
        if plans.last() is FromPartitions && results.last() is Some {
            results.last()->Some_0.files@
        } else {
            Seq::empty()
        })
    }
}

} // verus!
