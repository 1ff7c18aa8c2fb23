//! The per-instance lifecycle and payload state machines.
//!
//! A [`VmInstance`] represents one virtual machine for its entire
//! lifetime: its launch configuration, its lifecycle state, the
//! guest-reported payload state, the registered callback listeners and
//! the optional attached payload stream. The caller performs the
//! actual process spawn, kill and callback delivery; every decision
//! about what may happen in which state is made here.

use crate::errors::{ErrorKind, ServiceError};
use crate::{CallbackId, ChildId, Cid, FileId, StreamId};
use vstd::prelude::*;

verus! {

/// One disk handed to the child process: a backing file and whether
/// the guest may write it.
#[derive(Clone, Copy, Debug, PartialEq, Eq, Structural)]
pub struct DiskFile {
    /// The open backing file.
    pub image: FileId,
    /// Whether the disk is writable by the guest.
    pub writable: bool,
}

/// The structured launch configuration handed to the child-process
/// spawner.
#[derive(Debug)]
pub struct CrosvmConfig {
    /// The guest context identifier of the VM.
    pub cid: Cid,
    /// The bootloader image, if any.
    pub bootloader: Option<FileId>,
    /// The kernel image, if any.
    pub kernel: Option<FileId>,
    /// The initial ramdisk, if any.
    pub initrd: Option<FileId>,
    /// The assembled disks, in order.
    pub disks: Vec<DiskFile>,
    /// Extra kernel command-line parameters.
    pub params: Option<String>,
    /// Whether the VM memory is protected from the host.
    pub protected: bool,
    /// The memory size in MiB; `None` means the default. Never zero.
    pub memory_mib: Option<u32>,
    /// The host-visible log sink, if any.
    pub log_fd: Option<FileId>,
    /// Files referred to from composite images. They are not passed to
    /// the child directly but must stay open as long as it runs.
    pub indirect_files: Vec<FileId>,
}

/// The requested memory size of a raw configuration, as the spawner
/// takes it: a positive value passes through, anything else means the
/// default.
pub fn memory_mib_of(raw: i32) -> (r: Option<u32>)
    ensures
        raw > 0 ==> r == Some(raw as u32),
        raw <= 0 ==> r is None,
        r != Some(0u32),
{
    if raw > 0 {
        Some(raw as u32)
    } else {
        None
    }
}

/// The lifecycle state of a VM process.
#[derive(Clone, Copy, Debug, PartialEq, Eq, Structural)]
pub enum VmState {
    /// The VM was created but not yet started.
    NotStarted,
    /// The child process is running; the state holds its handle.
    Running {
        /// The spawned child process.
        child: ChildId,
    },
    /// The child process exited or was killed. Terminal.
    Dead,
    /// The launch failed unrecoverably. Terminal.
    Failed,
}

/// The guest-reported progress of the payload, strictly ordered.
#[derive(Clone, Copy, Debug, PartialEq, Eq, Structural)]
pub enum PayloadState {
    /// The payload has not yet reported anything.
    Starting,
    /// The payload reported that it started.
    Started,
    /// The payload reported that it is ready to serve.
    Ready,
    /// The payload reported that it finished.
    Finished,
}

/// The position of a payload state in the strict order
/// `Starting < Started < Ready < Finished`.
pub open spec fn payload_ord(s: PayloadState) -> int {
    match s {
        PayloadState::Starting => 0,
        PayloadState::Started => 1,
        PayloadState::Ready => 2,
        PayloadState::Finished => 3,
    }
}

/// The single externally visible state, flattening the lifecycle and
/// payload states.
#[derive(Clone, Copy, Debug, PartialEq, Eq, Structural)]
pub enum VirtualMachineState {
    /// The VM was not started yet.
    NotStarted,
    /// The VM runs but its payload reported nothing yet.
    Starting,
    /// The payload reported that it started.
    Started,
    /// The payload reported that it is ready.
    Ready,
    /// The payload reported that it finished.
    Finished,
    /// The VM process is dead or its launch failed.
    Dead,
}

/// The ordered set of registered callback listeners of one instance.
///
/// Entries are added by explicit registration and never individually
/// removed; on every lifecycle event all of them are notified in
/// registration order.
#[derive(Debug)]
pub struct VirtualMachineCallbacks {
    /// The listeners, in registration order.
    pub callbacks: Vec<CallbackId>,
}

/// What a lifecycle event carries to the listeners.
#[derive(Clone, Copy, Debug, PartialEq, Eq, Structural)]
pub enum PayloadEventKind {
    /// The payload started; the previously attached stream, if any,
    /// is handed over with the event.
    Started {
        /// The stream taken out of the instance's slot.
        stream: Option<StreamId>,
    },
    /// The payload is ready to serve.
    Ready,
    /// The payload finished with the given exit code.
    Finished {
        /// The payload's exit code.
        exit_code: i32,
    },
    /// The VM died.
    Died,
}

/// One fan-out: the event and the listeners to deliver it to, in
/// registration order. The caller invokes each listener in order,
/// logging and swallowing individual failures.
#[derive(Debug)]
pub struct PayloadEvent {
    /// The guest context identifier the event concerns.
    pub cid: Cid,
    /// What happened.
    pub kind: PayloadEventKind,
    /// Every registered listener, in registration order, each exactly
    /// once.
    pub listeners: Vec<CallbackId>,
}

impl VirtualMachineCallbacks {
    /// An empty callback set.
    pub fn new() -> (r: VirtualMachineCallbacks)
        ensures
            r.callbacks@ == Seq::<CallbackId>::empty(),
    {
        VirtualMachineCallbacks { callbacks: Vec::new() }
    }

    /// Add a new callback to the set.
    pub fn add(&mut self, callback: CallbackId)
        ensures
            final(self).callbacks@ == old(self).callbacks@.push(callback),
    {
        self.callbacks.push(callback);
    }

    /// The fan-out for a payload-started event, carrying the stream
    /// that was attached when the guest reported in.
    pub fn notify_payload_started(&self, cid: Cid, stream: Option<StreamId>) -> (r: PayloadEvent)
        ensures
            r.cid == cid,
            r.kind == (PayloadEventKind::Started { stream }),
            r.listeners@ == self.callbacks@,
    {
        PayloadEvent {
            cid,
            kind: PayloadEventKind::Started { stream },
            listeners: self.callbacks.clone(),
        }
    }

    /// The fan-out for a payload-ready event.
    pub fn notify_payload_ready(&self, cid: Cid) -> (r: PayloadEvent)
        ensures
            r.cid == cid,
            r.kind == PayloadEventKind::Ready,
            r.listeners@ == self.callbacks@,
    {
        PayloadEvent { cid, kind: PayloadEventKind::Ready, listeners: self.callbacks.clone() }
    }

    /// The fan-out for a payload-finished event.
    pub fn notify_payload_finished(&self, cid: Cid, exit_code: i32) -> (r: PayloadEvent)
        ensures
            r.cid == cid,
            r.kind == (PayloadEventKind::Finished { exit_code }),
            r.listeners@ == self.callbacks@,
    {
        PayloadEvent {
            cid,
            kind: PayloadEventKind::Finished { exit_code },
            listeners: self.callbacks.clone(),
        }
    }

    /// The fan-out for the death of the VM.
    pub fn callback_on_died(&self, cid: Cid) -> (r: PayloadEvent)
        ensures
            r.cid == cid,
            r.kind == PayloadEventKind::Died,
            r.listeners@ == self.callbacks@,
    {
        PayloadEvent { cid, kind: PayloadEventKind::Died, listeners: self.callbacks.clone() }
    }
}

/// One virtual machine, for its entire lifetime.
#[derive(Debug)]
pub struct VmInstance {
    /// The launch configuration; its disk and indirect file handles
    /// must stay open as long as the child process runs.
    pub config: CrosvmConfig,
    /// The guest context identifier, unique among live instances.
    pub cid: Cid,
    /// The lifecycle state.
    pub vm_state: VmState,
    /// The guest-reported payload state.
    pub payload_state: PayloadState,
    /// The directory holding this VM's temporary image files.
    pub temporary_directory: String,
    /// The user id of the requester.
    pub requester_uid: u32,
    /// The security context of the requester.
    pub requester_sid: String,
    /// The process id of the requester, for debugging only.
    pub requester_debug_pid: i32,
    /// The registered callback listeners.
    pub callbacks: VirtualMachineCallbacks,
    /// The attached payload stream, empty until the bridge installs a
    /// connection from the guest.
    pub stream: Option<StreamId>,
}

impl VmInstance {
    /// A fresh instance: not started, payload starting, no listeners,
    /// no stream.
    pub fn new(
        config: CrosvmConfig,
        temporary_directory: String,
        requester_uid: u32,
        requester_sid: String,
        requester_debug_pid: i32,
    ) -> (r: VmInstance)
        ensures
            r.cid == config.cid,
            r.config == config,
            r.vm_state == VmState::NotStarted,
            r.payload_state == PayloadState::Starting,
            r.temporary_directory == temporary_directory,
            r.requester_uid == requester_uid,
            r.requester_sid == requester_sid,
            r.requester_debug_pid == requester_debug_pid,
            r.callbacks.callbacks@ == Seq::<CallbackId>::empty(),
            r.stream is None,
    {
        let cid = config.cid;
        VmInstance {
            config,
            cid,
            vm_state: VmState::NotStarted,
            payload_state: PayloadState::Starting,
            temporary_directory,
            requester_uid,
            requester_sid,
            requester_debug_pid,
            callbacks: VirtualMachineCallbacks::new(),
            stream: None,
        }
    }

    /// Check that a start is allowed: only a VM that was never started
    /// may start.
    pub fn prepare_start(&self) -> (r: Result<(), ServiceError>)
        ensures
            r is Ok <==> self.vm_state == VmState::NotStarted,
            r matches Err(e) ==> e.kind == ErrorKind::IllegalState,
    {
        match self.vm_state {
            VmState::NotStarted => Ok(()),
            _ => Err(ServiceError::new(ErrorKind::IllegalState, "VM already started")),
        }
    }

    /// Record the outcome of the spawn the caller attempted: a spawned
    /// child moves the VM to `Running`, a failed launch to `Failed`.
    /// A launch failure is surfaced and never retried. Invalid unless
    /// the VM was `NotStarted`.
    pub fn complete_start(&mut self, spawned: Option<ChildId>) -> (r: Result<(), ServiceError>)
        ensures
            old(self).vm_state != VmState::NotStarted ==> {
                &&& r matches Err(e) && e.kind == ErrorKind::IllegalState
                &&& *final(self) == *old(self)
            },
            old(self).vm_state == VmState::NotStarted ==> match spawned {
                Some(child) => r is Ok && final(self).vm_state == (VmState::Running { child }),
                None => {
                    &&& r matches Err(e) && e.kind == ErrorKind::IOFailure
                    &&& final(self).vm_state == VmState::Failed
                },
            },
            *final(self) == (VmInstance { vm_state: final(self).vm_state, ..*old(self) }),
    {
        match self.vm_state {
            VmState::NotStarted => match spawned {
                Some(child) => {
                    self.vm_state = VmState::Running { child };
                    Ok(())
                },
                None => {
                    self.vm_state = VmState::Failed;
                    Err(ServiceError::new(ErrorKind::IOFailure, "Failed to start VM"))
                },
            },
            _ => Err(ServiceError::new(ErrorKind::IllegalState, "VM already started")),
        }
    }

    /// Attempt a strict payload advance: the request must be exactly
    /// the next state in the order, anything else is rejected without
    /// mutating state.
    pub fn update_payload_state(&mut self, new_state: PayloadState) -> (r: Result<
        (),
        ServiceError,
    >)
        ensures
            r is Ok <==> payload_ord(new_state) == payload_ord(old(self).payload_state) + 1,
            r is Ok ==> *final(self) == (VmInstance { payload_state: new_state, ..*old(self) }),
            r matches Err(e) ==> e.kind == ErrorKind::IllegalState && *final(self) == *old(self),
    {
        let ord_old: u32 = match self.payload_state {
            PayloadState::Starting => 0,
            PayloadState::Started => 1,
            PayloadState::Ready => 2,
            PayloadState::Finished => 3,
        };
        let ord_new: u32 = match new_state {
            PayloadState::Starting => 0,
            PayloadState::Started => 1,
            PayloadState::Ready => 2,
            PayloadState::Finished => 3,
        };
        if ord_new == ord_old + 1 {
            self.payload_state = new_state;
            Ok(())
        } else {
            Err(ServiceError::new(ErrorKind::IllegalState, "payload transition out of order"))
        }
    }

    /// Best-effort teardown: a VM that is not yet terminal moves to
    /// `Dead`; the returned child handle, if any, is the process the
    /// caller should kill. Does not wait for confirmation, and errors
    /// during the actual kill are logged by the caller, never
    /// propagated.
    pub fn kill(&mut self) -> (r: Option<ChildId>)
        ensures
            match old(self).vm_state {
                VmState::Running { child } => r == Some(child)
                    && final(self).vm_state == VmState::Dead,
                VmState::NotStarted => r is None && final(self).vm_state == VmState::Dead,
                VmState::Dead => r is None && final(self).vm_state == VmState::Dead,
                VmState::Failed => r is None && final(self).vm_state == VmState::Failed,
            },
            *final(self) == (VmInstance { vm_state: final(self).vm_state, ..*old(self) }),
    {
        match self.vm_state {
            VmState::Running { child } => {
                self.vm_state = VmState::Dead;
                Some(child)
            },
            VmState::NotStarted => {
                self.vm_state = VmState::Dead;
                None
            },
            _ => None,
        }
    }

    /// Check that a new transport connection to the guest may be
    /// opened: only while the VM runs; otherwise the caller gets
    /// `IllegalState`.
    pub fn check_connect(&self, port: u32) -> (r: Result<(Cid, u32), ServiceError>)
        ensures
            r is Ok <==> self.vm_state is Running,
            r matches Ok(target) ==> target == (self.cid, port),
            r matches Err(e) ==> e.kind == ErrorKind::IllegalState,
    {
        match self.vm_state {
            VmState::Running { .. } => Ok((self.cid, port)),
            _ => Err(ServiceError::new(ErrorKind::IllegalState, "VM is not running")),
        }
    }

    /// Atomically take the attached payload stream out of its slot.
    pub fn take_stream(&mut self) -> (r: Option<StreamId>)
        ensures
            r == old(self).stream,
            *final(self) == (VmInstance { stream: None, ..*old(self) }),
    {
        self.stream.take()
    }

    /// Install a connection from the guest into the stream slot,
    /// overwriting any stale previous value.
    pub fn set_stream(&mut self, stream: StreamId)
        ensures
            *final(self) == (VmInstance { stream: Some(stream), ..*old(self) }),
    {
        self.stream = Some(stream);
    }
}

/// The externally visible state of an instance: the flattening of its
/// lifecycle and payload states. Both `Dead` and `Failed` surface as
/// `Dead`.
pub open spec fn spec_get_state(instance: VmInstance) -> VirtualMachineState {
    match instance.vm_state {
        VmState::NotStarted => VirtualMachineState::NotStarted,
        VmState::Running { .. } => match instance.payload_state {
            PayloadState::Starting => VirtualMachineState::Starting,
            PayloadState::Started => VirtualMachineState::Started,
            PayloadState::Ready => VirtualMachineState::Ready,
            PayloadState::Finished => VirtualMachineState::Finished,
        },
        VmState::Dead => VirtualMachineState::Dead,
        VmState::Failed => VirtualMachineState::Dead,
    }
}

/// The externally visible state of the given instance.
pub fn get_state(instance: &VmInstance) -> (r: VirtualMachineState)
    ensures
        r == spec_get_state(*instance),
{
    match instance.vm_state {
        VmState::NotStarted => VirtualMachineState::NotStarted,
        VmState::Running { .. } => match instance.payload_state {
            PayloadState::Starting => VirtualMachineState::Starting,
            PayloadState::Started => VirtualMachineState::Started,
            PayloadState::Ready => VirtualMachineState::Ready,
            PayloadState::Finished => VirtualMachineState::Finished,
        },
        VmState::Dead => VirtualMachineState::Dead,
        VmState::Failed => VirtualMachineState::Dead,
    }
}

} // verus!
