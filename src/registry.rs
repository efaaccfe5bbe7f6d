use vstd::prelude::*;

verus! {

/// The global interfaces that a capture needs, as the server names them.
#[derive(Clone, Copy, Debug, PartialEq, Eq, Structural)]
pub enum Interface {
    CaptureManager,
    ShmAllocator,
    Output,
    Other,
}

/// Interface version at which the frame-capture manager is bound.
pub const CAPTURE_MANAGER_VERSION: u32 = 3;

/// Interface version at which the shared-memory allocator is bound.
pub const SHM_VERSION: u32 = 1;

/// Interface version at which an output is bound.
pub const OUTPUT_VERSION: u32 = 3;

pub open spec fn interface_of(name: Seq<char>) -> Interface {
    if name == "zwlr_screencopy_manager_v1"@ {
        Interface::CaptureManager
    } else if name == "wl_shm"@ {
        Interface::ShmAllocator
    } else if name == "wl_output"@ {
        Interface::Output
    } else {
        Interface::Other
    }
}

/// The version to bind a global of `interface` at, whatever version the
/// server announced.
pub open spec fn bind_version(interface: Interface) -> u32 {
    match interface {
        Interface::CaptureManager => CAPTURE_MANAGER_VERSION,
        Interface::ShmAllocator => SHM_VERSION,
        _ => OUTPUT_VERSION,
    }
}

/// Character-wise equality of two strings.
pub fn str_equals(a: &str, b: &str) -> (r: bool)
    ensures
        r == (a@ == b@),
{
    let n = a.unicode_len();
    if n != b.unicode_len() {
        return false;
    }
    let mut i: usize = 0;
    while i < n
        invariant
            n == a@.len(),
            n == b@.len(),
            i <= n,
            forall|j: int| 0 <= j < i ==> a@[j] == b@[j],
        decreases n - i,
    {
        if a.get_char(i) != b.get_char(i) {
            return false;
        }
        i = i + 1;
    }
    assert(a@ =~= b@);
    true
}

/// Tells which needed interface, if any, a global's interface name denotes.
pub fn classify_interface(name: &str) -> (r: Interface)
    ensures
        r == interface_of(name@),
{
    if str_equals(name, "zwlr_screencopy_manager_v1") {
        Interface::CaptureManager
    } else if str_equals(name, "wl_shm") {
        Interface::ShmAllocator
    } else if str_equals(name, "wl_output") {
        Interface::Output
    } else {
        Interface::Other
    }
}

/// A request to bind the global `name` as `interface` at `version`.
#[derive(Clone, Copy, Debug, PartialEq, Eq, Structural)]
pub struct BindRequest {
    pub name: u32,
    pub interface: Interface,
    pub version: u32,
}

/// The global objects found during enumeration, each by its global name.
#[derive(Debug)]
pub struct CapabilityRegistry {
    pub capture_manager: Option<u32>,
    pub shm_allocator: Option<u32>,
    pub outputs: Vec<u32>,
}

impl CapabilityRegistry {
    /// A capture can run: a capture manager, an allocator and an output are known.
    pub open spec fn is_complete(&self) -> bool {
        &&& self.capture_manager is Some
        &&& self.shm_allocator is Some
        &&& self.outputs@.len() > 0
    }

    /// The registry that an announcement of global `name` as `interface` leaves:
    /// the first capture manager and allocator are kept, every output is added.
    pub open spec fn after_global(
        pre: (Option<u32>, Option<u32>, Seq<u32>),
        interface: Interface,
        name: u32,
    ) -> (Option<u32>, Option<u32>, Seq<u32>) {
        match interface {
            Interface::CaptureManager => if pre.0 is None {
                (Some(name), pre.1, pre.2)
            } else {
                pre
            },
            Interface::ShmAllocator => if pre.1 is None {
                (pre.0, Some(name), pre.2)
            } else {
                pre
            },
            Interface::Output => (pre.0, pre.1, pre.2.push(name)),
            Interface::Other => pre,
        }
    }

    pub open spec fn parts(&self) -> (Option<u32>, Option<u32>, Seq<u32>) {
        (self.capture_manager, self.shm_allocator, self.outputs@)
    }

    pub fn new() -> (r: CapabilityRegistry)
        ensures
            r.capture_manager is None,
            r.shm_allocator is None,
            r.outputs@.len() == 0,
    {
        CapabilityRegistry { capture_manager: None, shm_allocator: None, outputs: Vec::new() }
    }

    pub fn complete(&self) -> (b: bool)
        ensures
            b == self.is_complete(),
    {
        self.capture_manager.is_some() && self.shm_allocator.is_some() && self.outputs.len() > 0
    }

    /// Records the announcement of global `name` with interface name
    /// `interface`, and returns the bind that it calls for: one for the first
    /// capture manager, the first allocator and every output, each at its
    /// fixed version.
    pub fn on_global(&mut self, interface: &str, name: u32) -> (r: Option<BindRequest>)
        ensures
            final(self).parts() == Self::after_global(old(self).parts(), interface_of(interface@), name),
            r == (if final(self).parts() == old(self).parts() {
                None
            } else {
                Some(
                    BindRequest {
                        name,
                        interface: interface_of(interface@),
                        version: bind_version(interface_of(interface@)),
                    },
                )
            }),
    {
        let kind = classify_interface(interface);
        let bound = match kind {
            Interface::CaptureManager => CAPTURE_MANAGER_VERSION,
            Interface::ShmAllocator => SHM_VERSION,
            _ => OUTPUT_VERSION,
        };
        match kind {
            Interface::CaptureManager => {
                if self.capture_manager.is_none() {
                    self.capture_manager = Some(name);
                    return Some(BindRequest { name, interface: kind, version: bound });
                }
                None
            },
            Interface::ShmAllocator => {
                if self.shm_allocator.is_none() {
                    self.shm_allocator = Some(name);
                    return Some(BindRequest { name, interface: kind, version: bound });
                }
                None
            },
            Interface::Output => {
                self.outputs.push(name);
                proof {
                    assert(self.outputs@.len() != old(self).outputs@.len());
                }
                Some(BindRequest { name, interface: kind, version: bound })
            },
            Interface::Other => None,
        }
    }

    /// The first output announced, which captures are taken from.
    pub fn first_output(&self) -> (r: u32)
        requires
            self.is_complete(),
        ensures
            r == self.outputs@[0],
    {
        self.outputs[0]
    }
}

} // verus!
