use vstd::prelude::*;

verus! {

/// The failure kinds that the container runtime surfaces to its caller.
#[derive(Clone, Copy, Debug, PartialEq, Eq, Structural)]
pub enum Error {
    /// The caller does not run with root privileges.
    PermissionDenied,
    /// A memory limit string is not `<digits><unit>` with a recognized unit,
    /// or its value does not fit in a `u64`.
    InvalidMemoryLimit,
    /// An image name holds more than one `:`.
    InvalidImageName,
    /// A manifest is not schema v2, or its config digest is too short to slice.
    InvalidManifest,
    /// The key-value store cannot be opened or a store operation failed.
    StoreUnavailable,
    /// Registry transport, auth, or layer integrity failure.
    ImageFetchFailed,
    /// mkdir, mount, unmount, or tar extraction failure.
    FilesystemSetupFailed,
    /// clone/setns/netns creation failure.
    NamespaceSetupFailed,
    /// An rtnetlink link/address/route operation failed.
    NetworkSetupFailed,
    /// A D-Bus call or a cgroup.procs write failed.
    CgroupSetupFailed,
    /// exec was asked for a container id that is not running.
    ContainerNotFound,
    /// Teardown could not find the IP mapping for the container's veth.
    IpNotFound,
    /// A bounded retry loop (container id or IP sampling) ran out of attempts.
    AllocationExhausted,
}

} // verus!
