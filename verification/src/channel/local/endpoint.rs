//! Where a local endpoint lives: the runtime directory, the socket path of a channel, and the
//! ownership and permission rules the directory must satisfy.

use vstd::prelude::*;
use crate::channel::local::wire::Access;
use crate::error::{IoErrorKind, LavaFlowError, Result};
use crate::text::{decimal_string, push_str, u64_to_decimal};
use crate::types::ChannelId;

verus! {

/// Name of the environment variable that overrides the runtime directory.
pub const RUNTIME_DIR_OVERRIDE_ENV: &'static str = "LAVA_FLOW_RUNTIME_DIR";

/// Decimal rendering of a `u32`, as `u32::to_string` produces it.
pub fn u32_to_decimal(n: u32) -> (r: String)
    ensures
        r@ == decimal_string(n as nat),
{
    u64_to_decimal(n as u64)
}

/// A path extended by a relative component, as `Path::join` does: a separator is inserted
/// unless the base is empty or already ends with one.
pub open spec fn path_join(base: Seq<char>, component: Seq<char>) -> Seq<char> {
    if base.len() == 0 {
        component
    } else if base.last() == '/' {
        base + component
    } else {
        base + seq!['/'] + component
    }
}

/// Extends a path by a relative component.
pub fn join_path(base: &str, component: &str) -> (r: String)
    ensures
        r@ == path_join(base@, component@),
{
    let n: usize = base.unicode_len();
    let mut out = crate::text::owned(base);
    if n == 0 {
        return crate::text::owned(component);
    }
    if base.get_char(n - 1) != '/' {
        push_str(&mut out, "/");
        proof {
            reveal_strlit("/");
        }
    }
    push_str(&mut out, component);
    out
}

/// A configured path: present and non-empty.
pub open spec fn non_empty(p: Option<Seq<char>>) -> Option<Seq<char>> {
    match p {
        Some(v) => if v.len() > 0 {
            Some(v)
        } else {
            None
        },
        None => None,
    }
}

/// The per-user runtime directory: the explicit override; else `lava-flow` under the XDG
/// runtime directory; else `lava-flow` under `/run/user/<uid>` when that exists; else
/// `.local/run/lava-flow` under the home directory; else none. Empty settings count as unset.
pub open spec fn spec_runtime_dir(
    runtime_dir_override: Option<Seq<char>>,
    xdg_runtime_dir: Option<Seq<char>>,
    uid: u32,
    run_user_exists: bool,
    home_dir: Option<Seq<char>>,
) -> Option<Seq<char>> {
    if non_empty(runtime_dir_override) is Some {
        runtime_dir_override
    } else if non_empty(xdg_runtime_dir) is Some {
        Some(path_join(xdg_runtime_dir->0, "lava-flow"@))
    } else if run_user_exists {
        Some(path_join(path_join("/run/user"@, decimal_string(uid as nat)), "lava-flow"@))
    } else {
        match home_dir {
            Some(h) => Some(path_join(path_join(path_join(h, ".local"@), "run"@), "lava-flow"@)),
            None => None,
        }
    }
}

/// A non-empty override decides the runtime directory, whatever the XDG directory, the user,
/// whether `/run/user/<uid>` exists and the home directory are; without one, a non-empty XDG
/// directory decides next.
pub proof fn lemma_runtime_dir_override_wins(
    runtime_dir_override: Option<Seq<char>>,
    xdg_runtime_dir: Option<Seq<char>>,
    uid: u32,
    run_user_exists: bool,
    home_dir: Option<Seq<char>>,
)
    ensures
        runtime_dir_override matches Some(o) && o.len() > 0 ==> spec_runtime_dir(
            runtime_dir_override,
            xdg_runtime_dir,
            uid,
            run_user_exists,
            home_dir,
        ) == runtime_dir_override,
        !(runtime_dir_override matches Some(o) && o.len() > 0) && (xdg_runtime_dir matches Some(x)
            && x.len() > 0) ==> spec_runtime_dir(
            runtime_dir_override,
            xdg_runtime_dir,
            uid,
            run_user_exists,
            home_dir,
        ) == Some(path_join(xdg_runtime_dir->0, "lava-flow"@)),
{
}

/// The characters of an optional string.
pub open spec fn opt_chars(s: Option<String>) -> Option<Seq<char>> {
    match s {
        Some(v) => Some(v@),
        None => None,
    }
}

/// Chooses the per-user runtime directory from what the environment provides.
pub fn runtime_dir_path_with(
    runtime_dir_override: Option<String>,
    xdg_runtime_dir: Option<String>,
    uid: u32,
    run_user_exists: bool,
    home_dir: Option<String>,
) -> (r: Option<String>)
    ensures
        opt_chars(r) == spec_runtime_dir(
            opt_chars(runtime_dir_override),
            opt_chars(xdg_runtime_dir),
            uid,
            run_user_exists,
            opt_chars(home_dir),
        ),
{
    proof {
        reveal_strlit("lava-flow");
        reveal_strlit("/run/user");
        reveal_strlit(".local");
        reveal_strlit("run");
    }
    if let Some(path) = runtime_dir_override {
        if path.as_str().unicode_len() > 0 {
            return Some(path);
        }
    }
    if let Some(path) = xdg_runtime_dir {
        if path.as_str().unicode_len() > 0 {
            return Some(join_path(path.as_str(), "lava-flow"));
        }
    }
    if run_user_exists {
        let uid_text = u32_to_decimal(uid);
        let run_user = join_path("/run/user", uid_text.as_str());
        return Some(join_path(run_user.as_str(), "lava-flow"));
    }
    match home_dir {
        Some(home) => {
            let local = join_path(home.as_str(), ".local");
            let run = join_path(local.as_str(), "run");
            Some(join_path(run.as_str(), "lava-flow"))
        },
        None => None,
    }
}

/// The directory that holds the endpoints of an access policy: the per-user runtime directory
/// (if one was resolved) for `CurrentSession`, the system temporary directory, which every
/// local user can reach, for `AuthenticatedUsers`.
pub fn endpoint_directory(access: Access, runtime_dir: Option<String>, temp_dir: String) -> (r: Option<
    String,
>)
    ensures
        access == Access::CurrentSession ==> opt_chars(r) == opt_chars(runtime_dir),
        access == Access::AuthenticatedUsers ==> opt_chars(r) == Some(temp_dir@),
{
    match access {
        Access::CurrentSession => runtime_dir,
        Access::AuthenticatedUsers => Some(temp_dir),
    }
}

/// Socket file name of a channel under an access policy.
pub open spec fn spec_socket_file_name(channel: Seq<char>, access: Access) -> Seq<char> {
    match access {
        Access::CurrentSession => channel + ".sock"@,
        Access::AuthenticatedUsers => "lava-flow-"@ + channel + ".sock"@,
    }
}

/// The directory that holds a channel's socket: the resolved runtime directory, or
/// `/run/user/<uid>/lava-flow` when none could be resolved.
pub open spec fn spec_endpoint_dir(runtime_dir: Option<Seq<char>>, uid: u32) -> Seq<char> {
    match runtime_dir {
        Some(d) => d,
        None => path_join(path_join("/run/user"@, decimal_string(uid as nat)), "lava-flow"@),
    }
}

/// Different channels have different endpoints: under the same runtime directory, user and
/// access policy, two distinct channel ids give two distinct socket paths.
pub proof fn lemma_distinct_channels_distinct_addresses(
    runtime_dir: Option<Seq<char>>,
    uid: u32,
    access: Access,
    first: Seq<char>,
    second: Seq<char>,
)
    requires
        first != second,
    ensures
        path_join(spec_endpoint_dir(runtime_dir, uid), spec_socket_file_name(first, access)) != path_join(
            spec_endpoint_dir(runtime_dir, uid),
            spec_socket_file_name(second, access),
        ),
{
    let dir = spec_endpoint_dir(runtime_dir, uid);
    let f1 = spec_socket_file_name(first, access);
    let f2 = spec_socket_file_name(second, access);
    let prefix: Seq<char> = if dir.len() == 0 {
        Seq::empty()
    } else if dir.last() == '/' {
        dir
    } else {
        dir + seq!['/']
    };
    assert(path_join(dir, f1) =~= prefix + f1);
    assert(path_join(dir, f2) =~= prefix + f2);
    let head: Seq<char> = match access {
        Access::CurrentSession => Seq::empty(),
        Access::AuthenticatedUsers => "lava-flow-"@,
    };
    let tail = ".sock"@;
    assert(f1 =~= head + first + tail);
    assert(f2 =~= head + second + tail);
    if path_join(dir, f1) == path_join(dir, f2) {
        let a = prefix + f1;
        let b = prefix + f2;
        assert(a.len() == b.len());
        assert(first.len() == second.len());
        let start: int = (prefix.len() + head.len()) as int;
        assert(a.subrange(start, start + first.len() as int) =~= first);
        assert(b.subrange(start, start + second.len() as int) =~= second);
        assert(false);
    }
}

/// Address of a local endpoint: the socket path of a channel.
#[derive(Clone, Debug, PartialEq, Eq)]
pub struct EndpointAddress(String);

impl View for EndpointAddress {
    type V = Seq<char>;

    closed spec fn view(&self) -> Seq<char> {
        self.0@
    }
}

impl EndpointAddress {
    /// Builds the socket path of `channel_id` inside the endpoint directory. For
    /// `AuthenticatedUsers` the caller passes the system temporary directory as `runtime_dir`;
    /// for `CurrentSession` the per-user runtime directory, if one was resolved.
    pub fn from_channel(channel_id: &ChannelId, access: Access, runtime_dir: Option<String>, uid: u32) -> (r:
        Self)
        ensures
            r@ == path_join(
                spec_endpoint_dir(opt_chars(runtime_dir), uid),
                spec_socket_file_name(channel_id@, access),
            ),
    {
        proof {
            reveal_strlit("lava-flow");
            reveal_strlit("/run/user");
            reveal_strlit(".sock");
            reveal_strlit("lava-flow-");
        }
        let base = match runtime_dir {
            Some(path) => path,
            None => {
                let uid_text = u32_to_decimal(uid);
                let run_user = join_path("/run/user", uid_text.as_str());
                join_path(run_user.as_str(), "lava-flow")
            },
        };
        let mut filename = String::new();
        match access {
            Access::CurrentSession => {
                push_str(&mut filename, channel_id.as_str());
                push_str(&mut filename, ".sock");
            },
            Access::AuthenticatedUsers => {
                push_str(&mut filename, "lava-flow-");
                push_str(&mut filename, channel_id.as_str());
                push_str(&mut filename, ".sock");
            },
        }
        assert(filename@ =~= spec_socket_file_name(channel_id@, access));
        EndpointAddress(join_path(base.as_str(), filename.as_str()))
    }

    /// Wraps a path as an address.
    pub fn from_path(path: String) -> (r: Self)
        ensures
            r@ == path@,
    {
        EndpointAddress(path)
    }

    /// Returns the socket path.
    pub fn as_str(&self) -> (r: &str)
        ensures
            r@ == self@,
    {
        self.0.as_str()
    }
}

/// `e` is a runtime directory refusal with the given message.
pub open spec fn is_runtime_dir_error(e: LavaFlowError, msg: Seq<char>) -> bool {
    &&& e matches LavaFlowError::ChannelTransportOperation { operation, kind, message }
    &&& operation@ == "validate_runtime_dir"@
    &&& kind == IoErrorKind::PermissionDenied
    &&& message@ == msg
}

fn runtime_dir_permission_error(message: &'static str) -> (e: LavaFlowError)
    ensures
        is_runtime_dir_error(e, message@),
{
    LavaFlowError::ChannelTransportOperation {
        operation: "validate_runtime_dir",
        kind: IoErrorKind::PermissionDenied,
        message: crate::text::owned(message),
    }
}

/// What the file system reports of a directory, without following a final symlink.
#[derive(Copy, Clone, Debug, PartialEq, Eq, Structural)]
pub struct DirectoryStatus {
    pub is_symlink: bool,
    pub is_dir: bool,
    pub owner_uid: u32,
    pub mode: u32,
}

/// Why a directory cannot be the runtime directory of user `euid`, checked in this order;
/// `None` when it is a real directory owned by that user.
pub open spec fn owned_dir_refusal(status: DirectoryStatus, euid: u32) -> Option<Seq<char>> {
    if status.is_symlink {
        Some("runtime directory must not be a symlink"@)
    } else if !status.is_dir {
        Some("runtime directory must be a directory"@)
    } else if status.owner_uid != euid {
        Some("runtime directory must be owned by the effective user"@)
    } else {
        None
    }
}

/// Why a directory cannot be the private runtime directory of user `euid`: as
/// [`owned_dir_refusal`], then any permission bit for group or others.
pub open spec fn private_dir_refusal(status: DirectoryStatus, euid: u32) -> Option<Seq<char>> {
    if owned_dir_refusal(status, euid) is Some {
        owned_dir_refusal(status, euid)
    } else if status.mode & 0o077 != 0 {
        Some("runtime directory permissions must not grant group or other access"@)
    } else {
        None
    }
}

/// Why a directory cannot hold `AuthenticatedUsers` endpoints: it must be a real directory that
/// others may write and, by its sticky bit, not unlink from.
pub open spec fn public_dir_refusal(status: DirectoryStatus) -> Option<Seq<char>> {
    if status.is_symlink || !status.is_dir {
        Some("public runtime path must be a non-symlink directory"@)
    } else if status.mode & 0o002 == 0 || status.mode & 0o1000 == 0 {
        Some("public runtime directory must be sticky and writable by other users"@)
    } else {
        None
    }
}

/// Checks that the runtime directory is a real directory owned by the effective user.
pub fn validate_runtime_dir(status: DirectoryStatus, euid: u32) -> (r: Result<()>)
    ensures
        r is Ok <==> owned_dir_refusal(status, euid) is None,
        r matches Err(e) ==> is_runtime_dir_error(e, owned_dir_refusal(status, euid)->0),
{
    if status.is_symlink {
        return Err(runtime_dir_permission_error("runtime directory must not be a symlink"));
    }
    if !status.is_dir {
        return Err(runtime_dir_permission_error("runtime directory must be a directory"));
    }
    if status.owner_uid != euid {
        return Err(
            runtime_dir_permission_error("runtime directory must be owned by the effective user"),
        );
    }
    Ok(())
}

/// Checks a private runtime directory: as [`validate_runtime_dir`], and no permission bits for
/// group or others.
pub fn validate_private_runtime_dir(status: DirectoryStatus, euid: u32) -> (r: Result<()>)
    ensures
        r is Ok <==> private_dir_refusal(status, euid) is None,
        r matches Err(e) ==> is_runtime_dir_error(e, private_dir_refusal(status, euid)->0),
{
    validate_runtime_dir(status, euid)?;
    if status.mode & 0o077 != 0 {
        return Err(
            runtime_dir_permission_error(
                "runtime directory permissions must not grant group or other access",
            ),
        );
    }
    Ok(())
}

/// Checks the directory of endpoints under `access`: the shared directory of
/// `AuthenticatedUsers` endpoints by [`public_dir_refusal`]; `CurrentSession` gets the private
/// rules.
pub fn validate_public_runtime_dir(status: DirectoryStatus, euid: u32, access: Access) -> (r: Result<()>)
    ensures
        access == Access::CurrentSession ==> (r is Ok <==> private_dir_refusal(status, euid) is None)
            && (r matches Err(e) ==> is_runtime_dir_error(e, private_dir_refusal(status, euid)->0)),
        access == Access::AuthenticatedUsers ==> (r is Ok <==> public_dir_refusal(status) is None)
            && (r matches Err(e) ==> is_runtime_dir_error(e, public_dir_refusal(status)->0)),
{
    if access == Access::CurrentSession {
        return validate_private_runtime_dir(status, euid);
    }
    if status.is_symlink || !status.is_dir {
        return Err(runtime_dir_permission_error("public runtime path must be a non-symlink directory"));
    }
    if status.mode & 0o002 == 0 || status.mode & 0o1000 == 0 {
        return Err(
            runtime_dir_permission_error(
                "public runtime directory must be sticky and writable by other users",
            ),
        );
    }
    Ok(())
}

/// Permission bits of the private runtime directory: owner read, write and search.
pub const PRIVATE_RUNTIME_DIR_MODE: u32 = 0o700;

/// Permission bits of an `AuthenticatedUsers` socket: read and write for everyone.
pub const PUBLIC_SOCKET_MODE: u32 = 0o666;

/// The next thing a listener setup asks of the file system or the socket layer.
#[derive(Copy, Clone, Debug, PartialEq, Eq, Structural)]
pub enum SetupAction {
    /// Create the endpoint directory and its parents.
    CreateDirAll,
    /// Read the endpoint directory's status without following a final symlink.
    InspectDir,
    /// Set the endpoint directory's permission bits.
    SetDirMode(u32),
    /// Remove a socket file left at the endpoint path.
    RemoveStaleSocket,
    /// Bind the listening socket at the endpoint path.
    Bind,
    /// Set the socket file's permission bits.
    SetSocketMode(u32),
    /// The listener is bound and ready.
    Finished,
}

/// What came of the last action.
pub enum SetupEvent {
    /// The action succeeded.
    Completed,
    /// The directory's status, for an `InspectDir` action.
    Status(DirectoryStatus),
    /// The action failed with an operating-system error.
    Failed(IoErrorKind, String),
}

/// Where a listener setup is.
#[derive(Copy, Clone, Debug, PartialEq, Eq, Structural)]
pub enum SetupPhase {
    CreatingDir,
    CheckingOwner,
    RestrictingDir,
    CheckingPrivate,
    CheckingPublic,
    RemovingStale,
    Binding,
    OpeningSocket,
    Finished,
}

/// Whether a phase waits for a directory status rather than a plain completion.
pub open spec fn inspects(phase: SetupPhase) -> bool {
    phase is CheckingOwner || phase is CheckingPrivate || phase is CheckingPublic
}

/// The event fits what the phase asked for: a status after an inspection, a completion after
/// any other action; a failure after any.
pub open spec fn event_fits(phase: SetupPhase, event: SetupEvent) -> bool {
    match event {
        SetupEvent::Completed => !inspects(phase),
        SetupEvent::Status(_) => inspects(phase),
        SetupEvent::Failed(_, _) => true,
    }
}

/// The operation a failure in `phase` is reported against.
pub open spec fn phase_operation(phase: SetupPhase) -> Seq<char> {
    match phase {
        SetupPhase::CreatingDir => "create_dir_all"@,
        SetupPhase::RestrictingDir => "set_permissions"@,
        SetupPhase::RemovingStale => "remove_file"@,
        SetupPhase::Binding => "bind"@,
        SetupPhase::OpeningSocket => "set_permissions"@,
        _ => "validate_runtime_dir"@,
    }
}

/// Where a successful step leads, and what it asks next. A private directory is checked for
/// ownership before it is restricted and checked again after; a shared one is checked once.
/// Only `AuthenticatedUsers` sockets are opened to other users.
pub open spec fn setup_next(phase: SetupPhase, access: Access) -> (SetupPhase, SetupAction) {
    match phase {
        SetupPhase::CreatingDir => if access == Access::CurrentSession {
            (SetupPhase::CheckingOwner, SetupAction::InspectDir)
        } else {
            (SetupPhase::CheckingPublic, SetupAction::InspectDir)
        },
        SetupPhase::CheckingOwner => (
            SetupPhase::RestrictingDir,
            SetupAction::SetDirMode(PRIVATE_RUNTIME_DIR_MODE),
        ),
        SetupPhase::RestrictingDir => (SetupPhase::CheckingPrivate, SetupAction::InspectDir),
        SetupPhase::CheckingPrivate => (SetupPhase::RemovingStale, SetupAction::RemoveStaleSocket),
        SetupPhase::CheckingPublic => (SetupPhase::RemovingStale, SetupAction::RemoveStaleSocket),
        SetupPhase::RemovingStale => (SetupPhase::Binding, SetupAction::Bind),
        SetupPhase::Binding => if access == Access::AuthenticatedUsers {
            (SetupPhase::OpeningSocket, SetupAction::SetSocketMode(PUBLIC_SOCKET_MODE))
        } else {
            (SetupPhase::Finished, SetupAction::Finished)
        },
        _ => (SetupPhase::Finished, SetupAction::Finished),
    }
}

/// Why a directory status stops the setup in `phase`, if it does.
pub open spec fn status_refusal(phase: SetupPhase, status: DirectoryStatus, euid: u32) -> Option<Seq<char>> {
    match phase {
        SetupPhase::CheckingOwner => owned_dir_refusal(status, euid),
        SetupPhase::CheckingPrivate => private_dir_refusal(status, euid),
        _ => public_dir_refusal(status),
    }
}

/// `e` is how a failed operation `op` with an OS error of `kind` and `message` is reported: a
/// vanished peer is a disconnect, anything else a transport failure of `op`.
pub open spec fn is_os_failure(e: LavaFlowError, op: Seq<char>, kind: IoErrorKind, message: String) -> bool {
    if crate::error::is_disconnect_kind(kind) {
        e is ChannelDisconnected
    } else {
        e matches LavaFlowError::ChannelTransportOperation { operation, kind: k, message: m }
            && operation@ == op && k == kind && m == message
    }
}

/// Prepares and binds the listening socket of a local endpoint, one file-system or socket
/// action at a time: the endpoint directory is created and checked, a stale socket file is
/// removed, and the socket is bound and, for `AuthenticatedUsers`, opened to other users.
pub struct ListenerSetup {
    phase: SetupPhase,
    access: Access,
    euid: u32,
}

impl ListenerSetup {
    /// The current phase.
    pub closed spec fn phase(&self) -> SetupPhase {
        self.phase
    }

    /// The access policy of the endpoint.
    pub closed spec fn access(&self) -> Access {
        self.access
    }

    /// The effective user that must own a private directory.
    pub closed spec fn euid(&self) -> u32 {
        self.euid
    }

    /// Starts the setup of an endpoint whose path has a parent directory (`has_parent`); a
    /// path without one is refused.
    pub fn start(has_parent: bool, access: Access, euid: u32) -> (r: Result<(Self, SetupAction)>)
        ensures
            r is Ok <==> has_parent,
            r matches Ok((s, a)) ==> s.phase() == SetupPhase::CreatingDir && a
                == SetupAction::CreateDirAll && s.access() == access && s.euid() == euid,
            r matches Err(e) ==> crate::error::is_protocol_error(
                e,
                "create_dir_all",
                "unix endpoint path has no parent directory",
            ),
    {
        if !has_parent {
            return Err(
                crate::error::channel_protocol_error(
                    "create_dir_all",
                    "unix endpoint path has no parent directory",
                ),
            );
        }
        Ok((ListenerSetup { phase: SetupPhase::CreatingDir, access, euid }, SetupAction::CreateDirAll))
    }

    /// Whether the listener is ready.
    pub fn is_finished(&self) -> (r: bool)
        ensures
            r == (self.phase() == SetupPhase::Finished),
    {
        match self.phase {
            SetupPhase::Finished => true,
            _ => false,
        }
    }

    /// Takes the outcome of the last action and says what to do next.
    pub fn advance(&mut self, event: SetupEvent) -> (r: Result<SetupAction>)
        requires
            old(self).phase() != SetupPhase::Finished,
            event_fits(old(self).phase(), event),
        ensures
            final(self).access() == old(self).access(),
            final(self).euid() == old(self).euid(),
            match event {
                SetupEvent::Completed => r matches Ok(a) && (final(self).phase(), a) == setup_next(
                    old(self).phase(),
                    old(self).access(),
                ),
                SetupEvent::Status(st) => match status_refusal(old(self).phase(), st, old(self).euid()) {
                    None => r matches Ok(a) && (final(self).phase(), a) == setup_next(
                        old(self).phase(),
                        old(self).access(),
                    ),
                    Some(why) => r matches Err(e) && is_runtime_dir_error(e, why),
                },
                SetupEvent::Failed(kind, message) => if old(self).phase() == SetupPhase::RemovingStale
                    && kind == IoErrorKind::NotFound {
                    r matches Ok(a) && (final(self).phase(), a) == setup_next(
                        old(self).phase(),
                        old(self).access(),
                    )
                } else {
                    r matches Err(e) && is_os_failure(e, phase_operation(old(self).phase()), kind, message)
                },
            },
    {
        let phase = self.phase;
        match event {
            SetupEvent::Failed(kind, message) => {
                let operation: &'static str = match phase {
                    SetupPhase::CreatingDir => "create_dir_all",
                    SetupPhase::RestrictingDir => "set_permissions",
                    SetupPhase::RemovingStale => {
                        if kind == IoErrorKind::NotFound {
                            return Ok(self.step());
                        }
                        "remove_file"
                    },
                    SetupPhase::Binding => "bind",
                    SetupPhase::OpeningSocket => "set_permissions",
                    _ => "validate_runtime_dir",
                };
                proof {
                    reveal_strlit("create_dir_all");
                    reveal_strlit("set_permissions");
                    reveal_strlit("remove_file");
                    reveal_strlit("bind");
                    reveal_strlit("validate_runtime_dir");
                }
                Err(crate::error::channel_transport_error(operation, kind, message))
            },
            SetupEvent::Status(status) => {
                let checked = match phase {
                    SetupPhase::CheckingOwner => validate_runtime_dir(status, self.euid),
                    SetupPhase::CheckingPrivate => validate_private_runtime_dir(status, self.euid),
                    _ => validate_public_runtime_dir(status, self.euid, Access::AuthenticatedUsers),
                };
                match checked {
                    Ok(()) => Ok(self.step()),
                    Err(e) => Err(e),
                }
            },
            SetupEvent::Completed => Ok(self.step()),
        }
    }

    fn step(&mut self) -> (a: SetupAction)
        requires
            old(self).phase() != SetupPhase::Finished,
        ensures
            final(self).access() == old(self).access(),
            final(self).euid() == old(self).euid(),
            (final(self).phase(), a) == setup_next(old(self).phase(), old(self).access()),
    {
        let (next, action) = match self.phase {
            SetupPhase::CreatingDir => if self.access == Access::CurrentSession {
                (SetupPhase::CheckingOwner, SetupAction::InspectDir)
            } else {
                (SetupPhase::CheckingPublic, SetupAction::InspectDir)
            },
            SetupPhase::CheckingOwner => (
                SetupPhase::RestrictingDir,
                SetupAction::SetDirMode(PRIVATE_RUNTIME_DIR_MODE),
            ),
            SetupPhase::RestrictingDir => (SetupPhase::CheckingPrivate, SetupAction::InspectDir),
            SetupPhase::CheckingPrivate => (SetupPhase::RemovingStale, SetupAction::RemoveStaleSocket),
            SetupPhase::CheckingPublic => (SetupPhase::RemovingStale, SetupAction::RemoveStaleSocket),
            SetupPhase::RemovingStale => (SetupPhase::Binding, SetupAction::Bind),
            SetupPhase::Binding => if self.access == Access::AuthenticatedUsers {
                (SetupPhase::OpeningSocket, SetupAction::SetSocketMode(PUBLIC_SOCKET_MODE))
            } else {
                (SetupPhase::Finished, SetupAction::Finished)
            },
            _ => (SetupPhase::Finished, SetupAction::Finished),
        };
        self.phase = next;
        action
    }
}

} // verus!
