use vstd::prelude::*;

use crate::entries::{entries_match, map_dir_entries, FileSystemEntry, RawDirEntry};
use crate::errors::SshError;
use crate::registry::{id_lookup, ProjectsList, RemoteProject};

verus! {

/// One live authenticated file-transfer session: the id of the project it
/// was opened for, and the transport handle the caller drives I/O through.
/// The handle type is a parameter: the manager never looks inside it.
pub struct SFTPSession<T> {
    pub id: String,
    pub session: T,
}

/// The single process-wide connection slot: `None` while disconnected,
/// `Some` while exactly one session is live. Being an `Option`, it can never
/// hold more than one session.
pub struct SFTPConnectionState<T> {
    pub session: Option<SFTPSession<T>>,
}

/// A read-only projection of the live session joined back to its registry
/// record; never stored.
pub struct ActiveConnection {
    pub id: String,
    pub project: RemoteProject,
}

/// What the caller's transport layer reports back for one connect attempt:
/// either the authenticated session handle, or the first step that failed
/// together with its cause. The steps are ordered: transport connect,
/// password auth, session channel, file-transfer subsystem, protocol
/// handshake.
pub enum ConnectOutcome<T> {
    Connected(T),
    ConnectFailed(String),
    AuthFailed(String),
    ChannelFailed(String),
    SubsystemFailed(String),
    ProtocolInitFailed(String),
}

/// The error each failed connect step reports; `None` for a success.
pub open spec fn outcome_error<T>(o: ConnectOutcome<T>) -> Option<SshError> {
    match o {
        ConnectOutcome::Connected(_) => None,
        ConnectOutcome::ConnectFailed(m) => Some(SshError::ConnectError(m)),
        ConnectOutcome::AuthFailed(m) => Some(SshError::AuthError(m)),
        ConnectOutcome::ChannelFailed(m) => Some(SshError::ChannelError(m)),
        ConnectOutcome::SubsystemFailed(m) => Some(SshError::SubsystemError(m)),
        ConnectOutcome::ProtocolInitFailed(m) => Some(SshError::ProtocolInitError(m)),
    }
}

/// A successful connect for `id` moved the slot from `pre` to `post`,
/// storing `transport`: afterwards exactly the new session is live,
/// whatever `pre` held.
pub open spec fn connect_replaces<T>(
    pre: SFTPConnectionState<T>,
    post: SFTPConnectionState<T>,
    id: Seq<char>,
    transport: T,
) -> bool {
    post.session matches Some(s) && s.id@ == id && s.session == transport
}

/// Connecting twice in sequence leaves exactly one active session, the one
/// of the second connect, whatever the first stored: the slot after the
/// second transition holds the second id and transport alone.
pub proof fn lemma_second_connect_wins<T>(
    s0: SFTPConnectionState<T>,
    s1: SFTPConnectionState<T>,
    s2: SFTPConnectionState<T>,
    id1: Seq<char>,
    t1: T,
    id2: Seq<char>,
    t2: T,
)
    requires
        connect_replaces(s0, s1, id1, t1),
        connect_replaces(s1, s2, id2, t2),
    ensures
        s2.session matches Some(s) && s.id@ == id2 && s.session == t2,
{
}

/// Policy for judging the server's host key during the transport handshake.
/// `AcceptAll` trusts any key the server presents — it keeps the connection
/// working against unknown hosts but is open to man-in-the-middle attack;
/// `RejectAll` refuses every key until a real verification scheme backs it.
#[derive(Clone, Copy, PartialEq, Eq, Structural, Debug)]
pub enum HostKeyPolicy {
    AcceptAll,
    RejectAll,
}

impl HostKeyPolicy {
    /// Whether a presented server key is to be accepted under this policy.
    pub fn accept_server_key(&self) -> (b: bool)
        ensures
            b == (*self is AcceptAll),
    {
        match self {
            HostKeyPolicy::AcceptAll => true,
            HostKeyPolicy::RejectAll => false,
        }
    }
}

impl<T> SFTPConnectionState<T> {
    /// The disconnected state: no session is live.
    pub fn new() -> (r: Self)
        ensures
            r.session is None,
    {
        SFTPConnectionState { session: None }
    }

    /// Commits one connect attempt for project `id`.
    ///
    /// The caller resolves nothing itself: if `projects` has no remote
    /// record under `id` the attempt is rejected with `NotFound` and the
    /// slot keeps its old value (`outcome` is then ignored and may be
    /// `None`). Otherwise the caller must have driven the transport steps
    /// and pass their outcome: a failed step maps to its own error and
    /// leaves the slot untouched; a successful one replaces whatever
    /// session was live with the new one — the sole transition that ever
    /// stores a session.
    pub fn connect_to_remote_project(
        &mut self,
        projects: &ProjectsList,
        id: &String,
        outcome: Option<ConnectOutcome<T>>,
    ) -> (r: Result<(), SshError>)
        requires
            id_lookup(projects.remote_projects@, id@) is Some ==> outcome is Some,
        ensures
            id_lookup(projects.remote_projects@, id@) is None ==> (*final(self) == *old(self)
                && (r matches Err(SshError::NotFound(n)) && n@ == id@)),
            outcome matches Some(o) ==> (outcome_error(o) matches Some(err) ==> (id_lookup(
                projects.remote_projects@,
                id@,
            ) is Some ==> (*final(self) == *old(self) && (r matches Err(e) && e == err)))),
            outcome matches Some(ConnectOutcome::Connected(t)) ==> (id_lookup(
                projects.remote_projects@,
                id@,
            ) is Some ==> (r matches Ok(u) && u == () && connect_replaces(
                *old(self),
                *final(self),
                id@,
                t,
            ))),
    {
        if projects.get_remote_project(id).is_none() {
            return Err(SshError::NotFound(id.clone()));
        }
        match outcome {
            None => {
                // unreachable under the precondition; reject defensively
                Err(SshError::NotFound(id.clone()))
            },
            Some(ConnectOutcome::Connected(t)) => {
                self.session = Some(SFTPSession { id: id.clone(), session: t });
                Ok(())
            },
            Some(ConnectOutcome::ConnectFailed(m)) => Err(SshError::ConnectError(m)),
            Some(ConnectOutcome::AuthFailed(m)) => Err(SshError::AuthError(m)),
            Some(ConnectOutcome::ChannelFailed(m)) => Err(SshError::ChannelError(m)),
            Some(ConnectOutcome::SubsystemFailed(m)) => Err(SshError::SubsystemError(m)),
            Some(ConnectOutcome::ProtocolInitFailed(m)) => Err(SshError::ProtocolInitError(m)),
        }
    }

    /// The live session's view joined back to its registry record.
    ///
    /// Fails with `NoActiveSession` while disconnected, and with `NotFound`
    /// when the record the session was opened for has since been deleted
    /// from the registry (the stale session itself stays live and usable
    /// for directory listing).
    pub fn get_active_connection(&self, projects: &ProjectsList) -> (r: Result<
        ActiveConnection,
        SshError,
    >)
        ensures
            self.session is None ==> (r matches Err(e) && e is NoActiveSession),
            self.session matches Some(s) ==> (id_lookup(projects.remote_projects@, s.id@) is None
                ==> (r matches Err(SshError::NotFound(n)) && n@ == s.id@)),
            self.session matches Some(s) ==> (id_lookup(
                projects.remote_projects@,
                s.id@,
            ) matches Some(p) ==> (r matches Ok(a) && a.id@ == s.id@ && a.project == p)),
    {
        match &self.session {
            None => Err(SshError::NoActiveSession),
            Some(live) => {
                match projects.get_remote_project(&live.id) {
                    None => Err(SshError::NotFound(live.id.clone())),
                    Some(record) => Ok(
                        ActiveConnection { id: live.id.clone(), project: record.clone() },
                    ),
                }
            },
        }
    }

    /// A borrow of the live session, or `NoActiveSession` while
    /// disconnected: every directory operation resolves its session here.
    /// The caller drives the directory read over the returned handle.
    pub fn active_session<'a>(&'a self) -> (r: Result<&'a SFTPSession<T>, SshError>)
        ensures
            self.session is None ==> (r matches Err(e) && e is NoActiveSession),
            self.session matches Some(s) ==> (r matches Ok(live) && *live == s),
    {
        match &self.session {
            None => Err(SshError::NoActiveSession),
            Some(live) => Ok(live),
        }
    }

    /// Turns one directory read against the live session into the typed
    /// listing.
    ///
    /// While disconnected this fails with `NoActiveSession` and `fetched`
    /// is ignored (the caller, having no session handle, passes `None`).
    /// Otherwise the caller passes the raw entries the server supplied, or
    /// the cause of the failed read: a failure maps to `ListError`, a
    /// successful read to the entries mapped one for one, in the
    /// server-supplied order.
    pub fn list_directory(&self, fetched: Option<Result<Vec<RawDirEntry>, String>>) -> (r: Result<
        Vec<FileSystemEntry>,
        SshError,
    >)
        requires
            self.session is Some ==> fetched is Some,
        ensures
            self.session is None ==> (r matches Err(e) && e is NoActiveSession),
            fetched matches Some(Err(m)) ==> (self.session is Some ==> (r matches Err(
                SshError::ListError(c),
            ) && c == m)),
            fetched matches Some(Ok(raw)) ==> (self.session is Some ==> (r matches Ok(mapped)
                && entries_match(raw@, mapped@))),
    {
        if self.session.is_none() {
            return Err(SshError::NoActiveSession);
        }
        match fetched {
            None => Err(SshError::NoActiveSession),  // unreachable under the precondition
            Some(Err(cause)) => Err(SshError::ListError(cause)),
            Some(Ok(raw)) => Ok(map_dir_entries(&raw)),
        }
    }
}

} // verus!
