//! The policy by which a session decides whether to trust the key that the
//! jump host presents.
//!
//! There is no default: whoever opens a session says which policy applies.

use vstd::prelude::*;

verus! {

/// Which server keys are acceptable.
#[derive(Debug, PartialEq, Eq)]
pub enum HostKeyPolicy {
    /// Any key is accepted. The server is not verified at all.
    AcceptAny,
    /// Only the listed keys are accepted, each given by its encoded bytes.
    Pinned { keys: Vec<Vec<u8>> },
}

/// The mathematical value of a [`HostKeyPolicy`].
pub enum HostKeyPolicyView {
    AcceptAny,
    Pinned { keys: Seq<Seq<u8>> },
}

impl HostKeyPolicyView {
    /// Whether the policy accepts `key`.
    pub open spec fn accepts(self, key: Seq<u8>) -> bool {
        match self {
            HostKeyPolicyView::AcceptAny => true,
            HostKeyPolicyView::Pinned { keys } => keys.contains(key),
        }
    }
}

impl View for HostKeyPolicy {
    type V = HostKeyPolicyView;

    open spec fn view(&self) -> HostKeyPolicyView {
        match self {
            HostKeyPolicy::AcceptAny => HostKeyPolicyView::AcceptAny,
            HostKeyPolicy::Pinned { keys } => HostKeyPolicyView::Pinned {
                keys: Seq::new(keys@.len(), |i: int| keys@[i]@),
            },
        }
    }
}

/// Whether two byte strings are the same.
pub fn same_bytes(left: &[u8], right: &[u8]) -> (same: bool)
    ensures
        same == (left@ == right@),
{
    if left.len() != right.len() {
        return false;
    }
    let mut at: usize = 0;
    while at < left.len()
        invariant
            left@.len() == right@.len(),
            at <= left@.len(),
            forall|j: int| 0 <= j < at ==> left@[j] == right@[j],
        decreases left.len() - at,
    {
        if left[at] != right[at] {
            return false;
        }
        at = at + 1;
    }
    assert(left@ =~= right@);
    true
}

/// The handler that a session consults when the jump host presents its key.
#[derive(Debug)]
pub struct SshHandler {
    policy: HostKeyPolicy,
}

impl View for SshHandler {
    type V = HostKeyPolicyView;

    closed spec fn view(&self) -> HostKeyPolicyView {
        self.policy@
    }
}

impl SshHandler {
    /// A handler that applies `policy`.
    pub fn new(policy: HostKeyPolicy) -> (handler: SshHandler)
        ensures
            handler@ == policy@,
    {
        SshHandler { policy }
    }

    /// Decides whether the session may go on with a server that presents
    /// `server_public_key`.
    pub fn check_server_key(&self, server_public_key: &[u8]) -> (accepted: bool)
        ensures
            accepted == self@.accepts(server_public_key@),
    {
        match &self.policy {
            HostKeyPolicy::AcceptAny => true,
            HostKeyPolicy::Pinned { keys } => {
                let ghost pinned = self@->keys;
                let mut at: usize = 0;
                while at < keys.len()
                    invariant
                        at <= keys.len(),
                        pinned == Seq::new(keys@.len(), |i: int| keys@[i]@),
                        self@ == (HostKeyPolicyView::Pinned { keys: pinned }),
                        forall|j: int| 0 <= j < at ==> pinned[j] != server_public_key@,
                    decreases keys.len() - at,
                {
                    if same_bytes(keys[at].as_slice(), server_public_key) {
                        assert(pinned[at as int] == server_public_key@);
                        return true;
                    }
                    at = at + 1;
                }
                false
            },
        }
    }
}

} // verus!
