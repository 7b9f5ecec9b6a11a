use vstd::prelude::*;
use vstd::string::StringExecFns;

verus! {

/// In-memory model of the gateway's durable state: the single
/// authorization slot together with the owner's working directory.
///
/// The surrounding process mirrors every change of this value into its
/// durable store; the core itself only decides what the next value is.
pub struct GatewayState {
    /// The credential an `auth` command must present; fixed at startup.
    token: String,
    /// The one identity that has authenticated, if any.
    owner: Option<i64>,
    /// The owner's stored working directory, if one has been stored.
    current_path: Option<String>,
}

impl GatewayState {
    pub closed spec fn spec_token(&self) -> Seq<char> {
        self.token@
    }

    pub closed spec fn spec_owner(&self) -> Option<i64> {
        self.owner
    }

    pub closed spec fn spec_current_path(&self) -> Option<Seq<char>> {
        match self.current_path {
            Some(p) => Some(p@),
            None => None,
        }
    }

    /// The working directory commands actually run against: the stored
    /// one, or the filesystem root while none has been stored.
    pub open spec fn effective_path(&self) -> Seq<char> {
        match self.spec_current_path() {
            Some(p) => p,
            None => "/"@,
        }
    }

    /// A working directory is only ever stored for the owner.
    pub open spec fn wf(&self) -> bool {
        self.spec_owner() is None ==> self.spec_current_path() is None
    }

    pub fn new(token: String) -> (s: GatewayState)
        ensures
            s.wf(),
            s.spec_token() == token@,
            s.spec_owner() is None,
            s.spec_current_path() is None,
    {
        GatewayState { token, owner: None, current_path: None }
    }

    pub fn get_auth_token(&self) -> (r: String)
        ensures
            r@ == self.spec_token(),
    {
        self.token.clone()
    }

    pub fn get_auth_chat_id(&self) -> (r: Option<i64>)
        ensures
            r == self.spec_owner(),
    {
        self.owner
    }

    /// Binds the authorization slot to `chat_id` and gives the fresh
    /// owner the root working directory.
    pub fn set_auth_chat_id(&mut self, chat_id: i64)
        requires
            old(self).spec_owner() is None,
        ensures
            final(self).wf(),
            final(self).spec_token() == old(self).spec_token(),
            final(self).spec_owner() == Some(chat_id),
            final(self).spec_current_path() == Some("/"@),
    {
        self.owner = Some(chat_id);
        self.current_path = Some(String::from_str("/"));
    }

    pub fn query_current_path(&self) -> (r: Option<String>)
        ensures
            match r {
                Some(p) => self.spec_current_path() == Some(p@),
                None => self.spec_current_path() is None,
            },
    {
        match &self.current_path {
            Some(p) => Some(p.clone()),
            None => None,
        }
    }

    /// The stored working directory, defaulted to the filesystem root.
    pub fn current_path_or_root(&self) -> (r: String)
        ensures
            r@ == self.effective_path(),
    {
        match &self.current_path {
            Some(p) => p.clone(),
            None => String::from_str("/"),
        }
    }

    /// Stores a new working directory for the owner.
    pub fn update_current_path(&mut self, path: String)
        requires
            old(self).spec_owner() is Some,
        ensures
            final(self).wf(),
            final(self).spec_token() == old(self).spec_token(),
            final(self).spec_owner() == old(self).spec_owner(),
            final(self).spec_current_path() == Some(path@),
    {
        self.current_path = Some(path);
    }
}

} // verus!
