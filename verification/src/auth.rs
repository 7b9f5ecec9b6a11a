use vstd::prelude::*;
use crate::states::GatewayState;

verus! {

/// Reply policy for an authentication attempt that presented the wrong
/// token while the slot was free: `true` keeps the gateway silent about
/// it (the attempt draws no reply at all); `false` opts into an explicit
/// failure reply. The silence is deliberate — a wrong guess learns
/// nothing, not even that it was wrong — and this single flag is the one
/// place a stricter stance would be taken.
pub const SILENT_ON_FAILED_AUTH: bool = true;

/// What the authorization slot makes of the identity behind one
/// inbound event.
#[derive(PartialEq, Eq, Structural, Clone, Copy, Debug)]
pub enum Classification {
    /// No identity has authenticated yet.
    Unauthenticated,
    /// The event comes from the bound identity.
    Owner,
    /// An identity other than the bound one.
    Impostor,
}

pub open spec fn classify_spec(owner: Option<i64>, source: i64) -> Classification {
    match owner {
        None => Classification::Unauthenticated,
        Some(o) => if o == source {
            Classification::Owner
        } else {
            Classification::Impostor
        },
    }
}

/// What one authentication attempt does to the authorization slot:
/// only effective while the slot is unset, and only for the right token.
pub open spec fn auth_attempt_step(
    owner: Option<i64>,
    token: Seq<char>,
    source: i64,
    presented: Seq<char>,
) -> Option<i64> {
    match owner {
        Some(o) => Some(o),
        None => if presented == token {
            Some(source)
        } else {
            None
        },
    }
}

/// The authorization slot after a whole sequence of attempts, each a
/// pair of the attempting identity and the token it presented.
pub open spec fn owner_after(
    init: Option<i64>,
    token: Seq<char>,
    attempts: Seq<(i64, Seq<char>)>,
) -> Option<i64>
    decreases attempts.len(),
{
    if attempts.len() == 0 {
        init
    } else {
        owner_after(
            auth_attempt_step(init, token, attempts[0].0, attempts[0].1),
            token,
            attempts.drop_first(),
        )
    }
}

/// Once the slot is set, no sequence of further attempts changes it.
pub proof fn lemma_owner_stable(init: Option<i64>, token: Seq<char>, attempts: Seq<(i64, Seq<char>)>)
    requires
        init is Some,
    ensures
        owner_after(init, token, attempts) == init,
    decreases attempts.len(),
{
    if attempts.len() > 0 {
        lemma_owner_stable(init, token, attempts.drop_first());
    }
}

/// Splitting a run of attempts: running `a` then `b` is running `a + b`.
pub proof fn lemma_owner_after_concat(
    init: Option<i64>,
    token: Seq<char>,
    a: Seq<(i64, Seq<char>)>,
    b: Seq<(i64, Seq<char>)>,
)
    ensures
        owner_after(init, token, a + b) == owner_after(owner_after(init, token, a), token, b),
    decreases a.len(),
{
    if a.len() == 0 {
        assert(a + b =~= b);
    } else {
        let stepped = auth_attempt_step(init, token, a[0].0, a[0].1);
        assert((a + b).drop_first() =~= a.drop_first() + b);
        lemma_owner_after_concat(stepped, token, a.drop_first(), b);
    }
}

/// At most one identity ever becomes owner: for any run of
/// authentication attempts, as soon as the slot is set after some prefix,
/// every longer prefix leaves exactly the same identity in it.
pub proof fn lemma_single_owner(
    token: Seq<char>,
    attempts: Seq<(i64, Seq<char>)>,
    i: int,
    j: int,
)
    requires
        0 <= i <= j <= attempts.len(),
        owner_after(None, token, attempts.take(i)) is Some,
    ensures
        owner_after(None, token, attempts.take(j)) == owner_after(None, token, attempts.take(i)),
{
    let at_i = owner_after(None, token, attempts.take(i));
    assert(attempts.take(j) =~= attempts.take(i) + attempts.subrange(i, j));
    lemma_owner_after_concat(None, token, attempts.take(i), attempts.subrange(i, j));
    lemma_owner_stable(at_i, token, attempts.subrange(i, j));
}

/// Whoever holds the slot after a run of attempts earned it: some
/// attempt in the run presented exactly the stored token, and the slot
/// holds that attempt's identity.
pub proof fn lemma_owner_presented_token(token: Seq<char>, attempts: Seq<(i64, Seq<char>)>)
    requires
        owner_after(None, token, attempts) is Some,
    ensures
        exists|k: int|
            0 <= k < attempts.len() && attempts[k].1 == token && Some(attempts[k].0)
                == owner_after(None, token, attempts),
    decreases attempts.len(),
{
    let bound = owner_after(None, token, attempts);
    if attempts[0].1 == token {
        lemma_owner_stable(Some(attempts[0].0), token, attempts.drop_first());
        assert(0 <= 0 < attempts.len() && attempts[0].1 == token && Some(attempts[0].0) == bound);
    } else {
        lemma_owner_presented_token(token, attempts.drop_first());
        let rest = attempts.drop_first();
        let k = choose|k: int|
            0 <= k < rest.len() && rest[k].1 == token && Some(rest[k].0) == owner_after(
                None,
                token,
                rest,
            );
        assert(0 <= k + 1 < attempts.len() && attempts[k + 1].1 == token && Some(attempts[k + 1].0)
            == bound);
    }
}

impl GatewayState {
    /// Classifies `source` against the current authorization slot.
    pub fn classify(&self, source: i64) -> (c: Classification)
        ensures
            c == classify_spec(self.spec_owner(), source),
    {
        match self.get_auth_chat_id() {
            None => Classification::Unauthenticated,
            Some(o) => if o == source {
                Classification::Owner
            } else {
                Classification::Impostor
            },
        }
    }

    /// One authentication attempt. Only effective while the slot is
    /// unset; succeeds iff the presented token equals the stored one,
    /// and then binds `source` as the owner. A failed attempt changes
    /// nothing — and, by the gateway's reply policy, draws no reply.
    pub fn try_authenticate(&mut self, source: i64, presented: &String) -> (r: bool)
        requires
            old(self).wf(),
        ensures
            final(self).wf(),
            r == (old(self).spec_owner() is None && presented@ == old(self).spec_token()),
            final(self).spec_token() == old(self).spec_token(),
            final(self).spec_owner() == auth_attempt_step(
                old(self).spec_owner(),
                old(self).spec_token(),
                source,
                presented@,
            ),
            r ==> final(self).spec_current_path() == Some("/"@),
            !r ==> final(self).spec_current_path() == old(self).spec_current_path(),
    {
        match self.get_auth_chat_id() {
            None => {
                let stored = self.get_auth_token();
                if *presented == stored {
                    self.set_auth_chat_id(source);
                    true
                } else {
                    false
                }
            },
            Some(_) => false,
        }
    }
}

} // verus!
