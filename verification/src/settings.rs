//! What one invocation works with: the principal, the requested
//! action and the configuration.

use vstd::prelude::*;
use crate::actions::{action_of_token, Actions};
use crate::config::Config;
use crate::result_code::PamResultCode;

verus! {

/// The numeric identity of the privileged root principal.
pub const ROOT_UID: u32 = 0;

/// A resolved principal.
#[derive(Debug, Clone)]
pub struct User {
    uid: u32,
    name: String,
    primary_group: u32,
}

impl User {
    /// The numeric identity.
    pub closed spec fn spec_uid(self) -> u32 {
        self.uid
    }

    /// The name, which also names the principal's tally.
    pub closed spec fn spec_name(self) -> Seq<char> {
        self.name@
    }

    /// The numeric identity of the primary group.
    pub closed spec fn spec_primary_group(self) -> u32 {
        self.primary_group
    }

    /// Whether this is the privileged root principal.
    pub open spec fn is_root(self) -> bool {
        self.spec_uid() == ROOT_UID
    }

    /// A principal with the given identity, name and primary group.
    pub fn new(uid: u32, name: &str, primary_group: u32) -> (r: User)
        ensures
            r.spec_uid() == uid,
            r.spec_name() == name@,
            r.spec_primary_group() == primary_group,
    {
        User { uid, name: name.to_owned(), primary_group }
    }

    /// The numeric identity.
    pub fn uid(&self) -> (r: u32)
        ensures
            r == self.spec_uid(),
    {
        self.uid
    }

    /// The name.
    pub fn name(&self) -> (r: &str)
        ensures
            r@ == self.spec_name(),
    {
        self.name.as_str()
    }

    /// The numeric identity of the primary group.
    pub fn primary_group_id(&self) -> (r: u32)
        ensures
            r == self.spec_primary_group(),
    {
        self.primary_group
    }
}

/// The settings of one invocation.
#[derive(Debug)]
pub struct Settings {
    /// The hook that runs: `auth` or `account`.
    pub pam_hook: String,
    /// The requested action.
    pub action: Option<Actions>,
    /// The principal that is being authenticated.
    pub user: Option<User>,
    /// The configuration.
    pub config: Config,
}

/// The action named by the first token of `args` that names one.
pub open spec fn first_action(args: Seq<&str>) -> Option<Actions>
    decreases args.len(),
{
    if args.len() == 0 {
        None
    } else if action_of_token(args[0]@) is Some {
        action_of_token(args[0]@)
    } else {
        first_action(args.drop_first())
    }
}

/// The action that the arguments ask for: the first one named, and
/// `AUTHSUCC` where none is.
pub open spec fn requested_action(args: Seq<&str>) -> Actions {
    match first_action(args) {
        Some(action) => action,
        None => Actions::AUTHSUCC,
    }
}

impl Default for Settings {
    /// No principal, the hook `auth`, the action `AUTHSUCC` and the default
    /// configuration.
    fn default() -> (r: Settings)
        ensures
            r.action == Some(Actions::AUTHSUCC),
            r.user is None,
            r.pam_hook@ == "auth"@,
            r.config.is_default(),
            r.config.wf(),
    {
        Settings {
            pam_hook: "auth".to_owned(),
            action: Some(Actions::AUTHSUCC),
            user: None,
            config: Config::default(),
        }
    }
}

impl Settings {
    /// Puts the settings of one invocation together. `args` are the module's
    /// arguments; the first that names an action decides it, and without one
    /// the action is `AUTHSUCC`. An unresolved principal is refused with
    /// `PAM_USER_UNKNOWN`.
    pub fn build(
        user: Option<User>,
        args: &[&str],
        _flags: u32,
        config: Config,
        pam_hook: &str,
    ) -> (r: Result<Settings, PamResultCode>)
        ensures
            user is None ==> r == Err::<Settings, PamResultCode>(PamResultCode::PAM_USER_UNKNOWN),
            user is Some ==> r is Ok,
            r matches Ok(s) ==> {
                &&& s.action == Some(requested_action(args@))
                &&& s.user == user
                &&& s.pam_hook@ == pam_hook@
                &&& s.config == config
            },
    {
        let mut action: Option<Actions> = None;
        let mut i: usize = 0;
        assert(args@.skip(0) =~= args@);
        while i < args.len() && action.is_none()
            invariant
                i <= args.len(),
                action is None ==> first_action(args@) == first_action(args@.skip(i as int)),
                action is Some ==> action == first_action(args@),
            decreases args.len() - i,
        {
            proof {
                assert(args@.skip(i as int).drop_first() =~= args@.skip(i + 1));
                assert(args@.skip(i as int)[0] == args@[i as int]);
            }
            action = Actions::from_token(args[i]);
            i += 1;
        }
        proof {
            if action is None {
                assert(i == args.len());
                assert(args@.skip(i as int).len() == 0);
            }
        }
        let action = match action {
            Some(a) => a,
            None => Actions::AUTHSUCC,
        };
        match user {
            None => Err(PamResultCode::PAM_USER_UNKNOWN),
            Some(u) => Ok(
                Settings {
                    pam_hook: pam_hook.to_owned(),
                    action: Some(action),
                    user: Some(u),
                    config,
                },
            ),
        }
    }

    /// The requested action; `PAM_ABORT` where none is set.
    pub fn get_action(&self) -> (r: Result<Actions, PamResultCode>)
        ensures
            r == match self.action {
                Some(a) => Ok::<Actions, PamResultCode>(a),
                None => Err::<Actions, PamResultCode>(PamResultCode::PAM_ABORT),
            },
    {
        match self.action {
            Some(a) => Ok(a),
            None => Err(PamResultCode::PAM_ABORT),
        }
    }

    /// The principal; `PAM_USER_UNKNOWN` where none is set.
    pub fn get_user(&self) -> (r: Result<&User, PamResultCode>)
        ensures
            match r {
                Ok(u) => self.user == Some(*u),
                Err(e) => self.user is None && e == PamResultCode::PAM_USER_UNKNOWN,
            },
    {
        match &self.user {
            Some(u) => Ok(u),
            None => Err(PamResultCode::PAM_USER_UNKNOWN),
        }
    }

    /// Whether the lockout is waived for the principal: it is the root
    /// identity, and the configuration does not ask to deny root as well.
    pub open spec fn spec_exempt(self) -> bool {
        self.user matches Some(u) && u.is_root() && !self.config.even_deny_root
    }
}

} // verus!
