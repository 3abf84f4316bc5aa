use vstd::prelude::*;
use crate::types::ProviderStatus;

verus! {

/// The derived properties of the signed-in user that callers watch.
#[derive(Debug, Clone, Copy, PartialEq, Eq, Structural)]
pub enum UserProperty {
    Avatar,
    Username,
    Identifier,
    Status,
}

/// Notifications of the authentication layer.
#[derive(Debug, Clone)]
pub enum AuthEvent {
    /// Authentication failed, with a readable cause.
    AuthError { message: String },
    /// A derived property changed.
    PropertyChanged { which: UserProperty },
}

/// Why a login failed.
#[derive(Debug, Clone)]
pub enum AuthError {
    Failed { cause: String },
}

/// The provider status that an account slot stands for.
pub open spec fn spec_status(account: Option<Seq<char>>) -> ProviderStatus {
    match account {
        Some(a) => if a.len() == 0 {
            ProviderStatus::Unauthorized
        } else {
            ProviderStatus::Authorized
        },
        None => ProviderStatus::Unauthorized,
    }
}

pub open spec fn is_property_change(e: AuthEvent, p: UserProperty) -> bool {
    e is PropertyChanged && e->which == p
}

/// The account slot: the signed-in account's identifier, if any.
#[derive(Debug)]
pub struct User {
    account: Option<String>,
}

impl View for User {
    type V = Option<Seq<char>>;

    closed spec fn view(&self) -> Option<Seq<char>> {
        match self.account {
            Some(a) => Some(a@),
            None => None,
        }
    }
}

fn property_changed(which: UserProperty) -> (r: AuthEvent)
    ensures
        is_property_change(r, which),
{
    AuthEvent::PropertyChanged { which }
}

impl User {
    /// Nobody is signed in at start.
    pub fn new() -> (r: User)
        ensures
            r@ is None,
    {
        User { account: None }
    }

    /// The signed-in account, if any.
    pub fn account(&self) -> (r: Option<String>)
        ensures
            r is None <==> self@ is None,
            r is Some ==> self@ == Some(r->Some_0@),
    {
        match &self.account {
            Some(a) => Some(a.clone()),
            None => None,
        }
    }

    /// URL of the avatar image; this provider has none.
    pub fn avatar(&self) -> (r: String)
        ensures
            r@.len() == 0,
    {
        String::new()
    }

    /// Identifier of the signed-in account; empty when nobody is signed in.
    pub fn identifier(&self) -> (r: String)
        ensures
            self@ is None ==> r@.len() == 0,
            self@ is Some ==> r@ == self@->Some_0,
    {
        match &self.account {
            Some(a) => a.clone(),
            None => String::new(),
        }
    }

    /// Name of the signed-in account; empty when nobody is signed in.
    pub fn username(&self) -> (r: String)
        ensures
            self@ is None ==> r@.len() == 0,
            self@ is Some ==> r@ == self@->Some_0,
    {
        self.identifier()
    }

    /// Status derived from the slot: `Authorized` exactly when an account
    /// with a non-empty identifier is signed in.
    pub fn provider_status(&self) -> (r: ProviderStatus)
        ensures
            r == spec_status(self@),
    {
        match &self.account {
            Some(a) => if a.as_str().unicode_len() == 0 {
                ProviderStatus::Unauthorized
            } else {
                ProviderStatus::Authorized
            },
            None => ProviderStatus::Unauthorized,
        }
    }

    /// Wire code of the derived status.
    pub fn status(&self) -> (r: i32)
        ensures
            r == spec_status(self@).spec_code(),
    {
        self.provider_status().to_i32()
    }

    /// Signs out: clears the slot and announces the change of status,
    /// username and identifier, in that order.
    pub fn logout(&mut self) -> (r: Vec<AuthEvent>)
        ensures
            final(self)@ is None,
            r@.len() == 3,
            is_property_change(r@[0], UserProperty::Status),
            is_property_change(r@[1], UserProperty::Username),
            is_property_change(r@[2], UserProperty::Identifier),
    {
        self.account = None;
        let mut events: Vec<AuthEvent> = Vec::new();
        events.push(property_changed(UserProperty::Status));
        events.push(property_changed(UserProperty::Username));
        events.push(property_changed(UserProperty::Identifier));
        events
    }
}

/// Password login against an identity backend.
#[derive(Debug, Clone, Copy)]
pub struct PasswordFlow;

impl PasswordFlow {
    pub fn new() -> (r: PasswordFlow) {
        PasswordFlow
    }

    /// Finishes the login of `name` once the identity backend has judged the
    /// secret. Accepted: `name` becomes the signed-in account and every
    /// derived property is announced. Rejected: the slot is left as it was,
    /// one auth-error notice carries the backend's cause, and the login fails
    /// with that cause.
    pub fn login(&self, user: &mut User, name: &str, verdict: Result<(), String>) -> (r: (
        Result<(), AuthError>,
        Vec<AuthEvent>,
    ))
        ensures
            verdict is Ok ==> {
                &&& r.0 is Ok
                &&& final(user)@ == Some(name@)
                &&& r.1@.len() == 4
                &&& is_property_change(r.1@[0], UserProperty::Avatar)
                &&& is_property_change(r.1@[1], UserProperty::Username)
                &&& is_property_change(r.1@[2], UserProperty::Identifier)
                &&& is_property_change(r.1@[3], UserProperty::Status)
            },
            verdict is Err ==> {
                &&& r.0 is Err
                &&& r.0->Err_0->Failed_cause@ == verdict->Err_0@
                &&& final(user)@ == old(user)@
                &&& r.1@.len() == 1
                &&& r.1@[0] is AuthError
                &&& r.1@[0]->message@ == verdict->Err_0@
            },
    {
        let mut events: Vec<AuthEvent> = Vec::new();
        match verdict {
            Ok(()) => {
                user.account = Some(String::from_str(name));
                events.push(property_changed(UserProperty::Avatar));
                events.push(property_changed(UserProperty::Username));
                events.push(property_changed(UserProperty::Identifier));
                events.push(property_changed(UserProperty::Status));
                (Ok(()), events)
            },
            Err(cause) => {
                events.push(AuthEvent::AuthError { message: cause.clone() });
                (Err(AuthError::Failed { cause }), events)
            },
        }
    }
}

} // verus!
