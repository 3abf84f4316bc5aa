use local_library::auth::{AuthError, AuthEvent, PasswordFlow, User, UserProperty};
use local_library::types::ProviderStatus;

#[test]
fn rejected_login_leaves_user_signed_out() {
    let mut user = User::new();
    let (result, events) = PasswordFlow::new().login(&mut user, "alice", Err("invalid credentials".to_string()));
    match result {
        Err(AuthError::Failed { cause }) => assert_eq!(cause, "invalid credentials"),
        other => panic!("unexpected {:?}", other),
    }
    assert_eq!(events.len(), 1);
    match &events[0] {
        AuthEvent::AuthError { message } => assert_eq!(message, "invalid credentials"),
        other => panic!("unexpected {:?}", other),
    }
    assert_eq!(user.provider_status(), ProviderStatus::Unauthorized);
    assert_eq!(user.status(), 0);
    assert_eq!(user.identifier(), "");
    assert_eq!(user.username(), "");
}

#[test]
fn accepted_login_signs_in_and_announces_properties() {
    let mut user = User::new();
    let (result, events) = PasswordFlow::new().login(&mut user, "alice", Ok(()));
    assert!(result.is_ok());
    assert_eq!(user.identifier(), "alice");
    assert_eq!(user.username(), "alice");
    assert_eq!(user.status(), 2);
    let which: Vec<UserProperty> = events
        .iter()
        .map(|e| match e {
            AuthEvent::PropertyChanged { which } => *which,
            other => panic!("unexpected {:?}", other),
        })
        .collect();
    assert_eq!(which, vec![UserProperty::Avatar, UserProperty::Username, UserProperty::Identifier, UserProperty::Status]);
}

#[test]
fn empty_identifier_is_unauthorized() {
    let mut user = User::new();
    let _ = PasswordFlow::new().login(&mut user, "", Ok(()));
    assert_eq!(user.provider_status(), ProviderStatus::Unauthorized);
}

#[test]
fn logout_clears_slot_and_announces() {
    let mut user = User::new();
    let _ = PasswordFlow::new().login(&mut user, "bob", Ok(()));
    let events = user.logout();
    assert!(user.account().is_none());
    assert_eq!(user.status(), 0);
    let which: Vec<UserProperty> = events
        .iter()
        .map(|e| match e {
            AuthEvent::PropertyChanged { which } => *which,
            other => panic!("unexpected {:?}", other),
        })
        .collect();
    assert_eq!(which, vec![UserProperty::Status, UserProperty::Username, UserProperty::Identifier]);
    assert_eq!(user.avatar(), "");
}

#[test]
fn provider_status_codes() {
    assert_eq!(ProviderStatus::from_i32(0), ProviderStatus::Unauthorized);
    assert_eq!(ProviderStatus::from_i32(1), ProviderStatus::Requires2fa);
    assert_eq!(ProviderStatus::from_i32(2), ProviderStatus::Authorized);
    assert_eq!(ProviderStatus::from_i32(3), ProviderStatus::Unauthorized);
    assert_eq!(ProviderStatus::from_i32(-1), ProviderStatus::Unauthorized);
    assert_eq!(ProviderStatus::Requires2fa.to_i32(), 1);
}
