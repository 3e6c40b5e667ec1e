use openquest::clock::EARLIEST_TIMESTAMP;
use openquest::db::DatabaseResponse;
use openquest::jwt::{verify_cookie, Claims, CookieToken};
use openquest::protocol_model::Protocol;
use openquest::routes::{
    add_staff_outcome, link_wallet, link_wallet_at, link_wallet_outcome, register_protocol_outcome,
    register_user_outcome,
};
use openquest::user_model::User;

#[test]
fn long_expired_tokens_are_refused() {
    let c = Claims { exp: EARLIEST_TIMESTAMP, user_uuid: "u".to_string() };
    let e = verify_cookie(CookieToken::Decoded(c)).unwrap_err();
    assert_eq!((e.error_code, e.message.as_str()), (401, "Invalid or expired token"));
}

#[test]
fn answers_quote_names_and_identifiers() {
    let r = register_protocol_outcome("OpenQuest", Ok(()));
    assert_eq!((r.status_code, r.body.as_str()), (201, "\"OpenQuest\""));
    let r = add_staff_outcome("OpenQuest", Ok(()));
    assert_eq!((r.status_code, r.body.as_str()), (200, "\"OpenQuest\""));
    let r = register_user_outcome("u-1", Ok(()));
    assert_eq!((r.status_code, r.body.as_str()), (201, "\"u-1\""));
    let r = register_user_outcome("u-1", Err(DatabaseResponse::new(500, "Error creating user".to_string())));
    assert_eq!((r.status_code, r.body.as_str()), (500, "Error creating user"));
    assert_eq!(r.response_code.as_u16(), 500);
}

#[test]
fn linking_a_wallet_shows_the_public_record() {
    let mut user = User::new("ann".to_string(), "ann@x.io".to_string(), "pw".to_string()).unwrap();
    let shown = link_wallet_at(&mut user, "0xabc".to_string(), "2024-01-01 00:00:00".to_string());
    assert_eq!(user.wallet.wallet_address, Some("0xabc".to_string()));
    assert_eq!(user.wallet.updated_at, "2024-01-01 00:00:00");
    let r = link_wallet_outcome(&shown, Ok(()));
    assert_eq!(r.status_code, 200);
    assert_eq!(
        r.body,
        format!(
            "SimpleUserStruct {{ user_uuid: {:?}, user_name: \"ann\", email: \"ann@x.io\", wallet_address: Some(\"0xabc\") }}",
            user.user_uuid
        )
    );
    let shown = link_wallet(&mut user, "0xdef".to_string());
    assert_eq!(shown.wallet_address, Some("0xdef".to_string()));
    assert_ne!(user.wallet.updated_at, "2024-01-01 00:00:00");
}

#[test]
fn leaderboard_credits_accumulate() {
    let mut protocol = Protocol::new("P".to_string(), "c".to_string());
    protocol.credit_leaderboard_points("u1".to_string(), 5);
    assert_eq!(protocol.leaderboard_point("u1"), Some(5));
    protocol.credit_leaderboard_points("u1".to_string(), -2);
    assert_eq!(protocol.leaderboard_point("u1"), Some(3));
    protocol.credit_leaderboard_points("u2".to_string(), 4);
    assert_eq!(protocol.protocol_users.len(), 2);
    assert_eq!(protocol.leaderboard_point("u2"), Some(4));
}
