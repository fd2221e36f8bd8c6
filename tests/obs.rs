use timestone::obs::build_auth;

const SALT: &str = "lM1GncleQOaCu9lT1yeUZhFYnqhsLLP1G5lAGo3ixaI=";
const CHALLENGE: &str = "+IxH4CnCiqpX1rM9scsNynZzbOe4KhDeYcTNS3PDaeY=";

#[test]
fn challenge_response_matches_protocol_example() {
    let auth = build_auth(Some("supersecretpassword"), SALT, CHALLENGE);
    assert_eq!(auth.as_deref(), Some("1Ct943GAT+6YQUUX47Ia/ncufilbe6+oD6lY+5kaCu4="));
}

#[test]
fn no_response_without_password_salt_or_challenge() {
    assert_eq!(build_auth(None, SALT, CHALLENGE), None);
    assert_eq!(build_auth(Some("pw"), "", CHALLENGE), None);
    assert_eq!(build_auth(Some("pw"), SALT, ""), None);
    assert_ne!(build_auth(Some("pw"), SALT, CHALLENGE), build_auth(Some("pw2"), SALT, CHALLENGE));
}
