use cktap_cli::render::{render, Failure, Outcome};

#[test]
fn address_present() {
    let r = render(&Outcome::Address(Ok("bc1qexampleaddress".to_string())));
    assert_eq!(r.shown, "Address: bc1qexampleaddress");
    assert!(r.diagnostic.is_none());
}

#[test]
fn address_without_key() {
    let r = render(&Outcome::Address(Err(Failure::Card("slot is unsealed".to_string()))));
    assert_eq!(r.shown, "No address: no key derived in the current slot");
    assert_eq!(r.diagnostic.as_deref(), Some("slot is unsealed"));
}

#[test]
fn wrong_cvc_on_derive_is_generic() {
    let r = render(&Outcome::Dump(Err(Failure::Auth)));
    assert_eq!(r.shown, "Authentication failed: wrong or missing CVC");
    assert!(r.diagnostic.is_none());
    let r = render(&Outcome::Response(Err(Failure::Auth)));
    assert_eq!(r.shown, "Authentication failed: wrong or missing CVC");
}

#[test]
fn certificate_failure_is_generic() {
    for cause in [Failure::Auth, Failure::Card("bad signature".to_string()), Failure::Card(String::new())] {
        let r = render(&Outcome::Certificate(Err(cause)));
        assert_eq!(r.shown, "Card failed to verify. Not a genuine card");
        assert!(r.diagnostic.is_none());
    }
}

#[test]
fn certificate_success_names_signer() {
    let r = render(&Outcome::Certificate(Ok("Root Factory Certificate".to_string())));
    assert_eq!(r.shown, "Genuine card from Coinkite.\nHas cert signed by: Root Factory Certificate");
    assert!(r.diagnostic.is_none());
}

#[test]
fn read_failure_keeps_detail_apart() {
    let r = render(&Outcome::Read(Err(Failure::Card("timeout".to_string()))));
    assert_eq!(r.shown, "Failed to read with error: ");
    assert_eq!(r.diagnostic.as_deref(), Some("timeout"));
    let r = render(&Outcome::Read(Err(Failure::Auth)));
    assert_eq!(r.diagnostic.as_deref(), Some("authentication failed"));
    let r = render(&Outcome::Read(Ok("02abcdef".to_string())));
    assert_eq!(r.shown, "02abcdef");
}

#[test]
fn responses_and_dumps() {
    assert_eq!(render(&Outcome::Response(Ok("slot 1".to_string()))).shown, "slot 1");
    let r = render(&Outcome::Response(Err(Failure::Card("unsealed".to_string()))));
    assert_eq!(r.shown, "Card operation failed");
    assert_eq!(r.diagnostic.as_deref(), Some("unsealed"));
    assert_eq!(render(&Outcome::Dump(Ok("Ok(())".to_string()))).shown, "Ok(())");
    let r = render(&Outcome::Dump(Err(Failure::Card("already initialised".to_string()))));
    assert_eq!(r.shown, "Card error: already initialised");
    assert!(r.diagnostic.is_none());
    assert_eq!(render(&Outcome::Status(String::from("SatsCard { .. }"))).shown, "SatsCard { .. }");
}
