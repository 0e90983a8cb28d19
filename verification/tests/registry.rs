use nft_registry::model::{validate_payload, Error, NFTCertificate, NFTPayload};
use nft_registry::registry::Registry;
use nft_registry::text::{str_is_blank, u64_to_dec};

fn payload(owner: &str, metadata: &str) -> NFTPayload {
    NFTPayload { owner: String::from(owner), metadata: String::from(metadata) }
}

#[test]
fn scenario_two_records() {
    let mut reg = Registry::fresh();

    let alice = reg.create_nft(payload("alice", "cert-A"), 100).unwrap();
    assert_eq!(alice.id, 0);
    assert_eq!(alice.owner, "alice");
    assert_eq!(alice.metadata, "cert-A");
    assert_eq!(alice.created_at, 100);

    let bob = reg.create_nft(payload("bob", "cert-B"), 150).unwrap();
    assert_eq!(bob.id, 1);
    assert_eq!(bob.owner, "bob");
    assert_eq!(bob.metadata, "cert-B");
    assert_eq!(bob.created_at, 150);
    assert!(bob.created_at >= alice.created_at);

    let fetched = reg.get_nft(0).unwrap();
    assert_eq!(fetched.owner, "alice");
    assert_eq!(fetched.metadata, "cert-A");

    let removed = reg.delete_nft(0).unwrap();
    assert_eq!(removed.id, 0);
    assert_eq!(removed.owner, "alice");

    match reg.get_nft(0) {
        Err(Error::NotFound { msg }) => assert_eq!(msg, "An NFT with id=0 not found"),
        _ => panic!("expected NotFound for a deleted id"),
    }

    let still_there = reg.get_nft(1).unwrap();
    assert_eq!(still_there.owner, "bob");
}

#[test]
fn ids_increase_across_deletes() {
    let mut reg = Registry::fresh();
    let a = reg.create_nft(payload("o1", "m1"), 1).unwrap();
    let b = reg.create_nft(payload("o2", "m2"), 2).unwrap();
    assert!(reg.delete_nft(a.id).is_ok());
    let c = reg.create_nft(payload("o3", "m3"), 3).unwrap();
    assert_eq!(a.id, 0);
    assert_eq!(b.id, 1);
    assert_eq!(c.id, 2);
}

#[test]
fn round_trip_after_create() {
    let mut reg = Registry::fresh();
    let created = reg.create_nft(payload("carol", "cert-C"), 42).unwrap();
    let fetched = reg.get_nft(created.id).unwrap();
    assert_eq!(fetched.id, created.id);
    assert_eq!(fetched.owner, created.owner);
    assert_eq!(fetched.metadata, created.metadata);
    assert_eq!(fetched.created_at, created.created_at);
}

#[test]
fn get_fails_after_delete() {
    let mut reg = Registry::fresh();
    let rec = reg.create_nft(payload("dave", "cert-D"), 7).unwrap();
    let removed = reg.delete_nft(rec.id).unwrap();
    assert_eq!(removed.metadata, "cert-D");
    assert!(matches!(reg.get_nft(rec.id), Err(Error::NotFound { .. })));
}

#[test]
fn delete_absent_keeps_store() {
    let mut reg = Registry::fresh();
    reg.create_nft(payload("erin", "cert-E"), 5).unwrap();
    assert_eq!(reg.record_count(), 1);

    match reg.delete_nft(42) {
        Err(Error::NotFound { msg }) => {
            assert_eq!(msg, "Couldn't delete an NFT with id=42. NFT not found.")
        }
        _ => panic!("expected NotFound for a never-created id"),
    }
    assert_eq!(reg.record_count(), 1);

    reg.delete_nft(0).unwrap();
    assert_eq!(reg.record_count(), 0);
    assert!(matches!(reg.delete_nft(0), Err(Error::NotFound { .. })));
    assert_eq!(reg.record_count(), 0);
}

#[test]
fn blank_inputs_rejected() {
    let mut reg = Registry::fresh();

    match reg.create_nft(payload("", "x"), 1) {
        Err(Error::InvalidInput { msg }) => assert_eq!(msg, "Owner is required"),
        _ => panic!("expected InvalidInput for an empty owner"),
    }
    match reg.create_nft(payload("  ", "x"), 1) {
        Err(Error::InvalidInput { msg }) => assert_eq!(msg, "Owner is required"),
        _ => panic!("expected InvalidInput for a whitespace owner"),
    }
    match reg.create_nft(payload("o", ""), 1) {
        Err(Error::InvalidInput { msg }) => assert_eq!(msg, "Metadata is required"),
        _ => panic!("expected InvalidInput for empty metadata"),
    }

    let rec = reg.create_nft(payload("frank", "cert-F"), 9).unwrap();
    assert_eq!(rec.id, 0);
    assert_eq!(reg.next_id(), 1);
}

#[test]
fn unicode_whitespace_counts_as_blank() {
    let mut reg = Registry::fresh();
    let em_space_owner = payload("\u{2003}\u{00A0}", "x");
    assert!(matches!(
        reg.create_nft(em_space_owner, 1),
        Err(Error::InvalidInput { .. })
    ));
    assert!(str_is_blank("\t\r\n \u{3000}"));
    assert!(!str_is_blank(" a "));
    assert!(str_is_blank(""));
}

#[test]
fn validate_payload_reports_first_blank_field() {
    assert!(validate_payload(&payload("owner", "meta")).is_ok());
    match validate_payload(&payload("   ", "   ")) {
        Err(e) => assert_eq!(e.message(), "Owner is required"),
        Ok(()) => panic!("expected a validation failure"),
    }
    match validate_payload(&payload("owner", " ")) {
        Err(e) => assert_eq!(e.message(), "Metadata is required"),
        Ok(()) => panic!("expected a validation failure"),
    }
}

#[test]
fn do_insert_is_an_upsert() {
    let mut reg = Registry::fresh();
    let created = reg.create_nft(payload("gina", "old"), 1).unwrap();
    let replacement = NFTCertificate {
        id: created.id,
        owner: String::from("gina"),
        metadata: String::from("new"),
        created_at: 2,
    };
    reg.do_insert(&replacement);
    assert_eq!(reg.record_count(), 1);
    let got = reg._get_nft(&created.id).unwrap();
    assert_eq!(got.metadata, "new");
    assert_eq!(got.created_at, 2);
    assert!(reg._get_nft(&4).is_none());
}

#[test]
fn attached_registry_serves_creates() {
    let mut reg = Registry::new();
    let next = reg.next_id();
    assert!(next < u64::MAX);
    let rec = reg.create_nft(payload("ivan", "cert-I"), 3).unwrap();
    assert_eq!(rec.id, next);
    assert_eq!(reg.next_id(), next + 1);
    let fetched = reg.get_nft(rec.id).unwrap();
    assert_eq!(fetched.owner, "ivan");
}

#[test]
fn decimal_rendering_is_exact() {
    assert_eq!(u64_to_dec(0), "0");
    assert_eq!(u64_to_dec(7), "7");
    assert_eq!(u64_to_dec(10), "10");
    assert_eq!(u64_to_dec(90210), "90210");
    assert_eq!(u64_to_dec(u64::MAX), "18446744073709551615");
}

#[test]
fn not_found_message_embeds_the_id() {
    let reg = Registry::fresh();
    match reg.get_nft(90210) {
        Err(Error::NotFound { msg }) => assert_eq!(msg, "An NFT with id=90210 not found"),
        _ => panic!("expected NotFound on an empty registry"),
    }
}

#[test]
fn record_clone_and_defaults() {
    let rec = NFTCertificate {
        id: 9,
        owner: String::from("heidi"),
        metadata: String::from("cert-H"),
        created_at: 77,
    };
    let copy = rec.clone();
    assert_eq!(copy.id, 9);
    assert_eq!(copy.owner, "heidi");
    assert_eq!(copy.metadata, "cert-H");
    assert_eq!(copy.created_at, 77);

    let blank_record = NFTCertificate::default();
    assert_eq!(blank_record.id, 0);
    assert_eq!(blank_record.owner, "");
    assert_eq!(blank_record.metadata, "");
    assert_eq!(blank_record.created_at, 0);

    let blank_payload = NFTPayload::default();
    assert_eq!(blank_payload.owner, "");
    assert_eq!(blank_payload.metadata, "");
}

#[test]
fn fresh_registry_is_empty() {
    let reg = Registry::fresh();
    assert_eq!(reg.record_count(), 0);
    assert_eq!(reg.next_id(), 0);
    assert!(matches!(reg.get_nft(0), Err(Error::NotFound { .. })));
}
