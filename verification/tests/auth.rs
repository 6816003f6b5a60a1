use antispam::auth::validate;
use antispam::errors::AuthError;
use antispam::registry::ClientRegistry;

fn registry(pairs: &[(&str, &str)]) -> ClientRegistry {
    ClientRegistry::from_pairs(
        pairs.iter().map(|(i, c)| (i.to_string(), c.to_string())).collect(),
    )
}

fn strings(values: &[&str]) -> Vec<String> {
    values.iter().map(|v| v.to_string()).collect()
}

#[test]
fn every_registered_pair_validates() {
    let reg = registry(&[("agentA", "key1"), ("agentB", "key2"), ("agentC", "key3")]);
    for (identity, credential) in [("agentA", "key1"), ("agentB", "key2"), ("agentC", "key3")] {
        let r = validate(&reg, &strings(&[credential]), &strings(&[identity]));
        assert_eq!(r, Ok(identity.to_string()));
    }
}

#[test]
fn unknown_identity_is_invalid() {
    let reg = registry(&[("agentA", "key1")]);
    let r = validate(&reg, &strings(&["key1"]), &strings(&["agentB"]));
    assert_eq!(r, Err(AuthError::Invalid));
}

#[test]
fn mismatched_credential_is_invalid() {
    let reg = registry(&[("agentA", "key1")]);
    let r = validate(&reg, &strings(&["key2"]), &strings(&["agentA"]));
    assert_eq!(r, Err(AuthError::Invalid));
}

#[test]
fn header_counts_other_than_one_are_bad_count() {
    let populated = registry(&[("agentA", "key1")]);
    let empty = registry(&[]);
    for reg in [&populated, &empty] {
        assert_eq!(
            validate(reg, &strings(&[]), &strings(&["agentA"])),
            Err(AuthError::BadCount)
        );
        assert_eq!(
            validate(reg, &strings(&["key1", "key1"]), &strings(&["agentA"])),
            Err(AuthError::BadCount)
        );
        assert_eq!(
            validate(reg, &strings(&["key1"]), &strings(&[])),
            Err(AuthError::BadCount)
        );
        assert_eq!(
            validate(reg, &strings(&["key1"]), &strings(&["agentA", "agentA"])),
            Err(AuthError::BadCount)
        );
        assert_eq!(validate(reg, &strings(&[]), &strings(&[])), Err(AuthError::BadCount));
    }
}

#[test]
fn first_pair_wins_on_duplicate_identity() {
    let reg = registry(&[("agentA", "key1"), ("agentA", "key2")]);
    assert_eq!(
        validate(&reg, &strings(&["key1"]), &strings(&["agentA"])),
        Ok("agentA".to_string())
    );
    assert_eq!(
        validate(&reg, &strings(&["key2"]), &strings(&["agentA"])),
        Err(AuthError::Invalid)
    );
}

#[test]
fn lookup_is_exact_and_case_sensitive() {
    let reg = registry(&[("agentA", "key1")]);
    assert_eq!(reg.lookup(&"agentA".to_string()), Some(&"key1".to_string()));
    assert_eq!(reg.lookup(&"agenta".to_string()), None);
    assert_eq!(reg.lookup(&"agentA ".to_string()), None);
}
