use postgres_topology::postgres_password::{md5, scram_sha_256, scram_sha_256_salt, PostgresPassword};

#[test]
fn plain_password_is_kept() {
    let p = PostgresPassword::Plain("secret".to_string());
    assert_eq!(p.get_password_text("alice"), "secret");
}

#[test]
fn md5_password_is_encoded_with_user_name() {
    let p = PostgresPassword::Md5("secret".to_string());
    assert_eq!(p.get_password_text("alice"), "md54a0a68b43b6cd5cf266fa02f196e2371");
}

#[test]
fn md5_function_hashes_password_then_user() {
    assert_eq!(md5(b"a", "alice"), "md51c175e389ad3011e44979f1c6ca99c2a");
    assert_eq!(md5(b"secret", "alice"), "md54a0a68b43b6cd5cf266fa02f196e2371");
}

#[test]
fn md5_prefixed_password_is_kept_for_any_user() {
    let p = PostgresPassword::Md5("md5abcdef".to_string());
    assert_eq!(p.get_password_text("alice"), "md5abcdef");
    assert_eq!(p.get_password_text("bob"), "md5abcdef");
    assert_eq!(p.get_password_text(""), "md5abcdef");
}

#[test]
fn scram_prefixed_password_is_kept() {
    let p = PostgresPassword::ScramSha256("SCRAM-SHA-256$4096:AAA$BBB:CCC".to_string());
    assert_eq!(p.get_password_text("anyone"), "SCRAM-SHA-256$4096:AAA$BBB:CCC");
    assert_eq!(p.get_password_text_with_salt("x", &[7u8; 16]), "SCRAM-SHA-256$4096:AAA$BBB:CCC");
}

#[test]
fn scram_with_zero_salt() {
    let expected = "SCRAM-SHA-256$4096:AAAAAAAAAAAAAAAAAAAAAA==$cYb24178IFPJfwkjIWWOe5UyMYsPha0jpvVheOzD7fM=:VwyhxkJCO8QGAizhocQO03bRswvgJ9KCi+BMFMz6uvY=";
    assert_eq!(scram_sha_256_salt(b"pencil", &[0u8; 16]), expected);
    let p = PostgresPassword::ScramSha256("pencil".to_string());
    assert_eq!(p.get_password_text_with_salt("user", &[0u8; 16]), expected);
}

#[test]
fn scram_with_counting_salt() {
    let salt: [u8; 16] = [0, 1, 2, 3, 4, 5, 6, 7, 8, 9, 10, 11, 12, 13, 14, 15];
    assert_eq!(
        scram_sha_256_salt(b"secret", &salt),
        "SCRAM-SHA-256$4096:AAECAwQFBgcICQoLDA0ODw==$THoPhoTAuqyoQsK4dUHncUzgfD8fdmhsgKZhWVqNP5U=:7YiHMMi2OcXGRogub03Ek06JRZ9bkhTOdCzHa5iPLiQ="
    );
}

#[test]
fn scram_invalid_utf8_uses_raw_bytes() {
    assert_eq!(
        scram_sha_256_salt(&[0xff, 0xfe], &[0u8; 16]),
        "SCRAM-SHA-256$4096:AAAAAAAAAAAAAAAAAAAAAA==$By7ouwTsJ0A8kU/4Dxp4j+Hi/pVwCZIaUYHkkk77Y+8=:WLYdsUPz/ZiuKa83nxhmar3HmKZ/8BrGQrpOjVVGb/4="
    );
}

#[test]
fn scram_prohibited_character_uses_raw_bytes() {
    assert_eq!(
        scram_sha_256_salt(b"a\x07b", &[0u8; 16]),
        "SCRAM-SHA-256$4096:AAAAAAAAAAAAAAAAAAAAAA==$FdpIJJj7NQ6ioZg1Ufu9SzAZD+0eHJKPMqeLCoqO4cw=:pzpVnfr+sSFtshkJwQgDXOWF84a7g6ENPfUGcCSXmGU="
    );
}

#[test]
fn scram_applies_saslprep() {
    // SASLprep maps a no-break space to an ordinary space.
    let expected = "SCRAM-SHA-256$4096:AQEBAQEBAQEBAQEBAQEBAQ==$+XCLXZqX0MeSk3Z4YVt1RnkLZ8370GzoF+fDVDOir1k=:l7qtQNDjAiMc45QuTnBhhJJNSdeiJra462V3h0x+NIc=";
    assert_eq!(scram_sha_256_salt("pass\u{a0}word".as_bytes(), &[1u8; 16]), expected);
    assert_eq!(scram_sha_256_salt(b"pass word", &[1u8; 16]), expected);
}

#[test]
fn scram_random_salt_shape() {
    let a = scram_sha_256(b"pencil");
    let b = PostgresPassword::ScramSha256("pencil".to_string()).get_password_text("u");
    assert!(a.starts_with("SCRAM-SHA-256$4096:"));
    assert!(b.starts_with("SCRAM-SHA-256$4096:"));
    // 19 prefix chars, 24 salt, '$', 44 stored key, ':', 44 server key
    assert_eq!(a.len(), 19 + 24 + 1 + 44 + 1 + 44);
    assert_ne!(a, b);
}

#[test]
fn raw_text_ignores_variant() {
    assert_eq!(PostgresPassword::Plain("x".to_string()).get_raw_text(), "x");
    assert_eq!(PostgresPassword::Md5("y".to_string()).get_raw_text(), "y");
    assert_eq!(PostgresPassword::ScramSha256("z".to_string()).get_raw_text(), "z");
}
