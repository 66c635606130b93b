use fluent_hash::Hashing;
use fluent_hash::Hashing::{Sha1, Sha256, Sha384, Sha512, Sha512_256};
use ring::digest as r_digest;

const ALL: [Hashing; 5] = [Sha1, Sha256, Sha384, Sha512, Sha512_256];

fn ring_algorithm(alg: Hashing) -> &'static r_digest::Algorithm {
    match alg {
        Sha1 => &r_digest::SHA1_FOR_LEGACY_USE_ONLY,
        Sha256 => &r_digest::SHA256,
        Sha384 => &r_digest::SHA384,
        Sha512 => &r_digest::SHA512,
        Sha512_256 => &r_digest::SHA512_256,
    }
}

#[test]
fn all_algorithms_match_ring() {
    for alg in ALL {
        let expected = r_digest::digest(ring_algorithm(alg), b"Hello, World!");
        let result = alg.hash(b"Hello, World!");
        assert_eq!(result.as_bytes(), expected.as_ref());
        assert_eq!(result.to_vec(), expected.as_ref().to_vec());
        assert_eq!(result.to_hex(), hex::encode(expected.as_ref()));
    }
}

#[test]
fn sha256_known_hex() {
    assert_eq!(
        Sha256.hash(b"Hello, World!").to_hex(),
        "dffd6021bb2bd5b0af676290809ec3a53191dd81c7f70a4b28688a362182986f"
    );
}

#[test]
fn input_forms_agree() {
    for alg in ALL {
        let bytes = "grüße, world".as_bytes();
        let a = alg.hash(bytes);
        let b = alg.hash_vec(bytes.to_vec());
        let c = alg.hash_str("grüße, world");
        assert_eq!(a, b);
        assert_eq!(a, c);
    }
}

#[test]
fn incremental_equals_one_shot_at_every_split() {
    let data = b"The quick brown fox jumps over the lazy dog, twice over.";
    for alg in ALL {
        let whole = alg.hash(data);
        for split in 0..=data.len() {
            let mut ctx = alg.new_context();
            ctx.update(&data[..split]);
            ctx.update(&data[split..]);
            assert_eq!(ctx.finish(), whole);
        }
    }
}

#[test]
fn digest_lengths() {
    let expected = [20usize, 32, 48, 64, 32];
    for (alg, len) in ALL.iter().zip(expected) {
        assert_eq!(alg.digest_len(), len);
        assert_eq!(alg.hash(b"").as_bytes().len(), len);
        assert_eq!(alg.hash(b"abc").to_vec().len(), len);
        assert_eq!(alg.new_context().finish().to_hex().len(), 2 * len);
    }
}

#[test]
fn sha256_and_sha512_256_differ() {
    assert_ne!(Sha256.hash(b"abc"), Sha512_256.hash(b"abc"));
}

#[test]
fn hex_round_trip() {
    for alg in ALL {
        let h = alg.hash(b"round trip");
        let text = h.to_hex();
        assert_eq!(text.len(), 2 * h.as_bytes().len());
        assert_eq!(hex::decode(&text).unwrap(), h.as_bytes());
        assert!(text.chars().all(|c| c.is_ascii_digit() || ('a'..='f').contains(&c)));
    }
}

#[test]
fn views_are_stable() {
    let h = Sha384.hash(b"stable");
    assert_eq!(h.as_bytes(), h.as_bytes());
    assert_eq!(h.to_vec(), h.to_vec());
    assert_eq!(h.to_hex(), h.to_hex());
    assert_eq!(h.to_vec(), h.as_bytes());
}

#[test]
fn lines_drop_terminators() {
    let fed = Sha256.hash_lines(b"first\nsecond\r\nthird");
    assert_eq!(fed, Sha256.hash(b"firstsecondthird"));
    assert_ne!(fed, Sha256.hash(b"first\nsecond\r\nthird"));
}

#[test]
fn lines_trailing_and_empty() {
    assert_eq!(Sha1.hash_lines(b"a\n\nb\n"), Sha1.hash(b"ab"));
    assert_eq!(Sha1.hash_lines(b""), Sha1.hash(b""));
    assert_eq!(Sha1.hash_lines(b"\n\r\n"), Sha1.hash(b""));
}

#[test]
fn lines_keep_lone_carriage_returns() {
    assert_eq!(Sha512.hash_lines(b"a\rb\r"), Sha512.hash(b"a\rb\r"));
    assert_eq!(Sha512.hash_lines(b"x\r\r\ny"), Sha512.hash(b"x\ry"));
}

#[test]
fn cloned_context_continues_independently() {
    let mut ctx = Sha256.new_context();
    ctx.update(b"shared prefix, ");
    let mut other = ctx.clone();
    ctx.update(b"one");
    other.update(b"two");
    assert_eq!(ctx.finish(), Sha256.hash(b"shared prefix, one"));
    assert_eq!(other.finish(), Sha256.hash(b"shared prefix, two"));
}
