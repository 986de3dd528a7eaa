use order_gateway::codec::{decode, encode, has_delimiter, CodecError, DELIMITER};

#[test]
fn delimiter_is_the_section_sign() {
    assert_eq!(DELIMITER, '§');
    assert_eq!(DELIMITER as u32, 0xa7);
}

#[test]
fn encode_joins_with_delimiter() {
    assert_eq!(encode("alice", "1"), Ok("alice§1".to_string()));
    assert_eq!(encode("desk7", "ord42"), Ok("desk7§ord42".to_string()));
}

#[test]
fn encode_accepts_hyphens_and_other_punctuation() {
    assert_eq!(
        encode("miles69", "6f9619ff-8b86-d011-b42d-00c04fc964ff"),
        Ok("miles69§6f9619ff-8b86-d011-b42d-00c04fc964ff".to_string())
    );
    assert_eq!(encode("mary-ann", "a_b.c:d"), Ok("mary-ann§a_b.c:d".to_string()));
}

#[test]
fn encode_accepts_empty_components() {
    assert_eq!(encode("", ""), Ok("§".to_string()));
    assert_eq!(encode("alice", ""), Ok("alice§".to_string()));
    assert_eq!(encode("", "1"), Ok("§1".to_string()));
}

#[test]
fn encode_rejects_delimiter_in_client_id() {
    assert_eq!(encode("al§ice", "1"), Err(CodecError::InvalidIdentifier));
    assert_eq!(encode("§", "1"), Err(CodecError::InvalidIdentifier));
}

#[test]
fn encode_rejects_delimiter_in_order_id() {
    assert_eq!(encode("alice", "1§2"), Err(CodecError::InvalidIdentifier));
    assert_eq!(encode("alice", "§"), Err(CodecError::InvalidIdentifier));
}

#[test]
fn encode_rejects_delimiter_in_both() {
    assert_eq!(encode("a§b", "c§d"), Err(CodecError::InvalidIdentifier));
}

#[test]
fn encode_fails_exactly_on_delimiter() {
    let parts = ["", "a", "alice", "§", "a§", "§a", "a§b", "a-b", "ä", "a b", "¶", "Â"];
    for c in parts {
        for o in parts {
            let expect_err = c.contains('§') || o.contains('§');
            assert_eq!(encode(c, o).is_err(), expect_err, "{:?} {:?}", c, o);
            if expect_err {
                assert_eq!(encode(c, o), Err(CodecError::InvalidIdentifier));
            }
        }
    }
}

#[test]
fn decode_splits_at_delimiter() {
    assert_eq!(decode("alice§1"), Ok(("alice".to_string(), "1".to_string())));
}

#[test]
fn decode_splits_at_first_delimiter() {
    assert_eq!(decode("alice§1§2"), Ok(("alice".to_string(), "1§2".to_string())));
    assert_eq!(decode("§§"), Ok(("".to_string(), "§".to_string())));
    assert_eq!(decode("a§b§c§d"), Ok(("a".to_string(), "b§c§d".to_string())));
}

#[test]
fn decode_accepts_empty_components() {
    assert_eq!(decode("§"), Ok(("".to_string(), "".to_string())));
    assert_eq!(decode("alice§"), Ok(("alice".to_string(), "".to_string())));
    assert_eq!(decode("§1"), Ok(("".to_string(), "1".to_string())));
}

#[test]
fn decode_without_delimiter_is_malformed() {
    assert_eq!(decode("alice"), Err(CodecError::MalformedIdentifier));
    assert_eq!(decode(""), Err(CodecError::MalformedIdentifier));
    assert_eq!(decode("alice-1"), Err(CodecError::MalformedIdentifier));
    assert_eq!(decode("alice¶1"), Err(CodecError::MalformedIdentifier));
}

#[test]
fn decode_counts_characters_not_bytes() {
    assert_eq!(decode("zoë§ördér"), Ok(("zoë".to_string(), "ördér".to_string())));
    assert_eq!(encode("zoë", "ördér"), Ok("zoë§ördér".to_string()));
    assert_eq!(decode("日本§語"), Ok(("日本".to_string(), "語".to_string())));
}

#[test]
fn round_trip_gives_the_components_back() {
    let clients = ["alice", "bob", "", "desk_7", "zoë", "a b", "mary-ann"];
    let orders = ["1", "", "ord42", "x_y", "42", "ö", "6f9619ff-8b86-d011-b42d-00c04fc964ff"];
    for c in clients {
        for o in orders {
            let composite = encode(c, o).unwrap();
            assert_eq!(decode(&composite), Ok((c.to_string(), o.to_string())));
        }
    }
}

#[test]
fn decode_then_encode_gives_the_composite_back() {
    for composite in ["alice§1", "§", "a§", "§b"] {
        let (c, o) = decode(composite).unwrap();
        assert_eq!(encode(&c, &o), Ok(composite.to_string()));
    }
}

#[test]
fn has_delimiter_finds_it_anywhere() {
    assert!(has_delimiter("§"));
    assert!(has_delimiter("a§"));
    assert!(has_delimiter("§a"));
    assert!(has_delimiter("ab§cd"));
    assert!(!has_delimiter(""));
    assert!(!has_delimiter("abcd"));
    assert!(!has_delimiter("ab-cd"));
    assert!(!has_delimiter("ab¶cd"));
}

#[test]
fn distinct_pairs_give_distinct_composites() {
    let clients = ["alice", "bob", "", "a", "ab"];
    let orders = ["1", "", "b", "b§c", "§"];
    let mut seen: Vec<(String, &str, &str)> = Vec::new();
    for c in clients {
        for o in orders {
            let composite = format!("{}{}{}", c, DELIMITER, o);
            for (earlier, c2, o2) in &seen {
                assert_ne!(&composite, earlier, "{:?} {:?} {:?} {:?}", c, o, c2, o2);
            }
            assert_eq!(decode(&composite), Ok((c.to_string(), o.to_string())));
            seen.push((composite, c, o));
        }
    }
}
