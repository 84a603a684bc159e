use chain_ingest::chain::{
    address_utxo_url, block_hash_url, block_transactions_url, is_blank_char, is_hex_digit_char,
    parse_block_hash,
};
use chain_ingest::error::IngestError;
use chain_ingest::text::{append_decimal, append_fixed};

const SAMPLE_HASH: &str = "00000000000000000002a7c4c1e48d76c5a37902165a270156b7a8d72728a054";

#[test]
fn block_hash_url_names_the_height() {
    assert_eq!(
        block_hash_url("https://blockstream.info/api", 830_000),
        "https://blockstream.info/api/block-height/830000"
    );
    assert_eq!(block_hash_url("http://node", 0), "http://node/block-height/0");
    assert_eq!(
        block_hash_url("", u64::MAX),
        "/block-height/18446744073709551615"
    );
}

#[test]
fn block_transactions_url_names_the_hash() {
    assert_eq!(
        block_transactions_url("https://blockstream.info/api", "00ab"),
        "https://blockstream.info/api/block/00ab/txs"
    );
}

#[test]
fn address_utxo_url_names_the_address() {
    assert_eq!(
        address_utxo_url("https://blockstream.info/api", "bc1qexample"),
        "https://blockstream.info/api/address/bc1qexample/utxo"
    );
}

#[test]
fn decimal_text_of_integers() {
    let mut out = String::from("n=");
    append_decimal(&mut out, 0);
    assert_eq!(out, "n=0");
    let mut out = String::new();
    append_decimal(&mut out, 9);
    append_decimal(&mut out, 10);
    append_decimal(&mut out, 1_234_567_890);
    assert_eq!(out, "9101234567890");
    let mut out = String::new();
    append_decimal(&mut out, u128::MAX);
    assert_eq!(out, "340282366920938463463374607431768211455");
}

#[test]
fn fixed_width_text_pads_and_cuts() {
    let mut out = String::new();
    append_fixed(&mut out, 42, 5);
    assert_eq!(out, "00042");
    let mut out = String::new();
    append_fixed(&mut out, 123_456, 3);
    assert_eq!(out, "456");
    let mut out = String::from("x");
    append_fixed(&mut out, 7, 0);
    assert_eq!(out, "x");
}

#[test]
fn every_digit_has_its_character() {
    let mut out = String::new();
    for d in 0u128..10 {
        append_decimal(&mut out, d);
    }
    assert_eq!(out, "0123456789");
}

#[test]
fn hash_reply_is_trimmed() {
    let body = format!("{}\n", SAMPLE_HASH);
    assert_eq!(parse_block_hash(&body), Ok(SAMPLE_HASH.to_string()));
    let body = format!("  \t{}\r\n ", SAMPLE_HASH);
    assert_eq!(parse_block_hash(&body), Ok(SAMPLE_HASH.to_string()));
    assert_eq!(parse_block_hash(SAMPLE_HASH), Ok(SAMPLE_HASH.to_string()));
}

#[test]
fn hash_reply_trims_unicode_white_space() {
    let body = "\u{a0}\u{2003}00ab\u{3000}\u{85}\u{2028}";
    assert_eq!(parse_block_hash(body), Ok("00ab".to_string()));
}

#[test]
fn hash_reply_accepts_both_cases() {
    assert_eq!(parse_block_hash("00ABcdEF19"), Ok("00ABcdEF19".to_string()));
}

#[test]
fn empty_hash_reply_is_malformed() {
    assert_eq!(parse_block_hash(""), Err(IngestError::UpstreamMalformed));
    assert_eq!(parse_block_hash("  \n\t "), Err(IngestError::UpstreamMalformed));
}

#[test]
fn hash_reply_that_is_no_hash_is_malformed() {
    assert_eq!(parse_block_hash("Block not found"), Err(IngestError::UpstreamMalformed));
    assert_eq!(parse_block_hash("00ab 00cd"), Err(IngestError::UpstreamMalformed));
    assert_eq!(parse_block_hash("00ag"), Err(IngestError::UpstreamMalformed));
    assert_eq!(parse_block_hash("0x00ab"), Err(IngestError::UpstreamMalformed));
    assert_eq!(parse_block_hash("00ab\u{200b}"), Err(IngestError::UpstreamMalformed));
    assert_eq!(parse_block_hash("<html></html>"), Err(IngestError::UpstreamMalformed));
}

#[test]
fn trimming_agrees_with_the_standard_library() {
    let bodies = [
        "",
        " ",
        "00ab",
        " 00ab",
        "00ab ",
        "\n00ab\n",
        "\u{1680}00ab\u{205f}",
        "\u{2000}\u{200a}ff\u{202f}\u{2029}",
        "\u{b}\u{c}ff",
    ];
    for body in bodies {
        let trimmed = body.trim();
        let expected = if !trimmed.is_empty() && trimmed.chars().all(|c| c.is_ascii_hexdigit()) {
            Ok(trimmed.to_string())
        } else {
            Err(IngestError::UpstreamMalformed)
        };
        assert_eq!(parse_block_hash(body), expected);
    }
}

#[test]
fn blank_characters_are_those_of_the_standard_library() {
    let mut code: u32 = 0;
    while code < 0x3100 {
        if let Some(c) = char::from_u32(code) {
            assert_eq!(is_blank_char(c), c.is_whitespace());
            assert_eq!(is_hex_digit_char(c), c.is_ascii_hexdigit());
        }
        code += 1;
    }
    assert!(!is_blank_char('\u{1f600}'));
    assert!(!is_hex_digit_char('\u{ff10}'));
}
