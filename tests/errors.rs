use bech32::{FromBase32, ToBase32, Variant};
use cosmos_errors::confirm::FeeInfo;
use cosmos_errors::error::{
    bounded_text, AddressError, ArrayStringError, Bip39Error, CosmosGrpcError, HdWalletError,
    PrivateKeyError, PublicKeyError,
};
use cosmos_errors::mnemonic::Language;
use std::time::Duration;

fn address_text() -> String {
    let data = [7u8; 20];
    bech32::encode("cosmos", data.to_base32(), Variant::Bech32).unwrap()
}

#[test]
fn valid_address_decodes() {
    let (hrp, data, _) = bech32::decode(&address_text()).unwrap();
    assert_eq!(hrp, "cosmos");
    assert_eq!(Vec::<u8>::from_base32(&data).unwrap(), vec![7u8; 20]);
}

#[test]
fn corrupted_checksum_is_invalid_encoding() {
    let text = address_text();
    let last = text.chars().last().unwrap();
    let swap = if last == 'q' { 'p' } else { 'q' };
    let corrupted = format!("{}{}", &text[..text.len() - 1], swap);
    let err = bech32::decode(&corrupted).unwrap_err();
    assert_eq!(err, bech32::Error::InvalidChecksum);
    assert!(matches!(AddressError::from(err), AddressError::Bech32InvalidEncoding));
    let err = bech32::decode(&corrupted).unwrap_err();
    assert!(matches!(PublicKeyError::from(err), PublicKeyError::Bech32InvalidEncoding));
}

#[test]
fn bech32_failures_fall_in_two_buckets() {
    let cases = [
        (bech32::Error::InvalidLength, "Bech32WrongLength"),
        (bech32::Error::InvalidChar('b'), "Bech32InvalidBase32"),
        (bech32::Error::InvalidData(40), "Bech32InvalidEncoding"),
        (bech32::Error::InvalidChecksum, "Bech32InvalidEncoding"),
        (bech32::Error::InvalidPadding, "Bech32InvalidEncoding"),
        (bech32::Error::MixedCase, "Bech32InvalidEncoding"),
        (bech32::Error::MissingSeparator, "Bech32InvalidEncoding"),
    ];
    for (err, name) in cases.iter() {
        assert_eq!(AddressError::from(err.clone()).to_string(), *name);
        assert_eq!(PublicKeyError::from(err.clone()).to_string(), *name);
    }
}

#[test]
fn character_outside_base32_set() {
    let text = address_text();
    let corrupted = format!("{}b", &text[..text.len() - 1]);
    let err = bech32::decode(&corrupted).unwrap_err();
    assert!(matches!(AddressError::from(err), AddressError::Bech32InvalidBase32));
}

#[test]
fn wrapped_wrong_length_renders_innermost_cause() {
    let public = PublicKeyError::from(AddressError::Bech32WrongLength);
    assert!(matches!(public, PublicKeyError::Bech32WrongLength));
    let private = PrivateKeyError::from(public);
    assert!(matches!(
        private,
        PrivateKeyError::PublicKeyError(PublicKeyError::Bech32WrongLength)
    ));
    assert!(private.to_string().contains("Bech32WrongLength"));
    let top = CosmosGrpcError::from(private);
    assert!(top.to_string().contains("Bech32WrongLength"));
}

#[test]
fn address_promotion_keeps_each_variant() {
    assert!(matches!(
        PublicKeyError::from(AddressError::PrefixTooLong(ArrayStringError::TooLong)),
        PublicKeyError::PrefixTooLong(ArrayStringError::TooLong)
    ));
    assert!(matches!(
        PublicKeyError::from(AddressError::HexDecodeErrorWrongLength),
        PublicKeyError::HexDecodeErrorWrongLength
    ));
    assert!(matches!(
        PublicKeyError::from(AddressError::BytesDecodeErrorWrongLength),
        PublicKeyError::BytesDecodeErrorWrongLength
    ));
    assert!(matches!(
        PublicKeyError::from(AddressError::Bech32InvalidBase32),
        PublicKeyError::Bech32InvalidBase32
    ));
}

#[test]
fn address_renderings() {
    assert_eq!(
        AddressError::HexDecodeErrorWrongLength.to_string(),
        "HexDecodeError Wrong Length"
    );
    assert_eq!(
        AddressError::BytesDecodeErrorWrongLength.to_string(),
        "BytesDecodeError Wrong Length"
    );
    assert_eq!(
        AddressError::from(ArrayStringError::TooLong).to_string(),
        "Prefix too long This string is too long!"
    );
    assert_eq!(
        PublicKeyError::from(ArrayStringError::TooLong).to_string(),
        "Prefix too long This string is too long!"
    );
}

#[test]
fn bounded_text_fits_or_fails_whole() {
    assert_eq!(bounded_text("cosmos", 6), Ok("cosmos".to_string()));
    assert_eq!(bounded_text("cosmos", 5), Err(ArrayStringError::TooLong));
    assert_eq!(bounded_text("", 0), Ok(String::new()));
    assert_eq!(bounded_text("é", 1), Err(ArrayStringError::TooLong));
    assert_eq!(ArrayStringError::TooLong.to_string(), "This string is too long!");
}

#[test]
fn seed_phrase_renderings() {
    assert_eq!(
        Bip39Error::BadWordCount(13).to_string(),
        "mnemonic has a word count that is not a multiple of 6: 13"
    );
    assert_eq!(
        Bip39Error::UnknownWord("zebraa".to_string()).to_string(),
        "mnemonic contains an unknown word: zebraa"
    );
    assert_eq!(
        Bip39Error::BadEntropyBitCount(100).to_string(),
        "entropy was not between 128-256 bits or not a multiple of 32 bits: 100 bits"
    );
    assert_eq!(
        Bip39Error::InvalidChecksum.to_string(),
        "the mnemonic has an invalid checksum"
    );
    assert_eq!(
        Bip39Error::AmbiguousWordList(vec![Language::English, Language::French]).to_string(),
        "ambiguous word list: [English, French]"
    );
    assert_eq!(
        HdWalletError::InvalidPathSpec("m/x".to_string()).to_string(),
        "HDWalletError invalid path m/x"
    );
    assert_eq!(
        HdWalletError::Bip39Error(Bip39Error::InvalidChecksum).to_string(),
        "the mnemonic has an invalid checksum"
    );
}

#[test]
fn private_key_renderings() {
    assert_eq!(
        PrivateKeyError::HexDecodeErrorWrongLength.to_string(),
        "PrivateKeyError Wrong Length"
    );
    let curve = PrivateKeyError::from(secp256k1::Error::InvalidSecretKey);
    assert!(matches!(curve, PrivateKeyError::CurveError(secp256k1::Error::InvalidSecretKey)));
    assert!(curve.to_string().starts_with("Secp256k1 Error "));
    let wallet = PrivateKeyError::from(HdWalletError::InvalidPathSpec("m/q".to_string()));
    assert_eq!(wallet.to_string(), "HDWalletError invalid path m/q");
    let address = PrivateKeyError::from(AddressError::Bech32InvalidBase32);
    assert_eq!(address.to_string(), "Bech32InvalidBase32");
}

#[test]
fn client_renderings() {
    assert_eq!(
        CosmosGrpcError::NoToken.to_string(),
        "Account has no tokens! No details!"
    );
    assert_eq!(
        CosmosGrpcError::BadResponse("x".to_string()).to_string(),
        "CosmosGrpc bad response x"
    );
    assert_eq!(
        CosmosGrpcError::BadStruct("y".to_string()).to_string(),
        "CosmosGrpc unexpected json returned y"
    );
    assert_eq!(
        CosmosGrpcError::BadInput("z".to_string()).to_string(),
        "CosmosGrpc bad input z"
    );
    assert_eq!(
        CosmosGrpcError::ChainNotRunning.to_string(),
        "CosmosGrpc this node is waiting on a blockchain start"
    );
    assert_eq!(
        CosmosGrpcError::NodeNotSynced.to_string(),
        "CosmosGrpc this node is syncing"
    );
    assert_eq!(
        CosmosGrpcError::from(ArrayStringError::TooLong).to_string(),
        "CosmosGrpc InvalidPrefix"
    );
    assert_eq!(
        CosmosGrpcError::NoBlockProduced { time: Duration::from_millis(5000) }.to_string(),
        "CosmosGrpc NoBlockProduced in 5000ms"
    );
    assert_eq!(
        CosmosGrpcError::InsufficientFees { fee_info: FeeInfo::InsufficientGas { amount: 9 } }
            .to_string(),
        "Insufficient fees or gas for transaction InsufficientGas { amount: 9 }"
    );
    assert_eq!(
        CosmosGrpcError::InvalidAccount { type_url: "/a.B".to_string() }.to_string(),
        "CosmosGrpc could not decode account: /a.B"
    );
    let status = CosmosGrpcError::from(tonic::Status::not_found("gone"));
    assert!(matches!(status, CosmosGrpcError::RequestError { .. }));
    assert!(status.to_string().starts_with("CosmosGrpc Request error "));
    let parse = "x".parse::<num_bigint::BigInt>().unwrap_err();
    let parse = CosmosGrpcError::ParseError { error: parse };
    assert!(parse.to_string().starts_with("Failed to Parse BigInt "));
}

#[test]
fn seed_phrase_failure_promotes_to_signing_key_failure() {
    let wallet = HdWalletError::from(Bip39Error::BadWordCount(13));
    assert!(matches!(wallet, HdWalletError::Bip39Error(Bip39Error::BadWordCount(13))));
    let private = PrivateKeyError::from(wallet);
    assert_eq!(
        private.to_string(),
        "mnemonic has a word count that is not a multiple of 6: 13"
    );
}
