use vstd::prelude::*;
use vstd::string::StringExecFns;
use core::str::Utf8Error;
use core::num::ParseIntError;
use core::time::Duration;
use crate::confirm::FeeInfo;
use crate::mnemonic::Language;
use cosmos_sdk_proto::cosmos::base::abci::v1beta1::TxResponse;

verus! {

#[verifier::external_type_specification]
pub struct ExBech32Error(bech32::Error);

#[verifier::external_type_specification]
#[verifier::external_body]
pub struct ExUtf8Error(Utf8Error);

#[verifier::external_type_specification]
#[verifier::external_body]
pub struct ExParseIntError(ParseIntError);

#[verifier::external_type_specification]
#[verifier::external_body]
pub struct ExBase64DecodeError(base64::DecodeError);

#[verifier::external_type_specification]
#[verifier::external_body]
pub struct ExCurveError(secp256k1::Error);

#[verifier::external_type_specification]
#[verifier::external_body]
pub struct ExEncodeError(prost::EncodeError);

#[verifier::external_type_specification]
#[verifier::external_body]
pub struct ExProtoDecodeError(prost::DecodeError);

#[verifier::external_type_specification]
#[verifier::external_body]
pub struct ExTransportError(tonic::transport::Error);

#[verifier::external_type_specification]
#[verifier::external_body]
pub struct ExStatus(tonic::Status);

#[verifier::external_type_specification]
#[verifier::external_body]
pub struct ExTxResponse(TxResponse);

#[verifier::external_type_specification]
#[verifier::external_body]
pub struct ExParseBigIntError(num_bigint::ParseBigIntError);

/// Relies on the `Debug` impl of `T`, through `format!`, for the text of a value.
#[verifier::external_body]
pub(crate) fn debug_text<T: core::fmt::Debug>(v: &T) -> String {
    format!("{:?}", v)
}

/// Relies on `Duration::as_millis`: the whole milliseconds of a duration.
#[verifier::external_body]
fn whole_millis(d: &Duration) -> u128 {
    d.as_millis()
}

/// `s` begins with `p`.
pub open spec fn starts(s: Seq<char>, p: Seq<char>) -> bool {
    p.len() <= s.len() && s.take(p.len() as int) == p
}

/// `s` is `p` followed by a rest that `inner` accepts.
pub open spec fn nests(s: Seq<char>, p: Seq<char>, inner: spec_fn(Seq<char>) -> bool) -> bool {
    starts(s, p) && inner(s.skip(p.len() as int))
}

/// Appends `tail` to the literal `head`.
pub fn joined(head: &str, tail: &str) -> (r: String)
    ensures
        r@ == head@ + tail@,
        starts(r@, head@),
        r@.skip(head@.len() as int) == tail@,
{
    let r = String::from_str(head).concat(tail);
    assert(r@.take(head@.len() as int) =~= head@);
    assert(r@.skip(head@.len() as int) =~= tail@);
    r
}

/// A string was too long for its fixed capacity.
#[derive(Debug, Clone, Copy, PartialEq, Eq, Structural)]
pub enum ArrayStringError {
    TooLong,
}

impl ArrayStringError {
    pub open spec fn shows(self, s: Seq<char>) -> bool {
        s == "This string is too long!"@
    }

    /// Human-readable rendering.
    pub fn to_string(&self) -> (r: String)
        ensures
            self.shows(r@),
    {
        String::from_str("This string is too long!")
    }
}

/// Accepts `text` whole where its UTF-8 form fits in `capacity` bytes, and
/// refuses it as too long otherwise; it is never cut short.
pub fn bounded_text(text: &str, capacity: usize) -> (r: Result<String, ArrayStringError>)
    ensures
        text.len() <= capacity ==> (r matches Ok(s) && s@ == text@),
        text.len() > capacity ==> r == Err::<String, ArrayStringError>(
            ArrayStringError::TooLong,
        ),
{
    if text.len() <= capacity {
        Ok(String::from_str(text))
    } else {
        Err(ArrayStringError::TooLong)
    }
}

/// Why text could not be turned into bytes: it was not UTF-8, or a piece of
/// it was not a number in the expected base.
#[derive(Debug, PartialEq)]
pub enum ByteDecodeError {
    DecodeError(Utf8Error),
    ParseError(ParseIntError),
}

impl ByteDecodeError {
    pub open spec fn shows(self, s: Seq<char>) -> bool {
        match self {
            ByteDecodeError::DecodeError(_) => starts(s, "ByteDecodeError "@),
            ByteDecodeError::ParseError(_) => starts(s, "ByteParseError "@),
        }
    }

    /// Human-readable rendering, naming the stage that failed.
    pub fn to_string(&self) -> (r: String)
        ensures
            self.shows(r@),
    {
        match self {
            ByteDecodeError::DecodeError(val) => joined("ByteDecodeError ", val.to_string().as_str()),
            ByteDecodeError::ParseError(val) => joined("ByteParseError ", val.to_string().as_str()),
        }
    }
}

/// Failures of decoding an address.
#[derive(Debug)]
pub enum AddressError {
    Bech32WrongLength,
    Bech32InvalidBase32,
    Bech32InvalidEncoding,
    HexDecodeError(ByteDecodeError),
    HexDecodeErrorWrongLength,
    PrefixTooLong(ArrayStringError),
    BytesDecodeErrorWrongLength,
}

impl AddressError {
    pub open spec fn shows(self, s: Seq<char>) -> bool {
        match self {
            AddressError::Bech32WrongLength => s == "Bech32WrongLength"@,
            AddressError::Bech32InvalidBase32 => s == "Bech32InvalidBase32"@,
            AddressError::Bech32InvalidEncoding => s == "Bech32InvalidEncoding"@,
            AddressError::HexDecodeError(val) => nests(s, "HexDecodeError "@, |t| val.shows(t)),
            AddressError::HexDecodeErrorWrongLength => s == "HexDecodeError Wrong Length"@,
            AddressError::PrefixTooLong(val) => nests(s, "Prefix too long "@, |t| val.shows(t)),
            AddressError::BytesDecodeErrorWrongLength => s == "BytesDecodeError Wrong Length"@,
        }
    }

    /// Human-readable rendering; a wrapped cause is rendered after the prefix.
    pub fn to_string(&self) -> (r: String)
        ensures
            self.shows(r@),
    {
        match self {
            AddressError::Bech32WrongLength => String::from_str("Bech32WrongLength"),
            AddressError::Bech32InvalidBase32 => String::from_str("Bech32InvalidBase32"),
            AddressError::Bech32InvalidEncoding => String::from_str("Bech32InvalidEncoding"),
            AddressError::HexDecodeError(val) => joined("HexDecodeError ", val.to_string().as_str()),
            AddressError::HexDecodeErrorWrongLength => String::from_str("HexDecodeError Wrong Length"),
            AddressError::PrefixTooLong(val) => joined("Prefix too long ", val.to_string().as_str()),
            AddressError::BytesDecodeErrorWrongLength => String::from_str("BytesDecodeError Wrong Length"),
        }
    }
}

/// The bech32 codec's failures in two buckets: characters outside the
/// base32 set, and every checksum or structural failure.
pub open spec fn address_error_of(error: bech32::Error) -> AddressError {
    match error {
        bech32::Error::InvalidLength => AddressError::Bech32WrongLength,
        bech32::Error::InvalidChar(_) => AddressError::Bech32InvalidBase32,
        _ => AddressError::Bech32InvalidEncoding,
    }
}

impl From<bech32::Error> for AddressError {
    fn from(error: bech32::Error) -> (r: Self) {
        match error {
            bech32::Error::InvalidLength => AddressError::Bech32WrongLength,
            bech32::Error::InvalidChar(_) => AddressError::Bech32InvalidBase32,
            bech32::Error::InvalidData(_) => AddressError::Bech32InvalidEncoding,
            bech32::Error::InvalidChecksum => AddressError::Bech32InvalidEncoding,
            bech32::Error::InvalidPadding => AddressError::Bech32InvalidEncoding,
            bech32::Error::MixedCase => AddressError::Bech32InvalidEncoding,
            bech32::Error::MissingSeparator => AddressError::Bech32InvalidEncoding,
        }
    }
}

impl vstd::std_specs::convert::FromSpecImpl<bech32::Error> for AddressError {
    open spec fn obeys_from_spec() -> bool {
        true
    }

    open spec fn from_spec(error: bech32::Error) -> Self {
        address_error_of(error)
    }
}

impl From<ArrayStringError> for AddressError {
    fn from(error: ArrayStringError) -> (r: Self) {
        AddressError::PrefixTooLong(error)
    }
}

impl vstd::std_specs::convert::FromSpecImpl<ArrayStringError> for AddressError {
    open spec fn obeys_from_spec() -> bool {
        true
    }

    open spec fn from_spec(error: ArrayStringError) -> Self {
        AddressError::PrefixTooLong(error)
    }
}


/// Failures of decoding a public key; shares every address failure and adds
/// a base64 one.
#[derive(Debug)]
pub enum PublicKeyError {
    Bech32WrongLength,
    Bech32InvalidBase32,
    Bech32InvalidEncoding,
    HexDecodeError(ByteDecodeError),
    Base64DecodeError(base64::DecodeError),
    HexDecodeErrorWrongLength,
    BytesDecodeErrorWrongLength,
    PrefixTooLong(ArrayStringError),
}

impl PublicKeyError {
    pub open spec fn shows(self, s: Seq<char>) -> bool {
        match self {
            PublicKeyError::Bech32WrongLength => s == "Bech32WrongLength"@,
            PublicKeyError::Bech32InvalidBase32 => s == "Bech32InvalidBase32"@,
            PublicKeyError::Bech32InvalidEncoding => s == "Bech32InvalidEncoding"@,
            PublicKeyError::HexDecodeError(val) => nests(s, "HexDecodeError "@, |t| val.shows(t)),
            PublicKeyError::Base64DecodeError(_) => starts(s, "Base64DecodeError "@),
            PublicKeyError::BytesDecodeErrorWrongLength => s == "BytesDecodeError Wrong Length"@,
            PublicKeyError::HexDecodeErrorWrongLength => s == "HexDecodeError Wrong Length"@,
            PublicKeyError::PrefixTooLong(val) => nests(s, "Prefix too long "@, |t| val.shows(t)),
        }
    }

    /// Human-readable rendering; a wrapped cause is rendered after the prefix.
    pub fn to_string(&self) -> (r: String)
        ensures
            self.shows(r@),
    {
        match self {
            PublicKeyError::Bech32WrongLength => String::from_str("Bech32WrongLength"),
            PublicKeyError::Bech32InvalidBase32 => String::from_str("Bech32InvalidBase32"),
            PublicKeyError::Bech32InvalidEncoding => String::from_str("Bech32InvalidEncoding"),
            PublicKeyError::HexDecodeError(val) => joined("HexDecodeError ", val.to_string().as_str()),
            PublicKeyError::Base64DecodeError(val) => joined("Base64DecodeError ", val.to_string().as_str()),
            PublicKeyError::BytesDecodeErrorWrongLength => String::from_str("BytesDecodeError Wrong Length"),
            PublicKeyError::HexDecodeErrorWrongLength => String::from_str("HexDecodeError Wrong Length"),
            PublicKeyError::PrefixTooLong(val) => joined("Prefix too long ", val.to_string().as_str()),
        }
    }
}

pub open spec fn public_key_error_of(error: bech32::Error) -> PublicKeyError {
    match error {
        bech32::Error::InvalidLength => PublicKeyError::Bech32WrongLength,
        bech32::Error::InvalidChar(_) => PublicKeyError::Bech32InvalidBase32,
        _ => PublicKeyError::Bech32InvalidEncoding,
    }
}

impl From<bech32::Error> for PublicKeyError {
    fn from(error: bech32::Error) -> (r: Self) {
        match error {
            bech32::Error::InvalidLength => PublicKeyError::Bech32WrongLength,
            bech32::Error::InvalidChar(_) => PublicKeyError::Bech32InvalidBase32,
            bech32::Error::InvalidData(_) => PublicKeyError::Bech32InvalidEncoding,
            bech32::Error::InvalidChecksum => PublicKeyError::Bech32InvalidEncoding,
            bech32::Error::InvalidPadding => PublicKeyError::Bech32InvalidEncoding,
            bech32::Error::MixedCase => PublicKeyError::Bech32InvalidEncoding,
            bech32::Error::MissingSeparator => PublicKeyError::Bech32InvalidEncoding,
        }
    }
}

impl vstd::std_specs::convert::FromSpecImpl<bech32::Error> for PublicKeyError {
    open spec fn obeys_from_spec() -> bool {
        true
    }

    open spec fn from_spec(error: bech32::Error) -> Self {
        public_key_error_of(error)
    }
}

impl From<ArrayStringError> for PublicKeyError {
    fn from(error: ArrayStringError) -> (r: Self) {
        PublicKeyError::PrefixTooLong(error)
    }
}

impl vstd::std_specs::convert::FromSpecImpl<ArrayStringError> for PublicKeyError {
    open spec fn obeys_from_spec() -> bool {
        true
    }

    open spec fn from_spec(error: ArrayStringError) -> Self {
        PublicKeyError::PrefixTooLong(error)
    }
}

/// Each address failure as the public-key failure of the same name.
pub open spec fn public_key_error_from_address(error: AddressError) -> PublicKeyError {
    match error {
        AddressError::Bech32WrongLength => PublicKeyError::Bech32WrongLength,
        AddressError::Bech32InvalidBase32 => PublicKeyError::Bech32InvalidBase32,
        AddressError::Bech32InvalidEncoding => PublicKeyError::Bech32InvalidEncoding,
        AddressError::HexDecodeError(val) => PublicKeyError::HexDecodeError(val),
        AddressError::HexDecodeErrorWrongLength => PublicKeyError::HexDecodeErrorWrongLength,
        AddressError::PrefixTooLong(val) => PublicKeyError::PrefixTooLong(val),
        AddressError::BytesDecodeErrorWrongLength => PublicKeyError::BytesDecodeErrorWrongLength,
    }
}

impl From<AddressError> for PublicKeyError {
    fn from(error: AddressError) -> (r: Self) {
        match error {
            AddressError::Bech32WrongLength => PublicKeyError::Bech32WrongLength,
            AddressError::Bech32InvalidBase32 => PublicKeyError::Bech32InvalidBase32,
            AddressError::Bech32InvalidEncoding => PublicKeyError::Bech32InvalidEncoding,
            AddressError::HexDecodeError(val) => PublicKeyError::HexDecodeError(val),
            AddressError::HexDecodeErrorWrongLength => PublicKeyError::HexDecodeErrorWrongLength,
            AddressError::PrefixTooLong(val) => PublicKeyError::PrefixTooLong(val),
            AddressError::BytesDecodeErrorWrongLength => PublicKeyError::BytesDecodeErrorWrongLength,
        }
    }
}

impl vstd::std_specs::convert::FromSpecImpl<AddressError> for PublicKeyError {
    open spec fn obeys_from_spec() -> bool {
        true
    }

    open spec fn from_spec(error: AddressError) -> Self {
        public_key_error_from_address(error)
    }
}

/// Failures of resolving a derivation path or its seed phrase.
#[derive(Debug)]
pub enum HdWalletError {
    Bip39Error(Bip39Error),
    InvalidPathSpec(String),
}

impl HdWalletError {
    pub open spec fn shows(self, s: Seq<char>) -> bool {
        match self {
            HdWalletError::Bip39Error(val) => val.shows(s),
            HdWalletError::InvalidPathSpec(val) => s == "HDWalletError invalid path "@ + val@,
        }
    }

    /// Human-readable rendering; a seed-phrase failure renders as itself.
    pub fn to_string(&self) -> (r: String)
        ensures
            self.shows(r@),
    {
        match self {
            HdWalletError::Bip39Error(val) => val.to_string(),
            HdWalletError::InvalidPathSpec(val) => joined("HDWalletError invalid path ", val.as_str()),
        }
    }
}

impl From<Bip39Error> for HdWalletError {
    fn from(error: Bip39Error) -> (r: Self) {
        HdWalletError::Bip39Error(error)
    }
}

impl vstd::std_specs::convert::FromSpecImpl<Bip39Error> for HdWalletError {
    open spec fn obeys_from_spec() -> bool {
        true
    }

    open spec fn from_spec(error: Bip39Error) -> Self {
        HdWalletError::Bip39Error(error)
    }
}

/// Failures of checking a seed phrase.
#[derive(Debug, Clone, PartialEq, Eq)]
pub enum Bip39Error {
    /// The phrase's word count is not a multiple of the group size.
    BadWordCount(usize),
    /// The phrase holds a word that no word list knows.
    UnknownWord(String),
    /// The entropy is not a multiple of 32 bits or not between 128 and 256 bits.
    BadEntropyBitCount(usize),
    /// The phrase's checksum does not match.
    InvalidChecksum,
    /// The phrase reads as valid in more than one language.
    AmbiguousWordList(Vec<Language>),
}

impl Bip39Error {
    pub open spec fn shows(self, s: Seq<char>) -> bool {
        match self {
            Bip39Error::BadWordCount(_) => starts(
                s,
                "mnemonic has a word count that is not a multiple of 6: "@,
            ),
            Bip39Error::UnknownWord(w) => s == "mnemonic contains an unknown word: "@ + w@,
            Bip39Error::BadEntropyBitCount(_) => starts(
                s,
                "entropy was not between 128-256 bits or not a multiple of 32 bits: "@,
            ),
            Bip39Error::InvalidChecksum => s == "the mnemonic has an invalid checksum"@,
            Bip39Error::AmbiguousWordList(_) => starts(s, "ambiguous word list: "@),
        }
    }

    /// Human-readable rendering.
    pub fn to_string(&self) -> (r: String)
        ensures
            self.shows(r@),
    {
        match self {
            Bip39Error::BadWordCount(c) => joined(
                "mnemonic has a word count that is not a multiple of 6: ",
                c.to_string().as_str(),
            ),
            Bip39Error::UnknownWord(w) => joined("mnemonic contains an unknown word: ", w.as_str()),
            Bip39Error::BadEntropyBitCount(c) => joined(
                "entropy was not between 128-256 bits or not a multiple of 32 bits: ",
                c.to_string().concat(" bits").as_str(),
            ),
            Bip39Error::InvalidChecksum => String::from_str("the mnemonic has an invalid checksum"),
            Bip39Error::AmbiguousWordList(langs) => joined(
                "ambiguous word list: ",
                debug_text(langs).as_str(),
            ),
        }
    }
}

/// Failures of building or using a signing key; each keeps its cause.
#[derive(Debug)]
pub enum PrivateKeyError {
    HexDecodeError(ByteDecodeError),
    HexDecodeErrorWrongLength,
    CurveError(secp256k1::Error),
    EncodeError(prost::EncodeError),
    PublicKeyError(PublicKeyError),
    AddressError(AddressError),
    HdWalletError(HdWalletError),
}

impl PrivateKeyError {
    pub open spec fn shows(self, s: Seq<char>) -> bool {
        match self {
            PrivateKeyError::HexDecodeError(val) => nests(s, "PrivateKeyError "@, |t| val.shows(t)),
            PrivateKeyError::HexDecodeErrorWrongLength => s == "PrivateKeyError Wrong Length"@,
            PrivateKeyError::CurveError(_) => starts(s, "Secp256k1 Error "@),
            PrivateKeyError::EncodeError(_) => starts(s, "Could not encode message "@),
            PrivateKeyError::PublicKeyError(val) => val.shows(s),
            PrivateKeyError::AddressError(val) => val.shows(s),
            PrivateKeyError::HdWalletError(val) => val.shows(s),
        }
    }

    /// Human-readable rendering; a wrapped library failure renders as itself.
    pub fn to_string(&self) -> (r: String)
        ensures
            self.shows(r@),
    {
        match self {
            PrivateKeyError::HexDecodeError(val) => joined("PrivateKeyError ", val.to_string().as_str()),
            PrivateKeyError::HexDecodeErrorWrongLength => String::from_str("PrivateKeyError Wrong Length"),
            PrivateKeyError::CurveError(val) => joined("Secp256k1 Error ", val.to_string().as_str()),
            PrivateKeyError::EncodeError(val) => joined("Could not encode message ", val.to_string().as_str()),
            PrivateKeyError::PublicKeyError(val) => val.to_string(),
            PrivateKeyError::AddressError(val) => val.to_string(),
            PrivateKeyError::HdWalletError(val) => val.to_string(),
        }
    }
}

impl From<secp256k1::Error> for PrivateKeyError {
    fn from(error: secp256k1::Error) -> (r: Self) {
        PrivateKeyError::CurveError(error)
    }
}

impl vstd::std_specs::convert::FromSpecImpl<secp256k1::Error> for PrivateKeyError {
    open spec fn obeys_from_spec() -> bool {
        true
    }

    open spec fn from_spec(error: secp256k1::Error) -> Self {
        PrivateKeyError::CurveError(error)
    }
}

impl From<HdWalletError> for PrivateKeyError {
    fn from(error: HdWalletError) -> (r: Self) {
        PrivateKeyError::HdWalletError(error)
    }
}

impl vstd::std_specs::convert::FromSpecImpl<HdWalletError> for PrivateKeyError {
    open spec fn obeys_from_spec() -> bool {
        true
    }

    open spec fn from_spec(error: HdWalletError) -> Self {
        PrivateKeyError::HdWalletError(error)
    }
}

impl From<PublicKeyError> for PrivateKeyError {
    fn from(error: PublicKeyError) -> (r: Self) {
        PrivateKeyError::PublicKeyError(error)
    }
}

impl vstd::std_specs::convert::FromSpecImpl<PublicKeyError> for PrivateKeyError {
    open spec fn obeys_from_spec() -> bool {
        true
    }

    open spec fn from_spec(error: PublicKeyError) -> Self {
        PrivateKeyError::PublicKeyError(error)
    }
}

impl From<AddressError> for PrivateKeyError {
    fn from(error: AddressError) -> (r: Self) {
        PrivateKeyError::AddressError(error)
    }
}

impl vstd::std_specs::convert::FromSpecImpl<AddressError> for PrivateKeyError {
    open spec fn obeys_from_spec() -> bool {
        true
    }

    open spec fn from_spec(error: AddressError) -> Self {
        PrivateKeyError::AddressError(error)
    }
}

impl From<prost::EncodeError> for PrivateKeyError {
    fn from(error: prost::EncodeError) -> (r: Self) {
        PrivateKeyError::EncodeError(error)
    }
}

impl vstd::std_specs::convert::FromSpecImpl<prost::EncodeError> for PrivateKeyError {
    open spec fn obeys_from_spec() -> bool {
        true
    }

    open spec fn from_spec(error: prost::EncodeError) -> Self {
        PrivateKeyError::EncodeError(error)
    }
}

impl From<ByteDecodeError> for PrivateKeyError {
    fn from(error: ByteDecodeError) -> (r: Self) {
        PrivateKeyError::HexDecodeError(error)
    }
}

impl vstd::std_specs::convert::FromSpecImpl<ByteDecodeError> for PrivateKeyError {
    open spec fn obeys_from_spec() -> bool {
        true
    }

    open spec fn from_spec(error: ByteDecodeError) -> Self {
        PrivateKeyError::HexDecodeError(error)
    }
}

/// Appends `tail` to `s`, keeping every prefix of `s`.
pub fn appended(s: String, tail: &str) -> (r: String)
    ensures
        r@ == s@ + tail@,
        forall|p: Seq<char>| #[trigger] starts(s@, p) ==> starts(r@, p),
{
    let ghost before = s@;
    let r = s.concat(tail);
    assert forall|p: Seq<char>| #[trigger] starts(before, p) implies starts(r@, p) by {
        assert(r@.take(p.len() as int) =~= before.take(p.len() as int));
    }
    r
}

/// The failure returned by every client operation.
#[derive(Debug)]
pub enum CosmosGrpcError {
    NoToken,
    BadResponse(String),
    BadStruct(String),
    SigningError { error: PrivateKeyError },
    ConnectionError { error: tonic::transport::Error },
    RequestError { error: tonic::Status },
    DecodeError { error: prost::DecodeError },
    BadInput(String),
    ChainNotRunning,
    NodeNotSynced,
    InvalidPrefix,
    NoBlockProduced { time: Duration },
    TransactionFailed { tx: TxResponse, time: Duration },
    InsufficientFees { fee_info: FeeInfo },
    ParseError { error: num_bigint::ParseBigIntError },
    InvalidAccount { type_url: String },
}

impl CosmosGrpcError {
    pub open spec fn shows(self, s: Seq<char>) -> bool {
        match self {
            CosmosGrpcError::NoToken => s == "Account has no tokens! No details!"@,
            CosmosGrpcError::BadResponse(val) => s == "CosmosGrpc bad response "@ + val@,
            CosmosGrpcError::BadStruct(val) => s == "CosmosGrpc unexpected json returned "@ + val@,
            CosmosGrpcError::BadInput(val) => s == "CosmosGrpc bad input "@ + val@,
            CosmosGrpcError::DecodeError { .. } => starts(s, "CosmosGrpc bad any unpacking "@),
            CosmosGrpcError::ConnectionError { .. } => starts(s, "CosmosGrpc Connection error "@),
            CosmosGrpcError::RequestError { .. } => starts(s, "CosmosGrpc Request error "@),
            CosmosGrpcError::ChainNotRunning => s
                == "CosmosGrpc this node is waiting on a blockchain start"@,
            CosmosGrpcError::NodeNotSynced => s == "CosmosGrpc this node is syncing"@,
            CosmosGrpcError::SigningError { .. } => starts(
                s,
                "CosmosGrpc could not sign using private key "@,
            ),
            CosmosGrpcError::NoBlockProduced { .. } => starts(s, "CosmosGrpc NoBlockProduced in "@),
            CosmosGrpcError::InvalidPrefix => s == "CosmosGrpc InvalidPrefix"@,
            CosmosGrpcError::TransactionFailed { .. } => starts(s, "CosmosGrpc Transaction "@),
            CosmosGrpcError::InsufficientFees { .. } => starts(
                s,
                "Insufficient fees or gas for transaction "@,
            ),
            CosmosGrpcError::ParseError { .. } => starts(s, "Failed to Parse BigInt "@),
            CosmosGrpcError::InvalidAccount { type_url } => s
                == "CosmosGrpc could not decode account: "@ + type_url@,
        }
    }

    /// Human-readable rendering, naming the client layer and the cause.
    pub fn to_string(&self) -> (r: String)
        ensures
            self.shows(r@),
    {
        match self {
            CosmosGrpcError::NoToken => String::from_str("Account has no tokens! No details!"),
            CosmosGrpcError::BadResponse(val) => joined("CosmosGrpc bad response ", val.as_str()),
            CosmosGrpcError::BadStruct(val) => joined(
                "CosmosGrpc unexpected json returned ",
                val.as_str(),
            ),
            CosmosGrpcError::BadInput(val) => joined("CosmosGrpc bad input ", val.as_str()),
            CosmosGrpcError::DecodeError { error } => joined(
                "CosmosGrpc bad any unpacking ",
                error.to_string().as_str(),
            ),
            CosmosGrpcError::ConnectionError { error } => {
                let head = joined("CosmosGrpc Connection error ", error.to_string().as_str());
                let head = appended(head, " ");
                appended(head, debug_text(error).as_str())
            },
            CosmosGrpcError::RequestError { error } => {
                let head = joined("CosmosGrpc Request error ", error.to_string().as_str());
                let head = appended(head, " ");
                appended(head, debug_text(error).as_str())
            },
            CosmosGrpcError::ChainNotRunning => String::from_str(
                "CosmosGrpc this node is waiting on a blockchain start",
            ),
            CosmosGrpcError::NodeNotSynced => String::from_str("CosmosGrpc this node is syncing"),
            CosmosGrpcError::SigningError { error } => joined(
                "CosmosGrpc could not sign using private key ",
                debug_text(error).as_str(),
            ),
            CosmosGrpcError::NoBlockProduced { time } => {
                let head = joined(
                    "CosmosGrpc NoBlockProduced in ",
                    whole_millis(time).to_string().as_str(),
                );
                appended(head, "ms")
            },
            CosmosGrpcError::InvalidPrefix => String::from_str("CosmosGrpc InvalidPrefix"),
            CosmosGrpcError::TransactionFailed { tx, time } => {
                let head = joined("CosmosGrpc Transaction ", debug_text(tx).as_str());
                let head = appended(head, " did not enter chain in ");
                let head = appended(head, whole_millis(time).to_string().as_str());
                appended(head, "ms")
            },
            CosmosGrpcError::InsufficientFees { fee_info } => joined(
                "Insufficient fees or gas for transaction ",
                debug_text(fee_info).as_str(),
            ),
            CosmosGrpcError::ParseError { error } => joined(
                "Failed to Parse BigInt ",
                debug_text(error).as_str(),
            ),
            CosmosGrpcError::InvalidAccount { type_url } => joined(
                "CosmosGrpc could not decode account: ",
                type_url.as_str(),
            ),
        }
    }
}

impl From<tonic::transport::Error> for CosmosGrpcError {
    fn from(error: tonic::transport::Error) -> (r: Self) {
        CosmosGrpcError::ConnectionError { error }
    }
}

impl vstd::std_specs::convert::FromSpecImpl<tonic::transport::Error> for CosmosGrpcError {
    open spec fn obeys_from_spec() -> bool {
        true
    }

    open spec fn from_spec(error: tonic::transport::Error) -> Self {
        CosmosGrpcError::ConnectionError { error }
    }
}

impl From<tonic::Status> for CosmosGrpcError {
    fn from(error: tonic::Status) -> (r: Self) {
        CosmosGrpcError::RequestError { error }
    }
}

impl vstd::std_specs::convert::FromSpecImpl<tonic::Status> for CosmosGrpcError {
    open spec fn obeys_from_spec() -> bool {
        true
    }

    open spec fn from_spec(error: tonic::Status) -> Self {
        CosmosGrpcError::RequestError { error }
    }
}

impl From<ArrayStringError> for CosmosGrpcError {
    fn from(_error: ArrayStringError) -> (r: Self) {
        CosmosGrpcError::InvalidPrefix
    }
}

impl vstd::std_specs::convert::FromSpecImpl<ArrayStringError> for CosmosGrpcError {
    open spec fn obeys_from_spec() -> bool {
        true
    }

    open spec fn from_spec(error: ArrayStringError) -> Self {
        CosmosGrpcError::InvalidPrefix
    }
}

impl From<prost::DecodeError> for CosmosGrpcError {
    fn from(error: prost::DecodeError) -> (r: Self) {
        CosmosGrpcError::DecodeError { error }
    }
}

impl vstd::std_specs::convert::FromSpecImpl<prost::DecodeError> for CosmosGrpcError {
    open spec fn obeys_from_spec() -> bool {
        true
    }

    open spec fn from_spec(error: prost::DecodeError) -> Self {
        CosmosGrpcError::DecodeError { error }
    }
}

impl From<PrivateKeyError> for CosmosGrpcError {
    fn from(error: PrivateKeyError) -> (r: Self) {
        CosmosGrpcError::SigningError { error }
    }
}

impl vstd::std_specs::convert::FromSpecImpl<PrivateKeyError> for CosmosGrpcError {
    open spec fn obeys_from_spec() -> bool {
        true
    }

    open spec fn from_spec(error: PrivateKeyError) -> Self {
        CosmosGrpcError::SigningError { error }
    }
}

/// A bech32 checksum, padding, case, separator or data failure is classified
/// as a failed validation of base32 text: only a character outside the
/// base32 set classifies as not being base32, for addresses and public keys alike.
pub proof fn lemma_checksum_failure_is_invalid_encoding(error: bech32::Error)
    ensures
        (address_error_of(error) == AddressError::Bech32InvalidBase32) <==> (
        error is InvalidChar),
        (public_key_error_of(error) == PublicKeyError::Bech32InvalidBase32) <==> (
        error is InvalidChar),
        error is InvalidChecksum ==> address_error_of(error) == AddressError::Bech32InvalidEncoding,
        error is InvalidChecksum ==> public_key_error_of(error)
            == PublicKeyError::Bech32InvalidEncoding,
{
}

/// Promoting an address failure to a public-key failure loses nothing: distinct
/// address failures stay distinct.
pub proof fn lemma_address_promotion_injective(a: AddressError, b: AddressError)
    requires
        public_key_error_from_address(a) == public_key_error_from_address(b),
    ensures
        a == b,
{
}

/// An address failure promoted to a public-key failure and then to a
/// signing-key failure renders exactly as the address failure itself; so a
/// wrong bech32 length renders as `Bech32WrongLength` at the top.
pub proof fn lemma_wrapped_address_text(error: AddressError, s: Seq<char>)
    ensures
        PrivateKeyError::PublicKeyError(public_key_error_from_address(error)).shows(s)
            == error.shows(s),
        PrivateKeyError::PublicKeyError(
            public_key_error_from_address(AddressError::Bech32WrongLength),
        ).shows(s) ==> s == "Bech32WrongLength"@,
{
}

} // verus!
