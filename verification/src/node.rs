//! DDC nodes: their public keys, kinds, modes and parameters.
use vstd::prelude::*;
use vstd::std_specs::convert::{FromSpec, FromSpecImpl, TryFromSpec, TryFromSpecImpl};
use vstd::string::*;
use vstd::utf8::*;

use parity_scale_codec::Encode;

use crate::hash::h256_from_text;
use crate::BucketId;

use crate::hexadecimal::{
    ascii_lowercase, bytes32, has_hex32_prefix_and_length, is_prefixed_hex32_text,
    lemma_reads_prefixed_hex32, parse_prefixed_hex32_or, reads_prefixed_hex32, lemma_bytes32_of_seq, decode_prefixed_hex32, encode_prefixed_hex, lemma_bytes32_view,
    lemma_prefixed_hex32_normalizes, lemma_prefixed_hex32_roundtrip, parse_prefixed_hex32,
    prefixed_lower_hex, HexKeyError,
};

verus! {

/// A 32-byte account identifier (a public key).
#[derive(Clone, Debug, PartialEq, Eq, PartialOrd, Ord, Hash)]
pub struct AccountId32(pub [u8; 32]);

/// The key of a DDC node. Storage nodes are keyed by an account identifier.
#[derive(Clone, Debug, PartialEq, Eq, PartialOrd, Ord, Hash)]
pub enum NodePubKey {
    StoragePubKey(AccountId32),
}

impl NodePubKey {
    /// The 32 bytes of the key.
    pub open spec fn key_bytes(self) -> Seq<u8> {
        match self {
            NodePubKey::StoragePubKey(account) => account.0@,
        }
    }

    /// The storage key whose account identifier holds `bytes`.
    pub open spec fn from_key_bytes(bytes: Seq<u8>) -> NodePubKey {
        NodePubKey::StoragePubKey(AccountId32(bytes32(bytes)))
    }
}

/// What converting a string into a [`NodePubKey`] gives: the key, or the
/// message that says why the string is not one.
pub open spec fn node_pub_key_from_text(text: Seq<u8>) -> Result<NodePubKey, &'static str> {
    match parse_prefixed_hex32(text) {
        Ok(bytes) => Ok(NodePubKey::from_key_bytes(bytes)),
        Err(HexKeyError::NotPrefixedHex32) => Err(
            "NodePubKey must be a 32-byte hex string started with '0x'",
        ),
        Err(HexKeyError::InvalidHexDigit) => Err("NodePubKey must be a valid hex string"),
    }
}

/// What converting a byte string into a [`NodePubKey`] gives.
pub open spec fn node_pub_key_from_bytes(bytes: Seq<u8>) -> Result<NodePubKey, &'static str> {
    if bytes.len() == 32 {
        Ok(NodePubKey::from_key_bytes(bytes))
    } else {
        Err("NodePubKey must be exactly 32 bytes")
    }
}

/// The bytes of the key that a reading gave, or its error.
pub open spec fn node_key_bytes_or(res: Result<NodePubKey, &'static str>) -> Result<
    Seq<u8>,
    &'static str,
> {
    match res {
        Ok(key) => Ok(key.key_bytes()),
        Err(e) => Err(e),
    }
}

/// The error when a string is not `0x` followed by 64 bytes.
pub open spec fn node_key_format_error() -> &'static str {
    "NodePubKey must be a 32-byte hex string started with '0x'"
}

/// The error when the 64 bytes after `0x` are not all hex digits.
pub open spec fn node_key_digit_error() -> &'static str {
    "NodePubKey must be a valid hex string"
}

/// Reading a node key from text does what [`reads_prefixed_hex32`] asks.
pub proof fn lemma_node_pub_key_text_reader(text: Seq<u8>)
    ensures
        reads_prefixed_hex32(
            text,
            node_key_bytes_or(node_pub_key_from_text(text)),
            node_key_format_error(),
            node_key_digit_error(),
        ),
{
    lemma_reads_prefixed_hex32(text, node_key_format_error(), node_key_digit_error());
    if let Ok(bytes) = parse_prefixed_hex32(text) {
        lemma_bytes32_of_seq(bytes);
    }
    assert(node_key_bytes_or(node_pub_key_from_text(text)) == parse_prefixed_hex32_or(
        text,
        node_key_format_error(),
        node_key_digit_error(),
    ));
}

/// Copies a slice of exactly 32 bytes into an array.
fn copy_bytes32(bytes: &[u8]) -> (out: [u8; 32])
    requires
        bytes@.len() == 32,
    ensures
        out@ == bytes@,
{
    let mut out = [0u8; 32];
    let mut i: usize = 0;
    while i < 32
        invariant
            bytes@.len() == 32,
            0 <= i <= 32,
            forall|j: int| 0 <= j < i ==> out@[j] == bytes@[j],
        decreases 32 - i,
    {
        out[i] = bytes[i];
        i = i + 1;
    }
    assert(out@ =~= bytes@);
    out
}

/// Copies a 32-byte array into a vector.
fn bytes32_to_vec(bytes: &[u8; 32]) -> (out: Vec<u8>)
    ensures
        out@ == bytes@,
{
    let mut out: Vec<u8> = Vec::with_capacity(32);
    let mut i: usize = 0;
    while i < 32
        invariant
            bytes@.len() == 32,
            0 <= i <= 32,
            out@ == bytes@.subrange(0, i as int),
        decreases 32 - i,
    {
        out.push(bytes[i]);
        i = i + 1;
    }
    assert(out@ =~= bytes@);
    out
}

/// The key as `0x` followed by its 64 lower-case hex digits.
impl From<NodePubKey> for String {
    fn from(node_key: NodePubKey) -> (text: String)
        ensures
            text@ == prefixed_lower_hex(node_key.key_bytes()),
    {
        match node_key {
            NodePubKey::StoragePubKey(pub_key) => encode_prefixed_hex(pub_key.0.as_slice()),
        }
    }
}

/// A `String` has no value that spec code can write down, so the conversion
/// states its result in the `ensures` of `from` above instead.
impl FromSpecImpl<NodePubKey> for String {
    open spec fn obeys_from_spec() -> bool {
        false
    }

    open spec fn from_spec(node_key: NodePubKey) -> String {
        arbitrary()
    }
}

/// Reads `0x` followed by 64 hex digits (either case) as a storage key.
impl TryFrom<String> for NodePubKey {
    type Error = &'static str;

    fn try_from(value: String) -> (res: Result<NodePubKey, &'static str>)
        ensures
            reads_prefixed_hex32(
                encode_utf8(value@),
                node_key_bytes_or(res),
                node_key_format_error(),
                node_key_digit_error(),
            ),
    {
        proof {
            lemma_node_pub_key_text_reader(encode_utf8(value@));
        }
        match decode_prefixed_hex32(value.as_str()) {
            Ok(pub_key) => {
                proof {
                    lemma_bytes32_view(pub_key);
                }
                Ok(NodePubKey::StoragePubKey(AccountId32(pub_key)))
            },
            Err(HexKeyError::NotPrefixedHex32) => Err(
                "NodePubKey must be a 32-byte hex string started with '0x'",
            ),
            Err(HexKeyError::InvalidHexDigit) => Err("NodePubKey must be a valid hex string"),
        }
    }
}

impl TryFromSpecImpl<String> for NodePubKey {
    open spec fn obeys_try_from_spec() -> bool {
        true
    }

    open spec fn try_from_spec(value: String) -> Result<NodePubKey, &'static str> {
        node_pub_key_from_text(encode_utf8(value@))
    }
}

/// Takes exactly 32 bytes as the key of a storage node.
impl<'a> TryFrom<&'a [u8]> for NodePubKey {
    type Error = &'static str;

    fn try_from(bytes: &'a [u8]) -> (res: Result<NodePubKey, &'static str>)
        ensures
            res is Ok <==> bytes@.len() == 32,
            res matches Ok(key) ==> key.key_bytes() == bytes@,
            res matches Err(e) ==> e == "NodePubKey must be exactly 32 bytes",
    {
        if bytes.len() != 32 {
            return Err("NodePubKey must be exactly 32 bytes");
        }
        let arr = copy_bytes32(bytes);
        proof {
            lemma_bytes32_view(arr);
        }
        Ok(NodePubKey::StoragePubKey(AccountId32(arr)))
    }
}

impl<'a> TryFromSpecImpl<&'a [u8]> for NodePubKey {
    open spec fn obeys_try_from_spec() -> bool {
        true
    }

    open spec fn try_from_spec(bytes: &'a [u8]) -> Result<NodePubKey, &'static str> {
        node_pub_key_from_bytes(bytes@)
    }
}

/// Takes exactly 32 bytes as the key of a storage node.
impl TryFrom<Vec<u8>> for NodePubKey {
    type Error = &'static str;

    fn try_from(bytes: Vec<u8>) -> (res: Result<NodePubKey, &'static str>)
        ensures
            res is Ok <==> bytes@.len() == 32,
            res matches Ok(key) ==> key.key_bytes() == bytes@,
            res matches Err(e) ==> e == "NodePubKey must be exactly 32 bytes",
    {
        NodePubKey::try_from(bytes.as_slice())
    }
}

impl TryFromSpecImpl<Vec<u8>> for NodePubKey {
    open spec fn obeys_try_from_spec() -> bool {
        true
    }

    open spec fn try_from_spec(bytes: Vec<u8>) -> Result<NodePubKey, &'static str> {
        node_pub_key_from_bytes(bytes@)
    }
}

/// The 32 bytes of the key.
impl From<NodePubKey> for Vec<u8> {
    fn from(node_key: NodePubKey) -> (bytes: Vec<u8>)
        ensures
            bytes@ == node_key.key_bytes(),
    {
        match node_key {
            NodePubKey::StoragePubKey(account_id) => bytes32_to_vec(&account_id.0),
        }
    }
}

/// A `Vec` has no value that spec code can write down, so the conversion
/// states its result in the `ensures` of `from` above instead.
impl FromSpecImpl<NodePubKey> for Vec<u8> {
    open spec fn obeys_from_spec() -> bool {
        false
    }

    open spec fn from_spec(node_key: NodePubKey) -> Vec<u8> {
        arbitrary()
    }
}

impl AsRef<[u8]> for NodePubKey {
    fn as_ref(&self) -> (bytes: &[u8])
        ensures
            bytes@ == self.key_bytes(),
    {
        match self {
            NodePubKey::StoragePubKey(account_id) => account_id.0.as_slice(),
        }
    }
}

/// Kind of a DDC node.
#[derive(Clone, Copy, Debug, PartialEq, Eq, Structural)]
pub enum NodeType {
    Storage,
}

/// The one-byte code of a node kind.
pub open spec fn node_type_code(node_type: NodeType) -> u8 {
    match node_type {
        NodeType::Storage => 1,
    }
}

/// The node kind that a one-byte code names, if any.
pub open spec fn node_type_from_code(code: u8) -> Result<NodeType, ()> {
    if code == 1 {
        Ok(NodeType::Storage)
    } else {
        Err(())
    }
}

impl From<NodeType> for u8 {
    fn from(node_type: NodeType) -> (code: u8) {
        match node_type {
            NodeType::Storage => 1,
        }
    }
}

impl FromSpecImpl<NodeType> for u8 {
    open spec fn obeys_from_spec() -> bool {
        true
    }

    open spec fn from_spec(node_type: NodeType) -> u8 {
        node_type_code(node_type)
    }
}

impl TryFrom<u8> for NodeType {
    type Error = ();

    fn try_from(value: u8) -> (res: Result<NodeType, ()>) {
        match value {
            1 => Ok(NodeType::Storage),
            _ => Err(()),
        }
    }
}

impl TryFromSpecImpl<u8> for NodeType {
    open spec fn obeys_try_from_spec() -> bool {
        true
    }

    open spec fn try_from_spec(value: u8) -> Result<NodeType, ()> {
        node_type_from_code(value)
    }
}

/// The hexadecimal form of an account identifier, written with a `0x` prefix.
#[derive(Clone, Copy, Debug, PartialEq, Eq, PartialOrd, Ord, Hash)]
pub struct AccountId32Hex {
    pub id: [u8; 32],
}

/// What converting a string into an [`AccountId32Hex`] gives.
pub open spec fn account_id_hex_from_text(text: Seq<u8>) -> Result<AccountId32Hex, &'static str> {
    match parse_prefixed_hex32(text) {
        Ok(bytes) => Ok(AccountId32Hex { id: bytes32(bytes) }),
        Err(HexKeyError::NotPrefixedHex32) => Err(
            "NodePubKey must be a 32-byte hex string started with '0x'",
        ),
        Err(HexKeyError::InvalidHexDigit) => Err("NodePubKey must be a valid hex string"),
    }
}

/// The bytes of the identifier that a reading gave, or its error.
pub open spec fn account_id_hex_bytes_or(res: Result<AccountId32Hex, &'static str>) -> Result<
    Seq<u8>,
    &'static str,
> {
    match res {
        Ok(value) => Ok(value.id@),
        Err(e) => Err(e),
    }
}

/// Reading an account identifier from text does what
/// [`reads_prefixed_hex32`] asks, with the same messages as a node key.
pub proof fn lemma_account_id_hex_text_reader(text: Seq<u8>)
    ensures
        reads_prefixed_hex32(
            text,
            account_id_hex_bytes_or(account_id_hex_from_text(text)),
            node_key_format_error(),
            node_key_digit_error(),
        ),
{
    lemma_reads_prefixed_hex32(text, node_key_format_error(), node_key_digit_error());
    if let Ok(bytes) = parse_prefixed_hex32(text) {
        lemma_bytes32_of_seq(bytes);
    }
    assert(account_id_hex_bytes_or(account_id_hex_from_text(text)) == parse_prefixed_hex32_or(
        text,
        node_key_format_error(),
        node_key_digit_error(),
    ));
}

/// Calls `Encode::encode` of `parity-scale-codec` on a 32-byte array. SCALE
/// writes a fixed-size array as its elements, with no length in front, and a
/// `u8` as itself: the result is the 32 bytes.
#[verifier::external_body]
fn scale_encode_bytes32(bytes: &[u8; 32]) -> (encoded: Vec<u8>)
    ensures
        encoded@ == bytes@,
{
    bytes.encode()
}

/// Reads `0x` followed by 64 hex digits (either case) as an account identifier.
impl TryFrom<String> for AccountId32Hex {
    type Error = &'static str;

    fn try_from(value: String) -> (res: Result<AccountId32Hex, &'static str>)
        ensures
            reads_prefixed_hex32(
                encode_utf8(value@),
                account_id_hex_bytes_or(res),
                node_key_format_error(),
                node_key_digit_error(),
            ),
    {
        proof {
            lemma_account_id_hex_text_reader(encode_utf8(value@));
        }
        match decode_prefixed_hex32(value.as_str()) {
            Ok(acc_id) => {
                proof {
                    lemma_bytes32_view(acc_id);
                }
                Ok(AccountId32Hex { id: acc_id })
            },
            Err(HexKeyError::NotPrefixedHex32) => Err(
                "NodePubKey must be a 32-byte hex string started with '0x'",
            ),
            Err(HexKeyError::InvalidHexDigit) => Err("NodePubKey must be a valid hex string"),
        }
    }
}

impl TryFromSpecImpl<String> for AccountId32Hex {
    open spec fn obeys_try_from_spec() -> bool {
        true
    }

    open spec fn try_from_spec(value: String) -> Result<AccountId32Hex, &'static str> {
        account_id_hex_from_text(encode_utf8(value@))
    }
}

/// The identifier as `0x` followed by the lower-case hex of its SCALE encoding,
/// which is its 32 bytes.
impl From<AccountId32Hex> for String {
    fn from(value: AccountId32Hex) -> (text: String)
        ensures
            text@ == prefixed_lower_hex(value.id@),
    {
        let encoded = scale_encode_bytes32(&value.id);
        encode_prefixed_hex(encoded.as_slice())
    }
}

/// A `String` has no value that spec code can write down, so the conversion
/// states its result in the `ensures` of `from` above instead.
impl FromSpecImpl<AccountId32Hex> for String {
    open spec fn obeys_from_spec() -> bool {
        false
    }

    open spec fn from_spec(value: AccountId32Hex) -> String {
        arbitrary()
    }
}

/// Reads `0x` followed by 64 hex digits (either case) as an account identifier.
impl<'a> TryFrom<&'a str> for AccountId32Hex {
    type Error = &'static str;

    fn try_from(value: &'a str) -> (res: Result<AccountId32Hex, &'static str>)
        ensures
            reads_prefixed_hex32(
                value.spec_bytes(),
                account_id_hex_bytes_or(res),
                node_key_format_error(),
                node_key_digit_error(),
            ),
    {
        AccountId32Hex::try_from(String::from_str(value))
    }
}

impl<'a> TryFromSpecImpl<&'a str> for AccountId32Hex {
    open spec fn obeys_try_from_spec() -> bool {
        true
    }

    open spec fn try_from_spec(value: &'a str) -> Result<AccountId32Hex, &'static str> {
        account_id_hex_from_text(value.spec_bytes())
    }
}

/// The account identifier that the hexadecimal form stands for.
impl From<AccountId32Hex> for AccountId32 {
    fn from(val: AccountId32Hex) -> (account: AccountId32)
        ensures
            account.0 == val.id,
    {
        AccountId32(val.id)
    }
}

impl FromSpecImpl<AccountId32Hex> for AccountId32 {
    open spec fn obeys_from_spec() -> bool {
        true
    }

    open spec fn from_spec(val: AccountId32Hex) -> AccountId32 {
        AccountId32(val.id)
    }
}

/// How a storage node operates. Its codes are 1 (`Full`) to 4 (`Compute`):
/// see `From<StorageNodeMode> for u8`.
#[derive(Clone, Copy, Debug, PartialEq, Eq, PartialOrd, Ord, Hash, Structural)]
pub enum StorageNodeMode {
    /// DDC Storage node operates with enabled caching in RAM and stores data in Hard Drive
    Full,
    /// DDC Storage node operates with disabled caching in RAM and stores data in Hard Drive
    Storage,
    /// DDC Storage node operates with enabled caching in RAM and doesn't store data in Hard Drive
    Cache,
    /// Compute Node operates with CPU, GPU and RAM resources only
    Compute,
}

/// The one-byte code of a storage node mode.
pub open spec fn storage_node_mode_code(mode: StorageNodeMode) -> u8 {
    match mode {
        StorageNodeMode::Full => 1,
        StorageNodeMode::Storage => 2,
        StorageNodeMode::Cache => 3,
        StorageNodeMode::Compute => 4,
    }
}

/// The storage node mode that a one-byte code names, if any.
pub open spec fn storage_node_mode_from_code(code: u8) -> Result<StorageNodeMode, ()> {
    if code == 1 {
        Ok(StorageNodeMode::Full)
    } else if code == 2 {
        Ok(StorageNodeMode::Storage)
    } else if code == 3 {
        Ok(StorageNodeMode::Cache)
    } else if code == 4 {
        Ok(StorageNodeMode::Compute)
    } else {
        Err(())
    }
}

impl From<StorageNodeMode> for u8 {
    fn from(mode: StorageNodeMode) -> (code: u8) {
        match mode {
            StorageNodeMode::Full => 1,
            StorageNodeMode::Storage => 2,
            StorageNodeMode::Cache => 3,
            StorageNodeMode::Compute => 4,
        }
    }
}

impl FromSpecImpl<StorageNodeMode> for u8 {
    open spec fn obeys_from_spec() -> bool {
        true
    }

    open spec fn from_spec(mode: StorageNodeMode) -> u8 {
        storage_node_mode_code(mode)
    }
}

impl TryFrom<u8> for StorageNodeMode {
    type Error = ();

    fn try_from(value: u8) -> (res: Result<StorageNodeMode, ()>) {
        match value {
            1 => Ok(StorageNodeMode::Full),
            2 => Ok(StorageNodeMode::Storage),
            3 => Ok(StorageNodeMode::Cache),
            4 => Ok(StorageNodeMode::Compute),
            _ => Err(()),
        }
    }
}

impl TryFromSpecImpl<u8> for StorageNodeMode {
    open spec fn obeys_try_from_spec() -> bool {
        true
    }

    open spec fn try_from_spec(value: u8) -> Result<StorageNodeMode, ()> {
        storage_node_mode_from_code(value)
    }
}

/// Converting a storage node mode to its code and back gives the same mode,
/// and only the codes 1 to 4 name a mode.
pub proof fn lemma_storage_node_mode_code_roundtrip(mode: StorageNodeMode, code: u8)
    ensures
        <u8 as FromSpec<StorageNodeMode>>::obeys_from_spec(),
        <StorageNodeMode as TryFromSpec<u8>>::obeys_try_from_spec(),
        <u8 as FromSpec<StorageNodeMode>>::from_spec(StorageNodeMode::Full) == 1,
        <u8 as FromSpec<StorageNodeMode>>::from_spec(StorageNodeMode::Storage) == 2,
        <u8 as FromSpec<StorageNodeMode>>::from_spec(StorageNodeMode::Cache) == 3,
        <u8 as FromSpec<StorageNodeMode>>::from_spec(StorageNodeMode::Compute) == 4,
        <StorageNodeMode as TryFromSpec<u8>>::try_from_spec(
            <u8 as FromSpec<StorageNodeMode>>::from_spec(mode),
        ) == Ok::<StorageNodeMode, ()>(mode),
        <StorageNodeMode as TryFromSpec<u8>>::try_from_spec(code) is Ok <==> 1 <= code <= 4,
{
}

/// The longest host name a storage node may give.
pub const MAX_HOST_LEN: u8 = 255;

/// The longest domain name a storage node may give.
pub const MAX_DOMAIN_LEN: u8 = 255;

/// How a storage node is reached and what it does.
#[derive(Clone, Debug, PartialEq, Eq, PartialOrd, Ord, Hash)]
pub struct StorageNodeParams {
    pub mode: StorageNodeMode,
    pub host: Vec<u8>,
    pub domain: Vec<u8>,
    pub ssl: bool,
    pub http_port: u16,
    pub grpc_port: u16,
    pub p2p_port: u16,
}

impl Default for StorageNodeParams {
    /// A full node with no host or domain, no SSL, and every port 0.
    fn default() -> (params: StorageNodeParams)
        ensures
            params.mode == StorageNodeMode::Full,
            params.host@ == Seq::<u8>::empty(),
            params.domain@ == Seq::<u8>::empty(),
            params.ssl == false,
            params.http_port == 0,
            params.grpc_port == 0,
            params.p2p_port == 0,
    {
        StorageNodeParams {
            mode: StorageNodeMode::Full,
            host: Vec::new(),
            domain: Vec::new(),
            ssl: false,
            http_port: 0,
            grpc_port: 0,
            p2p_port: 0,
        }
    }
}

/// Node parameters, as they come in with a call that registers a node.
#[derive(Clone, Debug, PartialEq)]
pub enum NodeParams {
    StorageParams(StorageNodeParams),
}

/// A node that aggregates activity, with how it is reached.
#[derive(Clone, Debug, PartialEq, Eq, PartialOrd, Ord)]
pub struct AggregatorInfo {
    pub node_pub_key: NodePubKey,
    pub node_params: StorageNodeParams,
}

/// Whether and from which node a dry run of inspection syncs.
#[derive(Clone, Debug, PartialEq)]
pub struct InspectionDryRunParams {
    pub enabled: bool,
    pub sync_node_key: NodePubKey,
    pub sync_node_params: StorageNodeParams,
}

/// What activity is aggregated by: a node, a bucket, or a bucket on a node.
#[derive(Clone, Debug, PartialEq)]
pub enum AggregateKey {
    NodeAggregateKey(NodePubKey),
    BucketAggregateKey(BucketId),
    BucketSubAggregateKey(BucketId, NodePubKey),
}

/// A node key written as `0x` + lower-case hex reads back as the same key.
pub proof fn lemma_node_pub_key_text_roundtrip(key: NodePubKey)
    ensures
        node_pub_key_from_text(encode_utf8(prefixed_lower_hex(key.key_bytes()))) == Ok::<
            NodePubKey,
            &'static str,
        >(key),
{
    let NodePubKey::StoragePubKey(account) = key;
    lemma_prefixed_hex32_roundtrip(key.key_bytes());
    lemma_bytes32_view(account.0);
}

/// A string read as a node key, written back, is the string in lower case.
pub proof fn lemma_node_pub_key_text_normalizes(text: Seq<u8>)
    requires
        node_pub_key_from_text(text) is Ok,
    ensures
        encode_utf8(prefixed_lower_hex(node_pub_key_from_text(text)->Ok_0.key_bytes()))
            == ascii_lowercase(text),
{
    let bytes = parse_prefixed_hex32(text)->Ok_0;
    lemma_prefixed_hex32_normalizes(text);
    assert(bytes.len() == 32);
    lemma_bytes32_of_seq(bytes);
}

/// The bytes of a node key read back as the same key.
pub proof fn lemma_node_pub_key_bytes_roundtrip(key: NodePubKey)
    ensures
        node_pub_key_from_bytes(key.key_bytes()) == Ok::<NodePubKey, &'static str>(key),
{
    let NodePubKey::StoragePubKey(account) = key;
    lemma_bytes32_view(account.0);
}

/// Converting a kind of node to its code and back gives the same kind, and
/// only the code 1 names a kind.
pub proof fn lemma_node_type_code_roundtrip(node_type: NodeType, code: u8)
    ensures
        <u8 as FromSpec<NodeType>>::obeys_from_spec(),
        <NodeType as TryFromSpec<u8>>::obeys_try_from_spec(),
        <u8 as FromSpec<NodeType>>::from_spec(NodeType::Storage) == 1,
        <NodeType as TryFromSpec<u8>>::try_from_spec(<u8 as FromSpec<NodeType>>::from_spec(node_type))
            == Ok::<NodeType, ()>(node_type),
        <NodeType as TryFromSpec<u8>>::try_from_spec(code) is Ok <==> code == 1,
{
}

/// An account identifier written in hex reads back as the same identifier.
pub proof fn lemma_account_id_hex_text_roundtrip(value: AccountId32Hex)
    ensures
        account_id_hex_from_text(encode_utf8(prefixed_lower_hex(value.id@))) == Ok::<
            AccountId32Hex,
            &'static str,
        >(value),
{
    lemma_prefixed_hex32_roundtrip(value.id@);
    lemma_bytes32_view(value.id);
}

/// A string read as an account identifier, written back, is the string in
/// lower case.
pub proof fn lemma_account_id_hex_text_normalizes(text: Seq<u8>)
    requires
        account_id_hex_from_text(text) is Ok,
    ensures
        encode_utf8(prefixed_lower_hex(account_id_hex_from_text(text)->Ok_0.id@))
            == ascii_lowercase(text),
{
    let bytes = parse_prefixed_hex32(text)->Ok_0;
    lemma_prefixed_hex32_normalizes(text);
    lemma_bytes32_of_seq(bytes);
}

/// A string is a node key exactly when it is an account identifier in hex,
/// and exactly when it is a 256-bit hash in hex; all three read the same 32
/// bytes from it.
pub proof fn lemma_hex_key_readers_agree(text: Seq<u8>)
    ensures
        node_pub_key_from_text(text) is Ok <==> account_id_hex_from_text(text) is Ok,
        node_pub_key_from_text(text) is Ok <==> h256_from_text(text) is Ok,
        node_pub_key_from_text(text) is Ok ==> {
            &&& node_pub_key_from_text(text)->Ok_0.key_bytes() == account_id_hex_from_text(
                text,
            )->Ok_0.id@
            &&& node_pub_key_from_text(text)->Ok_0.key_bytes() == h256_from_text(text)->Ok_0.0@
        },
{
}

/// A string is read as a node key exactly when it is `0x` (lower-case `x`)
/// followed by 64 hex digits; the key read, written back as `0x` +
/// lower-case hex, is the string in lower case; a string of the wrong shape
/// or length gets the format message, and any other refused string the
/// digit message.
pub proof fn law_node_pub_key_from_string(value: String)
    ensures
        <NodePubKey as TryFromSpec<String>>::obeys_try_from_spec(),
        reads_prefixed_hex32(
            encode_utf8(value@),
            node_key_bytes_or(<NodePubKey as TryFromSpec<String>>::try_from_spec(value)),
            node_key_format_error(),
            node_key_digit_error(),
        ),
        <NodePubKey as TryFromSpec<String>>::try_from_spec(value) is Ok ==> {
            &&& encode_utf8(value@)[0] == 48u8
            &&& encode_utf8(value@)[1] == 120u8
        },
{
    lemma_node_pub_key_text_reader(encode_utf8(value@));
}

/// A byte slice becomes a node key exactly when it holds 32 bytes, and the
/// key then holds those bytes in the same order.
pub proof fn law_node_pub_key_from_byte_slice(bytes: &[u8])
    ensures
        <NodePubKey as TryFromSpec<&[u8]>>::obeys_try_from_spec(),
        <NodePubKey as TryFromSpec<&[u8]>>::try_from_spec(bytes) is Ok <==> bytes@.len() == 32,
        <NodePubKey as TryFromSpec<&[u8]>>::try_from_spec(bytes) matches Ok(key) ==> key.key_bytes()
            == bytes@,
        <NodePubKey as TryFromSpec<&[u8]>>::try_from_spec(bytes) matches Err(e) ==> e
            == "NodePubKey must be exactly 32 bytes",
{
    if bytes@.len() == 32 {
        lemma_bytes32_of_seq(bytes@);
    }
}

/// A byte vector becomes a node key exactly when it holds 32 bytes, and the
/// key then holds those bytes in the same order.
pub proof fn law_node_pub_key_from_byte_vec(bytes: Vec<u8>)
    ensures
        <NodePubKey as TryFromSpec<Vec<u8>>>::obeys_try_from_spec(),
        <NodePubKey as TryFromSpec<Vec<u8>>>::try_from_spec(bytes) is Ok <==> bytes@.len() == 32,
        <NodePubKey as TryFromSpec<Vec<u8>>>::try_from_spec(bytes) matches Ok(key) ==> key.key_bytes()
            == bytes@,
        <NodePubKey as TryFromSpec<Vec<u8>>>::try_from_spec(bytes) matches Err(e) ==> e
            == "NodePubKey must be exactly 32 bytes",
{
    if bytes@.len() == 32 {
        lemma_bytes32_of_seq(bytes@);
    }
}

/// A string is read as an account identifier exactly when it is `0x`
/// (lower-case `x`) followed by 64 hex digits; the identifier read, written
/// back, is the string in lower case; the messages are those of a node key.
pub proof fn law_account_id_hex_from_string(value: String)
    ensures
        <AccountId32Hex as TryFromSpec<String>>::obeys_try_from_spec(),
        reads_prefixed_hex32(
            encode_utf8(value@),
            account_id_hex_bytes_or(<AccountId32Hex as TryFromSpec<String>>::try_from_spec(value)),
            node_key_format_error(),
            node_key_digit_error(),
        ),
        <AccountId32Hex as TryFromSpec<String>>::try_from_spec(value) is Ok ==> {
            &&& encode_utf8(value@)[0] == 48u8
            &&& encode_utf8(value@)[1] == 120u8
        },
{
    lemma_account_id_hex_text_reader(encode_utf8(value@));
}

/// Reading an account identifier from a `&str` gives what reading it from a
/// `String` with the same characters gives, and so it too accepts exactly
/// `0x` (lower-case `x`) followed by 64 hex digits.
pub proof fn law_account_id_hex_from_str(value: &str, same: String)
    requires
        same@ == value@,
    ensures
        <AccountId32Hex as TryFromSpec<&str>>::obeys_try_from_spec(),
        <AccountId32Hex as TryFromSpec<&str>>::try_from_spec(value) == <AccountId32Hex as TryFromSpec<
            String,
        >>::try_from_spec(same),
        reads_prefixed_hex32(
            value.spec_bytes(),
            account_id_hex_bytes_or(<AccountId32Hex as TryFromSpec<&str>>::try_from_spec(value)),
            node_key_format_error(),
            node_key_digit_error(),
        ),
        <AccountId32Hex as TryFromSpec<&str>>::try_from_spec(value) is Ok ==> {
            &&& value.spec_bytes()[0] == 48u8
            &&& value.spec_bytes()[1] == 120u8
        },
{
    lemma_account_id_hex_text_reader(value.spec_bytes());
}

/// The account identifier of an identifier in hex holds the same 32 bytes.
pub proof fn law_account_id_from_hex(value: AccountId32Hex)
    ensures
        <AccountId32 as FromSpec<AccountId32Hex>>::obeys_from_spec(),
        <AccountId32 as FromSpec<AccountId32Hex>>::from_spec(value).0 == value.id,
        <AccountId32 as FromSpec<AccountId32Hex>>::from_spec(value).0@ == value.id@,
{
}

} // verus!
