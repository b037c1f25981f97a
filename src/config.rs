use vstd::prelude::*;

verus! {

#[verifier::external_type_specification]
#[verifier::external_body]
pub struct ExPublicKey(ed25519_dalek::PublicKey);

#[verifier::external_type_specification]
#[verifier::external_body]
pub struct ExSignatureError(ed25519_dalek::SignatureError);

#[verifier::external_type_specification]
#[verifier::external_body]
pub struct ExFromHexError(hex::FromHexError);

/// Number of bytes in a public key.
pub const PUBLIC_KEY_LENGTH: usize = 32;

/// A snowflake identifier.
#[derive(Debug, Clone, Copy, PartialEq, Eq, Structural)]
pub struct Snowflake(pub u64);

/// Settings of the rate-limit store.
pub struct RedisConfig {
    pub address: Box<str>,
    pub threads: usize,
}

/// Settings of the persistent store.
pub struct DatabaseConfig {
    pub uri: Box<str>,
    pub threads: u32,
}

/// Process configuration.
pub struct Config {
    pub server_addr: Box<str>,
    pub main_bot_id: Snowflake,
    pub main_bot_token: Box<str>,
    pub main_public_key: ed25519_dalek::PublicKey,
    pub redis: RedisConfig,
    pub database: DatabaseConfig,
}

/// The value of a hex digit, or -1 for a character that is none.
pub open spec fn hex_value(c: char) -> int {
    if '0' <= c && c <= '9' {
        c as int - '0' as int
    } else if 'a' <= c && c <= 'f' {
        c as int - 'a' as int + 10
    } else if 'A' <= c && c <= 'F' {
        c as int - 'A' as int + 10
    } else {
        -1
    }
}

/// True when `s` is the hex form of a public key: two digits per byte.
pub open spec fn is_hex_key(s: Seq<char>) -> bool {
    &&& s.len() == 2 * PUBLIC_KEY_LENGTH
    &&& forall|i: int| 0 <= i < s.len() ==> hex_value(#[trigger] s[i]) >= 0
}

/// The bytes that a hex string spells, two digits per byte, high digit first.
pub open spec fn hex_bytes(s: Seq<char>) -> Seq<u8> {
    Seq::new(
        (s.len() / 2) as nat,
        |i: int| (hex_value(s[2 * i]) * 16 + hex_value(s[2 * i + 1])) as u8,
    )
}

/// True when `bytes` is the compressed form of a point on the curve, which
/// is what a public key must be.
pub uninterp spec fn decompresses(bytes: Seq<u8>) -> bool;

/// The public key whose compressed form is `bytes`.
pub uninterp spec fn key_of(bytes: Seq<u8>) -> ed25519_dalek::PublicKey;

/// Relies on hex::decode_to_slice: it fills the 32 bytes from a string of
/// exactly 64 hex digits of either case, high digit first, and fails on any
/// other length or on any other character.
#[verifier::external_body]
fn decode_hex_key(s: &str) -> (r: Result<[u8; 32], hex::FromHexError>)
    ensures
        r is Ok <==> is_hex_key(s@),
        r matches Ok(b) ==> b@ == hex_bytes(s@),
{
    let mut bytes = [0u8; 32];
    hex::decode_to_slice(s, &mut bytes).map(|_| bytes)
}

/// Relies on ed25519_dalek::PublicKey::from_bytes: a 32-byte slice is accepted
/// exactly when it decompresses to a curve point, and the key depends on the
/// bytes alone.
#[verifier::external_body]
fn public_key_from_bytes(bytes: &[u8; 32]) -> (r: Result<ed25519_dalek::PublicKey, ed25519_dalek::SignatureError>)
    ensures
        r is Ok <==> decompresses(bytes@),
        r matches Ok(k) ==> k == key_of(bytes@),
{
    ed25519_dalek::PublicKey::from_bytes(bytes)
}

/// The decimal value of a string of digits.
pub open spec fn digits_value(s: Seq<char>) -> int
    decreases s.len(),
{
    if s.len() == 0 {
        0
    } else {
        digits_value(s.drop_last()) * 10 + (s.last() as int - '0' as int)
    }
}

/// True when `s` is one or more decimal digits.
pub open spec fn is_digits(s: Seq<char>) -> bool {
    &&& s.len() > 0
    &&& forall|i: int| 0 <= i < s.len() ==> '0' <= #[trigger] s[i] && s[i] <= '9'
}

/// The digits of an unsigned decimal, after an optional leading `+`.
pub open spec fn unsigned_digits(s: Seq<char>) -> Seq<char> {
    if s.len() > 0 && s[0] == '+' {
        s.drop_first()
    } else {
        s
    }
}

/// The unsigned number that `s` spells, when it spells one no larger than `max`.
pub open spec fn decimal_at_most(s: Seq<char>, max: int) -> Option<int> {
    let d = unsigned_digits(s);
    if is_digits(d) && digits_value(d) <= max {
        Some(digits_value(d))
    } else {
        None
    }
}

proof fn lemma_digits_value_nonnegative(s: Seq<char>)
    requires
        forall|i: int| 0 <= i < s.len() ==> '0' <= #[trigger] s[i] && s[i] <= '9',
    ensures
        digits_value(s) >= 0,
    decreases s.len(),
{
    if s.len() > 0 {
        lemma_digits_value_nonnegative(s.drop_last());
    }
}

/// A string of digits is worth at least each of its prefixes.
proof fn lemma_digits_value_grows(s: Seq<char>, j: int)
    requires
        0 <= j <= s.len(),
        forall|i: int| 0 <= i < s.len() ==> '0' <= #[trigger] s[i] && s[i] <= '9',
    ensures
        digits_value(s.subrange(0, j)) <= digits_value(s),
    decreases s.len(),
{
    if j < s.len() {
        lemma_digits_value_grows(s.drop_last(), j);
        assert(s.drop_last().subrange(0, j) =~= s.subrange(0, j));
        lemma_digits_value_nonnegative(s.drop_last());
    } else {
        assert(s.subrange(0, j) =~= s);
    }
}

/// Reads an unsigned decimal that fits in a u64: an optional `+`, then one or
/// more digits.
fn parse_u64(s: &str) -> (r: Option<u64>)
    ensures
        r matches Some(n) ==> decimal_at_most(s@, u64::MAX as int) == Some(n as int),
        r is None ==> decimal_at_most(s@, u64::MAX as int) is None,
{
    let len = s.unicode_len();
    let mut start: usize = 0;
    if len > 0 && s.get_char(0) == '+' {
        start = 1;
    }
    let ghost d = unsigned_digits(s@);
    assert(d =~= s@.subrange(start as int, len as int));
    if start == len {
        return None;
    }
    let mut i: usize = start;
    let mut v: u64 = 0;
    while i < len
        invariant
            start <= i <= len,
            len == s@.len(),
            d == s@.subrange(start as int, len as int),
            d == unsigned_digits(s@),
            forall|k: int| 0 <= k < i - start ==> '0' <= #[trigger] d[k] && d[k] <= '9',
            v as int == digits_value(d.subrange(0, i - start)),
        decreases len - i,
    {
        let c = s.get_char(i);
        if c < '0' || c > '9' {
            assert(d[i - start] == c);
            assert(!is_digits(d));
            return None;
        }
        let digit: u64 = (c as u32 - '0' as u32) as u64;
        assert(d.subrange(0, i + 1 - start).drop_last() =~= d.subrange(0, i - start));
        assert(d[i - start] == c);
        if v > (u64::MAX - digit) / 10 {
            assert(digits_value(d.subrange(0, i + 1 - start)) > u64::MAX) by (nonlinear_arith)
                requires
                    digits_value(d.subrange(0, i + 1 - start)) == v * 10 + digit,
                    v > (u64::MAX - digit) / 10,
                    digit <= 9,
            ;
            proof {
                if is_digits(d) {
                    lemma_digits_value_grows(d, (i + 1 - start) as int);
                    assert(digits_value(d) > u64::MAX);
                }
            }
            return None;
        }
        assert(v * 10 + digit <= u64::MAX) by (nonlinear_arith)
            requires
                v <= (u64::MAX - digit) / 10,
                digit <= 9,
        ;
        v = v * 10 + digit;
        i = i + 1;
    }
    assert(d.subrange(0, len - start) =~= d);
    Some(v)
}

/// Relies on String::into_boxed_str: the boxed string holds the same text.
#[verifier::external_body]
fn boxed(s: String) -> (r: Box<str>)
    ensures
        r@ == s@,
{
    s.into_boxed_str()
}

/// Why configuration values were refused.
#[derive(Debug, Clone, Copy, PartialEq, Eq, Structural)]
pub enum ConfigError {
    /// The bot id is not an unsigned 64-bit decimal.
    InvalidBotId,
    /// The public key is not 64 hex digits.
    InvalidKeyHex,
    /// The public key's bytes are not a curve point.
    InvalidKeyPoint,
    /// The store's thread count is not a decimal that fits a `usize`.
    InvalidRedisThreads,
    /// The database's thread count is not a decimal that fits a `u32`.
    InvalidDatabaseThreads,
}

/// Reads a public key from its hex form.
pub fn parse_public_key(hex_key: &str) -> (r: Result<ed25519_dalek::PublicKey, ConfigError>)
    ensures
        !is_hex_key(hex_key@) <==> r == Err::<ed25519_dalek::PublicKey, ConfigError>(
            ConfigError::InvalidKeyHex,
        ),
        is_hex_key(hex_key@) && !decompresses(hex_bytes(hex_key@)) <==> r == Err::<
            ed25519_dalek::PublicKey,
            ConfigError,
        >(ConfigError::InvalidKeyPoint),
        r is Ok <==> is_hex_key(hex_key@) && decompresses(hex_bytes(hex_key@)),
        r matches Ok(k) ==> k == key_of(hex_bytes(hex_key@)),
{
    let bytes = match decode_hex_key(hex_key) {
        Ok(b) => b,
        Err(_) => return Err(ConfigError::InvalidKeyHex),
    };
    match public_key_from_bytes(&bytes) {
        Ok(k) => Ok(k),
        Err(_) => Err(ConfigError::InvalidKeyPoint),
    }
}

/// Builds the configuration from its textual settings, reading the numbers as
/// unsigned decimals and the public key as hex. The first setting that cannot
/// be read decides the error, in the order of the fields.
pub fn config_from_settings(
    server_addr: String,
    bot_id: &str,
    bot_token: String,
    public_key_hex: &str,
    redis_address: String,
    redis_threads: &str,
    database_uri: String,
    database_threads: &str,
) -> (r: Result<Config, ConfigError>)
    ensures
        decimal_at_most(bot_id@, u64::MAX as int) is None ==> r matches Err(ConfigError::InvalidBotId),
        decimal_at_most(bot_id@, u64::MAX as int) is Some && !is_hex_key(public_key_hex@)
            ==> r matches Err(ConfigError::InvalidKeyHex),
        decimal_at_most(bot_id@, u64::MAX as int) is Some && is_hex_key(public_key_hex@)
            && !decompresses(hex_bytes(public_key_hex@)) ==> r matches Err(ConfigError::InvalidKeyPoint),
        decimal_at_most(bot_id@, u64::MAX as int) is Some && is_hex_key(public_key_hex@)
            && decompresses(hex_bytes(public_key_hex@)) && decimal_at_most(
            redis_threads@,
            usize::MAX as int,
        ) is None ==> r matches Err(ConfigError::InvalidRedisThreads),
        decimal_at_most(bot_id@, u64::MAX as int) is Some && is_hex_key(public_key_hex@)
            && decompresses(hex_bytes(public_key_hex@)) && decimal_at_most(
            redis_threads@,
            usize::MAX as int,
        ) is Some && decimal_at_most(database_threads@, u32::MAX as int) is None
            ==> r matches Err(ConfigError::InvalidDatabaseThreads),
        r is Ok <==> {
            &&& decimal_at_most(bot_id@, u64::MAX as int) is Some
            &&& is_hex_key(public_key_hex@) && decompresses(hex_bytes(public_key_hex@))
            &&& decimal_at_most(redis_threads@, usize::MAX as int) is Some
            &&& decimal_at_most(database_threads@, u32::MAX as int) is Some
        },
        r matches Ok(c) ==> {
            &&& c.server_addr@ == server_addr@
            &&& Some(c.main_bot_id.0 as int) == decimal_at_most(bot_id@, u64::MAX as int)
            &&& c.main_bot_token@ == bot_token@
            &&& c.main_public_key == key_of(hex_bytes(public_key_hex@))
            &&& c.redis.address@ == redis_address@
            &&& Some(c.redis.threads as int) == decimal_at_most(redis_threads@, usize::MAX as int)
            &&& c.database.uri@ == database_uri@
            &&& Some(c.database.threads as int) == decimal_at_most(database_threads@, u32::MAX as int)
        },
{
    let id = match parse_u64(bot_id) {
        Some(n) => n,
        None => return Err(ConfigError::InvalidBotId),
    };
    let key = match parse_public_key(public_key_hex) {
        Ok(k) => k,
        Err(e) => return Err(e),
    };
    let rt = match parse_u64(redis_threads) {
        Some(n) => n,
        None => return Err(ConfigError::InvalidRedisThreads),
    };
    if rt > usize::MAX as u64 {
        return Err(ConfigError::InvalidRedisThreads);
    }
    let dt = match parse_u64(database_threads) {
        Some(n) => n,
        None => return Err(ConfigError::InvalidDatabaseThreads),
    };
    if dt > u32::MAX as u64 {
        return Err(ConfigError::InvalidDatabaseThreads);
    }
    Ok(
        Config {
            server_addr: boxed(server_addr),
            main_bot_id: Snowflake(id),
            main_bot_token: boxed(bot_token),
            main_public_key: key,
            redis: RedisConfig { address: boxed(redis_address), threads: rt as usize },
            database: DatabaseConfig { uri: boxed(database_uri), threads: dt as u32 },
        },
    )
}

} // verus!
