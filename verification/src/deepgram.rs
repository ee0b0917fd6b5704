//! The cloud streaming provider's configuration: connection URL building,
//! authentication material, the short-lived proxy credentials cache, and the
//! base64 encoding used for the connection handshake key.

use vstd::prelude::*;
use crate::strutil::{spec_u64_digits, u64_to_string};

verus! {

/// Proxy credentials are refreshed this long before they expire.
pub const CONFIG_REFRESH_BUFFER_MS: u64 = 30000;

/// Configuration of one cloud streaming connection.
#[derive(Clone, Debug)]
pub struct DeepgramConfig {
    /// The user's own long-lived API key.
    pub api_key: String,
    /// A short-lived token from the cloud proxy.
    pub cloud_token: Option<String>,
    /// Whether the proxy token is used instead of the API key.
    pub use_cloud_proxy: bool,
    pub model: String,
    pub language: String,
    pub encoding: String,
    pub sample_rate: u32,
    pub channels: u8,
    pub punctuate: bool,
    pub interim_results: bool,
}

impl Default for DeepgramConfig {
    /// Latin American Spanish on the default model, 16 kHz mono linear PCM,
    /// punctuation and interim results on.
    fn default() -> (r: Self)
        ensures
            r.api_key@.len() == 0,
            r.cloud_token is None,
            !r.use_cloud_proxy,
            r.model@ == "nova-3"@,
            r.language@ == "es-419"@,
            r.encoding@ == "linear16"@,
            r.sample_rate == 16000,
            r.channels == 1,
            r.punctuate,
            r.interim_results,
    {
        DeepgramConfig {
            api_key: String::new(),
            cloud_token: None,
            use_cloud_proxy: false,
            model: String::from_str("nova-3"),
            language: String::from_str("es-419"),
            encoding: String::from_str("linear16"),
            sample_rate: 16000,
            channels: 1,
            punctuate: true,
            interim_results: true,
        }
    }
}

/// The authentication token the configuration yields: the proxy token when
/// the proxy is in use, the API key when one is set, nothing otherwise.
pub open spec fn spec_auth_token(c: DeepgramConfig) -> Option<Seq<char>> {
    if c.use_cloud_proxy {
        match c.cloud_token {
            Some(t) => Some(t@),
            None => None,
        }
    } else if c.api_key@.len() > 0 {
        Some(c.api_key@)
    } else {
        None
    }
}

impl DeepgramConfig {
    /// A configuration around the user's own API key.
    pub fn new(api_key: String) -> (r: Self)
        ensures
            r.api_key == api_key,
            r.cloud_token is None,
            !r.use_cloud_proxy,
            r.model@ == "nova-3"@,
            r.language@ == "es-419"@,
            r.encoding@ == "linear16"@,
            r.sample_rate == 16000,
            r.channels == 1,
            r.punctuate,
            r.interim_results,
    {
        let mut config = DeepgramConfig::default();
        config.api_key = api_key;
        config
    }

    /// Set the transcription model.
    pub fn set_model(&mut self, model: String)
        ensures
            *final(self) == (DeepgramConfig { model, ..*old(self) }),
    {
        self.model = model;
    }

    /// Set the language.
    pub fn set_language(&mut self, language: String)
        ensures
            *final(self) == (DeepgramConfig { language, ..*old(self) }),
    {
        self.language = language;
    }

    /// Install a fresh proxy token and switch to the proxy.
    pub fn set_cloud_token(&mut self, token: String)
        ensures
            *final(self) == (DeepgramConfig {
                cloud_token: Some(token),
                use_cloud_proxy: true,
                ..*old(self)
            }),
    {
        self.cloud_token = Some(token);
        self.use_cloud_proxy = true;
    }

    /// Whether the cloud proxy is in use.
    pub fn is_using_cloud_proxy(&self) -> (r: bool)
        ensures
            r == self.use_cloud_proxy,
    {
        self.use_cloud_proxy
    }

    /// The effective authentication token.
    pub fn get_auth_token(&self) -> (r: Option<&String>)
        ensures
            r is Some <==> spec_auth_token(*self) is Some,
            r matches Some(t) ==> spec_auth_token(*self) == Some(t@),
    {
        if self.use_cloud_proxy {
            self.cloud_token.as_ref()
        } else if !self.api_key.as_str().is_empty() {
            Some(&self.api_key)
        } else {
            None
        }
    }

    /// The authorization header for the effective token.
    pub fn get_auth_header(&self) -> (r: Option<String>)
        ensures
            r is Some <==> spec_auth_token(*self) is Some,
            r matches Some(h) ==> (spec_auth_token(*self) matches Some(t) && h@ == "Token "@
                + t),
    {
        match self.get_auth_token() {
            Some(token) => {
                let mut h = String::from_str("Token ");
                h.append(token.as_str());
                Some(h)
            },
            None => None,
        }
    }

    /// Build the connection URL with its query parameters.
    pub fn build_websocket_url(&self, language_override: Option<&str>) -> (r: String)
        ensures
            r@ == spec_websocket_url(*self, match language_override {
                Some(l) => Some(l@),
                None => None,
            }),
    {
        let language: &str = match language_override {
            Some(l) => l,
            None => self.language.as_str(),
        };
        let auto = eq_str(language, "auto-translate") || eq_str(language, "auto") || eq_str(
            language,
            "detect",
        );
        let mut url = String::from_str("wss://api.deepgram.com/v1/listen?model=");
        url.append(self.model.as_str());
        url.append("&language=");
        if auto {
            url.append("es");
        } else {
            url.append(language);
        }
        url.append("&encoding=");
        url.append(self.encoding.as_str());
        url.append("&sample_rate=");
        url.append(u64_to_string(self.sample_rate as u64).as_str());
        url.append("&channels=");
        url.append(u64_to_string(self.channels as u64).as_str());
        url.append("&punctuate=");
        url.append(bool_label(self.punctuate));
        url.append("&interim_results=");
        url.append(bool_label(self.interim_results));
        url.append("&endpointing=200&vad_events=true");
        proof {
            assert(url@ =~= spec_websocket_url(*self, match language_override {
                Some(l) => Some(l@),
                None => None,
            }));
        }
        url
    }
}

/// "true" or "false".
pub fn bool_label(b: bool) -> (r: &'static str)
    ensures
        b ==> r@ == "true"@,
        !b ==> r@ == "false"@,
{
    if b {
        "true"
    } else {
        "false"
    }
}

/// Whether two strings hold the same characters.
pub fn eq_str(a: &str, b: &str) -> (r: bool)
    ensures
        r == (a@ == b@),
{
    let a_string = String::from_str(a);
    let b_string = String::from_str(b);
    a_string == b_string
}

/// The rendering of a bool in a query parameter.
pub open spec fn spec_bool_label(b: bool) -> Seq<char> {
    if b {
        "true"@
    } else {
        "false"@
    }
}

/// The language parameter: the automatic-language requests fall back to
/// Spanish; anything else is passed through.
pub open spec fn spec_language_param(language: Seq<char>) -> Seq<char> {
    if language == "auto-translate"@ || language == "auto"@ || language == "detect"@ {
        "es"@
    } else {
        language
    }
}

/// The connection URL for a configuration and an optional language override.
pub open spec fn spec_websocket_url(c: DeepgramConfig, language_override: Option<Seq<char>>)
    -> Seq<char> {
    let language = match language_override {
        Some(l) => l,
        None => c.language@,
    };
    "wss://api.deepgram.com/v1/listen?model="@ + c.model@ + "&language="@ + spec_language_param(
        language,
    ) + "&encoding="@ + c.encoding@ + "&sample_rate="@ + spec_u64_digits(c.sample_rate as int)
        + "&channels="@ + spec_u64_digits(c.channels as int) + "&punctuate="@ + spec_bool_label(
        c.punctuate,
    ) + "&interim_results="@ + spec_bool_label(c.interim_results)
        + "&endpointing=200&vad_events=true"@
}

/// Proxy credentials as handed to the host layer, with their remaining
/// lifetime in seconds.
#[derive(Clone, Debug)]
pub struct DeepgramProxyConfig {
    pub proxy_base_url: String,
    pub jwt: String,
    pub expires_in: u64,
}

/// A failed proxy-credential fetch, as reported by the host layer.
#[derive(Clone, Debug)]
pub struct DeepgramProxyConfigError {
    pub error: String,
    pub details: Option<String>,
}

/// A cached set of proxy credentials with its expiry time.
#[derive(Clone, Debug)]
pub struct CachedProxyConfig {
    pub proxy_base_url: String,
    pub jwt: String,
    pub expires_at_ms: u64,
}

/// The session-scoped cache of proxy credentials.
pub struct ProxyConfigCache {
    entry: Option<CachedProxyConfig>,
}

/// When credentials installed at `now_ms` with `expires_in_s` to live will
/// expire, saturating at the top of the clock.
pub open spec fn spec_expiry_ms(now_ms: u64, expires_in_s: u64) -> u64 {
    if now_ms + expires_in_s * 1000 <= u64::MAX {
        (now_ms + expires_in_s * 1000) as u64
    } else {
        u64::MAX
    }
}

/// Whether a cache entry is still usable at `now_ms`: it outlives the refresh
/// buffer.
pub open spec fn spec_entry_valid(e: CachedProxyConfig, now_ms: u64) -> bool {
    e.expires_at_ms > now_ms + CONFIG_REFRESH_BUFFER_MS
}

impl ProxyConfigCache {
    /// The cached entry, if any.
    pub closed spec fn spec_entry(self) -> Option<CachedProxyConfig> {
        self.entry
    }

    /// An empty cache.
    pub fn new() -> (r: Self)
        ensures
            r.spec_entry() is None,
    {
        ProxyConfigCache { entry: None }
    }

    /// Install proxy credentials fetched at `now_ms`. Empty credentials are
    /// rejected and leave the cache as it was.
    pub fn set_deepgram_proxy_config(
        &mut self,
        proxy_base_url: String,
        jwt: String,
        expires_in_s: u64,
        now_ms: u64,
    ) -> (r: Result<(), String>)
        ensures
            r is Err <==> (proxy_base_url@.len() == 0 || jwt@.len() == 0),
            r is Err ==> *final(self) == *old(self),
            proxy_base_url@.len() == 0 ==> (r matches Err(m) && m@
                == "Proxy base URL cannot be empty"@),
            proxy_base_url@.len() > 0 && jwt@.len() == 0 ==> (r matches Err(m) && m@
                == "JWT cannot be empty"@),
            r is Ok ==> (final(self).spec_entry() matches Some(e) && e.proxy_base_url
                == proxy_base_url && e.jwt == jwt && e.expires_at_ms == spec_expiry_ms(
                now_ms,
                expires_in_s,
            )),
    {
        if proxy_base_url.as_str().is_empty() {
            return Err(String::from_str("Proxy base URL cannot be empty"));
        }
        if jwt.as_str().is_empty() {
            return Err(String::from_str("JWT cannot be empty"));
        }
        let scaled: u128 = (expires_in_s as u128) * 1000;
        let sum: u128 = (now_ms as u128) + scaled;
        let expires_at_ms: u64 = if sum <= u64::MAX as u128 {
            sum as u64
        } else {
            u64::MAX
        };
        self.entry = Some(CachedProxyConfig { proxy_base_url, jwt, expires_at_ms });
        Ok(())
    }

    /// The cached credentials, if still usable at `now_ms`, with their
    /// remaining lifetime.
    pub fn get_deepgram_proxy_config(&self, now_ms: u64) -> (r: Option<DeepgramProxyConfig>)
        ensures
            r is Some <==> (self.spec_entry() matches Some(e) && spec_entry_valid(e, now_ms)),
            r matches Some(c) ==> (self.spec_entry() matches Some(e) && c.proxy_base_url
                == e.proxy_base_url && c.jwt == e.jwt && c.expires_in == (e.expires_at_ms
                - now_ms) / 1000),
    {
        match &self.entry {
            Some(e) => {
                if now_ms <= u64::MAX - CONFIG_REFRESH_BUFFER_MS && e.expires_at_ms > now_ms
                    + CONFIG_REFRESH_BUFFER_MS {
                    Some(DeepgramProxyConfig {
                        proxy_base_url: e.proxy_base_url.clone(),
                        jwt: e.jwt.clone(),
                        expires_in: (e.expires_at_ms - now_ms) / 1000,
                    })
                } else {
                    None
                }
            },
            None => None,
        }
    }

    /// The cached credentials as a plain pair, if still usable at `now_ms`.
    pub fn get_cached_proxy_config(&self, now_ms: u64) -> (r: Option<(String, String)>)
        ensures
            r is Some <==> (self.spec_entry() matches Some(e) && spec_entry_valid(e, now_ms)),
            r matches Some(p) ==> (self.spec_entry() matches Some(e) && p.0 == e.proxy_base_url
                && p.1 == e.jwt),
    {
        match &self.entry {
            Some(e) => {
                if now_ms <= u64::MAX - CONFIG_REFRESH_BUFFER_MS && e.expires_at_ms > now_ms
                    + CONFIG_REFRESH_BUFFER_MS {
                    Some((e.proxy_base_url.clone(), e.jwt.clone()))
                } else {
                    None
                }
            },
            None => None,
        }
    }

    /// Whether usable credentials are cached at `now_ms`.
    pub fn has_cached_proxy_config(&self, now_ms: u64) -> (r: bool)
        ensures
            r == (self.spec_entry() matches Some(e) && spec_entry_valid(e, now_ms)),
    {
        self.get_cached_proxy_config(now_ms).is_some()
    }

    /// Forget the cached credentials.
    pub fn clear_deepgram_proxy_config(&mut self)
        ensures
            final(self).spec_entry() is None,
    {
        self.entry = None;
    }
}

/// The base64 alphabet character for a sextet value.
pub open spec fn spec_b64_char(v: u8) -> char
    recommends
        v < 64,
{
    if v < 26 {
        ((65 + v) as u8) as char
    } else if v < 52 {
        ((97 + (v - 26)) as u8) as char
    } else if v < 62 {
        ((48 + (v - 52)) as u8) as char
    } else if v == 62 {
        '+'
    } else {
        '/'
    }
}

/// The base64 encoding of a byte sequence, with padding.
pub open spec fn spec_base64(bytes: Seq<u8>) -> Seq<char>
    decreases bytes.len(),
{
    if bytes.len() == 0 {
        Seq::empty()
    } else if bytes.len() == 1 {
        let b0 = bytes[0];
        seq![spec_b64_char(b0 >> 2), spec_b64_char((b0 & 0x03) << 4), '=', '=']
    } else if bytes.len() == 2 {
        let b0 = bytes[0];
        let b1 = bytes[1];
        seq![
            spec_b64_char(b0 >> 2),
            spec_b64_char(((b0 & 0x03) << 4) | (b1 >> 4)),
            spec_b64_char((b1 & 0x0f) << 2),
            '=',
        ]
    } else {
        let b0 = bytes[0];
        let b1 = bytes[1];
        let b2 = bytes[2];
        seq![
            spec_b64_char(b0 >> 2),
            spec_b64_char(((b0 & 0x03) << 4) | (b1 >> 4)),
            spec_b64_char(((b1 & 0x0f) << 2) | (b2 >> 6)),
            spec_b64_char(b2 & 0x3f),
        ] + spec_base64(bytes.skip(3))
    }
}

/// Base64 output is four characters per started three-byte group.
pub proof fn lemma_base64_len(bytes: Seq<u8>)
    ensures
        spec_base64(bytes).len() == (bytes.len() + 2) / 3 * 4,
    decreases bytes.len(),
{
    if bytes.len() >= 3 {
        lemma_base64_len(bytes.skip(3));
        assert((bytes.len() + 2) / 3 == (bytes.len() - 3 + 2) / 3 + 1) by (nonlinear_arith)
            requires bytes.len() >= 3;
        assert(((bytes.len() - 3 + 2) / 3 + 1) * 4 == (bytes.len() - 3 + 2) / 3 * 4 + 4)
            by (nonlinear_arith);
    }
}

/// The base64 alphabet character for a sextet value.
fn b64_char(v: u8) -> (r: char)
    requires
        v < 64,
    ensures
        r == spec_b64_char(v),
{
    if v < 26 {
        (65 + v) as char
    } else if v < 52 {
        (97 + (v - 26)) as char
    } else if v < 62 {
        (48 + (v - 52)) as char
    } else if v == 62 {
        '+'
    } else {
        '/'
    }
}

/// Base64-encode a byte string, with padding.
pub fn base64_encode(data: &[u8]) -> (r: String)
    ensures
        r@ == spec_base64(data@),
{
    let n = data.len();
    let mut out: Vec<char> = Vec::new();
    let mut i: usize = 0;
    proof {
        assert(data@.skip(0) =~= data@);
    }
    while n - i >= 3
        invariant
            n == data@.len(),
            i <= n,
            spec_base64(data@) == out@ + spec_base64(data@.skip(i as int)),
        decreases n - i,
    {
        let b0 = data[i];
        let b1 = data[i + 1];
        let b2 = data[i + 2];
        proof {
            assert(b0 >> 2 < 64 && ((b0 & 0x03) << 4) | (b1 >> 4) < 64 && ((b1 & 0x0f) << 2)
                | (b2 >> 6) < 64 && b2 & 0x3f < 64) by (bit_vector);
        }
        let ghost before = out@;
        out.push(b64_char(b0 >> 2));
        out.push(b64_char(((b0 & 0x03) << 4) | (b1 >> 4)));
        out.push(b64_char(((b1 & 0x0f) << 2) | (b2 >> 6)));
        out.push(b64_char(b2 & 0x3f));
        proof {
            let rest = data@.skip(i as int);
            assert(rest[0] == b0 && rest[1] == b1 && rest[2] == b2);
            assert(rest.skip(3) =~= data@.skip(i as int + 3));
            assert(out@ + spec_base64(data@.skip(i as int + 3)) =~= before + spec_base64(rest));
        }
        i = i + 3;
    }
    if i < n {
        let b0 = data[i];
        if i + 1 < n {
            let b1 = data[i + 1];
            proof {
                assert(b0 >> 2 < 64 && ((b0 & 0x03) << 4) | (b1 >> 4) < 64 && (b1 & 0x0f) << 2
                    < 64) by (bit_vector);
            }
            let ghost before = out@;
            out.push(b64_char(b0 >> 2));
            out.push(b64_char(((b0 & 0x03) << 4) | (b1 >> 4)));
            out.push(b64_char((b1 & 0x0f) << 2));
            out.push('=');
            proof {
                let rest = data@.skip(i as int);
                assert(rest.len() == 2 && rest[0] == b0 && rest[1] == b1);
                assert(out@ =~= before + spec_base64(rest));
            }
        } else {
            proof {
                assert(b0 >> 2 < 64 && (b0 & 0x03) << 4 < 64) by (bit_vector);
            }
            let ghost before = out@;
            out.push(b64_char(b0 >> 2));
            out.push(b64_char((b0 & 0x03) << 4));
            out.push('=');
            out.push('=');
            proof {
                let rest = data@.skip(i as int);
                assert(rest.len() == 1 && rest[0] == b0);
                assert(out@ =~= before + spec_base64(rest));
            }
        }
    } else {
        proof {
            assert(data@.skip(i as int) =~= Seq::<u8>::empty());
            assert(out@ + spec_base64(data@.skip(i as int)) =~= out@);
        }
    }
    crate::strutil::chars_to_string(&out)
}

/// Relies on the rand crate's `random`: sixteen bytes from the thread-local
/// generator. The values are random; only the length is promised.
#[verifier::external_body]
fn random_key_bytes() -> (r: Vec<u8>)
    ensures
        r@.len() == 16,
{
    rand::random::<[u8; 16]>().to_vec()
}

/// A fresh connection handshake key: sixteen random bytes, base64-encoded.
pub fn generate_websocket_key() -> (r: String)
    ensures
        exists|bytes: Seq<u8>| bytes.len() == 16 && r@ == spec_base64(bytes),
        r@.len() == 24,
{
    let key = random_key_bytes();
    let encoded = base64_encode(key.as_slice());
    proof {
        lemma_base64_len(key@);
        assert(key@.len() == 16 && encoded@ == spec_base64(key@));
    }
    encoded
}

} // verus!
