//! Where the Gemini API key comes from: the `GEMINI_API_KEY` environment
//! variable, then the config file, then a prompt in the browser. Reading the
//! environment and the file and serving the prompt page are the caller's; the
//! choices are made here.

use vstd::prelude::*;
use vstd::string::*;
use vstd::utf8::*;

use crate::text::opt_chars;

verus! {

/// The name of the config file inside the config directory.
pub const CONFIG_FILE_NAME: &'static str = "music-generator.toml";

/// What is shown of a key of at most eight bytes.
pub const SHORT_KEY_MASK: &'static str = "****";

/// Stands between the visible ends of a masked key.
pub const MASK_ELLIPSIS: &'static str = "...";

/// The characters that the first `n` bytes of a UTF-8 text decode to.
pub open spec fn byte_prefix_chars(bytes: Seq<u8>, n: int) -> Seq<char> {
    decode_utf8(bytes.subrange(0, n))
}

/// The characters that the last `n` bytes of a UTF-8 text decode to.
pub open spec fn byte_suffix_chars(bytes: Seq<u8>, n: int) -> Seq<char> {
    decode_utf8(bytes.subrange(bytes.len() - n, bytes.len() as int))
}

/// The key as it may be logged: `****` for keys of at most eight bytes,
/// otherwise the first four bytes, `...`, and the last four bytes.
pub open spec fn mask_key_spec(key: &str) -> Seq<char> {
    let b = key.spec_bytes();
    if b.len() <= 8 {
        SHORT_KEY_MASK@
    } else {
        byte_prefix_chars(b, 4) + MASK_ELLIPSIS@ + byte_suffix_chars(b, 4)
    }
}

/// Whether the key can be cut four bytes from each end (it always can when it
/// is at most eight bytes long, since it is not cut then).
pub open spec fn mask_key_cuttable(key: &str) -> bool {
    let b = key.spec_bytes();
    b.len() > 8 ==> is_char_boundary(b, 4) && is_char_boundary(b, b.len() - 4)
}

/// Whether `mask_key` can cut the key: it is short, or four bytes from
/// either end fall on character boundaries.
pub fn is_maskable_key(key: &str) -> (r: bool)
    ensures
        r == mask_key_cuttable(key),
{
    let len = key.as_bytes().len();
    len <= 8 || (key.is_char_boundary(4) && key.is_char_boundary(len - 4))
}

/// Masks a key for logging: `****` for short keys, else its first and last
/// four bytes around `...`.
pub fn mask_key(key: &str) -> (r: String)
    requires
        mask_key_cuttable(key),
    ensures
        r@ == mask_key_spec(key),
{
    let len = key.as_bytes().len();
    if len <= 8 {
        return String::from_str(SHORT_KEY_MASK);
    }
    let head = key.split_at(4).0;
    let tail = key.split_at(len - 4).1;
    proof {
        encode_utf8_decode_utf8(head@);
        encode_utf8_decode_utf8(tail@);
    }
    let mut masked = String::from_str(head);
    masked.append(MASK_ELLIPSIS);
    masked.append(tail);
    masked
}

/// The directory that holds the config file, inside the home directory.
pub const CONFIG_DIR_NAME: &'static str = ".config";

/// `name` inside `dir`, joined with `/` as a Unix path is: no separator is
/// added after an empty directory or one that already ends with `/`.
pub open spec fn join_path_spec(dir: Seq<char>, name: Seq<char>) -> Seq<char> {
    if dir.len() == 0 || dir.last() == '/' {
        dir + name
    } else {
        dir + "/"@ + name
    }
}

/// Joins a directory and a name inside it.
pub fn join_path(dir: &str, name: &str) -> (r: String)
    ensures
        r@ == join_path_spec(dir@, name@),
{
    let n = dir.unicode_len();
    let mut path = String::from_str(dir);
    if n > 0 && dir.get_char(n - 1) != '/' {
        path.append("/");
    }
    path.append(name);
    path
}

/// The path of the config file inside `config_dir`.
pub fn config_path(config_dir: &str) -> (r: String)
    ensures
        r@ == join_path_spec(config_dir@, CONFIG_FILE_NAME@),
{
    join_path(config_dir, CONFIG_FILE_NAME)
}

/// The config directory: `.config` inside the home directory, or `.` when
/// the home directory is not known.
pub open spec fn dirs_or_default_spec(home_dir: Option<Seq<char>>) -> Seq<char> {
    match home_dir {
        Some(h) => join_path_spec(h, CONFIG_DIR_NAME@),
        None => "."@,
    }
}

/// Chooses the config directory, `~/.config`.
pub fn dirs_or_default(home_dir: Option<String>) -> (r: String)
    ensures
        r@ == dirs_or_default_spec(opt_chars(home_dir)),
{
    match home_dir {
        Some(h) => join_path(h.as_str(), CONFIG_DIR_NAME),
        None => String::from_str("."),
    }
}

/// The config file lies at `{home}/.config/music-generator.toml`.
pub proof fn law_config_file_in_home_config(home: Seq<char>)
    requires
        home.len() > 0,
        home.last() != '/',
    ensures
        join_path_spec(dirs_or_default_spec(Some(home)), CONFIG_FILE_NAME@) == home + "/"@
            + CONFIG_DIR_NAME@ + "/"@ + CONFIG_FILE_NAME@,
{
    reveal_strlit(".config");
    let d = home + "/"@ + CONFIG_DIR_NAME@;
    assert(d.last() == 'g');
}

/// The contents of the config file, once parsed.
pub struct Config {
    pub gemini_api_key: Option<String>,
}

/// The key that a parsed config file offers: its `gemini_api_key` when
/// that is present and not empty. `None` stands for a file that could not be
/// read or parsed.
pub open spec fn config_key_spec(config: Option<Option<Seq<char>>>) -> Option<Seq<char>> {
    match config {
        Some(Some(k)) => if k.len() > 0 {
            Some(k)
        } else {
            None
        },
        _ => None,
    }
}

/// The characters of an optional parsed config file.
pub open spec fn config_chars(config: Option<Config>) -> Option<Option<Seq<char>>> {
    match config {
        Some(c) => Some(opt_chars(c.gemini_api_key)),
        None => None,
    }
}

/// The key that the config file offers, if any.
pub fn load_from_config(config: Option<Config>) -> (r: Option<String>)
    ensures
        opt_chars(r) == config_key_spec(config_chars(config)),
{
    let config = match config {
        Some(c) => c,
        None => {
            return None;
        },
    };
    let key = match config.gemini_api_key {
        Some(k) => k,
        None => {
            return None;
        },
    };
    if key.as_str().is_empty() {
        None
    } else {
        Some(key)
    }
}

/// Where the key was found, or that it has to be asked for.
pub enum ApiKeySource {
    /// Found in the `GEMINI_API_KEY` environment variable.
    Environment(String),
    /// Found in the config file.
    ConfigFile(String),
    /// Neither had one: the key is asked for in the browser.
    Prompt,
}

/// The characters that an `ApiKeySource` holds.
pub enum ApiKeySourceView {
    Environment(Seq<char>),
    ConfigFile(Seq<char>),
    Prompt,
}

impl View for ApiKeySource {
    type V = ApiKeySourceView;

    open spec fn view(&self) -> ApiKeySourceView {
        match self {
            ApiKeySource::Environment(k) => ApiKeySourceView::Environment(k@),
            ApiKeySource::ConfigFile(k) => ApiKeySourceView::ConfigFile(k@),
            ApiKeySource::Prompt => ApiKeySourceView::Prompt,
        }
    }
}

/// The order in which the key is looked for: a non-empty `GEMINI_API_KEY`,
/// then the key of the config file, then the prompt.
pub open spec fn resolve_api_key_spec(
    env_key: Option<Seq<char>>,
    config: Option<Option<Seq<char>>>,
) -> ApiKeySourceView {
    match env_key {
        Some(k) if k.len() > 0 => ApiKeySourceView::Environment(k),
        _ => match config_key_spec(config) {
            Some(k) => ApiKeySourceView::ConfigFile(k),
            None => ApiKeySourceView::Prompt,
        },
    }
}

/// The environment's key when it is set and not empty.
pub fn environment_key(env_key: Option<String>) -> (r: Option<String>)
    ensures
        opt_chars(r) == (match opt_chars(env_key) {
            Some(k) if k.len() > 0 => Some(k),
            _ => None,
        }),
{
    match env_key {
        Some(k) => if k.as_str().is_empty() {
            None
        } else {
            Some(k)
        },
        None => None,
    }
}

/// Resolve the Gemini API key from (in order):
/// 1. the `GEMINI_API_KEY` environment variable (`env_key`; `None` when unset),
/// 2. the config file (`config`; `None` when it cannot be read or parsed;
///    it is not consulted when the environment has a key),
/// 3. an interactive web prompt, which the result asks for.
pub fn resolve_api_key(env_key: Option<String>, config: Option<Config>) -> (r: ApiKeySource)
    ensures
        r@ == resolve_api_key_spec(opt_chars(env_key), config_chars(config)),
{
    if let Some(k) = environment_key(env_key) {
        return ApiKeySource::Environment(k);
    }
    match load_from_config(config) {
        Some(k) => ApiKeySource::ConfigFile(k),
        None => ApiKeySource::Prompt,
    }
}

/// Why the browser prompt gave no key.
#[derive(Clone, Copy, Debug, PartialEq, Eq, Structural)]
pub enum PromptError {
    /// The prompt ended before a key was submitted.
    Cancelled,
    /// An empty key was submitted.
    EmptyKey,
}

impl PromptError {
    /// The message of the error.
    pub open spec fn message_spec(self) -> Seq<char> {
        match self {
            PromptError::Cancelled => "API key prompt was cancelled"@,
            PromptError::EmptyKey => "Empty API key provided"@,
        }
    }

    /// The message of the error.
    pub fn message(&self) -> (r: &'static str)
        ensures
            r@ == self.message_spec(),
    {
        match self {
            PromptError::Cancelled => "API key prompt was cancelled",
            PromptError::EmptyKey => "Empty API key provided",
        }
    }
}

/// The key that a submission of the prompt form carries: its `key` field
/// when that is a string, else the empty key.
pub fn key_from_submission(key_field: Option<String>) -> (r: String)
    ensures
        r@ == (match opt_chars(key_field) {
            Some(k) => k,
            None => Seq::empty(),
        }),
{
    match key_field {
        Some(k) => k,
        None => String::new(),
    }
}

/// What the prompt yields: `received` is the submitted key, or `None` when
/// the prompt ended without one.
pub open spec fn prompted_key_spec(received: Option<Seq<char>>) -> Result<Seq<char>, PromptError> {
    match received {
        None => Err(PromptError::Cancelled),
        Some(k) => if k.len() == 0 {
            Err(PromptError::EmptyKey)
        } else {
            Ok(k)
        },
    }
}

/// Accepts the key that the prompt received, refusing an empty one.
pub fn accept_prompted_key(received: Option<String>) -> (r: Result<String, PromptError>)
    ensures
        match r {
            Ok(k) => prompted_key_spec(opt_chars(received)) == Ok::<Seq<char>, PromptError>(k@),
            Err(e) => prompted_key_spec(opt_chars(received)) == Err::<Seq<char>, PromptError>(e),
        },
{
    match received {
        None => Err(PromptError::Cancelled),
        Some(k) => if k.as_str().is_empty() {
            Err(PromptError::EmptyKey)
        } else {
            Ok(k)
        },
    }
}

proof fn lemma_ascii_byte_range(chars: Seq<char>, i: int, j: int)
    requires
        is_ascii_chars(chars),
        0 <= i <= j <= chars.len(),
    ensures
        encode_utf8(chars).subrange(i, j) == encode_utf8(chars.subrange(i, j)),
{
    let sub = chars.subrange(i, j);
    assert(is_ascii_chars(sub));
    is_ascii_chars_encode_utf8(chars);
    is_ascii_chars_encode_utf8(sub);
    assert(encode_utf8(chars).subrange(i, j) =~= encode_utf8(sub));
}

/// An ASCII key is masked character by character: `****` when it has at
/// most eight characters, else its first four characters, `...`, and its last
/// four characters; masking such a key never panics.
pub proof fn law_mask_ascii_key(key: &str)
    requires
        is_ascii(key),
    ensures
        mask_key_cuttable(key),
        mask_key_spec(key) == (if key@.len() <= 8 {
            SHORT_KEY_MASK@
        } else {
            key@.take(4) + MASK_ELLIPSIS@ + key@.skip(key@.len() - 4)
        }),
{
    let chars = key@;
    let b = key.spec_bytes();
    is_ascii_chars_encode_utf8(chars);
    encode_utf8_valid_utf8(chars);
    if b.len() > 8 {
        let n = b.len() as int;
        assert(!is_continuation_byte(b[4])) by {
            assert(chars[4] as u8 == b[4]);
        }
        assert(!is_continuation_byte(b[n - 4])) by {
            assert(chars[n - 4] as u8 == b[n - 4]);
        }
        is_char_boundary_iff_not_is_continuation_byte(b, 4);
        is_char_boundary_iff_not_is_continuation_byte(b, n - 4);
        lemma_ascii_byte_range(chars, 0, 4);
        lemma_ascii_byte_range(chars, n - 4, n);
        encode_utf8_decode_utf8(chars.subrange(0, 4));
        encode_utf8_decode_utf8(chars.subrange(n - 4, n));
        assert(chars.take(4) =~= chars.subrange(0, 4));
        assert(chars.skip(n - 4) =~= chars.subrange(n - 4, n));
    }
}

/// The key that is resolved is never empty, whichever source it comes from;
/// a non-empty `GEMINI_API_KEY` wins over the config file, a non-empty key of
/// the config file is used when the environment has none, and the prompt is
/// asked for only when neither has one.
pub proof fn law_resolved_key_is_never_empty(
    env_key: Option<Seq<char>>,
    config: Option<Option<Seq<char>>>,
)
    ensures
        match resolve_api_key_spec(env_key, config) {
            ApiKeySourceView::Environment(k) => k.len() > 0 && env_key == Some(k),
            ApiKeySourceView::ConfigFile(k) => k.len() > 0,
            ApiKeySourceView::Prompt => true,
        },
        (env_key matches Some(k) && k.len() > 0) ==> resolve_api_key_spec(env_key, config)
            == ApiKeySourceView::Environment(env_key->0),
        ((env_key is None || env_key->0.len() == 0) && config is Some && config->0 is Some
            && config->0->0.len() > 0) ==> resolve_api_key_spec(env_key, config)
            == ApiKeySourceView::ConfigFile(config->0->0),
        ((env_key is None || env_key->0.len() == 0) && (config is None || config->0 is None
            || config->0->0.len() == 0)) ==> resolve_api_key_spec(env_key, config)
            == ApiKeySourceView::Prompt,
{
}

/// A key accepted from the prompt is never empty.
pub proof fn law_prompted_key_is_never_empty(received: Option<Seq<char>>)
    ensures
        prompted_key_spec(received) matches Ok(k) ==> k.len() > 0 && received == Some(k),
{
}

} // verus!
