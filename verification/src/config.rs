//! Application configuration values.
//!
//! The values and their defaults live here; reading and writing them on
//! disk is plain file I/O and belongs to the surrounding application, which
//! converts at the boundary.

use vstd::prelude::*;

verus! {

/// Whether transcribed text is pasted automatically by default.
pub const DEFAULT_AUTO_PASTE: bool = true;

/// Default port of the embedded settings web server.
pub const DEFAULT_PORT: u16 = 7878;

/// The default for [`BehaviourConfig::auto_paste`].
pub fn default_auto_paste() -> (r: bool)
    ensures
        r == DEFAULT_AUTO_PASTE,
{
    DEFAULT_AUTO_PASTE
}

/// The default for [`ServerConfig::port`].
pub fn default_port() -> (r: u16)
    ensures
        r == DEFAULT_PORT,
{
    DEFAULT_PORT
}

/// The default for [`WhisperConfig::use_gpu`].
pub fn default_use_gpu() -> (r: bool)
    ensures
        r,
{
    true
}

/// Speech-to-text model configuration.
#[derive(Debug, Clone)]
pub struct WhisperConfig {
    /// Location of the model file.
    pub model_path: String,
    /// Use a GPU backend for inference if one was compiled in.
    pub use_gpu: bool,
}

/// Audio device configuration.
#[derive(Debug, Clone)]
pub struct AudioConfig {
    /// Selected audio device name; `None` means the default device.
    pub selected_device: Option<String>,
}

/// Application behaviour settings.
#[derive(Debug, Clone)]
pub struct BehaviourConfig {
    /// Whether to automatically paste transcribed text.
    pub auto_paste: bool,
}

/// Embedded settings web server configuration.
#[derive(Debug, Clone)]
pub struct ServerConfig {
    /// Port the embedded web server listens on.
    pub port: u16,
}

/// Main configuration.
#[derive(Debug, Clone)]
pub struct Config {
    /// Speech-to-text model configuration.
    pub whisper: WhisperConfig,
    /// Audio device configuration.
    pub audio: AudioConfig,
    /// Application behaviour settings.
    pub behavior: BehaviourConfig,
    /// Embedded web server configuration.
    pub server: ServerConfig,
}

/// The decimal digit `d` as a character.
pub open spec fn dec_digit(d: int) -> char
    recommends
        0 <= d <= 9,
{
    if d == 0 {
        '0'
    } else if d == 1 {
        '1'
    } else if d == 2 {
        '2'
    } else if d == 3 {
        '3'
    } else if d == 4 {
        '4'
    } else if d == 5 {
        '5'
    } else if d == 6 {
        '6'
    } else if d == 7 {
        '7'
    } else if d == 8 {
        '8'
    } else {
        '9'
    }
}

/// The decimal rendering of `n`, most significant digit first, without
/// leading zeros (a single `'0'` for zero).
pub open spec fn dec_chars(n: int) -> Seq<char>
    recommends
        n >= 0,
    decreases n,
{
    if n < 10 {
        seq![dec_digit(n)]
    } else {
        dec_chars(n / 10).push(dec_digit(n % 10))
    }
}

/// The decimal digit `d` as a one-character string slice.
fn digit_str(d: u16) -> (r: &'static str)
    requires
        d < 10,
    ensures
        r@ == seq![dec_digit(d as int)],
{
    proof {
        reveal_strlit("0");
        reveal_strlit("1");
        reveal_strlit("2");
        reveal_strlit("3");
        reveal_strlit("4");
        reveal_strlit("5");
        reveal_strlit("6");
        reveal_strlit("7");
        reveal_strlit("8");
        reveal_strlit("9");
    }
    let r = if d == 0 {
        "0"
    } else if d == 1 {
        "1"
    } else if d == 2 {
        "2"
    } else if d == 3 {
        "3"
    } else if d == 4 {
        "4"
    } else if d == 5 {
        "5"
    } else if d == 6 {
        "6"
    } else if d == 7 {
        "7"
    } else if d == 8 {
        "8"
    } else {
        "9"
    };
    assert(r@ =~= seq![dec_digit(d as int)]);
    r
}

impl Config {
    /// The URL of the embedded settings web server, for opening in a
    /// browser: `http://localhost:` followed by the decimal port.
    pub fn server_url(&self) -> (r: String)
        ensures
            r@ == "http://localhost:"@ + dec_chars(self.server.port as int),
    {
        let mut digits: Vec<u16> = Vec::new();
        let mut n: u16 = self.server.port;
        digits.push(n % 10);
        proof {
            assert(digits@.reverse() =~= seq![(self.server.port % 10) as u16]);
        }
        n = n / 10;
        while n > 0
            invariant
                digits@.len() >= 1,
                forall|j: int| 0 <= j < digits@.len() ==> digits@[j] < 10,
                n > 0 ==> dec_chars(self.server.port as int) == dec_chars(n as int)
                    + digits@.reverse().map_values(|d: u16| dec_digit(d as int)),
                n == 0 ==> dec_chars(self.server.port as int) == digits@.reverse().map_values(
                    |d: u16| dec_digit(d as int),
                ),
            decreases n,
        {
            let ghost before = digits@;
            digits.push(n % 10);
            proof {
                assert(digits@.reverse() =~= seq![(n % 10) as u16] + before.reverse());
                assert(digits@.reverse().map_values(|d: u16| dec_digit(d as int)) =~= seq![
                    dec_digit((n % 10) as int),
                ] + before.reverse().map_values(|d: u16| dec_digit(d as int)));
                if n >= 10 {
                    assert(dec_chars(n as int) == dec_chars(n as int / 10).push(
                        dec_digit(n as int % 10),
                    ));
                    assert(dec_chars(n as int / 10) + digits@.reverse().map_values(
                        |d: u16| dec_digit(d as int),
                    ) =~= dec_chars(n as int) + before.reverse().map_values(
                        |d: u16| dec_digit(d as int),
                    ));
                } else {
                    assert(dec_chars(n as int) =~= seq![dec_digit(n as int)]);
                    assert(dec_chars(self.server.port as int) =~= digits@.reverse().map_values(
                        |d: u16| dec_digit(d as int),
                    ));
                }
            }
            n = n / 10;
        }
        let ghost rev_chars = digits@.reverse().map_values(|d: u16| dec_digit(d as int));
        let mut url = String::from_str("http://localhost:");
        let ghost base = url@;
        let mut i: usize = digits.len();
        while i > 0
            invariant
                i <= digits@.len(),
                forall|j: int| 0 <= j < digits@.len() ==> digits@[j] < 10,
                rev_chars == digits@.reverse().map_values(|d: u16| dec_digit(d as int)),
                url@ == base + rev_chars.take(digits@.len() - i),
            decreases i,
        {
            i = i - 1;
            url.append(digit_str(digits[i]));
            proof {
                assert(rev_chars[digits@.len() - 1 - i] == dec_digit(digits@[i as int] as int));
                assert(url@ =~= base + rev_chars.take(digits@.len() - i));
            }
        }
        proof {
            assert(rev_chars.take(digits@.len() as int) =~= rev_chars);
        }
        url
    }

    /// The configuration a fresh installation starts from: the given model
    /// location and every other setting at its default.
    pub fn create_default(model_path: String) -> (r: Config)
        ensures
            r.whisper.model_path@ == model_path@,
            r.whisper.use_gpu == true,
            r.audio.selected_device is None,
            r.behavior.auto_paste == DEFAULT_AUTO_PASTE,
            r.server.port == DEFAULT_PORT,
    {
        Config {
            whisper: WhisperConfig { model_path, use_gpu: default_use_gpu() },
            audio: AudioConfig { selected_device: None },
            behavior: BehaviourConfig { auto_paste: default_auto_paste() },
            server: ServerConfig { port: default_port() },
        }
    }
}

} // verus!
