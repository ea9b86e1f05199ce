use vstd::prelude::*;

verus! {

/// Static settings of the program: window and tile sizes in pixels, the
/// window title and the pause after each frame.
#[derive(Clone, Debug)]
pub struct Config {
    pub path: Option<String>,
    pub title: String,
    pub sleep_ms_per_frame: u64,
    pub window_width: u32,
    pub window_height: u32,
    pub grid_width: u32,
    pub grid_height: u32,
}

/// The settings as text, one value for each key of the configuration.
#[derive(Clone, Debug)]
pub struct RawConfig {
    pub title: String,
    pub sleep_ms_per_frame: String,
    pub window_width: String,
    pub window_height: String,
    pub grid_width: String,
    pub grid_height: String,
}

/// The first setting, in the order of the fields, that is not a number of
/// its type.
#[derive(Clone, Copy, Debug, PartialEq, Eq, Structural)]
pub enum ConfigError {
    SleepMsPerFrame,
    WindowWidth,
    WindowHeight,
    GridWidth,
    GridHeight,
}

pub open spec fn is_digit(c: char) -> bool {
    '0' <= c <= '9'
}

pub open spec fn all_digits(s: Seq<char>) -> bool {
    forall|i: int| 0 <= i < s.len() ==> is_digit(#[trigger] s[i])
}

/// The value of a string of decimal digits.
pub open spec fn digits_value(s: Seq<char>) -> nat
    decreases s.len(),
{
    if s.len() == 0 {
        0
    } else {
        digits_value(s.drop_last()) * 10 + ((s.last() as u32) - ('0' as u32)) as nat
    }
}

/// The digits of a number as it may be written: an optional `+` and then at
/// least one decimal digit.
pub open spec fn unsigned_digits(s: Seq<char>) -> Option<Seq<char>> {
    if digits_part(s).len() > 0 && all_digits(digits_part(s)) {
        Some(digits_part(s))
    } else {
        None
    }
}

/// `s` without a leading `+`.
pub open spec fn digits_part(s: Seq<char>) -> Seq<char> {
    if s.len() > 0 && s[0] == '+' { s.skip(1) } else { s }
}

/// The number that `s` writes, where it writes one no greater than `max`.
pub open spec fn parse_spec(s: Seq<char>, max: nat) -> Option<nat> {
    match unsigned_digits(s) {
        Some(d) => if digits_value(d) <= max { Some(digits_value(d)) } else { None },
        None => None,
    }
}

proof fn lemma_digits_grow(s: Seq<char>, j: int)
    requires
        all_digits(s),
        0 <= j <= s.len(),
    ensures
        digits_value(s.take(j)) <= digits_value(s),
    decreases s.len() - j,
{
    if j < s.len() {
        lemma_digits_grow(s, j + 1);
        assert(s.take(j + 1).drop_last() =~= s.take(j));
        assert(is_digit(s[j]));
    } else {
        assert(s.take(j) =~= s);
    }
}

/// Reads a decimal number no greater than `max`.
pub fn parse_decimal(s: &str, max: u64) -> (r: Option<u64>)
    ensures
        r matches Some(n) ==> parse_spec(s@, max as nat) == Some(n as nat),
        r is None ==> parse_spec(s@, max as nat) is None,
{
    let len = s.unicode_len();
    let start: usize = if len > 0 && s.get_char(0) == '+' { 1 } else { 0 };
    let ghost d = digits_part(s@);
    if start >= len {
        proof {
            assert(d.len() == 0);
            assert(unsigned_digits(s@) is None);
        }
        return None;
    }
    let mut value: u64 = 0;
    let mut i: usize = start;
    while i < len
        invariant
            len == s@.len(),
            start <= i <= len,
            start < len,
            d == s@.skip(start as int),
            d == digits_part(s@),
            all_digits(d.take(i - start)),
            value as nat == digits_value(d.take(i - start)),
            value <= max,
        decreases len - i,
    {
        let c = s.get_char(i);
        proof {
            assert(d.take(i - start + 1).drop_last() =~= d.take(i - start));
            assert(d[i - start] == c);
        }
        if !('0' <= c && c <= '9') {
            proof {
                assert(!all_digits(d));
                assert(unsigned_digits(s@) is None);
            }
            return None;
        }
        let digit = (c as u32 - '0' as u32) as u64;
        let next = match value.checked_mul(10) {
            Some(t) => t.checked_add(digit),
            None => None,
        };
        match next {
            Some(n) if n <= max => {
                value = n;
            },
            _ => {
                proof {
                    assert(all_digits(d.take(i - start + 1)));
                    assert(digits_value(d.take(i - start + 1)) > max);
                    if all_digits(d) {
                        lemma_digits_grow(d, i - start + 1);
                    }
                }
                return None;
            },
        }
        i = i + 1;
        proof {
            assert forall|j: int| 0 <= j < d.take(i - start).len() implies is_digit(#[trigger] d.take(i - start)[j]) by {
                if j < i - start - 1 {
                    assert(d.take(i - start)[j] == d.take(i - start - 1)[j]);
                }
            }
        }
    }
    proof {
        assert(d.take(len - start) =~= d);
    }
    Some(value)
}

impl Default for Config {
    /// The built-in settings.
    fn default() -> (c: Config)
        ensures
            c.path is None,
            c.title@ == seq!['F', 'L', 'O', 'A', 'T', 'I', 'N', 'G'],
            c.sleep_ms_per_frame == 5,
            c.window_width == 640,
            c.window_height == 640,
            c.grid_width == 8,
            c.grid_height == 16,
    {
        let title = String::from_str("FLOATING");
        proof {
            reveal_strlit("FLOATING");
        }
        Config {
            path: None,
            title,
            sleep_ms_per_frame: 5,
            window_width: 640,
            window_height: 640,
            grid_width: 8,
            grid_height: 16,
        }
    }
}

impl Config {
    /// The settings that `raw` writes, keeping this configuration's path;
    /// the first value that is not a number of its field's type is the
    /// error.
    pub fn reload(self, raw: &RawConfig) -> (r: Result<Config, ConfigError>)
        ensures
            parse_spec(raw.sleep_ms_per_frame@, u64::MAX as nat) is None
                ==> r == Err::<Config, ConfigError>(ConfigError::SleepMsPerFrame),
            parse_spec(raw.sleep_ms_per_frame@, u64::MAX as nat) is Some
                && parse_spec(raw.window_width@, u32::MAX as nat) is None
                ==> r == Err::<Config, ConfigError>(ConfigError::WindowWidth),
            parse_spec(raw.sleep_ms_per_frame@, u64::MAX as nat) is Some
                && parse_spec(raw.window_width@, u32::MAX as nat) is Some
                && parse_spec(raw.window_height@, u32::MAX as nat) is None
                ==> r == Err::<Config, ConfigError>(ConfigError::WindowHeight),
            parse_spec(raw.sleep_ms_per_frame@, u64::MAX as nat) is Some
                && parse_spec(raw.window_width@, u32::MAX as nat) is Some
                && parse_spec(raw.window_height@, u32::MAX as nat) is Some
                && parse_spec(raw.grid_width@, u32::MAX as nat) is None
                ==> r == Err::<Config, ConfigError>(ConfigError::GridWidth),
            parse_spec(raw.sleep_ms_per_frame@, u64::MAX as nat) is Some
                && parse_spec(raw.window_width@, u32::MAX as nat) is Some
                && parse_spec(raw.window_height@, u32::MAX as nat) is Some
                && parse_spec(raw.grid_width@, u32::MAX as nat) is Some
                && parse_spec(raw.grid_height@, u32::MAX as nat) is None
                ==> r == Err::<Config, ConfigError>(ConfigError::GridHeight),
            r is Ok <==> (parse_spec(raw.sleep_ms_per_frame@, u64::MAX as nat) is Some
                && parse_spec(raw.window_width@, u32::MAX as nat) is Some
                && parse_spec(raw.window_height@, u32::MAX as nat) is Some
                && parse_spec(raw.grid_width@, u32::MAX as nat) is Some
                && parse_spec(raw.grid_height@, u32::MAX as nat) is Some),
            r matches Ok(c) ==> {
                &&& c.path == self.path
                &&& c.title@ == raw.title@
                &&& parse_spec(raw.sleep_ms_per_frame@, u64::MAX as nat) == Some(c.sleep_ms_per_frame as nat)
                &&& parse_spec(raw.window_width@, u32::MAX as nat) == Some(c.window_width as nat)
                &&& parse_spec(raw.window_height@, u32::MAX as nat) == Some(c.window_height as nat)
                &&& parse_spec(raw.grid_width@, u32::MAX as nat) == Some(c.grid_width as nat)
                &&& parse_spec(raw.grid_height@, u32::MAX as nat) == Some(c.grid_height as nat)
            },
    {
        let sleep_ms_per_frame = match parse_decimal(raw.sleep_ms_per_frame.as_str(), u64::MAX) {
            Some(n) => n,
            None => return Err(ConfigError::SleepMsPerFrame),
        };
        let window_width = match parse_decimal(raw.window_width.as_str(), u32::MAX as u64) {
            Some(n) => n as u32,
            None => return Err(ConfigError::WindowWidth),
        };
        let window_height = match parse_decimal(raw.window_height.as_str(), u32::MAX as u64) {
            Some(n) => n as u32,
            None => return Err(ConfigError::WindowHeight),
        };
        let grid_width = match parse_decimal(raw.grid_width.as_str(), u32::MAX as u64) {
            Some(n) => n as u32,
            None => return Err(ConfigError::GridWidth),
        };
        let grid_height = match parse_decimal(raw.grid_height.as_str(), u32::MAX as u64) {
            Some(n) => n as u32,
            None => return Err(ConfigError::GridHeight),
        };
        Ok(Config {
            path: self.path,
            title: raw.title.clone(),
            sleep_ms_per_frame,
            window_width,
            window_height,
            grid_width,
            grid_height,
        })
    }

    /// The settings that `raw` writes, or the built-in ones where a value is
    /// not a number; either way with the given path.
    pub fn new(path: String, raw: &RawConfig) -> (c: Config)
        ensures
            c.path == Some(path),
            (parse_spec(raw.sleep_ms_per_frame@, u64::MAX as nat) is Some
                && parse_spec(raw.window_width@, u32::MAX as nat) is Some
                && parse_spec(raw.window_height@, u32::MAX as nat) is Some
                && parse_spec(raw.grid_width@, u32::MAX as nat) is Some
                && parse_spec(raw.grid_height@, u32::MAX as nat) is Some) ==> {
                &&& c.title@ == raw.title@
                &&& parse_spec(raw.sleep_ms_per_frame@, u64::MAX as nat) == Some(c.sleep_ms_per_frame as nat)
                &&& parse_spec(raw.window_width@, u32::MAX as nat) == Some(c.window_width as nat)
                &&& parse_spec(raw.window_height@, u32::MAX as nat) == Some(c.window_height as nat)
                &&& parse_spec(raw.grid_width@, u32::MAX as nat) == Some(c.grid_width as nat)
                &&& parse_spec(raw.grid_height@, u32::MAX as nat) == Some(c.grid_height as nat)
            },
            !(parse_spec(raw.sleep_ms_per_frame@, u64::MAX as nat) is Some
                && parse_spec(raw.window_width@, u32::MAX as nat) is Some
                && parse_spec(raw.window_height@, u32::MAX as nat) is Some
                && parse_spec(raw.grid_width@, u32::MAX as nat) is Some
                && parse_spec(raw.grid_height@, u32::MAX as nat) is Some) ==> {
                &&& c.title@ == seq!['F', 'L', 'O', 'A', 'T', 'I', 'N', 'G']
                &&& c.sleep_ms_per_frame == 5
                &&& c.window_width == 640
                &&& c.window_height == 640
                &&& c.grid_width == 8
                &&& c.grid_height == 16
            },
    {
        let fallback = path.clone();
        let base = Config { path: Some(path), ..Config::default() };
        match base.reload(raw) {
            Ok(c) => c,
            Err(_) => Config { path: Some(fallback), ..Config::default() },
        }
    }
}

} // verus!
