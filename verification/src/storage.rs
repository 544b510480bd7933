//! Reading and writing the config document.
//!
//! The file system and the JSON reader are the caller's: what they answered
//! comes in as a value, or a function that asks them comes in as a parameter.
//! Which of them is asked, when, and what the answer leads to is decided here.

use crate::config::{Config, MAX_CONFIG_BYTES};
use crate::number::{decimal, decimal_text};
use crate::paths::{
    below_a_server, dotted_extension_changes_the_path, extends, has_bare_name, has_extension,
    is_placed, is_plain_relative, is_share_or_device, join_path, joining_a_name_stays_plain, joins_plainly,
    last_dot, last_name_below, on_server, on_verbatim_drive, path_below, replaced_extension,
    with_extension,
};
use crate::validation::{config_error, no_error_iff_valid, valid_config};
use vstd::prelude::*;
use vstd::string::*;

verus! {

/// Why a config document failed to parse: broken JSON, or well-formed JSON
/// whose values fail validation.
#[derive(Debug)]
pub enum ParseError {
    Json(String),
    Validation(String),
}

#[derive(Debug)]
pub enum ConfigError {
    /// %LOCALAPPDATA% is not set; the config location cannot be resolved.
    NoLocalAppData,
    Io { path: String, source: String },
    /// The file is larger than `MAX_CONFIG_BYTES`; reading is refused
    /// before allocating, so a corrupt path cannot exhaust memory.
    TooLarge { path: String, size: u64 },
    Parse { path: String, source: String },
    /// Serialization itself failed; effectively unreachable for this model
    /// but reported instead of panicking.
    Serialize { path: String, source: String },
    Validation { path: String, message: String },
}

/// The text of a parse error.
pub open spec fn parse_error_text(e: ParseError) -> Seq<char> {
    match e {
        ParseError::Json(m) => m@,
        ParseError::Validation(m) => m@,
    }
}

/// The text of a config error.
pub open spec fn config_error_text(e: ConfigError) -> Seq<char> {
    match e {
        ConfigError::NoLocalAppData => "%LOCALAPPDATA% is not set; cannot locate config.json"@,
        ConfigError::Io { path, source } => "cannot read config file "@ + path@ + ": "@ + source@,
        ConfigError::TooLarge { path, size } => {
            "config file "@ + path@ + " is too large ("@ + decimal(size as nat)
                + " bytes; maximum is "@ + decimal(MAX_CONFIG_BYTES as nat) + ")"@
        },
        ConfigError::Parse { path, source } => {
            "config file "@ + path@ + " is not valid JSON: "@ + source@
        },
        ConfigError::Serialize { path, source } => {
            "cannot serialize config for "@ + path@ + ": "@ + source@
        },
        ConfigError::Validation { path, message } => {
            "config file "@ + path@ + " is invalid: "@ + message@
        },
    }
}

impl ParseError {
    pub fn message(&self) -> (r: String)
        ensures
            r@ == parse_error_text(*self),
    {
        match self {
            ParseError::Json(m) => m.clone(),
            ParseError::Validation(m) => m.clone(),
        }
    }
}

impl ConfigError {
    pub fn message(&self) -> (r: String)
        ensures
            r@ == config_error_text(*self),
    {
        match self {
            ConfigError::NoLocalAppData => {
                "%LOCALAPPDATA% is not set; cannot locate config.json".to_owned()
            },
            ConfigError::Io { path, source } => {
                "cannot read config file ".to_owned().concat(path.as_str()).concat(": ").concat(
                    source.as_str(),
                )
            },
            ConfigError::TooLarge { path, size } => {
                "config file ".to_owned().concat(path.as_str()).concat(" is too large (").concat(
                    decimal_text(*size).as_str(),
                ).concat(" bytes; maximum is ").concat(
                    decimal_text(MAX_CONFIG_BYTES).as_str(),
                ).concat(")")
            },
            ConfigError::Parse { path, source } => {
                "config file ".to_owned().concat(path.as_str()).concat(
                    " is not valid JSON: ",
                ).concat(source.as_str())
            },
            ConfigError::Serialize { path, source } => {
                "cannot serialize config for ".to_owned().concat(path.as_str()).concat(
                    ": ",
                ).concat(source.as_str())
            },
            ConfigError::Validation { path, message } => {
                "config file ".to_owned().concat(path.as_str()).concat(" is invalid: ").concat(
                    message.as_str(),
                )
            },
        }
    }
}

// ---------- parsing ----------

/// What parsing gives for what the JSON reader made of the document: the
/// config when it is valid, else which of the two stages refused it.
pub open spec fn parses_to(document: Result<Config, String>, r: Result<Config, ParseError>) -> bool {
    match document {
        Err(m) => r == Err::<Config, ParseError>(ParseError::Json(m)),
        Ok(config) => match config_error(config@) {
            None => r == Ok::<Config, ParseError>(config),
            Some(m) => r matches Err(ParseError::Validation(text)) && text@ == m,
        },
    }
}

/// The text after a leading byte order mark, if it has one.
pub open spec fn without_bom(text: Seq<char>) -> Seq<char> {
    if text.len() > 0 && text[0] == '\u{feff}' {
        text.skip(1)
    } else {
        text
    }
}

/// What loading gives for the outcome of parsing.
pub open spec fn loads_to(
    path: Seq<char>,
    parsed: Result<Config, ParseError>,
    r: Result<Config, ConfigError>,
) -> bool {
    match parsed {
        Ok(config) => r == Ok::<Config, ConfigError>(config),
        Err(ParseError::Json(m)) => {
            r matches Err(ConfigError::Parse { path: p, source }) && p@ == path && source == m
        },
        Err(ParseError::Validation(m)) => {
            r matches Err(ConfigError::Validation { path: p, message }) && p@ == path && message
                == m
        },
    }
}

/// A result that reports a failed file operation.
pub open spec fn is_io_error<T>(r: Result<T, ConfigError>, path: Seq<char>, cause: String) -> bool {
    r matches Err(ConfigError::Io { path: p, source }) && p@ == path && source == cause
}

/// What loading the config at `path` gives: `size` is what asking for the
/// size of the file gave, `fetch` reads the file and `read` its JSON.
pub open spec fn load_gives<
    T: FnOnce(&str) -> Result<String, String>,
    P: FnOnce(&str) -> Result<Config, String>,
>(path: &str, size: Result<u64, String>, fetch: T, read: P, r: Result<Config, ConfigError>) -> bool {
    match size {
        Err(cause) => is_io_error(r, path@, cause),
        Ok(n) => if n > MAX_CONFIG_BYTES {
            r matches Err(ConfigError::TooLarge { path: p, size: s }) && p@ == path@ && s == n
        } else {
            exists|fetched: Result<String, String>| #[trigger]
                call_ensures(fetch, (path,), fetched) && match fetched {
                    Err(cause) => is_io_error(r, path@, cause),
                    Ok(text) => exists|
                        json: &str,
                        document: Result<Config, String>,
                        parsed: Result<Config, ParseError>,
                    |
                        json@ == without_bom(text@) && #[trigger] call_ensures(
                            read,
                            (json,),
                            document,
                        ) && #[trigger] parses_to(document, parsed) && loads_to(path@, parsed, r),
                }
        },
    }
}

/// The folder of the config below %LOCALAPPDATA%.
pub const CONFIG_FOLDER: &'static str = "ProjectLauncher";

/// The name of the config file.
pub const CONFIG_NAME: &'static str = "config.json";

/// Where the config lives below the value of %LOCALAPPDATA%.
pub open spec fn default_path(local_app_data: Seq<char>) -> Seq<char> {
    path_below(path_below(local_app_data, CONFIG_FOLDER@), CONFIG_NAME@)
}

/// Whether a path is that of the config below the value of %LOCALAPPDATA%.
/// Where that is a verbatim directory that is normalized, only the end of the
/// path is said.
pub open spec fn is_default_path(local_app_data: Seq<char>, path: Seq<char>) -> bool {
    &&& joins_plainly(local_app_data) ==> path == default_path(local_app_data)
    &&& CONFIG_NAME@.is_suffix_of(path)
}

/// `%LOCALAPPDATA%\ProjectLauncher\config.json`
pub fn config_path(local_app_data: Option<&str>) -> (r: Result<String, ConfigError>)
    ensures
        match local_app_data {
            None => r == Err::<String, ConfigError>(ConfigError::NoLocalAppData),
            Some(base) => r matches Ok(path) && is_default_path(base@, path@),
        },
{
    match local_app_data {
        None => Err(ConfigError::NoLocalAppData),
        Some(base) => {
            proof {
                config_names_are_plain();
                if joins_plainly(base@) {
                    joining_a_name_stays_plain(base@, CONFIG_FOLDER@);
                }
            }
            Ok(join_path(join_path(base, CONFIG_FOLDER).as_str(), CONFIG_NAME))
        },
    }
}

proof fn config_names_are_plain()
    ensures
        is_plain_relative(CONFIG_FOLDER@),
        !CONFIG_FOLDER@.contains('\\'),
        CONFIG_FOLDER@.len() > 4,
        is_plain_relative(CONFIG_NAME@),
{
    reveal_strlit("ProjectLauncher");
    reveal_strlit("config.json");
}

/// Drops one leading byte order mark: Notepad's "UTF-8 with BOM" save adds
/// one and a JSON reader refuses to parse it.
pub fn strip_bom(text: &str) -> (r: &str)
    ensures
        r@ == without_bom(text@),
{
    let n: usize = text.unicode_len();
    if n > 0 && text.get_char(0) == '\u{feff}' {
        let rest = text.substring_char(1, n);
        assert(rest@ =~= text@.skip(1));
        rest
    } else {
        text
    }
}

impl Config {
    /// Accepts what the JSON reader made of a document, when it is valid.
    pub fn checked(document: Result<Config, String>) -> (r: Result<Config, ParseError>)
        ensures
            parses_to(document, r),
    {
        match document {
            Err(m) => Err(ParseError::Json(m)),
            Ok(config) => {
                match config.validate() {
                    Ok(()) => Ok(config),
                    Err(m) => Err(ParseError::Validation(m)),
                }
            },
        }
    }

    /// Parses and validates a config document. `read` is the JSON reader: it
    /// gives the config that the text spells, or says why it spells none.
    pub fn parse<P: FnOnce(&str) -> Result<Config, String>>(json: &str, read: P) -> (r: Result<
        Config,
        ParseError,
    >)
        requires
            call_requires(read, (json,)),
        ensures
            exists|document: Result<Config, String>| #[trigger]
                call_ensures(read, (json,), document) && parses_to(document, r),
    {
        let document = read(json);
        let ghost seen = document;
        let r = Self::checked(document);
        assert(call_ensures(read, (json,), seen) && parses_to(seen, r));
        r
    }

    /// Loads and validates the config at `path`. `size` is what asking for
    /// the file's size gave, `fetch` reads the text of the file at a path,
    /// and `read` is the JSON reader. The size is checked before anything is
    /// read, so a bogus huge file at the config path is never slurped into
    /// memory: only a file within the limit has to be readable.
    pub fn load<T: FnOnce(&str) -> Result<String, String>, P: FnOnce(&str) -> Result<
        Config,
        String,
    >>(path: &str, size: Result<u64, String>, fetch: T, read: P) -> (r: Result<
        Config,
        ConfigError,
    >)
        requires
            size matches Ok(n) && n <= MAX_CONFIG_BYTES ==> call_requires(fetch, (path,)),
            forall|text: String, json: &str|
                #![trigger call_ensures(fetch, (path,), Ok(text)), call_requires(read, (json,))]
                call_ensures(fetch, (path,), Ok(text)) && json@ == without_bom(text@)
                    ==> call_requires(read, (json,)),
        ensures
            load_gives(path, size, fetch, read, r),
    {
        let n: u64 = match size {
            Err(cause) => {
                return Err(ConfigError::Io { path: path.to_owned(), source: cause });
            },
            Ok(n) => n,
        };
        if n > MAX_CONFIG_BYTES {
            return Err(ConfigError::TooLarge { path: path.to_owned(), size: n });
        }
        let fetched = fetch(path);
        let text = match fetched {
            Err(cause) => {
                return Err(ConfigError::Io { path: path.to_owned(), source: cause });
            },
            Ok(text) => text,
        };
        assert(call_ensures(fetch, (path,), Ok::<String, String>(text)));
        let json = strip_bom(text.as_str());
        let document = read(json);
        let ghost seen = document;
        let parsed = Self::checked(document);
        let ghost seen_parsed = parsed;
        assert(call_ensures(read, (json,), seen) && parses_to(seen, seen_parsed));
        match parsed {
            Ok(config) => Ok(config),
            Err(ParseError::Json(source)) => Err(
                ConfigError::Parse { path: path.to_owned(), source },
            ),
            Err(ParseError::Validation(message)) => Err(
                ConfigError::Validation { path: path.to_owned(), message },
            ),
        }
    }

    /// Loads and validates the config from the default location, given the
    /// value of %LOCALAPPDATA%. `size` asks for the size of the file at a
    /// path.
    pub fn load_default<
        S: FnOnce(&str) -> Result<u64, String>,
        T: FnOnce(&str) -> Result<String, String>,
        P: FnOnce(&str) -> Result<Config, String>,
    >(local_app_data: Option<&str>, size: S, fetch: T, read: P) -> (r: Result<
        Config,
        ConfigError,
    >)
        requires
            local_app_data matches Some(base) ==> forall|path: &str|
                is_default_path(base@, path@) ==> #[trigger] call_requires(size, (path,)),
            local_app_data matches Some(base) ==> forall|path: &str, n: u64|
                is_default_path(base@, path@) && #[trigger] call_ensures(size, (path,), Ok(n))
                    && n <= MAX_CONFIG_BYTES ==> call_requires(fetch, (path,)),
            local_app_data matches Some(base) ==> forall|path: &str, text: String, json: &str|
                #![trigger call_ensures(fetch, (path,), Ok(text)), call_requires(read, (json,))]
                is_default_path(base@, path@) && call_ensures(fetch, (path,), Ok(text)) && json@
                    == without_bom(text@) ==> call_requires(read, (json,)),
        ensures
            match local_app_data {
                None => r == Err::<Config, ConfigError>(ConfigError::NoLocalAppData),
                Some(base) => exists|path: &str, n: Result<u64, String>|
                    is_default_path(base@, path@) && #[trigger] call_ensures(size, (path,), n)
                        && load_gives(path, n, fetch, read, r),
            },
    {
        let path = match config_path(local_app_data) {
            Ok(path) => path,
            Err(e) => return Err(e),
        };
        let path = path.as_str();
        let n = size(path);
        let ghost seen = n;
        let r = Self::load(path, n, fetch, read);
        assert(call_ensures(size, (path,), seen) && load_gives(path, seen, fetch, read, r));
        r
    }

    /// The first step of saving to `path`: an invalid config is refused
    /// before anything is written.
    pub fn save(&self, path: &str) -> (r: SaveStep)
        ensures
            match config_error(self@) {
                None => r is Serialize,
                Some(m) => r matches SaveStep::Failed {
                    error: ConfigError::Validation { path: p, message },
                } && p@ == path@ && message@ == m,
            },
    {
        match self.validate() {
            Ok(()) => SaveStep::Serialize,
            Err(message) => SaveStep::Failed {
                error: ConfigError::Validation { path: path.to_owned(), message },
            },
        }
    }
}

// ---------- saving ----------

/// What saving does next. The write goes through a sibling temp file renamed
/// over the target, so a crash mid-write cannot leave a truncated config.
#[derive(Debug)]
pub enum SaveStep {
    /// Turn the config into JSON text.
    Serialize,
    /// Create the directory of the target.
    CreateDirectory,
    /// Write the text to the temp file.
    WriteTemp,
    /// Rename the temp file over the target.
    Rename,
    /// The rename failed for the given cause: remove the temp file, so a
    /// failed save does not leave a stray one next to the real config.
    RemoveTemp { cause: String },
    /// The target holds the new config.
    Saved,
    /// The save is given up; the target is as it was.
    Failed { error: ConfigError },
}

/// The paths that a save works on.
#[derive(Debug)]
pub struct SavePaths {
    pub target: String,
    pub temp: String,
    /// The directory of the target, where it has one.
    pub directory: Option<String>,
}

/// The extension of the temp file.
pub const TEMP_EXTENSION: &'static str = "json.tmp";

impl SavePaths {
    /// The temp file has the path of the target but for its extension, and
    /// is another file.
    pub open spec fn well_formed(self) -> bool {
        &&& extends(self.target@, TEMP_EXTENSION@, self.temp@)
        &&& self.temp@ != self.target@
    }

    /// The paths for saving to `target`, given its directory where it has
    /// one. The temp file is another file wherever the target ends in the
    /// name of one.
    pub fn of(target: &str, directory: Option<String>) -> (r: SavePaths)
        ensures
            r.target@ == target@,
            r.directory == directory,
            extends(target@, TEMP_EXTENSION@, r.temp@),
            has_extension(target@) || has_bare_name(target@) ==> r.well_formed(),
    {
        proof {
            reveal_strlit("json.tmp");
            assert(TEMP_EXTENSION@[4] == '.');
        }
        let temp = with_extension(target, TEMP_EXTENSION);
        proof {
            if has_extension(target@) || has_bare_name(target@) {
                dotted_extension_changes_the_path(target@, TEMP_EXTENSION@, temp@);
            }
        }
        SavePaths { target: target.to_owned(), temp, directory }
    }
}

/// The config at its default location is saved through `config.json.tmp`
/// beside it, on a drive as on a share.
pub proof fn the_config_is_saved_through_its_sibling(local_app_data: Seq<char>, paths: SavePaths)
    requires
        !is_share_or_device(local_app_data) || on_server(local_app_data) || on_verbatim_drive(
            local_app_data,
        ),
        paths.target@ == default_path(local_app_data),
        extends(paths.target@, TEMP_EXTENSION@, paths.temp@),
    ensures
        paths.well_formed(),
        paths.temp@ == default_path(local_app_data) + ".tmp"@,
{
    reveal_strlit("\\");
    reveal_strlit("ProjectLauncher");
    reveal_strlit("config.json");
    reveal_strlit("json.tmp");
    reveal_strlit(".tmp");
    let base = local_app_data;
    let dir = path_below(base, CONFIG_FOLDER@);
    let target = paths.target@;
    last_name_below(dir, CONFIG_NAME@);
    assert(last_dot(CONFIG_NAME@) == 6) by {
        let n = CONFIG_NAME@;
        assert(n.drop_last().drop_last().drop_last().drop_last().last() == '.');
        reveal_with_fuel(last_dot, 6);
    }
    assert(forall|k: int| 0 <= k < base.len() ==> target[k] == base[k]);
    if on_server(base) {
        below_a_server(base, CONFIG_FOLDER@, CONFIG_NAME@);
    }
    assert(is_placed(target));
    assert(has_extension(target));
    assert(TEMP_EXTENSION@[4] == '.');
    dotted_extension_changes_the_path(target, TEMP_EXTENSION@, paths.temp@);
    assert(replaced_extension(target, TEMP_EXTENSION@) =~= target + ".tmp"@);
}

/// The step after `step` ended with `outcome`.
pub open spec fn step_after(
    paths: SavePaths,
    step: SaveStep,
    outcome: Result<(), String>,
    next: SaveStep,
) -> bool {
    match (step, outcome) {
        (SaveStep::Serialize, Ok(())) => if paths.directory is Some {
            next is CreateDirectory
        } else {
            next is WriteTemp
        },
        (SaveStep::Serialize, Err(cause)) => {
            next matches SaveStep::Failed { error: ConfigError::Serialize { path, source } }
                && path@ == paths.target@ && source == cause
        },
        (SaveStep::CreateDirectory, Ok(())) => next is WriteTemp,
        (SaveStep::CreateDirectory, Err(cause)) => {
            let named = match paths.directory {
                Some(directory) => directory@,
                None => paths.target@,
            };
            next matches SaveStep::Failed { error: ConfigError::Io { path, source } } && path@
                == named && source == cause
        },
        (SaveStep::WriteTemp, Ok(())) => next is Rename,
        (SaveStep::WriteTemp, Err(cause)) => {
            next matches SaveStep::Failed { error: ConfigError::Io { path, source } } && path@
                == paths.temp@ && source == cause
        },
        (SaveStep::Rename, Ok(())) => next is Saved,
        (SaveStep::Rename, Err(cause)) => next == SaveStep::RemoveTemp { cause },
        (SaveStep::RemoveTemp { cause }, _) => {
            next matches SaveStep::Failed { error: ConfigError::Io { path, source } } && path@
                == paths.target@ && source == cause
        },
        (SaveStep::Saved, _) => next is Saved,
        (SaveStep::Failed { error }, _) => next == SaveStep::Failed { error },
    }
}

impl SavePaths {
    /// The step after `step` ended with `outcome`. What removing the temp
    /// file gave does not matter: the rename error is the one worth
    /// reporting.
    pub fn next(&self, step: SaveStep, outcome: Result<(), String>) -> (r: SaveStep)
        ensures
            step_after(*self, step, outcome, r),
    {
        match step {
            SaveStep::Serialize => match outcome {
                Ok(()) => {
                    if self.directory.is_some() {
                        SaveStep::CreateDirectory
                    } else {
                        SaveStep::WriteTemp
                    }
                },
                Err(source) => SaveStep::Failed {
                    error: ConfigError::Serialize { path: self.target.clone(), source },
                },
            },
            SaveStep::CreateDirectory => match outcome {
                Ok(()) => SaveStep::WriteTemp,
                Err(source) => {
                    let path = match &self.directory {
                        Some(directory) => directory.clone(),
                        None => self.target.clone(),
                    };
                    SaveStep::Failed { error: ConfigError::Io { path, source } }
                },
            },
            SaveStep::WriteTemp => match outcome {
                Ok(()) => SaveStep::Rename,
                Err(source) => SaveStep::Failed {
                    error: ConfigError::Io { path: self.temp.clone(), source },
                },
            },
            SaveStep::Rename => match outcome {
                Ok(()) => SaveStep::Saved,
                Err(cause) => SaveStep::RemoveTemp { cause },
            },
            SaveStep::RemoveTemp { cause } => SaveStep::Failed {
                error: ConfigError::Io { path: self.target.clone(), source: cause },
            },
            SaveStep::Saved => SaveStep::Saved,
            SaveStep::Failed { error } => SaveStep::Failed { error },
        }
    }
}

/// The run of a save from `step`, with the outcomes that came in.
pub open spec fn save_run(
    paths: SavePaths,
    steps: Seq<SaveStep>,
    outcomes: Seq<Result<(), String>>,
) -> bool {
    &&& steps.len() == outcomes.len() + 1
    &&& forall|i: int|
        0 <= i < outcomes.len() ==> step_after(
            paths,
            #[trigger] steps[i],
            outcomes[i],
            steps[i + 1],
        )
}

/// A save that ends with the target replaced has renamed a temp file that
/// was written whole, of a text that was serialized: none of these steps
/// failed, and the rename is the last one.
pub proof fn saved_only_by_renaming_a_written_file(
    paths: SavePaths,
    steps: Seq<SaveStep>,
    outcomes: Seq<Result<(), String>>,
    n: int,
)
    requires
        save_run(paths, steps, outcomes),
        steps[0] is Serialize,
        0 <= n < steps.len(),
        steps[n] is Saved,
    ensures
        exists|k: int|
            2 <= k < n && #[trigger] steps[k] is Rename && outcomes[k] is Ok && steps[k - 1]
                is WriteTemp && outcomes[k - 1] is Ok && outcomes[0] is Ok && (
            paths.directory is Some ==> steps[1] is CreateDirectory && outcomes[1] is Ok),
    decreases n,
{
    assert(step_after(paths, steps[0], outcomes[0], steps[1]));
    let m = n - 1;
    assert(step_after(paths, steps[m], outcomes[m], steps[m + 1]));
    if steps[m] is Saved {
        saved_only_by_renaming_a_written_file(paths, steps, outcomes, m);
    } else {
        assert(steps[m] is Rename);
        assert(step_after(paths, steps[m - 1], outcomes[m - 1], steps[m - 1 + 1]));
        assert(steps[m - 1] is WriteTemp);
        assert(step_after(paths, steps[m - 2], outcomes[m - 2], steps[m - 2 + 1]));
        if steps[m - 2] is CreateDirectory {
            assert(step_after(paths, steps[m - 3], outcomes[m - 3], steps[m - 3 + 1]));
            assert(steps[m - 3] is Serialize);
            if m - 3 > 0 {
                assert(step_after(paths, steps[m - 4], outcomes[m - 4], steps[m - 4 + 1]));
            }
        } else {
            if m - 2 > 0 {
                assert(step_after(paths, steps[m - 3], outcomes[m - 3], steps[m - 3 + 1]));
            }
        }
        assert(steps[m] is Rename);
    }
}

/// What a step of saving `text` does to the files, by path. A failed write
/// leaves whatever it wrote so far, a failed rename changes nothing.
pub open spec fn step_effect(
    paths: SavePaths,
    text: Seq<char>,
    step: SaveStep,
    outcome: Result<(), String>,
    before: Map<Seq<char>, Seq<char>>,
    after: Map<Seq<char>, Seq<char>>,
) -> bool {
    match step {
        SaveStep::WriteTemp => match outcome {
            Ok(()) => after == before.insert(paths.temp@, text),
            Err(_) => after.remove(paths.temp@) == before.remove(paths.temp@),
        },
        SaveStep::Rename => match outcome {
            Ok(()) => after == before.remove(paths.temp@).insert(
                paths.target@,
                before[paths.temp@],
            ),
            Err(_) => after == before,
        },
        SaveStep::RemoveTemp { .. } => after.remove(paths.temp@) == before.remove(paths.temp@),
        _ => after == before,
    }
}

/// What a save does to the files, step by step.
pub open spec fn save_effects(
    paths: SavePaths,
    text: Seq<char>,
    steps: Seq<SaveStep>,
    outcomes: Seq<Result<(), String>>,
    files: Seq<Map<Seq<char>, Seq<char>>>,
) -> bool {
    &&& files.len() == steps.len()
    &&& forall|i: int|
        0 <= i < outcomes.len() ==> step_effect(
            paths,
            text,
            #[trigger] steps[i],
            outcomes[i],
            files[i],
            files[i + 1],
        )
}

/// A save that is given up has renamed nothing: the target is there with the
/// text that it had, or is missing as before, and so is every file but the
/// temp file. The same holds at each step before the target is replaced, so
/// a crash at any of them leaves the target whole.
pub proof fn a_failed_save_leaves_the_target(
    paths: SavePaths,
    text: Seq<char>,
    steps: Seq<SaveStep>,
    outcomes: Seq<Result<(), String>>,
    files: Seq<Map<Seq<char>, Seq<char>>>,
    n: int,
)
    requires
        paths.well_formed(),
        save_run(paths, steps, outcomes),
        save_effects(paths, text, steps, outcomes, files),
        0 <= n < steps.len(),
        !(steps[n] is Saved),
    ensures
        forall|k: int| 0 <= k < n ==> !((#[trigger] steps[k]) is Rename && outcomes[k] is Ok),
        files[n].remove(paths.temp@) == files[0].remove(paths.temp@),
        files[n].contains_key(paths.target@) == files[0].contains_key(paths.target@),
        files[n][paths.target@] == files[0][paths.target@],
    decreases n,
{
    if n > 0 {
        let m = n - 1;
        assert(step_after(paths, steps[m], outcomes[m], steps[m + 1]));
        assert(step_effect(paths, text, steps[m], outcomes[m], files[m], files[m + 1]));
        a_failed_save_leaves_the_target(paths, text, steps, outcomes, files, m);
        assert(files[n].remove(paths.temp@) =~= files[m].remove(paths.temp@));
    }
    let (now, then) = (files[n].remove(paths.temp@), files[0].remove(paths.temp@));
    assert(now.contains_key(paths.target@) == files[n].contains_key(paths.target@));
    assert(then.contains_key(paths.target@) == files[0].contains_key(paths.target@));
    assert(now[paths.target@] == files[n][paths.target@]);
    assert(then[paths.target@] == files[0][paths.target@]);
}

/// A save that ends with the target replaced has put the new text there, and
/// has left no temp file and every other file as it was.
pub proof fn a_finished_save_replaces_the_target(
    paths: SavePaths,
    text: Seq<char>,
    steps: Seq<SaveStep>,
    outcomes: Seq<Result<(), String>>,
    files: Seq<Map<Seq<char>, Seq<char>>>,
    n: int,
)
    requires
        paths.well_formed(),
        save_run(paths, steps, outcomes),
        save_effects(paths, text, steps, outcomes, files),
        steps[0] is Serialize,
        0 <= n < steps.len(),
        steps[n] is Saved,
    ensures
        files[n] == files[0].remove(paths.temp@).insert(paths.target@, text),
    decreases n,
{
    let m = n - 1;
    assert(step_after(paths, steps[m], outcomes[m], steps[m + 1]));
    assert(step_effect(paths, text, steps[m], outcomes[m], files[m], files[m + 1]));
    if steps[m] is Saved {
        a_finished_save_replaces_the_target(paths, text, steps, outcomes, files, m);
    } else {
        let w = m - 1;
        assert(step_after(paths, steps[w], outcomes[w], steps[w + 1]));
        assert(step_effect(paths, text, steps[w], outcomes[w], files[w], files[w + 1]));
        a_failed_save_leaves_the_target(paths, text, steps, outcomes, files, m);
        assert(files[n] =~= files[0].remove(paths.temp@).insert(paths.target@, text));
    }
}

/// Saving and loading agree on what is a config: what may be saved loads as
/// it is once the reader gives it back, and what may not be saved is refused
/// with the same words when it is loaded.
pub proof fn what_may_be_saved_loads(
    path: Seq<char>,
    config: Config,
    parsed: Result<Config, ParseError>,
    loaded: Result<Config, ConfigError>,
)
    requires
        parses_to(Ok::<Config, String>(config), parsed),
        loads_to(path, parsed, loaded),
    ensures
        match config_error(config@) {
            None => loaded == Ok::<Config, ConfigError>(config),
            Some(m) => loaded matches Err(ConfigError::Validation { path: p, message }) && p@
                == path && message@ == m,
        },
{
}

/// Only a valid config is ever loaded, whatever the file holds and whatever
/// the JSON reader makes of it.
pub proof fn only_valid_configs_load<
    T: FnOnce(&str) -> Result<String, String>,
    P: FnOnce(&str) -> Result<Config, String>,
>(path: &str, size: Result<u64, String>, fetch: T, read: P, r: Result<Config, ConfigError>)
    requires
        load_gives(path, size, fetch, read, r),
    ensures
        r matches Ok(config) ==> valid_config(config@),
{
    if let Ok(config) = r {
        no_error_iff_valid(config@);
    }
}

} // verus!
