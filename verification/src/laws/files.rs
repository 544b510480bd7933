//! The config file: where it lies, how it is read and how it is saved.

use crate::config::Config;
use crate::laws::rules::{kept, may_be_kept};
use crate::number::decimal;
use crate::paths::{
    has_extension, is_separator, join_path, last_dot, last_name, name_starts_behind, path_below,
    replaced_extension,
};
use crate::storage::{
    config_path, is_default_path, load_gives, loads_to, parses_to, strip_bom, without_bom,
    ConfigError, ParseError, SavePaths, SaveStep,
};
use crate::validation::no_error_iff_valid;
use vstd::prelude::*;
use vstd::string::*;

verus! {

// ---------- paths ----------

/// Whether a path starts with `\\?\`.
pub open spec fn is_taken_as_it_stands(s: Seq<char>) -> bool {
    s.len() >= 4 && s[0] == '\\' && s[1] == '\\' && s[2] == '?' && s[3] == '\\'
}

/// Whether nothing has to stand between a directory and what lies in it: the
/// directory is empty, ends in a separator, or is a drive.
pub open spec fn needs_no_separator(dir: Seq<char>) -> bool {
    ||| dir.len() == 0
    ||| dir[dir.len() - 1] == '\\' || dir[dir.len() - 1] == '/'
    ||| dir.len() == 2 && ('a' <= dir[0] <= 'z' || 'A' <= dir[0] <= 'Z') && dir[1] == ':'
}

/// A path is joined to a directory by one backslash, which is left out where
/// the directory needs none. Neither of the two is changed.
pub proof fn paths_are_joined_by_one_separator(dir: &str, relative: &str, r: String)
    requires
        call_ensures(join_path, (dir, relative), r),
        !is_taken_as_it_stands(dir@),
    ensures
        needs_no_separator(dir@) ==> r@ == dir@ + relative@,
        !needs_no_separator(dir@) ==> r@ == dir@ + seq!['\\'] + relative@,
{
    reveal_strlit("\\");
    assert("\\"@ =~= seq!['\\']);
}

/// The config is `ProjectLauncher\config.json` below the local application
/// data, and without that there is none.
pub proof fn the_config_lies_below_the_local_data(
    base: Option<&str>,
    r: Result<String, ConfigError>,
)
    requires
        call_ensures(config_path, (base,), r),
    ensures
        r is Ok <==> base is Some,
        r matches Err(e) ==> e is NoLocalAppData,
        base matches Some(dir) ==> {
            &&& "config.json"@.is_suffix_of(r->Ok_0@)
            &&& !is_taken_as_it_stands(dir@) && needs_no_separator(dir@) ==> r->Ok_0@ == dir@
                + "ProjectLauncher"@ + seq!['\\'] + "config.json"@
            &&& !is_taken_as_it_stands(dir@) && !needs_no_separator(dir@) ==> r->Ok_0@ == dir@
                + seq!['\\'] + "ProjectLauncher"@ + seq!['\\'] + "config.json"@
        },
{
    reveal_strlit("\\");
    reveal_strlit("ProjectLauncher");
    assert("\\"@ =~= seq!['\\']);
    if let Some(dir) = base {
        if !is_taken_as_it_stands(dir@) {
            let folder = path_below(dir@, "ProjectLauncher"@);
            assert(folder.last() == 'r');
            assert(folder.len() > 2);
        }
    }
}

proof fn dot_before(stem: Seq<char>, extension: Seq<char>)
    requires
        !extension.contains('.'),
    ensures
        last_dot(stem + seq!['.'] + extension) == stem.len(),
    decreases extension.len(),
{
    let name = stem + seq!['.'] + extension;
    if extension.len() > 0 {
        assert(extension.contains(extension.last()));
        let rest = extension.drop_last();
        assert forall|i: int| 0 <= i < rest.len() implies rest[i] != '.' by {
            assert(extension.contains(extension[i]));
        }
        dot_before(stem, rest);
        assert(name.drop_last() =~= stem + seq!['.'] + rest);
        assert(name.last() == extension.last());
    } else {
        assert(name.last() == '.');
    }
}

/// A file is saved through another one beside it: it has the same path, but
/// for `json.tmp` in the place of its extension.
pub proof fn files_are_saved_through_a_sibling(
    target: &str,
    directory: Option<String>,
    r: SavePaths,
    front: Seq<char>,
    stem: Seq<char>,
    extension: Seq<char>,
)
    requires
        call_ensures(SavePaths::of, (target, directory), r),
        target@ == front + stem + seq!['.'] + extension,
        front.len() > 0 && (front.last() == '\\' || front.last() == '/'),
        !(target@.len() >= 2 && (target@[0] == '\\' || target@[0] == '/') && (target@[1] == '\\'
            || target@[1] == '/')),
        stem.len() > 0,
        forall|i: int|
            0 <= i < stem.len() ==> #[trigger] stem[i] != '\\' && stem[i] != '/' && stem[i] != ':'
                && stem[i] != '.',
        forall|i: int|
            0 <= i < extension.len() ==> #[trigger] extension[i] != '\\' && extension[i] != '/'
                && extension[i] != ':' && extension[i] != '.',
    ensures
        r.target@ == target@,
        r.directory == directory,
        r.temp@ == front + stem + seq!['.'] + "json.tmp"@,
        r.temp@ != r.target@,
{
    let name = stem + seq!['.'] + extension;
    let path = target@;
    assert(path =~= front + name);
    assert forall|i: int| 0 <= i < name.len() implies !is_separator(#[trigger] name[i]) && name[i]
        != ':' by {
        if i < stem.len() {
            assert(name[i] == stem[i]);
        } else if i > stem.len() {
            assert(name[i] == extension[i - stem.len() - 1]);
        }
    }
    name_starts_behind(front, name);
    assert(last_name(path) =~= name);
    dot_before(stem, extension);
    assert(name[0] == stem[0]);
    assert(has_extension(path));
    assert(replaced_extension(path, "json.tmp"@) =~= front + stem + seq!['.'] + "json.tmp"@);
    reveal_strlit("json.tmp");
    if r.temp@ == path {
        let k = front.len() + stem.len() + 1 + 4;
        assert(r.temp@[k as int] == '.');
        assert(path[k as int] == extension[4]);
    }
}

/// A file without an extension is saved through one beside it that has
/// `json.tmp` for its extension.
pub proof fn bare_files_are_saved_through_a_sibling(
    target: &str,
    directory: Option<String>,
    r: SavePaths,
    front: Seq<char>,
    name: Seq<char>,
)
    requires
        call_ensures(SavePaths::of, (target, directory), r),
        target@ == front + name,
        front.len() > 0 && (front.last() == '\\' || front.last() == '/'),
        !(target@.len() >= 2 && (target@[0] == '\\' || target@[0] == '/') && (target@[1] == '\\'
            || target@[1] == '/')),
        !target@.contains('.'),
        name.len() > 0,
        forall|i: int|
            0 <= i < name.len() ==> #[trigger] name[i] != '\\' && name[i] != '/' && name[i] != ':',
    ensures
        r.target@ == target@,
        r.directory == directory,
        r.temp@ == target@ + seq!['.'] + "json.tmp"@,
{
    name_starts_behind(front, name);
    assert(last_name(target@) =~= name);
}

// ---------- reading ----------

/// Whether a text is another one without one byte order mark at its start.
pub open spec fn is_without_mark(text: Seq<char>, rest: Seq<char>) -> bool {
    if text.len() > 0 && text[0] as int == 0xFEFF {
        text == seq!['\u{feff}'] + rest
    } else {
        rest == text
    }
}

/// One byte order mark at the start is dropped, and nothing else.
pub proof fn one_mark_is_dropped(text: &str, r: &str)
    requires
        call_ensures(strip_bom, (text,), r),
    ensures
        is_without_mark(text@, r@),
{
    marks(text@);
}

proof fn marks(text: Seq<char>)
    ensures
        is_without_mark(text, without_bom(text)),
{
    if text.len() > 0 && text[0] as int == 0xFEFF {
        assert(text[0] == '\u{feff}');
        assert(text =~= seq!['\u{feff}'] + text.skip(1));
    }
}

/// What the reader gave is taken exactly when it is a valid config, and as it
/// is; a reader's failure and an invalid config are told apart.
pub proof fn only_valid_documents_are_taken(
    document: Result<Config, String>,
    r: Result<Config, ParseError>,
)
    requires
        call_ensures(Config::checked, (document,), r),
    ensures
        r is Ok <==> document is Ok && may_be_kept(document->Ok_0),
        r matches Ok(config) ==> document == Ok::<Config, String>(config),
        document matches Err(m) ==> r == Err::<Config, ParseError>(ParseError::Json(m)),
        document is Ok && r is Err ==> r->Err_0 is Validation,
{
    if let Ok(config) = document {
        no_error_iff_valid(config@);
        kept(config);
    }
}

/// A file is read only when it has a mebibyte at most, and then it is what
/// the reader makes of its text without a mark, where that is a valid config.
/// Each failure names the path.
pub proof fn files_are_read_within_a_mebibyte<
    T: FnOnce(&str) -> Result<String, String>,
    P: FnOnce(&str) -> Result<Config, String>,
>(path: &str, size: Result<u64, String>, fetch: T, read: P, r: Result<Config, ConfigError>)
    requires
        call_ensures(Config::load::<T, P>, (path, size, fetch, read), r),
    ensures
        match r {
            Ok(config) => {
                &&& may_be_kept(config)
                &&& size matches Ok(n) && n <= 1024 * 1024
                &&& exists|text: String, json: &str|
                    #[trigger] call_ensures(fetch, (path,), Ok::<String, String>(text))
                        && is_without_mark(text@, json@) && #[trigger] call_ensures(
                        read,
                        (json,),
                        Ok::<Config, String>(config),
                    )
            },
            Err(ConfigError::Io { path: p, source }) => p@ == path@ && (size == Err::<u64, String>(
                source,
            ) || call_ensures(fetch, (path,), Err::<String, String>(source))),
            Err(ConfigError::TooLarge { path: p, size: n }) => p@ == path@ && size == Ok::<
                u64,
                String,
            >(n) && n > 1024 * 1024,
            Err(ConfigError::Parse { path: p, source }) => p@ == path@ && exists|
                text: String,
                json: &str,
            |
                #[trigger] call_ensures(fetch, (path,), Ok::<String, String>(text))
                    && is_without_mark(text@, json@) && #[trigger] call_ensures(
                    read,
                    (json,),
                    Err::<Config, String>(source),
                ),
            Err(ConfigError::Validation { path: p, .. }) => p@ == path@,
            Err(_) => false,
        },
        size matches Ok(n) && n > 1024 * 1024 ==> r is Err && r->Err_0 is TooLarge,
        size is Err ==> r is Err && r->Err_0 is Io,
{
    if size is Ok && size->Ok_0 <= 1024 * 1024 {
        let fetched = choose|fetched: Result<String, String>| #[trigger]
            call_ensures(fetch, (path,), fetched) && match fetched {
                Err(cause) => crate::storage::is_io_error(r, path@, cause),
                Ok(text) => exists|
                    json: &str,
                    document: Result<Config, String>,
                    parsed: Result<Config, ParseError>,
                |
                    json@ == without_bom(text@) && #[trigger] call_ensures(
                        read,
                        (json,),
                        document,
                    ) && #[trigger] parses_to(document, parsed) && loads_to(path@, parsed, r),
            };
        if let Ok(text) = fetched {
            marks(text@);
            let (json, document, parsed) = choose|
                json: &str,
                document: Result<Config, String>,
                parsed: Result<Config, ParseError>,
            |
                json@ == without_bom(text@) && #[trigger] call_ensures(read, (json,), document)
                    && #[trigger] parses_to(document, parsed) && loads_to(path@, parsed, r);
            assert(call_ensures(fetch, (path,), Ok::<String, String>(text)));
            assert(call_ensures(read, (json,), document));
        }
    }
    if let Ok(config) = r {
        no_error_iff_valid(config@);
        kept(config);
    }
}

// ---------- saving ----------

/// Saving starts exactly with a valid config; another is refused before
/// anything is written, with the path of the file.
pub proof fn only_valid_configs_are_saved(config: &Config, path: &str, r: SaveStep)
    requires
        call_ensures(Config::save, (config, path), r),
    ensures
        r is Serialize <==> may_be_kept(*config),
        !may_be_kept(*config) ==> {
            r matches SaveStep::Failed { error: ConfigError::Validation { path: p, .. } } && p@
                == path@
        },
{
    no_error_iff_valid(config@);
    kept(*config);
}

/// A save goes by its steps in order: the text, the directory where there is
/// one, the other file, and the renaming. A failure ends it, after the other
/// file is removed where that was written; the target is never written to.
pub proof fn saving_goes_by_its_steps(
    paths: &SavePaths,
    step: SaveStep,
    outcome: Result<(), String>,
    r: SaveStep,
)
    requires
        call_ensures(SavePaths::next, (paths, step, outcome), r),
    ensures
        outcome is Ok ==> {
            &&& step is Serialize && paths.directory is Some ==> r is CreateDirectory
            &&& step is Serialize && paths.directory is None ==> r is WriteTemp
            &&& step is CreateDirectory ==> r is WriteTemp
            &&& step is WriteTemp ==> r is Rename
            &&& step is Rename ==> r is Saved
        },
        outcome matches Err(cause) ==> {
            &&& step is Serialize ==> r is Failed && r->error is Serialize
            &&& step is CreateDirectory || step is WriteTemp ==> r is Failed && r->error is Io
            &&& step is WriteTemp ==> r->error->Io_path@ == paths.temp@
            &&& step is Rename ==> r == (SaveStep::RemoveTemp { cause })
        },
        step matches SaveStep::RemoveTemp { cause } ==> r is Failed && r->error is Io
            && r->error->Io_path@ == paths.target@ && r->error->Io_source == cause,
        step is Saved ==> r is Saved,
        step matches SaveStep::Failed { error } ==> r == (SaveStep::Failed { error }),
{
}

/// What is said of a file names the file and the cause.
pub proof fn errors_name_the_file(e: &ConfigError, r: String)
    requires
        call_ensures(ConfigError::message, (e,), r),
    ensures
        match *e {
            ConfigError::NoLocalAppData => {
                r@ == "%LOCALAPPDATA% is not set; cannot locate config.json"@
            },
            ConfigError::Io { path, source } => {
                r@ == "cannot read config file "@ + path@ + ": "@ + source@
            },
            ConfigError::TooLarge { path, size } => {
                r@ == "config file "@ + path@ + " is too large ("@ + decimal(size as nat)
                    + " bytes; maximum is "@ + decimal(1_048_576) + ")"@
            },
            ConfigError::Parse { path, source } => {
                r@ == "config file "@ + path@ + " is not valid JSON: "@ + source@
            },
            ConfigError::Serialize { path, source } => {
                r@ == "cannot serialize config for "@ + path@ + ": "@ + source@
            },
            ConfigError::Validation { path, message } => {
                r@ == "config file "@ + path@ + " is invalid: "@ + message@
            },
        },
{
}

/// A document that is read is taken as `checked` takes it, and what is said of
/// one that is refused is what was found.
pub proof fn documents_are_read_and_checked<P: FnOnce(&str) -> Result<Config, String>>(
    json: &str,
    read: P,
    r: Result<Config, ParseError>,
    e: &ParseError,
    text: String,
)
    requires
        call_ensures(Config::parse::<P>, (json, read), r),
        call_ensures(ParseError::message, (e,), text),
    ensures
        r matches Ok(config) ==> may_be_kept(config) && call_ensures(
            read,
            (json,),
            Ok::<Config, String>(config),
        ),
        r matches Err(ParseError::Json(m)) ==> call_ensures(
            read,
            (json,),
            Err::<Config, String>(m),
        ),
        match *e {
            ParseError::Json(m) => text@ == m@,
            ParseError::Validation(m) => text@ == m@,
        },
{
    if let Ok(config) = r {
        no_error_iff_valid(config@);
        kept(config);
    }
}

/// Without local application data nothing is loaded; with it only a file at
/// the path of the config is, and only a valid config.
pub proof fn the_config_is_loaded_from_its_place<
    S: FnOnce(&str) -> Result<u64, String>,
    T: FnOnce(&str) -> Result<String, String>,
    P: FnOnce(&str) -> Result<Config, String>,
>(base: Option<&str>, size: S, fetch: T, read: P, r: Result<Config, ConfigError>)
    requires
        call_ensures(Config::load_default::<S, T, P>, (base, size, fetch, read), r),
    ensures
        base is None ==> r == Err::<Config, ConfigError>(ConfigError::NoLocalAppData),
        base matches Some(dir) ==> exists|path: &str, n: Result<u64, String>|
            "config.json"@.is_suffix_of(path@) && (!is_taken_as_it_stands(dir@)
                && !needs_no_separator(dir@) ==> path@ == dir@ + seq!['\\'] + "ProjectLauncher"@
                + seq!['\\'] + "config.json"@) && #[trigger] call_ensures(size, (path,), n) && (
            n is Ok && n->Ok_0 > 1024 * 1024 ==> r is Err && r->Err_0 is TooLarge),
        r matches Ok(config) ==> may_be_kept(config),
{
    reveal_strlit("\\");
    reveal_strlit("ProjectLauncher");
    assert("\\"@ =~= seq!['\\']);
    if let Some(dir) = base {
        let (path, n) = choose|path: &str, n: Result<u64, String>|
            is_default_path(dir@, path@) && #[trigger] call_ensures(size, (path,), n) && load_gives(
                path,
                n,
                fetch,
                read,
                r,
            );
        assert(call_ensures(size, (path,), n));
        let folder = path_below(dir@, "ProjectLauncher"@);
        assert(folder.last() == 'r');
        assert(folder.len() > 2);
        if let Ok(config) = r {
            no_error_iff_valid(config@);
            kept(config);
        }
    }
}

} // verus!
