use crate::error::{Error, SQLITE_OK, SQLITE_OK_LOAD_PERMANENTLY};
use vstd::prelude::*;

verus! {

/// The first engine version that accepts `SQLITE_OK_LOAD_PERMANENTLY`.
pub const PERSISTENT_LOAD_VERSION: i32 = 3014000;

/// One directive given to an extension entry point.
#[derive(Clone, Debug, PartialEq, Eq)]
pub enum ExtAttr {
    /// Export the entry point under this symbol.
    Export(String),
    /// Ask the engine to keep the extension loaded.
    Persistent,
}

/// A configuration of an entry point that cannot be built.
#[derive(Clone, Copy, Debug, PartialEq, Eq)]
pub enum ConfigError {
    /// More than one `Export` directive.
    DuplicateExport,
    /// `Persistent` without an `Export`: only an exported entry point can be loaded
    /// permanently.
    UnexportedPersistent,
    /// The directive list does not parse; holds the position of the offending token.
    Unexpected(usize),
}

impl ConfigError {
    /// The message describing this error.
    pub fn message(&self) -> (r: &'static str)
        ensures
            r@ == match self {
                ConfigError::DuplicateExport => "export specified multiple times"@,
                ConfigError::UnexportedPersistent => "unexported extension cannot be persistent"@,
                ConfigError::Unexpected(_) => "expected `export = <ident>` or `persistent`"@,
            },
    {
        match self {
            ConfigError::DuplicateExport => "export specified multiple times",
            ConfigError::UnexportedPersistent => "unexported extension cannot be persistent",
            ConfigError::Unexpected(_) => "expected `export = <ident>` or `persistent`",
        }
    }
}

/// One token of an entry point's directive list.
#[derive(Clone, Debug, PartialEq, Eq)]
pub enum AttrToken {
    Ident(String),
    Punct(char),
    /// Any other token: a literal or a group.
    Other,
}

/// `t` is the identifier `w`.
pub open spec fn is_word(t: AttrToken, w: Seq<char>) -> bool {
    t matches AttrToken::Ident(s) && s@ == w
}

/// Prepends `d` to a successful parse.
pub open spec fn prepend(d: ExtAttr, r: Result<Seq<ExtAttr>, usize>) -> Result<Seq<ExtAttr>, usize> {
    match r {
        Ok(ds) => Ok(seq![d] + ds),
        Err(p) => Err(p),
    }
}

/// The directive `d` ended at position `j`: the list ends there, or a comma follows
/// and the rest of the list starts after it.
pub open spec fn parse_after(ts: Seq<AttrToken>, j: int, d: ExtAttr) -> Result<Seq<ExtAttr>, usize>
    decreases ts.len() - j, 0int,
{
    if j >= ts.len() {
        Ok(seq![d])
    } else if ts[j] == AttrToken::Punct(',') {
        prepend(d, parse_from(ts, j + 1))
    } else {
        Err(j as usize)
    }
}

/// The comma-separated directives of `ts` from position `i` on, a trailing comma
/// allowed; each is `export = <ident>` or `persistent`. On failure, the position of
/// the first token that does not fit.
pub open spec fn parse_from(ts: Seq<AttrToken>, i: int) -> Result<Seq<ExtAttr>, usize>
    decreases ts.len() - i, 1int,
{
    if i < 0 || i >= ts.len() {
        Ok(Seq::empty())
    } else if is_word(ts[i], "persistent"@) {
        parse_after(ts, i + 1, ExtAttr::Persistent)
    } else if is_word(ts[i], "export"@) {
        if i + 1 < ts.len() && ts[i + 1] == AttrToken::Punct('=') {
            if i + 2 < ts.len() && ts[i + 2] is Ident {
                parse_after(ts, i + 3, ExtAttr::Export(ts[i + 2]->Ident_0))
            } else {
                Err((i + 2) as usize)
            }
        } else {
            Err((i + 1) as usize)
        }
    } else {
        Err(i as usize)
    }
}

/// Combines the directives read so far with the parse of the rest.
pub open spec fn after_prefix(acc: Seq<ExtAttr>, r: Result<Seq<ExtAttr>, usize>) -> Result<
    Seq<ExtAttr>,
    usize,
> {
    match r {
        Ok(ds) => Ok(acc + ds),
        Err(p) => Err(p),
    }
}

/// Reads the directive list of an entry point; see `parse_from`.
pub fn parse_directives(tokens: &Vec<AttrToken>) -> (r: Result<Vec<ExtAttr>, ConfigError>)
    ensures
        match parse_from(tokens@, 0) {
            Ok(ds) => r matches Ok(v) && v@ == ds,
            Err(p) => r == Err::<Vec<ExtAttr>, ConfigError>(ConfigError::Unexpected(p)),
        },
{
    let export_word = String::from_str("export");
    let persistent_word = String::from_str("persistent");
    let mut out: Vec<ExtAttr> = Vec::new();
    let n = tokens.len();
    let mut i: usize = 0;
    while i < n
        invariant
            n == tokens@.len(),
            i <= n,
            export_word@ == "export"@,
            persistent_word@ == "persistent"@,
            parse_from(tokens@, 0) == after_prefix(out@, parse_from(tokens@, i as int)),
        decreases n - i,
    {
        let ghost before = out@;
        let d = match &tokens[i] {
            AttrToken::Ident(w) => {
                if *w == persistent_word {
                    i = i + 1;
                    ExtAttr::Persistent
                } else if *w == export_word {
                    let eq = i + 1 < n && match &tokens[i + 1] {
                        AttrToken::Punct(c) => *c == '=',
                        _ => false,
                    };
                    if !eq {
                        return Err(ConfigError::Unexpected(i + 1));
                    }
                    if i + 2 >= n {
                        return Err(ConfigError::Unexpected(i + 2));
                    }
                    match &tokens[i + 2] {
                        AttrToken::Ident(v) => {
                            i = i + 3;
                            ExtAttr::Export(v.clone())
                        },
                        _ => {
                            return Err(ConfigError::Unexpected(i + 2));
                        },
                    }
                } else {
                    return Err(ConfigError::Unexpected(i));
                }
            },
            _ => {
                return Err(ConfigError::Unexpected(i));
            },
        };
        out.push(d);
        if i < n {
            let comma = match &tokens[i] {
                AttrToken::Punct(c) => *c == ',',
                _ => false,
            };
            if !comma {
                return Err(ConfigError::Unexpected(i));
            }
            i = i + 1;
            proof {
                match parse_from(tokens@, i as int) {
                    Ok(ds) => {
                        assert(before + (seq![d] + ds) =~= out@ + ds);
                    },
                    Err(_) => {},
                }
            }
        } else {
            assert(before + seq![d] =~= out@ + Seq::<ExtAttr>::empty());
        }
    }
    Ok(out)
}

/// How the C entry point of an extension is generated.
#[derive(Clone, Debug, PartialEq, Eq)]
pub struct EntryPoint {
    /// The name of the user's init function.
    pub name: String,
    /// The symbol of the C entry point.
    pub c_name: String,
    /// Whether the C entry point is exported under `c_name`.
    pub exported: bool,
    /// Whether the extension asks to stay loaded.
    pub persistent: bool,
}

/// The number of `Export` directives in `ds`.
pub open spec fn export_count(ds: Seq<ExtAttr>) -> nat
    decreases ds.len(),
{
    if ds.len() == 0 {
        0
    } else {
        export_count(ds.drop_last()) + if ds.last() is Export {
            1nat
        } else {
            0nat
        }
    }
}

/// The symbol of the first `Export` directive in `ds`.
pub open spec fn first_export(ds: Seq<ExtAttr>) -> Option<Seq<char>>
    decreases ds.len(),
{
    if ds.len() == 0 {
        None
    } else {
        match first_export(ds.drop_last()) {
            Some(n) => Some(n),
            None => match ds.last() {
                ExtAttr::Export(s) => Some(s@),
                ExtAttr::Persistent => None,
            },
        }
    }
}

/// Whether `ds` holds a `Persistent` directive.
pub open spec fn has_persistent(ds: Seq<ExtAttr>) -> bool {
    exists|i: int| 0 <= i < ds.len() && ds[i] is Persistent
}

/// What an entry point for init function `name` with directives `ds` is: an error
/// for a second export, then for persistence without export; otherwise the export
/// symbol, or `<name>_entry` for an entry point that is not exported.
pub open spec fn configure_spec(name: Seq<char>, ds: Seq<ExtAttr>) -> Result<
    (Seq<char>, bool, bool),
    ConfigError,
> {
    if export_count(ds) > 1 {
        Err(ConfigError::DuplicateExport)
    } else if has_persistent(ds) && first_export(ds) is None {
        Err(ConfigError::UnexportedPersistent)
    } else {
        match first_export(ds) {
            Some(s) => Ok((s, true, has_persistent(ds))),
            None => Ok((name + "_entry"@, false, false)),
        }
    }
}

/// Asking for persistence without naming an export is refused when the entry point
/// is configured, whatever the other directives are.
pub proof fn lemma_persistent_needs_export(name: Seq<char>, ds: Seq<ExtAttr>)
    requires
        has_persistent(ds),
        export_count(ds) == 0,
    ensures
        configure_spec(name, ds) == Err::<(Seq<char>, bool, bool), ConfigError>(
            ConfigError::UnexportedPersistent,
        ),
{
    lemma_first_export_count(ds);
}

proof fn lemma_first_export_count(ds: Seq<ExtAttr>)
    ensures
        first_export(ds) is None <==> export_count(ds) == 0,
    decreases ds.len(),
{
    if ds.len() > 0 {
        lemma_first_export_count(ds.drop_last());
    }
}

/// Builds the entry point of init function `name` from its directives.
pub fn configure(name: &str, directives: &Vec<ExtAttr>) -> (r: Result<EntryPoint, ConfigError>)
    ensures
        match configure_spec(name@, directives@) {
            Ok((c, e, p)) => r matches Ok(ep) && ep.name@ == name@ && ep.c_name@ == c
                && ep.exported == e && ep.persistent == p,
            Err(err) => r == Err::<EntryPoint, ConfigError>(err),
        },
{
    let mut export: Option<String> = None;
    let mut persistent = false;
    let mut i: usize = 0;
    while i < directives.len()
        invariant
            i <= directives@.len(),
            export_count(directives@.subrange(0, i as int)) <= 1,
            match export {
                Some(s) => first_export(directives@.subrange(0, i as int)) == Some(s@),
                None => first_export(directives@.subrange(0, i as int)) is None,
            },
            persistent == has_persistent(directives@.subrange(0, i as int)),
        decreases directives@.len() - i,
    {
        let ghost prefix = directives@.subrange(0, i as int);
        let ghost next = directives@.subrange(0, i + 1);
        assert(next.drop_last() =~= prefix);
        proof {
            lemma_first_export_count(prefix);
        }
        match &directives[i] {
            ExtAttr::Export(value) => {
                if export.is_some() {
                    proof {
                        assert(export_count(next) == 2);
                        lemma_export_count_prefix(directives@, i + 1);
                    }
                    return Err(ConfigError::DuplicateExport);
                }
                export = Some(value.clone());
            },
            ExtAttr::Persistent => {
                persistent = true;
            },
        }
        proof {
            if has_persistent(next) && !has_persistent(prefix) {
                let k = choose|k: int| 0 <= k < next.len() && next[k] is Persistent;
                assert(k == i);
            }
            if has_persistent(prefix) {
                let k = choose|k: int| 0 <= k < prefix.len() && prefix[k] is Persistent;
                assert(next[k] is Persistent);
            }
        }
        i = i + 1;
    }
    assert(directives@.subrange(0, i as int) =~= directives@);
    proof {
        lemma_first_export_count(directives@);
    }
    let (c_name, exported) = match export {
        Some(s) => (s, true),
        None => {
            if persistent {
                return Err(ConfigError::UnexportedPersistent);
            }
            let mut s = name.to_owned();
            s.append("_entry");
            (s, false)
        },
    };
    Ok(EntryPoint { name: name.to_owned(), c_name, exported, persistent })
}

proof fn lemma_export_count_prefix(ds: Seq<ExtAttr>, j: int)
    requires
        0 <= j <= ds.len(),
    ensures
        export_count(ds.subrange(0, j)) <= export_count(ds),
    decreases ds.len() - j,
{
    if j < ds.len() {
        lemma_export_count_prefix(ds, j + 1);
        assert(ds.subrange(0, j + 1).drop_last() =~= ds.subrange(0, j));
    } else {
        assert(ds.subrange(0, j) =~= ds);
    }
}

/// The code an entry point returns after its init function succeeded: plain OK, or,
/// for a persistent extension, OK_LOAD_PERMANENTLY on engines that accept it and plain
/// OK on older ones, so that the load still succeeds there.
pub open spec fn load_result_spec(persistent: bool, engine_version: i32) -> i32 {
    if persistent && engine_version >= PERSISTENT_LOAD_VERSION {
        SQLITE_OK_LOAD_PERMANENTLY
    } else {
        SQLITE_OK
    }
}

/// See `load_result_spec`.
pub fn load_result(persistent: bool, engine_version: i32) -> (r: i32)
    ensures
        r == load_result_spec(persistent, engine_version),
{
    if persistent && engine_version >= PERSISTENT_LOAD_VERSION {
        SQLITE_OK_LOAD_PERMANENTLY
    } else {
        SQLITE_OK
    }
}

impl EntryPoint {
    /// What the C entry point hands back to the engine once the init function
    /// returned `init`: on success the load result and no message; on failure the
    /// error's status code and, where a message slot was supplied, its message.
    pub fn status(&self, init: &Result<(), Error>, engine_version: i32, want_message: bool) -> (r: (
        i32,
        Option<Vec<u8>>,
    ))
        ensures
            init is Ok ==> r.0 == load_result_spec(self.persistent, engine_version) && r.1 is None,
            init is Err ==> r.0 == init->Err_0.code_spec() && (r.1 is Some <==> want_message
                && !(init->Err_0 is Sqlite)),
            init is Err && r.1 is Some ==> r.1.unwrap()@ == init->Err_0.c_message(),
    {
        match init {
            Ok(()) => (load_result(self.persistent, engine_version), None),
            Err(e) => e.into_sqlite(want_message),
        }
    }
}

/// The characters of `s` that are lowercase ASCII letters, in order.
pub open spec fn lowercase_letters(s: Seq<char>) -> Seq<char> {
    s.filter(|c: char| 'a' <= c && c <= 'z')
}

/// The pattern of one character that is not a lowercase ASCII letter.
pub open spec fn non_lowercase_class() -> Seq<char> {
    seq!['[', '^', 'a', '-', 'z', ']']
}

/// What `str::to_lowercase` returns for `s`.
pub uninterp spec fn lower_of(s: Seq<char>) -> Seq<char>;

/// Relies on `str::to_lowercase`: the result depends on the characters alone.
#[verifier::external_body]
fn lowercase(s: &str) -> (r: String)
    ensures
        r@ == lower_of(s@),
{
    s.to_lowercase()
}

/// Relies on regex's `Regex::new` and `Regex::replace_all`: the class `[^a-z]` is a
/// valid pattern, and replacing each of its matches by nothing keeps exactly the
/// characters `a` to `z`.
#[verifier::external_body]
fn remove_matches(pattern: &str, s: &str) -> (r: String)
    requires
        pattern@ == non_lowercase_class(),
    ensures
        r@ == lowercase_letters(s@),
{
    regex::Regex::new(pattern).unwrap().replace_all(s, "").into_owned()
}

/// The export symbol for a lowercased module name.
pub open spec fn symbol_text(lowered: Seq<char>) -> Seq<char> {
    "sqlite3_"@ + lowercase_letters(lowered) + "_init"@
}

/// The export symbol derived from an already lowercased module name: `sqlite3_`,
/// its lowercase ASCII letters, `_init`.
pub fn symbol_from_lowered(lowered: &str) -> (r: String)
    ensures
        r@ == symbol_text(lowered@),
{
    let pattern = "[^a-z]";
    proof {
        reveal_strlit("[^a-z]");
    }
    assert(pattern@ =~= non_lowercase_class());
    let letters = remove_matches(pattern, lowered);
    let mut r = String::from_str("sqlite3_");
    r.append(letters.as_str());
    r.append("_init");
    r
}

/// The export symbol derived from a module name: the name is lowercased, every
/// character but `a` to `z` is dropped, and the rest is written `sqlite3_<rest>_init`.
pub fn export_symbol(module_name: &str) -> (r: String)
    ensures
        r@ == symbol_text(lower_of(module_name@)),
{
    let lowered = lowercase(module_name);
    symbol_from_lowered(lowered.as_str())
}

} // verus!
