//! Where the settings live, and whether the start-with-Windows entry of the
//! registry matches the settings.
use vstd::prelude::*;

use crate::text::{decimal, lemma_decimal_digits, lemma_decimal_injective, push_decimal, str_eq};

verus! {

/// A path separator on either platform.
pub open spec fn is_separator(c: char) -> bool {
    c == '/' || c == '\\'
}

/// A path component without separators or a drive prefix, and neither `.`
/// nor `..`.
pub open spec fn plain_component(part: Seq<char>) -> bool {
    &&& part.len() > 0
    &&& !part.contains('/')
    &&& !part.contains('\\')
    &&& !part.contains(':')
    &&& part != seq!['.']
    &&& part != seq!['.', '.']
}

/// Two separators followed by `?` or `.`: how Windows verbatim and device
/// paths begin.
pub open spec fn special_prefix(base: Seq<char>) -> bool {
    base.len() >= 3 && is_separator(base[0]) && is_separator(base[1]) && (base[2] == '?' || base[2]
        == '.')
}

/// A drive letter alone, such as `C:`.
pub open spec fn bare_drive(base: Seq<char>) -> bool {
    base.len() == 2 && base[1] == ':'
}

/// Nothing, or one separator.
pub open spec fn separator_or_nothing(sep: Seq<char>) -> bool {
    sep.len() == 0 || (sep.len() == 1 && is_separator(sep[0]))
}

/// A base after which every platform adds a separator: not empty, not
/// ending in a separator, not a drive letter alone.
pub open spec fn needs_separator(base: Seq<char>) -> bool {
    base.len() > 0 && !is_separator(base.last()) && !bare_drive(base)
}

/// `joined` is `base`, then nothing or one separator (one whenever the base
/// needs one), then `part`.
pub open spec fn joined_path(base: Seq<char>, part: Seq<char>, joined: Seq<char>) -> bool {
    exists|sep: Seq<char>|
        separator_or_nothing(sep) && (needs_separator(base) ==> sep.len() == 1) && joined == base + sep
            + part
}

/// The path `base` joined with the relative path `part`.
///
/// Calls `std::path::Path::join`. Its contract claims what the standard
/// library documents of `PathBuf::push` for a relative `part` without a
/// prefix, on a base that is not a Windows verbatim or device path: `part`
/// is appended after the platform's separator when the base does not end in
/// a separator, and a bare drive such as `C:` gets none. Which of the two
/// separators the platform uses, whether one is added after a trailing
/// backslash on Unix, and the result on a verbatim base (where Windows
/// removes `.` and `..` components) are left unsaid.
#[verifier::external_body]
fn join_path(base: &str, part: &str) -> (r: String)
    requires
        plain_component(part@),
    ensures
        !special_prefix(base@) ==> joined_path(base@, part@, r@),
{
    std::path::Path::new(base).join(part).to_string_lossy().into_owned()
}

/// The settings file under the application data folder `appdata`: the
/// file "settings.json" in the folder "reliquary-archiver", each after the
/// platform's separator (none after an `appdata` that already ends in a
/// separator).
pub fn get_settings_path(appdata: &str) -> (r: String)
    ensures
        !special_prefix(appdata@) ==> exists|s1: Seq<char>, s2: Seq<char>|
            {
                &&& separator_or_nothing(s1)
                &&& needs_separator(appdata@) ==> s1.len() == 1
                &&& s2.len() == 1 && is_separator(s2[0])
                &&& r@ == appdata@ + s1 + "reliquary-archiver"@ + s2 + "settings.json"@
            },
{
    proof {
        reveal_strlit("reliquary-archiver");
        reveal_strlit("settings.json");
        assert("reliquary-archiver"@.len() == 18);
        assert("settings.json"@.len() == 13);
        assert("reliquary-archiver"@ != seq!['.']);
        assert("reliquary-archiver"@ != seq!['.', '.']);
        assert("settings.json"@ != seq!['.']);
        assert("settings.json"@ != seq!['.', '.']);
    }
    let folder = join_path(appdata, "reliquary-archiver");
    let r = join_path(folder.as_str(), "settings.json");
    proof {
        if !special_prefix(appdata@) {
            let part = "reliquary-archiver"@;
            let s1 = choose|sep: Seq<char>|
                separator_or_nothing(sep) && (needs_separator(appdata@) ==> sep.len() == 1)
                    && folder@ == appdata@ + sep + part;
            let f = folder@;
            assert(part[0] == 'r' && part[1] == 'e' && part[2] == 'l');
            assert(f.len() >= 18);
            assert(f.last() == part.last());
            assert(part.last() == 'r');
            assert(!special_prefix(f)) by {
                if appdata@.len() >= 3 {
                    assert(f[0] == appdata@[0] && f[1] == appdata@[1] && f[2] == appdata@[2]);
                } else if 2 < appdata@.len() + s1.len() {
                    assert(f[2] == s1[2 - appdata@.len()]);
                } else {
                    assert(f[2] == part[2 - appdata@.len() - s1.len()]);
                }
            }
            assert(needs_separator(f));
            let s2 = choose|sep: Seq<char>|
                separator_or_nothing(sep) && (needs_separator(f) ==> sep.len() == 1) && r@ == f + sep
                    + "settings.json"@;
            assert(r@ == appdata@ + s1 + "reliquary-archiver"@ + s2 + "settings.json"@);
        }
    }
    r
}

/// The extension of the temporary file a save writes before it replaces
/// the settings file: unique per process (`pid`) and per save (`counter`),
/// so that saves never write the same file.
pub fn temp_settings_extension(pid: u32, counter: u64) -> (r: String)
    ensures
        r@ == temp_extension(pid as nat, counter as nat),
{
    let mut r = String::from_str("json.");
    push_decimal(&mut r, pid as u64);
    r.append(".");
    push_decimal(&mut r, counter);
    r.append(".tmp");
    proof {
        reveal_strlit("json.");
        reveal_strlit(".");
        reveal_strlit(".tmp");
    }
    r
}

/// The extension of a save's temporary file, as a spec value.
pub open spec fn temp_extension(pid: nat, counter: nat) -> Seq<char> {
    "json."@ + decimal(pid) + "."@ + decimal(counter) + ".tmp"@
}

proof fn lemma_split_at_dot(a: Seq<char>, b: Seq<char>, c: Seq<char>, d: Seq<char>)
    requires
        forall|i: int| 0 <= i < a.len() ==> '0' <= #[trigger] a[i] <= '9',
        forall|i: int| 0 <= i < c.len() ==> '0' <= #[trigger] c[i] <= '9',
        a + seq!['.'] + b == c + seq!['.'] + d,
    ensures
        a == c,
        b == d,
{
    let x = a + seq!['.'] + b;
    let y = c + seq!['.'] + d;
    if a.len() < c.len() {
        assert(x[a.len() as int] == '.');
        assert(y[a.len() as int] == c[a.len() as int]);
    } else if c.len() < a.len() {
        assert(y[c.len() as int] == '.');
        assert(x[c.len() as int] == a[c.len() as int]);
    }
    assert(a =~= x.subrange(0, a.len() as int));
    assert(c =~= y.subrange(0, c.len() as int));
    assert(b =~= x.subrange(a.len() as int + 1, x.len() as int));
    assert(d =~= y.subrange(c.len() as int + 1, y.len() as int));
}

/// Temporary file law: saves of different processes, or different saves of
/// one process, write temporary files with different names.
pub proof fn law_temp_files_are_unique(pid1: nat, counter1: nat, pid2: nat, counter2: nat)
    ensures
        temp_extension(pid1, counter1) == temp_extension(pid2, counter2) ==> pid1 == pid2 && counter1
            == counter2,
{
    if temp_extension(pid1, counter1) == temp_extension(pid2, counter2) {
        reveal_strlit("json.");
        reveal_strlit(".");
        reveal_strlit(".tmp");
        let x = temp_extension(pid1, counter1);
        let y = temp_extension(pid2, counter2);
        let m1 = decimal(pid1) + seq!['.'] + decimal(counter1);
        let m2 = decimal(pid2) + seq!['.'] + decimal(counter2);
        assert(x =~= "json."@ + m1 + ".tmp"@);
        assert(y =~= "json."@ + m2 + ".tmp"@);
        assert(m1 =~= x.subrange(5, x.len() - 4));
        assert(m2 =~= y.subrange(5, y.len() - 4));
        lemma_decimal_digits(pid1);
        lemma_decimal_digits(pid2);
        lemma_split_at_dot(decimal(pid1), decimal(counter1), decimal(pid2), decimal(counter2));
        lemma_decimal_injective(pid1, pid2);
        lemma_decimal_injective(counter1, counter2);
    }
}

/// Why the start-with-Windows entry could not be changed.
#[derive(Debug, Clone, Copy, PartialEq, Eq, Structural)]
pub enum RegistryError {
    /// The registry key could not be created or opened.
    KeyCreationFailed,
    /// The program's own path could not be found.
    PathUnobtainable,
    /// The entry could not be added.
    AddFailed,
    /// The entry could not be removed.
    RemoveFailed,
}

/// The start-with-Windows entry as found in the registry.
#[derive(Debug, Clone)]
pub enum RegistryValue {
    /// There is no entry.
    Missing,
    /// The entry is not text.
    NotText,
    /// The entry's text, with its terminating zero.
    Text(String),
}

/// Whether the settings agree with the registry, and whether the entry is
/// to be removed.
#[derive(Debug, Clone, Copy, PartialEq, Eq, Structural)]
pub struct RegistryCheck {
    pub agrees: bool,
    pub remove_entry: bool,
}

/// Whether `t` is `path` followed by a terminating zero.
fn text_is_path(t: &str, path: &str) -> (r: bool)
    ensures
        r == (t@ == path@ + seq!['\0']),
{
    let mut expected = String::from_str(path);
    expected.append("\0");
    proof {
        reveal_strlit("\0");
        assert("\0"@ =~= seq!['\0']);
        assert(expected@ =~= path@ + seq!['\0']);
    }
    str_eq(expected.as_str(), t)
}

/// Compares the setting `enabled` with the entry found, for the program at
/// `exe_path`. No entry agrees only with a disabled setting. An entry that
/// is not text disagrees and is removed. A text entry points at this
/// program when it is the program's path followed by a terminating zero;
/// the setting agrees when it is enabled exactly then, and an entry that
/// points elsewhere is removed.
pub fn registry_check(enabled: bool, value: &RegistryValue, exe_path: &str) -> (r: RegistryCheck)
    ensures
        *value is Missing ==> r.agrees == !enabled && !r.remove_entry,
        *value is NotText ==> !r.agrees && r.remove_entry,
        *value matches RegistryValue::Text(t) ==> {
            let points_here = t@ == exe_path@ + seq!['\0'];
            r.agrees == (enabled == points_here) && r.remove_entry == !points_here
        },
{
    match value {
        RegistryValue::Missing => RegistryCheck { agrees: !enabled, remove_entry: false },
        RegistryValue::NotText => RegistryCheck { agrees: false, remove_entry: true },
        RegistryValue::Text(t) => {
            let points_here = text_is_path(t.as_str(), exe_path);
            RegistryCheck { agrees: enabled == points_here, remove_entry: !points_here }
        },
    }
}

/// Chains a look at a value into an expression.
pub trait Also: Sized {
    /// Calls `f` on the value, then gives the value back.
    fn also<F: FnOnce(&Self)>(self, f: F) -> (r: Self)
        requires
            f.requires((&self,)),
        ensures
            r == self,
            f.ensures((&self,), ()),
    ;
}

impl<T> Also for T {
    fn also<F: FnOnce(&Self)>(self, f: F) -> (r: Self) {
        f(&self);
        self
    }
}

} // verus!
