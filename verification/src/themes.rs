//! Theme files: their names, the list of them, and how bundled themes are
//! installed and found.

use vstd::prelude::*;
use vstd::utf8::{decode_utf8, encode_utf8, is_ascii_chars, valid_utf8};

use crate::action::{acts, log_line, LOG_ERROR, LOG_INFO, LOG_WARN};
use crate::action::{log_error, log_info, log_warn, nothing, then_do, Action};
use crate::text::{chars_of, has_bytes, joined2, joined3, matches_at, same_bytes};
use crate::text::{contains_run, lemma_ascii_run, opt_text, stands_at, texts};

verus! {

/// The mark that makes a theme file factory content, refreshed on upgrades.
pub open spec fn bundled_mark() -> Seq<char> {
    "// cfw-bundled:"@
}

/// Whether the content of a file holds the mark.
pub open spec fn marked(content: Seq<u8>) -> bool {
    contains_run(content, encode_utf8(bundled_mark()))
}

/// The characters that a theme file name is made of.
pub open spec fn name_char(c: char) -> bool {
    ||| 'a' <= c <= 'z'
    ||| 'A' <= c <= 'Z'
    ||| '0' <= c <= '9'
    ||| c == '.'
    ||| c == '_'
    ||| c == '-'
}

pub open spec fn ends_with(s: Seq<char>, end: Seq<char>) -> bool {
    stands_at(s, end, s.len() - end.len())
}

/// A simple file name: at most 64 of the allowed characters, the last of them
/// `.slint`, and something before that which does not begin with a dot.
pub open spec fn valid_name(s: Seq<char>) -> bool {
    &&& ".slint"@.len() < s.len() <= 64
    &&& forall|i: int| 0 <= i < s.len() ==> name_char(#[trigger] s[i])
    &&& ends_with(s, ".slint"@)
    &&& s[0] != '.'
}

/// Whether a theme file may have this name.
pub fn valid_theme_name(name: &str) -> (valid: bool)
    ensures
        valid == valid_name(name@),
{
    let v = chars_of(name);
    let ext = chars_of(".slint");
    let n: usize = v.len();
    if n <= ext.len() || n > 64 {
        return false;
    }
    let mut i: usize = 0;
    while i < n
        invariant
            i <= n == v@.len(),
            v@ == name@,
            forall|j: int| 0 <= j < i ==> name_char(#[trigger] v@[j]),
        decreases n - i,
    {
        let c = v[i];
        let ok = ('a' <= c && c <= 'z') || ('A' <= c && c <= 'Z') || ('0' <= c && c <= '9') || c
            == '.' || c == '_' || c == '-';
        if !ok {
            assert(!name_char(name@[i as int]));
            return false;
        }
        i = i + 1;
    }
    if v[0] == '.' {
        return false;
    }
    matches_at(&v, &ext, n - ext.len())
}

/// A valid name has no separator, does not begin with a dot and so is neither
/// hidden nor a way out of the theme directory.
pub proof fn law_valid_names_stay_in_place(s: Seq<char>)
    requires
        valid_name(s),
    ensures
        !s.contains('/'),
        !s.contains('\\'),
        !s.contains('\0'),
        s[0] != '.',
        s != "."@,
        s != ".."@,
{
    if s.contains('/') {
        let i = choose|i: int| 0 <= i < s.len() && s[i] == '/';
        assert(name_char(s[i]));
    }
    if s.contains('\\') {
        let i = choose|i: int| 0 <= i < s.len() && s[i] == '\\';
        assert(name_char(s[i]));
    }
    if s.contains('\0') {
        let i = choose|i: int| 0 <= i < s.len() && s[i] == '\0';
        assert(name_char(s[i]));
    }
    reveal_strlit(".");
    reveal_strlit("..");
}

/// Order of texts by their characters.
pub open spec fn text_less(a: Seq<char>, b: Seq<char>) -> bool
    decreases a.len(),
{
    if b.len() == 0 {
        false
    } else if a.len() == 0 {
        true
    } else if a[0] != b[0] {
        a[0] < b[0]
    } else {
        text_less(a.skip(1), b.skip(1))
    }
}

/// A sorted list with one more text in its place.
pub open spec fn with_text(list: Seq<Seq<char>>, s: Seq<char>) -> Seq<Seq<char>>
    decreases list.len(),
{
    if list.len() == 0 {
        seq![s]
    } else if text_less(s, list.last()) {
        with_text(list.drop_last(), s).push(list.last())
    } else {
        list.push(s)
    }
}

/// The valid names among `names`, sorted.
pub open spec fn theme_list(names: Seq<Seq<char>>) -> Seq<Seq<char>>
    decreases names.len(),
{
    if names.len() == 0 {
        seq![]
    } else if valid_name(names.last()) {
        with_text(theme_list(names.drop_last()), names.last())
    } else {
        theme_list(names.drop_last())
    }
}

pub open spec fn sorted(list: Seq<Seq<char>>) -> bool {
    forall|i: int, j: int|
        0 <= i < j < list.len() ==> !text_less(#[trigger] list[j], #[trigger] list[i])
}

proof fn lemma_less_transitive(a: Seq<char>, b: Seq<char>, c: Seq<char>)
    requires
        !text_less(b, a),
        !text_less(c, b),
    ensures
        !text_less(c, a),
    decreases a.len(),
{
    if a.len() > 0 && b.len() > 0 && c.len() > 0 && a[0] == b[0] && b[0] == c[0] {
        lemma_less_transitive(a.skip(1), b.skip(1), c.skip(1));
    }
}

proof fn lemma_less_asymmetric(a: Seq<char>, b: Seq<char>)
    requires
        text_less(a, b),
    ensures
        !text_less(b, a),
    decreases a.len(),
{
    if a.len() > 0 && b.len() > 0 && a[0] == b[0] {
        lemma_less_asymmetric(a.skip(1), b.skip(1));
    }
}

proof fn lemma_with_text(list: Seq<Seq<char>>, s: Seq<char>)
    requires
        sorted(list),
    ensures
        sorted(with_text(list, s)),
        with_text(list, s).to_multiset() == list.to_multiset().insert(s),
    decreases list.len(),
{
    broadcast use vstd::seq_lib::group_to_multiset_ensures;

    let r = with_text(list, s);
    if list.len() == 0 {
        assert(list.to_multiset() =~= vstd::multiset::Multiset::empty());
        assert(r =~= list.push(s));
    } else if text_less(s, list.last()) {
        let front = list.drop_last();
        lemma_with_text(front, s);
        let rf = with_text(front, s);
        assert(list =~= front.push(list.last()));
        assert(r.to_multiset() =~= list.to_multiset().insert(s));
        assert forall|i: int, j: int| 0 <= i < j < r.len() implies !text_less(
            #[trigger] r[j],
            #[trigger] r[i],
        ) by {
            if j == r.len() - 1 {
                assert(rf.to_multiset().count(rf[i]) > 0) by {
                    assert(rf.contains(rf[i]));
                }
                if rf[i] == s {
                    lemma_less_asymmetric(s, list.last());
                } else {
                    assert(front.to_multiset().count(rf[i]) > 0);
                    let k = choose|k: int| 0 <= k < front.len() && front[k] == rf[i];
                    assert(!text_less(list[list.len() - 1], list[k]));
                }
            } else {
                assert(!text_less(rf[j], rf[i]));
            }
        }
    } else {
        assert forall|i: int, j: int| 0 <= i < j < r.len() implies !text_less(
            #[trigger] r[j],
            #[trigger] r[i],
        ) by {
            if j == r.len() - 1 && i < list.len() - 1 {
                lemma_less_transitive(list[i], list.last(), s);
            }
        }
    }
}

/// The published list is sorted and holds exactly the valid names, each as often
/// as it was found.
pub proof fn law_theme_list_is_sorted_and_complete(names: Seq<Seq<char>>)
    ensures
        sorted(theme_list(names)),
        theme_list(names).to_multiset() == names.filter(
            |s: Seq<char>| valid_name(s),
        ).to_multiset(),
    decreases names.len(),
{
    broadcast use vstd::seq_lib::group_to_multiset_ensures;

    let f = |s: Seq<char>| valid_name(s);
    reveal(Seq::filter);
    if names.len() > 0 {
        law_theme_list_is_sorted_and_complete(names.drop_last());
        if valid_name(names.last()) {
            lemma_with_text(theme_list(names.drop_last()), names.last());
            assert(names.filter(f) =~= names.drop_last().filter(f).push(names.last()));
        }
    }
}

fn less(a: &str, b: &str) -> (before: bool)
    ensures
        before == text_less(a@, b@),
{
    let x = chars_of(a);
    let y = chars_of(b);
    let mut i: usize = 0;
    assert(x@.skip(0) =~= a@);
    assert(y@.skip(0) =~= b@);
    while i < x.len() && i < y.len() && x[i] == y[i]
        invariant
            i <= x@.len(),
            i <= y@.len(),
            text_less(x@.skip(i as int), y@.skip(i as int)) == text_less(a@, b@),
        decreases x@.len() - i,
    {
        assert(x@.skip(i as int).skip(1) =~= x@.skip(i + 1));
        assert(y@.skip(i as int).skip(1) =~= y@.skip(i + 1));
        i = i + 1;
    }
    if i < y.len() {
        i == x.len() || x[i] < y[i]
    } else {
        false
    }
}

fn insert_sorted(list: &mut Vec<String>, s: String)
    ensures
        texts(final(list)@) == with_text(texts(old(list)@), s@),
{
    let mut i: usize = list.len();
    let ghost all = texts(list@);
    assert(all.take(i as int) =~= all);
    assert(with_text(all, s@) =~= with_text(all.take(i as int), s@) + all.skip(i as int));
    while i > 0 && less(s.as_str(), list[i - 1].as_str())
        invariant
            list@ == old(list)@,
            all == texts(list@),
            i <= list@.len(),
            with_text(all, s@) == with_text(all.take(i as int), s@) + all.skip(i as int),
        decreases i,
    {
        proof {
            let head = all.take(i as int);
            assert(head.last() == list@[i - 1]@);
            assert(head.drop_last() =~= all.take(i - 1));
            assert(with_text(head, s@) + all.skip(i as int) =~= with_text(all.take(i - 1), s@)
                + all.skip(i - 1));
        }
        i = i - 1;
    }
    proof {
        let head = all.take(i as int);
        if i > 0 {
            assert(head.last() == list@[i - 1]@);
        }
        assert(with_text(head, s@) =~= head.push(s@));
    }
    list.insert(i, s);
    assert(texts(list@) =~= with_text(all, s@));
}

/// The theme files among the names of a directory, sorted.
pub fn scan_themes(names: &Vec<String>) -> (list: Vec<String>)
    ensures
        texts(list@) == theme_list(texts(names@)),
{
    let mut list: Vec<String> = Vec::new();
    let mut i: usize = 0;
    let ghost all = texts(names@);
    assert(texts(list@) =~= theme_list(all.take(0)));
    while i < names.len()
        invariant
            i <= names@.len(),
            all == texts(names@),
            texts(list@) == theme_list(all.take(i as int)),
        decreases names@.len() - i,
    {
        proof {
            assert(all.take(i + 1).drop_last() =~= all.take(i as int));
            assert(all.take(i + 1).last() == names@[i as int]@);
        }
        if valid_theme_name(names[i].as_str()) {
            insert_sorted(&mut list, names[i].clone());
        }
        i = i + 1;
    }
    assert(all.take(i as int) =~= all);
    list
}

/// A theme that is delivered with the plugin.
#[derive(Debug, PartialEq, Eq)]
pub struct BundledTheme {
    pub name: String,
    pub source: String,
}

/// What is found in the place of a theme file.
#[derive(Debug, PartialEq, Eq)]
pub enum ThemeFile<Content = Vec<u8>> {
    Missing,
    /// A file with this content, which need not be text.
    Held(Content),
    /// Something that cannot be read.
    Unreadable,
}

impl View for ThemeFile {
    type V = ThemeFile<Seq<u8>>;

    open spec fn view(&self) -> ThemeFile<Seq<u8>> {
        match *self {
            ThemeFile::Missing => ThemeFile::Missing,
            ThemeFile::Held(content) => ThemeFile::Held(content@),
            ThemeFile::Unreadable => ThemeFile::Unreadable,
        }
    }
}

/// Whether a bundled theme is to be written: where its file is missing, or is
/// factory content of another version. A file without the mark is the user's.
pub open spec fn wants_write(existing: ThemeFile<Seq<u8>>, source: Seq<u8>) -> bool {
    match existing {
        ThemeFile::Missing => true,
        ThemeFile::Held(old) => marked(old) && old != source,
        ThemeFile::Unreadable => false,
    }
}

/// Whether the content of a file holds the mark of factory content.
pub fn has_mark(content: &Vec<u8>) -> (yes: bool)
    ensures
        yes == marked(content@),
{
    has_bytes(content, &"// cfw-bundled:".as_bytes_vec())
}

/// For each bundled theme, whether its file is to be written, given what the
/// files hold now.
pub fn ensure_themes(bundled: &Vec<BundledTheme>, existing: &Vec<ThemeFile>) -> (plan: Vec<bool>)
    requires
        bundled@.len() == existing@.len(),
    ensures
        plan@.len() == bundled@.len(),
        forall|i: int|
            0 <= i < plan@.len() ==> #[trigger] plan@[i] == wants_write(
                existing@[i]@,
                encode_utf8(bundled@[i].source@),
            ),
{
    let mut plan: Vec<bool> = Vec::new();
    let mut i: usize = 0;
    while i < bundled.len()
        invariant
            i <= bundled@.len() == existing@.len(),
            plan@.len() == i,
            forall|j: int|
                0 <= j < i ==> #[trigger] plan@[j] == wants_write(
                    existing@[j]@,
                    encode_utf8(bundled@[j].source@),
                ),
        decreases bundled@.len() - i,
    {
        let write = match &existing[i] {
            ThemeFile::Missing => true,
            ThemeFile::Held(old) => has_mark(old) && !same_bytes(
                old,
                &bundled[i].source.as_str().as_bytes_vec(),
            ),
            ThemeFile::Unreadable => false,
        };
        plan.push(write);
        i = i + 1;
    }
    plan
}

/// What stands in the place of a theme file once the bundled theme was written where
/// that is wanted.
pub open spec fn after_ensure(existing: ThemeFile<Seq<u8>>, source: Seq<u8>) -> ThemeFile<Seq<u8>> {
    if wants_write(existing, source) {
        ThemeFile::Held(source)
    } else {
        existing
    }
}

/// A file without the mark is the user's and stays as it is, whatever its bytes. A
/// file with the mark, text or not, has the bundled source afterwards, and so has one
/// that was missing. What cannot be read is left alone, and a second time nothing is
/// written.
pub proof fn law_user_themes_are_kept(
    content: Seq<u8>,
    existing: ThemeFile<Seq<u8>>,
    source: Seq<u8>,
)
    ensures
        !marked(content) ==> after_ensure(ThemeFile::Held(content), source) == ThemeFile::Held(
            content,
        ) && !wants_write(ThemeFile::Held(content), source),
        marked(content) ==> after_ensure(ThemeFile::Held(content), source) == ThemeFile::Held(
            source,
        ),
        after_ensure(ThemeFile::Missing, source) == ThemeFile::Held(source),
        !wants_write(ThemeFile::Unreadable, source),
        !wants_write(after_ensure(existing, source), source),
{
}

/// A file of text has the mark where the mark stands in the text.
pub proof fn law_mark_of_a_text(content: Seq<u8>)
    requires
        valid_utf8(content),
    ensures
        marked(content) <==> contains_run(decode_utf8(content), bundled_mark()),
{
    reveal_strlit("// cfw-bundled:");
    assert(is_ascii_chars(bundled_mark()));
    lemma_ascii_run(content, bundled_mark());
}

/// What to log once a bundled theme was written or could not be.
pub open spec fn bundled_acts(name: Seq<char>, had: bool, failure: Option<Seq<char>>) -> Seq<
    Action<Seq<char>>,
> {
    match failure {
        Some(e) => seq![log_line(LOG_WARN, "cannot write bundled theme "@ + name + (": "@ + e))],
        None => if had {
            seq![log_line(LOG_INFO, "bundled theme upgraded: "@ + name)]
        } else {
            seq![]
        },
    }
}

/// What to log when the theme directory cannot be made.
pub open spec fn no_dir_act(error: Seq<char>) -> Action<Seq<char>> {
    log_line(LOG_ERROR, "cannot create themes dir: "@ + error)
}

/// What to log when a bundled theme cannot be restored.
pub open spec fn no_restore_act(name: Seq<char>, error: Seq<char>) -> Action<Seq<char>> {
    log_line(LOG_WARN, "restore "@ + name + (" failed: "@ + error))
}

/// What to log once a bundled theme was written or could not be.
pub fn bundled_written(name: &str, had: bool, failure: &Option<String>) -> (todo: Vec<Action>)
    ensures
        acts(todo@) == bundled_acts(name@, had, opt_text(*failure)),
        acts(todo@) == match *failure {
            Some(e) => seq![
                log_line(
                    LOG_WARN,
                    "cannot write bundled theme "@ + name@ + (": "@ + e@),
                ),
            ],
            None => if had {
                seq![
                    log_line(
                        LOG_INFO,
                        "bundled theme upgraded: "@ + name@,
                    ),
                ]
            } else {
                seq![]
            },
        },
{
    let mut todo = nothing();
    match failure {
        Some(e) => {
            let tail = joined2(": ", e.as_str());
            then_do(
                &mut todo,
                log_warn(joined3("cannot write bundled theme ", name, tail.as_str())),
            );
        },
        None => if had {
            then_do(&mut todo, log_info(joined2("bundled theme upgraded: ", name)));
        },
    }
    assert(acts(todo@) =~= match *failure {
        Some(e) => seq![
            log_line(
                LOG_WARN,
                "cannot write bundled theme "@ + name@ + (": "@ + e@),
            ),
        ],
        None => if had {
            seq![
                log_line(
                    LOG_INFO,
                    "bundled theme upgraded: "@ + name@,
                ),
            ]
        } else {
            seq![]
        },
    });
    todo
}

/// What to log when the theme directory cannot be made.
pub fn themes_dir_failed(error: &str) -> (action: Action)
    ensures
        action@ == no_dir_act(error@),
        action@ == log_line(
            LOG_ERROR,
            "cannot create themes dir: "@ + error@,
        ),
{
    log_error(joined2("cannot create themes dir: ", error))
}

/// What to log when a bundled theme cannot be restored.
pub fn restore_failed(name: &str, error: &str) -> (action: Action)
    ensures
        action@ == no_restore_act(name@, error@),
        action@ == log_line(
            LOG_WARN,
            "restore "@ + name@ + (" failed: "@ + error@),
        ),
{
    let tail = joined2(" failed: ", error);
    log_warn(joined3("restore ", name, tail.as_str()))
}

/// The first of `names` whose file is there.
pub open spec fn first_present(names: Seq<Seq<char>>, present: Seq<bool>) -> Option<Seq<char>>
    decreases names.len(),
{
    if names.len() == 0 {
        None
    } else {
        match first_present(names.drop_last(), present.drop_last()) {
            Some(n) => Some(n),
            None => if present.last() {
                Some(names.last())
            } else {
                None
            },
        }
    }
}

/// The selected theme where its file is there, else the first bundled theme
/// whose file is, else the selected one after all.
pub open spec fn resolved(
    selected: Seq<char>,
    selected_present: bool,
    bundled: Seq<Seq<char>>,
    present: Seq<bool>,
) -> Seq<char> {
    if selected_present {
        selected
    } else {
        match first_present(bundled, present) {
            Some(n) => n,
            None => selected,
        }
    }
}

/// The theme to load, given which files are there.
pub fn resolve_theme(
    selected: &str,
    selected_present: bool,
    bundled: &Vec<String>,
    present: &Vec<bool>,
) -> (name: String)
    requires
        bundled@.len() == present@.len(),
    ensures
        name@ == resolved(
            selected@,
            selected_present,
            texts(bundled@),
            present@,
        ),
{
    if selected_present {
        return selected.to_owned();
    }
    let ghost names = texts(bundled@);
    let mut i: usize = 0;
    while i < bundled.len()
        invariant
            i <= bundled@.len() == present@.len(),
            names == texts(bundled@),
            !selected_present,
            first_present(names.take(i as int), present@.take(i as int)) is None,
        decreases bundled@.len() - i,
    {
        proof {
            assert(names.take(i + 1).drop_last() =~= names.take(i as int));
            assert(present@.take(i + 1).drop_last() =~= present@.take(i as int));
        }
        if present[i] {
            proof {
                lemma_first_present_stays(names, present@, i + 1);
            }
            return bundled[i].clone();
        }
        i = i + 1;
    }
    assert(names.take(i as int) =~= names);
    assert(present@.take(i as int) =~= present@);
    selected.to_owned()
}

proof fn lemma_first_present_stays(names: Seq<Seq<char>>, present: Seq<bool>, i: int)
    requires
        names.len() == present.len(),
        0 <= i <= names.len(),
        first_present(names.take(i), present.take(i)) is Some,
    ensures
        first_present(names, present) == first_present(names.take(i), present.take(i)),
    decreases names.len() - i,
{
    if i == names.len() {
        assert(names.take(i) =~= names);
        assert(present.take(i) =~= present);
    } else {
        assert(names.take(i + 1).drop_last() =~= names.take(i));
        assert(present.take(i + 1).drop_last() =~= present.take(i));
        lemma_first_present_stays(names, present, i + 1);
    }
}

} // verus!
