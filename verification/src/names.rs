//! File names of save slots, and where a story keeps them.

use vstd::prelude::*;
use vstd::string::StringExecFns;

verus! {

/// The characters that may not appear in a file name.
pub open spec fn is_reserved_char(c: char) -> bool {
    c == '/' || c == '\\' || c == ':' || c == '*' || c == '?' || c == '"' || c == '<' || c == '>'
        || c == '|'
}

/// A character as it appears in a file name: reserved ones become `_`.
pub open spec fn sanitized_char(c: char) -> char {
    if is_reserved_char(c) {
        '_'
    } else {
        c
    }
}

/// A slot name with every reserved character replaced by `_`.
pub open spec fn sanitized(name: Seq<char>) -> Seq<char> {
    Seq::new(name.len(), |i: int| sanitized_char(name[i]))
}

/// A name that holds no reserved character.
pub open spec fn is_clean(name: Seq<char>) -> bool {
    forall|i: int| 0 <= i < name.len() ==> !is_reserved_char(#[trigger] name[i])
}

/// Sanitizing leaves no reserved character behind, and keeps the length.
pub proof fn lemma_sanitized_is_clean(name: Seq<char>)
    ensures
        is_clean(sanitized(name)),
        sanitized(name).len() == name.len(),
{
}

/// Sanitizing a name that holds no reserved character changes nothing.
pub proof fn lemma_sanitized_keeps_clean_names(name: Seq<char>)
    requires
        is_clean(name),
    ensures
        sanitized(name) == name,
{
    assert(sanitized(name) =~= name);
}

/// Sanitizing twice gives what sanitizing once gives.
pub proof fn lemma_sanitized_is_idempotent(name: Seq<char>)
    ensures
        sanitized(sanitized(name)) == sanitized(name),
{
    assert(sanitized(sanitized(name)) =~= sanitized(name));
}

/// Appends one character to a string, as `String::push` does.
#[verifier::external_body]
fn push_char(s: &mut String, c: char)
    ensures
        final(s)@ == old(s)@.push(c),
{
    s.push(c);
}

fn sanitize_char(c: char) -> (out: char)
    ensures
        out == sanitized_char(c),
{
    if c == '/' || c == '\\' || c == ':' || c == '*' || c == '?' || c == '"' || c == '<' || c
        == '>' || c == '|' {
        '_'
    } else {
        c
    }
}

/// Replaces each reserved character of a slot name with `_`.
pub fn sanitize_filename(name: &str) -> (out: String)
    ensures
        out@ == sanitized(name@),
{
    let mut out = String::new();
    let chars = name.chars();
    for c in it: chars
        invariant
            it.seq() == name@,
            out@ == sanitized(name@.take(it.index() as int)),
    {
        let d = sanitize_char(c);
        push_char(&mut out, d);
        proof {
            let k = it.index() as int;
            assert(c == name@[k]);
            assert(name@.take(k + 1) =~= name@.take(k).push(name@[k]));
            assert(out@ =~= sanitized(name@.take(k + 1)));
        }
    }
    proof {
        assert(name@.take(name@.len() as int) =~= name@);
    }
    out
}

/// The extension that every save file carries, with its dot.
pub open spec fn json_suffix() -> Seq<char> {
    ".json"@
}

/// The fixed name of a story's autosave file.
pub open spec fn autosave_name() -> Seq<char> {
    "__autosave__.json"@
}

/// The name of the file that holds a slot: the sanitized slot name and `.json`.
pub open spec fn slot_file(slot_name: Seq<char>) -> Seq<char> {
    sanitized(slot_name) + json_suffix()
}

/// A file name has the extension `json`: it ends in `.json`, and something
/// stands before that dot.
pub open spec fn has_json_extension(file_name: Seq<char>) -> bool {
    file_name.len() > 5 && file_name.skip(file_name.len() - 5) == json_suffix()
}

/// A file name that listing takes for a save slot: a `json` file other than
/// the autosave.
pub open spec fn is_slot_file(file_name: Seq<char>) -> bool {
    has_json_extension(file_name) && file_name != autosave_name()
}

/// The directory under which all saves are kept: the platform's user-data
/// directory, or the working directory `.` where the platform has none.
pub open spec fn saves_base(data_dir: Option<String>) -> Seq<char> {
    match data_dir {
        Some(dir) => dir@,
        None => "."@,
    }
}

/// The names to descend, from the base, to reach a story's save directory.
pub open spec fn saves_path(story_id: Seq<char>) -> Seq<Seq<char>> {
    seq!["sharpee"@, "saves"@, story_id]
}

/// Stories with different ids keep their saves under different paths,
/// whatever the base.
pub proof fn lemma_stories_have_their_own_directory(
    data_dir: Option<String>,
    a: Seq<char>,
    b: Seq<char>,
)
    ensures
        saves_path(a) == saves_path(b) <==> a == b,
        seq![saves_base(data_dir)] + saves_path(a) == seq![saves_base(data_dir)] + saves_path(b)
            <==> a == b,
{
    assert(saves_path(a)[2] == a);
    assert(saves_path(b)[2] == b);
    assert((seq![saves_base(data_dir)] + saves_path(a))[3] == a);
    assert((seq![saves_base(data_dir)] + saves_path(b))[3] == b);
}

/// The file of a slot is named like a save file, so that a listing shows
/// the slot, unless the slot's name is empty or sanitizes to `__autosave__`.
pub proof fn lemma_slot_file_is_listed(slot_name: Seq<char>)
    ensures
        is_slot_file(slot_file(slot_name)) <==> slot_name.len() > 0 && sanitized(slot_name)
            != "__autosave__"@,
{
    reveal_strlit(".json");
    reveal_strlit("__autosave__");
    reveal_strlit("__autosave__.json");
    let stem = sanitized(slot_name);
    let file = slot_file(slot_name);
    assert(file.skip(file.len() - 5) =~= json_suffix());
    assert("__autosave__.json"@ =~= "__autosave__"@ + ".json"@);
    if stem == "__autosave__"@ {
        assert(file == autosave_name());
    }
    if file == autosave_name() {
        assert(stem =~= file.take(stem.len() as int));
        assert("__autosave__"@ =~= autosave_name().take(12));
    }
}

/// The name of the file that holds the slot `slot_name`.
pub fn slot_file_name(slot_name: &str) -> (out: String)
    ensures
        out@ == slot_file(slot_name@),
{
    let mut out = sanitize_filename(slot_name);
    out.append(".json");
    out
}

/// The name of the autosave file, the same for every story.
pub fn autosave_file_name() -> (out: String)
    ensures
        out@ == autosave_name(),
{
    "__autosave__.json".to_owned()
}

/// The characters of a string, in order.
fn chars_of(text: &str) -> (out: Vec<char>)
    ensures
        out@ == text@,
{
    let mut out: Vec<char> = Vec::new();
    let chars = text.chars();
    for c in it: chars
        invariant
            it.seq() == text@,
            out@ == text@.take(it.index() as int),
    {
        out.push(c);
        proof {
            let k = it.index() as int;
            assert(c == text@[k]);
            assert(text@.take(k + 1) =~= text@.take(k).push(text@[k]));
        }
    }
    proof {
        assert(text@.take(text@.len() as int) =~= text@);
    }
    out
}

/// Whether listing takes the file `file_name` for a save slot.
pub fn is_slot_file_name(file_name: &str) -> (out: bool)
    ensures
        out == is_slot_file(file_name@),
{
    let chars = chars_of(file_name);
    let n = chars.len();
    if n <= 5 {
        return false;
    }
    let ends_in_json = chars[n - 5] == '.' && chars[n - 4] == 'j' && chars[n - 3] == 's'
        && chars[n - 2] == 'o' && chars[n - 1] == 'n';
    proof {
        reveal_strlit(".json");
        let tail = file_name@.skip(n - 5);
        assert(tail.len() == 5);
        assert(tail[0] == chars@[n - 5]);
        assert(tail[1] == chars@[n - 4]);
        assert(tail[2] == chars@[n - 3]);
        assert(tail[3] == chars@[n - 2]);
        assert(tail[4] == chars@[n - 1]);
        if ends_in_json {
            assert(tail =~= json_suffix());
        }
    }
    if !ends_in_json {
        return false;
    }
    let autosave = autosave_file_name();
    let same = file_name.to_owned() == autosave;
    !same
}

/// The save directory of the story `story_id`, as the path to walk: the
/// base, then `sharpee`, `saves` and the story's id. The base is `data_dir`,
/// which is what the platform gave as its user-data directory, or the
/// working directory `.` where it gave none.
pub fn saves_dir(data_dir: Option<String>, story_id: &str) -> (out: Vec<String>)
    ensures
        out@.len() == 4,
        out@.map_values(|s: String| s@) == seq![saves_base(data_dir)] + saves_path(story_id@),
{
    let ghost given = data_dir;
    let base = match data_dir {
        Some(dir) => dir,
        None => ".".to_owned(),
    };
    let mut out: Vec<String> = Vec::new();
    out.push(base);
    out.push("sharpee".to_owned());
    out.push("saves".to_owned());
    out.push(story_id.to_owned());
    proof {
        assert(out@.map_values(|s: String| s@) =~= seq![saves_base(given)] + saves_path(
            story_id@,
        ));
    }
    out
}

} // verus!
