//! Resource identifiers as people type them: compact and short forms,
//! prefix selection, and the checks that keep a command's explicit
//! arguments consistent with the root Device and Run selection.

use vstd::prelude::*;
use crate::parse::{debug_quoted, debug_text};
use crate::text::{chars_of, has_prefix, owned, push_char, starts_with, take_chars, text_eq, viewed};

verus! {

/// ASCII lower-casing of one character.
pub open spec fn ascii_lower(c: char) -> char {
    if 'A' <= c && c <= 'Z' {
        ((c as u8) + 32u8) as char
    } else {
        c
    }
}

/// The characters of `s` except every `c`.
pub open spec fn without_char(s: Seq<char>, c: char) -> Seq<char> {
    s.filter(|x: char| x != c)
}

/// `s` without its leading `prefix`, or `s` itself when it does not open with it.
pub open spec fn strip_or_keep(s: Seq<char>, prefix: Seq<char>) -> Seq<char> {
    if has_prefix(s, prefix) {
        s.subrange(prefix.len() as int, s.len() as int)
    } else {
        s
    }
}

/// A protobuf enum name shortened for display: prefix removed, ASCII
/// lower-cased, underscores turned into hyphens.
pub open spec fn short_enum_text(value: Seq<char>, prefix: Seq<char>) -> Seq<char> {
    strip_or_keep(value, prefix).map_values(|c: char| enum_name_char(c))
}

/// One character of a displayed enum name.
pub open spec fn enum_name_char(c: char) -> char {
    if c == '_' { '-' } else { ascii_lower(c) }
}

/// Position of the first `c` in `s`, if any.
pub open spec fn first_index_of(s: Seq<char>, c: char) -> Option<int> {
    if exists|i: int| 0 <= i < s.len() && s[i] == c {
        Some(choose|i: int| 0 <= i < s.len() && s[i] == c && forall|j: int| 0 <= j < i ==> s[j] != c)
    } else {
        None
    }
}

/// An identifier without its kind prefix (everything up to the first `_`)
/// and without hyphens.
pub open spec fn compact_text(value: Seq<char>) -> Seq<char> {
    let suffix = match first_index_of(value, '_') {
        Some(i) => value.subrange(i + 1, value.len() as int),
        None => value,
    };
    without_char(suffix, '-')
}

/// The first twelve characters of the compact form.
pub open spec fn short_text(value: Seq<char>) -> Seq<char> {
    let c = compact_text(value);
    c.take(if c.len() < 12 { c.len() as int } else { 12 })
}

/// A selector picks a value when it equals it, or when, hyphens removed, it
/// opens the value's compact form.
pub open spec fn id_matches_spec(value: Seq<char>, selector: Seq<char>) -> bool {
    value == selector || has_prefix(compact_text(value), without_char(selector, '-'))
}

fn remove_char(s: &str, c: char) -> (r: String)
    ensures
        r@ == without_char(s@, c),
{
    let cs = chars_of(s);
    let mut r = String::new();
    let mut i: usize = 0;
    while i < cs.len()
        invariant
            cs@ == s@,
            i <= cs.len(),
            r@ == without_char(s@.take(i as int), c),
        decreases cs.len() - i,
    {
        proof {
            reveal(Seq::filter);
            assert(s@.take(i + 1).drop_last() =~= s@.take(i as int));
        }
        if cs[i] != c {
            push_char(&mut r, cs[i]);
        }
        i = i + 1;
    }
    assert(s@.take(cs.len() as int) =~= s@);
    r
}

/// Display form of a protobuf enum name.
pub fn short_enum_name(value: &str, prefix: &str) -> (r: String)
    ensures
        r@ == short_enum_text(value@, prefix@),
{
    let vs = chars_of(value);
    let start: usize = if starts_with(value, prefix) { prefix.unicode_len() } else { 0 };
    let ghost rest = strip_or_keep(value@, prefix@);
    let mut r = String::new();
    let mut i: usize = start;
    while i < vs.len()
        invariant
            vs@ == value@,
            start <= i <= vs.len(),
            rest == value@.subrange(start as int, value@.len() as int),
            rest == strip_or_keep(value@, prefix@),
            r@ == short_enum_text(value@, prefix@).take(i - start),
        decreases vs.len() - i,
    {
        let ch = vs[i];
        let out = if ch == '_' {
            '-'
        } else if 'A' <= ch && ch <= 'Z' {
            ((ch as u8) + 32u8) as char
        } else {
            ch
        };
        assert(out == enum_name_char(rest[i - start]));
        assert(short_enum_text(value@, prefix@)[i - start] == out);
        push_char(&mut r, out);
        assert(r@ =~= short_enum_text(value@, prefix@).take(i + 1 - start));
        i = i + 1;
    }
    assert(r@ =~= short_enum_text(value@, prefix@));
    r
}

/// The compact form of an identifier.
pub fn compact_id(value: &str) -> (r: String)
    ensures
        r@ == compact_text(value@),
{
    let vs = chars_of(value);
    let mut i: usize = 0;
    while i < vs.len() && vs[i] != '_'
        invariant
            vs@ == value@,
            i <= vs.len(),
            forall|j: int| 0 <= j < i ==> value@[j] != '_',
        decreases vs.len() - i,
    {
        i = i + 1;
    }
    let mut suffix = String::new();
    if i < vs.len() {
        let mut k: usize = i + 1;
        while k < vs.len()
            invariant
                vs@ == value@,
                i < k <= vs.len(),
                suffix@ == value@.subrange(i + 1, k as int),
            decreases vs.len() - k,
        {
            push_char(&mut suffix, vs[k]);
            assert(suffix@ =~= value@.subrange(i + 1, k + 1));
            k = k + 1;
        }
        proof {
            assert(value@[i as int] == '_');
            assert(first_index_of(value@, '_') == Some(i as int));
        }
    } else {
        suffix = owned(value);
        proof {
            assert(first_index_of(value@, '_') is None);
        }
    }
    remove_char(suffix.as_str(), '-')
}

/// The display form of an identifier: its first twelve compact characters.
pub fn short_id(value: &str) -> (r: String)
    ensures
        r@ == short_text(value@),
{
    let compact = compact_id(value);
    take_chars(compact.as_str(), 12)
}

/// Whether `selector` picks `value`.
pub fn id_matches(value: &str, selector: &str) -> (r: bool)
    ensures
        r == id_matches_spec(value@, selector@),
{
    if text_eq(value, selector) {
        return true;
    }
    let compact = compact_id(value);
    let wanted = remove_char(selector, '-');
    starts_with(compact.as_str(), wanted.as_str())
}

/// The values a selector picks, in their listed order.
pub open spec fn matching_ids(values: Seq<Seq<char>>, selector: Seq<char>) -> Seq<Seq<char>> {
    values.filter(|v: Seq<char>| id_matches_spec(v, selector))
}

pub open spec fn unknown_id_text(kind: Seq<char>, selector: Seq<char>) -> Seq<char> {
    "unknown "@ + kind + " ID "@ + debug_text(selector)
}

pub open spec fn ambiguous_id_text(kind: Seq<char>, selector: Seq<char>) -> Seq<char> {
    "ambiguous "@ + kind + " ID prefix "@ + debug_text(selector) + "; provide more characters"@
}

/// The one listed value a selector picks, or the error when it picks none
/// or several.
pub open spec fn resolve_id_result(kind: Seq<char>, selector: Seq<char>, values: Seq<Seq<char>>) -> Result<Seq<char>, Seq<char>> {
    let m = matching_ids(values, selector);
    if m.len() == 0 {
        Err(unknown_id_text(kind, selector))
    } else if m.len() == 1 {
        Ok(m[0])
    } else {
        Err(ambiguous_id_text(kind, selector))
    }
}

/// The views of a list of strings.
pub open spec fn views(values: Seq<String>) -> Seq<Seq<char>> {
    values.map_values(|v: String| v@)
}

/// Resolves `selector` against the listed identifiers of one `kind`.
pub fn resolve_id(kind: &str, selector: &str, values: &Vec<String>) -> (r: Result<String, String>)
    ensures
        match resolve_id_result(kind@, selector@, views(values@)) {
            Ok(v) => r matches Ok(s) && s@ == v,
            Err(e) => r matches Err(m) && m@ == e,
        },
{
    let ghost pred = |v: Seq<char>| id_matches_spec(v, selector@);
    let mut found: Vec<usize> = Vec::new();
    let ghost mut picked: Seq<Seq<char>> = Seq::empty();
    let mut i: usize = 0;
    while i < values.len()
        invariant
            i <= values.len(),
            pred == (|v: Seq<char>| id_matches_spec(v, selector@)),
            picked == views(values@).take(i as int).filter(pred),
            found@.len() == picked.len(),
            forall|k: int| 0 <= k < found@.len() ==> (#[trigger] found@[k]) < i && values@[found@[k] as int]@ == picked[k],
        decreases values.len() - i,
    {
        proof {
            reveal(Seq::filter);
            assert(views(values@).take(i + 1).drop_last() =~= views(values@).take(i as int));
        }
        if id_matches(values[i].as_str(), selector) {
            found.push(i);
            proof {
                picked = picked.push(values@[i as int]@);
            }
        }
        i = i + 1;
    }
    proof {
        assert(views(values@).take(values.len() as int) =~= views(values@));
    }
    if found.len() == 0 {
        let mut m = owned("unknown ");
        m.append(kind);
        m.append(" ID ");
        let q = debug_quoted(selector);
        m.append(q.as_str());
        Err(m)
    } else if found.len() == 1 {
        Ok(values[found[0]].clone())
    } else {
        let mut m = owned("ambiguous ");
        m.append(kind);
        m.append(" ID prefix ");
        let q = debug_quoted(selector);
        m.append(q.as_str());
        m.append("; provide more characters");
        Err(m)
    }
}

/// A value is always picked by itself, and whatever `resolve_id` returns is
/// a listed value that the selector picks.
pub proof fn lemma_resolved_id_is_listed_and_matches(kind: Seq<char>, selector: Seq<char>, values: Seq<Seq<char>>)
    ensures
        id_matches_spec(selector, selector),
        resolve_id_result(kind, selector, values) matches Ok(v) ==> values.contains(v) && id_matches_spec(v, selector),
{
    let m = matching_ids(values, selector);
    if m.len() == 1 {
        let pred = |v: Seq<char>| id_matches_spec(v, selector);
        values.lemma_filter_pred(pred, 0);
        assert(m.contains(m[0]));
        values.filter_lemma(pred);
        lemma_filter_members_are_listed(values, pred, 0);
    }
}

/// Every member of a filtered sequence occurs in the unfiltered sequence.
proof fn lemma_filter_members_are_listed(values: Seq<Seq<char>>, pred: spec_fn(Seq<char>) -> bool, i: int)
    requires
        0 <= i < values.filter(pred).len(),
    ensures
        values.contains(values.filter(pred)[i]),
    decreases values.len(),
{
    reveal(Seq::filter);
    if values.len() > 0 {
        let rest = values.drop_last().filter(pred);
        if i < rest.len() {
            lemma_filter_members_are_listed(values.drop_last(), pred, i);
            let j = choose|j: int| 0 <= j < values.drop_last().len() && values.drop_last()[j] == rest[i];
            assert(values[j] == values.filter(pred)[i]);
        } else {
            assert(values[values.len() - 1] == values.filter(pred)[i]);
        }
    }
}

/// A Run argument must agree with the root `--run` selection.
pub fn validate_run_argument(run_id: &str, selected_run_id: &Option<String>) -> (r: Result<(), String>)
    ensures
        r is Err <==> (selected_run_id matches Some(s) && !id_matches_spec(s@, run_id@)),
        r matches Err(m) ==> m@ == "Run argument "@ + debug_text(run_id@) + " conflicts with root --run"@,
{
    match selected_run_id {
        Some(selected) => if !id_matches(selected.as_str(), run_id) {
            let mut m = owned("Run argument ");
            let q = debug_quoted(run_id);
            m.append(q.as_str());
            m.append(" conflicts with root --run");
            return Err(m);
        },
        None => {},
    }
    Ok(())
}

/// A Device argument must agree with the root Device selection.
pub fn validate_device_argument(device_id: &str, selected_device_id: &Option<String>) -> (r: Result<(), String>)
    ensures
        r is Err <==> (selected_device_id matches Some(s) && !id_matches_spec(s@, device_id@)),
        r matches Err(m) ==> m@ == "Device argument "@ + debug_text(device_id@) + " conflicts with root Device selection"@,
{
    match selected_device_id {
        Some(selected) => if !id_matches(selected.as_str(), device_id) {
            let mut m = owned("Device argument ");
            let q = debug_quoted(device_id);
            m.append(q.as_str());
            m.append(" conflicts with root Device selection");
            return Err(m);
        },
        None => {},
    }
    Ok(())
}

/// A Run reached under a selected Device must be attached to that Device.
pub fn validate_run_device(run_device_ids: &Vec<String>, expected_device_id: &Option<String>) -> (r: Result<(), String>)
    ensures
        r is Err <==> (expected_device_id matches Some(e) && !views(run_device_ids@).contains(e@)),
        r matches Err(m) ==> m@ == "Run is not attached to selected Device "@ + debug_text(expected_device_id->0@),
{
    match expected_device_id {
        None => Ok(()),
        Some(expected) => {
            let mut i: usize = 0;
            while i < run_device_ids.len()
                invariant
                    i <= run_device_ids.len(),
                    expected_device_id matches Some(e) && e@ == expected@,
                    forall|j: int| 0 <= j < i ==> run_device_ids@[j]@ != expected@,
                decreases run_device_ids.len() - i,
            {
                if text_eq(run_device_ids[i].as_str(), expected.as_str()) {
                    assert(views(run_device_ids@)[i as int] == expected@);
                    assert(views(run_device_ids@).contains(expected@));
                    return Ok(());
                }
                i = i + 1;
            }
            proof {
                if views(run_device_ids@).contains(expected@) {
                    let j = choose|j: int| 0 <= j < views(run_device_ids@).len() && views(run_device_ids@)[j] == expected@;
                    assert(run_device_ids@[j]@ == expected@);
                }
            }
            let mut m = owned("Run is not attached to selected Device ");
            let q = debug_quoted(expected.as_str());
            m.append(q.as_str());
            Err(m)
        },
    }
}

/// A Runner reached under a selected Device must be owned by that Device.
pub fn validate_runner_device(runner_device_id: &Option<String>, expected_device_id: &Option<String>) -> (r: Result<(), String>)
    ensures
        r is Err <==> (expected_device_id matches Some(e) && !(runner_device_id matches Some(d) && d@ == e@)),
        r matches Err(m) ==> m@ == "Runner is not owned by selected Device "@ + debug_text(expected_device_id->0@),
{
    match expected_device_id {
        None => Ok(()),
        Some(expected) => {
            let owned_by_expected = match runner_device_id {
                Some(device) => text_eq(device.as_str(), expected.as_str()),
                None => false,
            };
            if owned_by_expected {
                Ok(())
            } else {
                let mut m = owned("Runner is not owned by selected Device ");
                let q = debug_quoted(expected.as_str());
                m.append(q.as_str());
                Err(m)
            }
        },
    }
}

} // verus!
