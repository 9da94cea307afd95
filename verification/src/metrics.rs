//! The fields that the system load is read from: the idle share in the
//! output of `top`, and the values of `/proc/meminfo`. The fields are found
//! here as text; turning them into numbers is the caller's part.

use vstd::prelude::*;
use crate::text::{chars_of, has_sub, has_text, starts_with, starts_with_text, string_from_chars};

verus! {

/// A character that `char::is_whitespace` accepts (Unicode White_Space).
pub open spec fn is_space(c: char) -> bool {
    let u = c as u32;
    (0x09 <= u && u <= 0x0d) || u == 0x20 || u == 0x85 || u == 0xa0 || u == 0x1680 || (0x2000 <= u && u <= 0x200a)
        || u == 0x2028 || u == 0x2029 || u == 0x202f || u == 0x205f || u == 0x3000
}

/// The pieces of `s` between occurrences of `sep` (what `str::split` yields).
pub open spec fn split_on(s: Seq<char>, sep: char) -> Seq<Seq<char>>
    decreases s.len(),
{
    if s.len() == 0 {
        seq![Seq::empty()]
    } else {
        let r = split_on(s.drop_last(), sep);
        if s.last() == sep {
            r.push(Seq::empty())
        } else {
            r.update(r.len() - 1, r.last().push(s.last()))
        }
    }
}

/// The words of `s`, the runs of characters between whitespace (what
/// `str::split_whitespace` yields).
pub open spec fn words(s: Seq<char>) -> Seq<Seq<char>>
    decreases s.len(),
{
    if s.len() == 0 {
        Seq::empty()
    } else {
        let r = words(s.drop_last());
        if is_space(s.last()) {
            r
        } else if s.len() > 1 && !is_space(s[s.len() - 2]) && r.len() > 0 {
            r.update(r.len() - 1, r.last().push(s.last()))
        } else {
            r.push(seq![s.last()])
        }
    }
}

/// The first piece that holds `needle`.
pub open spec fn first_holding(parts: Seq<Seq<char>>, needle: Seq<char>) -> Option<Seq<char>>
    decreases parts.len(),
{
    if parts.len() == 0 {
        None
    } else if has_text(parts[0], needle) {
        Some(parts[0])
    } else {
        first_holding(parts.drop_first(), needle)
    }
}

/// The first piece that starts with `prefix`.
pub open spec fn first_starting(parts: Seq<Seq<char>>, prefix: Seq<char>) -> Option<Seq<char>>
    decreases parts.len(),
{
    if parts.len() == 0 {
        None
    } else if starts_with_text(parts[0], prefix) {
        Some(parts[0])
    } else {
        first_starting(parts.drop_first(), prefix)
    }
}

/// The idle share in the output of `top`: on the first line that holds
/// "%Cpu(s)", the first comma-separated part that holds "id", and its first
/// word. (A line's trailing carriage return, and the trimming of the part,
/// change no word, so they are left out here.)
pub open spec fn cpu_idle_field(top: Seq<char>) -> Option<Seq<char>> {
    match first_holding(split_on(top, '\n'), "%Cpu(s)"@) {
        Some(line) => match first_holding(split_on(line, ','), "id"@) {
            Some(part) => if words(part).len() > 0 {
                Some(words(part)[0])
            } else {
                None
            },
            None => None,
        },
        None => None,
    }
}

/// The value of a `/proc/meminfo` entry: on the first line that starts with
/// `key`, its second word.
pub open spec fn meminfo_field(text: Seq<char>, key: Seq<char>) -> Option<Seq<char>> {
    match first_starting(split_on(text, '\n'), key) {
        Some(line) => if words(line).len() > 1 {
            Some(words(line)[1])
        } else {
            None
        },
        None => None,
    }
}

/// Whether a character is whitespace.
pub fn space_char(c: char) -> (r: bool)
    ensures
        r == is_space(c),
{
    let u = c as u32;
    (0x09 <= u && u <= 0x0d) || u == 0x20 || u == 0x85 || u == 0xa0 || u == 0x1680 || (0x2000 <= u && u <= 0x200a)
        || u == 0x2028 || u == 0x2029 || u == 0x202f || u == 0x205f || u == 0x3000
}

/// The pieces of `s` between occurrences of `sep`.
pub fn split_chars(s: &Vec<char>, sep: char) -> (r: Vec<Vec<char>>)
    ensures
        r@.map_values(|p: Vec<char>| p@) == split_on(s@, sep),
{
    let mut done: Vec<Vec<char>> = Vec::new();
    let mut cur: Vec<char> = Vec::new();
    let mut i: usize = 0;
    assert(s@.subrange(0, 0) =~= Seq::<char>::empty());
    assert(done@.map_values(|p: Vec<char>| p@).push(cur@) =~= split_on(s@.subrange(0, 0), sep));
    while i < s.len()
        invariant
            i <= s.len(),
            done@.map_values(|p: Vec<char>| p@).push(cur@) == split_on(s@.subrange(0, i as int), sep),
        decreases s.len() - i,
    {
        let ghost before = done@.map_values(|p: Vec<char>| p@);
        assert(s@.subrange(0, i + 1).drop_last() =~= s@.subrange(0, i as int));
        if s[i] == sep {
            done.push(cur);
            cur = Vec::new();
            assert(done@.map_values(|p: Vec<char>| p@) =~= before.push(
                split_on(s@.subrange(0, i as int), sep).last(),
            ));
        } else {
            cur.push(s[i]);
        }
        i = i + 1;
        assert(done@.map_values(|p: Vec<char>| p@).push(cur@) =~= split_on(s@.subrange(0, i as int), sep));
    }
    assert(s@.subrange(0, s@.len() as int) =~= s@);
    done.push(cur);
    assert(done@.map_values(|p: Vec<char>| p@) =~= split_on(s@, sep));
    done
}

/// The words of `s`.
pub fn word_list(s: &Vec<char>) -> (r: Vec<Vec<char>>)
    ensures
        r@.map_values(|p: Vec<char>| p@) == words(s@),
{
    let mut done: Vec<Vec<char>> = Vec::new();
    let mut cur: Vec<char> = Vec::new();
    let mut i: usize = 0;
    assert(s@.subrange(0, 0) =~= Seq::<char>::empty());
    assert(done@.map_values(|p: Vec<char>| p@) =~= words(s@.subrange(0, 0)));
    while i < s.len()
        invariant
            i <= s.len(),
            cur@.len() > 0 ==> i > 0 && !is_space(s@[i - 1]),
            i > 0 && !is_space(s@[i - 1]) ==> cur@.len() > 0,
            cur@.len() > 0 ==> done@.map_values(|p: Vec<char>| p@).push(cur@) == words(s@.subrange(0, i as int)),
            cur@.len() == 0 ==> done@.map_values(|p: Vec<char>| p@) == words(s@.subrange(0, i as int)),
        decreases s.len() - i,
    {
        let ghost before = done@.map_values(|p: Vec<char>| p@);
        let ghost pre = s@.subrange(0, i + 1);
        assert(pre.drop_last() =~= s@.subrange(0, i as int));
        assert(pre.last() == s@[i as int]);
        if space_char(s[i]) {
            if cur.len() > 0 {
                done.push(cur);
                cur = Vec::new();
                assert(done@.map_values(|p: Vec<char>| p@) =~= before.push(
                    words(s@.subrange(0, i as int)).last(),
                ));
            }
        } else {
            if cur.len() > 0 {
                assert(pre[pre.len() - 2] == s@[i - 1]);
            }
            cur.push(s[i]);
            proof {
                if cur@.len() == 1 {
                    assert(cur@ =~= seq![s@[i as int]]);
                }
            }
        }
        i = i + 1;
        proof {
            if cur@.len() > 0 {
                assert(done@.map_values(|p: Vec<char>| p@).push(cur@) =~= words(s@.subrange(0, i as int)));
            } else {
                assert(done@.map_values(|p: Vec<char>| p@) =~= words(s@.subrange(0, i as int)));
            }
        }
    }
    assert(s@.subrange(0, s@.len() as int) =~= s@);
    if cur.len() > 0 {
        done.push(cur);
    }
    assert(done@.map_values(|p: Vec<char>| p@) =~= words(s@));
    done
}

/// The first piece that holds `needle`, by its position.
fn find_holding(parts: &Vec<Vec<char>>, needle: &str) -> (r: Option<usize>)
    ensures
        match r {
            Some(i) => i < parts.len() && first_holding(parts@.map_values(|p: Vec<char>| p@), needle@) == Some(
                parts@[i as int]@,
            ),
            None => first_holding(parts@.map_values(|p: Vec<char>| p@), needle@) is None,
        },
{
    let ghost pv = parts@.map_values(|p: Vec<char>| p@);
    let mut i: usize = 0;
    assert(pv.subrange(0, pv.len() as int) =~= pv);
    while i < parts.len()
        invariant
            pv == parts@.map_values(|p: Vec<char>| p@),
            i <= parts.len(),
            first_holding(pv, needle@) == first_holding(pv.subrange(i as int, pv.len() as int), needle@),
        decreases parts.len() - i,
    {
        let ghost rest = pv.subrange(i as int, pv.len() as int);
        if has_sub(&parts[i], needle) {
            return Some(i);
        }
        assert(rest.drop_first() =~= pv.subrange(i + 1, pv.len() as int));
        i = i + 1;
    }
    None
}

/// The first piece that starts with `prefix`, by its position.
fn find_starting(parts: &Vec<Vec<char>>, prefix: &str) -> (r: Option<usize>)
    ensures
        match r {
            Some(i) => i < parts.len() && first_starting(parts@.map_values(|p: Vec<char>| p@), prefix@) == Some(
                parts@[i as int]@,
            ),
            None => first_starting(parts@.map_values(|p: Vec<char>| p@), prefix@) is None,
        },
{
    let ghost pv = parts@.map_values(|p: Vec<char>| p@);
    let mut i: usize = 0;
    assert(pv.subrange(0, pv.len() as int) =~= pv);
    while i < parts.len()
        invariant
            pv == parts@.map_values(|p: Vec<char>| p@),
            i <= parts.len(),
            first_starting(pv, prefix@) == first_starting(pv.subrange(i as int, pv.len() as int), prefix@),
        decreases parts.len() - i,
    {
        let ghost rest = pv.subrange(i as int, pv.len() as int);
        if starts_with(&parts[i], prefix) {
            return Some(i);
        }
        assert(rest.drop_first() =~= pv.subrange(i + 1, pv.len() as int));
        i = i + 1;
    }
    None
}

/// The idle share field of the output of `top`, as text.
pub fn cpu_idle_text(top_output: &str) -> (r: Option<String>)
    ensures
        match r {
            Some(t) => cpu_idle_field(top_output@) == Some(t@),
            None => cpu_idle_field(top_output@) is None,
        },
{
    let cs = chars_of(top_output);
    let lines = split_chars(&cs, '\n');
    match find_holding(&lines, "%Cpu(s)") {
        Some(li) => {
            let parts = split_chars(&lines[li], ',');
            match find_holding(&parts, "id") {
                Some(pi) => {
                    let ws = word_list(&parts[pi]);
                    if ws.len() > 0 {
                        assert(ws@.map_values(|p: Vec<char>| p@)[0] == ws@[0]@);
                        Some(string_from_chars(ws[0].as_slice()))
                    } else {
                        None
                    }
                },
                None => None,
            }
        },
        None => None,
    }
}

/// The value of a `/proc/meminfo` entry, as text.
pub fn meminfo_value_text(meminfo: &str, key: &str) -> (r: Option<String>)
    ensures
        match r {
            Some(t) => meminfo_field(meminfo@, key@) == Some(t@),
            None => meminfo_field(meminfo@, key@) is None,
        },
{
    let cs = chars_of(meminfo);
    let lines = split_chars(&cs, '\n');
    match find_starting(&lines, key) {
        Some(li) => {
            let ws = word_list(&lines[li]);
            if ws.len() > 1 {
                assert(ws@.map_values(|p: Vec<char>| p@)[1] == ws@[1]@);
                Some(string_from_chars(ws[1].as_slice()))
            } else {
                None
            }
        },
        None => None,
    }
}

} // verus!
