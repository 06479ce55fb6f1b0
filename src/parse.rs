//! Reading the text that the network manager prints.
use vstd::prelude::*;
use vstd::string::*;
use substring::Substring;

verus! {

/// The characters of `s` from index `start` up to `end`, both cut down to the
/// length of `s`; nothing when `end <= start`.
pub open spec fn char_range_spec(s: Seq<char>, start: int, end: int) -> Seq<char> {
    if end <= start {
        Seq::empty()
    } else {
        let n = s.len() as int;
        s.subrange(if start < n { start } else { n }, if end < n { end } else { n })
    }
}

/// Relies on `substring::Substring::substring`: it slices between the byte
/// offsets of the characters at `start` and `end`, each replaced by the end of
/// the string when there is no such character, and gives "" when
/// `end <= start`.
#[verifier::external_body]
fn char_range(s: &str, start: usize, end: usize) -> (r: String)
    ensures
        r@ == char_range_spec(s@, start as int, end as int),
{
    s.substring(start, end).to_string()
}

/// `needle` stands in `hay` at index `i`.
pub open spec fn occurs_at(hay: Seq<char>, needle: Seq<char>, i: int) -> bool {
    0 <= i && i + needle.len() <= hay.len() && hay.subrange(i, i + needle.len()) == needle
}

/// `needle` stands somewhere in `hay`.
pub open spec fn contains(hay: Seq<char>, needle: Seq<char>) -> bool {
    exists|i: int| occurs_at(hay, needle, i)
}

/// The characters of a string, one by one.
pub fn chars_of(s: &str) -> (r: Vec<char>)
    ensures
        r@ == s@,
{
    let n = s.unicode_len();
    let mut r: Vec<char> = Vec::new();
    let mut i: usize = 0;
    while i < n
        invariant
            n == s@.len(),
            i <= n,
            r@ == s@.subrange(0, i as int),
        decreases n - i,
    {
        r.push(s.get_char(i));
        i = i + 1;
        assert(r@ =~= s@.subrange(0, i as int));
    }
    assert(r@ =~= s@);
    r
}

fn occurs_here(hay: &Vec<char>, needle: &Vec<char>, i: usize) -> (r: bool)
    requires
        i + needle@.len() <= hay@.len(),
    ensures
        r == occurs_at(hay@, needle@, i as int),
{
    let m = needle.len();
    let hl = hay.len();
    let mut j: usize = 0;
    while j < m
        invariant
            m == needle@.len(),
            hl == hay@.len(),
            i + m <= hay@.len(),
            j <= m,
            forall|k: int| 0 <= k < j ==> hay@[i + k] == needle@[k],
        decreases m - j,
    {
        if hay[i + j] != needle[j] {
            assert(hay@.subrange(i as int, i + m)[j as int] != needle@[j as int]);
            return false;
        }
        j = j + 1;
    }
    assert(hay@.subrange(i as int, i + m) =~= needle@);
    true
}

/// Whether `needle` stands somewhere in `hay`.
pub fn find(hay: &Vec<char>, needle: &Vec<char>) -> (r: bool)
    ensures
        r == contains(hay@, needle@),
{
    if needle.len() > hay.len() {
        return false;
    }
    let last = hay.len() - needle.len();
    let mut i: usize = 0;
    loop
        invariant
            last == hay@.len() - needle@.len(),
            i <= last,
            forall|k: int| 0 <= k < i ==> !occurs_at(hay@, needle@, k),
        decreases last - i,
    {
        if occurs_here(hay, needle, i) {
            return true;
        }
        if i == last {
            assert forall|k: int| !occurs_at(hay@, needle@, k) by {
                if 0 <= k < i {
                } else if k != i as int {
                    assert(!(0 <= k && k + needle@.len() <= hay@.len()));
                }
            }
            return false;
        }
        i = i + 1;
    }
}

/// Whether the text `needle` stands in the text `hay`.
pub fn text_contains(hay: &str, needle: &str) -> (r: bool)
    ensures
        r == contains(hay@, needle@),
{
    find(&chars_of(hay), &chars_of(needle))
}

/// A space or a line break.
pub open spec fn is_blank(c: char) -> bool {
    c == ' ' || c == '\n'
}

/// `s` with its spaces and line breaks taken out.
pub open spec fn without_blanks(s: Seq<char>) -> Seq<char>
    decreases s.len(),
{
    if s.len() == 0 {
        s
    } else {
        let rest = without_blanks(s.drop_last());
        if is_blank(s.last()) {
            rest
        } else {
            rest.push(s.last())
        }
    }
}

/// The radio is reported on: with spaces and line breaks taken out, the
/// output of the radio query holds `enabled`.
pub open spec fn radio_enabled_spec(out: Seq<char>) -> bool {
    contains(without_blanks(out), "enabled"@)
}

/// Reads the radio query's output.
pub fn radio_enabled(out: &str) -> (r: bool)
    ensures
        r == radio_enabled_spec(out@),
{
    let cs = chars_of(out);
    let mut kept: Vec<char> = Vec::new();
    let mut i: usize = 0;
    while i < cs.len()
        invariant
            cs@ == out@,
            i <= cs@.len(),
            kept@ == without_blanks(cs@.subrange(0, i as int)),
        decreases cs@.len() - i,
    {
        let c = cs[i];
        assert(cs@.subrange(0, i + 1).drop_last() =~= cs@.subrange(0, i as int));
        if c != ' ' && c != '\n' {
            kept.push(c);
        }
        i = i + 1;
    }
    assert(cs@.subrange(0, cs@.len() as int) =~= cs@);
    find(&kept, &chars_of("enabled"))
}

/// The disconnect command's output confirms it: it holds `disconnect`.
pub fn confirms_disconnect(out: &str) -> (r: bool)
    ensures
        r == contains(out@, "disconnect"@),
{
    text_contains(out, "disconnect")
}

/// The connect command's output confirms the join: it holds
/// `successfully activated`.
pub fn confirms_activation(out: &str) -> (r: bool)
    ensures
        r == contains(out@, "successfully activated"@),
{
    text_contains(out, "successfully activated")
}

/// The index of the line break that ends the line through `i`, or the length
/// of `s` when that line is the last.
pub open spec fn line_end(s: Seq<char>, i: int) -> int
    decreases s.len() - i,
{
    if i >= s.len() {
        s.len() as int
    } else if s[i] == '\n' {
        i
    } else {
        line_end(s, i + 1)
    }
}

proof fn lemma_line_end(s: Seq<char>, i: int)
    requires
        i <= s.len(),
    ensures
        i <= line_end(s, i) <= s.len(),
        line_end(s, i) < s.len() ==> s[line_end(s, i)] == '\n',
        forall|k: int| i <= k < line_end(s, i) ==> s[k] != '\n',
    decreases s.len() - i,
{
    if i < s.len() && s[i] != '\n' {
        lemma_line_end(s, i + 1);
    }
}

fn end_of_line(cs: &Vec<char>, start: usize) -> (e: usize)
    requires
        start <= cs@.len(),
    ensures
        e == line_end(cs@, start as int),
{
    let n = cs.len();
    let mut e: usize = start;
    while e < n && cs[e] != '\n'
        invariant
            n == cs@.len(),
            start <= e <= n,
            line_end(cs@, start as int) == line_end(cs@, e as int),
        decreases n - e,
    {
        e = e + 1;
    }
    e
}

/// The line from `start` to `end` is marked as the active one: it begins
/// with `yes:`.
pub open spec fn marks_active(s: Seq<char>, start: int, end: int) -> bool {
    end - start >= 4 && s.subrange(start, start + 4) == "yes:"@
}

/// The rest of the first line at or after `start` that is marked active, with
/// the mark taken off.
pub open spec fn active_from(s: Seq<char>, start: int) -> Option<Seq<char>>
    decreases s.len() + 1 - start,
    via active_from_decreases
{
    if start < 0 || start > s.len() {
        None
    } else {
        let e = line_end(s, start);
        if marks_active(s, start, e) {
            Some(s.subrange(start + 4, e))
        } else {
            active_from(s, e + 1)
        }
    }
}

#[via_fn]
proof fn active_from_decreases(s: Seq<char>, start: int) {
    if 0 <= start <= s.len() {
        lemma_line_end(s, start);
    }
}

/// The network the adapter is associated with, read from the listing of
/// `active:ssid` lines: the first line that starts with `yes:`, without it.
pub fn active_ssid(out: &str) -> (r: Option<String>)
    ensures
        r matches Some(t) ==> active_from(out@, 0) == Some(t@),
        r is None ==> active_from(out@, 0) is None,
{
    let cs = chars_of(out);
    let n = cs.len();
    let mut start: usize = 0;
    loop
        invariant
            cs@ == out@,
            n == cs@.len(),
            start <= n,
            active_from(out@, 0) == active_from(out@, start as int),
        decreases n - start,
    {
        let e = end_of_line(&cs, start);
        proof {
            lemma_line_end(out@, start as int);
            reveal_strlit("yes:");
        }
        if e - start >= 4 && cs[start] == 'y' && cs[start + 1] == 'e' && cs[start + 2] == 's'
            && cs[start + 3] == ':' {
            assert(out@.subrange(start as int, start + 4) =~= "yes:"@);
            return Some(char_range(out, start + 4, e));
        }
        proof {
            if e - start >= 4 {
                assert(out@.subrange(start as int, start + 4)[0] == out@[start as int]);
                assert(out@.subrange(start as int, start + 4)[1] == out@[start + 1]);
                assert(out@.subrange(start as int, start + 4)[2] == out@[start + 2]);
                assert(out@.subrange(start as int, start + 4)[3] == out@[start + 3]);
            }
        }
        if e >= n {
            assert(active_from(out@, e + 1) is None);
            return None;
        }
        start = e + 1;
    }
}

/// The line from `start` to `end` names a wireless device: it ends with
/// `:wifi`.
pub open spec fn marks_wifi(s: Seq<char>, start: int, end: int) -> bool {
    end - start >= 5 && s.subrange(end - 5, end) == ":wifi"@
}

/// The device named on the first line at or after `start` that ends with
/// `:wifi`, that suffix taken off.
pub open spec fn device_from(s: Seq<char>, start: int) -> Option<Seq<char>>
    decreases s.len() + 1 - start,
    via device_from_decreases
{
    if start < 0 || start > s.len() {
        None
    } else {
        let e = line_end(s, start);
        if marks_wifi(s, start, e) {
            Some(s.subrange(start, e - 5))
        } else {
            device_from(s, e + 1)
        }
    }
}

#[via_fn]
proof fn device_from_decreases(s: Seq<char>, start: int) {
    if 0 <= start <= s.len() {
        lemma_line_end(s, start);
    }
}

/// The wireless device, read from the listing of `device:type` lines: the
/// first line whose type is `wifi`.
pub fn wifi_device(out: &str) -> (r: Option<String>)
    ensures
        r matches Some(t) ==> device_from(out@, 0) == Some(t@),
        r is None ==> device_from(out@, 0) is None,
{
    let cs = chars_of(out);
    let suffix = chars_of(":wifi");
    proof {
        reveal_strlit(":wifi");
    }
    let n = cs.len();
    let mut start: usize = 0;
    loop
        invariant
            cs@ == out@,
            suffix@ == ":wifi"@,
            n == cs@.len(),
            start <= n,
            device_from(out@, 0) == device_from(out@, start as int),
        decreases n - start,
    {
        let e = end_of_line(&cs, start);
        proof {
            lemma_line_end(out@, start as int);
            reveal_strlit(":wifi");
        }
        if e - start >= 5 && occurs_here(&cs, &suffix, e - 5) {
            return Some(char_range(out, start, e - 5));
        }
        if e >= n {
            assert(device_from(out@, e + 1) is None);
            return None;
        }
        start = e + 1;
    }
}

/// A scanned network is open when it advertises no security scheme.
pub open spec fn entry_spec(ssid: Seq<char>, security: Seq<char>) -> (Seq<char>, bool) {
    (ssid, security.len() == 0)
}

/// Turns scanned networks, given as name and security scheme, into name and
/// whether the network is open, in the same order.
pub fn network_entries(found: &Vec<(String, String)>) -> (r: Vec<(String, bool)>)
    ensures
        r.deep_view().len() == found@.len(),
        forall|i: int|
            0 <= i < found@.len() ==> #[trigger] r.deep_view()[i] == entry_spec(
                found@[i].0@,
                found@[i].1@,
            ),
{
    let mut r: Vec<(String, bool)> = Vec::new();
    let mut i: usize = 0;
    while i < found.len()
        invariant
            i <= found@.len(),
            r.deep_view().len() == i,
            forall|k: int|
                0 <= k < i ==> #[trigger] r.deep_view()[k] == entry_spec(
                    found@[k].0@,
                    found@[k].1@,
                ),
        decreases found@.len() - i,
    {
        let (ssid, security) = &found[i];
        let ghost before = r.deep_view();
        r.push((ssid.clone(), security.as_str().is_empty()));
        assert(r.deep_view() =~= before.push(entry_spec(found@[i as int].0@, found@[i as int].1@)));
        i = i + 1;
    }
    r
}

} // verus!
