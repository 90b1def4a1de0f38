use vstd::prelude::*;

pub mod app;
pub mod cli;
pub mod error;
pub mod structs;

verus! {

/// View of an optional owned string.
pub open spec fn opt_string_view(v: Option<String>) -> Option<Seq<char>> {
    match v {
        Some(s) => Some(s@),
        None => None,
    }
}

/// An informational line, as printed to the terminal.
pub open spec fn info_line_spec(s: Seq<char>) -> Seq<char> {
    "[info] "@ + s
}

/// Prefix a message with the informational marker.
pub fn info_line(s: &str) -> (r: String)
    ensures
        r@ == info_line_spec(s@),
{
    let mut out = String::from_str("[info] ");
    out.append(s);
    out
}

/// The separator printed between the blocks of a multi-file listing.
pub fn default_separator() -> (r: String)
    ensures
        r@ == separator_spec(),
{
    String::from_str("----")
}

/// Borrow the string inside an optional owned string.
pub fn opt_as_str(v: &Option<String>) -> (r: Option<&str>)
    ensures
        opt_str_view(r) == opt_string_view(*v),
{
    match v {
        Some(s) => Some(s.as_str()),
        None => None,
    }
}

/// Clone an optional owned string.
pub fn clone_opt_string(v: &Option<String>) -> (r: Option<String>)
    ensures
        r == *v,
{
    match v {
        Some(s) => Some(s.clone()),
        None => None,
    }
}

/// Placeholder shown when a field has no value.
pub open spec fn unknown_val_spec() -> Seq<char> {
    "unknown"@
}

/// The separator printed between the blocks of a multi-file listing.
pub open spec fn separator_spec() -> Seq<char> {
    "----"@
}

/// View of an optional borrowed string.
pub open spec fn opt_str_view(v: Option<&str>) -> Option<Seq<char>> {
    match v {
        Some(s) => Some(s@),
        None => None,
    }
}

/// One `Key: value` line; an absent value renders as the placeholder.
pub open spec fn key_val_spec(key: Seq<char>, val: Option<Seq<char>>) -> Seq<char> {
    key + ": "@ + (match val {
        Some(v) => v,
        None => unknown_val_spec(),
    }) + "\n"@
}

/// Get a human-readable key-value pair.
pub fn get_formatted_key_val(key: &str, val: Option<&str>) -> (r: String)
    ensures
        r@ == key_val_spec(key@, opt_str_view(val)),
{
    let mut s = String::from_str(key);
    s.append(": ");
    match val {
        Some(v) => s.append(v),
        None => s.append("unknown"),
    }
    s.append("\n");
    s
}

/// The character for one decimal digit.
pub open spec fn dec_digit_char(d: nat) -> char {
    if d == 0 {
        '0'
    } else if d == 1 {
        '1'
    } else if d == 2 {
        '2'
    } else if d == 3 {
        '3'
    } else if d == 4 {
        '4'
    } else if d == 5 {
        '5'
    } else if d == 6 {
        '6'
    } else if d == 7 {
        '7'
    } else if d == 8 {
        '8'
    } else {
        '9'
    }
}

/// The decimal representation of a natural number, most significant digit first.
pub open spec fn dec_seq(n: nat) -> Seq<char>
    decreases n,
{
    if n < 10 {
        seq![dec_digit_char(n)]
    } else {
        dec_seq(n / 10) + seq![dec_digit_char(n % 10)]
    }
}

fn digit_str(d: u64) -> (r: &'static str)
    requires
        d < 10,
    ensures
        r@ == seq![dec_digit_char(d as nat)],
{
    proof {
        reveal_strlit("0");
        reveal_strlit("1");
        reveal_strlit("2");
        reveal_strlit("3");
        reveal_strlit("4");
        reveal_strlit("5");
        reveal_strlit("6");
        reveal_strlit("7");
        reveal_strlit("8");
        reveal_strlit("9");
    }
    let r: &'static str = if d == 0 {
        "0"
    } else if d == 1 {
        "1"
    } else if d == 2 {
        "2"
    } else if d == 3 {
        "3"
    } else if d == 4 {
        "4"
    } else if d == 5 {
        "5"
    } else if d == 6 {
        "6"
    } else if d == 7 {
        "7"
    } else if d == 8 {
        "8"
    } else {
        "9"
    };
    proof {
        assert(r@ =~= seq![dec_digit_char(d as nat)]);
    }
    r
}

/// Render a number in decimal.
pub fn u64_to_string(n: u64) -> (r: String)
    ensures
        r@ == dec_seq(n as nat),
    decreases n,
{
    if n < 10 {
        String::from_str(digit_str(n))
    } else {
        let mut s = u64_to_string(n / 10);
        s.append(digit_str(n % 10));
        s
    }
}

/// The suffix of `s` after its last `/`; the whole of `s` when it has none.
pub open spec fn after_last_slash(s: Seq<char>) -> Seq<char>
    decreases s.len(),
{
    if s.len() == 0 {
        s
    } else if s.last() == '/' {
        Seq::<char>::empty()
    } else {
        after_last_slash(s.drop_last()).push(s.last())
    }
}

/// The display name of a path: what follows its last `/`, or a placeholder
/// when that is empty.
pub open spec fn base_name_spec(s: Seq<char>) -> Seq<char> {
    if after_last_slash(s).len() == 0 {
        unknown_val_spec()
    } else {
        after_last_slash(s)
    }
}

proof fn lemma_after_last_slash(s: Seq<char>, i: int)
    requires
        0 <= i <= s.len(),
        forall|j: int| i <= j < s.len() ==> s[j] != '/',
        i > 0 ==> s[i - 1] == '/',
    ensures
        after_last_slash(s) =~= s.subrange(i, s.len() as int),
    decreases s.len(),
{
    if s.len() == i {
        if i == 0 {
            assert(after_last_slash(s) =~= s.subrange(0, 0));
        } else {
            assert(s.last() == '/');
            assert(after_last_slash(s) =~= s.subrange(i, s.len() as int));
        }
    } else {
        assert(s.last() != '/');
        lemma_after_last_slash(s.drop_last(), i);
        assert(s.drop_last().subrange(i, s.len() - 1) =~= s.subrange(i, s.len() - 1));
        assert(after_last_slash(s) =~= s.subrange(i, s.len() as int));
    }
}

/// The display name of a path string.
pub fn base_name(path: &str) -> (r: String)
    ensures
        r@ == base_name_spec(path@),
{
    let len = path.unicode_len();
    let mut i = len;
    while i > 0 && path.get_char(i - 1) != '/'
        invariant
            i <= len,
            len == path@.len(),
            forall|j: int| i <= j < len ==> path@[j] != '/',
        decreases i,
    {
        i = i - 1;
    }
    proof {
        lemma_after_last_slash(path@, i as int);
    }
    let tail = path.substring_char(i, len);
    if tail.unicode_len() == 0 {
        String::from_str("unknown")
    } else {
        String::from_str(tail)
    }
}

} // verus!
