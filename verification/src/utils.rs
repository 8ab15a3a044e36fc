//! Filling translated text with positional arguments.

use vstd::prelude::*;

use crate::text::{push_char, signed_decimal, signed_decimal_string};

verus! {

/// Whether the two characters from `i` on are the placeholder `{}`.
pub open spec fn placeholder_at(s: Seq<char>, i: int) -> bool {
    0 <= i && i + 1 < s.len() && s[i] == '{' && s[i + 1] == '}'
}

/// The first position, from `i` on, where a placeholder `{}` starts.
pub open spec fn first_placeholder_from(s: Seq<char>, i: nat) -> Option<nat>
    decreases s.len() - i,
{
    if i + 1 >= s.len() {
        None
    } else if placeholder_at(s, i as int) {
        Some(i)
    } else {
        first_placeholder_from(s, i + 1)
    }
}

/// `s` with its first placeholder `{}` replaced by `arg`; unchanged without a placeholder.
pub open spec fn replace_first_placeholder(s: Seq<char>, arg: Seq<char>) -> Seq<char> {
    match first_placeholder_from(s, 0) {
        Some(i) => s.subrange(0, i as int) + arg + s.subrange(i as int + 2, s.len() as int),
        None => s,
    }
}

/// `s` with each argument in turn put in place of the first placeholder `{}` left in the text
/// so far.
pub open spec fn fill_placeholders(s: Seq<char>, args: Seq<Seq<char>>) -> Seq<char>
    decreases args.len(),
{
    if args.len() == 0 {
        s
    } else {
        fill_placeholders(replace_first_placeholder(s, args[0]), args.drop_first())
    }
}

/// The placeholder found from `k` on is the first `{` directly followed by `}` at or after `k`,
/// and none is found exactly when there is no such pair.
pub proof fn law_first_placeholder_is_the_first(s: Seq<char>, k: nat)
    ensures
        first_placeholder_from(s, k) matches Some(i) ==> k <= i && i + 1 < s.len() && s[i as int]
            == '{' && s[i + 1 as int] == '}' && forall|j: int|
            k <= j < i ==> !(#[trigger] s[j] == '{' && s[j + 1] == '}'),
        first_placeholder_from(s, k) is None ==> forall|j: int|
            k <= j && j + 1 < s.len() ==> !(#[trigger] s[j] == '{' && s[j + 1] == '}'),
    decreases s.len() - k,
{
    if k + 1 < s.len() && !placeholder_at(s, k as int) {
        law_first_placeholder_is_the_first(s, k + 1);
    }
}

/// Putting an argument in place of the first placeholder keeps the text before the first `{}`,
/// then the argument, then the text after that `{}`.
pub proof fn law_replace_first_placeholder(s: Seq<char>, arg: Seq<char>, i: int)
    requires
        0 <= i,
        i + 1 < s.len(),
        s[i] == '{',
        s[i + 1] == '}',
        forall|j: int| 0 <= j < i ==> !(#[trigger] s[j] == '{' && s[j + 1] == '}'),
    ensures
        replace_first_placeholder(s, arg) == s.subrange(0, i) + arg + s.subrange(i + 2, s.len() as int),
        replace_first_placeholder(s, arg).len() == s.len() - 2 + arg.len(),
{
    law_first_placeholder_is_the_first(s, 0);
    match first_placeholder_from(s, 0) {
        Some(f) => {
            if f < i {
                assert(!(s[f as int] == '{' && s[f + 1 as int] == '}'));
            }
            if f > i {
                assert(!(s[i] == '{' && s[i + 1] == '}'));
            }
        },
        None => {
            assert(!(s[i] == '{' && s[i + 1] == '}'));
        },
    }
}

/// Text with no `{` directly followed by `}` comes back unchanged, whatever the arguments.
pub proof fn law_text_without_braces_pair_is_kept(s: Seq<char>, args: Seq<Seq<char>>)
    requires
        forall|j: int| 0 <= j && j + 1 < s.len() ==> !(#[trigger] s[j] == '{' && s[j + 1] == '}'),
    ensures
        fill_placeholders(s, args) == s,
{
    law_first_placeholder_is_the_first(s, 0);
    if first_placeholder_from(s, 0) is Some {
        let f = first_placeholder_from(s, 0)->0;
        assert(!(s[f as int] == '{' && s[f + 1 as int] == '}'));
    }
    law_no_placeholder_no_change(s, args);
}

/// Text without a placeholder comes back unchanged, whatever the arguments.
pub proof fn law_no_placeholder_no_change(s: Seq<char>, args: Seq<Seq<char>>)
    requires
        first_placeholder_from(s, 0) is None,
    ensures
        fill_placeholders(s, args) == s,
    decreases args.len(),
{
    if args.len() > 0 {
        law_no_placeholder_no_change(s, args.drop_first());
    }
}

/// The texts of a list of strings.
pub open spec fn texts(args: Seq<String>) -> Seq<Seq<char>> {
    args.map_values(|a: String| a@)
}

/// The characters of a string, in order.
fn chars_of(s: &str) -> (r: Vec<char>)
    ensures
        r@ == s@,
{
    let n = s.unicode_len();
    let mut v: Vec<char> = Vec::new();
    let mut i: usize = 0;
    while i < n
        invariant
            n == s@.len(),
            0 <= i <= n,
            v@ == s@.take(i as int),
        decreases n - i,
    {
        v.push(s.get_char(i));
        assert(v@ =~= s@.take(i + 1));
        i = i + 1;
    }
    assert(s@.take(n as int) =~= s@);
    v
}

/// The position of the first placeholder `{}` in a character sequence.
fn find_placeholder(cs: &Vec<char>) -> (r: Option<usize>)
    ensures
        match r {
            Some(i) => first_placeholder_from(cs@, 0) == Some(i as nat) && i + 1 < cs@.len(),
            None => first_placeholder_from(cs@, 0) is None,
        },
{
    if cs.len() < 2 {
        return None;
    }
    let mut i: usize = 0;
    while i < cs.len() - 1
        invariant
            cs@.len() >= 2,
            0 <= i <= cs@.len() - 1,
            first_placeholder_from(cs@, 0) == first_placeholder_from(cs@, i as nat),
        decreases cs@.len() - i,
    {
        if cs[i] == '{' && cs[i + 1] == '}' {
            return Some(i);
        }
        i = i + 1;
    }
    None
}

/// Replaces the first placeholder `{}` in `s` with `arg` (`str::replacen` with a count of one).
pub fn replace_first(s: &str, arg: &str) -> (r: String)
    ensures
        r@ == replace_first_placeholder(s@, arg@),
{
    let cs = chars_of(s);
    match find_placeholder(&cs) {
        None => {
            let r = String::from_str(s);
            r
        },
        Some(pos) => {
            let mut out = String::new();
            let mut i: usize = 0;
            while i < pos
                invariant
                    0 <= i <= pos,
                    pos + 1 < cs@.len(),
                    out@ == cs@.subrange(0, i as int),
                decreases pos - i,
            {
                push_char(&mut out, cs[i]);
                assert(out@ =~= cs@.subrange(0, i + 1));
                i = i + 1;
            }
            out.append(arg);
            let ghost mid = out@;
            let n = cs.len();
            assert(pos + 2 <= n);
            let mut j: usize = pos + 2;
            while j < cs.len()
                invariant
                    pos + 2 <= j <= cs@.len(),
                    out@ == mid + cs@.subrange(pos + 2, j as int),
                decreases cs@.len() - j,
            {
                push_char(&mut out, cs[j]);
                assert(out@ =~= mid + cs@.subrange(pos + 2, j + 1));
                j = j + 1;
            }
            out
        },
    }
}

/// Puts each argument in turn in place of the first placeholder `{}` left in `s`.
pub fn freplace(s: String, args: &[String]) -> (r: String)
    ensures
        r@ == fill_placeholders(s@, texts(args@)),
{
    let mut cur = s;
    let mut k: usize = 0;
    let ghost all = texts(args@);
    assert(all.skip(0) =~= all);
    while k < args.len()
        invariant
            0 <= k <= args@.len(),
            all == texts(args@),
            fill_placeholders(s@, all) == fill_placeholders(cur@, all.skip(k as int)),
        decreases args@.len() - k,
    {
        proof {
            let rest = all.skip(k as int);
            assert(rest[0] == args@[k as int]@);
            assert(rest.drop_first() =~= all.skip(k + 1));
        }
        cur = replace_first(cur.as_str(), args[k].as_str());
        k = k + 1;
    }
    proof {
        assert(all.skip(args@.len() as int) =~= Seq::<Seq<char>>::empty());
    }
    cur
}

/// Fills the placeholders `{}` of `translated`, the message catalog's translation of a format
/// string, with the arguments in order.
pub fn gettext_f(translated: String, args: &[String]) -> (r: String)
    ensures
        r@ == fill_placeholders(translated@, texts(args@)),
{
    freplace(translated, args)
}

/// The resolution line of the media properties, `"{} × {}"` filled with width and height: the
/// translated `pattern` filled with them when both are nonzero, else the translated
/// `not_available` text.
pub open spec fn resolution_text(
    width: int,
    height: int,
    pattern: Seq<char>,
    not_available: Seq<char>,
) -> Seq<char> {
    if width != 0 && height != 0 {
        fill_placeholders(pattern, seq![signed_decimal(width), signed_decimal(height)])
    } else {
        not_available
    }
}

/// The resolution line of the media properties for a `width` by `height` picture, from the
/// translations of `"{} × {}"` (`pattern`) and of `"N/A"` (`not_available`).
pub fn resolution_label(width: i32, height: i32, pattern: String, not_available: String) -> (r:
    String)
    ensures
        r@ == resolution_text(width as int, height as int, pattern@, not_available@),
{
    if width != 0 && height != 0 {
        let mut args: Vec<String> = Vec::new();
        args.push(signed_decimal_string(width as i64));
        args.push(signed_decimal_string(height as i64));
        proof {
            assert(texts(args@) =~= seq![
                signed_decimal(width as int),
                signed_decimal(height as int),
            ]);
        }
        gettext_f(pattern, args.as_slice())
    } else {
        not_available
    }
}

} // verus!
