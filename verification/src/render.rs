//! The content renderer: a single-pass placeholder substitution over template
//! text. The recognized placeholders are exactly `{{ name }}`, `{{ port }}`
//! and `{{ version }}` (spaces around the variable are allowed). Any other
//! placeholder is a hard error, never emitted as literal text or blanked, and
//! any markup beyond simple placeholders is rejected.

use vstd::prelude::*;

use crate::catalog::{ParamsView, ProjectParameters};

verus! {

/// The decimal digit character of `d`.
pub open spec fn dec_digit(d: int) -> char {
    if d == 0 {
        '0'
    } else if d == 1 {
        '1'
    } else if d == 2 {
        '2'
    } else if d == 3 {
        '3'
    } else if d == 4 {
        '4'
    } else if d == 5 {
        '5'
    } else if d == 6 {
        '6'
    } else if d == 7 {
        '7'
    } else if d == 8 {
        '8'
    } else {
        '9'
    }
}

/// The decimal digit string of a nonnegative integer, without leading zeros
/// (a single `'0'` for zero).
pub open spec fn dec_str(n: int) -> Seq<char>
    decreases n,
{
    if n < 10 {
        seq![dec_digit(n)]
    } else {
        dec_str(n / 10).push(dec_digit(n % 10))
    }
}

fn digit_str(d: u16) -> (r: &'static str)
    requires
        d < 10,
    ensures
        r@ =~= seq![dec_digit(d as int)],
{
    if d == 0 {
        proof {
            reveal_strlit("0");
        }
        "0"
    } else if d == 1 {
        proof {
            reveal_strlit("1");
        }
        "1"
    } else if d == 2 {
        proof {
            reveal_strlit("2");
        }
        "2"
    } else if d == 3 {
        proof {
            reveal_strlit("3");
        }
        "3"
    } else if d == 4 {
        proof {
            reveal_strlit("4");
        }
        "4"
    } else if d == 5 {
        proof {
            reveal_strlit("5");
        }
        "5"
    } else if d == 6 {
        proof {
            reveal_strlit("6");
        }
        "6"
    } else if d == 7 {
        proof {
            reveal_strlit("7");
        }
        "7"
    } else if d == 8 {
        proof {
            reveal_strlit("8");
        }
        "8"
    } else {
        proof {
            reveal_strlit("9");
        }
        "9"
    }
}

/// Formats a port number as its decimal digit string.
pub fn u16_to_dec(n: u16) -> (r: String)
    ensures
        r@ =~= dec_str(n as int),
    decreases n,
{
    if n < 10 {
        String::from_str(digit_str(n))
    } else {
        let mut s = u16_to_dec(n / 10);
        s.append(digit_str(n % 10));
        proof {
            assert(s@ =~= dec_str((n / 10) as int).push(dec_digit((n % 10) as int)));
        }
        s
    }
}

/// The characters treated as padding around a placeholder's variable.
pub open spec fn is_space(c: char) -> bool {
    c == ' ' || c == '\t'
}

/// The first index at or after `i` holding a non-space character (the length
/// if there is none).
pub open spec fn first_non_space(s: Seq<char>, i: int) -> int
    decreases s.len() - i,
{
    if i < 0 || i >= s.len() {
        i
    } else if is_space(s[i]) {
        first_non_space(s, i + 1)
    } else {
        i
    }
}

/// One past the last index below `i` holding a non-space character (zero if
/// there is none).
pub open spec fn last_non_space(s: Seq<char>, i: int) -> int
    decreases i,
{
    if i <= 0 {
        0
    } else if is_space(s[i - 1]) {
        last_non_space(s, i - 1)
    } else {
        i
    }
}

/// `s` without its leading and trailing padding characters.
pub open spec fn trim_spaces(s: Seq<char>) -> Seq<char> {
    let a = first_non_space(s, 0);
    let b = last_non_space(s, s.len() as int);
    if a < b {
        s.subrange(a, b)
    } else {
        Seq::empty()
    }
}

/// The value substituted for a placeholder variable, if the variable is
/// recognized: the project name, the decimal port, or the version.
pub open spec fn var_value(p: ParamsView, v: Seq<char>) -> Option<Seq<char>> {
    if v == "name"@ {
        Option::Some(p.name)
    } else if v == "port"@ {
        Option::Some(dec_str(p.port as int))
    } else if v == "version"@ {
        Option::Some(p.version)
    } else {
        Option::None
    }
}

/// A rendering failure.
#[derive(Debug, Clone)]
pub enum RenderError {
    /// The text holds a placeholder whose variable is not recognized.
    UndefinedVariable { name: String },
    /// A placeholder opened at character index `at` is never closed.
    UnclosedPlaceholder { at: usize },
    /// The text holds template markup beyond a simple placeholder — a
    /// statement (`{%`) or comment (`{#`) opener — at character index `at`.
    UnsupportedMarkup { at: usize },
}

/// The mathematical value of a rendering failure.
pub enum RenderErrorView {
    UndefinedVariable { name: Seq<char> },
    UnclosedPlaceholder { at: int },
    UnsupportedMarkup { at: int },
}

impl View for RenderError {
    type V = RenderErrorView;

    open spec fn view(&self) -> RenderErrorView {
        match self {
            RenderError::UndefinedVariable { name } => RenderErrorView::UndefinedVariable {
                name: name@,
            },
            RenderError::UnclosedPlaceholder { at } => RenderErrorView::UnclosedPlaceholder {
                at: *at as int,
            },
            RenderError::UnsupportedMarkup { at } => RenderErrorView::UnsupportedMarkup {
                at: *at as int,
            },
        }
    }
}

/// The single descriptive line of a rendering failure.
pub open spec fn render_message_of(e: RenderErrorView) -> Seq<char> {
    match e {
        RenderErrorView::UndefinedVariable { name } => "Variable '"@ + name
            + "' is not defined!"@,
        RenderErrorView::UnclosedPlaceholder { at } => "A placeholder is never closed!"@,
        RenderErrorView::UnsupportedMarkup { at } => "Only simple placeholders are supported!"@,
    }
}

impl RenderError {
    /// Renders the failure as one human-readable line.
    pub fn message(&self) -> (r: String)
        ensures
            r@ == render_message_of(self@),
    {
        match self {
            RenderError::UndefinedVariable { name } => {
                let mut r = String::from_str("Variable '");
                r.append(name.as_str());
                r.append("' is not defined!");
                r
            },
            RenderError::UnclosedPlaceholder { at } => {
                String::from_str("A placeholder is never closed!")
            },
            RenderError::UnsupportedMarkup { at } => {
                String::from_str("Only simple placeholders are supported!")
            },
        }
    }
}

/// The index of the first `}}` at or after `i`, if any.
pub open spec fn find_close(s: Seq<char>, i: int) -> Option<int>
    decreases s.len() - i,
{
    if i < 0 || i + 1 >= s.len() {
        Option::None
    } else if s[i] == '}' && s[i + 1] == '}' {
        Option::Some(i)
    } else {
        find_close(s, i + 1)
    }
}

pub proof fn lemma_find_close_bounds(s: Seq<char>, i: int)
    requires
        0 <= i,
        find_close(s, i) is Some,
    ensures
        ({
            let j = find_close(s, i)->0;
            &&& i <= j
            &&& j + 1 < s.len()
            &&& s[j] == '}'
            &&& s[j + 1] == '}'
        }),
    decreases s.len() - i,
{
    if i + 1 >= s.len() {
    } else if s[i] == '}' && s[i + 1] == '}' {
    } else {
        lemma_find_close_bounds(s, i + 1);
    }
}

proof fn lemma_last_non_space_le(s: Seq<char>, i: int)
    requires
        i >= 0,
    ensures
        last_non_space(s, i) <= i,
    decreases i,
{
    if i > 0 && is_space(s[i - 1]) {
        lemma_last_non_space_le(s, i - 1);
    }
}

/// The rendering of the text from character index `i` on: literal characters
/// are kept; `{{ v }}` becomes the value of `v` if `v` is recognized and is an
/// error otherwise; an unclosed `{{` and any statement (`{%`) or comment
/// (`{#`) markup are errors.
pub open spec fn render_from(s: Seq<char>, p: ParamsView, i: int) -> Result<
    Seq<char>,
    RenderErrorView,
>
    decreases s.len() - i,
    via render_from_decreases
{
    if i < 0 || i >= s.len() {
        Result::Ok(Seq::empty())
    } else if i + 1 < s.len() && s[i] == '{' && s[i + 1] == '{' {
        match find_close(s, i + 2) {
            Option::None => Result::Err(RenderErrorView::UnclosedPlaceholder { at: i }),
            Option::Some(j) => {
                let inner = trim_spaces(s.subrange(i + 2, j));
                match var_value(p, inner) {
                    Option::None => Result::Err(RenderErrorView::UndefinedVariable { name: inner }),
                    Option::Some(v) => match render_from(s, p, j + 2) {
                        Result::Ok(rest) => Result::Ok(v + rest),
                        Result::Err(e) => Result::Err(e),
                    },
                }
            },
        }
    } else if i + 1 < s.len() && s[i] == '{' && (s[i + 1] == '%' || s[i + 1] == '#') {
        Result::Err(RenderErrorView::UnsupportedMarkup { at: i })
    } else {
        match render_from(s, p, i + 1) {
            Result::Ok(rest) => Result::Ok(seq![s[i]] + rest),
            Result::Err(e) => Result::Err(e),
        }
    }
}

#[via_fn]
proof fn render_from_decreases(s: Seq<char>, p: ParamsView, i: int) {
    if 0 <= i && i + 1 < s.len() && s[i] == '{' && s[i + 1] == '{' {
        if find_close(s, i + 2) is Some {
            lemma_find_close_bounds(s, i + 2);
        }
    }
}

/// The rendering of a whole text.
pub open spec fn render_of(s: Seq<char>, p: ParamsView) -> Result<Seq<char>, RenderErrorView> {
    render_from(s, p, 0)
}

/// Rendering is deterministic: one template text and one parameter set have
/// exactly one rendering outcome, so two runs over equal inputs agree byte
/// for byte.
pub proof fn lemma_render_deterministic(
    text1: Seq<char>,
    text2: Seq<char>,
    p1: ParamsView,
    p2: ParamsView,
)
    requires
        text1 == text2,
        p1 == p2,
    ensures
        render_of(text1, p1) == render_of(text2, p2),
{
}

/// `prefix` prepended to the success value of `r`.
pub open spec fn compose(prefix: Seq<char>, r: Result<Seq<char>, RenderErrorView>) -> Result<
    Seq<char>,
    RenderErrorView,
> {
    match r {
        Result::Ok(rest) => Result::Ok(prefix + rest),
        Result::Err(e) => Result::Err(e),
    }
}

proof fn lemma_compose_assoc(x: Seq<char>, y: Seq<char>, r: Result<Seq<char>, RenderErrorView>)
    ensures
        compose(x, compose(y, r)) == compose(x + y, r),
{
    match r {
        Result::Ok(rest) => {
            assert(x + (y + rest) =~= (x + y) + rest);
        },
        Result::Err(e) => {},
    }
}

/// The index of the first `}}` at or after `start`, if any.
fn find_close_exec(text: &str, start: usize) -> (r: Option<usize>)
    requires
        start <= text@.len(),
    ensures
        match r {
            Option::Some(j) => find_close(text@, start as int) == Option::Some(j as int),
            Option::None => find_close(text@, start as int) is None,
        },
{
    let len = text.unicode_len();
    let mut j = start;
    loop
        invariant
            start <= j <= len,
            len == text@.len(),
            find_close(text@, start as int) == find_close(text@, j as int),
        decreases len - j,
    {
        if len < 2 || j >= len - 1 {
            return None;
        }
        let found = text.get_char(j) == '}' && text.get_char(j + 1) == '}';
        if found {
            return Some(j);
        }
        j += 1;
    }
}

/// The character counts as padding around a placeholder's variable.
fn is_space_char(c: char) -> (r: bool)
    ensures
        r == is_space(c),
{
    c == ' ' || c == '\t'
}

/// The characters of `text` in `[a, b)` are exactly the characters of `pat`.
fn eq_window(text: &str, a: usize, b: usize, pat: &str) -> (r: bool)
    requires
        a <= b <= text@.len(),
    ensures
        r == (text@.subrange(a as int, b as int) == pat@),
{
    let plen = pat.unicode_len();
    if b - a != plen {
        return false;
    }
    let mut k: usize = 0;
    while k < plen
        invariant
            0 <= k <= plen,
            a + plen == b,
            b <= text@.len(),
            plen == pat@.len(),
            forall|j: int| 0 <= j < k ==> text@[a + j] == pat@[j],
        decreases plen - k,
    {
        if text.get_char(a + k) != pat.get_char(k) {
            assert(text@.subrange(a as int, b as int)[k as int] != pat@[k as int]);
            return false;
        }
        k += 1;
    }
    proof {
        assert(text@.subrange(a as int, b as int) =~= pat@);
    }
    true
}

/// Substitutes the recognized placeholders of `template_text` with the values
/// of `values`, as `render_of` describes: single-pass, deterministic, failing
/// on the first unrecognized placeholder, unclosed placeholder, or
/// unsupported markup.
pub fn replace_text(template_text: &str, values: &ProjectParameters) -> (r: Result<
    String,
    RenderError,
>)
    ensures
        r is Ok <==> render_of(template_text@, values@) is Ok,
        r is Ok ==> r->Ok_0@ == render_of(template_text@, values@)->Ok_0,
        r is Err ==> r->Err_0@ == render_of(template_text@, values@)->Err_0,
{
    let ghost s = template_text@;
    let ghost p = values@;
    let len = template_text.unicode_len();
    let port_str = u16_to_dec(values.port);
    let mut out = String::new();
    let mut i: usize = 0;
    while i < len
        invariant
            0 <= i <= len,
            len == s.len(),
            s == template_text@,
            p == values@,
            port_str@ == dec_str(values.port as int),
            render_from(s, p, 0) == compose(out@, render_from(s, p, i as int)),
        decreases len - i,
    {
        let c = template_text.get_char(i);
        let mut placeholder = false;
        let mut markup = false;
        if c == '{' && i + 1 < len {
            let c2 = template_text.get_char(i + 1);
            if c2 == '{' {
                placeholder = true;
            } else if c2 == '%' || c2 == '#' {
                markup = true;
            }
        }
        if placeholder {
            match find_close_exec(template_text, i + 2) {
                None => {
                    let e = RenderError::UnclosedPlaceholder { at: i };
                    assert(render_from(s, p, i as int) == Result::<
                        Seq<char>,
                        RenderErrorView,
                    >::Err(e@));
                    return Err(e);
                },
                Some(j) => {
                    proof {
                        lemma_find_close_bounds(s, i + 2);
                    }
                    let ghost inner = trim_spaces(s.subrange(i + 2, j as int));
                    // Trim the padding around the variable: [a, b) is the
                    // trimmed window inside the placeholder.
                    let mut a: usize = i + 2;
                    while a < j && is_space_char(template_text.get_char(a))
                        invariant
                            i + 2 <= a <= j,
                            j + 1 < len,
                            len == s.len(),
                            s == template_text@,
                            first_non_space(s.subrange(i + 2, j as int), 0) == first_non_space(
                                s.subrange(i + 2, j as int),
                                a - (i + 2),
                            ),
                        decreases j - a,
                    {
                        proof {
                            assert(s.subrange(i + 2, j as int)[a - (i + 2)] == s[a as int]);
                        }
                        a += 1;
                    }
                    let mut b: usize = j;
                    while b > a && is_space_char(template_text.get_char(b - 1))
                        invariant
                            a <= b <= j,
                            i + 2 <= a,
                            j + 1 < len,
                            len == s.len(),
                            s == template_text@,
                            last_non_space(s.subrange(i + 2, j as int), (j - (i + 2)) as int)
                                == last_non_space(s.subrange(i + 2, j as int), (b - (i + 2)) as int),
                        decreases b,
                    {
                        proof {
                            assert(s.subrange(i + 2, j as int)[b - 1 - (i + 2)] == s[b - 1]);
                        }
                        b -= 1;
                    }
                    proof {
                        let sub = s.subrange(i + 2, j as int);
                        assert(first_non_space(sub, 0) == a - (i + 2));
                        assert(last_non_space(sub, sub.len() as int) == ({
                            if b > a {
                                (b - (i + 2)) as int
                            } else {
                                last_non_space(sub, (b - (i + 2)) as int)
                            }
                        }));
                        if b > a {
                            assert(inner =~= s.subrange(a as int, b as int));
                        } else {
                            assert(a == b);
                            lemma_last_non_space_le(sub, (b - (i + 2)) as int);
                            assert(last_non_space(sub, (b - (i + 2)) as int) <= a - (i + 2));
                            assert(inner =~= s.subrange(a as int, b as int));
                        }
                    }
                    let ghost out0 = out@;
                    if eq_window(template_text, a, b, "name") {
                        out.append(values.name.as_str());
                        proof {
                            assert(var_value(p, inner) == Option::Some(p.name));
                            assert(render_from(s, p, i as int) == compose(
                                p.name,
                                render_from(s, p, j + 2),
                            ));
                            lemma_compose_assoc(out0, p.name, render_from(s, p, j + 2));
                        }
                        i = j + 2;
                    } else if eq_window(template_text, a, b, "port") {
                        out.append(port_str.as_str());
                        proof {
                            assert(var_value(p, inner) == Option::Some(dec_str(p.port as int)));
                            assert(render_from(s, p, i as int) == compose(
                                dec_str(p.port as int),
                                render_from(s, p, j + 2),
                            ));
                            lemma_compose_assoc(out0, dec_str(p.port as int), render_from(s, p, j + 2));
                        }
                        i = j + 2;
                    } else if eq_window(template_text, a, b, "version") {
                        out.append(values.version.as_str());
                        proof {
                            assert(var_value(p, inner) == Option::Some(p.version));
                            assert(render_from(s, p, i as int) == compose(
                                p.version,
                                render_from(s, p, j + 2),
                            ));
                            lemma_compose_assoc(out0, p.version, render_from(s, p, j + 2));
                        }
                        i = j + 2;
                    } else {
                        let name = String::from_str(template_text.substring_char(a, b));
                        proof {
                            assert(var_value(p, inner) is None);
                        }
                        let e = RenderError::UndefinedVariable { name };
                        assert(render_from(s, p, i as int) == Result::<
                            Seq<char>,
                            RenderErrorView,
                        >::Err(e@));
                        return Err(e);
                    }
                },
            }
        } else if markup {
            let e = RenderError::UnsupportedMarkup { at: i };
            assert(render_from(s, p, i as int) == Result::<Seq<char>, RenderErrorView>::Err(e@));
            return Err(e);
        } else {
            let piece = template_text.substring_char(i, i + 1);
            proof {
                assert(piece@ =~= seq![s[i as int]]);
            }
            let ghost out0 = out@;
            out.append(piece);
            proof {
                assert(render_from(s, p, i as int) == compose(
                    seq![s[i as int]],
                    render_from(s, p, i + 1),
                ));
                lemma_compose_assoc(out0, seq![s[i as int]], render_from(s, p, i + 1));
            }
            i += 1;
        }
        proof {
            // Re-establish the loop invariant after the step.
            assert(render_from(s, p, 0) == compose(out@, render_from(s, p, i as int)));
        }
    }
    proof {
        assert(render_from(s, p, len as int) == Result::<Seq<char>, RenderErrorView>::Ok(
            Seq::empty(),
        ));
        assert(out@ + Seq::<char>::empty() =~= out@);
    }
    Ok(out)
}

} // verus!
