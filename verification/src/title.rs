//! Thread title generation: the prompt sent to the model and the cleanup of
//! what comes back. The network call itself happens outside the library; the
//! title returned by the model is cleaned here — surrounding whitespace and
//! quotes stripped — before it is stored.

use vstd::prelude::*;

use crate::chat::ChatMessage;
use crate::text::push_char;

verus! {

/// Whitespace characters stripped from a generated title.
pub open spec fn is_title_ws(c: char) -> bool {
    c == ' ' || c == '\t' || c == '\n' || c == '\r'
}

/// Quote characters stripped from a generated title after whitespace.
pub open spec fn is_title_quote(c: char) -> bool {
    c == '"' || c == '\''
}

/// Characters satisfying `p` removed from the front.
pub open spec fn strip_front(s: Seq<char>, p: spec_fn(char) -> bool) -> Seq<char>
    decreases s.len(),
{
    if s.len() > 0 && p(s.first()) {
        strip_front(s.drop_first(), p)
    } else {
        s
    }
}

/// Characters satisfying `p` removed from the back.
pub open spec fn strip_back(s: Seq<char>, p: spec_fn(char) -> bool) -> Seq<char>
    decreases s.len(),
{
    if s.len() > 0 && p(s.last()) {
        strip_back(s.drop_last(), p)
    } else {
        s
    }
}

/// Characters satisfying `p` removed from both ends.
pub open spec fn strip_ends(s: Seq<char>, p: spec_fn(char) -> bool) -> Seq<char> {
    strip_back(strip_front(s, p), p)
}

/// A generated title, cleaned: whitespace trimmed from both ends, then any
/// surrounding quote characters trimmed as well.
pub open spec fn cleaned_title(s: Seq<char>) -> Seq<char> {
    strip_ends(strip_ends(s, |c: char| is_title_ws(c)), |c: char| is_title_quote(c))
}

/// Whether the character at `i` falls in the whitespace (`ws == true`) or
/// quote (`ws == false`) class.
fn char_in_class(s: &str, i: usize, ws: bool) -> (b: bool)
    requires
        i < s@.len(),
    ensures
        b == (if ws {
            is_title_ws(s@[i as int])
        } else {
            is_title_quote(s@[i as int])
        }),
{
    let c = s.get_char(i);
    if ws {
        c == ' ' || c == '\t' || c == '\n' || c == '\r'
    } else {
        c == '"' || c == '\''
    }
}

/// Bounds of `s` with characters satisfying the whitespace (`ws == true`) or
/// quote (`ws == false`) class stripped from both ends of `s[from..to]`.
fn strip_bounds(s: &str, from: usize, to: usize, ws: bool) -> (r: (usize, usize))
    requires
        from <= to <= s@.len(),
    ensures
        from <= r.0 <= r.1 <= to,
        s@.subrange(r.0 as int, r.1 as int) == strip_ends(
            s@.subrange(from as int, to as int),
            if ws {
                |c: char| is_title_ws(c)
            } else {
                |c: char| is_title_quote(c)
            },
        ),
{
    let ghost p = if ws {
        |c: char| is_title_ws(c)
    } else {
        |c: char| is_title_quote(c)
    };
    let mut a = from;
    proof {
        assert(s@.subrange(from as int, to as int) =~= s@.subrange(a as int, to as int));
    }
    while a < to && char_in_class(s, a, ws)
        invariant
            from <= a <= to <= s@.len(),
            p == (if ws {
                |c: char| is_title_ws(c)
            } else {
                |c: char| is_title_quote(c)
            }),
            strip_front(s@.subrange(from as int, to as int), p) == strip_front(
                s@.subrange(a as int, to as int),
                p,
            ),
        decreases to - a,
    {
        proof {
            assert(s@.subrange(a as int, to as int).drop_first() =~= s@.subrange(
                a + 1 as int,
                to as int,
            ));
        }
        a = a + 1;
    }
    proof {
        assert(strip_front(s@.subrange(from as int, to as int), p) == s@.subrange(
            a as int,
            to as int,
        ));
    }
    let mut b = to;
    while b > a && char_in_class(s, b - 1, ws)
        invariant
            from <= a <= b <= to <= s@.len(),
            p == (if ws {
                |c: char| is_title_ws(c)
            } else {
                |c: char| is_title_quote(c)
            }),
            strip_front(s@.subrange(from as int, to as int), p) == s@.subrange(a as int, to as int),
            strip_ends(s@.subrange(from as int, to as int), p) == strip_back(
                s@.subrange(a as int, b as int),
                p,
            ),
        decreases b,
    {
        proof {
            assert(s@.subrange(a as int, b as int).drop_last() =~= s@.subrange(
                a as int,
                b - 1 as int,
            ));
        }
        b = b - 1;
    }
    proof {
        assert(strip_ends(s@.subrange(from as int, to as int), p) == s@.subrange(
            a as int,
            b as int,
        ));
    }
    (a, b)
}

/// Cleans a model-generated title: whitespace trimmed from both ends, then
/// surrounding quotes trimmed.
pub fn clean_title(raw: &str) -> (r: String)
    ensures
        r@ == cleaned_title(raw@),
{
    let n = raw.unicode_len();
    proof {
        assert(raw@.subrange(0, n as int) =~= raw@);
    }
    let (a, b) = strip_bounds(raw, 0, n, true);
    let (c, d) = strip_bounds(raw, a, b, false);
    let mut out = String::new();
    let mut i = c;
    while i < d
        invariant
            c <= i <= d <= raw@.len(),
            out@ =~= raw@.subrange(c as int, i as int),
        decreases d - i,
    {
        push_char(&mut out, raw.get_char(i));
        proof {
            assert(out@ =~= raw@.subrange(c as int, i + 1 as int));
        }
        i = i + 1;
    }
    proof {
        assert(out@ =~= raw@.subrange(c as int, d as int));
    }
    out
}

/// The instruction under which titles are generated.
pub fn title_system_prompt() -> (r: String)
    ensures
        r@
            == "You are a helpful assistant. Your task is to generate a concise and relevant title (5 words or less) for the following user query or conversation start. Only output the title itself, nothing else."@,
{
    String::from_str(
        "You are a helpful assistant. Your task is to generate a concise and relevant title (5 words or less) for the following user query or conversation start. Only output the title itself, nothing else.",
    )
}

/// The message list of a title-generation request: the fixed system
/// instruction followed by the user's prompt content.
pub fn title_prompt_messages(prompt_content: &str) -> (r: Vec<ChatMessage>)
    ensures
        r.deep_view().len() == 2,
        r.deep_view()[0].role == "system"@,
        r.deep_view()[0].content matches Some(c) && c
            == "You are a helpful assistant. Your task is to generate a concise and relevant title (5 words or less) for the following user query or conversation start. Only output the title itself, nothing else."@,
        r.deep_view()[1].role == "user"@,
        r.deep_view()[1].content == Some(prompt_content@),
{
    let mut v: Vec<ChatMessage> = Vec::new();
    v.push(
        ChatMessage { role: String::from_str("system"), content: Some(title_system_prompt()) },
    );
    v.push(
        ChatMessage {
            role: String::from_str("user"),
            content: Some(String::from_str(prompt_content)),
        },
    );
    proof {
        assert(v.deep_view().len() == 2);
        assert(v@[0]@ == v.deep_view()[0]);
        assert(v@[1]@ == v.deep_view()[1]);
    }
    v
}

} // verus!
