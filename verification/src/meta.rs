//! The per-object discovery and description metadata that the worker's
//! catalog linter expects on every function and table: a title, Markdown
//! narratives for agents and for humans, keywords as a JSON string array, a
//! category, and described example queries as a JSON array.
use vstd::prelude::*;

use crate::text::{chars_of, string_from_chars};

verus! {

/// Unicode `White_Space`, the set that `str::trim` removes.
pub open spec fn is_white_space(c: char) -> bool {
    ('\u{9}' <= c <= '\u{D}') || c == ' ' || c == '\u{85}' || c == '\u{A0}' || c == '\u{1680}' || (
    '\u{2000}' <= c <= '\u{200A}') || c == '\u{2028}' || c == '\u{2029}' || c == '\u{202F}' || c
        == '\u{205F}' || c == '\u{3000}'
}

fn white_space(c: char) -> (r: bool)
    ensures
        r == is_white_space(c),
{
    ('\u{9}' <= c && c <= '\u{D}') || c == ' ' || c == '\u{85}' || c == '\u{A0}' || c == '\u{1680}'
        || ('\u{2000}' <= c && c <= '\u{200A}') || c == '\u{2028}' || c == '\u{2029}' || c
        == '\u{202F}' || c == '\u{205F}' || c == '\u{3000}'
}

/// `s` without its leading white space.
pub open spec fn trim_start(s: Seq<char>) -> Seq<char>
    decreases s.len(),
{
    if s.len() > 0 && is_white_space(s[0]) {
        trim_start(s.subrange(1, s.len() as int))
    } else {
        s
    }
}

/// `s` without its trailing white space.
pub open spec fn trim_end(s: Seq<char>) -> Seq<char>
    decreases s.len(),
{
    if s.len() > 0 && is_white_space(s.last()) {
        trim_end(s.drop_last())
    } else {
        s
    }
}

/// `s` without leading and trailing white space.
pub open spec fn trim(s: Seq<char>) -> Seq<char> {
    trim_end(trim_start(s))
}

/// The pieces of `s` between commas, as `str::split(',')` yields them: one
/// more piece than there are commas.
pub open spec fn comma_pieces(s: Seq<char>) -> Seq<Seq<char>>
    decreases s.len(),
{
    if s.len() == 0 {
        seq![Seq::<char>::empty()]
    } else {
        let pieces = comma_pieces(s.drop_last());
        if s.last() == ',' {
            pieces.push(Seq::<char>::empty())
        } else {
            pieces.update(pieces.len() - 1, pieces.last().push(s.last()))
        }
    }
}

/// The trimmed, non-empty pieces, in order.
pub open spec fn keyword_list(pieces: Seq<Seq<char>>) -> Seq<Seq<char>>
    decreases pieces.len(),
{
    if pieces.len() == 0 {
        Seq::empty()
    } else {
        let rest = keyword_list(pieces.drop_last());
        if trim(pieces.last()).len() == 0 {
            rest
        } else {
            rest.push(trim(pieces.last()))
        }
    }
}

/// The lower-case hexadecimal digit for `n < 16`.
pub open spec fn hex_digit(n: u32) -> char {
    if n < 10 {
        (('0' as u32) + n) as char
    } else {
        (('a' as u32) + n - 10) as char
    }
}

/// The JSON string-literal escape of one character: quotes, backslashes and
/// the control characters are escaped (`\u00XX` for those without a short
/// form), everything else stands as it is.
pub open spec fn json_escape_char(c: char) -> Seq<char> {
    if c == '"' {
        seq!['\\', '"']
    } else if c == '\\' {
        seq!['\\', '\\']
    } else if c == '\n' {
        seq!['\\', 'n']
    } else if c == '\r' {
        seq!['\\', 'r']
    } else if c == '\t' {
        seq!['\\', 't']
    } else if (c as u32) < 0x20 {
        seq!['\\', 'u', '0', '0', hex_digit((c as u32) / 16), hex_digit((c as u32) % 16)]
    } else {
        seq![c]
    }
}

/// The JSON string-literal escape of `s`, character by character.
pub open spec fn json_escape_spec(s: Seq<char>) -> Seq<char>
    decreases s.len(),
{
    if s.len() == 0 {
        Seq::empty()
    } else {
        json_escape_spec(s.drop_last()) + json_escape_char(s.last())
    }
}

/// `s` as a JSON string: escaped and in double quotes.
pub open spec fn json_string(s: Seq<char>) -> Seq<char> {
    seq!['"'] + json_escape_spec(s) + seq!['"']
}

/// The JSON array elements `items` joined by commas.
pub open spec fn join_commas(items: Seq<Seq<char>>) -> Seq<char>
    decreases items.len(),
{
    if items.len() == 0 {
        Seq::empty()
    } else if items.len() == 1 {
        items[0]
    } else {
        join_commas(items.drop_last()) + seq![','] + items.last()
    }
}

/// The keywords of a comma-separated list as JSON strings.
pub open spec fn keyword_strings(keywords: Seq<Seq<char>>) -> Seq<Seq<char>> {
    Seq::new(keywords.len(), |i: int| json_string(keywords[i]))
}

/// What [`keywords_json`] returns.
pub open spec fn spec_keywords_json(comma_separated: Seq<char>) -> Seq<char> {
    seq!['['] + join_commas(keyword_strings(keyword_list(comma_pieces(comma_separated)))) + seq![
        ']',
    ]
}

/// The JSON object for one described example query.
pub open spec fn example_object(description: Seq<char>, sql: Seq<char>) -> Seq<char> {
    "{\"description\":"@ + json_string(description) + ",\"sql\":"@ + json_string(sql) + seq!['}']
}

/// What [`example_queries_json`] returns.
pub open spec fn spec_example_queries_json(examples: Seq<(Seq<char>, Seq<char>)>) -> Seq<char> {
    seq!['['] + join_commas(Seq::new(examples.len(), |i: int| example_object(examples[i].0, examples[i].1)))
        + seq![']']
}

fn push_chars(out: &mut Vec<char>, s: &Vec<char>)
    ensures
        final(out)@ == old(out)@ + s@,
{
    let mut piece = s.clone();
    proof {
        assert(piece@ =~= s@) by {
            assert forall|i: int| 0 <= i < s@.len() implies piece@[i] == s@[i] by {
                assert(vstd::pervasive::cloned(s@[i], piece@[i]));
            }
        }
    }
    out.append(&mut piece);
}

/// The hexadecimal digit for `n < 16`.
fn hex_char(n: u32) -> (r: char)
    requires
        n < 16,
    ensures
        r == hex_digit(n),
{
    if n < 10 {
        ((n as u8) + 0x30u8) as char
    } else {
        ((n as u8) + 0x57u8) as char
    }
}

/// Append the JSON escape of `c` to `out`.
fn push_escaped(out: &mut Vec<char>, c: char)
    ensures
        final(out)@ == old(out)@ + json_escape_char(c),
{
    if c == '"' {
        out.push('\\');
        out.push('"');
    } else if c == '\\' {
        out.push('\\');
        out.push('\\');
    } else if c == '\n' {
        out.push('\\');
        out.push('n');
    } else if c == '\r' {
        out.push('\\');
        out.push('r');
    } else if c == '\t' {
        out.push('\\');
        out.push('t');
    } else if (c as u32) < 0x20u32 {
        let code = c as u32;
        out.push('\\');
        out.push('u');
        out.push('0');
        out.push('0');
        out.push(hex_char(code / 16));
        out.push(hex_char(code % 16));
    } else {
        out.push(c);
    }
    assert(final(out)@ =~= old(out)@ + json_escape_char(c));
}

/// JSON-escape `s` for use inside a JSON string literal: quotes, backslashes
/// and control characters are escaped.
fn json_escape(s: &Vec<char>) -> (r: Vec<char>)
    ensures
        r@ == json_escape_spec(s@),
{
    let mut out: Vec<char> = Vec::new();
    let mut i: usize = 0;
    while i < s.len()
        invariant
            i <= s@.len(),
            out@ == json_escape_spec(s@.take(i as int)),
        decreases s@.len() - i,
    {
        assert(s@.take(i + 1).drop_last() =~= s@.take(i as int));
        push_escaped(&mut out, s[i]);
        i = i + 1;
    }
    assert(s@.take(s@.len() as int) =~= s@);
    out
}

/// Append `s` as a JSON string (quoted and escaped) to `out`.
fn push_json_string(out: &mut Vec<char>, s: &Vec<char>)
    ensures
        final(out)@ == old(out)@ + json_string(s@),
{
    let ghost start = out@;
    out.push('"');
    push_chars(out, &json_escape(s));
    out.push('"');
    assert(out@ =~= start + json_string(s@));
}

/// The part of `s` between its leading and its trailing white space.
fn trim_chars(s: &Vec<char>) -> (r: Vec<char>)
    ensures
        r@ == trim(s@),
{
    let n = s.len();
    let mut i: usize = 0;
    assert(s@.subrange(0, n as int) =~= s@);
    while i < n && white_space(s[i])
        invariant
            i <= n,
            n == s@.len(),
            trim_start(s@) == trim_start(s@.subrange(i as int, n as int)),
        decreases n - i,
    {
        assert(s@.subrange(i as int, n as int).subrange(1, (n - i) as int) =~= s@.subrange(
            i + 1,
            n as int,
        ));
        i = i + 1;
    }
    assert(trim_start(s@) == s@.subrange(i as int, n as int));
    let mut j: usize = n;
    while j > i && white_space(s[j - 1])
        invariant
            i <= j <= n,
            n == s@.len(),
            trim_start(s@) == s@.subrange(i as int, n as int),
            trim(s@) == trim_end(s@.subrange(i as int, j as int)),
        decreases j - i,
    {
        assert(s@.subrange(i as int, j as int).drop_last() =~= s@.subrange(i as int, j - 1));
        j = j - 1;
    }
    let mut r: Vec<char> = Vec::new();
    let mut k: usize = i;
    while k < j
        invariant
            i <= k <= j <= n,
            n == s@.len(),
            r@ == s@.subrange(i as int, k as int),
        decreases j - k,
    {
        r.push(s[k]);
        k = k + 1;
        assert(r@ =~= s@.subrange(i as int, k as int));
    }
    r
}

/// The pieces of `s` between commas.
fn split_commas(s: &Vec<char>) -> (r: Vec<Vec<char>>)
    ensures
        r@.len() == comma_pieces(s@).len(),
        forall|k: int| 0 <= k < r@.len() ==> #[trigger] r@[k]@ == comma_pieces(s@)[k],
{
    let mut done: Vec<Vec<char>> = Vec::new();
    let mut current: Vec<char> = Vec::new();
    let mut i: usize = 0;
    while i < s.len()
        invariant
            i <= s@.len(),
            comma_pieces(s@.take(i as int)).len() == done@.len() + 1,
            forall|k: int|
                0 <= k < done@.len() ==> #[trigger] done@[k]@ == comma_pieces(s@.take(i as int))[k],
            current@ == comma_pieces(s@.take(i as int)).last(),
        decreases s@.len() - i,
    {
        assert(s@.take(i + 1).drop_last() =~= s@.take(i as int));
        let c = s[i];
        if c == ',' {
            let finished = current;
            done.push(finished);
            current = Vec::new();
        } else {
            current.push(c);
        }
        i = i + 1;
        assert(current@ =~= comma_pieces(s@.take(i as int)).last());
    }
    assert(s@.take(s@.len() as int) =~= s@);
    done.push(current);
    done
}

/// Serialize a comma-separated list of keywords into a JSON array of
/// strings: every trimmed, non-empty term becomes one element, escaped for
/// JSON (`"a, b"` becomes `["a","b"]`).
pub fn keywords_json(comma_separated: &str) -> (r: String)
    ensures
        r@ == spec_keywords_json(comma_separated@),
{
    let chars = chars_of(comma_separated);
    let pieces = split_commas(&chars);
    let ghost all = comma_pieces(comma_separated@);
    let mut out: Vec<char> = Vec::new();
    out.push('[');
    let mut count: usize = 0;
    let mut i: usize = 0;
    while i < pieces.len()
        invariant
            i <= pieces@.len(),
            pieces@.len() == all.len(),
            forall|k: int| 0 <= k < pieces@.len() ==> #[trigger] pieces@[k]@ == all[k],
            count == keyword_list(all.take(i as int)).len(),
            count <= i,
            out@ == seq!['['] + join_commas(keyword_strings(keyword_list(all.take(i as int)))),
        decreases pieces@.len() - i,
    {
        let ghost before = keyword_list(all.take(i as int));
        assert(all.take(i + 1).drop_last() =~= all.take(i as int));
        assert(all.take(i + 1).last() == all[i as int]);
        let keyword = trim_chars(&pieces[i]);
        if keyword.len() > 0 {
            let ghost after = before.push(keyword@);
            assert(keyword_list(all.take(i + 1)) == after);
            assert(keyword_strings(after).drop_last() =~= keyword_strings(before));
            if count > 0 {
                out.push(',');
            }
            push_json_string(&mut out, &keyword);
            count = count + 1;
            assert(out@ =~= seq!['['] + join_commas(keyword_strings(after)));
        }
        i = i + 1;
    }
    assert(all.take(all.len() as int) =~= all);
    out.push(']');
    string_from_chars(out.as_slice())
}

/// Serialize `(description, sql)` pairs into a JSON array of
/// `{"description": ..., "sql": ...}` objects.
pub fn example_queries_json(examples: &[(&str, &str)]) -> (r: String)
    ensures
        r@ == spec_example_queries_json(example_pairs(examples@)),
{
    let ghost pairs = examples@.map_values(|e: (&str, &str)| (e.0@, e.1@));
    let ghost objects = Seq::new(pairs.len(), |k: int| example_object(pairs[k].0, pairs[k].1));
    let open = chars_of("{\"description\":");
    let middle = chars_of(",\"sql\":");
    let mut out: Vec<char> = Vec::new();
    out.push('[');
    let mut i: usize = 0;
    while i < examples.len()
        invariant
            i <= examples@.len(),
            pairs == examples@.map_values(|e: (&str, &str)| (e.0@, e.1@)),
            objects == Seq::new(pairs.len(), |k: int| example_object(pairs[k].0, pairs[k].1)),
            open@ == "{\"description\":"@,
            middle@ == ",\"sql\":"@,
            out@ == seq!['['] + join_commas(objects.take(i as int)),
        decreases examples@.len() - i,
    {
        assert(objects.take(i + 1).drop_last() =~= objects.take(i as int));
        let (description, sql) = examples[i];
        if i > 0 {
            out.push(',');
        }
        push_chars(&mut out, &open);
        push_json_string(&mut out, &chars_of(description));
        push_chars(&mut out, &middle);
        push_json_string(&mut out, &chars_of(sql));
        out.push('}');
        i = i + 1;
        assert(out@ =~= seq!['['] + join_commas(objects.take(i as int)));
    }
    assert(objects.take(objects.len() as int) =~= objects);
    out.push(']');
    string_from_chars(out.as_slice())
}

/// The views of a list of `(description, sql)` example pairs.
pub open spec fn example_pairs(examples: Seq<(&str, &str)>) -> Seq<(Seq<char>, Seq<char>)> {
    examples.map_values(|e: (&str, &str)| (e.0@, e.1@))
}

/// The views of a list of string tags.
pub open spec fn tag_views(tags: Seq<(String, String)>) -> Seq<(Seq<char>, Seq<char>)> {
    tags.map_values(|t: (String, String)| (t.0@, t.1@))
}

/// What [`object_tags`] returns.
pub open spec fn spec_object_tags(
    title: Seq<char>,
    doc_llm: Seq<char>,
    doc_md: Seq<char>,
    keywords: Seq<char>,
    category: Seq<char>,
    examples: Seq<(Seq<char>, Seq<char>)>,
) -> Seq<(Seq<char>, Seq<char>)> {
    let tags = seq![
        ("vgi.title"@, title),
        ("vgi.doc_llm"@, doc_llm),
        ("vgi.doc_md"@, doc_md),
        ("vgi.keywords"@, spec_keywords_json(keywords)),
        ("vgi.category"@, category),
    ];
    if examples.len() == 0 {
        tags
    } else {
        tags.push(("vgi.example_queries"@, spec_example_queries_json(examples)))
    }
}

/// Build the standard discovery and description tags of a function or table:
/// `vgi.title`, `vgi.doc_llm`, `vgi.doc_md`, `vgi.keywords` (the
/// comma-separated `keywords` as a JSON array), `vgi.category`, and, when
/// there are examples, `vgi.example_queries` (the described examples as JSON).
pub fn object_tags(
    title: &str,
    doc_llm: &str,
    doc_md: &str,
    keywords: &str,
    category: &str,
    examples: &[(&str, &str)],
) -> (r: Vec<(String, String)>)
    ensures
        tag_views(r@) == spec_object_tags(
            title@,
            doc_llm@,
            doc_md@,
            keywords@,
            category@,
            example_pairs(examples@),
        ),
{
    let mut tags: Vec<(String, String)> = Vec::new();
    tags.push((String::from_str("vgi.title"), String::from_str(title)));
    tags.push((String::from_str("vgi.doc_llm"), String::from_str(doc_llm)));
    tags.push((String::from_str("vgi.doc_md"), String::from_str(doc_md)));
    tags.push((String::from_str("vgi.keywords"), keywords_json(keywords)));
    tags.push((String::from_str("vgi.category"), String::from_str(category)));
    if examples.len() > 0 {
        tags.push((String::from_str("vgi.example_queries"), example_queries_json(examples)));
    }
    assert(tag_views(tags@) =~= spec_object_tags(
        title@,
        doc_llm@,
        doc_md@,
        keywords@,
        category@,
        example_pairs(examples@),
    ));
    tags
}

/// The value of a hexadecimal digit, either case.
pub open spec fn hex_value(c: char) -> Option<int> {
    if '0' <= c <= '9' {
        Some((c as u32) - ('0' as u32))
    } else if 'a' <= c <= 'f' {
        Some((c as u32) - ('a' as u32) + 10)
    } else if 'A' <= c <= 'F' {
        Some((c as u32) - ('A' as u32) + 10)
    } else {
        None
    }
}

/// The character that a `\uXXXX` escape with the digits `d` stands for
/// (surrogate halves are not read as characters).
pub open spec fn unicode_escape(d: Seq<char>) -> Option<char> {
    match (hex_value(d[0]), hex_value(d[1]), hex_value(d[2]), hex_value(d[3])) {
        (Some(a), Some(b), Some(c), Some(e)) => {
            let code = a * 4096 + b * 256 + c * 16 + e;
            if 0xD800 <= code <= 0xDFFF {
                None
            } else {
                Some(code as char)
            }
        },
        _ => None,
    }
}

/// The first character that the JSON string contents `s` stand for, and how
/// many characters of `s` spell it; `None` when `s` does not start with a
/// character that may stand in a JSON string (a raw quote or control
/// character, or a malformed escape).
pub open spec fn json_first(s: Seq<char>) -> Option<(char, int)> {
    if s.len() == 0 {
        None
    } else if s[0] == '\\' {
        if s.len() < 2 {
            None
        } else if s[1] == '"' || s[1] == '\\' || s[1] == '/' {
            Some((s[1], 2))
        } else if s[1] == 'b' {
            Some(('\u{8}', 2))
        } else if s[1] == 'f' {
            Some(('\u{C}', 2))
        } else if s[1] == 'n' {
            Some(('\n', 2))
        } else if s[1] == 'r' {
            Some(('\r', 2))
        } else if s[1] == 't' {
            Some(('\t', 2))
        } else if s[1] == 'u' && s.len() >= 6 {
            match unicode_escape(s.subrange(2, 6)) {
                Some(c) => Some((c, 6)),
                None => None,
            }
        } else {
            None
        }
    } else if s[0] == '"' || (s[0] as u32) < 0x20 {
        None
    } else {
        Some((s[0], 1))
    }
}

/// The characters that the contents `s` of a JSON string literal stand for,
/// as a JSON reader takes them; `None` when `s` is not well-formed string
/// contents.
pub open spec fn json_unescape(s: Seq<char>) -> Option<Seq<char>>
    decreases s.len(),
{
    if s.len() == 0 {
        Some(Seq::empty())
    } else {
        match json_first(s) {
            Some((c, n)) => if 0 < n <= s.len() {
                match json_unescape(s.subrange(n, s.len() as int)) {
                    Some(rest) => Some(seq![c] + rest),
                    None => None,
                }
            } else {
                None
            },
            None => None,
        }
    }
}

/// Reading well-formed JSON string contents `a` followed by `b` reads `a`,
/// then `b`.
pub proof fn lemma_json_unescape_concat(a: Seq<char>, b: Seq<char>)
    requires
        json_unescape(a) is Some,
    ensures
        json_unescape(a + b) == match json_unescape(b) {
            Some(y) => Some(json_unescape(a).unwrap() + y),
            None => None::<Seq<char>>,
        },
    decreases a.len(),
{
    if a.len() == 0 {
        assert(a + b =~= b);
        assert(json_unescape(a).unwrap() + json_unescape(b).unwrap_or(Seq::empty()) =~= json_unescape(b).unwrap_or(Seq::empty()));
    } else {
        let (c, n) = json_first(a).unwrap();
        assert((a + b).subrange(0, n) =~= a.subrange(0, n));
        assert(json_first(a + b) == json_first(a)) by {
            if a[0] == '\\' && a[1] == 'u' && a.len() >= 6 {
                assert((a + b).subrange(2, 6) =~= a.subrange(2, 6));
            }
        }
        assert((a + b).subrange(n, (a + b).len() as int) =~= a.subrange(n, a.len() as int) + b);
        lemma_json_unescape_concat(a.subrange(n, a.len() as int), b);
        let rest = json_unescape(a.subrange(n, a.len() as int)).unwrap();
        match json_unescape(b) {
            Some(y) => {
                assert(seq![c] + (rest + y) =~= (seq![c] + rest) + y);
            },
            None => {},
        }
    }
}

/// The escape of one character reads back as that character.
pub proof fn lemma_json_escape_char_reads_back(c: char)
    ensures
        json_unescape(json_escape_char(c)) == Some(seq![c]),
{
    let e = json_escape_char(c);
    reveal_with_fuel(json_unescape, 2);
    if c == '"' || c == '\\' || c == '\n' || c == '\r' || c == '\t' {
        assert(e.subrange(2, 2) =~= Seq::<char>::empty());
        assert(seq![c] + Seq::<char>::empty() =~= seq![c]);
    } else if (c as u32) < 0x20 {
        let code = c as u32;
        let hi = code / 16;
        let lo = code % 16;
        assert(hex_value(hex_digit(hi)) == Some(hi as int));
        assert(hex_value(hex_digit(lo)) == Some(lo as int));
        assert(e.subrange(2, 6) =~= seq!['0', '0', hex_digit(hi), hex_digit(lo)]);
        assert(hi * 16 + lo == code);
        assert((code as char) == c) by {
            vstd::utf8::char_u32_cast(c, code);
        }
        assert(e.subrange(6, 6) =~= Seq::<char>::empty());
        assert(seq![c] + Seq::<char>::empty() =~= seq![c]);
    } else {
        assert(e.subrange(1, 1) =~= Seq::<char>::empty());
        assert(seq![c] + Seq::<char>::empty() =~= seq![c]);
    }
}

/// Reads the contents of a JSON string literal from the front of `s` up to and
/// including its closing quote: the characters read and how many characters
/// of `s` that took; `None` when no well-formed closing quote comes.
pub open spec fn json_string_body(s: Seq<char>) -> Option<(Seq<char>, int)>
    decreases s.len(),
{
    if s.len() == 0 {
        None
    } else if s[0] == '"' {
        Some((Seq::empty(), 1))
    } else {
        match json_first(s) {
            Some((c, n)) => if 0 < n <= s.len() {
                match json_string_body(s.subrange(n, s.len() as int)) {
                    Some((rest, m)) => Some((seq![c] + rest, n + m)),
                    None => None,
                }
            } else {
                None
            },
            None => None,
        }
    }
}

/// Reads a JSON string literal from the front of `s`: its characters and how
/// many characters of `s` it spans, quotes included.
pub open spec fn json_read_string(s: Seq<char>) -> Option<(Seq<char>, int)> {
    if s.len() > 0 && s[0] == '"' {
        match json_string_body(s.subrange(1, s.len() as int)) {
            Some((value, n)) => Some((value, n + 1)),
            None => None,
        }
    } else {
        None
    }
}

/// Reads the members of a JSON object whose values are strings, from just
/// after its `{` up to and including its `}`: the (key, value) pairs in order
/// and how many characters that took.
pub open spec fn json_read_members(s: Seq<char>) -> Option<(Seq<(Seq<char>, Seq<char>)>, int)>
    decreases s.len(),
{
    match json_read_string(s) {
        Some((key, k)) => if 0 <= k < s.len() && s[k] == ':' {
            match json_read_string(s.subrange(k + 1, s.len() as int)) {
                Some((value, v)) => {
                    let end = k + 1 + v;
                    if 0 <= v && end < s.len() && s[end] == '}' {
                        Some((seq![(key, value)], end + 1))
                    } else if 0 <= v && end < s.len() && s[end] == ',' {
                        match json_read_members(s.subrange(end + 1, s.len() as int)) {
                            Some((rest, m)) => Some((seq![(key, value)] + rest, end + 1 + m)),
                            None => None,
                        }
                    } else {
                        None
                    }
                },
                None => None,
            }
        } else {
            None
        },
        None => None,
    }
}

/// Reads a JSON object whose values are strings from the front of `s`.
pub open spec fn json_read_object(s: Seq<char>) -> Option<(Seq<(Seq<char>, Seq<char>)>, int)> {
    if s.len() > 0 && s[0] == '{' {
        match json_read_members(s.subrange(1, s.len() as int)) {
            Some((members, n)) => Some((members, n + 1)),
            None => None,
        }
    } else {
        None
    }
}

/// Reads the elements of a JSON array, from just after its `[` to its `]`,
/// which must end `s`, with `read` reading one element.
pub open spec fn json_read_elements<T>(s: Seq<char>, read: spec_fn(Seq<char>) -> Option<(T, int)>) -> Option<Seq<T>>
    decreases s.len(),
{
    match read(s) {
        Some((item, n)) => if 0 <= n < s.len() && s[n] == ']' && n + 1 == s.len() {
            Some(seq![item])
        } else if 0 <= n < s.len() && s[n] == ',' {
            match json_read_elements(s.subrange(n + 1, s.len() as int), read) {
                Some(rest) => Some(seq![item] + rest),
                None => None,
            }
        } else {
            None
        },
        None => None,
    }
}

/// Reads all of `s` as a JSON array (written without white space), with
/// `read` reading one element.
pub open spec fn json_read_array<T>(s: Seq<char>, read: spec_fn(Seq<char>) -> Option<(T, int)>) -> Option<Seq<T>> {
    if s.len() == 2 && s[0] == '[' && s[1] == ']' {
        Some(Seq::empty())
    } else if s.len() > 0 && s[0] == '[' {
        json_read_elements(s.subrange(1, s.len() as int), read)
    } else {
        None
    }
}

/// String contents that read back as `x`, followed by a quote and more, read
/// as `x` up to that quote.
pub proof fn lemma_json_string_body(a: Seq<char>, rest: Seq<char>)
    requires
        json_unescape(a) is Some,
    ensures
        json_string_body(a + seq!['"'] + rest) == Some((json_unescape(a).unwrap(), a.len() as int + 1)),
    decreases a.len(),
{
    let s = a + seq!['"'] + rest;
    if a.len() == 0 {
        assert(s[0] == '"');
    } else {
        let (c, n) = json_first(a).unwrap();
        assert(s.subrange(0, a.len() as int) =~= a);
        assert(json_first(s) == json_first(a)) by {
            if a[0] == '\\' && a[1] == 'u' && a.len() >= 6 {
                assert(s.subrange(2, 6) =~= a.subrange(2, 6));
            }
        }
        let tail = a.subrange(n, a.len() as int);
        assert(s.subrange(n, s.len() as int) =~= tail + seq!['"'] + rest);
        lemma_json_string_body(tail, rest);
    }
}

/// The JSON string of `x`, followed by more, reads as `x` and spans exactly
/// the literal.
pub proof fn lemma_json_read_string(x: Seq<char>, rest: Seq<char>)
    ensures
        json_read_string(json_string(x) + rest) == Some((x, json_string(x).len() as int)),
{
    lemma_json_escape_reads_back(x);
    let e = json_escape_spec(x);
    let s = json_string(x) + rest;
    assert(s.subrange(1, s.len() as int) =~= e + seq!['"'] + rest);
    lemma_json_string_body(e, rest);
}

/// JSON-escaping reads back: the escape of `s` is well-formed JSON string
/// contents that a JSON reader reads as exactly `s`.
pub proof fn lemma_json_escape_reads_back(s: Seq<char>)
    ensures
        json_unescape(json_escape_spec(s)) == Some(s),
    decreases s.len(),
{
    if s.len() == 0 {
        assert(json_escape_spec(s) =~= Seq::<char>::empty());
    } else {
        let init = s.drop_last();
        lemma_json_escape_reads_back(init);
        lemma_json_escape_char_reads_back(s.last());
        lemma_json_unescape_concat(json_escape_spec(init), json_escape_char(s.last()));
        assert(init + seq![s.last()] =~= s);
    }
}

/// Items joined by commas start with the first item and a comma.
pub proof fn lemma_join_commas_front(items: Seq<Seq<char>>)
    requires
        items.len() >= 2,
    ensures
        join_commas(items) == items[0] + seq![','] + join_commas(items.drop_first()),
    decreases items.len(),
{
    if items.len() == 2 {
        assert(items.drop_last() =~= seq![items[0]]);
        assert(items.drop_first() =~= seq![items[1]]);
        assert(join_commas(items.drop_last()) == items[0]);
        assert(join_commas(items.drop_first()) == items[1]);
    } else {
        let init = items.drop_last();
        lemma_join_commas_front(init);
        assert(items.drop_first().drop_last() =~= init.drop_first());
        assert(items.drop_first().last() == items.last());
        assert(join_commas(items) =~= items[0] + seq![','] + join_commas(items.drop_first()));
    }
}

/// Elements that `read` reads one by one, each spanning exactly its text,
/// joined by commas and closed by `]`, read back as those elements.
pub proof fn lemma_json_read_elements<T>(
    texts: Seq<Seq<char>>,
    values: Seq<T>,
    read: spec_fn(Seq<char>) -> Option<(T, int)>,
)
    requires
        texts.len() >= 1,
        values.len() == texts.len(),
        forall|i: int, rest: Seq<char>|
            0 <= i < texts.len() ==> #[trigger] read(texts[i] + rest) == Some(
                (values[i], texts[i].len() as int),
            ),
    ensures
        json_read_elements(join_commas(texts) + seq![']'], read) == Some(values),
    decreases texts.len(),
{
    let s = join_commas(texts) + seq![']'];
    if texts.len() == 1 {
        assert(join_commas(texts) == texts[0]);
        assert(read(texts[0] + seq![']']) == Some((values[0], texts[0].len() as int)));
        assert(s =~= texts[0] + seq![']']);
        assert(values =~= seq![values[0]]);
    } else {
        lemma_join_commas_front(texts);
        let tail = join_commas(texts.drop_first()) + seq![']'];
        assert(s =~= texts[0] + (seq![','] + tail));
        assert(read(texts[0] + (seq![','] + tail)) == Some((values[0], texts[0].len() as int)));
        assert(s.subrange(texts[0].len() as int + 1, s.len() as int) =~= tail);
        assert forall|i: int, rest: Seq<char>| 0 <= i < texts.drop_first().len() implies #[trigger] read(
            texts.drop_first()[i] + rest,
        ) == Some((values.drop_first()[i], texts.drop_first()[i].len() as int)) by {
            assert(read(texts[i + 1] + rest) == Some((values[i + 1], texts[i + 1].len() as int)));
        }
        lemma_json_read_elements(texts.drop_first(), values.drop_first(), read);
        assert(seq![values[0]] + values.drop_first() =~= values);
    }
}

} // verus!
