//! Properties of the engine that span its functions.
use vstd::prelude::*;
use vstd::utf8::{
    decode_utf8, encode_utf8, encode_utf8_decode_utf8, encode_utf8_valid_utf8, valid_utf8,
};

use crate::charset::{
    replacement, detected_encoding, marker_count, spec_confidence_measure, spec_detect, spec_fix_mojibake,
    spec_to_utf8, spec_to_utf8_from, spec_transcode, Confidence,
};
use crate::codec::{
    chardet_guess, bom_encoding, decoding_without_bom, encoding_output, is_label_of, label_encoding, whatwg_names,
};
use crate::text::count_where;
use crate::meta::{
    is_white_space, trim, trim_end, trim_start, comma_pieces, example_object, hex_digit, join_commas, json_escape_char, json_escape_spec,
    json_read_array, json_read_members, json_read_object, json_read_string, json_string,
    keyword_list, keyword_strings, lemma_join_commas_front, lemma_json_read_elements,
    lemma_json_read_string, spec_example_queries_json, spec_keywords_json,
};
use crate::utf16::{
    char_utf16_bytes, decode_utf16, encode_utf16, lemma_decode_char_then_rest, lemma_encode_utf16_front,
};

verus! {

/// A byte-order mark decides detection: bytes that start with the UTF-8,
/// UTF-16LE or UTF-16BE mark are detected as that encoding, whatever follows,
/// `to_utf8` decodes what follows the mark in that encoding, and reading them
/// counts as lossless.
pub proof fn lemma_bom_decides_detection(bytes: Seq<u8>)
    requires
        bom_encoding(bytes) is Some,
    ensures
        spec_detect(bytes) == Some(bom_encoding(bytes).unwrap().0),
        spec_to_utf8(bytes) == Some(
            decoding_without_bom(
                bom_encoding(bytes).unwrap().0,
                bytes.subrange(bom_encoding(bytes).unwrap().1 as int, bytes.len() as int),
            ).0,
        ),
        spec_confidence_measure(bytes) == Confidence::Lossless,
{
}

/// Without a byte-order mark, `to_utf8` reads non-empty bytes exactly as the
/// detected encoding decodes them with no BOM handling, which is what
/// `to_utf8_from` does under that encoding's name.
pub proof fn lemma_to_utf8_reads_detected_encoding(bytes: Seq<u8>)
    requires
        bytes.len() > 0,
        bom_encoding(bytes) is None,
    ensures
        spec_detect(bytes) == Some(detected_encoding(bytes)),
        spec_to_utf8(bytes) == Some(decoding_without_bom(detected_encoding(bytes), bytes).0),
{
}

/// Every canonical name of the Encoding Standard is a label of its own
/// encoding, so each name that `supported_encodings` lists (and each name that
/// `detect` reports) is accepted by `to_utf8_from` and `transcode`.
pub proof fn lemma_canonical_names_are_labels(name: Seq<char>)
    requires
        whatwg_names().contains(name),
    ensures
        is_label_of(name, name),
{
}

/// Empty input has no encoding: `detect` and `to_utf8` give nothing for
/// exactly the empty input, and the confidence measure reports it as empty;
/// the empty input is still valid UTF-8.
pub proof fn lemma_empty_input_has_no_encoding(bytes: Seq<u8>)
    ensures
        valid_utf8(Seq::<u8>::empty()),
        spec_detect(bytes) is None <==> bytes.len() == 0,
        spec_to_utf8(bytes) is None <==> bytes.len() == 0,
        spec_confidence_measure(bytes) == Confidence::Empty <==> bytes.len() == 0,
{
}

/// `to_utf8_from` and `transcode` reject exactly the same labels, with the
/// same message: an unknown label is an error whatever the bytes or text.
pub proof fn lemma_unknown_label_rejected_alike(bytes: Seq<u8>, text: Seq<char>, label: Seq<char>)
    ensures
        spec_to_utf8_from(bytes, label) is Err <==> label_encoding(label) is None,
        spec_transcode(text, label) is Err <==> label_encoding(label) is None,
        spec_to_utf8_from(bytes, label) is Err ==> spec_to_utf8_from(bytes, label)->Err_0
            == spec_transcode(text, label)->Err_0,
{
}

/// The bytes of every string are valid UTF-8, and decode back to it.
pub proof fn lemma_string_bytes_are_utf8(text: Seq<char>)
    ensures
        valid_utf8(encode_utf8(text)),
        decode_utf8(encode_utf8(text)) == text,
{
    encode_utf8_valid_utf8(text);
    encode_utf8_decode_utf8(text);
}

/// `fix_mojibake` only changes text when that strictly reduces the mojibake
/// markers; it never adds any.
pub proof fn lemma_fix_mojibake_strictly_improves(text: Seq<char>)
    ensures
        spec_fix_mojibake(text) == text || marker_count(spec_fix_mojibake(text)) < marker_count(
            text,
        ),
        marker_count(spec_fix_mojibake(text)) <= marker_count(text),
{
}

/// Text without mojibake markers passes through `fix_mojibake` unchanged.
pub proof fn lemma_fix_mojibake_keeps_clean_text(text: Seq<char>)
    requires
        marker_count(text) == 0,
    ensures
        spec_fix_mojibake(text) == text,
{
}

/// A repair reads the text's Windows-1252 bytes as UTF-8: the repaired text's
/// UTF-8 bytes are exactly the Windows-1252 bytes of the input, and every
/// input character had one.
pub proof fn lemma_fix_mojibake_reads_windows_1252_as_utf8(text: Seq<char>)
    requires
        spec_fix_mojibake(text) != text,
    ensures
        !encoding_output("windows-1252"@, text).1,
        encode_utf8(spec_fix_mojibake(text)) == encoding_output("windows-1252"@, text).0,
{
    let bytes = encoding_output("windows-1252"@, text).0;
    vstd::utf8::decode_utf8_encode_utf8(bytes);
}

/// Mojibake repair undoes the misreading it is for: when the UTF-8 bytes of
/// `text` were read as Windows-1252, giving `misread` (what `to_utf8_from`
/// returns for those bytes and the label `windows-1252`, whose Windows-1252
/// encoding is those bytes again), and the misreading added mojibake markers,
/// `fix_mojibake(misread)` gives `text` back.
pub proof fn lemma_fix_mojibake_undoes_windows_1252_misreading(text: Seq<char>, misread: Seq<char>)
    requires
        encoding_output("windows-1252"@, misread) == (encode_utf8(text), false),
        marker_count(text) < marker_count(misread),
    ensures
        spec_fix_mojibake(misread) == text,
{
    encode_utf8_valid_utf8(text);
    encode_utf8_decode_utf8(text);
}

/// A hex digit of the JSON escape is a printable character.
proof fn lemma_hex_digit_printable(n: u32)
    requires
        n < 16,
    ensures
        (hex_digit(n) as u32) >= 0x30,
{
}

/// The escape of `s` holds no control character, and a string with no double
/// quote, backslash or control character is its own escape.
proof fn lemma_json_escape_is_plain(s: Seq<char>)
    ensures
        forall|i: int|
            0 <= i < json_escape_spec(s).len() ==> (#[trigger] json_escape_spec(s)[i] as u32) >= 0x20,
        (forall|i: int|
            0 <= i < s.len() ==> #[trigger] s[i] != '"' && s[i] != '\\' && (s[i] as u32) >= 0x20)
            ==> json_escape_spec(s) == s,
    decreases s.len(),
{
    if s.len() > 0 {
        let init = s.drop_last();
        let c = s.last();
        lemma_json_escape_is_plain(init);
        if (c as u32) < 0x20 {
            lemma_hex_digit_printable((c as u32) / 16);
            lemma_hex_digit_printable((c as u32) % 16);
        }
        let escaped = json_escape_spec(s);
        assert(escaped == json_escape_spec(init) + json_escape_char(c));
        assert forall|i: int| 0 <= i < escaped.len() implies (#[trigger] escaped[i] as u32) >= 0x20 by {
            if i >= json_escape_spec(init).len() {
                let k = i - json_escape_spec(init).len();
                assert(escaped[i] == json_escape_char(c)[k]);
            }
        }
        if forall|i: int|
            0 <= i < s.len() ==> #[trigger] s[i] != '"' && s[i] != '\\' && (s[i] as u32) >= 0x20 {
            assert(s[s.len() - 1] == c);
            assert forall|i: int| 0 <= i < init.len() implies #[trigger] init[i] != '"' && init[i]
                != '\\' && (init[i] as u32) >= 0x20 by {
                assert(init[i] == s[i]);
            }
            assert(init + seq![c] =~= s);
        }
    }
}

/// JSON-escaping makes a JSON string literal of any string: a double quote,
/// the escape of `s` and a double quote read as a JSON string literal give
/// exactly `s` and span all of it; the escape holds no control character
/// (nothing below U+0020); and a string with no double quote, backslash or
/// control character is its own escape.
pub proof fn lemma_json_escape(s: Seq<char>)
    ensures
        json_read_string(seq!['"'] + json_escape_spec(s) + seq!['"']) == Some(
            (s, json_escape_spec(s).len() as int + 2),
        ),
        forall|i: int|
            0 <= i < json_escape_spec(s).len() ==> (#[trigger] json_escape_spec(s)[i] as u32) >= 0x20,
        (forall|i: int|
            0 <= i < s.len() ==> #[trigger] s[i] != '"' && s[i] != '\\' && (s[i] as u32) >= 0x20)
            ==> json_escape_spec(s) == s,
{
    lemma_json_escape_is_plain(s);
    lemma_json_read_string(s, Seq::empty());
    assert(json_string(s) + Seq::<char>::empty() =~= seq!['"'] + json_escape_spec(s) + seq!['"']);
}

/// The UTF-16 encoders are lossless: the UTF-16 bytes of any text, in either
/// byte order, are well-formed UTF-16 that reads back as exactly that text.
pub proof fn lemma_utf16_is_lossless(text: Seq<char>, big_endian: bool)
    ensures
        decode_utf16(encode_utf16(text, big_endian), big_endian) == Some(text),
    decreases text.len(),
{
    if text.len() > 0 {
        lemma_encode_utf16_front(text, big_endian);
        lemma_utf16_is_lossless(text.drop_first(), big_endian);
        lemma_decode_char_then_rest(
            text[0],
            big_endian,
            encode_utf16(text.drop_first(), big_endian),
        );
        assert(seq![text[0]] + text.drop_first() =~= text);
    }
}

/// The keywords JSON reads back: read as a JSON array of strings, what
/// `keywords_json` writes for a comma-separated list is exactly the list's
/// trimmed, non-empty pieces, in order, with quotes, backslashes and control
/// characters intact.
pub proof fn lemma_keywords_json_reads_back(comma_separated: Seq<char>)
    ensures
        json_read_array(spec_keywords_json(comma_separated), |t: Seq<char>| json_read_string(t))
            == Some(keyword_list(comma_pieces(comma_separated))),
{
    let keywords = keyword_list(comma_pieces(comma_separated));
    let texts = keyword_strings(keywords);
    let read = |t: Seq<char>| json_read_string(t);
    let s = spec_keywords_json(comma_separated);
    if keywords.len() == 0 {
        assert(texts =~= Seq::<Seq<char>>::empty());
        assert(s =~= seq!['[', ']']);
    } else {
        assert forall|i: int, rest: Seq<char>| 0 <= i < texts.len() implies #[trigger] read(
            texts[i] + rest,
        ) == Some((keywords[i], texts[i].len() as int)) by {
            lemma_json_read_string(keywords[i], rest);
        }
        lemma_json_read_elements(texts, keywords, read);
        assert(s.subrange(1, s.len() as int) =~= join_commas(texts) + seq![']']);
        assert(texts[0].len() >= 2);
        if keywords.len() >= 2 {
            lemma_join_commas_front(texts);
        }
        assert(s.len() > 2);
    }
}

/// A key of the example objects: a string that is its own JSON escape.
proof fn lemma_plain_key(key: Seq<char>)
    requires
        forall|i: int|
            0 <= i < key.len() ==> #[trigger] key[i] != '"' && key[i] != '\\' && (key[i] as u32)
                >= 0x20,
    ensures
        json_string(key) == seq!['"'] + key + seq!['"'],
{
    lemma_json_escape_is_plain(key);
}

/// A `key:value` member of a string-valued JSON object, followed by `}` or by
/// `,` and further members, reads as that member (and the further ones).
proof fn lemma_json_read_member(key: Seq<char>, value: Seq<char>, sep: char, rest: Seq<char>)
    ensures
        ({
            let s = json_string(key) + seq![':'] + json_string(value) + seq![sep] + rest;
            let n = json_string(key).len() as int + 1 + json_string(value).len() + 1;
            &&& sep == '}' ==> json_read_members(s) == Some((seq![(key, value)], n))
            &&& sep == ',' ==> json_read_members(s) == match json_read_members(rest) {
                Some((more, m)) => Some((seq![(key, value)] + more, n + m)),
                None => None::<(Seq<(Seq<char>, Seq<char>)>, int)>,
            }
        }),
{
    let jk = json_string(key);
    let jv = json_string(value);
    let s = jk + seq![':'] + jv + seq![sep] + rest;
    lemma_json_read_string(key, seq![':'] + jv + seq![sep] + rest);
    assert(s =~= jk + (seq![':'] + jv + seq![sep] + rest));
    let k = jk.len() as int;
    assert(s[k] == ':');
    let after = s.subrange(k + 1, s.len() as int);
    assert(after =~= jv + (seq![sep] + rest));
    lemma_json_read_string(value, seq![sep] + rest);
    let end = k + 1 + jv.len();
    assert(s[end] == sep);
    assert(s.subrange(end + 1, s.len() as int) =~= rest);
}

/// An example object spelled out: its two keys are plain JSON strings.
proof fn lemma_example_object_shape(description: Seq<char>, sql: Seq<char>)
    ensures
        example_object(description, sql) == seq!['{'] + json_string("description"@) + seq![':']
            + json_string(description) + seq![','] + json_string("sql"@) + seq![':'] + json_string(
            sql,
        ) + seq!['}'],
{
    reveal_strlit("description");
    reveal_strlit("sql");
    reveal_strlit("{\"description\":");
    reveal_strlit(",\"sql\":");
    assert("description"@ =~= seq!['d', 'e', 's', 'c', 'r', 'i', 'p', 't', 'i', 'o', 'n']);
    assert("sql"@ =~= seq!['s', 'q', 'l']);
    lemma_plain_key("description"@);
    lemma_plain_key("sql"@);
    assert(example_object(description, sql) =~= seq!['{'] + json_string("description"@) + seq![
        ':',
    ] + json_string(description) + seq![','] + json_string("sql"@) + seq![':'] + json_string(sql)
        + seq!['}']);
}

/// One example object, followed by more, reads as its two members,
/// `description` then `sql`, and spans exactly the object.
#[verifier::spinoff_prover]
#[verifier::rlimit(60)]
proof fn lemma_example_object_reads_back(description: Seq<char>, sql: Seq<char>, rest: Seq<char>)
    ensures
        json_read_object(example_object(description, sql) + rest) == Some(
            (
                seq![("description"@, description), ("sql"@, sql)],
                example_object(description, sql).len() as int,
            ),
        ),
{
    lemma_example_object_shape(description, sql);
    let dkey = "description"@;
    let skey = "sql"@;
    let second = json_string(skey) + seq![':'] + json_string(sql) + seq!['}'] + rest;
    let s = example_object(description, sql) + rest;
    assert(s.subrange(1, s.len() as int) =~= json_string(dkey) + seq![':'] + json_string(
        description,
    ) + seq![','] + second);
    lemma_json_read_member(dkey, description, ',', second);
    lemma_json_read_member(skey, sql, '}', rest);
    assert(seq![(dkey, description)] + seq![(skey, sql)] =~= seq![
        (dkey, description),
        (skey, sql),
    ]);
}

/// The example-queries JSON reads back: read as a JSON array of objects, what
/// `example_queries_json` writes is one object per example, in order, each
/// with exactly the members `description` and `sql` holding that example's
/// two strings.
#[verifier::spinoff_prover]
#[verifier::rlimit(40)]
pub proof fn lemma_example_queries_json_reads_back(examples: Seq<(Seq<char>, Seq<char>)>)
    ensures
        json_read_array(spec_example_queries_json(examples), |t: Seq<char>| json_read_object(t))
            == Some(
            Seq::new(
                examples.len(),
                |i: int| seq![("description"@, examples[i].0), ("sql"@, examples[i].1)],
            ),
        ),
{
    let texts = Seq::new(examples.len(), |i: int| example_object(examples[i].0, examples[i].1));
    let values = Seq::new(
        examples.len(),
        |i: int| seq![("description"@, examples[i].0), ("sql"@, examples[i].1)],
    );
    let read = |t: Seq<char>| json_read_object(t);
    let s = spec_example_queries_json(examples);
    if examples.len() == 0 {
        assert(texts =~= Seq::<Seq<char>>::empty());
        assert(s =~= seq!['[', ']']);
        assert(values =~= Seq::<Seq<(Seq<char>, Seq<char>)>>::empty());
    } else {
        assert forall|i: int, rest: Seq<char>| 0 <= i < texts.len() implies #[trigger] read(
            texts[i] + rest,
        ) == Some((values[i], texts[i].len() as int)) by {
            assert(texts[i] == example_object(examples[i].0, examples[i].1));
            assert(values[i] == seq![("description"@, examples[i].0), ("sql"@, examples[i].1)]);
            lemma_example_object_reads_back(examples[i].0, examples[i].1, rest);
        }
        lemma_json_read_elements(texts, values, read);
        assert(s.subrange(1, s.len() as int) =~= join_commas(texts) + seq![']']);
        assert(texts[0].len() >= 2);
        if examples.len() >= 2 {
            lemma_join_commas_front(texts);
        }
        assert(s.len() > 2);
    }
}

/// Whether `bytes` begins with `prefix`.
pub open spec fn starts_with(bytes: Seq<u8>, prefix: Seq<u8>) -> bool {
    prefix.len() <= bytes.len() && bytes.subrange(0, prefix.len() as int) == prefix
}

/// The UTF-8 byte-order mark `EF BB BF`.
pub open spec fn utf8_mark() -> Seq<u8> {
    seq![0xEFu8, 0xBBu8, 0xBFu8]
}

/// The UTF-16LE byte-order mark `FF FE`.
pub open spec fn utf16le_mark() -> Seq<u8> {
    seq![0xFFu8, 0xFEu8]
}

/// The UTF-16BE byte-order mark `FE FF`.
pub open spec fn utf16be_mark() -> Seq<u8> {
    seq![0xFEu8, 0xFFu8]
}

/// Whether `bytes` begins with none of the three byte-order marks.
pub open spec fn unmarked(bytes: Seq<u8>) -> bool {
    !starts_with(bytes, utf8_mark()) && !starts_with(bytes, utf16le_mark()) && !starts_with(
        bytes,
        utf16be_mark(),
    )
}

/// What `chardetng` guesses for the whole of `bytes`, fed at once with the end
/// of the stream, with no top-level domain and UTF-8 allowed.
pub open spec fn whole_input_guess(bytes: Seq<u8>) -> Seq<char> {
    chardet_guess(bytes, true, None, true)
}

/// Bytes that begin with no byte-order mark have none for detection.
proof fn lemma_unmarked_has_no_bom(bytes: Seq<u8>)
    requires
        unmarked(bytes),
    ensures
        bom_encoding(bytes) is None,
{
    if bytes.len() >= 3 && bytes[0] == 0xEFu8 && bytes[1] == 0xBBu8 && bytes[2] == 0xBFu8 {
        assert(bytes.subrange(0, 3) =~= utf8_mark());
    }
    if bytes.len() >= 2 && bytes[0] == 0xFFu8 && bytes[1] == 0xFEu8 {
        assert(bytes.subrange(0, 2) =~= utf16le_mark());
    }
    if bytes.len() >= 2 && bytes[0] == 0xFEu8 && bytes[1] == 0xFFu8 {
        assert(bytes.subrange(0, 2) =~= utf16be_mark());
    }
}

/// A byte-order mark decides everything about the bytes it starts: `EF BB
/// BF` is detected as UTF-8, `FF FE` as UTF-16LE and `FE FF` as UTF-16BE;
/// `to_utf8` decodes what follows the mark (and only that) in that encoding;
/// and the confidence measure is lossless.
pub proof fn lemma_byte_order_mark_decides(bytes: Seq<u8>)
    ensures
        starts_with(bytes, utf8_mark()) ==> spec_detect(bytes) == Some("UTF-8"@) && spec_to_utf8(
            bytes,
        ) == Some(decoding_without_bom("UTF-8"@, bytes.subrange(3, bytes.len() as int)).0)
            && spec_confidence_measure(bytes) == Confidence::Lossless,
        starts_with(bytes, utf16le_mark()) ==> spec_detect(bytes) == Some("UTF-16LE"@)
            && spec_to_utf8(bytes) == Some(
            decoding_without_bom("UTF-16LE"@, bytes.subrange(2, bytes.len() as int)).0,
        ) && spec_confidence_measure(bytes) == Confidence::Lossless,
        starts_with(bytes, utf16be_mark()) ==> spec_detect(bytes) == Some("UTF-16BE"@)
            && spec_to_utf8(bytes) == Some(
            decoding_without_bom("UTF-16BE"@, bytes.subrange(2, bytes.len() as int)).0,
        ) && spec_confidence_measure(bytes) == Confidence::Lossless,
{
    if starts_with(bytes, utf8_mark()) {
        assert(bytes.subrange(0, 3)[0] == bytes[0] && bytes.subrange(0, 3)[1] == bytes[1]
            && bytes.subrange(0, 3)[2] == bytes[2]);
    }
    if starts_with(bytes, utf16le_mark()) {
        assert(bytes.subrange(0, 2)[0] == bytes[0] && bytes.subrange(0, 2)[1] == bytes[1]);
    }
    if starts_with(bytes, utf16be_mark()) {
        assert(bytes.subrange(0, 2)[0] == bytes[0] && bytes.subrange(0, 2)[1] == bytes[1]);
    }
}

/// Without a byte-order mark, non-empty bytes are judged on the whole input:
/// `detect` reports `chardetng`'s guess for all of the bytes, `to_utf8` decodes
/// all of them (no BOM handling) in that encoding, and the confidence measure
/// is lossless exactly when that decoding met no malformed sequence, and
/// otherwise counts the U+FFFD characters of the decoded text against its
/// length.
pub proof fn lemma_unmarked_bytes_judged_as_a_whole(bytes: Seq<u8>)
    requires
        bytes.len() > 0,
        unmarked(bytes),
    ensures
        spec_detect(bytes) == Some(whole_input_guess(bytes)),
        spec_to_utf8(bytes) == Some(decoding_without_bom(whole_input_guess(bytes), bytes).0),
        spec_confidence_measure(bytes) == Confidence::Lossless <==> !decoding_without_bom(
            whole_input_guess(bytes),
            bytes,
        ).1,
        spec_confidence_measure(bytes) matches Confidence::Lossy { replaced, total } ==> replaced
            == count_where(
            decoding_without_bom(whole_input_guess(bytes), bytes).0,
            |c: char| c == '\u{FFFD}',
        ) as usize && total == decoding_without_bom(whole_input_guess(bytes), bytes).0.len() as usize,
{
    lemma_unmarked_has_no_bom(bytes);
    assert(replacement() =~= (|c: char| c == '\u{FFFD}'));
}

/// The mojibake markers are exactly `Ã Â â € ™ … “ ” ‘ ’` and the C1 controls
/// U+009D and U+0081: the empty text has none, and a character added to a
/// text adds one marker exactly when it is one of them.
pub proof fn lemma_mojibake_markers(text: Seq<char>, c: char)
    ensures
        marker_count(Seq::empty()) == 0,
        marker_count(text.push(c)) == marker_count(text) + if c == 'Ã' || c == 'Â' || c == 'â'
            || c == '€' || c == '™' || c == '…' || c == '“' || c == '”' || c == '‘' || c == '’'
            || c == '\u{9D}' || c == '\u{81}' {
            1int
        } else {
            0int
        },
{
    assert(text.push(c).drop_last() =~= text);
}

/// `fix_mojibake` takes every repair that improves the text and no other: with
/// `bytes` and `unmappable` the text's Windows-1252 encoding, when nothing was
/// unmappable, the bytes are well-formed UTF-8 and reading them as UTF-8 gives
/// strictly fewer mojibake markers, the result is that reading; otherwise it is
/// the text itself.
pub proof fn lemma_fix_mojibake_takes_improving_repairs(text: Seq<char>)
    ensures
        ({
            let (bytes, unmappable) = encoding_output("windows-1252"@, text);
            &&& !unmappable && valid_utf8(bytes) && marker_count(decode_utf8(bytes)) < marker_count(
                text,
            ) ==> spec_fix_mojibake(text) == decode_utf8(bytes)
            &&& !(!unmappable && valid_utf8(bytes) && marker_count(decode_utf8(bytes))
                < marker_count(text)) ==> spec_fix_mojibake(text) == text
        }),
{
}

/// Well-formed UTF-8 is exactly the UTF-8 encoding of some text.
pub proof fn lemma_valid_utf8_is_encoded_text(bytes: Seq<u8>)
    ensures
        valid_utf8(bytes) <==> exists|text: Seq<char>| encode_utf8(text) == bytes,
{
    if valid_utf8(bytes) {
        vstd::utf8::decode_utf8_encode_utf8(bytes);
        assert(encode_utf8(decode_utf8(bytes)) == bytes);
    }
    if exists|text: Seq<char>| encode_utf8(text) == bytes {
        let text = choose|text: Seq<char>| encode_utf8(text) == bytes;
        encode_utf8_valid_utf8(text);
    }
}

/// UTF-16 bytes are written character by character, each character as
/// UTF-16 prescribes: below U+10000 one code unit equal to the scalar value,
/// and above it the surrogate pair U+D800 + (v - 0x10000) / 0x400 and
/// U+DC00 + (v - 0x10000) % 0x400; each unit low byte first in little-endian
/// order and high byte first in big-endian order.
pub proof fn lemma_utf16_layout(a: Seq<char>, b: Seq<char>, c: char)
    ensures
        encode_utf16(a + b, false) == encode_utf16(a, false) + encode_utf16(b, false),
        encode_utf16(a + b, true) == encode_utf16(a, true) + encode_utf16(b, true),
        (c as u32) < 0x10000 ==> encode_utf16(seq![c], false) == seq![
            ((c as u32) % 256) as u8,
            ((c as u32) / 256) as u8,
        ] && encode_utf16(seq![c], true) == seq![((c as u32) / 256) as u8, ((c as u32) % 256) as u8],
        (c as u32) >= 0x10000 ==> ({
            let high = 0xD800 + ((c as u32) - 0x10000) / 0x400;
            let low = 0xDC00 + ((c as u32) - 0x10000) % 0x400;
            &&& encode_utf16(seq![c], false) == seq![
                (high % 256) as u8,
                (high / 256) as u8,
                (low % 256) as u8,
                (low / 256) as u8,
            ]
            &&& encode_utf16(seq![c], true) == seq![
                (high / 256) as u8,
                (high % 256) as u8,
                (low / 256) as u8,
                (low % 256) as u8,
            ]
        }),
{
    lemma_encode_utf16_concat(a, b, false);
    lemma_encode_utf16_concat(a, b, true);
    vstd::utf8::char_is_scalar(c);
    assert(seq![c].drop_last() =~= Seq::<char>::empty());
    assert(seq![c].last() == c);
    assert(encode_utf16(Seq::<char>::empty(), false) =~= Seq::<u8>::empty());
    assert(encode_utf16(Seq::<char>::empty(), true) =~= Seq::<u8>::empty());
    assert(encode_utf16(seq![c], false) =~= char_utf16_bytes(c, false));
    assert(encode_utf16(seq![c], true) =~= char_utf16_bytes(c, true));
    let v = c as u32;
    if v < 0x10000 {
        assert((v as u16) / 256 == v / 256 && (v as u16) % 256 == v % 256);
        assert(encode_utf16(seq![c], false) =~= seq![(v % 256) as u8, (v / 256) as u8]);
        assert(encode_utf16(seq![c], true) =~= seq![(v / 256) as u8, (v % 256) as u8]);
    } else {
        let high = 0xD800 + (v - 0x10000) / 0x400;
        let low = 0xDC00 + (v - 0x10000) % 0x400;
        assert((high as u16) as int == high && (low as u16) as int == low);
        assert(encode_utf16(seq![c], false) =~= seq![
            (high % 256) as u8,
            (high / 256) as u8,
            (low % 256) as u8,
            (low / 256) as u8,
        ]);
        assert(encode_utf16(seq![c], true) =~= seq![
            (high / 256) as u8,
            (high % 256) as u8,
            (low / 256) as u8,
            (low % 256) as u8,
        ]);
    }
}

/// The UTF-16 bytes of two texts one after the other are the bytes of the
/// first followed by those of the second.
proof fn lemma_encode_utf16_concat(a: Seq<char>, b: Seq<char>, big_endian: bool)
    ensures
        encode_utf16(a + b, big_endian) == encode_utf16(a, big_endian) + encode_utf16(b, big_endian),
    decreases b.len(),
{
    if b.len() == 0 {
        assert(a + b =~= a);
        assert(encode_utf16(a, big_endian) + encode_utf16(b, big_endian) =~= encode_utf16(
            a,
            big_endian,
        ));
    } else {
        lemma_encode_utf16_concat(a, b.drop_last(), big_endian);
        assert((a + b).drop_last() =~= a + b.drop_last());
        assert((a + b).last() == b.last());
        assert(encode_utf16(a + b, big_endian) =~= encode_utf16(a, big_endian) + encode_utf16(
            b,
            big_endian,
        ));
    }
}

/// White space, as trimmed from keywords, is exactly Unicode `White_Space`:
/// U+0009..U+000D, U+0020, U+0085, U+00A0, U+1680, U+2000..U+200A, U+2028,
/// U+2029, U+202F, U+205F and U+3000.
pub proof fn lemma_white_space_is_unicode_white_space(c: char)
    ensures
        is_white_space(c) <==> (0x9 <= (c as u32) <= 0xD || (c as u32) == 0x20 || (c as u32)
            == 0x85 || (c as u32) == 0xA0 || (c as u32) == 0x1680 || 0x2000 <= (c as u32) <= 0x200A
            || (c as u32) == 0x2028 || (c as u32) == 0x2029 || (c as u32) == 0x202F || (c as u32)
            == 0x205F || (c as u32) == 0x3000),
{
}

/// Removing leading white space removes exactly a white prefix, and leaves
/// nothing or a non-white first character.
proof fn lemma_trim_start(s: Seq<char>) -> (i: int)
    ensures
        0 <= i <= s.len(),
        trim_start(s) == s.subrange(i, s.len() as int),
        forall|k: int| 0 <= k < i ==> is_white_space(#[trigger] s[k]),
        i < s.len() ==> !is_white_space(s[i]),
    decreases s.len(),
{
    if s.len() > 0 && is_white_space(s[0]) {
        let rest = s.subrange(1, s.len() as int);
        let j = lemma_trim_start(rest);
        assert(rest.subrange(j, rest.len() as int) =~= s.subrange(j + 1, s.len() as int));
        assert forall|k: int| 0 <= k < j + 1 implies is_white_space(#[trigger] s[k]) by {
            if k > 0 {
                assert(s[k] == rest[k - 1]);
            }
        }
        assert(j < rest.len() ==> s[j + 1] == rest[j]);
        j + 1
    } else {
        assert(s.subrange(0, s.len() as int) =~= s);
        0
    }
}

/// Removing trailing white space removes exactly a white suffix, and leaves
/// nothing or a non-white last character.
proof fn lemma_trim_end(s: Seq<char>) -> (j: int)
    ensures
        0 <= j <= s.len(),
        trim_end(s) == s.subrange(0, j),
        forall|k: int| j <= k < s.len() ==> is_white_space(#[trigger] s[k]),
        j > 0 ==> !is_white_space(s[j - 1]),
    decreases s.len(),
{
    if s.len() > 0 && is_white_space(s.last()) {
        let init = s.drop_last();
        let j = lemma_trim_end(init);
        assert(init.subrange(0, j) =~= s.subrange(0, j));
        assert forall|k: int| j <= k < s.len() implies is_white_space(#[trigger] s[k]) by {
            if k < s.len() - 1 {
                assert(s[k] == init[k]);
            }
        }
        assert(j > 0 ==> s[j - 1] == init[j - 1]);
        j
    } else {
        assert(s.subrange(0, s.len() as int) =~= s);
        s.len() as int
    }
}

/// Trimming keeps exactly the stretch of `s` between a white prefix and a white
/// suffix that neither starts nor ends with white space.
pub proof fn lemma_trim(s: Seq<char>)
    ensures
        exists|i: int, j: int|
            0 <= i <= j <= s.len() && trim(s) == s.subrange(i, j) && (forall|k: int|
                0 <= k < i ==> is_white_space(#[trigger] s[k])) && (forall|k: int|
                j <= k < s.len() ==> is_white_space(#[trigger] s[k])),
        trim(s).len() > 0 ==> !is_white_space(trim(s)[0]) && !is_white_space(trim(s).last()),
{
    let i = lemma_trim_start(s);
    let t = trim_start(s);
    let m = lemma_trim_end(t);
    let j = i + m;
    assert(trim(s) =~= s.subrange(i, j));
    assert forall|k: int| j <= k < s.len() implies is_white_space(#[trigger] s[k]) by {
        assert(s[k] == t[k - i]);
    }
    if trim(s).len() > 0 {
        assert(trim(s)[0] == t[0]);
        assert(trim(s).last() == t[m - 1]);
    }
    assert(0 <= i <= j <= s.len() && trim(s) == s.subrange(i, j) && (forall|k: int|
        0 <= k < i ==> is_white_space(#[trigger] s[k])) && (forall|k: int|
        j <= k < s.len() ==> is_white_space(#[trigger] s[k])));
}

/// Each piece trimmed.
pub open spec fn trimmed_pieces(pieces: Seq<Seq<char>>) -> Seq<Seq<char>> {
    pieces.map_values(|p: Seq<char>| trim(p))
}

/// Whether a piece holds anything.
pub open spec fn non_empty() -> spec_fn(Seq<char>) -> bool {
    |t: Seq<char>| t.len() > 0
}

/// The keywords of a list of pieces are the trimmed pieces with the empty ones
/// dropped, in order.
pub proof fn lemma_keywords_are_trimmed_nonempty_pieces(pieces: Seq<Seq<char>>)
    ensures
        keyword_list(pieces) == trimmed_pieces(pieces).filter(non_empty()),
    decreases pieces.len(),
{
    let mapped = trimmed_pieces(pieces);
    reveal(Seq::filter);
    if pieces.len() > 0 {
        lemma_keywords_are_trimmed_nonempty_pieces(pieces.drop_last());
        assert(mapped.drop_last() =~= trimmed_pieces(pieces.drop_last()));
        assert(mapped.last() == trim(pieces.last()));
        assert(mapped.filter(non_empty()) == if non_empty()(mapped.last()) {
            mapped.drop_last().filter(non_empty()).push(mapped.last())
        } else {
            mapped.drop_last().filter(non_empty())
        });
    } else {
        assert(mapped =~= Seq::<Seq<char>>::empty());
    }
}

/// Splitting at commas gives pieces with no comma that, joined again with
/// commas, give back `s`.
pub proof fn lemma_comma_pieces(s: Seq<char>)
    ensures
        comma_pieces(s).len() >= 1,
        join_commas(comma_pieces(s)) == s,
        forall|i: int| 0 <= i < comma_pieces(s).len() ==> !(#[trigger] comma_pieces(s)[i]).contains(
            ',',
        ),
    decreases s.len(),
{
    if s.len() > 0 {
        let init = s.drop_last();
        lemma_comma_pieces(init);
        let pieces = comma_pieces(init);
        let n = pieces.len();
        if s.last() == ',' {
            let next = pieces.push(Seq::<char>::empty());
            assert(next.drop_last() =~= pieces);
            assert(join_commas(next) =~= s);
            assert forall|i: int| 0 <= i < next.len() implies !(#[trigger] next[i]).contains(',') by {
                if i < n {
                    assert(next[i] == pieces[i]);
                }
            }
        } else {
            let last = pieces.last().push(s.last());
            let next = pieces.update(n - 1, last);
            assert(next.drop_last() =~= pieces.drop_last());
            assert(init + seq![s.last()] =~= s);
            if n == 1 {
                assert(join_commas(next) == next[0]);
                assert(next[0] == last);
                assert(join_commas(pieces) == pieces[0]);
                assert(last =~= init + seq![s.last()]);
            } else {
                assert(join_commas(pieces) == join_commas(pieces.drop_last()) + seq![',']
                    + pieces.last());
                assert(join_commas(next) == join_commas(next.drop_last()) + seq![','] + next.last());
                assert(next.last() == last);
                assert(join_commas(next) =~= join_commas(pieces) + seq![s.last()]);
            }
            assert(join_commas(next) =~= s);
            assert forall|i: int| 0 <= i < next.len() implies !(#[trigger] next[i]).contains(',') by {
                if i < n - 1 {
                    assert(next[i] == pieces[i]);
                } else {
                    assert(!pieces[n - 1].contains(','));
                    if last.contains(',') {
                        let k = choose|k: int| 0 <= k < last.len() && last[k] == ',';
                        assert(k < last.len() - 1);
                        assert(pieces[n - 1][k] == ',');
                    }
                }
            }
        }
    }
}

} // verus!
