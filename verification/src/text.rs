//! Reading the output of a command.

use vstd::prelude::*;
use vstd::utf8::*;

verus! {

/// Whether `needle` stands in `hay` at offset `at`.
pub open spec fn occurs_at<T>(needle: Seq<T>, hay: Seq<T>, at: int) -> bool {
    &&& 0 <= at
    &&& at + needle.len() <= hay.len()
    &&& hay.subrange(at, at + needle.len()) == needle
}

/// Whether `needle` stands somewhere in `hay`.
pub open spec fn occurs_in<T>(needle: Seq<T>, hay: Seq<T>) -> bool {
    exists|at: int| occurs_at(needle, hay, at)
}

/// Whether `needle` stands in `hay` at offset `at` and begins a line there:
/// it stands at the very start, or right after `newline`.
pub open spec fn begins_line_at<T>(needle: Seq<T>, hay: Seq<T>, at: int, newline: T) -> bool {
    occurs_at(needle, hay, at) && (at == 0 || hay[at - 1] == newline)
}

/// Whether `needle` begins some line of `hay`.
pub open spec fn begins_line<T>(needle: Seq<T>, hay: Seq<T>, newline: T) -> bool {
    exists|at: int| begins_line_at(needle, hay, at, newline)
}

/// How the line of a remote called `name` begins in a listing of remotes:
/// with the name and a tab.
pub open spec fn entry_head(name: Seq<char>) -> Seq<char> {
    name + seq!['\t']
}

/// Whether a listing of remotes, as `git remote -v` writes it, names the
/// remote `name`: the listing is UTF-8, and a line of the text that it
/// decodes to begins with the name and a tab. A listing that is not UTF-8
/// reads as no text at all and names no remote.
pub open spec fn lists_remote(output: Seq<u8>, name: Seq<char>) -> bool {
    valid_utf8(output) && begins_line(entry_head(name), decode_utf8(output), '\n')
}

/// `std::str::from_utf8`, keeping only whether it succeeded. Trusted: it
/// succeeds exactly on well-formed UTF-8.
#[verifier::external_body]
fn is_utf8(bytes: &[u8]) -> (valid: bool)
    ensures
        valid == valid_utf8(bytes@),
{
    std::str::from_utf8(bytes).is_ok()
}

/// Whether `needle` stands in `hay` at offset `at`.
fn matches_at(hay: &[u8], needle: &[u8], at: usize) -> (found: bool)
    requires
        at + needle@.len() <= hay@.len(),
    ensures
        found == occurs_at(needle@, hay@, at as int),
{
    let mut k: usize = 0;
    while k < needle.len()
        invariant
            k <= needle.len(),
            at + needle.len() <= hay.len(),
            forall|t: int| 0 <= t < k ==> hay@[at + t] == needle@[t],
        decreases needle@.len() - k,
    {
        if hay[at + k] != needle[k] {
            proof {
                let window = hay@.subrange(at as int, at + needle@.len());
                assert(window[k as int] == hay@[at + k]);
            }
            return false;
        }
        k += 1;
    }
    proof {
        assert(hay@.subrange(at as int, at + needle@.len()) =~= needle@);
    }
    true
}

/// Whether `needle` begins some line of `hay`, lines ending in a line feed.
pub fn begins_a_line(hay: &[u8], needle: &[u8]) -> (found: bool)
    ensures
        found == begins_line(needle@, hay@, 10u8),
{
    if needle.len() > hay.len() {
        return false;
    }
    let last: usize = hay.len() - needle.len();
    let mut at: usize = 0;
    loop
        invariant
            last + needle.len() == hay.len(),
            at <= last,
            forall|j: int| 0 <= j < at ==> !begins_line_at(needle@, hay@, j, 10u8),
        decreases last - at,
    {
        if (at == 0 || hay[at - 1] == 10) && matches_at(hay, needle, at) {
            assert(begins_line_at(needle@, hay@, at as int, 10u8));
            return true;
        }
        if at == last {
            return false;
        }
        at += 1;
    }
}

/// A line feed is one byte, and that byte alone is a line feed.
proof fn line_feed_encoding()
    ensures
        encode_utf8(seq!['\n']) == seq![10u8],
        decode_utf8(seq![10u8]) == seq!['\n'],
{
    let feed = seq!['\n'];
    assert(is_ascii_chars(feed));
    is_ascii_chars_encode_utf8(feed);
    assert(feed[0] as u8 == 10u8);
    assert(encode_utf8(feed) =~= seq![10u8]);
    encode_utf8_decode_utf8(feed);
}

/// Encoding goes through concatenation.
proof fn encode_concat(left: Seq<char>, right: Seq<char>)
    ensures
        encode_utf8(left + right) == encode_utf8(left) + encode_utf8(right),
    decreases left.len(),
{
    if left.len() == 0 {
        assert(left + right =~= right);
        assert(encode_utf8(left) + encode_utf8(right) =~= encode_utf8(right));
    } else {
        let rest = left.drop_first();
        assert((left + right).drop_first() =~= rest + right);
        encode_concat(rest, right);
        assert(encode_utf8(left + right) =~= encode_utf8(left) + encode_utf8(right));
    }
}

/// Text whose encoding begins well-formed bytes begins what they decode to.
proof fn decode_prefix(bytes: Seq<u8>, word: Seq<char>)
    requires
        valid_utf8(bytes),
        occurs_at(encode_utf8(word), bytes, 0),
    ensures
        occurs_at(word, decode_utf8(bytes), 0),
    decreases word.len(),
{
    let text = decode_utf8(bytes);
    if word.len() == 0 {
        assert(text.subrange(0, 0) =~= word);
    } else {
        let encoded = encode_utf8(word);
        let rest = word.drop_first();
        let first = encode_scalar(word[0] as u32);
        encode_utf8_first_scalar(word);
        assert(encoded == first + encode_utf8(rest));
        assert(bytes.subrange(0, encoded.len() as int) == encoded);
        assert(bytes.len() > 0);
        assert forall|i: int| 0 <= i < encoded.len() implies bytes[i] == encoded[i] by {
            assert(bytes.subrange(0, encoded.len() as int)[i] == bytes[i]);
        }
        assert(bytes[0] == encoded[0]);
        assert(length_of_first_scalar(bytes) == length_of_first_scalar(encoded));
        assert(decode_first_scalar(bytes) == decode_first_scalar(encoded));
        let tail = pop_first_scalar(bytes);
        assert(tail.subrange(0, encode_utf8(rest).len() as int) =~= encode_utf8(rest));
        decode_prefix(tail, rest);
        char_u32_cast(word[0], word[0] as u32);
        assert(text == seq![decode_first_scalar(bytes) as char] + decode_utf8(tail));
        let decoded = decode_utf8(tail);
        assert(decoded.subrange(0, rest.len() as int) == rest);
        assert((decode_first_scalar(bytes) as char) == word[0]);
        assert forall|i: int| 0 <= i < word.len() implies text[i] == word[i] by {
            if i > 0 {
                assert(decoded.subrange(0, rest.len() as int)[i - 1] == decoded[i - 1]);
                assert(rest[i - 1] == word[i]);
            }
        }
        assert(text.subrange(0, word.len() as int) =~= word);
    }
}

/// A word begins a line of the text that well-formed bytes decode to exactly
/// when its encoding begins a line of the bytes.
pub proof fn encoded_word_begins_line(output: Seq<u8>, word: Seq<char>)
    requires
        valid_utf8(output),
        word.len() > 0,
    ensures
        begins_line(encode_utf8(word), output, 10u8) <==> begins_line(
            word,
            decode_utf8(output),
            '\n',
        ),
{
    let text = decode_utf8(output);
    let encoded = encode_utf8(word);
    line_feed_encoding();
    if begins_line(word, text, '\n') {
        let at = choose|at: int| begins_line_at(word, text, at, '\n');
        let before = text.subrange(0, at);
        let after = text.subrange(at + word.len(), text.len() as int);
        assert(text =~= before + word + after);
        decode_utf8_encode_utf8(output);
        encode_concat(before + word, after);
        encode_concat(before, word);
        let offset = encode_utf8(before).len() as int;
        assert(output.subrange(offset, offset + encoded.len()) =~= encoded);
        if at > 0 {
            let start = before.drop_last();
            assert(before =~= start + seq!['\n']);
            encode_concat(start, seq!['\n']);
            assert(output[offset - 1] == 10u8);
        }
        assert(begins_line_at(encoded, output, offset, 10u8));
    }
    if begins_line(encoded, output, 10u8) {
        let offset = choose|offset: int| begins_line_at(encoded, output, offset, 10u8);
        encode_utf8_first_scalar(word);
        encode_utf8_valid_utf8(word);
        is_char_boundary_start_end_of_seq(encoded);
        assert(encoded.len() > 0);
        is_char_boundary_iff_not_is_continuation_byte(encoded, 0);
        assert(output.subrange(offset, offset + encoded.len())[0] == output[offset]);
        is_char_boundary_iff_not_is_continuation_byte(output, offset);
        valid_utf8_split(output, offset);
        decode_utf8_split(output, offset);
        let head = output.subrange(0, offset);
        let tail = output.subrange(offset, output.len() as int);
        assert(tail.subrange(0, encoded.len() as int) =~= encoded);
        decode_prefix(tail, word);
        let at = decode_utf8(head).len() as int;
        assert(text.subrange(at, at + word.len()) =~= decode_utf8(tail).subrange(
            0,
            word.len() as int,
        ));
        if offset > 0 {
            assert(head[offset - 1] == 10u8);
            is_char_boundary_iff_not_is_continuation_byte(head, offset - 1);
            decode_utf8_split(head, offset - 1);
            assert(head.subrange(offset - 1, head.len() as int) =~= seq![10u8]);
            assert(text[at - 1] == '\n');
        } else {
            assert(decode_utf8(head).len() == 0);
        }
        assert(begins_line_at(word, text, at, '\n'));
    }
}

/// Whether a listing of remotes, as `git remote -v` writes it, names the
/// remote `name`.
pub fn names_remote(output: &[u8], name: &str) -> (found: bool)
    ensures
        found == lists_remote(output@, name@),
{
    if !is_utf8(output) {
        return false;
    }
    let mut head = String::from_str(name);
    head.append("\t");
    proof {
        reveal_strlit("\t");
        assert(head@ =~= entry_head(name@));
        encoded_word_begins_line(output@, head@);
    }
    begins_a_line(output, head.as_str().as_bytes())
}

} // verus!
