//! Integrity: the SHA-256 digest of a file's content, its comparison with
//! the expected digest, and the lookup of an expected digest in a checksum
//! manifest.

use vstd::prelude::*;
use vstd::slice::slice_subrange;
use crate::error::{Error, ErrorView};
use crate::models::opt_text;
use crate::text::{
    ascii_lower, chars_end_with, chars_eq_ignore_ascii_case, eq_ignore_ascii_case, is_space,
    is_whitespace, str_chars, string_from_chars,
};

verus! {

/// The SHA-256 digest of a byte string, as the `sha2` crate computes it.
pub uninterp spec fn sha256_digest(data: Seq<u8>) -> Seq<u8>;

/// `Digest::digest` of the `sha2` crate on `Sha256`: hashes `data` in one
/// call. Its result depends on the bytes alone and is given the name
/// `sha256_digest`.
#[verifier::external_body]
fn sha256(data: &[u8]) -> (digest: Vec<u8>)
    ensures
        digest@ == sha256_digest(data@),
{
    <sha2::Sha256 as sha2::Digest>::digest(data).to_vec()
}

/// The lower-case hexadecimal digit for `n`, which is below sixteen.
pub open spec fn hex_digit(n: nat) -> char
    recommends
        n < 16,
{
    if n < 10 {
        (48 + n) as char
    } else {
        (87 + n) as char
    }
}

/// The lower-case hexadecimal text of a byte string: two digits for each
/// byte, the high half first.
pub open spec fn hex_lower(bytes: Seq<u8>) -> Seq<char> {
    Seq::new(
        2 * bytes.len(),
        |i: int|
            if i % 2 == 0 {
                hex_digit((bytes[i / 2] / 16) as nat)
            } else {
                hex_digit((bytes[i / 2] % 16) as nat)
            },
    )
}

/// `hex::encode`: writes each byte as two lower-case hexadecimal digits, the
/// high half first, in the order of the bytes.
#[verifier::external_body]
fn hex_encode(bytes: &[u8]) -> (text: String)
    ensures
        text@ == hex_lower(bytes@),
{
    hex::encode(bytes)
}

/// The outcome of comparing a digest with the expected one: they agree when
/// they are equal up to the case of the hexadecimal letters.
pub open spec fn check_digest_spec(got: Seq<char>, expected: Seq<char>) -> Result<(), ErrorView> {
    if eq_ignore_ascii_case(got, expected) {
        Ok(())
    } else {
        Err(ErrorView::ChecksumMismatch { got, expected })
    }
}

/// The view of a result that carries nothing on success.
pub open spec fn outcome_view(r: Result<(), Error>) -> Result<(), ErrorView> {
    match r {
        Ok(()) => Ok(()),
        Err(e) => Err(e@),
    }
}

/// Compares the hexadecimal digest `got` with `expected`.
pub fn check_digest(got: &str, expected: &str) -> (r: Result<(), Error>)
    ensures
        outcome_view(r) == check_digest_spec(got@, expected@),
{
    let a = str_chars(got);
    let b = str_chars(expected);
    if chars_eq_ignore_ascii_case(a.as_slice(), b.as_slice()) {
        Ok(())
    } else {
        Err(Error::ChecksumMismatch { got: got.to_owned(), expected: expected.to_owned() })
    }
}

/// The SHA-256 digest of `content` in lower-case hexadecimal.
pub fn digest_hex(content: &[u8]) -> (text: String)
    ensures
        text@ == hex_lower(sha256_digest(content@)),
{
    let digest = sha256(content);
    hex_encode(digest.as_slice())
}

/// Checks that the SHA-256 digest of `content` is `expected_hex`.
pub fn verify_sha256(content: &[u8], expected_hex: &str) -> (r: Result<(), Error>)
    ensures
        outcome_view(r) == check_digest_spec(hex_lower(sha256_digest(content@)), expected_hex@),
{
    let got = digest_hex(content);
    check_digest(got.as_str(), expected_hex)
}

/// A digest agrees with itself: checking content against the digest
/// computed from that same content succeeds.
pub proof fn lemma_own_digest_accepted(content: Seq<u8>)
    ensures
        check_digest_spec(
            hex_lower(sha256_digest(content)),
            hex_lower(sha256_digest(content)),
        ) == Ok::<(), ErrorView>(()),
{
}

/// Hexadecimal text that agrees up to case comes from the same bytes.
pub proof fn lemma_hex_lower_injective(a: Seq<u8>, b: Seq<u8>)
    requires
        eq_ignore_ascii_case(hex_lower(a), hex_lower(b)),
    ensures
        a == b,
{
    assert(a.len() == b.len());
    assert forall|k: int| 0 <= k < a.len() implies a[k] == b[k] by {
        let x = hex_lower(a);
        let y = hex_lower(b);
        assert(ascii_lower(x[2 * k]) == ascii_lower(y[2 * k]));
        assert(ascii_lower(x[2 * k + 1]) == ascii_lower(y[2 * k + 1]));
        assert(x[2 * k] == hex_digit((a[k] / 16) as nat));
        assert(x[2 * k + 1] == hex_digit((a[k] % 16) as nat));
        assert(y[2 * k] == hex_digit((b[k] / 16) as nat));
        assert(y[2 * k + 1] == hex_digit((b[k] % 16) as nat));
    }
    assert(a =~= b);
}

/// Content with another digest is rejected: checking it against the digest
/// of `content` fails with a checksum mismatch that names both digests.
pub proof fn lemma_other_digest_rejected(content: Seq<u8>, other: Seq<u8>)
    requires
        sha256_digest(other) != sha256_digest(content),
    ensures
        check_digest_spec(hex_lower(sha256_digest(other)), hex_lower(sha256_digest(content)))
            == Err::<(), ErrorView>(
            ErrorView::ChecksumMismatch {
                got: hex_lower(sha256_digest(other)),
                expected: hex_lower(sha256_digest(content)),
            },
        ),
{
    if eq_ignore_ascii_case(hex_lower(sha256_digest(other)), hex_lower(sha256_digest(content))) {
        lemma_hex_lower_injective(sha256_digest(other), sha256_digest(content));
    }
}

/// The length of the first line of `text`: the characters before its first
/// line feed.
pub open spec fn line_len(text: Seq<char>) -> nat
    decreases text.len(),
{
    if text.len() == 0 || text[0] == '\n' {
        0
    } else {
        1 + line_len(text.skip(1))
    }
}

/// The length of the word that `s` begins with: the characters before its
/// first white space.
pub open spec fn word_len(s: Seq<char>) -> nat
    decreases s.len(),
{
    if s.len() == 0 || is_space(s[0]) {
        0
    } else {
        1 + word_len(s.skip(1))
    }
}

/// A word is no longer than the text it begins.
pub proof fn lemma_word_len_bound(s: Seq<char>)
    ensures
        word_len(s) <= s.len(),
    decreases s.len(),
{
    if s.len() > 0 && !is_space(s[0]) {
        lemma_word_len_bound(s.skip(1));
    }
}

/// The fields of a line: its maximal runs of characters that are not white
/// space, in order.
pub open spec fn fields(line: Seq<char>) -> Seq<Seq<char>>
    decreases line.len(),
{
    if line.len() == 0 {
        Seq::empty()
    } else if is_space(line[0]) {
        fields(line.skip(1))
    } else {
        let n = word_len(line);
        proof {
            lemma_word_len_bound(line);
        }
        seq![line.take(n as int)] + fields(line.skip(n as int))
    }
}

/// The digest that one line of a manifest gives for `target`: its first
/// field, if it has a second field and that one ends with `target`.
pub open spec fn line_digest(line: Seq<char>, target: Seq<char>) -> Option<Seq<char>> {
    let f = fields(line);
    if f.len() >= 2 && target.is_suffix_of(f[1]) {
        Some(f[0])
    } else {
        None
    }
}

/// The digest that a manifest gives for `target`: that of the first of its
/// lines which gives one.
pub open spec fn manifest_digest(text: Seq<char>, target: Seq<char>) -> Option<Seq<char>>
    decreases text.len(),
{
    if text.len() == 0 {
        None
    } else {
        let n = line_len(text);
        match line_digest(text.take(n as int), target) {
            Some(d) => Some(d),
            None => if n < text.len() {
                manifest_digest(text.skip(n as int + 1), target)
            } else {
                None
            },
        }
    }
}

/// The end of the line that starts at `from`.
fn line_end(text: &[char], from: usize) -> (end: usize)
    requires
        from <= text@.len(),
    ensures
        end == from + line_len(text@.skip(from as int)),
        from <= end <= text@.len(),
{
    let mut i: usize = from;
    while i < text.len() && text[i] != '\n'
        invariant
            from <= i <= text@.len(),
            line_len(text@.skip(from as int)) == (i - from) + line_len(text@.skip(i as int)),
        decreases text@.len() - i,
    {
        proof {
            assert(text@.skip(i as int).skip(1) == text@.skip(i + 1));
        }
        i += 1;
    }
    i
}

/// The end of the word that starts at `from`.
fn word_end(s: &[char], from: usize) -> (end: usize)
    requires
        from <= s@.len(),
    ensures
        end == from + word_len(s@.skip(from as int)),
        from <= end <= s@.len(),
{
    let mut i: usize = from;
    while i < s.len() && !is_whitespace(s[i])
        invariant
            from <= i <= s@.len(),
            word_len(s@.skip(from as int)) == (i - from) + word_len(s@.skip(i as int)),
        decreases s@.len() - i,
    {
        proof {
            assert(s@.skip(i as int).skip(1) == s@.skip(i + 1));
        }
        i += 1;
    }
    i
}

/// The first position at or after `from` that holds no white space.
fn skip_spaces(s: &[char], from: usize) -> (i: usize)
    requires
        from <= s@.len(),
    ensures
        from <= i <= s@.len(),
        fields(s@.skip(from as int)) == fields(s@.skip(i as int)),
        i < s@.len() ==> !is_space(s@[i as int]),
{
    let mut i: usize = from;
    while i < s.len() && is_whitespace(s[i])
        invariant
            from <= i <= s@.len(),
            fields(s@.skip(from as int)) == fields(s@.skip(i as int)),
        decreases s@.len() - i,
    {
        proof {
            assert(s@.skip(i as int).skip(1) == s@.skip(i + 1));
        }
        i += 1;
    }
    i
}

/// The digest that one line gives for `target`.
fn digest_in_line(line: &[char], target: &[char]) -> (r: Option<String>)
    ensures
        opt_text(r) == line_digest(line@, target@),
{
    proof {
        assert(line@.skip(0) == line@);
    }
    let a = skip_spaces(line, 0);
    if a == line.len() {
        return None;
    }
    let b = word_end(line, a);
    proof {
        assert(line@.skip(a as int).take(b - a) == line@.subrange(a as int, b as int));
        assert(line@.skip(a as int).skip(b - a) == line@.skip(b as int));
    }
    let c = skip_spaces(line, b);
    if c == line.len() {
        return None;
    }
    let d = word_end(line, c);
    proof {
        assert(line@.skip(c as int).take(d - c) == line@.subrange(c as int, d as int));
        assert(line@.skip(c as int).skip(d - c) == line@.skip(d as int));
        assert(fields(line@) == seq![line@.subrange(a as int, b as int)] + (seq![
            line@.subrange(c as int, d as int),
        ] + fields(line@.skip(d as int))));
    }
    let file = slice_subrange(line, c, d);
    if chars_end_with(file, target) {
        Some(string_from_chars(slice_subrange(line, a, b)))
    } else {
        None
    }
}

/// Looks up, in the text of a checksum manifest, the digest of the file
/// named `target_filename`. Each line of the manifest holds a digest and a
/// file name, separated by white space; a line counts when its file name
/// ends with `target_filename`, and the first such line decides.
pub fn sha256_from_sumfile(text: &str, target_filename: &str) -> (r: Result<String, Error>)
    ensures
        match r {
            Ok(digest) => manifest_digest(text@, target_filename@) == Some(digest@),
            Err(e) => manifest_digest(text@, target_filename@) is None && e@
                == (ErrorView::NotFoundInManifest { file_name: target_filename@ }),
        },
{
    let chars = str_chars(text);
    let target = str_chars(target_filename);
    let mut pos: usize = 0;
    proof {
        assert(chars@.skip(0) == chars@);
    }
    while pos < chars.len()
        invariant
            pos <= chars@.len(),
            chars@ == text@,
            target@ == target_filename@,
            manifest_digest(text@, target_filename@) == manifest_digest(
                chars@.skip(pos as int),
                target@,
            ),
        decreases chars@.len() - pos,
    {
        let end = line_end(chars.as_slice(), pos);
        let line = slice_subrange(chars.as_slice(), pos, end);
        proof {
            assert(chars@.skip(pos as int).take(end - pos) == chars@.subrange(
                pos as int,
                end as int,
            ));
        }
        match digest_in_line(line, target.as_slice()) {
            Some(digest) => {
                return Ok(digest);
            },
            None => {},
        }
        if end == chars.len() {
            return Err(Error::NotFoundInManifest { file_name: target_filename.to_owned() });
        }
        proof {
            assert(chars@.skip(pos as int).skip(end - pos + 1) == chars@.skip(end + 1));
        }
        pos = end + 1;
    }
    Err(Error::NotFoundInManifest { file_name: target_filename.to_owned() })
}

} // verus!
