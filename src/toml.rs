//! Reading and rewriting the `version = "..."` declaration of a manifest,
//! held as its sequence of lines.

use vstd::prelude::*;
use vstd::string::StringSliceAdditionalSpecFns;
use vstd::utf8::*;
use crate::version::{semver_parse, semver_text, Version};

verus! {

broadcast use group_utf8_lib;

/// Declares std's I/O error, carried for the file operations around this module.
#[verifier::external_type_specification]
#[verifier::external_body]
pub struct ExIoError(std::io::Error);

/// Why a manifest's version could not be read or written.
#[derive(Debug)]
pub enum TomlError {
    /// No line declares the version.
    NoVersionFound,
    /// The file could not be read or written.
    IoError(std::io::Error),
    /// The declared value is not a semantic version.
    SemVerError(semver::SemVerError),
    /// The declaration line is too short, or splits a character, where the
    /// value is expected to start or end.
    MalformedVersionLine,
}

/// `p` is a prefix of `s`.
pub open spec fn has_prefix(s: Seq<char>, p: Seq<char>) -> bool {
    p.len() <= s.len() && s.subrange(0, p.len() as int) == p
}

/// The word that starts the version line when reading.
pub open spec fn key_prefix() -> Seq<char> {
    seq!['v', 'e', 'r', 's', 'i', 'o', 'n']
}

/// What starts the version declaration when writing: `version = "`.
pub open spec fn declaration_prefix() -> Seq<char> {
    key_prefix() + seq![' ', '=', ' ', '"']
}

/// The declaration line for a version text.
pub open spec fn declaration(text: Seq<char>) -> Seq<char> {
    declaration_prefix() + text + seq!['"']
}

/// The characters of each line.
pub open spec fn texts(lines: Seq<String>) -> Seq<Seq<char>> {
    lines.map_values(|l: String| l@)
}

/// Line `i` is the first that starts with `p`.
pub open spec fn is_first_with(lines: Seq<Seq<char>>, p: Seq<char>, i: int) -> bool {
    &&& 0 <= i < lines.len()
    &&& has_prefix(lines[i], p)
    &&& forall|j: int| 0 <= j < i ==> !has_prefix(lines[j], p)
}

/// No line starts with `p`.
pub open spec fn none_with(lines: Seq<Seq<char>>, p: Seq<char>) -> bool {
    forall|j: int| 0 <= j < lines.len() ==> !has_prefix(lines[j], p)
}

/// The value of a declaration line: the text from byte 11 up to the last
/// byte, where both ends fall on character boundaries.
pub open spec fn declared_value(line: Seq<char>) -> Option<Seq<char>> {
    let b = encode_utf8(line);
    if 12 <= b.len() && is_char_boundary(b, 11) && is_char_boundary(b, b.len() - 1) {
        Some(decode_utf8(b.subrange(11, b.len() - 1)))
    } else {
        None
    }
}

/// What reading a version from the declaration line `line` gives.
pub open spec fn read_outcome(line: Seq<char>, r: Result<Version, TomlError>) -> bool {
    match declared_value(line) {
        None => r matches Err(TomlError::MalformedVersionLine),
        Some(text) => match semver_parse(text) {
            Some(v) => r == Ok::<Version, TomlError>(v),
            None => r matches Err(TomlError::SemVerError(_)),
        },
    }
}

/// What reading the version of `lines` gives: `NoVersionFound` exactly when no
/// line starts with `version`, else the outcome for the first such line.
pub open spec fn read_result(lines: Seq<String>, r: Result<Version, TomlError>) -> bool {
    &&& none_with(texts(lines), key_prefix()) <==> (r matches Err(TomlError::NoVersionFound))
    &&& forall|i: int| is_first_with(texts(lines), key_prefix(), i) ==> read_outcome(lines[i]@, r)
}

/// Relies on `str::starts_with`: true exactly when `p` is a prefix of `s`.
#[verifier::external_body]
fn str_starts_with(s: &str, p: &str) -> (r: bool)
    ensures
        r == has_prefix(s@, p@),
{
    s.starts_with(p)
}

/// The index of the first line that starts with `p`.
pub fn first_with_prefix(lines: &Vec<String>, p: &str) -> (r: Option<usize>)
    ensures
        r matches Some(i) ==> is_first_with(texts(lines@), p@, i as int),
        r is None ==> none_with(texts(lines@), p@),
{
    let mut i: usize = 0;
    while i < lines.len()
        invariant
            0 <= i <= lines@.len(),
            forall|j: int| 0 <= j < i ==> !has_prefix(#[trigger] lines@[j]@, p@),
        decreases lines@.len() - i,
    {
        if str_starts_with(lines[i].as_str(), p) {
            return Some(i);
        }
        i = i + 1;
    }
    None
}

/// The value of a declaration line, as `declared_value` gives it.
pub fn value_of_line(line: &str) -> (r: Option<&str>)
    ensures
        r matches Some(v) ==> declared_value(line@) == Some(v@),
        r is None <==> declared_value(line@) is None,
{
    let n = line.as_bytes().len();
    proof {
        encode_utf8_valid_utf8(line@);
        assert(n as int == line.spec_bytes().len());
    }
    if n >= 12 && line.is_char_boundary(11) && line.is_char_boundary(n - 1) {
        let (head, _) = line.split_at(n - 1);
        proof {
            let b = line.spec_bytes();
            let h = head.spec_bytes();
            assert(h =~= b.subrange(0, n - 1));
            valid_utf8_split(b, n - 1);
            if 11 < h.len() {
                assert(h[11] == b[11]);
                is_char_boundary_iff_not_is_continuation_byte(b, 11);
                is_char_boundary_iff_not_is_continuation_byte(h, 11);
            } else {
                is_char_boundary_start_end_of_seq(h);
            }
            assert(is_char_boundary(h, 11));
        }
        let (_, value) = head.split_at(11);
        proof {
            let b = line.spec_bytes();
            assert(value.spec_bytes() =~= b.subrange(11, n - 1));
            encode_utf8_decode_utf8(value@);
        }
        Some(value)
    } else {
        None
    }
}

/// Reads the version from the first line that starts with `version`.
pub fn read_version(lines: &Vec<String>) -> (r: Result<Version, TomlError>)
    ensures
        read_result(lines@, r),
{
    proof {
        reveal_strlit("version");
        assert("version"@ =~= key_prefix());
    }
    match first_with_prefix(lines, "version") {
        None => Err(TomlError::NoVersionFound),
        Some(i) => match value_of_line(lines[i].as_str()) {
            None => Err(TomlError::MalformedVersionLine),
            Some(text) => match Version::parse(text) {
                Ok(v) => Ok(v),
                Err(e) => Err(TomlError::SemVerError(e)),
            },
        },
    }
}

/// What writing `v` into `lines` gives: where some line starts with
/// `version = "`, the first such line becomes the declaration of `v` and every
/// other line stays as it was.
pub open spec fn write_outcome(lines: Seq<String>, v: Version, r: Result<Vec<String>, TomlError>) -> bool {
    if none_with(texts(lines), declaration_prefix()) {
        r matches Err(TomlError::NoVersionFound)
    } else {
        exists|i: int|
            #![trigger is_first_with(texts(lines), declaration_prefix(), i)]
            is_first_with(texts(lines), declaration_prefix(), i) && (r matches Ok(out) && texts(out@)
                == texts(lines).update(i, declaration(semver_text(v))))
    }
}

/// Replaces the first line that starts with `version = "` by the declaration
/// of `v`, keeping every other line.
pub fn write_version(lines: &Vec<String>, v: &Version) -> (r: Result<Vec<String>, TomlError>)
    ensures
        write_outcome(lines@, *v, r),
{
    proof {
        reveal_strlit("version = \"");
        reveal_strlit("\"");
        assert("version = \""@ =~= declaration_prefix());
    }
    match first_with_prefix(lines, "version = \"") {
        None => Err(TomlError::NoVersionFound),
        Some(idx) => {
            let text = v.to_string();
            let line = String::from_str("version = \"").concat(text.as_str()).concat("\"");
            assert(line@ =~= declaration(semver_text(*v)));
            let mut out: Vec<String> = Vec::new();
            let mut j: usize = 0;
            while j < lines.len()
                invariant
                    0 <= j <= lines@.len(),
                    idx < lines@.len(),
                    line@ == declaration(semver_text(*v)),
                    out@.len() == j,
                    forall|k: int|
                        0 <= k < j ==> (#[trigger] out@[k])@ == (if k == idx {
                            line@
                        } else {
                            lines@[k]@
                        }),
                decreases lines@.len() - j,
            {
                if j == idx {
                    out.push(line.clone());
                } else {
                    out.push(lines[j].clone());
                }
                j = j + 1;
            }
            assert(texts(out@) =~= texts(lines@).update(idx as int, declaration(semver_text(*v))));
            Ok(out)
        },
    }
}

/// Reading and writing a version in a manifest given as its lines.
pub trait TomlSemverExtensions: Sized {
    /// The version declared by the first line that starts with `version`.
    fn read_from_toml(lines: &Vec<String>) -> (r: Result<Self, TomlError>);

    /// The manifest with its first `version = "` line declaring `self`.
    fn write_to_toml(&self, lines: &Vec<String>) -> (r: Result<Vec<String>, TomlError>);
}

impl TomlSemverExtensions for Version {
    fn read_from_toml(lines: &Vec<String>) -> (r: Result<Version, TomlError>)
        ensures
            read_result(lines@, r),
    {
        read_version(lines)
    }

    fn write_to_toml(&self, lines: &Vec<String>) -> (r: Result<Vec<String>, TomlError>)
        ensures
            write_outcome(lines@, *self, r),
    {
        write_version(lines, self)
    }
}

proof fn lemma_encode_concat(a: Seq<char>, b: Seq<char>)
    ensures
        encode_utf8(a + b) == encode_utf8(a) + encode_utf8(b),
    decreases a.len(),
{
    if a.len() == 0 {
        assert(a + b =~= b);
        assert(encode_utf8(a) + encode_utf8(b) =~= encode_utf8(b));
    } else {
        assert((a + b).drop_first() =~= a.drop_first() + b);
        lemma_encode_concat(a.drop_first(), b);
        assert(encode_utf8(a + b) =~= encode_utf8(a) + encode_utf8(b));
    }
}

proof fn lemma_boundary_at_concat(a: Seq<char>, b: Seq<char>)
    ensures
        is_char_boundary(encode_utf8(a + b), encode_utf8(a).len() as int),
    decreases a.len(),
{
    let c = a + b;
    encode_utf8_valid_utf8(c);
    if a.len() > 0 {
        encode_utf8_first_scalar(c);
        assert(c.drop_first() =~= a.drop_first() + b);
        assert(pop_first_scalar(encode_utf8(c)) =~= encode_utf8(c.drop_first()));
        lemma_boundary_at_concat(a.drop_first(), b);
    }
}

proof fn lemma_declared_value_of_declaration(t: Seq<char>)
    ensures
        declared_value(declaration(t)) == Some(t),
{
    let p = declaration_prefix();
    let q = seq!['"'];
    let d = declaration(t);
    assert(is_ascii_chars(p));
    assert(is_ascii_chars(q));
    is_ascii_chars_encode_utf8(p);
    is_ascii_chars_encode_utf8(q);
    lemma_encode_concat(p, t);
    lemma_encode_concat(p + t, q);
    lemma_encode_concat(t, q);
    assert(d =~= p + (t + q));
    assert(d =~= (p + t) + q);
    lemma_boundary_at_concat(p, t + q);
    lemma_boundary_at_concat(p + t, q);
    let b = encode_utf8(d);
    assert(b.subrange(11, b.len() - 1) =~= encode_utf8(t));
}

/// Once `v` is written into a manifest whose first `version` line is its
/// declaration, the first `version` line of the result declares exactly the
/// text of `v`; reading it back parses that text.
pub proof fn lemma_written_value_reads_back(lines: Seq<String>, v: Version, out: Vec<String>)
    requires
        write_outcome(lines, v, Ok(out)),
        forall|i: int|
            is_first_with(texts(lines), declaration_prefix(), i) ==> is_first_with(
                texts(lines),
                key_prefix(),
                i,
            ),
    ensures
        exists|i: int|
            is_first_with(texts(out@), key_prefix(), i) && declared_value(out@[i]@) == Some(
                semver_text(v),
            ),
{
    let i = choose|i: int|
        #![trigger is_first_with(texts(lines), declaration_prefix(), i)]
        is_first_with(texts(lines), declaration_prefix(), i) && texts(out@) == texts(
            lines,
        ).update(i, declaration(semver_text(v)));
    let d = declaration(semver_text(v));
    assert(d.subrange(0, 7) =~= key_prefix());
    assert(texts(out@).len() == out@.len());
    assert(texts(lines).len() == lines.len());
    assert(texts(out@)[i] == out@[i]@);
    lemma_declared_value_of_declaration(semver_text(v));
    assert forall|j: int| 0 <= j < i implies !has_prefix(#[trigger] texts(out@)[j], key_prefix()) by {
        assert(texts(out@)[j] == texts(lines)[j]);
    }
    assert(is_first_with(texts(out@), key_prefix(), i));
}

/// Writing a version replaces one line, the first `version = "` line, and
/// keeps every other line as it was, in the same order.
pub proof fn lemma_write_keeps_other_lines(lines: Seq<String>, v: Version, out: Vec<String>)
    requires
        write_outcome(lines, v, Ok(out)),
    ensures
        out@.len() == lines.len(),
        exists|i: int|
            #![trigger is_first_with(texts(lines), declaration_prefix(), i)]
            is_first_with(texts(lines), declaration_prefix(), i) && out@[i]@ == declaration(
                semver_text(v),
            ) && forall|k: int|
                0 <= k < lines.len() && k != i ==> (#[trigger] out@[k])@ == lines[k]@,
{
    let i = choose|i: int|
        #![trigger is_first_with(texts(lines), declaration_prefix(), i)]
        is_first_with(texts(lines), declaration_prefix(), i) && texts(out@) == texts(
            lines,
        ).update(i, declaration(semver_text(v)));
    assert(texts(out@).len() == out@.len());
    assert(texts(lines).len() == lines.len());
    assert(texts(out@)[i] == out@[i]@);
    assert forall|k: int| 0 <= k < lines.len() && k != i implies (#[trigger] out@[k])@
        == lines[k]@ by {
        assert(texts(out@)[k] == out@[k]@);
        assert(texts(lines)[k] == lines[k]@);
    }
}

/// A manifest with no line starting with `version` has no declaration to
/// replace either: reading and writing both fail with `NoVersionFound`.
pub proof fn lemma_no_version_line_fails_both(lines: Seq<String>, v: Version)
    requires
        none_with(texts(lines), key_prefix()),
    ensures
        none_with(texts(lines), declaration_prefix()),
        forall|r: Result<Vec<String>, TomlError>|
            write_outcome(lines, v, r) ==> (r matches Err(TomlError::NoVersionFound)),
{
    assert forall|j: int| 0 <= j < texts(lines).len() implies !has_prefix(
        #[trigger] texts(lines)[j],
        declaration_prefix(),
    ) by {
        if has_prefix(texts(lines)[j], declaration_prefix()) {
            assert(texts(lines)[j].subrange(0, 7) =~= declaration_prefix().subrange(0, 7));
            assert(declaration_prefix().subrange(0, 7) =~= key_prefix());
        }
    }
}

} // verus!
