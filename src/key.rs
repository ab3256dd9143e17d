use vstd::prelude::*;
use crate::date::{local_today, LocalDate};
use crate::decimal::{append_decimal, append_padded2, decimal_text, padded2_text};

verus! {

/// The name used when a path has no final segment to take a name from.
pub const FALLBACK_NAME: &'static str = "fallback.png";

/// The writing of a year: its decimal digits, after a minus sign when negative.
pub open spec fn year_text(y: int) -> Seq<char> {
    if y < 0 {
        seq!['-'] + decimal_text((-y) as nat)
    } else {
        decimal_text(y as nat)
    }
}

/// `image/<year>/<month, two digits>/<day, two digits>/<name>`.
pub open spec fn object_key_text(date: LocalDate, name: Seq<char>) -> Seq<char> {
    seq!['i', 'm', 'a', 'g', 'e', '/'] + year_text(date.year as int) + seq!['/']
        + padded2_text(date.month as nat) + seq!['/'] + padded2_text(date.day as nat) + seq!['/']
        + name
}

/// `part` occurs in `whole` as a run of consecutive characters.
pub open spec fn is_infix(part: Seq<char>, whole: Seq<char>) -> bool {
    exists|i: int|
        0 <= i && i + part.len() <= whole.len() && #[trigger] whole.subrange(i, i + part.len())
            == part
}

/// A path that is a single plain name: no separator, no drive prefix, and
/// neither `.` nor `..`.
pub open spec fn is_plain_name(p: Seq<char>) -> bool {
    &&& p.len() > 0
    &&& !p.contains('/')
    &&& !p.contains('\\')
    &&& !p.contains(':')
    &&& p != seq!['.']
    &&& p != seq!['.', '.']
}

/// A path whose last component is `..`, or the root alone.
pub open spec fn has_no_final_name(p: Seq<char>) -> bool {
    ||| p == seq!['.', '.']
    ||| (p.len() >= 3 && p.subrange(p.len() - 3, p.len() as int) == seq!['/', '.', '.'])
    ||| p == seq!['/']
}

/// What a final path segment can be: a non-empty run of the path without `/`.
pub open spec fn is_segment_of(name: Seq<char>, path: Seq<char>) -> bool {
    &&& name.len() > 0
    &&& !name.contains('/')
    &&& is_infix(name, path)
}

/// Relies on std::path::Path::file_name: the final component of the path,
/// when it is a normal name. It is a run of the path itself; a path that ends
/// in `..` has none; a plain name is its own final component.
#[verifier::external_body]
fn path_file_name(path: &str) -> (r: Option<String>)
    ensures
        r is Some ==> is_segment_of(r->0@, path@),
        has_no_final_name(path@) ==> r is None,
        is_plain_name(path@) ==> r is Some && r->0@ == path@,
{
    std::path::Path::new(path).file_name().and_then(|n| n.to_str()).map(|n| n.to_string())
}

/// The base name of a file path: its final segment, or `fallback.png` where
/// the path has none.
pub fn file_base_name(path: &str) -> (r: String)
    ensures
        r@ == FALLBACK_NAME@ || is_segment_of(r@, path@),
        has_no_final_name(path@) ==> r@ == FALLBACK_NAME@,
        is_plain_name(path@) ==> r@ == path@,
{
    match path_file_name(path) {
        Some(n) => n,
        None => String::from_str(FALLBACK_NAME),
    }
}

/// The object key of a file named `name` stored on `date`.
pub fn object_key(date: &LocalDate, name: &str) -> (r: String)
    ensures
        r@ == object_key_text(*date, name@),
{
    let mut s = String::from_str("image/");
    if date.year < 0 {
        s.append("-");
        let magnitude: u32 = (0i64 - date.year as i64) as u32;
        append_decimal(&mut s, magnitude);
    } else {
        append_decimal(&mut s, date.year as u32);
    }
    s.append("/");
    append_padded2(&mut s, date.month);
    s.append("/");
    append_padded2(&mut s, date.day);
    s.append("/");
    s.append(name);
    proof {
        reveal_strlit("image/");
        reveal_strlit("-");
        reveal_strlit("/");
    }
    assert(s@ =~= object_key_text(*date, name@));
    s
}

/// Where a file goes in the bucket: its base name and its object key.
pub struct UploadTarget {
    pub file_name: String,
    pub object_key: String,
}

/// The upload target of the file at `file_path` on `date`.
pub fn build_object_key(file_path: &str, date: &LocalDate) -> (r: UploadTarget)
    ensures
        r.file_name@ == FALLBACK_NAME@ || is_segment_of(r.file_name@, file_path@),
        has_no_final_name(file_path@) ==> r.file_name@ == FALLBACK_NAME@,
        is_plain_name(file_path@) ==> r.file_name@ == file_path@,
        r.object_key@ == object_key_text(*date, r.file_name@),
{
    let file_name = file_base_name(file_path);
    let object_key = object_key(date, file_name.as_str());
    UploadTarget { file_name, object_key }
}

/// The upload target of the file at `file_path` on today's local date,
/// together with that date.
pub fn build_object_key_today(file_path: &str) -> (r: (LocalDate, UploadTarget))
    ensures
        r.0.wf(),
        r.1.file_name@ == FALLBACK_NAME@ || is_segment_of(r.1.file_name@, file_path@),
        has_no_final_name(file_path@) ==> r.1.file_name@ == FALLBACK_NAME@,
        is_plain_name(file_path@) ==> r.1.file_name@ == file_path@,
        r.1.object_key@ == object_key_text(r.0, r.1.file_name@),
{
    let date = local_today();
    let target = build_object_key(file_path, &date);
    (date, target)
}

/// An object key ends with the name it was built from; so the key of a path
/// without a final name ends with `fallback.png`.
pub proof fn lemma_key_ends_with_name(date: LocalDate, name: Seq<char>)
    ensures
        ({
            let k = object_key_text(date, name);
            k.len() >= name.len() && k.subrange(k.len() - name.len(), k.len() as int) == name
        }),
{
    let k = object_key_text(date, name);
    assert(k.subrange(k.len() - name.len(), k.len() as int) =~= name);
}

} // verus!
