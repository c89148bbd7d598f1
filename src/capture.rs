use vstd::prelude::*;
use vstd::slice::slice_subrange;

verus! {

/// The text that lossy UTF-8 decoding makes of a byte sequence.
pub uninterp spec fn lossy_text(b: Seq<u8>) -> Seq<char>;

/// The text with leading and trailing white space removed.
pub uninterp spec fn trimmed(s: Seq<char>) -> Seq<char>;

/// Relies on `String::from_utf8_lossy`: decodes the bytes, putting U+FFFD in
/// place of each malformed sequence; the text depends on the bytes alone.
#[verifier::external_body]
fn decode_lossy(b: &[u8]) -> (r: String)
    ensures
        r@ == lossy_text(b@),
        b@.len() == 0 ==> r@.len() == 0,
{
    String::from_utf8_lossy(b).into_owned()
}

/// Relies on `str::trim`: removes leading and trailing white space; the result
/// depends on the text alone.
#[verifier::external_body]
fn trim_text(s: &str) -> (r: String)
    ensures
        r@ == trimmed(s@),
        s@.len() == 0 ==> r@.len() == 0,
{
    s.trim().to_owned()
}

/// A line read from a pipe without its line ending: a final `\n`, together
/// with a `\r` just before it.
pub open spec fn without_line_end(b: Seq<u8>) -> Seq<u8> {
    if b.len() >= 2 && b[b.len() - 1] == 10u8 && b[b.len() - 2] == 13u8 {
        b.subrange(0, b.len() - 2)
    } else if b.len() >= 1 && b[b.len() - 1] == 10u8 {
        b.subrange(0, b.len() - 1)
    } else {
        b
    }
}

/// The text that one line read from an output pipe adds to its buffer: the
/// decoded line, ending in exactly one `\n`.
pub fn captured_line(raw: &[u8]) -> (r: String)
    ensures
        r@ == lossy_text(without_line_end(raw@)) + "\n"@,
{
    let n = raw.len();
    let end: usize = if n >= 2 && raw[n - 1] == 10u8 && raw[n - 2] == 13u8 {
        n - 2
    } else if n >= 1 && raw[n - 1] == 10u8 {
        n - 1
    } else {
        n
    };
    let body = slice_subrange(raw, 0, end);
    proof {
        assert(raw@.subrange(0, n as int) == raw@);
    }
    let text = decode_lossy(body);
    text.concat("\n")
}

/// The output pane's text for a client: its trimmed standard output, followed
/// by its trimmed standard error under an `ERR:` label when there is any.
pub open spec fn pane_text(stdout: Seq<char>, stderr: Seq<char>) -> Seq<char> {
    if stderr.len() == 0 {
        trimmed(stdout) + "\n"@
    } else {
        trimmed(stdout) + "\n\nERR: "@ + trimmed(stderr)
    }
}

pub fn output_text(stdout: &str, stderr: &str) -> (r: String)
    ensures
        r@ == pane_text(stdout@, stderr@),
{
    let out = trim_text(stdout);
    if stderr.unicode_len() == 0 {
        out.concat("\n")
    } else {
        let err = trim_text(stderr);
        let labelled = out.concat("\n\nERR: ");
        labelled.concat(err.as_str())
    }
}

} // verus!
