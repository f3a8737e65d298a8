//! The PEM-like text form of a key: a header line, the key in base64 on lines
//! of 64 characters, and a footer line.

use crate::wipe::wipe_text;
use vstd::prelude::*;
use vstd::string::*;

verus! {

/// Characters on a full line of the base64 body.
pub const LINE_WIDTH: usize = 64;

pub const PEM_BEGIN: &'static str = "-----BEGIN ";

pub const PEM_END: &'static str = "-----END ";

pub const PEM_DASHES: &'static str = "-----\n";

pub const NEWLINE: &'static str = "\n";

/// Label of the block that holds a public key.
pub const PUBLIC_LABEL: &'static str = "PUBLIC KEY";

/// Label of the block that holds a secret key.
pub const SECRET_LABEL: &'static str = "SECRET KEY";

/// What `base64::engine::general_purpose::STANDARD` encodes bytes to: their
/// base64 text in the standard alphabet, with padding.
pub uninterp spec fn base64_standard(data: Seq<u8>) -> Seq<char>;

/// Length of the padded base64 text of `n` bytes.
pub open spec fn base64_len(n: nat) -> nat {
    4 * ((n + 2) / 3)
}

/// `n` bytes can be encoded: their base64 text fits in one allocation.
pub open spec fn encodable(n: nat) -> bool {
    base64_len(n) <= isize::MAX
}

/// A text cut into lines of 64 characters, the last one possibly shorter, each
/// line closed by a newline. The empty text has no line.
pub open spec fn wrapped(s: Seq<char>) -> Seq<char>
    decreases s.len(),
{
    if s.len() == 0 {
        Seq::empty()
    } else if s.len() <= 64 {
        s.push('\n')
    } else {
        s.take(64).push('\n') + wrapped(s.skip(64))
    }
}

/// The block with the given label around a base64 payload.
pub open spec fn pem_text(label: Seq<char>, payload: Seq<char>) -> Seq<char> {
    PEM_BEGIN@ + label + PEM_DASHES@ + wrapped(payload) + PEM_END@ + label + PEM_DASHES@
}

/// `Engine::encode` of `base64::engine::general_purpose::STANDARD`.
/// Trusted: the result is [`base64_standard`] of the bytes and holds ASCII
/// characters only. The call panics where the encoded length cannot be
/// allocated, which the precondition leaves out.
#[verifier::external_body]
fn base64_encode(data: &[u8]) -> (text: String)
    requires
        encodable(data@.len()),
    ensures
        text@ == base64_standard(data@),
        text.is_ascii(),
{
    base64::Engine::encode(&base64::engine::general_purpose::STANDARD, data)
}

/// Whether `len` bytes can be encoded as text.
pub fn fits_text_encoding(len: usize) -> (ok: bool)
    ensures
        ok == encodable(len as nat),
{
    let groups: usize = if len % 3 == 0 {
        len / 3
    } else {
        len / 3 + 1
    };
    let limit: usize = (isize::MAX as usize) / 4;
    groups <= limit
}

fn piece(s: &str, ascii: bool, from: usize, to: usize) -> (part: &str)
    requires
        from <= to <= s@.len(),
        ascii ==> s.is_ascii(),
    ensures
        part@ == s@.subrange(from as int, to as int),
{
    if ascii {
        s.substring_ascii(from, to)
    } else {
        s.substring_char(from, to)
    }
}

/// The PEM-like block with the given label around a base64 payload.
pub fn pem_wrap(label: &str, payload: &str) -> (out: String)
    ensures
        out@ == pem_text(label@, payload@),
{
    let ascii = payload.is_ascii();
    let n = payload.unicode_len();
    let mut out = String::new();
    out.append(PEM_BEGIN);
    out.append(label);
    out.append(PEM_DASHES);
    let ghost head = out@;
    let mut i: usize = 0;
    proof {
        assert(payload@.skip(0) =~= payload@);
        reveal_strlit("\n");
    }
    while i < n
        invariant
            n == payload@.len(),
            i <= n,
            ascii ==> payload.is_ascii(),
            NEWLINE@ == seq!['\n'],
            head == PEM_BEGIN@ + label@ + PEM_DASHES@,
            out@ + wrapped(payload@.skip(i as int)) == head + wrapped(payload@),
        decreases n - i,
    {
        let end: usize = if n - i > LINE_WIDTH {
            i + LINE_WIDTH
        } else {
            n
        };
        out.append(piece(payload, ascii, i, end));
        out.append(NEWLINE);
        assert(payload@.skip(i as int).skip(end - i) =~= payload@.skip(end as int));
        i = end;
    }
    out.append(PEM_END);
    out.append(label);
    out.append(PEM_DASHES);
    out
}

/// The PEM-like text of a key: the block labelled `label` around the base64
/// form of `der`.
pub fn to_pem(label: &str, der: &[u8]) -> (out: String)
    requires
        encodable(der@.len()),
    ensures
        out@ == pem_text(label@, base64_standard(der@)),
{
    let mut payload = base64_encode(der);
    let out = pem_wrap(label, payload.as_str());
    wipe_text(&mut payload);
    out
}

/// The base64 form of the first bytes of a key, at most 32 of them.
pub fn preview(key: &[u8]) -> (text: String)
    ensures
        text@ == base64_standard(preview_bytes(key@)),
{
    let shown: usize = if key.len() < 32 {
        key.len()
    } else {
        32
    };
    let head = vstd::slice::slice_subrange(key, 0, shown);
    assert(head@ =~= preview_bytes(key@));
    base64_encode(head)
}

/// The bytes that a preview shows: the first 32, or all where there are fewer.
pub open spec fn preview_bytes(key: Seq<u8>) -> Seq<u8> {
    if key.len() < 32 {
        key
    } else {
        key.take(32)
    }
}

/// The lines of a wrapped text, without their newlines.
pub open spec fn lines_of(s: Seq<char>) -> Seq<Seq<char>>
    decreases s.len(),
{
    if s.len() == 0 {
        Seq::empty()
    } else if s.len() <= 64 {
        seq![s]
    } else {
        seq![s.take(64)] + lines_of(s.skip(64))
    }
}

/// The lines of a list, each closed by a newline, one after the other.
pub open spec fn joined(lines: Seq<Seq<char>>) -> Seq<char>
    decreases lines.len(),
{
    if lines.len() == 0 {
        Seq::empty()
    } else {
        lines[0].push('\n') + joined(lines.skip(1))
    }
}

/// The lines of a list one after the other, with nothing between them.
pub open spec fn glued(lines: Seq<Seq<char>>) -> Seq<char>
    decreases lines.len(),
{
    if lines.len() == 0 {
        Seq::empty()
    } else {
        lines[0] + glued(lines.skip(1))
    }
}

/// Wrapping loses nothing and keeps to the line width: the wrapped text is
/// its lines closed by newlines, the lines glued together give the text back,
/// no line is empty or longer than 64 characters, and every line but the last
/// has exactly 64.
pub proof fn lemma_wrapping_is_lossless(s: Seq<char>)
    ensures
        wrapped(s) == joined(lines_of(s)),
        glued(lines_of(s)) == s,
        lines_of(s).len() == (s.len() + 63) / 64,
        forall|i: int| 0 <= i < lines_of(s).len() ==> 0 < (#[trigger] lines_of(s)[i]).len() <= 64,
        forall|i: int| 0 <= i < lines_of(s).len() - 1 ==> (#[trigger] lines_of(s)[i]).len() == 64,
    decreases s.len(),
{
    let lines = lines_of(s);
    if s.len() == 0 {
    } else if s.len() <= 64 {
        assert(joined(lines.skip(1)) =~= Seq::<char>::empty());
        assert(glued(lines.skip(1)) =~= Seq::<char>::empty());
    } else {
        let rest = s.skip(64);
        lemma_wrapping_is_lossless(rest);
        assert(lines.skip(1) =~= lines_of(rest));
        assert forall|i: int| 0 <= i < lines.len() implies 0 < (#[trigger] lines[i]).len()
            <= 64 by {
            if i > 0 {
                assert(lines[i] == lines_of(rest)[i - 1]);
            }
        }
        assert forall|i: int| 0 <= i < lines.len() - 1 implies (#[trigger] lines[i]).len()
            == 64 by {
            if i > 0 {
                assert(lines[i] == lines_of(rest)[i - 1]);
            }
        }
    }
}

} // verus!
