use vstd::prelude::*;
use vstd::string::*;

verus! {

/// The bytes of a text made of ASCII characters.
pub open spec fn ascii_bytes(s: Seq<char>) -> Seq<u8> {
    Seq::new(s.len(), |i: int| s[i] as u8)
}

/// Line end.
pub open spec fn crlf() -> Seq<u8> {
    ascii_bytes("\r\n"@)
}

/// Blank line that ends a part's header lines.
pub open spec fn blank_line() -> Seq<u8> {
    ascii_bytes("\r\n\r\n"@)
}

/// The line that opens the first part.
pub open spec fn opening(boundary: Seq<u8>) -> Seq<u8> {
    ascii_bytes("--"@) + boundary + crlf()
}

/// The delimiter that ends a part's payload.
pub open spec fn delimiter(boundary: Seq<u8>) -> Seq<u8> {
    ascii_bytes("\r\n--"@) + boundary
}

/// What follows the last part's payload: the delimiter, closed.
pub open spec fn closing_bytes(boundary: Seq<u8>) -> Seq<u8> {
    delimiter(boundary) + ascii_bytes("--\r\n"@)
}

/// The header lines of a part that carries a file.
pub open spec fn file_part_lines(name: Seq<u8>, file_name: Seq<u8>, file_type: Seq<u8>) -> Seq<u8> {
    ascii_bytes("Content-Disposition: form-data; name=\""@) + name + ascii_bytes(
        "\"; filename=\""@,
    ) + file_name + ascii_bytes("\"\r\nContent-Type: "@) + file_type
}

/// Everything before the payload of the first part when it carries a file.
pub open spec fn part_header_bytes(
    boundary: Seq<u8>,
    name: Seq<u8>,
    file_name: Seq<u8>,
    file_type: Seq<u8>,
) -> Seq<u8> {
    opening(boundary) + file_part_lines(name, file_name, file_type) + blank_line()
}

/// A multipart body with one part that carries a file.
pub open spec fn single_file_body(
    boundary: Seq<u8>,
    name: Seq<u8>,
    file_name: Seq<u8>,
    file_type: Seq<u8>,
    payload: Seq<u8>,
) -> Seq<u8> {
    part_header_bytes(boundary, name, file_name, file_type) + payload + closing_bytes(boundary)
}

/// Whether `pattern` occurs in `s` at index `i`.
pub open spec fn occurs_at(s: Seq<u8>, pattern: Seq<u8>, i: int) -> bool {
    0 <= i && i + pattern.len() <= s.len() && s.subrange(i, i + pattern.len()) == pattern
}

/// Whether the first occurrence of `pattern` in `s` is at index `i`.
pub open spec fn first_at(s: Seq<u8>, pattern: Seq<u8>, i: int) -> bool {
    occurs_at(s, pattern, i) && forall|j: int| 0 <= j < i ==> !#[trigger] occurs_at(s, pattern, j)
}

/// Whether a reader that knows `boundary` reads `body` as exactly one part
/// with header lines `lines` and payload `payload`: the body opens with the
/// boundary line; the header lines end at the first blank line; the payload
/// ends at the first delimiter after the opening line; the body then closes.
pub open spec fn reads_single_part(
    body: Seq<u8>,
    boundary: Seq<u8>,
    lines: Seq<u8>,
    payload: Seq<u8>,
) -> bool {
    &&& body == opening(boundary) + lines + blank_line() + payload + closing_bytes(boundary)
    &&& first_at(lines + blank_line(), blank_line(), lines.len() as int)
    &&& first_at(
        lines + blank_line() + payload + delimiter(boundary),
        delimiter(boundary),
        (lines.len() + 4 + payload.len()) as int,
    )
}

/// Framing a file part around any payload reads back as exactly one part
/// whose header lines declare the given name, file name and type, and whose
/// payload is the payload unchanged. This needs header fields without a
/// carriage return, and a payload in which the delimiter does not occur, nor
/// across its edges (it first occurs at the end of the payload between a line
/// end and the delimiter).
pub proof fn lemma_single_part_round_trip(
    boundary: Seq<u8>,
    name: Seq<u8>,
    file_name: Seq<u8>,
    file_type: Seq<u8>,
    payload: Seq<u8>,
)
    requires
        no_cr(name),
        no_cr(file_name),
        no_cr(file_type),
        first_at(
            crlf() + payload + delimiter(boundary),
            delimiter(boundary),
            (2 + payload.len()) as int,
        ),
    ensures
        reads_single_part(
            single_file_body(boundary, name, file_name, file_type, payload),
            boundary,
            file_part_lines(name, file_name, file_type),
            payload,
        ),
{
    reveal_strlit("Content-Disposition: form-data; name=\"");
    reveal_strlit("\"; filename=\"");
    reveal_strlit("\"\r\nContent-Type: ");
    reveal_strlit("\r\n");
    reveal_strlit("\r\n\r\n");
    reveal_strlit("\r\n--");
    let a = ascii_bytes("Content-Disposition: form-data; name=\""@);
    let b = ascii_bytes("\"; filename=\""@);
    let c = ascii_bytes("\"\r\nContent-Type: "@);
    let x = a + name + b + file_name;
    let lines = file_part_lines(name, file_name, file_type);
    let blank = blank_line();
    let d = delimiter(boundary);
    let xl = x.len() as int;
    let ll = lines.len() as int;
    let dl = d.len() as int;
    assert(lines =~= x + c + file_type);
    assert(no_cr(a));
    assert(no_cr(b));
    assert(c.len() == 17 && c[1] == 13u8 && c[3] == 67u8);
    assert forall|i: int| 0 <= i < c.len() && i != 1 implies #[trigger] c[i] != 13u8 by {}
    assert(no_cr(x)) by {
        assert forall|i: int| 0 <= i < x.len() implies #[trigger] x[i] != 13u8 by {
            if i < a.len() {
                assert(x[i] == a[i]);
            } else if i < a.len() + name.len() {
                assert(x[i] == name[i - a.len()]);
            } else if i < a.len() + name.len() + b.len() {
                assert(x[i] == b[i - a.len() - name.len()]);
            } else {
                assert(x[i] == file_name[i - a.len() - name.len() - b.len()]);
            }
        }
    }
    // The one carriage return among the header lines is followed, two bytes
    // on, by the `C` of `Content-Type`.
    assert forall|j: int| 0 <= j < lines.len() && #[trigger] lines[j] == 13u8 implies j == xl + 1 by {
        if j < xl {
            assert(lines[j] == x[j]);
        } else if j < xl + c.len() {
            assert(lines[j] == c[j - xl]);
        } else {
            assert(lines[j] == file_type[j - xl - c.len()]);
        }
    }
    assert(lines[xl + 3] == 67u8);
    assert(blank =~= seq![13u8, 10u8, 13u8, 10u8]);
    assert(d[0] == 13u8 && d[2] == 45u8 && d.len() >= 4);

    let s1 = lines + blank;
    assert(s1.subrange(ll, ll + 4) =~= blank);
    assert forall|j: int| 0 <= j < ll implies !#[trigger] occurs_at(s1, blank, j) by {
        if occurs_at(s1, blank, j) {
            assert(s1.subrange(j, j + 4)[0] == blank[0]);
            assert(s1[j] == lines[j]);
            assert(s1.subrange(j, j + 4)[2] == blank[2]);
            assert(s1[j + 2] == lines[j + 2]);
        }
    }

    let tail = crlf() + payload + d;
    let s2 = lines + blank + payload + d;
    let pos = ll + 4 + payload.len();
    assert(s2.subrange(ll + 2, s2.len() as int) =~= tail);
    assert(s2.subrange(pos, pos + dl) =~= d);
    assert forall|j: int| 0 <= j < pos implies !#[trigger] occurs_at(s2, d, j) by {
        if occurs_at(s2, d, j) {
            assert(s2.subrange(j, j + dl)[0] == d[0]);
            assert(s2.subrange(j, j + dl)[2] == d[2]);
            if j < ll {
                assert(s2[j] == lines[j]);
                assert(s2[j + 2] == lines[j + 2]);
            } else if j == ll {
                assert(s2[j + 2] == blank[2]);
            } else if j == ll + 1 {
                assert(s2[j] == blank[1]);
            } else {
                let k = j - (ll + 2);
                assert(tail.subrange(k, k + dl) =~= s2.subrange(j, j + dl));
                assert(occurs_at(tail, d, k));
            }
        }
    }
    assert(single_file_body(boundary, name, file_name, file_type, payload) =~= opening(boundary)
        + lines + blank + payload + closing_bytes(boundary));
}

/// A body reads as at most one part: the header lines and the payload that a
/// boundary-aware reader finds in it are the only ones.
pub proof fn lemma_single_part_reading_unique(
    body: Seq<u8>,
    boundary: Seq<u8>,
    lines1: Seq<u8>,
    payload1: Seq<u8>,
    lines2: Seq<u8>,
    payload2: Seq<u8>,
)
    requires
        reads_single_part(body, boundary, lines1, payload1),
        reads_single_part(body, boundary, lines2, payload2),
    ensures
        lines1 == lines2,
        payload1 == payload2,
{
    let o = opening(boundary).len() as int;
    let blank = blank_line();
    let l1 = lines1.len() as int;
    let l2 = lines2.len() as int;
    assert(body =~= opening(boundary) + (lines1 + blank) + (payload1 + closing_bytes(boundary)));
    assert(body =~= opening(boundary) + (lines2 + blank) + (payload2 + closing_bytes(boundary)));
    assert(blank.len() == 4) by {
        reveal_strlit("\r\n\r\n");
    }
    if l1 < l2 {
        assert((lines2 + blank).subrange(l1, l1 + 4) =~= body.subrange(o + l1, o + l1 + 4));
        assert((lines1 + blank).subrange(l1, l1 + 4) =~= body.subrange(o + l1, o + l1 + 4));
        assert(occurs_at(lines2 + blank, blank, l1));
    } else if l2 < l1 {
        assert((lines1 + blank).subrange(l2, l2 + 4) =~= body.subrange(o + l2, o + l2 + 4));
        assert((lines2 + blank).subrange(l2, l2 + 4) =~= body.subrange(o + l2, o + l2 + 4));
        assert(occurs_at(lines1 + blank, blank, l2));
    }
    assert(lines1 =~= body.subrange(o, o + l1));
    assert(lines2 =~= body.subrange(o, o + l2));
    let c = closing_bytes(boundary).len() as int;
    assert(payload1 =~= body.subrange(o + l1 + 4, body.len() - c));
    assert(payload2 =~= body.subrange(o + l2 + 4, body.len() - c));
}

/// Whether the byte sequence holds no carriage return.
pub open spec fn no_cr(s: Seq<u8>) -> bool {
    forall|i: int| 0 <= i < s.len() ==> #[trigger] s[i] != 13u8
}

/// Relies on `mpart_async::MultipartStream::write_header`: the boundary line,
/// the Content-Disposition and Content-Type lines, and a blank line.
#[verifier::external_body]
pub(crate) fn part_header(boundary: &str, name: &str, file_name: &str, file_type: &str) -> (r: Vec<u8>)
    ensures
        r@ == part_header_bytes(
            boundary.spec_bytes(),
            name.spec_bytes(),
            file_name.spec_bytes(),
            file_type.spec_bytes(),
        ),
{
    let part = mpart_async::MultipartStream::new(name, file_name, file_type, ());
    part.write_header(boundary).to_vec()
}

/// The bytes that close a single-part body framed with `boundary`.
pub fn closing(boundary: &str) -> (r: Vec<u8>)
    ensures
        r@ == closing_bytes(boundary.spec_bytes()),
{
    let mut r = "\r\n--".as_bytes_vec();
    let mut b = boundary.as_bytes_vec();
    let mut end = "--\r\n".as_bytes_vec();
    r.append(&mut b);
    r.append(&mut end);
    proof {
        reveal_strlit("\r\n--");
        reveal_strlit("--\r\n");
        broadcast use is_ascii_spec_bytes;
        assert(is_ascii("\r\n--"));
        assert(is_ascii("--\r\n"));
        assert("\r\n--".spec_bytes() =~= ascii_bytes("\r\n--"@));
        assert("--\r\n".spec_bytes() =~= ascii_bytes("--\r\n"@));
        assert(r@ =~= closing_bytes(boundary.spec_bytes()));
    }
    r
}

} // verus!
