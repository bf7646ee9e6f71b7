//! Extracting the authorization code from a browser's redirect.
//!
//! After interactive login the identity provider redirects the browser
//! to a local listener. The listener hands the raw bytes of the request
//! head to this module, which parses the request line, takes the query
//! string of the request target, and finds the `code` parameter,
//! percent-decoding keys and values as a URL parser would. The listener
//! itself (socket accept, reads, the fixed response) lives outside the
//! library.

use vstd::prelude::*;
use vstd::slice::slice_subrange;

verus! {

/// Redirect requests that yield no authorization code.
#[derive(Clone, Copy, Debug, PartialEq, Eq, Structural)]
pub enum RedirectError {
    /// The bytes do not hold an HTTP request line.
    MalformedRequest,
    /// The request line is well formed but its query has no `code`.
    MissingCode,
}

/// The first index at which `b` occurs in `s`.
pub open spec fn spec_find(s: Seq<u8>, b: u8) -> Option<int>
    decreases s.len(),
{
    if s.len() == 0 {
        None
    } else if s[0] == b {
        Some(0)
    } else {
        match spec_find(s.skip(1), b) {
            None => None,
            Some(i) => Some(i + 1),
        }
    }
}

pub proof fn lemma_find_some(s: Seq<u8>, b: u8, i: int)
    requires
        0 <= i < s.len(),
        s[i] == b,
        forall|j: int| 0 <= j < i ==> s[j] != b,
    ensures
        spec_find(s, b) == Some(i),
    decreases s.len(),
{
    if i == 0 {
    } else {
        assert(s[0] != b);
        assert(s.skip(1)[i - 1] == b);
        assert(forall|j: int| 0 <= j < i - 1 ==> s.skip(1)[j] != b);
        lemma_find_some(s.skip(1), b, i - 1);
    }
}

pub proof fn lemma_find_none(s: Seq<u8>, b: u8)
    requires
        forall|j: int| 0 <= j < s.len() ==> s[j] != b,
    ensures
        spec_find(s, b) is None,
    decreases s.len(),
{
    if s.len() > 0 {
        assert(forall|j: int| 0 <= j < s.skip(1).len() ==> s.skip(1)[j] != b);
        lemma_find_none(s.skip(1), b);
    }
}

pub proof fn lemma_find_in_range(s: Seq<u8>, b: u8)
    ensures
        spec_find(s, b) matches Some(i) ==> 0 <= i < s.len() && s[i] == b,
    decreases s.len(),
{
    if s.len() > 0 && s[0] != b {
        lemma_find_in_range(s.skip(1), b);
    }
}

/// Find the first occurrence of `b` in `s`.
pub fn find_byte(s: &[u8], b: u8) -> (r: Option<usize>)
    ensures
        match r {
            Some(i) => spec_find(s@, b) == Some(i as int),
            None => spec_find(s@, b) is None,
        },
{
    let mut i: usize = 0;
    while i < s.len()
        invariant
            0 <= i <= s@.len(),
            forall|j: int| 0 <= j < i ==> s@[j] != b,
        decreases s@.len() - i,
    {
        if s[i] == b {
            proof {
                lemma_find_some(s@, b, i as int);
            }
            return Some(i);
        }
        i = i + 1;
    }
    proof {
        lemma_find_none(s@, b);
    }
    None
}

/// The two bytes at `i` start a CRLF pair.
pub open spec fn spec_crlf_at(s: Seq<u8>, i: int) -> bool {
    &&& 0 <= i
    &&& i + 2 <= s.len()
    &&& s[i] == 13
    &&& s[i + 1] == 10
}

/// The index of the first CRLF pair in `s`: where the request line ends.
pub open spec fn spec_line_end(s: Seq<u8>) -> Option<int>
    decreases s.len(),
{
    if s.len() < 2 {
        None
    } else if s[0] == 13 && s[1] == 10 {
        Some(0)
    } else {
        match spec_line_end(s.skip(1)) {
            None => None,
            Some(i) => Some(i + 1),
        }
    }
}

pub proof fn lemma_line_end_some(s: Seq<u8>, i: int)
    requires
        spec_crlf_at(s, i),
        forall|j: int| 0 <= j < i ==> !spec_crlf_at(s, j),
    ensures
        spec_line_end(s) == Some(i),
    decreases s.len(),
{
    if i == 0 {
    } else {
        assert(!spec_crlf_at(s, 0));
        assert(spec_crlf_at(s.skip(1), i - 1));
        assert(forall|j: int| 0 <= j < i - 1 ==> !spec_crlf_at(s.skip(1), j)) by {
            assert forall|j: int| 0 <= j < i - 1 implies !spec_crlf_at(s.skip(1), j) by {
                assert(!spec_crlf_at(s, j + 1));
            }
        }
        lemma_line_end_some(s.skip(1), i - 1);
    }
}

pub proof fn lemma_line_end_none(s: Seq<u8>)
    requires
        forall|j: int| 0 <= j ==> !spec_crlf_at(s, j),
    ensures
        spec_line_end(s) is None,
    decreases s.len(),
{
    if s.len() >= 2 {
        assert(!spec_crlf_at(s, 0));
        assert(forall|j: int| 0 <= j ==> !spec_crlf_at(s.skip(1), j)) by {
            assert forall|j: int| 0 <= j implies !spec_crlf_at(s.skip(1), j) by {
                assert(!spec_crlf_at(s, j + 1));
            }
        }
        lemma_line_end_none(s.skip(1));
    }
}

pub proof fn lemma_line_end_in_range(s: Seq<u8>)
    ensures
        spec_line_end(s) matches Some(i) ==> spec_crlf_at(s, i),
    decreases s.len(),
{
    if s.len() >= 2 && !(s[0] == 13 && s[1] == 10) {
        lemma_line_end_in_range(s.skip(1));
    }
}

/// Find the first CRLF pair in `s`.
pub fn find_crlf(s: &[u8]) -> (r: Option<usize>)
    ensures
        match r {
            Some(i) => spec_line_end(s@) == Some(i as int),
            None => spec_line_end(s@) is None,
        },
{
    if s.len() < 2 {
        proof {
            lemma_line_end_none(s@);
        }
        return None;
    }
    let mut i: usize = 0;
    while i <= s.len() - 2
        invariant
            s@.len() >= 2,
            0 <= i <= s@.len(),
            forall|j: int| 0 <= j < i ==> !spec_crlf_at(s@, j),
        decreases s@.len() - i,
    {
        if s[i] == 13 && s[i + 1] == 10 {
            proof {
                lemma_line_end_some(s@, i as int);
            }
            return Some(i);
        }
        i = i + 1;
    }
    proof {
        assert(forall|j: int| 0 <= j ==> !spec_crlf_at(s@, j));
        lemma_line_end_none(s@);
    }
    None
}

/// The four bytes at `i` are CRLF CRLF: the end of the request head.
pub open spec fn spec_head_end_at(s: Seq<u8>, i: int) -> bool {
    &&& 0 <= i
    &&& i + 4 <= s.len()
    &&& s[i] == 13
    &&& s[i + 1] == 10
    &&& s[i + 2] == 13
    &&& s[i + 3] == 10
}

/// The buffer holds a complete request head: a blank line has arrived.
pub open spec fn spec_request_head_complete(s: Seq<u8>) -> bool {
    exists|i: int| #[trigger] spec_head_end_at(s, i)
}

/// Whether the bytes read so far hold a complete request head, so that a
/// reader knows to stop reading. A request line split across reads is
/// simply not yet complete.
pub fn request_head_complete(s: &[u8]) -> (r: bool)
    ensures
        r == spec_request_head_complete(s@),
{
    if s.len() < 4 {
        return false;
    }
    let mut i: usize = 0;
    while i <= s.len() - 4
        invariant
            s@.len() >= 4,
            0 <= i <= s@.len(),
            forall|j: int| 0 <= j < i ==> !spec_head_end_at(s@, j),
        decreases s@.len() - i,
    {
        if s[i] == 13 && s[i + 1] == 10 && s[i + 2] == 13 && s[i + 3] == 10 {
            assert(spec_head_end_at(s@, i as int));
            return true;
        }
        i = i + 1;
    }
    assert(forall|j: int| 0 <= j ==> !spec_head_end_at(s@, j));
    false
}

/// The remainder after the request target begins `HTTP/`.
pub open spec fn spec_is_http_version(v: Seq<u8>) -> bool {
    &&& v.len() >= 5
    &&& v[0] == 72
    &&& v[1] == 84
    &&& v[2] == 84
    &&& v[3] == 80
    &&& v[4] == 47
}

fn is_http_version(v: &[u8]) -> (r: bool)
    ensures
        r == spec_is_http_version(v@),
{
    v.len() >= 5 && v[0] == 72 && v[1] == 84 && v[2] == 84 && v[3] == 80 && v[4] == 47
}

/// The request target of the request line: the bytes between the first
/// and second space of the first line, provided the method is nonempty,
/// the target is nonempty, and an `HTTP/` version follows.
pub open spec fn spec_request_target(s: Seq<u8>) -> Option<Seq<u8>> {
    match spec_line_end(s) {
        None => None,
        Some(e) => {
            let line = s.take(e);
            match spec_find(line, 32) {
                None => None,
                Some(i) => {
                    let rest = line.skip(i + 1);
                    match spec_find(rest, 32) {
                        None => None,
                        Some(j) => if i > 0 && j > 0 && spec_is_http_version(rest.skip(j + 1)) {
                            Some(rest.take(j))
                        } else {
                            None
                        },
                    }
                },
            }
        },
    }
}

/// Extract the request target from the bytes of a request head.
pub fn request_target(s: &[u8]) -> (r: Option<&[u8]>)
    ensures
        match r {
            Some(t) => spec_request_target(s@) == Some(t@),
            None => spec_request_target(s@) is None,
        },
{
    let e = match find_crlf(s) {
        None => { return None },
        Some(e) => e,
    };
    proof {
        lemma_line_end_in_range(s@);
    }
    let line = slice_subrange(s, 0, e);
    proof {
        assert(line@ =~= s@.take(e as int));
    }
    let i = match find_byte(line, 32) {
        None => { return None },
        Some(i) => i,
    };
    proof {
        lemma_find_in_range(line@, 32);
        assert((i as int) < line@.len());
    }
    let rest = slice_subrange(line, i + 1, line.len());
    proof {
        assert(rest@ =~= line@.skip(i as int + 1));
    }
    let j = match find_byte(rest, 32) {
        None => { return None },
        Some(j) => j,
    };
    proof {
        lemma_find_in_range(rest@, 32);
        assert((j as int) < rest@.len());
    }
    let version = slice_subrange(rest, j + 1, rest.len());
    proof {
        assert(version@ =~= rest@.skip(j as int + 1));
    }
    if i > 0 && j > 0 && is_http_version(version) {
        let target = slice_subrange(rest, 0, j);
        proof {
            assert(target@ =~= rest@.take(j as int));
        }
        Some(target)
    } else {
        None
    }
}

/// `b` is a hexadecimal digit byte.
pub open spec fn spec_is_hex(b: u8) -> bool {
    (48 <= b <= 57) || (97 <= b <= 102) || (65 <= b <= 70)
}

/// The value of a hexadecimal digit byte.
pub open spec fn spec_hex_val(b: u8) -> int {
    if 48 <= b <= 57 {
        b - 48
    } else if 97 <= b <= 102 {
        b - 87
    } else {
        b - 55
    }
}

fn hex_val(b: u8) -> (r: Option<u8>)
    ensures
        r is Some <==> spec_is_hex(b),
        r matches Some(v) ==> v == spec_hex_val(b),
{
    if 48 <= b && b <= 57 {
        Some(b - 48)
    } else if 97 <= b && b <= 102 {
        Some(b - 87)
    } else if 65 <= b && b <= 70 {
        Some(b - 55)
    } else {
        None
    }
}

/// Percent-decoding as a URL query parser performs it: `%XY` with two
/// hexadecimal digits becomes one byte, `+` becomes a space, and
/// anything else, an ill-formed `%` sequence included, passes through.
pub open spec fn spec_pct_decode(s: Seq<u8>) -> Seq<u8>
    decreases s.len(),
{
    if s.len() == 0 {
        Seq::empty()
    } else if s[0] == 37 && s.len() >= 3 && spec_is_hex(s[1]) && spec_is_hex(s[2]) {
        seq![(spec_hex_val(s[1]) * 16 + spec_hex_val(s[2])) as u8] + spec_pct_decode(s.skip(3))
    } else if s[0] == 43 {
        seq![32u8] + spec_pct_decode(s.skip(1))
    } else {
        seq![s[0]] + spec_pct_decode(s.skip(1))
    }
}

/// Percent-decode a query key or value.
pub fn pct_decode(s: &[u8]) -> (r: Vec<u8>)
    ensures
        r@ == spec_pct_decode(s@),
{
    let mut out: Vec<u8> = Vec::new();
    let mut i: usize = 0;
    proof {
        assert(s@.skip(0) =~= s@);
        assert(out@ + spec_pct_decode(s@) =~= spec_pct_decode(s@));
    }
    while i < s.len()
        invariant
            0 <= i <= s@.len(),
            spec_pct_decode(s@) == out@ + spec_pct_decode(s@.skip(i as int)),
        decreases s@.len() - i,
    {
        let ghost rem = s@.skip(i as int);
        proof {
            assert(rem.len() == s@.len() - i);
            assert(rem[0] == s@[i as int]);
            if i + 2 < s.len() {
                assert(rem[1] == s@[i as int + 1]);
                assert(rem[2] == s@[i as int + 2]);
            }
        }
        if s[i] == 37 && s.len() - i > 2 {
            let h1 = hex_val(s[i + 1]);
            let h2 = hex_val(s[i + 2]);
            match (h1, h2) {
                (Some(v1), Some(v2)) => {
                    out.push(v1 * 16 + v2);
                    proof {
                        assert(rem.skip(3) =~= s@.skip(i as int + 3));
                        assert(spec_pct_decode(rem) == seq![(spec_hex_val(rem[1]) * 16
                            + spec_hex_val(rem[2])) as u8] + spec_pct_decode(rem.skip(3)));
                        assert(out@ + spec_pct_decode(s@.skip(i as int + 3)) =~= spec_pct_decode(
                            s@,
                        ));
                    }
                    i = i + 3;
                },
                _ => {
                    out.push(s[i]);
                    proof {
                        assert(rem.skip(1) =~= s@.skip(i as int + 1));
                        assert(out@ + spec_pct_decode(s@.skip(i as int + 1)) =~= spec_pct_decode(
                            s@,
                        ));
                    }
                    i = i + 1;
                },
            }
        } else {
            let b = s[i];
            if b == 43 {
                out.push(32);
            } else {
                out.push(b);
            }
            proof {
                assert(rem.skip(1) =~= s@.skip(i as int + 1));
                assert(out@ + spec_pct_decode(s@.skip(i as int + 1)) =~= spec_pct_decode(s@));
            }
            i = i + 1;
        }
    }
    proof {
        assert(s@.skip(i as int) =~= Seq::<u8>::empty());
        assert(out@ + spec_pct_decode(s@.skip(i as int)) =~= out@);
    }
    out
}

/// Whether one `key=value` segment matches `name` after decoding, and
/// the decoded value if it does. A segment without `=` is a bare key
/// with an empty value.
pub open spec fn spec_match_segment(seg: Seq<u8>, name: Seq<u8>) -> Option<Seq<u8>> {
    match spec_find(seg, 61) {
        None => if spec_pct_decode(seg) == name {
            Some(Seq::empty())
        } else {
            None
        },
        Some(j) => if spec_pct_decode(seg.take(j)) == name {
            Some(spec_pct_decode(seg.skip(j + 1)))
        } else {
            None
        },
    }
}

/// The decoded value of the first `&`-separated query segment whose
/// decoded key is `name`.
pub open spec fn spec_find_param(q: Seq<u8>, name: Seq<u8>) -> Option<Seq<u8>>
    decreases q.len(),
    via spec_find_param_decreases
{
    match spec_find(q, 38) {
        None => spec_match_segment(q, name),
        Some(i) => match spec_match_segment(q.take(i), name) {
            Some(v) => Some(v),
            None => spec_find_param(q.skip(i + 1), name),
        },
    }
}

#[via_fn]
proof fn spec_find_param_decreases(q: Seq<u8>, name: Seq<u8>) {
    lemma_find_in_range(q, 38);
}

/// Compare two byte strings.
pub fn bytes_eq(a: &[u8], b: &[u8]) -> (r: bool)
    ensures
        r == (a@ == b@),
{
    if a.len() != b.len() {
        proof {
            assert(a@ != b@);
        }
        return false;
    }
    let mut i: usize = 0;
    while i < a.len()
        invariant
            0 <= i <= a@.len(),
            a@.len() == b@.len(),
            forall|j: int| 0 <= j < i ==> a@[j] == b@[j],
        decreases a@.len() - i,
    {
        if a[i] != b[i] {
            return false;
        }
        i = i + 1;
    }
    proof {
        assert(a@ =~= b@);
    }
    true
}

fn match_segment(seg: &[u8], name: &[u8]) -> (r: Option<Vec<u8>>)
    ensures
        match r {
            Some(v) => spec_match_segment(seg@, name@) == Some(v@),
            None => spec_match_segment(seg@, name@) is None,
        },
{
    match find_byte(seg, 61) {
        None => {
            let key = pct_decode(seg);
            if bytes_eq(key.as_slice(), name) {
                let empty: Vec<u8> = Vec::new();
                proof {
                    assert(empty@ =~= Seq::<u8>::empty());
                }
                Some(empty)
            } else {
                None
            }
        },
        Some(j) => {
            proof {
                lemma_find_in_range(seg@, 61);
                assert((j as int) < seg@.len());
            }
            let raw_key = slice_subrange(seg, 0, j);
            proof {
                assert(raw_key@ =~= seg@.take(j as int));
            }
            let key = pct_decode(raw_key);
            if bytes_eq(key.as_slice(), name) {
                let n = seg.len();
                let raw_val = slice_subrange(seg, j + 1, n);
                proof {
                    assert(raw_val@ =~= seg@.skip(j as int + 1));
                }
                Some(pct_decode(raw_val))
            } else {
                None
            }
        },
    }
}

/// Find the decoded value of the first query parameter named `name`.
pub fn find_param(q: &[u8], name: &[u8]) -> (r: Option<Vec<u8>>)
    ensures
        match r {
            Some(v) => spec_find_param(q@, name@) == Some(v@),
            None => spec_find_param(q@, name@) is None,
        },
    decreases q@.len(),
{
    match find_byte(q, 38) {
        None => match_segment(q, name),
        Some(i) => {
            proof {
                lemma_find_in_range(q@, 38);
                assert((i as int) < q@.len());
            }
            let seg = slice_subrange(q, 0, i);
            proof {
                assert(seg@ =~= q@.take(i as int));
            }
            match match_segment(seg, name) {
                Some(v) => Some(v),
                None => {
                    let n = q.len();
                    let tail = slice_subrange(q, i + 1, n);
                    proof {
                        assert(tail@ =~= q@.skip(i as int + 1));
                    }
                    find_param(tail, name)
                },
            }
        },
    }
}

/// The bytes of the query parameter name `code`.
pub open spec fn spec_code_name() -> Seq<u8> {
    seq![99u8, 111u8, 100u8, 101u8]
}

/// The authorization code carried by the redirect request: the decoded
/// `code` parameter of the request target's query.
pub open spec fn spec_redirect_code(request: Seq<u8>) -> Option<Seq<u8>> {
    match spec_request_target(request) {
        None => None,
        Some(t) => match spec_find(t, 63) {
            None => None,
            Some(i) => spec_find_param(t.skip(i + 1), spec_code_name()),
        },
    }
}

/// Extract the authorization code from the raw bytes of the redirect
/// request. A buffer without a well-formed request line is a malformed
/// request; one whose query lacks a `code` parameter misses the code.
pub fn extract_code(request: &[u8]) -> (r: Result<Vec<u8>, RedirectError>)
    ensures
        spec_request_target(request@) is None ==> r == Err::<Vec<u8>, RedirectError>(
            RedirectError::MalformedRequest,
        ),
        spec_request_target(request@) is Some && spec_redirect_code(request@) is None ==> r
            == Err::<Vec<u8>, RedirectError>(RedirectError::MissingCode),
        spec_redirect_code(request@) matches Some(c) ==> r matches Ok(v) && v@ == c,
{
    let target = match request_target(request) {
        None => { return Err(RedirectError::MalformedRequest) },
        Some(t) => t,
    };
    let qpos = match find_byte(target, 63) {
        None => { return Err(RedirectError::MissingCode) },
        Some(i) => i,
    };
    proof {
        lemma_find_in_range(target@, 63);
        assert((qpos as int) < target@.len());
    }
    let n = target.len();
    let query = slice_subrange(target, qpos + 1, n);
    proof {
        assert(query@ =~= target@.skip(qpos as int + 1));
    }
    let mut name: Vec<u8> = Vec::new();
    name.push(99);
    name.push(111);
    name.push(100);
    name.push(101);
    proof {
        assert(name@ =~= spec_code_name());
    }
    match find_param(query, name.as_slice()) {
        Some(v) => Ok(v),
        None => Err(RedirectError::MissingCode),
    }
}

/// The fixed response the listener sends so the browser does not hang.
pub fn success_response() -> (r: String)
    ensures
        r@ == "HTTP/1.1 200 OK\r\nContent-Length: 7\r\n\r\nsuccess"@,
{
    String::from_str("HTTP/1.1 200 OK\r\nContent-Length: 7\r\n\r\nsuccess")
}

} // verus!
