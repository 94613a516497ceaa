use vstd::prelude::*;
use vstd::utf8::decode_utf8;
use vstd::utf8::encode_utf8;
use vstd::utf8::encode_utf8_decode_utf8;
use vstd::utf8::valid_utf8;

use crate::error::IrohError;

verus! {

/// The view of an optional string.
pub open spec fn spec_opt_str(o: Option<String>) -> Option<Seq<char>> {
    match o {
        Option::Some(s) => Option::Some(s@),
        Option::None => Option::None,
    }
}

/// Whether `p` is a prefix of `s`.
pub open spec fn spec_starts_with(s: Seq<char>, p: Seq<char>) -> bool {
    p.len() <= s.len() && s.take(p.len() as int) == p
}

/// `s` without its leading run of `/` characters.
pub open spec fn spec_trim_leading_slashes(s: Seq<char>) -> Seq<char>
    decreases s.len(),
{
    if s.len() > 0 && s[0] == '/' {
        spec_trim_leading_slashes(s.drop_first())
    } else {
        s
    }
}

/// `s` without its trailing run of `/` characters.
pub open spec fn spec_trim_trailing_slashes(s: Seq<char>) -> Seq<char>
    decreases s.len(),
{
    if s.len() > 0 && s.last() == '/' {
        spec_trim_trailing_slashes(s.drop_last())
    } else {
        s
    }
}

/// `path` made relative to the directory `root`: when `path` equals
/// `root`, or continues it at a `/` boundary, the remainder with its
/// leading slashes removed; otherwise `path` unchanged. Trailing
/// slashes on `root` do not count towards the boundary.
pub open spec fn spec_strip_root(path: Seq<char>, root: Seq<char>) -> Seq<char> {
    let r = spec_trim_trailing_slashes(root);
    if spec_starts_with(path, r) && (path.len() == r.len() || path[r.len() as int] == '/') {
        spec_trim_leading_slashes(path.skip(r.len() as int))
    } else {
        path
    }
}

/// The characters of the document key derived from a path: the path
/// made relative to `root` when a root is given, with `prefix` put in
/// front when one is given.
pub open spec fn spec_path_to_key_chars(
    path: Seq<char>,
    prefix: Option<Seq<char>>,
    root: Option<Seq<char>>,
) -> Seq<char> {
    let rel = match root {
        Option::Some(r) => spec_strip_root(path, r),
        Option::None => path,
    };
    match prefix {
        Option::Some(p) => p + rel,
        Option::None => rel,
    }
}

/// A key's bytes without the terminating null byte, when one is
/// there.
pub open spec fn spec_strip_key_terminator(key: Seq<u8>) -> Seq<u8> {
    if key.len() > 0 && key.last() == 0 {
        key.drop_last()
    } else {
        key
    }
}

/// `s` without the prefix `p` when `p` starts it; `s` unchanged
/// otherwise.
pub open spec fn spec_strip_prefix(s: Seq<char>, p: Seq<char>) -> Seq<char> {
    if spec_starts_with(s, p) {
        s.skip(p.len() as int)
    } else {
        s
    }
}

/// `rel` placed under the directory `root`: the leading slashes of
/// `rel` are dropped, and a single `/` joins the two unless one side
/// is empty or `root` already ends in one. An empty relative part
/// leaves `root` as it is.
pub open spec fn spec_join_root(root: Seq<char>, rel: Seq<char>) -> Seq<char> {
    let t = spec_trim_leading_slashes(rel);
    if t.len() == 0 {
        root
    } else if root.len() == 0 {
        t
    } else if root.last() == '/' {
        root + t
    } else {
        root + seq!['/'] + t
    }
}

/// The characters of the path recovered from a key's characters: the
/// `prefix` is stripped when one is given and present, and the result
/// is placed under `root` when a root is given.
pub open spec fn spec_key_to_path_chars(
    stripped: Seq<char>,
    prefix: Option<Seq<char>>,
    root: Option<Seq<char>>,
) -> Seq<char> {
    let rel = match prefix {
        Option::Some(p) => spec_strip_prefix(stripped, p),
        Option::None => stripped,
    };
    match root {
        Option::Some(r) => spec_join_root(r, rel),
        Option::None => rel,
    }
}

/// A key derived from a path converts back to that path, when the
/// same prefix and no root are involved: the key's bytes end in the
/// null terminator, what remains is valid UTF-8, and stripping the
/// prefix recovers the path exactly.
pub proof fn lemma_path_key_round_trip(path: Seq<char>, prefix: Option<Seq<char>>)
    ensures
        ({
            let keyed = spec_path_to_key_chars(path, prefix, Option::None);
            &&& valid_utf8(encode_utf8(keyed))
            &&& spec_strip_key_terminator(encode_utf8(keyed) + seq![0u8]) == encode_utf8(keyed)
            &&& spec_key_to_path_chars(decode_utf8(encode_utf8(keyed)), prefix, Option::None)
                == path
        }),
{
    let keyed = spec_path_to_key_chars(path, prefix, Option::None);
    vstd::utf8::encode_utf8_valid_utf8(keyed);
    let bytes = encode_utf8(keyed) + seq![0u8];
    assert(bytes.last() == 0);
    assert(bytes.drop_last() =~= encode_utf8(keyed));
    encode_utf8_decode_utf8(keyed);
    match prefix {
        Option::Some(p) => {
            assert(keyed == p + path);
            assert((p + path).take(p.len() as int) =~= p);
            assert((p + path).skip(p.len() as int) =~= path);
        },
        Option::None => {},
    }
}

/// Relies on `String::from_utf8`: it succeeds exactly on valid UTF-8
/// and returns the string whose bytes are the given ones.
#[verifier::external_body]
fn string_from_utf8(bytes: Vec<u8>) -> (r: Option<String>)
    ensures
        r is Some <==> valid_utf8(bytes@),
        r matches Some(s) ==> encode_utf8(s@) == bytes@,
{
    String::from_utf8(bytes).ok()
}

proof fn lemma_trim_leading_is_skip(s: Seq<char>, i: int)
    requires
        0 <= i <= s.len(),
        forall|j: int| 0 <= j < i ==> s[j] == '/',
        i < s.len() ==> s[i] != '/',
    ensures
        spec_trim_leading_slashes(s) == s.skip(i),
    decreases i,
{
    if i == 0 {
        assert(s.skip(0) =~= s);
    } else {
        assert(s[0] == '/');
        let d = s.drop_first();
        lemma_trim_leading_is_skip(d, i - 1);
        assert(d.skip(i - 1) =~= s.skip(i));
    }
}

proof fn lemma_trim_trailing_is_take(s: Seq<char>, e: int)
    requires
        0 <= e <= s.len(),
        forall|j: int| e <= j < s.len() ==> s[j] == '/',
        e > 0 ==> s[e - 1] != '/',
    ensures
        spec_trim_trailing_slashes(s) == s.take(e),
    decreases s.len() - e,
{
    if e == s.len() {
        assert(s.take(e) =~= s);
    } else {
        assert(s.last() == '/');
        let d = s.drop_last();
        lemma_trim_trailing_is_take(d, e);
        assert(d.take(e) =~= s.take(e));
    }
}

/// Whether `p` is a prefix of `s`.
fn str_starts_with(s: &str, p: &str) -> (r: bool)
    ensures
        r == spec_starts_with(s@, p@),
{
    let sn = s.unicode_len();
    let pn = p.unicode_len();
    if pn > sn {
        return false;
    }
    let mut i: usize = 0;
    while i < pn
        invariant
            i <= pn <= sn,
            sn == s@.len(),
            pn == p@.len(),
            forall|j: int| 0 <= j < i ==> s@[j] == p@[j],
        decreases pn - i,
    {
        if s.get_char(i) != p.get_char(i) {
            proof {
                assert(s@.take(pn as int)[i as int] != p@[i as int]);
            }
            return false;
        }
        i = i + 1;
    }
    proof {
        assert(s@.take(pn as int) =~= p@);
    }
    true
}

/// `s` without its leading run of `/` characters.
fn trim_leading_slashes(s: &str) -> (r: String)
    ensures
        r@ == spec_trim_leading_slashes(s@),
{
    let n = s.unicode_len();
    let mut i: usize = 0;
    while i < n && s.get_char(i) == '/'
        invariant
            i <= n,
            n == s@.len(),
            forall|j: int| 0 <= j < i ==> s@[j] == '/',
        decreases n - i,
    {
        i = i + 1;
    }
    let rest = s.substring_char(i, n);
    proof {
        lemma_trim_leading_is_skip(s@, i as int);
        assert(rest@ =~= s@.skip(i as int));
    }
    String::from_str(rest)
}

/// `s` without its trailing run of `/` characters.
fn trim_trailing_slashes(s: &str) -> (r: String)
    ensures
        r@ == spec_trim_trailing_slashes(s@),
{
    let n = s.unicode_len();
    let mut e: usize = n;
    while e > 0 && s.get_char(e - 1) == '/'
        invariant
            e <= n,
            n == s@.len(),
            forall|j: int| e <= j < n ==> s@[j] == '/',
        decreases e,
    {
        e = e - 1;
    }
    let kept = s.substring_char(0, e);
    proof {
        lemma_trim_trailing_is_take(s@, e as int);
        assert(kept@ =~= s@.take(e as int));
    }
    String::from_str(kept)
}

/// `path` made relative to `root`, as [`spec_strip_root`] says.
fn strip_root(path: &str, root: &str) -> (r: String)
    ensures
        r@ == spec_strip_root(path@, root@),
{
    let rn = trim_trailing_slashes(root);
    let rlen = rn.as_str().unicode_len();
    let plen = path.unicode_len();
    if str_starts_with(path, rn.as_str()) && (plen == rlen || path.get_char(rlen) == '/') {
        let rest = path.substring_char(rlen, plen);
        proof {
            assert(rest@ =~= path@.skip(rlen as int));
        }
        trim_leading_slashes(rest)
    } else {
        String::from_str(path)
    }
}

/// `s` without the prefix `p` when it starts with it.
fn strip_prefix_str(s: &str, p: &str) -> (r: String)
    ensures
        r@ == spec_strip_prefix(s@, p@),
{
    if str_starts_with(s, p) {
        let n = s.unicode_len();
        let pn = p.unicode_len();
        let rest = s.substring_char(pn, n);
        proof {
            assert(rest@ =~= s@.skip(pn as int));
        }
        String::from_str(rest)
    } else {
        String::from_str(s)
    }
}

/// `rel` placed under `root`, as [`spec_join_root`] says.
fn join_root(root: &str, rel: &str) -> (r: String)
    ensures
        r@ == spec_join_root(root@, rel@),
{
    let t = trim_leading_slashes(rel);
    let tlen = t.as_str().unicode_len();
    let rlen = root.unicode_len();
    if tlen == 0 {
        String::from_str(root)
    } else if rlen == 0 {
        t
    } else if root.get_char(rlen - 1) == '/' {
        let mut out = String::from_str(root);
        out.append(t.as_str());
        out
    } else {
        let mut out = String::from_str(root);
        out.append("/");
        out.append(t.as_str());
        proof {
            reveal_strlit("/");
            assert("/"@ =~= seq!['/']);
        }
        out
    }
}

/// Derive the document key for a canonical path: the path is made
/// relative to `root` when a root is given, `prefix` is put in front
/// when one is given, and a null byte terminates the key. This never
/// fails.
pub fn path_to_key(path: String, prefix: Option<String>, root: Option<String>) -> (r: Result<
    Vec<u8>,
    IrohError,
>)
    ensures
        r is Ok,
        r matches Ok(k) ==> k@ == encode_utf8(
            spec_path_to_key_chars(path@, spec_opt_str(prefix), spec_opt_str(root)),
        ) + seq![0u8],
{
    let rel: String = match &root {
        Some(rt) => strip_root(path.as_str(), rt.as_str()),
        None => path,
    };
    let keyed: String = match &prefix {
        Some(p) => {
            let mut out = p.clone();
            out.append(rel.as_str());
            out
        },
        None => rel,
    };
    let mut bytes = keyed.as_str().as_bytes_vec();
    bytes.push(0);
    proof {
        assert(bytes@ =~= encode_utf8(keyed@) + seq![0u8]);
    }
    Ok(bytes)
}

/// Translate a key derived by [`path_to_key`] back into a path: the
/// terminating null byte is dropped, the bytes must decode as UTF-8,
/// `prefix` is stripped when one is given and present, and the result
/// is placed under `root` when a root is given. Fails exactly when
/// the key's remaining bytes are not valid UTF-8.
pub fn key_to_path(key: Vec<u8>, prefix: Option<String>, root: Option<String>) -> (r: Result<
    String,
    IrohError,
>)
    ensures
        r is Ok <==> valid_utf8(spec_strip_key_terminator(key@)),
        r is Err ==> r == Err::<String, IrohError>(IrohError::InvalidKey),
        r matches Ok(p) ==> p@ == spec_key_to_path_chars(
            decode_utf8(spec_strip_key_terminator(key@)),
            spec_opt_str(prefix),
            spec_opt_str(root),
        ),
{
    let mut k = key;
    let n = k.len();
    if n > 0 && k[n - 1] == 0 {
        k.pop();
    }
    let s: String = match string_from_utf8(k) {
        Some(s) => s,
        None => {
            return Err(IrohError::InvalidKey);
        },
    };
    proof {
        encode_utf8_decode_utf8(s@);
    }
    let rel: String = match &prefix {
        Some(p) => strip_prefix_str(s.as_str(), p.as_str()),
        None => s,
    };
    let joined: String = match &root {
        Some(rt) => join_root(rt.as_str(), rel.as_str()),
        None => rel,
    };
    Ok(joined)
}

} // verus!
