//! Support types and decisions of the development web runner: its options,
//! the bindgen output it serves, the self-signed certificate data, the
//! port-picking rule and the snippet-path resolution. The file system, the
//! sockets and the server itself live outside the library.
use vstd::prelude::*;

use vstd::string::StringSliceAdditionalSpecFns;

verus! {

/// Options of the web runner, read from the environment by the caller.
#[derive(Clone, Debug)]
pub struct Options {
    pub title: String,
    pub address: String,
    pub directory: String,
    pub custom_index_html: Option<String>,
    pub https: bool,
    pub no_module: bool,
}

/// What the bindgen step produces and the server hands out: the generated
/// script, the module bytes, and the named snippet sources. Snippets and
/// local modules are association lists keyed by name.
#[derive(Debug)]
pub struct WasmBindgenOutput {
    pub js: String,
    pub wasm: Vec<u8>,
    pub snippets: Vec<(String, Vec<String>)>,
    pub local_modules: Vec<(String, String)>,
}

/// A self-signed certificate with its private key, both DER-encoded.
#[derive(Debug)]
pub struct Certificate {
    pub certificate: Vec<u8>,
    pub private_key: Vec<u8>,
}

/// The first index holding `true`, or `-1` if there is none.
pub open spec fn first_true(s: Seq<bool>) -> int
    decreases s.len(),
{
    if s.len() == 0 {
        -1
    } else if s[0] {
        0
    } else {
        let r = first_true(s.drop_first());
        if r == -1 {
            -1
        } else {
            r + 1
        }
    }
}

/// Pins down `first_true` from a scan.
proof fn lemma_first_true(s: Seq<bool>, idx: int, found: bool)
    requires
        found ==> 0 <= idx < s.len() && s[idx],
        forall|k: int| 0 <= k < idx ==> !s[k],
        !found ==> idx == s.len(),
    ensures
        found ==> first_true(s) == idx,
        !found ==> first_true(s) == -1,
    decreases s.len(),
{
    if s.len() == 0 {
    } else if s[0] {
    } else {
        assert(s.drop_first() =~= s.skip(1));
        lemma_first_true(s.drop_first(), idx - 1, found);
    }
}

/// Picks the first free port of a probed consecutive range: `free[k]`
/// says whether port `starting_at + k` was found free. Returns the first
/// free one, or nothing when the whole range is taken — the caller then
/// falls back to a system-assigned port.
pub fn pick_free_port(starting_at: u16, free: &Vec<bool>) -> (r: Option<u16>)
    requires
        starting_at as int + free@.len() <= 65536,
    ensures
        (first_true(free@) == -1) <==> r is None,
        first_true(free@) >= 0 ==> r == Some((starting_at + first_true(free@)) as u16),
{
    let mut k: usize = 0;
    while k < free.len()
        invariant
            k <= free@.len(),
            starting_at as int + free@.len() <= 65536,
            forall|j: int| 0 <= j < k ==> !free@[j],
        decreases free.len() - k,
    {
        if free[k] {
            proof {
                lemma_first_true(free@, k as int, true);
            }
            return Some(starting_at + (k as u16));
        }
        k = k + 1;
    }
    proof {
        lemma_first_true(free@, free@.len() as int, false);
    }
    None
}

/// The decimal value of a digit sequence, most significant first.
pub open spec fn dec_value(s: Seq<u8>) -> int
    decreases s.len(),
{
    if s.len() == 0 {
        0
    } else {
        dec_value(s.drop_last()) * 10 + (s.last() - 48)
    }
}

/// Every byte is an ASCII decimal digit.
pub open spec fn all_digits(s: Seq<u8>) -> bool {
    forall|i: int| 0 <= i < s.len() ==> 48 <= #[trigger] s[i] <= 57
}

/// A prefix of a digit sequence never exceeds its value.
proof fn lemma_dec_value_prefix(s: Seq<u8>, m: int)
    requires
        all_digits(s),
        0 <= m <= s.len(),
    ensures
        0 <= dec_value(s.take(m)) <= dec_value(s),
    decreases s.len() - m,
{
    if m == s.len() {
        assert(s.take(m) =~= s);
        lemma_dec_value_nonneg(s);
    } else {
        lemma_dec_value_prefix(s, m + 1);
        assert(s.take(m + 1).drop_last() =~= s.take(m));
        assert(dec_value(s.take(m + 1)) == dec_value(s.take(m)) * 10 + (s.take(m + 1).last()
            - 48));
        lemma_dec_value_nonneg(s.take(m));
        assert(dec_value(s.take(m)) <= dec_value(s.take(m)) * 10 + (s.take(m + 1).last() - 48))
            by (nonlinear_arith)
            requires
                dec_value(s.take(m)) >= 0,
                s.take(m + 1).last() >= 48,
        ;
    }
}

/// The decimal value of a digit sequence is never negative.
proof fn lemma_dec_value_nonneg(s: Seq<u8>)
    requires
        all_digits(s),
    ensures
        dec_value(s) >= 0,
    decreases s.len(),
{
    if s.len() > 0 {
        assert(all_digits(s.drop_last()));
        lemma_dec_value_nonneg(s.drop_last());
    }
}

/// Parses a decimal number from `bytes[from..to]`. Fails on an empty
/// range, on a byte that is no digit, and on a value above `usize::MAX`.
pub fn parse_usize(bytes: &[u8], from: usize, to: usize) -> (r: Option<usize>)
    requires
        from <= to <= bytes@.len(),
    ensures
        ({
            let digits = bytes@.subrange(from as int, to as int);
            if from == to || !all_digits(digits) || dec_value(digits) > usize::MAX {
                r is None
            } else {
                r == Some(dec_value(digits) as usize)
            }
        }),
{
    if from == to {
        return None;
    }
    let ghost digits = bytes@.subrange(from as int, to as int);
    let mut acc: usize = 0;
    let mut i: usize = from;
    while i < to
        invariant
            from <= i <= to <= bytes@.len(),
            digits == bytes@.subrange(from as int, to as int),
            all_digits(digits.take(i - from)),
            acc == dec_value(digits.take(i - from)),
        decreases to - i,
    {
        let b = bytes[i];
        if b < 48 || b > 57 {
            proof {
                assert(digits[i - from] == b);
            }
            return None;
        }
        let d: usize = (b - 48) as usize;
        if acc > (usize::MAX - d) / 10 {
            proof {
                assert(digits.take(i - from + 1).drop_last() =~= digits.take(i - from));
                assert(digits.take(i - from + 1).last() == b);
                assert(dec_value(digits.take(i - from + 1)) > usize::MAX) by (nonlinear_arith)
                    requires
                        dec_value(digits.take(i - from + 1)) == dec_value(digits.take(i - from))
                            * 10 + (b - 48),
                        acc == dec_value(digits.take(i - from)),
                        acc > (usize::MAX - (b - 48)) / 10,
                        48 <= b <= 57,
                ;
                if all_digits(digits) {
                    lemma_dec_value_prefix(digits, i - from + 1);
                }
            }
            return None;
        }
        proof {
            assert(acc * 10 + d <= usize::MAX) by (nonlinear_arith)
                requires
                    0 <= acc <= (usize::MAX - d) / 10,
                    0 <= d <= 9,
            ;
            assert(digits.take(i - from + 1).drop_last() =~= digits.take(i - from));
            assert(digits.take(i - from + 1).last() == b);
        }
        acc = acc * 10 + d;
        i = i + 1;
    }
    proof {
        assert(digits.take(to - from) =~= digits);
    }
    Some(acc)
}

/// The bytes of the word `inline`.
pub open spec fn inline_bytes() -> Seq<u8> {
    seq![105u8, 110u8, 108u8, 105u8, 110u8, 101u8]
}

/// The bytes of the suffix `.js`.
pub open spec fn js_bytes() -> Seq<u8> {
    seq![46u8, 106u8, 115u8]
}

/// The first index of byte `b` in `s`, or `-1`.
pub open spec fn first_eq(s: Seq<u8>, b: u8) -> int
    decreases s.len(),
{
    if s.len() == 0 {
        -1
    } else if s[0] == b {
        0
    } else {
        let r = first_eq(s.drop_first(), b);
        if r == -1 {
            -1
        } else {
            r + 1
        }
    }
}

/// Pins down `first_eq` from a scan.
proof fn lemma_first_eq(s: Seq<u8>, b: u8, idx: int, found: bool)
    requires
        found ==> 0 <= idx < s.len() && s[idx] == b,
        forall|k: int| 0 <= k < idx ==> s[k] != b,
        !found ==> idx == s.len(),
    ensures
        found ==> first_eq(s, b) == idx,
        !found ==> first_eq(s, b) == -1,
    decreases s.len(),
{
    if s.len() == 0 {
    } else if s[0] == b {
    } else {
        assert(s.drop_first() =~= s.skip(1));
        lemma_first_eq(s.drop_first(), b, idx - 1, found);
    }
}

/// The first local module whose name encodes to `pb`, or `-1`.
pub open spec fn module_match(ms: Seq<(String, String)>, pb: Seq<u8>) -> int
    decreases ms.len(),
{
    if ms.len() == 0 {
        -1
    } else if crate::wasm_server_runner::string_bytes(ms[0].0) == pb {
        0
    } else {
        let r = module_match(ms.drop_first(), pb);
        if r == -1 {
            -1
        } else {
            r + 1
        }
    }
}

/// The first snippet family whose name encodes to `nb`, or `-1`.
pub open spec fn snippet_match(ss: Seq<(String, Vec<String>)>, nb: Seq<u8>) -> int
    decreases ss.len(),
{
    if ss.len() == 0 {
        -1
    } else if crate::wasm_server_runner::string_bytes(ss[0].0) == nb {
        0
    } else {
        let r = snippet_match(ss.drop_first(), nb);
        if r == -1 {
            -1
        } else {
            r + 1
        }
    }
}

/// The UTF-8 bytes of a string.
pub open spec fn string_bytes(s: String) -> Seq<u8> {
    vstd::utf8::encode_utf8(s@)
}

/// Pins down `module_match` from a scan.
proof fn lemma_module_match(ms: Seq<(String, String)>, pb: Seq<u8>, idx: int, found: bool)
    requires
        found ==> 0 <= idx < ms.len() && string_bytes(ms[idx].0) == pb,
        forall|k: int| 0 <= k < idx ==> string_bytes(ms[k].0) != pb,
        !found ==> idx == ms.len(),
    ensures
        found ==> module_match(ms, pb) == idx,
        !found ==> module_match(ms, pb) == -1,
    decreases ms.len(),
{
    if ms.len() == 0 {
    } else if string_bytes(ms[0].0) == pb {
    } else {
        assert(ms.drop_first() =~= ms.skip(1));
        lemma_module_match(ms.drop_first(), pb, idx - 1, found);
    }
}

/// Pins down `snippet_match` from a scan.
proof fn lemma_snippet_match(ss: Seq<(String, Vec<String>)>, nb: Seq<u8>, idx: int, found: bool)
    requires
        found ==> 0 <= idx < ss.len() && string_bytes(ss[idx].0) == nb,
        forall|k: int| 0 <= k < idx ==> string_bytes(ss[k].0) != nb,
        !found ==> idx == ss.len(),
    ensures
        found ==> snippet_match(ss, nb) == idx,
        !found ==> snippet_match(ss, nb) == -1,
    decreases ss.len(),
{
    if ss.len() == 0 {
    } else if string_bytes(ss[0].0) == nb {
    } else {
        assert(ss.drop_first() =~= ss.skip(1));
        lemma_snippet_match(ss.drop_first(), nb, idx - 1, found);
    }
}

/// Returns whether two byte slices hold the same bytes.
fn bytes_eq(a: &[u8], b: &[u8]) -> (r: bool)
    ensures
        r == (a@ == b@),
{
    if a.len() != b.len() {
        proof {
            assert(a@.len() != b@.len());
        }
        return false;
    }
    let mut i: usize = 0;
    while i < a.len()
        invariant
            i <= a@.len(),
            a@.len() == b@.len(),
            forall|k: int| 0 <= k < i ==> a@[k] == b@[k],
        decreases a.len() - i,
    {
        if a[i] != b[i] {
            return false;
        }
        i = i + 1;
    }
    proof {
        assert(a@ =~= b@);
    }
    true
}

/// Returns whether `a[from..to]` holds the same bytes as `b`.
fn range_eq(a: &[u8], from: usize, to: usize, b: &[u8]) -> (r: bool)
    requires
        from <= to <= a@.len(),
    ensures
        r == (a@.subrange(from as int, to as int) == b@),
{
    if to - from != b.len() {
        proof {
            assert(a@.subrange(from as int, to as int).len() != b@.len());
        }
        return false;
    }
    let mut i: usize = 0;
    while i < b.len()
        invariant
            from <= to <= a@.len(),
            i <= b@.len(),
            to - from == b@.len(),
            forall|k: int| 0 <= k < i ==> a@[from + k] == b@[k],
        decreases b.len() - i,
    {
        if a[from + i] != b[i] {
            proof {
                assert(a@.subrange(from as int, to as int)[i as int] != b@[i as int]);
            }
            return false;
        }
        i = i + 1;
    }
    proof {
        assert(a@.subrange(from as int, to as int) =~= b@);
    }
    true
}

/// Resolves a snippet path of the form `name/inlineN.js`: a local module
/// is served by its full path; otherwise the part before the first slash
/// names a snippet family and `N` indexes into it. Each malformed shape is
/// refused with the matching message.
#[verifier::loop_isolation(false)]
pub fn get_snippet_source(
    path: &str,
    local_modules: &Vec<(String, String)>,
    snippets: &Vec<(String, Vec<String>)>,
) -> (r: Result<String, &'static str>)
    ensures
        ({
            let pb = path.spec_bytes();
            let mi = module_match(local_modules@, pb);
            if mi >= 0 {
                r matches Ok(src) && src@ == local_modules@[mi].1@
            } else {
                let slash = first_eq(pb, 47);
                if slash < 0 {
                    r matches Err(e) && e@ == "invalid snippet path"@
                } else {
                    let rs = slash + 1;
                    let shape_ok = {
                        &&& pb.len() - rs >= 9
                        &&& pb.subrange(rs, rs + 6) == inline_bytes()
                        &&& pb.subrange(pb.len() - 3, pb.len() as int) == js_bytes()
                    };
                    if !shape_ok {
                        r matches Err(e) && e@ == "invalid snippet name in path"@
                    } else {
                        let digits = pb.subrange(rs + 6, pb.len() - 3);
                        if digits.len() == 0 || !all_digits(digits) || dec_value(digits)
                            > usize::MAX {
                            r matches Err(e) && e@ == "invalid index"@
                        } else {
                            let si = snippet_match(snippets@, pb.take(slash));
                            if si < 0 {
                                r matches Err(e) && e@ == "invalid snippet name"@
                            } else if dec_value(digits) < snippets@[si].1@.len() {
                                r matches Ok(src) && src@ == snippets@[si].1@[dec_value(
                                    digits,
                                )]@
                            } else {
                                r matches Err(e) && e@ == "snippet index out of bounds"@
                            }
                        }
                    }
                }
            }
        }),
{
    let pb = path.as_bytes();
    let mut m: usize = 0;
    while m < local_modules.len()
        invariant
            m <= local_modules@.len(),
            pb@ == path.spec_bytes(),
            forall|k: int|
                0 <= k < m ==> string_bytes((#[trigger] local_modules@[k]).0) != pb@,
        decreases local_modules.len() - m,
    {
        if bytes_eq(local_modules[m].0.as_str().as_bytes(), pb) {
            proof {
                lemma_module_match(local_modules@, pb@, m as int, true);
            }
            return Ok(local_modules[m].1.clone());
        }
        m = m + 1;
    }
    proof {
        lemma_module_match(local_modules@, pb@, local_modules@.len() as int, false);
    }
    let mut slash: usize = 0;
    let mut found: bool = false;
    while slash < pb.len() && !found
        invariant
            slash <= pb@.len(),
            pb@ == path.spec_bytes(),
            forall|k: int| 0 <= k < slash ==> pb@[k] != 47,
            found ==> slash < pb@.len() && pb@[slash as int] == 47,
        decreases pb.len() - slash + (if found { 0int } else { 1int }),
    {
        if pb[slash] == 47 {
            found = true;
        } else {
            slash = slash + 1;
        }
    }
    proof {
        lemma_first_eq(pb@, 47, slash as int, found);
    }
    if !found {
        return Err("invalid snippet path");
    }
    let rs = slash + 1;
    let n = pb.len();
    let shape_ok = n - rs >= 9 && pb[rs] == 105 && pb[rs + 1] == 110 && pb[rs + 2] == 108 && pb[rs
        + 3] == 105 && pb[rs + 4] == 110 && pb[rs + 5] == 101 && pb[n - 3] == 46 && pb[n - 2]
        == 106 && pb[n - 1] == 115;
    proof {
        let rsi = rs as int;
        let ni = pb@.len() as int;
        if shape_ok {
            assert(pb@.subrange(rsi, rsi + 6) =~= inline_bytes());
            assert(pb@.subrange(ni - 3, ni) =~= js_bytes());
        } else if ni - rsi >= 9 && pb@.subrange(rsi, rsi + 6) == inline_bytes() && pb@.subrange(
            ni - 3,
            ni,
        ) == js_bytes() {
            assert(pb@[rsi] == inline_bytes()[0]);
            assert(pb@[rsi + 1] == inline_bytes()[1]);
            assert(pb@[rsi + 2] == inline_bytes()[2]);
            assert(pb@[rsi + 3] == inline_bytes()[3]);
            assert(pb@[rsi + 4] == inline_bytes()[4]);
            assert(pb@[rsi + 5] == inline_bytes()[5]);
            assert(pb@[ni - 3] == js_bytes()[0]);
            assert(pb@[ni - 2] == js_bytes()[1]);
            assert(pb@[ni - 1] == js_bytes()[2]);
        }
    }
    if !shape_ok {
        return Err("invalid snippet name in path");
    }
    let idx = match parse_usize(pb, rs + 6, n - 3) {
        Some(v) => v,
        None => {
            return Err("invalid index");
        },
    };
    proof {
        let digits = pb@.subrange(rs as int + 6, pb@.len() - 3);
        if all_digits(digits) {
            lemma_dec_value_nonneg(digits);
        }
    }
    let mut si: usize = 0;
    while si < snippets.len()
        invariant
            si <= snippets@.len(),
            pb@ == path.spec_bytes(),
            slash < pb@.len(),
            forall|k: int|
                0 <= k < si ==> string_bytes((#[trigger] snippets@[k]).0) != pb@.take(
                    slash as int,
                ),
        decreases snippets.len() - si,
    {
        if range_eq(pb, 0, slash, snippets[si].0.as_str().as_bytes()) {
            proof {
                lemma_snippet_match(snippets@, pb@.take(slash as int), si as int, true);
                assert(pb@.subrange(0, slash as int) =~= pb@.take(slash as int));
            }
            let entries = &snippets[si].1;
            if idx < entries.len() {
                return Ok(entries[idx].clone());
            } else {
                return Err("snippet index out of bounds");
            }
        }
        proof {
            assert(pb@.subrange(0, slash as int) =~= pb@.take(slash as int));
        }
        si = si + 1;
    }
    proof {
        lemma_snippet_match(snippets@, pb@.take(slash as int), snippets@.len() as int, false);
    }
    Err("invalid snippet name")
}

} // verus!
