//! Workspace management: a deterministic cache key for each canonicalized
//! source directory, and the copy-or-reuse decision for the working
//! directory derived from it.

use vstd::prelude::*;
use vstd::string::StringExecFns;

verus! {

/// The SHA-256 digest of a byte sequence. The digest is a function of the
/// input alone; beyond its length nothing about it is stated here.
pub uninterp spec fn sha256_of(data: Seq<u8>) -> Seq<u8>;

/// Relies on sha2::Sha256 (through digest::Digest::digest): the digest is
/// 32 bytes and depends on the input bytes alone.
#[verifier::external_body]
fn sha256(data: &[u8]) -> (r: Vec<u8>)
    ensures
        r@ == sha256_of(data@),
        r@.len() == 32,
{
    <sha2::Sha256 as sha2::Digest>::digest(data).to_vec()
}

/// Relies on String::push: appends exactly the one character.
#[verifier::external_body]
fn push_char(s: &mut String, c: char)
    ensures
        final(s)@ == old(s)@ + seq![c],
{
    s.push(c);
}

/// The lower-case hex digit for a value below 16.
pub open spec fn hex_digit(n: u8) -> char
    recommends
        n < 16,
{
    if n < 10 {
        (n + 0x30) as char
    } else {
        (n + 0x57) as char
    }
}

/// The lower-case hex encoding of a byte sequence: two digits per byte,
/// high nibble first.
pub open spec fn hex_of(data: Seq<u8>) -> Seq<char>
    decreases data.len(),
{
    if data.len() == 0 {
        Seq::empty()
    } else {
        seq![hex_digit(data[0] / 16), hex_digit(data[0] % 16)] + hex_of(data.drop_first())
    }
}

proof fn lemma_hex_of_concat(a: Seq<u8>, b: Seq<u8>)
    ensures
        hex_of(a + b) == hex_of(a) + hex_of(b),
    decreases a.len(),
{
    if a.len() == 0 {
        assert(a + b =~= b);
        assert(hex_of(a) + hex_of(b) =~= hex_of(b));
    } else {
        lemma_hex_of_concat(a.drop_first(), b);
        assert((a + b).drop_first() =~= a.drop_first() + b);
        assert(hex_of(a + b) =~= hex_of(a) + hex_of(b));
    }
}

/// Hex-encode a byte sequence.
pub fn to_hex(data: &[u8]) -> (r: String)
    ensures
        r@ == hex_of(data@),
{
    let mut r = String::new();
    let mut i: usize = 0;
    while i < data.len()
        invariant
            i <= data@.len(),
            r@ == hex_of(data@.take(i as int)),
        decreases data@.len() - i,
    {
        let b = data[i];
        push_char(&mut r, (b / 16 + 0x30 + if b / 16 < 10 { 0 } else { 0x27 }) as char);
        push_char(&mut r, (b % 16 + 0x30 + if b % 16 < 10 { 0 } else { 0x27 }) as char);
        proof {
            let x = data@[i as int];
            lemma_hex_of_concat(data@.take(i as int), seq![x]);
            assert(data@.take(i + 1) =~= data@.take(i as int) + seq![x]);
            assert(seq![x].drop_first() =~= Seq::<u8>::empty());
            assert(hex_of(Seq::<u8>::empty()) =~= Seq::<char>::empty());
            assert(hex_of(seq![x]) =~= seq![hex_digit(x / 16), hex_digit(x % 16)]);
        }
        i += 1;
    }
    proof {
        assert(data@.take(data@.len() as int) =~= data@);
    }
    r
}

/// The cache key of a canonicalized source directory path, given as the
/// bytes of that path: the hex-encoded SHA-256 digest of those bytes.
pub open spec fn cache_key_of(path: Seq<u8>) -> Seq<char> {
    hex_of(sha256_of(path))
}

/// Compute the cache key for a canonicalized source directory path.
pub fn cache_key(path: &[u8]) -> (r: String)
    ensures
        r@ == cache_key_of(path@),
        r@.len() == 64,
{
    let digest = sha256(path);
    proof {
        lemma_hex_of_len(digest@);
    }
    to_hex(digest.as_slice())
}

proof fn lemma_hex_of_len(data: Seq<u8>)
    ensures
        hex_of(data).len() == 2 * data.len(),
    decreases data.len(),
{
    if data.len() > 0 {
        lemma_hex_of_len(data.drop_first());
    }
}

/// The working directory for a source path, relative to the system
/// temporary root: the tool's namespace directory, then the cache key.
pub open spec fn work_dir_suffix_of(path: Seq<u8>) -> Seq<char> {
    "atar/"@ + cache_key_of(path)
}

/// Compute the working directory path relative to the system temporary
/// root.
pub fn work_dir_suffix(path: &[u8]) -> (r: String)
    ensures
        r@ == work_dir_suffix_of(path@),
{
    let key = cache_key(path);
    String::from_str("atar/").concat(key.as_str())
}

/// What a run of the workspace manager does to the working directory:
/// copy the whole source tree into it, or reuse it as it stands.
#[derive(Clone, Copy, PartialEq, Eq, Structural, Debug)]
pub enum PrepareStep {
    CopyTree,
    Reuse,
}

/// The copy-or-reuse decision: the source tree is copied only when the
/// working directory does not exist yet; an existing directory is reused
/// as-is, with no diffing and no refresh.
pub open spec fn prepare_step_of(work_dir_exists: bool) -> PrepareStep {
    if work_dir_exists {
        PrepareStep::Reuse
    } else {
        PrepareStep::CopyTree
    }
}

/// Decide whether preparing the workspace copies the source tree or
/// reuses the working directory.
pub fn prepare_step(work_dir_exists: bool) -> (r: PrepareStep)
    ensures
        r == prepare_step_of(work_dir_exists),
{
    if work_dir_exists {
        PrepareStep::Reuse
    } else {
        PrepareStep::CopyTree
    }
}

/// Whether the working directory exists after a successful prepare: it
/// does in every case, since a prepare either found it or copied the
/// source tree into it.
pub open spec fn exists_after_prepare(work_dir_exists: bool) -> bool {
    true
}

/// How many copies a prepare step performs.
pub open spec fn copies_of(s: PrepareStep) -> int {
    match s {
        PrepareStep::CopyTree => 1,
        PrepareStep::Reuse => 0,
    }
}

/// Law: preparing the same source twice in sequence copies at most once.
/// The working directory is determined by the canonicalized source path
/// alone (`work_dir_suffix_of` is a function of the path), and after the
/// first prepare the directory exists, so the second run reuses it.
pub proof fn lemma_prepare_idempotent(work_dir_exists: bool)
    ensures
        copies_of(prepare_step_of(work_dir_exists)) + copies_of(
            prepare_step_of(exists_after_prepare(work_dir_exists)),
        ) <= 1,
        prepare_step_of(exists_after_prepare(work_dir_exists)) == PrepareStep::Reuse,
{
}

proof fn lemma_hex_digit_injective(a: u8, b: u8)
    requires
        a < 16,
        b < 16,
        hex_digit(a) == hex_digit(b),
    ensures
        a == b,
{
    assert(hex_digit(a) as u8 == hex_digit(b) as u8);
}

proof fn lemma_hex_of_injective(a: Seq<u8>, b: Seq<u8>)
    requires
        hex_of(a) == hex_of(b),
    ensures
        a == b,
    decreases a.len(),
{
    lemma_hex_of_len(a);
    lemma_hex_of_len(b);
    if a.len() == 0 {
        assert(a =~= b);
    } else {
        assert(hex_of(a) =~= seq![hex_digit(a[0] / 16), hex_digit(a[0] % 16)] + hex_of(
            a.drop_first(),
        ));
        assert(hex_of(b) =~= seq![hex_digit(b[0] / 16), hex_digit(b[0] % 16)] + hex_of(
            b.drop_first(),
        ));
        assert(hex_of(a)[0] == hex_digit(a[0] / 16) && hex_of(a)[1] == hex_digit(a[0] % 16));
        assert(hex_of(b)[0] == hex_digit(b[0] / 16) && hex_of(b)[1] == hex_digit(b[0] % 16));
        assert(a[0] / 16 < 16 && a[0] % 16 < 16 && b[0] / 16 < 16 && b[0] % 16 < 16);
        lemma_hex_digit_injective(a[0] / 16, b[0] / 16);
        lemma_hex_digit_injective(a[0] % 16, b[0] % 16);
        assert(a[0] == b[0]);
        assert(hex_of(a).skip(2) =~= hex_of(a.drop_first()));
        assert(hex_of(b).skip(2) =~= hex_of(b.drop_first()));
        lemma_hex_of_injective(a.drop_first(), b.drop_first());
        assert(a =~= seq![a[0]] + a.drop_first());
        assert(b =~= seq![b[0]] + b.drop_first());
    }
}

/// Law: two distinct canonicalized source paths receive distinct cache
/// keys, and so distinct working directories, unless their SHA-256
/// digests collide: equal cache keys force equal digests, because hex
/// encoding is injective.
pub proof fn lemma_equal_cache_keys_need_digest_collision(p1: Seq<u8>, p2: Seq<u8>)
    requires
        cache_key_of(p1) == cache_key_of(p2),
    ensures
        sha256_of(p1) == sha256_of(p2),
{
    lemma_hex_of_injective(sha256_of(p1), sha256_of(p2));
}

/// Law: two source paths share a working directory only when their
/// SHA-256 digests collide.
pub proof fn lemma_equal_work_dirs_need_digest_collision(p1: Seq<u8>, p2: Seq<u8>)
    requires
        work_dir_suffix_of(p1) == work_dir_suffix_of(p2),
    ensures
        sha256_of(p1) == sha256_of(p2),
{
    let ns = "atar/"@;
    assert(work_dir_suffix_of(p1).len() == ns.len() + cache_key_of(p1).len());
    assert(work_dir_suffix_of(p2).len() == ns.len() + cache_key_of(p2).len());
    assert(cache_key_of(p1).len() == cache_key_of(p2).len());
    assert forall|i: int| 0 <= i < cache_key_of(p1).len() implies cache_key_of(p1)[i]
        == cache_key_of(p2)[i] by {
        assert(work_dir_suffix_of(p1)[ns.len() + i] == cache_key_of(p1)[i]);
        assert(work_dir_suffix_of(p2)[ns.len() + i] == cache_key_of(p2)[i]);
    }
    assert(cache_key_of(p1) =~= cache_key_of(p2));
    lemma_equal_cache_keys_need_digest_collision(p1, p2);
}

} // verus!
