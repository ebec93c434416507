//! Malware signatures and the contiguous byte-run scan over payloads.
use vstd::prelude::*;

verus! {

/// `sig` occurs in `payload` as a contiguous run of bytes starting at `i`.
pub open spec fn occurs_at(payload: Seq<u8>, sig: Seq<u8>, i: int) -> bool {
    0 <= i && i + sig.len() <= payload.len() && payload.subrange(i, i + sig.len()) == sig
}

/// `sig` occurs somewhere in `payload` as a contiguous run of bytes.
pub open spec fn contains_run(payload: Seq<u8>, sig: Seq<u8>) -> bool {
    exists|i: int| occurs_at(payload, sig, i)
}

/// Some signature of `sigs` occurs in `payload`.
pub open spec fn matches_any(payload: Seq<u8>, sigs: Seq<Vec<u8>>) -> bool {
    exists|k: int| 0 <= k < sigs.len() && contains_run(payload, #[trigger] sigs[k]@)
}

/// The byte sequences that the sensor treats as evidence of malicious content.
pub open spec fn default_signatures() -> Seq<Seq<u8>> {
    seq![
        seq![0x4Du8, 0x5A],
        seq![0x7Fu8, 0x45, 0x4C, 0x46],
        seq![0x68u8, 0x74, 0x74, 0x70, 0x3A, 0x2F, 0x2F],
        seq![0x77u8, 0x73, 0x32, 0x5F],
        seq![0x2Eu8, 0x65, 0x6E, 0x63, 0x72, 0x79, 0x70, 0x74],
        seq![0x2Eu8, 0x6C, 0x6F, 0x63, 0x6B, 0x65, 0x64],
        seq![0x43u8, 0x4D, 0x44, 0x3A],
        seq![0x42u8, 0x4F, 0x54, 0x3A],
    ]
}

/// The built-in signature set: DOS and ELF executable headers, an embedded
/// URL scheme, WinSock call names, ransomware file suffixes and botnet
/// command prefixes.
pub fn load_malware_signatures() -> (r: Vec<Vec<u8>>)
    ensures
        r@.len() == default_signatures().len(),
        forall|k: int| 0 <= k < r@.len() ==> #[trigger] r@[k]@ == default_signatures()[k],
{
    let r = vec![
        // DOS "MZ" executable header
        vec![0x4Du8, 0x5A],
        // ELF header
        vec![0x7Fu8, 0x45, 0x4C, 0x46],
        // "http://"
        vec![0x68u8, 0x74, 0x74, 0x70, 0x3A, 0x2F, 0x2F],
        // "ws2_", WinSock API names
        vec![0x77u8, 0x73, 0x32, 0x5F],
        // ".encrypt"
        vec![0x2Eu8, 0x65, 0x6E, 0x63, 0x72, 0x79, 0x70, 0x74],
        // ".locked"
        vec![0x2Eu8, 0x6C, 0x6F, 0x63, 0x6B, 0x65, 0x64],
        // "CMD:"
        vec![0x43u8, 0x4D, 0x44, 0x3A],
        // "BOT:"
        vec![0x42u8, 0x4F, 0x54, 0x3A],
    ];
    assert(r@[0]@ =~= default_signatures()[0]);
    assert(r@[1]@ =~= default_signatures()[1]);
    assert(r@[2]@ =~= default_signatures()[2]);
    assert(r@[3]@ =~= default_signatures()[3]);
    assert(r@[4]@ =~= default_signatures()[4]);
    assert(r@[5]@ =~= default_signatures()[5]);
    assert(r@[6]@ =~= default_signatures()[6]);
    assert(r@[7]@ =~= default_signatures()[7]);
    r
}

/// Whether `sig` occurs in `payload` at position `i`.
fn run_at(payload: &[u8], sig: &Vec<u8>, i: usize) -> (r: bool)
    requires
        i + sig@.len() <= payload@.len(),
    ensures
        r == occurs_at(payload@, sig@, i as int),
{
    let n = payload.len();
    let mut j: usize = 0;
    while j < sig.len()
        invariant
            n == payload@.len(),
            i + sig@.len() <= payload@.len(),
            j <= sig@.len(),
            forall|t: int| 0 <= t < j ==> payload@[i + t] == sig@[t],
        decreases sig@.len() - j,
    {
        if payload[i + j] != sig[j] {
            assert(payload@.subrange(i as int, i + sig@.len())[j as int] != sig@[j as int]);
            return false;
        }
        j = j + 1;
    }
    assert(payload@.subrange(i as int, i + sig@.len()) =~= sig@);
    true
}

/// Whether `sig` occurs in `payload` as a contiguous run of bytes.
pub fn contains_signature(payload: &[u8], sig: &Vec<u8>) -> (r: bool)
    ensures
        r == contains_run(payload@, sig@),
{
    if sig.len() > payload.len() {
        return false;
    }
    let last = payload.len() - sig.len();
    let mut i: usize = 0;
    loop
        invariant
            i <= last,
            last + sig@.len() == payload@.len(),
            forall|t: int| 0 <= t < i ==> !occurs_at(payload@, sig@, t),
        decreases last - i,
    {
        if run_at(payload, sig, i) {
            return true;
        }
        if i == last {
            assert forall|t: int| !occurs_at(payload@, sig@, t) by {
                if 0 <= t && t + sig@.len() <= payload@.len() {
                    assert(t <= last);
                }
            }
            return false;
        }
        i = i + 1;
    }
}

/// Whether any signature of `sigs` occurs in `payload`.
pub fn scan_payload(payload: &[u8], sigs: &Vec<Vec<u8>>) -> (r: bool)
    ensures
        r == matches_any(payload@, sigs@),
{
    let mut k: usize = 0;
    while k < sigs.len()
        invariant
            k <= sigs@.len(),
            forall|t: int| 0 <= t < k ==> !contains_run(payload@, #[trigger] sigs@[t]@),
        decreases sigs@.len() - k,
    {
        if contains_signature(payload, &sigs[k]) {
            return true;
        }
        k = k + 1;
    }
    false
}

/// A payload shorter than a signature cannot hold it, so a payload one byte
/// short of a signature gives no match.
pub proof fn lemma_short_payload_no_match(payload: Seq<u8>, sig: Seq<u8>)
    requires
        payload.len() < sig.len(),
    ensures
        !contains_run(payload, sig),
{
}

} // verus!
