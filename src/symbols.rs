use vstd::prelude::*;

verus! {

/// `needle` stands in `hay` from position `i` on.
pub open spec fn occurs_at(hay: Seq<u8>, needle: Seq<u8>, i: int) -> bool {
    &&& 0 <= i
    &&& i + needle.len() <= hay.len()
    &&& hay.subrange(i, i + needle.len()) == needle
}

/// `needle` stands somewhere in `hay`.
pub open spec fn occurs_in(hay: Seq<u8>, needle: Seq<u8>) -> bool {
    exists|i: int| occurs_at(hay, needle, i)
}

/// The name under which a plugin exports the entry point that builds its
/// route plugin: the ASCII bytes of `_arq_component_constructor`.
pub open spec fn spec_component_symbol() -> Seq<u8> {
    seq![
        95u8, 97, 114, 113, 95, 99, 111, 109, 112, 111, 110, 101, 110,
        116, 95, 99, 111, 110, 115, 116, 114, 117, 99, 116, 111, 114,
    ]
}

/// The name under which a plugin exports the entry point that builds its
/// filter plugin: the ASCII bytes of `_arq_middleware_constructor`.
pub open spec fn spec_middleware_symbol() -> Seq<u8> {
    seq![
        95u8, 97, 114, 113, 95, 109, 105, 100, 100, 108, 101, 119, 97,
        114, 101, 95, 99, 111, 110, 115, 116, 114, 117, 99, 116, 111,
        114,
    ]
}

/// The name under which a plugin exports, as a `u32`, the interface version
/// it was built against: the ASCII bytes of `_arq_abi_version`.
pub open spec fn spec_abi_symbol() -> Seq<u8> {
    seq![
        95u8, 97, 114, 113, 95, 97, 98, 105, 95, 118, 101, 114, 115,
        105, 111, 110,
    ]
}

/// The registration symbol of route plugins, as bytes.
pub fn component_symbol() -> (r: Vec<u8>)
    ensures
        r@ == spec_component_symbol(),
{
    let r: Vec<u8> = vec![
        95u8, 97, 114, 113, 95, 99, 111, 109, 112, 111, 110, 101, 110,
        116, 95, 99, 111, 110, 115, 116, 114, 117, 99, 116, 111, 114,
    ];
    assert(r@ =~= spec_component_symbol());
    r
}

/// The registration symbol of filter plugins, as bytes.
pub fn middleware_symbol() -> (r: Vec<u8>)
    ensures
        r@ == spec_middleware_symbol(),
{
    let r: Vec<u8> = vec![
        95u8, 97, 114, 113, 95, 109, 105, 100, 100, 108, 101, 119, 97,
        114, 101, 95, 99, 111, 110, 115, 116, 114, 117, 99, 116, 111,
        114,
    ];
    assert(r@ =~= spec_middleware_symbol());
    r
}

/// The symbol of the declared interface version, as bytes.
pub fn abi_symbol() -> (r: Vec<u8>)
    ensures
        r@ == spec_abi_symbol(),
{
    let r: Vec<u8> = vec![
        95u8, 97, 114, 113, 95, 97, 98, 105, 95, 118, 101, 114, 115,
        105, 111, 110,
    ];
    assert(r@ =~= spec_abi_symbol());
    r
}

/// Whether `needle` stands at position `i` of `hay`.
fn matches_at(hay: &[u8], needle: &[u8], i: usize) -> (r: bool)
    requires
        i + needle@.len() <= hay@.len(),
    ensures
        r == occurs_at(hay@, needle@, i as int),
{
    let n = needle.len();
    let h = hay.len();
    let mut j: usize = 0;
    while j < n
        invariant
            n == needle@.len(),
            h == hay@.len(),
            i + n <= hay@.len(),
            j <= n,
            forall|k: int| 0 <= k < j ==> hay@[i + k] == needle@[k],
        decreases n - j,
    {
        if hay[i + j] != needle[j] {
            assert(hay@.subrange(i as int, i + n)[j as int] != needle@[j as int]);
            return false;
        }
        j = j + 1;
    }
    assert(hay@.subrange(i as int, i + n) =~= needle@);
    true
}

/// Whether `needle` stands anywhere in `hay`.
pub fn find_bytes(hay: &[u8], needle: &[u8]) -> (r: bool)
    ensures
        r == occurs_in(hay@, needle@),
{
    if needle.len() > hay.len() {
        assert forall|i: int| !occurs_at(hay@, needle@, i) by {}
        return false;
    }
    let last = hay.len() - needle.len();
    let mut i: usize = 0;
    loop
        invariant
            last + needle@.len() == hay@.len(),
            i <= last,
            forall|k: int| 0 <= k < i ==> !occurs_at(hay@, needle@, k),
        decreases last - i,
    {
        if matches_at(hay, needle, i) {
            return true;
        }
        if i == last {
            assert forall|k: int| !occurs_at(hay@, needle@, k) by {}
            return false;
        }
        i = i + 1;
    }
}

} // verus!
