use vstd::prelude::*;
use vstd::std_specs::iter::IteratorSpec;

verus! {

/// What `str::to_lowercase` makes of a string.
pub uninterp spec fn lower_of(s: Seq<char>) -> Seq<char>;

/// Relies on `str::to_lowercase`: the result depends on the characters alone.
#[verifier::external_body]
fn lowercase(s: &str) -> (r: String)
    ensures
        r@ == lower_of(s@),
{
    s.to_lowercase()
}

/// `needle` occurs in `hay` as a contiguous run.
pub open spec fn seq_contains(hay: Seq<char>, needle: Seq<char>) -> bool {
    exists|i: int| 0 <= i <= hay.len() - needle.len() && #[trigger] hay.subrange(i, i + needle.len()) == needle
}

/// The characters of a string, in order.
pub fn chars_of(s: &str) -> (r: Vec<char>)
    ensures
        r@ == s@,
{
    broadcast use vstd::string::axiom_spec_iter, vstd::string::next_postcondition;

    let mut it = s.chars();
    let mut v: Vec<char> = Vec::new();
    loop
        invariant
            v@ + it.remaining() == s@,
            it.obeys_prophetic_iter_laws(),
            it.decrease() is Some,
        ensures
            v@ == s@,
        decreases it.decrease()->0,
    {
        let ghost before = it.remaining();
        match it.next() {
            Some(c) => {
                v.push(c);
                assert(v@ + it.remaining() =~= s@) by {
                    assert(before =~= seq![c] + it.remaining());
                }
            },
            None => {
                assert(v@ =~= s@);
                break;
            },
        }
    }
    v
}

fn run_at(hay: &Vec<char>, needle: &Vec<char>, i: usize) -> (r: bool)
    requires
        i + needle@.len() <= hay@.len(),
    ensures
        r == (hay@.subrange(i as int, i + needle@.len()) == needle@),
{
    let hay_len = hay.len();
    let mut k: usize = 0;
    while k < needle.len()
        invariant
            k <= needle@.len(),
            hay_len == hay@.len(),
            i + needle@.len() <= hay@.len(),
            hay@.subrange(i as int, i + k) =~= needle@.take(k as int),
        decreases needle@.len() - k,
    {
        if hay[i + k] != needle[k] {
            assert(hay@.subrange(i as int, i + needle@.len())[k as int] != needle@[k as int]);
            return false;
        }
        k = k + 1;
        assert(hay@.subrange(i as int, i + k) =~= needle@.take(k as int));
    }
    assert(needle@.take(k as int) =~= needle@);
    true
}

/// Whether `needle` occurs in `hay`, on the characters as given.
pub fn contains_folded(hay: &str, needle: &str) -> (r: bool)
    ensures
        r == seq_contains(hay@, needle@),
{
    let h = chars_of(hay);
    let n = chars_of(needle);
    if n.len() > h.len() {
        return false;
    }
    if n.len() == 0 {
        assert(hay@.subrange(0, 0 + needle@.len() as int) =~= needle@);
        return true;
    }
    let h_len = h.len();
    let last = h_len - n.len();
    let mut i: usize = 0;
    while i <= last
        invariant
            h_len == h@.len(),
            n@.len() > 0,
            last == h@.len() - n@.len(),
            h@ == hay@,
            n@ == needle@,
            n@.len() <= h@.len(),
            i <= h@.len() - n@.len() + 1,
            forall|j: int| 0 <= j < i ==> #[trigger] h@.subrange(j, j + n@.len()) != n@,
        decreases h@.len() - n@.len() + 1 - i,
    {
        if run_at(&h, &n, i) {
            return true;
        }
        i = i + 1;
    }
    false
}

/// A discovered device id names the configured address when the address,
/// lower-cased, occurs within the id, lower-cased.
pub fn device_matches(id: &str, addr: &str) -> (r: bool)
    ensures
        r == seq_contains(lower_of(id@), lower_of(addr@)),
{
    let id_lower = lowercase(id);
    let addr_lower = lowercase(addr);
    contains_folded(id_lower.as_str(), addr_lower.as_str())
}

/// The first of the discovered ids that names the address.
pub fn find_device(ids: &[String], addr: &str) -> (r: Option<usize>)
    ensures
        r matches Some(i) ==> i < ids@.len() && seq_contains(lower_of(ids@[i as int]@), lower_of(addr@))
            && forall|j: int| 0 <= j < i ==> !seq_contains(lower_of(#[trigger] ids@[j]@), lower_of(addr@)),
        r is None ==> forall|j: int| 0 <= j < ids@.len() ==> !seq_contains(lower_of(#[trigger] ids@[j]@), lower_of(addr@)),
{
    let mut i: usize = 0;
    while i < ids.len()
        invariant
            i <= ids@.len(),
            forall|j: int| 0 <= j < i ==> !seq_contains(lower_of(#[trigger] ids@[j]@), lower_of(addr@)),
        decreases ids@.len() - i,
    {
        if device_matches(ids[i].as_str(), addr) {
            return Some(i);
        }
        i = i + 1;
    }
    None
}

} // verus!
