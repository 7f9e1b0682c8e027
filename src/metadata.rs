use vstd::prelude::*;

verus! {

/// The size below which a database file is suspiciously small.
pub const SMALL_DATABASE_BYTES: u64 = 1000000;

/// What lower-casing a text yields.
pub uninterp spec fn lower_of(s: Seq<char>) -> Seq<char>;

/// Relies on str::to_lowercase: the lower-case form of a text.
#[verifier::external_body]
fn lowercase(s: &str) -> (r: String)
    ensures
        r@ == lower_of(s@),
{
    s.to_lowercase()
}

/// Whether `needle` occurs in `s` at position `i`.
pub open spec fn occurs_at(s: Seq<char>, needle: Seq<char>, i: int) -> bool {
    0 <= i && i + needle.len() <= s.len() && s.subrange(i, i + needle.len()) == needle
}

/// Whether `needle` occurs anywhere in `s`.
pub open spec fn occurs_in(s: Seq<char>, needle: Seq<char>) -> bool {
    exists|i: int| occurs_at(s, needle, i)
}

/// The marker a city database's type names.
pub open spec fn city_marker() -> Seq<char> {
    seq!['c', 'i', 't', 'y']
}

/// Whether a database of `size` bytes is smaller than a real city database could be.
pub fn is_unusually_small(size: u64) -> (r: bool)
    ensures
        r == (size < SMALL_DATABASE_BYTES),
{
    size < SMALL_DATABASE_BYTES
}

/// Whether `needle` occurs in `s`.
pub fn contains_text(s: &str, needle: &str) -> (r: bool)
    ensures
        r == occurs_in(s@, needle@),
{
    let n = s.unicode_len();
    let m = needle.unicode_len();
    if m > n {
        proof {
            assert forall|i: int| !occurs_at(s@, needle@, i) by {}
        }
        return false;
    }
    let mut i: usize = 0;
    while i <= n - m
        invariant
            n == s@.len(),
            m == needle@.len(),
            m <= n,
            i <= n - m + 1,
            forall|k: int| 0 <= k < i ==> !occurs_at(s@, needle@, k),
        decreases n - m + 1 - i,
    {
        let mut j: usize = 0;
        let mut same = true;
        while j < m
            invariant
                n == s@.len(),
                m == needle@.len(),
                i + m <= n,
                j <= m,
                same ==> forall|k: int| 0 <= k < j ==> s@[i + k] == needle@[k],
                !same ==> exists|k: int| 0 <= k < m && s@[i + k] != needle@[k],
            decreases m - j,
        {
            if same && s.get_char(i + j) != needle.get_char(j) {
                same = false;
            }
            j = j + 1;
        }
        if same {
            proof {
                assert(s@.subrange(i as int, i + m) =~= needle@);
                assert(occurs_at(s@, needle@, i as int));
            }
            return true;
        }
        proof {
            let k = choose|k: int| 0 <= k < m && s@[i + k] != needle@[k];
            assert(s@.subrange(i as int, i + m)[k] != needle@[k]);
        }
        i = i + 1;
    }
    proof {
        assert forall|k: int| !occurs_at(s@, needle@, k) by {
            if 0 <= k && k + m <= n {
                assert(k < i);
            }
        }
    }
    false
}

/// Whether a database type string names a city database, in any case.
pub fn looks_like_city_database(database_type: &str) -> (r: bool)
    ensures
        r == occurs_in(lower_of(database_type@), city_marker()),
{
    let lower = lowercase(database_type);
    proof {
        reveal_strlit("city");
        assert("city"@ =~= city_marker());
    }
    contains_text(lower.as_str(), "city")
}

} // verus!
