use vstd::prelude::*;

verus! {

/// The verified identity of a caller or member: a 256-bit public key held as
/// two 128-bit words (`high` is the first sixteen bytes, `low` the last).
#[derive(Clone, Copy, Debug, PartialEq, Eq, Structural)]
pub struct Identity {
    pub high: u128,
    pub low: u128,
}

impl Identity {
    pub fn new(high: u128, low: u128) -> (r: Identity)
        ensures
            r.high == high,
            r.low == low,
    {
        Identity { high, low }
    }

    /// The all-zero key, which stands for "nobody".
    pub fn zero() -> (r: Identity)
        ensures
            r == Identity::spec_zero(),
    {
        Identity { high: 0, low: 0 }
    }

    pub open spec fn spec_zero() -> Identity {
        Identity { high: 0, low: 0 }
    }
}

/// The first position of `x` in `s`, or `None` when `s` does not hold it.
pub open spec fn position_of(s: Seq<Identity>, x: Identity) -> Option<int>
    decreases s.len(),
{
    if s.len() == 0 {
        None
    } else if s[0] == x {
        Some(0)
    } else {
        match position_of(s.drop_first(), x) {
            Some(p) => Some(p + 1),
            None => None,
        }
    }
}

/// `position_of` picks the first occurrence.
pub proof fn lemma_position_of_first(s: Seq<Identity>, x: Identity, i: int)
    requires
        0 <= i < s.len(),
        s[i] == x,
        forall|j: int| 0 <= j < i ==> s[j] != x,
    ensures
        position_of(s, x) == Some(i),
    decreases s.len(),
{
    if i > 0 {
        let t = s.drop_first();
        assert(t[i - 1] == x);
        assert forall|j: int| 0 <= j < i - 1 implies t[j] != x by {
            assert(t[j] == s[j + 1]);
        }
        lemma_position_of_first(t, x, i - 1);
    }
}

/// `position_of` finds nothing exactly when the sequence lacks `x`.
pub proof fn lemma_position_of_absent(s: Seq<Identity>, x: Identity)
    requires
        !s.contains(x),
    ensures
        position_of(s, x) is None,
    decreases s.len(),
{
    if s.len() > 0 {
        assert(s[0] != x);
        let t = s.drop_first();
        assert forall|j: int| 0 <= j < t.len() implies t[j] != x by {
            assert(t[j] == s[j + 1]);
        }
        lemma_position_of_absent(t, x);
    }
}

/// Where `position_of` lands, the sequence holds `x`.
pub proof fn lemma_position_of_hit(s: Seq<Identity>, x: Identity)
    ensures
        position_of(s, x) matches Some(p) ==> 0 <= p < s.len() && s[p] == x,
        position_of(s, x) is None <==> !s.contains(x),
    decreases s.len(),
{
    if s.len() > 0 {
        let t = s.drop_first();
        lemma_position_of_hit(t, x);
        if s[0] != x {
            if t.contains(x) {
                let k = choose|k: int| 0 <= k < t.len() && t[k] == x;
                assert(s[k + 1] == x);
            }
            if s.contains(x) {
                let k = choose|k: int| 0 <= k < s.len() && s[k] == x;
                assert(t[k - 1] == x);
            }
        }
    }
}

/// The first position of `x` in `v`, as `position_of` defines it.
pub fn find_identity(v: &Vec<Identity>, x: Identity) -> (r: Option<usize>)
    ensures
        r matches Some(i) ==> position_of(v@, x) == Some(i as int),
        r is None ==> position_of(v@, x) is None,
        r is None <==> !v@.contains(x),
        r matches Some(i) ==> i < v@.len() && v@[i as int] == x,
{
    let mut i: usize = 0;
    while i < v.len()
        invariant
            i <= v@.len(),
            forall|j: int| 0 <= j < i ==> v@[j] != x,
        decreases v@.len() - i,
    {
        if v[i] == x {
            proof {
                lemma_position_of_first(v@, x, i as int);
            }
            return Some(i);
        }
        i = i + 1;
    }
    proof {
        lemma_position_of_absent(v@, x);
    }
    None
}

/// Whether `v` holds `x`.
pub fn holds_identity(v: &Vec<Identity>, x: Identity) -> (r: bool)
    ensures
        r == v@.contains(x),
{
    find_identity(v, x).is_some()
}

} // verus!
