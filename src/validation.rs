use vstd::prelude::*;
use crate::switch::{keys_of, model_of, SwitchCommon, SwitchModel, SwitchShape, Switches};

verus! {

/// The keys that occur more than once in `ks`, each once, in the order in
/// which their second occurrence comes.
pub open spec fn repeated_keys(ks: Seq<Seq<char>>) -> Seq<Seq<char>>
    decreases ks.len(),
{
    if ks.len() == 0 {
        seq![]
    } else {
        let prefix = ks.drop_last();
        let rest = repeated_keys(prefix);
        let k = ks.last();
        if prefix.contains(k) && !rest.contains(k) {
            rest.push(k)
        } else {
            rest
        }
    }
}

/// Two distinct registrations share the key `k`.
pub open spec fn collides(ks: Seq<Seq<char>>, k: Seq<char>) -> bool {
    exists|i: int, j: int| 0 <= i < j < ks.len() && ks[i] == k && ks[j] == k
}

/// A report of the keys that were registered more than once.
#[derive(Clone, Debug)]
pub struct Invalid {
    pub keys: Vec<String>,
}

impl Invalid {
    pub open spec fn key_views(&self) -> Seq<Seq<char>> {
        self.keys@.map_values(|s: String| s@)
    }
}

/// A registration surface that records every switch instead of matching it.
pub struct Checker {
    entries: Vec<(SwitchCommon, SwitchShape)>,
}

impl Switches for Checker {
    closed spec fn registered(&self) -> Seq<SwitchModel> {
        self.entries@.map_values(|e: (SwitchCommon, SwitchShape)| model_of(e.0, e.1))
    }

    open spec fn accepts(short: Seq<char>, long: Seq<char>) -> bool {
        true
    }

    open spec fn plain(&self) -> bool {
        true
    }

    fn add(&mut self, common: SwitchCommon, shape: SwitchShape) {
        self.entries.push((common, shape));
        assert(self.registered() =~= old(self).registered().push(model_of(common, shape)));
    }
}

impl Checker {
    pub fn new() -> (r: Self)
        ensures
            r.registered() == Seq::<SwitchModel>::empty(),
    {
        let r = Checker { entries: Vec::new() };
        assert(r.registered() =~= Seq::<SwitchModel>::empty());
        r
    }

    /// The keys registered more than once, or `None` when every key is unique.
    pub fn invalid(&self) -> (r: Option<Invalid>)
        ensures
            r is None <==> repeated_keys(keys_of(self.registered())).len() == 0,
            r matches Some(inv) ==> inv.key_views() == repeated_keys(keys_of(self.registered())),
    {
        let ghost ks = keys_of(self.registered());
        let n = self.entries.len();
        let mut found: Vec<String> = Vec::new();
        let mut i: usize = 0;
        while i < n
            invariant
                n == self.entries@.len(),
                ks == keys_of(self.registered()),
                ks.len() == n,
                i <= n,
                found@.map_values(|s: String| s@) == repeated_keys(ks.take(i as int)),
            decreases n - i,
        {
            let k = self.entries[i].0.key_to_search_in_matches();
            assert(ks[i as int] == k@);
            let mut seen = false;
            let mut j: usize = 0;
            while j < i
                invariant
                    n == self.entries@.len(),
                    ks == keys_of(self.registered()),
                    ks.len() == n,
                    j <= i < n,
                    k@ == ks[i as int],
                    seen <==> ks.take(i as int).take(j as int).contains(k@),
                decreases i - j,
            {
                let kj = self.entries[j].0.key_to_search_in_matches();
                assert(ks[j as int] == kj@);
                if str_eq(kj, k) {
                    seen = true;
                }
                proof {
                    assert(ks.take(i as int).take(j as int + 1) =~= ks.take(i as int).take(j as int).push(kj@));
                    lemma_push_contains(ks.take(i as int).take(j as int), kj@, k@);
                }
                j = j + 1;
            }
            assert(ks.take(i as int).take(i as int) =~= ks.take(i as int));
            let mut listed = false;
            let mut m: usize = 0;
            while m < found.len()
                invariant
                    listed <==> found@.map_values(|s: String| s@).take(m as int).contains(k@),
                    m <= found@.len(),
                decreases found@.len() - m,
            {
                if str_eq(found[m].as_str(), k) {
                    listed = true;
                }
                proof {
                    let fv = found@.map_values(|s: String| s@);
                    assert(fv.take(m as int + 1) =~= fv.take(m as int).push(fv[m as int]));
                    lemma_push_contains(fv.take(m as int), fv[m as int], k@);
                }
                m = m + 1;
            }
            let ghost before = found@.map_values(|s: String| s@);
            assert(before.take(found@.len() as int) =~= before);
            assert(ks.take(i as int + 1).drop_last() =~= ks.take(i as int));
            if seen && !listed {
                found.push(k.to_owned());
                assert(found@.map_values(|s: String| s@) =~= before.push(k@));
            }
            i = i + 1;
        }
        assert(ks.take(n as int) =~= ks);
        if found.len() == 0 {
            None
        } else {
            Some(Invalid { keys: found })
        }
    }
}

pub(crate) proof fn lemma_push_contains(s: Seq<Seq<char>>, x: Seq<char>, k: Seq<char>)
    ensures
        s.push(x).contains(k) <==> (s.contains(k) || x == k),
{
    if s.contains(k) {
        let i = choose|i: int| 0 <= i < s.len() && s[i] == k;
        assert(s.push(x)[i] == k);
    }
    if x == k {
        assert(s.push(x)[s.len() as int] == k);
    }
    if s.push(x).contains(k) {
        let i = choose|i: int| 0 <= i < s.len() + 1 && s.push(x)[i] == k;
        if i < s.len() {
            assert(s[i] == k);
        }
    }
}

/// Character-wise equality of two string slices.
fn str_eq(a: &str, b: &str) -> (r: bool)
    ensures
        r == (a@ == b@),
{
    let ac = a.to_owned();
    let bc = b.to_owned();
    ac == bc
}

} // verus!
