use vstd::prelude::*;
use vstd::utf8::encode_utf8;

verus! {

/// What one registration records: short name, long name, description, and
/// the value hint of a switch that takes a value (`None` for a flag).
pub type SwitchModel = (Seq<char>, Seq<char>, Seq<char>, Option<Seq<char>>);

/// The name under which a switch is looked up and deduplicated: the short
/// name if there is one, else the long name.
pub open spec fn key_of(short: Seq<char>, long: Seq<char>) -> Seq<char> {
    if short.len() != 0 {
        short
    } else {
        long
    }
}

/// The key of a registration.
pub open spec fn model_key(m: SwitchModel) -> Seq<char> {
    key_of(m.0, m.1)
}

/// The keys of a sequence of registrations, in order.
pub open spec fn keys_of(s: Seq<SwitchModel>) -> Seq<Seq<char>> {
    s.map_values(|m: SwitchModel| model_key(m))
}

/// Names that the matching engine accepts: a short name of at most one byte,
/// a long name that is empty or longer than one byte, and not both empty.
pub open spec fn names_ok(short: Seq<char>, long: Seq<char>) -> bool {
    &&& encode_utf8(short).len() <= 1
    &&& encode_utf8(long).len() != 1
    &&& !(short.len() == 0 && long.len() == 0)
}

/// The identity of a switch as the user sees it.
#[derive(Hash, PartialEq, Eq, Clone, Debug)]
pub struct SwitchCommon {
    pub short: String,
    pub long: String,
    pub doc: String,
}

impl View for SwitchCommon {
    type V = (Seq<char>, Seq<char>, Seq<char>);

    open spec fn view(&self) -> (Seq<char>, Seq<char>, Seq<char>) {
        (self.short@, self.long@, self.doc@)
    }
}

impl SwitchCommon {
    pub open spec fn key(&self) -> Seq<char> {
        key_of(self.short@, self.long@)
    }

    pub fn new(short: &str, long: &str, doc: &str) -> (r: Self)
        ensures
            r.short@ == short@,
            r.long@ == long@,
            r.doc@ == doc@,
    {
        Self { short: short.to_owned(), long: long.to_owned(), doc: doc.to_owned() }
    }

    /// A field-by-field copy.
    pub(crate) fn duplicate(&self) -> (r: Self)
        ensures
            r@ == self@,
    {
        Self { short: self.short.clone(), long: self.long.clone(), doc: self.doc.clone() }
    }

    pub fn key_to_search_in_matches(&self) -> (r: &str)
        ensures
            r@ == self.key(),
    {
        if !self.short.as_str().is_empty() {
            self.short.as_str()
        } else {
            self.long.as_str()
        }
    }
}

/// Whether a switch is a plain flag or takes a value shown as `hint`.
#[derive(Hash, PartialEq, Eq, Clone, Debug)]
pub enum SwitchShape {
    Flag,
    Opt { hint: String },
}

impl View for SwitchShape {
    type V = Option<Seq<char>>;

    open spec fn view(&self) -> Option<Seq<char>> {
        match self {
            SwitchShape::Flag => None,
            SwitchShape::Opt { hint } => Some(hint@),
        }
    }
}

/// The registration of one switch.
pub open spec fn model_of(common: SwitchCommon, shape: SwitchShape) -> SwitchModel {
    (common.short@, common.long@, common.doc@, shape@)
}

/// A surface on which descriptors register the switches they need.
pub trait Switches {
    /// Everything registered so far, in order.
    spec fn registered(&self) -> Seq<SwitchModel>;

    /// Whether the surface takes a switch with these names.
    spec fn accepts(short: Seq<char>, long: Seq<char>) -> bool;

    /// Whether the surface still has the settings it was made with; adding
    /// a switch keeps this as it was.
    spec fn plain(&self) -> bool;

    fn add(&mut self, common: SwitchCommon, shape: SwitchShape)
        requires
            Self::accepts(common.short@, common.long@),
        ensures
            final(self).registered() == old(self).registered().push(model_of(common, shape)),
            final(self).plain() == old(self).plain(),
    ;
}

/// Every switch of `s` is one that surfaces of type `S` take.
pub open spec fn all_accepted<S: Switches>(s: Seq<SwitchModel>) -> bool {
    forall|i: int| 0 <= i < s.len() ==> S::accepts(#[trigger] s[i].0, s[i].1)
}

pub proof fn lemma_accepted_split<S: Switches>(a: Seq<SwitchModel>, b: Seq<SwitchModel>)
    requires
        all_accepted::<S>(a + b),
    ensures
        all_accepted::<S>(a),
        all_accepted::<S>(b),
{
    assert forall|i: int| 0 <= i < a.len() implies S::accepts(#[trigger] a[i].0, a[i].1) by {
        assert((a + b)[i] == a[i]);
    }
    assert forall|i: int| 0 <= i < b.len() implies S::accepts(#[trigger] b[i].0, b[i].1) by {
        assert((a + b)[a.len() + i] == b[i]);
    }
}

} // verus!
