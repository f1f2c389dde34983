//! The water-quality aggregate and the canonical naming formatter.
//!
//! An `OnsenQuality` groups the constituents of a spring into three
//! ordered buckets (cations, anions, inclusions), keeping the caller's
//! relative order inside each bucket, plus an optional liquid-acidity
//! reading.  Rendering follows the published naming algorithm: a spring
//! with no cation and no anion falls back to the simple-spring name,
//! otherwise the bucket labels are joined and prefixed in a fixed
//! composition order.

use crate::chemical::{Chemical, ClType, FeType, RnType};
use crate::spring::SpringLiquid;
use vstd::prelude::*;

verus! {

/// The classified water quality of one spring.
///
/// Immutable once built; `new` is the only intended constructor.
/// Derived flags (`is_strong_na_cl`, `fe_type`, `is_weak_rn`) are
/// computed from the bucket contents on demand, so they can never
/// drift out of sync with the constituent set.
#[derive(Clone)]
pub struct OnsenQuality {
    pub is_simple: bool,
    pub liquid: Option<SpringLiquid>,
    pub cations: Vec<Chemical>,
    pub anions: Vec<Chemical>,
    pub inclusions: Vec<Chemical>,
}

/// The cation subsequence of a constituent list, in input order.
pub open spec fn cations_in(s: Seq<Chemical>) -> Seq<Chemical> {
    s.filter(|c: Chemical| c.spec_is_cation())
}

/// The anion subsequence of a constituent list, in input order.
pub open spec fn anions_in(s: Seq<Chemical>) -> Seq<Chemical> {
    s.filter(|c: Chemical| c.spec_is_anion())
}

/// The inclusion subsequence of a constituent list, in input order.
pub open spec fn inclusions_in(s: Seq<Chemical>) -> Seq<Chemical> {
    s.filter(|c: Chemical| c.spec_is_inclusion())
}

/// Whether `q` is exactly the aggregate that `new(chemicals, liquid)`
/// returns.
pub open spec fn spec_new(q: OnsenQuality, chemicals: Seq<Chemical>, liquid: Option<
    SpringLiquid,
>) -> bool {
    &&& q.cations@ == cations_in(chemicals)
    &&& q.anions@ == anions_in(chemicals)
    &&& q.inclusions@ == inclusions_in(chemicals)
    &&& q.liquid == liquid
    &&& q.is_simple == (q.cations@.len() == 0 && q.anions@.len() == 0)
}

/// Selects the constituents satisfying one of the category tests.
fn filter_cations(cs: &Vec<Chemical>) -> (r: Vec<Chemical>)
    ensures
        r@ == cations_in(cs@),
{
    let mut out: Vec<Chemical> = Vec::new();
    let mut i: usize = 0;
    proof {
        reveal(Seq::filter);
        assert(cs@.take(0) =~= Seq::<Chemical>::empty());
    }
    while i < cs.len()
        invariant
            i <= cs@.len(),
            out@ == cations_in(cs@.take(i as int)),
        decreases cs@.len() - i,
    {
        let c = cs[i];
        if c.is_cation() {
            out.push(c);
        }
        proof {
            reveal(Seq::filter);
            assert(cs@.take(i as int + 1).drop_last() =~= cs@.take(i as int));
            assert(cs@.take(i as int + 1).last() == c);
        }
        i = i + 1;
    }
    proof {
        assert(cs@.take(cs@.len() as int) =~= cs@);
    }
    out
}

fn filter_anions(cs: &Vec<Chemical>) -> (r: Vec<Chemical>)
    ensures
        r@ == anions_in(cs@),
{
    let mut out: Vec<Chemical> = Vec::new();
    let mut i: usize = 0;
    proof {
        reveal(Seq::filter);
        assert(cs@.take(0) =~= Seq::<Chemical>::empty());
    }
    while i < cs.len()
        invariant
            i <= cs@.len(),
            out@ == anions_in(cs@.take(i as int)),
        decreases cs@.len() - i,
    {
        let c = cs[i];
        if c.is_anion() {
            out.push(c);
        }
        proof {
            reveal(Seq::filter);
            assert(cs@.take(i as int + 1).drop_last() =~= cs@.take(i as int));
            assert(cs@.take(i as int + 1).last() == c);
        }
        i = i + 1;
    }
    proof {
        assert(cs@.take(cs@.len() as int) =~= cs@);
    }
    out
}

fn filter_inclusions(cs: &Vec<Chemical>) -> (r: Vec<Chemical>)
    ensures
        r@ == inclusions_in(cs@),
{
    let mut out: Vec<Chemical> = Vec::new();
    let mut i: usize = 0;
    proof {
        reveal(Seq::filter);
        assert(cs@.take(0) =~= Seq::<Chemical>::empty());
    }
    while i < cs.len()
        invariant
            i <= cs@.len(),
            out@ == inclusions_in(cs@.take(i as int)),
        decreases cs@.len() - i,
    {
        let c = cs[i];
        if c.is_inclusion() {
            out.push(c);
        }
        proof {
            reveal(Seq::filter);
            assert(cs@.take(i as int + 1).drop_last() =~= cs@.take(i as int));
            assert(cs@.take(i as int + 1).last() == c);
        }
        i = i + 1;
    }
    proof {
        assert(cs@.take(cs@.len() as int) =~= cs@);
    }
    out
}

/// Whether `v` holds `c` (structural equality, so the sub-modifier
/// matters).
pub fn contains_chemical(v: &Vec<Chemical>, c: Chemical) -> (r: bool)
    ensures
        r == v@.contains(c),
{
    let mut i: usize = 0;
    while i < v.len()
        invariant
            i <= v@.len(),
            forall|j: int| 0 <= j < i ==> v@[j] != c,
        decreases v@.len() - i,
    {
        if v[i] == c {
            return true;
        }
        i = i + 1;
    }
    false
}

/// The labels of `s` joined with the enumeration separator.
pub open spec fn spec_joined(s: Seq<Chemical>) -> Seq<char>
    decreases s.len(),
{
    if s.len() == 0 {
        Seq::<char>::empty()
    } else if s.len() == 1 {
        s[0].spec_jp()
    } else {
        spec_joined(s.drop_last()) + "・"@ + s.last().spec_jp()
    }
}

/// Joins the labels of the given constituents with the enumeration
/// separator.
fn joined_labels(v: &Vec<Chemical>) -> (r: String)
    ensures
        r@ == spec_joined(v@),
{
    let mut out = String::new();
    let mut i: usize = 0;
    proof {
        assert(v@.take(0) =~= Seq::<Chemical>::empty());
    }
    while i < v.len()
        invariant
            i <= v@.len(),
            out@ == spec_joined(v@.take(i as int)),
        decreases v@.len() - i,
    {
        if i > 0 {
            out.append("・");
        }
        let label = v[i].jp();
        out.append(label.as_str());
        proof {
            assert(v@.take(i as int + 1).drop_last() =~= v@.take(i as int));
            assert(v@.take(i as int + 1).last() == v@[i as int]);
            if i == 0 {
                assert(spec_joined(v@.take(1)) == v@[0].spec_jp());
            }
        }
        i = i + 1;
    }
    proof {
        assert(v@.take(v@.len() as int) =~= v@);
    }
    out
}

/// The acidity prefix of the simple-spring name.
pub open spec fn spec_liquid_prefix(liquid: Option<SpringLiquid>) -> Seq<char> {
    match liquid {
        Some(SpringLiquid::MildlyAlkaline) => "弱アルカリ性"@,
        Some(SpringLiquid::Alkaline) => "アルカリ性"@,
        _ => Seq::<char>::empty(),
    }
}

/// The label of the single inclusion named by a simple spring: any
/// iron renders as plain iron (the valence suffix is suppressed),
/// everything else keeps its own label.
pub open spec fn spec_simple_label(c: Chemical) -> Seq<char> {
    match c {
        Chemical::FeIon(_) => "鉄"@,
        _ => c.spec_jp(),
    }
}

impl OnsenQuality {
    /// The derived strong-sodium-chloride flag.
    pub open spec fn spec_is_strong_na_cl(self) -> bool {
        self.cations@.contains(Chemical::NaIon) && self.anions@.contains(
            Chemical::ClIon(ClType::Strong),
        )
    }

    /// The tag of the iron valence present among the inclusions, or
    /// the empty string when no iron is present.
    pub open spec fn spec_fe_type(self) -> Seq<char> {
        if self.inclusions@.contains(Chemical::FeIon(FeType::Two)) {
            "Two"@
        } else if self.inclusions@.contains(Chemical::FeIon(FeType::Three)) {
            "Three"@
        } else if self.inclusions@.contains(Chemical::FeIon(FeType::Normal)) {
            "Normal"@
        } else {
            Seq::<char>::empty()
        }
    }

    /// The derived weak-radon flag.
    pub open spec fn spec_is_weak_rn(self) -> bool {
        self.inclusions@.contains(Chemical::Rn(RnType::Weak))
    }

    /// All constituents in bucket order: cations, then anions, then
    /// inclusions.
    pub open spec fn spec_chemicals(self) -> Seq<Chemical> {
        self.cations@ + self.anions@ + self.inclusions@
    }

    /// The canonical display name of the spring.
    pub open spec fn spec_display(self) -> Seq<char> {
        if self.is_simple && self.inclusions@.len() == 0 {
            spec_liquid_prefix(self.liquid) + "単純温泉"@
        } else if self.is_simple {
            "単純"@ + spec_simple_label(self.inclusions@[0]) + "泉"@
        } else {
            let non_h = self.inclusions@.filter(|c: Chemical| c != Chemical::HIon);
            let base = spec_joined(self.anions@) + "泉"@;
            let with_cations = if self.cations@.len() > 0 {
                spec_joined(self.cations@) + "－"@ + base
            } else {
                base
            };
            let with_inclusions = if non_h.len() > 0 {
                "含"@ + spec_joined(non_h) + "－"@ + with_cations
            } else {
                with_cations
            };
            if self.inclusions@.contains(Chemical::HIon) {
                "酸性－"@ + with_inclusions
            } else {
                with_inclusions
            }
        }
    }

    /// Partitions `chemicals` into the three buckets, keeping the
    /// relative order inside each bucket, and records the liquid.
    /// The spring is simple exactly when no cation and no anion is
    /// present.
    pub fn new(chemicals: &Vec<Chemical>, liquid: Option<SpringLiquid>) -> (r: OnsenQuality)
        ensures
            spec_new(r, chemicals@, liquid),
    {
        let cations = filter_cations(chemicals);
        let anions = filter_anions(chemicals);
        let inclusions = filter_inclusions(chemicals);
        let is_simple = cations.len() == 0 && anions.len() == 0;
        OnsenQuality { is_simple, liquid, cations, anions, inclusions }
    }

    /// The acidity prefix of this aggregate's liquid.
    fn liquid_string(&self) -> (r: String)
        ensures
            r@ == spec_liquid_prefix(self.liquid),
    {
        match self.liquid {
            Some(SpringLiquid::MildlyAlkaline) => "弱アルカリ性".to_owned(),
            Some(SpringLiquid::Alkaline) => "アルカリ性".to_owned(),
            _ => String::new(),
        }
    }

    /// True exactly when sodium is among the cations and strong
    /// chloride is among the anions.
    pub fn is_strong_na_cl(&self) -> (r: bool)
        ensures
            r == self.spec_is_strong_na_cl(),
    {
        contains_chemical(&self.cations, Chemical::NaIon) && contains_chemical(
            &self.anions,
            Chemical::ClIon(ClType::Strong),
        )
    }

    /// The tag of the iron valence among the inclusions, checked in
    /// the priority order two, three, unspecified; empty when no iron
    /// is present.
    pub fn fe_type(&self) -> (r: String)
        ensures
            r@ == self.spec_fe_type(),
    {
        if contains_chemical(&self.inclusions, Chemical::FeIon(FeType::Two)) {
            return "Two".to_owned();
        }
        if contains_chemical(&self.inclusions, Chemical::FeIon(FeType::Three)) {
            return "Three".to_owned();
        }
        if contains_chemical(&self.inclusions, Chemical::FeIon(FeType::Normal)) {
            return "Normal".to_owned();
        }
        String::new()
    }

    /// True exactly when weak radon is among the inclusions.
    pub fn is_weak_rn(&self) -> (r: bool)
        ensures
            r == self.spec_is_weak_rn(),
    {
        contains_chemical(&self.inclusions, Chemical::Rn(RnType::Weak))
    }

    /// The bare identifiers of all constituents in bucket order:
    /// the machine-readable enumeration used by payloads and by the
    /// inverse direction of the rank codec.
    pub fn to_string_vec(&self) -> (r: Vec<String>)
        ensures
            r@.len() == self.spec_chemicals().len(),
            forall|i: int|
                0 <= i < r@.len() ==> r@[i]@ == self.spec_chemicals()[i].spec_id(),
    {
        let mut out: Vec<String> = Vec::new();
        let mut i: usize = 0;
        while i < self.cations.len()
            invariant
                i <= self.cations@.len(),
                out@.len() == i,
                forall|j: int| 0 <= j < i ==> out@[j]@ == self.spec_chemicals()[j].spec_id(),
            decreases self.cations@.len() - i,
        {
            out.push(self.cations[i].to_string());
            i = i + 1;
        }
        let mut i: usize = 0;
        while i < self.anions.len()
            invariant
                i <= self.anions@.len(),
                out@.len() == self.cations@.len() + i,
                forall|j: int|
                    0 <= j < out@.len() ==> out@[j]@ == self.spec_chemicals()[j].spec_id(),
            decreases self.anions@.len() - i,
        {
            out.push(self.anions[i].to_string());
            i = i + 1;
        }
        let mut i: usize = 0;
        while i < self.inclusions.len()
            invariant
                i <= self.inclusions@.len(),
                out@.len() == self.cations@.len() + self.anions@.len() + i,
                forall|j: int|
                    0 <= j < out@.len() ==> out@[j]@ == self.spec_chemicals()[j].spec_id(),
            decreases self.inclusions@.len() - i,
        {
            out.push(self.inclusions[i].to_string());
            i = i + 1;
        }
        out
    }

    /// Renders the canonical display name.  The result is a function
    /// of the aggregate alone, so two calls on equal aggregates yield
    /// the same characters.
    pub fn to_string(&self) -> (r: String)
        ensures
            r@ == self.spec_display(),
    {
        if self.is_simple && self.inclusions.len() == 0 {
            let mut out = self.liquid_string();
            out.append("単純温泉");
            out
        } else if self.is_simple {
            let target = &self.inclusions[0];
            let name = match target {
                Chemical::FeIon(_) => "鉄".to_owned(),
                _ => target.jp(),
            };
            let mut out = "単純".to_owned();
            out.append(name.as_str());
            out.append("泉");
            out
        } else {
            let non_h = filter_non_h(&self.inclusions);
            let mut text = joined_labels(&self.anions);
            text.append("泉");
            if self.cations.len() > 0 {
                let mut t = joined_labels(&self.cations);
                t.append("－");
                t.append(text.as_str());
                text = t;
            }
            if non_h.len() > 0 {
                let mut t = "含".to_owned();
                let inclusion_text = joined_labels(&non_h);
                t.append(inclusion_text.as_str());
                t.append("－");
                t.append(text.as_str());
                text = t;
            }
            if contains_chemical(&self.inclusions, Chemical::HIon) {
                let mut t = "酸性－".to_owned();
                t.append(text.as_str());
                text = t;
            }
            text
        }
    }
}

/// Rendering is deterministic: the name is a function of the
/// aggregate alone, so any two renderings of the same aggregate are
/// the same characters.
pub proof fn lemma_render_deterministic(q: OnsenQuality, r1: String, r2: String)
    requires
        r1@ == q.spec_display(),
        r2@ == q.spec_display(),
    ensures
        r1@ == r2@,
{
}

/// Which bucket a constituent lands in, and its position inside that
/// bucket, depend only on the relative order of its own bucket's
/// members: swapping two adjacent constituents of different groupings
/// in the input list leaves every bucket of the built aggregate
/// unchanged.
pub proof fn lemma_unrelated_order(
    cs: Seq<Chemical>,
    i: int,
    liquid: Option<SpringLiquid>,
    q1: OnsenQuality,
    q2: OnsenQuality,
)
    requires
        0 <= i && i + 1 < cs.len(),
        !(cs[i].spec_is_cation() && cs[i + 1].spec_is_cation()),
        !(cs[i].spec_is_anion() && cs[i + 1].spec_is_anion()),
        !(cs[i].spec_is_inclusion() && cs[i + 1].spec_is_inclusion()),
        spec_new(q1, cs, liquid),
        spec_new(q2, cs.update(i, cs[i + 1]).update(i + 1, cs[i]), liquid),
    ensures
        q1.cations@ == q2.cations@,
        q1.anions@ == q2.anions@,
        q1.inclusions@ == q2.inclusions@,
        q1.is_simple == q2.is_simple,
{
    broadcast use vstd::seq_lib::group_seq_lib_default;

    let swapped = cs.update(i, cs[i + 1]).update(i + 1, cs[i]);
    let a = cs.take(i);
    let m1 = cs.subrange(i, i + 2);
    let m2 = swapped.subrange(i, i + 2);
    let b = cs.skip(i + 2);
    assert(cs =~= a + m1 + b);
    assert(swapped =~= a + m2 + b);
    assert(m1 =~= seq![cs[i], cs[i + 1]]);
    assert(m2 =~= seq![cs[i + 1], cs[i]]);
    lemma_two_filter(cs[i], cs[i + 1]);
    assert(cations_in(a + m1 + b) == cations_in(a) + cations_in(m1) + cations_in(b));
    assert(cations_in(a + m2 + b) == cations_in(a) + cations_in(m2) + cations_in(b));
    assert(anions_in(a + m1 + b) == anions_in(a) + anions_in(m1) + anions_in(b));
    assert(anions_in(a + m2 + b) == anions_in(a) + anions_in(m2) + anions_in(b));
    assert(inclusions_in(a + m1 + b) == inclusions_in(a) + inclusions_in(m1) + inclusions_in(b));
    assert(inclusions_in(a + m2 + b) == inclusions_in(a) + inclusions_in(m2) + inclusions_in(b));
}

/// The bucket subsequences of a two-element list whose elements fall
/// in different buckets do not depend on the order of the two.
proof fn lemma_two_filter(x: Chemical, y: Chemical)
    requires
        !(x.spec_is_cation() && y.spec_is_cation()),
        !(x.spec_is_anion() && y.spec_is_anion()),
        !(x.spec_is_inclusion() && y.spec_is_inclusion()),
    ensures
        cations_in(seq![x, y]) == cations_in(seq![y, x]),
        anions_in(seq![x, y]) == anions_in(seq![y, x]),
        inclusions_in(seq![x, y]) == inclusions_in(seq![y, x]),
{
    reveal(Seq::filter);
    let e = Seq::<Chemical>::empty();
    let xy = seq![x, y];
    let yx = seq![y, x];
    assert(xy.drop_last() =~= seq![x]);
    assert(yx.drop_last() =~= seq![y]);
    assert(seq![x].drop_last() =~= e);
    assert(seq![y].drop_last() =~= e);
    assert(cations_in(e) == e);
    assert(anions_in(e) == e);
    assert(inclusions_in(e) == e);
    assert(cations_in(seq![x]) == if x.spec_is_cation() { e.push(x) } else { e });
    assert(cations_in(seq![y]) == if y.spec_is_cation() { e.push(y) } else { e });
    assert(anions_in(seq![x]) == if x.spec_is_anion() { e.push(x) } else { e });
    assert(anions_in(seq![y]) == if y.spec_is_anion() { e.push(y) } else { e });
    assert(inclusions_in(seq![x]) == if x.spec_is_inclusion() { e.push(x) } else { e });
    assert(inclusions_in(seq![y]) == if y.spec_is_inclusion() { e.push(y) } else { e });
    assert(cations_in(xy) =~= cations_in(yx));
    assert(anions_in(xy) =~= anions_in(yx));
    assert(inclusions_in(xy) =~= inclusions_in(yx));
}

/// Selects the inclusions other than the hydrogen ion, which is
/// excluded from the enumerated inclusion list (it surfaces as the
/// acidity prefix instead).
fn filter_non_h(cs: &Vec<Chemical>) -> (r: Vec<Chemical>)
    ensures
        r@ == cs@.filter(|c: Chemical| c != Chemical::HIon),
{
    let mut out: Vec<Chemical> = Vec::new();
    let mut i: usize = 0;
    proof {
        reveal(Seq::filter);
        assert(cs@.take(0) =~= Seq::<Chemical>::empty());
    }
    while i < cs.len()
        invariant
            i <= cs@.len(),
            out@ == cs@.take(i as int).filter(|c: Chemical| c != Chemical::HIon),
        decreases cs@.len() - i,
    {
        let c = cs[i];
        if !(c == Chemical::HIon) {
            out.push(c);
        }
        proof {
            reveal(Seq::filter);
            assert(cs@.take(i as int + 1).drop_last() =~= cs@.take(i as int));
            assert(cs@.take(i as int + 1).last() == c);
        }
        i = i + 1;
    }
    proof {
        assert(cs@.take(cs@.len() as int) =~= cs@);
    }
    out
}

} // verus!
