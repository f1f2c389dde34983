//! The rank codec: order-preserving persistence of a constituent set.
//!
//! The relational store has no ordered-collection column, so the codec
//! flattens an `OnsenQuality` into one scalar column per constituent
//! identity.  A column holds `0` when the constituent is absent and a
//! positive rank otherwise: the constituent's position in its bucket
//! plus a fixed per-bucket offset (cations start at 1, anions at 4,
//! inclusions at 7).  The derived modifier flags are stored verbatim in
//! their own columns.  Decoding collects the positive columns, sorts
//! them by rank (ties keep column-declaration order), and rebuilds the
//! aggregate.
//!
//! Lists with duplicate constituent identities are not round-trippable:
//! the rank columns are one per identity, so a later duplicate
//! overwrites an earlier one.  This is an accepted limitation of the
//! flat row shape.

use crate::chemical::{Chemical, ClType, FeType, RnType};
use crate::eq_str;
use crate::quality::{spec_new, OnsenQuality};
use crate::spring::SpringLiquid;
use vstd::prelude::*;

verus! {

/// The flat row shape of one constituent set: fourteen rank columns,
/// one per constituent identity, plus the stored modifier flags.
#[derive(Clone, Debug)]
pub struct DieselChemical {
    pub id: u32,
    pub na_ion: u32,
    pub ca_ion: u32,
    pub mg_ion: u32,
    pub cl_ion: u32,
    pub hco3_ion: u32,
    pub so4_ion: u32,
    pub co2_ion: u32,
    pub fe_ion: u32,
    pub h_ion: u32,
    pub i_ion: u32,
    pub al_ion: u32,
    pub cu_ion: u32,
    pub s: u32,
    pub rn: u32,
    pub strong_na_cl: bool,
    pub fe_type: String,
    pub weak_rn: bool,
}

/// The rank written for identity `k` when a bucket with base offset
/// `base` is encoded: position of the last occurrence plus the offset,
/// or `0` when the identity does not occur.
pub open spec fn col_rank(s: Seq<Chemical>, base: int, k: int) -> int
    decreases s.len(),
{
    if s.len() == 0 {
        0
    } else if s.last().spec_ident() == k {
        s.len() - 1 + base
    } else {
        col_rank(s.drop_last(), base, k)
    }
}

/// Whether `r` is exactly the record that encoding `q` produces.
pub open spec fn spec_encodes(r: DieselChemical, q: OnsenQuality) -> bool {
    &&& r.na_ion as int == col_rank(q.cations@, 1, 0)
    &&& r.ca_ion as int == col_rank(q.cations@, 1, 1)
    &&& r.mg_ion as int == col_rank(q.cations@, 1, 2)
    &&& r.cl_ion as int == col_rank(q.anions@, 4, 3)
    &&& r.hco3_ion as int == col_rank(q.anions@, 4, 4)
    &&& r.so4_ion as int == col_rank(q.anions@, 4, 5)
    &&& r.co2_ion as int == col_rank(q.inclusions@, 7, 6)
    &&& r.fe_ion as int == col_rank(q.inclusions@, 7, 7)
    &&& r.al_ion as int == col_rank(q.inclusions@, 7, 8)
    &&& r.cu_ion as int == col_rank(q.inclusions@, 7, 9)
    &&& r.h_ion as int == col_rank(q.inclusions@, 7, 10)
    &&& r.i_ion as int == col_rank(q.inclusions@, 7, 11)
    &&& r.s as int == col_rank(q.inclusions@, 7, 12)
    &&& r.rn as int == col_rank(q.inclusions@, 7, 13)
    &&& r.strong_na_cl == q.spec_is_strong_na_cl()
    &&& r.fe_type@ == q.spec_fe_type()
    &&& r.weak_rn == q.spec_is_weak_rn()
}

/// The chloride modifier reconstructed from the stored flag.
pub open spec fn spec_cl_of(strong: bool) -> ClType {
    if strong {
        ClType::Strong
    } else {
        ClType::Normal
    }
}

/// The iron valence reconstructed from the stored tag.
pub open spec fn spec_fe_of(tag: Seq<char>) -> FeType {
    if tag == "Two"@ {
        FeType::Two
    } else if tag == "Three"@ {
        FeType::Three
    } else {
        FeType::Normal
    }
}

/// The radon modifier reconstructed from the stored flag.
pub open spec fn spec_rn_of(weak: bool) -> RnType {
    if weak {
        RnType::Weak
    } else {
        RnType::Normal
    }
}

/// A single decoding candidate: present exactly when its column is
/// positive.
pub open spec fn opt_pair(c: Chemical, v: u32) -> Seq<(Chemical, u32)> {
    if v > 0 {
        seq![(c, v)]
    } else {
        Seq::<(Chemical, u32)>::empty()
    }
}

impl DieselChemical {
    /// The positive rank columns of this record, paired with their
    /// reconstructed constituents, in column-declaration order.
    pub open spec fn spec_pairs(self) -> Seq<(Chemical, u32)> {
        opt_pair(Chemical::NaIon, self.na_ion) + opt_pair(Chemical::CaIon, self.ca_ion)
            + opt_pair(Chemical::MgIon, self.mg_ion) + opt_pair(
            Chemical::ClIon(spec_cl_of(self.strong_na_cl)),
            self.cl_ion,
        ) + opt_pair(Chemical::HCO3Ion, self.hco3_ion) + opt_pair(Chemical::SO4Ion, self.so4_ion)
            + opt_pair(Chemical::CO2, self.co2_ion) + opt_pair(
            Chemical::FeIon(spec_fe_of(self.fe_type@)),
            self.fe_ion,
        ) + opt_pair(Chemical::AlIon, self.al_ion) + opt_pair(Chemical::CuIon, self.cu_ion)
            + opt_pair(Chemical::HIon, self.h_ion) + opt_pair(Chemical::IIon, self.i_ion)
            + opt_pair(Chemical::S, self.s) + opt_pair(Chemical::Rn(spec_rn_of(self.weak_rn)), self.rn)
    }

    /// The ordered constituent list this record decodes to.
    pub open spec fn spec_decoded(self) -> Seq<Chemical> {
        chems_of(sort_pairs(self.spec_pairs()))
    }

    /// Encodes an aggregate into the flat row shape.  Each bucket is
    /// walked in stored order and every constituent's rank (position
    /// plus the bucket's base offset) is written into its identity's
    /// column; columns of absent identities stay `0`.  The derived
    /// flags are stored verbatim.
    pub fn from(value: &OnsenQuality) -> (r: DieselChemical)
        requires
            value.cations@.len() + 1 <= u32::MAX,
            value.anions@.len() + 4 <= u32::MAX,
            value.inclusions@.len() + 7 <= u32::MAX,
        ensures
            spec_encodes(r, *value),
            r.id == 0,
    {
        let mut na_ion: u32 = 0;
        let mut ca_ion: u32 = 0;
        let mut mg_ion: u32 = 0;
        let mut cl_ion: u32 = 0;
        let mut hco3_ion: u32 = 0;
        let mut so4_ion: u32 = 0;
        let mut co2_ion: u32 = 0;
        let mut fe_ion: u32 = 0;
        let mut al_ion: u32 = 0;
        let mut cu_ion: u32 = 0;
        let mut h_ion: u32 = 0;
        let mut i_ion: u32 = 0;
        let mut s: u32 = 0;
        let mut rn: u32 = 0;
        let mut i: usize = 0;
        proof {
            assert(value.cations@.take(0) =~= Seq::<Chemical>::empty());
        }
        while i < value.cations.len()
            invariant
                i <= value.cations@.len(),
                value.cations@.len() + 1 <= u32::MAX,
                na_ion as int == col_rank(value.cations@.take(i as int), 1, 0),
                ca_ion as int == col_rank(value.cations@.take(i as int), 1, 1),
                mg_ion as int == col_rank(value.cations@.take(i as int), 1, 2),
            decreases value.cations@.len() - i,
        {
            let rank = (i as u32) + 1;
            match value.cations[i] {
                Chemical::NaIon => na_ion = rank,
                Chemical::CaIon => ca_ion = rank,
                Chemical::MgIon => mg_ion = rank,
                _ => (),
            }
            proof {
                assert(value.cations@.take(i as int + 1).drop_last() =~= value.cations@.take(
                    i as int,
                ));
                assert(value.cations@.take(i as int + 1).last() == value.cations@[i as int]);
            }
            i = i + 1;
        }
        proof {
            assert(value.cations@.take(value.cations@.len() as int) =~= value.cations@);
        }
        let mut i: usize = 0;
        proof {
            assert(value.anions@.take(0) =~= Seq::<Chemical>::empty());
        }
        while i < value.anions.len()
            invariant
                i <= value.anions@.len(),
                value.anions@.len() + 4 <= u32::MAX,
                cl_ion as int == col_rank(value.anions@.take(i as int), 4, 3),
                hco3_ion as int == col_rank(value.anions@.take(i as int), 4, 4),
                so4_ion as int == col_rank(value.anions@.take(i as int), 4, 5),
            decreases value.anions@.len() - i,
        {
            let rank = (i as u32) + 4;
            match value.anions[i] {
                Chemical::ClIon(_) => cl_ion = rank,
                Chemical::HCO3Ion => hco3_ion = rank,
                Chemical::SO4Ion => so4_ion = rank,
                _ => (),
            }
            proof {
                assert(value.anions@.take(i as int + 1).drop_last() =~= value.anions@.take(
                    i as int,
                ));
                assert(value.anions@.take(i as int + 1).last() == value.anions@[i as int]);
            }
            i = i + 1;
        }
        proof {
            assert(value.anions@.take(value.anions@.len() as int) =~= value.anions@);
        }
        let mut i: usize = 0;
        proof {
            assert(value.inclusions@.take(0) =~= Seq::<Chemical>::empty());
        }
        while i < value.inclusions.len()
            invariant
                i <= value.inclusions@.len(),
                value.inclusions@.len() + 7 <= u32::MAX,
                co2_ion as int == col_rank(value.inclusions@.take(i as int), 7, 6),
                fe_ion as int == col_rank(value.inclusions@.take(i as int), 7, 7),
                al_ion as int == col_rank(value.inclusions@.take(i as int), 7, 8),
                cu_ion as int == col_rank(value.inclusions@.take(i as int), 7, 9),
                h_ion as int == col_rank(value.inclusions@.take(i as int), 7, 10),
                i_ion as int == col_rank(value.inclusions@.take(i as int), 7, 11),
                s as int == col_rank(value.inclusions@.take(i as int), 7, 12),
                rn as int == col_rank(value.inclusions@.take(i as int), 7, 13),
            decreases value.inclusions@.len() - i,
        {
            let rank = (i as u32) + 7;
            match value.inclusions[i] {
                Chemical::CO2 => co2_ion = rank,
                Chemical::FeIon(_) => fe_ion = rank,
                Chemical::AlIon => al_ion = rank,
                Chemical::CuIon => cu_ion = rank,
                Chemical::HIon => h_ion = rank,
                Chemical::IIon => i_ion = rank,
                Chemical::S => s = rank,
                Chemical::Rn(_) => rn = rank,
                _ => (),
            }
            proof {
                assert(value.inclusions@.take(i as int + 1).drop_last() =~= value.inclusions@.take(
                    i as int,
                ));
                assert(value.inclusions@.take(i as int + 1).last() == value.inclusions@[i as int]);
            }
            i = i + 1;
        }
        proof {
            assert(value.inclusions@.take(value.inclusions@.len() as int) =~= value.inclusions@);
        }
        DieselChemical {
            id: 0,
            na_ion,
            ca_ion,
            mg_ion,
            cl_ion,
            hco3_ion,
            so4_ion,
            co2_ion,
            fe_ion,
            h_ion,
            i_ion,
            al_ion,
            cu_ion,
            s,
            rn,
            strong_na_cl: value.is_strong_na_cl(),
            fe_type: value.fe_type(),
            weak_rn: value.is_weak_rn(),
        }
    }

    /// Decodes this record back into an aggregate: the positive
    /// columns, sorted ascending by rank (ties keep column order),
    /// give the ordered constituent list that is partitioned afresh.
    pub fn create(&self, liquid: Option<SpringLiquid>) -> (r: OnsenQuality)
        ensures
            spec_new(r, self.spec_decoded(), liquid),
    {
        let cl_type = if self.strong_na_cl {
            ClType::Strong
        } else {
            ClType::Normal
        };
        let fe_type = if eq_str(self.fe_type.as_str(), "Two") {
            FeType::Two
        } else if eq_str(self.fe_type.as_str(), "Three") {
            FeType::Three
        } else {
            FeType::Normal
        };
        let rn_type = if self.weak_rn {
            RnType::Weak
        } else {
            RnType::Normal
        };
        let mut pairs: Vec<(Chemical, u32)> = Vec::new();
        pairs = push_positive(pairs, Chemical::NaIon, self.na_ion);
        pairs = push_positive(pairs, Chemical::CaIon, self.ca_ion);
        pairs = push_positive(pairs, Chemical::MgIon, self.mg_ion);
        pairs = push_positive(pairs, Chemical::ClIon(cl_type), self.cl_ion);
        pairs = push_positive(pairs, Chemical::HCO3Ion, self.hco3_ion);
        pairs = push_positive(pairs, Chemical::SO4Ion, self.so4_ion);
        pairs = push_positive(pairs, Chemical::CO2, self.co2_ion);
        pairs = push_positive(pairs, Chemical::FeIon(fe_type), self.fe_ion);
        pairs = push_positive(pairs, Chemical::AlIon, self.al_ion);
        pairs = push_positive(pairs, Chemical::CuIon, self.cu_ion);
        pairs = push_positive(pairs, Chemical::HIon, self.h_ion);
        pairs = push_positive(pairs, Chemical::IIon, self.i_ion);
        pairs = push_positive(pairs, Chemical::S, self.s);
        pairs = push_positive(pairs, Chemical::Rn(rn_type), self.rn);
        proof {
            assert(pairs@ =~= self.spec_pairs());
        }
        let sorted = sort_by_rank(pairs);
        let chems = firsts(&sorted);
        OnsenQuality::new(&chems, liquid)
    }
}

/// Appends the candidate for one column when the column is positive.
fn push_positive(pairs: Vec<(Chemical, u32)>, c: Chemical, v: u32) -> (r: Vec<(Chemical, u32)>)
    ensures
        r@ == pairs@ + opt_pair(c, v),
{
    let ghost orig = pairs@;
    let mut out = pairs;
    if v > 0 {
        out.push((c, v));
        proof {
            assert(out@ =~= orig + opt_pair(c, v));
        }
    } else {
        proof {
            assert(out@ =~= orig + opt_pair(c, v));
        }
    }
    out
}

/// Inserting `x` into `s` after every element whose rank is at most
/// the rank of `x`.
pub open spec fn insert_pair(s: Seq<(Chemical, u32)>, x: (Chemical, u32)) -> Seq<(Chemical, u32)>
    decreases s.len(),
{
    if s.len() == 0 {
        seq![x]
    } else if s.last().1 <= x.1 {
        s.push(x)
    } else {
        insert_pair(s.drop_last(), x).push(s.last())
    }
}

/// The stable ascending-by-rank ordering of `s`: each element in turn
/// is inserted after the elements of equal or smaller rank, so
/// elements of equal rank keep their relative order.
pub open spec fn sort_pairs(s: Seq<(Chemical, u32)>) -> Seq<(Chemical, u32)>
    decreases s.len(),
{
    if s.len() == 0 {
        Seq::<(Chemical, u32)>::empty()
    } else {
        insert_pair(sort_pairs(s.drop_last()), s.last())
    }
}

/// The constituents of a pair list, ranks dropped.
pub open spec fn chems_of(s: Seq<(Chemical, u32)>) -> Seq<Chemical> {
    s.map_values(|p: (Chemical, u32)| p.0)
}

proof fn lemma_insert_pair_at(s: Seq<(Chemical, u32)>, x: (Chemical, u32), pos: int)
    requires
        0 <= pos <= s.len(),
        forall|j: int| pos <= j < s.len() ==> s[j].1 > x.1,
        pos > 0 ==> s[pos - 1].1 <= x.1,
    ensures
        insert_pair(s, x) == s.subrange(0, pos) + seq![x] + s.subrange(pos, s.len() as int),
    decreases s.len() - pos,
{
    if s.len() == pos {
        if pos == 0 {
            assert(insert_pair(s, x) =~= s.subrange(0, pos) + seq![x] + s.subrange(
                pos,
                s.len() as int,
            ));
        } else {
            assert(insert_pair(s, x) == s.push(x));
            assert(s.push(x) =~= s.subrange(0, pos) + seq![x] + s.subrange(pos, s.len() as int));
        }
    } else {
        let d = s.drop_last();
        lemma_insert_pair_at(d, x, pos);
        assert(insert_pair(s, x) == insert_pair(d, x).push(s.last()));
        assert(d.subrange(0, pos) =~= s.subrange(0, pos));
        assert((d.subrange(0, pos) + seq![x] + d.subrange(pos, d.len() as int)).push(s.last())
            =~= s.subrange(0, pos) + seq![x] + s.subrange(pos, s.len() as int));
    }
}

/// Inserts `x` into an already built prefix, keeping ranks ascending
/// and placing `x` after any element of equal rank.
fn insert_by_rank(v: Vec<(Chemical, u32)>, x: (Chemical, u32)) -> (r: Vec<(Chemical, u32)>)
    ensures
        r@ == insert_pair(v@, x),
{
    let ghost orig = v@;
    let mut v = v;
    let mut pos: usize = v.len();
    while pos > 0 && v[pos - 1].1 > x.1
        invariant
            pos <= v@.len(),
            v@ == orig,
            forall|j: int| pos <= j < v@.len() ==> v@[j].1 > x.1,
        decreases pos,
    {
        pos = pos - 1;
    }
    proof {
        lemma_insert_pair_at(orig, x, pos as int);
    }
    v.insert(pos, x);
    proof {
        assert(orig.insert(pos as int, x) =~= orig.subrange(0, pos as int) + seq![x]
            + orig.subrange(pos as int, orig.len() as int));
    }
    v
}

/// Sorts the candidates ascending by rank; candidates of equal rank
/// keep their column order.
fn sort_by_rank(v: Vec<(Chemical, u32)>) -> (r: Vec<(Chemical, u32)>)
    ensures
        r@ == sort_pairs(v@),
{
    let mut out: Vec<(Chemical, u32)> = Vec::new();
    let mut i: usize = 0;
    proof {
        assert(v@.take(0) =~= Seq::<(Chemical, u32)>::empty());
    }
    while i < v.len()
        invariant
            i <= v@.len(),
            out@ == sort_pairs(v@.take(i as int)),
        decreases v@.len() - i,
    {
        out = insert_by_rank(out, v[i]);
        proof {
            assert(v@.take(i as int + 1).drop_last() =~= v@.take(i as int));
            assert(v@.take(i as int + 1).last() == v@[i as int]);
        }
        i = i + 1;
    }
    proof {
        assert(v@.take(v@.len() as int) =~= v@);
    }
    out
}

/// Drops the ranks, keeping the constituents in sorted order.
fn firsts(v: &Vec<(Chemical, u32)>) -> (r: Vec<Chemical>)
    ensures
        r@ == chems_of(v@),
{
    let mut out: Vec<Chemical> = Vec::new();
    let mut i: usize = 0;
    while i < v.len()
        invariant
            i <= v@.len(),
            out@.len() == i,
            forall|j: int| 0 <= j < i ==> out@[j] == v@[j].0,
        decreases v@.len() - i,
    {
        out.push(v[i].0);
        i = i + 1;
    }
    proof {
        assert(out@ =~= chems_of(v@));
    }
    out
}

} // verus!
