//! The round-trip law of the rank codec.
//!
//! For every aggregate whose constituent identities are unique (and
//! whose strong chloride, if any, is accompanied by sodium, since the
//! strong flag is stored as the conjunction of the two), decoding the
//! encoded record reproduces every bucket exactly, contents and order.

use crate::chemical::{Chemical, ClType, FeType, RnType};
use crate::codec::{
    chems_of, col_rank, insert_pair, opt_pair, sort_pairs, spec_cl_of, spec_encodes, spec_fe_of,
    spec_rn_of, DieselChemical,
};
use crate::quality::{anions_in, cations_in, inclusions_in, spec_new, OnsenQuality};
use crate::spring::SpringLiquid;
use vstd::prelude::*;
use vstd::seq_lib::*;

verus! {

/// No two elements share a rank column.
pub open spec fn distinct_idents(s: Seq<Chemical>) -> bool {
    forall|i: int, j: int|
        0 <= i < j < s.len() ==> s[i].spec_ident() != s[j].spec_ident()
}

/// Ranks never decrease along the sequence.
pub open spec fn ranks_sorted(s: Seq<(Chemical, u32)>) -> bool {
    forall|i: int, j: int| 0 <= i < j < s.len() ==> s[i].1 <= s[j].1
}

/// Ranks strictly increase along the sequence.
pub open spec fn ranks_strict(s: Seq<(Chemical, u32)>) -> bool {
    forall|i: int, j: int| 0 <= i < j < s.len() ==> s[i].1 < s[j].1
}

/// The bucket `s` paired with the ranks its encoding assigns:
/// position plus the bucket's base offset.
pub open spec fn ranked(s: Seq<Chemical>, base: int) -> Seq<(Chemical, u32)>
    decreases s.len(),
{
    if s.len() == 0 {
        Seq::<(Chemical, u32)>::empty()
    } else {
        ranked(s.drop_last(), base).push((s.last(), (s.len() - 1 + base) as u32))
    }
}

/// The decoding candidates contributed by the columns `cols` of the
/// template constituents `decl`, in column order.
pub open spec fn templates_of(decl: Seq<Chemical>, cols: Seq<u32>) -> Seq<(Chemical, u32)>
    decreases decl.len(),
{
    if decl.len() == 0 {
        Seq::<(Chemical, u32)>::empty()
    } else {
        templates_of(decl.drop_last(), cols.drop_last()) + opt_pair(decl.last(), cols.last())
    }
}

proof fn lemma_ranked_points(s: Seq<Chemical>, base: int)
    requires
        0 <= base,
        s.len() + base <= u32::MAX,
    ensures
        ranked(s, base).len() == s.len(),
        forall|i: int| 0 <= i < s.len() ==> #[trigger] ranked(s, base)[i] == (s[i], (i + base) as u32),
    decreases s.len(),
{
    if s.len() > 0 {
        lemma_ranked_points(s.drop_last(), base);
    }
}

proof fn lemma_col_rank_at(s: Seq<Chemical>, base: int, i: int)
    requires
        distinct_idents(s),
        0 <= i < s.len(),
    ensures
        col_rank(s, base, s[i].spec_ident()) == i + base,
    decreases s.len(),
{
    if i < s.len() - 1 {
        assert(s.last().spec_ident() != s[i].spec_ident());
        assert(s.drop_last()[i] == s[i]);
        lemma_col_rank_at(s.drop_last(), base, i);
    }
}

proof fn lemma_col_rank_absent(s: Seq<Chemical>, base: int, k: int)
    requires
        forall|i: int| 0 <= i < s.len() ==> s[i].spec_ident() != k,
    ensures
        col_rank(s, base, k) == 0,
    decreases s.len(),
{
    if s.len() > 0 {
        lemma_col_rank_absent(s.drop_last(), base, k);
    }
}

proof fn lemma_insert_pair_multiset(s: Seq<(Chemical, u32)>, x: (Chemical, u32))
    ensures
        insert_pair(s, x).to_multiset() == s.to_multiset().insert(x),
        insert_pair(s, x).len() == s.len() + 1,
    decreases s.len(),
{
    broadcast use vstd::seq_lib::group_to_multiset_ensures;

    if s.len() == 0 {
        assert(insert_pair(s, x) =~= s.push(x));
    } else if s.last().1 <= x.1 {
    } else {
        let d = s.drop_last();
        lemma_insert_pair_multiset(d, x);
        assert(s =~= d.push(s.last()));
        assert(d.to_multiset().insert(x).insert(s.last()) =~= d.to_multiset().insert(
            s.last(),
        ).insert(x));
    }
}

proof fn lemma_sort_pairs_multiset(s: Seq<(Chemical, u32)>)
    ensures
        sort_pairs(s).to_multiset() == s.to_multiset(),
        sort_pairs(s).len() == s.len(),
    decreases s.len(),
{
    broadcast use vstd::seq_lib::group_to_multiset_ensures;

    if s.len() > 0 {
        let d = s.drop_last();
        lemma_sort_pairs_multiset(d);
        lemma_insert_pair_multiset(sort_pairs(d), s.last());
        assert(s =~= d.push(s.last()));
    }
}

proof fn lemma_insert_pair_sorted(s: Seq<(Chemical, u32)>, x: (Chemical, u32))
    requires
        ranks_sorted(s),
    ensures
        ranks_sorted(insert_pair(s, x)),
    decreases s.len(),
{
    broadcast use vstd::seq_lib::group_to_multiset_ensures;

    if s.len() == 0 {
    } else if s.last().1 <= x.1 {
    } else {
        let d = s.drop_last();
        lemma_insert_pair_sorted(d, x);
        lemma_insert_pair_multiset(d, x);
        let t = insert_pair(d, x);
        assert forall|i: int| 0 <= i < t.len() implies t[i].1 <= s.last().1 by {
            assert(t.contains(t[i]));
            assert(t.to_multiset().count(t[i]) > 0);
            if t[i] != x {
                assert(d.to_multiset().count(t[i]) > 0);
                assert(d.contains(t[i]));
                let k = choose|k: int| 0 <= k < d.len() && d[k] == t[i];
                assert(s[k] == d[k]);
            }
        }
    }
}

proof fn lemma_sort_pairs_sorted(s: Seq<(Chemical, u32)>)
    ensures
        ranks_sorted(sort_pairs(s)),
    decreases s.len(),
{
    if s.len() > 0 {
        lemma_sort_pairs_sorted(s.drop_last());
        lemma_insert_pair_sorted(sort_pairs(s.drop_last()), s.last());
    }
}

proof fn lemma_sorted_unique(u: Seq<(Chemical, u32)>, v: Seq<(Chemical, u32)>)
    requires
        ranks_strict(u),
        ranks_sorted(v),
        u.to_multiset() == v.to_multiset(),
    ensures
        u == v,
    decreases u.len(),
{
    broadcast use vstd::seq_lib::group_to_multiset_ensures;

    assert(u.len() == u.to_multiset().len());
    assert(v.len() == v.to_multiset().len());
    if u.len() == 0 {
        assert(u =~= v);
    } else {
        let a = u.last();
        let b = v.last();
        assert(u.contains(a));
        assert(v.to_multiset().count(a) > 0);
        assert(v.contains(a));
        let i = choose|i: int| 0 <= i < v.len() && v[i] == a;
        assert(u.to_multiset().count(b) > 0);
        assert(u.contains(b));
        let j = choose|j: int| 0 <= j < u.len() && u[j] == b;
        // a's rank is the strict maximum of u, hence of the shared
        // multiset; b is at least every rank of v, hence b == a.
        if i < v.len() - 1 {
            assert(v[i].1 <= b.1);
        }
        if j < u.len() - 1 {
            assert(u[j].1 < a.1);
            assert(a.1 <= b.1);
            assert(false);
        }
        assert(b == a);
        assert(u.remove(u.len() - 1) =~= u.drop_last());
        assert(v.remove(v.len() - 1) =~= v.drop_last());
        assert(u.drop_last().to_multiset() =~= u.to_multiset().remove(a));
        assert(v.drop_last().to_multiset() =~= v.to_multiset().remove(b));
        lemma_sorted_unique(u.drop_last(), v.drop_last());
        assert(u =~= u.drop_last().push(a));
        assert(v =~= v.drop_last().push(b));
    }
}

proof fn lemma_templates_absent(decl: Seq<Chemical>, cols: Seq<u32>)
    requires
        decl.len() == cols.len(),
        forall|i: int| 0 <= i < cols.len() ==> cols[i] == 0,
    ensures
        templates_of(decl, cols) == Seq::<(Chemical, u32)>::empty(),
    decreases decl.len(),
{
    if decl.len() > 0 {
        lemma_templates_absent(decl.drop_last(), cols.drop_last());
        assert(templates_of(decl, cols) =~= Seq::<(Chemical, u32)>::empty());
    }
}

proof fn lemma_templates_update(decl: Seq<Chemical>, cols: Seq<u32>, j: int)
    requires
        decl.len() == cols.len(),
        0 <= j < decl.len(),
        cols[j] > 0,
    ensures
        templates_of(decl, cols).to_multiset() == templates_of(
            decl,
            cols.update(j, 0u32),
        ).to_multiset().insert((decl[j], cols[j])),
    decreases decl.len(),
{
    broadcast use vstd::seq_lib::group_to_multiset_ensures;

    let cols0 = cols.update(j, 0u32);
    let p = (decl[j], cols[j]);
    if j == decl.len() - 1 {
        assert(cols0.drop_last() =~= cols.drop_last());
        let t = templates_of(decl.drop_last(), cols.drop_last());
        assert(templates_of(decl, cols) == t + opt_pair(decl.last(), cols.last()));
        assert(templates_of(decl, cols0) == t + opt_pair(decl.last(), cols0.last()));
        assert(opt_pair(decl.last(), cols0.last()) =~= Seq::<(Chemical, u32)>::empty());
        assert(t + Seq::<(Chemical, u32)>::empty() =~= t);
        assert(opt_pair(decl.last(), cols.last()) =~= t.push(p).skip(t.len() as int)) by {
            assert(t.push(p).skip(t.len() as int).len() == 1);
            assert(t.push(p).skip(t.len() as int)[0] == p);
        }
        assert(t + opt_pair(decl.last(), cols.last()) =~= t.push(p));
        assert(t.push(p).to_multiset() == t.to_multiset().insert(p));
    } else {
        assert(cols0.drop_last() =~= cols.drop_last().update(j, 0u32));
        assert(cols0.last() == cols.last());
        lemma_templates_update(decl.drop_last(), cols.drop_last(), j);
        let t1 = templates_of(decl.drop_last(), cols.drop_last());
        let t0 = templates_of(decl.drop_last(), cols.drop_last().update(j, 0u32));
        let tail = opt_pair(decl.last(), cols.last());
        lemma_multiset_commutative(t1, tail);
        lemma_multiset_commutative(t0, tail);
        assert(decl.drop_last()[j] == decl[j]);
        assert(cols.drop_last()[j] == cols[j]);
        assert(t0.to_multiset().insert(p).add(tail.to_multiset()) =~= t0.to_multiset().add(
            tail.to_multiset(),
        ).insert(p));
    }
}

proof fn lemma_bucket_multiset(s: Seq<Chemical>, base: int, decl: Seq<Chemical>, cols: Seq<u32>)
    requires
        decl.len() == cols.len(),
        distinct_idents(decl),
        distinct_idents(s),
        forall|i: int| 0 <= i < s.len() ==> decl.contains(s[i]),
        forall|i: int|
            0 <= i < decl.len() ==> cols[i] as int == col_rank(
                s,
                base,
                #[trigger] decl[i].spec_ident(),
            ),
        1 <= base,
        s.len() + base <= u32::MAX,
    ensures
        templates_of(decl, cols).to_multiset() == ranked(s, base).to_multiset(),
    decreases s.len(),
{
    broadcast use vstd::seq_lib::group_to_multiset_ensures;

    if s.len() == 0 {
        assert forall|i: int| 0 <= i < cols.len() implies cols[i] == 0 by {
            assert(cols[i] as int == col_rank(s, base, decl[i].spec_ident()));
        }
        lemma_templates_absent(decl, cols);
    } else {
        let d = s.drop_last();
        let x = s.last();
        assert(decl.contains(s[s.len() - 1]));
        let j = choose|j: int| 0 <= j < decl.len() && decl[j] == x;
        lemma_col_rank_at(s, base, s.len() - 1);
        assert(cols[j] as int == s.len() - 1 + base);
        let cols_d = cols.update(j, 0u32);
        assert forall|i: int| 0 <= i < s.len() - 1 implies d[i].spec_ident() != x.spec_ident() by {
            assert(s[i] == d[i]);
        }
        lemma_col_rank_absent(d, base, x.spec_ident());
        assert forall|i: int|
            0 <= i < decl.len() implies cols_d[i] as int == col_rank(
            d,
            base,
            #[trigger] decl[i].spec_ident(),
        ) by {
            if i == j {
                assert(cols_d[i] == 0);
            } else {
                assert(decl[i].spec_ident() != x.spec_ident());
                assert(col_rank(s, base, decl[i].spec_ident()) == col_rank(
                    d,
                    base,
                    decl[i].spec_ident(),
                ));
            }
        }
        lemma_bucket_multiset(d, base, decl, cols_d);
        lemma_templates_update(decl, cols, j);
        let pr = (x, (s.len() - 1 + base) as u32);
        assert((decl[j], cols[j]) == pr);
        assert(ranked(s, base) == ranked(d, base).push(pr));
    }
}

proof fn lemma_cation_len(s: Seq<Chemical>)
    requires
        distinct_idents(s),
        forall|i: int| 0 <= i < s.len() ==> s[i].spec_is_cation(),
    ensures
        s.len() <= 3,
{
    if s.len() > 3 {
        assert(0 <= s[0].spec_ident() <= 2);
        assert(0 <= s[1].spec_ident() <= 2);
        assert(0 <= s[2].spec_ident() <= 2);
        assert(0 <= s[3].spec_ident() <= 2);
        assert(false);
    }
}

proof fn lemma_anion_len(s: Seq<Chemical>)
    requires
        distinct_idents(s),
        forall|i: int| 0 <= i < s.len() ==> s[i].spec_is_anion(),
    ensures
        s.len() <= 3,
{
    if s.len() > 3 {
        assert(3 <= s[0].spec_ident() <= 5);
        assert(3 <= s[1].spec_ident() <= 5);
        assert(3 <= s[2].spec_ident() <= 5);
        assert(3 <= s[3].spec_ident() <= 5);
        assert(false);
    }
}

/// The set of rank columns that the elements of `s` occupy.
spec fn idents_of(s: Seq<Chemical>) -> Set<int> {
    Set::new(|k: int| exists|i: int| 0 <= i < s.len() && s[i].spec_ident() == k)
}

proof fn lemma_idents_card(s: Seq<Chemical>)
    requires
        distinct_idents(s),
    ensures
        idents_of(s).finite(),
        idents_of(s).len() == s.len(),
    decreases s.len(),
{
    broadcast use vstd::set::group_set_axioms;

    if s.len() == 0 {
        assert(idents_of(s) =~= Set::<int>::empty());
    } else {
        let d = s.drop_last();
        lemma_idents_card(d);
        let x = s.last().spec_ident();
        assert(idents_of(s) =~= idents_of(d).insert(x)) by {
            assert forall|k: int|
                idents_of(s).contains(k) <==> idents_of(d).insert(x).contains(k) by {
                if idents_of(s).contains(k) {
                    let i = choose|i: int| 0 <= i < s.len() && s[i].spec_ident() == k;
                    if i < s.len() - 1 {
                        assert(d[i] == s[i]);
                        assert(idents_of(d).contains(k));
                    }
                }
                if idents_of(d).contains(k) {
                    let i = choose|i: int| 0 <= i < d.len() && d[i].spec_ident() == k;
                    assert(s[i] == d[i]);
                    assert(idents_of(s).contains(k));
                }
                if k == x {
                    assert(s[s.len() - 1].spec_ident() == k);
                    assert(idents_of(s).contains(k));
                }
            }
        }
        assert(!idents_of(d).contains(x)) by {
            if idents_of(d).contains(x) {
                let i = choose|i: int| 0 <= i < d.len() && d[i].spec_ident() == x;
                assert(s[i].spec_ident() != s[s.len() - 1].spec_ident());
            }
        }
    }
}

proof fn lemma_inclusion_len(s: Seq<Chemical>)
    requires
        distinct_idents(s),
        forall|i: int| 0 <= i < s.len() ==> s[i].spec_is_inclusion(),
    ensures
        s.len() <= 8,
{
    broadcast use vstd::set::group_set_axioms;

    lemma_idents_card(s);
    vstd::set_lib::lemma_int_range(6, 14);
    assert(idents_of(s).subset_of(vstd::set_lib::set_int_range(6, 14))) by {
        assert forall|k: int|
            idents_of(s).contains(k) implies vstd::set_lib::set_int_range(6, 14).contains(k) by {
            let i = choose|i: int| 0 <= i < s.len() && s[i].spec_ident() == k;
            assert(s[i].spec_is_inclusion());
        }
    }
    vstd::set_lib::lemma_len_subset(idents_of(s), vstd::set_lib::set_int_range(6, 14));
}

/// The column-order template constituents of the cation bucket.
spec fn cation_decl() -> Seq<Chemical> {
    seq![Chemical::NaIon, Chemical::CaIon, Chemical::MgIon]
}

/// The column-order template constituents of the anion bucket.
spec fn anion_decl(ct: ClType) -> Seq<Chemical> {
    seq![Chemical::ClIon(ct), Chemical::HCO3Ion, Chemical::SO4Ion]
}

/// The column-order template constituents of the inclusion bucket.
spec fn inclusion_decl(
    ft: FeType,
    rt: RnType,
) -> Seq<Chemical> {
    seq![
        Chemical::CO2,
        Chemical::FeIon(ft),
        Chemical::AlIon,
        Chemical::CuIon,
        Chemical::HIon,
        Chemical::IIon,
        Chemical::S,
        Chemical::Rn(rt),
    ]
}

proof fn lemma_templates_cation(r: DieselChemical)
    ensures
        templates_of(cation_decl(), seq![r.na_ion, r.ca_ion, r.mg_ion]) == opt_pair(
            Chemical::NaIon,
            r.na_ion,
        ) + opt_pair(Chemical::CaIon, r.ca_ion) + opt_pair(Chemical::MgIon, r.mg_ion),
{
    let e: Seq<(Chemical, u32)> = Seq::empty();
    let l0: Seq<Chemical> = Seq::empty();
    let c0: Seq<u32> = Seq::empty();
    let l1 = seq![Chemical::NaIon];
    let c1 = seq![r.na_ion];
    let l2 = seq![Chemical::NaIon, Chemical::CaIon];
    let c2 = seq![r.na_ion, r.ca_ion];
    let l3 = cation_decl();
    let c3 = seq![r.na_ion, r.ca_ion, r.mg_ion];
    assert(templates_of(l0, c0) == e);
    assert(l1.drop_last() =~= l0);
    assert(c1.drop_last() =~= c0);
    assert(templates_of(l1, c1) == e + opt_pair(Chemical::NaIon, r.na_ion));
    assert(e + opt_pair(Chemical::NaIon, r.na_ion) =~= opt_pair(Chemical::NaIon, r.na_ion));
    assert(l2.drop_last() =~= l1);
    assert(c2.drop_last() =~= c1);
    assert(templates_of(l2, c2) == opt_pair(Chemical::NaIon, r.na_ion) + opt_pair(
        Chemical::CaIon,
        r.ca_ion,
    ));
    assert(l3.drop_last() =~= l2);
    assert(c3.drop_last() =~= c2);
    assert(templates_of(l3, c3) == opt_pair(Chemical::NaIon, r.na_ion) + opt_pair(
        Chemical::CaIon,
        r.ca_ion,
    ) + opt_pair(Chemical::MgIon, r.mg_ion));
}

proof fn lemma_templates_anion(r: DieselChemical)
    ensures
        templates_of(
            anion_decl(spec_cl_of(r.strong_na_cl)),
            seq![r.cl_ion, r.hco3_ion, r.so4_ion],
        ) == opt_pair(Chemical::ClIon(spec_cl_of(r.strong_na_cl)), r.cl_ion) + opt_pair(
            Chemical::HCO3Ion,
            r.hco3_ion,
        ) + opt_pair(Chemical::SO4Ion, r.so4_ion),
{
    let cl = Chemical::ClIon(spec_cl_of(r.strong_na_cl));
    let e: Seq<(Chemical, u32)> = Seq::empty();
    let l0: Seq<Chemical> = Seq::empty();
    let c0: Seq<u32> = Seq::empty();
    let l1 = seq![cl];
    let c1 = seq![r.cl_ion];
    let l2 = seq![cl, Chemical::HCO3Ion];
    let c2 = seq![r.cl_ion, r.hco3_ion];
    let l3 = anion_decl(spec_cl_of(r.strong_na_cl));
    let c3 = seq![r.cl_ion, r.hco3_ion, r.so4_ion];
    assert(templates_of(l0, c0) == e);
    assert(l1.drop_last() =~= l0);
    assert(c1.drop_last() =~= c0);
    assert(templates_of(l1, c1) == e + opt_pair(cl, r.cl_ion));
    assert(e + opt_pair(cl, r.cl_ion) =~= opt_pair(cl, r.cl_ion));
    assert(l2.drop_last() =~= l1);
    assert(c2.drop_last() =~= c1);
    assert(templates_of(l2, c2) == opt_pair(cl, r.cl_ion) + opt_pair(
        Chemical::HCO3Ion,
        r.hco3_ion,
    ));
    assert(l3.drop_last() =~= l2);
    assert(c3.drop_last() =~= c2);
    assert(templates_of(l3, c3) == opt_pair(cl, r.cl_ion) + opt_pair(Chemical::HCO3Ion, r.hco3_ion)
        + opt_pair(Chemical::SO4Ion, r.so4_ion));
}

proof fn lemma_templates_inclusion(r: DieselChemical)
    ensures
        templates_of(
            inclusion_decl(spec_fe_of(r.fe_type@), spec_rn_of(r.weak_rn)),
            seq![r.co2_ion, r.fe_ion, r.al_ion, r.cu_ion, r.h_ion, r.i_ion, r.s, r.rn],
        ) == opt_pair(Chemical::CO2, r.co2_ion) + opt_pair(
            Chemical::FeIon(spec_fe_of(r.fe_type@)),
            r.fe_ion,
        ) + opt_pair(Chemical::AlIon, r.al_ion) + opt_pair(Chemical::CuIon, r.cu_ion) + opt_pair(
            Chemical::HIon,
            r.h_ion,
        ) + opt_pair(Chemical::IIon, r.i_ion) + opt_pair(Chemical::S, r.s) + opt_pair(
            Chemical::Rn(spec_rn_of(r.weak_rn)),
            r.rn,
        ),
{
    let fe = Chemical::FeIon(spec_fe_of(r.fe_type@));
    let rn = Chemical::Rn(spec_rn_of(r.weak_rn));
    let e: Seq<(Chemical, u32)> = Seq::empty();
    let l0: Seq<Chemical> = Seq::empty();
    let c0: Seq<u32> = Seq::empty();
    let l1 = seq![Chemical::CO2];
    let c1 = seq![r.co2_ion];
    let l2 = seq![Chemical::CO2, fe];
    let c2 = seq![r.co2_ion, r.fe_ion];
    let l3 = seq![Chemical::CO2, fe, Chemical::AlIon];
    let c3 = seq![r.co2_ion, r.fe_ion, r.al_ion];
    let l4 = seq![Chemical::CO2, fe, Chemical::AlIon, Chemical::CuIon];
    let c4 = seq![r.co2_ion, r.fe_ion, r.al_ion, r.cu_ion];
    let l5 = seq![Chemical::CO2, fe, Chemical::AlIon, Chemical::CuIon, Chemical::HIon];
    let c5 = seq![r.co2_ion, r.fe_ion, r.al_ion, r.cu_ion, r.h_ion];
    let l6 = seq![
        Chemical::CO2,
        fe,
        Chemical::AlIon,
        Chemical::CuIon,
        Chemical::HIon,
        Chemical::IIon,
    ];
    let c6 = seq![r.co2_ion, r.fe_ion, r.al_ion, r.cu_ion, r.h_ion, r.i_ion];
    let l7 = seq![
        Chemical::CO2,
        fe,
        Chemical::AlIon,
        Chemical::CuIon,
        Chemical::HIon,
        Chemical::IIon,
        Chemical::S,
    ];
    let c7 = seq![r.co2_ion, r.fe_ion, r.al_ion, r.cu_ion, r.h_ion, r.i_ion, r.s];
    let l8 = inclusion_decl(spec_fe_of(r.fe_type@), spec_rn_of(r.weak_rn));
    let c8 = seq![r.co2_ion, r.fe_ion, r.al_ion, r.cu_ion, r.h_ion, r.i_ion, r.s, r.rn];
    let t1 = opt_pair(Chemical::CO2, r.co2_ion);
    let t2 = t1 + opt_pair(fe, r.fe_ion);
    let t3 = t2 + opt_pair(Chemical::AlIon, r.al_ion);
    let t4 = t3 + opt_pair(Chemical::CuIon, r.cu_ion);
    let t5 = t4 + opt_pair(Chemical::HIon, r.h_ion);
    let t6 = t5 + opt_pair(Chemical::IIon, r.i_ion);
    let t7 = t6 + opt_pair(Chemical::S, r.s);
    assert(templates_of(l0, c0) == e);
    assert(l1.drop_last() =~= l0);
    assert(c1.drop_last() =~= c0);
    assert(templates_of(l1, c1) == e + t1);
    assert(e + t1 =~= t1);
    assert(l2.drop_last() =~= l1);
    assert(c2.drop_last() =~= c1);
    assert(templates_of(l2, c2) == t2);
    assert(l3.drop_last() =~= l2);
    assert(c3.drop_last() =~= c2);
    assert(templates_of(l3, c3) == t3);
    assert(l4.drop_last() =~= l3);
    assert(c4.drop_last() =~= c3);
    assert(templates_of(l4, c4) == t4);
    assert(l5.drop_last() =~= l4);
    assert(c5.drop_last() =~= c4);
    assert(templates_of(l5, c5) == t5);
    assert(l6.drop_last() =~= l5);
    assert(c6.drop_last() =~= c5);
    assert(templates_of(l6, c6) == t6);
    assert(l7.drop_last() =~= l6);
    assert(c7.drop_last() =~= c6);
    assert(templates_of(l7, c7) == t7);
    assert(l8.drop_last() =~= l7);
    assert(c8.drop_last() =~= c7);
    assert(templates_of(l8, c8) == t7 + opt_pair(rn, r.rn));
}

proof fn lemma_spec_pairs_split(r: DieselChemical)
    ensures
        r.spec_pairs().to_multiset() == templates_of(
            cation_decl(),
            seq![r.na_ion, r.ca_ion, r.mg_ion],
        ).to_multiset().add(
            templates_of(
                anion_decl(spec_cl_of(r.strong_na_cl)),
                seq![r.cl_ion, r.hco3_ion, r.so4_ion],
            ).to_multiset(),
        ).add(
            templates_of(
                inclusion_decl(spec_fe_of(r.fe_type@), spec_rn_of(r.weak_rn)),
                seq![r.co2_ion, r.fe_ion, r.al_ion, r.cu_ion, r.h_ion, r.i_ion, r.s, r.rn],
            ).to_multiset(),
        ),
{
    lemma_templates_cation(r);
    lemma_templates_anion(r);
    lemma_templates_inclusion(r);
    let o1 = opt_pair(Chemical::NaIon, r.na_ion);
    let o2 = opt_pair(Chemical::CaIon, r.ca_ion);
    let o3 = opt_pair(Chemical::MgIon, r.mg_ion);
    let o4 = opt_pair(Chemical::ClIon(spec_cl_of(r.strong_na_cl)), r.cl_ion);
    let o5 = opt_pair(Chemical::HCO3Ion, r.hco3_ion);
    let o6 = opt_pair(Chemical::SO4Ion, r.so4_ion);
    let o7 = opt_pair(Chemical::CO2, r.co2_ion);
    let o8 = opt_pair(Chemical::FeIon(spec_fe_of(r.fe_type@)), r.fe_ion);
    let o9 = opt_pair(Chemical::AlIon, r.al_ion);
    let o10 = opt_pair(Chemical::CuIon, r.cu_ion);
    let o11 = opt_pair(Chemical::HIon, r.h_ion);
    let o12 = opt_pair(Chemical::IIon, r.i_ion);
    let o13 = opt_pair(Chemical::S, r.s);
    let o14 = opt_pair(Chemical::Rn(spec_rn_of(r.weak_rn)), r.rn);
    // The record's pair list is the left-nested concatenation of the
    // fourteen candidates; distribute `to_multiset` over every join.
    lemma_multiset_commutative(o1, o2);
    lemma_multiset_commutative(o1 + o2, o3);
    lemma_multiset_commutative(o1 + o2 + o3, o4);
    lemma_multiset_commutative(o1 + o2 + o3 + o4, o5);
    lemma_multiset_commutative(o1 + o2 + o3 + o4 + o5, o6);
    lemma_multiset_commutative(o1 + o2 + o3 + o4 + o5 + o6, o7);
    lemma_multiset_commutative(o1 + o2 + o3 + o4 + o5 + o6 + o7, o8);
    lemma_multiset_commutative(o1 + o2 + o3 + o4 + o5 + o6 + o7 + o8, o9);
    lemma_multiset_commutative(o1 + o2 + o3 + o4 + o5 + o6 + o7 + o8 + o9, o10);
    lemma_multiset_commutative(o1 + o2 + o3 + o4 + o5 + o6 + o7 + o8 + o9 + o10, o11);
    lemma_multiset_commutative(o1 + o2 + o3 + o4 + o5 + o6 + o7 + o8 + o9 + o10 + o11, o12);
    lemma_multiset_commutative(o1 + o2 + o3 + o4 + o5 + o6 + o7 + o8 + o9 + o10 + o11 + o12, o13);
    lemma_multiset_commutative(
        o1 + o2 + o3 + o4 + o5 + o6 + o7 + o8 + o9 + o10 + o11 + o12 + o13,
        o14,
    );
    lemma_multiset_commutative(o1 + o2, o3);
    lemma_multiset_commutative(o4, o5);
    lemma_multiset_commutative(o4 + o5, o6);
    lemma_multiset_commutative(o7, o8);
    lemma_multiset_commutative(o7 + o8, o9);
    lemma_multiset_commutative(o7 + o8 + o9, o10);
    lemma_multiset_commutative(o7 + o8 + o9 + o10, o11);
    lemma_multiset_commutative(o7 + o8 + o9 + o10 + o11, o12);
    lemma_multiset_commutative(o7 + o8 + o9 + o10 + o11 + o12, o13);
    lemma_multiset_commutative(o7 + o8 + o9 + o10 + o11 + o12 + o13, o14);
    assert(r.spec_pairs().to_multiset() =~= (o1 + o2 + o3).to_multiset().add(
        (o4 + o5 + o6).to_multiset(),
    ).add((o7 + o8 + o9 + o10 + o11 + o12 + o13 + o14).to_multiset()));
}

/// The round-trip fact in one predicate: the record decodes to exactly
/// the constituents of `q`, and partitioning them afresh restores
/// every bucket.  Kept opaque so that callers can pass it along
/// without expanding the decoder's definition; `lemma_round_trips_unfold`
/// spells it out.
#[verifier::opaque]
pub open spec fn spec_round_trips(r: DieselChemical, q: OnsenQuality) -> bool {
    &&& r.spec_decoded() == q.spec_chemicals()
    &&& cations_in(r.spec_decoded()) == q.cations@
    &&& anions_in(r.spec_decoded()) == q.anions@
    &&& inclusions_in(r.spec_decoded()) == q.inclusions@
}

/// What the round-trip fact states, spelled out.
pub proof fn lemma_round_trips_unfold(r: DieselChemical, q: OnsenQuality)
    requires
        spec_round_trips(r, q),
    ensures
        r.spec_decoded() == q.spec_chemicals(),
        cations_in(r.spec_decoded()) == q.cations@,
        anions_in(r.spec_decoded()) == q.anions@,
        inclusions_in(r.spec_decoded()) == q.inclusions@,
{
    reveal(spec_round_trips);
}

/// Decoding the record that encodes `q` yields exactly `q`'s
/// constituents, bucket by bucket and in order.
///
/// `q`'s buckets must be correctly categorized with pairwise distinct
/// identities (the aggregate that `new` builds from a duplicate-free
/// list has this shape), and a strong chloride must be accompanied by
/// sodium: the record stores the strong modifier only as the combined
/// strong-sodium-chloride flag, so a lone strong chloride decodes as
/// normal chloride.
pub proof fn lemma_round_trip(q: OnsenQuality, r: DieselChemical)
    requires
        forall|i: int| 0 <= i < q.cations@.len() ==> (#[trigger] q.cations@[i]).spec_is_cation(),
        forall|i: int| 0 <= i < q.anions@.len() ==> (#[trigger] q.anions@[i]).spec_is_anion(),
        forall|i: int|
            0 <= i < q.inclusions@.len() ==> (#[trigger] q.inclusions@[i]).spec_is_inclusion(),
        distinct_idents(q.cations@),
        distinct_idents(q.anions@),
        distinct_idents(q.inclusions@),
        q.anions@.contains(Chemical::ClIon(ClType::Strong)) ==> q.cations@.contains(
            Chemical::NaIon,
        ),
        spec_encodes(r, q),
    ensures
        r.spec_decoded() == q.spec_chemicals(),
        cations_in(r.spec_decoded()) == q.cations@,
        anions_in(r.spec_decoded()) == q.anions@,
        inclusions_in(r.spec_decoded()) == q.inclusions@,
        spec_round_trips(r, q),
{
    broadcast use vstd::seq_lib::group_to_multiset_ensures;

    reveal(spec_round_trips);

    let ct = spec_cl_of(r.strong_na_cl);
    let ft = spec_fe_of(r.fe_type@);
    let rt = spec_rn_of(r.weak_rn);
    let cat = q.cations@;
    let an = q.anions@;
    let incl = q.inclusions@;
    lemma_cation_len(cat);
    lemma_anion_len(an);
    lemma_inclusion_len(incl);
    // The reconstructed chloride modifier agrees with the stored anion.
    assert forall|i: int| 0 <= i < an.len() implies anion_decl(ct).contains(#[trigger] an[i]) by {
        let c = an[i];
        match c {
            Chemical::ClIon(t) => {
                if t == ClType::Strong {
                    assert(an.contains(c));
                    assert(q.spec_is_strong_na_cl());
                    assert(anion_decl(ct)[0] == c);
                } else {
                    if r.strong_na_cl {
                        let k = choose|k: int|
                            0 <= k < an.len() && an[k] == Chemical::ClIon(ClType::Strong);
                        assert(an[k].spec_ident() == 3);
                        assert(an[i].spec_ident() == 3);
                        assert(k != i);
                        assert(false);
                    }
                    assert(anion_decl(ct)[0] == c);
                }
            },
            Chemical::HCO3Ion => {
                assert(anion_decl(ct)[1] == c);
            },
            Chemical::SO4Ion => {
                assert(anion_decl(ct)[2] == c);
            },
            _ => {
                assert(false);
            },
        }
    }
    // The reconstructed iron and radon modifiers agree with the
    // stored inclusions.
    reveal_strlit("Two");
    reveal_strlit("Three");
    reveal_strlit("Normal");
    assert forall|i: int|
        0 <= i < incl.len() implies inclusion_decl(ft, rt).contains(#[trigger] incl[i]) by {
        let c = incl[i];
        match c {
            Chemical::CO2 => {
                assert(inclusion_decl(ft, rt)[0] == c);
            },
            Chemical::FeIon(v) => {
                assert forall|k: int|
                    0 <= k < incl.len() && k != i implies !(#[trigger] incl[k] matches
                Chemical::FeIon(_)) by {
                    assert(incl[k].spec_ident() != incl[i].spec_ident());
                }
                match v {
                    FeType::Two => {
                        assert(incl.contains(Chemical::FeIon(FeType::Two)));
                        assert(q.spec_fe_type() == "Two"@);
                    },
                    FeType::Three => {
                        if incl.contains(Chemical::FeIon(FeType::Two)) {
                            let k = choose|k: int|
                                0 <= k < incl.len() && incl[k] == Chemical::FeIon(
                                    FeType::Two,
                                );
                            assert(k != i);
                            assert(false);
                        }
                        assert(q.spec_fe_type() == "Three"@);
                        assert("Three"@ != "Two"@);
                    },
                    FeType::Normal => {
                        if incl.contains(Chemical::FeIon(FeType::Two)) {
                            let k = choose|k: int|
                                0 <= k < incl.len() && incl[k] == Chemical::FeIon(
                                    FeType::Two,
                                );
                            assert(k != i);
                            assert(false);
                        }
                        if incl.contains(Chemical::FeIon(FeType::Three)) {
                            let k = choose|k: int|
                                0 <= k < incl.len() && incl[k] == Chemical::FeIon(
                                    FeType::Three,
                                );
                            assert(k != i);
                            assert(false);
                        }
                        assert(incl.contains(Chemical::FeIon(FeType::Normal)));
                        assert(q.spec_fe_type() == "Normal"@);
                        assert("Normal"@ != "Two"@);
                        assert("Normal"@ != "Three"@);
                    },
                }
                assert(ft == v);
                assert(inclusion_decl(ft, rt)[1] == c);
            },
            Chemical::AlIon => {
                assert(inclusion_decl(ft, rt)[2] == c);
            },
            Chemical::CuIon => {
                assert(inclusion_decl(ft, rt)[3] == c);
            },
            Chemical::HIon => {
                assert(inclusion_decl(ft, rt)[4] == c);
            },
            Chemical::IIon => {
                assert(inclusion_decl(ft, rt)[5] == c);
            },
            Chemical::S => {
                assert(inclusion_decl(ft, rt)[6] == c);
            },
            Chemical::Rn(w) => {
                assert forall|k: int|
                    0 <= k < incl.len() && k != i implies !(#[trigger] incl[k] matches Chemical::Rn(
                    _,
                )) by {
                    assert(incl[k].spec_ident() != incl[i].spec_ident());
                }
                match w {
                    RnType::Weak => {
                        assert(incl.contains(Chemical::Rn(RnType::Weak)));
                        assert(r.weak_rn);
                    },
                    RnType::Normal => {
                        if incl.contains(Chemical::Rn(RnType::Weak)) {
                            let k = choose|k: int|
                                0 <= k < incl.len() && incl[k] == Chemical::Rn(
                                    RnType::Weak,
                                );
                            assert(k != i);
                            assert(false);
                        }
                        assert(!r.weak_rn);
                    },
                }
                assert(rt == w);
                assert(inclusion_decl(ft, rt)[7] == c);
            },
            _ => {
                assert(false);
            },
        }
    }
    assert forall|i: int| 0 <= i < cat.len() implies cation_decl().contains(#[trigger] cat[i]) by {
        let c = cat[i];
        match c {
            Chemical::NaIon => {
                assert(cation_decl()[0] == c);
            },
            Chemical::CaIon => {
                assert(cation_decl()[1] == c);
            },
            Chemical::MgIon => {
                assert(cation_decl()[2] == c);
            },
            _ => {
                assert(false);
            },
        }
    }
    // Bucket by bucket, the positive columns carry exactly the ranked
    // bucket contents.
    lemma_bucket_multiset(cat, 1, cation_decl(), seq![r.na_ion, r.ca_ion, r.mg_ion]);
    lemma_bucket_multiset(an, 4, anion_decl(ct), seq![r.cl_ion, r.hco3_ion, r.so4_ion]);
    lemma_bucket_multiset(
        incl,
        7,
        inclusion_decl(ft, rt),
        seq![r.co2_ion, r.fe_ion, r.al_ion, r.cu_ion, r.h_ion, r.i_ion, r.s, r.rn],
    );
    lemma_spec_pairs_split(r);
    let catt = templates_of(cation_decl(), seq![r.na_ion, r.ca_ion, r.mg_ion]);
    let ant = templates_of(anion_decl(ct), seq![r.cl_ion, r.hco3_ion, r.so4_ion]);
    let inclt = templates_of(
        inclusion_decl(ft, rt),
        seq![r.co2_ion, r.fe_ion, r.al_ion, r.cu_ion, r.h_ion, r.i_ion, r.s, r.rn],
    );
    let target = ranked(cat, 1) + ranked(an, 4) + ranked(incl, 7);
    lemma_multiset_commutative(ranked(cat, 1) + ranked(an, 4), ranked(incl, 7));
    lemma_multiset_commutative(ranked(cat, 1), ranked(an, 4));
    assert(r.spec_pairs().to_multiset() == target.to_multiset()) by {
        assert(catt.to_multiset() == ranked(cat, 1).to_multiset());
        assert(ant.to_multiset() == ranked(an, 4).to_multiset());
        assert(inclt.to_multiset() == ranked(incl, 7).to_multiset());
    }
    // The target is strictly ascending by rank, so it is the one and
    // only sorted arrangement of those pairs.
    lemma_ranked_points(cat, 1);
    lemma_ranked_points(an, 4);
    lemma_ranked_points(incl, 7);
    assert(ranks_strict(target)) by {
        assert forall|i: int, j: int| 0 <= i < j < target.len() implies target[i].1 < target[j].1 by {
            let nc = cat.len() as int;
            let na = an.len() as int;
            if i < nc {
                assert(target[i] == ranked(cat, 1)[i]);
                assert(target[i].1 == i + 1);
            } else if i < nc + na {
                assert(target[i] == ranked(an, 4)[i - nc]);
                assert(target[i].1 == i - nc + 4);
            } else {
                assert(target[i] == ranked(incl, 7)[i - nc - na]);
                assert(target[i].1 == i - nc - na + 7);
            }
            if j < nc {
                assert(target[j] == ranked(cat, 1)[j]);
                assert(target[j].1 == j + 1);
            } else if j < nc + na {
                assert(target[j] == ranked(an, 4)[j - nc]);
                assert(target[j].1 == j - nc + 4);
            } else {
                assert(target[j] == ranked(incl, 7)[j - nc - na]);
                assert(target[j].1 == j - nc - na + 7);
            }
        }
    }
    lemma_sort_pairs_multiset(r.spec_pairs());
    lemma_sort_pairs_sorted(r.spec_pairs());
    lemma_sorted_unique(target, sort_pairs(r.spec_pairs()));
    assert(sort_pairs(r.spec_pairs()) == target);
    // Dropping the ranks gives back the bucket concatenation.
    assert(r.spec_decoded() =~= q.spec_chemicals()) by {
        assert forall|i: int| 0 <= i < target.len() implies chems_of(target)[i]
            == q.spec_chemicals()[i] by {
            let nc = cat.len() as int;
            let na = an.len() as int;
            if i < nc {
                assert(target[i] == ranked(cat, 1)[i]);
            } else if i < nc + na {
                assert(target[i] == ranked(an, 4)[i - nc]);
            } else {
                assert(target[i] == ranked(incl, 7)[i - nc - na]);
            }
        }
    }
    // Partitioning the concatenation afresh restores each bucket.
    lemma_repartition(cat, an, incl);
}

/// Partitioning a correctly bucketed concatenation restores each
/// bucket unchanged.
proof fn lemma_repartition(cat: Seq<Chemical>, an: Seq<Chemical>, incl: Seq<Chemical>)
    requires
        forall|i: int| 0 <= i < cat.len() ==> (#[trigger] cat[i]).spec_is_cation(),
        forall|i: int| 0 <= i < an.len() ==> (#[trigger] an[i]).spec_is_anion(),
        forall|i: int| 0 <= i < incl.len() ==> (#[trigger] incl[i]).spec_is_inclusion(),
    ensures
        cations_in(cat + an + incl) == cat,
        anions_in(cat + an + incl) == an,
        inclusions_in(cat + an + incl) == incl,
{
    broadcast use vstd::seq_lib::group_filter_ensures;

    lemma_cations_in_all(cat);
    lemma_cations_in_none(an);
    lemma_cations_in_none(incl);
    lemma_anions_in_none(cat);
    lemma_anions_in_all(an);
    lemma_anions_in_none(incl);
    lemma_inclusions_in_none(cat);
    lemma_inclusions_in_none(an);
    lemma_inclusions_in_all(incl);
    assert(cations_in(cat + an + incl) =~= cations_in(cat) + cations_in(an) + cations_in(incl));
    assert(anions_in(cat + an + incl) =~= anions_in(cat) + anions_in(an) + anions_in(incl));
    assert(inclusions_in(cat + an + incl) =~= inclusions_in(cat) + inclusions_in(an)
        + inclusions_in(incl));
    assert(cat + Seq::<Chemical>::empty() + Seq::<Chemical>::empty() =~= cat);
    assert(Seq::<Chemical>::empty() + an + Seq::<Chemical>::empty() =~= an);
    assert(Seq::<Chemical>::empty() + Seq::<Chemical>::empty() + incl =~= incl);
}

proof fn lemma_cations_in_all(s: Seq<Chemical>)
    requires
        forall|i: int| 0 <= i < s.len() ==> (#[trigger] s[i]).spec_is_cation(),
    ensures
        cations_in(s) == s,
    decreases s.len(),
{
    reveal(Seq::filter);
    if s.len() > 0 {
        lemma_cations_in_all(s.drop_last());
        assert(cations_in(s) =~= s);
    } else {
        assert(cations_in(s) =~= s);
    }
}

proof fn lemma_cations_in_none(s: Seq<Chemical>)
    requires
        forall|i: int| 0 <= i < s.len() ==> !(#[trigger] s[i]).spec_is_cation(),
    ensures
        cations_in(s) == Seq::<Chemical>::empty(),
    decreases s.len(),
{
    reveal(Seq::filter);
    if s.len() > 0 {
        lemma_cations_in_none(s.drop_last());
    } else {
        assert(cations_in(s) =~= Seq::<Chemical>::empty());
    }
}

proof fn lemma_anions_in_all(s: Seq<Chemical>)
    requires
        forall|i: int| 0 <= i < s.len() ==> (#[trigger] s[i]).spec_is_anion(),
    ensures
        anions_in(s) == s,
    decreases s.len(),
{
    reveal(Seq::filter);
    if s.len() > 0 {
        lemma_anions_in_all(s.drop_last());
        assert(anions_in(s) =~= s);
    } else {
        assert(anions_in(s) =~= s);
    }
}

proof fn lemma_anions_in_none(s: Seq<Chemical>)
    requires
        forall|i: int| 0 <= i < s.len() ==> !(#[trigger] s[i]).spec_is_anion(),
    ensures
        anions_in(s) == Seq::<Chemical>::empty(),
    decreases s.len(),
{
    reveal(Seq::filter);
    if s.len() > 0 {
        lemma_anions_in_none(s.drop_last());
    } else {
        assert(anions_in(s) =~= Seq::<Chemical>::empty());
    }
}

proof fn lemma_inclusions_in_all(s: Seq<Chemical>)
    requires
        forall|i: int| 0 <= i < s.len() ==> (#[trigger] s[i]).spec_is_inclusion(),
    ensures
        inclusions_in(s) == s,
    decreases s.len(),
{
    reveal(Seq::filter);
    if s.len() > 0 {
        lemma_inclusions_in_all(s.drop_last());
        assert(inclusions_in(s) =~= s);
    } else {
        assert(inclusions_in(s) =~= s);
    }
}

proof fn lemma_inclusions_in_none(s: Seq<Chemical>)
    requires
        forall|i: int| 0 <= i < s.len() ==> !(#[trigger] s[i]).spec_is_inclusion(),
    ensures
        inclusions_in(s) == Seq::<Chemical>::empty(),
    decreases s.len(),
{
    reveal(Seq::filter);
    if s.len() > 0 {
        lemma_inclusions_in_none(s.drop_last());
    } else {
        assert(inclusions_in(s) =~= Seq::<Chemical>::empty());
    }
}

proof fn lemma_cations_in_sub(s: Seq<Chemical>)
    ensures
        forall|i: int| 0 <= i < cations_in(s).len() ==> s.contains(#[trigger] cations_in(s)[i]),
        forall|i: int| 0 <= i < cations_in(s).len() ==> (#[trigger] cations_in(s)[i]).spec_is_cation(),
        distinct_idents(s) ==> distinct_idents(cations_in(s)),
    decreases s.len(),
{
    reveal(Seq::filter);
    if s.len() > 0 {
        let d = s.drop_last();
        lemma_cations_in_sub(d);
        let f = cations_in(s);
        let fd = cations_in(d);
        assert forall|i: int| 0 <= i < f.len() implies s.contains(#[trigger] f[i]) by {
            if i < fd.len() {
                assert(f[i] == fd[i]);
                let k = choose|k: int| 0 <= k < d.len() && d[k] == fd[i];
                assert(s[k] == fd[i]);
            } else {
                assert(f[i] == s.last());
                assert(s[s.len() - 1] == s.last());
            }
        }
        assert forall|i: int| 0 <= i < f.len() implies (#[trigger] f[i]).spec_is_cation() by {
            if i < fd.len() {
                assert(f[i] == fd[i]);
            } else {
                assert(f[i] == s.last());
            }
        }
        if distinct_idents(s) {
            assert forall|i: int, j: int|
                0 <= i < j < f.len() implies f[i].spec_ident() != f[j].spec_ident() by {
                if j < fd.len() {
                } else {
                    assert(f[j] == s.last());
                    assert(f[i] == fd[i]);
                    let k = choose|k: int| 0 <= k < d.len() && d[k] == fd[i];
                    assert(s[k].spec_ident() != s[s.len() - 1].spec_ident());
                }
            }
        }
    }
}

proof fn lemma_anions_in_sub(s: Seq<Chemical>)
    ensures
        forall|i: int| 0 <= i < anions_in(s).len() ==> s.contains(#[trigger] anions_in(s)[i]),
        forall|i: int| 0 <= i < anions_in(s).len() ==> (#[trigger] anions_in(s)[i]).spec_is_anion(),
        distinct_idents(s) ==> distinct_idents(anions_in(s)),
    decreases s.len(),
{
    reveal(Seq::filter);
    if s.len() > 0 {
        let d = s.drop_last();
        lemma_anions_in_sub(d);
        let f = anions_in(s);
        let fd = anions_in(d);
        assert forall|i: int| 0 <= i < f.len() implies s.contains(#[trigger] f[i]) by {
            if i < fd.len() {
                assert(f[i] == fd[i]);
                let k = choose|k: int| 0 <= k < d.len() && d[k] == fd[i];
                assert(s[k] == fd[i]);
            } else {
                assert(f[i] == s.last());
                assert(s[s.len() - 1] == s.last());
            }
        }
        assert forall|i: int| 0 <= i < f.len() implies (#[trigger] f[i]).spec_is_anion() by {
            if i < fd.len() {
                assert(f[i] == fd[i]);
            } else {
                assert(f[i] == s.last());
            }
        }
        if distinct_idents(s) {
            assert forall|i: int, j: int|
                0 <= i < j < f.len() implies f[i].spec_ident() != f[j].spec_ident() by {
                if j < fd.len() {
                } else {
                    assert(f[j] == s.last());
                    assert(f[i] == fd[i]);
                    let k = choose|k: int| 0 <= k < d.len() && d[k] == fd[i];
                    assert(s[k].spec_ident() != s[s.len() - 1].spec_ident());
                }
            }
        }
    }
}

proof fn lemma_inclusions_in_sub(s: Seq<Chemical>)
    ensures
        forall|i: int| 0 <= i < inclusions_in(s).len() ==> s.contains(#[trigger] inclusions_in(s)[i]),
        forall|i: int| 0 <= i < inclusions_in(s).len() ==> (#[trigger] inclusions_in(s)[i]).spec_is_inclusion(),
        distinct_idents(s) ==> distinct_idents(inclusions_in(s)),
    decreases s.len(),
{
    reveal(Seq::filter);
    if s.len() > 0 {
        let d = s.drop_last();
        lemma_inclusions_in_sub(d);
        let f = inclusions_in(s);
        let fd = inclusions_in(d);
        assert forall|i: int| 0 <= i < f.len() implies s.contains(#[trigger] f[i]) by {
            if i < fd.len() {
                assert(f[i] == fd[i]);
                let k = choose|k: int| 0 <= k < d.len() && d[k] == fd[i];
                assert(s[k] == fd[i]);
            } else {
                assert(f[i] == s.last());
                assert(s[s.len() - 1] == s.last());
            }
        }
        assert forall|i: int| 0 <= i < f.len() implies (#[trigger] f[i]).spec_is_inclusion() by {
            if i < fd.len() {
                assert(f[i] == fd[i]);
            } else {
                assert(f[i] == s.last());
            }
        }
        if distinct_idents(s) {
            assert forall|i: int, j: int|
                0 <= i < j < f.len() implies f[i].spec_ident() != f[j].spec_ident() by {
                if j < fd.len() {
                } else {
                    assert(f[j] == s.last());
                    assert(f[i] == fd[i]);
                    let k = choose|k: int| 0 <= k < d.len() && d[k] == fd[i];
                    assert(s[k].spec_ident() != s[s.len() - 1].spec_ident());
                }
            }
        }
    }
}

proof fn lemma_cations_in_has_na(s: Seq<Chemical>)
    requires
        s.contains(Chemical::NaIon),
    ensures
        cations_in(s).contains(Chemical::NaIon),
    decreases s.len(),
{
    reveal(Seq::filter);
    let d = s.drop_last();
    let f = cations_in(s);
    let fd = cations_in(d);
    if s.last() == Chemical::NaIon {
        assert(f == fd.push(Chemical::NaIon));
        assert(f[f.len() - 1] == Chemical::NaIon);
        assert(f.contains(Chemical::NaIon));
    } else {
        let k = choose|k: int| 0 <= k < s.len() && s[k] == Chemical::NaIon;
        assert(d[k] == Chemical::NaIon);
        assert(d.contains(Chemical::NaIon));
        lemma_cations_in_has_na(d);
        let m = choose|m: int| 0 <= m < fd.len() && fd[m] == Chemical::NaIon;
        if s.last().spec_is_cation() {
            assert(f == fd.push(s.last()));
            assert(f[m] == Chemical::NaIon);
        } else {
            assert(f == fd);
        }
        assert(f.contains(Chemical::NaIon));
    }
}

/// The buckets built by the constructor are correctly categorized and
/// inherit distinct identities from a duplicate-free input.
pub proof fn lemma_new_bucket_props(cs: Seq<Chemical>, liquid: Option<SpringLiquid>, q: OnsenQuality)
    requires
        distinct_idents(cs),
        spec_new(q, cs, liquid),
    ensures
        forall|i: int| 0 <= i < q.cations@.len() ==> (#[trigger] q.cations@[i]).spec_is_cation(),
        forall|i: int| 0 <= i < q.anions@.len() ==> (#[trigger] q.anions@[i]).spec_is_anion(),
        forall|i: int|
            0 <= i < q.inclusions@.len() ==> (#[trigger] q.inclusions@[i]).spec_is_inclusion(),
        distinct_idents(q.cations@),
        distinct_idents(q.anions@),
        distinct_idents(q.inclusions@),
{
    lemma_cations_in_sub(cs);
    lemma_anions_in_sub(cs);
    lemma_inclusions_in_sub(cs);
}

/// A strong chloride in the built anion bucket is accompanied by
/// sodium in the cation bucket whenever the input list pairs the two.
pub proof fn lemma_new_strong_cl(cs: Seq<Chemical>, liquid: Option<SpringLiquid>, q: OnsenQuality)
    requires
        spec_new(q, cs, liquid),
        cs.contains(Chemical::ClIon(ClType::Strong)) ==> cs.contains(Chemical::NaIon),
    ensures
        q.anions@.contains(Chemical::ClIon(ClType::Strong)) ==> q.cations@.contains(
            Chemical::NaIon,
        ),
{
    lemma_anions_in_sub(cs);
    if q.anions@.contains(Chemical::ClIon(ClType::Strong)) {
        let i = choose|i: int|
            0 <= i < q.anions@.len() && q.anions@[i] == Chemical::ClIon(ClType::Strong);
        assert(cs.contains(q.anions@[i]));
        lemma_cations_in_has_na(cs);
    }
}

/// The round-trip law, phrased over the constructor's input: for
/// every constituent list with pairwise distinct identities (and
/// whose strong chloride, if any, is accompanied by sodium), the
/// record encoding the aggregate built from the list decodes back to
/// the same bucket contents and order.
pub proof fn lemma_round_trip_from_list(
    cs: Seq<Chemical>,
    liquid: Option<SpringLiquid>,
    q: OnsenQuality,
    r: DieselChemical,
)
    requires
        distinct_idents(cs),
        cs.contains(Chemical::ClIon(ClType::Strong)) ==> cs.contains(Chemical::NaIon),
        spec_new(q, cs, liquid),
        spec_encodes(r, q),
    ensures
        spec_round_trips(r, q),
{
    lemma_new_bucket_props(cs, liquid, q);
    lemma_new_strong_cl(cs, liquid, q);
    lemma_round_trip(q, r);
}

} // verus!
