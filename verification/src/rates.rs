//! The reference odds tables seeded by `initialize`: one payout multiplier
//! per bet number, scaled by 10,000, for each side. The Under table is the
//! numeric mirror (reverse) of the Over table.
use vstd::prelude::*;

verus! {

/// The Over-side payout multipliers, indexed by bet number.
pub open spec fn default_over_rates_seq() -> Seq<u32> {
    seq![
        0u32, 0, 0, 0, 10368, 10478, 10591, 10706, 10824, 10944, 11067, 11193, 11321, 11453,
        11588, 11726, 11867, 12012, 12160, 12312, 12468, 12628, 12792, 12960, 13133, 13310,
        13493, 13680, 13873, 14071, 14275, 14485, 14701, 14924, 15153, 15390, 15634, 15887,
        16147, 16416, 16694, 16982, 17280, 17589, 17909, 18240, 18584, 18942, 19313, 19700,
        20102, 20520, 20957, 21413, 21888, 22386, 22906, 23452, 24024, 24625, 25256, 25921,
        26621, 27361, 28142, 28970, 29848, 30781, 31774, 32833, 33965, 35178, 36481, 37884,
        39400, 41041, 42826, 44772, 46904, 49250, 51842, 54722, 57941, 61562, 65666, 70357,
        75769, 82083, 89545, 98500, 109444, 123125, 140714, 164166, 197000, 246250, 328333,
        492500, 985000, 0,
    ]
}

/// The Under-side payout multipliers, indexed by bet number.
pub open spec fn default_under_rates_seq() -> Seq<u32> {
    seq![
        0u32, 985000, 492500, 328333, 246250, 197000, 164166, 140714, 123125, 109444, 98500,
        89545, 82083, 75769, 70357, 65666, 61562, 57941, 54722, 51842, 49250, 46904, 44772,
        42826, 41041, 39400, 37884, 36481, 35178, 33965, 32833, 31774, 30781, 29848, 28970,
        28142, 27361, 26621, 25921, 25256, 24625, 24024, 23452, 22906, 22386, 21888, 21413,
        20957, 20520, 20102, 19700, 19313, 18942, 18584, 18240, 17909, 17589, 17280, 16982,
        16694, 16416, 16147, 15887, 15634, 15390, 15153, 14924, 14701, 14485, 14275, 14071,
        13873, 13680, 13493, 13310, 13133, 12960, 12792, 12628, 12468, 12312, 12160, 12012,
        11867, 11726, 11588, 11453, 11321, 11193, 11067, 10944, 10824, 10706, 10591, 10478,
        10368, 0, 0, 0, 0,
    ]
}

/// The two reference tables are numeric mirrors: the Under table is the
/// Over table reversed, so both sides price the same distances from the
/// ends of the roll identically.
pub proof fn law_under_table_mirrors_over_table()
    ensures
        default_under_rates_seq() == default_over_rates_seq().reverse(),
{
    assert(default_under_rates_seq() =~= default_over_rates_seq().reverse());
}

/// Builds the Over table.
pub fn default_over_rates() -> (r: Vec<u32>)
    ensures
        r@ == default_over_rates_seq(),
{
    let r: Vec<u32> = vec![
        0u32, 0, 0, 0, 10368, 10478, 10591, 10706, 10824, 10944, 11067, 11193, 11321, 11453,
        11588, 11726, 11867, 12012, 12160, 12312, 12468, 12628, 12792, 12960, 13133, 13310,
        13493, 13680, 13873, 14071, 14275, 14485, 14701, 14924, 15153, 15390, 15634, 15887,
        16147, 16416, 16694, 16982, 17280, 17589, 17909, 18240, 18584, 18942, 19313, 19700,
        20102, 20520, 20957, 21413, 21888, 22386, 22906, 23452, 24024, 24625, 25256, 25921,
        26621, 27361, 28142, 28970, 29848, 30781, 31774, 32833, 33965, 35178, 36481, 37884,
        39400, 41041, 42826, 44772, 46904, 49250, 51842, 54722, 57941, 61562, 65666, 70357,
        75769, 82083, 89545, 98500, 109444, 123125, 140714, 164166, 197000, 246250, 328333,
        492500, 985000, 0,
    ];
    proof {
        assert(r@ =~= default_over_rates_seq());
    }
    r
}

/// Builds the Under table.
pub fn default_under_rates() -> (r: Vec<u32>)
    ensures
        r@ == default_under_rates_seq(),
{
    let r: Vec<u32> = vec![
        0u32, 985000, 492500, 328333, 246250, 197000, 164166, 140714, 123125, 109444, 98500,
        89545, 82083, 75769, 70357, 65666, 61562, 57941, 54722, 51842, 49250, 46904, 44772,
        42826, 41041, 39400, 37884, 36481, 35178, 33965, 32833, 31774, 30781, 29848, 28970,
        28142, 27361, 26621, 25921, 25256, 24625, 24024, 23452, 22906, 22386, 21888, 21413,
        20957, 20520, 20102, 19700, 19313, 18942, 18584, 18240, 17909, 17589, 17280, 16982,
        16694, 16416, 16147, 15887, 15634, 15390, 15153, 14924, 14701, 14485, 14275, 14071,
        13873, 13680, 13493, 13310, 13133, 12960, 12792, 12628, 12468, 12312, 12160, 12012,
        11867, 11726, 11588, 11453, 11321, 11193, 11067, 10944, 10824, 10706, 10591, 10478,
        10368, 0, 0, 0, 0,
    ];
    proof {
        assert(r@ =~= default_under_rates_seq());
    }
    r
}

} // verus!
