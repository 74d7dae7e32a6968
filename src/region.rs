use vstd::prelude::*;

verus! {

/// Norway is divided into five price regions, each with its own hourly price.
#[derive(Clone, Copy, PartialEq, Eq, Structural, Hash, Debug)]
pub enum PriceRegion {
    /// Oslo / Øst-Norge
    NO1,
    /// Kristiansand / Sør-Norge
    NO2,
    /// Trondheim / Midt-Norge
    NO3,
    /// Tromsø / Nord-Norge
    NO4,
    /// Bergen / Vest-Norge
    NO5,
}

impl PriceRegion {
    /// The path token of the region: the region's name in upper case.
    pub open spec fn token_spec(self) -> Seq<char> {
        match self {
            PriceRegion::NO1 => seq!['N', 'O', '1'],
            PriceRegion::NO2 => seq!['N', 'O', '2'],
            PriceRegion::NO3 => seq!['N', 'O', '3'],
            PriceRegion::NO4 => seq!['N', 'O', '4'],
            PriceRegion::NO5 => seq!['N', 'O', '5'],
        }
    }

    /// The token that names the region in a request path.
    pub fn token(&self) -> (r: &'static str)
        ensures
            r@ == self.token_spec(),
    {
        match self {
            PriceRegion::NO1 => {
                let r = "NO1";
                proof { reveal_strlit("NO1"); }
                assert(r@ =~= self.token_spec());
                r
            },
            PriceRegion::NO2 => {
                let r = "NO2";
                proof { reveal_strlit("NO2"); }
                assert(r@ =~= self.token_spec());
                r
            },
            PriceRegion::NO3 => {
                let r = "NO3";
                proof { reveal_strlit("NO3"); }
                assert(r@ =~= self.token_spec());
                r
            },
            PriceRegion::NO4 => {
                let r = "NO4";
                proof { reveal_strlit("NO4"); }
                assert(r@ =~= self.token_spec());
                r
            },
            PriceRegion::NO5 => {
                let r = "NO5";
                proof { reveal_strlit("NO5"); }
                assert(r@ =~= self.token_spec());
                r
            },
        }
    }
}

/// The region-to-token mapping is a bijection: distinct regions have
/// distinct tokens, and every token of the form `NO1` to `NO5` names a region.
pub proof fn lemma_token_bijective(a: PriceRegion, b: PriceRegion, t: Seq<char>)
    ensures
        a.token_spec() == b.token_spec() <==> a == b,
        (t == seq!['N', 'O', '1'] || t == seq!['N', 'O', '2'] || t == seq!['N', 'O', '3']
            || t == seq!['N', 'O', '4'] || t == seq!['N', 'O', '5']) <==> exists|r: PriceRegion|
            r.token_spec() == t,
{
    if a.token_spec() == b.token_spec() {
        assert(a.token_spec()[2] == b.token_spec()[2]);
    }
    if exists|r: PriceRegion| r.token_spec() == t {
        let r = choose|r: PriceRegion| r.token_spec() == t;
        assert(r.token_spec() == t);
    }
    if t == seq!['N', 'O', '1'] { assert(PriceRegion::NO1.token_spec() == t); }
    if t == seq!['N', 'O', '2'] { assert(PriceRegion::NO2.token_spec() == t); }
    if t == seq!['N', 'O', '3'] { assert(PriceRegion::NO3.token_spec() == t); }
    if t == seq!['N', 'O', '4'] { assert(PriceRegion::NO4.token_spec() == t); }
    if t == seq!['N', 'O', '5'] { assert(PriceRegion::NO5.token_spec() == t); }
}

} // verus!
