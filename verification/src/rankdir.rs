//! The DOT `rankdir` attribute: which way ranks of nodes are laid out.

use vstd::prelude::*;

use crate::text::{spec_trim_quotes, trim_quotes};

verus! {

/// Direction of graph layout, as the DOT `rankdir` attribute names it.
#[derive(Debug, Clone, Copy, PartialEq, Eq, Structural)]
pub enum RankDir {
    TB,
    LR,
    BT,
    RL,
}

impl RankDir {
    /// The flex-box class that lays ranks out in this direction.
    pub open spec fn spec_flex_class(self) -> Seq<char> {
        match self {
            RankDir::TB => "flex-col"@,
            RankDir::LR => "flex-row"@,
            RankDir::BT => "flex-col-reverse"@,
            RankDir::RL => "flex-row-reverse"@,
        }
    }

    pub fn flex_class(self) -> (r: &'static str)
        ensures
            r@ == self.spec_flex_class(),
    {
        match self {
            RankDir::TB => "flex-col",
            RankDir::LR => "flex-row",
            RankDir::BT => "flex-col-reverse",
            RankDir::RL => "flex-row-reverse",
        }
    }

    /// Which direction a `rankdir` value names once its quote marks are
    /// stripped; anything unknown falls back to top-to-bottom.
    pub open spec fn spec_from_str(s: Seq<char>) -> RankDir {
        let t = spec_trim_quotes(s);
        if t == "LR"@ {
            RankDir::LR
        } else if t == "BT"@ {
            RankDir::BT
        } else if t == "RL"@ {
            RankDir::RL
        } else {
            RankDir::TB
        }
    }

    pub fn from_str(s: &str) -> (r: RankDir)
        ensures
            r == RankDir::spec_from_str(s@),
    {
        proof {
            reveal_strlit("LR");
            reveal_strlit("BT");
            reveal_strlit("RL");
        }
        let t = trim_quotes(s);
        if t.unicode_len() != 2 {
            return RankDir::TB;
        }
        let c0 = t.get_char(0);
        let c1 = t.get_char(1);
        proof {
            assert(t@ == "LR"@ <==> c0 == 'L' && c1 == 'R') by {
                if c0 == 'L' && c1 == 'R' {
                    assert(t@ =~= "LR"@);
                }
            }
            assert(t@ == "BT"@ <==> c0 == 'B' && c1 == 'T') by {
                if c0 == 'B' && c1 == 'T' {
                    assert(t@ =~= "BT"@);
                }
            }
            assert(t@ == "RL"@ <==> c0 == 'R' && c1 == 'L') by {
                if c0 == 'R' && c1 == 'L' {
                    assert(t@ =~= "RL"@);
                }
            }
        }
        if c0 == 'L' && c1 == 'R' {
            RankDir::LR
        } else if c0 == 'B' && c1 == 'T' {
            RankDir::BT
        } else if c0 == 'R' && c1 == 'L' {
            RankDir::RL
        } else {
            RankDir::TB
        }
    }

    /// The spelling this direction has in DOT output.
    pub open spec fn spec_to_str(self) -> Seq<char> {
        match self {
            RankDir::TB => "TB"@,
            RankDir::LR => "LR"@,
            RankDir::BT => "BT"@,
            RankDir::RL => "RL"@,
        }
    }

    pub fn to_str(self) -> (r: &'static str)
        ensures
            r@ == self.spec_to_str(),
    {
        match self {
            RankDir::TB => "TB",
            RankDir::LR => "LR",
            RankDir::BT => "BT",
            RankDir::RL => "RL",
        }
    }
}

} // verus!
