//! The six record types that a lookup covers, and their canonical order.
use vstd::prelude::*;
use vstd::string::*;

verus! {

/// A supported DNS record type. The declaration order is the order in which
/// results are reported.
#[derive(Clone, Copy, Debug, PartialEq, Eq, Structural)]
pub enum RecordType {
    A,
    Aaaa,
    Mx,
    Ns,
    Txt,
    Cname,
}

/// Number of supported record types.
pub const RECORD_TYPE_COUNT: usize = 6;

/// The record types in the order in which a lookup reports them.
pub open spec fn canonical_order() -> Seq<RecordType> {
    seq![
        RecordType::A,
        RecordType::Aaaa,
        RecordType::Mx,
        RecordType::Ns,
        RecordType::Txt,
        RecordType::Cname,
    ]
}

impl RecordType {
    /// Position of the type in the canonical order.
    pub open spec fn position(self) -> nat {
        match self {
            RecordType::A => 0,
            RecordType::Aaaa => 1,
            RecordType::Mx => 2,
            RecordType::Ns => 3,
            RecordType::Txt => 4,
            RecordType::Cname => 5,
        }
    }

    /// The tag under which the type is reported.
    pub open spec fn label(self) -> Seq<char> {
        match self {
            RecordType::A => seq!['A'],
            RecordType::Aaaa => seq!['A', 'A', 'A', 'A'],
            RecordType::Mx => seq!['M', 'X'],
            RecordType::Ns => seq!['N', 'S'],
            RecordType::Txt => seq!['T', 'X', 'T'],
            RecordType::Cname => seq!['C', 'N', 'A', 'M', 'E'],
        }
    }

    pub fn index(&self) -> (r: usize)
        ensures
            r == self.position(),
            r < RECORD_TYPE_COUNT,
    {
        match self {
            RecordType::A => 0,
            RecordType::Aaaa => 1,
            RecordType::Mx => 2,
            RecordType::Ns => 3,
            RecordType::Txt => 4,
            RecordType::Cname => 5,
        }
    }

    pub fn from_index(i: usize) -> (r: RecordType)
        requires
            i < RECORD_TYPE_COUNT,
        ensures
            r.position() == i,
            r == canonical_order()[i as int],
    {
        if i == 0 {
            RecordType::A
        } else if i == 1 {
            RecordType::Aaaa
        } else if i == 2 {
            RecordType::Mx
        } else if i == 3 {
            RecordType::Ns
        } else if i == 4 {
            RecordType::Txt
        } else {
            RecordType::Cname
        }
    }

    /// The tag as text: `A`, `AAAA`, `MX`, `NS`, `TXT` or `CNAME`.
    pub fn name(&self) -> (r: String)
        ensures
            r@ == self.label(),
    {
        match self {
            RecordType::A => {
                let r = String::from_str("A");
                proof {
                    reveal_strlit("A");
                }
                assert(r@ =~= self.label());
                r
            },
            RecordType::Aaaa => {
                let r = String::from_str("AAAA");
                proof {
                    reveal_strlit("AAAA");
                }
                assert(r@ =~= self.label());
                r
            },
            RecordType::Mx => {
                let r = String::from_str("MX");
                proof {
                    reveal_strlit("MX");
                }
                assert(r@ =~= self.label());
                r
            },
            RecordType::Ns => {
                let r = String::from_str("NS");
                proof {
                    reveal_strlit("NS");
                }
                assert(r@ =~= self.label());
                r
            },
            RecordType::Txt => {
                let r = String::from_str("TXT");
                proof {
                    reveal_strlit("TXT");
                }
                assert(r@ =~= self.label());
                r
            },
            RecordType::Cname => {
                let r = String::from_str("CNAME");
                proof {
                    reveal_strlit("CNAME");
                }
                assert(r@ =~= self.label());
                r
            },
        }
    }

    /// All supported types, in canonical order.
    pub fn all() -> (r: Vec<RecordType>)
        ensures
            r@ == canonical_order(),
    {
        let r = vec![
            RecordType::A,
            RecordType::Aaaa,
            RecordType::Mx,
            RecordType::Ns,
            RecordType::Txt,
            RecordType::Cname,
        ];
        assert(r@ =~= canonical_order());
        r
    }
}

/// Every supported type occurs in the canonical order exactly once, at its
/// own position.
pub proof fn lemma_canonical_order_is_a_permutation()
    ensures
        canonical_order().len() == RECORD_TYPE_COUNT,
        forall|i: int| 0 <= i < RECORD_TYPE_COUNT ==> (#[trigger] canonical_order()[i]).position() == i,
        forall|t: RecordType| canonical_order()[#[trigger] t.position() as int] == t,
        forall|t: RecordType| #![trigger t.position()] t.position() < RECORD_TYPE_COUNT,
{
}

} // verus!
