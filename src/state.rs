use vstd::prelude::*;

verus! {

/// A 32-byte identifier: an account address, a unit type, a sale id.
#[derive(Debug, Clone, Copy)]
pub struct Key {
    pub bytes: [u8; 32],
}

impl View for Key {
    type V = Seq<u8>;

    open spec fn view(&self) -> Seq<u8> {
        self.bytes@
    }
}

impl Key {
    pub fn new(bytes: [u8; 32]) -> (r: Key)
        ensures
            r@ == bytes@,
    {
        Key { bytes }
    }
}

impl PartialEq for Key {
    fn eq(&self, o: &Key) -> (r: bool)
        ensures
            r == (self@ == o@),
    {
        let mut i: usize = 0;
        while i < 32
            invariant
                0 <= i <= 32,
                forall|j: int| 0 <= j < i ==> self@[j] == o@[j],
            decreases 32 - i,
        {
            if self.bytes[i] != o.bytes[i] {
                return false;
            }
            i = i + 1;
        }
        assert(self@ =~= o@);
        true
    }
}

impl vstd::std_specs::cmp::PartialEqSpecImpl for Key {
    open spec fn obeys_eq_spec() -> bool {
        true
    }

    open spec fn eq_spec(&self, o: &Key) -> bool {
        self@ == o@
    }
}

impl Eq for Key {
}

/// The phase of a sale: purchases are taken only while it is open.
#[derive(Debug, Clone, Copy, PartialEq, Eq, Structural)]
pub enum CrowdsaleStatus {
    /// The sale takes purchases.
    Open,
    /// The sale takes no more purchases; the owner may withdraw.
    Closed,
}

/// The name under which a status is shown.
pub open spec fn status_name(s: CrowdsaleStatus) -> Seq<char> {
    match s {
        CrowdsaleStatus::Open => seq!['O', 'p', 'e', 'n'],
        CrowdsaleStatus::Closed => seq!['C', 'l', 'o', 's', 'e', 'd'],
    }
}

impl CrowdsaleStatus {
    pub fn to_string(&self) -> (r: String)
        ensures
            r@ == status_name(*self),
    {
        match self {
            CrowdsaleStatus::Open => {
                let s = String::from_str("Open");
                proof {
                    reveal_strlit("Open");
                }
                assert(s@ =~= status_name(*self));
                s
            },
            CrowdsaleStatus::Closed => {
                let s = String::from_str("Closed");
                proof {
                    reveal_strlit("Closed");
                }
                assert(s@ =~= status_name(*self));
                s
            },
        }
    }
}

/// A sale record: its configuration, fixed at creation, and its phase.
#[derive(Debug, Clone, Copy)]
pub struct Crowdsale {
    /// The sale's id; it seeds the record's address and its custody authority.
    pub id: Key,
    /// The cost of one unit in the native currency.
    pub cost: u32,
    /// The type of the units on sale.
    pub mint_account: Key,
    /// The vault that holds the unsold units.
    pub token_account: Key,
    pub status: CrowdsaleStatus,
    /// The identity that receives the proceeds and may close and withdraw.
    pub owner: Key,
}

impl Crowdsale {
    /// Bytes the record takes in storage: its fields, and 32 spare bytes for
    /// fields to come.
    pub const MAXIMUM_SIZE: usize = 32 + 4 + 32 + 32 + 1 + 32 + 32;

    /// A record that a successful creation can produce: its cost is positive.
    pub open spec fn wf(&self) -> bool {
        self.cost > 0
    }
}

} // verus!
