//! The well-known development accounts.

use sp_keyring::Sr25519Keyring;
use vstd::prelude::*;

verus! {

/// A development account.
#[derive(Debug, Clone, Copy, PartialEq, Eq, Structural)]
pub enum Keyring {
    Alice,
    Bob,
    Charlie,
    Dave,
    Eve,
    Ferdie,
    AliceStash,
    BobStash,
    CharlieStash,
    DaveStash,
    EveStash,
    FerdieStash,
    One,
    Two,
}

impl Keyring {
    /// The name of the account.
    pub open spec fn name(self) -> Seq<char> {
        match self {
            Keyring::Alice => "Alice"@,
            Keyring::Bob => "Bob"@,
            Keyring::Charlie => "Charlie"@,
            Keyring::Dave => "Dave"@,
            Keyring::Eve => "Eve"@,
            Keyring::Ferdie => "Ferdie"@,
            Keyring::AliceStash => "AliceStash"@,
            Keyring::BobStash => "BobStash"@,
            Keyring::CharlieStash => "CharlieStash"@,
            Keyring::DaveStash => "DaveStash"@,
            Keyring::EveStash => "EveStash"@,
            Keyring::FerdieStash => "FerdieStash"@,
            Keyring::One => "One"@,
            Keyring::Two => "Two"@,
        }
    }

    /// The seed that the account's key is derived from: two slashes and the name.
    pub open spec fn seed(self) -> Seq<char> {
        "//"@ + self.name()
    }
}

/// `sp_keyring::Sr25519Keyring::to_seed`: the seed of an account is `//` followed by the name of
/// the account's variant.
#[verifier::external_body]
pub(crate) fn to_seed(key: Keyring) -> (seed: String)
    ensures
        seed@ == key.seed(),
{
    match key {
        Keyring::Alice => Sr25519Keyring::Alice, Keyring::Bob => Sr25519Keyring::Bob,
        Keyring::Charlie => Sr25519Keyring::Charlie, Keyring::Dave => Sr25519Keyring::Dave,
        Keyring::Eve => Sr25519Keyring::Eve, Keyring::Ferdie => Sr25519Keyring::Ferdie,
        Keyring::AliceStash => Sr25519Keyring::AliceStash, Keyring::BobStash => Sr25519Keyring::BobStash,
        Keyring::CharlieStash => Sr25519Keyring::CharlieStash,
        Keyring::DaveStash => Sr25519Keyring::DaveStash,
        Keyring::EveStash => Sr25519Keyring::EveStash,
        Keyring::FerdieStash => Sr25519Keyring::FerdieStash,
        Keyring::One => Sr25519Keyring::One, Keyring::Two => Sr25519Keyring::Two,
    }.to_seed()
}

/// Names of the same length begin with different letters.
proof fn lemma_name_shape(key: Keyring)
    ensures
        key.name().len() == match key {
            Keyring::Alice => 5nat,
            Keyring::Bob => 3nat,
            Keyring::Charlie => 7nat,
            Keyring::Dave => 4nat,
            Keyring::Eve => 3nat,
            Keyring::Ferdie => 6nat,
            Keyring::AliceStash => 10nat,
            Keyring::BobStash => 8nat,
            Keyring::CharlieStash => 12nat,
            Keyring::DaveStash => 9nat,
            Keyring::EveStash => 8nat,
            Keyring::FerdieStash => 11nat,
            Keyring::One => 3nat,
            Keyring::Two => 3nat,
        },
        key.name()[0] == match key {
            Keyring::Alice => 'A',
            Keyring::Bob => 'B',
            Keyring::Charlie => 'C',
            Keyring::Dave => 'D',
            Keyring::Eve => 'E',
            Keyring::Ferdie => 'F',
            Keyring::AliceStash => 'A',
            Keyring::BobStash => 'B',
            Keyring::CharlieStash => 'C',
            Keyring::DaveStash => 'D',
            Keyring::EveStash => 'E',
            Keyring::FerdieStash => 'F',
            Keyring::One => 'O',
            Keyring::Two => 'T',
        },
{
    reveal_strlit("Alice");
    reveal_strlit("Bob");
    reveal_strlit("Charlie");
    reveal_strlit("Dave");
    reveal_strlit("Eve");
    reveal_strlit("Ferdie");
    reveal_strlit("AliceStash");
    reveal_strlit("BobStash");
    reveal_strlit("CharlieStash");
    reveal_strlit("DaveStash");
    reveal_strlit("EveStash");
    reveal_strlit("FerdieStash");
    reveal_strlit("One");
    reveal_strlit("Two");
}

/// No two accounts share a seed.
pub proof fn law_seeds_are_distinct(a: Keyring, b: Keyring)
    ensures
        a.seed() == b.seed() <==> a == b,
{
    if a.seed() == b.seed() {
        assert(a.name() =~= a.seed().skip("//"@.len() as int));
        assert(b.name() =~= b.seed().skip("//"@.len() as int));
        lemma_name_shape(a);
        lemma_name_shape(b);
    }
}

/// The seed of an account is written as two slashes and a name, which has the length and the first
/// letter of the account's.
pub proof fn law_seed_spells_the_account(key: Keyring)
    ensures
        key.seed().len() == 2 + match key {
            Keyring::Alice => 5int,
            Keyring::Bob => 3int,
            Keyring::Charlie => 7int,
            Keyring::Dave => 4int,
            Keyring::Eve => 3int,
            Keyring::Ferdie => 6int,
            Keyring::AliceStash => 10int,
            Keyring::BobStash => 8int,
            Keyring::CharlieStash => 12int,
            Keyring::DaveStash => 9int,
            Keyring::EveStash => 8int,
            Keyring::FerdieStash => 11int,
            Keyring::One => 3int,
            Keyring::Two => 3int,
        },
        key.seed()[0] == '/',
        key.seed()[1] == '/',
        key.seed()[2] == match key {
            Keyring::Alice => 'A',
            Keyring::Bob => 'B',
            Keyring::Charlie => 'C',
            Keyring::Dave => 'D',
            Keyring::Eve => 'E',
            Keyring::Ferdie => 'F',
            Keyring::AliceStash => 'A',
            Keyring::BobStash => 'B',
            Keyring::CharlieStash => 'C',
            Keyring::DaveStash => 'D',
            Keyring::EveStash => 'E',
            Keyring::FerdieStash => 'F',
            Keyring::One => 'O',
            Keyring::Two => 'T',
        },
{
    reveal_strlit("//");
    lemma_name_shape(key);
}

} // verus!
