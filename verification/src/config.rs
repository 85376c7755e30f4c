//! The reward-catalog configuration the companion tooling commits.
//!
//! The tree height is the single source of truth for the committed tree's
//! shape; the item list is the catalog that the data-preparation tooling
//! pads to the tree size and commits leaf by leaf.

use vstd::prelude::*;

verus! {

/// Height of the committed Merkle tree.
pub const TREE_HEIGHT: usize = 4;

/// Number of leaves of the committed tree.
pub const TREE_SIZE: usize = 1 << TREE_HEIGHT;

/// A catalog entry as the tooling defines it.
#[derive(Debug, Clone)]
pub struct ItemMaster {
    pub id: String,
    pub name: String,
    pub image_url: String,
    pub rarity: String,
}

/// A catalog entry as clients consume it.
#[derive(Debug, Clone)]
#[allow(non_snake_case)]
pub struct ItemDetails {
    pub id: String,
    pub name: String,
    pub imageUrl: String,
    pub rarity: String,
}

/// One catalog entry with the shared placeholder image.
fn item(id: &str, name: &str, rarity: &str) -> (r: ItemMaster)
    ensures
        r.id@ == id@,
        r.name@ == name@,
        r.image_url@ == "/gacha/images/placeholder.svg"@,
        r.rarity@ == rarity@,
{
    ItemMaster {
        id: id.to_owned(),
        name: name.to_owned(),
        image_url: "/gacha/images/placeholder.svg".to_owned(),
        rarity: rarity.to_owned(),
    }
}

/// The fixed reward catalog: twelve entries, in this order.
pub fn define_gacha_items() -> (r: Vec<ItemMaster>)
    ensures
        r@.len() == 12,
        forall|i: int|
            0 <= i < 12 ==> (#[trigger] r@[i]).image_url@ == "/gacha/images/placeholder.svg"@,
        r@[0].id@ == "pokemon_001"@ && r@[0].name@ == "Pikachu"@ && r@[0].rarity@ == "rare"@,
        r@[1].id@ == "pokemon_002"@ && r@[1].name@ == "Charizard"@ && r@[1].rarity@
            == "legendary"@,
        r@[2].id@ == "pokemon_003"@ && r@[2].name@ == "Bulbasaur"@ && r@[2].rarity@
            == "uncommon"@,
        r@[3].id@ == "pokemon_004"@ && r@[3].name@ == "Squirtle"@ && r@[3].rarity@ == "uncommon"@,
        r@[4].id@ == "pokemon_005"@ && r@[4].name@ == "Jigglypuff"@ && r@[4].rarity@ == "common"@,
        r@[5].id@ == "pokemon_006"@ && r@[5].name@ == "Eevee"@ && r@[5].rarity@ == "uncommon"@,
        r@[6].id@ == "pokemon_007"@ && r@[6].name@ == "Mewtwo"@ && r@[6].rarity@ == "legendary"@,
        r@[7].id@ == "pokemon_008"@ && r@[7].name@ == "Snorlax"@ && r@[7].rarity@ == "rare"@,
        r@[8].id@ == "pokemon_009"@ && r@[8].name@ == "Gengar"@ && r@[8].rarity@ == "rare"@,
        r@[9].id@ == "pokemon_010"@ && r@[9].name@ == "Magikarp"@ && r@[9].rarity@ == "common"@,
        r@[10].id@ == "pokemon_011"@ && r@[10].name@ == "Psyduck"@ && r@[10].rarity@ == "common"@,
        r@[11].id@ == "pokemon_012"@ && r@[11].name@ == "Mew"@ && r@[11].rarity@ == "legendary"@,
{
    let mut v: Vec<ItemMaster> = Vec::new();
    v.push(item("pokemon_001", "Pikachu", "rare"));
    v.push(item("pokemon_002", "Charizard", "legendary"));
    v.push(item("pokemon_003", "Bulbasaur", "uncommon"));
    v.push(item("pokemon_004", "Squirtle", "uncommon"));
    v.push(item("pokemon_005", "Jigglypuff", "common"));
    v.push(item("pokemon_006", "Eevee", "uncommon"));
    v.push(item("pokemon_007", "Mewtwo", "legendary"));
    v.push(item("pokemon_008", "Snorlax", "rare"));
    v.push(item("pokemon_009", "Gengar", "rare"));
    v.push(item("pokemon_010", "Magikarp", "common"));
    v.push(item("pokemon_011", "Psyduck", "common"));
    v.push(item("pokemon_012", "Mew", "legendary"));
    v
}

} // verus!
