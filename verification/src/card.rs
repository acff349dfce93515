//! Character-card interchange: the portable persona record shared with
//! other chat front-ends, and its validation.

use vstd::prelude::*;

use crate::error::Error;
use crate::models::CompanionModel;

verus! {

/// A portable persona record: a map-through of the persona-shaping
/// companion fields for cross-tool portability. `description` carries the
/// persona text, `first_mes` the greeting, `mes_example` the example
/// dialogue.
#[derive(Debug)]
pub struct CharacterCard {
    pub name: String,
    pub description: String,
    pub first_mes: String,
    pub mes_example: String,
}

/// The mathematical value of a character card.
#[verifier::ext_equal]
pub ghost struct CardModel {
    pub name: Seq<char>,
    pub description: Seq<char>,
    pub first_mes: Seq<char>,
    pub mes_example: Seq<char>,
}

impl View for CharacterCard {
    type V = CardModel;

    open spec fn view(&self) -> CardModel {
        CardModel {
            name: self.name@,
            description: self.description@,
            first_mes: self.first_mes@,
            mes_example: self.mes_example@,
        }
    }
}

/// The card exported from a companion record: exactly its persona-shaping
/// fields, under the interchange field names.
pub open spec fn spec_card_of(c: CompanionModel) -> CardModel {
    CardModel {
        name: c.name,
        description: c.persona,
        first_mes: c.first_message,
        mes_example: c.example_dialogue,
    }
}

/// The companion record after a card import: the persona-shaping fields
/// come from the card; every other field keeps its prior value.
pub open spec fn spec_companion_after_import(c: CompanionModel, card: CardModel) -> CompanionModel {
    CompanionModel {
        name: card.name,
        persona: card.description,
        first_message: card.first_mes,
        example_dialogue: card.mes_example,
        ..c
    }
}

/// Exporting a companion as a card and importing that same card back is
/// the identity on the four mapped fields, and leaves the configuration
/// and memory-budget fields of any companion it is applied to unchanged.
pub proof fn lemma_card_round_trip(c: CompanionModel, target: CompanionModel)
    ensures
        spec_companion_after_import(target, spec_card_of(c)) == (CompanionModel {
            name: c.name,
            persona: c.persona,
            first_message: c.first_message,
            example_dialogue: c.example_dialogue,
            ..target
        }),
        spec_companion_after_import(c, spec_card_of(c)) == c,
{
    assert(spec_companion_after_import(c, spec_card_of(c)) =~= c);
}

/// Assembles a card from its decoded fields. Succeeds exactly when every
/// required field is present; otherwise the import is rejected as
/// `MalformedCard`.
pub fn card_from_parts(
    name: Option<String>,
    description: Option<String>,
    first_mes: Option<String>,
    mes_example: Option<String>,
) -> (r: Result<CharacterCard, Error>)
    ensures
        r is Ok <==> (name is Some && description is Some && first_mes is Some
            && mes_example is Some),
        r is Ok ==> {
            &&& r->Ok_0.name@ == name->0@
            &&& r->Ok_0.description@ == description->0@
            &&& r->Ok_0.first_mes@ == first_mes->0@
            &&& r->Ok_0.mes_example@ == mes_example->0@
        },
        r is Err ==> r->Err_0 == Error::MalformedCard,
{
    match (name, description, first_mes, mes_example) {
        (Some(name), Some(description), Some(first_mes), Some(mes_example)) => Ok(
            CharacterCard { name, description, first_mes, mes_example },
        ),
        _ => Err(Error::MalformedCard),
    }
}

} // verus!
