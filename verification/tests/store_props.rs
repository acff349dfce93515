use companion_core::Error;
use companion_core::card::CharacterCard;
use companion_core::card::card_from_parts;
use companion_core::database::Database;
use companion_core::models::CompanionView;
use companion_core::models::ConfigModify;
use companion_core::models::Device;
use companion_core::models::NewMessage;
use companion_core::models::PromptTemplate;
use companion_core::models::UserView;
use companion_core::models::parse_device;
use companion_core::models::parse_template;

fn aria_and_sam(db: &mut Database) {
    let mut companion = db.get_companion_data();
    companion.name = String::from("Aria");
    companion.first_message = String::from("Hello {{user}}, I'm {{char}}.");
    db.edit_companion(companion);
    let mut user = db.get_user_data();
    user.name = String::from("Sam");
    db.edit_user(user);
}

#[test]
fn bootstrap_seeds_one_substituted_greeting() {
    let db = Database::new();
    let greeting = db.get_latest_message().unwrap();
    assert_eq!(greeting.id, 1);
    assert!(greeting.ai);
    assert_eq!(greeting.content, "Hello User, how can i help you today?");
    assert_eq!(db.get_x_messages(50, 0).len(), 1);
}

#[test]
fn reset_seeds_greeting_with_names_resolved() {
    let mut db = Database::new();
    aria_and_sam(&mut db);
    db.erase_messages().unwrap();
    let page = db.get_x_messages(50, 0);
    assert_eq!(page.len(), 1);
    assert!(page[0].ai);
    assert_eq!(page[0].content, "Hello Sam, I'm Aria.");
}

#[test]
fn append_user_then_ai_orders_ids() {
    let mut db = Database::new();
    let user_turn = db
        .insert_message(NewMessage { ai: false, content: String::from("hi") })
        .unwrap();
    let ai_turn = db
        .insert_message(NewMessage { ai: true, content: String::from("hello!") })
        .unwrap();
    assert!(user_turn.id < ai_turn.id);
    assert!(!user_turn.ai);
    assert!(ai_turn.ai);
    let latest = db.get_latest_message().unwrap();
    assert_eq!(latest.id, ai_turn.id);
}

#[test]
fn pagination_is_clipped_and_oldest_first() {
    let mut db = Database::new();
    db.insert_message(NewMessage { ai: false, content: String::from("a") }).unwrap();
    db.insert_message(NewMessage { ai: true, content: String::from("b") }).unwrap();
    db.insert_message(NewMessage { ai: false, content: String::from("c") }).unwrap();
    // log: greeting, a, b, c
    let last_two = db.get_x_messages(2, 0);
    assert_eq!(last_two.len(), 2);
    assert_eq!(last_two[0].content, "b");
    assert_eq!(last_two[1].content, "c");
    let skip_latest = db.get_x_messages(2, 1);
    assert_eq!(skip_latest[0].content, "a");
    assert_eq!(skip_latest[1].content, "b");
    let everything = db.get_x_messages(50, 0);
    assert_eq!(everything.len(), 4);
    let beyond = db.get_x_messages(50, 10);
    assert_eq!(beyond.len(), 0);
}

#[test]
fn get_edit_delete_message_by_id() {
    let mut db = Database::new();
    let m = db.insert_message(NewMessage { ai: false, content: String::from("typo") }).unwrap();
    assert_eq!(db.get_message(m.id).unwrap().content, "typo");
    assert_eq!(db.get_message(999).unwrap_err(), Error::NotFound);
    db.edit_message(m.id, NewMessage { ai: false, content: String::from("fixed") }).unwrap();
    let edited = db.get_message(m.id).unwrap();
    assert_eq!(edited.content, "fixed");
    assert_eq!(edited.created_at, m.created_at);
    assert_eq!(
        db.edit_message(999, NewMessage { ai: true, content: String::new() }).unwrap_err(),
        Error::NotFound
    );
    db.delete_message(m.id).unwrap();
    assert_eq!(db.get_message(m.id).unwrap_err(), Error::NotFound);
    assert_eq!(db.delete_message(m.id).unwrap_err(), Error::NotFound);
}

#[test]
fn delete_latest_message_pops_the_log() {
    let mut db = Database::new();
    db.insert_message(NewMessage { ai: false, content: String::from("x") }).unwrap();
    db.delete_latest_message().unwrap();
    let latest = db.get_latest_message().unwrap();
    assert!(latest.ai);
    db.delete_latest_message().unwrap();
    assert_eq!(db.get_latest_message().unwrap_err(), Error::NotFound);
    assert_eq!(db.delete_latest_message().unwrap_err(), Error::NotFound);
}

#[test]
fn edit_companion_and_user_replace_whole_records() {
    let mut db = Database::new();
    let companion = CompanionView {
        name: String::from("Nova"),
        persona: String::from("{{char}} is terse."),
        example_dialogue: String::from("{{user}}: hi\n{{char}}: hi"),
        first_message: String::from("Greetings {{user}}."),
        long_term_mem: 3,
        short_term_mem: 7,
        roleplay: false,
        dialogue_tuning: false,
        avatar_path: String::from("/assets/nova.png"),
    };
    db.edit_companion(companion);
    let back = db.get_companion_data();
    assert_eq!(back.name, "Nova");
    assert_eq!(back.long_term_mem, 3);
    assert_eq!(back.short_term_mem, 7);
    assert!(!back.roleplay);
    db.edit_user(UserView { name: String::from("Kim"), persona: String::from("curious") });
    let u = db.get_user_data();
    assert_eq!(u.name, "Kim");
    assert_eq!(u.persona, "curious");
}

#[test]
fn card_round_trip_maps_fields_exactly() {
    let mut db = Database::new();
    aria_and_sam(&mut db);
    let card = db.get_companion_card_data();
    assert_eq!(card.name, "Aria");
    assert_eq!(card.first_mes, "Hello {{user}}, I'm {{char}}.");
    let mut other = Database::new();
    other.import_character_json(card);
    let companion = other.get_companion_data();
    assert_eq!(companion.name, "Aria");
    assert_eq!(companion.first_message, "Hello {{user}}, I'm {{char}}.");
    let source = db.get_companion_data();
    assert_eq!(companion.persona, source.persona);
    assert_eq!(companion.example_dialogue, source.example_dialogue);
    // memory budgets and avatar stay those of the importing store
    assert_eq!(companion.long_term_mem, 2);
    assert_eq!(companion.short_term_mem, 5);
    assert_eq!(companion.avatar_path, "/assets/companion_avatar-4rust.jpg");
}

#[test]
fn card_import_with_image_replaces_avatar() {
    let mut db = Database::new();
    let card = CharacterCard {
        name: String::from("Vega"),
        description: String::from("stoic"),
        first_mes: String::from("..."),
        mes_example: String::from(""),
    };
    db.import_character_card(card, "/assets/vega.png");
    let companion = db.get_companion_data();
    assert_eq!(companion.name, "Vega");
    assert_eq!(companion.avatar_path, "/assets/vega.png");
    db.change_companion_avatar("/assets/other.png");
    assert_eq!(db.get_companion_data().avatar_path, "/assets/other.png");
}

#[test]
fn card_from_parts_requires_every_field() {
    let ok = card_from_parts(
        Some(String::from("A")),
        Some(String::from("B")),
        Some(String::from("C")),
        Some(String::from("D")),
    );
    let card = ok.unwrap();
    assert_eq!(card.name, "A");
    assert_eq!(card.description, "B");
    assert_eq!(card.first_mes, "C");
    assert_eq!(card.mes_example, "D");
    let missing = card_from_parts(
        Some(String::from("A")),
        None,
        Some(String::from("C")),
        Some(String::from("D")),
    );
    assert_eq!(missing.unwrap_err(), Error::MalformedCard);
}

#[test]
fn parse_tokens_total_and_strict() {
    assert_eq!(parse_device("CPU").unwrap(), Device::CPU);
    assert_eq!(parse_device("GPU").unwrap(), Device::GPU);
    assert_eq!(parse_device("Metal").unwrap(), Device::Metal);
    assert_eq!(parse_device("cpu").unwrap_err(), Error::ConfigInvalid);
    assert_eq!(parse_template("Default").unwrap(), PromptTemplate::Default);
    assert_eq!(parse_template("Llama2").unwrap(), PromptTemplate::Llama2);
    assert_eq!(parse_template("Mistral").unwrap(), PromptTemplate::Mistral);
    assert_eq!(parse_template("GPT9").unwrap_err(), Error::ConfigInvalid);
}

#[test]
fn change_config_rejects_unknown_tokens_and_keeps_prior_row() {
    let mut db = Database::new();
    let bad_device = ConfigModify {
        device: String::from("Quantum"),
        llm_model_path: String::from("/models/a.gguf"),
        gpu_layers: 9,
        prompt_template: String::from("Default"),
    };
    assert_eq!(db.change_config(bad_device).unwrap_err(), Error::ConfigInvalid);
    let bad_template = ConfigModify {
        device: String::from("CPU"),
        llm_model_path: String::from("/models/a.gguf"),
        gpu_layers: 9,
        prompt_template: String::from("GPT9"),
    };
    assert_eq!(db.change_config(bad_template).unwrap_err(), Error::ConfigInvalid);
    let config = db.get_config();
    assert_eq!(config.device, Device::CPU);
    assert_eq!(config.llm_model_path, "path/to/your/gguf/model.gguf");
    assert_eq!(config.gpu_layers, 20);
    assert_eq!(config.prompt_template, PromptTemplate::Default);
}

#[test]
fn change_config_applies_valid_tokens() {
    let mut db = Database::new();
    let change = ConfigModify {
        device: String::from("Metal"),
        llm_model_path: String::from("/models/b.gguf"),
        gpu_layers: 33,
        prompt_template: String::from("Mistral"),
    };
    db.change_config(change).unwrap();
    let config = db.get_config();
    assert_eq!(config.device, Device::Metal);
    assert_eq!(config.llm_model_path, "/models/b.gguf");
    assert_eq!(config.gpu_layers, 33);
    assert_eq!(config.prompt_template, PromptTemplate::Mistral);
}
