use companion_core::Error;
use companion_core::context::build_system_block;
use companion_core::context::select_window;
use companion_core::database::Database;
use companion_core::models::CompanionView;
use companion_core::models::Message;
use companion_core::models::NewMessage;
use companion_core::models::PromptTemplate;
use companion_core::models::UserView;
use companion_core::orchestrator::TurnEvent;
use companion_core::orchestrator::TurnLock;
use companion_core::orchestrator::TurnPhase;
use companion_core::orchestrator::advance;
use companion_core::orchestrator::commit_reply;
use companion_core::orchestrator::concat_fragments;
use companion_core::orchestrator::prepare_turn;
use companion_core::template::render_dialogue;
use companion_core::template::render_prompt;

fn turn(id: i32, ai: bool, content: &str) -> Message {
    Message { id, ai, content: String::from(content), created_at: String::new() }
}

fn four_turn_log() -> Vec<Message> {
    vec![
        turn(1, false, "t1"),
        turn(2, true, "t2"),
        turn(3, false, "t3"),
        turn(4, true, "t4"),
    ]
}

#[test]
fn window_splits_budgets_chronologically() {
    // short-term 2, long-term 1 over [t1, t2, t3, t4]: long-term [t1],
    // short-term [t3, t4]; t2 falls out.
    let window = select_window(&four_turn_log(), 2, 1);
    assert_eq!(window.long_term.len(), 1);
    assert_eq!(window.long_term[0].content, "t1");
    assert_eq!(window.short_term.len(), 2);
    assert_eq!(window.short_term[0].content, "t3");
    assert_eq!(window.short_term[1].content, "t4");
}

#[test]
fn window_degrades_on_short_logs() {
    let window = select_window(&four_turn_log(), 10, 10);
    assert_eq!(window.short_term.len(), 4);
    assert_eq!(window.long_term.len(), 0);
    let empty: Vec<Message> = Vec::new();
    let window = select_window(&empty, 5, 5);
    assert_eq!(window.short_term.len(), 0);
    assert_eq!(window.long_term.len(), 0);
    let window = select_window(&four_turn_log(), 0, 2);
    assert_eq!(window.short_term.len(), 0);
    assert_eq!(window.long_term.len(), 2);
    assert_eq!(window.long_term[1].content, "t2");
}

#[test]
fn dialogue_renders_speaker_lines() {
    let log = vec![turn(1, false, "hi"), turn(2, true, "hello")];
    let text = render_dialogue(&log, "Aria", "Sam");
    assert_eq!(text, "Sam: hi\nAria: hello\n");
    let none: Vec<Message> = Vec::new();
    assert_eq!(render_dialogue(&none, "Aria", "Sam"), "");
}

#[test]
fn system_block_reflects_mode_flags_and_time_fact() {
    let companion = CompanionView {
        name: String::from("Aria"),
        persona: String::from("{{char}} is calm."),
        example_dialogue: String::from("{{user}}: hey\n{{char}}: hey"),
        first_message: String::from("Hi."),
        long_term_mem: 2,
        short_term_mem: 5,
        roleplay: true,
        dialogue_tuning: true,
        avatar_path: String::new(),
    };
    let user = UserView { name: String::from("Sam"), persona: String::from("{{user}} is curious.") };
    let block = build_system_block(&companion, &user, Some("Monday 01.01.2024 10:00"));
    let expected = "Aria is calm.\nSam is curious.\n\
        Stay in character and never break the roleplay.\n\
        Match the tone and style of the example dialogue.\n\
        Example dialogue:\nSam: hey\nAria: hey\n\
        Current date and time: Monday 01.01.2024 10:00\n";
    assert_eq!(block, expected);
    let mut plain = companion;
    plain.roleplay = false;
    plain.dialogue_tuning = false;
    let block = build_system_block(&plain, &user, None);
    let expected = "Aria is calm.\nSam is curious.\nExample dialogue:\nSam: hey\nAria: hey\n";
    assert_eq!(block, expected);
}

#[test]
fn prompt_grammar_per_template() {
    let rendered = render_prompt(&PromptTemplate::Default, "SYS", "Sam: hi\n", "Aria");
    assert_eq!(rendered, "SYS\nSam: hi\nAria:");
    let rendered = render_prompt(&PromptTemplate::Llama2, "SYS", "Sam: hi\n", "Aria");
    assert_eq!(rendered, "<s>[INST] <<SYS>>\nSYS\n<</SYS>>\n\nSam: hi\n[/INST] Aria:");
    let rendered = render_prompt(&PromptTemplate::Mistral, "SYS", "Sam: hi\n", "Aria");
    assert_eq!(rendered, "<s>[INST] SYS\nSam: hi\n[/INST]");
}

#[test]
fn concat_fragments_in_arrival_order() {
    let fragments = vec![String::from("Hel"), String::from("lo "), String::from("Sam")];
    assert_eq!(concat_fragments(&fragments), "Hello Sam");
    let empty: Vec<String> = Vec::new();
    assert_eq!(concat_fragments(&empty), "");
    let blanks = vec![String::new(), String::new()];
    assert_eq!(concat_fragments(&blanks), "");
}

#[test]
fn prepare_turn_persists_user_turn_and_builds_prompt() {
    let mut db = Database::new();
    let mut companion = db.get_companion_data();
    companion.name = String::from("Aria");
    companion.persona = String::from("{{char}} is calm.");
    companion.example_dialogue = String::from("{{user}}: hey\n{{char}}: hey");
    companion.roleplay = false;
    companion.dialogue_tuning = false;
    companion.short_term_mem = 1;
    companion.long_term_mem = 0;
    db.edit_companion(companion);
    db.edit_user(UserView { name: String::from("Sam"), persona: String::from("A person.") });
    db.erase_messages().unwrap();
    // log is now: greeting "Hello Sam, how can i help you today?" (ai)
    let prompt = prepare_turn(&mut db, "What TIME is it?", "Monday 01.01.2024 10:00").unwrap();
    let expected = "Aria is calm.\nA person.\nExample dialogue:\nSam: hey\nAria: hey\n\
        Current date and time: Monday 01.01.2024 10:00\n\
        \nAria: Hello Sam, how can i help you today?\nSam: What TIME is it?\nAria:";
    assert_eq!(prompt, expected);
    let latest = db.get_latest_message().unwrap();
    assert!(!latest.ai);
    assert_eq!(latest.content, "What TIME is it?");
}

#[test]
fn prepare_turn_without_time_question_has_no_date_fact() {
    let mut db = Database::new();
    let prompt = prepare_turn(&mut db, "hello there", "Monday 01.01.2024 10:00").unwrap();
    assert!(!prompt.contains("Current date and time"));
    assert!(prompt.contains("hello there"));
}

#[test]
fn commit_reply_rejects_empty_stream_and_commits_text() {
    let mut db = Database::new();
    let user_turn = db
        .insert_message(NewMessage { ai: false, content: String::from("hi") })
        .unwrap();
    let empty: Vec<String> = Vec::new();
    assert_eq!(commit_reply(&mut db, &empty).unwrap_err(), Error::GenerationFailed);
    let blanks = vec![String::new()];
    assert_eq!(commit_reply(&mut db, &blanks).unwrap_err(), Error::GenerationFailed);
    // the user turn persisted before generation is still the latest
    let latest = db.get_latest_message().unwrap();
    assert_eq!(latest.id, user_turn.id);
    let reply = commit_reply(&mut db, &vec![String::from("hel"), String::from("lo")]).unwrap();
    assert!(reply.ai);
    assert_eq!(reply.content, "hello");
    assert!(user_turn.id < reply.id);
}

#[test]
fn reply_cycle_phases_advance_in_order() {
    let p = advance(TurnPhase::Idle, TurnEvent::PromptReady);
    assert_eq!(p, TurnPhase::PromptBuilt);
    let p = advance(p, TurnEvent::BackendStarted);
    assert_eq!(p, TurnPhase::Generating);
    let p = advance(p, TurnEvent::StreamFinished);
    assert_eq!(p, TurnPhase::Committed);
    assert_eq!(advance(TurnPhase::Idle, TurnEvent::StreamFinished), TurnPhase::Failed);
    assert_eq!(advance(TurnPhase::Generating, TurnEvent::Failure), TurnPhase::Failed);
}

#[test]
fn turn_lock_serializes_generations() {
    let mut lock = TurnLock::new();
    assert!(lock.try_acquire());
    assert!(!lock.try_acquire());
    lock.release();
    assert!(lock.try_acquire());
}
